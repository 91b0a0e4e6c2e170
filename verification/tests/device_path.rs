use nuefi::error::{EfiStatus, UefiError};
use nuefi::proto::device_path::{
    file_path_node, AsDevicePath, DevicePath, DevicePathToText, DevicePathUtil, RawDevicePath,
    RawDevicePathSubType, RawDevicePathToText, RawDevicePathType, RawDevicePathUtil,
};
use nuefi::string::{Path, PathBuf};

#[test]
fn end_node_bytes() {
    assert_eq!(RawDevicePath::end().to_bytes(), [0x7F, 0xFF, 4, 0]);
    assert_eq!(RawDevicePathType::end().0, 0x7F);
    assert_eq!(RawDevicePathSubType::end_entire().0, 0xFF);
    assert_eq!(RawDevicePathSubType::end_instance().0, 0x01);
}

#[test]
fn media_file_header_adds_its_own_length() {
    let n = RawDevicePath::media_file(10);
    assert_eq!(n.to_bytes(), [0x04, 0x04, 14, 0]);
    let big = RawDevicePath::media_file(0x1234);
    assert_eq!(big.to_bytes(), [0x04, 0x04, 0x38, 0x12]);
}

#[test]
fn create_header() {
    let n = RawDevicePath::create(0x01, 0x02, 0x0304);
    assert_eq!(n.to_bytes(), [0x01, 0x02, 0x04, 0x03]);
    assert_eq!(RawDevicePathType::hardware().0, 0x01);
    assert_eq!(RawDevicePathType::acpi().0, 0x02);
    assert_eq!(RawDevicePathType::messaging().0, 0x03);
    assert_eq!(RawDevicePathType::media().0, 0x04);
    assert_eq!(RawDevicePathType::bios().0, 0x05);
    assert_eq!(RawDevicePathSubType::media_file().0, 0x04);
}

#[test]
fn file_path_node_layout() {
    let node = file_path_node("\\a").unwrap();
    // header, "\a" and its nul as UTF-16LE, end node
    assert_eq!(
        node,
        vec![0x04, 0x04, 10, 0, 0x5C, 0, 0x61, 0, 0, 0, 0x7F, 0xFF, 4, 0]
    );
}

#[test]
fn file_path_node_of_empty_path() {
    assert_eq!(file_path_node("").unwrap(), vec![0x04, 0x04, 6, 0, 0, 0, 0x7F, 0xFF, 4, 0]);
}

#[test]
fn file_path_node_too_long() {
    let long: String = "x".repeat(0x8000);
    assert_eq!(file_path_node(&long), Err(UefiError::new(EfiStatus::bad_buffer_size())));
    // the longest path whose node length still fits
    let fits: String = "x".repeat(0x7FFC);
    let node = file_path_node(&fits).unwrap();
    assert_eq!(&node[..4], &[0x04, 0x04, 0xFE, 0xFF]);
}

fn util() -> DevicePathUtil {
    DevicePathUtil {
        raw: RawDevicePathUtil {
            get_device_path_size: Some(1),
            duplicate_device_path: Some(2),
            append_device_path: Some(3),
            append_device_node: Some(4),
            append_device_path_instance: 0,
            get_next_device_path_instance: 0,
            is_device_path_multi_instance: 0,
            create_device_node: 0,
        },
    }
}

fn text() -> DevicePathToText {
    DevicePathToText {
        raw: RawDevicePathToText { convert_device_node_to_text: Some(5), convert_device_path_to_text: Some(6) },
    }
}

#[test]
fn device_path_size_leaves_out_end_node() {
    assert_eq!(util().get_device_path_size(30), 26);
    assert_eq!(util().get_device_path_size(4), 0);
}

#[test]
fn duplicate_and_append() {
    assert_eq!(util().duplicate(0x500), Ok(DevicePath::new(0x500)));
    assert_eq!(util().duplicate(0), Err(UefiError::new(EfiStatus::out_of_resources())));
    assert_eq!(util().append(0x600).as_ptr(), 0x600);
    let p = DevicePath::new(0x700);
    assert_eq!(p.as_device_path(), &p);
}

#[test]
fn text_conversion() {
    let buf = [0x50, 0x63, 0x69, 0, 0x7A];
    let s = text().convert_device_path_to_text(Some(&buf)).unwrap();
    assert_eq!(s.as_uefi_str().as_slice_with_nul(), &[0x50, 0x63, 0x69, 0]);
    let n = text().convert_device_node_to_text(Some(&buf)).unwrap();
    assert_eq!(n.as_uefi_str().into_string(), "Pci");
    assert_eq!(
        text().convert_device_path_to_text(None).unwrap_err(),
        UefiError::new(EfiStatus::out_of_resources())
    );
}

#[test]
fn device_path_to_string() {
    let p = DevicePath::new(1);
    let buf = [0x41, 0xD800, 0x42, 0];
    assert_eq!(p.to_string(true, Ok(text()), Some(&buf)), Ok(String::from("A\u{FFFD}B")));
    assert_eq!(
        p.to_string(false, Ok(text()), Some(&buf)),
        Err(UefiError::new(EfiStatus::device_error()))
    );
    assert_eq!(
        p.to_string(true, Err(UefiError::new(EfiStatus::not_found())), Some(&buf)),
        Err(UefiError::new(EfiStatus::not_found()))
    );
    assert_eq!(
        p.to_string(true, Ok(text()), None),
        Err(UefiError::new(EfiStatus::out_of_resources()))
    );
    let u = p.to_uefi_string(true, Ok(text()), Some(&buf)).unwrap();
    assert_eq!(u.as_uefi_str().as_slice(), &[0x41, 0xD800, 0x42]);
}

#[test]
fn path_copies() {
    let path = Path::new(DevicePath::new(0x900));
    assert_eq!(path.as_device().as_ptr(), 0x900);
    let copy = path.to_path_buf(true, Ok(Some(util())), 0xA00).unwrap();
    assert_eq!(copy.as_path().as_device().as_ptr(), 0xA00);
    let unsupported = UefiError::new(EfiStatus::unsupported());
    assert_eq!(path.to_path_buf(false, Ok(Some(util())), 0xA00).unwrap_err(), unsupported);
    assert_eq!(path.to_path_buf(true, Ok(None), 0xA00).unwrap_err(), unsupported);
    assert_eq!(
        path.to_path_buf(true, Ok(Some(util())), 0).unwrap_err(),
        UefiError::new(EfiStatus::out_of_resources())
    );
    let owned = PathBuf::new(DevicePath::new(0xB00));
    let again = owned.try_clone(true, Ok(Some(util())), 0xC00).unwrap();
    assert_eq!(again.as_path().as_device().as_ptr(), 0xC00);
    assert_eq!(
        owned.try_clone(true, Err(UefiError::new(EfiStatus::device_error())), 0xC00).unwrap_err(),
        UefiError::new(EfiStatus::device_error())
    );
}

#[test]
fn path_text() {
    let path = Path::new(DevicePath::new(1));
    let buf = [0x78, 0xDFFF, 0];
    assert_eq!(path.to_string_lossy(true, Ok(Some(text())), Some(&buf)), Ok(String::from("x\u{FFFD}")));
    assert_eq!(
        path.to_string_lossy(true, Ok(None), Some(&buf)),
        Err(UefiError::new(EfiStatus::unsupported()))
    );
    assert_eq!(
        path.to_string_lossy(false, Ok(Some(text())), Some(&buf)),
        Err(UefiError::new(EfiStatus::unsupported()))
    );
    let t = path.to_text(true, Ok(Some(text())), Some(&buf)).unwrap();
    assert_eq!(t.as_uefi_str().as_slice_with_nul(), &buf);
    assert_eq!(
        path.to_text(true, Ok(Some(text())), None).unwrap_err(),
        UefiError::new(EfiStatus::out_of_resources())
    );
}

#[test]
fn file_path_node_length_field() {
    for path in ["", "\\EFI\\BOOT\\BOOTX64.EFI", "\u{e9}\u{1F600}"] {
        let node = file_path_node(path).unwrap();
        let len = u16::from_le_bytes([node[2], node[3]]) as usize;
        assert_eq!(len, node.len() - 4);
        assert_eq!(&node[node.len() - 4..], &[0x7F, 0xFF, 4, 0]);
    }
}

#[test]
fn path_to_string_is_lossy() {
    let path = Path::new(DevicePath::new(1));
    let buf = [0x61, 0xD801, 0];
    assert_eq!(path.to_string(true, Ok(Some(text())), Some(&buf)), Ok(String::from("a\u{FFFD}")));
    assert_eq!(
        path.to_string(true, Err(UefiError::new(EfiStatus::not_found())), Some(&buf)),
        Err(UefiError::new(EfiStatus::not_found()))
    );
}
