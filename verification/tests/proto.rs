use nuefi::proto::console::SimpleTextOutput;
use nuefi::proto::device_path::{DevicePath, DevicePathToText, DevicePathUtil};
use nuefi::proto::edid::{ActiveEdid, DiscoveredEdid, RawEdidActive};
use nuefi::proto::graphics::GraphicsOutput;
use nuefi::proto::loaded_image::{LoadedImage, LoadedImageDevicePath, RawLoadedImage};
use nuefi::proto::media::{FsInfo, LoadFile2, SimpleFileSystem};
use nuefi::proto::platform_init::security::{RawSecurityArch, RawSecurityArch2, SecurityArch, SecurityArch2};
use nuefi::proto::{Entity, Guid, Time};

#[test]
fn guid_from_mixed_endian_bytes() {
    // The first three fields are stored little-endian
    let g = Guid::from_bytes([
        0x5B, 0x1B, 0x31, 0xA1, 0x95, 0x62, 0x11, 0xD2, 0x8E, 0x3F, 0x00, 0xA0, 0xC9, 0x69, 0x72, 0x3B,
    ]);
    assert_eq!(
        g.to_bytes(),
        [0xA1, 0x31, 0x1B, 0x5B, 0x62, 0x95, 0xD2, 0x11, 0x8E, 0x3F, 0x00, 0xA0, 0xC9, 0x69, 0x72, 0x3B]
    );
}

#[test]
fn guid_equality() {
    let a = Guid::from_bytes([1; 16]);
    let b = Guid::from_bytes([1; 16]);
    let mut bytes = [1; 16];
    bytes[15] = 2;
    let c = Guid::from_bytes(bytes);
    assert!(a == b);
    assert!(a != c);
}

#[test]
fn time_layout() {
    let b = [
        0xE7, 0x07, 12, 31, 23, 59, 58, 0, 0x15, 0xCD, 0x5B, 0x07, 0xF0, 0xFF, 1, 0,
    ];
    let t = Time::from_bytes(&b, 0);
    assert_eq!(t.year, 2023);
    assert_eq!((t.month, t.day, t.hour, t.minute, t.second), (12, 31, 23, 59, 58));
    assert_eq!(t.nanosecond, 123456789);
    assert_eq!(t.time_zone, -16);
    assert_eq!(t.daylight, 1);
}

fn image() -> RawLoadedImage {
    RawLoadedImage {
        revision: 0x1000,
        parent: 1,
        system_table: 2,
        device: 0,
        path: 0,
        _reserved: 0,
        options_size: 0,
        options: 0,
        image_base: 0x40_0000,
        image_size: 0x2000,
        image_code: 1,
        image_data: 2,
        unload: 0,
    }
}

#[test]
fn loaded_image_fields() {
    let mut img = LoadedImage { raw: image() };
    assert_eq!(img.image_base(), 0x40_0000);
    assert_eq!(img.image_size(), 0x2000);
    assert_eq!(img.device(), None);
    assert_eq!(img.file_path(), None);
    assert_eq!(img.options(), None);
    assert_eq!(img.shell_options(), None);
    img.set_device(0x77);
    img.set_path(0x88);
    assert_eq!(img.device(), Some(0x77));
    assert_eq!(img.file_path(), Some(0x88));
}

#[test]
fn loaded_image_options() {
    let mut img = LoadedImage { raw: image() };
    img.set_options(0x5000, 6, 2);
    assert_eq!(img.raw.options_size, 12);
    assert_eq!(img.options(), Some(Ok((0x5000, 12))));
    assert_eq!(img.shell_options(), Some(Ok((0x5000, 6))));
    img.set_options(0x5000, 3, 1);
    assert_eq!(
        img.shell_options(),
        Some(Err(nuefi::error::UefiError::new(nuefi::error::EfiStatus::invalid_parameter())))
    );
}

#[test]
fn edid_present_only_with_data() {
    let e = ActiveEdid { raw: RawEdidActive { size: 128, edid: 0x9000 } };
    assert_eq!(e.edid(), Some((0x9000, 128)));
    assert_eq!(ActiveEdid { raw: RawEdidActive { size: 0, edid: 0x9000 } }.edid(), None);
    assert_eq!(ActiveEdid { raw: RawEdidActive { size: 128, edid: 0 } }.edid(), None);
}

#[test]
fn security_protocols() {
    assert_eq!(RawSecurityArch::create(3).auth_state, Some(3));
    assert_eq!(RawSecurityArch2::create(4).auth, Some(4));
}

#[test]
fn guid_swap_undoes_itself() {
    let bytes = [1, 2, 3, 4, 5, 6, 7, 8, 9, 10, 11, 12, 13, 14, 15, 16];
    let once = Guid::from_bytes(bytes).to_bytes();
    assert_eq!(once, [4, 3, 2, 1, 6, 5, 8, 7, 9, 10, 11, 12, 13, 14, 15, 16]);
    assert_eq!(Guid::from_bytes(once).to_bytes(), bytes);
}

#[test]
fn protocol_guids_and_names() {

    // 5B1B31A1-9562-11D2-8E3F-00A0C969723B, stored mixed-endian
    assert_eq!(
        <LoadedImage as Entity>::guid().to_bytes(),
        [0xA1, 0x31, 0x1B, 0x5B, 0x62, 0x95, 0xD2, 0x11, 0x8E, 0x3F, 0x00, 0xA0, 0xC9, 0x69, 0x72, 0x3B]
    );
    assert_eq!(<LoadedImage as Entity>::name(), "LoadedImage");
    // 964E5B22-6459-11D2-8E39-00A0C969723B
    assert_eq!(
        <SimpleFileSystem as Entity>::guid().to_bytes(),
        [0x22, 0x5B, 0x4E, 0x96, 0x59, 0x64, 0xD2, 0x11, 0x8E, 0x39, 0x00, 0xA0, 0xC9, 0x69, 0x72, 0x3B]
    );
    // 09576E92-6D3F-11D2-8E39-00A0C969723B
    assert_eq!(
        <FsInfo as Entity>::guid().to_bytes(),
        [0x92, 0x6E, 0x57, 0x09, 0x3F, 0x6D, 0xD2, 0x11, 0x8E, 0x39, 0x00, 0xA0, 0xC9, 0x69, 0x72, 0x3B]
    );
    assert!(<DevicePath as Entity>::guid() != <FsInfo as Entity>::guid());
    assert_eq!(<SimpleTextOutput as Entity>::name(), "SimpleTextOutput");
    assert_eq!(<GraphicsOutput as Entity>::name(), "GraphicsOutput");
    assert_eq!(<DevicePathUtil as Entity>::name(), "DevicePathUtil");
    assert_eq!(<DevicePathToText as Entity>::name(), "DevicePathToText");
    assert_eq!(<DiscoveredEdid as Entity>::name(), "DiscoveredEdid");
    assert_eq!(<ActiveEdid as Entity>::name(), "ActiveEdid");
    assert_eq!(<LoadFile2 as Entity>::name(), "LoadFile2");
    assert_eq!(<SecurityArch as Entity>::name(), "SecurityArch");
    assert_eq!(<SecurityArch2 as Entity>::name(), "SecurityArch2");
    assert_eq!(<LoadedImageDevicePath as Entity>::name(), "LoadedImageDevicePath");
}

#[test]
fn loaded_image_device_path() {
    let p = LoadedImageDevicePath { path: DevicePath::new(0x42) };
    assert_eq!(p.as_device_path().as_ptr(), 0x42);
}

#[test]
fn shell_options_read_back() {
    let mut img = LoadedImage { raw: image() };
    img.set_shell_options(0x7000, 5);
    assert_eq!(img.raw.options_size, 10);
    assert_eq!(img.shell_options(), Some(Ok((0x7000, 5))));
    assert_eq!(img.options(), Some(Ok((0x7000, 10))));
}
