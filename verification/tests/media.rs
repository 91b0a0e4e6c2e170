use nuefi::error::{EfiStatus, UefiError};
use nuefi::proto::media::{
    DirReader, DirStep, FsHandle, FsInfo, RawFsInfo, RawLoadFile2, DIRECTORY, FS_INFO_SIZE, MODE_READ,
};
use nuefi::proto::Time;

fn record(file_size: u64, flags: u64, name: &str) -> Vec<u8> {
    let mut v = vec![0u8; FS_INFO_SIZE];
    let units: Vec<u16> = name.encode_utf16().chain(std::iter::once(0)).collect();
    let total = (FS_INFO_SIZE + 2 * units.len()) as u64;
    v[0..8].copy_from_slice(&total.to_le_bytes());
    v[8..16].copy_from_slice(&file_size.to_le_bytes());
    v[16..24].copy_from_slice(&(file_size + 7).to_le_bytes());
    // create time: 2023-05-17 10:20:30
    v[24..26].copy_from_slice(&2023u16.to_le_bytes());
    v[26] = 5;
    v[27] = 17;
    v[28] = 10;
    v[29] = 20;
    v[30] = 30;
    v[72..80].copy_from_slice(&flags.to_le_bytes());
    for u in units {
        v.extend_from_slice(&u.to_le_bytes());
    }
    v
}

#[test]
fn fs_info_from_bytes() {
    let info = FsInfo::from_bytes(record(1234, 0x20, "boot.efi")).unwrap();
    assert_eq!(info.name(), "boot.efi");
    assert_eq!(info.size(), 1234);
    assert_eq!(info.dev_size(), 1241);
    assert!(!info.directory());
    assert!(!info.is_dot_entry());
}

#[test]
fn fs_info_directory_flag() {
    let info = FsInfo::from_bytes(record(0, DIRECTORY | 0x1, "EFI")).unwrap();
    assert!(info.directory());
    assert_eq!(info.name(), "EFI");
}

#[test]
fn fs_info_lossy_name() {
    let mut v = record(1, 0, "");
    v.truncate(FS_INFO_SIZE);
    v.extend_from_slice(&[0x61, 0, 0x00, 0xD8, 0, 0]);
    let info = FsInfo::from_bytes(v).unwrap();
    assert_eq!(info.name(), "a\u{FFFD}");
}

#[test]
fn dot_entries() {
    assert!(FsInfo::from_bytes(record(0, DIRECTORY, ".")).unwrap().is_dot_entry());
    assert!(FsInfo::from_bytes(record(0, DIRECTORY, "..")).unwrap().is_dot_entry());
    assert!(!FsInfo::from_bytes(record(0, DIRECTORY, "...")).unwrap().is_dot_entry());
    assert!(!FsInfo::from_bytes(record(0, DIRECTORY, ".a")).unwrap().is_dot_entry());
}

#[test]
fn close_only_once() {
    let mut h = FsHandle::new();
    assert!(h.close());
    assert!(!h.close());
    assert!(!h.close());
}

#[test]
fn exists_from_info() {
    let found: Result<FsInfo, UefiError> = FsInfo::from_bytes(record(1, 0, "a"));
    assert_eq!(FsHandle::try_exists(&found), Ok(true));
    assert!(FsHandle::entity_exists(&found));
    let missing: Result<FsInfo, UefiError> = Err(UefiError::new(EfiStatus::not_found()));
    assert_eq!(FsHandle::try_exists(&missing), Ok(false));
    assert!(!FsHandle::entity_exists(&missing));
    let broken: Result<FsInfo, UefiError> = Err(UefiError::new(EfiStatus::device_error()));
    assert_eq!(FsHandle::try_exists(&broken), Err(UefiError::new(EfiStatus::device_error())));
    assert!(!FsHandle::entity_exists(&broken));
}

#[test]
fn reading_files_and_directories() {
    let file = FsInfo::from_bytes(record(4096, 0, "f")).unwrap();
    let dir = FsInfo::from_bytes(record(0, DIRECTORY, "d")).unwrap();
    let bad = Err(UefiError::new(EfiStatus::invalid_parameter()));
    assert_eq!(FsHandle::read_to_end(&file), Ok(4096));
    assert_eq!(FsHandle::read_to_end(&dir), Err(UefiError::new(EfiStatus::invalid_parameter())));
    assert_eq!(FsHandle::read(&file), Ok(()));
    assert_eq!(FsHandle::read(&dir), bad);
    assert_eq!(FsHandle::read_dir(&dir), Ok(()));
    assert_eq!(FsHandle::read_dir(&file), bad);
}

#[test]
fn open_request() {
    let r = FsHandle::open("\\EFI");
    assert_eq!(r.name, vec![0x5C, 0x45, 0x46, 0x49, 0]);
    assert_eq!(r.mode, MODE_READ);
    assert_eq!(r.attributes, 0);
}

#[test]
fn info_size_answers() {
    assert_eq!(FsHandle::info_size(EfiStatus::buffer_too_small(), 100), Ok(100));
    assert_eq!(
        FsHandle::info_size(EfiStatus::buffer_too_small(), 0),
        Err(UefiError::new(EfiStatus::invalid_parameter()))
    );
    assert_eq!(
        FsHandle::info_size(EfiStatus::device_error(), 100),
        Err(UefiError::new(EfiStatus::device_error()))
    );
    assert_eq!(
        FsHandle::info_size(EfiStatus::success(), 100),
        Err(UefiError::new_status(EfiStatus::success()))
    );
}

#[test]
fn info_answers() {
    let i = FsHandle::info(EfiStatus::success(), record(9, 0, "x")).unwrap();
    assert_eq!(i.name(), "x");
    assert_eq!(
        FsHandle::info(EfiStatus::device_error(), Vec::new()).unwrap_err(),
        UefiError::new(EfiStatus::device_error())
    );
}

#[test]
fn read_sizes() {
    assert_eq!(FsHandle::read_impl_size(EfiStatus::success(), 0), Ok(0));
    assert_eq!(FsHandle::read_impl_size(EfiStatus::buffer_too_small(), 512), Ok(512));
    assert_eq!(
        FsHandle::read_impl_size(EfiStatus::success(), 5),
        Err(UefiError::new_status(EfiStatus::success()))
    );
    assert_eq!(
        FsHandle::read_impl_size(EfiStatus::device_error(), 0),
        Err(UefiError::new(EfiStatus::device_error()))
    );
}

#[test]
fn position_and_open_volume() {
    assert_eq!(FsHandle::position(EfiStatus::success(), 77), Ok(77));
    assert_eq!(FsHandle::position(EfiStatus::unsupported(), 77), Err(UefiError::new(EfiStatus::unsupported())));
    assert_eq!(FsHandle::open_volume(EfiStatus::success(), 0x10), Ok(0x10));
    assert_eq!(FsHandle::open_volume(EfiStatus::access_denied(), 0), Err(UefiError::new(EfiStatus::access_denied())));
}

#[test]
fn directory_steps() {
    let mut reader = DirReader::new();
    assert!(!reader.done());
    assert!(matches!(reader.step(Ok(90), record(0, DIRECTORY, ".")), DirStep::Skip));
    assert!(matches!(reader.step(Ok(90), record(0, DIRECTORY, "..")), DirStep::Skip));
    match reader.step(Ok(90), record(3, 0, "a.txt")) {
        DirStep::Entry(i) => {
            assert_eq!(i.name(), "a.txt");
            assert_eq!(i.size(), 3);
        }
        _ => panic!("expected an entry"),
    }
    match reader.step(Err(UefiError::new(EfiStatus::device_error())), Vec::new()) {
        DirStep::Error(e) => assert_eq!(e, UefiError::new(EfiStatus::device_error())),
        _ => panic!("expected an error"),
    }
    assert!(!reader.done());
    assert!(matches!(reader.step(Ok(0), Vec::new()), DirStep::End));
    assert!(reader.done());
}

#[test]
fn directory_rewind() {
    assert!(DirReader::rewound(Ok(())).is_none());
    let e = UefiError::new(EfiStatus::device_error());
    assert_eq!(DirReader::rewound(Err(e)).unwrap().unwrap_err(), e);
}

#[test]
fn whole_read_answers_requested_size() {
    assert_eq!(FsHandle::read_impl(64, Ok(10)), Ok(64));
    let e = UefiError::new(EfiStatus::device_error());
    assert_eq!(FsHandle::read_impl(64, Err(e)), Err(e));
}

#[test]
fn raw_fs_info_times() {
    let v = record(0, 0, "t");
    let t = Time::from_bytes(&v, 24);
    assert_eq!((t.year, t.month, t.day, t.hour, t.minute, t.second), (2023, 5, 17, 10, 20, 30));
    let info = FsInfo::new(
        RawFsInfo {
            size: 0,
            file_size: 5,
            physical_size: 8,
            create_time: t,
            last_access_time: t,
            modification_time: t,
            flags: 0,
        },
        String::from("n"),
    );
    assert_eq!(info.name(), "n");
    assert_eq!(info.size(), 5);
    assert_eq!(RawLoadFile2::create(7).load_file, Some(7));
}

#[test]
fn read_into_buffer() {
    assert_eq!(FsHandle::read_impl_write(EfiStatus::success(), 12), Ok(12));
    assert_eq!(
        FsHandle::read_impl_write(EfiStatus::device_error(), 12),
        Err(UefiError::new(EfiStatus::device_error()))
    );
}
