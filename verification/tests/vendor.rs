use nuefi::proto::device_path::DevicePath;
use nuefi::proto::vendor::linux::{InitrdMediaGuid, RawInitrdMediaGuid};
use nuefi::proto::Entity;

#[test]
fn initrd_media_path_bytes() {
    let b = RawInitrdMediaGuid::create().to_bytes();
    assert_eq!(
        b,
        vec![
            0x04, 0x03, 20, 0, // vendor media node, 20 bytes
            0x27, 0xE4, 0x68, 0x55, 0xFC, 0x68, 0x3D, 0x4F, 0xAC, 0x74, 0xCA, 0x55, 0x52, 0x31, 0xCC, 0x68,
            0x7F, 0xFF, 4, 0, // end of path
        ]
    );
    assert_eq!(<InitrdMediaGuid as Entity>::name(), "InitrdMediaGuid");
    let p = InitrdMediaGuid { path: DevicePath::new(0x33) };
    assert_eq!(p.as_device_path().as_ptr(), 0x33);
}
