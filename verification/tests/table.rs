use nuefi::error::EfiStatus;
use nuefi::table::raw::{
    Header, RawBootServices, RawSystemTable, Revision, BOOT_SERVICES_SIGNATURE, BOOT_SERVICES_SIZE,
    RUNTIME_SERVICES_SIGNATURE, SYSTEM_TABLE_SIGNATURE,
};

#[test]
fn revision() {
    let rev = Revision::new(2, 70);
    assert_eq!(rev.major(), 2);
    assert_eq!(rev.minor(), 70);
}

#[test]
fn raw_revision() {
    let rev = Revision::new(2, 70);
    assert_eq!(rev.major(), 2);
    assert_eq!(rev.minor(), 70);
}

#[test]
fn revision_parts_large() {
    let rev = Revision::new(0xFFFF, 0xFFFF);
    assert_eq!(rev.0, 0xFFFF_FFFF);
    assert_eq!(rev.major(), 0xFFFF);
    assert_eq!(rev.minor(), 0xFFFF);
}

fn header_bytes(sig: u64, rev: u32, size: u32, crc: u32) -> Vec<u8> {
    let h = Header { signature: sig, revision: Revision(rev), size, crc32: crc, reserved: 0 };
    h.to_bytes()
}

#[test]
fn header_roundtrip() {
    let h = Header {
        signature: 0x0102030405060708,
        revision: Revision(0x20046),
        size: 24,
        crc32: 0xDEADBEEF,
        reserved: 7,
    };
    let b = h.to_bytes();
    assert_eq!(b.len(), 24);
    assert_eq!(b[0], 0x08);
    assert_eq!(b[7], 0x01);
    assert_eq!(Header::from_bytes(&b), h);
}

#[test]
fn header_checksum_is_crc32_of_zeroed_table() {
    // The CRC field does not take part in the checksum
    let b = header_bytes(SYSTEM_TABLE_SIGNATURE, 0x20046, 24, 0x1234_5678);
    assert_eq!(Header::checksum(&b), 0xe63801e1);
}

#[test]
fn header_only_table_validates() {
    let b = header_bytes(SYSTEM_TABLE_SIGNATURE, 0x20046, 24, 0xe63801e1);
    assert_eq!(Header::validate(&b, SYSTEM_TABLE_SIGNATURE), Ok(()));
}

#[test]
fn header_crc_mismatch() {
    let b = header_bytes(SYSTEM_TABLE_SIGNATURE, 0x20046, 24, 0xe63801e2);
    let e = Header::validate(&b, SYSTEM_TABLE_SIGNATURE).unwrap_err();
    assert_eq!(e.status(), EfiStatus::crc_error());
}

#[test]
fn header_old_revision_unsupported() {
    let mut b = header_bytes(SYSTEM_TABLE_SIGNATURE, 0x2003C, 24, 0);
    let crc = Header::checksum(&b);
    b = header_bytes(SYSTEM_TABLE_SIGNATURE, 0x2003C, 24, crc);
    let e = Header::validate(&b, SYSTEM_TABLE_SIGNATURE).unwrap_err();
    assert_eq!(e.status(), EfiStatus::unsupported());
}

#[test]
fn header_wrong_signature() {
    let b = header_bytes(SYSTEM_TABLE_SIGNATURE, 0x20046, 24, 0xe63801e1);
    let e = Header::validate(&b, BOOT_SERVICES_SIGNATURE).unwrap_err();
    assert_eq!(e.status(), EfiStatus::invalid_parameter());
}

#[test]
fn mock_system_table() {
    let t = RawSystemTable::mock();
    assert_eq!(t.header.crc32, 0x250ff633);
    assert_eq!(t.firmware_revision, 69420);
    let b = t.to_bytes();
    assert_eq!(b.len(), 120);
    assert_eq!(Header::validate(&b, SYSTEM_TABLE_SIGNATURE), Ok(()));
}

#[test]
fn mock_boot_services_has_no_crc() {
    let t = RawBootServices::mock();
    assert_eq!(t.services.len(), 44);
    let b = t.to_bytes();
    assert_eq!(b.len() as u32, BOOT_SERVICES_SIZE);
    let e = Header::validate(&b, BOOT_SERVICES_SIGNATURE).unwrap_err();
    assert_eq!(e.status(), EfiStatus::crc_error());
}

#[test]
fn system_table_validation_order() {
    let sys = RawSystemTable::mock().to_bytes();
    let mut boot = RawBootServices::mock();
    let crc = Header::checksum(&boot.to_bytes());
    boot.header.crc32 = crc;
    let boot = boot.to_bytes();
    let rt = header_bytes(RUNTIME_SERVICES_SIGNATURE, 0x20046, 24, 0);
    let rt_crc = Header::checksum(&rt);
    let rt = header_bytes(RUNTIME_SERVICES_SIGNATURE, 0x20046, 24, rt_crc);
    assert_eq!(RawSystemTable::validate(&sys, &boot, &rt), Ok(()));
    // A broken runtime services table is found last
    let bad_rt = header_bytes(RUNTIME_SERVICES_SIGNATURE, 0x20046, 24, rt_crc ^ 1);
    assert_eq!(
        RawSystemTable::validate(&sys, &boot, &bad_rt).unwrap_err().status(),
        EfiStatus::crc_error()
    );
    // Swapped tables fail on the signature of the boot services table
    assert_eq!(
        RawSystemTable::validate(&sys, &rt, &boot).unwrap_err().status(),
        EfiStatus::invalid_parameter()
    );
}

#[test]
fn system_table_read_back() {
    let mut t = RawSystemTable::mock();
    t.con_out = 0x1111;
    t.boot_services = 0x2222_3333_4444;
    t.configuration_table = 0x55;
    t.number_of_table_entries = 3;
    let b = t.to_bytes();
    assert_eq!(RawSystemTable::from_bytes(&b), t);
    assert_eq!(RawSystemTable::from_bytes(&RawSystemTable::mock().to_bytes()), RawSystemTable::mock());
}

#[test]
fn revisions_order_by_major_then_minor() {
    assert!(Revision::new(2, 70) < Revision::new(2, 80));
    assert!(Revision::new(1, 99) < Revision::new(2, 0));
    assert!(Revision::new(2, 70) <= Revision::new(2, 70));
    assert!(Revision::new(3, 0) > Revision::new(2, 100));
    assert_eq!(Revision::new(2, 70).partial_cmp(&Revision::new(2, 70)), Some(std::cmp::Ordering::Equal));
    assert_eq!(Revision::new(2, 10).max(Revision::new(2, 9)), Revision::new(2, 10));
}
