use nuefi::proto::Guid;
use nuefi::table::config::{
    config_entries, AcpiTable10, AcpiTable20, ConfigTable, GenericConfig, RawConfigurationTable,
    CONFIG_ENTRY_SIZE,
};

fn config(bytes: [u8; 16], table: usize) -> GenericConfig {
    GenericConfig::new(RawConfigurationTable { guid: Guid::from_bytes(bytes), table })
}

#[test]
fn guid_is_stored_mixed_endian() {
    let g = Guid::from_bytes([
        0x88, 0x68, 0xE8, 0x71, 0xE4, 0xF1, 0x11, 0xD3, 0xBC, 0x22, 0x00, 0x80, 0xC7, 0x3C, 0x88, 0x81,
    ]);
    assert_eq!(
        g.to_bytes(),
        [0x71, 0xE8, 0x68, 0x88, 0xF1, 0xE4, 0xD3, 0x11, 0xBC, 0x22, 0x00, 0x80, 0xC7, 0x3C, 0x88, 0x81]
    );
}

#[test]
fn acpi20_name() {
    let c = config(
        [0x88, 0x68, 0xE8, 0x71, 0xE4, 0xF1, 0x11, 0xD3, 0xBC, 0x22, 0x00, 0x80, 0xC7, 0x3C, 0x88, 0x81],
        0x1000,
    );
    assert_eq!(c.name(), Some("AcpiTable20"));
    assert_eq!(c.as_ptr(), 0x1000);
}

#[test]
fn shared_guid_names_first() {
    // HII database export and the legacy EFI properties share a GUID
    let c = config(
        [0xEF, 0x9F, 0xC1, 0x72, 0xA1, 0xB2, 0x46, 0x93, 0xB3, 0x27, 0x6D, 0x32, 0xFC, 0x41, 0x60, 0x42],
        0,
    );
    assert_eq!(c.name(), Some("HIIDatabaseExport"));
}

#[test]
fn more_names() {
    let c = config(
        [0x06, 0x0C, 0xC0, 0x26, 0x4C, 0x0D, 0x4D, 0xDA, 0x8F, 0x41, 0x59, 0x5F, 0xEF, 0x00, 0xA5, 0x02],
        0,
    );
    assert_eq!(c.name(), Some("MemoryStatus"));
    let c = config(
        [0xD4, 0x2A, 0xE6, 0xBD, 0x13, 0x52, 0x4b, 0xfb, 0x90, 0x9A, 0xCA, 0x72, 0xA6, 0xEA, 0xE8, 0x89],
        0,
    );
    assert_eq!(c.name(), Some("LZMAf86Compress"));
}

#[test]
fn unknown_table_has_no_name() {
    let c = config([0u8; 16], 0);
    assert_eq!(c.name(), None);
}

#[test]
fn as_table_checks_guid() {
    let c = config(
        [0x88, 0x68, 0xE8, 0x71, 0xE4, 0xF1, 0x11, 0xD3, 0xBC, 0x22, 0x00, 0x80, 0xC7, 0x3C, 0x88, 0x81],
        0x2000,
    );
    let t: Option<AcpiTable20> = c.as_table::<AcpiTable20>();
    assert_eq!(t.unwrap().table(), 0x2000);
    let t: Option<AcpiTable10> = c.as_table::<AcpiTable10>();
    assert!(t.is_none());
    let _ = <AcpiTable10 as ConfigTable>::from_raw(1);
}

#[test]
fn entries_read_from_memory() {
    let mut b = Vec::new();
    // AcpiTable20's GUID as stored in memory, then its address
    b.extend_from_slice(&[
        0x71, 0xE8, 0x68, 0x88, 0xF1, 0xE4, 0xD3, 0x11, 0xBC, 0x22, 0x00, 0x80, 0xC7, 0x3C, 0x88, 0x81,
    ]);
    b.extend_from_slice(&0x1234_5678u64.to_le_bytes());
    b.extend_from_slice(&[0u8; 16]);
    b.extend_from_slice(&7u64.to_le_bytes());
    let entries = config_entries(&b, 2);
    assert_eq!(entries.len(), 2);
    assert_eq!(entries[0].table, 0x1234_5678);
    assert_eq!(entries[1].table, 7);
    let first = GenericConfig::new(entries[0]);
    assert_eq!(first.name(), Some("AcpiTable20"));
    assert_eq!(GenericConfig::new(entries[1]).name(), None);
    let one = RawConfigurationTable::from_bytes(&b, CONFIG_ENTRY_SIZE);
    assert_eq!(one.table, 7);
    assert_eq!(one.guid.to_bytes(), [0u8; 16]);
    assert_eq!(Guid::from_stored_bytes([9; 16]).to_bytes(), [9; 16]);
}
