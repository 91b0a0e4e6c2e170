use nuefi::error::{EfiStatus, UefiError};
use nuefi::proto::Guid;
use nuefi::table::boot::BootServices;
use nuefi::table::config::{AcpiTable10, AcpiTable20, RawConfigurationTable, SMBIOS3};
use nuefi::table::raw::RawSystemTable;
use nuefi::table::SystemTable;

#[test]
fn stall_takes_microseconds() {
    assert_eq!(BootServices::stall(1_000_000), Ok(1_000_000));
    assert_eq!(
        BootServices::stall(u128::MAX),
        Err(UefiError::new(EfiStatus::invalid_parameter()))
    );
}

#[test]
fn watchdog_none_disables() {
    assert_eq!(BootServices::set_watchdog(None), Ok(0));
    assert_eq!(BootServices::set_watchdog(Some(300)), Ok(300));
}

#[test]
fn status_answers() {
    assert_eq!(BootServices::next_monotonic_count(EfiStatus::success(), 42), Ok(42));
    assert_eq!(
        BootServices::next_monotonic_count(EfiStatus::device_error(), 42),
        Err(UefiError::new(EfiStatus::device_error()))
    );
    assert_eq!(BootServices::allocate_pool(EfiStatus::success(), 0x1000), Ok(0x1000));
    assert_eq!(
        BootServices::allocate_pool(EfiStatus::out_of_resources(), 0),
        Err(UefiError::new(EfiStatus::out_of_resources()))
    );
    assert_eq!(BootServices::load_image(EfiStatus::success(), 9), Ok(9));
    assert_eq!(
        BootServices::load_image(EfiStatus::load_error(), 0),
        Err(UefiError::new(EfiStatus::load_error()))
    );
}

#[test]
fn locate_protocol_not_found_is_none() {
    assert_eq!(BootServices::locate_protocol(EfiStatus::success(), 5), Ok(Some(5)));
    assert_eq!(BootServices::locate_protocol(EfiStatus::not_found(), 5), Ok(None));
    assert_eq!(
        BootServices::locate_protocol(EfiStatus::invalid_parameter(), 5),
        Err(UefiError::new(EfiStatus::invalid_parameter()))
    );
}

#[test]
fn open_protocol_unsupported_is_none() {
    assert_eq!(BootServices::open_protocol(EfiStatus::success(), 5), Ok(Some(5)));
    assert_eq!(BootServices::open_protocol(EfiStatus::unsupported(), 5), Ok(None));
    assert_eq!(
        BootServices::open_protocol(EfiStatus::access_denied(), 5),
        Err(UefiError::new(EfiStatus::access_denied()))
    );
    assert_eq!(BootServices::controller_handle(None), 0);
    assert_eq!(BootServices::controller_handle(Some(8)), 8);
}

const ACPI20: [u8; 16] =
    [0x88, 0x68, 0xE8, 0x71, 0xE4, 0xF1, 0x11, 0xD3, 0xBC, 0x22, 0x00, 0x80, 0xC7, 0x3C, 0x88, 0x81];

fn system(configs: Vec<RawConfigurationTable>) -> SystemTable {
    let mut raw = RawSystemTable::mock();
    raw.con_out = 0x10;
    raw.con_err = 0x20;
    raw.boot_services = 0x30;
    raw.configuration_table = 0x40;
    SystemTable { raw, configs }
}

#[test]
fn system_table_fields() {
    let t = system(Vec::new());
    assert_eq!(t.firmware_revision(), 69420);
    assert_eq!(t.uefi_revision(), t.header().revision);
    assert_eq!(t.stdout(), 0x10);
    assert_eq!(t.stderr(), 0x20);
    assert_eq!(t.boot(), 0x30);
}

#[test]
fn system_table_finds_first_matching_config() {
    let other = RawConfigurationTable { guid: Guid::from_bytes([0; 16]), table: 1 };
    let first = RawConfigurationTable { guid: Guid::from_bytes(ACPI20), table: 2 };
    let second = RawConfigurationTable { guid: Guid::from_bytes(ACPI20), table: 3 };
    let t = system(vec![other, first, second]);
    let tables = t.config_tables();
    assert_eq!(tables.len(), 3);
    assert_eq!(tables[1].as_ptr(), 2);
    assert_eq!(tables[1].name(), Some("AcpiTable20"));
    let acpi: Option<AcpiTable20> = t.config_table::<AcpiTable20>();
    assert_eq!(acpi.unwrap().table(), 2);
    assert!(t.config_table::<AcpiTable10>().is_none());
    assert!(t.config_table::<SMBIOS3>().is_none());
}

#[test]
fn firmware_vendor_string() {
    let mut t = system(Vec::new());
    t.raw.firmware_vendor = 0x99;
    let units = [0x45, 0x44, 0x4B, 0x20, 0x49, 0x49, 0, 0x41];
    let v = t.firmware_vendor(&units);
    assert_eq!(v.to_string_lossy(), "EDK II");
    assert_eq!(v.as_slice_with_nul().len(), 7);
}
