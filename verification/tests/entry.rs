use nuefi::entry::{boot_services_available, check_entry, exit_status, with_boot_table};
use nuefi::error::{EfiStatus, UefiError};

#[test]
fn entry_accepts_declared_main() {
    assert!(check_entry(1, 2, Some(false)).is_ok());
}

#[test]
fn entry_refuses_bad_arguments() {
    let bad = Err(UefiError::new(EfiStatus::invalid_parameter()));
    assert_eq!(check_entry(0, 2, Some(false)), bad);
    assert_eq!(check_entry(1, 0, Some(false)), bad);
    assert_eq!(check_entry(1, 2, None), bad);
    assert_eq!(check_entry(1, 2, Some(true)), bad);
}

#[test]
fn exit_status_of_results() {
    assert_eq!(exit_status(Ok(())), EfiStatus::success());
    assert_eq!(exit_status(Err(UefiError::new(EfiStatus::not_found()))), EfiStatus::not_found());
}

#[test]
fn boot_table_only_while_boot_services_exist() {
    assert!(boot_services_available(1, 1));
    assert!(!boot_services_available(1, 0));
    assert!(!boot_services_available(0, 1));
    assert!(with_boot_table(1, 1).is_ok());
    assert_eq!(with_boot_table(1, 0), Err(UefiError::new(EfiStatus::unsupported())));
}
