use nuefi::error::{EfiStatus, UefiError, ERROR_BIT, NEXT_BIT};

#[test]
fn status_kinds() {
    assert!(EfiStatus::success().is_success());
    assert!(!EfiStatus::success().is_warning());
    assert!(!EfiStatus::success().is_error());
    assert!(EfiStatus::warn_unknown_glyph().is_warning());
    assert!(!EfiStatus::warn_unknown_glyph().is_error());
    assert!(EfiStatus::invalid_parameter().is_error());
    assert!(EfiStatus::invalid_parameter().is_efi());
    assert!(!EfiStatus::invalid_parameter().is_oem());
    let oem = EfiStatus(ERROR_BIT | NEXT_BIT | 1);
    assert!(oem.is_error());
    assert!(oem.is_oem());
    assert!(!oem.is_efi());
    let oem_warning = EfiStatus(NEXT_BIT | 1);
    assert!(oem_warning.is_warning());
    assert!(oem_warning.is_oem());
}

#[test]
fn status_codes() {
    assert_eq!(EfiStatus::load_error().0, ERROR_BIT | 1);
    assert_eq!(EfiStatus::crc_error().0, ERROR_BIT | 27);
    assert_eq!(EfiStatus::end_of_file().0, ERROR_BIT | 31);
    assert_eq!(EfiStatus::http_error().0, ERROR_BIT | 35);
    assert_eq!(EfiStatus::warn_reset_required().0, 7);
}

#[test]
fn status_descriptions() {
    assert_eq!(EfiStatus::success().description(), "success");
    assert_eq!(EfiStatus::warn_buffer_too_small().description(), "buffer too small warning");
    assert_eq!(EfiStatus::buffer_too_small().description(), "buffer too small error");
    assert_eq!(EfiStatus::protocol_error().description(), "network protocol error");
    assert_eq!(EfiStatus::timeout().description(), "time out");
    assert_eq!(EfiStatus::http_error().description(), "http error");
}

#[test]
fn status_into_result() {
    assert_eq!(EfiStatus::success().into_result(), Ok(()));
    let e = EfiStatus::not_found().into_result().unwrap_err();
    assert_eq!(e.status(), EfiStatus::not_found());
    let w = EfiStatus::warn_stale_data().into_result().unwrap_err();
    assert_eq!(w.status(), EfiStatus::warn_stale_data());
}

#[test]
fn error_carries_status() {
    let e = UefiError::new(EfiStatus::device_error());
    assert_eq!(e.status(), EfiStatus::device_error());
    assert_ne!(e, UefiError::new(EfiStatus::aborted()));
}

#[test]
fn status_text_of_known_and_unknown() {
    assert_eq!(EfiStatus::not_found().text(), Some("not found"));
    assert_eq!(EfiStatus::success().text(), Some("success"));
    assert_eq!(EfiStatus(12345).text(), None);
    assert_eq!(EfiStatus(29 | nuefi::error::ERROR_BIT).text(), None);
}
