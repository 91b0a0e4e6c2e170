//! The decisions of the UEFI entry point
//!
//! Firmware enters the application with its image handle and the system
//! table. The entry point refuses bad arguments, validates the tables, runs
//! the application's main, and hands firmware a status for what happened.
use vstd::prelude::*;

use crate::error::{error_of, EfiStatus, Result, UefiError};

verus! {

/// Check the arguments firmware entered with: the image handle and system
/// table must not be null, and the application's main must have been
/// declared through the entry macro, whose marker reads `Some(false)`
pub fn check_entry(image: usize, system_table: usize, marker: Option<bool>) -> (r: Result<()>)
    ensures
        (r is Ok) == (image != 0 && system_table != 0 && marker == Some(false)),
        r is Err ==> r == Err::<(), UefiError>(error_of(EfiStatus::spec_invalid_parameter())),
{
    let declared: bool = match marker {
        Some(b) => !b,
        None => false,
    };
    if image == 0 || system_table == 0 || !declared {
        return Err(UefiError::new(EfiStatus::invalid_parameter()));
    }
    Ok(())
}

/// The status handed back to firmware for a result: `SUCCESS` for `Ok`,
/// the error's status otherwise
pub fn exit_status(ret: Result<()>) -> (r: EfiStatus)
    ensures
        r == match ret {
            Ok(()) => EfiStatus::spec_success(),
            Err(e) => e.spec_status(),
        },
{
    match ret {
        Ok(()) => EfiStatus::success(),
        Err(e) => e.status(),
    }
}

/// Whether boot services are still there: the system table is known and
/// its boot services pointer is not null
pub fn boot_services_available(system_table: usize, boot_services: u64) -> (r: bool)
    ensures
        r == (system_table != 0 && boot_services != 0),
{
    system_table != 0 && boot_services != 0
}

/// Running something with the boot-time system table: `UNSUPPORTED` once
/// boot services are gone
pub fn with_boot_table(system_table: usize, boot_services: u64) -> (r: Result<()>)
    ensures
        (r is Ok) == (system_table != 0 && boot_services != 0),
        r is Err ==> r == Err::<(), UefiError>(error_of(EfiStatus::spec_unsupported())),
{
    if boot_services_available(system_table, boot_services) {
        Ok(())
    } else {
        Err(UefiError::new(EfiStatus::unsupported()))
    }
}

/// The status of a result carried through the entry point is the status it
/// was made from
pub proof fn lemma_exit_status_roundtrip(s: EfiStatus)
    ensures
        match crate::error::status_result(s) {
            Ok(()) => s == EfiStatus::spec_success(),
            Err(e) => e.spec_status() == s,
        },
{
    crate::error::lemma_error_of(s);
}

} // verus!
