//! UEFI Boot Services
//!
//! The services live in firmware; these are the decisions made around each
//! call: what is handed to firmware, and what its answer means.
use vstd::prelude::*;

use crate::error::{error_of, EfiStatus, Result, UefiError};

verus! {

/// The attribute `OpenProtocol` is called with: exclusive access
pub const OPEN_EXCLUSIVE: u32 = 0x20;

/// The watchdog code `SetWatchdogTimer` is called with
pub const WATCHDOG_CODE: u64 = 0x10000;

/// What the answer to a call that fills in one value means: the value on
/// `SUCCESS`, the status as an error otherwise
pub open spec fn value_result<T>(status: EfiStatus, out: T) -> Result<T> {
    if status.0 == 0 {
        Ok(out)
    } else {
        Err(error_of(status))
    }
}

/// The UEFI Boot Services
pub struct BootServices {
    _priv: (),
}

impl BootServices {
    /// The microseconds `Stall` is handed for a duration of `micros`:
    /// `INVALID_PARAMETER` where they do not fit in a `usize`
    pub fn stall(micros: u128) -> (r: Result<usize>)
        ensures
            micros <= usize::MAX ==> r == Ok::<usize, UefiError>(micros as usize),
            micros > usize::MAX ==> r == Err::<usize, UefiError>(error_of(EfiStatus::spec_invalid_parameter())),
    {
        if micros > usize::MAX as u128 {
            return Err(UefiError::new(EfiStatus::invalid_parameter()));
        }
        Ok(micros as usize)
    }

    /// What `GetNextMonotonicCount` answered: the count on success
    pub fn next_monotonic_count(status: EfiStatus, out: u64) -> (r: Result<u64>)
        ensures
            r == value_result(status, out),
    {
        if status.is_success() {
            return Ok(out);
        }
        Err(UefiError::new(status))
    }

    /// The seconds `SetWatchdogTimer` is handed for a timeout of `secs`,
    /// `None` disabling the timer: `INVALID_PARAMETER` where they do not fit
    /// in a `usize`
    pub fn set_watchdog(secs: Option<u64>) -> (r: Result<usize>)
        ensures
            ({
                let s: u64 = match secs {
                    Some(s) => s,
                    None => 0,
                };
                &&& s <= usize::MAX ==> r == Ok::<usize, UefiError>(s as usize)
                &&& s > usize::MAX ==> r == Err::<usize, UefiError>(error_of(EfiStatus::spec_invalid_parameter()))
            }),
    {
        let s: u64 = match secs {
            Some(s) => s,
            None => 0,
        };
        if s > usize::MAX as u64 {
            return Err(UefiError::new(EfiStatus::invalid_parameter()));
        }
        Ok(s as usize)
    }

    /// What `AllocatePool` answered: the address of the memory on success
    pub fn allocate_pool(status: EfiStatus, out: usize) -> (r: Result<usize>)
        ensures
            r == value_result(status, out),
    {
        if status.is_success() {
            Ok(out)
        } else {
            Err(UefiError::new(status))
        }
    }

    /// What `LocateProtocol` answered: the interface on success, none on
    /// `NOT_FOUND`, any other status as an error
    pub fn locate_protocol(status: EfiStatus, out: usize) -> (r: Result<Option<usize>>)
        ensures
            r == (if status.0 == 0 {
                Ok::<Option<usize>, UefiError>(Some(out))
            } else if status == EfiStatus::spec_not_found() {
                Ok::<Option<usize>, UefiError>(None)
            } else {
                Err::<Option<usize>, UefiError>(error_of(status))
            }),
    {
        if status.is_success() {
            Ok(Some(out))
        } else if status == EfiStatus::not_found() {
            Ok(None)
        } else {
            Err(UefiError::new(status))
        }
    }

    /// The controller handle `OpenProtocol` and `CloseProtocol` are handed:
    /// null where there is none
    pub fn controller_handle(controller: Option<usize>) -> (r: usize)
        ensures
            r == match controller {
                Some(c) => c,
                None => 0usize,
            },
    {
        match controller {
            Some(c) => c,
            None => 0,
        }
    }

    /// What `OpenProtocol` answered: the interface on success, none on
    /// `UNSUPPORTED` (the handle does not support the protocol), any other
    /// status as an error
    pub fn open_protocol(status: EfiStatus, out: usize) -> (r: Result<Option<usize>>)
        ensures
            r == (if status.0 == 0 {
                Ok::<Option<usize>, UefiError>(Some(out))
            } else if status == EfiStatus::spec_unsupported() {
                Ok::<Option<usize>, UefiError>(None)
            } else {
                Err::<Option<usize>, UefiError>(error_of(status))
            }),
    {
        if status.is_success() {
            Ok(Some(out))
        } else if status == EfiStatus::unsupported() {
            Ok(None)
        } else {
            Err(UefiError::new(status))
        }
    }

    /// What `LoadImage` answered: the new image's handle on success, which
    /// firmware never leaves null
    pub fn load_image(status: EfiStatus, out: usize) -> (r: Result<usize>)
        requires
            status.0 == 0 ==> out != 0,
        ensures
            r == value_result(status, out),
    {
        if status.is_success() {
            Ok(out)
        } else {
            Err(UefiError::new(status))
        }
    }
}

} // verus!
