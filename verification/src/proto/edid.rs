//! UEFI EDID Protocol services
use vstd::prelude::*;

use crate::proto::{Entity, Guid};

verus! {

/// Raw EDID_ACTIVE_PROTOCOL struct, its buffer held as its address
#[derive(Debug, Clone, Copy, PartialEq, Eq, Structural)]
pub struct RawEdidActive {
    pub size: u32,
    pub edid: usize,
}

/// Raw EFI_EDID_DISCOVERED_PROTOCOL struct, its buffer held as its address
#[derive(Debug, Clone, Copy, PartialEq, Eq, Structural)]
pub struct RawEdidDiscovered {
    pub size: u32,
    pub edid: usize,
}

/// The active EDID protocol, as read from firmware
#[derive(Debug, Clone, Copy)]
pub struct ActiveEdid {
    pub raw: RawEdidActive,
}

impl ActiveEdid {
    /// EDID information from the active display, as the address and length
    /// of its buffer, or [`None`] where there is none
    pub fn edid(&self) -> (r: Option<(usize, usize)>)
        ensures
            r == (if self.raw.size != 0 && self.raw.edid != 0 {
                Some((self.raw.edid, self.raw.size as usize))
            } else {
                None::<(usize, usize)>
            }),
    {
        if self.raw.size != 0 && self.raw.edid != 0 {
            Some((self.raw.edid, self.raw.size as usize))
        } else {
            None
        }
    }
}

/// The EDID of the display a graphics output is discovered on
#[derive(Debug, Clone, Copy)]
pub struct DiscoveredEdid {
    pub raw: RawEdidDiscovered,
}

impl Entity for ActiveEdid {
    open spec fn spec_guid() -> Seq<u8> {
        crate::proto::swap_fields(seq![0xBDu8, 0x8C, 0x10, 0x56, 0x9F, 0x36, 0x44, 0xEC, 0x92, 0xA8, 0xA6, 0x33, 0x7F, 0x81, 0x79, 0x86])
    }

    open spec fn spec_name() -> Seq<char> {
        "ActiveEdid"@
    }

    fn guid() -> (r: Guid) {
        Guid::from_bytes([0xBDu8, 0x8C, 0x10, 0x56, 0x9F, 0x36, 0x44, 0xEC, 0x92, 0xA8, 0xA6, 0x33, 0x7F, 0x81, 0x79, 0x86])
    }

    fn name() -> (r: &'static str) {
        "ActiveEdid"
    }
}

impl Entity for DiscoveredEdid {
    open spec fn spec_guid() -> Seq<u8> {
        crate::proto::swap_fields(seq![0x1Cu8, 0x0C, 0x34, 0xF6, 0xD3, 0x80, 0x41, 0xFA, 0xA0, 0x49, 0x8A, 0xD0, 0x6C, 0x1A, 0x66, 0xAA])
    }

    open spec fn spec_name() -> Seq<char> {
        "DiscoveredEdid"@
    }

    fn guid() -> (r: Guid) {
        Guid::from_bytes([0x1Cu8, 0x0C, 0x34, 0xF6, 0xD3, 0x80, 0x41, 0xFA, 0xA0, 0x49, 0x8A, 0xD0, 0x6C, 0x1A, 0x66, 0xAA])
    }

    fn name() -> (r: &'static str) {
        "DiscoveredEdid"
    }
}

} // verus!
