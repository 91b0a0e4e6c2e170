//! UEFI PI Security Protocols
//!
//! These are described in the UEFI Platform Initialization Specification
//! Version 1.7, Volume 2, Section 12.9 Security Architectural Protocols
use vstd::prelude::*;

use crate::proto::{Entity, Guid};

verus! {

/// Security Arch Protocol: its one service, as the address it holds
#[derive(Debug, Clone, Copy, PartialEq, Eq, Structural)]
pub struct RawSecurityArch {
    pub auth_state: Option<usize>,
}

impl RawSecurityArch {
    /// Create a new instance of this protocol, served by `auth_state`
    pub fn create(auth_state: usize) -> (r: Self)
        ensures
            r.auth_state == Some(auth_state),
    {
        Self { auth_state: Some(auth_state) }
    }
}

/// Security Arch2 Protocol: its one service, as the address it holds
#[derive(Debug, Clone, Copy, PartialEq, Eq, Structural)]
pub struct RawSecurityArch2 {
    pub auth: Option<usize>,
}

impl RawSecurityArch2 {
    /// Create a new instance of this protocol, served by `auth`
    pub fn create(auth: usize) -> (r: Self)
        ensures
            r.auth == Some(auth),
    {
        Self { auth: Some(auth) }
    }
}

/// The security architectural protocol, as read from firmware
#[derive(Debug, Clone, Copy)]
pub struct SecurityArch {
    pub raw: RawSecurityArch,
}

/// The second security architectural protocol, as read from firmware
#[derive(Debug, Clone, Copy)]
pub struct SecurityArch2 {
    pub raw: RawSecurityArch2,
}

impl Entity for SecurityArch {
    open spec fn spec_guid() -> Seq<u8> {
        crate::proto::swap_fields(seq![0xA4u8, 0x64, 0x23, 0xE3, 0x46, 0x17, 0x49, 0xF1, 0xB9, 0xFF, 0xD1, 0xBF, 0xA9, 0x11, 0x58, 0x39])
    }

    open spec fn spec_name() -> Seq<char> {
        "SecurityArch"@
    }

    fn guid() -> (r: Guid) {
        Guid::from_bytes([0xA4u8, 0x64, 0x23, 0xE3, 0x46, 0x17, 0x49, 0xF1, 0xB9, 0xFF, 0xD1, 0xBF, 0xA9, 0x11, 0x58, 0x39])
    }

    fn name() -> (r: &'static str) {
        "SecurityArch"
    }
}

impl Entity for SecurityArch2 {
    open spec fn spec_guid() -> Seq<u8> {
        crate::proto::swap_fields(seq![0x94u8, 0xAB, 0x2F, 0x58, 0x14, 0x38, 0x4E, 0xF1, 0x91, 0x52, 0x18, 0x94, 0x1A, 0x3A, 0x0E, 0x68])
    }

    open spec fn spec_name() -> Seq<char> {
        "SecurityArch2"@
    }

    fn guid() -> (r: Guid) {
        Guid::from_bytes([0x94u8, 0xAB, 0x2F, 0x58, 0x14, 0x38, 0x4E, 0xF1, 0x91, 0x52, 0x18, 0x94, 0x1A, 0x3A, 0x0E, 0x68])
    }

    fn name() -> (r: &'static str) {
        "SecurityArch2"
    }
}

} // verus!
