//! UEFI Configuration Tables
//!
//! UEFI Configuration tables are entries in an array within the system table.
//!
//! They are completely arbitrary data, identified by and whose type is
//! determined by a [`Guid`].
//!
//! Several standard and vendor-specific tables are defined and known about
//! here. Unknown tables can be used through [`GenericConfig`]
use vstd::prelude::*;

use crate::proto::{Entity, Guid};
use crate::util::{le_u64, read_u64};

verus! {

/// Tables this library trusts the definition of
pub trait Sealed {
}

/// Identifies a UEFI Configuration Table whose definition this library
/// trusts, so that [`GenericConfig::as_table`] may give it out
pub trait ConfigTable: Entity + Sealed + Sized {
    /// Address of the table
    spec fn spec_table(&self) -> usize;

    /// The table stored at address `raw`
    fn from_raw(raw: usize) -> (r: Self)
        ensures
            r.spec_table() == raw,
    ;
}

/// A raw configuration table entry: a GUID and the address of its table
#[derive(Debug, Clone, Copy)]
pub struct RawConfigurationTable {
    /// GUID for the table
    pub guid: Guid,

    /// Address of the table
    pub table: usize,
}

/// Size in bytes of a configuration table entry, as laid out on a 64-bit
/// machine: the GUID, then the address
pub const CONFIG_ENTRY_SIZE: usize = 24;

/// Whether `e` is the entry stored at `off` in `b`
pub open spec fn entry_stored_at(e: RawConfigurationTable, b: Seq<u8>, off: int) -> bool {
    &&& e.guid@ == b.subrange(off, off + 16)
    &&& e.table == le_u64(b, off + 16) as usize
}

impl RawConfigurationTable {
    /// The entry stored at `off` in `b`
    pub fn from_bytes(b: &[u8], off: usize) -> (r: Self)
        requires
            off + CONFIG_ENTRY_SIZE <= b.len(),
        ensures
            entry_stored_at(r, b@, off as int),
    {
        let mut g: [u8; 16] = [0u8; 16];
        let mut i: usize = 0;
        while i < 16
            invariant
                off + CONFIG_ENTRY_SIZE <= b.len(),
                i <= 16,
                g@.len() == 16,
                forall|k: int| 0 <= k < i ==> g@[k] == b@[off + k],
            decreases 16 - i,
        {
            g[i] = b[off + i];
            i = i + 1;
        }
        assert(g@ =~= b@.subrange(off as int, off + 16));
        let table: u64 = read_u64(b, off + 16);
        let addr: usize = #[verifier::truncate] (table as usize);
        RawConfigurationTable { guid: Guid::from_stored_bytes(g), table: addr }
    }
}

/// The `n` configuration table entries stored one after another in `b`
pub fn config_entries(b: &[u8], n: usize) -> (r: Vec<RawConfigurationTable>)
    requires
        n * CONFIG_ENTRY_SIZE <= b.len(),
    ensures
        r@.len() == n,
        forall|i: int| 0 <= i < n ==> entry_stored_at(#[trigger] r@[i], b@, i * CONFIG_ENTRY_SIZE),
{
    let mut out: Vec<RawConfigurationTable> = Vec::new();
    let mut i: usize = 0;
    let mut off: usize = 0;
    while i < n
        invariant
            n * CONFIG_ENTRY_SIZE <= b.len(),
            i <= n,
            off == i * CONFIG_ENTRY_SIZE,
            out@.len() == i,
            forall|k: int| 0 <= k < i ==> entry_stored_at(#[trigger] out@[k], b@, k * CONFIG_ENTRY_SIZE),
        decreases n - i,
    {
        proof {
            assert((i + 1) * CONFIG_ENTRY_SIZE <= n * CONFIG_ENTRY_SIZE) by (nonlinear_arith)
                requires
                    i < n,
            ;
        }
        out.push(RawConfigurationTable::from_bytes(b, off));
        i = i + 1;
        off = off + CONFIG_ENTRY_SIZE;
    }
    out
}

/// A generic UEFI configuration table, identified by a [`Guid`]
#[derive(Debug)]
pub struct GenericConfig {
    config: RawConfigurationTable,
}

/// Table for ACPI 2.0 and newer
#[derive(Debug)]
pub struct AcpiTable20 {
    table: usize,
}

impl Entity for AcpiTable20 {
    open spec fn spec_guid() -> Seq<u8> {
        crate::proto::swap_fields(seq![0x88u8, 0x68, 0xE8, 0x71, 0xE4, 0xF1, 0x11, 0xD3, 0xBC, 0x22, 0x00, 0x80, 0xC7, 0x3C, 0x88, 0x81])
    }

    open spec fn spec_name() -> Seq<char> {
        "AcpiTable20"@
    }

    fn guid() -> (r: Guid) {
        Guid::from_bytes([0x88u8, 0x68, 0xE8, 0x71, 0xE4, 0xF1, 0x11, 0xD3, 0xBC, 0x22, 0x00, 0x80, 0xC7, 0x3C, 0x88, 0x81])
    }

    fn name() -> (r: &'static str) {
        "AcpiTable20"
    }
}

/// Table for ACPI 1.0
#[derive(Debug)]
pub struct AcpiTable10 {
    table: usize,
}

impl Entity for AcpiTable10 {
    open spec fn spec_guid() -> Seq<u8> {
        crate::proto::swap_fields(seq![0xEBu8, 0x9D, 0x2D, 0x30, 0x2D, 0x88, 0x11, 0xD3, 0x9A, 0x16, 0x00, 0x90, 0x27, 0x3F, 0xC1, 0x4D])
    }

    open spec fn spec_name() -> Seq<char> {
        "AcpiTable10"@
    }

    fn guid() -> (r: Guid) {
        Guid::from_bytes([0xEBu8, 0x9D, 0x2D, 0x30, 0x2D, 0x88, 0x11, 0xD3, 0x9A, 0x16, 0x00, 0x90, 0x27, 0x3F, 0xC1, 0x4D])
    }

    fn name() -> (r: &'static str) {
        "AcpiTable10"
    }
}

/// Runtime properties table
#[derive(Debug)]
pub struct RuntimeProperties {
    table: usize,
}

impl Entity for RuntimeProperties {
    open spec fn spec_guid() -> Seq<u8> {
        crate::proto::swap_fields(seq![0xEBu8, 0x66, 0x91, 0x8A, 0x7E, 0xEF, 0x40, 0x2A, 0x84, 0x2E, 0x93, 0x1D, 0x21, 0xC3, 0x8A, 0xE9])
    }

    open spec fn spec_name() -> Seq<char> {
        "RuntimeProperties"@
    }

    fn guid() -> (r: Guid) {
        Guid::from_bytes([0xEBu8, 0x66, 0x91, 0x8A, 0x7E, 0xEF, 0x40, 0x2A, 0x84, 0x2E, 0x93, 0x1D, 0x21, 0xC3, 0x8A, 0xE9])
    }

    fn name() -> (r: &'static str) {
        "RuntimeProperties"
    }
}

/// Table for SMBIOS
#[derive(Debug)]
pub struct SMBIOS {
    table: usize,
}

impl Entity for SMBIOS {
    open spec fn spec_guid() -> Seq<u8> {
        crate::proto::swap_fields(seq![0xEBu8, 0x9D, 0x2D, 0x31, 0x2D, 0x88, 0x11, 0xD3, 0x9A, 0x16, 0x00, 0x90, 0x27, 0x3F, 0xC1, 0x4D])
    }

    open spec fn spec_name() -> Seq<char> {
        "SMBIOS"@
    }

    fn guid() -> (r: Guid) {
        Guid::from_bytes([0xEBu8, 0x9D, 0x2D, 0x31, 0x2D, 0x88, 0x11, 0xD3, 0x9A, 0x16, 0x00, 0x90, 0x27, 0x3F, 0xC1, 0x4D])
    }

    fn name() -> (r: &'static str) {
        "SMBIOS"
    }
}

/// Table for SMBIOS 3
#[derive(Debug)]
pub struct SMBIOS3 {
    table: usize,
}

impl Entity for SMBIOS3 {
    open spec fn spec_guid() -> Seq<u8> {
        crate::proto::swap_fields(seq![0xF2u8, 0xFD, 0x15, 0x44, 0x97, 0x94, 0x4A, 0x2C, 0x99, 0x2E, 0xE5, 0xBB, 0xCF, 0x20, 0xE3, 0x94])
    }

    open spec fn spec_name() -> Seq<char> {
        "SMBIOS3"@
    }

    fn guid() -> (r: Guid) {
        Guid::from_bytes([0xF2u8, 0xFD, 0x15, 0x44, 0x97, 0x94, 0x4A, 0x2C, 0x99, 0x2E, 0xE5, 0xBB, 0xCF, 0x20, 0xE3, 0x94])
    }

    fn name() -> (r: &'static str) {
        "SMBIOS3"
    }
}

/// Table for SAL
#[derive(Debug)]
pub struct SAL {
    table: usize,
}

impl Entity for SAL {
    open spec fn spec_guid() -> Seq<u8> {
        crate::proto::swap_fields(seq![0xEBu8, 0x9D, 0x2D, 0x32, 0x2D, 0x88, 0x11, 0xD3, 0x9A, 0x16, 0x00, 0x90, 0x27, 0x3F, 0xC1, 0x4D])
    }

    open spec fn spec_name() -> Seq<char> {
        "SAL"@
    }

    fn guid() -> (r: Guid) {
        Guid::from_bytes([0xEBu8, 0x9D, 0x2D, 0x32, 0x2D, 0x88, 0x11, 0xD3, 0x9A, 0x16, 0x00, 0x90, 0x27, 0x3F, 0xC1, 0x4D])
    }

    fn name() -> (r: &'static str) {
        "SAL"
    }
}

/// Table for MPS / MultiProcessor Specification
#[derive(Debug)]
pub struct MPS {
    table: usize,
}

impl Entity for MPS {
    open spec fn spec_guid() -> Seq<u8> {
        crate::proto::swap_fields(seq![0xEBu8, 0x9D, 0x2D, 0x2F, 0x2D, 0x88, 0x11, 0xD3, 0x9A, 0x16, 0x00, 0x90, 0x27, 0x3F, 0xC1, 0x4D])
    }

    open spec fn spec_name() -> Seq<char> {
        "MPS"@
    }

    fn guid() -> (r: Guid) {
        Guid::from_bytes([0xEBu8, 0x9D, 0x2D, 0x2F, 0x2D, 0x88, 0x11, 0xD3, 0x9A, 0x16, 0x00, 0x90, 0x27, 0x3F, 0xC1, 0x4D])
    }

    fn name() -> (r: &'static str) {
        "MPS"
    }
}

/// Table for JSON Config Data
#[derive(Debug)]
pub struct JsonConfigData {
    table: usize,
}

impl Entity for JsonConfigData {
    open spec fn spec_guid() -> Seq<u8> {
        crate::proto::swap_fields(seq![0x87u8, 0x36, 0x7F, 0x87, 0x11, 0x19, 0x41, 0xCE, 0xAA, 0xEC, 0x8B, 0xE0, 0x11, 0x1F, 0x55, 0x8A])
    }

    open spec fn spec_name() -> Seq<char> {
        "JsonConfigData"@
    }

    fn guid() -> (r: Guid) {
        Guid::from_bytes([0x87u8, 0x36, 0x7F, 0x87, 0x11, 0x19, 0x41, 0xCE, 0xAA, 0xEC, 0x8B, 0xE0, 0x11, 0x1F, 0x55, 0x8A])
    }

    fn name() -> (r: &'static str) {
        "JsonConfigData"
    }
}

/// Table for JSON Capsule Data
#[derive(Debug)]
pub struct JsonCapsuleData {
    table: usize,
}

impl Entity for JsonCapsuleData {
    open spec fn spec_guid() -> Seq<u8> {
        crate::proto::swap_fields(seq![0x35u8, 0xE7, 0xA7, 0x25, 0x8D, 0xD2, 0x4C, 0xAC, 0x80, 0x11, 0x33, 0xCD, 0xA8, 0x10, 0x90, 0x56])
    }

    open spec fn spec_name() -> Seq<char> {
        "JsonCapsuleData"@
    }

    fn guid() -> (r: Guid) {
        Guid::from_bytes([0x35u8, 0xE7, 0xA7, 0x25, 0x8D, 0xD2, 0x4C, 0xAC, 0x80, 0x11, 0x33, 0xCD, 0xA8, 0x10, 0x90, 0x56])
    }

    fn name() -> (r: &'static str) {
        "JsonCapsuleData"
    }
}

/// Table for JSON Capsule Result
#[derive(Debug)]
pub struct JsonCapsuleResult {
    table: usize,
}

impl Entity for JsonCapsuleResult {
    open spec fn spec_guid() -> Seq<u8> {
        crate::proto::swap_fields(seq![0xDBu8, 0xC4, 0x61, 0xC3, 0xB3, 0xDE, 0x42, 0x2A, 0xB9, 0xB4, 0x98, 0x86, 0xFD, 0x49, 0xA1, 0xE5])
    }

    open spec fn spec_name() -> Seq<char> {
        "JsonCapsuleResult"@
    }

    fn guid() -> (r: Guid) {
        Guid::from_bytes([0xDBu8, 0xC4, 0x61, 0xC3, 0xB3, 0xDE, 0x42, 0x2A, 0xB9, 0xB4, 0x98, 0x86, 0xFD, 0x49, 0xA1, 0xE5])
    }

    fn name() -> (r: &'static str) {
        "JsonCapsuleResult"
    }
}

/// Flattened DTB Device Tree
#[derive(Debug)]
pub struct DeviceTree {
    table: usize,
}

impl Entity for DeviceTree {
    open spec fn spec_guid() -> Seq<u8> {
        crate::proto::swap_fields(seq![0xB1u8, 0xB6, 0x21, 0xD5, 0xF1, 0x9C, 0x41, 0xA5, 0x83, 0x0B, 0xD9, 0x15, 0x2C, 0x69, 0xAA, 0xE0])
    }

    open spec fn spec_name() -> Seq<char> {
        "DeviceTree"@
    }

    fn guid() -> (r: Guid) {
        Guid::from_bytes([0xB1u8, 0xB6, 0x21, 0xD5, 0xF1, 0x9C, 0x41, 0xA5, 0x83, 0x0B, 0xD9, 0x15, 0x2C, 0x69, 0xAA, 0xE0])
    }

    fn name() -> (r: &'static str) {
        "DeviceTree"
    }
}

/// Memory attributes table
#[derive(Debug)]
pub struct MemoryAttributes {
    table: usize,
}

impl Entity for MemoryAttributes {
    open spec fn spec_guid() -> Seq<u8> {
        crate::proto::swap_fields(seq![0xDCu8, 0xFA, 0x91, 0x1D, 0x26, 0xEB, 0x46, 0x9F, 0xA2, 0x20, 0x38, 0xB7, 0xDC, 0x46, 0x12, 0x20])
    }

    open spec fn spec_name() -> Seq<char> {
        "MemoryAttributes"@
    }

    fn guid() -> (r: Guid) {
        Guid::from_bytes([0xDCu8, 0xFA, 0x91, 0x1D, 0x26, 0xEB, 0x46, 0x9F, 0xA2, 0x20, 0x38, 0xB7, 0xDC, 0x46, 0x12, 0x20])
    }

    fn name() -> (r: &'static str) {
        "MemoryAttributes"
    }
}

/// UEFI Conformance profile, as firmware lays it out
#[derive(Debug, Clone, Copy, PartialEq, Eq, Structural)]
pub struct RawConformanceProfile {
    pub ver: u16,

    /// Number of profiles
    pub size: u16,

    /// Address of the array of profiles
    pub profiles: usize,
}

/// UEFI Conformance profile
///
/// If this doesn't exist, this indicates UEFI spec compliance
#[derive(Debug)]
pub struct ConformanceProfile {
    table: usize,
}

impl Entity for ConformanceProfile {
    open spec fn spec_guid() -> Seq<u8> {
        crate::proto::swap_fields(seq![0x36u8, 0x12, 0x25, 0x46, 0xF7, 0xE7, 0x4C, 0x8F, 0xBD, 0x9B, 0xEB, 0x85, 0x25, 0xB5, 0x0C, 0x0B])
    }

    open spec fn spec_name() -> Seq<char> {
        "ConformanceProfile"@
    }

    fn guid() -> (r: Guid) {
        Guid::from_bytes([0x36u8, 0x12, 0x25, 0x46, 0xF7, 0xE7, 0x4C, 0x8F, 0xBD, 0x9B, 0xEB, 0x85, 0x25, 0xB5, 0x0C, 0x0B])
    }

    fn name() -> (r: &'static str) {
        "ConformanceProfile"
    }
}

/// Debug image information table
#[derive(Debug)]
pub struct DebugImageInfo {
    table: usize,
}

impl Entity for DebugImageInfo {
    open spec fn spec_guid() -> Seq<u8> {
        crate::proto::swap_fields(seq![0x49u8, 0x15, 0x2E, 0x77, 0x1A, 0xDA, 0x47, 0x64, 0xB7, 0xA2, 0x7A, 0xFE, 0xFE, 0xD9, 0x5E, 0x8B])
    }

    open spec fn spec_name() -> Seq<char> {
        "DebugImageInfo"@
    }

    fn guid() -> (r: Guid) {
        Guid::from_bytes([0x49u8, 0x15, 0x2E, 0x77, 0x1A, 0xDA, 0x47, 0x64, 0xB7, 0xA2, 0x7A, 0xFE, 0xFE, 0xD9, 0x5E, 0x8B])
    }

    fn name() -> (r: &'static str) {
        "DebugImageInfo"
    }
}

/// Image execution information table
#[derive(Debug)]
pub struct ImageExecInfo {
    table: usize,
}

impl Entity for ImageExecInfo {
    open spec fn spec_guid() -> Seq<u8> {
        crate::proto::swap_fields(seq![0xD7u8, 0x19, 0xB2, 0xCB, 0x3D, 0x3A, 0x45, 0x96, 0xA3, 0xBC, 0xDA, 0xD0, 0x0E, 0x67, 0x65, 0x6F])
    }

    open spec fn spec_name() -> Seq<char> {
        "ImageExecInfo"@
    }

    fn guid() -> (r: Guid) {
        Guid::from_bytes([0xD7u8, 0x19, 0xB2, 0xCB, 0x3D, 0x3A, 0x45, 0x96, 0xA3, 0xBC, 0xDA, 0xD0, 0x0E, 0x67, 0x65, 0x6F])
    }

    fn name() -> (r: &'static str) {
        "ImageExecInfo"
    }
}

/// System resource table
#[derive(Debug)]
pub struct SystemResource {
    table: usize,
}

impl Entity for SystemResource {
    open spec fn spec_guid() -> Seq<u8> {
        crate::proto::swap_fields(seq![0xB1u8, 0x22, 0xA2, 0x63, 0x36, 0x61, 0x4F, 0x68, 0x99, 0x29, 0x78, 0xF8, 0xB0, 0xD6, 0x21, 0x80])
    }

    open spec fn spec_name() -> Seq<char> {
        "SystemResource"@
    }

    fn guid() -> (r: Guid) {
        Guid::from_bytes([0xB1u8, 0x22, 0xA2, 0x63, 0x36, 0x61, 0x4F, 0x68, 0x99, 0x29, 0x78, 0xF8, 0xB0, 0xD6, 0x21, 0x80])
    }

    fn name() -> (r: &'static str) {
        "SystemResource"
    }
}

/// Memory range capsule table
#[derive(Debug)]
pub struct MemoryRangeCapsule {
    table: usize,
}

impl Entity for MemoryRangeCapsule {
    open spec fn spec_guid() -> Seq<u8> {
        crate::proto::swap_fields(seq![0x0Du8, 0xE9, 0xF0, 0xEC, 0x88, 0xB6, 0x42, 0x8F, 0x97, 0x7A, 0x25, 0x8F, 0x1D, 0x0E, 0x5E, 0x72])
    }

    open spec fn spec_name() -> Seq<char> {
        "MemoryRangeCapsule"@
    }

    fn guid() -> (r: Guid) {
        Guid::from_bytes([0x0Du8, 0xE9, 0xF0, 0xEC, 0x88, 0xB6, 0x42, 0x8F, 0x97, 0x7A, 0x25, 0x8F, 0x1D, 0x0E, 0x5E, 0x72])
    }

    fn name() -> (r: &'static str) {
        "MemoryRangeCapsule"
    }
}

/// User information table
#[derive(Debug)]
pub struct UserInformation {
    table: usize,
}

impl Entity for UserInformation {
    open spec fn spec_guid() -> Seq<u8> {
        crate::proto::swap_fields(seq![0x6Fu8, 0xD5, 0xB0, 0x0C, 0xD4, 0x26, 0x42, 0x83, 0x98, 0x87, 0x6C, 0xF5, 0xCF, 0x1C, 0xB1, 0xFE])
    }

    open spec fn spec_name() -> Seq<char> {
        "UserInformation"@
    }

    fn guid() -> (r: Guid) {
        Guid::from_bytes([0x6Fu8, 0xD5, 0xB0, 0x0C, 0xD4, 0x26, 0x42, 0x83, 0x98, 0x87, 0x6C, 0xF5, 0xCF, 0x1C, 0xB1, 0xFE])
    }

    fn name() -> (r: &'static str) {
        "UserInformation"
    }
}

/// HII database export table
#[derive(Debug)]
pub struct HIIDatabaseExport {
    table: usize,
}

impl Entity for HIIDatabaseExport {
    open spec fn spec_guid() -> Seq<u8> {
        crate::proto::swap_fields(seq![0xEFu8, 0x9F, 0xC1, 0x72, 0xA1, 0xB2, 0x46, 0x93, 0xB3, 0x27, 0x6D, 0x32, 0xFC, 0x41, 0x60, 0x42])
    }

    open spec fn spec_name() -> Seq<char> {
        "HIIDatabaseExport"@
    }

    fn guid() -> (r: Guid) {
        Guid::from_bytes([0xEFu8, 0x9F, 0xC1, 0x72, 0xA1, 0xB2, 0x46, 0x93, 0xB3, 0x27, 0x6D, 0x32, 0xFC, 0x41, 0x60, 0x42])
    }

    fn name() -> (r: &'static str) {
        "HIIDatabaseExport"
    }
}

/// Deprecated Legacy EFI Properties
#[derive(Debug)]
pub struct EfiProperties {
    table: usize,
}

impl Entity for EfiProperties {
    open spec fn spec_guid() -> Seq<u8> {
        crate::proto::swap_fields(seq![0xEFu8, 0x9F, 0xC1, 0x72, 0xA1, 0xB2, 0x46, 0x93, 0xB3, 0x27, 0x6D, 0x32, 0xFC, 0x41, 0x60, 0x42])
    }

    open spec fn spec_name() -> Seq<char> {
        "EfiProperties"@
    }

    fn guid() -> (r: Guid) {
        Guid::from_bytes([0xEFu8, 0x9F, 0xC1, 0x72, 0xA1, 0xB2, 0x46, 0x93, 0xB3, 0x27, 0x6D, 0x32, 0xFC, 0x41, 0x60, 0x42])
    }

    fn name() -> (r: &'static str) {
        "EfiProperties"
    }
}

/// EDK2 Tiano compression table
#[derive(Debug)]
pub struct TianoCompress {
    table: usize,
}

impl Entity for TianoCompress {
    open spec fn spec_guid() -> Seq<u8> {
        crate::proto::swap_fields(seq![0xA3u8, 0x12, 0x80, 0xAD, 0x48, 0x1E, 0x41, 0xB6, 0x95, 0xE8, 0x12, 0x7F, 0x4C, 0x98, 0x47, 0x79])
    }

    open spec fn spec_name() -> Seq<char> {
        "TianoCompress"@
    }

    fn guid() -> (r: Guid) {
        Guid::from_bytes([0xA3u8, 0x12, 0x80, 0xAD, 0x48, 0x1E, 0x41, 0xB6, 0x95, 0xE8, 0x12, 0x7F, 0x4C, 0x98, 0x47, 0x79])
    }

    fn name() -> (r: &'static str) {
        "TianoCompress"
    }
}

/// EDK2 LZMA compression table
#[derive(Debug)]
pub struct LZMACompress {
    table: usize,
}

impl Entity for LZMACompress {
    open spec fn spec_guid() -> Seq<u8> {
        crate::proto::swap_fields(seq![0xEEu8, 0x4E, 0x58, 0x98, 0x39, 0x14, 0x42, 0x59, 0x9D, 0x6E, 0xDC, 0x7B, 0xD7, 0x94, 0x03, 0xCF])
    }

    open spec fn spec_name() -> Seq<char> {
        "LZMACompress"@
    }

    fn guid() -> (r: Guid) {
        Guid::from_bytes([0xEEu8, 0x4E, 0x58, 0x98, 0x39, 0x14, 0x42, 0x59, 0x9D, 0x6E, 0xDC, 0x7B, 0xD7, 0x94, 0x03, 0xCF])
    }

    fn name() -> (r: &'static str) {
        "LZMACompress"
    }
}

/// EDK2 Brotli compression table
#[derive(Debug)]
pub struct BrotliCompress {
    table: usize,
}

impl Entity for BrotliCompress {
    open spec fn spec_guid() -> Seq<u8> {
        crate::proto::swap_fields(seq![0x3Du8, 0x53, 0x20, 0x50, 0x5C, 0xDA, 0x4F, 0xD0, 0x87, 0x9E, 0x0F, 0x7F, 0x63, 0x0D, 0x5A, 0xFB])
    }

    open spec fn spec_name() -> Seq<char> {
        "BrotliCompress"@
    }

    fn guid() -> (r: Guid) {
        Guid::from_bytes([0x3Du8, 0x53, 0x20, 0x50, 0x5C, 0xDA, 0x4F, 0xD0, 0x87, 0x9E, 0x0F, 0x7F, 0x63, 0x0D, 0x5A, 0xFB])
    }

    fn name() -> (r: &'static str) {
        "BrotliCompress"
    }
}

/// EDK2 LZMA x86 compression table
#[derive(Debug)]
pub struct LZMAf86Compress {
    table: usize,
}

impl Entity for LZMAf86Compress {
    open spec fn spec_guid() -> Seq<u8> {
        crate::proto::swap_fields(seq![0xD4u8, 0x2A, 0xE6, 0xBD, 0x13, 0x52, 0x4B, 0xFB, 0x90, 0x9A, 0xCA, 0x72, 0xA6, 0xEA, 0xE8, 0x89])
    }

    open spec fn spec_name() -> Seq<char> {
        "LZMAf86Compress"@
    }

    fn guid() -> (r: Guid) {
        Guid::from_bytes([0xD4u8, 0x2A, 0xE6, 0xBD, 0x13, 0x52, 0x4B, 0xFB, 0x90, 0x9A, 0xCA, 0x72, 0xA6, 0xEA, 0xE8, 0x89])
    }

    fn name() -> (r: &'static str) {
        "LZMAf86Compress"
    }
}

/// DXE services table, from the Platform Init spec
#[derive(Debug)]
pub struct DXEServices {
    table: usize,
}

impl Entity for DXEServices {
    open spec fn spec_guid() -> Seq<u8> {
        crate::proto::swap_fields(seq![0x05u8, 0xAD, 0x34, 0xBA, 0x6F, 0x02, 0x42, 0x14, 0x95, 0x2E, 0x4D, 0xA0, 0x39, 0x8E, 0x2B, 0xB9])
    }

    open spec fn spec_name() -> Seq<char> {
        "DXEServices"@
    }

    fn guid() -> (r: Guid) {
        Guid::from_bytes([0x05u8, 0xAD, 0x34, 0xBA, 0x6F, 0x02, 0x42, 0x14, 0x95, 0x2E, 0x4D, 0xA0, 0x39, 0x8E, 0x2B, 0xB9])
    }

    fn name() -> (r: &'static str) {
        "DXEServices"
    }
}

/// HOB list, from the Platform Init spec
#[derive(Debug)]
pub struct HOBlist {
    table: usize,
}

impl Entity for HOBlist {
    open spec fn spec_guid() -> Seq<u8> {
        crate::proto::swap_fields(seq![0x77u8, 0x39, 0xF2, 0x4C, 0x93, 0xD7, 0x11, 0xD4, 0x9A, 0x3A, 0x00, 0x90, 0x27, 0x3F, 0xC1, 0x4D])
    }

    open spec fn spec_name() -> Seq<char> {
        "HOBlist"@
    }

    fn guid() -> (r: Guid) {
        Guid::from_bytes([0x77u8, 0x39, 0xF2, 0x4C, 0x93, 0xD7, 0x11, 0xD4, 0x9A, 0x3A, 0x00, 0x90, 0x27, 0x3F, 0xC1, 0x4D])
    }

    fn name() -> (r: &'static str) {
        "HOBlist"
    }
}

/// EDK2 memory type information
#[derive(Debug)]
pub struct MemoryTypeInfo {
    table: usize,
}

impl Entity for MemoryTypeInfo {
    open spec fn spec_guid() -> Seq<u8> {
        crate::proto::swap_fields(seq![0x4Cu8, 0x19, 0x04, 0x9F, 0x41, 0x37, 0x4D, 0xD3, 0x9C, 0x10, 0x8B, 0x97, 0xA8, 0x3F, 0xFD, 0xFA])
    }

    open spec fn spec_name() -> Seq<char> {
        "MemoryTypeInfo"@
    }

    fn guid() -> (r: Guid) {
        Guid::from_bytes([0x4Cu8, 0x19, 0x04, 0x9F, 0x41, 0x37, 0x4D, 0xD3, 0x9C, 0x10, 0x8B, 0x97, 0xA8, 0x3F, 0xFD, 0xFA])
    }

    fn name() -> (r: &'static str) {
        "MemoryTypeInfo"
    }
}

/// EDK2 memory status code record
#[derive(Debug)]
pub struct MemoryStatus {
    table: usize,
}

impl Entity for MemoryStatus {
    open spec fn spec_guid() -> Seq<u8> {
        crate::proto::swap_fields(seq![0x06u8, 0x0C, 0xC0, 0x26, 0x4C, 0x0D, 0x4D, 0xDA, 0x8F, 0x41, 0x59, 0x5F, 0xEF, 0x00, 0xA5, 0x02])
    }

    open spec fn spec_name() -> Seq<char> {
        "MemoryStatus"@
    }

    fn guid() -> (r: Guid) {
        Guid::from_bytes([0x06u8, 0x0C, 0xC0, 0x26, 0x4C, 0x0D, 0x4D, 0xDA, 0x8F, 0x41, 0x59, 0x5F, 0xEF, 0x00, 0xA5, 0x02])
    }

    fn name() -> (r: &'static str) {
        "MemoryStatus"
    }
}

impl Sealed for AcpiTable10 {
}

impl Sealed for AcpiTable20 {
}

impl Sealed for SMBIOS {
}

impl Sealed for SMBIOS3 {
}

impl Sealed for RuntimeProperties {
}

impl Sealed for JsonConfigData {
}

impl Sealed for JsonCapsuleData {
}

impl Sealed for JsonCapsuleResult {
}

impl Sealed for DeviceTree {
}

impl Sealed for MemoryAttributes {
}

impl Sealed for SAL {
}

impl Sealed for MPS {
}

impl Sealed for ConformanceProfile {
}

impl ConfigTable for AcpiTable10 {
    closed spec fn spec_table(&self) -> usize {
        self.table
    }

    fn from_raw(raw: usize) -> (r: Self) {
        AcpiTable10 { table: raw }
    }
}

impl ConfigTable for AcpiTable20 {
    closed spec fn spec_table(&self) -> usize {
        self.table
    }

    fn from_raw(raw: usize) -> (r: Self) {
        AcpiTable20 { table: raw }
    }
}

impl ConfigTable for SMBIOS {
    closed spec fn spec_table(&self) -> usize {
        self.table
    }

    fn from_raw(raw: usize) -> (r: Self) {
        SMBIOS { table: raw }
    }
}

impl ConfigTable for SMBIOS3 {
    closed spec fn spec_table(&self) -> usize {
        self.table
    }

    fn from_raw(raw: usize) -> (r: Self) {
        SMBIOS3 { table: raw }
    }
}

impl ConfigTable for RuntimeProperties {
    closed spec fn spec_table(&self) -> usize {
        self.table
    }

    fn from_raw(raw: usize) -> (r: Self) {
        RuntimeProperties { table: raw }
    }
}

impl ConfigTable for JsonConfigData {
    closed spec fn spec_table(&self) -> usize {
        self.table
    }

    fn from_raw(raw: usize) -> (r: Self) {
        JsonConfigData { table: raw }
    }
}

impl ConfigTable for JsonCapsuleData {
    closed spec fn spec_table(&self) -> usize {
        self.table
    }

    fn from_raw(raw: usize) -> (r: Self) {
        JsonCapsuleData { table: raw }
    }
}

impl ConfigTable for JsonCapsuleResult {
    closed spec fn spec_table(&self) -> usize {
        self.table
    }

    fn from_raw(raw: usize) -> (r: Self) {
        JsonCapsuleResult { table: raw }
    }
}

impl ConfigTable for DeviceTree {
    closed spec fn spec_table(&self) -> usize {
        self.table
    }

    fn from_raw(raw: usize) -> (r: Self) {
        DeviceTree { table: raw }
    }
}

impl ConfigTable for MemoryAttributes {
    closed spec fn spec_table(&self) -> usize {
        self.table
    }

    fn from_raw(raw: usize) -> (r: Self) {
        MemoryAttributes { table: raw }
    }
}

/// The name of the table with GUID `g`, for the tables this library knows;
/// the first one listed wins where two share a GUID
pub open spec fn table_name(g: Seq<u8>) -> Option<Seq<char>> {
    if g == AcpiTable20::spec_guid() {
        Some(AcpiTable20::spec_name())
    } else if g == AcpiTable10::spec_guid() {
        Some(AcpiTable10::spec_name())
    } else if g == RuntimeProperties::spec_guid() {
        Some(RuntimeProperties::spec_name())
    } else if g == SMBIOS::spec_guid() {
        Some(SMBIOS::spec_name())
    } else if g == SMBIOS3::spec_guid() {
        Some(SMBIOS3::spec_name())
    } else if g == SAL::spec_guid() {
        Some(SAL::spec_name())
    } else if g == MPS::spec_guid() {
        Some(MPS::spec_name())
    } else if g == JsonConfigData::spec_guid() {
        Some(JsonConfigData::spec_name())
    } else if g == JsonCapsuleData::spec_guid() {
        Some(JsonCapsuleData::spec_name())
    } else if g == JsonCapsuleResult::spec_guid() {
        Some(JsonCapsuleResult::spec_name())
    } else if g == DeviceTree::spec_guid() {
        Some(DeviceTree::spec_name())
    } else if g == MemoryAttributes::spec_guid() {
        Some(MemoryAttributes::spec_name())
    } else if g == ConformanceProfile::spec_guid() {
        Some(ConformanceProfile::spec_name())
    } else if g == DebugImageInfo::spec_guid() {
        Some(DebugImageInfo::spec_name())
    } else if g == ImageExecInfo::spec_guid() {
        Some(ImageExecInfo::spec_name())
    } else if g == SystemResource::spec_guid() {
        Some(SystemResource::spec_name())
    } else if g == MemoryRangeCapsule::spec_guid() {
        Some(MemoryRangeCapsule::spec_name())
    } else if g == UserInformation::spec_guid() {
        Some(UserInformation::spec_name())
    } else if g == HIIDatabaseExport::spec_guid() {
        Some(HIIDatabaseExport::spec_name())
    } else if g == EfiProperties::spec_guid() {
        Some(EfiProperties::spec_name())
    } else if g == TianoCompress::spec_guid() {
        Some(TianoCompress::spec_name())
    } else if g == LZMACompress::spec_guid() {
        Some(LZMACompress::spec_name())
    } else if g == BrotliCompress::spec_guid() {
        Some(BrotliCompress::spec_name())
    } else if g == LZMAf86Compress::spec_guid() {
        Some(LZMAf86Compress::spec_name())
    } else if g == DXEServices::spec_guid() {
        Some(DXEServices::spec_name())
    } else if g == HOBlist::spec_guid() {
        Some(HOBlist::spec_name())
    } else if g == MemoryTypeInfo::spec_guid() {
        Some(MemoryTypeInfo::spec_name())
    } else if g == MemoryStatus::spec_guid() {
        Some(MemoryStatus::spec_name())
    } else {
        None
    }
}

impl GenericConfig {
    /// A generic table for the raw entry `config`
    pub fn new(config: RawConfigurationTable) -> (r: Self)
        ensures
            r.guid()@ == config.guid@,
            r.as_ptr() == config.table,
    {
        Self { config }
    }

    /// GUID for the table
    pub closed spec fn spec_guid(&self) -> Guid {
        self.config.guid
    }

    /// Address of the table
    pub closed spec fn spec_as_ptr(&self) -> usize {
        self.config.table
    }

    /// GUID for the table
    #[verifier::when_used_as_spec(spec_guid)]
    pub fn guid(&self) -> (r: Guid)
        ensures
            r == self.spec_guid(),
    {
        self.config.guid
    }

    /// Raw untyped address of the table
    #[verifier::when_used_as_spec(spec_as_ptr)]
    pub fn as_ptr(&self) -> (r: usize)
        ensures
            r == self.spec_as_ptr(),
    {
        self.config.table
    }

    /// Name of this table, if known
    pub fn name(&self) -> (r: Option<&'static str>)
        ensures
            match r {
                Some(s) => table_name(self.guid()@) == Some(s@),
                None => table_name(self.guid()@) is None,
            },
    {
        let guid = self.guid();
        if guid == AcpiTable20::guid() {
            Some(AcpiTable20::name())
        } else if guid == AcpiTable10::guid() {
            Some(AcpiTable10::name())
        } else if guid == RuntimeProperties::guid() {
            Some(RuntimeProperties::name())
        } else if guid == SMBIOS::guid() {
            Some(SMBIOS::name())
        } else if guid == SMBIOS3::guid() {
            Some(SMBIOS3::name())
        } else if guid == SAL::guid() {
            Some(SAL::name())
        } else if guid == MPS::guid() {
            Some(MPS::name())
        } else if guid == JsonConfigData::guid() {
            Some(JsonConfigData::name())
        } else if guid == JsonCapsuleData::guid() {
            Some(JsonCapsuleData::name())
        } else if guid == JsonCapsuleResult::guid() {
            Some(JsonCapsuleResult::name())
        } else if guid == DeviceTree::guid() {
            Some(DeviceTree::name())
        } else if guid == MemoryAttributes::guid() {
            Some(MemoryAttributes::name())
        } else if guid == ConformanceProfile::guid() {
            Some(ConformanceProfile::name())
        } else if guid == DebugImageInfo::guid() {
            Some(DebugImageInfo::name())
        } else if guid == ImageExecInfo::guid() {
            Some(ImageExecInfo::name())
        } else if guid == SystemResource::guid() {
            Some(SystemResource::name())
        } else if guid == MemoryRangeCapsule::guid() {
            Some(MemoryRangeCapsule::name())
        } else if guid == UserInformation::guid() {
            Some(UserInformation::name())
        } else if guid == HIIDatabaseExport::guid() {
            Some(HIIDatabaseExport::name())
        } else if guid == EfiProperties::guid() {
            Some(EfiProperties::name())
        } else if guid == TianoCompress::guid() {
            Some(TianoCompress::name())
        } else if guid == LZMACompress::guid() {
            Some(LZMACompress::name())
        } else if guid == BrotliCompress::guid() {
            Some(BrotliCompress::name())
        } else if guid == LZMAf86Compress::guid() {
            Some(LZMAf86Compress::name())
        } else if guid == DXEServices::guid() {
            Some(DXEServices::name())
        } else if guid == HOBlist::guid() {
            Some(HOBlist::name())
        } else if guid == MemoryTypeInfo::guid() {
            Some(MemoryTypeInfo::name())
        } else if guid == MemoryStatus::guid() {
            Some(MemoryStatus::name())
        } else {
            None
        }
    }

    /// If this generic table is [`ConfigTable`] `T`, then return its typed
    /// value
    pub fn as_table<T: ConfigTable>(&self) -> (r: Option<T>)
        ensures
            (r is Some) == (self.guid()@ == T::spec_guid()),
            r matches Some(t) ==> t.spec_table() == self.as_ptr(),
    {
        if self.guid() == T::guid() {
            let raw = self.as_ptr();
            Some(T::from_raw(raw))
        } else {
            None
        }
    }
}

impl AcpiTable20 {
    /// Address of the ACPI table
    pub fn table(&self) -> (r: usize)
        ensures
            r == self.spec_table(),
    {
        self.table
    }
}

} // verus!
