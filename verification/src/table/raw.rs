//! Raw UEFI table data
use vstd::prelude::*;

use crate::error::{error_of, EfiStatus, Result, UefiError, ERROR_BIT};
use crate::util::{le_u32, le_u64, lemma_u32_at, lemma_u32_roundtrip, lemma_u64_at, lemma_u64_roundtrip, push_u32, push_u64, read_u32, read_u64, u32_bytes, u64_bytes};

verus! {

/// UEFI Header Revision
///
/// The upper 16 bits are the major version, the lower 16 bits the minor
/// version.
///
/// Revisions are ordered by their number, so by major part, then minor part.
#[derive(Debug, Clone, Copy, PartialEq, Eq, Structural, Ord)]
pub struct Revision(pub u32);

impl Revision {
    /// Create a new revision for `major.minor`
    pub fn new(major: u16, minor: u16) -> (r: Self)
        ensures
            r.0 == major as int * 0x10000 + minor as int,
    {
        let v: u32 = ((major as u32) << 16u32) | (minor as u32);
        assert(((major as u32) << 16u32) | (minor as u32) == major as int * 0x10000 + minor as int)
            by (bit_vector);
        Revision(v)
    }

    /// The major part of the revision
    pub fn major(self) -> (r: u32)
        ensures
            r == self.0 / 0x10000,
    {
        let v: u32 = self.0;
        let r: u32 = v >> 16u32;
        assert(v >> 16u32 == v / 0x10000) by (bit_vector);
        r
    }

    /// The minor part of the revision
    pub fn minor(self) -> (r: u32)
        ensures
            r == self.0 % 0x10000,
    {
        let v: u32 = self.0;
        let r: u32 = (v as u16) as u32;
        assert((v as u16) as u32 == v % 0x10000) by (bit_vector);
        r
    }
}

/// Whether this library supports a table of revision `r`: UEFI 2.70 or a
/// later 2.x
pub open spec fn revision_supported(r: Revision) -> bool {
    r.0 / 0x10000 == 2 && r.0 % 0x10000 >= 70
}

/// `Revision::new(major, minor)` has that major and minor part
pub proof fn lemma_revision_parts(major: u16, minor: u16)
    ensures
        (major as int * 0x10000 + minor as int) / 0x10000 == major,
        (major as int * 0x10000 + minor as int) % 0x10000 == minor,
{
}

/// One bit step of the reflected CRC-32 register, polynomial 0x04C11DB7
/// reflected
pub open spec fn crc32_bit(c: u32) -> u32 {
    if c & 1 == 1 {
        (c >> 1u32) ^ 0xEDB8_8320u32
    } else {
        c >> 1u32
    }
}

/// The CRC-32 register after taking in byte `b`, least significant bit first
pub open spec fn crc32_byte(c: u32, b: u8) -> u32 {
    let x = c ^ (b as u32);
    crc32_bit(crc32_bit(crc32_bit(crc32_bit(crc32_bit(crc32_bit(crc32_bit(crc32_bit(x))))))))
}

/// The CRC-32 register after taking in `bytes`, from all ones
pub open spec fn crc32_register(bytes: Seq<u8>) -> u32
    decreases bytes.len(),
{
    if bytes.len() == 0 {
        0xFFFF_FFFFu32
    } else {
        crc32_byte(crc32_register(bytes.drop_last()), bytes.last())
    }
}

/// The CRC-32/ISO-HDLC of `bytes`: reflected input and output, initial
/// value and final xor all ones
pub open spec fn crc32_iso_hdlc(bytes: Seq<u8>) -> u32 {
    crc32_register(bytes) ^ 0xFFFF_FFFFu32
}

/// The catalogue's check value: the CRC of the ASCII digits `123456789`
pub proof fn lemma_crc32_check_value()
    ensures
        crc32_iso_hdlc(seq![0x31u8, 0x32, 0x33, 0x34, 0x35, 0x36, 0x37, 0x38, 0x39]) == 0xCBF4_3926u32,
{
    assert(crc32_byte(0xFFFF_FFFFu32, 0x31u8) == 0x7c23_1048u32) by (bit_vector);
    assert(crc32_byte(0x7c23_1048u32, 0x32u8) == 0xb0ac_bb32u32) by (bit_vector);
    assert(crc32_byte(0xb0ac_bb32u32, 0x33u8) == 0x77b7_9c2du32) by (bit_vector);
    assert(crc32_byte(0x77b7_9c2du32, 0x34u8) == 0x641c_1f5cu32) by (bit_vector);
    assert(crc32_byte(0x641c_1f5cu32, 0x35u8) == 0x340a_c5e3u32) by (bit_vector);
    assert(crc32_byte(0x340a_c5e3u32, 0x36u8) == 0xf68d_2c9eu32) by (bit_vector);
    assert(crc32_byte(0xf68d_2c9eu32, 0x37u8) == 0xaffc_9660u32) by (bit_vector);
    assert(crc32_byte(0xaffc_9660u32, 0x38u8) == 0x651f_2550u32) by (bit_vector);
    assert(crc32_byte(0x651f_2550u32, 0x39u8) == 0x340b_c6d9u32) by (bit_vector);
    assert(seq![0x31u8, 0x32, 0x33, 0x34, 0x35, 0x36, 0x37, 0x38, 0x39].drop_last() =~= seq![0x31u8, 0x32, 0x33, 0x34, 0x35, 0x36, 0x37, 0x38]);
    assert(seq![0x31u8, 0x32, 0x33, 0x34, 0x35, 0x36, 0x37, 0x38].drop_last() =~= seq![0x31u8, 0x32, 0x33, 0x34, 0x35, 0x36, 0x37]);
    assert(seq![0x31u8, 0x32, 0x33, 0x34, 0x35, 0x36, 0x37].drop_last() =~= seq![0x31u8, 0x32, 0x33, 0x34, 0x35, 0x36]);
    assert(seq![0x31u8, 0x32, 0x33, 0x34, 0x35, 0x36].drop_last() =~= seq![0x31u8, 0x32, 0x33, 0x34, 0x35]);
    assert(seq![0x31u8, 0x32, 0x33, 0x34, 0x35].drop_last() =~= seq![0x31u8, 0x32, 0x33, 0x34]);
    assert(seq![0x31u8, 0x32, 0x33, 0x34].drop_last() =~= seq![0x31u8, 0x32, 0x33]);
    assert(seq![0x31u8, 0x32, 0x33].drop_last() =~= seq![0x31u8, 0x32]);
    assert(seq![0x31u8, 0x32].drop_last() =~= seq![0x31u8]);
    assert(seq![0x31u8].drop_last() =~= Seq::<u8>::empty());
    assert(crc32_register(Seq::<u8>::empty()) == 0xFFFF_FFFFu32);
    assert(seq![0x31u8].last() == 0x31u8);
    assert(crc32_register(seq![0x31u8]) == 0x7c23_1048u32);
    assert(seq![0x31u8, 0x32].last() == 0x32u8);
    assert(crc32_register(seq![0x31u8, 0x32]) == 0xb0ac_bb32u32);
    assert(seq![0x31u8, 0x32, 0x33].last() == 0x33u8);
    assert(crc32_register(seq![0x31u8, 0x32, 0x33]) == 0x77b7_9c2du32);
    assert(seq![0x31u8, 0x32, 0x33, 0x34].last() == 0x34u8);
    assert(crc32_register(seq![0x31u8, 0x32, 0x33, 0x34]) == 0x641c_1f5cu32);
    assert(seq![0x31u8, 0x32, 0x33, 0x34, 0x35].last() == 0x35u8);
    assert(crc32_register(seq![0x31u8, 0x32, 0x33, 0x34, 0x35]) == 0x340a_c5e3u32);
    assert(seq![0x31u8, 0x32, 0x33, 0x34, 0x35, 0x36].last() == 0x36u8);
    assert(crc32_register(seq![0x31u8, 0x32, 0x33, 0x34, 0x35, 0x36]) == 0xf68d_2c9eu32);
    assert(seq![0x31u8, 0x32, 0x33, 0x34, 0x35, 0x36, 0x37].last() == 0x37u8);
    assert(crc32_register(seq![0x31u8, 0x32, 0x33, 0x34, 0x35, 0x36, 0x37]) == 0xaffc_9660u32);
    assert(seq![0x31u8, 0x32, 0x33, 0x34, 0x35, 0x36, 0x37, 0x38].last() == 0x38u8);
    assert(crc32_register(seq![0x31u8, 0x32, 0x33, 0x34, 0x35, 0x36, 0x37, 0x38]) == 0x651f_2550u32);
    assert(seq![0x31u8, 0x32, 0x33, 0x34, 0x35, 0x36, 0x37, 0x38, 0x39].last() == 0x39u8);
    assert(crc32_register(seq![0x31u8, 0x32, 0x33, 0x34, 0x35, 0x36, 0x37, 0x38, 0x39]) == 0x340b_c6d9u32);
    assert(0x340b_c6d9u32 ^ 0xFFFF_FFFFu32 == 0xCBF4_3926u32) by (bit_vector);
}

/// The CRC used by the UEFI tables.
///
/// Calls `crc::Crc::<u32>::checksum` with the `CRC_32_ISO_HDLC` algorithm,
/// whose parameters the contract states as [`crc32_iso_hdlc`].
#[verifier::external_body]
fn crc32(bytes: &[u8]) -> (r: u32)
    ensures
        r == crc32_iso_hdlc(bytes@),
{
    crc::Crc::<u32>::new(&crc::CRC_32_ISO_HDLC).checksum(bytes)
}

/// Size in bytes of [`Header`]
pub const HEADER_SIZE: usize = 24;

/// The header that starts every UEFI table
#[derive(Debug, Clone, Copy, PartialEq, Eq, Structural)]
pub struct Header {
    /// Unique signature identifying the table
    pub signature: u64,

    /// UEFI Revision
    pub revision: Revision,

    /// Size of the entire table, including this header
    pub size: u32,

    /// 32-bit CRC for the table.
    /// This is set to 0 and computed for `size` bytes.
    pub crc32: u32,

    /// Reserved field. 0.
    pub reserved: u32,
}

/// The header stored at the start of `t`
pub open spec fn header_of(t: Seq<u8>) -> Header {
    Header {
        signature: le_u64(t, 0) as u64,
        revision: Revision(le_u32(t, 8) as u32),
        size: le_u32(t, 12) as u32,
        crc32: le_u32(t, 16) as u32,
        reserved: le_u32(t, 20) as u32,
    }
}

/// The bytes of a header
pub open spec fn header_bytes(h: Header) -> Seq<u8> {
    u64_bytes(h.signature as int) + u32_bytes(h.revision.0 as int) + u32_bytes(h.size as int)
        + u32_bytes(h.crc32 as int) + u32_bytes(h.reserved as int)
}

/// The bytes a table's CRC is computed over: its first `size` bytes, with
/// the CRC field read as zero. The header is always included whole.
pub open spec fn crc_input(t: Seq<u8>) -> Seq<u8> {
    let size = le_u32(t, 12);
    let end = if size < HEADER_SIZE { HEADER_SIZE as int } else { size };
    t.subrange(0, 16) + seq![0u8, 0u8, 0u8, 0u8] + t.subrange(20, end)
}

/// What validating table `t` against signature `sig` gives
pub open spec fn header_validation(t: Seq<u8>, sig: u64) -> Result<()> {
    let h = header_of(t);
    if crc32_iso_hdlc(crc_input(t)) != h.crc32 {
        Err(error_of(EfiStatus::spec_crc_error()))
    } else if !revision_supported(h.revision) {
        Err(error_of(EfiStatus::spec_unsupported()))
    } else if h.signature != sig {
        Err(error_of(EfiStatus::spec_invalid_parameter()))
    } else {
        Ok(())
    }
}

impl Header {
    /// Read the header at the start of `bytes`
    pub fn from_bytes(bytes: &[u8]) -> (r: Header)
        requires
            bytes@.len() >= HEADER_SIZE,
        ensures
            r == header_of(bytes@),
    {
        Header {
            signature: read_u64(bytes, 0),
            revision: Revision(read_u32(bytes, 8)),
            size: read_u32(bytes, 12),
            crc32: read_u32(bytes, 16),
            reserved: read_u32(bytes, 20),
        }
    }

    /// The bytes of this header, as it is laid out in memory
    pub fn to_bytes(&self) -> (r: Vec<u8>)
        ensures
            r@ == header_bytes(*self),
    {
        let mut out: Vec<u8> = Vec::new();
        push_u64(&mut out, self.signature);
        push_u32(&mut out, self.revision.0);
        push_u32(&mut out, self.size);
        push_u32(&mut out, self.crc32);
        push_u32(&mut out, self.reserved);
        out
    }

    /// The CRC a table with these bytes must carry: the CRC of its first
    /// `size` bytes, with the CRC field read as zero
    pub fn checksum(table: &[u8]) -> (r: u32)
        requires
            table@.len() >= HEADER_SIZE,
            table@.len() >= le_u32(table@, 12),
        ensures
            r == crc32_iso_hdlc(crc_input(table@)),
    {
        let size: usize = read_u32(table, 12) as usize;
        let end: usize = if size < HEADER_SIZE { HEADER_SIZE } else { size };
        let mut data: Vec<u8> = Vec::new();
        let mut i: usize = 0;
        while i < end
            invariant
                end <= table@.len(),
                end >= HEADER_SIZE,
                i <= end,
                data@.len() == i,
                forall|k: int| 0 <= k < i ==> data@[k] == (if 16 <= k < 20 { 0u8 } else { table@[k] }),
            decreases end - i,
        {
            if 16 <= i && i < 20 {
                data.push(0u8);
            } else {
                data.push(table[i]);
            }
            i = i + 1;
        }
        assert(data@ =~= crc_input(table@));
        crc32(data.as_slice())
    }

    /// Validate the table `table`, which starts with this header
    ///
    /// The CRC is checked first, then the revision, which must be 2.70 or a
    /// later 2.x, then the signature.
    pub fn validate(table: &[u8], sig: u64) -> (r: Result<()>)
        requires
            table@.len() >= HEADER_SIZE,
            table@.len() >= le_u32(table@, 12),
        ensures
            r == header_validation(table@, sig),
    {
        let header = Header::from_bytes(table);
        let expected: u32 = header.crc32;
        if expected != Header::checksum(table) {
            return Err(UefiError::new(EfiStatus::crc_error()));
        }
        if !(header.revision.major() == 2 && header.revision.minor() >= 70) {
            return Err(UefiError::new(EfiStatus::unsupported()));
        }
        if header.signature != sig {
            return Err(UefiError::new(EfiStatus::invalid_parameter()));
        }
        Ok(())
    }
}

/// Size in bytes of the system table
pub const SYSTEM_TABLE_SIZE: u32 = 120;

/// Size in bytes of the boot services table
pub const BOOT_SERVICES_SIZE: u32 = 376;

/// Signature of the system table
pub const SYSTEM_TABLE_SIGNATURE: u64 = 0x5453595320494249;

/// Signature of the boot services table
pub const BOOT_SERVICES_SIGNATURE: u64 = 0x56524553544f4f42;

/// Signature of the runtime services table
pub const RUNTIME_SERVICES_SIGNATURE: u64 = 0x56524553544e5552;

/// The EFI system table.
///
/// Pointers and handles are held as the addresses they hold.
#[derive(Debug, Clone, Copy, PartialEq, Eq, Structural)]
pub struct RawSystemTable {
    /// Table header, always valid
    pub header: Header,

    /// Firmware vendor: address of a null terminated UCS-2 string
    pub firmware_vendor: u64,

    /// Firmware vendor specific version value
    pub firmware_revision: u32,

    /// Console input handle
    pub console_in_handle: u64,

    /// Console input protocol
    pub con_in: u64,

    /// Console output handle
    pub console_out_handle: u64,

    /// Console output protocol
    pub con_out: u64,

    /// Console error handle
    pub console_err_handle: u64,

    /// Console error output
    pub con_err: u64,

    /// Runtime services table
    pub runtime_services: u64,

    /// Boot services table, zero once boot services were exited
    pub boot_services: u64,

    /// Number of configuration table entries
    pub number_of_table_entries: u64,

    /// Configuration table
    pub configuration_table: u64,
}

/// The bytes of a system table, as it is laid out in memory on a 64-bit
/// machine
pub open spec fn system_table_bytes(t: RawSystemTable) -> Seq<u8> {
    header_bytes(t.header) + system_table_body(t)
}

/// The bytes of a system table that follow its header
pub open spec fn system_table_body(t: RawSystemTable) -> Seq<u8> {
    u64_bytes(t.firmware_vendor as int) + u32_bytes(t.firmware_revision as int) + u32_bytes(0)
        + u64_bytes(t.console_in_handle as int) + u64_bytes(t.con_in as int) + u64_bytes(
        t.console_out_handle as int,
    ) + u64_bytes(t.con_out as int) + u64_bytes(t.console_err_handle as int) + u64_bytes(
        t.con_err as int,
    ) + u64_bytes(t.runtime_services as int) + u64_bytes(t.boot_services as int) + u64_bytes(
        t.number_of_table_entries as int,
    ) + u64_bytes(t.configuration_table as int)
}

/// The system table stored at the start of `b`
pub open spec fn system_table_of(b: Seq<u8>) -> RawSystemTable {
    RawSystemTable {
        header: header_of(b),
        firmware_vendor: le_u64(b, 24) as u64,
        firmware_revision: le_u32(b, 32) as u32,
        console_in_handle: le_u64(b, 40) as u64,
        con_in: le_u64(b, 48) as u64,
        console_out_handle: le_u64(b, 56) as u64,
        con_out: le_u64(b, 64) as u64,
        console_err_handle: le_u64(b, 72) as u64,
        con_err: le_u64(b, 80) as u64,
        runtime_services: le_u64(b, 88) as u64,
        boot_services: le_u64(b, 96) as u64,
        number_of_table_entries: le_u64(b, 104) as u64,
        configuration_table: le_u64(b, 112) as u64,
    }
}

/// `t` with its CRC set to the checksum of its bytes, the CRC field read as
/// zero
pub open spec fn sealed(t: RawSystemTable) -> RawSystemTable {
    let zeroed = RawSystemTable { header: Header { crc32: 0, ..t.header }, ..t };
    RawSystemTable {
        header: Header { crc32: crc32_iso_hdlc(system_table_bytes(zeroed)), ..t.header },
        ..t
    }
}

impl RawSystemTable {
    /// The bytes of this table, as it is laid out in memory
    pub fn to_bytes(&self) -> (r: Vec<u8>)
        ensures
            r@ == system_table_bytes(*self),
    {
        let mut out = self.header.to_bytes();
        let mut body = self.body_bytes();
        out.append(&mut body);
        out
    }

    /// Read the system table laid out at the start of `bytes`
    pub fn from_bytes(bytes: &[u8]) -> (r: Self)
        requires
            bytes@.len() >= SYSTEM_TABLE_SIZE,
        ensures
            r == system_table_of(bytes@),
    {
        RawSystemTable {
            header: Header::from_bytes(bytes),
            firmware_vendor: read_u64(bytes, 24),
            firmware_revision: read_u32(bytes, 32),
            console_in_handle: read_u64(bytes, 40),
            con_in: read_u64(bytes, 48),
            console_out_handle: read_u64(bytes, 56),
            con_out: read_u64(bytes, 64),
            console_err_handle: read_u64(bytes, 72),
            con_err: read_u64(bytes, 80),
            runtime_services: read_u64(bytes, 88),
            boot_services: read_u64(bytes, 96),
            number_of_table_entries: read_u64(bytes, 104),
            configuration_table: read_u64(bytes, 112),
        }
    }

    /// The bytes that follow the header
    fn body_bytes(&self) -> (r: Vec<u8>)
        ensures
            r@ == system_table_body(*self),
    {
        let mut out: Vec<u8> = Vec::new();
        push_u64(&mut out, self.firmware_vendor);
        assert(out@ =~= u64_bytes(self.firmware_vendor as int));
        push_u32(&mut out, self.firmware_revision);
        push_u32(&mut out, 0);
        push_u64(&mut out, self.console_in_handle);
        push_u64(&mut out, self.con_in);
        push_u64(&mut out, self.console_out_handle);
        push_u64(&mut out, self.con_out);
        push_u64(&mut out, self.console_err_handle);
        push_u64(&mut out, self.con_err);
        push_u64(&mut out, self.runtime_services);
        push_u64(&mut out, self.boot_services);
        push_u64(&mut out, self.number_of_table_entries);
        push_u64(&mut out, self.configuration_table);
        out
    }

    /// Mock instance of [`RawSystemTable`]: a UEFI 2.70 system table with
    /// firmware revision 69420, no services, and a correct CRC
    pub fn mock() -> (r: Self)
        ensures
            r == sealed(mock_system_table()),
    {
        let mut s = RawSystemTable {
            header: Header {
                signature: SYSTEM_TABLE_SIGNATURE,
                revision: Revision::new(2, 70),
                size: SYSTEM_TABLE_SIZE,
                crc32: 0,
                reserved: 0,
            },
            firmware_vendor: 0,
            firmware_revision: 69420,
            console_in_handle: 0,
            con_in: 0,
            console_out_handle: 0,
            con_out: 0,
            console_err_handle: 0,
            con_err: 0,
            runtime_services: 0,
            boot_services: 0,
            number_of_table_entries: 0,
            configuration_table: 0,
        };
        let bytes = s.to_bytes();
        s.header.crc32 = crc32(bytes.as_slice());
        s
    }

    /// Validate the system table and the boot and runtime services tables it
    /// points to, in that order, each given by its bytes
    ///
    /// Validation fails if CRC validation fails, the UEFI revision is
    /// unsupported, or a signature is not the one of its table.
    pub fn validate(system: &[u8], boot: &[u8], runtime: &[u8]) -> (r: Result<()>)
        requires
            system@.len() >= HEADER_SIZE,
            system@.len() >= le_u32(system@, 12),
            boot@.len() >= HEADER_SIZE,
            boot@.len() >= le_u32(boot@, 12),
            runtime@.len() >= HEADER_SIZE,
            runtime@.len() >= le_u32(runtime@, 12),
        ensures
            r == (if header_validation(system@, SYSTEM_TABLE_SIGNATURE) is Err {
                header_validation(system@, SYSTEM_TABLE_SIGNATURE)
            } else if header_validation(boot@, BOOT_SERVICES_SIGNATURE) is Err {
                header_validation(boot@, BOOT_SERVICES_SIGNATURE)
            } else {
                header_validation(runtime@, RUNTIME_SERVICES_SIGNATURE)
            }),
    {
        Header::validate(system, SYSTEM_TABLE_SIGNATURE)?;
        Header::validate(boot, BOOT_SERVICES_SIGNATURE)?;
        Header::validate(runtime, RUNTIME_SERVICES_SIGNATURE)?;
        Ok(())
    }
}

/// The fields of [`RawSystemTable::mock`], before its CRC is computed
pub open spec fn mock_system_table() -> RawSystemTable {
    RawSystemTable {
        header: Header {
            signature: SYSTEM_TABLE_SIGNATURE,
            revision: Revision(0x20046),
            size: SYSTEM_TABLE_SIZE,
            crc32: 0,
            reserved: 0,
        },
        firmware_vendor: 0,
        firmware_revision: 69420,
        console_in_handle: 0,
        con_in: 0,
        console_out_handle: 0,
        con_out: 0,
        console_err_handle: 0,
        con_err: 0,
        runtime_services: 0,
        boot_services: 0,
        number_of_table_entries: 0,
        configuration_table: 0,
    }
}

/// A header read back from the bytes it was written to is that header
pub proof fn lemma_header_roundtrip(h: Header, rest: Seq<u8>)
    ensures
        header_bytes(h).len() == HEADER_SIZE,
        header_of(header_bytes(h) + rest) == h,
{
    lemma_u64_roundtrip(h.signature as int);
    lemma_u32_roundtrip(h.revision.0 as int);
    lemma_u32_roundtrip(h.size as int);
    lemma_u32_roundtrip(h.crc32 as int);
    lemma_u32_roundtrip(h.reserved as int);
    let b = header_bytes(h) + rest;
    assert(b.subrange(0, 8) =~= u64_bytes(h.signature as int));
    assert(b.subrange(8, 12) =~= u32_bytes(h.revision.0 as int));
    assert(b.subrange(12, 16) =~= u32_bytes(h.size as int));
    assert(b.subrange(16, 20) =~= u32_bytes(h.crc32 as int));
    assert(b.subrange(20, 24) =~= u32_bytes(h.reserved as int));
    lemma_u64_at(b, 0, h.signature as int);
    lemma_u32_at(b, 8, h.revision.0 as int);
    lemma_u32_at(b, 12, h.size as int);
    lemma_u32_at(b, 16, h.crc32 as int);
    lemma_u32_at(b, 20, h.reserved as int);
}

/// A system table read back from the bytes it was written to is that table
pub proof fn lemma_system_table_roundtrip(t: RawSystemTable)
    ensures
        system_table_bytes(t).len() == SYSTEM_TABLE_SIZE,
        system_table_of(system_table_bytes(t)) == t,
{
    broadcast use crate::util::group_bytes_len;

    let body = system_table_body(t);
    let b = system_table_bytes(t);
    lemma_header_roundtrip(t.header, body);
    lemma_system_table_body_len(t);
    assert(b.subrange(24, 32) =~= u64_bytes(t.firmware_vendor as int));
    lemma_u64_at(b, 24, t.firmware_vendor as int);
    assert(b.subrange(32, 36) =~= u32_bytes(t.firmware_revision as int));
    lemma_u32_at(b, 32, t.firmware_revision as int);
    assert(b.subrange(40, 48) =~= u64_bytes(t.console_in_handle as int));
    lemma_u64_at(b, 40, t.console_in_handle as int);
    assert(b.subrange(48, 56) =~= u64_bytes(t.con_in as int));
    lemma_u64_at(b, 48, t.con_in as int);
    assert(b.subrange(56, 64) =~= u64_bytes(t.console_out_handle as int));
    lemma_u64_at(b, 56, t.console_out_handle as int);
    assert(b.subrange(64, 72) =~= u64_bytes(t.con_out as int));
    lemma_u64_at(b, 64, t.con_out as int);
    assert(b.subrange(72, 80) =~= u64_bytes(t.console_err_handle as int));
    lemma_u64_at(b, 72, t.console_err_handle as int);
    assert(b.subrange(80, 88) =~= u64_bytes(t.con_err as int));
    lemma_u64_at(b, 80, t.con_err as int);
    assert(b.subrange(88, 96) =~= u64_bytes(t.runtime_services as int));
    lemma_u64_at(b, 88, t.runtime_services as int);
    assert(b.subrange(96, 104) =~= u64_bytes(t.boot_services as int));
    lemma_u64_at(b, 96, t.boot_services as int);
    assert(b.subrange(104, 112) =~= u64_bytes(t.number_of_table_entries as int));
    lemma_u64_at(b, 104, t.number_of_table_entries as int);
    assert(b.subrange(112, 120) =~= u64_bytes(t.configuration_table as int));
    lemma_u64_at(b, 112, t.configuration_table as int);
}

/// Validation of a table whose CRC and signature are right depends on its
/// revision alone: every 2.x revision from 2.70 on passes, any other
/// revision is `UNSUPPORTED`
pub proof fn lemma_validation_by_revision(t: Seq<u8>, sig: u64)
    requires
        t.len() >= HEADER_SIZE,
        le_u32(t, 16) == crc32_iso_hdlc(crc_input(t)),
        le_u64(t, 0) == sig,
    ensures
        (le_u32(t, 8) / 0x10000 == 2 && le_u32(t, 8) % 0x10000 >= 70) ==> header_validation(t, sig)
            == Ok::<(), UefiError>(()),
        !(le_u32(t, 8) / 0x10000 == 2 && le_u32(t, 8) % 0x10000 >= 70) ==> header_validation(t, sig)
            == Err::<(), UefiError>(error_of(EfiStatus(ERROR_BIT | 3))),
{
    crate::error::lemma_status_codes();
}

/// A table whose CRC field is not the CRC of its bytes fails with
/// `CRC_ERROR`, whatever else it holds; one whose CRC is right but whose
/// revision is not a 2.x from 2.70 on fails with `UNSUPPORTED`, whatever its
/// signature; one whose CRC and revision are right but whose signature is
/// another fails with `INVALID_PARAMETER`
pub proof fn lemma_validation_checks(t: Seq<u8>, sig: u64)
    requires
        t.len() >= HEADER_SIZE,
    ensures
        le_u32(t, 16) != crc32_iso_hdlc(crc_input(t)) ==> header_validation(t, sig)
            == Err::<(), UefiError>(error_of(EfiStatus(ERROR_BIT | 27))),
        (le_u32(t, 16) == crc32_iso_hdlc(crc_input(t)) && !(le_u32(t, 8) / 0x10000 == 2 && le_u32(t, 8)
            % 0x10000 >= 70)) ==> header_validation(t, sig) == Err::<(), UefiError>(
            error_of(EfiStatus(ERROR_BIT | 3)),
        ),
        (le_u32(t, 16) == crc32_iso_hdlc(crc_input(t)) && le_u32(t, 8) / 0x10000 == 2 && le_u32(t, 8) % 0x10000
            >= 70 && le_u64(t, 0) != sig) ==> header_validation(t, sig) == Err::<(), UefiError>(
            error_of(EfiStatus(ERROR_BIT | 2)),
        ),
{
    crate::error::lemma_status_codes();
}

/// Each field of a system table is read at its offset in the UEFI
/// `EFI_SYSTEM_TABLE` layout: the header, then the vendor, revision, the
/// console handles and protocols, runtime services at 88, boot services at
/// 96, and the configuration table count and address
pub proof fn lemma_system_table_of_layout(b: Seq<u8>)
    ensures
        system_table_of(b).header == header_of(b),
        system_table_of(b).firmware_vendor == le_u64(b, 24) as u64,
        system_table_of(b).firmware_revision == le_u32(b, 32) as u32,
        system_table_of(b).console_in_handle == le_u64(b, 40) as u64,
        system_table_of(b).con_in == le_u64(b, 48) as u64,
        system_table_of(b).console_out_handle == le_u64(b, 56) as u64,
        system_table_of(b).con_out == le_u64(b, 64) as u64,
        system_table_of(b).console_err_handle == le_u64(b, 72) as u64,
        system_table_of(b).con_err == le_u64(b, 80) as u64,
        system_table_of(b).runtime_services == le_u64(b, 88) as u64,
        system_table_of(b).boot_services == le_u64(b, 96) as u64,
        system_table_of(b).number_of_table_entries == le_u64(b, 104) as u64,
        system_table_of(b).configuration_table == le_u64(b, 112) as u64,
{
}

/// The bytes of a system table lay each field at its offset in the UEFI
/// `EFI_SYSTEM_TABLE` layout, runtime services at 88 and boot services at 96
pub proof fn lemma_system_table_bytes_layout(t: RawSystemTable)
    ensures
        system_table_bytes(t).len() == SYSTEM_TABLE_SIZE,
        system_table_bytes(t).subrange(0, 24) == header_bytes(t.header),
        system_table_bytes(t).subrange(24, 32) == u64_bytes(t.firmware_vendor as int),
        system_table_bytes(t).subrange(32, 36) == u32_bytes(t.firmware_revision as int),
        system_table_bytes(t).subrange(40, 48) == u64_bytes(t.console_in_handle as int),
        system_table_bytes(t).subrange(48, 56) == u64_bytes(t.con_in as int),
        system_table_bytes(t).subrange(56, 64) == u64_bytes(t.console_out_handle as int),
        system_table_bytes(t).subrange(64, 72) == u64_bytes(t.con_out as int),
        system_table_bytes(t).subrange(72, 80) == u64_bytes(t.console_err_handle as int),
        system_table_bytes(t).subrange(80, 88) == u64_bytes(t.con_err as int),
        system_table_bytes(t).subrange(88, 96) == u64_bytes(t.runtime_services as int),
        system_table_bytes(t).subrange(96, 104) == u64_bytes(t.boot_services as int),
        system_table_bytes(t).subrange(104, 112) == u64_bytes(t.number_of_table_entries as int),
        system_table_bytes(t).subrange(112, 120) == u64_bytes(t.configuration_table as int),
{
    broadcast use crate::util::group_bytes_len;

    lemma_system_table_body_len(t);
    lemma_header_roundtrip(t.header, system_table_body(t));
    let b = system_table_bytes(t);
    assert(b.subrange(0, 24) =~= header_bytes(t.header));
    assert(b.subrange(24, 32) =~= u64_bytes(t.firmware_vendor as int));
    assert(b.subrange(32, 36) =~= u32_bytes(t.firmware_revision as int));
    assert(b.subrange(40, 48) =~= u64_bytes(t.console_in_handle as int));
    assert(b.subrange(48, 56) =~= u64_bytes(t.con_in as int));
    assert(b.subrange(56, 64) =~= u64_bytes(t.console_out_handle as int));
    assert(b.subrange(64, 72) =~= u64_bytes(t.con_out as int));
    assert(b.subrange(72, 80) =~= u64_bytes(t.console_err_handle as int));
    assert(b.subrange(80, 88) =~= u64_bytes(t.con_err as int));
    assert(b.subrange(88, 96) =~= u64_bytes(t.runtime_services as int));
    assert(b.subrange(96, 104) =~= u64_bytes(t.boot_services as int));
    assert(b.subrange(104, 112) =~= u64_bytes(t.number_of_table_entries as int));
    assert(b.subrange(112, 120) =~= u64_bytes(t.configuration_table as int));
}

/// Replacing four bytes at 16 with zeros, in bytes laid out as a header
/// followed by a body
proof fn lemma_zero_crc_field(p: Seq<u8>, c: Seq<u8>, r: Seq<u8>, body: Seq<u8>)
    requires
        p.len() == 16,
        c.len() == 4,
        r.len() == 4,
    ensures
        ({
            let b = p + c + r + body;
            b.subrange(0, 16) + seq![0u8, 0u8, 0u8, 0u8] + b.subrange(20, b.len() as int) =~= p
                + seq![0u8, 0u8, 0u8, 0u8] + r + body
        }),
{
}

/// The body of a system table is 96 bytes long
proof fn lemma_system_table_body_len(t: RawSystemTable)
    ensures
        system_table_body(t).len() == 96,
{
    broadcast use crate::util::group_bytes_len;

}

/// A system table whose CRC was computed over its own bytes, with the CRC
/// field read as zero, passes validation, whenever its size and signature
/// are those of a system table and its revision is supported
pub proof fn lemma_sealed_system_table_validates(t: RawSystemTable)
    requires
        t.header.size == SYSTEM_TABLE_SIZE,
        t.header.signature == SYSTEM_TABLE_SIGNATURE,
        revision_supported(t.header.revision),
    ensures
        system_table_bytes(sealed(t)).len() == SYSTEM_TABLE_SIZE,
        header_validation(system_table_bytes(sealed(t)), SYSTEM_TABLE_SIGNATURE) == Ok::<(), UefiError>(()),
{
    let s = sealed(t);
    let zeroed = RawSystemTable { header: Header { crc32: 0, ..t.header }, ..t };
    let b = system_table_bytes(s);
    let z = system_table_bytes(zeroed);
    let body = system_table_body(s);
    assert(body == system_table_body(zeroed));
    lemma_system_table_body_len(s);
    lemma_header_roundtrip(s.header, body);
    lemma_u64_roundtrip(t.header.signature as int);
    lemma_u32_roundtrip(t.header.revision.0 as int);
    lemma_u32_roundtrip(t.header.size as int);
    lemma_u32_roundtrip(s.header.crc32 as int);
    lemma_u32_roundtrip(t.header.reserved as int);
    lemma_u32_roundtrip(0);
    let p = u64_bytes(t.header.signature as int) + u32_bytes(t.header.revision.0 as int) + u32_bytes(
        t.header.size as int,
    );
    assert(u32_bytes(0) =~= seq![0u8, 0u8, 0u8, 0u8]) by {
        reveal(u32_bytes);
        reveal(crate::util::u16_bytes);
    }
    lemma_zero_crc_field(p, u32_bytes(s.header.crc32 as int), u32_bytes(t.header.reserved as int), body);
    assert(b.len() == 120);
    assert(header_of(b) == s.header);
    assert(crc_input(b) == z);
}

/// Number of service entries in the boot services table
pub const BOOT_SERVICES_ENTRIES: usize = 44;

/// Raw structure of the UEFI Boot Services table
///
/// The service entries, in the order the specification lists them, are held
/// as the addresses they hold; zero is an absent service.
#[derive(Debug)]
pub struct RawBootServices {
    /// Table header
    pub header: Header,

    /// The service entry points
    pub services: Vec<u64>,
}

/// The bytes of `entries`, each as a little-endian `u64`
pub open spec fn entries_bytes(entries: Seq<u64>) -> Seq<u8>
    decreases entries.len(),
{
    if entries.len() == 0 {
        Seq::empty()
    } else {
        entries_bytes(entries.drop_last()) + u64_bytes(entries.last() as int)
    }
}

impl RawBootServices {
    /// The bytes of this table, as it is laid out in memory
    pub fn to_bytes(&self) -> (r: Vec<u8>)
        ensures
            r@ == header_bytes(self.header) + entries_bytes(self.services@),
    {
        let mut out = self.header.to_bytes();
        let mut i: usize = 0;
        while i < self.services.len()
            invariant
                i <= self.services@.len(),
                out@ == header_bytes(self.header) + entries_bytes(self.services@.subrange(0, i as int)),
            decreases self.services@.len() - i,
        {
            proof {
                assert(self.services@.subrange(0, i + 1).drop_last() =~= self.services@.subrange(0, i as int));
            }
            push_u64(&mut out, self.services[i]);
            i = i + 1;
        }
        assert(self.services@.subrange(0, i as int) =~= self.services@);
        out
    }

    /// Mock instance of [`RawBootServices`]: a UEFI 2.70 table header with a
    /// zero CRC, and no services
    pub fn mock() -> (r: Self)
        ensures
            r.header == (Header {
                signature: BOOT_SERVICES_SIGNATURE,
                revision: Revision(0x20046),
                size: BOOT_SERVICES_SIZE,
                crc32: 0,
                reserved: 0,
            }),
            r.services@ == Seq::new(BOOT_SERVICES_ENTRIES as nat, |i: int| 0u64),
    {
        let mut services: Vec<u64> = Vec::new();
        let mut i: usize = 0;
        while i < BOOT_SERVICES_ENTRIES
            invariant
                i <= BOOT_SERVICES_ENTRIES,
                services@ == Seq::new(i as nat, |k: int| 0u64),
            decreases BOOT_SERVICES_ENTRIES - i,
        {
            services.push(0);
            i = i + 1;
            assert(services@ =~= Seq::new(i as nat, |k: int| 0u64));
        }
        RawBootServices {
            header: Header {
                signature: BOOT_SERVICES_SIGNATURE,
                revision: Revision::new(2, 70),
                size: BOOT_SERVICES_SIZE,
                crc32: 0,
                reserved: 0,
            },
            services,
        }
    }
}

/// Raw structure of the UEFI Runtime Services table
#[derive(Debug, Clone, Copy, PartialEq, Eq, Structural)]
pub struct RawRuntimeServices {
    /// Table header
    pub header: Header,
}

/// Search type for locating handles
#[derive(Debug, Clone, Copy, PartialEq, Eq, Structural)]
pub struct LocateSearch(pub u32);

impl LocateSearch {
    /// Every handle in the system
    pub fn all_handles() -> (r: Self)
        ensures
            r.0 == 0,
    {
        LocateSearch(0)
    }

    /// The next handle new for a registration
    pub fn by_register_notify() -> (r: Self)
        ensures
            r.0 == 1,
    {
        LocateSearch(1)
    }

    /// All handles that support a protocol
    pub fn by_protocol() -> (r: Self)
        ensures
            r.0 == 2,
    {
        LocateSearch(2)
    }
}

} // verus!
