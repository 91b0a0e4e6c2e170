//! UEFI Protocols, and the identifiers and data they share
use vstd::prelude::*;

use crate::util::{le_u16, le_u32, read_u16, read_u32};

pub mod console;
pub mod device_path;
pub mod edid;
pub mod media;
pub mod platform_init;
pub mod graphics;
pub mod loaded_image;
pub mod vendor;

verus! {

/// The first three fields of a GUID, which UEFI stores little-endian,
/// swapped between that order and the order of the GUID's text
pub open spec fn swap_fields(b: Seq<u8>) -> Seq<u8> {
    seq![b[3], b[2], b[1], b[0], b[5], b[4], b[7], b[6]] + b.subrange(8, 16)
}

/// Calls `nuuid::Uuid::from_bytes_me`, then `to_bytes`: the first three
/// fields of the GUID are byte-swapped, the rest kept, as nuuid's source and
/// documentation state.
#[verifier::external_body]
fn uuid_from_bytes_me(bytes: [u8; 16]) -> (r: [u8; 16])
    ensures
        r@ == swap_fields(bytes@),
{
    nuuid::Uuid::from_bytes_me(bytes).to_bytes()
}

/// UEFI GUID, as it is stored in memory
#[derive(Debug, Clone, Copy)]
pub struct Guid {
    bytes: [u8; 16],
}

impl View for Guid {
    type V = Seq<u8>;

    closed spec fn view(&self) -> Seq<u8> {
        self.bytes@
    }
}

impl Guid {
    /// The GUID whose text, read as bytes, is `bytes`
    pub fn from_bytes(bytes: [u8; 16]) -> (r: Self)
        ensures
            r@ == swap_fields(bytes@),
    {
        Guid { bytes: uuid_from_bytes_me(bytes) }
    }

    /// The GUID stored in memory as `bytes`
    pub fn from_stored_bytes(bytes: [u8; 16]) -> (r: Self)
        ensures
            r@ == bytes@,
    {
        Guid { bytes }
    }

    /// The bytes of this GUID, as it is stored in memory
    pub fn to_bytes(&self) -> (r: [u8; 16])
        ensures
            r@ == self@,
    {
        self.bytes
    }
}

/// Something UEFI identifies by a [`Guid`], with a name
pub trait Entity {
    /// The GUID, as it is stored in memory
    spec fn spec_guid() -> Seq<u8>;

    /// The name
    spec fn spec_name() -> Seq<char>;

    /// The GUID
    fn guid() -> (r: Guid)
        ensures
            r@ == Self::spec_guid(),
    ;

    /// The name
    fn name() -> (r: &'static str)
        ensures
            r@ == Self::spec_name(),
    ;
}

/// Swapping the mixed-endian fields twice gives the bytes back: reading a
/// GUID's bytes with [`Guid::from_bytes`] undoes itself
pub proof fn lemma_swap_fields_involution(b: Seq<u8>)
    requires
        b.len() == 16,
    ensures
        swap_fields(swap_fields(b)) == b,
{
    assert(swap_fields(swap_fields(b)) =~= b);
}

/// Every GUID is sixteen bytes long
pub broadcast proof fn lemma_guid_len(g: Guid)
    ensures
        #[trigger] g@.len() == 16,
{
}

impl PartialEq for Guid {
    fn eq(&self, other: &Self) -> (r: bool) {
        let mut i: usize = 0;
        while i < 16
            invariant
                i <= 16,
                self@.len() == 16,
                other@.len() == 16,
                forall|k: int| 0 <= k < i ==> self@[k] == other@[k],
            decreases 16 - i,
        {
            if self.bytes[i] != other.bytes[i] {
                return false;
            }
            i = i + 1;
        }
        assert(self@ =~= other@);
        true
    }
}

impl vstd::std_specs::cmp::PartialEqSpecImpl for Guid {
    open spec fn obeys_eq_spec() -> bool {
        true
    }

    open spec fn eq_spec(&self, other: &Guid) -> bool {
        self@ == other@
    }
}

impl Eq for Guid {
}

/// UEFI Time information
#[derive(Debug, Clone, Copy, PartialEq, Eq, Structural)]
pub struct Time {
    /// 1900 - 9999
    pub year: u16,

    /// 1 - 12
    pub month: u8,

    /// 1 - 31
    pub day: u8,

    /// 0 - 23
    pub hour: u8,

    /// 0 - 59
    pub minute: u8,

    /// 0 - 59
    pub second: u8,

    pub _pad1: u8,

    /// 0 - 999,999,999
    pub nanosecond: u32,

    /// -1440 to 1440 or 2047
    pub time_zone: i16,

    pub daylight: u8,

    pub _pad2: u8,
}

/// Size in bytes of [`Time`]
pub const TIME_SIZE: usize = 16;

/// The time stored at `off` in `b`
pub open spec fn time_of(b: Seq<u8>, off: int) -> Time {
    Time {
        year: le_u16(b, off) as u16,
        month: b[off + 2],
        day: b[off + 3],
        hour: b[off + 4],
        minute: b[off + 5],
        second: b[off + 6],
        _pad1: b[off + 7],
        nanosecond: le_u32(b, off + 8) as u32,
        time_zone: (le_u16(b, off + 12) as u16) as i16,
        daylight: b[off + 14],
        _pad2: b[off + 15],
    }
}

impl Time {
    /// Read the time stored at `off` in `b`
    pub fn from_bytes(b: &[u8], off: usize) -> (r: Time)
        requires
            off + TIME_SIZE <= b.len(),
        ensures
            r == time_of(b@, off as int),
    {
        Time {
            year: read_u16(b, off),
            month: b[off + 2],
            day: b[off + 3],
            hour: b[off + 4],
            minute: b[off + 5],
            second: b[off + 6],
            _pad1: b[off + 7],
            nanosecond: read_u32(b, off + 8),
            time_zone: read_u16(b, off + 12) as i16,
            daylight: b[off + 14],
            _pad2: b[off + 15],
        }
    }
}

} // verus!
