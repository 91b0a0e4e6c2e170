//! UEFI String handling helpers
//!
//! UEFI strings are treated as UTF-16: encoded from Rust strings, and decoded
//! back either strictly or with [`char::REPLACEMENT_CHARACTER`] in place of
//! unpaired surrogates.
use vstd::prelude::*;

use crate::error::{error_of, EfiStatus, Result, UefiError};
use crate::proto::device_path::{lossy_answered, text_answered, DevicePath, DevicePathToText, DevicePathUtil};

verus! {

/// A leading surrogate
pub open spec fn is_high_surrogate(u: u16) -> bool {
    0xD800 <= u <= 0xDBFF
}

/// A trailing surrogate
pub open spec fn is_low_surrogate(u: u16) -> bool {
    0xDC00 <= u <= 0xDFFF
}

/// The UTF-16 code units of `c`
pub open spec fn encode_char_utf16(c: char) -> Seq<u16> {
    let v = c as u32;
    if v < 0x10000 {
        seq![v as u16]
    } else {
        let w = v - 0x10000;
        seq![(0xD800 + w / 0x400) as u16, (0xDC00 + w % 0x400) as u16]
    }
}

/// The UTF-16 code units of `s`
pub open spec fn encode_utf16(s: Seq<char>) -> Seq<u16>
    decreases s.len(),
{
    if s.len() == 0 {
        Seq::empty()
    } else {
        encode_char_utf16(s[0]) + encode_utf16(s.drop_first())
    }
}

/// The scalar a surrogate pair stands for
pub open spec fn pair_value(hi: u16, lo: u16) -> u32 {
    (0x10000 + (hi - 0xD800) * 0x400 + (lo - 0xDC00)) as u32
}

/// Decoding UTF-16, as `char::decode_utf16` does: each character, or `None`
/// for each unpaired surrogate
pub open spec fn decode_utf16(u: Seq<u16>) -> Seq<Option<char>>
    decreases u.len(),
{
    if u.len() == 0 {
        Seq::empty()
    } else if !is_high_surrogate(u[0]) && !is_low_surrogate(u[0]) {
        seq![Some((u[0] as u32) as char)] + decode_utf16(u.drop_first())
    } else if is_high_surrogate(u[0]) && u.len() >= 2 && is_low_surrogate(u[1]) {
        seq![Some(pair_value(u[0], u[1]) as char)] + decode_utf16(u.subrange(2, u.len() as int))
    } else {
        seq![None] + decode_utf16(u.drop_first())
    }
}

/// Whether `u` is valid UTF-16: it has no unpaired surrogate
pub open spec fn utf16_valid(u: Seq<u16>) -> bool {
    forall|i: int| 0 <= i < decode_utf16(u).len() ==> #[trigger] decode_utf16(u)[i] is Some
}

/// The replacement character, U+FFFD
pub open spec fn replacement() -> char {
    0xFFFDu32 as char
}

/// Decoding UTF-16, each unpaired surrogate replaced by U+FFFD
pub open spec fn decode_utf16_lossy(u: Seq<u16>) -> Seq<char> {
    decode_utf16(u).map_values(|o: Option<char>| if o is Some { o->0 } else { replacement() })
}

/// Encoding one more character appends its code units
pub proof fn lemma_encode_push(s: Seq<char>, c: char)
    ensures
        encode_utf16(s.push(c)) == encode_utf16(s) + encode_char_utf16(c),
    decreases s.len(),
{
    if s.len() == 0 {
        assert(s.push(c).drop_first() =~= Seq::<char>::empty());
        assert(encode_utf16(Seq::<char>::empty()) =~= Seq::<u16>::empty());
        assert(encode_utf16(s.push(c)) =~= encode_char_utf16(c));
        assert(encode_utf16(s) + encode_char_utf16(c) =~= encode_char_utf16(c));
    } else {
        lemma_encode_push(s.drop_first(), c);
        assert(s.push(c).drop_first() =~= s.drop_first().push(c));
        assert(encode_utf16(s.push(c)) =~= encode_char_utf16(s[0]) + encode_utf16(s.drop_first().push(c)));
    }
}

/// Decoding the code units of a string gives back the string
pub proof fn lemma_decode_encode(s: Seq<char>)
    ensures
        decode_utf16(encode_utf16(s)) == s.map_values(|c: char| Some(c)),
    decreases s.len(),
{
    broadcast use vstd::utf8::char_is_scalar, vstd::utf8::char_u32_cast;

    if s.len() == 0 {
        assert(decode_utf16(encode_utf16(s)) =~= s.map_values(|c: char| Some(c)));
    } else {
        let c = s[0];
        let rest = s.drop_first();
        lemma_decode_encode(rest);
        let e = encode_utf16(s);
        let v = c as u32;
        vstd::utf8::char_is_scalar(c);
        vstd::utf8::char_u32_cast(c, v);
        if v < 0x10000 {
            assert(e.drop_first() =~= encode_utf16(rest));
            assert((v as u16) as u32 == v);
            assert((((v as u16) as u32) as char) == c);
        } else {
            let w = v - 0x10000;
            let hi = (0xD800 + w / 0x400) as u16;
            let lo = (0xDC00 + w % 0x400) as u16;
            assert(e[0] == hi && e[1] == lo);
            assert(is_high_surrogate(hi) && is_low_surrogate(lo));
            assert(pair_value(hi, lo) == v) by {
                assert(w / 0x400 * 0x400 + w % 0x400 == w) by (nonlinear_arith);
            }
            assert(e.subrange(2, e.len() as int) =~= encode_utf16(rest));
        }
        assert(decode_utf16(e) =~= s.map_values(|c: char| Some(c)));
    }
}

/// Strings encoded from Rust strings are valid UTF-16, and decode back to
/// the same string, strictly or not
pub proof fn lemma_encode_valid(s: Seq<char>)
    ensures
        utf16_valid(encode_utf16(s)),
        decode_utf16_lossy(encode_utf16(s)) == s,
{
    lemma_decode_encode(s);
    assert(decode_utf16_lossy(encode_utf16(s)) =~= s);
}

/// `char::from_u32`: the character with scalar value `v`, or `None` where
/// `v` is not a Unicode scalar value, as std documents.
#[verifier::external_body]
fn char_from_u32(v: u32) -> (r: Option<char>)
    ensures
        vstd::utf8::is_scalar(v) ==> r == Some(v as char),
        !vstd::utf8::is_scalar(v) ==> r is None,
{
    char::from_u32(v)
}

/// `String::from_iter`: the string of the characters `chars`, in order.
#[verifier::external_body]
fn string_from_chars(chars: &[char]) -> (r: String)
    ensures
        r@ == chars@,
{
    String::from_iter(chars.iter())
}

/// Append the UTF-16 code units of `c`
fn push_char_utf16(out: &mut Vec<u16>, c: char)
    ensures
        final(out)@ == old(out)@ + encode_char_utf16(c),
{
    let v: u32 = c as u32;
    if v < 0x10000 {
        out.push(v as u16);
    } else {
        proof {
            vstd::utf8::char_is_scalar(c);
        }
        let w: u32 = v - 0x10000;
        out.push((0xD800 + w / 0x400) as u16);
        out.push((0xDC00 + w % 0x400) as u16);
    }
    assert(final(out)@ =~= old(out)@ + encode_char_utf16(c));
}

/// The UTF-16 code units of `s`, without a terminating nul
pub fn encode_str(s: &str) -> (r: Vec<u16>)
    ensures
        r@ == encode_utf16(s@),
{
    let n: usize = s.unicode_len();
    let mut out: Vec<u16> = Vec::new();
    let mut i: usize = 0;
    while i < n
        invariant
            n == s@.len(),
            i <= n,
            out@ == encode_utf16(s@.subrange(0, i as int)),
        decreases n - i,
    {
        let c = s.get_char(i);
        proof {
            lemma_encode_push(s@.subrange(0, i as int), c);
            assert(s@.subrange(0, i as int).push(c) =~= s@.subrange(0, i + 1));
        }
        push_char_utf16(&mut out, c);
        i = i + 1;
    }
    assert(s@.subrange(0, n as int) =~= s@);
    out
}

/// Decoding the code units from `i` on is decoding the first of them, then
/// the rest
proof fn lemma_decode_step(u: Seq<u16>, i: int)
    requires
        0 <= i < u.len(),
    ensures
        ({
            let t = u.subrange(i, u.len() as int);
            if !is_high_surrogate(u[i]) && !is_low_surrogate(u[i]) {
                decode_utf16(t) == seq![Some((u[i] as u32) as char)] + decode_utf16(u.subrange(i + 1, u.len() as int))
            } else if is_high_surrogate(u[i]) && i + 1 < u.len() && is_low_surrogate(u[i + 1]) {
                decode_utf16(t) == seq![Some(pair_value(u[i], u[i + 1]) as char)] + decode_utf16(u.subrange(i + 2, u.len() as int))
            } else {
                decode_utf16(t) == seq![None::<char>] + decode_utf16(u.subrange(i + 1, u.len() as int))
            }
        }),
{
    let t = u.subrange(i, u.len() as int);
    assert(t.drop_first() =~= u.subrange(i + 1, u.len() as int));
    if t.len() >= 2 {
        assert(t.subrange(2, t.len() as int) =~= u.subrange(i + 2, u.len() as int));
    }
}

/// Decode UTF-16 `units`, replacing each unpaired surrogate by U+FFFD
pub fn decode_lossy(units: &[u16]) -> (r: Vec<char>)
    ensures
        r@ == decode_utf16_lossy(units@),
{
    let n: usize = units.len();
    let mut out: Vec<char> = Vec::new();
    let ghost mut done: Seq<Option<char>> = Seq::empty();
    let mut i: usize = 0;
    proof {
        assert(units@.subrange(0, n as int) =~= units@);
    }
    while i < n
        invariant
            n == units@.len(),
            i <= n,
            done + decode_utf16(units@.subrange(i as int, n as int)) == decode_utf16(units@),
            out@ == done.map_values(|o: Option<char>| if o is Some { o->0 } else { replacement() }),
        decreases n - i,
    {
        let u: u16 = units[i];
        proof {
            lemma_decode_step(units@, i as int);
        }
        let ghost item: Option<char>;
        if !(0xD800 <= u && u <= 0xDBFF) && !(0xDC00 <= u && u <= 0xDFFF) {
            let c = char_from_u32(u as u32);
            out.push(c.unwrap());
            proof {
                item = Some((u as u32) as char);
            }
            i = i + 1;
        } else if 0xD800 <= u && u <= 0xDBFF && i + 1 < n && 0xDC00 <= units[i + 1] && units[i + 1] <= 0xDFFF {
            let lo: u16 = units[i + 1];
            let v: u32 = 0x10000 + (u as u32 - 0xD800) * 0x400 + (lo as u32 - 0xDC00);
            let c = char_from_u32(v);
            out.push(c.unwrap());
            proof {
                item = Some(pair_value(u, lo) as char);
            }
            i = i + 2;
        } else {
            out.push('\u{FFFD}');
            proof {
                item = None;
            }
            i = i + 1;
        }
        proof {
            assert(done.push(item) + decode_utf16(units@.subrange(i as int, n as int)) =~= done + (seq![item] + decode_utf16(units@.subrange(i as int, n as int))));
            done = done.push(item);
            assert(out@ =~= done.map_values(|o: Option<char>| if o is Some { o->0 } else { replacement() }));
        }
    }
    proof {
        assert(units@.subrange(n as int, n as int) =~= Seq::<u16>::empty());
        assert(decode_utf16(Seq::<u16>::empty()) =~= Seq::<Option<char>>::empty());
        assert(done =~= decode_utf16(units@));
    }
    out
}

/// Decode UTF-16 `units` into a [`String`], replacing each unpaired
/// surrogate by U+FFFD
pub fn utf16_to_string_lossy(units: &[u16]) -> (r: String)
    ensures
        r@ == decode_utf16_lossy(units@),
{
    let chars = decode_lossy(units);
    string_from_chars(chars.as_slice())
}

/// Whether `u` holds a nul
pub open spec fn has_nul(u: Seq<u16>) -> bool {
    exists|i: int| 0 <= i < u.len() && u[i] == 0
}

/// Whether `n` is the position of the first nul in `u`
pub open spec fn is_first_nul(u: Seq<u16>, n: int) -> bool {
    &&& 0 <= n < u.len()
    &&& u[n] == 0
    &&& forall|k: int| 0 <= k < n ==> u[k] != 0
}

/// The position of the first nul in `u`, where it holds one
pub open spec fn first_nul(u: Seq<u16>) -> int {
    choose|n: int| is_first_nul(u, n)
}

/// The nul terminated string at the start of `u`: its units up to and
/// including the first nul
pub open spec fn nul_terminated(u: Seq<u16>) -> Seq<u16> {
    u.subrange(0, first_nul(u) + 1)
}

/// The first nul is the one position with no nul before it
pub proof fn lemma_first_nul(u: Seq<u16>, n: int)
    requires
        is_first_nul(u, n),
    ensures
        first_nul(u) == n,
{
    let m = first_nul(u);
    assert(is_first_nul(u, m));
    if m < n {
        assert(u[m] != 0);
    } else if n < m {
        assert(u[n] != 0);
    }
}

/// Get the length of a nul terminated string: the number of code units
/// before its first nul
pub fn string_len(data: &[u16]) -> (r: usize)
    requires
        has_nul(data@),
    ensures
        r < data.len(),
        is_first_nul(data@, r as int),
        r == first_nul(data@),
{
    let mut len: usize = 0;
    while data[len] != 0
        invariant
            len < data@.len(),
            forall|k: int| 0 <= k < len ==> data@[k] != 0,
            exists|i: int| len <= i < data@.len() && data@[i] == 0,
        decreases data@.len() - len,
    {
        len = len + 1;
    }
    proof {
        lemma_first_nul(data@, len as int);
    }
    len
}

/// An owned UEFI string, encoded as UTF-16, ending in a nul
#[derive(Debug)]
pub struct UefiString {
    data: Vec<u16>,
}

impl View for UefiString {
    type V = Seq<u16>;

    /// The code units, including the terminating nul
    closed spec fn view(&self) -> Seq<u16> {
        self.data@
    }
}

impl UefiString {
    /// Well formed: a nul terminated string, the nul being its last unit
    pub closed spec fn wf(&self) -> bool {
        &&& self.data@.len() >= 1
        &&& self.data@.last() == 0
    }

    /// Create a new UEFI string holding `s`
    ///
    /// `s` must not contain a nul.
    pub fn new(s: &str) -> (r: Self)
        requires
            !s@.contains('\0'),
        ensures
            r.wf(),
            r@ == encode_utf16(s@).push(0),
    {
        let mut data = encode_str(s);
        data.push(0);
        UefiString { data }
    }

    /// Create an owned [`UefiString`] from `data`, holding a nul terminated
    /// string: the units up to and including the first nul
    pub fn from_ptr(data: &[u16]) -> (r: Self)
        requires
            has_nul(data@),
        ensures
            r.wf(),
            r@ == nul_terminated(data@),
    {
        let len: usize = string_len(data);
        UefiString::from_ptr_len(data, len + 1)
    }

    /// Create an owned [`UefiString`] from the first `len` units of `data`,
    /// the last of which is a nul
    pub fn from_ptr_len(data: &[u16], len: usize) -> (r: Self)
        requires
            1 <= len <= data@.len(),
            data@[len - 1] == 0,
        ensures
            r.wf(),
            r@ == data@.subrange(0, len as int),
    {
        let (head, _tail) = data.split_at(len);
        let mut v: Vec<u16> = Vec::new();
        let mut i: usize = 0;
        while i < len
            invariant
                i <= len,
                len <= data@.len(),
                head@ == data@.subrange(0, len as int),
                v@ == head@.subrange(0, i as int),
            decreases len - i,
        {
            v.push(head[i]);
            i = i + 1;
            assert(v@ =~= head@.subrange(0, i as int));
        }
        assert(head@.subrange(0, len as int) =~= head@);
        UefiString { data: v }
    }

    /// An unowned view of this string
    pub fn as_uefi_str(&self) -> (r: UefiStr<'_>)
        requires
            self.wf(),
        ensures
            r.wf(),
            r@ == self@,
    {
        UefiStr { data: self.data.as_slice() }
    }
}

/// An unowned UEFI string: the code units, ending in a nul
#[derive(Debug)]
pub struct UefiStr<'buf> {
    data: &'buf [u16],
}

impl<'buf> View for UefiStr<'buf> {
    type V = Seq<u16>;

    /// The code units, including the terminating nul
    closed spec fn view(&self) -> Seq<u16> {
        self.data@
    }
}

impl<'buf> UefiStr<'buf> {
    /// Well formed: at least the terminating nul is there
    pub closed spec fn wf(&self) -> bool {
        self.data@.len() >= 1
    }

    /// Create an unowned [`UefiStr`] over the nul terminated string in
    /// `data`: the units up to and including the first nul
    pub fn from_ptr(data: &'buf [u16]) -> (r: Self)
        requires
            has_nul(data@),
        ensures
            r.wf(),
            r@ == nul_terminated(data@),
    {
        let len: usize = string_len(data);
        let (head, _tail) = data.split_at(len + 1);
        UefiStr { data: head }
    }

    /// Create an unowned [`UefiStr`] over the first `len` units of `data`,
    /// nul included
    pub fn from_ptr_len(data: &'buf [u16], len: usize) -> (r: Self)
        requires
            1 <= len <= data@.len(),
        ensures
            r.wf(),
            r@ == data@.subrange(0, len as int),
    {
        let (head, _tail) = data.split_at(len);
        UefiStr { data: head }
    }

    /// The string as a slice of UTF-16 code units, without the trailing nul
    pub fn as_slice(&self) -> (r: &'buf [u16])
        requires
            self.wf(),
        ensures
            r@ == self@.drop_last(),
    {
        let n: usize = self.data.len();
        let (head, _tail) = self.data.split_at(n - 1);
        head
    }

    /// The string as a slice of UTF-16 code units, with the trailing nul
    pub fn as_slice_with_nul(&self) -> (r: &'buf [u16])
        ensures
            r@ == self@,
    {
        self.data
    }

    /// Convert the string into a [`String`]
    ///
    /// The string must be valid UTF-16.
    pub fn into_string(&self) -> (r: String)
        requires
            self.wf(),
            utf16_valid(self@.drop_last()),
        ensures
            r@ == decode_utf16_lossy(self@.drop_last()),
            r@.map_values(|c: char| Some(c)) == decode_utf16(self@.drop_last()),
    {
        let units = self.as_slice();
        let r = utf16_to_string_lossy(units);
        proof {
            assert(r@.map_values(|c: char| Some(c)) =~= decode_utf16(self@.drop_last()));
        }
        r
    }

    /// Convert the string into a [`String`], each unpaired surrogate
    /// replaced by [`char::REPLACEMENT_CHARACTER`]
    pub fn to_string_lossy(&self) -> (r: String)
        requires
            self.wf(),
        ensures
            r@ == decode_utf16_lossy(self@.drop_last()),
    {
        utf16_to_string_lossy(self.as_slice())
    }
}

/// A string made into a [`UefiString`] and converted back into a [`String`]
/// is the string it was made from
pub proof fn lemma_uefi_string_roundtrip(s: Seq<char>)
    ensures
        utf16_valid(encode_utf16(s).push(0).drop_last()),
        decode_utf16_lossy(encode_utf16(s).push(0).drop_last()) == s,
{
    assert(encode_utf16(s).push(0).drop_last() =~= encode_utf16(s));
    lemma_encode_valid(s);
}

/// Whether `r` is what asking for a copy of a path answered: `UNSUPPORTED`
/// once boot services are gone or where there is no Device Path Utilities
/// protocol, the error finding it gave, `OUT_OF_RESOURCES` where
/// firmware's copy `ret` is null, the copy otherwise
pub open spec fn copy_answered(boot: bool, util: Result<Option<DevicePathUtil>>, ret: usize, r: Result<PathBuf>) -> bool {
    if !boot {
        r == Err::<PathBuf, UefiError>(error_of(EfiStatus::spec_unsupported()))
    } else {
        match util {
            Err(e) => r == Err::<PathBuf, UefiError>(e),
            Ok(None) => r == Err::<PathBuf, UefiError>(error_of(EfiStatus::spec_unsupported())),
            Ok(Some(_)) => if ret == 0 {
                r == Err::<PathBuf, UefiError>(error_of(EfiStatus::spec_out_of_resources()))
            } else {
                r matches Ok(b) && b.spec_device().spec_addr() == ret
            },
        }
    }
}

/// A copy of a path, from what finding the Device Path Utilities protocol
/// and its `DuplicateDevicePath` answered
fn copy_path(boot: bool, util: Result<Option<DevicePathUtil>>, ret: usize) -> (r: Result<PathBuf>)
    requires
        util matches Ok(Some(u)) ==> u.raw.duplicate_device_path is Some,
    ensures
        copy_answered(boot, util, ret, r),
{
    if !boot {
        return Err(UefiError::new(EfiStatus::unsupported()));
    }
    match util {
        Err(e) => Err(e),
        Ok(None) => Err(UefiError::new(EfiStatus::unsupported())),
        Ok(Some(u)) => match u.duplicate(ret) {
            Ok(copy) => Ok(PathBuf::new(copy)),
            Err(e) => Err(e),
        },
    }
}

/// An unowned UEFI [DevicePath]
#[derive(Debug)]
pub struct Path {
    data: DevicePath,
}

impl Path {
    /// The device path
    pub closed spec fn spec_device(&self) -> DevicePath {
        self.data
    }

    /// Create an unowned [Path] from a [DevicePath]
    pub fn new(data: DevicePath) -> (r: Self)
        ensures
            r.spec_device() == data,
    {
        Self { data }
    }

    /// Convert [`Path`] to [`PathBuf`], from what finding the Device Path
    /// Utilities protocol and duplicating this path answered
    pub fn to_path_buf(&self, boot: bool, util: Result<Option<DevicePathUtil>>, ret: usize) -> (r: Result<PathBuf>)
        requires
            util matches Ok(Some(u)) ==> u.raw.duplicate_device_path is Some,
        ensures
            copy_answered(boot, util, ret, r),
    {
        copy_path(boot, util, ret)
    }

    /// Convert this path to a UEFI String, from what finding the Device
    /// Path Display protocol and converting this path answered:
    /// `UNSUPPORTED` once boot services are gone or where there is no such
    /// protocol
    pub fn to_text(&self, boot: bool, proto: Result<Option<DevicePathToText>>, text: Option<&[u16]>) -> (r: Result<UefiString>)
        requires
            proto matches Ok(Some(p)) ==> p.raw.convert_device_path_to_text is Some,
            text matches Some(d) ==> has_nul(d@),
        ensures
            !boot ==> r == Err::<UefiString, UefiError>(error_of(EfiStatus::spec_unsupported())),
            boot ==> match proto {
                Err(e) => r == Err::<UefiString, UefiError>(e),
                Ok(None) => r == Err::<UefiString, UefiError>(error_of(EfiStatus::spec_unsupported())),
                Ok(Some(_)) => text_answered(text, r),
            },
    {
        if !boot {
            return Err(UefiError::new(EfiStatus::unsupported()));
        }
        match proto {
            Err(e) => Err(e),
            Ok(None) => Err(UefiError::new(EfiStatus::unsupported())),
            Ok(Some(p)) => p.convert_device_path_to_text(text),
        }
    }

    /// Convert this path to a Rust String
    ///
    /// Invalid characters are mapped to [`char::REPLACEMENT_CHARACTER`]
    pub fn to_string_lossy(&self, boot: bool, proto: Result<Option<DevicePathToText>>, text: Option<&[u16]>) -> (r: Result<String>)
        requires
            proto matches Ok(Some(p)) ==> p.raw.convert_device_path_to_text is Some,
            text matches Some(d) ==> has_nul(d@),
        ensures
            !boot ==> r == Err::<String, UefiError>(error_of(EfiStatus::spec_unsupported())),
            boot ==> match proto {
                Err(e) => r == Err::<String, UefiError>(e),
                Ok(None) => r == Err::<String, UefiError>(error_of(EfiStatus::spec_unsupported())),
                Ok(Some(_)) => lossy_answered(text, r),
            },
    {
        match self.to_text(boot, proto, text) {
            Ok(s) => Ok(s.as_uefi_str().to_string_lossy()),
            Err(e) => Err(e),
        }
    }

    /// Convert this path to a Rust String, as [`Path::to_string_lossy`]
    /// does
    pub fn to_string(&self, boot: bool, proto: Result<Option<DevicePathToText>>, text: Option<&[u16]>) -> (r: Result<String>)
        requires
            proto matches Ok(Some(p)) ==> p.raw.convert_device_path_to_text is Some,
            text matches Some(d) ==> has_nul(d@),
        ensures
            !boot ==> r == Err::<String, UefiError>(error_of(EfiStatus::spec_unsupported())),
            boot ==> match proto {
                Err(e) => r == Err::<String, UefiError>(e),
                Ok(None) => r == Err::<String, UefiError>(error_of(EfiStatus::spec_unsupported())),
                Ok(Some(_)) => lossy_answered(text, r),
            },
    {
        self.to_string_lossy(boot, proto, text)
    }

    /// Get this as a [DevicePath]
    pub fn as_device(&self) -> (r: &DevicePath)
        ensures
            *r == self.spec_device(),
    {
        &self.data
    }
}

/// An owned UEFI [DevicePath]
#[derive(Debug)]
pub struct PathBuf {
    data: DevicePath,
}

impl PathBuf {
    /// The device path
    pub closed spec fn spec_device(&self) -> DevicePath {
        self.data
    }

    /// Create an owned [PathBuf] from a [DevicePath]
    pub fn new(data: DevicePath) -> (r: Self)
        ensures
            r.spec_device() == data,
    {
        Self { data }
    }

    /// This path, unowned
    pub fn as_path(&self) -> (r: Path)
        ensures
            r.spec_device() == self.spec_device(),
    {
        Path::new(self.data)
    }

    /// A copy of this path, from what finding the Device Path Utilities
    /// protocol and duplicating this path answered
    pub fn try_clone(&self, boot: bool, util: Result<Option<DevicePathUtil>>, ret: usize) -> (r: Result<PathBuf>)
        requires
            util matches Ok(Some(u)) ==> u.raw.duplicate_device_path is Some,
        ensures
            copy_answered(boot, util, ret, r),
    {
        copy_path(boot, util, ret)
    }
}

} // verus!
