//! Little-endian byte helpers shared by the table, device path and file
//! information layouts
use vstd::prelude::*;

verus! {

/// The `u16` stored little-endian at `off` in `b`
pub open spec fn le_u16(b: Seq<u8>, off: int) -> int {
    b[off] as int + b[off + 1] as int * 0x100
}

/// The `u32` stored little-endian at `off` in `b`
pub open spec fn le_u32(b: Seq<u8>, off: int) -> int {
    le_u16(b, off) + le_u16(b, off + 2) * 0x10000
}

/// The `u64` stored little-endian at `off` in `b`
pub open spec fn le_u64(b: Seq<u8>, off: int) -> int {
    le_u32(b, off) + le_u32(b, off + 4) * 0x1_0000_0000
}

/// The little-endian bytes of a `u16`
#[verifier::opaque]
pub open spec fn u16_bytes(v: int) -> Seq<u8> {
    seq![(v % 0x100) as u8, (v / 0x100 % 0x100) as u8]
}

/// The little-endian bytes of a `u32`
#[verifier::opaque]
pub open spec fn u32_bytes(v: int) -> Seq<u8> {
    u16_bytes(v % 0x10000) + u16_bytes(v / 0x10000 % 0x10000)
}

/// The little-endian bytes of a `u64`
#[verifier::opaque]
pub open spec fn u64_bytes(v: int) -> Seq<u8> {
    u32_bytes(v % 0x1_0000_0000) + u32_bytes(v / 0x1_0000_0000 % 0x1_0000_0000)
}

/// Reading back the bytes of a `u16` gives the value
pub proof fn lemma_u16_roundtrip(v: int)
    requires
        0 <= v < 0x10000,
    ensures
        u16_bytes(v).len() == 2,
        le_u16(u16_bytes(v), 0) == v,
{
    reveal(u16_bytes);
    assert(v % 0x100 + v / 0x100 % 0x100 * 0x100 == v) by (nonlinear_arith)
        requires
            0 <= v < 0x10000,
    ;
}

/// Reading back the bytes of a `u32` gives the value
pub proof fn lemma_u32_roundtrip(v: int)
    requires
        0 <= v < 0x1_0000_0000,
    ensures
        u32_bytes(v).len() == 4,
        le_u32(u32_bytes(v), 0) == v,
{
    reveal(u32_bytes);
    lemma_u16_roundtrip(v % 0x10000);
    lemma_u16_roundtrip(v / 0x10000 % 0x10000);
    let b = u32_bytes(v);
    assert(le_u16(b, 0) == le_u16(u16_bytes(v % 0x10000), 0));
    assert(le_u16(b, 2) == le_u16(u16_bytes(v / 0x10000 % 0x10000), 0));
    assert(v % 0x10000 + v / 0x10000 % 0x10000 * 0x10000 == v) by (nonlinear_arith)
        requires
            0 <= v < 0x1_0000_0000,
    ;
}

/// Reading back the bytes of a `u64` gives the value
pub proof fn lemma_u64_roundtrip(v: int)
    requires
        0 <= v < 0x1_0000_0000_0000_0000,
    ensures
        u64_bytes(v).len() == 8,
        le_u64(u64_bytes(v), 0) == v,
{
    reveal(u64_bytes);
    lemma_u32_roundtrip(v % 0x1_0000_0000);
    lemma_u32_roundtrip(v / 0x1_0000_0000 % 0x1_0000_0000);
    let b = u64_bytes(v);
    let lo = u32_bytes(v % 0x1_0000_0000);
    let hi = u32_bytes(v / 0x1_0000_0000 % 0x1_0000_0000);
    assert(b.subrange(0, 4) =~= lo);
    assert(b.subrange(4, 8) =~= hi);
    assert(le_u32(b, 0) == le_u32(lo, 0));
    assert(le_u32(b, 4) == le_u32(hi, 0));
    assert(v % 0x1_0000_0000 + v / 0x1_0000_0000 % 0x1_0000_0000 * 0x1_0000_0000 == v)
        by (nonlinear_arith)
        requires
            0 <= v < 0x1_0000_0000_0000_0000,
    ;
}

/// The bytes of any `u16` value are two
pub broadcast proof fn lemma_u16_bytes_len(v: int)
    ensures
        #[trigger] u16_bytes(v).len() == 2,
{
    reveal(u16_bytes);
}

/// The bytes of any `u32` value are four
pub broadcast proof fn lemma_u32_bytes_len(v: int)
    ensures
        #[trigger] u32_bytes(v).len() == 4,
{
    reveal(u32_bytes);
    reveal(u16_bytes);
}

/// The bytes of any `u64` value are eight
pub broadcast proof fn lemma_u64_bytes_len(v: int)
    ensures
        #[trigger] u64_bytes(v).len() == 8,
{
    reveal(u64_bytes);
    lemma_u32_bytes_len(v % 0x1_0000_0000);
    lemma_u32_bytes_len(v / 0x1_0000_0000 % 0x1_0000_0000);
}

/// The lengths of the bytes of integers
pub broadcast group group_bytes_len {
    lemma_u16_bytes_len,
    lemma_u32_bytes_len,
    lemma_u64_bytes_len,
}

/// Read the little-endian `u16` at `off`
pub fn read_u16(b: &[u8], off: usize) -> (r: u16)
    requires
        off + 2 <= b.len(),
    ensures
        r == le_u16(b@, off as int),
{
    b[off] as u16 + (b[off + 1] as u16) * 0x100
}

/// Read the little-endian `u32` at `off`
pub fn read_u32(b: &[u8], off: usize) -> (r: u32)
    requires
        off + 4 <= b.len(),
    ensures
        r == le_u32(b@, off as int),
{
    read_u16(b, off) as u32 + (read_u16(b, off + 2) as u32) * 0x10000
}

/// Read the little-endian `u64` at `off`
pub fn read_u64(b: &[u8], off: usize) -> (r: u64)
    requires
        off + 8 <= b.len(),
    ensures
        r == le_u64(b@, off as int),
{
    read_u32(b, off) as u64 + (read_u32(b, off + 4) as u64) * 0x1_0000_0000
}

/// Append the little-endian bytes of `v`
pub fn push_u16(out: &mut Vec<u8>, v: u16)
    ensures
        final(out)@ == old(out)@ + u16_bytes(v as int),
{
    reveal(u16_bytes);
    out.push((v % 0x100) as u8);
    out.push((v / 0x100 % 0x100) as u8);
}

/// Append the little-endian bytes of `v`
pub fn push_u32(out: &mut Vec<u8>, v: u32)
    ensures
        final(out)@ == old(out)@ + u32_bytes(v as int),
{
    reveal(u32_bytes);
    push_u16(out, (v % 0x10000) as u16);
    push_u16(out, (v / 0x10000 % 0x10000) as u16);
}

/// Append the little-endian bytes of `v`
pub fn push_u64(out: &mut Vec<u8>, v: u64)
    ensures
        final(out)@ == old(out)@ + u64_bytes(v as int),
{
    reveal(u64_bytes);
    push_u32(out, (v % 0x1_0000_0000) as u32);
    push_u32(out, (v / 0x1_0000_0000 % 0x1_0000_0000) as u32);
}

/// Reading at `off` only looks at the bytes there
pub proof fn lemma_le_u32_window(b: Seq<u8>, off: int)
    requires
        0 <= off,
        off + 4 <= b.len(),
    ensures
        le_u32(b, off) == le_u32(b.subrange(off, off + 4), 0),
        le_u16(b, off) == le_u16(b.subrange(off, off + 2), 0),
{
}

/// Reading at `off` only looks at the bytes there
pub proof fn lemma_le_u64_window(b: Seq<u8>, off: int)
    requires
        0 <= off,
        off + 8 <= b.len(),
    ensures
        le_u64(b, off) == le_u64(b.subrange(off, off + 8), 0),
{
}

/// The bytes of a `u32` read back from any place they are stored at
pub proof fn lemma_u32_at(b: Seq<u8>, off: int, v: int)
    requires
        0 <= off,
        off + 4 <= b.len(),
        0 <= v < 0x1_0000_0000,
        b.subrange(off, off + 4) == u32_bytes(v),
    ensures
        le_u32(b, off) == v,
{
    lemma_le_u32_window(b, off);
    lemma_u32_roundtrip(v);
}

/// The bytes of a `u64` read back from any place they are stored at
pub proof fn lemma_u64_at(b: Seq<u8>, off: int, v: int)
    requires
        0 <= off,
        off + 8 <= b.len(),
        0 <= v < 0x1_0000_0000_0000_0000,
        b.subrange(off, off + 8) == u64_bytes(v),
    ensures
        le_u64(b, off) == v,
{
    lemma_le_u64_window(b, off);
    lemma_u64_roundtrip(v);
}

} // verus!
