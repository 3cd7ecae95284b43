//! Little-endian words on the byte stream: what a fixed-width word at a
//! given position reads as, and the executable reads and writes that
//! realize those readings.

use vstd::bytes::*;
use vstd::prelude::*;
use vstd::slice::slice_subrange;

verus! {

/// The 16-bit word at position `p` of stream `s`.
pub open spec fn le16(s: Seq<u8>, p: int) -> u16 {
    spec_u16_from_le_bytes(s.subrange(p, p + 2))
}

/// The 32-bit word at position `p` of stream `s`.
pub open spec fn le32(s: Seq<u8>, p: int) -> u32 {
    spec_u32_from_le_bytes(s.subrange(p, p + 4))
}

/// The 64-bit word at position `p` of stream `s`.
pub open spec fn le64(s: Seq<u8>, p: int) -> u64 {
    spec_u64_from_le_bytes(s.subrange(p, p + 8))
}

/// The 128-bit word at position `p` of stream `s`.
pub open spec fn le128(s: Seq<u8>, p: int) -> u128 {
    spec_u128_from_le_bytes(s.subrange(p, p + 16))
}

/// Reading a word out of a subrange is reading it out of the enclosing
/// stream at the shifted position.
pub proof fn lemma_le16_in_subrange(s: Seq<u8>, a: int, b: int, q: int)
    requires
        0 <= a <= b <= s.len(),
        0 <= q,
        a + q + 2 <= b,
    ensures
        le16(s.subrange(a, b), q) == le16(s, a + q),
{
    assert(s.subrange(a, b).subrange(q, q + 2) =~= s.subrange(a + q, a + q + 2));
}

/// A 16-bit word read back from its own encoding is the value encoded;
/// the encoding is two bytes long.
pub proof fn lemma_le16_of_enc(s: Seq<u8>, p: int, x: u16)
    requires
        0 <= p,
        p + 2 <= s.len(),
        s.subrange(p, p + 2) == spec_u16_to_le_bytes(x),
    ensures
        le16(s, p) == x,
{
    lemma_auto_spec_u16_to_from_le_bytes();
    assert(s.subrange(p, p + 2) == spec_u16_to_le_bytes(x));
    assert(le16(s, p) == spec_u16_from_le_bytes(spec_u16_to_le_bytes(x)));
}

/// A 32-bit word read back from its own encoding is the value encoded.
pub proof fn lemma_le32_of_enc(s: Seq<u8>, p: int, x: u32)
    requires
        0 <= p,
        p + 4 <= s.len(),
        s.subrange(p, p + 4) == spec_u32_to_le_bytes(x),
    ensures
        le32(s, p) == x,
{
    lemma_auto_spec_u32_to_from_le_bytes();
    assert(s.subrange(p, p + 4) == spec_u32_to_le_bytes(x));
    assert(le32(s, p) == spec_u32_from_le_bytes(spec_u32_to_le_bytes(x)));
}

/// A 64-bit word read back from its own encoding is the value encoded.
pub proof fn lemma_le64_of_enc(s: Seq<u8>, p: int, x: u64)
    requires
        0 <= p,
        p + 8 <= s.len(),
        s.subrange(p, p + 8) == spec_u64_to_le_bytes(x),
    ensures
        le64(s, p) == x,
{
    lemma_auto_spec_u64_to_from_le_bytes();
    assert(s.subrange(p, p + 8) == spec_u64_to_le_bytes(x));
    assert(le64(s, p) == spec_u64_from_le_bytes(spec_u64_to_le_bytes(x)));
}

/// A 128-bit word read back from its own encoding is the value encoded.
pub proof fn lemma_le128_of_enc(s: Seq<u8>, p: int, x: u128)
    requires
        0 <= p,
        p + 16 <= s.len(),
        s.subrange(p, p + 16) == spec_u128_to_le_bytes(x),
    ensures
        le128(s, p) == x,
{
    lemma_auto_spec_u128_to_from_le_bytes();
    assert(s.subrange(p, p + 16) == spec_u128_to_le_bytes(x));
    assert(le128(s, p) == spec_u128_from_le_bytes(spec_u128_to_le_bytes(x)));
}

/// Reads the 16-bit word at `pos`.
pub fn read_le16(bytes: &[u8], pos: usize) -> (r: u16)
    requires
        pos + 2 <= bytes@.len(),
    ensures
        r == le16(bytes@, pos as int),
{
    let n: usize = bytes.len();
    u16_from_le_bytes(slice_subrange(bytes, pos, pos + 2))
}

/// Reads the 32-bit word at `pos`.
pub fn read_le32(bytes: &[u8], pos: usize) -> (r: u32)
    requires
        pos + 4 <= bytes@.len(),
    ensures
        r == le32(bytes@, pos as int),
{
    let n: usize = bytes.len();
    u32_from_le_bytes(slice_subrange(bytes, pos, pos + 4))
}

/// Reads the 64-bit word at `pos`.
pub fn read_le64(bytes: &[u8], pos: usize) -> (r: u64)
    requires
        pos + 8 <= bytes@.len(),
    ensures
        r == le64(bytes@, pos as int),
{
    let n: usize = bytes.len();
    u64_from_le_bytes(slice_subrange(bytes, pos, pos + 8))
}

/// Reads the 128-bit word at `pos`.
pub fn read_le128(bytes: &[u8], pos: usize) -> (r: u128)
    requires
        pos + 16 <= bytes@.len(),
    ensures
        r == le128(bytes@, pos as int),
{
    let n: usize = bytes.len();
    u128_from_le_bytes(slice_subrange(bytes, pos, pos + 16))
}

/// Appends the two-byte encoding of a 16-bit word.
pub fn push_le16(out: &mut Vec<u8>, x: u16)
    ensures
        final(out)@ == old(out)@ + spec_u16_to_le_bytes(x),
{
    let mut enc: Vec<u8> = u16_to_le_bytes(x);
    out.append(&mut enc);
}

/// Appends the four-byte encoding of a 32-bit word.
pub fn push_le32(out: &mut Vec<u8>, x: u32)
    ensures
        final(out)@ == old(out)@ + spec_u32_to_le_bytes(x),
{
    let mut enc: Vec<u8> = u32_to_le_bytes(x);
    out.append(&mut enc);
}

/// Appends the eight-byte encoding of a 64-bit word.
pub fn push_le64(out: &mut Vec<u8>, x: u64)
    ensures
        final(out)@ == old(out)@ + spec_u64_to_le_bytes(x),
{
    let mut enc: Vec<u8> = u64_to_le_bytes(x);
    out.append(&mut enc);
}

/// Appends the sixteen-byte encoding of a 128-bit word.
pub fn push_le128(out: &mut Vec<u8>, x: u128)
    ensures
        final(out)@ == old(out)@ + spec_u128_to_le_bytes(x),
{
    let mut enc: Vec<u8> = u128_to_le_bytes(x);
    out.append(&mut enc);
}

} // verus!
