//! Little-endian encoding of 16- and 32-bit words.

use vstd::prelude::*;

verus! {

/// The two bytes of `x`, least significant first.
pub open spec fn u16_le(x: u16) -> Seq<u8> {
    seq![(x % 256) as u8, (x / 256) as u8]
}

/// The four bytes of `x`, least significant first.
pub open spec fn u32_le(x: u32) -> Seq<u8> {
    seq![
        (x % 256) as u8,
        (x / 256 % 256) as u8,
        (x / 65536 % 256) as u8,
        (x / 16777216) as u8,
    ]
}

/// The 16-bit word whose little-endian bytes are `b[0]`, `b[1]`.
pub open spec fn u16_from_le(b: Seq<u8>) -> u16
    recommends
        b.len() == 2,
{
    (b[0] as int + 256 * (b[1] as int)) as u16
}

/// The 32-bit word whose little-endian bytes are `b[0]` to `b[3]`.
pub open spec fn u32_from_le(b: Seq<u8>) -> u32
    recommends
        b.len() == 4,
{
    (b[0] as int + 256 * (b[1] as int) + 65536 * (b[2] as int) + 16777216 * (b[3] as int)) as u32
}

/// Decoding undoes encoding, for both word sizes.
pub proof fn lemma_le_round_trip(h: u16, w: u32)
    ensures
        u16_le(h).len() == 2,
        u32_le(w).len() == 4,
        u16_from_le(u16_le(h)) == h,
        u32_from_le(u32_le(w)) == w,
{
}

/// Appends the little-endian bytes of `x` to `buf`.
pub fn push_u16_le(buf: &mut Vec<u8>, x: u16)
    ensures
        final(buf)@ == old(buf)@ + u16_le(x),
{
    buf.push((x % 256) as u8);
    buf.push((x / 256) as u8);
    assert(buf@ =~= old(buf)@ + u16_le(x));
}

/// Appends the little-endian bytes of `x` to `buf`.
pub fn push_u32_le(buf: &mut Vec<u8>, x: u32)
    ensures
        final(buf)@ == old(buf)@ + u32_le(x),
{
    buf.push((x % 256) as u8);
    buf.push((x / 256 % 256) as u8);
    buf.push((x / 65536 % 256) as u8);
    buf.push((x / 16777216) as u8);
    assert(buf@ =~= old(buf)@ + u32_le(x));
}

/// Reads the 16-bit little-endian word that starts at byte `at`.
pub fn read_u16_le(buf: &Vec<u8>, at: usize) -> (x: u16)
    requires
        at + 2 <= buf.len(),
    ensures
        x == u16_from_le(buf@.subrange(at as int, at + 2)),
{
    let lo: u16 = buf[at] as u16;
    let hi: u16 = buf[at + 1] as u16;
    lo + 256 * hi
}

/// Reads the 32-bit little-endian word that starts at byte `at`.
pub fn read_u32_le(buf: &Vec<u8>, at: usize) -> (x: u32)
    requires
        at + 4 <= buf.len(),
    ensures
        x == u32_from_le(buf@.subrange(at as int, at + 4)),
{
    let b0: u32 = buf[at] as u32;
    let b1: u32 = buf[at + 1] as u32;
    let b2: u32 = buf[at + 2] as u32;
    let b3: u32 = buf[at + 3] as u32;
    b0 + 256 * b1 + 65536 * b2 + 16777216 * b3
}

} // verus!
