//! Fixed-width integers on the wire.  Every read checks its bounds and says
//! so in its result; nothing here can fault on a short buffer.

use vstd::prelude::*;

verus! {

/// The four bytes of `x`, least significant first.
pub open spec fn u32_le_bytes(x: u32) -> Seq<u8> {
    seq![
        (x % 256) as u8,
        (x / 256 % 256) as u8,
        (x / 65536 % 256) as u8,
        (x / 16777216) as u8,
    ]
}

/// The number whose little-endian bytes are `b0`, `b1`, `b2`, `b3`.
pub open spec fn u32_from_le(b0: u8, b1: u8, b2: u8, b3: u8) -> u32 {
    (b0 + b1 * 256 + b2 * 65536 + b3 * 16777216) as u32
}

/// The little-endian 32-bit number at offset `at` of `b`, where four bytes
/// stand there.
pub open spec fn spec_read_u32_le(b: Seq<u8>, at: int) -> Option<u32> {
    if 0 <= at && at + 4 <= b.len() {
        Some(u32_from_le(b[at], b[at + 1], b[at + 2], b[at + 3]))
    } else {
        None
    }
}

/// The two bytes of `x`, most significant first.
pub open spec fn u16_be_bytes(x: u16) -> Seq<u8> {
    seq![(x / 256) as u8, (x % 256) as u8]
}

/// The number whose big-endian bytes are `hi`, `lo`.
pub open spec fn u16_from_be(hi: u8, lo: u8) -> u16 {
    (hi * 256 + lo) as u16
}

/// Reading back what was written gives the number, and writing what was read
/// gives the bytes.
pub proof fn lemma_u32_le_round_trip(x: u32, b0: u8, b1: u8, b2: u8, b3: u8)
    ensures
        u32_le_bytes(x).len() == 4,
        u32_from_le(
            u32_le_bytes(x)[0],
            u32_le_bytes(x)[1],
            u32_le_bytes(x)[2],
            u32_le_bytes(x)[3],
        ) == x,
        u32_le_bytes(u32_from_le(b0, b1, b2, b3)) == seq![b0, b1, b2, b3],
{
    assert(u32_le_bytes(u32_from_le(b0, b1, b2, b3)) =~= seq![b0, b1, b2, b3]);
}

/// The same for 16-bit big-endian numbers.
pub proof fn lemma_u16_be_round_trip(x: u16, hi: u8, lo: u8)
    ensures
        u16_be_bytes(x).len() == 2,
        u16_from_be(u16_be_bytes(x)[0], u16_be_bytes(x)[1]) == x,
        u16_be_bytes(u16_from_be(hi, lo)) == seq![hi, lo],
{
}

/// Reads a little-endian 32-bit number at offset `at`; `None` where the
/// buffer has fewer than four bytes from there.
pub fn read_u32_le(bytes: &[u8], at: usize) -> (r: Option<u32>)
    ensures
        r == spec_read_u32_le(bytes@, at as int),
{
    if bytes.len() < 4 || at > bytes.len() - 4 {
        return None;
    }
    let b0 = bytes[at] as u32;
    let b1 = bytes[at + 1] as u32;
    let b2 = bytes[at + 2] as u32;
    let b3 = bytes[at + 3] as u32;
    Some(b0 + b1 * 256 + b2 * 65536 + b3 * 16777216)
}

/// Appends the four little-endian bytes of `x` to `out`.
pub fn push_u32_le(out: &mut Vec<u8>, x: u32)
    ensures
        final(out)@ == old(out)@ + u32_le_bytes(x),
{
    out.push((x % 256) as u8);
    out.push((x / 256 % 256) as u8);
    out.push((x / 65536 % 256) as u8);
    out.push((x / 16777216) as u8);
}

} // verus!
