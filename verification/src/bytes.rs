//! Little- and big-endian integer packing used by the register and wire formats.
use vstd::prelude::*;

verus! {

/// The value of a two-byte word whose low byte comes first.
pub open spec fn le16(lo: u8, hi: u8) -> int {
    lo + 256 * hi
}

/// The value of a four-byte word whose lowest byte comes first.
pub open spec fn le32(b0: u8, b1: u8, b2: u8, b3: u8) -> int {
    b0 + 256 * b1 + 65536 * b2 + 16777216 * b3
}

/// Assemble a `u16` from its little-endian bytes.
pub fn u16_from_le(lo: u8, hi: u8) -> (r: u16)
    ensures
        r == le16(lo, hi),
{
    (lo as u16) + (hi as u16) * 256
}

/// Assemble a `u32` from its little-endian bytes.
pub fn u32_from_le(b0: u8, b1: u8, b2: u8, b3: u8) -> (r: u32)
    ensures
        r == le32(b0, b1, b2, b3),
{
    (b0 as u32) + (b1 as u32) * 256 + (b2 as u32) * 65536 + (b3 as u32) * 16777216
}

/// Split a `u16` into its little-endian bytes.
pub fn u16_to_le(x: u16) -> (r: [u8; 2])
    ensures
        r[0] == x % 256,
        r[1] == x / 256,
        le16(r[0], r[1]) == x,
{
    [(x % 256) as u8, (x / 256) as u8]
}

/// Split a `u32` into its little-endian bytes.
pub fn u32_to_le(x: u32) -> (r: [u8; 4])
    ensures
        r[0] == x % 256,
        r[1] == (x / 256) % 256,
        r[2] == (x / 65536) % 256,
        r[3] == x / 16777216,
        le32(r[0], r[1], r[2], r[3]) == x,
{
    [(x % 256) as u8, ((x / 256) % 256) as u8, ((x / 65536) % 256) as u8, (x / 16777216) as u8]
}

/// A 16-bit word read as a two's-complement number.
pub open spec fn signed16(w: u16) -> i16 {
    if w < 32768 {
        w as i16
    } else {
        (w - 65536) as i16
    }
}

/// Reinterpret a word as a signed 16-bit value.
pub fn as_signed(w: u16) -> (r: i16)
    ensures
        r == signed16(w),
{
    if w < 32768 {
        w as i16
    } else {
        (w as i32 - 65536) as i16
    }
}

/// The value of a two-byte word whose high byte comes first.
pub open spec fn be16(hi: u8, lo: u8) -> int {
    256 * hi + lo
}

/// Assemble a `u16` from its big-endian bytes.
pub fn u16_from_be(hi: u8, lo: u8) -> (r: u16)
    ensures
        r == be16(hi, lo),
{
    (hi as u16) * 256 + (lo as u16)
}

} // verus!
