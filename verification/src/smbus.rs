//! SMBus word transfers: the bytes of a word write and the value of a word read.
use vstd::prelude::*;
use crate::bytes::{le16, u16_from_le, u16_to_le};

verus! {

/// The bytes of an SMBus word write of `value` to register `reg`.
pub open spec fn is_word_write(frame: [u8; 3], reg: u8, value: u16) -> bool {
    frame[0] == reg && le16(frame[1], frame[2]) == value
}

/// The value of an SMBus word read response.
pub open spec fn word_of(response: [u8; 2]) -> u16 {
    le16(response[0], response[1]) as u16
}

/// The bytes of an SMBus word write of `value` to register `reg`.
pub fn word_write(reg: u8, value: u16) -> (frame: [u8; 3])
    ensures
        is_word_write(frame, reg, value),
{
    let bytes = u16_to_le(value);
    [reg, bytes[0], bytes[1]]
}

/// The value of an SMBus word read response (low byte first).
pub fn read_word(response: [u8; 2]) -> (r: u16)
    ensures
        r == word_of(response),
        r == le16(response[0], response[1]),
{
    u16_from_le(response[0], response[1])
}

} // verus!
