//! Big-endian integers as the sensor sends them.

use vstd::prelude::*;

verus! {

/// The unsigned number that two bytes spell, most significant byte first.
pub open spec fn be_u16(bytes: Seq<u8>) -> int {
    bytes[0] * 0x100 + bytes[1]
}

/// The unsigned number that four bytes spell, most significant byte first.
pub open spec fn be_u32(bytes: Seq<u8>) -> int {
    bytes[0] * 0x100_0000 + bytes[1] * 0x1_0000 + bytes[2] * 0x100 + bytes[3]
}

/// The two's complement number that four bytes spell, most significant byte
/// first: the unsigned reading, less `2^32` when the top bit is set.
pub open spec fn be_i32(bytes: Seq<u8>) -> int {
    if bytes[0] < 0x80 {
        be_u32(bytes)
    } else {
        be_u32(bytes) - 0x1_0000_0000
    }
}

/// Every two bytes spell a `u16`, and every four bytes a `u32` and an `i32`:
/// nothing is lost where a contract casts one of these numbers to its type.
pub proof fn lemma_be_ranges(bytes: Seq<u8>)
    ensures
        0 <= be_u16(bytes) <= u16::MAX,
        0 <= be_u32(bytes) <= u32::MAX,
        i32::MIN <= be_i32(bytes) <= i32::MAX,
{
}

/// Decodes an unsigned 16-bit big-endian integer.
pub fn u16_from_be(bytes: [u8; 2]) -> (value: u16)
    ensures
        value == be_u16(bytes@),
{
    let high: u16 = bytes[0] as u16;
    let low: u16 = bytes[1] as u16;
    high * 0x100 + low
}

/// Decodes a signed 32-bit big-endian integer.
pub fn i32_from_be(bytes: [u8; 4]) -> (value: i32)
    ensures
        value == be_i32(bytes@),
{
    let b0: i64 = bytes[0] as i64;
    let b1: i64 = bytes[1] as i64;
    let b2: i64 = bytes[2] as i64;
    let b3: i64 = bytes[3] as i64;
    let unsigned: i64 = b0 * 0x100_0000 + b1 * 0x1_0000 + b2 * 0x100 + b3;
    if bytes[0] < 0x80 {
        unsigned as i32
    } else {
        (unsigned - 0x1_0000_0000) as i32
    }
}

} // verus!
