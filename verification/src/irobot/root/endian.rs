//! Multi-byte numbers on the wire: most significant byte first.

use vstd::prelude::*;

verus! {

/// The unsigned number that four bytes spell, most significant byte first.
pub open spec fn be_u32(bytes: Seq<u8>) -> int
    recommends
        bytes.len() == 4,
{
    bytes[0] * 0x100_0000 + bytes[1] * 0x1_0000 + bytes[2] * 0x100 + bytes[3]
}

/// The signed number that four bytes spell in two's complement, most
/// significant byte first.
pub open spec fn be_i32(bytes: Seq<u8>) -> int
    recommends
        bytes.len() == 4,
{
    if be_u32(bytes) >= 0x8000_0000 {
        be_u32(bytes) - 0x1_0000_0000
    } else {
        be_u32(bytes)
    }
}

/// The signed number that two bytes spell in two's complement, most
/// significant byte first.
pub open spec fn be_i16(bytes: Seq<u8>) -> int
    recommends
        bytes.len() == 2,
{
    if bytes[0] >= 0x80 {
        bytes[0] * 0x100 + bytes[1] - 0x1_0000
    } else {
        bytes[0] * 0x100 + bytes[1]
    }
}

/// The four bytes that spell `value` in two's complement, most significant
/// byte first.
pub open spec fn i32_be_bytes(value: i32) -> Seq<u8> {
    let pattern: int = if value < 0 {
        value + 0x1_0000_0000
    } else {
        value as int
    };
    seq![
        (pattern / 0x100_0000) as u8,
        (pattern / 0x1_0000 % 0x100) as u8,
        (pattern / 0x100 % 0x100) as u8,
        (pattern % 0x100) as u8,
    ]
}

/// Reads the unsigned 32-bit number at `offset`.
pub fn read_u32(data: &Vec<u8>, offset: usize) -> (value: u32)
    requires
        offset + 4 <= data.len(),
    ensures
        value == be_u32(data@.subrange(offset as int, offset + 4)),
{
    let b0: u32 = data[offset] as u32;
    let b1: u32 = data[offset + 1] as u32;
    let b2: u32 = data[offset + 2] as u32;
    let b3: u32 = data[offset + 3] as u32;
    b0 * 0x100_0000 + b1 * 0x1_0000 + b2 * 0x100 + b3
}

/// Reads the signed 32-bit number at `offset`.
pub fn read_i32(data: &Vec<u8>, offset: usize) -> (value: i32)
    requires
        offset + 4 <= data.len(),
    ensures
        value == be_i32(data@.subrange(offset as int, offset + 4)),
{
    let pattern: u32 = read_u32(data, offset);
    if pattern >= 0x8000_0000 {
        (pattern as i64 - 0x1_0000_0000) as i32
    } else {
        pattern as i32
    }
}

/// Reads the signed 16-bit number at `offset`.
pub fn read_i16(data: &Vec<u8>, offset: usize) -> (value: i16)
    requires
        offset + 2 <= data.len(),
    ensures
        value == be_i16(data@.subrange(offset as int, offset + 2)),
{
    let pattern: i32 = (data[offset] as i32) * 0x100 + (data[offset + 1] as i32);
    if pattern >= 0x8000 {
        (pattern - 0x1_0000) as i16
    } else {
        pattern as i16
    }
}

/// Appends the four bytes of `value` to `out`.
pub fn push_i32(out: &mut Vec<u8>, value: i32)
    ensures
        final(out)@ == old(out)@ + i32_be_bytes(value),
{
    let pattern: u64 = if value < 0 {
        (value as i64 + 0x1_0000_0000) as u64
    } else {
        value as u64
    };
    out.push((pattern / 0x100_0000) as u8);
    out.push((pattern / 0x1_0000 % 0x100) as u8);
    out.push((pattern / 0x100 % 0x100) as u8);
    out.push((pattern % 0x100) as u8);
}

/// Writing a number and reading it back gives the number.
pub proof fn lemma_i32_round_trip(value: i32)
    ensures
        i32_be_bytes(value).len() == 4,
        be_i32(i32_be_bytes(value)) == value,
{
}

} // verus!
