//! Primitive interpretations of raw bytes: big-endian 32-bit reads and
//! sign extension of a 32-bit field.

use vstd::prelude::*;

verus! {

/// The unsigned value of the four bytes `s[i..i+4]` read big-endian.
pub open spec fn be_u32_at(s: Seq<u8>, i: int) -> u32
    recommends
        0 <= i,
        i + 4 <= s.len(),
{
    ((s[i] as int) * 0x1000000 + (s[i + 1] as int) * 0x10000 + (s[i + 2] as int) * 0x100
        + (s[i + 3] as int)) as u32
}

/// The signed value carried by an unsigned 32-bit bit pattern in two's
/// complement: `0xFFFFFFFF` stands for `-1`, `0x00000010` for `16`.
pub open spec fn sign_extended_32(v: u32) -> i32 {
    if v >= 0x8000_0000 {
        (v - 0x1_0000_0000) as i32
    } else {
        v as i32
    }
}

/// Reinterprets a 32-bit unsigned bit pattern as the signed integer it
/// encodes in two's complement.
pub fn sign_extend_to_i32(v: u32) -> (r: i32)
    ensures
        r == sign_extended_32(v),
{
    if v >= 0x8000_0000 {
        // v - 2^32 == -((2^32 - 1 - v) + 1)
        let d: u32 = u32::MAX - v;
        -(d as i32) - 1
    } else {
        v as i32
    }
}

/// Assembles four big-endian bytes into the unsigned 32-bit value they spell.
pub fn be_u32_from(b0: u8, b1: u8, b2: u8, b3: u8) -> (r: u32)
    ensures
        r as int == (b0 as int) * 0x1000000 + (b1 as int) * 0x10000 + (b2 as int) * 0x100 + (
        b3 as int),
{
    (b0 as u32) * 0x1000000 + (b1 as u32) * 0x10000 + (b2 as u32) * 0x100 + (b3 as u32)
}

} // verus!
