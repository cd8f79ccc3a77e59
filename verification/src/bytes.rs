//! Big-endian field decoding shared by the header parsers.
use vstd::prelude::*;

verus! {

/// The 16-bit big-endian value of the bytes `hi`, `lo`.
pub open spec fn be16(hi: u8, lo: u8) -> u16 {
    (hi as int * 256 + lo as int) as u16
}

/// The 32-bit big-endian value of the bytes `a`, `b`, `c`, `d`.
pub open spec fn be32(a: u8, b: u8, c: u8, d: u8) -> u32 {
    (a as int * 16777216 + b as int * 65536 + c as int * 256 + d as int) as u32
}

/// Reads a big-endian `u16` from two bytes.
pub fn read_be16(hi: u8, lo: u8) -> (r: u16)
    ensures
        r == be16(hi, lo),
        r as int == hi as int * 256 + lo as int,
{
    (hi as u16) * 256 + (lo as u16)
}

/// Reads a big-endian `u32` from four bytes.
pub fn read_be32(a: u8, b: u8, c: u8, d: u8) -> (r: u32)
    ensures
        r == be32(a, b, c, d),
        r as int == a as int * 16777216 + b as int * 65536 + c as int * 256 + d as int,
{
    (a as u32) * 16777216 + (b as u32) * 65536 + (c as u32) * 256 + (d as u32)
}

} // verus!
