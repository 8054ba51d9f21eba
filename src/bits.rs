//! Little-endian integer decoding over byte sequences.

use vstd::prelude::*;

verus! {

/// The unsigned 16-bit little-endian value of the two bytes at `i`.
pub open spec fn le_u16_at(b: Seq<u8>, i: int) -> int {
    b[i] as int + 256 * b[i + 1] as int
}

/// The unsigned 32-bit little-endian value of the four bytes at `i`.
pub open spec fn le_u32_at(b: Seq<u8>, i: int) -> int {
    le_u16_at(b, i) + 65536 * le_u16_at(b, i + 2)
}

/// The unsigned 64-bit little-endian value of the eight bytes at `i`.
pub open spec fn le_u64_at(b: Seq<u8>, i: int) -> int {
    le_u32_at(b, i) + 4294967296 * le_u32_at(b, i + 4)
}

/// Decodes a two-byte little-endian slice.
pub fn u16_from_slice_le(bytes: &[u8]) -> (r: u16)
    requires
        bytes@.len() == 2,
    ensures
        r as int == le_u16_at(bytes@, 0),
{
    (bytes[1] as u16) * 256 + (bytes[0] as u16)
}


} // verus!
