//! Reading primitives over an immutable byte buffer. Each one hands back the
//! part of the buffer that follows what it consumed.

use vstd::prelude::*;
use vstd::slice::slice_subrange;
use crate::bits::{le_u16_at, le_u32_at, le_u64_at};

verus! {

/// The bytes of `input` after its first `n`.
pub fn skip(input: &[u8], n: usize) -> (rest: &[u8])
    requires
        n <= input@.len(),
    ensures
        rest@ == input@.skip(n as int),
{
    slice_subrange(input, n, input.len())
}

/// Reads one byte.
pub fn le_u8(input: &[u8]) -> (r: (&[u8], u8))
    requires
        input@.len() >= 1,
    ensures
        r.0@ == input@.skip(1),
        r.1 == input@[0],
{
    (skip(input, 1), input[0])
}

/// Reads a little-endian `u16`.
pub fn le_u16(input: &[u8]) -> (r: (&[u8], u16))
    requires
        input@.len() >= 2,
    ensures
        r.0@ == input@.skip(2),
        r.1 as int == le_u16_at(input@, 0),
{
    let v = (input[1] as u16) * 256 + (input[0] as u16);
    (skip(input, 2), v)
}

/// Reads a little-endian `u32`.
pub fn le_u32(input: &[u8]) -> (r: (&[u8], u32))
    requires
        input@.len() >= 4,
    ensures
        r.0@ == input@.skip(4),
        r.1 as int == le_u32_at(input@, 0),
{
    let lo = (input[1] as u32) * 256 + (input[0] as u32);
    let hi = (input[3] as u32) * 256 + (input[2] as u32);
    (skip(input, 4), hi * 65536 + lo)
}

/// Reads a little-endian `u64`.
pub fn le_u64(input: &[u8]) -> (r: (&[u8], u64))
    requires
        input@.len() >= 8,
    ensures
        r.0@ == input@.skip(8),
        r.1 as int == le_u64_at(input@, 0),
{
    let (rest, lo) = le_u32(input);
    let (rest, hi) = le_u32(rest);
    assert(le_u32_at(input@.skip(4), 0) == le_u32_at(input@, 4));
    assert(rest@ =~= input@.skip(8));
    (rest, (hi as u64) * 4294967296 + (lo as u64))
}

/// Matches the literal bytes `expected` at the start of `input`.
pub fn tag<'a>(input: &'a [u8], expected: &[u8]) -> (r: Option<&'a [u8]>)
    ensures
        r is Some <==> (expected@.len() <= input@.len() && input@.take(
            expected@.len() as int,
        ) == expected@),
        r matches Some(rest) ==> rest@ == input@.skip(expected@.len() as int),
{
    if expected.len() > input.len() {
        return None;
    }
    let mut i: usize = 0;
    while i < expected.len()
        invariant
            expected@.len() <= input@.len(),
            i <= expected@.len(),
            forall|j: int| 0 <= j < i ==> input@[j] == expected@[j],
        decreases expected@.len() - i,
    {
        if input[i] != expected[i] {
            assert(input@.take(expected@.len() as int)[i as int] != expected@[i as int]);
            return None;
        }
        i = i + 1;
    }
    assert(input@.take(expected@.len() as int) =~= expected@);
    Some(skip(input, expected.len()))
}

} // verus!
