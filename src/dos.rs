//! The MS-DOS stub that opens every image: two fixed byte ranges around the
//! `lfanew` field, which gives the offset of the PE signature.

use vstd::prelude::*;
use crate::bits::le_u32_at;
use crate::cursor::{le_u32, skip, tag};
use crate::error::{DosStubPart, FormatError};

verus! {

/// Bytes `[0, 60)` of the stub: the MS-DOS header up to `lfanew`.
pub const DOS_BEGIN: [u8; 60] = [
    0x4d, 0x5a, 0x90, 0x00, 0x03, 0x00, 0x00, 0x00,
    0x04, 0x00, 0x00, 0x00, 0xff, 0xff, 0x00, 0x00,
    0xb8, 0x00, 0x00, 0x00, 0x00, 0x00, 0x00, 0x00,
    0x40, 0x00, 0x00, 0x00, 0x00, 0x00, 0x00, 0x00,
    0x00, 0x00, 0x00, 0x00, 0x00, 0x00, 0x00, 0x00,
    0x00, 0x00, 0x00, 0x00, 0x00, 0x00, 0x00, 0x00,
    0x00, 0x00, 0x00, 0x00, 0x00, 0x00, 0x00, 0x00,
    0x00, 0x00, 0x00, 0x00,
];

/// Bytes `[64, 128)` of the stub: the real-mode program and its message.
pub const DOS_END: [u8; 64] = [
    0x0e, 0x1f, 0xba, 0x0e, 0x00, 0xb4, 0x09, 0xcd,
    0x21, 0xb8, 0x01, 0x4c, 0xcd, 0x21, 0x54, 0x68,
    0x69, 0x73, 0x20, 0x70, 0x72, 0x6f, 0x67, 0x72,
    0x61, 0x6d, 0x20, 0x63, 0x61, 0x6e, 0x6e, 0x6f,
    0x74, 0x20, 0x62, 0x65, 0x20, 0x72, 0x75, 0x6e,
    0x20, 0x69, 0x6e, 0x20, 0x44, 0x4f, 0x53, 0x20,
    0x6d, 0x6f, 0x64, 0x65, 0x2e, 0x0d, 0x0d, 0x0a,
    0x24, 0x00, 0x00, 0x00, 0x00, 0x00, 0x00, 0x00,
];

/// Size of the whole stub, `lfanew` included.
pub const DOS_STUB_SIZE: usize = 128;

/// `b` opens with a well-formed stub: both fixed ranges match exactly.
pub open spec fn dos_stub_valid(b: Seq<u8>) -> bool {
    &&& b.len() >= 128
    &&& b.take(60) == DOS_BEGIN@
    &&& b.subrange(64, 128) == DOS_END@
}

/// The error reported for a buffer whose stub is not well formed.
pub open spec fn dos_stub_error(b: Seq<u8>) -> FormatError {
    if b.len() < 128 {
        FormatError::Truncated { needed: 128, available: b.len() as usize }
    } else if b.take(60) != DOS_BEGIN@ {
        FormatError::InvalidDosStub(DosStubPart::Prefix)
    } else {
        FormatError::InvalidDosStub(DosStubPart::Suffix)
    }
}

/// The `lfanew` field of a stub: the offset of the PE signature.
pub open spec fn dos_lfanew(b: Seq<u8>) -> int {
    le_u32_at(b, 60)
}

/// Matches the fixed range before `lfanew`.
pub fn parse_dos_begin(input: &[u8]) -> (r: Result<&[u8], FormatError>)
    ensures
        r is Ok <==> (input@.len() >= 60 && input@.take(60) == DOS_BEGIN@),
        r matches Ok(rest) ==> rest@ == input@.skip(60),
        r matches Err(e) ==> e == (if input@.len() < 60 {
            FormatError::Truncated { needed: 60, available: input@.len() as usize }
        } else {
            FormatError::InvalidDosStub(DosStubPart::Prefix)
        }),
{
    if input.len() < 60 {
        return Err(FormatError::Truncated { needed: 60, available: input.len() });
    }
    match tag(input, DOS_BEGIN.as_slice()) {
        Some(rest) => Ok(rest),
        None => Err(FormatError::InvalidDosStub(DosStubPart::Prefix)),
    }
}

/// Reads the `lfanew` field.
pub fn parse_lfa(input: &[u8]) -> (r: Result<(&[u8], u32), FormatError>)
    ensures
        r is Ok <==> input@.len() >= 4,
        r matches Ok((rest, lfa)) ==> rest@ == input@.skip(4) && lfa as int == le_u32_at(
            input@,
            0,
        ),
        r matches Err(e) ==> e == (FormatError::Truncated {
            needed: 4,
            available: input@.len() as usize,
        }),
{
    if input.len() < 4 {
        return Err(FormatError::Truncated { needed: 4, available: input.len() });
    }
    Ok(le_u32(input))
}

/// Matches the fixed range after `lfanew`.
pub fn parse_dos_end(input: &[u8]) -> (r: Result<&[u8], FormatError>)
    ensures
        r is Ok <==> (input@.len() >= 64 && input@.take(64) == DOS_END@),
        r matches Ok(rest) ==> rest@ == input@.skip(64),
        r matches Err(e) ==> e == (if input@.len() < 64 {
            FormatError::Truncated { needed: 64, available: input@.len() as usize }
        } else {
            FormatError::InvalidDosStub(DosStubPart::Suffix)
        }),
{
    if input.len() < 64 {
        return Err(FormatError::Truncated { needed: 64, available: input.len() });
    }
    match tag(input, DOS_END.as_slice()) {
        Some(rest) => Ok(rest),
        None => Err(FormatError::InvalidDosStub(DosStubPart::Suffix)),
    }
}

/// Validates the MS-DOS stub at the start of `input` and returns the bytes
/// after it together with `lfanew`.
pub fn validate_msdos_header(input: &[u8]) -> (r: Result<(&[u8], u32), FormatError>)
    ensures
        r is Ok <==> dos_stub_valid(input@),
        r matches Ok((rest, lfa)) ==> rest@ == input@.skip(128) && lfa as int == dos_lfanew(
            input@,
        ),
        r matches Err(e) ==> e == dos_stub_error(input@),
{
    if input.len() < DOS_STUB_SIZE {
        return Err(FormatError::Truncated { needed: DOS_STUB_SIZE, available: input.len() });
    }
    let ghost b = input@;
    let rest = parse_dos_begin(input)?;
    assert(rest@.take(4) == b.subrange(60, 64));
    let (rest, lfa) = parse_lfa(rest)?;
    assert(rest@.take(64) =~= b.subrange(64, 128));
    let rest = parse_dos_end(rest)?;
    assert(rest@ =~= b.skip(128));
    Ok((rest, lfa))
}

/// Exactness of the stub check: changing any single byte of either fixed
/// range of a well-formed stub makes it ill-formed.
pub proof fn dos_stub_rejects_single_byte_change(b: Seq<u8>, i: int, x: u8)
    requires
        dos_stub_valid(b),
        0 <= i < 60 || 64 <= i < 128,
        x != b[i],
    ensures
        !dos_stub_valid(b.update(i, x)),
{
    let c = b.update(i, x);
    if i < 60 {
        assert(c.take(60)[i] != b.take(60)[i]);
    } else {
        assert(c.subrange(64, 128)[i - 64] != b.subrange(64, 128)[i - 64]);
    }
}

} // verus!
