//! Errors raised while decoding the fixed layout of an image.

use vstd::prelude::*;

verus! {

/// Which of the two constant ranges of the MS-DOS stub failed to match.
#[derive(Debug, Clone, Copy, PartialEq, Eq, Structural)]
pub enum DosStubPart {
    /// Bytes `[0, 60)`, before the `lfanew` field.
    Prefix,
    /// Bytes `[64, 128)`, after the `lfanew` field.
    Suffix,
}

/// A structural defect: a field that cannot be decoded, after which no later
/// offset of the image is meaningful.
#[derive(Debug, Clone, Copy, PartialEq, Eq, Structural)]
pub enum FormatError {
    /// A record of `needed` bytes starts where only `available` remain.
    Truncated { needed: usize, available: usize },
    /// One half of the MS-DOS stub differs from its fixed contents.
    InvalidDosStub(DosStubPart),
    /// The four bytes at `lfanew` are not `"PE\0\0"`.
    InvalidSignature,
    /// A data-directory table of `count` entries does not fit in the
    /// `available` bytes that remain.
    TruncatedDirectories { count: u32, available: usize },
    /// The COFF machine field holds a code outside the machine table.
    UnknownMachine(u16),
    /// The optional header's magic is neither PE32 nor PE32+.
    UnknownMagic(u16),
}

} // verus!
