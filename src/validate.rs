//! Validation of a decoded header against the conventions of managed
//! images. Every check runs; the failures of all of them are reported
//! together, in the order the checks run.

use vstd::prelude::*;
use crate::coff::{CoffFileHeader, IMAGE_FILE_EXECUTABLE_IMAGE, IMAGE_FILE_RELOCS_STRIPPED};

verus! {

/// Machine code that a managed image must carry: Intel 386 or later.
pub const MANAGED_MACHINE: u16 = 0x14c;

/// A field that decodes but breaks a convention of managed images.
#[derive(Debug, Clone, Copy, PartialEq, Eq, Structural)]
pub enum ValidationError {
    /// The machine code is not that of Intel 386.
    UnexpectedMachine(u16),
    /// The COFF symbol-table pointer is not zero.
    UnexpectedSymbolTablePointer(u32),
    /// The COFF symbol count is not zero.
    UnexpectedSymbolCount(u32),
    /// The bits of the characteristics under `position` are `actual`, not
    /// `expected`.
    UnexpectedCharacteristic { position: u16, expected: u16, actual: u16 },
}

/// The outcome of a check: success, or every failure found.
pub type EResult = Result<(), Vec<ValidationError>>;

/// The failures that an outcome reports.
pub open spec fn errors_of(r: EResult) -> Seq<ValidationError> {
    match r {
        Ok(_) => Seq::empty(),
        Err(v) => v@,
    }
}

/// Failures of the machine check.
pub open spec fn machine_errors(machine: u16) -> Seq<ValidationError> {
    if machine == MANAGED_MACHINE {
        seq![]
    } else {
        seq![ValidationError::UnexpectedMachine(machine)]
    }
}

/// Failures of the symbol-table pointer check.
pub open spec fn symbol_ptr_errors(ptr: u32) -> Seq<ValidationError> {
    if ptr == 0 {
        seq![]
    } else {
        seq![ValidationError::UnexpectedSymbolTablePointer(ptr)]
    }
}

/// Failures of the symbol count check.
pub open spec fn symbol_num_errors(num: u32) -> Seq<ValidationError> {
    if num == 0 {
        seq![]
    } else {
        seq![ValidationError::UnexpectedSymbolCount(num)]
    }
}

/// Failures of the check that the bits of `flags` under `position` equal
/// `expectation`.
pub open spec fn flag_errors(flags: u16, position: u16, expectation: u16) -> Seq<
    ValidationError,
> {
    if flags & position == expectation {
        seq![]
    } else {
        seq![
            ValidationError::UnexpectedCharacteristic {
                position,
                expected: expectation,
                actual: flags & position,
            },
        ]
    }
}

/// Failures of the characteristics checks: relocations must not be
/// stripped, and the image must be marked executable.
pub open spec fn characteristics_errors(flags: u16) -> Seq<ValidationError> {
    flag_errors(flags, IMAGE_FILE_RELOCS_STRIPPED, 0) + flag_errors(
        flags,
        IMAGE_FILE_EXECUTABLE_IMAGE,
        IMAGE_FILE_EXECUTABLE_IMAGE,
    )
}

/// Failures of all checks of a COFF file header, in the order they run.
pub open spec fn file_header_errors(h: CoffFileHeader) -> Seq<ValidationError> {
    machine_errors(h.machine.spec_code()) + symbol_ptr_errors(h.symbol_table_ptr)
        + symbol_num_errors(h.num_symbols) + characteristics_errors(h.flags.bits)
}

/// Combines two outcomes: it fails when either fails, with the failures of
/// `e1` followed by those of `e2`.
pub fn merge_error(e1: EResult, e2: EResult) -> (r: EResult)
    ensures
        r is Ok <==> (e1 is Ok && e2 is Ok),
        errors_of(r) == errors_of(e1) + errors_of(e2),
{
    match (e1, e2) {
        (Err(mut msglist1), Err(mut msglist2)) => {
            msglist1.append(&mut msglist2);
            Err(msglist1)
        },
        (Err(msglist1), Ok(_)) => {
            assert(msglist1@ + Seq::empty() =~= msglist1@);
            Err(msglist1)
        },
        (Ok(_), Err(msglist2)) => {
            assert(Seq::empty() + msglist2@ =~= msglist2@);
            Err(msglist2)
        },
        (Ok(_), Ok(_)) => {
            assert(Seq::<ValidationError>::empty() + Seq::empty() =~= Seq::empty());
            Ok(())
        },
    }
}

/// The outcome that reports exactly `errors`.
pub open spec fn outcome_is(r: EResult, errors: Seq<ValidationError>) -> bool {
    &&& r is Ok <==> errors.len() == 0
    &&& errors_of(r) == errors
}

/// Fails with the single error `e` unless `ok` holds.
fn single_check(ok: bool, e: ValidationError) -> (r: EResult)
    ensures
        outcome_is(r, if ok { seq![] } else { seq![e] }),
{
    if ok {
        Ok(())
    } else {
        let v = vec![e];
        assert(v@ =~= seq![e]);
        Err(v)
    }
}

/// Checks that the machine is Intel 386, as managed images require.
pub fn validate_machine(machine: u16) -> (r: EResult)
    ensures
        outcome_is(r, machine_errors(machine)),
{
    single_check(machine == MANAGED_MACHINE, ValidationError::UnexpectedMachine(machine))
}

/// Checks that the COFF symbol-table pointer is zero.
pub fn validate_symbol_ptr(ptr: u32) -> (r: EResult)
    ensures
        outcome_is(r, symbol_ptr_errors(ptr)),
{
    single_check(ptr == 0, ValidationError::UnexpectedSymbolTablePointer(ptr))
}

/// Checks that the COFF symbol count is zero.
pub fn validate_symbol_num(num: u32) -> (r: EResult)
    ensures
        outcome_is(r, symbol_num_errors(num)),
{
    single_check(num == 0, ValidationError::UnexpectedSymbolCount(num))
}

/// Validates that the given flags have the expected value at the provided
/// position.
pub fn validate_flag(flags: u16, position: u16, expectation: u16) -> (r: EResult)
    ensures
        outcome_is(r, flag_errors(flags, position, expectation)),
{
    let actual = flags & position;
    single_check(
        actual == expectation,
        ValidationError::UnexpectedCharacteristic { position, expected: expectation, actual },
    )
}

/// Whether any bit of `position` is set in `flags`.
pub fn flag_set(flags: u16, position: u16) -> (r: bool)
    ensures
        r == (flags & position != 0),
{
    flags & position != 0
}

/// Checks the characteristics of a managed image: relocations not
/// stripped, executable bit set. Both checks run.
pub fn validate_file_characteristics(flags: u16) -> (r: EResult)
    ensures
        outcome_is(r, characteristics_errors(flags)),
{
    merge_error(
        validate_flag(flags, IMAGE_FILE_RELOCS_STRIPPED, 0),
        validate_flag(flags, IMAGE_FILE_EXECUTABLE_IMAGE, IMAGE_FILE_EXECUTABLE_IMAGE),
    )
}

/// Runs every check of a COFF file header and reports all failures.
pub fn validate_file_header(header: &CoffFileHeader) -> (r: EResult)
    ensures
        outcome_is(r, file_header_errors(*header)),
{
    let r = merge_error(validate_machine(header.machine.code()), validate_symbol_ptr(header.symbol_table_ptr));
    let r = merge_error(r, validate_symbol_num(header.num_symbols));
    merge_error(r, validate_file_characteristics(header.flags.bits))
}

/// Number of conventions of managed images that `h` breaks.
pub open spec fn defect_count(h: CoffFileHeader) -> int {
    (if h.machine.spec_code() != MANAGED_MACHINE { 1int } else { 0 })
        + (if h.symbol_table_ptr != 0 { 1int } else { 0 })
        + (if h.num_symbols != 0 { 1int } else { 0 })
        + (if h.flags.bits & IMAGE_FILE_RELOCS_STRIPPED != 0 { 1int } else { 0 })
        + (if h.flags.bits & IMAGE_FILE_EXECUTABLE_IMAGE == 0 { 1int } else { 0 })
}

/// Validation does not stop at the first problem: a header is reported
/// with one error for each convention it breaks, and each broken convention
/// is among the errors. No defect means success; one defect, one error.
pub proof fn validation_reports_every_defect(h: CoffFileHeader)
    ensures
        file_header_errors(h).len() == defect_count(h),
        file_header_errors(h).len() == 0 <==> defect_count(h) == 0,
        h.machine.spec_code() != MANAGED_MACHINE <==> file_header_errors(h).contains(
            ValidationError::UnexpectedMachine(h.machine.spec_code()),
        ),
        h.symbol_table_ptr != 0 <==> file_header_errors(h).contains(
            ValidationError::UnexpectedSymbolTablePointer(h.symbol_table_ptr),
        ),
        h.num_symbols != 0 <==> file_header_errors(h).contains(
            ValidationError::UnexpectedSymbolCount(h.num_symbols),
        ),
        h.flags.bits & IMAGE_FILE_RELOCS_STRIPPED != 0 <==> file_header_errors(h).contains(
            ValidationError::UnexpectedCharacteristic {
                position: IMAGE_FILE_RELOCS_STRIPPED,
                expected: 0,
                actual: h.flags.bits & IMAGE_FILE_RELOCS_STRIPPED,
            },
        ),
        h.flags.bits & IMAGE_FILE_EXECUTABLE_IMAGE == 0 <==> file_header_errors(h).contains(
            ValidationError::UnexpectedCharacteristic {
                position: IMAGE_FILE_EXECUTABLE_IMAGE,
                expected: IMAGE_FILE_EXECUTABLE_IMAGE,
                actual: 0,
            },
        ),
{
    let bits = h.flags.bits;
    assert(bits & 2 != 2 <==> bits & 2 == 0) by (bit_vector);
    let a = machine_errors(h.machine.spec_code());
    let p = symbol_ptr_errors(h.symbol_table_ptr);
    let n = symbol_num_errors(h.num_symbols);
    let f1 = flag_errors(bits, IMAGE_FILE_RELOCS_STRIPPED, 0);
    let f2 = flag_errors(bits, IMAGE_FILE_EXECUTABLE_IMAGE, IMAGE_FILE_EXECUTABLE_IMAGE);
    lemma_concat_contains(a, p);
    lemma_concat_contains(a + p, n);
    lemma_concat_contains(f1, f2);
    lemma_concat_contains(a + p + n, f1 + f2);
    let e = ValidationError::UnexpectedMachine(h.machine.spec_code());
    if a.len() > 0 {
        assert(a[0] == e);
    }
    let e = ValidationError::UnexpectedSymbolTablePointer(h.symbol_table_ptr);
    if p.len() > 0 {
        assert(p[0] == e);
    }
    let e = ValidationError::UnexpectedSymbolCount(h.num_symbols);
    if n.len() > 0 {
        assert(n[0] == e);
    }
    if f1.len() > 0 {
        assert(f1.contains(f1[0]));
    }
    if f2.len() > 0 {
        assert(f2.contains(f2[0]));
    }
}

/// An element of a concatenation lies in one of its two parts.
proof fn lemma_concat_contains(x: Seq<ValidationError>, y: Seq<ValidationError>)
    ensures
        forall|e: ValidationError| #[trigger] (x + y).contains(e) <==> x.contains(e) || y.contains(e),
{
    assert forall|e: ValidationError| #[trigger] (x + y).contains(e) implies x.contains(e) || y.contains(e) by {
        let i = choose|i: int| 0 <= i < (x + y).len() && (x + y)[i] == e;
        if i >= x.len() {
            assert(y[i - x.len()] == e);
        }
    }
    assert forall|e: ValidationError| x.contains(e) || y.contains(e) implies #[trigger] (x + y).contains(e) by {
        if x.contains(e) {
            let i = choose|i: int| 0 <= i < x.len() && x[i] == e;
            assert((x + y)[i] == e);
        } else {
            let i = choose|i: int| 0 <= i < y.len() && y[i] == e;
            assert((x + y)[i + x.len()] == e);
        }
    }
}

} // verus!
