//! The COFF file header that follows the PE signature: machine, section
//! count, timestamp, symbol table fields, optional-header size and flags.

use vstd::prelude::*;
use crate::bits::{le_u16_at, le_u32_at};
use crate::cursor::{le_u16, le_u32};
use crate::error::FormatError;

verus! {
/// The image carries no base relocations.
pub const IMAGE_FILE_RELOCS_STRIPPED: u16 = 0x0001;
/// The image is valid and can be run.
pub const IMAGE_FILE_EXECUTABLE_IMAGE: u16 = 0x0002;
/// COFF line numbers have been removed.
pub const IMAGE_FILE_LINE_NUMS_STRIPPED: u16 = 0x0004;
/// COFF local symbols have been removed.
pub const IMAGE_FILE_LOCAL_SYMS_STRIPPED: u16 = 0x0008;
/// Aggressively trim the working set (obsolete).
pub const IMAGE_FILE_AGGRESSIVE_WS_TRIM: u16 = 0x0010;
/// The application can handle addresses above 2 GB.
pub const IMAGE_FILE_LARGE_ADDRESS_AWARE: u16 = 0x0020;
/// Reserved for future use.
pub const IMAGE_FILE_RESERVED: u16 = 0x0040;
/// Little endian (obsolete).
pub const IMAGE_FILE_BYTES_REVERSED_LO: u16 = 0x0080;
/// The machine is based on a 32-bit-word architecture.
pub const IMAGE_FILE_32BIT_MACHINE: u16 = 0x0100;
/// Debugging information has been removed.
pub const IMAGE_FILE_DEBUG_STRIPPED: u16 = 0x0200;
/// Copy to swap when run from removable media.
pub const IMAGE_FILE_REMOVABLE_RUN_FROM_SWAP: u16 = 0x0400;
/// Copy to swap when run from the network.
pub const IMAGE_FILE_NET_RUN_FROM_SWAP: u16 = 0x0800;
/// The image is a system file.
pub const IMAGE_FILE_SYSTEM: u16 = 0x1000;
/// The image is a dynamic-link library.
pub const IMAGE_FILE_DLL: u16 = 0x2000;
/// Run only on a uniprocessor machine.
pub const IMAGE_FILE_UP_SYSTEM_ONLY: u16 = 0x4000;
/// Big endian (obsolete).
pub const IMAGE_FILE_BYTES_REVERSED_HI: u16 = 0x8000;

/// Target architecture of an image, as listed in the PE machine-type table.
#[derive(Debug, Clone, Copy, PartialEq, Eq, Structural)]
pub enum Machine {
    /// Unknown target
    ImageFileMachineUnknown,
    /// Matsushita AM33
    ImageFileMachineAm33,
    /// x64
    ImageFileMachineAmd64,
    /// ARM little endian
    ImageFileMachineArm,
    /// ARM64 little endian
    ImageFileMachineArm64,
    /// ARM Thumb-2 little endian
    ImageFileMachineArmnt,
    /// EFI byte code
    ImageFileMachineEbc,
    /// Intel 386 or later processors and compatible processors
    ImageFileMachineI386,
    /// Intel Itanium processor family
    ImageFileMachineIa64,
    /// Mitsubishi M32R little endian
    ImageFileMachineM32r,
    /// MIPS16
    ImageFileMachineMips16,
    /// MIPS with FPU
    ImageFileMachineMipsfpu,
    /// MIPS16 with FPU
    ImageFileMachineMipsfpu16,
    /// Power PC little endian
    ImageFileMachinePowerpc,
    /// Power PC with floating point support
    ImageFileMachinePowerpcfp,
    /// MIPS little endian
    ImageFileMachineR4000,
    /// RISC-V 32-bit address space
    ImageFileMachineRiscv32,
    /// RISC-V 64-bit address space
    ImageFileMachineRiscv64,
    /// RISC-V 128-bit address space
    ImageFileMachineRiscv128,
    /// Hitachi SH3
    ImageFileMachineSh3,
    /// Hitachi SH3 DSP
    ImageFileMachineSh3dsp,
    /// Hitachi SH4
    ImageFileMachineSh4,
    /// Hitachi SH5
    ImageFileMachineSh5,
    /// Thumb
    ImageFileMachineThumb,
    /// MIPS little-endian WCE v2
    ImageFileMachineWcemipsv2,
}

impl Machine {
    /// The 16-bit code of the machine in the COFF header.
    pub open spec fn spec_code(self) -> u16 {
        match self {
            Machine::ImageFileMachineUnknown => 0x0,
            Machine::ImageFileMachineAm33 => 0x1d3,
            Machine::ImageFileMachineAmd64 => 0x8664,
            Machine::ImageFileMachineArm => 0x1c0,
            Machine::ImageFileMachineArm64 => 0xaa64,
            Machine::ImageFileMachineArmnt => 0x1c4,
            Machine::ImageFileMachineEbc => 0xebc,
            Machine::ImageFileMachineI386 => 0x14c,
            Machine::ImageFileMachineIa64 => 0x200,
            Machine::ImageFileMachineM32r => 0x9041,
            Machine::ImageFileMachineMips16 => 0x266,
            Machine::ImageFileMachineMipsfpu => 0x366,
            Machine::ImageFileMachineMipsfpu16 => 0x466,
            Machine::ImageFileMachinePowerpc => 0x1f0,
            Machine::ImageFileMachinePowerpcfp => 0x1f1,
            Machine::ImageFileMachineR4000 => 0x166,
            Machine::ImageFileMachineRiscv32 => 0x5032,
            Machine::ImageFileMachineRiscv64 => 0x5064,
            Machine::ImageFileMachineRiscv128 => 0x5128,
            Machine::ImageFileMachineSh3 => 0x1a2,
            Machine::ImageFileMachineSh3dsp => 0x1a3,
            Machine::ImageFileMachineSh4 => 0x1a6,
            Machine::ImageFileMachineSh5 => 0x1a8,
            Machine::ImageFileMachineThumb => 0x1c2,
            Machine::ImageFileMachineWcemipsv2 => 0x169,
        }
    }

    /// Encodes the machine as its 16-bit code.
    pub fn code(&self) -> (r: u16)
        ensures
            r == self.spec_code(),
    {
        match self {
            Machine::ImageFileMachineUnknown => 0x0,
            Machine::ImageFileMachineAm33 => 0x1d3,
            Machine::ImageFileMachineAmd64 => 0x8664,
            Machine::ImageFileMachineArm => 0x1c0,
            Machine::ImageFileMachineArm64 => 0xaa64,
            Machine::ImageFileMachineArmnt => 0x1c4,
            Machine::ImageFileMachineEbc => 0xebc,
            Machine::ImageFileMachineI386 => 0x14c,
            Machine::ImageFileMachineIa64 => 0x200,
            Machine::ImageFileMachineM32r => 0x9041,
            Machine::ImageFileMachineMips16 => 0x266,
            Machine::ImageFileMachineMipsfpu => 0x366,
            Machine::ImageFileMachineMipsfpu16 => 0x466,
            Machine::ImageFileMachinePowerpc => 0x1f0,
            Machine::ImageFileMachinePowerpcfp => 0x1f1,
            Machine::ImageFileMachineR4000 => 0x166,
            Machine::ImageFileMachineRiscv32 => 0x5032,
            Machine::ImageFileMachineRiscv64 => 0x5064,
            Machine::ImageFileMachineRiscv128 => 0x5128,
            Machine::ImageFileMachineSh3 => 0x1a2,
            Machine::ImageFileMachineSh3dsp => 0x1a3,
            Machine::ImageFileMachineSh4 => 0x1a6,
            Machine::ImageFileMachineSh5 => 0x1a8,
            Machine::ImageFileMachineThumb => 0x1c2,
            Machine::ImageFileMachineWcemipsv2 => 0x169,
        }
    }

    /// Decodes a 16-bit machine code; a code outside the table gives `None`.
    pub fn from_code(v: u16) -> (r: Option<Machine>)
        ensures
            r == machine_of_code(v),
    {
        let r = match v {
            0x0 => Some(Machine::ImageFileMachineUnknown),
            0x1d3 => Some(Machine::ImageFileMachineAm33),
            0x8664 => Some(Machine::ImageFileMachineAmd64),
            0x1c0 => Some(Machine::ImageFileMachineArm),
            0xaa64 => Some(Machine::ImageFileMachineArm64),
            0x1c4 => Some(Machine::ImageFileMachineArmnt),
            0xebc => Some(Machine::ImageFileMachineEbc),
            0x14c => Some(Machine::ImageFileMachineI386),
            0x200 => Some(Machine::ImageFileMachineIa64),
            0x9041 => Some(Machine::ImageFileMachineM32r),
            0x266 => Some(Machine::ImageFileMachineMips16),
            0x366 => Some(Machine::ImageFileMachineMipsfpu),
            0x466 => Some(Machine::ImageFileMachineMipsfpu16),
            0x1f0 => Some(Machine::ImageFileMachinePowerpc),
            0x1f1 => Some(Machine::ImageFileMachinePowerpcfp),
            0x166 => Some(Machine::ImageFileMachineR4000),
            0x5032 => Some(Machine::ImageFileMachineRiscv32),
            0x5064 => Some(Machine::ImageFileMachineRiscv64),
            0x5128 => Some(Machine::ImageFileMachineRiscv128),
            0x1a2 => Some(Machine::ImageFileMachineSh3),
            0x1a3 => Some(Machine::ImageFileMachineSh3dsp),
            0x1a6 => Some(Machine::ImageFileMachineSh4),
            0x1a8 => Some(Machine::ImageFileMachineSh5),
            0x1c2 => Some(Machine::ImageFileMachineThumb),
            0x169 => Some(Machine::ImageFileMachineWcemipsv2),
            _ => None,
        };
        proof {
            match r {
                Some(m) => {
                    assert(m.spec_code() == v);
                    assert(is_machine_code(v));
                    lemma_machine_code_injective(m);
                },
                None => {
                    assert forall|m: Machine| m.spec_code() != v by {
                        match m {
                            Machine::ImageFileMachineUnknown => {},
                            Machine::ImageFileMachineAm33 => {},
                            Machine::ImageFileMachineAmd64 => {},
                            Machine::ImageFileMachineArm => {},
                            Machine::ImageFileMachineArm64 => {},
                            Machine::ImageFileMachineArmnt => {},
                            Machine::ImageFileMachineEbc => {},
                            Machine::ImageFileMachineI386 => {},
                            Machine::ImageFileMachineIa64 => {},
                            Machine::ImageFileMachineM32r => {},
                            Machine::ImageFileMachineMips16 => {},
                            Machine::ImageFileMachineMipsfpu => {},
                            Machine::ImageFileMachineMipsfpu16 => {},
                            Machine::ImageFileMachinePowerpc => {},
                            Machine::ImageFileMachinePowerpcfp => {},
                            Machine::ImageFileMachineR4000 => {},
                            Machine::ImageFileMachineRiscv32 => {},
                            Machine::ImageFileMachineRiscv64 => {},
                            Machine::ImageFileMachineRiscv128 => {},
                            Machine::ImageFileMachineSh3 => {},
                            Machine::ImageFileMachineSh3dsp => {},
                            Machine::ImageFileMachineSh4 => {},
                            Machine::ImageFileMachineSh5 => {},
                            Machine::ImageFileMachineThumb => {},
                            Machine::ImageFileMachineWcemipsv2 => {},
                        }
                    }
                },
            }
        }
        r
    }
}

/// Some machine of the table has code `v`.
pub open spec fn is_machine_code(v: u16) -> bool {
    exists|m: Machine| m.spec_code() == v
}

/// The machine whose code is `v`, if the table has one.
pub open spec fn machine_of_code(v: u16) -> Option<Machine> {
    if is_machine_code(v) {
        Some(choose|m: Machine| m.spec_code() == v)
    } else {
        None
    }
}

/// No two machines of the table share a code.
pub proof fn lemma_machine_code_injective(m: Machine)
    ensures
        forall|n: Machine| n.spec_code() == m.spec_code() ==> n == m,
{
    assert forall|n: Machine| n.spec_code() == m.spec_code() implies n == m by {
        match n {
            Machine::ImageFileMachineUnknown => {},
            Machine::ImageFileMachineAm33 => {},
            Machine::ImageFileMachineAmd64 => {},
            Machine::ImageFileMachineArm => {},
            Machine::ImageFileMachineArm64 => {},
            Machine::ImageFileMachineArmnt => {},
            Machine::ImageFileMachineEbc => {},
            Machine::ImageFileMachineI386 => {},
            Machine::ImageFileMachineIa64 => {},
            Machine::ImageFileMachineM32r => {},
            Machine::ImageFileMachineMips16 => {},
            Machine::ImageFileMachineMipsfpu => {},
            Machine::ImageFileMachineMipsfpu16 => {},
            Machine::ImageFileMachinePowerpc => {},
            Machine::ImageFileMachinePowerpcfp => {},
            Machine::ImageFileMachineR4000 => {},
            Machine::ImageFileMachineRiscv32 => {},
            Machine::ImageFileMachineRiscv64 => {},
            Machine::ImageFileMachineRiscv128 => {},
            Machine::ImageFileMachineSh3 => {},
            Machine::ImageFileMachineSh3dsp => {},
            Machine::ImageFileMachineSh4 => {},
            Machine::ImageFileMachineSh5 => {},
            Machine::ImageFileMachineThumb => {},
            Machine::ImageFileMachineWcemipsv2 => {},
        }
    }
}

/// Every machine of the table survives encoding and decoding, and a code
/// that no machine has is rejected rather than mapped to a default.
pub proof fn machine_code_round_trip(m: Machine, v: u16)
    ensures
        machine_of_code(m.spec_code()) == Some(m),
        machine_of_code(v) is None <==> forall|n: Machine| n.spec_code() != v,
{
    lemma_machine_code_injective(m);
}

/// The characteristics bitset of a COFF header. Every one of the sixteen
/// bits has a name in the table above, so any `u16` is kept as it is.
#[derive(Debug, Clone, Copy, PartialEq, Eq, Structural)]
pub struct HeaderFlags {
    pub bits: u16,
}

impl HeaderFlags {
    /// The flag set with exactly the bits of `bits`.
    pub fn from_bits(bits: u16) -> (r: HeaderFlags)
        ensures
            r.bits == bits,
    {
        HeaderFlags { bits }
    }

    /// The raw bits.
    pub fn bits(&self) -> (r: u16)
        ensures
            r == self.bits,
    {
        self.bits
    }

    /// Whether every bit of `flag` is set.
    pub fn contains(&self, flag: u16) -> (r: bool)
        ensures
            r == (self.bits & flag == flag),
    {
        self.bits & flag == flag
    }
}

/// A decoded COFF file header.
#[derive(Debug, Clone, Copy, PartialEq, Eq, Structural)]
pub struct CoffFileHeader {
    pub machine: Machine,
    pub num_sections: u16,
    /// Seconds since the Unix epoch.
    pub timestamp: u32,
    /// File offset of the COFF symbol table; zero in a managed image.
    pub symbol_table_ptr: u32,
    /// Number of COFF symbols; zero in a managed image.
    pub num_symbols: u32,
    pub opt_header_size: u16,
    pub flags: HeaderFlags,
}

/// Size in bytes of a COFF file header.
pub const COFF_HEADER_SIZE: usize = 20;

/// `b` starts with a decodable COFF file header.
pub open spec fn coff_header_valid(b: Seq<u8>) -> bool {
    b.len() >= 20 && is_machine_code(le_u16_at(b, 0) as u16)
}

/// The error reported for bytes that do not start with a decodable header.
pub open spec fn coff_header_error(b: Seq<u8>) -> FormatError {
    if b.len() < 20 {
        FormatError::Truncated { needed: 20, available: b.len() as usize }
    } else {
        FormatError::UnknownMachine(le_u16_at(b, 0) as u16)
    }
}

/// The header that the first 20 bytes of `b` encode.
pub open spec fn coff_header_of(b: Seq<u8>) -> CoffFileHeader {
    CoffFileHeader {
        machine: machine_of_code(le_u16_at(b, 0) as u16)->Some_0,
        num_sections: le_u16_at(b, 2) as u16,
        timestamp: le_u32_at(b, 4) as u32,
        symbol_table_ptr: le_u32_at(b, 8) as u32,
        num_symbols: le_u32_at(b, 12) as u32,
        opt_header_size: le_u16_at(b, 16) as u16,
        flags: HeaderFlags { bits: le_u16_at(b, 18) as u16 },
    }
}

/// Reads the machine field and decodes it against the machine table.
pub fn parse_machine(input: &[u8]) -> (r: Result<(&[u8], Machine), FormatError>)
    ensures
        r is Ok <==> (input@.len() >= 2 && is_machine_code(le_u16_at(input@, 0) as u16)),
        r matches Ok((rest, m)) ==> rest@ == input@.skip(2) && Some(m) == machine_of_code(
            le_u16_at(input@, 0) as u16,
        ),
        r matches Err(e) ==> e == (if input@.len() < 2 {
            FormatError::Truncated { needed: 2, available: input@.len() as usize }
        } else {
            FormatError::UnknownMachine(le_u16_at(input@, 0) as u16)
        }),
{
    if input.len() < 2 {
        return Err(FormatError::Truncated { needed: 2, available: input.len() });
    }
    let (rest, code) = le_u16(input);
    match Machine::from_code(code) {
        Some(m) => Ok((rest, m)),
        None => Err(FormatError::UnknownMachine(code)),
    }
}

/// Decodes the COFF file header at the start of `input` and returns the
/// bytes after it.
pub fn parse_coff_file_header(input: &[u8]) -> (r: Result<(&[u8], CoffFileHeader), FormatError>)
    ensures
        r is Ok <==> coff_header_valid(input@),
        r matches Ok((rest, h)) ==> rest@ == input@.skip(20) && h == coff_header_of(input@),
        r matches Err(e) ==> e == coff_header_error(input@),
{
    if input.len() < COFF_HEADER_SIZE {
        return Err(FormatError::Truncated { needed: COFF_HEADER_SIZE, available: input.len() });
    }
    let ghost b = input@;
    let (rest, machine) = parse_machine(input)?;
    let (rest, num_sections) = le_u16(rest);
    let (rest, timestamp) = le_u32(rest);
    let (rest, symbol_table_ptr) = le_u32(rest);
    let (rest, num_symbols) = le_u32(rest);
    let (rest, opt_header_size) = le_u16(rest);
    let (rest, bits) = le_u16(rest);
    assert(rest@ =~= b.skip(20));
    Ok(
        (
            rest,
            CoffFileHeader {
                machine,
                num_sections,
                timestamp,
                symbol_table_ptr,
                num_symbols,
                opt_header_size,
                flags: HeaderFlags::from_bits(bits),
            },
        ),
    )
}

} // verus!
