//! The optional header: standard fields, whose layout depends on the magic
//! read at its start, windows-specific fields and the data-directory table.

use vstd::prelude::*;
use crate::bits::{le_u16_at, le_u32_at, le_u64_at};
use crate::cursor::{le_u16, le_u32, le_u64, le_u8, skip};
use crate::error::FormatError;

verus! {

/// Which of the two optional-header layouts an image uses.
#[derive(Debug, Clone, Copy, PartialEq, Eq, Structural)]
pub enum Magic {
    /// 32-bit layout, magic `0x10b`.
    Pe32,
    /// 64-bit layout, magic `0x20b`.
    Pe32Plus,
}

impl Magic {
    /// The 16-bit discriminant of the layout.
    pub open spec fn spec_code(self) -> u16 {
        match self {
            Magic::Pe32 => 0x10b,
            Magic::Pe32Plus => 0x20b,
        }
    }

    /// Decodes a discriminant; any value but `0x10b` and `0x20b` gives `None`.
    pub fn from_code(v: u16) -> (r: Option<Magic>)
        ensures
            r == magic_of_code(v),
    {
        if v == 0x10b {
            Some(Magic::Pe32)
        } else if v == 0x20b {
            Some(Magic::Pe32Plus)
        } else {
            None
        }
    }
}

/// The layout whose discriminant is `v`, if there is one.
pub open spec fn magic_of_code(v: u16) -> Option<Magic> {
    if v == 0x10b {
        Some(Magic::Pe32)
    } else if v == 0x20b {
        Some(Magic::Pe32Plus)
    } else {
        None
    }
}

/// Size of the standard fields: PE32 carries `data_base` and PE32+ does not.
pub open spec fn standard_fields_size(m: Magic) -> int {
    match m {
        Magic::Pe32 => 28,
        Magic::Pe32Plus => 24,
    }
}

/// The standard fields of the optional header.
#[derive(Debug, Clone, Copy, PartialEq, Eq, Structural)]
pub struct StandardFields {
    pub magic: Magic,
    pub linker_major: u8,
    pub linker_minor: u8,
    pub code_size: u32,
    pub initialized_data_size: u32,
    pub uninitialized_data_size: u32,
    pub entry_point_rva: u32,
    pub code_base: u32,
    /// Present exactly when `magic` is `Pe32`.
    pub data_base: Option<u32>,
}

/// The magic at the start of `b`, if it is a known one.
pub open spec fn magic_at(b: Seq<u8>) -> Option<Magic> {
    magic_of_code(le_u16_at(b, 0) as u16)
}

/// `b` starts with decodable standard fields.
pub open spec fn standard_fields_valid(b: Seq<u8>) -> bool {
    &&& b.len() >= 2
    &&& magic_at(b) is Some
    &&& b.len() >= standard_fields_size(magic_at(b)->Some_0)
}

/// The error reported for bytes that do not start with standard fields.
pub open spec fn standard_fields_error(b: Seq<u8>) -> FormatError {
    if b.len() < 2 {
        FormatError::Truncated { needed: 2, available: b.len() as usize }
    } else if magic_at(b) is None {
        FormatError::UnknownMagic(le_u16_at(b, 0) as u16)
    } else {
        FormatError::Truncated {
            needed: standard_fields_size(magic_at(b)->Some_0) as usize,
            available: b.len() as usize,
        }
    }
}

/// The standard fields that `b` encodes.
pub open spec fn standard_fields_of(b: Seq<u8>) -> StandardFields {
    let magic = magic_at(b)->Some_0;
    StandardFields {
        magic,
        linker_major: b[2],
        linker_minor: b[3],
        code_size: le_u32_at(b, 4) as u32,
        initialized_data_size: le_u32_at(b, 8) as u32,
        uninitialized_data_size: le_u32_at(b, 12) as u32,
        entry_point_rva: le_u32_at(b, 16) as u32,
        code_base: le_u32_at(b, 20) as u32,
        data_base: if magic == Magic::Pe32 {
            Some(le_u32_at(b, 24) as u32)
        } else {
            None
        },
    }
}

/// Reads the optional header's magic.
pub fn parse_magic(input: &[u8]) -> (r: Result<(&[u8], Magic), FormatError>)
    ensures
        r is Ok <==> (input@.len() >= 2 && magic_at(input@) is Some),
        r matches Ok((rest, m)) ==> rest@ == input@.skip(2) && Some(m) == magic_at(input@),
        r matches Err(e) ==> e == (if input@.len() < 2 {
            FormatError::Truncated { needed: 2, available: input@.len() as usize }
        } else {
            FormatError::UnknownMagic(le_u16_at(input@, 0) as u16)
        }),
{
    if input.len() < 2 {
        return Err(FormatError::Truncated { needed: 2, available: input.len() });
    }
    let (rest, code) = le_u16(input);
    match Magic::from_code(code) {
        Some(m) => Ok((rest, m)),
        None => Err(FormatError::UnknownMagic(code)),
    }
}

/// Reads the linker's major and minor version.
pub fn parse_linker_version(input: &[u8]) -> (r: Result<(&[u8], (u8, u8)), FormatError>)
    ensures
        r is Ok <==> input@.len() >= 2,
        r matches Ok((rest, v)) ==> rest@ == input@.skip(2) && v == (input@[0], input@[1]),
        r matches Err(e) ==> e == (FormatError::Truncated {
            needed: 2,
            available: input@.len() as usize,
        }),
{
    if input.len() < 2 {
        return Err(FormatError::Truncated { needed: 2, available: input.len() });
    }
    let (rest, major) = le_u8(input);
    let (rest, minor) = le_u8(rest);
    assert(rest@ =~= input@.skip(2));
    Ok((rest, (major, minor)))
}

/// Decodes the standard fields. The magic decides whether `data_base` is
/// in the byte stream at all: for PE32+ the cursor does not pass over it.
pub fn parse_standard_fields(input: &[u8]) -> (r: Result<(&[u8], StandardFields), FormatError>)
    ensures
        r is Ok <==> standard_fields_valid(input@),
        r matches Ok((rest, f)) ==> {
            &&& f == standard_fields_of(input@)
            &&& rest@ == input@.skip(standard_fields_size(f.magic))
        },
        r matches Err(e) ==> e == standard_fields_error(input@),
{
    let ghost b = input@;
    let (rest, magic) = parse_magic(input)?;
    let size: usize = match magic {
        Magic::Pe32 => 28,
        Magic::Pe32Plus => 24,
    };
    if input.len() < size {
        return Err(FormatError::Truncated { needed: size, available: input.len() });
    }
    let (rest, (linker_major, linker_minor)) = parse_linker_version(rest)?;
    let (rest, code_size) = le_u32(rest);
    let (rest, initialized_data_size) = le_u32(rest);
    let (rest, uninitialized_data_size) = le_u32(rest);
    let (rest, entry_point_rva) = le_u32(rest);
    let (mut rest, code_base) = le_u32(rest);
    let mut data_base: Option<u32> = None;
    if magic == Magic::Pe32 {
        let (r, db) = le_u32(rest);
        rest = r;
        data_base = Some(db);
    }
    assert(rest@ =~= b.skip(standard_fields_size(magic)));
    Ok(
        (
            rest,
            StandardFields {
                magic,
                linker_major,
                linker_minor,
                code_size,
                initialized_data_size,
                uninitialized_data_size,
                entry_point_rva,
                code_base,
                data_base,
            },
        ),
    )
}

/// Size of the windows-specific fields: PE32+ widens the image base and the
/// four stack and heap sizes to eight bytes.
pub open spec fn windows_fields_size(m: Magic) -> int {
    match m {
        Magic::Pe32 => 68,
        Magic::Pe32Plus => 88,
    }
}

/// The windows-specific fields of the optional header that the rest of the
/// image description uses.
#[derive(Debug, Clone, Copy, PartialEq, Eq, Structural)]
pub struct WindowsFields {
    /// Preferred load address; four bytes wide in PE32, eight in PE32+.
    pub image_base: u64,
    pub section_alignment: u32,
    pub file_alignment: u32,
    pub image_size: u32,
    pub header_size: u32,
    pub subsystem: u16,
    pub dll_characteristics: u16,
    /// Number of entries in the data-directory table that follows.
    pub number_of_rva_and_sizes: u32,
}

/// The windows fields that `b` encodes in the layout of `m`.
pub open spec fn windows_fields_of(b: Seq<u8>, m: Magic) -> WindowsFields {
    let w: int = if m == Magic::Pe32Plus {
        4
    } else {
        0
    };
    WindowsFields {
        image_base: if m == Magic::Pe32 {
            le_u32_at(b, 0) as u64
        } else {
            le_u64_at(b, 0) as u64
        },
        section_alignment: le_u32_at(b, 4 + w) as u32,
        file_alignment: le_u32_at(b, 8 + w) as u32,
        image_size: le_u32_at(b, 28 + w) as u32,
        header_size: le_u32_at(b, 32 + w) as u32,
        subsystem: le_u16_at(b, 40 + w) as u16,
        dll_characteristics: le_u16_at(b, 42 + w) as u16,
        number_of_rva_and_sizes: le_u32_at(b, 64 + 5 * w) as u32,
    }
}

/// Decodes the windows-specific fields in the layout that `magic` selects.
pub fn parse_windows_fields(input: &[u8], magic: Magic) -> (r: Result<
    (&[u8], WindowsFields),
    FormatError,
>)
    ensures
        r is Ok <==> input@.len() >= windows_fields_size(magic),
        r matches Ok((rest, f)) ==> {
            &&& f == windows_fields_of(input@, magic)
            &&& rest@ == input@.skip(windows_fields_size(magic))
        },
        r matches Err(e) ==> e == (FormatError::Truncated {
            needed: windows_fields_size(magic) as usize,
            available: input@.len() as usize,
        }),
{
    let ghost b = input@;
    let size: usize = match magic {
        Magic::Pe32 => 68,
        Magic::Pe32Plus => 88,
    };
    if input.len() < size {
        return Err(FormatError::Truncated { needed: size, available: input.len() });
    }
    let ghost w: int = if magic == Magic::Pe32Plus {
        4
    } else {
        0
    };
    let (rest, image_base) = match magic {
        Magic::Pe32 => {
            let (rest, v) = le_u32(input);
            (rest, v as u64)
        },
        Magic::Pe32Plus => le_u64(input),
    };
    assert(rest@ =~= b.skip(4 + w));
    let (rest, section_alignment) = le_u32(rest);
    let (rest, file_alignment) = le_u32(rest);
    // operating system, image and subsystem versions, and a reserved word
    let rest = skip(rest, 16);
    assert(rest@ =~= b.skip(28 + w));
    let (rest, image_size) = le_u32(rest);
    let (rest, header_size) = le_u32(rest);
    // checksum
    let rest = skip(rest, 4);
    let (rest, subsystem) = le_u16(rest);
    let (rest, dll_characteristics) = le_u16(rest);
    assert(rest@ =~= b.skip(44 + w));
    // stack reserve and commit, heap reserve and commit, then loader flags
    let sizes: usize = match magic {
        Magic::Pe32 => 20,
        Magic::Pe32Plus => 36,
    };
    let rest = skip(rest, sizes);
    assert(rest@ =~= b.skip(64 + 5 * w));
    let (rest, number_of_rva_and_sizes) = le_u32(rest);
    assert(rest@ =~= b.skip(windows_fields_size(magic)));
    Ok(
        (
            rest,
            WindowsFields {
                image_base,
                section_alignment,
                file_alignment,
                image_size,
                header_size,
                subsystem,
                dll_characteristics,
                number_of_rva_and_sizes,
            },
        ),
    )
}

/// Index of the CLI header in the data-directory table.
pub const CLI_HEADER_INDEX: usize = 14;

/// One entry of the data-directory table: where a table lies once the image
/// is loaded, and its size.
#[derive(Debug, Clone, Copy, PartialEq, Eq, Structural)]
pub struct DataDirectory {
    pub virtual_address: u32,
    pub size: u32,
}

/// The entry at index `i` of a table that starts at the start of `b`.
pub open spec fn data_directory_of(b: Seq<u8>, i: int) -> DataDirectory {
    DataDirectory {
        virtual_address: le_u32_at(b, 8 * i) as u32,
        size: le_u32_at(b, 8 * i + 4) as u32,
    }
}

/// The data-directory table, in the order of the image.
#[derive(Debug, Clone, PartialEq, Eq)]
pub struct DataDirectories {
    pub entries: Vec<DataDirectory>,
}

impl DataDirectories {
    /// The entries of the table.
    pub open spec fn view(&self) -> Seq<DataDirectory> {
        self.entries@
    }

    /// The CLI header entry, if the table has one that points somewhere.
    pub open spec fn spec_cli_header(&self) -> Option<DataDirectory> {
        if self.entries@.len() > 14 && self.entries@[14].virtual_address != 0 {
            Some(self.entries@[14])
        } else {
            None
        }
    }

    /// Number of entries.
    pub fn len(&self) -> (r: usize)
        ensures
            r == self.entries@.len(),
    {
        self.entries.len()
    }

    /// The entry at index `i`, if the table is that long.
    pub fn get(&self, i: usize) -> (r: Option<DataDirectory>)
        ensures
            r == (if i < self.entries@.len() {
                Some(self.entries@[i as int])
            } else {
                None
            }),
    {
        if i < self.entries.len() {
            Some(self.entries[i])
        } else {
            None
        }
    }

    /// The CLI header directory. Its presence, with a non-zero address,
    /// is what marks the image as managed.
    pub fn cli_header(&self) -> (r: Option<DataDirectory>)
        ensures
            r == self.spec_cli_header(),
    {
        match self.get(CLI_HEADER_INDEX) {
            Some(d) => if d.virtual_address != 0 {
                Some(d)
            } else {
                None
            },
            None => None,
        }
    }
}

/// Decodes a table of `count` data directories.
pub fn parse_data_directories(input: &[u8], count: u32) -> (r: Result<
    (&[u8], DataDirectories),
    FormatError,
>)
    ensures
        r is Ok <==> input@.len() >= 8 * count,
        r matches Ok((rest, d)) ==> {
            &&& rest@ == input@.skip(8 * count)
            &&& d@.len() == count
            &&& forall|i: int| 0 <= i < count ==> d@[i] == data_directory_of(input@, i)
        },
        r matches Err(e) ==> e == (FormatError::TruncatedDirectories {
            count,
            available: input@.len() as usize,
        }),
{
    let ghost b = input@;
    if input.len() / 8 < count as usize {
        return Err(FormatError::TruncatedDirectories { count, available: input.len() });
    }
    let mut entries: Vec<DataDirectory> = Vec::new();
    let mut rest = input;
    let mut k: u32 = 0;
    while k < count
        invariant
            k <= count,
            b.len() >= 8 * count,
            rest@ == b.skip(8 * k),
            entries@.len() == k,
            forall|i: int| 0 <= i < k ==> entries@[i] == data_directory_of(b, i),
        decreases count - k,
    {
        let (r, virtual_address) = le_u32(rest);
        let (r, size) = le_u32(r);
        assert(le_u32_at(b.skip(8 * k), 4) == le_u32_at(b, 8 * k + 4));
        entries.push(DataDirectory { virtual_address, size });
        rest = r;
        k = k + 1;
        assert(rest@ =~= b.skip(8 * k));
    }
    Ok((rest, DataDirectories { entries }))
}

/// A decoded optional header.
#[derive(Debug, Clone, PartialEq, Eq)]
pub struct OptionalHeader {
    pub standard_fields: StandardFields,
    pub windows_fields: WindowsFields,
    pub data_directories: DataDirectories,
}

/// The layout that the magic at the start of `b` selects.
pub open spec fn header_magic(b: Seq<u8>) -> Magic {
    magic_at(b)->Some_0
}

/// Offset of the windows fields within an optional header.
pub open spec fn windows_offset(b: Seq<u8>) -> int {
    standard_fields_size(header_magic(b))
}

/// Offset of the data-directory table within an optional header.
pub open spec fn directories_offset(b: Seq<u8>) -> int {
    windows_offset(b) + windows_fields_size(header_magic(b))
}

/// Number of data directories that the windows fields announce.
pub open spec fn directory_count(b: Seq<u8>) -> u32 {
    windows_fields_of(b.skip(windows_offset(b)), header_magic(b)).number_of_rva_and_sizes
}

/// Size of the whole optional header that `b` starts with.
pub open spec fn optional_header_size(b: Seq<u8>) -> int {
    directories_offset(b) + 8 * directory_count(b)
}

/// `b` starts with a decodable optional header.
pub open spec fn optional_header_valid(b: Seq<u8>) -> bool {
    &&& standard_fields_valid(b)
    &&& b.len() >= directories_offset(b)
    &&& b.len() >= optional_header_size(b)
}

/// The error reported for bytes that do not start with an optional header.
pub open spec fn optional_header_error(b: Seq<u8>) -> FormatError {
    if !standard_fields_valid(b) {
        standard_fields_error(b)
    } else if b.len() < directories_offset(b) {
        FormatError::Truncated {
            needed: windows_fields_size(header_magic(b)) as usize,
            available: (b.len() - windows_offset(b)) as usize,
        }
    } else {
        FormatError::TruncatedDirectories {
            count: directory_count(b),
            available: (b.len() - directories_offset(b)) as usize,
        }
    }
}

/// `h` is the optional header that `b` encodes.
pub open spec fn optional_header_matches(h: OptionalHeader, b: Seq<u8>) -> bool {
    &&& h.standard_fields == standard_fields_of(b)
    &&& h.windows_fields == windows_fields_of(b.skip(windows_offset(b)), header_magic(b))
    &&& h.data_directories@.len() == directory_count(b)
    &&& forall|i: int|
        0 <= i < directory_count(b) ==> h.data_directories@[i] == data_directory_of(
            b.skip(directories_offset(b)),
            i,
        )
}

/// Decodes the optional header: the magic read first is threaded into the
/// decoding of the standard and windows fields.
pub fn parse_optional_header(input: &[u8]) -> (r: Result<(&[u8], OptionalHeader), FormatError>)
    ensures
        r is Ok <==> optional_header_valid(input@),
        r matches Ok((rest, h)) ==> {
            &&& optional_header_matches(h, input@)
            &&& rest@ == input@.skip(optional_header_size(input@))
        },
        r matches Err(e) ==> e == optional_header_error(input@),
{
    let ghost b = input@;
    let (rest, standard_fields) = parse_standard_fields(input)?;
    let (rest, windows_fields) = parse_windows_fields(rest, standard_fields.magic)?;
    assert(rest@ =~= b.skip(directories_offset(b)));
    let (rest, data_directories) = parse_data_directories(
        rest,
        windows_fields.number_of_rva_and_sizes,
    )?;
    assert(rest@ =~= b.skip(optional_header_size(b)));
    Ok((rest, OptionalHeader { standard_fields, windows_fields, data_directories }))
}

/// The optional-header magic decides the width of the standard fields: a
/// PE32+ header leaves exactly four bytes more of the buffer after them than
/// a PE32 header would, because only PE32 carries `data_base`.
pub proof fn standard_fields_width(b: Seq<u8>)
    requires
        standard_fields_valid(b),
    ensures
        standard_fields_of(b).magic == Magic::Pe32 ==> b.skip(
            standard_fields_size(standard_fields_of(b).magic),
        ).len() == b.len() - 28,
        standard_fields_of(b).magic == Magic::Pe32Plus ==> b.skip(
            standard_fields_size(standard_fields_of(b).magic),
        ).len() == b.len() - 24,
        standard_fields_size(Magic::Pe32Plus) == standard_fields_size(Magic::Pe32) - 4,
        standard_fields_of(b).data_base is Some <==> standard_fields_of(b).magic == Magic::Pe32,
{
}

} // verus!
