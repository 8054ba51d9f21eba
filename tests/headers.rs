use pando::coff::{
    parse_coff_file_header, parse_machine, CoffFileHeader, HeaderFlags, Machine,
    IMAGE_FILE_DLL, IMAGE_FILE_EXECUTABLE_IMAGE, IMAGE_FILE_LARGE_ADDRESS_AWARE,
};
use pando::dos::{parse_dos_begin, parse_dos_end, parse_lfa, validate_msdos_header};
use pando::error::{DosStubPart, FormatError};
use pando::image::{parse_image, PeImage};
use pando::optional::{
    parse_data_directories, parse_linker_version, parse_magic, parse_optional_header,
    parse_standard_fields, parse_windows_fields, DataDirectory, Magic,
};

const DOS_STUB: [u8; 128] = [
    0x4d, 0x5a, 0x90, 0x00, 0x03, 0x00, 0x00, 0x00, 0x04, 0x00, 0x00, 0x00, 0xff, 0xff, 0x00, 0x00,
    0xb8, 0x00, 0x00, 0x00, 0x00, 0x00, 0x00, 0x00, 0x40, 0x00, 0x00, 0x00, 0x00, 0x00, 0x00, 0x00,
    0x00, 0x00, 0x00, 0x00, 0x00, 0x00, 0x00, 0x00, 0x00, 0x00, 0x00, 0x00, 0x00, 0x00, 0x00, 0x00,
    0x00, 0x00, 0x00, 0x00, 0x00, 0x00, 0x00, 0x00, 0x00, 0x00, 0x00, 0x00, 0x80, 0x00, 0x00, 0x00,
    0x0e, 0x1f, 0xba, 0x0e, 0x00, 0xb4, 0x09, 0xcd, 0x21, 0xb8, 0x01, 0x4c, 0xcd, 0x21, 0x54, 0x68,
    0x69, 0x73, 0x20, 0x70, 0x72, 0x6f, 0x67, 0x72, 0x61, 0x6d, 0x20, 0x63, 0x61, 0x6e, 0x6e, 0x6f,
    0x74, 0x20, 0x62, 0x65, 0x20, 0x72, 0x75, 0x6e, 0x20, 0x69, 0x6e, 0x20, 0x44, 0x4f, 0x53, 0x20,
    0x6d, 0x6f, 0x64, 0x65, 0x2e, 0x0d, 0x0d, 0x0a, 0x24, 0x00, 0x00, 0x00, 0x00, 0x00, 0x00, 0x00,
];

/// The COFF file header of a managed class library, as found at its
/// `lfanew + 4`.
const LIBRARY_COFF_HEADER: [u8; 20] = [
    0x4c, 0x01, 0x03, 0x00, 0x3c, 0xc6, 0x69, 0xb6, 0x00, 0x00, 0x00, 0x00, 0x00, 0x00, 0x00, 0x00,
    0xe0, 0x00, 0x22, 0x20,
];

fn push_u16(b: &mut Vec<u8>, v: u16) {
    b.extend_from_slice(&v.to_le_bytes());
}

fn push_u32(b: &mut Vec<u8>, v: u32) {
    b.extend_from_slice(&v.to_le_bytes());
}

fn push_u64(b: &mut Vec<u8>, v: u64) {
    b.extend_from_slice(&v.to_le_bytes());
}

/// Standard, windows and data-directory fields of an optional header.
fn optional_header_bytes(plus: bool, directories: u32) -> Vec<u8> {
    let mut b = Vec::new();
    push_u16(&mut b, if plus { 0x20b } else { 0x10b });
    b.push(8);
    b.push(0);
    push_u32(&mut b, 0x1000);
    push_u32(&mut b, 0x800);
    push_u32(&mut b, 0);
    push_u32(&mut b, 0x2f4e);
    push_u32(&mut b, 0x2000);
    if !plus {
        push_u32(&mut b, 0x4000);
    }
    if plus {
        push_u64(&mut b, 0x1_8000_0000);
    } else {
        push_u32(&mut b, 0x1000_0000);
    }
    push_u32(&mut b, 0x2000);
    push_u32(&mut b, 0x200);
    b.extend_from_slice(&[4, 0, 0, 0, 0, 0, 0, 0, 4, 0, 0, 0, 0, 0, 0, 0]);
    push_u32(&mut b, 0x8000);
    push_u32(&mut b, 0x200);
    push_u32(&mut b, 0);
    push_u16(&mut b, 3);
    push_u16(&mut b, 0x8540);
    let sizes = if plus { 32 } else { 16 };
    for _ in 0..sizes {
        b.push(0x11);
    }
    push_u32(&mut b, 0);
    push_u32(&mut b, directories);
    for i in 0..directories {
        if i == 14 {
            push_u32(&mut b, 0x2008);
            push_u32(&mut b, 0x48);
        } else if i == 1 {
            push_u32(&mut b, 0x3000);
            push_u32(&mut b, 0x4f);
        } else {
            push_u32(&mut b, 0);
            push_u32(&mut b, 0);
        }
    }
    b
}

/// A whole header chain: stub, signature, COFF header, optional header.
fn image_bytes(plus: bool, directories: u32) -> Vec<u8> {
    let mut b = DOS_STUB.to_vec();
    b.extend_from_slice(b"PE\0\0");
    let mut coff = LIBRARY_COFF_HEADER.to_vec();
    let opt = optional_header_bytes(plus, directories);
    coff[16..18].copy_from_slice(&(opt.len() as u16).to_le_bytes());
    b.extend_from_slice(&coff);
    b.extend_from_slice(&opt);
    b
}

#[test]
fn validate_msdos_header_ok() {
    let assembly_bytes = &DOS_STUB[0..128];

    let result = validate_msdos_header(assembly_bytes);
    assert!(result.is_ok());

    let (remaining_input, lfa) = result.unwrap();
    assert_eq!(remaining_input.len(), 0);
    assert_eq!(lfa, 0x80);
}

#[test]
fn parse_pe_file_header_ok() {
    let section_bytes = &LIBRARY_COFF_HEADER[..];

    let result = parse_coff_file_header(section_bytes);
    assert!(result.is_ok());

    let (remaining_input, header) = result.unwrap();
    assert_eq!(remaining_input.len(), 0);

    assert_eq!(header.num_sections, 3);
    assert_eq!(header.timestamp, 0xb669c63c);
    assert_eq!(header.opt_header_size, 0x00e0);
    assert_eq!(
        header.flags,
        HeaderFlags::from_bits(
            IMAGE_FILE_DLL | IMAGE_FILE_LARGE_ADDRESS_AWARE | IMAGE_FILE_EXECUTABLE_IMAGE
        )
    );
    assert_eq!(header.machine, Machine::ImageFileMachineI386);
    assert_eq!(header.symbol_table_ptr, 0);
    assert_eq!(header.num_symbols, 0);
}

#[test]
fn msdos_header_keeps_bytes_after_stub() {
    let bytes = image_bytes(false, 16);
    let (rest, lfa) = validate_msdos_header(&bytes).unwrap();
    assert_eq!(rest.len(), bytes.len() - 128);
    assert_eq!(lfa, 0x80);
}

#[test]
fn msdos_header_rejects_any_changed_prefix_byte() {
    for i in 0..60 {
        let mut bytes = DOS_STUB;
        bytes[i] ^= 0x01;
        assert_eq!(
            validate_msdos_header(&bytes),
            Err(FormatError::InvalidDosStub(DosStubPart::Prefix))
        );
    }
}

#[test]
fn msdos_header_rejects_any_changed_suffix_byte() {
    for i in 64..128 {
        let mut bytes = DOS_STUB;
        bytes[i] = bytes[i].wrapping_add(1);
        assert_eq!(
            validate_msdos_header(&bytes),
            Err(FormatError::InvalidDosStub(DosStubPart::Suffix))
        );
    }
}

#[test]
fn msdos_header_accepts_any_lfanew() {
    let mut bytes = DOS_STUB;
    bytes[60..64].copy_from_slice(&[0x78, 0x56, 0x34, 0x12]);
    let (_, lfa) = validate_msdos_header(&bytes).unwrap();
    assert_eq!(lfa, 0x12345678);
}

#[test]
fn msdos_header_truncated() {
    assert_eq!(
        validate_msdos_header(&DOS_STUB[..127]),
        Err(FormatError::Truncated { needed: 128, available: 127 })
    );
    assert_eq!(
        validate_msdos_header(&[]),
        Err(FormatError::Truncated { needed: 128, available: 0 })
    );
}

#[test]
fn msdos_header_parts() {
    let rest = parse_dos_begin(&DOS_STUB).unwrap();
    assert_eq!(rest.len(), 68);
    let (rest, lfa) = parse_lfa(rest).unwrap();
    assert_eq!(lfa, 0x80);
    let rest = parse_dos_end(rest).unwrap();
    assert_eq!(rest.len(), 0);
    assert_eq!(
        parse_dos_begin(&DOS_STUB[..10]),
        Err(FormatError::Truncated { needed: 60, available: 10 })
    );
    assert_eq!(parse_lfa(&[1, 2, 3]), Err(FormatError::Truncated { needed: 4, available: 3 }));
    assert_eq!(
        parse_dos_end(&DOS_STUB[..64]),
        Err(FormatError::InvalidDosStub(DosStubPart::Suffix))
    );
}

#[test]
fn machine_codes_round_trip() {
    let table: [(Machine, u16); 25] = [
        (Machine::ImageFileMachineUnknown, 0x0),
        (Machine::ImageFileMachineAm33, 0x1d3),
        (Machine::ImageFileMachineAmd64, 0x8664),
        (Machine::ImageFileMachineArm, 0x1c0),
        (Machine::ImageFileMachineArm64, 0xaa64),
        (Machine::ImageFileMachineArmnt, 0x1c4),
        (Machine::ImageFileMachineEbc, 0xebc),
        (Machine::ImageFileMachineI386, 0x14c),
        (Machine::ImageFileMachineIa64, 0x200),
        (Machine::ImageFileMachineM32r, 0x9041),
        (Machine::ImageFileMachineMips16, 0x266),
        (Machine::ImageFileMachineMipsfpu, 0x366),
        (Machine::ImageFileMachineMipsfpu16, 0x466),
        (Machine::ImageFileMachinePowerpc, 0x1f0),
        (Machine::ImageFileMachinePowerpcfp, 0x1f1),
        (Machine::ImageFileMachineR4000, 0x166),
        (Machine::ImageFileMachineRiscv32, 0x5032),
        (Machine::ImageFileMachineRiscv64, 0x5064),
        (Machine::ImageFileMachineRiscv128, 0x5128),
        (Machine::ImageFileMachineSh3, 0x1a2),
        (Machine::ImageFileMachineSh3dsp, 0x1a3),
        (Machine::ImageFileMachineSh4, 0x1a6),
        (Machine::ImageFileMachineSh5, 0x1a8),
        (Machine::ImageFileMachineThumb, 0x1c2),
        (Machine::ImageFileMachineWcemipsv2, 0x169),
    ];
    for (m, code) in table.iter() {
        assert_eq!(m.code(), *code);
        assert_eq!(Machine::from_code(*code), Some(*m));
    }
}

#[test]
fn machine_unknown_codes_rejected() {
    for code in [0x1u16, 0x14d, 0x184, 0x6232, 0xffff] {
        assert_eq!(Machine::from_code(code), None);
    }
    assert_eq!(parse_machine(&[0x4d, 0x01]), Err(FormatError::UnknownMachine(0x14d)));
    assert_eq!(parse_machine(&[0x4c]), Err(FormatError::Truncated { needed: 2, available: 1 }));
    let (rest, m) = parse_machine(&[0x64, 0x86, 0xaa]).unwrap();
    assert_eq!(m, Machine::ImageFileMachineAmd64);
    assert_eq!(rest, &[0xaa]);
}

#[test]
fn coff_header_errors() {
    let mut bytes = LIBRARY_COFF_HEADER;
    bytes[0] = 0x34;
    bytes[1] = 0x12;
    assert_eq!(parse_coff_file_header(&bytes), Err(FormatError::UnknownMachine(0x1234)));
    assert_eq!(
        parse_coff_file_header(&LIBRARY_COFF_HEADER[..19]),
        Err(FormatError::Truncated { needed: 20, available: 19 })
    );
}

#[test]
fn coff_header_reads_symbol_fields() {
    let mut bytes = LIBRARY_COFF_HEADER.to_vec();
    bytes[8..12].copy_from_slice(&[1, 2, 3, 4]);
    bytes[12..16].copy_from_slice(&[5, 0, 0, 0]);
    bytes.push(0xee);
    let (rest, header) = parse_coff_file_header(&bytes).unwrap();
    assert_eq!(rest, &[0xee]);
    assert_eq!(header.symbol_table_ptr, 0x04030201);
    assert_eq!(header.num_symbols, 5);
}

#[test]
fn header_flags_contains() {
    let flags = HeaderFlags::from_bits(0x2022);
    assert!(flags.contains(IMAGE_FILE_DLL));
    assert!(flags.contains(IMAGE_FILE_DLL | IMAGE_FILE_EXECUTABLE_IMAGE));
    assert!(!flags.contains(0x0001));
    assert!(!flags.contains(0x2001));
    assert_eq!(flags.bits(), 0x2022);
}

#[test]
fn magic_codes() {
    assert_eq!(Magic::from_code(0x10b), Some(Magic::Pe32));
    assert_eq!(Magic::from_code(0x20b), Some(Magic::Pe32Plus));
    assert_eq!(Magic::from_code(0x107), None);
    assert_eq!(parse_magic(&[0x07, 0x01]), Err(FormatError::UnknownMagic(0x107)));
    assert_eq!(parse_magic(&[0x0b]), Err(FormatError::Truncated { needed: 2, available: 1 }));
}

#[test]
fn linker_version() {
    let (rest, v) = parse_linker_version(&[11, 3, 9]).unwrap();
    assert_eq!(v, (11, 3));
    assert_eq!(rest, &[9]);
    assert_eq!(parse_linker_version(&[1]), Err(FormatError::Truncated { needed: 2, available: 1 }));
}

#[test]
fn standard_fields_pe32_has_data_base() {
    let bytes = optional_header_bytes(false, 0);
    let (rest, f) = parse_standard_fields(&bytes[..28]).unwrap();
    assert_eq!(rest.len(), 0);
    assert_eq!(f.magic, Magic::Pe32);
    assert_eq!((f.linker_major, f.linker_minor), (8, 0));
    assert_eq!(f.code_size, 0x1000);
    assert_eq!(f.initialized_data_size, 0x800);
    assert_eq!(f.uninitialized_data_size, 0);
    assert_eq!(f.entry_point_rva, 0x2f4e);
    assert_eq!(f.code_base, 0x2000);
    assert_eq!(f.data_base, Some(0x4000));
}

#[test]
fn standard_fields_pe32plus_has_no_data_base() {
    let bytes = optional_header_bytes(true, 0);
    let (rest, f) = parse_standard_fields(&bytes[..28]).unwrap();
    assert_eq!(rest.len(), 4);
    assert_eq!(f.magic, Magic::Pe32Plus);
    assert_eq!(f.code_base, 0x2000);
    assert_eq!(f.data_base, None);
}

#[test]
fn standard_fields_width_differs_by_four() {
    let pe32 = optional_header_bytes(false, 0);
    let plus = optional_header_bytes(true, 0);
    let (r32, _) = parse_standard_fields(&pe32).unwrap();
    let (r64, _) = parse_standard_fields(&plus).unwrap();
    assert_eq!(pe32.len() - r32.len(), 28);
    assert_eq!(plus.len() - r64.len(), 24);
}

#[test]
fn standard_fields_truncated_by_magic() {
    let pe32 = optional_header_bytes(false, 0);
    assert_eq!(
        parse_standard_fields(&pe32[..27]),
        Err(FormatError::Truncated { needed: 28, available: 27 })
    );
    let plus = optional_header_bytes(true, 0);
    assert!(parse_standard_fields(&plus[..24]).is_ok());
    assert_eq!(
        parse_standard_fields(&plus[..23]),
        Err(FormatError::Truncated { needed: 24, available: 23 })
    );
}

#[test]
fn windows_fields_both_layouts() {
    let pe32 = optional_header_bytes(false, 0);
    let (rest, w) = parse_windows_fields(&pe32[28..], Magic::Pe32).unwrap();
    assert_eq!(rest.len(), 0);
    assert_eq!(w.image_base, 0x1000_0000);
    assert_eq!(w.section_alignment, 0x2000);
    assert_eq!(w.file_alignment, 0x200);
    assert_eq!(w.image_size, 0x8000);
    assert_eq!(w.header_size, 0x200);
    assert_eq!(w.subsystem, 3);
    assert_eq!(w.dll_characteristics, 0x8540);
    assert_eq!(w.number_of_rva_and_sizes, 0);

    let plus = optional_header_bytes(true, 0);
    let (rest, w) = parse_windows_fields(&plus[24..], Magic::Pe32Plus).unwrap();
    assert_eq!(rest.len(), 0);
    assert_eq!(w.image_base, 0x1_8000_0000);
    assert_eq!(w.section_alignment, 0x2000);
    assert_eq!(w.image_size, 0x8000);
    assert_eq!(w.dll_characteristics, 0x8540);
    assert_eq!(
        parse_windows_fields(&plus[24..100], Magic::Pe32Plus),
        Err(FormatError::Truncated { needed: 88, available: 76 })
    );
}

#[test]
fn data_directories_table() {
    let mut bytes = Vec::new();
    push_u32(&mut bytes, 0x10);
    push_u32(&mut bytes, 0x20);
    push_u32(&mut bytes, 0x30);
    push_u32(&mut bytes, 0x40);
    bytes.push(7);
    let (rest, d) = parse_data_directories(&bytes, 2).unwrap();
    assert_eq!(rest, &[7]);
    assert_eq!(d.len(), 2);
    assert_eq!(d.get(1), Some(DataDirectory { virtual_address: 0x30, size: 0x40 }));
    assert_eq!(d.get(2), None);
    assert_eq!(d.cli_header(), None);
    assert_eq!(
        parse_data_directories(&bytes, 3),
        Err(FormatError::TruncatedDirectories { count: 3, available: 17 })
    );
}

#[test]
fn optional_header_finds_cli_header() {
    let bytes = optional_header_bytes(false, 16);
    let (rest, h) = parse_optional_header(&bytes).unwrap();
    assert_eq!(rest.len(), 0);
    assert_eq!(bytes.len(), 28 + 68 + 128);
    assert_eq!(h.windows_fields.number_of_rva_and_sizes, 16);
    assert_eq!(
        h.data_directories.cli_header(),
        Some(DataDirectory { virtual_address: 0x2008, size: 0x48 })
    );
    assert_eq!(
        h.data_directories.get(1),
        Some(DataDirectory { virtual_address: 0x3000, size: 0x4f })
    );
}

#[test]
fn optional_header_without_cli_entry() {
    let bytes = optional_header_bytes(true, 14);
    let (_, h) = parse_optional_header(&bytes).unwrap();
    assert_eq!(h.data_directories.len(), 14);
    assert_eq!(h.data_directories.cli_header(), None);
}

#[test]
fn optional_header_truncated_directories() {
    let bytes = optional_header_bytes(false, 16);
    assert_eq!(
        parse_optional_header(&bytes[..bytes.len() - 1]),
        Err(FormatError::TruncatedDirectories { count: 16, available: 127 })
    );
    assert_eq!(
        parse_optional_header(&bytes[..50]),
        Err(FormatError::Truncated { needed: 68, available: 22 })
    );
}

#[test]
fn image_pe32() {
    let bytes = image_bytes(false, 16);
    let img: PeImage = parse_image(&bytes).unwrap();
    assert_eq!(img.lfanew, 0x80);
    assert_eq!(&bytes[img.lfanew as usize..img.lfanew as usize + 4], b"PE\0\0");
    let coff: CoffFileHeader = img.coff_header;
    assert_eq!(coff.num_sections, 3);
    assert_eq!(coff.opt_header_size, 0xe0);
    assert_eq!(img.optional_header.standard_fields.magic, Magic::Pe32);
    assert_eq!(img.optional_header.standard_fields.data_base, Some(0x4000));
    assert_eq!(
        img.optional_header.data_directories.cli_header(),
        Some(DataDirectory { virtual_address: 0x2008, size: 0x48 })
    );
}

#[test]
fn image_pe32plus() {
    let bytes = image_bytes(true, 16);
    let img = parse_image(&bytes).unwrap();
    assert_eq!(img.coff_header.opt_header_size, 0xf0);
    assert_eq!(img.optional_header.standard_fields.magic, Magic::Pe32Plus);
    assert_eq!(img.optional_header.standard_fields.data_base, None);
    assert_eq!(img.optional_header.windows_fields.image_base, 0x1_8000_0000);
}

#[test]
fn image_signature_at_other_offset() {
    let mut bytes = image_bytes(false, 16);
    bytes[60] = 0x88;
    let mut shifted = bytes[..128].to_vec();
    shifted.extend_from_slice(&[0xcc; 8]);
    shifted.extend_from_slice(&bytes[128..]);
    let img = parse_image(&shifted).unwrap();
    assert_eq!(img.lfanew, 0x88);
    assert_eq!(&shifted[0x88..0x8c], b"PE\0\0");
}

#[test]
fn image_errors() {
    let good = image_bytes(false, 16);

    let mut bad = good.clone();
    bad[0x81] = b'X';
    assert_eq!(parse_image(&bad), Err(FormatError::InvalidSignature));

    let mut bad = good.clone();
    bad[60..64].copy_from_slice(&0x1000u32.to_le_bytes());
    assert_eq!(parse_image(&bad), Err(FormatError::Truncated { needed: 4, available: 0 }));

    assert_eq!(
        parse_image(&good[..0x82]),
        Err(FormatError::Truncated { needed: 4, available: 2 })
    );

    let mut bad = good.clone();
    bad[0x84] = 0x00;
    bad[0x85] = 0x99;
    assert_eq!(parse_image(&bad), Err(FormatError::UnknownMachine(0x9900)));

    let mut bad = good.clone();
    bad[0x98] = 0x07;
    assert_eq!(parse_image(&bad), Err(FormatError::UnknownMagic(0x107)));

    let mut bad = good.clone();
    bad[5] = 0x77;
    assert_eq!(parse_image(&bad), Err(FormatError::InvalidDosStub(DosStubPart::Prefix)));
}
