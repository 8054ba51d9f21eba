use pando::bits::u16_from_slice_le;
use pando::coff::{
    parse_coff_file_header, CoffFileHeader, HeaderFlags, Machine, IMAGE_FILE_DLL,
    IMAGE_FILE_EXECUTABLE_IMAGE, IMAGE_FILE_RELOCS_STRIPPED,
};
use pando::validate::{
    flag_set, merge_error, validate_file_characteristics, validate_file_header, validate_flag,
    validate_machine, validate_symbol_num, validate_symbol_ptr, ValidationError,
};

fn managed_header() -> CoffFileHeader {
    CoffFileHeader {
        machine: Machine::ImageFileMachineI386,
        num_sections: 3,
        timestamp: 0xb669c63c,
        symbol_table_ptr: 0,
        num_symbols: 0,
        opt_header_size: 0xe0,
        flags: HeaderFlags::from_bits(0x2022),
    }
}

#[test]
fn u16_from_slice_le_value() {
    assert_eq!(u16_from_slice_le(&[0x34, 0x12]), 0x1234);
    assert_eq!(u16_from_slice_le(&[0xff, 0x00]), 0x00ff);
    assert_eq!(u16_from_slice_le(&[0x00, 0xff]), 0xff00);
}

#[test]
fn merge_error_keeps_order() {
    let a = Err(vec![ValidationError::UnexpectedMachine(1)]);
    let b = Err(vec![
        ValidationError::UnexpectedSymbolCount(2),
        ValidationError::UnexpectedSymbolTablePointer(3),
    ]);
    assert_eq!(
        merge_error(a.clone(), b.clone()),
        Err(vec![
            ValidationError::UnexpectedMachine(1),
            ValidationError::UnexpectedSymbolCount(2),
            ValidationError::UnexpectedSymbolTablePointer(3),
        ])
    );
    assert_eq!(merge_error(a.clone(), Ok(())), a);
    assert_eq!(merge_error(Ok(()), b.clone()), b);
    assert_eq!(merge_error(Ok(()), Ok(())), Ok(()));
}

#[test]
fn single_checks() {
    assert_eq!(validate_machine(0x14c), Ok(()));
    assert_eq!(validate_machine(0x8664), Err(vec![ValidationError::UnexpectedMachine(0x8664)]));
    assert_eq!(validate_symbol_ptr(0), Ok(()));
    assert_eq!(
        validate_symbol_ptr(0x400),
        Err(vec![ValidationError::UnexpectedSymbolTablePointer(0x400)])
    );
    assert_eq!(validate_symbol_num(0), Ok(()));
    assert_eq!(validate_symbol_num(7), Err(vec![ValidationError::UnexpectedSymbolCount(7)]));
}

#[test]
fn flag_checks() {
    assert_eq!(validate_flag(0x2022, IMAGE_FILE_EXECUTABLE_IMAGE, IMAGE_FILE_EXECUTABLE_IMAGE), Ok(()));
    assert_eq!(
        validate_flag(0x2020, IMAGE_FILE_EXECUTABLE_IMAGE, IMAGE_FILE_EXECUTABLE_IMAGE),
        Err(vec![ValidationError::UnexpectedCharacteristic {
            position: IMAGE_FILE_EXECUTABLE_IMAGE,
            expected: IMAGE_FILE_EXECUTABLE_IMAGE,
            actual: 0,
        }])
    );
    assert_eq!(validate_flag(0x2022, IMAGE_FILE_RELOCS_STRIPPED, 0), Ok(()));
    assert_eq!(
        validate_flag(0x0003, IMAGE_FILE_RELOCS_STRIPPED, 0),
        Err(vec![ValidationError::UnexpectedCharacteristic {
            position: IMAGE_FILE_RELOCS_STRIPPED,
            expected: 0,
            actual: 1,
        }])
    );
    assert!(flag_set(0x2022, IMAGE_FILE_DLL));
    assert!(flag_set(0x2022, 0x0003));
    assert!(!flag_set(0x2022, IMAGE_FILE_RELOCS_STRIPPED));
}

#[test]
fn characteristics_report_both() {
    assert_eq!(validate_file_characteristics(0x0002), Ok(()));
    assert_eq!(
        validate_file_characteristics(0x0001),
        Err(vec![
            ValidationError::UnexpectedCharacteristic { position: 1, expected: 0, actual: 1 },
            ValidationError::UnexpectedCharacteristic { position: 2, expected: 2, actual: 0 },
        ])
    );
}

#[test]
fn no_defect_validates() {
    assert_eq!(validate_file_header(&managed_header()), Ok(()));
}

#[test]
fn one_defect_one_error() {
    let mut h = managed_header();
    h.num_symbols = 9;
    assert_eq!(validate_file_header(&h), Err(vec![ValidationError::UnexpectedSymbolCount(9)]));
}

#[test]
fn two_defects_both_reported() {
    let mut h = managed_header();
    h.num_symbols = 4;
    h.flags = HeaderFlags::from_bits(0x2020);
    assert_eq!(
        validate_file_header(&h),
        Err(vec![
            ValidationError::UnexpectedSymbolCount(4),
            ValidationError::UnexpectedCharacteristic {
                position: IMAGE_FILE_EXECUTABLE_IMAGE,
                expected: IMAGE_FILE_EXECUTABLE_IMAGE,
                actual: 0,
            },
        ])
    );
}

#[test]
fn every_defect_reported_in_order() {
    let h = CoffFileHeader {
        machine: Machine::ImageFileMachineAmd64,
        num_sections: 1,
        timestamp: 0,
        symbol_table_ptr: 0x100,
        num_symbols: 2,
        opt_header_size: 0xf0,
        flags: HeaderFlags::from_bits(0x0001),
    };
    let errors = validate_file_header(&h).unwrap_err();
    assert_eq!(
        errors,
        vec![
            ValidationError::UnexpectedMachine(0x8664),
            ValidationError::UnexpectedSymbolTablePointer(0x100),
            ValidationError::UnexpectedSymbolCount(2),
            ValidationError::UnexpectedCharacteristic { position: 1, expected: 0, actual: 1 },
            ValidationError::UnexpectedCharacteristic { position: 2, expected: 2, actual: 0 },
        ]
    );
}

#[test]
fn parsed_header_validates() {
    let bytes = [
        0x4c, 0x01, 0x03, 0x00, 0x3c, 0xc6, 0x69, 0xb6, 0x00, 0x00, 0x00, 0x00, 0x00, 0x00, 0x00,
        0x00, 0xe0, 0x00, 0x22, 0x20,
    ];
    let (_, h) = parse_coff_file_header(&bytes).unwrap();
    assert_eq!(validate_file_header(&h), Ok(()));
}
