//! A whole image's header chain: MS-DOS stub, PE signature, COFF file
//! header and optional header; and the managed assembly that a validated
//! chain describes.

use vstd::prelude::*;
use crate::coff::{coff_header_error, coff_header_of, coff_header_valid, parse_coff_file_header, CoffFileHeader};
use crate::cursor::{skip, tag};
use crate::dos::{dos_lfanew, dos_stub_error, dos_stub_valid, validate_msdos_header};
use crate::error::FormatError;
use crate::optional::{
    optional_header_error,
    optional_header_matches,
    optional_header_valid,
    parse_optional_header,
    DataDirectory,
    OptionalHeader,
};
use crate::validate::{file_header_errors, outcome_is, validate_file_header, EResult, ValidationError};

verus! {

/// The four bytes that `lfanew` points at: `"PE\0\0"`.
pub const PE_SIGNATURE: [u8; 4] = [0x50, 0x45, 0x00, 0x00];

/// The decoded header chain of an image.
#[derive(Debug, Clone, PartialEq, Eq)]
pub struct PeImage {
    /// Offset of the PE signature, as the MS-DOS stub gives it.
    pub lfanew: u32,
    pub coff_header: CoffFileHeader,
    pub optional_header: OptionalHeader,
}

/// The PE signature stands at offset `l` of `b`.
pub open spec fn signature_at(b: Seq<u8>, l: int) -> bool {
    l + 4 <= b.len() && b.subrange(l, l + 4) == PE_SIGNATURE@
}

/// `b` holds a decodable header chain.
pub open spec fn image_valid(b: Seq<u8>) -> bool {
    let l = dos_lfanew(b);
    &&& dos_stub_valid(b)
    &&& signature_at(b, l)
    &&& coff_header_valid(b.skip(l + 4))
    &&& optional_header_valid(b.skip(l + 24))
}

/// The first defect of the chain in `b`.
pub open spec fn image_error(b: Seq<u8>) -> FormatError {
    let l = dos_lfanew(b);
    if !dos_stub_valid(b) {
        dos_stub_error(b)
    } else if l + 4 > b.len() {
        FormatError::Truncated {
            needed: 4,
            available: if l <= b.len() {
                (b.len() - l) as usize
            } else {
                0
            },
        }
    } else if !signature_at(b, l) {
        FormatError::InvalidSignature
    } else if !coff_header_valid(b.skip(l + 4)) {
        coff_header_error(b.skip(l + 4))
    } else {
        optional_header_error(b.skip(l + 24))
    }
}

/// `img` is the header chain that `b` encodes.
pub open spec fn image_matches(img: PeImage, b: Seq<u8>) -> bool {
    &&& img.lfanew as int == dos_lfanew(b)
    &&& img.coff_header == coff_header_of(b.skip(img.lfanew + 4))
    &&& optional_header_matches(img.optional_header, b.skip(img.lfanew + 24))
}

/// Decodes the header chain of the image in `buffer`: the stub gives the
/// offset of the signature, which the COFF and optional headers follow.
pub fn parse_image(buffer: &[u8]) -> (r: Result<PeImage, FormatError>)
    ensures
        r is Ok <==> image_valid(buffer@),
        r matches Ok(img) ==> image_matches(img, buffer@) && signature_at(
            buffer@,
            img.lfanew as int,
        ),
        r matches Err(e) ==> e == image_error(buffer@),
{
    let ghost b = buffer@;
    let (_, lfanew) = validate_msdos_header(buffer)?;
    let l = lfanew as usize;
    if buffer.len() < 4 || l > buffer.len() - 4 {
        let available = if l <= buffer.len() {
            buffer.len() - l
        } else {
            0
        };
        return Err(FormatError::Truncated { needed: 4, available });
    }
    let at_signature = skip(buffer, l);
    let rest = match tag(at_signature, PE_SIGNATURE.as_slice()) {
        Some(rest) => rest,
        None => {
            assert(at_signature@.take(4) =~= b.subrange(l as int, l + 4));
            return Err(FormatError::InvalidSignature);
        },
    };
    assert(at_signature@.take(4) =~= b.subrange(l as int, l + 4));
    assert(rest@ =~= b.skip(l + 4));
    let (rest, coff_header) = parse_coff_file_header(rest)?;
    assert(rest@ =~= b.skip(l + 24));
    let (_, optional_header) = parse_optional_header(rest)?;
    Ok(PeImage { lfanew, coff_header, optional_header })
}

/// In every image that decodes, `lfanew` as the stub gives it is the
/// position at which the PE signature is found.
pub proof fn lfanew_locates_signature(b: Seq<u8>)
    requires
        image_valid(b),
    ensures
        dos_lfanew(b) + 4 <= b.len(),
        b.subrange(dos_lfanew(b), dos_lfanew(b) + 4) == PE_SIGNATURE@,
{
}

/// Failures of all checks of an image, in the order they run.
pub open spec fn image_errors(img: PeImage) -> Seq<ValidationError> {
    file_header_errors(img.coff_header)
}

/// Runs every check of a decoded image and reports all failures.
pub fn validate_image(image: &PeImage) -> (r: EResult)
    ensures
        outcome_is(r, image_errors(*image)),
{
    validate_file_header(&image.coff_header)
}

/// An image that passed every check of a managed assembly.
#[derive(Debug, Clone, PartialEq, Eq)]
pub struct NetAssembly {
    image: PeImage,
}

/// An image that failed some checks, with all their failures.
#[derive(Debug, Clone, PartialEq, Eq)]
pub struct InvalidNetAssembly {
    pub image: PeImage,
    pub validation_errors: Vec<ValidationError>,
}

impl NetAssembly {
    /// The validated image.
    pub closed spec fn spec_image(&self) -> PeImage {
        self.image
    }

    /// Accepts `image` as a managed assembly if every check passes, and
    /// otherwise hands it back with every failure.
    pub fn from_image(image: PeImage) -> (r: Result<NetAssembly, InvalidNetAssembly>)
        ensures
            r is Ok <==> image_errors(image).len() == 0,
            r matches Ok(a) ==> a.spec_image() == image,
            r matches Err(e) ==> e.image == image && e.validation_errors@ == image_errors(image),
    {
        match validate_image(&image) {
            Ok(_) => Ok(NetAssembly { image }),
            Err(validation_errors) => Err(InvalidNetAssembly { image, validation_errors }),
        }
    }

    /// The validated image.
    pub fn image(&self) -> (r: &PeImage)
        ensures
            *r == self.spec_image(),
    {
        &self.image
    }

    /// The CLI header directory of the image, if it has one.
    pub fn cli_header(&self) -> (r: Option<DataDirectory>)
        ensures
            r == self.spec_image().optional_header.data_directories.spec_cli_header(),
    {
        self.image.optional_header.data_directories.cli_header()
    }
}

} // verus!
