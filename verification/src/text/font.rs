//! Trusted interface to `ttf_parser`'s face parsing.

use vstd::prelude::*;
use ttf_parser::{Face, FaceParsingError};

verus! {

#[verifier::external_type_specification]
#[verifier::external_body]
pub struct ExFace<'a>(Face<'a>);

/// Why font data could not be read as a face.
#[derive(Debug, Clone, Copy, PartialEq, Eq, Structural)]
pub enum FaceError {
    /// A read went out of bounds: the data is malformed.
    MalformedFont,
    /// The data does not start with a known font magic number.
    UnknownMagic,
    /// The face index is past the number of faces in the data.
    FaceIndexOutOfBounds,
    /// The `head` table is missing or malformed.
    NoHeadTable,
    /// The `hhea` table is missing or malformed.
    NoHheaTable,
    /// The `maxp` table is missing or malformed.
    NoMaxpTable,
}

/// What `ttf_parser::Face::from_slice` gives for face `index` of `data`:
/// no error when it parses, otherwise the error it reports.
pub uninterp spec fn face_parse_error(data: Seq<u8>, index: u32) -> Option<FaceError>;

/// The first four bytes of `data`, read big-endian, are a font magic
/// number: TrueType, OpenType or a font collection.
pub open spec fn starts_with_magic(data: Seq<u8>) -> bool {
    data.len() >= 4 && {
        let m = data[0] as int * 0x100_0000 + data[1] as int * 0x1_0000 + data[2] as int * 0x100
            + data[3] as int;
        m == 0x0001_0000 || m == 0x7472_7565 || m == 0x4F54_544F || m == 0x7474_6366
    }
}

/// `ttf_parser::Face::from_slice`: face `index` of `data`, or why it cannot
/// be read. The outcome depends on the bytes and the index alone; the crate
/// first reads a four-byte magic number and reports `UnknownMagic` when
/// there is none.
#[verifier::external_body]
fn parse_face(data: &[u8], index: u32) -> (r: Result<Face<'_>, FaceError>)
    ensures
        r is Ok <==> face_parse_error(data@, index) is None,
        r matches Err(e) ==> face_parse_error(data@, index) == Some(e),
        !starts_with_magic(data@) ==> (r matches Err(FaceError::UnknownMagic)),
{
    match Face::from_slice(data, index) {
        Ok(face) => Ok(face),
        Err(FaceParsingError::MalformedFont) => Err(FaceError::MalformedFont),
        Err(FaceParsingError::UnknownMagic) => Err(FaceError::UnknownMagic),
        Err(FaceParsingError::FaceIndexOutOfBounds) => Err(FaceError::FaceIndexOutOfBounds),
        Err(FaceParsingError::NoHeadTable) => Err(FaceError::NoHeadTable),
        Err(FaceParsingError::NoHheaTable) => Err(FaceError::NoHheaTable),
        Err(FaceParsingError::NoMaxpTable) => Err(FaceError::NoMaxpTable),
    }
}

/// Reads face `index` of font `data`: the face when it parses, otherwise
/// the error the parser reports for these bytes and this index.
pub fn load_face<'a>(data: &'a [u8], index: u32) -> (r: Result<Face<'a>, FaceError>)
    ensures
        r is Ok <==> face_parse_error(data@, index) is None,
        r matches Err(e) ==> face_parse_error(data@, index) == Some(e),
        !starts_with_magic(data@) ==> (r matches Err(FaceError::UnknownMagic)),
{
    parse_face(data, index)
}

} // verus!
