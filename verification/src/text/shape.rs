//! Shaping text into positioned glyphs, through `rustybuzz`.

use vstd::prelude::*;
use rustybuzz::UnicodeBuffer;
use crate::text::font::face_parse_error;

verus! {

/// One glyph of shaped text: its glyph id, the text offset of its cluster,
/// and its advance and offset, in font units.
#[derive(Debug, Clone, Copy, PartialEq, Eq, Structural)]
pub struct ShapedGlyph {
    pub glyph_id: u32,
    pub cluster: u32,
    pub x_advance: i32,
    pub y_advance: i32,
    pub x_offset: i32,
    pub y_offset: i32,
}

/// The fields of a shaped glyph, in order.
pub open spec fn glyph_fields(g: ShapedGlyph) -> (u32, u32, i32, i32, i32, i32) {
    (g.glyph_id, g.cluster, g.x_advance, g.y_advance, g.x_offset, g.y_offset)
}

/// What `rustybuzz::shape` gives for `text` with face `index` of font
/// `data`, without extra features and with the segment properties guessed
/// from the text: each glyph's id, cluster, advance and offset, in order;
/// `None` when the face cannot be read.
pub uninterp spec fn shaped_glyphs(data: Seq<u8>, index: u32, text: Seq<char>) -> Option<Seq<(u32, u32, i32, i32, i32, i32)>>;

/// `rustybuzz::Face::from_slice` and `rustybuzz::shape`: reads face `index`
/// of `data` and shapes `text` with it. The face is read by `ttf_parser`
/// and, in this version of the crate, always accepted once read, so the
/// result is `None` exactly when `ttf_parser` refuses the bytes. The glyphs
/// are a function of the bytes, the index and the text; an empty text gives
/// no glyph, since the crate shapes only a buffer that holds something.
///
/// Not stated here: the glyphs themselves, which take the crate's whole
/// shaping engine to describe.
#[verifier::external_body]
fn shape_with_face(data: &[u8], index: u32, text: &str) -> (r: Option<Vec<ShapedGlyph>>)
    ensures
        r is None <==> shaped_glyphs(data@, index, text@) is None,
        r is None <==> face_parse_error(data@, index) is Some,
        r matches Some(v) ==> v@.map_values(|g: ShapedGlyph| glyph_fields(g)) == shaped_glyphs(data@, index, text@)->0,
        text@.len() == 0 ==> (r matches Some(v) ==> v@.len() == 0),
{
    let face = rustybuzz::Face::from_slice(data, index)?;
    let mut buffer = UnicodeBuffer::new();
    buffer.push_str(text);
    buffer.guess_segment_properties();
    let glyphs = rustybuzz::shape(&face, &[], buffer);
    let pairs = glyphs.glyph_infos().iter().zip(glyphs.glyph_positions());
    Some(pairs.map(|(i, p)| ShapedGlyph {
        glyph_id: i.glyph_id,
        cluster: i.cluster,
        x_advance: p.x_advance,
        y_advance: p.y_advance,
        x_offset: p.x_offset,
        y_offset: p.y_offset,
    }).collect())
}

/// Shapes `text` with face `index` of font `data`: the glyphs `rustybuzz`
/// gives for it, in order, or `None` when the face cannot be read.
pub fn shape_text(data: &[u8], index: u32, text: &str) -> (r: Option<Vec<ShapedGlyph>>)
    ensures
        r is None <==> shaped_glyphs(data@, index, text@) is None,
        r is None <==> face_parse_error(data@, index) is Some,
        r matches Some(v) ==> v@.map_values(|g: ShapedGlyph| glyph_fields(g)) == shaped_glyphs(data@, index, text@)->0,
        text@.len() == 0 ==> (r matches Some(v) ==> v@.len() == 0),
{
    shape_with_face(data, index, text)
}

} // verus!
