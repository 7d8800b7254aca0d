use storyboard::text::font::load_face;
use storyboard::text::shape::shape_text;

fn put_u16(data: &mut Vec<u8>, at: usize, value: u16) {
    data[at..at + 2].copy_from_slice(&value.to_be_bytes());
}

fn put_u32(data: &mut Vec<u8>, at: usize, value: u32) {
    data[at..at + 4].copy_from_slice(&value.to_be_bytes());
}

/// A TrueType font of one glyph with only the tables a face needs: `head`,
/// `hhea` and `maxp`, and no character map.
fn bare_font() -> Vec<u8> {
    let mut data = vec![0u8; 160];
    put_u32(&mut data, 0, 0x0001_0000);
    put_u16(&mut data, 4, 3);
    let tables: [(&[u8; 4], usize, usize); 3] = [(b"head", 60, 54), (b"hhea", 116, 36), (b"maxp", 152, 6)];
    for (k, (tag, offset, length)) in tables.iter().enumerate() {
        let record = 12 + 16 * k;
        data[record..record + 4].copy_from_slice(&tag[..]);
        put_u32(&mut data, record + 8, *offset as u32);
        put_u32(&mut data, record + 12, *length as u32);
    }
    put_u16(&mut data, 60 + 18, 1000);
    put_u16(&mut data, 116 + 4, 800);
    put_u16(&mut data, 116 + 6, (-200i16) as u16);
    put_u32(&mut data, 152, 0x0000_5000);
    put_u16(&mut data, 156, 1);
    data
}

#[test]
fn bare_font_is_a_face() {
    assert!(load_face(&bare_font(), 0).is_ok());
}

#[test]
fn unreadable_font_shapes_nothing() {
    assert!(shape_text(b"not a font", 0, "ab").is_none());
    assert!(shape_text(&[], 0, "").is_none());
}

#[test]
fn empty_text_has_no_glyphs() {
    assert_eq!(shape_text(&bare_font(), 0, "").unwrap().len(), 0);
}

#[test]
fn each_character_gets_a_glyph_in_order() {
    let glyphs = shape_text(&bare_font(), 0, "abc").unwrap();
    assert_eq!(glyphs.len(), 3);
    assert!(glyphs.iter().all(|g| g.glyph_id == 0));
    assert_eq!(glyphs.iter().map(|g| g.cluster).collect::<Vec<_>>(), vec![0, 1, 2]);
}
