use storyboard::text::cache::{GlyphAtlasMap, GlyphKey};
use storyboard::texture::packed::PackedTexture;
use storyboard::texture::view::SizedTexture2D;

#[test]
fn packed_areas_fit_the_texture() {
    let mut packed = PackedTexture::new(SizedTexture2D::from_texture("tex", 1u8, 64, 32));
    let a = packed.pack(20, 10).unwrap();
    assert_eq!((a.width, a.height), (20, 10));
    assert!(a.x + a.width <= 64 && a.y + a.height <= 32);
    let b = packed.pack(20, 10).unwrap();
    let disjoint = a.x + a.width <= b.x || b.x + b.width <= a.x || a.y + a.height <= b.y || b.y + b.height <= a.y;
    assert!(disjoint);
    assert_eq!(*packed.inner().inner(), "tex");
    assert_eq!(packed.inner().size(), (64, 32));
}

#[test]
fn oversized_or_empty_requests_get_nothing() {
    let mut packed = PackedTexture::new(SizedTexture2D::from_texture((), 0u8, 16, 16));
    assert!(packed.pack(17, 1).is_none());
    assert!(packed.pack(1, 17).is_none());
    assert!(packed.pack(0, 4).is_none());
    assert!(packed.pack(4, 0).is_none());
    assert!(packed.pack(16, 16).is_some());
}

#[test]
fn full_texture_refuses_until_reset() {
    let mut packed = PackedTexture::new(SizedTexture2D::from_texture(7u8, 0u8, 8, 8));
    assert!(packed.pack(8, 8).is_some());
    assert!(packed.pack(1, 1).is_none());
    packed.reset();
    let area = packed.pack(8, 8).unwrap();
    assert_eq!((area.x, area.y), (0, 0));
    assert_eq!(packed.finish().into_inner(), 7u8);
}

#[test]
fn glyph_key_new_keeps_fields() {
    let key = GlyphKey::new(0xdead_beef, 12, 16);
    assert_eq!(key, GlyphKey { font_hash: 0xdead_beef, index: 12, size_px: 16 });
}

#[test]
fn packed_glyph_is_found_again() {
    let mut atlas: GlyphAtlasMap<(), (i32, i32)> = GlyphAtlasMap::init((), 128, 128);
    let key = GlyphKey::new(1, 5, 16);
    assert!(atlas.get_rect(&key).is_none());
    let rect = atlas.pack(key, 10, 12, &[0u8; 120], (1, -2)).unwrap();
    assert_eq!((rect.tex_rect.width, rect.tex_rect.height), (10, 12));
    assert_eq!(rect.glyph_offset, (1, -2));
    let again = atlas.get_rect(&key).unwrap();
    assert_eq!(again.tex_rect, rect.tex_rect);
    assert!(atlas.get_rect(&GlyphKey::new(1, 5, 17)).is_none());
    assert!(atlas.get_rect(&GlyphKey::new(2, 5, 16)).is_none());
}

#[test]
fn empty_glyph_takes_no_room() {
    let mut atlas: GlyphAtlasMap<(), ()> = GlyphAtlasMap::init((), 4, 4);
    let rect = atlas.pack(GlyphKey::new(1, 1, 1), 100, 100, &[], ()).unwrap();
    assert_eq!((rect.tex_rect.x, rect.tex_rect.y, rect.tex_rect.width, rect.tex_rect.height), (0, 0, 0, 0));
    assert!(atlas.pack(GlyphKey::new(1, 2, 1), 5, 1, &[1], ()).is_none());
    assert!(atlas.get_rect(&GlyphKey::new(1, 2, 1)).is_none());
}

#[test]
fn repacking_a_key_replaces_its_place() {
    let mut atlas: GlyphAtlasMap<(), u8> = GlyphAtlasMap::init((), 64, 64);
    let key = GlyphKey::new(9, 9, 9);
    atlas.pack(key, 4, 4, &[1; 16], 1).unwrap();
    let second = atlas.pack(key, 8, 8, &[1; 64], 2).unwrap();
    let found = atlas.get_rect(&key).unwrap();
    assert_eq!(found.glyph_offset, 2);
    assert_eq!(found.tex_rect, second.tex_rect);
}

#[test]
fn atlas_glyphs_never_overlap() {
    let mut atlas: GlyphAtlasMap<(), ()> = GlyphAtlasMap::init((), 64, 64);
    let mut rects = Vec::new();
    for i in 0..40u16 {
        let side = 3 + (i as u32 % 6);
        let data = vec![1u8; (side * side) as usize];
        if let Some(r) = atlas.pack(GlyphKey::new(1, i, 12), side, side, &data, ()) {
            rects.push(r.tex_rect);
        }
    }
    assert!(rects.len() > 10);
    for (i, a) in rects.iter().enumerate() {
        assert!(a.x + a.width <= 64 && a.y + a.height <= 64);
        for b in &rects[i + 1..] {
            let apart = a.x + a.width <= b.x || b.x + b.width <= a.x || a.y + a.height <= b.y || b.y + b.height <= a.y;
            assert!(apart);
        }
    }
}

#[test]
fn rectangles_go_to_the_lowest_fitting_skyline() {
    let mut packed = PackedTexture::new(SizedTexture2D::from_texture((), 0u8, 100, 100));
    let a = packed.pack(10, 10).unwrap();
    assert_eq!((a.x, a.y), (0, 0));
    // beside the first rectangle, on the floor, rather than on top of it
    let b = packed.pack(20, 5).unwrap();
    assert_eq!((b.x, b.y), (10, 0));
    // as wide as nearly all: it rests on the highest skyline it spans
    let c = packed.pack(95, 1).unwrap();
    assert_eq!((c.x, c.y), (0, 10));
    // the columns under it are taken up to its bottom edge: only 89 rows left
    assert!(packed.pack(100, 90).is_none());
    assert!(packed.pack(100, 89).is_some());
}
