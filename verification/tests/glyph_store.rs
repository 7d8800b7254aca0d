use std::cell::Cell;

use storyboard::text::store::{GlyphBrush, GlyphRasterData, GlyphStore, RasterRect, ATLAS_SIZE};

struct Font {
    rasterized: Cell<u32>,
}

impl Font {
    fn new() -> Self {
        Font { rasterized: Cell::new(0) }
    }
}

impl Font {
    fn glyph_for_char(&self, ch: char) -> Option<u32> {
        if ch.is_ascii_alphabetic() {
            Some(ch as u32 - 'A' as u32 + 1)
        } else if ch == '#' {
            Some(5000)
        } else {
            None
        }
    }

    fn raster_glyph(&self, id: u32) -> Option<GlyphRasterData> {
        self.rasterized.set(self.rasterized.get() + 1);
        match id {
            0 => None,
            5000 => Some(GlyphRasterData { raster_rect: RasterRect { x: 0, y: 0, width: 3000, height: 10 }, pixels: vec![0; 30000] }),
            _ => {
                let side = 4 + (id % 5) as i32;
                Some(GlyphRasterData {
                    raster_rect: RasterRect { x: 1, y: -side, width: side, height: side },
                    pixels: vec![id as u8; (side * side) as usize],
                })
            }
        }
    }
}

#[test]
fn store_rasterizes_each_glyph_once() {
    let font = Font::new();
    let mut store = GlyphStore::init(9u8);
    let first = store.get_glyph_tex_info(|id| font.raster_glyph(id), 12).unwrap();
    let again = store.get_glyph_tex_info(|id| font.raster_glyph(id), 12).unwrap();
    assert_eq!(first.info, again.info);
    assert!(again.upload.is_none());
    assert_eq!(font.rasterized.get(), 1);
    assert_eq!(first.info.raster_rect, RasterRect { x: 1, y: -6, width: 6, height: 6 });
    assert_eq!((first.info.pixel_rect.width, first.info.pixel_rect.height), (6, 6));
    assert!(first.info.pixel_rect.x + 6 <= ATLAS_SIZE && first.info.pixel_rect.y + 6 <= ATLAS_SIZE);
    let upload = first.upload.unwrap();
    assert_eq!(upload.rect, first.info.pixel_rect);
    assert_eq!(upload.pixels, vec![12u8; 36]);
    assert_eq!(*store.texture(), 9);
}

#[test]
fn store_refuses_what_it_cannot_rasterize_or_place() {
    let font = Font::new();
    let mut store = GlyphStore::init(0u8);
    assert!(store.get_glyph_tex_info(|id| font.raster_glyph(id), 0).is_none());
    assert!(store.get_glyph_tex_info(|id| font.raster_glyph(id), 5000).is_none());
    // refused glyphs are not remembered: asked again, they are tried again
    assert!(store.get_glyph_tex_info(|id| font.raster_glyph(id), 0).is_none());
    assert_eq!(font.rasterized.get(), 3);
}

#[test]
fn store_raster_places_given_pixels() {
    let mut store = GlyphStore::init(());
    let data = GlyphRasterData { raster_rect: RasterRect { x: -2, y: 3, width: 5, height: 4 }, pixels: vec![7; 20] };
    let placed = store.store_raster(77, data).unwrap();
    assert_eq!(placed.info.raster_rect, RasterRect { x: -2, y: 3, width: 5, height: 4 });
    assert_eq!((placed.info.pixel_rect.width, placed.info.pixel_rect.height), (5, 4));
    let upload = placed.upload.unwrap();
    assert_eq!(upload.rect, placed.info.pixel_rect);
    assert_eq!(upload.pixels.len(), 20);
    let empty = GlyphRasterData { raster_rect: RasterRect { x: 0, y: 0, width: 0, height: 4 }, pixels: vec![] };
    assert!(store.store_raster(78, empty).is_none());
}

#[test]
fn distinct_glyphs_get_disjoint_places() {
    let font = Font::new();
    let mut store = GlyphStore::init(0u8);
    let a = store.get_glyph_tex_info(|id| font.raster_glyph(id), 1).unwrap().info.pixel_rect;
    let b = store.get_glyph_tex_info(|id| font.raster_glyph(id), 2).unwrap().info.pixel_rect;
    let disjoint = a.x + a.width <= b.x || b.x + b.width <= a.x || a.y + a.height <= b.y || b.y + b.height <= a.y;
    assert!(disjoint);
}

#[test]
fn brush_finds_glyphs_by_character() {
    let font = Font::new();
    let mut brush = GlyphBrush::init(0u8);
    let a = brush.get_glyph_tex_info(|ch| font.glyph_for_char(ch), |id| font.raster_glyph(id), 'A').unwrap();
    assert_eq!(a.info.raster_rect.width, 5);
    let again = brush.get_glyph_tex_info(|ch| font.glyph_for_char(ch), |id| font.raster_glyph(id), 'A').unwrap();
    assert_eq!(again.info, a.info);
    assert!(again.upload.is_none());
    assert_eq!(font.rasterized.get(), 1);
    assert!(brush.get_glyph_tex_info(|ch| font.glyph_for_char(ch), |id| font.raster_glyph(id), '1').is_none());
    assert!(brush.get_glyph_tex_info(|ch| font.glyph_for_char(ch), |id| font.raster_glyph(id), '#').is_none());
    assert_eq!(font.rasterized.get(), 2);
    assert_eq!(*brush.texture(), 0);
}
