use std::cell::Cell;

use storyboard::text::cache::{AtlasRect, GlyphBatch, GlyphCache, GlyphData};

/// A stand-in for the GPU and the rasterizer: pages are numbered, views are
/// the page number, and glyph `i` is a `side(i)` square of bytes `i`.
struct FakeSource {
    pages_created: Cell<u32>,
    rasterized: Cell<u32>,
    fixed_side: Option<u32>,
}

impl FakeSource {
    fn new(fixed_side: Option<u32>) -> Self {
        FakeSource { pages_created: Cell::new(0), rasterized: Cell::new(0), fixed_side }
    }

    fn side(&self, index: u16) -> u32 {
        match self.fixed_side {
            Some(side) => side,
            None => 4 + (index as u32 % 7),
        }
    }
}

impl FakeSource {
    fn rasterize_glyph(&self, index: u16, _size_px: u32) -> Option<GlyphData<(i32, i32)>> {
        self.rasterized.set(self.rasterized.get() + 1);
        if index == 0 || index == 0xffff {
            return None;
        }
        let side = self.side(index);
        Some(GlyphData { origin: (index as i32, -1), width: side, height: side, data: vec![index as u8; (side * side) as usize] })
    }

    fn rasterize_image(&self, index: u16, _size_px: u32) -> Option<GlyphData<(i32, i32)>> {
        if index == 0xffff {
            Some(GlyphData { origin: (0, 0), width: 2, height: 2, data: vec![7; 16] })
        } else {
            None
        }
    }

    fn create_page(&self, _colored: bool) -> u32 {
        let id = self.pages_created.get();
        self.pages_created.set(id + 1);
        id
    }

}

fn run_batch(
    cache: &mut GlyphCache<u32, (i32, i32)>,
    source: &FakeSource,
    font_hash: u64,
    indices: &[u16],
    cursor: &mut usize,
    size_px: u32,
) -> Option<GlyphBatch<(i32, i32)>> {
    cache.batch(
        |i, px| source.rasterize_glyph(i, px),
        |i, px| source.rasterize_image(i, px),
        |c| source.create_page(c),
        font_hash,
        indices,
        cursor,
        size_px,
    )
}

fn batch_all(cache: &mut GlyphCache<u32, (i32, i32)>, source: &FakeSource, indices: &[u16]) -> Vec<(u32, Vec<AtlasRect>, usize)> {
    let mut cursor = 0usize;
    let mut out = Vec::new();
    while let Some(batch) = run_batch(cache, source, 42, indices, &mut cursor, 16) {
        let texture = *cache.page_texture(batch.colored, batch.page);
        for upload in &batch.uploads {
            assert!(batch.rects.iter().any(|r| r.tex_rect == upload.rect));
            assert_eq!(upload.pixels.len(), (upload.rect.width * upload.rect.height) as usize);
        }
        out.push((texture, batch.rects.iter().map(|r| r.tex_rect).collect(), batch.uploads.len()));
    }
    out
}

#[test]
fn cache_layout_test() {
    let indices: Vec<u16> = "Hello world".chars().map(|c| c as u16).collect();
    let source = FakeSource::new(None);
    let mut cache = GlyphCache::new();
    let mut cursor = 0usize;
    let mut total = 0;
    while let Some(batch) = run_batch(&mut cache, &source, 7, &indices, &mut cursor, 16) {
        total += batch.rects.len();
    }
    assert_eq!(total, indices.len());
    assert_eq!(cursor, indices.len());
    assert_eq!(source.pages_created.get(), 1);
}

#[test]
fn repeated_glyphs_are_rasterized_once() {
    let indices: Vec<u16> = vec![3, 5, 3, 3, 5];
    let source = FakeSource::new(None);
    let mut cache = GlyphCache::new();
    let batches = batch_all(&mut cache, &source, &indices);
    assert_eq!(batches.len(), 1);
    let rects = &batches[0].1;
    assert_eq!(rects.len(), 5);
    assert_eq!(rects[0], rects[2]);
    assert_eq!(rects[0], rects[3]);
    assert_eq!(rects[1], rects[4]);
    assert_ne!(rects[0], rects[1]);
    assert_eq!(source.rasterized.get(), 2);
    assert_eq!(batches[0].2, 2);

    let again = batch_all(&mut cache, &source, &indices);
    assert_eq!(again.len(), 1);
    assert_eq!(again[0].0, batches[0].0);
    assert_eq!(again[0].1, batches[0].1);
    assert_eq!(again[0].2, 0);
    assert_eq!(source.rasterized.get(), 2);
}

#[test]
fn glyph_offsets_come_from_the_rasterizer() {
    let source = FakeSource::new(None);
    let mut cache = GlyphCache::new();
    let mut cursor = 0usize;
    let batch = run_batch(&mut cache, &source, 1, &[9, 10], &mut cursor, 12).unwrap();
    assert_eq!(batch.rects[0].glyph_offset, (9, -1));
    assert_eq!(batch.rects[1].glyph_offset, (10, -1));
    assert_eq!((batch.rects[0].tex_rect.width, batch.rects[0].tex_rect.height), (6, 6));
    assert_eq!((batch.rects[1].tex_rect.width, batch.rects[1].tex_rect.height), (7, 7));
}

#[test]
fn missing_glyph_ends_the_batch() {
    let source = FakeSource::new(None);
    let mut cache = GlyphCache::new();
    let indices = [5u16, 0, 6];
    let mut cursor = 0usize;
    let first = run_batch(&mut cache, &source, 1, &indices, &mut cursor, 16).unwrap();
    assert_eq!(first.rects.len(), 1);
    assert_eq!(cursor, 1);
    assert!(run_batch(&mut cache, &source, 1, &indices, &mut cursor, 16).is_none());
    assert_eq!(cursor, 1);
}

#[test]
fn color_images_are_batched_when_no_outline_exists() {
    let source = FakeSource::new(None);
    let mut cache = GlyphCache::new();
    let indices = [0xffffu16];
    let mut cursor = 0usize;
    let batch = run_batch(&mut cache, &source, 1, &indices, &mut cursor, 16).unwrap();
    assert_eq!(batch.rects.len(), 1);
    assert_eq!((batch.rects[0].tex_rect.width, batch.rects[0].tex_rect.height), (2, 2));
    assert_eq!(cursor, 1);
    // one outline page was opened while looking, then one image page
    assert_eq!(source.pages_created.get(), 2);
}

#[test]
fn full_page_opens_a_new_one() {
    let source = FakeSource::new(Some(600));
    let mut cache = GlyphCache::new();
    let batches = batch_all(&mut cache, &source, &[1, 2]);
    assert_eq!(batches.len(), 2);
    assert_eq!(batches[0].0, 0);
    assert_eq!(batches[1].0, 1);
    assert_eq!(source.pages_created.get(), 2);
}

#[test]
fn oldest_page_is_dropped_past_the_limit() {
    let source = FakeSource::new(Some(600));
    let mut cache = GlyphCache::new();
    let indices: Vec<u16> = (1..=9).collect();
    let batches = batch_all(&mut cache, &source, &indices);
    assert_eq!(batches.len(), 9);
    assert_eq!(source.pages_created.get(), 9);
    // glyph 1 lived on the first page, which was dropped: it gets a new page
    let again = batch_all(&mut cache, &source, &[1]);
    assert_eq!(again.len(), 1);
    assert_eq!(again[0].0, 9);
    assert_eq!(source.pages_created.get(), 10);
    // glyph 9 is still on its page
    let cached = batch_all(&mut cache, &source, &[9]);
    assert_eq!(cached.len(), 1);
    assert_eq!(cached[0].0, 8);
    assert_eq!(source.pages_created.get(), 10);
}

#[test]
fn empty_input_batches_nothing() {
    let source = FakeSource::new(None);
    let mut cache: GlyphCache<u32, (i32, i32)> = GlyphCache::new();
    let mut cursor = 0usize;
    assert!(run_batch(&mut cache, &source, 1, &[], &mut cursor, 16).is_none());
    assert_eq!(cursor, 0);
    assert_eq!(source.pages_created.get(), 0);
}

#[test]
fn glyph_larger_than_a_page_is_refused() {
    let source = FakeSource::new(Some(2000));
    let mut cache: GlyphCache<u32, (i32, i32)> = GlyphCache::new();
    let mut cursor = 0usize;
    assert!(run_batch(&mut cache, &source, 1, &[4], &mut cursor, 16).is_none());
    assert_eq!(cursor, 0);
    // one outline page and one image page were opened while trying
    assert_eq!(source.pages_created.get(), 2);
}

#[test]
fn uploads_carry_the_rasterized_pixels_of_new_glyphs_only() {
    let source = FakeSource::new(None);
    let mut cache = GlyphCache::new();
    let mut cursor = 0usize;
    let batch = run_batch(&mut cache, &source, 3, &[9, 10, 9], &mut cursor, 12).unwrap();
    assert_eq!(batch.uploads.len(), 2);
    assert_eq!(batch.uploads[0].rect, batch.rects[0].tex_rect);
    assert_eq!(batch.uploads[0].pixels, vec![9u8; 36]);
    assert_eq!(batch.uploads[1].rect, batch.rects[1].tex_rect);
    assert_eq!(batch.uploads[1].pixels, vec![10u8; 49]);
    let mut cursor = 0usize;
    let again = run_batch(&mut cache, &source, 3, &[10, 11], &mut cursor, 12).unwrap();
    assert_eq!(again.uploads.len(), 1);
    assert_eq!(again.uploads[0].rect, again.rects[1].tex_rect);
    assert_eq!(again.uploads[0].pixels, vec![11u8; 64]);
}

#[test]
fn glyph_without_outline_or_image_opens_pages_only_once() {
    let source = FakeSource::new(None);
    let mut cache: GlyphCache<u32, (i32, i32)> = GlyphCache::new();
    let mut cursor = 0usize;
    assert!(run_batch(&mut cache, &source, 1, &[0, 5], &mut cursor, 16).is_none());
    assert_eq!(cursor, 0);
    assert_eq!(source.pages_created.get(), 2);
    assert!(run_batch(&mut cache, &source, 1, &[0, 5], &mut cursor, 16).is_none());
    assert_eq!(cursor, 0);
    assert_eq!(source.pages_created.get(), 2);
}
