use vstd::prelude::*;
use std::collections::HashMap;
use rect_packer::DensePacker;
use crate::packer::{
    cells, packer_bounds, packer_has_room, packer_new, packer_occupied, packer_pack, packer_places_at, packer_wf,
};
use crate::text::store::GlyphUpload;

verus! {

broadcast use vstd::std_specs::hash::group_hash_axioms;

/// Identifies a rasterized glyph: the font it comes from, its index in the
/// font and its pixel size.
#[derive(Debug, Clone, Copy, PartialEq, Eq, Hash)]
pub struct GlyphKey {
    pub font_hash: u64,
    pub index: u16,
    pub size_px: u32,
}

/// The key packed into one integer, field by field, without overlap.
pub open spec fn key_code(key: GlyphKey) -> u128 {
    (key.font_hash as int * 0x1_0000_0000_0000 + key.index as int * 0x1_0000_0000
        + key.size_px as int) as u128
}

/// Distinct keys have distinct codes.
pub proof fn lemma_key_code_injective(a: GlyphKey, b: GlyphKey)
    requires
        key_code(a) == key_code(b),
    ensures
        a == b,
{
    let ca = a.font_hash as int * 0x1_0000_0000_0000 + a.index as int * 0x1_0000_0000 + a.size_px as int;
    let cb = b.font_hash as int * 0x1_0000_0000_0000 + b.index as int * 0x1_0000_0000 + b.size_px as int;
    assert(ca < 0x1_0000_0000_0000_0000_0000_0000_0000_0000);
    assert(cb < 0x1_0000_0000_0000_0000_0000_0000_0000_0000);
    assert(ca == cb);
}

impl GlyphKey {
    /// A key for glyph `index` of the font with hash `font_hash` at
    /// `size_px` pixels.
    pub fn new(font_hash: u64, index: u16, size_px: u32) -> (r: Self)
        ensures
            r.font_hash == font_hash,
            r.index == index,
            r.size_px == size_px,
    {
        Self { font_hash, index, size_px }
    }

    fn code(&self) -> (r: u128)
        ensures
            r == key_code(*self),
    {
        self.font_hash as u128 * 0x1_0000_0000_0000 + self.index as u128 * 0x1_0000_0000
            + self.size_px as u128
    }
}

/// A rectangle in an atlas texture, in physical pixels.
#[derive(Debug, Clone, Copy, PartialEq, Eq, Structural, Default)]
pub struct AtlasRect {
    pub x: u32,
    pub y: u32,
    pub width: u32,
    pub height: u32,
}

/// Where a glyph's pixels are in an atlas, and the offset `O` to draw them
/// at relative to the pen position.
#[derive(Debug, Clone, Copy, Default)]
pub struct GlyphTextureRect<O> {
    pub glyph_offset: O,
    pub tex_rect: AtlasRect,
}

/// One atlas texture `T` with the glyphs placed in it, each found again by
/// its key.
pub struct GlyphAtlasMap<T, O> {
    texture: T,
    packer: DensePacker,
    width: u32,
    height: u32,
    map: HashMap<u128, GlyphTextureRect<O>>,
}

/// Width and height of the packer behind an atlas of the given texture
/// size: the texture side read as an `i32`, and zero when it does not fit.
pub open spec fn packer_side(side: u32) -> int {
    if side <= i32::MAX {
        side as int
    } else {
        0
    }
}

impl<T, O: Copy> GlyphAtlasMap<T, O> {
    /// The glyphs in the atlas, by key code.
    pub closed spec fn entries(self) -> Map<u128, GlyphTextureRect<O>> {
        self.map@
    }

    /// The atlas texture.
    pub closed spec fn texture(self) -> T {
        self.texture
    }

    /// Width and height of the area glyphs are placed in.
    pub closed spec fn bounds(self) -> (int, int) {
        packer_bounds(self.packer)
    }

    /// The pixels of the atlas already taken.
    pub open spec fn occupied(self) -> Set<(int, int)> {
        packer_occupied(self.packer())
    }

    /// The packer that hands out the atlas's area.
    pub closed spec fn packer(self) -> DensePacker {
        self.packer
    }

    pub closed spec fn wf(self) -> bool {
        &&& packer_bounds(self.packer) == (packer_side(self.width), packer_side(self.height))
        &&& packer_wf(self.packer)
        &&& forall|c: u128| #[trigger] self.map@.contains_key(c) ==> rect_cells(self.map@[c].tex_rect).subset_of(
            packer_occupied(self.packer),
        ) && rect_fits(self.map@[c].tex_rect, packer_bounds(self.packer))
        &&& forall|c1: u128, c2: u128|
            #[trigger] self.map@.contains_key(c1) && #[trigger] self.map@.contains_key(c2) && c1 != c2
                ==> rect_cells(self.map@[c1].tex_rect).disjoint(rect_cells(self.map@[c2].tex_rect))
    }

    /// The place of the glyph with the given key, if it is in the atlas.
    pub open spec fn lookup(self, key: GlyphKey) -> Option<GlyphTextureRect<O>> {
        if self.entries().contains_key(key_code(key)) {
            Some(self.entries()[key_code(key)])
        } else {
            None
        }
    }

    /// An empty atlas over a `width` by `height` texture.
    pub fn init(texture: T, width: u32, height: u32) -> (r: Self)
        ensures
            r.wf(),
            r.entries() == Map::<u128, GlyphTextureRect<O>>::empty(),
            r.occupied() == Set::<(int, int)>::empty(),
            r.texture() == texture,
            r.bounds() == (packer_side(width), packer_side(height)),
    {
        let w: i32 = if width <= i32::MAX as u32 { width as i32 } else { 0 };
        let h: i32 = if height <= i32::MAX as u32 { height as i32 } else { 0 };
        let packer = packer_new(w, h);
        GlyphAtlasMap { texture, packer, width, height, map: HashMap::new() }
    }

    /// The atlas texture.
    pub fn texture_ref(&self) -> (r: &T)
        ensures
            *r == self.texture(),
    {
        &self.texture
    }

    /// The place of the glyph with the given key, if it is in the atlas.
    pub fn get_rect(&self, key: &GlyphKey) -> (r: Option<GlyphTextureRect<O>>)
        ensures
            r == self.lookup(*key),
    {
        match self.map.get(&key.code()) {
            Some(rect) => Some(*rect),
            None => None,
        }
    }

    /// Places a `width` by `height` glyph under `key`. A glyph without pixels
    /// takes no room and gets an empty rectangle at the origin; otherwise it
    /// goes where the packer puts it, or `None`, changing nothing, when the
    /// atlas has no room for it. The caller writes the pixels into the
    /// rectangle it gets.
    pub fn pack(
        &mut self,
        key: GlyphKey,
        width: u32,
        height: u32,
        data: &[u8],
        glyph_offset: O,
    ) -> (r: Option<GlyphTextureRect<O>>)
        requires
            old(self).wf(),
            width <= old(self).bounds().0 ==> old(self).bounds().0 + width <= i32::MAX,
            height <= old(self).bounds().1 ==> old(self).bounds().1 + height <= i32::MAX,
        ensures
            final(self).wf(),
            final(self).texture() == old(self).texture(),
            final(self).bounds() == old(self).bounds(),
            data@.len() == 0 ==> r == Some(GlyphTextureRect { glyph_offset, tex_rect: AtlasRect::default_spec() }),
            data@.len() != 0 && (width == 0 || height == 0 || width > old(self).bounds().0 || height > old(self).bounds().1)
                ==> r is None,
            old(self).occupied() == Set::<(int, int)>::empty() && data@.len() != 0 && 0 < width <= old(
                self,
            ).bounds().0 && 0 < height <= old(self).bounds().1 ==> r is Some,
            old(self).occupied().subset_of(final(self).occupied()),
            r is None ==> *final(self) == *old(self),
            data@.len() != 0 && 0 < width <= old(self).bounds().0 && 0 < height <= old(self).bounds().1 ==> (r is Some
                <==> packer_has_room(old(self).packer(), width as int, height as int)),
            data@.len() == 0 ==> final(self).packer() == old(self).packer(),
            r matches Some(entry) ==> (data@.len() != 0 ==> {
                &&& packer_places_at(
                    old(self).packer(),
                    width as int,
                    height as int,
                    entry.tex_rect.x as int,
                    entry.tex_rect.y as int,
                )
                &&& final(self).occupied() == old(self).occupied().union(
                    cells(entry.tex_rect.x as int, 0, width as int, entry.tex_rect.y + height),
                )
            }),
            r matches Some(entry) ==> {
                &&& final(self).entries() == old(self).entries().insert(key_code(key), entry)
                &&& rect_cells(entry.tex_rect).disjoint(old(self).occupied())
                &&& rect_fits(entry.tex_rect, old(self).bounds())
                &&& entry.glyph_offset == glyph_offset
                &&& data@.len() != 0 ==> {
                    &&& entry.tex_rect.width == width
                    &&& entry.tex_rect.height == height
                    &&& entry.tex_rect.x + width <= old(self).bounds().0
                    &&& entry.tex_rect.y + height <= old(self).bounds().1
                }
            },
    {
        let ghost occ_before = packer_occupied(self.packer);
        let tex_rect = if data.len() != 0 {
            let bounds_w: u32 = if self.width <= i32::MAX as u32 { self.width } else { 0 };
            let bounds_h: u32 = if self.height <= i32::MAX as u32 { self.height } else { 0 };
            if width > bounds_w || height > bounds_h {
                return None;
            }
            match packer_pack(&mut self.packer, width as i32, height as i32) {
                Some(rect) => AtlasRect { x: rect.x as u32, y: rect.y as u32, width, height },
                None => return None,
            }
        } else {
            AtlasRect { x: 0, y: 0, width: 0, height: 0 }
        };
        let entry = GlyphTextureRect { glyph_offset, tex_rect };
        let code = key.code();
        let ghost before = self.map@;
        proof {
            assert(occ_before.subset_of(packer_occupied(self.packer)));
            assert(rect_cells(tex_rect).disjoint(occ_before) && rect_cells(tex_rect).subset_of(
                packer_occupied(self.packer),
            )) by {
                if data@.len() == 0 {
                    assert(rect_cells(tex_rect) =~= Set::<(int, int)>::empty());
                }
            }
        }
        self.map.insert(code, entry);
        proof {
            assert forall|c: u128| #[trigger] self.map@.contains_key(c) implies rect_cells(
                self.map@[c].tex_rect,
            ).subset_of(packer_occupied(self.packer)) && rect_fits(self.map@[c].tex_rect, packer_bounds(self.packer)) by {
                if c != code {
                    assert(before.contains_key(c));
                }
            }
            assert forall|c1: u128, c2: u128|
                #[trigger] self.map@.contains_key(c1) && #[trigger] self.map@.contains_key(c2) && c1 != c2 implies rect_cells(
                self.map@[c1].tex_rect,
            ).disjoint(rect_cells(self.map@[c2].tex_rect)) by {
                if c1 != code && c2 != code {
                    assert(before.contains_key(c1) && before.contains_key(c2));
                } else if c1 == code {
                    assert(before.contains_key(c2));
                } else {
                    assert(before.contains_key(c1));
                }
            }
        }
        Some(entry)
    }
}

/// `r` lies inside an area of the given width and height.
pub open spec fn rect_fits(r: AtlasRect, bounds: (int, int)) -> bool {
    r.x + r.width <= bounds.0 && r.y + r.height <= bounds.1
}

/// Every glyph of an atlas lies inside it.
pub proof fn law_atlas_glyphs_fit<T, O: Copy>(atlas: GlyphAtlasMap<T, O>, key: GlyphKey)
    requires
        atlas.wf(),
        atlas.lookup(key) is Some,
    ensures
        rect_fits(atlas.lookup(key)->0.tex_rect, atlas.bounds()),
{
    assert(atlas.map@.contains_key(key_code(key)));
}

/// The pixels of an atlas rectangle.
pub open spec fn rect_cells(r: AtlasRect) -> Set<(int, int)> {
    cells(r.x as int, r.y as int, r.width as int, r.height as int)
}

/// Two glyphs of one atlas never share a pixel.
pub proof fn law_atlas_glyphs_never_overlap<T, O: Copy>(atlas: GlyphAtlasMap<T, O>, a: GlyphKey, b: GlyphKey)
    requires
        atlas.wf(),
        a != b,
        atlas.lookup(a) is Some,
        atlas.lookup(b) is Some,
    ensures
        rect_cells(atlas.lookup(a)->0.tex_rect).disjoint(rect_cells(atlas.lookup(b)->0.tex_rect)),
{
    if key_code(a) == key_code(b) {
        lemma_key_code_injective(a, b);
    }
    assert(atlas.map@.contains_key(key_code(a)) && atlas.map@.contains_key(key_code(b)));
}

/// After `pack` placed `key` at `entry`, looking `key` up gives `entry`,
/// and looking up any other key gives what it gave before.
pub proof fn law_pack_then_lookup<T, O: Copy>(
    before: GlyphAtlasMap<T, O>,
    after: GlyphAtlasMap<T, O>,
    key: GlyphKey,
    entry: GlyphTextureRect<O>,
    other: GlyphKey,
)
    requires
        after.entries() == before.entries().insert(key_code(key), entry),
    ensures
        after.lookup(key) == Some(entry),
        other != key ==> after.lookup(other) == before.lookup(other),
{
    if other != key && key_code(other) == key_code(key) {
        lemma_key_code_injective(other, key);
    }
}

/// A new atlas holds no glyph.
pub proof fn law_new_atlas_is_empty<T, O: Copy>(atlas: GlyphAtlasMap<T, O>, key: GlyphKey)
    requires
        atlas.entries() == Map::<u128, GlyphTextureRect<O>>::empty(),
    ensures
        atlas.lookup(key) is None,
{
}

impl AtlasRect {
    /// The empty rectangle at the origin.
    pub open spec fn default_spec() -> AtlasRect {
        AtlasRect { x: 0, y: 0, width: 0, height: 0 }
    }
}

} // verus!

verus! {

/// Pixels of one rasterized glyph: its offset `O` from the pen position, its
/// size, and its bytes.
#[derive(Debug, Clone, Default)]
pub struct GlyphData<O> {
    pub origin: O,
    pub width: u32,
    pub height: u32,
    pub data: Vec<u8>,
}

/// Glyphs that share one atlas page, in the order they were asked for: the
/// page (an image page when `colored`), the glyphs' places in it, and the
/// pixels of the glyphs placed for this batch, which the caller writes to
/// the page's texture.
#[derive(Debug)]
pub struct GlyphBatch<O> {
    pub colored: bool,
    pub page: usize,
    pub rects: Vec<GlyphTextureRect<O>>,
    pub uploads: Vec<GlyphUpload>,
}

/// Every answer `raster` can give at `size_px` is a glyph with pixels that
/// fits an empty page.
pub open spec fn rasters_fit_page<O, R: Fn(u16, u32) -> Option<GlyphData<O>>>(raster: R, size_px: u32) -> bool {
    forall|index: u16, d: Option<GlyphData<O>>|
        #[trigger] raster.ensures((index, size_px), d) ==> (d matches Some(g) && 0 < g.width <= 1024 && 0
            < g.height <= 1024)
}

/// A page nothing was placed in yet.
pub open spec fn page_fresh<T, O: Copy>(page: GlyphAtlasMap<T, O>) -> bool {
    page.entries() == Map::<u128, GlyphTextureRect<O>>::empty() && page.occupied() == Set::<(int, int)>::empty()
}

/// The upload goes to the place of one of the glyphs.
pub open spec fn upload_among<O>(rects: Seq<GlyphTextureRect<O>>, upload: GlyphUpload) -> bool {
    exists|i: int| 0 <= i < rects.len() && #[trigger] rects[i].tex_rect == upload.rect
}

/// Every upload goes to the place of one of the glyphs.
pub open spec fn uploads_among<O>(rects: Seq<GlyphTextureRect<O>>, uploads: Seq<GlyphUpload>) -> bool {
    forall|j: int| 0 <= j < uploads.len() ==> upload_among(rects, #[trigger] uploads[j])
}

proof fn lemma_upload_among_push<O>(rects: Seq<GlyphTextureRect<O>>, rect: GlyphTextureRect<O>, upload: GlyphUpload)
    requires
        upload_among(rects, upload),
    ensures
        upload_among(rects.push(rect), upload),
{
    let i = choose|i: int| 0 <= i < rects.len() && #[trigger] rects[i].tex_rect == upload.rect;
    assert(rects.push(rect)[i] == rects[i]);
}

proof fn lemma_uploads_push_rect<O>(rects: Seq<GlyphTextureRect<O>>, uploads: Seq<GlyphUpload>, rect: GlyphTextureRect<O>)
    requires
        uploads_among(rects, uploads),
    ensures
        uploads_among(rects.push(rect), uploads),
{
    assert forall|j: int| 0 <= j < uploads.len() implies upload_among(rects.push(rect), #[trigger] uploads[j]) by {
        lemma_upload_among_push(rects, rect, uploads[j]);
    }
}

proof fn lemma_uploads_push_both<O>(
    rects: Seq<GlyphTextureRect<O>>,
    uploads: Seq<GlyphUpload>,
    rect: GlyphTextureRect<O>,
    upload: GlyphUpload,
)
    requires
        uploads_among(rects, uploads),
        upload.rect == rect.tex_rect,
    ensures
        uploads_among(rects.push(rect), uploads.push(upload)),
{
    let rs = rects.push(rect);
    let us = uploads.push(upload);
    assert forall|j: int| 0 <= j < us.len() implies upload_among(rs, #[trigger] us[j]) by {
        if j < uploads.len() {
            assert(us[j] == uploads[j]);
            lemma_upload_among_push(rects, rect, uploads[j]);
        } else {
            assert(rs[rects.len() as int] == rect);
        }
    }
}

/// The key of glyph `index` of the font with hash `font_hash` at `size_px`.
pub open spec fn spec_key(font_hash: u64, index: u16, size_px: u32) -> GlyphKey {
    GlyphKey { font_hash, index, size_px }
}

/// `page` holds `rect` under key code `code`.
pub open spec fn page_holds<T, O: Copy>(page: GlyphAtlasMap<T, O>, code: u128, rect: GlyphTextureRect<O>) -> bool {
    page.entries().contains_key(code) && page.entries()[code] == rect
}

/// The glyphs `indices[start..start + rects.len()]` are all in `page`, at
/// the places `rects` lists.
pub open spec fn found_in_page<T, O: Copy>(
    page: GlyphAtlasMap<T, O>,
    font_hash: u64,
    size_px: u32,
    indices: Seq<u16>,
    start: int,
    rects: Seq<GlyphTextureRect<O>>,
) -> bool {
    forall|i: int|
        #![trigger rects[i]]
        0 <= i < rects.len() ==> page_holds(
            page,
            key_code(spec_key(font_hash, indices[start + i], size_px)),
            rects[i],
        )
}

proof fn lemma_found_in_page_push<T, O: Copy>(
    old_page: GlyphAtlasMap<T, O>,
    new_page: GlyphAtlasMap<T, O>,
    font_hash: u64,
    size_px: u32,
    indices: Seq<u16>,
    start: int,
    rects: Seq<GlyphTextureRect<O>>,
    rect: GlyphTextureRect<O>,
)
    requires
        found_in_page(old_page, font_hash, size_px, indices, start, rects),
        0 <= start,
        start + rects.len() < indices.len(),
        new_page.entries() == old_page.entries() || (!old_page.entries().contains_key(
            key_code(spec_key(font_hash, indices[start + rects.len()], size_px)),
        ) && new_page.entries() == old_page.entries().insert(
            key_code(spec_key(font_hash, indices[start + rects.len()], size_px)),
            rect,
        )),
        page_holds(new_page, key_code(spec_key(font_hash, indices[start + rects.len()], size_px)), rect),
    ensures
        found_in_page(new_page, font_hash, size_px, indices, start, rects.push(rect)),
{
    let rs = rects.push(rect);
    assert forall|i: int| #![trigger rs[i]] 0 <= i < rs.len() implies page_holds(
        new_page,
        key_code(spec_key(font_hash, indices[start + i], size_px)),
        rs[i],
    ) by {
        if i < rects.len() {
            assert(rs[i] == rects[i]);
            assert(page_holds(old_page, key_code(spec_key(font_hash, indices[start + i], size_px)), rects[i]));
        } else {
            assert(rs[i] == rect);
        }
    }
}

/// The key code of glyph `i` of a batch that starts at `indices[start]`.
pub open spec fn glyph_code(font_hash: u64, size_px: u32, indices: Seq<u16>, start: int, i: int) -> u128 {
    key_code(spec_key(font_hash, indices[start + i], size_px))
}

/// What `raster` answered for glyph `index` at `size_px` is the glyph placed
/// at `rect` (its offset; its size where it has pixels, and the empty
/// rectangle where it has none), and `upload` carries its pixels there.
pub open spec fn upload_made<O, R: Fn(u16, u32) -> Option<GlyphData<O>>>(
    raster: R,
    size_px: u32,
    index: u16,
    rect: GlyphTextureRect<O>,
    upload: GlyphUpload,
) -> bool {
    exists|d: GlyphData<O>|
        #[trigger] raster.ensures((index, size_px), Some(d)) && {
            &&& upload.rect == rect.tex_rect
            &&& upload.pixels@ == d.data@
            &&& rect.glyph_offset == d.origin
            &&& d.data@.len() != 0 ==> rect.tex_rect.width == d.width && rect.tex_rect.height == d.height
            &&& d.data@.len() == 0 ==> rect.tex_rect == AtlasRect::default_spec()
        }
}

/// Glyph `i` of a batch: where `before`, the page as it was before the
/// batch, held it, the batch gives that place; otherwise one of the uploads
/// carries what `raster` made of it to its place.
pub open spec fn glyph_served<T, O: Copy, R: Fn(u16, u32) -> Option<GlyphData<O>>>(
    before: GlyphAtlasMap<T, O>,
    raster: R,
    font_hash: u64,
    size_px: u32,
    indices: Seq<u16>,
    start: int,
    rects: Seq<GlyphTextureRect<O>>,
    uploads: Seq<GlyphUpload>,
    i: int,
) -> bool {
    let code = glyph_code(font_hash, size_px, indices, start, i);
    if before.entries().contains_key(code) {
        rects[i] == before.entries()[code]
    } else {
        exists|j: int| 0 <= j < uploads.len() && upload_made(raster, size_px, indices[start + i], rects[i], #[trigger] uploads[j])
    }
}

/// The upload belongs to a glyph of the batch that `before` did not hold.
pub open spec fn upload_fresh<T, O: Copy, R: Fn(u16, u32) -> Option<GlyphData<O>>>(
    before: GlyphAtlasMap<T, O>,
    raster: R,
    font_hash: u64,
    size_px: u32,
    indices: Seq<u16>,
    start: int,
    rects: Seq<GlyphTextureRect<O>>,
    upload: GlyphUpload,
) -> bool {
    exists|i: int|
        0 <= i < rects.len() && !before.entries().contains_key(glyph_code(font_hash, size_px, indices, start, i))
            && upload_made(raster, size_px, indices[start + i], #[trigger] rects[i], upload)
}

/// The batch `rects`, `uploads` of the glyphs `indices[start..]` was made
/// on the page `before`: each glyph it held is given its place, each one it
/// did not hold is rasterized by `raster` and uploaded, and nothing else is
/// uploaded.
pub open spec fn batch_made<T, O: Copy, R: Fn(u16, u32) -> Option<GlyphData<O>>>(
    before: GlyphAtlasMap<T, O>,
    raster: R,
    font_hash: u64,
    size_px: u32,
    indices: Seq<u16>,
    start: int,
    rects: Seq<GlyphTextureRect<O>>,
    uploads: Seq<GlyphUpload>,
) -> bool {
    &&& forall|i: int|
        0 <= i < rects.len() ==> #[trigger] glyph_served(before, raster, font_hash, size_px, indices, start, rects, uploads, i)
    &&& forall|j: int|
        0 <= j < uploads.len() ==> upload_fresh(before, raster, font_hash, size_px, indices, start, rects, #[trigger] uploads[j])
}

/// `page` cannot take the glyph `d` the rasterizer answered: there is none,
/// or it has pixels and does not fit the page or find room there.
pub open spec fn page_refuses<T, O: Copy>(page: GlyphAtlasMap<T, O>, d: Option<GlyphData<O>>) -> bool {
    d matches Some(g) ==> g.data@.len() != 0 && !(0 < g.width <= page.bounds().0 && 0 < g.height <= page.bounds().1
        && packer_has_room(page.packer(), g.width as int, g.height as int))
}

/// `page` is a new page, or one of `pages`.
pub open spec fn page_before<T, O: Copy>(pages: Seq<GlyphAtlasMap<T, O>>, page: GlyphAtlasMap<T, O>) -> bool {
    page_fresh(page) || exists|q: int| 0 <= q < pages.len() && pages[q] == page
}

/// Every page of `now` is a new page or one of `pages`.
pub open spec fn pages_known<T, O: Copy>(pages: Seq<GlyphAtlasMap<T, O>>, now: Seq<GlyphAtlasMap<T, O>>) -> bool {
    forall|k: int| 0 <= k < now.len() ==> #[trigger] page_before(pages, now[k])
}

/// `raster` never gives a glyph at `size_px`.
pub open spec fn never_gives<O, R: Fn(u16, u32) -> Option<GlyphData<O>>>(raster: R, size_px: u32) -> bool {
    forall|index: u16, d: Option<GlyphData<O>>| #[trigger] raster.ensures((index, size_px), d) ==> d is None
}

/// There is a next glyph, and one of `pages` holds it.
pub open spec fn first_glyph_held<T, O: Copy>(
    pages: Seq<GlyphAtlasMap<T, O>>,
    font_hash: u64,
    size_px: u32,
    indices: Seq<u16>,
    start: int,
) -> bool {
    &&& 0 <= start < indices.len()
    &&& exists|q: int| 0 <= q < pages.len() && (#[trigger] pages[q]).lookup(spec_key(font_hash, indices[start], size_px)) is Some
}

/// The pages after a pass that found nothing: as they were, or, where there
/// were none and a glyph was asked for, one new page.
pub open spec fn pages_after_nothing<T, O: Copy>(
    before: Seq<GlyphAtlasMap<T, O>>,
    after: Seq<GlyphAtlasMap<T, O>>,
    asked: bool,
) -> bool {
    after == before || (before.len() == 0 && asked && after.len() == 1 && page_fresh(after[0]))
}

proof fn lemma_batch_made_cached<T, O: Copy, R: Fn(u16, u32) -> Option<GlyphData<O>>>(
    before: GlyphAtlasMap<T, O>,
    page: GlyphAtlasMap<T, O>,
    raster: R,
    font_hash: u64,
    size_px: u32,
    indices: Seq<u16>,
    start: int,
    rects: Seq<GlyphTextureRect<O>>,
    uploads: Seq<GlyphUpload>,
    item: GlyphTextureRect<O>,
)
    requires
        0 <= start,
        start + rects.len() < indices.len(),
        batch_made(before, raster, font_hash, size_px, indices, start, rects, uploads),
        found_in_page(page, font_hash, size_px, indices, start, rects),
        before.entries().submap_of(page.entries()),
        forall|c: u128|
            #[trigger] page.entries().contains_key(c) && !before.entries().contains_key(c) ==> exists|i: int|
                0 <= i < rects.len() && glyph_code(font_hash, size_px, indices, start, i) == c,
        page_holds(page, glyph_code(font_hash, size_px, indices, start, rects.len() as int), item),
    ensures
        batch_made(before, raster, font_hash, size_px, indices, start, rects.push(item), uploads),
{
    let n = rects.len() as int;
    let rs = rects.push(item);
    assert forall|i: int| 0 <= i < rs.len() implies #[trigger] glyph_served(
        before, raster, font_hash, size_px, indices, start, rs, uploads, i,
    ) by {
        if i < n {
            assert(rs[i] == rects[i]);
            assert(glyph_served(before, raster, font_hash, size_px, indices, start, rects, uploads, i));
        } else {
            let code = glyph_code(font_hash, size_px, indices, start, n);
            assert(rs[n] == item);
            if !before.entries().contains_key(code) {
                let k = choose|k: int| 0 <= k < rects.len() && glyph_code(font_hash, size_px, indices, start, k) == code;
                lemma_key_code_injective(
                    spec_key(font_hash, indices[start + k], size_px),
                    spec_key(font_hash, indices[start + n], size_px),
                );
                assert(glyph_served(before, raster, font_hash, size_px, indices, start, rects, uploads, k));
                assert(page_holds(page, glyph_code(font_hash, size_px, indices, start, k), rects[k]));
                let j = choose|j: int| 0 <= j < uploads.len() && upload_made(raster, size_px, indices[start + k], rects[k], #[trigger] uploads[j]);
                assert(upload_made(raster, size_px, indices[start + n], rs[n], uploads[j]));
            }
        }
    }
    assert forall|j: int| 0 <= j < uploads.len() implies upload_fresh(
        before, raster, font_hash, size_px, indices, start, rs, #[trigger] uploads[j],
    ) by {
        assert(upload_fresh(before, raster, font_hash, size_px, indices, start, rects, uploads[j]));
        let i = choose|i: int|
            0 <= i < rects.len() && !before.entries().contains_key(glyph_code(font_hash, size_px, indices, start, i))
                && upload_made(raster, size_px, indices[start + i], #[trigger] rects[i], uploads[j]);
        assert(rs[i] == rects[i]);
    }
}

proof fn lemma_batch_made_packed<T, O: Copy, R: Fn(u16, u32) -> Option<GlyphData<O>>>(
    before: GlyphAtlasMap<T, O>,
    raster: R,
    font_hash: u64,
    size_px: u32,
    indices: Seq<u16>,
    start: int,
    rects: Seq<GlyphTextureRect<O>>,
    uploads: Seq<GlyphUpload>,
    rect: GlyphTextureRect<O>,
    upload: GlyphUpload,
)
    requires
        0 <= start,
        start + rects.len() < indices.len(),
        batch_made(before, raster, font_hash, size_px, indices, start, rects, uploads),
        !before.entries().contains_key(glyph_code(font_hash, size_px, indices, start, rects.len() as int)),
        upload_made(raster, size_px, indices[start + rects.len()], rect, upload),
    ensures
        batch_made(before, raster, font_hash, size_px, indices, start, rects.push(rect), uploads.push(upload)),
{
    let n = rects.len() as int;
    let rs = rects.push(rect);
    let us = uploads.push(upload);
    assert forall|i: int| 0 <= i < rs.len() implies #[trigger] glyph_served(
        before, raster, font_hash, size_px, indices, start, rs, us, i,
    ) by {
        if i < n {
            assert(rs[i] == rects[i]);
            assert(glyph_served(before, raster, font_hash, size_px, indices, start, rects, uploads, i));
            if !before.entries().contains_key(glyph_code(font_hash, size_px, indices, start, i)) {
                let j = choose|j: int| 0 <= j < uploads.len() && upload_made(raster, size_px, indices[start + i], rects[i], #[trigger] uploads[j]);
                assert(us[j] == uploads[j]);
            }
        } else {
            assert(rs[n] == rect);
            assert(us[uploads.len() as int] == upload);
        }
    }
    assert forall|j: int| 0 <= j < us.len() implies upload_fresh(
        before, raster, font_hash, size_px, indices, start, rs, #[trigger] us[j],
    ) by {
        if j < uploads.len() {
            assert(us[j] == uploads[j]);
            assert(upload_fresh(before, raster, font_hash, size_px, indices, start, rects, uploads[j]));
            let i = choose|i: int|
                0 <= i < rects.len() && !before.entries().contains_key(glyph_code(font_hash, size_px, indices, start, i))
                    && upload_made(raster, size_px, indices[start + i], #[trigger] rects[i], uploads[j]);
            assert(rs[i] == rects[i]);
        } else {
            assert(us[j] == upload);
            assert(rs[n] == rect);
        }
    }
}

/// There is a next glyph, and the oldest page already holds it: then a
/// batch is found without rasterizing anything.
pub open spec fn first_glyph_cached<T, O: Copy>(
    pages: Seq<GlyphAtlasMap<T, O>>,
    font_hash: u64,
    size_px: u32,
    indices: Seq<u16>,
    start: int,
) -> bool {
    &&& 0 <= start < indices.len()
    &&& pages.len() > 0
    &&& pages[0].lookup(spec_key(font_hash, indices[start], size_px)) is Some
}

/// Atlas pages of glyphs, at most `GlyphCache::PAGES` of each kind; when a
/// kind is full, a new page replaces the oldest.
pub struct GlyphCache<T, O> {
    pages: Vec<GlyphAtlasMap<T, O>>,
    colored_pages: Vec<GlyphAtlasMap<T, O>>,
}

/// Every page is a well-formed atlas of the cache's page size, and there
/// are at most `GlyphCache::PAGES` of them.
pub open spec fn pages_wf<T, O: Copy>(pages: Seq<GlyphAtlasMap<T, O>>) -> bool {
    &&& pages.len() <= 8
    &&& forall|i: int|
        0 <= i < pages.len() ==> {
            &&& (#[trigger] pages[i]).wf()
            &&& pages[i].bounds() == (1024int, 1024int)
        }
}

impl<T, O: Copy> GlyphCache<T, O> {
    /// Most pages of each kind the cache keeps.
    pub const PAGES: usize = 8;

    /// Width and height of every page, in pixels.
    pub const PAGE_SIDE: u32 = 1024;

    /// Largest glyph size, in pixels, meant to be cached.
    pub const PAGE_SIZE_LIMIT: u32 = 256;

    /// The outline glyph pages, oldest first.
    pub closed spec fn glyph_pages(self) -> Seq<GlyphAtlasMap<T, O>> {
        self.pages@
    }

    /// The color image pages, oldest first.
    pub closed spec fn image_pages(self) -> Seq<GlyphAtlasMap<T, O>> {
        self.colored_pages@
    }

    /// The pages of one kind: image pages when `colored`.
    pub open spec fn pages_of(self, colored: bool) -> Seq<GlyphAtlasMap<T, O>> {
        if colored {
            self.image_pages()
        } else {
            self.glyph_pages()
        }
    }

    pub open spec fn wf(self) -> bool {
        pages_wf(self.glyph_pages()) && pages_wf(self.image_pages())
    }

    /// A cache with no pages.
    pub fn new() -> (r: Self)
        ensures
            r.wf(),
            r.glyph_pages().len() == 0,
            r.image_pages().len() == 0,
    {
        GlyphCache { pages: Vec::new(), colored_pages: Vec::new() }
    }

    /// The next run of glyphs from `indices[*cursor..]` that share one
    /// page, rasterizing (by `rasterize_glyph`, or `rasterize_image` for
    /// color images) and placing the ones not cached yet, opening pages made
    /// by `create_page` as needed: outline glyphs first, color images when
    /// there are none. Moves the cursor past the glyphs in the batch; `None`
    /// when no glyph could be batched, and then the cursor stays.
    ///
    /// A batch goes on until the glyphs run out, the rasterizer has nothing
    /// for the next glyph, or the page has no room for it. A glyph the page
    /// already held keeps its place and is not uploaded again; a new one is
    /// rasterized, placed, and its pixels come with the batch as an upload
    /// to its place.
    pub fn batch<G, I, P>(
        &mut self,
        rasterize_glyph: G,
        rasterize_image: I,
        create_page: P,
        font_hash: u64,
        indices: &[u16],
        cursor: &mut usize,
        size_px: u32,
    ) -> (r: Option<GlyphBatch<O>>)
        where
            G: Fn(u16, u32) -> Option<GlyphData<O>>,
            I: Fn(u16, u32) -> Option<GlyphData<O>>,
            P: Fn(bool) -> T,
        requires
            old(self).wf(),
            *old(cursor) <= indices@.len(),
            forall|index: u16, px: u32| rasterize_glyph.requires((index, px)),
            forall|index: u16, px: u32| rasterize_image.requires((index, px)),
            forall|colored: bool| create_page.requires((colored,)),
        ensures
            final(self).wf(),
            *old(cursor) <= *final(cursor) <= indices@.len(),
            r is None ==> *final(cursor) == *old(cursor),
            *old(cursor) == indices@.len() ==> r is None,
            first_glyph_cached(old(self).glyph_pages(), font_hash, size_px, indices@, *old(cursor) as int)
                ==> (r matches Some(batch) && !batch.colored),
            *old(cursor) < indices@.len() && rasters_fit_page(rasterize_glyph, size_px) ==> r is Some,
            never_gives(rasterize_glyph, size_px) && !first_glyph_held(old(self).glyph_pages(), font_hash, size_px, indices@, *old(cursor) as int)
                ==> !(r matches Some(b) && !b.colored) && pages_after_nothing(
                    old(self).glyph_pages(),
                    final(self).glyph_pages(),
                    *old(cursor) < indices@.len(),
                ),
            never_gives(rasterize_image, size_px) && !first_glyph_held(old(self).image_pages(), font_hash, size_px, indices@, *old(cursor) as int)
                ==> !(r matches Some(b) && b.colored) && pages_after_nothing(
                    old(self).image_pages(),
                    final(self).image_pages(),
                    *old(cursor) < indices@.len(),
                ),
            r matches Some(batch) ==> (!batch.colored ==> {
                &&& final(self).image_pages() == old(self).image_pages()
                &&& *final(cursor) < indices@.len() ==> exists|d: Option<GlyphData<O>>|
                    #[trigger] rasterize_glyph.ensures((indices@[*final(cursor) as int], size_px), d) && page_refuses(
                        final(self).glyph_pages()[batch.page as int],
                        d,
                    )
                &&& exists|before: GlyphAtlasMap<T, O>|
                    #[trigger] batch_made(before, rasterize_glyph, font_hash, size_px, indices@, *old(cursor) as int, batch.rects@, batch.uploads@)
                        && page_before(old(self).glyph_pages(), before)
            }),
            r matches Some(batch) ==> (batch.colored ==> {
                &&& *final(cursor) < indices@.len() ==> exists|d: Option<GlyphData<O>>|
                    #[trigger] rasterize_image.ensures((indices@[*final(cursor) as int], size_px), d) && page_refuses(
                        final(self).image_pages()[batch.page as int],
                        d,
                    )
                &&& exists|before: GlyphAtlasMap<T, O>|
                    #[trigger] batch_made(before, rasterize_image, font_hash, size_px, indices@, *old(cursor) as int, batch.rects@, batch.uploads@)
                        && page_before(old(self).image_pages(), before)
            }),
            r matches Some(batch) ==> {
                &&& batch.rects@.len() == *final(cursor) - *old(cursor) > 0
                &&& batch.page < final(self).pages_of(batch.colored).len()
                &&& found_in_page(
                    final(self).pages_of(batch.colored)[batch.page as int],
                    font_hash,
                    size_px,
                    indices@,
                    *old(cursor) as int,
                    batch.rects@,
                )
                &&& uploads_among(batch.rects@, batch.uploads@)
                &&& *final(cursor) < indices@.len() ==> final(self).pages_of(batch.colored)[batch.page as int].lookup(
                    spec_key(font_hash, indices@[*final(cursor) as int], size_px),
                ) is None
            },
    {
        let glyph = Self::batch_in(&mut self.pages, false, &rasterize_glyph, &create_page, font_hash, indices, cursor, size_px);
        if glyph.is_some() {
            return glyph;
        }
        Self::batch_in(&mut self.colored_pages, true, &rasterize_image, &create_page, font_hash, indices, cursor, size_px)
    }

    /// The texture of page `page` of one kind (image pages when `colored`).
    pub fn page_texture(&self, colored: bool, page: usize) -> (r: &T)
        requires
            page < self.pages_of(colored).len(),
        ensures
            *r == self.pages_of(colored)[page as int].texture(),
    {
        if colored {
            self.colored_pages[page].texture_ref()
        } else {
            self.pages[page].texture_ref()
        }
    }

    /// One pass of `batch` over the pages of one kind.
    fn batch_in<R, P>(
        pages: &mut Vec<GlyphAtlasMap<T, O>>,
        colored: bool,
        raster: &R,
        create_page: &P,
        font_hash: u64,
        indices: &[u16],
        cursor: &mut usize,
        size_px: u32,
    ) -> (r: Option<GlyphBatch<O>>)
        where
            R: Fn(u16, u32) -> Option<GlyphData<O>>,
            P: Fn(bool) -> T,
        requires
            pages_wf(old(pages)@),
            *old(cursor) <= indices@.len(),
            forall|index: u16, px: u32| raster.requires((index, px)),
            forall|c: bool| create_page.requires((c,)),
        ensures
            pages_wf(final(pages)@),
            *old(cursor) <= *final(cursor) <= indices@.len(),
            r is None ==> *final(cursor) == *old(cursor),
            *old(cursor) == indices@.len() ==> r is None,
            first_glyph_cached(old(pages)@, font_hash, size_px, indices@, *old(cursor) as int) ==> r is Some,
            *old(cursor) < indices@.len() && rasters_fit_page(*raster, size_px) ==> r is Some,
            never_gives(*raster, size_px) && !first_glyph_held(old(pages)@, font_hash, size_px, indices@, *old(cursor) as int)
                ==> r is None && pages_after_nothing(old(pages)@, final(pages)@, *old(cursor) < indices@.len()),
            r matches Some(batch) ==> {
                &&& batch.rects@.len() == *final(cursor) - *old(cursor) > 0
                &&& batch.colored == colored
                &&& batch.page < final(pages)@.len()
                &&& found_in_page(
                    final(pages)@[batch.page as int],
                    font_hash,
                    size_px,
                    indices@,
                    *old(cursor) as int,
                    batch.rects@,
                )
                &&& uploads_among(batch.rects@, batch.uploads@)
                &&& *final(cursor) < indices@.len() ==> final(pages)@[batch.page as int].lookup(
                    spec_key(font_hash, indices@[*final(cursor) as int], size_px),
                ) is None
                &&& *final(cursor) < indices@.len() ==> exists|d: Option<GlyphData<O>>|
                    #[trigger] raster.ensures((indices@[*final(cursor) as int], size_px), d) && page_refuses(
                        final(pages)@[batch.page as int],
                        d,
                    )
                &&& exists|before: GlyphAtlasMap<T, O>|
                    #[trigger] batch_made(before, *raster, font_hash, size_px, indices@, *old(cursor) as int, batch.rects@, batch.uploads@)
                        && page_before(old(pages)@, before)
            },
    {
        let start = *cursor;
        let mut added_page = false;
        let ghost first_cached = first_glyph_cached(old(pages)@, font_hash, size_px, indices@, start as int);
        let ghost all_fit = start < indices@.len() && rasters_fit_page(*raster, size_px);
        let ghost quiet = never_gives(*raster, size_px) && !first_glyph_held(old(pages)@, font_hash, size_px, indices@, start as int)
            && start < indices@.len();
        proof {
            assert forall|k: int| 0 <= k < pages@.len() implies #[trigger] page_before(old(pages)@, pages@[k]) by {
                assert(old(pages)@[k] == pages@[k]);
            }
        }
        loop
            invariant_except_break
                pages_wf(pages@),
                *cursor == start,
                start == *old(cursor),
                start <= indices@.len(),
                first_cached == first_glyph_cached(old(pages)@, font_hash, size_px, indices@, start as int),
                first_cached ==> !added_page && pages@ == old(pages)@,
                forall|index: u16, px: u32| raster.requires((index, px)),
                forall|c: bool| create_page.requires((c,)),
                all_fit == (start < indices@.len() && rasters_fit_page(*raster, size_px)),
                all_fit && added_page ==> pages@.len() > 0 && page_fresh(pages@.last()),
                pages_known(old(pages)@, pages@),
                quiet == (never_gives(*raster, size_px) && !first_glyph_held(old(pages)@, font_hash, size_px, indices@, start as int)
                    && start < indices@.len()),
                quiet ==> (!added_page && pages@ == old(pages)@) || (added_page && old(pages)@.len() == 0 && pages@.len() == 1
                    && page_fresh(pages@[0])),
                start == indices@.len() ==> pages@ == old(pages)@,
            ensures
                pages_wf(pages@),
                *cursor == start,
                !first_cached,
                !all_fit,
                quiet ==> pages_after_nothing(old(pages)@, pages@, true),
                start == indices@.len() ==> pages@ == old(pages)@,
            decreases (if added_page { 0int } else { 1int }),
        {
            let mut p: usize = 0;
            while p < pages.len()
                invariant
                    p <= pages@.len(),
                    pages_wf(pages@),
                    *cursor == start,
                    start == *old(cursor),
                    start <= indices@.len(),
                    first_cached == first_glyph_cached(old(pages)@, font_hash, size_px, indices@, start as int),
                    first_cached ==> p == 0 && pages@ == old(pages)@,
                    forall|index: u16, px: u32| raster.requires((index, px)),
                    forall|c: bool| create_page.requires((c,)),
                    all_fit == (start < indices@.len() && rasters_fit_page(*raster, size_px)),
                    all_fit && added_page ==> p < pages@.len() && page_fresh(pages@.last()),
                    pages_known(old(pages)@, pages@),
                    quiet == (never_gives(*raster, size_px) && !first_glyph_held(old(pages)@, font_hash, size_px, indices@, start as int)
                        && start < indices@.len()),
                    quiet ==> p == 0 && ((!added_page && pages@ == old(pages)@) || (added_page && old(pages)@.len() == 0
                        && pages@.len() == 1 && page_fresh(pages@[0]))),
                    start == indices@.len() ==> pages@ == old(pages)@,
                decreases pages@.len() - p,
            {
                let mut rects: Vec<GlyphTextureRect<O>> = Vec::new();
                let mut uploads: Vec<GlyphUpload> = Vec::new();
                let mut full = false;
                let ghost npages = pages@.len();
                let ghost pages0 = pages@;
                let ghost p0 = pages@[p as int];
                proof {
                    assert(page_before(old(pages)@, pages@[p as int]));
                }
                while *cursor < indices.len() && !full
                    invariant
                        pages_wf(pages@),
                        start == *old(cursor),
                        pages@.len() == npages,
                        p < pages@.len(),
                        start <= *cursor <= indices@.len(),
                        rects@.len() == *cursor - start,
                        found_in_page(pages@[p as int], font_hash, size_px, indices@, start as int, rects@),
                        uploads_among(rects@, uploads@),
                        first_cached == first_glyph_cached(old(pages)@, font_hash, size_px, indices@, start as int),
                        first_cached ==> p == 0 && (*cursor > start || (pages@ == old(pages)@ && !full)),
                        forall|index: u16, px: u32| raster.requires((index, px)),
                        all_fit == (start < indices@.len() && rasters_fit_page(*raster, size_px)),
                        all_fit && added_page && p + 1 < pages@.len() ==> page_fresh(pages@.last()),
                        all_fit && added_page && p + 1 == pages@.len() ==> (*cursor > start || (page_fresh(
                            pages@[p as int],
                        ) && !full)),
                        p0 == pages0[p as int],
                        page_before(old(pages)@, p0),
                        pages_known(old(pages)@, pages0),
                        rects@.len() == 0 ==> pages@ == pages0,
                        p0.entries().submap_of(pages@[p as int].entries()),
                        forall|c: u128|
                            #[trigger] pages@[p as int].entries().contains_key(c) && !p0.entries().contains_key(c) ==> exists|i: int|
                                0 <= i < rects@.len() && glyph_code(font_hash, size_px, indices@, start as int, i) == c,
                        batch_made(p0, *raster, font_hash, size_px, indices@, start as int, rects@, uploads@),
                        quiet == (never_gives(*raster, size_px) && !first_glyph_held(old(pages)@, font_hash, size_px, indices@, start as int)
                            && start < indices@.len()),
                        quiet ==> *cursor == start && !full && p == 0 && ((!added_page && pages0 == old(pages)@) || (added_page
                            && old(pages)@.len() == 0 && pages0.len() == 1 && page_fresh(pages0[0]))),
                        start == indices@.len() ==> pages0 == old(pages)@,
                        full ==> *cursor < indices@.len() && pages@[p as int].lookup(
                            spec_key(font_hash, indices@[*cursor as int], size_px),
                        ) is None,
                        full ==> exists|d: Option<GlyphData<O>>|
                            #[trigger] raster.ensures((indices@[*cursor as int], size_px), d) && page_refuses(
                                pages@[p as int],
                                d,
                            ),
                    decreases indices@.len() - *cursor, (if full { 0int } else { 1int }),
                {
                    let index = indices[*cursor];
                    let key = GlyphKey::new(font_hash, index, size_px);
                    let ghost n = rects@.len() as int;
                    proof {
                        assert(key == spec_key(font_hash, indices@[start + n], size_px));
                    }
                    match pages[p].get_rect(&key) {
                        Some(item) => {
                            proof {
                                if quiet {
                                    if !added_page {
                                        assert(old(pages)@[0].lookup(spec_key(font_hash, indices@[start as int], size_px)) is Some);
                                        assert(first_glyph_held(old(pages)@, font_hash, size_px, indices@, start as int));
                                    }
                                }
                                lemma_batch_made_cached(
                                    p0, pages@[p as int], *raster, font_hash, size_px, indices@, start as int, rects@,
                                    uploads@, item,
                                );
                                lemma_found_in_page_push(
                                    pages@[p as int], pages@[p as int], font_hash, size_px, indices@,
                                    start as int, rects@, item,
                                );
                                lemma_uploads_push_rect(rects@, uploads@, item);
                            }
                            rects.push(item);
                            *cursor = *cursor + 1;
                        },
                        None => {
                            let rastered = raster(index, size_px);
                            match rastered {
                                Some(glyph) => {
                                    let ghost cur_page = pages@[p as int];
                                    let ghost pages_prev = pages@;
                                    match pages[p].pack(key, glyph.width, glyph.height, glyph.data.as_slice(), glyph.origin) {
                                        Some(rect) => {
                                            let ghost code = glyph_code(font_hash, size_px, indices@, start as int, n);
                                            proof {
                                                lemma_found_in_page_push(
                                                    cur_page, pages@[p as int], font_hash, size_px, indices@,
                                                    start as int, rects@, rect,
                                                );
                                                assert(!p0.entries().contains_key(code));
                                                assert forall|c: u128| #[trigger] p0.entries().contains_key(c) implies pages@[p as int].entries().contains_key(c)
                                                    && pages@[p as int].entries()[c] == p0.entries()[c] by {
                                                    assert(cur_page.entries().contains_key(c));
                                                }
                                            }
                                            let upload = GlyphUpload { rect: rect.tex_rect, pixels: glyph.data };
                                            proof {
                                                assert(upload_made(*raster, size_px, index, rect, upload));
                                                lemma_batch_made_packed(
                                                    p0, *raster, font_hash, size_px, indices@, start as int, rects@, uploads@,
                                                    rect, upload,
                                                );
                                                lemma_uploads_push_both(rects@, uploads@, rect, upload);
                                            }
                                            rects.push(rect);
                                            uploads.push(upload);
                                            *cursor = *cursor + 1;
                                            proof {
                                                assert forall|c: u128|
                                                    #[trigger] pages@[p as int].entries().contains_key(c) && !p0.entries().contains_key(c) implies exists|i: int|
                                                        0 <= i < rects@.len() && glyph_code(font_hash, size_px, indices@, start as int, i) == c by {
                                                    if c == code {
                                                        assert(glyph_code(font_hash, size_px, indices@, start as int, n) == c);
                                                    } else {
                                                        assert(cur_page.entries().contains_key(c));
                                                    }
                                                }
                                            }
                                        },
                                        None => {
                                            proof {
                                                assert(pages@ =~= pages_prev);
                                                assert(page_refuses(pages@[p as int], Some(glyph)));
                                            }
                                            full = true;
                                        },
                                    }
                                },
                                None => {
                                    if rects.len() > 0 {
                                        let batch = GlyphBatch { colored, page: p, rects, uploads };
                                        proof {
                                            assert(page_refuses(pages@[p as int], rastered));
                                            assert(batch_made(p0, *raster, font_hash, size_px, indices@, start as int, batch.rects@, batch.uploads@)
                                                && page_before(old(pages)@, p0));
                                        }
                                        return Some(batch);
                                    } else {
                                        *cursor = start;
                                        return None;
                                    }
                                },
                            }
                        },
                    }
                }
                if rects.len() > 0 {
                    let batch = GlyphBatch { colored, page: p, rects, uploads };
                    proof {
                        assert(batch_made(p0, *raster, font_hash, size_px, indices@, start as int, batch.rects@, batch.uploads@)
                            && page_before(old(pages)@, p0));
                    }
                    return Some(batch);
                }
                p = p + 1;
            }
            if *cursor < indices.len() && !added_page {
                let texture = create_page(colored);
                let atlas = GlyphAtlasMap::init(texture, Self::PAGE_SIDE, Self::PAGE_SIDE);
                let ghost pages_prev = pages@;
                if pages.len() >= Self::PAGES {
                    pages.remove(0);
                }
                let ghost pages_mid = pages@;
                pages.push(atlas);
                proof {
                    assert forall|k: int| 0 <= k < pages@.len() implies #[trigger] page_before(old(pages)@, pages@[k]) by {
                        if k < pages_mid.len() {
                            if pages_prev.len() >= 8 {
                                assert(pages_mid[k] == pages_prev[k + 1]);
                            } else {
                                assert(pages_mid[k] == pages_prev[k]);
                            }
                            assert(pages@[k] == pages_mid[k]);
                        } else {
                            assert(pages@[k] == atlas);
                        }
                    }
                }
                added_page = true;
            } else {
                break;
            }
        }
        None
    }
}

} // verus!
