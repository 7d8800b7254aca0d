use vstd::prelude::*;
use std::collections::HashMap;
use rect_packer::DensePacker;
use crate::packer::{
    cells, packer_bounds, packer_has_room, packer_new, packer_occupied, packer_pack, packer_places_at, packer_wf,
};
use crate::text::cache::{rect_cells, rect_fits, AtlasRect};

verus! {

broadcast use vstd::std_specs::hash::group_hash_axioms;

/// A glyph's raster bounds relative to the pen position, in pixels.
#[derive(Debug, Clone, Copy, PartialEq, Eq, Structural)]
pub struct RasterRect {
    pub x: i32,
    pub y: i32,
    pub width: i32,
    pub height: i32,
}

/// A rasterized glyph: its bounds, and one byte of coverage per pixel of a
/// `bounds.width` by `bounds.height` bitmap.
#[derive(Debug, Clone)]
pub struct GlyphRasterData {
    pub raster_rect: RasterRect,
    pub pixels: Vec<u8>,
}

/// Where a stored glyph is: its raster bounds, and the rectangle of the
/// atlas texture its pixels were written to.
#[derive(Debug, Clone, Copy, PartialEq, Eq, Structural)]
pub struct GlyphTexInfo {
    pub raster_rect: RasterRect,
    pub pixel_rect: AtlasRect,
}

/// Pixels the caller writes into a rectangle of an atlas texture.
#[derive(Debug, Clone)]
pub struct GlyphUpload {
    pub rect: AtlasRect,
    pub pixels: Vec<u8>,
}

/// Where a glyph is, and, when this lookup placed it, the pixels to write
/// there.
#[derive(Debug, Clone)]
pub struct GlyphLookup {
    pub info: GlyphTexInfo,
    pub upload: Option<GlyphUpload>,
}

/// Width and height of every glyph atlas, in pixels.
pub const ATLAS_SIZE: u32 = 2048;

/// The atlas rectangle for a glyph of `raster` bounds placed at `x`, `y`.
pub open spec fn placed_rect(raster: RasterRect, x: int, y: int) -> AtlasRect {
    AtlasRect { x: x as u32, y: y as u32, width: raster.width as u32, height: raster.height as u32 }
}

/// What placing a glyph of `raster` bounds into a packer of an atlas gave:
/// nothing when it has no room (always so for an empty or oversized
/// bitmap), otherwise a rectangle of the bitmap's size inside the atlas.
pub open spec fn placement_ok(raster: RasterRect, r: Option<AtlasRect>) -> bool {
    &&& (raster.width <= 0 || raster.height <= 0 || raster.width > ATLAS_SIZE || raster.height
        > ATLAS_SIZE) ==> r is None
    &&& r matches Some(rect) ==> {
        &&& rect.width == raster.width
        &&& rect.height == raster.height
        &&& rect.x + rect.width <= ATLAS_SIZE
        &&& rect.y + rect.height <= ATLAS_SIZE
    }
}

/// The glyphs of `glyphs` lie in the `occupied` pixels and inside the
/// atlas, and no two share a pixel.
pub open spec fn glyphs_apart(glyphs: Map<u32, GlyphTexInfo>, occupied: Set<(int, int)>) -> bool {
    &&& forall|k: u32| #[trigger] glyphs.contains_key(k) ==> rect_cells(glyphs[k].pixel_rect).subset_of(
        occupied,
    ) && rect_fits(glyphs[k].pixel_rect, (ATLAS_SIZE as int, ATLAS_SIZE as int))
    &&& forall|k1: u32, k2: u32|
        #[trigger] glyphs.contains_key(k1) && #[trigger] glyphs.contains_key(k2) && k1 != k2
            ==> rect_cells(glyphs[k1].pixel_rect).disjoint(rect_cells(glyphs[k2].pixel_rect))
}

/// Storing a glyph placed outside the pixels taken before keeps the glyphs
/// apart.
proof fn lemma_store_keeps_apart(
    glyphs: Map<u32, GlyphTexInfo>,
    before: Set<(int, int)>,
    after: Set<(int, int)>,
    key: u32,
    info: GlyphTexInfo,
)
    requires
        glyphs_apart(glyphs, before),
        before.subset_of(after),
        rect_cells(info.pixel_rect).disjoint(before),
        rect_cells(info.pixel_rect).subset_of(after),
        rect_fits(info.pixel_rect, (ATLAS_SIZE as int, ATLAS_SIZE as int)),
    ensures
        glyphs_apart(glyphs.insert(key, info), after),
{
    let m = glyphs.insert(key, info);
    assert forall|k1: u32, k2: u32|
        #[trigger] m.contains_key(k1) && #[trigger] m.contains_key(k2) && k1 != k2 implies rect_cells(
        m[k1].pixel_rect,
    ).disjoint(rect_cells(m[k2].pixel_rect)) by {
        if k1 != key && k2 != key {
            assert(glyphs.contains_key(k1) && glyphs.contains_key(k2));
        } else if k1 == key {
            assert(glyphs.contains_key(k2));
        } else {
            assert(glyphs.contains_key(k1));
        }
    }
    assert forall|k: u32| #[trigger] m.contains_key(k) implies rect_cells(m[k].pixel_rect).subset_of(after)
        && rect_fits(m[k].pixel_rect, (ATLAS_SIZE as int, ATLAS_SIZE as int)) by {
        if k != key {
            assert(glyphs.contains_key(k));
        }
    }
}

/// Finds room for a bitmap of `raster` bounds in an atlas packer; while
/// the atlas is empty, any bitmap that fits its bounds gets a place.
fn place(packer: &mut DensePacker, raster: RasterRect) -> (r: Option<AtlasRect>)
    requires
        packer_bounds(*old(packer)) == (ATLAS_SIZE as int, ATLAS_SIZE as int),
        packer_wf(*old(packer)),
    ensures
        packer_bounds(*final(packer)) == packer_bounds(*old(packer)),
        packer_wf(*final(packer)),
        0 < raster.width <= ATLAS_SIZE && 0 < raster.height <= ATLAS_SIZE ==> (r is Some <==> packer_has_room(
            *old(packer),
            raster.width as int,
            raster.height as int,
        )),
        r matches Some(rect) ==> packer_places_at(*old(packer), rect.width as int, rect.height as int, rect.x as int, rect.y as int)
            && packer_occupied(*final(packer)) == packer_occupied(*old(packer)).union(
            cells(rect.x as int, 0, rect.width as int, rect.y + rect.height),
        ),
        r is None ==> *final(packer) == *old(packer),
        placement_ok(raster, r),
        packer_occupied(*old(packer)).subset_of(packer_occupied(*final(packer))),
        r matches Some(rect) ==> rect_cells(rect).disjoint(packer_occupied(*old(packer)))
            && rect_cells(rect).subset_of(packer_occupied(*final(packer))),
        packer_occupied(*old(packer)) == Set::<(int, int)>::empty() && 0 < raster.width <= ATLAS_SIZE
            && 0 < raster.height <= ATLAS_SIZE ==> r is Some,
{
    if raster.width > ATLAS_SIZE as i32 || raster.height > ATLAS_SIZE as i32 {
        return None;
    }
    match packer_pack(packer, raster.width, raster.height) {
        Some(rect) => Some(AtlasRect {
            x: rect.x as u32,
            y: rect.y as u32,
            width: raster.width as u32,
            height: raster.height as u32,
        }),
        None => None,
    }
}

/// What storing a rasterized glyph under `key` did, going from `before`
/// (with its packer going from `packer` to `packer_after`) to `after` and
/// answering `r`: nothing, exactly when the packer has no room for a glyph
/// that fits the atlas; otherwise the glyph placed anew, stored with its
/// raster bounds, and its pixels handed back for its rectangle. While
/// nothing is taken, any glyph that fits the atlas is placed.
pub open spec fn store_step(
    before: Map<u32, GlyphTexInfo>,
    after: Map<u32, GlyphTexInfo>,
    packer: DensePacker,
    packer_after: DensePacker,
    key: u32,
    raster: RasterRect,
    pixels: Seq<u8>,
    r: Option<GlyphLookup>,
) -> bool {
    &&& packer_occupied(packer) == Set::<(int, int)>::empty() && 0 < raster.width <= ATLAS_SIZE && 0
        < raster.height <= ATLAS_SIZE ==> r is Some
    &&& 0 < raster.width <= ATLAS_SIZE && 0 < raster.height <= ATLAS_SIZE ==> (r is Some <==> packer_has_room(
        packer,
        raster.width as int,
        raster.height as int,
    ))
    &&& match r {
        None => after == before && packer_after == packer,
        Some(l) => {
            &&& l.info.raster_rect == raster
            &&& placed_anew(before, after, packer, packer_after, key, l)
            &&& l.upload matches Some(u) && u.pixels@ == pixels
        },
    }
}

/// What a lookup of a glyph not stored yet did, given the rasterizer's
/// answer `d`: nothing when there is no raster, otherwise what storing it
/// did.
pub open spec fn rasterized_step(
    before: Map<u32, GlyphTexInfo>,
    after: Map<u32, GlyphTexInfo>,
    packer: DensePacker,
    packer_after: DensePacker,
    key: u32,
    d: Option<GlyphRasterData>,
    r: Option<GlyphLookup>,
) -> bool {
    match d {
        None => r is None && after == before && packer_after == packer,
        Some(data) => store_step(before, after, packer, packer_after, key, data.raster_rect, data.pixels@, r),
    }
}

/// `l` answers a glyph newly placed under `key`: its rectangle fits the
/// atlas, where `packer` puts it, outside the pixels it had taken, which
/// grow by exactly the columns under it; the map gained it, and its pixels
/// go to that rectangle.
pub open spec fn placed_anew(
    before: Map<u32, GlyphTexInfo>,
    after: Map<u32, GlyphTexInfo>,
    packer: DensePacker,
    packer_after: DensePacker,
    key: u32,
    l: GlyphLookup,
) -> bool {
    &&& placement_ok(l.info.raster_rect, Some(l.info.pixel_rect))
    &&& rect_cells(l.info.pixel_rect).disjoint(packer_occupied(packer))
    &&& packer_places_at(
        packer,
        l.info.pixel_rect.width as int,
        l.info.pixel_rect.height as int,
        l.info.pixel_rect.x as int,
        l.info.pixel_rect.y as int,
    )
    &&& packer_occupied(packer_after) == packer_occupied(packer).union(
        cells(l.info.pixel_rect.x as int, 0, l.info.pixel_rect.width as int, l.info.pixel_rect.y + l.info.pixel_rect.height),
    )
    &&& l.upload matches Some(u) && u.rect == l.info.pixel_rect
    &&& after == before.insert(key, l.info)
}

/// One lookup of `key` in a glyph map going from `before` (with the packer
/// going from `packer` to `packer_after`) to `after` and answering `r`: a
/// stored glyph is answered as stored, with nothing to write and nothing
/// changed; a new one is either refused, changing nothing, or placed anew.
pub open spec fn lookup_step(
    before: Map<u32, GlyphTexInfo>,
    after: Map<u32, GlyphTexInfo>,
    packer: DensePacker,
    packer_after: DensePacker,
    key: u32,
    r: Option<GlyphLookup>,
) -> bool {
    if before.contains_key(key) {
        &&& r matches Some(l) && l.info == before[key] && l.upload is None
        &&& after == before
        &&& packer_after == packer
    } else {
        match r {
            None => after == before && packer_after == packer,
            Some(l) => placed_anew(before, after, packer, packer_after, key, l),
        }
    }
}

/// Places a rasterized glyph in an atlas packer and stores it under `key`.
fn store_in(
    packer: &mut DensePacker,
    mapping: &mut HashMap<u32, GlyphTexInfo>,
    key: u32,
    data: GlyphRasterData,
) -> (r: Option<GlyphLookup>)
    requires
        packer_bounds(*old(packer)) == (ATLAS_SIZE as int, ATLAS_SIZE as int),
        glyphs_apart(old(mapping)@, packer_occupied(*old(packer))),
        packer_wf(*old(packer)),
    ensures
        packer_bounds(*final(packer)) == packer_bounds(*old(packer)),
        packer_wf(*final(packer)),
        glyphs_apart(final(mapping)@, packer_occupied(*final(packer))),
        packer_occupied(*old(packer)).subset_of(packer_occupied(*final(packer))),
        r is None ==> *final(packer) == *old(packer) && *final(mapping) == *old(mapping),
        store_step(
            old(mapping)@,
            final(mapping)@,
            *old(packer),
            *final(packer),
            key,
            data.raster_rect,
            data.pixels@,
            r,
        ),
{
    let pixel_rect = match place(packer, data.raster_rect) {
        Some(rect) => rect,
        None => return None,
    };
    let info = GlyphTexInfo { raster_rect: data.raster_rect, pixel_rect };
    proof {
        lemma_store_keeps_apart(mapping@, packer_occupied(*old(packer)), packer_occupied(*packer), key, info);
    }
    mapping.insert(key, info);
    Some(GlyphLookup { info, upload: Some(GlyphUpload { rect: pixel_rect, pixels: data.pixels }) })
}

/// Glyphs of one font at one size, rasterized on first use into a single
/// atlas texture `T` and found again by glyph id.
pub struct GlyphStore<T> {
    packer: DensePacker,
    mapping: HashMap<u32, GlyphTexInfo>,
    texture: T,
}

impl<T> GlyphStore<T> {
    /// Width and height of the atlas, in pixels.
    pub const ATLAS_SIZE: u32 = ATLAS_SIZE;

    /// How many atlas textures a store is meant to use.
    pub const TEXTURE_COUNT: usize = 4;

    /// The stored glyphs, by glyph id.
    pub closed spec fn glyphs(self) -> Map<u32, GlyphTexInfo> {
        self.mapping@
    }

    /// The atlas texture.
    pub closed spec fn spec_texture(self) -> T {
        self.texture
    }

    /// The pixels of the atlas already taken.
    pub open spec fn occupied(self) -> Set<(int, int)> {
        packer_occupied(self.packer())
    }

    /// The packer that hands out the atlas's area.
    pub closed spec fn packer(self) -> DensePacker {
        self.packer
    }

    pub closed spec fn wf(self) -> bool {
        &&& packer_bounds(self.packer) == (ATLAS_SIZE as int, ATLAS_SIZE as int)
        &&& glyphs_apart(self.mapping@, packer_occupied(self.packer))
        &&& packer_wf(self.packer)
    }

    /// An empty store over an `ATLAS_SIZE` square atlas texture.
    pub fn init(texture: T) -> (r: Self)
        ensures
            r.wf(),
            r.glyphs() == Map::<u32, GlyphTexInfo>::empty(),
            r.occupied() == Set::<(int, int)>::empty(),
            r.spec_texture() == texture,
    {
        GlyphStore {
            packer: packer_new(ATLAS_SIZE as i32, ATLAS_SIZE as i32),
            mapping: HashMap::new(),
            texture,
        }
    }

    /// The atlas texture.
    pub fn texture(&self) -> (r: &T)
        ensures
            *r == self.spec_texture(),
    {
        &self.texture
    }

    /// Places a rasterized glyph `glyph_id` and stores it, handing back its
    /// pixels for the caller to write to the atlas texture. `None`, storing
    /// nothing, when the atlas has no room for it.
    pub fn store_raster(&mut self, glyph_id: u32, data: GlyphRasterData) -> (r: Option<GlyphLookup>)
        requires
            old(self).wf(),
        ensures
            final(self).wf(),
            final(self).spec_texture() == old(self).spec_texture(),
            old(self).occupied().subset_of(final(self).occupied()),
            r is None ==> *final(self) == *old(self),
            store_step(
                old(self).glyphs(),
                final(self).glyphs(),
                old(self).packer(),
                final(self).packer(),
                glyph_id,
                data.raster_rect,
                data.pixels@,
                r,
            ),
    {
        store_in(&mut self.packer, &mut self.mapping, glyph_id, data)
    }

    /// Where glyph `glyph_id` is in the atlas: as stored when it was seen
    /// before; otherwise rasterized by `raster` and stored by
    /// `store_raster`, its pixels handed back for the caller to write.
    /// `None`, storing nothing, when `raster` gives no glyph or the atlas
    /// has no room for it.
    pub fn get_glyph_tex_info<R: Fn(u32) -> Option<GlyphRasterData>>(
        &mut self,
        raster: R,
        glyph_id: u32,
    ) -> (r: Option<GlyphLookup>)
        requires
            old(self).wf(),
            raster.requires((glyph_id,)),
        ensures
            final(self).wf(),
            final(self).spec_texture() == old(self).spec_texture(),
            old(self).occupied().subset_of(final(self).occupied()),
            lookup_step(old(self).glyphs(), final(self).glyphs(), old(self).packer(), final(self).packer(), glyph_id, r),
            old(self).glyphs().contains_key(glyph_id) ==> *final(self) == *old(self),
            r is None ==> *final(self) == *old(self),
            r matches Some(l) ==> rect_fits(l.info.pixel_rect, (ATLAS_SIZE as int, ATLAS_SIZE as int)),
            !old(self).glyphs().contains_key(glyph_id) ==> exists|d: Option<GlyphRasterData>|
                #[trigger] raster.ensures((glyph_id,), d) && rasterized_step(
                    old(self).glyphs(),
                    final(self).glyphs(),
                    old(self).packer(),
                final(self).packer(),
                    glyph_id,
                    d,
                    r,
                ),
    {
        match self.mapping.get(&glyph_id) {
            Some(info) => return Some(GlyphLookup { info: *info, upload: None }),
            None => {},
        }
        let data = raster(glyph_id);
        match data {
            Some(data) => self.store_raster(glyph_id, data),
            None => None,
        }
    }
}

/// Glyphs of one font at one size, rasterized on first use into a single
/// atlas texture `T` and found again by the character they draw.
pub struct GlyphBrush<T> {
    packer: DensePacker,
    mapping: HashMap<u32, GlyphTexInfo>,
    texture: T,
}

impl<T> GlyphBrush<T> {
    /// Width and height of the atlas, in pixels.
    pub const ATLAS_SIZE: u32 = ATLAS_SIZE;

    /// The stored glyphs, by the code of the character they draw.
    pub closed spec fn glyphs(self) -> Map<u32, GlyphTexInfo> {
        self.mapping@
    }

    /// The atlas texture.
    pub closed spec fn spec_texture(self) -> T {
        self.texture
    }

    /// The pixels of the atlas already taken.
    pub open spec fn occupied(self) -> Set<(int, int)> {
        packer_occupied(self.packer())
    }

    /// The packer that hands out the atlas's area.
    pub closed spec fn packer(self) -> DensePacker {
        self.packer
    }

    pub closed spec fn wf(self) -> bool {
        &&& packer_bounds(self.packer) == (ATLAS_SIZE as int, ATLAS_SIZE as int)
        &&& glyphs_apart(self.mapping@, packer_occupied(self.packer))
        &&& packer_wf(self.packer)
    }

    /// An empty brush over an `ATLAS_SIZE` square atlas texture.
    pub fn init(texture: T) -> (r: Self)
        ensures
            r.wf(),
            r.glyphs() == Map::<u32, GlyphTexInfo>::empty(),
            r.occupied() == Set::<(int, int)>::empty(),
            r.spec_texture() == texture,
    {
        GlyphBrush {
            packer: packer_new(ATLAS_SIZE as i32, ATLAS_SIZE as i32),
            mapping: HashMap::new(),
            texture,
        }
    }

    /// The atlas texture.
    pub fn texture(&self) -> (r: &T)
        ensures
            *r == self.spec_texture(),
    {
        &self.texture
    }

    /// Places the rasterized glyph of `ch` and stores it, handing back its
    /// pixels for the caller to write to the atlas texture. `None`, storing
    /// nothing, when the atlas has no room for it.
    pub fn store_raster(&mut self, ch: char, data: GlyphRasterData) -> (r: Option<GlyphLookup>)
        requires
            old(self).wf(),
        ensures
            final(self).wf(),
            final(self).spec_texture() == old(self).spec_texture(),
            old(self).occupied().subset_of(final(self).occupied()),
            r is None ==> *final(self) == *old(self),
            store_step(
                old(self).glyphs(),
                final(self).glyphs(),
                old(self).packer(),
                final(self).packer(),
                ch as u32,
                data.raster_rect,
                data.pixels@,
                r,
            ),
    {
        store_in(&mut self.packer, &mut self.mapping, ch as u32, data)
    }

    /// Where the glyph of `ch` is in the atlas: as stored when it was seen
    /// before; otherwise looked up by `glyph_for_char`, rasterized by
    /// `raster` and stored by `store_raster`, its pixels handed back for the
    /// caller to write. `None`, storing nothing, when the font has no glyph
    /// for it, gives no raster, or the atlas has no room.
    pub fn get_glyph_tex_info<G: Fn(char) -> Option<u32>, R: Fn(u32) -> Option<GlyphRasterData>>(
        &mut self,
        glyph_for_char: G,
        raster: R,
        ch: char,
    ) -> (r: Option<GlyphLookup>)
        requires
            old(self).wf(),
            glyph_for_char.requires((ch,)),
            forall|id: u32| raster.requires((id,)),
        ensures
            final(self).wf(),
            final(self).spec_texture() == old(self).spec_texture(),
            old(self).occupied().subset_of(final(self).occupied()),
            lookup_step(old(self).glyphs(), final(self).glyphs(), old(self).packer(), final(self).packer(), ch as u32, r),
            old(self).glyphs().contains_key(ch as u32) ==> *final(self) == *old(self),
            r is None ==> *final(self) == *old(self),
            r matches Some(l) ==> rect_fits(l.info.pixel_rect, (ATLAS_SIZE as int, ATLAS_SIZE as int)),
            !old(self).glyphs().contains_key(ch as u32) ==> exists|id: Option<u32>|
                #[trigger] glyph_for_char.ensures((ch,), id) && match id {
                    None => r is None && final(self).glyphs() == old(self).glyphs(),
                    Some(id) => exists|d: Option<GlyphRasterData>|
                        #[trigger] raster.ensures((id,), d) && rasterized_step(
                            old(self).glyphs(),
                            final(self).glyphs(),
                            old(self).packer(),
                final(self).packer(),
                            ch as u32,
                            d,
                            r,
                        ),
                },
    {
        let code = ch as u32;
        match self.mapping.get(&code) {
            Some(info) => return Some(GlyphLookup { info: *info, upload: None }),
            None => {},
        }
        let id = glyph_for_char(ch);
        match id {
            Some(id) => {
                let data = raster(id);
                match data {
                    Some(data) => self.store_raster(ch, data),
                    None => None,
                }
            },
            None => None,
        }
    }
}

/// Once a lookup answered `info`, the next lookup of the same key answers
/// `info` again and stores nothing: each glyph is rasterized at most once.
pub proof fn law_lookup_answers_again(
    first: Map<u32, GlyphTexInfo>,
    second: Map<u32, GlyphTexInfo>,
    third: Map<u32, GlyphTexInfo>,
    packer_first: DensePacker,
    packer_second: DensePacker,
    packer_third: DensePacker,
    key: u32,
    answer: GlyphLookup,
    again: Option<GlyphLookup>,
)
    requires
        lookup_step(first, second, packer_first, packer_second, key, Some(answer)),
        lookup_step(second, third, packer_second, packer_third, key, again),
    ensures
        again matches Some(a) && a.info == answer.info && a.upload is None,
        third == second,
        packer_third == packer_second,
{
}

/// No two glyphs of a store share a pixel of its atlas.
pub proof fn law_stored_glyphs_never_overlap<T>(store: GlyphStore<T>, a: u32, b: u32)
    requires
        store.wf(),
        a != b,
        store.glyphs().contains_key(a),
        store.glyphs().contains_key(b),
    ensures
        rect_cells(store.glyphs()[a].pixel_rect).disjoint(rect_cells(store.glyphs()[b].pixel_rect)),
{
}

/// No two glyphs of a brush share a pixel of its atlas.
pub proof fn law_brushed_glyphs_never_overlap<T>(brush: GlyphBrush<T>, a: u32, b: u32)
    requires
        brush.wf(),
        a != b,
        brush.glyphs().contains_key(a),
        brush.glyphs().contains_key(b),
    ensures
        rect_cells(brush.glyphs()[a].pixel_rect).disjoint(rect_cells(brush.glyphs()[b].pixel_rect)),
{
}

/// A lookup of one key leaves every other key's glyph as it was.
pub proof fn law_lookup_keeps_others(
    before: Map<u32, GlyphTexInfo>,
    after: Map<u32, GlyphTexInfo>,
    packer: DensePacker,
    packer_after: DensePacker,
    key: u32,
    r: Option<GlyphLookup>,
    other: u32,
)
    requires
        lookup_step(before, after, packer, packer_after, key, r),
        other != key,
    ensures
        after.contains_key(other) == before.contains_key(other),
        before.contains_key(other) ==> after[other] == before[other],
{
}

} // verus!
