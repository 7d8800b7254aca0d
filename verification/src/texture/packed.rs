use vstd::prelude::*;
use rect_packer::DensePacker;
use crate::packer::{
    cells, packer_bounds, packer_has_room, packer_new, packer_occupied, packer_pack, packer_places_at, packer_size,
    packer_wf,
};
use crate::texture::view::SizedTexture2D;

verus! {

/// A rectangle inside a packed texture, in physical pixels.
#[derive(Debug, Clone, Copy, PartialEq, Eq)]
pub struct PackedArea {
    pub x: u32,
    pub y: u32,
    pub width: u32,
    pub height: u32,
}

/// The pixels of an area.
pub open spec fn area_cells(area: PackedArea) -> Set<(int, int)> {
    cells(area.x as int, area.y as int, area.width as int, area.height as int)
}

/// A texture whose area is handed out piece by piece to rectangles that do
/// not move once placed. The caller uploads the pixels of each rectangle
/// it gets, laid out by `SizedTexture2D::write_layout`.
pub struct PackedTexture<T, F> {
    texture: SizedTexture2D<T, F>,
    packer: DensePacker,
}

impl<T, F: Copy> PackedTexture<T, F> {
    /// The texture.
    pub closed spec fn texture(self) -> SizedTexture2D<T, F> {
        self.texture
    }

    /// Width and height of the texture.
    pub open spec fn size(self) -> (int, int) {
        (self.texture().spec_size().0 as int, self.texture().spec_size().1 as int)
    }

    /// The pixels already handed out, and possibly some around them.
    pub open spec fn occupied(self) -> Set<(int, int)> {
        packer_occupied(self.packer())
    }

    /// The packer that hands out the texture's area.
    pub closed spec fn packer(self) -> DensePacker {
        self.packer
    }

    pub closed spec fn wf(self) -> bool {
        &&& self.size().0 <= i32::MAX
        &&& self.size().1 <= i32::MAX
        &&& packer_bounds(self.packer) == self.size()
        &&& packer_wf(self.packer)
    }

    /// Starts packing `texture` with nothing placed. Its sides must fit in
    /// an `i32`.
    pub fn new(texture: SizedTexture2D<T, F>) -> (r: Self)
        requires
            texture.spec_size().0 <= i32::MAX,
            texture.spec_size().1 <= i32::MAX,
        ensures
            r.wf(),
            r.texture() == texture,
            r.size() == (texture.spec_size().0 as int, texture.spec_size().1 as int),
            r.occupied() == Set::<(int, int)>::empty(),
    {
        let (width, height) = texture.size();
        let packer = packer_new(width as i32, height as i32);
        PackedTexture { texture, packer }
    }

    /// Finds room for a `width` by `height` rectangle, where the packer puts
    /// it. `None`, changing nothing, when there is none; always `None` for
    /// an empty rectangle or one larger than the texture, and always room
    /// for any other while nothing is placed. The rectangle lies outside
    /// every one handed out before, and the taken area grows by exactly the
    /// columns under it.
    pub fn pack(&mut self, width: u32, height: u32) -> (r: Option<PackedArea>)
        requires
            old(self).wf(),
            width <= old(self).size().0 ==> old(self).size().0 + width <= i32::MAX,
            height <= old(self).size().1 ==> old(self).size().1 + height <= i32::MAX,
        ensures
            final(self).wf(),
            final(self).texture() == old(self).texture(),
            final(self).size() == old(self).size(),
            width == 0 || height == 0 || width > old(self).size().0 || height > old(self).size().1
                ==> r is None,
            old(self).occupied() == Set::<(int, int)>::empty() && 0 < width <= old(self).size().0 && 0
                < height <= old(self).size().1 ==> r is Some,
            old(self).occupied().subset_of(final(self).occupied()),
            r is None ==> *final(self) == *old(self),
            0 < width <= old(self).size().0 && 0 < height <= old(self).size().1 ==> (r is Some <==> packer_has_room(
                old(self).packer(),
                width as int,
                height as int,
            )),
            r matches Some(area) ==> {
                &&& packer_places_at(old(self).packer(), width as int, height as int, area.x as int, area.y as int)
                &&& final(self).occupied() == old(self).occupied().union(
                    cells(area.x as int, 0, width as int, area.y + height),
                )
            },
            r matches Some(area) ==> {
                &&& area.width == width
                &&& area.height == height
                &&& area.x + area.width <= old(self).size().0
                &&& area.y + area.height <= old(self).size().1
                &&& area_cells(area).disjoint(old(self).occupied())
                &&& area_cells(area).subset_of(final(self).occupied())
            },
    {
        let (tex_width, tex_height) = self.texture.size();
        if width > tex_width || height > tex_height {
            return None;
        }
        match packer_pack(&mut self.packer, width as i32, height as i32) {
            Some(rect) => {
                let area = PackedArea { x: rect.x as u32, y: rect.y as u32, width, height };
                proof {
                    assert(area_cells(area) == cells(rect.x as int, rect.y as int, width as int, height as int));
                }
                Some(area)
            },
            None => None,
        }
    }

    /// Forgets every rectangle placed so far.
    pub fn reset(&mut self)
        requires
            old(self).wf(),
        ensures
            final(self).wf(),
            final(self).texture() == old(self).texture(),
            final(self).size() == old(self).size(),
            final(self).occupied() == Set::<(int, int)>::empty(),
    {
        let (width, height) = packer_size(&self.packer);
        self.packer = packer_new(width, height);
    }

    /// The texture.
    pub fn inner(&self) -> (r: &SizedTexture2D<T, F>)
        ensures
            *r == self.texture(),
    {
        &self.texture
    }

    /// Gives the texture back.
    pub fn finish(self) -> (r: SizedTexture2D<T, F>)
        ensures
            r == self.texture(),
    {
        self.texture
    }
}

/// An area handed out by `pack` never overlaps one handed out by an
/// earlier `pack` on the same texture, unless it was `reset` in between:
/// the first lies in the taken pixels, which only grow, and the second lies
/// outside them.
pub proof fn law_areas_never_overlap<T, F: Copy>(
    after_first: PackedTexture<T, F>,
    first: PackedArea,
    before_second: PackedTexture<T, F>,
    second: PackedArea,
)
    requires
        area_cells(first).subset_of(after_first.occupied()),
        after_first.occupied().subset_of(before_second.occupied()),
        area_cells(second).disjoint(before_second.occupied()),
    ensures
        area_cells(first).disjoint(area_cells(second)),
{
}

} // verus!
