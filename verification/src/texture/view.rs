use vstd::prelude::*;
use crate::render::frame::PhysicalRect;

verus! {

/// A texture `T` of format `F` and known size, in physical pixels.
pub struct SizedTexture2D<T, F> {
    texture: T,
    format: F,
    width: u32,
    height: u32,
}

impl<T, F: Copy> SizedTexture2D<T, F> {
    /// The texture.
    pub closed spec fn spec_texture(self) -> T {
        self.texture
    }

    /// Its format.
    pub closed spec fn spec_format(self) -> F {
        self.format
    }

    /// Width and height.
    pub closed spec fn spec_size(self) -> (u32, u32) {
        (self.width, self.height)
    }

    /// A `width` by `height` texture of the given format.
    pub fn from_texture(texture: T, format: F, width: u32, height: u32) -> (r: Self)
        ensures
            r.spec_texture() == texture,
            r.spec_format() == format,
            r.spec_size() == (width, height),
    {
        SizedTexture2D { texture, format, width, height }
    }

    /// The texture.
    pub fn inner(&self) -> (r: &T)
        ensures
            *r == self.spec_texture(),
    {
        &self.texture
    }

    /// Its format.
    pub fn format(&self) -> (r: F)
        ensures
            r == self.spec_format(),
    {
        self.format
    }

    /// Width and height.
    pub fn size(&self) -> (r: (u32, u32))
        ensures
            r == self.spec_size(),
    {
        (self.width, self.height)
    }

    /// Where a write of `rect`, or of the whole texture, lands and how its
    /// rows of `block_size` bytes per pixel are laid out.
    pub fn write_layout(&self, rect: Option<PhysicalRect>, block_size: u32) -> (r: WriteRegion)
        requires
            (match rect {
                Some(r) => r.width,
                None => self.spec_size().0,
            }) * block_size <= u32::MAX,
        ensures
            r == spec_write_region(self.spec_size().0, self.spec_size().1, rect, block_size),
    {
        write_region(self.width, self.height, rect, block_size)
    }

    /// Gives the texture back.
    pub fn into_inner(self) -> (r: T)
        ensures
            r == self.spec_texture(),
    {
        self.texture
    }
}

/// A view `V` of a whole texture of known size, in physical pixels.
pub struct SizedTextureView2D<V> {
    view: V,
    width: u32,
    height: u32,
}

/// A view of a rectangle inside a texture.
pub struct PartialTextureView2D<V> {
    view: SizedTextureView2D<V>,
    pub rect: PhysicalRect,
}

/// A view of a whole texture or of a part of it.
pub enum TextureView2D<V> {
    All(SizedTextureView2D<V>),
    Partial(PartialTextureView2D<V>),
}

impl<V> SizedTextureView2D<V> {
    /// The view.
    pub closed spec fn spec_view(self) -> V {
        self.view
    }

    /// Width and height of the texture.
    pub closed spec fn spec_size(self) -> (u32, u32) {
        (self.width, self.height)
    }

    /// A view of a `width` by `height` texture.
    pub fn from_view(view: V, width: u32, height: u32) -> (r: Self)
        ensures
            r.spec_view() == view,
            r.spec_size() == (width, height),
    {
        SizedTextureView2D { view, width, height }
    }

    /// The view.
    pub fn inner(&self) -> (r: &V)
        ensures
            *r == self.spec_view(),
    {
        &self.view
    }

    /// Width and height of the texture.
    pub fn size(&self) -> (r: (u32, u32))
        ensures
            r == self.spec_size(),
    {
        (self.width, self.height)
    }

    /// A view of the part `rect` of this texture.
    pub fn slice(self, rect: PhysicalRect) -> (r: TextureView2D<V>)
        ensures
            r matches TextureView2D::Partial(p) && p.whole() == self && p.spec_rect() == rect,
    {
        TextureView2D::Partial(PartialTextureView2D::new(self, rect))
    }

    /// Gives the view back.
    pub fn into_inner(self) -> (r: V)
        ensures
            r == self.spec_view(),
    {
        self.view
    }
}

impl<V> PartialTextureView2D<V> {
    /// The view of the whole texture.
    pub closed spec fn whole(self) -> SizedTextureView2D<V> {
        self.view
    }

    /// The rectangle of the texture shown.
    pub closed spec fn spec_rect(self) -> PhysicalRect {
        self.rect
    }

    /// The part `rect` of the texture behind `view`.
    pub fn new(view: SizedTextureView2D<V>, rect: PhysicalRect) -> (r: Self)
        ensures
            r.whole() == view,
            r.spec_rect() == rect,
    {
        PartialTextureView2D { view, rect }
    }

    /// The view of the whole texture.
    pub fn view(&self) -> (r: &SizedTextureView2D<V>)
        ensures
            *r == self.whole(),
    {
        &self.view
    }

    /// Narrows the view to `inner_rect`, its offset and size clamped at
    /// zero: unsigned, they never are below it, so the view shows
    /// `inner_rect`.
    pub fn slice(self, inner_rect: PhysicalRect) -> (r: PartialTextureView2D<V>)
        ensures
            r.whole() == self.whole(),
            r.spec_rect() == inner_rect,
    {
        PartialTextureView2D {
            view: self.view,
            rect: PhysicalRect {
                x: inner_rect.x,
                y: inner_rect.y,
                width: inner_rect.width,
                height: inner_rect.height,
            },
        }
    }
}

impl<V> TextureView2D<V> {
    /// The view of the whole texture behind this one.
    pub open spec fn spec_inner(self) -> SizedTextureView2D<V> {
        match self {
            TextureView2D::All(view) => view,
            TextureView2D::Partial(partial) => partial.whole(),
        }
    }

    /// The rectangle of the texture this view shows.
    pub open spec fn spec_rect(self) -> PhysicalRect {
        match self {
            TextureView2D::All(view) => PhysicalRect {
                x: 0,
                y: 0,
                width: view.spec_size().0,
                height: view.spec_size().1,
            },
            TextureView2D::Partial(partial) => partial.spec_rect(),
        }
    }

    /// The view of the whole texture behind this one.
    pub fn inner(&self) -> (r: &SizedTextureView2D<V>)
        ensures
            *r == self.spec_inner(),
    {
        match self {
            TextureView2D::All(view) => view,
            TextureView2D::Partial(partial) => partial.view(),
        }
    }

    /// Narrows the view to `rect`: a whole view becomes the part `rect`, a
    /// partial one is sliced to it.
    pub fn slice(self, rect: PhysicalRect) -> (r: TextureView2D<V>)
        ensures
            r.spec_inner() == self.spec_inner(),
            r.spec_rect() == rect,
            r is Partial,
    {
        match self {
            TextureView2D::All(view) => view.slice(rect),
            TextureView2D::Partial(partial) => TextureView2D::Partial(partial.slice(rect)),
        }
    }

    /// Where the shown rectangle starts.
    pub fn origin(&self) -> (r: (u32, u32))
        ensures
            r == (self.spec_rect().x, self.spec_rect().y),
    {
        match self {
            TextureView2D::All(_) => (0, 0),
            TextureView2D::Partial(partial) => (partial.rect.x, partial.rect.y),
        }
    }

    /// Width and height of the shown rectangle.
    pub fn size(&self) -> (r: (u32, u32))
        ensures
            r == (self.spec_rect().width, self.spec_rect().height),
    {
        match self {
            TextureView2D::All(view) => view.size(),
            TextureView2D::Partial(partial) => (partial.rect.width, partial.rect.height),
        }
    }

    /// The rectangle of the texture this view shows.
    pub fn rect(&self) -> (r: PhysicalRect)
        ensures
            r == self.spec_rect(),
    {
        match self {
            TextureView2D::All(view) => {
                let (width, height) = view.size();
                PhysicalRect { x: 0, y: 0, width, height }
            },
            TextureView2D::Partial(partial) => partial.rect,
        }
    }
}

impl<V> From<SizedTextureView2D<V>> for TextureView2D<V> {
    fn from(sized: SizedTextureView2D<V>) -> (r: Self)
        ensures
            r == TextureView2D::All(sized),
    {
        TextureView2D::All(sized)
    }
}

impl<V> vstd::std_specs::convert::FromSpecImpl<SizedTextureView2D<V>> for TextureView2D<V> {
    open spec fn obeys_from_spec() -> bool {
        true
    }

    open spec fn from_spec(v: SizedTextureView2D<V>) -> Self {
        TextureView2D::All(v)
    }
}

impl<V> From<PartialTextureView2D<V>> for TextureView2D<V> {
    fn from(partial: PartialTextureView2D<V>) -> (r: Self)
        ensures
            r == TextureView2D::Partial(partial),
    {
        TextureView2D::Partial(partial)
    }
}

impl<V> vstd::std_specs::convert::FromSpecImpl<PartialTextureView2D<V>> for TextureView2D<V> {
    open spec fn obeys_from_spec() -> bool {
        true
    }

    open spec fn from_spec(v: PartialTextureView2D<V>) -> Self {
        TextureView2D::Partial(v)
    }
}

/// Where a texture write lands and how its bytes are laid out.
#[derive(Debug, Clone, Copy, PartialEq, Eq, Structural)]
pub struct WriteRegion {
    pub x: u32,
    pub y: u32,
    pub width: u32,
    pub height: u32,
    /// Bytes per row of the data, absent when zero.
    pub bytes_per_row: Option<u32>,
    /// Rows of the data, absent when zero.
    pub rows_per_image: Option<u32>,
}

/// `Some(value)` unless it is zero.
pub open spec fn nonzero(value: int) -> Option<u32> {
    if value == 0 {
        None
    } else {
        Some(value as u32)
    }
}

/// The region a write of `rect`, or of the whole `width` by `height`
/// texture when there is none, covers, with rows of `block_size` bytes per
/// pixel.
pub open spec fn spec_write_region(width: u32, height: u32, rect: Option<PhysicalRect>, block_size: u32) -> WriteRegion {
    let r = match rect {
        Some(r) => r,
        None => PhysicalRect { x: 0, y: 0, width, height },
    };
    WriteRegion {
        x: r.x,
        y: r.y,
        width: r.width,
        height: r.height,
        bytes_per_row: nonzero(r.width * block_size),
        rows_per_image: nonzero(r.height as int),
    }
}

/// Lays out a write of `rect` (or the whole texture) into a `width` by
/// `height` texture whose pixels take `block_size` bytes.
pub fn write_region(width: u32, height: u32, rect: Option<PhysicalRect>, block_size: u32) -> (r: WriteRegion)
    requires
        (match rect {
            Some(r) => r.width,
            None => width,
        }) * block_size <= u32::MAX,
    ensures
        r == spec_write_region(width, height, rect, block_size),
{
    let (x, y, w, h) = match rect {
        Some(r) => (r.x, r.y, r.width, r.height),
        None => (0, 0, width, height),
    };
    let row = w * block_size;
    WriteRegion {
        x,
        y,
        width: w,
        height: h,
        bytes_per_row: if row == 0 { None } else { Some(row) },
        rows_per_image: if h == 0 { None } else { Some(h) },
    }
}

/// A write covers the rectangle it is given, or the whole texture without
/// one. Its rows hold the written width times `block_size` bytes and its
/// image the written height in rows, each absent only when zero: the same
/// rule with or without a rectangle.
pub proof fn law_write_rows_follow_the_written_width(
    width: u32,
    height: u32,
    rect: Option<PhysicalRect>,
    block_size: u32,
)
    requires
        (match rect {
            Some(r) => r.width,
            None => width,
        }) * block_size <= u32::MAX,
    ensures
        spec_write_region(width, height, None, block_size) == spec_write_region(
            width,
            height,
            Some(PhysicalRect { x: 0, y: 0, width, height }),
            block_size,
        ),
        rect matches Some(r) ==> {
            let w = spec_write_region(width, height, rect, block_size);
            &&& w.x == r.x && w.y == r.y && w.width == r.width && w.height == r.height
        },
        rect is None ==> {
            let w = spec_write_region(width, height, rect, block_size);
            &&& w.x == 0 && w.y == 0 && w.width == width && w.height == height
        },
        ({
            let w = spec_write_region(width, height, rect, block_size);
            &&& (w.bytes_per_row is None <==> w.width * block_size == 0)
            &&& w.bytes_per_row matches Some(n) ==> n == w.width * block_size
            &&& (w.rows_per_image is None <==> w.height == 0)
            &&& w.rows_per_image matches Some(n) ==> n == w.height
        }),
{
}

} // verus!
