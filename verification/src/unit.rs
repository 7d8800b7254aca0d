use vstd::prelude::*;

verus! {

/// Top-left origin unit, one per logical pixel.
#[derive(Debug, Clone, Copy)]
pub struct LogicalPixelUnit;

/// Top-left origin unit, one per physical pixel.
#[derive(Debug, Clone, Copy)]
pub struct PhyiscalPixelUnit;

/// Unit of the orthographic projection, from -1 to 1.
#[derive(Debug, Clone, Copy)]
pub struct RenderUnit;

/// Top-left origin texture coordinate unit, from 0 to 1.
#[derive(Debug, Clone, Copy)]
pub struct TextureUnit;

} // verus!
