use vstd::prelude::*;

verus! {

/// The shape a primitive component draws.
#[derive(Debug, Clone, Copy, PartialEq, Eq)]
pub enum PrimitiveType {
    Triangle,
    Quad,
}

/// How a primitive is drawn from its vertex slice.
#[derive(Debug, Clone, Copy, PartialEq, Eq)]
pub enum PrimitiveDraw {
    /// Draw this many vertices in order.
    Vertices(u32),
    /// Draw this many indices of the shared quad index buffer.
    Indexed(u32),
}

impl PrimitiveType {
    /// A triangle draws its three vertices; a quad draws the six indices
    /// `0, 1, 2, 0, 2, 3` of its four vertices.
    pub fn draw_call(&self) -> (r: PrimitiveDraw)
        ensures
            *self == PrimitiveType::Triangle ==> r == PrimitiveDraw::Vertices(3),
            *self == PrimitiveType::Quad ==> r == PrimitiveDraw::Indexed(6),
    {
        match self {
            PrimitiveType::Triangle => PrimitiveDraw::Vertices(3),
            PrimitiveType::Quad => PrimitiveDraw::Indexed(6),
        }
    }
}

} // verus!
