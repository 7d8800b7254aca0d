use vstd::prelude::*;

pub mod cache;
pub mod font;
pub mod layout;
pub mod line;
pub mod shape;
pub mod store;

use crate::observable::Observable;

verus! {

/// Unit of glyph outlines as stored in a font.
#[derive(Debug, Clone, Copy)]
pub struct FontUnit;

/// Takes the changes of a text's font and string and decides whether the
/// text is laid out again: when either changed. Both changes are taken.
pub fn text_needs_layout<F, S>(font: &mut Observable<F>, text: &mut Observable<S>) -> (r: bool)
    ensures
        *final(font) == old(font).spec_invalidate().0,
        *final(text) == old(text).spec_invalidate().0,
        r == (old(font).spec_changed() || old(text).spec_changed()),
{
    let font_changed = Observable::invalidate(font);
    let text_changed = Observable::invalidate(text);
    font_changed || text_changed
}

} // verus!
