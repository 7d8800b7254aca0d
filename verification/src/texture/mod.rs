use vstd::prelude::*;

pub mod packed;
pub mod view;

verus! {

/// Resources holding a one pixel white texture `T`, drawn with when a
/// primitive has no texture of its own.
#[derive(Debug)]
pub struct EmptyTextureResources<T> {
    pub empty_texture: T,
}

impl<T> EmptyTextureResources<T> {
    /// The texture a primitive is drawn with: its own, or the empty one.
    pub fn texture_for<'a>(&'a self, own: Option<&'a T>) -> (r: &'a T)
        ensures
            own matches Some(t) ==> r == t,
            own is None ==> r == &self.empty_texture,
    {
        match own {
            Some(t) => t,
            None => &self.empty_texture,
        }
    }
}

} // verus!
