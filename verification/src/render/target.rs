use vstd::prelude::*;
use crate::observable::Observable;
use crate::render::frame::PhysicalRect;
use core::ops::Deref;

verus! {

/// What the surface renderer does with its configuration before a frame.
#[derive(Debug, Clone, Copy, PartialEq, Eq, Structural)]
pub struct SurfacePlan {
    /// The surface is configured anew for the screen's size.
    pub configure: bool,
    /// The renderer takes the new screen and its scale.
    pub set_screen: bool,
}

/// The plan for a configuration that `changed` since the last frame, on
/// `screen`: nothing when it did not change; otherwise the renderer takes
/// the new screen, and the surface is configured only when the screen
/// covers some pixels.
pub open spec fn spec_surface_plan(changed: bool, screen: PhysicalRect) -> SurfacePlan {
    SurfacePlan { configure: changed && screen.spec_area() > 0, set_screen: changed }
}

/// Takes the change of the surface configuration and decides what follows
/// from it on `screen`, the configuration's screen.
pub fn surface_plan<C>(configuration: &mut Observable<C>, screen: PhysicalRect) -> (r: SurfacePlan)
    requires
        screen.spec_area() <= u32::MAX,
    ensures
        *final(configuration) == old(configuration).spec_invalidate().0,
        r == spec_surface_plan(old(configuration).spec_changed(), screen),
{
    if Observable::invalidate(configuration) {
        SurfacePlan { configure: screen.area() > 0, set_screen: true }
    } else {
        SurfacePlan { configure: false, set_screen: false }
    }
}

/// Takes the change of a texture renderer's target size and decides whether
/// its target texture is made anew: when the size changed, or when there is
/// no target yet. The change is taken in either case.
pub fn target_needs_rebuild<S>(size: &mut Observable<S>, has_target: bool) -> (r: bool)
    ensures
        *final(size) == old(size).spec_invalidate().0,
        r == (old(size).spec_changed() || !has_target),
{
    Observable::invalidate(size) || !has_target
}

/// Gives a texture renderer the target size `width` by `height`: a size
/// other than the current one replaces it and counts as changed; the same
/// size leaves it as it was.
pub fn set_target_size(size: &mut Observable<(u32, u32)>, width: u32, height: u32)
    ensures
        old(size).value() == (width, height) ==> *final(size) == *old(size),
        old(size).value() != (width, height) ==> final(size).value() == (width, height) && final(size).spec_changed(),
{
    let current: (u32, u32) = *<Observable<(u32, u32)> as Deref>::deref(&*size);
    if current.0 != width || current.1 != height {
        *size = Observable::new((width, height));
    }
}

/// Decides whether the frame texture of a buffered drawing is made anew
/// before a frame: when the screen's size is not the size it was made at,
/// or the renderer's data no longer suits its texture format.
pub fn frame_texture_stale(made_at: (u32, u32), screen: (u32, u32), format_valid: bool) -> (r: bool)
    ensures
        r == (made_at != screen || !format_valid),
{
    made_at.0 != screen.0 || made_at.1 != screen.1 || !format_valid
}

} // verus!
