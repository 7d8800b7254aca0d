use vstd::prelude::*;

verus! {

/// A rectangle of the screen, in physical pixels.
#[derive(Debug, Clone, Copy, PartialEq, Eq, Structural)]
pub struct PhysicalRect {
    pub x: u32,
    pub y: u32,
    pub width: u32,
    pub height: u32,
}

impl PhysicalRect {
    /// The empty rectangle at the origin.
    pub open spec fn zero_spec() -> PhysicalRect {
        PhysicalRect { x: 0, y: 0, width: 0, height: 0 }
    }

    /// Number of pixels covered.
    pub open spec fn spec_area(self) -> int {
        self.width * self.height
    }

    /// Both rectangles have the same width and height.
    pub open spec fn same_size(self, other: PhysicalRect) -> bool {
        self.width == other.width && self.height == other.height
    }

    /// The empty rectangle at the origin.
    pub fn zero() -> (r: PhysicalRect)
        ensures
            r == PhysicalRect::zero_spec(),
    {
        PhysicalRect { x: 0, y: 0, width: 0, height: 0 }
    }

    /// Number of pixels covered.
    pub fn area(&self) -> (r: u32)
        requires
            self.spec_area() <= u32::MAX,
        ensures
            r == self.spec_area(),
    {
        self.width * self.height
    }
}

/// What the renderer does for one frame.
#[derive(Debug, Clone, Copy, PartialEq, Eq, Structural)]
pub struct FramePlan {
    /// The frame is drawn at all.
    pub draw: bool,
    /// The screen moved or changed size: the projection matrix is rebuilt.
    pub update_matrix: bool,
    /// The screen changed size: a depth texture of the new size is made.
    pub resize_depth: bool,
}

/// The plan for a frame of `drawables` drawables on `screen`, when the
/// renderer last drew on `current`: nothing is drawn when there is nothing to
/// draw or the screen is empty; otherwise what depends on the screen is
/// rebuilt when it changed.
pub open spec fn frame_plan(current: PhysicalRect, screen: PhysicalRect, drawables: nat) -> FramePlan {
    let draw = drawables > 0 && screen.spec_area() != 0;
    FramePlan {
        draw,
        update_matrix: draw && current != screen,
        resize_depth: draw && !current.same_size(screen),
    }
}

/// The screen the renderer last drew on, and whether it holds a depth
/// texture for it.
pub struct ScreenTracker {
    current: PhysicalRect,
    has_depth: bool,
}

impl ScreenTracker {
    /// The screen of the last drawn frame; the empty rectangle before any.
    pub closed spec fn current(self) -> PhysicalRect {
        self.current
    }

    /// A depth texture was made.
    pub closed spec fn has_depth(self) -> bool {
        self.has_depth
    }

    /// Once a frame was drawn on a non-empty screen there is a depth texture
    /// of its size.
    pub closed spec fn wf(self) -> bool {
        self.current.spec_area() != 0 ==> self.has_depth
    }

    /// No frame drawn yet.
    pub fn new() -> (r: Self)
        ensures
            r.wf(),
            r.current() == PhysicalRect::zero_spec(),
            !r.has_depth(),
    {
        ScreenTracker { current: PhysicalRect::zero(), has_depth: false }
    }

    /// The screen of the last drawn frame.
    pub fn current_rect(&self) -> (r: PhysicalRect)
        ensures
            r == self.current(),
    {
        self.current
    }

    /// Decides what to do for a frame of `drawables` drawables on `screen`
    /// and, when it is drawn, remembers `screen`. A drawn frame always has a
    /// depth texture to draw with.
    pub fn begin_frame(&mut self, screen: PhysicalRect, drawables: usize) -> (plan: FramePlan)
        requires
            old(self).wf(),
            screen.spec_area() <= u32::MAX,
        ensures
            final(self).wf(),
            plan == frame_plan(old(self).current(), screen, drawables as nat),
            final(self).current() == (if plan.draw { screen } else { old(self).current() }),
            plan.draw ==> final(self).has_depth(),
            !plan.draw ==> final(self).has_depth() == old(self).has_depth(),
    {
        if drawables == 0 || screen.area() == 0 {
            return FramePlan { draw: false, update_matrix: false, resize_depth: false };
        }
        let mut plan = FramePlan { draw: true, update_matrix: false, resize_depth: false };
        if self.current != screen {
            plan.update_matrix = true;
            if self.current.width != screen.width || self.current.height != screen.height {
                plan.resize_depth = true;
                self.has_depth = true;
            }
            self.current = screen;
        }
        proof {
            assert(self.current.spec_area() != 0 ==> self.has_depth);
        }
        plan
    }
}

/// A second frame on the screen of the last drawn one rebuilds nothing.
pub proof fn law_same_screen_rebuilds_nothing(tracker: ScreenTracker, drawables: nat)
    ensures
        !frame_plan(tracker.current(), tracker.current(), drawables).update_matrix,
        !frame_plan(tracker.current(), tracker.current(), drawables).resize_depth,
{
}

/// The first frame drawn makes a depth texture and a projection matrix.
pub proof fn law_first_frame_builds_everything(screen: PhysicalRect, drawables: nat)
    requires
        frame_plan(PhysicalRect::zero_spec(), screen, drawables).draw,
    ensures
        frame_plan(PhysicalRect::zero_spec(), screen, drawables).update_matrix,
        frame_plan(PhysicalRect::zero_spec(), screen, drawables).resize_depth,
{
    if screen.width == 0 {
        assert(screen.spec_area() == 0);
    }
    if screen.height == 0 {
        assert(screen.spec_area() == 0);
    }
}

/// A frame is drawn exactly when it has drawables and its screen has both a
/// width and a height. A drawn frame rebuilds the projection matrix exactly
/// when the screen moved or changed size since the last drawn one, and
/// makes a new depth texture exactly when its width or its height changed;
/// a frame not drawn rebuilds nothing.
pub proof fn law_rebuilds_follow_the_screen(current: PhysicalRect, screen: PhysicalRect, drawables: nat)
    ensures
        frame_plan(current, screen, drawables).draw <==> (drawables > 0 && screen.width > 0 && screen.height > 0),
        frame_plan(current, screen, drawables).draw ==> (frame_plan(current, screen, drawables).update_matrix <==> (
        current.x != screen.x || current.y != screen.y || current.width != screen.width || current.height
            != screen.height)),
        frame_plan(current, screen, drawables).draw ==> (frame_plan(current, screen, drawables).resize_depth <==> (
        current.width != screen.width || current.height != screen.height)),
        !frame_plan(current, screen, drawables).draw ==> !frame_plan(current, screen, drawables).update_matrix
            && !frame_plan(current, screen, drawables).resize_depth,
{
    assert(screen.spec_area() != 0 <==> (screen.width > 0 && screen.height > 0)) by (nonlinear_arith)
        requires
            screen.spec_area() == screen.width * screen.height,
            screen.width >= 0,
            screen.height >= 0,
    ;
}

/// Two frames drawn one after the other: the second makes a new depth
/// texture exactly when its screen's size differs from the first's, and
/// rebuilds the projection matrix exactly when its screen differs at all.
pub proof fn law_second_frame_follows_the_first(
    before: ScreenTracker,
    between: ScreenTracker,
    first: PhysicalRect,
    second: PhysicalRect,
    drawables_first: nat,
    drawables_second: nat,
)
    requires
        frame_plan(before.current(), first, drawables_first).draw,
        between.current() == first,
        frame_plan(between.current(), second, drawables_second).draw,
    ensures
        frame_plan(between.current(), second, drawables_second).resize_depth <==> (first.width != second.width
            || first.height != second.height),
        frame_plan(between.current(), second, drawables_second).update_matrix <==> first != second,
{
    law_rebuilds_follow_the_screen(between.current(), second, drawables_second);
}

} // verus!
