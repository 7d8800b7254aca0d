//! Trusted interface to the skyline rectangle packer of the `rect_packer`
//! crate.

use vstd::prelude::*;
use rect_packer::DensePacker;

verus! {

#[verifier::external_type_specification]
#[verifier::external_body]
pub struct ExDensePacker(DensePacker);

/// The width and height a packer was made with. `DensePacker` keeps them
/// for its whole life; every rectangle it hands out lies inside them.
pub uninterp spec fn packer_bounds(packer: DensePacker) -> (int, int);

/// The skylines of a packer, left to right, each as its left edge, the
/// height of the taken area over it, and its width. `DensePacker` keeps
/// them in its `skylines` field; the taken area is what lies under them.
pub uninterp spec fn packer_skylines(packer: DensePacker) -> Seq<(int, int, int)>;

/// The area under skylines `s`, as cells `(x, y)`.
pub open spec fn skyline_area(s: Seq<(int, int, int)>) -> Set<(int, int)> {
    Set::new(|c: (int, int)| exists|k: int| 0 <= k < s.len() && s[k].0 <= c.0 < s[k].0 + s[k].2 && 0 <= c.1 < #[trigger] s[k].1)
}

/// The area a packer has taken so far: every rectangle it handed out lies
/// inside it.
pub open spec fn packer_occupied(packer: DensePacker) -> Set<(int, int)> {
    skyline_area(packer_skylines(packer))
}

/// Skylines as `DensePacker` keeps them over a `bounds.0` by `bounds.1`
/// area: side by side from the left edge to the right one, none empty
/// (but the single one of an area without width), no two neighbours at the
/// same height, and every height inside the area.
pub open spec fn skylines_wf(s: Seq<(int, int, int)>, bounds: (int, int)) -> bool {
    &&& s.len() > 0
    &&& s[0].0 == 0
    &&& s.last().0 + s.last().2 == bounds.0
    &&& forall|k: int| 0 <= k < s.len() - 1 ==> #[trigger] s[k].0 + s[k].2 == s[k + 1].0
    &&& forall|k: int| 0 <= k < s.len() - 1 ==> #[trigger] s[k].1 != s[k + 1].1
    &&& forall|k: int| 0 <= k < s.len() ==> 0 <= #[trigger] s[k].1 <= bounds.1
    &&& forall|k: int| 0 <= k < s.len() ==> (bounds.0 > 0 ==> #[trigger] s[k].2 > 0)
}

/// A packer's skylines are as the crate keeps them.
pub open spec fn packer_wf(packer: DensePacker) -> bool {
    skylines_wf(packer_skylines(packer), packer_bounds(packer))
}

/// The highest of the skylines from `k` on that start left of `end`: the
/// top of what a rectangle reaching `end` from skyline `k` rests on.
pub open spec fn run_top(s: Seq<(int, int, int)>, k: int, end: int) -> int
    decreases s.len() - k,
{
    if k < 0 || k >= s.len() || s[k].0 >= end {
        0
    } else {
        let rest = run_top(s, k + 1, end);
        if s[k].1 >= rest {
            s[k].1
        } else {
            rest
        }
    }
}

/// The height of the taken area over column `x`, searching from skyline
/// `k`.
pub open spec fn height_from(s: Seq<(int, int, int)>, k: int, x: int) -> int
    decreases s.len() - k,
{
    if k < 0 || k >= s.len() {
        0
    } else if x < s[k].0 + s[k].2 {
        s[k].1
    } else {
        height_from(s, k + 1, x)
    }
}

/// A `w` by `h` rectangle put at skyline `i` (left edge on it, resting on
/// the skylines it spans) stays inside `bounds`.
pub open spec fn skyline_fits(s: Seq<(int, int, int)>, bounds: (int, int), i: int, w: int, h: int) -> bool {
    &&& 0 <= i < s.len()
    &&& s[i].0 + w <= bounds.0
    &&& run_top(s, i, s[i].0 + w) + h <= bounds.1
}

/// Skyline `i` is where the crate puts a `w` by `h` rectangle: among the
/// skylines it fits at, the one with the lowest bottom edge, then the
/// narrowest skyline, then the leftmost.
pub open spec fn skyline_chosen(s: Seq<(int, int, int)>, bounds: (int, int), i: int, w: int, h: int) -> bool {
    &&& skyline_fits(s, bounds, i, w, h)
    &&& forall|j: int| #[trigger] skyline_fits(s, bounds, j, w, h) ==> {
        let bi = run_top(s, i, s[i].0 + w) + h;
        let bj = run_top(s, j, s[j].0 + w) + h;
        bi < bj || (bi == bj && (s[i].2 < s[j].2 || (s[i].2 == s[j].2 && i <= j)))
    }
}

/// The packer has room for a `w` by `h` rectangle at some skyline.
pub open spec fn packer_has_room(packer: DensePacker, w: int, h: int) -> bool {
    exists|i: int| skyline_fits(packer_skylines(packer), packer_bounds(packer), i, w, h)
}

/// `(x, y)` is where the packer puts a `w` by `h` rectangle.
pub open spec fn packer_places_at(packer: DensePacker, w: int, h: int, x: int, y: int) -> bool {
    let s = packer_skylines(packer);
    exists|i: int|
        #[trigger] skyline_chosen(s, packer_bounds(packer), i, w, h) && x == s[i].0 && y == run_top(s, i, s[i].0 + w)
}

/// The cells of a `width` by `height` rectangle whose corner is `(x, y)`.
pub open spec fn cells(x: int, y: int, width: int, height: int) -> Set<(int, int)> {
    Set::new(|p: (int, int)| x <= p.0 < x + width && y <= p.1 < y + height)
}

/// A rectangle the packer handed out, in pixels of the packed area.
#[derive(Debug, Clone, Copy, PartialEq, Eq)]
pub struct PackerRect {
    pub x: i32,
    pub y: i32,
    pub width: i32,
    pub height: i32,
}

/// `DensePacker::new`: an empty packer over `width` by `height`, where a
/// negative size counts as zero (the crate clamps both with `max(0, _)`).
/// It starts with one skyline at height zero across the whole width:
/// nothing is taken.
#[verifier::external_body]
pub(crate) fn packer_new(width: i32, height: i32) -> (r: DensePacker)
    ensures
        packer_occupied(r) == Set::<(int, int)>::empty(),
        packer_bounds(r) == (if width < 0 { 0int } else { width as int }, if height < 0 {
            0int
        } else {
            height as int
        }),
        packer_skylines(r) == seq![(0int, 0int, if width < 0 { 0int } else { width as int })],
        packer_wf(r),
{
    DensePacker::new(width, height)
}

/// `DensePacker::size`: the size the packer was made with.
#[verifier::external_body]
pub(crate) fn packer_size(packer: &DensePacker) -> (r: (i32, i32))
    ensures
        (r.0 as int, r.1 as int) == packer_bounds(*packer),
{
    packer.size()
}

/// `DensePacker::pack` without rotation. A request with a side of zero or
/// less gives `None`. Otherwise `find_skyline` tries every skyline with
/// `can_put`: the rectangle's left edge on the skyline, resting on the
/// highest skyline it spans, inside the bounds. It gives `None` when none
/// fits; else it takes the one with the lowest bottom edge, then the
/// narrowest skyline, then the first, and hands out the rectangle there.
/// `split` and `merge` then raise the columns under the rectangle to its
/// bottom edge and join neighbours of one height, so the skylines stay as
/// the crate keeps them, the taken area grows by exactly the columns under
/// the rectangle, and the rectangle lies outside the area taken before. A
/// `None` leaves the packer as it was, and the bounds never change.
///
/// While nothing is taken, every skyline lies at height zero, and the first
/// one starts at the left edge: a rectangle no larger than the bounds fits
/// there, at the origin.
///
/// The `requires` keeps the crate's `i32` sums of a position and a size
/// from overflowing (it computes `left + width` and `top + height`).
#[verifier::external_body]
pub(crate) fn packer_pack(packer: &mut DensePacker, width: i32, height: i32) -> (r: Option<PackerRect>)
    requires
        packer_wf(*old(packer)),
        packer_bounds(*old(packer)).0 + width <= i32::MAX,
        packer_bounds(*old(packer)).1 + height <= i32::MAX,
    ensures
        packer_wf(*final(packer)),
        packer_bounds(*final(packer)) == packer_bounds(*old(packer)),
        r is None ==> *final(packer) == *old(packer),
        0 < width && 0 < height ==> (r is Some <==> packer_has_room(*old(packer), width as int, height as int)),
        r matches Some(rect) ==> packer_places_at(*old(packer), width as int, height as int, rect.x as int, rect.y as int),
        r matches Some(rect) ==> packer_occupied(*final(packer)) == packer_occupied(*old(packer)).union(
            cells(rect.x as int, 0, width as int, rect.y + height),
        ),
        r matches Some(rect) ==> forall|x: int|
            0 <= x < packer_bounds(*old(packer)).0 ==> #[trigger] height_from(packer_skylines(*final(packer)), 0, x) == (if rect.x <= x
                < rect.x + width {
                rect.y + height
            } else {
                height_from(packer_skylines(*old(packer)), 0, x)
            }),
        width <= 0 || height <= 0 ==> r is None,
        packer_occupied(*old(packer)) == Set::<(int, int)>::empty() && 0 < width <= packer_bounds(
            *old(packer),
        ).0 && 0 < height <= packer_bounds(*old(packer)).1 ==> r is Some,
        r matches Some(rect) ==> {
            &&& rect.width == width
            &&& rect.height == height
            &&& 0 <= rect.x
            &&& 0 <= rect.y
            &&& rect.x + width <= packer_bounds(*old(packer)).0
            &&& rect.y + height <= packer_bounds(*old(packer)).1
            &&& cells(rect.x as int, rect.y as int, width as int, height as int).disjoint(
                packer_occupied(*old(packer)),
            )
            &&& packer_occupied(*old(packer)).union(
                cells(rect.x as int, rect.y as int, width as int, height as int),
            ).subset_of(packer_occupied(*final(packer)))
        },
{
    match packer.pack(width, height, false) {
        Some(rect) => Some(PackerRect { x: rect.x, y: rect.y, width: rect.width, height: rect.height }),
        None => None,
    }
}

} // verus!
