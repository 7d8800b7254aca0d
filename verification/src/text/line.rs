use vstd::prelude::*;

verus! {

/// Unit of glyph metrics as a font reports them.
pub struct FontUnit;

/// A point in font units.
#[derive(Debug, Clone, Copy, PartialEq, Eq)]
pub struct FontPoint {
    pub x: i32,
    pub y: i32,
}

/// A size in font units.
#[derive(Debug, Clone, Copy, PartialEq, Eq)]
pub struct FontSize {
    pub width: i32,
    pub height: i32,
}

/// An axis-aligned rectangle in font units.
#[derive(Debug, Clone, Copy, PartialEq, Eq)]
pub struct FontRect {
    pub origin: FontPoint,
    pub size: FontSize,
}

/// A glyph as the shaper hands it over: its identity, the characters it
/// stands for, and its offsets and advances in font units.
#[derive(Debug, Clone)]
pub struct ShapedGlyph {
    pub glyph_id: u16,
    pub unicodes: Vec<char>,
    pub kerning: i16,
    pub x_offset: i32,
    pub y_offset: i32,
    pub hori_advance: i32,
    pub vert_advance: i32,
}

/// A glyph placed on its line.
#[derive(Debug, Clone)]
pub struct PositionedGlyph {
    pub glyph_id: u16,
    pub unicodes: Vec<char>,
    pub position: FontPoint,
    pub advances: FontSize,
    pub kerning: i16,
}

/// One laid out line: its bounds and its glyphs.
#[derive(Debug, Clone)]
pub struct PositionedText {
    pub bounds: FontRect,
    pub list: Vec<PositionedGlyph>,
}

/// Width of a line after its first `k` glyphs: each glyph extends it to its
/// offset plus advance past the current width, and it never shrinks.
pub open spec fn width_before(g: Seq<ShapedGlyph>, k: int) -> int
    decreases k,
{
    if k <= 0 {
        0
    } else {
        let w = width_before(g, k - 1);
        let e = w + g[k - 1].x_offset + g[k - 1].hori_advance;
        if e > w { e } else { w }
    }
}

/// The place of glyph `k` on a line that starts `line_offset` down.
pub open spec fn spec_glyph_position(g: Seq<ShapedGlyph>, k: int, line_offset: int) -> (int, int) {
    (width_before(g, k) + g[k].x_offset, line_offset + g[k].y_offset)
}

/// Every sum the layout of the line computes fits in an `i32`.
pub open spec fn line_fits(g: Seq<ShapedGlyph>, line_offset: int, line_height: int) -> bool {
    &&& i32::MIN <= line_offset + line_height <= i32::MAX
    &&& forall|k: int| 0 <= k < g.len() ==> {
        &&& i32::MIN <= #[trigger] width_before(g, k) + g[k].x_offset <= i32::MAX
        &&& i32::MIN <= width_before(g, k) + g[k].x_offset + g[k].hori_advance <= i32::MAX
        &&& i32::MIN <= line_offset + g[k].y_offset <= i32::MAX
    }
}

/// `p` is glyph `g` placed at `(x, y)`.
pub open spec fn placed(p: PositionedGlyph, g: ShapedGlyph, x: int, y: int) -> bool {
    &&& p.glyph_id == g.glyph_id
    &&& p.unicodes@ == g.unicodes@
    &&& p.kerning == g.kerning
    &&& p.position.x == x
    &&& p.position.y == y
    &&& p.advances.width == g.hori_advance
    &&& p.advances.height == g.vert_advance
}

/// The line width never shrinks as glyphs are added, and never goes below
/// zero.
pub proof fn lemma_width_monotone(g: Seq<ShapedGlyph>, j: int, k: int)
    requires
        0 <= j <= k,
    ensures
        0 <= width_before(g, j) <= width_before(g, k),
    decreases k,
{
    if j < k {
        lemma_width_monotone(g, j, k - 1);
    } else if k > 0 {
        lemma_width_monotone(g, k - 1, k - 1);
    }
}

/// The bounds of a laid out line reach at least to the end of every glyph's
/// advance on it.
pub proof fn law_line_bounds_cover_glyphs(g: Seq<ShapedGlyph>, line_offset: int, k: int)
    requires
        0 <= k < g.len(),
    ensures
        spec_glyph_position(g, k, line_offset).0 + g[k].hori_advance <= width_before(g, g.len() as int),
        0 <= width_before(g, g.len() as int),
{
    lemma_width_monotone(g, k + 1, g.len() as int);
    lemma_width_monotone(g, 0, k);
}

/// The advances of the first `k` glyphs, added up.
pub open spec fn advance_sum(g: Seq<ShapedGlyph>, k: int) -> int
    decreases k,
{
    if k <= 0 {
        0
    } else {
        advance_sum(g, k - 1) + g[k - 1].hori_advance
    }
}

/// A glyph sits at the width of the line before it plus its own offset,
/// across, and at the line's offset plus its own offset, down; its
/// kerning is carried along but plays no part in where it goes.
pub proof fn law_glyph_sits_after_the_line_before_it(g: Seq<ShapedGlyph>, k: int, line_offset: int)
    requires
        0 <= k < g.len(),
    ensures
        spec_glyph_position(g, k, line_offset) == (width_before(g, k) + g[k].x_offset, line_offset + g[k].y_offset),
        k == 0 ==> spec_glyph_position(g, k, line_offset).0 == g[0].x_offset,
{
}

/// Two lines whose glyphs differ in nothing but their kerning and what they
/// stand for are laid out alike: every glyph at the same place, and the
/// line as wide.
pub proof fn law_kerning_does_not_move_glyphs(g1: Seq<ShapedGlyph>, g2: Seq<ShapedGlyph>, line_offset: int, k: int)
    requires
        g1.len() == g2.len(),
        forall|i: int|
            0 <= i < g1.len() ==> #[trigger] g1[i].x_offset == g2[i].x_offset && g1[i].y_offset == g2[i].y_offset
                && g1[i].hori_advance == g2[i].hori_advance,
        0 <= k <= g1.len(),
    ensures
        width_before(g1, k) == width_before(g2, k),
        k < g1.len() ==> spec_glyph_position(g1, k, line_offset) == spec_glyph_position(g2, k, line_offset),
    decreases k,
{
    if k > 0 {
        law_kerning_does_not_move_glyphs(g1, g2, line_offset, k - 1);
        assert(g1[k - 1].x_offset == g2[k - 1].x_offset);
    }
    if k < g1.len() {
        assert(g1[k].x_offset == g2[k].x_offset);
    }
}

/// On a line of glyphs without offsets and with advances of zero or more,
/// each glyph starts where the advances of the ones before it add up to,
/// and the line is as wide as all of them together.
pub proof fn law_glyphs_follow_their_advances(g: Seq<ShapedGlyph>, line_offset: int, k: int)
    requires
        forall|i: int| 0 <= i < g.len() ==> #[trigger] g[i].x_offset == 0 && g[i].hori_advance >= 0,
        0 <= k <= g.len(),
    ensures
        width_before(g, k) == advance_sum(g, k),
        k < g.len() ==> spec_glyph_position(g, k, line_offset).0 == advance_sum(g, k),
    decreases k,
{
    if k > 0 {
        law_glyphs_follow_their_advances(g, line_offset, k - 1);
        assert(g[k - 1].x_offset == 0 && g[k - 1].hori_advance >= 0);
    }
    if k < g.len() {
        assert(g[k].x_offset == 0);
    }
}

/// Lays out lines of shaped glyphs one below the other, tracking the widest
/// line and the offset of the next one.
#[derive(Debug, Clone, Copy)]
pub struct LineLayout {
    line_height: i32,
    max_width: i32,
    line_offset: i32,
}

impl LineLayout {
    pub closed spec fn spec_line_height(self) -> int {
        self.line_height as int
    }

    pub closed spec fn spec_max_width(self) -> int {
        self.max_width as int
    }

    pub closed spec fn spec_line_offset(self) -> int {
        self.line_offset as int
    }

    /// Starts with no line laid out.
    pub fn new(line_height: i32) -> (r: Self)
        ensures
            r.spec_line_height() == line_height,
            r.spec_max_width() == 0,
            r.spec_line_offset() == 0,
    {
        LineLayout { line_height, max_width: 0, line_offset: 0 }
    }

    /// Distance between two lines.
    pub fn line_height(&self) -> (r: i32)
        ensures
            r == self.spec_line_height(),
    {
        self.line_height
    }

    /// Width of the widest line and total height of the lines so far.
    pub fn currnet_bounds(&self) -> (r: FontSize)
        ensures
            r.width == self.spec_max_width(),
            r.height == self.spec_line_offset(),
    {
        FontSize { width: self.max_width, height: self.line_offset }
    }

    /// Places the glyphs of the next line.
    pub fn layout_line(&mut self, glyphs: &Vec<ShapedGlyph>) -> (r: PositionedText)
        requires
            line_fits(glyphs@, old(self).spec_line_offset(), old(self).spec_line_height()),
        ensures
            r.list.len() == glyphs.len(),
            forall|k: int|
                0 <= k < glyphs.len() ==> placed(
                    #[trigger] r.list@[k],
                    glyphs@[k],
                    spec_glyph_position(glyphs@, k, old(self).spec_line_offset()).0,
                    spec_glyph_position(glyphs@, k, old(self).spec_line_offset()).1,
                ),
            r.bounds.origin.x == 0,
            r.bounds.origin.y == old(self).spec_line_offset(),
            r.bounds.size.width == width_before(glyphs@, glyphs.len() as int),
            r.bounds.size.height == old(self).spec_line_height(),
            line_step(*old(self), *final(self), width_before(glyphs@, glyphs.len() as int)),
            final(self).spec_line_height() == old(self).spec_line_height(),
            final(self).spec_line_offset() == old(self).spec_line_offset() + old(self).spec_line_height(),
            final(self).spec_max_width() == if old(self).spec_max_width() >= width_before(glyphs@, glyphs.len() as int) {
                old(self).spec_max_width()
            } else {
                width_before(glyphs@, glyphs.len() as int)
            },
    {
        let mut max_width: i32 = 0;
        let mut list: Vec<PositionedGlyph> = Vec::new();
        let mut i: usize = 0;
        while i < glyphs.len()
            invariant
                i <= glyphs.len(),
                line_fits(glyphs@, self.line_offset as int, self.line_height as int),
                max_width == width_before(glyphs@, i as int),
                list.len() == i,
                forall|k: int|
                    0 <= k < i ==> placed(
                        #[trigger] list@[k],
                        glyphs@[k],
                        spec_glyph_position(glyphs@, k, self.line_offset as int).0,
                        spec_glyph_position(glyphs@, k, self.line_offset as int).1,
                    ),
            decreases glyphs.len() - i,
        {
            let g = &glyphs[i];
            proof {
                assert(i32::MIN <= width_before(glyphs@, i as int) + glyphs@[i as int].x_offset <= i32::MAX);
            }
            let x = max_width + g.x_offset;
            let y = self.line_offset + g.y_offset;
            let extent = max_width + g.x_offset + g.hori_advance;
            let unicodes = g.unicodes.clone();
            proof {
                assert(unicodes@ =~= g.unicodes@);
            }
            list.push(PositionedGlyph {
                glyph_id: g.glyph_id,
                unicodes,
                position: FontPoint { x, y },
                advances: FontSize { width: g.hori_advance, height: g.vert_advance },
                kerning: g.kerning,
            });
            if extent > max_width {
                max_width = extent;
            }
            i = i + 1;
        }
        if max_width > self.max_width {
            self.max_width = max_width;
        }
        let bounds = FontRect {
            origin: FontPoint { x: 0, y: self.line_offset },
            size: FontSize { width: max_width, height: self.line_height },
        };
        self.line_offset = self.line_offset + self.line_height;
        PositionedText { bounds, list }
    }
}

/// `after` is `before` once a line `width` wide is laid out: the next line
/// starts one line height further down, and the widest width grows to it.
pub open spec fn line_step(before: LineLayout, after: LineLayout, width: int) -> bool {
    &&& after.spec_line_height() == before.spec_line_height()
    &&& after.spec_line_offset() == before.spec_line_offset() + before.spec_line_height()
    &&& after.spec_max_width() == if before.spec_max_width() >= width {
        before.spec_max_width()
    } else {
        width
    }
}

/// The widest of `widths`, and zero when there are none or all are below it.
pub open spec fn widest(widths: Seq<int>) -> int
    decreases widths.len(),
{
    if widths.len() == 0 {
        0
    } else {
        let w = widest(widths.drop_last());
        if w >= widths.last() {
            w
        } else {
            widths.last()
        }
    }
}

/// Laying out lines one after the other from a new layout: line `k` starts
/// `k` line heights down, and after the last one the bounds are the widest
/// line wide and as many line heights high as there were lines.
pub proof fn law_lines_stack(states: Seq<LineLayout>, widths: Seq<int>)
    requires
        states.len() == widths.len() + 1,
        states[0].spec_max_width() == 0,
        states[0].spec_line_offset() == 0,
        forall|k: int| 0 <= k < widths.len() ==> line_step(#[trigger] states[k], states[k + 1], widths[k]),
    ensures
        forall|k: int|
            0 <= k < states.len() ==> (#[trigger] states[k]).spec_line_offset() == k * states[0].spec_line_height()
                && states[k].spec_line_height() == states[0].spec_line_height(),
        states.last().spec_max_width() == widest(widths),
    decreases widths.len(),
{
    if widths.len() > 0 {
        let n = widths.len();
        let ps = states.drop_last();
        let pw = widths.drop_last();
        assert forall|k: int| 0 <= k < pw.len() implies line_step(#[trigger] ps[k], ps[k + 1], pw[k]) by {
            assert(line_step(states[k], states[k + 1], widths[k]));
        }
        law_lines_stack(ps, pw);
        assert(ps[0] == states[0]);
        assert(line_step(states[n - 1], states[n as int], widths[n - 1]));
        assert(ps[n - 1] == states[n - 1]);
        let h = states[0].spec_line_height();
        assert forall|k: int| 0 <= k < states.len() implies (#[trigger] states[k]).spec_line_offset() == k * h
            && states[k].spec_line_height() == h by {
            if k < n {
                assert(ps[k] == states[k]);
            } else {
                assert(ps[k - 1] == states[k - 1]);
                assert((k - 1) * h + h == k * h) by (nonlinear_arith);
            }
        }
    } else {
        assert(0 * states[0].spec_line_height() == 0);
    }
}

} // verus!
