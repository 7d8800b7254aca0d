use storyboard::text::line::{LineLayout, ShapedGlyph};

fn glyph(id: u16, x_offset: i32, y_offset: i32, hori_advance: i32) -> ShapedGlyph {
    ShapedGlyph {
        glyph_id: id,
        unicodes: vec!['x'],
        kerning: 0,
        x_offset,
        y_offset,
        hori_advance,
        vert_advance: 0,
    }
}

#[test]
fn places_glyphs_along_the_line() {
    let mut layout = LineLayout::new(20);
    let glyphs = vec![glyph(1, 0, 0, 10), glyph(2, 2, -3, 8), glyph(3, 0, 0, 5)];
    let line = layout.layout_line(&glyphs);

    let positions: Vec<(i32, i32)> = line.list.iter().map(|g| (g.position.x, g.position.y)).collect();
    assert_eq!(positions, vec![(0, 0), (12, -3), (20, 0)]);
    assert_eq!(line.list[1].glyph_id, 2);
    assert_eq!(line.list[1].advances.width, 8);
    assert_eq!(line.list[0].unicodes, vec!['x']);
    assert_eq!((line.bounds.origin.x, line.bounds.origin.y), (0, 0));
    assert_eq!((line.bounds.size.width, line.bounds.size.height), (25, 20));
    assert_eq!(layout.currnet_bounds().width, 25);
    assert_eq!(layout.currnet_bounds().height, 20);
}

#[test]
fn negative_advance_never_shrinks_the_line() {
    let mut layout = LineLayout::new(10);
    let line = layout.layout_line(&vec![glyph(1, 0, 0, 10), glyph(2, 0, 0, -4), glyph(3, 0, 0, 3)]);
    let xs: Vec<i32> = line.list.iter().map(|g| g.position.x).collect();
    assert_eq!(xs, vec![0, 10, 10]);
    assert_eq!(line.bounds.size.width, 13);
}

#[test]
fn lines_stack_and_track_the_widest() {
    let mut layout = LineLayout::new(12);
    let first = layout.layout_line(&vec![glyph(1, 0, 0, 30)]);
    let second = layout.layout_line(&vec![glyph(2, 0, 1, 10)]);
    let third = layout.layout_line(&vec![]);
    assert_eq!(first.bounds.origin.y, 0);
    assert_eq!(second.bounds.origin.y, 12);
    assert_eq!(second.list[0].position.y, 13);
    assert_eq!(third.bounds.origin.y, 24);
    assert_eq!(third.bounds.size.width, 0);
    assert_eq!(layout.line_height(), 12);
    assert_eq!(layout.currnet_bounds().width, 30);
    assert_eq!(layout.currnet_bounds().height, 36);
}

#[test]
fn lines_stack_one_line_height_apart() {
    let mut layout = LineLayout::new(12);
    let widths = [30, 70, 0, 50];
    for (k, w) in widths.iter().enumerate() {
        let glyphs = if *w == 0 { vec![] } else { vec![glyph(1, 0, 0, *w)] };
        let line = layout.layout_line(&glyphs);
        assert_eq!(line.bounds.origin.y, 12 * k as i32);
        assert_eq!(line.bounds.size.width, *w);
    }
    assert_eq!(layout.currnet_bounds().width, 70);
    assert_eq!(layout.currnet_bounds().height, 48);
}
