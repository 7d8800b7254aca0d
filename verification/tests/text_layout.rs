use storyboard::text::layout::{placement_kind, TextBreak, TextSlicer};

fn slices(text: &str) -> Vec<(usize, usize, usize, Option<TextBreak>)> {
    let mut slicer = TextSlicer::new(text);
    let mut out = Vec::new();
    while let Some(slice) = slicer.next_text_slice() {
        out.push((slice.range.start, slice.range.end, slice.cluster_offset, slice.next_placement));
    }
    out
}

#[test]
fn splits_at_control_characters() {
    assert_eq!(
        slices("ab\ncd\te"),
        vec![
            (0, 2, 0, Some(TextBreak::NewLine)),
            (3, 5, 3, Some(TextBreak::Tab)),
            (6, 7, 6, None),
        ]
    );
}

#[test]
fn empty_text_has_no_slice() {
    assert_eq!(slices(""), vec![]);
}

#[test]
fn trailing_break_ends_without_empty_slice() {
    assert_eq!(slices("hi\n"), vec![(0, 2, 0, Some(TextBreak::NewLine))]);
}

#[test]
fn leading_and_repeated_breaks_give_empty_slices() {
    assert_eq!(
        slices("\r\n\x0Cx"),
        vec![
            (0, 0, 0, Some(TextBreak::CarriageReturn)),
            (1, 1, 1, Some(TextBreak::NewLine)),
            (2, 2, 2, Some(TextBreak::FormFeed)),
            (3, 4, 3, None),
        ]
    );
}

#[test]
fn cluster_offsets_count_characters_not_bytes() {
    // "가" and "é" take three and two bytes.
    let text = "가é\nz";
    assert_eq!(
        slices(text),
        vec![(0, 5, 0, Some(TextBreak::NewLine)), (6, 7, 3, None)]
    );
    assert_eq!(&text[0..5], "가é");
}

#[test]
fn slices_and_breaks_rebuild_the_text() {
    let text = "one\ttwo\r\nthree\x0C";
    let mut rebuilt = String::new();
    for (start, end, _, brk) in slices(text) {
        rebuilt.push_str(&text[start..end]);
        match brk {
            Some(TextBreak::NewLine) => rebuilt.push('\n'),
            Some(TextBreak::CarriageReturn) => rebuilt.push('\r'),
            Some(TextBreak::Tab) => rebuilt.push('\t'),
            Some(TextBreak::FormFeed) => rebuilt.push('\x0C'),
            None => {}
        }
    }
    assert_eq!(rebuilt, text);
}

#[test]
fn classifies_placement_characters() {
    assert_eq!(placement_kind('\n'), Some(TextBreak::NewLine));
    assert_eq!(placement_kind('\r'), Some(TextBreak::CarriageReturn));
    assert_eq!(placement_kind('\t'), Some(TextBreak::Tab));
    assert_eq!(placement_kind('\x0C'), Some(TextBreak::FormFeed));
    assert_eq!(placement_kind('a'), None);
    assert_eq!(placement_kind(' '), None);
}
