use vstd::prelude::*;
use vstd::utf8::is_continuation_byte;
use vstd::string::StringSliceAdditionalSpecFns;
use core::ops::Range;

verus! {

/// A control character that ends a run of text and moves the pen.
#[derive(Debug, Clone, Copy, PartialEq, Eq)]
pub enum TextBreak {
    /// `'\n'`: back to the line start, one line down.
    NewLine,
    /// `'\r'`: back to the line start, same line.
    CarriageReturn,
    /// `'\t'`: forward by one tab width.
    Tab,
    /// `'\x0C'`: one line down, same column.
    FormFeed,
}

/// The break a byte stands for, if any. Every break character is ASCII, so
/// in UTF-8 text a byte with one of these values is always that character.
pub open spec fn spec_break_of_byte(b: u8) -> Option<TextBreak> {
    if b == 0x0A {
        Some(TextBreak::NewLine)
    } else if b == 0x0D {
        Some(TextBreak::CarriageReturn)
    } else if b == 0x09 {
        Some(TextBreak::Tab)
    } else if b == 0x0C {
        Some(TextBreak::FormFeed)
    } else {
        None
    }
}

/// The break a character stands for, if any.
pub open spec fn spec_break_of_char(ch: char) -> Option<TextBreak> {
    if ch == '\n' {
        Some(TextBreak::NewLine)
    } else if ch == '\r' {
        Some(TextBreak::CarriageReturn)
    } else if ch == '\t' {
        Some(TextBreak::Tab)
    } else if ch == '\x0C' {
        Some(TextBreak::FormFeed)
    } else {
        None
    }
}

/// Classifies a character as a placement control character.
pub fn placement_kind(ch: char) -> (r: Option<TextBreak>)
    ensures
        r == spec_break_of_char(ch),
{
    match ch {
        '\n' => Some(TextBreak::NewLine),
        '\r' => Some(TextBreak::CarriageReturn),
        '\t' => Some(TextBreak::Tab),
        '\x0C' => Some(TextBreak::FormFeed),
        _ => None,
    }
}

fn break_of_byte(b: u8) -> (r: Option<TextBreak>)
    ensures
        r == spec_break_of_byte(b),
{
    if b == 0x0A {
        Some(TextBreak::NewLine)
    } else if b == 0x0D {
        Some(TextBreak::CarriageReturn)
    } else if b == 0x09 {
        Some(TextBreak::Tab)
    } else if b == 0x0C {
        Some(TextBreak::FormFeed)
    } else {
        None
    }
}

/// Number of characters that start in the given bytes: every byte but the
/// UTF-8 continuation bytes.
pub open spec fn char_starts(s: Seq<u8>) -> nat
    decreases s.len(),
{
    if s.len() == 0 {
        0
    } else {
        char_starts(s.drop_last()) + if is_continuation_byte(s.last()) {
            0nat
        } else {
            1nat
        }
    }
}

/// The first index at or after `i` that holds a break byte, or the length
/// when there is none.
pub open spec fn first_break(s: Seq<u8>, i: int) -> int
    decreases s.len() - i,
{
    if i >= s.len() {
        s.len() as int
    } else if spec_break_of_byte(s[i]) is Some {
        i
    } else {
        first_break(s, i + 1)
    }
}

/// A run of text between placement control characters.
#[derive(Debug)]
pub struct TextSlice {
    /// Byte range of the run in the text; the control character is not part
    /// of it.
    pub range: Range<usize>,
    /// Index of the run's first character among all characters of the text.
    pub cluster_offset: usize,
    /// How the pen moves after the run; `None` when the run ends the text.
    pub next_placement: Option<TextBreak>,
}

impl Clone for TextSlice {
    fn clone(&self) -> (r: Self)
        ensures
            r == *self,
    {
        TextSlice {
            range: self.range.start..self.range.end,
            cluster_offset: self.cluster_offset,
            next_placement: self.next_placement,
        }
    }
}

/// What `next_text_slice` yields from byte position `pos` of `s`, with the
/// position after it. `None` once the text is used up.
pub open spec fn spec_next_slice(s: Seq<u8>, pos: int) -> Option<(int, int, Option<TextBreak>, int)> {
    if pos >= s.len() {
        None
    } else {
        let end = first_break(s, pos);
        if end < s.len() {
            Some((pos, end, spec_break_of_byte(s[end]), end + 1))
        } else {
            Some((pos, end, None, end))
        }
    }
}

/// Walks a text run by run, cutting it at the placement control
/// characters `'\n'`, `'\r'`, `'\t'` and `'\x0C'`.
#[derive(Debug, Clone)]
pub struct TextSlicer<'a> {
    text: &'a str,
    pos: usize,
    cluster: usize,
}

impl<'a> TextSlicer<'a> {
    /// The text being cut.
    pub closed spec fn bytes(self) -> Seq<u8> {
        self.text.spec_bytes()
    }

    /// Byte position of the next run.
    pub closed spec fn position(self) -> int {
        self.pos as int
    }

    pub closed spec fn wf(self) -> bool {
        &&& self.pos <= self.text.spec_bytes().len()
        &&& self.cluster == char_starts(self.text.spec_bytes().take(self.pos as int))
    }

    /// Starts at the beginning of `text`.
    pub fn new(text: &'a str) -> (r: Self)
        ensures
            r.wf(),
            r.bytes() == text.spec_bytes(),
            r.position() == 0,
    {
        proof {
            assert(text.spec_bytes().take(0) =~= Seq::<u8>::empty());
        }
        TextSlicer { text, pos: 0, cluster: 0 }
    }

    /// The next run of text, or `None` when the text is used up. The
    /// control character that ends the run is consumed with it.
    pub fn next_text_slice(&mut self) -> (r: Option<TextSlice>)
        requires
            old(self).wf(),
        ensures
            final(self).wf(),
            final(self).bytes() == old(self).bytes(),
            match spec_next_slice(old(self).bytes(), old(self).position()) {
                None => r is None && final(self).position() == old(self).position(),
                Some((start, end, brk, next)) => r matches Some(slice) && {
                    &&& slice.range.start == start
                    &&& slice.range.end == end
                    &&& slice.next_placement == brk
                    &&& slice.cluster_offset == char_starts(old(self).bytes().take(start))
                    &&& final(self).position() == next
                },
            },
    {
        let bytes = self.text.as_bytes();
        let len = bytes.len();
        if self.pos >= len {
            return None;
        }
        let start = self.pos;
        let cluster_offset = self.cluster;
        let mut i = self.pos;
        let mut cluster = self.cluster;
        let ghost s = bytes@;
        while i < len
            invariant
                s == bytes@,
                s == self.text.spec_bytes(),
                self.text == old(self).text,
                self.pos == start,
                self.cluster == cluster_offset,
                old(self).pos == start,
                old(self).cluster == cluster_offset,
                old(self).wf(),
                len == s.len(),
                start <= i <= len,
                cluster == char_starts(s.take(i as int)),
                first_break(s, start as int) == first_break(s, i as int),
            decreases len - i,
        {
            let b = bytes[i];
            proof {
                lemma_char_starts_step(s, i as int);
                lemma_char_starts_bound(s.take(i as int));
            }
            let kind = break_of_byte(b);
            proof {
                assert(kind is Some ==> first_break(s, i as int) == i as int);
                assert(kind is None ==> first_break(s, i as int) == first_break(s, i + 1));
            }
            if b < 0x80 || b >= 0xC0 {
                cluster = cluster + 1;
            }
            i = i + 1;
            if kind.is_some() {
                self.pos = i;
                self.cluster = cluster;
                return Some(TextSlice { range: start..i - 1, cluster_offset, next_placement: kind });
            }
        }
        self.pos = i;
        self.cluster = cluster;
        Some(TextSlice { range: start..i, cluster_offset, next_placement: None })
    }
}

/// Bounds of `first_break`, and the break it stops at.
pub proof fn lemma_first_break(s: Seq<u8>, i: int)
    requires
        0 <= i <= s.len(),
    ensures
        i <= first_break(s, i) <= s.len(),
        forall|k: int| i <= k < first_break(s, i) ==> spec_break_of_byte(#[trigger] s[k]) is None,
        first_break(s, i) < s.len() ==> spec_break_of_byte(s[first_break(s, i)]) is Some,
    decreases s.len() - i,
{
    if i < s.len() && spec_break_of_byte(s[i]) is None {
        lemma_first_break(s, i + 1);
    }
}

/// The text rebuilt from the runs that `next_text_slice` yields from byte
/// position `pos` on, each followed by the control character that ended it.
pub open spec fn spec_rebuild(s: Seq<u8>, pos: int) -> Seq<u8>
    decreases s.len() - pos,
    when 0 <= pos
{
    match spec_next_slice(s, pos) {
        None => Seq::empty(),
        Some((start, end, brk, next)) => {
            proof {
                lemma_first_break(s, pos);
            }
            s.subrange(start, end) + (if brk is Some {
                seq![s[end]]
            } else {
                Seq::empty()
            }) + spec_rebuild(s, next)
        },
    }
}

/// Cutting a text into runs loses nothing and reorders nothing: the runs,
/// each followed by the control character that ended it, make up the rest
/// of the text from the starting position.
pub proof fn law_slices_rebuild_text(s: Seq<u8>, pos: int)
    requires
        0 <= pos <= s.len(),
    ensures
        spec_rebuild(s, pos) == s.skip(pos),
    decreases s.len() - pos,
{
    if pos < s.len() {
        lemma_first_break(s, pos);
        let end = first_break(s, pos);
        if end < s.len() {
            law_slices_rebuild_text(s, end + 1);
            assert(s.skip(pos) =~= s.subrange(pos, end) + seq![s[end]] + s.skip(end + 1));
        } else {
            law_slices_rebuild_text(s, end);
            assert(s.skip(pos) =~= s.subrange(pos, end) + Seq::<u8>::empty() + s.skip(end));
        }
    } else {
        assert(s.skip(pos) =~= Seq::<u8>::empty());
    }
}

/// A run never holds a control character, and the control character that
/// ends it is the one the run reports.
pub proof fn law_slice_has_no_break(s: Seq<u8>, pos: int)
    requires
        0 <= pos < s.len(),
    ensures
        spec_next_slice(s, pos) matches Some((start, end, brk, next)) && {
            &&& pos == start <= end <= s.len()
            &&& forall|k: int| start <= k < end ==> spec_break_of_byte(#[trigger] s[k]) is None
            &&& end < s.len() ==> brk == spec_break_of_byte(s[end]) && brk is Some && next == end + 1
            &&& end == s.len() ==> brk is None && next == end
        },
{
    lemma_first_break(s, pos);
}

proof fn lemma_char_starts_step(s: Seq<u8>, i: int)
    requires
        0 <= i < s.len(),
    ensures
        char_starts(s.take(i + 1)) == char_starts(s.take(i)) + if is_continuation_byte(s[i]) {
            0nat
        } else {
            1nat
        },
{
    assert(s.take(i + 1).drop_last() =~= s.take(i));
}

proof fn lemma_char_starts_bound(s: Seq<u8>)
    ensures
        char_starts(s) <= s.len(),
    decreases s.len(),
{
    if s.len() > 0 {
        lemma_char_starts_bound(s.drop_last());
    }
}

/// A byte ends a run exactly when the character it encodes is a placement
/// control character, and with the same break: `'\n'` a new line, `'\r'` a
/// carriage return, `'\t'` a tab, `'\x0C'` a form feed. Every other
/// character, a space or a printable ASCII letter among them, never ends
/// a run, and neither does any byte of a multi-byte character.
pub proof fn law_breaks_are_control_characters(b: u8, ch: char)
    ensures
        spec_break_of_byte(b) == spec_break_of_char(b as char),
        b >= 0x20 ==> spec_break_of_byte(b) is None,
        spec_break_of_char(ch) == Some(TextBreak::NewLine) <==> ch == '\n',
        spec_break_of_char(ch) == Some(TextBreak::CarriageReturn) <==> ch == '\r',
        spec_break_of_char(ch) == Some(TextBreak::Tab) <==> ch == '\t',
        spec_break_of_char(ch) == Some(TextBreak::FormFeed) <==> ch == '\x0C',
        spec_break_of_char(ch) is Some ==> (ch as u32) < 0x20,
{
}

/// Text with no control character (every byte at or above `0x20`) is one
/// run to its end, with nothing after it: spaces and letters never cut it.
pub proof fn law_plain_text_is_one_run(s: Seq<u8>, pos: int)
    requires
        0 <= pos < s.len(),
        forall|k: int| pos <= k < s.len() ==> s[k] >= 0x20,
    ensures
        spec_next_slice(s, pos) == Some((pos, s.len() as int, None::<TextBreak>, s.len() as int)),
{
    lemma_first_break(s, pos);
    if first_break(s, pos) < s.len() {
        law_breaks_are_control_characters(s[first_break(s, pos)], ' ');
    }
}

/// A run that does not reach the end of the text ends right before a
/// placement control character, whose break it reports; no byte of the
/// run is one.
pub proof fn law_run_ends_at_control_character(s: Seq<u8>, pos: int)
    requires
        0 <= pos < s.len(),
    ensures
        spec_next_slice(s, pos) matches Some((start, end, brk, next)) && {
            &&& start == pos
            &&& forall|k: int| start <= k < end ==> spec_break_of_char(#[trigger] s[k] as char) is None
            &&& end < s.len() ==> {
                &&& brk == spec_break_of_char(s[end] as char)
                &&& (s[end] == 0x0A || s[end] == 0x0D || s[end] == 0x09 || s[end] == 0x0C)
                &&& next == end + 1
            }
            &&& end == s.len() ==> brk is None && next == end
        },
{
    lemma_first_break(s, pos);
    assert forall|k: int| pos <= k < first_break(s, pos) implies spec_break_of_char(#[trigger] s[k] as char) is None by {
        law_breaks_are_control_characters(s[k], ' ');
    }
    if first_break(s, pos) < s.len() {
        law_breaks_are_control_characters(s[first_break(s, pos)], ' ');
    }
}

} // verus!
