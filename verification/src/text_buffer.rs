use vstd::prelude::*;
use crate::chars::{char_count, char_string, push_char};
use crate::styled::{SpanStyle, SpanView, StyledSpan, line_view, lines_view};

verus! {

/// An editable piece of text with a cursor. The cursor counts characters,
/// not bytes: `cursor_idx == k` means that the cursor stands before the
/// `k`-th character, and at the end of the text when `k` equals the number
/// of characters.
pub struct TextBuffer {
    pub content: String,
    pub cursor_idx: usize,
}


/// A buffer as its characters and its cursor position.
pub type BufferView = (Seq<char>, nat);

/// The buffer after typing `c`: a cursor at or past the end appends `c` and
/// lands after it; otherwise `c` goes in before the character under the
/// cursor and the cursor moves one step right.
pub open spec fn typed(b: BufferView, c: char) -> BufferView {
    if b.1 >= b.0.len() {
        (b.0.push(c), b.0.len() + 1)
    } else {
        (b.0.insert(b.1 as int, c), b.1 + 1)
    }
}

/// The buffer after a backspace: the character just before the cursor goes
/// and the cursor takes its place; nothing changes when the cursor is at the
/// start or past the end of the text.
pub open spec fn erased(b: BufferView) -> BufferView {
    if 0 < b.1 <= b.0.len() {
        (b.0.remove(b.1 - 1), (b.1 - 1) as nat)
    } else {
        b
    }
}

/// The buffer after moving the cursor left: one step, not below zero.
pub open spec fn stepped_left(b: BufferView) -> BufferView {
    if b.1 > 0 { (b.0, (b.1 - 1) as nat) } else { b }
}

/// The buffer after moving the cursor right: one step, not past the end.
pub open spec fn stepped_right(b: BufferView) -> BufferView {
    if b.1 < b.0.len() { (b.0, b.1 + 1) } else { b }
}

/// The cursor stands on a character or just after the last one.
pub open spec fn cursor_in_text(b: BufferView) -> bool {
    b.1 <= b.0.len()
}

/// The state of drawing `s` with the cursor at `cursor` after its first `k`
/// characters: the finished lines and the line being filled. A newline ends
/// the current line (showing a blank cursor cell first when the cursor is on
/// it); any other character becomes a one-character span, reversed when the
/// cursor is on it.
pub open spec fn render_prefix(s: Seq<char>, cursor: int, k: nat) -> (Seq<Seq<SpanView>>, Seq<SpanView>)
    decreases k,
{
    if k == 0 || k > s.len() {
        (Seq::empty(), Seq::empty())
    } else {
        let (lines, current) = render_prefix(s, cursor, (k - 1) as nat);
        let i = k - 1;
        let on_cursor = i == cursor;
        if s[i] == '\n' {
            let finished = if on_cursor { current.push((seq![' '], SpanStyle::Cursor)) } else { current };
            (lines.push(finished), Seq::empty())
        } else {
            let style = if on_cursor { SpanStyle::Cursor } else { SpanStyle::Plain };
            (lines, current.push((seq![s[i]], style)))
        }
    }
}

/// The lines that show `s` with the cursor at `cursor`: one line per
/// newline-separated part, with a blank cursor cell at the end when the
/// cursor stands after the last character.
pub open spec fn render_text(s: Seq<char>, cursor: int) -> Seq<Seq<SpanView>> {
    let (lines, current) = render_prefix(s, cursor, s.len());
    let last = if cursor == s.len() { current.push((seq![' '], SpanStyle::Cursor)) } else { current };
    lines.push(last)
}

/// The number of newline characters among the first `k` characters of `s`.
pub open spec fn newlines_in_prefix(s: Seq<char>, k: nat) -> nat
    decreases k,
{
    if k == 0 || k > s.len() {
        0
    } else if s[k - 1] == '\n' {
        newlines_in_prefix(s, (k - 1) as nat) + 1
    } else {
        newlines_in_prefix(s, (k - 1) as nat)
    }
}

/// Typing a character and then pressing backspace gives the buffer back,
/// whenever the cursor stood within the text.
pub proof fn lemma_erase_undoes_type(b: BufferView, c: char)
    requires
        cursor_in_text(b),
    ensures
        erased(typed(b, c)) == b,
{
    if b.1 >= b.0.len() {
        assert(b.0.push(c).remove(b.0.len() as int) =~= b.0);
    } else {
        assert(b.0.insert(b.1 as int, c).remove(b.1 as int) =~= b.0);
    }
}

/// Typing adds exactly one character, the typed one, where the cursor stood
/// (at the end when the cursor was past it), keeps every other character in
/// order, and leaves the cursor just after it, so within the text even when
/// it stood past the end.
pub proof fn lemma_typed_places_char(b: BufferView, c: char)
    ensures
        ({
            let k = if b.1 <= b.0.len() { b.1 } else { b.0.len() };
            &&& typed(b, c).0.len() == b.0.len() + 1
            &&& typed(b, c).0[k as int] == c
            &&& typed(b, c).0.take(k as int) == b.0.take(k as int)
            &&& typed(b, c).0.skip(k + 1int) == b.0.skip(k as int)
            &&& typed(b, c).1 == k + 1
            &&& 1 <= typed(b, c).1 <= typed(b, c).0.len()
            &&& typed(b, c).0[typed(b, c).1 - 1] == c
        }),
{
    let k = if b.1 <= b.0.len() { b.1 } else { b.0.len() };
    assert(typed(b, c).0.take(k as int) =~= b.0.take(k as int));
    assert(typed(b, c).0.skip(k + 1int) =~= b.0.skip(k as int));
}

/// A backspace within the text removes exactly the character before the
/// cursor and keeps the others in order.
pub proof fn lemma_erased_removes_one(b: BufferView)
    requires
        0 < b.1 <= b.0.len(),
    ensures
        erased(b).0 == b.0.take(b.1 - 1) + b.0.skip(b.1 as int),
        erased(b).0.len() == b.0.len() - 1,
        erased(b).1 == b.1 - 1,
{
    assert(erased(b).0 =~= b.0.take(b.1 - 1) + b.0.skip(b.1 as int));
}

/// No edit moves the cursor out of the text: typing (from anywhere),
/// backspace and both cursor moves keep it on a character or just after the
/// last one.
pub proof fn lemma_edits_keep_cursor_in_text(b: BufferView, c: char)
    ensures
        cursor_in_text(typed(b, c)),
        cursor_in_text(b) ==> cursor_in_text(erased(b)),
        cursor_in_text(b) ==> cursor_in_text(stepped_left(b)),
        cursor_in_text(b) ==> cursor_in_text(stepped_right(b)),
{
}

/// Moving the cursor never changes the text.
pub proof fn lemma_moves_keep_text(b: BufferView)
    ensures
        stepped_left(b).0 == b.0,
        stepped_right(b).0 == b.0,
{
}

/// Within the text, a step right followed by a step left, or a step left
/// followed by a step right, brings the cursor back where it was.
pub proof fn lemma_left_right_inverse(b: BufferView)
    requires
        cursor_in_text(b),
    ensures
        b.1 < b.0.len() ==> stepped_left(stepped_right(b)) == b,
        0 < b.1 ==> stepped_right(stepped_left(b)) == b,
{
}

/// Drawing a buffer gives one line per newline plus one.
pub proof fn lemma_render_line_count(s: Seq<char>, cursor: int)
    ensures
        render_text(s, cursor).len() == newlines_in_prefix(s, s.len()) + 1,
{
    lemma_render_prefix_line_count(s, cursor, s.len());
}

/// The finished lines after `k` characters are as many as the newlines among them.
pub proof fn lemma_render_prefix_line_count(s: Seq<char>, cursor: int, k: nat)
    requires
        k <= s.len(),
    ensures
        render_prefix(s, cursor, k).0.len() == newlines_in_prefix(s, k),
    decreases k,
{
    if k > 0 {
        lemma_render_prefix_line_count(s, cursor, (k - 1) as nat);
    }
}

/// The text holds no newline.
pub open spec fn newline_free(s: Seq<char>) -> bool {
    forall|i: int| 0 <= i < s.len() ==> s[i] != '\n'
}

/// Typing anything but a newline, backspace, and cursor moves keep a text
/// free of newlines.
pub proof fn lemma_edits_keep_newline_free(b: BufferView, c: char)
    requires
        newline_free(b.0),
    ensures
        c != '\n' ==> newline_free(typed(b, c).0),
        newline_free(erased(b).0),
        newline_free(stepped_left(b).0),
        newline_free(stepped_right(b).0),
{
    let t = typed(b, c).0;
    if c != '\n' {
        assert forall|i: int| 0 <= i < t.len() implies t[i] != '\n' by {
            if b.1 >= b.0.len() {
                if i < b.0.len() {
                    assert(t[i] == b.0[i]);
                }
            } else {
                if i < b.1 {
                    assert(t[i] == b.0[i]);
                } else if i > b.1 {
                    assert(t[i] == b.0[i - 1]);
                }
            }
        }
    }
    let e = erased(b).0;
    assert forall|i: int| 0 <= i < e.len() implies e[i] != '\n' by {
        if 0 < b.1 <= b.0.len() {
            if i < b.1 - 1 {
                assert(e[i] == b.0[i]);
            } else {
                assert(e[i] == b.0[i + 1]);
            }
        }
    }
}

/// How many cursor cells a line holds.
pub open spec fn cursor_cells(line: Seq<SpanView>) -> nat
    decreases line.len(),
{
    if line.len() == 0 {
        0
    } else {
        cursor_cells(line.drop_last()) + if line.last().1 == SpanStyle::Cursor { 1nat } else { 0nat }
    }
}

/// How many cursor cells some lines hold.
pub open spec fn cursor_cells_in(lines: Seq<Seq<SpanView>>) -> nat
    decreases lines.len(),
{
    if lines.len() == 0 {
        0
    } else {
        cursor_cells_in(lines.drop_last()) + cursor_cells(lines.last())
    }
}

/// The cursor is drawn exactly once while it stands within the text, and
/// not at all when it stands past the end.
pub proof fn lemma_render_shows_cursor_once(s: Seq<char>, cursor: int)
    requires
        cursor >= 0,
    ensures
        cursor_cells_in(render_text(s, cursor)) == if cursor <= s.len() { 1nat } else { 0nat },
{
    lemma_render_prefix_cursor_cells(s, cursor, s.len());
    let (lines, current) = render_prefix(s, cursor, s.len());
    let last = if cursor == s.len() { current.push((seq![' '], SpanStyle::Cursor)) } else { current };
    assert(lines.push(last).drop_last() =~= lines);
    if cursor == s.len() {
        assert(current.push((seq![' '], SpanStyle::Cursor)).drop_last() =~= current);
    }
}

/// After `k` characters, the cursor has been drawn once if it stood on one
/// of them, and not at all otherwise.
pub proof fn lemma_render_prefix_cursor_cells(s: Seq<char>, cursor: int, k: nat)
    requires
        k <= s.len(),
        cursor >= 0,
    ensures
        cursor_cells_in(render_prefix(s, cursor, k).0) + cursor_cells(render_prefix(s, cursor, k).1)
            == if cursor < k { 1nat } else { 0nat },
    decreases k,
{
    if k > 0 {
        lemma_render_prefix_cursor_cells(s, cursor, (k - 1) as nat);
        let (lines, current) = render_prefix(s, cursor, (k - 1) as nat);
        let i = k - 1;
        if s[i] == '\n' {
            let finished = if i == cursor { current.push((seq![' '], SpanStyle::Cursor)) } else { current };
            assert(lines.push(finished).drop_last() =~= lines);
            if i == cursor {
                assert(current.push((seq![' '], SpanStyle::Cursor)).drop_last() =~= current);
            }
            assert(cursor_cells(Seq::<SpanView>::empty()) == 0);
        } else {
            let style = if i == cursor { SpanStyle::Cursor } else { SpanStyle::Plain };
            assert(current.push((seq![s[i]], style)).drop_last() =~= current);
        }
    }
}

/// The characters that a line of spans shows, in order.
pub open spec fn line_text(line: Seq<SpanView>) -> Seq<char>
    decreases line.len(),
{
    if line.len() == 0 {
        Seq::empty()
    } else {
        line_text(line.drop_last()) + line.last().0
    }
}

/// The characters that some lines show, with a newline between each two lines.
pub open spec fn shown_text(lines: Seq<Seq<SpanView>>) -> Seq<char>
    decreases lines.len(),
{
    if lines.len() == 0 {
        Seq::empty()
    } else if lines.len() == 1 {
        line_text(lines[0])
    } else {
        shown_text(lines.drop_last()) + seq!['\n'] + line_text(lines.last())
    }
}

/// What the first `k` characters of `s` look like drawn: the characters
/// themselves, with a blank cursor cell before the newline the cursor stands on.
pub open spec fn drawn_prefix(s: Seq<char>, cursor: int, k: nat) -> Seq<char> {
    if 0 <= cursor < k && s[cursor] == '\n' {
        s.take(k as int).insert(cursor, ' ')
    } else {
        s.take(k as int)
    }
}

proof fn lemma_shown_text_push(lines: Seq<Seq<SpanView>>, a: Seq<SpanView>, y: SpanView)
    ensures
        shown_text(lines.push(a.push(y))) == shown_text(lines.push(a)) + y.0,
{
    assert(lines.push(a.push(y)).drop_last() =~= lines);
    assert(lines.push(a).drop_last() =~= lines);
    assert(a.push(y).drop_last() =~= a);
    if lines.len() == 0 {
        assert(lines.push(a.push(y))[0] == a.push(y));
        assert(lines.push(a)[0] == a);
    }
}

proof fn lemma_shown_text_new_line(lines: Seq<Seq<SpanView>>, a: Seq<SpanView>)
    ensures
        shown_text(lines.push(a).push(Seq::empty())) == shown_text(lines.push(a)) + seq!['\n'],
{
    assert(lines.push(a).push(Seq::<SpanView>::empty()).drop_last() =~= lines.push(a));
    assert(line_text(Seq::<SpanView>::empty()) =~= Seq::<char>::empty());
    assert(shown_text(lines.push(a)) + seq!['\n'] + Seq::<char>::empty() =~= shown_text(lines.push(a)) + seq!['\n']);
}

/// After `k` characters, the finished lines and the current one show those
/// characters, with a blank cell before a newline under the cursor.
proof fn lemma_render_prefix_shows(s: Seq<char>, cursor: int, k: nat)
    requires
        k <= s.len(),
    ensures
        shown_text(render_prefix(s, cursor, k).0.push(render_prefix(s, cursor, k).1)) == drawn_prefix(s, cursor, k),
    decreases k,
{
    if k == 0 {
        let l = Seq::<Seq<SpanView>>::empty().push(Seq::<SpanView>::empty());
        assert(l[0] == Seq::<SpanView>::empty());
        assert(s.take(0) =~= Seq::<char>::empty());
    } else {
        let j = (k - 1) as nat;
        lemma_render_prefix_shows(s, cursor, j);
        let (lines, current) = render_prefix(s, cursor, j);
        let prev = drawn_prefix(s, cursor, j);
        let i = j as int;
        assert(s.take(k as int) =~= s.take(i).push(s[i]));
        if s[i] == '\n' {
            if i == cursor {
                lemma_shown_text_push(lines, current, (seq![' '], SpanStyle::Cursor));
                let finished = current.push((seq![' '], SpanStyle::Cursor));
                lemma_shown_text_new_line(lines, finished);
                assert(drawn_prefix(s, cursor, k) =~= prev + seq![' '] + seq!['\n']);
            } else {
                lemma_shown_text_new_line(lines, current);
                assert(drawn_prefix(s, cursor, k) =~= prev + seq!['\n']);
            }
        } else {
            let style = if i == cursor { SpanStyle::Cursor } else { SpanStyle::Plain };
            lemma_shown_text_push(lines, current, (seq![s[i]], style));
            assert(drawn_prefix(s, cursor, k) =~= prev + seq![s[i]]);
        }
    }
}

/// Drawing a buffer shows its text: the characters of the drawn lines, read
/// in order with a newline between lines, are exactly the buffer's
/// characters, with one blank cursor cell added before the newline the
/// cursor stands on, or at the end when it stands after the last character.
pub proof fn lemma_render_draws_the_text(s: Seq<char>, cursor: int)
    ensures
        shown_text(render_text(s, cursor)) == if 0 <= cursor <= s.len() && (cursor == s.len()
            || s[cursor] == '\n') {
            s.insert(cursor, ' ')
        } else {
            s
        },
{
    lemma_render_prefix_shows(s, cursor, s.len());
    let (lines, current) = render_prefix(s, cursor, s.len());
    assert(s.take(s.len() as int) =~= s);
    if cursor == s.len() {
        lemma_shown_text_push(lines, current, (seq![' '], SpanStyle::Cursor));
        assert(s.push(' ') =~= s.insert(cursor, ' '));
    }
}

impl View for TextBuffer {
    type V = BufferView;

    open spec fn view(&self) -> BufferView {
        (self.content@, self.cursor_idx as nat)
    }
}

impl TextBuffer {
    /// An empty buffer with the cursor at the start.
    pub fn new() -> (b: Self)
        ensures
            b.content@ == Seq::<char>::empty(),
            b.cursor_idx == 0,
    {
        TextBuffer { content: String::new(), cursor_idx: 0 }
    }

    /// A buffer holding `s`, with the cursor after its last character.
    pub fn from_string(s: String) -> (b: Self)
        ensures
            b.content@ == s@,
            b.cursor_idx == s@.len(),
    {
        let len = s.as_str().unicode_len();
        TextBuffer { content: s, cursor_idx: len }
    }

    /// Types `c` at the cursor (see `typed`).
    pub fn insert(&mut self, c: char)
        ensures
            final(self)@ == typed(old(self)@, c),
    {
        let len_chars = char_count(self.content.as_str());
        if self.cursor_idx >= len_chars {
            push_char(&mut self.content, c);
            self.cursor_idx = len_chars + 1;
        } else {
            let ghost old_chars = self.content@;
            let k = self.cursor_idx;
            let mut rebuilt = String::from_str(self.content.as_str().substring_char(0, k));
            push_char(&mut rebuilt, c);
            rebuilt.append(self.content.as_str().substring_char(k, len_chars));
            assert(rebuilt@ =~= old_chars.insert(k as int, c));
            self.content = rebuilt;
            self.cursor_idx = k + 1;
        }
    }

    /// Backspace (see `erased`).
    pub fn delete(&mut self)
        ensures
            final(self)@ == erased(old(self)@),
    {
        if self.cursor_idx > 0 {
            let prev_idx = self.cursor_idx - 1;
            let len_chars = self.content.as_str().unicode_len();
            if prev_idx < len_chars {
                let ghost old_chars = self.content@;
                let mut rebuilt = String::from_str(self.content.as_str().substring_char(0, prev_idx));
                rebuilt.append(self.content.as_str().substring_char(prev_idx + 1, len_chars));
                assert(rebuilt@ =~= old_chars.remove(prev_idx as int));
                self.content = rebuilt;
                self.cursor_idx = prev_idx;
            }
        }
    }

    /// Moves the cursor one character left, stopping at the start (see `stepped_left`).
    pub fn move_left(&mut self)
        ensures
            final(self)@ == stepped_left(old(self)@),
            final(self).content == old(self).content,
    {
        if self.cursor_idx > 0 {
            self.cursor_idx -= 1;
        }
    }

    /// Moves the cursor one character right, stopping at the end of the text
    /// (see `stepped_right`).
    pub fn move_right(&mut self)
        ensures
            final(self)@ == stepped_right(old(self)@),
            final(self).content == old(self).content,
    {
        let len = self.content.as_str().unicode_len();
        if self.cursor_idx < len {
            self.cursor_idx += 1;
        }
    }

    /// The lines that show the buffer with its cursor (see `render_text`).
    pub fn render_with_cursor(&self) -> (lines: Vec<Vec<StyledSpan>>)
        ensures
            lines_view(lines@) == render_text(self.content@, self.cursor_idx as int),
    {
        let mut lines: Vec<Vec<StyledSpan>> = Vec::new();
        let mut current_line: Vec<StyledSpan> = Vec::new();
        let text = self.content.as_str();
        let char_count = text.unicode_len();
        let ghost s = self.content@;
        let mut i: usize = 0;
        let mut it = text.chars();
        loop
            invariant
                i <= char_count,
                char_count == s.len(),
                s == self.content@,
                vstd::std_specs::iter::IteratorSpec::remaining(&it) == s.skip(i as int),
                vstd::std_specs::iter::IteratorSpec::obeys_prophetic_iter_laws(&it),
                lines_view(lines@) == render_prefix(s, self.cursor_idx as int, i as nat).0,
                line_view(current_line) == render_prefix(s, self.cursor_idx as int, i as nat).1,
            ensures
                i == char_count,
                lines_view(lines@) == render_prefix(s, self.cursor_idx as int, i as nat).0,
                line_view(current_line) == render_prefix(s, self.cursor_idx as int, i as nat).1,
            decreases char_count - i,
        {
            let next = it.next();
            match next {
                None => {
                    assert(s.skip(i as int).len() == 0);
                    break;
                }
                Some(c) => {
                    assert(s.skip(i as int)[0] == s[i as int]);
                    assert(s.skip(i as int).drop_first() =~= s.skip(i + 1));
                    let is_cursor = i == self.cursor_idx;
                    if c == '\n' {
                        if is_cursor {
                            current_line.push(StyledSpan { text: char_string(' '), style: SpanStyle::Cursor });
                        }
                        assert(line_view(current_line) =~= render_prefix(s, self.cursor_idx as int, (i + 1) as nat).0.last());
                        let finished = current_line;
                        lines.push(finished);
                        current_line = Vec::new();
                    } else {
                        let style = if is_cursor { SpanStyle::Cursor } else { SpanStyle::Plain };
                        current_line.push(StyledSpan { text: char_string(c), style });
                    }
                    i = i + 1;
                    assert(lines_view(lines@) =~= render_prefix(s, self.cursor_idx as int, i as nat).0);
                    assert(line_view(current_line) =~= render_prefix(s, self.cursor_idx as int, i as nat).1);
                }
            }
        }
        if self.cursor_idx == char_count {
            current_line.push(StyledSpan { text: char_string(' '), style: SpanStyle::Cursor });
        }
        assert(line_view(current_line) =~= render_text(s, self.cursor_idx as int).last());
        lines.push(current_line);
        assert(lines_view(lines@) =~= render_text(s, self.cursor_idx as int));
        lines
    }
}

} // verus!
