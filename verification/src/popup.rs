use vstd::prelude::*;
use crate::app_state::{AppState, MainScreenElement};
use crate::headers::rows_view;
use crate::styled::{SpanStyle, SpanView, StyledSpan, line_view, lines_view, plain_span};
use crate::text_buffer::{BufferView, cursor_cells, cursor_cells_in, cursor_in_text, lemma_render_line_count, lemma_render_shows_cursor_once, newline_free, newlines_in_prefix, render_text};

verus! {

/// The colour of a popup's title and border.
#[derive(Clone, Copy, Debug, PartialEq, Eq, Structural)]
pub enum Accent {
    Cyan,
    Green,
    Red,
}

/// What an editing popup shows: a title, an accent colour, the lines of
/// its content, and an optional closing line of plain text.
pub struct PopupModel {
    pub title: String,
    pub accent: Accent,
    pub lines: Vec<Vec<StyledSpan>>,
    pub footer: Option<String>,
}

/// A popup as plain values.
pub struct PopupView {
    pub title: Seq<char>,
    pub accent: Accent,
    pub lines: Seq<Seq<SpanView>>,
    pub footer: Option<Seq<char>>,
}

impl View for PopupModel {
    type V = PopupView;

    open spec fn view(&self) -> PopupView {
        PopupView {
            title: self.title@,
            accent: self.accent,
            lines: lines_view(self.lines@),
            footer: match self.footer {
                Some(f) => Some(f@),
                None => None,
            },
        }
    }
}

/// The URL editor: the URL with its cursor, in cyan.
pub open spec fn url_popup(url: BufferView) -> PopupView {
    PopupView {
        title: " Edit URL (Esc to Exit) "@,
        accent: Accent::Cyan,
        lines: render_text(url.0, url.1 as int),
        footer: None,
    }
}

/// The body editor: the body with its cursor, green with a "Valid JSON"
/// title when the body is acceptable, red with "INVALID JSON" otherwise.
pub open spec fn body_popup(body: BufferView, valid: bool) -> PopupView {
    PopupView {
        title: if valid { " Edit Body (Valid JSON) "@ } else { " Edit Body (INVALID JSON) "@ },
        accent: if valid { Accent::Green } else { Accent::Red },
        lines: render_text(body.0, body.1 as int),
        footer: None,
    }
}

/// One part of a header row: with its cursor (first line only) when it is
/// being edited, as plain text otherwise.
pub open spec fn header_part(b: BufferView, edited: bool) -> Seq<SpanView> {
    if edited {
        render_text(b.0, b.1 as int)[0]
    } else {
        seq![(b.0, SpanStyle::Plain)]
    }
}

/// One header row: a yellow "> " before the selected row (two blanks before
/// the others), the name, " : ", and the value; the edited part of the
/// selected row shows the cursor.
pub open spec fn header_line(row: (BufferView, BufferView), selected: bool, editing_value: bool) -> Seq<SpanView> {
    let marker = if selected { ("> "@, SpanStyle::Marker) } else { ("  "@, SpanStyle::Plain) };
    seq![marker] + header_part(row.0, selected && !editing_value) + seq![(" : "@, SpanStyle::Plain)]
        + header_part(row.1, selected && editing_value)
}

/// The header editor: one line per row, then the key help, in cyan.
pub open spec fn headers_popup(rows: Seq<(BufferView, BufferView)>, selected: nat, editing_value: bool) -> PopupView {
    PopupView {
        title: " Edit Headers "@,
        accent: Accent::Cyan,
        lines: Seq::new(rows.len(), |i: int| header_line(rows[i], i == selected, editing_value)),
        footer: Some("\n(Arrows: Nav, Tab: New, Ctrl+D: Delete)"@),
    }
}

/// Cursor cells add up over joined spans.
pub proof fn lemma_cursor_cells_concat(a: Seq<SpanView>, b: Seq<SpanView>)
    ensures
        cursor_cells(a + b) == cursor_cells(a) + cursor_cells(b),
    decreases b.len(),
{
    if b.len() == 0 {
        assert(a + b =~= a);
    } else {
        lemma_cursor_cells_concat(a, b.drop_last());
        assert((a + b).drop_last() =~= a + b.drop_last());
        assert((a + b).last() == b.last());
    }
}

/// A line with no cursor-styled span holds no cursor cell.
pub proof fn lemma_no_cursor_spans(l: Seq<SpanView>)
    requires
        forall|i: int| 0 <= i < l.len() ==> (#[trigger] l[i]).1 != SpanStyle::Cursor,
    ensures
        cursor_cells(l) == 0,
    decreases l.len(),
{
    if l.len() > 0 {
        let init = l.drop_last();
        assert forall|i: int| 0 <= i < init.len() implies (#[trigger] init[i]).1 != SpanStyle::Cursor by {
            assert(init[i] == l[i]);
        }
        lemma_no_cursor_spans(init);
    }
}

/// Lines of which one holds a single cursor cell and the others none hold
/// one cursor cell in all.
pub proof fn lemma_cursor_cells_one_line(lines: Seq<Seq<SpanView>>, j: int)
    requires
        0 <= j < lines.len(),
        cursor_cells(lines[j]) == 1,
        forall|i: int| 0 <= i < lines.len() && i != j ==> cursor_cells(#[trigger] lines[i]) == 0,
    ensures
        cursor_cells_in(lines) == 1,
    decreases lines.len(),
{
    let init = lines.drop_last();
    if j < init.len() {
        assert forall|i: int| 0 <= i < init.len() && i != j implies cursor_cells(#[trigger] init[i]) == 0 by {
            assert(init[i] == lines[i]);
        }
        assert(init[j] == lines[j]);
        lemma_cursor_cells_one_line(init, j);
    } else {
        lemma_cursor_cells_none(init, lines);
    }
}

/// Lines with no cursor cell hold none in all.
proof fn lemma_cursor_cells_none(init: Seq<Seq<SpanView>>, lines: Seq<Seq<SpanView>>)
    requires
        init.len() <= lines.len(),
        forall|i: int| 0 <= i < init.len() ==> init[i] == lines[i],
        forall|i: int| 0 <= i < init.len() ==> cursor_cells(#[trigger] lines[i]) == 0,
    ensures
        cursor_cells_in(init) == 0,
    decreases init.len(),
{
    if init.len() > 0 {
        let shorter = init.drop_last();
        assert forall|i: int| 0 <= i < shorter.len() implies shorter[i] == lines[i] by {
            assert(shorter[i] == init[i]);
        }
        lemma_cursor_cells_none(shorter, lines);
        assert(init.last() == lines[init.len() - 1]);
    }
}

/// Text without newlines is drawn on one line.
pub proof fn lemma_single_line_drawn_once(s: Seq<char>, cursor: int)
    requires
        newline_free(s),
    ensures
        render_text(s, cursor).len() == 1,
{
    lemma_render_line_count(s, cursor);
    lemma_no_newlines_counted(s, s.len());
}

proof fn lemma_no_newlines_counted(s: Seq<char>, k: nat)
    requires
        newline_free(s),
        k <= s.len(),
    ensures
        newlines_in_prefix(s, k) == 0,
    decreases k,
{
    if k > 0 {
        lemma_no_newlines_counted(s, (k - 1) as nat);
    }
}

/// The header editor shows every row on its own line, in order, with a
/// yellow "> " before the selected row and two blanks before the others; an
/// unselected row shows its name and value as plain text around " : ". On
/// the selected row, the part being edited (the value when `editing_value`
/// holds, the name otherwise) is drawn with its cursor, as the buffer alone
/// would be, and the other part as plain text. So, when the edited part is a
/// single line with its cursor in it, the whole editor shows exactly one
/// cursor cell.
pub proof fn lemma_headers_popup_shows_the_edited_part(rows: Seq<(BufferView, BufferView)>, selected: nat, editing_value: bool)
    requires
        selected < rows.len(),
    ensures
        ({
            let lines = headers_popup(rows, selected, editing_value).lines;
            let row = rows[selected as int];
            let line = lines[selected as int];
            let name = render_text(row.0.0, row.0.1 as int)[0];
            let value = render_text(row.1.0, row.1.1 as int)[0];
            &&& lines.len() == rows.len()
            &&& forall|i: int| 0 <= i < rows.len() && i != selected ==> #[trigger] lines[i] == seq![
                ("  "@, SpanStyle::Plain),
                (rows[i].0.0, SpanStyle::Plain),
                (" : "@, SpanStyle::Plain),
                (rows[i].1.0, SpanStyle::Plain),
            ]
            &&& !editing_value ==> line == seq![("> "@, SpanStyle::Marker)] + name + seq![
                (" : "@, SpanStyle::Plain),
                (row.1.0, SpanStyle::Plain),
            ]
            &&& editing_value ==> line == seq![
                ("> "@, SpanStyle::Marker),
                (row.0.0, SpanStyle::Plain),
                (" : "@, SpanStyle::Plain),
            ] + value
            &&& (if editing_value { newline_free(row.1.0) && cursor_in_text(row.1) } else {
                newline_free(row.0.0) && cursor_in_text(row.0)
            }) ==> cursor_cells_in(lines) == 1
        }),
{
    let lines = headers_popup(rows, selected, editing_value).lines;
    let row = rows[selected as int];
    assert forall|i: int| 0 <= i < rows.len() && i != selected implies #[trigger] lines[i] == seq![
        ("  "@, SpanStyle::Plain),
        (rows[i].0.0, SpanStyle::Plain),
        (" : "@, SpanStyle::Plain),
        (rows[i].1.0, SpanStyle::Plain),
    ] by {
        assert(lines[i] =~= seq![
            ("  "@, SpanStyle::Plain),
            (rows[i].0.0, SpanStyle::Plain),
            (" : "@, SpanStyle::Plain),
            (rows[i].1.0, SpanStyle::Plain),
        ]);
    }
    let name = render_text(row.0.0, row.0.1 as int)[0];
    let value = render_text(row.1.0, row.1.1 as int)[0];
    if !editing_value {
        assert(lines[selected as int] =~= seq![("> "@, SpanStyle::Marker)] + name + seq![
            (" : "@, SpanStyle::Plain),
            (row.1.0, SpanStyle::Plain),
        ]);
    } else {
        assert(lines[selected as int] =~= seq![
            ("> "@, SpanStyle::Marker),
            (row.0.0, SpanStyle::Plain),
            (" : "@, SpanStyle::Plain),
        ] + value);
    }
    let edited = if editing_value { row.1 } else { row.0 };
    if newline_free(edited.0) && cursor_in_text(edited) {
        lemma_single_line_drawn_once(edited.0, edited.1 as int);
        lemma_render_shows_cursor_once(edited.0, edited.1 as int);
        let r = render_text(edited.0, edited.1 as int);
        assert(r.drop_last() =~= Seq::<Seq<SpanView>>::empty());
        assert(cursor_cells_in(r.drop_last()) == 0);
        assert(r.last() == r[0]);
        assert(cursor_cells(r[0]) == 1);
        let plain_start = seq![("> "@, SpanStyle::Marker)];
        let sep_value = seq![(" : "@, SpanStyle::Plain), (row.1.0, SpanStyle::Plain)];
        let name_sep = seq![("> "@, SpanStyle::Marker), (row.0.0, SpanStyle::Plain), (" : "@, SpanStyle::Plain)];
        lemma_no_cursor_spans(plain_start);
        lemma_no_cursor_spans(sep_value);
        lemma_no_cursor_spans(name_sep);
        if editing_value {
            lemma_cursor_cells_concat(name_sep, value);
        } else {
            lemma_cursor_cells_concat(plain_start, name);
            lemma_cursor_cells_concat(plain_start + name, sep_value);
        }
        assert forall|i: int| 0 <= i < lines.len() && i != selected implies cursor_cells(#[trigger] lines[i]) == 0 by {
            lemma_no_cursor_spans(lines[i]);
        }
        lemma_cursor_cells_one_line(lines, selected as int);
    }
}

impl AppState {
    /// The popup of the selected pane: the URL, header or body editor, and
    /// none for the response pane.
    pub fn get_editor(&self) -> (p: Option<PopupModel>)
        ensures
            match self.selected_section {
                MainScreenElement::Url => p matches Some(m) && m@ == url_popup(self@.url),
                MainScreenElement::Headers => p matches Some(m) && m@ == headers_popup(
                    self@.rows,
                    self@.selected,
                    self@.editing_value,
                ),
                MainScreenElement::Body => p matches Some(m) && m@ == body_popup(
                    self@.body,
                    self@.body_valid,
                ),
                MainScreenElement::Response => p is None,
            },
    {
        match self.selected_section {
            MainScreenElement::Url => Some(self.get_url_popup()),
            MainScreenElement::Headers => Some(self.get_headers_popup()),
            MainScreenElement::Body => Some(self.get_body_popup()),
            _ => None,
        }
    }

    fn get_url_popup(&self) -> (p: PopupModel)
        ensures
            p@ == url_popup(self@.url),
    {
        PopupModel {
            title: String::from_str(" Edit URL (Esc to Exit) "),
            accent: Accent::Cyan,
            lines: self.url_buffer.render_with_cursor(),
            footer: None,
        }
    }

    fn get_body_popup(&self) -> (p: PopupModel)
        ensures
            p@ == body_popup(self@.body, self@.body_valid),
    {
        let accent = if self.body_manager.is_valid {
            Accent::Green
        } else {
            Accent::Red
        };
        let title = if self.body_manager.is_valid {
            " Edit Body (Valid JSON) "
        } else {
            " Edit Body (INVALID JSON) "
        };
        PopupModel {
            title: String::from_str(title),
            accent,
            lines: self.body_manager.buffer.render_with_cursor(),
            footer: None,
        }
    }

    fn get_headers_popup(&self) -> (p: PopupModel)
        ensures
            p@ == headers_popup(self@.rows, self@.selected, self@.editing_value),
    {
        let ghost target = headers_popup(self@.rows, self@.selected, self@.editing_value);
        let mut lines: Vec<Vec<StyledSpan>> = Vec::new();
        let n = self.header_manager.headers.len();
        let sel = self.header_manager.selected_index;
        let editing_value = self.header_manager.editing_value;
        let mut i: usize = 0;
        while i < n
            invariant
                i <= n,
                n == self.header_manager.headers@.len(),
                sel == self.header_manager.selected_index,
                editing_value == self.header_manager.editing_value,
                target == headers_popup(self@.rows, self@.selected, self@.editing_value),
                lines@.len() == i,
                forall|j: int| 0 <= j < i ==> line_view(#[trigger] lines@[j]) == target.lines[j],
            decreases n - i,
        {
            let key_buf = &self.header_manager.headers[i].0;
            let val_buf = &self.header_manager.headers[i].1;
            let ghost row = self@.rows[i as int];
            assert(row == (key_buf@, val_buf@));
            let mut line_spans: Vec<StyledSpan> = Vec::new();
            if i == sel {
                line_spans.push(StyledSpan { text: String::from_str("> "), style: SpanStyle::Marker });
            } else {
                line_spans.push(plain_span(String::from_str("  ")));
            }
            let mut key_part = header_part_spans(key_buf, i == sel && !editing_value);
            line_spans.append(&mut key_part);
            line_spans.push(plain_span(String::from_str(" : ")));
            let mut val_part = header_part_spans(val_buf, i == sel && editing_value);
            line_spans.append(&mut val_part);
            assert(line_view(line_spans) =~= header_line(row, i == sel, editing_value));
            lines.push(line_spans);
            i = i + 1;
        }
        assert(lines_view(lines@) =~= target.lines);
        PopupModel {
            title: String::from_str(" Edit Headers "),
            accent: Accent::Cyan,
            lines,
            footer: Some(String::from_str("\n(Arrows: Nav, Tab: New, Ctrl+D: Delete)")),
        }
    }
}

/// The spans of one part of a header row (see `header_part`).
fn header_part_spans(b: &crate::text_buffer::TextBuffer, edited: bool) -> (spans: Vec<StyledSpan>)
    ensures
        line_view(spans) == header_part(b@, edited),
{
    if edited {
        let mut rendered = b.render_with_cursor();
        let ghost all = rendered@;
        assert(lines_view(all).len() == all.len());
        assert(render_text(b@.0, b@.1 as int).len() > 0);
        let first = rendered.remove(0);
        assert(lines_view(all)[0] == line_view(first));
        first
    } else {
        let mut spans: Vec<StyledSpan> = Vec::new();
        spans.push(plain_span(b.content.clone()));
        assert(line_view(spans) =~= header_part(b@, edited));
        spans
    }
}

} // verus!
