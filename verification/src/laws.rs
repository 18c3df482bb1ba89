use vstd::prelude::*;
use crate::app_state::{on_add_header, on_remove_header, AppView, EditorMode, KeyCode, MainScreenElement, on_cursor_left, on_cursor_right, selection_in_range};
use crate::body::body_acceptable;
use crate::events::{LoopAction, on_key, pressed};
use crate::text_buffer::{BufferView, stepped_left, stepped_right, typed};
use crate::popup::{body_popup, url_popup};
use crate::styled::SpanStyle;
use crate::text_buffer::render_text;

verus! {

/// The buffer with its cursor one step right, not past the end.
pub open spec fn one_step_right(b: BufferView) -> BufferView {
    (b.0, if b.1 < b.0.len() { b.1 + 1 } else { b.1 })
}

/// The buffer with its cursor one step left, not below zero.
pub open spec fn one_step_left(b: BufferView) -> BufferView {
    (b.0, if b.1 > 0 { (b.1 - 1) as nat } else { b.1 })
}

/// The buffer with the character before the cursor gone, when there is one
/// within the text.
pub open spec fn one_char_back(b: BufferView) -> BufferView {
    if 0 < b.1 <= b.0.len() {
        (b.0.take(b.1 - 1) + b.0.skip(b.1 as int), (b.1 - 1) as nat)
    } else {
        b
    }
}

/// `rows` with the name (or, when `value` holds, the value) of row `i` set to `b`.
pub open spec fn row_part_set(rows: Seq<(BufferView, BufferView)>, i: int, value: bool, b: BufferView) -> Seq<(BufferView, BufferView)> {
    rows.update(i, if value { (rows[i].0, b) } else { (b, rows[i].1) })
}

/// The part of the selected row that is being edited.
pub open spec fn edited_part(v: AppView) -> BufferView {
    if v.editing_value { v.rows[v.selected as int].1 } else { v.rows[v.selected as int].0 }
}

/// Moving the cursor right moves the cursor of the selected pane's buffer
/// (the URL, the body, or the edited part of the selected header row) one
/// step right, not past the end, and changes nothing else.
pub proof fn lemma_cursor_right_moves_the_pane_cursor(v: AppView)
    requires
        selection_in_range(v),
    ensures
        v.section == MainScreenElement::Url ==> on_cursor_right(v) == (AppView { url: one_step_right(v.url), ..v }),
        v.section == MainScreenElement::Body ==> on_cursor_right(v) == (AppView { body: one_step_right(v.body), ..v }),
        v.section == MainScreenElement::Headers && v.rows.len() > 0 ==> on_cursor_right(v) == (AppView {
            rows: row_part_set(v.rows, v.selected as int, v.editing_value, one_step_right(edited_part(v))),
            ..v
        }),
        v.section == MainScreenElement::Response || v.rows.len() == 0 && v.section
            == MainScreenElement::Headers ==> on_cursor_right(v) == v,
{
}

/// Moving the cursor left moves the cursor of the selected pane's buffer one
/// step left, not below zero, and changes nothing else.
pub proof fn lemma_cursor_left_moves_the_pane_cursor(v: AppView)
    requires
        selection_in_range(v),
    ensures
        v.section == MainScreenElement::Url ==> on_cursor_left(v) == (AppView { url: one_step_left(v.url), ..v }),
        v.section == MainScreenElement::Body ==> on_cursor_left(v) == (AppView { body: one_step_left(v.body), ..v }),
        v.section == MainScreenElement::Headers && v.rows.len() > 0 ==> on_cursor_left(v) == (AppView {
            rows: row_part_set(v.rows, v.selected as int, v.editing_value, one_step_left(edited_part(v))),
            ..v
        }),
        v.section == MainScreenElement::Response || v.rows.len() == 0 && v.section
            == MainScreenElement::Headers ==> on_cursor_left(v) == v,
{
}

/// In edit mode, Left and Right (with or without Control) move the cursor of
/// the selected pane's buffer one step, as `cursor_left` and `cursor_right` do.
pub proof fn lemma_edit_arrows_move_the_cursor(v: AppView, ctrl: bool)
    requires
        v.mode == EditorMode::Edit,
        selection_in_range(v),
    ensures
        on_key(v, pressed(KeyCode::Right, ctrl)) == (on_cursor_right(v), LoopAction::Continue),
        on_key(v, pressed(KeyCode::Left, ctrl)) == (on_cursor_left(v), LoopAction::Continue),
        v.section == MainScreenElement::Body ==> on_key(v, pressed(KeyCode::Right, ctrl)).0.body
            == one_step_right(v.body),
        v.section == MainScreenElement::Url ==> on_key(v, pressed(KeyCode::Right, ctrl)).0.url
            == one_step_right(v.url),
{
}

/// In edit mode, Enter types a newline into the body (at its cursor, with
/// the body checked again) and does nothing in the URL, the headers or the
/// response pane.
pub proof fn lemma_enter_in_edit_mode(v: AppView, ctrl: bool)
    requires
        v.mode == EditorMode::Edit,
    ensures
        v.section == MainScreenElement::Body ==> on_key(v, pressed(KeyCode::Enter, ctrl)) == ((
            AppView {
                body: typed(v.body, '\n'),
                body_valid: body_acceptable(typed(v.body, '\n').0),
                ..v
            },
            LoopAction::Continue,
        )),
        v.section == MainScreenElement::Body ==> on_key(v, pressed(KeyCode::Enter, ctrl)).0.body.0
            == if v.body.1 < v.body.0.len() {
            v.body.0.insert(v.body.1 as int, '\n')
        } else {
            v.body.0.push('\n')
        },
        v.section != MainScreenElement::Body ==> on_key(v, pressed(KeyCode::Enter, ctrl)) == (
        v, LoopAction::Continue),
{
}

/// In edit mode, a character key (without Control, and other than Tab's
/// and Ctrl+D's header actions) types its character into the selected
/// pane: into the body always, into the URL and the edited part of the
/// selected header row unless it is a newline; the response pane takes none.
pub proof fn lemma_typing_in_edit_mode(v: AppView, c: char)
    requires
        v.mode == EditorMode::Edit,
        selection_in_range(v),
    ensures
        ({
            let w = on_key(v, pressed(KeyCode::Char(c), false)).0;
            &&& v.section == MainScreenElement::Body ==> w == (AppView {
                body: typed(v.body, c),
                body_valid: body_acceptable(typed(v.body, c).0),
                ..v
            })
            &&& v.section == MainScreenElement::Url ==> w == if c == '\n' {
                v
            } else {
                AppView { url: typed(v.url, c), ..v }
            }
            &&& v.section == MainScreenElement::Headers && v.rows.len() > 0 ==> w == if c == '\n' {
                v
            } else {
                AppView {
                    rows: row_part_set(v.rows, v.selected as int, v.editing_value, typed(edited_part(v), c)),
                    ..v
                }
            }
            &&& v.section == MainScreenElement::Response ==> w == v
        }),
{
}

/// In edit mode, Backspace removes the character before the cursor of the
/// selected pane's buffer (rechecking the body), and nothing else.
pub proof fn lemma_backspace_in_edit_mode(v: AppView, ctrl: bool)
    requires
        v.mode == EditorMode::Edit,
        selection_in_range(v),
    ensures
        ({
            let w = on_key(v, pressed(KeyCode::Backspace, ctrl)).0;
            &&& v.section == MainScreenElement::Url ==> w == (AppView { url: one_char_back(v.url), ..v })
            &&& v.section == MainScreenElement::Body ==> w == (AppView {
                body: one_char_back(v.body),
                body_valid: body_acceptable(one_char_back(v.body).0),
                ..v
            })
            &&& v.section == MainScreenElement::Headers && v.rows.len() > 0 ==> w == (AppView {
                rows: row_part_set(v.rows, v.selected as int, v.editing_value, one_char_back(edited_part(v))),
                ..v
            })
            &&& v.section == MainScreenElement::Response ==> w == v
        }),
{
    assert(v.url.1 > 0 && v.url.1 <= v.url.0.len() ==> v.url.0.remove(v.url.1 - 1) =~= v.url.0.take(v.url.1 - 1) + v.url.0.skip(v.url.1 as int));
    assert(v.body.1 > 0 && v.body.1 <= v.body.0.len() ==> v.body.0.remove(v.body.1 - 1) =~= v.body.0.take(v.body.1 - 1) + v.body.0.skip(v.body.1 as int));
    if v.rows.len() > 0 {
        let b = edited_part(v);
        assert(b.1 > 0 && b.1 <= b.0.len() ==> b.0.remove(b.1 - 1) =~= b.0.take(b.1 - 1) + b.0.skip(b.1 as int));
    }
}

/// The pane that an arrow key selects in view mode, from `section`.
pub open spec fn view_arrow_target(section: MainScreenElement, key: KeyCode) -> MainScreenElement {
    match (section, key) {
        (MainScreenElement::Headers, KeyCode::Up) => MainScreenElement::Url,
        (MainScreenElement::Response, KeyCode::Up) => MainScreenElement::Url,
        (MainScreenElement::Body, KeyCode::Up) => MainScreenElement::Headers,
        (MainScreenElement::Url, KeyCode::Down) => MainScreenElement::Headers,
        (MainScreenElement::Headers, KeyCode::Down) => MainScreenElement::Body,
        (MainScreenElement::Response, KeyCode::Left) => MainScreenElement::Headers,
        (MainScreenElement::Headers, KeyCode::Right) => MainScreenElement::Response,
        (MainScreenElement::Body, KeyCode::Right) => MainScreenElement::Response,
        _ => section,
    }
}

/// In view mode the arrows move between the panes laid out as: the URL on
/// top; below it the headers over the body on the left and the response on
/// the right. Up from the headers or the response reaches the URL and from
/// the body the headers; Down goes URL, headers, body; Right from the
/// headers or the body reaches the response, and Left goes back from it to
/// the headers. Nothing else changes.
pub proof fn lemma_view_arrows_navigate(v: AppView, key: KeyCode, ctrl: bool)
    requires
        v.mode == EditorMode::View,
        key == KeyCode::Up || key == KeyCode::Down || key == KeyCode::Left || key == KeyCode::Right,
    ensures
        on_key(v, pressed(key, ctrl)) == ((AppView { section: view_arrow_target(v.section, key), ..v }, LoopAction::Continue)),
{
}

/// In view mode, Right from the headers or the body pane selects the
/// response pane.
pub proof fn lemma_right_reaches_response(v: AppView)
    requires
        v.mode == EditorMode::View,
        v.section == MainScreenElement::Headers || v.section == MainScreenElement::Body,
    ensures
        crate::app_state::on_right(v).section == MainScreenElement::Response,
        crate::app_state::on_left(crate::app_state::on_right(v)).section == MainScreenElement::Headers,
{
}

/// The cursor moves one step at a time: right unless at the end, left
/// unless at the start, never changing the text.
pub proof fn lemma_cursor_steps(b: BufferView)
    ensures
        stepped_right(b) == one_step_right(b),
        stepped_left(b) == one_step_left(b),
{
}

/// Typing a character into a header editor without rows first adds a row:
/// the typed character becomes its name, with the cursor after it.
pub proof fn lemma_typing_into_empty_headers(v: AppView, c: char)
    requires
        v.mode == EditorMode::Edit,
        v.section == MainScreenElement::Headers,
        v.rows.len() == 0,
        c != '\n',
    ensures
        on_key(v, pressed(KeyCode::Char(c), false)).0 == (AppView {
            rows: seq![((seq![c], 1nat), (Seq::<char>::empty(), 0nat))],
            selected: 0,
            editing_value: false,
            ..v
        }),
{
    let w = on_key(v, pressed(KeyCode::Char(c), false)).0;
    assert(Seq::<char>::empty().push(c) =~= seq![c]);
    assert(w.rows =~= seq![((seq![c], 1nat), (Seq::<char>::empty(), 0nat))]);
}

/// Adding a header row appends an empty row and selects its name; removing
/// takes out exactly the selected row, keeping the others in order, and the
/// selection stays on the same position or, past the end, on the new last row.
pub proof fn lemma_header_rows_added_and_removed(v: AppView)
    requires
        selection_in_range(v),
    ensures
        on_add_header(v).rows.len() == v.rows.len() + 1,
        on_add_header(v).rows.take(v.rows.len() as int) == v.rows,
        on_add_header(v).rows.last() == ((Seq::<char>::empty(), 0nat), (Seq::<char>::empty(), 0nat)),
        on_add_header(v).selected == v.rows.len(),
        !on_add_header(v).editing_value,
        v.rows.len() > 0 ==> on_remove_header(v).rows == v.rows.take(v.selected as int) + v.rows.skip(
            v.selected + 1int,
        ),
        v.rows.len() > 0 ==> on_remove_header(v).selected == if v.selected + 1 == v.rows.len()
            && v.selected > 0 {
            (v.selected - 1) as nat
        } else {
            v.selected
        },
        v.rows.len() == 0 ==> on_remove_header(v) == v,
{
    assert(on_add_header(v).rows.take(v.rows.len() as int) =~= v.rows);
    if v.rows.len() > 0 {
        assert(on_remove_header(v).rows =~= v.rows.take(v.selected as int) + v.rows.skip(v.selected + 1int));
    }
}

/// In edit mode on the header editor, Up and Down select the previous and
/// the next row, staying within the rows, and change nothing else.
pub proof fn lemma_edit_arrows_select_rows(v: AppView, ctrl: bool)
    requires
        v.mode == EditorMode::Edit,
        v.section == MainScreenElement::Headers,
    ensures
        on_key(v, pressed(KeyCode::Up, ctrl)) == ((AppView {
            selected: if v.selected > 0 { (v.selected - 1) as nat } else { v.selected },
            ..v
        }, LoopAction::Continue)),
        on_key(v, pressed(KeyCode::Down, ctrl)) == ((AppView {
            selected: if v.selected + 1 < v.rows.len() { v.selected + 1 } else { v.selected },
            ..v
        }, LoopAction::Continue)),
{
}

/// The URL editor shows the URL drawn with its cursor under the title
/// " Edit URL (Esc to Exit) " in cyan; the body editor shows the body drawn
/// with its cursor, green and titled "(Valid JSON)" when the body is
/// acceptable, red and titled "(INVALID JSON)" otherwise.
pub proof fn lemma_url_and_body_popups(url: BufferView, body: BufferView, valid: bool)
    ensures
        url_popup(url).lines == render_text(url.0, url.1 as int),
        url_popup(url).title == " Edit URL (Esc to Exit) "@,
        url_popup(url).accent == crate::popup::Accent::Cyan,
        body_popup(body, valid).lines == render_text(body.0, body.1 as int),
        valid ==> body_popup(body, valid).title == " Edit Body (Valid JSON) "@
            && body_popup(body, valid).accent == crate::popup::Accent::Green,
        !valid ==> body_popup(body, valid).title == " Edit Body (INVALID JSON) "@
            && body_popup(body, valid).accent == crate::popup::Accent::Red,
{
}

} // verus!
