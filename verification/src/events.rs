use vstd::prelude::*;
use crate::body::body_acceptable;
use crate::text_buffer::{cursor_in_text, lemma_edits_keep_cursor_in_text, lemma_edits_keep_newline_free, lemma_erase_undoes_type, newline_free};
use crate::app_state::{active_part, AppState, AppView, EditorMode, KeyCode, MainScreenElement, on_add_header, on_capture_char, on_cursor_left, on_cursor_right, on_delete_char, on_down, on_left, on_remove_header, on_right, on_toggle_edit, on_up, selection_in_range};

verus! {

/// A key event as the event loop sees it.
#[derive(Clone, Copy, Debug, PartialEq, Eq, Structural)]
pub struct KeyPress {
    pub code: KeyCode,
    /// The Control modifier was held.
    pub ctrl: bool,
    /// A press (rather than a release or a repeat).
    pub is_press: bool,
}

/// What the event loop does after a key.
#[derive(Clone, Copy, Debug, PartialEq, Eq, Structural)]
pub enum LoopAction {
    Continue,
    Quit,
}

/// The state after `key`, and whether the client quits.
///
/// Only presses count. Ctrl+C quits everywhere. In view mode, `q` quits,
/// the arrows move between the panes and Enter starts editing. In edit
/// mode on the headers, Tab adds a row, Ctrl+D removes the selected one,
/// and Up and Down select the previous and next row (as the editor's help
/// line "Arrows: Nav" says); otherwise Esc stops editing, Left and Right move the cursor, Backspace
/// deletes, and any other key is typed.
pub open spec fn on_key(v: AppView, key: KeyPress) -> (AppView, LoopAction) {
    if !key.is_press {
        (v, LoopAction::Continue)
    } else if key.code == KeyCode::Char('c') && key.ctrl {
        (v, LoopAction::Quit)
    } else if v.mode == EditorMode::View {
        match key.code {
            KeyCode::Char('q') => (v, LoopAction::Quit),
            KeyCode::Up => (on_up(v), LoopAction::Continue),
            KeyCode::Down => (on_down(v), LoopAction::Continue),
            KeyCode::Left => (on_left(v), LoopAction::Continue),
            KeyCode::Right => (on_right(v), LoopAction::Continue),
            KeyCode::Enter => (on_toggle_edit(v), LoopAction::Continue),
            _ => (v, LoopAction::Continue),
        }
    } else if v.section == MainScreenElement::Headers && key.code == KeyCode::Tab {
        (on_add_header(v), LoopAction::Continue)
    } else if v.section == MainScreenElement::Headers && key.code == KeyCode::Char('d') && key.ctrl {
        (on_remove_header(v), LoopAction::Continue)
    } else if v.section == MainScreenElement::Headers && key.code == KeyCode::Up {
        (on_up(v), LoopAction::Continue)
    } else if v.section == MainScreenElement::Headers && key.code == KeyCode::Down {
        (on_down(v), LoopAction::Continue)
    } else {
        match key.code {
            KeyCode::Esc => (AppView { mode: EditorMode::View, ..v }, LoopAction::Continue),
            KeyCode::Enter => (on_capture_char(v, KeyCode::Enter), LoopAction::Continue),
            KeyCode::Left => (on_cursor_left(v), LoopAction::Continue),
            KeyCode::Right => (on_cursor_right(v), LoopAction::Continue),
            KeyCode::Backspace => (on_delete_char(v), LoopAction::Continue),
            _ => (on_capture_char(v, key.code), LoopAction::Continue),
        }
    }
}

/// A press of `code`, with Control held when `ctrl` holds.
pub open spec fn pressed(code: KeyCode, ctrl: bool) -> KeyPress {
    KeyPress { code, ctrl, is_press: true }
}

/// The URL and every header name and value hold no newline.
pub open spec fn single_line_fields(v: AppView) -> bool {
    &&& newline_free(v.url.0)
    &&& forall|i: int| 0 <= i < v.rows.len() ==> newline_free((#[trigger] v.rows[i]).0.0) && newline_free(v.rows[i].1.0)
}

/// The body flag tells whether the body is blank or JSON.
pub open spec fn body_flag_truthful(v: AppView) -> bool {
    v.body_valid == body_acceptable(v.body.0)
}

/// Only presses do anything: any other key event changes nothing.
pub proof fn lemma_only_presses_count(v: AppView, key: KeyPress)
    requires
        !key.is_press,
    ensures
        on_key(v, key) == (v, LoopAction::Continue),
{
}

/// The client quits exactly on a press of Ctrl+C, or of `q` in view mode.
pub proof fn lemma_quit_exactly_when(v: AppView, key: KeyPress)
    ensures
        (on_key(v, key).1 == LoopAction::Quit) <==> (key.is_press && ((key.code == KeyCode::Char('c')
            && key.ctrl) || (v.mode == EditorMode::View && key.code == KeyCode::Char('q')))),
{
}

/// Quitting leaves the state as it was.
pub proof fn lemma_quit_changes_nothing(v: AppView, key: KeyPress)
    ensures
        on_key(v, key).1 == LoopAction::Quit ==> on_key(v, key).0 == v,
{
}

/// Escape in edit mode goes back to view mode and changes nothing else.
pub proof fn lemma_escape_leaves_edit_mode(v: AppView, ctrl: bool)
    requires
        v.mode == EditorMode::Edit,
    ensures
        on_key(v, pressed(KeyCode::Esc, ctrl)).0 == (AppView { mode: EditorMode::View, ..v }),
{
}

/// Enter in view mode starts editing and changes nothing else.
pub proof fn lemma_enter_starts_editing(v: AppView, ctrl: bool)
    requires
        v.mode == EditorMode::View,
    ensures
        on_key(v, pressed(KeyCode::Enter, ctrl)).0 == (AppView { mode: EditorMode::Edit, ..v }),
{
}

/// Toggling the mode twice gives the state back.
pub proof fn lemma_toggle_twice(v: AppView)
    ensures
        on_toggle_edit(on_toggle_edit(v)) == v,
{
}

/// Every key keeps the selected header row within the rows.
pub proof fn lemma_key_keeps_selection_in_range(v: AppView, key: KeyPress)
    requires
        selection_in_range(v),
    ensures
        selection_in_range(on_key(v, key).0),
{
}

/// No key puts a newline into the URL or into a header name or value.
pub proof fn lemma_key_keeps_fields_single_line(v: AppView, key: KeyPress)
    requires
        selection_in_range(v),
        single_line_fields(v),
    ensures
        single_line_fields(on_key(v, key).0),
{
    let w = on_key(v, key).0;
    lemma_edits_keep_newline_free(v.url, ' ');
    if let Some(c) = crate::app_state::typed_char(key.code) {
        lemma_edits_keep_newline_free(v.url, c);
    }
    if v.rows.len() > 0 {
        lemma_edits_keep_newline_free(active_part(v), ' ');
        if let Some(c) = crate::app_state::typed_char(key.code) {
            lemma_edits_keep_newline_free(active_part(v), c);
        }
    }
    assert forall|i: int| 0 <= i < w.rows.len() implies newline_free((#[trigger] w.rows[i]).0.0)
        && newline_free(w.rows[i].1.0) by {
        if w.rows.len() == v.rows.len() {
            if i != v.selected {
                assert(w.rows[i] == v.rows[i]);
            }
        } else if w.rows.len() > v.rows.len() {
            if i < v.rows.len() {
                assert(w.rows[i] == v.rows[i]);
            } else {
                assert(newline_free(Seq::<char>::empty()));
                if let Some(c) = crate::app_state::typed_char(key.code) {
                    lemma_edits_keep_newline_free((Seq::<char>::empty(), 0nat), c);
                }
            }
        } else {
            if i < v.selected {
                assert(w.rows[i] == v.rows[i]);
            } else {
                assert(w.rows[i] == v.rows[i + 1]);
            }
        }
    }
}

/// Typing any key into any pane keeps the URL and the header names and
/// values free of newlines (Enter types nothing into them).
pub proof fn lemma_capture_keeps_fields_single_line(v: AppView, key: KeyCode)
    requires
        selection_in_range(v),
        single_line_fields(v),
    ensures
        single_line_fields(on_capture_char(v, key)),
{
    let w = on_capture_char(v, key);
    if let Some(c) = crate::app_state::typed_char(key) {
        lemma_edits_keep_newline_free(v.url, c);
        lemma_edits_keep_newline_free((Seq::<char>::empty(), 0nat), c);
        if v.rows.len() > 0 {
            lemma_edits_keep_newline_free(active_part(v), c);
        }
    }
    assert(newline_free(Seq::<char>::empty()));
    assert forall|i: int| 0 <= i < w.rows.len() implies newline_free((#[trigger] w.rows[i]).0.0)
        && newline_free(w.rows[i].1.0) by {
        if i < v.rows.len() && i != v.selected {
            assert(w.rows[i] == v.rows[i]);
        }
    }
}

/// Every cursor stands within its text.
pub open spec fn cursors_in_text(v: AppView) -> bool {
    &&& cursor_in_text(v.url)
    &&& cursor_in_text(v.body)
    &&& forall|i: int| 0 <= i < v.rows.len() ==> cursor_in_text((#[trigger] v.rows[i]).0) && cursor_in_text(v.rows[i].1)
}

/// No key moves a cursor out of its text.
pub proof fn lemma_key_keeps_cursors_in_text(v: AppView, key: KeyPress)
    requires
        selection_in_range(v),
        cursors_in_text(v),
    ensures
        cursors_in_text(on_key(v, key).0),
{
    let w = on_key(v, key).0;
    let c = match crate::app_state::typed_char(key.code) {
        Some(c) => c,
        None => ' ',
    };
    lemma_edits_keep_cursor_in_text(v.url, c);
    lemma_edits_keep_cursor_in_text(v.body, c);
    if v.rows.len() > 0 {
        lemma_edits_keep_cursor_in_text(active_part(v), c);
    }
    lemma_edits_keep_cursor_in_text((Seq::<char>::empty(), 0nat), c);
    assert forall|i: int| 0 <= i < w.rows.len() implies cursor_in_text((#[trigger] w.rows[i]).0)
        && cursor_in_text(w.rows[i].1) by {
        if w.rows.len() == v.rows.len() {
            if i != v.selected {
                assert(w.rows[i] == v.rows[i]);
            }
        } else if w.rows.len() > v.rows.len() {
            if i < v.rows.len() {
                assert(w.rows[i] == v.rows[i]);
            }
        } else {
            if i < v.selected {
                assert(w.rows[i] == v.rows[i]);
            } else {
                assert(w.rows[i] == v.rows[i + 1]);
            }
        }
    }
}

/// The body flag stays truthful under every key.
pub proof fn lemma_key_keeps_body_flag_truthful(v: AppView, key: KeyPress)
    requires
        body_flag_truthful(v),
    ensures
        body_flag_truthful(on_key(v, key).0),
{
}

/// In edit mode, typing a character (without Control) into the URL, the
/// body or a header and then pressing Backspace gives the state back,
/// whenever the cursor stood within the edited text (for the URL and the
/// headers, the character must not be a newline, which they refuse anyway).
pub proof fn lemma_backspace_undoes_typing(v: AppView, c: char)
    requires
        v.mode == EditorMode::Edit,
        selection_in_range(v),
        body_flag_truthful(v),
        c != '\n',
        v.section == MainScreenElement::Url ==> cursor_in_text(v.url),
        v.section == MainScreenElement::Body ==> cursor_in_text(v.body),
        v.section == MainScreenElement::Headers ==> v.rows.len() > 0 && cursor_in_text(active_part(v)),
    ensures
        on_key(
            on_key(v, pressed(KeyCode::Char(c), false)).0,
            pressed(KeyCode::Backspace, false),
        ).0 == v,
{
    if v.section == MainScreenElement::Url {
        lemma_erase_undoes_type(v.url, c);
    }
    if v.section == MainScreenElement::Body {
        lemma_erase_undoes_type(v.body, c);
    }
    if v.section == MainScreenElement::Headers {
        lemma_erase_undoes_type(active_part(v), c);
        let w = on_key(v, pressed(KeyCode::Char(c), false)).0;
        assert(active_part(w) == crate::text_buffer::typed(active_part(v), c));
        let u = on_key(w, pressed(KeyCode::Backspace, false)).0;
        assert(u.rows =~= v.rows);
    }
}

/// Whether handling `key` reads the selected header row: in edit mode on
/// the headers pane, a press of Backspace, Left, Right, or a character other
/// than a newline (Ctrl+D included), unless it is Ctrl+C.
pub open spec fn reads_selected_row(v: AppView, key: KeyPress) -> bool {
    &&& key.is_press
    &&& !(key.code == KeyCode::Char('c') && key.ctrl)
    &&& v.mode == EditorMode::Edit
    &&& v.section == MainScreenElement::Headers
    &&& match key.code {
        KeyCode::Backspace | KeyCode::Left | KeyCode::Right => true,
        KeyCode::Char(c) => c != '\n',
        _ => false,
    }
}

impl AppState {
    /// Whether `key` can be handled here: when handling it reads the
    /// selected header row, that row exists if any does.
    pub fn ready_for_key(&self, key: KeyPress) -> (ok: bool)
        ensures
            ok == (reads_selected_row(self@, key) ==> selection_in_range(self@)),
    {
        let reads = key.is_press && !(key.code == KeyCode::Char('c') && key.ctrl) && self.mode
            == EditorMode::Edit && self.selected_section == MainScreenElement::Headers && match key.code {
            KeyCode::Backspace | KeyCode::Left | KeyCode::Right => true,
            KeyCode::Char(c) => c != '\n',
            _ => false,
        };
        let n = self.header_manager.headers.len();
        !(reads && n > 0 && self.header_manager.selected_index >= n)
    }

    /// Applies `key` to the state (see `on_key`) and says whether to quit.
    pub fn handle_key(&mut self, key: KeyPress) -> (action: LoopAction)
        requires
            reads_selected_row(old(self)@, key) ==> selection_in_range(old(self)@),
        ensures
            (final(self)@, action) == on_key(old(self)@, key),
    {
        if !key.is_press {
            return LoopAction::Continue;
        }
        if key.code == KeyCode::Char('c') && key.ctrl {
            return LoopAction::Quit;
        }
        match self.mode {
            EditorMode::View => match key.code {
                KeyCode::Char('q') => {
                    return LoopAction::Quit;
                },
                KeyCode::Up => self.up(),
                KeyCode::Down => self.down(),
                KeyCode::Left => self.left(),
                KeyCode::Right => self.right(),
                KeyCode::Enter => self.toggle_edit(),
                _ => {},
            },
            EditorMode::Edit => {
                if self.selected_section == MainScreenElement::Headers {
                    if key.code == KeyCode::Tab {
                        self.add_new_header();
                        return LoopAction::Continue;
                    }
                    if key.code == KeyCode::Char('d') && key.ctrl {
                        self.remove_current_header();
                        return LoopAction::Continue;
                    }
                    if key.code == KeyCode::Up {
                        self.up();
                        return LoopAction::Continue;
                    }
                    if key.code == KeyCode::Down {
                        self.down();
                        return LoopAction::Continue;
                    }
                }
                match key.code {
                    KeyCode::Esc => self.mode = EditorMode::View,
                    KeyCode::Enter => self.capture_char(KeyCode::Enter),
                    KeyCode::Left => self.cursor_left(),
                    KeyCode::Right => self.cursor_right(),
                    KeyCode::Backspace => self.delete_char(),
                    _ => self.capture_char(key.code),
                }
            },
        }
        LoopAction::Continue
    }
}

} // verus!
