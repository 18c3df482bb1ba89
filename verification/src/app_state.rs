use vstd::prelude::*;
use crate::body::{BodyManager, body_acceptable};
use crate::headers::{HeaderManager, rows_view};
use crate::text_buffer::{BufferView, TextBuffer, erased, stepped_left, stepped_right, typed};

verus! {

/// Whether keys navigate between the panes or edit the selected one.
#[derive(Clone, Copy, Debug, PartialEq, Eq, Structural)]
pub enum EditorMode {
    View,
    Edit,
}

/// The panes of the main screen.
#[derive(Clone, Copy, Debug, PartialEq, Eq, Structural)]
pub enum MainScreenElement {
    Url,
    Headers,
    Response,
    Body,
}

/// The keys that the editor tells apart.
#[derive(Clone, Copy, Debug, PartialEq, Eq, Structural)]
pub enum KeyCode {
    Char(char),
    Enter,
    Tab,
    Esc,
    Backspace,
    Left,
    Right,
    Up,
    Down,
    /// Any other key.
    Other,
}

/// `serde_json::Value` as an opaque value carried by the application state.
#[verifier::external_type_specification]
#[verifier::external_body]
pub struct ExJsonValue(serde_json::Value);

/// The `serde_json::Value::String` that holds `text`.
pub uninterp spec fn json_string_value(text: Seq<char>) -> serde_json::Value;

/// `serde_json::Value::String(text)`: the JSON string value holding `text`
/// (for the empty string, the value that `json!("")` builds). The value is
/// opaque here; the contract names it `json_string_value(text@)`.
#[verifier::external_body]
fn json_string(text: String) -> (v: serde_json::Value)
    ensures
        v == json_string_value(text@),
{
    serde_json::Value::String(text)
}

/// The whole state of the client.
pub struct AppState {
    pub selected_section: MainScreenElement,
    pub url_buffer: TextBuffer,
    pub last_response: String,
    pub header_manager: HeaderManager,
    pub body_manager: BodyManager,
    pub current_body_json: serde_json::Value,
    pub mode: EditorMode,
}

/// The state as plain values, with the stored JSON value as it is.
#[verifier::ext_equal]
pub struct AppView {
    pub section: MainScreenElement,
    pub mode: EditorMode,
    pub url: BufferView,
    pub rows: Seq<(BufferView, BufferView)>,
    pub selected: nat,
    pub editing_value: bool,
    pub body: BufferView,
    pub body_valid: bool,
    pub last_response: Seq<char>,
    pub body_json: serde_json::Value,
}

impl View for AppState {
    type V = AppView;

    open spec fn view(&self) -> AppView {
        AppView {
            section: self.selected_section,
            mode: self.mode,
            url: self.url_buffer@,
            rows: rows_view(self.header_manager.headers@),
            selected: self.header_manager.selected_index as nat,
            editing_value: self.header_manager.editing_value,
            body: self.body_manager.buffer@,
            body_valid: self.body_manager.is_valid,
            last_response: self.last_response@,
            body_json: self.current_body_json,
        }
    }
}

/// The selected header row exists whenever there is any row.
pub open spec fn selection_in_range(v: AppView) -> bool {
    v.rows.len() > 0 ==> v.selected < v.rows.len()
}

/// The empty buffer.
pub open spec fn empty_buffer() -> BufferView {
    (Seq::empty(), 0)
}

/// `rows` with the name (or, when `value` holds, the value) of row `i` replaced by `b`.
pub open spec fn set_row_part(rows: Seq<(BufferView, BufferView)>, i: int, value: bool, b: BufferView) -> Seq<(BufferView, BufferView)> {
    if value {
        rows.update(i, (rows[i].0, b))
    } else {
        rows.update(i, (b, rows[i].1))
    }
}

/// The buffer of the selected row that typing goes to.
pub open spec fn active_part(v: AppView) -> BufferView {
    if v.editing_value { v.rows[v.selected as int].1 } else { v.rows[v.selected as int].0 }
}

/// `v` with the active header buffer replaced by `b`.
pub open spec fn with_active_part(v: AppView, b: BufferView) -> AppView {
    AppView { rows: set_row_part(v.rows, v.selected as int, v.editing_value, b), ..v }
}

/// Left: from the response pane back to the headers; while editing the
/// headers, from the value back to the name.
pub open spec fn on_left(v: AppView) -> AppView {
    if v.section == MainScreenElement::Response {
        AppView { section: MainScreenElement::Headers, ..v }
    } else if v.mode == EditorMode::Edit && v.section == MainScreenElement::Headers {
        AppView { editing_value: false, ..v }
    } else {
        v
    }
}

/// Right: in view mode, from the headers or the body to the response pane;
/// while editing the headers, from the name to the value.
pub open spec fn on_right(v: AppView) -> AppView {
    if v.section != MainScreenElement::Response && v.section != MainScreenElement::Url && v.mode
        == EditorMode::View {
        AppView { section: MainScreenElement::Response, ..v }
    } else if v.mode == EditorMode::Edit && v.section == MainScreenElement::Headers {
        AppView { editing_value: true, ..v }
    } else {
        v
    }
}

/// Up: while editing the headers, the previous row; otherwise from the
/// headers or the response to the URL, and from the body to the headers.
pub open spec fn on_up(v: AppView) -> AppView {
    if v.mode == EditorMode::Edit && v.section == MainScreenElement::Headers {
        if v.selected > 0 {
            AppView { selected: (v.selected - 1) as nat, ..v }
        } else {
            v
        }
    } else if v.section == MainScreenElement::Url {
        v
    } else if v.section == MainScreenElement::Response || v.section == MainScreenElement::Headers {
        AppView { section: MainScreenElement::Url, ..v }
    } else {
        AppView { section: MainScreenElement::Headers, ..v }
    }
}

/// Down: while editing the headers, the next row if there is one; otherwise
/// from the URL to the headers and from the headers to the body.
pub open spec fn on_down(v: AppView) -> AppView {
    if v.mode == EditorMode::Edit && v.section == MainScreenElement::Headers {
        if v.selected + 1 < v.rows.len() {
            AppView { selected: v.selected + 1, ..v }
        } else {
            v
        }
    } else if v.section == MainScreenElement::Response || v.section == MainScreenElement::Body {
        v
    } else if v.section == MainScreenElement::Url {
        AppView { section: MainScreenElement::Headers, ..v }
    } else {
        AppView { section: MainScreenElement::Body, ..v }
    }
}

/// Switches between view and edit mode.
pub open spec fn on_toggle_edit(v: AppView) -> AppView {
    if v.mode == EditorMode::View {
        AppView { mode: EditorMode::Edit, ..v }
    } else {
        AppView { mode: EditorMode::View, ..v }
    }
}

/// The body replaced by `b`, with its acceptability checked again.
pub open spec fn with_body(v: AppView, b: BufferView) -> AppView {
    AppView { body: b, body_valid: body_acceptable(b.0), ..v }
}

/// Backspace in the selected pane's buffer.
pub open spec fn on_delete_char(v: AppView) -> AppView {
    match v.section {
        MainScreenElement::Url => AppView { url: erased(v.url), ..v },
        MainScreenElement::Body => with_body(v, erased(v.body)),
        MainScreenElement::Headers => if v.rows.len() > 0 {
            with_active_part(v, erased(active_part(v)))
        } else {
            v
        },
        MainScreenElement::Response => v,
    }
}

/// The character that a key types: its own for a character key, a newline
/// for Enter, none for the others.
pub open spec fn typed_char(key: KeyCode) -> Option<char> {
    match key {
        KeyCode::Char(c) => Some(c),
        KeyCode::Enter => Some('\n'),
        _ => None,
    }
}

/// Whether a key types a character other than a newline, the only typing
/// that reaches a header row.
pub open spec fn types_into_row(key: KeyCode) -> bool {
    match typed_char(key) {
        Some(c) => c != '\n',
        None => false,
    }
}

/// A new empty header row at the end, with its name selected.
pub open spec fn on_add_header(v: AppView) -> AppView {
    AppView {
        rows: v.rows.push((empty_buffer(), empty_buffer())),
        selected: v.rows.len(),
        editing_value: false,
        ..v
    }
}

/// The selected header row removed, the selection moving up when it was
/// on the last row.
pub open spec fn on_remove_header(v: AppView) -> AppView {
    if v.rows.len() > 0 {
        let rows = v.rows.remove(v.selected as int);
        AppView {
            rows: rows,
            selected: if v.selected >= rows.len() && v.selected > 0 {
                (v.selected - 1) as nat
            } else {
                v.selected
            },
            ..v
        }
    } else {
        v
    }
}

/// Typing the key's character into the selected pane. The URL and the
/// headers take no newline; typing into a header list without rows first
/// adds one.
pub open spec fn on_capture_char(v: AppView, key: KeyCode) -> AppView {
    match typed_char(key) {
        None => v,
        Some(c) => match v.section {
            MainScreenElement::Url => if c == '\n' {
                v
            } else {
                AppView { url: typed(v.url, c), ..v }
            },
            MainScreenElement::Body => with_body(v, typed(v.body, c)),
            MainScreenElement::Headers => if c == '\n' {
                v
            } else {
                let w = if v.rows.len() == 0 { on_add_header(v) } else { v };
                with_active_part(w, typed(active_part(w), c))
            },
            MainScreenElement::Response => v,
        },
    }
}

/// Moves the cursor of the selected pane's buffer with `step`.
pub open spec fn on_cursor_move(v: AppView, step: spec_fn(BufferView) -> BufferView) -> AppView {
    match v.section {
        MainScreenElement::Url => AppView { url: step(v.url), ..v },
        MainScreenElement::Body => AppView { body: step(v.body), ..v },
        MainScreenElement::Headers => if v.rows.len() > 0 {
            with_active_part(v, step(active_part(v)))
        } else {
            v
        },
        MainScreenElement::Response => v,
    }
}

/// The cursor of the selected pane one step left.
pub open spec fn on_cursor_left(v: AppView) -> AppView {
    on_cursor_move(v, |b: BufferView| stepped_left(b))
}

/// The cursor of the selected pane one step right.
pub open spec fn on_cursor_right(v: AppView) -> AppView {
    on_cursor_move(v, |b: BufferView| stepped_right(b))
}

impl AppState {
    /// The state at start: URL pane selected in view mode, empty URL, body
    /// and response, and the default header row.
    pub fn new() -> (s: Self)
        ensures
            s@.section == MainScreenElement::Url,
            s@.mode == EditorMode::View,
            s@.url == empty_buffer(),
            s@.rows == seq![(("Content-Type"@, "Content-Type"@.len()), ("application/json"@, "application/json"@.len()))],
            s@.selected == 0,
            !s@.editing_value,
            s@.body == empty_buffer(),
            s@.body_valid,
            s@.last_response == Seq::<char>::empty(),
            s@.body_json == json_string_value(Seq::<char>::empty()),
            selection_in_range(s@),
            crate::events::single_line_fields(s@),
            crate::events::body_flag_truthful(s@),
            crate::events::cursors_in_text(s@),
    {
        let s = AppState {
            selected_section: MainScreenElement::Url,
            url_buffer: TextBuffer::new(),
            last_response: String::new(),
            header_manager: HeaderManager::new(),
            body_manager: BodyManager::new(),
            current_body_json: json_string(String::new()),
            mode: EditorMode::View,
        };
        proof {
            reveal_strlit("Content-Type");
            reveal_strlit("application/json");
        }
        assert(s@.rows =~= seq![(("Content-Type"@, "Content-Type"@.len()), ("application/json"@, "application/json"@.len()))]);
        s
    }

    /// See `on_left`.
    pub fn left(&mut self)
        ensures
            final(self)@ == on_left(old(self)@),
    {
        if self.selected_section == MainScreenElement::Response {
            self.selected_section = MainScreenElement::Headers;
        } else if self.mode == EditorMode::Edit && self.selected_section == MainScreenElement::Headers {
            if self.header_manager.editing_value {
                self.header_manager.editing_value = false;
            }
        }
    }

    /// See `on_right`.
    pub fn right(&mut self)
        ensures
            final(self)@ == on_right(old(self)@),
    {
        if self.selected_section != MainScreenElement::Response && self.selected_section
            != MainScreenElement::Url && self.mode == EditorMode::View {
            self.selected_section = MainScreenElement::Response
        } else if self.mode == EditorMode::Edit && self.selected_section == MainScreenElement::Headers {
            if !self.header_manager.editing_value {
                self.header_manager.editing_value = true;
            }
        }
    }

    /// See `on_up`.
    pub fn up(&mut self)
        ensures
            final(self)@ == on_up(old(self)@),
    {
        if self.mode == EditorMode::Edit && self.selected_section == MainScreenElement::Headers {
            if self.header_manager.selected_index > 0 {
                self.header_manager.selected_index -= 1;
            }
            return ;
        }
        if self.selected_section == MainScreenElement::Url {
        } else if self.selected_section == MainScreenElement::Response || self.selected_section
            == MainScreenElement::Headers {
            self.selected_section = MainScreenElement::Url;
        } else {
            self.selected_section = MainScreenElement::Headers;
        }
    }

    /// See `on_down`.
    pub fn down(&mut self)
        ensures
            final(self)@ == on_down(old(self)@),
    {
        if self.mode == EditorMode::Edit && self.selected_section == MainScreenElement::Headers {
            if self.header_manager.selected_index < self.header_manager.headers.len().saturating_sub(1) {
                self.header_manager.selected_index += 1;
            }
            return ;
        }
        if self.selected_section == MainScreenElement::Response || self.selected_section
            == MainScreenElement::Body {
        } else if self.selected_section == MainScreenElement::Url {
            self.selected_section = MainScreenElement::Headers;
        } else {
            self.selected_section = MainScreenElement::Body;
        }
    }

    /// See `on_toggle_edit`.
    pub fn toggle_edit(&mut self)
        ensures
            final(self)@ == on_toggle_edit(old(self)@),
    {
        if self.mode == EditorMode::View {
            self.mode = EditorMode::Edit
        } else {
            self.mode = EditorMode::View
        }
    }
    /// See `on_delete_char`.
    pub fn delete_char(&mut self)
        requires
            old(self)@.section == MainScreenElement::Headers ==> selection_in_range(old(self)@),
        ensures
            final(self)@ == on_delete_char(old(self)@),
    {
        match self.selected_section {
            MainScreenElement::Url => {
                self.url_buffer.delete();
            },
            MainScreenElement::Body => {
                self.body_manager.pop();
            },
            MainScreenElement::Headers => {
                let ghost v = self@;
                if let Some(buf) = self.header_manager.get_active_buffer_mut() {
                    buf.delete();
                }
                proof {
                    if v.rows.len() > 0 {
                        assert(self@.rows =~= on_delete_char(v).rows);
                    }
                }
                assert(self@ =~= on_delete_char(v));
            },
            _ => {},
        }
    }

    /// See `on_capture_char`.
    pub fn capture_char(&mut self, keycode: KeyCode)
        requires
            old(self)@.section == MainScreenElement::Headers && types_into_row(keycode)
                ==> selection_in_range(old(self)@),
        ensures
            final(self)@ == on_capture_char(old(self)@, keycode),
    {
        let c_opt = match keycode {
            KeyCode::Char(c) => Some(c),
            KeyCode::Enter => Some('\n'),
            _ => None,
        };
        if let Some(c) = c_opt {
            match self.selected_section {
                MainScreenElement::Url => {
                    if c == '\n' {
                        return ;
                    }
                    self.url_buffer.insert(c);
                },
                MainScreenElement::Body => {
                    self.body_manager.update(c);
                },
                MainScreenElement::Headers => {
                    if c == '\n' {
                        return ;
                    }
                    let ghost v = self@;
                    if self.header_manager.headers.len() == 0 {
                        self.header_manager.add_new();
                    }
                    let ghost w = self@;
                    assert(w == if v.rows.len() == 0 { on_add_header(v) } else { v });
                    if let Some(buf) = self.header_manager.get_active_buffer_mut() {
                        buf.insert(c);
                    }
                    assert(self@.rows =~= with_active_part(w, typed(active_part(w), c)).rows);
                    assert(self@ =~= with_active_part(w, typed(active_part(w), c)));
                },
                _ => {},
            }
        }
    }

    /// See `on_add_header`.
    pub fn add_new_header(&mut self)
        ensures
            final(self)@ == on_add_header(old(self)@),
    {
        self.header_manager.add_new();
    }

    /// See `on_remove_header`.
    pub fn remove_current_header(&mut self)
        requires
            selection_in_range(old(self)@),
        ensures
            final(self)@ == on_remove_header(old(self)@),
    {
        self.header_manager.remove_current();
    }

    /// See `on_cursor_left`.
    pub fn cursor_left(&mut self)
        requires
            old(self)@.section == MainScreenElement::Headers ==> selection_in_range(old(self)@),
        ensures
            final(self)@ == on_cursor_left(old(self)@),
    {
        let ghost v = self@;
        match self.selected_section {
            MainScreenElement::Url => self.url_buffer.move_left(),
            MainScreenElement::Body => self.body_manager.buffer.move_left(),
            MainScreenElement::Headers => {
                if let Some(buf) = self.header_manager.get_active_buffer_mut() {
                    buf.move_left();
                }
            },
            _ => {},
        }
        proof {
            if v.section == MainScreenElement::Headers && v.rows.len() > 0 {
                assert(self@.rows =~= on_cursor_left(v).rows);
            }
        }
        assert(self@ =~= on_cursor_left(v));
    }

    /// See `on_cursor_right`.
    pub fn cursor_right(&mut self)
        requires
            old(self)@.section == MainScreenElement::Headers ==> selection_in_range(old(self)@),
        ensures
            final(self)@ == on_cursor_right(old(self)@),
    {
        let ghost v = self@;
        match self.selected_section {
            MainScreenElement::Url => self.url_buffer.move_right(),
            MainScreenElement::Body => self.body_manager.buffer.move_right(),
            MainScreenElement::Headers => {
                if let Some(buf) = self.header_manager.get_active_buffer_mut() {
                    buf.move_right();
                }
            },
            _ => {},
        }
        proof {
            if v.section == MainScreenElement::Headers && v.rows.len() > 0 {
                assert(self@.rows =~= on_cursor_right(v).rows);
            }
        }
        assert(self@ =~= on_cursor_right(v));
    }
}

} // verus!
