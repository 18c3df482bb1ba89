use reqtui::app_state::{AppState, EditorMode, KeyCode, MainScreenElement};
use reqtui::events::KeyPress;
use reqtui::styled::SpanStyle;
use reqtui::text_buffer::TextBuffer;

fn press(code: KeyCode) -> KeyPress {
    KeyPress { code, ctrl: false, is_press: true }
}

fn cursor_count(b: &TextBuffer) -> usize {
    b.render_with_cursor().iter().flatten().filter(|s| s.style == SpanStyle::Cursor).count()
}

#[test]
fn cursor_is_drawn_once_within_text_and_never_past_it() {
    for k in 0..=4 {
        let b = TextBuffer { content: "a\nb".to_string(), cursor_idx: k };
        assert_eq!(cursor_count(&b), if k <= 3 { 1 } else { 0 });
    }
}

#[test]
fn backspace_undoes_typing_in_each_pane() {
    for section in [MainScreenElement::Url, MainScreenElement::Body, MainScreenElement::Headers] {
        let mut app = AppState::new();
        app.selected_section = section;
        app.mode = EditorMode::Edit;
        app.handle_key(press(KeyCode::Char('{')));
        app.handle_key(press(KeyCode::Backspace));
        assert_eq!(app.url_buffer.content, "");
        assert_eq!(app.body_manager.buffer.content, "");
        assert!(app.body_manager.is_valid);
        assert_eq!(app.header_manager.headers[0].0.content, "Content-Type");
        assert_eq!(app.header_manager.headers[0].0.cursor_idx, 12);
    }
}

#[test]
fn url_and_headers_stay_single_line() {
    let mut app = AppState::new();
    app.mode = EditorMode::Edit;
    for code in [KeyCode::Char('a'), KeyCode::Enter, KeyCode::Char('b')] {
        app.handle_key(press(code));
    }
    app.selected_section = MainScreenElement::Headers;
    for code in [KeyCode::Enter, KeyCode::Tab, KeyCode::Enter, KeyCode::Char('c'), KeyCode::Enter] {
        app.handle_key(press(code));
    }
    assert_eq!(app.url_buffer.content, "ab");
    assert!(app.header_manager.headers.iter().all(|(k, v)| !k.content.contains('\n') && !v.content.contains('\n')));
    assert_eq!(app.header_manager.headers[1].0.content, "c");
}

#[test]
fn selection_stays_in_range_when_rows_go() {
    let mut app = AppState::new();
    app.selected_section = MainScreenElement::Headers;
    app.mode = EditorMode::Edit;
    app.handle_key(press(KeyCode::Tab));
    app.handle_key(press(KeyCode::Tab));
    let ctrl_d = KeyPress { code: KeyCode::Char('d'), ctrl: true, is_press: true };
    for _ in 0..4 {
        app.handle_key(ctrl_d);
        let n = app.header_manager.headers.len();
        assert!(n == 0 || app.header_manager.selected_index < n);
        assert!(app.ready_for_key(press(KeyCode::Backspace)));
    }
}
