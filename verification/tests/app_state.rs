use reqtui::app_state::{AppState, EditorMode, KeyCode, MainScreenElement};
use reqtui::events::{KeyPress, LoopAction};
use reqtui::layout::Area;
use reqtui::popup::Accent;
use reqtui::styled::SpanStyle;

fn press(code: KeyCode) -> KeyPress {
    KeyPress { code, ctrl: false, is_press: true }
}

fn ctrl(code: KeyCode) -> KeyPress {
    KeyPress { code, ctrl: true, is_press: true }
}

fn type_str(app: &mut AppState, s: &str) {
    for ch in s.chars() {
        assert_eq!(app.handle_key(press(KeyCode::Char(ch))), LoopAction::Continue);
    }
}

#[test]
fn initial_state() {
    let app = AppState::new();
    assert_eq!(app.selected_section, MainScreenElement::Url);
    assert_eq!(app.mode, EditorMode::View);
    assert_eq!(app.url_buffer.content, "");
    assert_eq!(app.last_response, "");
    assert_eq!(app.header_manager.headers.len(), 1);
    assert!(app.body_manager.is_valid);
    assert_eq!(app.current_body_json, serde_json::Value::String(String::new()));
    assert!(app.ready_for_key(press(KeyCode::Char('x'))));
}

#[test]
fn view_mode_navigation() {
    let mut app = AppState::new();
    app.down();
    assert_eq!(app.selected_section, MainScreenElement::Headers);
    app.right();
    assert_eq!(app.selected_section, MainScreenElement::Response);
    app.down();
    assert_eq!(app.selected_section, MainScreenElement::Response);
    app.left();
    assert_eq!(app.selected_section, MainScreenElement::Headers);
    app.down();
    assert_eq!(app.selected_section, MainScreenElement::Body);
    app.down();
    assert_eq!(app.selected_section, MainScreenElement::Body);
    app.up();
    assert_eq!(app.selected_section, MainScreenElement::Headers);
    app.up();
    assert_eq!(app.selected_section, MainScreenElement::Url);
    app.up();
    assert_eq!(app.selected_section, MainScreenElement::Url);
    app.right();
    assert_eq!(app.selected_section, MainScreenElement::Url);
}

#[test]
fn edit_mode_header_navigation() {
    let mut app = AppState::new();
    app.selected_section = MainScreenElement::Headers;
    app.toggle_edit();
    assert_eq!(app.mode, EditorMode::Edit);
    app.add_new_header();
    app.up();
    assert_eq!(app.header_manager.selected_index, 0);
    app.up();
    assert_eq!(app.header_manager.selected_index, 0);
    app.down();
    assert_eq!(app.header_manager.selected_index, 1);
    app.down();
    assert_eq!(app.header_manager.selected_index, 1);
    app.right();
    assert!(app.header_manager.editing_value);
    app.left();
    assert!(!app.header_manager.editing_value);
    assert_eq!(app.selected_section, MainScreenElement::Headers);
    app.toggle_edit();
    assert_eq!(app.mode, EditorMode::View);
}

#[test]
fn url_refuses_newline() {
    let mut app = AppState::new();
    app.capture_char(KeyCode::Char('h'));
    app.capture_char(KeyCode::Enter);
    app.capture_char(KeyCode::Tab);
    assert_eq!(app.url_buffer.content, "h");
    app.cursor_left();
    app.capture_char(KeyCode::Char('>'));
    assert_eq!(app.url_buffer.content, ">h");
    app.cursor_right();
    app.delete_char();
    assert_eq!(app.url_buffer.content, ">");
}

#[test]
fn body_takes_newline_and_tracks_validity() {
    let mut app = AppState::new();
    app.selected_section = MainScreenElement::Body;
    app.capture_char(KeyCode::Char('['));
    assert!(!app.body_manager.is_valid);
    app.capture_char(KeyCode::Enter);
    app.capture_char(KeyCode::Char(']'));
    assert_eq!(app.body_manager.buffer.content, "[\n]");
    assert!(app.body_manager.is_valid);
    app.delete_char();
    assert!(!app.body_manager.is_valid);
}

#[test]
fn typing_into_empty_header_list_adds_row() {
    let mut app = AppState::new();
    app.selected_section = MainScreenElement::Headers;
    app.remove_current_header();
    assert_eq!(app.header_manager.headers.len(), 0);
    app.capture_char(KeyCode::Enter);
    assert_eq!(app.header_manager.headers.len(), 0);
    app.capture_char(KeyCode::Char('X'));
    assert_eq!(app.header_manager.headers.len(), 1);
    assert_eq!(app.header_manager.headers[0].0.content, "X");
    assert_eq!(app.header_manager.headers[0].1.content, "");
    app.delete_char();
    assert_eq!(app.header_manager.headers[0].0.content, "");
}

#[test]
fn response_pane_takes_no_text() {
    let mut app = AppState::new();
    app.selected_section = MainScreenElement::Response;
    app.capture_char(KeyCode::Char('a'));
    app.delete_char();
    app.cursor_left();
    assert_eq!(app.url_buffer.content, "");
    assert_eq!(app.body_manager.buffer.content, "");
    assert!(app.get_editor().is_none());
}

#[test]
fn key_handling_quits_on_q_and_ctrl_c() {
    let mut app = AppState::new();
    assert_eq!(app.handle_key(press(KeyCode::Char('q'))), LoopAction::Quit);
    assert_eq!(app.handle_key(ctrl(KeyCode::Char('c'))), LoopAction::Quit);
    assert_eq!(app.handle_key(press(KeyCode::Enter)), LoopAction::Continue);
    assert_eq!(app.mode, EditorMode::Edit);
    assert_eq!(app.handle_key(press(KeyCode::Char('q'))), LoopAction::Continue);
    assert_eq!(app.url_buffer.content, "q");
    assert_eq!(app.handle_key(ctrl(KeyCode::Char('c'))), LoopAction::Quit);
}

#[test]
fn key_releases_are_ignored() {
    let mut app = AppState::new();
    let release = KeyPress { code: KeyCode::Char('q'), ctrl: false, is_press: false };
    assert_eq!(app.handle_key(release), LoopAction::Continue);
    assert_eq!(app.selected_section, MainScreenElement::Url);
}

#[test]
fn key_handling_edits_url_and_headers() {
    let mut app = AppState::new();
    app.handle_key(press(KeyCode::Enter));
    type_str(&mut app, "http://x");
    app.handle_key(press(KeyCode::Left));
    app.handle_key(press(KeyCode::Backspace));
    assert_eq!(app.url_buffer.content, "http:/x");
    app.handle_key(press(KeyCode::Esc));
    assert_eq!(app.mode, EditorMode::View);
    app.handle_key(press(KeyCode::Down));
    app.handle_key(press(KeyCode::Enter));
    app.handle_key(press(KeyCode::Tab));
    assert_eq!(app.header_manager.headers.len(), 2);
    type_str(&mut app, "Accept");
    // In edit mode Right moves the cursor, so the value is reached by hand.
    app.handle_key(press(KeyCode::Right));
    assert!(!app.header_manager.editing_value);
    app.header_manager.editing_value = true;
    type_str(&mut app, "*/*");
    assert_eq!(app.header_manager.headers[1].0.content, "Accept");
    assert_eq!(app.header_manager.headers[1].1.content, "*/*");
    app.handle_key(ctrl(KeyCode::Char('d')));
    assert_eq!(app.header_manager.headers.len(), 1);
    assert_eq!(app.header_manager.selected_index, 0);
}

#[test]
fn url_popup_contents() {
    let mut app = AppState::new();
    app.capture_char(KeyCode::Char('a'));
    let p = app.get_editor().unwrap();
    assert_eq!(p.title, " Edit URL (Esc to Exit) ");
    assert_eq!(p.accent, Accent::Cyan);
    assert!(p.footer.is_none());
    assert_eq!(p.lines.len(), 1);
    assert_eq!(p.lines[0].len(), 2);
    assert_eq!(p.lines[0][1].style, SpanStyle::Cursor);
}

#[test]
fn body_popup_reports_validity() {
    let mut app = AppState::new();
    app.selected_section = MainScreenElement::Body;
    let p = app.get_editor().unwrap();
    assert_eq!(p.title, " Edit Body (Valid JSON) ");
    assert_eq!(p.accent, Accent::Green);
    app.capture_char(KeyCode::Char('{'));
    let p = app.get_editor().unwrap();
    assert_eq!(p.title, " Edit Body (INVALID JSON) ");
    assert_eq!(p.accent, Accent::Red);
}

#[test]
fn headers_popup_contents() {
    let mut app = AppState::new();
    app.selected_section = MainScreenElement::Headers;
    app.add_new_header();
    app.header_manager.editing_value = true;
    let p = app.get_editor().unwrap();
    assert_eq!(p.title, " Edit Headers ");
    assert_eq!(p.accent, Accent::Cyan);
    assert_eq!(p.footer.as_deref(), Some("\n(Arrows: Nav, Tab: New, Ctrl+D: Delete)"));
    assert_eq!(p.lines.len(), 2);
    let first: Vec<(String, SpanStyle)> = p.lines[0].iter().map(|s| (s.text.clone(), s.style)).collect();
    assert_eq!(
        first,
        vec![
            ("  ".to_string(), SpanStyle::Plain),
            ("Content-Type".to_string(), SpanStyle::Plain),
            (" : ".to_string(), SpanStyle::Plain),
            ("application/json".to_string(), SpanStyle::Plain),
        ]
    );
    let second: Vec<(String, SpanStyle)> = p.lines[1].iter().map(|s| (s.text.clone(), s.style)).collect();
    assert_eq!(
        second,
        vec![
            ("> ".to_string(), SpanStyle::Marker),
            ("".to_string(), SpanStyle::Plain),
            (" : ".to_string(), SpanStyle::Plain),
            (" ".to_string(), SpanStyle::Cursor),
        ]
    );
}

#[test]
fn editor_overlay_only_in_edit_mode() {
    let mut app = AppState::new();
    let screen = Area { x: 0, y: 0, width: 100, height: 55 };
    assert!(app.editor_overlay(screen).is_none());
    app.toggle_edit();
    let (p, area) = app.editor_overlay(screen).unwrap();
    assert_eq!(p.title, " Edit URL (Esc to Exit) ");
    assert_eq!(area, Area { x: 10, y: 25, width: 80, height: 5 });
}

#[test]
fn arrows_move_between_header_rows_while_editing() {
    let mut app = AppState::new();
    app.selected_section = MainScreenElement::Headers;
    app.handle_key(press(KeyCode::Enter));
    app.handle_key(press(KeyCode::Tab));
    assert_eq!(app.header_manager.selected_index, 1);
    app.handle_key(press(KeyCode::Up));
    assert_eq!(app.header_manager.selected_index, 0);
    app.handle_key(press(KeyCode::Up));
    assert_eq!(app.header_manager.selected_index, 0);
    app.handle_key(press(KeyCode::Down));
    assert_eq!(app.header_manager.selected_index, 1);
    app.handle_key(press(KeyCode::Down));
    assert_eq!(app.header_manager.selected_index, 1);
    assert_eq!(app.selected_section, MainScreenElement::Headers);
    assert_eq!(app.mode, EditorMode::Edit);
    assert_eq!(app.header_manager.headers[0].0.content, "Content-Type");
}

#[test]
fn url_and_body_typing_ignore_header_selection() {
    let mut app = AppState::new();
    app.header_manager.selected_index = 7;
    assert!(app.ready_for_key(press(KeyCode::Char('u'))));
    app.capture_char(KeyCode::Char('u'));
    app.selected_section = MainScreenElement::Body;
    app.capture_char(KeyCode::Char('1'));
    app.selected_section = MainScreenElement::Response;
    app.capture_char(KeyCode::Char('x'));
    assert_eq!(app.url_buffer.content, "u");
    assert_eq!(app.body_manager.buffer.content, "1");
    assert!(app.body_manager.is_valid);
    app.selected_section = MainScreenElement::Headers;
    assert!(app.ready_for_key(press(KeyCode::Char('u'))));
    app.mode = EditorMode::Edit;
    assert!(!app.ready_for_key(press(KeyCode::Char('u'))));
    assert!(!app.ready_for_key(press(KeyCode::Backspace)));
    assert!(app.ready_for_key(press(KeyCode::Up)));
    assert!(app.ready_for_key(press(KeyCode::Enter)));
    app.capture_char(KeyCode::Enter);
    app.handle_key(press(KeyCode::Tab));
    assert_eq!(app.header_manager.selected_index, 1);
}
