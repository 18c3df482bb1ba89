use reqtui::body::BodyManager;
use reqtui::headers::HeaderManager;
use reqtui::text_buffer::TextBuffer;

#[test]
fn new_body_is_empty_and_valid() {
    let m = BodyManager::new();
    assert_eq!(m.buffer.content, "");
    assert!(m.is_valid);
}

#[test]
fn body_json_validity_follows_typing() {
    let mut m = BodyManager::new();
    m.update('{');
    assert!(!m.is_valid);
    m.update('}');
    assert!(m.is_valid);
    assert_eq!(m.buffer.content, "{}");
    m.pop();
    assert!(!m.is_valid);
    m.pop();
    assert!(m.is_valid);
}

#[test]
fn blank_body_is_valid() {
    let mut m = BodyManager::new();
    m.update(' ');
    m.update('\n');
    m.update('\t');
    assert!(m.is_valid);
}

#[test]
fn unicode_white_space_body_is_valid() {
    let mut m = BodyManager { buffer: TextBuffer::from_string("\u{3000}\u{a0}".to_string()), is_valid: false };
    m.validate();
    assert!(m.is_valid);
}

#[test]
fn non_json_body_is_invalid() {
    let mut m = BodyManager { buffer: TextBuffer::from_string("hello".to_string()), is_valid: true };
    m.validate();
    assert!(!m.is_valid);
}

#[test]
fn json_body_is_valid() {
    let mut m = BodyManager { buffer: TextBuffer::from_string(" {\"a\": [1, 2]} ".to_string()), is_valid: false };
    m.validate();
    assert!(m.is_valid);
}

#[test]
fn acceptable_combines_blank_and_parse() {
    assert!(BodyManager::acceptable("  ", false));
    assert!(BodyManager::acceptable("x", true));
    assert!(!BodyManager::acceptable("x", false));
}

#[test]
fn header_manager_starts_with_content_type() {
    let h = HeaderManager::new();
    assert_eq!(h.headers.len(), 1);
    assert_eq!(h.headers[0].0.content, "Content-Type");
    assert_eq!(h.headers[0].0.cursor_idx, 12);
    assert_eq!(h.headers[0].1.content, "application/json");
    assert_eq!(h.headers[0].1.cursor_idx, 16);
    assert_eq!(h.selected_index, 0);
    assert!(!h.editing_value);
}

#[test]
fn add_new_selects_empty_row() {
    let mut h = HeaderManager::new();
    h.editing_value = true;
    h.add_new();
    assert_eq!(h.headers.len(), 2);
    assert_eq!(h.selected_index, 1);
    assert!(!h.editing_value);
    assert_eq!(h.headers[1].0.content, "");
    assert_eq!(h.headers[1].1.content, "");
}

#[test]
fn remove_current_moves_selection_up_from_last_row() {
    let mut h = HeaderManager::new();
    h.add_new();
    h.add_new();
    h.remove_current();
    assert_eq!(h.headers.len(), 2);
    assert_eq!(h.selected_index, 1);
    h.selected_index = 0;
    h.remove_current();
    assert_eq!(h.headers.len(), 1);
    assert_eq!(h.selected_index, 0);
    assert_eq!(h.headers[0].0.content, "");
    h.remove_current();
    assert_eq!(h.headers.len(), 0);
    assert_eq!(h.selected_index, 0);
    h.remove_current();
    assert_eq!(h.headers.len(), 0);
}

#[test]
fn active_buffer_is_name_or_value() {
    let mut h = HeaderManager::new();
    h.get_active_buffer_mut().unwrap().insert('!');
    assert_eq!(h.headers[0].0.content, "Content-Type!");
    h.editing_value = true;
    h.get_active_buffer_mut().unwrap().delete();
    assert_eq!(h.headers[0].1.content, "application/jso");
    h.remove_current();
    assert!(h.get_active_buffer_mut().is_none());
}
