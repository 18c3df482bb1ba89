use reqtui::styled::{SpanStyle, StyledSpan};
use reqtui::text_buffer::TextBuffer;

fn buf(s: &str, cursor: usize) -> TextBuffer {
    TextBuffer { content: s.to_string(), cursor_idx: cursor }
}

fn show(lines: &[Vec<StyledSpan>]) -> Vec<Vec<(String, SpanStyle)>> {
    lines
        .iter()
        .map(|l| l.iter().map(|s| (s.text.clone(), s.style)).collect())
        .collect()
}

fn p(s: &str) -> (String, SpanStyle) {
    (s.to_string(), SpanStyle::Plain)
}

fn c(s: &str) -> (String, SpanStyle) {
    (s.to_string(), SpanStyle::Cursor)
}

#[test]
fn new_buffer_is_empty() {
    let b = TextBuffer::new();
    assert_eq!(b.content, "");
    assert_eq!(b.cursor_idx, 0);
}

#[test]
fn from_string_puts_cursor_at_end_in_chars() {
    let b = TextBuffer::from_string("héllo→".to_string());
    assert_eq!(b.content, "héllo→");
    assert_eq!(b.cursor_idx, 6);
}

#[test]
fn insert_at_end_appends() {
    let mut b = buf("ab", 2);
    b.insert('c');
    assert_eq!(b.content, "abc");
    assert_eq!(b.cursor_idx, 3);
}

#[test]
fn insert_in_middle_counts_characters_not_bytes() {
    let mut b = buf("é→z", 2);
    b.insert('x');
    assert_eq!(b.content, "é→xz");
    assert_eq!(b.cursor_idx, 3);
}

#[test]
fn insert_at_start() {
    let mut b = buf("bc", 0);
    b.insert('a');
    assert_eq!(b.content, "abc");
    assert_eq!(b.cursor_idx, 1);
}

#[test]
fn insert_past_end_appends_and_pulls_cursor_back() {
    let mut b = buf("ab", 7);
    b.insert('c');
    assert_eq!(b.content, "abc");
    assert_eq!(b.cursor_idx, 3);
}

#[test]
fn delete_removes_char_before_cursor() {
    let mut b = buf("a→c", 2);
    b.delete();
    assert_eq!(b.content, "ac");
    assert_eq!(b.cursor_idx, 1);
}

#[test]
fn delete_at_start_does_nothing() {
    let mut b = buf("abc", 0);
    b.delete();
    assert_eq!(b.content, "abc");
    assert_eq!(b.cursor_idx, 0);
}

#[test]
fn delete_past_end_does_nothing() {
    let mut b = buf("abc", 5);
    b.delete();
    assert_eq!(b.content, "abc");
    assert_eq!(b.cursor_idx, 5);
}

#[test]
fn delete_undoes_insert() {
    let mut b = buf("hello", 3);
    b.insert('Z');
    b.delete();
    assert_eq!(b.content, "hello");
    assert_eq!(b.cursor_idx, 3);
}

#[test]
fn moves_stop_at_the_ends() {
    let mut b = buf("ab", 0);
    b.move_left();
    assert_eq!(b.cursor_idx, 0);
    b.move_right();
    b.move_right();
    b.move_right();
    assert_eq!(b.cursor_idx, 2);
    assert_eq!(b.content, "ab");
    b.move_left();
    assert_eq!(b.cursor_idx, 1);
}

#[test]
fn render_marks_cursor_character() {
    let b = buf("ab", 1);
    assert_eq!(show(&b.render_with_cursor()), vec![vec![p("a"), c("b")]]);
}

#[test]
fn render_adds_cursor_cell_at_end() {
    let b = buf("ab", 2);
    assert_eq!(show(&b.render_with_cursor()), vec![vec![p("a"), p("b"), c(" ")]]);
}

#[test]
fn render_splits_lines_and_shows_cursor_on_newline() {
    let b = buf("a\nb", 1);
    assert_eq!(show(&b.render_with_cursor()), vec![vec![p("a"), c(" ")], vec![p("b")]]);
}

#[test]
fn render_empty_buffer() {
    let b = TextBuffer::new();
    assert_eq!(show(&b.render_with_cursor()), vec![vec![c(" ")]]);
}

#[test]
fn render_line_count_is_newlines_plus_one() {
    let b = buf("x\n\ny\n", 9);
    assert_eq!(b.render_with_cursor().len(), 4);
}
