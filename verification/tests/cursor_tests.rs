use rust_dev_terminal::editor::cursor::{
    adjust_viewport_to_cursor_smooth, delete_char_backspace, delete_char_delete, insert_char,
    insert_newline, move_cursor_down, move_cursor_end, move_cursor_home, move_cursor_left,
    move_cursor_page_down, move_cursor_page_up, move_cursor_right, move_cursor_up,
};
use rust_dev_terminal::editor::state::TextEditor;
use rust_dev_terminal::theme::ThemeConfig;

const W: usize = 80;
const H: usize = 24;

fn line(s: &str) -> Vec<char> {
    s.chars().collect()
}

fn editor_with(text: &str) -> TextEditor {
    let mut ed = TextEditor::new("test.txt".to_string(), ThemeConfig::default());
    ed.load_text(text);
    ed
}

#[test]
fn left_at_origin_is_noop() {
    let mut ed = editor_with("ab\ncd");
    let changed = move_cursor_left(&mut ed, W, H);
    assert!(!changed);
    assert_eq!(ed.cursor_position, (0, 0));
    assert_eq!(ed.viewport_offset, (0, 0));
}

#[test]
fn right_at_end_of_last_line_is_noop() {
    let mut ed = editor_with("ab\ncd");
    ed.cursor_position = (2, 1);
    ed.desired_column = 2;
    let changed = move_cursor_right(&mut ed, W, H);
    assert!(!changed);
    assert_eq!(ed.cursor_position, (2, 1));
}

#[test]
fn left_wraps_to_previous_line_end() {
    let mut ed = editor_with("abc\nd");
    ed.cursor_position = (0, 1);
    let changed = move_cursor_left(&mut ed, W, H);
    assert!(changed);
    assert_eq!(ed.cursor_position, (3, 0));
    assert_eq!(ed.desired_column, 3);
}

#[test]
fn right_wraps_to_next_line_start() {
    let mut ed = editor_with("ab\ncd");
    ed.cursor_position = (2, 0);
    ed.desired_column = 2;
    let changed = move_cursor_right(&mut ed, W, H);
    assert!(changed);
    assert_eq!(ed.cursor_position, (0, 1));
    assert_eq!(ed.desired_column, 0);
}

#[test]
fn vertical_moves_preserve_desired_column() {
    // Down from column 5 of a 10-char line into a 3-char line, then back
    // up into a 10-char line, restores column 5.
    let mut ed = editor_with("abcdefghij\nabc\nxy");
    ed.cursor_position = (5, 0);
    ed.desired_column = 5;
    move_cursor_down(&mut ed, W, H);
    assert_eq!(ed.cursor_position, (3, 1));
    assert_eq!(ed.desired_column, 5);
    move_cursor_up(&mut ed, W, H);
    assert_eq!(ed.cursor_position, (5, 0));
    assert_eq!(ed.desired_column, 5);
}

#[test]
fn up_at_first_line_is_noop() {
    let mut ed = editor_with("ab\ncd");
    ed.cursor_position = (1, 0);
    ed.desired_column = 1;
    let changed = move_cursor_up(&mut ed, W, H);
    assert!(!changed);
    assert_eq!(ed.cursor_position, (1, 0));
}

#[test]
fn down_at_last_line_is_noop() {
    let mut ed = editor_with("ab\ncd");
    ed.cursor_position = (1, 1);
    ed.desired_column = 1;
    let changed = move_cursor_down(&mut ed, W, H);
    assert!(!changed);
}

#[test]
fn home_and_end_move_within_line() {
    let mut ed = editor_with("hello");
    ed.cursor_position = (2, 0);
    ed.desired_column = 2;
    move_cursor_end(&mut ed, W, H);
    assert_eq!(ed.cursor_position, (5, 0));
    assert_eq!(ed.desired_column, 5);
    move_cursor_home(&mut ed, W, H);
    assert_eq!(ed.cursor_position, (0, 0));
    assert_eq!(ed.desired_column, 0);
}

#[test]
fn page_down_stops_at_last_line() {
    let mut ed = editor_with("a\nb\nc");
    let changed = move_cursor_page_down(&mut ed, W, H);
    assert!(changed);
    assert_eq!(ed.cursor_position.1, 2);
}

#[test]
fn page_up_from_top_keeps_row() {
    let mut ed = editor_with("a\nb\nc");
    let changed = move_cursor_page_up(&mut ed, W, H);
    assert!(!changed);
    assert_eq!(ed.cursor_position.1, 0);
}

#[test]
fn page_moves_use_visible_height() {
    let mut lines = String::new();
    for i in 0..50 {
        lines.push_str(&format!("line{}\n", i));
    }
    let mut ed = editor_with(&lines);
    move_cursor_page_down(&mut ed, W, 11);
    assert_eq!(ed.cursor_position.1, 10);
    move_cursor_page_up(&mut ed, W, 11);
    assert_eq!(ed.cursor_position.1, 0);
}

#[test]
fn viewport_follows_cursor_down() {
    let mut lines = String::new();
    for i in 0..30 {
        lines.push_str(&format!("l{}\n", i));
    }
    let mut ed = editor_with(&lines);
    ed.cursor_position = (0, 20);
    adjust_viewport_to_cursor_smooth(&mut ed, 10, 6);
    // 5 visible rows: the window must end just after row 20.
    assert_eq!(ed.viewport_offset.1, 16);
    // Moving back up pulls the window back to the cursor.
    ed.cursor_position = (0, 3);
    adjust_viewport_to_cursor_smooth(&mut ed, 10, 6);
    assert_eq!(ed.viewport_offset.1, 3);
}

#[test]
fn viewport_follows_cursor_horizontally() {
    let mut ed = editor_with("abcdefghijklmnop");
    ed.cursor_position = (12, 0);
    ed.desired_column = 12;
    adjust_viewport_to_cursor_smooth(&mut ed, 5, 5);
    assert_eq!(ed.viewport_offset.0, 8);
    ed.cursor_position = (2, 0);
    adjust_viewport_to_cursor_smooth(&mut ed, 5, 5);
    assert_eq!(ed.viewport_offset.0, 2);
}

#[test]
fn viewport_clamps_to_last_page() {
    let mut ed = editor_with("a\nb\nc");
    ed.viewport_offset = (0, 2);
    ed.cursor_position = (0, 2);
    adjust_viewport_to_cursor_smooth(&mut ed, 10, 10);
    // Three lines all fit in nine visible rows: no scrolling at all.
    assert_eq!(ed.viewport_offset.1, 0);
}

#[test]
fn insert_char_advances_cursor_and_marks_modified() {
    let mut ed = editor_with("xy");
    ed.cursor_position = (1, 0);
    ed.desired_column = 1;
    let changed = insert_char(&mut ed, 'Z', W, H);
    assert!(changed);
    assert_eq!(ed.content, vec![line("xZy")]);
    assert_eq!(ed.cursor_position, (2, 0));
    assert_eq!(ed.desired_column, 2);
    assert!(ed.modified);
}

#[test]
fn backspace_removes_previous_char() {
    let mut ed = editor_with("abc");
    ed.cursor_position = (2, 0);
    ed.desired_column = 2;
    let changed = delete_char_backspace(&mut ed, W, H);
    assert!(changed);
    assert_eq!(ed.content, vec![line("ac")]);
    assert_eq!(ed.cursor_position, (1, 0));
}

#[test]
fn backspace_at_line_start_merges_lines() {
    let mut ed = editor_with("ab\ncd");
    ed.cursor_position = (0, 1);
    let changed = delete_char_backspace(&mut ed, W, H);
    assert!(changed);
    assert_eq!(ed.content, vec![line("abcd")]);
    assert_eq!(ed.cursor_position, (2, 0));
    assert!(ed.modified);
}

#[test]
fn backspace_at_origin_is_noop() {
    let mut ed = editor_with("ab");
    let changed = delete_char_backspace(&mut ed, W, H);
    assert!(!changed);
    assert_eq!(ed.content, vec![line("ab")]);
    assert!(!ed.modified);
}

#[test]
fn forward_delete_removes_char_under_cursor() {
    let mut ed = editor_with("abc");
    ed.cursor_position = (1, 0);
    ed.desired_column = 1;
    let changed = delete_char_delete(&mut ed, W, H);
    assert!(changed);
    assert_eq!(ed.content, vec![line("ac")]);
    assert_eq!(ed.cursor_position, (1, 0));
}

#[test]
fn forward_delete_at_line_end_merges_next_line() {
    let mut ed = editor_with("ab\ncd");
    ed.cursor_position = (2, 0);
    ed.desired_column = 2;
    let changed = delete_char_delete(&mut ed, W, H);
    assert!(changed);
    assert_eq!(ed.content, vec![line("abcd")]);
}

#[test]
fn forward_delete_at_document_end_is_noop() {
    let mut ed = editor_with("ab");
    ed.cursor_position = (2, 0);
    ed.desired_column = 2;
    let changed = delete_char_delete(&mut ed, W, H);
    assert!(!changed);
    assert_eq!(ed.content, vec![line("ab")]);
}

#[test]
fn enter_splits_line_at_cursor() {
    let mut ed = editor_with("abcd");
    ed.cursor_position = (2, 0);
    ed.desired_column = 2;
    let changed = insert_newline(&mut ed, W, H);
    assert!(changed);
    assert_eq!(ed.content, vec![line("ab"), line("cd")]);
    assert_eq!(ed.cursor_position, (0, 1));
    assert_eq!(ed.desired_column, 0);
    assert!(ed.modified);
}
