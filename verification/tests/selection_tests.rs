use rust_dev_terminal::editor::clipboard::{
    copy_selection, cut_selection, delete_selection, get_selection_range, paste_text,
    replace_selection_with_char, start_or_extend_selection,
};
use rust_dev_terminal::editor::state::TextEditor;
use rust_dev_terminal::theme::ThemeConfig;

const W: usize = 80;
const H: usize = 24;

fn line(s: &str) -> Vec<char> {
    s.chars().collect()
}

fn editor_with(text: &str) -> TextEditor {
    let mut ed = TextEditor::new("test.txt".to_string(), ThemeConfig::default());
    ed.load_text(text);
    ed
}

#[test]
fn selection_normalizes_forward_and_backward_alike() {
    // Anchor before cursor.
    let mut ed = editor_with("ab\ncd");
    ed.selection_start = Some((1, 0));
    ed.cursor_position = (1, 1);
    let forward = get_selection_range(&ed);
    // Anchor after cursor, same two points.
    ed.selection_start = Some((1, 1));
    ed.cursor_position = (1, 0);
    let backward = get_selection_range(&ed);
    assert_eq!(forward, Some(((1, 0), (1, 1))));
    assert_eq!(forward, backward);
}

#[test]
fn selection_same_row_orders_by_column() {
    let mut ed = editor_with("abcd");
    ed.selection_start = Some((3, 0));
    ed.cursor_position = (1, 0);
    assert_eq!(get_selection_range(&ed), Some(((1, 0), (3, 0))));
}

#[test]
fn no_selection_yields_no_range() {
    let ed = editor_with("abcd");
    assert_eq!(get_selection_range(&ed), None);
}

#[test]
fn start_selection_anchors_once() {
    let mut ed = editor_with("abcd");
    ed.cursor_position = (1, 0);
    start_or_extend_selection(&mut ed);
    assert_eq!(ed.selection_start, Some((1, 0)));
    // A later call with the cursor elsewhere keeps the first anchor.
    ed.cursor_position = (3, 0);
    start_or_extend_selection(&mut ed);
    assert_eq!(ed.selection_start, Some((1, 0)));
}

#[test]
fn copy_single_line_selection() {
    let mut ed = editor_with("abcdef");
    ed.selection_start = Some((1, 0));
    ed.cursor_position = (4, 0);
    copy_selection(&mut ed);
    assert_eq!(ed.clipboard, line("bcd"));
    // Copying leaves the buffer and the selection alone.
    assert_eq!(ed.content, vec![line("abcdef")]);
    assert_eq!(ed.selection_start, Some((1, 0)));
}

#[test]
fn copy_multi_line_selection_joins_with_newlines() {
    let mut ed = editor_with("abcd\nefgh\nijkl");
    ed.selection_start = Some((2, 0));
    ed.cursor_position = (2, 2);
    copy_selection(&mut ed);
    assert_eq!(ed.clipboard, line("cd\nefgh\nij"));
}

#[test]
fn delete_selection_single_row() {
    let mut ed = editor_with("abcdef");
    ed.selection_start = Some((1, 0));
    ed.cursor_position = (4, 0);
    let changed = delete_selection(&mut ed, W, H);
    assert!(changed);
    assert_eq!(ed.content, vec![line("aef")]);
    assert_eq!(ed.cursor_position, (1, 0));
    assert!(ed.selection_start.is_none());
    assert!(ed.modified);
}

#[test]
fn delete_selection_across_three_rows_merges_ends() {
    // Deleting rows 0..=2 merges the head of row 0 with the tail of row
    // 2 and leaves line_count - 2 lines.
    let mut ed = editor_with("abcd\nefgh\nijkl\nmnop");
    ed.selection_start = Some((1, 0));
    ed.cursor_position = (2, 2);
    let changed = delete_selection(&mut ed, W, H);
    assert!(changed);
    assert_eq!(ed.content, vec![line("akl"), line("mnop")]);
    assert_eq!(ed.content.len(), 4 - 2);
    assert_eq!(ed.cursor_position, (1, 0));
    assert!(ed.selection_start.is_none());
}

#[test]
fn delete_without_selection_is_noop() {
    let mut ed = editor_with("abcd");
    let changed = delete_selection(&mut ed, W, H);
    assert!(!changed);
    assert_eq!(ed.content, vec![line("abcd")]);
    assert!(!ed.modified);
}

#[test]
fn cut_copies_then_deletes() {
    let mut ed = editor_with("abcdef");
    ed.selection_start = Some((2, 0));
    ed.cursor_position = (5, 0);
    let changed = cut_selection(&mut ed, W, H);
    assert!(changed);
    assert_eq!(ed.clipboard, line("cde"));
    assert_eq!(ed.content, vec![line("abf")]);
    assert_eq!(ed.cursor_position, (2, 0));
}

#[test]
fn replace_selection_types_over_it() {
    let mut ed = editor_with("abcdef");
    ed.selection_start = Some((1, 0));
    ed.cursor_position = (4, 0);
    let changed = replace_selection_with_char(&mut ed, 'X', W, H);
    assert!(changed);
    assert_eq!(ed.content, vec![line("aXef")]);
    assert_eq!(ed.cursor_position, (2, 0));
    assert!(ed.selection_start.is_none());
}

#[test]
fn paste_two_line_clipboard_into_middle_of_line() {
    // Pasting "ab\ncd" at column 1 of "xy" yields "xab" and "cdy" with
    // the cursor at the next row, column 2.
    let mut ed = editor_with("xy");
    ed.cursor_position = (1, 0);
    ed.desired_column = 1;
    let text = line("ab\ncd");
    let changed = paste_text(&mut ed, &text, W, H);
    assert!(changed);
    assert_eq!(ed.content, vec![line("xab"), line("cdy")]);
    assert_eq!(ed.cursor_position, (2, 1));
    assert!(ed.modified);
}

#[test]
fn paste_single_line_inserts_in_place() {
    let mut ed = editor_with("xy");
    ed.cursor_position = (1, 0);
    ed.desired_column = 1;
    let text = line("ab");
    let changed = paste_text(&mut ed, &text, W, H);
    assert!(changed);
    assert_eq!(ed.content, vec![line("xaby")]);
    assert_eq!(ed.cursor_position, (3, 0));
}

#[test]
fn paste_three_lines_keeps_middle_lines_whole() {
    let mut ed = editor_with("xy");
    ed.cursor_position = (1, 0);
    ed.desired_column = 1;
    let text = line("a\nmid\nb");
    paste_text(&mut ed, &text, W, H);
    assert_eq!(ed.content, vec![line("xa"), line("mid"), line("by")]);
    assert_eq!(ed.cursor_position, (1, 2));
}

#[test]
fn paste_empty_text_is_noop() {
    let mut ed = editor_with("xy");
    let text: Vec<char> = Vec::new();
    let changed = paste_text(&mut ed, &text, W, H);
    assert!(!changed);
    assert_eq!(ed.content, vec![line("xy")]);
    assert!(!ed.modified);
}

#[test]
fn paste_replaces_active_selection() {
    let mut ed = editor_with("abcdef");
    ed.selection_start = Some((1, 0));
    ed.cursor_position = (4, 0);
    let text = line("XY");
    paste_text(&mut ed, &text, W, H);
    assert_eq!(ed.content, vec![line("aXYef")]);
    assert_eq!(ed.cursor_position, (3, 0));
    assert!(ed.selection_start.is_none());
}

#[test]
fn paste_text_with_trailing_newline_opens_new_line() {
    let mut ed = editor_with("xy");
    ed.cursor_position = (1, 0);
    ed.desired_column = 1;
    let text = line("ab\n");
    paste_text(&mut ed, &text, W, H);
    assert_eq!(ed.content, vec![line("xab"), line("y")]);
    assert_eq!(ed.cursor_position, (0, 1));
}

#[test]
fn deleting_an_empty_selection_only_clears_it() {
    let mut ed = editor_with("abcd");
    ed.cursor_position = (2, 0);
    ed.desired_column = 2;
    ed.selection_start = Some((2, 0));
    let changed = delete_selection(&mut ed, W, H);
    assert!(changed);
    assert_eq!(ed.content, vec![line("abcd")]);
    assert_eq!(ed.cursor_position, (2, 0));
    assert!(ed.selection_start.is_none());
    assert!(ed.modified);
}
