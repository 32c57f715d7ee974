use rust_dev_terminal::document::{join_text, split_text};
use rust_dev_terminal::editor::state::TextEditor;
use rust_dev_terminal::theme::ThemeConfig;

fn line(s: &str) -> Vec<char> {
    s.chars().collect()
}

fn editor_with(text: &str) -> TextEditor {
    let mut ed = TextEditor::new("test.txt".to_string(), ThemeConfig::default());
    ed.load_text(text);
    ed
}

#[test]
fn split_plain_lines() {
    assert_eq!(split_text("ab\ncd"), vec![line("ab"), line("cd")]);
}

#[test]
fn split_trailing_newline_opens_no_line() {
    assert_eq!(split_text("ab\ncd\n"), vec![line("ab"), line("cd")]);
}

#[test]
fn split_empty_text_is_one_empty_line() {
    assert_eq!(split_text(""), vec![line("")]);
}

#[test]
fn split_lone_newline() {
    assert_eq!(split_text("\n"), vec![line("")]);
}

#[test]
fn split_keeps_inner_empty_lines() {
    assert_eq!(split_text("a\n\nb"), vec![line("a"), line(""), line("b")]);
}

#[test]
fn join_inserts_single_newlines() {
    let lines = vec![line("ab"), line(""), line("cd")];
    assert_eq!(join_text(&lines), "ab\n\ncd");
}

#[test]
fn save_load_round_trip_exact() {
    for text in ["", "a", "a\nb", "a\n\nb", "one\ntwo\nthree"] {
        let ed = editor_with(text);
        assert_eq!(ed.save_text(), text);
    }
}

#[test]
fn save_load_round_trip_drops_one_trailing_newline() {
    let ed = editor_with("a\nb\n");
    assert_eq!(ed.save_text(), "a\nb");
    let ed2 = editor_with("a\n\n");
    assert_eq!(ed2.save_text(), "a\n");
}

#[test]
fn load_resets_editor_state() {
    let mut ed = editor_with("one\ntwo");
    ed.cursor_position = (2, 1);
    ed.modified = true;
    ed.load_text("three");
    assert_eq!(ed.content, vec![line("three")]);
    assert_eq!(ed.cursor_position, (0, 0));
    assert!(!ed.modified);
    assert!(ed.selection_start.is_none());
}

#[test]
fn new_editor_has_one_empty_line() {
    let ed = TextEditor::new("f".to_string(), ThemeConfig::default());
    assert_eq!(ed.content, vec![line("")]);
    assert_eq!(ed.cursor_position, (0, 0));
    assert!(!ed.modified);
    assert!(ed.needs_redraw);
}
