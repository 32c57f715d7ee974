use rust_dev_terminal::editor::render::{
    confirm_message, confirm_prompt_column, cursor_screen_position, render_content_rows,
    render_selection_rows, status_bar_text,
};
use rust_dev_terminal::editor::state::TextEditor;
use rust_dev_terminal::theme::ThemeConfig;

fn line(s: &str) -> Vec<char> {
    s.chars().collect()
}

fn editor_with(text: &str) -> TextEditor {
    let mut ed = TextEditor::new("test.txt".to_string(), ThemeConfig::default());
    ed.load_text(text);
    ed
}

#[test]
fn content_rows_slice_and_pad() {
    let ed = editor_with("hello\nhi");
    let rows = render_content_rows(&ed, 4, 4);
    assert_eq!(rows.len(), 3);
    assert_eq!(rows[0], line("hell"));
    assert_eq!(rows[1], line("hi  "));
    assert_eq!(rows[2], line("    "));
}

#[test]
fn content_rows_respect_viewport() {
    let mut ed = editor_with("abcdef\nghijkl\nmnopqr");
    ed.viewport_offset = (2, 1);
    let rows = render_content_rows(&ed, 3, 3);
    assert_eq!(rows.len(), 2);
    assert_eq!(rows[0], line("ijk"));
    assert_eq!(rows[1], line("opq"));
}

#[test]
fn selection_rows_highlight_selected_cells() {
    let mut ed = editor_with("abcd\nefgh");
    ed.selection_start = Some((1, 0));
    ed.cursor_position = (2, 1);
    let sel = render_selection_rows(&ed, 4, 3);
    assert_eq!(sel.len(), 2);
    // Row 0: columns 1.. of "abcd" are inside the selection.
    assert_eq!(sel[0], vec![false, true, true, true]);
    // Row 1: columns up to the cursor column are inside it.
    assert_eq!(sel[1], vec![true, true, false, false]);
}

#[test]
fn no_selection_highlights_nothing() {
    let ed = editor_with("abcd");
    let sel = render_selection_rows(&ed, 4, 3);
    assert_eq!(sel[0], vec![false, false, false, false]);
}

#[test]
fn padding_cells_never_highlight() {
    let mut ed = editor_with("ab\ncdef");
    ed.selection_start = Some((0, 0));
    ed.cursor_position = (4, 1);
    let sel = render_selection_rows(&ed, 4, 3);
    // "ab" has only two characters: the padded cells stay plain.
    assert_eq!(sel[0], vec![true, true, false, false]);
    assert_eq!(sel[1], vec![true, true, true, true]);
}

#[test]
fn status_line_plain() {
    let ed = editor_with("hello");
    assert_eq!(status_bar_text(&ed), "test.txt Line 1, Col 1");
}

#[test]
fn status_line_modified_with_selection() {
    let mut ed = editor_with("hello\nworld");
    ed.modified = true;
    ed.selection_start = Some((1, 0));
    ed.cursor_position = (3, 1);
    assert_eq!(
        status_bar_text(&ed),
        "test.txt [Modified] Line 2, Col 4 | Selection: 1:2 to 2:4"
    );
}

#[test]
fn status_line_orders_backward_selection() {
    let mut ed = editor_with("hello\nworld");
    ed.selection_start = Some((3, 1));
    ed.cursor_position = (1, 0);
    assert_eq!(status_bar_text(&ed), "test.txt Line 1, Col 2 | Selection: 1:2 to 2:4");
}

#[test]
fn screen_cursor_subtracts_viewport() {
    let mut ed = editor_with("abcdef\nghijkl\nmnopqr\nstuvwx");
    ed.cursor_position = (5, 3);
    ed.viewport_offset = (2, 1);
    assert_eq!(cursor_screen_position(&ed), (3, 2));
}

#[test]
fn screen_cursor_clamps_to_origin() {
    let mut ed = editor_with("abcdef");
    ed.cursor_position = (1, 0);
    ed.viewport_offset = (3, 0);
    assert_eq!(cursor_screen_position(&ed), (0, 0));
}

#[test]
fn confirm_prompt_centers() {
    let msg = confirm_message();
    assert_eq!(msg, "You have unsaved changes. Save before exiting? (y/n/c)");
    assert_eq!(msg.chars().count(), 54);
    assert_eq!(confirm_prompt_column(100), 23);
    assert_eq!(confirm_prompt_column(54), 0);
    // Narrower than the prompt: clamp to the left edge.
    assert_eq!(confirm_prompt_column(10), 0);
}
