use rust_dev_terminal::editor::input::{
    handle_key_event, EditorCommand, KeyCode, KeyEvent, KeyEventKind, KeyModifiers,
};
use rust_dev_terminal::editor::state::TextEditor;
use rust_dev_terminal::theme::ThemeConfig;

const W: usize = 80;
const H: usize = 24;

fn line(s: &str) -> Vec<char> {
    s.chars().collect()
}

fn editor_with(text: &str) -> TextEditor {
    let mut ed = TextEditor::new("test.txt".to_string(), ThemeConfig::default());
    ed.load_text(text);
    ed
}

fn press(code: KeyCode) -> KeyEvent {
    KeyEvent { code, modifiers: KeyModifiers::Plain, kind: KeyEventKind::Press }
}

fn press_with(code: KeyCode, modifiers: KeyModifiers) -> KeyEvent {
    KeyEvent { code, modifiers, kind: KeyEventKind::Press }
}

#[test]
fn scenario_down_down_home_type() {
    // Load a 3-line file, press Down twice, Home, then type 'Z': line 3
    // starts with 'Z' and the buffer is modified.
    let mut ed = editor_with("one\ntwo\nthree");
    assert_eq!(handle_key_event(&mut ed, press(KeyCode::Down), W, H), EditorCommand::Continue);
    assert_eq!(handle_key_event(&mut ed, press(KeyCode::Down), W, H), EditorCommand::Continue);
    assert_eq!(handle_key_event(&mut ed, press(KeyCode::Home), W, H), EditorCommand::Continue);
    assert_eq!(
        handle_key_event(&mut ed, press(KeyCode::Char('Z')), W, H),
        EditorCommand::Continue
    );
    assert_eq!(ed.content[2], line("Zthree"));
    assert!(ed.modified);
}

#[test]
fn scenario_quit_with_unsaved_changes() {
    // A quit with unsaved changes enters the confirmation; discarding
    // quits without saving; cancel returns to normal with the buffer
    // intact.
    let mut ed = editor_with("text");
    handle_key_event(&mut ed, press(KeyCode::Char('x')), W, H);
    assert!(ed.modified);
    let cmd = handle_key_event(
        &mut ed,
        press_with(KeyCode::Char('q'), KeyModifiers::Control),
        W,
        H,
    );
    assert_eq!(cmd, EditorCommand::Continue);
    assert!(ed.exit_requested);
    // Cancel first: back to normal, buffer intact.
    let cmd = handle_key_event(&mut ed, press(KeyCode::Char('c')), W, H);
    assert_eq!(cmd, EditorCommand::Continue);
    assert!(!ed.exit_requested);
    assert_eq!(ed.content[0], line("xtext"));
    // Quit again and discard: the loop is told to stop without a save.
    handle_key_event(&mut ed, press_with(KeyCode::Char('q'), KeyModifiers::Control), W, H);
    assert!(ed.exit_requested);
    let cmd = handle_key_event(&mut ed, press(KeyCode::Char('n')), W, H);
    assert_eq!(cmd, EditorCommand::Quit);
    assert_eq!(ed.content[0], line("xtext"));
}

#[test]
fn quit_unmodified_quits_at_once() {
    let mut ed = editor_with("text");
    let cmd = handle_key_event(
        &mut ed,
        press_with(KeyCode::Char('q'), KeyModifiers::Control),
        W,
        H,
    );
    assert_eq!(cmd, EditorCommand::Quit);
    assert!(!ed.exit_requested);
}

#[test]
fn save_key_requests_a_save() {
    let mut ed = editor_with("text");
    handle_key_event(&mut ed, press(KeyCode::Char('a')), W, H);
    let cmd = handle_key_event(
        &mut ed,
        press_with(KeyCode::Char('s'), KeyModifiers::Control),
        W,
        H,
    );
    assert_eq!(cmd, EditorCommand::Save);
    // The dispatcher itself does not clear the flag; the loop reports
    // the successful write back.
    assert!(ed.modified);
    ed.mark_saved();
    assert!(!ed.modified);
    assert!(!ed.exit_requested);
}

#[test]
fn confirm_save_answer_saves_and_quits() {
    let mut ed = editor_with("text");
    handle_key_event(&mut ed, press(KeyCode::Char('a')), W, H);
    handle_key_event(&mut ed, press_with(KeyCode::Char('q'), KeyModifiers::Control), W, H);
    let cmd = handle_key_event(&mut ed, press(KeyCode::Char('y')), W, H);
    assert_eq!(cmd, EditorCommand::SaveAndQuit);
}

#[test]
fn escape_cancels_confirmation() {
    let mut ed = editor_with("text");
    handle_key_event(&mut ed, press(KeyCode::Char('a')), W, H);
    handle_key_event(&mut ed, press_with(KeyCode::Char('q'), KeyModifiers::Control), W, H);
    let cmd = handle_key_event(&mut ed, press(KeyCode::Esc), W, H);
    assert_eq!(cmd, EditorCommand::Continue);
    assert!(!ed.exit_requested);
}

#[test]
fn navigation_suppressed_during_confirmation() {
    let mut ed = editor_with("one\ntwo");
    handle_key_event(&mut ed, press(KeyCode::Char('a')), W, H);
    handle_key_event(&mut ed, press_with(KeyCode::Char('q'), KeyModifiers::Control), W, H);
    let before = ed.cursor_position;
    handle_key_event(&mut ed, press(KeyCode::Down), W, H);
    handle_key_event(&mut ed, press(KeyCode::Char('z')), W, H);
    assert_eq!(ed.cursor_position, before);
    assert_eq!(ed.content[0], line("aone"));
    assert!(ed.exit_requested);
}

#[test]
fn key_release_is_ignored() {
    let mut ed = editor_with("ab");
    let release = KeyEvent {
        code: KeyCode::Char('x'),
        modifiers: KeyModifiers::Plain,
        kind: KeyEventKind::Release,
    };
    let cmd = handle_key_event(&mut ed, release, W, H);
    assert_eq!(cmd, EditorCommand::Continue);
    assert_eq!(ed.content, vec![line("ab")]);
    assert!(!ed.modified);
}

#[test]
fn noop_key_does_not_force_redraw() {
    let mut ed = editor_with("ab");
    ed.needs_redraw = false;
    // Left at the buffer start changes nothing visible.
    handle_key_event(&mut ed, press(KeyCode::Left), W, H);
    assert!(!ed.needs_redraw);
    // An unknown key changes nothing either.
    handle_key_event(&mut ed, press(KeyCode::Other), W, H);
    assert!(!ed.needs_redraw);
    // A real move must redraw.
    handle_key_event(&mut ed, press(KeyCode::Right), W, H);
    assert!(ed.needs_redraw);
}

#[test]
fn unhandled_key_keeps_pending_redraw() {
    let mut ed = editor_with("ab");
    ed.needs_redraw = true;
    handle_key_event(&mut ed, press(KeyCode::Other), W, H);
    assert!(ed.needs_redraw);
}

#[test]
fn shifted_moves_extend_a_selection() {
    let mut ed = editor_with("abcd");
    handle_key_event(&mut ed, press_with(KeyCode::Right, KeyModifiers::Shift), W, H);
    handle_key_event(&mut ed, press_with(KeyCode::Right, KeyModifiers::Shift), W, H);
    assert_eq!(ed.selection_start, Some((0, 0)));
    assert_eq!(ed.cursor_position, (2, 0));
    // A plain move clears the selection.
    handle_key_event(&mut ed, press(KeyCode::Left), W, H);
    assert!(ed.selection_start.is_none());
}

#[test]
fn typing_over_selection_replaces_it() {
    let mut ed = editor_with("abcd");
    handle_key_event(&mut ed, press_with(KeyCode::Right, KeyModifiers::Shift), W, H);
    handle_key_event(&mut ed, press_with(KeyCode::Right, KeyModifiers::Shift), W, H);
    handle_key_event(&mut ed, press(KeyCode::Char('Z')), W, H);
    assert_eq!(ed.content, vec![line("Zcd")]);
}

#[test]
fn backspace_with_selection_deletes_it() {
    let mut ed = editor_with("abcd");
    handle_key_event(&mut ed, press_with(KeyCode::Right, KeyModifiers::Shift), W, H);
    handle_key_event(&mut ed, press_with(KeyCode::Right, KeyModifiers::Shift), W, H);
    handle_key_event(&mut ed, press(KeyCode::Backspace), W, H);
    assert_eq!(ed.content, vec![line("cd")]);
    assert!(ed.selection_start.is_none());
}

#[test]
fn enter_with_selection_replaces_it_with_a_break() {
    let mut ed = editor_with("abcd");
    ed.selection_start = Some((1, 0));
    ed.cursor_position = (3, 0);
    handle_key_event(&mut ed, press(KeyCode::Enter), W, H);
    assert_eq!(ed.content, vec![line("a"), line("d")]);
    assert_eq!(ed.cursor_position, (0, 1));
}

#[test]
fn control_cut_key_cuts_selection() {
    let mut ed = editor_with("abcd");
    ed.selection_start = Some((1, 0));
    ed.cursor_position = (3, 0);
    let cmd = handle_key_event(
        &mut ed,
        press_with(KeyCode::Char('x'), KeyModifiers::Control),
        W,
        H,
    );
    assert_eq!(cmd, EditorCommand::Continue);
    assert_eq!(ed.clipboard, line("bc"));
    assert_eq!(ed.content, vec![line("ad")]);
}

#[test]
fn control_copy_key_copies_selection() {
    let mut ed = editor_with("abcd");
    ed.selection_start = Some((1, 0));
    ed.cursor_position = (3, 0);
    ed.needs_redraw = false;
    handle_key_event(&mut ed, press_with(KeyCode::Char('c'), KeyModifiers::Control), W, H);
    assert_eq!(ed.clipboard, line("bc"));
    assert_eq!(ed.content, vec![line("abcd")]);
    // Copying changes nothing visible, so no redraw is forced.
    assert!(!ed.needs_redraw);
}

#[test]
fn mark_saved_clears_flags_and_redraws() {
    let mut ed = editor_with("ab");
    ed.modified = true;
    ed.exit_requested = true;
    ed.needs_redraw = false;
    ed.mark_saved();
    assert!(!ed.modified);
    assert!(!ed.exit_requested);
    assert!(ed.needs_redraw);
}

#[test]
fn cursor_stays_valid_through_any_key_sequence() {
    // After an arbitrary mix of navigation and editing keys, the cursor
    // row is a valid line index and the column is at most that line's
    // length.
    let mut ed = editor_with("alpha
be
gamma delta

z");
    let keys = [
        press(KeyCode::Down),
        press(KeyCode::End),
        press(KeyCode::Down),
        press(KeyCode::Up),
        press_with(KeyCode::Right, KeyModifiers::Shift),
        press_with(KeyCode::Down, KeyModifiers::Shift),
        press(KeyCode::Backspace),
        press(KeyCode::PageDown),
        press(KeyCode::Char('q')),
        press(KeyCode::Enter),
        press(KeyCode::PageUp),
        press(KeyCode::Delete),
        press(KeyCode::Left),
        press(KeyCode::Home),
    ];
    for key in keys {
        handle_key_event(&mut ed, key, 10, 4);
        let (col, row) = ed.cursor_position;
        assert!(row < ed.content.len());
        assert!(col <= ed.content[row].len());
    }
}
