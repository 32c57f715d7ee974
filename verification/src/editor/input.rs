use vstd::prelude::*;

use crate::editor::clipboard::{
    copy_selection, cut_selection, delete_selection, paste_from_clipboard,
    replace_selection_with_char, spec_copy, spec_cut, spec_delete_selection,
    spec_paste_clipboard, spec_replace_selection, start_or_extend_selection,
};
use crate::editor::cursor::{
    delete_char_backspace, delete_char_delete, insert_char, insert_newline, move_cursor_down,
    move_cursor_end, move_cursor_home, move_cursor_left, move_cursor_page_down,
    move_cursor_page_up, move_cursor_right, move_cursor_up, spec_delete_backspace,
    spec_delete_forward, spec_insert_char, spec_insert_newline, spec_move_down, spec_move_end,
    spec_move_home, spec_move_left, spec_move_page_down, spec_move_page_up, spec_move_right,
    spec_move_up,
};
use crate::editor::model::EditorModel;
use crate::editor::state::TextEditor;

verus! {

/// The keys the editor reacts to. Anything else is `Other` and ignored.
#[derive(Clone, Copy, Debug, PartialEq, Eq, Structural)]
pub enum KeyCode {
    Char(char),
    Up,
    Down,
    Left,
    Right,
    Home,
    End,
    PageUp,
    PageDown,
    Backspace,
    Delete,
    Enter,
    Esc,
    Other,
}

/// The modifier set held with a key, collapsed to the cases the editor
/// distinguishes: exactly none, exactly Shift, exactly Control, anything
/// else.
#[derive(Clone, Copy, Debug, PartialEq, Eq, Structural)]
pub enum KeyModifiers {
    Plain,
    Shift,
    Control,
    Other,
}

/// Whether the key was pressed or released. Only presses are acted on.
#[derive(Clone, Copy, Debug, PartialEq, Eq, Structural)]
pub enum KeyEventKind {
    Press,
    Release,
}

/// One keyboard event.
#[derive(Clone, Copy, Debug, PartialEq, Eq, Structural)]
pub struct KeyEvent {
    pub code: KeyCode,
    pub modifiers: KeyModifiers,
    pub kind: KeyEventKind,
}

/// What the surrounding loop must do after a key was dispatched. The
/// editor itself performs no file I/O: saving is requested of the caller,
/// which reports success back through `mark_saved`.
#[derive(Clone, Copy, Debug, PartialEq, Eq, Structural)]
pub enum EditorCommand {
    /// Keep polling.
    Continue,
    /// Leave the editor without saving.
    Quit,
    /// Write the buffer out; on success call `mark_saved` and keep going.
    Save,
    /// Write the buffer out (best effort), then leave.
    SaveAndQuit,
}

/// Dropping the selection anchor.
pub open spec fn spec_clear_sel(m: EditorModel) -> EditorModel {
    EditorModel { selection: Option::None, ..m }
}

/// Anchoring a selection at the cursor, unless one is already active.
pub open spec fn spec_start_sel(m: EditorModel) -> EditorModel {
    if m.selection is Some {
        m
    } else {
        EditorModel { selection: Option::Some(m.cursor), ..m }
    }
}

/// The state change and command for one key press, before redraw
/// bookkeeping. `sys` is the text observed on the system clipboard when
/// the key pastes; it is ignored otherwise.
pub open spec fn spec_dispatch_raw(
    m: EditorModel,
    key: KeyEvent,
    sys: Option<Seq<char>>,
    width: int,
    height: int,
) -> (EditorModel, EditorCommand) {
    let ex = m.exit_requested;
    match key.code {
        KeyCode::Char(ch) => {
            if key.modifiers is Control {
                if ch == 'q' {
                    if m.modified {
                        (EditorModel { exit_requested: true, ..m }, EditorCommand::Continue)
                    } else {
                        (m, EditorCommand::Quit)
                    }
                } else if ch == 's' {
                    (m, EditorCommand::Save)
                } else if ch == 'c' && !ex {
                    (spec_copy(m), EditorCommand::Continue)
                } else if ch == 'v' && !ex {
                    (spec_paste_clipboard(m, sys, width, height), EditorCommand::Continue)
                } else if ch == 'x' && !ex {
                    (spec_cut(m, width, height), EditorCommand::Continue)
                } else {
                    (m, EditorCommand::Continue)
                }
            } else if key.modifiers is Plain && ex {
                if ch == 'y' {
                    (m, EditorCommand::SaveAndQuit)
                } else if ch == 'n' {
                    (m, EditorCommand::Quit)
                } else if ch == 'c' {
                    (EditorModel { exit_requested: false, ..m }, EditorCommand::Continue)
                } else {
                    (m, EditorCommand::Continue)
                }
            } else if (key.modifiers is Plain || key.modifiers is Shift) && !ex {
                if m.selection is Some {
                    (spec_replace_selection(m, ch, width, height), EditorCommand::Continue)
                } else {
                    (spec_insert_char(m, ch, width, height), EditorCommand::Continue)
                }
            } else {
                (m, EditorCommand::Continue)
            }
        },
        KeyCode::Esc => {
            if ex {
                (EditorModel { exit_requested: false, ..m }, EditorCommand::Continue)
            } else {
                (m, EditorCommand::Continue)
            }
        },
        KeyCode::Up => {
            if !ex {
                if key.modifiers is Shift {
                    (spec_move_up(spec_start_sel(m), width, height), EditorCommand::Continue)
                } else {
                    (spec_move_up(spec_clear_sel(m), width, height), EditorCommand::Continue)
                }
            } else {
                (m, EditorCommand::Continue)
            }
        },
        KeyCode::Down => {
            if !ex {
                if key.modifiers is Shift {
                    (spec_move_down(spec_start_sel(m), width, height), EditorCommand::Continue)
                } else {
                    (spec_move_down(spec_clear_sel(m), width, height), EditorCommand::Continue)
                }
            } else {
                (m, EditorCommand::Continue)
            }
        },
        KeyCode::Left => {
            if !ex {
                if key.modifiers is Shift {
                    (spec_move_left(spec_start_sel(m), width, height), EditorCommand::Continue)
                } else {
                    (spec_move_left(spec_clear_sel(m), width, height), EditorCommand::Continue)
                }
            } else {
                (m, EditorCommand::Continue)
            }
        },
        KeyCode::Right => {
            if !ex {
                if key.modifiers is Shift {
                    (spec_move_right(spec_start_sel(m), width, height), EditorCommand::Continue)
                } else {
                    (spec_move_right(spec_clear_sel(m), width, height), EditorCommand::Continue)
                }
            } else {
                (m, EditorCommand::Continue)
            }
        },
        KeyCode::Home => {
            if !ex {
                if key.modifiers is Shift {
                    (spec_move_home(spec_start_sel(m), width, height), EditorCommand::Continue)
                } else {
                    (spec_move_home(spec_clear_sel(m), width, height), EditorCommand::Continue)
                }
            } else {
                (m, EditorCommand::Continue)
            }
        },
        KeyCode::End => {
            if !ex {
                if key.modifiers is Shift {
                    (spec_move_end(spec_start_sel(m), width, height), EditorCommand::Continue)
                } else {
                    (spec_move_end(spec_clear_sel(m), width, height), EditorCommand::Continue)
                }
            } else {
                (m, EditorCommand::Continue)
            }
        },
        KeyCode::PageUp => {
            if !ex {
                (spec_move_page_up(spec_clear_sel(m), width, height), EditorCommand::Continue)
            } else {
                (m, EditorCommand::Continue)
            }
        },
        KeyCode::PageDown => {
            if !ex {
                (spec_move_page_down(spec_clear_sel(m), width, height), EditorCommand::Continue)
            } else {
                (m, EditorCommand::Continue)
            }
        },
        KeyCode::Backspace => {
            if !ex {
                if m.selection is Some {
                    (spec_delete_selection(m, width, height), EditorCommand::Continue)
                } else {
                    (spec_delete_backspace(m, width, height), EditorCommand::Continue)
                }
            } else {
                (m, EditorCommand::Continue)
            }
        },
        KeyCode::Delete => {
            if !ex {
                if m.selection is Some {
                    (spec_delete_selection(m, width, height), EditorCommand::Continue)
                } else {
                    (spec_delete_forward(m, width, height), EditorCommand::Continue)
                }
            } else {
                (m, EditorCommand::Continue)
            }
        },
        KeyCode::Enter => {
            if !ex {
                if m.selection is Some {
                    (
                        spec_insert_newline(
                            spec_delete_selection(m, width, height),
                            width,
                            height,
                        ),
                        EditorCommand::Continue,
                    )
                } else {
                    (spec_insert_newline(m, width, height), EditorCommand::Continue)
                }
            } else {
                (m, EditorCommand::Continue)
            }
        },
        KeyCode::Other => (m, EditorCommand::Continue),
    }
}

/// The full effect of one key event: releases are ignored; a press is
/// dispatched, and the redraw flag is raised exactly when something
/// visible changed — a no-op key never forces a redraw.
pub open spec fn spec_dispatch(
    m: EditorModel,
    key: KeyEvent,
    sys: Option<Seq<char>>,
    width: int,
    height: int,
) -> (EditorModel, EditorCommand) {
    if !(key.kind is Press) {
        (m, EditorCommand::Continue)
    } else {
        let r = spec_dispatch_raw(m, key, sys, width, height);
        (
            EditorModel { needs_redraw: m.needs_redraw || !m.same_visible(r.0), ..r.0 },
            r.1,
        )
    }
}
fn handle_control_char(editor: &mut TextEditor, ch: char, key: KeyEvent, width: usize, height: usize) -> (cmd: EditorCommand)
    requires
        old(editor)@.wf(),
        1 <= width,
        1 <= height,
        key.kind is Press,
        key.code == KeyCode::Char(ch),
        key.modifiers is Control,
    ensures
        exists|sys: Option<Seq<char>>|
            final(editor)@ == spec_dispatch(old(editor)@, key, sys, width as int, height as int).0
                && cmd == spec_dispatch(old(editor)@, key, sys, width as int, height as int).1,
        final(editor)@.wf(),
        final(editor).file_path == old(editor).file_path,
        final(editor).theme == old(editor).theme,
{
    let ghost gnone: Option<Seq<char>> = Option::None;
    if ch == 'q' {
        if editor.modified {
            let was = editor.exit_requested;
            editor.exit_requested = true;
            if !was {
                editor.needs_redraw = true;
            }
            proof {
                assert(editor@ =~= spec_dispatch(
                    old(editor)@,
                    key,
                    gnone,
                    width as int,
                    height as int,
                ).0);
            }
            EditorCommand::Continue
        } else {
            proof {
                assert(editor@ =~= spec_dispatch(
                    old(editor)@,
                    key,
                    gnone,
                    width as int,
                    height as int,
                ).0);
            }
            EditorCommand::Quit
        }
    } else if ch == 's' {
            proof {
                assert(editor@ =~= spec_dispatch(
                    old(editor)@,
                    key,
                    gnone,
                    width as int,
                    height as int,
                ).0);
            }
        EditorCommand::Save
    } else if ch == 'c' && !editor.exit_requested {
        copy_selection(editor);
            proof {
                assert(editor@ =~= spec_dispatch(
                    old(editor)@,
                    key,
                    gnone,
                    width as int,
                    height as int,
                ).0);
            }
        EditorCommand::Continue
    } else if ch == 'v' && !editor.exit_requested {
        let changed = paste_from_clipboard(editor, width, height);
        let ghost mid = editor@;
        let ghost psys = choose|sys: Option<Seq<char>>|
            mid == spec_paste_clipboard(old(editor)@, sys, width as int, height as int);
        proof {
            assert(mid == spec_paste_clipboard(
                old(editor)@,
                psys,
                width as int,
                height as int,
            ));
        }
        if changed {
            editor.needs_redraw = true;
        }
        proof {
            assert(editor@ =~= spec_dispatch(
                old(editor)@,
                key,
                psys,
                width as int,
                height as int,
            ).0);
        }
        EditorCommand::Continue
    } else if ch == 'x' && !editor.exit_requested {
        let changed = cut_selection(editor, width, height);
        if changed {
            editor.needs_redraw = true;
        }
            proof {
                assert(editor@ =~= spec_dispatch(
                    old(editor)@,
                    key,
                    gnone,
                    width as int,
                    height as int,
                ).0);
            }
        EditorCommand::Continue
    } else {
            proof {
                assert(editor@ =~= spec_dispatch(
                    old(editor)@,
                    key,
                    gnone,
                    width as int,
                    height as int,
                ).0);
            }
        EditorCommand::Continue
    }
}

fn handle_confirm_char(editor: &mut TextEditor, ch: char, key: KeyEvent, width: usize, height: usize) -> (cmd: EditorCommand)
    requires
        old(editor)@.wf(),
        1 <= width,
        1 <= height,
        key.kind is Press,
        key.code == KeyCode::Char(ch),
        key.modifiers is Plain,
        old(editor)@.exit_requested,
    ensures
        exists|sys: Option<Seq<char>>|
            final(editor)@ == spec_dispatch(old(editor)@, key, sys, width as int, height as int).0
                && cmd == spec_dispatch(old(editor)@, key, sys, width as int, height as int).1,
        final(editor)@.wf(),
        final(editor).file_path == old(editor).file_path,
        final(editor).theme == old(editor).theme,
{
    let ghost gnone: Option<Seq<char>> = Option::None;
    if ch == 'y' {
            proof {
                assert(editor@ =~= spec_dispatch(
                    old(editor)@,
                    key,
                    gnone,
                    width as int,
                    height as int,
                ).0);
            }
        EditorCommand::SaveAndQuit
    } else if ch == 'n' {
            proof {
                assert(editor@ =~= spec_dispatch(
                    old(editor)@,
                    key,
                    gnone,
                    width as int,
                    height as int,
                ).0);
            }
        EditorCommand::Quit
    } else if ch == 'c' {
        editor.exit_requested = false;
        editor.needs_redraw = true;
            proof {
                assert(editor@ =~= spec_dispatch(
                    old(editor)@,
                    key,
                    gnone,
                    width as int,
                    height as int,
                ).0);
            }
        EditorCommand::Continue
    } else {
            proof {
                assert(editor@ =~= spec_dispatch(
                    old(editor)@,
                    key,
                    gnone,
                    width as int,
                    height as int,
                ).0);
            }
        EditorCommand::Continue
    }
}

fn handle_typed_char(editor: &mut TextEditor, ch: char, key: KeyEvent, width: usize, height: usize) -> (cmd: EditorCommand)
    requires
        old(editor)@.wf(),
        1 <= width,
        1 <= height,
        key.kind is Press,
        key.code == KeyCode::Char(ch),
        key.modifiers is Plain || key.modifiers is Shift,
        !old(editor)@.exit_requested,
    ensures
        exists|sys: Option<Seq<char>>|
            final(editor)@ == spec_dispatch(old(editor)@, key, sys, width as int, height as int).0
                && cmd == spec_dispatch(old(editor)@, key, sys, width as int, height as int).1,
        final(editor)@.wf(),
        final(editor).file_path == old(editor).file_path,
        final(editor).theme == old(editor).theme,
{
    let ghost gnone: Option<Seq<char>> = Option::None;
    let changed = if editor.has_selection() {
        replace_selection_with_char(editor, ch, width, height)
    } else {
        insert_char(editor, ch, width, height)
    };
    if changed {
        editor.needs_redraw = true;
    }
            proof {
                assert(editor@ =~= spec_dispatch(
                    old(editor)@,
                    key,
                    gnone,
                    width as int,
                    height as int,
                ).0);
            }
    EditorCommand::Continue
}

fn handle_esc_key(editor: &mut TextEditor, key: KeyEvent, width: usize, height: usize) -> (cmd: EditorCommand)
    requires
        old(editor)@.wf(),
        1 <= width,
        1 <= height,
        key.kind is Press,
        key.code is Esc,
    ensures
        exists|sys: Option<Seq<char>>|
            final(editor)@ == spec_dispatch(old(editor)@, key, sys, width as int, height as int).0
                && cmd == spec_dispatch(old(editor)@, key, sys, width as int, height as int).1,
        final(editor)@.wf(),
        final(editor).file_path == old(editor).file_path,
        final(editor).theme == old(editor).theme,
{
    let ghost gnone: Option<Seq<char>> = Option::None;
    if editor.exit_requested {
        editor.exit_requested = false;
        editor.needs_redraw = true;
    }
            proof {
                assert(editor@ =~= spec_dispatch(
                    old(editor)@,
                    key,
                    gnone,
                    width as int,
                    height as int,
                ).0);
            }
    EditorCommand::Continue
}

fn handle_backspace_key(editor: &mut TextEditor, key: KeyEvent, width: usize, height: usize) -> (cmd: EditorCommand)
    requires
        old(editor)@.wf(),
        1 <= width,
        1 <= height,
        key.kind is Press,
        key.code is Backspace,
    ensures
        exists|sys: Option<Seq<char>>|
            final(editor)@ == spec_dispatch(old(editor)@, key, sys, width as int, height as int).0
                && cmd == spec_dispatch(old(editor)@, key, sys, width as int, height as int).1,
        final(editor)@.wf(),
        final(editor).file_path == old(editor).file_path,
        final(editor).theme == old(editor).theme,
{
    let ghost gnone: Option<Seq<char>> = Option::None;
    if editor.exit_requested {
            proof {
                assert(editor@ =~= spec_dispatch(
                    old(editor)@,
                    key,
                    gnone,
                    width as int,
                    height as int,
                ).0);
            }
        return EditorCommand::Continue;
    }
    let changed = if editor.has_selection() {
        delete_selection(editor, width, height)
    } else {
        delete_char_backspace(editor, width, height)
    };
    if changed {
        editor.needs_redraw = true;
    }
            proof {
                assert(editor@ =~= spec_dispatch(
                    old(editor)@,
                    key,
                    gnone,
                    width as int,
                    height as int,
                ).0);
            }
    EditorCommand::Continue
}

fn handle_delete_key(editor: &mut TextEditor, key: KeyEvent, width: usize, height: usize) -> (cmd: EditorCommand)
    requires
        old(editor)@.wf(),
        1 <= width,
        1 <= height,
        key.kind is Press,
        key.code is Delete,
    ensures
        exists|sys: Option<Seq<char>>|
            final(editor)@ == spec_dispatch(old(editor)@, key, sys, width as int, height as int).0
                && cmd == spec_dispatch(old(editor)@, key, sys, width as int, height as int).1,
        final(editor)@.wf(),
        final(editor).file_path == old(editor).file_path,
        final(editor).theme == old(editor).theme,
{
    let ghost gnone: Option<Seq<char>> = Option::None;
    if editor.exit_requested {
            proof {
                assert(editor@ =~= spec_dispatch(
                    old(editor)@,
                    key,
                    gnone,
                    width as int,
                    height as int,
                ).0);
            }
        return EditorCommand::Continue;
    }
    let changed = if editor.has_selection() {
        delete_selection(editor, width, height)
    } else {
        delete_char_delete(editor, width, height)
    };
    if changed {
        editor.needs_redraw = true;
    }
            proof {
                assert(editor@ =~= spec_dispatch(
                    old(editor)@,
                    key,
                    gnone,
                    width as int,
                    height as int,
                ).0);
            }
    EditorCommand::Continue
}

fn handle_enter_key(editor: &mut TextEditor, key: KeyEvent, width: usize, height: usize) -> (cmd: EditorCommand)
    requires
        old(editor)@.wf(),
        1 <= width,
        1 <= height,
        key.kind is Press,
        key.code is Enter,
    ensures
        exists|sys: Option<Seq<char>>|
            final(editor)@ == spec_dispatch(old(editor)@, key, sys, width as int, height as int).0
                && cmd == spec_dispatch(old(editor)@, key, sys, width as int, height as int).1,
        final(editor)@.wf(),
        final(editor).file_path == old(editor).file_path,
        final(editor).theme == old(editor).theme,
{
    let ghost gnone: Option<Seq<char>> = Option::None;
    if editor.exit_requested {
            proof {
                assert(editor@ =~= spec_dispatch(
                    old(editor)@,
                    key,
                    gnone,
                    width as int,
                    height as int,
                ).0);
            }
        return EditorCommand::Continue;
    }
    if editor.has_selection() {
        let _ = delete_selection(editor, width, height);
    }
    let _ = insert_newline(editor, width, height);
    editor.needs_redraw = true;
    proof {
        assert(!old(editor)@.same_visible(editor@));
    }
            proof {
                assert(editor@ =~= spec_dispatch(
                    old(editor)@,
                    key,
                    gnone,
                    width as int,
                    height as int,
                ).0);
            }
    EditorCommand::Continue
}

/// Dispatches one key event: the total function from editor state and
/// key to the next state and the command for the surrounding loop. While
/// the exit confirmation is shown, editing and navigation keys are
/// suppressed and only the save, discard and cancel answers are taken.
/// What a paste finds on the system clipboard cannot be pinned down, so
/// the contract quantifies over the observed text.
pub fn handle_key_event(editor: &mut TextEditor, key: KeyEvent, width: usize, height: usize) -> (cmd: EditorCommand)
    requires
        old(editor)@.wf(),
        1 <= width,
        1 <= height,
    ensures
        exists|sys: Option<Seq<char>>|
            final(editor)@ == spec_dispatch(old(editor)@, key, sys, width as int, height as int).0
                && cmd == spec_dispatch(old(editor)@, key, sys, width as int, height as int).1,
        final(editor)@.wf(),
        final(editor).file_path == old(editor).file_path,
        final(editor).theme == old(editor).theme,
{
    let ghost gnone: Option<Seq<char>> = Option::None;
    if key.kind != KeyEventKind::Press {
        proof {
            assert(editor@ == spec_dispatch(
                old(editor)@,
                key,
                gnone,
                width as int,
                height as int,
            ).0);
        }
        return EditorCommand::Continue;
    }
    match key.code {
        KeyCode::Char(ch) => {
            match key.modifiers {
                KeyModifiers::Control => handle_control_char(editor, ch, key, width, height),
                KeyModifiers::Plain => {
                    if editor.exit_requested {
                        handle_confirm_char(editor, ch, key, width, height)
                    } else {
                        handle_typed_char(editor, ch, key, width, height)
                    }
                },
                KeyModifiers::Shift => {
                    if editor.exit_requested {
            proof {
                assert(editor@ =~= spec_dispatch(
                    old(editor)@,
                    key,
                    gnone,
                    width as int,
                    height as int,
                ).0);
            }
                        EditorCommand::Continue
                    } else {
                        handle_typed_char(editor, ch, key, width, height)
                    }
                },
                KeyModifiers::Other => {
            proof {
                assert(editor@ =~= spec_dispatch(
                    old(editor)@,
                    key,
                    gnone,
                    width as int,
                    height as int,
                ).0);
            }
                    EditorCommand::Continue
                },
            }
        },
        KeyCode::Esc => handle_esc_key(editor, key, width, height),
        KeyCode::Up => handle_up_key(editor, key, width, height),
        KeyCode::Down => handle_down_key(editor, key, width, height),
        KeyCode::Left => handle_left_key(editor, key, width, height),
        KeyCode::Right => handle_right_key(editor, key, width, height),
        KeyCode::Home => handle_home_key(editor, key, width, height),
        KeyCode::End => handle_end_key(editor, key, width, height),
        KeyCode::PageUp => handle_page_up_key(editor, key, width, height),
        KeyCode::PageDown => handle_page_down_key(editor, key, width, height),
        KeyCode::Backspace => handle_backspace_key(editor, key, width, height),
        KeyCode::Delete => handle_delete_key(editor, key, width, height),
        KeyCode::Enter => handle_enter_key(editor, key, width, height),
        KeyCode::Other => {
            proof {
                assert(editor@ =~= spec_dispatch(
                    old(editor)@,
                    key,
                    gnone,
                    width as int,
                    height as int,
                ).0);
            }
            EditorCommand::Continue
        },
    }
}

fn handle_up_key(editor: &mut TextEditor, key: KeyEvent, width: usize, height: usize) -> (cmd: EditorCommand)
    requires
        old(editor)@.wf(),
        1 <= width,
        1 <= height,
        key.kind is Press,
        key.code is Up,
    ensures
        exists|sys: Option<Seq<char>>|
            final(editor)@ == spec_dispatch(old(editor)@, key, sys, width as int, height as int).0
                && cmd == spec_dispatch(old(editor)@, key, sys, width as int, height as int).1,
        final(editor)@.wf(),
        final(editor).file_path == old(editor).file_path,
        final(editor).theme == old(editor).theme,
{
    let ghost gnone: Option<Seq<char>> = Option::None;
    if editor.exit_requested {
            proof {
                assert(editor@ =~= spec_dispatch(
                    old(editor)@,
                    key,
                    gnone,
                    width as int,
                    height as int,
                ).0);
            }
        return EditorCommand::Continue;
    }
    if key.modifiers == KeyModifiers::Shift {
        let had = editor.has_selection();
        start_or_extend_selection(editor);
        let moved = move_cursor_up(editor, width, height);
        if !had || moved {
            editor.needs_redraw = true;
        }
            proof {
                assert(editor@ =~= spec_dispatch(
                    old(editor)@,
                    key,
                    gnone,
                    width as int,
                    height as int,
                ).0);
            }
        EditorCommand::Continue
    } else {
        let had = editor.has_selection();
        editor.clear_selection();
        let moved = move_cursor_up(editor, width, height);
        if had || moved {
            editor.needs_redraw = true;
        }
            proof {
                assert(editor@ =~= spec_dispatch(
                    old(editor)@,
                    key,
                    gnone,
                    width as int,
                    height as int,
                ).0);
            }
        EditorCommand::Continue
    }
}

fn handle_down_key(editor: &mut TextEditor, key: KeyEvent, width: usize, height: usize) -> (cmd: EditorCommand)
    requires
        old(editor)@.wf(),
        1 <= width,
        1 <= height,
        key.kind is Press,
        key.code is Down,
    ensures
        exists|sys: Option<Seq<char>>|
            final(editor)@ == spec_dispatch(old(editor)@, key, sys, width as int, height as int).0
                && cmd == spec_dispatch(old(editor)@, key, sys, width as int, height as int).1,
        final(editor)@.wf(),
        final(editor).file_path == old(editor).file_path,
        final(editor).theme == old(editor).theme,
{
    let ghost gnone: Option<Seq<char>> = Option::None;
    if editor.exit_requested {
            proof {
                assert(editor@ =~= spec_dispatch(
                    old(editor)@,
                    key,
                    gnone,
                    width as int,
                    height as int,
                ).0);
            }
        return EditorCommand::Continue;
    }
    if key.modifiers == KeyModifiers::Shift {
        let had = editor.has_selection();
        start_or_extend_selection(editor);
        let moved = move_cursor_down(editor, width, height);
        if !had || moved {
            editor.needs_redraw = true;
        }
            proof {
                assert(editor@ =~= spec_dispatch(
                    old(editor)@,
                    key,
                    gnone,
                    width as int,
                    height as int,
                ).0);
            }
        EditorCommand::Continue
    } else {
        let had = editor.has_selection();
        editor.clear_selection();
        let moved = move_cursor_down(editor, width, height);
        if had || moved {
            editor.needs_redraw = true;
        }
            proof {
                assert(editor@ =~= spec_dispatch(
                    old(editor)@,
                    key,
                    gnone,
                    width as int,
                    height as int,
                ).0);
            }
        EditorCommand::Continue
    }
}

fn handle_left_key(editor: &mut TextEditor, key: KeyEvent, width: usize, height: usize) -> (cmd: EditorCommand)
    requires
        old(editor)@.wf(),
        1 <= width,
        1 <= height,
        key.kind is Press,
        key.code is Left,
    ensures
        exists|sys: Option<Seq<char>>|
            final(editor)@ == spec_dispatch(old(editor)@, key, sys, width as int, height as int).0
                && cmd == spec_dispatch(old(editor)@, key, sys, width as int, height as int).1,
        final(editor)@.wf(),
        final(editor).file_path == old(editor).file_path,
        final(editor).theme == old(editor).theme,
{
    let ghost gnone: Option<Seq<char>> = Option::None;
    if editor.exit_requested {
            proof {
                assert(editor@ =~= spec_dispatch(
                    old(editor)@,
                    key,
                    gnone,
                    width as int,
                    height as int,
                ).0);
            }
        return EditorCommand::Continue;
    }
    if key.modifiers == KeyModifiers::Shift {
        let had = editor.has_selection();
        start_or_extend_selection(editor);
        let moved = move_cursor_left(editor, width, height);
        if !had || moved {
            editor.needs_redraw = true;
        }
            proof {
                assert(editor@ =~= spec_dispatch(
                    old(editor)@,
                    key,
                    gnone,
                    width as int,
                    height as int,
                ).0);
            }
        EditorCommand::Continue
    } else {
        let had = editor.has_selection();
        editor.clear_selection();
        let moved = move_cursor_left(editor, width, height);
        if had || moved {
            editor.needs_redraw = true;
        }
            proof {
                assert(editor@ =~= spec_dispatch(
                    old(editor)@,
                    key,
                    gnone,
                    width as int,
                    height as int,
                ).0);
            }
        EditorCommand::Continue
    }
}

fn handle_right_key(editor: &mut TextEditor, key: KeyEvent, width: usize, height: usize) -> (cmd: EditorCommand)
    requires
        old(editor)@.wf(),
        1 <= width,
        1 <= height,
        key.kind is Press,
        key.code is Right,
    ensures
        exists|sys: Option<Seq<char>>|
            final(editor)@ == spec_dispatch(old(editor)@, key, sys, width as int, height as int).0
                && cmd == spec_dispatch(old(editor)@, key, sys, width as int, height as int).1,
        final(editor)@.wf(),
        final(editor).file_path == old(editor).file_path,
        final(editor).theme == old(editor).theme,
{
    let ghost gnone: Option<Seq<char>> = Option::None;
    if editor.exit_requested {
            proof {
                assert(editor@ =~= spec_dispatch(
                    old(editor)@,
                    key,
                    gnone,
                    width as int,
                    height as int,
                ).0);
            }
        return EditorCommand::Continue;
    }
    if key.modifiers == KeyModifiers::Shift {
        let had = editor.has_selection();
        start_or_extend_selection(editor);
        let moved = move_cursor_right(editor, width, height);
        if !had || moved {
            editor.needs_redraw = true;
        }
            proof {
                assert(editor@ =~= spec_dispatch(
                    old(editor)@,
                    key,
                    gnone,
                    width as int,
                    height as int,
                ).0);
            }
        EditorCommand::Continue
    } else {
        let had = editor.has_selection();
        editor.clear_selection();
        let moved = move_cursor_right(editor, width, height);
        if had || moved {
            editor.needs_redraw = true;
        }
            proof {
                assert(editor@ =~= spec_dispatch(
                    old(editor)@,
                    key,
                    gnone,
                    width as int,
                    height as int,
                ).0);
            }
        EditorCommand::Continue
    }
}

fn handle_home_key(editor: &mut TextEditor, key: KeyEvent, width: usize, height: usize) -> (cmd: EditorCommand)
    requires
        old(editor)@.wf(),
        1 <= width,
        1 <= height,
        key.kind is Press,
        key.code is Home,
    ensures
        exists|sys: Option<Seq<char>>|
            final(editor)@ == spec_dispatch(old(editor)@, key, sys, width as int, height as int).0
                && cmd == spec_dispatch(old(editor)@, key, sys, width as int, height as int).1,
        final(editor)@.wf(),
        final(editor).file_path == old(editor).file_path,
        final(editor).theme == old(editor).theme,
{
    let ghost gnone: Option<Seq<char>> = Option::None;
    if editor.exit_requested {
            proof {
                assert(editor@ =~= spec_dispatch(
                    old(editor)@,
                    key,
                    gnone,
                    width as int,
                    height as int,
                ).0);
            }
        return EditorCommand::Continue;
    }
    if key.modifiers == KeyModifiers::Shift {
        let had = editor.has_selection();
        start_or_extend_selection(editor);
        let moved = move_cursor_home(editor, width, height);
        if !had || moved {
            editor.needs_redraw = true;
        }
            proof {
                assert(editor@ =~= spec_dispatch(
                    old(editor)@,
                    key,
                    gnone,
                    width as int,
                    height as int,
                ).0);
            }
        EditorCommand::Continue
    } else {
        let had = editor.has_selection();
        editor.clear_selection();
        let moved = move_cursor_home(editor, width, height);
        if had || moved {
            editor.needs_redraw = true;
        }
            proof {
                assert(editor@ =~= spec_dispatch(
                    old(editor)@,
                    key,
                    gnone,
                    width as int,
                    height as int,
                ).0);
            }
        EditorCommand::Continue
    }
}

fn handle_end_key(editor: &mut TextEditor, key: KeyEvent, width: usize, height: usize) -> (cmd: EditorCommand)
    requires
        old(editor)@.wf(),
        1 <= width,
        1 <= height,
        key.kind is Press,
        key.code is End,
    ensures
        exists|sys: Option<Seq<char>>|
            final(editor)@ == spec_dispatch(old(editor)@, key, sys, width as int, height as int).0
                && cmd == spec_dispatch(old(editor)@, key, sys, width as int, height as int).1,
        final(editor)@.wf(),
        final(editor).file_path == old(editor).file_path,
        final(editor).theme == old(editor).theme,
{
    let ghost gnone: Option<Seq<char>> = Option::None;
    if editor.exit_requested {
            proof {
                assert(editor@ =~= spec_dispatch(
                    old(editor)@,
                    key,
                    gnone,
                    width as int,
                    height as int,
                ).0);
            }
        return EditorCommand::Continue;
    }
    if key.modifiers == KeyModifiers::Shift {
        let had = editor.has_selection();
        start_or_extend_selection(editor);
        let moved = move_cursor_end(editor, width, height);
        if !had || moved {
            editor.needs_redraw = true;
        }
            proof {
                assert(editor@ =~= spec_dispatch(
                    old(editor)@,
                    key,
                    gnone,
                    width as int,
                    height as int,
                ).0);
            }
        EditorCommand::Continue
    } else {
        let had = editor.has_selection();
        editor.clear_selection();
        let moved = move_cursor_end(editor, width, height);
        if had || moved {
            editor.needs_redraw = true;
        }
            proof {
                assert(editor@ =~= spec_dispatch(
                    old(editor)@,
                    key,
                    gnone,
                    width as int,
                    height as int,
                ).0);
            }
        EditorCommand::Continue
    }
}

fn handle_page_up_key(editor: &mut TextEditor, key: KeyEvent, width: usize, height: usize) -> (cmd: EditorCommand)
    requires
        old(editor)@.wf(),
        1 <= width,
        1 <= height,
        key.kind is Press,
        key.code is PageUp,
    ensures
        exists|sys: Option<Seq<char>>|
            final(editor)@ == spec_dispatch(old(editor)@, key, sys, width as int, height as int).0
                && cmd == spec_dispatch(old(editor)@, key, sys, width as int, height as int).1,
        final(editor)@.wf(),
        final(editor).file_path == old(editor).file_path,
        final(editor).theme == old(editor).theme,
{
    let ghost gnone: Option<Seq<char>> = Option::None;
    if editor.exit_requested {
            proof {
                assert(editor@ =~= spec_dispatch(
                    old(editor)@,
                    key,
                    gnone,
                    width as int,
                    height as int,
                ).0);
            }
        return EditorCommand::Continue;
    }
    let had = editor.has_selection();
    editor.clear_selection();
    let moved = move_cursor_page_up(editor, width, height);
    if had || moved {
        editor.needs_redraw = true;
    }
            proof {
                assert(editor@ =~= spec_dispatch(
                    old(editor)@,
                    key,
                    gnone,
                    width as int,
                    height as int,
                ).0);
            }
    EditorCommand::Continue
}

fn handle_page_down_key(editor: &mut TextEditor, key: KeyEvent, width: usize, height: usize) -> (cmd: EditorCommand)
    requires
        old(editor)@.wf(),
        1 <= width,
        1 <= height,
        key.kind is Press,
        key.code is PageDown,
    ensures
        exists|sys: Option<Seq<char>>|
            final(editor)@ == spec_dispatch(old(editor)@, key, sys, width as int, height as int).0
                && cmd == spec_dispatch(old(editor)@, key, sys, width as int, height as int).1,
        final(editor)@.wf(),
        final(editor).file_path == old(editor).file_path,
        final(editor).theme == old(editor).theme,
{
    let ghost gnone: Option<Seq<char>> = Option::None;
    if editor.exit_requested {
            proof {
                assert(editor@ =~= spec_dispatch(
                    old(editor)@,
                    key,
                    gnone,
                    width as int,
                    height as int,
                ).0);
            }
        return EditorCommand::Continue;
    }
    let had = editor.has_selection();
    editor.clear_selection();
    let moved = move_cursor_page_down(editor, width, height);
    if had || moved {
        editor.needs_redraw = true;
    }
            proof {
                assert(editor@ =~= spec_dispatch(
                    old(editor)@,
                    key,
                    gnone,
                    width as int,
                    height as int,
                ).0);
            }
    EditorCommand::Continue
}

} // verus!
