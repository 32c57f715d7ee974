use vstd::prelude::*;

use crate::document::{lemma_lines_view_insert, lemma_lines_view_remove, lemma_lines_view_update};
use crate::editor::model::EditorModel;
use crate::editor::state::TextEditor;
use crate::text::copy_range;

verus! {

pub open spec fn spec_min(a: int, b: int) -> int {
    if a <= b {
        a
    } else {
        b
    }
}

/// Edge alignment along one axis: if the cursor lies before the window,
/// the window starts at the cursor; if it lies at or past the window's
/// end, the window ends just after the cursor; otherwise nothing moves.
pub open spec fn spec_adjust_axis(offset: int, cur: int, visible: int) -> int {
    if cur < offset {
        cur
    } else if cur >= offset + visible {
        cur - visible + 1
    } else {
        offset
    }
}

/// The viewport after a move: each axis edge-aligned to the cursor, and
/// the vertical offset clamped so the view never scrolls past the last
/// line by more than the visible height allows. One terminal row is
/// reserved for the status line.
pub open spec fn spec_adjust_viewport(m: EditorModel, width: int, height: int) -> EditorModel {
    let visible = height - 1;
    let vy0 = spec_adjust_axis(m.viewport.1, m.cursor.1, visible);
    let max_off = if m.lines.len() > visible {
        m.lines.len() - visible
    } else {
        0
    };
    let vy = spec_min(vy0, max_off);
    let vx = spec_adjust_axis(m.viewport.0, m.cursor.0, width);
    EditorModel { viewport: (vx, vy), ..m }
}

/// Moving up goes to the same desired column on the previous line,
/// clamped to that line's length; at the first line nothing happens.
/// The desired column itself is preserved.
pub open spec fn spec_move_up(m: EditorModel, width: int, height: int) -> EditorModel {
    if m.cursor.1 > 0 {
        let row = m.cursor.1 - 1;
        let col = spec_min(m.desired_col, m.lines[row].len() as int);
        spec_adjust_viewport(EditorModel { cursor: (col, row), ..m }, width, height)
    } else {
        m
    }
}

/// Moving down mirrors moving up, stopping at the last line.
pub open spec fn spec_move_down(m: EditorModel, width: int, height: int) -> EditorModel {
    if m.cursor.1 < m.lines.len() - 1 {
        let row = m.cursor.1 + 1;
        let col = spec_min(m.desired_col, m.lines[row].len() as int);
        spec_adjust_viewport(EditorModel { cursor: (col, row), ..m }, width, height)
    } else {
        m
    }
}

/// Moving left steps back one column, or to the end of the previous line
/// at column zero; at the very start nothing moves. Horizontal moves set
/// the desired column.
pub open spec fn spec_move_left(m: EditorModel, width: int, height: int) -> EditorModel {
    let m1 = if m.cursor.0 > 0 {
        EditorModel { cursor: (m.cursor.0 - 1, m.cursor.1), desired_col: m.cursor.0 - 1, ..m }
    } else if m.cursor.1 > 0 {
        let col = m.lines[m.cursor.1 - 1].len() as int;
        EditorModel { cursor: (col, m.cursor.1 - 1), desired_col: col, ..m }
    } else {
        m
    };
    spec_adjust_viewport(m1, width, height)
}

/// Moving right steps forward one column, or to column zero of the next
/// line at the end of a line; at the very end nothing moves.
pub open spec fn spec_move_right(m: EditorModel, width: int, height: int) -> EditorModel {
    let m1 = if m.cursor.0 < m.lines[m.cursor.1].len() {
        EditorModel { cursor: (m.cursor.0 + 1, m.cursor.1), desired_col: m.cursor.0 + 1, ..m }
    } else if m.cursor.1 < m.lines.len() - 1 {
        EditorModel { cursor: (0, m.cursor.1 + 1), desired_col: 0, ..m }
    } else {
        m
    };
    spec_adjust_viewport(m1, width, height)
}

/// Home goes to column zero.
pub open spec fn spec_move_home(m: EditorModel, width: int, height: int) -> EditorModel {
    spec_adjust_viewport(
        EditorModel { cursor: (0, m.cursor.1), desired_col: 0, ..m },
        width,
        height,
    )
}

/// End goes past the last character of the line.
pub open spec fn spec_move_end(m: EditorModel, width: int, height: int) -> EditorModel {
    let col = m.lines[m.cursor.1].len() as int;
    spec_adjust_viewport(
        EditorModel { cursor: (col, m.cursor.1), desired_col: col, ..m },
        width,
        height,
    )
}

/// Page up moves one page (the visible height) towards the first line,
/// keeping the desired column.
pub open spec fn spec_move_page_up(m: EditorModel, width: int, height: int) -> EditorModel {
    let page = height - 1;
    let row = if m.cursor.1 >= page {
        m.cursor.1 - page
    } else {
        0
    };
    let col = spec_min(m.desired_col, m.lines[row].len() as int);
    spec_adjust_viewport(EditorModel { cursor: (col, row), ..m }, width, height)
}

/// Page down mirrors page up, stopping at the last line.
pub open spec fn spec_move_page_down(m: EditorModel, width: int, height: int) -> EditorModel {
    let page = height - 1;
    let row = spec_min(m.cursor.1 + page, m.lines.len() - 1);
    let col = spec_min(m.desired_col, m.lines[row].len() as int);
    spec_adjust_viewport(EditorModel { cursor: (col, row), ..m }, width, height)
}

/// Typing inserts the character at the cursor and steps right.
pub open spec fn spec_insert_char(m: EditorModel, c: char, width: int, height: int) -> EditorModel {
    let line = m.lines[m.cursor.1].insert(m.cursor.0, c);
    spec_adjust_viewport(
        EditorModel {
            lines: m.lines.update(m.cursor.1, line),
            cursor: (m.cursor.0 + 1, m.cursor.1),
            desired_col: m.cursor.0 + 1,
            modified: true,
            ..m
        },
        width,
        height,
    )
}

/// Backspace removes the character before the cursor, or at column zero
/// merges the line into the previous one; at the very start nothing
/// happens.
pub open spec fn spec_delete_backspace(m: EditorModel, width: int, height: int) -> EditorModel {
    if m.cursor.0 > 0 {
        let line = m.lines[m.cursor.1].remove(m.cursor.0 - 1);
        spec_adjust_viewport(
            EditorModel {
                lines: m.lines.update(m.cursor.1, line),
                cursor: (m.cursor.0 - 1, m.cursor.1),
                desired_col: m.cursor.0 - 1,
                modified: true,
                ..m
            },
            width,
            height,
        )
    } else if m.cursor.1 > 0 {
        let r = m.cursor.1;
        let prev_len = m.lines[r - 1].len() as int;
        let lines = m.lines.update(r - 1, m.lines[r - 1] + m.lines[r]).remove(r);
        spec_adjust_viewport(
            EditorModel {
                lines: lines,
                cursor: (prev_len, r - 1),
                desired_col: prev_len,
                modified: true,
                ..m
            },
            width,
            height,
        )
    } else {
        m
    }
}

/// Forward delete removes the character under the cursor, or at the end
/// of a line merges the next line into it; at the very end nothing
/// happens. The cursor stays.
pub open spec fn spec_delete_forward(m: EditorModel, width: int, height: int) -> EditorModel {
    if m.cursor.0 < m.lines[m.cursor.1].len() {
        let line = m.lines[m.cursor.1].remove(m.cursor.0);
        spec_adjust_viewport(
            EditorModel { lines: m.lines.update(m.cursor.1, line), modified: true, ..m },
            width,
            height,
        )
    } else if m.cursor.1 < m.lines.len() - 1 {
        let r = m.cursor.1;
        let lines = m.lines.update(r, m.lines[r] + m.lines[r + 1]).remove(r + 1);
        spec_adjust_viewport(EditorModel { lines: lines, modified: true, ..m }, width, height)
    } else {
        m
    }
}

/// Enter splits the line at the cursor; the cursor starts the new line.
pub open spec fn spec_insert_newline(m: EditorModel, width: int, height: int) -> EditorModel {
    let r = m.cursor.1;
    let c = m.cursor.0;
    let lines = m.lines.update(r, m.lines[r].take(c)).insert(r + 1, m.lines[r].skip(c));
    spec_adjust_viewport(
        EditorModel { lines: lines, cursor: (0, r + 1), desired_col: 0, modified: true, ..m },
        width,
        height,
    )
}

/// Re-aligns the viewport so the cursor is visible, shifting each axis by
/// the minimal amount and clamping the vertical offset to the last page.
pub fn adjust_viewport_to_cursor_smooth(editor: &mut TextEditor, width: usize, height: usize)
    requires
        old(editor)@.wf(),
        1 <= width,
        1 <= height,
    ensures
        final(editor)@ == spec_adjust_viewport(old(editor)@, width as int, height as int),
        final(editor)@.wf(),
        final(editor).file_path == old(editor).file_path,
        final(editor).theme == old(editor).theme,
{
    let visible = height - 1;
    let n = editor.content.len();
    let col = editor.cursor_position.0;
    let row = editor.cursor_position.1;
    let mut vx = editor.viewport_offset.0;
    let mut vy = editor.viewport_offset.1;
    if row < vy {
        vy = row;
    } else if row - vy >= visible {
        vy = row - visible + 1;
    }
    if col < vx {
        vx = col;
    } else if col - vx >= width {
        vx = col - width + 1;
    }
    let max_off = if n > visible {
        n - visible
    } else {
        0
    };
    if vy > max_off {
        vy = max_off;
    }
    editor.viewport_offset = (vx, vy);
    proof {
        assert(editor@ =~= spec_adjust_viewport(old(editor)@, width as int, height as int));
    }
}

/// Moves the cursor one line up, keeping the desired column. Reports
/// whether anything visible changed.
pub fn move_cursor_up(editor: &mut TextEditor, width: usize, height: usize) -> (changed: bool)
    requires
        old(editor)@.wf(),
        1 <= width,
        1 <= height,
    ensures
        final(editor)@ == spec_move_up(old(editor)@, width as int, height as int),
        final(editor)@.wf(),
        changed == !old(editor)@.same_visible(final(editor)@),
        final(editor).file_path == old(editor).file_path,
        final(editor).theme == old(editor).theme,
{
    if editor.cursor_position.1 > 0 {
        let row = editor.cursor_position.1 - 1;
        let max_col = editor.content[row].len();
        let col = if editor.desired_column <= max_col {
            editor.desired_column
        } else {
            max_col
        };
        editor.cursor_position = (col, row);
        adjust_viewport_to_cursor_smooth(editor, width, height);
        proof {
            assert(editor@ =~= spec_move_up(old(editor)@, width as int, height as int));
        }
        true
    } else {
        false
    }
}

/// Moves the cursor one line down, keeping the desired column.
pub fn move_cursor_down(editor: &mut TextEditor, width: usize, height: usize) -> (changed: bool)
    requires
        old(editor)@.wf(),
        1 <= width,
        1 <= height,
    ensures
        final(editor)@ == spec_move_down(old(editor)@, width as int, height as int),
        final(editor)@.wf(),
        changed == !old(editor)@.same_visible(final(editor)@),
        final(editor).file_path == old(editor).file_path,
        final(editor).theme == old(editor).theme,
{
    let n = editor.content.len();
    if editor.cursor_position.1 < n - 1 {
        let row = editor.cursor_position.1 + 1;
        let max_col = editor.content[row].len();
        let col = if editor.desired_column <= max_col {
            editor.desired_column
        } else {
            max_col
        };
        editor.cursor_position = (col, row);
        adjust_viewport_to_cursor_smooth(editor, width, height);
        proof {
            assert(editor@ =~= spec_move_down(old(editor)@, width as int, height as int));
        }
        true
    } else {
        false
    }
}

/// Moves the cursor one column left, crossing to the previous line's end
/// at column zero.
pub fn move_cursor_left(editor: &mut TextEditor, width: usize, height: usize) -> (changed: bool)
    requires
        old(editor)@.wf(),
        1 <= width,
        1 <= height,
    ensures
        final(editor)@ == spec_move_left(old(editor)@, width as int, height as int),
        final(editor)@.wf(),
        changed == !old(editor)@.same_visible(final(editor)@),
        final(editor).file_path == old(editor).file_path,
        final(editor).theme == old(editor).theme,
{
    let ov = editor.viewport_offset;
    let mut moved = true;
    if editor.cursor_position.0 > 0 {
        let col = editor.cursor_position.0 - 1;
        editor.cursor_position = (col, editor.cursor_position.1);
        editor.desired_column = col;
    } else if editor.cursor_position.1 > 0 {
        let row = editor.cursor_position.1 - 1;
        let col = editor.content[row].len();
        editor.cursor_position = (col, row);
        editor.desired_column = col;
    } else {
        moved = false;
    }
    adjust_viewport_to_cursor_smooth(editor, width, height);
    proof {
        assert(editor@ =~= spec_move_left(old(editor)@, width as int, height as int));
    }
    let changed = moved || editor.viewport_offset.0 != ov.0 || editor.viewport_offset.1 != ov.1;
    proof {
        if !moved {
            assert(old(editor)@.cursor == editor@.cursor);
        }
    }
    changed
}

/// Moves the cursor one column right, crossing to the next line's start
/// at the end of a line.
pub fn move_cursor_right(editor: &mut TextEditor, width: usize, height: usize) -> (changed: bool)
    requires
        old(editor)@.wf(),
        1 <= width,
        1 <= height,
    ensures
        final(editor)@ == spec_move_right(old(editor)@, width as int, height as int),
        final(editor)@.wf(),
        changed == !old(editor)@.same_visible(final(editor)@),
        final(editor).file_path == old(editor).file_path,
        final(editor).theme == old(editor).theme,
{
    let ov = editor.viewport_offset;
    let n = editor.content.len();
    let line_len = editor.content[editor.cursor_position.1].len();
    let mut moved = true;
    if editor.cursor_position.0 < line_len {
        let col = editor.cursor_position.0 + 1;
        editor.cursor_position = (col, editor.cursor_position.1);
        editor.desired_column = col;
    } else if editor.cursor_position.1 < n - 1 {
        let row = editor.cursor_position.1 + 1;
        editor.cursor_position = (0, row);
        editor.desired_column = 0;
    } else {
        moved = false;
    }
    adjust_viewport_to_cursor_smooth(editor, width, height);
    proof {
        assert(editor@ =~= spec_move_right(old(editor)@, width as int, height as int));
    }
    let changed = moved || editor.viewport_offset.0 != ov.0 || editor.viewport_offset.1 != ov.1;
    changed
}

/// Moves the cursor to column zero.
pub fn move_cursor_home(editor: &mut TextEditor, width: usize, height: usize) -> (changed: bool)
    requires
        old(editor)@.wf(),
        1 <= width,
        1 <= height,
    ensures
        final(editor)@ == spec_move_home(old(editor)@, width as int, height as int),
        final(editor)@.wf(),
        changed == !old(editor)@.same_visible(final(editor)@),
        final(editor).file_path == old(editor).file_path,
        final(editor).theme == old(editor).theme,
{
    let ov = editor.viewport_offset;
    let oc = editor.cursor_position.0;
    editor.cursor_position = (0, editor.cursor_position.1);
    editor.desired_column = 0;
    adjust_viewport_to_cursor_smooth(editor, width, height);
    proof {
        assert(editor@ =~= spec_move_home(old(editor)@, width as int, height as int));
    }
    let changed = oc != 0 || editor.viewport_offset.0 != ov.0 || editor.viewport_offset.1 != ov.1;
    changed
}

/// Moves the cursor past the last character of the line.
pub fn move_cursor_end(editor: &mut TextEditor, width: usize, height: usize) -> (changed: bool)
    requires
        old(editor)@.wf(),
        1 <= width,
        1 <= height,
    ensures
        final(editor)@ == spec_move_end(old(editor)@, width as int, height as int),
        final(editor)@.wf(),
        changed == !old(editor)@.same_visible(final(editor)@),
        final(editor).file_path == old(editor).file_path,
        final(editor).theme == old(editor).theme,
{
    let ov = editor.viewport_offset;
    let oc = editor.cursor_position.0;
    let line_len = editor.content[editor.cursor_position.1].len();
    editor.cursor_position = (line_len, editor.cursor_position.1);
    editor.desired_column = line_len;
    adjust_viewport_to_cursor_smooth(editor, width, height);
    proof {
        assert(editor@ =~= spec_move_end(old(editor)@, width as int, height as int));
    }
    let changed = oc != line_len || editor.viewport_offset.0 != ov.0 || editor.viewport_offset.1
        != ov.1;
    changed
}

/// Moves the cursor one page up, keeping the desired column.
pub fn move_cursor_page_up(editor: &mut TextEditor, width: usize, height: usize) -> (changed: bool)
    requires
        old(editor)@.wf(),
        1 <= width,
        1 <= height,
    ensures
        final(editor)@ == spec_move_page_up(old(editor)@, width as int, height as int),
        final(editor)@.wf(),
        changed == !old(editor)@.same_visible(final(editor)@),
        final(editor).file_path == old(editor).file_path,
        final(editor).theme == old(editor).theme,
{
    let ov = editor.viewport_offset;
    let oc = editor.cursor_position;
    let page = height - 1;
    let row = if editor.cursor_position.1 >= page {
        editor.cursor_position.1 - page
    } else {
        0
    };
    let max_col = editor.content[row].len();
    let col = if editor.desired_column <= max_col {
        editor.desired_column
    } else {
        max_col
    };
    editor.cursor_position = (col, row);
    adjust_viewport_to_cursor_smooth(editor, width, height);
    proof {
        assert(editor@ =~= spec_move_page_up(old(editor)@, width as int, height as int));
    }
    let changed = editor.cursor_position.0 != oc.0 || editor.cursor_position.1 != oc.1
        || editor.viewport_offset.0 != ov.0 || editor.viewport_offset.1 != ov.1;
    changed
}

/// Moves the cursor one page down, keeping the desired column.
pub fn move_cursor_page_down(editor: &mut TextEditor, width: usize, height: usize) -> (changed:
    bool)
    requires
        old(editor)@.wf(),
        1 <= width,
        1 <= height,
    ensures
        final(editor)@ == spec_move_page_down(old(editor)@, width as int, height as int),
        final(editor)@.wf(),
        changed == !old(editor)@.same_visible(final(editor)@),
        final(editor).file_path == old(editor).file_path,
        final(editor).theme == old(editor).theme,
{
    let ov = editor.viewport_offset;
    let oc = editor.cursor_position;
    let page = height - 1;
    let n = editor.content.len();
    let remaining = n - 1 - editor.cursor_position.1;
    let row = if page <= remaining {
        editor.cursor_position.1 + page
    } else {
        n - 1
    };
    let max_col = editor.content[row].len();
    let col = if editor.desired_column <= max_col {
        editor.desired_column
    } else {
        max_col
    };
    editor.cursor_position = (col, row);
    adjust_viewport_to_cursor_smooth(editor, width, height);
    proof {
        assert(editor@ =~= spec_move_page_down(old(editor)@, width as int, height as int));
    }
    let changed = editor.cursor_position.0 != oc.0 || editor.cursor_position.1 != oc.1
        || editor.viewport_offset.0 != ov.0 || editor.viewport_offset.1 != ov.1;
    changed
}

/// Inserts `c` at the cursor; the cursor steps past it and the buffer
/// becomes modified.
pub fn insert_char(editor: &mut TextEditor, c: char, width: usize, height: usize) -> (changed:
    bool)
    requires
        old(editor)@.wf(),
        old(editor)@.selection is None,
        1 <= width,
        1 <= height,
    ensures
        final(editor)@ == spec_insert_char(old(editor)@, c, width as int, height as int),
        final(editor)@.wf(),
        changed == !old(editor)@.same_visible(final(editor)@),
        final(editor).file_path == old(editor).file_path,
        final(editor).theme == old(editor).theme,
{
    let row = editor.cursor_position.1;
    let col = editor.cursor_position.0;
    let line = &mut editor.content[row];
    line.insert(col, c);
    proof {
        lemma_lines_view_update(
            old(editor).content@,
            row as int,
            editor.content@[row as int],
        );
    }
    let new_len = editor.content[row].len();
    assert(col < new_len);
    editor.cursor_position = (col + 1, row);
    editor.desired_column = col + 1;
    editor.modified = true;
    adjust_viewport_to_cursor_smooth(editor, width, height);
    proof {
        assert(editor@ =~= spec_insert_char(old(editor)@, c, width as int, height as int));
    }
    true
}

/// Backspace: removes the character before the cursor, or merges this
/// line into the previous one at column zero.
pub fn delete_char_backspace(editor: &mut TextEditor, width: usize, height: usize) -> (changed:
    bool)
    requires
        old(editor)@.wf(),
        old(editor)@.selection is None,
        1 <= width,
        1 <= height,
    ensures
        final(editor)@ == spec_delete_backspace(old(editor)@, width as int, height as int),
        final(editor)@.wf(),
        changed == !old(editor)@.same_visible(final(editor)@),
        final(editor).file_path == old(editor).file_path,
        final(editor).theme == old(editor).theme,
{
    let row = editor.cursor_position.1;
    let col = editor.cursor_position.0;
    if col > 0 {
        let line = &mut editor.content[row];
        line.remove(col - 1);
        proof {
            lemma_lines_view_update(
                old(editor).content@,
                row as int,
                editor.content@[row as int],
            );
        }
        editor.cursor_position = (col - 1, row);
        editor.desired_column = col - 1;
        editor.modified = true;
        adjust_viewport_to_cursor_smooth(editor, width, height);
        proof {
            assert(editor@ =~= spec_delete_backspace(
                old(editor)@,
                width as int,
                height as int,
            ));
        }
        true
    } else if row > 0 {
        let mut cur_line = editor.content.remove(row);
        proof {
            lemma_lines_view_remove(old(editor).content@, row as int);
        }
        let prev_len = editor.content[row - 1].len();
        let line = &mut editor.content[row - 1];
        line.append(&mut cur_line);
        proof {
            lemma_lines_view_update(
                old(editor).content@.remove(row as int),
                row as int - 1,
                editor.content@[row as int - 1],
            );
        }
        editor.cursor_position = (prev_len, row - 1);
        editor.desired_column = prev_len;
        editor.modified = true;
        proof {
            let m = old(editor)@;
            let r = row as int;
            let target = m.lines.update(r - 1, m.lines[r - 1] + m.lines[r]).remove(r);
            assert(editor@.lines =~= target);
        }
        adjust_viewport_to_cursor_smooth(editor, width, height);
        proof {
            assert(editor@ =~= spec_delete_backspace(
                old(editor)@,
                width as int,
                height as int,
            ));
            assert(editor@.lines.len() != old(editor)@.lines.len());
        }
        true
    } else {
        false
    }
}

/// Forward delete: removes the character under the cursor, or merges the
/// next line into this one at the end of a line.
pub fn delete_char_delete(editor: &mut TextEditor, width: usize, height: usize) -> (changed: bool)
    requires
        old(editor)@.wf(),
        old(editor)@.selection is None,
        1 <= width,
        1 <= height,
    ensures
        final(editor)@ == spec_delete_forward(old(editor)@, width as int, height as int),
        final(editor)@.wf(),
        changed == !old(editor)@.same_visible(final(editor)@),
        final(editor).file_path == old(editor).file_path,
        final(editor).theme == old(editor).theme,
{
    let row = editor.cursor_position.1;
    let col = editor.cursor_position.0;
    let n = editor.content.len();
    let line_len = editor.content[row].len();
    if col < line_len {
        let line = &mut editor.content[row];
        line.remove(col);
        proof {
            lemma_lines_view_update(
                old(editor).content@,
                row as int,
                editor.content@[row as int],
            );
        }
        editor.modified = true;
        adjust_viewport_to_cursor_smooth(editor, width, height);
        proof {
            assert(editor@ =~= spec_delete_forward(old(editor)@, width as int, height as int));
            assert(editor@.lines[row as int].len() != old(editor)@.lines[row as int].len());
        }
        true
    } else if row < n - 1 {
        let mut next_line = editor.content.remove(row + 1);
        proof {
            lemma_lines_view_remove(old(editor).content@, row as int + 1);
        }
        let line = &mut editor.content[row];
        line.append(&mut next_line);
        proof {
            lemma_lines_view_update(
                old(editor).content@.remove(row as int + 1),
                row as int,
                editor.content@[row as int],
            );
        }
        editor.modified = true;
        proof {
            let m = old(editor)@;
            let r = row as int;
            let target = m.lines.update(r, m.lines[r] + m.lines[r + 1]).remove(r + 1);
            assert(editor@.lines =~= target);
        }
        adjust_viewport_to_cursor_smooth(editor, width, height);
        proof {
            assert(editor@ =~= spec_delete_forward(old(editor)@, width as int, height as int));
            assert(editor@.lines.len() != old(editor)@.lines.len());
        }
        true
    } else {
        false
    }
}

/// Enter: splits the current line at the cursor; the cursor starts the
/// new line.
pub fn insert_newline(editor: &mut TextEditor, width: usize, height: usize) -> (changed: bool)
    requires
        old(editor)@.wf(),
        old(editor)@.selection is None,
        1 <= width,
        1 <= height,
    ensures
        final(editor)@ == spec_insert_newline(old(editor)@, width as int, height as int),
        final(editor)@.wf(),
        changed == !old(editor)@.same_visible(final(editor)@),
        final(editor).file_path == old(editor).file_path,
        final(editor).theme == old(editor).theme,
{
    let row = editor.cursor_position.1;
    let col = editor.cursor_position.0;
    let n = editor.content.len();
    assert(row < n);
    let line_len = editor.content[row].len();
    let suffix = copy_range(&editor.content[row], col, line_len);
    let line = &mut editor.content[row];
    line.truncate(col);
    proof {
        lemma_lines_view_update(
            old(editor).content@,
            row as int,
            editor.content@[row as int],
        );
    }
    editor.content.insert(row + 1, suffix);
    proof {
        lemma_lines_view_insert(
            old(editor).content@.update(row as int, editor.content@[row as int]),
            row as int + 1,
            editor.content@[row as int + 1],
        );
    }
    editor.cursor_position = (0, row + 1);
    editor.desired_column = 0;
    editor.modified = true;
    proof {
        let m = old(editor)@;
        let target = m.lines.update(row as int, m.lines[row as int].take(col as int)).insert(
            row as int + 1,
            m.lines[row as int].skip(col as int),
        );
        assert(editor@.lines =~= target);
    }
    adjust_viewport_to_cursor_smooth(editor, width, height);
    proof {
        assert(editor@ =~= spec_insert_newline(old(editor)@, width as int, height as int));
    }
    true
}

} // verus!
