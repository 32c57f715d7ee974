use vstd::prelude::*;

use crate::editor::clipboard::spec_selection_range;
use crate::editor::model::EditorModel;
use crate::editor::state::TextEditor;
use crate::text::{append_str, fmt_usize, spec_dec, str_chars};

verus! {

/// The characters one terminal row shows: the document line `line_idx`
/// sliced from the viewport's horizontal offset, padded with spaces to
/// the full terminal width; a row past the last line is all spaces.
pub open spec fn spec_render_row(m: EditorModel, line_idx: int, width: int) -> Seq<char> {
    Seq::new(
        width as nat,
        |j: int|
            {
                let col = m.viewport.0 + j;
                if 0 <= line_idx < m.lines.len() && col < m.lines[line_idx].len() {
                    m.lines[line_idx][col]
                } else {
                    ' '
                }
            },
    )
}

/// Whether the character cell at document position (line_idx, col) is
/// inside the selection: on a selected line, at or after the selection
/// start on its first line, and before its end on its last line. Only
/// cells holding a character highlight.
pub open spec fn spec_cell_selected(m: EditorModel, line_idx: int, col: int) -> bool {
    match spec_selection_range(m) {
        Option::Some(r) => {
            let s = r.0;
            let e = r.1;
            &&& 0 <= line_idx < m.lines.len()
            &&& 0 <= col < m.lines[line_idx].len()
            &&& s.1 <= line_idx <= e.1
            &&& col >= (if line_idx == s.1 {
                s.0
            } else {
                0
            })
            &&& col < (if line_idx == e.1 {
                e.0
            } else {
                m.lines[line_idx].len() as int
            })
        },
        Option::None => false,
    }
}

/// Renders the visible rows: one reserved status row, the rest document
/// rows sliced at the viewport and padded to the terminal width.
pub fn render_content_rows(editor: &TextEditor, width: usize, height: usize) -> (r: Vec<Vec<char>>)
    requires
        editor@.wf(),
        1 <= height,
    ensures
        r@.len() == height - 1,
        forall|i: int|
            0 <= i < r@.len() ==> r@[i]@ == spec_render_row(
                editor@,
                editor@.viewport.1 + i,
                width as int,
            ),
{
    let rows = height - 1;
    let n = editor.content.len();
    let vy = editor.viewport_offset.1;
    let vx = editor.viewport_offset.0;
    let mut r: Vec<Vec<char>> = Vec::new();
    let mut i: usize = 0;
    while i < rows
        invariant
            i <= rows,
            n == editor.content@.len(),
            vy == editor@.viewport.1,
            vx == editor@.viewport.0,
            editor@.wf(),
            r@.len() == i,
            forall|t: int|
                0 <= t < i ==> r@[t]@ == spec_render_row(
                    editor@,
                    editor@.viewport.1 + t,
                    width as int,
                ),
        decreases rows - i,
    {
        let in_doc = vy < n && i < n - vy;
        let ghost li = editor@.viewport.1 + i;
        let mut row: Vec<char> = Vec::new();
        let mut j: usize = 0;
        while j < width
            invariant
                j <= width,
                n == editor.content@.len(),
                vy == editor@.viewport.1,
                vx == editor@.viewport.0,
                editor@.wf(),
                li == editor@.viewport.1 + i,
                in_doc == (vy < n && i < n - vy),
                i < rows,
                row@.len() == j,
                forall|t: int|
                    0 <= t < j ==> row@[t] == spec_render_row(editor@, li, width as int)[t],
            decreases width - j,
        {
            if in_doc {
                let line_len = editor.content[vy + i].len();
                if vx < line_len && j < line_len - vx {
                    row.push(editor.content[vy + i][vx + j]);
                } else {
                    row.push(' ');
                }
            } else {
                row.push(' ');
            }
            j = j + 1;
        }
        proof {
            assert(row@ =~= spec_render_row(editor@, li, width as int));
        }
        r.push(row);
        i = i + 1;
    }
    r
}

/// The selection highlight for the visible rows: cell (i, j) is true
/// exactly when the character it shows lies inside the selection.
pub fn render_selection_rows(editor: &TextEditor, width: usize, height: usize) -> (r: Vec<
    Vec<bool>,
>)
    requires
        editor@.wf(),
        1 <= height,
    ensures
        r@.len() == height - 1,
        forall|i: int, j: int|
            0 <= i < r@.len() && 0 <= j < width ==> r@[i]@[j] == spec_cell_selected(
                editor@,
                editor@.viewport.1 + i,
                editor@.viewport.0 + j,
            ),
        forall|i: int| 0 <= i < r@.len() ==> r@[i]@.len() == width,
{
    let range = crate::editor::clipboard::get_selection_range(editor);
    let n = editor.content.len();
    let rows = height - 1;
    let vy = editor.viewport_offset.1;
    let vx = editor.viewport_offset.0;
    let mut r: Vec<Vec<bool>> = Vec::new();
    let mut i: usize = 0;
    while i < rows
        invariant
            i <= rows,
            n == editor.content@.len(),
            vy == editor@.viewport.1,
            vx == editor@.viewport.0,
            editor@.wf(),
            (match range {
                Option::Some(p) => spec_selection_range(editor@) == Option::Some(
                    (((p.0).0 as int, (p.0).1 as int), ((p.1).0 as int, (p.1).1 as int)),
                ),
                Option::None => spec_selection_range(editor@) is None,
            }),
            r@.len() == i,
            forall|t: int, u: int|
                0 <= t < i && 0 <= u < width ==> r@[t]@[u] == spec_cell_selected(
                    editor@,
                    editor@.viewport.1 + t,
                    editor@.viewport.0 + u,
                ),
            forall|t: int| 0 <= t < i ==> r@[t]@.len() == width,
        decreases rows - i,
    {
        let in_doc = vy < n && i < n - vy;
        let ghost li = editor@.viewport.1 + i;
        let mut row: Vec<bool> = Vec::new();
        let mut j: usize = 0;
        while j < width
            invariant
                j <= width,
                n == editor.content@.len(),
                vy == editor@.viewport.1,
                vx == editor@.viewport.0,
                editor@.wf(),
                li == editor@.viewport.1 + i,
                in_doc == (vy < n && i < n - vy),
                i < rows,
                (match range {
                    Option::Some(p) => spec_selection_range(editor@) == Option::Some(
                        (((p.0).0 as int, (p.0).1 as int), ((p.1).0 as int, (p.1).1 as int)),
                    ),
                    Option::None => spec_selection_range(editor@) is None,
                }),
                row@.len() == j,
                forall|u: int|
                    0 <= u < j ==> row@[u] == spec_cell_selected(
                        editor@,
                        li,
                        editor@.viewport.0 + u,
                    ),
            decreases width - j,
        {
            let sel = match range {
                Option::Some((s, e)) => {
                    if in_doc {
                        let row_idx = vy + i;
                        let line_len = editor.content[row_idx].len();
                        if vx < line_len && j < line_len - vx {
                            let col = vx + j;
                            let after_start = row_idx > s.1 || (row_idx == s.1 && col >= s.0);
                            let before_end = row_idx < e.1 || (row_idx == e.1 && col < e.0);
                            s.1 <= row_idx && row_idx <= e.1 && after_start && before_end
                        } else {
                            false
                        }
                    } else {
                        false
                    }
                },
                Option::None => false,
            };
            row.push(sel);
            proof {
                assert(row@[j as int] == spec_cell_selected(
                    editor@,
                    li,
                    editor@.viewport.0 + j,
                ));
            }
            j = j + 1;
        }
        r.push(row);
        i = i + 1;
    }
    r
}

/// The status line: the file path, a modified marker, the 1-based cursor
/// line and column, and, when a selection is active, its 1-based
/// endpoints.
pub open spec fn spec_status_line(m: EditorModel, path: Seq<char>) -> Seq<char> {
    let base = if m.modified {
        path + " [Modified] Line "@
    } else {
        path + " Line "@
    };
    let sel = match spec_selection_range(m) {
        Option::Some(r) => " | Selection: "@ + spec_dec(r.0.1 + 1) + ":"@ + spec_dec(r.0.0 + 1)
            + " to "@ + spec_dec(r.1.1 + 1) + ":"@ + spec_dec(r.1.0 + 1),
        Option::None => Seq::<char>::empty(),
    };
    base + spec_dec(m.cursor.1 + 1) + ", Col "@ + spec_dec(m.cursor.0 + 1) + sel
}

/// Builds the status line text. The cursor and anchor columns must leave
/// room for 1-based display, a machine limit only.
pub fn status_bar_text(editor: &TextEditor) -> (r: String)
    requires
        editor@.wf(),
        editor@.cursor.0 + 1 <= usize::MAX,
        (match editor@.selection {
            Option::Some(a) => a.0 + 1 <= usize::MAX,
            Option::None => true,
        }),
    ensures
        r@ == spec_status_line(editor@, editor.file_path@),
{
    let n = editor.content.len();
    let mut r = String::new();
    append_str(&mut r, editor.file_path.as_str());
    if editor.modified {
        append_str(&mut r, " [Modified] Line ");
    } else {
        append_str(&mut r, " Line ");
    }
    let row_text = fmt_usize(editor.cursor_position.1 + 1);
    append_str(&mut r, row_text.as_str());
    append_str(&mut r, ", Col ");
    let col_text = fmt_usize(editor.cursor_position.0 + 1);
    append_str(&mut r, col_text.as_str());
    let range = crate::editor::clipboard::get_selection_range(editor);
    match range {
        Option::Some((s, e)) => {
            append_str(&mut r, " | Selection: ");
            let t1 = fmt_usize(s.1 + 1);
            append_str(&mut r, t1.as_str());
            append_str(&mut r, ":");
            let t2 = fmt_usize(s.0 + 1);
            append_str(&mut r, t2.as_str());
            append_str(&mut r, " to ");
            let t3 = fmt_usize(e.1 + 1);
            append_str(&mut r, t3.as_str());
            append_str(&mut r, ":");
            let t4 = fmt_usize(e.0 + 1);
            append_str(&mut r, t4.as_str());
        },
        Option::None => {},
    }
    proof {
        assert(r@ =~= spec_status_line(editor@, editor.file_path@));
    }
    r
}

/// Where the terminal's hardware cursor stands: the buffer cursor minus
/// the viewport offset, clamped to the screen's top-left corner.
pub fn cursor_screen_position(editor: &TextEditor) -> (r: (usize, usize))
    ensures
        r.0 as int == (if editor@.cursor.0 >= editor@.viewport.0 {
            editor@.cursor.0 - editor@.viewport.0
        } else {
            0
        }),
        r.1 as int == (if editor@.cursor.1 >= editor@.viewport.1 {
            editor@.cursor.1 - editor@.viewport.1
        } else {
            0
        }),
{
    let x = if editor.cursor_position.0 >= editor.viewport_offset.0 {
        editor.cursor_position.0 - editor.viewport_offset.0
    } else {
        0
    };
    let y = if editor.cursor_position.1 >= editor.viewport_offset.1 {
        editor.cursor_position.1 - editor.viewport_offset.1
    } else {
        0
    };
    (x, y)
}

/// The exit-confirmation prompt shown over the status line.
pub fn confirm_message() -> (r: &'static str)
    ensures
        r@ == "You have unsaved changes. Save before exiting? (y/n/c)"@,
{
    "You have unsaved changes. Save before exiting? (y/n/c)"
}

/// The column that centers the confirmation prompt, zero when the
/// terminal is narrower than the prompt.
pub open spec fn spec_confirm_column(width: int, msg_len: int) -> int {
    if width >= msg_len {
        (width - msg_len) / 2
    } else {
        0
    }
}

/// Centers the confirmation prompt on a terminal of the given width.
pub fn confirm_prompt_column(width: usize) -> (r: usize)
    ensures
        r as int == spec_confirm_column(
            width as int,
            "You have unsaved changes. Save before exiting? (y/n/c)"@.len() as int,
        ),
{
    let msg = str_chars(confirm_message());
    let l = msg.len();
    if width >= l {
        (width - l) / 2
    } else {
        0
    }
}

} // verus!
