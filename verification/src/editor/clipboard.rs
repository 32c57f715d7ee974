use vstd::prelude::*;

use crate::document::{lines_view, spec_split, split_text_keep};
use crate::editor::cursor::spec_adjust_viewport;
use crate::editor::model::EditorModel;
use crate::editor::state::TextEditor;
use crate::text::{chars_to_string, copy_range, str_chars};

verus! {

/// Declares arboard's clipboard handle, so that values of it can be
/// carried through verified code. Nothing is assumed of its inside.
#[verifier::external_type_specification]
#[verifier::external_body]
pub struct ExClipboard(arboard::Clipboard);

/// Relies on arboard::Clipboard::new: yields a handle to the system
/// clipboard, or nothing where the platform offers none.
#[verifier::external_body]
fn system_clipboard() -> Option<arboard::Clipboard> {
    arboard::Clipboard::new().ok()
}

/// Relies on arboard::Clipboard::set_text: best-effort placement of text
/// on the system clipboard; reports whether it was stored.
#[verifier::external_body]
fn system_clipboard_set(cb: &mut arboard::Clipboard, text: String) -> bool {
    cb.set_text(text).is_ok()
}

/// Relies on arboard::Clipboard::get_text: the system clipboard's text,
/// or nothing when the clipboard is empty or does not hold text. What
/// comes back depends on the machine, so nothing is stated of the value.
#[verifier::external_body]
fn system_clipboard_get(cb: &mut arboard::Clipboard) -> Option<String> {
    cb.get_text().ok()
}

/// Orders two positions by row, then column: the result is the pair
/// (first, second) in document order.
pub open spec fn spec_normalize(a: (int, int), b: (int, int)) -> ((int, int), (int, int)) {
    if a.1 < b.1 || (a.1 == b.1 && a.0 <= b.0) {
        (a, b)
    } else {
        (b, a)
    }
}

/// The normalized selection range: anchor and cursor in document order,
/// or nothing when no selection is active.
pub open spec fn spec_selection_range(m: EditorModel) -> Option<((int, int), (int, int))> {
    match m.selection {
        Option::Some(a) => Option::Some(spec_normalize(a, m.cursor)),
        Option::None => Option::None,
    }
}

/// The text of the full rows in [from, to), each followed by a newline.
pub open spec fn spec_middle_rows(lines: Seq<Seq<char>>, from: int, to: int) -> Seq<char>
    decreases to - from,
{
    if from >= to {
        Seq::<char>::empty()
    } else {
        lines[from] + seq!['\n'] + spec_middle_rows(lines, from + 1, to)
    }
}

/// The text between `start` and `end` (half-open, in document order):
/// within one row a slice of it; across rows, the first row's tail, the
/// full rows between, and the last row's head, joined with newlines.
pub open spec fn spec_selection_text(
    lines: Seq<Seq<char>>,
    start: (int, int),
    end: (int, int),
) -> Seq<char> {
    if start.1 == end.1 {
        lines[start.1].subrange(start.0, end.0)
    } else {
        lines[start.1].skip(start.0) + seq!['\n'] + spec_middle_rows(lines, start.1 + 1, end.1)
            + lines[end.1].take(end.0)
    }
}

/// Copying stores the selected text in the editor's clipboard; with no
/// selection nothing happens. The buffer and the selection stay.
pub open spec fn spec_copy(m: EditorModel) -> EditorModel {
    match spec_selection_range(m) {
        Option::Some(r) => EditorModel {
            clipboard: spec_selection_text(m.lines, r.0, r.1),
            ..m
        },
        Option::None => m,
    }
}

proof fn lemma_middle_rows_snoc(lines: Seq<Seq<char>>, from: int, to: int)
    requires
        from <= to,
    ensures
        spec_middle_rows(lines, from, to + 1) == spec_middle_rows(lines, from, to) + lines[to]
            + seq!['\n'],
    decreases to - from,
{
    if from < to {
        lemma_middle_rows_snoc(lines, from + 1, to);
        assert(spec_middle_rows(lines, from, to + 1) =~= spec_middle_rows(lines, from, to)
            + lines[to] + seq!['\n']);
    } else {
        reveal_with_fuel(spec_middle_rows, 3);
        assert(spec_middle_rows(lines, from, to + 1) =~= spec_middle_rows(lines, from, to)
            + lines[to] + seq!['\n']);
    }
}

/// The selection range in document order, or nothing when no selection
/// is active. Selecting backward or forward over the same two points
/// yields the same range.
pub fn get_selection_range(editor: &TextEditor) -> (r: Option<((usize, usize), (usize, usize))>)
    ensures
        match r {
            Option::Some(p) => spec_selection_range(editor@) == Option::Some(
                (((p.0).0 as int, (p.0).1 as int), ((p.1).0 as int, (p.1).1 as int)),
            ),
            Option::None => spec_selection_range(editor@) is None,
        },
{
    match editor.selection_start {
        Option::Some(anchor) => {
            let cursor = editor.cursor_position;
            if anchor.1 < cursor.1 || (anchor.1 == cursor.1 && anchor.0 <= cursor.0) {
                Option::Some((anchor, cursor))
            } else {
                Option::Some((cursor, anchor))
            }
        },
        Option::None => Option::None,
    }
}

/// Anchors a selection at the cursor if none is active; an active
/// selection is kept, so repeated shifted moves extend it.
pub fn start_or_extend_selection(editor: &mut TextEditor)
    ensures
        final(editor)@ == (EditorModel {
            selection: match old(editor)@.selection {
                Option::Some(a) => Option::Some(a),
                Option::None => Option::Some(old(editor)@.cursor),
            },
            ..old(editor)@
        }),
        final(editor).file_path == old(editor).file_path,
        final(editor).theme == old(editor).theme,
{
    if editor.selection_start.is_none() {
        editor.selection_start = Option::Some(editor.cursor_position);
    }
    proof {
        assert(editor@ =~= EditorModel {
            selection: match old(editor)@.selection {
                Option::Some(a) => Option::Some(a),
                Option::None => Option::Some(old(editor)@.cursor),
            },
            ..old(editor)@
        });
    }
}

/// Copies the selected text into the editor's clipboard and best-effort
/// mirrors it to the system clipboard; without a selection this does
/// nothing. Only the clipboard changes, so no redraw is ever needed.
pub fn copy_selection(editor: &mut TextEditor)
    requires
        old(editor)@.wf(),
    ensures
        final(editor)@ == spec_copy(old(editor)@),
        final(editor)@.wf(),
        old(editor)@.same_visible(final(editor)@),
        final(editor).file_path == old(editor).file_path,
        final(editor).theme == old(editor).theme,
{
    let range = get_selection_range(editor);
    match range {
        Option::Some((s, e)) => {
            let ghost gs = ((s.0 as int, s.1 as int), (e.0 as int, e.1 as int));
            let mut text: Vec<char> = Vec::new();
            if s.1 == e.1 {
                let mut piece = copy_range(&editor.content[s.1], s.0, e.0);
                text.append(&mut piece);
                assert(text@ =~= spec_selection_text(editor@.lines, gs.0, gs.1));
            } else {
                let first_len = editor.content[s.1].len();
                let mut first = copy_range(&editor.content[s.1], s.0, first_len);
                text.append(&mut first);
                text.push('\n');
                assert(text@ =~= editor@.lines[s.1 as int].skip(s.0 as int) + seq!['\n']
                    + spec_middle_rows(editor@.lines, s.1 as int + 1, s.1 as int + 1));
                let mut row = s.1 + 1;
                while row < e.1
                    invariant
                        s.1 < row <= e.1,
                        e.1 < editor@.lines.len(),
                        editor@ == old(editor)@,
                        editor@.wf(),
                        text@ == editor@.lines[s.1 as int].skip(s.0 as int) + seq!['\n']
                            + spec_middle_rows(editor@.lines, s.1 as int + 1, row as int),
                    decreases e.1 - row,
                {
                    let row_len = editor.content[row].len();
                    let mut piece = copy_range(&editor.content[row], 0, row_len);
                    text.append(&mut piece);
                    text.push('\n');
                    proof {
                        lemma_middle_rows_snoc(editor@.lines, s.1 as int + 1, row as int);
                        assert(editor@.lines[row as int].subrange(
                            0,
                            editor@.lines[row as int].len() as int,
                        ) =~= editor@.lines[row as int]);
                        assert(text@ =~= editor@.lines[s.1 as int].skip(s.0 as int) + seq!['\n']
                            + spec_middle_rows(editor@.lines, s.1 as int + 1, row as int + 1));
                    }
                    row = row + 1;
                }
                let mut last = copy_range(&editor.content[e.1], 0, e.0);
                text.append(&mut last);
                assert(text@ =~= spec_selection_text(editor@.lines, gs.0, gs.1));
            }
            editor.clipboard = text;
            let mirror = chars_to_string(&editor.clipboard);
            match system_clipboard() {
                Option::Some(mut cb) => {
                    let _ = system_clipboard_set(&mut cb, mirror);
                },
                Option::None => {},
            }
            proof {
                assert(editor@ =~= spec_copy(old(editor)@));
            }
        },
        Option::None => {
            proof {
                assert(editor@ =~= spec_copy(old(editor)@));
            }
        },
    }
}

/// Deleting the selection removes the text of the normalized range,
/// merging its first and last rows; the cursor lands at the range start
/// and the selection clears. With no selection nothing happens.
pub open spec fn spec_delete_selection(m: EditorModel, width: int, height: int) -> EditorModel {
    match spec_selection_range(m) {
        Option::None => m,
        Option::Some(r) => {
            let s = r.0;
            let e = r.1;
            let merged = m.lines[s.1].take(s.0) + m.lines[e.1].skip(e.0);
            let lines = if s.1 == e.1 {
                m.lines.update(s.1, merged)
            } else {
                m.lines.take(s.1) + seq![merged] + m.lines.skip(e.1 + 1)
            };
            spec_adjust_viewport(
                EditorModel {
                    lines: lines,
                    cursor: s,
                    modified: true,
                    selection: Option::None,
                    ..m
                },
                width,
                height,
            )
        },
    }
}

/// Removes the selected text: the first affected row keeps its head, the
/// last keeps its tail, and the rows between disappear. The cursor lands
/// at the selection start. Reports whether anything visible changed.
pub fn delete_selection(editor: &mut TextEditor, width: usize, height: usize) -> (changed: bool)
    requires
        old(editor)@.wf(),
        1 <= width,
        1 <= height,
    ensures
        final(editor)@ == spec_delete_selection(old(editor)@, width as int, height as int),
        final(editor)@.wf(),
        final(editor)@.selection is None,
        changed == !old(editor)@.same_visible(final(editor)@),
        final(editor).file_path == old(editor).file_path,
        final(editor).theme == old(editor).theme,
{
    let range = get_selection_range(editor);
    match range {
        Option::None => false,
        Option::Some((s, e)) => {
            if s.1 == e.1 {
                let line_len = editor.content[s.1].len();
                let mut tail = copy_range(&editor.content[s.1], e.0, line_len);
                let line = &mut editor.content[s.1];
                line.truncate(s.0);
                let line = &mut editor.content[s.1];
                line.append(&mut tail);
                proof {
                    let m = old(editor)@;
                    let gs = (s.0 as int, s.1 as int);
                    let ge = (e.0 as int, e.1 as int);
                    assert(editor@.lines =~= m.lines.update(
                        gs.1,
                        m.lines[gs.1].take(gs.0) + m.lines[ge.1].skip(ge.0),
                    ));
                }
            } else {
                let last_len = editor.content[e.1].len();
                let mut tail = copy_range(&editor.content[e.1], e.0, last_len);
                let line = &mut editor.content[s.1];
                line.truncate(s.0);
                let line = &mut editor.content[s.1];
                line.append(&mut tail);
                let ghost orig = editor@.lines;
                proof {
                    let m = old(editor)@;
                    let gs = (s.0 as int, s.1 as int);
                    let ge = (e.0 as int, e.1 as int);
                    assert(orig =~= m.lines.update(
                        gs.1,
                        m.lines[gs.1].take(gs.0) + m.lines[ge.1].skip(ge.0),
                    ));
                }
                let count = e.1 - s.1;
                let mut k: usize = 0;
                assert(editor@.lines =~= orig.take(s.1 + 1) + orig.skip(s.1 + 1));
                while k < count
                    invariant
                        k <= count,
                        count == e.1 - s.1,
                        s.1 < e.1 < orig.len(),
                        editor@.lines == orig.take(s.1 as int + 1) + orig.skip(s.1 + 1 + k),
                        editor@.cursor == old(editor)@.cursor,
                        editor@.viewport == old(editor)@.viewport,
                        editor@.desired_col == old(editor)@.desired_col,
                        editor@.modified == old(editor)@.modified,
                        editor@.exit_requested == old(editor)@.exit_requested,
                        editor@.needs_redraw == old(editor)@.needs_redraw,
                        editor@.clipboard == old(editor)@.clipboard,
                        editor@.selection == old(editor)@.selection,
                        editor.file_path == old(editor).file_path,
                        editor.theme == old(editor).theme,
                    decreases count - k,
                {
                    let cl = editor.content.len();
                    proof {
                        assert(editor@.lines.len() == editor.content@.len());
                        assert(orig.take(s.1 as int + 1).len() == s.1 + 1);
                        assert(orig.skip(s.1 + 1 + k).len() == orig.len() - (s.1 + 1 + k));
                    }
                    assert(cl == orig.len() - k);
                    let ghost prev = editor.content@;
                    let _ = editor.content.remove(s.1 + 1);
                    proof {
                        crate::document::lemma_lines_view_remove(prev, s.1 as int + 1);
                    }
                    assert(editor@.lines =~= orig.take(s.1 as int + 1) + orig.skip(
                        s.1 + 1 + (k + 1),
                    ));
                    k = k + 1;
                }
                proof {
                    let m = old(editor)@;
                    let gs = (s.0 as int, s.1 as int);
                    let ge = (e.0 as int, e.1 as int);
                    let merged = m.lines[gs.1].take(gs.0) + m.lines[ge.1].skip(ge.0);
                    assert(editor@.lines =~= m.lines.take(gs.1) + seq![merged] + m.lines.skip(
                        ge.1 + 1,
                    ));
                }
            }
            editor.cursor_position = (s.0, s.1);
            editor.modified = true;
            editor.selection_start = Option::None;
            crate::editor::cursor::adjust_viewport_to_cursor_smooth(editor, width, height);
            proof {
                assert(editor@ =~= spec_delete_selection(
                    old(editor)@,
                    width as int,
                    height as int,
                ));
            }
            true
        },
    }
}

/// Cutting copies the selection and then deletes it; with no selection
/// nothing happens.
pub open spec fn spec_cut(m: EditorModel, width: int, height: int) -> EditorModel {
    if m.selection is Some {
        spec_delete_selection(spec_copy(m), width, height)
    } else {
        m
    }
}

/// Copies the selection to the clipboard, then removes it.
pub fn cut_selection(editor: &mut TextEditor, width: usize, height: usize) -> (changed: bool)
    requires
        old(editor)@.wf(),
        1 <= width,
        1 <= height,
    ensures
        final(editor)@ == spec_cut(old(editor)@, width as int, height as int),
        final(editor)@.wf(),
        changed == !old(editor)@.same_visible(final(editor)@),
        final(editor).file_path == old(editor).file_path,
        final(editor).theme == old(editor).theme,
{
    if editor.has_selection() {
        copy_selection(editor);
        let changed = delete_selection(editor, width, height);
        changed
    } else {
        false
    }
}

/// Typing over a selection deletes it and inserts the character at the
/// selection start; with no selection nothing happens.
pub open spec fn spec_replace_selection(
    m: EditorModel,
    c: char,
    width: int,
    height: int,
) -> EditorModel {
    if m.selection is Some {
        crate::editor::cursor::spec_insert_char(
            spec_delete_selection(m, width, height),
            c,
            width,
            height,
        )
    } else {
        m
    }
}

/// Replaces the selection with one typed character.
pub fn replace_selection_with_char(
    editor: &mut TextEditor,
    c: char,
    width: usize,
    height: usize,
) -> (changed: bool)
    requires
        old(editor)@.wf(),
        1 <= width,
        1 <= height,
    ensures
        final(editor)@ == spec_replace_selection(old(editor)@, c, width as int, height as int),
        final(editor)@.wf(),
        changed == !old(editor)@.same_visible(final(editor)@),
        final(editor).file_path == old(editor).file_path,
        final(editor).theme == old(editor).theme,
{
    if editor.has_selection() {
        let _ = delete_selection(editor, width, height);
        let _ = crate::editor::cursor::insert_char(editor, c, width, height);
        proof {
            assert(editor@.selection is None);
            assert(!old(editor)@.same_visible(editor@));
        }
        true
    } else {
        false
    }
}

/// Pasting text: an active selection is deleted first and the cursor
/// repositioned to its start. Single-line text is inserted in place;
/// multi-line text splits the current line at the cursor, the first piece
/// ending the line's head, the last beginning its tail, the pieces
/// between standing as their own lines. The cursor ends after the pasted
/// text and the selection clears. Empty text does nothing.
pub open spec fn spec_paste_text(
    m: EditorModel,
    text: Seq<char>,
    width: int,
    height: int,
) -> EditorModel {
    if text.len() == 0 {
        m
    } else {
        let m0 = if m.selection is Some {
            spec_delete_selection(m, width, height)
        } else {
            m
        };
        let r = m0.cursor.1;
        let c = m0.cursor.0;
        let pieces = spec_split(text, '\n');
        let k = pieces.len();
        if k == 1 {
            let line = m0.lines[r].take(c) + pieces[0] + m0.lines[r].skip(c);
            spec_adjust_viewport(
                EditorModel {
                    lines: m0.lines.update(r, line),
                    cursor: (c + pieces[0].len() as int, r),
                    modified: true,
                    selection: Option::None,
                    ..m0
                },
                width,
                height,
            )
        } else {
            let lines = m0.lines.take(r) + seq![m0.lines[r].take(c) + pieces[0]]
                + pieces.subrange(1, k - 1) + seq![pieces[k - 1] + m0.lines[r].skip(c)]
                + m0.lines.skip(r + 1);
            spec_adjust_viewport(
                EditorModel {
                    lines: lines,
                    cursor: (pieces[k - 1].len() as int, r + k - 1),
                    modified: true,
                    selection: Option::None,
                    ..m0
                },
                width,
                height,
            )
        }
    }
}

/// Inserts `text` at the cursor, deleting an active selection first.
#[verifier::rlimit(60)]
pub fn paste_text(editor: &mut TextEditor, text: &Vec<char>, width: usize, height: usize) -> (changed: bool)
    requires
        old(editor)@.wf(),
        1 <= width,
        1 <= height,
    ensures
        final(editor)@ == spec_paste_text(old(editor)@, text@, width as int, height as int),
        final(editor)@.wf(),
        changed == !old(editor)@.same_visible(final(editor)@),
        final(editor).file_path == old(editor).file_path,
        final(editor).theme == old(editor).theme,
{
    if text.len() == 0 {
        return false;
    }
    if editor.has_selection() {
        let _ = delete_selection(editor, width, height);
    }
    let ghost m0 = editor@;
    let pieces = split_text_keep(text, '\n');
    let ghost pieces_v = lines_view(pieces@);
    let r = editor.cursor_position.1;
    let c = editor.cursor_position.0;
    let k = pieces.len();
    let line_len = editor.content[r].len();
    let ghost m0c = editor.content@;
    let mut suffix = copy_range(&editor.content[r], c, line_len);
    let line = &mut editor.content[r];
    line.truncate(c);
    let mut p0 = copy_range(&pieces[0], 0, pieces[0].len());
    let line = &mut editor.content[r];
    line.append(&mut p0);
    let ghost l0 = m0.lines.update(r as int, m0.lines[r as int].take(c as int) + pieces_v[0]);
    proof {
        assert(editor.content@ =~= m0c.update(r as int, editor.content@[r as int]));
        crate::document::lemma_lines_view_update(m0c, r as int, editor.content@[r as int]);
        assert(pieces@[0]@.subrange(0, pieces@[0]@.len() as int) =~= pieces_v[0]);
        assert(editor.content@[r as int]@ =~= m0.lines[r as int].take(c as int) + pieces_v[0]);
        assert(editor@.lines =~= l0);
    }
    if k == 1 {
        let line = &mut editor.content[r];
        line.append(&mut suffix);
        let nl = editor.content[r].len();
        let p0_len = pieces[0].len();
        assert(c + p0_len <= nl);
        editor.cursor_position = (c + p0_len, r);
        editor.modified = true;
        editor.selection_start = Option::None;
        crate::editor::cursor::adjust_viewport_to_cursor_smooth(editor, width, height);
        proof {
            assert(editor@ =~= spec_paste_text(
                old(editor)@,
                text@,
                width as int,
                height as int,
            ));
            if old(editor)@.selection is Some {
                assert(!old(editor)@.same_visible(editor@));
            } else {
                crate::document::lemma_join_split(text@, '\n');
                assert(crate::document::spec_join(pieces_v, '\n') == pieces_v[0]);
                assert(pieces_v[0].len() >= 1);
                assert(editor@.cursor != old(editor)@.cursor);
            }
        }
        true
    } else {
        let mut i: usize = 1;
        assert(editor@.lines =~= l0.take(r as int + 1) + pieces_v.subrange(1, 1) + l0.skip(
            r as int + 1,
        ));
        while i < k - 1
            invariant
                1 <= i <= k - 1,
                k == pieces_v.len(),
                k >= 2,
                pieces_v == lines_view(pieces@),
                r < l0.len(),
                l0.len() == m0.lines.len(),
                editor@.lines == l0.take(r as int + 1) + pieces_v.subrange(1, i as int)
                    + l0.skip(r as int + 1),
                editor@.cursor == m0.cursor,
                editor@.viewport == m0.viewport,
                editor@.desired_col == m0.desired_col,
                editor@.modified == m0.modified,
                editor@.exit_requested == m0.exit_requested,
                editor@.needs_redraw == m0.needs_redraw,
                editor@.clipboard == m0.clipboard,
                editor@.selection == m0.selection,
                editor.file_path == old(editor).file_path,
                editor.theme == old(editor).theme,
            decreases k - i,
        {
            let cl = editor.content.len();
            proof {
                assert(editor@.lines.len() == editor.content@.len());
                assert(l0.take(r as int + 1).len() == r + 1);
                assert(l0.skip(r as int + 1).len() == l0.len() - (r + 1));
                assert(pieces_v.subrange(1, i as int).len() == i - 1);
            }
            assert(cl == l0.len() + i - 1);
            let piece = copy_range(&pieces[i], 0, pieces[i].len());
            let ghost prev = editor.content@;
            editor.content.insert(r + i, piece);
            proof {
                crate::document::lemma_lines_view_insert(
                    prev,
                    r as int + i as int,
                    editor.content@[r as int + i as int],
                );
                assert(editor.content@[r as int + i as int]@ =~= pieces_v[i as int]);
                assert(editor@.lines =~= l0.take(r as int + 1) + pieces_v.subrange(
                    1,
                    i as int + 1,
                ) + l0.skip(r as int + 1));
            }
            i = i + 1;
        }
        let cl = editor.content.len();
        proof {
            assert(editor@.lines.len() == editor.content@.len());
            assert(l0.take(r as int + 1).len() == r + 1);
            assert(l0.skip(r as int + 1).len() == l0.len() - (r + 1));
            assert(pieces_v.subrange(1, k as int - 1).len() == k - 2);
        }
        assert(cl == l0.len() + k - 2);
        let mut lastv = copy_range(&pieces[k - 1], 0, pieces[k - 1].len());
        lastv.append(&mut suffix);
        let ghost prev = editor.content@;
        let pos = r + (k - 1);
        editor.content.insert(pos, lastv);
        proof {
            crate::document::lemma_lines_view_insert(
                prev,
                r as int + k as int - 1,
                editor.content@[r as int + k as int - 1],
            );
            assert(editor.content@[r as int + k as int - 1]@ =~= pieces_v[k as int - 1]
                + m0.lines[r as int].skip(c as int));
            assert(l0.take(r as int + 1) =~= m0.lines.take(r as int) + seq![
                m0.lines[r as int].take(c as int) + pieces_v[0],
            ]);
            assert(l0.skip(r as int + 1) =~= m0.lines.skip(r as int + 1));
            let target = m0.lines.take(r as int) + seq![
                m0.lines[r as int].take(c as int) + pieces_v[0],
            ] + pieces_v.subrange(1, k as int - 1) + seq![
                pieces_v[k as int - 1] + m0.lines[r as int].skip(c as int),
            ] + m0.lines.skip(r as int + 1);
            assert(editor@.lines =~= lines_view(prev).insert(
                r as int + k as int - 1,
                editor.content@[r as int + k as int - 1]@,
            ));
            assert(editor@.lines =~= target);
        }
        let last_piece_len = pieces[k - 1].len();
        editor.cursor_position = (last_piece_len, pos);
        editor.modified = true;
        editor.selection_start = Option::None;
        crate::editor::cursor::adjust_viewport_to_cursor_smooth(editor, width, height);
        proof {
            assert(editor@ =~= spec_paste_text(
                old(editor)@,
                text@,
                width as int,
                height as int,
            ));
            if old(editor)@.selection is Some {
                assert(!old(editor)@.same_visible(editor@));
            } else {
                assert(editor@.cursor != old(editor)@.cursor);
            }
        }
        true
    }
}

/// Pasting from the clipboard: the system clipboard's text is preferred;
/// where it is unavailable or empty, the editor's own clipboard is used.
pub open spec fn spec_paste_clipboard(
    m: EditorModel,
    sys: Option<Seq<char>>,
    width: int,
    height: int,
) -> EditorModel {
    match sys {
        Option::Some(t) => if t.len() > 0 {
            spec_paste_text(m, t, width, height)
        } else {
            spec_paste_text(m, m.clipboard, width, height)
        },
        Option::None => spec_paste_text(m, m.clipboard, width, height),
    }
}

/// Pastes the clipboard at the cursor, preferring the system clipboard
/// and falling back to the editor's own. What the system clipboard held
/// cannot be pinned down, so the contract says only that the result is a
/// paste of some such observed text.
pub fn paste_from_clipboard(editor: &mut TextEditor, width: usize, height: usize) -> (changed: bool)
    requires
        old(editor)@.wf(),
        1 <= width,
        1 <= height,
    ensures
        exists|sys: Option<Seq<char>>|
            final(editor)@ == spec_paste_clipboard(
                old(editor)@,
                sys,
                width as int,
                height as int,
            ),
        final(editor)@.wf(),
        changed == !old(editor)@.same_visible(final(editor)@),
        final(editor).file_path == old(editor).file_path,
        final(editor).theme == old(editor).theme,
{
    let sys: Option<String> = match system_clipboard() {
        Option::Some(mut cb) => system_clipboard_get(&mut cb),
        Option::None => Option::None,
    };
    let ghost gsys: Option<Seq<char>> = match sys {
        Option::Some(ref s) => Option::Some(s@),
        Option::None => Option::None,
    };
    let text: Vec<char> = match sys {
        Option::Some(s) => {
            let v = str_chars(s.as_str());
            if v.len() == 0 {
                copy_range(&editor.clipboard, 0, editor.clipboard.len())
            } else {
                v
            }
        },
        Option::None => copy_range(&editor.clipboard, 0, editor.clipboard.len()),
    };
    let changed = paste_text(editor, &text, width, height);
    proof {
        assert(old(editor)@.clipboard.subrange(0, old(editor)@.clipboard.len() as int)
            =~= old(editor)@.clipboard);
        assert(editor@ == spec_paste_clipboard(
            old(editor)@,
            gsys,
            width as int,
            height as int,
        ));
    }
    changed
}

} // verus!
