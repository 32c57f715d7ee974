use vstd::prelude::*;

use crate::document::lemma_split_nonempty;
use crate::editor::clipboard::{
    spec_copy, spec_cut, spec_delete_selection, spec_normalize, spec_paste_text,
    spec_replace_selection,
};
use crate::editor::cursor::{
    spec_adjust_viewport, spec_delete_backspace, spec_delete_forward, spec_insert_char,
    spec_insert_newline, spec_move_down, spec_move_end, spec_move_home, spec_move_left,
    spec_move_page_down, spec_move_page_up, spec_move_right, spec_move_up,
};
use crate::editor::input::{spec_clear_sel, spec_dispatch, spec_dispatch_raw, spec_start_sel, KeyEvent};
use crate::editor::model::EditorModel;

verus! {

/// Every move keeps the state well-formed: in particular the cursor row
/// stays a valid line index and the cursor column stays within that
/// line's length.
pub proof fn lemma_moves_preserve_wf(m: EditorModel, width: int, height: int)
    requires
        m.wf(),
        width >= 1,
        height >= 1,
    ensures
        spec_move_up(m, width, height).wf(),
        spec_move_down(m, width, height).wf(),
        spec_move_left(m, width, height).wf(),
        spec_move_right(m, width, height).wf(),
        spec_move_home(m, width, height).wf(),
        spec_move_end(m, width, height).wf(),
        spec_move_page_up(m, width, height).wf(),
        spec_move_page_down(m, width, height).wf(),
{
}

/// Every edit applied without a live selection keeps the state
/// well-formed.
pub proof fn lemma_edits_preserve_wf(m: EditorModel, c: char, width: int, height: int)
    requires
        m.wf(),
        m.selection is None,
        width >= 1,
        height >= 1,
    ensures
        spec_insert_char(m, c, width, height).wf(),
        spec_delete_backspace(m, width, height).wf(),
        spec_delete_forward(m, width, height).wf(),
        spec_insert_newline(m, width, height).wf(),
{
}

/// Deleting, replacing or cutting the selection, and copying, keep the
/// state well-formed, and a deletion leaves no selection behind.
pub proof fn lemma_selection_ops_preserve_wf(m: EditorModel, c: char, width: int, height: int)
    requires
        m.wf(),
        width >= 1,
        height >= 1,
    ensures
        spec_copy(m).wf(),
        spec_delete_selection(m, width, height).wf(),
        spec_delete_selection(m, width, height).selection is None,
        spec_cut(m, width, height).wf(),
        spec_replace_selection(m, c, width, height).wf(),
{
    assert(spec_copy(m).wf());
    if m.selection is Some {
        let r = crate::editor::clipboard::spec_selection_range(m)->Some_0;
        let s = r.0;
        let e = r.1;
        let merged = m.lines[s.1].take(s.0) + m.lines[e.1].skip(e.0);
        if s.1 == e.1 {
            assert(spec_delete_selection(m, width, height).wf());
        } else {
            let lines = m.lines.take(s.1) + seq![merged] + m.lines.skip(e.1 + 1);
            assert(lines.len() == m.lines.len() - (e.1 - s.1));
            assert(lines[s.1] == merged);
            assert(spec_delete_selection(m, width, height).wf());
        }
        lemma_edits_preserve_wf(spec_delete_selection(m, width, height), c, width, height);
    }
}

/// Pasting keeps the state well-formed, whatever text arrives.
pub proof fn lemma_paste_preserves_wf(m: EditorModel, text: Seq<char>, width: int, height: int)
    requires
        m.wf(),
        width >= 1,
        height >= 1,
    ensures
        spec_paste_text(m, text, width, height).wf(),
{
    if text.len() > 0 {
        lemma_selection_ops_preserve_wf(m, ' ', width, height);
        let m0 = if m.selection is Some {
            spec_delete_selection(m, width, height)
        } else {
            m
        };
        let r = m0.cursor.1;
        let c = m0.cursor.0;
        let pieces = crate::document::spec_split(text, '\n');
        lemma_split_nonempty(text, '\n');
        let k = pieces.len();
        if k == 1 {
            let line = m0.lines[r].take(c) + pieces[0] + m0.lines[r].skip(c);
            assert(line.len() == m0.lines[r].len() + pieces[0].len());
            assert(spec_paste_text(m, text, width, height).wf());
        } else {
            let lines = m0.lines.take(r) + seq![m0.lines[r].take(c) + pieces[0]]
                + pieces.subrange(1, k - 1) + seq![pieces[k - 1] + m0.lines[r].skip(c)]
                + m0.lines.skip(r + 1);
            assert(lines.len() == m0.lines.len() + k - 1);
            assert(lines[r + k - 1] == pieces[k - 1] + m0.lines[r].skip(c));
            assert(spec_paste_text(m, text, width, height).wf());
        }
    }
}

proof fn lemma_raw_wf_char(
    m: EditorModel,
    key: KeyEvent,
    sys: Option<Seq<char>>,
    width: int,
    height: int,
)
    requires
        m.wf(),
        width >= 1,
        height >= 1,
        key.code is Char,
    ensures
        spec_dispatch_raw(m, key, sys, width, height).0.wf(),
{
    let ch = key.code->Char_0;
    lemma_selection_ops_preserve_wf(m, ch, width, height);
    if m.selection is None {
        lemma_edits_preserve_wf(m, ch, width, height);
    }
    match sys {
        Option::Some(t) => {
            lemma_paste_preserves_wf(m, t, width, height);
            lemma_paste_preserves_wf(m, m.clipboard, width, height);
        },
        Option::None => {
            lemma_paste_preserves_wf(m, m.clipboard, width, height);
        },
    }
}

proof fn lemma_raw_wf_nav(
    m: EditorModel,
    key: KeyEvent,
    sys: Option<Seq<char>>,
    width: int,
    height: int,
)
    requires
        m.wf(),
        width >= 1,
        height >= 1,
        key.code is Up || key.code is Down || key.code is Left || key.code is Right
            || key.code is Home || key.code is End || key.code is PageUp
            || key.code is PageDown,
    ensures
        spec_dispatch_raw(m, key, sys, width, height).0.wf(),
{
    let ms = spec_start_sel(m);
    let mc = spec_clear_sel(m);
    assert(ms.wf());
    assert(mc.wf());
    lemma_moves_preserve_wf(ms, width, height);
    lemma_moves_preserve_wf(mc, width, height);
}

proof fn lemma_raw_wf_edit(
    m: EditorModel,
    key: KeyEvent,
    sys: Option<Seq<char>>,
    width: int,
    height: int,
)
    requires
        m.wf(),
        width >= 1,
        height >= 1,
        key.code is Backspace || key.code is Delete || key.code is Enter || key.code is Esc
            || key.code is Other,
    ensures
        spec_dispatch_raw(m, key, sys, width, height).0.wf(),
{
    lemma_selection_ops_preserve_wf(m, ' ', width, height);
    if m.selection is None {
        lemma_edits_preserve_wf(m, ' ', width, height);
    } else {
        lemma_edits_preserve_wf(
            spec_delete_selection(m, width, height),
            ' ',
            width,
            height,
        );
    }
}

/// For every well-formed state and every key event, dispatching yields a
/// well-formed state: the cursor row remains a valid line index and the
/// cursor column at most that line's length, after any sequence of
/// dispatched keys.
pub proof fn lemma_dispatch_preserves_wf(
    m: EditorModel,
    key: KeyEvent,
    sys: Option<Seq<char>>,
    width: int,
    height: int,
)
    requires
        m.wf(),
        width >= 1,
        height >= 1,
    ensures
        spec_dispatch(m, key, sys, width, height).0.wf(),
{
    if key.kind is Press {
        match key.code {
            crate::editor::input::KeyCode::Char(_) => {
                lemma_raw_wf_char(m, key, sys, width, height);
            },
            crate::editor::input::KeyCode::Backspace => {
                lemma_raw_wf_edit(m, key, sys, width, height);
            },
            crate::editor::input::KeyCode::Delete => {
                lemma_raw_wf_edit(m, key, sys, width, height);
            },
            crate::editor::input::KeyCode::Enter => {
                lemma_raw_wf_edit(m, key, sys, width, height);
            },
            crate::editor::input::KeyCode::Esc => {
                lemma_raw_wf_edit(m, key, sys, width, height);
            },
            crate::editor::input::KeyCode::Other => {
                lemma_raw_wf_edit(m, key, sys, width, height);
            },
            _ => {
                lemma_raw_wf_nav(m, key, sys, width, height);
            },
        }
    }
}

/// After re-aligning, the cursor lies inside the visible rectangle: at
/// least one text row and one column must be visible.
pub proof fn lemma_viewport_contains_cursor(m: EditorModel, width: int, height: int)
    requires
        m.wf(),
        width >= 1,
        height >= 2,
    ensures
        ({
            let a = spec_adjust_viewport(m, width, height);
            &&& a.viewport.0 <= a.cursor.0 < a.viewport.0 + width
            &&& a.viewport.1 <= a.cursor.1 < a.viewport.1 + (height - 1)
        }),
{
}

/// Moving left at the very start of the document changes nothing, given
/// a viewport already at the origin.
pub proof fn lemma_move_left_origin_noop(m: EditorModel, width: int, height: int)
    requires
        m.wf(),
        m.cursor == (0int, 0int),
        m.viewport == (0int, 0int),
        width >= 1,
        height >= 2,
    ensures
        spec_move_left(m, width, height) == m,
{
    assert(spec_move_left(m, width, height) =~= m);
}

/// Moving right at the end of the last line changes nothing, given a
/// settled viewport: the cursor already visible and the vertical offset
/// within the last page.
pub proof fn lemma_move_right_end_noop(m: EditorModel, width: int, height: int)
    requires
        m.wf(),
        m.cursor.1 == m.lines.len() - 1,
        m.cursor.0 == m.lines[m.cursor.1].len(),
        m.viewport.0 <= m.cursor.0 < m.viewport.0 + width,
        m.viewport.1 <= m.cursor.1 < m.viewport.1 + (height - 1),
        m.viewport.1 <= (if m.lines.len() > height - 1 {
            m.lines.len() - (height - 1)
        } else {
            0
        }),
        width >= 1,
        height >= 2,
    ensures
        spec_move_right(m, width, height) == m,
{
    assert(spec_move_right(m, width, height) =~= m);
}

/// A vertical round trip keeps the column: moving down into a line of
/// any length and back up restores the starting position, because the
/// desired column is preserved by vertical moves.
pub proof fn lemma_vertical_move_restores_column(m: EditorModel, width: int, height: int)
    requires
        m.wf(),
        m.desired_col == m.cursor.0,
        m.cursor.1 + 1 < m.lines.len(),
        width >= 1,
        height >= 1,
    ensures
        ({
            let back = spec_move_up(spec_move_down(m, width, height), width, height);
            &&& back.cursor.0 == m.cursor.0
            &&& back.cursor.1 == m.cursor.1
            &&& back.desired_col == m.desired_col
        }),
{
}

/// Normalizing a selection does not depend on which end is the anchor:
/// selecting backward and forward over the same two points yields the
/// same range.
pub proof fn lemma_selection_normalization_symmetric(a: (int, int), b: (int, int))
    ensures
        spec_normalize(a, b) == spec_normalize(b, a),
{
}

} // verus!
