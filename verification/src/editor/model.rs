use vstd::prelude::*;

verus! {

/// The mathematical state of an editor session. Positions are pairs in
/// buffer coordinates, written (column, row): the row indexes into
/// `lines`, the column counts characters within that line and may equal
/// the line's length, meaning "after the last character".
#[verifier::ext_equal]
pub ghost struct EditorModel {
    /// The document: an ordered sequence of lines, never empty.
    pub lines: Seq<Seq<char>>,
    /// Where the cursor stands.
    pub cursor: (int, int),
    /// The (horizontal, vertical) scroll offset of the viewport.
    pub viewport: (int, int),
    /// The column a vertical move tries to return to.
    pub desired_col: int,
    /// Whether the buffer has unsaved changes.
    pub modified: bool,
    /// Whether the exit-confirmation overlay is active.
    pub exit_requested: bool,
    /// Whether the next frame must be redrawn.
    pub needs_redraw: bool,
    /// The editor's own clipboard.
    pub clipboard: Seq<char>,
    /// The anchor of the selection, if one is active.
    pub selection: Option<(int, int)>,
}

impl EditorModel {
    /// The structural invariant: at least one line, the cursor on a valid
    /// line at a column no greater than that line's length, non-negative
    /// coordinates, and an in-bounds anchor when a selection is active.
    pub open spec fn wf(self) -> bool {
        &&& self.lines.len() >= 1
        &&& 0 <= self.cursor.1 < self.lines.len()
        &&& 0 <= self.cursor.0 <= self.lines[self.cursor.1].len()
        &&& 0 <= self.desired_col
        &&& 0 <= self.viewport.0
        &&& 0 <= self.viewport.1
        &&& match self.selection {
            Option::Some(a) => {
                &&& 0 <= a.1 < self.lines.len()
                &&& 0 <= a.0 <= self.lines[a.1].len()
            },
            Option::None => true,
        }
    }

    /// Whether two states draw the same frame: the same lines, cursor,
    /// viewport, selection, and status flags. The desired column and the
    /// clipboard are invisible; `needs_redraw` itself is bookkeeping.
    pub open spec fn same_visible(self, other: EditorModel) -> bool {
        &&& self.lines == other.lines
        &&& self.cursor == other.cursor
        &&& self.viewport == other.viewport
        &&& self.modified == other.modified
        &&& self.exit_requested == other.exit_requested
        &&& self.selection == other.selection
    }
}

} // verus!
