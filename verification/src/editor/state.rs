use vstd::prelude::*;

use crate::document::{join_text, lines_view, spec_join, spec_load_lines, split_text};
use crate::editor::model::EditorModel;
use crate::theme::ThemeConfig;

verus! {

/// An editor session over one document. The buffer always holds at least
/// one line; the cursor and the optional selection anchor always point
/// into the buffer. All coordinate pairs are (column, row).
pub struct TextEditor {
    pub content: Vec<Vec<char>>,
    pub file_path: String,
    pub cursor_position: (usize, usize),
    pub viewport_offset: (usize, usize),
    pub modified: bool,
    pub theme: ThemeConfig,
    pub exit_requested: bool,
    pub needs_redraw: bool,
    pub desired_column: usize,
    pub clipboard: Vec<char>,
    pub selection_start: Option<(usize, usize)>,
}

impl View for TextEditor {
    type V = EditorModel;

    open spec fn view(&self) -> EditorModel {
        EditorModel {
            lines: lines_view(self.content@),
            cursor: (self.cursor_position.0 as int, self.cursor_position.1 as int),
            viewport: (self.viewport_offset.0 as int, self.viewport_offset.1 as int),
            desired_col: self.desired_column as int,
            modified: self.modified,
            exit_requested: self.exit_requested,
            needs_redraw: self.needs_redraw,
            clipboard: self.clipboard@,
            selection: match self.selection_start {
                Option::Some(p) => Option::Some((p.0 as int, p.1 as int)),
                Option::None => Option::None,
            },
        }
    }
}

/// Marking the buffer saved clears the modified flag and leaves the
/// exit-confirmation overlay; the frame is redrawn if either was shown.
pub open spec fn spec_mark_saved(m: EditorModel) -> EditorModel {
    EditorModel {
        modified: false,
        exit_requested: false,
        needs_redraw: m.needs_redraw || m.modified || m.exit_requested,
        ..m
    }
}

impl TextEditor {
    /// A fresh session on one empty line, unmodified, with everything at
    /// the origin and a first redraw pending.
    pub fn new(file_path: String, theme: ThemeConfig) -> (r: TextEditor)
        ensures
            r@.wf(),
            r@.lines == seq![Seq::<char>::empty()],
            r@.cursor == (0int, 0int),
            r@.viewport == (0int, 0int),
            r@.desired_col == 0,
            !r@.modified,
            !r@.exit_requested,
            r@.needs_redraw,
            r@.clipboard == Seq::<char>::empty(),
            r@.selection is None,
            r.file_path == file_path,
            r.theme == theme,
    {
        let mut content: Vec<Vec<char>> = Vec::new();
        content.push(Vec::new());
        let r = TextEditor {
            content,
            file_path,
            cursor_position: (0, 0),
            viewport_offset: (0, 0),
            modified: false,
            theme,
            exit_requested: false,
            needs_redraw: true,
            desired_column: 0,
            clipboard: Vec::new(),
            selection_start: Option::None,
        };
        proof {
            assert(r@.lines =~= seq![Seq::<char>::empty()]);
        }
        r
    }

    /// Replaces the buffer with `text` split into lines, and starts over:
    /// cursor and viewport at the origin, nothing modified, no selection.
    pub fn load_text(&mut self, text: &str)
        ensures
            final(self)@.wf(),
            final(self)@.lines == spec_load_lines(text@),
            final(self)@.cursor == (0int, 0int),
            final(self)@.viewport == (0int, 0int),
            final(self)@.desired_col == 0,
            !final(self)@.modified,
            final(self)@.selection is None,
            final(self)@.clipboard == old(self)@.clipboard,
            final(self)@.exit_requested == old(self)@.exit_requested,
            final(self)@.needs_redraw == old(self)@.needs_redraw,
            final(self).file_path == old(self).file_path,
            final(self).theme == old(self).theme,
    {
        self.content = split_text(text);
        self.cursor_position = (0, 0);
        self.viewport_offset = (0, 0);
        self.desired_column = 0;
        self.modified = false;
        self.selection_start = Option::None;
    }

    /// The text the buffer stands for: its lines joined with newlines.
    pub fn save_text(&self) -> (r: String)
        ensures
            r@ == spec_join(self@.lines, '\n'),
    {
        join_text(&self.content)
    }

    /// Records that the buffer was successfully written out.
    pub fn mark_saved(&mut self)
        ensures
            final(self)@ == spec_mark_saved(old(self)@),
            final(self).file_path == old(self).file_path,
            final(self).theme == old(self).theme,
    {
        let was_shown = self.modified || self.exit_requested;
        self.modified = false;
        self.exit_requested = false;
        if was_shown {
            self.needs_redraw = true;
        }
        proof {
            assert(self@ =~= spec_mark_saved(old(self)@));
        }
    }

    /// Drops the selection anchor; nothing else changes.
    pub fn clear_selection(&mut self)
        ensures
            final(self)@ == (EditorModel { selection: Option::None, ..old(self)@ }),
            final(self).file_path == old(self).file_path,
            final(self).theme == old(self).theme,
    {
        self.selection_start = Option::None;
        proof {
            assert(self@ =~= EditorModel { selection: Option::None, ..old(self)@ });
        }
    }

    /// Whether a selection is active.
    pub fn has_selection(&self) -> (r: bool)
        ensures
            r == (self@.selection is Some),
    {
        self.selection_start.is_some()
    }
}

} // verus!
