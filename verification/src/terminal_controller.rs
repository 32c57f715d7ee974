use vstd::prelude::*;

use crate::text::emit;
use crate::theme::TerminalColor;

verus! {

/// Prints color changes straight to the terminal, outside any redraw.
pub struct TerminalController;

impl TerminalController {
    pub fn new() -> TerminalController {
        TerminalController
    }

    /// Prints the sequences that select the given background and
    /// foreground colors.
    pub fn set_colors(&self, background: &TerminalColor, foreground: &TerminalColor) {
        background.apply_background();
        foreground.apply_foreground();
    }

    /// Prints the ANSI reset code, restoring the terminal defaults.
    pub fn reset_colors(&self) {
        emit("\x1b[0m");
    }
}

} // verus!
