use vstd::prelude::*;

use crate::text::{append_str, emit, fmt_usize, push_char, spec_dec};
use crate::theme::{spec_bg_code, spec_fg_code, TerminalColor, ThemeConfig};

verus! {

/// Theme-aware text styling helpers. Every styled string keeps the theme's
/// background code in front, so printing it does not drop the background.
pub struct AnsiTheme;

/// `text` styled with an explicit foreground code over the theme background.
pub open spec fn spec_styled(text: Seq<char>, code: Seq<char>, theme: ThemeConfig) -> Seq<char> {
    spec_bg_code(theme.background_color) + code + text
}

/// `text` over the theme background with a true-color foreground.
pub open spec fn spec_rgb(text: Seq<char>, r: u8, g: u8, b: u8, theme: ThemeConfig) -> Seq<char> {
    spec_bg_code(theme.background_color) + "\x1b[38;2;"@ + spec_dec(r as int) + ";"@ + spec_dec(
        g as int,
    ) + ";"@ + spec_dec(b as int) + "m"@ + text
}

/// `text` in the theme's own background and foreground.
pub open spec fn spec_themed(text: Seq<char>, theme: ThemeConfig) -> Seq<char> {
    spec_bg_code(theme.background_color) + spec_fg_code(theme.foreground_color) + text
}

/// `text` in the theme's logo color over the theme background. A named
/// logo color uses its foreground code; an RGB logo color uses a
/// true-color foreground.
pub open spec fn spec_logo(text: Seq<char>, theme: ThemeConfig) -> Seq<char> {
    match theme.logo_color {
        TerminalColor::Rgb(r, g, b) => spec_rgb(text, r, g, b, theme),
        c => spec_bg_code(theme.background_color) + spec_fg_code(c) + text,
    }
}

impl AnsiTheme {
    /// Prints the theme's background and foreground codes, so that later
    /// plain output keeps the theme colors.
    pub fn apply_theme(theme: &ThemeConfig) {
        let mut s = String::new();
        append_str(&mut s, theme.background_color.to_ansi_bg_code());
        append_str(&mut s, theme.foreground_color.to_ansi_fg_code());
        emit(s.as_str());
    }

    /// Prints the ANSI reset code, restoring the terminal defaults.
    pub fn reset() {
        emit("\x1b[0m");
    }

    /// Styles `text` with the given foreground code over the theme background.
    pub fn styled_text(text: &str, ansi_code: &str, theme: &ThemeConfig) -> (r: String)
        ensures
            r@ == spec_styled(text@, ansi_code@, *theme),
    {
        let mut r = String::new();
        append_str(&mut r, theme.background_color.to_ansi_bg_code());
        append_str(&mut r, ansi_code);
        append_str(&mut r, text);
        r
    }

    /// Prints `text` styled with the given foreground code.
    pub fn print_styled(text: &str, ansi_code: &str, theme: &ThemeConfig) {
        let s = Self::styled_text(text, ansi_code, theme);
        emit(s.as_str());
    }

    /// Prints `text` styled with the given foreground code, then a newline.
    pub fn println_styled(text: &str, ansi_code: &str, theme: &ThemeConfig) {
        let mut s = Self::styled_text(text, ansi_code, theme);
        push_char(&mut s, '\n');
        emit(s.as_str());
    }

    /// Styles `text` with the theme's logo color.
    pub fn themed_logo(text: &str, theme: &ThemeConfig) -> (r: String)
        ensures
            r@ == spec_logo(text@, *theme),
    {
        match &theme.logo_color {
            TerminalColor::Rgb(r, g, b) => {
                let (cr, cg, cb) = (*r, *g, *b);
                Self::rgb_text(text, cr, cg, cb, theme)
            },
            c => {
                let mut r = String::new();
                append_str(&mut r, theme.background_color.to_ansi_bg_code());
                append_str(&mut r, c.to_ansi_fg_code());
                append_str(&mut r, text);
                r
            },
        }
    }

    /// Prints `text` in the theme's logo color.
    pub fn print_logo(text: &str, theme: &ThemeConfig) {
        let s = Self::themed_logo(text, theme);
        emit(s.as_str());
    }

    /// Styles `text` with a true-color foreground over the theme background.
    pub fn rgb_text(text: &str, r: u8, g: u8, b: u8, theme: &ThemeConfig) -> (res: String)
        ensures
            res@ == spec_rgb(text@, r, g, b, *theme),
    {
        let mut s = String::new();
        append_str(&mut s, theme.background_color.to_ansi_bg_code());
        append_str(&mut s, "\x1b[38;2;");
        let rs = fmt_usize(r as usize);
        append_str(&mut s, rs.as_str());
        append_str(&mut s, ";");
        let gs = fmt_usize(g as usize);
        append_str(&mut s, gs.as_str());
        append_str(&mut s, ";");
        let bs = fmt_usize(b as usize);
        append_str(&mut s, bs.as_str());
        append_str(&mut s, "m");
        append_str(&mut s, text);
        s
    }

    /// Prints `text` with a true-color foreground.
    pub fn print_rgb(text: &str, r: u8, g: u8, b: u8, theme: &ThemeConfig) {
        let s = Self::rgb_text(text, r, g, b, theme);
        emit(s.as_str());
    }

    /// `text` with a red foreground.
    pub fn red(text: &str, theme: &ThemeConfig) -> (r: String)
        ensures
            r@ == spec_styled(text@, "\x1b[31m"@, *theme),
    {
        Self::styled_text(text, "\x1b[31m", theme)
    }

    /// `text` with a green foreground.
    pub fn green(text: &str, theme: &ThemeConfig) -> (r: String)
        ensures
            r@ == spec_styled(text@, "\x1b[32m"@, *theme),
    {
        Self::styled_text(text, "\x1b[32m", theme)
    }

    /// `text` with a blue foreground.
    pub fn blue(text: &str, theme: &ThemeConfig) -> (r: String)
        ensures
            r@ == spec_styled(text@, "\x1b[34m"@, *theme),
    {
        Self::styled_text(text, "\x1b[34m", theme)
    }

    /// `text` with a cyan foreground.
    pub fn cyan(text: &str, theme: &ThemeConfig) -> (r: String)
        ensures
            r@ == spec_styled(text@, "\x1b[36m"@, *theme),
    {
        Self::styled_text(text, "\x1b[36m", theme)
    }

    /// `text` with a yellow foreground.
    pub fn yellow(text: &str, theme: &ThemeConfig) -> (r: String)
        ensures
            r@ == spec_styled(text@, "\x1b[33m"@, *theme),
    {
        Self::styled_text(text, "\x1b[33m", theme)
    }

    /// `text` with a magenta foreground.
    pub fn magenta(text: &str, theme: &ThemeConfig) -> (r: String)
        ensures
            r@ == spec_styled(text@, "\x1b[35m"@, *theme),
    {
        Self::styled_text(text, "\x1b[35m", theme)
    }

    /// `text` with a white foreground.
    pub fn white(text: &str, theme: &ThemeConfig) -> (r: String)
        ensures
            r@ == spec_styled(text@, "\x1b[37m"@, *theme),
    {
        Self::styled_text(text, "\x1b[37m", theme)
    }

    /// `text` with a black foreground.
    pub fn black(text: &str, theme: &ThemeConfig) -> (r: String)
        ensures
            r@ == spec_styled(text@, "\x1b[30m"@, *theme),
    {
        Self::styled_text(text, "\x1b[30m", theme)
    }

    /// Prints `text` with a red foreground.
    pub fn print_red(text: &str, theme: &ThemeConfig) {
        Self::print_styled(text, "\x1b[31m", theme);
    }

    /// Prints `text` with a green foreground.
    pub fn print_green(text: &str, theme: &ThemeConfig) {
        Self::print_styled(text, "\x1b[32m", theme);
    }

    /// Prints `text` with a blue foreground.
    pub fn print_blue(text: &str, theme: &ThemeConfig) {
        Self::print_styled(text, "\x1b[34m", theme);
    }

    /// Prints `text` with a cyan foreground.
    pub fn print_cyan(text: &str, theme: &ThemeConfig) {
        Self::print_styled(text, "\x1b[36m", theme);
    }

    /// Prints `text` with a yellow foreground.
    pub fn print_yellow(text: &str, theme: &ThemeConfig) {
        Self::print_styled(text, "\x1b[33m", theme);
    }

    /// Prints `text` with a magenta foreground.
    pub fn print_magenta(text: &str, theme: &ThemeConfig) {
        Self::print_styled(text, "\x1b[35m", theme);
    }

    /// Prints `text` with a white foreground.
    pub fn print_white(text: &str, theme: &ThemeConfig) {
        Self::print_styled(text, "\x1b[37m", theme);
    }

    /// Prints `text` with a black foreground.
    pub fn print_black(text: &str, theme: &ThemeConfig) {
        Self::print_styled(text, "\x1b[30m", theme);
    }

    /// `text` with a bright red foreground.
    pub fn bright_red(text: &str, theme: &ThemeConfig) -> (r: String)
        ensures
            r@ == spec_styled(text@, "\x1b[91m"@, *theme),
    {
        Self::styled_text(text, "\x1b[91m", theme)
    }

    /// `text` with a bright green foreground.
    pub fn bright_green(text: &str, theme: &ThemeConfig) -> (r: String)
        ensures
            r@ == spec_styled(text@, "\x1b[92m"@, *theme),
    {
        Self::styled_text(text, "\x1b[92m", theme)
    }

    /// `text` with a bright blue foreground.
    pub fn bright_blue(text: &str, theme: &ThemeConfig) -> (r: String)
        ensures
            r@ == spec_styled(text@, "\x1b[94m"@, *theme),
    {
        Self::styled_text(text, "\x1b[94m", theme)
    }

    /// `text` with a bright cyan foreground.
    pub fn bright_cyan(text: &str, theme: &ThemeConfig) -> (r: String)
        ensures
            r@ == spec_styled(text@, "\x1b[96m"@, *theme),
    {
        Self::styled_text(text, "\x1b[96m", theme)
    }

    /// `text` with a bright yellow foreground.
    pub fn bright_yellow(text: &str, theme: &ThemeConfig) -> (r: String)
        ensures
            r@ == spec_styled(text@, "\x1b[93m"@, *theme),
    {
        Self::styled_text(text, "\x1b[93m", theme)
    }

    /// Prints `text` in the success color (bright green).
    pub fn print_success(text: &str, theme: &ThemeConfig) {
        Self::print_styled(text, "\x1b[92m", theme);
    }

    /// Prints `text` in the error color (bright red).
    pub fn print_error(text: &str, theme: &ThemeConfig) {
        Self::print_styled(text, "\x1b[91m", theme);
    }

    /// Prints `text` in the warning color (bright yellow).
    pub fn print_warning(text: &str, theme: &ThemeConfig) {
        Self::print_styled(text, "\x1b[93m", theme);
    }

    /// Prints `text` in the info color (bright cyan).
    pub fn print_info(text: &str, theme: &ThemeConfig) {
        Self::print_styled(text, "\x1b[96m", theme);
    }

    /// `text` in the success color (bright green).
    pub fn success(text: &str, theme: &ThemeConfig) -> (r: String)
        ensures
            r@ == spec_styled(text@, "\x1b[92m"@, *theme),
    {
        Self::bright_green(text, theme)
    }

    /// `text` in the warning color (bright yellow).
    pub fn warning(text: &str, theme: &ThemeConfig) -> (r: String)
        ensures
            r@ == spec_styled(text@, "\x1b[93m"@, *theme),
    {
        Self::bright_yellow(text, theme)
    }

    /// `text` in the error color (bright red).
    pub fn error(text: &str, theme: &ThemeConfig) -> (r: String)
        ensures
            r@ == spec_styled(text@, "\x1b[91m"@, *theme),
    {
        Self::bright_red(text, theme)
    }

    /// `text` in the info color (bright cyan).
    pub fn info(text: &str, theme: &ThemeConfig) -> (r: String)
        ensures
            r@ == spec_styled(text@, "\x1b[96m"@, *theme),
    {
        Self::bright_cyan(text, theme)
    }

    /// Prints `text` in the theme's own colors.
    pub fn print_themed(text: &str, theme: &ThemeConfig) {
        let s = Self::themed(text, theme);
        emit(s.as_str());
    }

    /// Prints `text` in the theme's own colors, then a newline.
    pub fn println_themed(text: &str, theme: &ThemeConfig) {
        let mut s = Self::themed(text, theme);
        push_char(&mut s, '\n');
        emit(s.as_str());
    }

    /// Styles `text` in the theme's own background and foreground.
    pub fn themed(text: &str, theme: &ThemeConfig) -> (r: String)
        ensures
            r@ == spec_themed(text@, *theme),
    {
        let mut r = String::new();
        append_str(&mut r, theme.background_color.to_ansi_bg_code());
        append_str(&mut r, theme.foreground_color.to_ansi_fg_code());
        append_str(&mut r, text);
        r
    }
}

} // verus!
