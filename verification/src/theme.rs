use vstd::prelude::*;

use crate::text::{append_str, emit, fmt_usize, spec_dec};

verus! {

/// A terminal color as stored in the configuration: one of the classic
/// named terminal colors, the terminal's own default, or a true color.
#[derive(Debug, Clone)]
pub enum TerminalColor {
    Default,
    Black,
    White,
    Red,
    Green,
    Blue,
    Yellow,
    Magenta,
    Cyan,
    Rgb(u8, u8, u8),
}

/// The ANSI escape sequence that selects `c` as the background color.
/// An RGB color falls back to the default background, matching the
/// simplified static table used for code lookup.
pub open spec fn spec_bg_code(c: TerminalColor) -> Seq<char> {
    match c {
        TerminalColor::Default => "\x1b[49m"@,
        TerminalColor::Black => "\x1b[40m"@,
        TerminalColor::White => "\x1b[47m"@,
        TerminalColor::Red => "\x1b[41m"@,
        TerminalColor::Green => "\x1b[42m"@,
        TerminalColor::Blue => "\x1b[44m"@,
        TerminalColor::Yellow => "\x1b[43m"@,
        TerminalColor::Magenta => "\x1b[45m"@,
        TerminalColor::Cyan => "\x1b[46m"@,
        TerminalColor::Rgb(_, _, _) => "\x1b[49m"@,
    }
}

/// The ANSI escape sequence that selects `c` as the foreground color.
/// An RGB color falls back to the default foreground.
pub open spec fn spec_fg_code(c: TerminalColor) -> Seq<char> {
    match c {
        TerminalColor::Default => "\x1b[39m"@,
        TerminalColor::Black => "\x1b[30m"@,
        TerminalColor::White => "\x1b[37m"@,
        TerminalColor::Red => "\x1b[31m"@,
        TerminalColor::Green => "\x1b[32m"@,
        TerminalColor::Blue => "\x1b[34m"@,
        TerminalColor::Yellow => "\x1b[33m"@,
        TerminalColor::Magenta => "\x1b[35m"@,
        TerminalColor::Cyan => "\x1b[36m"@,
        TerminalColor::Rgb(_, _, _) => "\x1b[39m"@,
    }
}

impl TerminalColor {
    /// The ANSI background code for this color.
    pub fn to_ansi_bg_code(&self) -> (r: &'static str)
        ensures
            r@ == spec_bg_code(*self),
    {
        match self {
            TerminalColor::Default => "\x1b[49m",
            TerminalColor::Black => "\x1b[40m",
            TerminalColor::White => "\x1b[47m",
            TerminalColor::Red => "\x1b[41m",
            TerminalColor::Green => "\x1b[42m",
            TerminalColor::Blue => "\x1b[44m",
            TerminalColor::Yellow => "\x1b[43m",
            TerminalColor::Magenta => "\x1b[45m",
            TerminalColor::Cyan => "\x1b[46m",
            TerminalColor::Rgb(_, _, _) => "\x1b[49m",
        }
    }

    /// The ANSI foreground code for this color.
    pub fn to_ansi_fg_code(&self) -> (r: &'static str)
        ensures
            r@ == spec_fg_code(*self),
    {
        match self {
            TerminalColor::Default => "\x1b[39m",
            TerminalColor::Black => "\x1b[30m",
            TerminalColor::White => "\x1b[37m",
            TerminalColor::Red => "\x1b[31m",
            TerminalColor::Green => "\x1b[32m",
            TerminalColor::Blue => "\x1b[34m",
            TerminalColor::Yellow => "\x1b[33m",
            TerminalColor::Magenta => "\x1b[35m",
            TerminalColor::Cyan => "\x1b[36m",
            TerminalColor::Rgb(_, _, _) => "\x1b[39m",
        }
    }
}

/// The full ANSI background sequence for `c`, including the true-color
/// form for an RGB color.
pub open spec fn spec_full_bg_code(c: TerminalColor) -> Seq<char> {
    match c {
        TerminalColor::Rgb(r, g, b) => "\x1b[48;2;"@ + spec_dec(r as int) + ";"@ + spec_dec(
            g as int,
        ) + ";"@ + spec_dec(b as int) + "m"@,
        _ => spec_bg_code(c),
    }
}

/// The full ANSI foreground sequence for `c`, including the true-color
/// form for an RGB color.
pub open spec fn spec_full_fg_code(c: TerminalColor) -> Seq<char> {
    match c {
        TerminalColor::Rgb(r, g, b) => "\x1b[38;2;"@ + spec_dec(r as int) + ";"@ + spec_dec(
            g as int,
        ) + ";"@ + spec_dec(b as int) + "m"@,
        _ => spec_fg_code(c),
    }
}

fn full_color_code(c: &TerminalColor, background: bool) -> (r: String)
    ensures
        background ==> r@ == spec_full_bg_code(*c),
        !background ==> r@ == spec_full_fg_code(*c),
{
    match c {
        TerminalColor::Rgb(cr, cg, cb) => {
            let mut s = String::new();
            if background {
                append_str(&mut s, "\x1b[48;2;");
            } else {
                append_str(&mut s, "\x1b[38;2;");
            }
            let rs = fmt_usize(*cr as usize);
            append_str(&mut s, rs.as_str());
            append_str(&mut s, ";");
            let gs = fmt_usize(*cg as usize);
            append_str(&mut s, gs.as_str());
            append_str(&mut s, ";");
            let bs = fmt_usize(*cb as usize);
            append_str(&mut s, bs.as_str());
            append_str(&mut s, "m");
            s
        },
        _ => {
            let mut s = String::new();
            if background {
                append_str(&mut s, c.to_ansi_bg_code());
            } else {
                append_str(&mut s, c.to_ansi_fg_code());
            }
            s
        },
    }
}

impl TerminalColor {
    /// Prints the ANSI sequence that makes this color the background.
    pub fn apply_background(&self) {
        let s = full_color_code(self, true);
        emit(s.as_str());
    }

    /// Prints the ANSI sequence that makes this color the foreground.
    pub fn apply_foreground(&self) {
        let s = full_color_code(self, false);
        emit(s.as_str());
    }
}

/// The colors the terminal interface is drawn with.
#[derive(Debug, Clone)]
pub struct ThemeConfig {
    pub background_color: TerminalColor,
    pub foreground_color: TerminalColor,
    pub logo_color: TerminalColor,
}

impl Default for ThemeConfig {
    /// Default colors for both planes, with a red logo.
    fn default() -> (r: Self)
        ensures
            r.background_color is Default,
            r.foreground_color is Default,
            r.logo_color is Red,
    {
        ThemeConfig {
            background_color: TerminalColor::Default,
            foreground_color: TerminalColor::Default,
            logo_color: TerminalColor::Red,
        }
    }
}

/// Prints the theme's background and foreground, in their full
/// (true-color capable) form.
pub fn apply_theme(theme: &ThemeConfig) {
    theme.background_color.apply_background();
    theme.foreground_color.apply_foreground();
}

/// Prints the ANSI reset code, restoring the terminal defaults.
pub fn reset_terminal_colors() {
    emit("\x1b[0m");
}

/// The tool's configuration: where the workspace lives, how to log, and
/// the colors to draw with.
#[derive(Debug, Clone)]
pub struct AppConfig {
    pub workspace_path: String,
    pub log_file: String,
    pub verbose_logging: bool,
    pub theme: ThemeConfig,
}

impl Default for AppConfig {
    /// The configuration used when none has been stored yet.
    fn default() -> (r: Self)
        ensures
            r.workspace_path@ == "D:\\RustProjects"@,
            r.log_file@ == "build_tool.log"@,
            r.verbose_logging,
            r.theme.background_color is Default,
            r.theme.foreground_color is Default,
            r.theme.logo_color is Red,
    {
        AppConfig {
            workspace_path: "D:\\RustProjects".to_owned(),
            log_file: "build_tool.log".to_owned(),
            verbose_logging: true,
            theme: ThemeConfig::default(),
        }
    }
}

impl AppConfig {
    /// The workspace directory.
    pub fn get_workspace_path(&self) -> (r: String)
        ensures
            r@ == self.workspace_path@,
    {
        let mut r = String::new();
        append_str(&mut r, self.workspace_path.as_str());
        r
    }

    /// The directory of the named project inside the workspace.
    pub fn get_project_path(&self, project_name: &str) -> (r: String)
        ensures
            r@ == self.workspace_path@ + "/"@ + project_name@,
    {
        let mut r = self.get_workspace_path();
        append_str(&mut r, "/");
        append_str(&mut r, project_name);
        r
    }

    /// The source directory of the named project.
    pub fn get_src_path(&self, project_name: &str) -> (r: String)
        ensures
            r@ == self.workspace_path@ + "/"@ + project_name@ + "/src"@,
    {
        let mut r = self.get_project_path(project_name);
        append_str(&mut r, "/src");
        r
    }

    /// The Cargo.toml path of the named project.
    pub fn get_cargo_toml_path(&self, project_name: &str) -> (r: String)
        ensures
            r@ == self.workspace_path@ + "/"@ + project_name@ + "/Cargo.toml"@,
    {
        let mut r = self.get_project_path(project_name);
        append_str(&mut r, "/Cargo.toml");
        r
    }
}

} // verus!
