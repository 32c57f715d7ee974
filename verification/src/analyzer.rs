use vstd::prelude::*;

use crate::ansi_theme::AnsiTheme;
use crate::text::append_str;
use crate::theme::ThemeConfig;

verus! {

/// Prints a short, fixed report of checks for the named project.
pub fn analyze_project(project_name: &str, theme: &ThemeConfig) {
    AnsiTheme::print_themed("\n", theme);
    let mut header = String::new();
    append_str(&mut header, "Analyzing project: ");
    append_str(&mut header, project_name);
    append_str(&mut header, "\n");
    AnsiTheme::print_blue(header.as_str(), theme);
    AnsiTheme::print_success(" Basic project structure check...\n", theme);
    AnsiTheme::print_success(" Dependency analysis...\n", theme);
    AnsiTheme::print_success(" Code quality assessment...\n", theme);
    AnsiTheme::print_green("Analysis complete!\n", theme);
}

} // verus!
