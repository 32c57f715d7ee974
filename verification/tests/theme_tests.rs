use rust_dev_terminal::ansi_theme::AnsiTheme;
use rust_dev_terminal::analyzer::analyze_project;
use rust_dev_terminal::theme::{apply_theme, AppConfig, TerminalColor, ThemeConfig};
use rust_dev_terminal::version::{
    increment_major_version, increment_minor_version, increment_patch_version, parse_u32,
};

fn theme() -> ThemeConfig {
    ThemeConfig::default()
}

#[test]
fn background_codes_are_exact() {
    assert_eq!(TerminalColor::Default.to_ansi_bg_code(), "\x1b[49m");
    assert_eq!(TerminalColor::Black.to_ansi_bg_code(), "\x1b[40m");
    assert_eq!(TerminalColor::Blue.to_ansi_bg_code(), "\x1b[44m");
    assert_eq!(TerminalColor::Cyan.to_ansi_bg_code(), "\x1b[46m");
    // The static table falls back to the default for a true color.
    assert_eq!(TerminalColor::Rgb(1, 2, 3).to_ansi_bg_code(), "\x1b[49m");
}

#[test]
fn foreground_codes_are_exact() {
    assert_eq!(TerminalColor::Default.to_ansi_fg_code(), "\x1b[39m");
    assert_eq!(TerminalColor::Red.to_ansi_fg_code(), "\x1b[31m");
    assert_eq!(TerminalColor::Magenta.to_ansi_fg_code(), "\x1b[35m");
    assert_eq!(TerminalColor::Rgb(1, 2, 3).to_ansi_fg_code(), "\x1b[39m");
}

#[test]
fn styled_text_keeps_theme_background() {
    assert_eq!(AnsiTheme::styled_text("hi", "\x1b[31m", &theme()), "\x1b[49m\x1b[31mhi");
}

#[test]
fn named_color_helpers_pick_their_codes() {
    let t = theme();
    assert_eq!(AnsiTheme::red("x", &t), "\x1b[49m\x1b[31mx");
    assert_eq!(AnsiTheme::green("x", &t), "\x1b[49m\x1b[32mx");
    assert_eq!(AnsiTheme::blue("x", &t), "\x1b[49m\x1b[34mx");
    assert_eq!(AnsiTheme::cyan("x", &t), "\x1b[49m\x1b[36mx");
    assert_eq!(AnsiTheme::yellow("x", &t), "\x1b[49m\x1b[33mx");
    assert_eq!(AnsiTheme::magenta("x", &t), "\x1b[49m\x1b[35mx");
    assert_eq!(AnsiTheme::white("x", &t), "\x1b[49m\x1b[37mx");
    assert_eq!(AnsiTheme::black("x", &t), "\x1b[49m\x1b[30mx");
}

#[test]
fn bright_helpers_and_status_aliases_agree() {
    let t = theme();
    assert_eq!(AnsiTheme::bright_red("x", &t), "\x1b[49m\x1b[91mx");
    assert_eq!(AnsiTheme::bright_green("x", &t), "\x1b[49m\x1b[92mx");
    assert_eq!(AnsiTheme::bright_blue("x", &t), "\x1b[49m\x1b[94mx");
    assert_eq!(AnsiTheme::bright_cyan("x", &t), "\x1b[49m\x1b[96mx");
    assert_eq!(AnsiTheme::bright_yellow("x", &t), "\x1b[49m\x1b[93mx");
    assert_eq!(AnsiTheme::success("x", &t), AnsiTheme::bright_green("x", &t));
    assert_eq!(AnsiTheme::warning("x", &t), AnsiTheme::bright_yellow("x", &t));
    assert_eq!(AnsiTheme::error("x", &t), AnsiTheme::bright_red("x", &t));
    assert_eq!(AnsiTheme::info("x", &t), AnsiTheme::bright_cyan("x", &t));
}

#[test]
fn rgb_text_writes_decimal_components() {
    assert_eq!(AnsiTheme::rgb_text("x", 255, 0, 7, &theme()), "\x1b[49m\x1b[38;2;255;0;7mx");
}

#[test]
fn themed_uses_both_theme_planes() {
    let t = ThemeConfig {
        background_color: TerminalColor::Blue,
        foreground_color: TerminalColor::White,
        logo_color: TerminalColor::Red,
    };
    assert_eq!(AnsiTheme::themed("hi", &t), "\x1b[44m\x1b[37mhi");
}

#[test]
fn themed_logo_uses_logo_color() {
    // The default logo color is red.
    assert_eq!(AnsiTheme::themed_logo("L", &theme()), "\x1b[49m\x1b[31mL");
    let t = ThemeConfig {
        background_color: TerminalColor::Default,
        foreground_color: TerminalColor::Default,
        logo_color: TerminalColor::Rgb(9, 8, 7),
    };
    assert_eq!(AnsiTheme::themed_logo("L", &t), "\x1b[49m\x1b[38;2;9;8;7mL");
}

#[test]
fn printing_helpers_run() {
    // The printing paths share the verified string builders; run them
    // once so the output path is exercised.
    let t = theme();
    AnsiTheme::apply_theme(&t);
    AnsiTheme::print_themed("", &t);
    AnsiTheme::println_themed("", &t);
    AnsiTheme::print_success("", &t);
    AnsiTheme::reset();
    apply_theme(&t);
    rust_dev_terminal::theme::reset_terminal_colors();
    analyze_project("demo", &t);
    let tc = rust_dev_terminal::terminal_controller::TerminalController::new();
    tc.set_colors(&TerminalColor::Rgb(1, 2, 3), &TerminalColor::Default);
    tc.reset_colors();
}

#[test]
fn default_config_paths() {
    let cfg = AppConfig::default();
    assert_eq!(cfg.workspace_path, "D:\\RustProjects");
    assert_eq!(cfg.log_file, "build_tool.log");
    assert!(cfg.verbose_logging);
    assert_eq!(cfg.get_workspace_path(), "D:\\RustProjects");
    assert_eq!(cfg.get_project_path("demo"), "D:\\RustProjects/demo");
    assert_eq!(cfg.get_src_path("demo"), "D:\\RustProjects/demo/src");
    assert_eq!(cfg.get_cargo_toml_path("demo"), "D:\\RustProjects/demo/Cargo.toml");
}

#[test]
fn patch_version_increments() {
    assert_eq!(increment_patch_version("1.2.3"), Ok("1.2.4".to_string()));
    assert_eq!(increment_patch_version("0.0.0"), Ok("0.0.1".to_string()));
    assert_eq!(increment_patch_version("10.20.99"), Ok("10.20.100".to_string()));
}

#[test]
fn minor_version_increments_and_resets_patch() {
    assert_eq!(increment_minor_version("1.2.3"), Ok("1.3.0".to_string()));
    assert_eq!(increment_minor_version("0.9.55"), Ok("0.10.0".to_string()));
}

#[test]
fn major_version_increments_and_resets_rest() {
    assert_eq!(increment_major_version("1.2.3"), Ok("2.0.0".to_string()));
}

#[test]
fn malformed_versions_are_rejected() {
    assert_eq!(
        increment_patch_version("1.2"),
        Err("Invalid version format: 1.2".to_string())
    );
    assert_eq!(
        increment_patch_version("1.2.3.4"),
        Err("Invalid version format: 1.2.3.4".to_string())
    );
    assert_eq!(
        increment_patch_version("1.2.x"),
        Err("Invalid patch version: x".to_string())
    );
    assert_eq!(
        increment_patch_version("1.2."),
        Err("Invalid patch version: ".to_string())
    );
    assert_eq!(
        increment_minor_version("1.b.3"),
        Err("Invalid minor version: b".to_string())
    );
    assert_eq!(
        increment_major_version("a.2.3"),
        Err("Invalid major version: a".to_string())
    );
}

#[test]
fn patch_at_the_numeric_ceiling_is_rejected() {
    assert_eq!(
        increment_patch_version("1.2.4294967295"),
        Err("Invalid patch version: 4294967295".to_string())
    );
    // One below the ceiling still works.
    assert_eq!(
        increment_patch_version("1.2.4294967294"),
        Ok("1.2.4294967295".to_string())
    );
}

#[test]
fn digit_parsing_bounds() {
    let digits: Vec<char> = "4294967295".chars().collect();
    assert_eq!(parse_u32(&digits), Some(u32::MAX));
    let over: Vec<char> = "4294967296".chars().collect();
    assert_eq!(parse_u32(&over), None);
    let empty: Vec<char> = Vec::new();
    assert_eq!(parse_u32(&empty), None);
    let neg: Vec<char> = "-1".chars().collect();
    assert_eq!(parse_u32(&neg), None);
}
