pub mod analyzer;
pub mod ansi_theme;
pub mod document;
pub mod editor;
pub mod terminal_controller;
pub mod text;
pub mod theme;
pub mod version;
