pub mod clipboard;
pub mod cursor;
pub mod input;
pub mod laws;
pub mod model;
pub mod render;
pub mod state;
