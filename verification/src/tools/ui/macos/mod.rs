//! macOS-specific parts of the UI tools.
pub mod input;
pub mod screendump;
