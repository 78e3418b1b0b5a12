//! UI interaction tools: screenshots, UI structure dumps and input.
pub mod input;
pub mod macos;
pub mod screendump;
pub mod screenshot;
pub mod structure;
