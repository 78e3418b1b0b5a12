//! The terminal user interface's state and input handling.
pub mod popup;
pub mod state;
pub mod commands;
pub mod events;
pub mod layout;
