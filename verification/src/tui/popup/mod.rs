//! Popups of the terminal UI.
pub mod commands;
pub mod temporary;

pub use commands::{CommandSuggestion, CommandSuggestionsPopup};
pub use temporary::TemporaryOutput;
