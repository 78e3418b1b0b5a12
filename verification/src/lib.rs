pub mod text;
pub mod version_check;
pub mod json;
pub mod tools;
pub mod constants;
pub mod llm;
pub mod agent;
pub mod tui;
pub mod workflow;
pub mod ui_interface;
