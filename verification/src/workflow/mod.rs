//! Workflows: named sequences of shell and agent steps.
pub mod cli;
pub mod context;
pub mod executor;
pub mod loader;
pub mod types;
