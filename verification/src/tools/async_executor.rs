//! Messages of tools that stream their output.
use vstd::prelude::*;
use crate::tools::ToolResult;

verus! {

/// A message from a tool that streams its output
pub enum ToolMessage {
    /// A line of output
    Line(String),
    /// Completion with the final result
    Complete(ToolResult),
}

} // verus!
