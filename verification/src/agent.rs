//! Identifiers and states of agents.
use vstd::prelude::*;

verus! {

/// Identifier of an agent.
#[derive(Debug, Clone, Copy, PartialEq, Eq, Structural)]
pub struct AgentId(pub u64);

/// What an agent is doing.
#[derive(Debug, Clone)]
pub enum AgentState {
    /// Waiting for input
    Idle,
    /// Thinking about a reply
    Processing,
    /// Running a tool
    RunningTool { tool: String, interruptible: bool },
    /// Stopped for good
    Terminated,
    /// Finished, with its final response if it gave one
    Done(Option<String>),
}

/// A command that changes how an agent works.
#[derive(Debug, Clone)]
pub enum AgentCommand {
    /// Use another model
    SetModel(String),
    /// Turn tools on or off
    EnableTools(bool),
    /// Replace the system prompt
    SetSystemPrompt(String),
    /// Start the conversation afresh
    ResetConversation,
    /// Set the thinking budget, in tokens
    SetThinkingBudget(usize),
}

} // verus!
