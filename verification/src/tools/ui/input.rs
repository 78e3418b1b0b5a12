//! Input tool commands, read without JSON sequences.
use vstd::prelude::*;
use crate::tools::input::{action_models, actions_of, command_from, command_of, sequence_actions};
pub use crate::tools::input::{InputAction, InputCommand, MouseButton};

verus! {

/// Mouse button types
pub type MouseButtonType = MouseButton;

/// Parse command arguments and body into a structured command; sequence
/// bodies are read one action per line.
pub fn parse_command(args: &str, body: &str) -> (r: InputCommand)
    ensures
        r@ == command_of(args@, body@, false),
{
    command_from(args, body, false)
}

/// Parse a sequence of actions from body text, one action per line.
pub fn parse_action_sequence(body: &str) -> (r: Vec<InputAction>)
    ensures
        action_models(r@) == actions_of(body@, false),
{
    sequence_actions(body, false)
}

} // verus!
