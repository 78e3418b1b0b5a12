//! Wait tool for agents to pause until they receive a message
use vstd::prelude::*;
use crate::text;
use crate::tools::{AgentStateChange, ToolResult};
use crate::llm::Content;

verus! {

/// The reason for waiting: the trimmed arguments if they are not empty,
/// else the trimmed body if it is not empty, else a fixed text.
pub open spec fn wait_reason(args: Seq<char>, body: Seq<char>) -> Seq<char> {
    if text::trim(args).len() > 0 {
        text::trim(args)
    } else if text::trim(body).len() > 0 {
        text::trim(body)
    } else {
        "No specific reason provided"@
    }
}

/// The reason the wait tool reports for waiting.
pub fn reason_for_waiting(args: &str, body: &str) -> (r: String)
    ensures
        r@ == wait_reason(args@, body@),
{
    let a = text::trim_chars(&text::str_chars(args));
    let b = text::trim_chars(&text::str_chars(body));
    let reason = if a.len() > 0 {
        a
    } else if b.len() > 0 {
        b
    } else {
        text::str_chars("No specific reason provided")
    };
    text::chars_to_string(&reason)
}

/// Execute the wait tool: puts the agent in waiting state.
pub fn execute_wait(args: &str, body: &str, _silent_mode: bool) -> (r: ToolResult)
    ensures
        r.success,
        r.state_change == AgentStateChange::Wait,
        r.content@.len() == 1,
        r.content@[0] matches Content::Text { text } && text@ == "Resumed"@,
{
    let reason = reason_for_waiting(args, body);
    ToolResult::wait(reason)
}

} // verus!
