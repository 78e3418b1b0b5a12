//! The done tool: the agent reports that its task is complete.
use vstd::prelude::*;
use crate::text;
use crate::tools::{AgentStateChange, ToolResult};
use crate::llm::Content;

verus! {

/// The summary that the done tool reports: the trimmed body if it is not
/// empty, else the trimmed arguments if they are not empty, else a fixed text.
pub open spec fn done_summary(args: Seq<char>, body: Seq<char>) -> Seq<char> {
    if text::trim(body).len() > 0 {
        text::trim(body)
    } else if text::trim(args).len() > 0 {
        text::trim(args)
    } else {
        "Task completed successfully."@
    }
}

/// Execute the done tool: marks the agent as done, with the summary as the
/// tool's output.
pub fn execute_done(args: &str, body: &str, _silent_mode: bool) -> (r: ToolResult)
    ensures
        r.success,
        r.state_change == AgentStateChange::Done,
        r.content@.len() == 1,
        r.content@[0] matches Content::Text { text } && text@ == done_summary(args@, body@),
{
    let b = text::trim_chars(&text::str_chars(body));
    let a = text::trim_chars(&text::str_chars(args));
    let summary = if b.len() > 0 {
        b
    } else if a.len() > 0 {
        a
    } else {
        text::str_chars("Task completed successfully.")
    };
    ToolResult::done(text::chars_to_string(&summary))
}

} // verus!
