//! Executor for workflow steps
use vstd::prelude::*;
use crate::agent::{AgentId, AgentState};
use crate::text::{self, utf8_len, is_char_boundary, boundary_index, decimal, starts_with, contains};
use crate::workflow::context::WorkflowError;
use crate::workflow::types::{Step, StepType};

verus! {

/// Executor for workflows
pub struct WorkflowExecutor {}

impl WorkflowExecutor {
    /// Create a new workflow executor
    pub fn new(_agent_id: AgentId) -> (r: Self)
        ensures
            r == (WorkflowExecutor {}),
    {
        Self {}
    }
}

/// The error that refuses a workflow to an edition without workflows.
pub fn pro_only_error() -> (r: WorkflowError)
    ensures
        r matches WorkflowError::PermissionDenied(m) && m@
            == "Workflows are a Pro-only feature. Upgrade to Pro for access."@,
{
    WorkflowError::PermissionDenied(
        text::chars_to_string(
            &text::str_chars("Workflows are a Pro-only feature. Upgrade to Pro for access."),
        ),
    )
}

/// The type of a step whose required fields are present: a shell step needs
/// a command, an agent step a prompt; a step of no known type is refused.
pub fn check_step(step: &Step) -> (r: Result<StepType, WorkflowError>)
    ensures
        step.shell_id is Some ==> (if step.command is Some {
            r == Ok::<StepType, WorkflowError>(StepType::Shell)
        } else {
            r matches Err(WorkflowError::MissingField(f)) && f@ == "command"@
        }),
        step.shell_id is None && step.agent_id is Some ==> (if step.prompt is Some {
            r == Ok::<StepType, WorkflowError>(StepType::Agent)
        } else {
            r matches Err(WorkflowError::MissingField(f)) && f@ == "prompt"@
        }),
        step.shell_id is None && step.agent_id is None ==> r == Err::<StepType, WorkflowError>(
            WorkflowError::InvalidStepType,
        ),
{
    match step.get_type() {
        StepType::Shell => if step.command.is_some() {
            Ok(StepType::Shell)
        } else {
            Err(WorkflowError::MissingField(text::chars_to_string(&text::str_chars("command"))))
        },
        StepType::Agent => if step.prompt.is_some() {
            Ok(StepType::Agent)
        } else {
            Err(WorkflowError::MissingField(text::chars_to_string(&text::str_chars("prompt"))))
        },
        StepType::Unknown => Err(WorkflowError::InvalidStepType),
    }
}

impl Step {
    /// The kind of agent an agent step asks for: `general` where it names none.
    pub fn agent_kind(&self) -> (r: &str)
        ensures
            r@ == match self.kind {
                Some(k) => k@,
                None => "general"@,
            },
    {
        match &self.kind {
            Some(k) => k.as_str(),
            None => "general",
        }
    }
}

/// The name of the agent that runs the agent step `step_id`.
pub fn workflow_agent_name(step_id: &str) -> (r: String)
    ensures
        r@ == "workflow_agent_"@ + step_id@,
{
    let mut m = text::str_chars("workflow_agent_");
    text::append_str(&mut m, step_id);
    text::chars_to_string(&m)
}

/// What a shell command printed: its standard output, then, where it wrote
/// any, its error output, on a line of its own after a non-empty output.
pub fn combine_output(stdout: &str, stderr: &str) -> (r: String)
    ensures
        r@ == if stderr@.len() == 0 {
            stdout@
        } else if stdout@.len() == 0 {
            stderr@
        } else {
            stdout@ + "\n"@ + stderr@
        },
{
    let mut m = text::str_chars(stdout);
    let e = text::str_chars(stderr);
    if e.len() > 0 {
        if m.len() > 0 {
            m.push('\n');
        }
        text::append_chars(&mut m, &e);
    }
    proof {
        reveal_strlit("\n");
    }
    text::chars_to_string(&m)
}

/// The longest text, in bytes, that a preview shows whole.
pub const PREVIEW_BYTES: usize = 500;

/// A preview of `s`: `s` itself where it has at most 500 bytes, else its
/// first 500 bytes and the number of bytes left out.
pub open spec fn preview_of(s: Seq<char>) -> Seq<char> {
    if utf8_len(s) <= 500 {
        s
    } else {
        s.take(boundary_index(s, 500)) + "... [truncated "@ + decimal((utf8_len(s) - 500) as nat)
            + " more characters]"@
    }
}

/// A preview of a command output, a prompt or a response. The first 500
/// bytes of a longer text must end at a character.
pub fn preview(s: &str) -> (r: String)
    requires
        utf8_len(s@) <= usize::MAX,
        utf8_len(s@) > 500 ==> is_char_boundary(s@, 500),
    ensures
        r@ == preview_of(s@),
{
    let cs = text::str_chars(s);
    let n = match text::utf8_length(&cs) {
        Some(n) => n,
        None => {
            return text::chars_to_string(&cs);
        },
    };
    if n <= PREVIEW_BYTES {
        return text::chars_to_string(&cs);
    }
    match text::char_index_at_byte(&cs, PREVIEW_BYTES) {
        Some(k) => {
            let mut m = text::copy_range(&cs, 0, k);
            text::append_str(&mut m, "... [truncated ");
            text::append_chars(&mut m, &text::decimal_chars((n - PREVIEW_BYTES) as u64));
            text::append_str(&mut m, " more characters]");
            assert(cs@.subrange(0, k as int) =~= cs@.take(k as int));
            text::chars_to_string(&m)
        },
        None => text::chars_to_string(&cs),
    }
}

/// Whether a line an agent printed is echoed while a workflow waits for it:
/// lines that start with the agent mark or report token usage are not.
pub fn shows_agent_line(line: &str) -> (r: bool)
    ensures
        r == (!starts_with(line@, "\u{1F916}"@) && !contains(line@, "Token usage:"@)),
{
    let cs = text::str_chars(line);
    let mark = text::str_chars("\u{1F916}");
    let usage = text::str_chars("Token usage:");
    !text::has_prefix(&cs, &mark) && !text::contains_chars(&cs, &usage)
}

/// What the state of the agent of an agent step means to the workflow.
pub enum AgentProgress {
    /// The agent finished with this response
    Finished(String),
    /// The agent was terminated
    Terminated,
    /// The agent is working
    Working,
    /// The agent is neither working nor finished
    Waiting,
}

/// The progress that an agent state shows.
pub fn agent_progress(state: &AgentState) -> (r: AgentProgress)
    ensures
        match *state {
            AgentState::Done(Some(c)) => r matches AgentProgress::Finished(s) && s@ == c@,
            AgentState::Terminated => r is Terminated,
            AgentState::Processing => r is Working,
            AgentState::RunningTool { .. } => r is Working,
            _ => r is Waiting,
        },
{
    match state {
        AgentState::Done(Some(c)) => AgentProgress::Finished(c.clone()),
        AgentState::Terminated => AgentProgress::Terminated,
        AgentState::Processing => AgentProgress::Working,
        AgentState::RunningTool { .. } => AgentProgress::Working,
        _ => AgentProgress::Waiting,
    }
}

/// The longest time, in seconds, a workflow waits for an agent step.
pub const AGENT_TIMEOUT_SECS: u64 = 300;

/// The error of an agent that was terminated while a workflow waited.
pub fn agent_terminated_error() -> (r: WorkflowError)
    ensures
        r matches WorkflowError::AgentError(m) && m@ == "Agent was terminated"@,
{
    WorkflowError::AgentError(text::chars_to_string(&text::str_chars("Agent was terminated")))
}

/// The error of an agent that did not finish within `seconds`.
pub fn agent_timeout_error(seconds: u64) -> (r: WorkflowError)
    ensures
        r matches WorkflowError::AgentError(m) && m@ == "Agent did not complete within "@ + decimal(
            seconds as nat,
        ) + " seconds"@,
{
    let mut m = text::str_chars("Agent did not complete within ");
    text::append_chars(&mut m, &text::decimal_chars(seconds));
    text::append_str(&mut m, " seconds");
    WorkflowError::AgentError(text::chars_to_string(&m))
}

/// The heading of step `index` (counted from zero) of `total` steps.
pub fn step_heading(index: usize, total: usize, step_id: &str, description: Option<&String>) -> (r:
    String)
    requires
        index < usize::MAX,
    ensures
        r@ == "\u{1F4CB} STEP "@ + decimal((index + 1) as nat) + "/"@ + decimal(total as nat) + ": "@
            + step_id@ + " - "@ + match description {
            Some(d) => d@,
            None => Seq::<char>::empty(),
        },
{
    let mut m = text::str_chars("\u{1F4CB} STEP ");
    text::append_chars(&mut m, &text::decimal_chars((index + 1) as u64));
    text::append_str(&mut m, "/");
    text::append_chars(&mut m, &text::decimal_chars(total as u64));
    text::append_str(&mut m, ": ");
    text::append_str(&mut m, step_id);
    text::append_str(&mut m, " - ");
    if let Some(d) = description {
        text::append_str(&mut m, d.as_str());
    }
    text::chars_to_string(&m)
}

} // verus!
