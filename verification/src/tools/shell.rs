//! The shell tool's interruption state and the result it reports when a
//! command ends.
use vstd::prelude::*;
use crate::text;
use crate::tools::{is_error_with, single_text, AgentStateChange, ToolResult};

verus! {

/// Data structure for managing interruption with reason
pub struct InterruptData {
    /// Flag indicating whether the process should be interrupted
    pub flag: bool,
    /// Optional reason for the interruption
    pub reason: Option<String>,
}

impl InterruptData {
    /// Create a new InterruptData instance
    pub fn new() -> (r: Self)
        ensures
            !r.flag,
            r.reason is None,
    {
        Self { flag: false, reason: None }
    }

    /// Set interruption with reason
    pub fn interrupt(&mut self, reason: String)
        ensures
            final(self).flag,
            final(self).reason == Some(reason),
    {
        self.flag = true;
        self.reason = Some(reason);
    }

    /// Check if interruption is requested
    pub fn is_interrupted(&self) -> (r: bool)
        ensures
            r == self.flag,
    {
        self.flag
    }

    /// Get interruption reason
    pub fn reason(&self) -> (r: Option<&String>)
        ensures
            r matches Some(s) ==> self.reason == Some(*s),
            r is None ==> self.reason is None,
    {
        match &self.reason {
            Some(s) => Some(s),
            None => None,
        }
    }
}

/// Interruption state kept over any number of calls: starting from a fresh
/// state (as `new` leaves it) and interrupting with `reasons` in turn, the
/// state after `j` calls is interrupted exactly when `j > 0`, its reason is
/// the latest one given, and it has a reason exactly when it is interrupted.
pub proof fn law_latest_interrupt_wins(states: Seq<InterruptData>, reasons: Seq<String>)
    requires
        states.len() == reasons.len() + 1,
        !states[0].flag,
        states[0].reason is None,
        forall|i: int|
            0 <= i < reasons.len() ==> (#[trigger] states[i + 1]).flag && states[i + 1].reason
                == Some(reasons[i]),
    ensures
        forall|j: int|
            0 <= j < states.len() ==> {
                &&& (#[trigger] states[j]).flag == (j > 0)
                &&& states[j].reason == if j == 0 {
                    None
                } else {
                    Some(reasons[j - 1])
                }
                &&& states[j].reason is Some == states[j].flag
            },
{
    assert forall|j: int| 0 <= j < states.len() implies {
        &&& (#[trigger] states[j]).flag == (j > 0)
        &&& states[j].reason == if j == 0 {
            None
        } else {
            Some(reasons[j - 1])
        }
        &&& states[j].reason is Some == states[j].flag
    } by {
        if j > 0 {
            assert(states[(j - 1) + 1].flag);
        }
    }
}

/// Message type for shell output streaming
pub enum ShellOutput {
    /// Line from standard output
    Stdout(String),
    /// Line from standard error
    Stderr(String),
    /// Completion signal with final result
    Complete(ToolResult),
}

/// The script that the shell runs: the body where it is not empty, else the
/// command given as argument.
pub fn shell_script(command_to_run: &str, body: &str) -> (r: String)
    ensures
        r@ == if body@.len() > 0 {
            body@
        } else {
            command_to_run@
        },
{
    let b = text::str_chars(body);
    if b.len() > 0 {
        text::chars_to_string(&b)
    } else {
        text::chars_to_string(&text::str_chars(command_to_run))
    }
}

/// How a shell command ended.
pub enum ShellEnd {
    /// Interrupted, with the reason recorded in the interruption state
    Interrupted(Option<String>),
    /// Exited by itself; whether its status was success
    Exited(bool),
    /// Its status could not be read; the error
    MonitorError(String),
}

/// The message and success that a shell command's end is reported with.
pub open spec fn shell_report(command: Seq<char>, end: ShellEnd) -> (bool, Seq<char>) {
    match end {
        ShellEnd::Interrupted(reason) => (
            true,
            "Command '"@ + command + "' was interrupted: "@ + match reason {
                Some(r) => r@,
                None => "No reason provided"@,
            } + "."@,
        ),
        ShellEnd::Exited(ok) => if ok {
            (true, "Command '"@ + command + "' finished with success"@)
        } else {
            (false, "Command '"@ + command + "' finished with error"@)
        },
        ShellEnd::MonitorError(e) => (false, "Error monitoring process status: "@ + e@),
    }
}

/// The result the shell tool sends when `command` ends as `end`: an
/// interruption counts as success.
pub fn shell_completion(command: &str, end: ShellEnd) -> (r: ToolResult)
    ensures
        r.success == shell_report(command@, end).0,
        r.state_change == AgentStateChange::Continue,
        single_text(r.content@) == Some(shell_report(command@, end).1),
{
    let ghost e = end;
    let (ok, msg) = match end {
        ShellEnd::Interrupted(reason) => {
            let mut m = text::str_chars("Command '");
            text::append_str(&mut m, command);
            text::append_str(&mut m, "' was interrupted: ");
            match reason {
                Some(r) => text::append_str(&mut m, r.as_str()),
                None => text::append_str(&mut m, "No reason provided"),
            }
            text::append_str(&mut m, ".");
            (true, m)
        },
        ShellEnd::Exited(ok) => {
            let mut m = text::str_chars("Command '");
            text::append_str(&mut m, command);
            if ok {
                text::append_str(&mut m, "' finished with success");
            } else {
                text::append_str(&mut m, "' finished with error");
            }
            (ok, m)
        },
        ShellEnd::MonitorError(err) => {
            let mut m = text::str_chars("Error monitoring process status: ");
            text::append_str(&mut m, err.as_str());
            (false, m)
        },
    };
    ToolResult::default(ok, text::chars_to_string(&msg))
}

} // verus!
