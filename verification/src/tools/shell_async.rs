//! The streaming shell's messages and the result it reports when a command
//! ends.
use vstd::prelude::*;
use crate::text;
use crate::tools::{single_text, AgentStateChange, ToolResult};

verus! {

/// Message types for asynchronous tool execution
pub enum ToolMessage {
    /// A line of output from the tool
    Line(String),
    /// Completion signal with final result
    Complete(ToolResult),
}

/// How a streamed shell command ended.
pub enum AsyncShellEnd {
    /// Exited by itself; whether its status was success
    Exited(bool),
    /// Stopped because the model asked for it
    Interrupted,
    /// Its status could not be read; the error
    MonitorError(String),
    /// It could not be started; the error
    SpawnFailed(String),
}

/// The message that streams one line of the command's output to the
/// model, labelled with the stream it came from.
pub fn stream_line(from_stderr: bool, line: &str) -> (r: ToolMessage)
    ensures
        r matches ToolMessage::Line(t) && t@ == (if from_stderr {
            "STDERR: "@
        } else {
            "STDOUT: "@
        }) + line@,
{
    let mut m = if from_stderr {
        text::str_chars("STDERR: ")
    } else {
        text::str_chars("STDOUT: ")
    };
    text::append_str(&mut m, line);
    ToolMessage::Line(text::chars_to_string(&m))
}

/// The two output streams, labelled and with their line counts.
pub open spec fn streams_text(stdout: Seq<char>, stderr: Seq<char>) -> Seq<char> {
    "STDOUT (lines: "@ + text::decimal(text::lines(stdout).len()) + ")\n"@ + stdout
        + "\nSTDERR (lines: "@ + text::decimal(text::lines(stderr).len()) + ")\n"@ + stderr
        + "\n"@
}

/// The success and message reported when `command` ends as `end`, with the
/// output collected so far.
pub open spec fn async_report(
    command: Seq<char>,
    stdout: Seq<char>,
    stderr: Seq<char>,
    end: AsyncShellEnd,
) -> (bool, Seq<char>) {
    match end {
        AsyncShellEnd::Exited(ok) => if ok {
            (true, streams_text(stdout, stderr))
        } else {
            (
                false,
                "Error executing command '"@ + command + "':\n"@ + streams_text(stdout, stderr),
            )
        },
        AsyncShellEnd::Interrupted => (
            true,
            "Command '"@ + command + "' was interrupted by LLM.\nPartial output:\n"@
                + streams_text(stdout, stderr),
        ),
        AsyncShellEnd::MonitorError(e) => (false, "Error monitoring process status: "@ + e@),
        AsyncShellEnd::SpawnFailed(e) => (
            false,
            "Failed to execute command '"@ + command + "': "@ + e@,
        ),
    }
}

fn streams(stdout: &str, stderr: &str) -> (r: Vec<char>)
    ensures
        r@ == streams_text(stdout@, stderr@),
{
    let o = text::str_chars(stdout);
    let e = text::str_chars(stderr);
    let no = text::split_lines(&o).len();
    let ne = text::split_lines(&e).len();
    let mut m = text::str_chars("STDOUT (lines: ");
    text::append_chars(&mut m, &text::decimal_chars(no as u64));
    text::append_str(&mut m, ")\n");
    text::append_chars(&mut m, &o);
    text::append_str(&mut m, "\nSTDERR (lines: ");
    text::append_chars(&mut m, &text::decimal_chars(ne as u64));
    text::append_str(&mut m, ")\n");
    text::append_chars(&mut m, &e);
    text::append_str(&mut m, "\n");
    m
}

/// The result the streaming shell sends when `command` ends as `end`; an
/// interruption by the model counts as success.
pub fn async_shell_completion(command: &str, stdout: &str, stderr: &str, end: AsyncShellEnd) -> (r:
    ToolResult)
    ensures
        r.success == async_report(command@, stdout@, stderr@, end).0,
        r.state_change == AgentStateChange::Continue,
        single_text(r.content@) == Some(async_report(command@, stdout@, stderr@, end).1),
{
    let (ok, msg) = match end {
        AsyncShellEnd::Exited(ok) => {
            if ok {
                (true, streams(stdout, stderr))
            } else {
                let mut m = text::str_chars("Error executing command '");
                text::append_str(&mut m, command);
                text::append_str(&mut m, "':\n");
                text::append_chars(&mut m, &streams(stdout, stderr));
                (false, m)
            }
        },
        AsyncShellEnd::Interrupted => {
            let mut m = text::str_chars("Command '");
            text::append_str(&mut m, command);
            text::append_str(&mut m, "' was interrupted by LLM.\nPartial output:\n");
            text::append_chars(&mut m, &streams(stdout, stderr));
            (true, m)
        },
        AsyncShellEnd::MonitorError(err) => {
            let mut m = text::str_chars("Error monitoring process status: ");
            text::append_str(&mut m, err.as_str());
            (false, m)
        },
        AsyncShellEnd::SpawnFailed(err) => {
            let mut m = text::str_chars("Failed to execute command '");
            text::append_str(&mut m, command);
            text::append_str(&mut m, "': ");
            text::append_str(&mut m, err.as_str());
            (false, m)
        },
    };
    ToolResult::default(ok, text::chars_to_string(&msg))
}

} // verus!
