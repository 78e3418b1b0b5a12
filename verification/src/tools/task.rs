//! The task tool: its arguments, the instructions handed to the sub-agent,
//! the end of its wait, and the answer taken from the sub-agent's output.
use vstd::prelude::*;
use crate::agent::AgentState;
use crate::text::{self, join, starts_with, trim, words};

verus! {

/// The task's name, kind and include patterns so far.
pub type TaskArgsModel = (Seq<Seq<char>>, Option<Seq<char>>, Seq<Seq<char>>);

/// The task's arguments after one more word: `kind=` sets the kind (the
/// last one counts), `include=` adds a pattern, any other word joins the
/// name.
pub open spec fn task_step(st: TaskArgsModel, w: Seq<char>) -> TaskArgsModel {
    let (name, kind, inc) = st;
    if starts_with(w, "kind="@) {
        (name, Some(w.skip(5)), inc)
    } else if starts_with(w, "include="@) {
        (name, kind, inc.push(w.skip(8)))
    } else {
        (name.push(w), kind, inc)
    }
}

/// The task's arguments that the words `ws` give, read in order.
pub open spec fn task_args_of(ws: Seq<Seq<char>>) -> TaskArgsModel
    decreases ws.len(),
{
    if ws.len() == 0 {
        (seq![], None, seq![])
    } else {
        task_step(task_args_of(ws.drop_last()), ws.last())
    }
}

/// The task's name: its name words joined by spaces, or `unnamed_task`.
pub open spec fn task_name_of(name_words: Seq<Seq<char>>) -> Seq<char> {
    if name_words.len() == 0 {
        "unnamed_task"@
    } else {
        join(name_words, " "@)
    }
}

/// Parse task arguments into the task's name, kind and include patterns.
pub fn parse_task_arguments(args: &str) -> (r: (String, Option<String>, Vec<String>))
    ensures
        ({
            let (name, kind, inc) = task_args_of(words(args@));
            &&& r.0@ == task_name_of(name)
            &&& crate::tools::search::opt_view(r.1) == kind
            &&& text::string_views(r.2@) == inc
        }),
{
    proof {
        reveal_strlit("kind=");
        reveal_strlit("include=");
    }
    let ws = text::split_whitespace(&text::str_chars(args));
    let ghost wv = text::views(ws@);
    let mut name: Vec<Vec<char>> = Vec::new();
    let mut kind: Option<String> = None;
    let mut inc: Vec<String> = Vec::new();
    let mut i: usize = 0;
    assert(text::string_views(inc@) =~= Seq::<Seq<char>>::empty());
    assert(text::views(name@) =~= Seq::<Seq<char>>::empty());
    while i < ws.len()
        invariant
            i <= ws.len(),
            wv == text::views(ws@),
            wv == words(args@),
            "kind="@.len() == 5,
            "include="@.len() == 8,
            (text::views(name@), crate::tools::search::opt_view(kind), text::string_views(inc@))
                == task_args_of(wv.take(i as int)),
        decreases ws.len() - i,
    {
        let w = &ws[i];
        assert(wv.take(i + 1).drop_last() =~= wv.take(i as int));
        assert(wv.take(i + 1).last() == w@);
        if text::has_prefix_str(w, "kind=") {
            let v = text::copy_range(w, 5, w.len());
            assert(v@ =~= w@.skip(5));
            kind = Some(text::chars_to_string(&v));
        } else if text::has_prefix_str(w, "include=") {
            let v = text::copy_range(w, 8, w.len());
            assert(v@ =~= w@.skip(8));
            let ghost i0 = text::string_views(inc@);
            inc.push(text::chars_to_string(&v));
            assert(text::string_views(inc@) =~= i0.push(v@));
        } else {
            let ghost n0 = text::views(name@);
            name.push(w.clone());
            assert(text::views(name@) =~= n0.push(w@));
        }
        i = i + 1;
    }
    assert(wv.take(ws.len() as int) =~= wv);
    let task_name = if name.len() == 0 {
        text::chars_to_string(&text::str_chars("unnamed_task"))
    } else {
        text::chars_to_string(&text::join_all(&name, " "))
    };
    (task_name, kind, inc)
}

/// The instructions of a task: its body trimmed, or the refusal of an empty
/// one.
pub fn task_instructions(body: &str) -> (r: Result<String, String>)
    ensures
        trim(body@).len() > 0 ==> (r matches Ok(s) && s@ == trim(body@)),
        trim(body@).len() == 0 ==> (r matches Err(m) && m@
            == "Error: Task requires instructions in the body"@),
{
    let t = text::trim_chars(&text::str_chars(body));
    if t.len() == 0 {
        Err(text::chars_to_string(&text::str_chars("Error: Task requires instructions in the body")))
    } else {
        Ok(text::chars_to_string(&t))
    }
}

/// The name of the agent that runs task `name`.
pub fn task_agent_name(name: &str) -> (r: String)
    ensures
        r@ == "task_"@ + name@,
{
    let mut m = text::str_chars("task_");
    text::append_str(&mut m, name);
    text::chars_to_string(&m)
}

/// The context that included files give: each file under a heading with
/// its name, its text in a code block.
pub open spec fn include_context(files: Seq<(Seq<char>, Seq<char>)>) -> Seq<char>
    decreases files.len(),
{
    if files.len() == 0 {
        seq![]
    } else {
        include_context(files.drop_last()) + "\n## File: "@ + files.last().0 + "\n```\n"@
            + files.last().1 + "\n```\n\n"@
    }
}

/// The included files as plain values.
pub open spec fn file_views(files: Seq<(String, String)>) -> Seq<(Seq<char>, Seq<char>)> {
    files.map_values(|f: (String, String)| (f.0@, f.1@))
}

/// The context that the included files (display name, text) give.
pub fn include_files_context(files: &Vec<(String, String)>) -> (r: String)
    ensures
        r@ == include_context(file_views(files@)),
{
    let ghost fv = file_views(files@);
    let mut m: Vec<char> = Vec::new();
    let mut i: usize = 0;
    while i < files.len()
        invariant
            i <= files.len(),
            fv == file_views(files@),
            m@ == include_context(fv.take(i as int)),
        decreases files.len() - i,
    {
        assert(fv.take(i + 1).drop_last() =~= fv.take(i as int));
        text::append_str(&mut m, "\n## File: ");
        text::append_str(&mut m, files[i].0.as_str());
        text::append_str(&mut m, "\n```\n");
        text::append_str(&mut m, files[i].1.as_str());
        text::append_str(&mut m, "\n```\n\n");
        i = i + 1;
    }
    assert(fv.take(files.len() as int) =~= fv);
    text::chars_to_string(&m)
}

/// What the sub-agent is sent: the file context and the instructions under
/// headings, where patterns were given and the files gave context; else
/// the instructions alone.
pub open spec fn combined_instructions(has_includes: bool, context: Seq<char>, instructions: Seq<char>) -> Seq<char> {
    if has_includes && context.len() > 0 {
        "# File Context\n\n"@ + context + "\n\n# Task Instructions\n\n"@ + instructions
    } else {
        instructions
    }
}

/// What the sub-agent is sent.
pub fn combine_instructions(has_includes: bool, context: &str, instructions: &str) -> (r: String)
    ensures
        r@ == combined_instructions(has_includes, context@, instructions@),
{
    let c = text::str_chars(context);
    if has_includes && c.len() > 0 {
        let mut m = text::str_chars("# File Context\n\n");
        text::append_chars(&mut m, &c);
        text::append_str(&mut m, "\n\n# Task Instructions\n\n");
        text::append_str(&mut m, instructions);
        text::chars_to_string(&m)
    } else {
        text::chars_to_string(&text::str_chars(instructions))
    }
}

// ---------------------------------------------------------------------------
// Waiting for the sub-agent
// ---------------------------------------------------------------------------

/// Seconds a task may run.
pub const TASK_TIMEOUT_SECS: u64 = 300;

/// Milliseconds between two looks at the sub-agent's state.
pub const POLL_INTERVAL_MS: u64 = 500;

/// What one look at the sub-agent's state decides.
pub enum TaskPoll {
    /// Keep waiting
    Waiting,
    /// Done with this answer
    Answer(String),
    /// Done without an answer: take it from the agent's output
    FromOutput,
    /// Terminated before it finished, with the message to report
    Terminated(String),
}

/// What a look at the sub-agent's state decides (`None` where it could not
/// be read).
pub fn task_poll(state: &Option<AgentState>) -> (r: TaskPoll)
    ensures
        match state {
            Some(AgentState::Done(Some(s))) => r matches TaskPoll::Answer(a) && a@ == s@,
            Some(AgentState::Done(None)) => r is FromOutput,
            Some(AgentState::Terminated) => r matches TaskPoll::Terminated(m) && m@
                == "Task was terminated before completion"@,
            _ => r is Waiting,
        },
{
    match state {
        Some(AgentState::Done(Some(s))) => TaskPoll::Answer(s.clone()),
        Some(AgentState::Done(None)) => TaskPoll::FromOutput,
        Some(AgentState::Terminated) => TaskPoll::Terminated(
            text::chars_to_string(&text::str_chars("Task was terminated before completion")),
        ),
        _ => TaskPoll::Waiting,
    }
}

/// The report of a task that ran out of time.
pub fn timeout_message() -> (r: String)
    ensures
        r@ == "Task timed out after "@ + text::decimal(TASK_TIMEOUT_SECS as nat) + " seconds"@,
{
    let mut m = text::str_chars("Task timed out after ");
    text::append_chars(&mut m, &text::decimal_chars(TASK_TIMEOUT_SECS));
    text::append_str(&mut m, " seconds");
    text::chars_to_string(&m)
}

// ---------------------------------------------------------------------------
// The answer from the sub-agent's output
// ---------------------------------------------------------------------------

/// The index of the last line that starts with `>` (a user message), or 0.
pub open spec fn last_user_index(ls: Seq<Seq<char>>) -> int
    decreases ls.len(),
{
    if ls.len() == 0 {
        0
    } else if starts_with(ls.last(), ">"@) {
        ls.len() - 1
    } else {
        last_user_index(ls.drop_last())
    }
}

/// A line that is part of the answer: not a system message (starting with
/// the robot sign), no token usage, not blank.
pub open spec fn answer_line(l: Seq<char>) -> bool {
    !starts_with(l, "🤖"@) && !text::contains(l, "Token usage:"@) && trim(l).len() > 0
}

/// The lines of `ls` for which `keep` holds, in order.
pub open spec fn kept(ls: Seq<Seq<char>>, keep: spec_fn(Seq<char>) -> bool) -> Seq<Seq<char>>
    decreases ls.len(),
{
    if ls.len() == 0 {
        seq![]
    } else if keep(ls.last()) {
        kept(ls.drop_last(), keep).push(ls.last())
    } else {
        kept(ls.drop_last(), keep)
    }
}

/// The answer in the output lines `ls`: the answer lines after the last
/// user message (the first line skipped where there is none); where there
/// are none, the last twenty lines without system messages.
pub open spec fn final_output(ls: Seq<Seq<char>>) -> Seq<char> {
    let after = if ls.len() == 0 {
        ls
    } else {
        ls.skip(last_user_index(ls) + 1)
    };
    let full = join(kept(after, |l: Seq<char>| answer_line(l)), "\n"@);
    if full.len() > 0 {
        full
    } else {
        let tail = if ls.len() > 20 {
            ls.skip(ls.len() - 20)
        } else {
            ls
        };
        join(kept(tail, |l: Seq<char>| !starts_with(l, "🤖"@)), "\n"@)
    }
}

/// The lines of `ls` from `from` on for which `answer` (answer lines) or
/// else the system-message test holds.
fn keep_lines(ls: &Vec<Vec<char>>, from: usize, answer: bool) -> (r: Vec<Vec<char>>)
    requires
        from <= ls.len(),
    ensures
        answer ==> text::views(r@) == kept(
            text::views(ls@).skip(from as int),
            |l: Seq<char>| answer_line(l),
        ),
        !answer ==> text::views(r@) == kept(
            text::views(ls@).skip(from as int),
            |l: Seq<char>| !starts_with(l, "🤖"@),
        ),
{
    let ghost lv = text::views(ls@);
    let robot = text::str_chars("🤖");
    let usage = text::str_chars("Token usage:");
    let mut r: Vec<Vec<char>> = Vec::new();
    let mut k = from;
    assert(lv.skip(from as int).take(0) =~= Seq::<Seq<char>>::empty());
    while k < ls.len()
        invariant
            from <= k <= ls.len(),
            lv == text::views(ls@),
            robot@ == "🤖"@,
            usage@ == "Token usage:"@,
            answer ==> text::views(r@) == kept(
                lv.skip(from as int).take(k - from),
                |l: Seq<char>| answer_line(l),
            ),
            !answer ==> text::views(r@) == kept(
                lv.skip(from as int).take(k - from),
                |l: Seq<char>| !starts_with(l, "🤖"@),
            ),
        decreases ls.len() - k,
    {
        let l = &ls[k];
        assert(lv.skip(from as int).take(k + 1 - from).drop_last() =~= lv.skip(from as int).take(
            k - from,
        ));
        assert(lv.skip(from as int).take(k + 1 - from).last() == l@);
        let not_robot = !text::has_prefix(l, &robot);
        let keep = if answer {
            not_robot && !text::contains_chars(l, &usage) && text::trim_chars(l).len() > 0
        } else {
            not_robot
        };
        if keep {
            let ghost r0 = text::views(r@);
            r.push(l.clone());
            assert(text::views(r@) =~= r0.push(l@));
        }
        k = k + 1;
    }
    assert(lv.skip(from as int).take(ls.len() - from) =~= lv.skip(from as int));
    r
}

/// Extract the final output from the agent's output lines.
pub fn extract_final_output(lines: &Vec<String>) -> (r: String)
    ensures
        r@ == final_output(text::string_views(lines@)),
{
    let ghost sv = text::string_views(lines@);
    let mut ls: Vec<Vec<char>> = Vec::new();
    let mut i: usize = 0;
    while i < lines.len()
        invariant
            i <= lines.len(),
            sv == text::string_views(lines@),
            text::views(ls@) == sv.take(i as int),
        decreases lines.len() - i,
    {
        let ghost l0 = text::views(ls@);
        ls.push(text::str_chars(lines[i].as_str()));
        assert(text::views(ls@) =~= l0.push(sv[i as int]));
        assert(sv.take(i + 1) =~= sv.take(i as int).push(sv[i as int]));
        i = i + 1;
    }
    assert(sv.take(lines.len() as int) =~= sv);
    let ghost lv = text::views(ls@);
    let user = text::str_chars(">");
    let mut last: usize = 0;
    let mut k: usize = 0;
    while k < ls.len()
        invariant
            k <= ls.len(),
            lv == text::views(ls@),
            user@ == ">"@,
            last as int == last_user_index(lv.take(k as int)),
            k > 0 ==> last < k,
            k == 0 ==> last == 0,
        decreases ls.len() - k,
    {
        assert(lv.take(k + 1).drop_last() =~= lv.take(k as int));
        assert(lv.take(k + 1).last() == ls@[k as int]@);
        if text::has_prefix(&ls[k], &user) {
            last = k;
        }
        k = k + 1;
    }
    assert(lv.take(ls.len() as int) =~= lv);
    let from = if last < ls.len() {
        last + 1
    } else {
        ls.len()
    };
    let full = text::join_all(&keep_lines(&ls, from, true), "\n");
    if full.len() > 0 {
        return text::chars_to_string(&full);
    }
    let start = if ls.len() > 20 {
        ls.len() - 20
    } else {
        0
    };
    assert(lv.skip(0) =~= lv);
    let tail = text::join_all(&keep_lines(&ls, start, false), "\n");
    text::chars_to_string(&tail)
}

} // verus!
