//! The agent tool: creating agents and sending messages between them. The
//! decisions and messages are here; the agents themselves are run by the
//! application.
use vstd::prelude::*;
use crate::agent::AgentId;
use crate::text::{self, decimal, join, parse_bounded, starts_with, trim, words};
use crate::tui::commands::{agent_views, first_named, first_with_id};

verus! {

/// What the agent tool is asked to do.
pub enum AgentToolPlan {
    /// Refused, with this message
    Refused(String),
    /// Create an agent with this name and kind, and send it the instructions
    Create { name: String, kind: Option<String>, instructions: String },
    /// Send the message (already framed) to the agent, named by the label
    /// the caller gave
    Send { target: AgentId, label: String, message: String },
}

/// The text before the first space of `s`, and the text after it (empty
/// where there is no space).
pub open spec fn split_first_space(s: Seq<char>) -> (Seq<char>, Seq<char>) {
    if exists|i: int| 0 <= i < s.len() && s[i] == ' ' {
        let i = choose|i: int|
            0 <= i < s.len() && s[i] == ' ' && forall|k: int| 0 <= k < i ==> s[k] != ' ';
        (s.take(i), s.skip(i + 1))
    } else {
        (s, seq![])
    }
}

/// The name words and the kind of `create`'s arguments: `kind=` sets the
/// kind (the last one counts); any other word joins the name.
pub open spec fn create_args(ws: Seq<Seq<char>>) -> (Seq<Seq<char>>, Option<Seq<char>>)
    decreases ws.len(),
{
    if ws.len() == 0 {
        (seq![], None)
    } else {
        let (name, kind) = create_args(ws.drop_last());
        let w = ws.last();
        if starts_with(w, "kind="@) {
            (name, Some(w.skip(5)))
        } else {
            (name.push(w), kind)
        }
    }
}

/// The agent that a target (an id, else a name) picks among `agents`.
pub open spec fn target_agent(target: Seq<char>, agents: Seq<(u64, Seq<char>)>) -> Result<
    u64,
    Seq<char>,
> {
    match parse_bounded(target, u64::MAX as int) {
        Some(n) => if exists|k: int| #[trigger] first_with_id(agents, n as u64, k) {
            Ok(n as u64)
        } else {
            Err("Error: Agent with ID "@ + decimal(n) + " not found"@)
        },
        None => if exists|k: int| first_named(agents, target, k) {
            Ok(agents[choose|k: int| first_named(agents, target, k)].0)
        } else {
            Err("Error: Agent with name '"@ + target + "' not found"@)
        },
    }
}

/// The name and id by which the sending agent signs a message.
pub open spec fn source_label(source: Option<u64>, agents: Seq<(u64, Seq<char>)>) -> (Seq<char>, Seq<char>) {
    match source {
        Some(id) => (
            if exists|k: int| first_with_id(agents, id, k) {
                agents[choose|k: int| first_with_id(agents, id, k)].1
            } else {
                "agent-"@ + decimal(id as nat)
            },
            decimal(id as nat),
        ),
        None => ("unknown_agent"@, "unknown"@),
    }
}

/// A message framed as coming from another agent.
pub open spec fn framed_message(source: (Seq<char>, Seq<char>), content: Seq<char>) -> Seq<char> {
    "<agent_message source=\""@ + source.0 + "\" source_id=\""@ + source.1 + "\">\n"@ + content
        + "\n</agent_message>"@
}

/// What the agent tool does for `args` and `body`, among `agents` (ids and
/// names), sent by `source`: multi-agent work needs a subscription; then
/// the first word picks `create` or `send`.
pub open spec fn agent_plan(
    args: Seq<char>,
    body: Seq<char>,
    subscribed: bool,
    agents: Seq<(u64, Seq<char>)>,
    source: Option<u64>,
) -> Result<(bool, Seq<char>, Option<Seq<char>>, Seq<char>, u64), Seq<char>> {
    let (sub0, rest0) = split_first_space(args);
    let sub = trim(sub0);
    let rest = trim(rest0);
    if !subscribed {
        Err("Multi-agent capabilities require a Plus or Pro subscription."@)
    } else if sub == "create"@ {
        let (name_words, kind) = create_args(words(rest));
        let name = join(name_words, " "@);
        if name.len() == 0 {
            Err("Error: Agent creation requires a name"@)
        } else if trim(body).len() == 0 {
            Err("Error: Agent creation requires instructions in the body"@)
        } else {
            Ok((true, name, kind, trim(body), 0))
        }
    } else if sub == "send"@ {
        if rest.len() == 0 {
            Err("Error: send subcommand requires a target agent (name or ID)"@)
        } else if trim(body).len() == 0 {
            Err("Error: Message content is required in the body"@)
        } else {
            match target_agent(rest, agents) {
                Ok(id) => Ok(
                    (false, rest, None, framed_message(source_label(source, agents), trim(body)), id),
                ),
                Err(m) => Err(m),
            }
        }
    } else {
        Err("Unknown agent subcommand: '"@ + sub + "'. Available subcommands: create, send"@)
    }
}

/// The text before the first space and after it.
fn first_space_split(s: &Vec<char>) -> (r: (Vec<char>, Vec<char>))
    ensures
        (r.0@, r.1@) == split_first_space(s@),
{
    match text::find_char(s, ' ') {
        Some(i) => {
            let ghost k = choose|k: int|
                0 <= k < s@.len() && s@[k] == ' ' && forall|j: int| 0 <= j < k ==> s@[j] != ' ';
            assert(k == i) by {
                if k < i {
                } else if k > i {
                }
            }
            let a = text::copy_range(s, 0, i);
            let b = text::copy_range(s, i + 1, s.len());
            assert(a@ =~= s@.take(i as int));
            assert(b@ =~= s@.skip(i + 1));
            (a, b)
        },
        None => (s.clone(), Vec::new()),
    }
}

/// The name words and kind of `create`'s arguments.
fn parse_create_args(rest: &Vec<char>) -> (r: (Vec<Vec<char>>, Option<String>))
    ensures
        (text::views(r.0@), crate::tools::search::opt_view(r.1)) == create_args(words(rest@)),
{
    proof {
        reveal_strlit("kind=");
    }
    let ws = text::split_whitespace(rest);
    let ghost wv = text::views(ws@);
    let mut name: Vec<Vec<char>> = Vec::new();
    let mut kind: Option<String> = None;
    let mut i: usize = 0;
    assert(text::views(name@) =~= Seq::<Seq<char>>::empty());
    while i < ws.len()
        invariant
            i <= ws.len(),
            wv == text::views(ws@),
            wv == words(rest@),
            "kind="@.len() == 5,
            (text::views(name@), crate::tools::search::opt_view(kind)) == create_args(
                wv.take(i as int),
            ),
        decreases ws.len() - i,
    {
        let w = &ws[i];
        assert(wv.take(i + 1).drop_last() =~= wv.take(i as int));
        assert(wv.take(i + 1).last() == w@);
        if text::has_prefix_str(w, "kind=") {
            let v = text::copy_range(w, 5, w.len());
            assert(v@ =~= w@.skip(5));
            kind = Some(text::chars_to_string(&v));
        } else {
            let ghost n0 = text::views(name@);
            name.push(w.clone());
            assert(text::views(name@) =~= n0.push(w@));
        }
        i = i + 1;
    }
    assert(wv.take(ws.len() as int) =~= wv);
    (name, kind)
}

fn refused(m: &str) -> (r: AgentToolPlan)
    ensures
        r matches AgentToolPlan::Refused(x) && x@ == m@,
{
    AgentToolPlan::Refused(text::chars_to_string(&text::str_chars(m)))
}

/// The index of the first agent with id `id`.
fn agent_index_by_id(agents: &Vec<(AgentId, String)>, id: u64) -> (r: Option<usize>)
    ensures
        r matches Some(k) ==> first_with_id(agent_views(agents@), id, k as int),
        r is None ==> !exists|k: int| first_with_id(agent_views(agents@), id, k),
{
    let ghost av = agent_views(agents@);
    let mut i: usize = 0;
    while i < agents.len()
        invariant
            i <= agents.len(),
            av == agent_views(agents@),
            forall|j: int| 0 <= j < i ==> av[j].0 != id,
        decreases agents.len() - i,
    {
        if agents[i].0.0 == id {
            return Some(i);
        }
        i = i + 1;
    }
    None
}

/// The index of the first agent named `name`.
fn agent_index_by_name(agents: &Vec<(AgentId, String)>, name: &Vec<char>) -> (r: Option<usize>)
    ensures
        r matches Some(k) ==> first_named(agent_views(agents@), name@, k as int),
        r is None ==> !exists|k: int| first_named(agent_views(agents@), name@, k),
{
    let ghost av = agent_views(agents@);
    let mut i: usize = 0;
    while i < agents.len()
        invariant
            i <= agents.len(),
            av == agent_views(agents@),
            forall|j: int| 0 <= j < i ==> av[j].1 != name@,
        decreases agents.len() - i,
    {
        if text::chars_eq(&text::str_chars(agents[i].1.as_str()), name) {
            return Some(i);
        }
        i = i + 1;
    }
    None
}

/// The agent a target picks, or the refusal.
fn find_target(target: &Vec<char>, agents: &Vec<(AgentId, String)>) -> (r: Result<u64, String>)
    ensures
        match target_agent(target@, agent_views(agents@)) {
            Ok(id) => r == Ok::<u64, String>(id),
            Err(m) => r matches Err(x) && x@ == m,
        },
{
    let ghost av = agent_views(agents@);
    match text::parse_u64(target) {
        Some(n) => {
            assert(((n as nat) as u64) == n);
            match agent_index_by_id(agents, n) {
                Some(k) => Ok(n),
                None => {
                    let mut m = text::str_chars("Error: Agent with ID ");
                    text::append_chars(&mut m, &text::decimal_chars(n));
                    text::append_str(&mut m, " not found");
                    Err(text::chars_to_string(&m))
                },
            }
        },
        None => match agent_index_by_name(agents, target) {
            Some(k) => {
                let ghost kk = choose|kk: int| first_named(av, target@, kk);
                assert(kk == k) by {
                    if kk < k {
                    } else if kk > k {
                        assert(av[k as int].1 == target@);
                    }
                }
                assert(av[k as int].0 == agents@[k as int].0.0);
                Ok(agents[k].0.0)
            },
            None => {
                let mut m = text::str_chars("Error: Agent with name '");
                text::append_chars(&mut m, target);
                text::append_str(&mut m, "' not found");
                Err(text::chars_to_string(&m))
            },
        },
    }
}

/// The name and id by which the sender signs.
fn sign_of(source: Option<AgentId>, agents: &Vec<(AgentId, String)>) -> (r: (Vec<char>, Vec<char>))
    ensures
        (r.0@, r.1@) == source_label(
            match source {
                Some(a) => Some(a.0),
                None => None,
            },
            agent_views(agents@),
        ),
{
    let ghost av = agent_views(agents@);
    match source {
        Some(id) => {
            let name = match agent_index_by_id(agents, id.0) {
                Some(k) => {
                    let ghost kk = choose|kk: int| first_with_id(av, id.0, kk);
                    assert(kk == k) by {
                        if kk < k {
                        } else if kk > k {
                            assert(av[k as int].0 == id.0);
                        }
                    }
                    text::str_chars(agents[k].1.as_str())
                },
                None => {
                    let mut m = text::str_chars("agent-");
                    text::append_chars(&mut m, &text::decimal_chars(id.0));
                    m
                },
            };
            (name, text::decimal_chars(id.0))
        },
        None => (text::str_chars("unknown_agent"), text::str_chars("unknown")),
    }
}

/// Decides what the agent tool does for `args` and `body`, among `agents`
/// (ids and names, as the application lists them), sent by `source`, for a
/// user with or without a subscription to multi-agent work.
pub fn plan_agent_tool(
    args: &str,
    body: &str,
    subscribed: bool,
    agents: &Vec<(AgentId, String)>,
    source: Option<AgentId>,
) -> (r: AgentToolPlan)
    ensures
        match agent_plan(
            args@,
            body@,
            subscribed,
            agent_views(agents@),
            match source {
                Some(a) => Some(a.0),
                None => None,
            },
        ) {
            Err(m) => r matches AgentToolPlan::Refused(x) && x@ == m,
            Ok((create, label, kind, text, id)) => if create {
                r matches AgentToolPlan::Create { name, kind: k, instructions } && name@ == label
                    && crate::tools::search::opt_view(k) == kind && instructions@ == text
            } else {
                r matches AgentToolPlan::Send { target, label: l, message } && target == AgentId(
                    id,
                ) && l@ == label && message@ == text
            },
        },
{
    if !subscribed {
        return refused("Multi-agent capabilities require a Plus or Pro subscription.");
    }
    let (sub0, rest0) = first_space_split(&text::str_chars(args));
    let sub = text::trim_chars(&sub0);
    let rest = text::trim_chars(&rest0);
    let instructions = text::trim_chars(&text::str_chars(body));
    if text::chars_eq_str(&sub, "create") {
        let (name_words, kind) = parse_create_args(&rest);
        let name = text::join_all(&name_words, " ");
        if name.len() == 0 {
            return refused("Error: Agent creation requires a name");
        }
        if instructions.len() == 0 {
            return refused("Error: Agent creation requires instructions in the body");
        }
        AgentToolPlan::Create {
            name: text::chars_to_string(&name),
            kind,
            instructions: text::chars_to_string(&instructions),
        }
    } else if text::chars_eq_str(&sub, "send") {
        if rest.len() == 0 {
            return refused("Error: send subcommand requires a target agent (name or ID)");
        }
        if instructions.len() == 0 {
            return refused("Error: Message content is required in the body");
        }
        match find_target(&rest, agents) {
            Ok(id) => {
                let (sname, sid) = sign_of(source, agents);
                let mut m = text::str_chars("<agent_message source=\"");
                text::append_chars(&mut m, &sname);
                text::append_str(&mut m, "\" source_id=\"");
                text::append_chars(&mut m, &sid);
                text::append_str(&mut m, "\">\n");
                text::append_chars(&mut m, &instructions);
                text::append_str(&mut m, "\n</agent_message>");
                AgentToolPlan::Send {
                    target: AgentId(id),
                    label: text::chars_to_string(&rest),
                    message: text::chars_to_string(&m),
                }
            },
            Err(e) => AgentToolPlan::Refused(e),
        }
    } else {
        let mut m = text::str_chars("Unknown agent subcommand: '");
        text::append_chars(&mut m, &sub);
        text::append_str(&mut m, "'. Available subcommands: create, send");
        AgentToolPlan::Refused(text::chars_to_string(&m))
    }
}

/// The report of an agent created with id `id`.
pub fn agent_created_report(name: &str, id: AgentId) -> (r: String)
    ensures
        r@ == "Agent '"@ + name@ + "' created with ID: "@ + decimal(id.0 as nat)
            + "\nInitial instructions sent to the agent."@,
{
    let mut m = text::str_chars("Agent '");
    text::append_str(&mut m, name);
    text::append_str(&mut m, "' created with ID: ");
    text::append_chars(&mut m, &text::decimal_chars(id.0));
    text::append_str(&mut m, "\nInitial instructions sent to the agent.");
    text::chars_to_string(&m)
}

/// The report of a message sent to the agent the caller named `label`.
pub fn message_sent_report(label: &str, id: AgentId) -> (r: String)
    ensures
        r@ == "Message sent to agent "@ + label@ + " [ID: "@ + decimal(id.0 as nat) + "]"@,
{
    let mut m = text::str_chars("Message sent to agent ");
    text::append_str(&mut m, label);
    text::append_str(&mut m, " [ID: ");
    text::append_chars(&mut m, &text::decimal_chars(id.0));
    text::append_str(&mut m, "]");
    text::chars_to_string(&m)
}

} // verus!
