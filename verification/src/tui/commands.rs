//! Command processing for the Terminal UI
use vstd::prelude::*;
use crate::agent::{AgentCommand, AgentId};
use crate::text::{self, decimal, lowercase, parse_bounded, trim, trim_start_char};
use crate::tui::state::{same_editor, same_history, same_view, TuiState};

verus! {

/// What a slash command asks of the application besides what it changes in
/// the UI state.
pub enum CommandEffect {
    /// Nothing more
    Nothing,
    /// Interrupt the selected agent
    Interrupt,
    /// Send this command to the selected agent
    Send(AgentCommand),
    /// Write this line to the selected agent's output
    Report(String),
}

/// The command word and its argument text: the text before the first space
/// without leading slashes, and the rest after that space, trimmed.
pub open spec fn split_command(input: Seq<char>) -> (Seq<char>, Seq<char>) {
    let sp = choose|i: int| 0 <= i < input.len() && input[i] == ' ' && forall|j: int| 0 <= j < i ==> input[j] != ' ';
    if exists|i: int| 0 <= i < input.len() && input[i] == ' ' {
        (trim_start_char(input.take(sp), '/'), trim(input.skip(sp + 1)))
    } else {
        (trim_start_char(input, '/'), seq![])
    }
}

/// The help text that `/help` shows.
pub const HELP_TEXT: &'static str = "\
            Available commands:
            /help - Show this help information
            /exit, /quit - Exit the application
            /interrupt - Interrupt the current agent
            /model MODEL - Set the model (e.g., gpt-4o)
            /tools on|off - Enable or disable tools
            /system TEXT - Set the system prompt
            /reset - Reset the conversation
            /thinking NUMBER - Set thinking budget in tokens (e.g., 10000)

            Agent selection:
            #ID or #NAME - Switch to agent by ID or name
            ";

/// How a slash command is answered.
pub enum CommandReply {
    /// Show a popup with this title and text
    Popup(Seq<char>, Seq<char>),
    /// Quit the application
    Quit,
    /// Interrupt the selected agent
    Interrupt,
    /// Send a command to the selected agent
    SetModel(Seq<char>),
    EnableTools(bool),
    SetSystemPrompt(Seq<char>),
    ResetConversation,
    SetThinkingBudget(nat),
    /// Write a line to the agent's output
    Report(Seq<char>),
}

/// The answer to slash command `input`.
pub open spec fn command_reply(input: Seq<char>) -> CommandReply {
    let (cmd, args) = split_command(input);
    if cmd == "help"@ {
        CommandReply::Popup("Help"@, HELP_TEXT@)
    } else if cmd == "exit"@ || cmd == "quit"@ {
        CommandReply::Quit
    } else if cmd == "interrupt"@ {
        CommandReply::Interrupt
    } else if cmd == "model"@ {
        if args.len() == 0 {
            CommandReply::Popup("Error"@, "Model name is required"@)
        } else {
            CommandReply::SetModel(args)
        }
    } else if cmd == "tools"@ {
        let a = lowercase(args);
        if a == "on"@ || a == "true"@ || a == "yes"@ || a == "1"@ {
            CommandReply::EnableTools(true)
        } else if a == "off"@ || a == "false"@ || a == "no"@ || a == "0"@ {
            CommandReply::EnableTools(false)
        } else {
            CommandReply::Popup("Error"@, "Invalid argument. Use 'on' or 'off'"@)
        }
    } else if cmd == "system"@ {
        if args.len() == 0 {
            CommandReply::Popup("Error"@, "System prompt is required"@)
        } else {
            CommandReply::SetSystemPrompt(args)
        }
    } else if cmd == "reset"@ {
        CommandReply::ResetConversation
    } else if cmd == "thinking"@ {
        if args.len() == 0 {
            CommandReply::Popup("Error"@, "Thinking budget (number of tokens) is required"@)
        } else {
            match parse_bounded(args, usize::MAX as int) {
                Some(n) => CommandReply::SetThinkingBudget(n),
                None => CommandReply::Popup("Error"@, "Invalid number format"@),
            }
        }
    } else {
        CommandReply::Report(
            "Unknown command: '"@ + input + "'. Type /help for available commands."@,
        )
    }
}

/// Whether `effect` and the state change carry out `reply`.
pub open spec fn carries_out(reply: CommandReply, before: TuiState, after: TuiState, effect: CommandEffect) -> bool {
    let popup_kept = after.temp_output == before.temp_output;
    match reply {
        CommandReply::Popup(title, body) => effect is Nothing && after.temp_output.visible
            && after.temp_output.title@ == title && text::string_views(after.temp_output.content@)
            == text::lines(body) && after.should_quit == before.should_quit,
        CommandReply::Quit => effect is Nothing && after.should_quit && popup_kept,
        CommandReply::Interrupt => effect is Interrupt && popup_kept && after.should_quit == before.should_quit,
        CommandReply::SetModel(m) => (effect matches CommandEffect::Send(AgentCommand::SetModel(x)) && x@ == m)
            && popup_kept && after.should_quit == before.should_quit,
        CommandReply::EnableTools(b) => (effect matches CommandEffect::Send(AgentCommand::EnableTools(x)) && x == b)
            && popup_kept && after.should_quit == before.should_quit,
        CommandReply::SetSystemPrompt(p) => (effect matches CommandEffect::Send(AgentCommand::SetSystemPrompt(x)) && x@ == p)
            && popup_kept && after.should_quit == before.should_quit,
        CommandReply::ResetConversation => (effect matches CommandEffect::Send(AgentCommand::ResetConversation))
            && popup_kept && after.should_quit == before.should_quit,
        CommandReply::SetThinkingBudget(n) => (effect matches CommandEffect::Send(AgentCommand::SetThinkingBudget(x)) && x == n)
            && popup_kept && after.should_quit == before.should_quit,
        CommandReply::Report(line) => (effect matches CommandEffect::Report(x) && x@ == line) && popup_kept
            && after.should_quit == before.should_quit,
    }
}

/// Splits a slash command into its word and argument text.
pub fn command_parts(input: &Vec<char>) -> (r: (Vec<char>, Vec<char>))
    ensures
        (r.0@, r.1@) == split_command(input@),
{
    match text::find_char(input, ' ') {
        Some(i) => {
            let head = text::copy_range(input, 0, i);
            let rest = text::copy_range(input, i + 1, input.len());
            assert(head@ =~= input@.take(i as int));
            assert(rest@ =~= input@.skip(i + 1));
            let ghost sp = choose|k: int| 0 <= k < input@.len() && input@[k] == ' ' && forall|j: int| 0 <= j < k ==> input@[j] != ' ';
            assert(sp == i as int) by {
                if sp < i {
                } else if sp > i {
                    assert(input@[i as int] == ' ');
                }
            }
            (text::trim_start_matches(&head, '/'), text::trim_chars(&rest))
        },
        None => (text::trim_start_matches(input, '/'), Vec::new()),
    }
}

/// Show a command result in the temporary output
pub fn show_command_result(state: &mut TuiState, title: String, content: String)
    ensures
        final(state).temp_output.visible,
        final(state).temp_output.title == title,
        text::string_views(final(state).temp_output.content@) == text::lines(content@),
        same_editor(*old(state), *final(state)),
        same_history(*old(state), *final(state)),
        same_view(*old(state), *final(state)),
{
    state.temp_output.show(title, content);
}

fn popup(state: &mut TuiState, title: &str, content: &str)
    ensures
        final(state).temp_output.visible,
        final(state).temp_output.title@ == title@,
        text::string_views(final(state).temp_output.content@) == text::lines(content@),
        same_editor(*old(state), *final(state)),
        same_history(*old(state), *final(state)),
        same_view(*old(state), *final(state)),
{
    show_command_result(
        state,
        text::chars_to_string(&text::str_chars(title)),
        text::chars_to_string(&text::str_chars(content)),
    );
}

/// Process slash commands: updates the UI state (popups, quitting) and says
/// what else is to be done.
pub fn process_command(state: &mut TuiState, input: &str) -> (effect: CommandEffect)
    ensures
        carries_out(command_reply(input@), *old(state), *final(state), effect),
        same_editor(*old(state), *final(state)),
        same_history(*old(state), *final(state)),
        final(state).scroll_offset == old(state).scroll_offset,
        final(state).max_scroll_offset == old(state).max_scroll_offset,
        final(state).visible_height == old(state).visible_height,
        final(state).selected_agent_id == old(state).selected_agent_id,
        final(state).last_interrupt_time == old(state).last_interrupt_time,
        final(state).last_interrupt_was_process == old(state).last_interrupt_was_process,
{
    let iv = text::str_chars(input);
    let (cmd, args) = command_parts(&iv);
    if text::chars_eq_str(&cmd, "help") {
        popup(state, "Help", HELP_TEXT);
        CommandEffect::Nothing
    } else if text::chars_eq_str(&cmd, "exit") || text::chars_eq_str(&cmd, "quit") {
        state.should_quit = true;
        CommandEffect::Nothing
    } else if text::chars_eq_str(&cmd, "interrupt") {
        CommandEffect::Interrupt
    } else if text::chars_eq_str(&cmd, "model") {
        if args.len() == 0 {
            popup(state, "Error", "Model name is required");
            CommandEffect::Nothing
        } else {
            CommandEffect::Send(AgentCommand::SetModel(text::chars_to_string(&args)))
        }
    } else if text::chars_eq_str(&cmd, "tools") {
        let a = text::to_lowercase(&args);
        if text::chars_eq_str(&a, "on") || text::chars_eq_str(&a, "true") || text::chars_eq_str(&a, "yes")
            || text::chars_eq_str(&a, "1") {
            CommandEffect::Send(AgentCommand::EnableTools(true))
        } else if text::chars_eq_str(&a, "off") || text::chars_eq_str(&a, "false")
            || text::chars_eq_str(&a, "no") || text::chars_eq_str(&a, "0") {
            CommandEffect::Send(AgentCommand::EnableTools(false))
        } else {
            popup(state, "Error", "Invalid argument. Use 'on' or 'off'");
            CommandEffect::Nothing
        }
    } else if text::chars_eq_str(&cmd, "system") {
        if args.len() == 0 {
            popup(state, "Error", "System prompt is required");
            CommandEffect::Nothing
        } else {
            CommandEffect::Send(AgentCommand::SetSystemPrompt(text::chars_to_string(&args)))
        }
    } else if text::chars_eq_str(&cmd, "reset") {
        CommandEffect::Send(AgentCommand::ResetConversation)
    } else if text::chars_eq_str(&cmd, "thinking") {
        if args.len() == 0 {
            popup(state, "Error", "Thinking budget (number of tokens) is required");
            CommandEffect::Nothing
        } else {
            match text::parse_usize(&args) {
                Some(n) => CommandEffect::Send(AgentCommand::SetThinkingBudget(n)),
                None => {
                    popup(state, "Error", "Invalid number format");
                    CommandEffect::Nothing
                },
            }
        }
    } else {
        let mut m = text::str_chars("Unknown command: '");
        text::append_chars(&mut m, &iv);
        text::append_str(&mut m, "'. Type /help for available commands.");
        CommandEffect::Report(text::chars_to_string(&m))
    }
}

/// The agent text of a `#` command: without leading `#`s, trimmed.
pub open spec fn pound_arg(cmd: Seq<char>) -> Seq<char> {
    trim(trim_start_char(cmd, '#'))
}

/// The ids and names of a list of agents.
pub open spec fn agent_views(agents: Seq<(AgentId, String)>) -> Seq<(u64, Seq<char>)> {
    agents.map_values(|a: (AgentId, String)| (a.0.0, a.1@))
}

/// `k` is the first agent of `agents` with id `id`.
pub open spec fn first_with_id(agents: Seq<(u64, Seq<char>)>, id: u64, k: int) -> bool {
    0 <= k < agents.len() && agents[k].0 == id && forall|j: int| 0 <= j < k ==> agents[j].0 != id
}

/// `k` is the first agent of `agents` named `name`.
pub open spec fn first_named(agents: Seq<(u64, Seq<char>)>, name: Seq<char>, k: int) -> bool {
    0 <= k < agents.len() && agents[k].1 == name && forall|j: int| 0 <= j < k ==> agents[j].1 != name
}

/// The agent that `#` command `cmd` switches to, if any, and the message
/// that reports it, among `agents` (ids and names) of which those in
/// `readable` have an output buffer that can be read. A number selects by
/// id; other text by name.
pub open spec fn pound_outcome(cmd: Seq<char>, agents: Seq<(u64, Seq<char>)>, readable: Seq<u64>) -> (
    Option<u64>,
    Seq<char>,
) {
    let a = pound_arg(cmd);
    match parse_bounded(a, u64::MAX as int) {
        Some(n) => {
            let id = n as u64;
            if exists|k: int| first_with_id(agents, id, k) {
                let k = choose|k: int| first_with_id(agents, id, k);
                if readable.contains(id) {
                    (
                        Some(id),
                        "Switched to agent "@ + agents[k].1 + " ["@ + decimal(n) + "]"@,
                    )
                } else {
                    (Some(id), "Failed to get buffer for agent "@ + decimal(n))
                }
            } else {
                (None, "Agent with ID "@ + decimal(n) + " not found"@)
            }
        },
        None => {
            if exists|k: int| first_named(agents, a, k) {
                let k = choose|k: int| first_named(agents, a, k);
                let id = agents[k].0;
                if readable.contains(id) {
                    (Some(id), "Switched to agent "@ + a + " ["@ + decimal(id as nat) + "]"@)
                } else {
                    (Some(id), "Failed to get buffer for agent "@ + a)
                }
            } else {
                (None, "Agent '"@ + a + "' not found"@)
            }
        },
    }
}

/// The index of the first agent with id `id`.
fn find_agent_id(agents: &Vec<(AgentId, String)>, id: u64) -> (r: Option<usize>)
    ensures
        r matches Some(k) ==> first_with_id(agent_views(agents@), id, k as int),
        r is None ==> !exists|k: int| first_with_id(agent_views(agents@), id, k),
{
    let ghost av = agent_views(agents@);
    let mut i: usize = 0;
    while i < agents.len()
        invariant
            i <= agents.len(),
            av == agent_views(agents@),
            forall|j: int| 0 <= j < i ==> av[j].0 != id,
        decreases agents.len() - i,
    {
        if agents[i].0.0 == id {
            return Some(i);
        }
        i = i + 1;
    }
    None
}

/// The index of the first agent named `name`.
fn find_agent_name(agents: &Vec<(AgentId, String)>, name: &Vec<char>) -> (r: Option<usize>)
    ensures
        r matches Some(k) ==> first_named(agent_views(agents@), name@, k as int),
        r is None ==> !exists|k: int| first_named(agent_views(agents@), name@, k),
{
    let ghost av = agent_views(agents@);
    let mut i: usize = 0;
    while i < agents.len()
        invariant
            i <= agents.len(),
            av == agent_views(agents@),
            forall|j: int| 0 <= j < i ==> av[j].1 != name@,
        decreases agents.len() - i,
    {
        let n = text::str_chars(agents[i].1.as_str());
        if text::chars_eq(&n, name) {
            return Some(i);
        }
        i = i + 1;
    }
    None
}

/// Whether `id` is among `ids`.
fn contains_id(ids: &Vec<AgentId>, id: u64) -> (r: bool)
    ensures
        r == ids@.map_values(|a: AgentId| a.0).contains(id),
{
    let ghost v = ids@.map_values(|a: AgentId| a.0);
    let mut i: usize = 0;
    while i < ids.len()
        invariant
            i <= ids.len(),
            v == ids@.map_values(|a: AgentId| a.0),
            forall|j: int| 0 <= j < i ==> v[j] != id,
        decreases ids.len() - i,
    {
        if ids[i].0 == id {
            assert(v[i as int] == id);
            return true;
        }
        i = i + 1;
    }
    false
}

/// The agent that `#` command `cmd` switches to among `agents` (ids and
/// names), of which those in `readable` have an output buffer that can be
/// read, and the message that reports it.
pub fn pound_result(cmd: &str, agents: &Vec<(AgentId, String)>, readable: &Vec<AgentId>) -> (r: (
    Option<AgentId>,
    String,
))
    ensures
        ({
            let (target, message) = pound_outcome(
                cmd@,
                agent_views(agents@),
                readable@.map_values(|a: AgentId| a.0),
            );
            &&& r.0 == match target {
                Some(id) => Some(AgentId(id)),
                None => None,
            }
            &&& r.1@ == message
        }),
{
    let ghost av = agent_views(agents@);
    let ghost rv = readable@.map_values(|a: AgentId| a.0);
    let cv = text::str_chars(cmd);
    let a = text::trim_chars(&text::trim_start_matches(&cv, '#'));
    let mut message: Vec<char>;
    let switched: Option<AgentId>;
    match text::parse_u64(&a) {
        Some(n) => {
            match find_agent_id(agents, n) {
                Some(k) => {
                    switched = Some(AgentId(n));
                    if contains_id(readable, n) {
                        message = text::str_chars("Switched to agent ");
                        let name = text::str_chars(agents[k].1.as_str());
                        text::append_chars(&mut message, &name);
                        text::append_str(&mut message, " [");
                        text::append_chars(&mut message, &text::decimal_chars(n));
                        text::append_str(&mut message, "]");
                    } else {
                        message = text::str_chars("Failed to get buffer for agent ");
                        text::append_chars(&mut message, &text::decimal_chars(n));
                    }
                    proof {
                        assert(((n as nat) as u64) == n);
                        assert(first_with_id(av, n, k as int));
                        let kk = choose|kk: int| first_with_id(av, n, kk);
                        assert(kk == k) by {
                            if kk < k {
                            } else if kk > k {
                                assert(av[k as int].0 == n);
                            }
                        }
                    }
                },
                None => {
                    switched = None;
                    message = text::str_chars("Agent with ID ");
                    text::append_chars(&mut message, &text::decimal_chars(n));
                    text::append_str(&mut message, " not found");
                },
            }
        },
        None => {
            match find_agent_name(agents, &a) {
                Some(k) => {
                    let id = agents[k].0.0;
                    assert(id == av[k as int].0);
                    switched = Some(AgentId(id));
                    if contains_id(readable, id) {
                        message = text::str_chars("Switched to agent ");
                        text::append_chars(&mut message, &a);
                        text::append_str(&mut message, " [");
                        text::append_chars(&mut message, &text::decimal_chars(id));
                        text::append_str(&mut message, "]");
                    } else {
                        message = text::str_chars("Failed to get buffer for agent ");
                        text::append_chars(&mut message, &a);
                    }
                    proof {
                        assert(first_named(av, a@, k as int));
                        let kk = choose|kk: int| first_named(av, a@, kk);
                        assert(kk == k) by {
                            if kk < k {
                            } else if kk > k {
                                assert(av[k as int].1 == a@);
                            }
                        }
                    }
                },
                None => {
                    switched = None;
                    message = text::str_chars("Agent '");
                    text::append_chars(&mut message, &a);
                    text::append_str(&mut message, "' not found");
                },
            }
        },
    }
    (switched, text::chars_to_string(&message))
}

/// Handle a `#` command for agent switching among `agents` (ids and names),
/// of which those in `readable` have an output buffer that can be read:
/// selects the agent the command names and reports the result in a popup
/// titled with the command. The agent switched to comes back, for the
/// application to show its output.
pub fn handle_pound_command(
    state: &mut TuiState,
    cmd: &str,
    agents: &Vec<(AgentId, String)>,
    readable: &Vec<AgentId>,
) -> (switched: Option<AgentId>)
    ensures
        ({
            let (target, message) = pound_outcome(
                cmd@,
                agent_views(agents@),
                readable@.map_values(|a: AgentId| a.0),
            );
            &&& switched == match target {
                Some(id) => Some(AgentId(id)),
                None => None,
            }
            &&& final(state).selected_agent_id == match target {
                Some(id) => AgentId(id),
                None => old(state).selected_agent_id,
            }
            &&& final(state).temp_output.visible
            &&& final(state).temp_output.title@ == "Agent Selection: "@ + cmd@
            &&& text::string_views(final(state).temp_output.content@) == text::lines(message)
        }),
        same_editor(*old(state), *final(state)),
        same_history(*old(state), *final(state)),
        final(state).should_quit == old(state).should_quit,
        final(state).scroll_offset == old(state).scroll_offset,
        final(state).max_scroll_offset == old(state).max_scroll_offset,
        final(state).visible_height == old(state).visible_height,
        final(state).last_interrupt_time == old(state).last_interrupt_time,
        final(state).last_interrupt_was_process == old(state).last_interrupt_was_process,
{
    let (switched, message) = pound_result(cmd, agents, readable);
    let mut title = text::str_chars("Agent Selection: ");
    text::append_str(&mut title, cmd);
    match switched {
        Some(id) => {
            state.selected_agent_id = id;
        },
        None => {},
    }
    show_command_result(state, text::chars_to_string(&title), message);
    switched
}

} // verus!
