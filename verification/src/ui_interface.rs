//! The terminal interface as one module: its temporary output, command
//! suggestions, state and key handling. Unlike [`crate::tui`], it hands
//! slash commands to the agent as they are typed and shows no popups for
//! Ctrl+C or agent selection.
use vstd::prelude::*;
use crate::agent::{AgentId, AgentState};
use crate::text::{self, char_bytes, is_char_boundary, lines, starts_with, utf8_len};
use crate::tui::commands::{agent_views, pound_outcome, pound_result};
use crate::tui::events::{
    agent_busy, history_after, insert_at, push_history, remove_at, second_press, word_left,
    word_left_pos, word_right, word_right_pos, KeyCode, KeyEvent, KeyModifiers, MouseEventKind,
    DOUBLE_PRESS_WINDOW_MS,
};
use crate::tui::popup::commands::{
    copy_suggestions, filter_suggestions, next_index, suggestion_views, suggestions_for,
};
use crate::tui::popup::temporary::{count_display_lines, display_lines};
pub use crate::tui::popup::commands::CommandSuggestion;

verus! {

/// Maximum number of lines to keep in the conversation history view
pub const MAX_HISTORY_LINES: usize = 1000;

/// Temporary output window that overlays the input area and can grow upward
pub struct TemporaryOutput {
    /// Title of the output window
    pub title: String,
    /// Content lines of the output
    pub content: Vec<String>,
    /// Whether the output is visible
    pub visible: bool,
    /// Maximum number of lines to display
    pub max_lines: usize,
}

impl TemporaryOutput {
    /// Create a new temporary output, hidden and empty, at most 20 lines high
    pub fn new() -> (r: Self)
        ensures
            r.title@.len() == 0,
            r.content@.len() == 0,
            !r.visible,
            r.max_lines == 20,
    {
        Self {
            title: text::chars_to_string(&Vec::new()),
            content: Vec::new(),
            visible: false,
            max_lines: 20,
        }
    }

    /// Count the number of lines needed to display content wrapped at `width`
    pub fn count_lines(&self, width: u16) -> (r: usize)
        requires
            width > 0,
            display_lines(text::string_views(self.content@), width as nat) <= usize::MAX,
        ensures
            r == display_lines(text::string_views(self.content@), width as nat),
    {
        count_display_lines(&self.content, width)
    }

    /// Hide the output (`hide` is a word of Verus)
    pub fn dismiss(&mut self)
        ensures
            !final(self).visible,
            final(self).title == old(self).title,
            final(self).content == old(self).content,
            final(self).max_lines == old(self).max_lines,
    {
        self.visible = false;
    }

    /// Show output with new content, split into lines
    pub fn show(&mut self, title: String, content: String)
        ensures
            final(self).visible,
            final(self).title == title,
            text::string_views(final(self).content@) == lines(content@),
            final(self).max_lines == old(self).max_lines,
    {
        self.title = title;
        self.content = text::line_strings(content.as_str());
        self.visible = true;
    }
}

/// Command suggestions popup for auto-completion
pub struct CommandSuggestionsPopup {
    /// List of all available commands
    pub all_commands: Vec<CommandSuggestion>,
    /// Filtered commands matching the current input
    pub filtered_commands: Vec<CommandSuggestion>,
    /// Currently selected command index
    pub selected_index: usize,
    /// Whether the popup is visible
    pub visible: bool,
}

/// The commands that the popup offers, with their descriptions.
pub open spec fn offered_commands() -> Seq<(Seq<char>, Seq<char>)> {
    seq![
        ("/help"@, "Show available commands"@),
        ("/exit"@, "Exit the application"@),
        ("/quit"@, "Exit the application"@),
        ("/interrupt"@, "Interrupt the current agent"@),
        ("/model"@, "Set the model for the current agent"@),
        ("/tools"@, "Enable or disable tools"@),
        ("/system"@, "Set the system prompt"@),
        ("/reset"@, "Reset the conversation"@),
    ]
}


/// Each offered command name is short: its encoding takes at most 40
/// bytes.
pub proof fn lemma_offered_names_fit()
    ensures
        forall|i: int|
            0 <= i < offered_commands().len() ==> utf8_len(#[trigger] offered_commands()[i].0) <= 40,
{
    reveal_strlit("/help");
    reveal_strlit("/exit");
    reveal_strlit("/quit");
    reveal_strlit("/interrupt");
    reveal_strlit("/model");
    reveal_strlit("/tools");
    reveal_strlit("/system");
    reveal_strlit("/reset");
    assert forall|i: int|
        0 <= i < offered_commands().len() implies utf8_len(#[trigger] offered_commands()[i].0)
        <= 40 by {
        text::lemma_utf8_len_bound(offered_commands()[i].0);
    }
}

impl CommandSuggestionsPopup {
    /// Create a new command suggestions popup, hidden, offering all commands
    pub fn new() -> (r: Self)
        ensures
            suggestion_views(r.all_commands@) == offered_commands(),
            suggestion_views(r.filtered_commands@) == offered_commands(),
            r.selected_index == 0,
            !r.visible,
    {
        let mut all: Vec<CommandSuggestion> = Vec::new();
        all.push(CommandSuggestion::make("/help", "Show available commands"));
        all.push(CommandSuggestion::make("/exit", "Exit the application"));
        all.push(CommandSuggestion::make("/quit", "Exit the application"));
        all.push(CommandSuggestion::make("/interrupt", "Interrupt the current agent"));
        all.push(CommandSuggestion::make("/model", "Set the model for the current agent"));
        all.push(CommandSuggestion::make("/tools", "Enable or disable tools"));
        all.push(CommandSuggestion::make("/system", "Set the system prompt"));
        all.push(CommandSuggestion::make("/reset", "Reset the conversation"));
        assert(suggestion_views(all@) =~= offered_commands());
        let filtered = copy_suggestions(&all);
        Self { all_commands: all, filtered_commands: filtered, selected_index: 0, visible: false }
    }

    /// Show the suggestions popup and filter based on current input
    pub fn show(&mut self, current_input: &str)
        ensures
            final(self).visible,
            suggestion_views(final(self).all_commands@) == suggestion_views(old(self).all_commands@),
            suggestion_views(final(self).filtered_commands@) == suggestions_for(
                suggestion_views(old(self).all_commands@),
                current_input@,
            ),
            final(self).selected_index == 0,
    {
        self.visible = true;
        self.update_suggestions(current_input);
    }

    /// Hide the suggestions popup (`hide` is a word of Verus)
    pub fn dismiss(&mut self)
        ensures
            !final(self).visible,
            final(self).all_commands == old(self).all_commands,
            final(self).filtered_commands == old(self).filtered_commands,
            final(self).selected_index == old(self).selected_index,
    {
        self.visible = false;
    }

    /// Update filtered suggestions based on current input
    pub fn update_suggestions(&mut self, current_input: &str)
        ensures
            final(self).visible == old(self).visible,
            suggestion_views(final(self).all_commands@) == suggestion_views(old(self).all_commands@),
            suggestion_views(final(self).filtered_commands@) == suggestions_for(
                suggestion_views(old(self).all_commands@),
                current_input@,
            ),
            final(self).selected_index == 0,
    {
        self.filtered_commands = filter_suggestions(&self.all_commands, current_input);
        self.selected_index = 0;
    }

    /// Select the next suggestion, wrapping to the first
    pub fn next(&mut self)
        requires
            old(self).filtered_commands@.len() > 0 ==> old(self).selected_index < usize::MAX,
        ensures
            final(self).visible == old(self).visible,
            final(self).all_commands == old(self).all_commands,
            final(self).filtered_commands == old(self).filtered_commands,
            old(self).filtered_commands@.len() > 0 ==> final(self).selected_index == next_index(
                old(self).selected_index as int,
                old(self).filtered_commands@.len() as int,
            ),
            old(self).filtered_commands@.len() == 0 ==> final(self).selected_index == old(
                self,
            ).selected_index,
    {
        if self.filtered_commands.len() > 0 {
            self.selected_index = (self.selected_index + 1) % self.filtered_commands.len();
        }
    }

    /// Get the currently selected command if any
    pub fn selected_command(&self) -> (r: Option<&CommandSuggestion>)
        ensures
            self.selected_index < self.filtered_commands@.len() ==> r == Some(
                &self.filtered_commands@[self.selected_index as int],
            ),
            self.selected_index >= self.filtered_commands@.len() ==> r is None,
    {
        if self.filtered_commands.len() == 0 {
            None
        } else if self.selected_index < self.filtered_commands.len() {
            Some(&self.filtered_commands[self.selected_index])
        } else {
            None
        }
    }
}





/// State for the TUI application
pub struct TuiState {
    /// Input being typed by the user
    pub input: String,
    /// Cursor position in the input field, in bytes
    pub cursor_position: usize,
    /// Currently selected agent ID
    pub selected_agent_id: AgentId,
    /// Whether the application should exit
    pub should_quit: bool,
    /// Command mode indicator (when input starts with '/')
    pub command_mode: bool,
    /// Pound command mode indicator (when input starts with '#')
    pub pound_command_mode: bool,
    /// When Ctrl+C was last pressed, in milliseconds (for double-press exit)
    pub last_interrupt_time: Option<u64>,
    /// Whether the last Ctrl+C was used to interrupt an agent/shell
    pub last_interrupt_was_process: bool,
    /// Scroll offset for the conversation view (0 = top of conversation)
    pub scroll_offset: usize,
    /// Maximum scroll offset based on content and view size
    pub max_scroll_offset: usize,
    /// Visible content height in lines
    pub visible_height: usize,
    /// Temporary output window that grows upward from the input area
    pub temp_output: TemporaryOutput,
    /// Command suggestions popup for auto-completion
    pub command_suggestions: CommandSuggestionsPopup,
    /// Command history for navigating previous inputs
    pub command_history: Vec<String>,
    /// Current position in command history (-1 means not navigating history)
    pub history_index: isize,
    /// Current input before history navigation began
    pub current_input: Option<String>,
}

/// The scroll offset after scrolling by `delta` lines from `offset`, kept
/// within `[0, max]`.
pub open spec fn scrolled(offset: int, delta: int, max: int) -> int {
    let moved = if delta < 0 {
        if offset + delta < 0 {
            0
        } else {
            offset + delta
        }
    } else {
        if offset + delta > usize::MAX {
            usize::MAX as int
        } else {
            offset + delta
        }
    };
    if moved < max {
        moved
    } else {
        max
    }
}

/// Lines the input box needs for `input` at a terminal of `width` columns:
/// wrapped lines or lines separated by newlines, whichever is more, at most
/// 10; counts are taken as `u16` as the terminal library takes them.
pub open spec fn input_height(input: Seq<char>, width: int) -> int {
    let avail = if width >= 2 {
        width - 2
    } else {
        0
    };
    let chars = (input.len() as u16) as int;
    if chars == 0 {
        1
    } else {
        let wrapped = chars / avail + if chars % avail > 0 {
            1int
        } else {
            0int
        };
        let needed = if wrapped < 1 {
            1
        } else {
            wrapped
        };
        let nl = (count_char(input, '\n') as u16) as int;
        let h = if needed > nl + 1 {
            needed
        } else {
            nl + 1
        };
        if h < 10 {
            h
        } else {
            10
        }
    }
}

/// Number of occurrences of `c` in `s`.
pub open spec fn count_char(s: Seq<char>, c: char) -> nat
    decreases s.len(),
{
    if s.len() == 0 {
        0
    } else {
        count_char(s.drop_last(), c) + if s.last() == c {
            1nat
        } else {
            0nat
        }
    }
}

fn count_newlines(s: &Vec<char>) -> (r: usize)
    ensures
        r == count_char(s@, '\n'),
{
    let mut n: usize = 0;
    let mut i: usize = 0;
    while i < s.len()
        invariant
            i <= s.len(),
            n == count_char(s@.take(i as int), '\n'),
            n <= i,
        decreases s.len() - i,
    {
        assert(s@.take(i + 1).drop_last() =~= s@.take(i as int));
        if s[i] == '\n' {
            n = n + 1;
        }
        i = i + 1;
    }
    assert(s@.take(s.len() as int) =~= s@);
    n
}

/// The display text of an agent state for the header: the modes first,
/// then the agent's own state text, else "Ready".
pub open spec fn state_text(command_mode: bool, pound_mode: bool, agent_state: Option<Seq<char>>) -> Seq<
    char,
> {
    if command_mode {
        "Command Mode"@
    } else if pound_mode {
        "Agent Selection Mode"@
    } else {
        match agent_state {
            Some(s) => s,
            None => "Ready"@,
        }
    }
}

/// The emoji shown for an agent state.
pub open spec fn state_indicator(state: AgentState) -> Seq<char> {
    match state {
        AgentState::Idle => "🟢"@,
        AgentState::Processing => "🤔"@,
        AgentState::RunningTool { .. } => "🔧"@,
        AgentState::Terminated => "⛔"@,
        AgentState::Done(_) => "✅"@,
    }
}

/// The command modes and the suggestions popup as they follow from `input`,
/// given whether command mode was on and the popup before: in command mode
/// the suggestions for `input` from the first, shown where the popup was
/// shown, command mode has just begun or the input is one byte long; out of
/// it the popup hidden and left as it was.
pub open spec fn mode_follows(
    was_command_mode: bool,
    popup: CommandSuggestionsPopup,
    input: Seq<char>,
    after: TuiState,
) -> bool {
    &&& after.command_mode == starts_with(input, seq!['/'])
    &&& after.pound_command_mode == starts_with(input, seq!['#'])
    &&& suggestion_views(after.command_suggestions.all_commands@) == suggestion_views(
        popup.all_commands@,
    )
    &&& after.command_mode ==> {
        &&& suggestion_views(after.command_suggestions.filtered_commands@) == suggestions_for(
            suggestion_views(popup.all_commands@),
            input,
        )
        &&& after.command_suggestions.selected_index == 0
        &&& after.command_suggestions.visible == (popup.visible || !was_command_mode || utf8_len(
            input,
        ) == 1)
    }
    &&& !after.command_mode ==> {
        &&& !after.command_suggestions.visible
        &&& after.command_suggestions.filtered_commands == popup.filtered_commands
        &&& after.command_suggestions.selected_index == popup.selected_index
    }
}

/// `a` and `b` have the same command history and place in it.
pub open spec fn same_history(a: TuiState, b: TuiState) -> bool {
    &&& a.command_history == b.command_history
    &&& a.history_index == b.history_index
    &&& a.current_input == b.current_input
}

/// `a` and `b` agree on scrolling, quitting, the selected agent and the
/// Ctrl+C timer.
pub open spec fn same_view(a: TuiState, b: TuiState) -> bool {
    &&& a.scroll_offset == b.scroll_offset
    &&& a.max_scroll_offset == b.max_scroll_offset
    &&& a.visible_height == b.visible_height
    &&& a.should_quit == b.should_quit
    &&& a.selected_agent_id == b.selected_agent_id
    &&& a.last_interrupt_time == b.last_interrupt_time
    &&& a.last_interrupt_was_process == b.last_interrupt_was_process
}

/// `a` and `b` have the same input line, cursor, modes and suggestions.
pub open spec fn same_editor(a: TuiState, b: TuiState) -> bool {
    &&& a.input == b.input
    &&& a.cursor_position == b.cursor_position
    &&& a.command_mode == b.command_mode
    &&& a.pound_command_mode == b.pound_command_mode
    &&& a.command_suggestions == b.command_suggestions
}

impl TuiState {
    /// Create a new TUI state: empty input, nothing scrolled, no popups, no
    /// history.
    pub fn new(selected_agent_id: AgentId) -> (r: Self)
        ensures
            r.input@.len() == 0,
            r.cursor_position == 0,
            r.selected_agent_id == selected_agent_id,
            !r.should_quit,
            !r.command_mode,
            !r.pound_command_mode,
            r.last_interrupt_time is None,
            !r.last_interrupt_was_process,
            r.scroll_offset == 0,
            r.max_scroll_offset == 0,
            r.visible_height == 0,
            !r.temp_output.visible,
            r.temp_output.content@.len() == 0,
            !r.command_suggestions.visible,
            r.command_suggestions.selected_index == 0,
            r.command_history@.len() == 0,
            r.history_index == -1,
            r.current_input is None,
            suggestion_views(r.command_suggestions.all_commands@) == offered_commands(),
            suggestion_views(r.command_suggestions.filtered_commands@) == offered_commands(),
            r.temp_output.title@.len() == 0,
            strings_fit(r),
    {
        let popup = CommandSuggestionsPopup::new();
        proof {
            lemma_offered_names_fit();
            assert forall|i: int| 0 <= i < popup.filtered_commands@.len() implies utf8_len(
                #[trigger] popup.filtered_commands@[i].name@,
            ) < usize::MAX by {
                assert(suggestion_views(popup.filtered_commands@).len() == popup.filtered_commands@.len());
                assert(suggestion_views(popup.filtered_commands@)[i] == popup.filtered_commands@[i]@);
                assert(offered_commands()[i].0 == popup.filtered_commands@[i].name@);
                assert(utf8_len(offered_commands()[i].0) <= 40);
            }
        }
        let r = Self {
            input: text::chars_to_string(&Vec::new()),
            cursor_position: 0,
            selected_agent_id,
            should_quit: false,
            command_mode: false,
            pound_command_mode: false,
            last_interrupt_time: None,
            last_interrupt_was_process: false,
            scroll_offset: 0,
            max_scroll_offset: 0,
            visible_height: 0,
            temp_output: TemporaryOutput::new(),
            command_suggestions: popup,
            command_history: Vec::new(),
            history_index: -1,
            current_input: None,
        };
        assert(r.input@ =~= Seq::<char>::empty());
        r
    }

    /// Sets the command modes from the input's first character and shows,
    /// refilters or hides the command suggestions accordingly.
    pub fn update_command_mode(&mut self)
        ensures
            mode_follows(
                old(self).command_mode,
                old(self).command_suggestions,
                old(self).input@,
                *final(self),
            ),
            final(self).input == old(self).input,
            final(self).cursor_position == old(self).cursor_position,
            final(self).temp_output == old(self).temp_output,
            same_history(*old(self), *final(self)),
            same_view(*old(self), *final(self)),
    {
        let was_command_mode = self.command_mode;
        let chars = text::str_chars(self.input.as_str());
        self.command_mode = chars.len() > 0 && chars[0] == '/';
        self.pound_command_mode = chars.len() > 0 && chars[0] == '#';
        proof {
            if chars.len() > 0 {
                assert(chars@.take(1) =~= seq![chars@[0]]);
                assert(seq![chars@[0]][0] == chars@[0]);
            }
            assert(self.command_mode == starts_with(chars@, seq!['/']));
            assert(self.pound_command_mode == starts_with(chars@, seq!['#']));
        }
        if self.command_mode {
            let one_byte = match text::utf8_length(&chars) {
                Some(n) => n == 1,
                None => false,
            };
            if !was_command_mode || one_byte {
                self.command_suggestions.show(self.input.as_str());
            } else {
                self.command_suggestions.update_suggestions(self.input.as_str());
            }
        } else {
            self.command_suggestions.dismiss();
        }
    }

    /// Ensures the selected agent is one of `agents`; otherwise selects the
    /// first of them, if there is one. Returns whether the selection moved.
    pub fn ensure_selected_agent_valid(&mut self, agents: &Vec<AgentId>) -> (moved: bool)
        ensures
            agents@.contains(old(self).selected_agent_id) ==> !moved && final(self).selected_agent_id
                == old(self).selected_agent_id,
            !agents@.contains(old(self).selected_agent_id) && agents@.len() > 0 ==> moved
                && final(self).selected_agent_id == agents@[0],
            agents@.len() == 0 ==> !moved && final(self).selected_agent_id == old(
                self,
            ).selected_agent_id,
    {
        let mut i: usize = 0;
        while i < agents.len()
            invariant
                i <= agents.len(),
                forall|j: int| 0 <= j < i ==> agents@[j] != self.selected_agent_id,
            decreases agents.len() - i,
        {
            if agents[i].0 == self.selected_agent_id.0 {
                assert(agents@[i as int] == self.selected_agent_id);
                return false;
            }
            i = i + 1;
        }
        if agents.len() > 0 {
            self.selected_agent_id = agents[0];
            true
        } else {
            false
        }
    }

    /// Updates the scroll bounds for a conversation of `total_lines` lines;
    /// a view at the newest lines follows them.
    pub fn update_scroll(&mut self, total_lines: usize)
        ensures
            final(self).max_scroll_offset == if total_lines > old(self).visible_height {
                total_lines - old(self).visible_height
            } else {
                0
            },
            old(self).scroll_offset == old(self).max_scroll_offset ==> final(self).scroll_offset
                == final(self).max_scroll_offset,
            old(self).scroll_offset != old(self).max_scroll_offset ==> final(self).scroll_offset
                == if old(self).scroll_offset > final(self).max_scroll_offset {
                final(self).max_scroll_offset
            } else {
                old(self).scroll_offset
            },
            final(self).visible_height == old(self).visible_height,
            final(self).input == old(self).input,
    {
        let new_max = if total_lines > self.visible_height {
            total_lines - self.visible_height
        } else {
            0
        };
        let was_at_most_recent = self.scroll_offset == self.max_scroll_offset;
        self.max_scroll_offset = new_max;
        if was_at_most_recent {
            self.scroll_offset = self.max_scroll_offset;
        } else if self.scroll_offset > self.max_scroll_offset {
            self.scroll_offset = self.max_scroll_offset;
        }
    }

    /// Scroll the conversation view by `delta` lines, within the bounds
    pub fn scroll(&mut self, delta: isize)
        requires
            delta != isize::MIN,
        ensures
            final(self).scroll_offset == scrolled(
                old(self).scroll_offset as int,
                delta as int,
                old(self).max_scroll_offset as int,
            ),
            final(self).max_scroll_offset == old(self).max_scroll_offset,
            final(self).visible_height == old(self).visible_height,
            final(self).should_quit == old(self).should_quit,
            final(self).selected_agent_id == old(self).selected_agent_id,
            final(self).last_interrupt_time == old(self).last_interrupt_time,
            final(self).last_interrupt_was_process == old(self).last_interrupt_was_process,
            same_editor(*old(self), *final(self)),
            same_history(*old(self), *final(self)),
            final(self).temp_output == old(self).temp_output,
    {
        let new_offset = if delta < 0 {
            let d = (-delta) as usize;
            self.scroll_offset.saturating_sub(d)
        } else {
            self.scroll_offset.saturating_add(delta as usize)
        };
        self.scroll_offset = if new_offset < self.max_scroll_offset {
            new_offset
        } else {
            self.max_scroll_offset
        };
    }

    /// Scroll to the bottom of the conversation (most recent messages)
    pub fn scroll_to_bottom(&mut self)
        ensures
            final(self).scroll_offset == old(self).max_scroll_offset,
            final(self).max_scroll_offset == old(self).max_scroll_offset,
            final(self).visible_height == old(self).visible_height,
            final(self).should_quit == old(self).should_quit,
            final(self).selected_agent_id == old(self).selected_agent_id,
            final(self).last_interrupt_time == old(self).last_interrupt_time,
            final(self).last_interrupt_was_process == old(self).last_interrupt_was_process,
            same_editor(*old(self), *final(self)),
            same_history(*old(self), *final(self)),
            final(self).temp_output == old(self).temp_output,
    {
        self.scroll_offset = self.max_scroll_offset;
    }

    /// Calculate the number of lines needed for the input text, at a
    /// terminal of the given width (80 columns where it is unknown)
    pub fn calculate_input_height(&self, terminal_width: Option<u16>) -> (r: u16)
        requires
            match terminal_width {
                Some(w) => w > 2,
                None => true,
            },
            #[verifier::truncate] (count_char(self.input@, '\n') as u16) != u16::MAX,
        ensures
            r == input_height(
                self.input@,
                match terminal_width {
                    Some(w) => w as int,
                    None => 80,
                },
            ),
    {
        let width: u16 = match terminal_width {
            Some(w) => w,
            None => 80,
        };
        let available = width - 2;
        let chars = text::str_chars(self.input.as_str());
        let input_chars = #[verifier::truncate] (chars.len() as u16);
        if input_chars == 0 {
            return 1;
        }
        assert(input_chars % available > 0 ==> input_chars / available < u16::MAX) by (nonlinear_arith)
            requires
                available >= 1,
        ;
        let wrapped = input_chars / available + if input_chars % available > 0 {
            1u16
        } else {
            0u16
        };
        let needed = if wrapped < 1 {
            1
        } else {
            wrapped
        };
        let newlines = #[verifier::truncate] (count_newlines(&chars) as u16);
        let h = if needed > newlines + 1 {
            needed
        } else {
            newlines + 1
        };
        if h < 10 {
            h
        } else {
            10
        }
    }

    /// Get a string representation of the selected agent's state, given the
    /// agent's own state text where it could be read
    pub fn get_agent_state_string(&self, agent_state: Option<String>) -> (r: String)
        ensures
            r@ == state_text(
                self.command_mode,
                self.pound_command_mode,
                match agent_state {
                    Some(s) => Some(s@),
                    None => None,
                },
            ),
    {
        if self.command_mode {
            return text::chars_to_string(&text::str_chars("Command Mode"));
        }
        if self.pound_command_mode {
            return text::chars_to_string(&text::str_chars("Agent Selection Mode"));
        }
        match agent_state {
            Some(s) => s,
            None => text::chars_to_string(&text::str_chars("Ready")),
        }
    }

    /// Get an emoji indicator for agent state
    pub fn get_state_indicator(state: &AgentState) -> (r: &'static str)
        ensures
            r@ == state_indicator(*state),
    {
        match state {
            AgentState::Idle => "🟢",
            AgentState::Processing => "🤔",
            AgentState::RunningTool { .. } => "🔧",
            AgentState::Terminated => "⛔",
            AgentState::Done(_) => "✅",
        }
    }
}


// ---------------------------------------------------------------------------
// Key handling
// ---------------------------------------------------------------------------

/// What the application does after a key press.
pub enum InterfaceOutcome {
    /// Nothing more
    Handled,
    /// Ctrl+C: run the interrupt handling with the clock and the agent's state
    CtrlC,
    /// A slash command and the line that shows it in the agent's output
    /// (`Command: ` and the command): show the line, then send the command
    /// to the agent
    Command(String, String),
    /// Select an agent as this `#` command asks
    Pound(String),
    /// Send this input to the selected agent
    Send(String),
}

/// Every string of the state has a byte length below `usize::MAX`, as any
/// string in memory has.
pub open spec fn strings_fit(s: TuiState) -> bool {
    &&& utf8_len(s.input@) < usize::MAX
    &&& forall|i: int|
        0 <= i < s.command_history@.len() ==> utf8_len(#[trigger] s.command_history@[i]@)
            < usize::MAX
    &&& forall|i: int|
        0 <= i < s.command_suggestions.filtered_commands@.len() ==> utf8_len(
            #[trigger] s.command_suggestions.filtered_commands@[i].name@,
        ) < usize::MAX
    &&& s.current_input matches Some(ci) ==> utf8_len(ci@) < usize::MAX
}

/// The command history keeps at most 100 entries, and the place in it is -1
/// (not navigating) or an index of an entry counted from the newest.
pub open spec fn history_ok(s: TuiState) -> bool {
    &&& -1 <= s.history_index < s.command_history@.len()
    &&& s.command_history@.len() <= 100
}

/// Only the input line and cursor changed, to `input` and `cursor`.
pub open spec fn typed(old: TuiState, new: TuiState, input: Seq<char>, cursor: int) -> bool {
    &&& new.input@ == input
    &&& new.cursor_position == cursor
    &&& new.command_mode == old.command_mode
    &&& new.pound_command_mode == old.pound_command_mode
    &&& new.command_suggestions == old.command_suggestions
    &&& new.temp_output == old.temp_output
    &&& same_history(old, new)
    &&& same_view(old, new)
}

/// The input line and cursor changed to `input` and `cursor`, and the
/// command modes and suggestions followed the new input.
pub open spec fn edited(old: TuiState, new: TuiState, input: Seq<char>, cursor: int) -> bool {
    &&& new.input@ == input
    &&& new.cursor_position == cursor
    &&& mode_follows(old.command_mode, old.command_suggestions, input, new)
    &&& new.temp_output == old.temp_output
    &&& same_history(old, new)
    &&& same_view(old, new)
}

/// Only the cursor moved, to `cursor`.
pub open spec fn moved(old: TuiState, new: TuiState, cursor: int) -> bool {
    &&& new.cursor_position == cursor
    &&& new.input == old.input
    &&& new.command_mode == old.command_mode
    &&& new.pound_command_mode == old.pound_command_mode
    &&& new.command_suggestions == old.command_suggestions
    &&& new.temp_output == old.temp_output
    &&& same_history(old, new)
    &&& same_view(old, new)
}

/// Nothing changed.
pub open spec fn unchanged(old: TuiState, new: TuiState) -> bool {
    &&& same_editor(old, new)
    &&& new.temp_output == old.temp_output
    &&& same_history(old, new)
    &&& same_view(old, new)
}

/// Only the scroll offset changed, to `offset`.
pub open spec fn scrolled_to(old: TuiState, new: TuiState, offset: int) -> bool {
    &&& new.scroll_offset == offset
    &&& new.max_scroll_offset == old.max_scroll_offset
    &&& new.visible_height == old.visible_height
    &&& new.should_quit == old.should_quit
    &&& new.selected_agent_id == old.selected_agent_id
    &&& new.last_interrupt_time == old.last_interrupt_time
    &&& new.last_interrupt_was_process == old.last_interrupt_was_process
    &&& same_editor(old, new)
    &&& new.temp_output == old.temp_output
    &&& same_history(old, new)
}

/// Puts `c` into the input at the cursor and moves the cursor past it.
fn insert_at_cursor(state: &mut TuiState, c: char)
    requires
        is_char_boundary(old(state).input@, old(state).cursor_position as int),
        utf8_len(old(state).input@) < usize::MAX,
    ensures
        typed(
            *old(state),
            *final(state),
            insert_at(old(state).input@, old(state).cursor_position as int, c),
            old(state).cursor_position + 1,
        ),
{
    let cs = text::str_chars(state.input.as_str());
    let p = state.cursor_position;
    let k = match text::char_index_at_byte(&cs, p) {
        Some(k) => k,
        None => {
            return ;
        },
    };
    proof {
        text::lemma_utf8_len_mono(cs@, k as int, cs@.len() as int);
        assert(cs@.take(cs@.len() as int) =~= cs@);
    }
    let mut nv = text::copy_range(&cs, 0, k);
    nv.push(c);
    let tail = text::copy_range(&cs, k, cs.len());
    text::append_chars(&mut nv, &tail);
    assert(nv@ =~= insert_at(cs@, p as int, c));
    state.input = text::chars_to_string(&nv);
    state.cursor_position = p + 1;
}

/// Takes out the character that starts at byte `p` of the input.
fn remove_at_byte(state: &mut TuiState, p: usize)
    requires
        is_char_boundary(old(state).input@, p as int),
        p < utf8_len(old(state).input@),
    ensures
        typed(*old(state), *final(state), remove_at(old(state).input@, p as int), old(state).cursor_position as int),
{
    let cs = text::str_chars(state.input.as_str());
    let k = match text::char_index_at_byte(&cs, p) {
        Some(k) => k,
        None => {
            return ;
        },
    };
    proof {
        if k == cs.len() {
            assert(cs@.take(k as int) =~= cs@);
        }
    }
    let mut nv = text::copy_range(&cs, 0, k);
    let tail = text::copy_range(&cs, k + 1, cs.len());
    text::append_chars(&mut nv, &tail);
    assert(nv@ =~= remove_at(cs@, p as int));
    state.input = text::chars_to_string(&nv);
}

// ---------------------------------------------------------------------------
// The key handler
// ---------------------------------------------------------------------------

/// Enter while the temporary output shows: it is dismissed, and the input,
/// command mode and suggestions are cleared.
pub open spec fn enter_dismissed(old: TuiState, new: TuiState) -> bool {
    &&& !new.temp_output.visible
    &&& new.temp_output.title == old.temp_output.title
    &&& new.temp_output.content == old.temp_output.content
    &&& new.input@.len() == 0
    &&& new.cursor_position == 0
    &&& !new.command_mode
    &&& new.pound_command_mode == old.pound_command_mode
    &&& !new.command_suggestions.visible
    &&& new.command_suggestions.all_commands == old.command_suggestions.all_commands
    &&& new.command_suggestions.filtered_commands == old.command_suggestions.filtered_commands
    &&& new.command_suggestions.selected_index == old.command_suggestions.selected_index
    &&& same_history(old, new)
    &&& same_view(old, new)
}

/// Enter submits the input: it joins the history, the input clears, and a
/// slash command is handed to the agent as it is (shown in its output), a
/// `#` command handed on, other text sent to the agent.
pub open spec fn submitted(old: TuiState, new: TuiState, out: InterfaceOutcome) -> bool {
    let x = old.input@;
    &&& new.input@.len() == 0
    &&& new.cursor_position == 0
    &&& new.history_index == -1
    &&& new.current_input is None
    &&& new.command_suggestions == old.command_suggestions
    &&& new.scroll_offset == old.scroll_offset
    &&& new.max_scroll_offset == old.max_scroll_offset
    &&& new.visible_height == old.visible_height
    &&& new.selected_agent_id == old.selected_agent_id
    &&& new.last_interrupt_time == old.last_interrupt_time
    &&& new.last_interrupt_was_process == old.last_interrupt_was_process
    &&& if x.len() == 0 {
        &&& out is Handled
        &&& new.command_history == old.command_history
        &&& new.command_mode == old.command_mode
        &&& new.pound_command_mode == old.pound_command_mode
        &&& new.temp_output == old.temp_output
        &&& new.should_quit == old.should_quit
    } else {
        &&& text::string_views(new.command_history@) == history_after(
            text::string_views(old.command_history@),
            x,
        )
        &&& if x[0] == '/' {
            &&& (out matches InterfaceOutcome::Command(y, line) && y@ == x && line@
                == "Command: "@ + x)
            &&& !new.command_mode
            &&& new.pound_command_mode == old.pound_command_mode
            &&& new.temp_output == old.temp_output
            &&& new.should_quit == old.should_quit
        } else if x[0] == '#' {
            &&& (out matches InterfaceOutcome::Pound(y) && y@ == x)
            &&& new.command_mode == old.command_mode
            &&& !new.pound_command_mode
            &&& new.temp_output == old.temp_output
            &&& new.should_quit == old.should_quit
        } else {
            &&& (out matches InterfaceOutcome::Send(y) && y@ == x)
            &&& new.command_mode == old.command_mode
            &&& new.pound_command_mode == old.pound_command_mode
            &&& new.temp_output == old.temp_output
            &&& new.should_quit == old.should_quit
        }
    }
}

/// Tab in command mode with suggestions shown completes the input to the
/// selected suggestion: with one suggestion left it adds a space and hides
/// them, else it selects the next.
pub open spec fn tab_completed(old: TuiState, new: TuiState) -> bool {
    let pop = old.command_suggestions;
    let sel = pop.selected_index as int;
    let f = pop.filtered_commands@;
    if old.temp_output.visible || !old.command_mode || !pop.visible || sel >= f.len() {
        unchanged(old, new)
    } else {
        let name = f[sel].name@;
        &&& new.command_mode == old.command_mode
        &&& new.pound_command_mode == old.pound_command_mode
        &&& new.temp_output == old.temp_output
        &&& same_history(old, new)
        &&& same_view(old, new)
        &&& new.command_suggestions.all_commands == pop.all_commands
        &&& new.command_suggestions.filtered_commands == pop.filtered_commands
        &&& if f.len() == 1 {
            &&& new.input@ == name.push(' ')
            &&& new.cursor_position == utf8_len(name) + 1
            &&& !new.command_suggestions.visible
            &&& new.command_suggestions.selected_index == pop.selected_index
        } else {
            &&& new.input@ == name
            &&& new.cursor_position == utf8_len(name)
            &&& new.command_suggestions.visible == pop.visible
            &&& new.command_suggestions.selected_index == next_index(sel, f.len() as int)
        }
    }
}

/// Escape dismisses the temporary output, else hides the suggestions, else
/// clears the input and leaves the history.
pub open spec fn escaped(old: TuiState, new: TuiState) -> bool {
    if old.temp_output.visible {
        &&& !new.temp_output.visible
        &&& new.temp_output.title == old.temp_output.title
        &&& new.temp_output.content == old.temp_output.content
        &&& same_editor(old, new)
        &&& same_history(old, new)
        &&& same_view(old, new)
    } else if old.command_suggestions.visible {
        &&& !new.command_suggestions.visible
        &&& new.command_suggestions.all_commands == old.command_suggestions.all_commands
        &&& new.command_suggestions.filtered_commands == old.command_suggestions.filtered_commands
        &&& new.command_suggestions.selected_index == old.command_suggestions.selected_index
        &&& new.input == old.input
        &&& new.cursor_position == old.cursor_position
        &&& new.command_mode == old.command_mode
        &&& new.pound_command_mode == old.pound_command_mode
        &&& new.temp_output == old.temp_output
        &&& same_history(old, new)
        &&& same_view(old, new)
    } else {
        &&& new.input@.len() == 0
        &&& new.cursor_position == 0
        &&& !new.command_mode
        &&& new.pound_command_mode == old.pound_command_mode
        &&& new.command_suggestions == old.command_suggestions
        &&& new.temp_output == old.temp_output
        &&& new.command_history == old.command_history
        &&& new.history_index == -1
        &&& new.current_input is None
        &&& same_view(old, new)
    }
}

/// Suggestion `idx` was selected and, where it exists, put in the input.
pub open spec fn suggestion_picked(old: TuiState, new: TuiState, idx: int) -> bool {
    let f = old.command_suggestions.filtered_commands@;
    &&& new.command_suggestions.selected_index == idx
    &&& new.command_suggestions.filtered_commands == old.command_suggestions.filtered_commands
    &&& new.command_suggestions.all_commands == old.command_suggestions.all_commands
    &&& new.command_suggestions.visible == old.command_suggestions.visible
    &&& if 0 <= idx < f.len() {
        &&& new.input@ == f[idx].name@
        &&& new.cursor_position == utf8_len(f[idx].name@)
    } else {
        &&& new.input == old.input
        &&& new.cursor_position == old.cursor_position
    }
    &&& new.command_mode == old.command_mode
    &&& new.pound_command_mode == old.pound_command_mode
    &&& new.temp_output == old.temp_output
    &&& same_history(old, new)
    &&& same_view(old, new)
}

/// The arrows move through the suggestions while they show.
pub open spec fn in_suggestions(s: TuiState) -> bool {
    s.command_mode && s.command_suggestions.visible
        && s.command_suggestions.filtered_commands@.len() > 0
}

/// Up in the history: the input before navigating is kept, and the next
/// older entry, if there is one, replaces the input.
pub open spec fn history_back(old: TuiState, new: TuiState) -> bool {
    let h = old.command_history@;
    let hi = old.history_index as int;
    &&& new.current_input == if hi == -1 {
        Some(old.input)
    } else {
        old.current_input
    }
    &&& if hi + 1 < h.len() {
        &&& new.history_index == hi + 1
        &&& new.input@ == h[h.len() - 1 - (hi + 1)]@
        &&& new.cursor_position == utf8_len(new.input@)
    } else {
        &&& new.history_index == hi
        &&& new.input == old.input
        &&& new.cursor_position == old.cursor_position
    }
    &&& new.command_history == old.command_history
    &&& new.command_mode == old.command_mode
    &&& new.pound_command_mode == old.pound_command_mode
    &&& new.command_suggestions == old.command_suggestions
    &&& new.temp_output == old.temp_output
    &&& same_view(old, new)
}

/// Down in the history: the next newer entry replaces the input, or past
/// the newest, the input from before navigating.
pub open spec fn history_forward(old: TuiState, new: TuiState) -> bool {
    let h = old.command_history@;
    let hi = old.history_index as int;
    &&& new.history_index == hi - 1
    &&& if hi - 1 == -1 {
        &&& new.input@ == match old.current_input {
            Some(ci) => ci@,
            None => Seq::<char>::empty(),
        }
        &&& new.current_input is None
    } else {
        &&& new.input@ == h[h.len() - 1 - (hi - 1)]@
        &&& new.current_input == old.current_input
    }
    &&& new.cursor_position == utf8_len(new.input@)
    &&& new.command_history == old.command_history
    &&& new.command_mode == old.command_mode
    &&& new.pound_command_mode == old.pound_command_mode
    &&& new.command_suggestions == old.command_suggestions
    &&& new.temp_output == old.temp_output
    &&& same_view(old, new)
}

/// The up arrow: through the suggestions, else scrolling with Shift, else
/// back in the history.
pub open spec fn arrow_up(old: TuiState, new: TuiState, m: KeyModifiers) -> bool {
    let sel = old.command_suggestions.selected_index as int;
    let count = old.command_suggestions.filtered_commands@.len() as int;
    if old.temp_output.visible {
        unchanged(old, new)
    } else if in_suggestions(old) {
        suggestion_picked(
            old,
            new,
            if sel == 0 {
                count - 1
            } else {
                sel - 1
            },
        )
    } else if m.shift {
        scrolled_to(old, new, scrolled(old.scroll_offset as int, -1, old.max_scroll_offset as int))
    } else if old.command_history@.len() > 0 {
        history_back(old, new)
    } else {
        unchanged(old, new)
    }
}

/// The down arrow: through the suggestions, else scrolling with Shift, else
/// forward in the history while navigating it.
pub open spec fn arrow_down(old: TuiState, new: TuiState, m: KeyModifiers) -> bool {
    let sel = old.command_suggestions.selected_index as int;
    let count = old.command_suggestions.filtered_commands@.len() as int;
    if old.temp_output.visible {
        unchanged(old, new)
    } else if in_suggestions(old) {
        suggestion_picked(old, new, next_index(sel, count))
    } else if m.shift {
        scrolled_to(old, new, scrolled(old.scroll_offset as int, 1, old.max_scroll_offset as int))
    } else if old.history_index > -1 {
        history_forward(old, new)
    } else {
        unchanged(old, new)
    }
}

/// The keys on which the handler does its work without a fault: the input
/// is edited only at character boundaries, words are looked up only at
/// positions within the input's characters, and the suggestion index can
/// still step forward.
pub open spec fn key_accepted(s: TuiState, key: KeyEvent) -> bool {
    let m = key.modifiers;
    let temp = s.temp_output.visible;
    let cs = s.input@;
    let p = s.cursor_position as int;
    match key.code {
        KeyCode::Char(c) => (c == 'c' && m.control) || temp || (c == 'f' && m.alt) || (c == 'b'
            && m.alt && p <= cs.len()) || (!(c == 'b' && m.alt) && is_char_boundary(cs, p)),
        KeyCode::Enter => temp || !m.shift || is_char_boundary(cs, p),
        KeyCode::Backspace => temp || p == 0 || (is_char_boundary(cs, p - 1) && p - 1 < utf8_len(
            cs,
        )),
        KeyCode::Delete => temp || p >= utf8_len(cs) || is_char_boundary(cs, p),
        KeyCode::Left => temp || m.meta || !m.alt || p <= cs.len(),
        KeyCode::Down => temp || !in_suggestions(s) || s.command_suggestions.selected_index
            < usize::MAX,
        _ => true,
    }
}

/// What a key press does to the state and what it asks of the application.
pub open spec fn key_transition(old: TuiState, key: KeyEvent, new: TuiState, out: InterfaceOutcome) -> bool {
    let m = key.modifiers;
    let temp = old.temp_output.visible;
    let cs = old.input@;
    let p = old.cursor_position as int;
    let n = utf8_len(cs) as int;
    match key.code {
        KeyCode::Char(c) => if c == 'c' && m.control {
            out is CtrlC && unchanged(old, new)
        } else if temp {
            out is Handled && unchanged(old, new)
        } else if c == 'f' && m.alt {
            out is Handled && moved(
                old,
                new,
                if p < n {
                    word_right(cs, p)
                } else {
                    p
                },
            )
        } else if c == 'b' && m.alt {
            out is Handled && moved(
                old,
                new,
                if p > 0 {
                    word_left(cs, p)
                } else {
                    p
                },
            )
        } else {
            out is Handled && edited(old, new, insert_at(cs, p, c), p + 1)
        },
        KeyCode::Enter => if temp {
            out is Handled && enter_dismissed(old, new)
        } else if m.shift {
            out is Handled && typed(old, new, insert_at(cs, p, '\n'), p + 1)
        } else {
            submitted(old, new, out)
        },
        KeyCode::Backspace => out is Handled && if temp || p == 0 {
            unchanged(old, new)
        } else {
            edited(old, new, remove_at(cs, p - 1), p - 1)
        },
        KeyCode::Delete => out is Handled && if temp || p >= n {
            unchanged(old, new)
        } else {
            edited(old, new, remove_at(cs, p), p)
        },
        KeyCode::Left => out is Handled && if temp {
            unchanged(old, new)
        } else if m.meta {
            moved(old, new, 0)
        } else if m.alt {
            moved(
                old,
                new,
                if p > 0 {
                    word_left(cs, p)
                } else {
                    p
                },
            )
        } else {
            moved(
                old,
                new,
                if p > 0 {
                    p - 1
                } else {
                    p
                },
            )
        },
        KeyCode::Right => out is Handled && if temp {
            unchanged(old, new)
        } else if m.meta {
            moved(old, new, n)
        } else if m.alt {
            moved(
                old,
                new,
                if p < n {
                    word_right(cs, p)
                } else {
                    p
                },
            )
        } else {
            moved(
                old,
                new,
                if p < n {
                    p + 1
                } else {
                    p
                },
            )
        },
        KeyCode::Home => out is Handled && if m.shift {
            scrolled_to(old, new, 0)
        } else if !temp {
            moved(old, new, 0)
        } else {
            unchanged(old, new)
        },
        KeyCode::End => out is Handled && if m.shift {
            scrolled_to(old, new, old.max_scroll_offset as int)
        } else if !temp {
            moved(old, new, n)
        } else {
            unchanged(old, new)
        },
        KeyCode::Tab => out is Handled && tab_completed(old, new),
        KeyCode::Esc => out is Handled && escaped(old, new),
        KeyCode::PageUp => out is Handled && scrolled_to(
            old,
            new,
            scrolled(
                old.scroll_offset as int,
                -(old.visible_height / 2),
                old.max_scroll_offset as int,
            ),
        ),
        KeyCode::PageDown => out is Handled && scrolled_to(
            old,
            new,
            scrolled(
                old.scroll_offset as int,
                (old.visible_height / 2) as int,
                old.max_scroll_offset as int,
            ),
        ),
        KeyCode::Up => out is Handled && arrow_up(old, new, m),
        KeyCode::Down => out is Handled && arrow_down(old, new, m),
        KeyCode::Other => out is Handled && unchanged(old, new),
    }
}

/// The byte length of the input line.
fn input_bytes(state: &TuiState) -> (n: usize)
    requires
        utf8_len(state.input@) < usize::MAX,
    ensures
        n == utf8_len(state.input@),
{
    text::byte_len(&state.input)
}

/// A character typed at the cursor, with the command modes following.
fn type_char(state: &mut TuiState, c: char)
    requires
        is_char_boundary(old(state).input@, old(state).cursor_position as int),
        utf8_len(old(state).input@) < usize::MAX,
    ensures
        edited(
            *old(state),
            *final(state),
            insert_at(old(state).input@, old(state).cursor_position as int, c),
            old(state).cursor_position + 1,
        ),
{
    let ghost before = *state;
    insert_at_cursor(state, c);
    let ghost mid = *state;
    state.update_command_mode();
    let cs = text::str_chars(state.input.as_str());
    if text::chars_eq_str(&cs, "/") {
        proof {
            reveal_strlit("/");
            assert(utf8_len(seq!['/']) == 1) by {
                assert(seq!['/'].drop_last() =~= Seq::<char>::empty());
                assert(utf8_len(Seq::<char>::empty()) == 0);
                assert(char_bytes('/') == 1);
            }
            assert(mid.input@ =~= seq!['/']);
            assert(seq!['/'].take(1) =~= seq!['/']);
            assert(state.command_mode);
        }
        state.command_suggestions.show("/");
    }
    assert(mode_follows(before.command_mode, before.command_suggestions, mid.input@, *state));
}

/// Backspace: the character before the cursor is taken out.
fn backspace(state: &mut TuiState)
    requires
        !old(state).temp_output.visible,
        old(state).cursor_position > 0,
        is_char_boundary(old(state).input@, old(state).cursor_position - 1),
        old(state).cursor_position - 1 < utf8_len(old(state).input@),
    ensures
        edited(
            *old(state),
            *final(state),
            remove_at(old(state).input@, old(state).cursor_position - 1),
            old(state).cursor_position - 1,
        ),
{
    let ghost before = *state;
    remove_at_byte(state, state.cursor_position - 1);
    state.cursor_position = state.cursor_position - 1;
    let ghost mid = *state;
    state.update_command_mode();
    if state.command_mode {
        state.command_suggestions.update_suggestions(state.input.as_str());
    }
    assert(mode_follows(before.command_mode, before.command_suggestions, mid.input@, *state));
}

/// Delete: the character at the cursor is taken out.
fn delete_forward(state: &mut TuiState)
    requires
        is_char_boundary(old(state).input@, old(state).cursor_position as int),
        old(state).cursor_position < utf8_len(old(state).input@),
    ensures
        edited(
            *old(state),
            *final(state),
            remove_at(old(state).input@, old(state).cursor_position as int),
            old(state).cursor_position as int,
        ),
{
    let ghost before = *state;
    remove_at_byte(state, state.cursor_position);
    let ghost mid = *state;
    state.update_command_mode();
    if state.command_mode {
        state.command_suggestions.update_suggestions(state.input.as_str());
    }
    assert(mode_follows(before.command_mode, before.command_suggestions, mid.input@, *state));
}

/// Moves the cursor a word to the left.
fn move_word_left(state: &mut TuiState)
    requires
        old(state).cursor_position <= old(state).input@.len(),
    ensures
        moved(
            *old(state),
            *final(state),
            if old(state).cursor_position > 0 {
                word_left(old(state).input@, old(state).cursor_position as int)
            } else {
                old(state).cursor_position as int
            },
        ),
{
    if state.cursor_position > 0 {
        let cs = text::str_chars(state.input.as_str());
        state.cursor_position = word_left_pos(&cs, state.cursor_position);
    }
}

/// Moves the cursor a word to the right.
fn move_word_right(state: &mut TuiState)
    requires
        utf8_len(old(state).input@) < usize::MAX,
    ensures
        moved(
            *old(state),
            *final(state),
            if old(state).cursor_position < utf8_len(old(state).input@) {
                word_right(old(state).input@, old(state).cursor_position as int)
            } else {
                old(state).cursor_position as int
            },
        ),
{
    if state.cursor_position < input_bytes(state) {
        let cs = text::str_chars(state.input.as_str());
        state.cursor_position = word_right_pos(&cs, state.cursor_position);
    }
}

/// Enter without Shift: submits the input.
fn submit(state: &mut TuiState) -> (out: InterfaceOutcome)
    requires
        !old(state).temp_output.visible,
        old(state).command_history@.len() <= 100,
    ensures
        submitted(*old(state), *final(state), out),
        final(state).command_history@.len() <= 100,
{
    let input = state.input.clone();
    state.input = String::new();
    state.cursor_position = 0;
    state.history_index = -1;
    state.current_input = None;
    let cs = text::str_chars(input.as_str());
    if cs.len() == 0 {
        return InterfaceOutcome::Handled;
    }
    push_history(&mut state.command_history, &input);
    if cs[0] == '/' {
        state.input = String::new();
        state.cursor_position = 0;
        state.command_mode = false;
        let mut line = text::str_chars("Command: ");
        text::append_str(&mut line, input.as_str());
        InterfaceOutcome::Command(input, text::chars_to_string(&line))
    } else if cs[0] == '#' {
        state.input = String::new();
        state.cursor_position = 0;
        state.pound_command_mode = false;
        InterfaceOutcome::Pound(input)
    } else {
        InterfaceOutcome::Send(input)
    }
}

/// Tab: completes the input to the selected suggestion.
fn complete(state: &mut TuiState)
    requires
        strings_fit(*old(state)),
    ensures
        tab_completed(*old(state), *final(state)),
{
    if state.temp_output.visible || !state.command_mode || !state.command_suggestions.visible {
        return ;
    }
    let sel = state.command_suggestions.selected_index;
    let count = state.command_suggestions.filtered_commands.len();
    if sel >= count {
        return ;
    }
    let name = state.command_suggestions.filtered_commands[sel].name.clone();
    assert(utf8_len(name@) < usize::MAX);
    let len = text::byte_len(&name);
    if count == 1 {
        let mut cs = text::str_chars(name.as_str());
        cs.push(' ');
        state.input = text::chars_to_string(&cs);
        state.cursor_position = len + 1;
        state.command_suggestions.dismiss();
    } else {
        state.input = name;
        state.cursor_position = len;
        state.command_suggestions.next();
    }
}

/// Escape: dismisses the output, else hides the suggestions, else clears
/// the input.
fn escape(state: &mut TuiState)
    ensures
        escaped(*old(state), *final(state)),
{
    if state.temp_output.visible {
        state.temp_output.dismiss();
    } else if state.command_suggestions.visible {
        state.command_suggestions.dismiss();
    } else {
        state.input = String::new();
        state.cursor_position = 0;
        state.command_mode = false;
        state.history_index = -1;
        state.current_input = None;
    }
}

/// Selects suggestion `idx` and puts it in the input where it exists.
fn pick_suggestion(state: &mut TuiState, idx: usize)
    requires
        strings_fit(*old(state)),
    ensures
        suggestion_picked(*old(state), *final(state), idx as int),
{
    state.command_suggestions.selected_index = idx;
    match state.command_suggestions.selected_command() {
        Some(selected) => {
            let name = selected.name.clone();
            assert(utf8_len(name@) < usize::MAX);
            let len = text::byte_len(&name);
            state.input = name;
            state.cursor_position = len;
        },
        None => {},
    }
}

/// The up arrow.
fn up(state: &mut TuiState, m: KeyModifiers)
    requires
        strings_fit(*old(state)),
        history_ok(*old(state)),
    ensures
        arrow_up(*old(state), *final(state), m),
        history_ok(*final(state)),
{
    if state.temp_output.visible {
        return ;
    }
    if state.command_mode && state.command_suggestions.visible
        && state.command_suggestions.filtered_commands.len() > 0 {
        let current = state.command_suggestions.selected_index;
        let count = state.command_suggestions.filtered_commands.len();
        let prev = if current == 0 {
            count - 1
        } else {
            current - 1
        };
        pick_suggestion(state, prev);
    } else if m.shift {
        state.scroll(-1);
    } else if state.command_history.len() > 0 {
        if state.history_index == -1 {
            state.current_input = Some(state.input.clone());
        }
        let n = state.command_history.len();
        let next = (state.history_index + 1) as usize;
        if next < n {
            state.history_index = state.history_index + 1;
            let entry = state.command_history[n - 1 - next].clone();
            assert(utf8_len(entry@) < usize::MAX);
            let len = text::byte_len(&entry);
            state.input = entry;
            state.cursor_position = len;
        }
    }
}

/// The down arrow.
fn down(state: &mut TuiState, m: KeyModifiers)
    requires
        strings_fit(*old(state)),
        history_ok(*old(state)),
        old(state).temp_output.visible || !in_suggestions(*old(state))
            || old(state).command_suggestions.selected_index < usize::MAX,
    ensures
        arrow_down(*old(state), *final(state), m),
        history_ok(*final(state)),
{
    if state.temp_output.visible {
        return ;
    }
    if state.command_mode && state.command_suggestions.visible
        && state.command_suggestions.filtered_commands.len() > 0 {
        let count = state.command_suggestions.filtered_commands.len();
        let next = (state.command_suggestions.selected_index + 1) % count;
        pick_suggestion(state, next);
    } else if m.shift {
        state.scroll(1);
    } else if state.history_index > -1 {
        state.history_index = state.history_index - 1;
        if state.history_index == -1 {
            match state.current_input.take() {
                Some(original) => {
                    state.input = original;
                },
                None => {
                    state.input = String::new();
                },
            }
        } else {
            let n = state.command_history.len();
            let idx = state.history_index as usize;
            let entry = state.command_history[n - 1 - idx].clone();
            state.input = entry;
        }
        assert(utf8_len(state.input@) < usize::MAX);
        state.cursor_position = input_bytes(state);
    }
}

/// Handle key events: edits the input line, moves the cursor, navigates the
/// suggestions and the history, scrolls, and submits; what the application
/// has to do besides comes back as the outcome.
pub fn handle_key_event(state: &mut TuiState, key: KeyEvent) -> (out: InterfaceOutcome)
    requires
        history_ok(*old(state)),
        strings_fit(*old(state)),
        key_accepted(*old(state), key),
    ensures
        key_transition(*old(state), key, *final(state), out),
        history_ok(*final(state)),
{
    let m = key.modifiers;
    match key.code {
        KeyCode::Char(c) => {
            if c == 'c' && m.control {
                return InterfaceOutcome::CtrlC;
            }
            if state.temp_output.visible {
                return InterfaceOutcome::Handled;
            }
            if c == 'f' && m.alt {
                move_word_right(state);
            } else if c == 'b' && m.alt {
                move_word_left(state);
            } else {
                type_char(state, c);
            }
            InterfaceOutcome::Handled
        },
        KeyCode::Enter => {
            if state.temp_output.visible {
                state.temp_output.dismiss();
                state.input = String::new();
                state.cursor_position = 0;
                state.command_mode = false;
                state.command_suggestions.dismiss();
                return InterfaceOutcome::Handled;
            }
            if m.shift {
                insert_at_cursor(state, '\n');
                return InterfaceOutcome::Handled;
            }
            submit(state)
        },
        KeyCode::Backspace => {
            if !state.temp_output.visible && state.cursor_position > 0 {
                backspace(state);
            }
            InterfaceOutcome::Handled
        },
        KeyCode::Delete => {
            if !state.temp_output.visible && state.cursor_position < input_bytes(state) {
                delete_forward(state);
            }
            InterfaceOutcome::Handled
        },
        KeyCode::Left => {
            if !state.temp_output.visible {
                if m.meta {
                    state.cursor_position = 0;
                } else if m.alt {
                    move_word_left(state);
                } else if state.cursor_position > 0 {
                    state.cursor_position = state.cursor_position - 1;
                }
            }
            InterfaceOutcome::Handled
        },
        KeyCode::Right => {
            if !state.temp_output.visible {
                if m.meta {
                    state.cursor_position = input_bytes(state);
                } else if m.alt {
                    move_word_right(state);
                } else if state.cursor_position < input_bytes(state) {
                    state.cursor_position = state.cursor_position + 1;
                }
            }
            InterfaceOutcome::Handled
        },
        KeyCode::Home => {
            if m.shift {
                state.scroll_offset = 0;
            } else if !state.temp_output.visible {
                state.cursor_position = 0;
            }
            InterfaceOutcome::Handled
        },
        KeyCode::End => {
            if m.shift {
                state.scroll_to_bottom();
            } else if !state.temp_output.visible {
                state.cursor_position = input_bytes(state);
            }
            InterfaceOutcome::Handled
        },
        KeyCode::Tab => {
            complete(state);
            InterfaceOutcome::Handled
        },
        KeyCode::Esc => {
            escape(state);
            InterfaceOutcome::Handled
        },
        KeyCode::PageUp => {
            let amount = state.visible_height / 2;
            state.scroll(-(amount as isize));
            InterfaceOutcome::Handled
        },
        KeyCode::PageDown => {
            let amount = state.visible_height / 2;
            state.scroll(amount as isize);
            InterfaceOutcome::Handled
        },
        KeyCode::Up => {
            up(state, m);
            InterfaceOutcome::Handled
        },
        KeyCode::Down => {
            down(state, m);
            InterfaceOutcome::Handled
        },
        KeyCode::Other => InterfaceOutcome::Handled,
    }
}


// ---------------------------------------------------------------------------
// Mouse, Ctrl+C and agent selection
// ---------------------------------------------------------------------------

/// Handle mouse events: the wheel scrolls by three lines.
pub fn handle_mouse_event(state: &mut TuiState, kind: MouseEventKind)
    ensures
        match kind {
            MouseEventKind::ScrollDown => scrolled_to(
                *old(state),
                *final(state),
                scrolled(old(state).scroll_offset as int, 3, old(state).max_scroll_offset as int),
            ),
            MouseEventKind::ScrollUp => scrolled_to(
                *old(state),
                *final(state),
                scrolled(old(state).scroll_offset as int, -3, old(state).max_scroll_offset as int),
            ),
            MouseEventKind::Other => unchanged(*old(state), *final(state)),
        },
{
    match kind {
        MouseEventKind::ScrollDown => state.scroll(3),
        MouseEventKind::ScrollUp => state.scroll(-3),
        MouseEventKind::Other => {},
    }
}

/// Handle Ctrl+C at time `now` (milliseconds) with the selected agent in
/// `agent_state`: a second press within three seconds quits; a press while
/// the agent works interrupts it (the result is `true`) and does not count
/// towards quitting; otherwise the press starts the timer. This interface
/// shows no popups for it.
pub fn handle_ctrl_c_interrupt(state: &mut TuiState, now: u64, agent_state: Option<AgentState>) -> (interrupt: bool)
    ensures
        same_editor(*old(state), *final(state)),
        same_history(*old(state), *final(state)),
        final(state).temp_output == old(state).temp_output,
        final(state).scroll_offset == old(state).scroll_offset,
        final(state).max_scroll_offset == old(state).max_scroll_offset,
        final(state).visible_height == old(state).visible_height,
        final(state).selected_agent_id == old(state).selected_agent_id,
        second_press_at(*old(state), now) ==> {
            &&& !interrupt
            &&& final(state).should_quit
            &&& final(state).last_interrupt_time == old(state).last_interrupt_time
            &&& final(state).last_interrupt_was_process == old(state).last_interrupt_was_process
        },
        !second_press_at(*old(state), now) ==> {
            &&& interrupt == agent_busy(agent_state)
            &&& final(state).should_quit == old(state).should_quit
            &&& final(state).last_interrupt_time == Some(now)
            &&& final(state).last_interrupt_was_process == agent_busy(agent_state)
        },
{
    match state.last_interrupt_time {
        Some(last) => {
            let elapsed = if now >= last {
                now - last
            } else {
                0
            };
            if !state.last_interrupt_was_process && elapsed < DOUBLE_PRESS_WINDOW_MS {
                state.should_quit = true;
                return false;
            }
        },
        None => {},
    }
    let busy = match &agent_state {
        Some(AgentState::Processing) => true,
        Some(AgentState::RunningTool { .. }) => true,
        _ => false,
    };
    state.last_interrupt_time = Some(now);
    state.last_interrupt_was_process = busy;
    busy
}

/// A Ctrl+C at `now` is the second within the window (see
/// [`crate::tui::events::second_press`]).
pub open spec fn second_press_at(s: TuiState, now: u64) -> bool {
    s.last_interrupt_time matches Some(t) && !s.last_interrupt_was_process && (if now >= t {
        now - t
    } else {
        0
    }) < DOUBLE_PRESS_WINDOW_MS
}

/// Handle a `#` command for agent switching among `agents`, of which those
/// in `readable` have an output buffer that can be read: selects the agent
/// the command names (this interface shows no popup for it). The agent
/// switched to comes back.
pub fn handle_pound_command(
    state: &mut TuiState,
    cmd: &str,
    agents: &Vec<(AgentId, String)>,
    readable: &Vec<AgentId>,
) -> (switched: Option<AgentId>)
    ensures
        ({
            let target = pound_outcome(
                cmd@,
                agent_views(agents@),
                readable@.map_values(|a: AgentId| a.0),
            ).0;
            &&& switched == match target {
                Some(id) => Some(AgentId(id)),
                None => None,
            }
            &&& final(state).selected_agent_id == match target {
                Some(id) => AgentId(id),
                None => old(state).selected_agent_id,
            }
        }),
        same_editor(*old(state), *final(state)),
        same_history(*old(state), *final(state)),
        final(state).temp_output == old(state).temp_output,
        final(state).should_quit == old(state).should_quit,
{
    let (switched, _message) = pound_result(cmd, agents, readable);
    match switched {
        Some(id) => {
            state.selected_agent_id = id;
        },
        None => {},
    }
    switched
}

} // verus!
