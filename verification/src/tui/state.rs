//! State management for the Terminal UI
use vstd::prelude::*;
use crate::agent::{AgentId, AgentState};
use crate::text::{self, starts_with, utf8_len};
use crate::tui::popup::commands::{
    lemma_offered_names_fit, offered_commands, suggestion_views, suggestions_for,
};
use crate::tui::popup::{CommandSuggestionsPopup, TemporaryOutput};

verus! {

/// Maximum number of lines to keep in the conversation history view
pub const MAX_HISTORY_LINES: usize = 1000;

/// State for the TUI application
pub struct TuiState {
    /// Input being typed by the user
    pub input: String,
    /// Cursor position in the input field, in bytes
    pub cursor_position: usize,
    /// Currently selected agent ID
    pub selected_agent_id: AgentId,
    /// Whether the application should exit
    pub should_quit: bool,
    /// Command mode indicator (when input starts with '/')
    pub command_mode: bool,
    /// Pound command mode indicator (when input starts with '#')
    pub pound_command_mode: bool,
    /// When Ctrl+C was last pressed, in milliseconds (for double-press exit)
    pub last_interrupt_time: Option<u64>,
    /// Whether the last Ctrl+C was used to interrupt an agent/shell
    pub last_interrupt_was_process: bool,
    /// Scroll offset for the conversation view (0 = top of conversation)
    pub scroll_offset: usize,
    /// Maximum scroll offset based on content and view size
    pub max_scroll_offset: usize,
    /// Visible content height in lines
    pub visible_height: usize,
    /// Temporary output window that grows upward from the input area
    pub temp_output: TemporaryOutput,
    /// Command suggestions popup for auto-completion
    pub command_suggestions: CommandSuggestionsPopup,
    /// Command history for navigating previous inputs
    pub command_history: Vec<String>,
    /// Current position in command history (-1 means not navigating history)
    pub history_index: isize,
    /// Current input before history navigation began
    pub current_input: Option<String>,
}

/// The scroll offset after scrolling by `delta` lines from `offset`, kept
/// within `[0, max]`.
pub open spec fn scrolled(offset: int, delta: int, max: int) -> int {
    let moved = if delta < 0 {
        if offset + delta < 0 {
            0
        } else {
            offset + delta
        }
    } else {
        if offset + delta > usize::MAX {
            usize::MAX as int
        } else {
            offset + delta
        }
    };
    if moved < max {
        moved
    } else {
        max
    }
}

/// Lines the input box needs for `input` at a terminal of `width` columns:
/// wrapped lines or lines separated by newlines, whichever is more, at most
/// 10; counts are taken as `u16` as the terminal library takes them.
pub open spec fn input_height(input: Seq<char>, width: int) -> int {
    let avail = if width >= 2 {
        width - 2
    } else {
        0
    };
    let chars = (input.len() as u16) as int;
    if chars == 0 {
        1
    } else {
        let wrapped = chars / avail + if chars % avail > 0 {
            1int
        } else {
            0int
        };
        let needed = if wrapped < 1 {
            1
        } else {
            wrapped
        };
        let nl = (count_char(input, '\n') as u16) as int;
        let h = if needed > nl + 1 {
            needed
        } else {
            nl + 1
        };
        if h < 10 {
            h
        } else {
            10
        }
    }
}

/// Number of occurrences of `c` in `s`.
pub open spec fn count_char(s: Seq<char>, c: char) -> nat
    decreases s.len(),
{
    if s.len() == 0 {
        0
    } else {
        count_char(s.drop_last(), c) + if s.last() == c {
            1nat
        } else {
            0nat
        }
    }
}

fn count_newlines(s: &Vec<char>) -> (r: usize)
    ensures
        r == count_char(s@, '\n'),
{
    let mut n: usize = 0;
    let mut i: usize = 0;
    while i < s.len()
        invariant
            i <= s.len(),
            n == count_char(s@.take(i as int), '\n'),
            n <= i,
        decreases s.len() - i,
    {
        assert(s@.take(i + 1).drop_last() =~= s@.take(i as int));
        if s[i] == '\n' {
            n = n + 1;
        }
        i = i + 1;
    }
    assert(s@.take(s.len() as int) =~= s@);
    n
}

/// The display text of an agent state for the header: the modes first,
/// then the agent's own state text, else "Ready".
pub open spec fn state_text(command_mode: bool, pound_mode: bool, agent_state: Option<Seq<char>>) -> Seq<
    char,
> {
    if command_mode {
        "Command Mode"@
    } else if pound_mode {
        "Agent Selection Mode"@
    } else {
        match agent_state {
            Some(s) => s,
            None => "Ready"@,
        }
    }
}

/// The emoji shown for an agent state.
pub open spec fn state_indicator(state: AgentState) -> Seq<char> {
    match state {
        AgentState::Idle => "🟢"@,
        AgentState::Processing => "🤔"@,
        AgentState::RunningTool { .. } => "🔧"@,
        AgentState::Terminated => "⛔"@,
        AgentState::Done(_) => "✅"@,
    }
}

/// The command modes and the suggestions popup as they follow from `input`,
/// given whether command mode was on and the popup before: in command mode
/// the suggestions for `input` from the first, shown where the popup was
/// shown, command mode has just begun or the input is one byte long; out of
/// it the popup hidden and left as it was.
pub open spec fn mode_follows(
    was_command_mode: bool,
    popup: CommandSuggestionsPopup,
    input: Seq<char>,
    after: TuiState,
) -> bool {
    &&& after.command_mode == starts_with(input, seq!['/'])
    &&& after.pound_command_mode == starts_with(input, seq!['#'])
    &&& suggestion_views(after.command_suggestions.all_commands@) == suggestion_views(
        popup.all_commands@,
    )
    &&& after.command_mode ==> {
        &&& suggestion_views(after.command_suggestions.filtered_commands@) == suggestions_for(
            suggestion_views(popup.all_commands@),
            input,
        )
        &&& after.command_suggestions.selected_index == 0
        &&& after.command_suggestions.visible == (popup.visible || !was_command_mode || utf8_len(
            input,
        ) == 1)
    }
    &&& !after.command_mode ==> {
        &&& !after.command_suggestions.visible
        &&& after.command_suggestions.filtered_commands == popup.filtered_commands
        &&& after.command_suggestions.selected_index == popup.selected_index
    }
}

/// `a` and `b` have the same command history and place in it.
pub open spec fn same_history(a: TuiState, b: TuiState) -> bool {
    &&& a.command_history == b.command_history
    &&& a.history_index == b.history_index
    &&& a.current_input == b.current_input
}

/// `a` and `b` agree on scrolling, quitting, the selected agent and the
/// Ctrl+C timer.
pub open spec fn same_view(a: TuiState, b: TuiState) -> bool {
    &&& a.scroll_offset == b.scroll_offset
    &&& a.max_scroll_offset == b.max_scroll_offset
    &&& a.visible_height == b.visible_height
    &&& a.should_quit == b.should_quit
    &&& a.selected_agent_id == b.selected_agent_id
    &&& a.last_interrupt_time == b.last_interrupt_time
    &&& a.last_interrupt_was_process == b.last_interrupt_was_process
}

/// `a` and `b` have the same input line, cursor, modes and suggestions.
pub open spec fn same_editor(a: TuiState, b: TuiState) -> bool {
    &&& a.input == b.input
    &&& a.cursor_position == b.cursor_position
    &&& a.command_mode == b.command_mode
    &&& a.pound_command_mode == b.pound_command_mode
    &&& a.command_suggestions == b.command_suggestions
}

impl TuiState {
    /// Create a new TUI state: empty input, nothing scrolled, no popups, no
    /// history.
    pub fn new(selected_agent_id: AgentId) -> (r: Self)
        ensures
            r.input@.len() == 0,
            r.cursor_position == 0,
            r.selected_agent_id == selected_agent_id,
            !r.should_quit,
            !r.command_mode,
            !r.pound_command_mode,
            r.last_interrupt_time is None,
            !r.last_interrupt_was_process,
            r.scroll_offset == 0,
            r.max_scroll_offset == 0,
            r.visible_height == 0,
            !r.temp_output.visible,
            r.temp_output.content@.len() == 0,
            !r.command_suggestions.visible,
            r.command_suggestions.selected_index == 0,
            r.command_history@.len() == 0,
            r.history_index == -1,
            r.current_input is None,
            suggestion_views(r.command_suggestions.all_commands@) == offered_commands(),
            suggestion_views(r.command_suggestions.filtered_commands@) == offered_commands(),
            r.temp_output.title@.len() == 0,
            crate::tui::events::strings_fit(r),
    {
        let popup = CommandSuggestionsPopup::new();
        proof {
            lemma_offered_names_fit();
            assert forall|i: int| 0 <= i < popup.filtered_commands@.len() implies utf8_len(
                #[trigger] popup.filtered_commands@[i].name@,
            ) < usize::MAX by {
                assert(suggestion_views(popup.filtered_commands@).len() == popup.filtered_commands@.len());
                assert(suggestion_views(popup.filtered_commands@)[i] == popup.filtered_commands@[i]@);
                assert(offered_commands()[i].0 == popup.filtered_commands@[i].name@);
                assert(utf8_len(offered_commands()[i].0) <= 40);
            }
        }
        let r = Self {
            input: text::chars_to_string(&Vec::new()),
            cursor_position: 0,
            selected_agent_id,
            should_quit: false,
            command_mode: false,
            pound_command_mode: false,
            last_interrupt_time: None,
            last_interrupt_was_process: false,
            scroll_offset: 0,
            max_scroll_offset: 0,
            visible_height: 0,
            temp_output: TemporaryOutput::new(),
            command_suggestions: popup,
            command_history: Vec::new(),
            history_index: -1,
            current_input: None,
        };
        assert(r.input@ =~= Seq::<char>::empty());
        r
    }

    /// Sets the command modes from the input's first character and shows,
    /// refilters or hides the command suggestions accordingly.
    pub fn update_command_mode(&mut self)
        ensures
            mode_follows(
                old(self).command_mode,
                old(self).command_suggestions,
                old(self).input@,
                *final(self),
            ),
            final(self).input == old(self).input,
            final(self).cursor_position == old(self).cursor_position,
            final(self).temp_output == old(self).temp_output,
            same_history(*old(self), *final(self)),
            same_view(*old(self), *final(self)),
    {
        let was_command_mode = self.command_mode;
        let chars = text::str_chars(self.input.as_str());
        self.command_mode = chars.len() > 0 && chars[0] == '/';
        self.pound_command_mode = chars.len() > 0 && chars[0] == '#';
        proof {
            if chars.len() > 0 {
                assert(chars@.take(1) =~= seq![chars@[0]]);
                assert(seq![chars@[0]][0] == chars@[0]);
            }
            assert(self.command_mode == starts_with(chars@, seq!['/']));
            assert(self.pound_command_mode == starts_with(chars@, seq!['#']));
        }
        if self.command_mode {
            let one_byte = match text::utf8_length(&chars) {
                Some(n) => n == 1,
                None => false,
            };
            if !was_command_mode || one_byte {
                self.command_suggestions.show(self.input.as_str());
            } else {
                self.command_suggestions.update_suggestions(self.input.as_str());
            }
        } else {
            self.command_suggestions.dismiss();
        }
    }

    /// Ensures the selected agent is one of `agents`; otherwise selects the
    /// first of them, if there is one. Returns whether the selection moved.
    pub fn ensure_selected_agent_valid(&mut self, agents: &Vec<AgentId>) -> (moved: bool)
        ensures
            agents@.contains(old(self).selected_agent_id) ==> !moved && final(self).selected_agent_id
                == old(self).selected_agent_id,
            !agents@.contains(old(self).selected_agent_id) && agents@.len() > 0 ==> moved
                && final(self).selected_agent_id == agents@[0],
            agents@.len() == 0 ==> !moved && final(self).selected_agent_id == old(
                self,
            ).selected_agent_id,
    {
        let mut i: usize = 0;
        while i < agents.len()
            invariant
                i <= agents.len(),
                forall|j: int| 0 <= j < i ==> agents@[j] != self.selected_agent_id,
            decreases agents.len() - i,
        {
            if agents[i].0 == self.selected_agent_id.0 {
                assert(agents@[i as int] == self.selected_agent_id);
                return false;
            }
            i = i + 1;
        }
        if agents.len() > 0 {
            self.selected_agent_id = agents[0];
            true
        } else {
            false
        }
    }

    /// Updates the scroll bounds for a conversation of `total_lines` lines;
    /// a view at the newest lines follows them.
    pub fn update_scroll(&mut self, total_lines: usize)
        ensures
            final(self).max_scroll_offset == if total_lines > old(self).visible_height {
                total_lines - old(self).visible_height
            } else {
                0
            },
            old(self).scroll_offset == old(self).max_scroll_offset ==> final(self).scroll_offset
                == final(self).max_scroll_offset,
            old(self).scroll_offset != old(self).max_scroll_offset ==> final(self).scroll_offset
                == if old(self).scroll_offset > final(self).max_scroll_offset {
                final(self).max_scroll_offset
            } else {
                old(self).scroll_offset
            },
            final(self).visible_height == old(self).visible_height,
            final(self).input == old(self).input,
    {
        let new_max = if total_lines > self.visible_height {
            total_lines - self.visible_height
        } else {
            0
        };
        let was_at_most_recent = self.scroll_offset == self.max_scroll_offset;
        self.max_scroll_offset = new_max;
        if was_at_most_recent {
            self.scroll_offset = self.max_scroll_offset;
        } else if self.scroll_offset > self.max_scroll_offset {
            self.scroll_offset = self.max_scroll_offset;
        }
    }

    /// Scroll the conversation view by `delta` lines, within the bounds
    pub fn scroll(&mut self, delta: isize)
        requires
            delta != isize::MIN,
        ensures
            final(self).scroll_offset == scrolled(
                old(self).scroll_offset as int,
                delta as int,
                old(self).max_scroll_offset as int,
            ),
            final(self).max_scroll_offset == old(self).max_scroll_offset,
            final(self).visible_height == old(self).visible_height,
            final(self).should_quit == old(self).should_quit,
            final(self).selected_agent_id == old(self).selected_agent_id,
            final(self).last_interrupt_time == old(self).last_interrupt_time,
            final(self).last_interrupt_was_process == old(self).last_interrupt_was_process,
            same_editor(*old(self), *final(self)),
            same_history(*old(self), *final(self)),
            final(self).temp_output == old(self).temp_output,
    {
        let new_offset = if delta < 0 {
            let d = (-delta) as usize;
            self.scroll_offset.saturating_sub(d)
        } else {
            self.scroll_offset.saturating_add(delta as usize)
        };
        self.scroll_offset = if new_offset < self.max_scroll_offset {
            new_offset
        } else {
            self.max_scroll_offset
        };
    }

    /// Scroll to the bottom of the conversation (most recent messages)
    pub fn scroll_to_bottom(&mut self)
        ensures
            final(self).scroll_offset == old(self).max_scroll_offset,
            final(self).max_scroll_offset == old(self).max_scroll_offset,
            final(self).visible_height == old(self).visible_height,
            final(self).should_quit == old(self).should_quit,
            final(self).selected_agent_id == old(self).selected_agent_id,
            final(self).last_interrupt_time == old(self).last_interrupt_time,
            final(self).last_interrupt_was_process == old(self).last_interrupt_was_process,
            same_editor(*old(self), *final(self)),
            same_history(*old(self), *final(self)),
            final(self).temp_output == old(self).temp_output,
    {
        self.scroll_offset = self.max_scroll_offset;
    }

    /// Calculate the number of lines needed for the input text, at a
    /// terminal of the given width (80 columns where it is unknown)
    pub fn calculate_input_height(&self, terminal_width: Option<u16>) -> (r: u16)
        requires
            match terminal_width {
                Some(w) => w > 2,
                None => true,
            },
            #[verifier::truncate] (count_char(self.input@, '\n') as u16) != u16::MAX,
        ensures
            r == input_height(
                self.input@,
                match terminal_width {
                    Some(w) => w as int,
                    None => 80,
                },
            ),
    {
        let width: u16 = match terminal_width {
            Some(w) => w,
            None => 80,
        };
        let available = width - 2;
        let chars = text::str_chars(self.input.as_str());
        let input_chars = #[verifier::truncate] (chars.len() as u16);
        if input_chars == 0 {
            return 1;
        }
        assert(input_chars % available > 0 ==> input_chars / available < u16::MAX) by (nonlinear_arith)
            requires
                available >= 1,
        ;
        let wrapped = input_chars / available + if input_chars % available > 0 {
            1u16
        } else {
            0u16
        };
        let needed = if wrapped < 1 {
            1
        } else {
            wrapped
        };
        let newlines = #[verifier::truncate] (count_newlines(&chars) as u16);
        let h = if needed > newlines + 1 {
            needed
        } else {
            newlines + 1
        };
        if h < 10 {
            h
        } else {
            10
        }
    }

    /// Get a string representation of the selected agent's state, given the
    /// agent's own state text where it could be read
    pub fn get_agent_state_string(&self, agent_state: Option<String>) -> (r: String)
        ensures
            r@ == state_text(
                self.command_mode,
                self.pound_command_mode,
                match agent_state {
                    Some(s) => Some(s@),
                    None => None,
                },
            ),
    {
        if self.command_mode {
            return text::chars_to_string(&text::str_chars("Command Mode"));
        }
        if self.pound_command_mode {
            return text::chars_to_string(&text::str_chars("Agent Selection Mode"));
        }
        match agent_state {
            Some(s) => s,
            None => text::chars_to_string(&text::str_chars("Ready")),
        }
    }

    /// Get an emoji indicator for agent state
    pub fn get_state_indicator(state: &AgentState) -> (r: &'static str)
        ensures
            r@ == state_indicator(*state),
    {
        match state {
            AgentState::Idle => "🟢",
            AgentState::Processing => "🤔",
            AgentState::RunningTool { .. } => "🔧",
            AgentState::Terminated => "⛔",
            AgentState::Done(_) => "✅",
        }
    }
}

/// Scrolling never leaves `[0, max]`, and scrolling back by the same
/// number of lines returns to where the view was, as long as the first
/// scroll stayed within that range.
pub proof fn law_scroll_back_returns(offset: int, delta: int, max: int)
    requires
        0 <= offset <= max <= usize::MAX,
        0 <= offset + delta <= max,
    ensures
        0 <= scrolled(offset, delta, max) <= max,
        scrolled(scrolled(offset, delta, max), -delta, max) == offset,
{
}

} // verus!
