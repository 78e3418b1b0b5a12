//! Key and mouse handling for the terminal UI. Each event changes the UI
//! state and says what, if anything, the application has to do next.
use vstd::prelude::*;
use crate::agent::AgentState;
use crate::text::{self, boundary_index, char_bytes, is_char_boundary, is_ws, starts_with, utf8_len};
use crate::tui::commands::{self, carries_out, command_reply, CommandEffect};
use crate::tui::popup::commands::{next_index, suggestion_views, suggestions_for};
use crate::tui::state::{mode_follows, same_editor, same_history, same_view, scrolled, TuiState};

verus! {

/// The key that was pressed.
pub enum KeyCode {
    Char(char),
    Enter,
    Backspace,
    Delete,
    Left,
    Right,
    Home,
    End,
    Tab,
    Esc,
    PageUp,
    PageDown,
    Up,
    Down,
    /// Any other key
    Other,
}

/// The modifier keys held with a key.
#[derive(Clone, Copy)]
pub struct KeyModifiers {
    pub shift: bool,
    pub control: bool,
    pub alt: bool,
    pub meta: bool,
}

/// A key press.
pub struct KeyEvent {
    pub code: KeyCode,
    pub modifiers: KeyModifiers,
}

/// What the application does after a key press.
pub enum KeyOutcome {
    /// Nothing more
    Handled,
    /// Ctrl+C: run the interrupt handling with the clock and the agent's state
    CtrlC,
    /// A slash command was processed; carry out its effect
    Command(CommandEffect),
    /// Select an agent as this `#` command asks
    Pound(String),
    /// Send this input to the selected agent
    Send(String),
}

/// The mouse events the UI reacts to.
pub enum MouseEventKind {
    ScrollDown,
    ScrollUp,
    /// Any other mouse event
    Other,
}

// ---------------------------------------------------------------------------
// Editing the input line
// ---------------------------------------------------------------------------

/// Steps back over white space from `p`.
pub open spec fn skip_space_back(cs: Seq<char>, p: int) -> int
    decreases p,
{
    if p > 0 && is_ws(cs[p - 1]) {
        skip_space_back(cs, p - 1)
    } else {
        p
    }
}

/// Steps back over non-white-space from `p`.
pub open spec fn skip_word_back(cs: Seq<char>, p: int) -> int
    decreases p,
{
    if p > 0 && !is_ws(cs[p - 1]) {
        skip_word_back(cs, p - 1)
    } else {
        p
    }
}

/// Steps forward over non-white-space from `p`.
pub open spec fn skip_word_forward(cs: Seq<char>, p: int) -> int
    decreases cs.len() - p,
{
    if 0 <= p < cs.len() && !is_ws(cs[p]) {
        skip_word_forward(cs, p + 1)
    } else {
        p
    }
}

/// Steps forward over white space from `p`.
pub open spec fn skip_space_forward(cs: Seq<char>, p: int) -> int
    decreases cs.len() - p,
{
    if 0 <= p < cs.len() && is_ws(cs[p]) {
        skip_space_forward(cs, p + 1)
    } else {
        p
    }
}

/// The start of the word before position `p`: back over spaces, then over
/// the word.
pub open spec fn word_left(cs: Seq<char>, p: int) -> int {
    skip_word_back(cs, skip_space_back(cs, p))
}

/// The start of the word after the one at `p`: forward over the word, then
/// over spaces.
pub open spec fn word_right(cs: Seq<char>, p: int) -> int {
    skip_space_forward(cs, skip_word_forward(cs, p))
}

/// `cs` with `c` inserted at byte offset `p`.
pub open spec fn insert_at(cs: Seq<char>, p: int, c: char) -> Seq<char> {
    let k = boundary_index(cs, p);
    cs.take(k).push(c) + cs.skip(k)
}

/// `cs` without the character that starts at byte offset `p`.
pub open spec fn remove_at(cs: Seq<char>, p: int) -> Seq<char> {
    let k = boundary_index(cs, p);
    cs.take(k) + cs.skip(k + 1)
}

/// The position to the left of `p` a word away, where `0 < p <= cs.len()`.
pub(crate) fn word_left_pos(cs: &Vec<char>, p: usize) -> (r: usize)
    requires
        p <= cs.len(),
    ensures
        r == word_left(cs@, p as int),
{
    let mut pos = p;
    while pos > 0 && text::is_whitespace(cs[pos - 1])
        invariant
            pos <= p <= cs.len(),
            skip_space_back(cs@, pos as int) == skip_space_back(cs@, p as int),
        decreases pos,
    {
        pos = pos - 1;
    }
    let ghost mid = pos;
    while pos > 0 && !text::is_whitespace(cs[pos - 1])
        invariant
            pos <= mid <= cs.len(),
            mid == skip_space_back(cs@, p as int),
            skip_word_back(cs@, pos as int) == skip_word_back(cs@, mid as int),
        decreases pos,
    {
        pos = pos - 1;
    }
    pos
}

/// The position to the right of `p` a word away.
pub(crate) fn word_right_pos(cs: &Vec<char>, p: usize) -> (r: usize)
    ensures
        r == word_right(cs@, p as int),
{
    let mut pos = p;
    while pos < cs.len() && !text::is_whitespace(cs[pos])
        invariant
            p <= pos,
            skip_word_forward(cs@, pos as int) == skip_word_forward(cs@, p as int),
        decreases cs.len() - pos,
    {
        pos = pos + 1;
    }
    let ghost mid = pos;
    while pos < cs.len() && text::is_whitespace(cs[pos])
        invariant
            mid <= pos,
            mid == skip_word_forward(cs@, p as int),
            skip_space_forward(cs@, pos as int) == skip_space_forward(cs@, mid as int),
        decreases cs.len() - pos,
    {
        pos = pos + 1;
    }
    pos
}

/// Every string of the state has a byte length below `usize::MAX`, as any
/// string in memory has.
pub open spec fn strings_fit(s: TuiState) -> bool {
    &&& utf8_len(s.input@) < usize::MAX
    &&& forall|i: int|
        0 <= i < s.command_history@.len() ==> utf8_len(#[trigger] s.command_history@[i]@)
            < usize::MAX
    &&& forall|i: int|
        0 <= i < s.command_suggestions.filtered_commands@.len() ==> utf8_len(
            #[trigger] s.command_suggestions.filtered_commands@[i].name@,
        ) < usize::MAX
    &&& s.current_input matches Some(ci) ==> utf8_len(ci@) < usize::MAX
}

/// The command history keeps at most 100 entries, and the place in it is -1
/// (not navigating) or an index of an entry counted from the newest.
pub open spec fn history_ok(s: TuiState) -> bool {
    &&& -1 <= s.history_index < s.command_history@.len()
    &&& s.command_history@.len() <= 100
}

/// Only the input line and cursor changed, to `input` and `cursor`.
pub open spec fn typed(old: TuiState, new: TuiState, input: Seq<char>, cursor: int) -> bool {
    &&& new.input@ == input
    &&& new.cursor_position == cursor
    &&& new.command_mode == old.command_mode
    &&& new.pound_command_mode == old.pound_command_mode
    &&& new.command_suggestions == old.command_suggestions
    &&& new.temp_output == old.temp_output
    &&& same_history(old, new)
    &&& same_view(old, new)
}

/// The input line and cursor changed to `input` and `cursor`, and the
/// command modes and suggestions followed the new input.
pub open spec fn edited(old: TuiState, new: TuiState, input: Seq<char>, cursor: int) -> bool {
    &&& new.input@ == input
    &&& new.cursor_position == cursor
    &&& mode_follows(old.command_mode, old.command_suggestions, input, new)
    &&& new.temp_output == old.temp_output
    &&& same_history(old, new)
    &&& same_view(old, new)
}

/// Only the cursor moved, to `cursor`.
pub open spec fn moved(old: TuiState, new: TuiState, cursor: int) -> bool {
    &&& new.cursor_position == cursor
    &&& new.input == old.input
    &&& new.command_mode == old.command_mode
    &&& new.pound_command_mode == old.pound_command_mode
    &&& new.command_suggestions == old.command_suggestions
    &&& new.temp_output == old.temp_output
    &&& same_history(old, new)
    &&& same_view(old, new)
}

/// Nothing changed.
pub open spec fn unchanged(old: TuiState, new: TuiState) -> bool {
    &&& same_editor(old, new)
    &&& new.temp_output == old.temp_output
    &&& same_history(old, new)
    &&& same_view(old, new)
}

/// Only the scroll offset changed, to `offset`.
pub open spec fn scrolled_to(old: TuiState, new: TuiState, offset: int) -> bool {
    &&& new.scroll_offset == offset
    &&& new.max_scroll_offset == old.max_scroll_offset
    &&& new.visible_height == old.visible_height
    &&& new.should_quit == old.should_quit
    &&& new.selected_agent_id == old.selected_agent_id
    &&& new.last_interrupt_time == old.last_interrupt_time
    &&& new.last_interrupt_was_process == old.last_interrupt_was_process
    &&& same_editor(old, new)
    &&& new.temp_output == old.temp_output
    &&& same_history(old, new)
}

/// Puts `c` into the input at the cursor and moves the cursor past it.
fn insert_at_cursor(state: &mut TuiState, c: char)
    requires
        is_char_boundary(old(state).input@, old(state).cursor_position as int),
        utf8_len(old(state).input@) < usize::MAX,
    ensures
        typed(
            *old(state),
            *final(state),
            insert_at(old(state).input@, old(state).cursor_position as int, c),
            old(state).cursor_position + 1,
        ),
{
    let cs = text::str_chars(state.input.as_str());
    let p = state.cursor_position;
    let k = match text::char_index_at_byte(&cs, p) {
        Some(k) => k,
        None => {
            return ;
        },
    };
    proof {
        text::lemma_utf8_len_mono(cs@, k as int, cs@.len() as int);
        assert(cs@.take(cs@.len() as int) =~= cs@);
    }
    let mut nv = text::copy_range(&cs, 0, k);
    nv.push(c);
    let tail = text::copy_range(&cs, k, cs.len());
    text::append_chars(&mut nv, &tail);
    assert(nv@ =~= insert_at(cs@, p as int, c));
    state.input = text::chars_to_string(&nv);
    state.cursor_position = p + 1;
}

/// Takes out the character that starts at byte `p` of the input.
fn remove_at_byte(state: &mut TuiState, p: usize)
    requires
        is_char_boundary(old(state).input@, p as int),
        p < utf8_len(old(state).input@),
    ensures
        typed(*old(state), *final(state), remove_at(old(state).input@, p as int), old(state).cursor_position as int),
{
    let cs = text::str_chars(state.input.as_str());
    let k = match text::char_index_at_byte(&cs, p) {
        Some(k) => k,
        None => {
            return ;
        },
    };
    proof {
        if k == cs.len() {
            assert(cs@.take(k as int) =~= cs@);
        }
    }
    let mut nv = text::copy_range(&cs, 0, k);
    let tail = text::copy_range(&cs, k + 1, cs.len());
    text::append_chars(&mut nv, &tail);
    assert(nv@ =~= remove_at(cs@, p as int));
    state.input = text::chars_to_string(&nv);
}

// ---------------------------------------------------------------------------
// The key handler
// ---------------------------------------------------------------------------

/// The command history after submitting `x`: added unless it repeats the
/// newest entry, keeping the newest 100.
pub open spec fn history_after(h: Seq<Seq<char>>, x: Seq<char>) -> Seq<Seq<char>> {
    if h.len() > 0 && h.last() == x {
        h
    } else if h.len() + 1 > 100 {
        h.push(x).skip(1)
    } else {
        h.push(x)
    }
}

/// Enter while the temporary output shows: it is dismissed, and the input,
/// command mode and suggestions are cleared.
pub open spec fn enter_dismissed(old: TuiState, new: TuiState) -> bool {
    &&& !new.temp_output.visible
    &&& new.temp_output.title == old.temp_output.title
    &&& new.temp_output.content == old.temp_output.content
    &&& new.input@.len() == 0
    &&& new.cursor_position == 0
    &&& !new.command_mode
    &&& new.pound_command_mode == old.pound_command_mode
    &&& !new.command_suggestions.visible
    &&& new.command_suggestions.all_commands == old.command_suggestions.all_commands
    &&& new.command_suggestions.filtered_commands == old.command_suggestions.filtered_commands
    &&& new.command_suggestions.selected_index == old.command_suggestions.selected_index
    &&& same_history(old, new)
    &&& same_view(old, new)
}

/// Enter submits the input: it joins the history, the input clears, and a
/// slash command is processed, a `#` command handed on, other text sent to
/// the agent.
pub open spec fn submitted(old: TuiState, new: TuiState, out: KeyOutcome) -> bool {
    let x = old.input@;
    &&& new.input@.len() == 0
    &&& new.cursor_position == 0
    &&& new.history_index == -1
    &&& new.current_input is None
    &&& new.command_suggestions == old.command_suggestions
    &&& new.scroll_offset == old.scroll_offset
    &&& new.max_scroll_offset == old.max_scroll_offset
    &&& new.visible_height == old.visible_height
    &&& new.selected_agent_id == old.selected_agent_id
    &&& new.last_interrupt_time == old.last_interrupt_time
    &&& new.last_interrupt_was_process == old.last_interrupt_was_process
    &&& if x.len() == 0 {
        &&& out is Handled
        &&& new.command_history == old.command_history
        &&& new.command_mode == old.command_mode
        &&& new.pound_command_mode == old.pound_command_mode
        &&& new.temp_output == old.temp_output
        &&& new.should_quit == old.should_quit
    } else {
        &&& text::string_views(new.command_history@) == history_after(
            text::string_views(old.command_history@),
            x,
        )
        &&& if x[0] == '/' {
            &&& (out matches KeyOutcome::Command(e) && carries_out(command_reply(x), old, new, e))
            &&& !new.command_mode
            &&& new.pound_command_mode == old.pound_command_mode
        } else if x[0] == '#' {
            &&& (out matches KeyOutcome::Pound(y) && y@ == x)
            &&& new.command_mode == old.command_mode
            &&& !new.pound_command_mode
            &&& new.temp_output == old.temp_output
            &&& new.should_quit == old.should_quit
        } else {
            &&& (out matches KeyOutcome::Send(y) && y@ == x)
            &&& new.command_mode == old.command_mode
            &&& new.pound_command_mode == old.pound_command_mode
            &&& new.temp_output == old.temp_output
            &&& new.should_quit == old.should_quit
        }
    }
}

/// Tab in command mode with suggestions shown completes the input to the
/// selected suggestion: with one suggestion left it adds a space and hides
/// them, else it selects the next.
pub open spec fn tab_completed(old: TuiState, new: TuiState) -> bool {
    let pop = old.command_suggestions;
    let sel = pop.selected_index as int;
    let f = pop.filtered_commands@;
    if old.temp_output.visible || !old.command_mode || !pop.visible || sel >= f.len() {
        unchanged(old, new)
    } else {
        let name = f[sel].name@;
        &&& new.command_mode == old.command_mode
        &&& new.pound_command_mode == old.pound_command_mode
        &&& new.temp_output == old.temp_output
        &&& same_history(old, new)
        &&& same_view(old, new)
        &&& new.command_suggestions.all_commands == pop.all_commands
        &&& new.command_suggestions.filtered_commands == pop.filtered_commands
        &&& if f.len() == 1 {
            &&& new.input@ == name.push(' ')
            &&& new.cursor_position == utf8_len(name) + 1
            &&& !new.command_suggestions.visible
            &&& new.command_suggestions.selected_index == pop.selected_index
        } else {
            &&& new.input@ == name
            &&& new.cursor_position == utf8_len(name)
            &&& new.command_suggestions.visible == pop.visible
            &&& new.command_suggestions.selected_index == next_index(sel, f.len() as int)
        }
    }
}

/// Escape dismisses the temporary output, else hides the suggestions, else
/// clears the input and leaves the history.
pub open spec fn escaped(old: TuiState, new: TuiState) -> bool {
    if old.temp_output.visible {
        &&& !new.temp_output.visible
        &&& new.temp_output.title == old.temp_output.title
        &&& new.temp_output.content == old.temp_output.content
        &&& same_editor(old, new)
        &&& same_history(old, new)
        &&& same_view(old, new)
    } else if old.command_suggestions.visible {
        &&& !new.command_suggestions.visible
        &&& new.command_suggestions.all_commands == old.command_suggestions.all_commands
        &&& new.command_suggestions.filtered_commands == old.command_suggestions.filtered_commands
        &&& new.command_suggestions.selected_index == old.command_suggestions.selected_index
        &&& new.input == old.input
        &&& new.cursor_position == old.cursor_position
        &&& new.command_mode == old.command_mode
        &&& new.pound_command_mode == old.pound_command_mode
        &&& new.temp_output == old.temp_output
        &&& same_history(old, new)
        &&& same_view(old, new)
    } else {
        &&& new.input@.len() == 0
        &&& new.cursor_position == 0
        &&& !new.command_mode
        &&& new.pound_command_mode == old.pound_command_mode
        &&& new.command_suggestions == old.command_suggestions
        &&& new.temp_output == old.temp_output
        &&& new.command_history == old.command_history
        &&& new.history_index == -1
        &&& new.current_input is None
        &&& same_view(old, new)
    }
}

/// Suggestion `idx` was selected and, where it exists, put in the input.
pub open spec fn suggestion_picked(old: TuiState, new: TuiState, idx: int) -> bool {
    let f = old.command_suggestions.filtered_commands@;
    &&& new.command_suggestions.selected_index == idx
    &&& new.command_suggestions.filtered_commands == old.command_suggestions.filtered_commands
    &&& new.command_suggestions.all_commands == old.command_suggestions.all_commands
    &&& new.command_suggestions.visible == old.command_suggestions.visible
    &&& if 0 <= idx < f.len() {
        &&& new.input@ == f[idx].name@
        &&& new.cursor_position == utf8_len(f[idx].name@)
    } else {
        &&& new.input == old.input
        &&& new.cursor_position == old.cursor_position
    }
    &&& new.command_mode == old.command_mode
    &&& new.pound_command_mode == old.pound_command_mode
    &&& new.temp_output == old.temp_output
    &&& same_history(old, new)
    &&& same_view(old, new)
}

/// The arrows move through the suggestions while they show.
pub open spec fn in_suggestions(s: TuiState) -> bool {
    s.command_mode && s.command_suggestions.visible
        && s.command_suggestions.filtered_commands@.len() > 0
}

/// Up in the history: the input before navigating is kept, and the next
/// older entry, if there is one, replaces the input.
pub open spec fn history_back(old: TuiState, new: TuiState) -> bool {
    let h = old.command_history@;
    let hi = old.history_index as int;
    &&& new.current_input == if hi == -1 {
        Some(old.input)
    } else {
        old.current_input
    }
    &&& if hi + 1 < h.len() {
        &&& new.history_index == hi + 1
        &&& new.input@ == h[h.len() - 1 - (hi + 1)]@
        &&& new.cursor_position == utf8_len(new.input@)
    } else {
        &&& new.history_index == hi
        &&& new.input == old.input
        &&& new.cursor_position == old.cursor_position
    }
    &&& new.command_history == old.command_history
    &&& new.command_mode == old.command_mode
    &&& new.pound_command_mode == old.pound_command_mode
    &&& new.command_suggestions == old.command_suggestions
    &&& new.temp_output == old.temp_output
    &&& same_view(old, new)
}

/// Down in the history: the next newer entry replaces the input, or past
/// the newest, the input from before navigating.
pub open spec fn history_forward(old: TuiState, new: TuiState) -> bool {
    let h = old.command_history@;
    let hi = old.history_index as int;
    &&& new.history_index == hi - 1
    &&& if hi - 1 == -1 {
        &&& new.input@ == match old.current_input {
            Some(ci) => ci@,
            None => Seq::<char>::empty(),
        }
        &&& new.current_input is None
    } else {
        &&& new.input@ == h[h.len() - 1 - (hi - 1)]@
        &&& new.current_input == old.current_input
    }
    &&& new.cursor_position == utf8_len(new.input@)
    &&& new.command_history == old.command_history
    &&& new.command_mode == old.command_mode
    &&& new.pound_command_mode == old.pound_command_mode
    &&& new.command_suggestions == old.command_suggestions
    &&& new.temp_output == old.temp_output
    &&& same_view(old, new)
}

/// The up arrow: through the suggestions, else scrolling with Shift, else
/// back in the history.
pub open spec fn arrow_up(old: TuiState, new: TuiState, m: KeyModifiers) -> bool {
    let sel = old.command_suggestions.selected_index as int;
    let count = old.command_suggestions.filtered_commands@.len() as int;
    if old.temp_output.visible {
        unchanged(old, new)
    } else if in_suggestions(old) {
        suggestion_picked(
            old,
            new,
            if sel == 0 {
                count - 1
            } else {
                sel - 1
            },
        )
    } else if m.shift {
        scrolled_to(old, new, scrolled(old.scroll_offset as int, -1, old.max_scroll_offset as int))
    } else if old.command_history@.len() > 0 {
        history_back(old, new)
    } else {
        unchanged(old, new)
    }
}

/// The down arrow: through the suggestions, else scrolling with Shift, else
/// forward in the history while navigating it.
pub open spec fn arrow_down(old: TuiState, new: TuiState, m: KeyModifiers) -> bool {
    let sel = old.command_suggestions.selected_index as int;
    let count = old.command_suggestions.filtered_commands@.len() as int;
    if old.temp_output.visible {
        unchanged(old, new)
    } else if in_suggestions(old) {
        suggestion_picked(old, new, next_index(sel, count))
    } else if m.shift {
        scrolled_to(old, new, scrolled(old.scroll_offset as int, 1, old.max_scroll_offset as int))
    } else if old.history_index > -1 {
        history_forward(old, new)
    } else {
        unchanged(old, new)
    }
}

/// The keys on which the handler does its work without a fault: the input
/// is edited only at character boundaries, words are looked up only at
/// positions within the input's characters, and the suggestion index can
/// still step forward.
pub open spec fn key_accepted(s: TuiState, key: KeyEvent) -> bool {
    let m = key.modifiers;
    let temp = s.temp_output.visible;
    let cs = s.input@;
    let p = s.cursor_position as int;
    match key.code {
        KeyCode::Char(c) => (c == 'c' && m.control) || temp || (c == 'f' && m.alt) || (c == 'b'
            && m.alt && p <= cs.len()) || (!(c == 'b' && m.alt) && is_char_boundary(cs, p)),
        KeyCode::Enter => temp || !m.shift || is_char_boundary(cs, p),
        KeyCode::Backspace => temp || p == 0 || (is_char_boundary(cs, p - 1) && p - 1 < utf8_len(
            cs,
        )),
        KeyCode::Delete => temp || p >= utf8_len(cs) || is_char_boundary(cs, p),
        KeyCode::Left => temp || m.meta || !m.alt || p <= cs.len(),
        KeyCode::Down => temp || !in_suggestions(s) || s.command_suggestions.selected_index
            < usize::MAX,
        _ => true,
    }
}

/// What a key press does to the state and what it asks of the application.
pub open spec fn key_transition(old: TuiState, key: KeyEvent, new: TuiState, out: KeyOutcome) -> bool {
    let m = key.modifiers;
    let temp = old.temp_output.visible;
    let cs = old.input@;
    let p = old.cursor_position as int;
    let n = utf8_len(cs) as int;
    match key.code {
        KeyCode::Char(c) => if c == 'c' && m.control {
            out is CtrlC && unchanged(old, new)
        } else if temp {
            out is Handled && unchanged(old, new)
        } else if c == 'f' && m.alt {
            out is Handled && moved(
                old,
                new,
                if p < n {
                    word_right(cs, p)
                } else {
                    p
                },
            )
        } else if c == 'b' && m.alt {
            out is Handled && moved(
                old,
                new,
                if p > 0 {
                    word_left(cs, p)
                } else {
                    p
                },
            )
        } else {
            out is Handled && edited(old, new, insert_at(cs, p, c), p + 1)
        },
        KeyCode::Enter => if temp {
            out is Handled && enter_dismissed(old, new)
        } else if m.shift {
            out is Handled && typed(old, new, insert_at(cs, p, '\n'), p + 1)
        } else {
            submitted(old, new, out)
        },
        KeyCode::Backspace => out is Handled && if temp || p == 0 {
            unchanged(old, new)
        } else {
            edited(old, new, remove_at(cs, p - 1), p - 1)
        },
        KeyCode::Delete => out is Handled && if temp || p >= n {
            unchanged(old, new)
        } else {
            edited(old, new, remove_at(cs, p), p)
        },
        KeyCode::Left => out is Handled && if temp {
            unchanged(old, new)
        } else if m.meta {
            moved(old, new, 0)
        } else if m.alt {
            moved(
                old,
                new,
                if p > 0 {
                    word_left(cs, p)
                } else {
                    p
                },
            )
        } else {
            moved(
                old,
                new,
                if p > 0 {
                    p - 1
                } else {
                    p
                },
            )
        },
        KeyCode::Right => out is Handled && if temp {
            unchanged(old, new)
        } else if m.meta {
            moved(old, new, n)
        } else if m.alt {
            moved(
                old,
                new,
                if p < n {
                    word_right(cs, p)
                } else {
                    p
                },
            )
        } else {
            moved(
                old,
                new,
                if p < n {
                    p + 1
                } else {
                    p
                },
            )
        },
        KeyCode::Home => out is Handled && if m.shift {
            scrolled_to(old, new, 0)
        } else if !temp {
            moved(old, new, 0)
        } else {
            unchanged(old, new)
        },
        KeyCode::End => out is Handled && if m.shift {
            scrolled_to(old, new, old.max_scroll_offset as int)
        } else if !temp {
            moved(old, new, n)
        } else {
            unchanged(old, new)
        },
        KeyCode::Tab => out is Handled && tab_completed(old, new),
        KeyCode::Esc => out is Handled && escaped(old, new),
        KeyCode::PageUp => out is Handled && scrolled_to(
            old,
            new,
            scrolled(
                old.scroll_offset as int,
                -(old.visible_height / 2),
                old.max_scroll_offset as int,
            ),
        ),
        KeyCode::PageDown => out is Handled && scrolled_to(
            old,
            new,
            scrolled(
                old.scroll_offset as int,
                (old.visible_height / 2) as int,
                old.max_scroll_offset as int,
            ),
        ),
        KeyCode::Up => out is Handled && arrow_up(old, new, m),
        KeyCode::Down => out is Handled && arrow_down(old, new, m),
        KeyCode::Other => out is Handled && unchanged(old, new),
    }
}

/// The byte length of the input line.
fn input_bytes(state: &TuiState) -> (n: usize)
    requires
        utf8_len(state.input@) < usize::MAX,
    ensures
        n == utf8_len(state.input@),
{
    text::byte_len(&state.input)
}

/// A character typed at the cursor, with the command modes following.
fn type_char(state: &mut TuiState, c: char)
    requires
        is_char_boundary(old(state).input@, old(state).cursor_position as int),
        utf8_len(old(state).input@) < usize::MAX,
    ensures
        edited(
            *old(state),
            *final(state),
            insert_at(old(state).input@, old(state).cursor_position as int, c),
            old(state).cursor_position + 1,
        ),
{
    let ghost before = *state;
    insert_at_cursor(state, c);
    let ghost mid = *state;
    state.update_command_mode();
    let cs = text::str_chars(state.input.as_str());
    if text::chars_eq_str(&cs, "/") {
        proof {
            reveal_strlit("/");
            assert(utf8_len(seq!['/']) == 1) by {
                assert(seq!['/'].drop_last() =~= Seq::<char>::empty());
                assert(utf8_len(Seq::<char>::empty()) == 0);
                assert(char_bytes('/') == 1);
            }
            assert(mid.input@ =~= seq!['/']);
            assert(seq!['/'].take(1) =~= seq!['/']);
            assert(state.command_mode);
        }
        state.command_suggestions.show("/");
    }
    assert(mode_follows(before.command_mode, before.command_suggestions, mid.input@, *state));
}

/// Backspace: the character before the cursor is taken out.
fn backspace(state: &mut TuiState)
    requires
        !old(state).temp_output.visible,
        old(state).cursor_position > 0,
        is_char_boundary(old(state).input@, old(state).cursor_position - 1),
        old(state).cursor_position - 1 < utf8_len(old(state).input@),
    ensures
        edited(
            *old(state),
            *final(state),
            remove_at(old(state).input@, old(state).cursor_position - 1),
            old(state).cursor_position - 1,
        ),
{
    let ghost before = *state;
    remove_at_byte(state, state.cursor_position - 1);
    state.cursor_position = state.cursor_position - 1;
    let ghost mid = *state;
    state.update_command_mode();
    if state.command_mode {
        state.command_suggestions.update_suggestions(state.input.as_str());
    }
    assert(mode_follows(before.command_mode, before.command_suggestions, mid.input@, *state));
}

/// Delete: the character at the cursor is taken out.
fn delete_forward(state: &mut TuiState)
    requires
        is_char_boundary(old(state).input@, old(state).cursor_position as int),
        old(state).cursor_position < utf8_len(old(state).input@),
    ensures
        edited(
            *old(state),
            *final(state),
            remove_at(old(state).input@, old(state).cursor_position as int),
            old(state).cursor_position as int,
        ),
{
    let ghost before = *state;
    remove_at_byte(state, state.cursor_position);
    let ghost mid = *state;
    state.update_command_mode();
    if state.command_mode {
        state.command_suggestions.update_suggestions(state.input.as_str());
    }
    assert(mode_follows(before.command_mode, before.command_suggestions, mid.input@, *state));
}

/// Moves the cursor a word to the left.
fn move_word_left(state: &mut TuiState)
    requires
        old(state).cursor_position <= old(state).input@.len(),
    ensures
        moved(
            *old(state),
            *final(state),
            if old(state).cursor_position > 0 {
                word_left(old(state).input@, old(state).cursor_position as int)
            } else {
                old(state).cursor_position as int
            },
        ),
{
    if state.cursor_position > 0 {
        let cs = text::str_chars(state.input.as_str());
        state.cursor_position = word_left_pos(&cs, state.cursor_position);
    }
}

/// Moves the cursor a word to the right.
fn move_word_right(state: &mut TuiState)
    requires
        utf8_len(old(state).input@) < usize::MAX,
    ensures
        moved(
            *old(state),
            *final(state),
            if old(state).cursor_position < utf8_len(old(state).input@) {
                word_right(old(state).input@, old(state).cursor_position as int)
            } else {
                old(state).cursor_position as int
            },
        ),
{
    if state.cursor_position < input_bytes(state) {
        let cs = text::str_chars(state.input.as_str());
        state.cursor_position = word_right_pos(&cs, state.cursor_position);
    }
}

/// The history after submitting `x`.
pub(crate) fn push_history(history: &mut Vec<String>, x: &String)
    requires
        old(history)@.len() <= 100,
    ensures
        final(history)@.len() <= 100,
        text::string_views(final(history)@) == history_after(text::string_views(old(history)@), x@),
{
    let ghost h = text::string_views(history@);
    let n = history.len();
    if n > 0 && history[n - 1] == *x {
        assert(h.last() == x@);
        return ;
    }
    assert(!(h.len() > 0 && h.last() == x@));
    history.push(x.clone());
    assert(text::string_views(history@) =~= h.push(x@));
    if history.len() > 100 {
        let ghost pushed = history@;
        history.remove(0);
        assert(text::string_views(history@) =~= h.push(x@).skip(1));
    }
}

/// Enter without Shift: submits the input.
fn submit(state: &mut TuiState) -> (out: KeyOutcome)
    requires
        !old(state).temp_output.visible,
        old(state).command_history@.len() <= 100,
    ensures
        submitted(*old(state), *final(state), out),
        final(state).command_history@.len() <= 100,
{
    let input = state.input.clone();
    state.input = String::new();
    state.cursor_position = 0;
    state.history_index = -1;
    state.current_input = None;
    let cs = text::str_chars(input.as_str());
    if cs.len() == 0 {
        return KeyOutcome::Handled;
    }
    push_history(&mut state.command_history, &input);
    if cs[0] == '/' {
        let effect = commands::process_command(state, input.as_str());
        state.input = String::new();
        state.cursor_position = 0;
        state.command_mode = false;
        KeyOutcome::Command(effect)
    } else if cs[0] == '#' {
        state.input = String::new();
        state.cursor_position = 0;
        state.pound_command_mode = false;
        KeyOutcome::Pound(input)
    } else {
        KeyOutcome::Send(input)
    }
}

/// Tab: completes the input to the selected suggestion.
fn complete(state: &mut TuiState)
    requires
        strings_fit(*old(state)),
    ensures
        tab_completed(*old(state), *final(state)),
{
    if state.temp_output.visible || !state.command_mode || !state.command_suggestions.visible {
        return ;
    }
    let sel = state.command_suggestions.selected_index;
    let count = state.command_suggestions.filtered_commands.len();
    if sel >= count {
        return ;
    }
    let name = state.command_suggestions.filtered_commands[sel].name.clone();
    assert(utf8_len(name@) < usize::MAX);
    let len = text::byte_len(&name);
    if count == 1 {
        let mut cs = text::str_chars(name.as_str());
        cs.push(' ');
        state.input = text::chars_to_string(&cs);
        state.cursor_position = len + 1;
        state.command_suggestions.dismiss();
    } else {
        state.input = name;
        state.cursor_position = len;
        state.command_suggestions.next();
    }
}

/// Escape: dismisses the output, else hides the suggestions, else clears
/// the input.
fn escape(state: &mut TuiState)
    ensures
        escaped(*old(state), *final(state)),
{
    if state.temp_output.visible {
        state.temp_output.dismiss();
    } else if state.command_suggestions.visible {
        state.command_suggestions.dismiss();
    } else {
        state.input = String::new();
        state.cursor_position = 0;
        state.command_mode = false;
        state.history_index = -1;
        state.current_input = None;
    }
}

/// Selects suggestion `idx` and puts it in the input where it exists.
fn pick_suggestion(state: &mut TuiState, idx: usize)
    requires
        strings_fit(*old(state)),
    ensures
        suggestion_picked(*old(state), *final(state), idx as int),
{
    state.command_suggestions.selected_index = idx;
    match state.command_suggestions.selected_command() {
        Some(selected) => {
            let name = selected.name.clone();
            assert(utf8_len(name@) < usize::MAX);
            let len = text::byte_len(&name);
            state.input = name;
            state.cursor_position = len;
        },
        None => {},
    }
}

/// The up arrow.
fn up(state: &mut TuiState, m: KeyModifiers)
    requires
        strings_fit(*old(state)),
        history_ok(*old(state)),
    ensures
        arrow_up(*old(state), *final(state), m),
        history_ok(*final(state)),
{
    if state.temp_output.visible {
        return ;
    }
    if state.command_mode && state.command_suggestions.visible
        && state.command_suggestions.filtered_commands.len() > 0 {
        let current = state.command_suggestions.selected_index;
        let count = state.command_suggestions.filtered_commands.len();
        let prev = if current == 0 {
            count - 1
        } else {
            current - 1
        };
        pick_suggestion(state, prev);
    } else if m.shift {
        state.scroll(-1);
    } else if state.command_history.len() > 0 {
        if state.history_index == -1 {
            state.current_input = Some(state.input.clone());
        }
        let n = state.command_history.len();
        let next = (state.history_index + 1) as usize;
        if next < n {
            state.history_index = state.history_index + 1;
            let entry = state.command_history[n - 1 - next].clone();
            assert(utf8_len(entry@) < usize::MAX);
            let len = text::byte_len(&entry);
            state.input = entry;
            state.cursor_position = len;
        }
    }
}

/// The down arrow.
fn down(state: &mut TuiState, m: KeyModifiers)
    requires
        strings_fit(*old(state)),
        history_ok(*old(state)),
        old(state).temp_output.visible || !in_suggestions(*old(state))
            || old(state).command_suggestions.selected_index < usize::MAX,
    ensures
        arrow_down(*old(state), *final(state), m),
        history_ok(*final(state)),
{
    if state.temp_output.visible {
        return ;
    }
    if state.command_mode && state.command_suggestions.visible
        && state.command_suggestions.filtered_commands.len() > 0 {
        let count = state.command_suggestions.filtered_commands.len();
        let next = (state.command_suggestions.selected_index + 1) % count;
        pick_suggestion(state, next);
    } else if m.shift {
        state.scroll(1);
    } else if state.history_index > -1 {
        state.history_index = state.history_index - 1;
        if state.history_index == -1 {
            match state.current_input.take() {
                Some(original) => {
                    state.input = original;
                },
                None => {
                    state.input = String::new();
                },
            }
        } else {
            let n = state.command_history.len();
            let idx = state.history_index as usize;
            let entry = state.command_history[n - 1 - idx].clone();
            state.input = entry;
        }
        assert(utf8_len(state.input@) < usize::MAX);
        state.cursor_position = input_bytes(state);
    }
}

/// Handle key events: edits the input line, moves the cursor, navigates the
/// suggestions and the history, scrolls, and submits; what the application
/// has to do besides comes back as the outcome.
pub fn handle_key_event(state: &mut TuiState, key: KeyEvent) -> (out: KeyOutcome)
    requires
        history_ok(*old(state)),
        strings_fit(*old(state)),
        key_accepted(*old(state), key),
    ensures
        key_transition(*old(state), key, *final(state), out),
        history_ok(*final(state)),
{
    let m = key.modifiers;
    match key.code {
        KeyCode::Char(c) => {
            if c == 'c' && m.control {
                return KeyOutcome::CtrlC;
            }
            if state.temp_output.visible {
                return KeyOutcome::Handled;
            }
            if c == 'f' && m.alt {
                move_word_right(state);
            } else if c == 'b' && m.alt {
                move_word_left(state);
            } else {
                type_char(state, c);
            }
            KeyOutcome::Handled
        },
        KeyCode::Enter => {
            if state.temp_output.visible {
                state.temp_output.dismiss();
                state.input = String::new();
                state.cursor_position = 0;
                state.command_mode = false;
                state.command_suggestions.dismiss();
                return KeyOutcome::Handled;
            }
            if m.shift {
                insert_at_cursor(state, '\n');
                return KeyOutcome::Handled;
            }
            submit(state)
        },
        KeyCode::Backspace => {
            if !state.temp_output.visible && state.cursor_position > 0 {
                backspace(state);
            }
            KeyOutcome::Handled
        },
        KeyCode::Delete => {
            if !state.temp_output.visible && state.cursor_position < input_bytes(state) {
                delete_forward(state);
            }
            KeyOutcome::Handled
        },
        KeyCode::Left => {
            if !state.temp_output.visible {
                if m.meta {
                    state.cursor_position = 0;
                } else if m.alt {
                    move_word_left(state);
                } else if state.cursor_position > 0 {
                    state.cursor_position = state.cursor_position - 1;
                }
            }
            KeyOutcome::Handled
        },
        KeyCode::Right => {
            if !state.temp_output.visible {
                if m.meta {
                    state.cursor_position = input_bytes(state);
                } else if m.alt {
                    move_word_right(state);
                } else if state.cursor_position < input_bytes(state) {
                    state.cursor_position = state.cursor_position + 1;
                }
            }
            KeyOutcome::Handled
        },
        KeyCode::Home => {
            if m.shift {
                state.scroll_offset = 0;
            } else if !state.temp_output.visible {
                state.cursor_position = 0;
            }
            KeyOutcome::Handled
        },
        KeyCode::End => {
            if m.shift {
                state.scroll_to_bottom();
            } else if !state.temp_output.visible {
                state.cursor_position = input_bytes(state);
            }
            KeyOutcome::Handled
        },
        KeyCode::Tab => {
            complete(state);
            KeyOutcome::Handled
        },
        KeyCode::Esc => {
            escape(state);
            KeyOutcome::Handled
        },
        KeyCode::PageUp => {
            let amount = state.visible_height / 2;
            state.scroll(-(amount as isize));
            KeyOutcome::Handled
        },
        KeyCode::PageDown => {
            let amount = state.visible_height / 2;
            state.scroll(amount as isize);
            KeyOutcome::Handled
        },
        KeyCode::Up => {
            up(state, m);
            KeyOutcome::Handled
        },
        KeyCode::Down => {
            down(state, m);
            KeyOutcome::Handled
        },
        KeyCode::Other => KeyOutcome::Handled,
    }
}

// ---------------------------------------------------------------------------
// Mouse and Ctrl+C
// ---------------------------------------------------------------------------

/// Handle mouse events: the wheel scrolls by three lines.
pub fn handle_mouse_event(state: &mut TuiState, kind: MouseEventKind)
    ensures
        match kind {
            MouseEventKind::ScrollDown => scrolled_to(
                *old(state),
                *final(state),
                scrolled(old(state).scroll_offset as int, 3, old(state).max_scroll_offset as int),
            ),
            MouseEventKind::ScrollUp => scrolled_to(
                *old(state),
                *final(state),
                scrolled(old(state).scroll_offset as int, -3, old(state).max_scroll_offset as int),
            ),
            MouseEventKind::Other => unchanged(*old(state), *final(state)),
        },
{
    match kind {
        MouseEventKind::ScrollDown => state.scroll(3),
        MouseEventKind::ScrollUp => state.scroll(-3),
        MouseEventKind::Other => {},
    }
}

/// Milliseconds within which a second Ctrl+C quits.
pub const DOUBLE_PRESS_WINDOW_MS: u64 = 3000;

/// A Ctrl+C at `now` (milliseconds) is the second press within the window,
/// the first not having interrupted an agent.
pub open spec fn second_press(s: TuiState, now: u64) -> bool {
    s.last_interrupt_time matches Some(t) && !s.last_interrupt_was_process && (if now >= t {
        now - t
    } else {
        0
    }) < DOUBLE_PRESS_WINDOW_MS
}

/// The agent is thinking or running a tool.
pub open spec fn agent_busy(agent_state: Option<AgentState>) -> bool {
    match agent_state {
        Some(AgentState::Processing) => true,
        Some(AgentState::RunningTool { .. }) => true,
        _ => false,
    }
}

/// Handle Ctrl+C with multi-level behaviour, at time `now` (milliseconds)
/// with the selected agent in `agent_state` (`None` where it could not be
/// read). A second press within three seconds quits; a press while the
/// agent works interrupts it (the result is `true`: the application sends
/// the interrupt) and does not count towards quitting; otherwise the press
/// starts the timer and says so in a popup.
pub fn handle_ctrl_c_interrupt(state: &mut TuiState, now: u64, agent_state: Option<AgentState>) -> (interrupt: bool)
    ensures
        same_editor(*old(state), *final(state)),
        same_history(*old(state), *final(state)),
        final(state).scroll_offset == old(state).scroll_offset,
        final(state).max_scroll_offset == old(state).max_scroll_offset,
        final(state).visible_height == old(state).visible_height,
        final(state).selected_agent_id == old(state).selected_agent_id,
        second_press(*old(state), now) ==> {
            &&& !interrupt
            &&& final(state).should_quit
            &&& final(state).temp_output.visible
            &&& final(state).temp_output.title@ == "Exiting Application"@
            &&& text::string_views(final(state).temp_output.content@) == text::lines(
                "Received second Ctrl+C. Exiting application..."@,
            )
            &&& final(state).last_interrupt_time == old(state).last_interrupt_time
            &&& final(state).last_interrupt_was_process == old(state).last_interrupt_was_process
        },
        !second_press(*old(state), now) && agent_busy(agent_state) ==> {
            &&& interrupt
            &&& final(state).should_quit == old(state).should_quit
            &&& final(state).temp_output == old(state).temp_output
            &&& final(state).last_interrupt_time == Some(now)
            &&& final(state).last_interrupt_was_process
        },
        !second_press(*old(state), now) && !agent_busy(agent_state) ==> {
            &&& !interrupt
            &&& final(state).should_quit == old(state).should_quit
            &&& final(state).temp_output.visible
            &&& final(state).temp_output.title@ == "Interrupt"@
            &&& text::string_views(final(state).temp_output.content@) == text::lines(
                "Press Ctrl+C again within 3 seconds to exit application."@,
            )
            &&& final(state).last_interrupt_time == Some(now)
            &&& !final(state).last_interrupt_was_process
        },
{
    match state.last_interrupt_time {
        Some(last) => {
            let elapsed = if now >= last {
                now - last
            } else {
                0
            };
            if !state.last_interrupt_was_process && elapsed < DOUBLE_PRESS_WINDOW_MS {
                commands::show_command_result(
                    state,
                    text::chars_to_string(&text::str_chars("Exiting Application")),
                    text::chars_to_string(
                        &text::str_chars("Received second Ctrl+C. Exiting application..."),
                    ),
                );
                state.should_quit = true;
                return false;
            }
        },
        None => {},
    }
    let busy = match &agent_state {
        Some(AgentState::Processing) => true,
        Some(AgentState::RunningTool { .. }) => true,
        _ => false,
    };
    if busy {
        state.last_interrupt_time = Some(now);
        state.last_interrupt_was_process = true;
        true
    } else {
        state.last_interrupt_time = Some(now);
        state.last_interrupt_was_process = false;
        commands::show_command_result(
            state,
            text::chars_to_string(&text::str_chars("Interrupt")),
            text::chars_to_string(
                &text::str_chars("Press Ctrl+C again within 3 seconds to exit application."),
            ),
        );
        false
    }
}

/// Going back in the command history and then forward again gives back
/// the input that was being typed, and leaves the history: Up then Down,
/// without Shift, while no temporary output or suggestion list shows.
pub proof fn law_history_up_down_restores_input(
    s0: TuiState,
    s1: TuiState,
    s2: TuiState,
    m: KeyModifiers,
    o1: KeyOutcome,
    o2: KeyOutcome,
)
    requires
        history_ok(s0),
        s0.history_index == -1,
        s0.command_history@.len() > 0,
        !s0.temp_output.visible,
        !in_suggestions(s0),
        !m.shift,
        key_transition(s0, KeyEvent { code: KeyCode::Up, modifiers: m }, s1, o1),
        key_transition(s1, KeyEvent { code: KeyCode::Down, modifiers: m }, s2, o2),
    ensures
        s2.input@ == s0.input@,
        s2.history_index == -1,
        s2.current_input is None,
        s2.command_history == s0.command_history,
        s2.cursor_position == utf8_len(s0.input@),
{
    assert(history_back(s0, s1));
    assert(s1.history_index == 0);
    assert(!in_suggestions(s1));
    assert(history_forward(s1, s2));
}

} // verus!
