//! Command suggestions popup for command autocompletion
use vstd::prelude::*;
use crate::text::{self, starts_with, trim_start_char};

verus! {

/// Command suggestion entry
#[derive(Clone, Debug)]
pub struct CommandSuggestion {
    /// Command name (including the slash)
    pub name: String,
    /// Command description
    pub description: String,
}

impl View for CommandSuggestion {
    type V = (Seq<char>, Seq<char>);

    open spec fn view(&self) -> (Seq<char>, Seq<char>) {
        (self.name@, self.description@)
    }
}

impl CommandSuggestion {
    /// A suggestion with the given name and description.
    pub fn make(name: &str, description: &str) -> (r: Self)
        ensures
            r@ == (name@, description@),
    {
        CommandSuggestion {
            name: text::chars_to_string(&text::str_chars(name)),
            description: text::chars_to_string(&text::str_chars(description)),
        }
    }

    /// A copy of this suggestion.
    pub fn duplicate(&self) -> (r: Self)
        ensures
            r@ == self@,
    {
        CommandSuggestion {
            name: text::chars_to_string(&text::str_chars(self.name.as_str())),
            description: text::chars_to_string(&text::str_chars(self.description.as_str())),
        }
    }
}

/// The views of a list of suggestions.
pub open spec fn suggestion_views(v: Seq<CommandSuggestion>) -> Seq<(Seq<char>, Seq<char>)> {
    v.map_values(|c: CommandSuggestion| c@)
}

/// The suggestions whose name, without its leading slashes, starts with
/// `search`, in order.
pub open spec fn matching(all: Seq<(Seq<char>, Seq<char>)>, search: Seq<char>) -> Seq<
    (Seq<char>, Seq<char>),
>
    decreases all.len(),
{
    if all.len() == 0 {
        seq![]
    } else {
        let rest = matching(all.drop_last(), search);
        if starts_with(trim_start_char(all.last().0, '/'), search) {
            rest.push(all.last())
        } else {
            rest
        }
    }
}

/// The suggestions shown for `input`: all of them when `input` is only
/// slashes, else those matching the input without its leading slashes.
pub open spec fn suggestions_for(all: Seq<(Seq<char>, Seq<char>)>, input: Seq<char>) -> Seq<
    (Seq<char>, Seq<char>),
> {
    let search = trim_start_char(input, '/');
    if search.len() == 0 {
        all
    } else {
        matching(all, search)
    }
}

/// Copies of `v`, in order.
pub fn copy_suggestions(v: &Vec<CommandSuggestion>) -> (r: Vec<CommandSuggestion>)
    ensures
        suggestion_views(r@) == suggestion_views(v@),
{
    let mut r: Vec<CommandSuggestion> = Vec::new();
    let mut i: usize = 0;
    while i < v.len()
        invariant
            i <= v.len(),
            suggestion_views(r@) == suggestion_views(v@).take(i as int),
        decreases v.len() - i,
    {
        let ghost before = r@;
        r.push(v[i].duplicate());
        assert(suggestion_views(r@) =~= suggestion_views(before).push(v@[i as int]@));
        assert(suggestion_views(v@).take(i + 1) =~= suggestion_views(v@).take(i as int).push(
            v@[i as int]@,
        ));
        i = i + 1;
    }
    assert(suggestion_views(v@).take(v.len() as int) =~= suggestion_views(v@));
    r
}

/// The suggestions among `all` shown for `input`.
pub fn filter_suggestions(all: &Vec<CommandSuggestion>, input: &str) -> (r: Vec<CommandSuggestion>)
    ensures
        suggestion_views(r@) == suggestions_for(suggestion_views(all@), input@),
{
    let search = text::trim_start_matches(&text::str_chars(input), '/');
    if search.len() == 0 {
        return copy_suggestions(all);
    }
    let mut r: Vec<CommandSuggestion> = Vec::new();
    let mut i: usize = 0;
    while i < all.len()
        invariant
            i <= all.len(),
            search@ == trim_start_char(input@, '/'),
            suggestion_views(r@) == matching(suggestion_views(all@).take(i as int), search@),
        decreases all.len() - i,
    {
        let ghost pre = suggestion_views(all@).take(i as int);
        assert(suggestion_views(all@).take(i + 1).drop_last() =~= pre);
        let name = text::trim_start_matches(&text::str_chars(all[i].name.as_str()), '/');
        if text::has_prefix(&name, &search) {
            let ghost before = r@;
            r.push(all[i].duplicate());
            assert(suggestion_views(r@) =~= suggestion_views(before).push(all@[i as int]@));
        }
        i = i + 1;
    }
    assert(suggestion_views(all@).take(all.len() as int) =~= suggestion_views(all@));
    r
}

/// Command suggestions popup for auto-completion
pub struct CommandSuggestionsPopup {
    /// List of all available commands
    pub all_commands: Vec<CommandSuggestion>,
    /// Filtered commands matching the current input
    pub filtered_commands: Vec<CommandSuggestion>,
    /// Currently selected command index
    pub selected_index: usize,
    /// Whether the popup is visible
    pub visible: bool,
}

/// The commands that the popup offers, with their descriptions.
pub open spec fn offered_commands() -> Seq<(Seq<char>, Seq<char>)> {
    seq![
        ("/help"@, "Show available commands"@),
        ("/exit"@, "Exit the application"@),
        ("/quit"@, "Exit the application"@),
        ("/interrupt"@, "Interrupt the current agent"@),
        ("/model"@, "Set the model for the current agent"@),
        ("/tools"@, "Enable or disable tools"@),
        ("/system"@, "Set the system prompt"@),
        ("/reset"@, "Reset the conversation"@),
        ("/thinking"@, "Set the thinking budget in tokens"@),
    ]
}

/// Each offered command name is short: its encoding takes at most 40
/// bytes.
pub proof fn lemma_offered_names_fit()
    ensures
        forall|i: int|
            0 <= i < offered_commands().len() ==> text::utf8_len(#[trigger] offered_commands()[i].0)
                <= 40,
{
    reveal_strlit("/help");
    reveal_strlit("/exit");
    reveal_strlit("/quit");
    reveal_strlit("/interrupt");
    reveal_strlit("/model");
    reveal_strlit("/tools");
    reveal_strlit("/system");
    reveal_strlit("/reset");
    reveal_strlit("/thinking");
    assert forall|i: int|
        0 <= i < offered_commands().len() implies text::utf8_len(#[trigger] offered_commands()[i].0)
        <= 40 by {
        text::lemma_utf8_len_bound(offered_commands()[i].0);
    }
}

/// The index after `i` among `n` entries, wrapping to the first.
pub open spec fn next_index(i: int, n: int) -> int {
    (i + 1) % n
}

impl CommandSuggestionsPopup {
    /// Create a new command suggestions popup, hidden, offering all commands
    pub fn new() -> (r: Self)
        ensures
            suggestion_views(r.all_commands@) == offered_commands(),
            suggestion_views(r.filtered_commands@) == offered_commands(),
            r.selected_index == 0,
            !r.visible,
    {
        let mut all: Vec<CommandSuggestion> = Vec::new();
        all.push(CommandSuggestion::make("/help", "Show available commands"));
        all.push(CommandSuggestion::make("/exit", "Exit the application"));
        all.push(CommandSuggestion::make("/quit", "Exit the application"));
        all.push(CommandSuggestion::make("/interrupt", "Interrupt the current agent"));
        all.push(CommandSuggestion::make("/model", "Set the model for the current agent"));
        all.push(CommandSuggestion::make("/tools", "Enable or disable tools"));
        all.push(CommandSuggestion::make("/system", "Set the system prompt"));
        all.push(CommandSuggestion::make("/reset", "Reset the conversation"));
        all.push(CommandSuggestion::make("/thinking", "Set the thinking budget in tokens"));
        assert(suggestion_views(all@) =~= offered_commands());
        let filtered = copy_suggestions(&all);
        Self { all_commands: all, filtered_commands: filtered, selected_index: 0, visible: false }
    }

    /// Show the suggestions popup and filter based on current input
    pub fn show(&mut self, current_input: &str)
        ensures
            final(self).visible,
            suggestion_views(final(self).all_commands@) == suggestion_views(old(self).all_commands@),
            suggestion_views(final(self).filtered_commands@) == suggestions_for(
                suggestion_views(old(self).all_commands@),
                current_input@,
            ),
            final(self).selected_index == 0,
    {
        self.visible = true;
        self.update_suggestions(current_input);
    }

    /// Hide the suggestions popup (`hide` is a word of Verus)
    pub fn dismiss(&mut self)
        ensures
            !final(self).visible,
            final(self).all_commands == old(self).all_commands,
            final(self).filtered_commands == old(self).filtered_commands,
            final(self).selected_index == old(self).selected_index,
    {
        self.visible = false;
    }

    /// Update filtered suggestions based on current input
    pub fn update_suggestions(&mut self, current_input: &str)
        ensures
            final(self).visible == old(self).visible,
            suggestion_views(final(self).all_commands@) == suggestion_views(old(self).all_commands@),
            suggestion_views(final(self).filtered_commands@) == suggestions_for(
                suggestion_views(old(self).all_commands@),
                current_input@,
            ),
            final(self).selected_index == 0,
    {
        self.filtered_commands = filter_suggestions(&self.all_commands, current_input);
        self.selected_index = 0;
    }

    /// Select the next suggestion, wrapping to the first
    pub fn next(&mut self)
        requires
            old(self).filtered_commands@.len() > 0 ==> old(self).selected_index < usize::MAX,
        ensures
            final(self).visible == old(self).visible,
            final(self).all_commands == old(self).all_commands,
            final(self).filtered_commands == old(self).filtered_commands,
            old(self).filtered_commands@.len() > 0 ==> final(self).selected_index == next_index(
                old(self).selected_index as int,
                old(self).filtered_commands@.len() as int,
            ),
            old(self).filtered_commands@.len() == 0 ==> final(self).selected_index == old(
                self,
            ).selected_index,
    {
        if self.filtered_commands.len() > 0 {
            self.selected_index = (self.selected_index + 1) % self.filtered_commands.len();
        }
    }

    /// Get the currently selected command if any
    pub fn selected_command(&self) -> (r: Option<&CommandSuggestion>)
        ensures
            self.selected_index < self.filtered_commands@.len() ==> r == Some(
                &self.filtered_commands@[self.selected_index as int],
            ),
            self.selected_index >= self.filtered_commands@.len() ==> r is None,
    {
        if self.filtered_commands.len() == 0 {
            None
        } else if self.selected_index < self.filtered_commands.len() {
            Some(&self.filtered_commands[self.selected_index])
        } else {
            None
        }
    }
}

/// The selection after stepping to the next suggestion `k` times from `i`,
/// among `n` suggestions.
pub open spec fn next_times(i: int, k: nat, n: int) -> int
    decreases k,
{
    if k == 0 {
        i
    } else {
        next_index(next_times(i, (k - 1) as nat, n), n)
    }
}

/// Stepping to the next suggestion `k` times moves the selection `k` places
/// round the list.
pub proof fn lemma_next_times(i: int, k: nat, n: int)
    requires
        0 <= i < n,
    ensures
        next_times(i, k, n) == (i + k) % n,
    decreases k,
{
    if k > 0 {
        let km = (k - 1) as nat;
        lemma_next_times(i, km, n);
        let x = i + km;
        assert(next_times(i, km, n) == x % n);
        assert(next_times(i, k, n) == (x % n + 1) % n);
        vstd::arithmetic::div_mod::lemma_add_mod_noop_right(1, x, n);
        assert((1 + x % n) % n == (1 + x) % n);
        assert(x % n + 1 == 1 + x % n);
        assert(1 + x == i + k);
    } else {
        vstd::arithmetic::div_mod::lemma_small_mod(i as nat, n as nat);
    }
}

/// Stepping to the next suggestion as many times as there are suggestions
/// comes back to the one selected.
pub proof fn law_next_cycles(i: int, n: int)
    requires
        0 <= i < n,
    ensures
        next_times(i, n as nat, n) == i,
{
    lemma_next_times(i, n as nat, n);
    vstd::arithmetic::div_mod::lemma_mod_add_multiples_vanish(i, n);
    vstd::arithmetic::div_mod::lemma_small_mod(i as nat, n as nat);
}

} // verus!
