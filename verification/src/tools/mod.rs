//! Tool results, the tool executor's access rules, and shortening of long
//! tool output.
use vstd::prelude::*;
use crate::agent::AgentId;
use crate::constants::{
    MAX_TOOL_OUTPUT_LENGTH, PRESERVED_END_LENGTH, PRESERVED_START_LENGTH, PRESERVE_OUTPUT_END,
    TRUNCATION_PLACEHOLDER,
};
use crate::llm::Content;
use crate::text::{self, utf8_len};

pub mod agent;
pub mod async_executor;
pub mod done;
pub mod dynamic_mcp;
pub mod fetch;
pub mod patch;
pub mod path_utils;
pub mod read;
pub mod search;
pub mod input;
pub mod mcp;
pub mod mcp_by_name;
pub mod screendump;
pub mod shell;
pub mod task;
pub mod shell_async;
pub mod ui;
pub mod wait;
pub mod write;

verus! {

/// Possible state changes that a tool can request for the agent
#[derive(Debug, Clone, Copy, PartialEq, Eq, Structural)]
pub enum AgentStateChange {
    /// Continue processing normally
    Continue,
    /// Put the agent in waiting state
    Wait,
    /// Mark the agent as done
    Done,
}

impl Default for AgentStateChange {
    fn default() -> (r: Self)
        ensures
            r == AgentStateChange::Continue,
    {
        AgentStateChange::Continue
    }
}

/// The outcome of running a tool.
#[derive(Debug, Clone)]
pub struct ToolResult {
    /// Whether the tool execution was successful
    pub success: bool,
    /// Requested state change for the agent
    pub state_change: AgentStateChange,
    /// Content representing the tool's output as LLM content objects
    pub content: Vec<Content>,
}

/// Text of the content pieces: each text piece followed by a newline, other
/// pieces by a fixed notice.
pub open spec fn contents_text(c: Seq<Content>) -> Seq<char>
    decreases c.len(),
{
    if c.len() == 0 {
        seq![]
    } else {
        contents_text(c.drop_last()) + match c.last() {
            Content::Text { text } => text@ + "\n"@,
            _ => "[Complex content - see formatted response]\n"@,
        }
    }
}

/// The text of a content list made of one text piece.
pub open spec fn single_text(c: Seq<Content>) -> Option<Seq<char>> {
    if c.len() == 1 {
        match c[0] {
            Content::Text { text } => Some(text@),
            _ => None,
        }
    } else {
        None
    }
}

/// `r` is a failed result, continuing, whose one text piece is `msg`.
pub open spec fn is_error_with(r: ToolResult, msg: Seq<char>) -> bool {
    !r.success && r.state_change == AgentStateChange::Continue && single_text(r.content@) == Some(msg)
}

impl ToolResult {
    fn with_text(success: bool, state_change: AgentStateChange, text: String) -> (r: Self)
        ensures
            r.success == success,
            r.state_change == state_change,
            r.content@ == seq![Content::Text { text }],
    {
        let mut content: Vec<Content> = Vec::new();
        content.push(Content::Text { text });
        ToolResult { success, state_change, content }
    }

    /// Create a successful tool result that continues processing
    pub fn success(output: String) -> (r: Self)
        ensures
            r.success,
            r.state_change == AgentStateChange::Continue,
            r.content@ == seq![Content::Text { text: output }],
    {
        Self::with_text(true, AgentStateChange::Continue, output)
    }

    /// Create a successful tool result with multiple content items
    pub fn success_with_content(content: Vec<Content>) -> (r: Self)
        ensures
            r.success,
            r.state_change == AgentStateChange::Continue,
            r.content == content,
    {
        ToolResult { success: true, state_change: AgentStateChange::Continue, content }
    }

    /// Create a successful tool result from MCP content, each converted to
    /// content for the language model
    pub fn success_from_mcp(mcp_content: Vec<crate::tools::mcp::McpContent>) -> (r: Self)
        ensures
            r.success,
            r.state_change == AgentStateChange::Continue,
            r.content@ == mcp_content@.map_values(
                |c: crate::tools::mcp::McpContent| crate::tools::mcp::llm_content(c),
            ),
    {
        Self::success_with_content(crate::tools::mcp::to_llm_contents(mcp_content))
    }

    /// Create a default tool result with continue state
    pub fn default(success: bool, output: String) -> (r: Self)
        ensures
            r.success == success,
            r.state_change == AgentStateChange::Continue,
            r.content@ == seq![Content::Text { text: output }],
    {
        Self::with_text(success, AgentStateChange::Continue, output)
    }

    /// Create an error tool result
    pub fn error(message: String) -> (r: Self)
        ensures
            !r.success,
            r.state_change == AgentStateChange::Continue,
            r.content@ == seq![Content::Text { text: message }],
    {
        Self::with_text(false, AgentStateChange::Continue, message)
    }

    /// Create an error tool result with a formatted message
    pub fn error_formatted(message: String) -> (r: Self)
        ensures
            !r.success,
            r.state_change == AgentStateChange::Continue,
            r.content@ == seq![Content::Text { text: message }],
    {
        Self::error(message)
    }

    /// Create a tool result that puts the agent in waiting state; the agent
    /// is told "Resumed" when it continues.
    pub fn wait(_reason: String) -> (r: Self)
        ensures
            r.success,
            r.state_change == AgentStateChange::Wait,
            r.content@.len() == 1,
            r.content@[0] matches Content::Text { text } && text@ == "Resumed"@,
    {
        Self::with_text(true, AgentStateChange::Wait, text::chars_to_string(&text::str_chars("Resumed")))
    }

    /// Create a tool result that marks the agent as done
    pub fn done(summary: String) -> (r: Self)
        ensures
            r.success,
            r.state_change == AgentStateChange::Done,
            r.content@ == seq![Content::Text { text: summary }],
    {
        Self::with_text(true, AgentStateChange::Done, summary)
    }

    /// Get a text representation of the content
    pub fn to_text(&self) -> (r: String)
        ensures
            r@ == contents_text(self.content@),
    {
        let mut out: Vec<char> = Vec::new();
        let mut i: usize = 0;
        while i < self.content.len()
            invariant
                i <= self.content.len(),
                out@ == contents_text(self.content@.take(i as int)),
            decreases self.content.len() - i,
        {
            assert(self.content@.take(i + 1).drop_last() =~= self.content@.take(i as int));
            match &self.content[i] {
                Content::Text { text } => {
                    text::append_str(&mut out, text.as_str());
                    text::append_str(&mut out, "\n");
                },
                _ => {
                    text::append_str(&mut out, "[Complex content - see formatted response]\n");
                },
            }
            i = i + 1;
        }
        assert(self.content@.take(self.content.len() as int) =~= self.content@);
        text::chars_to_string(&out)
    }
}

// ---------------------------------------------------------------------------
// Executor
// ---------------------------------------------------------------------------

/// Handles tool execution with consistent processing
pub struct ToolExecutor {
    /// Whether tools are in read-only mode
    readonly_mode: bool,
    /// Whether to suppress console output
    silent_mode: bool,
    /// ID of the agent that owns this tool executor
    agent_id: Option<AgentId>,
    /// List of tools that are specifically disabled
    disabled_tools: Vec<String>,
}

/// Tools that read but do not change anything, and so run in read-only mode.
pub open spec fn readonly_tool(name: Seq<char>) -> bool {
    name == "read"@ || name == "shell"@ || name == "asyncshell"@ || name == "asyncshell-list"@
        || name == "asyncshell-kill"@ || name == "fetch"@ || name == "search"@ || name
        == "screenshot"@ || name == "screendump"@ || name == "done"@ || name == "task"@ || name
        == "agent"@ || name == "wait"@ || name == "computer"@
}

/// The form in which tool names are compared: trimmed, in lower case.
pub open spec fn tool_key(name: Seq<char>) -> Seq<char> {
    lowercase_of(text::trim(name))
}

/// Lower case as `str::to_lowercase` gives it.
pub open spec fn lowercase_of(s: Seq<char>) -> Seq<char> {
    text::lowercase(s)
}

/// Some entry of `disabled` names the tool `name`.
pub open spec fn disabled_in(disabled: Seq<Seq<char>>, name: Seq<char>) -> bool {
    disabled_key(disabled, tool_key(name))
}

/// Whether some disabled tool, trimmed and lowercased, is `key`.
pub open spec fn disabled_key(disabled: Seq<Seq<char>>, key: Seq<char>) -> bool {
    exists|i: int| 0 <= i < disabled.len() && tool_key(#[trigger] disabled[i]) == key
}

/// The tools that the built-in dispatcher knows by name.
pub open spec fn builtin_tool(name: Seq<char>) -> bool {
    name == "agent"@ || name == "read"@ || name == "write"@ || name == "patch"@ || name
        == "fetch"@ || name == "search"@ || name == "screenshot"@ || name == "input"@ || name
        == "done"@ || name == "task"@ || name == "screendump"@ || name == "wait"@
}

/// Where a tool call goes.
pub enum ToolRoute {
    /// A built-in tool, by its normalised name
    Builtin(String),
    /// A tool of the MCP server of that name
    Mcp(String),
    /// Refused, with the result to report
    Refused(ToolResult),
}

impl ToolExecutor {
    pub closed spec fn readonly(&self) -> bool {
        self.readonly_mode
    }

    pub closed spec fn silent(&self) -> bool {
        self.silent_mode
    }

    pub closed spec fn owner(&self) -> Option<AgentId> {
        self.agent_id
    }

    pub closed spec fn disabled(&self) -> Seq<Seq<char>> {
        text::string_views(self.disabled_tools@)
    }

    /// Create a new tool executor
    pub fn new(readonly_mode: bool, silent_mode: bool) -> (r: Self)
        ensures
            r.readonly() == readonly_mode,
            r.silent() == silent_mode,
            r.owner() is None,
            r.disabled() == Seq::<Seq<char>>::empty(),
    {
        let r = Self { readonly_mode, silent_mode, agent_id: None, disabled_tools: Vec::new() };
        assert(r.disabled() =~= Seq::<Seq<char>>::empty());
        r
    }

    /// Create a new tool executor with agent ID
    pub fn with_agent_id(readonly_mode: bool, silent_mode: bool, agent_id: AgentId) -> (r: Self)
        ensures
            r.readonly() == readonly_mode,
            r.silent() == silent_mode,
            r.owner() == Some(agent_id),
            r.disabled() == Seq::<Seq<char>>::empty(),
    {
        let r = Self {
            readonly_mode,
            silent_mode,
            agent_id: Some(agent_id),
            disabled_tools: Vec::new(),
        };
        assert(r.disabled() =~= Seq::<Seq<char>>::empty());
        r
    }

    /// Set the list of disabled tools
    pub fn set_disabled_tools(&mut self, disabled_tools: Vec<String>)
        ensures
            final(self).disabled() == text::string_views(disabled_tools@),
            final(self).readonly() == old(self).readonly(),
            final(self).silent() == old(self).silent(),
            final(self).owner() == old(self).owner(),
    {
        self.disabled_tools = disabled_tools;
    }

    /// The silent flag given at construction never changes: along any
    /// number of `set_disabled_tools` calls starting from an executor made
    /// silent or not, every executor has that flag.
    pub proof fn law_silent_flag_stays(silent_mode: bool, execs: Seq<ToolExecutor>, lists: Seq<Seq<Seq<char>>>)
        requires
            execs.len() == lists.len() + 1,
            execs[0].silent() == silent_mode,
            forall|i: int|
                0 <= i < lists.len() ==> {
                    &&& (#[trigger] execs[i + 1]).disabled() == lists[i]
                    &&& execs[i + 1].readonly() == execs[i].readonly()
                    &&& execs[i + 1].silent() == execs[i].silent()
                    &&& execs[i + 1].owner() == execs[i].owner()
                },
        ensures
            forall|j: int| 0 <= j < execs.len() ==> (#[trigger] execs[j]).silent() == silent_mode,
        decreases lists.len(),
    {
        if lists.len() > 0 {
            let k = lists.len() - 1;
            Self::law_silent_flag_stays(silent_mode, execs.take(k + 1), lists.take(k));
            assert forall|j: int| 0 <= j < execs.len() implies (#[trigger] execs[j]).silent()
                == silent_mode by {
                if j <= k {
                    assert(execs.take(k + 1)[j] == execs[j]);
                } else {
                    assert(execs.take(k + 1)[k] == execs[k]);
                    assert(execs[k + 1].silent() == execs[k].silent());
                }
            }
        }
    }

    /// Check if executor is in silent mode
    pub fn is_silent(&self) -> (r: bool)
        ensures
            r == self.silent(),
    {
        self.silent_mode
    }

    /// The agent that owns this executor, if any.
    pub fn agent(&self) -> (r: Option<AgentId>)
        ensures
            r == self.owner(),
    {
        self.agent_id
    }

    /// Check if a specific tool is disabled
    pub fn is_tool_disabled(&self, tool_name: &str) -> (r: bool)
        ensures
            r == disabled_in(self.disabled(), tool_name@),
    {
        let key = text::to_lowercase(&text::trim_chars(&text::str_chars(tool_name)));
        self.has_disabled_key(&key)
    }

    /// Whether some disabled tool, trimmed and lowercased, is `key`.
    fn has_disabled_key(&self, key: &Vec<char>) -> (r: bool)
        ensures
            r == disabled_key(self.disabled(), key@),
    {
        let mut i: usize = 0;
        while i < self.disabled_tools.len()
            invariant
                i <= self.disabled_tools.len(),
                self.disabled() == text::string_views(self.disabled_tools@),
                forall|j: int| 0 <= j < i ==> tool_key(#[trigger] self.disabled()[j]) != key@,
            decreases self.disabled_tools.len() - i,
        {
            let d = text::to_lowercase(
                &text::trim_chars(&text::str_chars(self.disabled_tools[i].as_str())),
            );
            assert(self.disabled()[i as int] == self.disabled_tools@[i as int]@);
            if text::chars_eq(&d, key) {
                return true;
            }
            i = i + 1;
        }
        false
    }

    /// Check if a tool is read-only
    pub fn is_readonly_tool(&self, name: &str) -> (r: bool)
        ensures
            r == readonly_tool(name@),
    {
        let n = text::str_chars(name);
        text::chars_eq_str(&n, "read") || text::chars_eq_str(&n, "shell") || text::chars_eq_str(
            &n,
            "asyncshell",
        ) || text::chars_eq_str(&n, "asyncshell-list") || text::chars_eq_str(
            &n,
            "asyncshell-kill",
        ) || text::chars_eq_str(&n, "fetch") || text::chars_eq_str(&n, "search")
            || text::chars_eq_str(&n, "screenshot") || text::chars_eq_str(&n, "screendump")
            || text::chars_eq_str(&n, "done") || text::chars_eq_str(&n, "task")
            || text::chars_eq_str(&n, "agent") || text::chars_eq_str(&n, "wait")
            || text::chars_eq_str(&n, "computer")
    }

    /// Decides where a call of tool `tool_name` goes: refused when the tool
    /// is disabled, or when in read-only mode it is not a read-only tool or
    /// it is an MCP tool; a built-in tool when the dispatcher knows the name;
    /// an MCP server's tool when `is_mcp_server` says the name is one; and
    /// refused as unknown otherwise.
    pub fn route(&self, tool_name: &str, is_mcp_server: bool) -> (r: ToolRoute)
        ensures
            ({
                let name = tool_key(tool_name@);
                if disabled_key(self.disabled(), name) {
                    r matches ToolRoute::Refused(res) && is_error_with(
                        res,
                        "Tool '"@ + name + "' has been disabled by user configuration"@,
                    )
                } else if self.readonly() && !readonly_tool(name) {
                    r matches ToolRoute::Refused(res) && is_error_with(
                        res,
                        "Tool '"@ + name + "' is not available in read-only mode"@,
                    )
                } else if builtin_tool(name) {
                    r matches ToolRoute::Builtin(n) && n@ == name
                } else if is_mcp_server {
                    if self.readonly() {
                        r matches ToolRoute::Refused(res) && is_error_with(
                            res,
                            "MCP tool '"@ + name + "' is not available in read-only mode"@,
                        )
                    } else {
                        r matches ToolRoute::Mcp(n) && n@ == name
                    }
                } else {
                    r matches ToolRoute::Refused(res) && is_error_with(
                        res,
                        "Unknown tool: \""@ + name + "\""@,
                    )
                }
            }),
    {
        let name = text::to_lowercase(&text::trim_chars(&text::str_chars(tool_name)));
        let name_s = text::chars_to_string(&name);
        if self.has_disabled_key(&name) {
            return ToolRoute::Refused(
                ToolResult::error(
                    quoted("Tool '", &name, "' has been disabled by user configuration"),
                ),
            );
        }
        if self.readonly_mode && !self.is_readonly_tool(name_s.as_str()) {
            return ToolRoute::Refused(
                ToolResult::error(quoted("Tool '", &name, "' is not available in read-only mode")),
            );
        }
        let builtin = text::chars_eq_str(&name, "agent") || text::chars_eq_str(&name, "read")
            || text::chars_eq_str(&name, "write") || text::chars_eq_str(&name, "patch")
            || text::chars_eq_str(&name, "fetch") || text::chars_eq_str(&name, "search")
            || text::chars_eq_str(&name, "screenshot") || text::chars_eq_str(&name, "input")
            || text::chars_eq_str(&name, "done") || text::chars_eq_str(&name, "task")
            || text::chars_eq_str(&name, "screendump") || text::chars_eq_str(&name, "wait");
        if builtin {
            ToolRoute::Builtin(name_s)
        } else if is_mcp_server {
            if self.readonly_mode {
                ToolRoute::Refused(
                    ToolResult::error(
                        quoted("MCP tool '", &name, "' is not available in read-only mode"),
                    ),
                )
            } else {
                ToolRoute::Mcp(name_s)
            }
        } else {
            ToolRoute::Refused(ToolResult::error(quoted("Unknown tool: \"", &name, "\"")))
        }
    }
}

/// `pre`, then `name`, then `post`, as a string.
fn quoted(pre: &str, name: &Vec<char>, post: &str) -> (r: String)
    ensures
        r@ == pre@ + name@ + post@,
{
    let mut v = text::str_chars(pre);
    text::append_chars(&mut v, name);
    text::append_str(&mut v, post);
    text::chars_to_string(&v)
}

// ---------------------------------------------------------------------------
// Shortening long output
// ---------------------------------------------------------------------------

/// `p` characters of `s` are kept for a start budget of `a` bytes: the
/// longest prefix whose encoding has at most `a` bytes.
pub open spec fn is_prefix_cut(s: Seq<char>, a: int, p: int) -> bool {
    &&& 0 <= p <= s.len()
    &&& utf8_len(s.take(p)) <= a
    &&& (p == s.len() || utf8_len(s.take(p + 1)) > a)
}

/// The characters of `s` from index `q` on are kept for an end budget of `e`
/// bytes: the longest suffix whose encoding has at most `e` bytes.
pub open spec fn is_suffix_cut(s: Seq<char>, e: int, q: int) -> bool {
    &&& 0 <= q <= s.len()
    &&& utf8_len(s) - utf8_len(s.take(q)) <= e
    &&& forall|k: int| 0 <= k < q ==> utf8_len(s) - utf8_len(#[trigger] s.take(k)) > e
}

/// The byte budgets for start and end: as given when start, end and
/// placeholder fit in `max`; otherwise the room left beside the placeholder
/// is shared in proportion to the given budgets, rounded down for the start.
pub open spec fn kept_lengths(max: int, start: int, end: int, ph: int) -> (int, int) {
    if start + end + ph > max {
        let avail = if max > ph {
            max - ph
        } else {
            0
        };
        let s = if start + end == 0 {
            0
        } else {
            avail * start / (start + end)
        };
        (s, avail - s)
    } else {
        (start, end)
    }
}

/// The end budget that the output shortening uses.
pub open spec fn end_budget(end_length: Option<usize>) -> int {
    if PRESERVE_OUTPUT_END {
        match end_length {
            Some(e) => e as int,
            None => PRESERVED_END_LENGTH as int,
        }
    } else {
        0
    }
}

/// `content` shortened to about `max` bytes: unchanged where it fits, or its
/// first characters, the placeholder, and (where the end budget is not zero)
/// its last characters.
pub open spec fn shortened(
    content: Seq<char>,
    max: int,
    start: int,
    end: int,
    ph: Seq<char>,
    r: Seq<char>,
) -> bool {
    if utf8_len(content) <= max {
        r == content
    } else {
        let (ks, ke) = kept_lengths(max, start, end, utf8_len(ph) as int);
        exists|p: int, q: int| #[trigger] cut_at(content, ks, ke, ph, r, p, q)
    }
}

/// `r` is `content` cut after `p` characters and from index `q` on, for the
/// budgets `ks` and `ke`, with `ph` between (and no end part where `ke` is
/// zero).
pub open spec fn cut_at(
    content: Seq<char>,
    ks: int,
    ke: int,
    ph: Seq<char>,
    r: Seq<char>,
    p: int,
    q: int,
) -> bool {
    is_prefix_cut(content, ks, p) && if ke > 0 {
        is_suffix_cut(content, ke, q) && r == content.take(p) + ph + content.skip(q)
    } else {
        q == 0 && r == content.take(p) + ph
    }
}

/// A shortened text takes at most `max` bytes where the placeholder fits.
pub proof fn lemma_shortened_fits(
    content: Seq<char>,
    max: int,
    start: int,
    end: int,
    ph: Seq<char>,
    r: Seq<char>,
)
    requires
        shortened(content, max, start, end, ph, r),
        0 <= start,
        0 <= end,
        utf8_len(ph) <= max,
    ensures
        utf8_len(r) <= max,
{
    if utf8_len(content) > max {
        let (ks, ke) = kept_lengths(max, start, end, utf8_len(ph) as int);
        if start + end + utf8_len(ph) > max && start + end != 0 {
            let avail = if max > utf8_len(ph) { max - utf8_len(ph) } else { 0 };
            assert(avail * start / (start + end) <= avail) by (nonlinear_arith)
                requires
                    avail >= 0,
                    0 <= start,
                    0 <= end,
                    start + end > 0,
            {
                assert(avail * start <= avail * (start + end));
                vstd::arithmetic::div_mod::lemma_div_is_ordered(avail * start, avail * (start + end), start + end);
                vstd::arithmetic::div_mod::lemma_div_multiples_vanish(avail, start + end);
            }
        }
        assert(ks + ke + utf8_len(ph) <= max);
        assert(ke >= 0);
        let (p, q) = choose|p: int, q: int| #[trigger] cut_at(content, ks, ke, ph, r, p, q);
        assert(is_prefix_cut(content, ks, p));
        assert(utf8_len(content.take(p)) <= ks);
        text::lemma_utf8_len_concat(content.take(p), ph);
        if ke > 0 {
            assert(is_suffix_cut(content, ke, q));
            text::lemma_utf8_len_concat(content.take(p) + ph, content.skip(q));
            text::lemma_utf8_len_concat(content.take(q), content.skip(q));
            assert(content.take(q) + content.skip(q) =~= content);
            assert(utf8_len(content.skip(q)) <= ke);
            assert(utf8_len(r) == utf8_len(content.take(p)) + utf8_len(ph) + utf8_len(content.skip(q)));
            assert(utf8_len(r) <= max);
        } else {
            assert(utf8_len(r) == utf8_len(content.take(p)) + utf8_len(ph));
            assert(utf8_len(r) <= max);
        }
    }
}

/// Number of leading characters of `c` whose encoding takes at most `a`
/// bytes.
fn prefix_cut(c: &Vec<char>, a: usize) -> (p: usize)
    requires
        utf8_len(c@) <= usize::MAX,
    ensures
        is_prefix_cut(c@, a as int, p as int),
{
    let mut p: usize = 0;
    let mut bytes: usize = 0;
    assert(c@.take(0) =~= Seq::<char>::empty());
    while p < c.len()
        invariant
            p <= c.len(),
            bytes == utf8_len(c@.take(p as int)),
            bytes <= a,
            utf8_len(c@) <= usize::MAX,
        decreases c.len() - p,
    {
        proof {
            text::lemma_utf8_len_take(c@, p as int);
            text::lemma_utf8_len_mono(c@, p as int + 1, c@.len() as int);
            assert(c@.take(c@.len() as int) =~= c@);
        }
        let b = text::char_len_utf8(c[p]);
        if b > a - bytes {
            return p;
        }
        p = p + 1;
        bytes = bytes + b;
    }
    p
}

/// Index from which the characters of `c` take at most `e` bytes, leftmost.
fn suffix_cut(c: &Vec<char>, total: usize, e: usize) -> (q: usize)
    requires
        total == utf8_len(c@),
    ensures
        is_suffix_cut(c@, e as int, q as int),
{
    let mut q: usize = c.len();
    let mut after: usize = 0;
    assert(c@.take(c@.len() as int) =~= c@);
    while q > 0
        invariant
            q <= c.len(),
            total == utf8_len(c@),
            after == utf8_len(c@) - utf8_len(c@.take(q as int)),
            after <= e,
        decreases q,
    {
        proof {
            text::lemma_utf8_len_take(c@, q - 1);
        }
        let b = text::char_len_utf8(c[q - 1]);
        if after > e || b > e - after {
            proof {
                assert forall|k: int| 0 <= k < q implies utf8_len(c@) - utf8_len(
                    #[trigger] c@.take(k),
                ) > e by {
                    text::lemma_utf8_len_mono(c@, k, q - 1);
                }
            }
            return q;
        }
        after = after + b;
        q = q - 1;
    }
    assert(c@.take(0) =~= Seq::<char>::empty());
    q
}

/// The start and end byte budgets, as `kept_lengths` gives them.
fn kept_budgets(max_length: usize, start_length: usize, end_length: usize, ph_len: usize) -> (r: (
    usize,
    usize,
))
    ensures
        (r.0 as int, r.1 as int) == kept_lengths(
            max_length as int,
            start_length as int,
            end_length as int,
            ph_len as int,
        ),
{
    let total_preserved: u128 = start_length as u128 + end_length as u128 + ph_len as u128;
    if total_preserved > max_length as u128 {
        let available: usize = if max_length > ph_len {
            max_length - ph_len
        } else {
            0
        };
        let denom: u128 = start_length as u128 + end_length as u128;
        let s: usize = if denom == 0 {
            0
        } else {
            assert((available as u128) * (start_length as u128) <= u128::MAX) by (nonlinear_arith)
                requires
                    available <= usize::MAX,
                    start_length <= usize::MAX,
                    usize::MAX <= u64::MAX,
            ;
            let prod: u128 = (available as u128) * (start_length as u128);
            let q: u128 = prod / denom;
            assert(q <= available) by (nonlinear_arith)
                requires
                    prod == (available as u128) * (start_length as u128),
                    q == prod / denom,
                    start_length <= denom,
                    denom > 0,
            ;
            q as usize
        };
        (s, available - s)
    } else {
        (start_length, end_length)
    }
}

/// Truncates long string content while respecting UTF-8 character
/// boundaries. Missing budgets and placeholder take the defaults.
pub fn truncate_utf8_content(
    content: &str,
    max_length: Option<usize>,
    start_length: Option<usize>,
    end_length: Option<usize>,
    placeholder: Option<&str>,
) -> (r: String)
    requires
        utf8_len(content@) <= usize::MAX,
        utf8_len(
            match placeholder {
                Some(p) => p@,
                None => TRUNCATION_PLACEHOLDER@,
            },
        ) <= usize::MAX,
    ensures
        utf8_len(
            match placeholder {
                Some(p) => p@,
                None => TRUNCATION_PLACEHOLDER@,
            },
        ) <= match max_length {
            Some(m) => m as int,
            None => MAX_TOOL_OUTPUT_LENGTH as int,
        } ==> utf8_len(r@) <= match max_length {
            Some(m) => m as int,
            None => MAX_TOOL_OUTPUT_LENGTH as int,
        },
        shortened(
            content@,
            match max_length {
                Some(m) => m as int,
                None => MAX_TOOL_OUTPUT_LENGTH as int,
            },
            match start_length {
                Some(s) => s as int,
                None => PRESERVED_START_LENGTH as int,
            },
            end_budget(end_length),
            match placeholder {
                Some(p) => p@,
                None => TRUNCATION_PLACEHOLDER@,
            },
            r@,
        ),
{
    let max_length = match max_length {
        Some(m) => m,
        None => MAX_TOOL_OUTPUT_LENGTH,
    };
    let start_length = match start_length {
        Some(s) => s,
        None => PRESERVED_START_LENGTH,
    };
    let end_length = if PRESERVE_OUTPUT_END {
        match end_length {
            Some(e) => e,
            None => PRESERVED_END_LENGTH,
        }
    } else {
        0
    };
    let ph = match placeholder {
        Some(p) => text::str_chars(p),
        None => text::str_chars(TRUNCATION_PLACEHOLDER),
    };
    let c = text::str_chars(content);
    let total = text::utf8_length(&c).unwrap();
    if total <= max_length {
        return text::chars_to_string(&c);
    }
    let ph_len = text::utf8_length(&ph).unwrap();
    let (actual_start, actual_end) = kept_budgets(max_length, start_length, end_length, ph_len);
    let p = prefix_cut(&c, actual_start);
    let mut out = text::copy_range(&c, 0, p);
    text::append_chars(&mut out, &ph);
    if actual_end > 0 {
        let q = suffix_cut(&c, total, actual_end);
        let tail = text::copy_range(&c, q, c.len());
        text::append_chars(&mut out, &tail);
        proof {
            assert(c@.subrange(0, p as int) =~= c@.take(p as int));
            assert(tail@ =~= c@.skip(q as int));
            assert(is_prefix_cut(c@, actual_start as int, p as int));
            assert(is_suffix_cut(c@, actual_end as int, q as int));
            assert(out@ == c@.take(p as int) + ph@ + c@.skip(q as int));
            assert(cut_at(c@, actual_start as int, actual_end as int, ph@, out@, p as int, q as int));
            assert(shortened(
                content@,
                max_length as int,
                start_length as int,
                end_length as int,
                ph@,
                out@,
            ));
            if ph_len <= max_length {
                lemma_shortened_fits(content@, max_length as int, start_length as int,
                    end_length as int, ph@, out@);
            }
        }
        text::chars_to_string(&out)
    } else {
        proof {
            assert(c@.subrange(0, p as int) =~= c@.take(p as int));
            assert(is_prefix_cut(c@, actual_start as int, p as int));
            assert(out@ == c@.take(p as int) + ph@);
            assert(cut_at(c@, actual_start as int, actual_end as int, ph@, out@, p as int, 0));
            assert(is_prefix_cut(content@, actual_start as int, p as int) && is_suffix_cut(
                content@,
                actual_end as int,
                0,
            ) ==> shortened(
                content@,
                max_length as int,
                start_length as int,
                end_length as int,
                ph@,
                out@,
            ));
            if ph_len <= max_length {
                lemma_shortened_fits(content@, max_length as int, start_length as int,
                    end_length as int, ph@, out@);
            }
        }
        text::chars_to_string(&out)
    }
}

/// Shortens every text piece of `result` longer than the tool output limit,
/// with the default budgets and placeholder; other pieces are kept.
pub fn limit_output(result: ToolResult) -> (r: ToolResult)
    requires
        forall|i: int|
            0 <= i < result.content@.len() ==> (#[trigger] result.content@[i] matches Content::Text {
                text,
            } ==> utf8_len(text@) <= usize::MAX),
    ensures
        r.success == result.success,
        r.state_change == result.state_change,
        r.content@.len() == result.content@.len(),
        forall|i: int| 0 <= i < result.content@.len() ==> limited(#[trigger] result.content@[i], r.content@[i]),
{
    proof {
        reveal_strlit("\n\n[... output truncated ...]\n\n");
        text::lemma_utf8_len_bound(TRUNCATION_PLACEHOLDER@);
    }
    let ghost orig = result.content@;
    let success = result.success;
    let state_change = result.state_change;
    let mut content = result.content;
    let mut i: usize = 0;
    while i < content.len()
        invariant
            i <= content.len(),
            content@.len() == orig.len(),
            forall|j: int|
                0 <= j < orig.len() ==> (#[trigger] orig[j] matches Content::Text {
                    text,
                } ==> utf8_len(text@) <= usize::MAX),
            forall|j: int| i <= j < orig.len() ==> content@[j] == orig[j],
            PRESERVED_START_LENGTH + end_budget(None) + utf8_len(TRUNCATION_PLACEHOLDER@)
                <= usize::MAX,
            forall|j: int| 0 <= j < i ==> limited(#[trigger] orig[j], content@[j]),
        decreases content.len() - i,
    {
        let replacement: Option<String> = match &content[i] {
            Content::Text { text } => {
                assert(orig[i as int] matches Content::Text { .. });
                Some(truncate_utf8_content(text.as_str(), None, None, None, None))
            },
            _ => None,
        };
        match replacement {
            Some(t) => {
                content.set(i, Content::Text { text: t });
            },
            None => {},
        }
        i = i + 1;
    }
    ToolResult { success, state_change, content }
}

/// `after` is `before` with a long text shortened by the default rule.
pub open spec fn limited(before: Content, after: Content) -> bool {
    match before {
        Content::Text { text } => after matches Content::Text { text: t } && shortened(
            text@,
            MAX_TOOL_OUTPUT_LENGTH as int,
            PRESERVED_START_LENGTH as int,
            end_budget(None),
            TRUNCATION_PLACEHOLDER@,
            t@,
        ),
        _ => after == before,
    }
}

} // verus!
