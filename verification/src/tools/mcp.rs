//! MCP servers used as tools: the tool name is the server's name and the
//! first argument names the server's tool; the body holds the JSON
//! arguments. Talking to the server is the application's part; here are
//! the decisions before the call and the reports after it.
use vstd::prelude::*;
use crate::constants::{FORMAT_GRAY, FORMAT_RESET};
use crate::json::JsonValue;
use crate::llm::{Content, ImageSource};
use crate::text::{self, decimal, join, lines, views};

verus! {

/// Content that an MCP tool hands back.
#[derive(Debug, Clone)]
pub enum McpContent {
    /// Text
    Text { text: String },
    /// An image: base64-encoded data and its media type
    Image { data: String, mime_type: String },
    /// A resource: its address, and its text where it holds text
    Resource { uri: String, text: Option<String> },
}

/// The content handed to the language model for MCP content: text stays
/// text, an image stays an image, a resource becomes its text, or its
/// address where it holds none.
pub open spec fn llm_content(c: McpContent) -> Content {
    match c {
        McpContent::Text { text } => Content::Text { text },
        McpContent::Image { data, mime_type } => Content::Image {
            source: ImageSource::Base64 { media_type: mime_type, data },
        },
        McpContent::Resource { uri, text } => Content::Text {
            text: match text {
                Some(t) => t,
                None => uri,
            },
        },
    }
}

impl McpContent {
    /// Convert MCP content to content for the language model.
    pub fn to_llm_content(self) -> (r: Content)
        ensures
            r == llm_content(self),
    {
        match self {
            McpContent::Text { text } => Content::Text { text },
            McpContent::Image { data, mime_type } => Content::Image {
                source: ImageSource::Base64 { media_type: mime_type, data },
            },
            McpContent::Resource { uri, text } => Content::Text {
                text: match text {
                    Some(t) => t,
                    None => uri,
                },
            },
        }
    }
}

/// Converts each MCP content, in order.
pub fn to_llm_contents(contents: Vec<McpContent>) -> (r: Vec<Content>)
    ensures
        r@ == contents@.map_values(|c: McpContent| llm_content(c)),
{
    let mut out: Vec<Content> = Vec::new();
    let mut rest = contents;
    let ghost all = rest@;
    let mut i: usize = 0;
    assert(all.len() == rest.len());
    assert(all.skip(0) =~= all);
    while rest.len() > 0
        invariant
            i + rest@.len() == all.len(),
            all.len() <= usize::MAX,
            rest@ == all.skip(i as int),
            out@ == all.take(i as int).map_values(|c: McpContent| llm_content(c)),
        decreases rest.len(),
    {
        let ghost before = out@;
        let c = rest.remove(0);
        assert(c == all[i as int]);
        out.push(c.to_llm_content());
        assert(all.take(i as int + 1).map_values(|c: McpContent| llm_content(c)) =~= before.push(
            llm_content(all[i as int]),
        ));
        assert(rest@ =~= all.skip(i as int + 1));
        i = i + 1;
    }
    assert(all.take(i as int) =~= all);
    out
}

/// The text handed to the agent for text content `text`, the `item`-th
/// content (counted from 1) of a call of `tool` on `server`: a heading with
/// the item's number and line count, then the text in a code block.
pub open spec fn result_text(server: Seq<char>, tool: Seq<char>, item: nat, text: Seq<char>) -> Seq<char> {
    "Result: "@ + server + "."@ + tool + " (content item "@ + decimal(item) + ", "@ + decimal(
        lines(text).len(),
    ) + " lines)\n\n```\n"@ + text + "\n```"@
}

/// `r` is what the agent is handed for `c`, the content at index `i` of a
/// call of `tool` on `server`: text under its heading, other content as
/// `llm_content` converts it.
pub open spec fn result_content(server: Seq<char>, tool: Seq<char>, i: int, c: McpContent, r: Content) -> bool {
    match c {
        McpContent::Text { text } => r matches Content::Text { text: t } && t@ == result_text(
            server,
            tool,
            (i + 1) as nat,
            text@,
        ),
        _ => r == llm_content(c),
    }
}

/// The contents handed to the agent for what a successful call of `tool` on
/// `server_name` returned, in order.
pub fn mcp_result_contents(server_name: &str, tool: &str, contents: Vec<McpContent>) -> (r: Vec<Content>)
    ensures
        r@.len() == contents@.len(),
        forall|i: int|
            0 <= i < contents@.len() ==> result_content(server_name@, tool@, i, contents@[i], #[trigger] r@[i]),
{
    let mut out: Vec<Content> = Vec::new();
    let mut rest = contents;
    let ghost all = rest@;
    let mut i: usize = 0;
    assert(all.len() == rest.len());
    assert(all.skip(0) =~= all);
    while rest.len() > 0
        invariant
            i + rest@.len() == all.len(),
            all.len() <= usize::MAX,
            rest@ == all.skip(i as int),
            out@.len() == i,
            forall|j: int| 0 <= j < i ==> result_content(server_name@, tool@, j, all[j], #[trigger] out@[j]),
        decreases rest.len(),
    {
        let c = rest.remove(0);
        assert(c == all[i as int]);
        let item = match c {
            McpContent::Text { text } => {
                let tc = text::str_chars(text.as_str());
                let n = text::count_lines(&tc);
                let mut m = text::str_chars("Result: ");
                text::append_str(&mut m, server_name);
                text::append_str(&mut m, ".");
                text::append_str(&mut m, tool);
                text::append_str(&mut m, " (content item ");
                text::append_chars(&mut m, &text::decimal_chars((i + 1) as u64));
                text::append_str(&mut m, ", ");
                text::append_chars(&mut m, &text::decimal_chars(n as u64));
                text::append_str(&mut m, " lines)\n\n```\n");
                text::append_chars(&mut m, &tc);
                text::append_str(&mut m, "\n```");
                Content::Text { text: text::chars_to_string(&m) }
            },
            other => other.to_llm_content(),
        };
        out.push(item);
        assert(rest@ =~= all.skip(i as int + 1));
        i = i + 1;
    }
    out
}

/// A tool that an MCP server offers.
pub struct McpTool {
    /// The tool's name
    pub name: String,
    /// What the tool does
    pub description: String,
    /// The JSON Schema of the tool's arguments
    pub input_schema: JsonValue,
}

/// The properties that a JSON Schema declares, where it declares them as an
/// object.
pub open spec fn schema_properties(schema: JsonValue) -> Option<Seq<(String, JsonValue)>> {
    match crate::json::get(schema, "properties"@) {
        Some(JsonValue::Object(m)) => Some(m@),
        _ => None,
    }
}

/// The type a property schema names, or `any`.
pub open spec fn param_type(schema: JsonValue) -> Seq<char> {
    match crate::json::as_str(crate::json::get(schema, "type"@)) {
        Some(t) => t,
        None => "any"@,
    }
}

/// The description a property schema gives, or nothing.
pub open spec fn param_description(schema: JsonValue) -> Seq<char> {
    match crate::json::as_str(crate::json::get(schema, "description"@)) {
        Some(d) => d,
        None => Seq::empty(),
    }
}

/// The properties of the JSON Schema `schema`, where it declares them.
pub fn properties_of(schema: &JsonValue) -> (r: Option<&Vec<(String, JsonValue)>>)
    ensures
        r matches Some(ps) ==> schema_properties(*schema) == Some(ps@),
        r is None ==> schema_properties(*schema) is None,
{
    match crate::json::get_member(schema, "properties") {
        Some(JsonValue::Object(m)) => Some(m),
        _ => None,
    }
}

/// The type a property schema names, or `any`.
pub fn type_text(schema: &JsonValue) -> (r: &str)
    ensures
        r@ == param_type(*schema),
{
    match crate::json::get_str(crate::json::get_member(schema, "type")) {
        Some(t) => t.as_str(),
        None => "any",
    }
}

/// The description a property schema gives, or nothing.
pub fn description_text(schema: &JsonValue) -> (r: &str)
    ensures
        r@ == param_description(*schema),
{
    match crate::json::get_str(crate::json::get_member(schema, "description")) {
        Some(d) => d.as_str(),
        None => {
            proof {
                reveal_strlit("");
            }
            ""
        },
    }
}

// ---------------------------------------------------------------------------
// The preview of what a tool handed back
// ---------------------------------------------------------------------------

/// Whether content shows in a preview: text with at least one line, and any
/// other content.
pub open spec fn shows(c: McpContent) -> bool {
    match c {
        McpContent::Text { text } => lines(text@).len() > 0,
        _ => true,
    }
}

/// How many of `cs` show in a preview.
pub open spec fn shown_count(cs: Seq<McpContent>) -> nat
    decreases cs.len(),
{
    if cs.len() == 0 {
        0
    } else {
        shown_count(cs.drop_last()) + if shows(cs.last()) {
            1nat
        } else {
            0nat
        }
    }
}

/// The preview of one content: the first five lines of a text, with the
/// number of lines left out; a marker for other content.
pub open spec fn item_preview(c: McpContent) -> Seq<char> {
    match c {
        McpContent::Text { text } => {
            let ls = lines(text@);
            "\n"@ + join(ls.take(if ls.len() < 5 {
                ls.len() as int
            } else {
                5
            }), "\n"@) + if ls.len() > 5 {
                "\n[...truncated, "@ + decimal((ls.len() - 5) as nat) + " more lines]"@
            } else {
                Seq::<char>::empty()
            }
        },
        _ => "[Resource content]"@,
    }
}

/// The previews of `cs`, a separator before each content that follows one
/// that showed.
pub open spec fn items_preview(cs: Seq<McpContent>) -> Seq<char>
    decreases cs.len(),
{
    if cs.len() == 0 {
        Seq::empty()
    } else {
        let c = cs.last();
        items_preview(cs.drop_last()) + (if shown_count(cs.drop_last()) > 0 {
            "\n---\n"@
        } else {
            Seq::<char>::empty()
        }) + (if shows(c) {
            item_preview(c)
        } else {
            Seq::<char>::empty()
        })
    }
}

/// The preview of what a tool handed back: the number of contents and the
/// previews of the first three, in gray.
pub open spec fn content_preview_text(cs: Seq<McpContent>) -> Seq<char> {
    if cs.len() == 0 {
        FORMAT_GRAY@ + "No content available"@ + FORMAT_RESET@
    } else {
        FORMAT_GRAY@ + "Received "@ + decimal(cs.len()) + " content objects"@ + items_preview(
            cs.take(if cs.len() < 3 {
                cs.len() as int
            } else {
                3
            }),
        ) + (if cs.len() > 3 {
            "\n[+ "@ + decimal((cs.len() - 3) as nat) + " additional content items not shown]"@
        } else {
            Seq::<char>::empty()
        }) + FORMAT_RESET@
    }
}

/// The preview of one text content.
fn text_preview(text: &String) -> (r: Vec<char>)
    ensures
        r@ == item_preview(McpContent::Text { text: *text }),
{
    let ls = text::split_lines(&text::str_chars(text.as_str()));
    let n = ls.len();
    let k: usize = if n < 5 {
        n
    } else {
        5
    };
    let mut first: Vec<Vec<char>> = Vec::new();
    let mut i: usize = 0;
    while i < k
        invariant
            i <= k <= ls.len(),
            views(first@) == views(ls@).take(i as int),
        decreases k - i,
    {
        let ghost before = views(first@);
        first.push(ls[i].clone());
        assert(views(first@) =~= before.push(ls@[i as int]@));
        assert(views(ls@).take(i as int + 1) =~= views(ls@).take(i as int).push(ls@[i as int]@));
        i = i + 1;
    }
    let mut m = text::str_chars("\n");
    text::append_chars(&mut m, &text::join_all(&first, "\n"));
    if n > 5 {
        text::append_str(&mut m, "\n[...truncated, ");
        text::append_chars(&mut m, &text::decimal_chars((n - 5) as u64));
        text::append_str(&mut m, " more lines]");
    }
    m
}

/// The preview of what an MCP tool handed back.
pub fn content_preview(contents: &Vec<McpContent>) -> (r: String)
    ensures
        r@ == content_preview_text(contents@),
{
    let n = contents.len();
    if n == 0 {
        let mut m = text::str_chars(FORMAT_GRAY);
        text::append_str(&mut m, "No content available");
        text::append_str(&mut m, FORMAT_RESET);
        return text::chars_to_string(&m);
    }
    let mut m = text::str_chars(FORMAT_GRAY);
    text::append_str(&mut m, "Received ");
    text::append_chars(&mut m, &text::decimal_chars(n as u64));
    text::append_str(&mut m, " content objects");
    let ghost head = m@;
    let k: usize = if n < 3 {
        n
    } else {
        3
    };
    let mut shown: usize = 0;
    let mut i: usize = 0;
    assert(contents@.take(0) =~= Seq::<McpContent>::empty());
    while i < k
        invariant
            i <= k <= contents.len(),
            shown <= i,
            shown == shown_count(contents@.take(i as int)),
            m@ == head + items_preview(contents@.take(i as int)),
        decreases k - i,
    {
        let ghost pre = contents@.take(i as int);
        assert(contents@.take(i as int + 1).drop_last() =~= pre);
        assert(contents@.take(i as int + 1).last() == contents@[i as int]);
        let ghost m0 = m@;
        if shown > 0 {
            text::append_str(&mut m, "\n---\n");
        }
        let ghost m1 = m@;
        match &contents[i] {
            McpContent::Text { text } => {
                let t = text_preview(text);
                proof {
                    text::lemma_lines_len(text@);
                }
                let ls = text::count_lines(&text::str_chars(text.as_str()));
                if ls > 0 {
                    text::append_chars(&mut m, &t);
                    shown = shown + 1;
                }
            },
            _ => {
                text::append_str(&mut m, "[Resource content]");
                shown = shown + 1;
            },
        }
        assert(m@ =~= head + items_preview(contents@.take(i as int + 1)));
        i = i + 1;
    }
    if n > 3 {
        text::append_str(&mut m, "\n[+ ");
        text::append_chars(&mut m, &text::decimal_chars((n - 3) as u64));
        text::append_str(&mut m, " additional content items not shown]");
    }
    text::append_str(&mut m, FORMAT_RESET);
    text::chars_to_string(&m)
}

// ---------------------------------------------------------------------------
// Before the call
// ---------------------------------------------------------------------------

/// What a tool call on an MCP server comes to.
pub enum McpCallPlan {
    /// Call `tool` with the JSON `arguments`
    Call { tool: String, arguments: JsonValue },
    /// Answer with this error instead
    Refuse(String),
}

/// The refusal of a call that names no tool.
pub open spec fn no_tool_message(server: Seq<char>) -> Seq<char> {
    "MCP tool '"@ + server + "' is not available. Use a valid MCP tool syntax."@
}

/// The refusal of a call to an unknown server.
pub open spec fn unknown_server_message(server: Seq<char>) -> Seq<char> {
    "MCP server '"@ + server + "' is not available. Use a valid MCP server name."@
}

/// The refusal of arguments that are not JSON.
pub open spec fn bad_arguments_message(err: Seq<char>) -> Seq<char> {
    "Failed to parse arguments as JSON: "@ + err + ". Please provide valid JSON parameters."@
}

/// What `serde_json::from_str::<Value>` makes of `text`: the value, or the
/// message of its error.
pub uninterp spec fn json_parse(text: Seq<char>) -> Result<JsonValue, Seq<char>>;

/// A parse result with the error taken by its text.
pub open spec fn parse_view(r: Result<JsonValue, String>) -> Result<JsonValue, Seq<char>> {
    match r {
        Ok(v) => Ok(v),
        Err(e) => Err(e@),
    }
}

/// `serde_json::from_str::<serde_json::Value>(text)`: the value `text` holds,
/// or the message of the parser's error; named by `json_parse`.
#[verifier::external_body]
pub(crate) fn parse_json(text: &str) -> (r: Result<JsonValue, String>)
    ensures
        parse_view(r) == json_parse(text@),
{
    match serde_json::from_str::<serde_json::Value>(text) {
        Ok(v) => Ok(crate::json::from_serde(v)),
        Err(e) => Err(e.to_string()),
    }
}

/// The decision on a call of an MCP server used as a tool: the tool is the
/// first argument, trimmed; a call that names no tool, a server that is
/// not known, and arguments that are not JSON are refused, in that order.
pub fn plan_mcp_call(server_name: &str, args: &str, body: &str, server_known: bool) -> (r:
    McpCallPlan)
    ensures
        text::trim(args@).len() == 0 ==> (r matches McpCallPlan::Refuse(m) && m@ == no_tool_message(
            server_name@,
        )),
        text::trim(args@).len() > 0 && !server_known ==> (r matches McpCallPlan::Refuse(m) && m@
            == unknown_server_message(server_name@)),
        text::trim(args@).len() > 0 && server_known ==> match json_parse(body@) {
            Ok(v) => r matches McpCallPlan::Call { tool, arguments } && tool@ == text::trim(args@)
                && arguments == v,
            Err(e) => r matches McpCallPlan::Refuse(m) && m@ == bad_arguments_message(e),
        },
{
    let tool = text::trim_chars(&text::str_chars(args));
    if tool.len() == 0 {
        let mut m = text::str_chars("MCP tool '");
        text::append_str(&mut m, server_name);
        text::append_str(&mut m, "' is not available. Use a valid MCP tool syntax.");
        return McpCallPlan::Refuse(text::chars_to_string(&m));
    }
    if !server_known {
        return McpCallPlan::Refuse(unknown_server(server_name));
    }
    match parse_json(body) {
        Ok(arguments) => McpCallPlan::Call { tool: text::chars_to_string(&tool), arguments },
        Err(e) => {
            let mut m = text::str_chars("Failed to parse arguments as JSON: ");
            text::append_str(&mut m, e.as_str());
            text::append_str(&mut m, ". Please provide valid JSON parameters.");
            McpCallPlan::Refuse(text::chars_to_string(&m))
        },
    }
}

/// The refusal of a call to the unknown server `server_name`.
pub fn unknown_server(server_name: &str) -> (r: String)
    ensures
        r@ == unknown_server_message(server_name@),
{
    let mut m = text::str_chars("MCP server '");
    text::append_str(&mut m, server_name);
    text::append_str(&mut m, "' is not available. Use a valid MCP server name.");
    text::chars_to_string(&m)
}

/// The error reported for a failed tool call.
pub fn call_failed_message(server_name: &str, tool: &str, err: &str) -> (r: String)
    ensures
        r@ == "MCP tool failed: "@ + server_name@ + "."@ + tool@ + " - "@ + err@,
{
    let mut m = text::str_chars("MCP tool failed: ");
    text::append_str(&mut m, server_name);
    text::append_str(&mut m, ".");
    text::append_str(&mut m, tool);
    text::append_str(&mut m, " - ");
    text::append_str(&mut m, err);
    text::chars_to_string(&m)
}

} // verus!
