//! MCP servers reached by their names: listing a server's tools and calling
//! one of them.
use vstd::prelude::*;
use crate::json::JsonValue;
use crate::text::{self, decimal};
use crate::tools::mcp::{
    json_parse, param_description, param_type, parse_json, properties_of, schema_properties,
    type_text, description_text, McpCallPlan, McpTool,
};

verus! {

/// The line that lists a parameter.
pub open spec fn by_name_param_line(p: (String, JsonValue)) -> Seq<char> {
    "    - "@ + p.0@ + ": "@ + param_type(p.1) + " ("@ + param_description(p.1) + ")\n"@
}

/// The lines that list the parameters `ps`.
pub open spec fn by_name_param_lines(ps: Seq<(String, JsonValue)>) -> Seq<char>
    decreases ps.len(),
{
    if ps.len() == 0 {
        Seq::empty()
    } else {
        by_name_param_lines(ps.drop_last()) + by_name_param_line(ps.last())
    }
}

/// The entry of one tool: its name, its description and, where its schema
/// declares properties, its parameters.
pub open spec fn by_name_tool(t: McpTool) -> Seq<char> {
    "- Name: "@ + t.name@ + "\n"@ + "  Description: "@ + t.description@ + "\n"@ + match schema_properties(
        t.input_schema,
    ) {
        Some(ps) => "  Parameters:\n"@ + by_name_param_lines(ps),
        None => Seq::empty(),
    } + "\n"@
}

/// The entries of the tools `ts`.
pub open spec fn by_name_tools(ts: Seq<McpTool>) -> Seq<char>
    decreases ts.len(),
{
    if ts.len() == 0 {
        Seq::empty()
    } else {
        by_name_tools(ts.drop_last()) + by_name_tool(ts.last())
    }
}

/// The list of the tools of a server.
pub open spec fn by_name_listing_text(server: Seq<char>, ts: Seq<McpTool>) -> Seq<char> {
    "Tools available from MCP server '"@ + server + "':\n\n"@ + if ts.len() == 0 {
        "No tools available."@
    } else {
        by_name_tools(ts)
    }
}

/// Appends the entry of the tool `t`.
fn append_by_name_tool(m: &mut Vec<char>, t: &McpTool)
    ensures
        final(m)@ == old(m)@ + by_name_tool(*t),
{
    let ghost start = m@;
    text::append_str(m, "- Name: ");
    text::append_str(m, t.name.as_str());
    text::append_str(m, "\n");
    text::append_str(m, "  Description: ");
    text::append_str(m, t.description.as_str());
    text::append_str(m, "\n");
    if let Some(ps) = properties_of(&t.input_schema) {
        text::append_str(m, "  Parameters:\n");
        let ghost mid = m@;
        let mut i: usize = 0;
        assert(ps@.take(0) =~= Seq::<(String, JsonValue)>::empty());
        while i < ps.len()
            invariant
                i <= ps.len(),
                m@ == mid + by_name_param_lines(ps@.take(i as int)),
            decreases ps.len() - i,
        {
            assert(ps@.take(i as int + 1).drop_last() =~= ps@.take(i as int));
            assert(ps@.take(i as int + 1).last() == ps@[i as int]);
            text::append_str(m, "    - ");
            text::append_str(m, ps[i].0.as_str());
            text::append_str(m, ": ");
            text::append_str(m, type_text(&ps[i].1));
            text::append_str(m, " (");
            text::append_str(m, description_text(&ps[i].1));
            text::append_str(m, ")\n");
            assert(m@ =~= mid + by_name_param_lines(ps@.take(i as int + 1)));
            i = i + 1;
        }
        assert(ps@.take(ps.len() as int) =~= ps@);
    }
    text::append_str(m, "\n");
    assert(m@ =~= start + by_name_tool(*t));
}

/// The list of the tools of the server `server_name`.
pub fn tools_by_name_listing(server_name: &str, tools: &Vec<McpTool>) -> (r: String)
    ensures
        r@ == by_name_listing_text(server_name@, tools@),
{
    let mut m = text::str_chars("Tools available from MCP server '");
    text::append_str(&mut m, server_name);
    text::append_str(&mut m, "':\n\n");
    if tools.len() == 0 {
        text::append_str(&mut m, "No tools available.");
    } else {
        let ghost start = m@;
        let mut i: usize = 0;
        assert(tools@.take(0) =~= Seq::<McpTool>::empty());
        while i < tools.len()
            invariant
                i <= tools.len(),
                m@ == start + by_name_tools(tools@.take(i as int)),
            decreases tools.len() - i,
        {
            assert(tools@.take(i as int + 1).drop_last() =~= tools@.take(i as int));
            assert(tools@.take(i as int + 1).last() == tools@[i as int]);
            append_by_name_tool(&mut m, &tools[i]);
            i = i + 1;
        }
        assert(tools@.take(tools.len() as int) =~= tools@);
    }
    assert(m@ =~= by_name_listing_text(server_name@, tools@));
    text::chars_to_string(&m)
}

/// The refusal of a server name that no server has.
pub open spec fn server_not_found_message(server: Seq<char>) -> Seq<char> {
    "MCP server not found: "@ + server + ". Available servers can be seen at startup."@
}

/// The refusal of a server name that no server has.
pub fn server_not_found(server_name: &str) -> (r: String)
    ensures
        r@ == server_not_found_message(server_name@),
{
    let mut m = text::str_chars("MCP server not found: ");
    text::append_str(&mut m, server_name);
    text::append_str(&mut m, ". Available servers can be seen at startup.");
    text::chars_to_string(&m)
}

/// The decision on a call of the tool `tool_id` of the server
/// `server_name`: an unknown server, then arguments that are not JSON, are
/// refused.
pub fn plan_call_by_name(server_name: &str, tool_id: &str, body: &str, server_known: bool) -> (r:
    McpCallPlan)
    ensures
        !server_known ==> (r matches McpCallPlan::Refuse(m) && m@ == server_not_found_message(
            server_name@,
        )),
        server_known ==> match json_parse(body@) {
            Ok(v) => r matches McpCallPlan::Call { tool, arguments } && tool@ == tool_id@
                && arguments == v,
            Err(e) => r matches McpCallPlan::Refuse(m) && m@ == "Failed to parse tool arguments: "@
                + e + ". Arguments must be valid JSON."@,
        },
{
    if !server_known {
        return McpCallPlan::Refuse(server_not_found(server_name));
    }
    match parse_json(body) {
        Ok(arguments) => McpCallPlan::Call {
            tool: text::chars_to_string(&text::str_chars(tool_id)),
            arguments,
        },
        Err(e) => {
            let mut m = text::str_chars("Failed to parse tool arguments: ");
            text::append_str(&mut m, e.as_str());
            text::append_str(&mut m, ". Arguments must be valid JSON.");
            McpCallPlan::Refuse(text::chars_to_string(&m))
        },
    }
}

/// The report of a successful call that handed back `count` contents.
pub fn call_summary(server_name: &str, tool_id: &str, count: usize) -> (r: String)
    ensures
        r@ == "Tool call successful: "@ + tool_id@ + " on "@ + server_name@ + "\nReturned "@
            + decimal(count as nat) + " content items that will be added to the conversation."@,
{
    let mut m = text::str_chars("Tool call successful: ");
    text::append_str(&mut m, tool_id);
    text::append_str(&mut m, " on ");
    text::append_str(&mut m, server_name);
    text::append_str(&mut m, "\nReturned ");
    text::append_chars(&mut m, &text::decimal_chars(count as u64));
    text::append_str(&mut m, " content items that will be added to the conversation.");
    text::chars_to_string(&m)
}

/// The report of a failed call.
pub fn call_failed(err: &str) -> (r: String)
    ensures
        r@ == "Tool execution failed: "@ + err@,
{
    let mut m = text::str_chars("Tool execution failed: ");
    text::append_str(&mut m, err);
    text::chars_to_string(&m)
}

/// The report of a server whose tools could not be refreshed.
pub fn refresh_failed(err: &str) -> (r: String)
    ensures
        r@ == "Failed to refresh tools: "@ + err@,
{
    let mut m = text::str_chars("Failed to refresh tools: ");
    text::append_str(&mut m, err);
    text::chars_to_string(&m)
}

} // verus!
