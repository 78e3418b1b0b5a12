//! MCP servers used directly as tools, where a call that names no tool
//! lists the tools of the server.
use vstd::prelude::*;
use crate::json::JsonValue;
use crate::text;
use crate::tools::mcp::{
    bad_arguments_message, json_parse, param_description, param_type, parse_json, properties_of,
    schema_properties, type_text, description_text, unknown_server, unknown_server_message, McpTool,
};

verus! {

/// The note on a parameter: its description in brackets, where it has one.
pub open spec fn param_note(schema: JsonValue) -> Seq<char> {
    let d = param_description(schema);
    if d.len() > 0 {
        "("@ + d + ")"@
    } else {
        Seq::empty()
    }
}

/// The line that lists a parameter.
pub open spec fn param_line(p: (String, JsonValue)) -> Seq<char> {
    "- `"@ + p.0@ + "`: "@ + param_type(p.1) + " "@ + param_note(p.1) + "\n"@
}

/// The lines that list the parameters `ps`.
pub open spec fn param_lines(ps: Seq<(String, JsonValue)>) -> Seq<char>
    decreases ps.len(),
{
    if ps.len() == 0 {
        Seq::empty()
    } else {
        param_lines(ps.drop_last()) + param_line(ps.last())
    }
}

/// The section on one tool: its name, its description and its parameters.
pub open spec fn tool_section(t: McpTool) -> Seq<char> {
    "### "@ + t.name@ + "\n"@ + t.description@ + "\n\n"@ + match schema_properties(t.input_schema) {
        Some(ps) => if ps.len() > 0 {
            "**Parameters:**\n"@ + param_lines(ps) + "\n"@
        } else {
            Seq::empty()
        },
        None => Seq::empty(),
    }
}

/// The sections on the tools `ts`.
pub open spec fn tool_sections(ts: Seq<McpTool>) -> Seq<char>
    decreases ts.len(),
{
    if ts.len() == 0 {
        Seq::empty()
    } else {
        tool_sections(ts.drop_last()) + tool_section(ts.last())
    }
}

/// The example lines for the parameters `ps`.
pub open spec fn example_lines(ps: Seq<(String, JsonValue)>) -> Seq<char>
    decreases ps.len(),
{
    if ps.len() == 0 {
        Seq::empty()
    } else {
        example_lines(ps.drop_last()) + "  \""@ + ps.last().0@ + "\": \"value\",\n"@
    }
}

/// An example call of the tool `t`, with at most two of its parameters.
pub open spec fn usage_example(server: Seq<char>, t: McpTool) -> Seq<char> {
    "```\n"@ + server + " "@ + t.name@ + "\n"@ + "{\n"@ + match schema_properties(t.input_schema) {
        Some(ps) => if ps.len() > 0 {
            example_lines(ps.take(if ps.len() < 2 {
                ps.len() as int
            } else {
                2
            })) + if ps.len() > 2 {
                "  // other parameters as needed\n"@
            } else {
                Seq::<char>::empty()
            }
        } else {
            "  // No parameters required\n"@
        },
        None => "  // No parameters required\n"@,
    } + "}\n```\n"@
}

/// The list of the tools of a server, as the agent reads it.
pub open spec fn server_tools_text(server: Seq<char>, ts: Seq<McpTool>) -> Seq<char> {
    "Available tools on MCP server '"@ + server + "':\n\n"@ + if ts.len() == 0 {
        "No tools available."@
    } else {
        "To use an MCP tool, invoke it directly with: `<server_name> <tool_name>`\n\n"@
            + tool_sections(ts) + "**Example usage:**\n"@ + usage_example(server, ts[0])
    }
}

/// Appends the lines that list the parameters `ps`.
fn append_param_lines(m: &mut Vec<char>, ps: &Vec<(String, JsonValue)>)
    ensures
        final(m)@ == old(m)@ + param_lines(ps@),
{
    let ghost start = m@;
    let mut i: usize = 0;
    assert(ps@.take(0) =~= Seq::<(String, JsonValue)>::empty());
    while i < ps.len()
        invariant
            i <= ps.len(),
            m@ == start + param_lines(ps@.take(i as int)),
        decreases ps.len() - i,
    {
        assert(ps@.take(i as int + 1).drop_last() =~= ps@.take(i as int));
        assert(ps@.take(i as int + 1).last() == ps@[i as int]);
        text::append_str(m, "- `");
        text::append_str(m, ps[i].0.as_str());
        text::append_str(m, "`: ");
        text::append_str(m, type_text(&ps[i].1));
        text::append_str(m, " ");
        let d = text::str_chars(description_text(&ps[i].1));
        if d.len() > 0 {
            text::append_str(m, "(");
            text::append_chars(m, &d);
            text::append_str(m, ")");
        }
        text::append_str(m, "\n");
        assert(m@ =~= start + param_lines(ps@.take(i as int + 1)));
        i = i + 1;
    }
    assert(ps@.take(ps.len() as int) =~= ps@);
}

/// Appends the section on the tool `t`.
fn append_tool_section(m: &mut Vec<char>, t: &McpTool)
    ensures
        final(m)@ == old(m)@ + tool_section(*t),
{
    let ghost start = m@;
    text::append_str(m, "### ");
    text::append_str(m, t.name.as_str());
    text::append_str(m, "\n");
    text::append_str(m, t.description.as_str());
    text::append_str(m, "\n\n");
    if let Some(ps) = properties_of(&t.input_schema) {
        if ps.len() > 0 {
            text::append_str(m, "**Parameters:**\n");
            append_param_lines(m, ps);
            text::append_str(m, "\n");
        }
    }
    assert(m@ =~= start + tool_section(*t));
}

/// Appends an example call of the tool `t`.
fn append_usage_example(m: &mut Vec<char>, server: &str, t: &McpTool)
    ensures
        final(m)@ == old(m)@ + usage_example(server@, *t),
{
    let ghost start = m@;
    text::append_str(m, "```\n");
    text::append_str(m, server);
    text::append_str(m, " ");
    text::append_str(m, t.name.as_str());
    text::append_str(m, "\n");
    text::append_str(m, "{\n");
    let ghost mid = m@;
    let mut has_params = false;
    if let Some(ps) = properties_of(&t.input_schema) {
        if ps.len() > 0 {
            let k: usize = if ps.len() < 2 {
                ps.len()
            } else {
                2
            };
            let mut i: usize = 0;
            assert(ps@.take(0) =~= Seq::<(String, JsonValue)>::empty());
            while i < k
                invariant
                    i <= k <= ps.len(),
                    m@ == mid + example_lines(ps@.take(i as int)),
                decreases k - i,
            {
                assert(ps@.take(i as int + 1).drop_last() =~= ps@.take(i as int));
                text::append_str(m, "  \"");
                text::append_str(m, ps[i].0.as_str());
                text::append_str(m, "\": \"value\",\n");
                assert(m@ =~= mid + example_lines(ps@.take(i as int + 1)));
                i = i + 1;
            }
            if ps.len() > 2 {
                text::append_str(m, "  // other parameters as needed\n");
            }
            has_params = true;
        }
    }
    if !has_params {
        text::append_str(m, "  // No parameters required\n");
    }
    text::append_str(m, "}\n```\n");
    assert(m@ =~= start + usage_example(server@, *t));
}

/// The list of the tools of the server `server_name`, as the agent reads
/// it: a section for each tool, with its parameters, and an example call of
/// the first tool.
pub fn server_tools_listing(server_name: &str, tools: &Vec<McpTool>) -> (r: String)
    ensures
        r@ == server_tools_text(server_name@, tools@),
{
    let mut m = text::str_chars("Available tools on MCP server '");
    text::append_str(&mut m, server_name);
    text::append_str(&mut m, "':\n\n");
    let ghost head = m@;
    if tools.len() == 0 {
        text::append_str(&mut m, "No tools available.");
    } else {
        text::append_str(&mut m, "To use an MCP tool, invoke it directly with: `<server_name> <tool_name>`\n\n");
        let ghost start = m@;
        let mut i: usize = 0;
        assert(tools@.take(0) =~= Seq::<McpTool>::empty());
        while i < tools.len()
            invariant
                i <= tools.len(),
                m@ == start + tool_sections(tools@.take(i as int)),
            decreases tools.len() - i,
        {
            assert(tools@.take(i as int + 1).drop_last() =~= tools@.take(i as int));
            assert(tools@.take(i as int + 1).last() == tools@[i as int]);
            append_tool_section(&mut m, &tools[i]);
            i = i + 1;
        }
        assert(tools@.take(tools.len() as int) =~= tools@);
        text::append_str(&mut m, "**Example usage:**\n");
        append_usage_example(&mut m, server_name, &tools[0]);
    }
    assert(m@ =~= server_tools_text(server_name@, tools@));
    text::chars_to_string(&m)
}

/// What a call of an MCP server used as a tool comes to.
pub enum DynamicCallPlan {
    /// List the tools of the server
    ListTools,
    /// Call `tool` with the JSON `arguments`
    Call { tool: String, arguments: JsonValue },
    /// Answer with this error instead
    Refuse(String),
}

/// The decision on a call of an MCP server used as a tool: a call that names
/// no tool (the trimmed arguments are empty) lists the server's tools; else
/// a server that is not known, and arguments that are not JSON, are
/// refused, in that order.
pub fn plan_dynamic_call(server_name: &str, args: &str, body: &str, server_known: bool) -> (r:
    DynamicCallPlan)
    ensures
        text::trim(args@).len() == 0 ==> r is ListTools,
        text::trim(args@).len() > 0 && !server_known ==> (r matches DynamicCallPlan::Refuse(m)
            && m@ == unknown_server_message(server_name@)),
        text::trim(args@).len() > 0 && server_known ==> match json_parse(body@) {
            Ok(v) => r matches DynamicCallPlan::Call { tool, arguments } && tool@ == text::trim(
                args@,
            ) && arguments == v,
            Err(e) => r matches DynamicCallPlan::Refuse(m) && m@ == bad_arguments_message(e),
        },
{
    let tool = text::trim_chars(&text::str_chars(args));
    if tool.len() == 0 {
        return DynamicCallPlan::ListTools;
    }
    if !server_known {
        return DynamicCallPlan::Refuse(unknown_server(server_name));
    }
    match parse_json(body) {
        Ok(arguments) => DynamicCallPlan::Call { tool: text::chars_to_string(&tool), arguments },
        Err(e) => {
            let mut m = text::str_chars("Failed to parse arguments as JSON: ");
            text::append_str(&mut m, e.as_str());
            text::append_str(&mut m, ". Please provide valid JSON parameters.");
            DynamicCallPlan::Refuse(text::chars_to_string(&m))
        },
    }
}

} // verus!
