use termineer::json::{JsonNumber, JsonValue};
use termineer::llm::{Content, ImageSource};
use termineer::tools::dynamic_mcp::{plan_dynamic_call, server_tools_listing, DynamicCallPlan};
use termineer::tools::mcp::{
    call_failed_message, content_preview, mcp_result_contents, plan_mcp_call, McpCallPlan, McpContent, McpTool,
};
use termineer::tools::mcp_by_name::{
    call_failed, call_summary, plan_call_by_name, refresh_failed, server_not_found,
    tools_by_name_listing,
};
use termineer::tools::ToolResult;

fn s(x: &str) -> JsonValue {
    JsonValue::Str(x.to_string())
}

fn obj(members: Vec<(&str, JsonValue)>) -> JsonValue {
    JsonValue::Object(members.into_iter().map(|(k, v)| (k.to_string(), v)).collect())
}

fn read_tool() -> McpTool {
    McpTool {
        name: "read".to_string(),
        description: "Read a file".to_string(),
        input_schema: obj(vec![
            ("type", s("object")),
            (
                "properties",
                obj(vec![
                    ("path", obj(vec![("type", s("string")), ("description", s("File path"))])),
                    (
                        "limit",
                        obj(vec![(
                            "type",
                            JsonValue::Number(JsonNumber { as_i64: Some(1), as_u64: Some(1) }),
                        )]),
                    ),
                    ("mode", obj(vec![])),
                ]),
            ),
        ]),
    }
}

#[test]
fn mcp_content_becomes_model_content() {
    let r = ToolResult::success_from_mcp(vec![
        McpContent::Text { text: "hello".to_string() },
        McpContent::Image { data: "AAAA".to_string(), mime_type: "image/png".to_string() },
        McpContent::Resource { uri: "file:///a".to_string(), text: None },
        McpContent::Resource { uri: "file:///b".to_string(), text: Some("body".to_string()) },
    ]);
    assert!(r.success);
    assert_eq!(r.content.len(), 4);
    assert!(matches!(&r.content[0], Content::Text { text } if text == "hello"));
    assert!(matches!(&r.content[1], Content::Image { source: ImageSource::Base64 { media_type, data } } if media_type == "image/png" && data == "AAAA"));
    assert!(matches!(&r.content[2], Content::Text { text } if text == "file:///a"));
    assert!(matches!(&r.content[3], Content::Text { text } if text == "body"));
}

#[test]
fn preview_of_tool_contents() {
    assert_eq!(content_preview(&vec![]), "\x1b[90mNo content available\x1b[0m");
    let contents = vec![
        McpContent::Text { text: "l1\nl2\nl3\nl4\nl5\nl6\nl7".to_string() },
        McpContent::Text { text: "".to_string() },
        McpContent::Resource { uri: "u".to_string(), text: None },
        McpContent::Text { text: "x".to_string() },
        McpContent::Text { text: "y".to_string() },
    ];
    assert_eq!(
        content_preview(&contents),
        "\x1b[90mReceived 5 content objects\nl1\nl2\nl3\nl4\nl5\n[...truncated, 2 more lines]\n---\n\n---\n[Resource content]\n[+ 2 additional content items not shown]\x1b[0m"
    );
    let one = vec![McpContent::Text { text: "a\nb".to_string() }];
    assert_eq!(content_preview(&one), "\x1b[90mReceived 1 content objects\na\nb\x1b[0m");
}

#[test]
fn mcp_calls_are_planned() {
    match plan_mcp_call("srv", "  ", "{}", true) {
        McpCallPlan::Refuse(m) => {
            assert_eq!(m, "MCP tool 'srv' is not available. Use a valid MCP tool syntax.")
        },
        _ => panic!("a call without a tool was accepted"),
    }
    match plan_mcp_call("srv", "t", "{}", false) {
        McpCallPlan::Refuse(m) => {
            assert_eq!(m, "MCP server 'srv' is not available. Use a valid MCP server name.")
        },
        _ => panic!("an unknown server was accepted"),
    }
    match plan_mcp_call("srv", " t ", "{\"a\": \"b\"}", true) {
        McpCallPlan::Call { tool, arguments } => {
            assert_eq!(tool, "t");
            match arguments {
                JsonValue::Object(m) => {
                    assert_eq!(m.len(), 1);
                    assert_eq!(m[0].0, "a");
                    assert!(matches!(&m[0].1, JsonValue::Str(v) if v == "b"));
                },
                _ => panic!("arguments are not an object"),
            }
        },
        _ => panic!("a good call was refused"),
    }
    match plan_mcp_call("srv", "t", "{oops", true) {
        McpCallPlan::Refuse(m) => {
            assert!(m.starts_with("Failed to parse arguments as JSON: "));
            assert!(m.ends_with(". Please provide valid JSON parameters."));
        },
        _ => panic!("bad JSON was accepted"),
    }
    assert!(matches!(plan_dynamic_call("srv", "", "", true), DynamicCallPlan::ListTools));
    assert!(matches!(plan_dynamic_call("srv", "t", "[1]", true), DynamicCallPlan::Call { .. }));
    assert_eq!(
        call_failed_message("srv", "t", "boom"),
        "MCP tool failed: srv.t - boom"
    );
}

#[test]
fn server_tools_are_listed_for_the_agent() {
    let listing = server_tools_listing("fs", &vec![read_tool()]);
    assert_eq!(
        listing,
        "Available tools on MCP server 'fs':\n\n\
         To use an MCP tool, invoke it directly with: `<server_name> <tool_name>`\n\n\
         ### read\nRead a file\n\n\
         **Parameters:**\n\
         - `path`: string (File path)\n\
         - `limit`: any \n\
         - `mode`: any \n\
         \n\
         **Example usage:**\n\
         ```\nfs read\n{\n  \"path\": \"value\",\n  \"limit\": \"value\",\n  // other parameters as needed\n}\n```\n"
    );
    let bare = McpTool {
        name: "t".to_string(),
        description: "d".to_string(),
        input_schema: JsonValue::Null,
    };
    assert_eq!(
        server_tools_listing("x", &vec![bare]),
        "Available tools on MCP server 'x':\n\n\
         To use an MCP tool, invoke it directly with: `<server_name> <tool_name>`\n\n\
         ### t\nd\n\n\
         **Example usage:**\n\
         ```\nx t\n{\n  // No parameters required\n}\n```\n"
    );
    assert_eq!(
        server_tools_listing("x", &vec![]),
        "Available tools on MCP server 'x':\n\nNo tools available."
    );
}

#[test]
fn tools_are_listed_by_server_name() {
    assert_eq!(
        tools_by_name_listing("fs", &vec![read_tool()]),
        "Tools available from MCP server 'fs':\n\n\
         - Name: read\n  Description: Read a file\n  Parameters:\n\
         \x20   - path: string (File path)\n\
         \x20   - limit: any ()\n\
         \x20   - mode: any ()\n\n"
    );
    assert_eq!(
        tools_by_name_listing("fs", &vec![]),
        "Tools available from MCP server 'fs':\n\nNo tools available."
    );
}

#[test]
fn calls_by_server_name() {
    match plan_call_by_name("fs", "read", "{}", false) {
        McpCallPlan::Refuse(m) => assert_eq!(m, server_not_found("fs")),
        _ => panic!("an unknown server was accepted"),
    }
    assert_eq!(
        server_not_found("fs"),
        "MCP server not found: fs. Available servers can be seen at startup."
    );
    match plan_call_by_name("fs", "read", "{bad", true) {
        McpCallPlan::Refuse(m) => {
            assert!(m.starts_with("Failed to parse tool arguments: "));
            assert!(m.ends_with(". Arguments must be valid JSON."));
        },
        _ => panic!("bad JSON was accepted"),
    }
    assert!(matches!(plan_call_by_name("fs", "read", "{}", true), McpCallPlan::Call { tool, .. } if tool == "read"));
    assert_eq!(
        call_summary("fs", "read", 2),
        "Tool call successful: read on fs\nReturned 2 content items that will be added to the conversation."
    );
    assert_eq!(call_failed("x"), "Tool execution failed: x");
    assert_eq!(refresh_failed("x"), "Failed to refresh tools: x");
}

#[test]
fn mcp_results_are_framed_for_the_agent() {
    let r = mcp_result_contents(
        "files",
        "list",
        vec![
            McpContent::Text { text: "a\nb".to_string() },
            McpContent::Image { data: "AAA".to_string(), mime_type: "image/png".to_string() },
            McpContent::Text { text: "c".to_string() },
        ],
    );
    assert_eq!(r.len(), 3);
    match &r[0] {
        Content::Text { text } => {
            assert_eq!(text, "Result: files.list (content item 1, 2 lines)\n\n```\na\nb\n```")
        }
        _ => panic!("expected text"),
    }
    match &r[1] {
        Content::Image { source: ImageSource::Base64 { media_type, data } } => {
            assert_eq!(media_type, "image/png");
            assert_eq!(data, "AAA");
        }
        _ => panic!("expected an image"),
    }
    match &r[2] {
        Content::Text { text } => {
            assert_eq!(text, "Result: files.list (content item 3, 1 lines)\n\n```\nc\n```")
        }
        _ => panic!("expected text"),
    }
}
