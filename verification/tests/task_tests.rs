use termineer::agent::{AgentId, AgentState};
use termineer::tools::agent::{agent_created_report, message_sent_report, plan_agent_tool, AgentToolPlan};
use termineer::tools::task::{
    combine_instructions, extract_final_output, include_files_context, parse_task_arguments,
    task_agent_name, task_instructions, task_poll, timeout_message, TaskPoll,
};

#[test]
fn task_arguments() {
    let (name, kind, inc) = parse_task_arguments(" fix the bug kind=coder include=src/*.rs include=README.md ");
    assert_eq!(name, "fix the bug");
    assert_eq!(kind, Some("coder".to_string()));
    assert_eq!(inc, vec!["src/*.rs".to_string(), "README.md".to_string()]);
    let (unnamed, none, empty) = parse_task_arguments("kind=a kind=b");
    assert_eq!(unnamed, "unnamed_task");
    assert_eq!(none, Some("b".to_string()));
    assert!(empty.is_empty());
}

#[test]
fn task_instructions_and_context() {
    assert_eq!(task_instructions("  do it \n"), Ok("do it".to_string()));
    assert_eq!(
        task_instructions("  "),
        Err("Error: Task requires instructions in the body".to_string())
    );
    assert_eq!(task_agent_name("x"), "task_x");
    let ctx = include_files_context(&vec![("a.rs".to_string(), "fn a() {}".to_string())]);
    assert_eq!(ctx, "\n## File: a.rs\n```\nfn a() {}\n```\n\n");
    assert_eq!(
        combine_instructions(true, &ctx, "go"),
        format!("# File Context\n\n{}\n\n# Task Instructions\n\ngo", ctx)
    );
    assert_eq!(combine_instructions(true, "", "go"), "go");
    assert_eq!(combine_instructions(false, "ctx", "go"), "go");
}

#[test]
fn task_polling() {
    assert!(matches!(task_poll(&Some(AgentState::Idle)), TaskPoll::Waiting));
    assert!(matches!(task_poll(&None), TaskPoll::Waiting));
    assert!(matches!(task_poll(&Some(AgentState::Done(None))), TaskPoll::FromOutput));
    match task_poll(&Some(AgentState::Done(Some("answer".to_string())))) {
        TaskPoll::Answer(a) => assert_eq!(a, "answer"),
        _ => panic!("expected an answer"),
    }
    match task_poll(&Some(AgentState::Terminated)) {
        TaskPoll::Terminated(m) => assert_eq!(m, "Task was terminated before completion"),
        _ => panic!("expected termination"),
    }
    assert_eq!(timeout_message(), "Task timed out after 300 seconds");
}

fn lines(v: &[&str]) -> Vec<String> {
    v.iter().map(|s| s.to_string()).collect()
}

#[test]
fn final_output_after_last_user_message() {
    let out = lines(&["> first", "old", "> second", "🤖 thinking", "answer one", "Token usage: 5", "  ", "answer two"]);
    assert_eq!(extract_final_output(&out), "answer one\nanswer two");
}

#[test]
fn final_output_falls_back_to_last_lines() {
    let out = lines(&["> ask", "🤖 only system"]);
    assert_eq!(extract_final_output(&out), "> ask");
    let none: Vec<String> = Vec::new();
    assert_eq!(extract_final_output(&none), "");
}

fn agents() -> Vec<(AgentId, String)> {
    vec![(AgentId(1), "main".to_string()), (AgentId(7), "helper".to_string())]
}

#[test]
fn agent_tool_needs_subscription_and_subcommand() {
    match plan_agent_tool("create x", "do", false, &agents(), None) {
        AgentToolPlan::Refused(m) => assert_eq!(m, "Multi-agent capabilities require a Plus or Pro subscription."),
        _ => panic!("expected a refusal"),
    }
    match plan_agent_tool("delete x", "do", true, &agents(), None) {
        AgentToolPlan::Refused(m) => assert_eq!(m, "Unknown agent subcommand: 'delete'. Available subcommands: create, send"),
        _ => panic!("expected a refusal"),
    }
}

#[test]
fn agent_tool_create() {
    match plan_agent_tool("create my helper kind=research", "  start  ", true, &agents(), None) {
        AgentToolPlan::Create { name, kind, instructions } => {
            assert_eq!(name, "my helper");
            assert_eq!(kind, Some("research".to_string()));
            assert_eq!(instructions, "start");
        }
        _ => panic!("expected a creation"),
    }
    match plan_agent_tool("create", "x", true, &agents(), None) {
        AgentToolPlan::Refused(m) => assert_eq!(m, "Error: Agent creation requires a name"),
        _ => panic!("expected a refusal"),
    }
    assert_eq!(
        agent_created_report("h", AgentId(3)),
        "Agent 'h' created with ID: 3\nInitial instructions sent to the agent."
    );
}

#[test]
fn agent_tool_send() {
    match plan_agent_tool("send helper", " hi ", true, &agents(), Some(AgentId(1))) {
        AgentToolPlan::Send { target, label, message } => {
            assert_eq!(target, AgentId(7));
            assert_eq!(label, "helper");
            assert_eq!(message, "<agent_message source=\"main\" source_id=\"1\">\nhi\n</agent_message>");
        }
        _ => panic!("expected a send"),
    }
    match plan_agent_tool("send 7", "hi", true, &agents(), Some(AgentId(9))) {
        AgentToolPlan::Send { target, message, .. } => {
            assert_eq!(target, AgentId(7));
            assert_eq!(message, "<agent_message source=\"agent-9\" source_id=\"9\">\nhi\n</agent_message>");
        }
        _ => panic!("expected a send"),
    }
    match plan_agent_tool("send 8", "hi", true, &agents(), None) {
        AgentToolPlan::Refused(m) => assert_eq!(m, "Error: Agent with ID 8 not found"),
        _ => panic!("expected a refusal"),
    }
    match plan_agent_tool("send nobody", "hi", true, &agents(), None) {
        AgentToolPlan::Refused(m) => assert_eq!(m, "Error: Agent with name 'nobody' not found"),
        _ => panic!("expected a refusal"),
    }
    match plan_agent_tool("send helper", "  ", true, &agents(), None) {
        AgentToolPlan::Refused(m) => assert_eq!(m, "Error: Message content is required in the body"),
        _ => panic!("expected a refusal"),
    }
    assert_eq!(message_sent_report("helper", AgentId(7)), "Message sent to agent helper [ID: 7]");
}
