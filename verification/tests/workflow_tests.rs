use termineer::agent::AgentState;
use termineer::workflow::cli::parse_parameters_from_values;
use termineer::workflow::context::{WorkflowContext, WorkflowError};
use termineer::workflow::executor::{
    agent_progress, agent_timeout_error, check_step, combine_output, preview, pro_only_error,
    shows_agent_line, step_heading, workflow_agent_name, AgentProgress,
};
use termineer::workflow::types::{Parameter, Step, StepType, Workflow};

fn empty_step() -> Step {
    Step {
        description: None,
        shell_id: None,
        agent_id: None,
        command: None,
        store_output: None,
        fail_on_error: None,
        kind: None,
        prompt: None,
        into: None,
        message_id: None,
        file_id: None,
        output_id: None,
        wait_id: None,
        content: None,
        store_response: None,
        action: None,
        path: None,
        wait_message: None,
    }
}

fn param(name: &str, required: bool, default: Option<serde_yaml::Value>) -> Parameter {
    Parameter {
        name: name.to_string(),
        description: None,
        type_: "string".to_string(),
        required,
        default,
    }
}

fn workflow(parameters: Vec<Parameter>) -> Workflow {
    Workflow {
        name: "w".to_string(),
        description: None,
        version: None,
        author: None,
        parameters,
        query_template: None,
        steps: vec![],
    }
}

fn lookup<'a>(v: &'a [(String, serde_yaml::Value)], k: &str) -> Option<&'a serde_yaml::Value> {
    v.iter().find(|(key, _)| key == k).map(|(_, value)| value)
}

#[test]
fn parameters_from_key_value_arguments() {
    let w = workflow(vec![]);
    let args = vec!["a=1".to_string(), "b=x=y".to_string(), "a=2".to_string()];
    let r = parse_parameters_from_values(&args, &w).unwrap();
    assert_eq!(r.len(), 2);
    assert_eq!(lookup(&r, "a"), Some(&serde_yaml::Value::String("2".to_string())));
    assert_eq!(lookup(&r, "b"), Some(&serde_yaml::Value::String("x=y".to_string())));
}

#[test]
fn parameter_without_equals_is_refused() {
    let w = workflow(vec![]);
    let args = vec!["a=1".to_string(), "oops".to_string(), "also".to_string()];
    match parse_parameters_from_values(&args, &w) {
        Err(e) => assert_eq!(
            e.message(),
            "Invalid workflow configuration: Invalid parameter format: oops. Use key=value"
        ),
        Ok(_) => panic!("accepted an argument without ="),
    }
}

#[test]
fn defaults_fill_missing_parameters() {
    let w = workflow(vec![
        param("lang", true, Some(serde_yaml::Value::String("rust".to_string()))),
        param("depth", false, Some(serde_yaml::Value::Number(3.into()))),
        param("opt", false, None),
    ]);
    let args = vec!["lang=go".to_string()];
    let r = parse_parameters_from_values(&args, &w).unwrap();
    assert_eq!(r.len(), 2);
    assert_eq!(lookup(&r, "lang"), Some(&serde_yaml::Value::String("go".to_string())));
    assert_eq!(lookup(&r, "depth"), Some(&serde_yaml::Value::Number(3.into())));
    assert_eq!(lookup(&r, "opt"), None);
}

#[test]
fn required_parameter_without_value_is_reported() {
    let w = workflow(vec![param("first", true, None), param("second", true, None)]);
    let args = vec!["x=1".to_string()];
    match parse_parameters_from_values(&args, &w) {
        Err(WorkflowError::MissingParameter(n)) => assert_eq!(n, "first"),
        _ => panic!("expected a missing parameter"),
    }
}

#[test]
fn context_variables_read_back() {
    let mut ctx = WorkflowContext::new(vec![], Some("q".to_string()));
    assert_eq!(ctx.get_variable("x"), None);
    ctx.set_variable("x".to_string(), "1".to_string());
    ctx.set_variable("y".to_string(), "2".to_string());
    ctx.set_variable("x".to_string(), "3".to_string());
    assert_eq!(ctx.get_variable("x"), Some(&"3".to_string()));
    assert_eq!(ctx.get_variable("y"), Some(&"2".to_string()));
    assert_eq!(ctx.get_query(), Some(&"q".to_string()));
    ctx.set_query(None);
    assert_eq!(ctx.get_query(), None);
    assert_eq!(ctx.get_agent_response(), None);
    ctx.set_agent_response("done".to_string());
    assert_eq!(ctx.get_agent_response(), Some(&"done".to_string()));
}

#[test]
fn template_sees_variables_response_and_query() {
    let mut ctx = WorkflowContext::new(vec![], Some("the query".to_string()));
    ctx.set_variable("query".to_string(), "shadowed".to_string());
    ctx.set_variable("name".to_string(), "value".to_string());
    ctx.set_agent_response("answer".to_string());
    let t = ctx.template_strings();
    let get = |k: &str| t.iter().find(|(key, _)| key == k).map(|(_, v)| v.clone());
    assert_eq!(t.len(), 3);
    assert_eq!(get("query"), Some("the query".to_string()));
    assert_eq!(get("name"), Some("value".to_string()));
    assert_eq!(get("agent_response"), Some("answer".to_string()));
}

#[test]
fn validate_reports_first_missing_required_parameter() {
    let w = workflow(vec![param("a", false, None), param("b", true, None), param("c", true, None)]);
    let ctx = WorkflowContext::new(
        vec![("c".to_string(), serde_yaml::Value::String("1".to_string()))],
        None,
    );
    match ctx.validate_parameters(&w) {
        Err(e) => assert_eq!(e.message(), "Missing required parameter: b"),
        Ok(()) => panic!("missing parameter not reported"),
    }
    let ok = WorkflowContext::new(
        vec![
            ("b".to_string(), serde_yaml::Value::Null),
            ("c".to_string(), serde_yaml::Value::Null),
        ],
        None,
    );
    assert!(ok.validate_parameters(&w).is_ok());
}

#[test]
fn steps_are_checked_for_their_fields() {
    let mut s = empty_step();
    assert!(matches!(check_step(&s), Err(WorkflowError::InvalidStepType)));
    s.shell_id = Some("build".to_string());
    match check_step(&s) {
        Err(e) => assert_eq!(e.message(), "Missing required field: command"),
        Ok(_) => panic!("shell step without command accepted"),
    }
    s.command = Some("make".to_string());
    assert!(matches!(check_step(&s), Ok(StepType::Shell)));
    let mut a = empty_step();
    a.agent_id = Some("review".to_string());
    match check_step(&a) {
        Err(e) => assert_eq!(e.message(), "Missing required field: prompt"),
        Ok(_) => panic!("agent step without prompt accepted"),
    }
    a.prompt = Some("look".to_string());
    assert!(matches!(check_step(&a), Ok(StepType::Agent)));
    assert_eq!(a.agent_kind(), "general");
    a.kind = Some("researcher".to_string());
    assert_eq!(a.agent_kind(), "researcher");
}

#[test]
fn command_output_joins_error_output() {
    assert_eq!(combine_output("out", ""), "out");
    assert_eq!(combine_output("", "err"), "err");
    assert_eq!(combine_output("out", "err"), "out\nerr");
}

#[test]
fn previews_cut_long_texts_at_five_hundred_bytes() {
    assert_eq!(preview("short"), "short");
    let long = "a".repeat(520);
    assert_eq!(
        preview(&long),
        format!("{}... [truncated 20 more characters]", "a".repeat(500))
    );
    let exact = "b".repeat(500);
    assert_eq!(preview(&exact), exact);
}

#[test]
fn agent_lines_and_states() {
    assert!(shows_agent_line("compiling"));
    assert!(!shows_agent_line("\u{1F916} agent says"));
    assert!(!shows_agent_line("Token usage: 12"));
    assert!(matches!(agent_progress(&AgentState::Done(Some("r".to_string()))), AgentProgress::Finished(s) if s == "r"));
    assert!(matches!(agent_progress(&AgentState::Done(None)), AgentProgress::Waiting));
    assert!(matches!(agent_progress(&AgentState::Terminated), AgentProgress::Terminated));
    assert!(matches!(agent_progress(&AgentState::Processing), AgentProgress::Working));
    assert!(matches!(agent_progress(&AgentState::Idle), AgentProgress::Waiting));
}

#[test]
fn workflow_messages() {
    assert_eq!(workflow_agent_name("review"), "workflow_agent_review");
    assert_eq!(
        agent_timeout_error(300).message(),
        "Agent error: Agent did not complete within 300 seconds"
    );
    assert_eq!(
        pro_only_error().message(),
        "Permission denied: Workflows are a Pro-only feature. Upgrade to Pro for access."
    );
    assert_eq!(WorkflowError::InvalidStepType.message(), "Invalid step type");
    let d = "build it".to_string();
    assert_eq!(step_heading(0, 3, "build", Some(&d)), "\u{1F4CB} STEP 1/3: build - build it");
    assert_eq!(step_heading(2, 3, "x", None), "\u{1F4CB} STEP 3/3: x - ");
}
