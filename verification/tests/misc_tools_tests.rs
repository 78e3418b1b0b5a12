use termineer::tools::path_utils::{check_resolved, validate_resolution, within_base, PathError, Resolution};
use termineer::tools::write::{write_filename, write_report};
use termineer::workflow::loader::{list_workflows, workflow_file_candidates};

#[test]
fn write_tool_messages() {
    assert_eq!(write_filename("  out.txt "), Ok("out.txt".to_string()));
    assert_eq!(
        write_filename("   "),
        Err("Write tool requires a filename as an argument".to_string())
    );
    assert_eq!(
        write_report("out.txt", "a\nb\n"),
        "Successfully wrote to file 'out.txt' (2 lines, line range: 1-2)"
    );
    assert_eq!(
        write_report("e", ""),
        "Successfully wrote to file 'e' (0 lines, line range: 1-0)"
    );
}

#[test]
fn paths_stay_within_the_working_directory() {
    assert!(within_base("/home/u/proj", "/home/u/proj/src/a.rs"));
    assert!(!within_base("/home/u/proj", "/etc/passwd"));
    assert!(!within_base("/home/u/proj", "/home/u/proj2/f"));
    assert!(within_base("/home/u/proj", "/home/u/proj"));
    assert!(within_base("/", "/etc"));
    assert_eq!(check_resolved("x", "/home/u/proj", "/home/u/proj/x"), Ok(()));
    assert_eq!(
        check_resolved("../../../etc/passwd", "/home/u/proj", "/etc/passwd"),
        Err("Access denied: path is outside the working directory: ../../../etc/passwd".to_string())
    );
}

#[test]
fn workflows_are_listed_sorted_without_repeats() {
    let names = vec![
        "b.yaml".to_string(),
        "a.yml".to_string(),
        "notes.txt".to_string(),
        "b.yml".to_string(),
        ".yaml".to_string(),
        "x.tar.yaml".to_string(),
    ];
    assert_eq!(
        list_workflows(&names),
        vec!["a".to_string(), "b".to_string(), "x.tar".to_string()]
    );
}

#[test]
fn workflow_file_names_tried() {
    assert_eq!(
        workflow_file_candidates("deploy"),
        ("deploy.yaml".to_string(), "deploy.yml".to_string())
    );
    assert_eq!(
        workflow_file_candidates("deploy.yml"),
        ("deploy.yml".to_string(), "deploy.yaml".to_string())
    );
}

#[test]
fn resolved_paths_are_checked_against_the_working_directory() {
    let ok = validate_resolution("a.txt", "/work", Resolution::Existing("/work/a.txt".to_string()));
    assert_eq!(ok.unwrap(), "/work/a.txt");
    let new = validate_resolution("n.txt", "/work", Resolution::InExistingParent("/work/n.txt".to_string()));
    assert_eq!(new.unwrap(), "/work/n.txt");
    match validate_resolution("../../../etc/passwd", "/work", Resolution::Existing("/etc/passwd".to_string())) {
        Err(PathError::PermissionDenied(m)) => assert_eq!(
            m,
            "Access denied: path is outside the working directory: ../../../etc/passwd"
        ),
        other => panic!("unexpected {:?}", other),
    }
    assert!(matches!(validate_resolution("x/", "/w", Resolution::NoFileName), Err(PathError::InvalidInput(m)) if m == "Invalid path: no filename component"));
    assert!(matches!(validate_resolution("q/x", "/w", Resolution::ParentMissing), Err(PathError::NotFound(m)) if m == "Parent directory does not exist"));
    assert!(matches!(validate_resolution("", "/w", Resolution::NoParent), Err(PathError::InvalidInput(m)) if m == "Invalid path"));
}

#[test]
fn test_safe_path() {
    // "test-file.txt" exists in the working directory "/tmp/project".
    let result = validate_resolution(
        "test-file.txt",
        "/tmp/project",
        Resolution::Existing("/tmp/project/test-file.txt".to_string()),
    );
    assert!(result.is_ok());
}

#[test]
fn test_traversal_attempt() {
    // "../../../etc/passwd" resolves to "/etc/passwd", outside the working directory.
    let result = validate_resolution(
        "../../../etc/passwd",
        "/tmp/project",
        Resolution::Existing("/etc/passwd".to_string()),
    );
    assert!(result.is_err());
}
