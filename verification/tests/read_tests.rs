use termineer::tools::read::{
    combine_reads, directory_report, file_report, image_media_type, image_report,
    image_size_error, is_image_extension, parse_arguments, read_plan, selection_in_range,
    unsupported_image_error, ReadPlan,
};
use termineer::tools::ToolResult;

#[test]
fn arguments_with_lines_override_offset_and_limit() {
    let a = parse_arguments("offset=5 src/main.rs lines=2-4 limit=9");
    assert_eq!(a.offset, Some(1));
    assert_eq!(a.limit, Some(3));
    assert!(a.lines_specified);
    assert_eq!(a.paths, vec!["src/main.rs".to_string()]);
}

#[test]
fn arguments_offset_limit_and_bad_values() {
    let a = parse_arguments("a.txt offset=3 limit=x limit=7 lines=5-2");
    assert_eq!(a.offset, Some(3));
    assert_eq!(a.limit, Some(7));
    assert!(!a.lines_specified);
    assert_eq!(a.paths, vec!["a.txt".to_string()]);
}

#[test]
fn plan_checks_paths() {
    match read_plan("") {
        Err(m) => assert_eq!(m, "No files specified for reading"),
        Ok(_) => panic!("expected an error"),
    }
    match read_plan("a b offset=1") {
        Err(m) => assert_eq!(m, "Offset, limit, and lines parameters can only be used with a single file"),
        Ok(_) => panic!("expected an error"),
    }
    match read_plan("a b") {
        Ok(ReadPlan::Multiple(p)) => assert_eq!(p, vec!["a".to_string(), "b".to_string()]),
        _ => panic!("expected several paths"),
    }
    match read_plan("a limit=2") {
        Ok(ReadPlan::Single { path, offset, limit }) => {
            assert_eq!(path, "a");
            assert_eq!(offset, None);
            assert_eq!(limit, Some(2));
        }
        _ => panic!("expected one path"),
    }
}

#[test]
fn file_report_selects_lines() {
    let content = "l1\nl2\nl3\nl4\n";
    assert_eq!(
        file_report("f", content, Some(1), Some(2)),
        "File: f (lines 2-3 of 4, 2 lines read)\n\nl2\nl3\n"
    );
    assert_eq!(
        file_report("f", content, None, None),
        "File: f (lines 1-4 of 4, 4 lines read)\n\nl1\nl2\nl3\nl4\n"
    );
    assert_eq!(
        file_report("f", content, Some(10), None),
        "File: f (lines 5-4 of 4, 0 lines read)\n\n\n"
    );
}

#[test]
fn file_report_cuts_long_reads() {
    let content: String = (1..=1005).map(|i| format!("x{}\n", i)).collect();
    let r = file_report("big", &content, None, None);
    assert!(r.starts_with("File: big (lines 1-1000 of 1005, 1000 lines read, truncated)\n\nx1\n"));
    assert!(r.ends_with("x1000\n\n\n=============== TRUNCATION NOTICE ===============\nFile content was truncated to 1000 lines maximum.\nTo read additional content, use offset parameter:\n  read offset=1000 limit=1000 big\nOr use lines=START-END:\n  read lines=1001-2000 big\n"));
}

#[test]
fn selection_overflow_detected() {
    assert!(selection_in_range("a\nb\n", Some(1), Some(10)));
    assert!(!selection_in_range("a\nb\n", Some(1), Some(usize::MAX)));
    assert!(selection_in_range("a\nb\n", None, Some(usize::MAX)));
}

#[test]
fn directory_lists_dirs_then_files_sorted() {
    let entries = vec![
        ("zeta.txt".to_string(), false),
        ("src".to_string(), true),
        ("alpha.txt".to_string(), false),
        ("docs".to_string(), true),
    ];
    assert_eq!(
        directory_report("proj", &entries),
        "Directory: proj (4 entries)\n\ndocs/\nsrc/\nalpha.txt\nzeta.txt"
    );
}

#[test]
fn several_reads_are_joined() {
    let rs = vec![ToolResult::success("one".to_string()), ToolResult::error("two".to_string())];
    let c = combine_reads(&rs);
    assert!(!c.success);
    assert_eq!(c.to_text(), "one\n\n\ntwo\n\n");
    let ok = combine_reads(&vec![ToolResult::success("a".to_string())]);
    assert!(ok.success);
}

#[test]
fn image_helpers() {
    assert!(is_image_extension(Some("JPG")));
    assert!(is_image_extension(Some("png")));
    assert!(!is_image_extension(Some("gif")));
    assert!(!is_image_extension(None));
    assert_eq!(image_media_type(Some("jpeg")), Some("image/jpeg"));
    assert_eq!(image_media_type(Some("png")), Some("image/png"));
    assert_eq!(image_media_type(Some("JPG")), None);
    assert_eq!(image_size_error("i.png", 1_048_576), None);
    assert_eq!(
        image_size_error("i.png", 3_000_000),
        Some("Image file 'i.png' is too large (2 MB). Maximum size is 1MB. Try using a smaller image.".to_string())
    );
    assert_eq!(
        unsupported_image_error("a.JPG"),
        "Unsupported image format for file 'a.JPG'. Currently only JPEG and PNG formats are supported."
    );
    assert_eq!(image_report("p.png", 10, 20, 300), "Image: p.png (10x20, 300 bytes)");
}
