use termineer::tools::patch::{
    apply_patch, longest_common_subsequence, parse_patch_body, patch_display, patch_filename,
    patch_report, patch_search_splits, unified_diff, PatchError,
};

fn body(before: &str, after: &str) -> String {
    format!("<<<<BEFORE\n{}\n<<<<AFTER\n{}\n<<<<END\n", before, after)
}

#[test]
fn patch_needs_file_and_content() {
    assert!(matches!(patch_filename("  ", "x"), Err(PatchError::MissingFilename)));
    assert!(matches!(patch_filename("a.txt", " \n "), Err(PatchError::MissingContent)));
    match patch_filename("  a.txt ", "x") {
        Ok(f) => assert_eq!(f, "a.txt"),
        Err(_) => panic!("expected a file name"),
    }
    assert_eq!(
        PatchError::MissingFilename.message(),
        "Patch tool requires a filename as an argument"
    );
}

#[test]
fn patch_body_delimiters() {
    match parse_patch_body(&body("  old line  ", "new line")) {
        Ok((b, a)) => {
            assert_eq!(b, "old line");
            assert_eq!(a, "new line");
        }
        Err(_) => panic!("expected texts"),
    }
    assert!(matches!(parse_patch_body("nothing here"), Err(PatchError::MissingBefore)));
    assert!(matches!(parse_patch_body("<<<<BEFORE\nx\n"), Err(PatchError::MissingAfter)));
    assert!(matches!(parse_patch_body("<<<<BEFORE\nx\n<<<<AFTER\ny\n"), Err(PatchError::MissingEnd)));
    assert!(matches!(parse_patch_body("<<<<BEFORE<<<<AFTER<<<<END"), Err(PatchError::InvalidFormat)));
    assert_eq!(
        PatchError::MissingAfter.message(),
        "Missing '<<<<AFTER' delimiter in patch"
    );
}

#[test]
fn patch_applies_unique_text() {
    let file = "line one\nline two\nline three\n";
    match apply_patch(file, "line two", "line 2\nline 2b") {
        Ok(p) => {
            assert_eq!(p.new_content, "line one\nline 2\nline 2b\nline three\n");
            assert_eq!(p.start_line, 2);
            assert_eq!(p.end_line, 2);
            assert_eq!(p.before_lines, 1);
            assert_eq!(p.after_lines, 2);
            assert_eq!(
                patch_report("f.txt", &p),
                "Successfully patched file 'f.txt' at lines 2-2 (replaced 1 lines with 2 lines)"
            );
        }
        Err(_) => panic!("expected a patch"),
    }
}

#[test]
fn patch_refuses_missing_and_repeated_text() {
    match apply_patch("abc", "zzz", "y") {
        Err(e) => assert_eq!(e.message(), "Text to replace not found in the file: 'zzz'"),
        Ok(_) => panic!("expected an error"),
    }
    match apply_patch("ab ab", "ab", "y") {
        Err(e) => assert_eq!(
            e.message(),
            "Ambiguous patch: Text to replace occurs multiple times (2 occurrences) in the file. Please provide more context to make the patch unique."
        ),
        Ok(_) => panic!("expected an error"),
    }
    // overlapping occurrences count as two
    assert!(matches!(apply_patch("aaa", "aa", "b"), Err(PatchError::Ambiguous(2))));
}

#[test]
fn patch_search_fault_detected() {
    assert!(patch_search_splits("xé", "é"));
    assert!(!patch_search_splits("xe", "e"));
    assert!(!patch_search_splits("xe", "q"));
    assert!(patch_search_splits("", ""));
}

fn strings(v: &[&str]) -> Vec<String> {
    v.iter().map(|s| s.to_string()).collect()
}

#[test]
fn lcs_is_longest_and_common() {
    let a = strings(&["a", "b", "c", "d"]);
    let b = strings(&["b", "x", "d"]);
    let l = longest_common_subsequence(&a, &b);
    assert_eq!(l, vec![(1, 0), (3, 2)]);
    let e: Vec<String> = Vec::new();
    assert!(longest_common_subsequence(&a, &e).is_empty());
}

#[test]
fn diff_marks_changes() {
    let a = strings(&["keep", "old"]);
    let b = strings(&["keep", "new"]);
    let l = longest_common_subsequence(&a, &b);
    let d = unified_diff(&a, &b, &l);
    assert_eq!(
        d,
        vec![
            "  keep".to_string(),
            "\x1b[31m- old\x1b[0m".to_string(),
            "\x1b[32m+ new\x1b[0m".to_string()
        ]
    );
}

#[test]
fn diff_shows_two_trailing_context_lines() {
    let a = strings(&["x", "1", "2", "3"]);
    let b = strings(&["1", "2", "3"]);
    let l = longest_common_subsequence(&a, &b);
    let d = unified_diff(&a, &b, &l);
    assert_eq!(
        d,
        vec![
            "\x1b[31m- x\x1b[0m".to_string(),
            "  ...".to_string(),
            "  2".to_string(),
            "  3".to_string()
        ]
    );
}

#[test]
fn patch_display_has_header_and_diff() {
    let file = "a\nb\n";
    let p = apply_patch(file, "b", "c").ok().unwrap();
    let shown = patch_display("f", file, "b", "c", &p);
    assert_eq!(
        shown,
        "\x1b[1m🔄 Patch: f (-1 lines, +1 lines)\x1b[0m\n\x1b[1m@@ Lines 2-2 modified (file has 2 lines total) @@\x1b[0m\n\n\x1b[31m- b\x1b[0m\n\x1b[32m+ c\x1b[0m"
    );
}

#[test]
fn reverse_patch_restores_the_file() {
    let file = "alpha\nfoo bar\nomega\n";
    let p = apply_patch(file, "foo bar", "baz").ok().unwrap();
    assert_eq!(p.new_content, "alpha\nbaz\nomega\n");
    let q = apply_patch(&p.new_content, "baz", "foo bar").ok().unwrap();
    assert_eq!(q.new_content, file);
}
