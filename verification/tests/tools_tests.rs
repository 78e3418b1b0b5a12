use termineer::tools::truncate_utf8_content;

#[test]
fn test_utf8_truncation() {
    // Test with ASCII content
    let ascii = "A".repeat(10_000);
    let truncated_ascii =
        truncate_utf8_content(&ascii, Some(1000), Some(100), Some(100), Some("[...]"));

    // Verify lengths
    assert!(truncated_ascii.len() < ascii.len());
    assert!(truncated_ascii.contains("[...]"));

    // Verify UTF-8 validity
    assert!(std::str::from_utf8(truncated_ascii.as_bytes()).is_ok());

    // Test with multi-byte UTF-8 characters (emoji - 4 bytes each)
    let emoji = "😀".repeat(1_000);
    let truncated_emoji =
        truncate_utf8_content(&emoji, Some(500), Some(100), Some(100), Some("[...]"));

    // Verify proper truncation
    assert!(truncated_emoji.len() < emoji.len());
    assert!(truncated_emoji.contains("[...]"));

    // Most importantly, verify UTF-8 validity is maintained
    assert!(std::str::from_utf8(truncated_emoji.as_bytes()).is_ok());

    // Test mixed content
    let mixed = format!("{}{}{}", "A".repeat(100), "😀".repeat(100), "Z".repeat(100));
    let truncated_mixed =
        truncate_utf8_content(&mixed, Some(200), Some(50), Some(50), Some("[...]"));

    // Verify truncation happened
    assert!(truncated_mixed.len() < mixed.len());
    assert!(truncated_mixed.contains("[...]"));

    // Verify both start and end sections are preserved
    assert!(truncated_mixed.starts_with(&"A".repeat(10)));
    assert!(truncated_mixed.ends_with(&"Z".repeat(10)));

    // Verify UTF-8 validity
    assert!(std::str::from_utf8(truncated_mixed.as_bytes()).is_ok());
}

#[test]
fn short_content_is_unchanged() {
    assert_eq!(truncate_utf8_content("hello", Some(5), Some(1), Some(1), Some("..")), "hello");
}

#[test]
fn exact_cut_points() {
    // 10 ASCII bytes, keep 3 from the start and 2 from the end
    assert_eq!(truncate_utf8_content("0123456789", Some(8), Some(3), Some(2), Some("|")), "012|89");
    // a start budget ending inside a two-byte character leaves that character out
    assert_eq!(truncate_utf8_content("aéééééb", Some(6), Some(2), Some(1), Some("|")), "a|b");
}

#[test]
fn shortened_output_fits_the_maximum() {
    let r = truncate_utf8_content(&"é".repeat(10), Some(6), Some(3), Some(0), Some("..."));
    assert_eq!(r, "é...");
    assert!(r.len() <= 6);
}

#[test]
fn proportional_budgets() {
    // start + end + placeholder exceed the maximum: the 8 bytes left beside
    // the 2-byte placeholder are shared 1:3
    assert_eq!(
        truncate_utf8_content("abcdefghijklmnopqrstuvwxyz", Some(10), Some(10), Some(30), Some("..")),
        "ab..uvwxyz"
    );
}
