use termineer::tools::fetch::{
    extract_text_with_scraper, fetch_report, parse_fetch_args, parse_fetch_options, summary_words,
};

#[test]
fn test_extract_basic_text() {
    let html = "<html><body><p>Just some text.</p><div>More text here.</div></body></html>";
    let expected = "Just some text.\nMore text here.";
    assert_eq!(extract_text_with_scraper(html), expected);
}

#[test]
fn test_extract_with_link() {
    let html = "<p>Visit <a href=\"https://example.com\">Example Site</a>.</p>";
    let expected = "Visit Example Site [https://example.com] .";
    assert_eq!(extract_text_with_scraper(html), expected.trim());
}

#[test]
fn test_extract_link_with_nested_tags() {
    let html = "<p>Check <a href=\"/page\"><b>bold</b> link</a>.</p>";
    let expected = "Check bold link [/page] .";
    assert_eq!(extract_text_with_scraper(html), expected.trim());
}

#[test]
fn test_extract_multiple_links() {
    let html = "<p><a href=\"/1\">Link 1</a> and <a href=\"/2\">Link 2</a></p>";
    let expected = "Link 1 [/1] and Link 2 [/2]";
    assert_eq!(extract_text_with_scraper(html), expected);
}

#[test]
fn test_extract_link_no_href() {
    let html = "<p>This is <a>just text</a>.</p>";
    let expected = "This is just text .";
    assert_eq!(extract_text_with_scraper(html), expected.trim());
}

#[test]
fn test_extract_link_no_text() {
    let html = "<p>Link: <a href=\"/empty\"></a></p>";
    let expected = "Link:";
    assert_eq!(extract_text_with_scraper(html), expected);
}

#[test]
fn test_ignore_script_and_style() {
    let html = "<style>body { color: red; }</style><p>Visible text</p><script>alert('invisible');</script>";
    let expected = "Visible text";
    assert_eq!(extract_text_with_scraper(html), expected);
}

#[test]
fn test_newline_handling_for_blocks() {
    let html = "<h1>Title</h1><p>Paragraph 1.</p><div>Div content.</div><p>Paragraph 2.</p>";
    let expected = "Title\nParagraph 1.\nDiv content.\nParagraph 2.";
    assert_eq!(extract_text_with_scraper(html), expected);
}

#[test]
fn test_br_tag_handling() {
    let html = "<p>Line one<br>Line two</p>";
    let expected = "Line one\nLine two";
    assert_eq!(extract_text_with_scraper(html), expected);
}

#[test]
fn test_whitespace_trimming() {
    let html = "<p>  Lots  of   spaces  </p>";
    let expected = "Lots of spaces";
    assert_eq!(extract_text_with_scraper(html), expected);
}

#[test]
fn test_complex_structure() {
    let html = r#"
            <body>
                <h1>Main Heading</h1>
                <p>
                    This is a paragraph with a <a href="http://test.com">link</a>.
                    It also has <strong>strong</strong> text.
                </p>
                <div><script>var x=1;</script>Another block.</div>
                <ul><li>Item 1</li><li>Item 2 with <a href="/item2">nested link</a></li></ul>
            </body>
        "#;
    let expected = "Main Heading\nThis is a paragraph with a link [http://test.com] .\nIt also has strong text.\nAnother block.\nItem 1\nItem 2 with nested link [/item2]";
    assert_eq!(extract_text_with_scraper(html), expected);
}

#[test]
fn fetch_url_is_first_word() {
    assert_eq!(parse_fetch_args("  https://a.example/x  extra"), "https://a.example/x");
    assert_eq!(parse_fetch_args("   "), "");
}

#[test]
fn fetch_report_keeps_plain_text() {
    let r = fetch_report("http://x", "application/json", "{\"a\": 1}");
    assert_eq!(r, "Fetched from http://x:\n\n{\"a\": 1}");
    let h = fetch_report("http://y", "text/html; charset=utf-8", "<p>Hi <b>there</b></p>");
    assert_eq!(h, "Fetched from http://y:\n\nHi there");
}

#[test]
fn fetch_options_follow_the_documented_syntax() {
    let plain = parse_fetch_options("https://example.com");
    assert_eq!(plain.url, "https://example.com");
    assert!(!plain.summarize);
    assert_eq!(plain.length, None);
    assert_eq!(summary_words(&plain.length), Some(400));
    let s = parse_fetch_options("--summarize https://example.com");
    assert_eq!(s.url, "https://example.com");
    assert!(s.summarize);
    let long = parse_fetch_options("--summarize --length long https://example.com");
    assert_eq!(long.url, "https://example.com");
    assert_eq!(long.length, Some("long".to_string()));
    assert_eq!(summary_words(&long.length), Some(800));
    let n = parse_fetch_options("--summarize --length 300 https://example.com");
    assert_eq!(summary_words(&n.length), Some(300));
    let short = parse_fetch_options("-s -l short http://x");
    assert_eq!(short.url, "http://x");
    assert_eq!(summary_words(&short.length), Some(150));
    assert_eq!(summary_words(&Some("tiny".to_string())), None);
    assert_eq!(parse_fetch_options("   ").url, "");
    assert_eq!(parse_fetch_args("--summarize https://example.com"), "https://example.com");
}
