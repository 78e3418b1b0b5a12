use termineer::tools::search::{
    clean_result_url, duckduckgo_report, duckduckgo_url, format_duckduckgo, format_google,
    google_search_url, search_route, GoogleItem, SearchHit, SearchRoute,
};

#[test]
fn routes_by_api_key() {
    match search_route("  rust verus ", false) {
        SearchRoute::DuckDuckGo(q) => assert_eq!(q, "rust verus"),
        _ => panic!("expected DuckDuckGo"),
    }
    match search_route("  rust ", true) {
        SearchRoute::Google(q) => assert_eq!(q, "rust"),
        _ => panic!("expected Google"),
    }
    match search_route("   ", true) {
        SearchRoute::Refused(m) => assert_eq!(m, "Error: No search query provided. Usage: search <query>"),
        _ => panic!("expected a refusal"),
    }
    match search_route("", false) {
        SearchRoute::DuckDuckGo(q) => assert_eq!(q, ""),
        _ => panic!("expected DuckDuckGo"),
    }
}

#[test]
fn urls_are_percent_encoded() {
    assert_eq!(duckduckgo_url("a b&c"), "https://html.duckduckgo.com/html/?q=a%20b%26c");
    assert_eq!(duckduckgo_url("é"), "https://html.duckduckgo.com/html/?q=%C3%A9");
    assert_eq!(
        google_search_url("KEY", "x y"),
        "https://www.googleapis.com/customsearch/v1?key=KEY&cx=77f98042a073d4c0e&q=x%20y"
    );
}

#[test]
fn result_urls_are_cleaned() {
    assert_eq!(
        clean_result_url("//duckduckgo.com/l/?uddg=https%3A%2F%2Fexample.com%2Fa&rut=abc"),
        "https://example.com/a"
    );
    assert_eq!(clean_result_url("/about"), "https://duckduckgo.com/about");
    assert_eq!(clean_result_url("https://x.org"), "https://x.org");
}

#[test]
fn duckduckgo_listing() {
    let hits = vec![SearchHit {
        title: Some("  Title  ".to_string()),
        href: Some("https://a.example".to_string()),
        snippet: None,
    }];
    assert_eq!(
        format_duckduckgo("q", &hits),
        "Search results for \"q\" (via DuckDuckGo):\n\n\x1b[90m1. Title\x1b[0m\n\x1b[90m   URL: https://a.example\x1b[0m\n\x1b[90m   No description\x1b[0m\n\n"
    );
    assert_eq!(
        format_duckduckgo("q", &Vec::new()),
        "Search results for \"q\" (via DuckDuckGo):\n\nNo results found.\n"
    );
}

#[test]
fn duckduckgo_page_is_read() {
    let html = "<div class=\"result\"><h2 class=\"result__title\"><a href=\"/l/?uddg=https%3A%2F%2Fr.example&x=1\">R <b>one</b></a></h2><a class=\"result__snippet\">Snip</a></div>";
    assert_eq!(
        duckduckgo_report("r", html),
        "Search results for \"r\" (via DuckDuckGo):\n\n\x1b[90m1. R one\x1b[0m\n\x1b[90m   URL: https://r.example\x1b[0m\n\x1b[90m   Snip\x1b[0m\n\n"
    );
}

#[test]
fn google_listing() {
    let items = vec![
        GoogleItem { title: "T1".to_string(), link: "L1".to_string(), snippet: Some("S1".to_string()) },
        GoogleItem { title: "T2".to_string(), link: "L2".to_string(), snippet: None },
    ];
    assert_eq!(
        format_google("q", &Some(items)),
        "Search results for \"q\":\n\n\x1b[90m1. T1\x1b[0m\n\x1b[90m   URL: L1\x1b[0m\n\x1b[90m   S1\x1b[0m\n\n\x1b[90m2. T2\x1b[0m\n\x1b[90m   URL: L2\x1b[0m\n\n"
    );
    assert_eq!(format_google("q", &None), "Search results for \"q\":\n\nNo results found.\n");
    assert_eq!(format_google("q", &Some(Vec::new())), "Search results for \"q\":\n\nNo results found.\n");
}
