//! The search tool: the query's route (Google's API where a key is set,
//! else DuckDuckGo's HTML page), the request URLs, and the listing of the
//! results.
use vstd::prelude::*;
use crate::constants::{FORMAT_GRAY, FORMAT_RESET};
use crate::text::{self, decimal, starts_with, trim};

verus! {

// ---------------------------------------------------------------------------
// Percent-encoding
// ---------------------------------------------------------------------------

/// Bytes that percent-encoding leaves as they are: ASCII letters, digits
/// and `-`, `.`, `_`, `~`.
pub open spec fn unreserved(b: u8) -> bool {
    (48 <= b <= 57) || (65 <= b <= 90) || (97 <= b <= 122) || b == 45 || b == 46 || b == 95 || b
        == 126
}

/// The upper-case hexadecimal digit of `d` (below 16).
pub open spec fn hex_digit(d: u8) -> char {
    if d < 10 {
        ((48 + d) as u8) as char
    } else {
        ((55 + d) as u8) as char
    }
}

/// The percent-encoding of `bytes`: each byte that is not unreserved
/// becomes `%` and its two upper-case hexadecimal digits.
pub open spec fn percent_encoded(bytes: Seq<u8>) -> Seq<char>
    decreases bytes.len(),
{
    if bytes.len() == 0 {
        seq![]
    } else {
        let b = bytes.last();
        percent_encoded(bytes.drop_last()) + if unreserved(b) {
            seq![b as char]
        } else {
            seq!['%', hex_digit(b / 16), hex_digit(b % 16)]
        }
    }
}

/// `urlencoding::encode`: percent-encodes the UTF-8 bytes of `s`, all but
/// the unreserved ones.
#[verifier::external_body]
fn url_encode(s: &str) -> (r: String)
    ensures
        r@ == percent_encoded(vstd::utf8::encode_utf8(s@)),
{
    urlencoding::encode(s).into_owned()
}

/// What `urlencoding::decode` gives for `s`: the percent escapes turned
/// into bytes read as UTF-8, or `None` where those bytes are not UTF-8.
pub uninterp spec fn url_decoded(s: Seq<char>) -> Option<Seq<char>>;

/// The characters of an optional string.
pub open spec fn opt_view(o: Option<String>) -> Option<Seq<char>> {
    match o {
        Some(x) => Some(x@),
        None => None,
    }
}

/// `urlencoding::decode`: the text with its `%XX` escapes decoded, or
/// `None` where the result is not UTF-8. A text without `%` comes back as
/// it is.
#[verifier::external_body]
fn url_decode(s: &str) -> (r: Option<String>)
    ensures
        opt_view(r) == url_decoded(s@),
        !s@.contains('%') ==> opt_view(r) == Some(s@),
{
    match urlencoding::decode(s) {
        Ok(d) => Some(d.into_owned()),
        Err(_) => None,
    }
}

// ---------------------------------------------------------------------------
// Routing and URLs
// ---------------------------------------------------------------------------

/// Where a search goes.
pub enum SearchRoute {
    /// DuckDuckGo's HTML page, for this query
    DuckDuckGo(String),
    /// Google's API, for this query
    Google(String),
    /// No query: refused with this message
    Refused(String),
}

/// Routes a search for `args`: to DuckDuckGo where no Google API key is
/// set (the query trimmed, even when empty), else to Google where the
/// trimmed query is not empty.
pub fn search_route(args: &str, has_api_key: bool) -> (r: SearchRoute)
    ensures
        !has_api_key ==> (r matches SearchRoute::DuckDuckGo(q) && q@ == trim(args@)),
        has_api_key && trim(args@).len() > 0 ==> (r matches SearchRoute::Google(q) && q@ == trim(
            args@,
        )),
        has_api_key && trim(args@).len() == 0 ==> (r matches SearchRoute::Refused(m) && m@
            == "Error: No search query provided. Usage: search <query>"@),
{
    let q = text::trim_chars(&text::str_chars(args));
    if !has_api_key {
        return SearchRoute::DuckDuckGo(text::chars_to_string(&q));
    }
    if q.len() == 0 {
        return SearchRoute::Refused(
            text::chars_to_string(
                &text::str_chars("Error: No search query provided. Usage: search <query>"),
            ),
        );
    }
    SearchRoute::Google(text::chars_to_string(&q))
}

/// The programmable search engine used with Google's API.
pub const SEARCH_ENGINE_ID: &'static str = "77f98042a073d4c0e";

/// The DuckDuckGo page that lists results for `query`.
pub fn duckduckgo_url(query: &str) -> (r: String)
    ensures
        r@ == "https://html.duckduckgo.com/html/?q="@ + percent_encoded(
            vstd::utf8::encode_utf8(query@),
        ),
{
    let mut m = text::str_chars("https://html.duckduckgo.com/html/?q=");
    let e = url_encode(query);
    text::append_str(&mut m, e.as_str());
    text::chars_to_string(&m)
}

/// The Google API request for `query` with `api_key`.
pub fn google_search_url(api_key: &str, query: &str) -> (r: String)
    ensures
        r@ == "https://www.googleapis.com/customsearch/v1?key="@ + api_key@ + "&cx="@
            + SEARCH_ENGINE_ID@ + "&q="@ + percent_encoded(vstd::utf8::encode_utf8(query@)),
{
    let mut m = text::str_chars("https://www.googleapis.com/customsearch/v1?key=");
    text::append_str(&mut m, api_key);
    text::append_str(&mut m, "&cx=");
    text::append_str(&mut m, SEARCH_ENGINE_ID);
    text::append_str(&mut m, "&q=");
    let e = url_encode(query);
    text::append_str(&mut m, e.as_str());
    text::chars_to_string(&m)
}

// ---------------------------------------------------------------------------
// DuckDuckGo's results
// ---------------------------------------------------------------------------

/// One result of DuckDuckGo's page: the text of its title link (where it
/// has one), that link's target, and the text of its snippet (where it has
/// one), as the page gives them.
pub struct SearchHit {
    pub title: Option<String>,
    pub href: Option<String>,
    pub snippet: Option<String>,
}

/// A result as plain values.
pub type HitView = (Option<Seq<char>>, Option<Seq<char>>, Option<Seq<char>>);

/// The results as plain values.
pub open spec fn hit_views(h: Seq<SearchHit>) -> Seq<HitView> {
    h.map_values(|x: SearchHit| (opt_view(x.title), opt_view(x.href), opt_view(x.snippet)))
}

/// The results on the page `html` as `scraper` selects them: each element
/// that the CSS selector `result` matches, in document order, with the text
/// of its first element matching `title`, that element's `href`, and the
/// text of its first element matching `snippet`; no results where one of the
/// selectors does not parse.
pub uninterp spec fn page_hits(html: Seq<char>, result: Seq<char>, title: Seq<char>, snippet: Seq<char>) -> Seq<HitView>;

/// The selectors that pick DuckDuckGo's results, their title links and
/// their snippets.
pub open spec fn duckduckgo_page_hits(html: Seq<char>) -> Seq<HitView> {
    page_hits(html, ".result"@, ".result__title a"@, ".result__snippet"@)
}

/// Parses `html` with `scraper::Html::parse_document` and lists the
/// elements that `result` selects, each with the concatenated text of its
/// first `title` element, that element's `href` attribute, and the
/// concatenated text of its first `snippet` element; nothing where a
/// selector does not parse (`scraper::Selector::parse`). The contract names
/// the result.
#[verifier::external_body]
fn select_hits(html: &str, result: &str, title: &str, snippet: &str) -> (r: Vec<SearchHit>)
    ensures
        hit_views(r@) == page_hits(html@, result@, title@, snippet@),
{
    let [Ok(res), Ok(tit), Ok(sni)] = [result, title, snippet].map(scraper::Selector::parse) else { return vec![] };
    let doc = scraper::Html::parse_document(html);
    let mut out = Vec::new();
    for r in doc.select(&res) {
        let t = r.select(&tit).next();
        out.push(SearchHit {
            title: t.map(|e| e.text().collect()),
            href: t.and_then(|e| e.attr("href")).map(String::from),
            snippet: r.select(&sni).next().map(|e| e.text().collect()),
        });
    }
    out
}

/// The part of `s` before the first occurrence of `sep`, or all of `s`.
pub open spec fn before_first(s: Seq<char>, sep: Seq<char>) -> Seq<char> {
    match text::find_spec(s, sep, 0) {
        Some(i) => s.take(i),
        None => s,
    }
}

/// The address a result links to: DuckDuckGo's redirect (`/l/?uddg=`)
/// replaced by its target, decoded (as it is where decoding fails); a
/// path on DuckDuckGo made absolute; any other address as it is.
pub open spec fn result_url(url: Seq<char>) -> Seq<char> {
    if text::contains(url, "/l/?uddg="@) {
        let i = text::find_spec(url, "uddg="@, 0)->0;
        let encoded = before_first(before_first(url.skip(i + 5), "uddg="@), "&"@);
        match url_decoded(encoded) {
            Some(d) => d,
            None => encoded,
        }
    } else if starts_with(url, "/"@) {
        "https://duckduckgo.com"@ + url
    } else {
        url
    }
}

/// The part of `v` before the first occurrence of `sep`.
fn cut_before(v: &Vec<char>, sep: &str) -> (r: Vec<char>)
    ensures
        r@ == before_first(v@, sep@),
{
    let sv = text::str_chars(sep);
    match text::find_in(v, &sv, 0) {
        Some(i) => text::copy_range(v, 0, i),
        None => v.clone(),
    }
}

/// The address a result links to.
pub fn clean_result_url(url: &str) -> (r: String)
    ensures
        r@ == result_url(url@),
{
    proof {
        reveal_strlit("/l/?uddg=");
        reveal_strlit("uddg=");
        assert("uddg="@.len() == 5);
    }
    let u = text::str_chars(url);
    if text::contains_chars(&u, &text::str_chars("/l/?uddg=")) {
        let ghost k = choose|k: int| text::occurs_at(u@, "/l/?uddg="@, k);
        assert(text::occurs_at(u@, "uddg="@, k + 4)) by {
            assert(u@.subrange(k + 4, k + 9) =~= u@.subrange(k, k + 9).subrange(4, 9));
            assert("/l/?uddg="@.subrange(4, 9) =~= "uddg="@);
        }
        let i = match text::find_in(&u, &text::str_chars("uddg="), 0) {
            Some(i) => i,
            None => {
                return text::chars_to_string(&u);
            },
        };
        assert(i + 5 <= u@.len());
        assert(i + 5 <= u.len());
        let rest = text::copy_range(&u, i + 5, u.len());
        assert(rest@ =~= u@.skip(i + 5));
        let encoded = cut_before(&cut_before(&rest, "uddg="), "&");
        let es = text::chars_to_string(&encoded);
        match url_decode(es.as_str()) {
            Some(d) => d,
            None => es,
        }
    } else if text::has_prefix_str(&u, "/") {
        let mut m = text::str_chars("https://duckduckgo.com");
        text::append_chars(&mut m, &u);
        text::chars_to_string(&m)
    } else {
        text::chars_to_string(&u)
    }
}

/// The lines listing result number `n` with its title, address and text.
pub open spec fn result_entry(n: nat, title: Seq<char>, url: Seq<char>, snippet: Seq<char>) -> Seq<
    char,
> {
    FORMAT_GRAY@ + decimal(n) + ". "@ + title + FORMAT_RESET@ + "\n"@ + FORMAT_GRAY@ + "   URL: "@
        + url + FORMAT_RESET@ + "\n"@ + FORMAT_GRAY@ + "   "@ + snippet + FORMAT_RESET@
        + "\n\n"@
}

/// The entry of DuckDuckGo result number `n`: the title and snippet
/// trimmed (or a placeholder), the address cleaned.
pub open spec fn hit_entry(n: nat, h: HitView) -> Seq<char> {
    let (title, href, snippet) = h;
    let t = match title {
        Some(t) => trim(t),
        None => "No title"@,
    };
    let u = match href {
        Some(u) => result_url(u),
        None => "No URL"@,
    };
    let s = match snippet {
        Some(s) => trim(s),
        None => "No description"@,
    };
    result_entry(n, t, u, s)
}

/// The entries of results `hits`, numbered from `start + 1`.
pub open spec fn hit_entries(hits: Seq<HitView>) -> Seq<char>
    decreases hits.len(),
{
    if hits.len() == 0 {
        seq![]
    } else {
        hit_entries(hits.drop_last()) + hit_entry(hits.len(), hits.last())
    }
}

/// The listing of DuckDuckGo's results for `query`: the first ten.
pub open spec fn duckduckgo_text(query: Seq<char>, hits: Seq<HitView>) -> Seq<char> {
    let shown = if hits.len() > 10 {
        hits.take(10)
    } else {
        hits
    };
    "Search results for \""@ + query + "\" (via DuckDuckGo):\n\n"@ + hit_entries(shown) + if shown.len()
        == 0 {
        "No results found.\n"@
    } else {
        seq![]
    }
}

/// The entries of the first `i` results come first among those of the
/// first `k`.
pub proof fn lemma_hit_entries_prefix(hits: Seq<HitView>, i: int, k: int)
    requires
        0 <= i <= k <= hits.len(),
    ensures
        starts_with(hit_entries(hits.take(k)), hit_entries(hits.take(i))),
    decreases k - i,
{
    if i < k {
        lemma_hit_entries_prefix(hits, i, k - 1);
        assert(hits.take(k).drop_last() =~= hits.take(k - 1));
        let a = hit_entries(hits.take(k - 1));
        let b = hit_entries(hits.take(i));
        assert(hit_entries(hits.take(k)) == a + hit_entry(k as nat, hits[k - 1]));
        assert((a + hit_entry(k as nat, hits[k - 1])).take(b.len() as int) =~= a.take(b.len() as int));
    } else {
        assert(hit_entries(hits.take(k)).take(hit_entries(hits.take(i)).len() as int) =~= hit_entries(
            hits.take(i),
        ));
    }
}

/// The DuckDuckGo listing names every one of the first ten results (all of
/// them where there are fewer), in page order and numbered from 1: after
/// the header, result `i + 1` comes right after the entries of the results
/// before it. Where there are none, the listing says so.
pub proof fn law_duckduckgo_lists_first_ten(query: Seq<char>, hits: Seq<HitView>)
    ensures
        forall|i: int|
            0 <= i < hits.len() && i < 10 ==> starts_with(
                duckduckgo_text(query, hits),
                "Search results for \""@ + query + "\" (via DuckDuckGo):\n\n"@ + hit_entries(
                    hits.take(i),
                ) + #[trigger] hit_entry((i + 1) as nat, hits[i]),
            ),
        hits.len() == 0 ==> duckduckgo_text(query, hits) == "Search results for \""@ + query
            + "\" (via DuckDuckGo):\n\n"@ + "No results found.\n"@,
{
    let header = "Search results for \""@ + query + "\" (via DuckDuckGo):\n\n"@;
    let k: int = if hits.len() > 10 {
        10
    } else {
        hits.len() as int
    };
    assert(hits.take(k).len() == k);
    assert forall|i: int| 0 <= i < hits.len() && i < 10 implies starts_with(
        duckduckgo_text(query, hits),
        header + hit_entries(hits.take(i)) + #[trigger] hit_entry((i + 1) as nat, hits[i]),
    ) by {
        let shown = if hits.len() > 10 {
            hits.take(10)
        } else {
            hits
        };
        assert(shown =~= hits.take(k));
        lemma_hit_entries_prefix(hits, i + 1, k);
        assert(hits.take(i + 1).drop_last() =~= hits.take(i));
        let p = hit_entries(hits.take(i + 1));
        assert(p == hit_entries(hits.take(i)) + hit_entry((i + 1) as nat, hits[i]));
        let full = hit_entries(hits.take(k));
        let tail: Seq<char> = if shown.len() == 0 {
            "No results found.\n"@
        } else {
            seq![]
        };
        assert(duckduckgo_text(query, hits) == header + full + tail);
        assert((header + full + tail).take((header + p).len() as int) =~= header + full.take(
            p.len() as int,
        ));
        assert(header + hit_entries(hits.take(i)) + hit_entry((i + 1) as nat, hits[i]) =~= header
            + p);
    }
    if hits.len() == 0 {
        assert(hits.take(0) =~= hits);
    }
}

fn push_entry(m: &mut Vec<char>, n: usize, title: &Vec<char>, url: &str, snippet: &Vec<char>)
    ensures
        final(m)@ == old(m)@ + result_entry(n as nat, title@, url@, snippet@),
{
    text::append_str(m, FORMAT_GRAY);
    text::append_chars(m, &text::decimal_chars(n as u64));
    text::append_str(m, ". ");
    text::append_chars(m, title);
    text::append_str(m, FORMAT_RESET);
    text::append_str(m, "\n");
    text::append_str(m, FORMAT_GRAY);
    text::append_str(m, "   URL: ");
    text::append_str(m, url);
    text::append_str(m, FORMAT_RESET);
    text::append_str(m, "\n");
    text::append_str(m, FORMAT_GRAY);
    text::append_str(m, "   ");
    text::append_chars(m, snippet);
    text::append_str(m, FORMAT_RESET);
    text::append_str(m, "\n\n");
}

/// The listing of DuckDuckGo's results `hits` for `query`.
pub fn format_duckduckgo(query: &str, hits: &Vec<SearchHit>) -> (r: String)
    ensures
        r@ == duckduckgo_text(query@, hit_views(hits@)),
{
    let ghost hv = hit_views(hits@);
    let mut m = text::str_chars("Search results for \"");
    text::append_str(&mut m, query);
    text::append_str(&mut m, "\" (via DuckDuckGo):\n\n");
    let ghost head = m@;
    let count = if hits.len() > 10 {
        10
    } else {
        hits.len()
    };
    let mut i: usize = 0;
    while i < count
        invariant
            i <= count <= hits.len(),
            count <= 10,
            hv == hit_views(hits@),
            m@ == head + hit_entries(hv.take(i as int)),
        decreases count - i,
    {
        let h = &hits[i];
        assert(hv.take(i + 1).drop_last() =~= hv.take(i as int));
        assert(hv[i as int] == (opt_view(h.title), opt_view(h.href), opt_view(h.snippet)));
        let t = match &h.title {
            Some(t) => text::trim_chars(&text::str_chars(t.as_str())),
            None => text::str_chars("No title"),
        };
        let u = match &h.href {
            Some(u) => clean_result_url(u.as_str()),
            None => text::chars_to_string(&text::str_chars("No URL")),
        };
        let s = match &h.snippet {
            Some(s) => text::trim_chars(&text::str_chars(s.as_str())),
            None => text::str_chars("No description"),
        };
        push_entry(&mut m, i + 1, &t, u.as_str(), &s);
        i = i + 1;
    }
    let ghost shown = if hv.len() > 10 {
        hv.take(10)
    } else {
        hv
    };
    assert(hv.take(count as int) =~= shown);
    if count == 0 {
        text::append_str(&mut m, "No results found.\n");
    } else {
        assert(m@ + Seq::<char>::empty() =~= m@);
    }
    text::chars_to_string(&m)
}

/// The listing of the results on DuckDuckGo's page `html` for `query`.
pub fn duckduckgo_report(query: &str, html: &str) -> (r: String)
    ensures
        r@ == duckduckgo_text(query@, duckduckgo_page_hits(html@)),
{
    let hits = select_hits(html, ".result", ".result__title a", ".result__snippet");
    format_duckduckgo(query, &hits)
}

// ---------------------------------------------------------------------------
// Google's results
// ---------------------------------------------------------------------------

/// One result of Google's API: title, address and snippet.
pub struct GoogleItem {
    pub title: String,
    pub link: String,
    pub snippet: Option<String>,
}

/// The entry of Google result number `n`.
pub open spec fn google_entry(n: nat, it: GoogleItem) -> Seq<char> {
    FORMAT_GRAY@ + decimal(n) + ". "@ + it.title@ + FORMAT_RESET@ + "\n"@ + FORMAT_GRAY@
        + "   URL: "@ + it.link@ + FORMAT_RESET@ + "\n"@ + match it.snippet {
        Some(s) => FORMAT_GRAY@ + "   "@ + s@ + FORMAT_RESET@ + "\n"@,
        None => seq![],
    } + "\n"@
}

/// The entries of Google's results, numbered from 1.
pub open spec fn google_entries(items: Seq<GoogleItem>) -> Seq<char>
    decreases items.len(),
{
    if items.len() == 0 {
        seq![]
    } else {
        google_entries(items.drop_last()) + google_entry(items.len(), items.last())
    }
}

/// The listing of Google's results for `query`, where the response held a
/// list of them.
pub open spec fn google_text(query: Seq<char>, items: Option<Seq<GoogleItem>>) -> Seq<char> {
    "Search results for \""@ + query + "\":\n\n"@ + match items {
        Some(v) => if v.len() == 0 {
            "No results found.\n"@
        } else {
            google_entries(v)
        },
        None => "No results found.\n"@,
    }
}

fn push_google_entry(m: &mut Vec<char>, n: usize, it: &GoogleItem)
    ensures
        final(m)@ == old(m)@ + google_entry(n as nat, *it),
{
    let ghost m0 = m@;
    text::append_str(m, FORMAT_GRAY);
    text::append_chars(m, &text::decimal_chars(n as u64));
    text::append_str(m, ". ");
    text::append_str(m, it.title.as_str());
    text::append_str(m, FORMAT_RESET);
    text::append_str(m, "\n");
    text::append_str(m, FORMAT_GRAY);
    text::append_str(m, "   URL: ");
    text::append_str(m, it.link.as_str());
    text::append_str(m, FORMAT_RESET);
    text::append_str(m, "\n");
    let ghost m1 = m@;
    match &it.snippet {
        Some(s) => {
            text::append_str(m, FORMAT_GRAY);
            text::append_str(m, "   ");
            text::append_str(m, s.as_str());
            text::append_str(m, FORMAT_RESET);
            text::append_str(m, "\n");
        },
        None => {
            assert(m1 + Seq::<char>::empty() =~= m1);
        },
    }
    text::append_str(m, "\n");
}

/// The listing of Google's results `items` for `query`.
pub fn format_google(query: &str, items: &Option<Vec<GoogleItem>>) -> (r: String)
    ensures
        r@ == google_text(
            query@,
            match items {
                Some(v) => Some(v@),
                None => None,
            },
        ),
{
    let mut m = text::str_chars("Search results for \"");
    text::append_str(&mut m, query);
    text::append_str(&mut m, "\":\n\n");
    match items {
        Some(v) => {
            if v.len() == 0 {
                text::append_str(&mut m, "No results found.\n");
            } else {
                let ghost head = m@;
                let mut i: usize = 0;
                while i < v.len()
                    invariant
                        i <= v.len(),
                        m@ == head + google_entries(v@.take(i as int)),
                    decreases v.len() - i,
                {
                    assert(v@.take(i + 1).drop_last() =~= v@.take(i as int));
                    let it = &v[i];
                    let ghost m0 = m@;
                    push_google_entry(&mut m, i + 1, it);
                    assert(m@ =~= m0 + google_entry((i + 1) as nat, *it));
                    i = i + 1;
                }
                assert(v@.take(v.len() as int) =~= v@);
            }
        },
        None => {
            text::append_str(&mut m, "No results found.\n");
        },
    }
    text::chars_to_string(&m)
}

} // verus!
