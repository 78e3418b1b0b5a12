//! The fetch tool: the text of a web page, with block elements on lines of
//! their own, links kept with their targets, scripts and styles left out.
use vstd::prelude::*;
use crate::text::{self, is_ws, join, lines, lowercase, trim, words};

verus! {

/// The kind of a node of a parsed HTML document.
#[derive(Clone, Copy, PartialEq, Eq, Structural)]
pub enum NodeKind {
    Text,
    Element,
    /// A comment or any other node
    Other,
}

/// A node of a parsed HTML document, in document order: its kind, its text
/// (for a text node) or tag name (for an element), its `href` attribute,
/// and how many children it has. The children follow it, each with its own
/// descendants.
pub struct HtmlToken {
    pub kind: NodeKind,
    pub text: String,
    pub href: Option<String>,
    pub children: usize,
}

/// A node as plain values.
pub type TokenView = (NodeKind, Seq<char>, Option<Seq<char>>, usize);

impl View for HtmlToken {
    type V = TokenView;

    open spec fn view(&self) -> TokenView {
        (
            self.kind,
            self.text@,
            match self.href {
                Some(h) => Some(h@),
                None => None,
            },
            self.children,
        )
    }
}

/// The nodes of a list, as plain values.
pub open spec fn token_views(t: Seq<HtmlToken>) -> Seq<TokenView> {
    t.map_values(|x: HtmlToken| x@)
}

/// The first element of the HTML document `html` that the CSS selector
/// `root` matches (the root element where none does, or where the selector
/// does not parse), with its descendants, in document order, as html5ever
/// parses the document for `scraper`.
pub uninterp spec fn html_tokens(html: Seq<char>, root: Seq<char>) -> Seq<TokenView>;

/// The `body` element of the document `html` (else its root element) and
/// its descendants.
pub open spec fn body_tokens_of(html: Seq<char>) -> Seq<TokenView> {
    html_tokens(html, "body"@)
}

/// Parses `html` with `scraper::Html::parse_document`, picks the first
/// element that `root` selects (else the root element, also where `root`
/// does not parse), and lists it and its descendants in document order
/// (`descendants`), each with its kind, text or tag name, `href` and number
/// of children. The contract names the result.
#[verifier::external_body]
fn element_tokens(html: &str, root: &str) -> (r: Vec<HtmlToken>)
    ensures
        token_views(r@) == html_tokens(html@, root@),
{
    let doc = scraper::Html::parse_document(html);
    let sel = scraper::Selector::parse(root).ok();
    let mut out = Vec::new();
    for n in sel.and_then(|s| doc.select(&s).next()).unwrap_or(doc.root_element()).descendants() {
        let (kind, text, href) = match n.value() {
            scraper::Node::Text(t) => (NodeKind::Text, t.text.to_string(), None),
            scraper::Node::Element(e) => (NodeKind::Element, e.name().to_string(), e.attr("href").map(String::from)),
            _ => (NodeKind::Other, "".into(), None),
        };
        out.push(HtmlToken { kind, text, href, children: n.children().count() });
    }
    out
}

/// Tags that stand on lines of their own.
pub open spec fn is_block(tag: Seq<char>) -> bool {
    tag == "p"@ || tag == "div"@ || tag == "h1"@ || tag == "h2"@ || tag == "h3"@ || tag == "h4"@
        || tag == "h5"@ || tag == "h6"@ || tag == "ul"@ || tag == "ol"@ || tag == "li"@ || tag
        == "table"@ || tag == "tr"@ || tag == "td"@ || tag == "th"@ || tag == "blockquote"@ || tag
        == "pre"@ || tag == "article"@ || tag == "section"@ || tag == "header"@ || tag
        == "footer"@ || tag == "nav"@ || tag == "aside"@ || tag == "figure"@ || tag
        == "figcaption"@ || tag == "address"@
}

/// `acc` with a space added where it ends in other than white space.
pub open spec fn spaced(acc: Seq<char>) -> Seq<char> {
    if acc.len() > 0 && !is_ws(acc.last()) {
        acc.push(' ')
    } else {
        acc
    }
}

/// `acc` with a line break added where it is not empty and does not end in
/// one.
pub open spec fn broken(acc: Seq<char>) -> Seq<char> {
    if acc.len() > 0 && acc.last() != '\n' {
        acc.push('\n')
    } else {
        acc
    }
}

/// The text gathered from `n` sibling nodes starting at position `i` of
/// `toks`, appended to `acc`, and the position after them. A text node adds
/// its trimmed text, spaced from what came before; script and style
/// elements add nothing; a link adds its text and, where it has one, its
/// target in brackets; a block element stands on its own lines; `br` breaks
/// the line.
pub open spec fn walk(toks: Seq<TokenView>, i: int, n: nat, acc: Seq<char>) -> (Seq<char>, int)
    decreases toks.len() - i, n,
{
    if n == 0 || i < 0 || i >= toks.len() {
        (acc, i)
    } else {
        let t = toks[i];
        let (kind, txt, href, c) = t;
        let (acc1, j) = if kind == NodeKind::Text {
            let tr = trim(txt);
            (
                if tr.len() > 0 {
                    spaced(acc) + tr
                } else {
                    acc
                },
                walk(toks, i + 1, c as nat, seq![]).1,
            )
        } else if kind == NodeKind::Element {
            let tag = lowercase(txt);
            if tag == "script"@ || tag == "style"@ {
                (acc, walk(toks, i + 1, c as nat, seq![]).1)
            } else if tag == "a"@ {
                let (raw, j) = walk(toks, i + 1, c as nat, seq![]);
                let link = trim(raw);
                let h = trim(
                    match href {
                        Some(h) => h,
                        None => seq![],
                    },
                );
                (
                    if link.len() > 0 && h.len() > 0 {
                        spaced(acc) + link + " ["@ + h + "]"@
                    } else if link.len() > 0 {
                        (spaced(acc) + link).push(' ')
                    } else {
                        acc
                    },
                    j,
                )
            } else {
                let acc0 = if is_block(tag) {
                    broken(acc)
                } else {
                    acc
                };
                let (acc2, j) = walk(toks, i + 1, c as nat, acc0);
                (
                    if is_block(tag) && acc2.len() > 0 && acc2.last() != '\n' {
                        acc2.push('\n')
                    } else if tag == "br"@ {
                        acc2.push('\n')
                    } else {
                        acc2
                    },
                    j,
                )
            }
        } else {
            (acc, walk(toks, i + 1, c as nat, seq![]).1)
        };
        if j <= i || j > toks.len() {
            (acc1, j)
        } else {
            walk(toks, j, (n - 1) as nat, acc1)
        }
    }
}

/// `p` is a prefix of `s`.
pub open spec fn extends(s: Seq<char>, p: Seq<char>) -> bool {
    p.len() <= s.len() && s.take(p.len() as int) == p
}

proof fn lemma_extends_trans(a: Seq<char>, b: Seq<char>, c: Seq<char>)
    requires
        extends(a, b),
        extends(b, c),
    ensures
        extends(a, c),
{
    assert(a.take(c.len() as int) =~= b.take(c.len() as int));
}

proof fn lemma_extends_append(a: Seq<char>, b: Seq<char>)
    ensures
        extends(a + b, a),
        extends(a.push(' '), a),
{
    assert((a + b).take(a.len() as int) =~= a);
    assert(a.push(' ').take(a.len() as int) =~= a);
}

/// Gathering text only ever appends to what was gathered before.
pub proof fn lemma_walk_extends(toks: Seq<TokenView>, i: int, n: nat, acc: Seq<char>)
    ensures
        extends(walk(toks, i, n, acc).0, acc),
    decreases toks.len() - i, n,
{
    assert(acc.take(acc.len() as int) =~= acc);
    if n == 0 || i < 0 || i >= toks.len() {
    } else {
        let t = toks[i];
        let (kind, txt, href, c) = t;
        let sp = spaced(acc);
        assert(extends(sp, acc)) by {
            lemma_extends_append(acc, seq![]);
            assert(acc + seq![] =~= acc);
        }
        let br = broken(acc);
        assert(extends(br, acc)) by {
            assert(acc.push('\n').take(acc.len() as int) =~= acc);
        }
        let (acc1, j) = if kind == NodeKind::Text {
            let tr = trim(txt);
            (
                if tr.len() > 0 {
                    spaced(acc) + tr
                } else {
                    acc
                },
                walk(toks, i + 1, c as nat, seq![]).1,
            )
        } else if kind == NodeKind::Element {
            let tag = lowercase(txt);
            if tag == "script"@ || tag == "style"@ {
                (acc, walk(toks, i + 1, c as nat, seq![]).1)
            } else if tag == "a"@ {
                let (raw, j) = walk(toks, i + 1, c as nat, seq![]);
                let link = trim(raw);
                let h = trim(
                    match href {
                        Some(h) => h,
                        None => seq![],
                    },
                );
                (
                    if link.len() > 0 && h.len() > 0 {
                        spaced(acc) + link + " ["@ + h + "]"@
                    } else if link.len() > 0 {
                        (spaced(acc) + link).push(' ')
                    } else {
                        acc
                    },
                    j,
                )
            } else {
                let acc0 = if is_block(tag) {
                    broken(acc)
                } else {
                    acc
                };
                let (acc2, j) = walk(toks, i + 1, c as nat, acc0);
                (
                    if is_block(tag) && acc2.len() > 0 && acc2.last() != '\n' {
                        acc2.push('\n')
                    } else if tag == "br"@ {
                        acc2.push('\n')
                    } else {
                        acc2
                    },
                    j,
                )
            }
        } else {
            (acc, walk(toks, i + 1, c as nat, seq![]).1)
        };
        assert(extends(acc1, acc)) by {
            if kind == NodeKind::Text {
                let tr = trim(txt);
                if tr.len() > 0 {
                    lemma_extends_append(sp, tr);
                    lemma_extends_trans(sp + tr, sp, acc);
                }
            } else if kind == NodeKind::Element {
                let tag = lowercase(txt);
                if tag == "script"@ || tag == "style"@ {
                } else if tag == "a"@ {
                    let (raw, _j) = walk(toks, i + 1, c as nat, seq![]);
                    let link = trim(raw);
                    let h = trim(
                        match href {
                            Some(h) => h,
                            None => seq![],
                        },
                    );
                    if link.len() > 0 && h.len() > 0 {
                        lemma_extends_append(sp, link);
                        lemma_extends_append(sp + link, " ["@ + h + "]"@);
                        assert(sp + link + " ["@ + h + "]"@ =~= (sp + link) + (" ["@ + h + "]"@));
                        lemma_extends_trans(sp + link + " ["@ + h + "]"@, sp + link, sp);
                        lemma_extends_trans(sp + link + " ["@ + h + "]"@, sp, acc);
                    } else if link.len() > 0 {
                        lemma_extends_append(sp, link);
                        lemma_extends_append(sp + link, seq![]);
                        lemma_extends_trans((sp + link).push(' '), sp + link, sp);
                        lemma_extends_trans((sp + link).push(' '), sp, acc);
                    }
                } else {
                    let acc0 = if is_block(tag) {
                        broken(acc)
                    } else {
                        acc
                    };
                    let (acc2, _j) = walk(toks, i + 1, c as nat, acc0);
                    lemma_walk_extends(toks, i + 1, c as nat, acc0);
                    lemma_extends_trans(acc2, acc0, acc);
                    assert(acc2.push('\n').take(acc2.len() as int) =~= acc2);
                    if is_block(tag) && acc2.len() > 0 && acc2.last() != '\n' {
                        lemma_extends_trans(acc2.push('\n'), acc2, acc);
                    } else if tag == "br"@ {
                        lemma_extends_trans(acc2.push('\n'), acc2, acc);
                    }
                }
            }
        }
        if j <= i || j > toks.len() {
        } else {
            lemma_walk_extends(toks, j, (n - 1) as nat, acc1);
            lemma_extends_trans(walk(toks, j, (n - 1) as nat, acc1).0, acc1, acc);
        }
    }
}

/// The names of the block elements are none of the names treated apart.
proof fn lemma_block_names(tag: Seq<char>)
    requires
        block_name(tag),
    ensures
        is_block(tag),
        tag != "a"@,
        tag != "script"@,
        tag != "style"@,
        tag != "br"@,
{
    reveal_strlit("br");
    reveal_strlit("a");
    reveal_strlit("script");
    reveal_strlit("style");
    reveal_strlit("tr");
    reveal_strlit("td");
    reveal_strlit("th");
    reveal_strlit("table");
    reveal_strlit("p");
    reveal_strlit("div");
    reveal_strlit("li");
    reveal_strlit("ul");
    reveal_strlit("ol");
    reveal_strlit("h1");
    reveal_strlit("h2");
    reveal_strlit("h3");
    reveal_strlit("h4");
    reveal_strlit("h5");
    reveal_strlit("h6");
    reveal_strlit("blockquote");
    reveal_strlit("pre");
    reveal_strlit("article");
    reveal_strlit("section");
    reveal_strlit("header");
    reveal_strlit("footer");
    reveal_strlit("nav");
    reveal_strlit("aside");
    reveal_strlit("figure");
    reveal_strlit("figcaption");
    reveal_strlit("address");
    if tag == "tr"@ {
        assert(tag.len() == 2 && tag[0] == 't' && tag[1] == 'r');
    }
    if tag == "td"@ {
        assert(tag.len() == 2 && tag[0] == 't' && tag[1] == 'd');
    }
    if tag == "th"@ {
        assert(tag.len() == 2 && tag[0] == 't' && tag[1] == 'h');
    }
    if tag == "table"@ {
        assert(tag.len() == 5 && tag[0] == 't' && tag[4] == 'e');
    }
    if tag == "p"@ {
        assert(tag.len() == 1 && tag[0] == 'p' && tag[0] == 'p');
    }
    if tag == "div"@ {
        assert(tag.len() == 3 && tag[0] == 'd' && tag[2] == 'v');
    }
    if tag == "li"@ {
        assert(tag.len() == 2 && tag[0] == 'l' && tag[1] == 'i');
    }
    if tag == "ul"@ {
        assert(tag.len() == 2 && tag[0] == 'u' && tag[1] == 'l');
    }
    if tag == "ol"@ {
        assert(tag.len() == 2 && tag[0] == 'o' && tag[1] == 'l');
    }
    if tag == "h1"@ {
        assert(tag.len() == 2 && tag[0] == 'h' && tag[1] == '1');
    }
    if tag == "h2"@ {
        assert(tag.len() == 2 && tag[0] == 'h' && tag[1] == '2');
    }
    if tag == "h3"@ {
        assert(tag.len() == 2 && tag[0] == 'h' && tag[1] == '3');
    }
    if tag == "h4"@ {
        assert(tag.len() == 2 && tag[0] == 'h' && tag[1] == '4');
    }
    if tag == "h5"@ {
        assert(tag.len() == 2 && tag[0] == 'h' && tag[1] == '5');
    }
    if tag == "h6"@ {
        assert(tag.len() == 2 && tag[0] == 'h' && tag[1] == '6');
    }
    if tag == "blockquote"@ {
        assert(tag.len() == 10 && tag[0] == 'b' && tag[9] == 'e');
    }
    if tag == "pre"@ {
        assert(tag.len() == 3 && tag[0] == 'p' && tag[2] == 'e');
    }
    if tag == "article"@ {
        assert(tag.len() == 7 && tag[0] == 'a' && tag[6] == 'e');
    }
    if tag == "section"@ {
        assert(tag.len() == 7 && tag[0] == 's' && tag[6] == 'n');
    }
    if tag == "header"@ {
        assert(tag.len() == 6 && tag[0] == 'h' && tag[5] == 'r');
    }
    if tag == "footer"@ {
        assert(tag.len() == 6 && tag[0] == 'f' && tag[5] == 'r');
    }
    if tag == "nav"@ {
        assert(tag.len() == 3 && tag[0] == 'n' && tag[2] == 'v');
    }
    if tag == "aside"@ {
        assert(tag.len() == 5 && tag[0] == 'a' && tag[4] == 'e');
    }
    if tag == "figure"@ {
        assert(tag.len() == 6 && tag[0] == 'f' && tag[5] == 'e');
    }
    if tag == "figcaption"@ {
        assert(tag.len() == 10 && tag[0] == 'f' && tag[9] == 'n');
    }
    if tag == "address"@ {
        assert(tag.len() == 7 && tag[0] == 'a' && tag[6] == 's');
    }
}

/// The names of the elements that HTML renders as blocks: table rows and
/// cells (`tr`, `td`, `th`) and tables, paragraphs, divisions, lists and
/// their items, headings, quotations, preformatted text and the sectioning
/// elements.
pub open spec fn block_name(tag: Seq<char>) -> bool {
    tag == "tr"@
        || tag == "td"@
        || tag == "th"@
        || tag == "table"@
        || tag == "p"@
        || tag == "div"@
        || tag == "li"@
        || tag == "ul"@
        || tag == "ol"@
        || tag == "h1"@
        || tag == "h2"@
        || tag == "h3"@
        || tag == "h4"@
        || tag == "h5"@
        || tag == "h6"@
        || tag == "blockquote"@
        || tag == "pre"@
        || tag == "article"@
        || tag == "section"@
        || tag == "header"@
        || tag == "footer"@
        || tag == "nav"@
        || tag == "aside"@
        || tag == "figure"@
        || tag == "figcaption"@
        || tag == "address"@
}

/// A block element stands on lines of its own; in particular table rows
/// and cells (`tr`, `td`, `th`) do. What came before is ended by a line
/// break before the element's text begins, and the text gathered with the
/// element ends with a line break (or is empty), so that the next text
/// starts a new line.
pub proof fn law_block_elements_stand_alone(toks: Seq<TokenView>, i: int, acc: Seq<char>)
    requires
        0 <= i < toks.len(),
        toks[i].0 == NodeKind::Element,
        block_name(lowercase(toks[i].1)),
    ensures
        ({
            let out = walk(toks, i, 1, acc).0;
            &&& extends(out, acc)
            &&& acc.len() > 0 && acc.last() != '\n' ==> out.len() > acc.len() && out[acc.len() as int]
                == '\n'
            &&& out.len() == 0 || out.last() == '\n'
        }),
{
    let (kind, txt, href, c) = toks[i];
    let tag = lowercase(txt);
    lemma_block_names(tag);
    let acc0 = broken(acc);
    assert(extends(acc0, acc)) by {
        assert(acc.push('\n').take(acc.len() as int) =~= acc);
        assert(acc.take(acc.len() as int) =~= acc);
    }
    let (acc2, j) = walk(toks, i + 1, c as nat, acc0);
    lemma_walk_extends(toks, i + 1, c as nat, acc0);
    lemma_extends_trans(acc2, acc0, acc);
    let acc1 = if acc2.len() > 0 && acc2.last() != '\n' {
        acc2.push('\n')
    } else {
        acc2
    };
    assert(acc2.push('\n').take(acc2.len() as int) =~= acc2);
    assert(acc2.take(acc2.len() as int) =~= acc2);
    lemma_extends_trans(acc1, acc2, acc);
    lemma_extends_trans(acc1, acc2, acc0);
    if acc.len() > 0 && acc.last() != '\n' {
        assert(acc0 == acc.push('\n'));
        assert(acc1.take(acc0.len() as int)[acc.len() as int] == acc0[acc.len() as int]);
    }
    assert(walk(toks, j, 0, acc1).0 == acc1);
    assert(walk(toks, i, 1, acc) == (if j <= i || j > toks.len() {
        (acc1, j)
    } else {
        walk(toks, j, 0, acc1)
    }));
    assert(walk(toks, i, 1, acc).0 == acc1);
}

/// The lines with their white space runs made single spaces, empty ones
/// left out.
pub open spec fn clean_lines(ls: Seq<Seq<char>>) -> Seq<Seq<char>>
    decreases ls.len(),
{
    if ls.len() == 0 {
        seq![]
    } else {
        let rest = clean_lines(ls.drop_last());
        let c = join(words(ls.last()), " "@);
        if c.len() > 0 {
            rest.push(c)
        } else {
            rest
        }
    }
}

/// The text of a document given by its nodes: what the root's children
/// give, with white space runs made single spaces and empty lines left out.
pub open spec fn page_text(toks: Seq<TokenView>) -> Seq<char> {
    if toks.len() == 0 {
        seq![]
    } else {
        join(clean_lines(lines(walk(toks, 1, toks[0].3 as nat, seq![]).0)), "\n"@)
    }
}

fn block_tag(tag: &Vec<char>) -> (r: bool)
    ensures
        r == is_block(tag@),
{
    text::chars_eq_str(tag, "p") || text::chars_eq_str(tag, "div") || text::chars_eq_str(tag, "h1")
        || text::chars_eq_str(tag, "h2") || text::chars_eq_str(tag, "h3") || text::chars_eq_str(
        tag,
        "h4",
    ) || text::chars_eq_str(tag, "h5") || text::chars_eq_str(tag, "h6") || text::chars_eq_str(
        tag,
        "ul",
    ) || text::chars_eq_str(tag, "ol") || text::chars_eq_str(tag, "li") || text::chars_eq_str(
        tag,
        "table",
    ) || text::chars_eq_str(tag, "tr") || text::chars_eq_str(tag, "td") || text::chars_eq_str(
        tag,
        "th",
    ) || text::chars_eq_str(tag, "blockquote") || text::chars_eq_str(tag, "pre")
        || text::chars_eq_str(tag, "article") || text::chars_eq_str(tag, "section")
        || text::chars_eq_str(tag, "header") || text::chars_eq_str(tag, "footer")
        || text::chars_eq_str(tag, "nav") || text::chars_eq_str(tag, "aside") || text::chars_eq_str(
        tag,
        "figure",
    ) || text::chars_eq_str(tag, "figcaption") || text::chars_eq_str(tag, "address")
}

fn add_space(acc: &mut Vec<char>)
    ensures
        final(acc)@ == spaced(old(acc)@),
{
    if acc.len() > 0 && !text::is_whitespace(acc[acc.len() - 1]) {
        acc.push(' ');
    }
}

/// The text of `n` sibling nodes from position `i` on, appended to `acc`,
/// and the position after them.
fn walk_nodes(toks: &Vec<HtmlToken>, i: usize, n: usize, acc0: Vec<char>) -> (r: (Vec<char>, usize))
    ensures
        (r.0@, r.1 as int) == walk(token_views(toks@), i as int, n as nat, acc0@),
    decreases toks@.len() - i, n,
{
    let ghost tv = token_views(toks@);
    let ghost start_acc = acc0@;
    let mut acc = acc0;
    let mut pos = i;
    let mut k: usize = 0;
    while k < n && pos < toks.len()
        invariant
            i <= pos,
            k <= n,
            tv == token_views(toks@),
            start_acc == acc0@,
            walk(tv, i as int, n as nat, start_acc) == walk(tv, pos as int, (n - k) as nat, acc@),
        decreases n - k,
    {
        let t = &toks[pos];
        let c = t.children;
        assert(tv[pos as int] == t@);
        let ghost a_before = acc@;
        let j: usize;
        match t.kind {
            NodeKind::Text => {
                let tr = text::trim_chars(&text::str_chars(t.text.as_str()));
                if tr.len() > 0 {
                    add_space(&mut acc);
                    text::append_chars(&mut acc, &tr);
                }
                let (_, jj) = walk_nodes(toks, pos + 1, c, Vec::new());
                j = jj;
            },
            NodeKind::Element => {
                let tag = text::to_lowercase(&text::str_chars(t.text.as_str()));
                if text::chars_eq_str(&tag, "script") || text::chars_eq_str(&tag, "style") {
                    let (_, jj) = walk_nodes(toks, pos + 1, c, Vec::new());
                    j = jj;
                } else if text::chars_eq_str(&tag, "a") {
                    let (raw, jj) = walk_nodes(toks, pos + 1, c, Vec::new());
                    let link = text::trim_chars(&raw);
                    let h = match &t.href {
                        Some(h) => text::trim_chars(&text::str_chars(h.as_str())),
                        None => text::trim_chars(&Vec::new()),
                    };
                    if link.len() > 0 && h.len() > 0 {
                        add_space(&mut acc);
                        text::append_chars(&mut acc, &link);
                        text::append_str(&mut acc, " [");
                        text::append_chars(&mut acc, &h);
                        text::append_str(&mut acc, "]");
                    } else if link.len() > 0 {
                        add_space(&mut acc);
                        text::append_chars(&mut acc, &link);
                        acc.push(' ');
                    }
                    j = jj;
                } else {
                    let block = block_tag(&tag);
                    if block && acc.len() > 0 && acc[acc.len() - 1] != '\n' {
                        acc.push('\n');
                    }
                    let (a2, jj) = walk_nodes(toks, pos + 1, c, acc);
                    acc = a2;
                    if block && acc.len() > 0 && acc[acc.len() - 1] != '\n' {
                        acc.push('\n');
                    } else if text::chars_eq_str(&tag, "br") {
                        acc.push('\n');
                    }
                    j = jj;
                }
            },
            NodeKind::Other => {
                let (_, jj) = walk_nodes(toks, pos + 1, c, Vec::new());
                j = jj;
            },
        }
        assert(walk(tv, pos as int, (n - k) as nat, a_before) == if j <= pos || j > toks.len() {
            (acc@, j as int)
        } else {
            walk(tv, j as int, (n - k - 1) as nat, acc@)
        });
        if j <= pos || j > toks.len() {
            return (acc, j);
        }
        pos = j;
        k = k + 1;
    }
    (acc, pos)
}

/// The lines of `s` with white space runs made single spaces, empty ones
/// left out, joined by line breaks.
fn clean_text(s: &Vec<char>) -> (r: Vec<char>)
    ensures
        r@ == join(clean_lines(lines(s@)), "\n"@),
{
    let ls = text::split_lines(s);
    let ghost lv = text::views(ls@);
    let mut kept: Vec<Vec<char>> = Vec::new();
    let mut k: usize = 0;
    while k < ls.len()
        invariant
            k <= ls.len(),
            lv == text::views(ls@),
            text::views(kept@) == clean_lines(lv.take(k as int)),
        decreases ls.len() - k,
    {
        assert(lv.take(k + 1).drop_last() =~= lv.take(k as int));
        let ws = text::split_whitespace(&ls[k]);
        let c = text::join_all(&ws, " ");
        if c.len() > 0 {
            let ghost k0 = text::views(kept@);
            kept.push(c);
            assert(text::views(kept@) =~= k0.push(kept@[kept@.len() - 1]@));
        }
        k = k + 1;
    }
    assert(lv.take(ls.len() as int) =~= lv);
    text::join_all(&kept, "\n")
}

/// The text of a document given by its nodes (the root first, then its
/// descendants in document order).
pub fn page_text_of(toks: &Vec<HtmlToken>) -> (r: String)
    ensures
        r@ == page_text(token_views(toks@)),
{
    if toks.len() == 0 {
        return text::chars_to_string(&Vec::new());
    }
    assert(token_views(toks@)[0] == toks@[0]@);
    let (raw, _) = walk_nodes(toks, 1, toks[0].children, Vec::new());
    text::chars_to_string(&clean_text(&raw))
}

/// Extracts text content from HTML using the scraper library, keeping some
/// structure by putting block elements on lines of their own.
pub fn extract_text_with_scraper(html: &str) -> (r: String)
    ensures
        r@ == page_text(body_tokens_of(html@)),
{
    let toks = element_tokens(html, "body");
    page_text_of(&toks)
}

/// What the fetch tool's arguments ask for: the page, whether to summarize
/// it, and the summary length given.
pub struct FetchOptions {
    /// The address of the page; empty where none is given
    pub url: String,
    /// Whether `--summarize` (or `-s`) was given
    pub summarize: bool,
    /// The word after `--length` (or `-l`), where one was given
    pub length: Option<String>,
}

/// The options read from the first `n` words of the arguments, and whether
/// the next word is the value of `--length`: the first word that is neither
/// an option nor an option's value is the address; the first length given
/// counts.
pub open spec fn fetch_scan(ws: Seq<Seq<char>>, n: int) -> (Option<Seq<char>>, bool, Option<Seq<char>>, bool)
    decreases n,
{
    if n <= 0 {
        (None, false, None, false)
    } else {
        let (url, summ, len, expect) = fetch_scan(ws, n - 1);
        let w = ws[n - 1];
        if expect {
            (url, summ, if len is None {
                Some(w)
            } else {
                len
            }, false)
        } else if w == "--summarize"@ || w == "-s"@ {
            (url, true, len, false)
        } else if w == "--length"@ || w == "-l"@ {
            (url, summ, len, true)
        } else {
            (if url is None {
                Some(w)
            } else {
                url
            }, summ, len, false)
        }
    }
}

/// The options that the fetch tool's arguments give:
/// `[--summarize] [--length short|medium|long|<word_count>] URL`.
pub fn parse_fetch_options(args: &str) -> (r: FetchOptions)
    ensures
        ({
            let (url, summ, len, _) = fetch_scan(words(args@), words(args@).len() as int);
            &&& r.url@ == match url {
                Some(u) => u,
                None => Seq::<char>::empty(),
            }
            &&& r.summarize == summ
            &&& match len {
                Some(l) => r.length matches Some(x) && x@ == l,
                None => r.length is None,
            }
        }),
{
    let ws = text::split_whitespace(&text::str_chars(args));
    let ghost wv = text::views(ws@);
    let mut url: Option<usize> = None;
    let mut summarize = false;
    let mut length: Option<usize> = None;
    let mut expect = false;
    let mut i: usize = 0;
    while i < ws.len()
        invariant
            i <= ws.len(),
            wv == text::views(ws@),
            ({
                let (u, s, l, e) = fetch_scan(wv, i as int);
                &&& u == match url {
                    Some(k) => Some(wv[k as int]),
                    None => None::<Seq<char>>,
                }
                &&& s == summarize
                &&& l == match length {
                    Some(k) => Some(wv[k as int]),
                    None => None::<Seq<char>>,
                }
                &&& e == expect
            }),
            url matches Some(k) ==> k < i,
            length matches Some(k) ==> k < i,
        decreases ws.len() - i,
    {
        assert(wv[i as int] == ws@[i as int]@);
        if expect {
            if length.is_none() {
                length = Some(i);
            }
            expect = false;
        } else if text::chars_eq_str(&ws[i], "--summarize") || text::chars_eq_str(&ws[i], "-s") {
            summarize = true;
        } else if text::chars_eq_str(&ws[i], "--length") || text::chars_eq_str(&ws[i], "-l") {
            expect = true;
        } else if url.is_none() {
            url = Some(i);
        }
        i = i + 1;
    }
    let u = match url {
        Some(k) => text::chars_to_string(&ws[k]),
        None => text::chars_to_string(&Vec::new()),
    };
    let l = match length {
        Some(k) => Some(text::chars_to_string(&ws[k])),
        None => None,
    };
    FetchOptions { url: u, summarize, length: l }
}

/// The address that the fetch tool's arguments give, options left aside.
pub fn parse_fetch_args(args: &str) -> (r: String)
    ensures
        r@ == match fetch_scan(words(args@), words(args@).len() as int).0 {
            Some(u) => u,
            None => Seq::<char>::empty(),
        },
{
    parse_fetch_options(args).url
}

/// The number of words a summary aims at: `short`, `medium` and `long` are
/// 150, 400 and 800, a number is itself, and no length is `medium`; other
/// lengths give none.
pub open spec fn summary_words_of(length: Option<Seq<char>>) -> Option<nat> {
    match length {
        None => Some(400),
        Some(l) => if l == "short"@ {
            Some(150)
        } else if l == "medium"@ {
            Some(400)
        } else if l == "long"@ {
            Some(800)
        } else {
            text::parse_bounded(l, usize::MAX as int)
        },
    }
}

/// The number of words a summary aims at, for the length given.
pub fn summary_words(length: &Option<String>) -> (r: Option<usize>)
    ensures
        r matches Some(n) ==> summary_words_of(match length {
            Some(l) => Some(l@),
            None => None,
        }) == Some(n as nat),
        r is None ==> summary_words_of(match length {
            Some(l) => Some(l@),
            None => None,
        }) is None,
{
    match length {
        None => Some(400),
        Some(l) => {
            let v = text::str_chars(l.as_str());
            if text::chars_eq_str(&v, "short") {
                Some(150)
            } else if text::chars_eq_str(&v, "medium") {
                Some(400)
            } else if text::chars_eq_str(&v, "long") {
                Some(800)
            } else {
                text::parse_usize(&v)
            }
        },
    }
}

/// A content type is read as HTML when it mentions `html`.
pub open spec fn is_html_type(content_type: Seq<char>) -> bool {
    text::contains(content_type, "text/html"@) || text::contains(content_type, "html"@)
}

/// What the fetch tool reports for the page at `url` with content type
/// `content_type` and body `body`: the page's text where it is HTML, else
/// the body as it is.
pub fn fetch_report(url: &str, content_type: &str, body: &str) -> (r: String)
    ensures
        r@ == "Fetched from "@ + url@ + ":\n\n"@ + if is_html_type(content_type@) {
            page_text(body_tokens_of(body@))
        } else {
            body@
        },
{
    let ct = text::str_chars(content_type);
    let html = text::contains_chars(&ct, &text::str_chars("text/html")) || text::contains_chars(
        &ct,
        &text::str_chars("html"),
    );
    let mut m = text::str_chars("Fetched from ");
    text::append_str(&mut m, url);
    text::append_str(&mut m, ":\n\n");
    if html {
        let t = extract_text_with_scraper(body);
        text::append_str(&mut m, t.as_str());
    } else {
        text::append_str(&mut m, body);
    }
    text::chars_to_string(&m)
}

} // verus!
