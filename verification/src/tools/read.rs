//! The read tool: which paths to read and which lines of a file, and the
//! reports it gives on files, directories and images.
use vstd::prelude::*;
use crate::llm::Content;
use crate::text::{self, decimal, lines, parse_bounded, starts_with, words};
use crate::tools::{AgentStateChange, ToolResult};

verus! {

/// Maximum number of lines the read tool reads at once. Longer selections
/// are cut there, with a notice on how to read on.
pub const MAX_READABLE_LINES: usize = 1000;

/// The read tool's arguments.
pub struct ReadArgs {
    /// Lines to skip, counted from 0
    pub offset: Option<usize>,
    /// Lines to read
    pub limit: Option<usize>,
    /// Whether `lines=START-END` set the two
    pub lines_specified: bool,
    /// The paths to read
    pub paths: Vec<String>,
}

/// The arguments while they are read: offset, limit, whether `lines=` set
/// them, and the paths so far.
pub type ArgsModel = (Option<nat>, Option<nat>, bool, Seq<Seq<char>>);

/// The range that `lines=START-END` gives, where START is at least 1 and
/// END at least START: the text up to the first `-` and after it, each a
/// `usize`.
pub open spec fn line_range(r: Seq<char>) -> Option<(nat, nat)> {
    if exists|d: int| 0 <= d < r.len() && r[d] == '-' {
        let d = choose|d: int|
            0 <= d < r.len() && r[d] == '-' && forall|k: int| 0 <= k < d ==> r[k] != '-';
        match (parse_bounded(r.take(d), usize::MAX as int), parse_bounded(r.skip(d + 1), usize::MAX as int)) {
            (Some(s), Some(e)) => if s >= 1 && e >= s {
                Some((s, e))
            } else {
                None
            },
            _ => None,
        }
    } else {
        None
    }
}

/// The arguments after one more word: `lines=` sets offset and limit when
/// its range is good; `offset=` and `limit=` set theirs unless `lines=`
/// did, when their number is good; any other word is a path.
pub open spec fn args_step(st: ArgsModel, w: Seq<char>) -> ArgsModel {
    let (off, lim, ls, paths) = st;
    if starts_with(w, "lines="@) {
        match line_range(w.skip(6)) {
            Some((s, e)) => (Some((s - 1) as nat), Some((e - s + 1) as nat), true, paths),
            None => st,
        }
    } else if starts_with(w, "offset="@) {
        if ls {
            st
        } else {
            match parse_bounded(w.skip(7), usize::MAX as int) {
                Some(v) => (Some(v), lim, ls, paths),
                None => st,
            }
        }
    } else if starts_with(w, "limit="@) {
        if ls {
            st
        } else {
            match parse_bounded(w.skip(6), usize::MAX as int) {
                Some(v) => (off, Some(v), ls, paths),
                None => st,
            }
        }
    } else {
        (off, lim, ls, paths.push(w))
    }
}

/// The arguments that the words `ws` give, read in order.
pub open spec fn args_of(ws: Seq<Seq<char>>) -> ArgsModel
    decreases ws.len(),
{
    if ws.len() == 0 {
        (None, None, false, seq![])
    } else {
        args_step(args_of(ws.drop_last()), ws.last())
    }
}

/// The model of parsed arguments.
pub open spec fn args_model(a: ReadArgs) -> ArgsModel {
    (
        match a.offset {
            Some(v) => Some(v as nat),
            None => None,
        },
        match a.limit {
            Some(v) => Some(v as nat),
            None => None,
        },
        a.lines_specified,
        text::string_views(a.paths@),
    )
}

/// The range of a `lines=` value.
fn parse_line_range(r: &Vec<char>) -> (out: Option<(usize, usize)>)
    ensures
        match line_range(r@) {
            Some((s, e)) => out matches Some((x, y)) && x == s && y == e,
            None => out is None,
        },
{
    match text::find_char(r, '-') {
        Some(d) => {
            let ghost dd = choose|k: int|
                0 <= k < r@.len() && r@[k] == '-' && forall|j: int| 0 <= j < k ==> r@[j] != '-';
            assert(dd == d) by {
                if dd < d {
                } else if dd > d {
                }
            }
            let head = text::copy_range(r, 0, d);
            let tail = text::copy_range(r, d + 1, r.len());
            assert(head@ =~= r@.take(d as int));
            assert(tail@ =~= r@.skip(d + 1));
            match (text::parse_usize(&head), text::parse_usize(&tail)) {
                (Some(s), Some(e)) => {
                    if s >= 1 && e >= s {
                        Some((s, e))
                    } else {
                        None
                    }
                },
                _ => None,
            }
        },
        None => None,
    }
}

/// The words of `w` after its first `n` characters.
fn rest_of(w: &Vec<char>, n: usize) -> (r: Vec<char>)
    requires
        n <= w.len(),
    ensures
        r@ == w@.skip(n as int),
{
    let r = text::copy_range(w, n, w.len());
    assert(r@ =~= w@.skip(n as int));
    r
}

/// Parse the command arguments into a structured format, handling
/// parameters anywhere among the paths.
pub fn parse_arguments(args: &str) -> (r: ReadArgs)
    ensures
        args_model(r) == args_of(words(args@)),
{
    proof {
        reveal_strlit("lines=");
        reveal_strlit("offset=");
        reveal_strlit("limit=");
    }
    let ws = text::split_whitespace(&text::str_chars(args));
    let ghost wv = text::views(ws@);
    let mut offset: Option<usize> = None;
    let mut limit: Option<usize> = None;
    let mut lines_specified = false;
    let mut paths: Vec<String> = Vec::new();
    let mut i: usize = 0;
    assert(text::string_views(paths@) =~= Seq::<Seq<char>>::empty());
    while i < ws.len()
        invariant
            i <= ws.len(),
            wv == text::views(ws@),
            wv == words(args@),
            "lines="@.len() == 6,
            "offset="@.len() == 7,
            "limit="@.len() == 6,
            args_model(ReadArgs { offset, limit, lines_specified, paths }) == args_of(
                wv.take(i as int),
            ),
        decreases ws.len() - i,
    {
        let w = &ws[i];
        assert(wv.take(i + 1).drop_last() =~= wv.take(i as int));
        assert(wv.take(i + 1).last() == w@);
        if text::has_prefix_str(w, "lines=") {
            match parse_line_range(&rest_of(w, 6)) {
                Some((s, e)) => {
                    offset = Some(s - 1);
                    limit = Some(e - s + 1);
                    lines_specified = true;
                },
                None => {},
            }
        } else if text::has_prefix_str(w, "offset=") {
            if !lines_specified {
                match text::parse_usize(&rest_of(w, 7)) {
                    Some(v) => {
                        offset = Some(v);
                    },
                    None => {},
                }
            }
        } else if text::has_prefix_str(w, "limit=") {
            if !lines_specified {
                match text::parse_usize(&rest_of(w, 6)) {
                    Some(v) => {
                        limit = Some(v);
                    },
                    None => {},
                }
            }
        } else {
            let ghost pv = text::string_views(paths@);
            paths.push(text::chars_to_string(w));
            assert(text::string_views(paths@) =~= pv.push(w@));
        }
        i = i + 1;
    }
    assert(wv.take(ws.len() as int) =~= wv);
    ReadArgs { offset, limit, lines_specified, paths }
}

// ---------------------------------------------------------------------------
// What to read
// ---------------------------------------------------------------------------

/// What a read asks for.
pub enum ReadPlan {
    /// One file or directory, with the lines to read of a file
    Single { path: String, offset: Option<usize>, limit: Option<usize> },
    /// Several paths, each read whole
    Multiple(Vec<String>),
}

/// What the arguments ask for, or why they are refused: at least one path,
/// and only one where offset, limit or lines are given.
pub open spec fn plan_of(args: Seq<char>) -> Result<(Seq<Seq<char>>, Option<nat>, Option<nat>), Seq<char>> {
    let (off, lim, ls, paths) = args_of(words(args));
    if paths.len() == 0 {
        Err("No files specified for reading"@)
    } else if (off is Some || lim is Some || ls) && paths.len() > 1 {
        Err("Offset, limit, and lines parameters can only be used with a single file"@)
    } else {
        Ok((paths, off, lim))
    }
}

/// Decides what the read tool reads for `args`: an error message, one path
/// (with its line selection) or several.
pub fn read_plan(args: &str) -> (r: Result<ReadPlan, String>)
    ensures
        match plan_of(args@) {
            Err(m) => r matches Err(x) && x@ == m,
            Ok((paths, off, lim)) => r matches Ok(p) && match p {
                ReadPlan::Single { path, offset, limit } => paths.len() == 1 && path@ == paths[0]
                    && offset == (match off {
                    Some(v) => Some(v as usize),
                    None => None,
                }) && limit == (match lim {
                    Some(v) => Some(v as usize),
                    None => None,
                }),
                ReadPlan::Multiple(ps) => paths.len() > 1 && text::string_views(ps@) == paths,
            },
        },
{
    let a = parse_arguments(args);
    let ghost model = args_model(a);
    if a.paths.len() == 0 {
        return Err(text::chars_to_string(&text::str_chars("No files specified for reading")));
    }
    if a.offset.is_some() || a.limit.is_some() || a.lines_specified {
        if a.paths.len() > 1 {
            return Err(
                text::chars_to_string(
                    &text::str_chars(
                        "Offset, limit, and lines parameters can only be used with a single file",
                    ),
                ),
            );
        }
    }
    if a.paths.len() == 1 {
        let path = a.paths[0].clone();
        return Ok(ReadPlan::Single { path, offset: a.offset, limit: a.limit });
    }
    Ok(ReadPlan::Multiple(a.paths))
}

// ---------------------------------------------------------------------------
// Reports
// ---------------------------------------------------------------------------

/// The lines read of a file with `total` lines: from the offset (at most
/// the end), as many as the limit asks (at most to the end), cut at
/// `MAX_READABLE_LINES`. Gives the first line, the line after the last,
/// and whether the cut was made.
pub open spec fn selection(total: nat, offset: Option<nat>, limit: Option<nat>) -> (nat, nat, bool) {
    let o = match offset {
        Some(v) => v,
        None => 0,
    };
    let start = if o < total {
        o
    } else {
        total
    };
    let requested_end = match limit {
        Some(l) => if start + l < total {
            (start + l) as nat
        } else {
            total
        },
        None => total,
    };
    let cut = requested_end - start > MAX_READABLE_LINES;
    let end = if cut {
        (start + MAX_READABLE_LINES) as nat
    } else {
        requested_end
    };
    (start, end, cut)
}

/// A read hands over at most `MAX_READABLE_LINES` lines, within the file,
/// and says it was cut exactly where the lines asked for were more.
pub proof fn law_read_is_bounded(total: nat, offset: Option<nat>, limit: Option<nat>)
    ensures
        ({
            let (start, end, cut) = selection(total, offset, limit);
            &&& start <= end <= total
            &&& end - start <= MAX_READABLE_LINES
            &&& cut ==> end - start == MAX_READABLE_LINES
        }),
{
}

/// What a read selects, in terms of the request alone: it starts at the
/// offset (0 where none is given, at most the end of the file); where a
/// limit `l` is given it reads `min(l, lines left, 1000)` lines, whether or
/// not an offset was given, else `min(lines left, 1000)`; and it says it
/// was cut exactly where more than 1000 lines were asked for and are there.
pub proof fn law_read_takes_what_was_asked(total: nat, offset: Option<nat>, limit: Option<nat>)
    ensures
        ({
            let (start, end, cut) = selection(total, offset, limit);
            let o: nat = match offset {
                Some(v) => v,
                None => 0,
            };
            let left: int = if o <= total {
                total - o
            } else {
                0
            };
            let asked: int = match limit {
                Some(l) => if l < left {
                    l as int
                } else {
                    left
                },
                None => left,
            };
            &&& start == if o <= total {
                o
            } else {
                total
            }
            &&& end - start == if asked < MAX_READABLE_LINES {
                asked
            } else {
                MAX_READABLE_LINES as int
            }
            &&& cut == (asked > MAX_READABLE_LINES)
        }),
{
}

/// The notice added where a read was cut, naming the file by `path`.
pub open spec fn truncation_notice(path: Seq<char>, start: nat) -> Seq<char> {
    let next = start + MAX_READABLE_LINES;
    "\n\n=============== TRUNCATION NOTICE ===============\nFile content was truncated to "@
        + decimal(MAX_READABLE_LINES as nat)
        + " lines maximum.\nTo read additional content, use offset parameter:\n  read offset="@
        + decimal(next as nat) + " limit=1000 "@ + path
        + "\nOr use lines=START-END:\n  read lines="@ + decimal((next + 1) as nat) + "-"@
        + decimal((next + MAX_READABLE_LINES) as nat) + " "@ + path + "\n"@
}

/// The read tool's report on the text `content` of the file named `path`.
pub open spec fn file_report_text(
    path: Seq<char>,
    content: Seq<char>,
    offset: Option<nat>,
    limit: Option<nat>,
) -> Seq<char> {
    let ls = lines(content);
    let (start, end, cut) = selection(ls.len(), offset, limit);
    "File: "@ + path + " (lines "@ + decimal((start + 1) as nat) + "-"@ + decimal(end) + " of "@
        + decimal(ls.len()) + ", "@ + decimal((end - start) as nat) + " lines read"@ + (if cut {
        ", truncated"@
    } else {
        ""@
    }) + ")\n\n"@ + text::join(ls.subrange(start as int, end as int), "\n"@) + "\n"@ + (if cut {
        truncation_notice(path, start)
    } else {
        ""@
    })
}

/// `read limit=l` on a file of `n` lines, with `l` at most `n` and at most
/// the read limit, reports its first `l` lines and says so.
pub proof fn law_limit_without_offset_reads_first_lines(path: Seq<char>, content: Seq<char>, l: nat)
    requires
        l <= lines(content).len(),
        l <= MAX_READABLE_LINES,
    ensures
        file_report_text(path, content, None, Some(l)) == "File: "@ + path + " (lines 1-"@ + decimal(
            l,
        ) + " of "@ + decimal(lines(content).len()) + ", "@ + decimal(l) + " lines read)\n\n"@
            + text::join(lines(content).take(l as int), "\n"@) + "\n"@,
{
    let ls = lines(content);
    law_read_takes_what_was_asked(ls.len(), None, Some(l));
    let (start, end, cut) = selection(ls.len(), None, Some(l));
    assert(start == 0 && end == l && !cut);
    assert(ls.subrange(0, l as int) =~= ls.take(l as int));
    assert(decimal(1) == "1"@) by {
        reveal_strlit("1");
    }
    reveal_strlit(" (lines ");
    reveal_strlit("-");
    reveal_strlit(" (lines 1-");
    reveal_strlit(" lines read");
    reveal_strlit(")\n\n");
    reveal_strlit(" lines read)\n\n");
    reveal_strlit("");
    assert(file_report_text(path, content, None, Some(l)) =~= "File: "@ + path + " (lines 1-"@
        + decimal(l) + " of "@ + decimal(ls.len()) + ", "@ + decimal(l) + " lines read)\n\n"@
        + text::join(ls.take(l as int), "\n"@) + "\n"@);
}

/// The offset and limit as numbers.
pub open spec fn opt_nat(o: Option<usize>) -> Option<nat> {
    match o {
        Some(v) => Some(v as nat),
        None => None,
    }
}

/// Adding the limit to the first line read does not overflow `usize`.
pub open spec fn selection_fits(total: nat, offset: Option<usize>, limit: Option<usize>) -> bool {
    match limit {
        Some(l) => {
            let o = match offset {
                Some(v) => v as nat,
                None => 0,
            };
            (if o < total {
                o
            } else {
                total
            }) + l <= usize::MAX
        },
        None => true,
    }
}

/// Whether adding the limit to the first line read of `content` stays
/// within `usize`.
pub fn selection_in_range(content: &str, offset: Option<usize>, limit: Option<usize>) -> (r: bool)
    ensures
        r == selection_fits(lines(content@).len(), offset, limit),
{
    let total = text::count_lines(&text::str_chars(content));
    match limit {
        Some(l) => {
            let o = match offset {
                Some(v) => v,
                None => 0,
            };
            let start = if o < total {
                o
            } else {
                total
            };
            start <= usize::MAX - l
        },
        None => true,
    }
}

/// The lines that `offset` and `limit` select of `total`.
fn select_range(total: usize, offset: Option<usize>, limit: Option<usize>) -> (r: (usize, usize, bool))
    requires
        selection_fits(total as nat, offset, limit),
        total + MAX_READABLE_LINES <= usize::MAX,
    ensures
        (r.0 as nat, r.1 as nat, r.2) == selection(total as nat, opt_nat(offset), opt_nat(limit)),
        r.0 <= r.1 <= total,
{
    let o = match offset {
        Some(v) => v,
        None => 0,
    };
    let start = if o < total {
        o
    } else {
        total
    };
    let requested_end = match limit {
        Some(l) => if start + l < total {
            start + l
        } else {
            total
        },
        None => total,
    };
    let cut = requested_end - start > MAX_READABLE_LINES;
    let end = if cut {
        start + MAX_READABLE_LINES
    } else {
        requested_end
    };
    (start, end, cut)
}

/// The notice on a cut read.
fn notice(path: &str, start: usize) -> (r: Vec<char>)
    requires
        start + 2 * MAX_READABLE_LINES <= usize::MAX,
    ensures
        r@ == truncation_notice(path@, start as nat),
{
    let next = start + MAX_READABLE_LINES;
    let mut m = text::str_chars(
        "\n\n=============== TRUNCATION NOTICE ===============\nFile content was truncated to ",
    );
    text::append_chars(&mut m, &text::decimal_chars(MAX_READABLE_LINES as u64));
    text::append_str(
        &mut m,
        " lines maximum.\nTo read additional content, use offset parameter:\n  read offset=",
    );
    text::append_chars(&mut m, &text::decimal_chars(next as u64));
    text::append_str(&mut m, " limit=1000 ");
    text::append_str(&mut m, path);
    text::append_str(&mut m, "\nOr use lines=START-END:\n  read lines=");
    text::append_chars(&mut m, &text::decimal_chars((next + 1) as u64));
    text::append_str(&mut m, "-");
    text::append_chars(&mut m, &text::decimal_chars((next + MAX_READABLE_LINES) as u64));
    text::append_str(&mut m, " ");
    text::append_str(&mut m, path);
    text::append_str(&mut m, "\n");
    m
}

/// The lines `start..end` of `ls`, joined by newlines.
fn joined_range(ls: &Vec<Vec<char>>, start: usize, end: usize) -> (r: Vec<char>)
    requires
        start <= end <= ls.len(),
    ensures
        r@ == text::join(text::views(ls@).subrange(start as int, end as int), "\n"@),
{
    let mut sel: Vec<Vec<char>> = Vec::new();
    let mut k = start;
    while k < end
        invariant
            start <= k <= end <= ls.len(),
            text::views(sel@) == text::views(ls@).subrange(start as int, k as int),
        decreases end - k,
    {
        let ghost s0 = text::views(sel@);
        sel.push(ls[k].clone());
        assert(text::views(sel@) =~= s0.push(ls@[k as int]@));
        assert(text::views(ls@).subrange(start as int, k + 1) =~= text::views(ls@).subrange(
            start as int,
            k as int,
        ).push(ls@[k as int]@));
        k = k + 1;
    }
    text::join_all(&sel, "\n")
}

/// The read tool's report on the text `content` of the file named `path`,
/// reading the lines that `offset` and `limit` select.
#[verifier::spinoff_prover]
pub fn file_report(path: &str, content: &str, offset: Option<usize>, limit: Option<usize>) -> (r: String)
    requires
        selection_fits(lines(content@).len(), offset, limit),
        content@.len() + 2 * MAX_READABLE_LINES <= usize::MAX,
    ensures
        r@ == file_report_text(path@, content@, opt_nat(offset), opt_nat(limit)),
{
    let ls = text::split_lines(&text::str_chars(content));
    let total = ls.len();
    proof {
        text::lemma_lines_len(content@);
        reveal_strlit("");
        assert(""@ =~= Seq::<char>::empty());
    }
    let (start, end, cut) = select_range(total, offset, limit);
    let mut m = text::str_chars("File: ");
    text::append_str(&mut m, path);
    text::append_str(&mut m, " (lines ");
    text::append_chars(&mut m, &text::decimal_chars((start + 1) as u64));
    text::append_str(&mut m, "-");
    text::append_chars(&mut m, &text::decimal_chars(end as u64));
    text::append_str(&mut m, " of ");
    text::append_chars(&mut m, &text::decimal_chars(total as u64));
    text::append_str(&mut m, ", ");
    text::append_chars(&mut m, &text::decimal_chars((end - start) as u64));
    text::append_str(&mut m, " lines read");
    let ghost m0 = m@;
    if cut {
        text::append_str(&mut m, ", truncated");
    } else {
        assert(m0 + ""@ =~= m0);
    }
    text::append_str(&mut m, ")\n\n");
    text::append_chars(&mut m, &joined_range(&ls, start, end));
    text::append_str(&mut m, "\n");
    let ghost m1 = m@;
    if cut {
        text::append_chars(&mut m, &notice(path, start));
    } else {
        assert(m1 + ""@ =~= m1);
    }
    text::chars_to_string(&m)
}

/// The names of the directories among `entries` (name, is a directory),
/// each with a `/` after it, in the order given.
pub open spec fn dir_names(entries: Seq<(Seq<char>, bool)>) -> Seq<Seq<char>>
    decreases entries.len(),
{
    if entries.len() == 0 {
        seq![]
    } else {
        let rest = dir_names(entries.drop_last());
        if entries.last().1 {
            rest.push(entries.last().0 + "/"@)
        } else {
            rest
        }
    }
}

/// The names of the other entries, in the order given.
pub open spec fn file_names(entries: Seq<(Seq<char>, bool)>) -> Seq<Seq<char>>
    decreases entries.len(),
{
    if entries.len() == 0 {
        seq![]
    } else {
        let rest = file_names(entries.drop_last());
        if entries.last().1 {
            rest
        } else {
            rest.push(entries.last().0)
        }
    }
}

/// The entries as (name, is a directory).
pub open spec fn entry_views(entries: Seq<(String, bool)>) -> Seq<(Seq<char>, bool)> {
    entries.map_values(|e: (String, bool)| (e.0@, e.1))
}

/// The report on a directory named `path` whose entries, directories first,
/// are `listed`.
pub open spec fn directory_text(path: Seq<char>, listed: Seq<Seq<char>>) -> Seq<char> {
    "Directory: "@ + path + " ("@ + decimal(listed.len()) + " entries)\n\n"@ + text::join(
        listed,
        "\n"@,
    )
}

/// The read tool's report on the directory named `path` with `entries`
/// (name, is a directory): the directories, each with a `/`, in order,
/// then the files in order, one per line.
pub fn directory_report(path: &str, entries: &Vec<(String, bool)>) -> (r: String)
    ensures
        exists|ds: Seq<Seq<char>>, fs: Seq<Seq<char>>|
            text::sorted(ds) && ds.to_multiset() == dir_names(entry_views(entries@)).to_multiset()
                && text::sorted(fs) && fs.to_multiset() == file_names(entry_views(entries@)).to_multiset()
                && r@ == directory_text(path@, ds + fs),
{
    let ghost ev = entry_views(entries@);
    let mut dirs: Vec<Vec<char>> = Vec::new();
    let mut files: Vec<Vec<char>> = Vec::new();
    let mut i: usize = 0;
    while i < entries.len()
        invariant
            i <= entries.len(),
            ev == entry_views(entries@),
            text::views(dirs@) == dir_names(ev.take(i as int)),
            text::views(files@) == file_names(ev.take(i as int)),
        decreases entries.len() - i,
    {
        assert(ev.take(i + 1).drop_last() =~= ev.take(i as int));
        let mut name = text::str_chars(entries[i].0.as_str());
        if entries[i].1 {
            text::append_str(&mut name, "/");
            let ghost d0 = text::views(dirs@);
            dirs.push(name);
            assert(text::views(dirs@) =~= d0.push(dirs@[dirs@.len() - 1]@));
        } else {
            let ghost f0 = text::views(files@);
            files.push(name);
            assert(text::views(files@) =~= f0.push(files@[files@.len() - 1]@));
        }
        i = i + 1;
    }
    assert(ev.take(entries.len() as int) =~= ev);
    let sd = text::sort_strings(&dirs);
    let sf = text::sort_strings(&files);
    let mut all = sd.clone();
    let ghost dv = text::views(sd@);
    let mut k: usize = 0;
    assert(text::views(all@) =~= dv + text::views(sf@).take(0));
    while k < sf.len()
        invariant
            k <= sf.len(),
            text::views(all@) == dv + text::views(sf@).take(k as int),
        decreases sf.len() - k,
    {
        let ghost a0 = text::views(all@);
        all.push(sf[k].clone());
        assert(text::views(all@) =~= a0.push(sf@[k as int]@));
        assert(text::views(sf@).take(k + 1) =~= text::views(sf@).take(k as int).push(sf@[k as int]@));
        k = k + 1;
    }
    assert(text::views(sf@).take(sf.len() as int) =~= text::views(sf@));
    let mut m = text::str_chars("Directory: ");
    text::append_str(&mut m, path);
    text::append_str(&mut m, " (");
    text::append_chars(&mut m, &text::decimal_chars(all.len() as u64));
    text::append_str(&mut m, " entries)\n\n");
    text::append_chars(&mut m, &text::join_all(&all, "\n"));
    let r = text::chars_to_string(&m);
    assert(r@ == directory_text(path@, text::views(sd@) + text::views(sf@)));
    r
}

/// The result of reading several paths: their reports joined by blank
/// lines, successful where each read was.
pub fn combine_reads(results: &Vec<ToolResult>) -> (r: ToolResult)
    ensures
        r.success == forall|k: int| 0 <= k < results@.len() ==> #[trigger] results@[k].success,
        r.state_change == AgentStateChange::Continue,
        r.content@.len() == 1,
        (r.content@[0] matches Content::Text { text } && text@ == text::join(
            results@.map_values(|t: ToolResult| crate::tools::contents_text(t.content@)),
            "\n\n"@,
        )),
{
    let ghost tv = results@.map_values(|t: ToolResult| crate::tools::contents_text(t.content@));
    let mut parts: Vec<Vec<char>> = Vec::new();
    let mut ok = true;
    let mut i: usize = 0;
    while i < results.len()
        invariant
            i <= results.len(),
            tv == results@.map_values(|t: ToolResult| crate::tools::contents_text(t.content@)),
            text::views(parts@) == tv.take(i as int),
            ok == forall|k: int| 0 <= k < i ==> #[trigger] results@[k].success,
        decreases results.len() - i,
    {
        let t = results[i].to_text();
        let ghost p0 = text::views(parts@);
        parts.push(text::str_chars(t.as_str()));
        assert(text::views(parts@) =~= p0.push(tv[i as int]));
        assert(tv.take(i + 1) =~= tv.take(i as int).push(tv[i as int]));
        if !results[i].success {
            ok = false;
        }
        i = i + 1;
    }
    assert(tv.take(results.len() as int) =~= tv);
    let joined = text::join_all(&parts, "\n\n");
    let mut content: Vec<Content> = Vec::new();
    content.push(Content::Text { text: text::chars_to_string(&joined) });
    ToolResult { success: ok, state_change: AgentStateChange::Continue, content }
}

// ---------------------------------------------------------------------------
// Images
// ---------------------------------------------------------------------------

/// Largest image file read, in bytes.
pub const MAX_IMAGE_SIZE: usize = 1048576;

/// A file is read as an image when its extension, in lower case, is `jpg`,
/// `jpeg` or `png`.
pub open spec fn image_extension(ext: Option<Seq<char>>) -> bool {
    match ext {
        Some(e) => {
            let l = text::lowercase(e);
            l == "jpg"@ || l == "jpeg"@ || l == "png"@
        },
        None => false,
    }
}

/// Whether a file with extension `ext` is read as an image.
pub fn is_image_extension(ext: Option<&str>) -> (r: bool)
    ensures
        r == image_extension(
            match ext {
                Some(e) => Some(e@),
                None => None,
            },
        ),
{
    match ext {
        Some(e) => {
            let l = text::to_lowercase(&text::str_chars(e));
            text::chars_eq_str(&l, "jpg") || text::chars_eq_str(&l, "jpeg") || text::chars_eq_str(
                &l,
                "png",
            )
        },
        None => false,
    }
}

/// The media type sent for an image with extension `ext` (as written: the
/// lower-case forms only).
pub fn image_media_type(ext: Option<&str>) -> (r: Option<&'static str>)
    ensures
        match ext {
            Some(e) => if e@ == "jpg"@ || e@ == "jpeg"@ {
                r matches Some(t) && t@ == "image/jpeg"@
            } else if e@ == "png"@ {
                r matches Some(t) && t@ == "image/png"@
            } else {
                r is None
            },
            None => r is None,
        },
{
    match ext {
        Some(e) => {
            let v = text::str_chars(e);
            if text::chars_eq_str(&v, "jpg") || text::chars_eq_str(&v, "jpeg") {
                Some("image/jpeg")
            } else if text::chars_eq_str(&v, "png") {
                Some("image/png")
            } else {
                None
            }
        },
        None => None,
    }
}

/// The refusal of an image of `size` bytes over the limit, if it is.
pub fn image_size_error(path: &str, size: usize) -> (r: Option<String>)
    ensures
        size <= MAX_IMAGE_SIZE ==> r is None,
        size > MAX_IMAGE_SIZE ==> (r matches Some(m) && m@ == "Image file '"@ + path@
            + "' is too large ("@ + decimal((size / MAX_IMAGE_SIZE) as nat)
            + " MB). Maximum size is 1MB. Try using a smaller image."@),
{
    if size <= MAX_IMAGE_SIZE {
        return None;
    }
    let mut m = text::str_chars("Image file '");
    text::append_str(&mut m, path);
    text::append_str(&mut m, "' is too large (");
    text::append_chars(&mut m, &text::decimal_chars((size / MAX_IMAGE_SIZE) as u64));
    text::append_str(&mut m, " MB). Maximum size is 1MB. Try using a smaller image.");
    Some(text::chars_to_string(&m))
}

/// The refusal of an image whose format is not read.
pub fn unsupported_image_error(path: &str) -> (r: String)
    ensures
        r@ == "Unsupported image format for file '"@ + path@
            + "'. Currently only JPEG and PNG formats are supported."@,
{
    let mut m = text::str_chars("Unsupported image format for file '");
    text::append_str(&mut m, path);
    text::append_str(&mut m, "'. Currently only JPEG and PNG formats are supported.");
    text::chars_to_string(&m)
}

/// The text that goes with an image read: its name, size in pixels and
/// in bytes.
pub fn image_report(path: &str, width: u32, height: u32, bytes: usize) -> (r: String)
    ensures
        r@ == "Image: "@ + path@ + " ("@ + decimal(width as nat) + "x"@ + decimal(height as nat)
            + ", "@ + decimal(bytes as nat) + " bytes)"@,
{
    let mut m = text::str_chars("Image: ");
    text::append_str(&mut m, path);
    text::append_str(&mut m, " (");
    text::append_chars(&mut m, &text::decimal_chars(width as u64));
    text::append_str(&mut m, "x");
    text::append_chars(&mut m, &text::decimal_chars(height as u64));
    text::append_str(&mut m, ", ");
    text::append_chars(&mut m, &text::decimal_chars(bytes as u64));
    text::append_str(&mut m, " bytes)");
    text::chars_to_string(&m)
}

} // verus!
