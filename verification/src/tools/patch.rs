//! The patch tool: replaces one unique piece of a file's text, given in a
//! body of the form `<<<<BEFORE` .. `<<<<AFTER` .. `<<<<END`, and reports
//! where it did so.
use vstd::prelude::*;
use crate::constants::{
    FORMAT_BOLD, FORMAT_DIFF_ADDED, FORMAT_DIFF_DELETED, FORMAT_RESET, PATCH_DELIMITER_AFTER,
    PATCH_DELIMITER_BEFORE, PATCH_DELIMITER_END,
};
use crate::text::{self, char_bytes, decimal, find_spec, first_from, lines, occurs_at, replace_all, trim};

verus! {

/// Why a patch was refused.
pub enum PatchError {
    /// No file name in the arguments
    MissingFilename,
    /// Nothing but white space in the body
    MissingContent,
    /// No `<<<<BEFORE` in the body
    MissingBefore,
    /// No `<<<<AFTER` after it
    MissingAfter,
    /// No `<<<<END` after that
    MissingEnd,
    /// The texts between the delimiters start past their ends
    InvalidFormat,
    /// The text to replace is not in the file
    NotFound(String),
    /// The text to replace is in the file more than once
    Ambiguous(usize),
}

/// The message of each refusal, as the tool reports it.
pub open spec fn error_text(e: PatchError) -> Seq<char> {
    match e {
        PatchError::MissingFilename => "Patch tool requires a filename as an argument"@,
        PatchError::MissingContent => "Patch tool requires patch content in the body"@,
        PatchError::MissingBefore => "Missing '"@ + PATCH_DELIMITER_BEFORE@ + "' delimiter in patch"@,
        PatchError::MissingAfter => "Missing '"@ + PATCH_DELIMITER_AFTER@ + "' delimiter in patch"@,
        PatchError::MissingEnd => "Missing '"@ + PATCH_DELIMITER_END@ + "' delimiter in patch"@,
        PatchError::InvalidFormat => "Invalid patch format: delimiter positions are invalid"@,
        PatchError::NotFound(t) => "Text to replace not found in the file: '"@ + t@ + "'"@,
        PatchError::Ambiguous(n) => "Ambiguous patch: Text to replace occurs multiple times ("@
            + decimal(n as nat)
            + " occurrences) in the file. Please provide more context to make the patch unique."@,
    }
}

impl PatchError {
    /// The message of this refusal.
    pub fn message(&self) -> (r: String)
        ensures
            r@ == error_text(*self),
    {
        let mut m: Vec<char>;
        match self {
            PatchError::MissingFilename => {
                m = text::str_chars("Patch tool requires a filename as an argument");
            },
            PatchError::MissingContent => {
                m = text::str_chars("Patch tool requires patch content in the body");
            },
            PatchError::MissingBefore => {
                m = text::str_chars("Missing '");
                text::append_str(&mut m, PATCH_DELIMITER_BEFORE);
                text::append_str(&mut m, "' delimiter in patch");
            },
            PatchError::MissingAfter => {
                m = text::str_chars("Missing '");
                text::append_str(&mut m, PATCH_DELIMITER_AFTER);
                text::append_str(&mut m, "' delimiter in patch");
            },
            PatchError::MissingEnd => {
                m = text::str_chars("Missing '");
                text::append_str(&mut m, PATCH_DELIMITER_END);
                text::append_str(&mut m, "' delimiter in patch");
            },
            PatchError::InvalidFormat => {
                m = text::str_chars("Invalid patch format: delimiter positions are invalid");
            },
            PatchError::NotFound(t) => {
                m = text::str_chars("Text to replace not found in the file: '");
                text::append_str(&mut m, t.as_str());
                text::append_str(&mut m, "'");
            },
            PatchError::Ambiguous(n) => {
                m = text::str_chars("Ambiguous patch: Text to replace occurs multiple times (");
                text::append_chars(&mut m, &text::decimal_chars(*n as u64));
                text::append_str(
                    &mut m,
                    " occurrences) in the file. Please provide more context to make the patch unique.",
                );
            },
        }
        text::chars_to_string(&m)
    }
}

/// The file name that the arguments give, once the body is known not to be
/// blank.
pub open spec fn patch_target(args: Seq<char>, body: Seq<char>) -> Result<Seq<char>, PatchError> {
    if trim(args).len() == 0 {
        Err(PatchError::MissingFilename)
    } else if trim(body).len() == 0 {
        Err(PatchError::MissingContent)
    } else {
        Ok(trim(args))
    }
}

/// The file to patch, from the tool's arguments, where the body holds more
/// than white space.
pub fn patch_filename(args: &str, body: &str) -> (r: Result<String, PatchError>)
    ensures
        match patch_target(args@, body@) {
            Ok(f) => r matches Ok(x) && x@ == f,
            Err(e) => r matches Err(x) && x == e,
        },
{
    let name = text::trim_chars(&text::str_chars(args));
    if name.len() == 0 {
        return Err(PatchError::MissingFilename);
    }
    let b = text::trim_chars(&text::str_chars(body));
    if b.len() == 0 {
        return Err(PatchError::MissingContent);
    }
    Ok(text::chars_to_string(&name))
}

/// The index of the first `\n` at or after `i`.
pub open spec fn newline_from(s: Seq<char>, i: int) -> Option<int>
    decreases s.len() - i,
{
    if i < 0 || i >= s.len() {
        None
    } else if s[i] == '\n' {
        Some(i)
    } else {
        newline_from(s, i + 1)
    }
}

/// Where the line after position `from` starts: past the next `\n`, or
/// `from` itself when no `\n` follows.
pub open spec fn line_start_after(s: Seq<char>, from: int) -> int {
    match newline_from(s, from) {
        Some(k) => k + 1,
        None => from,
    }
}

/// The text to replace and the replacement that a patch body holds: the
/// text after the `<<<<BEFORE` line up to `<<<<AFTER`, and after the
/// `<<<<AFTER` line up to `<<<<END`, each trimmed.
pub open spec fn patch_texts(body: Seq<char>) -> Result<(Seq<char>, Seq<char>), PatchError> {
    let bd = PATCH_DELIMITER_BEFORE@;
    let ad = PATCH_DELIMITER_AFTER@;
    let ed = PATCH_DELIMITER_END@;
    match find_spec(body, bd, 0) {
        None => Err(PatchError::MissingBefore),
        Some(b) => match find_spec(body, ad, b) {
            None => Err(PatchError::MissingAfter),
            Some(a) => match find_spec(body, ed, a) {
                None => Err(PatchError::MissingEnd),
                Some(e) => {
                    let before_start = line_start_after(body, b + bd.len());
                    let after_start = line_start_after(body, a + ad.len());
                    if before_start >= a || after_start >= e {
                        Err(PatchError::InvalidFormat)
                    } else {
                        Ok(
                            (
                                trim(body.subrange(before_start, a)),
                                trim(body.subrange(after_start, e)),
                            ),
                        )
                    }
                },
            },
        },
    }
}

/// The start of the line after `from`.
fn next_line_start(s: &Vec<char>, from: usize) -> (r: usize)
    requires
        from <= s.len(),
    ensures
        r == line_start_after(s@, from as int),
        r <= s.len(),
{
    let mut i = from;
    while i < s.len() && s[i] != '\n'
        invariant
            from <= i <= s.len(),
            newline_from(s@, i as int) == newline_from(s@, from as int),
        decreases s.len() - i,
    {
        i = i + 1;
    }
    if i < s.len() {
        i + 1
    } else {
        from
    }
}

/// The text to replace and its replacement, from a patch body.
pub fn parse_patch_body(body: &str) -> (r: Result<(String, String), PatchError>)
    ensures
        match patch_texts(body@) {
            Ok((x, y)) => r matches Ok((p, q)) && p@ == x && q@ == y,
            Err(e) => r matches Err(z) && z == e,
        },
{
    let bv = text::str_chars(body);
    let bd = text::str_chars(PATCH_DELIMITER_BEFORE);
    let ad = text::str_chars(PATCH_DELIMITER_AFTER);
    let ed = text::str_chars(PATCH_DELIMITER_END);
    let b = match text::find_in(&bv, &bd, 0) {
        Some(b) => b,
        None => {
            return Err(PatchError::MissingBefore);
        },
    };
    let a = match text::find_in(&bv, &ad, b) {
        Some(a) => a,
        None => {
            return Err(PatchError::MissingAfter);
        },
    };
    let e = match text::find_in(&bv, &ed, a) {
        Some(e) => e,
        None => {
            return Err(PatchError::MissingEnd);
        },
    };
    let before_start = next_line_start(&bv, b + bd.len());
    let after_start = next_line_start(&bv, a + ad.len());
    if before_start >= a || after_start >= e {
        return Err(PatchError::InvalidFormat);
    }
    let before = text::trim_chars(&text::copy_range(&bv, before_start, a));
    let after = text::trim_chars(&text::copy_range(&bv, after_start, e));
    Ok((text::chars_to_string(&before), text::chars_to_string(&after)))
}

/// The search for a second occurrence resumes one byte past the start of
/// the first; it cuts into a character (a fault) where the first occurrence
/// starts with a character of more than one byte, or at the very end.
pub open spec fn search_splits_char(file: Seq<char>, before: Seq<char>) -> bool {
    match find_spec(file, before, 0) {
        Some(i) => i >= file.len() || char_bytes(file[i]) != 1,
        None => false,
    }
}

/// A patch applied to a file's text.
pub struct PatchApplied {
    /// The file's new text
    pub new_content: String,
    /// First line replaced, counted from 1
    pub start_line: usize,
    /// Last line replaced
    pub end_line: usize,
    /// Lines of the replaced text
    pub before_lines: usize,
    /// Lines of the replacement
    pub after_lines: usize,
}

/// What patching `file` replacing `before` by `after` gives: the text is
/// found exactly once (occurrences may overlap), and is replaced; the lines
/// are counted as `str::lines` counts them.
pub open spec fn patch_result(file: Seq<char>, before: Seq<char>, after: Seq<char>, r: Result<
    PatchApplied,
    PatchError,
>) -> bool {
    match find_spec(file, before, 0) {
        None => r matches Err(PatchError::NotFound(t)) && t@ == before,
        Some(i) => match find_spec(file, before, i + 1) {
            Some(_) => r matches Err(PatchError::Ambiguous(n)) && n == 2,
            None => r matches Ok(p) && {
                &&& p.new_content@ == replace_all(file, before, after)
                &&& p.start_line == lines(file.take(i)).len() + 1
                &&& p.before_lines == lines(before).len()
                &&& p.after_lines == lines(after).len()
                &&& p.end_line == p.start_line + p.before_lines - 1
            },
        },
    }
}

/// Replacing a pattern that does not occur leaves the text as it is.
proof fn lemma_replace_absent(s: Seq<char>, p: Seq<char>, r: Seq<char>)
    requires
        p.len() > 0,
        forall|j: int| 0 <= j ==> !occurs_at(s, p, j),
    ensures
        replace_all(s, p, r) == s,
    decreases s.len(),
{
    if s.len() > 0 {
        if s.len() >= p.len() && s.take(p.len() as int) == p {
            assert(s.subrange(0, p.len() as int) =~= s.take(p.len() as int));
            assert(occurs_at(s, p, 0));
        }
        assert forall|j: int| 0 <= j implies !occurs_at(s.skip(1), p, j) by {
            if occurs_at(s.skip(1), p, j) {
                assert(s.skip(1).subrange(j, j + p.len()) =~= s.subrange(j + 1, j + 1 + p.len()));
                assert(occurs_at(s, p, j + 1));
            }
        }
        lemma_replace_absent(s.skip(1), p, r);
        assert(seq![s[0]] + s.skip(1) =~= s);
    }
}

/// Replacing a pattern that occurs once, at `i`, changes the text only
/// there.
proof fn lemma_replace_once(s: Seq<char>, p: Seq<char>, r: Seq<char>, i: int)
    requires
        p.len() > 0,
        occurs_at(s, p, i),
        forall|j: int| 0 <= j && j != i ==> !occurs_at(s, p, j),
    ensures
        replace_all(s, p, r) == s.take(i) + r + s.skip(i + p.len()),
    decreases s.len(),
{
    if i == 0 {
        assert(s.take(p.len() as int) =~= s.subrange(0, p.len() as int));
        assert forall|j: int| 0 <= j implies !occurs_at(s.skip(p.len() as int), p, j) by {
            if occurs_at(s.skip(p.len() as int), p, j) {
                assert(s.skip(p.len() as int).subrange(j, j + p.len()) =~= s.subrange(
                    j + p.len(),
                    j + p.len() + p.len(),
                ));
                assert(occurs_at(s, p, j + p.len()));
            }
        }
        lemma_replace_absent(s.skip(p.len() as int), p, r);
        assert(s.take(0) + r + s.skip(p.len() as int) =~= r + s.skip(p.len() as int));
    } else {
        if s.len() >= p.len() && s.take(p.len() as int) == p {
            assert(s.subrange(0, p.len() as int) =~= s.take(p.len() as int));
            assert(occurs_at(s, p, 0));
        }
        let t = s.skip(1);
        assert(t.subrange(i - 1, i - 1 + p.len()) =~= s.subrange(i, i + p.len()));
        assert forall|j: int| 0 <= j && j != i - 1 implies !occurs_at(t, p, j) by {
            if occurs_at(t, p, j) {
                assert(t.subrange(j, j + p.len()) =~= s.subrange(j + 1, j + 1 + p.len()));
                assert(occurs_at(s, p, j + 1));
            }
        }
        lemma_replace_once(t, p, r, i - 1);
        assert(seq![s[0]] + (t.take(i - 1) + r + t.skip(i - 1 + p.len())) =~= s.take(i) + r + s.skip(
            i + p.len(),
        ));
    }
}

/// The only occurrence of `before` in `file` is the first one.
proof fn lemma_single_occurrence(file: Seq<char>, before: Seq<char>, i: int)
    requires
        find_spec(file, before, 0) == Some(i),
        find_spec(file, before, i + 1) is None,
    ensures
        occurs_at(file, before, i),
        forall|j: int| 0 <= j && j != i ==> !occurs_at(file, before, j),
{
    assert(first_from(file, before, 0, i));
    assert forall|j: int| 0 <= j && j != i implies !occurs_at(file, before, j) by {
        if j > i && occurs_at(file, before, j) {
            let f = i + 1;
            lemma_first_exists(file, before, f, j);
            assert(exists|k: int| #[trigger] first_from(file, before, f, k));
        }
    }
}

/// Where `n` occurs at `j >= from`, some occurrence at or after `from` is
/// the first.
proof fn lemma_first_exists(h: Seq<char>, n: Seq<char>, from: int, j: int)
    requires
        from <= j,
        occurs_at(h, n, j),
    ensures
        exists|k: int| #[trigger] first_from(h, n, from, k),
    decreases j - from,
{
    if forall|m: int| from <= m < j ==> !occurs_at(h, n, m) {
        assert(first_from(h, n, from, j));
    } else {
        let m = choose|m: int| from <= m < j && occurs_at(h, n, m);
        lemma_first_exists(h, n, from, m);
    }
}

/// A patch that succeeds changes the file only where the replaced text was:
/// the text before it and the text after it stay as they were, with the
/// replacement between them.
pub proof fn law_patch_changes_only_the_match(
    file: Seq<char>,
    before: Seq<char>,
    after: Seq<char>,
    r: Result<PatchApplied, PatchError>,
)
    requires
        !search_splits_char(file, before),
        patch_result(file, before, after, r),
    ensures
        r matches Ok(p) ==> (find_spec(file, before, 0) matches Some(i) && p.new_content@ == file.take(
            i,
        ) + after + file.skip(i + before.len())),
{
    if let Ok(p) = r {
        let i = find_spec(file, before, 0).unwrap();
        lemma_single_occurrence(file, before, i);
        if before.len() == 0 {
            assert(i < file.len());
            assert(file.subrange(i + 1, i + 1) =~= before);
            assert(occurs_at(file, before, i + 1));
        }
        lemma_replace_once(file, before, after, i);
    }
}

/// A patch is undone by the reverse patch: where replacing `before` by
/// `after` succeeds, and replacing `after` by `before` in the result
/// succeeds too, the file is back as it was.
pub proof fn law_reverse_patch_restores(
    file: Seq<char>,
    before: Seq<char>,
    after: Seq<char>,
    p: PatchApplied,
    q: PatchApplied,
)
    requires
        !search_splits_char(file, before),
        patch_result(file, before, after, Ok(p)),
        !search_splits_char(p.new_content@, after),
        patch_result(p.new_content@, after, before, Ok(q)),
    ensures
        q.new_content@ == file,
{
    law_patch_changes_only_the_match(file, before, after, Ok(p));
    let i = find_spec(file, before, 0).unwrap();
    let new = p.new_content@;
    lemma_single_occurrence(file, before, i);
    assert(new == file.take(i) + after + file.skip(i + before.len()));
    assert(new.subrange(i, i + after.len()) =~= after);
    assert(occurs_at(new, after, i));
    let k = find_spec(new, after, 0).unwrap();
    lemma_single_occurrence(new, after, k);
    assert(k == i);
    law_patch_changes_only_the_match(new, after, before, Ok(q));
    assert(new.take(i) =~= file.take(i));
    assert(new.skip(i + after.len()) =~= file.skip(i + before.len()));
    assert(file.subrange(i, i + before.len()) == before);
    assert(file.take(i) + before + file.skip(i + before.len()) =~= file);
}

/// Applies the patch to the file's text `file`: `before` must occur in it
/// exactly once.
pub fn apply_patch(file: &str, before: &str, after: &str) -> (r: Result<PatchApplied, PatchError>)
    requires
        !search_splits_char(file@, before@),
    ensures
        patch_result(file@, before@, after@, r),
{
    let fv = text::str_chars(file);
    let bv = text::str_chars(before);
    let av = text::str_chars(after);
    let i = match text::find_in(&fv, &bv, 0) {
        Some(i) => i,
        None => {
            return Err(PatchError::NotFound(text::chars_to_string(&bv)));
        },
    };
    assert(i < fv.len());
    match text::find_in(&fv, &bv, i + 1) {
        Some(_) => {
            return Err(PatchError::Ambiguous(2));
        },
        None => {},
    }
    proof {
        if bv@.len() == 0 {
            occurs_at_empty(fv@, i as int + 1);
            assert(bv@ =~= Seq::<char>::empty());
            assert(text::first_from(fv@, bv@, i as int + 1, i as int + 1));
        }
    }
    let new_content = text::replace_str(&fv, before, after);
    let head = text::copy_range(&fv, 0, i);
    proof {
        text::lemma_lines_len(head@);
        text::lemma_lines_len(bv@);
        assert(i + bv@.len() <= fv@.len());
    }
    let start_line = text::count_lines(&head) + 1;
    let before_lines = text::count_lines(&bv);
    let after_lines = text::count_lines(&av);
    assert(bv@.len() > 0);
    let end_line = start_line + (before_lines - 1);
    Ok(
        PatchApplied {
            new_content: text::chars_to_string(&new_content),
            start_line,
            end_line,
            before_lines,
            after_lines,
        },
    )
}

/// An empty text occurs at each position up to the end.
proof fn occurs_at_empty(h: Seq<char>, i: int)
    requires
        0 <= i <= h.len(),
    ensures
        text::occurs_at(h, Seq::<char>::empty(), i),
{
    assert(h.subrange(i, i) =~= Seq::<char>::empty());
}

/// The tool's report of an applied patch, naming the file by `path`.
pub open spec fn patch_report_text(path: Seq<char>, p: PatchApplied) -> Seq<char> {
    "Successfully patched file '"@ + path + "' at lines "@ + decimal(p.start_line as nat) + "-"@
        + decimal(p.end_line as nat) + " (replaced "@ + decimal(p.before_lines as nat)
        + " lines with "@ + decimal(p.after_lines as nat) + " lines)"@
}

/// The tool's report of an applied patch.
pub fn patch_report(path: &str, p: &PatchApplied) -> (r: String)
    ensures
        r@ == patch_report_text(path@, *p),
{
    let mut m = text::str_chars("Successfully patched file '");
    text::append_str(&mut m, path);
    text::append_str(&mut m, "' at lines ");
    text::append_chars(&mut m, &text::decimal_chars(p.start_line as u64));
    text::append_str(&mut m, "-");
    text::append_chars(&mut m, &text::decimal_chars(p.end_line as u64));
    text::append_str(&mut m, " (replaced ");
    text::append_chars(&mut m, &text::decimal_chars(p.before_lines as u64));
    text::append_str(&mut m, " lines with ");
    text::append_chars(&mut m, &text::decimal_chars(p.after_lines as u64));
    text::append_str(&mut m, " lines)");
    text::chars_to_string(&m)
}

// ---------------------------------------------------------------------------
// Longest common subsequence of two lists of lines
// ---------------------------------------------------------------------------

/// The length of a longest common subsequence of `a` and `b`.
pub open spec fn lcs_len(a: Seq<Seq<char>>, b: Seq<Seq<char>>) -> nat
    decreases a.len() + b.len(),
{
    if a.len() == 0 || b.len() == 0 {
        0
    } else if a.last() == b.last() {
        lcs_len(a.drop_last(), b.drop_last()) + 1
    } else {
        let up = lcs_len(a.drop_last(), b);
        let left = lcs_len(a, b.drop_last());
        if up >= left {
            up
        } else {
            left
        }
    }
}

/// `pairs` picks equal lines of `a` and `b` at increasing positions in both.
pub open spec fn common_subsequence(
    a: Seq<Seq<char>>,
    b: Seq<Seq<char>>,
    pairs: Seq<(usize, usize)>,
) -> bool {
    &&& forall|k: int|
        0 <= k < pairs.len() ==> #[trigger] pairs[k].0 < a.len() && pairs[k].1 < b.len() && a[pairs[k].0 as int]
            == b[pairs[k].1 as int]
    &&& forall|k: int, l: int|
        0 <= k < l < pairs.len() ==> #[trigger] pairs[k].0 < #[trigger] pairs[l].0 && pairs[k].1
            < pairs[l].1
}

/// No common subsequence of `a` and `b` is longer than `lcs_len(a, b)`:
/// the length that `longest_common_subsequence` reaches is the greatest.
#[verifier::spinoff_prover]
pub proof fn lemma_lcs_longest(a: Seq<Seq<char>>, b: Seq<Seq<char>>, pairs: Seq<(usize, usize)>)
    requires
        common_subsequence(a, b, pairs),
    ensures
        pairs.len() <= lcs_len(a, b),
    decreases a.len() + b.len(),
{
    if pairs.len() == 0 {
        return ;
    }
    let n = a.len() as int;
    let m = b.len() as int;
    let z = pairs.len() - 1;
    let last = pairs[z];
    assert(pairs[z].0 < a.len());
    assert(pairs[z].1 < b.len());
    assert forall|k: int| 0 <= k < pairs.len() implies #[trigger] pairs[k].0 <= last.0 && pairs[k].1
        <= last.1 by {
        if k < pairs.len() - 1 {
            assert(pairs[k].0 < pairs[pairs.len() - 1].0);
        }
    }
    if a.last() == b.last() {
        let rest = pairs.drop_last();
        assert forall|k: int| 0 <= k < rest.len() implies #[trigger] rest[k].0 < n - 1 && rest[k].1
            < m - 1 by {
            assert(pairs[k].0 < pairs[pairs.len() - 1].0);
        }
        assert(common_subsequence(a.drop_last(), b.drop_last(), rest)) by {
            assert forall|k: int| 0 <= k < rest.len() implies #[trigger] rest[k].0 < a.drop_last().len()
                && rest[k].1 < b.drop_last().len() && a.drop_last()[rest[k].0 as int]
                == b.drop_last()[rest[k].1 as int] by {
                assert(rest[k] == pairs[k]);
                assert(pairs[k].0 < n - 1 && pairs[k].1 < m - 1);
                assert(a[pairs[k].0 as int] == b[pairs[k].1 as int]);
                assert(a.drop_last()[rest[k].0 as int] == a[pairs[k].0 as int]);
                assert(b.drop_last()[rest[k].1 as int] == b[pairs[k].1 as int]);
            }
            assert forall|k: int, l: int| 0 <= k < l < rest.len() implies #[trigger] rest[k].0
                < #[trigger] rest[l].0 && rest[k].1 < rest[l].1 by {
                assert(rest[k] == pairs[k] && rest[l] == pairs[l]);
            }
        }
        lemma_lcs_longest(a.drop_last(), b.drop_last(), rest);
    } else if last.0 < n - 1 {
        assert(common_subsequence(a.drop_last(), b, pairs)) by {
            assert forall|k: int| 0 <= k < pairs.len() implies #[trigger] pairs[k].0 < a.drop_last().len()
                && pairs[k].1 < b.len() && a.drop_last()[pairs[k].0 as int] == b[pairs[k].1 as int] by {
                assert(pairs[k].0 <= last.0);
            }
        }
        lemma_lcs_longest(a.drop_last(), b, pairs);
    } else {
        assert(last.1 < m - 1) by {
            if last.1 == m - 1 {
                assert(a[last.0 as int] == b[last.1 as int]);
            }
        }
        assert(common_subsequence(a, b.drop_last(), pairs)) by {
            assert forall|k: int| 0 <= k < pairs.len() implies #[trigger] pairs[k].0 < a.len()
                && pairs[k].1 < b.drop_last().len() && a[pairs[k].0 as int] == b.drop_last()[pairs[k].1 as int] by {
                assert(pairs[k].0 <= last.0 && pairs[k].1 <= last.1);
            }
        }
        lemma_lcs_longest(a, b.drop_last(), pairs);
    }
}

/// The length of a longest common subsequence of the first `i` lines of `a`
/// and the first `j` of `b`.
spec fn lcs_at(a: Seq<Seq<char>>, b: Seq<Seq<char>>, i: int, j: int) -> nat {
    lcs_len(a.take(i), b.take(j))
}

proof fn lemma_lcs_step(a: Seq<Seq<char>>, b: Seq<Seq<char>>, i: int, j: int)
    requires
        0 < i <= a.len(),
        0 < j <= b.len(),
    ensures
        a[i - 1] == b[j - 1] ==> lcs_at(a, b, i, j) == lcs_at(a, b, i - 1, j - 1) + 1,
        a[i - 1] != b[j - 1] ==> lcs_at(a, b, i, j) == if lcs_at(a, b, i - 1, j) >= lcs_at(
            a,
            b,
            i,
            j - 1,
        ) {
            lcs_at(a, b, i - 1, j)
        } else {
            lcs_at(a, b, i, j - 1)
        },
{
    assert(a.take(i).drop_last() =~= a.take(i - 1));
    assert(b.take(j).drop_last() =~= b.take(j - 1));
    assert(a.take(i).last() == a[i - 1]);
    assert(b.take(j).last() == b[j - 1]);
}

proof fn lemma_lcs_bound(a: Seq<Seq<char>>, b: Seq<Seq<char>>)
    ensures
        lcs_len(a, b) <= a.len(),
        lcs_len(a, b) <= b.len(),
    decreases a.len() + b.len(),
{
    if a.len() > 0 && b.len() > 0 {
        lemma_lcs_bound(a.drop_last(), b.drop_last());
        lemma_lcs_bound(a.drop_last(), b);
        lemma_lcs_bound(a, b.drop_last());
    }
}

/// The lines of `v`, as character sequences.
pub open spec fn line_views(v: Seq<String>) -> Seq<Seq<char>> {
    text::string_views(v)
}

/// A longest common subsequence of the lines `a` and `b`, as pairs of
/// positions in increasing order (by dynamic programming over prefixes, the
/// matches taken from the end).
#[verifier::spinoff_prover]
pub fn longest_common_subsequence(a: &Vec<String>, b: &Vec<String>) -> (r: Vec<(usize, usize)>)
    ensures
        common_subsequence(line_views(a@), line_views(b@), r@),
        r@.len() == lcs_len(line_views(a@), line_views(b@)),
{
    let ghost av = line_views(a@);
    let ghost bv = line_views(b@);
    let m = a.len();
    let n = b.len();
    let mut dp: Vec<Vec<usize>> = Vec::new();
    let mut row0: Vec<usize> = Vec::new();
    row0.push(0);
    let mut j: usize = 0;
    while j < n
        invariant
            j <= n,
            n == b.len(),
            row0@.len() == j + 1,
            forall|q: int| 0 <= q <= j ==> row0@[q] == 0,
        decreases n - j,
    {
        row0.push(0);
        j = j + 1;
    }
    proof {
        assert forall|q: int| 0 <= q <= n implies row0@[q] == lcs_at(av, bv, 0, q) by {
            assert(av.take(0).len() == 0);
        }
    }
    dp.push(row0);
    let mut i: usize = 0;
    while i < m
        invariant
            i <= m,
            m == a.len(),
            n == b.len(),
            av == line_views(a@),
            bv == line_views(b@),
            dp@.len() == i + 1,
            forall|p: int| 0 <= p <= i ==> #[trigger] dp@[p]@.len() == n + 1,
            forall|p: int, q: int|
                0 <= p <= i && 0 <= q <= n ==> #[trigger] dp@[p]@[q] == lcs_at(av, bv, p, q),
        decreases m - i,
    {
        let mut row: Vec<usize> = Vec::new();
        row.push(0);
        proof {
            assert(bv.take(0).len() == 0);
            assert(row@[0] == lcs_at(av, bv, i + 1, 0));
        }
        let mut j: usize = 0;
        while j < n
            invariant
                i < m,
                j <= n,
                m == a.len(),
                n == b.len(),
                av == line_views(a@),
                bv == line_views(b@),
                dp@.len() == i + 1,
                dp@[i as int]@.len() == n + 1,
                forall|q: int| 0 <= q <= n ==> #[trigger] dp@[i as int]@[q] == lcs_at(av, bv, i as int, q),
                row@.len() == j + 1,
                forall|q: int| 0 <= q <= j ==> #[trigger] row@[q] == lcs_at(av, bv, i + 1, q),
            decreases n - j,
        {
            proof {
                lemma_lcs_step(av, bv, i + 1, j + 1);
                lemma_lcs_bound(av.take(i as int), bv.take(j as int));
                assert(av[i as int] == a@[i as int]@);
                assert(bv[j as int] == b@[j as int]@);
            }
            let v = if a[i] == b[j] {
                dp[i][j] + 1
            } else {
                let up = dp[i][j + 1];
                let left = row[j];
                if up >= left {
                    up
                } else {
                    left
                }
            };
            row.push(v);
            j = j + 1;
        }
        dp.push(row);
        i = i + 1;
    }
    let mut acc: Vec<(usize, usize)> = Vec::new();
    let mut i = m;
    let mut j = n;
    while i > 0 && j > 0
        invariant
            i <= m,
            j <= n,
            m == a.len(),
            n == b.len(),
            av == line_views(a@),
            bv == line_views(b@),
            dp@.len() == m + 1,
            forall|p: int| 0 <= p <= m ==> #[trigger] dp@[p]@.len() == n + 1,
            forall|p: int, q: int|
                0 <= p <= m && 0 <= q <= n ==> #[trigger] dp@[p]@[q] == lcs_at(av, bv, p, q),
            acc@.len() + lcs_at(av, bv, i as int, j as int) == lcs_at(av, bv, m as int, n as int),
            forall|k: int|
                0 <= k < acc@.len() ==> i <= #[trigger] acc@[k].0 < m && j <= acc@[k].1 < n
                    && av[acc@[k].0 as int] == bv[acc@[k].1 as int],
            forall|k: int, l: int|
                0 <= k < l < acc@.len() ==> #[trigger] acc@[l].0 < #[trigger] acc@[k].0 && acc@[l].1
                    < acc@[k].1,
        decreases i + j,
    {
        proof {
            lemma_lcs_step(av, bv, i as int, j as int);
            assert(av[i - 1] == a@[i - 1]@);
            assert(bv[j - 1] == b@[j - 1]@);
        }
        if a[i - 1] == b[j - 1] {
            acc.push((i - 1, j - 1));
            i = i - 1;
            j = j - 1;
        } else if dp[i - 1][j] > dp[i][j - 1] {
            i = i - 1;
        } else {
            j = j - 1;
        }
    }
    proof {
        assert(lcs_at(av, bv, i as int, j as int) == 0) by {
            assert(av.take(i as int).len() == 0 || bv.take(j as int).len() == 0);
        }
        assert(av.take(m as int) =~= av);
        assert(bv.take(n as int) =~= bv);
    }
    let mut r: Vec<(usize, usize)> = Vec::new();
    let mut k = acc.len();
    while k > 0
        invariant
            k <= acc.len(),
            av == line_views(a@),
            bv == line_views(b@),
            forall|t: int|
                0 <= t < acc@.len() ==> #[trigger] acc@[t].0 < m && acc@[t].1 < n
                    && av[acc@[t].0 as int] == bv[acc@[t].1 as int],
            forall|t: int, u: int|
                0 <= t < u < acc@.len() ==> #[trigger] acc@[u].0 < #[trigger] acc@[t].0 && acc@[u].1
                    < acc@[t].1,
            m == a.len(),
            n == b.len(),
            r@.len() == acc@.len() - k,
            forall|t: int| 0 <= t < r@.len() ==> #[trigger] r@[t] == acc@[acc@.len() - 1 - t],
        decreases k,
    {
        k = k - 1;
        r.push(acc[k]);
    }
    proof {
        assert forall|t: int, u: int| 0 <= t < u < r@.len() implies #[trigger] r@[t].0
            < #[trigger] r@[u].0 && r@[t].1 < r@[u].1 by {
            let kt = acc@.len() - 1 - t;
            let ku = acc@.len() - 1 - u;
            assert(acc@[kt].0 < acc@[ku].0);
        }
        assert forall|t: int| 0 <= t < r@.len() implies #[trigger] r@[t].0 < av.len() && r@[t].1
            < bv.len() && av[r@[t].0 as int] == bv[r@[t].1 as int] by {
            let kt = acc@.len() - 1 - t;
            assert(r@[t] == acc@[kt]);
        }
    }
    r
}

// ---------------------------------------------------------------------------
// The diff shown for a patch
// ---------------------------------------------------------------------------

/// `(i, j)` is one of the matched pairs.
pub open spec fn in_pairs(lcs: Seq<(usize, usize)>, i: int, j: int) -> bool {
    exists|k: int| 0 <= k < lcs.len() && lcs[k].0 == i && lcs[k].1 == j
}

/// A line kept by the patch, as the diff shows it.
pub open spec fn kept_line(x: Seq<char>) -> Seq<char> {
    "  "@ + x
}

/// A line taken out by the patch, as the diff shows it.
pub open spec fn deleted_line(x: Seq<char>) -> Seq<char> {
    FORMAT_DIFF_DELETED@ + "- "@ + x + FORMAT_RESET@
}

/// A line put in by the patch, as the diff shows it.
pub open spec fn added_line(x: Seq<char>) -> Seq<char> {
    FORMAT_DIFF_ADDED@ + "+ "@ + x + FORMAT_RESET@
}

/// The marker of skipped kept lines.
pub open spec fn gap_line() -> Seq<char> {
    "  ..."@
}

/// The diff's end: the kept lines still held back, at most the last two,
/// after a gap marker where more were held.
pub open spec fn diff_finish(out: Seq<Seq<char>>, buf: Seq<Seq<char>>) -> Seq<Seq<char>> {
    if buf.len() > 2 {
        out.push(gap_line()) + buf.skip(buf.len() - 2)
    } else {
        out + buf
    }
}

/// The diff from position `i` of `a` and `j` of `b` on, with `out` written
/// and the kept lines `buf` held back: a matched pair of equal lines is held
/// back (beyond four held while not showing kept lines, only the last two
/// stay, after a gap marker where more than two lines came before); any
/// other line first writes out what was held, then shows a line of `a` as
/// taken out or else one of `b` as put in.
pub open spec fn diff_from(
    a: Seq<Seq<char>>,
    b: Seq<Seq<char>>,
    lcs: Seq<(usize, usize)>,
    i: int,
    j: int,
    out: Seq<Seq<char>>,
    buf: Seq<Seq<char>>,
    showing: bool,
) -> Seq<Seq<char>>
    decreases a.len() - i + b.len() - j,
{
    if i < 0 || j < 0 || i > a.len() || j > b.len() || (i >= a.len() && j >= b.len()) {
        diff_finish(out, buf)
    } else if i < a.len() && j < b.len() && a[i] == b[j] && in_pairs(lcs, i, j) {
        let buf1 = buf.push(kept_line(a[i]));
        let trim = !showing && buf1.len() > 4;
        let out2 = if trim && i > 2 {
            out.push(gap_line())
        } else {
            out
        };
        let buf2 = if trim {
            buf1.skip(buf1.len() - 2)
        } else {
            buf1
        };
        let showing2 = showing || buf2.len() >= 2;
        diff_from(a, b, lcs, i + 1, j + 1, out2, buf2, showing2)
    } else {
        let out1 = out + buf;
        if j >= b.len() || (i < a.len() && !in_pairs(lcs, i, j)) {
            diff_from(a, b, lcs, i + 1, j, out1.push(deleted_line(a[i])), seq![], false)
        } else if i >= a.len() || (j < b.len() && !in_pairs(lcs, i, j)) {
            diff_from(a, b, lcs, i, j + 1, out1.push(added_line(b[j])), seq![], false)
        } else {
            out1
        }
    }
}

/// The diff of `a` to `b` along the matched pairs `lcs`.
pub open spec fn diff_lines(a: Seq<Seq<char>>, b: Seq<Seq<char>>, lcs: Seq<(usize, usize)>) -> Seq<
    Seq<char>,
> {
    diff_from(a, b, lcs, 0, 0, seq![], seq![], false)
}

/// The lines `lo..hi` of `a`, as kept lines.
pub open spec fn kept_run(a: Seq<Seq<char>>, lo: int, hi: int) -> Seq<Seq<char>> {
    a.subrange(lo, hi).map_values(|x: Seq<char>| kept_line(x))
}

/// Context held back is always the unchanged lines directly before the
/// current position: where the held lines are the ones right before line
/// `i` of `a` and line `i` is kept, the diff goes on with held lines that
/// are again the ones right before line `i + 1` (the newest two at least,
/// or all of them while fewer), and with at most a gap marker written.
pub proof fn law_diff_context_is_adjacent(
    a: Seq<Seq<char>>,
    b: Seq<Seq<char>>,
    lcs: Seq<(usize, usize)>,
    i: int,
    j: int,
    out: Seq<Seq<char>>,
    buf: Seq<Seq<char>>,
    showing: bool,
)
    requires
        0 <= i < a.len(),
        0 <= j < b.len(),
        a[i] == b[j],
        in_pairs(lcs, i, j),
        buf.len() <= i,
        buf == kept_run(a, i - buf.len(), i),
    ensures
        exists|out2: Seq<Seq<char>>, buf2: Seq<Seq<char>>, showing2: bool|
            #![trigger diff_from(a, b, lcs, i + 1, j + 1, out2, buf2, showing2)]
            {
                &&& diff_from(a, b, lcs, i, j, out, buf, showing) == diff_from(
                    a,
                    b,
                    lcs,
                    i + 1,
                    j + 1,
                    out2,
                    buf2,
                    showing2,
                )
                &&& buf2.len() <= i + 1
                &&& buf2 == kept_run(a, i + 1 - buf2.len(), i + 1)
                &&& buf2.len() >= if buf.len() + 1 < 2 {
                    buf.len() + 1
                } else {
                    2
                }
                &&& (out2 == out || out2 == out.push(gap_line()))
            },
{
    let buf1 = buf.push(kept_line(a[i]));
    assert(buf1 =~= kept_run(a, i - buf.len(), i + 1));
    let trim = !showing && buf1.len() > 4;
    let out2 = if trim && i > 2 {
        out.push(gap_line())
    } else {
        out
    };
    let buf2 = if trim {
        buf1.skip(buf1.len() - 2)
    } else {
        buf1
    };
    if trim {
        assert(buf2 =~= kept_run(a, i - 1, i + 1));
    }
    let showing2 = showing || buf2.len() >= 2;
    assert(diff_from(a, b, lcs, i, j, out, buf, showing) == diff_from(
        a,
        b,
        lcs,
        i + 1,
        j + 1,
        out2,
        buf2,
        showing2,
    ));
}

/// At the end the diff closes with the unchanged lines directly before
/// the end of `a`, at most two of them, after a gap marker where more were
/// held.
pub proof fn law_diff_ends_with_last_context(
    a: Seq<Seq<char>>,
    b: Seq<Seq<char>>,
    lcs: Seq<(usize, usize)>,
    out: Seq<Seq<char>>,
    buf: Seq<Seq<char>>,
    showing: bool,
)
    requires
        buf.len() <= a.len(),
        buf == kept_run(a, a.len() - buf.len(), a.len() as int),
    ensures
        diff_from(a, b, lcs, a.len() as int, b.len() as int, out, buf, showing) == if buf.len() > 2 {
            out.push(gap_line()) + kept_run(a, a.len() - 2, a.len() as int)
        } else {
            out + kept_run(a, a.len() - buf.len(), a.len() as int)
        },
{
    if buf.len() > 2 {
        assert(buf.skip(buf.len() - 2) =~= kept_run(a, a.len() - 2, a.len() as int));
    }
}

/// At a changed line the held context is written out first, directly
/// followed by the change: the line of `a` taken out where it is not
/// matched (or `b` is done), else the line of `b` put in; then nothing is
/// held.
pub proof fn law_diff_change_follows_context(
    a: Seq<Seq<char>>,
    b: Seq<Seq<char>>,
    lcs: Seq<(usize, usize)>,
    i: int,
    j: int,
    out: Seq<Seq<char>>,
    buf: Seq<Seq<char>>,
    showing: bool,
)
    requires
        0 <= i <= a.len(),
        0 <= j <= b.len(),
        i < a.len() || j < b.len(),
        !(i < a.len() && j < b.len() && a[i] == b[j] && in_pairs(lcs, i, j)),
        i < a.len() && j < b.len() ==> !in_pairs(lcs, i, j),
    ensures
        j >= b.len() || i < a.len() ==> diff_from(a, b, lcs, i, j, out, buf, showing) == diff_from(
            a,
            b,
            lcs,
            i + 1,
            j,
            out + buf + seq![deleted_line(a[i])],
            seq![],
            false,
        ),
        i >= a.len() ==> diff_from(a, b, lcs, i, j, out, buf, showing) == diff_from(
            a,
            b,
            lcs,
            i,
            j + 1,
            out + buf + seq![added_line(b[j])],
            seq![],
            false,
        ),
{
    assert((out + buf).push(deleted_line(a[i])) =~= out + buf + seq![deleted_line(a[i])]);
    if i >= a.len() {
        assert((out + buf).push(added_line(b[j])) =~= out + buf + seq![added_line(b[j])]);
    }
}

/// Whether `(i, j)` is among the pairs.
fn has_pair(lcs: &Vec<(usize, usize)>, i: usize, j: usize) -> (r: bool)
    ensures
        r == in_pairs(lcs@, i as int, j as int),
{
    let mut k: usize = 0;
    while k < lcs.len()
        invariant
            k <= lcs.len(),
            forall|t: int| 0 <= t < k ==> !(lcs@[t].0 == i && lcs@[t].1 == j),
        decreases lcs.len() - k,
    {
        if lcs[k].0 == i && lcs[k].1 == j {
            return true;
        }
        k = k + 1;
    }
    false
}

fn string_of(parts: &Vec<char>) -> (r: String)
    ensures
        r@ == parts@,
{
    text::chars_to_string(parts)
}

/// Appends the held lines to `out` and empties them.
fn flush(out: &mut Vec<String>, buf: &mut Vec<String>)
    ensures
        text::string_views(final(out)@) == text::string_views(old(out)@) + text::string_views(old(buf)@),
        final(buf)@.len() == 0,
{
    let mut k: usize = 0;
    let ghost o = text::string_views(out@);
    while k < buf.len()
        invariant
            k <= buf.len(),
            text::string_views(out@) == o + text::string_views(buf@).take(k as int),
        decreases buf.len() - k,
    {
        let ghost before = text::string_views(out@);
        out.push(buf[k].clone());
        assert(text::string_views(out@) =~= before.push(buf@[k as int]@));
        assert(text::string_views(buf@).take(k + 1) =~= text::string_views(buf@).take(k as int).push(
            buf@[k as int]@,
        ));
        k = k + 1;
    }
    assert(text::string_views(buf@).take(buf.len() as int) =~= text::string_views(buf@));
    *buf = Vec::new();
}

/// The last two of the held lines.
fn last_two(buf: &Vec<String>) -> (r: Vec<String>)
    requires
        buf@.len() >= 2,
    ensures
        text::string_views(r@) == text::string_views(buf@).skip(buf@.len() - 2),
{
    let mut r: Vec<String> = Vec::new();
    r.push(buf[buf.len() - 2].clone());
    r.push(buf[buf.len() - 1].clone());
    assert(text::string_views(r@) =~= text::string_views(buf@).skip(buf@.len() - 2));
    r
}

/// The diff of the lines `a` to the lines `b` along the matched pairs
/// `lcs`, as shown for a patch: changed lines marked and coloured, kept
/// lines around them as context.
pub fn unified_diff(a: &Vec<String>, b: &Vec<String>, lcs: &Vec<(usize, usize)>) -> (r: Vec<String>)
    requires
        common_subsequence(line_views(a@), line_views(b@), lcs@),
    ensures
        text::string_views(r@) == diff_lines(line_views(a@), line_views(b@), lcs@),
{
    let ghost av = line_views(a@);
    let ghost bv = line_views(b@);
    let ghost goal = diff_lines(av, bv, lcs@);
    let mut out: Vec<String> = Vec::new();
    let mut buf: Vec<String> = Vec::new();
    let mut showing = false;
    let mut i: usize = 0;
    let mut j: usize = 0;
    assert(text::string_views(out@) =~= Seq::<Seq<char>>::empty());
    assert(text::string_views(buf@) =~= Seq::<Seq<char>>::empty());
    while i < a.len() || j < b.len()
        invariant
            i <= a.len(),
            j <= b.len(),
            av == line_views(a@),
            bv == line_views(b@),
            common_subsequence(av, bv, lcs@),
            goal == diff_lines(av, bv, lcs@),
            diff_from(
                av,
                bv,
                lcs@,
                i as int,
                j as int,
                text::string_views(out@),
                text::string_views(buf@),
                showing,
            ) == goal,
        decreases a.len() - i + b.len() - j,
    {
        let paired = i < a.len() && j < b.len() && has_pair(lcs, i, j);
        proof {
            if i < a.len() && j < b.len() {
                assert(av[i as int] == a@[i as int]@);
                assert(bv[j as int] == b@[j as int]@);
                if paired {
                    let k = choose|k: int| 0 <= k < lcs@.len() && lcs@[k].0 == i && lcs@[k].1 == j;
                    assert(av[lcs@[k].0 as int] == bv[lcs@[k].1 as int]);
                }
            }
        }
        if paired && a[i] == b[j] {
            let ghost o = text::string_views(out@);
            let ghost bf = text::string_views(buf@);
            let mut line = text::str_chars("  ");
            text::append_str(&mut line, a[i].as_str());
            buf.push(string_of(&line));
            assert(text::string_views(buf@) =~= bf.push(kept_line(av[i as int])));
            if !showing && buf.len() > 4 {
                if i > 2 {
                    out.push(string_of(&text::str_chars("  ...")));
                    assert(text::string_views(out@) =~= o.push(gap_line()));
                }
                buf = last_two(&buf);
            }
            if buf.len() >= 2 {
                showing = true;
            }
            i = i + 1;
            j = j + 1;
        } else {
            let ghost o = text::string_views(out@);
            let ghost bf = text::string_views(buf@);
            flush(&mut out, &mut buf);
            assert(text::string_views(buf@) =~= Seq::<Seq<char>>::empty());
            let ghost o1 = text::string_views(out@);
            if j >= b.len() || (i < a.len() && !paired) {
                let mut line = text::str_chars(FORMAT_DIFF_DELETED);
                text::append_str(&mut line, "- ");
                text::append_str(&mut line, a[i].as_str());
                text::append_str(&mut line, FORMAT_RESET);
                out.push(string_of(&line));
                assert(text::string_views(out@) =~= o1.push(deleted_line(av[i as int])));
                i = i + 1;
            } else {
                let mut line = text::str_chars(FORMAT_DIFF_ADDED);
                text::append_str(&mut line, "+ ");
                text::append_str(&mut line, b[j].as_str());
                text::append_str(&mut line, FORMAT_RESET);
                out.push(string_of(&line));
                assert(text::string_views(out@) =~= o1.push(added_line(bv[j as int])));
                j = j + 1;
            }
            showing = false;
        }
    }
    let ghost o = text::string_views(out@);
    let ghost bf = text::string_views(buf@);
    if buf.len() > 2 {
        out.push(string_of(&text::str_chars("  ...")));
        let tail = last_two(&buf);
        let mut tail_mut = tail;
        flush(&mut out, &mut tail_mut);
        assert(text::string_views(out@) =~= o.push(gap_line()) + bf.skip(bf.len() - 2));
    } else {
        flush(&mut out, &mut buf);
    }
    out
}

/// The diff shown for a patch of `before` to `after`, with its header and
/// line information, for the file named `path` whose text was `file`.
pub open spec fn patch_display_text(
    path: Seq<char>,
    file: Seq<char>,
    before: Seq<char>,
    after: Seq<char>,
    p: PatchApplied,
    diff: Seq<Seq<char>>,
) -> Seq<char> {
    let header = FORMAT_BOLD@ + "🔄 Patch: "@ + path + " (-"@ + decimal(lines(before).len()) + " lines, +"@
        + decimal(lines(after).len()) + " lines)"@ + FORMAT_RESET@;
    let info = FORMAT_BOLD@ + "@@ Lines "@ + decimal(p.start_line as nat) + "-"@ + decimal(
        p.end_line as nat,
    ) + " modified (file has "@ + decimal(lines(file).len()) + " lines total) @@"@ + FORMAT_RESET@;
    header + "\n"@ + info + "\n\n"@ + text::join(diff, "\n"@)
}

/// The display of an applied patch: a header, the lines it changed, and the
/// diff of the replaced lines to the new ones along a longest common
/// subsequence of them.
#[verifier::spinoff_prover]
#[verifier::rlimit(40)]
pub fn patch_display(path: &str, file: &str, before: &str, after: &str, p: &PatchApplied) -> (r: String)
    ensures
        exists|lcs: Seq<(usize, usize)>|
            common_subsequence(lines(before@), lines(after@), lcs) && lcs.len() == lcs_len(
                lines(before@),
                lines(after@),
            ) && r@ == patch_display_text(
                path@,
                file@,
                before@,
                after@,
                *p,
                diff_lines(lines(before@), lines(after@), lcs),
            ),
{
    let bl = text::line_strings(before);
    let al = text::line_strings(after);
    let lcs = longest_common_subsequence(&bl, &al);
    let diff = unified_diff(&bl, &al, &lcs);
    let mut m = text::str_chars(FORMAT_BOLD);
    text::append_str(&mut m, "🔄 Patch: ");
    text::append_str(&mut m, path);
    text::append_str(&mut m, " (-");
    proof {
        text::lemma_lines_len(before@);
        text::lemma_lines_len(after@);
        text::lemma_lines_len(file@);
    }
    text::append_chars(&mut m, &text::decimal_chars(bl.len() as u64));
    text::append_str(&mut m, " lines, +");
    text::append_chars(&mut m, &text::decimal_chars(al.len() as u64));
    text::append_str(&mut m, " lines)");
    text::append_str(&mut m, FORMAT_RESET);
    text::append_str(&mut m, "\n");
    text::append_str(&mut m, FORMAT_BOLD);
    text::append_str(&mut m, "@@ Lines ");
    text::append_chars(&mut m, &text::decimal_chars(p.start_line as u64));
    text::append_str(&mut m, "-");
    text::append_chars(&mut m, &text::decimal_chars(p.end_line as u64));
    text::append_str(&mut m, " modified (file has ");
    let total = text::count_lines(&text::str_chars(file));
    text::append_chars(&mut m, &text::decimal_chars(total as u64));
    text::append_str(&mut m, " lines total) @@");
    text::append_str(&mut m, FORMAT_RESET);
    text::append_str(&mut m, "\n\n");
    let mut dv: Vec<Vec<char>> = Vec::new();
    let mut k: usize = 0;
    while k < diff.len()
        invariant
            k <= diff.len(),
            text::views(dv@) == text::string_views(diff@).take(k as int),
        decreases diff.len() - k,
    {
        let ghost d0 = text::views(dv@);
        dv.push(text::str_chars(diff[k].as_str()));
        assert(text::views(dv@) =~= d0.push(diff@[k as int]@));
        assert(text::string_views(diff@).take(k + 1) =~= text::string_views(diff@).take(k as int).push(
            diff@[k as int]@,
        ));
        k = k + 1;
    }
    assert(text::string_views(diff@).take(diff.len() as int) =~= text::string_views(diff@));
    let joined = text::join_all(&dv, "\n");
    text::append_chars(&mut m, &joined);
    let r = text::chars_to_string(&m);
    assert(r@ == patch_display_text(
        path@,
        file@,
        before@,
        after@,
        *p,
        diff_lines(lines(before@), lines(after@), lcs@),
    ));
    r
}

/// Whether the search for a second occurrence of `before` in `file` would
/// cut into a character (see `search_splits_char`).
pub fn patch_search_splits(file: &str, before: &str) -> (r: bool)
    ensures
        r == search_splits_char(file@, before@),
{
    let fv = text::str_chars(file);
    let bv = text::str_chars(before);
    match text::find_in(&fv, &bv, 0) {
        Some(i) => i >= fv.len() || text::char_len_utf8(fv[i]) != 1,
        None => false,
    }
}

} // verus!
