//! Character-level text handling: whitespace, trimming, tokenising,
//! line splitting, joining, searching and number parsing, each with a
//! specification over `Seq<char>`.
use vstd::prelude::*;

verus! {

// ---------------------------------------------------------------------------
// Characters
// ---------------------------------------------------------------------------

/// The Unicode `White_Space` property, as `char::is_whitespace` uses it.
pub open spec fn is_ws(c: char) -> bool {
    let u = c as u32;
    (9 <= u && u <= 13) || u == 32 || u == 0x85 || u == 0xA0 || u == 0x1680 || (0x2000 <= u
        && u <= 0x200A) || u == 0x2028 || u == 0x2029 || u == 0x202F || u == 0x205F || u
        == 0x3000
}

/// Whether `c` is white space.
pub fn is_whitespace(c: char) -> (r: bool)
    ensures
        r == is_ws(c),
{
    let u = c as u32;
    (9 <= u && u <= 13) || u == 32 || u == 0x85 || u == 0xA0 || u == 0x1680 || (0x2000 <= u
        && u <= 0x200A) || u == 0x2028 || u == 0x2029 || u == 0x202F || u == 0x205F || u
        == 0x3000
}

/// Number of bytes of the UTF-8 encoding of `c`.
pub open spec fn char_bytes(c: char) -> nat {
    let u = c as u32;
    if u < 0x80 {
        1
    } else if u < 0x800 {
        2
    } else if u < 0x10000 {
        3
    } else {
        4
    }
}

/// Number of bytes of the UTF-8 encoding of `s`.
pub open spec fn utf8_len(s: Seq<char>) -> nat
    decreases s.len(),
{
    if s.len() == 0 {
        0
    } else {
        utf8_len(s.drop_last()) + char_bytes(s.last())
    }
}

/// The byte length of the UTF-8 encoding of `c`.
pub fn char_len_utf8(c: char) -> (r: usize)
    ensures
        r == char_bytes(c),
        1 <= r <= 4,
{
    let u = c as u32;
    if u < 0x80 {
        1
    } else if u < 0x800 {
        2
    } else if u < 0x10000 {
        3
    } else {
        4
    }
}

pub proof fn lemma_utf8_len_take(s: Seq<char>, i: int)
    requires
        0 <= i < s.len(),
    ensures
        utf8_len(s.take(i + 1)) == utf8_len(s.take(i)) + char_bytes(s[i]),
{
    assert(s.take(i + 1).drop_last() =~= s.take(i));
}

pub proof fn lemma_utf8_len_bound(s: Seq<char>)
    ensures
        utf8_len(s) <= 4 * s.len(),
    decreases s.len(),
{
    if s.len() > 0 {
        lemma_utf8_len_bound(s.drop_last());
    }
}

pub proof fn lemma_utf8_len_mono(s: Seq<char>, i: int, j: int)
    requires
        0 <= i <= j <= s.len(),
    ensures
        utf8_len(s.take(i)) <= utf8_len(s.take(j)),
    decreases j - i,
{
    if i < j {
        lemma_utf8_len_mono(s, i, j - 1);
        lemma_utf8_len_take(s, j - 1);
    }
}

pub proof fn lemma_utf8_len_concat(a: Seq<char>, b: Seq<char>)
    ensures
        utf8_len(a + b) == utf8_len(a) + utf8_len(b),
    decreases b.len(),
{
    if b.len() == 0 {
        assert(a + b =~= a);
    } else {
        assert((a + b).drop_last() =~= a + b.drop_last());
        lemma_utf8_len_concat(a, b.drop_last());
    }
}

/// Byte length of the UTF-8 encoding of `s`, where it fits in `usize`.
pub fn utf8_length(s: &Vec<char>) -> (r: Option<usize>)
    ensures
        r matches Some(n) ==> n == utf8_len(s@),
        r is None ==> utf8_len(s@) > usize::MAX,
{
    let mut n: usize = 0;
    let mut i: usize = 0;
    while i < s.len()
        invariant
            i <= s.len(),
            n == utf8_len(s@.take(i as int)),
        decreases s.len() - i,
    {
        proof {
            lemma_utf8_len_take(s@, i as int);
        }
        let b = char_len_utf8(s[i]);
        if n > usize::MAX - b {
            proof {
                lemma_utf8_len_mono(s@, i as int + 1, s@.len() as int);
                assert(s@.take(s@.len() as int) =~= s@);
            }
            return None;
        }
        n = n + b;
        i = i + 1;
    }
    assert(s@.take(s@.len() as int) =~= s@);
    Some(n)
}

/// Each character takes at least one byte, so byte offsets grow strictly.
pub proof fn lemma_utf8_len_strict(s: Seq<char>, i: int, j: int)
    requires
        0 <= i < j <= s.len(),
    ensures
        utf8_len(s.take(i)) < utf8_len(s.take(j)),
{
    lemma_utf8_len_mono(s, i + 1, j);
    lemma_utf8_len_take(s, i);
}

/// Byte `p` of the UTF-8 encoding of `s` starts a character, or is its end.
pub open spec fn is_char_boundary(s: Seq<char>, p: int) -> bool {
    exists|k: int| 0 <= k <= s.len() && #[trigger] utf8_len(s.take(k)) == p
}

/// The index of the character that starts at byte `p` of `s`.
pub open spec fn boundary_index(s: Seq<char>, p: int) -> int {
    choose|k: int| 0 <= k <= s.len() && #[trigger] utf8_len(s.take(k)) == p
}

/// The character index of a byte boundary is the only one with its offset.
pub proof fn lemma_boundary_index(s: Seq<char>, k: int)
    requires
        0 <= k <= s.len(),
    ensures
        is_char_boundary(s, utf8_len(s.take(k)) as int),
        boundary_index(s, utf8_len(s.take(k)) as int) == k,
{
    let p = utf8_len(s.take(k)) as int;
    assert(is_char_boundary(s, p));
    let m = boundary_index(s, p);
    if m < k {
        lemma_utf8_len_strict(s, m, k);
    } else if m > k {
        lemma_utf8_len_strict(s, k, m);
    }
}

/// The encoding that `str` holds has the length `utf8_len` gives.
pub proof fn lemma_encode_utf8_len(s: Seq<char>)
    ensures
        vstd::utf8::encode_utf8(s).len() == utf8_len(s),
    decreases s.len(),
{
    if s.len() > 0 {
        lemma_encode_utf8_len(s.drop_first());
        assert(s =~= seq![s[0]] + s.drop_first());
        lemma_utf8_len_concat(seq![s[0]], s.drop_first());
        assert(seq![s[0]].drop_last() =~= Seq::<char>::empty());
        assert(utf8_len(Seq::<char>::empty()) == 0);
        assert(utf8_len(seq![s[0]]) == char_bytes(s[0]));
        vstd::utf8::char_is_scalar(s[0]);
        let u = s[0] as u32;
        assert(vstd::utf8::encode_scalar(u).len() == char_bytes(s[0]));
        assert(vstd::utf8::encode_utf8(s) == vstd::utf8::encode_scalar(u) + vstd::utf8::encode_utf8(
            s.drop_first(),
        ));
    }
}

/// The byte length of `s`.
pub fn byte_len(s: &String) -> (n: usize)
    requires
        utf8_len(s@) <= usize::MAX,
    ensures
        n == utf8_len(s@),
{
    proof {
        lemma_encode_utf8_len(s@);
    }
    s.as_str().len()
}

/// The index of the character that starts at byte `p` of `s`, if one does.
pub fn char_index_at_byte(s: &Vec<char>, p: usize) -> (r: Option<usize>)
    ensures
        r matches Some(k) ==> k <= s.len() && utf8_len(s@.take(k as int)) == p && boundary_index(
            s@,
            p as int,
        ) == k,
        r is None <==> !is_char_boundary(s@, p as int),
{
    let mut k: usize = 0;
    let mut off: usize = 0;
    while k < s.len() && off < p
        invariant
            k <= s.len(),
            off <= p,
            off == utf8_len(s@.take(k as int)),
        decreases s.len() - k,
    {
        proof {
            lemma_utf8_len_take(s@, k as int);
        }
        let c = char_len_utf8(s[k]);
        if c > p - off {
            proof {
                assert forall|m: int| 0 <= m <= s@.len() implies #[trigger] utf8_len(s@.take(m))
                    != p by {
                    if m <= k {
                        if m < k {
                            lemma_utf8_len_strict(s@, m, k as int);
                        }
                    } else {
                        lemma_utf8_len_mono(s@, k + 1, m);
                    }
                }
            }
            return None;
        }
        off = off + c;
        k = k + 1;
    }
    if off == p {
        proof {
            lemma_boundary_index(s@, k as int);
        }
        Some(k)
    } else {
        proof {
            assert(k == s.len());
            assert forall|m: int| 0 <= m <= s@.len() implies #[trigger] utf8_len(s@.take(m)) != p by {
                if m < k {
                    lemma_utf8_len_strict(s@, m, k as int);
                }
            }
        }
        None
    }
}

// ---------------------------------------------------------------------------
// Conversions between strings and character vectors
// ---------------------------------------------------------------------------

/// The character sequences held by a sequence of vectors.
pub open spec fn views(v: Seq<Vec<char>>) -> Seq<Seq<char>> {
    v.map_values(|x: Vec<char>| x@)
}

/// The character sequences held by a sequence of strings.
pub open spec fn string_views(v: Seq<String>) -> Seq<Seq<char>> {
    v.map_values(|x: String| x@)
}

/// The characters of a string slice, in order.
pub fn str_chars(s: &str) -> (r: Vec<char>)
    ensures
        r@ == s@,
{
    let mut r: Vec<char> = Vec::new();
    for c in it: s.chars()
        invariant
            it.seq() == s@,
            r@ == it.seq().take(it.index()),
    {
        r.push(c);
    }
    r
}

/// An empty list of strings.
pub fn no_strings() -> (r: Vec<String>)
    ensures
        string_views(r@) == Seq::<Seq<char>>::empty(),
{
    let r: Vec<String> = Vec::new();
    assert(string_views(r@) =~= Seq::<Seq<char>>::empty());
    r
}

/// Collects characters into a `String` (`FromIterator<char>` for `String`).
#[verifier::external_body]
pub(crate) fn chars_to_string(v: &Vec<char>) -> (s: String)
    ensures
        s@ == v@,
{
    v.iter().collect()
}

/// A copy of `v[a..b]`.
pub fn copy_range(v: &Vec<char>, a: usize, b: usize) -> (r: Vec<char>)
    requires
        a <= b <= v.len(),
    ensures
        r@ == v@.subrange(a as int, b as int),
{
    let mut r: Vec<char> = Vec::new();
    let mut i = a;
    while i < b
        invariant
            a <= i <= b <= v.len(),
            r@ == v@.subrange(a as int, i as int),
        decreases b - i,
    {
        r.push(v[i]);
        i = i + 1;
    }
    r
}

/// `a` followed by `b`.
pub fn concat(a: &Vec<char>, b: &Vec<char>) -> (r: Vec<char>)
    ensures
        r@ == a@ + b@,
{
    let mut r = a.clone();
    let mut i: usize = 0;
    while i < b.len()
        invariant
            i <= b.len(),
            r@ == a@ + b@.take(i as int),
        decreases b.len() - i,
    {
        r.push(b[i]);
        i = i + 1;
    }
    assert(b@.take(b@.len() as int) =~= b@);
    r
}

/// Appends `b` to `a`.
pub fn append_chars(a: &mut Vec<char>, b: &Vec<char>)
    ensures
        final(a)@ == old(a)@ + b@,
{
    let mut i: usize = 0;
    while i < b.len()
        invariant
            i <= b.len(),
            a@ == old(a)@ + b@.take(i as int),
        decreases b.len() - i,
    {
        a.push(b[i]);
        i = i + 1;
    }
    assert(b@.take(b@.len() as int) =~= b@);
}

/// Appends the characters of `b` to `a`.
pub fn append_str(a: &mut Vec<char>, b: &str)
    ensures
        final(a)@ == old(a)@ + b@,
{
    let v = str_chars(b);
    append_chars(a, &v);
}

/// Character-wise equality of two vectors.
pub fn chars_eq(a: &Vec<char>, b: &Vec<char>) -> (r: bool)
    ensures
        r == (a@ == b@),
{
    if a.len() != b.len() {
        return false;
    }
    let mut i: usize = 0;
    while i < a.len()
        invariant
            i <= a.len() == b.len(),
            forall|k: int| 0 <= k < i ==> a@[k] == b@[k],
        decreases a.len() - i,
    {
        if a[i] != b[i] {
            return false;
        }
        i = i + 1;
    }
    assert(a@ =~= b@);
    true
}

/// Whether `a` holds exactly the characters of `b`.
pub fn chars_eq_str(a: &Vec<char>, b: &str) -> (r: bool)
    ensures
        r == (a@ == b@),
{
    let v = str_chars(b);
    chars_eq(a, &v)
}

// ---------------------------------------------------------------------------
// Prefixes and suffixes
// ---------------------------------------------------------------------------

pub open spec fn starts_with(s: Seq<char>, p: Seq<char>) -> bool {
    p.len() <= s.len() && s.take(p.len() as int) == p
}

pub open spec fn ends_with(s: Seq<char>, p: Seq<char>) -> bool {
    p.len() <= s.len() && s.skip(s.len() - p.len()) == p
}

/// Whether `s` begins with `p`.
pub fn has_prefix(s: &Vec<char>, p: &Vec<char>) -> (r: bool)
    ensures
        r == starts_with(s@, p@),
{
    if p.len() > s.len() {
        return false;
    }
    let mut i: usize = 0;
    while i < p.len()
        invariant
            i <= p.len() <= s.len(),
            forall|k: int| 0 <= k < i ==> s@[k] == p@[k],
        decreases p.len() - i,
    {
        if s[i] != p[i] {
            assert(s@.take(p@.len() as int)[i as int] != p@[i as int]);
            return false;
        }
        i = i + 1;
    }
    assert(s@.take(p@.len() as int) =~= p@);
    true
}

/// Whether `s` begins with the characters of `p`.
pub fn has_prefix_str(s: &Vec<char>, p: &str) -> (r: bool)
    ensures
        r == starts_with(s@, p@),
{
    let v = str_chars(p);
    has_prefix(s, &v)
}

/// Whether `s` ends with `p`.
pub fn has_suffix(s: &Vec<char>, p: &Vec<char>) -> (r: bool)
    ensures
        r == ends_with(s@, p@),
{
    if p.len() > s.len() {
        return false;
    }
    let off = s.len() - p.len();
    let mut i: usize = 0;
    while i < p.len()
        invariant
            i <= p.len() <= s.len(),
            off == s.len() - p.len(),
            forall|k: int| 0 <= k < i ==> s@[off + k] == p@[k],
        decreases p.len() - i,
    {
        if s[off + i] != p[i] {
            assert(s@.skip(off as int)[i as int] != p@[i as int]);
            return false;
        }
        i = i + 1;
    }
    assert(s@.skip(off as int) =~= p@);
    true
}

/// Whether `s` ends with the characters of `p`.
pub fn has_suffix_str(s: &Vec<char>, p: &str) -> (r: bool)
    ensures
        r == ends_with(s@, p@),
{
    let v = str_chars(p);
    has_suffix(s, &v)
}

/// `s` without its prefix `p`, where `s` begins with `p` (`str::strip_prefix`).
pub fn strip_prefix_str(s: &Vec<char>, p: &str) -> (r: Option<Vec<char>>)
    ensures
        r is Some <==> starts_with(s@, p@),
        r matches Some(t) ==> t@ == s@.skip(p@.len() as int),
{
    if has_prefix_str(s, p) {
        let n = str_chars(p).len();
        Some(copy_range(s, n, s.len()))
    } else {
        None
    }
}

/// `s` with every leading `c` removed (`str::trim_start_matches` with a char).
pub open spec fn trim_start_char(s: Seq<char>, c: char) -> Seq<char>
    decreases s.len(),
{
    if s.len() > 0 && s[0] == c {
        trim_start_char(s.drop_first(), c)
    } else {
        s
    }
}

pub proof fn lemma_trim_start_char_skip(s: Seq<char>, c: char, i: int)
    requires
        0 <= i <= s.len(),
        forall|k: int| 0 <= k < i ==> s[k] == c,
    ensures
        trim_start_char(s, c) == trim_start_char(s.skip(i), c),
    decreases i,
{
    if i == 0 {
        assert(s.skip(0) =~= s);
    } else {
        lemma_trim_start_char_skip(s.drop_first(), c, i - 1);
        assert(s.drop_first().skip(i - 1) =~= s.skip(i));
    }
}

/// `s` with every leading `c` removed.
pub fn trim_start_matches(s: &Vec<char>, c: char) -> (r: Vec<char>)
    ensures
        r@ == trim_start_char(s@, c),
{
    let mut i: usize = 0;
    while i < s.len() && s[i] == c
        invariant
            i <= s.len(),
            forall|k: int| 0 <= k < i ==> s@[k] == c,
        decreases s.len() - i,
    {
        i = i + 1;
    }
    proof {
        lemma_trim_start_char_skip(s@, c, i as int);
    }
    copy_range(s, i, s.len())
}

// ---------------------------------------------------------------------------
// Trimming white space
// ---------------------------------------------------------------------------

/// `s` without leading white space.
pub open spec fn trim_start(s: Seq<char>) -> Seq<char>
    decreases s.len(),
{
    if s.len() > 0 && is_ws(s[0]) {
        trim_start(s.drop_first())
    } else {
        s
    }
}

/// `s` without trailing white space.
pub open spec fn trim_end(s: Seq<char>) -> Seq<char>
    decreases s.len(),
{
    if s.len() > 0 && is_ws(s.last()) {
        trim_end(s.drop_last())
    } else {
        s
    }
}

/// `s` without leading and trailing white space (`str::trim`).
pub open spec fn trim(s: Seq<char>) -> Seq<char> {
    trim_end(trim_start(s))
}

pub proof fn lemma_trim_start_skip(s: Seq<char>, i: int)
    requires
        0 <= i <= s.len(),
        forall|k: int| 0 <= k < i ==> is_ws(s[k]),
    ensures
        trim_start(s) == trim_start(s.skip(i)),
    decreases i,
{
    if i == 0 {
        assert(s.skip(0) =~= s);
    } else {
        lemma_trim_start_skip(s.drop_first(), i - 1);
        assert(s.drop_first().skip(i - 1) =~= s.skip(i));
    }
}

pub proof fn lemma_trim_end_take(s: Seq<char>, j: int)
    requires
        0 <= j <= s.len(),
        forall|k: int| j <= k < s.len() ==> is_ws(s[k]),
    ensures
        trim_end(s) == trim_end(s.take(j)),
    decreases s.len() - j,
{
    if j == s.len() {
        assert(s.take(j) =~= s);
    } else {
        lemma_trim_end_take(s.drop_last(), j);
        assert(s.drop_last().take(j) =~= s.take(j));
    }
}

/// Start and end of the trimmed part of `s`.
pub fn trim_bounds(s: &Vec<char>) -> (r: (usize, usize))
    ensures
        r.0 <= r.1 <= s.len(),
        s@.subrange(r.0 as int, r.1 as int) == trim(s@),
{
    let mut i: usize = 0;
    while i < s.len() && is_whitespace(s[i])
        invariant
            i <= s.len(),
            forall|k: int| 0 <= k < i ==> is_ws(s@[k]),
        decreases s.len() - i,
    {
        i = i + 1;
    }
    let mut j: usize = s.len();
    while j > i && is_whitespace(s[j - 1])
        invariant
            i <= j <= s.len(),
            forall|k: int| j <= k < s.len() ==> is_ws(s@[k]),
        decreases j,
    {
        j = j - 1;
    }
    proof {
        lemma_trim_start_skip(s@, i as int);
        let t = s@.skip(i as int);
        if i < s.len() {
            assert(!is_ws(t[0]));
        }
        assert(trim_start(t) == t);
        lemma_trim_end_take(t, (j - i) as int);
        let u = t.take((j - i) as int);
        if j > i {
            assert(u.last() == s@[j - 1]);
        }
        assert(trim_end(u) == u);
        assert(u =~= s@.subrange(i as int, j as int));
    }
    (i, j)
}

/// `s` without leading and trailing white space.
pub fn trim_chars(s: &Vec<char>) -> (r: Vec<char>)
    ensures
        r@ == trim(s@),
{
    let (a, b) = trim_bounds(s);
    copy_range(s, a, b)
}

// ---------------------------------------------------------------------------
// Splitting
// ---------------------------------------------------------------------------

/// Left-to-right scan of `s` for `split_whitespace`: the words completed so
/// far and the word being read.
pub open spec fn words_scan(s: Seq<char>) -> (Seq<Seq<char>>, Seq<char>)
    decreases s.len(),
{
    if s.len() == 0 {
        (seq![], seq![])
    } else {
        let (done, cur) = words_scan(s.drop_last());
        let c = s.last();
        if is_ws(c) {
            if cur.len() > 0 {
                (done.push(cur), seq![])
            } else {
                (done, seq![])
            }
        } else {
            (done, cur.push(c))
        }
    }
}

/// The maximal runs of non-white-space characters of `s`, in order
/// (`str::split_whitespace`).
pub open spec fn words(s: Seq<char>) -> Seq<Seq<char>> {
    let (done, cur) = words_scan(s);
    if cur.len() > 0 {
        done.push(cur)
    } else {
        done
    }
}

/// The white-space separated words of `s`.
pub fn split_whitespace(s: &Vec<char>) -> (r: Vec<Vec<char>>)
    ensures
        views(r@) == words(s@),
{
    let mut done: Vec<Vec<char>> = Vec::new();
    let mut cur: Vec<char> = Vec::new();
    let mut i: usize = 0;
    while i < s.len()
        invariant
            i <= s.len(),
            (views(done@), cur@) == words_scan(s@.take(i as int)),
        decreases s.len() - i,
    {
        assert(s@.take(i as int + 1).drop_last() =~= s@.take(i as int));
        let c = s[i];
        if is_whitespace(c) {
            if cur.len() > 0 {
                let w = cur;
                let ghost d = views(done@);
                done.push(w);
                cur = Vec::new();
                assert(views(done@) =~= d.push(w@));
            } else {
                cur = Vec::new();
            }
        } else {
            cur.push(c);
        }
        i = i + 1;
    }
    assert(s@.take(s@.len() as int) =~= s@);
    if cur.len() > 0 {
        let ghost d = views(done@);
        let ghost c = cur@;
        done.push(cur);
        assert(views(done@) =~= d.push(c));
    }
    done
}

/// Left-to-right scan of `s` for splitting at `sep`.
pub open spec fn split_scan(s: Seq<char>, sep: char) -> (Seq<Seq<char>>, Seq<char>)
    decreases s.len(),
{
    if s.len() == 0 {
        (seq![], seq![])
    } else {
        let (done, cur) = split_scan(s.drop_last(), sep);
        let c = s.last();
        if c == sep {
            (done.push(cur), seq![])
        } else {
            (done, cur.push(c))
        }
    }
}

/// The pieces of `s` between occurrences of `sep` (`str::split` with a char).
pub open spec fn split_on(s: Seq<char>, sep: char) -> Seq<Seq<char>> {
    let (done, cur) = split_scan(s, sep);
    done.push(cur)
}

/// The pieces of `s` between occurrences of `sep`.
pub fn split_char(s: &Vec<char>, sep: char) -> (r: Vec<Vec<char>>)
    ensures
        views(r@) == split_on(s@, sep),
        r.len() >= 1,
{
    let mut done: Vec<Vec<char>> = Vec::new();
    let mut cur: Vec<char> = Vec::new();
    let mut i: usize = 0;
    while i < s.len()
        invariant
            i <= s.len(),
            (views(done@), cur@) == split_scan(s@.take(i as int), sep),
        decreases s.len() - i,
    {
        assert(s@.take(i as int + 1).drop_last() =~= s@.take(i as int));
        let c = s[i];
        if c == sep {
            let w = cur;
            let ghost d = views(done@);
            done.push(w);
            cur = Vec::new();
            assert(views(done@) =~= d.push(w@));
        } else {
            cur.push(c);
        }
        i = i + 1;
    }
    assert(s@.take(s@.len() as int) =~= s@);
    let ghost d = views(done@);
    let ghost c = cur@;
    done.push(cur);
    assert(views(done@) =~= d.push(c));
    done
}

/// `s` without one trailing carriage return.
pub open spec fn strip_cr(s: Seq<char>) -> Seq<char> {
    if s.len() > 0 && s.last() == '\r' {
        s.drop_last()
    } else {
        s
    }
}

/// Left-to-right scan of `s` for `str::lines`.
pub open spec fn lines_scan(s: Seq<char>) -> (Seq<Seq<char>>, Seq<char>)
    decreases s.len(),
{
    if s.len() == 0 {
        (seq![], seq![])
    } else {
        let (done, cur) = lines_scan(s.drop_last());
        let c = s.last();
        if c == '\n' {
            (done.push(strip_cr(cur)), seq![])
        } else {
            (done, cur.push(c))
        }
    }
}

/// The lines of `s` (`str::lines`): split at `\n`, a `\r` before the `\n`
/// dropped, and no empty last line after a final line ending.
pub open spec fn lines(s: Seq<char>) -> Seq<Seq<char>> {
    let (done, cur) = lines_scan(s);
    if cur.len() > 0 {
        done.push(cur)
    } else {
        done
    }
}

/// A scan has no more lines and pending characters than the text has
/// characters.
pub proof fn lemma_lines_scan_len(s: Seq<char>)
    ensures
        lines_scan(s).0.len() + lines_scan(s).1.len() <= s.len(),
        s.len() > 0 ==> lines_scan(s).0.len() + lines_scan(s).1.len() > 0,
    decreases s.len(),
{
    if s.len() > 0 {
        lemma_lines_scan_len(s.drop_last());
    }
}

/// A text has at most as many lines as characters, and at least one line
/// when it is not empty.
pub proof fn lemma_lines_len(s: Seq<char>)
    ensures
        lines(s).len() <= s.len(),
        s.len() > 0 ==> lines(s).len() >= 1,
{
    lemma_lines_scan_len(s);
}

/// The number of lines of `s` (`str::lines().count()`).
pub fn count_lines(s: &Vec<char>) -> (r: usize)
    ensures
        r == lines(s@).len(),
{
    let v = split_lines(s);
    v.len()
}

/// The lines of `s`.
pub fn split_lines(s: &Vec<char>) -> (r: Vec<Vec<char>>)
    ensures
        views(r@) == lines(s@),
{
    let mut done: Vec<Vec<char>> = Vec::new();
    let mut cur: Vec<char> = Vec::new();
    let mut i: usize = 0;
    while i < s.len()
        invariant
            i <= s.len(),
            (views(done@), cur@) == lines_scan(s@.take(i as int)),
        decreases s.len() - i,
    {
        assert(s@.take(i as int + 1).drop_last() =~= s@.take(i as int));
        let c = s[i];
        if c == '\n' {
            let mut w = cur;
            if w.len() > 0 && w[w.len() - 1] == '\r' {
                w.pop();
            }
            let ghost d = views(done@);
            done.push(w);
            cur = Vec::new();
            assert(views(done@) =~= d.push(w@));
        } else {
            cur.push(c);
        }
        i = i + 1;
    }
    assert(s@.take(s@.len() as int) =~= s@);
    if cur.len() > 0 {
        let ghost d = views(done@);
        let ghost c = cur@;
        done.push(cur);
        assert(views(done@) =~= d.push(c));
    }
    done
}

/// The lines of `content` as strings.
pub fn line_strings(content: &str) -> (r: Vec<String>)
    ensures
        string_views(r@) == lines(content@),
{
    let ls = split_lines(&str_chars(content));
    let mut r: Vec<String> = Vec::new();
    let mut i: usize = 0;
    while i < ls.len()
        invariant
            i <= ls.len(),
            views(ls@) == lines(content@),
            string_views(r@) == views(ls@).take(i as int),
        decreases ls.len() - i,
    {
        let ghost before = r@;
        r.push(chars_to_string(&ls[i]));
        assert(string_views(r@) =~= string_views(before).push(ls@[i as int]@));
        assert(views(ls@).take(i + 1) =~= views(ls@).take(i as int).push(
            ls@[i as int]@,
        ));
        i = i + 1;
    }
    assert(views(ls@).take(ls.len() as int) =~= views(ls@));
    r
}

// ---------------------------------------------------------------------------
// Joining
// ---------------------------------------------------------------------------

/// The pieces in order with `sep` between neighbours (`[T]::join`).
pub open spec fn join(parts: Seq<Seq<char>>, sep: Seq<char>) -> Seq<char>
    decreases parts.len(),
{
    if parts.len() == 0 {
        seq![]
    } else if parts.len() == 1 {
        parts[0]
    } else {
        join(parts.drop_last(), sep) + sep + parts.last()
    }
}

/// `parts[from..]` joined with `sep`.
pub fn join_from(parts: &Vec<Vec<char>>, from: usize, sep: &str) -> (r: Vec<char>)
    requires
        from <= parts.len(),
    ensures
        r@ == join(views(parts@).skip(from as int), sep@),
{
    let sepv = str_chars(sep);
    let mut r: Vec<char> = Vec::new();
    let mut i = from;
    while i < parts.len()
        invariant
            from <= i <= parts.len(),
            sepv@ == sep@,
            r@ == join(views(parts@).subrange(from as int, i as int), sep@),
        decreases parts.len() - i,
    {
        let ghost pre = views(parts@).subrange(from as int, i as int);
        let ghost now = views(parts@).subrange(from as int, i as int + 1);
        assert(now.drop_last() =~= pre);
        if i > from {
            append_chars(&mut r, &sepv);
        } else {
            assert(now.len() == 1);
        }
        append_chars(&mut r, &parts[i]);
        i = i + 1;
    }
    assert(views(parts@).subrange(from as int, parts.len() as int) =~= views(parts@).skip(
        from as int,
    ));
    r
}

/// `parts` joined with `sep`.
pub fn join_all(parts: &Vec<Vec<char>>, sep: &str) -> (r: Vec<char>)
    ensures
        r@ == join(views(parts@), sep@),
{
    let r = join_from(parts, 0, sep);
    assert(views(parts@).skip(0) =~= views(parts@));
    r
}

// ---------------------------------------------------------------------------
// Searching
// ---------------------------------------------------------------------------

/// `n` occurs in `h` starting at index `i`.
pub open spec fn occurs_at(h: Seq<char>, n: Seq<char>, i: int) -> bool {
    0 <= i && i + n.len() <= h.len() && h.subrange(i, i + n.len()) == n
}

/// `n` occurs in `h` at `i`, and nowhere before `i` (`str::find`).
pub open spec fn first_occurrence(h: Seq<char>, n: Seq<char>, i: int) -> bool {
    occurs_at(h, n, i) && forall|j: int| 0 <= j < i ==> !occurs_at(h, n, j)
}

/// Whether `n` occurs at index `i` of `h`.
pub fn matches_at(h: &Vec<char>, n: &Vec<char>, i: usize) -> (r: bool)
    ensures
        r == occurs_at(h@, n@, i as int),
{
    if i > h.len() || n.len() > h.len() - i {
        return false;
    }
    let mut k: usize = 0;
    while k < n.len()
        invariant
            i + n.len() <= h.len(),
            k <= n.len(),
            forall|m: int| 0 <= m < k ==> h@[i + m] == n@[m],
        decreases n.len() - k,
    {
        if h[i + k] != n[k] {
            assert(h@.subrange(i as int, i + n.len())[k as int] != n@[k as int]);
            return false;
        }
        k = k + 1;
    }
    assert(h@.subrange(i as int, i + n.len()) =~= n@);
    true
}

/// The first index at or after `from` where `n` occurs in `h`.
pub fn find_from(h: &Vec<char>, n: &Vec<char>, from: usize) -> (r: Option<usize>)
    ensures
        r matches Some(i) ==> from <= i && occurs_at(h@, n@, i as int) && forall|j: int|
            from <= j < i ==> !occurs_at(h@, n@, j),
        r is None ==> forall|j: int| from <= j ==> !occurs_at(h@, n@, j),
{
    let mut i = from;
    while i <= h.len()
        invariant
            from <= i,
            forall|j: int| from <= j < i ==> !occurs_at(h@, n@, j),
        decreases h.len() + 1 - i,
    {
        if matches_at(h, n, i) {
            return Some(i);
        }
        if i == h.len() {
            assert forall|j: int| from <= j implies !occurs_at(h@, n@, j) by {
                if j > i {
                    assert(j + n@.len() > h@.len());
                }
            }
            return None;
        }
        i = i + 1;
    }
    assert forall|j: int| from <= j implies !occurs_at(h@, n@, j) by {
        if j >= i {
            assert(j + n@.len() > h@.len());
        }
    }
    None
}

/// The first index where `n` occurs in `h` (`str::find`).
pub fn find(h: &Vec<char>, n: &Vec<char>) -> (r: Option<usize>)
    ensures
        r matches Some(i) ==> first_occurrence(h@, n@, i as int),
        r is None ==> forall|j: int| !occurs_at(h@, n@, j),
{
    find_from(h, n, 0)
}

/// Whether `n` occurs in `h` (`str::contains`).
pub open spec fn contains(h: Seq<char>, n: Seq<char>) -> bool {
    exists|i: int| occurs_at(h, n, i)
}

/// Whether `n` occurs in `h`.
pub fn contains_chars(h: &Vec<char>, n: &Vec<char>) -> (r: bool)
    ensures
        r == contains(h@, n@),
{
    match find(h, n) {
        Some(i) => {
            assert(occurs_at(h@, n@, i as int));
            true
        },
        None => false,
    }
}

/// `i` is the first index at or after `from` where `n` occurs in `h`.
pub open spec fn first_from(h: Seq<char>, n: Seq<char>, from: int, i: int) -> bool {
    from <= i && occurs_at(h, n, i) && forall|j: int| from <= j < i ==> !occurs_at(h, n, j)
}

/// The first index at or after `from` where `n` occurs in `h`
/// (`h[from..].find(n)`, counted from the start of `h`).
pub open spec fn find_spec(h: Seq<char>, n: Seq<char>, from: int) -> Option<int> {
    if exists|i: int| first_from(h, n, from, i) {
        Some(choose|i: int| first_from(h, n, from, i))
    } else {
        None
    }
}

/// `find_spec`, computed.
pub fn find_in(h: &Vec<char>, n: &Vec<char>, from: usize) -> (r: Option<usize>)
    ensures
        r matches Some(i) ==> find_spec(h@, n@, from as int) == Some(i as int) && occurs_at(
            h@,
            n@,
            i as int,
        ),
        r is None ==> find_spec(h@, n@, from as int) is None,
        r is None ==> forall|j: int| from <= j ==> !occurs_at(h@, n@, j),
{
    match find_from(h, n, from) {
        Some(i) => {
            assert(first_from(h@, n@, from as int, i as int));
            let ghost k = choose|k: int| first_from(h@, n@, from as int, k);
            assert(k == i) by {
                if k < i {
                } else if k > i {
                }
            }
            Some(i)
        },
        None => None,
    }
}

/// `s` with each occurrence of `p` replaced by `r`, the occurrences taken
/// from left to right without overlap (`str::replace`, for a non-empty `p`).
pub open spec fn replace_all(s: Seq<char>, p: Seq<char>, r: Seq<char>) -> Seq<char>
    decreases s.len(),
{
    if p.len() == 0 || s.len() == 0 {
        s
    } else if s.len() >= p.len() && s.take(p.len() as int) == p {
        r + replace_all(s.skip(p.len() as int), p, r)
    } else {
        seq![s[0]] + replace_all(s.skip(1), p, r)
    }
}

/// `s` with each occurrence of `p` replaced by `r`.
pub fn replace_str(s: &Vec<char>, p: &str, r: &str) -> (out: Vec<char>)
    requires
        p@.len() > 0,
    ensures
        out@ == replace_all(s@, p@, r@),
{
    let pv = str_chars(p);
    let rv = str_chars(r);
    let mut out: Vec<char> = Vec::new();
    let mut i: usize = 0;
    assert(s@.skip(0) =~= s@);
    assert(out@ + replace_all(s@, p@, r@) =~= replace_all(s@, p@, r@));
    while i < s.len()
        invariant
            i <= s.len(),
            pv@ == p@,
            rv@ == r@,
            p@.len() > 0,
            out@ + replace_all(s@.skip(i as int), p@, r@) == replace_all(s@, p@, r@),
        decreases s.len() - i,
    {
        let ghost rest = s@.skip(i as int);
        let ghost before = out@;
        if matches_at(s, &pv, i) {
            assert(rest.take(p@.len() as int) =~= s@.subrange(i as int, i + p@.len()));
            assert(rest.skip(p@.len() as int) =~= s@.skip(i + p@.len()));
            append_chars(&mut out, &rv);
            i = i + pv.len();
            assert(before + (r@ + replace_all(s@.skip(i as int), p@, r@)) =~= out@ + replace_all(
                s@.skip(i as int),
                p@,
                r@,
            ));
        } else {
            assert(rest.len() >= p@.len() ==> rest.take(p@.len() as int) =~= s@.subrange(
                i as int,
                i + p@.len(),
            ));
            assert(rest.skip(1) =~= s@.skip(i + 1));
            out.push(s[i]);
            i = i + 1;
            assert(before + (seq![rest[0]] + replace_all(s@.skip(i as int), p@, r@)) =~= out@
                + replace_all(s@.skip(i as int), p@, r@));
        }
    }
    assert(s@.skip(i as int).len() == 0);
    assert(out@ + s@.skip(i as int) =~= out@);
    out
}

/// The first index of `c` in `s`.
pub fn find_char(s: &Vec<char>, c: char) -> (r: Option<usize>)
    ensures
        r matches Some(i) ==> i < s.len() && s@[i as int] == c && forall|j: int|
            0 <= j < i ==> s@[j] != c,
        r is None ==> forall|j: int| 0 <= j < s.len() ==> s@[j] != c,
{
    let mut i: usize = 0;
    while i < s.len()
        invariant
            i <= s.len(),
            forall|j: int| 0 <= j < i ==> s@[j] != c,
        decreases s.len() - i,
    {
        if s[i] == c {
            return Some(i);
        }
        i = i + 1;
    }
    None
}

// ---------------------------------------------------------------------------
// Numbers
// ---------------------------------------------------------------------------

pub open spec fn is_digit(c: char) -> bool {
    48 <= (c as u32) <= 57
}

pub open spec fn digit_value(c: char) -> nat {
    ((c as u32) - 48) as nat
}

pub open spec fn all_digits(s: Seq<char>) -> bool {
    forall|i: int| 0 <= i < s.len() ==> is_digit(s[i])
}

/// The number written in decimal by the digits `s`.
pub open spec fn digits_value(s: Seq<char>) -> nat
    decreases s.len(),
{
    if s.len() == 0 {
        0
    } else {
        digits_value(s.drop_last()) * 10 + digit_value(s.last())
    }
}

/// The digits of an unsigned number: `s` without one leading `+`.
pub open spec fn unsigned_digits(s: Seq<char>) -> Seq<char> {
    if s.len() > 0 && s[0] == '+' {
        s.drop_first()
    } else {
        s
    }
}

/// The number that `s` writes in the syntax of Rust's `FromStr` for
/// unsigned integers: an optional `+`, then one or more decimal digits.
pub open spec fn parse_nat(s: Seq<char>) -> Option<nat> {
    let d = unsigned_digits(s);
    if d.len() > 0 && all_digits(d) {
        Some(digits_value(d))
    } else {
        None
    }
}

/// The number that `s` writes in the syntax of Rust's `FromStr` for signed
/// integers: an optional `+` or `-`, then one or more decimal digits.
pub open spec fn parse_int(s: Seq<char>) -> Option<int> {
    if s.len() > 0 && s[0] == '-' {
        let d = s.drop_first();
        if d.len() > 0 && all_digits(d) {
            Some(-(digits_value(d) as int))
        } else {
            None
        }
    } else {
        match parse_nat(s) {
            Some(v) => Some(v as int),
            None => None,
        }
    }
}

/// `parse_nat(s)`, where it is at most `max`.
pub open spec fn parse_bounded(s: Seq<char>, max: int) -> Option<nat> {
    match parse_nat(s) {
        Some(v) => if v <= max {
            Some(v)
        } else {
            None
        },
        None => None,
    }
}

/// `parse_int(s)`, where it lies in `[min, max]`.
pub open spec fn parse_int_bounded(s: Seq<char>, min: int, max: int) -> Option<int> {
    match parse_int(s) {
        Some(v) => if min <= v <= max {
            Some(v)
        } else {
            None
        },
        None => None,
    }
}

pub proof fn lemma_digits_value_take(s: Seq<char>, i: int)
    requires
        0 <= i <= s.len(),
    ensures
        digits_value(s.take(i)) <= digits_value(s),
    decreases s.len() - i,
{
    if i < s.len() {
        lemma_digits_value_take(s.drop_last(), i);
        assert(s.drop_last().take(i) =~= s.take(i));
    } else {
        assert(s.take(i) =~= s);
    }
}

/// The value of the decimal digits `d[from..]`, where it is at most `max`.
fn digits_to_u64(d: &Vec<char>, from: usize, max: u64) -> (r: Option<u64>)
    requires
        from <= d.len(),
        max >= 9,
    ensures
        ({
            let t = d@.skip(from as int);
            match r {
                Some(v) => t.len() > 0 && all_digits(t) && v == digits_value(t) && v <= max,
                None => !(t.len() > 0 && all_digits(t) && digits_value(t) <= max),
            }
        }),
{
    let ghost t = d@.skip(from as int);
    if from == d.len() {
        return None;
    }
    let mut v: u64 = 0;
    let mut i = from;
    while i < d.len()
        invariant
            from <= i <= d.len(),
            t == d@.skip(from as int),
            v <= max,
            max >= 9,
            all_digits(t.take(i - from)),
            v == digits_value(t.take(i - from)),
        decreases d.len() - i,
    {
        let c = d[i];
        let u = c as u32;
        assert(t.take(i - from + 1).drop_last() =~= t.take(i - from));
        assert(t[i - from] == c);
        if u < 48 || u > 57 {
            assert(!is_digit(t[i - from]));
            return None;
        }
        let dv = (u - 48) as u64;
        if v > (max - dv) / 10 {
            proof {
                assert(digits_value(t.take(i - from + 1)) == v * 10 + dv);
                assert(v * 10 + dv > max) by (nonlinear_arith)
                    requires
                        v > (max - dv) / 10,
                        dv <= max,
                ;
                lemma_digits_value_take(t, i - from + 1);
            }
            return None;
        }
        assert(v * 10 + dv <= max) by (nonlinear_arith)
            requires
                v <= (max - dv) / 10,
                dv <= max,
        ;
        v = v * 10 + dv;
        i = i + 1;
        assert(all_digits(t.take(i - from)));
    }
    assert(t.take(d.len() - from) =~= t);
    Some(v)
}

/// `s` parsed as an unsigned integer no greater than `max`.
pub fn parse_unsigned(s: &Vec<char>, max: u64) -> (r: Option<u64>)
    requires
        max >= 9,
    ensures
        r matches Some(v) ==> parse_bounded(s@, max as int) == Some(v as nat),
        r is None ==> parse_bounded(s@, max as int) is None,
{
    let from: usize = if s.len() > 0 && s[0] == '+' {
        1
    } else {
        0
    };
    assert(s@.skip(from as int) =~= unsigned_digits(s@));
    digits_to_u64(s, from, max)
}

/// `s` parsed as a `u64` (`str::parse::<u64>`).
pub fn parse_u64(s: &Vec<char>) -> (r: Option<u64>)
    ensures
        r matches Some(v) ==> parse_bounded(s@, u64::MAX as int) == Some(v as nat),
        r is None ==> parse_bounded(s@, u64::MAX as int) is None,
{
    parse_unsigned(s, u64::MAX)
}

/// `s` parsed as a `u32` (`str::parse::<u32>`).
pub fn parse_u32(s: &Vec<char>) -> (r: Option<u32>)
    ensures
        r matches Some(v) ==> parse_bounded(s@, u32::MAX as int) == Some(v as nat),
        r is None ==> parse_bounded(s@, u32::MAX as int) is None,
{
    match parse_unsigned(s, u32::MAX as u64) {
        Some(v) => Some(v as u32),
        None => None,
    }
}

/// `s` parsed as a `u16` (`str::parse::<u16>`).
pub fn parse_u16(s: &Vec<char>) -> (r: Option<u16>)
    ensures
        r matches Some(v) ==> parse_bounded(s@, u16::MAX as int) == Some(v as nat),
        r is None ==> parse_bounded(s@, u16::MAX as int) is None,
{
    match parse_unsigned(s, u16::MAX as u64) {
        Some(v) => Some(v as u16),
        None => None,
    }
}

/// `s` parsed as a `usize` (`str::parse::<usize>`).
pub fn parse_usize(s: &Vec<char>) -> (r: Option<usize>)
    ensures
        r matches Some(v) ==> parse_bounded(s@, usize::MAX as int) == Some(v as nat),
        r is None ==> parse_bounded(s@, usize::MAX as int) is None,
{
    match parse_unsigned(s, usize::MAX as u64) {
        Some(v) => Some(v as usize),
        None => None,
    }
}

/// `s` parsed as an `i32` (`str::parse::<i32>`).
pub fn parse_i32(s: &Vec<char>) -> (r: Option<i32>)
    ensures
        r matches Some(v) ==> parse_int_bounded(s@, i32::MIN as int, i32::MAX as int) == Some(
            v as int,
        ),
        r is None ==> parse_int_bounded(s@, i32::MIN as int, i32::MAX as int) is None,
{
    if s.len() > 0 && s[0] == '-' {
        assert(s@.skip(1) =~= s@.drop_first());
        match digits_to_u64(s, 1, 0x8000_0000) {
            Some(v) => {
                let r: i64 = 0 - (v as i64);
                Some(r as i32)
            },
            None => None,
        }
    } else {
        match parse_unsigned(s, i32::MAX as u64) {
            Some(v) => Some(v as i32),
            None => None,
        }
    }
}

/// The character of decimal digit `d`.
pub open spec fn digit_char(d: nat) -> char {
    ((d + 48) as u32) as char
}

/// The decimal numeral of `n`, without leading zeros.
pub open spec fn decimal(n: nat) -> Seq<char>
    decreases n,
{
    if n < 10 {
        seq![digit_char(n)]
    } else {
        decimal(n / 10).push(digit_char(n % 10))
    }
}

fn digit_to_char(d: u64) -> (c: char)
    requires
        d < 10,
    ensures
        c == digit_char(d as nat),
{
    let c = if d == 0 {
        '0'
    } else if d == 1 {
        '1'
    } else if d == 2 {
        '2'
    } else if d == 3 {
        '3'
    } else if d == 4 {
        '4'
    } else if d == 5 {
        '5'
    } else if d == 6 {
        '6'
    } else if d == 7 {
        '7'
    } else if d == 8 {
        '8'
    } else {
        '9'
    };
    assert(c == ((d + 48) as u32) as char);
    c
}

/// The decimal numeral of `n`.
pub fn decimal_chars(n: u64) -> (r: Vec<char>)
    ensures
        r@ == decimal(n as nat),
    decreases n,
{
    if n < 10 {
        let mut r: Vec<char> = Vec::new();
        r.push(digit_to_char(n));
        assert(r@ =~= seq![digit_char(n as nat)]);
        r
    } else {
        let mut r = decimal_chars(n / 10);
        r.push(digit_to_char(n % 10));
        r
    }
}

/// The decimal numeral of `n`, with a minus sign where it is negative.
pub open spec fn signed_decimal(n: int) -> Seq<char> {
    if n < 0 {
        seq!['-'] + decimal((-n) as nat)
    } else {
        decimal(n as nat)
    }
}

/// The decimal numeral of `n` (`i64::to_string`).
pub fn signed_decimal_chars(n: i64) -> (r: Vec<char>)
    ensures
        r@ == signed_decimal(n as int),
{
    if n < 0 {
        let m: u64 = if n == i64::MIN {
            9223372036854775808u64
        } else {
            (-n) as u64
        };
        let mut r: Vec<char> = Vec::new();
        r.push('-');
        let d = decimal_chars(m);
        append_chars(&mut r, &d);
        assert(r@ =~= seq!['-'] + d@);
        r
    } else {
        decimal_chars(n as u64)
    }
}

// ---------------------------------------------------------------------------
// Order
// ---------------------------------------------------------------------------

/// `a` and `b` agree on their first `k` characters.
pub open spec fn same_upto(a: Seq<char>, b: Seq<char>, k: int) -> bool {
    forall|j: int| 0 <= j < k ==> a[j] == b[j]
}

/// `a` comes before `b` in the order of `str`: by code points, a proper
/// prefix first.
pub open spec fn lex_lt(a: Seq<char>, b: Seq<char>) -> bool {
    exists|k: int|
        0 <= k <= a.len() && k < b.len() && #[trigger] same_upto(a, b, k) && (k == a.len()
            || (a[k] as u32) < (b[k] as u32))
}

/// Index of the first difference of `a` and `b`, or the shorter length.
pub open spec fn first_diff(a: Seq<char>, b: Seq<char>, k: int) -> bool {
    0 <= k <= a.len() && k <= b.len() && same_upto(a, b, k) && (k == a.len() || k == b.len()
        || a[k] != b[k])
}

pub proof fn lemma_first_diff_exists(a: Seq<char>, b: Seq<char>) -> (k: int)
    ensures
        first_diff(a, b, k),
{
    lemma_first_diff_from(a, b, 0)
}

proof fn lemma_first_diff_from(a: Seq<char>, b: Seq<char>, k: int) -> (r: int)
    requires
        0 <= k <= a.len(),
        k <= b.len(),
        same_upto(a, b, k),
    ensures
        first_diff(a, b, r),
    decreases a.len() - k,
{
    if k < a.len() && k < b.len() && a[k] == b[k] {
        lemma_first_diff_from(a, b, k + 1)
    } else {
        k
    }
}

/// The order is total.
pub proof fn lemma_lex_total(a: Seq<char>, b: Seq<char>)
    ensures
        lex_lt(a, b) || lex_lt(b, a) || a == b,
{
    let k = lemma_first_diff_exists(a, b);
    if k == a.len() && k == b.len() {
        assert(a =~= b);
    } else if k == a.len() {
        assert(same_upto(a, b, k));
    } else if k == b.len() {
        assert(same_upto(b, a, k));
    } else {
        assert(same_upto(a, b, k));
        assert(same_upto(b, a, k));
        vstd::utf8::char_u32_cast(a[k], a[k] as u32);
        vstd::utf8::char_u32_cast(b[k], b[k] as u32);
        assert((a[k] as u32) != (b[k] as u32));
    }
}

/// The order is irreflexive and asymmetric.
pub proof fn lemma_lex_asym(a: Seq<char>, b: Seq<char>)
    ensures
        !(lex_lt(a, b) && lex_lt(b, a)),
        !lex_lt(a, a),
{
    if lex_lt(a, b) && lex_lt(b, a) {
        let k = choose|k: int|
            0 <= k <= a.len() && k < b.len() && #[trigger] same_upto(a, b, k) && (k == a.len()
                || (a[k] as u32) < (b[k] as u32));
        let m = choose|m: int|
            0 <= m <= b.len() && m < a.len() && #[trigger] same_upto(b, a, m) && (m == b.len()
                || (b[m] as u32) < (a[m] as u32));
        if k < m {
            assert(b[k] == a[k]);
        } else if m < k {
            assert(a[m] == b[m]);
        }
    }
}

/// The order is transitive.
pub proof fn lemma_lex_trans(a: Seq<char>, b: Seq<char>, c: Seq<char>)
    requires
        lex_lt(a, b),
        lex_lt(b, c),
    ensures
        lex_lt(a, c),
{
    let k = choose|k: int|
        0 <= k <= a.len() && k < b.len() && #[trigger] same_upto(a, b, k) && (k == a.len() || (
        a[k] as u32) < (b[k] as u32));
    let m = choose|m: int|
        0 <= m <= b.len() && m < c.len() && #[trigger] same_upto(b, c, m) && (m == b.len() || (
        b[m] as u32) < (c[m] as u32));
    if k <= m {
        assert(same_upto(a, c, k));
        if k < a.len() {
            if k < m {
                assert(b[k] == c[k]);
            }
        }
    } else {
        assert(same_upto(a, c, m));
        assert(a[m] == b[m]);
    }
}

/// Whether `a` comes before `b`.
pub fn lex_less(a: &Vec<char>, b: &Vec<char>) -> (r: bool)
    ensures
        r == lex_lt(a@, b@),
{
    let mut k: usize = 0;
    while k < a.len() && k < b.len() && a[k] == b[k]
        invariant
            k <= a.len(),
            k <= b.len(),
            same_upto(a@, b@, k as int),
        decreases a.len() - k,
    {
        k = k + 1;
    }
    proof {
        lemma_lex_asym(a@, b@);
    }
    if k == a.len() {
        if k < b.len() {
            assert(same_upto(a@, b@, k as int));
            true
        } else {
            assert(a@ =~= b@);
            false
        }
    } else if k == b.len() {
        assert(same_upto(b@, a@, k as int));
        false
    } else {
        let r = (a[k] as u32) < (b[k] as u32);
        if r {
            assert(same_upto(a@, b@, k as int));
        } else {
            assert(same_upto(b@, a@, k as int));
            proof {
                vstd::utf8::char_u32_cast(a@[k as int], a@[k as int] as u32);
                vstd::utf8::char_u32_cast(b@[k as int], b@[k as int] as u32);
            }
            assert((b@[k as int] as u32) < (a@[k as int] as u32));
        }
        r
    }
}

/// `s` is in order (equal neighbours allowed).
pub open spec fn sorted(s: Seq<Seq<char>>) -> bool {
    forall|i: int, j: int| 0 <= i < j < s.len() ==> !lex_lt(#[trigger] s[j], #[trigger] s[i])
}

/// The strings of `v` in order (`sort`), by insertion.
pub fn sort_strings(v: &Vec<Vec<char>>) -> (r: Vec<Vec<char>>)
    ensures
        sorted(views(r@)),
        views(r@).to_multiset() == views(v@).to_multiset(),
{
    let mut r: Vec<Vec<char>> = Vec::new();
    let mut k: usize = 0;
    assert(views(r@) =~= Seq::<Seq<char>>::empty());
    assert(views(v@).take(0) =~= Seq::<Seq<char>>::empty());
    while k < v.len()
        invariant
            k <= v.len(),
            sorted(views(r@)),
            views(r@).to_multiset() == views(v@).take(k as int).to_multiset(),
        decreases v.len() - k,
    {
        let x = v[k].clone();
        let ghost rv = views(r@);
        let mut pos: usize = 0;
        while pos < r.len() && !lex_less(&x, &r[pos])
            invariant
                pos <= r.len(),
                rv == views(r@),
                k < v.len(),
                x@ == v@[k as int]@,
                forall|t: int| 0 <= t < pos ==> !lex_lt(x@, #[trigger] rv[t]),
            decreases r.len() - pos,
        {
            pos = pos + 1;
        }
        proof {
            if pos < rv.len() {
                assert(lex_lt(x@, rv[pos as int]));
            }
        }
        r.insert(pos, x);
        let ghost nv = views(r@);
        assert(nv =~= rv.insert(pos as int, v@[k as int]@));
        assert forall|i: int, j: int| 0 <= i < j < nv.len() implies !lex_lt(
            #[trigger] nv[j],
            #[trigger] nv[i],
        ) by {
            if j < pos {
                assert(nv[i] == rv[i] && nv[j] == rv[j]);
            } else if j == pos {
                assert(nv[i] == rv[i]);
                lemma_lex_asym(nv[i], nv[j]);
                if lex_lt(nv[j], nv[i]) {
                    assert(!lex_lt(x@, rv[i]));
                }
            } else if i < pos {
                assert(nv[i] == rv[i] && nv[j] == rv[j - 1]);
                if lex_lt(nv[j], nv[i]) {
                    lemma_lex_asym(rv[i], rv[j - 1]);
                }
            } else if i == pos {
                assert(nv[j] == rv[j - 1]);
                if lex_lt(nv[j], nv[i]) {
                    assert(lex_lt(x@, rv[pos as int]));
                    if j - 1 > pos {
                        lemma_lex_trans(rv[j - 1], x@, rv[pos as int]);
                        assert(!lex_lt(rv[j - 1], rv[pos as int]));
                    } else {
                        lemma_lex_asym(x@, rv[pos as int]);
                    }
                }
            } else {
                assert(nv[i] == rv[i - 1] && nv[j] == rv[j - 1]);
            }
        }
        assert(views(v@).take(k + 1) =~= views(v@).take(k as int).push(v@[k as int]@));
        proof {
            vstd::seq_lib::to_multiset_insert(rv, pos as int, v@[k as int]@);
            vstd::seq_lib::to_multiset_build(views(v@).take(k as int), v@[k as int]@);
        }
        k = k + 1;
    }
    assert(views(v@).take(v.len() as int) =~= views(v@));
    r
}

// ---------------------------------------------------------------------------
// Lower case
// ---------------------------------------------------------------------------

/// The lower-case form of `s` that `str::to_lowercase` gives (Unicode case
/// mapping, including its context-dependent rules).
pub uninterp spec fn lowercase(s: Seq<char>) -> Seq<char>;

/// ASCII lower case of one character.
pub open spec fn ascii_lower(c: char) -> char {
    if 65 <= (c as u32) <= 90 {
        ((c as u32) + 32) as char
    } else {
        c
    }
}

pub open spec fn is_ascii_seq(s: Seq<char>) -> bool {
    forall|i: int| 0 <= i < s.len() ==> (s[i] as u32) < 128
}

/// `str::to_lowercase`, on the characters of `s`. The result is named by
/// `lowercase`; for a string of ASCII characters it is the string with each
/// of `A`..`Z` replaced by `a`..`z`, as Unicode's case mapping gives there.
#[verifier::external_body]
pub(crate) fn to_lowercase(s: &Vec<char>) -> (r: Vec<char>)
    ensures
        r@ == lowercase(s@),
        is_ascii_seq(s@) ==> r@ == s@.map_values(|c: char| ascii_lower(c)),
{
    s.iter().collect::<String>().to_lowercase().chars().collect()
}

} // verus!
