//! Comparison of release version strings, and the notice shown when a newer
//! release exists.
use vstd::prelude::*;
use crate::text::{
    append_str, chars_to_string, parse_bounded, parse_u32, split_char, split_on, str_chars,
    trim_start_char, trim_start_matches, views,
};

verus! {

/// The numbers of the dot-separated components of a version, skipping the
/// components that are not a `u32`.
pub open spec fn component_numbers(parts: Seq<Seq<char>>) -> Seq<nat>
    decreases parts.len(),
{
    if parts.len() == 0 {
        seq![]
    } else {
        let rest = component_numbers(parts.drop_last());
        match parse_bounded(parts.last(), u32::MAX as int) {
            Some(n) => rest.push(n),
            None => rest,
        }
    }
}

/// The numeric components of a version string: leading `v`s dropped, split at
/// `.`, and the components that parse as `u32` kept in order.
pub open spec fn version_numbers(v: Seq<char>) -> Seq<nat> {
    component_numbers(split_on(trim_start_char(v, 'v'), '.'))
}

/// `a` and `b` agree on their first `n` entries.
pub open spec fn agree_upto(a: Seq<nat>, b: Seq<nat>, n: int) -> bool {
    forall|j: int| 0 <= j < n ==> a[j] == b[j]
}

/// `a` comes after `b` in lexicographic order, where a longer sequence
/// comes after any of its prefixes.
pub open spec fn lex_greater(a: Seq<nat>, b: Seq<nat>) -> bool {
    ||| exists|k: int|
        0 <= k < a.len() && k < b.len() && a[k] > b[k] && #[trigger] agree_upto(a, b, k)
    ||| (a.len() > b.len() && agree_upto(a, b, b.len() as int))
}

/// Release `latest` is newer than release `current`.
pub open spec fn is_newer(latest: Seq<char>, current: Seq<char>) -> bool {
    lex_greater(version_numbers(latest), version_numbers(current))
}

fn version_numbers_exec(v: &str) -> (r: Vec<u32>)
    ensures
        r@.map_values(|x: u32| x as nat) == version_numbers(v@),
{
    let chars = str_chars(v);
    let body = trim_start_matches(&chars, 'v');
    let parts = split_char(&body, '.');
    let mut r: Vec<u32> = Vec::new();
    let mut i: usize = 0;
    while i < parts.len()
        invariant
            i <= parts.len(),
            r@.map_values(|x: u32| x as nat) == component_numbers(views(parts@).take(i as int)),
        decreases parts.len() - i,
    {
        assert(views(parts@).take(i as int + 1).drop_last() =~= views(parts@).take(i as int));
        assert(views(parts@).take(i as int + 1).last() == parts@[i as int]@);
        let ghost before = r@;
        match parse_u32(&parts[i]) {
            Some(n) => {
                r.push(n);
                assert(r@.map_values(|x: u32| x as nat) =~= before.map_values(|x: u32| x as nat).push(
                    n as nat,
                ));
            },
            None => {},
        }
        i = i + 1;
    }
    assert(views(parts@).take(parts.len() as int) =~= views(parts@));
    r
}

/// Whether version `latest` is newer than version `current`: their numeric
/// components compared in order, and with equal leading components the one
/// with more components is newer.
pub fn is_newer_version(latest: &str, current: &str) -> (r: bool)
    ensures
        r == is_newer(latest@, current@),
{
    let a = version_numbers_exec(latest);
    let b = version_numbers_exec(current);
    let ghost sa = version_numbers(latest@);
    let ghost sb = version_numbers(current@);
    assert(sa.len() == a.len());
    assert(sb.len() == b.len());
    let n = if a.len() < b.len() {
        a.len()
    } else {
        b.len()
    };
    let mut i: usize = 0;
    while i < n
        invariant
            n <= a.len(),
            n <= b.len(),
            i <= n,
            sa == a@.map_values(|x: u32| x as nat),
            sb == b@.map_values(|x: u32| x as nat),
            sa == version_numbers(latest@),
            sb == version_numbers(current@),
            agree_upto(sa, sb, i as int),
        decreases n - i,
    {
        assert(sa[i as int] == a@[i as int]);
        assert(sb[i as int] == b@[i as int]);
        if a[i] > b[i] {
            assert(agree_upto(sa, sb, i as int));
            return true;
        } else if a[i] < b[i] {
            proof {
                assert forall|k: int|
                    0 <= k < sa.len() && k < sb.len() && sa[k] > sb[k] && agree_upto(
                        sa,
                        sb,
                        k,
                    ) implies false by {
                    if k > i {
                        assert(sa[i as int] == sb[i as int]);
                    }
                }
            }
            return false;
        }
        i = i + 1;
    }
    proof {
        assert forall|k: int|
            0 <= k < sa.len() && k < sb.len() && sa[k] > sb[k] && agree_upto(sa, sb, k)
            implies false by {
            assert(sa[k] == sb[k]);
        }
    }
    a.len() > b.len()
}

/// The update state that the version check reports: whether `latest` is
/// newer than `current`, the version to show, and the notice to print.
pub fn update_status(latest: &str, current: &str) -> (r: (bool, String, Option<String>))
    ensures
        r.0 == is_newer(latest@, current@),
        r.1@ == latest@,
        r.0 ==> (r.2 matches Some(m) && m@ == update_notice(current@, latest@)),
        !r.0 ==> r.2 is None,
{
    let newer = is_newer_version(latest, current);
    let shown = chars_to_string(&str_chars(latest));
    if newer {
        let mut m: Vec<char> = Vec::new();
        append_str(&mut m, "🔄 Update available: ");
        append_str(&mut m, current);
        append_str(&mut m, " → ");
        append_str(&mut m, latest);
        append_str(&mut m, "\nRun 'npm update -g termineer' to update");
        (newer, shown, Some(chars_to_string(&m)))
    } else {
        (newer, shown, None)
    }
}

/// The notice that announces release `latest` to a user of `current`.
pub open spec fn update_notice(current: Seq<char>, latest: Seq<char>) -> Seq<char> {
    "🔄 Update available: "@ + current + " → "@ + latest
        + "\nRun 'npm update -g termineer' to update"@
}

// ---------------------------------------------------------------------------
// Laws of the order
// ---------------------------------------------------------------------------

/// No version is newer than itself.
pub proof fn lemma_newer_irreflexive(v: Seq<char>)
    ensures
        !is_newer(v, v),
{
}

/// Of two versions, at most one is newer than the other.
pub proof fn lemma_newer_asymmetric(a: Seq<char>, b: Seq<char>)
    ensures
        is_newer(a, b) ==> !is_newer(b, a),
{
    let x = version_numbers(a);
    let y = version_numbers(b);
    if lex_greater(x, y) && lex_greater(y, x) {
        if exists|k: int| 0 <= k < x.len() && k < y.len() && x[k] > y[k] && #[trigger] agree_upto(x, y, k) {
            let k = choose|k: int| 0 <= k < x.len() && k < y.len() && x[k] > y[k] && #[trigger] agree_upto(x, y, k);
            if exists|m: int| 0 <= m < y.len() && m < x.len() && y[m] > x[m] && #[trigger] agree_upto(y, x, m) {
                let m = choose|m: int| 0 <= m < y.len() && m < x.len() && y[m] > x[m] && #[trigger] agree_upto(y, x, m);
                if k < m {
                    assert(y[k] == x[k]);
                } else if m < k {
                    assert(x[m] == y[m]);
                }
            } else {
                assert(x[k] == y[k]);
            }
        } else {
            let m = choose|m: int| 0 <= m < y.len() && m < x.len() && y[m] > x[m] && #[trigger] agree_upto(y, x, m);
            assert(x[m] == y[m]);
        }
    }
}

/// If `a` is newer than `b` and `b` newer than `c`, then `a` is newer than `c`.
pub proof fn lemma_newer_transitive(a: Seq<char>, b: Seq<char>, c: Seq<char>)
    requires
        is_newer(a, b),
        is_newer(b, c),
    ensures
        is_newer(a, c),
{
    let x = version_numbers(a);
    let y = version_numbers(b);
    let z = version_numbers(c);
    lemma_lex_transitive(x, y, z);
}

proof fn lemma_lex_transitive(x: Seq<nat>, y: Seq<nat>, z: Seq<nat>)
    requires
        lex_greater(x, y),
        lex_greater(y, z),
    ensures
        lex_greater(x, z),
{
    // position where x first exceeds y (or y.len() when y is a prefix of x)
    let k1 = if exists|k: int| 0 <= k < x.len() && k < y.len() && x[k] > y[k] && #[trigger] agree_upto(x, y, k) {
        choose|k: int| 0 <= k < x.len() && k < y.len() && x[k] > y[k] && #[trigger] agree_upto(x, y, k)
    } else {
        y.len() as int
    };
    let k2 = if exists|k: int| 0 <= k < y.len() && k < z.len() && y[k] > z[k] && #[trigger] agree_upto(y, z, k) {
        choose|k: int| 0 <= k < y.len() && k < z.len() && y[k] > z[k] && #[trigger] agree_upto(y, z, k)
    } else {
        z.len() as int
    };
    assert(agree_upto(x, y, k1));
    assert(agree_upto(y, z, k2));
    if k1 < k2 {
        assert(agree_upto(x, z, k1));
        if k1 < y.len() {
            assert(x[k1] > z[k1]);
        }
    } else if k2 < k1 {
        assert(agree_upto(x, z, k2));
        if k2 < z.len() {
            assert(x[k2] > z[k2]);
        } else {
            assert(x.len() > z.len());
        }
    } else {
        assert(agree_upto(x, z, k1));
        if k1 < z.len() {
            assert(x[k1] > z[k1]);
        } else {
            assert(x.len() > z.len());
        }
    }
}

} // verus!
