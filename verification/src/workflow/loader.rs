//! Names of the workflows found in the workflow directories.
use vstd::prelude::*;
use crate::text::{self, lex_lt, views};

verus! {

/// `i` is the index of the last `.` of `name`.
pub open spec fn is_last_dot(name: Seq<char>, i: int) -> bool {
    0 <= i < name.len() && name[i] == '.' && forall|j: int| i < j < name.len() ==> name[j] != '.'
}

/// The stem of a file name whose extension is `yaml` or `yml`: the name up
/// to its last `.`, where that `.` is not the name's first character.
pub open spec fn workflow_stem(name: Seq<char>) -> Option<Seq<char>> {
    if exists|i: int| is_last_dot(name, i) && i > 0 {
        let i = choose|i: int| is_last_dot(name, i) && i > 0;
        let ext = name.skip(i + 1);
        if ext == "yaml"@ || ext == "yml"@ {
            Some(name.take(i))
        } else {
            None
        }
    } else {
        None
    }
}

/// `s` is in strictly increasing order.
pub open spec fn strictly_sorted(s: Seq<Seq<char>>) -> bool {
    forall|i: int, j: int| 0 <= i < j < s.len() ==> lex_lt(#[trigger] s[i], #[trigger] s[j])
}

/// Some file name among `names` has the workflow stem `x`.
pub open spec fn has_workflow(names: Seq<Seq<char>>, x: Seq<char>) -> bool {
    exists|k: int| 0 <= k < names.len() && workflow_stem(#[trigger] names[k]) == Some(x)
}

/// The stem of a workflow file name, if it is one.
pub fn stem_of(name: &str) -> (r: Option<Vec<char>>)
    ensures
        r matches Some(s) ==> workflow_stem(name@) == Some(s@),
        r is None ==> workflow_stem(name@) is None,
{
    let n = text::str_chars(name);
    let mut i = n.len();
    while i > 0 && n[i - 1] != '.'
        invariant
            i <= n.len(),
            forall|j: int| i <= j < n.len() ==> n@[j] != '.',
        decreases i,
    {
        i = i - 1;
    }
    if i <= 1 {
        proof {
            if exists|k: int| is_last_dot(name@, k) && k > 0 {
                let k = choose|k: int| is_last_dot(name@, k) && k > 0;
                if i == 1 {
                    assert(n@[0] == '.' || n@[0] != '.');
                }
                assert(n@[k] == '.');
            }
        }
        return None;
    }
    let d = i - 1;
    proof {
        assert(is_last_dot(name@, d as int));
        let k = choose|k: int| is_last_dot(name@, k) && k > 0;
        if k < d {
            assert(n@[d as int] == '.');
        } else if k > d {
        }
        assert(k == d);
    }
    let ext = text::copy_range(&n, i, n.len());
    assert(ext@ =~= name@.skip(d + 1));
    if text::chars_eq_str(&ext, "yaml") || text::chars_eq_str(&ext, "yml") {
        let stem = text::copy_range(&n, 0, d);
        assert(stem@ =~= name@.take(d as int));
        Some(stem)
    } else {
        None
    }
}

/// Puts `x` into the sorted list `v`, unless it is already there.
fn insert_sorted(v: &mut Vec<Vec<char>>, x: Vec<char>)
    requires
        strictly_sorted(views(old(v)@)),
    ensures
        strictly_sorted(views(final(v)@)),
        forall|y: Seq<char>| views(final(v)@).contains(y) <==> (views(old(v)@).contains(y) || y == x@),
{
    let ghost old_v = views(v@);
    let mut pos: usize = 0;
    while pos < v.len() && text::lex_less(&v[pos], &x)
        invariant
            pos <= v.len(),
            views(v@) == old_v,
            forall|i: int| 0 <= i < pos ==> lex_lt(#[trigger] old_v[i], x@),
        decreases v.len() - pos,
    {
        pos = pos + 1;
    }
    if pos < v.len() && text::chars_eq(&v[pos], &x) {
        assert forall|y: Seq<char>| views(v@).contains(y) <==> (old_v.contains(y) || y == x@) by {
            if y == x@ {
                assert(views(v@)[pos as int] == y);
            }
        }
        return;
    }
    proof {
        if pos < old_v.len() {
            text::lemma_lex_total(old_v[pos as int], x@);
            assert(lex_lt(x@, old_v[pos as int]));
            assert forall|j: int| pos <= j < old_v.len() implies lex_lt(x@, #[trigger] old_v[j]) by {
                if j > pos {
                    text::lemma_lex_trans(x@, old_v[pos as int], old_v[j]);
                }
            }
        }
    }
    v.insert(pos, x);
    let ghost nv = views(v@);
    assert(nv =~= old_v.insert(pos as int, x@));
    assert forall|i: int, j: int| 0 <= i < j < nv.len() implies lex_lt(#[trigger] nv[i], #[trigger] nv[j]) by {
        if j < pos {
        } else if j == pos {
        } else if i < pos {
            text::lemma_lex_trans(nv[i], x@, nv[j]);
        } else if i == pos {
        } else {
            assert(nv[i] == old_v[i - 1]);
            assert(nv[j] == old_v[j - 1]);
        }
    }
    assert forall|y: Seq<char>| nv.contains(y) <==> (old_v.contains(y) || y == x@) by {
        if nv.contains(y) {
            let k = choose|k: int| 0 <= k < nv.len() && nv[k] == y;
            if k < pos {
                assert(old_v[k] == y);
            } else if k > pos {
                assert(old_v[k - 1] == y);
            }
        }
        if old_v.contains(y) {
            let k = choose|k: int| 0 <= k < old_v.len() && old_v[k] == y;
            if k < pos {
                assert(nv[k] == y);
            } else {
                assert(nv[k + 1] == y);
            }
        }
        if y == x@ {
            assert(nv[pos as int] == y);
        }
    }
}

/// List all available workflows: the names, without extension, of the
/// `.yaml` and `.yml` files among `file_names` (the entries of the local and
/// home workflow directories), sorted and without repeats.
pub fn list_workflows(file_names: &Vec<String>) -> (r: Vec<String>)
    ensures
        strictly_sorted(text::string_views(r@)),
        forall|x: Seq<char>|
            text::string_views(r@).contains(x) <==> has_workflow(text::string_views(file_names@), x),
{
    let ghost names = text::string_views(file_names@);
    let mut found: Vec<Vec<char>> = Vec::new();
    let mut i: usize = 0;
    while i < file_names.len()
        invariant
            i <= file_names.len(),
            names == text::string_views(file_names@),
            strictly_sorted(views(found@)),
            forall|x: Seq<char>|
                views(found@).contains(x) <==> has_workflow(names.take(i as int), x),
        decreases file_names.len() - i,
    {
        let ghost before = views(found@);
        match stem_of(file_names[i].as_str()) {
            Some(s) => {
                let ghost sv = s@;
                insert_sorted(&mut found, s);
                assert forall|x: Seq<char>|
                    views(found@).contains(x) <==> has_workflow(names.take(i + 1), x) by {
                    if has_workflow(names.take(i + 1), x) {
                        let k = choose|k: int|
                            0 <= k < i + 1 && workflow_stem(#[trigger] names.take(i + 1)[k]) == Some(x);
                        if k < i {
                            assert(names.take(i as int)[k] == names.take(i + 1)[k]);
                        }
                    }
                    if before.contains(x) {
                        let k = choose|k: int|
                            0 <= k < i && workflow_stem(#[trigger] names.take(i as int)[k]) == Some(x);
                        assert(names.take(i + 1)[k] == names.take(i as int)[k]);
                    }
                    if x == sv {
                        assert(names.take(i + 1)[i as int] == names[i as int]);
                    }
                }
            },
            None => {
                assert forall|x: Seq<char>|
                    views(found@).contains(x) <==> has_workflow(names.take(i + 1), x) by {
                    if has_workflow(names.take(i + 1), x) {
                        let k = choose|k: int|
                            0 <= k < i + 1 && workflow_stem(#[trigger] names.take(i + 1)[k]) == Some(x);
                        if k < i {
                            assert(names.take(i as int)[k] == names.take(i + 1)[k]);
                        } else {
                            assert(names.take(i + 1)[k] == names[i as int]);
                        }
                    }
                    if before.contains(x) {
                        let k = choose|k: int|
                            0 <= k < i && workflow_stem(#[trigger] names.take(i as int)[k]) == Some(x);
                        assert(names.take(i + 1)[k] == names.take(i as int)[k]);
                    }
                }
            },
        }
        i = i + 1;
    }
    assert(names.take(file_names.len() as int) =~= names);
    let mut out: Vec<String> = Vec::new();
    let mut j: usize = 0;
    while j < found.len()
        invariant
            j <= found.len(),
            text::string_views(out@) == views(found@).take(j as int),
        decreases found.len() - j,
    {
        let ghost before = out@;
        out.push(text::chars_to_string(&found[j]));
        assert(text::string_views(out@) =~= text::string_views(before).push(found@[j as int]@));
        assert(views(found@).take(j + 1) =~= views(found@).take(j as int).push(found@[j as int]@));
        j = j + 1;
    }
    assert(views(found@).take(found.len() as int) =~= views(found@));
    out
}

/// The local workflow directory, relative to the working directory.
pub fn get_local_workflows_path() -> (r: String)
    ensures
        r@ == ".termineer/workflows"@,
{
    text::chars_to_string(&text::str_chars(".termineer/workflows"))
}

/// The file names tried for workflow `name`: the name with a `.yaml`
/// extension added unless it has `.yaml` or `.yml`, and the same name with
/// the other of the two extensions.
pub open spec fn workflow_file_names(name: Seq<char>) -> (Seq<char>, Seq<char>) {
    let normalized = if text::ends_with(name, ".yaml"@) || text::ends_with(name, ".yml"@) {
        name
    } else {
        name + ".yaml"@
    };
    let alt = if text::ends_with(normalized, ".yaml"@) {
        text::replace_all(normalized, ".yaml"@, ".yml"@)
    } else {
        text::replace_all(normalized, ".yml"@, ".yaml"@)
    };
    (normalized, alt)
}

/// The file names tried for workflow `name`.
pub fn workflow_file_candidates(name: &str) -> (r: (String, String))
    ensures
        (r.0@, r.1@) == workflow_file_names(name@),
{
    proof {
        reveal_strlit(".yaml");
        reveal_strlit(".yml");
    }
    let n = text::str_chars(name);
    let normalized = if text::has_suffix_str(&n, ".yaml") || text::has_suffix_str(&n, ".yml") {
        n
    } else {
        let mut m = n;
        text::append_str(&mut m, ".yaml");
        m
    };
    let alt = if text::has_suffix_str(&normalized, ".yaml") {
        text::replace_str(&normalized, ".yaml", ".yml")
    } else {
        text::replace_str(&normalized, ".yml", ".yaml")
    };
    (text::chars_to_string(&normalized), text::chars_to_string(&alt))
}

} // verus!
