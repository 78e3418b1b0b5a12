//! Workflow parameters given on the command line as `key=value` arguments,
//! completed by the defaults the workflow declares.
use vstd::prelude::*;
use crate::text;
use crate::workflow::context::{distinct_keys, entries, find_key, put_entry, WorkflowError};
use crate::workflow::types::{Parameter, Workflow};

verus! {

/// The YAML string value holding `s`.
pub uninterp spec fn yaml_text(s: Seq<char>) -> serde_yaml::Value;

/// `serde_yaml::Value::String(s)`: the YAML string value holding `s`, named
/// by `yaml_text`.
#[verifier::external_body]
fn yaml_string(s: String) -> (r: serde_yaml::Value)
    ensures
        r == yaml_text(s@),
{
    serde_yaml::Value::String(s)
}

/// `Clone` of a YAML value, which `serde_yaml` derives: the copy is the
/// value itself.
pub assume_specification[ <serde_yaml::Value as Clone>::clone ](v: &serde_yaml::Value) -> (r:
    serde_yaml::Value)
    ensures
        r == *v,
;

/// `i` is the position of the first `=` of `s`.
pub open spec fn is_first_eq(s: Seq<char>, i: int) -> bool {
    &&& 0 <= i < s.len()
    &&& s[i] == '='
    &&& forall|j: int| 0 <= j < i ==> s[j] != '='
}

/// The key and the value of a `key=value` argument, split at its first `=`
/// (`str::split_once`).
pub open spec fn split_once_eq(s: Seq<char>) -> Option<(Seq<char>, Seq<char>)> {
    if exists|i: int| is_first_eq(s, i) {
        let i = choose|i: int| is_first_eq(s, i);
        Some((s.take(i), s.skip(i + 1)))
    } else {
        None
    }
}

/// The values the arguments `args` give: for each key, the value of the
/// last argument with that key. Arguments without `=` give nothing.
pub open spec fn cli_values(args: Seq<String>) -> Map<Seq<char>, Seq<char>>
    decreases args.len(),
{
    if args.len() == 0 {
        Map::empty()
    } else {
        let m = cli_values(args.drop_last());
        match split_once_eq(args.last()@) {
            Some((k, v)) => m.insert(k, v),
            None => m,
        }
    }
}

/// The texts of `m` as YAML string values.
pub open spec fn yaml_values(m: Map<Seq<char>, Seq<char>>) -> Map<Seq<char>, serde_yaml::Value> {
    Map::new(|k: Seq<char>| m.contains_key(k), |k: Seq<char>| yaml_text(m[k]))
}

/// `m` completed, parameter by parameter in order, by the default of each
/// parameter that has one and no value yet.
pub open spec fn with_defaults(ps: Seq<Parameter>, m: Map<Seq<char>, serde_yaml::Value>) -> Map<
    Seq<char>,
    serde_yaml::Value,
>
    decreases ps.len(),
{
    if ps.len() == 0 {
        m
    } else {
        let m1 = with_defaults(ps.drop_last(), m);
        let p = ps.last();
        match p.default {
            Some(d) => if m1.contains_key(p.name@) {
                m1
            } else {
                m1.insert(p.name@, d)
            },
            None => m1,
        }
    }
}

/// Argument `i` of `args` has no `=`.
pub open spec fn bad_arg_at(args: Seq<String>, i: int) -> bool {
    0 <= i < args.len() && split_once_eq(args[i]@) is None
}

/// Parameter `i` is required, has no default, and has no value once the
/// parameters before it are completed.
pub open spec fn missing_param_at(ps: Seq<Parameter>, m: Map<Seq<char>, serde_yaml::Value>, i: int) -> bool {
    &&& 0 <= i < ps.len()
    &&& ps[i].required
    &&& ps[i].default is None
    &&& !with_defaults(ps.take(i), m).contains_key(ps[i].name@)
}

/// The refusal of an argument without `=`.
pub open spec fn bad_format_message(arg: Seq<char>) -> Seq<char> {
    "Invalid parameter format: "@ + arg + ". Use key=value"@
}

/// The split of `s` at the position `p` of its first `=`.
proof fn lemma_split_at(s: Seq<char>, p: int)
    requires
        is_first_eq(s, p),
    ensures
        split_once_eq(s) == Some((s.take(p), s.skip(p + 1))),
{
    let i = choose|i: int| is_first_eq(s, i);
    assert(is_first_eq(s, i));
    if i < p {
        assert(s[i] != '=');
    } else if i > p {
        assert(s[p] != '=');
    }
}

/// Parse parameters from a list of `key=value` strings, then fill in the
/// defaults of the workflow's parameters that were not given. The first
/// argument without `=` is refused; otherwise the first required parameter
/// left without a value is reported.
pub fn parse_parameters_from_values(param_values: &Vec<String>, workflow: &Workflow) -> (r: Result<
    Vec<(String, serde_yaml::Value)>,
    WorkflowError,
>)
    ensures
        r is Ok <==> (!exists|i: int| bad_arg_at(param_values@, i)) && !exists|i: int|
            missing_param_at(workflow.parameters@, yaml_values(cli_values(param_values@)), i),
        r matches Ok(v) ==> distinct_keys(v@) && entries(v@) == with_defaults(
            workflow.parameters@,
            yaml_values(cli_values(param_values@)),
        ),
        (exists|i: int| bad_arg_at(param_values@, i)) ==> exists|i: int|
            bad_arg_at(param_values@, i) && (forall|j: int| 0 <= j < i ==> !bad_arg_at(param_values@, j))
                && (r matches Err(WorkflowError::InvalidConfig(m)) && m@ == bad_format_message(
                param_values@[i]@,
            )),
        (!exists|i: int| bad_arg_at(param_values@, i)) && (exists|i: int|
            missing_param_at(workflow.parameters@, yaml_values(cli_values(param_values@)), i))
            ==> exists|i: int|
            missing_param_at(workflow.parameters@, yaml_values(cli_values(param_values@)), i) && (
            forall|j: int|
                0 <= j < i ==> !missing_param_at(
                    workflow.parameters@,
                    yaml_values(cli_values(param_values@)),
                    j,
                )) && r == Err::<Vec<(String, serde_yaml::Value)>, WorkflowError>(
                WorkflowError::MissingParameter(workflow.parameters@[i].name),
            ),
{
    let ghost args = param_values@;
    let mut parameters: Vec<(String, serde_yaml::Value)> = Vec::new();
    let mut i: usize = 0;
    assert(entries(parameters@) =~= yaml_values(cli_values(args.take(0))));
    while i < param_values.len()
        invariant
            i <= param_values.len(),
            args == param_values@,
            distinct_keys(parameters@),
            entries(parameters@) == yaml_values(cli_values(args.take(i as int))),
            forall|j: int| 0 <= j < i ==> !bad_arg_at(args, j),
        decreases param_values.len() - i,
    {
        let cs = text::str_chars(param_values[i].as_str());
        assert(args.take(i as int + 1).drop_last() =~= args.take(i as int));
        assert(args.take(i as int + 1).last() == args[i as int]);
        match text::find_char(&cs, '=') {
            Some(p) => {
                proof {
                    lemma_split_at(cs@, p as int);
                }
                let key = text::copy_range(&cs, 0, p);
                let value = text::copy_range(&cs, p + 1, cs.len());
                assert(key@ =~= cs@.take(p as int));
                assert(value@ =~= cs@.skip(p as int + 1));
                let ghost before = cli_values(args.take(i as int));
                put_entry(&mut parameters, text::chars_to_string(&key), yaml_string(text::chars_to_string(&value)));
                assert(cli_values(args.take(i as int + 1)) == before.insert(key@, value@));
                assert(entries(parameters@) =~= yaml_values(before.insert(key@, value@)));
            },
            None => {
                proof {
                    if exists|q: int| is_first_eq(cs@, q) {
                        let q = choose|q: int| is_first_eq(cs@, q);
                        assert(cs@[q] == '=');
                    }
                    assert(bad_arg_at(args, i as int));
                }
                let mut m = text::str_chars("Invalid parameter format: ");
                text::append_str(&mut m, param_values[i].as_str());
                text::append_str(&mut m, ". Use key=value");
                return Err(WorkflowError::InvalidConfig(text::chars_to_string(&m)));
            },
        }
        i = i + 1;
    }
    assert(args.take(args.len() as int) =~= args);
    let ghost base = yaml_values(cli_values(args));
    let ps = &workflow.parameters;
    let mut j: usize = 0;
    assert(ps@.take(0) =~= Seq::<Parameter>::empty());
    while j < ps.len()
        invariant
            j <= ps.len(),
            ps@ == workflow.parameters@,
            base == yaml_values(cli_values(param_values@)),
            !exists|i: int| bad_arg_at(param_values@, i),
            distinct_keys(parameters@),
            entries(parameters@) == with_defaults(ps@.take(j as int), base),
            forall|k: int| 0 <= k < j ==> !missing_param_at(ps@, base, k),
        decreases ps.len() - j,
    {
        assert(ps@.take(j as int + 1).drop_last() =~= ps@.take(j as int));
        assert(ps@.take(j as int + 1).last() == ps@[j as int]);
        assert(ps@.take(j as int + 1).take(j as int) =~= ps@.take(j as int));
        let found = find_key(&parameters, ps[j].name.as_str());
        match found {
            None => {
                assert(!entries(parameters@).contains_key(ps@[j as int].name@));
                match &ps[j].default {
                    Some(d) => {
                        put_entry(&mut parameters, ps[j].name.clone(), d.clone());
                    },
                    None => {
                        if ps[j].required {
                            assert(missing_param_at(ps@, base, j as int));
                            let name = ps[j].name.clone();
                            return Err(WorkflowError::MissingParameter(name));
                        }
                    },
                }
            },
            Some(idx) => {
                assert(parameters@[idx as int].0@ == ps@[j as int].name@);
                assert(entries(parameters@).contains_key(ps@[j as int].name@));
            },
        }
        j = j + 1;
    }
    assert(ps@.take(ps.len() as int) =~= ps@);
    Ok(parameters)
}

} // verus!
