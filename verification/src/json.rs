//! JSON values as the library reads them, and the accessors it uses on them.
//!
//! Parsing JSON text is done by `serde_json`; its result is carried in
//! [`JsonValue`], which holds what the library reads as plain values.
use vstd::prelude::*;

verus! {

/// A JSON number, as the accessors `as_i64` and `as_u64` of `serde_json`
/// report it. A number with a fraction or an exponent, or an integer beyond
/// both ranges, has neither: its value is not kept, as this library holds
/// no floating-point numbers.
pub struct JsonNumber {
    /// The number as an `i64`, where it is an integer in that range.
    pub as_i64: Option<i64>,
    /// The number as a `u64`, where it is a non-negative integer in that range.
    pub as_u64: Option<u64>,
}

/// A JSON value. Object members keep the order in which the parser hands
/// them out; member names are distinct.
pub enum JsonValue {
    Null,
    Bool(bool),
    Number(JsonNumber),
    Str(String),
    Array(Vec<JsonValue>),
    Object(Vec<(String, JsonValue)>),
}

/// The value of the first member named `key` among `members`.
pub open spec fn member(members: Seq<(String, JsonValue)>, key: Seq<char>) -> Option<JsonValue>
    decreases members.len(),
{
    if members.len() == 0 {
        None
    } else if members[0].0@ == key {
        Some(members[0].1)
    } else {
        member(members.drop_first(), key)
    }
}

/// `v[key]` where `v` is an object that has a member `key` (`Value::get`).
pub open spec fn get(v: JsonValue, key: Seq<char>) -> Option<JsonValue> {
    match v {
        JsonValue::Object(members) => member(members@, key),
        _ => None,
    }
}

/// The value that an optional reference points to.
pub open spec fn deref_opt(v: Option<&JsonValue>) -> Option<JsonValue> {
    match v {
        Some(x) => Some(*x),
        None => None,
    }
}

/// The text of a string value (`Value::as_str`).
pub open spec fn as_str(v: Option<JsonValue>) -> Option<Seq<char>> {
    match v {
        Some(JsonValue::Str(s)) => Some(s@),
        _ => None,
    }
}

/// A boolean value (`Value::as_bool`).
pub open spec fn as_bool(v: Option<JsonValue>) -> Option<bool> {
    match v {
        Some(JsonValue::Bool(b)) => Some(b),
        _ => None,
    }
}

/// An integer value in the range of `i64` (`Value::as_i64`).
pub open spec fn as_i64(v: Option<JsonValue>) -> Option<i64> {
    match v {
        Some(JsonValue::Number(n)) => n.as_i64,
        _ => None,
    }
}

/// A non-negative integer value in the range of `u64` (`Value::as_u64`).
pub open spec fn as_u64(v: Option<JsonValue>) -> Option<u64> {
    match v {
        Some(JsonValue::Number(n)) => n.as_u64,
        _ => None,
    }
}

/// The elements of an array value (`Value::as_array`).
pub open spec fn as_array(v: Option<JsonValue>) -> Option<Seq<JsonValue>> {
    match v {
        Some(JsonValue::Array(a)) => Some(a@),
        _ => None,
    }
}

/// The member `key` of `v`.
pub fn get_member<'a>(v: &'a JsonValue, key: &str) -> (r: Option<&'a JsonValue>)
    ensures
        r matches Some(x) ==> get(*v, key@) == Some(*x),
        r is None ==> get(*v, key@) is None,
{
    match v {
        JsonValue::Object(members) => {
            let k = crate::text::str_chars(key);
            let mut i: usize = 0;
            assert(members@.skip(0) =~= members@);
            while i < members.len()
                invariant
                    i <= members.len(),
                    k@ == key@,
                    get(*v, key@) == member(members@, key@),
                    member(members@, key@) == member(members@.skip(i as int), key@),
                decreases members.len() - i,
            {
                let ghost rest = members@.skip(i as int);
                assert(rest.drop_first() =~= members@.skip(i as int + 1));
                let name = crate::text::str_chars(members[i].0.as_str());
                if crate::text::chars_eq(&name, &k) {
                    assert(rest[0] == members@[i as int]);
                    return Some(&members[i].1);
                }
                i = i + 1;
            }
            None
        },
        _ => None,
    }
}

/// The text of `v`, where `v` is a string.
pub fn get_str(v: Option<&JsonValue>) -> (r: Option<&String>)
    ensures
        r matches Some(s) ==> as_str(deref_opt(v)) == Some(s@),
        r is None ==> as_str(deref_opt(v)) is None,
{
    match v {
        Some(JsonValue::Str(s)) => Some(s),
        _ => None,
    }
}

/// The boolean `v`, where `v` is one.
pub fn get_bool(v: Option<&JsonValue>) -> (r: Option<bool>)
    ensures
        r == as_bool(deref_opt(v)),
{
    match v {
        Some(JsonValue::Bool(b)) => Some(*b),
        _ => None,
    }
}

/// `v` as an `i64`, where it is such a number.
pub fn get_i64(v: Option<&JsonValue>) -> (r: Option<i64>)
    ensures
        r == as_i64(deref_opt(v)),
{
    match v {
        Some(JsonValue::Number(n)) => n.as_i64,
        _ => None,
    }
}

/// `v` as a `u64`, where it is such a number.
pub fn get_u64(v: Option<&JsonValue>) -> (r: Option<u64>)
    ensures
        r == as_u64(deref_opt(v)),
{
    match v {
        Some(JsonValue::Number(n)) => n.as_u64,
        _ => None,
    }
}

/// The elements of `v`, where `v` is an array.
pub fn get_array(v: Option<&JsonValue>) -> (r: Option<&Vec<JsonValue>>)
    ensures
        r matches Some(a) ==> as_array(deref_opt(v)) == Some(a@),
        r is None ==> as_array(deref_opt(v)) is None,
{
    match v {
        Some(JsonValue::Array(a)) => Some(a),
        _ => None,
    }
}

// ---------------------------------------------------------------------------
// Parsing, by serde_json
// ---------------------------------------------------------------------------

#[verifier::external_type_specification]
#[verifier::external_body]
pub struct ExSerdeJsonValue(serde_json::Value);

/// The JSON array that `text` holds, as `serde_json::from_str::<Vec<Value>>`
/// reads it; `None` where `text` is not a JSON array.
pub uninterp spec fn json_array_of(text: Seq<char>) -> Option<Seq<JsonValue>>;

/// Converts a `serde_json::Value` into a [`JsonValue`], variant by variant;
/// numbers are carried by what `Number::as_i64` and `Number::as_u64` give
/// (both `None` for a float). Nothing is stated of the result: the argument is opaque here.
#[verifier::external_body]
pub(crate) fn from_serde(v: serde_json::Value) -> JsonValue {
    match v {
        serde_json::Value::Null => JsonValue::Null,
        serde_json::Value::Bool(b) => JsonValue::Bool(b),
        serde_json::Value::Number(n) => JsonValue::Number(
            JsonNumber { as_i64: n.as_i64(), as_u64: n.as_u64() },
        ),
        serde_json::Value::String(s) => JsonValue::Str(s),
        serde_json::Value::Array(a) => JsonValue::Array(a.into_iter().map(from_serde).collect()),
        serde_json::Value::Object(o) => JsonValue::Object(
            o.into_iter().map(|(k, x)| (k, from_serde(x))).collect(),
        ),
    }
}

/// `serde_json::from_str::<Vec<serde_json::Value>>(text)`: the elements of the
/// JSON array that `text` holds, or `None` where the parser refuses `text`.
/// The result is named by `json_array_of`; the JSON grammar is not restated.
#[verifier::external_body]
pub(crate) fn parse_json_array(text: &str) -> (r: Option<Vec<JsonValue>>)
    ensures
        r matches Some(v) ==> json_array_of(text@) == Some(v@),
        r is None ==> json_array_of(text@) is None,
{
    match serde_json::from_str::<Vec<serde_json::Value>>(text) {
        Ok(vs) => Some(vs.into_iter().map(from_serde).collect()),
        Err(_) => None,
    }
}

} // verus!
