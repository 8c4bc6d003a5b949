//! JSON documents, read through `serde_json`.
//!
//! A document is a `serde_json::Value`, which the verifier cannot look into.
//! What the parser and the accessors of `serde_json` return is therefore
//! named by uninterpreted functions, and the logic of this module (walking a
//! path of keys and positions) is stated over those names.

use vstd::prelude::*;

verus! {

#[verifier::external_type_specification]
#[verifier::external_body]
pub struct ExJsonValue(serde_json::Value);

/// The document that `serde_json::from_str` reads from `text`; `None` where
/// it rejects the text.
pub uninterp spec fn json_document(text: Seq<char>) -> Option<serde_json::Value>;

/// What `serde_json::Value::get` finds in `value` under the string `key`.
pub uninterp spec fn json_member(value: serde_json::Value, key: Seq<char>) -> Option<
    serde_json::Value,
>;

/// What `serde_json::Value::get` finds in `value` at the position `index`.
pub uninterp spec fn json_element(value: serde_json::Value, index: int) -> Option<
    serde_json::Value,
>;

/// What `serde_json::Value::as_str` returns for `value`.
pub uninterp spec fn json_text(value: serde_json::Value) -> Option<Seq<char>>;

/// What `serde_json::Value::as_i64` returns for `value`.
pub uninterp spec fn json_integer(value: serde_json::Value) -> Option<i64>;

/// Calls `serde_json::from_str` for a `Value` and drops the error: the result
/// is the document that the parser reads from `text`, and `None` exactly where
/// the parser returns an error.
#[verifier::external_body]
pub(crate) fn parse_document(text: &str) -> (document: Option<serde_json::Value>)
    ensures
        document == json_document(text@),
{
    serde_json::from_str(text).ok()
}

/// Calls `serde_json::Value::get` with a string: the member under `key` where
/// `value` is an object that has one, else `None`.
#[verifier::external_body]
fn member<'a>(value: &'a serde_json::Value, key: &str) -> (found: Option<&'a serde_json::Value>)
    ensures
        match found {
            Some(inner) => json_member(*value, key@) == Some(*inner),
            None => json_member(*value, key@) is None,
        },
{
    value.get(key)
}

/// Calls `serde_json::Value::get` with a `usize`: the element at `index` where
/// `value` is an array that long, else `None`.
#[verifier::external_body]
fn element<'a>(value: &'a serde_json::Value, index: usize) -> (found: Option<
    &'a serde_json::Value,
>)
    ensures
        match found {
            Some(inner) => json_element(*value, index as int) == Some(*inner),
            None => json_element(*value, index as int) is None,
        },
{
    value.get(index)
}

/// `as_str` gives the text of a JSON string, and `None` for any other value.
pub assume_specification<'a>[ serde_json::Value::as_str ](value: &'a serde_json::Value) -> (text:
    Option<&'a str>)
    ensures
        match text {
            Some(inner) => json_text(*value) == Some(inner@),
            None => json_text(*value) is None,
        },
;

/// `as_i64` gives the number where the value is an integer that fits `i64`,
/// and `None` for any other value.
pub assume_specification[ serde_json::Value::as_i64 ](value: &serde_json::Value) -> (number:
    Option<i64>)
    ensures
        number == json_integer(*value),
;

/// One step into a document: the member of an object or the element of an
/// array.
#[derive(Clone, Copy, Debug)]
pub enum Step<'a> {
    /// The member under this key.
    Key(&'a str),
    /// The element at this position.
    Index(usize),
}

/// What one step from `value` reaches.
pub open spec fn json_step(value: serde_json::Value, step: Step) -> Option<serde_json::Value> {
    match step {
        Step::Key(key) => json_member(value, key@),
        Step::Index(index) => json_element(value, index as int),
    }
}

/// What the steps of `path`, taken in order from `value`, reach; `None` as
/// soon as one step finds nothing.
pub open spec fn json_at(value: serde_json::Value, path: Seq<Step>) -> Option<serde_json::Value>
    decreases path.len(),
{
    if path.len() == 0 {
        Some(value)
    } else {
        match json_step(value, path[0]) {
            Some(inner) => json_at(inner, path.skip(1)),
            None => None,
        }
    }
}

/// Follows `path` from `value`.
pub fn descend<'a>(value: &'a serde_json::Value, path: &[Step]) -> (found: Option<
    &'a serde_json::Value,
>)
    ensures
        match found {
            Some(inner) => json_at(*value, path@) == Some(*inner),
            None => json_at(*value, path@) is None,
        },
{
    let mut current: &'a serde_json::Value = value;
    let mut taken: usize = 0;
    assert(path@.skip(0) == path@);
    while taken < path.len()
        invariant
            taken <= path.len(),
            json_at(*value, path@) == json_at(*current, path@.skip(taken as int)),
        decreases path.len() - taken,
    {
        let next = match path[taken] {
            Step::Key(key) => member(current, key),
            Step::Index(index) => element(current, index),
        };
        proof {
            let rest = path@.skip(taken as int);
            assert(rest[0] == path@[taken as int]);
            assert(rest.skip(1) == path@.skip(taken + 1));
        }
        match next {
            Some(inner) => {
                current = inner;
            },
            None => {
                return None;
            },
        }
        taken += 1;
    }
    assert(path@.skip(taken as int).len() == 0);
    Some(current)
}

} // verus!
