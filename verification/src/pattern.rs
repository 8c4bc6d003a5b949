//! Regular expressions, matched by the `regex` crate.
//!
//! Which texts a pattern matches takes the whole of that crate to say, so what
//! it returns is named by uninterpreted functions of the pattern and the text.

use vstd::prelude::*;

verus! {

#[verifier::external_type_specification]
#[verifier::external_body]
pub struct ExRegex(regex::Regex);

/// The expression that `regex::Regex::new` compiles from `pattern`; `None`
/// where it rejects the pattern.
pub uninterp spec fn compiled_pattern(pattern: Seq<char>) -> Option<regex::Regex>;

/// The text of capture group `group` in the leftmost match that
/// `regex::Regex::captures` finds in `text`; `None` where nothing matches or
/// the group took no part in the match.
pub uninterp spec fn captured_group(expression: regex::Regex, text: Seq<char>, group: int) -> Option<
    Seq<char>,
>;

/// Calls `regex::Regex::new` and drops the error: the result is the compiled
/// expression, and `None` exactly where the pattern is rejected.
#[verifier::external_body]
fn compile(pattern: &str) -> (expression: Option<regex::Regex>)
    ensures
        expression == compiled_pattern(pattern@),
{
    regex::Regex::new(pattern).ok()
}

/// Calls `regex::Regex::captures` and copies the text of one group out of the
/// match: the result is the text that group `group` matched in the leftmost
/// match, and `None` where there is no match or no such group in it.
#[verifier::external_body]
fn capture(expression: &regex::Regex, text: &str, group: usize) -> (found: Option<String>)
    ensures
        found.deep_view() == captured_group(*expression, text@, group as int),
{
    expression.captures(text).and_then(|found| found.get(group)).map(|part| part.as_str().to_string())
}

/// What group `group` of `pattern` captures in the leftmost match in `text`;
/// `None` also where the pattern is not a valid expression.
pub open spec fn first_capture_of(pattern: Seq<char>, text: Seq<char>, group: int) -> Option<
    Seq<char>,
> {
    match compiled_pattern(pattern) {
        Some(expression) => captured_group(expression, text, group),
        None => None,
    }
}

/// Matches `pattern` against `text` and returns what group `group` captured
/// in the leftmost match.
pub fn first_capture(pattern: &str, text: &str, group: usize) -> (found: Option<String>)
    ensures
        found.deep_view() == first_capture_of(pattern@, text@, group as int),
{
    match compile(pattern) {
        Some(expression) => capture(&expression, text, group),
        None => None,
    }
}

} // verus!
