//! Capture extraction with the `regex` crate.

use regex::Regex;
use vstd::prelude::*;

verus! {

/// What capture group 1 holds for the leftmost match of `pattern` in `text`,
/// with the syntax and the matching rules of the `regex` crate. `None` when
/// nothing in `text` matches, when the group took no part in the match, and
/// when `pattern` is no valid expression.
pub uninterp spec fn first_group(pattern: Seq<char>, text: Seq<char>) -> Option<Seq<char>>;

/// Compiles `pattern` with `Regex::new`, searches `text` with
/// `Regex::captures` and copies out group 1 with `Captures::get` and
/// `Match::as_str`. Trusted: the result is named, not described.
#[verifier::external_body]
pub(crate) fn capture_first_group(pattern: &str, text: &str) -> (captured: Option<String>)
    ensures
        captured.deep_view() == first_group(pattern@, text@),
{
    let compiled = match Regex::new(pattern) {
        Ok(compiled) => compiled,
        Err(_) => return None,
    };
    match compiled.captures(text) {
        Some(groups) => match groups.get(1) {
            Some(found) => Some(found.as_str().to_string()),
            None => None,
        },
        None => None,
    }
}

} // verus!
