//! The boundary to the regular-expression engine.
//!
//! Whether a pattern compiles, whether it matches somewhere in a text, and
//! what a capture group yields are all functions of the pattern and the text
//! alone; the engine's behaviour is named here and never restated.

use vstd::prelude::*;

verus! {

pub uninterp spec fn regex_compiles(pattern: Seq<char>) -> bool;

pub uninterp spec fn regex_matches(pattern: Seq<char>, text: Seq<char>) -> bool;

pub uninterp spec fn regex_capture(pattern: Seq<char>, text: Seq<char>, group: int) -> Option<
    Seq<char>,
>;

/// Relies on `regex::Regex::new` and `regex::Regex::is_match`: compiling is
/// deterministic in the pattern, and an unanchored search through the text
/// depends on the pattern and the text alone. `None` reports a pattern that
/// does not compile.
#[verifier::external_body]
pub(crate) fn regex_is_match(pattern: &str, text: &str) -> (r: Option<bool>)
    ensures
        r is Some <==> regex_compiles(pattern@),
        r is Some ==> r->0 == regex_matches(pattern@, text@),
{
    match regex::Regex::new(pattern) {
        Ok(re) => Some(re.is_match(text)),
        Err(_) => None,
    }
}

/// Relies on `regex::Regex::new`, `regex::Regex::captures`, `Captures::get`
/// and `Match::as_str`: the text captured by a group of the first match
/// depends on the pattern, the text and the group index alone. The outer
/// `None` reports a pattern that does not compile; the inner `None` a text
/// without a match or a group that took no part in it.
#[verifier::external_body]
pub(crate) fn regex_capture_group(pattern: &str, text: &str, group: usize) -> (r: Option<
    Option<String>,
>)
    ensures
        r is Some <==> regex_compiles(pattern@),
        r is Some ==> (r->0 is Some <==> regex_capture(pattern@, text@, group as int) is Some),
        r is Some && r->0 is Some ==> r->0->0@ == regex_capture(pattern@, text@, group as int)->0,
{
    match regex::Regex::new(pattern) {
        Ok(re) => Some(
            re.captures(text).and_then(|caps| caps.get(group)).map(|m| m.as_str().to_string()),
        ),
        Err(_) => None,
    }
}

} // verus!
