//! Pattern extraction from loosely structured XML, done by the `regex`
//! crate.

use vstd::prelude::*;

verus! {

/// What `regex` finds for `pattern` in `haystack`: the text of capture group
/// 1 in the leftmost match, or `None` when the pattern does not compile,
/// nothing matches, or the group took no part in the match.
pub uninterp spec fn regex_first_group(pattern: Seq<char>, haystack: Seq<char>) -> Option<
    Seq<char>,
>;

/// The text of capture group 1 in the leftmost match of `pattern` in
/// `haystack`.
///
/// Trusted: compiles the pattern with `regex::Regex::new`, searches with
/// `Regex::captures` and reads `Captures::get(1)`. The contract only names
/// the outcome, as a function of the two texts; nothing else is claimed of
/// it.
#[verifier::external_body]
pub(crate) fn first_group(pattern: &str, haystack: &str) -> (found: Option<String>)
    ensures
        match found {
            Some(text) => regex_first_group(pattern@, haystack@) == Some(text@),
            None => regex_first_group(pattern@, haystack@) is None,
        },
{
    let re = match regex::Regex::new(pattern) {
        Ok(re) => re,
        Err(_) => return None,
    };
    let caps = match re.captures(haystack) {
        Some(caps) => caps,
        None => return None,
    };
    match caps.get(1) {
        Some(m) => Some(m.as_str().to_string()),
        None => None,
    }
}

} // verus!
