//! Regular expressions, matched by the `regex` crate.

use crate::paths::opt_view;
use vstd::prelude::*;

verus! {

/// What capture group `group` holds in the leftmost match of the regular
/// expression `pattern` in `text`, as the `regex` crate finds it: `None` where
/// `pattern` is no regular expression, where it matches nowhere in `text`, and
/// where the group took no part in the match.
pub uninterp spec fn regex_capture(pattern: Seq<char>, text: Seq<char>, group: nat) -> Option<
    Seq<char>,
>;

/// Compiles `pattern` with `regex::Regex::new`, searches `text` with
/// `Regex::captures` and copies out group `group` with `Captures::get`.
/// Trusted: the result is what the crate finds, which depends on the three
/// arguments alone.
#[verifier::external_body]
pub(crate) fn capture(pattern: &str, text: &str, group: usize) -> (r: Option<String>)
    ensures
        opt_view(r) == regex_capture(pattern@, text@, group as nat),
{
    match regex::Regex::new(pattern) {
        Ok(re) => re.captures(text).and_then(|c| c.get(group)).map(|m| m.as_str().to_string()),
        Err(_) => None,
    }
}

} // verus!
