//! Regular-expression captures through the `regex` crate.
use vstd::prelude::*;

use crate::text::contains;

verus! {

/// The text of capture group 1 of the leftmost match of `pattern` in `text`
/// (`regex::Regex` semantics), if `pattern` compiles, matches, and the group
/// took part in the match.
pub uninterp spec fn regex_first_group(text: Seq<char>, pattern: Seq<char>) -> Option<Seq<char>>;

/// Compiles `pattern` with `regex::Regex::new` and returns group 1 of
/// `Regex::captures(text)`. A capture is a piece of `text`
/// (`Match::as_str` borrows from the haystack).
#[verifier::external_body]
pub(crate) fn capture_first_group(text: &str, pattern: &str) -> (r: Option<String>)
    ensures
        r.deep_view() == regex_first_group(text@, pattern@),
        r matches Some(g) ==> contains(text@, g@),
{
    let regex = regex::Regex::new(pattern).ok()?;
    regex.captures(text).and_then(|captures| captures.get(1)).map(|m| m.as_str().to_owned())
}

} // verus!
