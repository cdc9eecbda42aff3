//! Searching a text for a regular expression, which is left to `regex`.

use vstd::prelude::*;

verus! {

/// What `regex` finds of `pattern` in `haystack`: the text of the first
/// match, or nothing where there is no match or `pattern` is no regular
/// expression.
pub uninterp spec fn regex_first_match(pattern: Seq<char>, haystack: Seq<char>) -> Option<
    Seq<char>,
>;

/// Compiles `pattern` with `Regex::new` and searches `haystack` with
/// `Regex::find`, whose match is handed out as the text it covers. A pattern
/// that does not compile finds nothing. The result is a function of the two
/// texts alone.
#[verifier::external_body]
pub(crate) fn find_first(pattern: &str, haystack: &str) -> (found: Option<String>)
    ensures
        match found {
            Some(text) => regex_first_match(pattern@, haystack@) == Some(text@),
            None => regex_first_match(pattern@, haystack@) is None,
        },
{
    match regex::Regex::new(pattern) {
        Ok(re) => re.find(haystack).map(|m| m.as_str().to_owned()),
        Err(_) => None,
    }
}

} // verus!
