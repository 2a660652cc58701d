//! Regular expressions, run by the `regex` crate.
//!
//! Patterns are handed over as text; a pattern that does not compile yields
//! `None`.  What a match or a replacement gives back is named, not restated.
use vstd::prelude::*;

verus! {

/// What `Regex::new(pattern)` followed by `replace_all(haystack, NoExpand(replacement))`
/// gives back, or `None` when the pattern does not compile.
pub uninterp spec fn regex_replace_all_spec(
    pattern: Seq<char>,
    haystack: Seq<char>,
    replacement: Seq<char>,
) -> Option<Seq<char>>;

/// The capture groups of every successive non-overlapping match of `pattern` in
/// `haystack` (group 0 being the whole match, `None` for a group that did not take
/// part), or `None` when the pattern does not compile.
pub uninterp spec fn regex_captures_all_spec(pattern: Seq<char>, haystack: Seq<char>) -> Option<
    Seq<Seq<Option<Seq<char>>>>,
>;

/// Replaces every match of `pattern` in `haystack` by `replacement`, taken literally.
#[verifier::external_body]
pub(crate) fn regex_replace_all(pattern: &str, haystack: &str, replacement: &str) -> (res: Option<String>)
    ensures
        match res {
            Some(s) => regex_replace_all_spec(pattern@, haystack@, replacement@) == Some(s@),
            None => regex_replace_all_spec(pattern@, haystack@, replacement@) is None,
        },
{
    match regex::Regex::new(pattern) {
        Ok(re) => Some(re.replace_all(haystack, regex::NoExpand(replacement)).into_owned()),
        Err(_) => None,
    }
}

/// The capture groups of every match of `pattern` in `haystack`.
#[verifier::external_body]
pub(crate) fn regex_captures_all(pattern: &str, haystack: &str) -> (res: Option<Vec<Vec<Option<String>>>>)
    ensures
        match res {
            Some(v) => regex_captures_all_spec(pattern@, haystack@) == Some(
                v@.map_values(|m: Vec<Option<String>>| m@.map_values(|g: Option<String>| match g {
                    Some(s) => Some(s@),
                    None => None,
                })),
            ),
            None => regex_captures_all_spec(pattern@, haystack@) is None,
        },
{
    match regex::Regex::new(pattern) {
        Ok(re) => Some(
            re.captures_iter(haystack).map(|caps| {
                caps.iter().map(|g| g.map(|m| m.as_str().to_owned())).collect()
            }).collect(),
        ),
        Err(_) => None,
    }
}

/// The haystack with every match replaced, or the haystack itself when the pattern does
/// not compile.
pub open spec fn replace_or_keep(pattern: Seq<char>, haystack: Seq<char>, replacement: Seq<char>) -> Seq<char> {
    match regex_replace_all_spec(pattern, haystack, replacement) {
        Some(s) => s,
        None => haystack,
    }
}

/// [`regex_replace_all`], keeping the haystack when the pattern does not compile.
pub fn replace_all_or_keep(pattern: &str, haystack: &str, replacement: &str) -> (res: String)
    ensures
        res@ == replace_or_keep(pattern@, haystack@, replacement@),
{
    match regex_replace_all(pattern, haystack, replacement) {
        Some(s) => s,
        None => haystack.to_owned(),
    }
}

} // verus!
