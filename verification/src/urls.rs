//! URLs, parsed and resolved by the `url` crate.
//!
//! A URL is carried as its serialization, the text that `Url::as_str` gives.
use vstd::prelude::*;

verus! {

/// The serialization of `url::Url::parse(input)`, or `None` when it fails.
pub uninterp spec fn url_parse_spec(input: Seq<char>) -> Option<Seq<char>>;

/// The serialization of `url::Url::parse(base)` followed by `Url::join(input)`,
/// or `None` when either fails.
pub uninterp spec fn url_join_spec(base: Seq<char>, input: Seq<char>) -> Option<Seq<char>>;

/// `url::Url::parse(input)`, giving the parsed URL's serialization.
#[verifier::external_body]
pub(crate) fn url_parse(input: &str) -> (res: Result<String, url::ParseError>)
    ensures
        match res {
            Ok(u) => url_parse_spec(input@) == Some(u@),
            Err(_) => url_parse_spec(input@) is None,
        },
{
    url::Url::parse(input).map(|u| u.as_str().to_owned())
}

/// `url::Url::parse(base)` and then `Url::join(input)` on it, giving the
/// resolved URL's serialization.
#[verifier::external_body]
pub(crate) fn url_join(base: &str, input: &str) -> (res: Option<String>)
    ensures
        match res {
            Some(u) => url_join_spec(base@, input@) == Some(u@),
            None => url_join_spec(base@, input@) is None,
        },
{
    url::Url::parse(base).and_then(|b| b.join(input)).ok().map(|u| u.as_str().to_owned())
}

/// The serialization of `url::Url::parse(base)` with the pairs appended to its
/// query by `query_pairs_mut().extend_pairs(..)`, or `None` when the parse fails.
pub uninterp spec fn url_with_query_spec(base: Seq<char>, pairs: Seq<(Seq<char>, Seq<char>)>) -> Option<Seq<char>>;

/// Whether `url::Url::parse(url)` succeeds and gives a URL that can be a base
/// (one whose path segments can be changed).
pub uninterp spec fn url_can_be_a_base_spec(url: Seq<char>) -> bool;

/// The serialization of `url::Url::parse(url)` with `segment` pushed onto its
/// path by `path_segments_mut().push(..)`, or `None` when the parse fails or the
/// URL cannot be a base.
pub uninterp spec fn url_push_segment_spec(url: Seq<char>, segment: Seq<char>) -> Option<Seq<char>>;

/// `url::Url::parse(base)`, then `query_pairs_mut().extend_pairs(pairs)`.
#[verifier::external_body]
pub(crate) fn url_with_query(base: &str, pairs: &Vec<(String, String)>) -> (res: Result<String, url::ParseError>)
    ensures
        match res {
            Ok(u) => url_with_query_spec(base@, crate::format::pairs_view(pairs@)) == Some(u@),
            Err(_) => url_with_query_spec(base@, crate::format::pairs_view(pairs@)) is None,
        },
{
    let mut url = url::Url::parse(base)?;
    url.query_pairs_mut().extend_pairs(pairs.iter().map(|(k, v)| (k.as_str(), v.as_str())));
    Ok(url.as_str().to_owned())
}

/// `url::Url::parse(url)` succeeding with `!cannot_be_a_base()`.
#[verifier::external_body]
pub(crate) fn url_can_be_a_base(url: &str) -> (res: bool)
    ensures
        res == url_can_be_a_base_spec(url@),
{
    url::Url::parse(url).map(|u| !u.cannot_be_a_base()).unwrap_or(false)
}

/// `url::Url::parse(url)`, then `path_segments_mut()` and `push(segment)`.
#[verifier::external_body]
pub(crate) fn url_push_segment(url: &str, segment: &str) -> (res: Option<String>)
    ensures
        match res {
            Some(u) => url_push_segment_spec(url@, segment@) == Some(u@),
            None => url_push_segment_spec(url@, segment@) is None,
        },
{
    let mut u = url::Url::parse(url).ok()?;
    u.path_segments_mut().ok()?.push(segment);
    Some(u.as_str().to_owned())
}

} // verus!
