//! Where and how metrics are written to InfluxDB.
use vstd::prelude::*;

use crate::format::{pair, pairs_view};
use crate::urls::{
    url_can_be_a_base,
    url_can_be_a_base_spec,
    url_push_segment,
    url_push_segment_spec,
    url_with_query,
    url_with_query_spec,
};

verus! {

/// Whether `reqwest::header::HeaderValue::from_str` takes a text: every byte
/// must be visible ASCII, a tab, or part of a non-ASCII character.
pub open spec fn valid_header_value(s: Seq<char>) -> bool {
    forall|i: int| 0 <= i < s.len() ==> #[trigger] s[i] == '\t' || (s[i] >= ' ' && s[i] != '\u{7f}')
}

/// `reqwest::header::HeaderValue::from_str(s).is_ok()`.
#[verifier::external_body]
fn header_value_ok(s: &str) -> (res: bool)
    ensures
        res == valid_header_value(s@),
{
    reqwest::header::HeaderValue::from_str(s).is_ok()
}

/// Why a client could not be made.
#[derive(Debug)]
pub enum InfluxError {
    /// The token makes no valid `Authorization` header.
    InvalidToken,
    /// The API URL does not parse.
    InvalidUrl(url::ParseError),
    /// The API URL has no path to add to ("Path segments should be parsable").
    NotABase,
}

/// What the client writes with: the bucket's URL, the header that
/// authorises it, and the tag of this instance.
#[derive(Debug, Clone, PartialEq, Eq)]
pub struct InfluxClient {
    pub url: String,
    pub auth_header: String,
    pub instance_tag: String,
}

/// The query that selects the bucket and organisation.
pub open spec fn bucket_query_spec(bucket: Seq<char>, org: Seq<char>) -> Seq<(Seq<char>, Seq<char>)> {
    seq![("bucket"@, bucket), ("org"@, org)]
}

/// The tags added to every written point: the app, and this instance.
pub open spec fn point_tags_spec(instance: Seq<char>) -> Seq<(Seq<char>, Seq<char>)> {
    seq![("app"@, "rustify"@), ("instance"@, instance)]
}

impl InfluxClient {
    /// A client for the API at `api_url` that writes into `bucket` of `org`
    /// with `token`; the instance tag is "unknown" when not given.  The token
    /// must make a valid header, and the URL must parse and take path segments.
    pub fn new(
        api_url: &str,
        bucket: &str,
        org: &str,
        token: &str,
        instance_tag: Option<&str>,
    ) -> (res: Result<Self, InfluxError>)
        ensures
            !valid_header_value("Token "@ + token@) ==> res matches Err(InfluxError::InvalidToken),
            valid_header_value("Token "@ + token@) ==> match url_with_query_spec(
                api_url@,
                bucket_query_spec(bucket@, org@),
            ) {
                None => res matches Err(InfluxError::InvalidUrl(_)),
                Some(u) => if !url_can_be_a_base_spec(u) {
                    res matches Err(InfluxError::NotABase)
                } else {
                    res matches Ok(c) && c.url@ == u && c.auth_header@ == "Token "@ + token@
                        && c.instance_tag@ == match instance_tag {
                        Some(t) => t@,
                        None => "unknown"@,
                    }
                },
            },
    {
        let mut auth_header = String::from_str("Token ");
        auth_header.append(token);
        if !header_value_ok(auth_header.as_str()) {
            return Err(InfluxError::InvalidToken);
        }
        let mut pairs: Vec<(String, String)> = Vec::new();
        pairs.push(pair("bucket", bucket));
        pairs.push(pair("org", org));
        assert(pairs_view(pairs@) =~= bucket_query_spec(bucket@, org@));
        let url = match url_with_query(api_url, &pairs) {
            Ok(u) => u,
            Err(e) => {
                return Err(InfluxError::InvalidUrl(e));
            },
        };
        if !url_can_be_a_base(url.as_str()) {
            return Err(InfluxError::NotABase);
        }
        let instance_tag = match instance_tag {
            Some(t) => t.to_owned(),
            None => String::from_str("unknown"),
        };
        Ok(InfluxClient { url, auth_header, instance_tag })
    }

    /// The URL points are written to: the bucket's URL with `write` added to its path.
    pub fn write_url(&self) -> (res: Option<String>)
        ensures
            match res {
                Some(u) => url_push_segment_spec(self.url@, "write"@) == Some(u@),
                None => url_push_segment_spec(self.url@, "write"@) is None,
            },
    {
        url_push_segment(self.url.as_str(), "write")
    }

    /// The tags added to every point (see [`point_tags_spec`]).
    pub fn point_tags(&self) -> (res: Vec<(String, String)>)
        ensures
            pairs_view(res@) == point_tags_spec(self.instance_tag@),
    {
        let mut res: Vec<(String, String)> = Vec::new();
        res.push(pair("app", "rustify"));
        res.push(pair("instance", self.instance_tag.as_str()));
        assert(pairs_view(res@) =~= point_tags_spec(self.instance_tag@));
        res
    }

    /// Writing needs at least one point ("No queries to write").
    pub fn can_write(points: usize) -> (res: bool)
        ensures
            res == (points > 0),
    {
        points > 0
    }
}

} // verus!
