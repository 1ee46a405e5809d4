//! URLs (`url` crate), request URIs (`http` crate) and Redis URLs (`redis`). The library holds a
//! URL as its serialization, the string `Url::as_str` gives; two URLs are
//! equal exactly when their serializations are.
use vstd::prelude::*;

verus! {

/// What `url::Url::parse` makes of `input`: the serialization of the parsed
/// URL, or `None` where it reports an error.
pub uninterp spec fn url_parsed(input: Seq<char>) -> Option<Seq<char>>;

/// `url::Url::parse` followed by `Url::as_str`.
#[verifier::external_body]
pub(crate) fn parse_url(input: &str) -> (r: Option<String>)
    ensures
        match r {
            Some(s) => url_parsed(input@) == Some(s@),
            None => url_parsed(input@) is None,
        },
{
    match url::Url::parse(input) {
        Ok(u) => Some(u.as_str().to_owned()),
        Err(_) => None,
    }
}

/// The serialization of the URL `url` once `query_pairs_mut().append_pair(key,
/// value)` has added the pair to its query, form-urlencoded; `None` where
/// `url` does not parse.
pub uninterp spec fn url_with_pair(url: Seq<char>, key: Seq<char>, value: Seq<char>) -> Option<
    Seq<char>,
>;

/// `url::Url::parse(url)`, then `query_pairs_mut().append_pair(key, value)`
/// on the parsed URL, then `Url::as_str`.
#[verifier::external_body]
pub(crate) fn append_query_pair(url: &str, key: &str, value: &str) -> (r: Option<String>)
    ensures
        match r {
            Some(s) => url_with_pair(url@, key@, value@) == Some(s@),
            None => url_with_pair(url@, key@, value@) is None,
        },
{
    match url::Url::parse(url) {
        Ok(mut u) => {
            u.query_pairs_mut().append_pair(key, value);
            Some(u.as_str().to_owned())
        },
        Err(_) => None,
    }
}

/// Whether `input` parses as an `http::Uri`.
pub uninterp spec fn uri_parses(input: Seq<char>) -> bool;

/// `input.parse::<http::Uri>().is_ok()`.
#[verifier::external_body]
pub(crate) fn parse_uri(input: &str) -> (r: bool)
    ensures
        r == uri_parses(input@),
{
    input.parse::<http::Uri>().is_ok()
}

/// Whether the Redis client accepts `url` as its connection information (a
/// `redis://`, `rediss://`, `valkey://` or `unix://` URL it can read).
pub uninterp spec fn redis_url_accepted(url: Seq<char>) -> bool;

/// `redis::Client::open(url)`, which only reads the URL into connection
/// information (`IntoConnectionInfo`) and connects to nothing, succeeding.
#[verifier::external_body]
pub(crate) fn redis_url_ok(url: &str) -> (r: bool)
    ensures
        r == redis_url_accepted(url@),
{
    redis::Client::open(url).is_ok()
}

} // verus!
