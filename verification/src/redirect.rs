//! Redirect responses, and building the URLs they point at by adding query
//! pairs one after another.
use crate::error::STATUS_FOUND;
use crate::outside::web::{append_query_pair, url_with_pair};
use vstd::prelude::*;

verus! {

/// A `302 Found` response: its status and its `Location` header.
#[derive(Debug)]
pub struct Redirect {
    pub status: u16,
    pub location: String,
}

/// Whether `s` may stand in an HTTP header value: no control character but
/// horizontal tab, and no DEL (`http::HeaderValue::from_str` checks each byte
/// of the UTF-8 encoding this way; the bytes of a non-ASCII character always pass).
pub open spec fn header_value_ok(s: Seq<char>) -> bool {
    forall|i: int|
        0 <= i < s.len() ==> ((#[trigger] s[i] as int) >= 32 && s[i] as int != 127) || s[i] as int
            == 9
}

/// Whether `s` may stand in an HTTP header value.
pub fn valid_header_value(s: &str) -> (r: bool)
    ensures
        r == header_value_ok(s@),
{
    let n = s.unicode_len();
    let mut i: usize = 0;
    while i < n
        invariant
            n == s@.len(),
            i <= n,
            forall|k: int|
                0 <= k < i ==> ((#[trigger] s@[k] as int) >= 32 && s@[k] as int != 127) || s@[k]
                    as int == 9,
        decreases n - i,
    {
        let c = s.get_char(i);
        if !((c as u32 >= 32 && c as u32 != 127) || c as u32 == 9) {
            return false;
        }
        i = i + 1;
    }
    true
}

/// A `302 Found` redirect to `location`. The location must be a valid header
/// value.
pub fn found(location: &str) -> (r: Redirect)
    requires
        header_value_ok(location@),
    ensures
        r.status == STATUS_FOUND,
        r.location@ == location@,
{
    Redirect { status: STATUS_FOUND, location: location.to_owned() }
}

/// The URL `url`, if there is one, with `key=value` added to its query.
pub open spec fn then_pair(url: Option<Seq<char>>, key: Seq<char>, value: Seq<char>) -> Option<
    Seq<char>,
> {
    match url {
        Some(u) => url_with_pair(u, key, value),
        None => None,
    }
}

/// The URL `url` with `state=value` added where a state is given.
pub open spec fn then_state(url: Option<Seq<char>>, state: Option<Seq<char>>) -> Option<Seq<char>> {
    match state {
        Some(s) => then_pair(url, "state"@, s),
        None => url,
    }
}

/// The view of an optional string.
pub open spec fn opt_view(o: Option<String>) -> Option<Seq<char>> {
    match o {
        Some(s) => Some(s@),
        None => None,
    }
}

/// Adds `key=value` to the query of `url`, if there is a URL.
pub fn add_pair(url: Option<String>, key: &str, value: &str) -> (r: Option<String>)
    ensures
        opt_view(r) == then_pair(opt_view(url), key@, value@),
{
    match url {
        Some(u) => append_query_pair(u.as_str(), key, value),
        None => None,
    }
}

/// Adds `state=value` to the query of `url` where a state is given.
pub fn add_state(url: Option<String>, state: &Option<String>) -> (r: Option<String>)
    ensures
        opt_view(r) == then_state(opt_view(url), opt_view(*state)),
{
    match state {
        Some(s) => add_pair(url, "state", s.as_str()),
        None => url,
    }
}

} // verus!
