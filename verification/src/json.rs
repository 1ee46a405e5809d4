//! Writing JSON text: string literals (escaped as `serde_json` escapes them),
//! optional strings (`null` when absent) and integers.
use crate::outside::encoding::{i64_string, json_quote, json_string, u64_string};
use crate::redirect::opt_view;
use crate::text::{decimal, signed_decimal};
use vstd::prelude::*;

verus! {

/// An optional string as JSON: its string literal, or `null`.
pub open spec fn json_opt_string(o: Option<Seq<char>>) -> Seq<char> {
    match o {
        Some(s) => json_string(s),
        None => "null"@,
    }
}

/// An optional signed integer as JSON: its numeral, or `null`.
pub open spec fn json_opt_int(o: Option<int>) -> Seq<char> {
    match o {
        Some(n) => signed_decimal(n),
        None => "null"@,
    }
}

/// Appends the JSON string literal of `s`.
pub fn push_string(out: &mut String, s: &str)
    ensures
        final(out)@ == old(out)@ + json_string(s@),
{
    let q = json_quote(s);
    out.append(q.as_str());
}

/// Appends an optional string as JSON.
pub fn push_opt_string(out: &mut String, s: &Option<String>)
    ensures
        final(out)@ == old(out)@ + json_opt_string(opt_view(*s)),
{
    match s {
        Some(v) => push_string(out, v.as_str()),
        None => out.append("null"),
    }
}

/// Appends the numeral of a signed integer.
pub fn push_i64(out: &mut String, n: i64)
    ensures
        final(out)@ == old(out)@ + signed_decimal(n as int),
{
    let t = i64_string(n);
    out.append(t.as_str());
}

/// Appends the numeral of an unsigned integer.
pub fn push_u64(out: &mut String, n: u64)
    ensures
        final(out)@ == old(out)@ + decimal(n as nat),
{
    let t = u64_string(n);
    out.append(t.as_str());
}

/// Appends an optional signed integer as JSON.
pub fn push_opt_i64(out: &mut String, n: Option<i64>)
    ensures
        final(out)@ == old(out)@ + json_opt_int(match n {
            Some(v) => Some(v as int),
            None => None,
        }),
{
    match n {
        Some(v) => push_i64(out, v),
        None => out.append("null"),
    }
}

} // verus!
