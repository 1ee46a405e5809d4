//! UUIDs (the `uuid` crate), held by the library as `u128` in big-endian
//! order, as `Uuid::as_u128` gives them.
use crate::text::{all_hex, hex_digits, hex_number, hex_value, lemma_hex_digits_read_back, pow16};
use vstd::prelude::*;

verus! {

/// Whether `u` has the version and variant bits of a random (version 4,
/// RFC 4122 variant) UUID.
pub open spec fn is_v4(u: u128) -> bool {
    &&& (u as int / 0x10000000000000000000) % 16 == 4
    &&& (u as int / 0x4000000000000000) % 4 == 2
}

/// The simple form of a UUID: its 32 lowercase hexadecimal digits.
pub open spec fn simple_form(u: u128) -> Seq<char> {
    hex_digits(u as nat, 32)
}

/// The hyphenated form of a UUID: 8-4-4-4-12 lowercase hexadecimal digits.
pub open spec fn hyphenated_form(u: u128) -> Seq<char> {
    let s = simple_form(u);
    s.subrange(0, 8) + seq!['-'] + s.subrange(8, 12) + seq!['-'] + s.subrange(12, 16)
        + seq!['-'] + s.subrange(16, 20) + seq!['-'] + s.subrange(20, 32)
}

/// The value of 32 hexadecimal digits (either case), if they are all digits.
pub open spec fn parse_hex32(s: Seq<char>) -> Option<u128> {
    if s.len() == 32 && all_hex(s) {
        Some(hex_number(s) as u128)
    } else {
        None
    }
}

/// A hyphenated UUID: 36 characters with hyphens at 8, 13, 18 and 23 and
/// hexadecimal digits everywhere else.
pub open spec fn parse_hyphenated(s: Seq<char>) -> Option<u128> {
    if s.len() == 36 && s[8] == '-' && s[13] == '-' && s[18] == '-' && s[23] == '-' {
        parse_hex32(
            s.subrange(0, 8) + s.subrange(9, 13) + s.subrange(14, 18) + s.subrange(19, 23)
                + s.subrange(24, 36),
        )
    } else {
        None
    }
}

/// `c` with ASCII upper case letters lowered.
pub open spec fn ascii_lower(c: char) -> char {
    if 'A' <= c && c <= 'Z' {
        ((c as int) + 32) as char
    } else {
        c
    }
}

/// What `Uuid::parse_str` accepts: the simple form (32 digits), the
/// hyphenated form, the hyphenated form in braces, or the hyphenated form
/// after a `urn:uuid:` prefix in any case.
pub open spec fn parse_uuid(s: Seq<char>) -> Option<u128> {
    if s.len() == 32 {
        parse_hex32(s)
    } else if s.len() == 36 {
        parse_hyphenated(s)
    } else if s.len() == 38 && s[0] == '{' && s[37] == '}' {
        parse_hyphenated(s.subrange(1, 37))
    } else if s.len() == 45 && s.subrange(0, 9).map_values(|c: char| ascii_lower(c))
        =~= seq!['u', 'r', 'n', ':', 'u', 'u', 'i', 'd', ':'] {
        parse_hyphenated(s.subrange(9, 45))
    } else {
        None
    }
}

/// `uuid::Uuid::new_v4`: a fresh random UUID. Nothing is claimed of its value
/// but its version and variant bits, which the crate sets on every one.
#[verifier::external_body]
pub(crate) fn new_v4() -> (r: u128)
    ensures
        is_v4(r),
{
    uuid::Uuid::new_v4().as_u128()
}

/// `Uuid::simple` displayed: the 32 lowercase hexadecimal digits.
#[verifier::external_body]
pub(crate) fn simple_string(u: u128) -> (r: String)
    ensures
        r@ == simple_form(u),
{
    uuid::Uuid::from_u128(u).simple().to_string()
}

/// `Uuid`'s `Display` (`to_string`): the hyphenated lowercase form.
#[verifier::external_body]
pub(crate) fn hyphenated_string(u: u128) -> (r: String)
    ensures
        r@ == hyphenated_form(u),
{
    uuid::Uuid::from_u128(u).to_string()
}

/// `str::parse::<Uuid>` (`Uuid::parse_str`), the error dropped. The crate
/// dispatches on the byte length; every accepted form is ASCII, so a string
/// with any other character is refused either way.
#[verifier::external_body]
pub(crate) fn parse(s: &str) -> (r: Option<u128>)
    ensures
        r == parse_uuid(s@),
{
    match s.parse::<uuid::Uuid>() {
        Ok(u) => Some(u.as_u128()),
        Err(_) => None,
    }
}

/// `uuid::NonNilUuid::new`: `Some` exactly for a UUID that is not all zeros.
#[verifier::external_body]
pub(crate) fn non_nil(u: u128) -> (r: Option<u128>)
    ensures
        r == (if u == 0 { None::<u128> } else { Some(u) }),
{
    match uuid::NonNilUuid::new(uuid::Uuid::from_u128(u)) {
        Some(n) => Some(n.get().as_u128()),
        None => None,
    }
}

} // verus!

verus! {

/// `str::parse::<uuid::fmt::Simple>`, the error dropped: exactly 32
/// hexadecimal digits, either case.
#[verifier::external_body]
pub(crate) fn parse_simple(s: &str) -> (r: Option<u128>)
    ensures
        r == parse_hex32(s@),
{
    match s.parse::<uuid::fmt::Simple>() {
        Ok(u) => Some(u.into_uuid().as_u128()),
        Err(_) => None,
    }
}

/// The simple form of a UUID is 32 ASCII characters that parse back to it,
/// both as the simple form and as any UUID.
pub proof fn lemma_simple_form_parses(u: u128)
    ensures
        simple_form(u).len() == 32,
        vstd::utf8::is_ascii_chars(simple_form(u)),
        parse_hex32(simple_form(u)) == Some(u),
        parse_uuid(simple_form(u)) == Some(u),
{
    lemma_hex_digits_read_back(u as nat, 32);
    assert(pow16(32) == 0x1_0000_0000_0000_0000_0000_0000_0000_0000nat) by {
        reveal_with_fuel(pow16, 33);
    }
    vstd::arithmetic::div_mod::lemma_small_mod(u as nat, pow16(32));
}

} // verus!
