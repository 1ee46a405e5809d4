//! Optional non-nil UUIDs written in simple form (32 lowercase hexadecimal
//! digits) and read back, a nil UUID read back as absent.
use crate::outside::ids::{non_nil, parse_hex32, parse_simple, simple_form, simple_string};
use vstd::prelude::*;

verus! {

/// A written UUID that is not 32 hexadecimal digits.
#[derive(Debug)]
pub struct NotSimpleUuid;

/// The simple form of the UUID, if there is one. A non-nil UUID is never 0.
pub fn serialize(u: Option<u128>) -> (r: Option<String>)
    requires
        u matches Some(x) ==> x != 0,
    ensures
        match u {
            Some(x) => r matches Some(s) && s@ == simple_form(x),
            None => r is None,
        },
{
    match u {
        Some(x) => Some(simple_string(x)),
        None => None,
    }
}

/// Reads back an optional UUID in simple form: absent stays absent, text
/// that is not 32 hexadecimal digits is an error, and the nil UUID reads as
/// absent.
pub fn deserialize(text: Option<&str>) -> (r: Result<Option<u128>, NotSimpleUuid>)
    ensures
        match text {
            None => r matches Ok(o) && o is None,
            Some(t) => match parse_hex32(t@) {
                None => r is Err,
                Some(u) => r matches Ok(o) && o == (if u == 0 { None } else { Some(u) }),
            },
        },
{
    match text {
        None => Ok(None),
        Some(t) => match parse_simple(t) {
            None => Err(NotSimpleUuid),
            Some(u) => Ok(non_nil(u)),
        },
    }
}

} // verus!
