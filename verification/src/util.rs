//! Helpers shared by the handlers.
use crate::error::STATUS_FOUND;
use crate::redirect::{found, header_value_ok, Redirect};
use vstd::prelude::*;

verus! {

/// A `302 Found` redirect to `location`, which must be a valid header value.
pub fn found_redirect(location: &str) -> (r: Redirect)
    requires
        header_value_ok(location@),
    ensures
        r.status == STATUS_FOUND,
        r.location@ == location@,
{
    found(location)
}

} // verus!
