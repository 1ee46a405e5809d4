//! `GET /jwks.json`: the public key clients verify ID tokens with.
use crate::config::AppState;
use crate::jwk::Jwk;
use vstd::prelude::*;

verus! {

/// The key served: the public half of the server's key set.
pub fn get(state: &AppState) -> (r: &Jwk)
    ensures
        *r == state.keys.public,
{
    &state.keys.public
}

} // verus!
