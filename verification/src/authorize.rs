//! The first form of the authorization endpoint: it checks that the
//! redirect URL is a URI and that the code flow with S256 PKCE is asked for.
use crate::endpoints::authorize::PromptType;
use crate::error::{buzzer, extremely_loud_incorrect_buzzer, ApiError, STATUS_BAD_REQUEST};
use crate::outside::web::{parse_uri, uri_parses};
use vstd::prelude::*;

verus! {

/// The query of an authorization request.
#[derive(Debug)]
pub struct AuthorizeQuery {
    pub response_type: String,
    pub client_id: String,
    pub redirect_url: String,
    pub scope: String,
    pub state: Option<String>,
    pub code_challenge: String,
    pub code_challenge_method: String,
    pub prompt: Option<PromptType>,
}

/// Checks an authorization request: a redirect URL that is not a URI, or a
/// request for anything but the code flow with S256 PKCE, is a `400` with
/// the buzzer message; an acceptable request is answered with `todo`.
pub fn authorize(query: &AuthorizeQuery) -> (r: Result<&'static str, ApiError>)
    ensures
        match r {
            Ok(s) => {
                &&& uri_parses(query.redirect_url@)
                &&& query.response_type@ == "code"@
                &&& query.code_challenge_method@ == "S256"@
                &&& s@ == "todo"@
            },
            Err(e) => {
                &&& !(uri_parses(query.redirect_url@) && query.response_type@ == "code"@
                    && query.code_challenge_method@ == "S256"@)
                &&& e.is(buzzer(), STATUS_BAD_REQUEST)
            },
        },
{
    if !parse_uri(query.redirect_url.as_str()) {
        return Err(ApiError::with_status(extremely_loud_incorrect_buzzer(), STATUS_BAD_REQUEST));
    }
    if query.response_type != String::from_str("code") || query.code_challenge_method
        != String::from_str("S256") {
        return Err(ApiError::with_status(extremely_loud_incorrect_buzzer(), STATUS_BAD_REQUEST));
    }
    Ok("todo")
}

} // verus!
