//! `GET /authorize`: the start of the authorization-code flow with PKCE. A
//! signed-in user whose session already grants the requested scope gets a
//! code at once; `prompt=none` without one is answered `login_required`;
//! everyone else is sent to sign in with Google.
use crate::config::AppState;
use crate::endpoints::callback::goog::{redirect_url, redirect_url_of};
use crate::error::{
    buzzer, extremely_loud_incorrect_buzzer, ApiError, STATUS_BAD_REQUEST, STATUS_FOUND,
    STATUS_INTERNAL_SERVER_ERROR,
};
use crate::model::{AuthCode, BackingOauthState, BincodableUrl, Session};
use crate::outside::ids::{
    hyphenated_form, hyphenated_string, is_v4, new_v4, parse, parse_uuid, simple_form,
    simple_string,
};
use crate::outside::web::{parse_url, url_parsed};
use crate::redirect::{
    add_pair, add_state, found, header_value_ok, opt_view, then_pair, then_state,
    valid_header_value, Redirect,
};
use crate::scope::scope_covers;
use crate::text::words_within;
use vstd::prelude::*;

verus! {

/// The clients that may use this server.
pub open spec fn known_client(client_id: Seq<char>) -> bool {
    client_id == "test"@
}

/// Whether a client may be sent to `redirect_url`. Only the client is
/// checked; the redirect URL is not yet.
pub fn allowed(client_id: &str, redirect_url: &str) -> (r: bool)
    ensures
        r == known_client(client_id@),
{
    String::from_str(client_id) == String::from_str("test")
}

/// The `prompt` parameter.
#[derive(Clone, Copy, Debug, PartialEq, Eq, Structural)]
pub enum PromptType {
    /// `prompt=none`: no sign-in page may be shown.
    Silent,
    /// `prompt=consent`.
    Consent,
}

/// The query of an authorization request.
#[derive(Debug)]
pub struct AuthorizeQuery {
    pub response_type: String,
    pub client_id: String,
    /// The serialization of the (parsed) redirect URL.
    pub redirect_uri: String,
    pub scope: String,
    pub state: Option<String>,
    pub code_challenge: String,
    pub code_challenge_method: String,
    pub prompt: Option<PromptType>,
}

/// Whether the request asks for the authorization-code flow with S256 PKCE.
pub open spec fn code_flow(q: AuthorizeQuery) -> bool {
    q.response_type@ == "code"@ && q.code_challenge_method@ == "S256"@
}

/// Whether the user's session answers the request without a new sign-in:
/// there is a session, consent is not demanded, and every requested scope
/// word is granted to it.
pub open spec fn session_suffices(q: AuthorizeQuery, session: Option<&Session>) -> bool {
    &&& session is Some
    &&& q.prompt != Some(PromptType::Consent)
    &&& words_within(q.scope@, session->0.scope@)
}

/// The client's redirect URL with `code` and, where given, `state` added.
pub open spec fn code_redirect(redirect_uri: Seq<char>, code: u128, state: Option<Seq<char>>) -> Option<Seq<char>> {
    then_state(then_pair(Some(redirect_uri), "code"@, simple_form(code)), state)
}

/// The client's redirect URL with `error=login_required` and, where given,
/// `state` added.
pub open spec fn login_required_redirect(redirect_uri: Seq<char>, state: Option<Seq<char>>) -> Option<Seq<char>> {
    then_state(then_pair(Some(redirect_uri), "error"@, "login_required"@), state)
}

/// The Google sign-in URL for a request parked under `state_id`.
pub open spec fn google_redirect(
    google_client_id: Seq<char>,
    issuer: Seq<char>,
    scope: Seq<char>,
    state_id: u128,
) -> Option<Seq<char>> {
    let u0 = url_parsed("https://accounts.google.com/o/oauth2/v2/auth"@);
    let u1 = then_pair(u0, "client_id"@, google_client_id);
    let u2 = then_pair(u1, "response_type"@, "code"@);
    let u3 = then_pair(u2, "redirect_uri"@, redirect_url_of(issuer));
    let u4 = then_pair(u3, "scope"@, scope);
    let u5 = then_pair(u4, "state"@, hyphenated_form(state_id));
    let u6 = then_pair(u5, "access_type"@, "offline"@);
    let u7 = then_pair(u6, "prompt"@, "select_account"@);
    then_pair(u7, "hl"@, "en-GB"@)
}

/// Whether `target` is a URL a redirect can point at.
pub open spec fn redirectable(target: Option<Seq<char>>) -> bool {
    target matches Some(t) && header_value_ok(t)
}

/// Whether `r` redirects to `target`.
pub open spec fn redirects_to(r: Redirect, target: Option<Seq<char>>) -> bool {
    r.status == STATUS_FOUND && target == Some(r.location@)
}

/// What an authorization request comes to.
#[derive(Debug)]
pub enum AuthorizeOutcome {
    /// The session answers the request: the new code is to be stored under
    /// `code`, and the client redirected with it.
    Issued { code: u128, auth_code: AuthCode, redirect: Redirect },
    /// `prompt=none` and no session that answers: the client is told to sign in.
    LoginRequired { redirect: Redirect },
    /// The request is parked under `state_id` while the user signs in with Google.
    Upstream { state_id: u128, backing: BackingOauthState, redirect: Redirect },
}

/// The message for a redirect URL that cannot be extended or sent.
pub open spec fn bad_redirect_message() -> Seq<char> {
    "invalid redirect uri"@
}

/// The id of the session named by the session cookie's value, if it is a UUID.
pub fn session_id_from_cookie(value: Option<&str>) -> (r: Option<u128>)
    ensures
        r == (match value {
            Some(v) => parse_uuid(v@),
            None => None,
        }),
{
    match value {
        Some(v) => parse(v),
        None => None,
    }
}

/// A redirect to `target`, or the error for a URL that could not be built or sent.
pub fn redirect_or_error(target: Option<String>) -> (r: Result<Redirect, ApiError>)
    ensures
        redirectable(opt_view(target)) ==> (r matches Ok(d) && redirects_to(d, opt_view(target))),
        !redirectable(opt_view(target)) ==> (r matches Err(e) && e.is(
            bad_redirect_message(),
            STATUS_INTERNAL_SERVER_ERROR,
        )),
{
    match target {
        Some(t) => {
            if valid_header_value(t.as_str()) {
                Ok(found(t.as_str()))
            } else {
                Err(ApiError::from_message("invalid redirect uri"))
            }
        },
        None => Err(ApiError::from_message("invalid redirect uri")),
    }
}

/// The redirect to send the user back with a fresh code for `query`.
pub fn issue_code(query: AuthorizeQuery, session: &Session) -> (r: Result<AuthorizeOutcome, ApiError>)
    ensures
        match r {
            Ok(AuthorizeOutcome::Issued { code, auth_code, redirect }) => {
                &&& is_v4(code)
                &&& auth_code.session == (Session { scope: query.scope, ..*session })
                &&& auth_code.client_id == query.client_id
                &&& auth_code.redirect_uri == query.redirect_uri
                &&& auth_code.code_challenge == query.code_challenge
                &&& redirects_to(redirect, code_redirect(query.redirect_uri@, code, opt_view(query.state)))
            },
            Ok(_) => false,
            Err(e) => exists|code: u128| is_v4(code) && !redirectable(
                code_redirect(query.redirect_uri@, code, opt_view(query.state)),
            ) && e.is(bad_redirect_message(), STATUS_INTERNAL_SERVER_ERROR),
        },
{
    let code = new_v4();
    let code_text = simple_string(code);
    let with_code = add_pair(Some(query.redirect_uri.clone()), "code", code_text.as_str());
    let target = add_state(with_code, &query.state);
    let redirect = match redirect_or_error(target) {
        Ok(d) => d,
        Err(e) => return Err(e),
    };
    let mut granted = session.duplicate();
    granted.scope = query.scope;
    let auth_code = AuthCode {
        session: granted,
        client_id: query.client_id,
        redirect_uri: query.redirect_uri,
        code_challenge: query.code_challenge,
    };
    Ok(AuthorizeOutcome::Issued { code, auth_code, redirect })
}

/// Handles an authorization request, given the session the request's cookie
/// names (if any). Requests for anything but the code flow with S256 PKCE are
/// refused with `400` and the buzzer message; unknown clients with `400` and
/// `nuh uh`. A session that grants every requested scope word (unless
/// consent is demanded) yields a new code; `prompt=none` otherwise yields
/// `error=login_required`; else the request is parked and the user sent to
/// Google. A redirect URL that cannot be extended or sent is a `500`.
pub fn get(state: &AppState, query: AuthorizeQuery, session: Option<&Session>) -> (r: Result<AuthorizeOutcome, ApiError>)
    ensures
        !code_flow(query) ==> (r matches Err(e) && e.is(buzzer(), STATUS_BAD_REQUEST)),
        code_flow(query) && !known_client(query.client_id@) ==> (r matches Err(e) && e.is(
            "nuh uh"@,
            STATUS_BAD_REQUEST,
        )),
        code_flow(query) && known_client(query.client_id@) && session_suffices(query, session) ==> match r {
            Ok(AuthorizeOutcome::Issued { code, auth_code, redirect }) => {
                &&& is_v4(code)
                &&& auth_code.session == (Session { scope: query.scope, ..*session->0 })
                &&& auth_code.client_id == query.client_id
                &&& auth_code.redirect_uri == query.redirect_uri
                &&& auth_code.code_challenge == query.code_challenge
                &&& redirects_to(redirect, code_redirect(query.redirect_uri@, code, opt_view(query.state)))
            },
            Ok(_) => false,
            Err(e) => exists|code: u128| is_v4(code) && !redirectable(
                code_redirect(query.redirect_uri@, code, opt_view(query.state)),
            ) && e.is(bad_redirect_message(), STATUS_INTERNAL_SERVER_ERROR),
        },
        code_flow(query) && known_client(query.client_id@) && !session_suffices(query, session)
            && query.prompt == Some(PromptType::Silent) ==> {
            let target = login_required_redirect(query.redirect_uri@, opt_view(query.state));
            match r {
                Ok(AuthorizeOutcome::LoginRequired { redirect }) => redirects_to(redirect, target),
                Ok(_) => false,
                Err(e) => !redirectable(target) && e.is(bad_redirect_message(), STATUS_INTERNAL_SERVER_ERROR),
            }
        },
        code_flow(query) && known_client(query.client_id@) && !session_suffices(query, session)
            && query.prompt != Some(PromptType::Silent) ==> match r {
            Ok(AuthorizeOutcome::Upstream { state_id, backing, redirect }) => {
                &&& is_v4(state_id)
                &&& backing.client_id == query.client_id
                &&& backing.redirect_uri.0 == query.redirect_uri
                &&& backing.state == query.state
                &&& backing.code_challenge == query.code_challenge
                &&& backing.scope == query.scope
                &&& redirects_to(redirect, google_redirect(state.google_client_id@, state.issuer@, query.scope@, state_id))
            },
            Ok(_) => false,
            Err(e) => {
                ||| url_parsed("https://accounts.google.com/o/oauth2/v2/auth"@) is None && e.is(
                    "parse base google oauth url"@,
                    STATUS_INTERNAL_SERVER_ERROR,
                )
                ||| exists|id: u128| is_v4(id) && !redirectable(
                    google_redirect(state.google_client_id@, state.issuer@, query.scope@, id),
                ) && e.is(bad_redirect_message(), STATUS_INTERNAL_SERVER_ERROR)
            },
        },
{
    if !(String::from_str(query.response_type.as_str()) == String::from_str("code")
        && String::from_str(query.code_challenge_method.as_str()) == String::from_str("S256")) {
        return Err(ApiError::with_status(extremely_loud_incorrect_buzzer(), STATUS_BAD_REQUEST));
    }
    if !allowed(query.client_id.as_str(), query.redirect_uri.as_str()) {
        return Err(ApiError::with_status("nuh uh", STATUS_BAD_REQUEST));
    }
    if let Some(sess) = session {
        if query.prompt != Some(PromptType::Consent) && scope_covers(
            query.scope.as_str(),
            sess.scope.as_str(),
        ) {
            return issue_code(query, sess);
        }
    }
    if query.prompt == Some(PromptType::Silent) {
        let with_error = add_pair(Some(query.redirect_uri.clone()), "error", "login_required");
        let target = add_state(with_error, &query.state);
        return match redirect_or_error(target) {
            Ok(redirect) => Ok(AuthorizeOutcome::LoginRequired { redirect }),
            Err(e) => Err(e),
        };
    }
    let base = match parse_url("https://accounts.google.com/o/oauth2/v2/auth") {
        Some(u) => u,
        None => return Err(ApiError::from_message("parse base google oauth url")),
    };
    let state_id = new_v4();
    let state_text = hyphenated_string(state_id);
    let callback = redirect_url(state);
    let u1 = add_pair(Some(base), "client_id", state.google_client_id.as_str());
    let u2 = add_pair(u1, "response_type", "code");
    let u3 = add_pair(u2, "redirect_uri", callback.as_str());
    let u4 = add_pair(u3, "scope", query.scope.as_str());
    let u5 = add_pair(u4, "state", state_text.as_str());
    let u6 = add_pair(u5, "access_type", "offline");
    let u7 = add_pair(u6, "prompt", "select_account");
    let u8 = add_pair(u7, "hl", "en-GB");
    let redirect = match redirect_or_error(u8) {
        Ok(d) => d,
        Err(e) => return Err(e),
    };
    let backing = BackingOauthState {
        client_id: query.client_id,
        redirect_uri: BincodableUrl::from_url(query.redirect_uri),
        state: query.state,
        code_challenge: query.code_challenge,
        scope: query.scope,
    };
    Ok(AuthorizeOutcome::Upstream { state_id, backing, redirect })
}

/// A `302 Found` redirect to `location`, which must be a valid header value.
pub fn found_redirect(location: &str) -> (r: Redirect)
    requires
        header_value_ok(location@),
    ensures
        r.status == STATUS_FOUND,
        r.location@ == location@,
{
    found(location)
}

} // verus!
