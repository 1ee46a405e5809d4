//! The callback Google redirects to after a user signs in.
use crate::config::AppState;
use crate::endpoints::authorize::{bad_redirect_message, code_redirect, redirectable, redirects_to};
use crate::error::{buzzer, extremely_loud_incorrect_buzzer, ApiError, STATUS_INTERNAL_SERVER_ERROR};
use crate::model::{session_cookie_name, session_cookie_name_str, AuthCode, BackingOauthState, Session};
use crate::outside::ids::{is_v4, new_v4, simple_form, simple_string};
use crate::redirect::{add_pair, add_state, found, opt_view, valid_header_value, Redirect};
use crate::time::{
    cast_signed, cookie_expiry, cookie_time_range, max_delta_secs, max_utc_secs, min_utc_secs,
    time_delta_secs, UtcTime,
};
use vstd::prelude::*;

verus! {

/// The URL Google redirects back to: the issuer followed by `/oauth/cb/goog`.
pub open spec fn redirect_url_of(issuer: Seq<char>) -> Seq<char> {
    issuer + "/oauth/cb/goog"@
}

/// The URL Google redirects back to.
pub fn redirect_url(state: &AppState) -> (r: String)
    ensures
        r@ == redirect_url_of(state.issuer@),
{
    state.issuer.clone().concat("/oauth/cb/goog")
}

} // verus!

verus! {

/// The query Google calls back with.
#[derive(Debug)]
pub struct GoogQuery {
    pub code: Option<u128>,
    pub state: Option<String>,
    pub error: Option<String>,
}

/// The form posted to Google's token endpoint to exchange the code.
#[derive(Debug)]
pub struct GoogleTokenRequest {
    /// The code in simple form.
    pub code: String,
    pub client_id: String,
    pub client_secret: String,
    pub redirect_uri: String,
    pub grant_type: String,
    /// The key the parked authorization request is taken back by.
    pub backing_key: u128,
}

/// The first step of the callback: an error from Google is a `500` ("google
/// oauth died"); a callback without both a code and a state is a `500` with
/// the buzzer message; otherwise the code is to be exchanged with Google.
pub fn get(state: &AppState, query: &GoogQuery) -> (r: Result<GoogleTokenRequest, ApiError>)
    ensures
        query.error is Some ==> (r matches Err(e) && e.is(
            "google oauth died"@,
            STATUS_INTERNAL_SERVER_ERROR,
        )),
        query.error is None && (query.code is None || query.state is None) ==> (r matches Err(e)
            && e.is(buzzer(), STATUS_INTERNAL_SERVER_ERROR)),
        query.error is None && query.code is Some && query.state is Some ==> (r matches Ok(t) && {
            &&& t.code@ == simple_form(query.code->0)
            &&& t.client_id@ == state.google_client_id@
            &&& t.client_secret@ == state.google_client_secret@
            &&& t.redirect_uri@ == redirect_url_of(state.issuer@)
            &&& t.grant_type@ == "authorization_code"@
            &&& t.backing_key == query.code->0
        }),
{
    if query.error.is_some() {
        return Err(ApiError::from_message("google oauth died"));
    }
    let code = match (query.code, &query.state) {
        (Some(c), Some(_)) => c,
        _ => return Err(ApiError::from_message(extremely_loud_incorrect_buzzer())),
    };
    Ok(
        GoogleTokenRequest {
            code: simple_string(code),
            client_id: state.google_client_id.clone(),
            client_secret: state.google_client_secret.clone(),
            redirect_uri: redirect_url(state),
            grant_type: String::from_str("authorization_code"),
            backing_key: code,
        },
    )
}

/// The parked authorization request, which must still be there.
pub fn claim_backing(found: Option<BackingOauthState>) -> (r: Result<BackingOauthState, ApiError>)
    ensures
        match found {
            Some(b) => r == Ok::<BackingOauthState, ApiError>(b),
            None => r matches Err(e) && e.is(buzzer(), STATUS_INTERNAL_SERVER_ERROR),
        },
{
    match found {
        Some(b) => Ok(b),
        None => Err(ApiError::from_message(extremely_loud_incorrect_buzzer())),
    }
}

/// Google's answer to the code exchange.
#[derive(Debug)]
pub struct GoogleTokens {
    pub access_token: String,
    pub expires_in: u64,
    pub refresh_token: String,
    pub refresh_token_expires_in: u64,
    pub scope: String,
    pub token_type: String,
}

/// Google's user info.
#[derive(Debug)]
pub struct GoogleUserInfo {
    pub id: String,
    pub email: String,
    pub name: String,
    pub picture: Option<String>,
}

/// When Google's access token runs out: `expires_in` seconds (read as a
/// signed number) after the tokens were got, if that is a `TimeDelta`.
pub open spec fn token_expiry(got_tokens_at: UtcTime, expires_in: u64) -> Option<UtcTime> {
    let secs = if expires_in <= i64::MAX { expires_in as int } else { expires_in - 0x1_0000_0000_0000_0000 };
    if -max_delta_secs() <= secs <= max_delta_secs() {
        Some(UtcTime { secs: (got_tokens_at.secs + secs) as i64, nanos: got_tokens_at.nanos })
    } else {
        None
    }
}

/// Whether adding the token lifetime to the time the tokens were got stays
/// within chrono's range (where it would not, chrono panics).
pub open spec fn expiry_in_range(got_tokens_at: UtcTime, expires_in: u64) -> bool {
    let secs = if expires_in <= i64::MAX { expires_in as int } else { expires_in - 0x1_0000_0000_0000_0000 };
    -max_delta_secs() <= secs <= max_delta_secs() ==> min_utc_secs() <= got_tokens_at.secs + secs
        <= max_utc_secs()
}

/// Whether adding the token lifetime to the time the tokens were got stays
/// within chrono's range.
pub fn expiry_fits(got_tokens_at: UtcTime, expires_in: u64) -> (r: bool)
    ensures
        r == expiry_in_range(got_tokens_at, expires_in),
{
    let secs = cast_signed(expires_in);
    if -9223372036854775 <= secs && secs <= 9223372036854775 {
        let sum = got_tokens_at.secs as i128 + secs as i128;
        -8334601228800 <= sum && sum <= 8210266876799
    } else {
        true
    }
}

/// The session of the user who signed in: id `google_` and Google's user id,
/// Google's profile and tokens, and the scope of the parked request. A token
/// lifetime beyond `TimeDelta`'s bounds is a `500` ("duration overflow").
pub fn new_session(
    backing: &BackingOauthState,
    tokens: GoogleTokens,
    userinfo: GoogleUserInfo,
    got_tokens_at: UtcTime,
) -> (r: Result<(u128, Session), ApiError>)
    requires
        got_tokens_at.valid(),
        expiry_in_range(got_tokens_at, tokens.expires_in),
    ensures
        match token_expiry(got_tokens_at, tokens.expires_in) {
            None => r matches Err(e) && e.is("duration overflow"@, STATUS_INTERNAL_SERVER_ERROR),
            Some(exp) => r matches Ok((id, s)) && {
                &&& is_v4(id)
                &&& s.user_id@ == "google_"@ + userinfo.id@
                &&& s.email == userinfo.email
                &&& s.name == userinfo.name
                &&& s.picture == userinfo.picture
                &&& s.scope == backing.scope
                &&& s.google_access_token == Some(tokens.access_token)
                &&& s.google_refresh_token == Some(tokens.refresh_token)
                &&& s.google_token_expiry == Some(exp)
            },
        },
{
    let lifetime = match time_delta_secs(cast_signed(tokens.expires_in)) {
        Some(s) => s,
        None => return Err(ApiError::from_message("duration overflow")),
    };
    let expiry = got_tokens_at.plus_delta_secs(lifetime);
    let session_id = new_v4();
    let session = Session {
        user_id: String::from_str("google_").concat(userinfo.id.as_str()),
        email: userinfo.email,
        name: userinfo.name,
        picture: userinfo.picture,
        scope: backing.scope.clone(),
        google_access_token: Some(tokens.access_token),
        google_refresh_token: Some(tokens.refresh_token),
        google_token_expiry: Some(expiry),
    };
    Ok((session_id, session))
}

/// The `SameSite` attribute of a cookie.
#[derive(Clone, Copy, Debug, PartialEq, Eq, Structural)]
pub enum SameSite {
    /// `SameSite=None`: sent on cross-site requests too.
    NoRestriction,
    /// `SameSite=Lax`.
    Lax,
}

/// The session cookie to set.
#[derive(Debug)]
pub struct SessionCookie {
    pub name: String,
    pub value: String,
    pub http_only: bool,
    /// The expiry, as a Unix timestamp in seconds.
    pub expires: i64,
    pub path: String,
    pub domain: Option<String>,
    pub secure: bool,
    pub same_site: SameSite,
}

/// The session cookie for the session `session_id`, set at `now`: HTTP-only,
/// for path `/`, expiring when the session does. Over HTTPS it is bound to
/// the request's host, secure and sent cross-site (a request without a host is
/// a `500`); otherwise it is `SameSite=Lax`. An expiry beyond the years the
/// cookie library supports is a `500`.
pub fn session_cookie(
    state: &AppState,
    session_id: u128,
    now: UtcTime,
    https: bool,
    host: Option<String>,
) -> (r: Result<SessionCookie, ApiError>)
    requires
        now.valid(),
        now.secs + state.session_ttl <= max_utc_secs(),
    ensures
        !cookie_time_range(now.secs + state.session_ttl) ==> (r matches Err(e) && e.is(
            "this shouldn't overflow because it was valid in chrono"@,
            STATUS_INTERNAL_SERVER_ERROR,
        )),
        cookie_time_range(now.secs + state.session_ttl) && https && host is None ==> (r matches Err(
            e,
        ) && e.is("there should be a host part of the request URI"@, STATUS_INTERNAL_SERVER_ERROR)),
        cookie_time_range(now.secs + state.session_ttl) && (!https || host is Some) ==> (r matches Ok(c) && {
            &&& c.name@ == session_cookie_name()
            &&& c.value@ == simple_form(session_id)
            &&& c.http_only
            &&& c.expires == now.secs + state.session_ttl
            &&& c.path@ == "/"@
            &&& c.domain == (if https { host } else { None })
            &&& c.secure == https
            &&& c.same_site == (if https { SameSite::NoRestriction } else { SameSite::Lax })
        }),
{
    let until = now.plus_secs(state.session_ttl);
    let expires = match cookie_expiry(until.secs) {
        Some(t) => t,
        None => return Err(
            ApiError::from_message("this shouldn't overflow because it was valid in chrono"),
        ),
    };
    let (domain, secure, same_site) = if https {
        match host {
            Some(h) => (Some(h), true, SameSite::NoRestriction),
            None => return Err(
                ApiError::from_message("there should be a host part of the request URI"),
            ),
        }
    } else {
        (None, false, SameSite::Lax)
    };
    Ok(
        SessionCookie {
            name: String::from_str(session_cookie_name_str()),
            value: simple_string(session_id),
            http_only: true,
            expires,
            path: String::from_str("/"),
            domain,
            secure,
            same_site,
        },
    )
}

/// The authorization code for the signed-in user, to be stored under the
/// returned id, and the redirect back to the client with it (and the
/// client's state, where it gave one). A redirect URL that cannot be extended
/// or sent is a `500`.
pub fn issue_code(session: Session, backing: BackingOauthState) -> (r: Result<(u128, AuthCode, Redirect), ApiError>)
    ensures
        match r {
            Ok((code, auth_code, redirect)) => {
                &&& is_v4(code)
                &&& auth_code.session == session
                &&& auth_code.client_id == backing.client_id
                &&& auth_code.redirect_uri == backing.redirect_uri.0
                &&& auth_code.code_challenge == backing.code_challenge
                &&& redirects_to(
                    redirect,
                    code_redirect(backing.redirect_uri.0@, code, opt_view(backing.state)),
                )
            },
            Err(e) => exists|code: u128| is_v4(code) && !redirectable(
                code_redirect(backing.redirect_uri.0@, code, opt_view(backing.state)),
            ) && e.is(bad_redirect_message(), STATUS_INTERNAL_SERVER_ERROR),
        },
{
    let code = new_v4();
    let code_text = simple_string(code);
    let with_code = add_pair(Some(backing.redirect_uri.0.clone()), "code", code_text.as_str());
    let target = add_state(with_code, &backing.state);
    let redirect = match target {
        Some(t) => {
            if valid_header_value(t.as_str()) {
                found(t.as_str())
            } else {
                return Err(ApiError::from_message("invalid redirect uri"));
            }
        },
        None => return Err(ApiError::from_message("invalid redirect uri")),
    };
    let auth_code = AuthCode {
        session,
        client_id: backing.client_id,
        redirect_uri: backing.redirect_uri.0,
        code_challenge: backing.code_challenge,
    };
    Ok((code, auth_code, redirect))
}

} // verus!
