//! The records the server keeps between requests: signed-in sessions,
//! pending authorization codes, issued access and refresh tokens, and the
//! state of an upstream Google sign-in.
use crate::outside::web::{parse_url, url_parsed};
use crate::time::UtcTime;
use vstd::prelude::*;

verus! {

/// The name of the cookie that carries a session id.
pub open spec fn session_cookie_name() -> Seq<char> {
    "session"@
}

/// The name of the cookie that carries a session id.
pub fn session_cookie_name_str() -> (r: &'static str)
    ensures
        r@ == session_cookie_name(),
{
    "session"
}

/// A signed-in user, with the scopes granted and Google's tokens for them.
#[derive(Debug)]
pub struct Session {
    pub user_id: String,
    pub email: String,
    pub name: String,
    pub picture: Option<String>,
    pub scope: String,
    pub google_access_token: Option<String>,
    pub google_refresh_token: Option<String>,
    pub google_token_expiry: Option<UtcTime>,
}

impl Session {
    /// A field-by-field copy.
    pub fn duplicate(&self) -> (r: Session)
        ensures
            r == *self,
    {
        Session {
            user_id: self.user_id.clone(),
            email: self.email.clone(),
            name: self.name.clone(),
            picture: clone_opt(&self.picture),
            scope: self.scope.clone(),
            google_access_token: clone_opt(&self.google_access_token),
            google_refresh_token: clone_opt(&self.google_refresh_token),
            google_token_expiry: self.google_token_expiry,
        }
    }
}

/// A copy of an optional string.
pub fn clone_opt(s: &Option<String>) -> (r: Option<String>)
    ensures
        r == *s,
{
    match s {
        Some(v) => Some(v.clone()),
        None => None,
    }
}

/// An authorization code waiting to be exchanged for tokens.
#[derive(Debug)]
pub struct AuthCode {
    pub session: Session,
    pub client_id: String,
    /// The serialization of the redirect URL the code was issued for.
    pub redirect_uri: String,
    pub code_challenge: String,
}

/// What the server keeps of an issued access token.
#[derive(Debug)]
pub struct AccessToken {
    pub user_id: String,
    pub email: String,
    pub name: String,
    pub picture: Option<String>,
    pub scope: String,
    pub exp: UtcTime,
}

/// What the server keeps of an issued refresh token.
#[derive(Debug)]
pub struct RefreshTokenData {
    pub user_id: String,
    pub email: String,
    pub name: String,
    pub picture: Option<String>,
    pub client_id: String,
    pub scope: String,
    pub google_refresh_token: Option<String>,
}

/// A URL carried as its serialization, so that it can be written as a plain
/// string and read back.
#[derive(Debug)]
pub struct BincodableUrl(pub String);

impl BincodableUrl {
    /// `From<url::Url>`: wraps a URL's serialization.
    pub fn from_url(serialization: String) -> (r: BincodableUrl)
        ensures
            r.0 == serialization,
    {
        BincodableUrl(serialization)
    }

    /// Decoding: the string read back is parsed as a URL; `None` stands for
    /// the decoding error "invalid url".
    pub fn decode_from(text: &str) -> (r: Option<BincodableUrl>)
        ensures
            match r {
                Some(u) => url_parsed(text@) == Some(u.0@),
                None => url_parsed(text@) is None,
            },
    {
        match parse_url(text) {
            Some(s) => Some(BincodableUrl(s)),
            None => None,
        }
    }

    /// Encoding: the URL's serialization.
    pub fn encode(&self) -> (r: String)
        ensures
            r@ == self.0@,
    {
        self.0.clone()
    }
}

/// The state of an authorization request, passed through an upstream sign-in.
#[derive(Debug)]
pub struct PassedAuthState {
    pub client_id: String,
    pub redirect_uri: BincodableUrl,
    pub state: Option<String>,
    pub code_challenge: String,
    pub scope: String,
}

/// An authorization request parked while the user signs in with Google.
#[derive(Debug)]
pub struct BackingOauthState {
    pub client_id: String,
    pub redirect_uri: BincodableUrl,
    pub state: Option<String>,
    pub code_challenge: String,
    pub scope: String,
}

} // verus!
