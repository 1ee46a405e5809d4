//! `POST /token`: exchanging an authorization code (with its PKCE verifier)
//! for an access token, a refresh token and a signed ID token.
use crate::config::AppState;
use crate::error::{ApiError, STATUS_BAD_REQUEST, STATUS_INTERNAL_SERVER_ERROR};
use crate::json::{
    json_opt_int, json_opt_string, push_i64, push_opt_i64, push_opt_string, push_string, push_u64,
};
use crate::model::{clone_opt, AccessToken, AuthCode, RefreshTokenData};
use crate::keys::rs256_safe;
use crate::outside::crypto::{rs256_signature, sign_rs256};
use crate::outside::encoding::{b64url, b64url_encode, json_string, sha256, sha256_of};
use crate::outside::ids::{hyphenated_form, hyphenated_string, is_v4, new_v4, simple_form, simple_string};
use crate::redirect::opt_view;
use crate::text::{decimal, signed_decimal};
use crate::time::{cast_signed, max_utc_secs, UtcTime};
use vstd::prelude::*;
use vstd::utf8::encode_utf8;

verus! {

/// The body of a token request.
#[derive(Debug)]
pub enum TokenExchangeBody {
    AuthorizationCode {
        code: u128,
        /// The serialization of the (parsed) redirect URL.
        redirect_uri: String,
        client_id: Option<String>,
        code_verifier: String,
    },
    RefreshToken { refresh_token: u128, client_id: Option<String> },
}

/// Whether `verifier` is the URL-safe Base64 (unpadded) of the SHA-256 of
/// `challenge`'s UTF-8 bytes.
pub open spec fn pkce_matches(verifier: Seq<char>, challenge: Seq<char>) -> bool {
    verifier == b64url(sha256_of(encode_utf8(challenge)))
}

/// Whether the stored code answers the request: the client (where the
/// request names one) and the redirect URL are those the code was issued
/// for, and the verifier matches the code's challenge.
pub open spec fn exchange_ok(
    stored: AuthCode,
    redirect_uri: Seq<char>,
    client_id: Option<Seq<char>>,
    verifier: Seq<char>,
) -> bool {
    &&& (client_id matches Some(i) ==> stored.client_id@ == i)
    &&& redirect_uri == stored.redirect_uri@
    &&& pkce_matches(verifier, stored.code_challenge@)
}

/// The first step of a code exchange, given the code stored under the
/// requested id (if any): a missing code, or one that does not answer the
/// request, is a `400` ("bad auth code"). Refresh-token requests are not
/// handled by the server.
pub fn get(stored: Option<&AuthCode>, body: &TokenExchangeBody) -> (r: Result<(), ApiError>)
    requires
        body is AuthorizationCode,
    ensures
        r is Ok <==> (stored matches Some(c) && exchange_ok(
            *c,
            body->AuthorizationCode_redirect_uri@,
            opt_view(body->AuthorizationCode_client_id),
            body->AuthorizationCode_code_verifier@,
        )),
        r matches Err(e) ==> e.is("bad auth code"@, STATUS_BAD_REQUEST),
{
    let auth_code = match stored {
        Some(c) => c,
        None => return Err(ApiError::with_status("bad auth code", STATUS_BAD_REQUEST)),
    };
    match body {
        TokenExchangeBody::AuthorizationCode { code: _, redirect_uri, client_id, code_verifier } => {
            let client_mismatch = match client_id {
                Some(i) => auth_code.client_id != *i,
                None => false,
            };
            if client_mismatch || *redirect_uri != auth_code.redirect_uri {
                return Err(ApiError::with_status("bad auth code", STATUS_BAD_REQUEST));
            }
            let digest = sha256(auth_code.code_challenge.as_str().as_bytes());
            let expected = b64url_encode(digest.as_slice());
            if *code_verifier != expected {
                return Err(ApiError::with_status("bad auth code", STATUS_BAD_REQUEST));
            }
            Ok(())
        },
        TokenExchangeBody::RefreshToken { .. } => Err(
            ApiError::with_status("bad auth code", STATUS_BAD_REQUEST),
        ),
    }
}

/// The JOSE header of an ID token signed with RS256 under the key id `kid`.
pub open spec fn jwt_header(kid: Seq<char>) -> Seq<char> {
    "{\"typ\":\"JWT\",\"alg\":\"RS256\",\"kid\":"@ + json_string(kid) + "}"@
}

/// The claims of an ID token.
pub open spec fn id_token_claims(
    sub: Seq<char>,
    email: Seq<char>,
    name: Seq<char>,
    picture: Option<Seq<char>>,
    aud: Seq<char>,
    iss: Seq<char>,
    iat: int,
    exp: int,
) -> Seq<char> {
    "{\"sub\":"@ + json_string(sub) + ",\"email\":"@ + json_string(email) + ",\"name\":"@
        + json_string(name) + ",\"picture\":"@ + json_opt_string(picture) + ",\"aud\":"@
        + json_string(aud) + ",\"iss\":"@ + json_string(iss) + ",\"iat\":"@ + signed_decimal(iat)
        + ",\"exp\":"@ + signed_decimal(exp) + "}"@
}

/// What a JWT's signature covers: the Base64 of its header and of its claims.
pub open spec fn signing_input(header: Seq<char>, claims: Seq<char>) -> Seq<char> {
    b64url(encode_utf8(header)) + "."@ + b64url(encode_utf8(claims))
}

/// The JSON answer to a successful code exchange.
pub open spec fn grant_body(
    access_token: u128,
    refresh_token: u128,
    id_token: Seq<char>,
    expires_in: u64,
    google_access_token: Option<Seq<char>>,
    google_refresh_token: Option<Seq<char>>,
    google_token_expiry: Option<int>,
) -> Seq<char> {
    "{\"token_type\":\"Bearer\",\"access_token\":"@ + json_string(simple_form(access_token))
        + ",\"refresh_token\":"@ + json_string(simple_form(refresh_token)) + ",\"id_token\":"@
        + json_string(id_token) + ",\"expires_in\":"@ + decimal(expires_in as nat)
        + ",\"google_access_token\":"@ + json_opt_string(google_access_token)
        + ",\"google_refresh_token\":"@ + json_opt_string(google_refresh_token)
        + ",\"google_token_expiry\":"@ + json_opt_int(google_token_expiry) + "}"@
}

/// Google's token expiry in milliseconds, if there is one.
pub open spec fn expiry_millis(t: Option<UtcTime>) -> Option<int> {
    match t {
        Some(u) => Some(u.millis()),
        None => None,
    }
}

/// The tokens issued for an authorization code.
#[derive(Debug)]
pub struct TokenIssue {
    /// The id the access token is stored under.
    pub access_token_id: u128,
    /// The id the refresh token is stored under.
    pub refresh_token_id: u128,
    pub access_token: AccessToken,
    pub refresh: RefreshTokenData,
    /// How long the refresh token lives, in seconds.
    pub refresh_ttl: i64,
    /// The signed ID token.
    pub id_token: String,
    /// The JSON answer.
    pub body: String,
}

/// The JWT header for the server's key.
fn header_text(kid: u128) -> (r: String)
    ensures
        r@ == jwt_header(hyphenated_form(kid)),
{
    let mut h = String::from_str("{\"typ\":\"JWT\",\"alg\":\"RS256\",\"kid\":");
    let k = hyphenated_string(kid);
    push_string(&mut h, k.as_str());
    h.append("}");
    h
}

/// The claims of the ID token for `auth_code`, issued at `iat` and expiring at `exp`.
fn claims_text(state: &AppState, auth_code: &AuthCode, iat: i64, exp: i64) -> (r: String)
    ensures
        r@ == id_token_claims(
            auth_code.session.user_id@,
            auth_code.session.email@,
            auth_code.session.name@,
            opt_view(auth_code.session.picture),
            auth_code.client_id@,
            state.issuer@,
            iat as int,
            exp as int,
        ),
{
    let s = &auth_code.session;
    let mut c = String::from_str("{\"sub\":");
    push_string(&mut c, s.user_id.as_str());
    c.append(",\"email\":");
    push_string(&mut c, s.email.as_str());
    c.append(",\"name\":");
    push_string(&mut c, s.name.as_str());
    c.append(",\"picture\":");
    push_opt_string(&mut c, &s.picture);
    c.append(",\"aud\":");
    push_string(&mut c, auth_code.client_id.as_str());
    c.append(",\"iss\":");
    push_string(&mut c, state.issuer.as_str());
    c.append(",\"iat\":");
    push_i64(&mut c, iat);
    c.append(",\"exp\":");
    push_i64(&mut c, exp);
    c.append("}");
    c
}

/// The second step of a code exchange, once the code has been taken out of
/// the store: fresh ids for the access and the refresh token; the access
/// token expiring the configured time after `issued_at`; an ID token over the
/// session's profile, addressed to the client and signed with the server's
/// key; and the JSON answer. Where the key does not sign, the answer is a
/// `500` ("issue and sign access token"). The server's private key must hold
/// every RSA parameter (without them the key conversion panics), numbers the
/// signer can sign with where `rsa` accepts them (see `rs256_safe`: otherwise
/// the signer panics), and the expiry must lie within chrono's range.
pub fn issue(state: &AppState, auth_code: &AuthCode, issued_at: UtcTime) -> (r: Result<TokenIssue, ApiError>)
    requires
        issued_at.valid(),
        issued_at.secs + state.access_token_ttl <= max_utc_secs(),
        state.keys.private@.private matches Some(p) && p.complete(),
        rs256_safe(state.keys.private@),
        auth_code.session.google_token_expiry matches Some(t) ==> t.valid(),
    ensures
        ({
            let s = auth_code.session;
            let exp = issued_at.secs + state.access_token_ttl;
            let input = signing_input(
                jwt_header(hyphenated_form(state.keys.key_id)),
                id_token_claims(
                    s.user_id@,
                    s.email@,
                    s.name@,
                    opt_view(s.picture),
                    auth_code.client_id@,
                    state.issuer@,
                    issued_at.secs as int,
                    exp,
                ),
            );
            let signature = rs256_signature(state.keys.private@, encode_utf8(input));
            match r {
                Err(e) => signature is None && e.is(
                    "issue and sign access token"@,
                    STATUS_INTERNAL_SERVER_ERROR,
                ),
                Ok(t) => {
                    &&& signature matches Some(sig) && t.id_token@ == input + "."@ + b64url(sig)
                    &&& is_v4(t.access_token_id)
                    &&& is_v4(t.refresh_token_id)
                    &&& t.access_token == (AccessToken {
                        user_id: s.user_id,
                        email: s.email,
                        name: s.name,
                        picture: s.picture,
                        scope: s.scope,
                        exp: UtcTime { secs: exp as i64, nanos: issued_at.nanos },
                    })
                    &&& t.refresh == (RefreshTokenData {
                        user_id: s.user_id,
                        email: s.email,
                        name: s.name,
                        picture: s.picture,
                        client_id: auth_code.client_id,
                        scope: s.scope,
                        google_refresh_token: s.google_refresh_token,
                    })
                    &&& t.refresh_ttl == (if state.refresh_token_ttl <= i64::MAX {
                        state.refresh_token_ttl as int
                    } else {
                        state.refresh_token_ttl - 0x1_0000_0000_0000_0000
                    })
                    &&& t.body@ == grant_body(
                        t.access_token_id,
                        t.refresh_token_id,
                        t.id_token@,
                        state.access_token_ttl,
                        opt_view(s.google_access_token),
                        opt_view(s.google_refresh_token),
                        expiry_millis(s.google_token_expiry),
                    )
                },
            }
        }),
{
    let access_token_id = new_v4();
    let refresh_token_id = new_v4();
    let expires_at = issued_at.plus_secs(state.access_token_ttl);
    let header = header_text(state.keys.key_id);
    let claims = claims_text(state, auth_code, issued_at.secs, expires_at.secs);
    let mut message = b64url_encode(header.as_str().as_bytes());
    message.append(".");
    let claims_b64 = b64url_encode(claims.as_str().as_bytes());
    message.append(claims_b64.as_str());
    let signature = match sign_rs256(message.as_str().as_bytes(), &state.keys.private) {
        Some(s) => s,
        None => return Err(ApiError::from_message("issue and sign access token")),
    };
    let mut id_token = message;
    id_token.append(".");
    id_token.append(signature.as_str());
    let s = &auth_code.session;
    let access_token = AccessToken {
        user_id: s.user_id.clone(),
        email: s.email.clone(),
        name: s.name.clone(),
        picture: clone_opt(&s.picture),
        scope: s.scope.clone(),
        exp: expires_at,
    };
    let refresh = RefreshTokenData {
        user_id: s.user_id.clone(),
        email: s.email.clone(),
        name: s.name.clone(),
        picture: clone_opt(&s.picture),
        client_id: auth_code.client_id.clone(),
        scope: s.scope.clone(),
        google_refresh_token: clone_opt(&s.google_refresh_token),
    };
    let mut body = String::from_str("{\"token_type\":\"Bearer\",\"access_token\":");
    let access_text = simple_string(access_token_id);
    push_string(&mut body, access_text.as_str());
    body.append(",\"refresh_token\":");
    let refresh_text = simple_string(refresh_token_id);
    push_string(&mut body, refresh_text.as_str());
    body.append(",\"id_token\":");
    push_string(&mut body, id_token.as_str());
    body.append(",\"expires_in\":");
    push_u64(&mut body, state.access_token_ttl);
    body.append(",\"google_access_token\":");
    push_opt_string(&mut body, &s.google_access_token);
    body.append(",\"google_refresh_token\":");
    push_opt_string(&mut body, &s.google_refresh_token);
    body.append(",\"google_token_expiry\":");
    let expiry = match s.google_token_expiry {
        Some(t) => Some(t.timestamp_millis()),
        None => None,
    };
    push_opt_i64(&mut body, expiry);
    body.append("}");
    Ok(
        TokenIssue {
            access_token_id,
            refresh_token_id,
            access_token,
            refresh,
            refresh_ttl: cast_signed(state.refresh_token_ttl),
            id_token,
            body,
        },
    )
}

} // verus!
