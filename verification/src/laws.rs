//! Properties that tie the endpoints together: what one of them hands out,
//! another accepts.
use crate::config::{keys_after_load, KeysLoaded};
use crate::endpoints::authorize::{
    code_redirect, login_required_redirect, session_suffices, AuthorizeQuery, PromptType,
};
use crate::endpoints::userinfo::userinfo_body;
use crate::model::AccessToken;
use crate::redirect::opt_view;
use crate::text::has_word;
use crate::endpoints::token::{exchange_ok, grant_body, pkce_matches};
use crate::json::json_opt_string;
use crate::model::Session;
use crate::outside::encoding::{b64url, json_string, sha256_of};
use crate::outside::web::url_with_pair;
use crate::text::words_within;
use vstd::utf8::encode_utf8;
use crate::keys::Jwks;
use crate::model::AuthCode;
use crate::outside::ids::{lemma_simple_form_parses, parse_hex32, parse_uuid, simple_form};
use crate::time::{max_utc_secs, UtcTime};
use vstd::prelude::*;

verus! {

/// A non-nil UUID that `uuid_serde::serialize` writes (its simple form) is
/// read back by `uuid_serde::deserialize` as the same UUID.
pub proof fn uuid_serde_round_trip(u: u128)
    requires
        u != 0,
    ensures
        match parse_hex32(simple_form(u)) {
            Some(v) => (if v == 0 { None } else { Some(v) }) == Some(u),
            None => false,
        },
{
    lemma_simple_form_parses(u);
}

/// The session cookie's value (the session id in simple form) names the
/// session it was set for when read back by `session_id_from_cookie`.
pub proof fn session_cookie_names_its_session(id: u128, value: &str)
    requires
        value@ == simple_form(id),
    ensures
        parse_uuid(value@) == Some(id),
{
    lemma_simple_form_parses(id);
}

/// An access token as the token endpoint hands it out (its id in simple
/// form) is accepted as a bearer token by the userinfo endpoint, and names
/// that id.
pub proof fn issued_access_token_is_a_bearer(id: u128, bearer: &str)
    requires
        bearer@ == simple_form(id),
    ensures
        bearer.len() == 32,
        parse_uuid(bearer@) == Some(id),
{
    lemma_simple_form_parses(id);
    vstd::utf8::is_ascii_chars_encode_utf8(bearer@);
}

/// A code is exchanged exactly when the request presents the redirect URL it
/// was issued for, the client it was issued to (or no client), and a
/// verifier whose S256 digest is the code's challenge; with the right
/// redirect URL and client, the verifier alone decides.
pub proof fn code_exchange_needs_the_verifier(
    code: AuthCode,
    client_id: Option<Seq<char>>,
    verifier: Seq<char>,
)
    requires
        client_id matches Some(i) ==> i == code.client_id@,
    ensures
        exchange_ok(code, code.redirect_uri@, client_id, verifier) <==> pkce_matches(
            verifier,
            code.code_challenge@,
        ),
{
}

/// A code presented with any other redirect URL, or by another client, is refused.
pub proof fn code_exchange_checks_redirect_and_client(
    code: AuthCode,
    redirect_uri: Seq<char>,
    client_id: Option<Seq<char>>,
    verifier: Seq<char>,
)
    requires
        redirect_uri != code.redirect_uri@ || (client_id matches Some(i) && i != code.client_id@),
    ensures
        !exchange_ok(code, redirect_uri, client_id, verifier),
{
}

/// An access token is live at the moment it is issued: its expiry (the
/// issue time plus the configured lifetime) is not before the issue time, so
/// the userinfo endpoint answers it then.
pub proof fn fresh_access_token_is_live(issued_at: UtcTime, ttl: u64)
    requires
        issued_at.valid(),
        issued_at.secs + ttl <= max_utc_secs(),
    ensures
        !(UtcTime { secs: (issued_at.secs + ttl) as i64, nanos: issued_at.nanos }).earlier(
            issued_at,
        ),
{
}

/// Keys are generated once: a load that finds nothing leads to generating
/// and saving a key set, and a later load that the store answers with the
/// saved set (a store gives back what was written to it) uses that very set
/// and generates nothing.
pub proof fn saved_keys_are_used_on_the_next_load(bucket: String, saved: Jwks)
    ensures
        keys_after_load(bucket, None) == (KeysLoaded::GenerateAndSave { bucket }),
        keys_after_load(bucket, Some(saved)) == (KeysLoaded::Use { keys: saved }),
{
}

/// A signed-in user whose session grants every requested scope word needs
/// no new sign-in unless consent is demanded: with `prompt=none` or no
/// prompt, the request is answered from the session (a code, not
/// `login_required`).
pub proof fn covering_session_answers_unless_consent(q: AuthorizeQuery, session: Session)
    requires
        q.prompt != Some(PromptType::Consent),
        words_within(q.scope@, session.scope@),
    ensures
        session_suffices(q, Some(&session)),
        q.prompt == Some(PromptType::Silent) ==> session_suffices(q, Some(&session)),
{
}

/// A code is exchanged only with the unpadded URL-safe Base64 of the SHA-256
/// of its challenge's UTF-8 bytes, so for one code at most one verifier is
/// ever accepted.
pub proof fn only_one_verifier_is_accepted(
    code: AuthCode,
    redirect_1: Seq<char>,
    client_1: Option<Seq<char>>,
    verifier_1: Seq<char>,
    redirect_2: Seq<char>,
    client_2: Option<Seq<char>>,
    verifier_2: Seq<char>,
)
    ensures
        exchange_ok(code, redirect_1, client_1, verifier_1) ==> verifier_1 == b64url(
            sha256_of(encode_utf8(code.code_challenge@)),
        ),
        exchange_ok(code, redirect_1, client_1, verifier_1) && exchange_ok(
            code,
            redirect_2,
            client_2,
            verifier_2,
        ) ==> verifier_1 == verifier_2,
{
}

/// The grant answers with the session's Google refresh token: where there is
/// one, `r`, the body holds the member `"google_refresh_token":` with the
/// JSON string of `r`, and it holds `null` there only where there is none.
#[verifier::rlimit(40)]
pub proof fn grant_carries_the_google_refresh_token(
    access_token: u128,
    refresh_token: u128,
    id_token: Seq<char>,
    expires_in: u64,
    google_access_token: Option<Seq<char>>,
    google_refresh_token: Option<Seq<char>>,
    google_token_expiry: Option<int>,
)
    ensures
        google_refresh_token matches Some(r) ==> exists|pre: Seq<char>, post: Seq<char>|
            #![trigger pre + post]
            grant_body(
                access_token,
                refresh_token,
                id_token,
                expires_in,
                google_access_token,
                google_refresh_token,
                google_token_expiry,
            ) == pre + ",\"google_refresh_token\":"@ + json_string(r) + ",\"google_token_expiry\":"@
                + post,
        google_refresh_token is None ==> exists|pre: Seq<char>, post: Seq<char>|
            #![trigger pre + post]
            grant_body(
                access_token,
                refresh_token,
                id_token,
                expires_in,
                google_access_token,
                google_refresh_token,
                google_token_expiry,
            ) == pre + ",\"google_refresh_token\":"@ + "null"@ + ",\"google_token_expiry\":"@ + post,
{
    let body = grant_body(
        access_token,
        refresh_token,
        id_token,
        expires_in,
        google_access_token,
        google_refresh_token,
        google_token_expiry,
    );
    let pre = "{\"token_type\":\"Bearer\",\"access_token\":"@ + json_string(
        simple_form(access_token),
    ) + ",\"refresh_token\":"@ + json_string(simple_form(refresh_token)) + ",\"id_token\":"@
        + json_string(id_token) + ",\"expires_in\":"@ + crate::text::decimal(expires_in as nat)
        + ",\"google_access_token\":"@ + json_opt_string(google_access_token);
    let tail = crate::json::json_opt_int(google_token_expiry);
    let post = tail + "}"@;
    let middle = json_opt_string(google_refresh_token);
    let front = pre + ",\"google_refresh_token\":"@ + middle + ",\"google_token_expiry\":"@;
    assert(body == front + tail + "}"@);
    assert(front + tail + "}"@ =~= front + post);
    assert(pre + post == pre + post);
}

/// The redirect that hands out a code always carries `code=` and the code in
/// simple form: it is the client's redirect URL with that pair added, and
/// with `state` added after it where the client gave one.
pub proof fn code_redirect_carries_the_code(redirect_uri: Seq<char>, code: u128, state: Option<Seq<char>>)
    ensures
        code_redirect(redirect_uri, code, state) == (match url_with_pair(
            redirect_uri,
            "code"@,
            simple_form(code),
        ) {
            None => None,
            Some(with_code) => match state {
                None => Some(with_code),
                Some(s) => url_with_pair(with_code, "state"@, s),
            },
        }),
{
}

/// A silent request that cannot be answered from the session sends the
/// client back to its redirect URL with `error=login_required` added, and
/// with `state` after it where the client gave one.
pub proof fn login_required_redirect_says_so(redirect_uri: Seq<char>, state: Option<Seq<char>>)
    ensures
        login_required_redirect(redirect_uri, state) == (match url_with_pair(
            redirect_uri,
            "error"@,
            "login_required"@,
        ) {
            None => None,
            Some(with_error) => match state {
                None => Some(with_error),
                Some(s) => url_with_pair(with_error, "state"@, s),
            },
        }),
{
}

/// The grant names the tokens it hands out: it opens with the token type
/// `Bearer`, then the access token's and the refresh token's ids in simple
/// form, then the ID token.
#[verifier::rlimit(40)]
pub proof fn grant_names_its_tokens(
    access_token: u128,
    refresh_token: u128,
    id_token: Seq<char>,
    expires_in: u64,
    google_access_token: Option<Seq<char>>,
    google_refresh_token: Option<Seq<char>>,
    google_token_expiry: Option<int>,
)
    ensures
        exists|post: Seq<char>|
            #![trigger post.len()]
            grant_body(
                access_token,
                refresh_token,
                id_token,
                expires_in,
                google_access_token,
                google_refresh_token,
                google_token_expiry,
            ) == "{\"token_type\":\"Bearer\",\"access_token\":"@ + json_string(simple_form(access_token))
                + ",\"refresh_token\":"@ + json_string(simple_form(refresh_token)) + ",\"id_token\":"@
                + json_string(id_token) + post,
{
    let body = grant_body(
        access_token,
        refresh_token,
        id_token,
        expires_in,
        google_access_token,
        google_refresh_token,
        google_token_expiry,
    );
    let head = "{\"token_type\":\"Bearer\",\"access_token\":"@ + json_string(simple_form(access_token))
        + ",\"refresh_token\":"@ + json_string(simple_form(refresh_token)) + ",\"id_token\":"@
        + json_string(id_token);
    let post = ",\"expires_in\":"@ + crate::text::decimal(expires_in as nat)
        + ",\"google_access_token\":"@ + json_opt_string(google_access_token)
        + ",\"google_refresh_token\":"@ + json_opt_string(google_refresh_token)
        + ",\"google_token_expiry\":"@ + crate::json::json_opt_int(google_token_expiry) + "}"@;
    assert(body =~= head + post);
    assert(post.len() == post.len());
}

/// The profile always names its subject first; it carries the name exactly
/// when the token's scope has the word `profile`, the email exactly when it
/// has `email`, and with neither it is the subject and picture alone.
#[verifier::rlimit(40)]
pub proof fn userinfo_follows_the_scope(t: AccessToken)
    ensures
        exists|post: Seq<char>|
            #![trigger post.len()]
            userinfo_body(t) == "{\"sub\":"@ + json_string(t.user_id@) + post,
        has_word(t.scope@, "profile"@) ==> exists|pre: Seq<char>, post: Seq<char>|
            #![trigger pre.len(), post.len()]
            userinfo_body(t) == pre + ",\"name\":"@ + json_string(t.name@) + post,
        has_word(t.scope@, "email"@) ==> exists|pre: Seq<char>|
            #![trigger pre.len()]
            userinfo_body(t) == pre + ",\"email\":"@ + json_string(t.email@) + "}"@,
        !has_word(t.scope@, "profile"@) && !has_word(t.scope@, "email"@) ==> userinfo_body(t)
            == "{\"sub\":"@ + json_string(t.user_id@) + ",\"picture\":"@ + json_opt_string(
            opt_view(t.picture),
        ) + "}"@,
{
    let sub = "{\"sub\":"@ + json_string(t.user_id@);
    let pic = ",\"picture\":"@ + json_opt_string(opt_view(t.picture));
    let name = if has_word(t.scope@, "profile"@) {
        ",\"name\":"@ + json_string(t.name@)
    } else {
        seq![]
    };
    let email = if has_word(t.scope@, "email"@) {
        ",\"email\":"@ + json_string(t.email@)
    } else {
        seq![]
    };
    let body = userinfo_body(t);
    assert(body == sub + pic + name + email + "}"@);
    let rest = pic + name + email + "}"@;
    assert(body =~= sub + rest);
    assert(rest.len() == rest.len());
    if has_word(t.scope@, "profile"@) {
        let after = email + "}"@;
        assert(body =~= (sub + pic) + ",\"name\":"@ + json_string(t.name@) + after);
        assert((sub + pic).len() == (sub + pic).len() && after.len() == after.len());
    }
    if has_word(t.scope@, "email"@) {
        let before = sub + pic + name;
        assert(body =~= before + ",\"email\":"@ + json_string(t.email@) + "}"@);
        assert(before.len() == before.len());
    }
    if !has_word(t.scope@, "profile"@) && !has_word(t.scope@, "email"@) {
        assert(body =~= sub + pic + "}"@);
    }
}

} // verus!
