use whoup::authorize::{authorize, AuthorizeQuery as LegacyQuery};
use whoup::config::AppState;
use whoup::endpoints::authorize::found_redirect;
use whoup::endpoints::callback::goog::expiry_fits;
use whoup::endpoints::token::{get as token_get, issue, TokenExchangeBody};
use whoup::endpoints::userinfo::{bearer_token_id, get as userinfo_get, UserinfoOutcome};
use whoup::jwk::{Jwk, RsaPrivate};
use whoup::keygen::generate;
use whoup::keys::Jwks;
use whoup::model::{AccessToken, AuthCode, BincodableUrl, Session};
use base64::Engine as _;
use sha2::Digest as _;
use whoup::time::{cast_signed, UtcTime};
use whoup::util::found_redirect as util_found_redirect;
use whoup::uuid_serde::{deserialize, serialize};

fn simple_string(u: u128) -> String {
    uuid::Uuid::from_u128(u).simple().to_string()
}

fn hyphenated_string(u: u128) -> String {
    uuid::Uuid::from_u128(u).hyphenated().to_string()
}

const BUZZER: &str = "[𝐄𝐗𝐓𝐑𝐄𝐌𝐄𝐋𝐘 𝐋𝐎𝐔𝐃 𝐈𝐍𝐂𝐎𝐑𝐑𝐄𝐂𝐓 𝐁𝐔𝐙𝐙𝐄𝐑]";

fn state_with(keys: Jwks) -> AppState {
    AppState {
        issuer: "https://auth.example".to_string(),
        keys,
        backing_oauth_state_ttl: 600,
        session_ttl: 86400,
        google_client_id: "cid".to_string(),
        google_client_secret: "csecret".to_string(),
        auth_code_ttl: 60,
        access_token_ttl: 3600,
        refresh_token_ttl: 1209600,
        redis_url: "redis://localhost".to_string(),
    }
}

fn signing_keys() -> Jwks {
    let g = generate().expect("openssl keygen");
    Jwks { key_id: g.kid, public: g.public, private: g.private }
}

fn session(scope: &str, picture: Option<&str>) -> Session {
    Session {
        user_id: "google_1".to_string(),
        email: "ann@example.com".to_string(),
        name: "Ann".to_string(),
        picture: picture.map(|p| p.to_string()),
        scope: scope.to_string(),
        google_access_token: Some("gat".to_string()),
        google_refresh_token: None,
        google_token_expiry: Some(UtcTime { secs: 1_700_000_000, nanos: 250_000_000 }),
    }
}

fn auth_code(challenge: &str) -> AuthCode {
    AuthCode {
        session: session("openid email", None),
        client_id: "test".to_string(),
        redirect_uri: "https://client.example/cb".to_string(),
        code_challenge: challenge.to_string(),
    }
}

fn exchange(redirect_uri: &str, client_id: Option<&str>, verifier: &str) -> TokenExchangeBody {
    TokenExchangeBody::AuthorizationCode {
        code: 5,
        redirect_uri: redirect_uri.to_string(),
        client_id: client_id.map(|c| c.to_string()),
        code_verifier: verifier.to_string(),
    }
}

fn now() -> UtcTime {
    let d = std::time::SystemTime::now().duration_since(std::time::UNIX_EPOCH).unwrap();
    UtcTime { secs: d.as_secs() as i64, nanos: d.subsec_nanos() }
}

#[test]
fn code_exchange_checks_the_verifier() {
    let code = auth_code("the-challenge");
    let verifier = base64::engine::general_purpose::URL_SAFE_NO_PAD.encode(sha2::Sha256::digest(b"the-challenge"));
    assert!(token_get(Some(&code), &exchange("https://client.example/cb", Some("test"), &verifier)).is_ok());
    assert!(token_get(Some(&code), &exchange("https://client.example/cb", None, &verifier)).is_ok());
    for body in [
        exchange("https://client.example/cb", Some("test"), "the-challenge"),
        exchange("https://client.example/other", Some("test"), &verifier),
        exchange("https://client.example/cb", Some("other"), &verifier),
    ] {
        let e = token_get(Some(&code), &body).unwrap_err();
        assert_eq!((e.message.as_str(), e.status), ("bad auth code", 400));
    }
    let e = token_get(None, &exchange("https://client.example/cb", None, &verifier)).unwrap_err();
    assert_eq!((e.message.as_str(), e.status), ("bad auth code", 400));
}

#[test]
fn token_issue_signs_an_id_token() {
    let keys = signing_keys();
    let n = keys.private.n.clone();
    let kid = keys.key_id;
    let state = state_with(keys);
    let code = auth_code("c");
    let at = now();
    let t = issue(&state, &code, at).expect("signed");
    assert_eq!((t.access_token_id >> 76) & 0xf, 4);
    assert_eq!((t.refresh_token_id >> 76) & 0xf, 4);
    assert_eq!(t.access_token.user_id, "google_1");
    assert_eq!(t.access_token.scope, "openid email");
    assert_eq!(t.access_token.exp, UtcTime { secs: at.secs + 3600, nanos: at.nanos });
    assert_eq!(t.refresh.client_id, "test");
    assert_eq!(t.refresh.google_refresh_token, None);
    assert_eq!(t.refresh_ttl, 1209600);

    let first = t.id_token.split('.').next().unwrap();
    let header_text = base64::engine::general_purpose::URL_SAFE_NO_PAD.decode(first).unwrap();
    assert_eq!(
        String::from_utf8(header_text).unwrap(),
        format!("{{\"typ\":\"JWT\",\"alg\":\"RS256\",\"kid\":\"{}\"}}", hyphenated_string(kid))
    );
    let header = jsonwebtoken::decode_header(&t.id_token).unwrap();
    assert_eq!(header.alg, jsonwebtoken::Algorithm::RS256);
    assert_eq!(header.kid, Some(hyphenated_string(kid)));
    let key = jsonwebtoken::DecodingKey::from_rsa_raw_components(&n, &[1, 0, 1]);
    let mut validation = jsonwebtoken::Validation::new(jsonwebtoken::Algorithm::RS256);
    validation.set_audience(&["test"]);
    validation.set_issuer(&["https://auth.example"]);
    let data = jsonwebtoken::decode::<serde_json::Value>(&t.id_token, &key, &validation).unwrap();
    assert_eq!(data.claims["sub"], "google_1");
    assert_eq!(data.claims["email"], "ann@example.com");
    assert_eq!(data.claims["name"], "Ann");
    assert_eq!(data.claims["picture"], serde_json::Value::Null);
    assert_eq!(data.claims["iat"], at.secs);
    assert_eq!(data.claims["exp"], at.secs + 3600);

    let expected = format!(
        "{{\"token_type\":\"Bearer\",\"access_token\":\"{}\",\"refresh_token\":\"{}\",\"id_token\":\"{}\",\"expires_in\":3600,\"google_access_token\":\"gat\",\"google_refresh_token\":null,\"google_token_expiry\":1700000000250}}",
        simple_string(t.access_token_id),
        simple_string(t.refresh_token_id),
        t.id_token
    );
    assert_eq!(t.body, expected);
}

#[test]
fn issued_access_token_serves_userinfo() {
    let state = state_with(signing_keys());
    let at = now();
    let t = issue(&state, &auth_code("c"), at).expect("signed");
    let bearer = simple_string(t.access_token_id);
    assert_eq!(bearer_token_id(&bearer), Some(t.access_token_id));
    match userinfo_get(Some(&t.access_token), at) {
        UserinfoOutcome::Info { body } => {
            assert_eq!(body, "{\"sub\":\"google_1\",\"picture\":null,\"email\":\"ann@example.com\"}")
        }
        other => panic!("expected the profile, got {:?}", other),
    }
}

fn token(scope: &str, exp: UtcTime) -> AccessToken {
    AccessToken {
        user_id: "google_1".to_string(),
        email: "ann@example.com".to_string(),
        name: "Ann".to_string(),
        picture: Some("https://pic.example/a.png".to_string()),
        scope: scope.to_string(),
        exp,
    }
}

#[test]
fn userinfo_follows_the_scope() {
    let now = UtcTime { secs: 1_700_000_000, nanos: 0 };
    let later = UtcTime { secs: 1_700_003_600, nanos: 0 };
    let expect = |scope: &str, body: &str| match userinfo_get(Some(&token(scope, later)), now) {
        UserinfoOutcome::Info { body: b } => assert_eq!(b, body),
        other => panic!("expected the profile, got {:?}", other),
    };
    expect("openid", "{\"sub\":\"google_1\",\"picture\":\"https://pic.example/a.png\"}");
    expect(
        "openid profile",
        "{\"sub\":\"google_1\",\"picture\":\"https://pic.example/a.png\",\"name\":\"Ann\"}",
    );
    expect(
        "email profile",
        "{\"sub\":\"google_1\",\"picture\":\"https://pic.example/a.png\",\"name\":\"Ann\",\"email\":\"ann@example.com\"}",
    );
    expect("openid profiles", "{\"sub\":\"google_1\",\"picture\":\"https://pic.example/a.png\"}");
}

#[test]
fn userinfo_refusals() {
    let now = UtcTime { secs: 1_700_000_000, nanos: 5 };
    assert!(matches!(userinfo_get(None, now), UserinfoOutcome::Forbidden));
    let expired = token("openid", UtcTime { secs: 1_700_000_000, nanos: 4 });
    assert!(matches!(userinfo_get(Some(&expired), now), UserinfoOutcome::Expired));
    let same = token("openid", now);
    assert!(matches!(userinfo_get(Some(&same), now), UserinfoOutcome::Info { .. }));
}

#[test]
fn bearer_tokens_are_simple_uuids() {
    let id: u128 = 0xdead_beef_0000_4000_8000_0000_0000_0001;
    assert_eq!(bearer_token_id(&simple_string(id)), Some(id));
    assert_eq!(bearer_token_id(&hyphenated_string(id)), None);
    assert_eq!(bearer_token_id("0123456789abcdef0123456789abcdeg"), None);
    assert_eq!(bearer_token_id(""), None);
}

#[test]
fn optional_uuids_round_trip() {
    let id: u128 = 0x00ff_0000_0000_4000_8000_0000_0000_00aa;
    let text = serialize(Some(id)).unwrap();
    assert_eq!(text, "00ff00000000400080000000000000aa");
    assert_eq!(deserialize(Some(text.as_str())).unwrap(), Some(id));
    assert_eq!(serialize(None), None);
    assert_eq!(deserialize(None).unwrap(), None);
    assert_eq!(deserialize(Some("00000000000000000000000000000000")).unwrap(), None);
    assert!(deserialize(Some("00000000-0000-0000-0000-000000000000")).is_err());
    assert!(deserialize(Some("xyz")).is_err());
}

#[test]
fn stored_urls_round_trip() {
    let u = BincodableUrl::decode_from("https://client.example/cb").unwrap();
    assert_eq!(u.encode(), "https://client.example/cb");
    let again = BincodableUrl::decode_from(&u.encode()).unwrap();
    assert_eq!(again.0, u.0);
    assert!(BincodableUrl::decode_from("::").is_none());
    assert_eq!(BincodableUrl::decode_from("HTTPS://Client.Example").unwrap().0, "https://client.example/");
}

fn legacy(redirect_url: &str, response_type: &str, method: &str) -> LegacyQuery {
    LegacyQuery {
        response_type: response_type.to_string(),
        client_id: "test".to_string(),
        redirect_url: redirect_url.to_string(),
        scope: "openid".to_string(),
        state: None,
        code_challenge: "c".to_string(),
        code_challenge_method: method.to_string(),
        prompt: None,
    }
}

#[test]
fn legacy_authorize_checks() {
    assert_eq!(authorize(&legacy("https://client.example/cb", "code", "S256")).unwrap(), "todo");
    for q in [
        legacy("has space", "code", "S256"),
        legacy("https://client.example/cb", "token", "S256"),
        legacy("https://client.example/cb", "code", "plain"),
    ] {
        let e = authorize(&q).unwrap_err();
        assert_eq!((e.message.as_str(), e.status), (BUZZER, 400));
    }
}

#[test]
fn found_redirects() {
    let r = found_redirect("https://client.example/cb?code=1");
    assert_eq!((r.status, r.location.as_str()), (302, "https://client.example/cb?code=1"));
    let r = util_found_redirect("/elsewhere");
    assert_eq!((r.status, r.location.as_str()), (302, "/elsewhere"));
}

#[test]
fn time_arithmetic() {
    let t = UtcTime { secs: 10, nanos: 999_999_999 };
    assert_eq!(t.plus_secs(5), UtcTime { secs: 15, nanos: 999_999_999 });
    assert_eq!(t.plus_delta_secs(-20), UtcTime { secs: -10, nanos: 999_999_999 });
    assert_eq!(t.timestamp_millis(), 10_999);
    assert_eq!(UtcTime { secs: -1, nanos: 500_000_000 }.timestamp_millis(), -500);
    assert!(t.is_before(&UtcTime { secs: 11, nanos: 0 }));
    assert!(!t.is_before(&t));
    assert_eq!(cast_signed(u64::MAX), -1);
    assert_eq!(cast_signed(1 << 63), i64::MIN);
    assert_eq!(cast_signed(42), 42);
    assert!(t.is_valid());
    assert!(!UtcTime { secs: 0, nanos: 1_000_000_000 }.is_valid());
    assert!(!UtcTime { secs: 8_210_266_876_800, nanos: 0 }.is_valid());
    assert!(UtcTime { secs: -8_334_601_228_800, nanos: 0 }.is_valid());
    assert!(t.can_add_secs(8_210_266_876_789));
    assert!(!t.can_add_secs(8_210_266_876_790));
    assert!(!UtcTime { secs: i64::MAX, nanos: 0 }.can_add_secs(0));
    assert!(!UtcTime { secs: i64::MIN, nanos: 0 }.can_add_secs(u64::MAX));
    assert!(UtcTime { secs: -8_334_601_228_800, nanos: 0 }.can_add_secs(16_544_868_105_599));
}

#[test]
fn token_lifetimes_within_range() {
    let at = UtcTime { secs: 1_700_000_000, nanos: 0 };
    assert!(expiry_fits(at, 3599));
    assert!(!expiry_fits(at, 8_210_266_876_799));
    assert!(expiry_fits(at, 1 << 63));
    assert!(expiry_fits(at, u64::MAX));
}

#[test]
fn only_complete_keys_sign() {
    assert!(!Jwk::new(vec![1], None).can_sign());
    let g = generate().expect("openssl keygen");
    assert!(g.private.can_sign());
    assert!(!g.public.can_sign());
}


#[test]
fn a_key_that_does_not_sign_is_a_server_error() {
    let bogus = RsaPrivate {
        d: vec![3; 64],
        p: Some(vec![5]),
        q: Some(vec![7]),
        dp: Some(vec![1]),
        dq: Some(vec![1]),
        qi: Some(vec![1]),
    };
    let private = Jwk::new(vec![0xc5; 64], Some(bogus));
    let state = state_with(Jwks { key_id: 1, public: Jwk::new(vec![0xc5; 64], None), private });
    let e = issue(&state, &auth_code("c"), UtcTime { secs: 1_700_000_000, nanos: 0 }).unwrap_err();
    assert_eq!((e.message.as_str(), e.status), ("issue and sign access token", 500));
}

#[test]
fn the_signature_covers_header_and_claims() {
    let keys = signing_keys();
    let state = state_with(keys);
    let at = UtcTime { secs: 1_700_000_000, nanos: 0 };
    let a = issue(&state, &auth_code("c"), at).unwrap();
    let b = issue(&state, &auth_code("c"), at).unwrap();
    assert_eq!(a.id_token, b.id_token);
    let mut other = auth_code("c");
    other.client_id = "another".to_string();
    let c = issue(&state, &other, at).unwrap();
    let sig = |t: &str| t.rsplit('.').next().unwrap().to_string();
    assert_ne!(sig(&a.id_token), sig(&c.id_token));
    assert_eq!(sig(&a.id_token).len(), 683);
}
