use whoup::config::{
    config_failure, keys_loaded, keys_saved, keys_start, AppState, ConfigError, EnvVars, KeysLoaded, KeysStart, WorkerSettings,
};
use whoup::endpoints::authorize::{
    allowed, get as authorize_get, session_id_from_cookie, AuthorizeOutcome, AuthorizeQuery, PromptType,
};
use whoup::endpoints::callback::goog::{
    claim_backing, get as callback_get, issue_code, new_session, redirect_url, session_cookie, GoogQuery,
    GoogleTokens, GoogleUserInfo, SameSite,
};
use whoup::endpoints::jwks::get as jwks_get;
use whoup::endpoints::openid_config::get as discovery_get;
use whoup::error::{extremely_loud_incorrect_buzzer, with_status_code, ApiError};
use whoup::jwk::Jwk;
use whoup::keys::Jwks;
use whoup::model::{session_cookie_name_str, AuthCode, BackingOauthState, BincodableUrl, Session};
use whoup::time::UtcTime;

fn simple_string(u: u128) -> String {
    uuid::Uuid::from_u128(u).simple().to_string()
}

fn hyphenated_string(u: u128) -> String {
    uuid::Uuid::from_u128(u).hyphenated().to_string()
}

const BUZZER: &str = "[𝐄𝐗𝐓𝐑𝐄𝐌𝐄𝐋𝐘 𝐋𝐎𝐔𝐃 𝐈𝐍𝐂𝐎𝐑𝐑𝐄𝐂𝐓 𝐁𝐔𝐙𝐙𝐄𝐑]";

fn dummy_keys() -> Jwks {
    Jwks { key_id: 7, public: Jwk::new(vec![1], None), private: Jwk::new(vec![1], None) }
}

fn app_state(keys: Jwks) -> AppState {
    AppState {
        issuer: "https://auth.example".to_string(),
        keys,
        backing_oauth_state_ttl: 600,
        session_ttl: 86400,
        google_client_id: "cid".to_string(),
        google_client_secret: "csecret".to_string(),
        auth_code_ttl: 60,
        access_token_ttl: 3600,
        refresh_token_ttl: 1209600,
        redis_url: "redis://localhost".to_string(),
    }
}

fn session(scope: &str) -> Session {
    Session {
        user_id: "google_1".to_string(),
        email: "ann@example.com".to_string(),
        name: "Ann".to_string(),
        picture: None,
        scope: scope.to_string(),
        google_access_token: Some("gat".to_string()),
        google_refresh_token: Some("grt".to_string()),
        google_token_expiry: Some(UtcTime { secs: 1_700_000_000, nanos: 250_000_000 }),
    }
}

fn query(scope: &str, state: Option<&str>, prompt: Option<PromptType>) -> AuthorizeQuery {
    AuthorizeQuery {
        response_type: "code".to_string(),
        client_id: "test".to_string(),
        redirect_uri: "https://client.example/cb".to_string(),
        scope: scope.to_string(),
        state: state.map(|s| s.to_string()),
        code_challenge: "challenge".to_string(),
        code_challenge_method: "S256".to_string(),
        prompt,
    }
}

fn full_env() -> EnvVars {
    EnvVars {
        session_ttl: Some("86400".to_string()),
        access_token_ttl: Some("3600".to_string()),
        issuer: Some("https://auth.example".to_string()),
        backing_oauth_state_ttl: Some("600".to_string()),
        google_client_id: Some("cid".to_string()),
        google_client_secret: Some("csecret".to_string()),
        auth_code_ttl: Some("60".to_string()),
        refresh_token_ttl: Some("1209600".to_string()),
        redis_url: Some("redis://localhost".to_string()),
    }
}

#[test]
fn error_answers_with_json_body() {
    let e = ApiError::with_status("bad \"thing\"", 400);
    assert_eq!(e.into_response(), (400, "{\"error\":\"bad \\\"thing\\\"\"}".to_string()));
    let e = ApiError::from_message("boom");
    assert_eq!(e.into_response(), (500, "{\"error\":\"boom\"}".to_string()));
    assert_eq!(extremely_loud_incorrect_buzzer(), BUZZER);
}

#[test]
fn status_code_only_for_failures() {
    assert_eq!(with_status_code(Ok::<u8, String>(3), 418).unwrap(), 3);
    let e = with_status_code(Err::<u8, String>("nope".to_string()), 418).unwrap_err();
    assert_eq!((e.message.as_str(), e.status), ("nope", 418));
}

#[test]
fn config_reads_every_variable() {
    assert!(config_failure(&full_env()).is_none());
    let s = AppState::new(&full_env(), dummy_keys());
    assert_eq!(s.session_ttl, 86400);
    assert_eq!(s.access_token_ttl, 3600);
    assert_eq!(s.issuer, "https://auth.example");
    assert_eq!(s.backing_oauth_state_ttl, 600);
    assert_eq!(s.google_client_id, "cid");
    assert_eq!(s.google_client_secret, "csecret");
    assert_eq!(s.auth_code_ttl, 60);
    assert_eq!(s.refresh_token_ttl, 1209600);
    assert_eq!(s.redis_url, "redis://localhost");
    assert_eq!(s.keys.key_id, 7);
}

#[test]
fn config_reports_the_first_failure() {
    let mut env = full_env();
    env.issuer = None;
    env.access_token_ttl = Some("soon".to_string());
    let e = config_failure(&env).unwrap();
    assert!(matches!(e, ConfigError::Malformed("ACCESS_TOKEN_TTL")));
    assert_eq!(e.message(), "malformed $ACCESS_TOKEN_TTL");
    env.access_token_ttl = Some("3600".to_string());
    let e = config_failure(&env).unwrap();
    assert!(matches!(e, ConfigError::Missing("ISSUER")));
    assert_eq!(e.message(), "need $ISSUER");
    let mut env = full_env();
    env.redis_url = None;
    let e = config_failure(&env).unwrap();
    assert_eq!(e.message(), "need $REDIS_URL");
}

#[test]
fn config_refuses_a_redis_url_the_client_refuses() {
    let mut env = full_env();
    env.redis_url = Some("not a url".to_string());
    let e = config_failure(&env).unwrap();
    assert!(matches!(e, ConfigError::RedisUrl));
    assert_eq!(e.message(), "connect to redis");
    assert!(matches!(AppState::from_env(&env, dummy_keys()), Err(ConfigError::RedisUrl)));
    env.session_ttl = None;
    assert_eq!(config_failure(&env).unwrap().message(), "need $SESSION_TTL");
    let s = AppState::from_env(&full_env(), dummy_keys()).unwrap();
    assert_eq!(s.redis_url, "redis://localhost");
}

#[test]
fn worker_settings() {
    let some = |v: &str| Some(v.to_string());
    assert!(WorkerSettings::failure(&some("https://auth.example"), &some("cid"), &some("60")).is_none());
    let w = WorkerSettings::new(&some("https://auth.example"), &some("cid"), &some("60"));
    assert_eq!((w.issuer.as_str(), w.google_client_id.as_str(), w.auth_code_ttl), ("https://auth.example", "cid", 60));
    let e = WorkerSettings::failure(&None, &None, &some("x")).unwrap();
    assert_eq!(e.message(), "need $ISSUER");
    let e = WorkerSettings::failure(&some("i"), &some("c"), &some("x")).unwrap();
    assert_eq!(e.message(), "malformed $AUTH_CODE_TTL");
    let e = WorkerSettings::failure(&some("i"), &None, &None).unwrap();
    assert_eq!(e.message(), "need $GOOGLE_CLIENT_ID");
}

#[test]
fn key_store_decisions() {
    assert!(matches!(keys_start(Some("b".to_string())), KeysStart::Load { bucket } if bucket == "b"));
    assert!(matches!(
        keys_start(None),
        KeysStart::Ephemeral { warning: "warning: no mount path; keys will not persist!" }
    ));
    assert!(matches!(keys_loaded("b".to_string(), Some(dummy_keys())), KeysLoaded::Use { keys } if keys.key_id == 7));
    assert!(matches!(keys_loaded("b".to_string(), None), KeysLoaded::GenerateAndSave { bucket } if bucket == "b"));
    assert_eq!(keys_saved(true), None);
    assert_eq!(
        keys_saved(false),
        Some("warning: couldn't save newly generated keys; they will not persist!")
    );
}

#[test]
fn only_the_test_client_is_allowed() {
    assert!(allowed("test", "https://anything.example"));
    assert!(!allowed("other", "https://client.example/cb"));
}

#[test]
fn authorize_refuses_other_flows() {
    let state = app_state(dummy_keys());
    let mut q = query("openid", None, None);
    q.response_type = "token".to_string();
    let e = authorize_get(&state, q, None).unwrap_err();
    assert_eq!((e.message.as_str(), e.status), (BUZZER, 400));
    let mut q = query("openid", None, None);
    q.code_challenge_method = "plain".to_string();
    let e = authorize_get(&state, q, None).unwrap_err();
    assert_eq!((e.message.as_str(), e.status), (BUZZER, 400));
}

#[test]
fn authorize_refuses_unknown_clients() {
    let state = app_state(dummy_keys());
    let mut q = query("openid", None, None);
    q.client_id = "stranger".to_string();
    let e = authorize_get(&state, q, None).unwrap_err();
    assert_eq!((e.message.as_str(), e.status), ("nuh uh", 400));
}

#[test]
fn authorize_issues_a_code_for_a_covering_session() {
    let state = app_state(dummy_keys());
    let s = session("openid email profile");
    match authorize_get(&state, query("openid email", Some("xyz"), None), Some(&s)).unwrap() {
        AuthorizeOutcome::Issued { code, auth_code, redirect } => {
            assert_eq!((code >> 76) & 0xf, 4);
            assert_eq!(redirect.status, 302);
            assert_eq!(
                redirect.location,
                format!("https://client.example/cb?code={}&state=xyz", simple_string(code))
            );
            assert_eq!(auth_code.session.scope, "openid email");
            assert_eq!(auth_code.session.user_id, "google_1");
            assert_eq!(auth_code.session.google_refresh_token.as_deref(), Some("grt"));
            assert_eq!(auth_code.client_id, "test");
            assert_eq!(auth_code.redirect_uri, "https://client.example/cb");
            assert_eq!(auth_code.code_challenge, "challenge");
        }
        other => panic!("expected a code, got {:?}", other),
    }
}

#[test]
fn authorize_silent_without_a_covering_session() {
    let state = app_state(dummy_keys());
    let s = session("openid");
    let out = authorize_get(&state, query("openid email", Some("abc"), Some(PromptType::Silent)), Some(&s));
    match out.unwrap() {
        AuthorizeOutcome::LoginRequired { redirect } => {
            assert_eq!(redirect.status, 302);
            assert_eq!(redirect.location, "https://client.example/cb?error=login_required&state=abc");
        }
        other => panic!("expected login_required, got {:?}", other),
    }
    match authorize_get(&state, query("openid", None, Some(PromptType::Silent)), None).unwrap() {
        AuthorizeOutcome::LoginRequired { redirect } => {
            assert_eq!(redirect.location, "https://client.example/cb?error=login_required");
        }
        other => panic!("expected login_required, got {:?}", other),
    }
}

#[test]
fn authorize_sends_everyone_else_to_google() {
    let state = app_state(dummy_keys());
    let s = session("openid email");
    let out = authorize_get(&state, query("openid email", Some("st"), Some(PromptType::Consent)), Some(&s));
    match out.unwrap() {
        AuthorizeOutcome::Upstream { state_id, backing, redirect } => {
            assert_eq!((state_id >> 76) & 0xf, 4);
            assert_eq!(redirect.status, 302);
            assert_eq!(
                redirect.location,
                format!(
                    "https://accounts.google.com/o/oauth2/v2/auth?client_id=cid&response_type=code&redirect_uri=https%3A%2F%2Fauth.example%2Foauth%2Fcb%2Fgoog&scope=openid+email&state={}&access_type=offline&prompt=select_account&hl=en-GB",
                    hyphenated_string(state_id)
                )
            );
            assert_eq!(backing.client_id, "test");
            assert_eq!(backing.redirect_uri.0, "https://client.example/cb");
            assert_eq!(backing.state.as_deref(), Some("st"));
            assert_eq!(backing.code_challenge, "challenge");
            assert_eq!(backing.scope, "openid email");
        }
        other => panic!("expected a Google redirect, got {:?}", other),
    }
    assert!(matches!(
        authorize_get(&state, query("openid", None, None), None).unwrap(),
        AuthorizeOutcome::Upstream { .. }
    ));
}

#[test]
fn authorize_unusable_redirect_is_a_server_error() {
    let state = app_state(dummy_keys());
    let s = session("openid");
    let mut q = query("openid", None, None);
    q.redirect_uri = "not a url".to_string();
    let e = authorize_get(&state, q, Some(&s)).unwrap_err();
    assert_eq!((e.message.as_str(), e.status), ("invalid redirect uri", 500));
}

#[test]
fn cookie_value_names_a_session() {
    let id: u128 = 0x1234_5678_9abc_4def_8123_4567_89ab_cdef;
    assert_eq!(session_id_from_cookie(Some(simple_string(id).as_str())), Some(id));
    assert_eq!(session_id_from_cookie(Some("nope")), None);
    assert_eq!(session_id_from_cookie(None), None);
    assert_eq!(session_cookie_name_str(), "session");
}

#[test]
fn callback_prepares_the_code_exchange() {
    let state = app_state(dummy_keys());
    assert_eq!(redirect_url(&state), "https://auth.example/oauth/cb/goog");
    let q = GoogQuery { code: Some(0xab), state: Some("s".to_string()), error: None };
    let t = callback_get(&state, &q).unwrap();
    assert_eq!(t.code, "000000000000000000000000000000ab");
    assert_eq!(t.client_id, "cid");
    assert_eq!(t.client_secret, "csecret");
    assert_eq!(t.redirect_uri, "https://auth.example/oauth/cb/goog");
    assert_eq!(t.grant_type, "authorization_code");
    assert_eq!(t.backing_key, 0xab);
}

#[test]
fn callback_errors() {
    let state = app_state(dummy_keys());
    let q = GoogQuery { code: Some(1), state: Some("s".to_string()), error: Some("access_denied".to_string()) };
    let e = callback_get(&state, &q).unwrap_err();
    assert_eq!((e.message.as_str(), e.status), ("google oauth died", 500));
    let q = GoogQuery { code: None, state: Some("s".to_string()), error: None };
    let e = callback_get(&state, &q).unwrap_err();
    assert_eq!((e.message.as_str(), e.status), (BUZZER, 500));
    let q = GoogQuery { code: Some(1), state: None, error: None };
    assert!(callback_get(&state, &q).is_err());
    let e = claim_backing(None).unwrap_err();
    assert_eq!((e.message.as_str(), e.status), (BUZZER, 500));
}

fn backing(state: Option<&str>) -> BackingOauthState {
    BackingOauthState {
        client_id: "test".to_string(),
        redirect_uri: BincodableUrl::from_url("https://client.example/cb".to_string()),
        state: state.map(|s| s.to_string()),
        code_challenge: "challenge".to_string(),
        scope: "openid email".to_string(),
    }
}

fn tokens(expires_in: u64) -> GoogleTokens {
    GoogleTokens {
        access_token: "gat".to_string(),
        expires_in,
        refresh_token: "grt".to_string(),
        refresh_token_expires_in: 604799,
        scope: "openid email".to_string(),
        token_type: "Bearer".to_string(),
    }
}

fn userinfo() -> GoogleUserInfo {
    GoogleUserInfo {
        id: "1089".to_string(),
        email: "ann@example.com".to_string(),
        name: "Ann".to_string(),
        picture: Some("https://pic.example/a.png".to_string()),
    }
}

#[test]
fn callback_builds_the_session() {
    let b = claim_backing(Some(backing(None))).unwrap();
    let at = UtcTime { secs: 1_700_000_000, nanos: 7 };
    let (id, s) = new_session(&b, tokens(3599), userinfo(), at).unwrap();
    assert_eq!((id >> 76) & 0xf, 4);
    assert_eq!(s.user_id, "google_1089");
    assert_eq!(s.email, "ann@example.com");
    assert_eq!(s.name, "Ann");
    assert_eq!(s.picture.as_deref(), Some("https://pic.example/a.png"));
    assert_eq!(s.scope, "openid email");
    assert_eq!(s.google_access_token.as_deref(), Some("gat"));
    assert_eq!(s.google_refresh_token.as_deref(), Some("grt"));
    assert_eq!(s.google_token_expiry, Some(UtcTime { secs: 1_700_003_599, nanos: 7 }));
    let e = new_session(&b, tokens(1 << 63), userinfo(), at).unwrap_err();
    assert_eq!((e.message.as_str(), e.status), ("duration overflow", 500));
    let just_below = 0u64.wrapping_sub(9_223_372_036_854_776);
    assert!(new_session(&b, tokens(just_below), userinfo(), at).is_err());
    let (_, s) = new_session(&b, tokens(u64::MAX), userinfo(), at).unwrap();
    assert_eq!(s.google_token_expiry, Some(UtcTime { secs: 1_699_999_999, nanos: 7 }));
}

#[test]
fn callback_session_cookie() {
    let state = app_state(dummy_keys());
    let now = UtcTime { secs: 1_700_000_000, nanos: 0 };
    let c = session_cookie(&state, 0x2a, now, true, Some("auth.example".to_string())).unwrap();
    assert_eq!(c.name, "session");
    assert_eq!(c.value, "0000000000000000000000000000002a");
    assert!(c.http_only);
    assert_eq!(c.expires, 1_700_086_400);
    assert_eq!(c.path, "/");
    assert_eq!(c.domain.as_deref(), Some("auth.example"));
    assert!(c.secure);
    assert_eq!(c.same_site, SameSite::NoRestriction);
    let c = session_cookie(&state, 0x2a, now, false, Some("auth.example".to_string())).unwrap();
    assert_eq!(c.domain, None);
    assert!(!c.secure);
    assert_eq!(c.same_site, SameSite::Lax);
    let e = session_cookie(&state, 0x2a, now, true, None).unwrap_err();
    assert_eq!((e.message.as_str(), e.status), ("there should be a host part of the request URI", 500));
    let mut edge = app_state(dummy_keys());
    edge.session_ttl = 253_402_300_799 - 1_700_000_000;
    assert_eq!(session_cookie(&edge, 0x2a, now, false, None).unwrap().expires, 253_402_300_799);
    edge.session_ttl += 1;
    assert!(session_cookie(&edge, 0x2a, now, false, None).is_err());
    let mut long = app_state(dummy_keys());
    long.session_ttl = 300_000_000_000;
    let e = session_cookie(&long, 0x2a, now, false, None).unwrap_err();
    assert_eq!(
        (e.message.as_str(), e.status),
        ("this shouldn't overflow because it was valid in chrono", 500)
    );
}

#[test]
fn callback_issues_the_code() {
    let (code, auth_code, redirect) = issue_code(session("openid"), backing(Some("q r"))).unwrap();
    assert_eq!((code >> 76) & 0xf, 4);
    assert_eq!(redirect.status, 302);
    assert_eq!(
        redirect.location,
        format!("https://client.example/cb?code={}&state=q+r", simple_string(code))
    );
    assert_eq!(auth_code.session.scope, "openid");
    assert_eq!(auth_code.client_id, "test");
    assert_eq!(auth_code.redirect_uri, "https://client.example/cb");
    assert_eq!(auth_code.code_challenge, "challenge");
    let mut bad = backing(None);
    bad.redirect_uri = BincodableUrl("relative/path".to_string());
    let e = issue_code(session("openid"), bad).unwrap_err();
    assert_eq!((e.message.as_str(), e.status), ("invalid redirect uri", 500));
}

#[test]
fn discovery_document_is_exact() {
    let state = app_state(dummy_keys());
    assert_eq!(
        discovery_get(&state),
        "{\"authorization_endpoint\":\"https://auth.example/authorize\",\"claims_supported\":[\"sub\",\"iss\",\"aud\",\"exp\",\"iat\",\"name\",\"email\"],\"code_challenge_methods_supported\":[\"S256\"],\"grant_types_supported\":[\"authorization_code\",\"refresh_token\"],\"id_token_signing_alg_values_supported\":[\"RS256\"],\"issuer\":\"https://auth.example\",\"jwks_uri\":\"https://auth.example/jwks.json\",\"response_types_supported\":[\"code\"],\"scopes_supported\":[\"openid\",\"profile\",\"email\"],\"subject_types_supported\":[\"public\"],\"token_endpoint\":\"https://auth.example/token\",\"token_endpoint_auth_methods_supported\":[\"none\",\"client_secret_basic\"],\"userinfo_endpoint\":\"https://auth.example/userinfo\"}"
    );
}

#[test]
fn discovery_document_is_json() {
    let state = app_state(dummy_keys());
    let v: serde_json::Value = serde_json::from_str(&discovery_get(&state)).unwrap();
    assert_eq!(v["issuer"], "https://auth.example");
    assert_eq!(v["jwks_uri"], "https://auth.example/jwks.json");
}

#[test]
fn jwks_serves_the_public_key() {
    let mut keys = dummy_keys();
    keys.public = Jwk::new(vec![9, 9], None);
    let state = app_state(keys);
    assert_eq!(jwks_get(&state).n, vec![9, 9]);
}

#[test]
fn auth_code_record_holds_its_parts() {
    let c = AuthCode {
        session: session("openid").duplicate(),
        client_id: "test".to_string(),
        redirect_uri: "https://client.example/cb".to_string(),
        code_challenge: "c".to_string(),
    };
    assert_eq!(c.session.user_id, "google_1");
    assert_eq!(c.session.google_token_expiry, Some(UtcTime { secs: 1_700_000_000, nanos: 250_000_000 }));
}
