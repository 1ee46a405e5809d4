//! The server's configuration, read from environment variables, and the key
//! set it signs with.
use crate::keys::Jwks;
use crate::outside::encoding::{parse_u64, u64_parsed};
use crate::outside::web::{redis_url_accepted, redis_url_ok};
use vstd::prelude::*;

verus! {

/// The environment variables the server reads, each as found (`None` where
/// it is unset or not Unicode).
#[derive(Debug)]
pub struct EnvVars {
    pub session_ttl: Option<String>,
    pub access_token_ttl: Option<String>,
    pub issuer: Option<String>,
    pub backing_oauth_state_ttl: Option<String>,
    pub google_client_id: Option<String>,
    pub google_client_secret: Option<String>,
    pub auth_code_ttl: Option<String>,
    pub refresh_token_ttl: Option<String>,
    pub redis_url: Option<String>,
}

/// A variable that is unset, or that does not parse.
#[derive(Debug)]
pub enum ConfigError {
    Missing(&'static str),
    Malformed(&'static str),
    /// `REDIS_URL` is not a URL the Redis client accepts.
    RedisUrl,
}

impl ConfigError {
    /// The variable's name and whether it was unset (rather than malformed);
    /// a Redis URL the client refuses counts as a malformed `REDIS_URL`.
    pub open spec fn spec_parts(self) -> (Seq<char>, bool) {
        match self {
            ConfigError::Missing(n) => (n@, true),
            ConfigError::Malformed(n) => (n@, false),
            ConfigError::RedisUrl => ("REDIS_URL"@, false),
        }
    }

    /// The message the server stops with: `need $NAME`, `malformed $NAME`, or
    /// `connect to redis` for a Redis URL the client refuses.
    pub fn message(&self) -> (r: String)
        ensures
            r@ == (match *self {
                ConfigError::Missing(n) => "need $"@ + n@,
                ConfigError::Malformed(n) => "malformed $"@ + n@,
                ConfigError::RedisUrl => "connect to redis"@,
            }),
    {
        match self {
            ConfigError::Missing(n) => {
                let mut s = String::from_str("need $");
                s.append(*n);
                s
            },
            ConfigError::Malformed(n) => {
                let mut s = String::from_str("malformed $");
                s.append(*n);
                s
            },
            ConfigError::RedisUrl => String::from_str("connect to redis"),
        }
    }
}

/// The failure of one numeric variable, if it fails: unset, or not a `u64`.
pub open spec fn number_failure(name: Seq<char>, value: Option<String>) -> Option<(Seq<char>, bool)> {
    match value {
        None => Some((name, true)),
        Some(v) => if u64_parsed(v@) is Some {
            None
        } else {
            Some((name, false))
        },
    }
}

/// The failure of one text variable, if it fails: only by being unset.
pub open spec fn text_failure(name: Seq<char>, value: Option<String>) -> Option<(Seq<char>, bool)> {
    match value {
        None => Some((name, true)),
        Some(_) => None,
    }
}

/// The first of `a` and `b` that is a failure.
pub open spec fn or_else(a: Option<(Seq<char>, bool)>, b: Option<(Seq<char>, bool)>) -> Option<(Seq<char>, bool)> {
    if a is Some { a } else { b }
}

/// The first failure of the configuration: a variable, in the order the
/// server reads them, and then a Redis URL the client refuses.
pub open spec fn first_failure(v: EnvVars) -> Option<(Seq<char>, bool)> {
    or_else(variable_failure(v), redis_failure(v.redis_url))
}

/// The first variable that is unset or, for a number of seconds, not a
/// `u64`, in the order the server reads them.
pub open spec fn variable_failure(v: EnvVars) -> Option<(Seq<char>, bool)> {
    or_else(number_failure("SESSION_TTL"@, v.session_ttl),
    or_else(number_failure("ACCESS_TOKEN_TTL"@, v.access_token_ttl),
    or_else(text_failure("ISSUER"@, v.issuer),
    or_else(number_failure("BACKING_OAUTH_STATE_TTL"@, v.backing_oauth_state_ttl),
    or_else(text_failure("GOOGLE_CLIENT_ID"@, v.google_client_id),
    or_else(text_failure("GOOGLE_CLIENT_SECRET"@, v.google_client_secret),
    or_else(number_failure("AUTH_CODE_TTL"@, v.auth_code_ttl),
    or_else(number_failure("REFRESH_TOKEN_TTL"@, v.refresh_token_ttl),
    text_failure("REDIS_URL"@, v.redis_url)))))))))
}

/// The failure of the Redis URL, if it is set and the Redis client refuses it.
pub open spec fn redis_failure(value: Option<String>) -> Option<(Seq<char>, bool)> {
    match value {
        Some(u) => if redis_url_accepted(u@) {
            None
        } else {
            Some(("REDIS_URL"@, false))
        },
        None => None,
    }
}

/// The value of a numeric variable that parses.
pub open spec fn number_of(value: Option<String>) -> u64 {
    u64_parsed(value->0@)->0
}

/// The failure of a numeric variable, if it has one: unset, or not a `u64`.
pub fn number_check(name: &'static str, value: &Option<String>) -> (r: Option<ConfigError>)
    ensures
        match number_failure(name@, *value) {
            None => r is None,
            Some(f) => r matches Some(e) && e.spec_parts() == f,
        },
{
    match value {
        None => Some(ConfigError::Missing(name)),
        Some(v) => match parse_u64(v.as_str()) {
            Some(_) => None,
            None => Some(ConfigError::Malformed(name)),
        },
    }
}

/// The failure of a text variable, if it has one: unset.
pub fn text_check(name: &'static str, value: &Option<String>) -> (r: Option<ConfigError>)
    ensures
        match text_failure(name@, *value) {
            None => r is None,
            Some(f) => r matches Some(e) && e.spec_parts() == f,
        },
{
    match value {
        None => Some(ConfigError::Missing(name)),
        Some(_) => None,
    }
}

/// Reads a numeric variable (a count of seconds), which must be set to a
/// `u64` (the server stops otherwise).
pub fn number_var(name: &'static str, value: &Option<String>) -> (r: u64)
    requires
        number_failure(name@, *value) is None,
    ensures
        r == number_of(*value),
{
    match value {
        Some(v) => match parse_u64(v.as_str()) {
            Some(n) => n,
            None => 0,
        },
        None => 0,
    }
}

/// Reads a text variable, which must be set (the server stops otherwise).
pub fn text_var(name: &'static str, value: &Option<String>) -> (r: String)
    requires
        text_failure(name@, *value) is None,
    ensures
        r@ == value->0@,
{
    match value {
        Some(v) => v.clone(),
        None => String::new(),
    }
}

/// What the server runs with.
#[derive(Debug)]
pub struct AppState {
    pub issuer: String,
    pub keys: Jwks,
    pub backing_oauth_state_ttl: u64,
    pub session_ttl: u64,
    pub google_client_id: String,
    pub google_client_secret: String,
    pub auth_code_ttl: u64,
    pub access_token_ttl: u64,
    pub refresh_token_ttl: u64,
    pub redis_url: String,
}

/// The first variable (in the order the server reads them) that is unset
/// or, for a number of seconds, not a `u64`, if there is one: the server
/// stops with its message.
pub fn config_failure(vars: &EnvVars) -> (r: Option<ConfigError>)
    ensures
        match first_failure(*vars) {
            None => r is None,
            Some(f) => r matches Some(e) && e.spec_parts() == f,
        },
        variable_failure(*vars) is None && redis_failure(vars.redis_url) is Some ==> r matches Some(
            ConfigError::RedisUrl,
        ),
{
    let c = number_check("SESSION_TTL", &vars.session_ttl);
    if c.is_some() {
        return c;
    }
    let c = number_check("ACCESS_TOKEN_TTL", &vars.access_token_ttl);
    if c.is_some() {
        return c;
    }
    let c = text_check("ISSUER", &vars.issuer);
    if c.is_some() {
        return c;
    }
    let c = number_check("BACKING_OAUTH_STATE_TTL", &vars.backing_oauth_state_ttl);
    if c.is_some() {
        return c;
    }
    let c = text_check("GOOGLE_CLIENT_ID", &vars.google_client_id);
    if c.is_some() {
        return c;
    }
    let c = text_check("GOOGLE_CLIENT_SECRET", &vars.google_client_secret);
    if c.is_some() {
        return c;
    }
    let c = number_check("AUTH_CODE_TTL", &vars.auth_code_ttl);
    if c.is_some() {
        return c;
    }
    let c = number_check("REFRESH_TOKEN_TTL", &vars.refresh_token_ttl);
    if c.is_some() {
        return c;
    }
    let c = text_check("REDIS_URL", &vars.redis_url);
    if c.is_some() {
        return c;
    }
    match &vars.redis_url {
        Some(u) => if redis_url_ok(u.as_str()) {
            None
        } else {
            Some(ConfigError::RedisUrl)
        },
        None => None,
    }
}

impl AppState {
    /// The configuration from the environment variables `vars` with the key
    /// set `keys`. Every variable must be set and the numbers of seconds must
    /// be `u64`s, and the Redis client must accept `REDIS_URL` (the server
    /// stops otherwise; `config_failure` tells which variable fails first).
    pub fn new(vars: &EnvVars, keys: Jwks) -> (s: AppState)
        requires
            first_failure(*vars) is None,
        ensures
            s.session_ttl == number_of(vars.session_ttl),
            s.access_token_ttl == number_of(vars.access_token_ttl),
            s.issuer@ == vars.issuer->0@,
            s.backing_oauth_state_ttl == number_of(vars.backing_oauth_state_ttl),
            s.google_client_id@ == vars.google_client_id->0@,
            s.google_client_secret@ == vars.google_client_secret->0@,
            s.auth_code_ttl == number_of(vars.auth_code_ttl),
            s.refresh_token_ttl == number_of(vars.refresh_token_ttl),
            s.redis_url@ == vars.redis_url->0@,
            s.keys == keys,
    {
        let session_ttl = number_var("SESSION_TTL", &vars.session_ttl);
        let access_token_ttl = number_var("ACCESS_TOKEN_TTL", &vars.access_token_ttl);
        let issuer = text_var("ISSUER", &vars.issuer);
        let backing_oauth_state_ttl = number_var(
            "BACKING_OAUTH_STATE_TTL",
            &vars.backing_oauth_state_ttl,
        );
        let google_client_id = text_var("GOOGLE_CLIENT_ID", &vars.google_client_id);
        let google_client_secret = text_var("GOOGLE_CLIENT_SECRET", &vars.google_client_secret);
        let auth_code_ttl = number_var("AUTH_CODE_TTL", &vars.auth_code_ttl);
        let refresh_token_ttl = number_var("REFRESH_TOKEN_TTL", &vars.refresh_token_ttl);
        let redis_url = text_var("REDIS_URL", &vars.redis_url);
        AppState {
            issuer,
            keys,
            backing_oauth_state_ttl,
            session_ttl,
            google_client_id,
            google_client_secret,
            auth_code_ttl,
            access_token_ttl,
            refresh_token_ttl,
            redis_url,
        }
    }
}

impl AppState {
    /// The configuration from the environment variables `vars` with the key
    /// set `keys`, or the first variable that fails (in the order the server
    /// reads them), which the server stops with.
    pub fn from_env(vars: &EnvVars, keys: Jwks) -> (r: Result<AppState, ConfigError>)
        ensures
            match first_failure(*vars) {
                Some(f) => r matches Err(e) && e.spec_parts() == f,
                None => r matches Ok(s) && {
                    &&& s.session_ttl == number_of(vars.session_ttl)
                    &&& s.access_token_ttl == number_of(vars.access_token_ttl)
                    &&& s.issuer@ == vars.issuer->0@
                    &&& s.backing_oauth_state_ttl == number_of(vars.backing_oauth_state_ttl)
                    &&& s.google_client_id@ == vars.google_client_id->0@
                    &&& s.google_client_secret@ == vars.google_client_secret->0@
                    &&& s.auth_code_ttl == number_of(vars.auth_code_ttl)
                    &&& s.refresh_token_ttl == number_of(vars.refresh_token_ttl)
                    &&& s.redis_url@ == vars.redis_url->0@
                    &&& s.keys == keys
                },
            },
            variable_failure(*vars) is None && redis_failure(vars.redis_url) is Some ==> r matches Err(
                ConfigError::RedisUrl,
            ),
    {
        match config_failure(vars) {
            Some(e) => Err(e),
            None => Ok(AppState::new(vars, keys)),
        }
    }
}

/// What the worker variant of the server reads from its environment (its
/// key-value stores are bindings of the platform, not variables).
#[derive(Debug)]
pub struct WorkerSettings {
    pub issuer: String,
    pub google_client_id: String,
    pub auth_code_ttl: u64,
}

/// The first failing variable of the worker, in the order it reads them.
pub open spec fn worker_failure(
    issuer: Option<String>,
    google_client_id: Option<String>,
    auth_code_ttl: Option<String>,
) -> Option<(Seq<char>, bool)> {
    or_else(text_failure("ISSUER"@, issuer),
    or_else(text_failure("GOOGLE_CLIENT_ID"@, google_client_id),
    number_failure("AUTH_CODE_TTL"@, auth_code_ttl)))
}

impl WorkerSettings {
    /// The first of the worker's variables that is unset or, for the
    /// lifetime, not a `u64`, if there is one: the worker stops with it.
    pub fn failure(
        issuer: &Option<String>,
        google_client_id: &Option<String>,
        auth_code_ttl: &Option<String>,
    ) -> (r: Option<ConfigError>)
        ensures
            match worker_failure(*issuer, *google_client_id, *auth_code_ttl) {
                None => r is None,
                Some(f) => r matches Some(e) && e.spec_parts() == f,
            },
    {
        let a = text_check("ISSUER", issuer);
        if a.is_some() {
            return a;
        }
        let b = text_check("GOOGLE_CLIENT_ID", google_client_id);
        if b.is_some() {
            return b;
        }
        number_check("AUTH_CODE_TTL", auth_code_ttl)
    }

    /// The worker's settings from the variables `ISSUER`, `GOOGLE_CLIENT_ID`
    /// and `AUTH_CODE_TTL`, each of which must be set, the lifetime to a
    /// `u64` (the worker stops otherwise).
    pub fn new(
        issuer: &Option<String>,
        google_client_id: &Option<String>,
        auth_code_ttl: &Option<String>,
    ) -> (s: WorkerSettings)
        requires
            worker_failure(*issuer, *google_client_id, *auth_code_ttl) is None,
        ensures
            s.issuer@ == issuer->0@,
            s.google_client_id@ == google_client_id->0@,
            s.auth_code_ttl == number_of(*auth_code_ttl),
    {
        let issuer = text_var("ISSUER", issuer);
        let google_client_id = text_var("GOOGLE_CLIENT_ID", google_client_id);
        let auth_code_ttl = number_var("AUTH_CODE_TTL", auth_code_ttl);
        WorkerSettings { issuer, google_client_id, auth_code_ttl }
    }
}

/// Where the server's keys come from, before anything is loaded.
#[derive(Debug)]
pub enum KeysStart {
    /// Load the stored key set from this bucket.
    Load { bucket: String },
    /// No bucket is configured: generate keys that will not outlive the
    /// process, with this warning.
    Ephemeral { warning: &'static str },
}

/// The first decision about keys: with a bucket configured, load from it;
/// without, generate keys that will not persist.
pub fn keys_start(bucket: Option<String>) -> (r: KeysStart)
    ensures
        match bucket {
            Some(b) => r matches KeysStart::Load { bucket } && bucket == b,
            None => r matches KeysStart::Ephemeral { warning } && warning@
                == "warning: no mount path; keys will not persist!"@,
        },
{
    match bucket {
        Some(b) => KeysStart::Load { bucket: b },
        None => KeysStart::Ephemeral { warning: "warning: no mount path; keys will not persist!" },
    }
}

/// What to do once loading was tried.
#[derive(Debug)]
pub enum KeysLoaded {
    /// Use the stored key set.
    Use { keys: Jwks },
    /// Nothing usable was stored: generate keys and save them to the bucket.
    GenerateAndSave { bucket: String },
}

/// What follows a load: the stored key set where there is one, else
/// generating keys and saving them to the bucket.
pub open spec fn keys_after_load(bucket: String, loaded: Option<Jwks>) -> KeysLoaded {
    match loaded {
        Some(k) => KeysLoaded::Use { keys: k },
        None => KeysLoaded::GenerateAndSave { bucket },
    }
}

/// The second decision about keys: a stored key set is used; otherwise new
/// keys are generated and saved.
pub fn keys_loaded(bucket: String, loaded: Option<Jwks>) -> (r: KeysLoaded)
    ensures
        r == keys_after_load(bucket, loaded),
{
    match loaded {
        Some(keys) => KeysLoaded::Use { keys },
        None => KeysLoaded::GenerateAndSave { bucket },
    }
}

/// The warning for newly generated keys that could not be saved, if they
/// could not.
pub fn keys_saved(saved: bool) -> (r: Option<&'static str>)
    ensures
        saved ==> r is None,
        !saved ==> (r matches Some(w) && w@
            == "warning: couldn't save newly generated keys; they will not persist!"@),
{
    if saved {
        None
    } else {
        Some("warning: couldn't save newly generated keys; they will not persist!")
    }
}

} // verus!
