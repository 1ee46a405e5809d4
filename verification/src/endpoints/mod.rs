//! The HTTP endpoints: what each decides from the request and the server's
//! state, and what it answers.
pub mod authorize;
pub mod callback;
pub mod token;
pub mod userinfo;
pub mod openid_config;
pub mod jwks;
