//! The core of an OpenID Connect provider that signs users in through Google:
//! request validation, authorization-code and token issuance, the documents it
//! serves, and key material, each with its contract.
pub mod text;
pub mod outside;
pub mod time;
pub mod error;
pub mod model;
pub mod jwk;
pub mod keys;
pub mod keygen;
pub mod scope;
pub mod redirect;
pub mod json;
pub mod config;
pub mod endpoints;
pub mod uuid_serde;
pub mod util;
pub mod authorize;
pub mod laws;
