//! `GET /.well-known/openid-configuration`: the discovery document.
use crate::config::AppState;
use crate::json::push_string;
use crate::outside::encoding::json_string;
use vstd::prelude::*;

verus! {

/// The discovery document for `issuer`, its members in the order
/// `serde_json` writes an object's keys (sorted): the endpoints under the
/// issuer and the fixed lists of what the server supports.
pub open spec fn discovery_document(issuer: Seq<char>) -> Seq<char> {
    "{\"authorization_endpoint\":"@ + json_string(issuer + "/authorize"@)
        + ",\"claims_supported\":[\"sub\",\"iss\",\"aud\",\"exp\",\"iat\",\"name\",\"email\"],\"code_challenge_methods_supported\":[\"S256\"],\"grant_types_supported\":[\"authorization_code\",\"refresh_token\"],\"id_token_signing_alg_values_supported\":[\"RS256\"],\"issuer\":"@
        + json_string(issuer) + ",\"jwks_uri\":"@ + json_string(issuer + "/jwks.json"@)
        + ",\"response_types_supported\":[\"code\"],\"scopes_supported\":[\"openid\",\"profile\",\"email\"],\"subject_types_supported\":[\"public\"],\"token_endpoint\":"@
        + json_string(issuer + "/token"@)
        + ",\"token_endpoint_auth_methods_supported\":[\"none\",\"client_secret_basic\"],\"userinfo_endpoint\":"@
        + json_string(issuer + "/userinfo"@) + "}"@
}

/// The discovery document, as JSON.
pub fn get(state: &AppState) -> (r: String)
    ensures
        r@ == discovery_document(state.issuer@),
{
    let issuer = state.issuer.as_str();
    let mut d = String::from_str("{\"authorization_endpoint\":");
    push_string(&mut d, state.issuer.clone().concat("/authorize").as_str());
    d.append(
        ",\"claims_supported\":[\"sub\",\"iss\",\"aud\",\"exp\",\"iat\",\"name\",\"email\"],\"code_challenge_methods_supported\":[\"S256\"],\"grant_types_supported\":[\"authorization_code\",\"refresh_token\"],\"id_token_signing_alg_values_supported\":[\"RS256\"],\"issuer\":",
    );
    push_string(&mut d, issuer);
    d.append(",\"jwks_uri\":");
    push_string(&mut d, state.issuer.clone().concat("/jwks.json").as_str());
    d.append(
        ",\"response_types_supported\":[\"code\"],\"scopes_supported\":[\"openid\",\"profile\",\"email\"],\"subject_types_supported\":[\"public\"],\"token_endpoint\":",
    );
    push_string(&mut d, state.issuer.clone().concat("/token").as_str());
    d.append(
        ",\"token_endpoint_auth_methods_supported\":[\"none\",\"client_secret_basic\"],\"userinfo_endpoint\":",
    );
    push_string(&mut d, state.issuer.clone().concat("/userinfo").as_str());
    d.append("}");
    d
}

} // verus!
