//! Key generation with OpenSSL: a new RSA key pair as a public and a private
//! JWK under a fresh key id.
use crate::jwk::Jwk;
use crate::keys::{be_value, crt_values, key_pair, key_pair_of_parts};
use crate::outside::crypto::openssl_generate;
use crate::outside::ids::{is_v4, new_v4};
use vstd::prelude::*;

verus! {

/// A key id with the public and the private JWK of one RSA key pair.
#[derive(Debug)]
pub struct Jwks {
    pub kid: u128,
    pub public: Jwk,
    pub private: Jwk,
}

/// Why no key pair was made.
#[derive(Debug, PartialEq, Eq, Structural)]
pub enum GenerateError {
    /// OpenSSL's RSA key generation failed.
    RsaKeygen,
}

/// Derive a new key ID and JWK pair from a newly generated 4096-bit RSA
/// keypair: both JWKs carry `RS256` and the hyphenated key id, the public one
/// has no `use` and no private parts, and the private one holds the numbers
/// OpenSSL generated unchanged, so its CRT values belong to its factors. Generation is random and may fail.
pub fn generate() -> (r: Result<Jwks, GenerateError>)
    ensures
        r matches Ok(j) ==> {
            &&& is_v4(j.kid)
            &&& j.private@.private is Some
            &&& key_pair(j.public@, j.private@, j.kid, j.private@.n, j.private@.private->0, None)
            &&& j.private@.n.len() == 512
            &&& j.private@.n[0] >= 128
            &&& j.private@.private->0.complete() ==> {
                let pr = j.private@.private->0;
                crt_values(
                    be_value(pr.d),
                    be_value(pr.p->0),
                    be_value(pr.q->0),
                    be_value(pr.dp->0),
                    be_value(pr.dq->0),
                    be_value(pr.qi->0),
                )
            }
        },
{
    let parts = match openssl_generate(4096) {
        Some(k) => k,
        None => return Err(GenerateError::RsaKeygen),
    };
    let kid = new_v4();
    let (public, private) = key_pair_of_parts(parts, kid, None);
    Ok(Jwks { kid, public, private })
}

} // verus!
