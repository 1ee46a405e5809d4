//! RSA key generation (`rsa` with `rand`, and `openssl`), and RS256 signing
//! (`jsonwebtoken`, with the key converted by `jsonwebkey`).
use crate::jwk::{Jwk, JwkView};
use crate::keys::{be_value, crt_values, rs256_safe, rsa_consistent, RsaKeyParts};
use crate::outside::encoding::b64url;
use rand_chacha::rand_core::SeedableRng;
use rsa::traits::{PrivateKeyParts, PublicKeyParts};
use vstd::prelude::*;

verus! {

/// The RS256 signature of `message` under the RSA key `key` describes: the
/// RSASSA-PKCS1-v1_5 signature with SHA-256 that `jsonwebtoken::crypto::sign`
/// makes with the key `jsonwebkey::Key::try_to_encoding_key` converts the JWK
/// into, or `None` where the conversion or the signing reports an error. The
/// scheme is deterministic: the signature depends on the key and the message
/// alone.
pub uninterp spec fn rs256_signature(key: JwkView, message: Seq<u8>) -> Option<Seq<u8>>;

/// `jsonwebtoken::crypto::sign(message, key, Algorithm::RS256)` on the key
/// that `jsonwebkey::Key::try_to_encoding_key` converts the RSA JWK `key`
/// into, the errors dropped. The signature comes back as URL-safe Base64
/// without padding. The conversion fails for a key without every prime and
/// CRT value, and `rsa` refuses numbers it does not accept (see
/// `rsa_consistent`); both come back as `None`. `jsonwebtoken` signs with
/// `sign_with_rng`, which panics on any signing error, so keys that `rsa`
/// accepts but cannot sign with are left out (see `rs256_safe`): a modulus
/// shorter than 62 bytes, which cannot hold the padded digest, and factors
/// that are not two distinct primes, for which decryption does not invert
/// encryption and the signer's check fails.
#[verifier::external_body]
pub(crate) fn sign_rs256(message: &[u8], key: &Jwk) -> (r: Option<String>)
    requires
        rs256_safe(key@),
    ensures
        match r {
            Some(s) => rs256_signature(key@, message@) matches Some(sig) && s@ == b64url(sig),
            None => rs256_signature(key@, message@) is None,
        },
        !(key@.private matches Some(p) && p.complete()) ==> r is None,
{
    let c = |v: &Vec<u8>| jsonwebkey::ByteVec::from(v.clone());
    let private = key.private.as_ref().map(|x| jsonwebkey::RsaPrivate { d: c(&x.d),
        p: x.p.as_ref().map(c), q: x.q.as_ref().map(c), dp: x.dp.as_ref().map(c),
        dq: x.dq.as_ref().map(c), qi: x.qi.as_ref().map(c) });
    let public = jsonwebkey::RsaPublic { e: jsonwebkey::PublicExponent, n: c(&key.n) };
    let k = jsonwebkey::Key::RSA { public, private }.try_to_encoding_key().ok()?;
    jsonwebtoken::crypto::sign(message, &k, jsonwebtoken::Algorithm::RS256).ok()
}

/// `rsa::RsaPrivateKey::new(rng, bits)`, with a ChaCha20 generator seeded
/// from the thread's generator (`rand`), read out as big-endian bytes without
/// leading zeros; the errors dropped. The key is random, so only what the
/// crate's source shows of every key it makes is stated:
/// - it succeeds for 64 bits and more: seeding from the thread's generator
///   cannot fail (its `try_fill_bytes` always returns `Ok`), and generation
///   loops until it has a key, refusing only sizes under 64 bits;
/// - the exponent is 65537 (`RsaPrivateKey::EXP`);
/// - the modulus is the product of the two factors and has exactly `bits`
///   bits (generation retries until it has);
/// - the factors are distinct (generation retries on equal ones) and the
///   numbers pass `RsaPrivateKey::validate` (`from_components` returns only
///   validated keys);
/// - the CRT exponents are `d mod (p−1)` and `d mod (q−1)` (`precompute`) and
///   the coefficient is the inverse of q modulo p, below p (`crt_coefficient`,
///   a modular inverse brought into `[0, p)`).
/// The factors come from a probabilistic prime test, so their primality is
/// not claimed.
#[verifier::external_body]
pub(crate) fn rsa_generate(bits: usize) -> (r: Option<RsaKeyParts>)
    ensures
        bits >= 64 ==> r is Some,
        r matches Some(k) ==> {
            &&& k.e@ == seq![1u8, 0u8, 1u8]
            &&& k.p is Some && k.q is Some && k.dp is Some && k.dq is Some && k.qi is Some
            &&& be_value(k.p->0@) != be_value(k.q->0@)
            &&& rsa_consistent(be_value(k.n@), be_value(k.d@), be_value(k.p->0@), be_value(k.q->0@))
            &&& crt_values(
                be_value(k.d@),
                be_value(k.p->0@),
                be_value(k.q->0@),
                be_value(k.dp->0@),
                be_value(k.dq->0@),
                be_value(k.qi->0@),
            )
            &&& bits > 0 && bits % 8 == 0 ==> k.n@.len() == bits / 8 && k.n@[0] >= 128
        },
{
    let mut rng = rand_chacha::ChaCha20Rng::from_rng(rand::thread_rng()).ok()?;
    let k = rsa::RsaPrivateKey::new(&mut rng, bits).ok()?;
    let b = |v: &rsa::BigUint| v.to_bytes_be();
    Some(RsaKeyParts { n: b(k.n()), e: b(k.e()), d: b(k.d()), p: k.primes().get(0).map(b),
        q: k.primes().get(1).map(b), dp: k.dp().map(b), dq: k.dq().map(b),
        qi: k.crt_coefficient().as_ref().map(b) })
}

/// `openssl::rsa::Rsa::generate(bits)`, read out as big-endian bytes
/// (`BigNumRef::to_vec`); the error dropped. The key is random; the crate
/// documents that its public exponent is 65537 and that the key has the size
/// asked for, so its modulus has exactly `bits` bits. It documents `dmp1`,
/// `dmq1` and `iqmp` as the key's exponents and coefficient for CRT
/// calculations (`RSA_get0_crt_params`), which for an RSA key with factors
/// `p` and `q` are, as PKCS #1 defines them, `d mod (p−1)`, `d mod (q−1)`
/// and the inverse of `q` modulo `p`, below `p`; where all of them are given,
/// they are stated as such.
#[verifier::external_body]
pub(crate) fn openssl_generate(bits: u32) -> (r: Option<RsaKeyParts>)
    ensures
        r matches Some(k) ==> {
            &&& k.e@ == seq![1u8, 0u8, 1u8]
            &&& bits > 0 && bits % 8 == 0 ==> k.n@.len() == bits / 8 && k.n@[0] >= 128
            &&& (k.p is Some && k.q is Some && k.dp is Some && k.dq is Some && k.qi is Some)
                ==> crt_values(
                be_value(k.d@),
                be_value(k.p->0@),
                be_value(k.q->0@),
                be_value(k.dp->0@),
                be_value(k.dq->0@),
                be_value(k.qi->0@),
            )
        },
{
    let k = openssl::rsa::Rsa::generate(bits).ok()?;
    let b = |v: &openssl::bn::BigNumRef| v.to_vec();
    Some(RsaKeyParts { n: b(k.n()), e: b(k.e()), d: b(k.d()), p: k.p().map(b), q: k.q().map(b),
        dp: k.dmp1().map(b), dq: k.dmq1().map(b), qi: k.iqmp().map(b) })
}

} // verus!
