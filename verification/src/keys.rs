//! The server's signing key set: a fresh RSA key pair under a random key id,
//! kept as a public JWK (served to clients) and a private JWK (used to sign).
use crate::jwk::{Algorithm, Jwk, JwkView, KeyUse, RsaPrivate, RsaPrivateView};
use crate::jwk::{opt_bytes, significant_len};
use crate::outside::crypto::rsa_generate;
use crate::outside::encoding::{b64_standard_decode, b64_standard_decoded};
use crate::outside::ids::{hyphenated_form, hyphenated_string, is_v4, new_v4};
use vstd::prelude::*;
use vstd::utf8::encode_utf8;

verus! {

/// The size of generated keys, in bits.
pub const KEY_BITS: usize = 4096;

/// Whether `public` and `private` are the JWK pair made from the modulus `n`
/// and the private parts `parts` under the key id `kid`: both carry `RS256`
/// and the hyphenated key id; the public one has no private parts and the
/// `use` given, the private one has `parts` and no `use`.
pub open spec fn key_pair(
    public: JwkView,
    private: JwkView,
    kid: u128,
    n: Seq<u8>,
    parts: RsaPrivateView,
    public_use: Option<KeyUse>,
) -> bool {
    &&& public == JwkView {
        n,
        private: None,
        key_use: public_use,
        key_id: Some(hyphenated_form(kid)),
        algorithm: Some(Algorithm::RS256),
    }
    &&& private == JwkView {
        n,
        private: Some(parts),
        key_use: None,
        key_id: Some(hyphenated_form(kid)),
        algorithm: Some(Algorithm::RS256),
    }
}

/// Builds the public and the private JWK of an RSA key under the key id `kid`.
pub fn key_pair_from(rsa: Jwk, kid: u128, public_use: Option<KeyUse>) -> (r: (Jwk, Jwk))
    requires
        rsa@.private is Some,
        rsa@.key_use is None,
        rsa@.key_id is None,
        rsa@.algorithm is None,
    ensures
        key_pair(r.0@, r.1@, kid, rsa@.n, rsa@.private->0, public_use),
{
    let mut public = rsa.public_part();
    let set_public = public.set_algorithm(Algorithm::RS256);
    public.key_use = public_use;
    public.key_id = Some(hyphenated_string(kid));
    let mut private = rsa;
    let set_private = private.set_algorithm(Algorithm::RS256);
    private.key_id = Some(hyphenated_string(kid));
    (public, private)
}

/// The value of the big-endian bytes `b`.
pub open spec fn be_value(b: Seq<u8>) -> nat
    decreases b.len(),
{
    if b.len() == 0 {
        0
    } else {
        be_value(b.drop_last()) * 256 + b.last() as nat
    }
}

/// Whether `x` is a prime number.
pub open spec fn is_prime(x: nat) -> bool {
    &&& x > 1
    &&& forall|k: nat| 1 < k < x ==> #[trigger] (x % k) != 0
}

/// Whether the RSA numbers with modulus `n`, private exponent `d` and the
/// factors `p` and `q` are what the `rsa` crate accepts for a key with the
/// public exponent 65537 (`RsaPrivateKey::validate`): an odd modulus above
/// the exponent, factors above 1 whose product is the modulus, and
/// `d·e ≡ 1` modulo each factor less one.
pub open spec fn rsa_consistent(n: nat, d: nat, p: nat, q: nat) -> bool {
    &&& n % 2 == 1
    &&& n > 65537
    &&& p > 1
    &&& q > 1
    &&& p * q == n
    &&& (d * 65537) % ((p - 1) as nat) == 1
    &&& (d * 65537) % ((q - 1) as nat) == 1
}

/// Whether `dp`, `dq` and `qi` are the CRT values of a key with private
/// exponent `d` and factors `p` and `q`: `d mod (p−1)`, `d mod (q−1)`, and
/// the inverse of `q` modulo `p`, below `p`.
pub open spec fn crt_values(d: nat, p: nat, q: nat, dp: nat, dq: nat, qi: nat) -> bool {
    &&& p > 1
    &&& q > 1
    &&& dp == d % ((p - 1) as nat)
    &&& dq == d % ((q - 1) as nat)
    &&& (qi * q) % p == 1
    &&& qi < p
}

/// Whether these numbers are a genuine RSA key: consistent, with two
/// distinct prime factors.
pub open spec fn rsa_genuine(n: nat, d: nat, p: nat, q: nat) -> bool {
    &&& rsa_consistent(n, d, p, q)
    &&& is_prime(p)
    &&& is_prime(q)
    &&& p != q
}

/// The modulus, private exponent and factors of a JWK with every private part.
pub open spec fn jwk_numbers(key: JwkView) -> (nat, nat, nat, nat) {
    let pr = key.private->0;
    (be_value(key.n), be_value(pr.d), be_value(pr.p->0), be_value(pr.q->0))
}

/// Whether signing RS256 with `key` is safe: a key with every private part
/// whose numbers the `rsa` crate accepts must be a genuine RSA key with a
/// modulus of at least 62 bytes (the least that holds a padded SHA-256
/// `DigestInfo`). Other keys are refused without harm.
pub open spec fn rs256_safe(key: JwkView) -> bool {
    let (n, d, p, q) = jwk_numbers(key);
    (key.private matches Some(pr) && pr.complete() && rsa_consistent(n, d, p, q)) ==> {
        &&& rsa_genuine(n, d, p, q)
        &&& significant_len(key.n) >= 62
    }
}

/// The numbers of a generated RSA key, as big-endian bytes: the modulus, the
/// public and the private exponent, and, where the generator gives them, the
/// two primes, the CRT exponents and the CRT coefficient.
#[derive(Debug)]
pub struct RsaKeyParts {
    pub n: Vec<u8>,
    pub e: Vec<u8>,
    pub d: Vec<u8>,
    pub p: Option<Vec<u8>>,
    pub q: Option<Vec<u8>>,
    pub dp: Option<Vec<u8>>,
    pub dq: Option<Vec<u8>>,
    pub qi: Option<Vec<u8>>,
}

impl RsaKeyParts {
    /// The private parts of a JWK for this key.
    pub open spec fn private_view(self) -> RsaPrivateView {
        RsaPrivateView {
            d: self.d@,
            p: opt_bytes(self.p),
            q: opt_bytes(self.q),
            dp: opt_bytes(self.dp),
            dq: opt_bytes(self.dq),
            qi: opt_bytes(self.qi),
        }
    }
}

/// The public and the private JWK of the key `parts` under the key id `kid`
/// (the exponent is not looked at: a JWK's is always 65537).
pub fn key_pair_of_parts(parts: RsaKeyParts, kid: u128, public_use: Option<KeyUse>) -> (r: (Jwk, Jwk))
    ensures
        key_pair(r.0@, r.1@, kid, parts.n@, parts.private_view(), public_use),
{
    let private = RsaPrivate {
        d: parts.d,
        p: parts.p,
        q: parts.q,
        dp: parts.dp,
        dq: parts.dq,
        qi: parts.qi,
    };
    let rsa = Jwk::new(parts.n, Some(private));
    key_pair_from(rsa, kid, public_use)
}

/// The key set the server signs with.
#[derive(Debug)]
pub struct Jwks {
    pub key_id: u128,
    pub public: Jwk,
    pub private: Jwk,
}

impl Jwks {
    /// Whether this is a key pair under its own key id with a public `use`
    /// of `public_use`.
    pub open spec fn well_formed(self, public_use: Option<KeyUse>) -> bool {
        &&& self.private@.private is Some
        &&& key_pair(
            self.public@,
            self.private@,
            self.key_id,
            self.private@.n,
            self.private@.private->0,
            public_use,
        )
    }
}

/// Why a key set could not be made.
#[derive(Debug, PartialEq, Eq, Structural)]
pub enum KeyGenError {
    /// The RSA key generation failed.
    Generation,
    /// The generated key's public exponent is not 65537.
    Exponent,
    /// A key exported by the platform lacks a field or holds bad Base64.
    Export,
}

/// Whether `e` is 65537 as big-endian bytes.
pub fn is_f4(e: &Vec<u8>) -> (r: bool)
    ensures
        r == (e@ == seq![1u8, 0u8, 1u8]),
{
    if e.len() == 3 && e[0] == 1 && e[1] == 0 && e[2] == 1 {
        proof {
            assert(e@ =~= seq![1u8, 0u8, 1u8]);
        }
        true
    } else {
        false
    }
}

/// The key set for the generated key `parts` under the key id `kid`: refused
/// with `Exponent` exactly where its public exponent is not 65537 (a JWK can
/// only carry that one), else the key pair made of the parts.
pub fn jwks_from_parts(parts: RsaKeyParts, kid: u128, public_use: Option<KeyUse>) -> (r: Result<Jwks, KeyGenError>)
    ensures
        r is Err <==> parts.e@ != seq![1u8, 0u8, 1u8],
        r matches Err(e) ==> e == KeyGenError::Exponent,
        r matches Ok(j) ==> {
            &&& j.key_id == kid
            &&& key_pair(j.public@, j.private@, kid, parts.n@, parts.private_view(), public_use)
        },
{
    if !is_f4(&parts.e) {
        return Err(KeyGenError::Exponent);
    }
    let (public, private) = key_pair_of_parts(parts, kid, public_use);
    Ok(Jwks { key_id: kid, public, private })
}

/// Whether `j`'s private key is a whole 4096-bit RSA key: a 512-byte modulus
/// with its top bit set, two distinct factors, numbers the `rsa` crate
/// accepts, and the CRT values that belong to them.
pub open spec fn whole_4096_bit_key(j: JwkView) -> bool {
    &&& j.n.len() == 512
    &&& j.n[0] >= 128
    &&& j.private matches Some(p) && {
        &&& p.complete()
        &&& be_value(p.p->0) != be_value(p.q->0)
        &&& rsa_consistent(be_value(j.n), be_value(p.d), be_value(p.p->0), be_value(p.q->0))
        &&& crt_values(
            be_value(p.d),
            be_value(p.p->0),
            be_value(p.q->0),
            be_value(p.dp->0),
            be_value(p.dq->0),
            be_value(p.qi->0),
        )
    }
}

impl Jwks {
    /// A fresh 4096-bit RSA key pair (the `rsa` crate) under a random key id,
    /// with the public key marked for signing. Generation of a key of this
    /// size always succeeds and always gives the exponent 65537, so a key set
    /// always comes back.
    pub fn new() -> (r: Result<Jwks, KeyGenError>)
        ensures
            r matches Ok(j) && {
                &&& is_v4(j.key_id)
                &&& j.well_formed(Some(KeyUse::Signing))
                &&& whole_4096_bit_key(j.private@)
            },
    {
        let parts = match rsa_generate(KEY_BITS) {
            Some(k) => k,
            None => return Err(KeyGenError::Generation),
        };
        let key_id = new_v4();
        jwks_from_parts(parts, key_id, Some(KeyUse::Signing))
    }
}

/// A field of a key the platform exported, as a string, decoded from
/// standard Base64: `Ok(None)` where it is absent, `Err` where it is not
/// Base64.
pub open spec fn exported_field(field: Option<String>) -> Result<Option<Seq<u8>>, ()> {
    match field {
        None => Ok(None),
        Some(s) => match b64_standard_decoded(encode_utf8(s@)) {
            Some(b) => Ok(Some(b)),
            None => Err(()),
        },
    }
}

/// Decodes an optional exported field.
pub fn decode_exported(field: &Option<String>) -> (r: Result<Option<Vec<u8>>, ()>)
    ensures
        match exported_field(*field) {
            Ok(o) => r matches Ok(v) && crate::jwk::opt_bytes(v) == o,
            Err(_) => r is Err,
        },
{
    match field {
        None => Ok(None),
        Some(s) => match b64_standard_decode(s.as_str().as_bytes()) {
            Some(b) => Ok(Some(b)),
            None => Err(()),
        },
    }
}

/// The fields of an RSA key pair exported by the platform's Web Crypto as a
/// JWK: the modulus `n` from the public key; `d`, `q`, `dp`, `dq` and `qi`
/// from the private key.
#[derive(Debug)]
pub struct ExportedRsaKey {
    pub n: Option<String>,
    pub d: Option<String>,
    pub q: Option<String>,
    pub dp: Option<String>,
    pub dq: Option<String>,
    pub qi: Option<String>,
}

/// Whether every field of an export decodes, the required `n` and `d` being present.
pub open spec fn export_decodes(k: ExportedRsaKey) -> bool {
    &&& k.n is Some
    &&& k.d is Some
    &&& exported_field(k.n) is Ok
    &&& exported_field(k.d) is Ok
    &&& exported_field(k.q) is Ok
    &&& exported_field(k.dp) is Ok
    &&& exported_field(k.dq) is Ok
    &&& exported_field(k.qi) is Ok
}

impl Jwks {
    /// A key set from an RSA key pair the platform's Web Crypto generated and
    /// exported, under a fresh key id. The first prime `p` is read from the
    /// export's `d` field, so it repeats the private exponent. An export that lacks
    /// `n` or `d`, or holds a field that is not standard Base64, is refused.
    pub fn from_webcrypto_export(export: &ExportedRsaKey) -> (r: Result<Jwks, KeyGenError>)
        ensures
            r is Ok <==> export_decodes(*export),
            r matches Err(e) ==> e == KeyGenError::Export,
            r matches Ok(j) ==> {
                &&& is_v4(j.key_id)
                &&& j.well_formed(None)
                &&& Some(j.private@.n) == exported_field(export.n)->Ok_0
                &&& j.private@.private matches Some(p) && {
                    &&& Some(p.d) == exported_field(export.d)->Ok_0
                    &&& p.p == exported_field(export.d)->Ok_0
                    &&& p.q == exported_field(export.q)->Ok_0
                    &&& p.dp == exported_field(export.dp)->Ok_0
                    &&& p.dq == exported_field(export.dq)->Ok_0
                    &&& p.qi == exported_field(export.qi)->Ok_0
                }
            },
    {
        let key_id = new_v4();
        if export.n.is_none() || export.d.is_none() {
            return Err(KeyGenError::Export);
        }
        let n = match decode_exported(&export.n) {
            Ok(Some(v)) => v,
            _ => return Err(KeyGenError::Export),
        };
        let d = match decode_exported(&export.d) {
            Ok(Some(v)) => v,
            _ => return Err(KeyGenError::Export),
        };
        let p = match decode_exported(&export.d) {
            Ok(v) => v,
            Err(_) => return Err(KeyGenError::Export),
        };
        let q = match decode_exported(&export.q) {
            Ok(v) => v,
            Err(_) => return Err(KeyGenError::Export),
        };
        let dp = match decode_exported(&export.dp) {
            Ok(v) => v,
            Err(_) => return Err(KeyGenError::Export),
        };
        let dq = match decode_exported(&export.dq) {
            Ok(v) => v,
            Err(_) => return Err(KeyGenError::Export),
        };
        let qi = match decode_exported(&export.qi) {
            Ok(v) => v,
            Err(_) => return Err(KeyGenError::Export),
        };
        let rsa = Jwk::new(n, Some(RsaPrivate { d, p, q, dp, dq, qi }));
        let (public, private) = key_pair_from(rsa, key_id, None);
        Ok(Jwks { key_id, public, private })
    }
}

} // verus!
