//! JSON Web Keys for RSA, as the `jsonwebkey` crate shapes them: the modulus
//! (the public exponent is always 65537), the private parts if any, and the
//! `use`, `kid` and `alg` parameters.
use vstd::prelude::*;

verus! {

/// The `use` parameter.
#[derive(Clone, Copy, Debug, PartialEq, Eq, Structural)]
pub enum KeyUse {
    Signing,
    Encryption,
}

/// The `alg` parameter.
#[derive(Clone, Copy, Debug, PartialEq, Eq, Structural)]
pub enum Algorithm {
    HS256,
    RS256,
    ES256,
}

/// The private parts of an RSA key: the private exponent, then the primes,
/// the CRT exponents and the CRT coefficient where present.
#[derive(Debug)]
pub struct RsaPrivate {
    pub d: Vec<u8>,
    pub p: Option<Vec<u8>>,
    pub q: Option<Vec<u8>>,
    pub dp: Option<Vec<u8>>,
    pub dq: Option<Vec<u8>>,
    pub qi: Option<Vec<u8>>,
}

/// The bytes of an optional byte vector.
pub open spec fn opt_bytes(o: Option<Vec<u8>>) -> Option<Seq<u8>> {
    match o {
        Some(v) => Some(v@),
        None => None,
    }
}

/// What an [`RsaPrivate`] holds.
pub struct RsaPrivateView {
    pub d: Seq<u8>,
    pub p: Option<Seq<u8>>,
    pub q: Option<Seq<u8>>,
    pub dp: Option<Seq<u8>>,
    pub dq: Option<Seq<u8>>,
    pub qi: Option<Seq<u8>>,
}

impl View for RsaPrivate {
    type V = RsaPrivateView;

    open spec fn view(&self) -> RsaPrivateView {
        RsaPrivateView {
            d: self.d@,
            p: opt_bytes(self.p),
            q: opt_bytes(self.q),
            dp: opt_bytes(self.dp),
            dq: opt_bytes(self.dq),
            qi: opt_bytes(self.qi),
        }
    }
}

impl RsaPrivateView {
    /// Whether all of the primes and CRT values are present, as PKCS#8
    /// encoding (and so signing) needs them.
    pub open spec fn complete(self) -> bool {
        &&& self.p is Some
        &&& self.q is Some
        &&& self.dp is Some
        &&& self.dq is Some
        &&& self.qi is Some
    }
}

/// The number of bytes of the big-endian number `b` once its leading zero
/// bytes are dropped (the size of an RSA modulus in bytes).
pub open spec fn significant_len(b: Seq<u8>) -> nat
    decreases b.len(),
{
    if b.len() > 0 && b[0] == 0 {
        significant_len(b.drop_first())
    } else {
        b.len()
    }
}

/// An RSA JSON Web Key.
#[derive(Debug)]
pub struct Jwk {
    pub n: Vec<u8>,
    pub private: Option<RsaPrivate>,
    pub key_use: Option<KeyUse>,
    pub key_id: Option<String>,
    pub algorithm: Option<Algorithm>,
}

/// What a [`Jwk`] holds.
pub struct JwkView {
    pub n: Seq<u8>,
    pub private: Option<RsaPrivateView>,
    pub key_use: Option<KeyUse>,
    pub key_id: Option<Seq<char>>,
    pub algorithm: Option<Algorithm>,
}

impl View for Jwk {
    type V = JwkView;

    open spec fn view(&self) -> JwkView {
        JwkView {
            n: self.n@,
            private: match self.private {
                Some(p) => Some(p@),
                None => None,
            },
            key_use: self.key_use,
            key_id: match self.key_id {
                Some(k) => Some(k@),
                None => None,
            },
            algorithm: self.algorithm,
        }
    }
}

/// `jsonwebkey::Error::MismatchedAlgorithm`: the algorithm does not fit the key type.
#[derive(Debug)]
pub struct MismatchedAlgorithm;

impl Jwk {
    /// `JsonWebKey::new(Key::RSA { .. })`: a key with no `use`, `kid` or `alg`.
    pub fn new(n: Vec<u8>, private: Option<RsaPrivate>) -> (r: Jwk)
        ensures
            r.n@ == n@,
            r.private == private,
            r.key_use is None,
            r.key_id is None,
            r.algorithm is None,
    {
        Jwk { n, private, key_use: None, key_id: None, algorithm: None }
    }

    /// `Key::to_public` on an RSA key: the modulus alone, wrapped anew.
    pub fn public_part(&self) -> (r: Jwk)
        ensures
            r.n@ == self.n@,
            r.private is None,
            r.key_use is None,
            r.key_id is None,
            r.algorithm is None,
    {
        Jwk::new(self.n.clone(), None)
    }

    /// Whether this key holds a private part with every prime and CRT value,
    /// which converting it into a signing key needs.
    pub fn can_sign(&self) -> (r: bool)
        ensures
            r == (self@.private matches Some(p) && p.complete()),
    {
        match &self.private {
            Some(p) => p.p.is_some() && p.q.is_some() && p.dp.is_some() && p.dq.is_some()
                && p.qi.is_some(),
            None => false,
        }
    }

    /// `JsonWebKey::set_algorithm`: only `RS256` fits an RSA key; anything
    /// else leaves the key as it was.
    pub fn set_algorithm(&mut self, alg: Algorithm) -> (r: Result<(), MismatchedAlgorithm>)
        ensures
            r is Ok <==> alg == Algorithm::RS256,
            r is Ok ==> final(self)@ == (JwkView { algorithm: Some(alg), ..old(self)@ }),
            r is Err ==> final(self)@ == old(self)@,
    {
        match alg {
            Algorithm::RS256 => {
                self.algorithm = Some(alg);
                Ok(())
            },
            _ => Err(MismatchedAlgorithm),
        }
    }
}

} // verus!
