//! Keys and signatures, held in their canonical byte encodings, and the
//! operations that make and use them.

use vstd::prelude::*;
use vstd::string::StringSliceAdditionalSpecFns;
use crate::provider::{
    curve_point_ok, compact_signature_ok, derive_point, ecdsa_accepts, ecdsa_sign,
    ecdsa_signature, ecdsa_verify, is_curve_point, public_point, random_seed, secret_scalar_ok,
    sha256, sha256_digest,
};
use crate::scalar::{has_zero_component, is_compact_signature, is_secret_scalar};

verus! {

/// How many times key generation draws from the random source before it
/// gives up.
pub const MAX_DRAWS: u32 = 16;

/// The random source failed, or kept returning bytes that are no scalar.
#[derive(Clone, Copy, Debug, PartialEq, Eq)]
pub struct RandomnessUnavailable;

/// A secret scalar of secp256k1: 32 big-endian bytes that spell a number
/// from 1 to the group order less one.
#[derive(PartialEq, Eq)]
pub struct PrivateKey {
    bytes: [u8; 32],
}

/// A point of secp256k1 other than the identity, in compressed SEC1 form:
/// 33 bytes.
#[derive(Debug, PartialEq, Eq)]
pub struct PublicKey {
    bytes: [u8; 33],
}

/// An ECDSA signature in compact form: `r` then `s`, 32 big-endian bytes
/// each, both below the group order.
#[derive(Debug, PartialEq, Eq)]
pub struct Signature {
    bytes: [u8; 64],
}

impl View for PrivateKey {
    type V = Seq<u8>;

    closed spec fn view(&self) -> Seq<u8> {
        self.bytes@
    }
}

impl View for PublicKey {
    type V = Seq<u8>;

    closed spec fn view(&self) -> Seq<u8> {
        self.bytes@
    }
}

impl View for Signature {
    type V = Seq<u8>;

    closed spec fn view(&self) -> Seq<u8> {
        self.bytes@
    }
}

impl PrivateKey {
    #[verifier::type_invariant]
    spec fn well_formed(self) -> bool {
        is_secret_scalar(self.bytes@)
    }

    /// The key that `bytes` encode, where they are a secret scalar.
    pub fn from_bytes(bytes: [u8; 32]) -> (key: Option<PrivateKey>)
        ensures
            key is Some <==> is_secret_scalar(bytes@),
            key matches Some(k) ==> k@ == bytes@,
    {
        if secret_scalar_ok(&bytes) {
            Some(PrivateKey { bytes })
        } else {
            None
        }
    }

    /// The canonical encoding: the scalar as 32 big-endian bytes.
    pub fn to_bytes(&self) -> (bytes: [u8; 32])
        ensures
            bytes@ == self@,
            is_secret_scalar(bytes@),
    {
        proof {
            use_type_invariant(self);
        }
        self.bytes
    }

    /// The public key that belongs to this key: the scalar times the base
    /// point.
    pub fn public_key(&self) -> (public: PublicKey)
        ensures
            public@ == public_point(self@),
    {
        proof {
            use_type_invariant(self);
        }
        PublicKey { bytes: derive_point(&self.bytes) }
    }
}

impl PublicKey {
    #[verifier::type_invariant]
    spec fn well_formed(self) -> bool {
        is_curve_point(self.bytes@)
    }

    /// The key that `bytes` encode, where they are a point of the curve.
    pub fn from_bytes(bytes: [u8; 33]) -> (key: Option<PublicKey>)
        ensures
            key is Some <==> is_curve_point(bytes@),
            key matches Some(k) ==> k@ == bytes@,
    {
        if curve_point_ok(&bytes) {
            Some(PublicKey { bytes })
        } else {
            None
        }
    }

    /// The canonical encoding: the point in compressed SEC1 form.
    pub fn to_bytes(&self) -> (bytes: [u8; 33])
        ensures
            bytes@ == self@,
            is_curve_point(bytes@),
    {
        proof {
            use_type_invariant(self);
        }
        self.bytes
    }
}

impl Signature {
    #[verifier::type_invariant]
    spec fn well_formed(self) -> bool {
        is_compact_signature(self.bytes@)
    }

    /// The signature that `bytes` encode, where both halves are below the
    /// group order.
    pub fn from_bytes(bytes: [u8; 64]) -> (signature: Option<Signature>)
        ensures
            signature is Some <==> is_compact_signature(bytes@),
            signature matches Some(s) ==> s@ == bytes@,
    {
        if compact_signature_ok(&bytes) {
            Some(Signature { bytes })
        } else {
            None
        }
    }

    /// The canonical encoding: `r` then `s`, 32 big-endian bytes each.
    pub fn to_bytes(&self) -> (bytes: [u8; 64])
        ensures
            bytes@ == self@,
            is_compact_signature(bytes@),
    {
        proof {
            use_type_invariant(self);
        }
        self.bytes
    }
}

impl Clone for PrivateKey {
    fn clone(&self) -> (copy: Self)
        ensures
            copy@ == self@,
    {
        proof {
            use_type_invariant(self);
        }
        PrivateKey { bytes: self.bytes }
    }
}

impl Clone for PublicKey {
    fn clone(&self) -> (copy: Self)
        ensures
            copy@ == self@,
    {
        proof {
            use_type_invariant(self);
        }
        PublicKey { bytes: self.bytes }
    }
}

impl Clone for Signature {
    fn clone(&self) -> (copy: Self)
        ensures
            copy@ == self@,
    {
        proof {
            use_type_invariant(self);
        }
        Signature { bytes: self.bytes }
    }
}

/// The key pair whose secret is `seed`, where `seed` is a secret scalar.
pub fn key_pair_from_seed(seed: [u8; 32]) -> (pair: Option<(PrivateKey, PublicKey)>)
    ensures
        pair is Some <==> is_secret_scalar(seed@),
        pair matches Some((secret, public)) ==> secret@ == seed@ && public@ == public_point(seed@),
{
    match PrivateKey::from_bytes(seed) {
        Some(secret) => {
            let public = secret.public_key();
            Some((secret, public))
        },
        None => None,
    }
}

/// Draws a secret scalar from the random source and derives its public key.
///
/// Bytes that are no scalar are drawn again, up to `MAX_DRAWS` times in
/// all. An error of the source, or no scalar among that many draws, is
/// reported as `RandomnessUnavailable`.
pub fn generate_key_pair() -> (pair: Result<(PrivateKey, PublicKey), RandomnessUnavailable>)
    ensures
        pair matches Ok((secret, public)) ==> public@ == public_point(secret@),
{
    let mut draws: u32 = 0;
    while draws < MAX_DRAWS
        invariant
            draws <= MAX_DRAWS,
        decreases MAX_DRAWS - draws,
    {
        match random_seed() {
            Ok(seed) => {
                if let Some(found) = key_pair_from_seed(seed) {
                    return Ok(found);
                }
            },
            Err(_) => {
                return Err(RandomnessUnavailable);
            },
        }
        draws = draws + 1;
    }
    Err(RandomnessUnavailable)
}

/// The SHA-256 digest of `message`: 32 bytes, the same for the same bytes.
pub fn hash_bytes(message: &[u8]) -> (digest: [u8; 32])
    ensures
        digest@ == sha256(message@),
        digest@.len() == 32,
{
    sha256_digest(message)
}

/// The SHA-256 digest of the UTF-8 bytes of `message`.
pub fn hash_message(message: &str) -> (digest: [u8; 32])
    ensures
        digest@ == sha256(message.spec_bytes()),
        digest@.len() == 32,
{
    hash_bytes(message.as_bytes())
}

/// What signing promises of the signature it returns for `digest` under
/// the secret scalar `secret`: it is the one signature that the two
/// determine, and it is accepted under the public key of `secret`.
pub open spec fn is_signature_by(signature: Seq<u8>, digest: Seq<u8>, secret: Seq<u8>) -> bool {
    &&& signature == ecdsa_signature(digest, secret)
    &&& ecdsa_accepts(digest, signature, public_point(secret))
}

/// A signature verifies under the public key that belongs to the private
/// key it was made with.
pub proof fn lemma_signature_verifies_under_own_key(
    signature: Seq<u8>,
    digest: Seq<u8>,
    secret: Seq<u8>,
    public: Seq<u8>,
)
    requires
        is_signature_by(signature, digest, secret),
        public == public_point(secret),
    ensures
        ecdsa_accepts(digest, signature, public),
{
}

/// Signing is deterministic: two signatures of one digest under one key are
/// the same bytes, and both verify.
pub proof fn lemma_signing_is_deterministic(
    first: Seq<u8>,
    second: Seq<u8>,
    digest: Seq<u8>,
    secret: Seq<u8>,
)
    requires
        is_signature_by(first, digest, secret),
        is_signature_by(second, digest, secret),
    ensures
        first == second,
        ecdsa_accepts(digest, first, public_point(secret)),
        ecdsa_accepts(digest, second, public_point(secret)),
{
}

/// Signs a digest as it stands, without hashing it again.
///
/// The signature is a function of digest and key, so signing twice gives
/// the same bytes, and it verifies under the key's own public key.
pub fn sign_digest(digest: &[u8; 32], key: &PrivateKey) -> (signature: Signature)
    ensures
        is_signature_by(signature@, digest@, key@),
{
    proof {
        use_type_invariant(key);
    }
    Signature { bytes: ecdsa_sign(digest, &key.bytes) }
}

/// Whether `signature` is valid for `digest` under `key`.
///
/// An invalid signature is no error: the answer is `false`, as it is for
/// every signature with a zero component.
pub fn verify_digest(digest: &[u8; 32], signature: &Signature, key: &PublicKey) -> (valid: bool)
    ensures
        valid == ecdsa_accepts(digest@, signature@, key@),
        has_zero_component(signature@) ==> !valid,
{
    proof {
        use_type_invariant(signature);
        use_type_invariant(key);
    }
    ecdsa_verify(digest, &signature.bytes, &key.bytes)
}

/// Whether the 64 bytes of `signature` are a signature that is valid for
/// `digest` under `key`.
///
/// Bytes with a component at or above the group order are no signature,
/// and the answer for them is `false`, as for any other signature that does
/// not match.
pub fn verify_compact(digest: &[u8; 32], signature: &[u8; 64], key: &PublicKey) -> (valid: bool)
    ensures
        valid == (is_compact_signature(signature@) && ecdsa_accepts(digest@, signature@, key@)),
        has_zero_component(signature@) ==> !valid,
{
    match Signature::from_bytes(*signature) {
        Some(parsed) => verify_digest(digest, &parsed, key),
        None => false,
    }
}

/// Hashes `message` and signs the digest.
pub fn sign_message(message: &str, key: &PrivateKey) -> (signature: Signature)
    ensures
        is_signature_by(signature@, sha256(message.spec_bytes()), key@),
{
    let digest = hash_message(message);
    sign_digest(&digest, key)
}

/// Hashes `message` and checks `signature` against the digest under `key`.
pub fn verify_signature(message: &str, signature: &Signature, key: &PublicKey) -> (valid: bool)
    ensures
        valid == ecdsa_accepts(sha256(message.spec_bytes()), signature@, key@),
{
    let digest = hash_message(message);
    verify_digest(&digest, signature, key)
}

} // verus!
