//! The curve, the hash and the random source, none of which is proved here:
//! each function below states what the library it calls is trusted to do.

use vstd::prelude::*;
use crate::scalar::{has_zero_component, is_compact_signature, is_secret_scalar};

verus! {

/// The SHA-256 digest of `message`.
pub uninterp spec fn sha256(message: Seq<u8>) -> Seq<u8>;

/// Whether the 33 bytes of `encoding` are the compressed SEC1 form of a point
/// on secp256k1.
pub uninterp spec fn is_curve_point(encoding: Seq<u8>) -> bool;

/// The compressed SEC1 form of `secret` times the base point.
pub uninterp spec fn public_point(secret: Seq<u8>) -> Seq<u8>;

/// The compact ECDSA signature of `digest` under `secret`, with the nonce
/// derived from both as RFC 6979 lays down.
pub uninterp spec fn ecdsa_signature(digest: Seq<u8>, secret: Seq<u8>) -> Seq<u8>;

/// Whether ECDSA verification accepts `signature` for `digest` under the
/// public key `point`.
pub uninterp spec fn ecdsa_accepts(digest: Seq<u8>, signature: Seq<u8>, point: Seq<u8>) -> bool;

/// The error of rand's generators, carried through unread.
#[verifier::external_type_specification]
#[verifier::external_body]
pub struct ExRandError(rand::Error);

/// Calls `Sha256::digest` of sha2. Trusted: the 32 bytes returned are the
/// SHA-256 digest of the input, a function of the input alone.
#[verifier::external_body]
pub(crate) fn sha256_digest(message: &[u8]) -> (digest: [u8; 32])
    ensures
        digest@ == sha256(message@),
{
    <sha2::Sha256 as sha2::Digest>::digest(message).into()
}

/// Calls `try_fill_bytes` on `OsRng` of rand, which asks the operating
/// system for the bytes and reports its failure as an error. Nothing is
/// claimed of the bytes drawn.
#[verifier::external_body]
pub(crate) fn random_seed() -> (drawn: Result<[u8; 32], rand::Error>) {
    let mut seed = [0u8; 32];
    match rand::RngCore::try_fill_bytes(&mut rand::rngs::OsRng, &mut seed) {
        Ok(()) => Ok(seed),
        Err(e) => Err(e),
    }
}

/// Calls `secp256k1::SecretKey::from_slice`. Trusted: it accepts exactly the
/// 32-byte strings that spell, big-endian, a number that is not zero and is
/// below the group order.
#[verifier::external_body]
pub(crate) fn secret_scalar_ok(bytes: &[u8; 32]) -> (ok: bool)
    ensures
        ok == is_secret_scalar(bytes@),
{
    secp256k1::SecretKey::from_slice(bytes).is_ok()
}

/// Calls `secp256k1::PublicKey::from_slice` on 33 bytes. Trusted: whether it
/// accepts depends on the bytes alone.
#[verifier::external_body]
pub(crate) fn curve_point_ok(encoding: &[u8; 33]) -> (ok: bool)
    ensures
        ok == is_curve_point(encoding@),
{
    secp256k1::PublicKey::from_slice(encoding).is_ok()
}

/// Calls `secp256k1::ecdsa::Signature::from_compact`. Trusted: it accepts
/// exactly the 64-byte strings whose two halves each spell, big-endian, a
/// number below the group order; zero is accepted.
#[verifier::external_body]
pub(crate) fn compact_signature_ok(bytes: &[u8; 64]) -> (ok: bool)
    ensures
        ok == is_compact_signature(bytes@),
{
    secp256k1::ecdsa::Signature::from_compact(bytes).is_ok()
}

/// Calls `secp256k1::PublicKey::from_secret_key` and serialises the point in
/// compressed form. Trusted: the result depends on the secret alone, and is
/// an encoding that `PublicKey::from_slice` accepts.
#[verifier::external_body]
pub(crate) fn derive_point(secret: &[u8; 32]) -> (point: [u8; 33])
    requires
        is_secret_scalar(secret@),
    ensures
        point@ == public_point(secret@),
        is_curve_point(point@),
{
    let key = secp256k1::SecretKey::from_slice(secret).unwrap();
    secp256k1::PublicKey::from_secret_key(&secp256k1::Secp256k1::signing_only(), &key).serialize()
}

/// Calls `Secp256k1::sign_ecdsa` and serialises the signature in compact
/// form. Trusted: the nonce is derived from digest and secret, so the result
/// depends on these two alone; both of its halves are below the group
/// order; and verification accepts it under the secret's own public key.
#[verifier::external_body]
pub(crate) fn ecdsa_sign(digest: &[u8; 32], secret: &[u8; 32]) -> (signature: [u8; 64])
    requires
        is_secret_scalar(secret@),
    ensures
        signature@ == ecdsa_signature(digest@, secret@),
        is_compact_signature(signature@),
        ecdsa_accepts(digest@, signature@, public_point(secret@)),
{
    let key = secp256k1::SecretKey::from_slice(secret).unwrap();
    let message = secp256k1::Message::from_digest(*digest);
    secp256k1::Secp256k1::signing_only().sign_ecdsa(&message, &key).serialize_compact()
}

/// Calls `Secp256k1::verify_ecdsa`. Trusted: the verdict depends on digest,
/// signature and public key alone, and a signature with a zero half is
/// rejected for every digest and key.
#[verifier::external_body]
pub(crate) fn ecdsa_verify(digest: &[u8; 32], signature: &[u8; 64], point: &[u8; 33]) -> (ok: bool)
    requires
        is_compact_signature(signature@),
        is_curve_point(point@),
    ensures
        ok == ecdsa_accepts(digest@, signature@, point@),
        has_zero_component(signature@) ==> !ok,
{
    let key = secp256k1::PublicKey::from_slice(point).unwrap();
    let parsed = secp256k1::ecdsa::Signature::from_compact(signature).unwrap();
    let message = secp256k1::Message::from_digest(*digest);
    secp256k1::Secp256k1::verification_only().verify_ecdsa(&message, &parsed, &key).is_ok()
}

} // verus!
