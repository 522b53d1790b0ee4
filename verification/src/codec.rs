//! Keys and signatures as lowercase hexadecimal text, and back.

use vstd::prelude::*;
use crate::hex_text::{decode_hex, encode_hex, hex_bytes, hex_text, is_hex_text, lemma_hex_round_trip};
use crate::keys::{PrivateKey, PublicKey, Signature};
use crate::provider::is_curve_point;
use crate::scalar::{is_compact_signature, is_secret_scalar};

verus! {

/// Why a text was not decoded.
#[derive(Clone, Copy, Debug, PartialEq, Eq)]
pub enum DecodeError {
    /// An odd number of characters, or a character that is no hexadecimal digit.
    MalformedHex,
    /// Hexadecimal text, but not of the number of bytes that the artifact has.
    InvalidLength,
    /// Bytes of the right number that are no scalar, point or signature of the curve.
    InvalidEncoding,
}

/// The `width` bytes that `text` denotes, or why it denotes none.
pub open spec fn framed_bytes(text: Seq<char>, width: nat) -> Result<Seq<u8>, DecodeError> {
    if !is_hex_text(text) {
        Err(DecodeError::MalformedHex)
    } else if hex_bytes(text).len() != width {
        Err(DecodeError::InvalidLength)
    } else {
        Ok(hex_bytes(text))
    }
}

/// What decoding keeps of framed bytes: those that `valid` holds of.
pub open spec fn checked(framed: Result<Seq<u8>, DecodeError>, valid: bool) -> Result<
    Seq<u8>,
    DecodeError,
> {
    match framed {
        Ok(bytes) => if valid {
            Ok(bytes)
        } else {
            Err(DecodeError::InvalidEncoding)
        },
        Err(e) => Err(e),
    }
}

/// The encoding of the private key that `text` denotes, or the error that
/// decoding gives.
pub open spec fn private_key_from_text(text: Seq<char>) -> Result<Seq<u8>, DecodeError> {
    checked(framed_bytes(text, 32), is_secret_scalar(hex_bytes(text)))
}

/// The encoding of the public key that `text` denotes, or the error that
/// decoding gives.
pub open spec fn public_key_from_text(text: Seq<char>) -> Result<Seq<u8>, DecodeError> {
    checked(framed_bytes(text, 33), is_curve_point(hex_bytes(text)))
}

/// The encoding of the signature that `text` denotes, or the error that
/// decoding gives.
pub open spec fn signature_from_text(text: Seq<char>) -> Result<Seq<u8>, DecodeError> {
    checked(framed_bytes(text, 64), is_compact_signature(hex_bytes(text)))
}

/// Text of an odd number of characters is malformed, whatever the width.
pub proof fn lemma_odd_length_is_malformed(text: Seq<char>, width: nat)
    requires
        text.len() % 2 == 1,
    ensures
        framed_bytes(text, width) == Err::<Seq<u8>, DecodeError>(DecodeError::MalformedHex),
{
}

/// Hexadecimal text of another length than two characters for each byte of
/// the width has an invalid length.
pub proof fn lemma_wrong_length_is_invalid(text: Seq<char>, width: nat)
    requires
        is_hex_text(text),
        text.len() != 2 * width,
    ensures
        framed_bytes(text, width) == Err::<Seq<u8>, DecodeError>(DecodeError::InvalidLength),
{
}

/// Encoding then decoding a private key gives the key back.
pub proof fn lemma_private_key_round_trip(encoding: Seq<u8>)
    requires
        is_secret_scalar(encoding),
    ensures
        private_key_from_text(hex_text(encoding)) == Ok::<Seq<u8>, DecodeError>(encoding),
{
    lemma_hex_round_trip(encoding);
}

/// Encoding then decoding a public key gives the key back.
pub proof fn lemma_public_key_round_trip(encoding: Seq<u8>)
    requires
        encoding.len() == 33,
        is_curve_point(encoding),
    ensures
        public_key_from_text(hex_text(encoding)) == Ok::<Seq<u8>, DecodeError>(encoding),
{
    lemma_hex_round_trip(encoding);
}

/// Encoding then decoding a signature gives the signature back.
pub proof fn lemma_signature_round_trip(encoding: Seq<u8>)
    requires
        is_compact_signature(encoding),
    ensures
        signature_from_text(hex_text(encoding)) == Ok::<Seq<u8>, DecodeError>(encoding),
{
    lemma_hex_round_trip(encoding);
}

/// Parses hexadecimal text that must denote exactly `N` bytes.
pub fn decode_fixed<const N: usize>(text: &str) -> (r: Result<[u8; N], DecodeError>)
    ensures
        match r {
            Ok(bytes) => framed_bytes(text@, N as nat) == Ok::<Seq<u8>, DecodeError>(bytes@),
            Err(e) => framed_bytes(text@, N as nat) == Err::<Seq<u8>, DecodeError>(e),
        },
{
    match decode_hex(text) {
        Err(_) => Err(DecodeError::MalformedHex),
        Ok(bytes) => {
            if bytes.len() != N {
                return Err(DecodeError::InvalidLength);
            }
            let mut out = [0u8; N];
            let mut i: usize = 0;
            while i < N
                invariant
                    i <= N,
                    bytes.len() == N,
                    forall|j: int| 0 <= j < i ==> out@[j] == bytes@[j],
                decreases N - i,
            {
                out[i] = bytes[i];
                i = i + 1;
            }
            assert(out@ =~= bytes@);
            Ok(out)
        },
    }
}

/// The private key as 64 lowercase hexadecimal digits.
pub fn serialize_private_key(key: &PrivateKey) -> (text: String)
    ensures
        text@ == hex_text(key@),
        text@.len() == 64,
        private_key_from_text(text@) == Ok::<Seq<u8>, DecodeError>(key@),
{
    let bytes = key.to_bytes();
    proof {
        lemma_private_key_round_trip(bytes@);
    }
    encode_hex(bytes.as_slice())
}

/// The public key, in compressed form, as 66 lowercase hexadecimal digits.
pub fn serialize_public_key(key: &PublicKey) -> (text: String)
    ensures
        text@ == hex_text(key@),
        text@.len() == 66,
        public_key_from_text(text@) == Ok::<Seq<u8>, DecodeError>(key@),
{
    let bytes = key.to_bytes();
    proof {
        lemma_public_key_round_trip(bytes@);
    }
    encode_hex(bytes.as_slice())
}

/// The signature, in compact form, as 128 lowercase hexadecimal digits.
pub fn serialize_signature(signature: &Signature) -> (text: String)
    ensures
        text@ == hex_text(signature@),
        text@.len() == 128,
        signature_from_text(text@) == Ok::<Seq<u8>, DecodeError>(signature@),
{
    let bytes = signature.to_bytes();
    proof {
        lemma_signature_round_trip(bytes@);
    }
    encode_hex(bytes.as_slice())
}

/// Decodes a private key from hexadecimal text of 32 bytes that spell a
/// number from 1 to the group order less one.
pub fn deserialize_private_key(text: &str) -> (r: Result<PrivateKey, DecodeError>)
    ensures
        match r {
            Ok(key) => private_key_from_text(text@) == Ok::<Seq<u8>, DecodeError>(key@),
            Err(e) => private_key_from_text(text@) == Err::<Seq<u8>, DecodeError>(e),
        },
        text@.len() % 2 == 1 ==> r matches Err(DecodeError::MalformedHex),
        is_hex_text(text@) && text@.len() != 64 ==> r matches Err(DecodeError::InvalidLength),
        is_hex_text(text@) && text@.len() == 64 && !is_secret_scalar(hex_bytes(text@)) ==> r matches Err(
            DecodeError::InvalidEncoding,
        ),
{
    match decode_fixed::<32>(text) {
        Err(e) => Err(e),
        Ok(bytes) => match PrivateKey::from_bytes(bytes) {
            Some(key) => Ok(key),
            None => Err(DecodeError::InvalidEncoding),
        },
    }
}

/// Decodes a public key from hexadecimal text of 33 bytes that are the
/// compressed form of a point of the curve.
pub fn deserialize_public_key(text: &str) -> (r: Result<PublicKey, DecodeError>)
    ensures
        match r {
            Ok(key) => public_key_from_text(text@) == Ok::<Seq<u8>, DecodeError>(key@),
            Err(e) => public_key_from_text(text@) == Err::<Seq<u8>, DecodeError>(e),
        },
        text@.len() % 2 == 1 ==> r matches Err(DecodeError::MalformedHex),
        is_hex_text(text@) && text@.len() != 66 ==> r matches Err(DecodeError::InvalidLength),
        is_hex_text(text@) && text@.len() == 66 && !is_curve_point(hex_bytes(text@)) ==> r matches Err(
            DecodeError::InvalidEncoding,
        ),
{
    match decode_fixed::<33>(text) {
        Err(e) => Err(e),
        Ok(bytes) => match PublicKey::from_bytes(bytes) {
            Some(key) => Ok(key),
            None => Err(DecodeError::InvalidEncoding),
        },
    }
}

/// Decodes a signature from hexadecimal text of 64 bytes whose halves are
/// both below the group order.
pub fn deserialize_signature(text: &str) -> (r: Result<Signature, DecodeError>)
    ensures
        match r {
            Ok(signature) => signature_from_text(text@) == Ok::<Seq<u8>, DecodeError>(signature@),
            Err(e) => signature_from_text(text@) == Err::<Seq<u8>, DecodeError>(e),
        },
        text@.len() % 2 == 1 ==> r matches Err(DecodeError::MalformedHex),
        is_hex_text(text@) && text@.len() != 128 ==> r matches Err(DecodeError::InvalidLength),
        is_hex_text(text@) && text@.len() == 128 && !is_compact_signature(hex_bytes(text@)) ==> r matches Err(
            DecodeError::InvalidEncoding,
        ),
{
    match decode_fixed::<64>(text) {
        Err(e) => Err(e),
        Ok(bytes) => match Signature::from_bytes(bytes) {
            Some(signature) => Ok(signature),
            None => Err(DecodeError::InvalidEncoding),
        },
    }
}

} // verus!
