//! Elliptic-curve signatures over secp256k1: key pairs, SHA-256 digests,
//! signing, verification and a hexadecimal codec for keys and signatures.

pub mod codec;
pub mod hex_text;
pub mod keys;
pub mod provider;
pub mod scalar;

pub use codec::{
    decode_fixed, deserialize_private_key, deserialize_public_key, deserialize_signature,
    serialize_private_key, serialize_public_key, serialize_signature, DecodeError,
};
pub use keys::{
    generate_key_pair, hash_bytes, hash_message, key_pair_from_seed, sign_digest, sign_message,
    verify_compact, verify_digest, verify_signature, PrivateKey, PublicKey, RandomnessUnavailable, Signature,
    MAX_DRAWS,
};
