//! The cryptographic primitives that the verifier rests on: Keccak-256 and
//! Ed25519, as the outside crates compute them.
//!
//! Nothing in this file is proved. Each primitive is a function of its
//! arguments alone, so its result has a name in specifications, and the
//! function that makes the call is trusted to return what the name stands
//! for.

use ed25519_dalek::Verifier;
use vstd::prelude::*;

verus! {

/// The Keccak-256 digest of `data`.
pub uninterp spec fn keccak256(data: Seq<u8>) -> Seq<u8>;

/// Whether the thirty-two bytes `key` decode as an Ed25519 public key.
pub uninterp spec fn ed25519_key_decodes(key: Seq<u8>) -> bool;

/// Whether `signature` is accepted as an Ed25519 signature over `message`
/// under the public key that `key` decodes as.
pub uninterp spec fn ed25519_signature_checks(
    key: Seq<u8>,
    message: Seq<u8>,
    signature: Seq<u8>,
) -> bool;

/// Calls `anchor_lang::solana_program::keccak::hash` and takes the bytes of
/// the hash that it returns. Trusted: they are the Keccak-256 digest of
/// `data`.
#[allow(deprecated)]
#[verifier::external_body]
pub(crate) fn keccak256_hash(data: &[u8]) -> (digest: [u8; 32])
    ensures
        digest@ == keccak256(data@),
{
    anchor_lang::solana_program::keccak::hash(data).to_bytes()
}

/// Calls `ed25519_dalek::VerifyingKey::from_bytes` and tells whether it
/// succeeded. Trusted: whether it succeeds depends on `key` alone.
#[verifier::external_body]
pub(crate) fn is_decodable_key(key: &[u8; 32]) -> (decodes: bool)
    ensures
        decodes == ed25519_key_decodes(key@),
{
    ed25519_dalek::VerifyingKey::from_bytes(key).is_ok()
}

/// Decodes `key` with `ed25519_dalek::VerifyingKey::from_bytes`, which the
/// precondition says succeeds, calls `ed25519_dalek::Verifier::verify` on
/// the decoded key with `message` and the signature made of `signature`,
/// and tells whether it succeeded. Trusted: whether it succeeds depends on
/// the key, the message and the signature alone.
#[verifier::external_body]
pub(crate) fn verify_signature(
    key: &[u8; 32],
    message: &[u8; 32],
    signature: &[u8; 64],
) -> (accepted: bool)
    requires
        ed25519_key_decodes(key@),
    ensures
        accepted == ed25519_signature_checks(key@, message@, signature@),
{
    match ed25519_dalek::VerifyingKey::from_bytes(key) {
        Ok(verifying_key) => verifying_key
            .verify(message, &ed25519_dalek::Signature::from_bytes(signature))
            .is_ok(),
        Err(_) => false,
    }
}

} // verus!
