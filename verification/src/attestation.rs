//! The trade attestation verifier.
//!
//! A request is attested when its signature is an Ed25519 signature, under
//! the TEE key registered for the agent, over the Keccak-256 digest of the
//! request's encoding.

use vstd::prelude::*;

use crate::encoding::{lemma_changed_trade_changes_encoding, RequestTradingArgs};
use crate::error::Errors;
use crate::identity::{sentinel_bytes, Pubkey};
use crate::primitives::{
    ed25519_key_decodes, ed25519_signature_checks, is_decodable_key, keccak256, keccak256_hash,
    verify_signature,
};
use crate::registry::AgentData;

verus! {

/// Whether `key` can serve as a TEE key: it is not the sentinel, and it
/// decodes as a public key.
pub open spec fn usable_tee_key(key: Seq<u8>) -> bool {
    key != sentinel_bytes() && ed25519_key_decodes(key)
}

/// What a verification returns, given whether the registered key is the
/// sentinel, whether it decodes, and whether the signature checks under it.
pub open spec fn verdict(
    key_is_sentinel: bool,
    key_decodes: bool,
    signature_checks: bool,
) -> Result<(), Errors> {
    if key_is_sentinel || !key_decodes {
        Err(Errors::InvalidPublicKey)
    } else if !signature_checks {
        Err(Errors::InvalidSignature)
    } else {
        Ok(())
    }
}

/// The digest that the signature of `request` is checked against.
pub open spec fn digest_of(request: RequestTradingArgs) -> Seq<u8> {
    keccak256(request.encoding())
}

/// What verifying `request` against the registered key `tee_key` returns.
pub open spec fn attestation_of(
    tee_key: Seq<u8>,
    request: RequestTradingArgs,
) -> Result<(), Errors> {
    verdict(
        tee_key == sentinel_bytes(),
        ed25519_key_decodes(tee_key),
        ed25519_signature_checks(tee_key, digest_of(request), request.signature@),
    )
}

/// Decides a verification from the outcome of its checks.
///
/// A key that is the sentinel or does not decode is refused with
/// `InvalidPublicKey`, whatever the signature; under a usable key a signature
/// that does not check is refused with `InvalidSignature`.
pub fn attestation_verdict(
    tee_key: &Pubkey,
    key_decodes: bool,
    signature_checks: bool,
) -> (outcome: Result<(), Errors>)
    ensures
        outcome == verdict(tee_key@ == sentinel_bytes(), key_decodes, signature_checks),
{
    if tee_key.is_sentinel() || !key_decodes {
        Err(Errors::InvalidPublicKey)
    } else if !signature_checks {
        Err(Errors::InvalidSignature)
    } else {
        Ok(())
    }
}

/// The Keccak-256 digest of the encoding of `request`: the message that the
/// agent's TEE signs.
pub fn trade_digest(request: &RequestTradingArgs) -> (digest: [u8; 32])
    ensures
        digest@ == digest_of(*request),
{
    let data = request.encode();
    keccak256_hash(data.as_slice())
}

/// Verifies that `request` carries a valid attestation from the TEE key
/// registered in `record`.
pub fn verify(record: &AgentData, request: &RequestTradingArgs) -> (outcome: Result<(), Errors>)
    ensures
        outcome == attestation_of(record.tee_key@, *request),
{
    let digest = trade_digest(request);
    let decodes = is_decodable_key(&record.tee_key.bytes);
    let checks = if decodes {
        verify_signature(&record.tee_key.bytes, &digest, &request.signature)
    } else {
        false
    };
    attestation_verdict(&record.tee_key, decodes, checks)
}

/// Whether Keccak-256 maps the two distinct byte strings `x` and `y` to one digest.
pub open spec fn keccak256_collides(x: Seq<u8>, y: Seq<u8>) -> bool {
    x != y && keccak256(x) == keccak256(y)
}

/// The digest is a function of the encoded fields: requests that agree on
/// the operation, the two tokens, the amount and the nonce have the same
/// encoding and the same digest.
pub proof fn lemma_digest_deterministic(a: RequestTradingArgs, b: RequestTradingArgs)
    requires
        a.same_trade(&b),
    ensures
        a.encoding() == b.encoding(),
        digest_of(a) == digest_of(b),
{
}

/// Any change to the operation, a token, the amount or the nonce changes
/// the digest, unless Keccak-256 collides on the two encodings.
pub proof fn lemma_changed_trade_changes_digest(a: RequestTradingArgs, b: RequestTradingArgs)
    requires
        !a.same_trade(&b),
        !keccak256_collides(a.encoding(), b.encoding()),
    ensures
        digest_of(a) != digest_of(b),
{
    lemma_changed_trade_changes_encoding(a, b);
}

/// The answer to a request depends on the registered key, the encoded
/// fields and the signature alone: neither who submits it, nor how often,
/// nor which admin it names plays a part.
pub proof fn lemma_attestation_deterministic(
    tee_key: Seq<u8>,
    a: RequestTradingArgs,
    b: RequestTradingArgs,
)
    requires
        a.same_trade(&b),
        a.signature@ == b.signature@,
    ensures
        attestation_of(tee_key, a) == attestation_of(tee_key, b),
{
}

/// A request is attested exactly when the registered key is usable and the
/// signature checks under it against the digest of the request.
pub proof fn lemma_attested_iff_signature_checks(tee_key: Seq<u8>, request: RequestTradingArgs)
    ensures
        attestation_of(tee_key, request) is Ok <==> usable_tee_key(tee_key)
            && ed25519_signature_checks(tee_key, digest_of(request), request.signature@),
        attestation_of(tee_key, request) == Err::<(), Errors>(Errors::InvalidPublicKey)
            <==> !usable_tee_key(tee_key),
{
}

/// A request whose operation, token, amount or nonce was altered after
/// signing is refused with `InvalidSignature` under a usable key, unless the
/// signature also checks against the digest of the altered request.
pub proof fn lemma_tampered_request_refused(
    tee_key: Seq<u8>,
    signed: RequestTradingArgs,
    tampered: RequestTradingArgs,
)
    requires
        usable_tee_key(tee_key),
        !signed.same_trade(&tampered),
        tampered.signature@ == signed.signature@,
        !ed25519_signature_checks(tee_key, digest_of(tampered), signed.signature@),
    ensures
        signed.encoding() != tampered.encoding(),
        attestation_of(tee_key, tampered) == Err::<(), Errors>(Errors::InvalidSignature),
{
    lemma_changed_trade_changes_encoding(signed, tampered);
}

} // verus!
