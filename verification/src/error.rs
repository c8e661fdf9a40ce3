//! The ways in which an operation can be refused.

use vstd::prelude::*;

verus! {

/// Why an operation was refused. Every refusal is final for the operation
/// that raised it and leaves all state as it was.
#[derive(Clone, Copy, Debug, PartialEq, Eq, Structural)]
pub enum Errors {
    /// The caller is not the admin of the agent record.
    UnauthorizedSigner,
    /// The signature is malformed or does not check against the digest.
    InvalidSignature,
    /// The registered TEE key is not a usable public key.
    InvalidPublicKey,
    /// An agent record already exists for this admin.
    AlreadyExists,
    /// No agent record exists for this admin.
    NotFound,
}

impl Errors {
    /// The text shown for each refusal.
    pub open spec fn message_text(self) -> Seq<char> {
        match self {
            Errors::UnauthorizedSigner => "Unauthorized signer"@,
            Errors::InvalidSignature => "Invalid signature"@,
            Errors::InvalidPublicKey => "Invalid public key"@,
            Errors::AlreadyExists => "Agent already exists"@,
            Errors::NotFound => "Agent not found"@,
        }
    }

    /// A short human-readable description of the refusal.
    pub fn message(&self) -> (text: &'static str)
        ensures
            text@ == self.message_text(),
    {
        match self {
            Errors::UnauthorizedSigner => "Unauthorized signer",
            Errors::InvalidSignature => "Invalid signature",
            Errors::InvalidPublicKey => "Invalid public key",
            Errors::AlreadyExists => "Agent already exists",
            Errors::NotFound => "Agent not found",
        }
    }
}

} // verus!
