//! Attestation and authorization core of a TEE-backed trading agent.
//!
//! An admin registers an agent and the public key of the trusted execution
//! environment that signs for it. A trade request carries a signature over
//! the Keccak-256 digest of its fixed-width encoding; the request is attested
//! when that signature checks against the registered key.

pub mod attestation;
pub mod encoding;
pub mod error;
pub mod guard;
pub mod identity;
pub mod instructions;
pub mod primitives;
pub mod registry;

pub use attestation::{attestation_verdict, trade_digest, verify};
pub use encoding::{RequestTradingArgs, TradingOperation};
pub use error::Errors;
pub use guard::authorize_admin;
pub use identity::Pubkey;
pub use instructions::{
    initialize_agent, request_trading, update_tee_key, InitializeAgent, RequestTrading, UpdateTeeKey,
    UpdateTeeKeyArgs,
};
pub use registry::{AgentData, AgentRegistry};
