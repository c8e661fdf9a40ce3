//! The fixed-width encoding of a trade request.
//!
//! The encoding is the concatenation, without prefixes or delimiters, of the
//! operation byte, the two token identities and the little-endian amount and
//! nonce: 1 + 32 + 32 + 8 + 8 = 81 bytes.

use vstd::bytes::{
    lemma_auto_spec_u64_to_from_le_bytes, spec_u64_from_le_bytes, spec_u64_to_le_bytes,
    spec_u64_to_le_bytes_to_open, u64_to_le_bytes,
};
use vstd::prelude::*;

use crate::identity::Pubkey;

verus! {

/// Number of bytes in an encoded trade request.
pub const ENCODED_REQUEST_BYTES: usize = 81;

/// The direction of a trade.
#[derive(Clone, Copy, Debug, PartialEq, Eq, Structural)]
pub enum TradingOperation {
    Buy,
    Sell,
}

impl TradingOperation {
    /// The byte that stands for the operation: 0 for `Buy`, 1 for `Sell`.
    pub open spec fn byte(self) -> u8 {
        match self {
            TradingOperation::Buy => 0u8,
            TradingOperation::Sell => 1u8,
        }
    }

    /// The one-byte encoding of the operation.
    pub fn to_bytes(&self) -> (bytes: [u8; 1])
        ensures
            bytes@ == seq![self.byte()],
    {
        let bytes: [u8; 1] = match self {
            TradingOperation::Buy => [0u8],
            TradingOperation::Sell => [1u8],
        };
        assert(bytes@ =~= seq![self.byte()]);
        bytes
    }
}

/// A request to trade on behalf of an agent, with the signature that its
/// TEE is claimed to have made over the request.
#[derive(Clone, Copy, Debug)]
pub struct RequestTradingArgs {
    /// The admin whose agent record governs the request.
    pub agent_admin: Pubkey,
    pub trade_operation: TradingOperation,
    pub from_token: Pubkey,
    pub to_token: Pubkey,
    pub amount: u64,
    /// A value chosen by the caller to tell otherwise equal requests apart.
    pub nonce: u64,
    pub signature: [u8; 64],
}

/// The bytes that are hashed and signed for a trade with the given fields.
pub open spec fn encode_fields(
    operation: TradingOperation,
    from_token: Seq<u8>,
    to_token: Seq<u8>,
    amount: u64,
    nonce: u64,
) -> Seq<u8> {
    seq![operation.byte()] + from_token + to_token + spec_u64_to_le_bytes(amount)
        + spec_u64_to_le_bytes(nonce)
}

impl RequestTradingArgs {
    /// The bytes that are hashed and signed for this request. Neither the
    /// governing admin nor the signature is part of them.
    pub open spec fn encoding(&self) -> Seq<u8> {
        encode_fields(
            self.trade_operation,
            self.from_token@,
            self.to_token@,
            self.amount,
            self.nonce,
        )
    }

    /// Whether two requests agree on every field that is encoded.
    pub open spec fn same_trade(&self, other: &RequestTradingArgs) -> bool {
        &&& self.trade_operation == other.trade_operation
        &&& self.from_token@ == other.from_token@
        &&& self.to_token@ == other.to_token@
        &&& self.amount == other.amount
        &&& self.nonce == other.nonce
    }

    /// Encodes the request for hashing.
    pub fn encode(&self) -> (data: Vec<u8>)
        ensures
            data@ == self.encoding(),
            data@.len() == ENCODED_REQUEST_BYTES,
    {
        let operation = self.trade_operation.to_bytes();
        let from_token = self.from_token.to_bytes();
        let to_token = self.to_token.to_bytes();
        let amount = u64_to_le_bytes(self.amount);
        let nonce = u64_to_le_bytes(self.nonce);
        let mut data: Vec<u8> = Vec::new();
        data.extend_from_slice(operation.as_slice());
        data.extend_from_slice(from_token.as_slice());
        data.extend_from_slice(to_token.as_slice());
        data.extend_from_slice(amount.as_slice());
        data.extend_from_slice(nonce.as_slice());
        assert(data@ =~= self.encoding());
        data
    }
}

/// The little-endian bytes of `x` are its eight digits in base 256, the
/// least significant first.
pub proof fn lemma_little_endian_digits(x: u64)
    ensures
        spec_u64_to_le_bytes(x).len() == 8,
        spec_u64_to_le_bytes(x)[0] == x % 0x100,
        spec_u64_to_le_bytes(x)[1] == (x / 0x100) % 0x100,
        spec_u64_to_le_bytes(x)[2] == (x / 0x1_0000) % 0x100,
        spec_u64_to_le_bytes(x)[3] == (x / 0x100_0000) % 0x100,
        spec_u64_to_le_bytes(x)[4] == (x / 0x1_0000_0000) % 0x100,
        spec_u64_to_le_bytes(x)[5] == (x / 0x100_0000_0000) % 0x100,
        spec_u64_to_le_bytes(x)[6] == (x / 0x1_0000_0000_0000) % 0x100,
        spec_u64_to_le_bytes(x)[7] == (x / 0x100_0000_0000_0000) % 0x100,
{
    spec_u64_to_le_bytes_to_open(x);
    assert({
        &&& ((x & 0xff) as u8) == x % 0x100
        &&& (((x >> 8) & 0xff) as u8) == (x / 0x100) % 0x100
        &&& (((x >> 16) & 0xff) as u8) == (x / 0x1_0000) % 0x100
        &&& (((x >> 24) & 0xff) as u8) == (x / 0x100_0000) % 0x100
        &&& (((x >> 32) & 0xff) as u8) == (x / 0x1_0000_0000) % 0x100
        &&& (((x >> 40) & 0xff) as u8) == (x / 0x100_0000_0000) % 0x100
        &&& (((x >> 48) & 0xff) as u8) == (x / 0x1_0000_0000_0000) % 0x100
        &&& (((x >> 56) & 0xff) as u8) == (x / 0x100_0000_0000_0000) % 0x100
    }) by (bit_vector);
}

/// The encoding has a fixed length and shows each field at a fixed place.
pub proof fn lemma_encoding_layout(request: RequestTradingArgs)
    ensures
        request.encoding().len() == ENCODED_REQUEST_BYTES,
        request.encoding()[0] == request.trade_operation.byte(),
        request.encoding().subrange(1, 33) == request.from_token@,
        request.encoding().subrange(33, 65) == request.to_token@,
        request.encoding().subrange(65, 73) == spec_u64_to_le_bytes(request.amount),
        request.encoding().subrange(73, 81) == spec_u64_to_le_bytes(request.nonce),
{
    lemma_auto_spec_u64_to_from_le_bytes();
    let data = request.encoding();
    assert(data.subrange(1, 33) =~= request.from_token@);
    assert(data.subrange(33, 65) =~= request.to_token@);
    assert(data.subrange(65, 73) =~= spec_u64_to_le_bytes(request.amount));
    assert(data.subrange(73, 81) =~= spec_u64_to_le_bytes(request.nonce));
}

/// Encoding is a function of the encoded fields: requests that agree on the
/// operation, the two tokens, the amount and the nonce have the same
/// encoding, whatever their admin and signature.
pub proof fn lemma_encoding_deterministic(a: RequestTradingArgs, b: RequestTradingArgs)
    requires
        a.same_trade(&b),
    ensures
        a.encoding() == b.encoding(),
{
}

/// Encoding is injective: requests with the same encoding agree on the
/// operation, the two tokens, the amount and the nonce.
pub proof fn lemma_encoding_injective(a: RequestTradingArgs, b: RequestTradingArgs)
    requires
        a.encoding() == b.encoding(),
    ensures
        a.same_trade(&b),
{
    lemma_encoding_layout(a);
    lemma_encoding_layout(b);
    lemma_auto_spec_u64_to_from_le_bytes();
    assert(a.trade_operation.byte() == b.trade_operation.byte());
    assert(spec_u64_from_le_bytes(spec_u64_to_le_bytes(a.amount)) == a.amount);
    assert(spec_u64_from_le_bytes(spec_u64_to_le_bytes(b.amount)) == b.amount);
    assert(spec_u64_from_le_bytes(spec_u64_to_le_bytes(a.nonce)) == a.nonce);
    assert(spec_u64_from_le_bytes(spec_u64_to_le_bytes(b.nonce)) == b.nonce);
}

/// Any change to the operation, a token, the amount or the nonce changes
/// the encoding.
pub proof fn lemma_changed_trade_changes_encoding(a: RequestTradingArgs, b: RequestTradingArgs)
    requires
        !a.same_trade(&b),
    ensures
        a.encoding() != b.encoding(),
{
    if a.encoding() == b.encoding() {
        lemma_encoding_injective(a, b);
    }
}

} // verus!
