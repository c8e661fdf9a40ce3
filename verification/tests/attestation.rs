use ed25519_dalek::{Signer, SigningKey};
use trading_agent_contract::{
    attestation_verdict, trade_digest, verify, AgentData, Errors, Pubkey, RequestTradingArgs,
    TradingOperation,
};

const BUY_DIGEST: [u8; 32] = [
    252, 10, 25, 158, 44, 252, 83, 128, 246, 123, 22, 250, 223, 230, 90, 90, 44, 198, 222, 135,
    25, 214, 223, 49, 110, 4, 191, 151, 150, 178, 106, 18,
];

const SELL_DIGEST: [u8; 32] = [
    161, 246, 210, 135, 237, 193, 252, 104, 250, 178, 205, 139, 251, 57, 79, 204, 18, 51, 140,
    30, 195, 77, 73, 138, 197, 142, 27, 34, 33, 41, 158, 101,
];

fn admin() -> Pubkey {
    Pubkey::new_from_array([9u8; 32])
}

fn tee() -> SigningKey {
    SigningKey::from_bytes(&[7u8; 32])
}

fn tee_key(signing_key: &SigningKey) -> Pubkey {
    Pubkey::new_from_array(signing_key.verifying_key().to_bytes())
}

fn record_with(key: Pubkey) -> AgentData {
    AgentData { admin: admin(), tee_key: key }
}

fn unsigned_buy() -> RequestTradingArgs {
    RequestTradingArgs {
        agent_admin: admin(),
        trade_operation: TradingOperation::Buy,
        from_token: Pubkey::new_from_array([0x11u8; 32]),
        to_token: Pubkey::new_from_array([0x22u8; 32]),
        amount: 1000,
        nonce: 7,
        signature: [0u8; 64],
    }
}

fn signed_by(signing_key: &SigningKey, mut request: RequestTradingArgs) -> RequestTradingArgs {
    request.signature = signing_key.sign(&trade_digest(&request)).to_bytes();
    request
}

#[test]
fn digest_of_a_buy_is_the_keccak256_of_its_encoding() {
    assert_eq!(trade_digest(&unsigned_buy()), BUY_DIGEST);
}

#[test]
fn digest_of_a_sell_is_the_keccak256_of_its_encoding() {
    let mut from = [0u8; 32];
    let mut to = [0u8; 32];
    for i in 0..32 {
        from[i] = i as u8;
        to[i] = 32 + i as u8;
    }
    let request = RequestTradingArgs {
        agent_admin: admin(),
        trade_operation: TradingOperation::Sell,
        from_token: Pubkey::new_from_array(from),
        to_token: Pubkey::new_from_array(to),
        amount: 0x0102030405060708,
        nonce: u64::MAX,
        signature: [0u8; 64],
    };
    assert_eq!(trade_digest(&request), SELL_DIGEST);
}

#[test]
fn digest_is_not_the_encoding_handed_back() {
    let request = unsigned_buy();
    let digest = trade_digest(&request);
    assert_eq!(digest.len(), 32);
    assert_ne!(&digest[..], &request.encode()[..32]);
}

#[test]
fn digest_is_deterministic() {
    assert_eq!(trade_digest(&unsigned_buy()), trade_digest(&unsigned_buy()));
}

#[test]
fn digest_ignores_admin_and_signature() {
    let mut other = unsigned_buy();
    other.agent_admin = Pubkey::new_from_array([1u8; 32]);
    other.signature = [0x5au8; 64];
    assert_eq!(trade_digest(&other), BUY_DIGEST);
}

#[test]
fn every_encoded_field_changes_the_digest() {
    let mut changed = unsigned_buy();
    changed.trade_operation = TradingOperation::Sell;
    assert_ne!(trade_digest(&changed), BUY_DIGEST);

    let mut changed = unsigned_buy();
    changed.from_token = Pubkey::new_from_array([0x12u8; 32]);
    assert_ne!(trade_digest(&changed), BUY_DIGEST);

    let mut changed = unsigned_buy();
    changed.to_token = Pubkey::new_from_array([0x23u8; 32]);
    assert_ne!(trade_digest(&changed), BUY_DIGEST);

    let mut changed = unsigned_buy();
    changed.amount = 1001;
    assert_ne!(trade_digest(&changed), BUY_DIGEST);

    let mut changed = unsigned_buy();
    changed.nonce = 8;
    assert_ne!(trade_digest(&changed), BUY_DIGEST);
}

#[test]
fn signature_of_the_registered_key_verifies() {
    let signing_key = tee();
    let request = signed_by(&signing_key, unsigned_buy());
    assert_eq!(verify(&record_with(tee_key(&signing_key)), &request), Ok(()));
}

#[test]
fn verification_can_be_repeated() {
    let signing_key = tee();
    let record = record_with(tee_key(&signing_key));
    let request = signed_by(&signing_key, unsigned_buy());
    assert_eq!(verify(&record, &request), Ok(()));
    assert_eq!(verify(&record, &request), Ok(()));
}

#[test]
fn signatures_of_several_keys_verify_each_under_its_own() {
    for seed in [1u8, 2, 3, 250] {
        let signing_key = SigningKey::from_bytes(&[seed; 32]);
        let request = signed_by(&signing_key, unsigned_buy());
        assert_eq!(verify(&record_with(tee_key(&signing_key)), &request), Ok(()));
    }
}

#[test]
fn tampering_with_any_encoded_field_is_detected() {
    let signing_key = tee();
    let record = record_with(tee_key(&signing_key));
    let signed = signed_by(&signing_key, unsigned_buy());

    let mut tampered = signed;
    tampered.amount += 1;
    assert_eq!(verify(&record, &tampered), Err(Errors::InvalidSignature));

    let mut tampered = signed;
    tampered.nonce = 8;
    assert_eq!(verify(&record, &tampered), Err(Errors::InvalidSignature));

    let mut tampered = signed;
    tampered.trade_operation = TradingOperation::Sell;
    assert_eq!(verify(&record, &tampered), Err(Errors::InvalidSignature));

    let mut tampered = signed;
    tampered.from_token = Pubkey::new_from_array([0x12u8; 32]);
    assert_eq!(verify(&record, &tampered), Err(Errors::InvalidSignature));

    let mut tampered = signed;
    tampered.to_token = Pubkey::new_from_array([0x23u8; 32]);
    assert_eq!(verify(&record, &tampered), Err(Errors::InvalidSignature));
}

#[test]
fn tampering_with_the_signature_is_detected() {
    let signing_key = tee();
    let record = record_with(tee_key(&signing_key));
    let signed = signed_by(&signing_key, unsigned_buy());
    let mut tampered = signed;
    tampered.signature[0] ^= 1;
    assert_eq!(verify(&record, &tampered), Err(Errors::InvalidSignature));
}

#[test]
fn signature_of_another_key_is_refused() {
    let request = signed_by(&SigningKey::from_bytes(&[8u8; 32]), unsigned_buy());
    assert_eq!(
        verify(&record_with(tee_key(&tee())), &request),
        Err(Errors::InvalidSignature)
    );
}

#[test]
fn malformed_signature_is_refused() {
    let mut request = unsigned_buy();
    request.signature = [0xffu8; 64];
    assert_eq!(
        verify(&record_with(tee_key(&tee())), &request),
        Err(Errors::InvalidSignature)
    );
}

#[test]
fn sentinel_key_is_not_a_public_key() {
    let request = signed_by(&tee(), unsigned_buy());
    assert_eq!(
        verify(&record_with(Pubkey::sentinel()), &request),
        Err(Errors::InvalidPublicKey)
    );
}

#[test]
fn bytes_that_decode_to_no_point_are_not_a_public_key() {
    let mut bytes = [0u8; 32];
    bytes[0] = 2;
    let request = signed_by(&tee(), unsigned_buy());
    assert_eq!(
        verify(&record_with(Pubkey::new_from_array(bytes)), &request),
        Err(Errors::InvalidPublicKey)
    );
}

#[test]
fn verdict_for_each_outcome_of_the_checks() {
    let key = Pubkey::new_from_array([3u8; 32]);
    assert_eq!(attestation_verdict(&key, true, true), Ok(()));
    assert_eq!(attestation_verdict(&key, true, false), Err(Errors::InvalidSignature));
    assert_eq!(attestation_verdict(&key, false, true), Err(Errors::InvalidPublicKey));
    assert_eq!(attestation_verdict(&key, false, false), Err(Errors::InvalidPublicKey));
}

#[test]
fn verdict_refuses_the_sentinel_whatever_the_checks_say() {
    let key = Pubkey::sentinel();
    assert_eq!(attestation_verdict(&key, true, true), Err(Errors::InvalidPublicKey));
    assert_eq!(attestation_verdict(&key, true, false), Err(Errors::InvalidPublicKey));
    assert_eq!(attestation_verdict(&key, false, false), Err(Errors::InvalidPublicKey));
}
