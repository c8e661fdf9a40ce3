use trading_agent_contract::Pubkey;

#[test]
fn sentinel_is_thirty_two_zero_bytes() {
    let key = Pubkey::sentinel();
    assert_eq!(key.to_bytes(), [0u8; 32]);
    assert!(key.is_sentinel());
}

#[test]
fn a_key_with_one_nonzero_byte_is_not_the_sentinel() {
    let mut bytes = [0u8; 32];
    bytes[31] = 1;
    assert!(!Pubkey::new_from_array(bytes).is_sentinel());
    let mut bytes = [0u8; 32];
    bytes[0] = 0x80;
    assert!(!Pubkey::new_from_array(bytes).is_sentinel());
}

#[test]
fn to_bytes_gives_back_the_bytes_wrapped() {
    let mut bytes = [0u8; 32];
    for (i, b) in bytes.iter_mut().enumerate() {
        *b = (i * 7) as u8;
    }
    let key = Pubkey::new_from_array(bytes);
    assert_eq!(key.to_bytes(), bytes);
    assert_eq!(key.bytes, bytes);
}

#[test]
fn identities_are_equal_when_all_bytes_are() {
    let a = Pubkey::new_from_array([5u8; 32]);
    let b = Pubkey::new_from_array([5u8; 32]);
    assert!(a == b);
    assert_eq!(a, b);
}

#[test]
fn identities_differ_when_any_byte_does() {
    let a = Pubkey::new_from_array([5u8; 32]);
    for i in 0..32 {
        let mut bytes = [5u8; 32];
        bytes[i] = 6;
        assert!(a != Pubkey::new_from_array(bytes));
    }
}
