use philanthrify::address::Address;

#[test]
fn an_address_keeps_its_bytes() {
    let mut bytes = [0u8; 32];
    for (i, byte) in bytes.iter_mut().enumerate() {
        *byte = i as u8;
    }
    assert_eq!(Address::new(bytes).to_bytes(), bytes);
}

#[test]
fn only_all_zeros_is_nobody() {
    assert!(Address::new([0u8; 32]).is_zero());
    assert!(!Address::new([1u8; 32]).is_zero());
    let mut bytes = [0u8; 32];
    bytes[17] = 1;
    assert!(!Address::new(bytes).is_zero());
}

#[test]
fn addresses_are_the_same_when_all_bytes_are() {
    let a = Address::new([7u8; 32]);
    let mut bytes = [7u8; 32];
    assert!(a.same(&Address::new(bytes)));
    bytes[31] = 8;
    assert!(!a.same(&Address::new(bytes)));
    bytes[31] = 7;
    bytes[0] = 6;
    assert!(!a.same(&Address::new(bytes)));
}
