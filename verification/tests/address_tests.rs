use subscription::address::{Address, InvalidAddress};

const ALICE_BECH32: &str = "erd1qyu5wthldzr8wx5c9ucg8kjagg0jfs53s8nr3zpz3hypefsdd8ssycr6th";
const ZERO_BECH32: &str = "erd1qqqqqqqqqqqqqqqqqqqqqqqqqqqqqqqqqqqqqqqqqqqqqqqqqqqq6gq4hu";

const ALICE_BYTES: [u8; 32] = [
    0x01, 0x39, 0x47, 0x2e, 0xff, 0x68, 0x86, 0x77, 0x1a, 0x98, 0x2f, 0x30, 0x83, 0xda, 0x5d, 0x42,
    0x1f, 0x24, 0xc2, 0x91, 0x81, 0xe6, 0x38, 0x88, 0x22, 0x8d, 0xc8, 0x1c, 0xa6, 0x0d, 0x69, 0xe1,
];

#[test]
fn address_keeps_its_bytes() {
    assert_eq!(Address::new(ALICE_BYTES).to_bytes(), ALICE_BYTES);
    assert_eq!(Address::new([0; 32]).to_bytes(), [0; 32]);
}

#[test]
fn addresses_compare_by_bytes() {
    assert_eq!(Address::new(ALICE_BYTES), Address::new(ALICE_BYTES));
    assert_ne!(Address::new(ALICE_BYTES), Address::new([0; 32]));
    let mut last_differs = ALICE_BYTES;
    last_differs[31] ^= 1;
    assert_ne!(Address::new(ALICE_BYTES), Address::new(last_differs));
    let mut first_differs = ALICE_BYTES;
    first_differs[0] ^= 0x80;
    assert_ne!(Address::new(ALICE_BYTES), Address::new(first_differs));
}

#[test]
fn bech32_text_is_decoded() {
    assert_eq!(Address::from_bech32(ALICE_BECH32), Ok(Address::new(ALICE_BYTES)));
    assert_eq!(Address::from_bech32(ZERO_BECH32), Ok(Address::new([0; 32])));
}

#[test]
fn address_is_encoded_as_bech32() {
    assert_eq!(Address::new(ALICE_BYTES).to_bech32(), ALICE_BECH32);
    assert_eq!(Address::new([0; 32]).to_bech32(), ZERO_BECH32);
}

#[test]
fn bech32_round_trip() {
    for seed in 0..=255u8 {
        let mut bytes = [seed; 32];
        bytes[3] = seed.wrapping_mul(7);
        bytes[17] = seed.wrapping_add(91);
        let address = Address::new(bytes);
        assert_eq!(Address::from_bech32(&address.to_bech32()), Ok(address));
    }
}

#[test]
fn malformed_bech32_is_refused() {
    assert_eq!(Address::from_bech32(""), Err(InvalidAddress));
    assert_eq!(Address::from_bech32("not_a_valid_bech32!!!"), Err(InvalidAddress));
    assert_eq!(Address::from_bech32("erd1"), Err(InvalidAddress));
    // One character of the checksum changed.
    assert_eq!(
        Address::from_bech32("erd1qyu5wthldzr8wx5c9ucg8kjagg0jfs53s8nr3zpz3hypefsdd8ssycr6tj"),
        Err(InvalidAddress)
    );
}

#[test]
fn bech32_of_another_length_is_refused() {
    // A valid bech32 text with an empty payload.
    assert_eq!(Address::from_bech32("a12uel5l"), Err(InvalidAddress));
}
