use web3sniper::bus::num::Dec;
use web3sniper::primitives::{keccak_digest, Address, B256, U256};

fn u256(v: u128) -> U256 {
    U256::from_u128(v)
}

fn max() -> U256 {
    U256::from_be_bytes([0xff; 32])
}

#[test]
fn widening_and_decimal_rendering() {
    assert_eq!(u256(0).to_decimal_string(), "0");
    assert_eq!(u256(1_000_000_000_000_000_000).to_decimal_string(), "1000000000000000000");
    assert_eq!(
        max().to_decimal_string(),
        "115792089237316195423570985008687907853269984665640564039457584007913129639935"
    );
    assert_eq!(Dec::from(u256(42)).to_string(), "42");
}

#[test]
fn big_endian_bytes() {
    let mut be = [0u8; 32];
    be[30] = 1;
    be[31] = 2;
    assert_eq!(U256::from_be_bytes(be).to_decimal_string(), "258");
    assert_eq!(u256(258).be, be);
}

#[test]
fn arithmetic() {
    assert!(u256(0).is_zero());
    assert!(!u256(5).is_zero());
    assert_eq!(u256(7).saturating_mul(&u256(6)).to_decimal_string(), "42");
    assert_eq!(max().saturating_mul(&u256(2)).be, [0xff; 32]);
    assert_eq!(u256(100).div(&u256(7)).to_decimal_string(), "14");
    assert_eq!(u256(4_294_967_295).to_u32(), Some(u32::MAX));
    assert_eq!(u256(4_294_967_296).to_u32(), None);
}

#[test]
fn keccak_of_empty_input() {
    let h = keccak_digest(&[]);
    assert_eq!(
        h.to_hex_string(),
        "0xc5d2460186f7233c927e7db2dcc703c0e500b653ca82273b7bfad8045d85a470"
    );
}

#[test]
fn checksummed_address() {
    let a = Address::parse("0xd8da6bf26964af9d7eed9e03e53415d37aa96045").unwrap();
    assert_eq!(a.to_checksum_string(), "0xd8dA6BF26964aF9D7eEd9e03E53415D37aA96045");
    assert_eq!(a.bytes[0], 0xd8);
    assert_eq!(a.bytes[19], 0x45);
}

#[test]
fn address_parse_errors() {
    assert!(Address::parse("0x1234").is_err());
    assert!(Address::parse("not an address").is_err());
    assert!(Address::parse("d8da6bf26964af9d7eed9e03e53415d37aa96045").is_ok());
    // upper-case prefix and digits
    let a = Address::parse("0XD8DA6BF26964AF9D7EED9E03E53415D37AA96045").unwrap();
    assert_eq!(a.bytes[0], 0xd8);
    // forty-one digits, thirty-nine digits, a non-hex digit
    assert!(Address::parse("0xd8da6bf26964af9d7eed9e03e53415d37aa960451").is_err());
    assert!(Address::parse("0xd8da6bf26964af9d7eed9e03e53415d37aa9604").is_err());
    assert!(Address::parse("0xg8da6bf26964af9d7eed9e03e53415d37aa96045").is_err());
    assert!(Address::parse("").is_err());
}

#[test]
fn address_from_word_and_equality() {
    let mut w = [0u8; 32];
    for (i, b) in w.iter_mut().enumerate() {
        *b = i as u8;
    }
    let a = Address::from_word(&w);
    assert_eq!(a.bytes[0], 12);
    assert_eq!(a.bytes[19], 31);
    assert!(a.same(&Address::from_word(&w)));
    assert!(!a.same(&Address { bytes: [0; 20] }));
    let h = B256 { bytes: w };
    assert!(h.eq(&B256 { bytes: w }));
    assert!(!h.eq(&B256 { bytes: [0; 32] }));
    assert_eq!(
        h.to_hex_string(),
        "0x000102030405060708090a0b0c0d0e0f101112131415161718191a1b1c1d1e1f"
    );
}
