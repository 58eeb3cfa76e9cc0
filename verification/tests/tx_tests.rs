use charity_pbm::eth::{Address, Uint256};
use charity_pbm::keys::{gen_key, SigningKey};
use charity_pbm::tx::{estimate_gas_params, sender_text, wrap_transaction, WrapError};

const EXAMPLE_KEY: &str = "0x4c0883a69102937d6231471b5dbb6204fe5129617082792ae468d01a3f362318";

fn key_46() -> SigningKey {
    SigningKey::parse(&format!("0x{}", "46".repeat(32))).unwrap()
}

#[test]
fn secret_key_text_and_its_address() {
    let key = SigningKey::parse(EXAMPLE_KEY).unwrap();
    assert_eq!(key.secret().len(), 32);
    assert_eq!(key.secret()[0], 0x4c);
    assert_eq!(key.secret()[31], 0x18);
    assert_eq!(sender_text(&key), "0x2c7536e3605d9c16a7a3d7b1898e529396a65c23");
    assert_eq!(key.address().bytes[0], 0x2c);
    let same = SigningKey::parse("4c0883a69102937d6231471b5dbb6204fe5129617082792ae468d01a3f362318").unwrap();
    assert_eq!(key.secret(), same.secret());
    let upper = SigningKey::parse("0X4C0883A69102937D6231471B5DBB6204FE5129617082792AE468D01A3F362318").unwrap();
    assert_eq!(key.secret(), upper.secret());
}

#[test]
fn bad_secret_keys_are_refused() {
    assert!(SigningKey::parse("0x").is_none());
    assert!(SigningKey::parse(&format!("0x{}", "0".repeat(64))).is_none());
    assert!(SigningKey::parse(&format!("0x{}", "f".repeat(64))).is_none());
    assert!(SigningKey::parse("0x4c0883a69102937d6231471b5dbb6204fe5129617082792ae468d01a3f3623").is_none());
    assert!(SigningKey::parse("0x4c0883a69102937d6231471b5dbb6204fe5129617082792ae468d01a3f36231g").is_none());
}

#[test]
fn eip155_example_transaction() {
    let key = key_46();
    assert_eq!(sender_text(&key), "0x9d8a62f656a8d1615c1294fd71e9cfb3e4855a4f");
    let to = Address { bytes: [0x35; 20] };
    let raw = wrap_transaction(
        &key,
        1,
        to,
        vec![],
        Uint256::from_u64(1_000_000_000_000_000_000),
        "0x9",
        "0x4a817c800",
        "0x445c",
    )
    .unwrap();
    assert_eq!(
        raw,
        "0xf86c098504a817c800825208943535353535353535353535353535353535353535880de0b6b3a76400008025a028ef61340bd939bc2195fe537567866003e1a15d3c71ff63e1590620aa636276a067cbe9d8997f761aecb703304b3800ccf555c9f3dc64214b297fb1966a3b6d83"
    );
}

#[test]
fn node_answers_that_are_not_quantities() {
    let key = key_46();
    let to = Address { bytes: [0x35; 20] };
    let wrap = |n: &str, p: &str, e: &str| wrap_transaction(&key, 1, to, vec![], Uint256::from_u64(0), n, p, e);
    assert!(matches!(wrap("null", "0x1", "0x1"), Err(WrapError::BadNonce)));
    assert!(matches!(wrap("0x1g", "0x1", "0x1"), Err(WrapError::BadNonce)));
    assert!(matches!(wrap(&format!("0x{}", "1".repeat(65)), "0x1", "0x1"), Err(WrapError::BadNonce)));
    assert!(matches!(wrap("0x1", "oops", "0x1"), Err(WrapError::BadGasPrice)));
    assert!(wrap("0x1", "0x1", "").is_ok());
    assert!(matches!(wrap("0x1", "0x1", "0xg"), Err(WrapError::BadGasEstimate)));
    let huge = format!("0x{}", "f".repeat(64));
    assert!(matches!(wrap("0x1", "0x1", &huge), Err(WrapError::GasOverflow)));
}

#[test]
fn node_quantities_are_read_as_hex_numbers() {
    let key = key_46();
    let to = Address { bytes: [0x35; 20] };
    let wrap = |n: &str| wrap_transaction(&key, 1, to, vec![], Uint256::from_u64(0), n, "0x1", "0x5208").unwrap();
    let nine = wrap("0x9");
    assert_eq!(wrap("9"), nine);
    assert_eq!(wrap("0x09"), nine);
    assert_ne!(wrap("0x10"), nine);
    assert_eq!(wrap(""), wrap("0x0"));
    assert_eq!(wrap("0x"), wrap("0"));
    assert_eq!(wrap("FFF"), wrap("0xfff"));
    // A nonce of 2^64 needs a second limb.
    let big = format!("0x1{}", "0".repeat(16));
    assert_ne!(wrap(&big), wrap("0x0"));
}

#[test]
fn gas_limit_gets_a_fifth_more() {
    let key = key_46();
    let to = Address { bytes: [0x35; 20] };
    // An estimate of 0x445c (17500) gives 21000 (0x5208), as in the EIP-155 example.
    let padded = wrap_transaction(&key, 1, to, vec![], Uint256::from_u64(0), "0x9", "0x4a817c800", "0x445c").unwrap();
    let exact = wrap_transaction(&key, 1, to, vec![], Uint256::from_u64(0), "0x9", "0x4a817c800", "0x5208").unwrap();
    assert!(padded.contains("825208"));
    assert!(exact.contains("826270"));
}

#[test]
fn estimate_request_texts() {
    let from = Address { bytes: [0xab; 20] };
    let to = Address::parse("0x3b8535d3511d564c5B72Eb16977830543aC1b89c").unwrap();
    let p = estimate_gas_params(&from, &to, &Uint256::from_u64(0), &[1, 2]);
    assert_eq!(p.0, format!("0x{}", "ab".repeat(20)));
    assert_eq!(p.1, "0x3b8535d3511d564c5b72eb16977830543ac1b89c");
    assert_eq!(p.2, "0x0");
    assert_eq!(p.3, "0x0102");
    let p = estimate_gas_params(&from, &to, &Uint256::from_u64(100_000_000_000_000_000), &[]);
    assert_eq!(p.2, "0x16345785d8a0000");
    assert_eq!(p.3, "0x");
    let p = estimate_gas_params(&from, &to, &Uint256::from_u64(255), &[]);
    assert_eq!(p.2, "0xff");
    let p = estimate_gas_params(&from, &to, &Uint256 { limbs: [0, 1, 0, 0] }, &[]);
    assert_eq!(p.2, "0x10000000000000000");
}

#[test]
fn generated_key_controls_generated_address() {
    let (address, key) = gen_key().unwrap();
    assert_eq!(address.len(), 42);
    assert_eq!(key.len(), 66);
    assert!(address.starts_with("0x") && key.starts_with("0x"));
    let parsed = SigningKey::parse(&key).unwrap();
    assert_eq!(sender_text(&parsed), address);
    assert_eq!(Address::parse(&address).unwrap().bytes, parsed.address().bytes);
}
