//! Storage-key derivation: determinism, exact composition against the
//! digest crate, and the documented 32-byte truncation.

use erc1155_mirror::account::{AccountId, parse_account};
use erc1155_mirror::error::CliError;
use erc1155_mirror::storage_key::{
    derive_key, compute_balance_storage_key, compute_uri_storage_key, compute_nonce_storage_key,
    compute_contract_code_hash_key,
};
use erc1155_mirror::text::hex_encode_bytes;

fn account(byte: u8) -> AccountId {
    AccountId::from_bytes(vec![byte; 32]).unwrap()
}

#[test]
fn derive_key_is_deterministic() {
    let contract = account(7);
    let contract_again = account(7);
    let map_key = vec![1u8, 2, 3];
    let a = derive_key(&contract, b"balances", Some(&map_key));
    let b = derive_key(&contract_again, b"balances", Some(&map_key));
    assert_eq!(a.as_bytes(), b.as_bytes());

    let c = compute_balance_storage_key(&contract, &account(9), 42);
    let d = compute_balance_storage_key(&contract_again, &account(9), 42);
    assert_eq!(c.as_bytes(), d.as_bytes());
}

#[test]
fn derive_key_matches_digest_composition() {
    let contract = account(7);
    let key = compute_nonce_storage_key(&contract);
    // The namespace alone is 16 + 32 bytes, so the 32-byte cut keeps the
    // whole digest and the first half of the address.
    let digest = sp_crypto_hashing::blake2_128(&[7u8; 32]);
    let mut expected = digest.to_vec();
    expected.extend_from_slice(&[7u8; 16]);
    assert_eq!(key.as_bytes(), expected.as_slice());
    assert_eq!(key.as_bytes().len(), 32);
}

#[test]
fn truncation_discards_field_and_map_contributions() {
    // The contract namespace already fills the 32 bytes, so keys of
    // different fields and map keys of one contract coincide. The cut is
    // kept for byte-compatibility with the deployed addressing scheme.
    let contract = account(3);
    let nonce_key = compute_nonce_storage_key(&contract);
    let uri_key = compute_uri_storage_key(&contract, 1);
    let bal_key = compute_balance_storage_key(&contract, &account(8), 1);
    assert_eq!(nonce_key.as_bytes(), uri_key.as_bytes());
    assert_eq!(nonce_key.as_bytes(), bal_key.as_bytes());

    // Different contracts still get different keys.
    let other = compute_nonce_storage_key(&account(4));
    assert_ne!(nonce_key.as_bytes(), other.as_bytes());
}

#[test]
fn contract_metadata_key_uses_pallet_identifiers() {
    let contract = account(5);
    let key = compute_contract_code_hash_key(&contract);
    let mut expected = sp_crypto_hashing::twox_128(b"Contracts").to_vec();
    expected.extend_from_slice(&sp_crypto_hashing::twox_128(b"ContractInfoOf"));
    assert_eq!(key.as_bytes(), expected.as_slice());
}

#[test]
fn short_key_is_zero_padded() {
    // A plain (non-map) key of a short contract namespace cannot arise with
    // 32-byte addresses, but padding is observable through the metadata key
    // shape: 16 + 16 + 48 bytes cut to 32. Check the length contract holds.
    let contract = account(0);
    let key = derive_key(&contract, b"token_id_nonce", None);
    assert_eq!(key.as_bytes().len(), 32);
}

#[test]
fn parse_account_accepts_hex_with_prefix() {
    let hex: String = format!("0x{}", hex::encode([0xABu8; 32]));
    let parsed = parse_account(&hex).unwrap();
    assert_eq!(parsed.as_bytes(), &[0xABu8; 32]);

    let bare: String = hex::encode([0x01u8; 32]);
    let parsed = parse_account(&bare).unwrap();
    assert_eq!(parsed.as_bytes(), &[0x01u8; 32]);
}

#[test]
fn parse_account_accepts_mixed_case() {
    let parsed = parse_account("0xAbCd000000000000000000000000000000000000000000000000000000000000")
        .unwrap();
    assert_eq!(&parsed.as_bytes()[0..2], &[0xAB, 0xCD]);
}

#[test]
fn parse_account_rejects_bad_input() {
    assert_eq!(parse_account("0x1234").unwrap_err(), CliError::InvalidAddress);
    assert_eq!(parse_account("").unwrap_err(), CliError::InvalidAddress);
    // Odd number of digits.
    assert_eq!(parse_account("0xabc").unwrap_err(), CliError::InvalidAddress);
    // A non-hex character.
    let mut bad = String::from("0x");
    bad.push_str(&"zz".repeat(32));
    assert_eq!(parse_account(&bad).unwrap_err(), CliError::InvalidAddress);
}

#[test]
fn hex_encoding_matches_reference() {
    let encoded = hex_encode_bytes(&[0xAB, 0x01, 0xFF]);
    assert_eq!(encoded, b"ab01ff".to_vec());
    assert_eq!(String::from_utf8(encoded).unwrap(), hex::encode([0xAB, 0x01, 0xFF]));
}
