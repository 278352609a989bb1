//! Call codec behavior: classification, selectors, argument encoding,
//! result decoding, and round trips.

use erc1155_mirror::codec::{
    classify, extract_event_token_id, encode_args, encode_call, extract_u128, extract_string, extract_token_id_from_result,
    extract_balance_from_result, extract_uri_from_result, decode_storage_balance,
    decode_storage_uri, compute_selector, selector_of, CallArg, CallKind,
};
use erc1155_mirror::error::CliError;

#[test]
fn classify_queries() {
    assert_eq!(classify("balance_of"), CallKind::Query);
    assert_eq!(classify("uri"), CallKind::Query);
    assert_eq!(classify("is_approved_for_all"), CallKind::Query);
    assert_eq!(classify("ERC1155::balance_of"), CallKind::Query);
    assert_eq!(classify("ERC1155::balance_of_batch"), CallKind::Query);
}

#[test]
fn classify_transactions() {
    assert_eq!(classify("mint"), CallKind::Transaction);
    assert_eq!(classify("safe_transfer_from"), CallKind::Transaction);
    assert_eq!(classify("ERC1155::create"), CallKind::Transaction);
    assert_eq!(classify("burn"), CallKind::Transaction);
}

#[test]
fn selector_table_known_and_unknown() {
    assert_eq!(
        selector_of("ERC1155::balance_of"),
        Some(vec![0x00, 0x01, 0x02, 0x03])
    );
    assert_eq!(
        selector_of("ERC1155::burn"),
        Some(vec![0x90, 0x91, 0x92, 0x93])
    );
    assert_eq!(selector_of("ERC1155::frobnicate"), None);
    assert_eq!(selector_of(""), None);
}

#[test]
fn u128_round_trip() {
    let enc = encode_args(&vec![CallArg::U128(12345)]).unwrap();
    assert_eq!(enc.len(), 16);
    assert_eq!(extract_u128(&enc), Some(12345));
}

#[test]
fn string_round_trip() {
    let enc = encode_args(&vec![CallArg::Str(String::from("ipfs://x"))]).unwrap();
    assert_eq!(enc.len(), 4 + 8);
    assert_eq!(&enc[0..4], &[8, 0, 0, 0]);
    assert_eq!(extract_string(&enc), Some(String::from("ipfs://x")));
}

#[test]
fn string_round_trip_multibyte() {
    let text = String::from("prix en \u{20ac} \u{1f680}");
    let enc = encode_args(&vec![CallArg::Str(text.clone())]).unwrap();
    assert_eq!(extract_string(&enc), Some(text));
}

#[test]
fn bool_and_bytes_encoding() {
    let enc = encode_args(&vec![
        CallArg::Bool(true),
        CallArg::Bool(false),
        CallArg::Bytes(vec![0xAA, 0xBB]),
    ])
    .unwrap();
    assert_eq!(enc, vec![1, 0, 2, 0, 0, 0, 0xAA, 0xBB]);
}

#[test]
fn encode_unknown_method_fails_invalid_method() {
    let r = encode_call("ERC1155::frobnicate", &vec![CallArg::U128(1)]);
    assert_eq!(r, Err(CliError::InvalidMethod));
    let r = encode_call("balance_of", &vec![]);
    assert_eq!(r, Err(CliError::InvalidMethod));
}

#[test]
fn encode_unsupported_arg_fails_conversion_error() {
    let r = encode_call("ERC1155::mint", &vec![CallArg::I128(-3)]);
    assert_eq!(r, Err(CliError::ConversionError));
    let r = encode_call("ERC1155::mint", &vec![CallArg::U128(1), CallArg::Char('x')]);
    assert_eq!(r, Err(CliError::ConversionError));
}

#[test]
fn encode_call_prefixes_selector() {
    let payload = encode_call("ERC1155::create", &vec![
        CallArg::Str(String::from("ipfs://x")),
        CallArg::U128(100),
    ])
    .unwrap();
    assert_eq!(&payload[0..4], &[0x60, 0x61, 0x62, 0x63]);
    assert_eq!(&payload[4..8], &[8, 0, 0, 0]);
    assert_eq!(&payload[8..16], b"ipfs://x");
    assert_eq!(extract_u128(&payload[16..]), Some(100));
}

#[test]
fn extract_u128_short_input() {
    assert_eq!(extract_u128(&[1, 2, 3]), None);
    assert_eq!(extract_u128(&[]), None);
    assert_eq!(extract_token_id_from_result(&[0; 15]), None);
    assert_eq!(extract_balance_from_result(&[0; 15]), None);
}

#[test]
fn extract_u128_reads_little_endian_head() {
    let mut bytes = vec![0u8; 20];
    bytes[0] = 0x39;
    bytes[1] = 0x30;
    assert_eq!(extract_u128(&bytes), Some(12345));
    assert_eq!(extract_token_id_from_result(&bytes), Some(12345));
    assert_eq!(extract_balance_from_result(&bytes), Some(12345));
}

#[test]
fn extract_string_rejects_bad_shapes() {
    assert_eq!(extract_string(&[1, 2]), None);
    // Length prefix promises more bytes than are present.
    assert_eq!(extract_string(&[10, 0, 0, 0, b'a']), None);
    // Body is not UTF-8.
    assert_eq!(extract_string(&[2, 0, 0, 0, 0xFF, 0xFE]), None);
    assert_eq!(extract_uri_from_result(&[10, 0, 0, 0]), None);
}

#[test]
fn extract_string_tolerates_trailing_bytes() {
    let bytes = [2, 0, 0, 0, b'h', b'i', 9, 9, 9];
    assert_eq!(extract_string(&bytes), Some(String::from("hi")));
    assert_eq!(extract_uri_from_result(&bytes), Some(String::from("hi")));
}

#[test]
fn storage_balance_decoding() {
    let mut bytes = vec![0u8; 16];
    bytes[0] = 200;
    assert_eq!(decode_storage_balance(&bytes), 200);
    assert_eq!(decode_storage_balance(&[1, 2, 3]), 0);
    assert_eq!(decode_storage_balance(&[]), 0);
}

#[test]
fn storage_uri_decoding_prefers_length_prefix() {
    let prefixed = [3, 0, 0, 0, b'a', b'b', b'c'];
    assert_eq!(decode_storage_uri(&prefixed), Some(String::from("abc")));
    // No valid prefix: falls back to reading the whole value as UTF-8.
    assert_eq!(
        decode_storage_uri(b"plain text"),
        Some(String::from("plain text"))
    );
    // Neither shape decodes.
    assert_eq!(decode_storage_uri(&[255, 254, 253, 252, 251]), None);
}

#[test]
fn compute_selector_is_keccak_head() {
    let sel = compute_selector("createToken(string,uint128)");
    let digest = sp_crypto_hashing::keccak_256(b"createToken(string,uint128)");
    assert_eq!(sel.as_slice(), &digest[0..4]);
    assert_eq!(sel.len(), 4);
}

#[test]
fn event_token_id_extraction() {
    let selector = compute_selector("TokenCreated(uint128,address,string)");
    let mut data = selector.clone();
    let mut id = vec![0u8; 16];
    id[0] = 42;
    data.extend_from_slice(&id);
    data.extend_from_slice(b"trailing event payload");
    assert_eq!(extract_event_token_id(&data, &selector), Some(42));
    // A different selector does not match.
    let other = compute_selector("Transfer(address,address,uint128)");
    assert_eq!(extract_event_token_id(&data, &other), None);
    // Too short to carry an identifier.
    assert_eq!(extract_event_token_id(&selector, &selector), None);
}
