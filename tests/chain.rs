use nft_indexer::chain::{
    contract_info_query, decode_query_response, encode_query_request, nft_info_query, num_tokens_query,
    owner_of_query, pallet_listing_query, subscribe_message, ChainError, ContractInfo, NftInfo, NftOwner,
    PalletListing, Supply,
};
use nft_indexer::chain::decode_tx_hash;
use nft_indexer::json::{JsonMember, JsonValue};

fn text(s: &str) -> JsonValue {
    JsonValue::Str(s.to_string())
}

fn number(s: &str) -> JsonValue {
    JsonValue::Number(s.to_string())
}

fn object(members: Vec<(&str, JsonValue)>) -> JsonValue {
    JsonValue::Object(
        members
            .into_iter()
            .map(|(k, v)| JsonMember { key: k.to_string(), value: v })
            .collect(),
    )
}

#[test]
fn request_envelope_frames_address_and_query() {
    let bytes = encode_query_request("sei1abc", b"{}");
    let mut expected = vec![0x0a, 7];
    expected.extend_from_slice(b"sei1abc");
    expected.extend_from_slice(&[0x12, 2, b'{', b'}']);
    assert_eq!(bytes, expected);
}

#[test]
fn request_envelope_uses_multi_byte_lengths_and_omits_empty_fields() {
    let query = vec![b'x'; 300];
    let bytes = encode_query_request("", &query);
    assert_eq!(&bytes[..3], &[0x12, 0xac, 0x02]);
    assert_eq!(bytes.len(), 303);
    assert!(encode_query_request("", b"").is_empty());
}

#[test]
fn response_envelope_yields_data_field() {
    let log = "".to_string();
    assert_eq!(decode_query_response(0, &log, &[0x0a, 3, b'a', b'b', b'c']), Ok(b"abc".to_vec()));
    assert_eq!(decode_query_response(0, &log, &[]), Ok(vec![]));
    assert_eq!(
        decode_query_response(0, &log, &[0x10, 0x96, 0x01, 0x0a, 1, b'x', 0x1d, 1, 2, 3, 4]),
        Ok(b"x".to_vec())
    );
    assert_eq!(decode_query_response(0, &log, &[0x0a, 1, b'a', 0x0a, 1, b'b']), Ok(b"b".to_vec()));
}

#[test]
fn malformed_response_envelope_is_a_decode_error() {
    let log = "".to_string();
    assert_eq!(decode_query_response(0, &log, &[0x0a, 5, b'a']), Err(ChainError::ProtobufDecode));
    assert_eq!(decode_query_response(0, &log, &[0x08, 1]), Err(ChainError::ProtobufDecode));
    assert_eq!(decode_query_response(0, &log, &[0x80]), Err(ChainError::ProtobufDecode));
    assert_eq!(decode_query_response(0, &log, &[0x02, 0]), Err(ChainError::ProtobufDecode));
}

#[test]
fn non_zero_status_is_an_rpc_error() {
    let log = "out of gas".to_string();
    assert_eq!(
        decode_query_response(5, &log, &[0x0a, 1, b'a']),
        Err(ChainError::Rpc("out of gas".to_string()))
    );
}

#[test]
fn query_texts_are_compact_json() {
    assert_eq!(contract_info_query(), "{\"contract_info\":{}}");
    assert_eq!(num_tokens_query(), "{\"num_tokens\":{}}");
    assert_eq!(nft_info_query("42"), "{\"nft_info\":{\"token_id\":\"42\"}}");
    assert_eq!(owner_of_query("a\"b"), "{\"owner_of\":{\"token_id\":\"a\\\"b\"}}");
    assert_eq!(owner_of_query("x\n\u{1}\\\u{e9}"), "{\"owner_of\":{\"token_id\":\"x\\n\\u0001\\\\\u{e9}\"}}");
    assert_eq!(
        pallet_listing_query("sei1c", "7"),
        "{\"nft\":{\"address\":\"sei1c\",\"token_id\":\"7\"}}"
    );
}

#[test]
fn subscribe_request_carries_the_filter() {
    assert_eq!(
        subscribe_message("tm.event = 'Tx'"),
        "{\"id\":\"0\",\"jsonrpc\":\"2.0\",\"method\":\"subscribe\",\"params\":{\"query\":\"tm.event = 'Tx'\"}}"
    );
}

#[test]
fn contract_answers_are_read_from_json() {
    let info = ContractInfo::from_json(&object(vec![("name", text("Apes")), ("symbol", text("APE"))])).unwrap();
    assert_eq!((info.name.as_str(), info.symbol.as_str()), ("Apes", "APE"));
    assert!(ContractInfo::from_json(&object(vec![("name", text("Apes"))])).is_err());
    assert_eq!(Supply::from_json(&object(vec![("count", number("4294967295"))])).unwrap().count, u32::MAX);
    assert!(Supply::from_json(&object(vec![("count", number("4294967296"))])).is_err());
    assert!(Supply::from_json(&object(vec![("count", number("1.5"))])).is_err());
    assert_eq!(NftOwner::from_json(&object(vec![("owner", text("me"))])).unwrap().owner, "me");
}

#[test]
fn nft_info_reads_optional_extension() {
    let plain = NftInfo::from_json(&object(vec![("token_uri", text("u"))])).unwrap();
    assert_eq!(plain.token_uri, "u");
    assert!(plain.extension.is_none());
    let with = NftInfo::from_json(&object(vec![
        ("token_uri", text("u")),
        ("extension", object(vec![("royalty_percentage", number("2.5"))])),
    ]))
    .unwrap();
    assert_eq!(with.extension.unwrap().royalty_percentage, Some("2.5".to_string()));
    assert!(NftInfo::from_json(&object(vec![("token_uri", text("u")), ("extension", text("x"))])).is_err());
}

#[test]
fn pallet_listing_reads_auction_terms() {
    let price = object(vec![("amount", text("100")), ("denom", text("usei"))]);
    let auction = object(vec![
        ("created_at", number("10")),
        ("expiration_time", number("20")),
        ("prices", JsonValue::Array(vec![price])),
    ]);
    let listing =
        PalletListing::from_json(&object(vec![("owner", text("o")), ("auction", auction)])).unwrap();
    let a = listing.auction.unwrap();
    assert_eq!((a.created_at, a.expiration_time), (10, 20));
    assert_eq!(a.prices[0].amount, "100");
    let none = PalletListing::from_json(&object(vec![("owner", text("o")), ("auction", JsonValue::Null)])).unwrap();
    assert!(none.auction.is_none());
    let two = object(vec![
        ("created_at", number("10")),
        ("expiration_time", number("20")),
        ("prices", JsonValue::Array(vec![])),
    ]);
    assert!(PalletListing::from_json(&object(vec![("owner", text("o")), ("auction", two)])).is_err());
}

#[test]
fn transaction_hashes_decode_from_upper_case_hex() {
    assert_eq!(decode_tx_hash(&"0F".repeat(32)), Ok(vec![0x0f; 32]));
    assert!(matches!(decode_tx_hash("XYZ"), Err(ChainError::Hash(_))));
}
