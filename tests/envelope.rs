use nft_indexer::envelope::{is_handshake, to_utf8, ProtocolParseError};
use nft_indexer::json::{JsonMember, JsonValue};
use nft_indexer::model::{Attribute, Transaction};

fn text(s: &str) -> JsonValue {
    JsonValue::Str(s.to_string())
}

fn object(members: Vec<(&str, JsonValue)>) -> JsonValue {
    JsonValue::Object(
        members
            .into_iter()
            .map(|(k, v)| JsonMember { key: k.to_string(), value: v })
            .collect(),
    )
}

fn attribute(key: &str, value: &str) -> JsonValue {
    object(vec![("key", text(key)), ("value", text(value))])
}

fn envelope(hash: Option<JsonValue>, events: Option<JsonValue>) -> JsonValue {
    let mut result_members = vec![];
    if let Some(h) = hash {
        result_members.push(("events", object(vec![("tx.hash", JsonValue::Array(vec![h]))])));
    }
    if let Some(e) = events {
        result_members.push((
            "data",
            object(vec![(
                "value",
                object(vec![("TxResult", object(vec![("result", object(vec![("events", e)]))]))]),
            )]),
        ));
    }
    object(vec![("jsonrpc", text("2.0")), ("result", object(result_members))])
}

#[test]
fn attribute_pair_decodes_from_base64() {
    let events = JsonValue::Array(vec![object(vec![
        ("type", text("wasm")),
        ("attributes", JsonValue::Array(vec![attribute("YWN0aW9u", "bWludA==")])),
    ])]);
    let tx = Transaction::try_from_value(&envelope(Some(text("ABC123")), Some(events))).unwrap();
    assert_eq!(tx.tx_hash, "ABC123");
    assert_eq!(tx.events.len(), 1);
    assert_eq!(tx.events[0].kind, "wasm");
    assert_eq!(
        tx.events[0].attributes,
        vec![Attribute { key: "action".to_string(), value: "mint".to_string() }]
    );
}

#[test]
fn missing_tx_hash_is_a_parse_error() {
    let events = JsonValue::Array(vec![]);
    let r = Transaction::try_from_value(&envelope(None, Some(events)));
    assert_eq!(r.err(), Some(ProtocolParseError::MissingTxHash));
}

#[test]
fn non_text_tx_hash_is_a_parse_error() {
    let events = JsonValue::Array(vec![]);
    let r = Transaction::try_from_value(&envelope(Some(JsonValue::Number("7".to_string())), Some(events)));
    assert_eq!(r.err(), Some(ProtocolParseError::TxHashNotText));
}

#[test]
fn missing_events_is_a_parse_error() {
    let r = Transaction::try_from_value(&envelope(Some(text("H")), None));
    assert_eq!(r.err(), Some(ProtocolParseError::MissingEvents));
}

#[test]
fn malformed_events_are_a_parse_error() {
    let not_array = Transaction::try_from_value(&envelope(Some(text("H")), Some(text("x"))));
    assert_eq!(not_array.err(), Some(ProtocolParseError::MalformedEvents));
    let bad_attribute = JsonValue::Array(vec![object(vec![
        ("type", text("wasm")),
        ("attributes", JsonValue::Array(vec![object(vec![("key", text("YQ=="))])])),
    ])]);
    let r = Transaction::try_from_value(&envelope(Some(text("H")), Some(bad_attribute)));
    assert_eq!(r.err(), Some(ProtocolParseError::MalformedEvents));
}

#[test]
fn empty_event_list_gives_no_events() {
    let tx = Transaction::try_from_value(&envelope(Some(text("H")), Some(JsonValue::Array(vec![])))).unwrap();
    assert_eq!(tx.tx_hash, "H");
    assert!(tx.events.is_empty());
}

#[test]
fn undecodable_attribute_degrades_to_empty_text() {
    assert_eq!(to_utf8("not base64!"), "");
    assert_eq!(to_utf8("//4="), "");
    assert_eq!(to_utf8("dHJhbnNmZXJfbmZ0"), "transfer_nft");
    assert_eq!(to_utf8(""), "");
}

#[test]
fn handshake_is_recognised_exactly() {
    assert!(is_handshake("{\"jsonrpc\":\"2.0\",\"id\":\"0\",\"result\":{}}"));
    assert!(!is_handshake("{\"jsonrpc\":\"2.0\",\"id\":\"1\",\"result\":{}}"));
}
