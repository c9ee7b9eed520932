use base64::Engine;
use vstd::prelude::*;
use vstd::utf8::{decode_utf8, valid_utf8};
use crate::json::{element, field, path, JsonMember, JsonValue};
use crate::model::{Attribute, Event, Transaction};

verus! {

/// The bytes that standard-alphabet, padded base64 decoding gives for `s`,
/// or `None` where `s` is not such an encoding.
pub uninterp spec fn base64_standard_decode(s: Seq<char>) -> Option<Seq<u8>>;

/// Relies on `base64::engine::general_purpose::STANDARD.decode`: the decoded
/// bytes, or an error, determined by the input text alone.
#[verifier::external_body]
fn decode_base64(s: &str) -> (r: Option<Vec<u8>>)
    ensures
        r is Some <==> base64_standard_decode(s@) is Some,
        r is Some ==> r->Some_0@ == base64_standard_decode(s@)->Some_0,
{
    base64::prelude::BASE64_STANDARD.decode(s).ok()
}

/// Relies on `String::from_utf8`: succeeds exactly on valid UTF-8 and then
/// holds the decoded characters.
#[verifier::external_body]
fn utf8_string(bytes: Vec<u8>) -> (r: Option<String>)
    ensures
        r is Some <==> valid_utf8(bytes@),
        r is Some ==> r->Some_0@ == decode_utf8(bytes@),
{
    String::from_utf8(bytes).ok()
}

/// The text that a base64 attribute field carries; empty where the field is
/// not base64 or the bytes are not UTF-8.
pub open spec fn decoded_text(s: Seq<char>) -> Seq<char> {
    match base64_standard_decode(s) {
        Some(b) => if valid_utf8(b) {
            decode_utf8(b)
        } else {
            Seq::empty()
        },
        None => Seq::empty(),
    }
}

/// Decodes a base64 field to text, degrading to the empty string.
pub fn to_utf8(base64: &str) -> (r: String)
    ensures
        r@ == decoded_text(base64@),
{
    match decode_base64(base64) {
        Some(bytes) => match utf8_string(bytes) {
            Some(s) => s,
            None => String::new(),
        },
        None => String::new(),
    }
}

/// Why an envelope could not be read as a transaction.
#[derive(Debug, PartialEq, Eq)]
pub enum ProtocolParseError {
    /// `result.events["tx.hash"][0]` is absent.
    MissingTxHash,
    /// `result.events["tx.hash"][0]` is not a string.
    TxHashNotText,
    /// `result.data.value.TxResult.result.events` is absent.
    MissingEvents,
    /// The event list is not an array of well-formed events.
    MalformedEvents,
}

/// Where the transaction hash sits in an envelope.
pub open spec fn envelope_tx_hash(v: JsonValue) -> Option<JsonValue> {
    match path(v, seq!["result"@, "events"@, "tx.hash"@]) {
        Some(h) => element(h, 0),
        None => None,
    }
}

/// Where the event list sits in an envelope.
pub open spec fn envelope_events(v: JsonValue) -> Option<JsonValue> {
    path(v, seq!["result"@, "data"@, "value"@, "TxResult"@, "result"@, "events"@])
}

/// A string member, as text.
pub open spec fn text_field(v: JsonValue, key: Seq<char>) -> Option<Seq<char>> {
    match field(v, key) {
        Some(JsonValue::Str(s)) => Some(s@),
        _ => None,
    }
}

/// An attribute object: `key` and `value` are strings.
pub open spec fn raw_attribute_ok(v: JsonValue) -> bool {
    text_field(v, "key"@) is Some && text_field(v, "value"@) is Some
}

/// An event object: `type` is a string and `attributes` an array of attribute objects.
pub open spec fn raw_event_ok(v: JsonValue) -> bool {
    &&& text_field(v, "type"@) is Some
    &&& field(v, "attributes"@) matches Some(JsonValue::Array(a))
    &&& forall|j: int| 0 <= j < a@.len() ==> raw_attribute_ok(#[trigger] a@[j])
}

/// An array of event objects.
pub open spec fn raw_events_ok(v: JsonValue) -> bool {
    &&& v matches JsonValue::Array(a)
    &&& forall|i: int| 0 <= i < a@.len() ==> raw_event_ok(#[trigger] a@[i])
}

/// `a` is the attribute object `raw` with key and value decoded.
pub open spec fn decodes_attribute(a: Attribute, raw: JsonValue) -> bool {
    &&& a.key@ == decoded_text(text_field(raw, "key"@)->Some_0)
    &&& a.value@ == decoded_text(text_field(raw, "value"@)->Some_0)
}

/// `e` is the event object `raw` with every attribute decoded.
pub open spec fn decodes_event(e: Event, raw: JsonValue) -> bool {
    &&& e.kind@ == text_field(raw, "type"@)->Some_0
    &&& match field(raw, "attributes"@) {
        Some(JsonValue::Array(a)) => {
            &&& e.attributes@.len() == a@.len()
            &&& forall|j: int|
                0 <= j < a@.len() ==> decodes_attribute(#[trigger] e.attributes@[j], a@[j])
        },
        _ => false,
    }
}

/// `evs` is the event array `raw` decoded element by element.
pub open spec fn decodes_events(evs: Seq<Event>, raw: JsonValue) -> bool {
    match raw {
        JsonValue::Array(a) => {
            &&& evs.len() == a@.len()
            &&& forall|i: int| 0 <= i < a@.len() ==> decodes_event(#[trigger] evs[i], a@[i])
        },
        _ => false,
    }
}

proof fn lemma_bad_attribute(v: JsonValue, a: Vec<JsonValue>, i: int)
    requires
        field(v, "attributes"@) == Some(JsonValue::Array(a)),
        0 <= i < a@.len(),
        !raw_attribute_ok(a@[i]),
    ensures
        !raw_event_ok(v),
{
    if raw_event_ok(v) {
        let b = field(v, "attributes"@)->Some_0->Array_0;
        assert(b == a);
        assert(raw_attribute_ok(b@[i]));
    }
}

proof fn lemma_bad_event(v: JsonValue, a: Vec<JsonValue>, i: int)
    requires
        v == JsonValue::Array(a),
        0 <= i < a@.len(),
        !raw_event_ok(a@[i]),
    ensures
        !raw_events_ok(v),
{
    if raw_events_ok(v) {
        let b = v->Array_0;
        assert(b == a);
        assert(raw_event_ok(b@[i]));
    }
}

fn text_member(v: &JsonValue, key: &str) -> (r: Option<String>)
    ensures
        match text_field(*v, key@) {
            Some(s) => r is Some && r->Some_0@ == s,
            None => r is None,
        },
{
    match v.get_field(key) {
        Some(w) => match w.as_text() {
            Some(s) => Some(s.clone()),
            None => None,
        },
        None => None,
    }
}

fn decode_attribute(raw: &JsonValue) -> (r: Option<Attribute>)
    ensures
        r is Some <==> raw_attribute_ok(*raw),
        r is Some ==> decodes_attribute(r->Some_0, *raw),
{
    let key = text_member(raw, "key");
    let value = text_member(raw, "value");
    match (key, value) {
        (Some(k), Some(v)) => Some(Attribute { key: to_utf8(k.as_str()), value: to_utf8(v.as_str()) }),
        _ => None,
    }
}

fn decode_event(raw: &JsonValue) -> (r: Option<Event>)
    ensures
        r is Some <==> raw_event_ok(*raw),
        r is Some ==> decodes_event(r->Some_0, *raw),
{
    let kind = match text_member(raw, "type") {
        Some(k) => k,
        None => return None,
    };
    let items = match raw.get_field("attributes") {
        Some(JsonValue::Array(a)) => a,
        _ => return None,
    };
    let mut attributes: Vec<Attribute> = Vec::new();
    let mut i: usize = 0;
    while i < items.len()
        invariant
            0 <= i <= items@.len(),
            field(*raw, "attributes"@) == Some(JsonValue::Array(*items)),
            attributes@.len() == i,
            forall|j: int| 0 <= j < i ==> raw_attribute_ok(#[trigger] items@[j]),
            forall|j: int| 0 <= j < i ==> decodes_attribute(#[trigger] attributes@[j], items@[j]),
        decreases items@.len() - i,
    {
        match decode_attribute(&items[i]) {
            Some(a) => attributes.push(a),
            None => {
                proof {
                    lemma_bad_attribute(*raw, *items, i as int);
                }
                return None;
            },
        }
        i = i + 1;
    }
    Some(Event { kind, attributes })
}

fn decode_events(raw: &JsonValue) -> (r: Option<Vec<Event>>)
    ensures
        r is Some <==> raw_events_ok(*raw),
        r is Some ==> decodes_events(r->Some_0@, *raw),
{
    let items = match raw {
        JsonValue::Array(a) => a,
        _ => return None,
    };
    let mut events: Vec<Event> = Vec::new();
    let mut i: usize = 0;
    while i < items.len()
        invariant
            0 <= i <= items@.len(),
            *raw == JsonValue::Array(*items),
            events@.len() == i,
            forall|j: int| 0 <= j < i ==> raw_event_ok(#[trigger] items@[j]),
            forall|j: int| 0 <= j < i ==> decodes_event(#[trigger] events@[j], items@[j]),
        decreases items@.len() - i,
    {
        match decode_event(&items[i]) {
            Some(e) => events.push(e),
            None => {
                proof {
                    lemma_bad_event(*raw, *items, i as int);
                }
                return None;
            },
        }
        i = i + 1;
    }
    Some(events)
}

impl Transaction {
    /// Reads a subscription envelope: the hash at `result.events["tx.hash"][0]`
    /// and the events at `result.data.value.TxResult.result.events`, with every
    /// attribute key and value base64-decoded.
    pub fn try_from_value(value: &JsonValue) -> (r: Result<Transaction, ProtocolParseError>)
        ensures
            match envelope_tx_hash(*value) {
                None => r == Err::<Transaction, _>(ProtocolParseError::MissingTxHash),
                Some(JsonValue::Str(h)) => match envelope_events(*value) {
                    None => r == Err::<Transaction, _>(ProtocolParseError::MissingEvents),
                    Some(evs) => if raw_events_ok(evs) {
                        r is Ok && r->Ok_0.tx_hash@ == h@ && decodes_events(r->Ok_0.events@, evs)
                    } else {
                        r == Err::<Transaction, _>(ProtocolParseError::MalformedEvents)
                    },
                },
                Some(_) => r == Err::<Transaction, _>(ProtocolParseError::TxHashNotText),
            },
    {
        let hash = match value.get_field("result") {
            Some(a) => match a.get_field("events") {
                Some(b) => match b.get_field("tx.hash") {
                    Some(c) => c.get_index(0),
                    None => None,
                },
                None => None,
            },
            None => None,
        };
        proof {
            reveal_with_fuel(path, 4);
        }
        let hash = match hash {
            Some(h) => match h.as_text() {
                Some(s) => s.clone(),
                None => return Err(ProtocolParseError::TxHashNotText),
            },
            None => return Err(ProtocolParseError::MissingTxHash),
        };
        let raw_events = match value.get_field("result") {
            Some(a) => match a.get_field("data") {
                Some(b) => match b.get_field("value") {
                    Some(c) => match c.get_field("TxResult") {
                        Some(d) => match d.get_field("result") {
                            Some(e) => e.get_field("events"),
                            None => None,
                        },
                        None => None,
                    },
                    None => None,
                },
                None => None,
            },
            None => None,
        };
        proof {
            reveal_with_fuel(path, 7);
        }
        let raw_events = match raw_events {
            Some(v) => v,
            None => return Err(ProtocolParseError::MissingEvents),
        };
        match decode_events(raw_events) {
            Some(events) => Ok(Transaction { tx_hash: hash, events }),
            None => Err(ProtocolParseError::MalformedEvents),
        }
    }
}

/// The fixed acknowledgement the node sends after a subscribe request.
pub fn handshake_message() -> (r: String)
    ensures
        r@ == "{\"jsonrpc\":\"2.0\",\"id\":\"0\",\"result\":{}}"@,
{
    String::from_str("{\"jsonrpc\":\"2.0\",\"id\":\"0\",\"result\":{}}")
}

/// Whether an inbound text message is the subscription acknowledgement,
/// which carries no transaction and is skipped.
pub fn is_handshake(message: &str) -> (r: bool)
    ensures
        r == (message@ == "{\"jsonrpc\":\"2.0\",\"id\":\"0\",\"result\":{}}"@),
{
    crate::model::str_eq(message, "{\"jsonrpc\":\"2.0\",\"id\":\"0\",\"result\":{}}")
}

} // verus!
