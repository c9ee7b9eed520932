use vstd::string::StringSliceAdditionalSpecFns;
use crate::envelope::text_field;
use crate::json::{field, JsonValue};
use crate::model::HandlerError;
use crate::reconcile::{parse_u32, u32_text_value};
use crate::store::opt_text;
use vstd::prelude::*;

verus! {

/// `contract_info` answer of an NFT contract.
#[derive(Debug, PartialEq, Eq)]
pub struct ContractInfo {
    pub name: String,
    pub symbol: String,
}

/// `num_tokens` answer of an NFT contract.
#[derive(Debug, PartialEq, Eq)]
pub struct Supply {
    pub count: u32,
}

/// Contract-specific extension of an NFT.
#[derive(Debug, PartialEq, Eq)]
pub struct Extension {
    /// Royalty percentage as decimal text.
    pub royalty_percentage: Option<String>,
}

/// `nft_info` answer of an NFT contract.
#[derive(Debug, PartialEq, Eq)]
pub struct NftInfo {
    pub token_uri: String,
    pub extension: Option<Extension>,
}

/// `owner_of` answer of an NFT contract.
#[derive(Debug, PartialEq, Eq)]
pub struct NftOwner {
    pub owner: String,
}

/// A price: amount as decimal text and its denomination.
#[derive(Debug, PartialEq, Eq)]
pub struct Price {
    pub amount: String,
    pub denom: String,
}

/// The auction terms of a marketplace listing.
#[derive(Debug, PartialEq, Eq)]
pub struct PalletAuction {
    pub created_at: u32,
    pub expiration_time: u32,
    pub prices: Vec<Price>,
}

/// The marketplace's answer for one NFT: its owner and, if listed, the auction.
#[derive(Debug, PartialEq, Eq)]
pub struct PalletListing {
    pub owner: String,
    pub auction: Option<PalletAuction>,
}

} // verus!

verus! {

/// The protobuf base-128 varint encoding of `v`.
pub open spec fn varint(v: nat) -> Seq<u8>
    decreases v,
{
    if v < 128 {
        seq![v as u8]
    } else {
        seq![((v % 128) + 128) as u8] + varint(v / 128)
    }
}

/// A length-delimited protobuf field: its key byte, the length, the bytes.
pub open spec fn delimited_field(key: u8, bytes: Seq<u8>) -> Seq<u8> {
    seq![key] + varint(bytes.len()) + bytes
}

/// A proto3 field of `bytes` or `string` type: omitted when empty.
pub open spec fn optional_field(key: u8, bytes: Seq<u8>) -> Seq<u8> {
    if bytes.len() == 0 {
        Seq::empty()
    } else {
        delimited_field(key, bytes)
    }
}

/// The contract-state query request: `address` as field 1, the JSON query as field 2.
pub open spec fn query_request_bytes(address: Seq<u8>, query: Seq<u8>) -> Seq<u8> {
    optional_field(0x0a, address) + optional_field(0x12, query)
}

/// Relies on `prost::encoding::bytes::encode`: appends the field key (tag,
/// wire type 2; one byte for tags up to 15), the varint length and the bytes.
#[verifier::external_body]
fn append_bytes_field(tag: u32, value: &Vec<u8>, buf: &mut Vec<u8>)
    requires
        1 <= tag <= 15,
    ensures
        final(buf)@ == old(buf)@ + delimited_field((tag * 8 + 2) as u8, value@),
{
    prost::encoding::bytes::encode(tag, value, buf)
}

/// What decoding a message as `google.protobuf.BytesValue` gives: its field 1.
pub uninterp spec fn bytes_value_decoded(b: Seq<u8>) -> Option<Seq<u8>>;

/// Relies on prost's `Message` impl for `Vec<u8>` (`BytesValue`): decodes
/// field 1, skipping other fields; the empty message holds no bytes, and a
/// message of field 1 alone holds that field's bytes.
#[verifier::external_body]
fn decode_bytes_value(b: &[u8]) -> (r: Option<Vec<u8>>)
    ensures
        r is Some <==> bytes_value_decoded(b@) is Some,
        r is Some ==> r->Some_0@ == bytes_value_decoded(b@)->Some_0,
        b@.len() == 0 ==> r is Some && r->Some_0@.len() == 0,
        forall|d: Seq<u8>| b@ == delimited_field(0x0a, d) ==> r is Some && r->Some_0@ == d,
{
    <Vec<u8> as prost::Message>::decode(b).ok()
}

fn push_optional_field(out: &mut Vec<u8>, tag: u32, bytes: Vec<u8>)
    requires
        1 <= tag <= 15,
    ensures
        final(out)@ == old(out)@ + optional_field((tag * 8 + 2) as u8, bytes@),
{
    if bytes.len() == 0 {
        assert(old(out)@ + optional_field((tag * 8 + 2) as u8, bytes@) =~= old(out)@);
        return;
    }
    append_bytes_field(tag, &bytes, out);
}

/// Frames a contract-state query for the node: the contract address and the
/// JSON query bytes as a protobuf message.
pub fn encode_query_request(address: &str, query: &[u8]) -> (r: Vec<u8>)
    ensures
        r@ == query_request_bytes(address.spec_bytes(), query@),
{
    let mut out: Vec<u8> = Vec::new();
    push_optional_field(&mut out, 1, vstd::slice::slice_to_vec(address.as_bytes()));
    push_optional_field(&mut out, 2, vstd::slice::slice_to_vec(query));
    assert(out@ =~= query_request_bytes(address.spec_bytes(), query@));
    out
}

/// Failures of a chain query.
#[derive(Debug, PartialEq, Eq)]
pub enum ChainError {
    /// The node answered with a non-zero status; carries its log.
    Rpc(String),
    /// The query could not be serialised or the answer not deserialised.
    Json(String),
    /// The response envelope is not a valid message.
    ProtobufDecode,
    /// A transaction hash could not be decoded.
    Hash(String),
}

impl ChainError {
    /// The handler failure that a failed chain query stands for: a hash
    /// that cannot be decoded is a decode failure, any other a query failure.
    pub fn into_handler_error(self) -> (r: HandlerError)
        ensures
            self is Rpc ==> r == HandlerError::Query(self->Rpc_0),
            self is Json ==> r == HandlerError::Query(self->Json_0),
            self is ProtobufDecode ==> r is Query && r->Query_0@ == "undecodable response envelope"@,
            self is Hash ==> r == HandlerError::Decode(self->Hash_0),
    {
        match self {
            ChainError::Rpc(log) => HandlerError::Query(log),
            ChainError::Json(m) => HandlerError::Query(m),
            ChainError::ProtobufDecode => HandlerError::Query(String::from_str("undecodable response envelope")),
            ChainError::Hash(m) => HandlerError::Decode(m),
        }
    }
}

/// Checks the node's status code and unwraps the `data` field of the
/// response envelope.
pub fn decode_query_response(code: u32, log: &String, value: &[u8]) -> (r: Result<Vec<u8>, ChainError>)
    ensures
        code != 0 ==> r == Err::<Vec<u8>, ChainError>(ChainError::Rpc(*log)),
        code == 0 ==> match bytes_value_decoded(value@) {
            Some(d) => r is Ok && r->Ok_0@ == d,
            None => r == Err::<Vec<u8>, ChainError>(ChainError::ProtobufDecode),
        },
{
    if code != 0 {
        return Err(ChainError::Rpc(log.clone()));
    }
    match decode_bytes_value(value) {
        Some(d) => Ok(d),
        None => Err(ChainError::ProtobufDecode),
    }
}

/// The bytes of a transaction hash given as hexadecimal text, as the node's
/// hash type reads it.
pub uninterp spec fn tx_hash_bytes(s: Seq<char>) -> Option<Seq<u8>>;

/// Relies on `tendermint::Hash::from_str` (upper-case hex of a SHA-256
/// digest, or the empty hash for empty text) and `Hash::as_bytes`.
#[verifier::external_body]
fn decode_hash(s: &str) -> (r: Option<Vec<u8>>)
    ensures
        r is Some <==> tx_hash_bytes(s@) is Some,
        r is Some ==> r->Some_0@ == tx_hash_bytes(s@)->Some_0,
{
    <tendermint::Hash as std::str::FromStr>::from_str(s).ok().map(|h| h.as_bytes().to_vec())
}

/// The digest bytes of a transaction hash; fails with `Hash` where the text
/// is not a hash.
pub fn decode_tx_hash(tx_hash: &str) -> (r: Result<Vec<u8>, ChainError>)
    ensures
        match tx_hash_bytes(tx_hash@) {
            Some(b) => r is Ok && r->Ok_0@ == b,
            None => r is Err && r->Err_0 is Hash,
        },
{
    match decode_hash(tx_hash) {
        Some(b) => Ok(b),
        None => Err(ChainError::Hash(String::from_str("transaction hash is not hexadecimal"))),
    }
}

} // verus!

verus! {

/// Lower-case hexadecimal digit of `n` (0 to 15).
pub open spec fn hex_digit(n: int) -> char {
    seq!['0', '1', '2', '3', '4', '5', '6', '7', '8', '9', 'a', 'b', 'c', 'd', 'e', 'f'][n]
}

/// How a character is written inside a JSON string: quote and backslash
/// are escaped, control characters take their short escape or `\u00XX`,
/// every other character stands as it is.
pub open spec fn escaped(c: char) -> Seq<char> {
    if c == '"' {
        seq!['\\', '"']
    } else if c == '\\' {
        seq!['\\', '\\']
    } else if c == '\x08' {
        seq!['\\', 'b']
    } else if c == '\t' {
        seq!['\\', 't']
    } else if c == '\n' {
        seq!['\\', 'n']
    } else if c == '\x0c' {
        seq!['\\', 'f']
    } else if c == '\r' {
        seq!['\\', 'r']
    } else if (c as u32) < 0x20 {
        seq!['\\', 'u', '0', '0', hex_digit((c as u32) as int / 16), hex_digit((c as u32) as int % 16)]
    } else {
        seq![c]
    }
}

/// Every character of `s`, escaped.
pub open spec fn escaped_text(s: Seq<char>) -> Seq<char>
    decreases s.len(),
{
    if s.len() == 0 {
        Seq::empty()
    } else {
        escaped_text(s.drop_last()) + escaped(s.last())
    }
}

/// The JSON string literal for `s`.
pub open spec fn json_quoted(s: Seq<char>) -> Seq<char> {
    seq!['"'] + escaped_text(s) + seq!['"']
}

/// Relies on `serde_json::to_string` on a `str`: the text between double
/// quotes, with the escapes of serde_json's escape table.
#[verifier::external_body]
fn quote_json(s: &str) -> (r: String)
    ensures
        r@ == json_quoted(s@),
{
    serde_json::to_string(s).unwrap_or_default()
}

/// The `contract_info` query of an NFT contract.
pub fn contract_info_query() -> (r: String)
    ensures
        r@ == "{\"contract_info\":{}}"@,
{
    String::from_str("{\"contract_info\":{}}")
}

/// The `num_tokens` query of an NFT contract.
pub fn num_tokens_query() -> (r: String)
    ensures
        r@ == "{\"num_tokens\":{}}"@,
{
    String::from_str("{\"num_tokens\":{}}")
}

/// The `nft_info` query for one token.
pub fn nft_info_query(token_id: &str) -> (r: String)
    ensures
        r@ == "{\"nft_info\":{\"token_id\":"@ + json_quoted(token_id@) + "}}"@,
{
    let q = quote_json(token_id);
    String::from_str("{\"nft_info\":{\"token_id\":").concat(q.as_str()).concat("}}")
}

/// The `owner_of` query for one token.
pub fn owner_of_query(token_id: &str) -> (r: String)
    ensures
        r@ == "{\"owner_of\":{\"token_id\":"@ + json_quoted(token_id@) + "}}"@,
{
    let q = quote_json(token_id);
    String::from_str("{\"owner_of\":{\"token_id\":").concat(q.as_str()).concat("}}")
}

/// The marketplace query for the listing of one token.
pub fn pallet_listing_query(token_address: &str, token_id: &str) -> (r: String)
    ensures
        r@ == "{\"nft\":{\"address\":"@ + json_quoted(token_address@) + ",\"token_id\":"@
            + json_quoted(token_id@) + "}}"@,
{
    let a = quote_json(token_address);
    let t = quote_json(token_id);
    String::from_str("{\"nft\":{\"address\":").concat(a.as_str()).concat(",\"token_id\":").concat(
        t.as_str(),
    ).concat("}}")
}

/// The JSON-RPC request that subscribes to the events matching `filter`.
pub fn subscribe_message(filter: &str) -> (r: String)
    ensures
        r@ == "{\"id\":\"0\",\"jsonrpc\":\"2.0\",\"method\":\"subscribe\",\"params\":{\"query\":"@
            + json_quoted(filter@) + "}}"@,
{
    let q = quote_json(filter);
    String::from_str(
        "{\"id\":\"0\",\"jsonrpc\":\"2.0\",\"method\":\"subscribe\",\"params\":{\"query\":",
    ).concat(q.as_str()).concat("}}")
}

/// A member that is present and not `null`.
pub open spec fn present(v: JsonValue, key: Seq<char>) -> Option<JsonValue> {
    match field(v, key) {
        Some(JsonValue::Null) => None,
        other => other,
    }
}

/// A `u32` member: a number written with digits only that fits.
pub open spec fn u32_field(v: JsonValue, key: Seq<char>) -> Option<u32> {
    match field(v, key) {
        Some(JsonValue::Number(t)) => u32_text_value(t@),
        _ => None,
    }
}

fn text_of(v: &JsonValue, key: &str) -> (r: Option<String>)
    ensures
        match text_field(*v, key@) {
            Some(s) => r is Some && r->Some_0@ == s,
            None => r is None,
        },
{
    match v.get_field(key) {
        Some(JsonValue::Str(s)) => Some(s.clone()),
        _ => None,
    }
}

fn u32_of(v: &JsonValue, key: &str) -> (r: Option<u32>)
    ensures
        r == u32_field(*v, key@),
{
    match v.get_field(key) {
        Some(JsonValue::Number(t)) => parse_u32(t.as_str()),
        _ => None,
    }
}

fn shape_error() -> (r: ChainError)
    ensures
        r is Json,
{
    ChainError::Json(String::from_str("unexpected answer shape"))
}

impl ContractInfo {
    /// Reads a `contract_info` answer: `name` and `symbol` strings.
    pub fn from_json(v: &JsonValue) -> (r: Result<ContractInfo, ChainError>)
        ensures
            match (text_field(*v, "name"@), text_field(*v, "symbol"@)) {
                (Some(n), Some(s)) => r is Ok && r->Ok_0.name@ == n && r->Ok_0.symbol@ == s,
                _ => r is Err && r->Err_0 is Json,
            },
    {
        match (text_of(v, "name"), text_of(v, "symbol")) {
            (Some(name), Some(symbol)) => Ok(ContractInfo { name, symbol }),
            _ => Err(shape_error()),
        }
    }
}

impl Supply {
    /// Reads a `num_tokens` answer: a `count` that fits in a `u32`.
    pub fn from_json(v: &JsonValue) -> (r: Result<Supply, ChainError>)
        ensures
            match u32_field(*v, "count"@) {
                Some(c) => r is Ok && r->Ok_0.count == c,
                None => r is Err && r->Err_0 is Json,
            },
    {
        match u32_of(v, "count") {
            Some(count) => Ok(Supply { count }),
            None => Err(shape_error()),
        }
    }
}

impl NftOwner {
    /// Reads an `owner_of` answer: an `owner` string.
    pub fn from_json(v: &JsonValue) -> (r: Result<NftOwner, ChainError>)
        ensures
            match text_field(*v, "owner"@) {
                Some(o) => r is Ok && r->Ok_0.owner@ == o,
                None => r is Err && r->Err_0 is Json,
            },
    {
        match text_of(v, "owner") {
            Some(owner) => Ok(NftOwner { owner }),
            None => Err(shape_error()),
        }
    }
}

/// A well-formed `extension`: absent, or an object whose royalty is absent or a number.
pub open spec fn extension_ok(v: JsonValue) -> bool {
    match present(v, "extension"@) {
        None => true,
        Some(JsonValue::Object(_)) => match present(present(v, "extension"@)->Some_0, "royalty_percentage"@) {
            None => true,
            Some(JsonValue::Number(_)) => true,
            _ => false,
        },
        _ => false,
    }
}

impl NftInfo {
    /// Reads an `nft_info` answer: a `token_uri` string and an optional
    /// extension with an optional numeric royalty.
    pub fn from_json(v: &JsonValue) -> (r: Result<NftInfo, ChainError>)
        ensures
            r is Ok <==> text_field(*v, "token_uri"@) is Some && extension_ok(*v),
            r is Ok ==> r->Ok_0.token_uri@ == text_field(*v, "token_uri"@)->Some_0 && (
            r->Ok_0.extension is Some <==> present(*v, "extension"@) is Some),
            r is Ok && r->Ok_0.extension is Some ==> opt_text(
                r->Ok_0.extension->Some_0.royalty_percentage,
            ) == match present(present(*v, "extension"@)->Some_0, "royalty_percentage"@) {
                Some(JsonValue::Number(t)) => Some(t@),
                _ => None,
            },
            r is Err ==> r->Err_0 is Json,
    {
        let token_uri = match text_of(v, "token_uri") {
            Some(t) => t,
            None => return Err(shape_error()),
        };
        let extension = match v.get_field("extension") {
            None | Some(JsonValue::Null) => None,
            Some(JsonValue::Object(m)) => {
                let e = v.get_field("extension").unwrap();
                match e.get_field("royalty_percentage") {
                    None | Some(JsonValue::Null) => Some(Extension { royalty_percentage: None }),
                    Some(JsonValue::Number(t)) => Some(Extension { royalty_percentage: Some(t.clone()) }),
                    _ => return Err(shape_error()),
                }
            },
            _ => return Err(shape_error()),
        };
        Ok(NftInfo { token_uri, extension })
    }
}

/// A well-formed price object.
pub open spec fn price_ok(v: JsonValue) -> bool {
    text_field(v, "amount"@) is Some && text_field(v, "denom"@) is Some
}

/// A well-formed auction object: two `u32` times and exactly one price.
pub open spec fn auction_ok(v: JsonValue) -> bool {
    &&& v is Object
    &&& u32_field(v, "created_at"@) is Some
    &&& u32_field(v, "expiration_time"@) is Some
    &&& field(v, "prices"@) matches Some(JsonValue::Array(a))
    &&& a@.len() == 1
    &&& price_ok(a@[0])
}

impl PalletListing {
    /// Reads the marketplace's listing answer: an `owner` string and an
    /// optional auction.
    pub fn from_json(v: &JsonValue) -> (r: Result<PalletListing, ChainError>)
        ensures
            r is Ok <==> text_field(*v, "owner"@) is Some && match present(*v, "auction"@) {
                None => true,
                Some(a) => auction_ok(a),
            },
            r is Ok ==> r->Ok_0.owner@ == text_field(*v, "owner"@)->Some_0 && (
            r->Ok_0.auction is Some <==> present(*v, "auction"@) is Some),
            r is Ok && r->Ok_0.auction is Some ==> {
                let a = present(*v, "auction"@)->Some_0;
                let out = r->Ok_0.auction->Some_0;
                &&& Some(out.created_at) == u32_field(a, "created_at"@)
                &&& Some(out.expiration_time) == u32_field(a, "expiration_time"@)
                &&& out.prices@.len() == 1
                &&& Some(out.prices@[0].amount@) == text_field(field(a, "prices"@)->Some_0->Array_0@[0], "amount"@)
                &&& Some(out.prices@[0].denom@) == text_field(field(a, "prices"@)->Some_0->Array_0@[0], "denom"@)
            },
            r is Err ==> r->Err_0 is Json,
    {
        let owner = match text_of(v, "owner") {
            Some(o) => o,
            None => return Err(shape_error()),
        };
        let auction = match v.get_field("auction") {
            None | Some(JsonValue::Null) => None,
            Some(a) => {
                if !matches!(a, JsonValue::Object(_)) {
                    return Err(shape_error());
                }
                let created_at = match u32_of(a, "created_at") {
                    Some(x) => x,
                    None => return Err(shape_error()),
                };
                let expiration_time = match u32_of(a, "expiration_time") {
                    Some(x) => x,
                    None => return Err(shape_error()),
                };
                let items = match a.get_field("prices") {
                    Some(JsonValue::Array(items)) => items,
                    _ => return Err(shape_error()),
                };
                if items.len() != 1 {
                    return Err(shape_error());
                }
                let amount = match text_of(&items[0], "amount") {
                    Some(x) => x,
                    None => return Err(shape_error()),
                };
                let denom = match text_of(&items[0], "denom") {
                    Some(x) => x,
                    None => return Err(shape_error()),
                };
                let mut prices: Vec<Price> = Vec::new();
                prices.push(Price { amount, denom });
                Some(PalletAuction { created_at, expiration_time, prices })
            },
        };
        Ok(PalletListing { owner, auction })
    }
}

} // verus!
