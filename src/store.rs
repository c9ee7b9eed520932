use vstd::prelude::*;

verus! {

/// The natural key of an NFT.
#[derive(Debug, PartialEq, Eq)]
pub struct NftKey {
    pub token_address: String,
    pub token_id: String,
}

/// One trait of an NFT as stored.
#[derive(Debug, PartialEq, Eq)]
pub struct TraitRow {
    pub attribute: String,
    pub display_type: Option<String>,
    pub value: String,
}

/// A new NFT row together with its traits.
#[derive(Debug, PartialEq, Eq)]
pub struct NewNft {
    pub key: NftKey,
    pub token_uri: String,
    pub name: Option<String>,
    pub description: Option<String>,
    pub image: Option<String>,
    pub owner_address: Option<String>,
    pub traits: Vec<TraitRow>,
}

/// Off-chain collection metadata; `socials` is JSON text.
#[derive(Debug, PartialEq, Eq)]
pub struct CollectionMetadata {
    pub pfp: Option<String>,
    pub slug: Option<String>,
    pub description: Option<String>,
    pub banner: Option<String>,
    pub socials: Option<String>,
}

/// A new collection row.
#[derive(Debug, PartialEq, Eq)]
pub struct NewCollection {
    pub address: String,
    pub name: String,
    pub symbol: String,
    pub supply: i32,
    pub metadata: CollectionMetadata,
    /// Royalty percentage as decimal text.
    pub royalty: Option<String>,
}

/// A live listing as read back from storage.
#[derive(Debug, PartialEq, Eq)]
pub struct ListingRow {
    pub nft_id: i32,
    /// Price as decimal text.
    pub price: String,
    pub seller_address: String,
}

/// A new listing row.
#[derive(Debug, PartialEq, Eq)]
pub struct NewListing {
    pub nft_id: i32,
    pub collection_address: String,
    pub price: String,
    pub denom: String,
    /// Seconds since the Unix epoch.
    pub created_at: i64,
    pub expiration_time: i32,
    pub seller_address: String,
    pub tx_hash: String,
}

/// The kind of an activity row.
#[derive(PartialEq, Eq, Structural, Clone, Copy, Debug)]
pub enum ActivityKind {
    List,
    Delist,
    Sale,
}

/// A new activity row.
#[derive(Debug, PartialEq, Eq)]
pub struct NewActivity {
    pub nft_id: i32,
    pub kind: ActivityKind,
    pub price: String,
    pub denom: String,
    pub seller_address: Option<String>,
    pub buyer_address: Option<String>,
    pub tx_hash: String,
    pub created_at: i64,
}

/// A new sale-ledger row.
#[derive(Debug, PartialEq, Eq)]
pub struct NewLedgerEntry {
    pub buyer_address: String,
    pub seller_address: String,
    pub collection_address: String,
    pub volume: String,
    pub tx_hash: String,
    pub created_at: i64,
}

/// The side of a sale that a loyalty point credits.
#[derive(PartialEq, Eq, Structural, Clone, Copy, Debug)]
pub enum PointKind {
    Buy,
    Sell,
}

/// A new loyalty-point row.
#[derive(Debug, PartialEq, Eq)]
pub struct NewPoint {
    pub wallet_address: String,
    pub kind: PointKind,
    pub point: i32,
    pub created_at: i64,
}

/// One write of a storage transaction.
#[derive(Debug, PartialEq, Eq)]
pub enum Write {
    InsertListing(NewListing),
    DeleteListing(i32),
    InsertActivity(NewActivity),
    InsertLedger(NewLedgerEntry),
    InsertPoint(NewPoint),
}

} // verus!

verus! {

/// One trait entry of off-chain NFT metadata; `value` and `display_type`
/// are JSON text.
#[derive(Debug, PartialEq, Eq)]
pub struct NftAttribute {
    pub trait_type: Option<String>,
    pub kind: Option<String>,
    pub value: Option<String>,
    pub display_type: Option<String>,
}

/// Off-chain NFT metadata.
#[derive(Debug, PartialEq, Eq)]
pub struct NftMetadata {
    pub name: Option<String>,
    pub description: Option<String>,
    pub image: Option<String>,
    pub attributes: Option<Vec<NftAttribute>>,
}

/// The view of an optional text.
pub open spec fn opt_text(o: Option<String>) -> Option<Seq<char>> {
    match o {
        Some(s) => Some(s@),
        None => None,
    }
}

} // verus!
