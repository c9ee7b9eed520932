use nft_indexer::chain::{ContractInfo, NftInfo, PalletAuction, PalletListing, Price, Supply};
use nft_indexer::handler::{CollectionDetails, Command, Effect, Job, NftDetails, Reply};
use nft_indexer::model::{Attribute, Event, HandlerError};
use nft_indexer::protocol::StreamContext;
use nft_indexer::store::{
    ActivityKind, CollectionMetadata, ListingRow, NftAttribute, NftKey, NftMetadata, PointKind, Write,
};

const HASH: &str = "ABABABABABABABABABABABABABABABABABABABABABABABABABABABABABABABAB";

fn event(kind: &str, attrs: &[(&str, &str)]) -> Event {
    Event {
        kind: kind.to_string(),
        attributes: attrs
            .iter()
            .map(|(k, v)| Attribute { key: k.to_string(), value: v.to_string() })
            .collect(),
    }
}

fn key(a: &str, id: &str) -> NftKey {
    NftKey { token_address: a.to_string(), token_id: id.to_string() }
}

fn trace_of(cmd: &Command) -> (bool, StreamContext, Option<String>) {
    match cmd {
        Command::Trace(t) => (t.is_failure, t.context, t.message.clone()),
        other => panic!("expected a trace, got {:?}", other),
    }
}

fn listing_row() -> ListingRow {
    ListingRow { nft_id: 7, price: "2500000".to_string(), seller_address: "seller".to_string() }
}

fn pallet_event(kind: &str) -> Event {
    event(kind, &[("collection_address", "coll"), ("token_id", "9")])
}

#[test]
fn transfer_updates_owner_and_traces_success() {
    let e = event(
        "wasm",
        &[("action", "transfer_nft"), ("_contract_address", "addrX"), ("token_id", "42"), ("recipient", "addrY")],
    );
    let (mut job, cmd) = Job::start(StreamContext::Cw721, &"ABC123".to_string(), &e, 100);
    assert_eq!(cmd, Command::FindNft(key("addrX", "42")));
    let cmd = job.resume(Reply::Nft(Some(5))).unwrap();
    assert_eq!(cmd, Command::UpdateOwner(key("addrX", "42"), Some("addrY".to_string())));
    let cmd = job.resume(Reply::Done).unwrap();
    let (failed, context, message) = trace_of(&cmd);
    assert!(!failed);
    assert_eq!(context, StreamContext::Cw721);
    assert_eq!(message, None);
    match &cmd {
        Command::Trace(t) => {
            assert_eq!(t.tx_hash, "ABC123");
            assert_eq!(t.action, "transfer_nft");
        }
        _ => unreachable!(),
    }
    assert!(job.resume(Reply::Done).is_none());
    assert!(job.is_completed());
    assert_eq!(job.outcome, Some(Ok(Effect::Applied)));
}

#[test]
fn create_auction_without_live_auction_writes_nothing() {
    let (mut job, cmd) =
        Job::start(StreamContext::Pallet, &"T1".to_string(), &pallet_event("wasm-create_auction"), 0);
    assert_eq!(cmd, Command::FindNft(key("coll", "9")));
    let cmd = job.resume(Reply::Nft(Some(3))).unwrap();
    assert_eq!(cmd, Command::QueryListing(key("coll", "9")));
    let cmd = job
        .resume(Reply::ChainListing(PalletListing { owner: "o".to_string(), auction: None }))
        .unwrap();
    let (failed, context, _) = trace_of(&cmd);
    assert!(!failed);
    assert_eq!(context, StreamContext::Pallet);
    assert_eq!(job.outcome, Some(Ok(Effect::Skipped)));
    assert!(job.resume(Reply::Done).is_none());
}

#[test]
fn create_auction_commits_listing_and_activity() {
    let (mut job, _) =
        Job::start(StreamContext::Pallet, &"T2".to_string(), &pallet_event("wasm-create_auction"), 0);
    job.resume(Reply::Nft(Some(3))).unwrap();
    let auction = PalletAuction {
        created_at: 1700000000,
        expiration_time: 1800000000,
        prices: vec![Price { amount: "1000000".to_string(), denom: "usei".to_string() }],
    };
    let cmd = job
        .resume(Reply::ChainListing(PalletListing { owner: "alice".to_string(), auction: Some(auction) }))
        .unwrap();
    match cmd {
        Command::Commit(ws) => {
            assert_eq!(ws.len(), 2);
            match &ws[0] {
                Write::InsertListing(l) => {
                    assert_eq!(l.nft_id, 3);
                    assert_eq!(l.price, "1000000");
                    assert_eq!(l.denom, "usei");
                    assert_eq!(l.created_at, 1700000000);
                    assert_eq!(l.expiration_time, 1800000000);
                    assert_eq!(l.seller_address, "alice");
                    assert_eq!(l.collection_address, "coll");
                    assert_eq!(l.tx_hash, "T2");
                }
                other => panic!("{:?}", other),
            }
            match &ws[1] {
                Write::InsertActivity(a) => {
                    assert_eq!(a.kind, ActivityKind::List);
                    assert_eq!(a.seller_address, Some("alice".to_string()));
                    assert_eq!(a.buyer_address, None);
                }
                other => panic!("{:?}", other),
            }
        }
        other => panic!("{:?}", other),
    }
    let cmd = job.resume(Reply::Done).unwrap();
    assert!(!trace_of(&cmd).0);
    assert_eq!(job.outcome, Some(Ok(Effect::Applied)));
}

#[test]
fn create_auction_with_bad_price_fails() {
    let (mut job, _) =
        Job::start(StreamContext::Pallet, &"T".to_string(), &pallet_event("wasm-create_auction"), 0);
    job.resume(Reply::Nft(Some(3))).unwrap();
    let auction = PalletAuction {
        created_at: 1,
        expiration_time: 2,
        prices: vec![Price { amount: "abc".to_string(), denom: "usei".to_string() }],
    };
    let cmd = job
        .resume(Reply::ChainListing(PalletListing { owner: "o".to_string(), auction: Some(auction) }))
        .unwrap();
    assert!(trace_of(&cmd).0);
}

#[test]
fn buy_now_without_listing_is_a_no_op() {
    let (mut job, _) = Job::start(StreamContext::Pallet, &"T3".to_string(), &pallet_event("wasm-buy_now"), 0);
    let cmd = job.resume(Reply::Nft(Some(7))).unwrap();
    assert_eq!(cmd, Command::FindListing(7));
    let cmd = job.resume(Reply::Listing(None)).unwrap();
    assert!(!trace_of(&cmd).0);
    assert_eq!(job.outcome, Some(Ok(Effect::Skipped)));
}

#[test]
fn buy_now_commits_sale_with_points() {
    let (mut job, _) = Job::start(StreamContext::Pallet, &HASH.to_string(), &pallet_event("wasm-buy_now"), 55);
    job.resume(Reply::Nft(Some(7))).unwrap();
    let cmd = job.resume(Reply::Listing(Some(listing_row()))).unwrap();
    assert_eq!(cmd, Command::FetchTx(vec![0xab; 32]));
    let tx_events = vec![
        event("message", &[("cmVjaXBlbnQ=", "nobody")]),
        event("wasm", &[("YWN0aW9u", "buy"), ("cmVjaXBlbnQ=", "bob")]),
    ];
    let cmd = job.resume(Reply::TxEvents(tx_events)).unwrap();
    match cmd {
        Command::Commit(ws) => {
            assert_eq!(ws.len(), 5);
            assert_eq!(ws[0], Write::DeleteListing(7));
            match (&ws[1], &ws[2], &ws[3], &ws[4]) {
                (Write::InsertActivity(a), Write::InsertLedger(l), Write::InsertPoint(b), Write::InsertPoint(s)) => {
                    assert_eq!(a.kind, ActivityKind::Sale);
                    assert_eq!(a.buyer_address, Some("bob".to_string()));
                    assert_eq!(a.seller_address, Some("seller".to_string()));
                    assert_eq!(a.created_at, 55);
                    assert_eq!(l.volume, "2500000");
                    assert_eq!(l.collection_address, "coll");
                    assert_eq!((b.wallet_address.as_str(), b.kind, b.point), ("bob", PointKind::Buy, 2));
                    assert_eq!((s.wallet_address.as_str(), s.kind, s.point), ("seller", PointKind::Sell, 2));
                }
                other => panic!("{:?}", other),
            }
        }
        other => panic!("{:?}", other),
    }
}

#[test]
fn buy_now_without_buyer_fails() {
    let (mut job, _) = Job::start(StreamContext::Pallet, &HASH.to_string(), &pallet_event("wasm-buy_now"), 0);
    job.resume(Reply::Nft(Some(7))).unwrap();
    job.resume(Reply::Listing(Some(listing_row()))).unwrap();
    let cmd = job.resume(Reply::TxEvents(vec![event("wasm", &[("YWN0aW9u", "buy")])])).unwrap();
    assert!(trace_of(&cmd).0);
}

#[test]
fn failed_commit_is_traced_as_failure() {
    let (mut job, _) = Job::start(StreamContext::Pallet, &"T6".to_string(), &pallet_event("wasm-cancel_auction"), 9);
    job.resume(Reply::Nft(Some(7))).unwrap();
    let cmd = job.resume(Reply::Listing(Some(listing_row()))).unwrap();
    match cmd {
        Command::Commit(ws) => {
            assert_eq!(ws[0], Write::DeleteListing(7));
            match &ws[1] {
                Write::InsertActivity(a) => {
                    assert_eq!(a.kind, ActivityKind::Delist);
                    assert_eq!(a.price, "2500000");
                    assert_eq!(a.created_at, 9);
                }
                other => panic!("{:?}", other),
            }
        }
        other => panic!("{:?}", other),
    }
    let cmd = job.resume(Reply::Failed(HandlerError::Persistence("insert failed".to_string()))).unwrap();
    let (failed, context, message) = trace_of(&cmd);
    assert!(failed);
    assert_eq!(context, StreamContext::Pallet);
    assert_eq!(message, Some("database error: insert failed".to_string()));
}

#[test]
fn missing_attribute_fails_before_any_lookup() {
    let e = event("wasm", &[("action", "mint"), ("_contract_address", "addrX"), ("token_id", "1")]);
    let (job, cmd) = Job::start(StreamContext::Cw721, &"T".to_string(), &e, 0);
    let (failed, _, message) = trace_of(&cmd);
    assert!(failed);
    assert_eq!(message, Some("missing attribute owner".to_string()));
    assert_eq!(job.outcome, Some(Err(HandlerError::MissingAttribute("owner".to_string()))));
}

#[test]
fn unknown_action_is_a_successful_no_op() {
    let e = event("wasm", &[("action", "burn"), ("action", "mint")]);
    let (job, cmd) = Job::start(StreamContext::Cw721, &"T".to_string(), &e, 0);
    assert!(!trace_of(&cmd).0);
    assert_eq!(job.outcome, Some(Ok(Effect::Skipped)));
}

#[test]
fn first_sight_of_token_creates_collection_and_nft() {
    let e = event("wasm", &[("action", "mint"), ("_contract_address", "c1"), ("token_id", "1"), ("owner", "me")]);
    let (mut job, _) = Job::start(StreamContext::Cw721, &"T".to_string(), &e, 0);
    let cmd = job.resume(Reply::Nft(None)).unwrap();
    assert_eq!(cmd, Command::FetchNftDetails(key("c1", "1")));
    let details = NftDetails {
        info: NftInfo { token_uri: "ipfs://x".to_string(), extension: None },
        metadata: NftMetadata {
            name: Some("N".to_string()),
            description: None,
            image: None,
            attributes: Some(vec![NftAttribute {
                trait_type: None,
                kind: Some("color".to_string()),
                value: None,
                display_type: None,
            }]),
        },
    };
    let cmd = job.resume(Reply::NftDetails(details)).unwrap();
    assert_eq!(cmd, Command::FindCollection("c1".to_string()));
    let cmd = job.resume(Reply::Collection(false)).unwrap();
    assert_eq!(cmd, Command::FetchCollectionDetails("c1".to_string()));
    let cmd = job
        .resume(Reply::CollectionDetails(CollectionDetails {
            info: ContractInfo { name: "Col".to_string(), symbol: "C".to_string() },
            supply: Supply { count: 10 },
            metadata: CollectionMetadata { pfp: None, slug: None, description: None, banner: None, socials: None },
        }))
        .unwrap();
    match &cmd {
        Command::InsertCollection(c) => {
            assert_eq!(c.address, "c1");
            assert_eq!(c.supply, 10);
            assert_eq!(c.royalty, None);
        }
        other => panic!("{:?}", other),
    }
    let cmd = job.resume(Reply::Done).unwrap();
    match &cmd {
        Command::InsertNft(n) => {
            assert_eq!(n.key, key("c1", "1"));
            assert_eq!(n.owner_address, Some("me".to_string()));
            assert_eq!(n.traits.len(), 1);
            assert_eq!(n.traits[0].attribute, "color");
            assert_eq!(n.traits[0].value, "unknown");
        }
        other => panic!("{:?}", other),
    }
    let cmd = job.resume(Reply::NftCreated(12)).unwrap();
    assert!(!trace_of(&cmd).0);
}

#[test]
fn existing_nft_without_owner_is_left_unchanged() {
    let (mut job, _) =
        Job::start(StreamContext::Pallet, &"T".to_string(), &pallet_event("wasm-cancel_auction"), 0);
    let cmd = job.resume(Reply::Nft(Some(4))).unwrap();
    assert_eq!(cmd, Command::FindListing(4));
}

#[test]
fn buy_now_with_undecodable_hash_fails_with_decode_error() {
    let (mut job, _) = Job::start(StreamContext::Pallet, &"not-hex".to_string(), &pallet_event("wasm-buy_now"), 0);
    job.resume(Reply::Nft(Some(7))).unwrap();
    let cmd = job.resume(Reply::Listing(Some(listing_row()))).unwrap();
    assert!(trace_of(&cmd).0);
    assert!(matches!(job.outcome, Some(Err(HandlerError::Decode(_)))));
}

#[test]
fn buy_now_above_i32_price_still_sells() {
    let (mut job, _) = Job::start(StreamContext::Pallet, &HASH.to_string(), &pallet_event("wasm-buy_now"), 1);
    job.resume(Reply::Nft(Some(7))).unwrap();
    let row = ListingRow { nft_id: 7, price: "3000000000".to_string(), seller_address: "s".to_string() };
    job.resume(Reply::Listing(Some(row))).unwrap();
    let cmd = job.resume(Reply::TxEvents(vec![event("wasm", &[("cmVjaXBlbnQ=", "bob")])])).unwrap();
    match cmd {
        Command::Commit(ws) => match &ws[3] {
            Write::InsertPoint(p) => assert_eq!((p.kind, p.point), (PointKind::Buy, 3000)),
            other => panic!("{:?}", other),
        },
        other => panic!("{:?}", other),
    }
}

#[test]
fn trace_records_action_hash_and_message() {
    let (job, cmd) = Job::start(
        StreamContext::Pallet,
        &"H1".to_string(),
        &event("wasm-create_auction", &[("token_id", "1")]),
        0,
    );
    match cmd {
        Command::Trace(t) => {
            assert_eq!(t.tx_hash, "H1");
            assert_eq!(t.action, "wasm-create_auction");
            assert_eq!(t.context, StreamContext::Pallet);
            assert!(t.is_failure);
            assert_eq!(t.message, Some("missing attribute collection_address".to_string()));
        }
        other => panic!("{:?}", other),
    }
    assert!(job.outcome.is_some());
}
