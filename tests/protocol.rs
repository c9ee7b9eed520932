use nft_indexer::model::{find_attribute, Attribute, Event, HandlerError};
use nft_indexer::protocol::{
    find_buyer_address, retrieve_cw721_events, retrieve_pallet_events, Cw721Action, PalletAction,
};

fn event(kind: &str, attrs: &[(&str, &str)]) -> Event {
    Event {
        kind: kind.to_string(),
        attributes: attrs
            .iter()
            .map(|(k, v)| Attribute { key: k.to_string(), value: v.to_string() })
            .collect(),
    }
}

#[test]
fn find_attribute_takes_first_match() {
    let e = event("wasm", &[("a", "1"), ("b", "2"), ("a", "3")]);
    assert_eq!(find_attribute(&e, "a"), Ok("1".to_string()));
    assert_eq!(find_attribute(&e, "b"), Ok("2".to_string()));
    assert_eq!(find_attribute(&e, "c"), Err(HandlerError::MissingAttribute("c".to_string())));
}

#[test]
fn cw721_filter_keeps_wasm_events_with_known_action() {
    let events = vec![
        event("wasm", &[("action", "mint")]),
        event("message", &[("action", "mint")]),
        event("wasm", &[("action", "burn")]),
        event("wasm", &[("x", "y"), ("action", "send_nft")]),
        event("wasm", &[]),
    ];
    let kept = retrieve_cw721_events(events);
    assert_eq!(kept.len(), 2);
    assert_eq!(kept[0].attributes[0].value, "mint");
    assert_eq!(kept[1].attributes[1].value, "send_nft");
}

#[test]
fn pallet_filter_keeps_marketplace_types_in_order() {
    let events = vec![
        event("wasm-buy_now", &[]),
        event("wasm", &[]),
        event("wasm-cancel_auction", &[]),
        event("wasm-create_auction", &[]),
        event("wasm-other", &[]),
    ];
    let kept: Vec<String> = retrieve_pallet_events(events).into_iter().map(|e| e.kind).collect();
    assert_eq!(kept, vec!["wasm-buy_now", "wasm-cancel_auction", "wasm-create_auction"]);
}

#[test]
fn empty_event_lists_stay_empty() {
    assert!(retrieve_cw721_events(vec![]).is_empty());
    assert!(retrieve_pallet_events(vec![]).is_empty());
}

#[test]
fn actions_parse_from_wire_text() {
    assert_eq!(Cw721Action::from_text("mint"), Some(Cw721Action::Mint));
    assert_eq!(Cw721Action::from_text("transfer_nft"), Some(Cw721Action::TransferNft));
    assert_eq!(Cw721Action::from_text("send_nft"), Some(Cw721Action::SendNft));
    assert_eq!(Cw721Action::from_text("Mint"), None);
    assert_eq!(PalletAction::from_event_type("wasm-buy_now"), Some(PalletAction::BuyNow));
    assert_eq!(PalletAction::from_event_type("wasm-create_auction"), Some(PalletAction::CreateAuction));
    assert_eq!(PalletAction::from_event_type("wasm-cancel_auction"), Some(PalletAction::CancelAuction));
    assert_eq!(PalletAction::from_event_type("buy_now"), None);
}

#[test]
fn buyer_comes_from_first_wasm_event_with_the_key() {
    // "cmVjaXBlbnQ=" is base64 for the contract's buyer key.
    let events = vec![
        event("transfer", &[("cmVjaXBlbnQ=", "wrong")]),
        event("wasm", &[("YWN0aW9u", "buy")]),
        event("wasm", &[("cmVjaXBpZW50", "misspelt-elsewhere"), ("cmVjaXBlbnQ=", "buyer1")]),
        event("wasm", &[("cmVjaXBlbnQ=", "buyer2")]),
    ];
    assert_eq!(find_buyer_address(&events), Some("buyer1".to_string()));
    assert_eq!(find_buyer_address(&vec![event("wasm", &[("recipent", "raw")])]), None);
    assert_eq!(find_buyer_address(&vec![]), None);
}
