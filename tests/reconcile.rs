use nft_indexer::model::HandlerError;
use nft_indexer::reconcile::{
    delist_writes, loyalty_points, parse_u32, royalty_of, sale_writes, trait_rows,
};
use nft_indexer::chain::Extension;
use nft_indexer::store::{ListingRow, NftAttribute, PointKind, Write};

#[test]
fn unsigned_integers_parse_from_digits() {
    assert_eq!(parse_u32("4294967295"), Some(u32::MAX));
    assert_eq!(parse_u32("4294967296"), None);
    assert_eq!(parse_u32("007"), Some(7));
    assert_eq!(parse_u32("+1"), None);
    assert_eq!(parse_u32(""), None);
}

#[test]
fn loyalty_points_are_whole_units_over_a_million() {
    assert_eq!(loyalty_points("2500000"), Some(2));
    assert_eq!(loyalty_points("999999"), Some(0));
    assert_eq!(loyalty_points("1000000"), Some(1));
    assert_eq!(loyalty_points("-1500000"), Some(-1));
    assert_eq!(loyalty_points("+3000000"), Some(3));
    assert_eq!(loyalty_points("3000000000"), Some(3000));
    assert_eq!(loyalty_points("2500000.75"), Some(2));
    assert_eq!(loyalty_points("2147483647999999"), Some(i32::MAX));
    assert_eq!(loyalty_points("2147483648000000"), None);
    assert_eq!(loyalty_points("-2147483648000000"), Some(i32::MIN));
    assert_eq!(loyalty_points("99999999999999999999999"), None);
    assert_eq!(loyalty_points(""), None);
    assert_eq!(loyalty_points("-"), None);
    assert_eq!(loyalty_points("1."), None);
    assert_eq!(loyalty_points(".5"), None);
    assert_eq!(loyalty_points("1.2.3"), None);
    assert_eq!(loyalty_points("12a"), None);
}

fn row(price: &str) -> ListingRow {
    ListingRow { nft_id: 1, price: price.to_string(), seller_address: "s".to_string() }
}

#[test]
fn sale_rejects_prices_that_are_not_decimals() {
    let b = "b".to_string();
    let c = "c".to_string();
    let t = "t".to_string();
    assert!(matches!(sale_writes(&row("abc"), &b, &c, &t, 0), Err(HandlerError::Query(_))));
    assert!(matches!(sale_writes(&row("3000000000000000"), &b, &c, &t, 0), Err(HandlerError::Query(_))));
    let big = sale_writes(&row("3000000000"), &b, &c, &t, 0).unwrap();
    match &big[3] {
        Write::InsertPoint(p) => assert_eq!((p.kind, p.point), (PointKind::Buy, 3000)),
        other => panic!("{:?}", other),
    }
    let fractional = sale_writes(&row("12000000.5"), &b, &c, &t, 0).unwrap();
    match &fractional[4] {
        Write::InsertPoint(p) => assert_eq!(p.point, 12),
        other => panic!("{:?}", other),
    }
    let ws = sale_writes(&row("3000000"), &b, &c, &t, 0).unwrap();
    assert_eq!(ws.len(), 5);
    match &ws[4] {
        Write::InsertPoint(p) => assert_eq!((p.kind, p.point, p.wallet_address.as_str()), (PointKind::Sell, 3, "s")),
        other => panic!("{:?}", other),
    }
}

#[test]
fn delisting_removes_the_listing_first() {
    let ws = delist_writes(&row("5"), &"t".to_string(), 4);
    assert_eq!(ws.len(), 2);
    assert_eq!(ws[0], Write::DeleteListing(1));
}

#[test]
fn trait_names_fall_back_in_order() {
    let attrs = Some(vec![
        NftAttribute { trait_type: Some("a".to_string()), kind: Some("b".to_string()), value: Some("\"v\"".to_string()), display_type: Some("\"number\"".to_string()) },
        NftAttribute { trait_type: None, kind: Some("b".to_string()), value: None, display_type: None },
        NftAttribute { trait_type: None, kind: None, value: None, display_type: None },
    ]);
    let rows = trait_rows(&attrs);
    assert_eq!(rows.len(), 3);
    assert_eq!((rows[0].attribute.as_str(), rows[0].value.as_str()), ("a", "\"v\""));
    assert_eq!(rows[0].display_type, Some("\"number\"".to_string()));
    assert_eq!((rows[1].attribute.as_str(), rows[1].value.as_str()), ("b", "unknown"));
    assert_eq!(rows[2].attribute, "unknown");
    assert!(trait_rows(&None).is_empty());
}

#[test]
fn royalty_defaults_to_zero_inside_an_extension() {
    assert_eq!(royalty_of(&None), None);
    assert_eq!(royalty_of(&Some(Extension { royalty_percentage: None })), Some("0".to_string()));
    assert_eq!(royalty_of(&Some(Extension { royalty_percentage: Some("5".to_string()) })), Some("5".to_string()));
}
