use vstd::prelude::*;
use crate::model::HandlerError;
use crate::chain::{ContractInfo, Extension, NftInfo, PalletAuction, Supply};
use crate::store::{opt_text, CollectionMetadata, NewCollection, NewNft, NftAttribute, NftKey, NftMetadata, TraitRow};
use crate::store::{ActivityKind, ListingRow, NewActivity, NewLedgerEntry, NewListing, NewPoint, PointKind, Write};

verus! {

/// Whether `s` is text that decimal parsing accepts.
pub uninterp spec fn is_decimal_text(s: Seq<char>) -> bool;

/// Relies on `rust_decimal::Decimal::from_str` (re-exported by sea-orm):
/// whether the text parses as a decimal depends on the text alone.
/// A run of one to 28 digits always parses.
#[verifier::external_body]
fn parses_as_decimal(s: &str) -> (r: bool)
    ensures
        r == is_decimal_text(s@),
        1 <= s@.len() <= 28 && all_digits(s@) ==> r,
{
    <sea_orm::prelude::Decimal as std::str::FromStr>::from_str(s).is_ok()
}

/// The denomination of every marketplace price.
pub open spec fn denom() -> Seq<char> {
    "usei"@
}

pub open spec fn is_digit(c: char) -> bool {
    '0' <= c <= '9'
}

/// The value of a string of decimal digits.
pub open spec fn digits_value(s: Seq<char>) -> int
    decreases s.len(),
{
    if s.len() == 0 {
        0
    } else {
        digits_value(s.drop_last()) * 10 + (s.last() as int - '0' as int)
    }
}

/// Every character is a decimal digit.
pub open spec fn all_digits(s: Seq<char>) -> bool {
    forall|i: int| 0 <= i < s.len() ==> is_digit(#[trigger] s[i])
}

/// The text after an optional leading sign.
pub open spec fn unsigned_part(s: Seq<char>) -> Seq<char> {
    if s.len() > 0 && (s[0] == '-' || s[0] == '+') {
        s.drop_first()
    } else {
        s
    }
}

proof fn lemma_digits_monotone(s: Seq<char>, k: int)
    requires
        0 <= k <= s.len(),
        forall|i: int| 0 <= i < s.len() ==> is_digit(#[trigger] s[i]),
    ensures
        digits_value(s.subrange(0, k)) <= digits_value(s),
        0 <= digits_value(s.subrange(0, k)),
    decreases s.len() - k,
{
    if k < s.len() {
        let t = s.subrange(0, k + 1);
        assert(t.drop_last() =~= s.subrange(0, k));
        assert(is_digit(t.last()));
        lemma_digits_monotone(s, k + 1);
    } else {
        assert(s.subrange(0, k) =~= s);
        lemma_digits_nonneg(s);
    }
}

proof fn lemma_digits_nonneg(s: Seq<char>)
    requires
        forall|i: int| 0 <= i < s.len() ==> is_digit(#[trigger] s[i]),
    ensures
        0 <= digits_value(s),
    decreases s.len(),
{
    if s.len() > 0 {
        assert(is_digit(s.last()));
        lemma_digits_nonneg(s.drop_last());
    }
}

/// The index of the first `.` of `s` at or after `i`, or the length of `s`.
pub open spec fn dot_from(s: Seq<char>, i: int) -> int
    decreases s.len() - i,
{
    if i >= s.len() {
        s.len() as int
    } else if s[i] == '.' {
        i
    } else {
        dot_from(s, i + 1)
    }
}

proof fn lemma_dot_from(s: Seq<char>, i: int, k: int)
    requires
        0 <= i <= k <= s.len(),
        forall|j: int| i <= j < k ==> s[j] != '.',
    ensures
        dot_from(s, i) == dot_from(s, k),
        k <= dot_from(s, k) <= s.len(),
    decreases k - i,
{
    if i < k {
        lemma_dot_from(s, i + 1, k);
    } else {
        lemma_dot_bounds(s, k);
    }
}

proof fn lemma_dot_bounds(s: Seq<char>, i: int)
    requires
        0 <= i <= s.len(),
    ensures
        i <= dot_from(s, i) <= s.len(),
    decreases s.len() - i,
{
    if i < s.len() && s[i] != '.' {
        lemma_dot_bounds(s, i + 1);
    }
}

/// Plain decimal text: an optional sign, one or more digits, and optionally
/// a point followed by one or more digits.
pub open spec fn is_plain_decimal(s: Seq<char>) -> bool {
    let u = unsigned_part(s);
    let d = dot_from(u, 0);
    &&& d > 0
    &&& all_digits(u.subrange(0, d))
    &&& (d == u.len() || (d + 1 < u.len() && all_digits(u.subrange(d + 1, u.len() as int))))
}

/// The digits before the point.
pub open spec fn integer_part(s: Seq<char>) -> Seq<char> {
    let u = unsigned_part(s);
    u.subrange(0, dot_from(u, 0))
}

/// The loyalty points of a sale at `price`: the whole units of the price
/// divided by one million (rounding toward zero), where that fits an `i32`.
pub open spec fn sale_points(price: Seq<char>) -> Option<i32> {
    let q = digits_value(integer_part(price)) / 1_000_000;
    let p = if price[0] == '-' {
        -q
    } else {
        q
    };
    if is_plain_decimal(price) && i32::MIN <= p <= i32::MAX {
        Some(p as i32)
    } else {
        None
    }
}

/// The loyalty points for a sale price written as plain decimal text.
pub fn loyalty_points(price: &str) -> (r: Option<i32>)
    ensures
        r == sale_points(price@),
{
    let n = price.unicode_len();
    if n == 0 {
        return None;
    }
    let first = price.get_char(0);
    let neg = first == '-';
    let start: usize = if first == '-' || first == '+' {
        1
    } else {
        0
    };
    let ghost u = unsigned_part(price@);
    assert(u =~= price@.subrange(start as int, n as int));
    let mut acc: u64 = 0;
    let mut i: usize = start;
    proof {
        lemma_dot_bounds(u, 0);
    }
    while i < n && price.get_char(i) != '.'
        invariant
            n == price@.len(),
            n > 0,
            neg == (price@[0] == '-'),
            start <= i <= n,
            u == price@.subrange(start as int, n as int),
            u == unsigned_part(price@),
            forall|j: int| start <= j < i ==> is_digit(#[trigger] price@[j]),
            acc == digits_value(price@.subrange(start as int, i as int)),
            acc <= 2147483648999999,
            dot_from(u, 0) == dot_from(u, i - start),
        decreases n - i,
    {
        let c = price.get_char(i);
        let ghost prev = price@.subrange(start as int, i as int);
        let ghost next = price@.subrange(start as int, i + 1);
        assert(next.drop_last() =~= prev);
        proof {
            assert(u[i - start] == c);
            lemma_dot_from(u, i - start, i - start + 1);
        }
        if !('0' <= c && c <= '9') {
            proof {
                assert(u.subrange(0, dot_from(u, 0))[i - start] == c);
            }
            return None;
        }
        let v = acc * 10 + (c as u32 - '0' as u32) as u64;
        if v > 2147483648999999 {
            proof {
                if is_plain_decimal(price@) {
                    let d = dot_from(u, 0);
                    let ip = u.subrange(0, d);
                    assert(next =~= ip.subrange(0, i + 1 - start));
                    lemma_digits_monotone(ip, i + 1 - start);
                    assert(digits_value(ip) / 1_000_000 >= 2147483649) by (nonlinear_arith)
                        requires
                            digits_value(ip) >= 2147483649000000,
                    ;
                }
            }
            return None;
        }
        acc = v;
        i = i + 1;
    }
    proof {
        lemma_dot_from(u, i - start, i - start);
        if i < n {
            assert(u[i - start] == '.');
        }
        assert(dot_from(u, 0) == i - start);
        assert(u.subrange(0, i - start) =~= price@.subrange(start as int, i as int));
        assert forall|j: int| 0 <= j < i - start implies is_digit(#[trigger] u.subrange(0, i - start)[j]) by {
            assert(u.subrange(0, i - start)[j] == price@[start + j]);
        }
    }
    if i == start {
        return None;
    }
    if i < n {
        if i + 1 == n {
            return None;
        }
        let mut j: usize = i + 1;
        while j < n
            invariant
                n == price@.len(),
                start <= i < n,
                i + 1 <= j <= n,
                u == price@.subrange(start as int, n as int),
                u == unsigned_part(price@),
                dot_from(u, 0) == i - start,
                n > 0,
                neg == (price@[0] == '-'),
                acc == digits_value(u.subrange(0, i - start)),
                acc <= 2147483648999999,
                all_digits(u.subrange(0, i - start)),
                i > start,
                forall|k: int| i + 1 <= k < j ==> is_digit(#[trigger] price@[k]),
            decreases n - j,
        {
            let c = price.get_char(j);
            if !('0' <= c && c <= '9') {
                proof {
                    assert(u.subrange(i - start + 1, u.len() as int)[j - i - 1] == c);
                }
                return None;
            }
            j = j + 1;
        }
        proof {
            assert forall|k: int| 0 <= k < u.len() - (i - start + 1) implies is_digit(
                #[trigger] u.subrange(i - start + 1, u.len() as int)[k],
            ) by {
                assert(u.subrange(i - start + 1, u.len() as int)[k] == price@[i + 1 + k]);
            }
        }
    }
    let q = acc / 1_000_000;
    if neg {
        Some(-(q as i64) as i32)
    } else if q <= 2147483647 {
        Some(q as i32)
    } else {
        None
    }
}

} // verus!

verus! {

pub open spec fn is_activity(
    w: Write,
    nft_id: i32,
    kind: ActivityKind,
    price: Seq<char>,
    seller: Option<Seq<char>>,
    buyer: Option<Seq<char>>,
    tx_hash: Seq<char>,
    at: i64,
) -> bool {
    &&& w is InsertActivity
    &&& w->InsertActivity_0.nft_id == nft_id
    &&& w->InsertActivity_0.kind == kind
    &&& w->InsertActivity_0.price@ == price
    &&& w->InsertActivity_0.denom@ == denom()
    &&& opt_text(w->InsertActivity_0.seller_address) == seller
    &&& opt_text(w->InsertActivity_0.buyer_address) == buyer
    &&& w->InsertActivity_0.tx_hash@ == tx_hash
    &&& w->InsertActivity_0.created_at == at
}

pub open spec fn is_point(w: Write, wallet: Seq<char>, kind: PointKind, point: i32, at: i64) -> bool {
    &&& w is InsertPoint
    &&& w->InsertPoint_0.wallet_address@ == wallet
    &&& w->InsertPoint_0.kind == kind
    &&& w->InsertPoint_0.point == point
    &&& w->InsertPoint_0.created_at == at
}

/// The writes of a completed sale, in order: remove the listing, record the
/// sale activity and the ledger entry, and credit buyer and seller.
pub open spec fn is_sale_batch(
    ws: Seq<Write>,
    nft_id: i32,
    price: Seq<char>,
    seller: Seq<char>,
    buyer: Seq<char>,
    collection_address: Seq<char>,
    tx_hash: Seq<char>,
    at: i64,
    point: i32,
) -> bool {
    &&& ws.len() == 5
    &&& ws[0] == Write::DeleteListing(nft_id)
    &&& is_activity(ws[1], nft_id, ActivityKind::Sale, price, Some(seller), Some(buyer), tx_hash, at)
    &&& ws[2] is InsertLedger
    &&& ws[2]->InsertLedger_0.buyer_address@ == buyer
    &&& ws[2]->InsertLedger_0.seller_address@ == seller
    &&& ws[2]->InsertLedger_0.collection_address@ == collection_address
    &&& ws[2]->InsertLedger_0.volume@ == price
    &&& ws[2]->InsertLedger_0.tx_hash@ == tx_hash
    &&& ws[2]->InsertLedger_0.created_at == at
    &&& is_point(ws[3], buyer, PointKind::Buy, point, at)
    &&& is_point(ws[4], seller, PointKind::Sell, point, at)
}

/// The writes that record a completed sale of a listed NFT. The price must
/// be decimal text; each side is credited the whole units of the price
/// divided by one million, which must fit the points column.
pub fn sale_writes(
    listing: &ListingRow,
    buyer: &String,
    collection_address: &String,
    tx_hash: &String,
    now: i64,
) -> (r: Result<Vec<Write>, HandlerError>)
    ensures
        !is_decimal_text(listing.price@) ==> r is Err && r->Err_0 is Query,
        is_decimal_text(listing.price@) && sale_points(listing.price@) is None ==> r is Err
            && r->Err_0 is Query,
        is_decimal_text(listing.price@) && sale_points(listing.price@) is Some ==> r is Ok
            && is_sale_batch(
            r->Ok_0@,
            listing.nft_id,
            listing.price@,
            listing.seller_address@,
            buyer@,
            collection_address@,
            tx_hash@,
            now,
            sale_points(listing.price@)->Some_0,
        ),
{
    if !parses_as_decimal(listing.price.as_str()) {
        return Err(HandlerError::Query(String::from_str("price is not a decimal")));
    }
    let point = match loyalty_points(listing.price.as_str()) {
        Some(p) => p,
        None => return Err(HandlerError::Query(String::from_str("loyalty points of the price do not fit"))),
    };
    let mut ws: Vec<Write> = Vec::new();
    ws.push(Write::DeleteListing(listing.nft_id));
    ws.push(
        Write::InsertActivity(
            NewActivity {
                nft_id: listing.nft_id,
                kind: ActivityKind::Sale,
                price: listing.price.clone(),
                denom: String::from_str("usei"),
                seller_address: Some(listing.seller_address.clone()),
                buyer_address: Some(buyer.clone()),
                tx_hash: tx_hash.clone(),
                created_at: now,
            },
        ),
    );
    ws.push(
        Write::InsertLedger(
            NewLedgerEntry {
                buyer_address: buyer.clone(),
                seller_address: listing.seller_address.clone(),
                collection_address: collection_address.clone(),
                volume: listing.price.clone(),
                tx_hash: tx_hash.clone(),
                created_at: now,
            },
        ),
    );
    ws.push(
        Write::InsertPoint(
            NewPoint {
                wallet_address: buyer.clone(),
                kind: PointKind::Buy,
                point,
                created_at: now,
            },
        ),
    );
    ws.push(
        Write::InsertPoint(
            NewPoint {
                wallet_address: listing.seller_address.clone(),
                kind: PointKind::Sell,
                point,
                created_at: now,
            },
        ),
    );
    proof {
        reveal_strlit("usei");
    }
    Ok(ws)
}

} // verus!

verus! {

/// The writes that record a new marketplace listing: the listing row and a
/// "list" activity, both at the auction's first price and creation time.
pub fn listing_writes(
    nft_id: i32,
    collection_address: &String,
    owner: &String,
    auction: &PalletAuction,
    tx_hash: &String,
) -> (r: Result<Vec<Write>, HandlerError>)
    ensures
        auction.prices@.len() == 0 ==> r is Err && r->Err_0 is Query,
        auction.prices@.len() > 0 && !is_decimal_text(auction.prices@[0].amount@) ==> r is Err
            && r->Err_0 is Query,
        auction.prices@.len() > 0 && is_decimal_text(auction.prices@[0].amount@) ==> {
            &&& r is Ok
            &&& r->Ok_0@.len() == 2
            &&& r->Ok_0@[0] is InsertListing
            &&& r->Ok_0@[0]->InsertListing_0.nft_id == nft_id
            &&& r->Ok_0@[0]->InsertListing_0.collection_address@ == collection_address@
            &&& r->Ok_0@[0]->InsertListing_0.price@ == auction.prices@[0].amount@
            &&& r->Ok_0@[0]->InsertListing_0.denom@ == denom()
            &&& r->Ok_0@[0]->InsertListing_0.created_at == auction.created_at as i64
            &&& r->Ok_0@[0]->InsertListing_0.expiration_time == auction.expiration_time as i32
            &&& r->Ok_0@[0]->InsertListing_0.seller_address@ == owner@
            &&& r->Ok_0@[0]->InsertListing_0.tx_hash@ == tx_hash@
            &&& is_activity(
                r->Ok_0@[1],
                nft_id,
                ActivityKind::List,
                auction.prices@[0].amount@,
                Some(owner@),
                None,
                tx_hash@,
                auction.created_at as i64,
            )
        },
{
    if auction.prices.len() == 0 {
        return Err(HandlerError::Query(String::from_str("can not parse pallet listing price")));
    }
    let amount = &auction.prices[0].amount;
    if !parses_as_decimal(amount.as_str()) {
        return Err(HandlerError::Query(String::from_str("price is not a decimal")));
    }
    let created_at = auction.created_at as i64;
    let expiration = auction.expiration_time as i32;
    let mut ws: Vec<Write> = Vec::new();
    ws.push(
        Write::InsertListing(
            NewListing {
                nft_id,
                collection_address: collection_address.clone(),
                price: amount.clone(),
                denom: String::from_str("usei"),
                created_at,
                expiration_time: expiration,
                seller_address: owner.clone(),
                tx_hash: tx_hash.clone(),
            },
        ),
    );
    ws.push(
        Write::InsertActivity(
            NewActivity {
                nft_id,
                kind: ActivityKind::List,
                price: amount.clone(),
                denom: String::from_str("usei"),
                seller_address: Some(owner.clone()),
                buyer_address: None,
                tx_hash: tx_hash.clone(),
                created_at,
            },
        ),
    );
    Ok(ws)
}

/// The writes that withdraw a listing: remove it and record a "delist"
/// activity at the listed price.
pub fn delist_writes(listing: &ListingRow, tx_hash: &String, now: i64) -> (r: Vec<Write>)
    ensures
        r@.len() == 2,
        r@[0] == Write::DeleteListing(listing.nft_id),
        is_activity(
            r@[1],
            listing.nft_id,
            ActivityKind::Delist,
            listing.price@,
            Some(listing.seller_address@),
            None,
            tx_hash@,
            now,
        ),
{
    let mut ws: Vec<Write> = Vec::new();
    ws.push(Write::DeleteListing(listing.nft_id));
    ws.push(
        Write::InsertActivity(
            NewActivity {
                nft_id: listing.nft_id,
                kind: ActivityKind::Delist,
                price: listing.price.clone(),
                denom: String::from_str("usei"),
                seller_address: Some(listing.seller_address.clone()),
                buyer_address: None,
                tx_hash: tx_hash.clone(),
                created_at: now,
            },
        ),
    );
    ws
}

/// The stored form of one metadata trait: its name falls back from
/// `trait_type` to `type` to "unknown", its value to "unknown".
pub open spec fn is_trait_row(row: TraitRow, a: NftAttribute) -> bool {
    &&& row.attribute@ == (match a.trait_type {
        Some(t) => t@,
        None => match a.kind {
            Some(k) => k@,
            None => "unknown"@,
        },
    })
    &&& opt_text(row.display_type) == opt_text(a.display_type)
    &&& row.value@ == (match a.value {
        Some(v) => v@,
        None => "unknown"@,
    })
}

fn clone_text(o: &Option<String>) -> (r: Option<String>)
    ensures
        opt_text(r) == opt_text(*o),
{
    match o {
        Some(s) => Some(s.clone()),
        None => None,
    }
}

/// The trait rows of an NFT, one per metadata attribute, in order.
pub fn trait_rows(attributes: &Option<Vec<NftAttribute>>) -> (r: Vec<TraitRow>)
    ensures
        match attributes {
            Some(a) => r@.len() == a@.len() && forall|i: int|
                0 <= i < a@.len() ==> is_trait_row(#[trigger] r@[i], a@[i]),
            None => r@.len() == 0,
        },
{
    let mut rows: Vec<TraitRow> = Vec::new();
    match attributes {
        Some(a) => {
            let mut i: usize = 0;
            while i < a.len()
                invariant
                    0 <= i <= a@.len(),
                    rows@.len() == i,
                    forall|j: int| 0 <= j < i ==> is_trait_row(#[trigger] rows@[j], a@[j]),
                decreases a@.len() - i,
            {
                let t = &a[i];
                let attribute = match &t.trait_type {
                    Some(s) => s.clone(),
                    None => match &t.kind {
                        Some(k) => k.clone(),
                        None => String::from_str("unknown"),
                    },
                };
                let value = match &t.value {
                    Some(v) => v.clone(),
                    None => String::from_str("unknown"),
                };
                rows.push(TraitRow { attribute, display_type: clone_text(&t.display_type), value });
                i = i + 1;
            }
        },
        None => {},
    }
    rows
}

/// The royalty carried into a new collection: absent without an extension,
/// zero where the extension names none.
pub open spec fn royalty_spec(extension: Option<Extension>) -> Option<Seq<char>> {
    match extension {
        Some(ex) => match ex.royalty_percentage {
            Some(p) => Some(p@),
            None => Some("0"@),
        },
        None => None,
    }
}

pub fn royalty_of(extension: &Option<Extension>) -> (r: Option<String>)
    ensures
        opt_text(r) == royalty_spec(*extension),
{
    match extension {
        Some(ex) => match &ex.royalty_percentage {
            Some(p) => Some(p.clone()),
            None => Some(String::from_str("0")),
        },
        None => None,
    }
}

/// The collection row for a contract seen for the first time.
pub fn new_collection(
    address: &String,
    info: ContractInfo,
    supply: &Supply,
    metadata: CollectionMetadata,
    royalty: Option<String>,
) -> (r: NewCollection)
    ensures
        r.address@ == address@,
        r.name == info.name,
        r.symbol == info.symbol,
        r.supply == supply.count as i32,
        r.metadata == metadata,
        r.royalty == royalty,
{
    NewCollection {
        address: address.clone(),
        name: info.name,
        symbol: info.symbol,
        supply: supply.count as i32,
        metadata,
        royalty,
    }
}

/// The NFT row for a token seen for the first time.
pub fn new_nft(key: NftKey, info: &NftInfo, metadata: NftMetadata, owner: Option<String>) -> (r:
    NewNft)
    ensures
        r.key == key,
        r.token_uri@ == info.token_uri@,
        r.name == metadata.name,
        r.description == metadata.description,
        r.image == metadata.image,
        r.owner_address == owner,
        match metadata.attributes {
            Some(a) => r.traits@.len() == a@.len() && forall|i: int|
                0 <= i < a@.len() ==> is_trait_row(#[trigger] r.traits@[i], a@[i]),
            None => r.traits@.len() == 0,
        },
{
    let traits = trait_rows(&metadata.attributes);
    NewNft {
        key,
        token_uri: info.token_uri.clone(),
        name: metadata.name,
        description: metadata.description,
        image: metadata.image,
        owner_address: owner,
        traits,
    }
}

} // verus!

verus! {

/// The `u32` that a non-empty string of decimal digits denotes, where it fits.
pub open spec fn u32_text_value(s: Seq<char>) -> Option<u32> {
    if s.len() > 0 && all_digits(s) && digits_value(s) <= u32::MAX {
        Some(digits_value(s) as u32)
    } else {
        None
    }
}

/// Parses a `u32` written as decimal digits only.
pub fn parse_u32(s: &str) -> (r: Option<u32>)
    ensures
        r == u32_text_value(s@),
{
    let n = s.unicode_len();
    if n == 0 {
        return None;
    }
    let mut acc: u64 = 0;
    let mut i: usize = 0;
    while i < n
        invariant
            n == s@.len(),
            i <= n,
            forall|j: int| 0 <= j < i ==> is_digit(#[trigger] s@[j]),
            acc == digits_value(s@.subrange(0, i as int)),
            acc <= 4294967295,
        decreases n - i,
    {
        let c = s.get_char(i);
        let ghost prev = s@.subrange(0, i as int);
        let ghost next = s@.subrange(0, i + 1);
        assert(next.drop_last() =~= prev);
        if !('0' <= c && c <= '9') {
            assert(!is_digit(s@[i as int]));
            return None;
        }
        let v = acc * 10 + (c as u32 - '0' as u32) as u64;
        if v > 4294967295 {
            proof {
                if all_digits(s@) {
                    lemma_digits_monotone(s@, i + 1);
                }
            }
            return None;
        }
        acc = v;
        i = i + 1;
    }
    assert(s@.subrange(0, n as int) =~= s@);
    Some(acc as u32)
}

} // verus!
