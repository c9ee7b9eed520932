use vstd::prelude::*;
use crate::envelope::{decoded_text, to_utf8};
use crate::model::{str_eq, Attribute, Event};

verus! {

/// The protocol a stream belongs to; recorded with every traced event.
#[derive(PartialEq, Eq, Structural, Clone, Copy, Debug)]
pub enum StreamContext {
    Cw721,
    Pallet,
}

/// Actions of the NFT-transfer protocol that the indexer acts on.
#[derive(PartialEq, Eq, Structural, Clone, Copy, Debug)]
pub enum Cw721Action {
    Mint,
    TransferNft,
    SendNft,
}

/// Event types of the auction marketplace that the indexer acts on.
#[derive(PartialEq, Eq, Structural, Clone, Copy, Debug)]
pub enum PalletAction {
    CreateAuction,
    BuyNow,
    CancelAuction,
}

pub open spec fn cw721_action_of(s: Seq<char>) -> Option<Cw721Action> {
    if s == "mint"@ {
        Some(Cw721Action::Mint)
    } else if s == "transfer_nft"@ {
        Some(Cw721Action::TransferNft)
    } else if s == "send_nft"@ {
        Some(Cw721Action::SendNft)
    } else {
        None
    }
}

pub open spec fn pallet_action_of(s: Seq<char>) -> Option<PalletAction> {
    if s == "wasm-create_auction"@ {
        Some(PalletAction::CreateAuction)
    } else if s == "wasm-buy_now"@ {
        Some(PalletAction::BuyNow)
    } else if s == "wasm-cancel_auction"@ {
        Some(PalletAction::CancelAuction)
    } else {
        None
    }
}

impl Cw721Action {
    /// Parses the value of an `action` attribute; `None` for any other action.
    pub fn from_text(s: &str) -> (r: Option<Cw721Action>)
        ensures
            r == cw721_action_of(s@),
    {
        if str_eq(s, "mint") {
            Some(Cw721Action::Mint)
        } else if str_eq(s, "transfer_nft") {
            Some(Cw721Action::TransferNft)
        } else if str_eq(s, "send_nft") {
            Some(Cw721Action::SendNft)
        } else {
            None
        }
    }
}

impl PalletAction {
    /// Parses a marketplace event type; `None` for any other type.
    pub fn from_event_type(s: &str) -> (r: Option<PalletAction>)
        ensures
            r == pallet_action_of(s@),
    {
        if str_eq(s, "wasm-create_auction") {
            Some(PalletAction::CreateAuction)
        } else if str_eq(s, "wasm-buy_now") {
            Some(PalletAction::BuyNow)
        } else if str_eq(s, "wasm-cancel_auction") {
            Some(PalletAction::CancelAuction)
        } else {
            None
        }
    }
}

/// An attribute that names a recognised NFT-transfer action.
pub open spec fn is_cw721_action_attribute(a: Attribute) -> bool {
    a.key@ == "action"@ && cw721_action_of(a.value@) is Some
}

/// A `wasm` event carrying at least one recognised `action` attribute.
pub open spec fn is_cw721_event(e: Event) -> bool {
    &&& e.kind@ == "wasm"@
    &&& exists|i: int|
        0 <= i < e.attributes@.len() && is_cw721_action_attribute(#[trigger] e.attributes@[i])
}

/// An event whose type is one of the three marketplace actions.
pub open spec fn is_pallet_event(e: Event) -> bool {
    pallet_action_of(e.kind@) is Some
}

fn cw721_event(e: &Event) -> (r: bool)
    ensures
        r == is_cw721_event(*e),
{
    if !str_eq(e.kind.as_str(), "wasm") {
        return false;
    }
    let mut i: usize = 0;
    while i < e.attributes.len()
        invariant
            0 <= i <= e.attributes@.len(),
            e.kind@ == "wasm"@,
            forall|j: int| 0 <= j < i ==> !is_cw721_action_attribute(#[trigger] e.attributes@[j]),
        decreases e.attributes@.len() - i,
    {
        let a = &e.attributes[i];
        if str_eq(a.key.as_str(), "action") && Cw721Action::from_text(a.value.as_str()).is_some() {
            assert(is_cw721_action_attribute(e.attributes@[i as int]));
            return true;
        }
        i = i + 1;
    }
    false
}

/// Keeps, in order, the events of `events` that belong to the stream of `context`.
fn retain_events(events: Vec<Event>, context: StreamContext) -> (r: Vec<Event>)
    ensures
        r@ == events@.filter(|e: Event| context_event(context, e)),
{
    let ghost orig = events@;
    let ghost p = |e: Event| context_event(context, e);
    let mut rest = events;
    let mut out: Vec<Event> = Vec::new();
    let ghost k: int = 0;
    while rest.len() > 0
        invariant
            0 <= k <= orig.len(),
            rest@ == orig.subrange(k, orig.len() as int),
            out@ == orig.subrange(0, k).filter(p),
            p == (|e: Event| context_event(context, e)),
        decreases rest@.len(),
    {
        let e = rest.remove(0);
        proof {
            assert(orig.subrange(0, k + 1).drop_last() =~= orig.subrange(0, k));
            assert(orig.subrange(0, k + 1).last() == e);
            reveal(Seq::filter);
        }
        let keep = match context {
            StreamContext::Cw721 => cw721_event(&e),
            StreamContext::Pallet => PalletAction::from_event_type(e.kind.as_str()).is_some(),
        };
        if keep {
            out.push(e);
        }
        proof {
            k = k + 1;
            assert(rest@ =~= orig.subrange(k, orig.len() as int));
        }
    }
    proof {
        assert(orig.subrange(0, k) =~= orig);
    }
    out
}

/// Whether an event belongs to the stream of `context`.
pub open spec fn context_event(context: StreamContext, e: Event) -> bool {
    match context {
        StreamContext::Cw721 => is_cw721_event(e),
        StreamContext::Pallet => is_pallet_event(e),
    }
}

/// The NFT-transfer events of a transaction: `wasm` events with a recognised action.
pub fn retrieve_cw721_events(events: Vec<Event>) -> (r: Vec<Event>)
    ensures
        r@ == events@.filter(|e: Event| is_cw721_event(e)),
{
    let r = retain_events(events, StreamContext::Cw721);
    assert((|e: Event| context_event(StreamContext::Cw721, e)) =~= (|e: Event| is_cw721_event(e)));
    r
}

/// The marketplace events of a transaction: create-auction, buy-now and cancel-auction.
pub fn retrieve_pallet_events(events: Vec<Event>) -> (r: Vec<Event>)
    ensures
        r@ == events@.filter(|e: Event| is_pallet_event(e)),
{
    let r = retain_events(events, StreamContext::Pallet);
    assert((|e: Event| context_event(StreamContext::Pallet, e)) =~= (|e: Event| is_pallet_event(e)));
    r
}

/// The action named by the first `action` attribute, or empty where there is none.
pub open spec fn action_text(e: Event) -> Seq<char> {
    match crate::model::lookup(e.attributes@, "action"@) {
        Some(v) => v,
        None => Seq::empty(),
    }
}

/// The attribute key under which the marketplace contract reports the buyer,
/// spelled exactly as the contract emits it.
pub open spec fn buyer_key() -> Seq<char> {
    "recipent"@
}

/// The raw value of the first attribute whose decoded key is the buyer key.
pub open spec fn buyer_attribute(attrs: Seq<Attribute>) -> Option<Seq<char>>
    decreases attrs.len(),
{
    if attrs.len() == 0 {
        None
    } else if decoded_text(attrs[0].key@) == buyer_key() {
        Some(attrs[0].value@)
    } else {
        buyer_attribute(attrs.drop_first())
    }
}

/// The buyer of a sale: taken from the first `wasm` event that carries the buyer key.
pub open spec fn buyer_of(events: Seq<Event>) -> Option<Seq<char>>
    decreases events.len(),
{
    if events.len() == 0 {
        None
    } else if events[0].kind@ == "wasm"@ && buyer_attribute(events[0].attributes@) is Some {
        buyer_attribute(events[0].attributes@)
    } else {
        buyer_of(events.drop_first())
    }
}

proof fn lemma_buyer_attribute_skip(attrs: Seq<Attribute>, i: int)
    requires
        0 <= i <= attrs.len(),
        forall|j: int| 0 <= j < i ==> decoded_text(#[trigger] attrs[j].key@) != buyer_key(),
    ensures
        buyer_attribute(attrs) == buyer_attribute(attrs.subrange(i, attrs.len() as int)),
    decreases i,
{
    if i > 0 {
        assert(attrs.drop_first().subrange(i - 1, attrs.len() - 1) =~= attrs.subrange(
            i,
            attrs.len() as int,
        ));
        assert(decoded_text(attrs[0].key@) != buyer_key());
        lemma_buyer_attribute_skip(attrs.drop_first(), i - 1);
    } else {
        assert(attrs.subrange(0, attrs.len() as int) =~= attrs);
    }
}

proof fn lemma_buyer_of_skip(events: Seq<Event>, i: int)
    requires
        0 <= i <= events.len(),
        forall|j: int|
            0 <= j < i ==> !(#[trigger] events[j].kind@ == "wasm"@ && buyer_attribute(
                events[j].attributes@,
            ) is Some),
    ensures
        buyer_of(events) == buyer_of(events.subrange(i, events.len() as int)),
    decreases i,
{
    if i > 0 {
        assert(events.drop_first().subrange(i - 1, events.len() - 1) =~= events.subrange(
            i,
            events.len() as int,
        ));
        assert(!(events[0].kind@ == "wasm"@ && buyer_attribute(events[0].attributes@) is Some));
        assert forall|j: int| 0 <= j < i - 1 implies !(#[trigger] events.drop_first()[j].kind@
            == "wasm"@ && buyer_attribute(events.drop_first()[j].attributes@) is Some) by {
            assert(events.drop_first()[j] == events[j + 1]);
        }
        lemma_buyer_of_skip(events.drop_first(), i - 1);
    } else {
        assert(events.subrange(0, events.len() as int) =~= events);
    }
}

fn buyer_in(attrs: &Vec<Attribute>) -> (r: Option<String>)
    ensures
        match buyer_attribute(attrs@) {
            Some(v) => r is Some && r->Some_0@ == v,
            None => r is None,
        },
{
    let mut i: usize = 0;
    while i < attrs.len()
        invariant
            0 <= i <= attrs@.len(),
            forall|j: int| 0 <= j < i ==> decoded_text(#[trigger] attrs@[j].key@) != buyer_key(),
        decreases attrs@.len() - i,
    {
        let key = to_utf8(attrs[i].key.as_str());
        if str_eq(key.as_str(), "recipent") {
            proof {
                lemma_buyer_attribute_skip(attrs@, i as int);
                assert(attrs@.subrange(i as int, attrs@.len() as int)[0] == attrs@[i as int]);
            }
            return Some(attrs[i].value.clone());
        }
        i = i + 1;
    }
    proof {
        lemma_buyer_attribute_skip(attrs@, i as int);
    }
    None
}

/// The buyer address of a sale transaction: the raw value of the first
/// attribute whose decoded key is `recipent`, in the first `wasm` event that has one.
pub fn find_buyer_address(events: &Vec<Event>) -> (r: Option<String>)
    ensures
        match buyer_of(events@) {
            Some(v) => r is Some && r->Some_0@ == v,
            None => r is None,
        },
{
    let mut i: usize = 0;
    while i < events.len()
        invariant
            0 <= i <= events@.len(),
            forall|j: int|
                0 <= j < i ==> !(#[trigger] events@[j].kind@ == "wasm"@ && buyer_attribute(
                    events@[j].attributes@,
                ) is Some),
        decreases events@.len() - i,
    {
        let e = &events[i];
        if str_eq(e.kind.as_str(), "wasm") {
            let found = buyer_in(&e.attributes);
            if found.is_some() {
                proof {
                    lemma_buyer_of_skip(events@, i as int);
                    assert(events@.subrange(i as int, events@.len() as int)[0] == events@[i as int]);
                }
                return found;
            }
        }
        i = i + 1;
    }
    proof {
        lemma_buyer_of_skip(events@, i as int);
    }
    None
}

} // verus!
