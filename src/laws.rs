//! Properties that hold across calls: of a job's whole run, of the effect of
//! its commands on stored state, and of storage transactions.
use vstd::prelude::*;
use crate::handler::{no_commit, trace_count, traces_agree, Command, Effect, Job};
use crate::model::HandlerError;
use crate::reconcile::is_sale_batch;
use crate::store::{opt_text, NftKey, PointKind, Write};

verus! {

/// Every handled event, whether it succeeded or failed, leaves exactly one
/// trace record; the record names the job's protocol and reports a failure
/// exactly when the job failed.
pub proof fn lemma_completed_job_traced_once(job: Job)
    requires
        job.wf(),
        job.stage is Completed,
    ensures
        trace_count(job.history@) == 1,
        traces_agree(job.history@, job.context, job.outcome->Some_0 is Err),
{
}

/// An event that needed no change (among them a buy-now or a cancellation
/// of an NFT without a stored listing, and an auction the chain reports as
/// not live) issues no storage transaction, so it writes no listing,
/// activity, ledger or loyalty-point row.
pub proof fn lemma_skipped_job_writes_nothing(job: Job)
    requires
        job.wf(),
        job.outcome == Some(Ok::<Effect, HandlerError>(Effect::Skipped)),
    ensures
        no_commit(job.history@),
{
}

/// The stored NFT rows, by natural key: id and owner.
pub type NftTable = Map<(Seq<char>, Seq<char>), (i32, Option<Seq<char>>)>;

pub open spec fn key_of(k: NftKey) -> (Seq<char>, Seq<char>) {
    (k.token_address@, k.token_id@)
}

/// What a job's command does to the NFT rows. An owner update changes the
/// owner of an existing row; an insert adds a row under `new_id` unless one
/// with the same key exists (a conflicting insert is ignored); every other
/// command leaves the rows alone.
pub open spec fn nft_effect(t: NftTable, c: Command, new_id: i32) -> NftTable {
    match c {
        Command::UpdateOwner(k, Some(o)) => if t.contains_key(key_of(k)) {
            t.insert(key_of(k), (t[key_of(k)].0, Some(o@)))
        } else {
            t
        },
        Command::InsertNft(n) => if t.contains_key(key_of(n.key)) {
            t
        } else {
            t.insert(key_of(n.key), (new_id, opt_text(n.owner_address)))
        },
        _ => t,
    }
}

/// Finding-or-creating the same NFT twice leaves one row. The first run
/// inserts it (or finds it already there); the second run, which finds the
/// row, issues at most an owner update, and that keeps the set of rows and
/// the row's id and changes only its owner. A second insert of the key, as a
/// racing run would issue, changes nothing.
pub proof fn lemma_find_or_create_idempotent(
    t: NftTable,
    first: Command,
    second: Command,
    first_id: i32,
    second_id: i32,
)
    requires
        first is InsertNft,
        second is UpdateOwner,
        key_of(second->UpdateOwner_0) == key_of(first->InsertNft_0.key),
    ensures
        ({
            let k = key_of(first->InsertNft_0.key);
            let t1 = nft_effect(t, first, first_id);
            let t2 = nft_effect(t1, second, second_id);
            &&& t1.contains_key(k)
            &&& t2.dom() == t1.dom()
            &&& t2[k].0 == t1[k].0
            &&& t2[k].1 == match second->UpdateOwner_1 {
                Some(o) => Some(o@),
                None => t1[k].1,
            }
            &&& forall|other: (Seq<char>, Seq<char>)|
                other != k && #[trigger] t1.contains_key(other) ==> t2[other] == t1[other]
            &&& nft_effect(t1, first, second_id) == t1
        }),
{
    let k = key_of(first->InsertNft_0.key);
    let t1 = nft_effect(t, first, first_id);
    let t2 = nft_effect(t1, second, second_id);
    assert(t2.dom() =~= t1.dom());
}

/// The marketplace rows a storage transaction can change: live listings by
/// NFT id, and the number of activity, ledger and loyalty-point rows.
pub struct MarketState {
    pub listings: Set<int>,
    pub activities: nat,
    pub ledger: nat,
    pub points: nat,
}

pub open spec fn apply_write(s: MarketState, w: Write) -> MarketState {
    match w {
        Write::InsertListing(l) => MarketState { listings: s.listings.insert(l.nft_id as int), ..s },
        Write::DeleteListing(id) => MarketState { listings: s.listings.remove(id as int), ..s },
        Write::InsertActivity(_) => MarketState { activities: s.activities + 1, ..s },
        Write::InsertLedger(_) => MarketState { ledger: s.ledger + 1, ..s },
        Write::InsertPoint(_) => MarketState { points: s.points + 1, ..s },
    }
}

pub open spec fn apply_writes(s: MarketState, ws: Seq<Write>) -> MarketState
    decreases ws.len(),
{
    if ws.len() == 0 {
        s
    } else {
        apply_writes(apply_write(s, ws[0]), ws.drop_first())
    }
}

/// A storage transaction that applies `ws` in order. `failed_at` names the
/// first write that fails, if any: the writes before it have changed only
/// the transaction's working state, which is discarded, so the rows stay as
/// they were. Without a failure every write applies.
pub open spec fn commit(s: MarketState, ws: Seq<Write>, failed_at: Option<int>) -> MarketState {
    match failed_at {
        Some(i) => if 0 <= i < ws.len() {
            s
        } else {
            apply_writes(s, ws)
        },
        None => apply_writes(s, ws),
    }
}

/// The working state of a transaction just before write `i` runs.
pub open spec fn working_state(s: MarketState, ws: Seq<Write>, i: int) -> MarketState {
    apply_writes(s, ws.subrange(0, i))
}

/// A sale's writes go through one transaction. When the seller's loyalty
/// point (the last write) fails, the listing has already been deleted and
/// the activity, ledger entry and buyer's point added in the working state,
/// yet the listing stays and none of those rows appears. When no write
/// fails the listing is gone and one activity, one ledger entry and two
/// points are added.
pub proof fn lemma_sale_is_atomic(
    s: MarketState,
    ws: Seq<Write>,
    nft_id: i32,
    price: Seq<char>,
    seller: Seq<char>,
    buyer: Seq<char>,
    collection_address: Seq<char>,
    tx_hash: Seq<char>,
    at: i64,
    point: i32,
)
    requires
        is_sale_batch(ws, nft_id, price, seller, buyer, collection_address, tx_hash, at, point),
    ensures
        ws[4] is InsertPoint && ws[4]->InsertPoint_0.kind == PointKind::Sell,
        ({
            let w = working_state(s, ws, 4);
            &&& !w.listings.contains(nft_id as int)
            &&& w.activities == s.activities + 1
            &&& w.ledger == s.ledger + 1
            &&& w.points == s.points + 1
        }),
        ({
            let failed = commit(s, ws, Some(4));
            &&& failed.listings == s.listings
            &&& failed.activities == s.activities
            &&& failed.ledger == s.ledger
            &&& failed.points == s.points
        }),
        ({
            let done = commit(s, ws, None);
            &&& !done.listings.contains(nft_id as int)
            &&& done.listings == s.listings.remove(nft_id as int)
            &&& done.activities == s.activities + 1
            &&& done.ledger == s.ledger + 1
            &&& done.points == s.points + 2
        }),
{
    reveal_with_fuel(apply_writes, 6);
    let p = ws.subrange(0, 4);
    assert(p.drop_first().drop_first().drop_first().drop_first() =~= Seq::<Write>::empty());
    assert(p[0] == ws[0] && p[1] == ws[1] && p[2] == ws[2] && p[3] == ws[3]);
    assert(p.drop_first()[0] == ws[1]);
    assert(p.drop_first().drop_first()[0] == ws[2]);
    assert(p.drop_first().drop_first().drop_first()[0] == ws[3]);
    assert(ws.drop_first().drop_first().drop_first().drop_first().drop_first() =~= Seq::<
        Write,
    >::empty());
}

} // verus!
