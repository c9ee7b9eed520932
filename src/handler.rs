use vstd::prelude::*;
use crate::chain::{decode_tx_hash, tx_hash_bytes, ContractInfo, NftInfo, PalletListing, Supply};
use crate::model::{find_attribute, lookup, Event, HandlerError};
use crate::protocol::{
    action_text, buyer_of, cw721_action_of, find_buyer_address, pallet_action_of, Cw721Action,
    PalletAction, StreamContext,
};
use crate::reconcile::{
    delist_writes, denom, is_activity, is_decimal_text, is_sale_batch, is_trait_row, listing_writes,
    new_collection, new_nft, royalty_of, royalty_spec, sale_points, sale_writes,
};
use crate::store::{
    opt_text, ActivityKind, CollectionMetadata, ListingRow, NewCollection, NewNft, NftKey, NftMetadata, Write,
};

verus! {

/// What a handled event resolved to.
#[derive(PartialEq, Eq, Structural, Clone, Copy, Debug)]
pub enum JobKind {
    Cw721(Cw721Action),
    Pallet(PalletAction),
}

/// How a successfully handled event ended.
#[derive(PartialEq, Eq, Structural, Clone, Copy, Debug)]
pub enum Effect {
    /// The event changed derived state.
    Applied,
    /// The event needed no change: unknown action, no live auction, no listing.
    Skipped,
}

/// The audit record written once for every handled event.
#[derive(Debug, PartialEq, Eq)]
pub struct TraceRecord {
    pub tx_hash: String,
    pub action: String,
    pub context: StreamContext,
    pub is_failure: bool,
    pub message: Option<String>,
}

/// Off-chain and on-chain facts about a token seen for the first time.
#[derive(Debug, PartialEq, Eq)]
pub struct NftDetails {
    pub info: NftInfo,
    pub metadata: NftMetadata,
}

/// On-chain and off-chain facts about a collection seen for the first time.
#[derive(Debug, PartialEq, Eq)]
pub struct CollectionDetails {
    pub info: ContractInfo,
    pub supply: Supply,
    pub metadata: CollectionMetadata,
}

/// An operation the host performs for a job, answered by a [`Reply`].
#[derive(Debug, PartialEq, Eq)]
pub enum Command {
    /// Look up an NFT by its natural key; answered by `Nft`.
    FindNft(NftKey),
    /// Set the owner of an existing NFT; answered by `Done`.
    UpdateOwner(NftKey, Option<String>),
    /// Query the chain for the token and fetch its metadata; answered by `NftDetails`.
    FetchNftDetails(NftKey),
    /// Whether a collection row exists; answered by `Collection`.
    FindCollection(String),
    /// Fetch collection metadata, supply and contract info; answered by `CollectionDetails`.
    FetchCollectionDetails(String),
    /// Insert a collection, ignoring a duplicate; answered by `Done`.
    InsertCollection(NewCollection),
    /// Insert an NFT with its traits, or find the row a racing insert made; answered by `NftCreated`.
    InsertNft(NewNft),
    /// Ask the marketplace contract for the live listing of an NFT; answered by `ChainListing`.
    QueryListing(NftKey),
    /// Look up the stored listing of an NFT id; answered by `Listing`.
    FindListing(i32),
    /// Fetch a transaction's events by its hash digest; answered by `TxEvents`.
    FetchTx(Vec<u8>),
    /// Apply all writes in one storage transaction, or none; answered by `Done`.
    Commit(Vec<Write>),
    /// Append the trace record; any answer completes the job.
    Trace(TraceRecord),
}

/// The host's answer to a [`Command`].
#[derive(Debug, PartialEq, Eq)]
pub enum Reply {
    Nft(Option<i32>),
    Done,
    NftDetails(NftDetails),
    Collection(bool),
    CollectionDetails(CollectionDetails),
    NftCreated(i32),
    ChainListing(PalletListing),
    Listing(Option<ListingRow>),
    TxEvents(Vec<Event>),
    /// The command failed.
    Failed(HandlerError),
}

/// Where a job stands.
#[derive(Debug, PartialEq, Eq)]
pub enum Stage {
    AwaitNft,
    AwaitOwnerUpdate(i32),
    AwaitNftDetails,
    AwaitCollection(NewNft, Option<String>),
    AwaitCollectionDetails(NewNft, Option<String>),
    AwaitCollectionInsert(NewNft),
    AwaitNftInsert,
    AwaitChainListing(i32),
    AwaitDbListing(i32),
    AwaitTx(ListingRow),
    AwaitCommit,
    AwaitTrace,
    Completed,
}

/// Number of trace commands in a command history.
pub open spec fn trace_count(h: Seq<Command>) -> nat
    decreases h.len(),
{
    if h.len() == 0 {
        0
    } else {
        trace_count(h.drop_last()) + if h.last() is Trace {
            1nat
        } else {
            0nat
        }
    }
}

/// No storage transaction was issued.
pub open spec fn no_commit(h: Seq<Command>) -> bool {
    forall|i: int| 0 <= i < h.len() ==> !(#[trigger] h[i] is Commit)
}

/// Every trace command in `h` names `context` and reports `failed`.
pub open spec fn traces_agree(h: Seq<Command>, context: StreamContext, failed: bool) -> bool {
    forall|i: int|
        0 <= i < h.len() && #[trigger] h[i] is Trace ==> h[i]->Trace_0.context == context
            && h[i]->Trace_0.is_failure == failed
}

/// The trace record of a job that has ended: it names the job's
/// transaction, action and protocol, flags a failure exactly when the job
/// failed, and carries the failure's message.
pub open spec fn trace_matches(t: TraceRecord, job: Job) -> bool {
    &&& job.outcome is Some
    &&& t.tx_hash == job.tx_hash
    &&& t.action == job.action
    &&& t.context == job.context
    &&& t.is_failure == job.outcome->Some_0 is Err
    &&& job.outcome->Some_0 is Err ==> t.message is Some && t.message->Some_0@
        == job.outcome->Some_0->Err_0.message_spec()
    &&& job.outcome->Some_0 is Ok ==> t.message is None
}

pub open spec fn opt_cmd(c: Option<Command>) -> Seq<Command> {
    match c {
        Some(c) => seq![c],
        None => Seq::empty(),
    }
}

proof fn lemma_push(h: Seq<Command>, c: Command)
    ensures
        trace_count(h.push(c)) == trace_count(h) + if c is Trace {
            1nat
        } else {
            0nat
        },
{
    assert(h.push(c).drop_last() =~= h);
}

/// The handling of one event, from its first command to its trace record.
pub struct Job {
    pub context: StreamContext,
    pub kind: Option<JobKind>,
    pub tx_hash: String,
    pub action: String,
    pub key: NftKey,
    pub owner: Option<String>,
    pub now: i64,
    pub stage: Stage,
    pub outcome: Option<Result<Effect, HandlerError>>,
    /// Every command issued so far, in order.
    pub history: Ghost<Seq<Command>>,
}

fn clone_key(k: &NftKey) -> (r: NftKey)
    ensures
        r == *k,
{
    NftKey { token_address: k.token_address.clone(), token_id: k.token_id.clone() }
}

fn clone_owner(o: &Option<String>) -> (r: Option<String>)
    ensures
        r == *o,
{
    match o {
        Some(s) => Some(s.clone()),
        None => None,
    }
}

fn clone_error(e: &HandlerError) -> (r: HandlerError)
    ensures
        r == *e,
{
    match e {
        HandlerError::MissingAttribute(s) => HandlerError::MissingAttribute(s.clone()),
        HandlerError::Query(s) => HandlerError::Query(s.clone()),
        HandlerError::Persistence(s) => HandlerError::Persistence(s.clone()),
        HandlerError::Transport(s) => HandlerError::Transport(s.clone()),
        HandlerError::Decode(s) => HandlerError::Decode(s.clone()),
    }
}

impl Job {
    /// The job's invariant: a trace has been issued exactly when the job has
    /// an outcome, it agrees with that outcome, and no storage transaction
    /// stands behind an event that needed no change.
    pub open spec fn wf(&self) -> bool {
        &&& (self.outcome is Some) == (self.stage is AwaitTrace || self.stage is Completed)
        &&& self.outcome is None ==> self.kind is Some
        &&& trace_count(self.history@) == if self.outcome is Some {
            1nat
        } else {
            0nat
        }
        &&& self.outcome is Some ==> traces_agree(
            self.history@,
            self.context,
            self.outcome->Some_0 is Err,
        )
        &&& no_commit(self.history@) || self.stage is AwaitCommit || (self.outcome is Some
            && self.outcome != Some(Ok::<Effect, HandlerError>(Effect::Skipped)))
    }

    /// Whether the job has received the answer to its trace record.
    pub fn is_completed(&self) -> (r: bool)
        ensures
            r == (self.stage is Completed),
    {
        match self.stage {
            Stage::Completed => true,
            _ => false,
        }
    }

    /// Ends the job with `outcome` and issues its trace record.
    fn finish(&mut self, outcome: Result<Effect, HandlerError>) -> (r: Command)
        requires
            old(self).outcome is None,
            trace_count(old(self).history@) == 0,
            no_commit(old(self).history@) || outcome is Err || outcome == Ok::<Effect, HandlerError>(
                Effect::Applied,
            ),
        ensures
            final(self).wf(),
            final(self).history@ == old(self).history@.push(r),
            final(self).outcome == Some(outcome),
            final(self).stage is AwaitTrace,
            r is Trace,
            trace_matches(r->Trace_0, *final(self)),
            r->Trace_0.context == old(self).context,
            r->Trace_0.is_failure == outcome is Err,
            r->Trace_0.tx_hash == old(self).tx_hash,
            r->Trace_0.action == old(self).action,
            outcome is Err ==> r->Trace_0.message is Some && r->Trace_0.message->Some_0@
                == outcome->Err_0.message_spec(),
            outcome is Ok ==> r->Trace_0.message is None,
            final(self).context == old(self).context,
            final(self).kind == old(self).kind,
            final(self).tx_hash == old(self).tx_hash,
            final(self).action == old(self).action,
            final(self).key == old(self).key,
            final(self).owner == old(self).owner,
            final(self).now == old(self).now,
    {
        let message = match &outcome {
            Ok(_) => None,
            Err(e) => Some(e.message()),
        };
        let is_failure = outcome.is_err();
        let record = TraceRecord {
            tx_hash: self.tx_hash.clone(),
            action: self.action.clone(),
            context: self.context,
            is_failure,
            message,
        };
        let cmd = Command::Trace(record);
        proof {
            lemma_push(self.history@, cmd);
        }
        self.history = Ghost(self.history@.push(cmd));
        self.outcome = Some(outcome);
        self.stage = Stage::AwaitTrace;
        proof {
            let h = self.history@;
            assert forall|i: int| 0 <= i < h.len() && #[trigger] h[i] is Trace implies h[i]->Trace_0.context
                == self.context && h[i]->Trace_0.is_failure == is_failure by {
                if i < h.len() - 1 {
                    assert(h[i] == old(self).history@[i]);
                    lemma_no_trace_before(old(self).history@, i);
                }
            }
            assert(h.drop_last() =~= old(self).history@);
            if no_commit(old(self).history@) {
                assert forall|i: int| 0 <= i < h.len() implies !(#[trigger] h[i] is Commit) by {
                    if i < h.len() - 1 {
                        assert(h[i] == old(self).history@[i]);
                    }
                }
            }
        }
        cmd
    }

    /// Issues `cmd` and moves to `stage`, keeping the job open.
    fn issue(&mut self, cmd: Command, stage: Stage) -> (r: Command)
        requires
            old(self).outcome is None,
            trace_count(old(self).history@) == 0,
            !(cmd is Trace),
            !(stage is AwaitTrace),
            !(stage is Completed),
            no_commit(old(self).history@) || stage is AwaitCommit,
            cmd is Commit ==> stage is AwaitCommit,
            old(self).kind is Some,
        ensures
            final(self).wf(),
            final(self).history@ == old(self).history@.push(r),
            r == cmd,
            final(self).stage == stage,
            final(self).outcome is None,
            final(self).context == old(self).context,
            final(self).kind == old(self).kind,
            final(self).tx_hash == old(self).tx_hash,
            final(self).action == old(self).action,
            final(self).key == old(self).key,
            final(self).owner == old(self).owner,
            final(self).now == old(self).now,
    {
        proof {
            lemma_push(self.history@, cmd);
            let h = self.history@.push(cmd);
            if no_commit(self.history@) && !(cmd is Commit) {
                assert forall|i: int| 0 <= i < h.len() implies !(#[trigger] h[i] is Commit) by {
                    if i < h.len() - 1 {
                        assert(h[i] == self.history@[i]);
                    }
                }
            }
        }
        self.history = Ghost(self.history@.push(cmd));
        self.stage = stage;
        cmd
    }
}

proof fn lemma_no_trace_before(h: Seq<Command>, i: int)
    requires
        trace_count(h) == 0,
        0 <= i < h.len(),
    ensures
        !(h[i] is Trace),
    decreases h.len(),
{
    if i < h.len() - 1 {
        assert(h.drop_last()[i] == h[i]);
        lemma_no_trace_before(h.drop_last(), i);
    }
}


/// The attribute naming the token contract in events of `context`.
pub open spec fn address_key(context: StreamContext) -> Seq<char> {
    match context {
        StreamContext::Cw721 => "_contract_address"@,
        StreamContext::Pallet => "collection_address"@,
    }
}

/// The attribute naming the new owner for an NFT-transfer action.
pub open spec fn owner_key(a: Cw721Action) -> Seq<char> {
    match a {
        Cw721Action::Mint => "owner"@,
        _ => "recipient"@,
    }
}

/// The action recorded for an event of `context`: the first `action`
/// attribute for NFT-transfer events, the event type for marketplace events.
pub open spec fn job_action(context: StreamContext, e: Event) -> Seq<char> {
    match context {
        StreamContext::Cw721 => action_text(e),
        StreamContext::Pallet => e.kind@,
    }
}

/// What an event of `context` asks for, if anything the indexer acts on.
pub open spec fn job_kind(context: StreamContext, e: Event) -> Option<JobKind> {
    match context {
        StreamContext::Cw721 => match cw721_action_of(action_text(e)) {
            Some(a) => Some(JobKind::Cw721(a)),
            None => None,
        },
        StreamContext::Pallet => match pallet_action_of(e.kind@) {
            Some(a) => Some(JobKind::Pallet(a)),
            None => None,
        },
    }
}

/// The owner attribute that an event of kind `k` must carry, if any.
pub open spec fn owner_attribute(k: JobKind) -> Option<Seq<char>> {
    match k {
        JobKind::Cw721(a) => Some(owner_key(a)),
        JobKind::Pallet(_) => None,
    }
}

/// The first required attribute that `e` lacks, in the order they are read.
pub open spec fn missing_attribute(context: StreamContext, k: JobKind, e: Event) -> Option<Seq<char>> {
    if lookup(e.attributes@, address_key(context)) is None {
        Some(address_key(context))
    } else if lookup(e.attributes@, "token_id"@) is None {
        Some("token_id"@)
    } else {
        match owner_attribute(k) {
            Some(o) => if lookup(e.attributes@, o) is None {
                Some(o)
            } else {
                None
            },
            None => None,
        }
    }
}

/// What a job does once the NFT's id is known.
pub open spec fn resolved(old_job: Job, new_job: Job, r: Option<Command>, nft_id: i32) -> bool {
    match old_job.kind {
        Some(JobKind::Cw721(_)) => new_job.outcome == Some(Ok::<Effect, HandlerError>(
            Effect::Applied,
        )) && r is Some && r->Some_0 is Trace,
        Some(JobKind::Pallet(PalletAction::CreateAuction)) => r == Some(
            Command::QueryListing(old_job.key),
        ) && new_job.stage == Stage::AwaitChainListing(nft_id),
        Some(JobKind::Pallet(_)) => r == Some(Command::FindListing(nft_id)) && new_job.stage
            == Stage::AwaitDbListing(nft_id),
        None => false,
    }
}

impl Job {
    /// Starts handling `event` of transaction `tx_hash` on the stream of
    /// `context`, at time `now` (seconds since the Unix epoch). Returns the job
    /// and its first command.
    pub fn start(context: StreamContext, tx_hash: &String, event: &Event, now: i64) -> (r: (
        Job,
        Command,
    ))
        ensures
            r.0.wf(),
            r.0.history@ == seq![r.1],
            r.0.context == context,
            r.0.tx_hash@ == tx_hash@,
            r.0.action@ == job_action(context, *event),
            r.0.kind == job_kind(context, *event),
            r.0.now == now,
            r.1 is Trace ==> trace_matches(r.1->Trace_0, r.0),
            job_kind(context, *event) is None ==> r.0.outcome == Some(Ok::<Effect, HandlerError>(
                Effect::Skipped,
            )) && r.1 is Trace,
            job_kind(context, *event) matches Some(k) ==> match missing_attribute(context, k, *event) {
                Some(key) => r.0.outcome is Some && r.0.outcome->Some_0 is Err
                    && r.0.outcome->Some_0->Err_0 is MissingAttribute
                    && r.0.outcome->Some_0->Err_0->MissingAttribute_0@ == key && r.1 is Trace,
                None => {
                    &&& r.1 == Command::FindNft(r.0.key)
                    &&& r.0.stage is AwaitNft
                    &&& r.0.outcome is None
                    &&& Some(r.0.key.token_address@) == lookup(event.attributes@, address_key(context))
                    &&& Some(r.0.key.token_id@) == lookup(event.attributes@, "token_id"@)
                    &&& match owner_attribute(k) {
                        Some(o) => r.0.owner is Some && Some(r.0.owner->Some_0@) == lookup(
                            event.attributes@,
                            o,
                        ),
                        None => r.0.owner is None,
                    }
                },
            },
    {
        let action = match context {
            StreamContext::Cw721 => match find_attribute(event, "action") {
                Ok(v) => v,
                Err(_) => String::new(),
            },
            StreamContext::Pallet => event.kind.clone(),
        };
        let kind = match context {
            StreamContext::Cw721 => match Cw721Action::from_text(action.as_str()) {
                Some(a) => Some(JobKind::Cw721(a)),
                None => None,
            },
            StreamContext::Pallet => match PalletAction::from_event_type(action.as_str()) {
                Some(a) => Some(JobKind::Pallet(a)),
                None => None,
            },
        };
        let mut job = Job {
            context,
            kind,
            tx_hash: tx_hash.clone(),
            action,
            key: NftKey { token_address: String::new(), token_id: String::new() },
            owner: None,
            now,
            stage: Stage::AwaitNft,
            outcome: None,
            history: Ghost(Seq::empty()),
        };
        let k = match kind {
            Some(k) => k,
            None => {
                let c = job.finish(Ok(Effect::Skipped));
                return (job, c);
            },
        };
        let address_name = match context {
            StreamContext::Cw721 => "_contract_address",
            StreamContext::Pallet => "collection_address",
        };
        let token_address = match find_attribute(event, address_name) {
            Ok(v) => v,
            Err(e) => {
                let c = job.finish(Err(e));
                return (job, c);
            },
        };
        let token_id = match find_attribute(event, "token_id") {
            Ok(v) => v,
            Err(e) => {
                let c = job.finish(Err(e));
                return (job, c);
            },
        };
        let owner = match k {
            JobKind::Cw721(a) => {
                let name = match a {
                    Cw721Action::Mint => "owner",
                    _ => "recipient",
                };
                match find_attribute(event, name) {
                    Ok(v) => Some(v),
                    Err(e) => {
                        let c = job.finish(Err(e));
                        return (job, c);
                    },
                }
            },
            JobKind::Pallet(_) => None,
        };
        job.key = NftKey { token_address, token_id };
        job.owner = owner;
        let first = Command::FindNft(clone_key(&job.key));
        let c = job.issue(first, Stage::AwaitNft);
        (job, c)
    }
}


impl Job {
    fn after_resolve(&mut self, nft_id: i32) -> (r: Command)
        requires
            old(self).wf(),
            old(self).outcome is None,
            no_commit(old(self).history@),
        ensures
            final(self).wf(),
            final(self).history@ == old(self).history@.push(r),
            resolved(*old(self), *final(self), Some(r), nft_id),
            r is Trace ==> trace_matches(r->Trace_0, *final(self)),
            final(self).context == old(self).context,
            final(self).kind == old(self).kind,
            final(self).tx_hash == old(self).tx_hash,
            final(self).action == old(self).action,
    {
        match self.kind {
            Some(JobKind::Pallet(PalletAction::CreateAuction)) => {
                let c = Command::QueryListing(clone_key(&self.key));
                self.issue(c, Stage::AwaitChainListing(nft_id))
            },
            Some(JobKind::Pallet(_)) => self.issue(
                Command::FindListing(nft_id),
                Stage::AwaitDbListing(nft_id),
            ),
            _ => self.finish(Ok(Effect::Applied)),
        }
    }

    /// Feeds the host's answer to the last command into the job. Returns the
    /// next command, or `None` once the job is complete.
    pub fn resume(&mut self, reply: Reply) -> (r: Option<Command>)
        requires
            old(self).wf(),
        ensures
            final(self).wf(),
            final(self).history@ == old(self).history@ + opt_cmd(r),
            final(self).context == old(self).context,
            final(self).kind == old(self).kind,
            final(self).tx_hash == old(self).tx_hash,
            final(self).action == old(self).action,
            old(self).outcome is Some ==> r is None && final(self).stage is Completed
                && final(self).outcome == old(self).outcome,
            old(self).outcome is None ==> r is Some,
            r is Some && r->Some_0 is Trace ==> trace_matches(r->Some_0->Trace_0, *final(self)),
            old(self).outcome is None && final(self).outcome is Some ==> r is Some
                && r->Some_0 is Trace && r->Some_0->Trace_0.context == old(self).context
                && r->Some_0->Trace_0.is_failure == final(self).outcome->Some_0 is Err,
            old(self).outcome is None && reply is Failed ==> final(self).outcome == Some(
                Err::<Effect, HandlerError>(reply->Failed_0),
            ),
            old(self).stage is AwaitNft && reply is Nft && reply->Nft_0 is Some
                && old(self).owner is Some ==> r == Some(
                Command::UpdateOwner(old(self).key, old(self).owner),
            ) && final(self).stage == Stage::AwaitOwnerUpdate(reply->Nft_0->Some_0),
            old(self).stage is AwaitNft && reply is Nft && reply->Nft_0 is Some
                && old(self).owner is None ==> resolved(
                *old(self),
                *final(self),
                r,
                reply->Nft_0->Some_0,
            ),
            old(self).stage is AwaitNft && reply == Reply::Nft(None) ==> r == Some(
                Command::FetchNftDetails(old(self).key),
            ) && final(self).stage is AwaitNftDetails,
            old(self).stage is AwaitOwnerUpdate && reply is Done ==> resolved(
                *old(self),
                *final(self),
                r,
                old(self).stage->AwaitOwnerUpdate_0,
            ),
            old(self).stage is AwaitNftDetails && reply is NftDetails ==> {
                let d = reply->NftDetails_0;
                &&& r is Some && r->Some_0 is FindCollection
                &&& r->Some_0->FindCollection_0 == old(self).key.token_address
                &&& final(self).stage is AwaitCollection
                &&& final(self).stage->AwaitCollection_0.key == old(self).key
                &&& final(self).stage->AwaitCollection_0.owner_address == old(self).owner
                &&& final(self).stage->AwaitCollection_0.token_uri@ == d.info.token_uri@
                &&& final(self).stage->AwaitCollection_0.name == d.metadata.name
                &&& final(self).stage->AwaitCollection_0.description == d.metadata.description
                &&& final(self).stage->AwaitCollection_0.image == d.metadata.image
                &&& match d.metadata.attributes {
                    Some(a) => final(self).stage->AwaitCollection_0.traits@.len() == a@.len()
                        && forall|i: int| 0 <= i < a@.len() ==> is_trait_row(
                        #[trigger] final(self).stage->AwaitCollection_0.traits@[i],
                        a@[i],
                    ),
                    None => final(self).stage->AwaitCollection_0.traits@.len() == 0,
                }
                &&& opt_text(final(self).stage->AwaitCollection_1) == royalty_spec(d.info.extension)
            },
            old(self).stage is AwaitCollection && reply == Reply::Collection(true) ==> r is Some
                && r->Some_0 is InsertNft && r->Some_0->InsertNft_0 == old(self).stage->AwaitCollection_0,
            old(self).stage is AwaitCollection && reply == Reply::Collection(false) ==> r == Some(
                Command::FetchCollectionDetails(old(self).key.token_address),
            ),
            old(self).stage is AwaitCollectionDetails && reply is CollectionDetails ==> {
                let d = reply->CollectionDetails_0;
                let c = r->Some_0->InsertCollection_0;
                &&& r is Some && r->Some_0 is InsertCollection
                &&& c.address@ == old(self).key.token_address@
                &&& c.name == d.info.name
                &&& c.symbol == d.info.symbol
                &&& c.supply == d.supply.count as i32
                &&& c.metadata == d.metadata
                &&& c.royalty == old(self).stage->AwaitCollectionDetails_1
                &&& final(self).stage == Stage::AwaitCollectionInsert(
                    old(self).stage->AwaitCollectionDetails_0,
                )
            },
            old(self).stage is AwaitCollectionInsert && reply is Done ==> r is Some
                && r->Some_0 is InsertNft && r->Some_0->InsertNft_0
                == old(self).stage->AwaitCollectionInsert_0,
            old(self).stage is AwaitNftInsert && reply is NftCreated ==> resolved(
                *old(self),
                *final(self),
                r,
                reply->NftCreated_0,
            ),
            old(self).stage is AwaitChainListing && reply is ChainListing
                && reply->ChainListing_0.auction is None ==> final(self).outcome == Some(
                Ok::<Effect, HandlerError>(Effect::Skipped),
            ),
            old(self).stage is AwaitDbListing && reply == Reply::Listing(None) ==> final(self).outcome
                == Some(Ok::<Effect, HandlerError>(Effect::Skipped)),
            old(self).stage is AwaitDbListing && reply is Listing && reply->Listing_0 is Some
                && old(self).kind == Some(JobKind::Pallet(PalletAction::BuyNow)) ==> match tx_hash_bytes(
                old(self).tx_hash@,
            ) {
                Some(b) => r is Some && r->Some_0 is FetchTx && r->Some_0->FetchTx_0@ == b
                    && final(self).stage == Stage::AwaitTx(reply->Listing_0->Some_0),
                None => final(self).outcome is Some && final(self).outcome->Some_0 is Err
                    && final(self).outcome->Some_0->Err_0 is Decode,
            },
            old(self).stage is AwaitTx && reply is TxEvents && buyer_of(reply->TxEvents_0@)
                is None ==> final(self).outcome is Some && final(self).outcome->Some_0 is Err,
            old(self).stage is AwaitDbListing && reply is Listing && reply->Listing_0 is Some
                && old(self).kind == Some(JobKind::Pallet(PalletAction::CancelAuction)) ==> {
                let row = reply->Listing_0->Some_0;
                &&& r is Some && r->Some_0 is Commit
                &&& final(self).stage is AwaitCommit
                &&& r->Some_0->Commit_0@.len() == 2
                &&& r->Some_0->Commit_0@[0] == Write::DeleteListing(row.nft_id)
                &&& is_activity(
                    r->Some_0->Commit_0@[1],
                    row.nft_id,
                    ActivityKind::Delist,
                    row.price@,
                    Some(row.seller_address@),
                    None,
                    old(self).tx_hash@,
                    old(self).now,
                )
            },
            old(self).stage is AwaitTx && reply is TxEvents && buyer_of(reply->TxEvents_0@)
                is Some && !(is_decimal_text(old(self).stage->AwaitTx_0.price@) && sale_points(
                old(self).stage->AwaitTx_0.price@,
            ) is Some) ==> final(self).outcome is Some && final(self).outcome->Some_0 is Err
                && final(self).outcome->Some_0->Err_0 is Query,
            old(self).stage is AwaitTx && reply is TxEvents && buyer_of(reply->TxEvents_0@)
                is Some && is_decimal_text(old(self).stage->AwaitTx_0.price@) && sale_points(
                old(self).stage->AwaitTx_0.price@,
            ) is Some ==> {
                let row = old(self).stage->AwaitTx_0;
                &&& r is Some && r->Some_0 is Commit
                &&& final(self).stage is AwaitCommit
                &&& is_sale_batch(
                    r->Some_0->Commit_0@,
                    row.nft_id,
                    row.price@,
                    row.seller_address@,
                    buyer_of(reply->TxEvents_0@)->Some_0,
                    old(self).key.token_address@,
                    old(self).tx_hash@,
                    old(self).now,
                    sale_points(row.price@)->Some_0,
                )
            },
            old(self).stage is AwaitChainListing && reply is ChainListing
                && reply->ChainListing_0.auction is Some ==> {
                let a = reply->ChainListing_0.auction->Some_0;
                if a.prices@.len() > 0 && is_decimal_text(a.prices@[0].amount@) {
                    &&& r is Some && r->Some_0 is Commit
                    &&& final(self).stage is AwaitCommit
                    &&& r->Some_0->Commit_0@.len() == 2
                    &&& r->Some_0->Commit_0@[0] is InsertListing
                    &&& r->Some_0->Commit_0@[0]->InsertListing_0.nft_id == old(self).stage->AwaitChainListing_0
                    &&& r->Some_0->Commit_0@[0]->InsertListing_0.price@ == a.prices@[0].amount@
                    &&& r->Some_0->Commit_0@[0]->InsertListing_0.seller_address@ == reply->ChainListing_0.owner@
                    &&& r->Some_0->Commit_0@[0]->InsertListing_0.collection_address@ == old(self).key.token_address@
                    &&& r->Some_0->Commit_0@[0]->InsertListing_0.created_at == a.created_at as i64
                    &&& r->Some_0->Commit_0@[0]->InsertListing_0.expiration_time == a.expiration_time as i32
                    &&& r->Some_0->Commit_0@[0]->InsertListing_0.denom@ == denom()
                    &&& r->Some_0->Commit_0@[0]->InsertListing_0.tx_hash@ == old(self).tx_hash@
                    &&& is_activity(
                        r->Some_0->Commit_0@[1],
                        old(self).stage->AwaitChainListing_0,
                        ActivityKind::List,
                        a.prices@[0].amount@,
                        Some(reply->ChainListing_0.owner@),
                        None,
                        old(self).tx_hash@,
                        a.created_at as i64,
                    )
                } else {
                    final(self).outcome is Some && final(self).outcome->Some_0 is Err
                }
            },
            old(self).stage is AwaitCommit && reply is Done ==> final(self).outcome == Some(
                Ok::<Effect, HandlerError>(Effect::Applied),
            ),
    {
        if self.outcome.is_some() {
            self.stage = Stage::Completed;
            proof {
                assert(opt_cmd(None) =~= Seq::<Command>::empty());
                assert(self.history@ + Seq::<Command>::empty() =~= self.history@);
            }
            return None;
        }
        let mut stage = Stage::Completed;
        // Take the stage out by value; until the transition below sets the
        // next one, the job stands at an open stage so that it stays well formed.
        std::mem::swap(&mut self.stage, &mut stage);
        self.stage = Stage::AwaitNft;
        let c = match (stage, reply) {
            (_, Reply::Failed(e)) => self.finish(Err(e)),
            (Stage::AwaitNft, Reply::Nft(Some(id))) => {
                if self.owner.is_some() {
                    let c = Command::UpdateOwner(clone_key(&self.key), clone_owner(&self.owner));
                    self.issue(c, Stage::AwaitOwnerUpdate(id))
                } else {
                    self.after_resolve(id)
                }
            },
            (Stage::AwaitNft, Reply::Nft(None)) => {
                let c = Command::FetchNftDetails(clone_key(&self.key));
                self.issue(c, Stage::AwaitNftDetails)
            },
            (Stage::AwaitOwnerUpdate(id), Reply::Done) => self.after_resolve(id),
            (Stage::AwaitNftDetails, Reply::NftDetails(d)) => {
                let royalty = royalty_of(&d.info.extension);
                let nft = new_nft(clone_key(&self.key), &d.info, d.metadata, clone_owner(&self.owner));
                let c = Command::FindCollection(self.key.token_address.clone());
                self.issue(c, Stage::AwaitCollection(nft, royalty))
            },
            (Stage::AwaitCollection(nft, _), Reply::Collection(true)) => self.issue(
                Command::InsertNft(nft),
                Stage::AwaitNftInsert,
            ),
            (Stage::AwaitCollection(nft, royalty), Reply::Collection(false)) => {
                let c = Command::FetchCollectionDetails(self.key.token_address.clone());
                self.issue(c, Stage::AwaitCollectionDetails(nft, royalty))
            },
            (Stage::AwaitCollectionDetails(nft, royalty), Reply::CollectionDetails(d)) => {
                let row = new_collection(&self.key.token_address, d.info, &d.supply, d.metadata, royalty);
                self.issue(Command::InsertCollection(row), Stage::AwaitCollectionInsert(nft))
            },
            (Stage::AwaitCollectionInsert(nft), Reply::Done) => self.issue(
                Command::InsertNft(nft),
                Stage::AwaitNftInsert,
            ),
            (Stage::AwaitNftInsert, Reply::NftCreated(id)) => self.after_resolve(id),
            (Stage::AwaitChainListing(nft_id), Reply::ChainListing(l)) => match &l.auction {
                None => self.finish(Ok(Effect::Skipped)),
                Some(a) => match listing_writes(nft_id, &self.key.token_address, &l.owner, a, &self.tx_hash) {
                    Ok(ws) => self.issue(Command::Commit(ws), Stage::AwaitCommit),
                    Err(e) => self.finish(Err(e)),
                },
            },
            (Stage::AwaitDbListing(_), Reply::Listing(None)) => self.finish(Ok(Effect::Skipped)),
            (Stage::AwaitDbListing(_), Reply::Listing(Some(row))) => {
                if self.kind == Some(JobKind::Pallet(PalletAction::BuyNow)) {
                    match decode_tx_hash(self.tx_hash.as_str()) {
                        Ok(digest) => self.issue(Command::FetchTx(digest), Stage::AwaitTx(row)),
                        Err(e) => self.finish(Err(e.into_handler_error())),
                    }
                } else {
                    let ws = delist_writes(&row, &self.tx_hash, self.now);
                    self.issue(Command::Commit(ws), Stage::AwaitCommit)
                }
            },
            (Stage::AwaitTx(row), Reply::TxEvents(evs)) => match find_buyer_address(&evs) {
                None => self.finish(
                    Err(HandlerError::Query(String::from_str("can not get buyer from buy-now transaction"))),
                ),
                Some(buyer) => match sale_writes(&row, &buyer, &self.key.token_address, &self.tx_hash, self.now) {
                    Ok(ws) => self.issue(Command::Commit(ws), Stage::AwaitCommit),
                    Err(e) => self.finish(Err(e)),
                },
            },
            (Stage::AwaitCommit, Reply::Done) => self.finish(Ok(Effect::Applied)),
            _ => self.finish(Err(HandlerError::Query(String::from_str("unexpected reply")))),
        };
        proof {
            assert(old(self).history@.push(c) =~= old(self).history@ + opt_cmd(Some(c)));
        }
        Some(c)
    }
}

} // verus!
