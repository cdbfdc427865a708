//! The block event extractor: walks a block's logs in their order and emits
//! one record for each log that matches the shape of an event whose source is
//! in scope.

use crate::chain::{
    block_entries, collect_some, entries_before, lemma_collect_some_push, lemma_views_push,
    transaction_entries, views, Block, BlockView, Log, LogEntry,
};
use crate::decode::{
    airdrop_claimed_of, airdrop_created_of, auction_won_of, decode_airdrop_claimed,
    decode_airdrop_created, decode_auction_won, decode_extension_triggered, decode_fee_claim,
    decode_image_update, decode_metadata_update, decode_token_created, decode_verification,
    extension_triggered_of, fee_claim_of, image_update_of, metadata_update_of, token_created_of,
    verification_of,
};
use crate::records::{
    AirdropClaimedView, AirdropCreatedView, AuctionWonView, ClankerEvents, ClankerEventsView,
    ExtensionTriggeredView, FeeClaimView, TokenCreatedView, TokenMetadataUpdateView,
    TokenVerifiedView,
};
use crate::schema::{lemma_one_shape, log_matches, same_bytes, EventKind};
use crate::scope::{resolve, resolved_factory, scope_around, ScopeSet, ScopeSetView};
use vstd::prelude::*;

verus! {

/// What a run is told about the block as a whole, and what it listens to.
pub struct Setting {
    pub number: u64,
    pub timestamp: u64,
    pub scope: ScopeSetView,
}

/// The setting in which the logs of `block` are read.
pub open spec fn setting_of(block: BlockView, scope: ScopeSetView) -> Setting {
    Setting { number: block.number, timestamp: block.timestamp_seconds, scope }
}

/// The `TokenCreated` record of a log: only a log of the factory has one.
pub open spec fn token_created_in(s: Setting) -> spec_fn(LogEntry) -> Option<TokenCreatedView> {
    |e: LogEntry|
        if e.log.address == s.scope.factory {
            token_created_of(s.number, s.timestamp, e.tx_hash, e.log)
        } else {
            None
        }
}

/// The `FeeClaim` record of a log: only a log of the factory has one.
pub open spec fn fee_claim_in(s: Setting) -> spec_fn(LogEntry) -> Option<FeeClaimView> {
    |e: LogEntry|
        if e.log.address == s.scope.factory {
            fee_claim_of(s.number, s.timestamp, e.tx_hash, e.log)
        } else {
            None
        }
}

/// The `ExtensionTriggered` record of a log: only a log of the factory has
/// one.
pub open spec fn extension_triggered_in(s: Setting) -> spec_fn(LogEntry) -> Option<
    ExtensionTriggeredView,
> {
    |e: LogEntry|
        if e.log.address == s.scope.factory {
            extension_triggered_of(s.number, s.timestamp, e.tx_hash, e.log)
        } else {
            None
        }
}

/// The metadata update of a log, whatever contract emitted it: an image
/// update, or else a metadata update.
pub open spec fn metadata_update_in(s: Setting) -> spec_fn(LogEntry) -> Option<
    TokenMetadataUpdateView,
> {
    |e: LogEntry|
        match image_update_of(s.number, s.timestamp, e.tx_hash, e.log) {
            Some(update) => Some(update),
            None => metadata_update_of(s.number, s.timestamp, e.tx_hash, e.log),
        }
}

/// The verification record of a log, whatever contract emitted it.
pub open spec fn verification_in(s: Setting) -> spec_fn(LogEntry) -> Option<TokenVerifiedView> {
    |e: LogEntry| verification_of(s.number, s.timestamp, e.tx_hash, e.log)
}

/// The `AirdropCreated` record of a log: only a log of the airdrop contract
/// has one.
pub open spec fn airdrop_created_in(s: Setting) -> spec_fn(LogEntry) -> Option<
    AirdropCreatedView,
> {
    |e: LogEntry|
        if e.log.address == s.scope.airdrop {
            airdrop_created_of(s.number, s.timestamp, e.tx_hash, e.log)
        } else {
            None
        }
}

/// The `AirdropClaimed` record of a log: only a log of the airdrop contract
/// has one.
pub open spec fn airdrop_claimed_in(s: Setting) -> spec_fn(LogEntry) -> Option<
    AirdropClaimedView,
> {
    |e: LogEntry|
        if e.log.address == s.scope.airdrop {
            airdrop_claimed_of(s.number, s.timestamp, e.tx_hash, e.log)
        } else {
            None
        }
}

/// The `AuctionWon` record of a log: only a log of the auction contract has
/// one.
pub open spec fn auction_won_in(s: Setting) -> spec_fn(LogEntry) -> Option<AuctionWonView> {
    |e: LogEntry|
        if e.log.address == s.scope.auction {
            auction_won_of(s.number, s.timestamp, e.tx_hash, e.log)
        } else {
            None
        }
}

/// The batch that `entries` give rise to: for each kind the records of the
/// entries that have one, in the order of the entries.
pub open spec fn batch_over(entries: Seq<LogEntry>, s: Setting) -> ClankerEventsView {
    ClankerEventsView {
        token_created: collect_some(entries, token_created_in(s)),
        fee_claims: collect_some(entries, fee_claim_in(s)),
        extensions_triggered: collect_some(entries, extension_triggered_in(s)),
        metadata_updates: collect_some(entries, metadata_update_in(s)),
        verifications: collect_some(entries, verification_in(s)),
        airdrop_created: collect_some(entries, airdrop_created_in(s)),
        airdrop_claimed: collect_some(entries, airdrop_claimed_in(s)),
        auction_won: collect_some(entries, auction_won_in(s)),
    }
}

/// The batch of a block for a scope.
pub open spec fn batch_of(block: BlockView, scope: ScopeSetView) -> ClankerEventsView {
    batch_over(block_entries(block), setting_of(block, scope))
}

/// `list` with `found` behind it, where there is one.
pub open spec fn with_found<T>(list: Seq<T>, found: Option<T>) -> Seq<T> {
    match found {
        Some(item) => list.push(item),
        None => list,
    }
}

/// `batch` with the records of one more entry.
pub open spec fn with_entry(batch: ClankerEventsView, e: LogEntry, s: Setting)
    -> ClankerEventsView {
    ClankerEventsView {
        token_created: with_found(batch.token_created, token_created_in(s)(e)),
        fee_claims: with_found(batch.fee_claims, fee_claim_in(s)(e)),
        extensions_triggered: with_found(batch.extensions_triggered, extension_triggered_in(s)(e)),
        metadata_updates: with_found(batch.metadata_updates, metadata_update_in(s)(e)),
        verifications: with_found(batch.verifications, verification_in(s)(e)),
        airdrop_created: with_found(batch.airdrop_created, airdrop_created_in(s)(e)),
        airdrop_claimed: with_found(batch.airdrop_claimed, airdrop_claimed_in(s)(e)),
        auction_won: with_found(batch.auction_won, auction_won_in(s)(e)),
    }
}

/// The batch over one more entry is the batch so far with that entry's
/// records.
pub proof fn lemma_batch_over_push(entries: Seq<LogEntry>, e: LogEntry, s: Setting)
    ensures
        batch_over(entries.push(e), s) == with_entry(batch_over(entries, s), e, s),
{
    lemma_collect_some_push(entries, e, token_created_in(s));
    lemma_collect_some_push(entries, e, fee_claim_in(s));
    lemma_collect_some_push(entries, e, extension_triggered_in(s));
    lemma_collect_some_push(entries, e, metadata_update_in(s));
    lemma_collect_some_push(entries, e, verification_in(s));
    lemma_collect_some_push(entries, e, airdrop_created_in(s));
    lemma_collect_some_push(entries, e, airdrop_claimed_in(s));
    lemma_collect_some_push(entries, e, auction_won_in(s));
}

/// Appends a record to a list of the batch.
fn push_record<T: View>(list: &mut Vec<T>, item: T)
    ensures
        views(final(list)@) == views(old(list)@).push(item@),
{
    proof {
        lemma_views_push(list@, item);
    }
    list.push(item);
}

/// The batch that holds no record.
pub open spec fn empty_batch() -> ClankerEventsView {
    ClankerEventsView {
        token_created: Seq::empty(),
        fee_claims: Seq::empty(),
        extensions_triggered: Seq::empty(),
        metadata_updates: Seq::empty(),
        verifications: Seq::empty(),
        airdrop_created: Seq::empty(),
        airdrop_claimed: Seq::empty(),
        auction_won: Seq::empty(),
    }
}

impl ClankerEvents {
    /// The empty batch.
    pub fn new() -> (events: ClankerEvents)
        ensures
            events@ == empty_batch(),
    {
        let events = ClankerEvents {
            token_created: Vec::new(),
            fee_claims: Vec::new(),
            extensions_triggered: Vec::new(),
            metadata_updates: Vec::new(),
            verifications: Vec::new(),
            airdrop_created: Vec::new(),
            airdrop_claimed: Vec::new(),
            auction_won: Vec::new(),
        };
        assert(events@.token_created =~= Seq::empty());
        assert(events@.fee_claims =~= Seq::empty());
        assert(events@.extensions_triggered =~= Seq::empty());
        assert(events@.metadata_updates =~= Seq::empty());
        assert(events@.verifications =~= Seq::empty());
        assert(events@.airdrop_created =~= Seq::empty());
        assert(events@.airdrop_claimed =~= Seq::empty());
        assert(events@.auction_won =~= Seq::empty());
        events
    }
}

/// Tests one log against every family of events and appends the records it
/// stands for. The families are tested independently of each other.
fn extract_log(
    number: u64,
    timestamp: u64,
    tx_hash: &[u8],
    log: &Log,
    scope: &ScopeSet,
    events: &mut ClankerEvents,
    Ghost(e): Ghost<LogEntry>,
)
    requires
        e.tx_hash == tx_hash@,
        e.log == log@,
    ensures
        final(events)@ == with_entry(
            old(events)@,
            e,
            Setting { number, timestamp, scope: scope@ },
        ),
{
    let address = log.address.as_slice();
    if same_bytes(address, scope.factory.as_slice()) {
        if let Some(record) = decode_token_created(number, timestamp, tx_hash, log) {
            push_record(&mut events.token_created, record);
        }
        if let Some(record) = decode_fee_claim(number, timestamp, tx_hash, log) {
            push_record(&mut events.fee_claims, record);
        }
        if let Some(record) = decode_extension_triggered(number, timestamp, tx_hash, log) {
            push_record(&mut events.extensions_triggered, record);
        }
    }
    if let Some(record) = decode_image_update(number, timestamp, tx_hash, log) {
        push_record(&mut events.metadata_updates, record);
    }
    if let Some(record) = decode_metadata_update(number, timestamp, tx_hash, log) {
        proof {
            if log_matches(log@, EventKind::UpdateImage) {
                lemma_one_shape(log@, EventKind::UpdateImage, EventKind::UpdateMetadata);
            }
        }
        push_record(&mut events.metadata_updates, record);
    }
    if let Some(record) = decode_verification(number, timestamp, tx_hash, log) {
        push_record(&mut events.verifications, record);
    }
    if same_bytes(address, scope.airdrop.as_slice()) {
        if let Some(record) = decode_airdrop_created(number, timestamp, tx_hash, log) {
            push_record(&mut events.airdrop_created, record);
        }
        if let Some(record) = decode_airdrop_claimed(number, timestamp, tx_hash, log) {
            push_record(&mut events.airdrop_claimed, record);
        }
    }
    if same_bytes(address, scope.auction.as_slice()) {
        if let Some(record) = decode_auction_won(number, timestamp, tx_hash, log) {
            push_record(&mut events.auction_won, record);
        }
    }
}

/// The batch of `block` for `scope`: for each kind of event, one record per
/// log that matches the kind's shape, decodes, and comes from the address the
/// kind is bound to, in the order in which the block lists the logs.
pub fn extract_events(block: &Block, scope: &ScopeSet) -> (events: ClankerEvents)
    ensures
        events@ == batch_of(block@, scope@),
{
    let ghost s = setting_of(block@, scope@);
    let mut events = ClankerEvents::new();
    let mut i: usize = 0;
    assert(batch_over(entries_before(block@, 0), s) == empty_batch());
    while i < block.transactions.len()
        invariant
            i <= block.transactions.len(),
            s == setting_of(block@, scope@),
            events@ == batch_over(entries_before(block@, i as int), s),
        decreases block.transactions.len() - i,
    {
        let tx = &block.transactions[i];
        let ghost before = entries_before(block@, i as int);
        let mut j: usize = 0;
        assert(before + transaction_entries(i as int, tx@, 0) =~= before);
        while j < tx.logs.len()
            invariant
                i < block.transactions.len(),
                tx == &block.transactions[i as int],
                j <= tx.logs.len(),
                s == setting_of(block@, scope@),
                before == entries_before(block@, i as int),
                events@ == batch_over(before + transaction_entries(i as int, tx@, j as int), s),
            decreases tx.logs.len() - j,
        {
            let log = &tx.logs[j];
            let ghost e = LogEntry {
                tx_index: i as int,
                position: j as int,
                tx_hash: tx@.hash,
                log: log@,
            };
            proof {
                let so_far = before + transaction_entries(i as int, tx@, j as int);
                assert(before + transaction_entries(i as int, tx@, j + 1) =~= so_far.push(e));
                lemma_batch_over_push(so_far, e, s);
            }
            extract_log(
                block.number,
                block.timestamp_seconds,
                tx.hash.as_slice(),
                log,
                scope,
                &mut events,
                Ghost(e),
            );
            j = j + 1;
        }
        assert(block@.transactions[i as int] == tx@);
        i = i + 1;
    }
    events
}

/// The batch of `block` for the scope that `params` resolves to.
pub fn map_clanker_events(params: &str, block: &Block) -> (events: ClankerEvents)
    ensures
        events@ == batch_of(block@, scope_around(resolved_factory(params@))),
{
    let scope = resolve(params);
    extract_events(block, &scope)
}

} // verus!
