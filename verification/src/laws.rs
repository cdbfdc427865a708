//! What holds of the pipeline as a whole, stated over the same spec functions
//! as the contracts of its stages and proved from their definitions.

use crate::aggregates::{summed, total, volume_deltas, SumDelta};
use crate::abi::word_at;
use crate::chain::{
    block_entries, collect_some, entries_before, entry_of_block, lemma_collect_some_complete,
    lemma_collect_some_none, lemma_collect_some_sources, lemma_entries_before, picked_positions,
    precedes, transaction_entries, BlockView, LogEntry, LogView,
};
use crate::decode::{origin_of, transfer_of, uint_text_at};
use crate::extract::{
    airdrop_claimed_in, airdrop_created_in, auction_won_in, batch_of, extension_triggered_in,
    fee_claim_in, metadata_update_in, setting_of, token_created_in, verification_in, Setting,
};
use crate::hexfmt::{hex_bytes, hex_lower, hex_value, lemma_hex_round_trip};
use crate::integer::{integer_text_value, lemma_decimal_text_digits, lemma_decimal_text_parses};
use crate::numeric::{be_value, decimal_text};
use crate::records::{
    AirdropClaimedView, AirdropCreatedView, AuctionWonView, ClankerEventsView,
    ExtensionTriggeredView, FeeClaimView, ProvenanceView, TokenCreatedView,
    TokenMetadataUpdateView, TokenTransferView, TokenTransfersView, TokenVerifiedView, TokenView,
};
use crate::registry::{registered, token_key, transfer_in, transfers_of};
use crate::rows::{event_key, rows_of, RowView};
use crate::schema::{lemma_one_shape, log_matches, EventKind};
use crate::scope::{
    factory_override, first_index, resolved_factory, ScopeSetView, DEFAULT_CLANKER_FACTORY,
};
use vstd::prelude::*;

verus! {

/// Whether record `k` of `records` is what `pick` yields on log `k` of
/// `sources`, the sources are logs of `block`, and they stand in traversal
/// order: by transaction first, then by place within the transaction.
pub open spec fn stems_from<B>(
    block: BlockView,
    records: Seq<B>,
    pick: spec_fn(LogEntry) -> Option<B>,
    sources: Seq<LogEntry>,
) -> bool {
    &&& sources.len() == records.len()
    &&& forall|k: int|
        0 <= k < sources.len() ==> entry_of_block(block, #[trigger] sources[k]) && pick(
            sources[k],
        ) == Some(records[k])
    &&& forall|j: int, k: int|
        0 <= j < k < sources.len() ==> precedes(#[trigger] sources[j], #[trigger] sources[k])
}

/// Whether `records` stem from logs of `block` through `pick`, one record per
/// log, in the traversal order of those logs.
pub open spec fn in_log_order<B>(
    block: BlockView,
    records: Seq<B>,
    pick: spec_fn(LogEntry) -> Option<B>,
) -> bool {
    exists|sources: Seq<LogEntry>| stems_from(block, records, pick, sources)
}

/// What is collected from the logs of a block stands in the order of the
/// logs.
pub proof fn lemma_collected_in_log_order<B>(block: BlockView, pick: spec_fn(LogEntry) -> Option<B>)
    ensures
        in_log_order(block, collect_some(block_entries(block), pick), pick),
{
    let entries = block_entries(block);
    let places = picked_positions(entries, pick);
    lemma_collect_some_sources(entries, pick);
    lemma_entries_before(block, block.transactions.len() as int);
    let sources = Seq::new(places.len(), |k: int| entries[places[k]]);
    assert forall|j: int, k: int| 0 <= j < k < sources.len() implies precedes(
        #[trigger] sources[j],
        #[trigger] sources[k],
    ) by {
        assert(places[j] < places[k]);
    }
    assert forall|k: int| 0 <= k < sources.len() implies entry_of_block(
        block,
        #[trigger] sources[k],
    ) && pick(sources[k]) == Some(collect_some(entries, pick)[k]) by {
        assert(0 <= places[k] < entries.len());
    }
    assert(stems_from(block, collect_some(entries, pick), pick, sources));
}

/// Determinism. The batch, the registry, the transfers, the sums and the
/// rows are functions of what a stage is given: two invocations on the same
/// block, scope and store snapshot yield the same values.
pub proof fn law_stages_are_deterministic(
    block: BlockView,
    scope: ScopeSetView,
    registry: Map<Seq<char>, TokenView>,
    sums: Map<Seq<char>, int>,
    first_batch: ClankerEventsView,
    first_registry: Map<Seq<char>, TokenView>,
    first_transfers: TokenTransfersView,
    first_sums: Map<Seq<char>, int>,
    first_rows: Seq<RowView>,
    second_batch: ClankerEventsView,
    second_registry: Map<Seq<char>, TokenView>,
    second_transfers: TokenTransfersView,
    second_sums: Map<Seq<char>, int>,
    second_rows: Seq<RowView>,
)
    requires
        first_batch == batch_of(block, scope),
        first_registry == registered(registry, first_batch.token_created),
        first_transfers == transfers_of(block, first_registry.dom()),
        first_sums == summed(sums, volume_deltas(first_transfers.transfers)),
        first_rows == rows_of(first_batch, first_transfers),
        second_batch == batch_of(block, scope),
        second_registry == registered(registry, second_batch.token_created),
        second_transfers == transfers_of(block, second_registry.dom()),
        second_sums == summed(sums, volume_deltas(second_transfers.transfers)),
        second_rows == rows_of(second_batch, second_transfers),
    ensures
        first_batch == second_batch,
        first_registry == second_registry,
        first_transfers == second_transfers,
        first_sums == second_sums,
        first_rows == second_rows,
{
}

/// Ordering. Every list of the batch holds its records in the order of the
/// logs they stem from: ascending by transaction, and within a transaction by
/// place.
pub proof fn law_batch_follows_log_order(block: BlockView, scope: ScopeSetView)
    ensures
        in_log_order(
            block,
            batch_of(block, scope).token_created,
            token_created_in(setting_of(block, scope)),
        ),
        in_log_order(
            block,
            batch_of(block, scope).fee_claims,
            fee_claim_in(setting_of(block, scope)),
        ),
        in_log_order(
            block,
            batch_of(block, scope).extensions_triggered,
            extension_triggered_in(setting_of(block, scope)),
        ),
        in_log_order(
            block,
            batch_of(block, scope).metadata_updates,
            metadata_update_in(setting_of(block, scope)),
        ),
        in_log_order(
            block,
            batch_of(block, scope).verifications,
            verification_in(setting_of(block, scope)),
        ),
        in_log_order(
            block,
            batch_of(block, scope).airdrop_created,
            airdrop_created_in(setting_of(block, scope)),
        ),
        in_log_order(
            block,
            batch_of(block, scope).airdrop_claimed,
            airdrop_claimed_in(setting_of(block, scope)),
        ),
        in_log_order(
            block,
            batch_of(block, scope).auction_won,
            auction_won_in(setting_of(block, scope)),
        ),
{
    let s = setting_of(block, scope);
    lemma_collected_in_log_order(block, token_created_in(s));
    lemma_collected_in_log_order(block, fee_claim_in(s));
    lemma_collected_in_log_order(block, extension_triggered_in(s));
    lemma_collected_in_log_order(block, metadata_update_in(s));
    lemma_collected_in_log_order(block, verification_in(s));
    lemma_collected_in_log_order(block, airdrop_created_in(s));
    lemma_collected_in_log_order(block, airdrop_claimed_in(s));
    lemma_collected_in_log_order(block, auction_won_in(s));
}

/// Ordering, for the join: the transfers stand in the order of the logs they
/// stem from.
pub proof fn law_transfers_follow_log_order(block: BlockView, registry: Set<Seq<char>>)
    ensures
        in_log_order(
            block,
            transfers_of(block, registry).transfers,
            transfer_in(block.number, block.timestamp_seconds, registry),
        ),
{
    lemma_collected_in_log_order(
        block,
        transfer_in(block.number, block.timestamp_seconds, registry),
    );
}

/// Scope gating. A block none of whose logs comes from the factory in scope
/// yields no factory record, whatever shape its logs have.
pub proof fn law_scope_gates_factory_events(block: BlockView, scope: ScopeSetView)
    requires
        forall|at: int|
            0 <= at < block_entries(block).len() ==> (#[trigger] block_entries(
                block,
            )[at]).log.address != scope.factory,
    ensures
        batch_of(block, scope).token_created.len() == 0,
        batch_of(block, scope).fee_claims.len() == 0,
        batch_of(block, scope).extensions_triggered.len() == 0,
{
    let s = setting_of(block, scope);
    let entries = block_entries(block);
    assert forall|at: int| 0 <= at < entries.len() implies token_created_in(s)(
        #[trigger] entries[at],
    ) is None by {}
    assert forall|at: int| 0 <= at < entries.len() implies fee_claim_in(s)(
        #[trigger] entries[at],
    ) is None by {}
    assert forall|at: int| 0 <= at < entries.len() implies extension_triggered_in(s)(
        #[trigger] entries[at],
    ) is None by {}
    lemma_collect_some_none(entries, token_created_in(s));
    lemma_collect_some_none(entries, fee_claim_in(s));
    lemma_collect_some_none(entries, extension_triggered_in(s));
}

/// Scope gating, record by record: every `TokenCreated` record of a batch
/// stems from a log of the block whose address is the factory in scope.
pub proof fn law_token_created_stems_from_factory(block: BlockView, scope: ScopeSetView, k: int)
    requires
        0 <= k < batch_of(block, scope).token_created.len(),
    ensures
        exists|source: LogEntry|
            entry_of_block(block, source) && source.log.address == scope.factory
                && #[trigger] token_created_in(setting_of(block, scope))(source) == Some(
                batch_of(block, scope).token_created[k],
            ),
{
    let s = setting_of(block, scope);
    lemma_collected_in_log_order(block, token_created_in(s));
    let records = batch_of(block, scope).token_created;
    let sources = choose|sources: Seq<LogEntry>|
        stems_from(block, records, token_created_in(s), sources);
    assert(entry_of_block(block, sources[k]));
    assert(token_created_in(s)(sources[k]) == Some(records[k]));
}

/// 1 where something was found, 0 where nothing was.
pub open spec fn found<T>(picked: Option<T>) -> int {
    if picked is Some {
        1
    } else {
        0
    }
}

/// How many records a log leaves in a batch, over all kinds.
pub open spec fn records_of_entry(s: Setting, e: LogEntry) -> int {
    found(token_created_in(s)(e)) + found(fee_claim_in(s)(e)) + found(
        extension_triggered_in(s)(e),
    ) + found(metadata_update_in(s)(e)) + found(verification_in(s)(e)) + found(
        airdrop_created_in(s)(e),
    ) + found(airdrop_claimed_in(s)(e)) + found(auction_won_in(s)(e))
}

/// One log, one record. The kinds do not overlap, so a log leaves at most one
/// record in a batch, of at most one kind, whatever the scope.
pub proof fn law_one_record_per_log(s: Setting, e: LogEntry)
    ensures
        records_of_entry(s, e) <= 1,
{
    let log = e.log;
    if log_matches(log, EventKind::TokenCreated) {
        lemma_exclusive_shape(log, EventKind::TokenCreated);
    } else if log_matches(log, EventKind::ClaimTeamFees) {
        lemma_exclusive_shape(log, EventKind::ClaimTeamFees);
    } else if log_matches(log, EventKind::ExtensionTriggered) {
        lemma_exclusive_shape(log, EventKind::ExtensionTriggered);
    } else if log_matches(log, EventKind::UpdateImage) {
        lemma_exclusive_shape(log, EventKind::UpdateImage);
    } else if log_matches(log, EventKind::UpdateMetadata) {
        lemma_exclusive_shape(log, EventKind::UpdateMetadata);
    } else if log_matches(log, EventKind::Verified) {
        lemma_exclusive_shape(log, EventKind::Verified);
    } else if log_matches(log, EventKind::AirdropCreated) {
        lemma_exclusive_shape(log, EventKind::AirdropCreated);
    } else if log_matches(log, EventKind::AirdropClaimed) {
        lemma_exclusive_shape(log, EventKind::AirdropClaimed);
    } else if log_matches(log, EventKind::AuctionWon) {
        lemma_exclusive_shape(log, EventKind::AuctionWon);
    }
}

/// A log with the shape of one kind has the shape of no other.
proof fn lemma_exclusive_shape(log: LogView, kind: EventKind)
    requires
        log_matches(log, kind),
    ensures
        forall|other: EventKind| other != kind ==> !#[trigger] log_matches(log, other),
{
    assert forall|other: EventKind| other != kind implies !#[trigger] log_matches(log, other) by {
        if log_matches(log, other) {
            lemma_one_shape(log, kind, other);
        }
    }
}

/// Registry gating. A block none of whose logs comes from a registered
/// address yields no transfer, whatever shape its logs have.
pub proof fn law_unregistered_logs_leave_no_transfer(block: BlockView, registry: Set<Seq<char>>)
    requires
        forall|at: int|
            0 <= at < block_entries(block).len() ==> !registry.contains(
                token_key(hex_lower((#[trigger] block_entries(block)[at]).log.address)),
            ),
    ensures
        transfers_of(block, registry).transfers.len() == 0,
{
    let pick = transfer_in(block.number, block.timestamp_seconds, registry);
    let entries = block_entries(block);
    assert forall|at: int| 0 <= at < entries.len() implies pick(#[trigger] entries[at]) is None by {}
    lemma_collect_some_none(entries, pick);
}

/// Registry gating, record by record: every transfer record stems from a log
/// of the block whose address the registry holds.
pub proof fn law_transfer_stems_from_registered_token(
    block: BlockView,
    registry: Set<Seq<char>>,
    k: int,
)
    requires
        0 <= k < transfers_of(block, registry).transfers.len(),
    ensures
        exists|source: LogEntry|
            entry_of_block(block, source) && registry.contains(
                token_key(hex_lower(source.log.address)),
            ) && #[trigger] transfer_in(block.number, block.timestamp_seconds, registry)(source)
                == Some(transfers_of(block, registry).transfers[k]),
{
    let pick = transfer_in(block.number, block.timestamp_seconds, registry);
    lemma_collected_in_log_order(block, pick);
    let records = transfers_of(block, registry).transfers;
    let sources = choose|sources: Seq<LogEntry>| stems_from(block, records, pick, sources);
    assert(entry_of_block(block, sources[k]));
    assert(pick(sources[k]) == Some(records[k]));
}

/// Every token of a batch is in the registry once the batch has been stored.
pub proof fn lemma_created_tokens_are_registered(
    registry: Map<Seq<char>, TokenView>,
    created: Seq<TokenCreatedView>,
    k: int,
)
    requires
        0 <= k < created.len(),
    ensures
        registered(registry, created).contains_key(token_key(created[k].token_address)),
    decreases created.len(),
{
    if k < created.len() - 1 {
        lemma_created_tokens_are_registered(registry, created.drop_last(), k);
    }
}

/// Registry gating, round trip. Once the creation record of the token at an
/// address has been stored, a log of a later block that comes from that
/// address and decodes as a transfer yields its transfer record.
pub proof fn law_transfers_of_created_tokens_are_kept(
    registry: Map<Seq<char>, TokenView>,
    created: Seq<TokenCreatedView>,
    k: int,
    later: BlockView,
    source: LogEntry,
)
    requires
        0 <= k < created.len(),
        entry_of_block(later, source),
        created[k].token_address == hex_lower(source.log.address),
        transfer_of(later.number, later.timestamp_seconds, source.tx_hash, source.log) is Some,
    ensures
        transfers_of(later, registered(registry, created).dom()).transfers.contains(
            transfer_of(later.number, later.timestamp_seconds, source.tx_hash, source.log)->0,
        ),
{
    let keys = registered(registry, created).dom();
    let pick = transfer_in(later.number, later.timestamp_seconds, keys);
    lemma_created_tokens_are_registered(registry, created, k);
    lemma_entry_is_listed(later, source);
    let at = choose|at: int|
        0 <= at < block_entries(later).len() && block_entries(later)[at] == source;
    lemma_collect_some_complete(block_entries(later), pick, at);
}

/// Every log of a block is among its entries.
pub proof fn lemma_entry_is_listed(block: BlockView, entry: LogEntry)
    requires
        entry_of_block(block, entry),
    ensures
        exists|at: int| 0 <= at < block_entries(block).len() && block_entries(block)[at] == entry,
{
    lemma_entry_is_listed_before(block, block.transactions.len() as int, entry);
    let entries = entries_before(block, block.transactions.len() as int);
    let at = choose|at: int| 0 <= at < entries.len() && entries[at] == entry;
    assert(block_entries(block)[at] == entry);
}

/// Every log of the first `count` transactions is among their entries.
proof fn lemma_entry_is_listed_before(block: BlockView, count: int, entry: LogEntry)
    requires
        entry_of_block(block, entry),
        entry.tx_index < count <= block.transactions.len(),
    ensures
        exists|at: int|
            0 <= at < entries_before(block, count).len()
                && entries_before(block, count)[at] == entry,
    decreases count,
{
    let before = entries_before(block, count - 1);
    let tx = block.transactions[count - 1];
    let here = transaction_entries(count - 1, tx, tx.logs.len() as int);
    let all = entries_before(block, count);
    assert(all == before + here);
    if entry.tx_index == count - 1 {
        assert(here[entry.position] == entry);
        assert(all[before.len() + entry.position] == entry);
    } else {
        lemma_entry_is_listed_before(block, count - 1, entry);
        let at = choose|at: int| 0 <= at < before.len() && before[at] == entry;
        assert(all[at] == entry);
    }
}

/// Key derivation. The primary key of an event row leads back to the
/// transaction hash and the log position it was derived from: two records
/// with one key have one hash and one position.
pub proof fn law_event_keys_are_injective(
    first: ProvenanceView,
    first_hash: Seq<u8>,
    second: ProvenanceView,
    second_hash: Seq<u8>,
)
    requires
        first.tx_hash == hex_lower(first_hash),
        second.tx_hash == hex_lower(second_hash),
        event_key(first) == event_key(second),
    ensures
        first_hash == second_hash,
        first.log_index == second.log_index,
{
    reveal_strlit("-");
    let a = first.tx_hash;
    let b = second.tx_hash;
    let m = decimal_text(first.log_index as nat);
    let n = decimal_text(second.log_index as nat);
    let key = event_key(first);
    assert("-"@ =~= seq!['-']);
    lemma_hex_round_trip(first_hash);
    lemma_hex_round_trip(second_hash);
    lemma_decimal_text_digits(first.log_index as nat);
    lemma_decimal_text_digits(second.log_index as nat);
    assert(hex_value('-') is None);
    assert(key == a + "-"@ + m);
    assert(key == b + "-"@ + n);
    assert(key.len() == a.len() + 1 + m.len());
    assert(key.len() == b.len() + 1 + n.len());
    if a.len() < b.len() {
        assert(key[a.len() as int] == '-');
        assert(key[a.len() as int] == b[a.len() as int]);
        assert(hex_value(b[a.len() as int]) is Some);
    }
    if b.len() < a.len() {
        assert(key[b.len() as int] == '-');
        assert(key[b.len() as int] == a[b.len() as int]);
        assert(hex_value(a[b.len() as int]) is Some);
    }
    assert(a =~= b) by {
        assert forall|i: int| 0 <= i < a.len() implies a[i] == b[i] by {
            assert(key[i] == a[i]);
            assert(key[i] == b[i]);
        }
    }
    assert(m =~= n) by {
        assert forall|i: int| 0 <= i < m.len() implies m[i] == n[i] by {
            assert(key[a.len() + 1 + i] == m[i]);
            assert(key[b.len() + 1 + i] == n[i]);
        }
    }
    lemma_decimal_text_parses(first.log_index as nat);
    lemma_decimal_text_parses(second.log_index as nat);
}

/// Whether no two logs of a block share a transaction hash and a position.
pub open spec fn distinct_log_keys(block: BlockView) -> bool {
    forall|i: int, j: int|
        0 <= i < j < block_entries(block).len() ==> {
            let first = #[trigger] block_entries(block)[i];
            let second = #[trigger] block_entries(block)[j];
            first.tx_hash != second.tx_hash || first.log.index != second.log.index
        }
}

/// Where no two logs of a block share a transaction hash and a position, no
/// two records collected from the block share a primary key, given that each
/// record carries the provenance of the log it stems from.
pub proof fn lemma_collected_keys_are_unique<B>(
    block: BlockView,
    pick: spec_fn(LogEntry) -> Option<B>,
    origin: spec_fn(B) -> ProvenanceView,
    i: int,
    j: int,
)
    requires
        distinct_log_keys(block),
        forall|e: LogEntry|
            #[trigger] pick(e) is Some ==> origin(pick(e)->0) == origin_of(
                block.number,
                block.timestamp_seconds,
                e.tx_hash,
                e.log,
            ),
        0 <= i < j < collect_some(block_entries(block), pick).len(),
    ensures
        event_key(origin(collect_some(block_entries(block), pick)[i])) != event_key(
            origin(collect_some(block_entries(block), pick)[j]),
        ),
{
    let entries = block_entries(block);
    let places = picked_positions(entries, pick);
    let records = collect_some(entries, pick);
    lemma_collect_some_sources(entries, pick);
    let first = entries[places[i]];
    let second = entries[places[j]];
    assert(places[i] < places[j]);
    assert(pick(first) == Some(records[i]));
    assert(pick(second) == Some(records[j]));
    if event_key(origin(records[i])) == event_key(origin(records[j])) {
        law_event_keys_are_injective(
            origin(records[i]),
            first.tx_hash,
            origin(records[j]),
            second.tx_hash,
        );
    }
}

/// Key derivation, within a block. Where no two logs of a block share a
/// transaction hash and a position, any two rows of one event family have
/// different primary keys. `i` and `j` are the places of two records of the
/// family in its list.
pub proof fn law_row_keys_are_unique(
    block: BlockView,
    scope: ScopeSetView,
    registry: Set<Seq<char>>,
    i: int,
    j: int,
)
    requires
        distinct_log_keys(block),
        0 <= i < j,
    ensures
        j < batch_of(block, scope).fee_claims.len() ==> event_key(
            batch_of(block, scope).fee_claims[i].origin,
        ) != event_key(batch_of(block, scope).fee_claims[j].origin),
        j < batch_of(block, scope).extensions_triggered.len() ==> event_key(
            batch_of(block, scope).extensions_triggered[i].origin,
        ) != event_key(batch_of(block, scope).extensions_triggered[j].origin),
        j < batch_of(block, scope).metadata_updates.len() ==> event_key(
            batch_of(block, scope).metadata_updates[i].origin,
        ) != event_key(batch_of(block, scope).metadata_updates[j].origin),
        j < batch_of(block, scope).verifications.len() ==> event_key(
            batch_of(block, scope).verifications[i].origin,
        ) != event_key(batch_of(block, scope).verifications[j].origin),
        j < transfers_of(block, registry).transfers.len() ==> event_key(
            transfers_of(block, registry).transfers[i].origin,
        ) != event_key(transfers_of(block, registry).transfers[j].origin),
        j < batch_of(block, scope).airdrop_created.len() ==> event_key(
            batch_of(block, scope).airdrop_created[i].origin,
        ) != event_key(batch_of(block, scope).airdrop_created[j].origin),
        j < batch_of(block, scope).airdrop_claimed.len() ==> event_key(
            batch_of(block, scope).airdrop_claimed[i].origin,
        ) != event_key(batch_of(block, scope).airdrop_claimed[j].origin),
        j < batch_of(block, scope).auction_won.len() ==> event_key(
            batch_of(block, scope).auction_won[i].origin,
        ) != event_key(batch_of(block, scope).auction_won[j].origin),
{
    let s = setting_of(block, scope);
    let batch = batch_of(block, scope);
    if j < batch.fee_claims.len() {
        lemma_collected_keys_are_unique(block, fee_claim_in(s), |r: FeeClaimView| r.origin, i, j);
    }
    if j < batch.extensions_triggered.len() {
        lemma_collected_keys_are_unique(
            block,
            extension_triggered_in(s),
            |r: ExtensionTriggeredView| r.origin,
            i,
            j,
        );
    }
    if j < batch.metadata_updates.len() {
        lemma_collected_keys_are_unique(
            block,
            metadata_update_in(s),
            |r: TokenMetadataUpdateView| r.origin,
            i,
            j,
        );
    }
    if j < batch.verifications.len() {
        lemma_collected_keys_are_unique(
            block,
            verification_in(s),
            |r: TokenVerifiedView| r.origin,
            i,
            j,
        );
    }
    if j < transfers_of(block, registry).transfers.len() {
        lemma_collected_keys_are_unique(
            block,
            transfer_in(block.number, block.timestamp_seconds, registry),
            |r: TokenTransferView| r.origin,
            i,
            j,
        );
    }
    if j < batch.airdrop_created.len() {
        lemma_collected_keys_are_unique(
            block,
            airdrop_created_in(s),
            |r: AirdropCreatedView| r.origin,
            i,
            j,
        );
    }
    if j < batch.airdrop_claimed.len() {
        lemma_collected_keys_are_unique(
            block,
            airdrop_claimed_in(s),
            |r: AirdropClaimedView| r.origin,
            i,
            j,
        );
    }
    if j < batch.auction_won.len() {
        lemma_collected_keys_are_unique(block, auction_won_in(s), |r: AuctionWonView| r.origin, i, j);
    }
}

/// Fallback. A configuration without the recognised key, and one whose value
/// for it is not hexadecimal text, resolve to the default factory.
pub proof fn law_configuration_falls_back(params: Seq<char>)
    requires
        factory_override(params) matches Some(text) ==> hex_bytes(text) is None,
    ensures
        resolved_factory(params) == DEFAULT_CLANKER_FACTORY@,
        resolved_factory(params) == resolved_factory(Seq::empty()),
{
    assert(first_index(Seq::<char>::empty(), ',') == 0);
    assert(first_index(Seq::<char>::empty().take(0), '=') == 0);
}

/// Accumulation. Two amounts added under one key leave the sum of both on top
/// of what the key held, whatever else the store holds.
pub proof fn law_sums_accumulate(
    sums: Map<Seq<char>, int>,
    key: Seq<char>,
    first: Seq<char>,
    second: Seq<char>,
)
    requires
        integer_text_value(first) is Some,
        integer_text_value(second) is Some,
    ensures
        total(
            summed(
                sums,
                seq![SumDelta { key, amount: first }, SumDelta { key, amount: second }],
            ),
            key,
        ) == total(sums, key) + integer_text_value(first)->0 + integer_text_value(second)->0,
{
    let deltas = seq![SumDelta { key, amount: first }, SumDelta { key, amount: second }];
    assert(deltas.drop_last() =~= seq![SumDelta { key, amount: first }]);
    assert(deltas.drop_last().drop_last() =~= Seq::<SumDelta>::empty());
    reveal_with_fuel(Seq::fold_left, 3);
}

/// Every amount that the extractor renders is one that the sum stores read:
/// no transfer that was decoded is left out of its token's volume.
pub proof fn law_decoded_amounts_are_summed(data: Seq<u8>, offset: int)
    ensures
        integer_text_value(uint_text_at(data, offset)) is Some,
{
    lemma_decimal_text_parses(be_value(word_at(data, offset)->0));
}

} // verus!
