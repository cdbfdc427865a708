//! The token registry and the stage that it gates: a token enters the
//! registry with its creation event, and only transfers of registered tokens
//! are kept.

use crate::chain::{
    block_entries, collect_some, entries_before, lemma_collect_some_push, lemma_views_push,
    transaction_entries, views, Block, BlockView, LogEntry,
};
use crate::decode::{decode_transfer, transfer_of};
use crate::hexfmt::{hex_encode, hex_lower};
use crate::records::{
    ClankerEvents, Token, TokenCreated, TokenCreatedView, TokenTransfer, TokenTransferView,
    TokenTransfers, TokenTransfersView, TokenView,
};
use crate::store::KeyedStore;
use vstd::prelude::*;

verus! {

/// The registry: tokens by key.
pub type Registry = KeyedStore<Token>;

/// The registry key of the token at an address, given as hexadecimal text.
pub open spec fn token_key(address: Seq<char>) -> Seq<char> {
    "token:"@ + address
}

/// The registry entry that a creation event leaves.
pub open spec fn token_entry(created: TokenCreatedView) -> TokenView {
    TokenView {
        address: created.token_address,
        name: created.token_name,
        symbol: created.token_symbol,
        admin: created.token_admin,
        image: created.token_image,
        pool_id: created.pool_id,
        paired_token: created.paired_token,
        created_at_block: created.origin.block_number,
        created_at_timestamp: created.origin.block_timestamp,
    }
}

/// One creation event at a time, as a step over the registry so far.
pub open spec fn register_step() -> spec_fn(Map<Seq<char>, TokenView>, TokenCreatedView) -> Map<
    Seq<char>,
    TokenView,
> {
    |registry: Map<Seq<char>, TokenView>, created: TokenCreatedView|
        registry.insert(token_key(created.token_address), token_entry(created))
}

/// The registry after the creation events of a batch, applied in their order.
pub open spec fn registered(registry: Map<Seq<char>, TokenView>, created: Seq<TokenCreatedView>)
    -> Map<Seq<char>, TokenView> {
    created.fold_left(registry, register_step())
}

/// The transfer record of a log: only a log of a registered token has one.
pub open spec fn transfer_in(number: u64, timestamp: u64, registry: Set<Seq<char>>) -> spec_fn(
    LogEntry,
) -> Option<TokenTransferView> {
    |e: LogEntry|
        if registry.contains(token_key(hex_lower(e.log.address))) {
            transfer_of(number, timestamp, e.tx_hash, e.log)
        } else {
            None
        }
}

/// The transfers that `entries` give rise to, in the order of the entries.
pub open spec fn transfers_over(
    entries: Seq<LogEntry>,
    number: u64,
    timestamp: u64,
    registry: Set<Seq<char>>,
) -> TokenTransfersView {
    TokenTransfersView {
        transfers: collect_some(entries, transfer_in(number, timestamp, registry)),
    }
}

/// The transfers of a block, given the keys that the registry holds.
pub open spec fn transfers_of(block: BlockView, registry: Set<Seq<char>>) -> TokenTransfersView {
    transfers_over(block_entries(block), block.number, block.timestamp_seconds, registry)
}

/// Builds the registry key of the token at `address`.
pub fn key_of_token(address: &str) -> (key: String)
    ensures
        key@ == token_key(address@),
{
    let mut key = String::from_str("token:");
    key.append(address);
    key
}

/// Builds the registry entry of a created token.
fn entry_of(created: &TokenCreated) -> (token: Token)
    ensures
        token@ == token_entry(created@),
{
    Token {
        address: created.token_address.clone(),
        name: created.token_name.clone(),
        symbol: created.token_symbol.clone(),
        admin: created.token_admin.clone(),
        image: created.token_image.clone(),
        pool_id: created.pool_id.clone(),
        paired_token: created.paired_token.clone(),
        created_at_block: created.origin.block_number,
        created_at_timestamp: created.origin.block_timestamp,
    }
}

/// Enters every token created in a batch into the registry, under the key of
/// its address and in the order of the batch. A key that is written again
/// holds what was written last.
pub fn store_tokens(events: &ClankerEvents, store: &mut Registry)
    ensures
        final(store)@ == registered(old(store)@, events@.token_created),
{
    let ghost start = store@;
    let ghost created = events@.token_created;
    let mut i: usize = 0;
    while i < events.token_created.len()
        invariant
            i <= events.token_created.len(),
            created == views(events.token_created@),
            store@ == registered(start, created.take(i as int)),
        decreases events.token_created.len() - i,
    {
        let token_created = &events.token_created[i];
        proof {
            assert(created.take(i + 1).drop_last() =~= created.take(i as int));
        }
        let key = key_of_token(token_created.token_address.as_str());
        store.set_latest(key, entry_of(token_created));
        i = i + 1;
    }
    proof {
        assert(created.take(i as int) =~= created);
    }
}

/// The transfers of `block` that belong to registered tokens: one record per
/// log that has the shape of a transfer, decodes, and comes from an address
/// whose key the registry holds, in the order in which the block lists the
/// logs. A log of an address that the registry does not hold leaves no record.
pub fn map_token_transfers(block: &Block, store: &Registry) -> (transfers: TokenTransfers)
    ensures
        transfers@ == transfers_of(block@, store@.dom()),
{
    let ghost pick = transfer_in(block.number, block.timestamp_seconds, store@.dom());
    let mut found: Vec<TokenTransfer> = Vec::new();
    let mut i: usize = 0;
    assert(views(found@) =~= collect_some(entries_before(block@, 0), pick));
    while i < block.transactions.len()
        invariant
            i <= block.transactions.len(),
            pick == transfer_in(block.number, block.timestamp_seconds, store@.dom()),
            views(found@) == collect_some(entries_before(block@, i as int), pick),
        decreases block.transactions.len() - i,
    {
        let tx = &block.transactions[i];
        let ghost before = entries_before(block@, i as int);
        let mut j: usize = 0;
        assert(before + transaction_entries(i as int, tx@, 0) =~= before);
        while j < tx.logs.len()
            invariant
                i < block.transactions.len(),
                tx == &block.transactions[i as int],
                j <= tx.logs.len(),
                pick == transfer_in(block.number, block.timestamp_seconds, store@.dom()),
                before == entries_before(block@, i as int),
                views(found@) == collect_some(
                    before + transaction_entries(i as int, tx@, j as int),
                    pick,
                ),
            decreases tx.logs.len() - j,
        {
            let log = &tx.logs[j];
            let ghost e = LogEntry {
                tx_index: i as int,
                position: j as int,
                tx_hash: tx@.hash,
                log: log@,
            };
            proof {
                let so_far = before + transaction_entries(i as int, tx@, j as int);
                assert(before + transaction_entries(i as int, tx@, j + 1) =~= so_far.push(e));
                lemma_collect_some_push(so_far, e, pick);
            }
            let token_key = key_of_token(hex_encode(log.address.as_slice()).as_str());
            if store.get_latest(&token_key).is_some() {
                if let Some(record) = decode_transfer(
                    block.number,
                    block.timestamp_seconds,
                    tx.hash.as_slice(),
                    log,
                ) {
                    proof {
                        lemma_views_push(found@, record);
                    }
                    found.push(record);
                }
            }
            j = j + 1;
        }
        assert(block@.transactions[i as int] == tx@);
        i = i + 1;
    }
    TokenTransfers { transfers: found }
}

} // verus!
