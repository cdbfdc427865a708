//! The input: a block as an ordered list of transactions, each an ordered
//! list of the logs it emitted.

use vstd::prelude::*;

verus! {

/// Views of the elements of `items`, in order.
pub open spec fn views<T: View>(items: Seq<T>) -> Seq<T::V> {
    items.map_values(|item: T| item@)
}

/// Appending an element appends its view.
pub proof fn lemma_views_push<T: View>(items: Seq<T>, item: T)
    ensures
        views(items.push(item)) == views(items).push(item@),
{
    assert(views(items.push(item)) =~= views(items).push(item@));
}

/// An event record emitted during a transaction.
#[derive(Clone, Debug, PartialEq, Eq)]
pub struct Log {
    /// Address of the contract that emitted the log.
    pub address: Vec<u8>,
    /// Signature hash first, then the indexed fields.
    pub topics: Vec<Vec<u8>>,
    /// ABI-encoded payload of the fields that are not indexed.
    pub data: Vec<u8>,
    /// Position of the log within its transaction.
    pub index: u32,
}

/// A log as a mathematical value.
pub struct LogView {
    pub address: Seq<u8>,
    pub topics: Seq<Seq<u8>>,
    pub data: Seq<u8>,
    pub index: u32,
}

impl View for Log {
    type V = LogView;

    open spec fn view(&self) -> LogView {
        LogView {
            address: self.address@,
            topics: views(self.topics@),
            data: self.data@,
            index: self.index,
        }
    }
}

/// A transaction that took effect, with the logs that were recorded for it.
#[derive(Clone, Debug, PartialEq, Eq)]
pub struct Transaction {
    pub hash: Vec<u8>,
    pub logs: Vec<Log>,
}

/// A transaction as a mathematical value.
pub struct TransactionView {
    pub hash: Seq<u8>,
    pub logs: Seq<LogView>,
}

impl View for Transaction {
    type V = TransactionView;

    open spec fn view(&self) -> TransactionView {
        TransactionView { hash: self.hash@, logs: views(self.logs@) }
    }
}

/// One unit of work.
#[derive(Clone, Debug, PartialEq, Eq)]
pub struct Block {
    pub number: u64,
    pub timestamp_seconds: u64,
    pub transactions: Vec<Transaction>,
}

/// A block as a mathematical value.
pub struct BlockView {
    pub number: u64,
    pub timestamp_seconds: u64,
    pub transactions: Seq<TransactionView>,
}

impl View for Block {
    type V = BlockView;

    open spec fn view(&self) -> BlockView {
        BlockView {
            number: self.number,
            timestamp_seconds: self.timestamp_seconds,
            transactions: views(self.transactions@),
        }
    }
}

/// A log together with where in its block it stands.
pub struct LogEntry {
    /// Index of the transaction within the block.
    pub tx_index: int,
    /// Index of the log within the transaction's list.
    pub position: int,
    pub tx_hash: Seq<u8>,
    pub log: LogView,
}

/// The first `count` logs of a transaction, in order.
pub open spec fn transaction_entries(tx_index: int, tx: TransactionView, count: int) -> Seq<
    LogEntry,
> {
    Seq::new(
        count as nat,
        |j: int| LogEntry { tx_index, position: j, tx_hash: tx.hash, log: tx.logs[j] },
    )
}

/// The logs of the first `count` transactions of a block: transaction by
/// transaction, and within each in the order of its list.
pub open spec fn entries_before(block: BlockView, count: int) -> Seq<LogEntry>
    decreases count,
{
    if count <= 0 {
        Seq::empty()
    } else {
        entries_before(block, count - 1) + transaction_entries(
            count - 1,
            block.transactions[count - 1],
            block.transactions[count - 1].logs.len() as int,
        )
    }
}

/// Every log of a block, in traversal order.
pub open spec fn block_entries(block: BlockView) -> Seq<LogEntry> {
    entries_before(block, block.transactions.len() as int)
}

/// What `pick` yields on the elements of `items`, in their order, leaving out
/// those on which it yields nothing.
pub open spec fn collect_some<A, B>(items: Seq<A>, pick: spec_fn(A) -> Option<B>) -> Seq<B>
    decreases items.len(),
{
    if items.len() == 0 {
        Seq::empty()
    } else {
        match pick(items.last()) {
            Some(found) => collect_some(items.drop_last(), pick).push(found),
            None => collect_some(items.drop_last(), pick),
        }
    }
}

/// One more element adds what `pick` yields on it, behind the rest.
pub proof fn lemma_collect_some_push<A, B>(items: Seq<A>, item: A, pick: spec_fn(A) -> Option<B>)
    ensures
        collect_some(items.push(item), pick) == match pick(item) {
            Some(found) => collect_some(items, pick).push(found),
            None => collect_some(items, pick),
        },
{
    assert(items.push(item).drop_last() =~= items);
}

/// The places in `items` of the elements on which `pick` yields something, in
/// ascending order.
pub open spec fn picked_positions<A, B>(items: Seq<A>, pick: spec_fn(A) -> Option<B>) -> Seq<int>
    decreases items.len(),
{
    if items.len() == 0 {
        Seq::empty()
    } else {
        match pick(items.last()) {
            Some(_) => picked_positions(items.drop_last(), pick).push(items.len() - 1),
            None => picked_positions(items.drop_last(), pick),
        }
    }
}

/// What is collected stands in the order of its sources: element `k` of the
/// result is what `pick` yields at place `k` of the picked positions, and
/// those positions ascend.
pub proof fn lemma_collect_some_sources<A, B>(items: Seq<A>, pick: spec_fn(A) -> Option<B>)
    ensures
        picked_positions(items, pick).len() == collect_some(items, pick).len(),
        forall|k: int|
            0 <= k < picked_positions(items, pick).len() ==> {
                let at = #[trigger] picked_positions(items, pick)[k];
                0 <= at < items.len() && pick(items[at]) == Some(collect_some(items, pick)[k])
            },
        forall|j: int, k: int|
            0 <= j < k < picked_positions(items, pick).len() ==> picked_positions(items, pick)[j]
                < picked_positions(items, pick)[k],
    decreases items.len(),
{
    if items.len() > 0 {
        lemma_collect_some_sources(items.drop_last(), pick);
    }
}

/// Nothing is left out: whatever `pick` yields on an element is among what is
/// collected.
pub proof fn lemma_collect_some_complete<A, B>(
    items: Seq<A>,
    pick: spec_fn(A) -> Option<B>,
    at: int,
)
    requires
        0 <= at < items.len(),
        pick(items[at]) is Some,
    ensures
        collect_some(items, pick).contains(pick(items[at])->0),
    decreases items.len(),
{
    let rest = collect_some(items.drop_last(), pick);
    if at == items.len() - 1 {
        assert(rest.push(pick(items[at])->0).last() == pick(items[at])->0);
    } else {
        lemma_collect_some_complete(items.drop_last(), pick, at);
        let k = choose|k: int| 0 <= k < rest.len() && rest[k] == pick(items[at])->0;
        match pick(items.last()) {
            Some(found) => {
                assert(rest.push(found)[k] == pick(items[at])->0);
            },
            None => {},
        }
    }
}

/// Where `pick` yields nothing on any element, nothing is collected.
pub proof fn lemma_collect_some_none<A, B>(items: Seq<A>, pick: spec_fn(A) -> Option<B>)
    requires
        forall|at: int| 0 <= at < items.len() ==> pick(#[trigger] items[at]) is None,
    ensures
        collect_some(items, pick).len() == 0,
    decreases items.len(),
{
    if items.len() > 0 {
        lemma_collect_some_none(items.drop_last(), pick);
    }
}

/// Whether `first` stands before `second` in traversal order: in an earlier
/// transaction, or earlier in the same one.
pub open spec fn precedes(first: LogEntry, second: LogEntry) -> bool {
    first.tx_index < second.tx_index || (first.tx_index == second.tx_index && first.position
        < second.position)
}

/// Whether `entry` is a log of `block`, at the place it says.
pub open spec fn entry_of_block(block: BlockView, entry: LogEntry) -> bool {
    &&& 0 <= entry.tx_index < block.transactions.len()
    &&& 0 <= entry.position < block.transactions[entry.tx_index].logs.len()
    &&& entry.tx_hash == block.transactions[entry.tx_index].hash
    &&& entry.log == block.transactions[entry.tx_index].logs[entry.position]
}

/// The entries of the first `count` transactions are logs of those
/// transactions, and they ascend by transaction and then by place.
pub proof fn lemma_entries_before(block: BlockView, count: int)
    requires
        0 <= count <= block.transactions.len(),
    ensures
        forall|at: int|
            0 <= at < entries_before(block, count).len() ==> entry_of_block(
                block,
                #[trigger] entries_before(block, count)[at],
            ) && entries_before(block, count)[at].tx_index < count,
        forall|i: int, j: int|
            0 <= i < j < entries_before(block, count).len() ==> precedes(
                #[trigger] entries_before(block, count)[i],
                #[trigger] entries_before(block, count)[j],
            ),
    decreases count,
{
    if count > 0 {
        lemma_entries_before(block, count - 1);
        let before = entries_before(block, count - 1);
        let tx = block.transactions[count - 1];
        let here = transaction_entries(count - 1, tx, tx.logs.len() as int);
        let all = entries_before(block, count);
        assert(all == before + here);
        assert forall|at: int| 0 <= at < all.len() implies entry_of_block(block, #[trigger] all[at])
            && all[at].tx_index < count by {
            if at < before.len() {
                assert(all[at] == before[at]);
            } else {
                assert(all[at] == here[at - before.len()]);
            }
        }
        assert forall|i: int, j: int| 0 <= i < j < all.len() implies precedes(
            #[trigger] all[i],
            #[trigger] all[j],
        ) by {
            if j < before.len() {
                assert(all[i] == before[i] && all[j] == before[j]);
            } else if i < before.len() {
                assert(all[i] == before[i] && all[j] == here[j - before.len()]);
            } else {
                assert(all[i] == here[i - before.len()] && all[j] == here[j - before.len()]);
            }
        }
    }
}

} // verus!
