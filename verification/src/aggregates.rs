//! Running sums and counts, keyed by entity: each qualifying record adds one
//! delta, and the deltas are applied in the order of the batch.

use crate::chain::views;
use crate::integer::{integer_text_value, Integer};
use crate::records::{
    AirdropClaimedView, ClankerEvents, FeeClaimView, TokenCreatedView, TokenTransferView,
    TokenTransfers,
};
use crate::store::KeyedStore;
use vstd::prelude::*;

verus! {

/// A store of running sums.
pub type SumStore = KeyedStore<Integer>;

/// A store of running counts.
pub type CountStore = KeyedStore<i64>;

/// A key with the decimal text of the amount to add under it.
pub struct SumDelta {
    pub key: Seq<char>,
    pub amount: Seq<char>,
}

/// The running total under `key`: zero where the key is not held.
pub open spec fn total(sums: Map<Seq<char>, int>, key: Seq<char>) -> int {
    if sums.contains_key(key) {
        sums[key]
    } else {
        0
    }
}

/// The running count under `key`: zero where the key is not held.
pub open spec fn count(counts: Map<Seq<char>, i64>, key: Seq<char>) -> int {
    if counts.contains_key(key) {
        counts[key] as int
    } else {
        0
    }
}

/// One delta at a time, as a step over the sums so far: an amount that is
/// not an integer in decimal text changes nothing.
pub open spec fn sum_step() -> spec_fn(Map<Seq<char>, int>, SumDelta) -> Map<Seq<char>, int> {
    |sums: Map<Seq<char>, int>, delta: SumDelta|
        match integer_text_value(delta.amount) {
            Some(amount) => sums.insert(delta.key, total(sums, delta.key) + amount),
            None => sums,
        }
}

/// The sums after `deltas`, applied in their order.
pub open spec fn summed(sums: Map<Seq<char>, int>, deltas: Seq<SumDelta>) -> Map<Seq<char>, int> {
    deltas.fold_left(sums, sum_step())
}

/// One key at a time, as a step over the counts so far.
pub open spec fn count_step() -> spec_fn(Map<Seq<char>, i64>, Seq<char>) -> Map<Seq<char>, i64> {
    |counts: Map<Seq<char>, i64>, key: Seq<char>|
        counts.insert(key, (count(counts, key) + 1) as i64)
}

/// The counts after one more under each of `keys`, in their order.
pub open spec fn counted(counts: Map<Seq<char>, i64>, keys: Seq<Seq<char>>) -> Map<
    Seq<char>,
    i64,
> {
    keys.fold_left(counts, count_step())
}

/// Whether counting one more under each of `keys` in turn never leaves the
/// range of a signed 64-bit counter.
pub open spec fn counts_fit(counts: Map<Seq<char>, i64>, keys: Seq<Seq<char>>) -> bool
    decreases keys.len(),
{
    keys.len() == 0 || (counts_fit(counts, keys.drop_last()) && count(
        counted(counts, keys.drop_last()),
        keys.last(),
    ) < i64::MAX)
}

/// What fits for a list of keys fits for every prefix of it.
pub proof fn lemma_counts_fit_prefix(counts: Map<Seq<char>, i64>, keys: Seq<Seq<char>>, len: int)
    requires
        counts_fit(counts, keys),
        0 <= len <= keys.len(),
    ensures
        counts_fit(counts, keys.take(len)),
    decreases keys.len() - len,
{
    if len == keys.len() {
        assert(keys.take(len) =~= keys);
    } else {
        lemma_counts_fit_prefix(counts, keys.drop_last(), len);
        assert(keys.drop_last().take(len) =~= keys.take(len));
    }
}

/// Counting under a list of keys raises no count by more than the length of
/// the list.
pub proof fn lemma_counted_bound(counts: Map<Seq<char>, i64>, keys: Seq<Seq<char>>, key: Seq<char>)
    requires
        forall|k: Seq<char>| count(counts, k) + keys.len() <= i64::MAX,
    ensures
        count(counts, key) <= count(counted(counts, keys), key) <= count(counts, key) + keys.len(),
    decreases keys.len(),
{
    if keys.len() > 0 {
        lemma_counted_bound(counts, keys.drop_last(), key);
        lemma_counted_bound(counts, keys.drop_last(), keys.last());
    }
}

/// Where every count leaves room for as many more as there are keys, counting
/// under those keys fits: so it does for a store without entries and any list
/// that a machine can hold.
pub proof fn lemma_counts_fit(counts: Map<Seq<char>, i64>, keys: Seq<Seq<char>>)
    requires
        forall|k: Seq<char>| count(counts, k) + keys.len() <= i64::MAX,
    ensures
        counts_fit(counts, keys),
    decreases keys.len(),
{
    if keys.len() > 0 {
        lemma_counts_fit(counts, keys.drop_last());
        lemma_counted_bound(counts, keys.drop_last(), keys.last());
    }
}

/// The sum deltas of a list of transfers: the amount of each, under the key
/// of its token's volume.
pub open spec fn volume_deltas(transfers: Seq<TokenTransferView>) -> Seq<SumDelta> {
    transfers.map_values(
        |t: TokenTransferView| SumDelta { key: "volume:"@ + t.token_address, amount: t.amount },
    )
}

/// The count keys of a list of transfers: one per transfer, that of its
/// token's transfer count.
pub open spec fn transfer_count_keys(transfers: Seq<TokenTransferView>) -> Seq<Seq<char>> {
    transfers.map_values(|t: TokenTransferView| "transfers:"@ + t.token_address)
}

/// The sum deltas of a list of fee claims: the amount of each, under the key
/// of its recipient's fees.
pub open spec fn fee_deltas(claims: Seq<FeeClaimView>) -> Seq<SumDelta> {
    claims.map_values(|f: FeeClaimView| SumDelta { key: "fees:"@ + f.recipient, amount: f.amount })
}

/// The count keys of a list of created tokens: one per token, that of its
/// admin's token count.
pub open spec fn creator_count_keys(created: Seq<TokenCreatedView>) -> Seq<Seq<char>> {
    created.map_values(|t: TokenCreatedView| "tokens:"@ + t.token_admin)
}

/// The count keys of a list of airdrop claims: one per claim, that of its
/// token's claim count.
pub open spec fn airdrop_claim_count_keys(claims: Seq<AirdropClaimedView>) -> Seq<Seq<char>> {
    claims.map_values(|c: AirdropClaimedView| "airdrop_claims:"@ + c.token)
}

/// The sum deltas of a list of airdrop claims: the total claimed of each,
/// under the key of its token's airdrop volume.
pub open spec fn airdrop_volume_deltas(claims: Seq<AirdropClaimedView>) -> Seq<SumDelta> {
    claims.map_values(
        |c: AirdropClaimedView|
            SumDelta { key: "airdrop_volume:"@ + c.token, amount: c.total_claimed },
    )
}

impl KeyedStore<Integer> {
    /// Adds `delta` to the running total under `key`, which starts at zero.
    pub fn add(&mut self, key: String, delta: &Integer)
        ensures
            final(self)@ == old(self)@.insert(key@, total(old(self)@, key@) + delta@),
    {
        let sum = match self.get_latest(&key) {
            Some(current) => current.plus(delta),
            None => Integer::zero().plus(delta),
        };
        self.set_latest(key, sum);
    }
}

impl KeyedStore<i64> {
    /// Adds `delta` to the running count under `key`, which starts at zero.
    pub fn add(&mut self, key: String, delta: i64)
        requires
            i64::MIN <= count(old(self)@, key@) + delta <= i64::MAX,
        ensures
            final(self)@ == old(self)@.insert(key@, (count(old(self)@, key@) + delta) as i64),
    {
        let sum: i64 = match self.get_latest(&key) {
            Some(current) => *current + delta,
            None => delta,
        };
        self.set_latest(key, sum);
    }
}

/// Builds a key from the name of what is aggregated and the entity's
/// identifier.
fn key_under(prefix: &str, identifier: &str) -> (key: String)
    ensures
        key@ == prefix@ + identifier@,
{
    let mut key = String::from_str(prefix);
    key.append(identifier);
    key
}

/// Applies one sum delta.
fn add_amount(store: &mut SumStore, prefix: &str, identifier: &str, amount: &str)
    ensures
        final(store)@ == sum_step()(
            old(store)@,
            SumDelta { key: prefix@ + identifier@, amount: amount@ },
        ),
{
    let key = key_under(prefix, identifier);
    if let Some(value) = Integer::parse(amount) {
        store.add(key, &value);
    }
}

/// Counts one more under a key.
fn add_one(store: &mut CountStore, prefix: &str, identifier: &str)
    requires
        count(old(store)@, prefix@ + identifier@) < i64::MAX,
    ensures
        final(store)@ == count_step()(old(store)@, prefix@ + identifier@),
{
    let key = key_under(prefix, identifier);
    store.add(key, 1);
}

/// Adds the amount of every transfer to the volume of its token. An amount
/// that is not decimal text is left out.
pub fn store_token_volume(transfers: &TokenTransfers, store: &mut SumStore)
    ensures
        final(store)@ == summed(old(store)@, volume_deltas(transfers@.transfers)),
{
    let ghost start = store@;
    let ghost deltas = volume_deltas(transfers@.transfers);
    let mut i: usize = 0;
    while i < transfers.transfers.len()
        invariant
            i <= transfers.transfers.len(),
            deltas == volume_deltas(views(transfers.transfers@)),
            store@ == summed(start, deltas.take(i as int)),
        decreases transfers.transfers.len() - i,
    {
        let transfer = &transfers.transfers[i];
        proof {
            assert(deltas.take(i + 1).drop_last() =~= deltas.take(i as int));
        }
        add_amount(store, "volume:", transfer.token_address.as_str(), transfer.amount.as_str());
        i = i + 1;
    }
    proof {
        assert(deltas.take(i as int) =~= deltas);
    }
}

/// Counts every transfer under its token.
pub fn store_token_transfer_counts(transfers: &TokenTransfers, store: &mut CountStore)
    requires
        counts_fit(old(store)@, transfer_count_keys(transfers@.transfers)),
    ensures
        final(store)@ == counted(old(store)@, transfer_count_keys(transfers@.transfers)),
{
    let ghost start = store@;
    let ghost keys = transfer_count_keys(transfers@.transfers);
    let mut i: usize = 0;
    while i < transfers.transfers.len()
        invariant
            i <= transfers.transfers.len(),
            keys == transfer_count_keys(views(transfers.transfers@)),
            counts_fit(start, keys),
            store@ == counted(start, keys.take(i as int)),
        decreases transfers.transfers.len() - i,
    {
        let transfer = &transfers.transfers[i];
        proof {
            assert(keys.take(i + 1).drop_last() =~= keys.take(i as int));
            lemma_counts_fit_prefix(start, keys, i + 1);
        }
        add_one(store, "transfers:", transfer.token_address.as_str());
        i = i + 1;
    }
    proof {
        assert(keys.take(i as int) =~= keys);
    }
}

/// Adds the amount of every fee claim to the fees of its recipient. An amount
/// that is not decimal text is left out.
pub fn store_creator_fees(events: &ClankerEvents, store: &mut SumStore)
    ensures
        final(store)@ == summed(old(store)@, fee_deltas(events@.fee_claims)),
{
    let ghost start = store@;
    let ghost deltas = fee_deltas(events@.fee_claims);
    let mut i: usize = 0;
    while i < events.fee_claims.len()
        invariant
            i <= events.fee_claims.len(),
            deltas == fee_deltas(views(events.fee_claims@)),
            store@ == summed(start, deltas.take(i as int)),
        decreases events.fee_claims.len() - i,
    {
        let fee = &events.fee_claims[i];
        proof {
            assert(deltas.take(i + 1).drop_last() =~= deltas.take(i as int));
        }
        add_amount(store, "fees:", fee.recipient.as_str(), fee.amount.as_str());
        i = i + 1;
    }
    proof {
        assert(deltas.take(i as int) =~= deltas);
    }
}

/// Counts every created token under its admin.
pub fn store_creator_token_counts(events: &ClankerEvents, store: &mut CountStore)
    requires
        counts_fit(old(store)@, creator_count_keys(events@.token_created)),
    ensures
        final(store)@ == counted(old(store)@, creator_count_keys(events@.token_created)),
{
    let ghost start = store@;
    let ghost keys = creator_count_keys(events@.token_created);
    let mut i: usize = 0;
    while i < events.token_created.len()
        invariant
            i <= events.token_created.len(),
            keys == creator_count_keys(views(events.token_created@)),
            counts_fit(start, keys),
            store@ == counted(start, keys.take(i as int)),
        decreases events.token_created.len() - i,
    {
        let token = &events.token_created[i];
        proof {
            assert(keys.take(i + 1).drop_last() =~= keys.take(i as int));
            lemma_counts_fit_prefix(start, keys, i + 1);
        }
        add_one(store, "tokens:", token.token_admin.as_str());
        i = i + 1;
    }
    proof {
        assert(keys.take(i as int) =~= keys);
    }
}

/// Counts every airdrop claim under its token.
pub fn store_airdrop_claims_per_token(events: &ClankerEvents, store: &mut CountStore)
    requires
        counts_fit(old(store)@, airdrop_claim_count_keys(events@.airdrop_claimed)),
    ensures
        final(store)@ == counted(old(store)@, airdrop_claim_count_keys(events@.airdrop_claimed)),
{
    let ghost start = store@;
    let ghost keys = airdrop_claim_count_keys(events@.airdrop_claimed);
    let mut i: usize = 0;
    while i < events.airdrop_claimed.len()
        invariant
            i <= events.airdrop_claimed.len(),
            keys == airdrop_claim_count_keys(views(events.airdrop_claimed@)),
            counts_fit(start, keys),
            store@ == counted(start, keys.take(i as int)),
        decreases events.airdrop_claimed.len() - i,
    {
        let claim = &events.airdrop_claimed[i];
        proof {
            assert(keys.take(i + 1).drop_last() =~= keys.take(i as int));
            lemma_counts_fit_prefix(start, keys, i + 1);
        }
        add_one(store, "airdrop_claims:", claim.token.as_str());
        i = i + 1;
    }
    proof {
        assert(keys.take(i as int) =~= keys);
    }
}

/// Adds the total claimed of every airdrop claim to the airdrop volume of its
/// token. An amount that is not decimal text is left out.
pub fn store_airdrop_volume_per_token(events: &ClankerEvents, store: &mut SumStore)
    ensures
        final(store)@ == summed(old(store)@, airdrop_volume_deltas(events@.airdrop_claimed)),
{
    let ghost start = store@;
    let ghost deltas = airdrop_volume_deltas(events@.airdrop_claimed);
    let mut i: usize = 0;
    while i < events.airdrop_claimed.len()
        invariant
            i <= events.airdrop_claimed.len(),
            deltas == airdrop_volume_deltas(views(events.airdrop_claimed@)),
            store@ == summed(start, deltas.take(i as int)),
        decreases events.airdrop_claimed.len() - i,
    {
        let claim = &events.airdrop_claimed[i];
        proof {
            assert(deltas.take(i + 1).drop_last() =~= deltas.take(i as int));
        }
        add_amount(store, "airdrop_volume:", claim.token.as_str(), claim.total_claimed.as_str());
        i = i + 1;
    }
    proof {
        assert(deltas.take(i as int) =~= deltas);
    }
}

} // verus!
