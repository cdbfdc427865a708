use clanker_events::aggregates::{CountStore, SumStore};
use clanker_events::integer::Integer;
use clanker_events::records::{
    AirdropClaimed, ClankerEvents, FeeClaim, Provenance, TokenCreated, TokenTransfer,
    TokenTransfers,
};
use clanker_events::store::KeyedStore;
use clanker_events::{
    store_airdrop_claims_per_token, store_airdrop_volume_per_token, store_creator_fees,
    store_creator_token_counts, store_token_transfer_counts, store_token_volume,
};

fn origin(index: u64) -> Provenance {
    Provenance { tx_hash: "ab".repeat(32), block_number: 1, block_timestamp: 2, log_index: index }
}

fn transfer(token: &str, amount: &str) -> TokenTransfer {
    TokenTransfer {
        origin: origin(0),
        token_address: token.to_string(),
        from: "f".to_string(),
        to: "t".to_string(),
        amount: amount.to_string(),
    }
}

fn fee(recipient: &str, amount: &str) -> FeeClaim {
    FeeClaim {
        origin: origin(0),
        token: "tok".to_string(),
        recipient: recipient.to_string(),
        amount: amount.to_string(),
    }
}

fn claim(token: &str, total: &str) -> AirdropClaimed {
    AirdropClaimed {
        origin: origin(0),
        token: token.to_string(),
        user: "u".to_string(),
        total_claimed: total.to_string(),
        still_locked: "999".to_string(),
    }
}

fn created(admin: &str) -> TokenCreated {
    TokenCreated {
        origin: origin(0),
        token_address: "t".to_string(),
        token_admin: admin.to_string(),
        token_name: String::new(),
        token_symbol: String::new(),
        token_image: String::new(),
        token_metadata: String::new(),
        token_context: String::new(),
        pool_id: String::new(),
        pool_hook: String::new(),
        paired_token: String::new(),
        starting_tick: 0,
        locker: String::new(),
        mev_module: String::new(),
        extensions_supply: String::new(),
        extensions: vec![],
        msg_sender: String::new(),
    }
}

fn sum_under(store: &SumStore, key: &str) -> Option<String> {
    store.get_latest(&key.to_string()).map(|sum| sum.to_text())
}

fn count_under(store: &CountStore, key: &str) -> Option<i64> {
    store.get_latest(&key.to_string()).copied()
}

fn sum_keys(store: &SumStore) -> Vec<String> {
    (0..store.len()).map(|at| store.entry(at).key.clone()).collect()
}

#[test]
fn two_additions_under_one_key_accumulate() {
    let mut store: SumStore = KeyedStore::new();
    store.add("volume:0xAA".to_string(), &Integer::parse("100").unwrap());
    store.add("volume:0xAA".to_string(), &Integer::parse("50").unwrap());
    assert_eq!(sum_under(&store, "volume:0xAA"), Some("150".to_string()));
    assert_eq!(store.len(), 1);
}

#[test]
fn absent_keys_start_at_zero() {
    let mut store: SumStore = KeyedStore::new();
    assert_eq!(sum_under(&store, "volume:0xAA"), None);
    store.add("volume:0xAA".to_string(), &Integer::parse("-7").unwrap());
    assert_eq!(sum_under(&store, "volume:0xAA"), Some("-7".to_string()));
    assert_eq!(sum_under(&store, "volume:0xAB"), None);

    let mut counts: CountStore = KeyedStore::new();
    counts.add("transfers:x".to_string(), 1);
    counts.add("transfers:x".to_string(), 41);
    counts.add("transfers:y".to_string(), -3);
    assert_eq!(count_under(&counts, "transfers:x"), Some(42));
    assert_eq!(count_under(&counts, "transfers:y"), Some(-3));
    assert_eq!(count_under(&counts, "transfers:z"), None);
}

#[test]
fn counts_reach_the_end_of_their_range() {
    let mut counts: CountStore = KeyedStore::new();
    counts.add("k".to_string(), i64::MAX - 1);
    counts.add("k".to_string(), 1);
    assert_eq!(count_under(&counts, "k"), Some(i64::MAX));
    counts.add("k".to_string(), i64::MIN);
    assert_eq!(count_under(&counts, "k"), Some(-1));
}

#[test]
fn volume_is_summed_per_token() {
    let transfers = TokenTransfers {
        transfers: vec![
            transfer("aa", "100"),
            transfer("bb", "7"),
            transfer("aa", "50"),
            transfer("aa", "340282366920938463463374607431768211456"),
        ],
    };
    let mut store: SumStore = KeyedStore::new();
    store_token_volume(&transfers, &mut store);
    assert_eq!(
        sum_under(&store, "volume:aa"),
        Some("340282366920938463463374607431768211606".to_string())
    );
    assert_eq!(sum_under(&store, "volume:bb"), Some("7".to_string()));
    assert_eq!(sum_keys(&store), vec!["volume:aa".to_string(), "volume:bb".to_string()]);

    store_token_volume(&transfers, &mut store);
    assert_eq!(
        sum_under(&store, "volume:aa"),
        Some("680564733841876926926749214863536423212".to_string())
    );
    assert_eq!(sum_under(&store, "volume:bb"), Some("14".to_string()));
}

#[test]
fn amounts_that_are_not_numbers_are_left_out() {
    let transfers = TokenTransfers {
        transfers: vec![
            transfer("aa", "ten"),
            transfer("aa", ""),
            transfer("aa", "1.5"),
            transfer("aa", "0x10"),
            transfer("cc", "nothing"),
            transfer("aa", "5"),
            transfer("aa", "-2"),
            transfer("aa", "+1_000"),
        ],
    };
    let mut store: SumStore = KeyedStore::new();
    store_token_volume(&transfers, &mut store);
    assert_eq!(sum_under(&store, "volume:aa"), Some("1003".to_string()));
    assert_eq!(sum_under(&store, "volume:cc"), None);
    assert_eq!(store.len(), 1);
}

#[test]
fn transfers_are_counted_per_token() {
    let transfers = TokenTransfers {
        transfers: vec![transfer("aa", "1"), transfer("bb", "x"), transfer("aa", "")],
    };
    let mut store: CountStore = KeyedStore::new();
    store_token_transfer_counts(&transfers, &mut store);
    assert_eq!(count_under(&store, "transfers:aa"), Some(2));
    assert_eq!(count_under(&store, "transfers:bb"), Some(1));
    store_token_transfer_counts(&transfers, &mut store);
    assert_eq!(count_under(&store, "transfers:aa"), Some(4));
    assert_eq!(store.len(), 2);
}

#[test]
fn fees_are_summed_per_recipient() {
    let mut events = ClankerEvents::new();
    events.fee_claims = vec![fee("r1", "10"), fee("r2", "1"), fee("r1", "bad"), fee("r1", "32")];
    let mut store: SumStore = KeyedStore::new();
    store_creator_fees(&events, &mut store);
    assert_eq!(sum_under(&store, "fees:r1"), Some("42".to_string()));
    assert_eq!(sum_under(&store, "fees:r2"), Some("1".to_string()));
    assert_eq!(sum_under(&store, "fees:tok"), None);
}

#[test]
fn tokens_are_counted_per_admin() {
    let mut events = ClankerEvents::new();
    events.token_created = vec![created("alice"), created("bob"), created("alice")];
    let mut store: CountStore = KeyedStore::new();
    store_creator_token_counts(&events, &mut store);
    assert_eq!(count_under(&store, "tokens:alice"), Some(2));
    assert_eq!(count_under(&store, "tokens:bob"), Some(1));
    assert_eq!(count_under(&store, "tokens:t"), None);
}

#[test]
fn airdrop_claims_are_counted_and_summed_per_token() {
    let mut events = ClankerEvents::new();
    events.airdrop_claimed = vec![claim("aa", "5"), claim("aa", "6"), claim("bb", "oops")];
    let mut counts: CountStore = KeyedStore::new();
    store_airdrop_claims_per_token(&events, &mut counts);
    assert_eq!(count_under(&counts, "airdrop_claims:aa"), Some(2));
    assert_eq!(count_under(&counts, "airdrop_claims:bb"), Some(1));

    let mut sums: SumStore = KeyedStore::new();
    store_airdrop_volume_per_token(&events, &mut sums);
    assert_eq!(sum_under(&sums, "airdrop_volume:aa"), Some("11".to_string()));
    assert_eq!(sum_under(&sums, "airdrop_volume:bb"), None);
}

#[test]
fn empty_batches_change_nothing() {
    let mut sums: SumStore = KeyedStore::new();
    sums.add("volume:aa".to_string(), &Integer::parse("3").unwrap());
    store_token_volume(&TokenTransfers { transfers: vec![] }, &mut sums);
    store_creator_fees(&ClankerEvents::new(), &mut sums);
    store_airdrop_volume_per_token(&ClankerEvents::new(), &mut sums);
    assert_eq!(sums.len(), 1);
    assert_eq!(sum_under(&sums, "volume:aa"), Some("3".to_string()));

    let mut counts: CountStore = KeyedStore::new();
    store_token_transfer_counts(&TokenTransfers { transfers: vec![] }, &mut counts);
    store_creator_token_counts(&ClankerEvents::new(), &mut counts);
    store_airdrop_claims_per_token(&ClankerEvents::new(), &mut counts);
    assert_eq!(counts.len(), 0);
}

#[test]
fn replaying_from_the_same_snapshot_gives_the_same_store() {
    let transfers = TokenTransfers {
        transfers: vec![transfer("aa", "100"), transfer("bb", "7"), transfer("aa", "50")],
    };
    let run = || {
        let mut store: SumStore = KeyedStore::new();
        store.add("volume:aa".to_string(), &Integer::parse("1").unwrap());
        store_token_volume(&transfers, &mut store);
        (0..store.len())
            .map(|at| (store.entry(at).key.clone(), store.entry(at).value.to_text()))
            .collect::<Vec<_>>()
    };
    assert_eq!(run(), run());
    assert_eq!(
        run(),
        vec![("volume:aa".to_string(), "151".to_string()), ("volume:bb".to_string(), "7".to_string())]
    );
}
