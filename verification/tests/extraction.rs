use clanker_events::chain::{Block, Log, Transaction};
use clanker_events::extract::extract_events;
use clanker_events::map_clanker_events;
use clanker_events::records::ClankerEvents;
use clanker_events::schema::{
    AIRDROP_CLAIMED_TOPIC, AIRDROP_CREATED_TOPIC, AUCTION_WON_TOPIC, CLAIM_TEAM_FEES_TOPIC,
    EXTENSION_TRIGGERED_TOPIC, TRANSFER_TOPIC, UPDATE_IMAGE_TOPIC, UPDATE_METADATA_TOPIC,
    VERIFIED_TOPIC,
};
use clanker_events::scope::{
    resolve, ScopeSet, CLANKER_AIRDROP, CLANKER_AUCTION, DEFAULT_CLANKER_FACTORY,
};

fn word(value: u128) -> Vec<u8> {
    let mut out = vec![0u8; 16];
    out.extend_from_slice(&value.to_be_bytes());
    out
}

fn address_word(byte: u8) -> Vec<u8> {
    let mut out = vec![0u8; 12];
    out.extend_from_slice(&[byte; 20]);
    out
}

fn concat(parts: &[Vec<u8>]) -> Vec<u8> {
    parts.iter().flat_map(|part| part.iter().copied()).collect()
}

fn fee_claim(source: &[u8], amount: u128, index: u32) -> Log {
    Log {
        address: source.to_vec(),
        topics: vec![CLAIM_TEAM_FEES_TOPIC.to_vec(), address_word(0x31), address_word(0x32)],
        data: word(amount),
        index,
    }
}

fn extension(source: &[u8], index: u32) -> Log {
    Log {
        address: source.to_vec(),
        topics: vec![EXTENSION_TRIGGERED_TOPIC.to_vec()],
        data: concat(&[address_word(0x41), word(1), word(2)]),
        index,
    }
}

fn text_update(source: &[u8], topic0: [u8; 32], text: &str, index: u32) -> Log {
    let mut data = concat(&[word(32), word(text.len() as u128)]);
    data.extend_from_slice(text.as_bytes());
    while data.len() % 32 != 0 {
        data.push(0);
    }
    Log { address: source.to_vec(), topics: vec![topic0.to_vec()], data, index }
}

fn verified(source: &[u8], index: u32) -> Log {
    Log {
        address: source.to_vec(),
        topics: vec![VERIFIED_TOPIC.to_vec(), address_word(0x61), address_word(0x62)],
        data: vec![],
        index,
    }
}

fn transfer(source: &[u8], index: u32) -> Log {
    Log {
        address: source.to_vec(),
        topics: vec![TRANSFER_TOPIC.to_vec(), address_word(0x71), address_word(0x72)],
        data: word(1),
        index,
    }
}

fn airdrop_created(source: &[u8], index: u32) -> Log {
    Log {
        address: source.to_vec(),
        topics: vec![AIRDROP_CREATED_TOPIC.to_vec(), address_word(0x81), address_word(0x82)],
        data: concat(&[vec![9; 32], word(1), word(2), word(3)]),
        index,
    }
}

fn airdrop_claimed(source: &[u8], index: u32) -> Log {
    Log {
        address: source.to_vec(),
        topics: vec![AIRDROP_CLAIMED_TOPIC.to_vec(), address_word(0x91), address_word(0x92)],
        data: concat(&[word(1), word(2)]),
        index,
    }
}

fn auction_won(source: &[u8], index: u32) -> Log {
    Log {
        address: source.to_vec(),
        topics: vec![AUCTION_WON_TOPIC.to_vec(), vec![0x0a; 32], address_word(0xa2)],
        data: concat(&[word(1), word(2)]),
        index,
    }
}

fn block_of(transactions: Vec<Transaction>) -> Block {
    Block { number: 31_000_000, timestamp_seconds: 1_750_000_000, transactions }
}

fn tx(hash: u8, logs: Vec<Log>) -> Transaction {
    Transaction { hash: vec![hash; 32], logs }
}

fn counts(events: &ClankerEvents) -> [usize; 8] {
    [
        events.token_created.len(),
        events.fee_claims.len(),
        events.extensions_triggered.len(),
        events.metadata_updates.len(),
        events.verifications.len(),
        events.airdrop_created.len(),
        events.airdrop_claimed.len(),
        events.auction_won.len(),
    ]
}

#[test]
fn an_empty_block_gives_an_empty_batch() {
    let events = map_clanker_events("", &block_of(vec![]));
    assert_eq!(events, ClankerEvents::new());
    assert_eq!(counts(&events), [0; 8]);
    let events = map_clanker_events("", &block_of(vec![tx(1, vec![]), tx(2, vec![])]));
    assert_eq!(counts(&events), [0; 8]);
}

#[test]
fn records_keep_the_order_of_the_logs() {
    let factory = DEFAULT_CLANKER_FACTORY;
    let block = block_of(vec![
        tx(0xa1, vec![fee_claim(&factory, 10, 4), transfer(&factory, 5), fee_claim(&factory, 11, 9)]),
        tx(0xa2, vec![]),
        tx(0xa3, vec![fee_claim(&factory, 12, 0), fee_claim(&factory, 13, 1)]),
    ]);
    let events = map_clanker_events("", &block);
    let seen: Vec<(String, u64, String)> = events
        .fee_claims
        .iter()
        .map(|fee| (fee.origin.tx_hash.clone(), fee.origin.log_index, fee.amount.clone()))
        .collect();
    assert_eq!(
        seen,
        vec![
            ("a1".repeat(32), 4, "10".to_string()),
            ("a1".repeat(32), 9, "11".to_string()),
            ("a3".repeat(32), 0, "12".to_string()),
            ("a3".repeat(32), 1, "13".to_string()),
        ]
    );
    for fee in &events.fee_claims {
        assert_eq!(fee.origin.block_number, 31_000_000);
        assert_eq!(fee.origin.block_timestamp, 1_750_000_000);
    }
}

#[test]
fn order_is_that_of_the_list_not_of_the_index_field() {
    let factory = DEFAULT_CLANKER_FACTORY;
    let block = block_of(vec![tx(
        1,
        vec![fee_claim(&factory, 1, 7), fee_claim(&factory, 2, 3), fee_claim(&factory, 3, 7)],
    )]);
    let events = map_clanker_events("", &block);
    let seen: Vec<u64> = events.fee_claims.iter().map(|fee| fee.origin.log_index).collect();
    assert_eq!(seen, vec![7, 3, 7]);
}

#[test]
fn factory_events_need_the_factory_address() {
    let elsewhere = [0x77u8; 20];
    let block = block_of(vec![tx(
        1,
        vec![fee_claim(&elsewhere, 1, 0), extension(&elsewhere, 1), fee_claim(&[], 1, 2)],
    )]);
    assert_eq!(counts(&map_clanker_events("", &block)), [0; 8]);

    let block = block_of(vec![tx(
        1,
        vec![
            fee_claim(&DEFAULT_CLANKER_FACTORY, 1, 0),
            extension(&DEFAULT_CLANKER_FACTORY, 1),
            fee_claim(&elsewhere, 1, 2),
        ],
    )]);
    assert_eq!(counts(&map_clanker_events("", &block)), [0, 1, 1, 0, 0, 0, 0, 0]);
}

#[test]
fn the_override_moves_the_factory() {
    let elsewhere = [0x77u8; 20];
    let block = block_of(vec![tx(
        1,
        vec![fee_claim(&elsewhere, 1, 0), fee_claim(&DEFAULT_CLANKER_FACTORY, 2, 1)],
    )]);
    let params = format!("clanker_factory=0x{}", "77".repeat(20));
    let events = map_clanker_events(&params, &block);
    assert_eq!(events.fee_claims.len(), 1);
    assert_eq!(events.fee_claims[0].amount, "1");
    assert_eq!(events, extract_events(&block, &resolve(&params)));
    assert_eq!(events, extract_events(&block, &ScopeSet::around(elsewhere.to_vec())));

    let events = map_clanker_events("clanker_factory=oops", &block);
    assert_eq!(events.fee_claims.len(), 1);
    assert_eq!(events.fee_claims[0].amount, "2");
}

#[test]
fn token_events_are_taken_from_any_address() {
    let block = block_of(vec![tx(
        1,
        vec![
            text_update(&[0x51; 20], UPDATE_IMAGE_TOPIC, "i", 0),
            text_update(&[0x52; 20], UPDATE_METADATA_TOPIC, "m", 1),
            verified(&[0x53; 20], 2),
            text_update(&DEFAULT_CLANKER_FACTORY, UPDATE_IMAGE_TOPIC, "f", 3),
        ],
    )]);
    let events = map_clanker_events("", &block);
    assert_eq!(counts(&events), [0, 0, 0, 3, 1, 0, 0, 0]);
    let seen: Vec<(String, String, String)> = events
        .metadata_updates
        .iter()
        .map(|u| (u.token_address.clone(), u.update_type.clone(), u.new_value.clone()))
        .collect();
    assert_eq!(
        seen,
        vec![
            ("51".repeat(20), "image".to_string(), "i".to_string()),
            ("52".repeat(20), "metadata".to_string(), "m".to_string()),
            (hex::encode(DEFAULT_CLANKER_FACTORY), "image".to_string(), "f".to_string()),
        ]
    );
    assert_eq!(events.verifications[0].token_address, "62".repeat(20));
}

#[test]
fn transfers_are_not_part_of_the_batch() {
    let block = block_of(vec![tx(1, vec![transfer(&DEFAULT_CLANKER_FACTORY, 0)])]);
    assert_eq!(counts(&map_clanker_events("", &block)), [0; 8]);
}

#[test]
fn satellite_events_need_the_satellite_address() {
    let block = block_of(vec![tx(
        1,
        vec![
            airdrop_created(&CLANKER_AIRDROP, 0),
            airdrop_claimed(&CLANKER_AIRDROP, 1),
            auction_won(&CLANKER_AUCTION, 2),
            airdrop_created(&CLANKER_AUCTION, 3),
            airdrop_claimed(&DEFAULT_CLANKER_FACTORY, 4),
            auction_won(&CLANKER_AIRDROP, 5),
            auction_won(&[0x77; 20], 6),
        ],
    )]);
    let events = map_clanker_events("", &block);
    assert_eq!(counts(&events), [0, 0, 0, 0, 0, 1, 1, 1]);
    assert_eq!(events.airdrop_created[0].origin.log_index, 0);
    assert_eq!(events.airdrop_claimed[0].origin.log_index, 1);
    assert_eq!(events.auction_won[0].origin.log_index, 2);

    let params = format!("clanker_factory={}", hex::encode(CLANKER_AIRDROP));
    let events = map_clanker_events(&params, &block);
    assert_eq!(counts(&events), [0, 0, 0, 0, 0, 1, 1, 1]);
}

#[test]
fn one_address_may_be_factory_and_satellite() {
    let params = format!("clanker_factory={}", hex::encode(CLANKER_AIRDROP));
    let block = block_of(vec![tx(
        1,
        vec![fee_claim(&CLANKER_AIRDROP, 5, 0), airdrop_claimed(&CLANKER_AIRDROP, 1)],
    )]);
    assert_eq!(counts(&map_clanker_events(&params, &block)), [0, 1, 0, 0, 0, 0, 1, 0]);
}

#[test]
fn malformed_logs_are_skipped_without_stopping_the_block() {
    let factory = DEFAULT_CLANKER_FACTORY;
    let mut broken = fee_claim(&factory, 1, 0);
    broken.data.pop();
    let mut short_topic = fee_claim(&factory, 2, 1);
    short_topic.topics[1].pop();
    let no_topics = Log { address: factory.to_vec(), topics: vec![], data: vec![], index: 2 };
    let block =
        block_of(vec![tx(1, vec![broken, short_topic, no_topics, fee_claim(&factory, 3, 3)])]);
    let events = map_clanker_events("", &block);
    assert_eq!(counts(&events), [0, 1, 0, 0, 0, 0, 0, 0]);
    assert_eq!(events.fee_claims[0].amount, "3");
}

#[test]
fn the_same_block_gives_the_same_batch() {
    let factory = DEFAULT_CLANKER_FACTORY;
    let block = block_of(vec![
        tx(1, vec![fee_claim(&factory, 1, 0), verified(&[5; 20], 1)]),
        tx(2, vec![airdrop_claimed(&CLANKER_AIRDROP, 0), extension(&factory, 1)]),
    ]);
    let first = map_clanker_events("", &block);
    let second = map_clanker_events("", &block.clone());
    assert_eq!(first, second);
    assert_eq!(counts(&first), [0, 1, 1, 0, 1, 0, 1, 0]);
}
