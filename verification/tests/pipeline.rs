use clanker_events::aggregates::{CountStore, SumStore};
use clanker_events::chain::{Block, Log, Transaction};
use clanker_events::registry::Registry;
use clanker_events::schema::{CLAIM_TEAM_FEES_TOPIC, TOKEN_CREATED_TOPIC, TRANSFER_TOPIC};
use clanker_events::scope::DEFAULT_CLANKER_FACTORY;
use clanker_events::store::KeyedStore;
use clanker_events::{
    db_out, map_clanker_events, map_token_transfers, store_creator_fees,
    store_creator_token_counts, store_token_transfer_counts, store_token_volume, store_tokens,
};
use substreams_database_change::pb::sf::substreams::sink::database::v1::table_change::PrimaryKey;
use substreams_database_change::pb::sf::substreams::sink::database::v1::TableChange;

fn word(value: u128) -> Vec<u8> {
    let mut out = vec![0u8; 16];
    out.extend_from_slice(&value.to_be_bytes());
    out
}

fn address_word(byte: u8) -> Vec<u8> {
    let mut out = vec![0u8; 12];
    out.extend_from_slice(&[byte; 20]);
    out
}

fn tail_of(text: &str) -> Vec<u8> {
    let mut out = word(text.len() as u128);
    out.extend_from_slice(text.as_bytes());
    while out.len() % 32 != 0 {
        out.push(0);
    }
    out
}

fn creation_log(token: u8, admin: u8, name: &str, symbol: &str, index: u32) -> Log {
    let tails = [tail_of("image"), tail_of(name), tail_of(symbol), tail_of("{}"), tail_of("ctx")];
    let mut offsets = Vec::new();
    let mut at = 14 * 32;
    for tail in &tails {
        offsets.push(at as u128);
        at += tail.len();
    }
    let mut data = Vec::new();
    data.extend(address_word(0x03));
    for offset in &offsets {
        data.extend(word(*offset));
    }
    data.extend(vec![0xff; 29]);
    data.extend([0xfc, 0x7c, 0x00]);
    data.extend(address_word(0x04));
    data.extend(vec![0x05; 32]);
    data.extend(address_word(0x06));
    data.extend(address_word(0x07));
    data.extend(address_word(0x08));
    data.extend(word(0));
    data.extend(word(at as u128));
    for tail in &tails {
        data.extend(tail.iter());
    }
    data.extend(word(0));
    Log {
        address: DEFAULT_CLANKER_FACTORY.to_vec(),
        topics: vec![TOKEN_CREATED_TOPIC.to_vec(), address_word(token), address_word(admin)],
        data,
        index,
    }
}

fn transfer_log(token: u8, amount: u128, index: u32) -> Log {
    Log {
        address: vec![token; 20],
        topics: vec![TRANSFER_TOPIC.to_vec(), address_word(0x71), address_word(0x72)],
        data: word(amount),
        index,
    }
}

fn fee_log(recipient: u8, amount: u128, index: u32) -> Log {
    Log {
        address: DEFAULT_CLANKER_FACTORY.to_vec(),
        topics: vec![CLAIM_TEAM_FEES_TOPIC.to_vec(), address_word(0x01), address_word(recipient)],
        data: word(amount),
        index,
    }
}

fn pk(change: &TableChange) -> String {
    match &change.primary_key {
        Some(PrimaryKey::Pk(key)) => key.clone(),
        other => panic!("unexpected key {:?}", other),
    }
}

fn value_of(change: &TableChange, column: &str) -> String {
    change.fields.iter().find(|f| f.name == column).map(|f| f.value.clone()).unwrap()
}

#[test]
fn one_creation_log_from_the_factory_runs_through_every_stage() {
    let hash: Vec<u8> = (0u8..32).collect();
    let block = Block {
        number: 31_000_000,
        timestamp_seconds: 1_750_000_000,
        transactions: vec![Transaction {
            hash: hash.clone(),
            logs: vec![creation_log(0x01, 0x02, "Foo", "FOO", 3)],
        }],
    };

    let events = map_clanker_events("", &block);
    assert_eq!(events.token_created.len(), 1);
    assert!(events.fee_claims.is_empty());
    assert!(events.metadata_updates.is_empty());
    let record = &events.token_created[0];
    assert_eq!(record.origin.tx_hash, hex::encode(&hash));
    assert_eq!(record.origin.log_index, 3);
    assert_eq!(record.origin.block_number, 31_000_000);
    assert_eq!(record.origin.block_timestamp, 1_750_000_000);
    assert_eq!(record.token_address, "01".repeat(20));
    assert_eq!(record.token_admin, "02".repeat(20));
    assert_eq!(record.token_name, "Foo");
    assert_eq!(record.token_symbol, "FOO");
    assert_eq!(record.starting_tick, -230_400);

    let mut registry: Registry = KeyedStore::new();
    store_tokens(&events, &mut registry);
    let entry = registry.get_latest(&format!("token:{}", "01".repeat(20))).unwrap();
    assert_eq!(entry.address, "01".repeat(20));
    assert_eq!(entry.name, "Foo");
    assert_eq!(entry.symbol, "FOO");
    assert_eq!(entry.admin, "02".repeat(20));
    assert_eq!(entry.created_at_block, 31_000_000);
    assert_eq!(entry.created_at_timestamp, 1_750_000_000);
    assert_eq!(registry.len(), 1);

    let transfers = map_token_transfers(&block, &registry);
    assert!(transfers.transfers.is_empty());

    let rows = db_out(&events, &transfers).to_database_changes().table_changes;
    assert_eq!(rows.len(), 1);
    assert_eq!(rows[0].table, "tokens");
    assert_eq!(pk(&rows[0]), "01".repeat(20));
    assert_eq!(value_of(&rows[0], "tx_hash"), hex::encode(&hash));
    assert_eq!(value_of(&rows[0], "log_index"), "3");
    assert_eq!(value_of(&rows[0], "name"), "Foo");
    assert_eq!(value_of(&rows[0], "symbol"), "FOO");
    assert_eq!(value_of(&rows[0], "admin"), "02".repeat(20));
    assert_eq!(value_of(&rows[0], "starting_tick"), "-230400");
}

#[test]
fn the_same_log_from_another_address_leaves_nothing() {
    let mut log = creation_log(0x01, 0x02, "Foo", "FOO", 3);
    log.address = vec![0x99; 20];
    let block = Block {
        number: 1,
        timestamp_seconds: 2,
        transactions: vec![Transaction { hash: vec![7; 32], logs: vec![log] }],
    };
    let events = map_clanker_events("", &block);
    assert!(events.token_created.is_empty());
    let mut registry: Registry = KeyedStore::new();
    store_tokens(&events, &mut registry);
    assert_eq!(registry.len(), 0);
    let transfers = map_token_transfers(&block, &registry);
    assert!(db_out(&events, &transfers).to_database_changes().table_changes.is_empty());
}

#[test]
fn two_blocks_feed_registry_stores_and_rows() {
    let first = Block {
        number: 10,
        timestamp_seconds: 100,
        transactions: vec![
            Transaction {
                hash: vec![0xa1; 32],
                logs: vec![creation_log(0x01, 0x02, "Foo", "FOO", 0), transfer_log(0x01, 5, 1)],
            },
            Transaction { hash: vec![0xa2; 32], logs: vec![creation_log(0x11, 0x02, "Bar", "BAR", 0)] },
        ],
    };
    let second = Block {
        number: 11,
        timestamp_seconds: 110,
        transactions: vec![Transaction {
            hash: vec![0xb1; 32],
            logs: vec![
                transfer_log(0x01, 100, 0),
                transfer_log(0x33, 1, 1),
                fee_log(0x02, 9, 2),
                transfer_log(0x11, 7, 3),
                transfer_log(0x01, 50, 4),
            ],
        }],
    };
    let mut registry: Registry = KeyedStore::new();
    let mut volume: SumStore = KeyedStore::new();
    let mut transfer_counts: CountStore = KeyedStore::new();
    let mut fees: SumStore = KeyedStore::new();
    let mut creator_counts: CountStore = KeyedStore::new();
    let mut row_keys: Vec<(String, String)> = Vec::new();

    for block in [&first, &second] {
        let events = map_clanker_events("", block);
        store_tokens(&events, &mut registry);
        let transfers = map_token_transfers(block, &registry);
        store_token_volume(&transfers, &mut volume);
        store_token_transfer_counts(&transfers, &mut transfer_counts);
        store_creator_fees(&events, &mut fees);
        store_creator_token_counts(&events, &mut creator_counts);
        for row in db_out(&events, &transfers).to_database_changes().table_changes {
            row_keys.push((row.table.clone(), pk(&row)));
        }
    }

    let text = |store: &SumStore, key: String| store.get_latest(&key).map(|sum| sum.to_text());
    let number = |store: &CountStore, key: String| store.get_latest(&key).copied();
    assert_eq!(text(&volume, format!("volume:{}", "01".repeat(20))), Some("155".to_string()));
    assert_eq!(text(&volume, format!("volume:{}", "11".repeat(20))), Some("7".to_string()));
    assert_eq!(text(&volume, format!("volume:{}", "33".repeat(20))), None);
    assert_eq!(number(&transfer_counts, format!("transfers:{}", "01".repeat(20))), Some(3));
    assert_eq!(number(&transfer_counts, format!("transfers:{}", "11".repeat(20))), Some(1));
    assert_eq!(text(&fees, format!("fees:{}", "02".repeat(20))), Some("9".to_string()));
    assert_eq!(number(&creator_counts, format!("tokens:{}", "02".repeat(20))), Some(2));

    let mut sorted = row_keys.clone();
    sorted.sort();
    sorted.dedup();
    assert_eq!(sorted.len(), row_keys.len());
    assert_eq!(
        row_keys,
        vec![
            ("tokens".to_string(), "01".repeat(20)),
            ("tokens".to_string(), "11".repeat(20)),
            ("transfers".to_string(), format!("{}-1", "a1".repeat(32))),
            ("fee_claims".to_string(), format!("{}-2", "b1".repeat(32))),
            ("transfers".to_string(), format!("{}-0", "b1".repeat(32))),
            ("transfers".to_string(), format!("{}-3", "b1".repeat(32))),
            ("transfers".to_string(), format!("{}-4", "b1".repeat(32))),
        ]
    );
}
