use clanker_events::chain::{Block, Log, Transaction};
use clanker_events::records::{
    ClankerEvents, Provenance, Token, TokenCreated, TokenTransfer, TokenTransfers,
};
use clanker_events::registry::{key_of_token, Registry};
use clanker_events::schema::{TRANSFER_TOPIC, VERIFIED_TOPIC};
use clanker_events::store::KeyedStore;
use clanker_events::{map_token_transfers, store_tokens};

fn word(value: u128) -> Vec<u8> {
    let mut out = vec![0u8; 16];
    out.extend_from_slice(&value.to_be_bytes());
    out
}

fn address_word(byte: u8) -> Vec<u8> {
    let mut out = vec![0u8; 12];
    out.extend_from_slice(&[byte; 20]);
    out
}

fn transfer(source: u8, amount: u128, index: u32) -> Log {
    Log {
        address: vec![source; 20],
        topics: vec![TRANSFER_TOPIC.to_vec(), address_word(0x71), address_word(0x72)],
        data: word(amount),
        index,
    }
}

fn created(address: u8, name: &str, block: u64) -> TokenCreated {
    TokenCreated {
        origin: Provenance {
            tx_hash: "ab".repeat(32),
            block_number: block,
            block_timestamp: block * 2,
            log_index: 1,
        },
        token_address: hex::encode([address; 20]),
        token_admin: "02".repeat(20),
        token_name: name.to_string(),
        token_symbol: name.to_uppercase(),
        token_image: "img".to_string(),
        token_metadata: "meta".to_string(),
        token_context: "ctx".to_string(),
        pool_id: "05".repeat(32),
        pool_hook: "04".repeat(20),
        paired_token: "06".repeat(20),
        starting_tick: -1,
        locker: "07".repeat(20),
        mev_module: "08".repeat(20),
        extensions_supply: "0".to_string(),
        extensions: vec![],
        msg_sender: "03".repeat(20),
    }
}

fn batch(created: Vec<TokenCreated>) -> ClankerEvents {
    let mut events = ClankerEvents::new();
    events.token_created = created;
    events
}

fn block_of(number: u64, logs: Vec<Log>) -> Block {
    Block {
        number,
        timestamp_seconds: number + 1,
        transactions: vec![Transaction { hash: vec![0xcd; 32], logs }],
    }
}

#[test]
fn keys_carry_the_namespace() {
    assert_eq!(key_of_token("0101"), "token:0101");
    assert_eq!(key_of_token(""), "token:");
}

#[test]
fn a_new_registry_holds_nothing() {
    let registry: Registry = KeyedStore::new();
    assert_eq!(registry.len(), 0);
    assert!(registry.get_latest(&"token:00".to_string()).is_none());
}

#[test]
fn created_tokens_enter_the_registry() {
    let mut registry: Registry = KeyedStore::new();
    store_tokens(&batch(vec![created(0x11, "foo", 5), created(0x22, "bar", 5)]), &mut registry);
    assert_eq!(registry.len(), 2);
    let key = format!("token:{}", "11".repeat(20));
    assert_eq!(
        registry.get_latest(&key),
        Some(&Token {
            address: "11".repeat(20),
            name: "foo".to_string(),
            symbol: "FOO".to_string(),
            admin: "02".repeat(20),
            image: "img".to_string(),
            pool_id: "05".repeat(32),
            paired_token: "06".repeat(20),
            created_at_block: 5,
            created_at_timestamp: 10,
        })
    );
    assert_eq!(registry.entry(0).key, key);
    assert_eq!(registry.entry(1).key, format!("token:{}", "22".repeat(20)));
    assert!(registry.get_latest(&format!("token:{}", "33".repeat(20))).is_none());
    assert!(registry.get_latest(&"11".repeat(20)).is_none());
}

#[test]
fn a_key_written_again_holds_the_last_value_at_its_first_place() {
    let mut registry: Registry = KeyedStore::new();
    store_tokens(
        &batch(vec![created(0x11, "first", 5), created(0x22, "other", 5), created(0x11, "last", 6)]),
        &mut registry,
    );
    assert_eq!(registry.len(), 2);
    assert_eq!(registry.entry(0).key, format!("token:{}", "11".repeat(20)));
    assert_eq!(registry.entry(0).value.name, "last");
    assert_eq!(registry.entry(0).value.created_at_block, 6);
    assert_eq!(registry.entry(1).value.name, "other");
}

#[test]
fn direct_writes_and_reads() {
    let mut registry: Registry = KeyedStore::new();
    let token = Token {
        address: "aa".to_string(),
        name: "n".to_string(),
        symbol: "s".to_string(),
        admin: "ad".to_string(),
        image: "i".to_string(),
        pool_id: "p".to_string(),
        paired_token: "q".to_string(),
        created_at_block: 1,
        created_at_timestamp: 2,
    };
    registry.set_latest("token:aa".to_string(), token.clone());
    assert_eq!(registry.get_latest(&"token:aa".to_string()), Some(&token));
    assert_eq!(registry.get_latest(&"token:a".to_string()), None);
    assert_eq!(registry.get_latest(&"token:aab".to_string()), None);
}

#[test]
fn transfers_of_unregistered_tokens_leave_no_record() {
    let registry: Registry = KeyedStore::new();
    let block = block_of(9, vec![transfer(0x11, 5, 0), transfer(0x22, 6, 1)]);
    assert_eq!(map_token_transfers(&block, &registry), TokenTransfers { transfers: vec![] });
}

#[test]
fn transfers_are_kept_once_the_token_is_registered() {
    let mut registry: Registry = KeyedStore::new();
    let earlier = block_of(8, vec![transfer(0x11, 5, 0)]);
    assert!(map_token_transfers(&earlier, &registry).transfers.is_empty());

    store_tokens(&batch(vec![created(0x11, "foo", 8)]), &mut registry);

    let later = block_of(9, vec![transfer(0x11, 5, 0), transfer(0x22, 6, 1), transfer(0x11, 7, 2)]);
    let transfers = map_token_transfers(&later, &registry);
    let origin = |index: u64| Provenance {
        tx_hash: "cd".repeat(32),
        block_number: 9,
        block_timestamp: 10,
        log_index: index,
    };
    assert_eq!(
        transfers.transfers,
        vec![
            TokenTransfer {
                origin: origin(0),
                token_address: "11".repeat(20),
                from: "71".repeat(20),
                to: "72".repeat(20),
                amount: "5".to_string(),
            },
            TokenTransfer {
                origin: origin(2),
                token_address: "11".repeat(20),
                from: "71".repeat(20),
                to: "72".repeat(20),
                amount: "7".to_string(),
            },
        ]
    );
}

#[test]
fn only_transfer_shaped_logs_of_a_registered_token_are_kept() {
    let mut registry: Registry = KeyedStore::new();
    store_tokens(&batch(vec![created(0x11, "foo", 8)]), &mut registry);
    let verified = Log {
        address: vec![0x11; 20],
        topics: vec![VERIFIED_TOPIC.to_vec(), address_word(1), address_word(2)],
        data: vec![],
        index: 0,
    };
    let mut broken = transfer(0x11, 1, 1);
    broken.data.push(0);
    let block = block_of(9, vec![verified, broken, transfer(0x11, 2, 2)]);
    let transfers = map_token_transfers(&block, &registry);
    assert_eq!(transfers.transfers.len(), 1);
    assert_eq!(transfers.transfers[0].amount, "2");
}

#[test]
fn transfers_keep_the_order_of_the_logs_across_transactions() {
    let mut registry: Registry = KeyedStore::new();
    store_tokens(&batch(vec![created(0x11, "a", 1), created(0x22, "b", 1)]), &mut registry);
    let block = Block {
        number: 2,
        timestamp_seconds: 3,
        transactions: vec![
            Transaction { hash: vec![1; 32], logs: vec![transfer(0x22, 1, 0), transfer(0x11, 2, 1)] },
            Transaction { hash: vec![2; 32], logs: vec![transfer(0x11, 3, 0)] },
        ],
    };
    let seen: Vec<(String, String)> = map_token_transfers(&block, &registry)
        .transfers
        .iter()
        .map(|t| (t.origin.tx_hash.clone(), t.amount.clone()))
        .collect();
    assert_eq!(
        seen,
        vec![
            ("01".repeat(32), "1".to_string()),
            ("01".repeat(32), "2".to_string()),
            ("02".repeat(32), "3".to_string()),
        ]
    );
}
