use clanker_events::chain::Log;
use clanker_events::schema::{
    has_shape, recognize, same_bytes, signature, topic, EventKind, AIRDROP_CLAIMED_TOPIC,
    AIRDROP_CREATED_TOPIC, AUCTION_WON_TOPIC, CLAIM_TEAM_FEES_TOPIC, EXTENSION_TRIGGERED_TOPIC,
    TOKEN_CREATED_TOPIC, TRANSFER_TOPIC, UPDATE_IMAGE_TOPIC, UPDATE_METADATA_TOPIC,
    VERIFIED_TOPIC,
};

fn kinds() -> Vec<(EventKind, [u8; 32], usize, usize)> {
    vec![
        (EventKind::TokenCreated, TOKEN_CREATED_TOPIC, 3, 640),
        (EventKind::ClaimTeamFees, CLAIM_TEAM_FEES_TOPIC, 3, 32),
        (EventKind::ExtensionTriggered, EXTENSION_TRIGGERED_TOPIC, 1, 96),
        (EventKind::UpdateImage, UPDATE_IMAGE_TOPIC, 1, 64),
        (EventKind::UpdateMetadata, UPDATE_METADATA_TOPIC, 1, 64),
        (EventKind::Verified, VERIFIED_TOPIC, 3, 0),
        (EventKind::Transfer, TRANSFER_TOPIC, 3, 32),
        (EventKind::AirdropCreated, AIRDROP_CREATED_TOPIC, 3, 128),
        (EventKind::AirdropClaimed, AIRDROP_CLAIMED_TOPIC, 3, 64),
        (EventKind::AuctionWon, AUCTION_WON_TOPIC, 3, 64),
    ]
}

fn shaped(topic0: [u8; 32], topics: usize, len: usize) -> Log {
    let mut list = vec![topic0.to_vec()];
    while list.len() < topics {
        list.push(vec![0; 32]);
    }
    Log { address: vec![0; 20], topics: list, data: vec![0; len], index: 0 }
}

#[test]
fn well_known_signature_hashes() {
    assert_eq!(
        hex::encode(TRANSFER_TOPIC),
        "ddf252ad1be2c89b69c2b068fc378daa952ba7f163c4a11628f55a4df523b3ef"
    );
    assert_eq!(
        hex::encode(TOKEN_CREATED_TOPIC),
        "9299d1d1a88d8e1abdc591ae7a167a6bc63a8f17d695804e9091ee33aa89fb67"
    );
}

#[test]
fn every_kind_is_recognised_by_its_signature() {
    for (kind, hash, _, _) in kinds() {
        assert_eq!(recognize(&hash), Some(kind));
        assert_eq!(signature(kind), hash);
    }
}

#[test]
fn other_signatures_are_not_recognised() {
    assert_eq!(recognize(&[0u8; 32]), None);
    assert_eq!(recognize(&[]), None);
    assert_eq!(recognize(&TRANSFER_TOPIC[..31]), None);
    let mut off_by_one = TRANSFER_TOPIC;
    off_by_one[31] ^= 1;
    assert_eq!(recognize(&off_by_one), None);
}

#[test]
fn a_log_has_the_shape_of_one_kind_only() {
    for (kind, hash, topics, len) in kinds() {
        let log = shaped(hash, topics, len);
        for (other, _, _, _) in kinds() {
            assert_eq!(has_shape(&log, other), other == kind, "{:?} as {:?}", kind, other);
        }
    }
}

#[test]
fn shape_depends_on_topic_count_and_payload_length() {
    for (kind, hash, topics, len) in kinds() {
        assert!(has_shape(&shaped(hash, topics, len), kind));
        assert!(!has_shape(&shaped(hash, topics + 1, len), kind));
        if len > 0 {
            assert!(!has_shape(&shaped(hash, topics, len - 1), kind));
        }
        let dynamic = matches!(
            kind,
            EventKind::TokenCreated | EventKind::UpdateImage | EventKind::UpdateMetadata
        );
        assert_eq!(has_shape(&shaped(hash, topics, len + 1), kind), dynamic);
    }
    let no_topics = Log { address: vec![], topics: vec![], data: vec![], index: 0 };
    for (kind, _, _, _) in kinds() {
        assert!(!has_shape(&no_topics, kind));
    }
}

#[test]
fn bytes_compare_by_content() {
    assert!(same_bytes(&[], &[]));
    assert!(same_bytes(&[1, 2, 3], &[1, 2, 3]));
    assert!(!same_bytes(&[1, 2, 3], &[1, 2]));
    assert!(!same_bytes(&[1, 2, 3], &[1, 2, 4]));
    assert!(!same_bytes(&[0], &[]));
}

#[test]
fn topics_are_handed_out_by_place() {
    let log = Log { address: vec![], topics: vec![vec![1], vec![2, 2]], data: vec![], index: 0 };
    assert_eq!(topic(&log, 0), &[1]);
    assert_eq!(topic(&log, 1), &[2, 2]);
}
