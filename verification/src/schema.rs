//! The event shapes the pipeline recognises: for each kind its signature
//! hash, how many topics a log of that kind carries, and how long its payload
//! may be.

use crate::chain::{Log, LogView};
use vstd::prelude::*;

verus! {

/// The kinds of contract event that are recognised.
#[derive(Clone, Copy, Debug, PartialEq, Eq, Structural)]
pub enum EventKind {
    /// Factory: `TokenCreated(address,address,address,string,string,string,string,string,int24,address,bytes32,address,address,address,uint256,address[])`.
    TokenCreated,
    /// Factory: `ClaimTeamFees(address,address,uint256)`.
    ClaimTeamFees,
    /// Factory: `ExtensionTriggered(address,uint256,uint256)`.
    ExtensionTriggered,
    /// Token: `UpdateImage(string)`.
    UpdateImage,
    /// Token: `UpdateMetadata(string)`.
    UpdateMetadata,
    /// Token: `Verified(address,address)`.
    Verified,
    /// Token: `Transfer(address,address,uint256)`.
    Transfer,
    /// Airdrop: `AirdropCreated(address,address,bytes32,uint256,uint256,uint256)`.
    AirdropCreated,
    /// Airdrop: `AirdropClaimed(address,address,uint256,uint256)`.
    AirdropClaimed,
    /// Auction: `AuctionWon(bytes32,address,uint256,uint256)`.
    AuctionWon,
}

/// Keccak-256 of the signature of `TokenCreated`.
pub const TOKEN_CREATED_TOPIC: [u8; 32] = [
    0x92, 0x99, 0xd1, 0xd1, 0xa8, 0x8d, 0x8e, 0x1a, 0xbd, 0xc5, 0x91, 0xae, 0x7a, 0x16, 0x7a, 0x6b,
    0xc6, 0x3a, 0x8f, 0x17, 0xd6, 0x95, 0x80, 0x4e, 0x90, 0x91, 0xee, 0x33, 0xaa, 0x89, 0xfb, 0x67,
];

/// Keccak-256 of the signature of `ClaimTeamFees`.
pub const CLAIM_TEAM_FEES_TOPIC: [u8; 32] = [
    0xe5, 0xb9, 0xf4, 0xd1, 0xf6, 0xcf, 0x7c, 0x32, 0x38, 0xf0, 0xc0, 0xb4, 0x85, 0x97, 0xa9, 0xcc,
    0xd3, 0xff, 0x3d, 0x23, 0x09, 0xf3, 0xcc, 0xd3, 0x0b, 0xd4, 0x6a, 0xad, 0x5e, 0x06, 0xa6, 0x38,
];

/// Keccak-256 of the signature of `ExtensionTriggered`.
pub const EXTENSION_TRIGGERED_TOPIC: [u8; 32] = [
    0xe8, 0x0e, 0xd9, 0x4c, 0x33, 0x18, 0x3b, 0xa3, 0x07, 0x72, 0x7b, 0xf2, 0x30, 0xf1, 0x8d, 0x40,
    0x17, 0x89, 0x75, 0xf5, 0x1b, 0x30, 0x1a, 0x84, 0x15, 0xb9, 0x0f, 0x4c, 0x9f, 0x54, 0x9b, 0x7f,
];

/// Keccak-256 of the signature of `UpdateImage`.
pub const UPDATE_IMAGE_TOPIC: [u8; 32] = [
    0xa2, 0x72, 0x34, 0xca, 0x67, 0x8e, 0xbc, 0xb3, 0xcd, 0x33, 0xe8, 0x32, 0x5c, 0x55, 0x63, 0xcd,
    0x8d, 0x9f, 0xf6, 0x26, 0xcc, 0x44, 0xa5, 0x8b, 0x6e, 0xa2, 0xbf, 0x4b, 0x55, 0x52, 0x42, 0x16,
];

/// Keccak-256 of the signature of `UpdateMetadata`.
pub const UPDATE_METADATA_TOPIC: [u8; 32] = [
    0xf2, 0x6c, 0x33, 0x16, 0x6d, 0x6e, 0xef, 0xda, 0xc0, 0x67, 0xb0, 0x52, 0x55, 0x0e, 0x77, 0x13,
    0xb9, 0x8f, 0xf0, 0xff, 0xc4, 0xab, 0xb3, 0xca, 0xf7, 0x19, 0xa1, 0xde, 0x36, 0xb6, 0x51, 0xf4,
];

/// Keccak-256 of the signature of `Verified`.
pub const VERIFIED_TOPIC: [u8; 32] = [
    0x78, 0xa9, 0x53, 0xf3, 0xf0, 0xd9, 0x2a, 0xbc, 0x07, 0x8a, 0x34, 0xe5, 0xd4, 0xfe, 0xdf, 0x87,
    0x08, 0xe7, 0x88, 0xe1, 0xb2, 0x93, 0x00, 0xb3, 0xd6, 0x17, 0x0e, 0x97, 0xf8, 0x8a, 0x13, 0xfc,
];

/// Keccak-256 of the signature of `Transfer`.
pub const TRANSFER_TOPIC: [u8; 32] = [
    0xdd, 0xf2, 0x52, 0xad, 0x1b, 0xe2, 0xc8, 0x9b, 0x69, 0xc2, 0xb0, 0x68, 0xfc, 0x37, 0x8d, 0xaa,
    0x95, 0x2b, 0xa7, 0xf1, 0x63, 0xc4, 0xa1, 0x16, 0x28, 0xf5, 0x5a, 0x4d, 0xf5, 0x23, 0xb3, 0xef,
];

/// Keccak-256 of the signature of `AirdropCreated`.
pub const AIRDROP_CREATED_TOPIC: [u8; 32] = [
    0x30, 0xd4, 0xda, 0x1e, 0xfc, 0x8f, 0x5b, 0x95, 0x6b, 0xb2, 0xdd, 0x6d, 0x54, 0xc3, 0x32, 0xec,
    0x58, 0x0c, 0xc8, 0x14, 0xab, 0x7c, 0x5f, 0xa0, 0xa3, 0xc5, 0xbb, 0x05, 0x84, 0xf6, 0x19, 0xc2,
];

/// Keccak-256 of the signature of `AirdropClaimed`.
pub const AIRDROP_CLAIMED_TOPIC: [u8; 32] = [
    0xd3, 0x99, 0xc6, 0xe7, 0xfa, 0xd3, 0x58, 0xfc, 0x30, 0x0b, 0xed, 0xa3, 0xf0, 0x56, 0x71, 0x7c,
    0x94, 0xa0, 0x4c, 0x72, 0x33, 0xce, 0x92, 0x68, 0x3d, 0xe6, 0x50, 0x0b, 0xa5, 0x09, 0x02, 0x2e,
];

/// Keccak-256 of the signature of `AuctionWon`.
pub const AUCTION_WON_TOPIC: [u8; 32] = [
    0xe0, 0x45, 0x31, 0xdd, 0x1a, 0x58, 0xec, 0x42, 0xa5, 0x39, 0xba, 0xcc, 0xa9, 0x92, 0x2b, 0x8d,
    0xfb, 0x97, 0x87, 0x38, 0x8d, 0x13, 0x93, 0xfd, 0xbe, 0x5e, 0xcb, 0xbc, 0xf0, 0x75, 0xab, 0x9f,
];

/// The signature hash that a log of `kind` carries as its first topic.
pub open spec fn topic_of(kind: EventKind) -> Seq<u8> {
    match kind {
        EventKind::TokenCreated => TOKEN_CREATED_TOPIC@,
        EventKind::ClaimTeamFees => CLAIM_TEAM_FEES_TOPIC@,
        EventKind::ExtensionTriggered => EXTENSION_TRIGGERED_TOPIC@,
        EventKind::UpdateImage => UPDATE_IMAGE_TOPIC@,
        EventKind::UpdateMetadata => UPDATE_METADATA_TOPIC@,
        EventKind::Verified => VERIFIED_TOPIC@,
        EventKind::Transfer => TRANSFER_TOPIC@,
        EventKind::AirdropCreated => AIRDROP_CREATED_TOPIC@,
        EventKind::AirdropClaimed => AIRDROP_CLAIMED_TOPIC@,
        EventKind::AuctionWon => AUCTION_WON_TOPIC@,
    }
}

/// How many topics a log of `kind` carries: the signature and one per indexed
/// field.
pub open spec fn topic_count_of(kind: EventKind) -> int {
    match kind {
        EventKind::ExtensionTriggered | EventKind::UpdateImage | EventKind::UpdateMetadata => 1,
        _ => 3,
    }
}

/// Whether a payload of `len` bytes can be that of a log of `kind`. A kind
/// whose fields all have a fixed size fixes the length; one with a field of
/// dynamic size only bounds it from below.
pub open spec fn payload_fits(kind: EventKind, len: int) -> bool {
    match kind {
        EventKind::TokenCreated => len >= 640,
        EventKind::ClaimTeamFees => len == 32,
        EventKind::ExtensionTriggered => len == 96,
        EventKind::UpdateImage => len >= 64,
        EventKind::UpdateMetadata => len >= 64,
        EventKind::Verified => len == 0,
        EventKind::Transfer => len == 32,
        EventKind::AirdropCreated => len == 128,
        EventKind::AirdropClaimed => len == 64,
        EventKind::AuctionWon => len == 64,
    }
}

/// Whether `log` has the shape of an event of `kind`.
pub open spec fn log_matches(log: LogView, kind: EventKind) -> bool {
    &&& log.topics.len() == topic_count_of(kind)
    &&& payload_fits(kind, log.data.len() as int)
    &&& log.topics[0] == topic_of(kind)
}

/// The kind whose signature hash `topic` is.
pub open spec fn kind_of_signature(topic: Seq<u8>) -> Option<EventKind> {
    if topic == TOKEN_CREATED_TOPIC@ {
        Some(EventKind::TokenCreated)
    } else if topic == CLAIM_TEAM_FEES_TOPIC@ {
        Some(EventKind::ClaimTeamFees)
    } else if topic == EXTENSION_TRIGGERED_TOPIC@ {
        Some(EventKind::ExtensionTriggered)
    } else if topic == UPDATE_IMAGE_TOPIC@ {
        Some(EventKind::UpdateImage)
    } else if topic == UPDATE_METADATA_TOPIC@ {
        Some(EventKind::UpdateMetadata)
    } else if topic == VERIFIED_TOPIC@ {
        Some(EventKind::Verified)
    } else if topic == TRANSFER_TOPIC@ {
        Some(EventKind::Transfer)
    } else if topic == AIRDROP_CREATED_TOPIC@ {
        Some(EventKind::AirdropCreated)
    } else if topic == AIRDROP_CLAIMED_TOPIC@ {
        Some(EventKind::AirdropClaimed)
    } else if topic == AUCTION_WON_TOPIC@ {
        Some(EventKind::AuctionWon)
    } else {
        None
    }
}

/// No two kinds share a signature hash: the hash of a kind leads back to that
/// kind, so a log matches the shape of at most one kind.
pub proof fn lemma_signatures_distinct(kind: EventKind)
    ensures
        kind_of_signature(topic_of(kind)) == Some(kind),
{
    assert(TOKEN_CREATED_TOPIC@[0] == 0x92);
    assert(CLAIM_TEAM_FEES_TOPIC@[0] == 0xe5);
    assert(EXTENSION_TRIGGERED_TOPIC@[0] == 0xe8);
    assert(UPDATE_IMAGE_TOPIC@[0] == 0xa2);
    assert(UPDATE_METADATA_TOPIC@[0] == 0xf2);
    assert(VERIFIED_TOPIC@[0] == 0x78);
    assert(TRANSFER_TOPIC@[0] == 0xdd);
    assert(AIRDROP_CREATED_TOPIC@[0] == 0x30);
    assert(AIRDROP_CLAIMED_TOPIC@[0] == 0xd3);
    assert(AUCTION_WON_TOPIC@[0] == 0xe0);
}

/// A log has the shape of at most one kind.
pub proof fn lemma_one_shape(log: LogView, first: EventKind, second: EventKind)
    requires
        log_matches(log, first),
        log_matches(log, second),
    ensures
        first == second,
{
    lemma_signatures_distinct(first);
    lemma_signatures_distinct(second);
}

/// Whether two byte strings are equal.
pub fn same_bytes(a: &[u8], b: &[u8]) -> (same: bool)
    ensures
        same == (a@ == b@),
{
    if a.len() != b.len() {
        return false;
    }
    let mut i: usize = 0;
    while i < a.len()
        invariant
            i <= a.len(),
            a.len() == b.len(),
            a@.take(i as int) == b@.take(i as int),
        decreases a.len() - i,
    {
        if a[i] != b[i] {
            return false;
        }
        assert(a@.take(i + 1) =~= a@.take(i as int).push(a@[i as int]));
        assert(b@.take(i + 1) =~= b@.take(i as int).push(b@[i as int]));
        i = i + 1;
    }
    assert(a@.take(i as int) =~= a@);
    assert(b@.take(i as int) =~= b@);
    true
}

/// The signature hash of `kind`.
pub fn signature(kind: EventKind) -> (topic: [u8; 32])
    ensures
        topic@ == topic_of(kind),
{
    match kind {
        EventKind::TokenCreated => TOKEN_CREATED_TOPIC,
        EventKind::ClaimTeamFees => CLAIM_TEAM_FEES_TOPIC,
        EventKind::ExtensionTriggered => EXTENSION_TRIGGERED_TOPIC,
        EventKind::UpdateImage => UPDATE_IMAGE_TOPIC,
        EventKind::UpdateMetadata => UPDATE_METADATA_TOPIC,
        EventKind::Verified => VERIFIED_TOPIC,
        EventKind::Transfer => TRANSFER_TOPIC,
        EventKind::AirdropCreated => AIRDROP_CREATED_TOPIC,
        EventKind::AirdropClaimed => AIRDROP_CLAIMED_TOPIC,
        EventKind::AuctionWon => AUCTION_WON_TOPIC,
    }
}

/// Topic `i` of `log`.
pub fn topic(log: &Log, i: usize) -> (bytes: &[u8])
    requires
        i < log.topics.len(),
    ensures
        bytes@ == log@.topics[i as int],
{
    log.topics[i].as_slice()
}

/// Tests the length of a payload against what `kind` allows.
fn payload_len_fits(kind: EventKind, len: usize) -> (fits: bool)
    ensures
        fits == payload_fits(kind, len as int),
{
    match kind {
        EventKind::TokenCreated => len >= 640,
        EventKind::ClaimTeamFees => len == 32,
        EventKind::ExtensionTriggered => len == 96,
        EventKind::UpdateImage => len >= 64,
        EventKind::UpdateMetadata => len >= 64,
        EventKind::Verified => len == 0,
        EventKind::Transfer => len == 32,
        EventKind::AirdropCreated => len == 128,
        EventKind::AirdropClaimed => len == 64,
        EventKind::AuctionWon => len == 64,
    }
}

/// Tests a log against the shape of `kind`: the number of topics, the length
/// of the payload, then the signature hash.
pub fn has_shape(log: &Log, kind: EventKind) -> (matched: bool)
    ensures
        matched == log_matches(log@, kind),
{
    let topic_count: usize = match kind {
        EventKind::ExtensionTriggered | EventKind::UpdateImage | EventKind::UpdateMetadata => 1,
        _ => 3,
    };
    if log.topics.len() != topic_count {
        return false;
    }
    if !payload_len_fits(kind, log.data.len()) {
        return false;
    }
    let expected = signature(kind);
    same_bytes(topic(log, 0), &expected)
}

/// Looks a signature hash up among the recognised kinds.
pub fn recognize(topic: &[u8]) -> (kind: Option<EventKind>)
    ensures
        kind == kind_of_signature(topic@),
{
    if same_bytes(topic, &TOKEN_CREATED_TOPIC) {
        Some(EventKind::TokenCreated)
    } else if same_bytes(topic, &CLAIM_TEAM_FEES_TOPIC) {
        Some(EventKind::ClaimTeamFees)
    } else if same_bytes(topic, &EXTENSION_TRIGGERED_TOPIC) {
        Some(EventKind::ExtensionTriggered)
    } else if same_bytes(topic, &UPDATE_IMAGE_TOPIC) {
        Some(EventKind::UpdateImage)
    } else if same_bytes(topic, &UPDATE_METADATA_TOPIC) {
        Some(EventKind::UpdateMetadata)
    } else if same_bytes(topic, &VERIFIED_TOPIC) {
        Some(EventKind::Verified)
    } else if same_bytes(topic, &TRANSFER_TOPIC) {
        Some(EventKind::Transfer)
    } else if same_bytes(topic, &AIRDROP_CREATED_TOPIC) {
        Some(EventKind::AirdropCreated)
    } else if same_bytes(topic, &AIRDROP_CLAIMED_TOPIC) {
        Some(EventKind::AirdropClaimed)
    } else if same_bytes(topic, &AUCTION_WON_TOPIC) {
        Some(EventKind::AuctionWon)
    } else {
        None
    }
}

} // verus!
