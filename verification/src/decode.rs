//! From a log of a recognised shape to the typed record it stands for.
//!
//! Each decoder tests the shape first and then reads the fields: the indexed
//! ones from the topics, the others from the payload at the head offsets that
//! the event's field list fixes. A field that cannot be read yields no record.

use crate::abi::{
    address_array_at, address_at, array_tail_at, bytes_at, read_address, read_array_tail,
    read_string, read_uint, read_word, utf8_lossy_text, word_at,
};
use crate::chain::{views, Log, LogView};
use crate::hexfmt::{hex_encode, hex_lower};
use crate::numeric::{
    be_signed_value, be_value, decimal_text, fits_i32, word_to_i32_or_zero, word_to_u64,
};
use crate::records::{
    AirdropClaimed, AirdropClaimedView, AirdropCreated, AirdropCreatedView, AuctionWon,
    AuctionWonView, ExtensionTriggered, ExtensionTriggeredView, FeeClaim, FeeClaimView, Provenance,
    ProvenanceView, TokenCreated, TokenCreatedView, TokenMetadataUpdate, TokenMetadataUpdateView,
    TokenTransfer, TokenTransferView, TokenVerified, TokenVerifiedView, TypedEvent, TypedEventView,
};
use crate::schema::{has_shape, kind_of_signature, log_matches, recognize, topic, EventKind};
use vstd::prelude::*;

verus! {

/// Where a record decoded from `log` comes from.
pub open spec fn origin_of(number: u64, timestamp: u64, tx_hash: Seq<u8>, log: LogView)
    -> ProvenanceView {
    ProvenanceView {
        tx_hash: hex_lower(tx_hash),
        block_number: number,
        block_timestamp: timestamp,
        log_index: log.index as u64,
    }
}

/// Hexadecimal text of the address at `offset`.
pub open spec fn address_text_at(data: Seq<u8>, offset: int) -> Seq<char> {
    hex_lower(address_at(data, offset)->0)
}

/// Hexadecimal text of the word at `offset`.
pub open spec fn word_text_at(data: Seq<u8>, offset: int) -> Seq<char> {
    hex_lower(word_at(data, offset)->0)
}

/// Decimal text of the unsigned integer at `offset`.
pub open spec fn uint_text_at(data: Seq<u8>, offset: int) -> Seq<char> {
    decimal_text(be_value(word_at(data, offset)->0))
}

/// The string pointed to from `offset`.
pub open spec fn string_at(data: Seq<u8>, offset: int) -> Seq<char> {
    utf8_lossy_text(bytes_at(data, offset)->0)
}

/// The signed integer at `offset`, or 0 where it does not fit 32 bits.
pub open spec fn tick_at(data: Seq<u8>, offset: int) -> i32 {
    let value = be_signed_value(word_at(data, offset)->0);
    if fits_i32(value) {
        value as i32
    } else {
        0
    }
}

/// Whether the unsigned integer at `offset` fits 64 bits.
pub open spec fn u64_readable_at(data: Seq<u8>, offset: int) -> bool {
    word_at(data, offset) is Some && be_value(word_at(data, offset)->0) <= u64::MAX
}

/// The unsigned integer at `offset`, as 64 bits.
pub open spec fn u64_at(data: Seq<u8>, offset: int) -> u64 {
    be_value(word_at(data, offset)->0) as u64
}

/// Hexadecimal text of each address of the array pointed to from `offset`.
pub open spec fn address_texts_at(data: Seq<u8>, offset: int) -> Seq<Seq<char>> {
    address_array_at(data, offset)->0.map_values(|address: Seq<u8>| hex_lower(address))
}

/// The record a `TokenCreated` log stands for.
///
/// Indexed: the token's address, then its admin. Payload heads, 32 bytes
/// each: sender, image, name, symbol, metadata, context, starting tick, pool
/// hook, pool id, paired token, locker, MEV module, extensions supply,
/// extensions. The five texts and the list of extensions are dynamic.
pub open spec fn token_created_of(number: u64, timestamp: u64, tx_hash: Seq<u8>, log: LogView)
    -> Option<TokenCreatedView> {
    if log_matches(log, EventKind::TokenCreated) && address_at(log.topics[1], 0) is Some
        && address_at(log.topics[2], 0) is Some && bytes_at(log.data, 32) is Some && bytes_at(
        log.data,
        64,
    ) is Some && bytes_at(log.data, 96) is Some && bytes_at(log.data, 128) is Some && bytes_at(
        log.data,
        160,
    ) is Some && address_array_at(log.data, 416) is Some {
        Some(
            TokenCreatedView {
                origin: origin_of(number, timestamp, tx_hash, log),
                token_address: address_text_at(log.topics[1], 0),
                token_admin: address_text_at(log.topics[2], 0),
                token_name: string_at(log.data, 64),
                token_symbol: string_at(log.data, 96),
                token_image: string_at(log.data, 32),
                token_metadata: string_at(log.data, 128),
                token_context: string_at(log.data, 160),
                pool_id: word_text_at(log.data, 256),
                pool_hook: address_text_at(log.data, 224),
                paired_token: address_text_at(log.data, 288),
                starting_tick: tick_at(log.data, 192),
                locker: address_text_at(log.data, 320),
                mev_module: address_text_at(log.data, 352),
                extensions_supply: uint_text_at(log.data, 384),
                extensions: address_texts_at(log.data, 416),
                msg_sender: address_text_at(log.data, 0),
            },
        )
    } else {
        None
    }
}

/// The record a `ClaimTeamFees` log stands for.
///
/// Indexed: the token, then the recipient. Payload: the amount.
pub open spec fn fee_claim_of(number: u64, timestamp: u64, tx_hash: Seq<u8>, log: LogView)
    -> Option<FeeClaimView> {
    if log_matches(log, EventKind::ClaimTeamFees) && address_at(log.topics[1], 0) is Some
        && address_at(log.topics[2], 0) is Some {
        Some(
            FeeClaimView {
                origin: origin_of(number, timestamp, tx_hash, log),
                token: address_text_at(log.topics[1], 0),
                recipient: address_text_at(log.topics[2], 0),
                amount: uint_text_at(log.data, 0),
            },
        )
    } else {
        None
    }
}

/// The record an `ExtensionTriggered` log stands for.
///
/// Payload: the extension, its supply, the value sent along.
pub open spec fn extension_triggered_of(
    number: u64,
    timestamp: u64,
    tx_hash: Seq<u8>,
    log: LogView,
) -> Option<ExtensionTriggeredView> {
    if log_matches(log, EventKind::ExtensionTriggered) {
        Some(
            ExtensionTriggeredView {
                origin: origin_of(number, timestamp, tx_hash, log),
                extension: address_text_at(log.data, 0),
                extension_supply: uint_text_at(log.data, 32),
                msg_value: uint_text_at(log.data, 64),
            },
        )
    } else {
        None
    }
}

/// The record an `UpdateImage` log stands for. The token is the contract
/// that emitted the log.
///
/// Payload: the image, a dynamic text.
pub open spec fn image_update_of(number: u64, timestamp: u64, tx_hash: Seq<u8>, log: LogView)
    -> Option<TokenMetadataUpdateView> {
    if log_matches(log, EventKind::UpdateImage) && bytes_at(log.data, 0) is Some {
        Some(
            TokenMetadataUpdateView {
                origin: origin_of(number, timestamp, tx_hash, log),
                token_address: hex_lower(log.address),
                update_type: "image"@,
                new_value: string_at(log.data, 0),
            },
        )
    } else {
        None
    }
}

/// The record an `UpdateMetadata` log stands for. The token is the contract
/// that emitted the log.
///
/// Payload: the metadata, a dynamic text.
pub open spec fn metadata_update_of(number: u64, timestamp: u64, tx_hash: Seq<u8>, log: LogView)
    -> Option<TokenMetadataUpdateView> {
    if log_matches(log, EventKind::UpdateMetadata) && bytes_at(log.data, 0) is Some {
        Some(
            TokenMetadataUpdateView {
                origin: origin_of(number, timestamp, tx_hash, log),
                token_address: hex_lower(log.address),
                update_type: "metadata"@,
                new_value: string_at(log.data, 0),
            },
        )
    } else {
        None
    }
}

/// The record a `Verified` log stands for.
///
/// Indexed: the admin, then the token. No payload.
pub open spec fn verification_of(number: u64, timestamp: u64, tx_hash: Seq<u8>, log: LogView)
    -> Option<TokenVerifiedView> {
    if log_matches(log, EventKind::Verified) && address_at(log.topics[1], 0) is Some && address_at(
        log.topics[2],
        0,
    ) is Some {
        Some(
            TokenVerifiedView {
                origin: origin_of(number, timestamp, tx_hash, log),
                token_address: address_text_at(log.topics[2], 0),
                admin: address_text_at(log.topics[1], 0),
            },
        )
    } else {
        None
    }
}

/// The record a `Transfer` log stands for. The token is the contract that
/// emitted the log.
///
/// Indexed: the sender, then the receiver. Payload: the amount.
pub open spec fn transfer_of(number: u64, timestamp: u64, tx_hash: Seq<u8>, log: LogView)
    -> Option<TokenTransferView> {
    if log_matches(log, EventKind::Transfer) && address_at(log.topics[1], 0) is Some && address_at(
        log.topics[2],
        0,
    ) is Some {
        Some(
            TokenTransferView {
                origin: origin_of(number, timestamp, tx_hash, log),
                token_address: hex_lower(log.address),
                from: address_text_at(log.topics[1], 0),
                to: address_text_at(log.topics[2], 0),
                amount: uint_text_at(log.data, 0),
            },
        )
    } else {
        None
    }
}

/// The record an `AirdropCreated` log stands for. A duration that does not
/// fit 64 bits yields no record.
///
/// Indexed: the token, then the admin. Payload: the Merkle root, the supply,
/// the lockup duration, the vesting duration.
pub open spec fn airdrop_created_of(number: u64, timestamp: u64, tx_hash: Seq<u8>, log: LogView)
    -> Option<AirdropCreatedView> {
    if log_matches(log, EventKind::AirdropCreated) && address_at(log.topics[1], 0) is Some
        && address_at(log.topics[2], 0) is Some && u64_readable_at(log.data, 64)
        && u64_readable_at(log.data, 96) {
        Some(
            AirdropCreatedView {
                origin: origin_of(number, timestamp, tx_hash, log),
                token: address_text_at(log.topics[1], 0),
                admin: address_text_at(log.topics[2], 0),
                merkle_root: word_text_at(log.data, 0),
                supply: uint_text_at(log.data, 32),
                lockup_duration: u64_at(log.data, 64),
                vesting_duration: u64_at(log.data, 96),
            },
        )
    } else {
        None
    }
}

/// The record an `AirdropClaimed` log stands for.
///
/// Indexed: the token, then the user. Payload: the total the user has
/// claimed, the amount still locked.
pub open spec fn airdrop_claimed_of(number: u64, timestamp: u64, tx_hash: Seq<u8>, log: LogView)
    -> Option<AirdropClaimedView> {
    if log_matches(log, EventKind::AirdropClaimed) && address_at(log.topics[1], 0) is Some
        && address_at(log.topics[2], 0) is Some {
        Some(
            AirdropClaimedView {
                origin: origin_of(number, timestamp, tx_hash, log),
                token: address_text_at(log.topics[1], 0),
                user: address_text_at(log.topics[2], 0),
                total_claimed: uint_text_at(log.data, 0),
                still_locked: uint_text_at(log.data, 32),
            },
        )
    } else {
        None
    }
}

/// The record an `AuctionWon` log stands for. A round that does not fit 64
/// bits yields no record.
///
/// Indexed: the pool id, then the payee. Payload: the payment, the round.
pub open spec fn auction_won_of(number: u64, timestamp: u64, tx_hash: Seq<u8>, log: LogView)
    -> Option<AuctionWonView> {
    if log_matches(log, EventKind::AuctionWon) && word_at(log.topics[1], 0) is Some && address_at(
        log.topics[2],
        0,
    ) is Some && u64_readable_at(log.data, 32) {
        Some(
            AuctionWonView {
                origin: origin_of(number, timestamp, tx_hash, log),
                pool_id: word_text_at(log.topics[1], 0),
                winner: address_text_at(log.topics[2], 0),
                payment_amount: uint_text_at(log.data, 0),
                round: u64_at(log.data, 32),
            },
        )
    } else {
        None
    }
}

/// The event a log stands for, whatever its kind: the record of the kind
/// whose signature hash the log carries, where the log decodes as one.
pub open spec fn typed_event_of(number: u64, timestamp: u64, tx_hash: Seq<u8>, log: LogView)
    -> Option<TypedEventView> {
    if log.topics.len() == 0 {
        None
    } else {
        match kind_of_signature(log.topics[0]) {
            Some(EventKind::TokenCreated) => match token_created_of(
                number,
                timestamp,
                tx_hash,
                log,
            ) {
                Some(r) => Some(TypedEventView::TokenCreated(r)),
                None => None,
            },
            Some(EventKind::ClaimTeamFees) => match fee_claim_of(number, timestamp, tx_hash, log) {
                Some(r) => Some(TypedEventView::FeeClaim(r)),
                None => None,
            },
            Some(EventKind::ExtensionTriggered) => match extension_triggered_of(
                number,
                timestamp,
                tx_hash,
                log,
            ) {
                Some(r) => Some(TypedEventView::ExtensionTriggered(r)),
                None => None,
            },
            Some(EventKind::UpdateImage) => match image_update_of(
                number,
                timestamp,
                tx_hash,
                log,
            ) {
                Some(r) => Some(TypedEventView::MetadataUpdate(r)),
                None => None,
            },
            Some(EventKind::UpdateMetadata) => match metadata_update_of(
                number,
                timestamp,
                tx_hash,
                log,
            ) {
                Some(r) => Some(TypedEventView::MetadataUpdate(r)),
                None => None,
            },
            Some(EventKind::Verified) => match verification_of(number, timestamp, tx_hash, log) {
                Some(r) => Some(TypedEventView::Verification(r)),
                None => None,
            },
            Some(EventKind::Transfer) => match transfer_of(number, timestamp, tx_hash, log) {
                Some(r) => Some(TypedEventView::Transfer(r)),
                None => None,
            },
            Some(EventKind::AirdropCreated) => match airdrop_created_of(
                number,
                timestamp,
                tx_hash,
                log,
            ) {
                Some(r) => Some(TypedEventView::AirdropCreated(r)),
                None => None,
            },
            Some(EventKind::AirdropClaimed) => match airdrop_claimed_of(
                number,
                timestamp,
                tx_hash,
                log,
            ) {
                Some(r) => Some(TypedEventView::AirdropClaimed(r)),
                None => None,
            },
            Some(EventKind::AuctionWon) => match auction_won_of(number, timestamp, tx_hash, log) {
                Some(r) => Some(TypedEventView::AuctionWon(r)),
                None => None,
            },
            None => None,
        }
    }
}

/// Builds the provenance of a record decoded from `log`.
pub fn origin(number: u64, timestamp: u64, tx_hash: &[u8], log: &Log) -> (origin: Provenance)
    ensures
        origin@ == origin_of(number, timestamp, tx_hash@, log@),
{
    Provenance {
        tx_hash: hex_encode(tx_hash),
        block_number: number,
        block_timestamp: timestamp,
        log_index: log.index as u64,
    }
}

/// Reads the address at `offset` as hexadecimal text.
fn address_text(data: &[u8], offset: usize) -> (text: Option<String>)
    ensures
        match text {
            Some(t) => address_at(data@, offset as int) is Some && t@ == address_text_at(
                data@,
                offset as int,
            ),
            None => address_at(data@, offset as int) is None,
        },
{
    let address = read_address(data, offset)?;
    Some(hex_encode(address.as_slice()))
}

/// Reads the word at `offset` as hexadecimal text.
fn word_text(data: &[u8], offset: usize) -> (text: Option<String>)
    ensures
        match text {
            Some(t) => word_at(data@, offset as int) is Some && t@ == word_text_at(
                data@,
                offset as int,
            ),
            None => word_at(data@, offset as int) is None,
        },
{
    let word = read_word(data, offset)?;
    Some(hex_encode(word.as_slice()))
}

/// Reads the unsigned integer at `offset`, where it fits 64 bits.
fn read_u64(data: &[u8], offset: usize) -> (value: Option<u64>)
    ensures
        match value {
            Some(v) => u64_readable_at(data@, offset as int) && v == u64_at(data@, offset as int),
            None => !u64_readable_at(data@, offset as int),
        },
{
    let word = read_word(data, offset)?;
    word_to_u64(word.as_slice())
}

/// Reads the signed integer at `offset`, narrowed to 32 bits.
fn read_tick(data: &[u8], offset: usize) -> (value: Option<i32>)
    ensures
        match value {
            Some(v) => word_at(data@, offset as int) is Some && v == tick_at(data@, offset as int),
            None => word_at(data@, offset as int) is None,
        },
{
    let word = read_word(data, offset)?;
    Some(word_to_i32_or_zero(word.as_slice()))
}

/// Reads the `address[]` pointed to from `offset`, element by element.
pub fn read_addresses(data: &[u8], offset: usize) -> (list: Option<Vec<Vec<u8>>>)
    ensures
        match list {
            Some(found) => address_array_at(data@, offset as int) == Some(views(found@)),
            None => address_array_at(data@, offset as int) is None,
        },
{
    let (tail, count) = read_array_tail(data, offset)?;
    let mut found: Vec<Vec<u8>> = Vec::new();
    // The length of the tail bounds every offset at which an element is read.
    let size: usize = tail.len();
    let mut at: usize = 0;
    let mut k: usize = 0;
    while k < count
        invariant
            size == tail@.len(),
            k <= count,
            at == 32 * k,
            at <= tail@.len(),
            found@.len() == k,
            array_tail_at(data@, offset as int) == Some((tail@, count as int)),
            forall|j: int|
                0 <= j < k ==> (#[trigger] found@[j])@ == tail@.subrange(32 * j + 12, 32 * j + 32),
        decreases count - k,
    {
        match read_address(tail, at) {
            Some(address) => {
                assert(word_at(tail@, at as int) is Some);
                found.push(address);
            },
            None => {
                return None;
            },
        }
        at = at + 32;
        k = k + 1;
    }
    assert(views(found@) =~= address_array_at(data@, offset as int)->0);
    Some(found)
}

/// Hexadecimal text of each element of `list`.
fn encode_all(list: &Vec<Vec<u8>>) -> (texts: Vec<String>)
    ensures
        views(texts@) == views(list@).map_values(|address: Seq<u8>| hex_lower(address)),
{
    let mut texts: Vec<String> = Vec::new();
    let mut i: usize = 0;
    while i < list.len()
        invariant
            i <= list.len(),
            texts@.len() == i,
            forall|j: int| 0 <= j < i ==> (#[trigger] texts@[j])@ == hex_lower(list@[j]@),
        decreases list.len() - i,
    {
        texts.push(hex_encode(list[i].as_slice()));
        i = i + 1;
    }
    assert(views(texts@) =~= views(list@).map_values(|address: Seq<u8>| hex_lower(address)));
    texts
}

/// Decodes a `TokenCreated` log.
pub fn decode_token_created(number: u64, timestamp: u64, tx_hash: &[u8], log: &Log) -> (record:
    Option<TokenCreated>)
    ensures
        match record {
            Some(r) => token_created_of(number, timestamp, tx_hash@, log@) == Some(r@),
            None => token_created_of(number, timestamp, tx_hash@, log@) is None,
        },
{
    if !has_shape(log, EventKind::TokenCreated) {
        return None;
    }
    let data = log.data.as_slice();
    let token_address = address_text(topic(log, 1), 0)?;
    let token_admin = address_text(topic(log, 2), 0)?;
    let msg_sender = address_text(data, 0)?;
    let token_image = read_string(data, 32)?;
    let token_name = read_string(data, 64)?;
    let token_symbol = read_string(data, 96)?;
    let token_metadata = read_string(data, 128)?;
    let token_context = read_string(data, 160)?;
    let starting_tick = read_tick(data, 192)?;
    let pool_hook = address_text(data, 224)?;
    let pool_id = word_text(data, 256)?;
    let paired_token = address_text(data, 288)?;
    let locker = address_text(data, 320)?;
    let mev_module = address_text(data, 352)?;
    let extensions_supply = read_uint(data, 384)?;
    let extensions = read_addresses(data, 416)?;
    Some(
        TokenCreated {
            origin: origin(number, timestamp, tx_hash, log),
            token_address,
            token_admin,
            token_name,
            token_symbol,
            token_image,
            token_metadata,
            token_context,
            pool_id,
            pool_hook,
            paired_token,
            starting_tick,
            locker,
            mev_module,
            extensions_supply,
            extensions: encode_all(&extensions),
            msg_sender,
        },
    )
}

/// Decodes a `ClaimTeamFees` log.
pub fn decode_fee_claim(number: u64, timestamp: u64, tx_hash: &[u8], log: &Log) -> (record: Option<
    FeeClaim,
>)
    ensures
        match record {
            Some(r) => fee_claim_of(number, timestamp, tx_hash@, log@) == Some(r@),
            None => fee_claim_of(number, timestamp, tx_hash@, log@) is None,
        },
{
    if !has_shape(log, EventKind::ClaimTeamFees) {
        return None;
    }
    let token = address_text(topic(log, 1), 0)?;
    let recipient = address_text(topic(log, 2), 0)?;
    let amount = read_uint(log.data.as_slice(), 0)?;
    Some(FeeClaim { origin: origin(number, timestamp, tx_hash, log), token, recipient, amount })
}

/// Decodes an `ExtensionTriggered` log.
pub fn decode_extension_triggered(number: u64, timestamp: u64, tx_hash: &[u8], log: &Log) -> (record:
    Option<ExtensionTriggered>)
    ensures
        match record {
            Some(r) => extension_triggered_of(number, timestamp, tx_hash@, log@) == Some(r@),
            None => extension_triggered_of(number, timestamp, tx_hash@, log@) is None,
        },
{
    if !has_shape(log, EventKind::ExtensionTriggered) {
        return None;
    }
    let data = log.data.as_slice();
    let extension = address_text(data, 0)?;
    let extension_supply = read_uint(data, 32)?;
    let msg_value = read_uint(data, 64)?;
    Some(
        ExtensionTriggered {
            origin: origin(number, timestamp, tx_hash, log),
            extension,
            extension_supply,
            msg_value,
        },
    )
}

/// Decodes an `UpdateImage` log.
pub fn decode_image_update(number: u64, timestamp: u64, tx_hash: &[u8], log: &Log) -> (record:
    Option<TokenMetadataUpdate>)
    ensures
        match record {
            Some(r) => image_update_of(number, timestamp, tx_hash@, log@) == Some(r@),
            None => image_update_of(number, timestamp, tx_hash@, log@) is None,
        },
{
    if !has_shape(log, EventKind::UpdateImage) {
        return None;
    }
    let new_value = read_string(log.data.as_slice(), 0)?;
    Some(
        TokenMetadataUpdate {
            origin: origin(number, timestamp, tx_hash, log),
            token_address: hex_encode(log.address.as_slice()),
            update_type: String::from_str("image"),
            new_value,
        },
    )
}

/// Decodes an `UpdateMetadata` log.
pub fn decode_metadata_update(number: u64, timestamp: u64, tx_hash: &[u8], log: &Log) -> (record:
    Option<TokenMetadataUpdate>)
    ensures
        match record {
            Some(r) => metadata_update_of(number, timestamp, tx_hash@, log@) == Some(r@),
            None => metadata_update_of(number, timestamp, tx_hash@, log@) is None,
        },
{
    if !has_shape(log, EventKind::UpdateMetadata) {
        return None;
    }
    let new_value = read_string(log.data.as_slice(), 0)?;
    Some(
        TokenMetadataUpdate {
            origin: origin(number, timestamp, tx_hash, log),
            token_address: hex_encode(log.address.as_slice()),
            update_type: String::from_str("metadata"),
            new_value,
        },
    )
}

/// Decodes a `Verified` log.
pub fn decode_verification(number: u64, timestamp: u64, tx_hash: &[u8], log: &Log) -> (record:
    Option<TokenVerified>)
    ensures
        match record {
            Some(r) => verification_of(number, timestamp, tx_hash@, log@) == Some(r@),
            None => verification_of(number, timestamp, tx_hash@, log@) is None,
        },
{
    if !has_shape(log, EventKind::Verified) {
        return None;
    }
    let admin = address_text(topic(log, 1), 0)?;
    let token_address = address_text(topic(log, 2), 0)?;
    Some(TokenVerified { origin: origin(number, timestamp, tx_hash, log), token_address, admin })
}

/// Decodes a `Transfer` log.
pub fn decode_transfer(number: u64, timestamp: u64, tx_hash: &[u8], log: &Log) -> (record: Option<
    TokenTransfer,
>)
    ensures
        match record {
            Some(r) => transfer_of(number, timestamp, tx_hash@, log@) == Some(r@),
            None => transfer_of(number, timestamp, tx_hash@, log@) is None,
        },
{
    if !has_shape(log, EventKind::Transfer) {
        return None;
    }
    let from = address_text(topic(log, 1), 0)?;
    let to = address_text(topic(log, 2), 0)?;
    let amount = read_uint(log.data.as_slice(), 0)?;
    Some(
        TokenTransfer {
            origin: origin(number, timestamp, tx_hash, log),
            token_address: hex_encode(log.address.as_slice()),
            from,
            to,
            amount,
        },
    )
}

/// Decodes an `AirdropCreated` log.
pub fn decode_airdrop_created(number: u64, timestamp: u64, tx_hash: &[u8], log: &Log) -> (record:
    Option<AirdropCreated>)
    ensures
        match record {
            Some(r) => airdrop_created_of(number, timestamp, tx_hash@, log@) == Some(r@),
            None => airdrop_created_of(number, timestamp, tx_hash@, log@) is None,
        },
{
    if !has_shape(log, EventKind::AirdropCreated) {
        return None;
    }
    let data = log.data.as_slice();
    let token = address_text(topic(log, 1), 0)?;
    let admin = address_text(topic(log, 2), 0)?;
    let merkle_root = word_text(data, 0)?;
    let supply = read_uint(data, 32)?;
    let lockup_duration = read_u64(data, 64)?;
    let vesting_duration = read_u64(data, 96)?;
    Some(
        AirdropCreated {
            origin: origin(number, timestamp, tx_hash, log),
            token,
            admin,
            merkle_root,
            supply,
            lockup_duration,
            vesting_duration,
        },
    )
}

/// Decodes an `AirdropClaimed` log.
pub fn decode_airdrop_claimed(number: u64, timestamp: u64, tx_hash: &[u8], log: &Log) -> (record:
    Option<AirdropClaimed>)
    ensures
        match record {
            Some(r) => airdrop_claimed_of(number, timestamp, tx_hash@, log@) == Some(r@),
            None => airdrop_claimed_of(number, timestamp, tx_hash@, log@) is None,
        },
{
    if !has_shape(log, EventKind::AirdropClaimed) {
        return None;
    }
    let data = log.data.as_slice();
    let token = address_text(topic(log, 1), 0)?;
    let user = address_text(topic(log, 2), 0)?;
    let total_claimed = read_uint(data, 0)?;
    let still_locked = read_uint(data, 32)?;
    Some(
        AirdropClaimed {
            origin: origin(number, timestamp, tx_hash, log),
            token,
            user,
            total_claimed,
            still_locked,
        },
    )
}

/// Decodes an `AuctionWon` log.
pub fn decode_auction_won(number: u64, timestamp: u64, tx_hash: &[u8], log: &Log) -> (record:
    Option<AuctionWon>)
    ensures
        match record {
            Some(r) => auction_won_of(number, timestamp, tx_hash@, log@) == Some(r@),
            None => auction_won_of(number, timestamp, tx_hash@, log@) is None,
        },
{
    if !has_shape(log, EventKind::AuctionWon) {
        return None;
    }
    let data = log.data.as_slice();
    let pool_id = word_text(topic(log, 1), 0)?;
    let winner = address_text(topic(log, 2), 0)?;
    let payment_amount = read_uint(data, 0)?;
    let round = read_u64(data, 32)?;
    Some(
        AuctionWon {
            origin: origin(number, timestamp, tx_hash, log),
            pool_id,
            winner,
            payment_amount,
            round,
        },
    )
}

/// Decodes a log of whatever kind: looks its signature hash up among the
/// recognised kinds and decodes the log as that kind. A log without topics,
/// with an unknown signature or with a payload that does not decode is no
/// event.
pub fn decode_log(number: u64, timestamp: u64, tx_hash: &[u8], log: &Log) -> (event: Option<
    TypedEvent,
>)
    ensures
        match event {
            Some(e) => typed_event_of(number, timestamp, tx_hash@, log@) == Some(e@),
            None => typed_event_of(number, timestamp, tx_hash@, log@) is None,
        },
{
    if log.topics.len() == 0 {
        return None;
    }
    match recognize(topic(log, 0)) {
        Some(EventKind::TokenCreated) => match decode_token_created(
            number,
            timestamp,
            tx_hash,
            log,
        ) {
            Some(r) => Some(TypedEvent::TokenCreated(r)),
            None => None,
        },
        Some(EventKind::ClaimTeamFees) => match decode_fee_claim(number, timestamp, tx_hash, log) {
            Some(r) => Some(TypedEvent::FeeClaim(r)),
            None => None,
        },
        Some(EventKind::ExtensionTriggered) => match decode_extension_triggered(
            number,
            timestamp,
            tx_hash,
            log,
        ) {
            Some(r) => Some(TypedEvent::ExtensionTriggered(r)),
            None => None,
        },
        Some(EventKind::UpdateImage) => match decode_image_update(
            number,
            timestamp,
            tx_hash,
            log,
        ) {
            Some(r) => Some(TypedEvent::MetadataUpdate(r)),
            None => None,
        },
        Some(EventKind::UpdateMetadata) => match decode_metadata_update(
            number,
            timestamp,
            tx_hash,
            log,
        ) {
            Some(r) => Some(TypedEvent::MetadataUpdate(r)),
            None => None,
        },
        Some(EventKind::Verified) => match decode_verification(number, timestamp, tx_hash, log) {
            Some(r) => Some(TypedEvent::Verification(r)),
            None => None,
        },
        Some(EventKind::Transfer) => match decode_transfer(number, timestamp, tx_hash, log) {
            Some(r) => Some(TypedEvent::Transfer(r)),
            None => None,
        },
        Some(EventKind::AirdropCreated) => match decode_airdrop_created(
            number,
            timestamp,
            tx_hash,
            log,
        ) {
            Some(r) => Some(TypedEvent::AirdropCreated(r)),
            None => None,
        },
        Some(EventKind::AirdropClaimed) => match decode_airdrop_claimed(
            number,
            timestamp,
            tx_hash,
            log,
        ) {
            Some(r) => Some(TypedEvent::AirdropClaimed(r)),
            None => None,
        },
        Some(EventKind::AuctionWon) => match decode_auction_won(number, timestamp, tx_hash, log) {
            Some(r) => Some(TypedEvent::AuctionWon(r)),
            None => None,
        },
        None => None,
    }
}

} // verus!
