//! The typed records that the stages hand to each other, each with the
//! mathematical value that contracts speak of.

use crate::chain::views;
use vstd::prelude::*;

verus! {

/// Where a record comes from: the natural primary key of an event is `(tx_hash, log_index)`.
#[derive(Clone, Debug, PartialEq, Eq)]
pub struct Provenance {
    /// Hash of the transaction, as lower-case hexadecimal text.
    pub tx_hash: String,
    pub block_number: u64,
    /// Seconds since the epoch.
    pub block_timestamp: u64,
    /// Position of the log within its transaction.
    pub log_index: u64,
}

/// `Provenance` as a mathematical value.
pub struct ProvenanceView {
    pub tx_hash: Seq<char>,
    pub block_number: u64,
    pub block_timestamp: u64,
    pub log_index: u64,
}

impl View for Provenance {
    type V = ProvenanceView;

    open spec fn view(&self) -> ProvenanceView {
        ProvenanceView {
            tx_hash: self.tx_hash@,
            block_number: self.block_number,
            block_timestamp: self.block_timestamp,
            log_index: self.log_index,
        }
    }
}

/// A token deployed through the factory.
#[derive(Clone, Debug, PartialEq, Eq)]
pub struct TokenCreated {
    pub origin: Provenance,
    pub token_address: String,
    pub token_admin: String,
    pub token_name: String,
    pub token_symbol: String,
    pub token_image: String,
    pub token_metadata: String,
    pub token_context: String,
    pub pool_id: String,
    pub pool_hook: String,
    pub paired_token: String,
    /// The tick the pool starts at, or 0 where the logged value does not fit 32 bits.
    pub starting_tick: i32,
    pub locker: String,
    pub mev_module: String,
    /// Decimal text.
    pub extensions_supply: String,
    pub extensions: Vec<String>,
    pub msg_sender: String,
}

/// `TokenCreated` as a mathematical value.
pub struct TokenCreatedView {
    pub origin: ProvenanceView,
    pub token_address: Seq<char>,
    pub token_admin: Seq<char>,
    pub token_name: Seq<char>,
    pub token_symbol: Seq<char>,
    pub token_image: Seq<char>,
    pub token_metadata: Seq<char>,
    pub token_context: Seq<char>,
    pub pool_id: Seq<char>,
    pub pool_hook: Seq<char>,
    pub paired_token: Seq<char>,
    pub starting_tick: i32,
    pub locker: Seq<char>,
    pub mev_module: Seq<char>,
    pub extensions_supply: Seq<char>,
    pub extensions: Seq<Seq<char>>,
    pub msg_sender: Seq<char>,
}

impl View for TokenCreated {
    type V = TokenCreatedView;

    open spec fn view(&self) -> TokenCreatedView {
        TokenCreatedView {
            origin: self.origin@,
            token_address: self.token_address@,
            token_admin: self.token_admin@,
            token_name: self.token_name@,
            token_symbol: self.token_symbol@,
            token_image: self.token_image@,
            token_metadata: self.token_metadata@,
            token_context: self.token_context@,
            pool_id: self.pool_id@,
            pool_hook: self.pool_hook@,
            paired_token: self.paired_token@,
            starting_tick: self.starting_tick,
            locker: self.locker@,
            mev_module: self.mev_module@,
            extensions_supply: self.extensions_supply@,
            extensions: views(self.extensions@),
            msg_sender: self.msg_sender@,
        }
    }
}

/// Team fees claimed for a token.
#[derive(Clone, Debug, PartialEq, Eq)]
pub struct FeeClaim {
    pub origin: Provenance,
    pub token: String,
    pub recipient: String,
    /// Decimal text.
    pub amount: String,
}

/// `FeeClaim` as a mathematical value.
pub struct FeeClaimView {
    pub origin: ProvenanceView,
    pub token: Seq<char>,
    pub recipient: Seq<char>,
    pub amount: Seq<char>,
}

impl View for FeeClaim {
    type V = FeeClaimView;

    open spec fn view(&self) -> FeeClaimView {
        FeeClaimView {
            origin: self.origin@,
            token: self.token@,
            recipient: self.recipient@,
            amount: self.amount@,
        }
    }
}

/// An extension run while a token was deployed.
#[derive(Clone, Debug, PartialEq, Eq)]
pub struct ExtensionTriggered {
    pub origin: Provenance,
    pub extension: String,
    /// Decimal text.
    pub extension_supply: String,
    /// Decimal text.
    pub msg_value: String,
}

/// `ExtensionTriggered` as a mathematical value.
pub struct ExtensionTriggeredView {
    pub origin: ProvenanceView,
    pub extension: Seq<char>,
    pub extension_supply: Seq<char>,
    pub msg_value: Seq<char>,
}

impl View for ExtensionTriggered {
    type V = ExtensionTriggeredView;

    open spec fn view(&self) -> ExtensionTriggeredView {
        ExtensionTriggeredView {
            origin: self.origin@,
            extension: self.extension@,
            extension_supply: self.extension_supply@,
            msg_value: self.msg_value@,
        }
    }
}

/// A token's image or metadata replaced.
#[derive(Clone, Debug, PartialEq, Eq)]
pub struct TokenMetadataUpdate {
    pub origin: Provenance,
    pub token_address: String,
    /// `"image"` or `"metadata"`.
    pub update_type: String,
    pub new_value: String,
}

/// `TokenMetadataUpdate` as a mathematical value.
pub struct TokenMetadataUpdateView {
    pub origin: ProvenanceView,
    pub token_address: Seq<char>,
    pub update_type: Seq<char>,
    pub new_value: Seq<char>,
}

impl View for TokenMetadataUpdate {
    type V = TokenMetadataUpdateView;

    open spec fn view(&self) -> TokenMetadataUpdateView {
        TokenMetadataUpdateView {
            origin: self.origin@,
            token_address: self.token_address@,
            update_type: self.update_type@,
            new_value: self.new_value@,
        }
    }
}

/// A token marked as verified by its admin.
#[derive(Clone, Debug, PartialEq, Eq)]
pub struct TokenVerified {
    pub origin: Provenance,
    pub token_address: String,
    pub admin: String,
}

/// `TokenVerified` as a mathematical value.
pub struct TokenVerifiedView {
    pub origin: ProvenanceView,
    pub token_address: Seq<char>,
    pub admin: Seq<char>,
}

impl View for TokenVerified {
    type V = TokenVerifiedView;

    open spec fn view(&self) -> TokenVerifiedView {
        TokenVerifiedView {
            origin: self.origin@,
            token_address: self.token_address@,
            admin: self.admin@,
        }
    }
}

/// An airdrop set up for a token.
#[derive(Clone, Debug, PartialEq, Eq)]
pub struct AirdropCreated {
    pub origin: Provenance,
    pub token: String,
    pub admin: String,
    pub merkle_root: String,
    /// Decimal text.
    pub supply: String,
    pub lockup_duration: u64,
    pub vesting_duration: u64,
}

/// `AirdropCreated` as a mathematical value.
pub struct AirdropCreatedView {
    pub origin: ProvenanceView,
    pub token: Seq<char>,
    pub admin: Seq<char>,
    pub merkle_root: Seq<char>,
    pub supply: Seq<char>,
    pub lockup_duration: u64,
    pub vesting_duration: u64,
}

impl View for AirdropCreated {
    type V = AirdropCreatedView;

    open spec fn view(&self) -> AirdropCreatedView {
        AirdropCreatedView {
            origin: self.origin@,
            token: self.token@,
            admin: self.admin@,
            merkle_root: self.merkle_root@,
            supply: self.supply@,
            lockup_duration: self.lockup_duration,
            vesting_duration: self.vesting_duration,
        }
    }
}

/// A claim against an airdrop.
#[derive(Clone, Debug, PartialEq, Eq)]
pub struct AirdropClaimed {
    pub origin: Provenance,
    pub token: String,
    pub user: String,
    /// Decimal text.
    pub total_claimed: String,
    /// Decimal text.
    pub still_locked: String,
}

/// `AirdropClaimed` as a mathematical value.
pub struct AirdropClaimedView {
    pub origin: ProvenanceView,
    pub token: Seq<char>,
    pub user: Seq<char>,
    pub total_claimed: Seq<char>,
    pub still_locked: Seq<char>,
}

impl View for AirdropClaimed {
    type V = AirdropClaimedView;

    open spec fn view(&self) -> AirdropClaimedView {
        AirdropClaimedView {
            origin: self.origin@,
            token: self.token@,
            user: self.user@,
            total_claimed: self.total_claimed@,
            still_locked: self.still_locked@,
        }
    }
}

/// A sniper auction round won.
#[derive(Clone, Debug, PartialEq, Eq)]
pub struct AuctionWon {
    pub origin: Provenance,
    pub pool_id: String,
    pub winner: String,
    /// Decimal text.
    pub payment_amount: String,
    pub round: u64,
}

/// `AuctionWon` as a mathematical value.
pub struct AuctionWonView {
    pub origin: ProvenanceView,
    pub pool_id: Seq<char>,
    pub winner: Seq<char>,
    pub payment_amount: Seq<char>,
    pub round: u64,
}

impl View for AuctionWon {
    type V = AuctionWonView;

    open spec fn view(&self) -> AuctionWonView {
        AuctionWonView {
            origin: self.origin@,
            pool_id: self.pool_id@,
            winner: self.winner@,
            payment_amount: self.payment_amount@,
            round: self.round,
        }
    }
}

/// A transfer of a registered token.
#[derive(Clone, Debug, PartialEq, Eq)]
pub struct TokenTransfer {
    pub origin: Provenance,
    pub token_address: String,
    pub from: String,
    pub to: String,
    /// Decimal text.
    pub amount: String,
}

/// `TokenTransfer` as a mathematical value.
pub struct TokenTransferView {
    pub origin: ProvenanceView,
    pub token_address: Seq<char>,
    pub from: Seq<char>,
    pub to: Seq<char>,
    pub amount: Seq<char>,
}

impl View for TokenTransfer {
    type V = TokenTransferView;

    open spec fn view(&self) -> TokenTransferView {
        TokenTransferView {
            origin: self.origin@,
            token_address: self.token_address@,
            from: self.from@,
            to: self.to@,
            amount: self.amount@,
        }
    }
}

/// One decoded event of any kind.
#[derive(Clone, Debug, PartialEq, Eq)]
pub enum TypedEvent {
    TokenCreated(TokenCreated),
    FeeClaim(FeeClaim),
    ExtensionTriggered(ExtensionTriggered),
    MetadataUpdate(TokenMetadataUpdate),
    Verification(TokenVerified),
    Transfer(TokenTransfer),
    AirdropCreated(AirdropCreated),
    AirdropClaimed(AirdropClaimed),
    AuctionWon(AuctionWon),
}

/// `TypedEvent` as a mathematical value.
pub enum TypedEventView {
    TokenCreated(TokenCreatedView),
    FeeClaim(FeeClaimView),
    ExtensionTriggered(ExtensionTriggeredView),
    MetadataUpdate(TokenMetadataUpdateView),
    Verification(TokenVerifiedView),
    Transfer(TokenTransferView),
    AirdropCreated(AirdropCreatedView),
    AirdropClaimed(AirdropClaimedView),
    AuctionWon(AuctionWonView),
}

impl View for TypedEvent {
    type V = TypedEventView;

    open spec fn view(&self) -> TypedEventView {
        match self {
            TypedEvent::TokenCreated(r) => TypedEventView::TokenCreated(r@),
            TypedEvent::FeeClaim(r) => TypedEventView::FeeClaim(r@),
            TypedEvent::ExtensionTriggered(r) => TypedEventView::ExtensionTriggered(r@),
            TypedEvent::MetadataUpdate(r) => TypedEventView::MetadataUpdate(r@),
            TypedEvent::Verification(r) => TypedEventView::Verification(r@),
            TypedEvent::Transfer(r) => TypedEventView::Transfer(r@),
            TypedEvent::AirdropCreated(r) => TypedEventView::AirdropCreated(r@),
            TypedEvent::AirdropClaimed(r) => TypedEventView::AirdropClaimed(r@),
            TypedEvent::AuctionWon(r) => TypedEventView::AuctionWon(r@),
        }
    }
}

/// Registry entry: the snapshot of a token taken at its creation.
#[derive(Clone, Debug, PartialEq, Eq)]
pub struct Token {
    pub address: String,
    pub name: String,
    pub symbol: String,
    pub admin: String,
    pub image: String,
    pub pool_id: String,
    pub paired_token: String,
    pub created_at_block: u64,
    pub created_at_timestamp: u64,
}

/// `Token` as a mathematical value.
pub struct TokenView {
    pub address: Seq<char>,
    pub name: Seq<char>,
    pub symbol: Seq<char>,
    pub admin: Seq<char>,
    pub image: Seq<char>,
    pub pool_id: Seq<char>,
    pub paired_token: Seq<char>,
    pub created_at_block: u64,
    pub created_at_timestamp: u64,
}

impl View for Token {
    type V = TokenView;

    open spec fn view(&self) -> TokenView {
        TokenView {
            address: self.address@,
            name: self.name@,
            symbol: self.symbol@,
            admin: self.admin@,
            image: self.image@,
            pool_id: self.pool_id@,
            paired_token: self.paired_token@,
            created_at_block: self.created_at_block,
            created_at_timestamp: self.created_at_timestamp,
        }
    }
}

/// The batch of one block: one list per kind of event, each in traversal order.
#[derive(Clone, Debug, PartialEq, Eq)]
pub struct ClankerEvents {
    pub token_created: Vec<TokenCreated>,
    pub fee_claims: Vec<FeeClaim>,
    pub extensions_triggered: Vec<ExtensionTriggered>,
    pub metadata_updates: Vec<TokenMetadataUpdate>,
    pub verifications: Vec<TokenVerified>,
    pub airdrop_created: Vec<AirdropCreated>,
    pub airdrop_claimed: Vec<AirdropClaimed>,
    pub auction_won: Vec<AuctionWon>,
}

/// `ClankerEvents` as a mathematical value.
pub struct ClankerEventsView {
    pub token_created: Seq<TokenCreatedView>,
    pub fee_claims: Seq<FeeClaimView>,
    pub extensions_triggered: Seq<ExtensionTriggeredView>,
    pub metadata_updates: Seq<TokenMetadataUpdateView>,
    pub verifications: Seq<TokenVerifiedView>,
    pub airdrop_created: Seq<AirdropCreatedView>,
    pub airdrop_claimed: Seq<AirdropClaimedView>,
    pub auction_won: Seq<AuctionWonView>,
}

impl View for ClankerEvents {
    type V = ClankerEventsView;

    open spec fn view(&self) -> ClankerEventsView {
        ClankerEventsView {
            token_created: views(self.token_created@),
            fee_claims: views(self.fee_claims@),
            extensions_triggered: views(self.extensions_triggered@),
            metadata_updates: views(self.metadata_updates@),
            verifications: views(self.verifications@),
            airdrop_created: views(self.airdrop_created@),
            airdrop_claimed: views(self.airdrop_claimed@),
            auction_won: views(self.auction_won@),
        }
    }
}

/// The transfers of one block that belong to registered tokens, in traversal order.
#[derive(Clone, Debug, PartialEq, Eq)]
pub struct TokenTransfers {
    pub transfers: Vec<TokenTransfer>,
}

/// `TokenTransfers` as a mathematical value.
pub struct TokenTransfersView {
    pub transfers: Seq<TokenTransferView>,
}

impl View for TokenTransfers {
    type V = TokenTransfersView;

    open spec fn view(&self) -> TokenTransfersView {
        TokenTransfersView {
            transfers: views(self.transfers@),
        }
    }
}

} // verus!
