//! Decoding of Clanker contract logs into typed records, the keyed aggregate
//! stores those records feed, and the rows they are materialised into.
//!
//! A block is worked on in stages. The scope of the run is resolved from its
//! configuration ([`scope`]). The extractor walks the logs of the block in
//! their order and emits one record per log that has the shape of a known
//! event and comes from the address the event is bound to ([`schema`],
//! [`decode`], [`extract`]). The creation records enter the token registry,
//! which gates the transfers that are kept ([`store`], [`registry`]); sums
//! and counts are kept per entity ([`integer`], [`aggregates`]). Every record
//! becomes one row of its family ([`rows`]).
//!
//! Every stage is a function of its arguments: a block, a scope and a store
//! snapshot fix the batch, the store contents and the rows that come out.
//! What holds across the stages is stated and proved in [`laws`].

pub mod abi;
pub mod aggregates;
pub mod chain;
pub mod decode;
pub mod extract;
pub mod hexfmt;
pub mod integer;
pub mod laws;
pub mod numeric;
pub mod records;
pub mod registry;
pub mod rows;
pub mod schema;
pub mod scope;
pub mod store;

pub use crate::aggregates::{
    store_airdrop_claims_per_token, store_airdrop_volume_per_token, store_creator_fees,
    store_creator_token_counts, store_token_transfer_counts, store_token_volume,
};
pub use crate::extract::map_clanker_events;
pub use crate::registry::{map_token_transfers, store_tokens};
pub use crate::rows::db_out;
pub use crate::scope::parse_factory_address;
