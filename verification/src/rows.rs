//! The row materialiser: every record becomes one row of its family, keyed by
//! the entity's address for a token and by transaction and log position for
//! everything else.

use crate::chain::views;
use crate::numeric::{decimal_text, i32_text, signed_decimal_text, u64_text};
use crate::records::{
    AirdropClaimed, AirdropClaimedView, AirdropCreated, AirdropCreatedView, AuctionWon,
    AuctionWonView, ClankerEvents, ClankerEventsView, ExtensionTriggered, ExtensionTriggeredView,
    FeeClaim, FeeClaimView, Provenance, ProvenanceView, TokenCreated, TokenCreatedView,
    TokenMetadataUpdate, TokenMetadataUpdateView, TokenTransfer, TokenTransferView, TokenTransfers,
    TokenTransfersView, TokenVerified, TokenVerifiedView,
};
use substreams_database_change::tables::Row;
use substreams_database_change::tables::Tables;
use vstd::prelude::*;

verus! {

/// The columns of a row: each name with the text of its value.
pub type Columns = Map<Seq<char>, Seq<char>>;

/// A row as a mathematical value.
pub struct RowView {
    /// The family the row belongs to.
    pub table: Seq<char>,
    /// The primary key of the row within its family.
    pub key: Seq<char>,
    pub columns: Columns,
}

/// The row set of `substreams_database_change`: rows by family and primary
/// key, each remembering when it was first asked for.
#[verifier::external_type_specification]
#[verifier::external_body]
pub struct ExTables(Tables);

/// One row of the row set.
#[verifier::external_type_specification]
#[verifier::external_body]
pub struct ExRow(Row);

/// The rows that a row set holds, in the order in which they were first asked
/// for.
pub uninterp spec fn table_rows(tables: Tables) -> Seq<RowView>;

/// Whether no row of a row set is marked for anything but creation.
pub uninterp spec fn insert_only(tables: Tables) -> bool;

/// The columns that a row holds.
pub uninterp spec fn row_columns(row: Row) -> Columns;

/// Whether a row is unmarked or marked for creation.
pub uninterp spec fn row_insertable(row: Row) -> bool;

/// No columns.
pub open spec fn no_columns() -> Columns {
    Map::empty()
}

/// Index of the first row of `rows` with the given family and key, or the
/// length of `rows` where there is none.
pub open spec fn row_position(rows: Seq<RowView>, table: Seq<char>, key: Seq<char>) -> int
    decreases rows.len(),
{
    if rows.len() == 0 {
        0
    } else if rows[0].table == table && rows[0].key == key {
        0
    } else {
        1 + row_position(rows.drop_first(), table, key)
    }
}

/// The columns that the row with the given family and key holds in `rows`:
/// none where `rows` has no such row.
pub open spec fn columns_at(rows: Seq<RowView>, table: Seq<char>, key: Seq<char>) -> Columns {
    let at = row_position(rows, table, key);
    if at < rows.len() {
        rows[at].columns
    } else {
        no_columns()
    }
}

/// `rows` after the row with the given family and key has been given
/// `columns`: a row that was there keeps its place, a new one goes behind all
/// others.
pub open spec fn with_row(rows: Seq<RowView>, table: Seq<char>, key: Seq<char>, columns: Columns)
    -> Seq<RowView> {
    let at = row_position(rows, table, key);
    if at < rows.len() {
        rows.update(at, RowView { table, key, columns })
    } else {
        rows.push(RowView { table, key, columns })
    }
}

/// `Tables::new`: a row set without rows.
#[verifier::external_body]
pub(crate) fn new_tables() -> (tables: Tables)
    ensures
        table_rows(tables) == Seq::<RowView>::empty(),
        insert_only(tables),
{
    Tables::new()
}

/// `Tables::create_row` with a single-column key: hands out the row of that
/// family and key, which is a new one without columns, behind all others,
/// where the row set had none. The row is marked for creation. The call
/// panics on a row that is marked for an update, an upsert or a deletion,
/// which `requires` excludes. What the caller then does to the row is what the
/// row set holds for it.
#[verifier::external_body]
pub(crate) fn create_row<'a>(tables: &'a mut Tables, table: &str, key: &str) -> (row: &'a mut Row)
    requires
        insert_only(*old(tables)),
    ensures
        row_columns(*row) == columns_at(table_rows(*old(tables)), table@, key@),
        row_insertable(*row),
        table_rows(*final(tables)) == with_row(
            table_rows(*old(tables)),
            table@,
            key@,
            row_columns(*final(row)),
        ),
        row_insertable(*final(row)) ==> insert_only(*final(tables)),
{
    tables.create_row(table, key)
}

/// `Row::set` with a text value: the column of that name holds the text
/// afterwards, whatever it held before. The call panics on a row that is
/// marked for deletion, which `requires` excludes.
#[verifier::external_body]
pub(crate) fn row_set(row: &mut Row, name: &str, value: &str)
    requires
        row_insertable(*old(row)),
    ensures
        row_columns(*final(row)) == row_columns(*old(row)).insert(name@, value@),
        row_insertable(*final(row)),
{
    row.set(name, value);
}

/// The primary key of an event row: the transaction hash, a hyphen, and the
/// position of the log.
pub open spec fn event_key(origin: ProvenanceView) -> Seq<char> {
    origin.tx_hash + "-"@ + decimal_text(origin.log_index as nat)
}

/// The columns every row carries: where its record comes from.
pub open spec fn origin_columns(base: Columns, origin: ProvenanceView) -> Columns {
    base.insert("tx_hash"@, origin.tx_hash).insert(
        "block_number"@,
        decimal_text(origin.block_number as nat),
    ).insert("block_timestamp"@, decimal_text(origin.block_timestamp as nat)).insert(
        "log_index"@,
        decimal_text(origin.log_index as nat),
    )
}

/// The columns of a row of `tokens`.
pub open spec fn token_columns(base: Columns, t: TokenCreatedView) -> Columns {
    origin_columns(base, t.origin).insert("admin"@, t.token_admin).insert(
        "name"@,
        t.token_name,
    ).insert("symbol"@, t.token_symbol).insert("image"@, t.token_image).insert(
        "metadata"@,
        t.token_metadata,
    ).insert("context"@, t.token_context).insert("pool_id"@, t.pool_id).insert(
        "pool_hook"@,
        t.pool_hook,
    ).insert("paired_token"@, t.paired_token).insert(
        "starting_tick"@,
        signed_decimal_text(t.starting_tick as int),
    ).insert("locker"@, t.locker).insert("mev_module"@, t.mev_module).insert(
        "extensions_supply"@,
        t.extensions_supply,
    ).insert("msg_sender"@, t.msg_sender)
}

/// The columns of a row of `fee_claims`.
pub open spec fn fee_claim_columns(base: Columns, f: FeeClaimView) -> Columns {
    origin_columns(base, f.origin).insert("token"@, f.token).insert(
        "recipient"@,
        f.recipient,
    ).insert("amount"@, f.amount)
}

/// The columns of a row of `extensions_triggered`.
pub open spec fn extension_columns(base: Columns, x: ExtensionTriggeredView) -> Columns {
    origin_columns(base, x.origin).insert("extension"@, x.extension).insert(
        "extension_supply"@,
        x.extension_supply,
    ).insert("msg_value"@, x.msg_value)
}

/// The columns of a row of `metadata_updates`.
pub open spec fn metadata_update_columns(base: Columns, u: TokenMetadataUpdateView) -> Columns {
    origin_columns(base, u.origin).insert("token_address"@, u.token_address).insert(
        "update_type"@,
        u.update_type,
    ).insert("new_value"@, u.new_value)
}

/// The columns of a row of `verifications`.
pub open spec fn verification_columns(base: Columns, v: TokenVerifiedView) -> Columns {
    origin_columns(base, v.origin).insert("token_address"@, v.token_address).insert(
        "admin"@,
        v.admin,
    )
}

/// The columns of a row of `transfers`.
pub open spec fn transfer_columns(base: Columns, t: TokenTransferView) -> Columns {
    origin_columns(base, t.origin).insert("token_address"@, t.token_address).insert(
        "from_address"@,
        t.from,
    ).insert("to_address"@, t.to).insert("amount"@, t.amount)
}

/// The columns of a row of `airdrops`.
pub open spec fn airdrop_columns(base: Columns, a: AirdropCreatedView) -> Columns {
    origin_columns(base, a.origin).insert("token"@, a.token).insert("admin"@, a.admin).insert(
        "merkle_root"@,
        a.merkle_root,
    ).insert("supply"@, a.supply).insert(
        "lockup_duration"@,
        decimal_text(a.lockup_duration as nat),
    ).insert("vesting_duration"@, decimal_text(a.vesting_duration as nat))
}

/// The columns of a row of `airdrop_claims`.
pub open spec fn airdrop_claim_columns(base: Columns, c: AirdropClaimedView) -> Columns {
    origin_columns(base, c.origin).insert("token"@, c.token).insert(
        "user_address"@,
        c.user,
    ).insert("total_claimed"@, c.total_claimed).insert("still_locked"@, c.still_locked)
}

/// The columns of a row of `auction_wins`.
pub open spec fn auction_columns(base: Columns, a: AuctionWonView) -> Columns {
    origin_columns(base, a.origin).insert("pool_id"@, a.pool_id).insert(
        "winner"@,
        a.winner,
    ).insert("payment_amount"@, a.payment_amount).insert("round"@, decimal_text(a.round as nat))
}

/// `rows` with the row of a token: keyed by the token's own address.
pub open spec fn token_row(rows: Seq<RowView>, t: TokenCreatedView) -> Seq<RowView> {
    with_row(
        rows,
        "tokens"@,
        t.token_address,
        token_columns(columns_at(rows, "tokens"@, t.token_address), t),
    )
}

/// `rows` with the row of a fee claim.
pub open spec fn fee_claim_row(rows: Seq<RowView>, f: FeeClaimView) -> Seq<RowView> {
    with_row(
        rows,
        "fee_claims"@,
        event_key(f.origin),
        fee_claim_columns(columns_at(rows, "fee_claims"@, event_key(f.origin)), f),
    )
}

/// `rows` with the row of a triggered extension.
pub open spec fn extension_row(rows: Seq<RowView>, x: ExtensionTriggeredView) -> Seq<RowView> {
    with_row(
        rows,
        "extensions_triggered"@,
        event_key(x.origin),
        extension_columns(columns_at(rows, "extensions_triggered"@, event_key(x.origin)), x),
    )
}

/// `rows` with the row of a metadata update.
pub open spec fn metadata_update_row(rows: Seq<RowView>, u: TokenMetadataUpdateView) -> Seq<
    RowView,
> {
    with_row(
        rows,
        "metadata_updates"@,
        event_key(u.origin),
        metadata_update_columns(columns_at(rows, "metadata_updates"@, event_key(u.origin)), u),
    )
}

/// `rows` with the row of a verification.
pub open spec fn verification_row(rows: Seq<RowView>, v: TokenVerifiedView) -> Seq<RowView> {
    with_row(
        rows,
        "verifications"@,
        event_key(v.origin),
        verification_columns(columns_at(rows, "verifications"@, event_key(v.origin)), v),
    )
}

/// `rows` with the row of a transfer.
pub open spec fn transfer_row(rows: Seq<RowView>, t: TokenTransferView) -> Seq<RowView> {
    with_row(
        rows,
        "transfers"@,
        event_key(t.origin),
        transfer_columns(columns_at(rows, "transfers"@, event_key(t.origin)), t),
    )
}

/// `rows` with the row of an airdrop.
pub open spec fn airdrop_row(rows: Seq<RowView>, a: AirdropCreatedView) -> Seq<RowView> {
    with_row(
        rows,
        "airdrops"@,
        event_key(a.origin),
        airdrop_columns(columns_at(rows, "airdrops"@, event_key(a.origin)), a),
    )
}

/// `rows` with the row of an airdrop claim.
pub open spec fn airdrop_claim_row(rows: Seq<RowView>, c: AirdropClaimedView) -> Seq<RowView> {
    with_row(
        rows,
        "airdrop_claims"@,
        event_key(c.origin),
        airdrop_claim_columns(columns_at(rows, "airdrop_claims"@, event_key(c.origin)), c),
    )
}

/// `rows` with the row of an auction win.
pub open spec fn auction_row(rows: Seq<RowView>, a: AuctionWonView) -> Seq<RowView> {
    with_row(
        rows,
        "auction_wins"@,
        event_key(a.origin),
        auction_columns(columns_at(rows, "auction_wins"@, event_key(a.origin)), a),
    )
}

/// One record of the tokens at a time, as a step over the rows so far.
pub open spec fn token_step() -> spec_fn(Seq<RowView>, TokenCreatedView) -> Seq<RowView> {
    |rows: Seq<RowView>, record: TokenCreatedView| token_row(rows, record)
}

/// One record of the fee claims at a time, as a step over the rows so far.
pub open spec fn fee_claim_step() -> spec_fn(Seq<RowView>, FeeClaimView) -> Seq<RowView> {
    |rows: Seq<RowView>, record: FeeClaimView| fee_claim_row(rows, record)
}

/// One record of the triggered extensions at a time, as a step over the rows so far.
pub open spec fn extension_step() -> spec_fn(Seq<RowView>, ExtensionTriggeredView) -> Seq<RowView> {
    |rows: Seq<RowView>, record: ExtensionTriggeredView| extension_row(rows, record)
}

/// One record of the metadata updates at a time, as a step over the rows so far.
pub open spec fn metadata_update_step() -> spec_fn(Seq<RowView>, TokenMetadataUpdateView) -> Seq<RowView> {
    |rows: Seq<RowView>, record: TokenMetadataUpdateView| metadata_update_row(rows, record)
}

/// One record of the verifications at a time, as a step over the rows so far.
pub open spec fn verification_step() -> spec_fn(Seq<RowView>, TokenVerifiedView) -> Seq<RowView> {
    |rows: Seq<RowView>, record: TokenVerifiedView| verification_row(rows, record)
}

/// One record of the transfers at a time, as a step over the rows so far.
pub open spec fn transfer_step() -> spec_fn(Seq<RowView>, TokenTransferView) -> Seq<RowView> {
    |rows: Seq<RowView>, record: TokenTransferView| transfer_row(rows, record)
}

/// One record of the airdrops at a time, as a step over the rows so far.
pub open spec fn airdrop_step() -> spec_fn(Seq<RowView>, AirdropCreatedView) -> Seq<RowView> {
    |rows: Seq<RowView>, record: AirdropCreatedView| airdrop_row(rows, record)
}

/// One record of the airdrop claims at a time, as a step over the rows so far.
pub open spec fn airdrop_claim_step() -> spec_fn(Seq<RowView>, AirdropClaimedView) -> Seq<RowView> {
    |rows: Seq<RowView>, record: AirdropClaimedView| airdrop_claim_row(rows, record)
}

/// One record of the auction wins at a time, as a step over the rows so far.
pub open spec fn auction_step() -> spec_fn(Seq<RowView>, AuctionWonView) -> Seq<RowView> {
    |rows: Seq<RowView>, record: AuctionWonView| auction_row(rows, record)
}

/// The rows of a block: those of the tokens first, then family by family
/// those of the other events, each family in the order of its records.
pub open spec fn rows_of(events: ClankerEventsView, transfers: TokenTransfersView) -> Seq<RowView> {
    let rows = events.token_created.fold_left(Seq::<RowView>::empty(), token_step());
    let rows = events.fee_claims.fold_left(rows, fee_claim_step());
    let rows = events.extensions_triggered.fold_left(rows, extension_step());
    let rows = events.metadata_updates.fold_left(rows, metadata_update_step());
    let rows = events.verifications.fold_left(rows, verification_step());
    let rows = transfers.transfers.fold_left(rows, transfer_step());
    let rows = events.airdrop_created.fold_left(rows, airdrop_step());
    let rows = events.airdrop_claimed.fold_left(rows, airdrop_claim_step());
    events.auction_won.fold_left(rows, auction_step())
}

/// Builds the primary key of an event row.
pub fn key_of(origin: &Provenance) -> (key: String)
    ensures
        key@ == event_key(origin@),
{
    let mut key = origin.tx_hash.clone();
    key.append("-");
    key.append(u64_text(origin.log_index).as_str());
    key
}

/// Sets the columns that every row carries.
fn set_origin(row: &mut Row, origin: &Provenance)
    requires
        row_insertable(*old(row)),
    ensures
        row_columns(*final(row)) == origin_columns(row_columns(*old(row)), origin@),
        row_insertable(*final(row)),
{
    row_set(row, "tx_hash", origin.tx_hash.as_str());
    row_set(row, "block_number", u64_text(origin.block_number).as_str());
    row_set(row, "block_timestamp", u64_text(origin.block_timestamp).as_str());
    row_set(row, "log_index", u64_text(origin.log_index).as_str());
}

/// Adds one row per record of the tokens, in their order.
fn put_tokens(tables: &mut Tables, records: &Vec<TokenCreated>)
    requires
        insert_only(*old(tables)),
    ensures
        insert_only(*final(tables)),
        table_rows(*final(tables)) == views(records@).fold_left(
            table_rows(*old(tables)),
            token_step(),
        ),
{
    let ghost start = table_rows(*tables);
    let mut i: usize = 0;
    while i < records.len()
        invariant
            i <= records.len(),
            insert_only(*tables),
            table_rows(*tables) == views(records@).take(i as int).fold_left(start, token_step()),
        decreases records.len() - i,
    {
        let token = &records[i];
        proof {
            assert(views(records@).take(i + 1).drop_last() =~= views(records@).take(i as int));
        }
        let row = create_row(tables, "tokens", token.token_address.as_str());
        set_origin(row, &token.origin);
        row_set(row, "admin", token.token_admin.as_str());
        row_set(row, "name", token.token_name.as_str());
        row_set(row, "symbol", token.token_symbol.as_str());
        row_set(row, "image", token.token_image.as_str());
        row_set(row, "metadata", token.token_metadata.as_str());
        row_set(row, "context", token.token_context.as_str());
        row_set(row, "pool_id", token.pool_id.as_str());
        row_set(row, "pool_hook", token.pool_hook.as_str());
        row_set(row, "paired_token", token.paired_token.as_str());
        row_set(row, "starting_tick", i32_text(token.starting_tick).as_str());
        row_set(row, "locker", token.locker.as_str());
        row_set(row, "mev_module", token.mev_module.as_str());
        row_set(row, "extensions_supply", token.extensions_supply.as_str());
        row_set(row, "msg_sender", token.msg_sender.as_str());
        i = i + 1;
    }
    proof {
        assert(views(records@).take(i as int) =~= views(records@));
    }
}

/// Adds one row per record of the fee claims, in their order.
fn put_fee_claims(tables: &mut Tables, records: &Vec<FeeClaim>)
    requires
        insert_only(*old(tables)),
    ensures
        insert_only(*final(tables)),
        table_rows(*final(tables)) == views(records@).fold_left(
            table_rows(*old(tables)),
            fee_claim_step(),
        ),
{
    let ghost start = table_rows(*tables);
    let mut i: usize = 0;
    while i < records.len()
        invariant
            i <= records.len(),
            insert_only(*tables),
            table_rows(*tables) == views(records@).take(i as int).fold_left(start, fee_claim_step()),
        decreases records.len() - i,
    {
        let fee = &records[i];
        proof {
            assert(views(records@).take(i + 1).drop_last() =~= views(records@).take(i as int));
        }
        let key = key_of(&fee.origin);
        let row = create_row(tables, "fee_claims", key.as_str());
        set_origin(row, &fee.origin);
        row_set(row, "token", fee.token.as_str());
        row_set(row, "recipient", fee.recipient.as_str());
        row_set(row, "amount", fee.amount.as_str());
        i = i + 1;
    }
    proof {
        assert(views(records@).take(i as int) =~= views(records@));
    }
}

/// Adds one row per record of the triggered extensions, in their order.
fn put_extensions(tables: &mut Tables, records: &Vec<ExtensionTriggered>)
    requires
        insert_only(*old(tables)),
    ensures
        insert_only(*final(tables)),
        table_rows(*final(tables)) == views(records@).fold_left(
            table_rows(*old(tables)),
            extension_step(),
        ),
{
    let ghost start = table_rows(*tables);
    let mut i: usize = 0;
    while i < records.len()
        invariant
            i <= records.len(),
            insert_only(*tables),
            table_rows(*tables) == views(records@).take(i as int).fold_left(start, extension_step()),
        decreases records.len() - i,
    {
        let ext = &records[i];
        proof {
            assert(views(records@).take(i + 1).drop_last() =~= views(records@).take(i as int));
        }
        let key = key_of(&ext.origin);
        let row = create_row(tables, "extensions_triggered", key.as_str());
        set_origin(row, &ext.origin);
        row_set(row, "extension", ext.extension.as_str());
        row_set(row, "extension_supply", ext.extension_supply.as_str());
        row_set(row, "msg_value", ext.msg_value.as_str());
        i = i + 1;
    }
    proof {
        assert(views(records@).take(i as int) =~= views(records@));
    }
}

/// Adds one row per record of the metadata updates, in their order.
fn put_metadata_updates(tables: &mut Tables, records: &Vec<TokenMetadataUpdate>)
    requires
        insert_only(*old(tables)),
    ensures
        insert_only(*final(tables)),
        table_rows(*final(tables)) == views(records@).fold_left(
            table_rows(*old(tables)),
            metadata_update_step(),
        ),
{
    let ghost start = table_rows(*tables);
    let mut i: usize = 0;
    while i < records.len()
        invariant
            i <= records.len(),
            insert_only(*tables),
            table_rows(*tables) == views(records@).take(i as int).fold_left(start, metadata_update_step()),
        decreases records.len() - i,
    {
        let update = &records[i];
        proof {
            assert(views(records@).take(i + 1).drop_last() =~= views(records@).take(i as int));
        }
        let key = key_of(&update.origin);
        let row = create_row(tables, "metadata_updates", key.as_str());
        set_origin(row, &update.origin);
        row_set(row, "token_address", update.token_address.as_str());
        row_set(row, "update_type", update.update_type.as_str());
        row_set(row, "new_value", update.new_value.as_str());
        i = i + 1;
    }
    proof {
        assert(views(records@).take(i as int) =~= views(records@));
    }
}

/// Adds one row per record of the verifications, in their order.
fn put_verifications(tables: &mut Tables, records: &Vec<TokenVerified>)
    requires
        insert_only(*old(tables)),
    ensures
        insert_only(*final(tables)),
        table_rows(*final(tables)) == views(records@).fold_left(
            table_rows(*old(tables)),
            verification_step(),
        ),
{
    let ghost start = table_rows(*tables);
    let mut i: usize = 0;
    while i < records.len()
        invariant
            i <= records.len(),
            insert_only(*tables),
            table_rows(*tables) == views(records@).take(i as int).fold_left(start, verification_step()),
        decreases records.len() - i,
    {
        let verification = &records[i];
        proof {
            assert(views(records@).take(i + 1).drop_last() =~= views(records@).take(i as int));
        }
        let key = key_of(&verification.origin);
        let row = create_row(tables, "verifications", key.as_str());
        set_origin(row, &verification.origin);
        row_set(row, "token_address", verification.token_address.as_str());
        row_set(row, "admin", verification.admin.as_str());
        i = i + 1;
    }
    proof {
        assert(views(records@).take(i as int) =~= views(records@));
    }
}

/// Adds one row per record of the transfers, in their order.
fn put_transfers(tables: &mut Tables, records: &Vec<TokenTransfer>)
    requires
        insert_only(*old(tables)),
    ensures
        insert_only(*final(tables)),
        table_rows(*final(tables)) == views(records@).fold_left(
            table_rows(*old(tables)),
            transfer_step(),
        ),
{
    let ghost start = table_rows(*tables);
    let mut i: usize = 0;
    while i < records.len()
        invariant
            i <= records.len(),
            insert_only(*tables),
            table_rows(*tables) == views(records@).take(i as int).fold_left(start, transfer_step()),
        decreases records.len() - i,
    {
        let transfer = &records[i];
        proof {
            assert(views(records@).take(i + 1).drop_last() =~= views(records@).take(i as int));
        }
        let key = key_of(&transfer.origin);
        let row = create_row(tables, "transfers", key.as_str());
        set_origin(row, &transfer.origin);
        row_set(row, "token_address", transfer.token_address.as_str());
        row_set(row, "from_address", transfer.from.as_str());
        row_set(row, "to_address", transfer.to.as_str());
        row_set(row, "amount", transfer.amount.as_str());
        i = i + 1;
    }
    proof {
        assert(views(records@).take(i as int) =~= views(records@));
    }
}

/// Adds one row per record of the airdrops, in their order.
fn put_airdrops(tables: &mut Tables, records: &Vec<AirdropCreated>)
    requires
        insert_only(*old(tables)),
    ensures
        insert_only(*final(tables)),
        table_rows(*final(tables)) == views(records@).fold_left(
            table_rows(*old(tables)),
            airdrop_step(),
        ),
{
    let ghost start = table_rows(*tables);
    let mut i: usize = 0;
    while i < records.len()
        invariant
            i <= records.len(),
            insert_only(*tables),
            table_rows(*tables) == views(records@).take(i as int).fold_left(start, airdrop_step()),
        decreases records.len() - i,
    {
        let airdrop = &records[i];
        proof {
            assert(views(records@).take(i + 1).drop_last() =~= views(records@).take(i as int));
        }
        let key = key_of(&airdrop.origin);
        let row = create_row(tables, "airdrops", key.as_str());
        set_origin(row, &airdrop.origin);
        row_set(row, "token", airdrop.token.as_str());
        row_set(row, "admin", airdrop.admin.as_str());
        row_set(row, "merkle_root", airdrop.merkle_root.as_str());
        row_set(row, "supply", airdrop.supply.as_str());
        row_set(row, "lockup_duration", u64_text(airdrop.lockup_duration).as_str());
        row_set(row, "vesting_duration", u64_text(airdrop.vesting_duration).as_str());
        i = i + 1;
    }
    proof {
        assert(views(records@).take(i as int) =~= views(records@));
    }
}

/// Adds one row per record of the airdrop claims, in their order.
fn put_airdrop_claims(tables: &mut Tables, records: &Vec<AirdropClaimed>)
    requires
        insert_only(*old(tables)),
    ensures
        insert_only(*final(tables)),
        table_rows(*final(tables)) == views(records@).fold_left(
            table_rows(*old(tables)),
            airdrop_claim_step(),
        ),
{
    let ghost start = table_rows(*tables);
    let mut i: usize = 0;
    while i < records.len()
        invariant
            i <= records.len(),
            insert_only(*tables),
            table_rows(*tables) == views(records@).take(i as int).fold_left(start, airdrop_claim_step()),
        decreases records.len() - i,
    {
        let claim = &records[i];
        proof {
            assert(views(records@).take(i + 1).drop_last() =~= views(records@).take(i as int));
        }
        let key = key_of(&claim.origin);
        let row = create_row(tables, "airdrop_claims", key.as_str());
        set_origin(row, &claim.origin);
        row_set(row, "token", claim.token.as_str());
        row_set(row, "user_address", claim.user.as_str());
        row_set(row, "total_claimed", claim.total_claimed.as_str());
        row_set(row, "still_locked", claim.still_locked.as_str());
        i = i + 1;
    }
    proof {
        assert(views(records@).take(i as int) =~= views(records@));
    }
}

/// Adds one row per record of the auction wins, in their order.
fn put_auction_wins(tables: &mut Tables, records: &Vec<AuctionWon>)
    requires
        insert_only(*old(tables)),
    ensures
        insert_only(*final(tables)),
        table_rows(*final(tables)) == views(records@).fold_left(
            table_rows(*old(tables)),
            auction_step(),
        ),
{
    let ghost start = table_rows(*tables);
    let mut i: usize = 0;
    while i < records.len()
        invariant
            i <= records.len(),
            insert_only(*tables),
            table_rows(*tables) == views(records@).take(i as int).fold_left(start, auction_step()),
        decreases records.len() - i,
    {
        let auction = &records[i];
        proof {
            assert(views(records@).take(i + 1).drop_last() =~= views(records@).take(i as int));
        }
        let key = key_of(&auction.origin);
        let row = create_row(tables, "auction_wins", key.as_str());
        set_origin(row, &auction.origin);
        row_set(row, "pool_id", auction.pool_id.as_str());
        row_set(row, "winner", auction.winner.as_str());
        row_set(row, "payment_amount", auction.payment_amount.as_str());
        row_set(row, "round", u64_text(auction.round).as_str());
        i = i + 1;
    }
    proof {
        assert(views(records@).take(i as int) =~= views(records@));
    }
}

/// The rows that the records of a block are materialised into: one row per
/// record, in the family of its kind and under its primary key, every column a
/// literal copy of a field. Two records of one family with one key share a
/// row, which keeps the place of the first and the columns of the last.
pub fn db_out(events: &ClankerEvents, transfers: &TokenTransfers) -> (tables: Tables)
    ensures
        table_rows(tables) == rows_of(events@, transfers@),
{
    let mut tables = new_tables();
    put_tokens(&mut tables, &events.token_created);
    put_fee_claims(&mut tables, &events.fee_claims);
    put_extensions(&mut tables, &events.extensions_triggered);
    put_metadata_updates(&mut tables, &events.metadata_updates);
    put_verifications(&mut tables, &events.verifications);
    put_transfers(&mut tables, &transfers.transfers);
    put_airdrops(&mut tables, &events.airdrop_created);
    put_airdrop_claims(&mut tables, &events.airdrop_claimed);
    put_auction_wins(&mut tables, &events.auction_won);
    tables
}

} // verus!
