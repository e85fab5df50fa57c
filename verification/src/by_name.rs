//! Reading by the names of columns.

use crate::convert::{key_bytes, script_bytes};
use crate::error::{DbError, StoreError};
use crate::fetch::{
    ask_all, ask_one, ask_optional, row_view, rows_view, FetchAll, FetchOne, FetchOptional,
};
use crate::laws::{run_all, run_one, run_optional};
use crate::model::{
    BitcoinBlock, BitcoinBlockHash, BitcoinBlockHeight, BitcoinBlockRef, BitcoinTxId, BitcoinTxRef,
    DepositRequest, DepositSigner, DkgSharesStatus, EncryptedDkgShares, KeyRotationEvent, PublicKey,
    PublicKeyXOnly, ScriptPubKey, SignerVote, StacksBlock, SweptDepositRequest,
    SweptWithdrawalRequest, TxOutputType, TxPrevoutType, WithdrawalRequest, WithdrawalSigner,
};
use crate::procedure::{run, Database, Operation};
use crate::records::{
    DepositStatusSummary, PgCandidateUtxo, PgSignerUtxo, WithdrawalStatusSummary,
};
use crate::row::FromRow;
use crate::value::{
    ActionView, Column, ColumnKey, Datum, Fetch, Kind, PgEnum, ReplyView, StatementView,
};
use vstd::prelude::*;

verus! {

/// A row of a result, by its columns.
pub type Record = spec_fn(Column) -> Datum;

/// What a database holds: the rows that a statement gives, by the text of the
/// statement, the way its rows are fetched and its parameters.
pub type Tables = spec_fn(&'static str, Fetch, Seq<Datum>) -> Result<Seq<Record>, sqlx::Error>;

/// The column with a name.
pub open spec fn column(name: &'static str, kind: Kind) -> Column {
    Column { key: ColumnKey::Named(name), kind }
}

/// The column at a position.
pub open spec fn nth(position: usize, kind: Kind) -> Column {
    Column { key: ColumnKey::At(position), kind }
}

/// What a row holds in the given columns.
pub open spec fn picked(columns: Seq<Column>, record: Record) -> Seq<Datum> {
    columns.map_values(|column: Column| record(column))
}

/// Whether a database answers every statement with the rows of the tables, of
/// which it gives the columns that the statement reads.
pub open spec fn serves(database: Database, tables: Tables) -> bool {
    forall|statement: StatementView|
        match tables(statement.sql, statement.fetch, statement.params) {
            Ok(records) => #[trigger] database(ActionView::Run(statement)) matches Ok(reply)
                && reply.rows == records.map_values(
                |record: Record| picked(statement.columns, record),
            ),
            Err(error) => database(ActionView::Run(statement)) == Err::<ReplyView, sqlx::Error>(
                error,
            ),
        }
}

/// Whether a number is one of an `INTEGER` that is not negative.
pub open spec fn in_integer(number: int) -> bool {
    0 <= number < 0x8000_0000
}

/// Whether a number is one of a `BIGINT` that is not negative.
pub open spec fn in_bigint(number: int) -> bool {
    0 <= number < 0x8000_0000_0000_0000
}

/// A flag that may be missing.
pub open spec fn flag(flag: Option<bool>) -> Datum {
    match flag {
        Some(true) => Datum::Bool(true),
        Some(false) => Datum::Bool(false),
        None => Datum::Null,
    }
}

/// A number that may be missing.
pub open spec fn number(number: Option<i64>) -> Datum {
    match number {
        Some(number) => Datum::Int8(number as int),
        None => Datum::Null,
    }
}

/// A height that may be missing.
pub open spec fn height(height: Option<BitcoinBlockHeight>) -> Datum {
    match height {
        Some(height) => Datum::Int8(height.0 as int),
        None => Datum::Null,
    }
}

/// The hash of a block that may be missing.
pub open spec fn block_hash(hash: Option<BitcoinBlockHash>) -> Datum {
    match hash {
        Some(hash) => Datum::Bytes(hash.0@),
        None => Datum::Null,
    }
}

/// How the database calls a status.
pub open spec fn status_text(status: DkgSharesStatus) -> Seq<char> {
    match status {
        DkgSharesStatus::Unverified => "unverified"@,
        DkgSharesStatus::Verified => "verified"@,
        DkgSharesStatus::Failed => "failed"@,
    }
}

/// How the database calls a type of outputs.
pub open spec fn output_type_text(output_type: TxOutputType) -> Seq<char> {
    match output_type {
        TxOutputType::SignersOutput => "signers_output"@,
        TxOutputType::SignersOpReturn => "signers_op_return"@,
        TxOutputType::Withdrawal => "withdrawal"@,
        TxOutputType::Donation => "donation"@,
    }
}

/// How the database calls a type of spent outputs.
pub open spec fn prevout_type_text(prevout_type: TxPrevoutType) -> Seq<char> {
    match prevout_type {
        TxPrevoutType::SignersInput => "signers_input"@,
        TxPrevoutType::Deposit => "deposit"@,
    }
}

/// Data that is read from the columns with the names of its fields.
pub trait ByName: FromRow {
    /// Whether a row tells of the data: each field stands in its column.
    spec fn tells(record: Record, item: Self) -> bool;

    /// Whether the numbers in the data are ones of their columns.
    spec fn fits(item: Self) -> bool;

    /// What is read of a row is data exactly where the row tells of it.
    proof fn is_read_by_name(record: Record, item: Self)
        ensures
            Self::tells(record, item) <==> picked(Self::spec_columns(), record) == item.row(),
            Self::fits(item) <==> item.storable(),
            Self::fits(item) <==> Self::is_row(item.row()),
    ;
}

impl ByName for BitcoinBlock {
    open spec fn tells(record: Record, item: Self) -> bool {
        &&& record(column("block_hash", Kind::Bytes)) == Datum::Bytes(item.block_hash.0@)
        &&& record(column("block_height", Kind::Int8)) == Datum::Int8(item.block_height.0 as int)
        &&& record(column("parent_hash", Kind::Bytes)) == Datum::Bytes(item.parent_hash.0@)
    }

    open spec fn fits(item: Self) -> bool {
        &&& in_bigint(item.block_height.0 as int)
    }

    proof fn is_read_by_name(record: Record, item: Self) {
        let row = picked(Self::spec_columns(), record);
        assert(row[0] == record(column("block_hash", Kind::Bytes)));
        assert(row[1] == record(column("block_height", Kind::Int8)));
        assert(row[2] == record(column("parent_hash", Kind::Bytes)));
        if Self::tells(record, item) {
            assert(row =~= item.row());
        } else if row == item.row() {
            assert(item.row()[0] == Datum::Bytes(item.block_hash.0@));
            assert(item.row()[1] == Datum::Int8(item.block_height.0 as int));
            assert(item.row()[2] == Datum::Bytes(item.parent_hash.0@));
        }
    }
}

impl ByName for BitcoinBlockRef {
    open spec fn tells(record: Record, item: Self) -> bool {
        &&& record(column("block_hash", Kind::Bytes)) == Datum::Bytes(item.block_hash.0@)
        &&& record(column("block_height", Kind::Int8)) == Datum::Int8(item.block_height.0 as int)
    }

    open spec fn fits(item: Self) -> bool {
        &&& in_bigint(item.block_height.0 as int)
    }

    proof fn is_read_by_name(record: Record, item: Self) {
        let row = picked(Self::spec_columns(), record);
        assert(row[0] == record(column("block_hash", Kind::Bytes)));
        assert(row[1] == record(column("block_height", Kind::Int8)));
        if Self::tells(record, item) {
            assert(row =~= item.row());
        } else if row == item.row() {
            assert(item.row()[0] == Datum::Bytes(item.block_hash.0@));
            assert(item.row()[1] == Datum::Int8(item.block_height.0 as int));
        }
    }
}

impl ByName for StacksBlock {
    open spec fn tells(record: Record, item: Self) -> bool {
        &&& record(column("block_hash", Kind::Bytes)) == Datum::Bytes(item.block_hash.0@)
        &&& record(column("block_height", Kind::Int8)) == Datum::Int8(item.block_height.0 as int)
        &&& record(column("parent_hash", Kind::Bytes)) == Datum::Bytes(item.parent_hash.0@)
        &&& record(column("bitcoin_anchor", Kind::Bytes)) == Datum::Bytes(item.bitcoin_anchor.0@)
    }

    open spec fn fits(item: Self) -> bool {
        &&& in_bigint(item.block_height.0 as int)
    }

    proof fn is_read_by_name(record: Record, item: Self) {
        let row = picked(Self::spec_columns(), record);
        assert(row[0] == record(column("block_hash", Kind::Bytes)));
        assert(row[1] == record(column("block_height", Kind::Int8)));
        assert(row[2] == record(column("parent_hash", Kind::Bytes)));
        assert(row[3] == record(column("bitcoin_anchor", Kind::Bytes)));
        if Self::tells(record, item) {
            assert(row =~= item.row());
        } else if row == item.row() {
            assert(item.row()[0] == Datum::Bytes(item.block_hash.0@));
            assert(item.row()[1] == Datum::Int8(item.block_height.0 as int));
            assert(item.row()[2] == Datum::Bytes(item.parent_hash.0@));
            assert(item.row()[3] == Datum::Bytes(item.bitcoin_anchor.0@));
        }
    }
}

impl ByName for BitcoinTxRef {
    open spec fn tells(record: Record, item: Self) -> bool {
        &&& record(column("txid", Kind::Bytes)) == Datum::Bytes(item.txid.0@)
        &&& record(column("block_hash", Kind::Bytes)) == Datum::Bytes(item.block_hash.0@)
    }

    open spec fn fits(item: Self) -> bool {
        true
    }

    proof fn is_read_by_name(record: Record, item: Self) {
        let row = picked(Self::spec_columns(), record);
        assert(row[0] == record(column("txid", Kind::Bytes)));
        assert(row[1] == record(column("block_hash", Kind::Bytes)));
        if Self::tells(record, item) {
            assert(row =~= item.row());
        } else if row == item.row() {
            assert(item.row()[0] == Datum::Bytes(item.txid.0@));
            assert(item.row()[1] == Datum::Bytes(item.block_hash.0@));
        }
    }
}

impl ByName for DepositRequest {
    open spec fn tells(record: Record, item: Self) -> bool {
        &&& record(column("txid", Kind::Bytes)) == Datum::Bytes(item.txid.0@)
        &&& record(column("output_index", Kind::Int4)) == Datum::Int4(item.output_index as int)
        &&& record(column("spend_script", Kind::Bytes)) == Datum::Bytes(item.spend_script@)
        &&& record(column("reclaim_script", Kind::Bytes)) == Datum::Bytes(item.reclaim_script@)
        &&& record(column("recipient", Kind::Text)) == Datum::Text(item.recipient@)
        &&& record(column("amount", Kind::Int8)) == Datum::Int8(item.amount as int)
        &&& record(column("max_fee", Kind::Int8)) == Datum::Int8(item.max_fee as int)
        &&& record(column("lock_time", Kind::Int8)) == Datum::Int8(item.lock_time as int)
        &&& record(column("signers_public_key", Kind::Bytes))
            == Datum::Bytes(item.signers_public_key.0@)
        &&& record(column("sender_script_pub_keys", Kind::BytesArray))
            == Datum::BytesArray(item.sender_script_pub_keys@.map_values(|script: ScriptPubKey| script.0@))
    }

    open spec fn fits(item: Self) -> bool {
        &&& in_integer(item.output_index as int)
        &&& in_bigint(item.amount as int)
        &&& in_bigint(item.max_fee as int)
    }

    proof fn is_read_by_name(record: Record, item: Self) {
        let row = picked(Self::spec_columns(), record);
        assert(script_bytes(item.sender_script_pub_keys@)
            =~= item.sender_script_pub_keys@.map_values(
            |script: ScriptPubKey| script.0@,
        ));
        assert(row[0] == record(column("txid", Kind::Bytes)));
        assert(row[1] == record(column("output_index", Kind::Int4)));
        assert(row[2] == record(column("spend_script", Kind::Bytes)));
        assert(row[3] == record(column("reclaim_script", Kind::Bytes)));
        assert(row[4] == record(column("recipient", Kind::Text)));
        assert(row[5] == record(column("amount", Kind::Int8)));
        assert(row[6] == record(column("max_fee", Kind::Int8)));
        assert(row[7] == record(column("lock_time", Kind::Int8)));
        assert(row[8] == record(column("signers_public_key", Kind::Bytes)));
        assert(row[9] == record(column("sender_script_pub_keys", Kind::BytesArray)));
        if Self::tells(record, item) {
            assert(row =~= item.row());
        } else if row == item.row() {
            assert(item.row()[0] == Datum::Bytes(item.txid.0@));
            assert(item.row()[1] == Datum::Int4(item.output_index as int));
            assert(item.row()[2] == Datum::Bytes(item.spend_script@));
            assert(item.row()[3] == Datum::Bytes(item.reclaim_script@));
            assert(item.row()[4] == Datum::Text(item.recipient@));
            assert(item.row()[5] == Datum::Int8(item.amount as int));
            assert(item.row()[6] == Datum::Int8(item.max_fee as int));
            assert(item.row()[7] == Datum::Int8(item.lock_time as int));
            assert(item.row()[8] == Datum::Bytes(item.signers_public_key.0@));
            assert(item.row()[9]
                == Datum::BytesArray(item.sender_script_pub_keys@.map_values(|script: ScriptPubKey| script.0@)));
        }
    }
}

impl ByName for DepositSigner {
    open spec fn tells(record: Record, item: Self) -> bool {
        &&& record(column("txid", Kind::Bytes)) == Datum::Bytes(item.txid.0@)
        &&& record(column("output_index", Kind::Int4)) == Datum::Int4(item.output_index as int)
        &&& record(column("signer_pub_key", Kind::Bytes)) == Datum::Bytes(item.signer_pub_key.0@)
        &&& record(column("can_accept", Kind::Bool)) == Datum::Bool(item.can_accept)
        &&& record(column("can_sign", Kind::Bool)) == Datum::Bool(item.can_sign)
    }

    open spec fn fits(item: Self) -> bool {
        &&& in_integer(item.output_index as int)
    }

    proof fn is_read_by_name(record: Record, item: Self) {
        let row = picked(Self::spec_columns(), record);
        assert(row[0] == record(column("txid", Kind::Bytes)));
        assert(row[1] == record(column("output_index", Kind::Int4)));
        assert(row[2] == record(column("signer_pub_key", Kind::Bytes)));
        assert(row[3] == record(column("can_accept", Kind::Bool)));
        assert(row[4] == record(column("can_sign", Kind::Bool)));
        if Self::tells(record, item) {
            assert(row =~= item.row());
        } else if row == item.row() {
            assert(item.row()[0] == Datum::Bytes(item.txid.0@));
            assert(item.row()[1] == Datum::Int4(item.output_index as int));
            assert(item.row()[2] == Datum::Bytes(item.signer_pub_key.0@));
            assert(item.row()[3] == Datum::Bool(item.can_accept));
            assert(item.row()[4] == Datum::Bool(item.can_sign));
        }
    }
}

impl ByName for WithdrawalRequest {
    open spec fn tells(record: Record, item: Self) -> bool {
        &&& record(column("request_id", Kind::Int8)) == Datum::Int8(item.request_id as int)
        &&& record(column("txid", Kind::Bytes)) == Datum::Bytes(item.txid.0@)
        &&& record(column("block_hash", Kind::Bytes)) == Datum::Bytes(item.block_hash.0@)
        &&& record(column("recipient", Kind::Bytes)) == Datum::Bytes(item.recipient.0@)
        &&& record(column("amount", Kind::Int8)) == Datum::Int8(item.amount as int)
        &&& record(column("max_fee", Kind::Int8)) == Datum::Int8(item.max_fee as int)
        &&& record(column("sender_address", Kind::Text)) == Datum::Text(item.sender_address@)
        &&& record(column("bitcoin_block_height", Kind::Int8))
            == Datum::Int8(item.bitcoin_block_height.0 as int)
    }

    open spec fn fits(item: Self) -> bool {
        &&& in_bigint(item.request_id as int)
        &&& in_bigint(item.amount as int)
        &&& in_bigint(item.max_fee as int)
        &&& in_bigint(item.bitcoin_block_height.0 as int)
    }

    proof fn is_read_by_name(record: Record, item: Self) {
        let row = picked(Self::spec_columns(), record);
        assert(row[0] == record(column("request_id", Kind::Int8)));
        assert(row[1] == record(column("txid", Kind::Bytes)));
        assert(row[2] == record(column("block_hash", Kind::Bytes)));
        assert(row[3] == record(column("recipient", Kind::Bytes)));
        assert(row[4] == record(column("amount", Kind::Int8)));
        assert(row[5] == record(column("max_fee", Kind::Int8)));
        assert(row[6] == record(column("sender_address", Kind::Text)));
        assert(row[7] == record(column("bitcoin_block_height", Kind::Int8)));
        if Self::tells(record, item) {
            assert(row =~= item.row());
        } else if row == item.row() {
            assert(item.row()[0] == Datum::Int8(item.request_id as int));
            assert(item.row()[1] == Datum::Bytes(item.txid.0@));
            assert(item.row()[2] == Datum::Bytes(item.block_hash.0@));
            assert(item.row()[3] == Datum::Bytes(item.recipient.0@));
            assert(item.row()[4] == Datum::Int8(item.amount as int));
            assert(item.row()[5] == Datum::Int8(item.max_fee as int));
            assert(item.row()[6] == Datum::Text(item.sender_address@));
            assert(item.row()[7] == Datum::Int8(item.bitcoin_block_height.0 as int));
        }
    }
}

impl ByName for WithdrawalSigner {
    open spec fn tells(record: Record, item: Self) -> bool {
        &&& record(column("request_id", Kind::Int8)) == Datum::Int8(item.request_id as int)
        &&& record(column("txid", Kind::Bytes)) == Datum::Bytes(item.txid.0@)
        &&& record(column("block_hash", Kind::Bytes)) == Datum::Bytes(item.block_hash.0@)
        &&& record(column("signer_pub_key", Kind::Bytes)) == Datum::Bytes(item.signer_pub_key.0@)
        &&& record(column("is_accepted", Kind::Bool)) == Datum::Bool(item.is_accepted)
    }

    open spec fn fits(item: Self) -> bool {
        &&& in_bigint(item.request_id as int)
    }

    proof fn is_read_by_name(record: Record, item: Self) {
        let row = picked(Self::spec_columns(), record);
        assert(row[0] == record(column("request_id", Kind::Int8)));
        assert(row[1] == record(column("txid", Kind::Bytes)));
        assert(row[2] == record(column("block_hash", Kind::Bytes)));
        assert(row[3] == record(column("signer_pub_key", Kind::Bytes)));
        assert(row[4] == record(column("is_accepted", Kind::Bool)));
        if Self::tells(record, item) {
            assert(row =~= item.row());
        } else if row == item.row() {
            assert(item.row()[0] == Datum::Int8(item.request_id as int));
            assert(item.row()[1] == Datum::Bytes(item.txid.0@));
            assert(item.row()[2] == Datum::Bytes(item.block_hash.0@));
            assert(item.row()[3] == Datum::Bytes(item.signer_pub_key.0@));
            assert(item.row()[4] == Datum::Bool(item.is_accepted));
        }
    }
}

impl ByName for SignerVote {
    open spec fn tells(record: Record, item: Self) -> bool {
        &&& record(column("signer_public_key", Kind::Bytes))
            == Datum::Bytes(item.signer_public_key.0@)
        &&& record(column("is_accepted", Kind::Bool)) == flag(item.is_accepted)
    }

    open spec fn fits(item: Self) -> bool {
        true
    }

    proof fn is_read_by_name(record: Record, item: Self) {
        let row = picked(Self::spec_columns(), record);
        assert(row[0] == record(column("signer_public_key", Kind::Bytes)));
        assert(row[1] == record(column("is_accepted", Kind::Bool)));
        if Self::tells(record, item) {
            assert(row =~= item.row());
        } else if row == item.row() {
            assert(item.row()[0] == Datum::Bytes(item.signer_public_key.0@));
            assert(item.row()[1] == flag(item.is_accepted));
        }
    }
}

impl ByName for EncryptedDkgShares {
    open spec fn tells(record: Record, item: Self) -> bool {
        &&& record(column("aggregate_key", Kind::Bytes)) == Datum::Bytes(item.aggregate_key.0@)
        &&& record(column("tweaked_aggregate_key", Kind::Bytes))
            == Datum::Bytes(item.tweaked_aggregate_key.0@)
        &&& record(column("script_pubkey", Kind::Bytes)) == Datum::Bytes(item.script_pubkey.0@)
        &&& record(column("encrypted_private_shares", Kind::Bytes))
            == Datum::Bytes(item.encrypted_private_shares@)
        &&& record(column("public_shares", Kind::Bytes)) == Datum::Bytes(item.public_shares@)
        &&& record(column("signer_set_public_keys", Kind::BytesArray))
            == Datum::BytesArray(item.signer_set_public_keys@.map_values(|key: PublicKey| key.0@))
        &&& record(column("signature_share_threshold", Kind::Int4))
            == Datum::Int4(item.signature_share_threshold as int)
        &&& record(column("dkg_shares_status", Kind::Label(PgEnum::DkgSharesStatus)))
            == Datum::Label(PgEnum::DkgSharesStatus, status_text(item.dkg_shares_status))
        &&& record(column("started_at_bitcoin_block_hash", Kind::Bytes))
            == Datum::Bytes(item.started_at_bitcoin_block_hash.0@)
        &&& record(column("started_at_bitcoin_block_height", Kind::Int8))
            == Datum::Int8(item.started_at_bitcoin_block_height.0 as int)
    }

    open spec fn fits(item: Self) -> bool {
        &&& in_bigint(item.started_at_bitcoin_block_height.0 as int)
    }

    proof fn is_read_by_name(record: Record, item: Self) {
        let row = picked(Self::spec_columns(), record);
        assert(key_bytes(item.signer_set_public_keys@)
            =~= item.signer_set_public_keys@.map_values(|key: PublicKey| key.0@));
        assert(row[0] == record(column("aggregate_key", Kind::Bytes)));
        assert(row[1] == record(column("tweaked_aggregate_key", Kind::Bytes)));
        assert(row[2] == record(column("script_pubkey", Kind::Bytes)));
        assert(row[3] == record(column("encrypted_private_shares", Kind::Bytes)));
        assert(row[4] == record(column("public_shares", Kind::Bytes)));
        assert(row[5] == record(column("signer_set_public_keys", Kind::BytesArray)));
        assert(row[6] == record(column("signature_share_threshold", Kind::Int4)));
        assert(row[7] == record(column("dkg_shares_status", Kind::Label(PgEnum::DkgSharesStatus))));
        assert(row[8] == record(column("started_at_bitcoin_block_hash", Kind::Bytes)));
        assert(row[9] == record(column("started_at_bitcoin_block_height", Kind::Int8)));
        if Self::tells(record, item) {
            assert(row =~= item.row());
        } else if row == item.row() {
            assert(item.row()[0] == Datum::Bytes(item.aggregate_key.0@));
            assert(item.row()[1] == Datum::Bytes(item.tweaked_aggregate_key.0@));
            assert(item.row()[2] == Datum::Bytes(item.script_pubkey.0@));
            assert(item.row()[3] == Datum::Bytes(item.encrypted_private_shares@));
            assert(item.row()[4] == Datum::Bytes(item.public_shares@));
            assert(item.row()[5]
                == Datum::BytesArray(item.signer_set_public_keys@.map_values(|key: PublicKey| key.0@)));
            assert(item.row()[6] == Datum::Int4(item.signature_share_threshold as int));
            assert(item.row()[7]
                == Datum::Label(PgEnum::DkgSharesStatus, status_text(item.dkg_shares_status)));
            assert(item.row()[8] == Datum::Bytes(item.started_at_bitcoin_block_hash.0@));
            assert(item.row()[9] == Datum::Int8(item.started_at_bitcoin_block_height.0 as int));
        }
    }
}

impl ByName for KeyRotationEvent {
    open spec fn tells(record: Record, item: Self) -> bool {
        &&& record(column("txid", Kind::Bytes)) == Datum::Bytes(item.txid.0@)
        &&& record(column("block_hash", Kind::Bytes)) == Datum::Bytes(item.block_hash.0@)
        &&& record(column("address", Kind::Text)) == Datum::Text(item.address@)
        &&& record(column("aggregate_key", Kind::Bytes)) == Datum::Bytes(item.aggregate_key.0@)
        &&& record(column("signer_set", Kind::BytesArray))
            == Datum::BytesArray(item.signer_set@.map_values(|key: PublicKey| key.0@))
        &&& record(column("signatures_required", Kind::Int4))
            == Datum::Int4(item.signatures_required as int)
    }

    open spec fn fits(item: Self) -> bool {
        true
    }

    proof fn is_read_by_name(record: Record, item: Self) {
        let row = picked(Self::spec_columns(), record);
        assert(key_bytes(item.signer_set@)
            =~= item.signer_set@.map_values(|key: PublicKey| key.0@));
        assert(row[0] == record(column("txid", Kind::Bytes)));
        assert(row[1] == record(column("block_hash", Kind::Bytes)));
        assert(row[2] == record(column("address", Kind::Text)));
        assert(row[3] == record(column("aggregate_key", Kind::Bytes)));
        assert(row[4] == record(column("signer_set", Kind::BytesArray)));
        assert(row[5] == record(column("signatures_required", Kind::Int4)));
        if Self::tells(record, item) {
            assert(row =~= item.row());
        } else if row == item.row() {
            assert(item.row()[0] == Datum::Bytes(item.txid.0@));
            assert(item.row()[1] == Datum::Bytes(item.block_hash.0@));
            assert(item.row()[2] == Datum::Text(item.address@));
            assert(item.row()[3] == Datum::Bytes(item.aggregate_key.0@));
            assert(item.row()[4]
                == Datum::BytesArray(item.signer_set@.map_values(|key: PublicKey| key.0@)));
            assert(item.row()[5] == Datum::Int4(item.signatures_required as int));
        }
    }
}

impl ByName for SweptDepositRequest {
    open spec fn tells(record: Record, item: Self) -> bool {
        &&& record(column("sweep_txid", Kind::Bytes)) == Datum::Bytes(item.sweep_txid.0@)
        &&& record(column("sweep_block_hash", Kind::Bytes))
            == Datum::Bytes(item.sweep_block_hash.0@)
        &&& record(column("sweep_block_height", Kind::Int8))
            == Datum::Int8(item.sweep_block_height.0 as int)
        &&& record(column("txid", Kind::Bytes)) == Datum::Bytes(item.txid.0@)
        &&& record(column("output_index", Kind::Int4)) == Datum::Int4(item.output_index as int)
        &&& record(column("recipient", Kind::Text)) == Datum::Text(item.recipient@)
        &&& record(column("amount", Kind::Int8)) == Datum::Int8(item.amount as int)
        &&& record(column("max_fee", Kind::Int8)) == Datum::Int8(item.max_fee as int)
    }

    open spec fn fits(item: Self) -> bool {
        &&& in_bigint(item.sweep_block_height.0 as int)
        &&& in_integer(item.output_index as int)
        &&& in_bigint(item.amount as int)
        &&& in_bigint(item.max_fee as int)
    }

    proof fn is_read_by_name(record: Record, item: Self) {
        let row = picked(Self::spec_columns(), record);
        assert(row[0] == record(column("sweep_txid", Kind::Bytes)));
        assert(row[1] == record(column("sweep_block_hash", Kind::Bytes)));
        assert(row[2] == record(column("sweep_block_height", Kind::Int8)));
        assert(row[3] == record(column("txid", Kind::Bytes)));
        assert(row[4] == record(column("output_index", Kind::Int4)));
        assert(row[5] == record(column("recipient", Kind::Text)));
        assert(row[6] == record(column("amount", Kind::Int8)));
        assert(row[7] == record(column("max_fee", Kind::Int8)));
        if Self::tells(record, item) {
            assert(row =~= item.row());
        } else if row == item.row() {
            assert(item.row()[0] == Datum::Bytes(item.sweep_txid.0@));
            assert(item.row()[1] == Datum::Bytes(item.sweep_block_hash.0@));
            assert(item.row()[2] == Datum::Int8(item.sweep_block_height.0 as int));
            assert(item.row()[3] == Datum::Bytes(item.txid.0@));
            assert(item.row()[4] == Datum::Int4(item.output_index as int));
            assert(item.row()[5] == Datum::Text(item.recipient@));
            assert(item.row()[6] == Datum::Int8(item.amount as int));
            assert(item.row()[7] == Datum::Int8(item.max_fee as int));
        }
    }
}

impl ByName for SweptWithdrawalRequest {
    open spec fn tells(record: Record, item: Self) -> bool {
        &&& record(column("output_index", Kind::Int4)) == Datum::Int4(item.output_index as int)
        &&& record(column("sweep_txid", Kind::Bytes)) == Datum::Bytes(item.sweep_txid.0@)
        &&& record(column("sweep_block_hash", Kind::Bytes))
            == Datum::Bytes(item.sweep_block_hash.0@)
        &&& record(column("sweep_block_height", Kind::Int8))
            == Datum::Int8(item.sweep_block_height.0 as int)
        &&& record(column("request_id", Kind::Int8)) == Datum::Int8(item.request_id as int)
        &&& record(column("txid", Kind::Bytes)) == Datum::Bytes(item.txid.0@)
        &&& record(column("block_hash", Kind::Bytes)) == Datum::Bytes(item.block_hash.0@)
        &&& record(column("recipient", Kind::Bytes)) == Datum::Bytes(item.recipient.0@)
        &&& record(column("amount", Kind::Int8)) == Datum::Int8(item.amount as int)
        &&& record(column("max_fee", Kind::Int8)) == Datum::Int8(item.max_fee as int)
        &&& record(column("sender_address", Kind::Text)) == Datum::Text(item.sender_address@)
    }

    open spec fn fits(item: Self) -> bool {
        &&& in_integer(item.output_index as int)
        &&& in_bigint(item.sweep_block_height.0 as int)
        &&& in_bigint(item.request_id as int)
        &&& in_bigint(item.amount as int)
        &&& in_bigint(item.max_fee as int)
    }

    proof fn is_read_by_name(record: Record, item: Self) {
        let row = picked(Self::spec_columns(), record);
        assert(row[0] == record(column("output_index", Kind::Int4)));
        assert(row[1] == record(column("sweep_txid", Kind::Bytes)));
        assert(row[2] == record(column("sweep_block_hash", Kind::Bytes)));
        assert(row[3] == record(column("sweep_block_height", Kind::Int8)));
        assert(row[4] == record(column("request_id", Kind::Int8)));
        assert(row[5] == record(column("txid", Kind::Bytes)));
        assert(row[6] == record(column("block_hash", Kind::Bytes)));
        assert(row[7] == record(column("recipient", Kind::Bytes)));
        assert(row[8] == record(column("amount", Kind::Int8)));
        assert(row[9] == record(column("max_fee", Kind::Int8)));
        assert(row[10] == record(column("sender_address", Kind::Text)));
        if Self::tells(record, item) {
            assert(row =~= item.row());
        } else if row == item.row() {
            assert(item.row()[0] == Datum::Int4(item.output_index as int));
            assert(item.row()[1] == Datum::Bytes(item.sweep_txid.0@));
            assert(item.row()[2] == Datum::Bytes(item.sweep_block_hash.0@));
            assert(item.row()[3] == Datum::Int8(item.sweep_block_height.0 as int));
            assert(item.row()[4] == Datum::Int8(item.request_id as int));
            assert(item.row()[5] == Datum::Bytes(item.txid.0@));
            assert(item.row()[6] == Datum::Bytes(item.block_hash.0@));
            assert(item.row()[7] == Datum::Bytes(item.recipient.0@));
            assert(item.row()[8] == Datum::Int8(item.amount as int));
            assert(item.row()[9] == Datum::Int8(item.max_fee as int));
            assert(item.row()[10] == Datum::Text(item.sender_address@));
        }
    }
}

impl ByName for DepositStatusSummary {
    open spec fn tells(record: Record, item: Self) -> bool {
        &&& record(column("can_accept", Kind::Bool)) == flag(item.can_accept)
        &&& record(column("can_sign", Kind::Bool)) == flag(item.can_sign)
        &&& record(column("amount", Kind::Int8)) == Datum::Int8(item.amount as int)
        &&& record(column("max_fee", Kind::Int8)) == Datum::Int8(item.max_fee as int)
        &&& record(column("lock_time", Kind::Int8)) == Datum::Int8(item.lock_time as int)
        &&& record(column("deposit_script", Kind::Bytes)) == Datum::Bytes(item.deposit_script.0@)
        &&& record(column("reclaim_script", Kind::Bytes)) == Datum::Bytes(item.reclaim_script.0@)
        &&& record(column("signers_public_key", Kind::Bytes))
            == Datum::Bytes(item.signers_public_key.0@)
        &&& record(column("block_height", Kind::Int8)) == height(item.block_height)
        &&& record(column("block_hash", Kind::Bytes)) == block_hash(item.block_hash)
    }

    open spec fn fits(item: Self) -> bool {
        &&& in_bigint(item.amount as int)
        &&& in_bigint(item.max_fee as int)
        &&& item.block_height matches Some(number) ==> in_bigint(number.0 as int)
    }

    proof fn is_read_by_name(record: Record, item: Self) {
        let row = picked(Self::spec_columns(), record);
        assert(row[0] == record(column("can_accept", Kind::Bool)));
        assert(row[1] == record(column("can_sign", Kind::Bool)));
        assert(row[2] == record(column("amount", Kind::Int8)));
        assert(row[3] == record(column("max_fee", Kind::Int8)));
        assert(row[4] == record(column("lock_time", Kind::Int8)));
        assert(row[5] == record(column("deposit_script", Kind::Bytes)));
        assert(row[6] == record(column("reclaim_script", Kind::Bytes)));
        assert(row[7] == record(column("signers_public_key", Kind::Bytes)));
        assert(row[8] == record(column("block_height", Kind::Int8)));
        assert(row[9] == record(column("block_hash", Kind::Bytes)));
        if Self::tells(record, item) {
            assert(row =~= item.row());
        } else if row == item.row() {
            assert(item.row()[0] == flag(item.can_accept));
            assert(item.row()[1] == flag(item.can_sign));
            assert(item.row()[2] == Datum::Int8(item.amount as int));
            assert(item.row()[3] == Datum::Int8(item.max_fee as int));
            assert(item.row()[4] == Datum::Int8(item.lock_time as int));
            assert(item.row()[5] == Datum::Bytes(item.deposit_script.0@));
            assert(item.row()[6] == Datum::Bytes(item.reclaim_script.0@));
            assert(item.row()[7] == Datum::Bytes(item.signers_public_key.0@));
            assert(item.row()[8] == height(item.block_height));
            assert(item.row()[9] == block_hash(item.block_hash));
        }
    }
}

impl ByName for WithdrawalStatusSummary {
    open spec fn tells(record: Record, item: Self) -> bool {
        &&& record(column("is_accepted", Kind::Bool)) == flag(item.is_accepted)
        &&& record(column("amount", Kind::Int8)) == Datum::Int8(item.amount as int)
        &&& record(column("max_fee", Kind::Int8)) == Datum::Int8(item.max_fee as int)
        &&& record(column("recipient", Kind::Bytes)) == Datum::Bytes(item.recipient.0@)
        &&& record(column("bitcoin_block_height", Kind::Int8))
            == Datum::Int8(item.bitcoin_block_height.0 as int)
        &&& record(column("stacks_block_hash", Kind::Bytes))
            == Datum::Bytes(item.stacks_block_hash.0@)
        &&& record(column("stacks_block_height", Kind::Int8))
            == Datum::Int8(item.stacks_block_height.0 as int)
    }

    open spec fn fits(item: Self) -> bool {
        &&& in_bigint(item.amount as int)
        &&& in_bigint(item.max_fee as int)
        &&& in_bigint(item.bitcoin_block_height.0 as int)
        &&& in_bigint(item.stacks_block_height.0 as int)
    }

    proof fn is_read_by_name(record: Record, item: Self) {
        let row = picked(Self::spec_columns(), record);
        assert(row[0] == record(column("is_accepted", Kind::Bool)));
        assert(row[1] == record(column("amount", Kind::Int8)));
        assert(row[2] == record(column("max_fee", Kind::Int8)));
        assert(row[3] == record(column("recipient", Kind::Bytes)));
        assert(row[4] == record(column("bitcoin_block_height", Kind::Int8)));
        assert(row[5] == record(column("stacks_block_hash", Kind::Bytes)));
        assert(row[6] == record(column("stacks_block_height", Kind::Int8)));
        if Self::tells(record, item) {
            assert(row =~= item.row());
        } else if row == item.row() {
            assert(item.row()[0] == flag(item.is_accepted));
            assert(item.row()[1] == Datum::Int8(item.amount as int));
            assert(item.row()[2] == Datum::Int8(item.max_fee as int));
            assert(item.row()[3] == Datum::Bytes(item.recipient.0@));
            assert(item.row()[4] == Datum::Int8(item.bitcoin_block_height.0 as int));
            assert(item.row()[5] == Datum::Bytes(item.stacks_block_hash.0@));
            assert(item.row()[6] == Datum::Int8(item.stacks_block_height.0 as int));
        }
    }
}

impl ByName for PgSignerUtxo {
    open spec fn tells(record: Record, item: Self) -> bool {
        &&& record(column("txid", Kind::Bytes)) == Datum::Bytes(item.txid.0@)
        &&& record(column("output_index", Kind::Int4)) == Datum::Int4(item.output_index as int)
        &&& record(column("amount", Kind::Int8)) == Datum::Int8(item.amount as int)
        &&& record(column("aggregate_key", Kind::Bytes)) == Datum::Bytes(item.aggregate_key.0@)
    }

    open spec fn fits(item: Self) -> bool {
        &&& in_integer(item.output_index as int)
        &&& in_bigint(item.amount as int)
    }

    proof fn is_read_by_name(record: Record, item: Self) {
        let row = picked(Self::spec_columns(), record);
        assert(row[0] == record(column("txid", Kind::Bytes)));
        assert(row[1] == record(column("output_index", Kind::Int4)));
        assert(row[2] == record(column("amount", Kind::Int8)));
        assert(row[3] == record(column("aggregate_key", Kind::Bytes)));
        if Self::tells(record, item) {
            assert(row =~= item.row());
        } else if row == item.row() {
            assert(item.row()[0] == Datum::Bytes(item.txid.0@));
            assert(item.row()[1] == Datum::Int4(item.output_index as int));
            assert(item.row()[2] == Datum::Int8(item.amount as int));
            assert(item.row()[3] == Datum::Bytes(item.aggregate_key.0@));
        }
    }
}

impl ByName for PgCandidateUtxo {
    open spec fn tells(record: Record, item: Self) -> bool {
        &&& record(column("txid", Kind::Bytes)) == Datum::Bytes(item.txid.0@)
        &&& record(column("block_height", Kind::Int8)) == Datum::Int8(item.block_height.0 as int)
    }

    open spec fn fits(item: Self) -> bool {
        &&& in_bigint(item.block_height.0 as int)
    }

    proof fn is_read_by_name(record: Record, item: Self) {
        let row = picked(Self::spec_columns(), record);
        assert(row[0] == record(column("txid", Kind::Bytes)));
        assert(row[1] == record(column("block_height", Kind::Int8)));
        if Self::tells(record, item) {
            assert(row =~= item.row());
        } else if row == item.row() {
            assert(item.row()[0] == Datum::Bytes(item.txid.0@));
            assert(item.row()[1] == Datum::Int8(item.block_height.0 as int));
        }
    }
}

impl ByName for bool {
    open spec fn tells(record: Record, item: Self) -> bool {
        &&& record(nth(0, Kind::Bool)) == Datum::Bool(item)
    }

    open spec fn fits(item: Self) -> bool {
        true
    }

    proof fn is_read_by_name(record: Record, item: Self) {
        let row = picked(Self::spec_columns(), record);
        assert(row[0] == record(nth(0, Kind::Bool)));
        if Self::tells(record, item) {
            assert(row =~= item.row());
        } else if row == item.row() {
            assert(item.row()[0] == Datum::Bool(item));
        }
    }
}

impl ByName for i64 {
    open spec fn tells(record: Record, item: Self) -> bool {
        &&& record(nth(0, Kind::Int8)) == Datum::Int8(item as int)
    }

    open spec fn fits(item: Self) -> bool {
        true
    }

    proof fn is_read_by_name(record: Record, item: Self) {
        let row = picked(Self::spec_columns(), record);
        assert(row[0] == record(nth(0, Kind::Int8)));
        if Self::tells(record, item) {
            assert(row =~= item.row());
        } else if row == item.row() {
            assert(item.row()[0] == Datum::Int8(item as int));
        }
    }
}

impl ByName for Vec<u8> {
    open spec fn tells(record: Record, item: Self) -> bool {
        &&& record(nth(0, Kind::Bytes)) == Datum::Bytes(item@)
    }

    open spec fn fits(item: Self) -> bool {
        true
    }

    proof fn is_read_by_name(record: Record, item: Self) {
        let row = picked(Self::spec_columns(), record);
        assert(row[0] == record(nth(0, Kind::Bytes)));
        if Self::tells(record, item) {
            assert(row =~= item.row());
        } else if row == item.row() {
            assert(item.row()[0] == Datum::Bytes(item@));
        }
    }
}

impl ByName for BitcoinTxId {
    open spec fn tells(record: Record, item: Self) -> bool {
        &&& record(nth(0, Kind::Bytes)) == Datum::Bytes(item.0@)
    }

    open spec fn fits(item: Self) -> bool {
        true
    }

    proof fn is_read_by_name(record: Record, item: Self) {
        let row = picked(Self::spec_columns(), record);
        assert(row[0] == record(nth(0, Kind::Bytes)));
        if Self::tells(record, item) {
            assert(row =~= item.row());
        } else if row == item.row() {
            assert(item.row()[0] == Datum::Bytes(item.0@));
        }
    }
}

impl ByName for BitcoinBlockHeight {
    open spec fn tells(record: Record, item: Self) -> bool {
        &&& record(nth(0, Kind::Int8)) == Datum::Int8(item.0 as int)
    }

    open spec fn fits(item: Self) -> bool {
        in_bigint(item.0 as int)
    }

    proof fn is_read_by_name(record: Record, item: Self) {
        let row = picked(Self::spec_columns(), record);
        assert(row[0] == record(nth(0, Kind::Int8)));
        if Self::tells(record, item) {
            assert(row =~= item.row());
        } else if row == item.row() {
            assert(item.row()[0] == Datum::Int8(item.0 as int));
        }
    }
}

impl ByName for Option<BitcoinBlockHeight> {
    open spec fn tells(record: Record, item: Self) -> bool {
        &&& record(nth(0, Kind::Int8)) == height(item)
    }

    open spec fn fits(item: Self) -> bool {
        item matches Some(number) ==> in_bigint(number.0 as int)
    }

    proof fn is_read_by_name(record: Record, item: Self) {
        let row = picked(Self::spec_columns(), record);
        assert(row[0] == record(nth(0, Kind::Int8)));
        if Self::tells(record, item) {
            assert(row =~= item.row());
        } else if row == item.row() {
            assert(item.row()[0] == height(item));
        }
    }
}

impl ByName for Option<i64> {
    open spec fn tells(record: Record, item: Self) -> bool {
        &&& record(nth(0, Kind::Int8)) == number(item)
    }

    open spec fn fits(item: Self) -> bool {
        true
    }

    proof fn is_read_by_name(record: Record, item: Self) {
        let row = picked(Self::spec_columns(), record);
        assert(row[0] == record(nth(0, Kind::Int8)));
        if Self::tells(record, item) {
            assert(row =~= item.row());
        } else if row == item.row() {
            assert(item.row()[0] == number(item));
        }
    }
}

impl ByName for (bool, PublicKeyXOnly) {
    open spec fn tells(record: Record, item: Self) -> bool {
        &&& record(nth(0, Kind::Bool)) == Datum::Bool(item.0)
        &&& record(nth(1, Kind::Bytes)) == Datum::Bytes(item.1.0@)
    }

    open spec fn fits(item: Self) -> bool {
        true
    }

    proof fn is_read_by_name(record: Record, item: Self) {
        let row = picked(Self::spec_columns(), record);
        assert(row[0] == record(nth(0, Kind::Bool)));
        assert(row[1] == record(nth(1, Kind::Bytes)));
        if Self::tells(record, item) {
            assert(row =~= item.row());
        } else if row == item.row() {
            assert(item.row()[0] == Datum::Bool(item.0));
            assert(item.row()[1] == Datum::Bytes(item.1.0@));
        }
    }
}

/// Whether the given result of a query for a row that may be missing is what is
/// read of the first row that the database gives.
pub open spec fn reads_optional<T: ByName>(
    given: Result<Option<Seq<Datum>>, StoreError>,
    answer: Result<Seq<Record>, sqlx::Error>,
) -> bool {
    match answer {
        Err(error) => given == Err::<Option<Seq<Datum>>, _>(
            StoreError::SqlxQuery(DbError::Sqlx(error)),
        ),
        Ok(records) => {
            &&& records.len() == 0 ==> given is Ok
            &&& forall|item: T| #[trigger]
                T::tells(records[0], item) && T::fits(item) ==> given is Ok
            &&& forall|got: Option<T>|
                given == Ok::<_, StoreError>(#[trigger] FetchOptional::<T>::output(got)) ==> (
                match got {
                    Some(item) => records.len() > 0 && T::tells(records[0], item) && T::fits(item),
                    None => records.len() == 0,
                })
            &&& given matches Err(error) ==> error == StoreError::SqlxQuery(DbError::ColumnDecode)
        },
    }
}

/// Whether the given result of a query for a row that has to be there is what is
/// read of the first row that the database gives.
pub open spec fn reads_one<T: ByName>(
    given: Result<Seq<Datum>, StoreError>,
    answer: Result<Seq<Record>, sqlx::Error>,
) -> bool {
    match answer {
        Err(error) => given == Err::<Seq<Datum>, _>(StoreError::SqlxQuery(DbError::Sqlx(error))),
        Ok(records) => if records.len() == 0 {
            given == Err::<Seq<Datum>, _>(StoreError::SqlxQuery(DbError::RowNotFound))
        } else {
            &&& forall|item: T| #[trigger]
                T::tells(records[0], item) && T::fits(item) ==> given is Ok
            &&& forall|got: T|
                given == Ok::<_, StoreError>(#[trigger] FetchOne::<T>::output(got)) ==> T::tells(
                    records[0],
                    got,
                ) && T::fits(got)
            &&& given matches Err(error) ==> error == StoreError::SqlxQuery(DbError::ColumnDecode)
        },
    }
}

/// Whether every row of a list tells of the data at its position.
pub open spec fn all_tell<T: ByName>(records: Seq<Record>, items: Seq<T>) -> bool {
    &&& items.len() == records.len()
    &&& forall|i: int|
        0 <= i < records.len() ==> T::tells(#[trigger] records[i], items[i]) && T::fits(items[i])
}

/// Whether the given result of a query for all rows is what is read of all the
/// rows that the database gives, in their order.
pub open spec fn reads_all<T: ByName>(
    given: Result<Seq<Seq<Datum>>, StoreError>,
    answer: Result<Seq<Record>, sqlx::Error>,
) -> bool {
    match answer {
        Err(error) => given == Err::<Seq<Seq<Datum>>, _>(
            StoreError::SqlxQuery(DbError::Sqlx(error)),
        ),
        Ok(records) => {
            &&& forall|items: Seq<T>| #[trigger] all_tell(records, items) ==> given is Ok
            &&& forall|got: Vec<T>|
                given == Ok::<_, StoreError>(#[trigger] FetchAll::<T>::output(got)) ==> all_tell(
                    records,
                    got@,
                )
            &&& given matches Err(error) ==> error == StoreError::SqlxQuery(DbError::ColumnDecode)
        },
    }
}

/// A query for a row that may be missing reads the first row by the names of its
/// columns.
pub proof fn optional_row_is_read_by_name<T: ByName>(
    sql: &'static str,
    params: Seq<Datum>,
    tables: Tables,
    database: Database,
)
    requires
        serves(database, tables),
    ensures
        reads_optional::<T>(
            run::<FetchOptional<T>>(ask_optional::<T>(sql, params), database),
            tables(sql, Fetch::Optional, params),
        ),
{
    run_optional::<T>(sql, params, database);
    let columns = T::spec_columns();
    let statement = StatementView { sql, fetch: Fetch::Optional, columns, params };
    let given = run::<FetchOptional<T>>(ask_optional::<T>(sql, params), database);
    let response = database(ActionView::Run(statement));
    if let Ok(records) = tables(sql, Fetch::Optional, params) {
        assert(response is Ok);
        let rows = response->Ok_0.rows;
        assert(rows.len() == records.len());
        if records.len() > 0 {
            assert(rows[0] == picked(columns, records[0]));
        }
        assert forall|item: T| #[trigger]
            T::tells(records[0], item) && T::fits(item) implies given is Ok by {
            if records.len() > 0 {
                T::is_read_by_name(records[0], item);
                item.row_is_row();
            }
        }
        assert forall|got: Option<T>|
            given == Ok::<_, StoreError>(#[trigger] FetchOptional::<T>::output(got)) implies (
        match got {
            Some(item) => records.len() > 0 && T::tells(records[0], item) && T::fits(item),
            None => records.len() == 0,
        }) by {
            assert(FetchOptional::<T>::output(got) == row_view(got));
            if let Some(item) = got {
                T::is_read_by_name(records[0], item);
            }
        }
    }
}

/// A query for a row that has to be there reads the first row by the names of
/// its columns.
pub proof fn one_row_is_read_by_name<T: ByName>(
    sql: &'static str,
    params: Seq<Datum>,
    tables: Tables,
    database: Database,
)
    requires
        serves(database, tables),
    ensures
        reads_one::<T>(
            run::<FetchOne<T>>(ask_one::<T>(sql, params), database),
            tables(sql, Fetch::One, params),
        ),
{
    run_one::<T>(sql, params, database);
    let columns = T::spec_columns();
    let statement = StatementView { sql, fetch: Fetch::One, columns, params };
    let given = run::<FetchOne<T>>(ask_one::<T>(sql, params), database);
    let response = database(ActionView::Run(statement));
    if let Ok(records) = tables(sql, Fetch::One, params) {
        assert(response is Ok);
        let rows = response->Ok_0.rows;
        assert(rows.len() == records.len());
        if records.len() > 0 {
            assert(rows[0] == picked(columns, records[0]));
            assert forall|item: T| #[trigger]
                T::tells(records[0], item) && T::fits(item) implies given is Ok by {
                T::is_read_by_name(records[0], item);
            }
            assert forall|got: T|
                given
                    == Ok::<_, StoreError>(#[trigger] FetchOne::<T>::output(got)) implies T::tells(
                records[0],
                got,
            ) && T::fits(got) by {
                assert(FetchOne::<T>::output(got) == got.row());
                T::is_read_by_name(records[0], got);
            }
        }
    }
}

/// A query for all rows reads each of them by the names of its columns.
pub proof fn all_rows_are_read_by_name<T: ByName>(
    sql: &'static str,
    params: Seq<Datum>,
    tables: Tables,
    database: Database,
)
    requires
        serves(database, tables),
    ensures
        reads_all::<T>(
            run::<FetchAll<T>>(ask_all::<T>(sql, params), database),
            tables(sql, Fetch::All, params),
        ),
{
    run_all::<T>(sql, params, database);
    let columns = T::spec_columns();
    let statement = StatementView { sql, fetch: Fetch::All, columns, params };
    let given = run::<FetchAll<T>>(ask_all::<T>(sql, params), database);
    let response = database(ActionView::Run(statement));
    if let Ok(records) = tables(sql, Fetch::All, params) {
        assert(response is Ok);
        let rows = response->Ok_0.rows;
        assert(rows.len() == records.len());
        assert forall|items: Seq<T>| #[trigger] all_tell(records, items) implies given is Ok by {
            assert forall|i: int| 0 <= i < rows.len() implies T::is_row(#[trigger] rows[i]) by {
                assert(rows[i] == picked(columns, records[i]));
                T::is_read_by_name(records[i], items[i]);
            }
        }
        assert forall|got: Vec<T>|
            given == Ok::<_, StoreError>(#[trigger] FetchAll::<T>::output(got)) implies all_tell(
            records,
            got@,
        ) by {
            assert(FetchAll::<T>::output(got) == rows_view(got@));
            assert(rows_view(got@) == rows);
            assert(got@.len() == records.len());
            assert forall|i: int| 0 <= i < records.len() implies T::tells(
                #[trigger] records[i],
                got@[i],
            ) && T::fits(got@[i]) by {
                assert(rows[i] == picked(columns, records[i]));
                assert(rows[i] == got@[i].row());
                T::is_read_by_name(records[i], got@[i]);
            }
        }
    }
}

/// Whether a database that gives the answer knows of the data, or of none.
pub open spec fn found<T: ByName>(
    answer: Result<Seq<Record>, sqlx::Error>,
    item: Option<T>,
) -> bool {
    answer matches Ok(records) && match item {
        Some(item) => records.len() > 0 && T::tells(records[0], item) && T::fits(item),
        None => records.len() == 0,
    }
}

/// A query for a row that may be missing gives the data that the database knows
/// of.
pub proof fn found_data_is_given<T: ByName>(
    sql: &'static str,
    params: Seq<Datum>,
    item: Option<T>,
    tables: Tables,
    database: Database,
)
    requires
        serves(database, tables),
        found::<T>(tables(sql, Fetch::Optional, params), item),
    ensures
        run::<FetchOptional<T>>(ask_optional::<T>(sql, params), database) == Ok::<_, StoreError>(
            FetchOptional::<T>::output(item),
        ),
{
    run_optional::<T>(sql, params, database);
    let columns = T::spec_columns();
    let statement = StatementView { sql, fetch: Fetch::Optional, columns, params };
    let response = database(ActionView::Run(statement));
    let records = tables(sql, Fetch::Optional, params)->Ok_0;
    assert(response is Ok);
    let rows = response->Ok_0.rows;
    assert(rows.len() == records.len());
    assert(FetchOptional::<T>::output(item) == row_view(item));
    if let Some(item) = item {
        assert(rows[0] == picked(columns, records[0]));
        T::is_read_by_name(records[0], item);
    }
}

/// A query for a row that has to be there gives the data that the database knows
/// of.
pub proof fn known_data_is_given<T: ByName>(
    sql: &'static str,
    params: Seq<Datum>,
    item: T,
    tables: Tables,
    database: Database,
)
    requires
        serves(database, tables),
        found::<T>(tables(sql, Fetch::One, params), Some(item)),
    ensures
        run::<FetchOne<T>>(ask_one::<T>(sql, params), database) == Ok::<_, StoreError>(
            FetchOne::<T>::output(item),
        ),
{
    run_one::<T>(sql, params, database);
    let columns = T::spec_columns();
    let statement = StatementView { sql, fetch: Fetch::One, columns, params };
    let response = database(ActionView::Run(statement));
    let records = tables(sql, Fetch::One, params)->Ok_0;
    assert(response is Ok);
    let rows = response->Ok_0.rows;
    assert(rows.len() == records.len());
    assert(FetchOne::<T>::output(item) == item.row());
    assert(rows[0] == picked(columns, records[0]));
    T::is_read_by_name(records[0], item);
}

/// A query for all rows gives the list of data that the database knows of.
pub proof fn told_list_is_given<T: ByName>(
    sql: &'static str,
    params: Seq<Datum>,
    items: Vec<T>,
    tables: Tables,
    database: Database,
)
    requires
        serves(database, tables),
        tables(sql, Fetch::All, params) matches Ok(records) && all_tell(records, items@),
    ensures
        run::<FetchAll<T>>(ask_all::<T>(sql, params), database) == Ok::<_, StoreError>(
            FetchAll::<T>::output(items),
        ),
{
    run_all::<T>(sql, params, database);
    let columns = T::spec_columns();
    let statement = StatementView { sql, fetch: Fetch::All, columns, params };
    let response = database(ActionView::Run(statement));
    let records = tables(sql, Fetch::All, params)->Ok_0;
    assert(response is Ok);
    let rows = response->Ok_0.rows;
    assert(rows.len() == records.len());
    assert forall|i: int| 0 <= i < rows.len() implies T::is_row(#[trigger] rows[i]) && rows[i]
        == items@[i].row() by {
        assert(rows[i] == picked(columns, records[i]));
        T::is_read_by_name(records[i], items@[i]);
    }
    assert(FetchAll::<T>::output(items) == rows_view(items@));
    assert(rows_view(items@) =~= rows);
}

/// A query fails where the database does.
pub proof fn failure_is_passed_on<T: ByName>(
    sql: &'static str,
    params: Seq<Datum>,
    tables: Tables,
    database: Database,
)
    requires
        serves(database, tables),
    ensures
        tables(sql, Fetch::Optional, params) matches Err(error) ==> run::<FetchOptional<T>>(
            ask_optional::<T>(sql, params),
            database,
        ) == Err::<Option<Seq<Datum>>, _>(StoreError::SqlxQuery(DbError::Sqlx(error))),
        tables(sql, Fetch::One, params) matches Err(error) ==> run::<FetchOne<T>>(
            ask_one::<T>(sql, params),
            database,
        ) == Err::<Seq<Datum>, _>(StoreError::SqlxQuery(DbError::Sqlx(error))),
{
    optional_row_is_read_by_name::<T>(sql, params, tables, database);
    one_row_is_read_by_name::<T>(sql, params, tables, database);
}

/// Two items that a row tells of have the same content.
pub proof fn row_tells_of_one_item<T: ByName>(record: Record, a: T, b: T)
    requires
        T::tells(record, a),
        T::tells(record, b),
    ensures
        a.row() == b.row(),
{
    T::is_read_by_name(record, a);
    T::is_read_by_name(record, b);
}

} // verus!
