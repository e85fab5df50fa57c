//! What the operations that write store, by the names of the columns.

use crate::by_name::{
    column, block_hash, in_bigint, in_integer, output_type_text, prevout_type_text, ByName, Record,
};
use crate::convert::{key_bytes, script_bytes};
use crate::error::{DbError, StoreError};
use crate::fetch::Execute;
use crate::model::{
    BitcoinBlock, BitcoinTxRef, BitcoinTxSigHash, BitcoinWithdrawalOutput, CompletedDepositEvent,
    DepositRequest, DepositSigner, DkgSharesStatus, EncryptedDkgShares, KeyRotationEvent, PublicKey,
    ScriptPubKey, StacksBlock, TxOutput, TxPrevout, WithdrawalAcceptEvent, WithdrawalRejectEvent,
    WithdrawalRequest, WithdrawalSigner, WithdrawalTxOutput,
};
use crate::procedure::{run, step_view, Database, Step, StepView};
use crate::round_trip::{element, row_at, split, joined_scripts_read_back};
use crate::row::FromRow;
use crate::sql;
use crate::store::PgStore;
use crate::value::{ActionView, Datum, Kind, PgEnum};
use vstd::prelude::*;

verus! {

/// Whether a row of a table holds the values of parameters in the columns with the
/// given names.
pub open spec fn inserted(
    record: Record,
    names: Seq<&'static str>,
    params: Seq<Datum>,
) -> bool {
    &&& names.len() == params.len()
    &&& forall|i: int, kind: Kind|
        0 <= i < names.len() ==> record(#[trigger] column(names[i], kind)) == params[i]
}

/// The parameters of the statement that a step asks for.
pub open spec fn params_of(step: StepView<(), ()>) -> Seq<Datum> {
    match step {
        StepView::Ask(ActionView::Run(statement), _) => statement.params,
        _ => Seq::empty(),
    }
}

/// Whether a step asks for a statement to take effect, and ends as the database
/// says.
pub open spec fn writes(step: StepView<(), ()>, sql: &'static str, database: Database) -> bool {
    &&& step matches StepView::Ask(ActionView::Run(statement), _)
    &&& statement.sql == sql
    &&& statement.fetch is Nothing
    &&& statement.columns.len() == 0
    &&& run::<Execute>(step, database) == (match database(ActionView::Run(statement)) {
        Ok(_) => Ok(()),
        Err(error) => Err(StoreError::SqlxQuery(DbError::Sqlx(error))),
    })
}

/// Whether a step ends at once because a number does not fit into its column.
pub open spec fn is_refused(step: StepView<(), ()>) -> bool {
    step matches StepView::Done(Err(error)) && error == StoreError::ConversionDatabaseInt
}

/// The number of elements of an array.
pub open spec fn array_len(datum: Datum) -> int {
    match datum {
        Datum::BoolArray(items) => items.len() as int,
        Datum::Int4Array(items) => items.len() as int,
        Datum::Int8Array(items) => items.len() as int,
        Datum::BytesArray(items) => items.len() as int,
        Datum::TextArray(items) => items.len() as int,
        Datum::LabelArray(_, items) => items.len() as int,
        _ => -1,
    }
}

/// Whether parameters are arrays with a number of elements.
pub open spec fn are_arrays(params: Seq<Datum>, len: nat) -> bool {
    forall|i: int| 0 <= i < params.len() ==> array_len(#[trigger] params[i]) == len
}

/// Whether the numbers in all data of a list are ones of their columns.
pub open spec fn all_fit<T: ByName>(items: Seq<T>) -> bool {
    forall|j: int| 0 <= j < items.len() ==> T::fits(#[trigger] items[j])
}

/// Whether the numbers in all digests of a list are ones of their columns.
pub open spec fn all_digests_fit(items: Seq<BitcoinTxSigHash>) -> bool {
    forall|j: int| 0 <= j < items.len() ==> fits_bitcoin_tx_sig_hash(#[trigger] items[j])
}

/// Whether the numbers in all outputs of a list are ones of their columns.
pub open spec fn all_outputs_fit(items: Seq<BitcoinWithdrawalOutput>) -> bool {
    forall|j: int| 0 <= j < items.len() ==> fits_bitcoin_withdrawal_output(#[trigger] items[j])
}

/// Whether a row tells of an output.
pub open spec fn tells_tx_output(record: Record, item: TxOutput) -> bool {
    &&& record(column("txid", Kind::Bytes)) == Datum::Bytes(item.txid.0@)
    &&& record(column("output_index", Kind::Int4)) == Datum::Int4(item.output_index as int)
    &&& record(column("amount", Kind::Int8)) == Datum::Int8(item.amount as int)
    &&& record(column("script_pubkey", Kind::Bytes)) == Datum::Bytes(item.script_pubkey.0@)
    &&& record(column("output_type", Kind::Label(PgEnum::OutputType)))
        == Datum::Label(PgEnum::OutputType, output_type_text(item.output_type))
}

/// Whether the numbers in an output are ones of their columns.
pub open spec fn fits_tx_output(item: TxOutput) -> bool {
    &&& in_integer(item.output_index as int)
    &&& in_bigint(item.amount as int)
}

/// Whether a row tells of a spent output.
pub open spec fn tells_tx_prevout(record: Record, item: TxPrevout) -> bool {
    &&& record(column("txid", Kind::Bytes)) == Datum::Bytes(item.txid.0@)
    &&& record(column("prevout_txid", Kind::Bytes)) == Datum::Bytes(item.prevout_txid.0@)
    &&& record(column("prevout_output_index", Kind::Int4))
        == Datum::Int4(item.prevout_output_index as int)
    &&& record(column("amount", Kind::Int8)) == Datum::Int8(item.amount as int)
    &&& record(column("script_pubkey", Kind::Bytes)) == Datum::Bytes(item.script_pubkey.0@)
    &&& record(column("prevout_type", Kind::Label(PgEnum::PrevoutType)))
        == Datum::Label(PgEnum::PrevoutType, prevout_type_text(item.prevout_type))
}

/// Whether the numbers in a spent output are ones of their columns.
pub open spec fn fits_tx_prevout(item: TxPrevout) -> bool {
    &&& in_integer(item.prevout_output_index as int)
    &&& in_bigint(item.amount as int)
}

/// Whether a row tells of the completion of a deposit.
pub open spec fn tells_completed_deposit_event(
    record: Record,
    item: CompletedDepositEvent,
) -> bool {
    &&& record(column("txid", Kind::Bytes)) == Datum::Bytes(item.txid.0@)
    &&& record(column("block_hash", Kind::Bytes)) == Datum::Bytes(item.block_id.0@)
    &&& record(column("amount", Kind::Int8)) == Datum::Int8(item.amount as int)
    &&& record(column("bitcoin_txid", Kind::Bytes)) == Datum::Bytes(item.outpoint.txid.0@)
    &&& record(column("output_index", Kind::Int8)) == Datum::Int8(item.outpoint.vout as int)
    &&& record(column("sweep_block_hash", Kind::Bytes)) == Datum::Bytes(item.sweep_block_hash.0@)
    &&& record(column("sweep_block_height", Kind::Int8))
        == Datum::Int8(item.sweep_block_height.0 as int)
    &&& record(column("sweep_txid", Kind::Bytes)) == Datum::Bytes(item.sweep_txid.0@)
}

/// Whether the numbers in the completion of a deposit are ones of their columns.
pub open spec fn fits_completed_deposit_event(item: CompletedDepositEvent) -> bool {
    &&& in_bigint(item.amount as int)
    &&& in_bigint(item.sweep_block_height.0 as int)
}

/// Whether a row tells of the payment of a withdrawal.
pub open spec fn tells_withdrawal_accept_event(
    record: Record,
    item: WithdrawalAcceptEvent,
) -> bool {
    &&& record(column("txid", Kind::Bytes)) == Datum::Bytes(item.txid.0@)
    &&& record(column("block_hash", Kind::Bytes)) == Datum::Bytes(item.block_id.0@)
    &&& record(column("request_id", Kind::Int8)) == Datum::Int8(item.request_id as int)
    &&& record(column("signer_bitmap", Kind::Bytes)) == Datum::Bytes(item.signer_bitmap@)
    &&& record(column("bitcoin_txid", Kind::Bytes)) == Datum::Bytes(item.outpoint.txid.0@)
    &&& record(column("output_index", Kind::Int8)) == Datum::Int8(item.outpoint.vout as int)
    &&& record(column("fee", Kind::Int8)) == Datum::Int8(item.fee as int)
    &&& record(column("sweep_block_hash", Kind::Bytes)) == Datum::Bytes(item.sweep_block_hash.0@)
    &&& record(column("sweep_block_height", Kind::Int8))
        == Datum::Int8(item.sweep_block_height.0 as int)
    &&& record(column("sweep_txid", Kind::Bytes)) == Datum::Bytes(item.sweep_txid.0@)
}

/// Whether the numbers in the payment of a withdrawal are ones of their columns.
pub open spec fn fits_withdrawal_accept_event(item: WithdrawalAcceptEvent) -> bool {
    &&& in_bigint(item.request_id as int)
    &&& in_bigint(item.fee as int)
    &&& in_bigint(item.sweep_block_height.0 as int)
}

/// Whether a row tells of the rejection of a withdrawal.
pub open spec fn tells_withdrawal_reject_event(
    record: Record,
    item: WithdrawalRejectEvent,
) -> bool {
    &&& record(column("txid", Kind::Bytes)) == Datum::Bytes(item.txid.0@)
    &&& record(column("block_hash", Kind::Bytes)) == Datum::Bytes(item.block_id.0@)
    &&& record(column("request_id", Kind::Int8)) == Datum::Int8(item.request_id as int)
    &&& record(column("signer_bitmap", Kind::Bytes)) == Datum::Bytes(item.signer_bitmap@)
}

/// Whether the numbers in the rejection of a withdrawal are ones of their columns.
pub open spec fn fits_withdrawal_reject_event(item: WithdrawalRejectEvent) -> bool {
    &&& in_bigint(item.request_id as int)
}

/// Whether a row tells of an output that pays a withdrawal.
pub open spec fn tells_withdrawal_tx_output(record: Record, item: WithdrawalTxOutput) -> bool {
    &&& record(column("txid", Kind::Bytes)) == Datum::Bytes(item.txid.0@)
    &&& record(column("output_index", Kind::Int4)) == Datum::Int4(item.output_index as int)
    &&& record(column("request_id", Kind::Int8)) == Datum::Int8(item.request_id as int)
}

/// Whether the numbers in an output that pays a withdrawal are ones of their
/// columns.
pub open spec fn fits_withdrawal_tx_output(item: WithdrawalTxOutput) -> bool {
    &&& in_integer(item.output_index as int)
    &&& in_bigint(item.request_id as int)
}

/// Whether a row tells of a digest.
pub open spec fn tells_bitcoin_tx_sig_hash(record: Record, item: BitcoinTxSigHash) -> bool {
    &&& record(column("txid", Kind::Bytes)) == Datum::Bytes(item.txid.0@)
    &&& record(column("chain_tip", Kind::Bytes)) == Datum::Bytes(item.chain_tip.0@)
    &&& record(column("prevout_txid", Kind::Bytes)) == Datum::Bytes(item.prevout_txid.0@)
    &&& record(column("prevout_output_index", Kind::Int4))
        == Datum::Int4(item.prevout_output_index as int)
    &&& record(column("sighash", Kind::Bytes)) == Datum::Bytes(item.sighash.0@)
    &&& record(column("prevout_type", Kind::Label(PgEnum::PrevoutType)))
        == Datum::Label(PgEnum::PrevoutType, prevout_type_text(item.prevout_type))
    &&& record(column("validation_result", Kind::Text)) == Datum::Text(item.validation_result@)
    &&& record(column("is_valid_tx", Kind::Bool)) == Datum::Bool(item.is_valid_tx)
    &&& record(column("will_sign", Kind::Bool)) == Datum::Bool(item.will_sign)
    &&& record(column("x_only_public_key", Kind::Bytes)) == Datum::Bytes(item.aggregate_key.0@)
}

/// Whether the numbers in a digest are ones of their columns.
pub open spec fn fits_bitcoin_tx_sig_hash(item: BitcoinTxSigHash) -> bool {
    &&& in_integer(item.prevout_output_index as int)
}

/// Whether a row tells of an output of a proposed transaction.
pub open spec fn tells_bitcoin_withdrawal_output(
    record: Record,
    item: BitcoinWithdrawalOutput,
) -> bool {
    &&& record(column("bitcoin_txid", Kind::Bytes)) == Datum::Bytes(item.bitcoin_txid.0@)
    &&& record(column("bitcoin_chain_tip", Kind::Bytes)) == Datum::Bytes(item.bitcoin_chain_tip.0@)
    &&& record(column("output_index", Kind::Int4)) == Datum::Int4(item.output_index as int)
    &&& record(column("request_id", Kind::Int8)) == Datum::Int8(item.request_id as int)
    &&& record(column("stacks_txid", Kind::Bytes)) == Datum::Bytes(item.stacks_txid.0@)
    &&& record(column("stacks_block_hash", Kind::Bytes)) == Datum::Bytes(item.stacks_block_hash.0@)
    &&& record(column("validation_result", Kind::Text)) == Datum::Text(item.validation_result@)
    &&& record(column("is_valid_tx", Kind::Bool)) == Datum::Bool(item.is_valid_tx)
}

/// Whether the numbers in an output of a proposed transaction are ones of their
/// columns.
pub open spec fn fits_bitcoin_withdrawal_output(item: BitcoinWithdrawalOutput) -> bool {
    &&& in_integer(item.output_index as int)
    &&& in_bigint(item.request_id as int)
}

/// A bitcoin block is stored under the names of its columns: the row that holds
/// the parameters in the columns of the statement tells of it. It is refused
/// exactly where a number does not fit.
pub proof fn written_bitcoin_block<P>(
    store: PgStore<P>,
    block: BitcoinBlock,
    step: Step<Execute, ()>,
    record: Record,
    database: Database,
)
    requires
        call_ensures(PgStore::<P>::write_bitcoin_block, (&store, &block), step),
    ensures
        BitcoinBlock::fits(block) ==> writes(step_view(step), sql::WRITE_BITCOIN_BLOCK, database),
        BitcoinBlock::fits(block) && inserted(
            record,
            seq![
                "block_hash",
                "block_height",
                "parent_hash",
            ],
            params_of(step_view(step)),
        ) ==> BitcoinBlock::tells(record, block),
        !BitcoinBlock::fits(block) ==> is_refused(step_view(step)),
{
    reveal_with_fuel(run, 2);
    let params = params_of(step_view(step));
    let names: Seq<&'static str> = seq![
        "block_hash",
        "block_height",
        "parent_hash",
    ];
    if BitcoinBlock::fits(block) && inserted(record, names, params) {
        assert(names[0] == "block_hash");
        assert(record(column(names[0], Kind::Bytes)) == params[0]);
        assert(names[1] == "block_height");
        assert(record(column(names[1], Kind::Int8)) == params[1]);
        assert(names[2] == "parent_hash");
        assert(record(column(names[2], Kind::Bytes)) == params[2]);
    }
}

/// A stacks block is stored under the names of its columns: the row that holds
/// the parameters in the columns of the statement tells of it. It is refused
/// exactly where a number does not fit.
pub proof fn written_stacks_block<P>(
    store: PgStore<P>,
    block: StacksBlock,
    step: Step<Execute, ()>,
    record: Record,
    database: Database,
)
    requires
        call_ensures(PgStore::<P>::write_stacks_block, (&store, &block), step),
    ensures
        StacksBlock::fits(block) ==> writes(step_view(step), sql::WRITE_STACKS_BLOCK, database),
        StacksBlock::fits(block) && inserted(
            record,
            seq![
                "block_hash",
                "block_height",
                "parent_hash",
                "bitcoin_anchor",
            ],
            params_of(step_view(step)),
        ) ==> StacksBlock::tells(record, block),
        !StacksBlock::fits(block) ==> is_refused(step_view(step)),
{
    reveal_with_fuel(run, 2);
    let params = params_of(step_view(step));
    let names: Seq<&'static str> = seq![
        "block_hash",
        "block_height",
        "parent_hash",
        "bitcoin_anchor",
    ];
    if StacksBlock::fits(block) && inserted(record, names, params) {
        assert(names[0] == "block_hash");
        assert(record(column(names[0], Kind::Bytes)) == params[0]);
        assert(names[1] == "block_height");
        assert(record(column(names[1], Kind::Int8)) == params[1]);
        assert(names[2] == "parent_hash");
        assert(record(column(names[2], Kind::Bytes)) == params[2]);
        assert(names[3] == "bitcoin_anchor");
        assert(record(column(names[3], Kind::Bytes)) == params[3]);
    }
}

/// A bitcoin transaction is stored under the names of its columns: the row that
/// holds the parameters in the columns of the statement tells of it. It is
/// refused exactly where a number does not fit.
pub proof fn written_bitcoin_transaction<P>(
    store: PgStore<P>,
    tx_ref: BitcoinTxRef,
    step: Step<Execute, ()>,
    record: Record,
    database: Database,
)
    requires
        call_ensures(PgStore::<P>::write_bitcoin_transaction, (&store, &tx_ref), step),
    ensures
        BitcoinTxRef::fits(tx_ref)
            ==> writes(step_view(step), sql::WRITE_BITCOIN_TRANSACTION, database),
        BitcoinTxRef::fits(tx_ref) && inserted(
            record,
            seq![
                "txid",
                "block_hash",
            ],
            params_of(step_view(step)),
        ) ==> BitcoinTxRef::tells(record, tx_ref),
        !BitcoinTxRef::fits(tx_ref) ==> is_refused(step_view(step)),
{
    reveal_with_fuel(run, 2);
    let params = params_of(step_view(step));
    let names: Seq<&'static str> = seq![
        "txid",
        "block_hash",
    ];
    if BitcoinTxRef::fits(tx_ref) && inserted(record, names, params) {
        assert(names[0] == "txid");
        assert(record(column(names[0], Kind::Bytes)) == params[0]);
        assert(names[1] == "block_hash");
        assert(record(column(names[1], Kind::Bytes)) == params[1]);
    }
}

/// The outcome of a key generation is stored under the names of its columns: the
/// row that holds the parameters in the columns of the statement tells of it. It
/// is refused exactly where a number does not fit.
pub proof fn written_shares<P>(
    store: PgStore<P>,
    shares: EncryptedDkgShares,
    step: Step<Execute, ()>,
    record: Record,
    database: Database,
)
    requires
        call_ensures(PgStore::<P>::write_encrypted_dkg_shares, (&store, &shares), step),
    ensures
        EncryptedDkgShares::fits(shares)
            ==> writes(step_view(step), sql::WRITE_ENCRYPTED_DKG_SHARES, database),
        EncryptedDkgShares::fits(shares) && inserted(
            record,
            seq![
                "aggregate_key",
                "tweaked_aggregate_key",
                "encrypted_private_shares",
                "public_shares",
                "script_pubkey",
                "signer_set_public_keys",
                "signature_share_threshold",
                "dkg_shares_status",
                "started_at_bitcoin_block_hash",
                "started_at_bitcoin_block_height",
            ],
            params_of(step_view(step)),
        ) ==> EncryptedDkgShares::tells(record, shares),
        !EncryptedDkgShares::fits(shares) ==> is_refused(step_view(step)),
{
    reveal_with_fuel(run, 2);
    let params = params_of(step_view(step));
    let names: Seq<&'static str> = seq![
        "aggregate_key",
        "tweaked_aggregate_key",
        "encrypted_private_shares",
        "public_shares",
        "script_pubkey",
        "signer_set_public_keys",
        "signature_share_threshold",
        "dkg_shares_status",
        "started_at_bitcoin_block_hash",
        "started_at_bitcoin_block_height",
    ];
    if EncryptedDkgShares::fits(shares) && inserted(record, names, params) {
        assert(names[0] == "aggregate_key");
        assert(record(column(names[0], Kind::Bytes)) == params[0]);
        assert(names[1] == "tweaked_aggregate_key");
        assert(record(column(names[1], Kind::Bytes)) == params[1]);
        assert(names[2] == "encrypted_private_shares");
        assert(record(column(names[2], Kind::Bytes)) == params[2]);
        assert(names[3] == "public_shares");
        assert(record(column(names[3], Kind::Bytes)) == params[3]);
        assert(names[4] == "script_pubkey");
        assert(record(column(names[4], Kind::Bytes)) == params[4]);
        assert(names[5] == "signer_set_public_keys");
        assert(record(column(names[5], Kind::BytesArray)) == params[5]);
        assert(names[6] == "signature_share_threshold");
        assert(record(column(names[6], Kind::Int4)) == params[6]);
        assert(names[7] == "dkg_shares_status");
        assert(record(column(names[7], Kind::Label(PgEnum::DkgSharesStatus))) == params[7]);
        assert(names[8] == "started_at_bitcoin_block_hash");
        assert(record(column(names[8], Kind::Bytes)) == params[8]);
        assert(names[9] == "started_at_bitcoin_block_height");
        assert(record(column(names[9], Kind::Int8)) == params[9]);
        assert(key_bytes(shares.signer_set_public_keys@)
            =~= shares.signer_set_public_keys@.map_values(|key: PublicKey| key.0@));
    }
}

/// A key rotation is stored under the names of its columns: the row that holds
/// the parameters in the columns of the statement tells of it. It is refused
/// exactly where a number does not fit.
pub proof fn written_key_rotation<P>(
    store: PgStore<P>,
    key_rotation: KeyRotationEvent,
    step: Step<Execute, ()>,
    record: Record,
    database: Database,
)
    requires
        call_ensures(PgStore::<P>::write_rotate_keys_transaction, (&store, &key_rotation), step),
    ensures
        KeyRotationEvent::fits(key_rotation)
            ==> writes(step_view(step), sql::WRITE_ROTATE_KEYS_TRANSACTION, database),
        KeyRotationEvent::fits(key_rotation) && inserted(
            record,
            seq![
                "txid",
                "block_hash",
                "address",
                "aggregate_key",
                "signer_set",
                "signatures_required",
            ],
            params_of(step_view(step)),
        ) ==> KeyRotationEvent::tells(record, key_rotation),
        !KeyRotationEvent::fits(key_rotation) ==> is_refused(step_view(step)),
{
    reveal_with_fuel(run, 2);
    let params = params_of(step_view(step));
    let names: Seq<&'static str> = seq![
        "txid",
        "block_hash",
        "address",
        "aggregate_key",
        "signer_set",
        "signatures_required",
    ];
    if KeyRotationEvent::fits(key_rotation) && inserted(record, names, params) {
        assert(names[0] == "txid");
        assert(record(column(names[0], Kind::Bytes)) == params[0]);
        assert(names[1] == "block_hash");
        assert(record(column(names[1], Kind::Bytes)) == params[1]);
        assert(names[2] == "address");
        assert(record(column(names[2], Kind::Text)) == params[2]);
        assert(names[3] == "aggregate_key");
        assert(record(column(names[3], Kind::Bytes)) == params[3]);
        assert(names[4] == "signer_set");
        assert(record(column(names[4], Kind::BytesArray)) == params[4]);
        assert(names[5] == "signatures_required");
        assert(record(column(names[5], Kind::Int4)) == params[5]);
        assert(key_bytes(key_rotation.signer_set@)
            =~= key_rotation.signer_set@.map_values(|key: PublicKey| key.0@));
    }
}

/// An output is stored under the names of its columns: the row that holds
/// the parameters in the columns of the statement tells of it. It is refused
/// exactly where a number does not fit.
pub proof fn written_output<P>(
    store: PgStore<P>,
    output: TxOutput,
    step: Step<Execute, ()>,
    record: Record,
    database: Database,
)
    requires
        call_ensures(PgStore::<P>::write_tx_output, (&store, &output), step),
    ensures
        fits_tx_output(output) ==> writes(step_view(step), sql::WRITE_TX_OUTPUT, database),
        fits_tx_output(output) && inserted(
            record,
            seq![
                "txid",
                "output_index",
                "amount",
                "script_pubkey",
                "output_type",
            ],
            params_of(step_view(step)),
        ) ==> tells_tx_output(record, output),
        !fits_tx_output(output) ==> is_refused(step_view(step)),
{
    reveal_with_fuel(run, 2);
    let params = params_of(step_view(step));
    let names: Seq<&'static str> = seq![
        "txid",
        "output_index",
        "amount",
        "script_pubkey",
        "output_type",
    ];
    if fits_tx_output(output) && inserted(record, names, params) {
        assert(names[0] == "txid");
        assert(record(column(names[0], Kind::Bytes)) == params[0]);
        assert(names[1] == "output_index");
        assert(record(column(names[1], Kind::Int4)) == params[1]);
        assert(names[2] == "amount");
        assert(record(column(names[2], Kind::Int8)) == params[2]);
        assert(names[3] == "script_pubkey");
        assert(record(column(names[3], Kind::Bytes)) == params[3]);
        assert(names[4] == "output_type");
        assert(record(column(names[4], Kind::Label(PgEnum::OutputType))) == params[4]);
    }
}

/// A spent output is stored under the names of its columns: the row that holds
/// the parameters in the columns of the statement tells of it. It is refused
/// exactly where a number does not fit.
pub proof fn written_spent_output<P>(
    store: PgStore<P>,
    prevout: TxPrevout,
    step: Step<Execute, ()>,
    record: Record,
    database: Database,
)
    requires
        call_ensures(PgStore::<P>::write_tx_prevout, (&store, &prevout), step),
    ensures
        fits_tx_prevout(prevout) ==> writes(step_view(step), sql::WRITE_TX_PREVOUT, database),
        fits_tx_prevout(prevout) && inserted(
            record,
            seq![
                "txid",
                "prevout_txid",
                "prevout_output_index",
                "amount",
                "script_pubkey",
                "prevout_type",
            ],
            params_of(step_view(step)),
        ) ==> tells_tx_prevout(record, prevout),
        !fits_tx_prevout(prevout) ==> is_refused(step_view(step)),
{
    reveal_with_fuel(run, 2);
    let params = params_of(step_view(step));
    let names: Seq<&'static str> = seq![
        "txid",
        "prevout_txid",
        "prevout_output_index",
        "amount",
        "script_pubkey",
        "prevout_type",
    ];
    if fits_tx_prevout(prevout) && inserted(record, names, params) {
        assert(names[0] == "txid");
        assert(record(column(names[0], Kind::Bytes)) == params[0]);
        assert(names[1] == "prevout_txid");
        assert(record(column(names[1], Kind::Bytes)) == params[1]);
        assert(names[2] == "prevout_output_index");
        assert(record(column(names[2], Kind::Int4)) == params[2]);
        assert(names[3] == "amount");
        assert(record(column(names[3], Kind::Int8)) == params[3]);
        assert(names[4] == "script_pubkey");
        assert(record(column(names[4], Kind::Bytes)) == params[4]);
        assert(names[5] == "prevout_type");
        assert(record(column(names[5], Kind::Label(PgEnum::PrevoutType))) == params[5]);
    }
}

/// A deposit request is stored under the names of its columns: the row that holds
/// the parameters in the columns of the statement tells of it. It is refused
/// exactly where a number does not fit.
pub proof fn written_deposit_request<P>(
    store: PgStore<P>,
    deposit_request: DepositRequest,
    step: Step<Execute, ()>,
    record: Record,
    database: Database,
)
    requires
        call_ensures(PgStore::<P>::write_deposit_request, (&store, &deposit_request), step),
    ensures
        DepositRequest::fits(deposit_request)
            ==> writes(step_view(step), sql::WRITE_DEPOSIT_REQUEST, database),
        DepositRequest::fits(deposit_request) && inserted(
            record,
            seq![
                "txid",
                "output_index",
                "spend_script",
                "reclaim_script",
                "recipient",
                "amount",
                "max_fee",
                "lock_time",
                "signers_public_key",
                "sender_script_pub_keys",
            ],
            params_of(step_view(step)),
        ) ==> DepositRequest::tells(record, deposit_request),
        !DepositRequest::fits(deposit_request) ==> is_refused(step_view(step)),
{
    reveal_with_fuel(run, 2);
    let params = params_of(step_view(step));
    let names: Seq<&'static str> = seq![
        "txid",
        "output_index",
        "spend_script",
        "reclaim_script",
        "recipient",
        "amount",
        "max_fee",
        "lock_time",
        "signers_public_key",
        "sender_script_pub_keys",
    ];
    if DepositRequest::fits(deposit_request) && inserted(record, names, params) {
        assert(names[0] == "txid");
        assert(record(column(names[0], Kind::Bytes)) == params[0]);
        assert(names[1] == "output_index");
        assert(record(column(names[1], Kind::Int4)) == params[1]);
        assert(names[2] == "spend_script");
        assert(record(column(names[2], Kind::Bytes)) == params[2]);
        assert(names[3] == "reclaim_script");
        assert(record(column(names[3], Kind::Bytes)) == params[3]);
        assert(names[4] == "recipient");
        assert(record(column(names[4], Kind::Text)) == params[4]);
        assert(names[5] == "amount");
        assert(record(column(names[5], Kind::Int8)) == params[5]);
        assert(names[6] == "max_fee");
        assert(record(column(names[6], Kind::Int8)) == params[6]);
        assert(names[7] == "lock_time");
        assert(record(column(names[7], Kind::Int8)) == params[7]);
        assert(names[8] == "signers_public_key");
        assert(record(column(names[8], Kind::Bytes)) == params[8]);
        assert(names[9] == "sender_script_pub_keys");
        assert(record(column(names[9], Kind::BytesArray)) == params[9]);
        assert(script_bytes(deposit_request.sender_script_pub_keys@)
            =~= deposit_request.sender_script_pub_keys@.map_values(
            |script: ScriptPubKey| script.0@,
        ));
    }
}

/// A decision on a deposit request is stored under the names of its columns: the
/// row that holds the parameters in the columns of the statement tells of it. It
/// is refused exactly where a number does not fit.
pub proof fn written_deposit_decision<P>(
    store: PgStore<P>,
    decision: DepositSigner,
    step: Step<Execute, ()>,
    record: Record,
    database: Database,
)
    requires
        call_ensures(PgStore::<P>::write_deposit_signer_decision, (&store, &decision), step),
    ensures
        DepositSigner::fits(decision)
            ==> writes(step_view(step), sql::WRITE_DEPOSIT_SIGNER_DECISION, database),
        DepositSigner::fits(decision) && inserted(
            record,
            seq![
                "txid",
                "output_index",
                "signer_pub_key",
                "can_accept",
                "can_sign",
            ],
            params_of(step_view(step)),
        ) ==> DepositSigner::tells(record, decision),
        !DepositSigner::fits(decision) ==> is_refused(step_view(step)),
{
    reveal_with_fuel(run, 2);
    let params = params_of(step_view(step));
    let names: Seq<&'static str> = seq![
        "txid",
        "output_index",
        "signer_pub_key",
        "can_accept",
        "can_sign",
    ];
    if DepositSigner::fits(decision) && inserted(record, names, params) {
        assert(names[0] == "txid");
        assert(record(column(names[0], Kind::Bytes)) == params[0]);
        assert(names[1] == "output_index");
        assert(record(column(names[1], Kind::Int4)) == params[1]);
        assert(names[2] == "signer_pub_key");
        assert(record(column(names[2], Kind::Bytes)) == params[2]);
        assert(names[3] == "can_accept");
        assert(record(column(names[3], Kind::Bool)) == params[3]);
        assert(names[4] == "can_sign");
        assert(record(column(names[4], Kind::Bool)) == params[4]);
    }
}

/// The completion of a deposit is stored under the names of its columns: the row
/// that holds the parameters in the columns of the statement tells of it. It is
/// refused exactly where a number does not fit.
pub proof fn written_completed_deposit<P>(
    store: PgStore<P>,
    event: CompletedDepositEvent,
    step: Step<Execute, ()>,
    record: Record,
    database: Database,
)
    requires
        call_ensures(PgStore::<P>::write_completed_deposit_event, (&store, &event), step),
    ensures
        fits_completed_deposit_event(event)
            ==> writes(step_view(step), sql::WRITE_COMPLETED_DEPOSIT_EVENT, database),
        fits_completed_deposit_event(event) && inserted(
            record,
            seq![
                "txid",
                "block_hash",
                "amount",
                "bitcoin_txid",
                "output_index",
                "sweep_block_hash",
                "sweep_block_height",
                "sweep_txid",
            ],
            params_of(step_view(step)),
        ) ==> tells_completed_deposit_event(record, event),
        !fits_completed_deposit_event(event) ==> is_refused(step_view(step)),
{
    reveal_with_fuel(run, 2);
    let params = params_of(step_view(step));
    let names: Seq<&'static str> = seq![
        "txid",
        "block_hash",
        "amount",
        "bitcoin_txid",
        "output_index",
        "sweep_block_hash",
        "sweep_block_height",
        "sweep_txid",
    ];
    if fits_completed_deposit_event(event) && inserted(record, names, params) {
        assert(names[0] == "txid");
        assert(record(column(names[0], Kind::Bytes)) == params[0]);
        assert(names[1] == "block_hash");
        assert(record(column(names[1], Kind::Bytes)) == params[1]);
        assert(names[2] == "amount");
        assert(record(column(names[2], Kind::Int8)) == params[2]);
        assert(names[3] == "bitcoin_txid");
        assert(record(column(names[3], Kind::Bytes)) == params[3]);
        assert(names[4] == "output_index");
        assert(record(column(names[4], Kind::Int8)) == params[4]);
        assert(names[5] == "sweep_block_hash");
        assert(record(column(names[5], Kind::Bytes)) == params[5]);
        assert(names[6] == "sweep_block_height");
        assert(record(column(names[6], Kind::Int8)) == params[6]);
        assert(names[7] == "sweep_txid");
        assert(record(column(names[7], Kind::Bytes)) == params[7]);
    }
}

/// A withdrawal request is stored under the names of its columns: the row that
/// holds the parameters in the columns of the statement tells of it. It is
/// refused exactly where a number does not fit.
pub proof fn written_withdrawal_request<P>(
    store: PgStore<P>,
    request: WithdrawalRequest,
    step: Step<Execute, ()>,
    record: Record,
    database: Database,
)
    requires
        call_ensures(PgStore::<P>::write_withdrawal_request, (&store, &request), step),
    ensures
        WithdrawalRequest::fits(request)
            ==> writes(step_view(step), sql::WRITE_WITHDRAWAL_REQUEST, database),
        WithdrawalRequest::fits(request) && inserted(
            record,
            seq![
                "request_id",
                "txid",
                "block_hash",
                "recipient",
                "amount",
                "max_fee",
                "sender_address",
                "bitcoin_block_height",
            ],
            params_of(step_view(step)),
        ) ==> WithdrawalRequest::tells(record, request),
        !WithdrawalRequest::fits(request) ==> is_refused(step_view(step)),
{
    reveal_with_fuel(run, 2);
    let params = params_of(step_view(step));
    let names: Seq<&'static str> = seq![
        "request_id",
        "txid",
        "block_hash",
        "recipient",
        "amount",
        "max_fee",
        "sender_address",
        "bitcoin_block_height",
    ];
    if WithdrawalRequest::fits(request) && inserted(record, names, params) {
        assert(names[0] == "request_id");
        assert(record(column(names[0], Kind::Int8)) == params[0]);
        assert(names[1] == "txid");
        assert(record(column(names[1], Kind::Bytes)) == params[1]);
        assert(names[2] == "block_hash");
        assert(record(column(names[2], Kind::Bytes)) == params[2]);
        assert(names[3] == "recipient");
        assert(record(column(names[3], Kind::Bytes)) == params[3]);
        assert(names[4] == "amount");
        assert(record(column(names[4], Kind::Int8)) == params[4]);
        assert(names[5] == "max_fee");
        assert(record(column(names[5], Kind::Int8)) == params[5]);
        assert(names[6] == "sender_address");
        assert(record(column(names[6], Kind::Text)) == params[6]);
        assert(names[7] == "bitcoin_block_height");
        assert(record(column(names[7], Kind::Int8)) == params[7]);
    }
}

/// A decision on a withdrawal request is stored under the names of its columns:
/// the row that holds the parameters in the columns of the statement tells of it.
/// It is refused exactly where a number does not fit.
pub proof fn written_withdrawal_decision<P>(
    store: PgStore<P>,
    decision: WithdrawalSigner,
    step: Step<Execute, ()>,
    record: Record,
    database: Database,
)
    requires
        call_ensures(PgStore::<P>::write_withdrawal_signer_decision, (&store, &decision), step),
    ensures
        WithdrawalSigner::fits(decision)
            ==> writes(step_view(step), sql::WRITE_WITHDRAWAL_SIGNER_DECISION, database),
        WithdrawalSigner::fits(decision) && inserted(
            record,
            seq![
                "request_id",
                "txid",
                "block_hash",
                "signer_pub_key",
                "is_accepted",
            ],
            params_of(step_view(step)),
        ) ==> WithdrawalSigner::tells(record, decision),
        !WithdrawalSigner::fits(decision) ==> is_refused(step_view(step)),
{
    reveal_with_fuel(run, 2);
    let params = params_of(step_view(step));
    let names: Seq<&'static str> = seq![
        "request_id",
        "txid",
        "block_hash",
        "signer_pub_key",
        "is_accepted",
    ];
    if WithdrawalSigner::fits(decision) && inserted(record, names, params) {
        assert(names[0] == "request_id");
        assert(record(column(names[0], Kind::Int8)) == params[0]);
        assert(names[1] == "txid");
        assert(record(column(names[1], Kind::Bytes)) == params[1]);
        assert(names[2] == "block_hash");
        assert(record(column(names[2], Kind::Bytes)) == params[2]);
        assert(names[3] == "signer_pub_key");
        assert(record(column(names[3], Kind::Bytes)) == params[3]);
        assert(names[4] == "is_accepted");
        assert(record(column(names[4], Kind::Bool)) == params[4]);
    }
}

/// The payment of a withdrawal is stored under the names of its columns: the row
/// that holds the parameters in the columns of the statement tells of it. It is
/// refused exactly where a number does not fit.
pub proof fn written_accepted_withdrawal<P>(
    store: PgStore<P>,
    event: WithdrawalAcceptEvent,
    step: Step<Execute, ()>,
    record: Record,
    database: Database,
)
    requires
        call_ensures(PgStore::<P>::write_withdrawal_accept_event, (&store, &event), step),
    ensures
        fits_withdrawal_accept_event(event)
            ==> writes(step_view(step), sql::WRITE_WITHDRAWAL_ACCEPT_EVENT, database),
        fits_withdrawal_accept_event(event) && inserted(
            record,
            seq![
                "txid",
                "block_hash",
                "request_id",
                "signer_bitmap",
                "bitcoin_txid",
                "output_index",
                "fee",
                "sweep_block_hash",
                "sweep_block_height",
                "sweep_txid",
            ],
            params_of(step_view(step)),
        ) ==> tells_withdrawal_accept_event(record, event),
        !fits_withdrawal_accept_event(event) ==> is_refused(step_view(step)),
{
    reveal_with_fuel(run, 2);
    let params = params_of(step_view(step));
    let names: Seq<&'static str> = seq![
        "txid",
        "block_hash",
        "request_id",
        "signer_bitmap",
        "bitcoin_txid",
        "output_index",
        "fee",
        "sweep_block_hash",
        "sweep_block_height",
        "sweep_txid",
    ];
    if fits_withdrawal_accept_event(event) && inserted(record, names, params) {
        assert(names[0] == "txid");
        assert(record(column(names[0], Kind::Bytes)) == params[0]);
        assert(names[1] == "block_hash");
        assert(record(column(names[1], Kind::Bytes)) == params[1]);
        assert(names[2] == "request_id");
        assert(record(column(names[2], Kind::Int8)) == params[2]);
        assert(names[3] == "signer_bitmap");
        assert(record(column(names[3], Kind::Bytes)) == params[3]);
        assert(names[4] == "bitcoin_txid");
        assert(record(column(names[4], Kind::Bytes)) == params[4]);
        assert(names[5] == "output_index");
        assert(record(column(names[5], Kind::Int8)) == params[5]);
        assert(names[6] == "fee");
        assert(record(column(names[6], Kind::Int8)) == params[6]);
        assert(names[7] == "sweep_block_hash");
        assert(record(column(names[7], Kind::Bytes)) == params[7]);
        assert(names[8] == "sweep_block_height");
        assert(record(column(names[8], Kind::Int8)) == params[8]);
        assert(names[9] == "sweep_txid");
        assert(record(column(names[9], Kind::Bytes)) == params[9]);
    }
}

/// The rejection of a withdrawal is stored under the names of its columns: the
/// row that holds the parameters in the columns of the statement tells of it. It
/// is refused exactly where a number does not fit.
pub proof fn written_rejected_withdrawal<P>(
    store: PgStore<P>,
    event: WithdrawalRejectEvent,
    step: Step<Execute, ()>,
    record: Record,
    database: Database,
)
    requires
        call_ensures(PgStore::<P>::write_withdrawal_reject_event, (&store, &event), step),
    ensures
        fits_withdrawal_reject_event(event)
            ==> writes(step_view(step), sql::WRITE_WITHDRAWAL_REJECT_EVENT, database),
        fits_withdrawal_reject_event(event) && inserted(
            record,
            seq![
                "txid",
                "block_hash",
                "request_id",
                "signer_bitmap",
            ],
            params_of(step_view(step)),
        ) ==> tells_withdrawal_reject_event(record, event),
        !fits_withdrawal_reject_event(event) ==> is_refused(step_view(step)),
{
    reveal_with_fuel(run, 2);
    let params = params_of(step_view(step));
    let names: Seq<&'static str> = seq![
        "txid",
        "block_hash",
        "request_id",
        "signer_bitmap",
    ];
    if fits_withdrawal_reject_event(event) && inserted(record, names, params) {
        assert(names[0] == "txid");
        assert(record(column(names[0], Kind::Bytes)) == params[0]);
        assert(names[1] == "block_hash");
        assert(record(column(names[1], Kind::Bytes)) == params[1]);
        assert(names[2] == "request_id");
        assert(record(column(names[2], Kind::Int8)) == params[2]);
        assert(names[3] == "signer_bitmap");
        assert(record(column(names[3], Kind::Bytes)) == params[3]);
    }
}

/// An output that pays a withdrawal is stored under the names of its columns: the
/// row that holds the parameters in the columns of the statement tells of it. It
/// is refused exactly where a number does not fit.
pub proof fn written_withdrawal_output<P>(
    store: PgStore<P>,
    output: WithdrawalTxOutput,
    step: Step<Execute, ()>,
    record: Record,
    database: Database,
)
    requires
        call_ensures(PgStore::<P>::write_withdrawal_tx_output, (&store, &output), step),
    ensures
        fits_withdrawal_tx_output(output)
            ==> writes(step_view(step), sql::WRITE_WITHDRAWAL_TX_OUTPUT, database),
        fits_withdrawal_tx_output(output) && inserted(
            record,
            seq![
                "txid",
                "output_index",
                "request_id",
            ],
            params_of(step_view(step)),
        ) ==> tells_withdrawal_tx_output(record, output),
        !fits_withdrawal_tx_output(output) ==> is_refused(step_view(step)),
{
    reveal_with_fuel(run, 2);
    let params = params_of(step_view(step));
    let names: Seq<&'static str> = seq![
        "txid",
        "output_index",
        "request_id",
    ];
    if fits_withdrawal_tx_output(output) && inserted(record, names, params) {
        assert(names[0] == "txid");
        assert(record(column(names[0], Kind::Bytes)) == params[0]);
        assert(names[1] == "output_index");
        assert(record(column(names[1], Kind::Int4)) == params[1]);
        assert(names[2] == "request_id");
        assert(record(column(names[2], Kind::Int8)) == params[2]);
    }
}

/// Bitcoin transactions are stored in arrays with one element for each, such that
/// the row that holds the elements at one position tells of the one at that
/// position. They are refused exactly where a number of one does not fit, and
/// nothing is asked for if there are none.
pub proof fn written_bitcoin_transactions<P>(
    store: PgStore<P>,
    txs: Vec<BitcoinTxRef>,
    i: int,
    step: Step<Execute, ()>,
    record: Record,
    database: Database,
)
    requires
        call_ensures(PgStore::<P>::write_bitcoin_transactions, (&store, txs), step),
    ensures
        txs@.len() == 0 ==> (step_view(step) matches StepView::Done(result) && result is Ok),
        txs@.len() > 0 && all_fit(txs@) ==> {
            &&& writes(step_view(step), sql::WRITE_BITCOIN_TRANSACTIONS, database)
            &&& are_arrays(params_of(step_view(step)), txs@.len())
        },
        txs@.len() > 0 && !all_fit(txs@) ==> is_refused(step_view(step)),
        txs@.len() > 0 && all_fit(txs@) && 0 <= i < txs@.len() && inserted(
            record,
            seq![
                "txid",
                "block_hash",
            ],
            row_at(params_of(step_view(step)), i),
        ) ==> BitcoinTxRef::tells(record, txs@[i]),
{
    reveal_with_fuel(run, 2);
    let params = params_of(step_view(step));
    let names: Seq<&'static str> = seq![
        "txid",
        "block_hash",
    ];
    if txs@.len() > 0 {
        assert(all_fit(txs@) <==> (forall|j: int|
            0 <= j < txs@.len() ==> (#[trigger] txs@[j]).storable())) by {
            assert forall|j: int| 0 <= j < txs@.len() implies BitcoinTxRef::fits(#[trigger] txs@[j])
                == txs@[j].storable() by {}
        }
    }
    if txs@.len() > 0 && all_fit(txs@) && 0 <= i < txs@.len() && inserted(record, names, row_at(params, i)) {
        let row = row_at(params, i);
        assert(names[0] == "txid");
        assert(record(column(names[0], Kind::Bytes)) == row_at(params, i)[0]);
        assert(row[0] == element(params[0], i));
        assert(names[1] == "block_hash");
        assert(record(column(names[1], Kind::Bytes)) == row_at(params, i)[1]);
        assert(row[1] == element(params[1], i));
    }
}

/// Stacks blocks are stored in arrays with one element for each, such that
/// the row that holds the elements at one position tells of the one at that
/// position. They are refused exactly where a number of one does not fit, and
/// nothing is asked for if there are none.
pub proof fn written_stacks_blocks<P>(
    store: PgStore<P>,
    blocks: Vec<StacksBlock>,
    i: int,
    step: Step<Execute, ()>,
    record: Record,
    database: Database,
)
    requires
        call_ensures(PgStore::<P>::write_stacks_block_headers, (&store, blocks), step),
    ensures
        blocks@.len() == 0 ==> (step_view(step) matches StepView::Done(result) && result is Ok),
        blocks@.len() > 0 && all_fit(blocks@) ==> {
            &&& writes(step_view(step), sql::WRITE_STACKS_BLOCK_HEADERS, database)
            &&& are_arrays(params_of(step_view(step)), blocks@.len())
        },
        blocks@.len() > 0 && !all_fit(blocks@) ==> is_refused(step_view(step)),
        blocks@.len() > 0 && all_fit(blocks@) && 0 <= i < blocks@.len() && inserted(
            record,
            seq![
                "block_hash",
                "parent_hash",
                "block_height",
                "bitcoin_anchor",
            ],
            row_at(params_of(step_view(step)), i),
        ) ==> StacksBlock::tells(record, blocks@[i]),
{
    reveal_with_fuel(run, 2);
    let params = params_of(step_view(step));
    let names: Seq<&'static str> = seq![
        "block_hash",
        "parent_hash",
        "block_height",
        "bitcoin_anchor",
    ];
    if blocks@.len() > 0 {
        assert(all_fit(blocks@) <==> (forall|j: int|
            0 <= j < blocks@.len() ==> (#[trigger] blocks@[j]).storable())) by {
            assert forall|j: int| 0 <= j < blocks@.len() implies StacksBlock::fits(#[trigger] blocks@[j])
                == blocks@[j].storable() by {}
        }
    }
    if blocks@.len() > 0 && all_fit(blocks@) && 0 <= i < blocks@.len() && inserted(record, names, row_at(params, i)) {
        let row = row_at(params, i);
        assert(names[0] == "block_hash");
        assert(record(column(names[0], Kind::Bytes)) == row_at(params, i)[0]);
        assert(row[0] == element(params[0], i));
        assert(names[1] == "parent_hash");
        assert(record(column(names[1], Kind::Bytes)) == row_at(params, i)[1]);
        assert(row[1] == element(params[1], i));
        assert(names[2] == "block_height");
        assert(record(column(names[2], Kind::Int8)) == row_at(params, i)[2]);
        assert(row[2] == element(params[2], i));
        assert(names[3] == "bitcoin_anchor");
        assert(record(column(names[3], Kind::Bytes)) == row_at(params, i)[3]);
        assert(row[3] == element(params[3], i));
    }
}

/// Digests are stored in arrays with one element for each, such that
/// the row that holds the elements at one position tells of the one at that
/// position. They are refused exactly where a number of one does not fit, and
/// nothing is asked for if there are none.
pub proof fn written_digests<P>(
    store: PgStore<P>,
    sighashes: &[BitcoinTxSigHash],
    i: int,
    step: Step<Execute, ()>,
    record: Record,
    database: Database,
)
    requires
        call_ensures(PgStore::<P>::write_bitcoin_txs_sighashes, (&store, sighashes), step),
    ensures
        sighashes@.len() == 0 ==> (step_view(step) matches StepView::Done(result) && result is Ok),
        sighashes@.len() > 0 && all_digests_fit(sighashes@) ==> {
            &&& writes(step_view(step), sql::WRITE_BITCOIN_TXS_SIGHASHES, database)
            &&& are_arrays(params_of(step_view(step)), sighashes@.len())
        },
        sighashes@.len() > 0 && !all_digests_fit(sighashes@) ==> is_refused(step_view(step)),
        sighashes@.len() > 0 && all_digests_fit(sighashes@) && 0 <= i < sighashes@.len() && inserted(
            record,
            seq![
                "txid",
                "chain_tip",
                "prevout_txid",
                "prevout_output_index",
                "sighash",
                "prevout_type",
                "validation_result",
                "is_valid_tx",
                "will_sign",
                "x_only_public_key",
            ],
            row_at(params_of(step_view(step)), i),
        ) ==> tells_bitcoin_tx_sig_hash(record, sighashes@[i]),
{
    reveal_with_fuel(run, 2);
    let params = params_of(step_view(step));
    let names: Seq<&'static str> = seq![
        "txid",
        "chain_tip",
        "prevout_txid",
        "prevout_output_index",
        "sighash",
        "prevout_type",
        "validation_result",
        "is_valid_tx",
        "will_sign",
        "x_only_public_key",
    ];
    if sighashes@.len() > 0 {
        assert(all_digests_fit(sighashes@) <==> (forall|j: int|
            0 <= j < sighashes@.len() ==> (#[trigger] sighashes@[j]).storable())) by {
            assert forall|j: int| 0 <= j < sighashes@.len() implies fits_bitcoin_tx_sig_hash(#[trigger] sighashes@[j])
                == sighashes@[j].storable() by {}
        }
    }
    if sighashes@.len() > 0 && all_digests_fit(sighashes@) && 0 <= i < sighashes@.len() && inserted(record, names, row_at(params, i)) {
        let row = row_at(params, i);
        assert(names[0] == "txid");
        assert(record(column(names[0], Kind::Bytes)) == row_at(params, i)[0]);
        assert(row[0] == element(params[0], i));
        assert(names[1] == "chain_tip");
        assert(record(column(names[1], Kind::Bytes)) == row_at(params, i)[1]);
        assert(row[1] == element(params[1], i));
        assert(names[2] == "prevout_txid");
        assert(record(column(names[2], Kind::Bytes)) == row_at(params, i)[2]);
        assert(row[2] == element(params[2], i));
        assert(names[3] == "prevout_output_index");
        assert(record(column(names[3], Kind::Int4)) == row_at(params, i)[3]);
        assert(row[3] == element(params[3], i));
        assert(names[4] == "sighash");
        assert(record(column(names[4], Kind::Bytes)) == row_at(params, i)[4]);
        assert(row[4] == element(params[4], i));
        assert(names[5] == "prevout_type");
        assert(record(column(names[5], Kind::Label(PgEnum::PrevoutType))) == row_at(params, i)[5]);
        assert(row[5] == element(params[5], i));
        assert(names[6] == "validation_result");
        assert(record(column(names[6], Kind::Text)) == row_at(params, i)[6]);
        assert(row[6] == element(params[6], i));
        assert(names[7] == "is_valid_tx");
        assert(record(column(names[7], Kind::Bool)) == row_at(params, i)[7]);
        assert(row[7] == element(params[7], i));
        assert(names[8] == "will_sign");
        assert(record(column(names[8], Kind::Bool)) == row_at(params, i)[8]);
        assert(row[8] == element(params[8], i));
        assert(names[9] == "x_only_public_key");
        assert(record(column(names[9], Kind::Bytes)) == row_at(params, i)[9]);
        assert(row[9] == element(params[9], i));
    }
}

/// Outputs of proposed transactions are stored in arrays with one element for
/// each, such that the row that holds the elements at one position tells of the
/// one at that position. They are refused exactly where a number of one does not
/// fit, and nothing is asked for if there are none.
pub proof fn written_proposed_outputs<P>(
    store: PgStore<P>,
    outputs: &[BitcoinWithdrawalOutput],
    i: int,
    step: Step<Execute, ()>,
    record: Record,
    database: Database,
)
    requires
        call_ensures(PgStore::<P>::write_bitcoin_withdrawals_outputs, (&store, outputs), step),
    ensures
        outputs@.len() == 0 ==> (step_view(step) matches StepView::Done(result) && result is Ok),
        outputs@.len() > 0 && all_outputs_fit(outputs@) ==> {
            &&& writes(step_view(step), sql::WRITE_BITCOIN_WITHDRAWALS_OUTPUTS, database)
            &&& are_arrays(params_of(step_view(step)), outputs@.len())
        },
        outputs@.len() > 0 && !all_outputs_fit(outputs@) ==> is_refused(step_view(step)),
        outputs@.len() > 0 && all_outputs_fit(outputs@) && 0 <= i < outputs@.len() && inserted(
            record,
            seq![
                "bitcoin_txid",
                "bitcoin_chain_tip",
                "output_index",
                "request_id",
                "stacks_txid",
                "stacks_block_hash",
                "validation_result",
                "is_valid_tx",
            ],
            row_at(params_of(step_view(step)), i),
        ) ==> tells_bitcoin_withdrawal_output(record, outputs@[i]),
{
    reveal_with_fuel(run, 2);
    let params = params_of(step_view(step));
    let names: Seq<&'static str> = seq![
        "bitcoin_txid",
        "bitcoin_chain_tip",
        "output_index",
        "request_id",
        "stacks_txid",
        "stacks_block_hash",
        "validation_result",
        "is_valid_tx",
    ];
    if outputs@.len() > 0 {
        assert(all_outputs_fit(outputs@) <==> (forall|j: int|
            0 <= j < outputs@.len() ==> (#[trigger] outputs@[j]).storable())) by {
            assert forall|j: int| 0 <= j < outputs@.len() implies fits_bitcoin_withdrawal_output(#[trigger] outputs@[j])
                == outputs@[j].storable() by {}
        }
    }
    if outputs@.len() > 0 && all_outputs_fit(outputs@) && 0 <= i < outputs@.len() && inserted(record, names, row_at(params, i)) {
        let row = row_at(params, i);
        assert(names[0] == "bitcoin_txid");
        assert(record(column(names[0], Kind::Bytes)) == row_at(params, i)[0]);
        assert(row[0] == element(params[0], i));
        assert(names[1] == "bitcoin_chain_tip");
        assert(record(column(names[1], Kind::Bytes)) == row_at(params, i)[1]);
        assert(row[1] == element(params[1], i));
        assert(names[2] == "output_index");
        assert(record(column(names[2], Kind::Int4)) == row_at(params, i)[2]);
        assert(row[2] == element(params[2], i));
        assert(names[3] == "request_id");
        assert(record(column(names[3], Kind::Int8)) == row_at(params, i)[3]);
        assert(row[3] == element(params[3], i));
        assert(names[4] == "stacks_txid");
        assert(record(column(names[4], Kind::Bytes)) == row_at(params, i)[4]);
        assert(row[4] == element(params[4], i));
        assert(names[5] == "stacks_block_hash");
        assert(record(column(names[5], Kind::Bytes)) == row_at(params, i)[5]);
        assert(row[5] == element(params[5], i));
        assert(names[6] == "validation_result");
        assert(record(column(names[6], Kind::Text)) == row_at(params, i)[6]);
        assert(row[6] == element(params[6], i));
        assert(names[7] == "is_valid_tx");
        assert(record(column(names[7], Kind::Bool)) == row_at(params, i)[7]);
        assert(row[7] == element(params[7], i));
    }
}

/// Deposit requests are stored in arrays with one element for each, such that the
/// row that holds the elements at one position tells of the one at that position;
/// the senders are joined, and are told of once they are split again. They are
/// refused exactly where a number of one does not fit, and nothing is asked for
/// if there are none.
pub proof fn written_deposit_requests<P>(
    store: PgStore<P>,
    requests: Vec<DepositRequest>,
    i: int,
    step: Step<Execute, ()>,
    record: Record,
    database: Database,
)
    requires
        call_ensures(PgStore::<P>::write_deposit_requests, (&store, requests), step),
    ensures
        requests@.len() == 0 ==> (step_view(step) matches StepView::Done(result) && result is Ok),
        requests@.len() > 0 && all_fit(requests@) ==> {
            &&& writes(step_view(step), sql::WRITE_DEPOSIT_REQUESTS, database)
            &&& are_arrays(params_of(step_view(step)), requests@.len())
        },
        requests@.len() > 0 && !all_fit(requests@) ==> is_refused(step_view(step)),
        requests@.len() > 0 && all_fit(requests@) && 0 <= i < requests@.len() && inserted(
            record,
            seq![
                "txid",
                "output_index",
                "spend_script",
                "reclaim_script",
                "recipient",
                "amount",
                "max_fee",
                "lock_time",
                "signers_public_key",
            ],
            row_at(params_of(step_view(step)), i).take(9),
        ) && requests@[i].sender_script_pub_keys@.len() > 0 && (row_at(
            params_of(step_view(step)),
            i,
        )[9] matches Datum::Text(senders) ==> record(
            column("sender_script_pub_keys", Kind::BytesArray),
        ) == Datum::BytesArray(split(senders))) ==> DepositRequest::tells(record, requests@[i]),
{
    reveal_with_fuel(run, 2);
    let params = params_of(step_view(step));
    let names: Seq<&'static str> = seq![
        "txid",
        "output_index",
        "spend_script",
        "reclaim_script",
        "recipient",
        "amount",
        "max_fee",
        "lock_time",
        "signers_public_key",
    ];
    if requests@.len() > 0 {
        assert(all_fit(requests@) <==> (forall|j: int|
            0 <= j < requests@.len() ==> (#[trigger] requests@[j]).storable())) by {
            assert forall|j: int| 0 <= j < requests@.len() implies DepositRequest::fits(#[trigger] requests@[j])
                == requests@[j].storable() by {}
        }
    }
    if requests@.len() > 0 && all_fit(requests@) && 0 <= i < requests@.len() && inserted(record, names, row_at(params, i).take(9)) {
        let row = row_at(params, i);
        assert(names[0] == "txid");
        assert(record(column(names[0], Kind::Bytes)) == row_at(params, i).take(9)[0]);
        assert(row[0] == element(params[0], i));
        assert(names[1] == "output_index");
        assert(record(column(names[1], Kind::Int4)) == row_at(params, i).take(9)[1]);
        assert(row[1] == element(params[1], i));
        assert(names[2] == "spend_script");
        assert(record(column(names[2], Kind::Bytes)) == row_at(params, i).take(9)[2]);
        assert(row[2] == element(params[2], i));
        assert(names[3] == "reclaim_script");
        assert(record(column(names[3], Kind::Bytes)) == row_at(params, i).take(9)[3]);
        assert(row[3] == element(params[3], i));
        assert(names[4] == "recipient");
        assert(record(column(names[4], Kind::Text)) == row_at(params, i).take(9)[4]);
        assert(row[4] == element(params[4], i));
        assert(names[5] == "amount");
        assert(record(column(names[5], Kind::Int8)) == row_at(params, i).take(9)[5]);
        assert(row[5] == element(params[5], i));
        assert(names[6] == "max_fee");
        assert(record(column(names[6], Kind::Int8)) == row_at(params, i).take(9)[6]);
        assert(row[6] == element(params[6], i));
        assert(names[7] == "lock_time");
        assert(record(column(names[7], Kind::Int8)) == row_at(params, i).take(9)[7]);
        assert(row[7] == element(params[7], i));
        assert(names[8] == "signers_public_key");
        assert(record(column(names[8], Kind::Bytes)) == row_at(params, i).take(9)[8]);
        assert(row[8] == element(params[8], i));
        let scripts = script_bytes(requests@[i].sender_script_pub_keys@);
        assert(row[9] == element(params[9], i));
        assert(scripts =~= requests@[i].sender_script_pub_keys@.map_values(
            |script: ScriptPubKey| script.0@,
        ));
        if scripts.len() > 0 {
            joined_scripts_read_back(scripts);
        }
    }
}

} // verus!
