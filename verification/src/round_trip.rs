//! What is read back of what is stored.

use crate::chain::{
    block_headers_params, get_bitcoin_block_step, get_bitcoin_blocks_with_transaction_step,
    get_stacks_block_step, transactions_params, BlockHashesOf,
};
use crate::compose::{run_converting, Converting};
use crate::convert::{fits_bigint, fits_integer, hex, hex_digit, joined, script_bytes, x_only};
use crate::deposits::{deposit_requests_params, get_deposit_request_step, get_deposit_signers_step};
use crate::error::StoreError;
use crate::fetch::{
    all_are_rows, all_rows, ask_all, one_row, optional_row, query, rows_view, Execute,
    FetchAll, FetchOptional,
};
use crate::keys::{
    get_encrypted_dkg_shares_step, get_latest_encrypted_dkg_shares_step,
    write_encrypted_dkg_shares_step,
};
use crate::laws::{run_all, run_optional};
use crate::model::{
    BitcoinBlock, BitcoinTxRef, BitcoinTxSigHash, DepositRequest, DepositSigner, EncryptedDkgShares,
    PublicKeyXOnly, StacksBlock, WithdrawalSigner,
};
use crate::procedure::{run, Database, StepView};
use crate::row::{all_storable, as_bytes, FromRow};
use crate::sql;
use crate::sweeps::{
    sighashes_params, will_sign_bitcoin_tx_sighash_step, write_bitcoin_txs_sighashes_step,
};
use crate::value::{ActionView, Datum, Fetch, ReplyView, ResponseView};
use crate::withdrawals::get_withdrawal_signers_step;
use vstd::prelude::*;

verus! {

/// Data that fits into its columns is read back from the row that it is stored
/// as.
pub proof fn stored_data_reads_back<T: FromRow>(item: T, rows_affected: u64)
    requires
        item.storable(),
    ensures
        optional_row::<T>(Ok(ReplyView { rows: seq![item.row()], rows_affected })) == Ok::<
            Option<Seq<Datum>>,
            StoreError,
        >(Some(item.row())),
        one_row::<T>(Ok(ReplyView { rows: seq![item.row()], rows_affected })) == Ok::<
            Seq<Datum>,
            StoreError,
        >(item.row()),
{
    item.row_is_row();
}

/// A list of data that fits into its columns is read back from the rows that it
/// is stored as.
pub proof fn stored_list_reads_back<T: FromRow>(items: Seq<T>, rows_affected: u64)
    requires
        all_storable(items),
    ensures
        all_rows::<T>(Ok(ReplyView { rows: rows_view(items), rows_affected })) == Ok::<
            Seq<Seq<Datum>>,
            StoreError,
        >(rows_view(items)),
{
    assert forall|i: int| 0 <= i < rows_view(items).len() implies T::is_row(
        #[trigger] rows_view(items)[i],
    ) by {
        items[i].row_is_row();
    }
    assert(all_are_rows::<T>(rows_view(items)));
}

/// The values with which the shares of a key generation are stored, in the order
/// in which they are read.
pub open spec fn shares_row(params: Seq<Datum>) -> Seq<Datum> {
    seq![
        params[0],
        params[1],
        params[4],
        params[2],
        params[3],
        params[5],
        params[6],
        params[7],
        params[8],
        params[9],
    ]
}

/// The shares of a key generation are stored with the same values that their
/// row has, in another order.
pub proof fn shares_are_stored_as_their_row(shares: EncryptedDkgShares)
    ensures
        shares.row() == shares_row(shares.params()),
{
}

/// An element of an array.
pub open spec fn element(datum: Datum, i: int) -> Datum {
    match datum {
        Datum::BoolArray(items) => Datum::Bool(items[i]),
        Datum::Int4Array(items) => Datum::Int4(items[i]),
        Datum::Int8Array(items) => Datum::Int8(items[i]),
        Datum::BytesArray(items) => Datum::Bytes(items[i]),
        Datum::TextArray(items) => Datum::Text(items[i]),
        Datum::LabelArray(kind, items) => Datum::Label(kind, items[i]),
        _ => Datum::Null,
    }
}

/// The values that stand at one position of several arrays.
pub open spec fn row_at(columns: Seq<Datum>, i: int) -> Seq<Datum> {
    columns.map_values(|column: Datum| element(column, i))
}

/// Each of several transactions is stored as it is stored alone.
pub proof fn transactions_are_stored_as_one(txs: Seq<BitcoinTxRef>, i: int)
    requires
        0 <= i < txs.len(),
    ensures
        row_at(transactions_params(txs), i) == txs[i].row(),
{
    assert(row_at(transactions_params(txs), i) =~= txs[i].row());
}

/// Each of several stacks blocks is stored as it is stored alone; the parent
/// comes before the height.
pub proof fn block_headers_are_stored_as_one(blocks: Seq<StacksBlock>, i: int)
    requires
        0 <= i < blocks.len(),
    ensures
        ({
            let row = blocks[i].row();
            row_at(block_headers_params(blocks), i) == seq![row[0], row[2], row[1], row[3]]
        }),
{
    let row = blocks[i].row();
    assert(row_at(block_headers_params(blocks), i) =~= seq![row[0], row[2], row[1], row[3]]);
}

/// The position of the last comma of a text, or -1 if there is none.
pub open spec fn last_comma(text: Seq<char>) -> int
    decreases text.len(),
{
    if text.len() == 0 {
        -1
    } else if text.last() == ',' {
        text.len() - 1
    } else {
        last_comma(text.drop_last())
    }
}

/// The pieces of a text between its commas.
pub open spec fn pieces(text: Seq<char>) -> Seq<Seq<char>>
    decreases text.len(),
{
    let comma = last_comma(text);
    if 0 <= comma < text.len() {
        pieces(text.take(comma)).push(text.skip(comma + 1))
    } else {
        seq![text]
    }
}

/// The value of a hexadecimal digit.
pub open spec fn digit_value(digit: char) -> int {
    if '0' <= digit <= '9' {
        digit as int - '0' as int
    } else {
        digit as int - 'a' as int + 10
    }
}

/// The bytes that a text gives in hexadecimal.
pub open spec fn unhex(text: Seq<char>) -> Seq<u8> {
    Seq::new(
        text.len() / 2,
        |i: int| (digit_value(text[2 * i]) * 16 + digit_value(text[2 * i + 1])) as u8,
    )
}

/// The bytes that each piece of a text gives in hexadecimal.
pub open spec fn split(text: Seq<char>) -> Seq<Seq<u8>> {
    pieces(text).map_values(|piece: Seq<char>| unhex(piece))
}

/// Bytes are read back from hexadecimal.
pub proof fn hex_reads_back(bytes: Seq<u8>)
    ensures
        unhex(hex(bytes)) == bytes,
{
    let text = hex(bytes);
    assert forall|i: int| 0 <= i < bytes.len() implies #[trigger] unhex(text)[i] == bytes[i] by {
        let high = bytes[i] as int / 16;
        let low = bytes[i] as int % 16;
        assert((2 * i) % 2 == 0 && (2 * i) / 2 == i);
        assert((2 * i + 1) % 2 == 1 && (2 * i + 1) / 2 == i);
        assert(text[2 * i] == hex_digit(high));
        assert(text[2 * i + 1] == hex_digit(low));
        assert(digit_value(hex_digit(high)) == high);
        assert(digit_value(hex_digit(low)) == low);
    }
    assert(unhex(text) =~= bytes);
}

/// A text of which a part without commas is the end has its last comma before
/// that part.
proof fn last_comma_before(text: Seq<char>, tail: Seq<char>)
    requires
        forall|i: int| 0 <= i < tail.len() ==> tail[i] != ',',
    ensures
        last_comma(text + tail) == last_comma(text),
    decreases tail.len(),
{
    if tail.len() == 0 {
        assert(text + tail =~= text);
    } else {
        assert((text + tail).drop_last() =~= text + tail.drop_last());
        assert((text + tail).last() == tail.last());
        assert(tail.last() == tail[tail.len() - 1]);
        last_comma_before(text, tail.drop_last());
    }
}

/// There are no commas in hexadecimal.
proof fn hex_has_no_comma(bytes: Seq<u8>)
    ensures
        forall|i: int| 0 <= i < hex(bytes).len() ==> hex(bytes)[i] != ',',
{
}

/// The pieces of joined scripts are the scripts.
proof fn pieces_of_joined(scripts: Seq<Seq<u8>>)
    requires
        scripts.len() > 0,
    ensures
        pieces(joined(scripts)) == scripts.map_values(|script: Seq<u8>| hex(script)),
    decreases scripts.len(),
{
    let last = hex(scripts.last());
    hex_has_no_comma(scripts.last());
    if scripts.len() == 1 {
        assert(Seq::<char>::empty() + last =~= last);
        last_comma_before(Seq::empty(), last);
        assert(pieces(last) =~= scripts.map_values(|script: Seq<u8>| hex(script)));
    } else {
        let rest = joined(scripts.drop_last());
        pieces_of_joined(scripts.drop_last());
        let text = joined(scripts);
        last_comma_before(rest.push(','), last);
        assert(text =~= rest.push(',') + last);
        assert(rest.push(',').last() == ',');
        assert(last_comma(text) == rest.len());
        assert(text.take(rest.len() as int) =~= rest);
        assert(text.skip(rest.len() as int + 1) =~= last);
        assert(pieces(text) =~= scripts.map_values(|script: Seq<u8>| hex(script)));
    }
}

/// A list of scripts, if it is not empty, is read back from the text that it is
/// joined to.
pub proof fn joined_scripts_read_back(scripts: Seq<Seq<u8>>)
    requires
        scripts.len() > 0,
    ensures
        split(joined(scripts)) == scripts,
{
    pieces_of_joined(scripts);
    assert forall|i: int| 0 <= i < scripts.len() implies #[trigger] split(joined(scripts))[i]
        == scripts[i] by {
        hex_reads_back(scripts[i]);
    }
    assert(split(joined(scripts)) =~= scripts);
}

/// Each of several deposit requests is stored as it is stored alone, once its
/// list of senders, which is not empty, is split again.
pub proof fn deposit_requests_are_stored_as_one(requests: Seq<DepositRequest>, i: int)
    requires
        0 <= i < requests.len(),
        requests[i].sender_script_pub_keys@.len() > 0,
    ensures
        ({
            let stored = row_at(deposit_requests_params(requests), i);
            &&& stored.take(9) == requests[i].row().take(9)
            &&& stored[9] matches Datum::Text(senders) && Datum::BytesArray(split(senders))
                == requests[i].row()[9]
        }),
{
    let stored = row_at(deposit_requests_params(requests), i);
    assert(stored.take(9) =~= requests[i].row().take(9));
    joined_scripts_read_back(script_bytes(requests[i].sender_script_pub_keys@));
}

/// The answer that consists of one row.
pub open spec fn one_row_reply(row: Seq<Datum>, rows_affected: u64) -> ResponseView {
    Ok(ReplyView { rows: seq![row], rows_affected })
}

/// The answer that consists of the given rows.
pub open spec fn rows_reply(rows: Seq<Seq<Datum>>, rows_affected: u64) -> ResponseView {
    Ok(ReplyView { rows, rows_affected })
}

/// A bitcoin block reads back from a database that gives the values with which
/// it was stored.
pub proof fn bitcoin_block_reads_back(block: BitcoinBlock, rows_affected: u64, database: Database)
    requires
        block.storable(),
        database(
            ActionView::Run(
                query::<BitcoinBlock>(
                    sql::GET_BITCOIN_BLOCK,
                    Fetch::Optional,
                    seq![Datum::Bytes(block.block_hash.0@)],
                ),
            ),
        ) == one_row_reply(block.row(), rows_affected),
    ensures
        run::<FetchOptional<BitcoinBlock>>(get_bitcoin_block_step(block.block_hash.0@), database)
            == Ok::<Option<Seq<Datum>>, StoreError>(Some(block.row())),
{
    stored_data_reads_back(block, rows_affected);
    run_optional::<BitcoinBlock>(
        sql::GET_BITCOIN_BLOCK,
        seq![Datum::Bytes(block.block_hash.0@)],
        database,
    );
}

/// A stacks block reads back from a database that gives the values with which
/// it was stored.
pub proof fn stacks_block_reads_back(block: StacksBlock, rows_affected: u64, database: Database)
    requires
        block.storable(),
        database(
            ActionView::Run(
                query::<StacksBlock>(
                    sql::GET_STACKS_BLOCK,
                    Fetch::Optional,
                    seq![Datum::Bytes(block.block_hash.0@)],
                ),
            ),
        ) == one_row_reply(block.row(), rows_affected),
    ensures
        run::<FetchOptional<StacksBlock>>(get_stacks_block_step(block.block_hash.0@), database)
            == Ok::<Option<Seq<Datum>>, StoreError>(Some(block.row())),
{
    stored_data_reads_back(block, rows_affected);
    run_optional::<StacksBlock>(
        sql::GET_STACKS_BLOCK,
        seq![Datum::Bytes(block.block_hash.0@)],
        database,
    );
}

/// A deposit request reads back from a database that gives the values with
/// which it was stored.
pub proof fn deposit_request_reads_back(
    request: DepositRequest,
    rows_affected: u64,
    database: Database,
)
    requires
        request.storable(),
        database(
            ActionView::Run(
                query::<DepositRequest>(
                    sql::GET_DEPOSIT_REQUEST,
                    Fetch::Optional,
                    seq![
                        Datum::Bytes(request.txid.0@),
                        Datum::Int4(request.output_index as int),
                    ],
                ),
            ),
        ) == one_row_reply(request.row(), rows_affected),
    ensures
        run::<FetchOptional<DepositRequest>>(
            get_deposit_request_step(request.txid.0@, request.output_index as int),
            database,
        ) == Ok::<Option<Seq<Datum>>, StoreError>(Some(request.row())),
{
    stored_data_reads_back(request, rows_affected);
    run_optional::<DepositRequest>(
        sql::GET_DEPOSIT_REQUEST,
        seq![Datum::Bytes(request.txid.0@), Datum::Int4(request.output_index as int)],
        database,
    );
}

/// The shares of a key generation read back, by the x-coordinate of their
/// aggregate key, from a database that gives their row.
pub proof fn shares_read_back(shares: EncryptedDkgShares, rows_affected: u64, database: Database)
    requires
        shares.storable(),
        database(
            ActionView::Run(
                query::<EncryptedDkgShares>(
                    sql::GET_ENCRYPTED_DKG_SHARES,
                    Fetch::Optional,
                    seq![Datum::Bytes(x_only(shares.aggregate_key.0@))],
                ),
            ),
        ) == one_row_reply(shares.row(), rows_affected),
    ensures
        run::<FetchOptional<EncryptedDkgShares>>(
            get_encrypted_dkg_shares_step(x_only(shares.aggregate_key.0@)),
            database,
        ) == Ok::<Option<Seq<Datum>>, StoreError>(Some(shares.row())),
{
    stored_data_reads_back(shares, rows_affected);
    run_optional::<EncryptedDkgShares>(
        sql::GET_ENCRYPTED_DKG_SHARES,
        seq![Datum::Bytes(x_only(shares.aggregate_key.0@))],
        database,
    );
}

/// The parameters of the statement that a step asks for.
pub open spec fn params_of<S, T>(step: StepView<S, T>) -> Seq<Datum> {
    match step {
        StepView::Ask(ActionView::Run(statement), _) => statement.params,
        _ => Seq::empty(),
    }
}

/// The rows of the table of shares after shares were written to it, which was
/// empty, one after the other. Shares with an aggregate key that is there already
/// are not stored.
pub open spec fn stored_shares(written: Seq<EncryptedDkgShares>) -> Seq<Seq<Datum>>
    decreases written.len(),
{
    if written.len() == 0 {
        Seq::empty()
    } else {
        let table = stored_shares(written.drop_last());
        let row = shares_row(params_of(write_encrypted_dkg_shares_step(written.last())));
        if (exists|i: int| 0 <= i < table.len() && (#[trigger] table[i])[0] == row[0]) {
            table
        } else {
            table.push(row)
        }
    }
}

/// Each row of the table has the aggregate key of some shares that were written.
proof fn stored_shares_were_written(written: Seq<EncryptedDkgShares>, i: int) -> (position: int)
    requires
        all_storable(written),
        0 <= i < stored_shares(written).len(),
    ensures
        0 <= position < written.len(),
        stored_shares(written)[i][0] == Datum::Bytes(written[position].aggregate_key.0@),
    decreases written.len(),
{
    let rest = written.drop_last();
    let last = written[written.len() - 1];
    assert forall|j: int| 0 <= j < rest.len() implies (#[trigger] rest[j]).storable() by {
        assert(rest[j] == written[j]);
    }
    if i < stored_shares(rest).len() {
        stored_shares_were_written(rest, i)
    } else {
        assert(last.storable());
        written.len() - 1
    }
}

/// The shares that were written last, with an aggregate key of their own, read
/// back as the latest ones, whatever their status is, from a database that gives
/// the last row of the table. Where none were written, there are no latest ones.
pub proof fn latest_shares_read_back(
    written: Seq<EncryptedDkgShares>,
    before: Database,
    rows_affected: u64,
    after: Database,
)
    requires
        forall|i: int|
            0 <= i < written.len() ==> run::<Execute>(
                write_encrypted_dkg_shares_step(#[trigger] written[i]),
                before,
            ) is Ok,
        forall|i: int|
            0 <= i < written.len() - 1 ==> (#[trigger] written[i]).aggregate_key.0@
                != written.last().aggregate_key.0@,
        after(
            ActionView::Run(
                query::<EncryptedDkgShares>(
                    sql::GET_LATEST_ENCRYPTED_DKG_SHARES,
                    Fetch::Optional,
                    Seq::empty(),
                ),
            ),
        ) == rows_reply(
            if stored_shares(written).len() == 0 {
                Seq::empty()
            } else {
                seq![stored_shares(written).last()]
            },
            rows_affected,
        ),
    ensures
        run::<FetchOptional<EncryptedDkgShares>>(get_latest_encrypted_dkg_shares_step(), after)
            == Ok::<Option<Seq<Datum>>, StoreError>(
            if written.len() == 0 {
                None
            } else {
                Some(written.last().row())
            },
        ),
{
    run_optional::<EncryptedDkgShares>(
        sql::GET_LATEST_ENCRYPTED_DKG_SHARES,
        Seq::empty(),
        after,
    );
    assert forall|i: int| 0 <= i < written.len() implies (#[trigger] written[i]).storable() by {
        assert(run::<Execute>(write_encrypted_dkg_shares_step(written[i]), before) is Ok);
    }
    if written.len() > 0 {
        let shares = written[written.len() - 1];
        let rest = written.drop_last();
        let table = stored_shares(rest);
        assert(shares.storable());
        assert forall|j: int| 0 <= j < rest.len() implies (#[trigger] rest[j]).storable() by {
            assert(rest[j] == written[j]);
        }
        assert forall|i: int| 0 <= i < table.len() implies (#[trigger] table[i])[0]
            != shares.params()[0] by {
            let j = stored_shares_were_written(rest, i);
            assert(rest[j] == written[j]);
        }
        shares_are_stored_as_their_row(shares);
        stored_data_reads_back(shares, rows_affected);
    }
}

/// The decisions on a deposit request read back from a database that gives the
/// values with which they were stored.
pub proof fn deposit_decisions_read_back(
    decisions: Seq<DepositSigner>,
    txid: Seq<u8>,
    output_index: int,
    rows_affected: u64,
    database: Database,
)
    requires
        all_storable(decisions),
        fits_integer(output_index),
        database(
            ActionView::Run(
                query::<DepositSigner>(
                    sql::GET_DEPOSIT_SIGNERS,
                    Fetch::All,
                    seq![Datum::Bytes(txid), Datum::Int4(output_index)],
                ),
            ),
        ) == rows_reply(rows_view(decisions), rows_affected),
    ensures
        run::<FetchAll<DepositSigner>>(get_deposit_signers_step(txid, output_index), database)
            == Ok::<Seq<Seq<Datum>>, StoreError>(rows_view(decisions)),
{
    stored_list_reads_back(decisions, rows_affected);
    run_all::<DepositSigner>(
        sql::GET_DEPOSIT_SIGNERS,
        seq![Datum::Bytes(txid), Datum::Int4(output_index)],
        database,
    );
}

/// The decisions on a withdrawal request read back from a database that gives
/// the values with which they were stored.
pub proof fn withdrawal_decisions_read_back(
    decisions: Seq<WithdrawalSigner>,
    request_id: int,
    block_hash: Seq<u8>,
    rows_affected: u64,
    database: Database,
)
    requires
        all_storable(decisions),
        fits_bigint(request_id),
        database(
            ActionView::Run(
                query::<WithdrawalSigner>(
                    sql::GET_WITHDRAWAL_SIGNERS,
                    Fetch::All,
                    seq![Datum::Int8(request_id), Datum::Bytes(block_hash)],
                ),
            ),
        ) == rows_reply(rows_view(decisions), rows_affected),
    ensures
        run::<FetchAll<WithdrawalSigner>>(
            get_withdrawal_signers_step(request_id, block_hash),
            database,
        ) == Ok::<Seq<Seq<Datum>>, StoreError>(rows_view(decisions)),
{
    stored_list_reads_back(decisions, rows_affected);
    run_all::<WithdrawalSigner>(
        sql::GET_WITHDRAWAL_SIGNERS,
        seq![Datum::Int8(request_id), Datum::Bytes(block_hash)],
        database,
    );
}

/// The blocks with a transaction read back from a database that gives the
/// values with which the transaction was stored.
pub proof fn blocks_with_transaction_read_back(
    txs: Seq<BitcoinTxRef>,
    txid: Seq<u8>,
    rows_affected: u64,
    database: Database,
)
    requires
        database(
            ActionView::Run(
                query::<BitcoinTxRef>(
                    sql::GET_BITCOIN_BLOCKS_WITH_TRANSACTION,
                    Fetch::All,
                    seq![Datum::Bytes(txid)],
                ),
            ),
        ) == rows_reply(rows_view(txs), rows_affected),
    ensures
        run::<Converting<BlockHashesOf>>(
            get_bitcoin_blocks_with_transaction_step(txid),
            database,
        ) == Ok::<Seq<Seq<u8>>, StoreError>(
            txs.map_values(|tx: BitcoinTxRef| tx.block_hash.0@),
        ),
{
    let params = seq![Datum::Bytes(txid)];
    let first = ask_all::<BitcoinTxRef>(sql::GET_BITCOIN_BLOCKS_WITH_TRANSACTION, params);
    run_converting::<BlockHashesOf>(first, (), database);
    stored_list_reads_back(txs, rows_affected);
    run_all::<BitcoinTxRef>(sql::GET_BITCOIN_BLOCKS_WITH_TRANSACTION, params, database);
    assert(rows_view(txs).map_values(|row: Seq<Datum>| as_bytes(row[1])) =~= txs.map_values(
        |tx: BitcoinTxRef| tx.block_hash.0@,
    ));
}

/// Whether the signer signs a digest, and with which key, is stored as it is
/// read.
pub proof fn signing_is_stored_as_it_is_read(sighashes: Seq<BitcoinTxSigHash>, i: int)
    requires
        0 <= i < sighashes.len(),
    ensures
        row_at(sighashes_params(sighashes), i).skip(8) == (
            sighashes[i].will_sign,
            sighashes[i].aggregate_key,
        ).row(),
{
    assert(row_at(sighashes_params(sighashes), i).skip(8) =~= (
        sighashes[i].will_sign,
        sighashes[i].aggregate_key,
    ).row());
}

/// Whether the signer signs a digest, and with which key, reads back, whether or
/// not the transaction is valid, from a database that gives the values with
/// which the digest was stored.
pub proof fn signing_reads_back(
    sighashes: Seq<BitcoinTxSigHash>,
    i: int,
    before: Database,
    rows_affected: u64,
    after: Database,
)
    requires
        0 <= i < sighashes.len(),
        run::<Execute>(write_bitcoin_txs_sighashes_step(sighashes), before) is Ok,
        after(
            ActionView::Run(
                query::<(bool, PublicKeyXOnly)>(
                    sql::WILL_SIGN_BITCOIN_TX_SIGHASH,
                    Fetch::Optional,
                    seq![Datum::Bytes(sighashes[i].sighash.0@)],
                ),
            ),
        ) == one_row_reply(
            row_at(params_of(write_bitcoin_txs_sighashes_step(sighashes)), i).skip(8),
            rows_affected,
        ),
    ensures
        run::<FetchOptional<(bool, PublicKeyXOnly)>>(
            will_sign_bitcoin_tx_sighash_step(sighashes[i].sighash.0@),
            after,
        ) == Ok::<Option<Seq<Datum>>, StoreError>(
            Some((sighashes[i].will_sign, sighashes[i].aggregate_key).row()),
        ),
{
    signing_is_stored_as_it_is_read(sighashes, i);
    stored_data_reads_back((sighashes[i].will_sign, sighashes[i].aggregate_key), rows_affected);
    run_optional::<(bool, PublicKeyXOnly)>(
        sql::WILL_SIGN_BITCOIN_TX_SIGHASH,
        seq![Datum::Bytes(sighashes[i].sighash.0@)],
        after,
    );
}

/// Nothing is known of the signing of a digest for which the database gives no
/// row.
pub proof fn signing_of_unknown_digest(sighash: Seq<u8>, rows_affected: u64, database: Database)
    requires
        database(
            ActionView::Run(
                query::<(bool, PublicKeyXOnly)>(
                    sql::WILL_SIGN_BITCOIN_TX_SIGHASH,
                    Fetch::Optional,
                    seq![Datum::Bytes(sighash)],
                ),
            ),
        ) == rows_reply(Seq::empty(), rows_affected),
    ensures
        run::<FetchOptional<(bool, PublicKeyXOnly)>>(
            will_sign_bitcoin_tx_sighash_step(sighash),
            database,
        ) == Ok::<Option<Seq<Datum>>, StoreError>(None),
{
    run_optional::<(bool, PublicKeyXOnly)>(
        sql::WILL_SIGN_BITCOIN_TX_SIGHASH,
        seq![Datum::Bytes(sighash)],
        database,
    );
}

/// What a table of digests gives for a digest: whether the signer signs it, and
/// with which key.
pub open spec fn signing_found(table: Seq<Seq<Datum>>, sighash: Seq<u8>) -> Seq<Seq<Datum>>
    decreases table.len(),
{
    if table.len() == 0 {
        Seq::empty()
    } else if table.last()[4] == Datum::Bytes(sighash) {
        seq![table.last().skip(8)]
    } else {
        signing_found(table.drop_last(), sighash)
    }
}

/// Whether a row of a table is the only one with its digest.
pub open spec fn only_row_with(table: Seq<Seq<Datum>>, k: int, sighash: Seq<u8>) -> bool {
    &&& 0 <= k < table.len()
    &&& forall|j: int|
        0 <= j < table.len() ==> ((#[trigger] table[j])[4] == Datum::Bytes(sighash) <==> j == k)
}

/// Whether no row of a table has a digest.
pub open spec fn no_row_with(table: Seq<Seq<Datum>>, sighash: Seq<u8>) -> bool {
    forall|j: int|
        0 <= j < table.len() ==> (#[trigger] table[j])[4] != Datum::Bytes(sighash)
}

/// A table gives the only row with a digest, and nothing where there is none.
proof fn only_row_is_found(table: Seq<Seq<Datum>>, k: int, sighash: Seq<u8>)
    ensures
        only_row_with(table, k, sighash) ==> signing_found(table, sighash) == seq![
            table[k].skip(8),
        ],
        no_row_with(table, sighash) ==> signing_found(table, sighash) == Seq::<
            Seq<Datum>,
        >::empty(),
    decreases table.len(),
{
    if table.len() > 0 {
        let rest = table.drop_last();
        only_row_is_found(rest, k, sighash);
        assert(table.last() == table[table.len() - 1]);
        assert forall|j: int| 0 <= j < rest.len() implies #[trigger] rest[j] == table[j] by {}
        if only_row_with(table, k, sighash) && k < rest.len() {
            assert(rest[k] == table[k]);
        }
    }
}

/// The rows that digests are stored as.
pub open spec fn stored_digests(sighashes: Seq<BitcoinTxSigHash>) -> Seq<Seq<Datum>> {
    Seq::new(
        sighashes.len(),
        |i: int| row_at(params_of(write_bitcoin_txs_sighashes_step(sighashes)), i),
    )
}

/// After digests were stored, each of them that conflicts with no other row is
/// found in the table with its signing, and a digest of no row is not found,
/// rather than found as one that is not signed.
pub proof fn stored_digests_are_found(
    earlier: Seq<Seq<Datum>>,
    sighashes: Seq<BitcoinTxSigHash>,
    sighash: Seq<u8>,
    before: Database,
    rows_affected: u64,
    after: Database,
)
    requires
        run::<Execute>(write_bitcoin_txs_sighashes_step(sighashes), before) is Ok,
        after(
            ActionView::Run(
                query::<(bool, PublicKeyXOnly)>(
                    sql::WILL_SIGN_BITCOIN_TX_SIGHASH,
                    Fetch::Optional,
                    seq![Datum::Bytes(sighash)],
                ),
            ),
        ) == rows_reply(
            signing_found(earlier + stored_digests(sighashes), sighash),
            rows_affected,
        ),
    ensures
        forall|i: int|
            0 <= i < sighashes.len() && only_row_with(
                earlier + stored_digests(sighashes),
                earlier.len() + i,
                sighash,
            ) ==> run::<FetchOptional<(bool, PublicKeyXOnly)>>(
                will_sign_bitcoin_tx_sighash_step(sighash),
                after,
            ) == Ok::<Option<Seq<Datum>>, StoreError>(
                Some(((#[trigger] sighashes[i]).will_sign, sighashes[i].aggregate_key).row()),
            ),
        no_row_with(earlier + stored_digests(sighashes), sighash) ==> run::<
            FetchOptional<(bool, PublicKeyXOnly)>,
        >(will_sign_bitcoin_tx_sighash_step(sighash), after) == Ok::<
            Option<Seq<Datum>>,
            StoreError,
        >(None),
{
    let table = earlier + stored_digests(sighashes);
    assert forall|i: int|
        0 <= i < sighashes.len() && only_row_with(table, earlier.len() + i, sighash) implies run::<
        FetchOptional<(bool, PublicKeyXOnly)>,
    >(will_sign_bitcoin_tx_sighash_step(sighash), after) == Ok::<Option<Seq<Datum>>, StoreError>(
        Some(((#[trigger] sighashes[i]).will_sign, sighashes[i].aggregate_key).row()),
    ) by {
        only_row_is_found(table, earlier.len() + i, sighash);
        assert(table[earlier.len() + i] == row_at(sighashes_params(sighashes), i));
        assert(table[earlier.len() + i][4] == Datum::Bytes(sighashes[i].sighash.0@));
        signing_reads_back(sighashes, i, before, rows_affected, after);
    }
    if no_row_with(table, sighash) {
        only_row_is_found(table, 0, sighash);
        signing_of_unknown_digest(sighash, rows_affected, after);
    }
}

} // verus!
