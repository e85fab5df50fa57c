//! What the operations on deposits give, by the rows that the database has.

use crate::by_name::{
    all_rows_are_read_by_name, column, flag, found, found_data_is_given, height, block_hash,
    in_integer, optional_row_is_read_by_name, reads_all, reads_optional, serves, Record, Tables,
};
use crate::compose::Then;
use crate::convert::{lock_time_of, LockTime};
use crate::deposits::{
    AcceptedFrom, DepositConfirmationStatus, DepositQueryView, DepositReportView,
    DepositRequestReport, GetDepositReport, GetDepositSummary, SweptDepositsFrom,
};
use crate::error::StoreError;
use crate::fetch::{row_view, rows_view, FetchOptional};
use crate::keys::RotationView;
use crate::laws::{
    deposit_summary, deposit_request_report, accepted_deposits, with_stacks_chain_tip,
    without_stacks_chain_tip,
};
use crate::model::{
    BitcoinBlock, BitcoinBlockHash, BitcoinBlockHeight, BitcoinTxId, DepositRequest,
    DkgSharesStatus, EncryptedDkgShares, PublicKey, StacksBlock, SweptDepositRequest,
};
use crate::procedure::{run, step_view, Database, Operation, Step};
use crate::records::DepositStatusSummary;
use crate::row::FromRow;
use crate::sql;
use crate::store::PgStore;
use crate::value::{Datum, Fetch, Kind};
use vstd::prelude::*;

verus! {

/// The summary of a deposit request is missing where the request has no height,
/// and is otherwise the one that the database gives for the tip, the least
/// height, the output and the signer.
pub proof fn deposit_summary_is_read<P>(
    store: PgStore<P>,
    chain_tip: BitcoinBlockHash,
    txid: BitcoinTxId,
    output_index: u32,
    signer_public_key: PublicKey,
    step: Step<GetDepositSummary, Option<DepositStatusSummary>>,
    least: Option<BitcoinBlockHeight>,
    tables: Tables,
    database: Database,
)
    requires
        call_ensures(
            PgStore::<P>::get_deposit_request_status_summary,
            (&store, &chain_tip, &txid, output_index, &signer_public_key),
            step,
        ),
        serves(database, tables),
        found::<BitcoinBlockHeight>(
            tables(
                sql::GET_DEPOSIT_REQUEST_LEAST_HEIGHT,
                Fetch::Optional,
                seq![Datum::Bytes(txid.0@), Datum::Int4(output_index as int)],
            ),
            least,
        ),
    ensures
        !in_integer(output_index as int) ==> run::<GetDepositSummary>(step_view(step), database)
            == Err::<Option<Seq<Datum>>, _>(StoreError::ConversionDatabaseInt),
        in_integer(output_index as int) ==> match least {
            Some(height) => reads_optional::<DepositStatusSummary>(
                run::<GetDepositSummary>(step_view(step), database),
                tables(
                    sql::GET_DEPOSIT_REQUEST_STATUS_SUMMARY,
                    Fetch::Optional,
                    seq![
                        Datum::Bytes(chain_tip.0@),
                        Datum::Int8(height.0 as int),
                        Datum::Bytes(txid.0@),
                        Datum::Int4(output_index as int),
                        Datum::Bytes(signer_public_key.0@),
                    ],
                ),
            ),
            None => run::<GetDepositSummary>(step_view(step), database) == Ok::<
                Option<Seq<Datum>>,
                StoreError,
            >(None),
        },
{
    let query = DepositQueryView {
        chain_tip: chain_tip.0@,
        txid: txid.0@,
        output_index: output_index as int,
        signer_public_key: signer_public_key.0@,
    };
    deposit_summary(query, database);
    found_data_is_given::<BitcoinBlockHeight>(
        sql::GET_DEPOSIT_REQUEST_LEAST_HEIGHT,
        seq![Datum::Bytes(txid.0@), Datum::Int4(output_index as int)],
        least,
        tables,
        database,
    );
    assert(FetchOptional::<BitcoinBlockHeight>::output(least) == row_view(least));
    if let Some(height) = least {
        optional_row_is_read_by_name::<DepositStatusSummary>(
            sql::GET_DEPOSIT_REQUEST_STATUS_SUMMARY,
            seq![
                Datum::Bytes(chain_tip.0@),
                Datum::Int8(height.0 as int),
                Datum::Bytes(txid.0@),
                Datum::Int4(output_index as int),
                Datum::Bytes(signer_public_key.0@),
            ],
            tables,
            database,
        );
    }
}

/// Whether a lock time is the one that a number below 2^31 stands for: its lowest
/// 16 bits, as time if the 23rd bit is set and as blocks if it is not.
pub open spec fn is_lock_time(number: int, lock_time: LockTime) -> bool {
    match lock_time {
        LockTime::Time(count) => (number / 0x40_0000) % 2 == 1 && count == number % 0x1_0000,
        LockTime::Blocks(count) => (number / 0x40_0000) % 2 == 0 && count == number % 0x1_0000,
    }
}

/// A number stands for a lock time exactly where it is below 2^31.
pub proof fn lock_time_is_in_low_bits(number: u32)
    ensures
        match lock_time_of(number) {
            Some(lock_time) => number < 0x8000_0000 && is_lock_time(number as int, lock_time),
            None => number >= 0x8000_0000,
        },
{
    assert(number & 0x8000_0000 != 0 <==> number >= 0x8000_0000) by (bit_vector);
    assert(number & 0x0040_0000 != 0 <==> (number / 0x40_0000) % 2 == 1) by (bit_vector);
    assert(number & 0xffff == number % 0x1_0000) by (bit_vector);
    assert(number & 0xffff <= 0xffff) by (bit_vector);
}

/// Whether a status is the one of a deposit of which a row tells: unconfirmed
/// unless the row has the block that confirms it; and then spent by the
/// transaction that swept it, or else confirmed in that block.
pub open spec fn is_status_of(
    record: Record,
    sweep: Option<BitcoinTxId>,
    status: DepositConfirmationStatus,
) -> bool {
    let block_height = record(column("block_height", Kind::Int8));
    let block_hash = record(column("block_hash", Kind::Bytes));
    if block_height is Null || block_hash is Null {
        status is Unconfirmed
    } else {
        match sweep {
            Some(txid) => status matches DepositConfirmationStatus::Spent(by) && by.0@ == txid.0@,
            None => {
                &&& status matches DepositConfirmationStatus::Confirmed(height, hash)
                &&& block_height == Datum::Int8(height.0 as int)
                &&& block_hash == Datum::Bytes(hash.0@)
            },
        }
    }
}

/// Whether a report on a deposit is the one of which a row tells, given the
/// output, the transaction that swept it and the shares of its key.
pub open spec fn is_deposit_report(
    report: DepositRequestReport,
    record: Record,
    txid: BitcoinTxId,
    output_index: u32,
    sweep: Option<BitcoinTxId>,
    shares: Option<EncryptedDkgShares>,
) -> bool {
    &&& record(column("can_accept", Kind::Bool)) == flag(report.can_accept)
    &&& record(column("can_sign", Kind::Bool)) == flag(report.can_sign)
    &&& record(column("amount", Kind::Int8)) == Datum::Int8(report.amount as int)
    &&& record(column("max_fee", Kind::Int8)) == Datum::Int8(report.max_fee as int)
    &&& record(column("lock_time", Kind::Int8)) matches Datum::Int8(number) && is_lock_time(
        number,
        report.lock_time,
    )
    &&& record(column("deposit_script", Kind::Bytes)) == Datum::Bytes(report.deposit_script.0@)
    &&& record(column("reclaim_script", Kind::Bytes)) == Datum::Bytes(report.reclaim_script.0@)
    &&& record(column("signers_public_key", Kind::Bytes)) == Datum::Bytes(
        report.signers_public_key.0@,
    )
    &&& report.outpoint.txid.0@ == txid.0@
    &&& report.outpoint.vout == output_index
    &&& is_status_of(record, sweep, report.status)
    &&& match shares {
        Some(shares) => report.dkg_shares_status == Some(shares.dkg_shares_status),
        None => report.dkg_shares_status is None,
    }
}

/// The report on a deposit request tells what the row tells that the database
/// gives for the tip, the least height of the deposit, the output and the signer.
/// It is refused where the lock time is not in force, and missing where there is
/// no height or no row.
pub proof fn deposit_report_is_read<P>(
    store: PgStore<P>,
    chain_tip: BitcoinBlockHash,
    txid: BitcoinTxId,
    output_index: u32,
    signer_public_key: PublicKey,
    step: Step<GetDepositReport, Option<DepositRequestReport>>,
    least: BitcoinBlockHeight,
    summary: Option<DepositStatusSummary>,
    sweep: Option<BitcoinTxId>,
    shares: Option<EncryptedDkgShares>,
    got: Option<DepositRequestReport>,
    tables: Tables,
    database: Database,
)
    requires
        call_ensures(
            PgStore::<P>::get_deposit_request_report,
            (&store, &chain_tip, &txid, output_index, &signer_public_key),
            step,
        ),
        serves(database, tables),
        in_integer(output_index as int),
        found::<BitcoinBlockHeight>(
            tables(
                sql::GET_DEPOSIT_REQUEST_LEAST_HEIGHT,
                Fetch::Optional,
                seq![Datum::Bytes(txid.0@), Datum::Int4(output_index as int)],
            ),
            Some(least),
        ),
        found::<DepositStatusSummary>(
            tables(
                sql::GET_DEPOSIT_REQUEST_STATUS_SUMMARY,
                Fetch::Optional,
                seq![
                    Datum::Bytes(chain_tip.0@),
                    Datum::Int8(least.0 as int),
                    Datum::Bytes(txid.0@),
                    Datum::Int4(output_index as int),
                    Datum::Bytes(signer_public_key.0@),
                ],
            ),
            summary,
        ),
        summary matches Some(summary) ==> {
            &&& summary.block_height matches Some(height)
                ==> summary.block_hash is Some ==> found::<
                BitcoinTxId,
            >(
                tables(
                    sql::GET_DEPOSIT_SWEEP_TXID,
                    Fetch::Optional,
                    seq![
                        Datum::Bytes(chain_tip.0@),
                        Datum::Int8(height.0 as int),
                        Datum::Bytes(txid.0@),
                        Datum::Int4(output_index as int),
                    ],
                ),
                sweep,
            )
            &&& found::<EncryptedDkgShares>(
                tables(
                    sql::GET_ENCRYPTED_DKG_SHARES,
                    Fetch::Optional,
                    seq![Datum::Bytes(summary.signers_public_key.0@)],
                ),
                shares,
            )
        },
    ensures
        match summary {
            Some(summary) => if summary.lock_time < 0x8000_0000 {
                &&& run::<GetDepositReport>(step_view(step), database) is Ok
                &&& run::<GetDepositReport>(step_view(step), database) == Ok::<_, StoreError>(
                    GetDepositReport::output(got),
                ) ==> (got matches Some(report) && is_deposit_report(
                    report,
                    tables(
                        sql::GET_DEPOSIT_REQUEST_STATUS_SUMMARY,
                        Fetch::Optional,
                        seq![
                            Datum::Bytes(chain_tip.0@),
                            Datum::Int8(least.0 as int),
                            Datum::Bytes(txid.0@),
                            Datum::Int4(output_index as int),
                            Datum::Bytes(signer_public_key.0@),
                        ],
                    )->Ok_0[0],
                    txid,
                    output_index,
                    sweep,
                    shares,
                ))
            } else {
                run::<GetDepositReport>(step_view(step), database) == Err::<
                    Option<DepositReportView>,
                    _,
                >(StoreError::DisabledLockTime(summary.lock_time))
            },
            None => {
                &&& run::<GetDepositReport>(step_view(step), database) is Ok
                &&& run::<GetDepositReport>(step_view(step), database) == Ok::<_, StoreError>(
                    GetDepositReport::output(got),
                ) ==> got is None
            },
        },
{
    let query = DepositQueryView {
        chain_tip: chain_tip.0@,
        txid: txid.0@,
        output_index: output_index as int,
        signer_public_key: signer_public_key.0@,
    };
    let params = seq![
        Datum::Bytes(chain_tip.0@),
        Datum::Int8(least.0 as int),
        Datum::Bytes(txid.0@),
        Datum::Int4(output_index as int),
        Datum::Bytes(signer_public_key.0@),
    ];
    deposit_request_report(query, database);
    deposit_summary(query, database);
    found_data_is_given::<BitcoinBlockHeight>(
        sql::GET_DEPOSIT_REQUEST_LEAST_HEIGHT,
        seq![Datum::Bytes(txid.0@), Datum::Int4(output_index as int)],
        Some(least),
        tables,
        database,
    );
    assert(FetchOptional::<BitcoinBlockHeight>::output(Some(least)) == Some(least.row()));
    found_data_is_given::<DepositStatusSummary>(
        sql::GET_DEPOSIT_REQUEST_STATUS_SUMMARY,
        params,
        summary,
        tables,
        database,
    );
    assert(FetchOptional::<DepositStatusSummary>::output(summary) == row_view(summary));
    if let Some(summary) = summary {
        let record = tables(
            sql::GET_DEPOSIT_REQUEST_STATUS_SUMMARY,
            Fetch::Optional,
            params,
        )->Ok_0[0];
        found_data_is_given::<EncryptedDkgShares>(
            sql::GET_ENCRYPTED_DKG_SHARES,
            seq![Datum::Bytes(summary.signers_public_key.0@)],
            shares,
            tables,
            database,
        );
        assert(FetchOptional::<EncryptedDkgShares>::output(shares) == row_view(shares));
        if let Some(height) = summary.block_height {
            if summary.block_hash is Some {
                found_data_is_given::<BitcoinTxId>(
                    sql::GET_DEPOSIT_SWEEP_TXID,
                    seq![
                        Datum::Bytes(chain_tip.0@),
                        Datum::Int8(height.0 as int),
                        Datum::Bytes(txid.0@),
                        Datum::Int4(output_index as int),
                    ],
                    sweep,
                    tables,
                    database,
                );
                assert(FetchOptional::<BitcoinTxId>::output(sweep) == row_view(sweep));
            }
        }
        lock_time_is_in_low_bits(summary.lock_time);
        let given = run::<GetDepositReport>(step_view(step), database);
        if summary.lock_time < 0x8000_0000 && given == Ok::<_, StoreError>(
            GetDepositReport::output(got),
        ) {
            let report = got->Some_0;
            assert(given->Ok_0 == Some(report@));
            if let Some(shares) = shares {
                DkgSharesStatus::labels_differ(
                    shares.dkg_shares_status,
                    report.dkg_shares_status->Some_0,
                );
            }
            assert(is_status_of(record, sweep, report.status));
        }
    }
}

/// A deposit request without a height has no report, and an output whose index
/// does not fit is refused.
pub proof fn unknown_deposit_has_no_report<P>(
    store: PgStore<P>,
    chain_tip: BitcoinBlockHash,
    txid: BitcoinTxId,
    output_index: u32,
    signer_public_key: PublicKey,
    step: Step<GetDepositReport, Option<DepositRequestReport>>,
    got: Option<DepositRequestReport>,
    tables: Tables,
    database: Database,
)
    requires
        call_ensures(
            PgStore::<P>::get_deposit_request_report,
            (&store, &chain_tip, &txid, output_index, &signer_public_key),
            step,
        ),
        serves(database, tables),
        found::<BitcoinBlockHeight>(
            tables(
                sql::GET_DEPOSIT_REQUEST_LEAST_HEIGHT,
                Fetch::Optional,
                seq![Datum::Bytes(txid.0@), Datum::Int4(output_index as int)],
            ),
            None,
        ),
    ensures
        !in_integer(output_index as int) ==> run::<GetDepositReport>(step_view(step), database)
            == Err::<Option<DepositReportView>, _>(StoreError::ConversionDatabaseInt),
        in_integer(output_index as int) ==> {
            &&& run::<GetDepositReport>(step_view(step), database) is Ok
            &&& run::<GetDepositReport>(step_view(step), database) == Ok::<_, StoreError>(
                GetDepositReport::output(got),
            ) ==> got is None
        },
{
    let query = DepositQueryView {
        chain_tip: chain_tip.0@,
        txid: txid.0@,
        output_index: output_index as int,
        signer_public_key: signer_public_key.0@,
    };
    deposit_request_report(query, database);
    deposit_summary(query, database);
    let none: Option<BitcoinBlockHeight> = None;
    found_data_is_given::<BitcoinBlockHeight>(
        sql::GET_DEPOSIT_REQUEST_LEAST_HEIGHT,
        seq![Datum::Bytes(txid.0@), Datum::Int4(output_index as int)],
        none,
        tables,
        database,
    );
    assert(FetchOptional::<BitcoinBlockHeight>::output(none) == row_view(none));
}

/// The accepted deposit requests are all those that the database gives for the
/// tip, the window, the threshold and the lowest unlock height: four above the
/// height of the tip. They are refused where that height does not fit, and where
/// the tip is not known.
pub proof fn accepted_deposits_are_read<P>(
    store: PgStore<P>,
    chain_tip: BitcoinBlockHash,
    context_window: u16,
    threshold: u16,
    step: Step<Then<AcceptedFrom>, Vec<DepositRequest>>,
    tip: Option<BitcoinBlock>,
    tables: Tables,
    database: Database,
)
    requires
        call_ensures(
            PgStore::<P>::get_pending_accepted_deposit_requests,
            (&store, &chain_tip, context_window, threshold),
            step,
        ),
        serves(database, tables),
        found::<BitcoinBlock>(
            tables(
                sql::GET_BITCOIN_BLOCK,
                Fetch::Optional,
                seq![Datum::Bytes(chain_tip.0@)],
            ),
            tip,
        ),
    ensures
        match tip {
            Some(tip) => if in_integer(tip.block_height.0 + 4) {
                reads_all::<DepositRequest>(
                    run::<Then<AcceptedFrom>>(step_view(step), database),
                    tables(
                        sql::GET_PENDING_ACCEPTED_DEPOSIT_REQUESTS,
                        Fetch::All,
                        seq![
                            Datum::Bytes(chain_tip.0@),
                            Datum::Int4(context_window as int),
                            Datum::Int4(threshold as int),
                            Datum::Int4(tip.block_height.0 + 4),
                        ],
                    ),
                )
            } else {
                run::<Then<AcceptedFrom>>(step_view(step), database) == Err::<
                    Seq<Seq<Datum>>,
                    _,
                >(StoreError::ConversionDatabaseInt)
            },
            None => run::<Then<AcceptedFrom>>(step_view(step), database) == Err::<
                Seq<Seq<Datum>>,
                _,
            >(StoreError::MissingBitcoinBlock(chain_tip)),
        },
{
    accepted_deposits(chain_tip, context_window, threshold, database);
    found_data_is_given::<BitcoinBlock>(
        sql::GET_BITCOIN_BLOCK,
        seq![Datum::Bytes(chain_tip.0@)],
        tip,
        tables,
        database,
    );
    assert(FetchOptional::<BitcoinBlock>::output(tip) == row_view(tip));
    if let Some(tip) = tip {
        all_rows_are_read_by_name::<DepositRequest>(
            sql::GET_PENDING_ACCEPTED_DEPOSIT_REQUESTS,
            seq![
                Datum::Bytes(chain_tip.0@),
                Datum::Int4(context_window as int),
                Datum::Int4(threshold as int),
                Datum::Int4(tip.block_height.0 + 4),
            ],
            tables,
            database,
        );
    }
}

/// The swept deposit requests are all those that the database gives for the tip,
/// the window and the stacks chain tip; there are none where no stacks block is
/// anchored to the blockchain.
pub proof fn swept_deposits_are_read<P>(
    store: PgStore<P>,
    chain_tip: BitcoinBlockHash,
    context_window: u16,
    step: Step<Then<SweptDepositsFrom>, Vec<SweptDepositRequest>>,
    stacks_tip: Option<StacksBlock>,
    got: Vec<SweptDepositRequest>,
    tables: Tables,
    database: Database,
)
    requires
        call_ensures(
            PgStore::<P>::get_swept_deposit_requests,
            (&store, &chain_tip, context_window),
            step,
        ),
        serves(database, tables),
        found::<StacksBlock>(
            tables(
                sql::GET_STACKS_CHAIN_TIP,
                Fetch::Optional,
                seq![Datum::Bytes(chain_tip.0@)],
            ),
            stacks_tip,
        ),
    ensures
        match stacks_tip {
            Some(stacks_tip) => reads_all::<SweptDepositRequest>(
                run::<Then<SweptDepositsFrom>>(step_view(step), database),
                tables(
                    sql::GET_SWEPT_DEPOSIT_REQUESTS,
                    Fetch::All,
                    seq![
                        Datum::Bytes(chain_tip.0@),
                        Datum::Int4(context_window as int),
                        Datum::Bytes(stacks_tip.block_hash.0@),
                    ],
                ),
            ),
            None => {
                &&& run::<Then<SweptDepositsFrom>>(step_view(step), database) is Ok
                &&& run::<Then<SweptDepositsFrom>>(step_view(step), database) == Ok::<
                    _,
                    StoreError,
                >(Then::<SweptDepositsFrom>::output(got)) ==> got@.len() == 0
            },
        },
{
    found_data_is_given::<StacksBlock>(
        sql::GET_STACKS_CHAIN_TIP,
        seq![Datum::Bytes(chain_tip.0@)],
        stacks_tip,
        tables,
        database,
    );
    assert(FetchOptional::<StacksBlock>::output(stacks_tip) == row_view(stacks_tip));
    let rotation = RotationView {
        signer_set: Seq::empty(),
        aggregate_key: Seq::empty(),
        signatures_required: 0,
    };
    match stacks_tip {
        Some(stacks_tip) => {
            let tip = stacks_tip.row();
            let key = Seq::<u8>::empty();
            with_stacks_chain_tip(chain_tip.0@, 0, context_window, key, rotation, tip, database);
            all_rows_are_read_by_name::<SweptDepositRequest>(
                sql::GET_SWEPT_DEPOSIT_REQUESTS,
                seq![
                    Datum::Bytes(chain_tip.0@),
                    Datum::Int4(context_window as int),
                    Datum::Bytes(stacks_tip.block_hash.0@),
                ],
                tables,
                database,
            );
        },
        None => {
            let key = Seq::<u8>::empty();
            without_stacks_chain_tip(chain_tip.0@, 0, context_window, key, rotation, database);
            assert(Then::<SweptDepositsFrom>::output(got) == rows_view(got@));
            assert(rows_view(got@).len() == got@.len());
        },
    }
}

} // verus!
