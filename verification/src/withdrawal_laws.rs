//! What the operations on withdrawals give, by the rows that the database has.

use crate::by_name::{
    all_rows_are_read_by_name, column, flag, found, found_data_is_given, height, block_hash,
    in_bigint, known_data_is_given, one_row_is_read_by_name, reads_all, reads_one, serves, Record,
    Tables,
};
use crate::chain::get_stacks_chain_tip_step;
use crate::compose::{run_then, Then};
use crate::error::StoreError;
use crate::fetch::{row_view, rows_view, FetchOne, FetchOptional};
use crate::keys::RotationView;
use crate::laws::{
    withdrawal_inflight, withdrawal_active, withdrawal_request_report, with_stacks_chain_tip,
    without_stacks_chain_tip,
};
use crate::model::{
    BitcoinBlockHash, BitcoinBlockHeight, BitcoinBlockRef, BitcoinTxRef, PublicKey,
    QualifiedRequestId, SignerUtxo, StacksBlock, StacksBlockHash, SweptWithdrawalRequest,
    WithdrawalRequest,
};
use crate::procedure::{run, step_view, Database, Operation, Step};
use crate::records::WithdrawalStatusSummary;
use crate::row::FromRow;
use crate::sql;
use crate::store::PgStore;
use crate::sweeps::{utxo_step, GetSignerUtxo};
use crate::value::{Datum, Fetch, Kind};
use crate::withdrawals::{
    GetWithdrawalReport, IsWithdrawalActive, IsWithdrawalInflight, PendingFrom, RejectedFrom,
    SweepSinceView, SweptWithdrawalsFrom, WithdrawalReportView, WithdrawalRequestReport,
    WithdrawalRequestStatus,
};
use vstd::prelude::*;

verus! {

/// Whether a report on a withdrawal request is the one of which a row tells, given
/// the request, the transaction that paid it, and whether the stacks block with
/// the request is part of the blockchain.
pub open spec fn is_withdrawal_report(
    report: WithdrawalRequestReport,
    record: Record,
    id: QualifiedRequestId,
    payment: Option<BitcoinTxRef>,
    confirmed: bool,
) -> bool {
    &&& record(column("is_accepted", Kind::Bool)) == flag(report.is_accepted)
    &&& record(column("amount", Kind::Int8)) == Datum::Int8(report.amount as int)
    &&& record(column("max_fee", Kind::Int8)) == Datum::Int8(report.max_fee as int)
    &&& record(column("recipient", Kind::Bytes)) == Datum::Bytes(report.recipient.0@)
    &&& record(column("bitcoin_block_height", Kind::Int8)) == Datum::Int8(
        report.bitcoin_block_height.0 as int,
    )
    &&& report.id == id
    &&& match payment {
        Some(payment) => report.status matches WithdrawalRequestStatus::Fulfilled(by)
            && by.txid.0@ == payment.txid.0@ && by.block_hash.0@ == payment.block_hash.0@,
        None => if confirmed {
            report.status is Confirmed
        } else {
            report.status is Unconfirmed
        },
    }
}

/// The report on a withdrawal request tells what the row tells that the database
/// gives for the request and the signer, and is missing where there is no row.
pub proof fn withdrawal_report_is_read<P>(
    store: PgStore<P>,
    bitcoin_chain_tip: BitcoinBlockHash,
    stacks_chain_tip: StacksBlockHash,
    id: QualifiedRequestId,
    signer_public_key: PublicKey,
    step: Step<GetWithdrawalReport, Option<WithdrawalRequestReport>>,
    summary: Option<WithdrawalStatusSummary>,
    payment: Option<BitcoinTxRef>,
    confirmed: bool,
    got: Option<WithdrawalRequestReport>,
    tables: Tables,
    database: Database,
)
    requires
        call_ensures(
            PgStore::<P>::get_withdrawal_request_report,
            (&store, &bitcoin_chain_tip, &stacks_chain_tip, &id, &signer_public_key),
            step,
        ),
        serves(database, tables),
        in_bigint(id.request_id as int),
        found::<WithdrawalStatusSummary>(
            tables(
                sql::GET_WITHDRAWAL_REQUEST_STATUS_SUMMARY,
                Fetch::Optional,
                seq![
                    Datum::Bytes(signer_public_key.0@),
                    Datum::Int8(id.request_id as int),
                    Datum::Bytes(id.block_hash.0@),
                ],
            ),
            summary,
        ),
        summary matches Some(summary) ==> {
            &&& found::<BitcoinTxRef>(
                tables(
                    sql::GET_WITHDRAWAL_SWEEP_INFO,
                    Fetch::Optional,
                    seq![
                        Datum::Bytes(bitcoin_chain_tip.0@),
                        Datum::Int8(id.request_id as int),
                        Datum::Bytes(id.block_hash.0@),
                    ],
                ),
                payment,
            )
            &&& payment is None ==> found::<bool>(
                tables(
                    sql::IN_CANONICAL_STACKS_BLOCKCHAIN,
                    Fetch::One,
                    seq![
                        Datum::Bytes(stacks_chain_tip.0@),
                        Datum::Int8(summary.stacks_block_height.0 as int),
                        Datum::Bytes(summary.stacks_block_hash.0@),
                    ],
                ),
                Some(confirmed),
            )
        },
    ensures
        run::<GetWithdrawalReport>(step_view(step), database) is Ok,
        run::<GetWithdrawalReport>(step_view(step), database) == Ok::<_, StoreError>(
            GetWithdrawalReport::output(got),
        ) ==> match summary {
            Some(_) => got matches Some(report) && is_withdrawal_report(
                report,
                tables(
                    sql::GET_WITHDRAWAL_REQUEST_STATUS_SUMMARY,
                    Fetch::Optional,
                    seq![
                        Datum::Bytes(signer_public_key.0@),
                        Datum::Int8(id.request_id as int),
                        Datum::Bytes(id.block_hash.0@),
                    ],
                )->Ok_0[0],
                id,
                payment,
                confirmed,
            ),
            None => got is None,
        },
{
    let params = seq![
        Datum::Bytes(signer_public_key.0@),
        Datum::Int8(id.request_id as int),
        Datum::Bytes(id.block_hash.0@),
    ];
    withdrawal_request_report(
        bitcoin_chain_tip.0@,
        stacks_chain_tip.0@,
        id,
        signer_public_key.0@,
        database,
    );
    found_data_is_given::<WithdrawalStatusSummary>(
        sql::GET_WITHDRAWAL_REQUEST_STATUS_SUMMARY,
        params,
        summary,
        tables,
        database,
    );
    assert(FetchOptional::<WithdrawalStatusSummary>::output(summary) == row_view(summary));
    if let Some(summary) = summary {
        found_data_is_given::<BitcoinTxRef>(
            sql::GET_WITHDRAWAL_SWEEP_INFO,
            seq![
                Datum::Bytes(bitcoin_chain_tip.0@),
                Datum::Int8(id.request_id as int),
                Datum::Bytes(id.block_hash.0@),
            ],
            payment,
            tables,
            database,
        );
        assert(FetchOptional::<BitcoinTxRef>::output(payment) == row_view(payment));
        if payment is None {
            known_data_is_given::<bool>(
                sql::IN_CANONICAL_STACKS_BLOCKCHAIN,
                seq![
                    Datum::Bytes(stacks_chain_tip.0@),
                    Datum::Int8(summary.stacks_block_height.0 as int),
                    Datum::Bytes(summary.stacks_block_hash.0@),
                ],
                confirmed,
                tables,
                database,
            );
            assert(FetchOne::<bool>::output(confirmed) == confirmed.row());
        }
        let given = run::<GetWithdrawalReport>(step_view(step), database);
        if given == Ok::<_, StoreError>(GetWithdrawalReport::output(got)) {
            let report = got->Some_0;
            assert(given->Ok_0 == Some(report@));
            if let Some(payment) = payment {
                if let WithdrawalRequestStatus::Fulfilled(by) = report.status {
                    assert(by.row()[0] == payment.row()[0]);
                    assert(by.row()[1] == payment.row()[1]);
                }
            }
        }
    }
}

/// A request whose ID does not fit has no report: it is refused.
pub proof fn large_withdrawal_is_refused<P>(
    store: PgStore<P>,
    bitcoin_chain_tip: BitcoinBlockHash,
    stacks_chain_tip: StacksBlockHash,
    id: QualifiedRequestId,
    signer_public_key: PublicKey,
    step: Step<GetWithdrawalReport, Option<WithdrawalRequestReport>>,
    database: Database,
)
    requires
        call_ensures(
            PgStore::<P>::get_withdrawal_request_report,
            (&store, &bitcoin_chain_tip, &stacks_chain_tip, &id, &signer_public_key),
            step,
        ),
        !in_bigint(id.request_id as int),
    ensures
        run::<GetWithdrawalReport>(step_view(step), database) == Err::<
            Option<WithdrawalReportView>,
            _,
        >(StoreError::ConversionDatabaseInt),
{
}

/// The pending withdrawal requests are all those that the database gives for the
/// tip, the stacks chain tip, the window and the signer; there are none where no
/// stacks block is anchored to the blockchain.
pub proof fn pending_withdrawals_are_read<P>(
    store: PgStore<P>,
    chain_tip: BitcoinBlockHash,
    context_window: u16,
    signer_public_key: PublicKey,
    step: Step<Then<PendingFrom>, Vec<WithdrawalRequest>>,
    stacks_tip: Option<StacksBlock>,
    got: Vec<WithdrawalRequest>,
    tables: Tables,
    database: Database,
)
    requires
        call_ensures(
            PgStore::<P>::get_pending_withdrawal_requests,
            (&store, &chain_tip, context_window, &signer_public_key),
            step,
        ),
        serves(database, tables),
        found::<StacksBlock>(
            tables(
                sql::GET_STACKS_CHAIN_TIP,
                Fetch::Optional,
                seq![Datum::Bytes(chain_tip.0@)],
            ),
            stacks_tip,
        ),
    ensures
        match stacks_tip {
            Some(stacks_tip) => reads_all::<WithdrawalRequest>(
                run::<Then<PendingFrom>>(step_view(step), database),
                tables(
                    sql::GET_PENDING_WITHDRAWAL_REQUESTS,
                    Fetch::All,
                    seq![
                        Datum::Bytes(chain_tip.0@),
                        Datum::Bytes(stacks_tip.block_hash.0@),
                        Datum::Int4(context_window as int),
                        Datum::Bytes(signer_public_key.0@),
                    ],
                ),
            ),
            None => {
                &&& run::<Then<PendingFrom>>(step_view(step), database) is Ok
                &&& run::<Then<PendingFrom>>(step_view(step), database) == Ok::<_, StoreError>(
                    Then::<PendingFrom>::output(got),
                ) ==> got@.len() == 0
            },
        },
{
    found_data_is_given::<StacksBlock>(
        sql::GET_STACKS_CHAIN_TIP,
        seq![Datum::Bytes(chain_tip.0@)],
        stacks_tip,
        tables,
        database,
    );
    assert(FetchOptional::<StacksBlock>::output(stacks_tip) == row_view(stacks_tip));
    let key = signer_public_key.0@;
    let rotation = RotationView {
        signer_set: Seq::empty(),
        aggregate_key: Seq::empty(),
        signatures_required: 0,
    };
    match stacks_tip {
        Some(stacks_tip) => {
            let tip = stacks_tip.row();
            with_stacks_chain_tip(
                chain_tip.0@,
                0,
                context_window,
                key,
                rotation,
                tip,
                database,
            );
            all_rows_are_read_by_name::<WithdrawalRequest>(
                sql::GET_PENDING_WITHDRAWAL_REQUESTS,
                seq![
                    Datum::Bytes(chain_tip.0@),
                    Datum::Bytes(stacks_tip.block_hash.0@),
                    Datum::Int4(context_window as int),
                    Datum::Bytes(signer_public_key.0@),
                ],
                tables,
                database,
            );
        },
        None => {
            without_stacks_chain_tip(
                chain_tip.0@,
                0,
                context_window,
                key,
                rotation,
                database,
            );
            assert(Then::<PendingFrom>::output(got) == rows_view(got@));
            assert(rows_view(got@).len() == got@.len());
        },
    }
}

/// The height 24 blocks below a height, or zero.
pub open spec fn expired_below(height: BitcoinBlockHeight) -> int {
    if height.0 < 24 {
        0
    } else {
        height.0 - 24
    }
}

/// The rejected withdrawal requests are all those that the database gives for the
/// tip, the window, the stacks chain tip and the height 24 blocks below the tip;
/// there are none where no stacks block is anchored to the blockchain.
pub proof fn rejected_withdrawals_are_read<P>(
    store: PgStore<P>,
    chain_tip: BitcoinBlockRef,
    context_window: u16,
    step: Step<Then<RejectedFrom>, Vec<WithdrawalRequest>>,
    stacks_tip: Option<StacksBlock>,
    got: Vec<WithdrawalRequest>,
    tables: Tables,
    database: Database,
)
    requires
        call_ensures(
            PgStore::<P>::get_pending_rejected_withdrawal_requests,
            (&store, &chain_tip, context_window),
            step,
        ),
        serves(database, tables),
        found::<StacksBlock>(
            tables(
                sql::GET_STACKS_CHAIN_TIP,
                Fetch::Optional,
                seq![Datum::Bytes(chain_tip.block_hash.0@)],
            ),
            stacks_tip,
        ),
    ensures
        match stacks_tip {
            Some(stacks_tip) => if in_bigint(expired_below(chain_tip.block_height)) {
                reads_all::<WithdrawalRequest>(
                run::<Then<RejectedFrom>>(step_view(step), database),
                tables(
                    sql::GET_PENDING_REJECTED_WITHDRAWAL_REQUESTS,
                    Fetch::All,
                    seq![
                        Datum::Bytes(chain_tip.block_hash.0@),
                        Datum::Int4(context_window as int),
                        Datum::Bytes(stacks_tip.block_hash.0@),
                        Datum::Int8(expired_below(chain_tip.block_height)),
                    ],
                ),
            )
            } else {
                run::<Then<RejectedFrom>>(step_view(step), database) == Err::<Seq<Seq<Datum>>, _>(
                    StoreError::ConversionDatabaseInt,
                )
            },
            None => {
                &&& run::<Then<RejectedFrom>>(step_view(step), database) is Ok
                &&& run::<Then<RejectedFrom>>(step_view(step), database) == Ok::<_, StoreError>(
                    Then::<RejectedFrom>::output(got),
                ) ==> got@.len() == 0
            },
        },
{
    found_data_is_given::<StacksBlock>(
        sql::GET_STACKS_CHAIN_TIP,
        seq![Datum::Bytes(chain_tip.block_hash.0@)],
        stacks_tip,
        tables,
        database,
    );
    assert(FetchOptional::<StacksBlock>::output(stacks_tip) == row_view(stacks_tip));
    let key = Seq::<u8>::empty();
    let rotation = RotationView {
        signer_set: Seq::empty(),
        aggregate_key: Seq::empty(),
        signatures_required: 0,
    };
    match stacks_tip {
        Some(stacks_tip) => {
            run_then::<RejectedFrom>(
                get_stacks_chain_tip_step(chain_tip.block_hash.0@),
                (chain_tip.block_hash.0@, chain_tip.block_height.0 as int, context_window),
                database,
            );
            let tip = stacks_tip.row();
            with_stacks_chain_tip(
                chain_tip.block_hash.0@,
                chain_tip.block_height.0 as int,
                context_window,
                key,
                rotation,
                tip,
                database,
            );
            all_rows_are_read_by_name::<WithdrawalRequest>(
                sql::GET_PENDING_REJECTED_WITHDRAWAL_REQUESTS,
                seq![
                    Datum::Bytes(chain_tip.block_hash.0@),
                    Datum::Int4(context_window as int),
                    Datum::Bytes(stacks_tip.block_hash.0@),
                    Datum::Int8(expired_below(chain_tip.block_height)),
                ],
                tables,
                database,
            );
        },
        None => {
            without_stacks_chain_tip(
                chain_tip.block_hash.0@,
                chain_tip.block_height.0 as int,
                context_window,
                key,
                rotation,
                database,
            );
            assert(Then::<RejectedFrom>::output(got) == rows_view(got@));
            assert(rows_view(got@).len() == got@.len());
        },
    }
}

/// The paid withdrawal requests are all those that the database gives for the tip,
/// the window and the stacks chain tip; there are none where no stacks block is
/// anchored to the blockchain.
pub proof fn swept_withdrawals_are_read<P>(
    store: PgStore<P>,
    chain_tip: BitcoinBlockHash,
    context_window: u16,
    step: Step<Then<SweptWithdrawalsFrom>, Vec<SweptWithdrawalRequest>>,
    stacks_tip: Option<StacksBlock>,
    got: Vec<SweptWithdrawalRequest>,
    tables: Tables,
    database: Database,
)
    requires
        call_ensures(
            PgStore::<P>::get_swept_withdrawal_requests,
            (&store, &chain_tip, context_window),
            step,
        ),
        serves(database, tables),
        found::<StacksBlock>(
            tables(
                sql::GET_STACKS_CHAIN_TIP,
                Fetch::Optional,
                seq![Datum::Bytes(chain_tip.0@)],
            ),
            stacks_tip,
        ),
    ensures
        match stacks_tip {
            Some(stacks_tip) => reads_all::<SweptWithdrawalRequest>(
                run::<Then<SweptWithdrawalsFrom>>(step_view(step), database),
                tables(
                    sql::GET_SWEPT_WITHDRAWAL_REQUESTS,
                    Fetch::All,
                    seq![
                        Datum::Bytes(chain_tip.0@),
                        Datum::Int4(context_window as int),
                        Datum::Bytes(stacks_tip.block_hash.0@),
                    ],
                ),
            ),
            None => {
                &&& run::<Then<SweptWithdrawalsFrom>>(step_view(step), database) is Ok
                &&& run::<Then<SweptWithdrawalsFrom>>(step_view(step), database)
                    == Ok::<_, StoreError>(
                    Then::<SweptWithdrawalsFrom>::output(got),
                ) ==> got@.len() == 0
            },
        },
{
    found_data_is_given::<StacksBlock>(
        sql::GET_STACKS_CHAIN_TIP,
        seq![Datum::Bytes(chain_tip.0@)],
        stacks_tip,
        tables,
        database,
    );
    assert(FetchOptional::<StacksBlock>::output(stacks_tip) == row_view(stacks_tip));
    let key = Seq::<u8>::empty();
    let rotation = RotationView {
        signer_set: Seq::empty(),
        aggregate_key: Seq::empty(),
        signatures_required: 0,
    };
    match stacks_tip {
        Some(stacks_tip) => {
            let tip = stacks_tip.row();
            with_stacks_chain_tip(
                chain_tip.0@,
                0,
                context_window,
                key,
                rotation,
                tip,
                database,
            );
            all_rows_are_read_by_name::<SweptWithdrawalRequest>(
                sql::GET_SWEPT_WITHDRAWAL_REQUESTS,
                seq![
                    Datum::Bytes(chain_tip.0@),
                    Datum::Int4(context_window as int),
                    Datum::Bytes(stacks_tip.block_hash.0@),
                ],
                tables,
                database,
            );
        },
        None => {
            without_stacks_chain_tip(
                chain_tip.0@,
                0,
                context_window,
                key,
                rotation,
                database,
            );
            assert(Then::<SweptWithdrawalsFrom>::output(got) == rows_view(got@));
            assert(rows_view(got@).len() == got@.len());
        },
    }
}

/// A withdrawal request is in flight exactly where the database says so for the
/// transaction of the signers' output and the request; without such an output it
/// is not.
pub proof fn withdrawal_in_flight_is_told<P>(
    store: PgStore<P>,
    id: QualifiedRequestId,
    bitcoin_chain_tip: BitcoinBlockHash,
    step: Step<IsWithdrawalInflight, bool>,
    utxo_step: Step<GetSignerUtxo, Option<SignerUtxo>>,
    utxo: Option<SignerUtxo>,
    got: bool,
    tables: Tables,
    database: Database,
)
    requires
        call_ensures(
            PgStore::<P>::is_withdrawal_inflight,
            (&store, &id, &bitcoin_chain_tip),
            step,
        ),
        call_ensures(PgStore::<P>::get_signer_utxo, (&store, &bitcoin_chain_tip), utxo_step),
        serves(database, tables),
    ensures
        run::<GetSignerUtxo>(step_view(utxo_step), database) == Ok::<_, StoreError>(
            GetSignerUtxo::output(utxo),
        ) ==> match utxo {
            Some(utxo) => if in_bigint(id.request_id as int) {
                reads_one::<bool>(
                    run::<IsWithdrawalInflight>(step_view(step), database),
                    tables(
                        sql::IS_WITHDRAWAL_INFLIGHT,
                        Fetch::One,
                        seq![
                            Datum::Bytes(utxo.outpoint.txid.0@),
                            Datum::Int8(id.request_id as int),
                            Datum::Bytes(id.block_hash.0@),
                        ],
                    ),
                )
            } else {
                run::<IsWithdrawalInflight>(step_view(step), database) == Err::<Seq<Datum>, _>(
                    StoreError::ConversionDatabaseInt,
                )
            },
            None => {
                &&& run::<IsWithdrawalInflight>(step_view(step), database) is Ok
                &&& run::<IsWithdrawalInflight>(step_view(step), database) == Ok::<
                    _,
                    StoreError,
                >(IsWithdrawalInflight::output(got)) ==> !got
            },
        },
        run::<GetSignerUtxo>(step_view(utxo_step), database) matches Err(error) ==> run::<
            IsWithdrawalInflight,
        >(step_view(step), database) == Err::<Seq<Datum>, _>(error),
{
    withdrawal_inflight(
        id.request_id as int,
        id.block_hash.0@,
        bitcoin_chain_tip.0@,
        database,
    );
    match utxo {
        Some(utxo) => {
            one_row_is_read_by_name::<bool>(
                sql::IS_WITHDRAWAL_INFLIGHT,
                seq![
                    Datum::Bytes(utxo.outpoint.txid.0@),
                    Datum::Int8(id.request_id as int),
                    Datum::Bytes(id.block_hash.0@),
                ],
                tables,
                database,
            );
        },
        None => {
            assert(IsWithdrawalInflight::output(got) == got.row());
            assert(got.row()[0] == Datum::Bool(got));
            assert(false.row()[0] == Datum::Bool(false));
        },
    }
}

/// A withdrawal request that the signers never considered is not active. One that
/// they considered at some height is active exactly where no sweep from the next
/// height on is confirmed, or the tip is at most the given number of blocks above
/// the first such sweep.
pub proof fn active_withdrawal_is_told<P>(
    store: PgStore<P>,
    id: QualifiedRequestId,
    bitcoin_chain_tip: BitcoinBlockRef,
    min_confirmations: u64,
    step: Step<IsWithdrawalActive, bool>,
    considered: Option<BitcoinBlockHeight>,
    sweep: Option<BitcoinBlockHeight>,
    got: bool,
    tables: Tables,
    database: Database,
)
    requires
        call_ensures(
            PgStore::<P>::is_withdrawal_active,
            (&store, &id, &bitcoin_chain_tip, min_confirmations),
            step,
        ),
        serves(database, tables),
        found::<Option<BitcoinBlockHeight>>(
            tables(
                sql::LAST_CONSIDERED_HEIGHT,
                Fetch::One,
                seq![Datum::Int8(id.request_id as int), Datum::Bytes(id.block_hash.0@)],
            ),
            Some(considered),
        ),
        considered matches Some(height) ==> found::<BitcoinBlockHeight>(
            tables(
                sql::GET_LEAST_TXO_HEIGHT,
                Fetch::Optional,
                seq![
                    Datum::Bytes(bitcoin_chain_tip.block_hash.0@),
                    Datum::Int8(height.0 + 1),
                ],
            ),
            sweep,
        ),
    ensures
        if in_bigint(id.request_id as int) && (considered matches Some(height) ==> in_bigint(
            height.0 + 1,
        )) {
            &&& run::<IsWithdrawalActive>(step_view(step), database) is Ok
            &&& run::<IsWithdrawalActive>(step_view(step), database) == Ok::<_, StoreError>(
                IsWithdrawalActive::output(got),
            ) ==> got == (considered is Some && (sweep matches Some(sweep)
                ==> bitcoin_chain_tip.block_height.0 <= sweep.0 + min_confirmations))
        } else {
            run::<IsWithdrawalActive>(step_view(step), database) == Err::<bool, _>(
                StoreError::ConversionDatabaseInt,
            )
        },
{
    if in_bigint(id.request_id as int) {
        let state = SweepSinceView {
            chain_tip: bitcoin_chain_tip.block_hash.0@,
            tip_height: bitcoin_chain_tip.block_height.0 as int,
            min_confirmations: min_confirmations as int,
        };
        withdrawal_active(id.request_id as int, id.block_hash.0@, state, database);
        known_data_is_given::<Option<BitcoinBlockHeight>>(
            sql::LAST_CONSIDERED_HEIGHT,
            seq![Datum::Int8(id.request_id as int), Datum::Bytes(id.block_hash.0@)],
            considered,
            tables,
            database,
        );
        assert(FetchOne::<Option<BitcoinBlockHeight>>::output(considered) == considered.row());
        if let Some(height) = considered {
            found_data_is_given::<BitcoinBlockHeight>(
                sql::GET_LEAST_TXO_HEIGHT,
                seq![
                    Datum::Bytes(bitcoin_chain_tip.block_hash.0@),
                    Datum::Int8(height.0 + 1),
                ],
                sweep,
                tables,
                database,
            );
            assert(FetchOptional::<BitcoinBlockHeight>::output(sweep) == row_view(sweep));
        }
    }
}

} // verus!
