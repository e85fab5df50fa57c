//! What the operations of the store give when they run to their end against a
//! database at rest.

use crate::chain::{
    get_bitcoin_block_step, get_stacks_chain_tip_step, in_canonical_stacks_blockchain_step,
};
use crate::compose::{run_converting, run_second, run_then, Then};
use crate::convert::{fits_bigint, fits_integer, saturating_sub};
use crate::deposits::{
    confirmed_status, deposit_report, deposit_shares_step, get_deposit_request_least_height_step,
    get_deposit_request_report_step, get_deposit_request_status_summary_step,
    get_deposit_sweep_txid_step, get_pending_accepted_deposit_requests_step,
    get_swept_deposit_requests_step, is_confirmed, accepted_deposits_step, AcceptedFrom,
    DepositQueryView, DepositReportView, DepositStatusView, GetDepositReport, GetDepositSummary,
    MakeDepositReport, MakeDepositReportView, ReportFrom, SummaryFrom, SweptBy, SweptByView,
    SweptDepositsFrom,
};
use crate::error::StoreError;
use crate::fetch::{
    all_rows, ask_all, ask_execute, ask_one, ask_optional, command, one_row, optional_row, query,
    query_failed, Execute, FetchAll, FetchOne, FetchOptional,
};
use crate::keys::{
    get_encrypted_dkg_shares_step, get_last_key_rotation_step, key_rotation_exists_step, Rotation,
    RotationFrom, RotationView,
};
use crate::limits::MAX_REORG_BLOCK_COUNT;
use crate::model::{
    BitcoinBlock, BitcoinBlockHash, BitcoinBlockHeight, BitcoinTxId, BitcoinTxRef, DepositRequest,
    EncryptedDkgShares, KeyRotationEvent, QualifiedRequestId, StacksBlock, SweptDepositRequest,
    SweptWithdrawalRequest, TxOutputType, WithdrawalRequest,
};
use crate::procedure::{run, Database, StepView};
use crate::records::{DepositStatusSummary, PgCandidateUtxo, WithdrawalStatusSummary};
use crate::row::{as_bool, as_bytes, as_int8, FromRow};
use crate::sql;
use crate::sweeps::{
    get_donation_utxo_step, get_least_txo_height_step, get_signer_utxo_step, get_utxo_step,
    lowest_donation_step, max_transactions, minimum_donation_txo_height_step,
    minimum_utxo_height_step, BackFromCandidate, DonationFrom, GetDonationUtxo, GetSignerUtxo,
    GetUtxo, MinimumUtxoHeight, OrCandidate, OrDonation, UtxoFrom,
};
use crate::value::{ActionView, Datum, Fetch};
use crate::withdrawals::{
    expiration_height, get_pending_rejected_withdrawal_requests_step,
    get_pending_withdrawal_requests_step, get_swept_withdrawal_requests_step,
    get_withdrawal_request_report_step, get_withdrawal_request_status_summary_step,
    get_withdrawal_sweep_info_step, is_withdrawal_active_step, is_withdrawal_inflight_step,
    unpaid_status, withdrawal_report, FewConfirmations, GetWithdrawalReport, InflightFrom,
    IsWithdrawalActive, IsWithdrawalInflight, MakeWithdrawalReport, PaidBy, PaidByView, PendingFrom,
    RejectedFrom, SweepSince, SweepSinceView, SweptWithdrawalsFrom, WithdrawalReportFrom,
    WithdrawalReportFromView, WithdrawalStatusView,
};
use vstd::prelude::*;

verus! {

/// A query for a row that may be missing gives what the database answers.
pub proof fn run_optional<T: FromRow>(sql: &'static str, params: Seq<Datum>, database: Database)
    ensures
        run::<FetchOptional<T>>(ask_optional::<T>(sql, params), database) == optional_row::<T>(
            database(ActionView::Run(query::<T>(sql, Fetch::Optional, params))),
        ),
{
    reveal_with_fuel(run, 2);
}

/// A query for a row that has to be there gives what the database answers.
pub proof fn run_one<T: FromRow>(sql: &'static str, params: Seq<Datum>, database: Database)
    ensures
        run::<FetchOne<T>>(ask_one::<T>(sql, params), database) == one_row::<T>(
            database(ActionView::Run(query::<T>(sql, Fetch::One, params))),
        ),
{
    reveal_with_fuel(run, 2);
}

/// A query for all rows gives what the database answers.
pub proof fn run_all<T: FromRow>(sql: &'static str, params: Seq<Datum>, database: Database)
    ensures
        run::<FetchAll<T>>(ask_all::<T>(sql, params), database) == all_rows::<T>(
            database(ActionView::Run(query::<T>(sql, Fetch::All, params))),
        ),
{
    reveal_with_fuel(run, 2);
}

/// A statement that is run for its effect succeeds where the database does.
pub proof fn run_execute(sql: &'static str, params: Seq<Datum>, database: Database)
    ensures
        run::<Execute>(ask_execute(sql, params), database) == (match database(
            ActionView::Run(command(sql, params)),
        ) {
            Ok(_) => Ok(()),
            Err(error) => Err(query_failed(error)),
        }),
{
    reveal_with_fuel(run, 2);
}

/// What the database gives for the donation that is the signers' funds: nothing
/// if there has been no donation, and otherwise the lowest one that is unspent on
/// the blockchain, which is searched down to the height of the earliest one.
pub proof fn donation_utxo(chain_tip: Seq<u8>, database: Database)
    ensures
        run::<GetDonationUtxo>(get_donation_utxo_step(chain_tip), database) == (match run::<
            FetchOptional<BitcoinBlockHeight>,
        >(minimum_donation_txo_height_step(), database) {
            Ok(Some(height)) => run::<GetUtxo>(
                lowest_donation_step(chain_tip, as_int8(height[0])),
                database,
            ),
            Ok(None) => Ok(None),
            Err(error) => Err(error),
        }),
{
    run_then::<DonationFrom>(minimum_donation_txo_height_step(), chain_tip, database);
}

/// The height below the signers' unspent output: nothing if no output of the
/// signers is known, and otherwise the height of a sweep that is old enough
/// compared with the candidate, or else the greatest height that is.
pub proof fn minimum_utxo_height(database: Database)
    ensures
        run::<MinimumUtxoHeight>(minimum_utxo_height_step(), database) == (match run::<
            FetchOptional<PgCandidateUtxo>,
        >(ask_optional::<PgCandidateUtxo>(sql::UTXO_CANDIDATE, Seq::empty()), database) {
            Ok(Some(candidate)) => match run::<FetchOptional<BitcoinBlockHeight>>(
                ask_optional::<BitcoinBlockHeight>(
                    sql::CONFIRMED_SWEEP_HEIGHT,
                    confirmed_sweep_params(candidate),
                ),
                database,
            ) {
                Ok(Some(height)) => Ok(Some(as_int8(height[0]))),
                Ok(None) => Ok(Some(highest_old_enough(candidate))),
                Err(error) => Err(error),
            },
            Ok(None) => Ok(None),
            Err(error) => Err(error),
        }),
{
    let first = ask_optional::<PgCandidateUtxo>(sql::UTXO_CANDIDATE, Seq::empty());
    run_then::<BackFromCandidate>(first, (), database);
    run_optional::<PgCandidateUtxo>(sql::UTXO_CANDIDATE, Seq::empty(), database);
    if let Ok(Some(candidate)) = run::<FetchOptional<PgCandidateUtxo>>(first, database) {
        run_converting::<OrCandidate>(
            ask_optional::<BitcoinBlockHeight>(
                sql::CONFIRMED_SWEEP_HEIGHT,
                confirmed_sweep_params(candidate),
            ),
            highest_old_enough(candidate),
            database,
        );
    }
}

/// The greatest height at which a sweep is considered confirmed, given an
/// output of the signers that may be spent by a reorganization.
pub open spec fn highest_old_enough(candidate: Seq<Datum>) -> int {
    saturating_sub(as_int8(candidate[1]), MAX_REORG_BLOCK_COUNT as int)
}

/// The parameters of the search for a sweep that is considered confirmed.
pub open spec fn confirmed_sweep_params(candidate: Seq<Datum>) -> Seq<Datum> {
    seq![
        Datum::Int8(as_int8(candidate[1])),
        Datum::Int8(max_transactions()),
        Datum::Bytes(as_bytes(candidate[0])),
        Datum::Int8(highest_old_enough(candidate)),
    ]
}

/// Whether the database answers the search for a sweep with heights that are
/// not above the one that was asked for.
pub open spec fn finds_old_sweeps(database: Database) -> bool {
    forall|params: Seq<Datum>|
        (#[trigger] optional_row::<BitcoinBlockHeight>(
            database(
                ActionView::Run(
                    query::<BitcoinBlockHeight>(
                        sql::CONFIRMED_SWEEP_HEIGHT,
                        Fetch::Optional,
                        params,
                    ),
                ),
            ),
        )) matches Ok(Some(row)) ==> as_int8(row[0]) <= as_int8(params[3])
}

/// The height that is found is at least [`MAX_REORG_BLOCK_COUNT`] blocks below
/// the output of the signers that was confirmed last, or zero; so it is not
/// above it. None is found exactly where no such output is known.
pub proof fn minimum_utxo_height_is_low(database: Database)
    requires
        finds_old_sweeps(database),
    ensures
        (match optional_row::<PgCandidateUtxo>(
            database(
                ActionView::Run(
                    query::<PgCandidateUtxo>(sql::UTXO_CANDIDATE, Fetch::Optional, Seq::empty()),
                ),
            ),
        ) {
            Ok(Some(candidate)) => run::<MinimumUtxoHeight>(
                minimum_utxo_height_step(),
                database,
            ) matches Ok(found) ==> (found matches Some(height) && height <= highest_old_enough(
                candidate,
            ) && highest_old_enough(candidate) <= as_int8(candidate[1])),
            Ok(None) => run::<MinimumUtxoHeight>(minimum_utxo_height_step(), database) == Ok::<
                Option<int>,
                StoreError,
            >(None),
            Err(error) => run::<MinimumUtxoHeight>(minimum_utxo_height_step(), database) == Err::<
                Option<int>,
                StoreError,
            >(error),
        }),
{
    minimum_utxo_height(database);
    run_optional::<PgCandidateUtxo>(sql::UTXO_CANDIDATE, Seq::empty(), database);
    if let Ok(Some(candidate)) = optional_row::<PgCandidateUtxo>(
        database(
            ActionView::Run(
                query::<PgCandidateUtxo>(sql::UTXO_CANDIDATE, Fetch::Optional, Seq::empty()),
            ),
        ),
    ) {
        run_optional::<BitcoinBlockHeight>(
            sql::CONFIRMED_SWEEP_HEIGHT,
            confirmed_sweep_params(candidate),
            database,
        );
    }
}

/// The signers' unspent output is the output of a sweep, from the minimum
/// height on, and a donation where no sweep is known or the blockchain has no
/// such output.
pub proof fn signer_utxo(chain_tip: Seq<u8>, database: Database)
    ensures
        run::<GetSignerUtxo>(get_signer_utxo_step(chain_tip), database) == (match run::<
            MinimumUtxoHeight,
        >(minimum_utxo_height_step(), database) {
            Ok(Some(min_block_height)) => match run::<GetUtxo>(
                get_utxo_step(chain_tip, TxOutputType::SignersOutput, min_block_height),
                database,
            ) {
                Ok(Some(utxo)) => Ok(Some(utxo)),
                Ok(None) => run::<GetDonationUtxo>(get_donation_utxo_step(chain_tip), database),
                Err(error) => Err(error),
            },
            Ok(None) => run::<GetDonationUtxo>(get_donation_utxo_step(chain_tip), database),
            Err(error) => Err(error),
        }),
{
    run_then::<UtxoFrom>(minimum_utxo_height_step(), chain_tip, database);
    match run::<MinimumUtxoHeight>(minimum_utxo_height_step(), database) {
        Ok(Some(min_block_height)) => {
            run_then::<OrDonation>(
                get_utxo_step(chain_tip, TxOutputType::SignersOutput, min_block_height),
                chain_tip,
                database,
            );
        },
        Ok(None) => {
            run_second::<OrDonation>(get_donation_utxo_step(chain_tip), database);
        },
        Err(_) => {},
    }
}

/// A withdrawal request is not in flight where the signers have no unspent
/// output, and otherwise where the database knows no transaction that descends
/// from it and pays the request.
pub proof fn withdrawal_inflight(
    request_id: int,
    block_hash: Seq<u8>,
    chain_tip: Seq<u8>,
    database: Database,
)
    ensures
        run::<IsWithdrawalInflight>(
            is_withdrawal_inflight_step(request_id, block_hash, chain_tip),
            database,
        ) == (match run::<GetSignerUtxo>(get_signer_utxo_step(chain_tip), database) {
            Ok(Some(utxo)) => if fits_bigint(request_id) {
                run::<FetchOne<bool>>(
                    ask_one::<bool>(
                        sql::IS_WITHDRAWAL_INFLIGHT,
                        seq![
                            Datum::Bytes(utxo.txid),
                            Datum::Int8(request_id),
                            Datum::Bytes(block_hash),
                        ],
                    ),
                    database,
                )
            } else {
                Err(StoreError::ConversionDatabaseInt)
            },
            Ok(None) => Ok(false.row()),
            Err(error) => Err(error),
        }),
{
    run_then::<InflightFrom>(get_signer_utxo_step(chain_tip), (request_id, block_hash), database);
}

/// The request for the height at which the signers last considered a withdrawal
/// request.
pub open spec fn last_considered_step(request_id: int, block_hash: Seq<u8>) -> StepView<
    (),
    Seq<Datum>,
> {
    ask_one::<Option<BitcoinBlockHeight>>(
        sql::LAST_CONSIDERED_HEIGHT,
        seq![Datum::Int8(request_id), Datum::Bytes(block_hash)],
    )
}

/// A withdrawal request is active exactly where the signers considered it and
/// no sweep after that has more than the given number of confirmations.
pub proof fn withdrawal_active(
    request_id: int,
    block_hash: Seq<u8>,
    state: SweepSinceView,
    database: Database,
)
    requires
        fits_bigint(request_id),
    ensures
        run::<IsWithdrawalActive>(
            is_withdrawal_active_step(request_id, block_hash, state),
            database,
        ) == (match run::<FetchOne<Option<BitcoinBlockHeight>>>(
            last_considered_step(request_id, block_hash),
            database,
        ) {
            Ok(row) => match row[0] {
                Datum::Int8(height) => match run::<FetchOptional<BitcoinBlockHeight>>(
                    get_least_txo_height_step(state.chain_tip, height + 1),
                    database,
                ) {
                    Ok(Some(sweep)) => Ok(
                        saturating_sub(state.tip_height, as_int8(sweep[0]))
                            <= state.min_confirmations,
                    ),
                    Ok(None) => Ok(true),
                    Err(error) => Err(error),
                },
                _ => Ok(false),
            },
            Err(error) => Err(error),
        }),
{
    run_then::<SweepSince>(last_considered_step(request_id, block_hash), state, database);
    if let Ok(row) = run::<FetchOne<Option<BitcoinBlockHeight>>>(
        last_considered_step(request_id, block_hash),
        database,
    ) {
        if let Datum::Int8(height) = row[0] {
            run_converting::<FewConfirmations>(
                get_least_txo_height_step(state.chain_tip, height + 1),
                (state.tip_height, state.min_confirmations),
                database,
            );
        }
    }
}

/// Asking for more confirmations does not make an active withdrawal request
/// inactive.
pub proof fn withdrawal_stays_active(
    request_id: int,
    block_hash: Seq<u8>,
    state: SweepSinceView,
    more: int,
    database: Database,
)
    requires
        state.min_confirmations <= more,
        run::<IsWithdrawalActive>(
            is_withdrawal_active_step(request_id, block_hash, state),
            database,
        ) == Ok::<bool, StoreError>(true),
    ensures
        run::<IsWithdrawalActive>(
            is_withdrawal_active_step(
                request_id,
                block_hash,
                (SweepSinceView { min_confirmations: more, ..state }),
            ),
            database,
        ) == Ok::<bool, StoreError>(true),
{
    if fits_bigint(request_id) {
        withdrawal_active(request_id, block_hash, state, database);
        withdrawal_active(
            request_id,
            block_hash,
            SweepSinceView { min_confirmations: more, ..state },
            database,
        );
    }
}

/// The summary of a deposit request is missing where there is no record of the
/// request; otherwise the blockchain is searched down to the least height at
/// which the deposit is confirmed.
pub proof fn deposit_summary(query: DepositQueryView, database: Database)
    ensures
        run::<GetDepositSummary>(get_deposit_request_status_summary_step(query), database) == (
        match run::<FetchOptional<BitcoinBlockHeight>>(
            get_deposit_request_least_height_step(query.txid, query.output_index),
            database,
        ) {
            Ok(Some(height)) => run::<FetchOptional<DepositStatusSummary>>(
                ask_optional::<DepositStatusSummary>(
                    sql::GET_DEPOSIT_REQUEST_STATUS_SUMMARY,
                    seq![
                        Datum::Bytes(query.chain_tip),
                        Datum::Int8(as_int8(height[0])),
                        Datum::Bytes(query.txid),
                        Datum::Int4(query.output_index),
                        Datum::Bytes(query.signer_public_key),
                    ],
                ),
                database,
            ),
            Ok(None) => Ok(None),
            Err(error) => Err(error),
        }),
{
    let first = get_deposit_request_least_height_step(query.txid, query.output_index);
    run_then::<SummaryFrom>(first, query, database);
    if fits_integer(query.output_index) {
        run_optional::<BitcoinBlockHeight>(
            sql::GET_DEPOSIT_REQUEST_LEAST_HEIGHT,
            seq![Datum::Bytes(query.txid), Datum::Int4(query.output_index)],
            database,
        );
    }
}

/// What a report on a deposit request is made of, but for its status.
pub open spec fn report_parts(
    query: DepositQueryView,
    summary: Seq<Datum>,
    status: DepositStatusView,
) -> MakeDepositReportView {
    MakeDepositReportView { summary, status, txid: query.txid, vout: query.output_index }
}

/// The report on a deposit request, given its status.
pub open spec fn report_with_status(
    query: DepositQueryView,
    summary: Seq<Datum>,
    status: DepositStatusView,
    database: Database,
) -> Result<Option<DepositReportView>, StoreError> {
    match run::<FetchOptional<EncryptedDkgShares>>(
        get_encrypted_dkg_shares_step(as_bytes(summary[7])),
        database,
    ) {
        Ok(shares) => match deposit_report(report_parts(query, summary, status), shares) {
            Ok(report) => Ok(Some(report)),
            Err(error) => Err(error),
        },
        Err(error) => Err(error),
    }
}

/// The report on a deposit request is missing where the summary is. A deposit
/// that no block of the blockchain confirms is unconfirmed, whatever swept it;
/// one that is confirmed is spent where a sweep from its height on is confirmed
/// too.
pub proof fn deposit_request_report(query: DepositQueryView, database: Database)
    ensures
        run::<GetDepositReport>(get_deposit_request_report_step(query), database) == (match run::<
            GetDepositSummary,
        >(get_deposit_request_status_summary_step(query), database) {
            Ok(Some(summary)) => if is_confirmed(summary) {
                match run::<FetchOptional<BitcoinTxId>>(
                    get_deposit_sweep_txid_step(
                        query.chain_tip,
                        query.txid,
                        query.output_index,
                        as_int8(summary[8]),
                    ),
                    database,
                ) {
                    Ok(sweep) => report_with_status(
                        query,
                        summary,
                        confirmed_status(as_int8(summary[8]), as_bytes(summary[9]), sweep),
                        database,
                    ),
                    Err(error) => Err(error),
                }
            } else {
                report_with_status(query, summary, DepositStatusView::Unconfirmed, database)
            },
            Ok(None) => Ok(None),
            Err(error) => Err(error),
        }),
{
    let first = get_deposit_request_status_summary_step(query);
    run_then::<ReportFrom>(first, query, database);
    if let Ok(Some(summary)) = run::<GetDepositSummary>(first, database) {
        let shares = get_encrypted_dkg_shares_step(as_bytes(summary[7]));
        if is_confirmed(summary) {
            let height = as_int8(summary[8]);
            let hash = as_bytes(summary[9]);
            let sweep = get_deposit_sweep_txid_step(
                query.chain_tip,
                query.txid,
                query.output_index,
                height,
            );
            let state = SweptByView {
                summary,
                block_height: height,
                block_hash: hash,
                txid: query.txid,
                vout: query.output_index,
            };
            run_then::<SweptBy>(sweep, state, database);
            if let Ok(found) = run::<FetchOptional<BitcoinTxId>>(sweep, database) {
                let parts = report_parts(query, summary, confirmed_status(height, hash, found));
                run_converting::<MakeDepositReport>(shares, parts, database);
            }
        } else {
            let parts = report_parts(query, summary, DepositStatusView::Unconfirmed);
            run_second::<SweptBy>(deposit_shares_step(parts), database);
            run_converting::<MakeDepositReport>(shares, parts, database);
        }
    }
}

/// The accepted deposit requests are those of a query with the unlock height of
/// the block after the chain tip, which has to be known. They are refused where
/// that height does not fit into its parameter.
pub proof fn accepted_deposits(
    chain_tip: BitcoinBlockHash,
    context_window: u16,
    threshold: u16,
    database: Database,
)
    ensures
        run::<Then<AcceptedFrom>>(
            get_pending_accepted_deposit_requests_step(chain_tip, context_window, threshold),
            database,
        ) == (match run::<FetchOptional<BitcoinBlock>>(
            get_bitcoin_block_step(chain_tip.0@),
            database,
        ) {
            Ok(Some(block)) => run::<FetchAll<DepositRequest>>(
                accepted_deposits_step(chain_tip, context_window, threshold, as_int8(block[1])),
                database,
            ),
            Ok(None) => Err(StoreError::MissingBitcoinBlock(chain_tip)),
            Err(error) => Err(error),
        }),
{
    run_then::<AcceptedFrom>(
        get_bitcoin_block_step(chain_tip.0@),
        AcceptedFrom { chain_tip, context_window, threshold },
        database,
    );
}

/// The report on a withdrawal request is missing where the summary is. A
/// request that a confirmed transaction paid is fulfilled, whether or not it is
/// confirmed itself.
pub proof fn withdrawal_request_report(
    bitcoin_chain_tip: Seq<u8>,
    stacks_chain_tip: Seq<u8>,
    id: QualifiedRequestId,
    signer_public_key: Seq<u8>,
    database: Database,
)
    ensures
        run::<GetWithdrawalReport>(
            get_withdrawal_request_report_step(
                bitcoin_chain_tip,
                stacks_chain_tip,
                id,
                signer_public_key,
            ),
            database,
        ) == (match run::<FetchOptional<WithdrawalStatusSummary>>(
            get_withdrawal_request_status_summary_step(
                id.request_id as int,
                id.block_hash.0@,
                signer_public_key,
            ),
            database,
        ) {
            Ok(Some(summary)) => match run::<FetchOptional<BitcoinTxRef>>(
                get_withdrawal_sweep_info_step(
                    bitcoin_chain_tip,
                    id.request_id as int,
                    id.block_hash.0@,
                ),
                database,
            ) {
                Ok(Some(tx_ref)) => Ok(
                    Some(withdrawal_report(id, summary, WithdrawalStatusView::Fulfilled(tx_ref))),
                ),
                Ok(None) => match run::<FetchOne<bool>>(
                    in_canonical_stacks_blockchain_step(
                        stacks_chain_tip,
                        as_bytes(summary[5]),
                        as_int8(summary[6]),
                    ),
                    database,
                ) {
                    Ok(row) => Ok(
                        Some(withdrawal_report(id, summary, unpaid_status(as_bool(row[0])))),
                    ),
                    Err(error) => Err(error),
                },
                Err(error) => Err(error),
            },
            Ok(None) => Ok(None),
            Err(error) => Err(error),
        }),
{
    let first = get_withdrawal_request_status_summary_step(
        id.request_id as int,
        id.block_hash.0@,
        signer_public_key,
    );
    let state = WithdrawalReportFromView { bitcoin_chain_tip, stacks_chain_tip, id };
    run_then::<WithdrawalReportFrom>(first, state, database);
    if let Ok(Some(summary)) = run::<FetchOptional<WithdrawalStatusSummary>>(first, database) {
        let sweep = get_withdrawal_sweep_info_step(
            bitcoin_chain_tip,
            id.request_id as int,
            id.block_hash.0@,
        );
        run_then::<PaidBy>(sweep, PaidByView { stacks_chain_tip, id, summary }, database);
        run_converting::<MakeWithdrawalReport>(
            in_canonical_stacks_blockchain_step(
                stacks_chain_tip,
                as_bytes(summary[5]),
                as_int8(summary[6]),
            ),
            (id, summary),
            database,
        );
    }
}

/// Where no stacks block is anchored to the bitcoin blockchain, there are no
/// requests and no key rotation to find, and whether a key rotation exists
/// cannot be told.
pub proof fn without_stacks_chain_tip(
    chain_tip: Seq<u8>,
    tip_height: int,
    context_window: u16,
    signer_public_key: Seq<u8>,
    rotation: RotationView,
    database: Database,
)
    requires
        run::<FetchOptional<StacksBlock>>(get_stacks_chain_tip_step(chain_tip), database) == Ok::<
            Option<Seq<Datum>>,
            StoreError,
        >(None),
    ensures
        run::<Then<PendingFrom>>(
            get_pending_withdrawal_requests_step(chain_tip, context_window, signer_public_key),
            database,
        ) == Ok::<Seq<Seq<Datum>>, StoreError>(Seq::empty()),
        run::<Then<RejectedFrom>>(
            get_pending_rejected_withdrawal_requests_step(chain_tip, tip_height, context_window),
            database,
        ) == Ok::<Seq<Seq<Datum>>, StoreError>(Seq::empty()),
        run::<Then<SweptDepositsFrom>>(
            get_swept_deposit_requests_step(chain_tip, context_window),
            database,
        ) == Ok::<Seq<Seq<Datum>>, StoreError>(Seq::empty()),
        run::<Then<SweptWithdrawalsFrom>>(
            get_swept_withdrawal_requests_step(chain_tip, context_window),
            database,
        ) == Ok::<Seq<Seq<Datum>>, StoreError>(Seq::empty()),
        run::<Then<RotationFrom>>(get_last_key_rotation_step(chain_tip), database) == Ok::<
            Option<Seq<Datum>>,
            StoreError,
        >(None),
        run::<Then<Rotation>>(
            key_rotation_exists_step(
                chain_tip,
                rotation.signer_set,
                rotation.aggregate_key,
                rotation.signatures_required,
            ),
            database,
        ) == Err::<Seq<Datum>, StoreError>(StoreError::NoStacksChainTip),
{
    let first = get_stacks_chain_tip_step(chain_tip);
    run_then::<PendingFrom>(first, (chain_tip, context_window, signer_public_key), database);
    run_then::<RejectedFrom>(first, (chain_tip, tip_height, context_window), database);
    run_then::<SweptDepositsFrom>(first, (chain_tip, context_window), database);
    run_then::<SweptWithdrawalsFrom>(first, (chain_tip, context_window), database);
    run_then::<RotationFrom>(first, (), database);
    run_then::<Rotation>(first, rotation, database);
}

/// Where a stacks block is anchored to the bitcoin blockchain, the highest one
/// is the tip of the stacks blockchain that is searched.
pub proof fn with_stacks_chain_tip(
    chain_tip: Seq<u8>,
    tip_height: int,
    context_window: u16,
    signer_public_key: Seq<u8>,
    rotation: RotationView,
    stacks_tip: Seq<Datum>,
    database: Database,
)
    requires
        run::<FetchOptional<StacksBlock>>(get_stacks_chain_tip_step(chain_tip), database) == Ok::<
            Option<Seq<Datum>>,
            StoreError,
        >(Some(stacks_tip)),
    ensures
        run::<Then<PendingFrom>>(
            get_pending_withdrawal_requests_step(chain_tip, context_window, signer_public_key),
            database,
        ) == run::<FetchAll<WithdrawalRequest>>(
            ask_all::<WithdrawalRequest>(
                sql::GET_PENDING_WITHDRAWAL_REQUESTS,
                seq![
                    Datum::Bytes(chain_tip),
                    stacks_tip[0],
                    Datum::Int4(context_window as int),
                    Datum::Bytes(signer_public_key),
                ],
            ),
            database,
        ),
        fits_bigint(expiration_height(tip_height)) ==> run::<Then<RejectedFrom>>(
            get_pending_rejected_withdrawal_requests_step(chain_tip, tip_height, context_window),
            database,
        ) == run::<FetchAll<WithdrawalRequest>>(
            ask_all::<WithdrawalRequest>(
                sql::GET_PENDING_REJECTED_WITHDRAWAL_REQUESTS,
                seq![
                    Datum::Bytes(chain_tip),
                    Datum::Int4(context_window as int),
                    stacks_tip[0],
                    Datum::Int8(expiration_height(tip_height)),
                ],
            ),
            database,
        ),
        run::<Then<SweptDepositsFrom>>(
            get_swept_deposit_requests_step(chain_tip, context_window),
            database,
        ) == run::<FetchAll<SweptDepositRequest>>(
            ask_all::<SweptDepositRequest>(
                sql::GET_SWEPT_DEPOSIT_REQUESTS,
                seq![Datum::Bytes(chain_tip), Datum::Int4(context_window as int), stacks_tip[0]],
            ),
            database,
        ),
        run::<Then<SweptWithdrawalsFrom>>(
            get_swept_withdrawal_requests_step(chain_tip, context_window),
            database,
        ) == run::<FetchAll<SweptWithdrawalRequest>>(
            ask_all::<SweptWithdrawalRequest>(
                sql::GET_SWEPT_WITHDRAWAL_REQUESTS,
                seq![Datum::Bytes(chain_tip), Datum::Int4(context_window as int), stacks_tip[0]],
            ),
            database,
        ),
        run::<Then<RotationFrom>>(get_last_key_rotation_step(chain_tip), database) == run::<
            FetchOptional<KeyRotationEvent>,
        >(
            ask_optional::<KeyRotationEvent>(sql::GET_LAST_KEY_ROTATION, seq![stacks_tip[0]]),
            database,
        ),
        run::<Then<Rotation>>(
            key_rotation_exists_step(
                chain_tip,
                rotation.signer_set,
                rotation.aggregate_key,
                rotation.signatures_required,
            ),
            database,
        ) == run::<FetchOne<bool>>(
            ask_one::<bool>(
                sql::KEY_ROTATION_EXISTS,
                seq![
                    stacks_tip[0],
                    Datum::BytesArray(rotation.signer_set),
                    Datum::Bytes(rotation.aggregate_key),
                    Datum::Int4(rotation.signatures_required as int),
                ],
            ),
            database,
        ),
{
    let first = get_stacks_chain_tip_step(chain_tip);
    run_then::<PendingFrom>(first, (chain_tip, context_window, signer_public_key), database);
    run_then::<RejectedFrom>(first, (chain_tip, tip_height, context_window), database);
    run_then::<SweptDepositsFrom>(first, (chain_tip, context_window), database);
    run_then::<SweptWithdrawalsFrom>(first, (chain_tip, context_window), database);
    run_then::<RotationFrom>(first, (), database);
    run_then::<Rotation>(first, rotation, database);
}

} // verus!
