//! Deposits.

use crate::chain::{
    ask_bitcoin_block, ask_stacks_chain_tip, get_bitcoin_block_step, get_stacks_chain_tip_step,
};
use crate::compose::{in_converted, in_first, in_second, Continuation, Conversion, Converting, Then};
use crate::convert::{
    copy_bytes, fits_bigint, fits_integer, join_scripts, joined, lock_time_of, script_bytes,
    scripts_to_bytes, to_bigint, to_bytes, to_integer, to_integer_after, to_lock_time, LockTime,
};
use crate::error::StoreError;
use crate::fetch::{
    ask_all, ask_execute, ask_one, ask_optional, refused, row_view, rows_view, Execute, FetchAll,
    FetchOne, FetchOptional,
};
use crate::keys::{ask_dkg_shares, get_encrypted_dkg_shares_step};
use crate::limits::DEPOSIT_LOCKTIME_BLOCK_BUFFER;
use crate::model::{
    BitcoinBlock, BitcoinBlockHash, BitcoinBlockHeight, BitcoinTxId, CompletedDepositEvent,
    DepositRequest, DepositSigner, DkgSharesStatus, EncryptedDkgShares, OutPoint, PublicKey,
    PublicKeyXOnly, ScriptPubKey, SignerVote, SignerVotes, StacksBlock, SweptDepositRequest,
};
use crate::procedure::{step_view, Operation, Procedure, Step, StepView};
use crate::records::DepositStatusSummary;
use crate::row::{all_storable, as_bytes, as_int8, as_optional_bool, FromRow};
use crate::sql;
use crate::store::PgStore;
use crate::value::{bytes_of, chars_of, data, Datum, Value};
use crate::votes::VotesOf;
use vstd::prelude::*;

verus! {

/// Where a deposit stands on a blockchain.
#[derive(Debug, Clone, Copy, PartialEq, Eq)]
pub enum DepositConfirmationStatus {
    /// It is confirmed in the block with the given height and hash, and not
    /// swept.
    Confirmed(BitcoinBlockHeight, BitcoinBlockHash),
    /// The given transaction swept it.
    Spent(BitcoinTxId),
    /// It is not confirmed.
    Unconfirmed,
}

/// The content of a [`DepositConfirmationStatus`].
#[verifier::ext_equal]
pub enum DepositStatusView {
    Confirmed(int, Seq<u8>),
    Spent(Seq<u8>),
    Unconfirmed,
}

impl View for DepositConfirmationStatus {
    type V = DepositStatusView;

    open spec fn view(&self) -> DepositStatusView {
        match *self {
            DepositConfirmationStatus::Confirmed(height, hash) => DepositStatusView::Confirmed(
                height.0 as int,
                hash.0@,
            ),
            DepositConfirmationStatus::Spent(txid) => DepositStatusView::Spent(txid.0@),
            DepositConfirmationStatus::Unconfirmed => DepositStatusView::Unconfirmed,
        }
    }
}

/// What the signers need to know of a deposit request to validate it.
#[derive(Debug)]
pub struct DepositRequestReport {
    /// Where the deposit stands.
    pub status: DepositConfirmationStatus,
    /// Whether the signer is a party to the key that locks the deposit, unless
    /// it has not voted.
    pub can_sign: Option<bool>,
    /// Whether the signer accepts the deposit, unless it has not voted.
    pub can_accept: Option<bool>,
    /// The amount of the deposit, in sats.
    pub amount: u64,
    /// The most to spend on the fee of the sweep, in sats.
    pub max_fee: u64,
    /// The lock time in the reclaim script.
    pub lock_time: LockTime,
    /// The output with the deposit.
    pub outpoint: OutPoint,
    /// The script by which the signers can spend the deposit.
    pub deposit_script: ScriptPubKey,
    /// The script by which the depositor can reclaim the deposit.
    pub reclaim_script: ScriptPubKey,
    /// The public key in the deposit script.
    pub signers_public_key: PublicKeyXOnly,
    /// The status of the shares of that key, if there are any.
    pub dkg_shares_status: Option<DkgSharesStatus>,
}

/// The content of a [`DepositRequestReport`].
#[verifier::ext_equal]
pub struct DepositReportView {
    pub status: DepositStatusView,
    pub can_sign: Option<bool>,
    pub can_accept: Option<bool>,
    pub amount: int,
    pub max_fee: int,
    pub lock_time: LockTime,
    pub txid: Seq<u8>,
    pub vout: int,
    pub deposit_script: Seq<u8>,
    pub reclaim_script: Seq<u8>,
    pub signers_public_key: Seq<u8>,
    /// The label of the status of the shares.
    pub dkg_shares_status: Option<Seq<char>>,
}

/// The label of a status that may be missing.
pub open spec fn status_label(status: Option<DkgSharesStatus>) -> Option<Seq<char>> {
    match status {
        Some(status) => Some(status.spec_label()),
        None => None,
    }
}

impl View for DepositRequestReport {
    type V = DepositReportView;

    open spec fn view(&self) -> DepositReportView {
        DepositReportView {
            status: self.status@,
            can_sign: self.can_sign,
            can_accept: self.can_accept,
            amount: self.amount as int,
            max_fee: self.max_fee as int,
            lock_time: self.lock_time,
            txid: self.outpoint.txid.0@,
            vout: self.outpoint.vout as int,
            deposit_script: self.deposit_script.0@,
            reclaim_script: self.reclaim_script.0@,
            signers_public_key: self.signers_public_key.0@,
            dkg_shares_status: status_label(self.dkg_shares_status),
        }
    }
}

/// A deposit that a signer looks at from a chain tip.
#[derive(Debug, Clone, Copy)]
pub struct DepositQuery {
    pub chain_tip: BitcoinBlockHash,
    pub txid: BitcoinTxId,
    pub output_index: u32,
    pub signer_public_key: PublicKey,
}

/// The content of a [`DepositQuery`].
#[verifier::ext_equal]
pub struct DepositQueryView {
    pub chain_tip: Seq<u8>,
    pub txid: Seq<u8>,
    pub output_index: int,
    pub signer_public_key: Seq<u8>,
}

impl View for DepositQuery {
    type V = DepositQueryView;

    open spec fn view(&self) -> DepositQueryView {
        DepositQueryView {
            chain_tip: self.chain_tip.0@,
            txid: self.txid.0@,
            output_index: self.output_index as int,
            signer_public_key: self.signer_public_key.0@,
        }
    }
}

/// Reads what the report is made of once the least height of the deposit is
/// known.
#[derive(Debug)]
pub struct SummaryFrom {
    pub query: DepositQuery,
}

impl View for SummaryFrom {
    type V = DepositQueryView;

    open spec fn view(&self) -> DepositQueryView {
        self.query@
    }
}

impl Continuation for SummaryFrom {
    type First = FetchOptional<BitcoinBlockHeight>;

    type Second = FetchOptional<DepositStatusSummary>;

    open spec fn after(query: DepositQueryView, output: Option<Seq<Datum>>) -> StepView<
        (),
        Option<Seq<Datum>>,
    > {
        match output {
            Some(row) => if fits_bigint(as_int8(row[0])) && fits_integer(query.output_index) {
                ask_optional::<DepositStatusSummary>(
                    sql::GET_DEPOSIT_REQUEST_STATUS_SUMMARY,
                    seq![
                        Datum::Bytes(query.chain_tip),
                        Datum::Int8(as_int8(row[0])),
                        Datum::Bytes(query.txid),
                        Datum::Int4(query.output_index),
                        Datum::Bytes(query.signer_public_key),
                    ],
                )
            } else {
                refused()
            },
            None => StepView::Done(Ok(None)),
        }
    }

    open spec fn bound(query: DepositQueryView) -> nat {
        0
    }

    proof fn after_is_bounded(query: DepositQueryView, output: Option<Seq<Datum>>) {
        if let StepView::Ask(_, second) = Self::after(query, output) {
            assert(Self::Second::rank(second) <= 0);
        }
    }

    fn go_on(self, output: Option<BitcoinBlockHeight>) -> (step: Step<
        FetchOptional<DepositStatusSummary>,
        Option<DepositStatusSummary>,
    >) {
        assert(Self::First::output(output) == row_view(output));
        let height: BitcoinBlockHeight = match output {
            Some(height) => height,
            None => {
                return Step::Done(Ok(None));
            },
        };
        let min_block_height: i64 = match to_bigint(height.0) {
            Ok(number) => number,
            Err(error) => {
                return Step::Done(Err(error));
            },
        };
        let output_index: i32 = match to_integer(self.query.output_index) {
            Ok(number) => number,
            Err(error) => {
                return Step::Done(Err(error));
            },
        };
        let params = vec![
            Value::Bytes(to_bytes(&self.query.chain_tip.0)),
            Value::Int8(min_block_height),
            Value::Bytes(to_bytes(&self.query.txid.0)),
            Value::Int4(output_index),
            Value::Bytes(to_bytes(&self.query.signer_public_key.0)),
        ];
        assert(data(params@) =~= seq![
            Datum::Bytes(self@.chain_tip),
            Datum::Int8(height.0 as int),
            Datum::Bytes(self@.txid),
            Datum::Int4(self@.output_index),
            Datum::Bytes(self@.signer_public_key),
        ]);
        FetchOptional::ask(sql::GET_DEPOSIT_REQUEST_STATUS_SUMMARY, params)
    }
}

/// Reads what the report on a deposit request is made of.
pub type GetDepositSummary = Then<SummaryFrom>;

/// The start of [`PgStore::get_deposit_request_status_summary`].
pub open spec fn get_deposit_request_status_summary_step(query: DepositQueryView) -> StepView<
    <GetDepositSummary as View>::V,
    Option<Seq<Datum>>,
> {
    in_first::<SummaryFrom>(
        get_deposit_request_least_height_step(query.txid, query.output_index),
        query,
    )
}

/// Reads what the report on a deposit request is made of.
fn ask_deposit_summary(query: DepositQuery) -> (step: Step<
    GetDepositSummary,
    Option<DepositStatusSummary>,
>)
    ensures
        step_view(step) == get_deposit_request_status_summary_step(query@),
{
    Then::first(ask_least_height(&query.txid, query.output_index), SummaryFrom { query })
}

/// Makes the report once the shares of the key that locks the deposit are
/// known.
#[derive(Debug)]
pub struct MakeDepositReport {
    pub summary: DepositStatusSummary,
    pub status: DepositConfirmationStatus,
    pub outpoint: OutPoint,
}

/// The content of a [`MakeDepositReport`].
#[verifier::ext_equal]
pub struct MakeDepositReportView {
    pub summary: Seq<Datum>,
    pub status: DepositStatusView,
    pub txid: Seq<u8>,
    pub vout: int,
}

impl View for MakeDepositReport {
    type V = MakeDepositReportView;

    open spec fn view(&self) -> MakeDepositReportView {
        MakeDepositReportView {
            summary: self.summary.row(),
            status: self.status@,
            txid: self.outpoint.txid.0@,
            vout: self.outpoint.vout as int,
        }
    }
}

/// The report on a deposit request, made of a summary of it, the status of the
/// deposit and the shares of the key that locks it. The lock time of the
/// deposit has to be in force.
pub open spec fn deposit_report(
    made_of: MakeDepositReportView,
    shares: Option<Seq<Datum>>,
) -> Result<DepositReportView, StoreError> {
    let summary = made_of.summary;
    match lock_time_of(as_int8(summary[4]) as u32) {
        Some(lock_time) => Ok(
            DepositReportView {
                status: made_of.status,
                can_sign: as_optional_bool(summary[1]),
                can_accept: as_optional_bool(summary[0]),
                amount: as_int8(summary[2]),
                max_fee: as_int8(summary[3]),
                lock_time,
                txid: made_of.txid,
                vout: made_of.vout,
                deposit_script: as_bytes(summary[5]),
                reclaim_script: as_bytes(summary[6]),
                signers_public_key: as_bytes(summary[7]),
                dkg_shares_status: match shares {
                    Some(shares) => Some(shares[7]->Label_1),
                    None => None,
                },
            },
        ),
        None => Err(StoreError::DisabledLockTime(as_int8(summary[4]) as u32)),
    }
}

impl Conversion for MakeDepositReport {
    type First = FetchOptional<EncryptedDkgShares>;

    type Converted = Option<DepositRequestReport>;

    type ConvertedView = Option<DepositReportView>;

    open spec fn converted(converted: Option<DepositRequestReport>) -> Option<DepositReportView> {
        match converted {
            Some(report) => Some(report@),
            None => None,
        }
    }

    open spec fn conversion(state: MakeDepositReportView, output: Option<Seq<Datum>>) -> Result<
        Option<DepositReportView>,
        StoreError,
    > {
        match deposit_report(state, output) {
            Ok(report) => Ok(Some(report)),
            Err(error) => Err(error),
        }
    }

    fn convert(self, output: Option<EncryptedDkgShares>) -> (result: Result<
        Option<DepositRequestReport>,
        StoreError,
    >) {
        assert(Self::First::output(output) == row_view(output));
        let dkg_shares_status = match &output {
            Some(shares) => Some(shares.dkg_shares_status),
            None => None,
        };
        let lock_time = match to_lock_time(self.summary.lock_time) {
            Ok(lock_time) => lock_time,
            Err(error) => {
                return Err(error);
            },
        };
        Ok(
            Some(
                DepositRequestReport {
                    status: self.status,
                    can_sign: self.summary.can_sign,
                    can_accept: self.summary.can_accept,
                    amount: self.summary.amount,
                    max_fee: self.summary.max_fee,
                    lock_time,
                    outpoint: self.outpoint,
                    deposit_script: self.summary.deposit_script,
                    reclaim_script: self.summary.reclaim_script,
                    signers_public_key: self.summary.signers_public_key,
                    dkg_shares_status,
                },
            ),
        )
    }
}

/// The request for the shares of the key that locks a deposit.
pub open spec fn deposit_shares_step(made_of: MakeDepositReportView) -> StepView<
    <Converting<MakeDepositReport> as View>::V,
    Option<DepositReportView>,
> {
    in_converted::<MakeDepositReport>(
        get_encrypted_dkg_shares_step(as_bytes(made_of.summary[7])),
        made_of,
    )
}

/// Asks for the shares of the key that locks a deposit.
fn ask_deposit_shares(made_of: MakeDepositReport) -> (step: Step<
    Converting<MakeDepositReport>,
    Option<DepositRequestReport>,
>)
    ensures
        step_view(step) == deposit_shares_step(made_of@),
{
    let step = ask_dkg_shares(&made_of.summary.signers_public_key);
    Converting::first(step, made_of)
}

/// Goes on to the shares once it is known what swept a confirmed deposit.
#[derive(Debug)]
pub struct SweptBy {
    pub summary: DepositStatusSummary,
    pub block_height: BitcoinBlockHeight,
    pub block_hash: BitcoinBlockHash,
    pub outpoint: OutPoint,
}

/// The content of a [`SweptBy`].
#[verifier::ext_equal]
pub struct SweptByView {
    pub summary: Seq<Datum>,
    pub block_height: int,
    pub block_hash: Seq<u8>,
    pub txid: Seq<u8>,
    pub vout: int,
}

impl View for SweptBy {
    type V = SweptByView;

    open spec fn view(&self) -> SweptByView {
        SweptByView {
            summary: self.summary.row(),
            block_height: self.block_height.0 as int,
            block_hash: self.block_hash.0@,
            txid: self.outpoint.txid.0@,
            vout: self.outpoint.vout as int,
        }
    }
}

/// The status of a deposit that is confirmed at the given height in the given
/// block, given the transaction that swept it, if there is one.
pub open spec fn confirmed_status(
    block_height: int,
    block_hash: Seq<u8>,
    sweep: Option<Seq<Datum>>,
) -> DepositStatusView {
    match sweep {
        Some(row) => DepositStatusView::Spent(as_bytes(row[0])),
        None => DepositStatusView::Confirmed(block_height, block_hash),
    }
}

impl Continuation for SweptBy {
    type First = FetchOptional<BitcoinTxId>;

    type Second = Converting<MakeDepositReport>;

    open spec fn after(state: SweptByView, output: Option<Seq<Datum>>) -> StepView<
        <Converting<MakeDepositReport> as View>::V,
        Option<DepositReportView>,
    > {
        deposit_shares_step(
            MakeDepositReportView {
                summary: state.summary,
                status: confirmed_status(state.block_height, state.block_hash, output),
                txid: state.txid,
                vout: state.vout,
            },
        )
    }

    open spec fn bound(state: SweptByView) -> nat {
        0
    }

    proof fn after_is_bounded(state: SweptByView, output: Option<Seq<Datum>>) {
        if let StepView::Ask(_, second) = Self::after(state, output) {
            assert(Self::Second::rank(second) <= 0);
        }
    }

    fn go_on(self, output: Option<BitcoinTxId>) -> (step: Step<
        Converting<MakeDepositReport>,
        Option<DepositRequestReport>,
    >) {
        assert(Self::First::output(output) == row_view(output));
        let status = match output {
            Some(txid) => DepositConfirmationStatus::Spent(txid),
            None => DepositConfirmationStatus::Confirmed(self.block_height, self.block_hash),
        };
        ask_deposit_shares(
            MakeDepositReport { summary: self.summary, status, outpoint: self.outpoint },
        )
    }
}

/// Goes on from the summary of a deposit request.
#[derive(Debug)]
pub struct ReportFrom {
    pub query: DepositQuery,
}

impl View for ReportFrom {
    type V = DepositQueryView;

    open spec fn view(&self) -> DepositQueryView {
        self.query@
    }
}

/// Whether a summary tells of a block that confirms the deposit.
pub open spec fn is_confirmed(summary: Seq<Datum>) -> bool {
    !(summary[8] is Null) && !(summary[9] is Null)
}

impl Continuation for ReportFrom {
    type First = GetDepositSummary;

    type Second = Then<SweptBy>;

    open spec fn after(query: DepositQueryView, output: Option<Seq<Datum>>) -> StepView<
        <Then<SweptBy> as View>::V,
        Option<DepositReportView>,
    > {
        match output {
            Some(summary) => if is_confirmed(summary) {
                in_first::<SweptBy>(
                    get_deposit_sweep_txid_step(
                        query.chain_tip,
                        query.txid,
                        query.output_index,
                        as_int8(summary[8]),
                    ),
                    SweptByView {
                        summary,
                        block_height: as_int8(summary[8]),
                        block_hash: as_bytes(summary[9]),
                        txid: query.txid,
                        vout: query.output_index,
                    },
                )
            } else {
                in_second(
                    deposit_shares_step(
                        MakeDepositReportView {
                            summary,
                            status: DepositStatusView::Unconfirmed,
                            txid: query.txid,
                            vout: query.output_index,
                        },
                    ),
                )
            },
            None => StepView::Done(Ok(None)),
        }
    }

    open spec fn bound(query: DepositQueryView) -> nat {
        1
    }

    proof fn after_is_bounded(query: DepositQueryView, output: Option<Seq<Datum>>) {
        if let StepView::Ask(_, second) = Self::after(query, output) {
            assert(Self::Second::rank(second) <= 1);
        }
    }

    fn go_on(self, output: Option<DepositStatusSummary>) -> (step: Step<
        Then<SweptBy>,
        Option<DepositRequestReport>,
    >) {
        assert(Self::First::output(output) == row_view(output));
        let summary = match output {
            Some(summary) => summary,
            None => {
                return Step::Done(Ok(None));
            },
        };
        let query = self.query;
        let outpoint = OutPoint { txid: query.txid, vout: query.output_index };
        match (summary.block_height, summary.block_hash) {
            (Some(block_height), Some(block_hash)) => {
                let step = ask_sweep_txid(
                    &query.chain_tip,
                    &query.txid,
                    query.output_index,
                    block_height,
                );
                Then::first(step, SweptBy { summary, block_height, block_hash, outpoint })
            },
            _ => {
                let status = DepositConfirmationStatus::Unconfirmed;
                Then::second(ask_deposit_shares(MakeDepositReport { summary, status, outpoint }))
            },
        }
    }
}

/// Makes the report on a deposit request.
pub type GetDepositReport = Then<ReportFrom>;

/// The start of [`PgStore::get_deposit_request_report`].
pub open spec fn get_deposit_request_report_step(query: DepositQueryView) -> StepView<
    <GetDepositReport as View>::V,
    Option<DepositReportView>,
> {
    in_first::<ReportFrom>(get_deposit_request_status_summary_step(query), query)
}

/// The lowest unlock height of a deposit that is still swept in the block after
/// the chain tip.
pub open spec fn minimum_acceptable_unlock_height(tip_height: int) -> int {
    tip_height + DEPOSIT_LOCKTIME_BLOCK_BUFFER + 1
}

/// Asks for the accepted deposit requests at a chain tip with a height. The
/// lowest unlock height has to fit into an `INTEGER`.
pub open spec fn accepted_deposits_step(
    chain_tip: BitcoinBlockHash,
    context_window: u16,
    threshold: u16,
    tip_height: int,
) -> StepView<(), Seq<Seq<Datum>>> {
    let unlock_height = minimum_acceptable_unlock_height(tip_height);
    if fits_integer(unlock_height) {
        ask_all::<DepositRequest>(
            sql::GET_PENDING_ACCEPTED_DEPOSIT_REQUESTS,
            seq![
                Datum::Bytes(chain_tip.0@),
                Datum::Int4(context_window as int),
                Datum::Int4(threshold as int),
                Datum::Int4(unlock_height),
            ],
        )
    } else {
        refused()
    }
}

/// Looks for accepted deposit requests once the chain tip is known.
#[derive(Debug, Clone, Copy)]
pub struct AcceptedFrom {
    pub chain_tip: BitcoinBlockHash,
    pub context_window: u16,
    pub threshold: u16,
}

impl View for AcceptedFrom {
    type V = AcceptedFrom;

    open spec fn view(&self) -> AcceptedFrom {
        *self
    }
}

impl Continuation for AcceptedFrom {
    type First = FetchOptional<BitcoinBlock>;

    type Second = FetchAll<DepositRequest>;

    open spec fn after(state: AcceptedFrom, output: Option<Seq<Datum>>) -> StepView<
        (),
        Seq<Seq<Datum>>,
    > {
        match output {
            Some(block) => accepted_deposits_step(
                state.chain_tip,
                state.context_window,
                state.threshold,
                as_int8(block[1]),
            ),
            None => StepView::Done(Err(StoreError::MissingBitcoinBlock(state.chain_tip))),
        }
    }

    open spec fn bound(state: AcceptedFrom) -> nat {
        0
    }

    proof fn after_is_bounded(state: AcceptedFrom, output: Option<Seq<Datum>>) {
        if let StepView::Ask(_, second) = Self::after(state, output) {
            assert(Self::Second::rank(second) <= 0);
        }
    }

    fn go_on(self, output: Option<BitcoinBlock>) -> (step: Step<
        FetchAll<DepositRequest>,
        Vec<DepositRequest>,
    >) {
        assert(Self::First::output(output) == row_view(output));
        match output {
            Some(block) => {
                let unlock_height: i32 = match to_integer_after(
                    block.block_height.0,
                    DEPOSIT_LOCKTIME_BLOCK_BUFFER,
                ) {
                    Ok(number) => number,
                    Err(error) => {
                        return Step::Done(Err(error));
                    },
                };
                let params = vec![
                    Value::Bytes(to_bytes(&self.chain_tip.0)),
                    Value::Int4(self.context_window as i32),
                    Value::Int4(self.threshold as i32),
                    Value::Int4(unlock_height),
                ];
                assert(data(params@) =~= seq![
                    Datum::Bytes(self.chain_tip.0@),
                    Datum::Int4(self.context_window as int),
                    Datum::Int4(self.threshold as int),
                    Datum::Int4(minimum_acceptable_unlock_height(block.block_height.0 as int)),
                ]);
                FetchAll::ask(sql::GET_PENDING_ACCEPTED_DEPOSIT_REQUESTS, params)
            },
            None => Step::Done(Err(StoreError::MissingBitcoinBlock(self.chain_tip))),
        }
    }
}

/// The start of [`PgStore::get_pending_accepted_deposit_requests`].
pub open spec fn get_pending_accepted_deposit_requests_step(
    chain_tip: BitcoinBlockHash,
    context_window: u16,
    threshold: u16,
) -> StepView<<Then<AcceptedFrom> as View>::V, Seq<Seq<Datum>>> {
    in_first::<AcceptedFrom>(
        get_bitcoin_block_step(chain_tip.0@),
        AcceptedFrom { chain_tip, context_window, threshold },
    )
}

/// Looks for swept deposits once the stacks chain tip is known.
#[derive(Debug)]
pub struct SweptDepositsFrom {
    pub chain_tip: BitcoinBlockHash,
    pub context_window: u16,
}

impl View for SweptDepositsFrom {
    type V = (Seq<u8>, u16);

    open spec fn view(&self) -> (Seq<u8>, u16) {
        (self.chain_tip.0@, self.context_window)
    }
}

impl Continuation for SweptDepositsFrom {
    type First = FetchOptional<StacksBlock>;

    type Second = FetchAll<SweptDepositRequest>;

    open spec fn after(state: (Seq<u8>, u16), output: Option<Seq<Datum>>) -> StepView<
        (),
        Seq<Seq<Datum>>,
    > {
        match output {
            Some(stacks_chain_tip) => ask_all::<SweptDepositRequest>(
                sql::GET_SWEPT_DEPOSIT_REQUESTS,
                seq![Datum::Bytes(state.0), Datum::Int4(state.1 as int), stacks_chain_tip[0]],
            ),
            None => StepView::Done(Ok(Seq::empty())),
        }
    }

    open spec fn bound(state: (Seq<u8>, u16)) -> nat {
        0
    }

    proof fn after_is_bounded(state: (Seq<u8>, u16), output: Option<Seq<Datum>>) {
        if let StepView::Ask(_, second) = Self::after(state, output) {
            assert(Self::Second::rank(second) <= 0);
        }
    }

    fn go_on(self, output: Option<StacksBlock>) -> (step: Step<
        FetchAll<SweptDepositRequest>,
        Vec<SweptDepositRequest>,
    >) {
        assert(Self::First::output(output) == row_view(output));
        match output {
            Some(stacks_chain_tip) => {
                let params = vec![
                    Value::Bytes(to_bytes(&self.chain_tip.0)),
                    Value::Int4(self.context_window as i32),
                    Value::Bytes(to_bytes(&stacks_chain_tip.block_hash.0)),
                ];
                assert(data(params@) =~= seq![
                    Datum::Bytes(self@.0),
                    Datum::Int4(self@.1 as int),
                    stacks_chain_tip.row()[0],
                ]);
                FetchAll::ask(sql::GET_SWEPT_DEPOSIT_REQUESTS, params)
            },
            None => {
                let none: Vec<SweptDepositRequest> = Vec::new();
                assert(rows_view(none@) =~= Seq::empty());
                Step::Done(Ok(none))
            },
        }
    }
}

/// The start of [`PgStore::get_swept_deposit_requests`].
pub open spec fn get_swept_deposit_requests_step(
    chain_tip: Seq<u8>,
    context_window: u16,
) -> StepView<<Then<SweptDepositsFrom> as View>::V, Seq<Seq<Datum>>> {
    in_first::<SweptDepositsFrom>(
        get_stacks_chain_tip_step(chain_tip),
        (chain_tip, context_window),
    )
}

/// The start of [`PgStore::get_deposit_request`].
pub open spec fn get_deposit_request_step(
    txid: Seq<u8>,
    output_index: int,
) -> StepView<(), Option<Seq<Datum>>> {
    if fits_integer(output_index) {
        ask_optional::<DepositRequest>(
            sql::GET_DEPOSIT_REQUEST,
            seq![Datum::Bytes(txid), Datum::Int4(output_index)],
        )
    } else {
        refused()
    }
}

/// The start of [`PgStore::get_deposit_request_least_height`].
pub open spec fn get_deposit_request_least_height_step(
    txid: Seq<u8>,
    output_index: int,
) -> StepView<(), Option<Seq<Datum>>> {
    if fits_integer(output_index) {
        ask_optional::<BitcoinBlockHeight>(
            sql::GET_DEPOSIT_REQUEST_LEAST_HEIGHT,
            seq![Datum::Bytes(txid), Datum::Int4(output_index)],
        )
    } else {
        refused()
    }
}

/// The start of [`PgStore::get_deposit_sweep_txid`].
pub open spec fn get_deposit_sweep_txid_step(
    chain_tip: Seq<u8>,
    txid: Seq<u8>,
    output_index: int,
    min_block_height: int,
) -> StepView<(), Option<Seq<Datum>>> {
    if fits_bigint(min_block_height) && fits_integer(output_index) {
        ask_optional::<BitcoinTxId>(
            sql::GET_DEPOSIT_SWEEP_TXID,
            seq![
                Datum::Bytes(chain_tip),
                Datum::Int8(min_block_height),
                Datum::Bytes(txid),
                Datum::Int4(output_index),
            ],
        )
    } else {
        refused()
    }
}

/// The start of [`PgStore::get_pending_deposit_requests`].
pub open spec fn get_pending_deposit_requests_step(
    chain_tip: Seq<u8>,
    context_window: u16,
    signer_public_key: Seq<u8>,
) -> StepView<(), Seq<Seq<Datum>>> {
    ask_all::<DepositRequest>(
        sql::GET_PENDING_DEPOSIT_REQUESTS,
        seq![
            Datum::Bytes(chain_tip),
            Datum::Int4(context_window as int),
            Datum::Bytes(signer_public_key),
        ],
    )
}

/// The start of [`PgStore::get_deposit_request_signer_votes`].
pub open spec fn get_deposit_request_signer_votes_step(
    txid: Seq<u8>,
    output_index: u32,
    aggregate_key: Seq<u8>,
) -> StepView<((), ()), Seq<Seq<Datum>>> {
    in_converted::<VotesOf>(
        ask_all::<SignerVote>(
            sql::GET_DEPOSIT_REQUEST_SIGNER_VOTES,
            seq![Datum::Bytes(aggregate_key), Datum::Bytes(txid), Datum::Int8(output_index as int)],
        ),
        (),
    )
}

/// The start of [`PgStore::get_deposit_signers`].
pub open spec fn get_deposit_signers_step(
    txid: Seq<u8>,
    output_index: int,
) -> StepView<(), Seq<Seq<Datum>>> {
    if fits_integer(output_index) {
        ask_all::<DepositSigner>(
            sql::GET_DEPOSIT_SIGNERS,
            seq![Datum::Bytes(txid), Datum::Int4(output_index)],
        )
    } else {
        refused()
    }
}

/// The start of [`PgStore::can_sign_deposit_tx`].
pub open spec fn can_sign_deposit_tx_step(
    txid: Seq<u8>,
    output_index: int,
    signer_public_key: Seq<u8>,
) -> StepView<(), Option<Seq<Datum>>> {
    if fits_integer(output_index) {
        ask_optional::<bool>(
            sql::CAN_SIGN_DEPOSIT_TX,
            seq![Datum::Bytes(txid), Datum::Int4(output_index), Datum::Bytes(signer_public_key)],
        )
    } else {
        refused()
    }
}

/// The start of [`PgStore::deposit_request_exists`].
pub open spec fn deposit_request_exists_step(
    txid: Seq<u8>,
    output_index: int,
) -> StepView<(), Seq<Datum>> {
    if fits_integer(output_index) {
        ask_one::<bool>(
            sql::DEPOSIT_REQUEST_EXISTS,
            seq![Datum::Bytes(txid), Datum::Int4(output_index)],
        )
    } else {
        refused()
    }
}

/// The start of [`PgStore::get_deposit_signer_decisions`].
pub open spec fn get_deposit_signer_decisions_step(
    chain_tip: Seq<u8>,
    context_window: u16,
    signer_public_key: Seq<u8>,
) -> StepView<(), Seq<Seq<Datum>>> {
    ask_all::<DepositSigner>(
        sql::GET_DEPOSIT_SIGNER_DECISIONS,
        seq![
            Datum::Bytes(chain_tip),
            Datum::Int4(context_window as int),
            Datum::Bytes(signer_public_key),
        ],
    )
}

impl CompletedDepositEvent {
    /// The values that are stored for it.
    pub open spec fn params(&self) -> Seq<Datum> {
        seq![
            Datum::Bytes(self.txid.0@),
            Datum::Bytes(self.block_id.0@),
            Datum::Int8(self.amount as int),
            Datum::Bytes(self.outpoint.txid.0@),
            Datum::Int8(self.outpoint.vout as int),
            Datum::Bytes(self.sweep_block_hash.0@),
            Datum::Int8(self.sweep_block_height.0 as int),
            Datum::Bytes(self.sweep_txid.0@),
        ]
    }

    /// Whether the numbers in it fit into their columns.
    pub open spec fn storable(&self) -> bool {
        &&& fits_bigint(self.amount as int)
        &&& fits_bigint(self.sweep_block_height.0 as int)
    }
}

/// The values that are stored for several deposit requests, column by column.
pub open spec fn deposit_requests_params(deposit_requests: Seq<DepositRequest>) -> Seq<Datum> {
    seq![
        Datum::BytesArray(deposit_requests.map_values(|req: DepositRequest| req.txid.0@)),
        Datum::Int4Array(
            deposit_requests.map_values(|req: DepositRequest| req.output_index as int),
        ),
        Datum::BytesArray(deposit_requests.map_values(|req: DepositRequest| req.spend_script@)),
        Datum::BytesArray(deposit_requests.map_values(|req: DepositRequest| req.reclaim_script@)),
        Datum::TextArray(deposit_requests.map_values(|req: DepositRequest| req.recipient@)),
        Datum::Int8Array(deposit_requests.map_values(|req: DepositRequest| req.amount as int)),
        Datum::Int8Array(deposit_requests.map_values(|req: DepositRequest| req.max_fee as int)),
        Datum::Int8Array(deposit_requests.map_values(|req: DepositRequest| req.lock_time as int)),
        Datum::BytesArray(
            deposit_requests.map_values(|req: DepositRequest| req.signers_public_key.0@),
        ),
        Datum::TextArray(
            deposit_requests.map_values(
                |req: DepositRequest| joined(script_bytes(req.sender_script_pub_keys@)),
            ),
        ),
    ]
}

/// The start of [`PgStore::write_deposit_requests`].
pub open spec fn write_deposit_requests_step(
    deposit_requests: Seq<DepositRequest>,
) -> StepView<(), ()> {
    if deposit_requests.len() == 0 {
        StepView::Done(Ok(()))
    } else if all_storable(deposit_requests) {
        ask_execute(sql::WRITE_DEPOSIT_REQUESTS, deposit_requests_params(deposit_requests))
    } else {
        refused()
    }
}

/// Asks for the least height at which a deposit request is confirmed.
fn ask_least_height(txid: &BitcoinTxId, output_index: u32) -> (step: Step<
    FetchOptional<BitcoinBlockHeight>,
    Option<BitcoinBlockHeight>,
>)
    ensures
        step_view(step) == get_deposit_request_least_height_step(txid.0@, output_index as int),
{
    let output_index: i32 = match to_integer(output_index) {
        Ok(number) => number,
        Err(error) => {
            return Step::Done(Err(error));
        },
    };
    let params = vec![Value::Bytes(to_bytes(&txid.0)), Value::Int4(output_index)];
    assert(data(params@) =~= seq![Datum::Bytes(txid.0@), Datum::Int4(output_index as int)]);
    FetchOptional::ask(sql::GET_DEPOSIT_REQUEST_LEAST_HEIGHT, params)
}

/// Asks for the transaction that swept a deposit.
fn ask_sweep_txid(
    chain_tip: &BitcoinBlockHash,
    txid: &BitcoinTxId,
    output_index: u32,
    min_block_height: BitcoinBlockHeight,
) -> (step: Step<FetchOptional<BitcoinTxId>, Option<BitcoinTxId>>)
    ensures
        step_view(step) == get_deposit_sweep_txid_step(
            chain_tip.0@,
            txid.0@,
            output_index as int,
            min_block_height.0 as int,
        ),
{
    let min_block_height: i64 = match to_bigint(min_block_height.0) {
        Ok(number) => number,
        Err(error) => {
            return Step::Done(Err(error));
        },
    };
    let output_index: i32 = match to_integer(output_index) {
        Ok(number) => number,
        Err(error) => {
            return Step::Done(Err(error));
        },
    };
    let params = vec![
        Value::Bytes(to_bytes(&chain_tip.0)),
        Value::Int8(min_block_height),
        Value::Bytes(to_bytes(&txid.0)),
        Value::Int4(output_index),
    ];
    assert(data(params@) =~= seq![
        Datum::Bytes(chain_tip.0@),
        Datum::Int8(min_block_height as int),
        Datum::Bytes(txid.0@),
        Datum::Int4(output_index as int),
    ]);
    FetchOptional::ask(sql::GET_DEPOSIT_SWEEP_TXID, params)
}

impl<P> PgStore<P> {
    /// The deposit request for the given output.
    pub fn get_deposit_request(
        &self,
        txid: &BitcoinTxId,
        output_index: u32,
    ) -> (step: Step<FetchOptional<DepositRequest>, Option<DepositRequest>>)
        ensures
            step_view(step) == get_deposit_request_step(txid.0@, output_index as int),
    {
        let output_index: i32 = match to_integer(output_index) {
            Ok(number) => number,
            Err(error) => {
                return Step::Done(Err(error));
            },
        };
        let params = vec![Value::Bytes(to_bytes(&txid.0)), Value::Int4(output_index)];
        assert(data(params@) =~= seq![Datum::Bytes(txid.0@), Datum::Int4(output_index as int)]);
        FetchOptional::ask(sql::GET_DEPOSIT_REQUEST, params)
    }

    /// The least height at which the deposit request is confirmed, over all
    /// bitcoin blockchains, or `None` if there is no record of the request.
    pub fn get_deposit_request_least_height(
        &self,
        txid: &BitcoinTxId,
        output_index: u32,
    ) -> (step: Step<FetchOptional<BitcoinBlockHeight>, Option<BitcoinBlockHeight>>)
        ensures
            step_view(step) == get_deposit_request_least_height_step(
                txid.0@,
                output_index as int,
            ),
    {
        ask_least_height(txid, output_index)
    }

    /// The transaction that swept in the deposit and is confirmed on the
    /// blockchain identified by the chain tip, at or after the minimum height.
    pub fn get_deposit_sweep_txid(
        &self,
        chain_tip: &BitcoinBlockHash,
        txid: &BitcoinTxId,
        output_index: u32,
        min_block_height: BitcoinBlockHeight,
    ) -> (step: Step<FetchOptional<BitcoinTxId>, Option<BitcoinTxId>>)
        ensures
            step_view(step) == get_deposit_sweep_txid_step(
                chain_tip.0@,
                txid.0@,
                output_index as int,
                min_block_height.0 as int,
            ),
    {
        ask_sweep_txid(chain_tip, txid, output_index, min_block_height)
    }

    /// The deposit requests in the context window that the signer has not decided
    /// on.
    pub fn get_pending_deposit_requests(
        &self,
        chain_tip: &BitcoinBlockHash,
        context_window: u16,
        signer_public_key: &PublicKey,
    ) -> (step: Step<FetchAll<DepositRequest>, Vec<DepositRequest>>)
        ensures
            step_view(step) == get_pending_deposit_requests_step(
                chain_tip.0@,
                context_window,
                signer_public_key.0@,
            ),
    {
        let params = vec![
            Value::Bytes(to_bytes(&chain_tip.0)),
            Value::Int4(context_window as i32),
            Value::Bytes(to_bytes(&signer_public_key.0)),
        ];
        assert(data(params@) =~= seq![
            Datum::Bytes(chain_tip.0@),
            Datum::Int4(context_window as int),
            Datum::Bytes(signer_public_key.0@),
        ]);
        FetchAll::ask(sql::GET_PENDING_DEPOSIT_REQUESTS, params)
    }

    /// The votes on a deposit request of the signers behind the aggregate key.
    pub fn get_deposit_request_signer_votes(
        &self,
        txid: &BitcoinTxId,
        output_index: u32,
        aggregate_key: &PublicKey,
    ) -> (step: Step<Converting<VotesOf>, SignerVotes>)
        ensures
            step_view(step) == get_deposit_request_signer_votes_step(
                txid.0@,
                output_index,
                aggregate_key.0@,
            ),
    {
        let params = vec![
            Value::Bytes(to_bytes(&aggregate_key.0)),
            Value::Bytes(to_bytes(&txid.0)),
            Value::Int8(output_index as i64),
        ];
        assert(data(params@) =~= seq![
            Datum::Bytes(aggregate_key.0@),
            Datum::Bytes(txid.0@),
            Datum::Int8(output_index as int),
        ]);
        let step = FetchAll::ask(sql::GET_DEPOSIT_REQUEST_SIGNER_VOTES, params);
        Converting::first(step, VotesOf)
    }

    /// The decisions of all signers on a deposit request.
    pub fn get_deposit_signers(
        &self,
        txid: &BitcoinTxId,
        output_index: u32,
    ) -> (step: Step<FetchAll<DepositSigner>, Vec<DepositSigner>>)
        ensures
            step_view(step) == get_deposit_signers_step(txid.0@, output_index as int),
    {
        let output_index: i32 = match to_integer(output_index) {
            Ok(number) => number,
            Err(error) => {
                return Step::Done(Err(error));
            },
        };
        let params = vec![Value::Bytes(to_bytes(&txid.0)), Value::Int4(output_index)];
        assert(data(params@) =~= seq![Datum::Bytes(txid.0@), Datum::Int4(output_index as int)]);
        FetchAll::ask(sql::GET_DEPOSIT_SIGNERS, params)
    }

    /// Whether the signer is a party to the key that locks the deposit, or `None`
    /// if there is no record of the request.
    pub fn can_sign_deposit_tx(
        &self,
        txid: &BitcoinTxId,
        output_index: u32,
        signer_public_key: &PublicKey,
    ) -> (step: Step<FetchOptional<bool>, Option<bool>>)
        ensures
            step_view(step) == can_sign_deposit_tx_step(
                txid.0@,
                output_index as int,
                signer_public_key.0@,
            ),
    {
        let output_index: i32 = match to_integer(output_index) {
            Ok(number) => number,
            Err(error) => {
                return Step::Done(Err(error));
            },
        };
        let params = vec![
            Value::Bytes(to_bytes(&txid.0)),
            Value::Int4(output_index),
            Value::Bytes(to_bytes(&signer_public_key.0)),
        ];
        assert(data(params@) =~= seq![
            Datum::Bytes(txid.0@),
            Datum::Int4(output_index as int),
            Datum::Bytes(signer_public_key.0@),
        ]);
        FetchOptional::ask(sql::CAN_SIGN_DEPOSIT_TX, params)
    }

    /// Whether there is a record of the deposit request.
    pub fn deposit_request_exists(
        &self,
        txid: &BitcoinTxId,
        output_index: u32,
    ) -> (step: Step<FetchOne<bool>, bool>)
        ensures
            step_view(step) == deposit_request_exists_step(txid.0@, output_index as int),
    {
        let output_index: i32 = match to_integer(output_index) {
            Ok(number) => number,
            Err(error) => {
                return Step::Done(Err(error));
            },
        };
        let params = vec![Value::Bytes(to_bytes(&txid.0)), Value::Int4(output_index)];
        assert(data(params@) =~= seq![Datum::Bytes(txid.0@), Datum::Int4(output_index as int)]);
        FetchOne::ask(sql::DEPOSIT_REQUEST_EXISTS, params)
    }

    /// The signer's decisions on deposit requests since the first block of the
    /// context window was seen.
    pub fn get_deposit_signer_decisions(
        &self,
        chain_tip: &BitcoinBlockHash,
        context_window: u16,
        signer_public_key: &PublicKey,
    ) -> (step: Step<FetchAll<DepositSigner>, Vec<DepositSigner>>)
        ensures
            step_view(step) == get_deposit_signer_decisions_step(
                chain_tip.0@,
                context_window,
                signer_public_key.0@,
            ),
    {
        let params = vec![
            Value::Bytes(to_bytes(&chain_tip.0)),
            Value::Int4(context_window as i32),
            Value::Bytes(to_bytes(&signer_public_key.0)),
        ];
        assert(data(params@) =~= seq![
            Datum::Bytes(chain_tip.0@),
            Datum::Int4(context_window as int),
            Datum::Bytes(signer_public_key.0@),
        ]);
        FetchAll::ask(sql::GET_DEPOSIT_SIGNER_DECISIONS, params)
    }

    /// Stores a deposit request.
    pub fn write_deposit_request(
        &self,
        deposit_request: &DepositRequest,
    ) -> (step: Step<Execute, ()>)
        ensures
            step_view(step) == (if deposit_request.storable() {
                ask_execute(sql::WRITE_DEPOSIT_REQUEST, deposit_request.row())
            } else {
                refused()
            }),
    {
        let output_index: i32 = match to_integer(deposit_request.output_index) {
            Ok(number) => number,
            Err(error) => {
                return Step::Done(Err(error));
            },
        };
        let amount: i64 = match to_bigint(deposit_request.amount) {
            Ok(number) => number,
            Err(error) => {
                return Step::Done(Err(error));
            },
        };
        let max_fee: i64 = match to_bigint(deposit_request.max_fee) {
            Ok(number) => number,
            Err(error) => {
                return Step::Done(Err(error));
            },
        };
        let params = vec![
            Value::Bytes(to_bytes(&deposit_request.txid.0)),
            Value::Int4(output_index),
            Value::Bytes(copy_bytes(&deposit_request.spend_script)),
            Value::Bytes(copy_bytes(&deposit_request.reclaim_script)),
            Value::Text(deposit_request.recipient.clone()),
            Value::Int8(amount),
            Value::Int8(max_fee),
            Value::Int8(deposit_request.lock_time as i64),
            Value::Bytes(to_bytes(&deposit_request.signers_public_key.0)),
            Value::BytesArray(scripts_to_bytes(&deposit_request.sender_script_pub_keys)),
        ];
        assert(data(params@) =~= deposit_request.row());
        Execute::ask(sql::WRITE_DEPOSIT_REQUEST, params)
    }

    /// Stores a decision on a deposit request.
    pub fn write_deposit_signer_decision(
        &self,
        decision: &DepositSigner,
    ) -> (step: Step<Execute, ()>)
        ensures
            step_view(step) == (if decision.storable() {
                ask_execute(sql::WRITE_DEPOSIT_SIGNER_DECISION, decision.row())
            } else {
                refused()
            }),
    {
        let output_index: i32 = match to_integer(decision.output_index) {
            Ok(number) => number,
            Err(error) => {
                return Step::Done(Err(error));
            },
        };
        let params = vec![
            Value::Bytes(to_bytes(&decision.txid.0)),
            Value::Int4(output_index),
            Value::Bytes(to_bytes(&decision.signer_pub_key.0)),
            Value::Bool(decision.can_accept),
            Value::Bool(decision.can_sign),
        ];
        assert(data(params@) =~= decision.row());
        Execute::ask(sql::WRITE_DEPOSIT_SIGNER_DECISION, params)
    }

    /// Stores the completion of a deposit.
    pub fn write_completed_deposit_event(
        &self,
        event: &CompletedDepositEvent,
    ) -> (step: Step<Execute, ()>)
        ensures
            step_view(step) == (if event.storable() {
                ask_execute(sql::WRITE_COMPLETED_DEPOSIT_EVENT, event.params())
            } else {
                refused()
            }),
    {
        let amount: i64 = match to_bigint(event.amount) {
            Ok(number) => number,
            Err(error) => {
                return Step::Done(Err(error));
            },
        };
        let sweep_block_height: i64 = match to_bigint(event.sweep_block_height.0) {
            Ok(number) => number,
            Err(error) => {
                return Step::Done(Err(error));
            },
        };
        let params = vec![
            Value::Bytes(to_bytes(&event.txid.0)),
            Value::Bytes(to_bytes(&event.block_id.0)),
            Value::Int8(amount),
            Value::Bytes(to_bytes(&event.outpoint.txid.0)),
            Value::Int8(event.outpoint.vout as i64),
            Value::Bytes(to_bytes(&event.sweep_block_hash.0)),
            Value::Int8(sweep_block_height),
            Value::Bytes(to_bytes(&event.sweep_txid.0)),
        ];
        assert(data(params@) =~= event.params());
        Execute::ask(sql::WRITE_COMPLETED_DEPOSIT_EVENT, params)
    }
}

impl<P> PgStore<P> {
    /// What the report on a deposit request is made of, or `None` if there is no
    /// record of the request.
    pub fn get_deposit_request_status_summary(
        &self,
        chain_tip: &BitcoinBlockHash,
        txid: &BitcoinTxId,
        output_index: u32,
        signer_public_key: &PublicKey,
    ) -> (step: Step<GetDepositSummary, Option<DepositStatusSummary>>)
        ensures
            step_view(step) == get_deposit_request_status_summary_step(
                (DepositQueryView {
                    chain_tip: chain_tip.0@,
                    txid: txid.0@,
                    output_index: output_index as int,
                    signer_public_key: signer_public_key.0@,
                }),
            ),
    {
        ask_deposit_summary(
            DepositQuery {
                chain_tip: *chain_tip,
                txid: *txid,
                output_index,
                signer_public_key: *signer_public_key,
            },
        )
    }

    /// The report on a deposit request, or `None` if there is no record of the
    /// request.
    pub fn get_deposit_request_report(
        &self,
        chain_tip: &BitcoinBlockHash,
        txid: &BitcoinTxId,
        output_index: u32,
        signer_public_key: &PublicKey,
    ) -> (step: Step<GetDepositReport, Option<DepositRequestReport>>)
        ensures
            step_view(step) == get_deposit_request_report_step(
                (DepositQueryView {
                    chain_tip: chain_tip.0@,
                    txid: txid.0@,
                    output_index: output_index as int,
                    signer_public_key: signer_public_key.0@,
                }),
            ),
    {
        let query = DepositQuery {
            chain_tip: *chain_tip,
            txid: *txid,
            output_index,
            signer_public_key: *signer_public_key,
        };
        Then::first(ask_deposit_summary(query), ReportFrom { query })
    }

    /// The deposit requests in the context window that at least the threshold of
    /// signers accepted and can sign for, that are not swept, and that stay
    /// locked for long enough.
    pub fn get_pending_accepted_deposit_requests(
        &self,
        chain_tip: &BitcoinBlockHash,
        context_window: u16,
        threshold: u16,
    ) -> (step: Step<Then<AcceptedFrom>, Vec<DepositRequest>>)
        ensures
            step_view(step) == get_pending_accepted_deposit_requests_step(
                *chain_tip,
                context_window,
                threshold,
            ),
    {
        let state = AcceptedFrom { chain_tip: *chain_tip, context_window, threshold };
        Then::first(ask_bitcoin_block(chain_tip), state)
    }

    /// The deposit requests that were swept in the context window and whose
    /// completion is not confirmed on the stacks blockchain.
    pub fn get_swept_deposit_requests(
        &self,
        chain_tip: &BitcoinBlockHash,
        context_window: u16,
    ) -> (step: Step<Then<SweptDepositsFrom>, Vec<SweptDepositRequest>>)
        ensures
            step_view(step) == get_swept_deposit_requests_step(chain_tip.0@, context_window),
    {
        let state = SweptDepositsFrom { chain_tip: *chain_tip, context_window };
        Then::first(ask_stacks_chain_tip(chain_tip), state)
    }

    /// Stores deposit requests.
    pub fn write_deposit_requests(
        &self,
        deposit_requests: Vec<DepositRequest>,
    ) -> (step: Step<Execute, ()>)
        ensures
            step_view(step) == write_deposit_requests_step(deposit_requests@),
    {
        if deposit_requests.len() == 0 {
            return Step::Done(Ok(()));
        }
        let mut txid: Vec<Vec<u8>> = Vec::with_capacity(deposit_requests.len());
        let mut output_index: Vec<i32> = Vec::with_capacity(deposit_requests.len());
        let mut spend_script: Vec<Vec<u8>> = Vec::with_capacity(deposit_requests.len());
        let mut reclaim_script: Vec<Vec<u8>> = Vec::with_capacity(deposit_requests.len());
        let mut recipient: Vec<String> = Vec::with_capacity(deposit_requests.len());
        let mut amount: Vec<i64> = Vec::with_capacity(deposit_requests.len());
        let mut max_fee: Vec<i64> = Vec::with_capacity(deposit_requests.len());
        let mut lock_time: Vec<i64> = Vec::with_capacity(deposit_requests.len());
        let mut signers_public_key: Vec<Vec<u8>> = Vec::with_capacity(deposit_requests.len());
        let mut sender_script_pubkeys: Vec<String> = Vec::with_capacity(deposit_requests.len());
        let mut i: usize = 0;
        while i < deposit_requests.len()
            invariant
                i <= deposit_requests@.len(),
                txid@.len() == i,
                output_index@.len() == i,
                spend_script@.len() == i,
                reclaim_script@.len() == i,
                recipient@.len() == i,
                amount@.len() == i,
                max_fee@.len() == i,
                lock_time@.len() == i,
                signers_public_key@.len() == i,
                sender_script_pubkeys@.len() == i,
                forall|j: int| 0 <= j < i ==> (#[trigger] deposit_requests@[j]).storable(),
                forall|j: int| 0 <= j < i ==> #[trigger] txid@[j]@ == deposit_requests@[j].txid.0@,
                forall|j: int|
                    0 <= j < i ==> #[trigger] output_index@[j] == deposit_requests@[j].output_index,
                forall|j: int|
                    0 <= j < i ==> #[trigger] spend_script@[j]@
                        == deposit_requests@[j].spend_script@,
                forall|j: int|
                    0 <= j < i ==> #[trigger] reclaim_script@[j]@
                        == deposit_requests@[j].reclaim_script@,
                forall|j: int|
                    0 <= j < i ==> #[trigger] recipient@[j]@ == deposit_requests@[j].recipient@,
                forall|j: int| 0 <= j < i ==> #[trigger] amount@[j] == deposit_requests@[j].amount,
                forall|j: int|
                    0 <= j < i ==> #[trigger] max_fee@[j] == deposit_requests@[j].max_fee,
                forall|j: int|
                    0 <= j < i ==> #[trigger] lock_time@[j] == deposit_requests@[j].lock_time,
                forall|j: int|
                    0 <= j < i ==> #[trigger] signers_public_key@[j]@
                        == deposit_requests@[j].signers_public_key.0@,
                forall|j: int|
                    0 <= j < i ==> #[trigger] sender_script_pubkeys@[j]@
                        == joined(script_bytes(deposit_requests@[j].sender_script_pub_keys@)),
            decreases deposit_requests@.len() - i,
        {
            let req = &deposit_requests[i];
            let output_index_value: i32 = match to_integer(req.output_index) {
                Ok(number) => number,
                Err(error) => {
                    assert(!deposit_requests@[i as int].storable());
                    return Step::Done(Err(error));
                },
            };
            let amount_value: i64 = match to_bigint(req.amount) {
                Ok(number) => number,
                Err(error) => {
                    assert(!deposit_requests@[i as int].storable());
                    return Step::Done(Err(error));
                },
            };
            let max_fee_value: i64 = match to_bigint(req.max_fee) {
                Ok(number) => number,
                Err(error) => {
                    assert(!deposit_requests@[i as int].storable());
                    return Step::Done(Err(error));
                },
            };
            txid.push(to_bytes(&req.txid.0));
            output_index.push(output_index_value);
            spend_script.push(copy_bytes(&req.spend_script));
            reclaim_script.push(copy_bytes(&req.reclaim_script));
            recipient.push(req.recipient.clone());
            amount.push(amount_value);
            max_fee.push(max_fee_value);
            lock_time.push(req.lock_time as i64);
            signers_public_key.push(to_bytes(&req.signers_public_key.0));
            sender_script_pubkeys.push(join_scripts(&req.sender_script_pub_keys));
            i = i + 1;
        }
        let params = vec![
            Value::BytesArray(txid),
            Value::Int4Array(output_index),
            Value::BytesArray(spend_script),
            Value::BytesArray(reclaim_script),
            Value::TextArray(recipient),
            Value::Int8Array(amount),
            Value::Int8Array(max_fee),
            Value::Int8Array(lock_time),
            Value::BytesArray(signers_public_key),
            Value::TextArray(sender_script_pubkeys),
        ];
        proof {
            let all = deposit_requests_params(deposit_requests@);
            assert(bytes_of(txid@) =~= all[0]->BytesArray_0);
            assert(output_index@.map_values(|n: i32| n as int) =~= all[1]->Int4Array_0);
            assert(bytes_of(spend_script@) =~= all[2]->BytesArray_0);
            assert(bytes_of(reclaim_script@) =~= all[3]->BytesArray_0);
            assert(chars_of(recipient@) =~= all[4]->TextArray_0);
            assert(amount@.map_values(|n: i64| n as int) =~= all[5]->Int8Array_0);
            assert(max_fee@.map_values(|n: i64| n as int) =~= all[6]->Int8Array_0);
            assert(lock_time@.map_values(|n: i64| n as int) =~= all[7]->Int8Array_0);
            assert(bytes_of(signers_public_key@) =~= all[8]->BytesArray_0);
            assert(chars_of(sender_script_pubkeys@) =~= all[9]->TextArray_0);
            assert(data(params@) =~= all);
        }
        Execute::ask(sql::WRITE_DEPOSIT_REQUESTS, params)
    }
}

} // verus!
