//! Withdrawals.

use crate::chain::{
    ask_in_canonical_stacks_blockchain, ask_stacks_chain_tip, get_stacks_chain_tip_step,
    in_canonical_stacks_blockchain_step,
};
use crate::compose::{in_converted, in_first, Continuation, Conversion, Converting, Then};
use crate::convert::{
    copy_bytes, fits_bigint, fits_integer, saturating_sub, to_bigint, to_bytes, to_integer,
};
use crate::error::StoreError;
use crate::fetch::{
    ask_all, ask_execute, ask_one, ask_optional, refused, row_view, rows_view, Execute, FetchAll,
    FetchOne, FetchOptional,
};
use crate::limits::WITHDRAWAL_BLOCKS_EXPIRY;
use crate::model::{
    BitcoinBlockHash, BitcoinBlockHeight, BitcoinBlockRef, BitcoinTxRef, BitcoinWithdrawalOutput,
    PublicKey, QualifiedRequestId, ScriptPubKey, SignerUtxo, SignerVote, SignerVotes, StacksBlock,
    StacksBlockHash, SweptWithdrawalRequest, WithdrawalAcceptEvent, WithdrawalRejectEvent,
    WithdrawalRequest, WithdrawalSigner, WithdrawalTxOutput,
};
use crate::procedure::{step_view, Operation, Procedure, Step, StepView};
use crate::records::WithdrawalStatusSummary;
use crate::row::{as_bool, as_bytes, as_int8, as_optional_bool, FromRow};
use crate::sql;
use crate::store::PgStore;
use crate::sweeps::{
    ask_least_txo_height, ask_signer_utxo, get_least_txo_height_step, get_signer_utxo_step,
    utxo_view, GetSignerUtxo, SignerUtxoView,
};
use crate::value::{bytes_of, chars_of, data, Datum, Value};
use crate::votes::VotesOf;
use vstd::prelude::*;

verus! {

/// Takes a sum, which is missing where there is nothing to add up.
#[derive(Debug)]
pub struct TotalOf;

impl View for TotalOf {
    type V = ();

    open spec fn view(&self) -> () {
        ()
    }
}

impl Conversion for TotalOf {
    type First = FetchOne<Option<i64>>;

    type Converted = u64;

    type ConvertedView = int;

    open spec fn converted(converted: u64) -> int {
        converted as int
    }

    open spec fn conversion(state: (), output: Seq<Datum>) -> Result<int, StoreError> {
        match output[0] {
            Datum::Int8(total) => if total >= 0 {
                Ok(total)
            } else {
                Err(StoreError::TypeConversion)
            },
            _ => Ok(0),
        }
    }

    fn convert(self, output: Option<i64>) -> (result: Result<u64, StoreError>) {
        assert(Self::First::output(output) == output.row());
        match output {
            Some(total) => if total >= 0 {
                Ok(total as u64)
            } else {
                Err(StoreError::TypeConversion)
            },
            None => Ok(0),
        }
    }
}

/// Where a withdrawal request stands.
#[derive(Debug, Clone, Copy, PartialEq, Eq)]
pub enum WithdrawalRequestStatus {
    /// The given transaction paid it.
    Fulfilled(BitcoinTxRef),
    /// It is confirmed on the stacks blockchain, and not paid.
    Confirmed,
    /// It is not confirmed on the stacks blockchain.
    Unconfirmed,
}

/// The content of a [`WithdrawalRequestStatus`].
#[verifier::ext_equal]
pub enum WithdrawalStatusView {
    /// The row of the transaction.
    Fulfilled(Seq<Datum>),
    Confirmed,
    Unconfirmed,
}

impl View for WithdrawalRequestStatus {
    type V = WithdrawalStatusView;

    open spec fn view(&self) -> WithdrawalStatusView {
        match *self {
            WithdrawalRequestStatus::Fulfilled(tx_ref) => WithdrawalStatusView::Fulfilled(
                tx_ref.row(),
            ),
            WithdrawalRequestStatus::Confirmed => WithdrawalStatusView::Confirmed,
            WithdrawalRequestStatus::Unconfirmed => WithdrawalStatusView::Unconfirmed,
        }
    }
}

/// What the signers need to know of a withdrawal request to validate it.
#[derive(Debug)]
pub struct WithdrawalRequestReport {
    /// The request.
    pub id: QualifiedRequestId,
    /// The amount of the withdrawal, in sats.
    pub amount: u64,
    /// The most to spend on the fee of the sweep, in sats.
    pub max_fee: u64,
    /// Whether the signer accepts the withdrawal, unless it has not voted.
    pub is_accepted: Option<bool>,
    /// The script that receives the funds.
    pub recipient: ScriptPubKey,
    /// Where the request stands.
    pub status: WithdrawalRequestStatus,
    /// The height of the bitcoin chain tip when the request was made.
    pub bitcoin_block_height: BitcoinBlockHeight,
}

/// The content of a [`WithdrawalRequestReport`].
#[verifier::ext_equal]
pub struct WithdrawalReportView {
    pub id: QualifiedRequestId,
    pub amount: int,
    pub max_fee: int,
    pub is_accepted: Option<bool>,
    pub recipient: Seq<u8>,
    pub status: WithdrawalStatusView,
    pub bitcoin_block_height: int,
}

impl View for WithdrawalRequestReport {
    type V = WithdrawalReportView;

    open spec fn view(&self) -> WithdrawalReportView {
        WithdrawalReportView {
            id: self.id,
            amount: self.amount as int,
            max_fee: self.max_fee as int,
            is_accepted: self.is_accepted,
            recipient: self.recipient.0@,
            status: self.status@,
            bitcoin_block_height: self.bitcoin_block_height.0 as int,
        }
    }
}

/// The report on a withdrawal request, made of a summary of it and its status.
pub open spec fn withdrawal_report(
    id: QualifiedRequestId,
    summary: Seq<Datum>,
    status: WithdrawalStatusView,
) -> WithdrawalReportView {
    WithdrawalReportView {
        id,
        amount: as_int8(summary[1]),
        max_fee: as_int8(summary[2]),
        is_accepted: as_optional_bool(summary[0]),
        recipient: as_bytes(summary[3]),
        status,
        bitcoin_block_height: as_int8(summary[4]),
    }
}

/// Makes the report on a withdrawal request.
fn make_withdrawal_report(
    id: QualifiedRequestId,
    summary: WithdrawalStatusSummary,
    status: WithdrawalRequestStatus,
) -> (report: WithdrawalRequestReport)
    ensures
        report@ == withdrawal_report(id, summary.row(), status@),
{
    WithdrawalRequestReport {
        id,
        amount: summary.amount,
        max_fee: summary.max_fee,
        is_accepted: summary.is_accepted,
        recipient: summary.recipient,
        status,
        bitcoin_block_height: summary.bitcoin_block_height,
    }
}

/// Makes the report once it is known whether the request is confirmed.
#[derive(Debug)]
pub struct MakeWithdrawalReport {
    pub id: QualifiedRequestId,
    pub summary: WithdrawalStatusSummary,
}

impl View for MakeWithdrawalReport {
    type V = (QualifiedRequestId, Seq<Datum>);

    open spec fn view(&self) -> (QualifiedRequestId, Seq<Datum>) {
        (self.id, self.summary.row())
    }
}

/// The status of a request that is not paid.
pub open spec fn unpaid_status(confirmed: bool) -> WithdrawalStatusView {
    if confirmed {
        WithdrawalStatusView::Confirmed
    } else {
        WithdrawalStatusView::Unconfirmed
    }
}

impl Conversion for MakeWithdrawalReport {
    type First = FetchOne<bool>;

    type Converted = Option<WithdrawalRequestReport>;

    type ConvertedView = Option<WithdrawalReportView>;

    open spec fn converted(converted: Option<WithdrawalRequestReport>) -> Option<
        WithdrawalReportView,
    > {
        match converted {
            Some(report) => Some(report@),
            None => None,
        }
    }

    open spec fn conversion(state: (QualifiedRequestId, Seq<Datum>), output: Seq<Datum>) -> Result<
        Option<WithdrawalReportView>,
        StoreError,
    > {
        Ok(Some(withdrawal_report(state.0, state.1, unpaid_status(as_bool(output[0])))))
    }

    fn convert(self, output: bool) -> (result: Result<
        Option<WithdrawalRequestReport>,
        StoreError,
    >) {
        assert(Self::First::output(output) == output.row());
        let status = if output {
            WithdrawalRequestStatus::Confirmed
        } else {
            WithdrawalRequestStatus::Unconfirmed
        };
        Ok(Some(make_withdrawal_report(self.id, self.summary, status)))
    }
}

/// Goes on once it is known what paid a withdrawal request.
#[derive(Debug)]
pub struct PaidBy {
    pub stacks_chain_tip: StacksBlockHash,
    pub id: QualifiedRequestId,
    pub summary: WithdrawalStatusSummary,
}

/// The content of a [`PaidBy`].
#[verifier::ext_equal]
pub struct PaidByView {
    pub stacks_chain_tip: Seq<u8>,
    pub id: QualifiedRequestId,
    pub summary: Seq<Datum>,
}

impl View for PaidBy {
    type V = PaidByView;

    open spec fn view(&self) -> PaidByView {
        PaidByView {
            stacks_chain_tip: self.stacks_chain_tip.0@,
            id: self.id,
            summary: self.summary.row(),
        }
    }
}

impl Continuation for PaidBy {
    type First = FetchOptional<BitcoinTxRef>;

    type Second = Converting<MakeWithdrawalReport>;

    open spec fn after(state: PaidByView, output: Option<Seq<Datum>>) -> StepView<
        <Converting<MakeWithdrawalReport> as View>::V,
        Option<WithdrawalReportView>,
    > {
        match output {
            Some(tx_ref) => StepView::Done(
                Ok(
                    Some(
                        withdrawal_report(
                            state.id,
                            state.summary,
                            WithdrawalStatusView::Fulfilled(tx_ref),
                        ),
                    ),
                ),
            ),
            None => in_converted::<MakeWithdrawalReport>(
                in_canonical_stacks_blockchain_step(
                    state.stacks_chain_tip,
                    as_bytes(state.summary[5]),
                    as_int8(state.summary[6]),
                ),
                (state.id, state.summary),
            ),
        }
    }

    open spec fn bound(state: PaidByView) -> nat {
        0
    }

    proof fn after_is_bounded(state: PaidByView, output: Option<Seq<Datum>>) {
        if let StepView::Ask(_, second) = Self::after(state, output) {
            assert(Self::Second::rank(second) <= 0);
        }
    }

    fn go_on(self, output: Option<BitcoinTxRef>) -> (step: Step<
        Converting<MakeWithdrawalReport>,
        Option<WithdrawalRequestReport>,
    >) {
        assert(Self::First::output(output) == row_view(output));
        match output {
            Some(tx_ref) => {
                let status = WithdrawalRequestStatus::Fulfilled(tx_ref);
                Step::Done(Ok(Some(make_withdrawal_report(self.id, self.summary, status))))
            },
            None => {
                let step = ask_in_canonical_stacks_blockchain(
                    &self.stacks_chain_tip,
                    &self.summary.stacks_block_hash,
                    self.summary.stacks_block_height,
                );
                Converting::first(step, MakeWithdrawalReport { id: self.id, summary: self.summary })
            },
        }
    }
}

/// Goes on from the summary of a withdrawal request.
#[derive(Debug)]
pub struct WithdrawalReportFrom {
    pub bitcoin_chain_tip: BitcoinBlockHash,
    pub stacks_chain_tip: StacksBlockHash,
    pub id: QualifiedRequestId,
}

/// The content of a [`WithdrawalReportFrom`].
#[verifier::ext_equal]
pub struct WithdrawalReportFromView {
    pub bitcoin_chain_tip: Seq<u8>,
    pub stacks_chain_tip: Seq<u8>,
    pub id: QualifiedRequestId,
}

impl View for WithdrawalReportFrom {
    type V = WithdrawalReportFromView;

    open spec fn view(&self) -> WithdrawalReportFromView {
        WithdrawalReportFromView {
            bitcoin_chain_tip: self.bitcoin_chain_tip.0@,
            stacks_chain_tip: self.stacks_chain_tip.0@,
            id: self.id,
        }
    }
}

impl Continuation for WithdrawalReportFrom {
    type First = FetchOptional<WithdrawalStatusSummary>;

    type Second = Then<PaidBy>;

    open spec fn after(state: WithdrawalReportFromView, output: Option<Seq<Datum>>) -> StepView<
        <Then<PaidBy> as View>::V,
        Option<WithdrawalReportView>,
    > {
        match output {
            Some(summary) => in_first::<PaidBy>(
                get_withdrawal_sweep_info_step(
                    state.bitcoin_chain_tip,
                    state.id.request_id as int,
                    state.id.block_hash.0@,
                ),
                PaidByView { stacks_chain_tip: state.stacks_chain_tip, id: state.id, summary },
            ),
            None => StepView::Done(Ok(None)),
        }
    }

    open spec fn bound(state: WithdrawalReportFromView) -> nat {
        1
    }

    proof fn after_is_bounded(state: WithdrawalReportFromView, output: Option<Seq<Datum>>) {
        if let StepView::Ask(_, second) = Self::after(state, output) {
            assert(Self::Second::rank(second) <= 1);
        }
    }

    fn go_on(self, output: Option<WithdrawalStatusSummary>) -> (step: Step<
        Then<PaidBy>,
        Option<WithdrawalRequestReport>,
    >) {
        assert(Self::First::output(output) == row_view(output));
        match output {
            Some(summary) => {
                let step = ask_sweep_info(&self.bitcoin_chain_tip, &self.id);
                let state = PaidBy {
                    stacks_chain_tip: self.stacks_chain_tip,
                    id: self.id,
                    summary,
                };
                Then::first(step, state)
            },
            None => Step::Done(Ok(None)),
        }
    }
}

/// Makes the report on a withdrawal request.
pub type GetWithdrawalReport = Then<WithdrawalReportFrom>;

/// The start of [`PgStore::get_withdrawal_request_report`].
pub open spec fn get_withdrawal_request_report_step(
    bitcoin_chain_tip: Seq<u8>,
    stacks_chain_tip: Seq<u8>,
    id: QualifiedRequestId,
    signer_public_key: Seq<u8>,
) -> StepView<<GetWithdrawalReport as View>::V, Option<WithdrawalReportView>> {
    in_first::<WithdrawalReportFrom>(
        get_withdrawal_request_status_summary_step(
            id.request_id as int,
            id.block_hash.0@,
            signer_public_key,
        ),
        WithdrawalReportFromView { bitcoin_chain_tip, stacks_chain_tip, id },
    )
}

/// Looks for pending withdrawal requests once the stacks chain tip is known.
#[derive(Debug)]
pub struct PendingFrom {
    pub chain_tip: BitcoinBlockHash,
    pub context_window: u16,
    pub signer_public_key: PublicKey,
}

impl View for PendingFrom {
    type V = (Seq<u8>, u16, Seq<u8>);

    open spec fn view(&self) -> (Seq<u8>, u16, Seq<u8>) {
        (self.chain_tip.0@, self.context_window, self.signer_public_key.0@)
    }
}

impl Continuation for PendingFrom {
    type First = FetchOptional<StacksBlock>;

    type Second = FetchAll<WithdrawalRequest>;

    open spec fn after(state: (Seq<u8>, u16, Seq<u8>), output: Option<Seq<Datum>>) -> StepView<
        (),
        Seq<Seq<Datum>>,
    > {
        match output {
            Some(stacks_chain_tip) => ask_all::<WithdrawalRequest>(
                sql::GET_PENDING_WITHDRAWAL_REQUESTS,
                seq![
                    Datum::Bytes(state.0),
                    stacks_chain_tip[0],
                    Datum::Int4(state.1 as int),
                    Datum::Bytes(state.2),
                ],
            ),
            None => StepView::Done(Ok(Seq::empty())),
        }
    }

    open spec fn bound(state: (Seq<u8>, u16, Seq<u8>)) -> nat {
        0
    }

    proof fn after_is_bounded(state: (Seq<u8>, u16, Seq<u8>), output: Option<Seq<Datum>>) {
        if let StepView::Ask(_, second) = Self::after(state, output) {
            assert(Self::Second::rank(second) <= 0);
        }
    }

    fn go_on(self, output: Option<StacksBlock>) -> (step: Step<
        FetchAll<WithdrawalRequest>,
        Vec<WithdrawalRequest>,
    >) {
        assert(Self::First::output(output) == row_view(output));
        match output {
            Some(stacks_chain_tip) => {
                let params = vec![
                    Value::Bytes(to_bytes(&self.chain_tip.0)),
                    Value::Bytes(to_bytes(&stacks_chain_tip.block_hash.0)),
                    Value::Int4(self.context_window as i32),
                    Value::Bytes(to_bytes(&self.signer_public_key.0)),
                ];
                assert(data(params@) =~= seq![
                    Datum::Bytes(self@.0),
                    stacks_chain_tip.row()[0],
                    Datum::Int4(self@.1 as int),
                    Datum::Bytes(self@.2),
                ]);
                FetchAll::ask(sql::GET_PENDING_WITHDRAWAL_REQUESTS, params)
            },
            None => {
                let none: Vec<WithdrawalRequest> = Vec::new();
                assert(rows_view(none@) =~= Seq::empty());
                Step::Done(Ok(none))
            },
        }
    }
}

/// The start of [`PgStore::get_pending_withdrawal_requests`].
pub open spec fn get_pending_withdrawal_requests_step(
    chain_tip: Seq<u8>,
    context_window: u16,
    signer_public_key: Seq<u8>,
) -> StepView<<Then<PendingFrom> as View>::V, Seq<Seq<Datum>>> {
    in_first::<PendingFrom>(
        get_stacks_chain_tip_step(chain_tip),
        (chain_tip, context_window, signer_public_key),
    )
}

/// The bitcoin height below which a withdrawal request has expired.
pub open spec fn expiration_height(tip_height: int) -> int {
    saturating_sub(tip_height, WITHDRAWAL_BLOCKS_EXPIRY as int)
}

/// Looks for rejected withdrawal requests once the stacks chain tip is known.
#[derive(Debug)]
pub struct RejectedFrom {
    pub chain_tip: BitcoinBlockRef,
    pub context_window: u16,
}

impl View for RejectedFrom {
    type V = (Seq<u8>, int, u16);

    open spec fn view(&self) -> (Seq<u8>, int, u16) {
        (self.chain_tip.block_hash.0@, self.chain_tip.block_height.0 as int, self.context_window)
    }
}

impl Continuation for RejectedFrom {
    type First = FetchOptional<StacksBlock>;

    type Second = FetchAll<WithdrawalRequest>;

    open spec fn after(state: (Seq<u8>, int, u16), output: Option<Seq<Datum>>) -> StepView<
        (),
        Seq<Seq<Datum>>,
    > {
        match output {
            Some(stacks_chain_tip) => if fits_bigint(expiration_height(state.1)) {
                ask_all::<WithdrawalRequest>(
                    sql::GET_PENDING_REJECTED_WITHDRAWAL_REQUESTS,
                    seq![
                        Datum::Bytes(state.0),
                        Datum::Int4(state.2 as int),
                        stacks_chain_tip[0],
                        Datum::Int8(expiration_height(state.1)),
                    ],
                )
            } else {
                refused()
            },
            None => StepView::Done(Ok(Seq::empty())),
        }
    }

    open spec fn bound(state: (Seq<u8>, int, u16)) -> nat {
        0
    }

    proof fn after_is_bounded(state: (Seq<u8>, int, u16), output: Option<Seq<Datum>>) {
        if let StepView::Ask(_, second) = Self::after(state, output) {
            assert(Self::Second::rank(second) <= 0);
        }
    }

    fn go_on(self, output: Option<StacksBlock>) -> (step: Step<
        FetchAll<WithdrawalRequest>,
        Vec<WithdrawalRequest>,
    >) {
        assert(Self::First::output(output) == row_view(output));
        match output {
            Some(stacks_chain_tip) => {
                let height: u64 = self.chain_tip.block_height.0.saturating_sub(
                    WITHDRAWAL_BLOCKS_EXPIRY,
                );
                let expiration_height: i64 = match to_bigint(height) {
                    Ok(number) => number,
                    Err(error) => {
                        return Step::Done(Err(error));
                    },
                };
                let params = vec![
                    Value::Bytes(to_bytes(&self.chain_tip.block_hash.0)),
                    Value::Int4(self.context_window as i32),
                    Value::Bytes(to_bytes(&stacks_chain_tip.block_hash.0)),
                    Value::Int8(expiration_height),
                ];
                assert(data(params@) =~= seq![
                    Datum::Bytes(self@.0),
                    Datum::Int4(self@.2 as int),
                    stacks_chain_tip.row()[0],
                    Datum::Int8(expiration_height as int),
                ]);
                FetchAll::ask(sql::GET_PENDING_REJECTED_WITHDRAWAL_REQUESTS, params)
            },
            None => {
                let none: Vec<WithdrawalRequest> = Vec::new();
                assert(rows_view(none@) =~= Seq::empty());
                Step::Done(Ok(none))
            },
        }
    }
}

/// The start of [`PgStore::get_pending_rejected_withdrawal_requests`].
pub open spec fn get_pending_rejected_withdrawal_requests_step(
    chain_tip: Seq<u8>,
    tip_height: int,
    context_window: u16,
) -> StepView<<Then<RejectedFrom> as View>::V, Seq<Seq<Datum>>> {
    in_first::<RejectedFrom>(
        get_stacks_chain_tip_step(chain_tip),
        (chain_tip, tip_height, context_window),
    )
}

/// Looks for paid withdrawal requests once the stacks chain tip is known.
#[derive(Debug)]
pub struct SweptWithdrawalsFrom {
    pub chain_tip: BitcoinBlockHash,
    pub context_window: u16,
}

impl View for SweptWithdrawalsFrom {
    type V = (Seq<u8>, u16);

    open spec fn view(&self) -> (Seq<u8>, u16) {
        (self.chain_tip.0@, self.context_window)
    }
}

impl Continuation for SweptWithdrawalsFrom {
    type First = FetchOptional<StacksBlock>;

    type Second = FetchAll<SweptWithdrawalRequest>;

    open spec fn after(state: (Seq<u8>, u16), output: Option<Seq<Datum>>) -> StepView<
        (),
        Seq<Seq<Datum>>,
    > {
        match output {
            Some(stacks_chain_tip) => ask_all::<SweptWithdrawalRequest>(
                sql::GET_SWEPT_WITHDRAWAL_REQUESTS,
                seq![
                    Datum::Bytes(state.0),
                    Datum::Int4(state.1 as int),
                    stacks_chain_tip[0],
                ],
            ),
            None => StepView::Done(Ok(Seq::empty())),
        }
    }

    open spec fn bound(state: (Seq<u8>, u16)) -> nat {
        0
    }

    proof fn after_is_bounded(state: (Seq<u8>, u16), output: Option<Seq<Datum>>) {
        if let StepView::Ask(_, second) = Self::after(state, output) {
            assert(Self::Second::rank(second) <= 0);
        }
    }

    fn go_on(self, output: Option<StacksBlock>) -> (step: Step<
        FetchAll<SweptWithdrawalRequest>,
        Vec<SweptWithdrawalRequest>,
    >) {
        assert(Self::First::output(output) == row_view(output));
        match output {
            Some(stacks_chain_tip) => {
                let params = vec![
                    Value::Bytes(to_bytes(&self.chain_tip.0)),
                    Value::Int4(self.context_window as i32),
                    Value::Bytes(to_bytes(&stacks_chain_tip.block_hash.0)),
                ];
                assert(data(params@) =~= seq![
                    Datum::Bytes(self@.0),
                    Datum::Int4(self@.1 as int),
                    stacks_chain_tip.row()[0],
                ]);
                FetchAll::ask(sql::GET_SWEPT_WITHDRAWAL_REQUESTS, params)
            },
            None => {
                let none: Vec<SweptWithdrawalRequest> = Vec::new();
                assert(rows_view(none@) =~= Seq::empty());
                Step::Done(Ok(none))
            },
        }
    }
}

/// The start of [`PgStore::get_swept_withdrawal_requests`].
pub open spec fn get_swept_withdrawal_requests_step(
    chain_tip: Seq<u8>,
    context_window: u16,
) -> StepView<<Then<SweptWithdrawalsFrom> as View>::V, Seq<Seq<Datum>>> {
    in_first::<SweptWithdrawalsFrom>(
        get_stacks_chain_tip_step(chain_tip),
        (chain_tip, context_window),
    )
}

/// Looks for a withdrawal request among the transactions that descend from the
/// signers' unspent output.
#[derive(Debug)]
pub struct InflightFrom {
    pub id: QualifiedRequestId,
}

impl View for InflightFrom {
    type V = (int, Seq<u8>);

    open spec fn view(&self) -> (int, Seq<u8>) {
        (self.id.request_id as int, self.id.block_hash.0@)
    }
}

impl Continuation for InflightFrom {
    type First = GetSignerUtxo;

    type Second = FetchOne<bool>;

    open spec fn after(id: (int, Seq<u8>), output: Option<SignerUtxoView>) -> StepView<
        (),
        Seq<Datum>,
    > {
        match output {
            Some(utxo) => if fits_bigint(id.0) {
                ask_one::<bool>(
                    sql::IS_WITHDRAWAL_INFLIGHT,
                    seq![Datum::Bytes(utxo.txid), Datum::Int8(id.0), Datum::Bytes(id.1)],
                )
            } else {
                refused()
            },
            None => StepView::Done(Ok(false.row())),
        }
    }

    open spec fn bound(id: (int, Seq<u8>)) -> nat {
        0
    }

    proof fn after_is_bounded(id: (int, Seq<u8>), output: Option<SignerUtxoView>) {
        if let StepView::Ask(_, second) = Self::after(id, output) {
            assert(Self::Second::rank(second) <= 0);
        }
    }

    fn go_on(self, output: Option<SignerUtxo>) -> (step: Step<FetchOne<bool>, bool>) {
        assert(Self::First::output(output) == utxo_view(output));
        let txid = match output {
            Some(utxo) => utxo.outpoint.txid,
            None => {
                return Step::Done(Ok(false));
            },
        };
        let request_id: i64 = match to_bigint(self.id.request_id) {
            Ok(number) => number,
            Err(error) => {
                return Step::Done(Err(error));
            },
        };
        let params = vec![
            Value::Bytes(to_bytes(&txid.0)),
            Value::Int8(request_id),
            Value::Bytes(to_bytes(&self.id.block_hash.0)),
        ];
        assert(data(params@) =~= seq![
            Datum::Bytes(txid.0@),
            Datum::Int8(self@.0),
            Datum::Bytes(self@.1),
        ]);
        FetchOne::ask(sql::IS_WITHDRAWAL_INFLIGHT, params)
    }
}

/// Tells whether a withdrawal request is being paid.
pub type IsWithdrawalInflight = Then<InflightFrom>;

/// The start of [`PgStore::is_withdrawal_inflight`].
pub open spec fn is_withdrawal_inflight_step(
    request_id: int,
    block_hash: Seq<u8>,
    bitcoin_chain_tip: Seq<u8>,
) -> StepView<<IsWithdrawalInflight as View>::V, Seq<Datum>> {
    in_first::<InflightFrom>(get_signer_utxo_step(bitcoin_chain_tip), (request_id, block_hash))
}

/// Tells whether a sweep has few confirmations. One that is not confirmed at
/// all may still be in the mempool.
#[derive(Debug)]
pub struct FewConfirmations {
    pub tip_height: BitcoinBlockHeight,
    pub min_confirmations: u64,
}

impl View for FewConfirmations {
    type V = (int, int);

    open spec fn view(&self) -> (int, int) {
        (self.tip_height.0 as int, self.min_confirmations as int)
    }
}

impl Conversion for FewConfirmations {
    type First = FetchOptional<BitcoinBlockHeight>;

    type Converted = bool;

    type ConvertedView = bool;

    open spec fn converted(converted: bool) -> bool {
        converted
    }

    open spec fn conversion(state: (int, int), output: Option<Seq<Datum>>) -> Result<
        bool,
        StoreError,
    > {
        match output {
            Some(row) => Ok(saturating_sub(state.0, as_int8(row[0])) <= state.1),
            None => Ok(true),
        }
    }

    fn convert(self, output: Option<BitcoinBlockHeight>) -> (result: Result<bool, StoreError>) {
        assert(Self::First::output(output) == row_view(output));
        match output {
            Some(least_txo_height) => {
                let txo_confirmations: u64 = self.tip_height.0.saturating_sub(least_txo_height.0);
                Ok(txo_confirmations <= self.min_confirmations)
            },
            None => Ok(true),
        }
    }
}

/// Looks for the first sweep after the signers last considered a withdrawal
/// request.
#[derive(Debug)]
pub struct SweepSince {
    pub chain_tip: BitcoinBlockRef,
    pub min_confirmations: u64,
}

/// The content of a [`SweepSince`].
#[verifier::ext_equal]
pub struct SweepSinceView {
    pub chain_tip: Seq<u8>,
    pub tip_height: int,
    pub min_confirmations: int,
}

impl View for SweepSince {
    type V = SweepSinceView;

    open spec fn view(&self) -> SweepSinceView {
        SweepSinceView {
            chain_tip: self.chain_tip.block_hash.0@,
            tip_height: self.chain_tip.block_height.0 as int,
            min_confirmations: self.min_confirmations as int,
        }
    }
}

impl Continuation for SweepSince {
    type First = FetchOne<Option<BitcoinBlockHeight>>;

    type Second = Converting<FewConfirmations>;

    open spec fn after(state: SweepSinceView, output: Seq<Datum>) -> StepView<
        <Converting<FewConfirmations> as View>::V,
        bool,
    > {
        match output[0] {
            Datum::Int8(height) => in_converted::<FewConfirmations>(
                get_least_txo_height_step(state.chain_tip, height + 1),
                (state.tip_height, state.min_confirmations),
            ),
            _ => StepView::Done(Ok(false)),
        }
    }

    open spec fn bound(state: SweepSinceView) -> nat {
        0
    }

    proof fn after_is_bounded(state: SweepSinceView, output: Seq<Datum>) {
        if let StepView::Ask(_, second) = Self::after(state, output) {
            assert(Self::Second::rank(second) <= 0);
        }
    }

    fn go_on(self, output: Option<BitcoinBlockHeight>) -> (step: Step<
        Converting<FewConfirmations>,
        bool,
    >) {
        assert(Self::First::output(output) == output.row());
        let height: u64 = match output {
            Some(height) => height.0,
            None => {
                return Step::Done(Ok(false));
            },
        };
        let min_block_height: BitcoinBlockHeight = match height.checked_add(1) {
            Some(next) => BitcoinBlockHeight(next),
            None => {
                return Step::Done(Err(StoreError::ConversionDatabaseInt));
            },
        };
        let step = ask_least_txo_height(&self.chain_tip.block_hash, min_block_height);
        let conversion = FewConfirmations {
            tip_height: self.chain_tip.block_height,
            min_confirmations: self.min_confirmations,
        };
        Converting::first(step, conversion)
    }
}

/// Tells whether the signers may still be paying a withdrawal request.
pub type IsWithdrawalActive = Then<SweepSince>;

/// The start of [`PgStore::is_withdrawal_active`].
pub open spec fn is_withdrawal_active_step(
    request_id: int,
    block_hash: Seq<u8>,
    state: SweepSinceView,
) -> StepView<<IsWithdrawalActive as View>::V, bool> {
    if fits_bigint(request_id) {
        in_first::<SweepSince>(
            ask_one::<Option<BitcoinBlockHeight>>(
                sql::LAST_CONSIDERED_HEIGHT,
                seq![Datum::Int8(request_id), Datum::Bytes(block_hash)],
            ),
            state,
        )
    } else {
        refused()
    }
}

impl BitcoinWithdrawalOutput {
    /// Whether the numbers in it fit into their columns.
    pub open spec fn storable(&self) -> bool {
        &&& fits_integer(self.output_index as int)
        &&& fits_bigint(self.request_id as int)
    }
}

/// The start of [`PgStore::get_withdrawal_request_status_summary`].
pub open spec fn get_withdrawal_request_status_summary_step(
    request_id: int,
    block_hash: Seq<u8>,
    signer_public_key: Seq<u8>,
) -> StepView<(), Option<Seq<Datum>>> {
    if fits_bigint(request_id) {
        ask_optional::<WithdrawalStatusSummary>(
            sql::GET_WITHDRAWAL_REQUEST_STATUS_SUMMARY,
            seq![Datum::Bytes(signer_public_key), Datum::Int8(request_id), Datum::Bytes(block_hash)],
        )
    } else {
        refused()
    }
}

/// The start of [`PgStore::get_withdrawal_sweep_info`].
pub open spec fn get_withdrawal_sweep_info_step(
    chain_tip: Seq<u8>,
    request_id: int,
    block_hash: Seq<u8>,
) -> StepView<(), Option<Seq<Datum>>> {
    if fits_bigint(request_id) {
        ask_optional::<BitcoinTxRef>(
            sql::GET_WITHDRAWAL_SWEEP_INFO,
            seq![Datum::Bytes(chain_tip), Datum::Int8(request_id), Datum::Bytes(block_hash)],
        )
    } else {
        refused()
    }
}

/// The start of [`PgStore::get_withdrawal_request_signer_votes`].
pub open spec fn get_withdrawal_request_signer_votes_step(
    txid: Seq<u8>,
    block_hash: Seq<u8>,
    request_id: int,
    aggregate_key: Seq<u8>,
) -> StepView<((), ()), Seq<Seq<Datum>>> {
    if fits_bigint(request_id) {
        in_converted::<VotesOf>(
            ask_all::<SignerVote>(
                sql::GET_WITHDRAWAL_REQUEST_SIGNER_VOTES,
                seq![
                    Datum::Bytes(aggregate_key),
                    Datum::Bytes(txid),
                    Datum::Bytes(block_hash),
                    Datum::Int8(request_id),
                ],
            ),
            (),
        )
    } else {
        refused()
    }
}

/// The start of [`PgStore::get_withdrawal_signers`].
pub open spec fn get_withdrawal_signers_step(
    request_id: int,
    block_hash: Seq<u8>,
) -> StepView<(), Seq<Seq<Datum>>> {
    if fits_bigint(request_id) {
        ask_all::<WithdrawalSigner>(
            sql::GET_WITHDRAWAL_SIGNERS,
            seq![Datum::Int8(request_id), Datum::Bytes(block_hash)],
        )
    } else {
        refused()
    }
}

/// The start of [`PgStore::get_pending_accepted_withdrawal_requests`].
pub open spec fn get_pending_accepted_withdrawal_requests_step(
    bitcoin_chain_tip: Seq<u8>,
    stacks_chain_tip: Seq<u8>,
    min_bitcoin_height: int,
    signature_threshold: u16,
) -> StepView<(), Seq<Seq<Datum>>> {
    if fits_bigint(min_bitcoin_height) {
        ask_all::<WithdrawalRequest>(
            sql::GET_PENDING_ACCEPTED_WITHDRAWAL_REQUESTS,
            seq![
                Datum::Bytes(bitcoin_chain_tip),
                Datum::Bytes(stacks_chain_tip),
                Datum::Int8(min_bitcoin_height),
                Datum::Int8(signature_threshold as int),
            ],
        )
    } else {
        refused()
    }
}

/// The start of [`PgStore::compute_withdrawn_total`].
pub open spec fn compute_withdrawn_total_step(
    bitcoin_chain_tip: Seq<u8>,
    context_window: u16,
) -> StepView<((), ()), int> {
    in_converted::<TotalOf>(
        ask_one::<Option<i64>>(
            sql::COMPUTE_WITHDRAWN_TOTAL,
            seq![Datum::Bytes(bitcoin_chain_tip), Datum::Int4(context_window as int)],
        ),
        (),
    )
}

/// The start of [`PgStore::get_withdrawal_signer_decisions`].
pub open spec fn get_withdrawal_signer_decisions_step(
    chain_tip: Seq<u8>,
    context_window: u16,
    signer_public_key: Seq<u8>,
) -> StepView<(), Seq<Seq<Datum>>> {
    ask_all::<WithdrawalSigner>(
        sql::GET_WITHDRAWAL_SIGNER_DECISIONS,
        seq![
            Datum::Bytes(chain_tip),
            Datum::Int4(context_window as int),
            Datum::Bytes(signer_public_key),
        ],
    )
}

impl WithdrawalAcceptEvent {
    /// The values that are stored for it.
    pub open spec fn params(&self) -> Seq<Datum> {
        seq![
            Datum::Bytes(self.txid.0@),
            Datum::Bytes(self.block_id.0@),
            Datum::Int8(self.request_id as int),
            Datum::Bytes(self.signer_bitmap@),
            Datum::Bytes(self.outpoint.txid.0@),
            Datum::Int8(self.outpoint.vout as int),
            Datum::Int8(self.fee as int),
            Datum::Bytes(self.sweep_block_hash.0@),
            Datum::Int8(self.sweep_block_height.0 as int),
            Datum::Bytes(self.sweep_txid.0@),
        ]
    }

    /// Whether the numbers in it fit into their columns.
    pub open spec fn storable(&self) -> bool {
        &&& fits_bigint(self.request_id as int)
        &&& fits_bigint(self.fee as int)
        &&& fits_bigint(self.sweep_block_height.0 as int)
    }
}

impl WithdrawalRejectEvent {
    /// The values that are stored for it.
    pub open spec fn params(&self) -> Seq<Datum> {
        seq![
            Datum::Bytes(self.txid.0@),
            Datum::Bytes(self.block_id.0@),
            Datum::Int8(self.request_id as int),
            Datum::Bytes(self.signer_bitmap@),
        ]
    }

    /// Whether the numbers in it fit into their columns.
    pub open spec fn storable(&self) -> bool {
        fits_bigint(self.request_id as int)
    }
}

impl WithdrawalTxOutput {
    /// The values that are stored for it.
    pub open spec fn params(&self) -> Seq<Datum> {
        seq![
            Datum::Bytes(self.txid.0@),
            Datum::Int4(self.output_index as int),
            Datum::Int8(self.request_id as int),
        ]
    }

    /// Whether the numbers in it fit into their columns.
    pub open spec fn storable(&self) -> bool {
        &&& fits_integer(self.output_index as int)
        &&& fits_bigint(self.request_id as int)
    }
}

/// The values that are stored for several outputs of proposed transactions, column by column.
pub open spec fn withdrawals_outputs_params(outputs: Seq<BitcoinWithdrawalOutput>) -> Seq<Datum> {
    seq![
        Datum::BytesArray(
            outputs.map_values(|output: BitcoinWithdrawalOutput| output.bitcoin_txid.0@),
        ),
        Datum::BytesArray(
            outputs.map_values(|output: BitcoinWithdrawalOutput| output.bitcoin_chain_tip.0@),
        ),
        Datum::Int4Array(
            outputs.map_values(|output: BitcoinWithdrawalOutput| output.output_index as int),
        ),
        Datum::Int8Array(
            outputs.map_values(|output: BitcoinWithdrawalOutput| output.request_id as int),
        ),
        Datum::BytesArray(
            outputs.map_values(|output: BitcoinWithdrawalOutput| output.stacks_txid.0@),
        ),
        Datum::BytesArray(
            outputs.map_values(|output: BitcoinWithdrawalOutput| output.stacks_block_hash.0@),
        ),
        Datum::TextArray(
            outputs.map_values(|output: BitcoinWithdrawalOutput| output.validation_result@),
        ),
        Datum::BoolArray(
            outputs.map_values(|output: BitcoinWithdrawalOutput| output.is_valid_tx),
        ),
    ]
}

/// The start of [`PgStore::write_bitcoin_withdrawals_outputs`].
pub open spec fn write_bitcoin_withdrawals_outputs_step(
    outputs: Seq<BitcoinWithdrawalOutput>,
) -> StepView<(), ()> {
    if outputs.len() == 0 {
        StepView::Done(Ok(()))
    } else if (forall|i: int| 0 <= i < outputs.len() ==> (#[trigger] outputs[i]).storable()) {
        ask_execute(sql::WRITE_BITCOIN_WITHDRAWALS_OUTPUTS, withdrawals_outputs_params(outputs))
    } else {
        refused()
    }
}

/// Asks for what the report on a withdrawal request is made of.
fn ask_withdrawal_summary(id: &QualifiedRequestId, signer_public_key: &PublicKey) -> (step: Step<
    FetchOptional<WithdrawalStatusSummary>,
    Option<WithdrawalStatusSummary>,
>)
    ensures
        step_view(step) == get_withdrawal_request_status_summary_step(
            id.request_id as int,
            id.block_hash.0@,
            signer_public_key.0@,
        ),
{
    let request_id: i64 = match to_bigint(id.request_id) {
        Ok(number) => number,
        Err(error) => {
            return Step::Done(Err(error));
        },
    };
    let params = vec![
        Value::Bytes(to_bytes(&signer_public_key.0)),
        Value::Int8(request_id),
        Value::Bytes(to_bytes(&id.block_hash.0)),
    ];
    assert(data(params@) =~= seq![
        Datum::Bytes(signer_public_key.0@),
        Datum::Int8(request_id as int),
        Datum::Bytes(id.block_hash.0@),
    ]);
    FetchOptional::ask(sql::GET_WITHDRAWAL_REQUEST_STATUS_SUMMARY, params)
}

/// Asks for the transaction that paid a withdrawal request.
fn ask_sweep_info(chain_tip: &BitcoinBlockHash, id: &QualifiedRequestId) -> (step: Step<
    FetchOptional<BitcoinTxRef>,
    Option<BitcoinTxRef>,
>)
    ensures
        step_view(step) == get_withdrawal_sweep_info_step(
            chain_tip.0@,
            id.request_id as int,
            id.block_hash.0@,
        ),
{
    let request_id: i64 = match to_bigint(id.request_id) {
        Ok(number) => number,
        Err(error) => {
            return Step::Done(Err(error));
        },
    };
    let params = vec![
        Value::Bytes(to_bytes(&chain_tip.0)),
        Value::Int8(request_id),
        Value::Bytes(to_bytes(&id.block_hash.0)),
    ];
    assert(data(params@) =~= seq![
        Datum::Bytes(chain_tip.0@),
        Datum::Int8(request_id as int),
        Datum::Bytes(id.block_hash.0@),
    ]);
    FetchOptional::ask(sql::GET_WITHDRAWAL_SWEEP_INFO, params)
}

impl<P> PgStore<P> {
    /// What the report on a withdrawal request is made of, or `None` if the
    /// request, or the stacks block with it, is not known.
    pub fn get_withdrawal_request_status_summary(
        &self,
        id: &QualifiedRequestId,
        signer_public_key: &PublicKey,
    ) -> (step: Step<FetchOptional<WithdrawalStatusSummary>, Option<WithdrawalStatusSummary>>)
        ensures
            step_view(step) == get_withdrawal_request_status_summary_step(
                id.request_id as int,
                id.block_hash.0@,
                signer_public_key.0@,
            ),
    {
        ask_withdrawal_summary(id, signer_public_key)
    }

    /// The transaction that paid the withdrawal request and is confirmed on the
    /// blockchain identified by the chain tip, with its block.
    pub fn get_withdrawal_sweep_info(
        &self,
        chain_tip: &BitcoinBlockHash,
        id: &QualifiedRequestId,
    ) -> (step: Step<FetchOptional<BitcoinTxRef>, Option<BitcoinTxRef>>)
        ensures
            step_view(step) == get_withdrawal_sweep_info_step(
                chain_tip.0@,
                id.request_id as int,
                id.block_hash.0@,
            ),
    {
        ask_sweep_info(chain_tip, id)
    }

    /// The votes on a withdrawal request of the signers behind the aggregate key.
    pub fn get_withdrawal_request_signer_votes(
        &self,
        id: &QualifiedRequestId,
        aggregate_key: &PublicKey,
    ) -> (step: Step<Converting<VotesOf>, SignerVotes>)
        ensures
            step_view(step) == get_withdrawal_request_signer_votes_step(
                id.txid.0@,
                id.block_hash.0@,
                id.request_id as int,
                aggregate_key.0@,
            ),
    {
        let request_id: i64 = match to_bigint(id.request_id) {
            Ok(number) => number,
            Err(error) => {
                return Step::Done(Err(error));
            },
        };
        let params = vec![
            Value::Bytes(to_bytes(&aggregate_key.0)),
            Value::Bytes(to_bytes(&id.txid.0)),
            Value::Bytes(to_bytes(&id.block_hash.0)),
            Value::Int8(request_id),
        ];
        assert(data(params@) =~= seq![
            Datum::Bytes(aggregate_key.0@),
            Datum::Bytes(id.txid.0@),
            Datum::Bytes(id.block_hash.0@),
            Datum::Int8(request_id as int),
        ]);
        let step = FetchAll::ask(sql::GET_WITHDRAWAL_REQUEST_SIGNER_VOTES, params);
        Converting::first(step, VotesOf)
    }

    /// The decisions of all signers on a withdrawal request.
    pub fn get_withdrawal_signers(
        &self,
        request_id: u64,
        block_hash: &StacksBlockHash,
    ) -> (step: Step<FetchAll<WithdrawalSigner>, Vec<WithdrawalSigner>>)
        ensures
            step_view(step) == get_withdrawal_signers_step(request_id as int, block_hash.0@),
    {
        let request_id: i64 = match to_bigint(request_id) {
            Ok(number) => number,
            Err(error) => {
                return Step::Done(Err(error));
            },
        };
        let params = vec![Value::Int8(request_id), Value::Bytes(to_bytes(&block_hash.0))];
        assert(data(params@) =~= seq![
            Datum::Int8(request_id as int),
            Datum::Bytes(block_hash.0@),
        ]);
        FetchAll::ask(sql::GET_WITHDRAWAL_SIGNERS, params)
    }

    /// The withdrawal requests, from the minimum bitcoin height on, that at least
    /// the threshold of signers accepted and that are neither paid nor rejected on
    /// the blockchains identified by the chain tips.
    pub fn get_pending_accepted_withdrawal_requests(
        &self,
        bitcoin_chain_tip: &BitcoinBlockHash,
        stacks_chain_tip: &StacksBlockHash,
        min_bitcoin_height: BitcoinBlockHeight,
        signature_threshold: u16,
    ) -> (step: Step<FetchAll<WithdrawalRequest>, Vec<WithdrawalRequest>>)
        ensures
            step_view(step) == get_pending_accepted_withdrawal_requests_step(
                bitcoin_chain_tip.0@,
                stacks_chain_tip.0@,
                min_bitcoin_height.0 as int,
                signature_threshold,
            ),
    {
        let min_bitcoin_height: i64 = match to_bigint(min_bitcoin_height.0) {
            Ok(number) => number,
            Err(error) => {
                return Step::Done(Err(error));
            },
        };
        let params = vec![
            Value::Bytes(to_bytes(&bitcoin_chain_tip.0)),
            Value::Bytes(to_bytes(&stacks_chain_tip.0)),
            Value::Int8(min_bitcoin_height),
            Value::Int8(signature_threshold as i64),
        ];
        assert(data(params@) =~= seq![
            Datum::Bytes(bitcoin_chain_tip.0@),
            Datum::Bytes(stacks_chain_tip.0@),
            Datum::Int8(min_bitcoin_height as int),
            Datum::Int8(signature_threshold as int),
        ]);
        FetchAll::ask(sql::GET_PENDING_ACCEPTED_WITHDRAWAL_REQUESTS, params)
    }

    /// The sum of the withdrawals that were paid in the context window, in sats.
    pub fn compute_withdrawn_total(
        &self,
        bitcoin_chain_tip: &BitcoinBlockHash,
        context_window: u16,
    ) -> (step: Step<Converting<TotalOf>, u64>)
        ensures
            step_view(step) == compute_withdrawn_total_step(
                bitcoin_chain_tip.0@,
                context_window,
            ),
    {
        let params = vec![
            Value::Bytes(to_bytes(&bitcoin_chain_tip.0)),
            Value::Int4(context_window as i32),
        ];
        assert(data(params@) =~= seq![
            Datum::Bytes(bitcoin_chain_tip.0@),
            Datum::Int4(context_window as int),
        ]);
        let step = FetchOne::ask(sql::COMPUTE_WITHDRAWN_TOTAL, params);
        Converting::first(step, TotalOf)
    }

    /// The signer's decisions on withdrawal requests since the first block of the
    /// context window was seen.
    pub fn get_withdrawal_signer_decisions(
        &self,
        chain_tip: &BitcoinBlockHash,
        context_window: u16,
        signer_public_key: &PublicKey,
    ) -> (step: Step<FetchAll<WithdrawalSigner>, Vec<WithdrawalSigner>>)
        ensures
            step_view(step) == get_withdrawal_signer_decisions_step(
                chain_tip.0@,
                context_window,
                signer_public_key.0@,
            ),
    {
        let params = vec![
            Value::Bytes(to_bytes(&chain_tip.0)),
            Value::Int4(context_window as i32),
            Value::Bytes(to_bytes(&signer_public_key.0)),
        ];
        assert(data(params@) =~= seq![
            Datum::Bytes(chain_tip.0@),
            Datum::Int4(context_window as int),
            Datum::Bytes(signer_public_key.0@),
        ]);
        FetchAll::ask(sql::GET_WITHDRAWAL_SIGNER_DECISIONS, params)
    }

    /// Stores a withdrawal request.
    pub fn write_withdrawal_request(&self, request: &WithdrawalRequest) -> (step: Step<Execute, ()>)
        ensures
            step_view(step) == (if request.storable() {
                ask_execute(sql::WRITE_WITHDRAWAL_REQUEST, request.row())
            } else {
                refused()
            }),
    {
        let request_id: i64 = match to_bigint(request.request_id) {
            Ok(number) => number,
            Err(error) => {
                return Step::Done(Err(error));
            },
        };
        let amount: i64 = match to_bigint(request.amount) {
            Ok(number) => number,
            Err(error) => {
                return Step::Done(Err(error));
            },
        };
        let max_fee: i64 = match to_bigint(request.max_fee) {
            Ok(number) => number,
            Err(error) => {
                return Step::Done(Err(error));
            },
        };
        let bitcoin_block_height: i64 = match to_bigint(request.bitcoin_block_height.0) {
            Ok(number) => number,
            Err(error) => {
                return Step::Done(Err(error));
            },
        };
        let params = vec![
            Value::Int8(request_id),
            Value::Bytes(to_bytes(&request.txid.0)),
            Value::Bytes(to_bytes(&request.block_hash.0)),
            Value::Bytes(copy_bytes(&request.recipient.0)),
            Value::Int8(amount),
            Value::Int8(max_fee),
            Value::Text(request.sender_address.clone()),
            Value::Int8(bitcoin_block_height),
        ];
        assert(data(params@) =~= request.row());
        Execute::ask(sql::WRITE_WITHDRAWAL_REQUEST, params)
    }

    /// Stores a decision on a withdrawal request.
    pub fn write_withdrawal_signer_decision(
        &self,
        decision: &WithdrawalSigner,
    ) -> (step: Step<Execute, ()>)
        ensures
            step_view(step) == (if decision.storable() {
                ask_execute(sql::WRITE_WITHDRAWAL_SIGNER_DECISION, decision.row())
            } else {
                refused()
            }),
    {
        let request_id: i64 = match to_bigint(decision.request_id) {
            Ok(number) => number,
            Err(error) => {
                return Step::Done(Err(error));
            },
        };
        let params = vec![
            Value::Int8(request_id),
            Value::Bytes(to_bytes(&decision.txid.0)),
            Value::Bytes(to_bytes(&decision.block_hash.0)),
            Value::Bytes(to_bytes(&decision.signer_pub_key.0)),
            Value::Bool(decision.is_accepted),
        ];
        assert(data(params@) =~= decision.row());
        Execute::ask(sql::WRITE_WITHDRAWAL_SIGNER_DECISION, params)
    }

    /// Stores the payment of a withdrawal request.
    pub fn write_withdrawal_accept_event(
        &self,
        event: &WithdrawalAcceptEvent,
    ) -> (step: Step<Execute, ()>)
        ensures
            step_view(step) == (if event.storable() {
                ask_execute(sql::WRITE_WITHDRAWAL_ACCEPT_EVENT, event.params())
            } else {
                refused()
            }),
    {
        let request_id: i64 = match to_bigint(event.request_id) {
            Ok(number) => number,
            Err(error) => {
                return Step::Done(Err(error));
            },
        };
        let fee: i64 = match to_bigint(event.fee) {
            Ok(number) => number,
            Err(error) => {
                return Step::Done(Err(error));
            },
        };
        let sweep_block_height: i64 = match to_bigint(event.sweep_block_height.0) {
            Ok(number) => number,
            Err(error) => {
                return Step::Done(Err(error));
            },
        };
        let params = vec![
            Value::Bytes(to_bytes(&event.txid.0)),
            Value::Bytes(to_bytes(&event.block_id.0)),
            Value::Int8(request_id),
            Value::Bytes(to_bytes(&event.signer_bitmap)),
            Value::Bytes(to_bytes(&event.outpoint.txid.0)),
            Value::Int8(event.outpoint.vout as i64),
            Value::Int8(fee),
            Value::Bytes(to_bytes(&event.sweep_block_hash.0)),
            Value::Int8(sweep_block_height),
            Value::Bytes(to_bytes(&event.sweep_txid.0)),
        ];
        assert(data(params@) =~= event.params());
        Execute::ask(sql::WRITE_WITHDRAWAL_ACCEPT_EVENT, params)
    }

    /// Stores the rejection of a withdrawal request.
    pub fn write_withdrawal_reject_event(
        &self,
        event: &WithdrawalRejectEvent,
    ) -> (step: Step<Execute, ()>)
        ensures
            step_view(step) == (if event.storable() {
                ask_execute(sql::WRITE_WITHDRAWAL_REJECT_EVENT, event.params())
            } else {
                refused()
            }),
    {
        let request_id: i64 = match to_bigint(event.request_id) {
            Ok(number) => number,
            Err(error) => {
                return Step::Done(Err(error));
            },
        };
        let params = vec![
            Value::Bytes(to_bytes(&event.txid.0)),
            Value::Bytes(to_bytes(&event.block_id.0)),
            Value::Int8(request_id),
            Value::Bytes(to_bytes(&event.signer_bitmap)),
        ];
        assert(data(params@) =~= event.params());
        Execute::ask(sql::WRITE_WITHDRAWAL_REJECT_EVENT, params)
    }

    /// Stores an output that pays a withdrawal request.
    pub fn write_withdrawal_tx_output(
        &self,
        output: &WithdrawalTxOutput,
    ) -> (step: Step<Execute, ()>)
        ensures
            step_view(step) == (if output.storable() {
                ask_execute(sql::WRITE_WITHDRAWAL_TX_OUTPUT, output.params())
            } else {
                refused()
            }),
    {
        let output_index: i32 = match to_integer(output.output_index) {
            Ok(number) => number,
            Err(error) => {
                return Step::Done(Err(error));
            },
        };
        let request_id: i64 = match to_bigint(output.request_id) {
            Ok(number) => number,
            Err(error) => {
                return Step::Done(Err(error));
            },
        };
        let params = vec![
            Value::Bytes(to_bytes(&output.txid.0)),
            Value::Int4(output_index),
            Value::Int8(request_id),
        ];
        assert(data(params@) =~= output.params());
        Execute::ask(sql::WRITE_WITHDRAWAL_TX_OUTPUT, params)
    }
}

impl<P> PgStore<P> {
    /// The report on a withdrawal request, or `None` if the request, or the
    /// stacks block with it, is not known.
    pub fn get_withdrawal_request_report(
        &self,
        bitcoin_chain_tip: &BitcoinBlockHash,
        stacks_chain_tip: &StacksBlockHash,
        id: &QualifiedRequestId,
        signer_public_key: &PublicKey,
    ) -> (step: Step<GetWithdrawalReport, Option<WithdrawalRequestReport>>)
        ensures
            step_view(step) == get_withdrawal_request_report_step(
                bitcoin_chain_tip.0@,
                stacks_chain_tip.0@,
                *id,
                signer_public_key.0@,
            ),
    {
        let state = WithdrawalReportFrom {
            bitcoin_chain_tip: *bitcoin_chain_tip,
            stacks_chain_tip: *stacks_chain_tip,
            id: *id,
        };
        Then::first(ask_withdrawal_summary(id, signer_public_key), state)
    }

    /// The withdrawal requests in the context window that the signer has not
    /// decided on.
    pub fn get_pending_withdrawal_requests(
        &self,
        chain_tip: &BitcoinBlockHash,
        context_window: u16,
        signer_public_key: &PublicKey,
    ) -> (step: Step<Then<PendingFrom>, Vec<WithdrawalRequest>>)
        ensures
            step_view(step) == get_pending_withdrawal_requests_step(
                chain_tip.0@,
                context_window,
                signer_public_key.0@,
            ),
    {
        let state = PendingFrom {
            chain_tip: *chain_tip,
            context_window,
            signer_public_key: *signer_public_key,
        };
        Then::first(ask_stacks_chain_tip(chain_tip), state)
    }

    /// The withdrawal requests in the context window that have expired and are
    /// neither paid nor rejected.
    pub fn get_pending_rejected_withdrawal_requests(
        &self,
        chain_tip: &BitcoinBlockRef,
        context_window: u16,
    ) -> (step: Step<Then<RejectedFrom>, Vec<WithdrawalRequest>>)
        ensures
            step_view(step) == get_pending_rejected_withdrawal_requests_step(
                chain_tip.block_hash.0@,
                chain_tip.block_height.0 as int,
                context_window,
            ),
    {
        let state = RejectedFrom { chain_tip: *chain_tip, context_window };
        Then::first(ask_stacks_chain_tip(&chain_tip.block_hash), state)
    }

    /// The withdrawal requests that were paid in the context window and whose
    /// completion is not confirmed on the stacks blockchain.
    pub fn get_swept_withdrawal_requests(
        &self,
        chain_tip: &BitcoinBlockHash,
        context_window: u16,
    ) -> (step: Step<Then<SweptWithdrawalsFrom>, Vec<SweptWithdrawalRequest>>)
        ensures
            step_view(step) == get_swept_withdrawal_requests_step(chain_tip.0@, context_window),
    {
        let state = SweptWithdrawalsFrom { chain_tip: *chain_tip, context_window };
        Then::first(ask_stacks_chain_tip(chain_tip), state)
    }

    /// Whether a transaction that pays the withdrawal request has been proposed
    /// and descends from the signers' unspent output.
    pub fn is_withdrawal_inflight(
        &self,
        id: &QualifiedRequestId,
        bitcoin_chain_tip: &BitcoinBlockHash,
    ) -> (step: Step<IsWithdrawalInflight, bool>)
        ensures
            step_view(step) == is_withdrawal_inflight_step(
                id.request_id as int,
                id.block_hash.0@,
                bitcoin_chain_tip.0@,
            ),
    {
        Then::first(ask_signer_utxo(bitcoin_chain_tip), InflightFrom { id: *id })
    }

    /// Whether the signers may still be paying the withdrawal request: they
    /// considered it, and the first sweep after that has no more than the given
    /// number of confirmations.
    pub fn is_withdrawal_active(
        &self,
        id: &QualifiedRequestId,
        bitcoin_chain_tip: &BitcoinBlockRef,
        min_confirmations: u64,
    ) -> (step: Step<IsWithdrawalActive, bool>)
        ensures
            step_view(step) == is_withdrawal_active_step(
                id.request_id as int,
                id.block_hash.0@,
                (SweepSinceView {
                    chain_tip: bitcoin_chain_tip.block_hash.0@,
                    tip_height: bitcoin_chain_tip.block_height.0 as int,
                    min_confirmations: min_confirmations as int,
                }),
            ),
    {
        let request_id: i64 = match to_bigint(id.request_id) {
            Ok(number) => number,
            Err(error) => {
                return Step::Done(Err(error));
            },
        };
        let params = vec![
            Value::Int8(request_id),
            Value::Bytes(to_bytes(&id.block_hash.0)),
        ];
        assert(data(params@) =~= seq![
            Datum::Int8(request_id as int),
            Datum::Bytes(id.block_hash.0@),
        ]);
        let step = FetchOne::ask(sql::LAST_CONSIDERED_HEIGHT, params);
        Then::first(step, SweepSince { chain_tip: *bitcoin_chain_tip, min_confirmations })
    }

    /// Stores outputs of proposed transactions.
    pub fn write_bitcoin_withdrawals_outputs(
        &self,
        withdrawal_outputs: &[BitcoinWithdrawalOutput],
    ) -> (step: Step<Execute, ()>)
        ensures
            step_view(step) == write_bitcoin_withdrawals_outputs_step(withdrawal_outputs@),
    {
        if withdrawal_outputs.len() == 0 {
            return Step::Done(Ok(()));
        }
        let mut bitcoin_txid: Vec<Vec<u8>> = Vec::with_capacity(withdrawal_outputs.len());
        let mut bitcoin_chain_tip: Vec<Vec<u8>> = Vec::with_capacity(withdrawal_outputs.len());
        let mut output_index: Vec<i32> = Vec::with_capacity(withdrawal_outputs.len());
        let mut request_id: Vec<i64> = Vec::with_capacity(withdrawal_outputs.len());
        let mut stacks_txid: Vec<Vec<u8>> = Vec::with_capacity(withdrawal_outputs.len());
        let mut stacks_block_hash: Vec<Vec<u8>> = Vec::with_capacity(withdrawal_outputs.len());
        let mut validation_result: Vec<String> = Vec::with_capacity(withdrawal_outputs.len());
        let mut is_valid_tx: Vec<bool> = Vec::with_capacity(withdrawal_outputs.len());
        let mut i: usize = 0;
        while i < withdrawal_outputs.len()
            invariant
                i <= withdrawal_outputs@.len(),
                bitcoin_txid@.len() == i,
                bitcoin_chain_tip@.len() == i,
                output_index@.len() == i,
                request_id@.len() == i,
                stacks_txid@.len() == i,
                stacks_block_hash@.len() == i,
                validation_result@.len() == i,
                is_valid_tx@.len() == i,
                forall|j: int| 0 <= j < i ==> (#[trigger] withdrawal_outputs@[j]).storable(),
                forall|j: int|
                    0 <= j < i ==> #[trigger] bitcoin_txid@[j]@
                        == withdrawal_outputs@[j].bitcoin_txid.0@,
                forall|j: int|
                    0 <= j < i ==> #[trigger] bitcoin_chain_tip@[j]@
                        == withdrawal_outputs@[j].bitcoin_chain_tip.0@,
                forall|j: int|
                    0 <= j < i ==> #[trigger] output_index@[j]
                        == withdrawal_outputs@[j].output_index,
                forall|j: int|
                    0 <= j < i ==> #[trigger] request_id@[j] == withdrawal_outputs@[j].request_id,
                forall|j: int|
                    0 <= j < i ==> #[trigger] stacks_txid@[j]@
                        == withdrawal_outputs@[j].stacks_txid.0@,
                forall|j: int|
                    0 <= j < i ==> #[trigger] stacks_block_hash@[j]@
                        == withdrawal_outputs@[j].stacks_block_hash.0@,
                forall|j: int|
                    0 <= j < i ==> #[trigger] validation_result@[j]@
                        == withdrawal_outputs@[j].validation_result@,
                forall|j: int|
                    0 <= j < i ==> #[trigger] is_valid_tx@[j] == withdrawal_outputs@[j].is_valid_tx,
            decreases withdrawal_outputs@.len() - i,
        {
            let output = &withdrawal_outputs[i];
            let output_index_value: i32 = match to_integer(output.output_index) {
                Ok(number) => number,
                Err(error) => {
                    assert(!withdrawal_outputs@[i as int].storable());
                    return Step::Done(Err(error));
                },
            };
            let request_id_value: i64 = match to_bigint(output.request_id) {
                Ok(number) => number,
                Err(error) => {
                    assert(!withdrawal_outputs@[i as int].storable());
                    return Step::Done(Err(error));
                },
            };
            bitcoin_txid.push(to_bytes(&output.bitcoin_txid.0));
            bitcoin_chain_tip.push(to_bytes(&output.bitcoin_chain_tip.0));
            output_index.push(output_index_value);
            request_id.push(request_id_value);
            stacks_txid.push(to_bytes(&output.stacks_txid.0));
            stacks_block_hash.push(to_bytes(&output.stacks_block_hash.0));
            validation_result.push(output.validation_result.clone());
            is_valid_tx.push(output.is_valid_tx);
            i = i + 1;
        }
        let params = vec![
            Value::BytesArray(bitcoin_txid),
            Value::BytesArray(bitcoin_chain_tip),
            Value::Int4Array(output_index),
            Value::Int8Array(request_id),
            Value::BytesArray(stacks_txid),
            Value::BytesArray(stacks_block_hash),
            Value::TextArray(validation_result),
            Value::BoolArray(is_valid_tx),
        ];
        proof {
            let all = withdrawals_outputs_params(withdrawal_outputs@);
            assert(bytes_of(bitcoin_txid@) =~= all[0]->BytesArray_0);
            assert(bytes_of(bitcoin_chain_tip@) =~= all[1]->BytesArray_0);
            assert(output_index@.map_values(|n: i32| n as int) =~= all[2]->Int4Array_0);
            assert(request_id@.map_values(|n: i64| n as int) =~= all[3]->Int8Array_0);
            assert(bytes_of(stacks_txid@) =~= all[4]->BytesArray_0);
            assert(bytes_of(stacks_block_hash@) =~= all[5]->BytesArray_0);
            assert(chars_of(validation_result@) =~= all[6]->TextArray_0);
            assert(is_valid_tx@ =~= all[7]->BoolArray_0);
            assert(data(params@) =~= all);
        }
        Execute::ask(sql::WRITE_BITCOIN_WITHDRAWALS_OUTPUTS, params)
    }
}

} // verus!
