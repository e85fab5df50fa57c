//! The transactions of the signers and the output that holds their funds.

use crate::compose::{in_converted, in_first, in_second, Continuation, Conversion, Converting, Then};
use crate::convert::{
    copy_bytes, fits_bigint, fits_integer, saturating_sub, to_bigint, to_bytes, to_integer, x_only,
};
use crate::error::StoreError;
use crate::fetch::{ask_execute, ask_optional, refused, row_view, Execute, FetchOptional};
use crate::limits::{MAX_MEMPOOL_PACKAGE_TX_COUNT, MAX_REORG_BLOCK_COUNT};
use crate::model::{
    BitcoinBlockHash, BitcoinBlockHeight, BitcoinTxSigHash, OutPoint, PublicKeyXOnly, SigHash,
    SignerUtxo, TxOutput, TxOutputType, TxPrevout,
};
use crate::procedure::{step_view, Operation, Step, StepView};
use crate::records::{PgCandidateUtxo, PgSignerUtxo};
use crate::row::{as_bytes, as_int4, as_int8};
use crate::sql;
use crate::store::PgStore;
use crate::value::{bytes_of, chars_of, data, Datum, PgEnum, Value};
use vstd::prelude::*;

verus! {

/// The content of a [`SignerUtxo`].
#[verifier::ext_equal]
pub struct SignerUtxoView {
    pub txid: Seq<u8>,
    pub vout: int,
    pub amount: int,
    pub public_key: Seq<u8>,
}

impl View for SignerUtxo {
    type V = SignerUtxoView;

    open spec fn view(&self) -> SignerUtxoView {
        SignerUtxoView {
            txid: self.outpoint.txid.0@,
            vout: self.outpoint.vout as int,
            amount: self.amount as int,
            public_key: self.public_key.0@,
        }
    }
}

/// The unspent output that a row tells of.
pub open spec fn signer_utxo_of(row: Seq<Datum>) -> SignerUtxoView {
    SignerUtxoView {
        txid: as_bytes(row[0]),
        vout: as_int4(row[1]),
        amount: as_int8(row[2]),
        public_key: x_only(as_bytes(row[3])),
    }
}

/// The content of an unspent output that may be missing.
pub open spec fn utxo_view(utxo: Option<SignerUtxo>) -> Option<SignerUtxoView> {
    match utxo {
        Some(utxo) => Some(utxo@),
        None => None,
    }
}

/// Makes the unspent output of the signers from a row.
#[derive(Debug)]
pub struct SignerUtxoOf;

impl View for SignerUtxoOf {
    type V = ();

    open spec fn view(&self) -> () {
        ()
    }
}

impl Conversion for SignerUtxoOf {
    type First = FetchOptional<PgSignerUtxo>;

    type Converted = Option<SignerUtxo>;

    type ConvertedView = Option<SignerUtxoView>;

    open spec fn converted(converted: Option<SignerUtxo>) -> Option<SignerUtxoView> {
        utxo_view(converted)
    }

    open spec fn conversion(state: (), output: Option<Seq<Datum>>) -> Result<
        Option<SignerUtxoView>,
        StoreError,
    > {
        match output {
            Some(row) => Ok(Some(signer_utxo_of(row))),
            None => Ok(None),
        }
    }

    fn convert(self, output: Option<PgSignerUtxo>) -> (result: Result<
        Option<SignerUtxo>,
        StoreError,
    >) {
        assert(Self::First::output(output) == row_view(output));
        match output {
            Some(pg_txo) => Ok(
                Some(
                    SignerUtxo {
                        outpoint: OutPoint { txid: pg_txo.txid, vout: pg_txo.output_index },
                        amount: pg_txo.amount,
                        public_key: pg_txo.aggregate_key.x_only(),
                    },
                ),
            ),
            None => Ok(None),
        }
    }
}

/// Looks for the unspent output of the signers.
pub type GetUtxo = Converting<SignerUtxoOf>;

/// The search for an unspent output with the given statement.
pub open spec fn utxo_step(
    sql: &'static str,
    chain_tip: Seq<u8>,
    output_type: TxOutputType,
    min_block_height: int,
) -> StepView<<GetUtxo as View>::V, Option<SignerUtxoView>> {
    if fits_bigint(min_block_height) {
        in_converted::<SignerUtxoOf>(
            ask_optional::<PgSignerUtxo>(
                sql,
                seq![
                    Datum::Bytes(chain_tip),
                    Datum::Int8(min_block_height),
                    Datum::Label(PgEnum::OutputType, output_type.spec_label()),
                ],
            ),
            (),
        )
    } else {
        refused()
    }
}

/// The start of [`PgStore::get_utxo`].
pub open spec fn get_utxo_step(
    chain_tip: Seq<u8>,
    output_type: TxOutputType,
    min_block_height: int,
) -> StepView<<GetUtxo as View>::V, Option<SignerUtxoView>> {
    utxo_step(sql::GET_UTXO, chain_tip, output_type, min_block_height)
}

/// The search for the lowest donation, from a height on.
pub open spec fn lowest_donation_step(chain_tip: Seq<u8>, min_block_height: int) -> StepView<
    <GetUtxo as View>::V,
    Option<SignerUtxoView>,
> {
    utxo_step(sql::GET_DONATION_UTXO, chain_tip, TxOutputType::Donation, min_block_height)
}

/// Looks for an unspent output of the given type, on the blockchain identified
/// by the chain tip, from the minimum height on, with the given statement.
fn ask_utxo(
    sql: &'static str,
    chain_tip: &BitcoinBlockHash,
    output_type: TxOutputType,
    min_block_height: BitcoinBlockHeight,
) -> (step: Step<GetUtxo, Option<SignerUtxo>>)
    ensures
        step_view(step) == utxo_step(sql, chain_tip.0@, output_type, min_block_height.0 as int),
{
    let min_block_height: i64 = match to_bigint(min_block_height.0) {
        Ok(number) => number,
        Err(error) => {
            return Step::Done(Err(error));
        },
    };
    let params = vec![
        Value::Bytes(to_bytes(&chain_tip.0)),
        Value::Int8(min_block_height),
        Value::Label(PgEnum::OutputType, output_type.label()),
    ];
    assert(data(params@) =~= seq![
        Datum::Bytes(chain_tip.0@),
        Datum::Int8(min_block_height as int),
        Datum::Label(PgEnum::OutputType, output_type.spec_label()),
    ]);
    let step = FetchOptional::ask(sql, params);
    Converting::first(step, SignerUtxoOf)
}

/// Looks for a donation once the height of the earliest one is known.
#[derive(Debug)]
pub struct DonationFrom {
    pub chain_tip: BitcoinBlockHash,
}

impl View for DonationFrom {
    type V = Seq<u8>;

    open spec fn view(&self) -> Seq<u8> {
        self.chain_tip.0@
    }
}

impl Continuation for DonationFrom {
    type First = FetchOptional<BitcoinBlockHeight>;

    type Second = GetUtxo;

    open spec fn after(chain_tip: Seq<u8>, output: Option<Seq<Datum>>) -> StepView<
        <GetUtxo as View>::V,
        Option<SignerUtxoView>,
    > {
        match output {
            Some(row) => lowest_donation_step(chain_tip, as_int8(row[0])),
            None => StepView::Done(Ok(None)),
        }
    }

    open spec fn bound(chain_tip: Seq<u8>) -> nat {
        0
    }

    proof fn after_is_bounded(chain_tip: Seq<u8>, output: Option<Seq<Datum>>) {
    }

    fn go_on(self, output: Option<BitcoinBlockHeight>) -> (step: Step<
        GetUtxo,
        Option<SignerUtxo>,
    >) {
        assert(Self::First::output(output) == row_view(output));
        match output {
            Some(min_block_height) => ask_utxo(
                sql::GET_DONATION_UTXO,
                &self.chain_tip,
                TxOutputType::Donation,
                min_block_height,
            ),
            None => Step::Done(Ok(None)),
        }
    }
}

/// Looks for a donation.
pub type GetDonationUtxo = Then<DonationFrom>;

/// The start of [`PgStore::get_donation_utxo`].
pub open spec fn get_donation_utxo_step(chain_tip: Seq<u8>) -> StepView<
    <GetDonationUtxo as View>::V,
    Option<SignerUtxoView>,
> {
    in_first::<DonationFrom>(minimum_donation_txo_height_step(), chain_tip)
}

/// Asks for the height of the earliest donation.
fn ask_donation_height() -> (step: Step<
    FetchOptional<BitcoinBlockHeight>,
    Option<BitcoinBlockHeight>,
>)
    ensures
        step_view(step) == minimum_donation_txo_height_step(),
{
    let params: Vec<Value> = Vec::new();
    assert(data(params@) =~= Seq::empty());
    FetchOptional::ask(sql::MINIMUM_DONATION_TXO_HEIGHT, params)
}

/// Looks for a donation.
fn ask_donation(chain_tip: &BitcoinBlockHash) -> (step: Step<GetDonationUtxo, Option<SignerUtxo>>)
    ensures
        step_view(step) == get_donation_utxo_step(chain_tip.0@),
{
    Then::first(ask_donation_height(), DonationFrom { chain_tip: *chain_tip })
}

/// Asks for the height of the first sweep from a height on.
pub(crate) fn ask_least_txo_height(
    chain_tip: &BitcoinBlockHash,
    min_block_height: BitcoinBlockHeight,
) -> (step: Step<FetchOptional<BitcoinBlockHeight>, Option<BitcoinBlockHeight>>)
    ensures
        step_view(step) == get_least_txo_height_step(chain_tip.0@, min_block_height.0 as int),
{
    let min_block_height: i64 = match to_bigint(min_block_height.0) {
        Ok(number) => number,
        Err(error) => {
            return Step::Done(Err(error));
        },
    };
    let params = vec![Value::Bytes(to_bytes(&chain_tip.0)), Value::Int8(min_block_height)];
    assert(data(params@) =~= seq![
        Datum::Bytes(chain_tip.0@),
        Datum::Int8(min_block_height as int),
    ]);
    FetchOptional::ask(sql::GET_LEAST_TXO_HEIGHT, params)
}

/// The most sweeps that the signers could get confirmed in the deepest
/// reorganization, and one more.
pub open spec fn max_transactions() -> int {
    MAX_MEMPOOL_PACKAGE_TX_COUNT * MAX_REORG_BLOCK_COUNT + 1
}

/// Takes the height that was found, or else the candidate.
#[derive(Debug)]
pub struct OrCandidate {
    pub candidate: BitcoinBlockHeight,
}

impl View for OrCandidate {
    type V = int;

    open spec fn view(&self) -> int {
        self.candidate.0 as int
    }
}

/// The number in a height that may be missing.
pub open spec fn height_view(height: Option<BitcoinBlockHeight>) -> Option<int> {
    match height {
        Some(height) => Some(height.0 as int),
        None => None,
    }
}

impl Conversion for OrCandidate {
    type First = FetchOptional<BitcoinBlockHeight>;

    type Converted = Option<BitcoinBlockHeight>;

    type ConvertedView = Option<int>;

    open spec fn converted(converted: Option<BitcoinBlockHeight>) -> Option<int> {
        height_view(converted)
    }

    open spec fn conversion(candidate: int, output: Option<Seq<Datum>>) -> Result<
        Option<int>,
        StoreError,
    > {
        match output {
            Some(row) => Ok(Some(as_int8(row[0]))),
            None => Ok(Some(candidate)),
        }
    }

    fn convert(self, output: Option<BitcoinBlockHeight>) -> (result: Result<
        Option<BitcoinBlockHeight>,
        StoreError,
    >) {
        assert(Self::First::output(output) == row_view(output));
        match output {
            Some(height) => Ok(Some(height)),
            None => Ok(Some(self.candidate)),
        }
    }
}

/// Goes back from the unspent output that was confirmed last.
#[derive(Debug)]
pub struct BackFromCandidate;

impl View for BackFromCandidate {
    type V = ();

    open spec fn view(&self) -> () {
        ()
    }
}

/// The search for a sweep that is at least [`MAX_REORG_BLOCK_COUNT`] blocks
/// older than a candidate.
pub open spec fn confirmed_sweep_step(txid: Seq<u8>, block_height: int) -> StepView<
    <Converting<OrCandidate> as View>::V,
    Option<int>,
> {
    let candidate = saturating_sub(block_height, MAX_REORG_BLOCK_COUNT as int);
    if fits_bigint(block_height) {
        in_converted::<OrCandidate>(
            ask_optional::<BitcoinBlockHeight>(
                sql::CONFIRMED_SWEEP_HEIGHT,
                seq![
                    Datum::Int8(block_height),
                    Datum::Int8(max_transactions()),
                    Datum::Bytes(txid),
                    Datum::Int8(candidate),
                ],
            ),
            candidate,
        )
    } else {
        refused()
    }
}

impl Continuation for BackFromCandidate {
    type First = FetchOptional<PgCandidateUtxo>;

    type Second = Converting<OrCandidate>;

    open spec fn after(state: (), output: Option<Seq<Datum>>) -> StepView<
        <Converting<OrCandidate> as View>::V,
        Option<int>,
    > {
        match output {
            Some(row) => confirmed_sweep_step(as_bytes(row[0]), as_int8(row[1])),
            None => StepView::Done(Ok(None)),
        }
    }

    open spec fn bound(state: ()) -> nat {
        0
    }

    proof fn after_is_bounded(state: (), output: Option<Seq<Datum>>) {
    }

    fn go_on(self, output: Option<PgCandidateUtxo>) -> (step: Step<
        Converting<OrCandidate>,
        Option<BitcoinBlockHeight>,
    >) {
        assert(Self::First::output(output) == row_view(output));
        let utxo_candidate = match output {
            Some(utxo_candidate) => utxo_candidate,
            None => {
                return Step::Done(Ok(None));
            },
        };
        let height: u64 = utxo_candidate.block_height.0;
        let candidate: u64 = height.saturating_sub(MAX_REORG_BLOCK_COUNT);
        let block_height: i64 = match to_bigint(height) {
            Ok(number) => number,
            Err(error) => {
                return Step::Done(Err(error));
            },
        };
        let max_transactions: i64 = match to_bigint(
            MAX_MEMPOOL_PACKAGE_TX_COUNT * MAX_REORG_BLOCK_COUNT + 1,
        ) {
            Ok(number) => number,
            Err(error) => {
                return Step::Done(Err(error));
            },
        };
        let min_block_height: i64 = match to_bigint(candidate) {
            Ok(number) => number,
            Err(error) => {
                return Step::Done(Err(error));
            },
        };
        let params = vec![
            Value::Int8(block_height),
            Value::Int8(max_transactions),
            Value::Bytes(to_bytes(&utxo_candidate.txid.0)),
            Value::Int8(min_block_height),
        ];
        assert(data(params@) =~= seq![
            Datum::Int8(height as int),
            Datum::Int8(max_transactions as int),
            Datum::Bytes(utxo_candidate.txid.0@),
            Datum::Int8(candidate as int),
        ]);
        let step = FetchOptional::ask(sql::CONFIRMED_SWEEP_HEIGHT, params);
        Converting::first(step, OrCandidate { candidate: BitcoinBlockHeight(candidate) })
    }
}

/// Looks for a height below the unspent output of the signers.
pub type MinimumUtxoHeight = Then<BackFromCandidate>;

/// The start of [`PgStore::minimum_utxo_height`].
pub open spec fn minimum_utxo_height_step() -> StepView<
    <MinimumUtxoHeight as View>::V,
    Option<int>,
> {
    in_first::<BackFromCandidate>(
        ask_optional::<PgCandidateUtxo>(sql::UTXO_CANDIDATE, Seq::empty()),
        (),
    )
}

/// Looks for a height below the unspent output of the signers.
fn ask_minimum_utxo_height() -> (step: Step<MinimumUtxoHeight, Option<BitcoinBlockHeight>>)
    ensures
        step_view(step) == minimum_utxo_height_step(),
{
    let params: Vec<Value> = Vec::new();
    assert(data(params@) =~= Seq::empty());
    let step = FetchOptional::ask(sql::UTXO_CANDIDATE, params);
    Then::first(step, BackFromCandidate)
}

/// Turns to a donation if no output of the signers was found.
#[derive(Debug)]
pub struct OrDonation {
    pub chain_tip: BitcoinBlockHash,
}

impl View for OrDonation {
    type V = Seq<u8>;

    open spec fn view(&self) -> Seq<u8> {
        self.chain_tip.0@
    }
}

impl Continuation for OrDonation {
    type First = GetUtxo;

    type Second = GetDonationUtxo;

    open spec fn after(chain_tip: Seq<u8>, output: Option<SignerUtxoView>) -> StepView<
        <GetDonationUtxo as View>::V,
        Option<SignerUtxoView>,
    > {
        match output {
            Some(utxo) => StepView::Done(Ok(Some(utxo))),
            None => get_donation_utxo_step(chain_tip),
        }
    }

    open spec fn bound(chain_tip: Seq<u8>) -> nat {
        1
    }

    proof fn after_is_bounded(chain_tip: Seq<u8>, output: Option<SignerUtxoView>) {
    }

    fn go_on(self, output: Option<SignerUtxo>) -> (step: Step<
        GetDonationUtxo,
        Option<SignerUtxo>,
    >) {
        assert(Self::First::output(output) == utxo_view(output));
        match output {
            Some(utxo) => Step::Done(Ok(Some(utxo))),
            None => ask_donation(&self.chain_tip),
        }
    }
}

/// Looks for the output of the signers once a height below it is known.
#[derive(Debug)]
pub struct UtxoFrom {
    pub chain_tip: BitcoinBlockHash,
}

impl View for UtxoFrom {
    type V = Seq<u8>;

    open spec fn view(&self) -> Seq<u8> {
        self.chain_tip.0@
    }
}

impl Continuation for UtxoFrom {
    type First = MinimumUtxoHeight;

    type Second = Then<OrDonation>;

    open spec fn after(chain_tip: Seq<u8>, output: Option<int>) -> StepView<
        <Then<OrDonation> as View>::V,
        Option<SignerUtxoView>,
    > {
        match output {
            Some(min_block_height) => in_first::<OrDonation>(
                get_utxo_step(chain_tip, TxOutputType::SignersOutput, min_block_height),
                chain_tip,
            ),
            None => in_second(get_donation_utxo_step(chain_tip)),
        }
    }

    open spec fn bound(chain_tip: Seq<u8>) -> nat {
        2
    }

    proof fn after_is_bounded(chain_tip: Seq<u8>, output: Option<int>) {
    }

    fn go_on(self, output: Option<BitcoinBlockHeight>) -> (step: Step<
        Then<OrDonation>,
        Option<SignerUtxo>,
    >) {
        assert(Self::First::output(output) == height_view(output));
        match output {
            Some(min_block_height) => {
                let step = ask_utxo(
                    sql::GET_UTXO,
                    &self.chain_tip,
                    TxOutputType::SignersOutput,
                    min_block_height,
                );
                Then::first(step, OrDonation { chain_tip: self.chain_tip })
            },
            None => Then::second(ask_donation(&self.chain_tip)),
        }
    }
}

/// Looks for the unspent output that holds the signers' funds.
pub type GetSignerUtxo = Then<UtxoFrom>;

/// The start of [`PgStore::get_signer_utxo`].
pub open spec fn get_signer_utxo_step(chain_tip: Seq<u8>) -> StepView<
    <GetSignerUtxo as View>::V,
    Option<SignerUtxoView>,
> {
    in_first::<UtxoFrom>(minimum_utxo_height_step(), chain_tip)
}

/// Looks for the unspent output that holds the signers' funds.
pub(crate) fn ask_signer_utxo(chain_tip: &BitcoinBlockHash) -> (step: Step<
    GetSignerUtxo,
    Option<SignerUtxo>,
>)
    ensures
        step_view(step) == get_signer_utxo_step(chain_tip.0@),
{
    Then::first(ask_minimum_utxo_height(), UtxoFrom { chain_tip: *chain_tip })
}

impl<P> PgStore<P> {
    /// The largest unspent output of the given type on the blockchain identified
    /// by the chain tip, from the minimum height on.
    pub fn get_utxo(
        &self,
        chain_tip: &BitcoinBlockHash,
        output_type: TxOutputType,
        min_block_height: BitcoinBlockHeight,
    ) -> (step: Step<GetUtxo, Option<SignerUtxo>>)
        ensures
            step_view(step) == get_utxo_step(chain_tip.0@, output_type, min_block_height.0 as int),
    {
        ask_utxo(sql::GET_UTXO, chain_tip, output_type, min_block_height)
    }

    /// The unspent donation with the least height on the blockchain identified by
    /// the chain tip.
    pub fn get_donation_utxo(&self, chain_tip: &BitcoinBlockHash) -> (step: Step<
        GetDonationUtxo,
        Option<SignerUtxo>,
    >)
        ensures
            step_view(step) == get_donation_utxo_step(chain_tip.0@),
    {
        ask_donation(chain_tip)
    }

    /// A height that is not above that of the block that confirms the signers'
    /// unspent output, or `None` if no sweep has been confirmed.
    ///
    /// The signers' sweeps form a chain, each spending the output of the one
    /// before. The chain is followed back from the output that was confirmed
    /// last, on whichever blockchain, for [`MAX_REORG_BLOCK_COUNT`] blocks.
    pub fn minimum_utxo_height(&self) -> (step: Step<
        MinimumUtxoHeight,
        Option<BitcoinBlockHeight>,
    >)
        ensures
            step_view(step) == minimum_utxo_height_step(),
    {
        ask_minimum_utxo_height()
    }

    /// The unspent output that holds the signers' funds: the output of a sweep,
    /// or a donation if the blockchain has no such output.
    pub fn get_signer_utxo(&self, chain_tip: &BitcoinBlockHash) -> (step: Step<
        GetSignerUtxo,
        Option<SignerUtxo>,
    >)
        ensures
            step_view(step) == get_signer_utxo_step(chain_tip.0@),
    {
        ask_signer_utxo(chain_tip)
    }
}

/// The start of [`PgStore::get_least_txo_height`].
pub open spec fn get_least_txo_height_step(
    chain_tip: Seq<u8>,
    min_block_height: int,
) -> StepView<(), Option<Seq<Datum>>> {
    if fits_bigint(min_block_height) {
        ask_optional::<BitcoinBlockHeight>(
            sql::GET_LEAST_TXO_HEIGHT,
            seq![Datum::Bytes(chain_tip), Datum::Int8(min_block_height)],
        )
    } else {
        refused()
    }
}

/// The start of [`PgStore::minimum_donation_txo_height`].
pub open spec fn minimum_donation_txo_height_step() -> StepView<(), Option<Seq<Datum>>> {
    ask_optional::<BitcoinBlockHeight>(sql::MINIMUM_DONATION_TXO_HEIGHT, Seq::empty())
}

/// The start of [`PgStore::will_sign_bitcoin_tx_sighash`].
pub open spec fn will_sign_bitcoin_tx_sighash_step(
    sighash: Seq<u8>,
) -> StepView<(), Option<Seq<Datum>>> {
    ask_optional::<(bool, PublicKeyXOnly)>(
        sql::WILL_SIGN_BITCOIN_TX_SIGHASH,
        seq![Datum::Bytes(sighash)],
    )
}

impl TxOutput {
    /// The values that are stored for it.
    pub open spec fn params(&self) -> Seq<Datum> {
        seq![
            Datum::Bytes(self.txid.0@),
            Datum::Int4(self.output_index as int),
            Datum::Int8(self.amount as int),
            Datum::Bytes(self.script_pubkey.0@),
            Datum::Label(PgEnum::OutputType, self.output_type.spec_label()),
        ]
    }

    /// Whether the numbers in it fit into their columns.
    pub open spec fn storable(&self) -> bool {
        &&& fits_integer(self.output_index as int)
        &&& fits_bigint(self.amount as int)
    }
}

impl TxPrevout {
    /// The values that are stored for it.
    pub open spec fn params(&self) -> Seq<Datum> {
        seq![
            Datum::Bytes(self.txid.0@),
            Datum::Bytes(self.prevout_txid.0@),
            Datum::Int4(self.prevout_output_index as int),
            Datum::Int8(self.amount as int),
            Datum::Bytes(self.script_pubkey.0@),
            Datum::Label(PgEnum::PrevoutType, self.prevout_type.spec_label()),
        ]
    }

    /// Whether the numbers in it fit into their columns.
    pub open spec fn storable(&self) -> bool {
        &&& fits_integer(self.prevout_output_index as int)
        &&& fits_bigint(self.amount as int)
    }
}

impl<P> PgStore<P> {
    /// The bitcoin block height of the first confirmed sweep that happened at or
    /// after the given minimum block height.
    pub fn get_least_txo_height(
        &self,
        chain_tip: &BitcoinBlockHash,
        min_block_height: BitcoinBlockHeight,
    ) -> (step: Step<FetchOptional<BitcoinBlockHeight>, Option<BitcoinBlockHeight>>)
        ensures
            step_view(step) == get_least_txo_height_step(
                chain_tip.0@,
                min_block_height.0 as int,
            ),
    {
        ask_least_txo_height(chain_tip, min_block_height)
    }

    /// The height of the earliest block in which a donation has been confirmed.
    /// Whether the donation has been spent is not considered.
    pub fn minimum_donation_txo_height(
        &self,
    ) -> (step: Step<FetchOptional<BitcoinBlockHeight>, Option<BitcoinBlockHeight>>)
        ensures
            step_view(step) == minimum_donation_txo_height_step(),
    {
        ask_donation_height()
    }

    /// Whether the signer signs the digest, and with which key.
    pub fn will_sign_bitcoin_tx_sighash(
        &self,
        sighash: &SigHash,
    ) -> (step: Step<FetchOptional<(bool, PublicKeyXOnly)>, Option<(bool, PublicKeyXOnly)>>)
        ensures
            step_view(step) == will_sign_bitcoin_tx_sighash_step(sighash.0@),
    {
        let params = vec![Value::Bytes(to_bytes(&sighash.0))];
        assert(data(params@) =~= seq![Datum::Bytes(sighash.0@)]);
        FetchOptional::ask(sql::WILL_SIGN_BITCOIN_TX_SIGHASH, params)
    }

    /// Stores an output of a transaction.
    pub fn write_tx_output(&self, output: &TxOutput) -> (step: Step<Execute, ()>)
        ensures
            step_view(step) == (if output.storable() {
                ask_execute(sql::WRITE_TX_OUTPUT, output.params())
            } else {
                refused()
            }),
    {
        let output_index: i32 = match to_integer(output.output_index) {
            Ok(number) => number,
            Err(error) => {
                return Step::Done(Err(error));
            },
        };
        let amount: i64 = match to_bigint(output.amount) {
            Ok(number) => number,
            Err(error) => {
                return Step::Done(Err(error));
            },
        };
        let params = vec![
            Value::Bytes(to_bytes(&output.txid.0)),
            Value::Int4(output_index),
            Value::Int8(amount),
            Value::Bytes(copy_bytes(&output.script_pubkey.0)),
            Value::Label(PgEnum::OutputType, output.output_type.label()),
        ];
        assert(data(params@) =~= output.params());
        Execute::ask(sql::WRITE_TX_OUTPUT, params)
    }

    /// Stores an output that a transaction spends.
    pub fn write_tx_prevout(&self, prevout: &TxPrevout) -> (step: Step<Execute, ()>)
        ensures
            step_view(step) == (if prevout.storable() {
                ask_execute(sql::WRITE_TX_PREVOUT, prevout.params())
            } else {
                refused()
            }),
    {
        let prevout_output_index: i32 = match to_integer(prevout.prevout_output_index) {
            Ok(number) => number,
            Err(error) => {
                return Step::Done(Err(error));
            },
        };
        let amount: i64 = match to_bigint(prevout.amount) {
            Ok(number) => number,
            Err(error) => {
                return Step::Done(Err(error));
            },
        };
        let params = vec![
            Value::Bytes(to_bytes(&prevout.txid.0)),
            Value::Bytes(to_bytes(&prevout.prevout_txid.0)),
            Value::Int4(prevout_output_index),
            Value::Int8(amount),
            Value::Bytes(copy_bytes(&prevout.script_pubkey.0)),
            Value::Label(PgEnum::PrevoutType, prevout.prevout_type.label()),
        ];
        assert(data(params@) =~= prevout.params());
        Execute::ask(sql::WRITE_TX_PREVOUT, params)
    }
}

impl BitcoinTxSigHash {
    /// Whether the numbers in it fit into their columns.
    pub open spec fn storable(&self) -> bool {
        fits_integer(self.prevout_output_index as int)
    }
}

/// The values that are stored for several digests, column by column.
pub open spec fn sighashes_params(sighashes: Seq<BitcoinTxSigHash>) -> Seq<Datum> {
    seq![
        Datum::BytesArray(sighashes.map_values(|tx_sighash: BitcoinTxSigHash| tx_sighash.txid.0@)),
        Datum::BytesArray(
            sighashes.map_values(|tx_sighash: BitcoinTxSigHash| tx_sighash.chain_tip.0@),
        ),
        Datum::BytesArray(
            sighashes.map_values(|tx_sighash: BitcoinTxSigHash| tx_sighash.prevout_txid.0@),
        ),
        Datum::Int4Array(
            sighashes.map_values(|tx_sighash: BitcoinTxSigHash| tx_sighash.prevout_output_index as int),
        ),
        Datum::BytesArray(
            sighashes.map_values(|tx_sighash: BitcoinTxSigHash| tx_sighash.sighash.0@),
        ),
        Datum::LabelArray(
            PgEnum::PrevoutType,
            sighashes.map_values(|tx_sighash: BitcoinTxSigHash| tx_sighash.prevout_type.spec_label()),
        ),
        Datum::TextArray(
            sighashes.map_values(|tx_sighash: BitcoinTxSigHash| tx_sighash.validation_result@),
        ),
        Datum::BoolArray(
            sighashes.map_values(|tx_sighash: BitcoinTxSigHash| tx_sighash.is_valid_tx),
        ),
        Datum::BoolArray(sighashes.map_values(|tx_sighash: BitcoinTxSigHash| tx_sighash.will_sign)),
        Datum::BytesArray(
            sighashes.map_values(|tx_sighash: BitcoinTxSigHash| tx_sighash.aggregate_key.0@),
        ),
    ]
}

/// The start of [`PgStore::write_bitcoin_txs_sighashes`].
pub open spec fn write_bitcoin_txs_sighashes_step(
    sighashes: Seq<BitcoinTxSigHash>,
) -> StepView<(), ()> {
    if sighashes.len() == 0 {
        StepView::Done(Ok(()))
    } else if (forall|i: int| 0 <= i < sighashes.len() ==> (#[trigger] sighashes[i]).storable()) {
        ask_execute(sql::WRITE_BITCOIN_TXS_SIGHASHES, sighashes_params(sighashes))
    } else {
        refused()
    }
}

impl<P> PgStore<P> {
    /// Stores digests.
    pub fn write_bitcoin_txs_sighashes(
        &self,
        sighashes: &[BitcoinTxSigHash],
    ) -> (step: Step<Execute, ()>)
        ensures
            step_view(step) == write_bitcoin_txs_sighashes_step(sighashes@),
    {
        if sighashes.len() == 0 {
            return Step::Done(Ok(()));
        }
        let mut txid: Vec<Vec<u8>> = Vec::with_capacity(sighashes.len());
        let mut chain_tip: Vec<Vec<u8>> = Vec::with_capacity(sighashes.len());
        let mut prevout_txid: Vec<Vec<u8>> = Vec::with_capacity(sighashes.len());
        let mut prevout_output_index: Vec<i32> = Vec::with_capacity(sighashes.len());
        let mut sighash: Vec<Vec<u8>> = Vec::with_capacity(sighashes.len());
        let mut prevout_type: Vec<String> = Vec::with_capacity(sighashes.len());
        let mut validation_result: Vec<String> = Vec::with_capacity(sighashes.len());
        let mut is_valid_tx: Vec<bool> = Vec::with_capacity(sighashes.len());
        let mut will_sign: Vec<bool> = Vec::with_capacity(sighashes.len());
        let mut aggregate_key: Vec<Vec<u8>> = Vec::with_capacity(sighashes.len());
        let mut i: usize = 0;
        while i < sighashes.len()
            invariant
                i <= sighashes@.len(),
                txid@.len() == i,
                chain_tip@.len() == i,
                prevout_txid@.len() == i,
                prevout_output_index@.len() == i,
                sighash@.len() == i,
                prevout_type@.len() == i,
                validation_result@.len() == i,
                is_valid_tx@.len() == i,
                will_sign@.len() == i,
                aggregate_key@.len() == i,
                forall|j: int| 0 <= j < i ==> (#[trigger] sighashes@[j]).storable(),
                forall|j: int| 0 <= j < i ==> #[trigger] txid@[j]@ == sighashes@[j].txid.0@,
                forall|j: int|
                    0 <= j < i ==> #[trigger] chain_tip@[j]@ == sighashes@[j].chain_tip.0@,
                forall|j: int|
                    0 <= j < i ==> #[trigger] prevout_txid@[j]@ == sighashes@[j].prevout_txid.0@,
                forall|j: int|
                    0 <= j < i ==> #[trigger] prevout_output_index@[j]
                        == sighashes@[j].prevout_output_index,
                forall|j: int| 0 <= j < i ==> #[trigger] sighash@[j]@ == sighashes@[j].sighash.0@,
                forall|j: int|
                    0 <= j < i ==> #[trigger] prevout_type@[j]@
                        == sighashes@[j].prevout_type.spec_label(),
                forall|j: int|
                    0 <= j < i ==> #[trigger] validation_result@[j]@
                        == sighashes@[j].validation_result@,
                forall|j: int|
                    0 <= j < i ==> #[trigger] is_valid_tx@[j] == sighashes@[j].is_valid_tx,
                forall|j: int| 0 <= j < i ==> #[trigger] will_sign@[j] == sighashes@[j].will_sign,
                forall|j: int|
                    0 <= j < i ==> #[trigger] aggregate_key@[j]@ == sighashes@[j].aggregate_key.0@,
            decreases sighashes@.len() - i,
        {
            let tx_sighash = &sighashes[i];
            let prevout_output_index_value: i32 = match to_integer(tx_sighash.prevout_output_index) {
                Ok(number) => number,
                Err(error) => {
                    assert(!sighashes@[i as int].storable());
                    return Step::Done(Err(error));
                },
            };
            txid.push(to_bytes(&tx_sighash.txid.0));
            chain_tip.push(to_bytes(&tx_sighash.chain_tip.0));
            prevout_txid.push(to_bytes(&tx_sighash.prevout_txid.0));
            prevout_output_index.push(prevout_output_index_value);
            sighash.push(to_bytes(&tx_sighash.sighash.0));
            prevout_type.push(tx_sighash.prevout_type.label());
            validation_result.push(tx_sighash.validation_result.clone());
            is_valid_tx.push(tx_sighash.is_valid_tx);
            will_sign.push(tx_sighash.will_sign);
            aggregate_key.push(to_bytes(&tx_sighash.aggregate_key.0));
            i = i + 1;
        }
        let params = vec![
            Value::BytesArray(txid),
            Value::BytesArray(chain_tip),
            Value::BytesArray(prevout_txid),
            Value::Int4Array(prevout_output_index),
            Value::BytesArray(sighash),
            Value::LabelArray(PgEnum::PrevoutType, prevout_type),
            Value::TextArray(validation_result),
            Value::BoolArray(is_valid_tx),
            Value::BoolArray(will_sign),
            Value::BytesArray(aggregate_key),
        ];
        proof {
            let all = sighashes_params(sighashes@);
            assert(bytes_of(txid@) =~= all[0]->BytesArray_0);
            assert(bytes_of(chain_tip@) =~= all[1]->BytesArray_0);
            assert(bytes_of(prevout_txid@) =~= all[2]->BytesArray_0);
            assert(prevout_output_index@.map_values(|n: i32| n as int) =~= all[3]->Int4Array_0);
            assert(bytes_of(sighash@) =~= all[4]->BytesArray_0);
            assert(chars_of(prevout_type@) =~= all[5]->LabelArray_1);
            assert(chars_of(validation_result@) =~= all[6]->TextArray_0);
            assert(is_valid_tx@ =~= all[7]->BoolArray_0);
            assert(will_sign@ =~= all[8]->BoolArray_0);
            assert(bytes_of(aggregate_key@) =~= all[9]->BytesArray_0);
            assert(data(params@) =~= all);
        }
        Execute::ask(sql::WRITE_BITCOIN_TXS_SIGHASHES, params)
    }
}

} // verus!
