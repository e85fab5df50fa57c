//! Blocks and the transactions in them.

use crate::compose::{in_converted, Conversion, Converting};
use crate::convert::{fits_bigint, saturating_sub, to_bigint, to_bytes};
use crate::error::StoreError;
use crate::fetch::{
    ask_all, ask_execute, ask_one, ask_optional, refused, row_view, rows_view, Execute, FetchAll,
    FetchOne, FetchOptional,
};
use crate::model::{
    BitcoinBlock, BitcoinBlockHash, BitcoinBlockRef, BitcoinTxId, BitcoinTxRef, StacksBlock,
    StacksBlockHash, StacksBlockHeight, StacksBlockId,
};
use crate::procedure::{step_view, Operation, Step, StepView};
use crate::row::{all_storable, as_bytes, FromRow};
use crate::sql;
use crate::store::PgStore;
use crate::value::{bytes_of, data, Datum, Value};
use vstd::prelude::*;

verus! {

/// Takes the hash of a block, if there is one.
#[derive(Debug)]
pub struct BlockHashOf;

impl View for BlockHashOf {
    type V = ();

    open spec fn view(&self) -> () {
        ()
    }
}

impl Conversion for BlockHashOf {
    type First = FetchOptional<BitcoinBlock>;

    type Converted = Option<BitcoinBlockHash>;

    type ConvertedView = Option<Seq<u8>>;

    open spec fn converted(converted: Option<BitcoinBlockHash>) -> Option<Seq<u8>> {
        match converted {
            Some(hash) => Some(hash.0@),
            None => None,
        }
    }

    open spec fn conversion(state: (), output: Option<Seq<Datum>>) -> Result<
        Option<Seq<u8>>,
        StoreError,
    > {
        match output {
            Some(row) => Ok(Some(as_bytes(row[0]))),
            None => Ok(None),
        }
    }

    fn convert(self, output: Option<BitcoinBlock>) -> (result: Result<
        Option<BitcoinBlockHash>,
        StoreError,
    >) {
        assert(Self::First::output(output) == row_view(output));
        match output {
            Some(block) => Ok(Some(block.block_hash)),
            None => Ok(None),
        }
    }
}

/// Takes the hashes of the blocks of transactions.
#[derive(Debug)]
pub struct BlockHashesOf;

impl View for BlockHashesOf {
    type V = ();

    open spec fn view(&self) -> () {
        ()
    }
}

/// The bytes of block hashes.
pub open spec fn block_hash_bytes(hashes: Seq<BitcoinBlockHash>) -> Seq<Seq<u8>> {
    hashes.map_values(|hash: BitcoinBlockHash| hash.0@)
}

impl Conversion for BlockHashesOf {
    type First = FetchAll<BitcoinTxRef>;

    type Converted = Vec<BitcoinBlockHash>;

    type ConvertedView = Seq<Seq<u8>>;

    open spec fn converted(converted: Vec<BitcoinBlockHash>) -> Seq<Seq<u8>> {
        block_hash_bytes(converted@)
    }

    open spec fn conversion(state: (), output: Seq<Seq<Datum>>) -> Result<
        Seq<Seq<u8>>,
        StoreError,
    > {
        Ok(output.map_values(|row: Seq<Datum>| as_bytes(row[1])))
    }

    fn convert(self, output: Vec<BitcoinTxRef>) -> (result: Result<
        Vec<BitcoinBlockHash>,
        StoreError,
    >) {
        assert(Self::First::output(output) == rows_view(output@));
        let mut hashes: Vec<BitcoinBlockHash> = Vec::new();
        let mut i: usize = 0;
        while i < output.len()
            invariant
                i <= output@.len(),
                hashes@.len() == i,
                forall|j: int| 0 <= j < i ==> #[trigger] hashes@[j] == output@[j].block_hash,
            decreases output@.len() - i,
        {
            hashes.push(output[i].block_hash);
            i = i + 1;
        }
        assert(block_hash_bytes(hashes@) =~= rows_view(output@).map_values(
            |row: Seq<Datum>| as_bytes(row[1]),
        ));
        Ok(hashes)
    }
}

/// Tells whether there is a row.
#[derive(Debug)]
pub struct IsSome;

impl View for IsSome {
    type V = ();

    open spec fn view(&self) -> () {
        ()
    }
}

impl Conversion for IsSome {
    type First = FetchOptional<bool>;

    type Converted = bool;

    type ConvertedView = bool;

    open spec fn converted(converted: bool) -> bool {
        converted
    }

    open spec fn conversion(state: (), output: Option<Seq<Datum>>) -> Result<bool, StoreError> {
        Ok(output is Some)
    }

    fn convert(self, output: Option<bool>) -> (result: Result<bool, StoreError>) {
        assert(Self::First::output(output) == row_view(output));
        Ok(output.is_some())
    }
}

/// The start of [`PgStore::get_bitcoin_block`].
pub open spec fn get_bitcoin_block_step(block_hash: Seq<u8>) -> StepView<(), Option<Seq<Datum>>> {
    ask_optional::<BitcoinBlock>(sql::GET_BITCOIN_BLOCK, seq![Datum::Bytes(block_hash)])
}

/// The start of [`PgStore::get_stacks_block`].
pub open spec fn get_stacks_block_step(block_hash: Seq<u8>) -> StepView<(), Option<Seq<Datum>>> {
    ask_optional::<StacksBlock>(sql::GET_STACKS_BLOCK, seq![Datum::Bytes(block_hash)])
}

/// The start of [`PgStore::get_bitcoin_canonical_chain_tip`].
pub open spec fn get_bitcoin_canonical_chain_tip_step() -> StepView<((), ()), Option<Seq<u8>>> {
    in_converted::<BlockHashOf>(
        ask_optional::<BitcoinBlock>(sql::GET_BITCOIN_CANONICAL_CHAIN_TIP, Seq::empty()),
        (),
    )
}

/// The start of [`PgStore::get_bitcoin_canonical_chain_tip_ref`].
pub open spec fn get_bitcoin_canonical_chain_tip_ref_step() -> StepView<(), Option<Seq<Datum>>> {
    ask_optional::<BitcoinBlockRef>(sql::GET_BITCOIN_CANONICAL_CHAIN_TIP_REF, Seq::empty())
}

/// The start of [`PgStore::get_stacks_chain_tip`].
pub open spec fn get_stacks_chain_tip_step(
    bitcoin_chain_tip: Seq<u8>,
) -> StepView<(), Option<Seq<Datum>>> {
    ask_optional::<StacksBlock>(
        sql::GET_STACKS_CHAIN_TIP,
        seq![Datum::Bytes(bitcoin_chain_tip)],
    )
}

/// The start of [`PgStore::get_bitcoin_blocks_with_transaction`].
pub open spec fn get_bitcoin_blocks_with_transaction_step(
    txid: Seq<u8>,
) -> StepView<((), ()), Seq<Seq<u8>>> {
    in_converted::<BlockHashesOf>(
        ask_all::<BitcoinTxRef>(
            sql::GET_BITCOIN_BLOCKS_WITH_TRANSACTION,
            seq![Datum::Bytes(txid)],
        ),
        (),
    )
}

/// The start of [`PgStore::stacks_block_exists`].
pub open spec fn stacks_block_exists_step(block_id: Seq<u8>) -> StepView<((), ()), bool> {
    in_converted::<IsSome>(
        ask_optional::<bool>(sql::STACKS_BLOCK_EXISTS, seq![Datum::Bytes(block_id)]),
        (),
    )
}

/// The start of [`PgStore::is_known_bitcoin_block_hash`].
pub open spec fn is_known_bitcoin_block_hash_step(block_hash: Seq<u8>) -> StepView<(), Seq<Datum>> {
    ask_one::<bool>(sql::IS_KNOWN_BITCOIN_BLOCK_HASH, seq![Datum::Bytes(block_hash)])
}

/// The start of [`PgStore::in_canonical_bitcoin_blockchain`].
pub open spec fn in_canonical_bitcoin_blockchain_step(
    chain_tip: Seq<u8>,
    tip_height: int,
    block_hash: Seq<u8>,
    block_height: int,
) -> StepView<(), Seq<Datum>> {
    if fits_bigint(saturating_sub(tip_height, block_height)) && fits_bigint(block_height) {
        ask_one::<bool>(
            sql::IN_CANONICAL_BITCOIN_BLOCKCHAIN,
            seq![
                Datum::Bytes(chain_tip),
                Datum::Bytes(block_hash),
                Datum::Int8(saturating_sub(tip_height, block_height)),
                Datum::Int8(block_height),
            ],
        )
    } else {
        refused()
    }
}

/// The start of [`PgStore::in_canonical_stacks_blockchain`].
pub open spec fn in_canonical_stacks_blockchain_step(
    chain_tip: Seq<u8>,
    block_hash: Seq<u8>,
    block_height: int,
) -> StepView<(), Seq<Datum>> {
    if fits_bigint(block_height) {
        ask_one::<bool>(
            sql::IN_CANONICAL_STACKS_BLOCKCHAIN,
            seq![Datum::Bytes(chain_tip), Datum::Int8(block_height), Datum::Bytes(block_hash)],
        )
    } else {
        refused()
    }
}

/// Asks whether a block is part of a stacks blockchain.
pub(crate) fn ask_in_canonical_stacks_blockchain(
    chain_tip: &StacksBlockHash,
    block_hash: &StacksBlockHash,
    block_height: StacksBlockHeight,
) -> (step: Step<FetchOne<bool>, bool>)
    ensures
        step_view(step) == in_canonical_stacks_blockchain_step(
            chain_tip.0@,
            block_hash.0@,
            block_height.0 as int,
        ),
{
    let block_height: i64 = match to_bigint(block_height.0) {
        Ok(number) => number,
        Err(error) => {
            return Step::Done(Err(error));
        },
    };
    let params = vec![
        Value::Bytes(to_bytes(&chain_tip.0)),
        Value::Int8(block_height),
        Value::Bytes(to_bytes(&block_hash.0)),
    ];
    assert(data(params@) =~= seq![
        Datum::Bytes(chain_tip.0@),
        Datum::Int8(block_height as int),
        Datum::Bytes(block_hash.0@),
    ]);
    FetchOne::ask(sql::IN_CANONICAL_STACKS_BLOCKCHAIN, params)
}

/// Asks for the bitcoin block with the given hash.
pub(crate) fn ask_bitcoin_block(block_hash: &BitcoinBlockHash) -> (step: Step<
    FetchOptional<BitcoinBlock>,
    Option<BitcoinBlock>,
>)
    ensures
        step_view(step) == get_bitcoin_block_step(block_hash.0@),
{
    let params = vec![Value::Bytes(to_bytes(&block_hash.0))];
    assert(data(params@) =~= seq![Datum::Bytes(block_hash.0@)]);
    FetchOptional::ask(sql::GET_BITCOIN_BLOCK, params)
}

/// Asks for the highest stacks block that is anchored to the bitcoin blockchain
/// identified by the chain tip.
pub(crate) fn ask_stacks_chain_tip(bitcoin_chain_tip: &BitcoinBlockHash) -> (step: Step<
    FetchOptional<StacksBlock>,
    Option<StacksBlock>,
>)
    ensures
        step_view(step) == get_stacks_chain_tip_step(bitcoin_chain_tip.0@),
{
    let params = vec![Value::Bytes(to_bytes(&bitcoin_chain_tip.0))];
    assert(data(params@) =~= seq![Datum::Bytes(bitcoin_chain_tip.0@)]);
    FetchOptional::ask(sql::GET_STACKS_CHAIN_TIP, params)
}

impl<P> PgStore<P> {
    /// The bitcoin block with the given hash.
    pub fn get_bitcoin_block(
        &self,
        block_hash: &BitcoinBlockHash,
    ) -> (step: Step<FetchOptional<BitcoinBlock>, Option<BitcoinBlock>>)
        ensures
            step_view(step) == get_bitcoin_block_step(block_hash.0@),
    {
        ask_bitcoin_block(block_hash)
    }

    /// The stacks block with the given hash.
    pub fn get_stacks_block(
        &self,
        block_hash: &StacksBlockHash,
    ) -> (step: Step<FetchOptional<StacksBlock>, Option<StacksBlock>>)
        ensures
            step_view(step) == get_stacks_block_step(block_hash.0@),
    {
        let params = vec![Value::Bytes(to_bytes(&block_hash.0))];
        assert(data(params@) =~= seq![Datum::Bytes(block_hash.0@)]);
        FetchOptional::ask(sql::GET_STACKS_BLOCK, params)
    }

    /// The hash of the highest bitcoin block.
    pub fn get_bitcoin_canonical_chain_tip(
        &self,
    ) -> (step: Step<Converting<BlockHashOf>, Option<BitcoinBlockHash>>)
        ensures
            step_view(step) == get_bitcoin_canonical_chain_tip_step(),
    {
        let params: Vec<Value> = Vec::new();
        assert(data(params@) =~= Seq::empty());
        let step = FetchOptional::ask(sql::GET_BITCOIN_CANONICAL_CHAIN_TIP, params);
        Converting::first(step, BlockHashOf)
    }

    /// The hash and the height of the highest bitcoin block.
    pub fn get_bitcoin_canonical_chain_tip_ref(
        &self,
    ) -> (step: Step<FetchOptional<BitcoinBlockRef>, Option<BitcoinBlockRef>>)
        ensures
            step_view(step) == get_bitcoin_canonical_chain_tip_ref_step(),
    {
        let params: Vec<Value> = Vec::new();
        assert(data(params@) =~= Seq::empty());
        FetchOptional::ask(sql::GET_BITCOIN_CANONICAL_CHAIN_TIP_REF, params)
    }

    /// The highest stacks block that is anchored to the bitcoin blockchain
    /// identified by the chain tip.
    pub fn get_stacks_chain_tip(
        &self,
        bitcoin_chain_tip: &BitcoinBlockHash,
    ) -> (step: Step<FetchOptional<StacksBlock>, Option<StacksBlock>>)
        ensures
            step_view(step) == get_stacks_chain_tip_step(bitcoin_chain_tip.0@),
    {
        ask_stacks_chain_tip(bitcoin_chain_tip)
    }

    /// The blocks that confirm the transaction.
    pub fn get_bitcoin_blocks_with_transaction(
        &self,
        txid: &BitcoinTxId,
    ) -> (step: Step<Converting<BlockHashesOf>, Vec<BitcoinBlockHash>>)
        ensures
            step_view(step) == get_bitcoin_blocks_with_transaction_step(txid.0@),
    {
        let params = vec![Value::Bytes(to_bytes(&txid.0))];
        assert(data(params@) =~= seq![Datum::Bytes(txid.0@)]);
        let step = FetchAll::ask(sql::GET_BITCOIN_BLOCKS_WITH_TRANSACTION, params);
        Converting::first(step, BlockHashesOf)
    }

    /// Whether the stacks block is known.
    pub fn stacks_block_exists(
        &self,
        block_id: StacksBlockId,
    ) -> (step: Step<Converting<IsSome>, bool>)
        ensures
            step_view(step) == stacks_block_exists_step(block_id.0@),
    {
        let params = vec![Value::Bytes(to_bytes(&block_id.0))];
        assert(data(params@) =~= seq![Datum::Bytes(block_id.0@)]);
        let step = FetchOptional::ask(sql::STACKS_BLOCK_EXISTS, params);
        Converting::first(step, IsSome)
    }

    /// Whether the bitcoin block is known.
    pub fn is_known_bitcoin_block_hash(
        &self,
        block_hash: &BitcoinBlockHash,
    ) -> (step: Step<FetchOne<bool>, bool>)
        ensures
            step_view(step) == is_known_bitcoin_block_hash_step(block_hash.0@),
    {
        let params = vec![Value::Bytes(to_bytes(&block_hash.0))];
        assert(data(params@) =~= seq![Datum::Bytes(block_hash.0@)]);
        FetchOne::ask(sql::IS_KNOWN_BITCOIN_BLOCK_HASH, params)
    }

    /// Whether the block is part of the bitcoin blockchain identified by the chain
    /// tip. The search goes as deep as the block is below the tip.
    pub fn in_canonical_bitcoin_blockchain(
        &self,
        chain_tip: &BitcoinBlockRef,
        block_ref: &BitcoinBlockRef,
    ) -> (step: Step<FetchOne<bool>, bool>)
        ensures
            step_view(step) == in_canonical_bitcoin_blockchain_step(
                chain_tip.block_hash.0@,
                chain_tip.block_height.0 as int,
                block_ref.block_hash.0@,
                block_ref.block_height.0 as int,
            ),
    {
        let height_diff: u64 = chain_tip.block_height.0.saturating_sub(block_ref.block_height.0);
        let height_diff: i64 = match to_bigint(height_diff) {
            Ok(number) => number,
            Err(error) => {
                return Step::Done(Err(error));
            },
        };
        let block_height: i64 = match to_bigint(block_ref.block_height.0) {
            Ok(number) => number,
            Err(error) => {
                return Step::Done(Err(error));
            },
        };
        let params = vec![
            Value::Bytes(to_bytes(&chain_tip.block_hash.0)),
            Value::Bytes(to_bytes(&block_ref.block_hash.0)),
            Value::Int8(height_diff),
            Value::Int8(block_height),
        ];
        assert(data(params@) =~= seq![
            Datum::Bytes(chain_tip.block_hash.0@),
            Datum::Bytes(block_ref.block_hash.0@),
            Datum::Int8(height_diff as int),
            Datum::Int8(block_height as int),
        ]);
        FetchOne::ask(sql::IN_CANONICAL_BITCOIN_BLOCKCHAIN, params)
    }

    /// Whether the block is part of the stacks blockchain identified by the chain
    /// tip.
    pub fn in_canonical_stacks_blockchain(
        &self,
        chain_tip: &StacksBlockHash,
        block_hash: &StacksBlockHash,
        block_height: StacksBlockHeight,
    ) -> (step: Step<FetchOne<bool>, bool>)
        ensures
            step_view(step) == in_canonical_stacks_blockchain_step(
                chain_tip.0@,
                block_hash.0@,
                block_height.0 as int,
            ),
    {
        ask_in_canonical_stacks_blockchain(chain_tip, block_hash, block_height)
    }

    /// Stores a bitcoin block.
    pub fn write_bitcoin_block(&self, block: &BitcoinBlock) -> (step: Step<Execute, ()>)
        ensures
            step_view(step) == (if block.storable() {
                ask_execute(sql::WRITE_BITCOIN_BLOCK, block.row())
            } else {
                refused()
            }),
    {
        let block_height: i64 = match to_bigint(block.block_height.0) {
            Ok(number) => number,
            Err(error) => {
                return Step::Done(Err(error));
            },
        };
        let params = vec![
            Value::Bytes(to_bytes(&block.block_hash.0)),
            Value::Int8(block_height),
            Value::Bytes(to_bytes(&block.parent_hash.0)),
        ];
        assert(data(params@) =~= block.row());
        Execute::ask(sql::WRITE_BITCOIN_BLOCK, params)
    }

    /// Stores a stacks block.
    pub fn write_stacks_block(&self, block: &StacksBlock) -> (step: Step<Execute, ()>)
        ensures
            step_view(step) == (if block.storable() {
                ask_execute(sql::WRITE_STACKS_BLOCK, block.row())
            } else {
                refused()
            }),
    {
        let block_height: i64 = match to_bigint(block.block_height.0) {
            Ok(number) => number,
            Err(error) => {
                return Step::Done(Err(error));
            },
        };
        let params = vec![
            Value::Bytes(to_bytes(&block.block_hash.0)),
            Value::Int8(block_height),
            Value::Bytes(to_bytes(&block.parent_hash.0)),
            Value::Bytes(to_bytes(&block.bitcoin_anchor.0)),
        ];
        assert(data(params@) =~= block.row());
        Execute::ask(sql::WRITE_STACKS_BLOCK, params)
    }

    /// Stores a bitcoin transaction.
    pub fn write_bitcoin_transaction(&self, tx_ref: &BitcoinTxRef) -> (step: Step<Execute, ()>)
        ensures
            step_view(step) == ask_execute(sql::WRITE_BITCOIN_TRANSACTION, tx_ref.row()),
    {
        let params = vec![
            Value::Bytes(to_bytes(&tx_ref.txid.0)),
            Value::Bytes(to_bytes(&tx_ref.block_hash.0)),
        ];
        assert(data(params@) =~= tx_ref.row());
        Execute::ask(sql::WRITE_BITCOIN_TRANSACTION, params)
    }
}

/// The values that are stored for several bitcoin transactions, column by
/// column.
pub open spec fn transactions_params(txs: Seq<BitcoinTxRef>) -> Seq<Datum> {
    seq![
        Datum::BytesArray(txs.map_values(|tx: BitcoinTxRef| tx.txid.0@)),
        Datum::BytesArray(txs.map_values(|tx: BitcoinTxRef| tx.block_hash.0@)),
    ]
}

/// The start of [`PgStore::write_bitcoin_transactions`].
pub open spec fn write_bitcoin_transactions_step(txs: Seq<BitcoinTxRef>) -> StepView<(), ()> {
    if txs.len() == 0 {
        StepView::Done(Ok(()))
    } else {
        ask_execute(sql::WRITE_BITCOIN_TRANSACTIONS, transactions_params(txs))
    }
}

/// The values that are stored for several stacks blocks, column by column.
pub open spec fn block_headers_params(blocks: Seq<StacksBlock>) -> Seq<Datum> {
    seq![
        Datum::BytesArray(blocks.map_values(|block: StacksBlock| block.block_hash.0@)),
        Datum::BytesArray(blocks.map_values(|block: StacksBlock| block.parent_hash.0@)),
        Datum::Int8Array(blocks.map_values(|block: StacksBlock| block.block_height.0 as int)),
        Datum::BytesArray(blocks.map_values(|block: StacksBlock| block.bitcoin_anchor.0@)),
    ]
}

/// The start of [`PgStore::write_stacks_block_headers`].
pub open spec fn write_stacks_block_headers_step(blocks: Seq<StacksBlock>) -> StepView<(), ()> {
    if blocks.len() == 0 {
        StepView::Done(Ok(()))
    } else if all_storable(blocks) {
        ask_execute(sql::WRITE_STACKS_BLOCK_HEADERS, block_headers_params(blocks))
    } else {
        refused()
    }
}

impl<P> PgStore<P> {
    /// Stores bitcoin transactions.
    pub fn write_bitcoin_transactions(&self, txs: Vec<BitcoinTxRef>) -> (step: Step<Execute, ()>)
        ensures
            step_view(step) == write_bitcoin_transactions_step(txs@),
    {
        if txs.len() == 0 {
            return Step::Done(Ok(()));
        }
        let mut tx_ids: Vec<Vec<u8>> = Vec::with_capacity(txs.len());
        let mut block_hashes: Vec<Vec<u8>> = Vec::with_capacity(txs.len());
        let mut i: usize = 0;
        while i < txs.len()
            invariant
                i <= txs@.len(),
                tx_ids@.len() == i,
                block_hashes@.len() == i,
                forall|j: int| 0 <= j < i ==> #[trigger] tx_ids@[j]@ == txs@[j].txid.0@,
                forall|j: int| 0 <= j < i ==> #[trigger] block_hashes@[j]@ == txs@[j].block_hash.0@,
            decreases txs@.len() - i,
        {
            let tx = &txs[i];
            tx_ids.push(to_bytes(&tx.txid.0));
            block_hashes.push(to_bytes(&tx.block_hash.0));
            i = i + 1;
        }
        let params = vec![Value::BytesArray(tx_ids), Value::BytesArray(block_hashes)];
        proof {
            let all = transactions_params(txs@);
            assert(bytes_of(tx_ids@) =~= all[0]->BytesArray_0);
            assert(bytes_of(block_hashes@) =~= all[1]->BytesArray_0);
            assert(data(params@) =~= all);
        }
        Execute::ask(sql::WRITE_BITCOIN_TRANSACTIONS, params)
    }

    /// Stores stacks blocks.
    pub fn write_stacks_block_headers(&self, blocks: Vec<StacksBlock>) -> (step: Step<Execute, ()>)
        ensures
            step_view(step) == write_stacks_block_headers_step(blocks@),
    {
        if blocks.len() == 0 {
            return Step::Done(Ok(()));
        }
        let mut block_ids: Vec<Vec<u8>> = Vec::with_capacity(blocks.len());
        let mut parent_block_ids: Vec<Vec<u8>> = Vec::with_capacity(blocks.len());
        let mut chain_lengths: Vec<i64> = Vec::with_capacity(blocks.len());
        let mut bitcoin_anchors: Vec<Vec<u8>> = Vec::with_capacity(blocks.len());
        let mut i: usize = 0;
        while i < blocks.len()
            invariant
                i <= blocks@.len(),
                block_ids@.len() == i,
                parent_block_ids@.len() == i,
                chain_lengths@.len() == i,
                bitcoin_anchors@.len() == i,
                forall|j: int| 0 <= j < i ==> (#[trigger] blocks@[j]).storable(),
                forall|j: int| 0 <= j < i ==> #[trigger] block_ids@[j]@ == blocks@[j].block_hash.0@,
                forall|j: int|
                    0 <= j < i ==> #[trigger] parent_block_ids@[j]@ == blocks@[j].parent_hash.0@,
                forall|j: int|
                    0 <= j < i ==> #[trigger] chain_lengths@[j] == blocks@[j].block_height.0,
                forall|j: int|
                    0 <= j < i ==> #[trigger] bitcoin_anchors@[j]@ == blocks@[j].bitcoin_anchor.0@,
            decreases blocks@.len() - i,
        {
            let block = &blocks[i];
            let block_height: i64 = match to_bigint(block.block_height.0) {
                Ok(number) => number,
                Err(error) => {
                    assert(!blocks@[i as int].storable());
                    return Step::Done(Err(error));
                },
            };
            block_ids.push(to_bytes(&block.block_hash.0));
            parent_block_ids.push(to_bytes(&block.parent_hash.0));
            chain_lengths.push(block_height);
            bitcoin_anchors.push(to_bytes(&block.bitcoin_anchor.0));
            i = i + 1;
        }
        let params = vec![
            Value::BytesArray(block_ids),
            Value::BytesArray(parent_block_ids),
            Value::Int8Array(chain_lengths),
            Value::BytesArray(bitcoin_anchors),
        ];
        proof {
            let all = block_headers_params(blocks@);
            assert(bytes_of(block_ids@) =~= all[0]->BytesArray_0);
            assert(bytes_of(parent_block_ids@) =~= all[1]->BytesArray_0);
            assert(chain_lengths@.map_values(|n: i64| n as int) =~= all[2]->Int8Array_0);
            assert(bytes_of(bitcoin_anchors@) =~= all[3]->BytesArray_0);
            assert(data(params@) =~= all);
        }
        Execute::ask(sql::WRITE_STACKS_BLOCK_HEADERS, params)
    }
}

} // verus!
