//! How each kind of data lies in the rows of a result.

use crate::convert::{fits_bigint, fits_integer, key_bytes, script_bytes};
use crate::error::DbError;
use crate::model::{
    BitcoinBlock, BitcoinBlockHash, BitcoinBlockHeight, BitcoinBlockRef, BitcoinTxId, BitcoinTxRef,
    DepositRequest, DepositSigner, DkgSharesStatus, EncryptedDkgShares, KeyRotationEvent, PublicKey,
    PublicKeyXOnly, ScriptPubKey, SignerVote, StacksBlock, StacksBlockHash, StacksBlockHeight,
    StacksTxId, SweptDepositRequest, SweptWithdrawalRequest, WithdrawalRequest, WithdrawalSigner,
};
use crate::row::{
    is_bytes, is_int8, is_keys, is_status, is_u16, is_u32, is_uint4, is_uint8, optional_bool,
    read_array, read_bool, read_bytes, read_int8, read_keys, read_optional_bool, read_scripts,
    read_status, read_text, read_u16, read_u32, read_uint4, read_uint8, FromRow,
};
use crate::value::{at, named, Column, Datum, Kind, PgEnum, Row, Value};
use vstd::prelude::*;

verus! {

/// What is read for the report on a deposit request.
#[derive(Debug)]
pub struct DepositStatusSummary {
    /// Whether the signer accepts the deposit, unless it has not voted.
    pub can_accept: Option<bool>,
    /// Whether the signer is a member of the signing set that generated the
    /// public key locking the deposit, unless it has not voted.
    pub can_sign: Option<bool>,
    /// The amount of the deposit, in sats.
    pub amount: u64,
    /// The most to spend on the fee of the sweep, in sats.
    pub max_fee: u64,
    /// The consensus encoded lock time in the reclaim script.
    pub lock_time: u32,
    /// The script by which the signers can spend the deposit.
    pub deposit_script: ScriptPubKey,
    /// The script by which the depositor can reclaim the deposit.
    pub reclaim_script: ScriptPubKey,
    /// The public key in the deposit script.
    pub signers_public_key: PublicKeyXOnly,
    /// The height of the block that confirmed the deposit.
    pub block_height: Option<BitcoinBlockHeight>,
    /// The hash of the block that confirmed the deposit.
    pub block_hash: Option<BitcoinBlockHash>,
}

/// What is read for the report on a withdrawal request.
#[derive(Debug)]
pub struct WithdrawalStatusSummary {
    /// Whether the signer accepts the withdrawal, unless it has not voted.
    pub is_accepted: Option<bool>,
    /// The amount of the withdrawal, in sats.
    pub amount: u64,
    /// The most to spend on the fee of the sweep, in sats.
    pub max_fee: u64,
    /// The script that receives the funds.
    pub recipient: ScriptPubKey,
    /// The height of the bitcoin chain tip when the request was made.
    pub bitcoin_block_height: BitcoinBlockHeight,
    /// The stacks block with the request.
    pub stacks_block_hash: StacksBlockHash,
    /// The height of the stacks block with the request.
    pub stacks_block_height: StacksBlockHeight,
}

/// What is read for an unspent output of the signers.
#[derive(Debug, Clone, Copy)]
pub struct PgSignerUtxo {
    pub txid: BitcoinTxId,
    pub output_index: u32,
    pub amount: u64,
    pub aggregate_key: PublicKey,
}

/// An output that may be the unspent one of the signers.
#[derive(Debug, Clone, Copy)]
pub struct PgCandidateUtxo {
    pub txid: BitcoinTxId,
    pub block_height: BitcoinBlockHeight,
}

/// The datum of a height that may be missing.
pub open spec fn optional_height(height: Option<BitcoinBlockHeight>) -> Datum {
    match height {
        Some(height) => Datum::Int8(height.0 as int),
        None => Datum::Null,
    }
}

/// Whether a height, if there is one, fits into its column.
pub open spec fn fits_optional_height(height: Option<BitcoinBlockHeight>) -> bool {
    height matches Some(height) ==> fits_bigint(height.0 as int)
}

/// The datum of a block hash that may be missing.
pub open spec fn optional_block_hash(hash: Option<BitcoinBlockHash>) -> Datum {
    match hash {
        Some(hash) => Datum::Bytes(hash.0@),
        None => Datum::Null,
    }
}

/// Reads a height that may be missing.
fn read_optional_height(row: &Row, i: usize) -> (result: Option<Option<BitcoinBlockHeight>>)
    requires
        i < row@.len(),
    ensures
        (match result {
            Some(height) => row@[i as int] == optional_height(height) && fits_optional_height(
                height,
            ),
            None => !(is_uint8(row@[i as int]) || row@[i as int] is Null),
        }),
{
    match &row.values[i] {
        Value::Null => Some(None),
        _ => match read_uint8(row, i) {
            Some(height) => Some(Some(BitcoinBlockHeight(height))),
            None => None,
        },
    }
}

/// Reads a block hash that may be missing.
fn read_optional_block_hash(row: &Row, i: usize) -> (result: Option<Option<BitcoinBlockHash>>)
    requires
        i < row@.len(),
    ensures
        (match result {
            Some(hash) => row@[i as int] == optional_block_hash(hash),
            None => !(is_bytes(row@[i as int], 32) || row@[i as int] is Null),
        }),
{
    match &row.values[i] {
        Value::Null => Some(None),
        _ => match read_array(row, i) {
            Some(hash) => Some(Some(BitcoinBlockHash(hash))),
            None => None,
        },
    }
}

impl FromRow for BitcoinBlock {
    open spec fn spec_columns() -> Seq<Column> {
        seq![
            named("block_hash", Kind::Bytes),
            named("block_height", Kind::Int8),
            named("parent_hash", Kind::Bytes),
        ]
    }

    open spec fn is_row(row: Seq<Datum>) -> bool {
        &&& row.len() == 3
        &&& is_bytes(row[0], 32)
        &&& is_uint8(row[1])
        &&& is_bytes(row[2], 32)
    }

    open spec fn row(&self) -> Seq<Datum> {
        seq![
            Datum::Bytes(self.block_hash.0@),
            Datum::Int8(self.block_height.0 as int),
            Datum::Bytes(self.parent_hash.0@),
        ]
    }

    open spec fn storable(&self) -> bool {
        fits_bigint(self.block_height.0 as int)
    }

    proof fn row_is_row(&self) {
    }

    fn columns() -> (columns: Vec<Column>) {
        let columns = vec![
            named("block_hash", Kind::Bytes),
            named("block_height", Kind::Int8),
            named("parent_hash", Kind::Bytes),
        ];
        assert(columns@ =~= Self::spec_columns());
        columns
    }

    fn from_row(row: &Row) -> (result: Result<Self, DbError>) {
        if row.values.len() != 3 {
            return Err(DbError::ColumnDecode);
        }
        let Some(block_hash) = read_array(row, 0) else {
            return Err(DbError::ColumnDecode);
        };
        let Some(block_height) = read_uint8(row, 1) else {
            return Err(DbError::ColumnDecode);
        };
        let Some(parent_hash) = read_array(row, 2) else {
            return Err(DbError::ColumnDecode);
        };
        let item = BitcoinBlock {
            block_hash: BitcoinBlockHash(block_hash),
            block_height: BitcoinBlockHeight(block_height),
            parent_hash: BitcoinBlockHash(parent_hash),
        };
        assert(item.row() =~= row@);
        Ok(item)
    }
}

impl FromRow for BitcoinBlockRef {
    open spec fn spec_columns() -> Seq<Column> {
        seq![
            named("block_hash", Kind::Bytes),
            named("block_height", Kind::Int8),
        ]
    }

    open spec fn is_row(row: Seq<Datum>) -> bool {
        &&& row.len() == 2
        &&& is_bytes(row[0], 32)
        &&& is_uint8(row[1])
    }

    open spec fn row(&self) -> Seq<Datum> {
        seq![
            Datum::Bytes(self.block_hash.0@),
            Datum::Int8(self.block_height.0 as int),
        ]
    }

    open spec fn storable(&self) -> bool {
        fits_bigint(self.block_height.0 as int)
    }

    proof fn row_is_row(&self) {
    }

    fn columns() -> (columns: Vec<Column>) {
        let columns = vec![
            named("block_hash", Kind::Bytes),
            named("block_height", Kind::Int8),
        ];
        assert(columns@ =~= Self::spec_columns());
        columns
    }

    fn from_row(row: &Row) -> (result: Result<Self, DbError>) {
        if row.values.len() != 2 {
            return Err(DbError::ColumnDecode);
        }
        let Some(block_hash) = read_array(row, 0) else {
            return Err(DbError::ColumnDecode);
        };
        let Some(block_height) = read_uint8(row, 1) else {
            return Err(DbError::ColumnDecode);
        };
        let item = BitcoinBlockRef {
            block_hash: BitcoinBlockHash(block_hash),
            block_height: BitcoinBlockHeight(block_height),
        };
        assert(item.row() =~= row@);
        Ok(item)
    }
}

impl FromRow for StacksBlock {
    open spec fn spec_columns() -> Seq<Column> {
        seq![
            named("block_hash", Kind::Bytes),
            named("block_height", Kind::Int8),
            named("parent_hash", Kind::Bytes),
            named("bitcoin_anchor", Kind::Bytes),
        ]
    }

    open spec fn is_row(row: Seq<Datum>) -> bool {
        &&& row.len() == 4
        &&& is_bytes(row[0], 32)
        &&& is_uint8(row[1])
        &&& is_bytes(row[2], 32)
        &&& is_bytes(row[3], 32)
    }

    open spec fn row(&self) -> Seq<Datum> {
        seq![
            Datum::Bytes(self.block_hash.0@),
            Datum::Int8(self.block_height.0 as int),
            Datum::Bytes(self.parent_hash.0@),
            Datum::Bytes(self.bitcoin_anchor.0@),
        ]
    }

    open spec fn storable(&self) -> bool {
        fits_bigint(self.block_height.0 as int)
    }

    proof fn row_is_row(&self) {
    }

    fn columns() -> (columns: Vec<Column>) {
        let columns = vec![
            named("block_hash", Kind::Bytes),
            named("block_height", Kind::Int8),
            named("parent_hash", Kind::Bytes),
            named("bitcoin_anchor", Kind::Bytes),
        ];
        assert(columns@ =~= Self::spec_columns());
        columns
    }

    fn from_row(row: &Row) -> (result: Result<Self, DbError>) {
        if row.values.len() != 4 {
            return Err(DbError::ColumnDecode);
        }
        let Some(block_hash) = read_array(row, 0) else {
            return Err(DbError::ColumnDecode);
        };
        let Some(block_height) = read_uint8(row, 1) else {
            return Err(DbError::ColumnDecode);
        };
        let Some(parent_hash) = read_array(row, 2) else {
            return Err(DbError::ColumnDecode);
        };
        let Some(bitcoin_anchor) = read_array(row, 3) else {
            return Err(DbError::ColumnDecode);
        };
        let item = StacksBlock {
            block_hash: StacksBlockHash(block_hash),
            block_height: StacksBlockHeight(block_height),
            parent_hash: StacksBlockHash(parent_hash),
            bitcoin_anchor: BitcoinBlockHash(bitcoin_anchor),
        };
        assert(item.row() =~= row@);
        Ok(item)
    }
}

impl FromRow for BitcoinTxRef {
    open spec fn spec_columns() -> Seq<Column> {
        seq![
            named("txid", Kind::Bytes),
            named("block_hash", Kind::Bytes),
        ]
    }

    open spec fn is_row(row: Seq<Datum>) -> bool {
        &&& row.len() == 2
        &&& is_bytes(row[0], 32)
        &&& is_bytes(row[1], 32)
    }

    open spec fn row(&self) -> Seq<Datum> {
        seq![
            Datum::Bytes(self.txid.0@),
            Datum::Bytes(self.block_hash.0@),
        ]
    }

    open spec fn storable(&self) -> bool {
        true
    }

    proof fn row_is_row(&self) {
    }

    fn columns() -> (columns: Vec<Column>) {
        let columns = vec![
            named("txid", Kind::Bytes),
            named("block_hash", Kind::Bytes),
        ];
        assert(columns@ =~= Self::spec_columns());
        columns
    }

    fn from_row(row: &Row) -> (result: Result<Self, DbError>) {
        if row.values.len() != 2 {
            return Err(DbError::ColumnDecode);
        }
        let Some(txid) = read_array(row, 0) else {
            return Err(DbError::ColumnDecode);
        };
        let Some(block_hash) = read_array(row, 1) else {
            return Err(DbError::ColumnDecode);
        };
        let item = BitcoinTxRef {
            txid: BitcoinTxId(txid),
            block_hash: BitcoinBlockHash(block_hash),
        };
        assert(item.row() =~= row@);
        Ok(item)
    }
}

impl FromRow for DepositRequest {
    open spec fn spec_columns() -> Seq<Column> {
        seq![
            named("txid", Kind::Bytes),
            named("output_index", Kind::Int4),
            named("spend_script", Kind::Bytes),
            named("reclaim_script", Kind::Bytes),
            named("recipient", Kind::Text),
            named("amount", Kind::Int8),
            named("max_fee", Kind::Int8),
            named("lock_time", Kind::Int8),
            named("signers_public_key", Kind::Bytes),
            named("sender_script_pub_keys", Kind::BytesArray),
        ]
    }

    open spec fn is_row(row: Seq<Datum>) -> bool {
        &&& row.len() == 10
        &&& is_bytes(row[0], 32)
        &&& is_uint4(row[1])
        &&& row[2] is Bytes
        &&& row[3] is Bytes
        &&& row[4] is Text
        &&& is_uint8(row[5])
        &&& is_uint8(row[6])
        &&& is_u32(row[7])
        &&& is_bytes(row[8], 32)
        &&& row[9] is BytesArray
    }

    open spec fn row(&self) -> Seq<Datum> {
        seq![
            Datum::Bytes(self.txid.0@),
            Datum::Int4(self.output_index as int),
            Datum::Bytes(self.spend_script@),
            Datum::Bytes(self.reclaim_script@),
            Datum::Text(self.recipient@),
            Datum::Int8(self.amount as int),
            Datum::Int8(self.max_fee as int),
            Datum::Int8(self.lock_time as int),
            Datum::Bytes(self.signers_public_key.0@),
            Datum::BytesArray(script_bytes(self.sender_script_pub_keys@)),
        ]
    }

    open spec fn storable(&self) -> bool {
        &&& fits_integer(self.output_index as int)
        &&& fits_bigint(self.amount as int)
        &&& fits_bigint(self.max_fee as int)
    }

    proof fn row_is_row(&self) {
    }

    fn columns() -> (columns: Vec<Column>) {
        let columns = vec![
            named("txid", Kind::Bytes),
            named("output_index", Kind::Int4),
            named("spend_script", Kind::Bytes),
            named("reclaim_script", Kind::Bytes),
            named("recipient", Kind::Text),
            named("amount", Kind::Int8),
            named("max_fee", Kind::Int8),
            named("lock_time", Kind::Int8),
            named("signers_public_key", Kind::Bytes),
            named("sender_script_pub_keys", Kind::BytesArray),
        ];
        assert(columns@ =~= Self::spec_columns());
        columns
    }

    fn from_row(row: &Row) -> (result: Result<Self, DbError>) {
        if row.values.len() != 10 {
            return Err(DbError::ColumnDecode);
        }
        let Some(txid) = read_array(row, 0) else {
            return Err(DbError::ColumnDecode);
        };
        let Some(output_index) = read_uint4(row, 1) else {
            return Err(DbError::ColumnDecode);
        };
        let Some(spend_script) = read_bytes(row, 2) else {
            return Err(DbError::ColumnDecode);
        };
        let Some(reclaim_script) = read_bytes(row, 3) else {
            return Err(DbError::ColumnDecode);
        };
        let Some(recipient) = read_text(row, 4) else {
            return Err(DbError::ColumnDecode);
        };
        let Some(amount) = read_uint8(row, 5) else {
            return Err(DbError::ColumnDecode);
        };
        let Some(max_fee) = read_uint8(row, 6) else {
            return Err(DbError::ColumnDecode);
        };
        let Some(lock_time) = read_u32(row, 7) else {
            return Err(DbError::ColumnDecode);
        };
        let Some(signers_public_key) = read_array(row, 8) else {
            return Err(DbError::ColumnDecode);
        };
        let Some(sender_script_pub_keys) = read_scripts(row, 9) else {
            return Err(DbError::ColumnDecode);
        };
        let item = DepositRequest {
            txid: BitcoinTxId(txid),
            output_index,
            spend_script,
            reclaim_script,
            recipient,
            amount,
            max_fee,
            lock_time,
            signers_public_key: PublicKeyXOnly(signers_public_key),
            sender_script_pub_keys,
        };
        assert(item.row() =~= row@);
        Ok(item)
    }
}

impl FromRow for DepositSigner {
    open spec fn spec_columns() -> Seq<Column> {
        seq![
            named("txid", Kind::Bytes),
            named("output_index", Kind::Int4),
            named("signer_pub_key", Kind::Bytes),
            named("can_accept", Kind::Bool),
            named("can_sign", Kind::Bool),
        ]
    }

    open spec fn is_row(row: Seq<Datum>) -> bool {
        &&& row.len() == 5
        &&& is_bytes(row[0], 32)
        &&& is_uint4(row[1])
        &&& is_bytes(row[2], 33)
        &&& row[3] is Bool
        &&& row[4] is Bool
    }

    open spec fn row(&self) -> Seq<Datum> {
        seq![
            Datum::Bytes(self.txid.0@),
            Datum::Int4(self.output_index as int),
            Datum::Bytes(self.signer_pub_key.0@),
            Datum::Bool(self.can_accept),
            Datum::Bool(self.can_sign),
        ]
    }

    open spec fn storable(&self) -> bool {
        fits_integer(self.output_index as int)
    }

    proof fn row_is_row(&self) {
    }

    fn columns() -> (columns: Vec<Column>) {
        let columns = vec![
            named("txid", Kind::Bytes),
            named("output_index", Kind::Int4),
            named("signer_pub_key", Kind::Bytes),
            named("can_accept", Kind::Bool),
            named("can_sign", Kind::Bool),
        ];
        assert(columns@ =~= Self::spec_columns());
        columns
    }

    fn from_row(row: &Row) -> (result: Result<Self, DbError>) {
        if row.values.len() != 5 {
            return Err(DbError::ColumnDecode);
        }
        let Some(txid) = read_array(row, 0) else {
            return Err(DbError::ColumnDecode);
        };
        let Some(output_index) = read_uint4(row, 1) else {
            return Err(DbError::ColumnDecode);
        };
        let Some(signer_pub_key) = read_array(row, 2) else {
            return Err(DbError::ColumnDecode);
        };
        let Some(can_accept) = read_bool(row, 3) else {
            return Err(DbError::ColumnDecode);
        };
        let Some(can_sign) = read_bool(row, 4) else {
            return Err(DbError::ColumnDecode);
        };
        let item = DepositSigner {
            txid: BitcoinTxId(txid),
            output_index,
            signer_pub_key: PublicKey(signer_pub_key),
            can_accept,
            can_sign,
        };
        assert(item.row() =~= row@);
        Ok(item)
    }
}

impl FromRow for WithdrawalRequest {
    open spec fn spec_columns() -> Seq<Column> {
        seq![
            named("request_id", Kind::Int8),
            named("txid", Kind::Bytes),
            named("block_hash", Kind::Bytes),
            named("recipient", Kind::Bytes),
            named("amount", Kind::Int8),
            named("max_fee", Kind::Int8),
            named("sender_address", Kind::Text),
            named("bitcoin_block_height", Kind::Int8),
        ]
    }

    open spec fn is_row(row: Seq<Datum>) -> bool {
        &&& row.len() == 8
        &&& is_uint8(row[0])
        &&& is_bytes(row[1], 32)
        &&& is_bytes(row[2], 32)
        &&& row[3] is Bytes
        &&& is_uint8(row[4])
        &&& is_uint8(row[5])
        &&& row[6] is Text
        &&& is_uint8(row[7])
    }

    open spec fn row(&self) -> Seq<Datum> {
        seq![
            Datum::Int8(self.request_id as int),
            Datum::Bytes(self.txid.0@),
            Datum::Bytes(self.block_hash.0@),
            Datum::Bytes(self.recipient.0@),
            Datum::Int8(self.amount as int),
            Datum::Int8(self.max_fee as int),
            Datum::Text(self.sender_address@),
            Datum::Int8(self.bitcoin_block_height.0 as int),
        ]
    }

    open spec fn storable(&self) -> bool {
        &&& fits_bigint(self.request_id as int)
        &&& fits_bigint(self.amount as int)
        &&& fits_bigint(self.max_fee as int)
        &&& fits_bigint(self.bitcoin_block_height.0 as int)
    }

    proof fn row_is_row(&self) {
    }

    fn columns() -> (columns: Vec<Column>) {
        let columns = vec![
            named("request_id", Kind::Int8),
            named("txid", Kind::Bytes),
            named("block_hash", Kind::Bytes),
            named("recipient", Kind::Bytes),
            named("amount", Kind::Int8),
            named("max_fee", Kind::Int8),
            named("sender_address", Kind::Text),
            named("bitcoin_block_height", Kind::Int8),
        ];
        assert(columns@ =~= Self::spec_columns());
        columns
    }

    fn from_row(row: &Row) -> (result: Result<Self, DbError>) {
        if row.values.len() != 8 {
            return Err(DbError::ColumnDecode);
        }
        let Some(request_id) = read_uint8(row, 0) else {
            return Err(DbError::ColumnDecode);
        };
        let Some(txid) = read_array(row, 1) else {
            return Err(DbError::ColumnDecode);
        };
        let Some(block_hash) = read_array(row, 2) else {
            return Err(DbError::ColumnDecode);
        };
        let Some(recipient) = read_bytes(row, 3) else {
            return Err(DbError::ColumnDecode);
        };
        let Some(amount) = read_uint8(row, 4) else {
            return Err(DbError::ColumnDecode);
        };
        let Some(max_fee) = read_uint8(row, 5) else {
            return Err(DbError::ColumnDecode);
        };
        let Some(sender_address) = read_text(row, 6) else {
            return Err(DbError::ColumnDecode);
        };
        let Some(bitcoin_block_height) = read_uint8(row, 7) else {
            return Err(DbError::ColumnDecode);
        };
        let item = WithdrawalRequest {
            request_id,
            txid: StacksTxId(txid),
            block_hash: StacksBlockHash(block_hash),
            recipient: ScriptPubKey(recipient),
            amount,
            max_fee,
            sender_address,
            bitcoin_block_height: BitcoinBlockHeight(bitcoin_block_height),
        };
        assert(item.row() =~= row@);
        Ok(item)
    }
}

impl FromRow for WithdrawalSigner {
    open spec fn spec_columns() -> Seq<Column> {
        seq![
            named("request_id", Kind::Int8),
            named("txid", Kind::Bytes),
            named("block_hash", Kind::Bytes),
            named("signer_pub_key", Kind::Bytes),
            named("is_accepted", Kind::Bool),
        ]
    }

    open spec fn is_row(row: Seq<Datum>) -> bool {
        &&& row.len() == 5
        &&& is_uint8(row[0])
        &&& is_bytes(row[1], 32)
        &&& is_bytes(row[2], 32)
        &&& is_bytes(row[3], 33)
        &&& row[4] is Bool
    }

    open spec fn row(&self) -> Seq<Datum> {
        seq![
            Datum::Int8(self.request_id as int),
            Datum::Bytes(self.txid.0@),
            Datum::Bytes(self.block_hash.0@),
            Datum::Bytes(self.signer_pub_key.0@),
            Datum::Bool(self.is_accepted),
        ]
    }

    open spec fn storable(&self) -> bool {
        fits_bigint(self.request_id as int)
    }

    proof fn row_is_row(&self) {
    }

    fn columns() -> (columns: Vec<Column>) {
        let columns = vec![
            named("request_id", Kind::Int8),
            named("txid", Kind::Bytes),
            named("block_hash", Kind::Bytes),
            named("signer_pub_key", Kind::Bytes),
            named("is_accepted", Kind::Bool),
        ];
        assert(columns@ =~= Self::spec_columns());
        columns
    }

    fn from_row(row: &Row) -> (result: Result<Self, DbError>) {
        if row.values.len() != 5 {
            return Err(DbError::ColumnDecode);
        }
        let Some(request_id) = read_uint8(row, 0) else {
            return Err(DbError::ColumnDecode);
        };
        let Some(txid) = read_array(row, 1) else {
            return Err(DbError::ColumnDecode);
        };
        let Some(block_hash) = read_array(row, 2) else {
            return Err(DbError::ColumnDecode);
        };
        let Some(signer_pub_key) = read_array(row, 3) else {
            return Err(DbError::ColumnDecode);
        };
        let Some(is_accepted) = read_bool(row, 4) else {
            return Err(DbError::ColumnDecode);
        };
        let item = WithdrawalSigner {
            request_id,
            txid: StacksTxId(txid),
            block_hash: StacksBlockHash(block_hash),
            signer_pub_key: PublicKey(signer_pub_key),
            is_accepted,
        };
        assert(item.row() =~= row@);
        Ok(item)
    }
}

impl FromRow for SignerVote {
    open spec fn spec_columns() -> Seq<Column> {
        seq![
            named("signer_public_key", Kind::Bytes),
            named("is_accepted", Kind::Bool),
        ]
    }

    open spec fn is_row(row: Seq<Datum>) -> bool {
        &&& row.len() == 2
        &&& is_bytes(row[0], 33)
        &&& (row[1] is Bool || row[1] is Null)
    }

    open spec fn row(&self) -> Seq<Datum> {
        seq![
            Datum::Bytes(self.signer_public_key.0@),
            optional_bool(self.is_accepted),
        ]
    }

    open spec fn storable(&self) -> bool {
        true
    }

    proof fn row_is_row(&self) {
    }

    fn columns() -> (columns: Vec<Column>) {
        let columns = vec![
            named("signer_public_key", Kind::Bytes),
            named("is_accepted", Kind::Bool),
        ];
        assert(columns@ =~= Self::spec_columns());
        columns
    }

    fn from_row(row: &Row) -> (result: Result<Self, DbError>) {
        if row.values.len() != 2 {
            return Err(DbError::ColumnDecode);
        }
        let Some(signer_public_key) = read_array(row, 0) else {
            return Err(DbError::ColumnDecode);
        };
        let Some(is_accepted) = read_optional_bool(row, 1) else {
            return Err(DbError::ColumnDecode);
        };
        let item = SignerVote {
            signer_public_key: PublicKey(signer_public_key),
            is_accepted,
        };
        assert(item.row() =~= row@);
        Ok(item)
    }
}

impl FromRow for EncryptedDkgShares {
    open spec fn spec_columns() -> Seq<Column> {
        seq![
            named("aggregate_key", Kind::Bytes),
            named("tweaked_aggregate_key", Kind::Bytes),
            named("script_pubkey", Kind::Bytes),
            named("encrypted_private_shares", Kind::Bytes),
            named("public_shares", Kind::Bytes),
            named("signer_set_public_keys", Kind::BytesArray),
            named("signature_share_threshold", Kind::Int4),
            named("dkg_shares_status", Kind::Label(PgEnum::DkgSharesStatus)),
            named("started_at_bitcoin_block_hash", Kind::Bytes),
            named("started_at_bitcoin_block_height", Kind::Int8),
        ]
    }

    open spec fn is_row(row: Seq<Datum>) -> bool {
        &&& row.len() == 10
        &&& is_bytes(row[0], 33)
        &&& is_bytes(row[1], 33)
        &&& row[2] is Bytes
        &&& row[3] is Bytes
        &&& row[4] is Bytes
        &&& is_keys(row[5])
        &&& is_u16(row[6])
        &&& is_status(row[7])
        &&& is_bytes(row[8], 32)
        &&& is_uint8(row[9])
    }

    open spec fn row(&self) -> Seq<Datum> {
        seq![
            Datum::Bytes(self.aggregate_key.0@),
            Datum::Bytes(self.tweaked_aggregate_key.0@),
            Datum::Bytes(self.script_pubkey.0@),
            Datum::Bytes(self.encrypted_private_shares@),
            Datum::Bytes(self.public_shares@),
            Datum::BytesArray(key_bytes(self.signer_set_public_keys@)),
            Datum::Int4(self.signature_share_threshold as int),
            Datum::Label(PgEnum::DkgSharesStatus, self.dkg_shares_status.spec_label()),
            Datum::Bytes(self.started_at_bitcoin_block_hash.0@),
            Datum::Int8(self.started_at_bitcoin_block_height.0 as int),
        ]
    }

    open spec fn storable(&self) -> bool {
        fits_bigint(self.started_at_bitcoin_block_height.0 as int)
    }

    proof fn row_is_row(&self) {
        assert(DkgSharesStatus::is_label(self.dkg_shares_status.spec_label()));
    }

    fn columns() -> (columns: Vec<Column>) {
        let columns = vec![
            named("aggregate_key", Kind::Bytes),
            named("tweaked_aggregate_key", Kind::Bytes),
            named("script_pubkey", Kind::Bytes),
            named("encrypted_private_shares", Kind::Bytes),
            named("public_shares", Kind::Bytes),
            named("signer_set_public_keys", Kind::BytesArray),
            named("signature_share_threshold", Kind::Int4),
            named("dkg_shares_status", Kind::Label(PgEnum::DkgSharesStatus)),
            named("started_at_bitcoin_block_hash", Kind::Bytes),
            named("started_at_bitcoin_block_height", Kind::Int8),
        ];
        assert(columns@ =~= Self::spec_columns());
        columns
    }

    fn from_row(row: &Row) -> (result: Result<Self, DbError>) {
        if row.values.len() != 10 {
            return Err(DbError::ColumnDecode);
        }
        let Some(aggregate_key) = read_array(row, 0) else {
            return Err(DbError::ColumnDecode);
        };
        let Some(tweaked_aggregate_key) = read_array(row, 1) else {
            return Err(DbError::ColumnDecode);
        };
        let Some(script_pubkey) = read_bytes(row, 2) else {
            return Err(DbError::ColumnDecode);
        };
        let Some(encrypted_private_shares) = read_bytes(row, 3) else {
            return Err(DbError::ColumnDecode);
        };
        let Some(public_shares) = read_bytes(row, 4) else {
            return Err(DbError::ColumnDecode);
        };
        let Some(signer_set_public_keys) = read_keys(row, 5) else {
            return Err(DbError::ColumnDecode);
        };
        let Some(signature_share_threshold) = read_u16(row, 6) else {
            return Err(DbError::ColumnDecode);
        };
        let Some(dkg_shares_status) = read_status(row, 7) else {
            return Err(DbError::ColumnDecode);
        };
        let Some(started_at_bitcoin_block_hash) = read_array(row, 8) else {
            return Err(DbError::ColumnDecode);
        };
        let Some(started_at_bitcoin_block_height) = read_uint8(row, 9) else {
            return Err(DbError::ColumnDecode);
        };
        let item = EncryptedDkgShares {
            aggregate_key: PublicKey(aggregate_key),
            tweaked_aggregate_key: PublicKey(tweaked_aggregate_key),
            script_pubkey: ScriptPubKey(script_pubkey),
            encrypted_private_shares,
            public_shares,
            signer_set_public_keys,
            signature_share_threshold,
            dkg_shares_status,
            started_at_bitcoin_block_hash: BitcoinBlockHash(started_at_bitcoin_block_hash),
            started_at_bitcoin_block_height: BitcoinBlockHeight(started_at_bitcoin_block_height),
        };
        assert(item.row() =~= row@);
        Ok(item)
    }
}

impl FromRow for KeyRotationEvent {
    open spec fn spec_columns() -> Seq<Column> {
        seq![
            named("txid", Kind::Bytes),
            named("block_hash", Kind::Bytes),
            named("address", Kind::Text),
            named("aggregate_key", Kind::Bytes),
            named("signer_set", Kind::BytesArray),
            named("signatures_required", Kind::Int4),
        ]
    }

    open spec fn is_row(row: Seq<Datum>) -> bool {
        &&& row.len() == 6
        &&& is_bytes(row[0], 32)
        &&& is_bytes(row[1], 32)
        &&& row[2] is Text
        &&& is_bytes(row[3], 33)
        &&& is_keys(row[4])
        &&& is_u16(row[5])
    }

    open spec fn row(&self) -> Seq<Datum> {
        seq![
            Datum::Bytes(self.txid.0@),
            Datum::Bytes(self.block_hash.0@),
            Datum::Text(self.address@),
            Datum::Bytes(self.aggregate_key.0@),
            Datum::BytesArray(key_bytes(self.signer_set@)),
            Datum::Int4(self.signatures_required as int),
        ]
    }

    open spec fn storable(&self) -> bool {
        true
    }

    proof fn row_is_row(&self) {
    }

    fn columns() -> (columns: Vec<Column>) {
        let columns = vec![
            named("txid", Kind::Bytes),
            named("block_hash", Kind::Bytes),
            named("address", Kind::Text),
            named("aggregate_key", Kind::Bytes),
            named("signer_set", Kind::BytesArray),
            named("signatures_required", Kind::Int4),
        ];
        assert(columns@ =~= Self::spec_columns());
        columns
    }

    fn from_row(row: &Row) -> (result: Result<Self, DbError>) {
        if row.values.len() != 6 {
            return Err(DbError::ColumnDecode);
        }
        let Some(txid) = read_array(row, 0) else {
            return Err(DbError::ColumnDecode);
        };
        let Some(block_hash) = read_array(row, 1) else {
            return Err(DbError::ColumnDecode);
        };
        let Some(address) = read_text(row, 2) else {
            return Err(DbError::ColumnDecode);
        };
        let Some(aggregate_key) = read_array(row, 3) else {
            return Err(DbError::ColumnDecode);
        };
        let Some(signer_set) = read_keys(row, 4) else {
            return Err(DbError::ColumnDecode);
        };
        let Some(signatures_required) = read_u16(row, 5) else {
            return Err(DbError::ColumnDecode);
        };
        let item = KeyRotationEvent {
            txid: StacksTxId(txid),
            block_hash: StacksBlockHash(block_hash),
            address,
            aggregate_key: PublicKey(aggregate_key),
            signer_set,
            signatures_required,
        };
        assert(item.row() =~= row@);
        Ok(item)
    }
}

impl FromRow for SweptDepositRequest {
    open spec fn spec_columns() -> Seq<Column> {
        seq![
            named("sweep_txid", Kind::Bytes),
            named("sweep_block_hash", Kind::Bytes),
            named("sweep_block_height", Kind::Int8),
            named("txid", Kind::Bytes),
            named("output_index", Kind::Int4),
            named("recipient", Kind::Text),
            named("amount", Kind::Int8),
            named("max_fee", Kind::Int8),
        ]
    }

    open spec fn is_row(row: Seq<Datum>) -> bool {
        &&& row.len() == 8
        &&& is_bytes(row[0], 32)
        &&& is_bytes(row[1], 32)
        &&& is_uint8(row[2])
        &&& is_bytes(row[3], 32)
        &&& is_uint4(row[4])
        &&& row[5] is Text
        &&& is_uint8(row[6])
        &&& is_uint8(row[7])
    }

    open spec fn row(&self) -> Seq<Datum> {
        seq![
            Datum::Bytes(self.sweep_txid.0@),
            Datum::Bytes(self.sweep_block_hash.0@),
            Datum::Int8(self.sweep_block_height.0 as int),
            Datum::Bytes(self.txid.0@),
            Datum::Int4(self.output_index as int),
            Datum::Text(self.recipient@),
            Datum::Int8(self.amount as int),
            Datum::Int8(self.max_fee as int),
        ]
    }

    open spec fn storable(&self) -> bool {
        &&& fits_bigint(self.sweep_block_height.0 as int)
        &&& fits_integer(self.output_index as int)
        &&& fits_bigint(self.amount as int)
        &&& fits_bigint(self.max_fee as int)
    }

    proof fn row_is_row(&self) {
    }

    fn columns() -> (columns: Vec<Column>) {
        let columns = vec![
            named("sweep_txid", Kind::Bytes),
            named("sweep_block_hash", Kind::Bytes),
            named("sweep_block_height", Kind::Int8),
            named("txid", Kind::Bytes),
            named("output_index", Kind::Int4),
            named("recipient", Kind::Text),
            named("amount", Kind::Int8),
            named("max_fee", Kind::Int8),
        ];
        assert(columns@ =~= Self::spec_columns());
        columns
    }

    fn from_row(row: &Row) -> (result: Result<Self, DbError>) {
        if row.values.len() != 8 {
            return Err(DbError::ColumnDecode);
        }
        let Some(sweep_txid) = read_array(row, 0) else {
            return Err(DbError::ColumnDecode);
        };
        let Some(sweep_block_hash) = read_array(row, 1) else {
            return Err(DbError::ColumnDecode);
        };
        let Some(sweep_block_height) = read_uint8(row, 2) else {
            return Err(DbError::ColumnDecode);
        };
        let Some(txid) = read_array(row, 3) else {
            return Err(DbError::ColumnDecode);
        };
        let Some(output_index) = read_uint4(row, 4) else {
            return Err(DbError::ColumnDecode);
        };
        let Some(recipient) = read_text(row, 5) else {
            return Err(DbError::ColumnDecode);
        };
        let Some(amount) = read_uint8(row, 6) else {
            return Err(DbError::ColumnDecode);
        };
        let Some(max_fee) = read_uint8(row, 7) else {
            return Err(DbError::ColumnDecode);
        };
        let item = SweptDepositRequest {
            sweep_txid: BitcoinTxId(sweep_txid),
            sweep_block_hash: BitcoinBlockHash(sweep_block_hash),
            sweep_block_height: BitcoinBlockHeight(sweep_block_height),
            txid: BitcoinTxId(txid),
            output_index,
            recipient,
            amount,
            max_fee,
        };
        assert(item.row() =~= row@);
        Ok(item)
    }
}

impl FromRow for SweptWithdrawalRequest {
    open spec fn spec_columns() -> Seq<Column> {
        seq![
            named("output_index", Kind::Int4),
            named("sweep_txid", Kind::Bytes),
            named("sweep_block_hash", Kind::Bytes),
            named("sweep_block_height", Kind::Int8),
            named("request_id", Kind::Int8),
            named("txid", Kind::Bytes),
            named("block_hash", Kind::Bytes),
            named("recipient", Kind::Bytes),
            named("amount", Kind::Int8),
            named("max_fee", Kind::Int8),
            named("sender_address", Kind::Text),
        ]
    }

    open spec fn is_row(row: Seq<Datum>) -> bool {
        &&& row.len() == 11
        &&& is_uint4(row[0])
        &&& is_bytes(row[1], 32)
        &&& is_bytes(row[2], 32)
        &&& is_uint8(row[3])
        &&& is_uint8(row[4])
        &&& is_bytes(row[5], 32)
        &&& is_bytes(row[6], 32)
        &&& row[7] is Bytes
        &&& is_uint8(row[8])
        &&& is_uint8(row[9])
        &&& row[10] is Text
    }

    open spec fn row(&self) -> Seq<Datum> {
        seq![
            Datum::Int4(self.output_index as int),
            Datum::Bytes(self.sweep_txid.0@),
            Datum::Bytes(self.sweep_block_hash.0@),
            Datum::Int8(self.sweep_block_height.0 as int),
            Datum::Int8(self.request_id as int),
            Datum::Bytes(self.txid.0@),
            Datum::Bytes(self.block_hash.0@),
            Datum::Bytes(self.recipient.0@),
            Datum::Int8(self.amount as int),
            Datum::Int8(self.max_fee as int),
            Datum::Text(self.sender_address@),
        ]
    }

    open spec fn storable(&self) -> bool {
        &&& fits_integer(self.output_index as int)
        &&& fits_bigint(self.sweep_block_height.0 as int)
        &&& fits_bigint(self.request_id as int)
        &&& fits_bigint(self.amount as int)
        &&& fits_bigint(self.max_fee as int)
    }

    proof fn row_is_row(&self) {
    }

    fn columns() -> (columns: Vec<Column>) {
        let columns = vec![
            named("output_index", Kind::Int4),
            named("sweep_txid", Kind::Bytes),
            named("sweep_block_hash", Kind::Bytes),
            named("sweep_block_height", Kind::Int8),
            named("request_id", Kind::Int8),
            named("txid", Kind::Bytes),
            named("block_hash", Kind::Bytes),
            named("recipient", Kind::Bytes),
            named("amount", Kind::Int8),
            named("max_fee", Kind::Int8),
            named("sender_address", Kind::Text),
        ];
        assert(columns@ =~= Self::spec_columns());
        columns
    }

    fn from_row(row: &Row) -> (result: Result<Self, DbError>) {
        if row.values.len() != 11 {
            return Err(DbError::ColumnDecode);
        }
        let Some(output_index) = read_uint4(row, 0) else {
            return Err(DbError::ColumnDecode);
        };
        let Some(sweep_txid) = read_array(row, 1) else {
            return Err(DbError::ColumnDecode);
        };
        let Some(sweep_block_hash) = read_array(row, 2) else {
            return Err(DbError::ColumnDecode);
        };
        let Some(sweep_block_height) = read_uint8(row, 3) else {
            return Err(DbError::ColumnDecode);
        };
        let Some(request_id) = read_uint8(row, 4) else {
            return Err(DbError::ColumnDecode);
        };
        let Some(txid) = read_array(row, 5) else {
            return Err(DbError::ColumnDecode);
        };
        let Some(block_hash) = read_array(row, 6) else {
            return Err(DbError::ColumnDecode);
        };
        let Some(recipient) = read_bytes(row, 7) else {
            return Err(DbError::ColumnDecode);
        };
        let Some(amount) = read_uint8(row, 8) else {
            return Err(DbError::ColumnDecode);
        };
        let Some(max_fee) = read_uint8(row, 9) else {
            return Err(DbError::ColumnDecode);
        };
        let Some(sender_address) = read_text(row, 10) else {
            return Err(DbError::ColumnDecode);
        };
        let item = SweptWithdrawalRequest {
            output_index,
            sweep_txid: BitcoinTxId(sweep_txid),
            sweep_block_hash: BitcoinBlockHash(sweep_block_hash),
            sweep_block_height: BitcoinBlockHeight(sweep_block_height),
            request_id,
            txid: StacksTxId(txid),
            block_hash: StacksBlockHash(block_hash),
            recipient: ScriptPubKey(recipient),
            amount,
            max_fee,
            sender_address,
        };
        assert(item.row() =~= row@);
        Ok(item)
    }
}

impl FromRow for DepositStatusSummary {
    open spec fn spec_columns() -> Seq<Column> {
        seq![
            named("can_accept", Kind::Bool),
            named("can_sign", Kind::Bool),
            named("amount", Kind::Int8),
            named("max_fee", Kind::Int8),
            named("lock_time", Kind::Int8),
            named("deposit_script", Kind::Bytes),
            named("reclaim_script", Kind::Bytes),
            named("signers_public_key", Kind::Bytes),
            named("block_height", Kind::Int8),
            named("block_hash", Kind::Bytes),
        ]
    }

    open spec fn is_row(row: Seq<Datum>) -> bool {
        &&& row.len() == 10
        &&& (row[0] is Bool || row[0] is Null)
        &&& (row[1] is Bool || row[1] is Null)
        &&& is_uint8(row[2])
        &&& is_uint8(row[3])
        &&& is_u32(row[4])
        &&& row[5] is Bytes
        &&& row[6] is Bytes
        &&& is_bytes(row[7], 32)
        &&& (is_uint8(row[8]) || row[8] is Null)
        &&& (is_bytes(row[9], 32) || row[9] is Null)
    }

    open spec fn row(&self) -> Seq<Datum> {
        seq![
            optional_bool(self.can_accept),
            optional_bool(self.can_sign),
            Datum::Int8(self.amount as int),
            Datum::Int8(self.max_fee as int),
            Datum::Int8(self.lock_time as int),
            Datum::Bytes(self.deposit_script.0@),
            Datum::Bytes(self.reclaim_script.0@),
            Datum::Bytes(self.signers_public_key.0@),
            optional_height(self.block_height),
            optional_block_hash(self.block_hash),
        ]
    }

    open spec fn storable(&self) -> bool {
        &&& fits_bigint(self.amount as int)
        &&& fits_bigint(self.max_fee as int)
        &&& fits_optional_height(self.block_height)
    }

    proof fn row_is_row(&self) {
    }

    fn columns() -> (columns: Vec<Column>) {
        let columns = vec![
            named("can_accept", Kind::Bool),
            named("can_sign", Kind::Bool),
            named("amount", Kind::Int8),
            named("max_fee", Kind::Int8),
            named("lock_time", Kind::Int8),
            named("deposit_script", Kind::Bytes),
            named("reclaim_script", Kind::Bytes),
            named("signers_public_key", Kind::Bytes),
            named("block_height", Kind::Int8),
            named("block_hash", Kind::Bytes),
        ];
        assert(columns@ =~= Self::spec_columns());
        columns
    }

    fn from_row(row: &Row) -> (result: Result<Self, DbError>) {
        if row.values.len() != 10 {
            return Err(DbError::ColumnDecode);
        }
        let Some(can_accept) = read_optional_bool(row, 0) else {
            return Err(DbError::ColumnDecode);
        };
        let Some(can_sign) = read_optional_bool(row, 1) else {
            return Err(DbError::ColumnDecode);
        };
        let Some(amount) = read_uint8(row, 2) else {
            return Err(DbError::ColumnDecode);
        };
        let Some(max_fee) = read_uint8(row, 3) else {
            return Err(DbError::ColumnDecode);
        };
        let Some(lock_time) = read_u32(row, 4) else {
            return Err(DbError::ColumnDecode);
        };
        let Some(deposit_script) = read_bytes(row, 5) else {
            return Err(DbError::ColumnDecode);
        };
        let Some(reclaim_script) = read_bytes(row, 6) else {
            return Err(DbError::ColumnDecode);
        };
        let Some(signers_public_key) = read_array(row, 7) else {
            return Err(DbError::ColumnDecode);
        };
        let Some(block_height) = read_optional_height(row, 8) else {
            return Err(DbError::ColumnDecode);
        };
        let Some(block_hash) = read_optional_block_hash(row, 9) else {
            return Err(DbError::ColumnDecode);
        };
        let item = DepositStatusSummary {
            can_accept,
            can_sign,
            amount,
            max_fee,
            lock_time,
            deposit_script: ScriptPubKey(deposit_script),
            reclaim_script: ScriptPubKey(reclaim_script),
            signers_public_key: PublicKeyXOnly(signers_public_key),
            block_height,
            block_hash,
        };
        assert(item.row() =~= row@);
        Ok(item)
    }
}

impl FromRow for WithdrawalStatusSummary {
    open spec fn spec_columns() -> Seq<Column> {
        seq![
            named("is_accepted", Kind::Bool),
            named("amount", Kind::Int8),
            named("max_fee", Kind::Int8),
            named("recipient", Kind::Bytes),
            named("bitcoin_block_height", Kind::Int8),
            named("stacks_block_hash", Kind::Bytes),
            named("stacks_block_height", Kind::Int8),
        ]
    }

    open spec fn is_row(row: Seq<Datum>) -> bool {
        &&& row.len() == 7
        &&& (row[0] is Bool || row[0] is Null)
        &&& is_uint8(row[1])
        &&& is_uint8(row[2])
        &&& row[3] is Bytes
        &&& is_uint8(row[4])
        &&& is_bytes(row[5], 32)
        &&& is_uint8(row[6])
    }

    open spec fn row(&self) -> Seq<Datum> {
        seq![
            optional_bool(self.is_accepted),
            Datum::Int8(self.amount as int),
            Datum::Int8(self.max_fee as int),
            Datum::Bytes(self.recipient.0@),
            Datum::Int8(self.bitcoin_block_height.0 as int),
            Datum::Bytes(self.stacks_block_hash.0@),
            Datum::Int8(self.stacks_block_height.0 as int),
        ]
    }

    open spec fn storable(&self) -> bool {
        &&& fits_bigint(self.amount as int)
        &&& fits_bigint(self.max_fee as int)
        &&& fits_bigint(self.bitcoin_block_height.0 as int)
        &&& fits_bigint(self.stacks_block_height.0 as int)
    }

    proof fn row_is_row(&self) {
    }

    fn columns() -> (columns: Vec<Column>) {
        let columns = vec![
            named("is_accepted", Kind::Bool),
            named("amount", Kind::Int8),
            named("max_fee", Kind::Int8),
            named("recipient", Kind::Bytes),
            named("bitcoin_block_height", Kind::Int8),
            named("stacks_block_hash", Kind::Bytes),
            named("stacks_block_height", Kind::Int8),
        ];
        assert(columns@ =~= Self::spec_columns());
        columns
    }

    fn from_row(row: &Row) -> (result: Result<Self, DbError>) {
        if row.values.len() != 7 {
            return Err(DbError::ColumnDecode);
        }
        let Some(is_accepted) = read_optional_bool(row, 0) else {
            return Err(DbError::ColumnDecode);
        };
        let Some(amount) = read_uint8(row, 1) else {
            return Err(DbError::ColumnDecode);
        };
        let Some(max_fee) = read_uint8(row, 2) else {
            return Err(DbError::ColumnDecode);
        };
        let Some(recipient) = read_bytes(row, 3) else {
            return Err(DbError::ColumnDecode);
        };
        let Some(bitcoin_block_height) = read_uint8(row, 4) else {
            return Err(DbError::ColumnDecode);
        };
        let Some(stacks_block_hash) = read_array(row, 5) else {
            return Err(DbError::ColumnDecode);
        };
        let Some(stacks_block_height) = read_uint8(row, 6) else {
            return Err(DbError::ColumnDecode);
        };
        let item = WithdrawalStatusSummary {
            is_accepted,
            amount,
            max_fee,
            recipient: ScriptPubKey(recipient),
            bitcoin_block_height: BitcoinBlockHeight(bitcoin_block_height),
            stacks_block_hash: StacksBlockHash(stacks_block_hash),
            stacks_block_height: StacksBlockHeight(stacks_block_height),
        };
        assert(item.row() =~= row@);
        Ok(item)
    }
}

impl FromRow for PgSignerUtxo {
    open spec fn spec_columns() -> Seq<Column> {
        seq![
            named("txid", Kind::Bytes),
            named("output_index", Kind::Int4),
            named("amount", Kind::Int8),
            named("aggregate_key", Kind::Bytes),
        ]
    }

    open spec fn is_row(row: Seq<Datum>) -> bool {
        &&& row.len() == 4
        &&& is_bytes(row[0], 32)
        &&& is_uint4(row[1])
        &&& is_uint8(row[2])
        &&& is_bytes(row[3], 33)
    }

    open spec fn row(&self) -> Seq<Datum> {
        seq![
            Datum::Bytes(self.txid.0@),
            Datum::Int4(self.output_index as int),
            Datum::Int8(self.amount as int),
            Datum::Bytes(self.aggregate_key.0@),
        ]
    }

    open spec fn storable(&self) -> bool {
        &&& fits_integer(self.output_index as int)
        &&& fits_bigint(self.amount as int)
    }

    proof fn row_is_row(&self) {
    }

    fn columns() -> (columns: Vec<Column>) {
        let columns = vec![
            named("txid", Kind::Bytes),
            named("output_index", Kind::Int4),
            named("amount", Kind::Int8),
            named("aggregate_key", Kind::Bytes),
        ];
        assert(columns@ =~= Self::spec_columns());
        columns
    }

    fn from_row(row: &Row) -> (result: Result<Self, DbError>) {
        if row.values.len() != 4 {
            return Err(DbError::ColumnDecode);
        }
        let Some(txid) = read_array(row, 0) else {
            return Err(DbError::ColumnDecode);
        };
        let Some(output_index) = read_uint4(row, 1) else {
            return Err(DbError::ColumnDecode);
        };
        let Some(amount) = read_uint8(row, 2) else {
            return Err(DbError::ColumnDecode);
        };
        let Some(aggregate_key) = read_array(row, 3) else {
            return Err(DbError::ColumnDecode);
        };
        let item = PgSignerUtxo {
            txid: BitcoinTxId(txid),
            output_index,
            amount,
            aggregate_key: PublicKey(aggregate_key),
        };
        assert(item.row() =~= row@);
        Ok(item)
    }
}

impl FromRow for PgCandidateUtxo {
    open spec fn spec_columns() -> Seq<Column> {
        seq![
            named("txid", Kind::Bytes),
            named("block_height", Kind::Int8),
        ]
    }

    open spec fn is_row(row: Seq<Datum>) -> bool {
        &&& row.len() == 2
        &&& is_bytes(row[0], 32)
        &&& is_uint8(row[1])
    }

    open spec fn row(&self) -> Seq<Datum> {
        seq![
            Datum::Bytes(self.txid.0@),
            Datum::Int8(self.block_height.0 as int),
        ]
    }

    open spec fn storable(&self) -> bool {
        fits_bigint(self.block_height.0 as int)
    }

    proof fn row_is_row(&self) {
    }

    fn columns() -> (columns: Vec<Column>) {
        let columns = vec![
            named("txid", Kind::Bytes),
            named("block_height", Kind::Int8),
        ];
        assert(columns@ =~= Self::spec_columns());
        columns
    }

    fn from_row(row: &Row) -> (result: Result<Self, DbError>) {
        if row.values.len() != 2 {
            return Err(DbError::ColumnDecode);
        }
        let Some(txid) = read_array(row, 0) else {
            return Err(DbError::ColumnDecode);
        };
        let Some(block_height) = read_uint8(row, 1) else {
            return Err(DbError::ColumnDecode);
        };
        let item = PgCandidateUtxo {
            txid: BitcoinTxId(txid),
            block_height: BitcoinBlockHeight(block_height),
        };
        assert(item.row() =~= row@);
        Ok(item)
    }
}

impl FromRow for bool {
    open spec fn spec_columns() -> Seq<Column> {
        seq![
            at(0, Kind::Bool),
        ]
    }

    open spec fn is_row(row: Seq<Datum>) -> bool {
        &&& row.len() == 1
        &&& row[0] is Bool
    }

    open spec fn row(&self) -> Seq<Datum> {
        seq![
            Datum::Bool(*self),
        ]
    }

    open spec fn storable(&self) -> bool {
        true
    }

    proof fn row_is_row(&self) {
    }

    fn columns() -> (columns: Vec<Column>) {
        let columns = vec![
            at(0, Kind::Bool),
        ];
        assert(columns@ =~= Self::spec_columns());
        columns
    }

    fn from_row(row: &Row) -> (result: Result<Self, DbError>) {
        if row.values.len() != 1 {
            return Err(DbError::ColumnDecode);
        }
        let Some(value) = read_bool(row, 0) else {
            return Err(DbError::ColumnDecode);
        };
        let item = value;
        assert(item.row() =~= row@);
        Ok(item)
    }
}

impl FromRow for i64 {
    open spec fn spec_columns() -> Seq<Column> {
        seq![
            at(0, Kind::Int8),
        ]
    }

    open spec fn is_row(row: Seq<Datum>) -> bool {
        &&& row.len() == 1
        &&& is_int8(row[0])
    }

    open spec fn row(&self) -> Seq<Datum> {
        seq![
            Datum::Int8(*self as int),
        ]
    }

    open spec fn storable(&self) -> bool {
        true
    }

    proof fn row_is_row(&self) {
    }

    fn columns() -> (columns: Vec<Column>) {
        let columns = vec![
            at(0, Kind::Int8),
        ];
        assert(columns@ =~= Self::spec_columns());
        columns
    }

    fn from_row(row: &Row) -> (result: Result<Self, DbError>) {
        if row.values.len() != 1 {
            return Err(DbError::ColumnDecode);
        }
        let Some(value) = read_int8(row, 0) else {
            return Err(DbError::ColumnDecode);
        };
        let item = value;
        assert(item.row() =~= row@);
        Ok(item)
    }
}

impl FromRow for Vec<u8> {
    open spec fn spec_columns() -> Seq<Column> {
        seq![
            at(0, Kind::Bytes),
        ]
    }

    open spec fn is_row(row: Seq<Datum>) -> bool {
        &&& row.len() == 1
        &&& row[0] is Bytes
    }

    open spec fn row(&self) -> Seq<Datum> {
        seq![
            Datum::Bytes(self@),
        ]
    }

    open spec fn storable(&self) -> bool {
        true
    }

    proof fn row_is_row(&self) {
    }

    fn columns() -> (columns: Vec<Column>) {
        let columns = vec![
            at(0, Kind::Bytes),
        ];
        assert(columns@ =~= Self::spec_columns());
        columns
    }

    fn from_row(row: &Row) -> (result: Result<Self, DbError>) {
        if row.values.len() != 1 {
            return Err(DbError::ColumnDecode);
        }
        let Some(value) = read_bytes(row, 0) else {
            return Err(DbError::ColumnDecode);
        };
        let item = value;
        assert(item.row() =~= row@);
        Ok(item)
    }
}

impl FromRow for BitcoinTxId {
    open spec fn spec_columns() -> Seq<Column> {
        seq![
            at(0, Kind::Bytes),
        ]
    }

    open spec fn is_row(row: Seq<Datum>) -> bool {
        &&& row.len() == 1
        &&& is_bytes(row[0], 32)
    }

    open spec fn row(&self) -> Seq<Datum> {
        seq![
            Datum::Bytes(self.0@),
        ]
    }

    open spec fn storable(&self) -> bool {
        true
    }

    proof fn row_is_row(&self) {
    }

    fn columns() -> (columns: Vec<Column>) {
        let columns = vec![
            at(0, Kind::Bytes),
        ];
        assert(columns@ =~= Self::spec_columns());
        columns
    }

    fn from_row(row: &Row) -> (result: Result<Self, DbError>) {
        if row.values.len() != 1 {
            return Err(DbError::ColumnDecode);
        }
        let Some(value) = read_array(row, 0) else {
            return Err(DbError::ColumnDecode);
        };
        let item = BitcoinTxId(value);
        assert(item.row() =~= row@);
        Ok(item)
    }
}

impl FromRow for BitcoinBlockHeight {
    open spec fn spec_columns() -> Seq<Column> {
        seq![
            at(0, Kind::Int8),
        ]
    }

    open spec fn is_row(row: Seq<Datum>) -> bool {
        &&& row.len() == 1
        &&& is_uint8(row[0])
    }

    open spec fn row(&self) -> Seq<Datum> {
        seq![
            Datum::Int8(self.0 as int),
        ]
    }

    open spec fn storable(&self) -> bool {
        fits_bigint(self.0 as int)
    }

    proof fn row_is_row(&self) {
    }

    fn columns() -> (columns: Vec<Column>) {
        let columns = vec![
            at(0, Kind::Int8),
        ];
        assert(columns@ =~= Self::spec_columns());
        columns
    }

    fn from_row(row: &Row) -> (result: Result<Self, DbError>) {
        if row.values.len() != 1 {
            return Err(DbError::ColumnDecode);
        }
        let Some(value) = read_uint8(row, 0) else {
            return Err(DbError::ColumnDecode);
        };
        let item = BitcoinBlockHeight(value);
        assert(item.row() =~= row@);
        Ok(item)
    }
}

impl FromRow for Option<BitcoinBlockHeight> {
    open spec fn spec_columns() -> Seq<Column> {
        seq![
            at(0, Kind::Int8),
        ]
    }

    open spec fn is_row(row: Seq<Datum>) -> bool {
        &&& row.len() == 1
        &&& (is_uint8(row[0]) || row[0] is Null)
    }

    open spec fn row(&self) -> Seq<Datum> {
        seq![
            optional_height(*self),
        ]
    }

    open spec fn storable(&self) -> bool {
        fits_optional_height(*self)
    }

    proof fn row_is_row(&self) {
    }

    fn columns() -> (columns: Vec<Column>) {
        let columns = vec![
            at(0, Kind::Int8),
        ];
        assert(columns@ =~= Self::spec_columns());
        columns
    }

    fn from_row(row: &Row) -> (result: Result<Self, DbError>) {
        if row.values.len() != 1 {
            return Err(DbError::ColumnDecode);
        }
        let Some(value) = read_optional_height(row, 0) else {
            return Err(DbError::ColumnDecode);
        };
        let item = value;
        assert(item.row() =~= row@);
        Ok(item)
    }
}

impl FromRow for Option<i64> {
    open spec fn spec_columns() -> Seq<Column> {
        seq![at(0, Kind::Int8)]
    }

    open spec fn is_row(row: Seq<Datum>) -> bool {
        &&& row.len() == 1
        &&& is_int8(row[0]) || row[0] is Null
    }

    open spec fn row(&self) -> Seq<Datum> {
        seq![
            match *self {
                Some(number) => Datum::Int8(number as int),
                None => Datum::Null,
            },
        ]
    }

    open spec fn storable(&self) -> bool {
        true
    }

    proof fn row_is_row(&self) {
    }

    fn columns() -> (columns: Vec<Column>) {
        let columns = vec![at(0, Kind::Int8)];
        assert(columns@ =~= Self::spec_columns());
        columns
    }

    fn from_row(row: &Row) -> (result: Result<Self, DbError>) {
        if row.values.len() != 1 {
            return Err(DbError::ColumnDecode);
        }
        let item = match &row.values[0] {
            Value::Null => None,
            Value::Int8(number) => Some(*number),
            _ => {
                return Err(DbError::ColumnDecode);
            },
        };
        assert(item.row() =~= row@);
        Ok(item)
    }
}

impl FromRow for (bool, PublicKeyXOnly) {
    open spec fn spec_columns() -> Seq<Column> {
        seq![at(0, Kind::Bool), at(1, Kind::Bytes)]
    }

    open spec fn is_row(row: Seq<Datum>) -> bool {
        &&& row.len() == 2
        &&& row[0] is Bool
        &&& is_bytes(row[1], 32)
    }

    open spec fn row(&self) -> Seq<Datum> {
        seq![Datum::Bool(self.0), Datum::Bytes(self.1.0@)]
    }

    open spec fn storable(&self) -> bool {
        true
    }

    proof fn row_is_row(&self) {
    }

    fn columns() -> (columns: Vec<Column>) {
        let columns = vec![at(0, Kind::Bool), at(1, Kind::Bytes)];
        assert(columns@ =~= Self::spec_columns());
        columns
    }

    fn from_row(row: &Row) -> (result: Result<Self, DbError>) {
        if row.values.len() != 2 {
            return Err(DbError::ColumnDecode);
        }
        let Some(flag) = read_bool(row, 0) else {
            return Err(DbError::ColumnDecode);
        };
        let Some(key) = read_array(row, 1) else {
            return Err(DbError::ColumnDecode);
        };
        let item = (flag, PublicKeyXOnly(key));
        assert(item.row() =~= row@);
        Ok(item)
    }
}

} // verus!
