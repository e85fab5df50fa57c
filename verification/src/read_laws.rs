//! What the operations that read with one statement give, by the names of the
//! columns that they read.

use crate::by_name::{
    all_rows_are_read_by_name, all_tell, found, found_data_is_given, in_bigint, in_integer,
    known_data_is_given, one_row_is_read_by_name, optional_row_is_read_by_name, reads_all,
    reads_one, reads_optional, serves, told_list_is_given, Tables,
};
use crate::chain::{block_hash_bytes, BlockHashOf, BlockHashesOf, IsSome};
use crate::compose::{run_converting, Converting};
use crate::error::{DbError, StoreError};
use crate::fetch::{
    ask_all, ask_one, ask_optional, row_view, rows_view, ExecuteAny, FetchAll, FetchOne,
    FetchOptional,
};
use crate::keys::CountOf;
use crate::model::{
    BitcoinBlock, BitcoinBlockHash, BitcoinBlockHeight, BitcoinBlockRef, BitcoinTxId, BitcoinTxRef,
    DepositRequest, DepositSigner, EncryptedDkgShares, PublicKey, PublicKeyXOnly,
    QualifiedRequestId, ScriptPubKey, SigHash, SignerVote, SignerVotes, StacksBlock,
    StacksBlockHash, StacksBlockHeight, StacksBlockId, WithdrawalRequest, WithdrawalSigner,
};
use crate::procedure::{run, step_view, Database, Operation, Step, StepView};
use crate::records::WithdrawalStatusSummary;
use crate::row::{as_bytes, FromRow};
use crate::sql;
use crate::store::PgStore;
use crate::value::{ActionView, Datum, Fetch, ResponseView, StatementView};
use crate::votes::VotesOf;
use crate::withdrawals::TotalOf;
use vstd::prelude::*;

verus! {

/// The bitcoin block that is given is the one that the database knows by the hash.
pub proof fn bitcoin_block_is_read<P>(
    store: PgStore<P>,
    block_hash: BitcoinBlockHash,
    step: Step<FetchOptional<BitcoinBlock>, Option<BitcoinBlock>>,
    tables: Tables,
    database: Database,
)
    requires
        call_ensures(PgStore::<P>::get_bitcoin_block, (&store, &block_hash), step),
        serves(database, tables),
    ensures
        reads_optional::<BitcoinBlock>(
            run::<FetchOptional<BitcoinBlock>>(step_view(step), database),
            tables(
                sql::GET_BITCOIN_BLOCK,
                Fetch::Optional,
                seq![
                    Datum::Bytes(block_hash.0@),
                ],
            ),
        ),
{
    optional_row_is_read_by_name::<BitcoinBlock>(
        sql::GET_BITCOIN_BLOCK,
        seq![
            Datum::Bytes(block_hash.0@),
        ],
        tables,
        database,
    );
}

/// The stacks block that is given is the one that the database knows by the hash.
pub proof fn stacks_block_is_read<P>(
    store: PgStore<P>,
    block_hash: StacksBlockHash,
    step: Step<FetchOptional<StacksBlock>, Option<StacksBlock>>,
    tables: Tables,
    database: Database,
)
    requires
        call_ensures(PgStore::<P>::get_stacks_block, (&store, &block_hash), step),
        serves(database, tables),
    ensures
        reads_optional::<StacksBlock>(
            run::<FetchOptional<StacksBlock>>(step_view(step), database),
            tables(
                sql::GET_STACKS_BLOCK,
                Fetch::Optional,
                seq![
                    Datum::Bytes(block_hash.0@),
                ],
            ),
        ),
{
    optional_row_is_read_by_name::<StacksBlock>(
        sql::GET_STACKS_BLOCK,
        seq![
            Datum::Bytes(block_hash.0@),
        ],
        tables,
        database,
    );
}

/// The chain tip that is given has the hash and the height that the database gives.
pub proof fn chain_tip_ref_is_read<P>(
    store: PgStore<P>,
    step: Step<FetchOptional<BitcoinBlockRef>, Option<BitcoinBlockRef>>,
    tables: Tables,
    database: Database,
)
    requires
        call_ensures(PgStore::<P>::get_bitcoin_canonical_chain_tip_ref, (&store,), step),
        serves(database, tables),
    ensures
        reads_optional::<BitcoinBlockRef>(
            run::<FetchOptional<BitcoinBlockRef>>(step_view(step), database),
            tables(
                sql::GET_BITCOIN_CANONICAL_CHAIN_TIP_REF,
                Fetch::Optional,
                Seq::empty(),
            ),
        ),
{
    optional_row_is_read_by_name::<BitcoinBlockRef>(
        sql::GET_BITCOIN_CANONICAL_CHAIN_TIP_REF,
        Seq::empty(),
        tables,
        database,
    );
}

/// The stacks chain tip is that of the given bitcoin chain tip.
pub proof fn stacks_chain_tip_is_read<P>(
    store: PgStore<P>,
    bitcoin_chain_tip: BitcoinBlockHash,
    step: Step<FetchOptional<StacksBlock>, Option<StacksBlock>>,
    tables: Tables,
    database: Database,
)
    requires
        call_ensures(PgStore::<P>::get_stacks_chain_tip, (&store, &bitcoin_chain_tip), step),
        serves(database, tables),
    ensures
        reads_optional::<StacksBlock>(
            run::<FetchOptional<StacksBlock>>(step_view(step), database),
            tables(
                sql::GET_STACKS_CHAIN_TIP,
                Fetch::Optional,
                seq![
                    Datum::Bytes(bitcoin_chain_tip.0@),
                ],
            ),
        ),
{
    optional_row_is_read_by_name::<StacksBlock>(
        sql::GET_STACKS_CHAIN_TIP,
        seq![
            Datum::Bytes(bitcoin_chain_tip.0@),
        ],
        tables,
        database,
    );
}

/// Whether a bitcoin block is known is asked for with its hash.
pub proof fn known_block_is_told<P>(
    store: PgStore<P>,
    block_hash: BitcoinBlockHash,
    step: Step<FetchOne<bool>, bool>,
    tables: Tables,
    database: Database,
)
    requires
        call_ensures(PgStore::<P>::is_known_bitcoin_block_hash, (&store, &block_hash), step),
        serves(database, tables),
    ensures
        reads_one::<bool>(
            run::<FetchOne<bool>>(step_view(step), database),
            tables(
                sql::IS_KNOWN_BITCOIN_BLOCK_HASH,
                Fetch::One,
                seq![
                    Datum::Bytes(block_hash.0@),
                ],
            ),
        ),
{
    one_row_is_read_by_name::<bool>(
        sql::IS_KNOWN_BITCOIN_BLOCK_HASH,
        seq![
            Datum::Bytes(block_hash.0@),
        ],
        tables,
        database,
    );
}

/// Whether a block is part of a bitcoin blockchain is searched for from the tip
/// down to the height of the block, for as many blocks as lie in between.
pub proof fn place_in_bitcoin_blockchain_is_told<P>(
    store: PgStore<P>,
    chain_tip: BitcoinBlockRef,
    block_ref: BitcoinBlockRef,
    step: Step<FetchOne<bool>, bool>,
    tables: Tables,
    database: Database,
)
    requires
        call_ensures(
            PgStore::<P>::in_canonical_bitcoin_blockchain,
            (&store, &chain_tip, &block_ref),
            step,
        ),
        serves(database, tables),
    ensures
        in_bigint(block_ref.block_height.0 as int) && chain_tip.block_height.0
            - block_ref.block_height.0 < 0x8000_0000_0000_0000 ==> reads_one::<bool>(
            run::<FetchOne<bool>>(step_view(step), database),
            tables(
                sql::IN_CANONICAL_BITCOIN_BLOCKCHAIN,
                Fetch::One,
                seq![
                    Datum::Bytes(chain_tip.block_hash.0@),
                    Datum::Bytes(block_ref.block_hash.0@),
                    Datum::Int8(if chain_tip.block_height.0 >= block_ref.block_height.0 {
                            chain_tip.block_height.0 - block_ref.block_height.0
                        } else {
                            0
                        }),
                    Datum::Int8(block_ref.block_height.0 as int),
                ],
            ),
        ),
        !(in_bigint(block_ref.block_height.0 as int) && chain_tip.block_height.0
            - block_ref.block_height.0 < 0x8000_0000_0000_0000)
                ==> step_view(step) == StepView::<(), Seq<Datum>>::Done(
            Err(StoreError::ConversionDatabaseInt),
        ),
{
    one_row_is_read_by_name::<bool>(
        sql::IN_CANONICAL_BITCOIN_BLOCKCHAIN,
        seq![
            Datum::Bytes(chain_tip.block_hash.0@),
            Datum::Bytes(block_ref.block_hash.0@),
            Datum::Int8(if chain_tip.block_height.0 >= block_ref.block_height.0 {
                    chain_tip.block_height.0 - block_ref.block_height.0
                } else {
                    0
                }),
            Datum::Int8(block_ref.block_height.0 as int),
        ],
        tables,
        database,
    );
}

/// Whether a block is part of a stacks blockchain is searched for from the tip down
/// to the height of the block.
pub proof fn place_in_stacks_blockchain_is_told<P>(
    store: PgStore<P>,
    chain_tip: StacksBlockHash,
    block_hash: StacksBlockHash,
    block_height: StacksBlockHeight,
    step: Step<FetchOne<bool>, bool>,
    tables: Tables,
    database: Database,
)
    requires
        call_ensures(
            PgStore::<P>::in_canonical_stacks_blockchain,
            (&store, &chain_tip, &block_hash, block_height),
            step,
        ),
        serves(database, tables),
    ensures
        in_bigint(block_height.0 as int) ==> reads_one::<bool>(
            run::<FetchOne<bool>>(step_view(step), database),
            tables(
                sql::IN_CANONICAL_STACKS_BLOCKCHAIN,
                Fetch::One,
                seq![
                    Datum::Bytes(chain_tip.0@),
                    Datum::Int8(block_height.0 as int),
                    Datum::Bytes(block_hash.0@),
                ],
            ),
        ),
        !(in_bigint(block_height.0 as int)) ==> step_view(step) == StepView::<(), Seq<Datum>>::Done(
            Err(StoreError::ConversionDatabaseInt),
        ),
{
    one_row_is_read_by_name::<bool>(
        sql::IN_CANONICAL_STACKS_BLOCKCHAIN,
        seq![
            Datum::Bytes(chain_tip.0@),
            Datum::Int8(block_height.0 as int),
            Datum::Bytes(block_hash.0@),
        ],
        tables,
        database,
    );
}

/// The shares that are given are those that the database knows by the key.
pub proof fn shares_are_read<P>(
    store: PgStore<P>,
    aggregate_key: PublicKeyXOnly,
    step: Step<FetchOptional<EncryptedDkgShares>, Option<EncryptedDkgShares>>,
    tables: Tables,
    database: Database,
)
    requires
        call_ensures(PgStore::<P>::get_encrypted_dkg_shares, (&store, aggregate_key), step),
        serves(database, tables),
    ensures
        reads_optional::<EncryptedDkgShares>(
            run::<FetchOptional<EncryptedDkgShares>>(step_view(step), database),
            tables(
                sql::GET_ENCRYPTED_DKG_SHARES,
                Fetch::Optional,
                seq![
                    Datum::Bytes(aggregate_key.0@),
                ],
            ),
        ),
{
    optional_row_is_read_by_name::<EncryptedDkgShares>(
        sql::GET_ENCRYPTED_DKG_SHARES,
        seq![
            Datum::Bytes(aggregate_key.0@),
        ],
        tables,
        database,
    );
}

/// The latest shares are those that the database gives.
pub proof fn latest_shares_are_read<P>(
    store: PgStore<P>,
    step: Step<FetchOptional<EncryptedDkgShares>, Option<EncryptedDkgShares>>,
    tables: Tables,
    database: Database,
)
    requires
        call_ensures(PgStore::<P>::get_latest_encrypted_dkg_shares, (&store,), step),
        serves(database, tables),
    ensures
        reads_optional::<EncryptedDkgShares>(
            run::<FetchOptional<EncryptedDkgShares>>(step_view(step), database),
            tables(
                sql::GET_LATEST_ENCRYPTED_DKG_SHARES,
                Fetch::Optional,
                Seq::empty(),
            ),
        ),
{
    optional_row_is_read_by_name::<EncryptedDkgShares>(
        sql::GET_LATEST_ENCRYPTED_DKG_SHARES,
        Seq::empty(),
        tables,
        database,
    );
}

/// The latest verified shares are those that the database gives.
pub proof fn latest_verified_shares_are_read<P>(
    store: PgStore<P>,
    step: Step<FetchOptional<EncryptedDkgShares>, Option<EncryptedDkgShares>>,
    tables: Tables,
    database: Database,
)
    requires
        call_ensures(PgStore::<P>::get_latest_verified_dkg_shares, (&store,), step),
        serves(database, tables),
    ensures
        reads_optional::<EncryptedDkgShares>(
            run::<FetchOptional<EncryptedDkgShares>>(step_view(step), database),
            tables(
                sql::GET_LATEST_VERIFIED_DKG_SHARES,
                Fetch::Optional,
                Seq::empty(),
            ),
        ),
{
    optional_row_is_read_by_name::<EncryptedDkgShares>(
        sql::GET_LATEST_VERIFIED_DKG_SHARES,
        Seq::empty(),
        tables,
        database,
    );
}

/// All scripts of the signers are given, as the database has them.
pub proof fn scripts_of_signers_are_read<P>(
    store: PgStore<P>,
    step: Step<FetchAll<Vec<u8>>, Vec<Vec<u8>>>,
    tables: Tables,
    database: Database,
)
    requires
        call_ensures(PgStore::<P>::get_signers_script_pubkeys, (&store,), step),
        serves(database, tables),
    ensures
        reads_all::<Vec<u8>>(
            run::<FetchAll<Vec<u8>>>(step_view(step), database),
            tables(
                sql::GET_SIGNERS_SCRIPT_PUBKEYS,
                Fetch::All,
                Seq::empty(),
            ),
        ),
{
    all_rows_are_read_by_name::<Vec<u8>>(
        sql::GET_SIGNERS_SCRIPT_PUBKEYS,
        Seq::empty(),
        tables,
        database,
    );
}

/// Whether a script is one of the signers is asked for with the script.
pub proof fn script_of_signers_is_told<P>(
    store: PgStore<P>,
    script: ScriptPubKey,
    step: Step<FetchOne<bool>, bool>,
    tables: Tables,
    database: Database,
)
    requires
        call_ensures(PgStore::<P>::is_signer_script_pub_key, (&store, &script), step),
        serves(database, tables),
    ensures
        reads_one::<bool>(
            run::<FetchOne<bool>>(step_view(step), database),
            tables(
                sql::IS_SIGNER_SCRIPT_PUB_KEY,
                Fetch::One,
                seq![
                    Datum::Bytes(script.0@),
                ],
            ),
        ),
{
    one_row_is_read_by_name::<bool>(
        sql::IS_SIGNER_SCRIPT_PUB_KEY,
        seq![
            Datum::Bytes(script.0@),
        ],
        tables,
        database,
    );
}

/// The height of the first sweep is searched for from the tip down to the minimum
/// height.
pub proof fn least_sweep_height_is_read<P>(
    store: PgStore<P>,
    chain_tip: BitcoinBlockHash,
    min_block_height: BitcoinBlockHeight,
    step: Step<FetchOptional<BitcoinBlockHeight>, Option<BitcoinBlockHeight>>,
    tables: Tables,
    database: Database,
)
    requires
        call_ensures(
            PgStore::<P>::get_least_txo_height,
            (&store, &chain_tip, min_block_height),
            step,
        ),
        serves(database, tables),
    ensures
        in_bigint(min_block_height.0 as int) ==> reads_optional::<BitcoinBlockHeight>(
            run::<FetchOptional<BitcoinBlockHeight>>(step_view(step), database),
            tables(
                sql::GET_LEAST_TXO_HEIGHT,
                Fetch::Optional,
                seq![
                    Datum::Bytes(chain_tip.0@),
                    Datum::Int8(min_block_height.0 as int),
                ],
            ),
        ),
        !(in_bigint(min_block_height.0 as int))
            ==> step_view(step) == StepView::<(), Option<Seq<Datum>>>::Done(
            Err(StoreError::ConversionDatabaseInt),
        ),
{
    optional_row_is_read_by_name::<BitcoinBlockHeight>(
        sql::GET_LEAST_TXO_HEIGHT,
        seq![
            Datum::Bytes(chain_tip.0@),
            Datum::Int8(min_block_height.0 as int),
        ],
        tables,
        database,
    );
}

/// The height of the first donation is the one that the database gives.
pub proof fn least_donation_height_is_read<P>(
    store: PgStore<P>,
    step: Step<FetchOptional<BitcoinBlockHeight>, Option<BitcoinBlockHeight>>,
    tables: Tables,
    database: Database,
)
    requires
        call_ensures(PgStore::<P>::minimum_donation_txo_height, (&store,), step),
        serves(database, tables),
    ensures
        reads_optional::<BitcoinBlockHeight>(
            run::<FetchOptional<BitcoinBlockHeight>>(step_view(step), database),
            tables(
                sql::MINIMUM_DONATION_TXO_HEIGHT,
                Fetch::Optional,
                Seq::empty(),
            ),
        ),
{
    optional_row_is_read_by_name::<BitcoinBlockHeight>(
        sql::MINIMUM_DONATION_TXO_HEIGHT,
        Seq::empty(),
        tables,
        database,
    );
}

/// Whether a digest is signed, and with which key, is what the database knows of
/// that digest.
pub proof fn signing_is_read<P>(
    store: PgStore<P>,
    sighash: SigHash,
    step: Step<FetchOptional<(bool, PublicKeyXOnly)>, Option<(bool, PublicKeyXOnly)>>,
    tables: Tables,
    database: Database,
)
    requires
        call_ensures(PgStore::<P>::will_sign_bitcoin_tx_sighash, (&store, &sighash), step),
        serves(database, tables),
    ensures
        reads_optional::<(bool, PublicKeyXOnly)>(
            run::<FetchOptional<(bool, PublicKeyXOnly)>>(step_view(step), database),
            tables(
                sql::WILL_SIGN_BITCOIN_TX_SIGHASH,
                Fetch::Optional,
                seq![
                    Datum::Bytes(sighash.0@),
                ],
            ),
        ),
{
    optional_row_is_read_by_name::<(bool, PublicKeyXOnly)>(
        sql::WILL_SIGN_BITCOIN_TX_SIGHASH,
        seq![
            Datum::Bytes(sighash.0@),
        ],
        tables,
        database,
    );
}

/// The deposit request that is given is the one that the database knows by the
/// output.
pub proof fn deposit_request_is_read<P>(
    store: PgStore<P>,
    txid: BitcoinTxId,
    output_index: u32,
    step: Step<FetchOptional<DepositRequest>, Option<DepositRequest>>,
    tables: Tables,
    database: Database,
)
    requires
        call_ensures(PgStore::<P>::get_deposit_request, (&store, &txid, output_index), step),
        serves(database, tables),
    ensures
        in_integer(output_index as int) ==> reads_optional::<DepositRequest>(
            run::<FetchOptional<DepositRequest>>(step_view(step), database),
            tables(
                sql::GET_DEPOSIT_REQUEST,
                Fetch::Optional,
                seq![
                    Datum::Bytes(txid.0@),
                    Datum::Int4(output_index as int),
                ],
            ),
        ),
        !(in_integer(output_index as int))
            ==> step_view(step) == StepView::<(), Option<Seq<Datum>>>::Done(
            Err(StoreError::ConversionDatabaseInt),
        ),
{
    optional_row_is_read_by_name::<DepositRequest>(
        sql::GET_DEPOSIT_REQUEST,
        seq![
            Datum::Bytes(txid.0@),
            Datum::Int4(output_index as int),
        ],
        tables,
        database,
    );
}

/// The least height of a deposit is that of the given output.
pub proof fn least_deposit_height_is_read<P>(
    store: PgStore<P>,
    txid: BitcoinTxId,
    output_index: u32,
    step: Step<FetchOptional<BitcoinBlockHeight>, Option<BitcoinBlockHeight>>,
    tables: Tables,
    database: Database,
)
    requires
        call_ensures(
            PgStore::<P>::get_deposit_request_least_height,
            (&store, &txid, output_index),
            step,
        ),
        serves(database, tables),
    ensures
        in_integer(output_index as int) ==> reads_optional::<BitcoinBlockHeight>(
            run::<FetchOptional<BitcoinBlockHeight>>(step_view(step), database),
            tables(
                sql::GET_DEPOSIT_REQUEST_LEAST_HEIGHT,
                Fetch::Optional,
                seq![
                    Datum::Bytes(txid.0@),
                    Datum::Int4(output_index as int),
                ],
            ),
        ),
        !(in_integer(output_index as int))
            ==> step_view(step) == StepView::<(), Option<Seq<Datum>>>::Done(
            Err(StoreError::ConversionDatabaseInt),
        ),
{
    optional_row_is_read_by_name::<BitcoinBlockHeight>(
        sql::GET_DEPOSIT_REQUEST_LEAST_HEIGHT,
        seq![
            Datum::Bytes(txid.0@),
            Datum::Int4(output_index as int),
        ],
        tables,
        database,
    );
}

/// The sweep of a deposit is searched for from the tip down to the minimum height,
/// by the output.
pub proof fn sweep_of_deposit_is_read<P>(
    store: PgStore<P>,
    chain_tip: BitcoinBlockHash,
    txid: BitcoinTxId,
    output_index: u32,
    min_block_height: BitcoinBlockHeight,
    step: Step<FetchOptional<BitcoinTxId>, Option<BitcoinTxId>>,
    tables: Tables,
    database: Database,
)
    requires
        call_ensures(
            PgStore::<P>::get_deposit_sweep_txid,
            (&store, &chain_tip, &txid, output_index, min_block_height),
            step,
        ),
        serves(database, tables),
    ensures
        in_bigint(min_block_height.0 as int) && in_integer(output_index as int)
            ==> reads_optional::<BitcoinTxId>(
            run::<FetchOptional<BitcoinTxId>>(step_view(step), database),
            tables(
                sql::GET_DEPOSIT_SWEEP_TXID,
                Fetch::Optional,
                seq![
                    Datum::Bytes(chain_tip.0@),
                    Datum::Int8(min_block_height.0 as int),
                    Datum::Bytes(txid.0@),
                    Datum::Int4(output_index as int),
                ],
            ),
        ),
        !(in_bigint(min_block_height.0 as int) && in_integer(output_index as int))
            ==> step_view(step) == StepView::<(), Option<Seq<Datum>>>::Done(
            Err(StoreError::ConversionDatabaseInt),
        ),
{
    optional_row_is_read_by_name::<BitcoinTxId>(
        sql::GET_DEPOSIT_SWEEP_TXID,
        seq![
            Datum::Bytes(chain_tip.0@),
            Datum::Int8(min_block_height.0 as int),
            Datum::Bytes(txid.0@),
            Datum::Int4(output_index as int),
        ],
        tables,
        database,
    );
}

/// The pending deposit requests are all those that the database gives for the tip,
/// the window and the signer.
pub proof fn pending_deposits_are_read<P>(
    store: PgStore<P>,
    chain_tip: BitcoinBlockHash,
    context_window: u16,
    signer_public_key: PublicKey,
    step: Step<FetchAll<DepositRequest>, Vec<DepositRequest>>,
    tables: Tables,
    database: Database,
)
    requires
        call_ensures(
            PgStore::<P>::get_pending_deposit_requests,
            (&store, &chain_tip, context_window, &signer_public_key),
            step,
        ),
        serves(database, tables),
    ensures
        reads_all::<DepositRequest>(
            run::<FetchAll<DepositRequest>>(step_view(step), database),
            tables(
                sql::GET_PENDING_DEPOSIT_REQUESTS,
                Fetch::All,
                seq![
                    Datum::Bytes(chain_tip.0@),
                    Datum::Int4(context_window as int),
                    Datum::Bytes(signer_public_key.0@),
                ],
            ),
        ),
{
    all_rows_are_read_by_name::<DepositRequest>(
        sql::GET_PENDING_DEPOSIT_REQUESTS,
        seq![
            Datum::Bytes(chain_tip.0@),
            Datum::Int4(context_window as int),
            Datum::Bytes(signer_public_key.0@),
        ],
        tables,
        database,
    );
}

/// The decisions on a deposit request are all those that the database gives for
/// the output.
pub proof fn deposit_decisions_are_read<P>(
    store: PgStore<P>,
    txid: BitcoinTxId,
    output_index: u32,
    step: Step<FetchAll<DepositSigner>, Vec<DepositSigner>>,
    tables: Tables,
    database: Database,
)
    requires
        call_ensures(PgStore::<P>::get_deposit_signers, (&store, &txid, output_index), step),
        serves(database, tables),
    ensures
        in_integer(output_index as int) ==> reads_all::<DepositSigner>(
            run::<FetchAll<DepositSigner>>(step_view(step), database),
            tables(
                sql::GET_DEPOSIT_SIGNERS,
                Fetch::All,
                seq![
                    Datum::Bytes(txid.0@),
                    Datum::Int4(output_index as int),
                ],
            ),
        ),
        !(in_integer(output_index as int))
            ==> step_view(step) == StepView::<(), Seq<Seq<Datum>>>::Done(
            Err(StoreError::ConversionDatabaseInt),
        ),
{
    all_rows_are_read_by_name::<DepositSigner>(
        sql::GET_DEPOSIT_SIGNERS,
        seq![
            Datum::Bytes(txid.0@),
            Datum::Int4(output_index as int),
        ],
        tables,
        database,
    );
}

/// Whether a signer can sign for a deposit is asked for with the output and the
/// key of the signer.
pub proof fn signing_of_deposit_is_told<P>(
    store: PgStore<P>,
    txid: BitcoinTxId,
    output_index: u32,
    signer_public_key: PublicKey,
    step: Step<FetchOptional<bool>, Option<bool>>,
    tables: Tables,
    database: Database,
)
    requires
        call_ensures(
            PgStore::<P>::can_sign_deposit_tx,
            (&store, &txid, output_index, &signer_public_key),
            step,
        ),
        serves(database, tables),
    ensures
        in_integer(output_index as int) ==> reads_optional::<bool>(
            run::<FetchOptional<bool>>(step_view(step), database),
            tables(
                sql::CAN_SIGN_DEPOSIT_TX,
                Fetch::Optional,
                seq![
                    Datum::Bytes(txid.0@),
                    Datum::Int4(output_index as int),
                    Datum::Bytes(signer_public_key.0@),
                ],
            ),
        ),
        !(in_integer(output_index as int))
            ==> step_view(step) == StepView::<(), Option<Seq<Datum>>>::Done(
            Err(StoreError::ConversionDatabaseInt),
        ),
{
    optional_row_is_read_by_name::<bool>(
        sql::CAN_SIGN_DEPOSIT_TX,
        seq![
            Datum::Bytes(txid.0@),
            Datum::Int4(output_index as int),
            Datum::Bytes(signer_public_key.0@),
        ],
        tables,
        database,
    );
}

/// Whether there is a record of a deposit request is asked for with the output.
pub proof fn deposit_request_is_known<P>(
    store: PgStore<P>,
    txid: BitcoinTxId,
    output_index: u32,
    step: Step<FetchOne<bool>, bool>,
    tables: Tables,
    database: Database,
)
    requires
        call_ensures(PgStore::<P>::deposit_request_exists, (&store, &txid, output_index), step),
        serves(database, tables),
    ensures
        in_integer(output_index as int) ==> reads_one::<bool>(
            run::<FetchOne<bool>>(step_view(step), database),
            tables(
                sql::DEPOSIT_REQUEST_EXISTS,
                Fetch::One,
                seq![
                    Datum::Bytes(txid.0@),
                    Datum::Int4(output_index as int),
                ],
            ),
        ),
        !(in_integer(output_index as int)) ==> step_view(step) == StepView::<(), Seq<Datum>>::Done(
            Err(StoreError::ConversionDatabaseInt),
        ),
{
    one_row_is_read_by_name::<bool>(
        sql::DEPOSIT_REQUEST_EXISTS,
        seq![
            Datum::Bytes(txid.0@),
            Datum::Int4(output_index as int),
        ],
        tables,
        database,
    );
}

/// A signer's decisions on deposit requests are all those that the database gives
/// for the tip, the window and the signer.
pub proof fn deposit_decisions_of_signer_are_read<P>(
    store: PgStore<P>,
    chain_tip: BitcoinBlockHash,
    context_window: u16,
    signer_public_key: PublicKey,
    step: Step<FetchAll<DepositSigner>, Vec<DepositSigner>>,
    tables: Tables,
    database: Database,
)
    requires
        call_ensures(
            PgStore::<P>::get_deposit_signer_decisions,
            (&store, &chain_tip, context_window, &signer_public_key),
            step,
        ),
        serves(database, tables),
    ensures
        reads_all::<DepositSigner>(
            run::<FetchAll<DepositSigner>>(step_view(step), database),
            tables(
                sql::GET_DEPOSIT_SIGNER_DECISIONS,
                Fetch::All,
                seq![
                    Datum::Bytes(chain_tip.0@),
                    Datum::Int4(context_window as int),
                    Datum::Bytes(signer_public_key.0@),
                ],
            ),
        ),
{
    all_rows_are_read_by_name::<DepositSigner>(
        sql::GET_DEPOSIT_SIGNER_DECISIONS,
        seq![
            Datum::Bytes(chain_tip.0@),
            Datum::Int4(context_window as int),
            Datum::Bytes(signer_public_key.0@),
        ],
        tables,
        database,
    );
}

/// The summary of a withdrawal request is the one that the database gives for the
/// request and the signer.
pub proof fn withdrawal_summary_is_read<P>(
    store: PgStore<P>,
    id: QualifiedRequestId,
    signer_public_key: PublicKey,
    step: Step<FetchOptional<WithdrawalStatusSummary>, Option<WithdrawalStatusSummary>>,
    tables: Tables,
    database: Database,
)
    requires
        call_ensures(
            PgStore::<P>::get_withdrawal_request_status_summary,
            (&store, &id, &signer_public_key),
            step,
        ),
        serves(database, tables),
    ensures
        in_bigint(id.request_id as int) ==> reads_optional::<WithdrawalStatusSummary>(
            run::<FetchOptional<WithdrawalStatusSummary>>(step_view(step), database),
            tables(
                sql::GET_WITHDRAWAL_REQUEST_STATUS_SUMMARY,
                Fetch::Optional,
                seq![
                    Datum::Bytes(signer_public_key.0@),
                    Datum::Int8(id.request_id as int),
                    Datum::Bytes(id.block_hash.0@),
                ],
            ),
        ),
        !(in_bigint(id.request_id as int))
            ==> step_view(step) == StepView::<(), Option<Seq<Datum>>>::Done(
            Err(StoreError::ConversionDatabaseInt),
        ),
{
    optional_row_is_read_by_name::<WithdrawalStatusSummary>(
        sql::GET_WITHDRAWAL_REQUEST_STATUS_SUMMARY,
        seq![
            Datum::Bytes(signer_public_key.0@),
            Datum::Int8(id.request_id as int),
            Datum::Bytes(id.block_hash.0@),
        ],
        tables,
        database,
    );
}

/// The payment of a withdrawal request is searched for from the tip, by the
/// request.
pub proof fn payment_of_withdrawal_is_read<P>(
    store: PgStore<P>,
    chain_tip: BitcoinBlockHash,
    id: QualifiedRequestId,
    step: Step<FetchOptional<BitcoinTxRef>, Option<BitcoinTxRef>>,
    tables: Tables,
    database: Database,
)
    requires
        call_ensures(PgStore::<P>::get_withdrawal_sweep_info, (&store, &chain_tip, &id), step),
        serves(database, tables),
    ensures
        in_bigint(id.request_id as int) ==> reads_optional::<BitcoinTxRef>(
            run::<FetchOptional<BitcoinTxRef>>(step_view(step), database),
            tables(
                sql::GET_WITHDRAWAL_SWEEP_INFO,
                Fetch::Optional,
                seq![
                    Datum::Bytes(chain_tip.0@),
                    Datum::Int8(id.request_id as int),
                    Datum::Bytes(id.block_hash.0@),
                ],
            ),
        ),
        !(in_bigint(id.request_id as int))
            ==> step_view(step) == StepView::<(), Option<Seq<Datum>>>::Done(
            Err(StoreError::ConversionDatabaseInt),
        ),
{
    optional_row_is_read_by_name::<BitcoinTxRef>(
        sql::GET_WITHDRAWAL_SWEEP_INFO,
        seq![
            Datum::Bytes(chain_tip.0@),
            Datum::Int8(id.request_id as int),
            Datum::Bytes(id.block_hash.0@),
        ],
        tables,
        database,
    );
}

/// The decisions on a withdrawal request are all those that the database gives for
/// the request.
pub proof fn withdrawal_decisions_are_read<P>(
    store: PgStore<P>,
    request_id: u64,
    block_hash: StacksBlockHash,
    step: Step<FetchAll<WithdrawalSigner>, Vec<WithdrawalSigner>>,
    tables: Tables,
    database: Database,
)
    requires
        call_ensures(PgStore::<P>::get_withdrawal_signers, (&store, request_id, &block_hash), step),
        serves(database, tables),
    ensures
        in_bigint(request_id as int) ==> reads_all::<WithdrawalSigner>(
            run::<FetchAll<WithdrawalSigner>>(step_view(step), database),
            tables(
                sql::GET_WITHDRAWAL_SIGNERS,
                Fetch::All,
                seq![
                    Datum::Int8(request_id as int),
                    Datum::Bytes(block_hash.0@),
                ],
            ),
        ),
        !(in_bigint(request_id as int))
            ==> step_view(step) == StepView::<(), Seq<Seq<Datum>>>::Done(
            Err(StoreError::ConversionDatabaseInt),
        ),
{
    all_rows_are_read_by_name::<WithdrawalSigner>(
        sql::GET_WITHDRAWAL_SIGNERS,
        seq![
            Datum::Int8(request_id as int),
            Datum::Bytes(block_hash.0@),
        ],
        tables,
        database,
    );
}

/// The accepted withdrawal requests are all those that the database gives for the
/// tip of the bitcoin blockchain, the tip of the stacks blockchain, the minimum
/// height and the threshold, in that order.
pub proof fn accepted_withdrawals_are_read<P>(
    store: PgStore<P>,
    bitcoin_chain_tip: BitcoinBlockHash,
    stacks_chain_tip: StacksBlockHash,
    min_bitcoin_height: BitcoinBlockHeight,
    signature_threshold: u16,
    step: Step<FetchAll<WithdrawalRequest>, Vec<WithdrawalRequest>>,
    tables: Tables,
    database: Database,
)
    requires
        call_ensures(
            PgStore::<P>::get_pending_accepted_withdrawal_requests,
            (&store, &bitcoin_chain_tip, &stacks_chain_tip, min_bitcoin_height, signature_threshold),
            step,
        ),
        serves(database, tables),
    ensures
        in_bigint(min_bitcoin_height.0 as int) ==> reads_all::<WithdrawalRequest>(
            run::<FetchAll<WithdrawalRequest>>(step_view(step), database),
            tables(
                sql::GET_PENDING_ACCEPTED_WITHDRAWAL_REQUESTS,
                Fetch::All,
                seq![
                    Datum::Bytes(bitcoin_chain_tip.0@),
                    Datum::Bytes(stacks_chain_tip.0@),
                    Datum::Int8(min_bitcoin_height.0 as int),
                    Datum::Int8(signature_threshold as int),
                ],
            ),
        ),
        !(in_bigint(min_bitcoin_height.0 as int))
            ==> step_view(step) == StepView::<(), Seq<Seq<Datum>>>::Done(
            Err(StoreError::ConversionDatabaseInt),
        ),
{
    all_rows_are_read_by_name::<WithdrawalRequest>(
        sql::GET_PENDING_ACCEPTED_WITHDRAWAL_REQUESTS,
        seq![
            Datum::Bytes(bitcoin_chain_tip.0@),
            Datum::Bytes(stacks_chain_tip.0@),
            Datum::Int8(min_bitcoin_height.0 as int),
            Datum::Int8(signature_threshold as int),
        ],
        tables,
        database,
    );
}

/// A signer's decisions on withdrawal requests are all those that the database
/// gives for the tip, the window and the signer.
pub proof fn withdrawal_decisions_of_signer_are_read<P>(
    store: PgStore<P>,
    chain_tip: BitcoinBlockHash,
    context_window: u16,
    signer_public_key: PublicKey,
    step: Step<FetchAll<WithdrawalSigner>, Vec<WithdrawalSigner>>,
    tables: Tables,
    database: Database,
)
    requires
        call_ensures(
            PgStore::<P>::get_withdrawal_signer_decisions,
            (&store, &chain_tip, context_window, &signer_public_key),
            step,
        ),
        serves(database, tables),
    ensures
        reads_all::<WithdrawalSigner>(
            run::<FetchAll<WithdrawalSigner>>(step_view(step), database),
            tables(
                sql::GET_WITHDRAWAL_SIGNER_DECISIONS,
                Fetch::All,
                seq![
                    Datum::Bytes(chain_tip.0@),
                    Datum::Int4(context_window as int),
                    Datum::Bytes(signer_public_key.0@),
                ],
            ),
        ),
{
    all_rows_are_read_by_name::<WithdrawalSigner>(
        sql::GET_WITHDRAWAL_SIGNER_DECISIONS,
        seq![
            Datum::Bytes(chain_tip.0@),
            Datum::Int4(context_window as int),
            Datum::Bytes(signer_public_key.0@),
        ],
        tables,
        database,
    );
}

/// The hash of the chain tip is that of the block that the database gives.
pub proof fn chain_tip_is_read<P>(
    store: PgStore<P>,
    step: Step<Converting<BlockHashOf>, Option<BitcoinBlockHash>>,
    block: Option<BitcoinBlock>,
    got: Option<BitcoinBlockHash>,
    tables: Tables,
    database: Database,
)
    requires
        call_ensures(PgStore::<P>::get_bitcoin_canonical_chain_tip, (&store,), step),
        serves(database, tables),
        found::<BitcoinBlock>(
            tables(sql::GET_BITCOIN_CANONICAL_CHAIN_TIP, Fetch::Optional, Seq::empty()),
            block,
        ),
    ensures
        run::<Converting<BlockHashOf>>(step_view(step), database) is Ok,
        run::<Converting<BlockHashOf>>(step_view(step), database) == Ok::<_, StoreError>(
            Converting::<BlockHashOf>::output(got),
        ) ==> match got {
            Some(hash) => block matches Some(block) && hash.0@ == block.block_hash.0@,
            None => block is None,
        },
{
    let sql = sql::GET_BITCOIN_CANONICAL_CHAIN_TIP;
    found_data_is_given::<BitcoinBlock>(sql, Seq::empty(), block, tables, database);
    run_converting::<BlockHashOf>(
        ask_optional::<BitcoinBlock>(sql, Seq::empty()),
        (),
        database,
    );
    assert(FetchOptional::<BitcoinBlock>::output(block) == row_view(block));
}

/// The blocks with a transaction are those that the database gives for the
/// transaction, all of them and in order.
pub proof fn blocks_with_transaction_are_read<P>(
    store: PgStore<P>,
    txid: BitcoinTxId,
    step: Step<Converting<BlockHashesOf>, Vec<BitcoinBlockHash>>,
    txs: Vec<BitcoinTxRef>,
    got: Vec<BitcoinBlockHash>,
    tables: Tables,
    database: Database,
)
    requires
        call_ensures(
            PgStore::<P>::get_bitcoin_blocks_with_transaction,
            (&store, &txid),
            step,
        ),
        serves(database, tables),
        tables(
            sql::GET_BITCOIN_BLOCKS_WITH_TRANSACTION,
            Fetch::All,
            seq![Datum::Bytes(txid.0@)],
        ) matches Ok(records) && all_tell(records, txs@),
    ensures
        run::<Converting<BlockHashesOf>>(step_view(step), database) is Ok,
        run::<Converting<BlockHashesOf>>(step_view(step), database) == Ok::<_, StoreError>(
            Converting::<BlockHashesOf>::output(got),
        ) ==> got@.len() == txs@.len() && forall|i: int|
            0 <= i < got@.len() ==> (#[trigger] got@[i]).0@ == txs@[i].block_hash.0@,
{
    let sql = sql::GET_BITCOIN_BLOCKS_WITH_TRANSACTION;
    let params = seq![Datum::Bytes(txid.0@)];
    told_list_is_given::<BitcoinTxRef>(sql, params, txs, tables, database);
    run_converting::<BlockHashesOf>(ask_all::<BitcoinTxRef>(sql, params), (), database);
    let hashes = rows_view(txs@).map_values(|row: Seq<Datum>| as_bytes(row[1]));
    assert(FetchAll::<BitcoinTxRef>::output(txs) == rows_view(txs@));
    if run::<Converting<BlockHashesOf>>(step_view(step), database) == Ok::<_, StoreError>(
        Converting::<BlockHashesOf>::output(got),
    ) {
        assert(block_hash_bytes(got@) == hashes);
        assert(block_hash_bytes(got@).len() == got@.len());
        assert forall|i: int| 0 <= i < got@.len() implies (#[trigger] got@[i]).0@
            == txs@[i].block_hash.0@ by {
            assert(block_hash_bytes(got@)[i] == got@[i].0@);
            assert(hashes[i] == as_bytes(txs@[i].row()[1]));
        }
    }
}

/// A stacks block is known exactly where the database gives a row for it.
pub proof fn known_stacks_block_is_told<P>(
    store: PgStore<P>,
    block_id: StacksBlockId,
    step: Step<Converting<IsSome>, bool>,
    row: Option<bool>,
    got: bool,
    tables: Tables,
    database: Database,
)
    requires
        call_ensures(PgStore::<P>::stacks_block_exists, (&store, block_id), step),
        serves(database, tables),
        found::<bool>(
            tables(sql::STACKS_BLOCK_EXISTS, Fetch::Optional, seq![Datum::Bytes(block_id.0@)]),
            row,
        ),
    ensures
        run::<Converting<IsSome>>(step_view(step), database) is Ok,
        run::<Converting<IsSome>>(step_view(step), database) == Ok::<_, StoreError>(
            Converting::<IsSome>::output(got),
        ) ==> got == (row is Some),
{
    let sql = sql::STACKS_BLOCK_EXISTS;
    let params = seq![Datum::Bytes(block_id.0@)];
    found_data_is_given::<bool>(sql, params, row, tables, database);
    run_converting::<IsSome>(ask_optional::<bool>(sql, params), (), database);
    assert(FetchOptional::<bool>::output(row) == row_view(row));
}

/// The number of shares is the count that the database gives, and is refused
/// where it is negative or does not fit.
pub proof fn shares_are_counted<P>(
    store: PgStore<P>,
    step: Step<Converting<CountOf>, u32>,
    count: i64,
    got: u32,
    tables: Tables,
    database: Database,
)
    requires
        call_ensures(PgStore::<P>::get_encrypted_dkg_shares_count, (&store,), step),
        serves(database, tables),
        found::<i64>(
            tables(sql::GET_ENCRYPTED_DKG_SHARES_COUNT, Fetch::One, Seq::empty()),
            Some(count),
        ),
    ensures
        (0 <= count < 0x1_0000_0000) == (run::<Converting<CountOf>>(
            step_view(step),
            database,
        ) is Ok),
        run::<Converting<CountOf>>(step_view(step), database) == Ok::<_, StoreError>(
            Converting::<CountOf>::output(got),
        ) ==> got == count,
        run::<Converting<CountOf>>(step_view(step), database) matches Err(error) ==> error
            == StoreError::ConversionDatabaseInt,
{
    let sql = sql::GET_ENCRYPTED_DKG_SHARES_COUNT;
    known_data_is_given::<i64>(sql, Seq::empty(), count, tables, database);
    run_converting::<CountOf>(ask_one::<i64>(sql, Seq::empty()), (), database);
    assert(FetchOne::<i64>::output(count) == count.row());
}

/// The sum of the withdrawals is the one that the database gives for the tip and
/// the window, nothing where there is none, and refused where it is negative.
pub proof fn withdrawals_are_added_up<P>(
    store: PgStore<P>,
    bitcoin_chain_tip: BitcoinBlockHash,
    context_window: u16,
    step: Step<Converting<TotalOf>, u64>,
    total: Option<i64>,
    got: u64,
    tables: Tables,
    database: Database,
)
    requires
        call_ensures(
            PgStore::<P>::compute_withdrawn_total,
            (&store, &bitcoin_chain_tip, context_window),
            step,
        ),
        serves(database, tables),
        found::<Option<i64>>(
            tables(
                sql::COMPUTE_WITHDRAWN_TOTAL,
                Fetch::One,
                seq![Datum::Bytes(bitcoin_chain_tip.0@), Datum::Int4(context_window as int)],
            ),
            Some(total),
        ),
    ensures
        (total matches Some(number) ==> number >= 0) == (run::<Converting<TotalOf>>(
            step_view(step),
            database,
        ) is Ok),
        run::<Converting<TotalOf>>(step_view(step), database) == Ok::<_, StoreError>(
            Converting::<TotalOf>::output(got),
        ) ==> match total {
            Some(number) => got == number,
            None => got == 0,
        },
        run::<Converting<TotalOf>>(step_view(step), database) matches Err(error) ==> error
            == StoreError::TypeConversion,
{
    let sql = sql::COMPUTE_WITHDRAWN_TOTAL;
    let params = seq![Datum::Bytes(bitcoin_chain_tip.0@), Datum::Int4(context_window as int)];
    known_data_is_given::<Option<i64>>(sql, params, total, tables, database);
    run_converting::<TotalOf>(ask_one::<Option<i64>>(sql, params), (), database);
    assert(FetchOne::<Option<i64>>::output(total) == total.row());
}

/// The votes on a deposit request are all those that the database gives for the
/// key and the output, in order.
pub proof fn deposit_votes_are_read<P>(
    store: PgStore<P>,
    txid: BitcoinTxId,
    output_index: u32,
    aggregate_key: PublicKey,
    step: Step<Converting<VotesOf>, SignerVotes>,
    votes: Vec<SignerVote>,
    got: SignerVotes,
    tables: Tables,
    database: Database,
)
    requires
        call_ensures(
            PgStore::<P>::get_deposit_request_signer_votes,
            (&store, &txid, output_index, &aggregate_key),
            step,
        ),
        serves(database, tables),
        tables(
            sql::GET_DEPOSIT_REQUEST_SIGNER_VOTES,
            Fetch::All,
            seq![
                Datum::Bytes(aggregate_key.0@),
                Datum::Bytes(txid.0@),
                Datum::Int8(output_index as int),
            ],
        ) matches Ok(records) && all_tell(records, votes@),
    ensures
        run::<Converting<VotesOf>>(step_view(step), database) is Ok,
        run::<Converting<VotesOf>>(step_view(step), database) == Ok::<_, StoreError>(
            Converting::<VotesOf>::output(got),
        ) ==> same_votes(got.0@, votes@),
{
    let sql = sql::GET_DEPOSIT_REQUEST_SIGNER_VOTES;
    let params = seq![
        Datum::Bytes(aggregate_key.0@),
        Datum::Bytes(txid.0@),
        Datum::Int8(output_index as int),
    ];
    told_list_is_given::<SignerVote>(sql, params, votes, tables, database);
    run_converting::<VotesOf>(ask_all::<SignerVote>(sql, params), (), database);
    assert(FetchAll::<SignerVote>::output(votes) == rows_view(votes@));
    if run::<Converting<VotesOf>>(step_view(step), database) == Ok::<_, StoreError>(
        Converting::<VotesOf>::output(got),
    ) {
        equal_rows_are_same_votes(got.0@, votes@);
    }
}

/// The votes on a withdrawal request are all those that the database gives for
/// the key and the request, in order.
pub proof fn withdrawal_votes_are_read<P>(
    store: PgStore<P>,
    id: QualifiedRequestId,
    aggregate_key: PublicKey,
    step: Step<Converting<VotesOf>, SignerVotes>,
    votes: Vec<SignerVote>,
    got: SignerVotes,
    tables: Tables,
    database: Database,
)
    requires
        call_ensures(
            PgStore::<P>::get_withdrawal_request_signer_votes,
            (&store, &id, &aggregate_key),
            step,
        ),
        serves(database, tables),
        tables(
            sql::GET_WITHDRAWAL_REQUEST_SIGNER_VOTES,
            Fetch::All,
            seq![
                Datum::Bytes(aggregate_key.0@),
                Datum::Bytes(id.txid.0@),
                Datum::Bytes(id.block_hash.0@),
                Datum::Int8(id.request_id as int),
            ],
        ) matches Ok(records) && all_tell(records, votes@),
    ensures
        in_bigint(id.request_id as int) == (run::<Converting<VotesOf>>(
            step_view(step),
            database,
        ) is Ok),
        run::<Converting<VotesOf>>(step_view(step), database) == Ok::<_, StoreError>(
            Converting::<VotesOf>::output(got),
        ) ==> same_votes(got.0@, votes@),
        run::<Converting<VotesOf>>(step_view(step), database) matches Err(error) ==> error
            == StoreError::ConversionDatabaseInt,
{
    let sql = sql::GET_WITHDRAWAL_REQUEST_SIGNER_VOTES;
    let params = seq![
        Datum::Bytes(aggregate_key.0@),
        Datum::Bytes(id.txid.0@),
        Datum::Bytes(id.block_hash.0@),
        Datum::Int8(id.request_id as int),
    ];
    told_list_is_given::<SignerVote>(sql, params, votes, tables, database);
    run_converting::<VotesOf>(ask_all::<SignerVote>(sql, params), (), database);
    assert(FetchAll::<SignerVote>::output(votes) == rows_view(votes@));
    if in_bigint(id.request_id as int) && run::<Converting<VotesOf>>(step_view(step), database)
        == Ok::<_, StoreError>(Converting::<VotesOf>::output(got)) {
        equal_rows_are_same_votes(got.0@, votes@);
    }
}

/// Whether two lists have the same votes of the same signers, in the same order.
pub open spec fn same_votes(a: Seq<SignerVote>, b: Seq<SignerVote>) -> bool {
    &&& a.len() == b.len()
    &&& forall|i: int|
        0 <= i < a.len() ==> (#[trigger] a[i]).signer_public_key.0@ == b[i].signer_public_key.0@
            && a[i].is_accepted == b[i].is_accepted
}

/// Lists of votes with the same rows have the same votes.
proof fn equal_rows_are_same_votes(a: Seq<SignerVote>, b: Seq<SignerVote>)
    requires
        rows_view(a) == rows_view(b),
    ensures
        same_votes(a, b),
{
    assert(rows_view(a).len() == a.len());
    assert(rows_view(b).len() == b.len());
    assert forall|i: int| 0 <= i < a.len() implies (#[trigger] a[i]).signer_public_key.0@
        == b[i].signer_public_key.0@ && a[i].is_accepted == b[i].is_accepted by {
        assert(rows_view(a)[i] == a[i].row());
        assert(rows_view(b)[i] == b[i].row());
        assert(a[i].row()[0] == b[i].row()[0]);
        assert(a[i].row()[1] == b[i].row()[1]);
    }
}

/// Shares are revoked by their key, and it is told whether any were.
pub proof fn revoking_is_told<P>(
    store: PgStore<P>,
    aggregate_key: PublicKeyXOnly,
    step: Step<ExecuteAny, bool>,
    got: bool,
    database: Database,
)
    requires
        call_ensures(PgStore::<P>::revoke_dkg_shares, (&store, aggregate_key), step),
    ensures
        tells_of_change(
            run::<ExecuteAny>(step_view(step), database),
            got,
            database(key_command(sql::REVOKE_DKG_SHARES, aggregate_key.0@)),
        ),
{
    reveal_with_fuel(run, 2);
}

/// Shares are verified by their key, and it is told whether any were.
pub proof fn verifying_is_told<P>(
    store: PgStore<P>,
    aggregate_key: PublicKeyXOnly,
    step: Step<ExecuteAny, bool>,
    got: bool,
    database: Database,
)
    requires
        call_ensures(PgStore::<P>::verify_dkg_shares, (&store, aggregate_key), step),
    ensures
        tells_of_change(
            run::<ExecuteAny>(step_view(step), database),
            got,
            database(key_command(sql::VERIFY_DKG_SHARES, aggregate_key.0@)),
        ),
{
    reveal_with_fuel(run, 2);
}

/// The statement that takes effect on what has a key.
pub open spec fn key_command(sql: &'static str, key: Seq<u8>) -> ActionView {
    ActionView::Run(
        StatementView {
            sql,
            fetch: Fetch::Nothing,
            columns: Seq::empty(),
            params: seq![Datum::Bytes(key)],
        },
    )
}

/// Whether the given result tells of a change exactly where the database changed
/// a row.
pub open spec fn tells_of_change(
    given: Result<bool, StoreError>,
    got: bool,
    answer: ResponseView,
) -> bool {
    match answer {
        Ok(reply) => {
            &&& given is Ok
            &&& given == Ok::<_, StoreError>(ExecuteAny::output(got)) ==> got == (
            reply.rows_affected != 0)
        },
        Err(error) => given == Err::<bool, _>(StoreError::SqlxQuery(DbError::Sqlx(error))),
    }
}

} // verus!
