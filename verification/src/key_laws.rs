//! What the operations on key rotations give, by the rows that the database has.

use crate::by_name::{
    found, found_data_is_given, block_hash, one_row_is_read_by_name, optional_row_is_read_by_name,
    reads_one, reads_optional, serves, Tables,
};
use crate::compose::Then;
use crate::error::StoreError;
use crate::fetch::{row_view, FetchOptional};
use crate::keys::{Rotation, RotationFrom, RotationView};
use crate::laws::{with_stacks_chain_tip, without_stacks_chain_tip};
use crate::model::{BitcoinBlockHash, KeyRotationEvent, PublicKey, StacksBlock};
use crate::procedure::{run, step_view, Database, Operation, Step};
use crate::row::FromRow;
use crate::signer_set::SignerSet;
use crate::sql;
use crate::store::PgStore;
use crate::value::{Datum, Fetch};
use vstd::prelude::*;

verus! {

/// The last key rotation is the one that the database gives for the stacks chain
/// tip; there is none where no stacks block is anchored to the blockchain.
pub proof fn last_key_rotation_is_read<P>(
    store: PgStore<P>,
    chain_tip: BitcoinBlockHash,
    step: Step<Then<RotationFrom>, Option<KeyRotationEvent>>,
    stacks_tip: Option<StacksBlock>,
    got: Option<KeyRotationEvent>,
    tables: Tables,
    database: Database,
)
    requires
        call_ensures(PgStore::<P>::get_last_key_rotation, (&store, &chain_tip), step),
        serves(database, tables),
        found::<StacksBlock>(
            tables(
                sql::GET_STACKS_CHAIN_TIP,
                Fetch::Optional,
                seq![Datum::Bytes(chain_tip.0@)],
            ),
            stacks_tip,
        ),
    ensures
        match stacks_tip {
            Some(stacks_tip) => reads_optional::<KeyRotationEvent>(
                run::<Then<RotationFrom>>(step_view(step), database),
                tables(
                    sql::GET_LAST_KEY_ROTATION,
                    Fetch::Optional,
                    seq![
                        Datum::Bytes(stacks_tip.block_hash.0@),
                    ],
                ),
            ),
            None => {
                &&& run::<Then<RotationFrom>>(step_view(step), database) is Ok
                &&& run::<Then<RotationFrom>>(step_view(step), database) == Ok::<_, StoreError>(
                    Then::<RotationFrom>::output(got),
                ) ==> got is None
            },
        },
{
    found_data_is_given::<StacksBlock>(
        sql::GET_STACKS_CHAIN_TIP,
        seq![Datum::Bytes(chain_tip.0@)],
        stacks_tip,
        tables,
        database,
    );
    assert(FetchOptional::<StacksBlock>::output(stacks_tip) == row_view(stacks_tip));
    let key = Seq::<u8>::empty();
    let rotation = RotationView {
        signer_set: Seq::empty(),
        aggregate_key: Seq::empty(),
        signatures_required: 0,
    };
    match stacks_tip {
        Some(stacks_tip) => {
            let tip = stacks_tip.row();
            with_stacks_chain_tip(
                chain_tip.0@,
                0,
                0,
                key,
                rotation,
                tip,
                database,
            );
            optional_row_is_read_by_name::<KeyRotationEvent>(
                sql::GET_LAST_KEY_ROTATION,
                seq![
                    Datum::Bytes(stacks_tip.block_hash.0@),
                ],
                tables,
                database,
            );
        },
        None => {
            without_stacks_chain_tip(
                chain_tip.0@,
                0,
                0,
                key,
                rotation,
                database,
            );
            assert(Then::<RotationFrom>::output(got) == row_view(got));
        },
    }
}

/// Whether there is a key rotation is what the database says for the stacks chain
/// tip, the signers, the key and the number of signatures; it cannot be told where
/// no stacks block is anchored to the blockchain.
pub proof fn key_rotation_is_told<P>(
    store: PgStore<P>,
    chain_tip: BitcoinBlockHash,
    signer_set: SignerSet,
    aggregate_key: PublicKey,
    signatures_required: u16,
    step: Step<Then<Rotation>, bool>,
    stacks_tip: Option<StacksBlock>,
    tables: Tables,
    database: Database,
)
    requires
        call_ensures(
            PgStore::<P>::key_rotation_exists,
            (&store, &chain_tip, signer_set, &aggregate_key, signatures_required),
            step,
        ),
        serves(database, tables),
        found::<StacksBlock>(
            tables(
                sql::GET_STACKS_CHAIN_TIP,
                Fetch::Optional,
                seq![Datum::Bytes(chain_tip.0@)],
            ),
            stacks_tip,
        ),
    ensures
        match stacks_tip {
            Some(stacks_tip) => reads_one::<bool>(
                run::<Then<Rotation>>(step_view(step), database),
                tables(
                    sql::KEY_ROTATION_EXISTS,
                    Fetch::One,
                    seq![
                        Datum::Bytes(stacks_tip.block_hash.0@),
                        Datum::BytesArray(signer_set@),
                        Datum::Bytes(aggregate_key.0@),
                        Datum::Int4(signatures_required as int),
                    ],
                ),
            ),
            None => run::<Then<Rotation>>(step_view(step), database) == Err::<Seq<Datum>, _>(
                StoreError::NoStacksChainTip,
            ),
        },
{
    found_data_is_given::<StacksBlock>(
        sql::GET_STACKS_CHAIN_TIP,
        seq![Datum::Bytes(chain_tip.0@)],
        stacks_tip,
        tables,
        database,
    );
    assert(FetchOptional::<StacksBlock>::output(stacks_tip) == row_view(stacks_tip));
    let key = Seq::<u8>::empty();
    let rotation = RotationView {
        signer_set: signer_set@,
        aggregate_key: aggregate_key.0@,
        signatures_required,
    };
    match stacks_tip {
        Some(stacks_tip) => {
            let tip = stacks_tip.row();
            with_stacks_chain_tip(
                chain_tip.0@,
                0,
                0,
                key,
                rotation,
                tip,
                database,
            );
            one_row_is_read_by_name::<bool>(
                sql::KEY_ROTATION_EXISTS,
                seq![
                    Datum::Bytes(stacks_tip.block_hash.0@),
                    Datum::BytesArray(signer_set@),
                    Datum::Bytes(aggregate_key.0@),
                    Datum::Int4(signatures_required as int),
                ],
                tables,
                database,
            );
        },
        None => {
            without_stacks_chain_tip(
                chain_tip.0@,
                0,
                0,
                key,
                rotation,
                database,
            );
        },
    }
}

} // verus!
