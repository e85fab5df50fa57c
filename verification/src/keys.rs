//! The signers' keys: the shares of key generations, and key rotations.

use crate::chain::{ask_stacks_chain_tip, get_stacks_chain_tip_step};
use crate::compose::{in_converted, in_first, Continuation, Conversion, Converting, Then};
use crate::convert::{copy_bytes, key_bytes, keys_to_bytes, to_bigint, to_bytes};
use crate::error::StoreError;
use crate::fetch::{
    ask_all, ask_execute, ask_execute_any, ask_one, ask_optional, refused, row_view, Execute,
    ExecuteAny, FetchAll, FetchOne, FetchOptional,
};
use crate::model::{
    BitcoinBlockHash, EncryptedDkgShares, KeyRotationEvent, PublicKey, PublicKeyXOnly, ScriptPubKey,
    StacksBlock,
};
use crate::procedure::{step_view, Operation, Step, StepView};
use crate::row::{as_int8, FromRow};
use crate::signer_set::SignerSet;
use crate::sql;
use crate::store::PgStore;
use crate::value::{data, Datum, PgEnum, Value};
use vstd::prelude::*;

verus! {

/// Takes a count.
#[derive(Debug)]
pub struct CountOf;

impl View for CountOf {
    type V = ();

    open spec fn view(&self) -> () {
        ()
    }
}

impl Conversion for CountOf {
    type First = FetchOne<i64>;

    type Converted = u32;

    type ConvertedView = int;

    open spec fn converted(converted: u32) -> int {
        converted as int
    }

    open spec fn conversion(state: (), output: Seq<Datum>) -> Result<int, StoreError> {
        if 0 <= as_int8(output[0]) <= u32::MAX {
            Ok(as_int8(output[0]))
        } else {
            Err(StoreError::ConversionDatabaseInt)
        }
    }

    fn convert(self, output: i64) -> (result: Result<u32, StoreError>) {
        assert(Self::First::output(output) == output.row());
        if 0 <= output && output <= 4294967295 {
            Ok(output as u32)
        } else {
            Err(StoreError::ConversionDatabaseInt)
        }
    }
}

/// Looks for the last key rotation once the stacks chain tip is known.
#[derive(Debug)]
pub struct RotationFrom;

impl View for RotationFrom {
    type V = ();

    open spec fn view(&self) -> () {
        ()
    }
}

impl Continuation for RotationFrom {
    type First = FetchOptional<StacksBlock>;

    type Second = FetchOptional<KeyRotationEvent>;

    open spec fn after(state: (), output: Option<Seq<Datum>>) -> StepView<(), Option<Seq<Datum>>> {
        match output {
            Some(stacks_chain_tip) => ask_optional::<KeyRotationEvent>(
                sql::GET_LAST_KEY_ROTATION,
                seq![stacks_chain_tip[0]],
            ),
            None => StepView::Done(Ok(None)),
        }
    }

    open spec fn bound(state: ()) -> nat {
        0
    }

    proof fn after_is_bounded(state: (), output: Option<Seq<Datum>>) {
    }

    fn go_on(self, output: Option<StacksBlock>) -> (step: Step<
        FetchOptional<KeyRotationEvent>,
        Option<KeyRotationEvent>,
    >) {
        assert(Self::First::output(output) == row_view(output));
        match output {
            Some(stacks_chain_tip) => {
                let params = vec![Value::Bytes(to_bytes(&stacks_chain_tip.block_hash.0))];
                assert(data(params@) =~= seq![stacks_chain_tip.row()[0]]);
                FetchOptional::ask(sql::GET_LAST_KEY_ROTATION, params)
            },
            None => Step::Done(Ok(None)),
        }
    }
}

/// The start of [`PgStore::get_last_key_rotation`].
pub open spec fn get_last_key_rotation_step(chain_tip: Seq<u8>) -> StepView<
    <Then<RotationFrom> as View>::V,
    Option<Seq<Datum>>,
> {
    in_first::<RotationFrom>(get_stacks_chain_tip_step(chain_tip), ())
}

/// A key rotation to look for.
#[derive(Debug)]
pub struct Rotation {
    pub signer_set: SignerSet,
    pub aggregate_key: PublicKey,
    pub signatures_required: u16,
}

/// The content of a [`Rotation`].
#[verifier::ext_equal]
pub struct RotationView {
    pub signer_set: Seq<Seq<u8>>,
    pub aggregate_key: Seq<u8>,
    pub signatures_required: u16,
}

impl View for Rotation {
    type V = RotationView;

    open spec fn view(&self) -> RotationView {
        RotationView {
            signer_set: self.signer_set@,
            aggregate_key: self.aggregate_key.0@,
            signatures_required: self.signatures_required,
        }
    }
}

impl Continuation for Rotation {
    type First = FetchOptional<StacksBlock>;

    type Second = FetchOne<bool>;

    open spec fn after(rotation: RotationView, output: Option<Seq<Datum>>) -> StepView<
        (),
        Seq<Datum>,
    > {
        match output {
            Some(stacks_chain_tip) => ask_one::<bool>(
                sql::KEY_ROTATION_EXISTS,
                seq![
                    stacks_chain_tip[0],
                    Datum::BytesArray(rotation.signer_set),
                    Datum::Bytes(rotation.aggregate_key),
                    Datum::Int4(rotation.signatures_required as int),
                ],
            ),
            None => StepView::Done(Err(StoreError::NoStacksChainTip)),
        }
    }

    open spec fn bound(rotation: RotationView) -> nat {
        0
    }

    proof fn after_is_bounded(rotation: RotationView, output: Option<Seq<Datum>>) {
    }

    fn go_on(self, output: Option<StacksBlock>) -> (step: Step<FetchOne<bool>, bool>) {
        assert(Self::First::output(output) == row_view(output));
        match output {
            Some(stacks_chain_tip) => {
                let params = vec![
                    Value::Bytes(to_bytes(&stacks_chain_tip.block_hash.0)),
                    Value::BytesArray(keys_to_bytes(self.signer_set.keys())),
                    Value::Bytes(to_bytes(&self.aggregate_key.0)),
                    Value::Int4(self.signatures_required as i32),
                ];
                assert(data(params@) =~= seq![
                    stacks_chain_tip.row()[0],
                    Datum::BytesArray(self.signer_set@),
                    Datum::Bytes(self.aggregate_key.0@),
                    Datum::Int4(self.signatures_required as int),
                ]);
                FetchOne::ask(sql::KEY_ROTATION_EXISTS, params)
            },
            None => Step::Done(Err(StoreError::NoStacksChainTip)),
        }
    }
}

/// The start of [`PgStore::key_rotation_exists`].
pub open spec fn key_rotation_exists_step(
    chain_tip: Seq<u8>,
    signer_set: Seq<Seq<u8>>,
    aggregate_key: Seq<u8>,
    signatures_required: u16,
) -> StepView<<Then<Rotation> as View>::V, Seq<Datum>> {
    in_first::<Rotation>(
        get_stacks_chain_tip_step(chain_tip),
        RotationView { signer_set, aggregate_key, signatures_required },
    )
}

/// The start of [`PgStore::get_encrypted_dkg_shares`].
pub open spec fn get_encrypted_dkg_shares_step(
    aggregate_key: Seq<u8>,
) -> StepView<(), Option<Seq<Datum>>> {
    ask_optional::<EncryptedDkgShares>(
        sql::GET_ENCRYPTED_DKG_SHARES,
        seq![Datum::Bytes(aggregate_key)],
    )
}

/// The start of [`PgStore::get_latest_encrypted_dkg_shares`].
pub open spec fn get_latest_encrypted_dkg_shares_step() -> StepView<(), Option<Seq<Datum>>> {
    ask_optional::<EncryptedDkgShares>(sql::GET_LATEST_ENCRYPTED_DKG_SHARES, Seq::empty())
}

/// The start of [`PgStore::write_encrypted_dkg_shares`].
pub open spec fn write_encrypted_dkg_shares_step(shares: EncryptedDkgShares) -> StepView<(), ()> {
    if shares.storable() {
        ask_execute(sql::WRITE_ENCRYPTED_DKG_SHARES, shares.params())
    } else {
        refused()
    }
}

/// The start of [`PgStore::get_latest_verified_dkg_shares`].
pub open spec fn get_latest_verified_dkg_shares_step() -> StepView<(), Option<Seq<Datum>>> {
    ask_optional::<EncryptedDkgShares>(sql::GET_LATEST_VERIFIED_DKG_SHARES, Seq::empty())
}

/// The start of [`PgStore::get_encrypted_dkg_shares_count`].
pub open spec fn get_encrypted_dkg_shares_count_step() -> StepView<((), ()), int> {
    in_converted::<CountOf>(
        ask_one::<i64>(sql::GET_ENCRYPTED_DKG_SHARES_COUNT, Seq::empty()),
        (),
    )
}

/// The start of [`PgStore::get_signers_script_pubkeys`].
pub open spec fn get_signers_script_pubkeys_step() -> StepView<(), Seq<Seq<Datum>>> {
    ask_all::<Vec<u8>>(sql::GET_SIGNERS_SCRIPT_PUBKEYS, Seq::empty())
}

/// The start of [`PgStore::is_signer_script_pub_key`].
pub open spec fn is_signer_script_pub_key_step(script: Seq<u8>) -> StepView<(), Seq<Datum>> {
    ask_one::<bool>(sql::IS_SIGNER_SCRIPT_PUB_KEY, seq![Datum::Bytes(script)])
}

impl EncryptedDkgShares {
    /// The values that are stored for it.
    pub open spec fn params(&self) -> Seq<Datum> {
        seq![
            Datum::Bytes(self.aggregate_key.0@),
            Datum::Bytes(self.tweaked_aggregate_key.0@),
            Datum::Bytes(self.encrypted_private_shares@),
            Datum::Bytes(self.public_shares@),
            Datum::Bytes(self.script_pubkey.0@),
            Datum::BytesArray(key_bytes(self.signer_set_public_keys@)),
            Datum::Int4(self.signature_share_threshold as int),
            Datum::Label(PgEnum::DkgSharesStatus, self.dkg_shares_status.spec_label()),
            Datum::Bytes(self.started_at_bitcoin_block_hash.0@),
            Datum::Int8(self.started_at_bitcoin_block_height.0 as int),
        ]
    }
}

/// Asks for the shares whose aggregate key has the given x-coordinate.
pub(crate) fn ask_dkg_shares(aggregate_key: &PublicKeyXOnly) -> (step: Step<
    FetchOptional<EncryptedDkgShares>,
    Option<EncryptedDkgShares>,
>)
    ensures
        step_view(step) == get_encrypted_dkg_shares_step(aggregate_key.0@),
{
    let params = vec![Value::Bytes(to_bytes(&aggregate_key.0))];
    assert(data(params@) =~= seq![Datum::Bytes(aggregate_key.0@)]);
    FetchOptional::ask(sql::GET_ENCRYPTED_DKG_SHARES, params)
}

impl<P> PgStore<P> {
    /// The shares whose aggregate key has the given x-coordinate.
    pub fn get_encrypted_dkg_shares(
        &self,
        aggregate_key: PublicKeyXOnly,
    ) -> (step: Step<FetchOptional<EncryptedDkgShares>, Option<EncryptedDkgShares>>)
        ensures
            step_view(step) == get_encrypted_dkg_shares_step(aggregate_key.0@),
    {
        ask_dkg_shares(&aggregate_key)
    }

    /// The newest shares.
    pub fn get_latest_encrypted_dkg_shares(
        &self,
    ) -> (step: Step<FetchOptional<EncryptedDkgShares>, Option<EncryptedDkgShares>>)
        ensures
            step_view(step) == get_latest_encrypted_dkg_shares_step(),
    {
        let params: Vec<Value> = Vec::new();
        assert(data(params@) =~= Seq::empty());
        FetchOptional::ask(sql::GET_LATEST_ENCRYPTED_DKG_SHARES, params)
    }

    /// The newest shares that are verified.
    pub fn get_latest_verified_dkg_shares(
        &self,
    ) -> (step: Step<FetchOptional<EncryptedDkgShares>, Option<EncryptedDkgShares>>)
        ensures
            step_view(step) == get_latest_verified_dkg_shares_step(),
    {
        let params: Vec<Value> = Vec::new();
        assert(data(params@) =~= Seq::empty());
        FetchOptional::ask(sql::GET_LATEST_VERIFIED_DKG_SHARES, params)
    }

    /// The number of shares that have not failed.
    pub fn get_encrypted_dkg_shares_count(&self) -> (step: Step<Converting<CountOf>, u32>)
        ensures
            step_view(step) == get_encrypted_dkg_shares_count_step(),
    {
        let params: Vec<Value> = Vec::new();
        assert(data(params@) =~= Seq::empty());
        let step = FetchOne::ask(sql::GET_ENCRYPTED_DKG_SHARES_COUNT, params);
        Converting::first(step, CountOf)
    }

    /// The scripts that lock the signers' funds: that of the newest shares and
    /// those of the shares of the last year.
    pub fn get_signers_script_pubkeys(&self) -> (step: Step<FetchAll<Vec<u8>>, Vec<Vec<u8>>>)
        ensures
            step_view(step) == get_signers_script_pubkeys_step(),
    {
        let params: Vec<Value> = Vec::new();
        assert(data(params@) =~= Seq::empty());
        FetchAll::ask(sql::GET_SIGNERS_SCRIPT_PUBKEYS, params)
    }

    /// Whether the script belongs to some shares.
    pub fn is_signer_script_pub_key(
        &self,
        script: &ScriptPubKey,
    ) -> (step: Step<FetchOne<bool>, bool>)
        ensures
            step_view(step) == is_signer_script_pub_key_step(script.0@),
    {
        let params = vec![Value::Bytes(copy_bytes(&script.0))];
        assert(data(params@) =~= seq![Datum::Bytes(script.0@)]);
        FetchOne::ask(sql::IS_SIGNER_SCRIPT_PUB_KEY, params)
    }

    /// Stores the shares of a key generation.
    pub fn write_encrypted_dkg_shares(
        &self,
        shares: &EncryptedDkgShares,
    ) -> (step: Step<Execute, ()>)
        ensures
            step_view(step) == write_encrypted_dkg_shares_step(*shares),
    {
        let started_at_bitcoin_block_height: i64 = match to_bigint(shares.started_at_bitcoin_block_height.0) {
            Ok(number) => number,
            Err(error) => {
                return Step::Done(Err(error));
            },
        };
        let params = vec![
            Value::Bytes(to_bytes(&shares.aggregate_key.0)),
            Value::Bytes(to_bytes(&shares.tweaked_aggregate_key.0)),
            Value::Bytes(copy_bytes(&shares.encrypted_private_shares)),
            Value::Bytes(copy_bytes(&shares.public_shares)),
            Value::Bytes(copy_bytes(&shares.script_pubkey.0)),
            Value::BytesArray(keys_to_bytes(&shares.signer_set_public_keys)),
            Value::Int4(shares.signature_share_threshold as i32),
            Value::Label(PgEnum::DkgSharesStatus, shares.dkg_shares_status.label()),
            Value::Bytes(to_bytes(&shares.started_at_bitcoin_block_hash.0)),
            Value::Int8(started_at_bitcoin_block_height),
        ];
        assert(data(params@) =~= shares.params());
        Execute::ask(sql::WRITE_ENCRYPTED_DKG_SHARES, params)
    }

    /// Stores a key rotation.
    pub fn write_rotate_keys_transaction(
        &self,
        key_rotation: &KeyRotationEvent,
    ) -> (step: Step<Execute, ()>)
        ensures
            step_view(step) == ask_execute(sql::WRITE_ROTATE_KEYS_TRANSACTION, key_rotation.row()),
    {
        let params = vec![
            Value::Bytes(to_bytes(&key_rotation.txid.0)),
            Value::Bytes(to_bytes(&key_rotation.block_hash.0)),
            Value::Text(key_rotation.address.clone()),
            Value::Bytes(to_bytes(&key_rotation.aggregate_key.0)),
            Value::BytesArray(keys_to_bytes(&key_rotation.signer_set)),
            Value::Int4(key_rotation.signatures_required as i32),
        ];
        assert(data(params@) =~= key_rotation.row());
        Execute::ask(sql::WRITE_ROTATE_KEYS_TRANSACTION, params)
    }
}

impl<P> PgStore<P> {
    /// The last key rotation on the stacks blockchain of the bitcoin chain tip.
    pub fn get_last_key_rotation(&self, chain_tip: &BitcoinBlockHash) -> (step: Step<
        Then<RotationFrom>,
        Option<KeyRotationEvent>,
    >)
        ensures
            step_view(step) == get_last_key_rotation_step(chain_tip.0@),
    {
        Then::first(ask_stacks_chain_tip(chain_tip), RotationFrom)
    }

    /// Whether a rotation to the given key is confirmed on the stacks blockchain
    /// of the bitcoin chain tip.
    pub fn key_rotation_exists(
        &self,
        chain_tip: &BitcoinBlockHash,
        signer_set: SignerSet,
        aggregate_key: &PublicKey,
        signatures_required: u16,
    ) -> (step: Step<Then<Rotation>, bool>)
        ensures
            step_view(step) == key_rotation_exists_step(
                chain_tip.0@,
                signer_set@,
                aggregate_key.0@,
                signatures_required,
            ),
    {
        let rotation = Rotation { signer_set, aggregate_key: *aggregate_key, signatures_required };
        Then::first(ask_stacks_chain_tip(chain_tip), rotation)
    }

    /// Marks the shares with the given aggregate key as failed if they are not
    /// verified yet, and tells whether it did.
    pub fn revoke_dkg_shares(&self, aggregate_key: PublicKeyXOnly) -> (step: Step<ExecuteAny, bool>)
        ensures
            step_view(step) == ask_execute_any(
                sql::REVOKE_DKG_SHARES,
                seq![Datum::Bytes(aggregate_key.0@)],
            ),
    {
        let params = vec![Value::Bytes(to_bytes(&aggregate_key.0))];
        assert(data(params@) =~= seq![Datum::Bytes(aggregate_key.0@)]);
        ExecuteAny::ask(sql::REVOKE_DKG_SHARES, params)
    }

    /// Marks the shares with the given aggregate key as verified if they were
    /// neither verified nor revoked, and tells whether it did.
    pub fn verify_dkg_shares(&self, aggregate_key: PublicKeyXOnly) -> (step: Step<ExecuteAny, bool>)
        ensures
            step_view(step) == ask_execute_any(
                sql::VERIFY_DKG_SHARES,
                seq![Datum::Bytes(aggregate_key.0@)],
            ),
    {
        let params = vec![Value::Bytes(to_bytes(&aggregate_key.0))];
        assert(data(params@) =~= seq![Datum::Bytes(aggregate_key.0@)]);
        ExecuteAny::ask(sql::VERIFY_DKG_SHARES, params)
    }
}

} // verus!
