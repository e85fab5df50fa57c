use sbtc_store::error::StoreError;
use sbtc_store::model::{
    BitcoinBlockHash, BitcoinBlockHeight, DkgSharesStatus, EncryptedDkgShares, KeyRotationEvent,
    PublicKey, PublicKeyXOnly, ScriptPubKey, StacksBlockHash, StacksTxId,
};
use sbtc_store::procedure::{Procedure, Step};
use sbtc_store::signer_set::SignerSet;
use sbtc_store::sql;
use sbtc_store::store::PgStore;
use sbtc_store::value::{Action, Kind, PgEnum, Reply, Response, Row, Statement, Value};

fn store() -> PgStore<()> {
    PgStore::from(())
}

/// Drives an operation to its end, with the given answers.
fn drive<P: Procedure>(
    mut step: Step<P, P::Output>,
    mut answer: impl FnMut(Action) -> Response,
) -> Result<P::Output, StoreError> {
    loop {
        match step {
            Step::Ask(action, state) => step = state.resume(answer(action)),
            Step::Done(result) => return result,
        }
    }
}

/// The statement that an operation runs first.
fn first<S, T>(step: Step<S, T>) -> Statement {
    match step {
        Step::Ask(Action::Run(statement), _) => statement,
        _ => panic!("no statement"),
    }
}

/// The statement of an action.
fn statement(action: Action) -> Statement {
    match action {
        Action::Run(statement) => statement,
        _ => panic!("no statement"),
    }
}

fn rows(rows: Vec<Vec<Value>>) -> Response {
    Ok(Reply { rows: rows.into_iter().map(|values| Row { values }).collect(), rows_affected: 0 })
}

fn bytes(value: &Value) -> &[u8] {
    match value {
        Value::Bytes(bytes) => bytes,
        _ => panic!("no bytes"),
    }
}

fn int4(value: &Value) -> i32 {
    match value {
        Value::Int4(number) => *number,
        _ => panic!("no integer"),
    }
}

const TIP: BitcoinBlockHash = BitcoinBlockHash([1; 32]);

fn key(first: u8, last: u8) -> PublicKey {
    let mut key = [5u8; 33];
    key[0] = first;
    key[32] = last;
    PublicKey(key)
}

fn shares() -> EncryptedDkgShares {
    EncryptedDkgShares {
        aggregate_key: key(2, 9),
        tweaked_aggregate_key: key(3, 8),
        script_pubkey: ScriptPubKey(vec![0x51]),
        encrypted_private_shares: vec![1, 2, 3],
        public_shares: vec![4, 5],
        signer_set_public_keys: vec![key(2, 1), key(2, 2)],
        signature_share_threshold: 2,
        dkg_shares_status: DkgSharesStatus::Verified,
        started_at_bitcoin_block_hash: BitcoinBlockHash([6; 32]),
        started_at_bitcoin_block_height: BitcoinBlockHeight(10),
    }
}

#[test]
fn written_shares_read_back() {
    let written = first(store().write_encrypted_dkg_shares(&shares()));
    assert_eq!(bytes(&written.params[2]), &[1, 2, 3]);
    assert_eq!(bytes(&written.params[4]), &[0x51]);
    let mut params: Vec<Option<Value>> = written.params.into_iter().map(Some).collect();
    let aggregate_key = shares().aggregate_key.x_only();
    let read = drive(store().get_encrypted_dkg_shares(aggregate_key), |action| {
        let asked = statement(action);
        assert_eq!(bytes(&asked.params[0]), &key(2, 9).0[1..]);
        assert_eq!(asked.columns[7].kind, Kind::Label(PgEnum::DkgSharesStatus));
        let order = [0, 1, 4, 2, 3, 5, 6, 7, 8, 9];
        rows(vec![order.iter().map(|i| params[*i].take().unwrap()).collect()])
    });
    assert_eq!(read.unwrap(), Some(shares()));
}

#[test]
fn shares_written_last_are_the_latest() {
    let statuses =
        [DkgSharesStatus::Unverified, DkgSharesStatus::Verified, DkgSharesStatus::Failed];
    for status in statuses {
        let mut last = shares();
        last.aggregate_key = key(3, 7);
        last.dkg_shares_status = status;
        let mut table: Vec<Vec<Value>> = Vec::new();
        for item in [&shares(), &last] {
            let written = drive(store().write_encrypted_dkg_shares(item), |action| {
                table.push(statement(action).params);
                Ok(Reply { rows: vec![], rows_affected: 1 })
            });
            assert!(written.is_ok());
        }
        let read = drive(store().get_latest_encrypted_dkg_shares(), |action| {
            assert_eq!(statement(action).sql, sql::GET_LATEST_ENCRYPTED_DKG_SHARES);
            let mut params: Vec<Option<Value>> =
                table.pop().unwrap().into_iter().map(Some).collect();
            let order = [0, 1, 4, 2, 3, 5, 6, 7, 8, 9];
            rows(vec![order.iter().map(|i| params[*i].take().unwrap()).collect()])
        });
        assert_eq!(read.unwrap(), Some(last));
    }
    let read = drive(store().get_latest_encrypted_dkg_shares(), |_| rows(vec![]));
    assert_eq!(read.unwrap(), None);
}

#[test]
fn latest_shares_are_asked_for() {
    assert_eq!(
        first(store().get_latest_encrypted_dkg_shares()).sql,
        sql::GET_LATEST_ENCRYPTED_DKG_SHARES
    );
    assert_eq!(
        first(store().get_latest_verified_dkg_shares()).sql,
        sql::GET_LATEST_VERIFIED_DKG_SHARES
    );
}

#[test]
fn shares_are_counted() {
    let count = |number: i64| {
        drive(store().get_encrypted_dkg_shares_count(), |_| {
            rows(vec![vec![Value::Int8(number)]])
        })
    };
    assert_eq!(count(0).unwrap(), 0);
    assert_eq!(count(u32::MAX as i64).unwrap(), u32::MAX);
    assert!(matches!(count(1 << 32), Err(StoreError::ConversionDatabaseInt)));
    assert!(matches!(count(-1), Err(StoreError::ConversionDatabaseInt)));
}

#[test]
fn shares_are_revoked_and_verified() {
    let aggregate_key = PublicKeyXOnly([7; 32]);
    let affected = |rows_affected: u64| move |action: Action| {
        assert_eq!(bytes(&statement(action).params[0]), &[7u8; 32]);
        Ok(Reply { rows: vec![], rows_affected })
    };
    assert!(drive(store().revoke_dkg_shares(aggregate_key), affected(1)).unwrap());
    assert!(!drive(store().revoke_dkg_shares(aggregate_key), affected(0)).unwrap());
    assert!(drive(store().verify_dkg_shares(aggregate_key), affected(2)).unwrap());
    assert!(!drive(store().verify_dkg_shares(aggregate_key), affected(0)).unwrap());
    assert_eq!(first(store().revoke_dkg_shares(aggregate_key)).sql, sql::REVOKE_DKG_SHARES);
    assert_eq!(first(store().verify_dkg_shares(aggregate_key)).sql, sql::VERIFY_DKG_SHARES);
}

#[test]
fn scripts_of_the_signers_are_read() {
    let scripts = drive(store().get_signers_script_pubkeys(), |_| {
        rows(vec![vec![Value::Bytes(vec![0x51])], vec![Value::Bytes(vec![])]])
    });
    assert_eq!(scripts.unwrap(), vec![vec![0x51], vec![]]);
    let asked = first(store().is_signer_script_pub_key(&ScriptPubKey(vec![0x51, 0x20])));
    assert_eq!(bytes(&asked.params[0]), &[0x51, 0x20]);
}

fn stacks_tip() -> Response {
    rows(vec![vec![
        Value::Bytes(vec![11; 32]),
        Value::Int8(4),
        Value::Bytes(vec![12; 32]),
        Value::Bytes(vec![1; 32]),
    ]])
}

#[test]
fn last_rotation_is_on_the_stacks_blockchain() {
    let rotation = KeyRotationEvent {
        txid: StacksTxId([1; 32]),
        block_hash: StacksBlockHash([2; 32]),
        address: "SM000".to_string(),
        aggregate_key: key(2, 9),
        signer_set: vec![key(2, 1), key(3, 1)],
        signatures_required: 2,
    };
    let mut params = Some(first(store().write_rotate_keys_transaction(&rotation)).params);
    let read = drive(store().get_last_key_rotation(&TIP), |action| {
        let action = statement(action);
        if action.sql == sql::GET_STACKS_CHAIN_TIP {
            stacks_tip()
        } else {
            assert_eq!(bytes(&action.params[0]), &[11u8; 32]);
            rows(vec![params.take().unwrap()])
        }
    });
    assert_eq!(read.unwrap(), Some(rotation));
    let none = drive(store().get_last_key_rotation(&TIP), |_| rows(vec![]));
    assert_eq!(none.unwrap(), None);
}

#[test]
fn rotation_is_looked_for_with_the_keys_in_order() {
    let set = SignerSet::of(&vec![key(3, 1), key(2, 2), key(2, 1), key(2, 2)]);
    let exists = drive(store().key_rotation_exists(&TIP, set, &key(2, 9), 3), |action| {
        let action = statement(action);
        if action.sql == sql::GET_STACKS_CHAIN_TIP {
            stacks_tip()
        } else {
            match &action.params[1] {
                Value::BytesArray(keys) => {
                    let sorted: Vec<Vec<u8>> =
                        [key(2, 1), key(2, 2), key(3, 1)].iter().map(|k| k.0.to_vec()).collect();
                    assert_eq!(keys, &sorted);
                }
                _ => panic!("no keys"),
            }
            assert_eq!(bytes(&action.params[2]), &key(2, 9).0);
            assert_eq!(int4(&action.params[3]), 3);
            rows(vec![vec![Value::Bool(true)]])
        }
    });
    assert!(exists.unwrap());
}

#[test]
fn rotation_cannot_be_looked_for_without_a_stacks_chain_tip() {
    let result = drive(
        store().key_rotation_exists(&TIP, SignerSet::new(), &key(2, 9), 3),
        |_| rows(vec![]),
    );
    assert!(matches!(result, Err(StoreError::NoStacksChainTip)));
}

#[test]
fn signer_set_does_not_depend_on_the_order() {
    let one = SignerSet::of(&vec![key(3, 1), key(2, 2), key(2, 1)]);
    let other = SignerSet::of(&vec![key(2, 1), key(3, 1), key(2, 2), key(2, 1)]);
    assert_eq!(one.keys(), other.keys());
    assert_eq!(one.keys(), &vec![key(2, 1), key(2, 2), key(3, 1)]);
    let more = one.with(key(0, 0)).with(key(2, 2));
    assert_eq!(more.keys().len(), 4);
    assert_eq!(more.keys()[0], key(0, 0));
}

#[test]
fn labels_belong_to_one_status() {
    let labels = ["unverified", "verified", "failed"];
    let all = [DkgSharesStatus::Unverified, DkgSharesStatus::Verified, DkgSharesStatus::Failed];
    for (status, label) in all.iter().zip(labels) {
        assert_eq!(status.label(), label);
        assert_eq!(DkgSharesStatus::from_label(&label.to_string()), Some(*status));
    }
    assert_eq!(DkgSharesStatus::from_label(&"Verified".to_string()), None);
}
