use sbtc_store::error::StoreError;
use sbtc_store::limits::{MAX_MEMPOOL_PACKAGE_TX_COUNT, MAX_REORG_BLOCK_COUNT};
use sbtc_store::model::{
    BitcoinBlockHash, BitcoinBlockHeight, BitcoinTxId, BitcoinTxSigHash, OutPoint,
    PublicKeyXOnly, ScriptPubKey, SigHash, TxOutput, TxOutputType, TxPrevout, TxPrevoutType,
};
use sbtc_store::procedure::{Procedure, Step};
use sbtc_store::sql;
use sbtc_store::store::PgStore;
use sbtc_store::value::{Action, ColumnKey, PgEnum, Reply, Response, Row, Statement, Value};

fn store() -> PgStore<()> {
    PgStore::from(())
}

/// Drives an operation to its end, with the given answers.
fn drive<P: Procedure>(
    mut step: Step<P, P::Output>,
    mut answer: impl FnMut(Action) -> Response,
) -> Result<P::Output, StoreError> {
    loop {
        match step {
            Step::Ask(action, state) => step = state.resume(answer(action)),
            Step::Done(result) => return result,
        }
    }
}

/// The statement that an operation runs first.
fn first<S, T>(step: Step<S, T>) -> Statement {
    match step {
        Step::Ask(Action::Run(statement), _) => statement,
        _ => panic!("no statement"),
    }
}

/// The statement of an action.
fn statement(action: Action) -> Statement {
    match action {
        Action::Run(statement) => statement,
        _ => panic!("no statement"),
    }
}

fn rows(rows: Vec<Vec<Value>>) -> Response {
    Ok(Reply { rows: rows.into_iter().map(|values| Row { values }).collect(), rows_affected: 0 })
}

fn bytes(value: &Value) -> &[u8] {
    match value {
        Value::Bytes(bytes) => bytes,
        _ => panic!("no bytes"),
    }
}

fn int4(value: &Value) -> i32 {
    match value {
        Value::Int4(number) => *number,
        _ => panic!("no integer"),
    }
}

fn int8(value: &Value) -> i64 {
    match value {
        Value::Int8(number) => *number,
        _ => panic!("no bigint"),
    }
}

const TIP: BitcoinBlockHash = BitcoinBlockHash([1; 32]);

fn key(parity: u8) -> Vec<u8> {
    let mut key = vec![9u8; 33];
    key[0] = parity;
    key
}

fn utxo_row() -> Vec<Value> {
    vec![
        Value::Bytes(vec![5; 32]),
        Value::Int4(2),
        Value::Int8(1_000),
        Value::Bytes(key(3)),
    ]
}

#[test]
fn output_is_looked_for_by_type_and_height() {
    let step = store().get_utxo(&TIP, TxOutputType::Donation, BitcoinBlockHeight(50));
    let asked = first(step);
    assert_eq!(asked.sql, sql::GET_UTXO);
    assert_eq!(bytes(&asked.params[0]), &[1u8; 32]);
    assert_eq!(int8(&asked.params[1]), 50);
    match &asked.params[2] {
        Value::Label(kind, label) => {
            assert_eq!(*kind, PgEnum::OutputType);
            assert_eq!(label, "donation");
        }
        _ => panic!("no label"),
    }
    let step = store().get_utxo(&TIP, TxOutputType::Donation, BitcoinBlockHeight(1 << 63));
    assert!(matches!(step, Step::Done(Err(StoreError::ConversionDatabaseInt))));
}

#[test]
fn output_loses_the_parity_of_its_key() {
    let step = store().get_utxo(&TIP, TxOutputType::SignersOutput, BitcoinBlockHeight(50));
    let utxo = drive(step, |_| rows(vec![utxo_row()])).unwrap().unwrap();
    assert_eq!(utxo.outpoint, OutPoint { txid: BitcoinTxId([5; 32]), vout: 2 });
    assert_eq!(utxo.amount, 1_000);
    assert_eq!(utxo.public_key, PublicKeyXOnly([9; 32]));
}

#[test]
fn donation_is_looked_for_from_the_first_one_on() {
    let mut asked: Vec<&'static str> = Vec::new();
    let utxo = drive(store().get_donation_utxo(&TIP), |action| {
        let action = statement(action);
        asked.push(action.sql);
        if action.sql == sql::MINIMUM_DONATION_TXO_HEIGHT {
            rows(vec![vec![Value::Int8(33)]])
        } else {
            assert_eq!(int8(&action.params[1]), 33);
            rows(vec![utxo_row()])
        }
    });
    assert!(utxo.unwrap().is_some());
    assert_eq!(asked, vec![sql::MINIMUM_DONATION_TXO_HEIGHT, sql::GET_DONATION_UTXO]);
}

#[test]
fn donation_with_the_least_height_comes_first() {
    assert!(sql::GET_DONATION_UTXO.contains("ORDER BY bb.block_height ASC"));
    assert!(sql::GET_UTXO.contains("ORDER BY bo.amount DESC"));
}

#[test]
fn without_donations_none_is_looked_for() {
    let utxo = drive(store().get_donation_utxo(&TIP), |action| {
        assert_eq!(statement(action).sql, sql::MINIMUM_DONATION_TXO_HEIGHT);
        rows(vec![])
    });
    assert!(utxo.unwrap().is_none());
}

/// Drives the search for the minimum height, with the given candidate and the
/// given height of a sweep.
fn minimum_height(candidate: Option<i64>, sweep: Option<i64>) -> Option<u64> {
    let found = drive(store().minimum_utxo_height(), |action| {
        let action = statement(action);
        if action.sql == sql::UTXO_CANDIDATE {
            match candidate {
                Some(height) => rows(vec![vec![Value::Bytes(vec![7; 32]), Value::Int8(height)]]),
                None => rows(vec![]),
            }
        } else {
            assert_eq!(action.sql, sql::CONFIRMED_SWEEP_HEIGHT);
            assert_eq!(int8(&action.params[0]), candidate.unwrap());
            let most = MAX_MEMPOOL_PACKAGE_TX_COUNT * MAX_REORG_BLOCK_COUNT + 1;
            assert_eq!(int8(&action.params[1]), most as i64);
            assert_eq!(bytes(&action.params[2]), &[7u8; 32]);
            let old = (candidate.unwrap() - MAX_REORG_BLOCK_COUNT as i64).max(0);
            assert_eq!(int8(&action.params[3]), old);
            match sweep {
                Some(height) => rows(vec![vec![Value::Int8(height)]]),
                None => rows(vec![]),
            }
        }
    });
    found.unwrap().map(|height| height.0)
}

#[test]
fn minimum_height_is_that_of_an_old_sweep() {
    assert_eq!(minimum_height(Some(1_000), Some(900)), Some(900));
}

#[test]
fn minimum_height_without_an_old_sweep_is_below_the_candidate() {
    assert_eq!(minimum_height(Some(1_000), None), Some(1_000 - MAX_REORG_BLOCK_COUNT));
    assert_eq!(minimum_height(Some(3), None), Some(0));
}

#[test]
fn minimum_height_is_missing_without_a_candidate() {
    assert_eq!(minimum_height(None, None), None);
}

/// Drives the search for the signers' output and gives the types of the
/// outputs that were looked for.
fn signer_utxo(candidate: bool, sweep_output: bool, donation: bool) -> (bool, Vec<String>) {
    let mut looked_for: Vec<String> = Vec::new();
    let found = drive(store().get_signer_utxo(&TIP), |action| {
        let mut action = statement(action);
        if action.sql == sql::UTXO_CANDIDATE {
            if candidate {
                rows(vec![vec![Value::Bytes(vec![7; 32]), Value::Int8(500)]])
            } else {
                rows(vec![])
            }
        } else if action.sql == sql::CONFIRMED_SWEEP_HEIGHT {
            rows(vec![])
        } else if action.sql == sql::MINIMUM_DONATION_TXO_HEIGHT {
            if donation {
                rows(vec![vec![Value::Int8(1)]])
            } else {
                rows(vec![])
            }
        } else {
            match action.params.pop() {
                Some(Value::Label(PgEnum::OutputType, label)) => {
                    let answer = label == "donation" || sweep_output;
                    looked_for.push(label);
                    if answer {
                        rows(vec![utxo_row()])
                    } else {
                        rows(vec![])
                    }
                }
                _ => panic!("no type"),
            }
        }
    });
    (found.unwrap().is_some(), looked_for)
}

#[test]
fn signer_utxo_is_the_output_of_a_sweep() {
    assert_eq!(signer_utxo(true, true, true), (true, vec!["signers_output".to_string()]));
}

#[test]
fn signer_utxo_is_a_donation_after_a_reorganization() {
    assert_eq!(
        signer_utxo(true, false, true),
        (true, vec!["signers_output".to_string(), "donation".to_string()])
    );
}

#[test]
fn signer_utxo_is_a_donation_before_the_first_sweep() {
    assert_eq!(signer_utxo(false, true, true), (true, vec!["donation".to_string()]));
    assert_eq!(signer_utxo(false, true, false), (false, vec![]));
}

#[test]
fn digest_is_signed_with_a_key() {
    let found = drive(store().will_sign_bitcoin_tx_sighash(&SigHash([4; 32])), |action| {
        let asked = statement(action);
        assert_eq!(asked.columns[1].key, ColumnKey::At(1));
        rows(vec![vec![Value::Bool(true), Value::Bytes(vec![8; 32])]])
    });
    assert_eq!(found.unwrap(), Some((true, PublicKeyXOnly([8; 32]))));
}

fn sighash(index: u32) -> BitcoinTxSigHash {
    BitcoinTxSigHash {
        txid: BitcoinTxId([1; 32]),
        chain_tip: BitcoinBlockHash([2; 32]),
        prevout_txid: BitcoinTxId([3; 32]),
        prevout_output_index: index,
        sighash: SigHash([4; 32]),
        prevout_type: TxPrevoutType::Deposit,
        validation_result: "ok".to_string(),
        is_valid_tx: true,
        will_sign: false,
        aggregate_key: PublicKeyXOnly([5; 32]),
    }
}

#[test]
fn digests_are_stored_by_columns() {
    let asked = first(store().write_bitcoin_txs_sighashes(&[sighash(6), sighash(7)]));
    assert_eq!(asked.params.len(), 10);
    match (&asked.params[3], &asked.params[5], &asked.params[6], &asked.params[8]) {
        (
            Value::Int4Array(indexes),
            Value::LabelArray(kind, types),
            Value::TextArray(results),
            Value::BoolArray(will_sign),
        ) => {
            assert_eq!(indexes, &vec![6, 7]);
            assert_eq!(*kind, PgEnum::PrevoutType);
            assert_eq!(types, &vec!["deposit".to_string(), "deposit".to_string()]);
            assert_eq!(results, &vec!["ok".to_string(), "ok".to_string()]);
            assert_eq!(will_sign, &vec![false, false]);
        }
        _ => panic!("no arrays"),
    }
}

#[test]
fn signing_of_a_stored_digest_reads_back() {
    for (is_valid_tx, will_sign) in [(true, true), (true, false), (false, true), (false, false)] {
        let mut stored = sighash(7);
        stored.sighash = SigHash([9; 32]);
        stored.is_valid_tx = is_valid_tx;
        stored.will_sign = will_sign;
        stored.aggregate_key = PublicKeyXOnly([8; 32]);
        let written = first(store().write_bitcoin_txs_sighashes(&[sighash(6), stored]));
        let found = drive(store().will_sign_bitcoin_tx_sighash(&SigHash([9; 32])), |action| {
            assert_eq!(bytes(&statement(action).params[0]), &[9u8; 32]);
            match (&written.params[8], &written.params[9]) {
                (Value::BoolArray(flags), Value::BytesArray(keys)) => {
                    rows(vec![vec![Value::Bool(flags[1]), Value::Bytes(keys[1].clone())]])
                }
                _ => panic!("no arrays"),
            }
        });
        assert_eq!(found.unwrap(), Some((will_sign, PublicKeyXOnly([8; 32]))));
    }
    let found = drive(store().will_sign_bitcoin_tx_sighash(&SigHash([1; 32])), |_| rows(vec![]));
    assert_eq!(found.unwrap(), None);
}

#[test]
fn digests_with_an_index_that_does_not_fit_are_refused() {
    let step = store().write_bitcoin_txs_sighashes(&[sighash(6), sighash(1 << 31)]);
    assert!(matches!(step, Step::Done(Err(StoreError::ConversionDatabaseInt))));
    assert!(matches!(store().write_bitcoin_txs_sighashes(&[]), Step::Done(Ok(()))));
}

#[test]
fn outputs_are_stored_with_their_type() {
    let output = TxOutput {
        txid: BitcoinTxId([1; 32]),
        output_index: 3,
        amount: 21,
        script_pubkey: ScriptPubKey(vec![0x51]),
        output_type: TxOutputType::SignersOpReturn,
    };
    let asked = first(store().write_tx_output(&output));
    assert_eq!(int4(&asked.params[1]), 3);
    assert_eq!(int8(&asked.params[2]), 21);
    assert_eq!(bytes(&asked.params[3]), &[0x51]);
    assert!(matches!(&asked.params[4], Value::Label(PgEnum::OutputType, l) if l == "signers_op_return"));
    let prevout = TxPrevout {
        txid: BitcoinTxId([1; 32]),
        prevout_txid: BitcoinTxId([2; 32]),
        prevout_output_index: 4,
        amount: 22,
        script_pubkey: ScriptPubKey(vec![0x52]),
        prevout_type: TxPrevoutType::SignersInput,
    };
    let asked = first(store().write_tx_prevout(&prevout));
    assert_eq!(int4(&asked.params[2]), 4);
    assert!(matches!(&asked.params[5], Value::Label(PgEnum::PrevoutType, l) if l == "signers_input"));
}
