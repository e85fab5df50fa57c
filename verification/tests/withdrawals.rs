use sbtc_store::error::StoreError;
use sbtc_store::limits::WITHDRAWAL_BLOCKS_EXPIRY;
use sbtc_store::model::{
    BitcoinBlockHash, BitcoinBlockHeight, BitcoinBlockRef, BitcoinTxId, BitcoinTxRef,
    BitcoinWithdrawalOutput, OutPoint, PublicKey, QualifiedRequestId, ScriptPubKey,
    StacksBlockHash, StacksTxId, WithdrawalAcceptEvent, WithdrawalRejectEvent, WithdrawalRequest,
    WithdrawalSigner, WithdrawalTxOutput,
};
use sbtc_store::procedure::{Procedure, Step};
use sbtc_store::sql;
use sbtc_store::store::PgStore;
use sbtc_store::value::{Action, Reply, Response, Row, Statement, Value};
use sbtc_store::withdrawals::WithdrawalRequestStatus;

fn store() -> PgStore<()> {
    PgStore::from(())
}

/// Drives an operation to its end, with the given answers.
fn drive<P: Procedure>(
    mut step: Step<P, P::Output>,
    mut answer: impl FnMut(Action) -> Response,
) -> Result<P::Output, StoreError> {
    loop {
        match step {
            Step::Ask(action, state) => step = state.resume(answer(action)),
            Step::Done(result) => return result,
        }
    }
}

/// The statement that an operation runs first.
fn first<S, T>(step: Step<S, T>) -> Statement {
    match step {
        Step::Ask(Action::Run(statement), _) => statement,
        _ => panic!("no statement"),
    }
}

/// The statement of an action.
fn statement(action: Action) -> Statement {
    match action {
        Action::Run(statement) => statement,
        _ => panic!("no statement"),
    }
}

fn rows(rows: Vec<Vec<Value>>) -> Response {
    Ok(Reply { rows: rows.into_iter().map(|values| Row { values }).collect(), rows_affected: 0 })
}

fn bytes(value: &Value) -> &[u8] {
    match value {
        Value::Bytes(bytes) => bytes,
        _ => panic!("no bytes"),
    }
}

fn int4(value: &Value) -> i32 {
    match value {
        Value::Int4(number) => *number,
        _ => panic!("no integer"),
    }
}

fn int8(value: &Value) -> i64 {
    match value {
        Value::Int8(number) => *number,
        _ => panic!("no bigint"),
    }
}

const TIP: BitcoinBlockHash = BitcoinBlockHash([1; 32]);

const STACKS_TIP: StacksBlockHash = StacksBlockHash([2; 32]);

const SIGNER: PublicKey = PublicKey([3; 33]);

const ID: QualifiedRequestId = QualifiedRequestId {
    request_id: 17,
    txid: StacksTxId([4; 32]),
    block_hash: StacksBlockHash([5; 32]),
};

fn tip_ref(height: u64) -> BitcoinBlockRef {
    BitcoinBlockRef { block_hash: TIP, block_height: BitcoinBlockHeight(height) }
}

fn stacks_tip_row() -> Vec<Value> {
    vec![
        Value::Bytes(vec![11; 32]),
        Value::Int8(4),
        Value::Bytes(vec![12; 32]),
        Value::Bytes(vec![1; 32]),
    ]
}

fn summary_row() -> Vec<Value> {
    vec![
        Value::Bool(false),
        Value::Int8(50_000),
        Value::Int8(900),
        Value::Bytes(vec![0x51]),
        Value::Int8(120),
        Value::Bytes(vec![6; 32]),
        Value::Int8(44),
    ]
}

/// Makes a report on a withdrawal request that is paid or confirmed, or neither.
fn status(paid: bool, confirmed: bool) -> WithdrawalRequestStatus {
    let step = store().get_withdrawal_request_report(&TIP, &STACKS_TIP, &ID, &SIGNER);
    let report = drive(step, |action| {
        let action = statement(action);
        if action.sql == sql::GET_WITHDRAWAL_REQUEST_STATUS_SUMMARY {
            assert_eq!(bytes(&action.params[0]), &[3u8; 33]);
            assert_eq!(int8(&action.params[1]), 17);
            assert_eq!(bytes(&action.params[2]), &[5u8; 32]);
            rows(vec![summary_row()])
        } else if action.sql == sql::GET_WITHDRAWAL_SWEEP_INFO {
            assert_eq!(bytes(&action.params[0]), &[1u8; 32]);
            if paid {
                rows(vec![vec![Value::Bytes(vec![7; 32]), Value::Bytes(vec![8; 32])]])
            } else {
                rows(vec![])
            }
        } else {
            assert_eq!(action.sql, sql::IN_CANONICAL_STACKS_BLOCKCHAIN);
            assert!(!paid);
            assert_eq!(bytes(&action.params[0]), &[2u8; 32]);
            assert_eq!(int8(&action.params[1]), 44);
            assert_eq!(bytes(&action.params[2]), &[6u8; 32]);
            rows(vec![vec![Value::Bool(confirmed)]])
        }
    });
    let report = report.unwrap().unwrap();
    assert_eq!(report.id, ID);
    assert_eq!(report.amount, 50_000);
    assert_eq!(report.max_fee, 900);
    assert_eq!(report.is_accepted, Some(false));
    assert_eq!(report.recipient, ScriptPubKey(vec![0x51]));
    assert_eq!(report.bitcoin_block_height, BitcoinBlockHeight(120));
    report.status
}

#[test]
fn report_on_a_withdrawal_has_its_status() {
    let paid = BitcoinTxRef { txid: BitcoinTxId([7; 32]), block_hash: BitcoinBlockHash([8; 32]) };
    assert_eq!(status(true, false), WithdrawalRequestStatus::Fulfilled(paid));
    assert_eq!(status(false, true), WithdrawalRequestStatus::Confirmed);
    assert_eq!(status(false, false), WithdrawalRequestStatus::Unconfirmed);
}

#[test]
fn report_on_an_unknown_withdrawal_is_missing() {
    let step = store().get_withdrawal_request_report(&TIP, &STACKS_TIP, &ID, &SIGNER);
    assert!(drive(step, |_| rows(vec![])).unwrap().is_none());
    let large = QualifiedRequestId { request_id: 1 << 63, ..ID };
    let step = store().get_withdrawal_request_report(&TIP, &STACKS_TIP, &large, &SIGNER);
    assert!(matches!(step, Step::Done(Err(StoreError::ConversionDatabaseInt))));
}

#[test]
fn total_of_nothing_is_zero() {
    let total = |value: Value| {
        let mut value = Some(value);
        drive(store().compute_withdrawn_total(&TIP, 20), |action| {
            assert_eq!(int4(&statement(action).params[1]), 20);
            rows(vec![vec![value.take().unwrap()]])
        })
    };
    assert_eq!(total(Value::Null).unwrap(), 0);
    assert_eq!(total(Value::Int8(123)).unwrap(), 123);
    assert!(matches!(total(Value::Int8(-1)), Err(StoreError::TypeConversion)));
}

#[test]
fn pending_withdrawals_are_looked_for_from_the_stacks_chain_tip() {
    let found = drive(store().get_pending_withdrawal_requests(&TIP, 20, &SIGNER), |action| {
        let action = statement(action);
        if action.sql == sql::GET_STACKS_CHAIN_TIP {
            rows(vec![stacks_tip_row()])
        } else {
            assert_eq!(action.sql, sql::GET_PENDING_WITHDRAWAL_REQUESTS);
            assert_eq!(bytes(&action.params[0]), &[1u8; 32]);
            assert_eq!(bytes(&action.params[1]), &[11u8; 32]);
            assert_eq!(int4(&action.params[2]), 20);
            assert_eq!(bytes(&action.params[3]), &[3u8; 33]);
            rows(vec![])
        }
    });
    assert!(found.unwrap().is_empty());
}

#[test]
fn without_a_stacks_chain_tip_there_are_no_requests() {
    let none = |action: Action| {
        assert_eq!(statement(action).sql, sql::GET_STACKS_CHAIN_TIP);
        rows(vec![])
    };
    assert!(drive(store().get_pending_withdrawal_requests(&TIP, 20, &SIGNER), none)
        .unwrap()
        .is_empty());
    let far = tip_ref(u64::MAX);
    assert!(drive(store().get_pending_rejected_withdrawal_requests(&far, 20), none)
        .unwrap()
        .is_empty());
    assert!(drive(store().get_swept_withdrawal_requests(&TIP, 20), none).unwrap().is_empty());
}

#[test]
fn requests_expire_after_some_blocks() {
    let expiry = |height: u64| {
        let mut asked: Option<i64> = None;
        let found = drive(
            store().get_pending_rejected_withdrawal_requests(&tip_ref(height), 20),
            |action| {
                let action = statement(action);
                if action.sql == sql::GET_STACKS_CHAIN_TIP {
                    rows(vec![stacks_tip_row()])
                } else {
                    assert_eq!(bytes(&action.params[2]), &[11u8; 32]);
                    asked = Some(int8(&action.params[3]));
                    rows(vec![])
                }
            },
        );
        found.map(|_| asked.unwrap())
    };
    assert_eq!(expiry(1_000).unwrap(), 1_000 - WITHDRAWAL_BLOCKS_EXPIRY as i64);
    assert_eq!(expiry(5).unwrap(), 0);
    assert!(matches!(expiry(u64::MAX), Err(StoreError::ConversionDatabaseInt)));
}

#[test]
fn accepted_withdrawals_are_asked_for_with_the_threshold() {
    let asked = first(store().get_pending_accepted_withdrawal_requests(
        &TIP,
        &STACKS_TIP,
        BitcoinBlockHeight(70),
        9,
    ));
    assert_eq!(bytes(&asked.params[1]), &[2u8; 32]);
    assert_eq!(int8(&asked.params[2]), 70);
    assert_eq!(int8(&asked.params[3]), 9);
    assert!(asked.sql.contains("COUNT(DISTINCT signers.signer_pub_key) >= $4"));
}

#[test]
fn withdrawal_is_in_flight_if_a_transaction_pays_it() {
    let inflight = drive(store().is_withdrawal_inflight(&ID, &TIP), |action| {
        let action = statement(action);
        if action.sql == sql::UTXO_CANDIDATE {
            rows(vec![])
        } else if action.sql == sql::MINIMUM_DONATION_TXO_HEIGHT {
            rows(vec![vec![Value::Int8(1)]])
        } else if action.sql == sql::GET_DONATION_UTXO {
            rows(vec![vec![
                Value::Bytes(vec![13; 32]),
                Value::Int4(0),
                Value::Int8(1),
                Value::Bytes(vec![3; 33]),
            ]])
        } else {
            assert_eq!(action.sql, sql::IS_WITHDRAWAL_INFLIGHT);
            assert_eq!(bytes(&action.params[0]), &[13u8; 32]);
            assert_eq!(int8(&action.params[1]), 17);
            assert_eq!(bytes(&action.params[2]), &[5u8; 32]);
            rows(vec![vec![Value::Bool(true)]])
        }
    });
    assert!(inflight.unwrap());
}

#[test]
fn withdrawal_is_not_in_flight_without_funds() {
    let large = QualifiedRequestId { request_id: 1 << 63, ..ID };
    let inflight = drive(store().is_withdrawal_inflight(&large, &TIP), |_| rows(vec![]));
    assert!(!inflight.unwrap());
}

/// Whether a withdrawal request is active, given the height at which it was
/// last considered and that of the first sweep after it.
fn active(considered: Option<i64>, sweep: Option<i64>, min_confirmations: u64) -> Result<bool, StoreError> {
    drive(store().is_withdrawal_active(&ID, &tip_ref(100), min_confirmations), |action| {
        let action = statement(action);
        if action.sql == sql::LAST_CONSIDERED_HEIGHT {
            assert_eq!(int8(&action.params[0]), 17);
            match considered {
                Some(height) => rows(vec![vec![Value::Int8(height)]]),
                None => rows(vec![vec![Value::Null]]),
            }
        } else {
            assert_eq!(action.sql, sql::GET_LEAST_TXO_HEIGHT);
            assert_eq!(bytes(&action.params[0]), &[1u8; 32]);
            assert_eq!(int8(&action.params[1]), considered.unwrap() + 1);
            match sweep {
                Some(height) => rows(vec![vec![Value::Int8(height)]]),
                None => rows(vec![]),
            }
        }
    })
}

#[test]
fn withdrawal_is_active_until_the_sweep_after_it_is_confirmed() {
    assert!(!active(None, None, 6).unwrap());
    assert!(active(Some(80), None, 6).unwrap());
    assert!(active(Some(80), Some(94), 6).unwrap());
    assert!(!active(Some(80), Some(93), 6).unwrap());
    assert!(active(Some(80), Some(93), 7).unwrap());
    assert!(active(Some(80), Some(101), 0).unwrap());
    assert!(matches!(active(Some(i64::MAX), None, 6), Err(StoreError::ConversionDatabaseInt)));
    let large = QualifiedRequestId { request_id: 1 << 63, ..ID };
    let step = store().is_withdrawal_active(&large, &tip_ref(100), 6);
    assert!(matches!(step, Step::Done(Err(StoreError::ConversionDatabaseInt))));
}

#[test]
fn written_withdrawal_request_reads_back() {
    let request = WithdrawalRequest {
        request_id: 17,
        txid: StacksTxId([4; 32]),
        block_hash: StacksBlockHash([5; 32]),
        recipient: ScriptPubKey(vec![0x51]),
        amount: 50_000,
        max_fee: 900,
        sender_address: "ST111".to_string(),
        bitcoin_block_height: BitcoinBlockHeight(120),
    };
    let mut params = Some(first(store().write_withdrawal_request(&request)).params);
    let read = drive(store().get_pending_withdrawal_requests(&TIP, 20, &SIGNER), |action| {
        if statement(action).sql == sql::GET_STACKS_CHAIN_TIP {
            rows(vec![stacks_tip_row()])
        } else {
            rows(vec![params.take().unwrap()])
        }
    });
    assert_eq!(read.unwrap(), vec![request]);
}

#[test]
fn withdrawal_decision_reads_back() {
    let decision = WithdrawalSigner {
        request_id: 17,
        txid: StacksTxId([4; 32]),
        block_hash: StacksBlockHash([5; 32]),
        signer_pub_key: SIGNER,
        is_accepted: true,
    };
    let mut params = Some(first(store().write_withdrawal_signer_decision(&decision)).params);
    let read = drive(store().get_withdrawal_signers(17, &StacksBlockHash([5; 32])), |action| {
        let asked = statement(action);
        assert_eq!(int8(&asked.params[0]), 17);
        rows(vec![params.take().unwrap()])
    });
    assert_eq!(read.unwrap(), vec![decision]);
}

#[test]
fn withdrawal_votes_are_asked_for() {
    let asked = first(store().get_withdrawal_request_signer_votes(&ID, &SIGNER));
    assert_eq!(bytes(&asked.params[0]), &[3u8; 33]);
    assert_eq!(bytes(&asked.params[1]), &[4u8; 32]);
    assert_eq!(bytes(&asked.params[2]), &[5u8; 32]);
    assert_eq!(int8(&asked.params[3]), 17);
}

#[test]
fn events_are_stored() {
    let accept = WithdrawalAcceptEvent {
        txid: StacksTxId([1; 32]),
        block_id: StacksBlockHash([2; 32]),
        request_id: 17,
        signer_bitmap: [0xf0; 16],
        outpoint: OutPoint { txid: BitcoinTxId([6; 32]), vout: 1 },
        fee: 300,
        sweep_block_hash: BitcoinBlockHash([7; 32]),
        sweep_block_height: BitcoinBlockHeight(130),
        sweep_txid: BitcoinTxId([8; 32]),
    };
    let asked = first(store().write_withdrawal_accept_event(&accept));
    assert_eq!(asked.params.len(), 10);
    assert_eq!(bytes(&asked.params[3]), &[0xf0u8; 16]);
    assert_eq!(int8(&asked.params[5]), 1);
    assert_eq!(int8(&asked.params[6]), 300);
    let reject = WithdrawalRejectEvent {
        txid: StacksTxId([1; 32]),
        block_id: StacksBlockHash([2; 32]),
        request_id: 1 << 63,
        signer_bitmap: [0; 16],
    };
    let step = store().write_withdrawal_reject_event(&reject);
    assert!(matches!(step, Step::Done(Err(StoreError::ConversionDatabaseInt))));
    let output = WithdrawalTxOutput { txid: BitcoinTxId([6; 32]), output_index: 2, request_id: 17 };
    let asked = first(store().write_withdrawal_tx_output(&output));
    assert_eq!(int4(&asked.params[1]), 2);
    assert_eq!(int8(&asked.params[2]), 17);
}

fn proposed(request_id: u64) -> BitcoinWithdrawalOutput {
    BitcoinWithdrawalOutput {
        bitcoin_txid: BitcoinTxId([1; 32]),
        bitcoin_chain_tip: BitcoinBlockHash([2; 32]),
        output_index: 3,
        request_id,
        stacks_txid: StacksTxId([4; 32]),
        stacks_block_hash: StacksBlockHash([5; 32]),
        validation_result: "no_vote".to_string(),
        is_valid_tx: false,
    }
}

#[test]
fn proposed_outputs_are_stored_by_columns() {
    assert!(matches!(store().write_bitcoin_withdrawals_outputs(&[]), Step::Done(Ok(()))));
    let asked = first(store().write_bitcoin_withdrawals_outputs(&[proposed(17), proposed(18)]));
    assert_eq!(asked.params.len(), 8);
    match (&asked.params[2], &asked.params[3], &asked.params[6], &asked.params[7]) {
        (
            Value::Int4Array(indexes),
            Value::Int8Array(requests),
            Value::TextArray(results),
            Value::BoolArray(valid),
        ) => {
            assert_eq!(indexes, &vec![3, 3]);
            assert_eq!(requests, &vec![17i64, 18]);
            assert_eq!(results[1], "no_vote");
            assert_eq!(valid, &vec![false, false]);
        }
        _ => panic!("no arrays"),
    }
    let step = store().write_bitcoin_withdrawals_outputs(&[proposed(17), proposed(1 << 63)]);
    assert!(matches!(step, Step::Done(Err(StoreError::ConversionDatabaseInt))));
}
