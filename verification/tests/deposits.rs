use sbtc_store::convert::LockTime;
use sbtc_store::deposits::DepositConfirmationStatus;
use sbtc_store::error::{DbError, StoreError};
use sbtc_store::limits::DEPOSIT_LOCKTIME_BLOCK_BUFFER;
use sbtc_store::model::{
    BitcoinBlockHash, BitcoinBlockHeight, BitcoinTxId, CompletedDepositEvent, DepositRequest,
    DepositSigner, DkgSharesStatus, OutPoint, PublicKey, PublicKeyXOnly, ScriptPubKey,
    SignerVote, StacksBlockHash, StacksTxId,
};
use sbtc_store::procedure::{Procedure, Step};
use sbtc_store::sql;
use sbtc_store::store::PgStore;
use sbtc_store::value::{Action, ColumnKey, PgEnum, Reply, Response, Row, Statement, Value};

fn store() -> PgStore<()> {
    PgStore::from(())
}

/// Drives an operation to its end, with the given answers.
fn drive<P: Procedure>(
    mut step: Step<P, P::Output>,
    mut answer: impl FnMut(Action) -> Response,
) -> Result<P::Output, StoreError> {
    loop {
        match step {
            Step::Ask(action, state) => step = state.resume(answer(action)),
            Step::Done(result) => return result,
        }
    }
}

/// The statement that an operation runs first.
fn first<S, T>(step: Step<S, T>) -> Statement {
    match step {
        Step::Ask(Action::Run(statement), _) => statement,
        _ => panic!("no statement"),
    }
}

/// The statement of an action.
fn statement(action: Action) -> Statement {
    match action {
        Action::Run(statement) => statement,
        _ => panic!("no statement"),
    }
}

fn rows(rows: Vec<Vec<Value>>) -> Response {
    Ok(Reply { rows: rows.into_iter().map(|values| Row { values }).collect(), rows_affected: 0 })
}

fn bytes(value: &Value) -> &[u8] {
    match value {
        Value::Bytes(bytes) => bytes,
        _ => panic!("no bytes"),
    }
}

fn int4(value: &Value) -> i32 {
    match value {
        Value::Int4(number) => *number,
        _ => panic!("no integer"),
    }
}

fn int8(value: &Value) -> i64 {
    match value {
        Value::Int8(number) => *number,
        _ => panic!("no bigint"),
    }
}

const TIP: BitcoinBlockHash = BitcoinBlockHash([1; 32]);

const TXID: BitcoinTxId = BitcoinTxId([2; 32]);

const SIGNER: PublicKey = PublicKey([3; 33]);

fn request(index: u32, senders: Vec<Vec<u8>>) -> DepositRequest {
    DepositRequest {
        txid: TXID,
        output_index: index,
        spend_script: vec![0x51],
        reclaim_script: vec![0x52, 0x53],
        recipient: "ST000".to_string(),
        amount: 70_000,
        max_fee: 800,
        lock_time: 150,
        signers_public_key: PublicKeyXOnly([4; 32]),
        sender_script_pub_keys: senders.into_iter().map(ScriptPubKey).collect(),
    }
}

#[test]
fn written_deposit_request_reads_back() {
    let deposit = request(1, vec![vec![0xab], vec![0xcd, 0xef]]);
    let written = first(store().write_deposit_request(&deposit));
    assert_eq!(written.params.len(), 10);
    let mut params = Some(written.params);
    let read = drive(store().get_deposit_request(&TXID, 1), |action| {
        let asked = statement(action);
        assert_eq!(bytes(&asked.params[0]), &[2u8; 32]);
        assert_eq!(int4(&asked.params[1]), 1);
        rows(vec![params.take().unwrap()])
    });
    assert_eq!(read.unwrap(), Some(deposit));
}

#[test]
fn deposit_request_without_senders_reads_back() {
    let deposit = request(1, vec![]);
    let mut params = Some(first(store().write_deposit_request(&deposit)).params);
    let read = drive(store().get_deposit_request(&TXID, 1), |_| {
        rows(vec![params.take().unwrap()])
    });
    assert_eq!(read.unwrap(), Some(deposit));
}

#[test]
fn deposit_requests_are_stored_by_columns() {
    let deposits = vec![
        request(1, vec![vec![0xab], vec![0xcd, 0x0f]]),
        request(2, vec![vec![0x00]]),
        request(3, vec![]),
    ];
    let asked = first(store().write_deposit_requests(deposits));
    assert_eq!(asked.sql, sql::WRITE_DEPOSIT_REQUESTS);
    assert_eq!(asked.params.len(), 10);
    match (&asked.params[1], &asked.params[4], &asked.params[5], &asked.params[7], &asked.params[9]) {
        (
            Value::Int4Array(indexes),
            Value::TextArray(recipients),
            Value::Int8Array(amounts),
            Value::Int8Array(lock_times),
            Value::TextArray(senders),
        ) => {
            assert_eq!(indexes, &vec![1, 2, 3]);
            assert_eq!(recipients.len(), 3);
            assert_eq!(recipients[2], "ST000");
            assert_eq!(amounts, &vec![70_000i64; 3]);
            assert_eq!(lock_times, &vec![150i64; 3]);
            assert_eq!(senders, &vec!["ab,cd0f".to_string(), "00".to_string(), String::new()]);
        }
        _ => panic!("no arrays"),
    }
}

#[test]
fn deposit_requests_that_do_not_fit_are_refused() {
    assert!(matches!(store().write_deposit_requests(vec![]), Step::Done(Ok(()))));
    let step = store().write_deposit_requests(vec![request(1, vec![]), request(1 << 31, vec![])]);
    assert!(matches!(step, Step::Done(Err(StoreError::ConversionDatabaseInt))));
    let mut rich = request(1, vec![]);
    rich.amount = 1 << 63;
    let step = store().write_deposit_request(&rich);
    assert!(matches!(step, Step::Done(Err(StoreError::ConversionDatabaseInt))));
    let step = store().write_deposit_requests(vec![rich]);
    assert!(matches!(step, Step::Done(Err(StoreError::ConversionDatabaseInt))));
    let step = store().get_deposit_request(&TXID, 1 << 31);
    assert!(matches!(step, Step::Done(Err(StoreError::ConversionDatabaseInt))));
}

fn summary_row(confirmed: bool, lock_time: i64) -> Vec<Value> {
    vec![
        Value::Bool(true),
        Value::Null,
        Value::Int8(70_000),
        Value::Int8(800),
        Value::Int8(lock_time),
        Value::Bytes(vec![0x51]),
        Value::Bytes(vec![0x52]),
        Value::Bytes(vec![4; 32]),
        if confirmed { Value::Int8(90) } else { Value::Null },
        if confirmed { Value::Bytes(vec![6; 32]) } else { Value::Null },
    ]
}

fn shares_row(status: &str) -> Vec<Value> {
    vec![
        Value::Bytes(vec![7; 33]),
        Value::Bytes(vec![7; 33]),
        Value::Bytes(vec![0x51]),
        Value::Bytes(vec![]),
        Value::Bytes(vec![]),
        Value::BytesArray(vec![vec![3; 33]]),
        Value::Int4(2),
        Value::Label(PgEnum::DkgSharesStatus, status.to_string()),
        Value::Bytes(vec![6; 32]),
        Value::Int8(10),
    ]
}

/// Answers the statements of a report.
fn answer(action: Action, confirmed: bool, swept: bool, lock_time: i64) -> Response {
    let action = statement(action);
    if action.sql == sql::GET_DEPOSIT_REQUEST_LEAST_HEIGHT {
        rows(vec![vec![Value::Int8(88)]])
    } else if action.sql == sql::GET_DEPOSIT_REQUEST_STATUS_SUMMARY {
        assert_eq!(bytes(&action.params[0]), &[1u8; 32]);
        assert_eq!(int8(&action.params[1]), 88);
        assert_eq!(bytes(&action.params[2]), &[2u8; 32]);
        assert_eq!(int4(&action.params[3]), 5);
        assert_eq!(bytes(&action.params[4]), &[3u8; 33]);
        rows(vec![summary_row(confirmed, lock_time)])
    } else if action.sql == sql::GET_DEPOSIT_SWEEP_TXID {
        assert!(confirmed);
        assert_eq!(int8(&action.params[1]), 90);
        if swept {
            rows(vec![vec![Value::Bytes(vec![8; 32])]])
        } else {
            rows(vec![])
        }
    } else {
        assert_eq!(action.sql, sql::GET_ENCRYPTED_DKG_SHARES);
        assert_eq!(bytes(&action.params[0]), &[4u8; 32]);
        rows(vec![shares_row("unverified")])
    }
}

#[test]
fn report_on_a_confirmed_deposit() {
    let step = store().get_deposit_request_report(&TIP, &TXID, 5, &SIGNER);
    let report = drive(step, |action| answer(action, true, false, 150)).unwrap().unwrap();
    assert_eq!(
        report.status,
        DepositConfirmationStatus::Confirmed(BitcoinBlockHeight(90), BitcoinBlockHash([6; 32]))
    );
    assert_eq!(report.can_accept, Some(true));
    assert_eq!(report.can_sign, None);
    assert_eq!(report.amount, 70_000);
    assert_eq!(report.max_fee, 800);
    assert_eq!(report.lock_time, LockTime::Blocks(150));
    assert_eq!(report.outpoint, OutPoint { txid: TXID, vout: 5 });
    assert_eq!(report.deposit_script, ScriptPubKey(vec![0x51]));
    assert_eq!(report.reclaim_script, ScriptPubKey(vec![0x52]));
    assert_eq!(report.signers_public_key, PublicKeyXOnly([4; 32]));
    assert_eq!(report.dkg_shares_status, Some(DkgSharesStatus::Unverified));
}

#[test]
fn report_on_a_swept_deposit() {
    let step = store().get_deposit_request_report(&TIP, &TXID, 5, &SIGNER);
    let report = drive(step, |action| answer(action, true, true, 150)).unwrap().unwrap();
    assert_eq!(report.status, DepositConfirmationStatus::Spent(BitcoinTxId([8; 32])));
}

#[test]
fn report_on_an_unconfirmed_deposit() {
    let step = store().get_deposit_request_report(&TIP, &TXID, 5, &SIGNER);
    let report = drive(step, |action| answer(action, false, true, 150)).unwrap().unwrap();
    assert_eq!(report.status, DepositConfirmationStatus::Unconfirmed);
}

#[test]
fn report_needs_both_height_and_hash_for_a_confirmation() {
    let step = store().get_deposit_request_report(&TIP, &TXID, 5, &SIGNER);
    let report = drive(step, |action| {
        let action = statement(action);
        if action.sql == sql::GET_DEPOSIT_REQUEST_LEAST_HEIGHT {
            rows(vec![vec![Value::Int8(88)]])
        } else if action.sql == sql::GET_DEPOSIT_REQUEST_STATUS_SUMMARY {
            let mut row = summary_row(true, 150);
            row[9] = Value::Null;
            rows(vec![row])
        } else {
            assert_eq!(action.sql, sql::GET_ENCRYPTED_DKG_SHARES);
            rows(vec![])
        }
    });
    let report = report.unwrap().unwrap();
    assert_eq!(report.status, DepositConfirmationStatus::Unconfirmed);
    assert_eq!(report.dkg_shares_status, None);
}

#[test]
fn report_reads_the_lock_time() {
    let timed = |lock_time: i64| {
        let step = store().get_deposit_request_report(&TIP, &TXID, 5, &SIGNER);
        drive(step, |action| answer(action, true, false, lock_time))
    };
    assert_eq!(timed(0x0040_0007).unwrap().unwrap().lock_time, LockTime::Time(7));
    assert_eq!(timed(0x0001_0009).unwrap().unwrap().lock_time, LockTime::Blocks(9));
    assert!(matches!(timed(0x8000_0001), Err(StoreError::DisabledLockTime(0x8000_0001))));
    assert!(matches!(
        timed(0x1_0000_0000),
        Err(StoreError::SqlxQuery(DbError::ColumnDecode))
    ));
}

#[test]
fn report_on_an_unknown_deposit_is_missing() {
    let step = store().get_deposit_request_report(&TIP, &TXID, 5, &SIGNER);
    let report = drive(step, |action| {
        assert_eq!(statement(action).sql, sql::GET_DEPOSIT_REQUEST_LEAST_HEIGHT);
        rows(vec![])
    });
    assert!(report.unwrap().is_none());
    let step = store().get_deposit_request_status_summary(&TIP, &TXID, 5, &SIGNER);
    let summary = drive(step, |action| {
        if statement(action).sql == sql::GET_DEPOSIT_REQUEST_LEAST_HEIGHT {
            rows(vec![vec![Value::Int8(88)]])
        } else {
            rows(vec![])
        }
    });
    assert!(summary.unwrap().is_none());
    assert!(sql::GET_DEPOSIT_REQUEST_STATUS_SUMMARY
        .contains("ORDER BY bc.block_height DESC NULLS LAST"));
    let step = store().get_deposit_request_report(&TIP, &TXID, 1 << 31, &SIGNER);
    assert!(matches!(step, Step::Done(Err(StoreError::ConversionDatabaseInt))));
}

#[test]
fn label_that_is_no_status_cannot_be_read() {
    let shares = drive(store().get_encrypted_dkg_shares(PublicKeyXOnly([4; 32])), |_| {
        rows(vec![shares_row("pending")])
    });
    assert!(matches!(shares, Err(StoreError::SqlxQuery(DbError::ColumnDecode))));
}

/// The unlock height that is asked for at a chain tip.
fn unlock_height(tip_height: i64) -> Result<i32, StoreError> {
    let mut asked: i32 = 0;
    let found = drive(store().get_pending_accepted_deposit_requests(&TIP, 20, 7), |action| {
        let action = statement(action);
        if action.sql == sql::GET_BITCOIN_BLOCK {
            rows(vec![vec![
                Value::Bytes(vec![1; 32]),
                Value::Int8(tip_height),
                Value::Bytes(vec![0; 32]),
            ]])
        } else {
            assert_eq!(action.sql, sql::GET_PENDING_ACCEPTED_DEPOSIT_REQUESTS);
            assert_eq!(int4(&action.params[1]), 20);
            assert_eq!(int4(&action.params[2]), 7);
            asked = int4(&action.params[3]);
            rows(vec![])
        }
    });
    assert!(found?.is_empty());
    Ok(asked)
}

#[test]
fn accepted_deposits_stay_locked_for_long_enough() {
    let buffer = DEPOSIT_LOCKTIME_BLOCK_BUFFER as i32;
    assert_eq!(unlock_height(800_000).unwrap(), 800_000 + buffer + 1);
    assert_eq!(unlock_height(0).unwrap(), buffer + 1);
    assert_eq!(unlock_height((i32::MAX - buffer - 1) as i64).unwrap(), i32::MAX);
}

#[test]
fn unlock_height_has_to_fit_into_its_parameter() {
    let buffer = DEPOSIT_LOCKTIME_BLOCK_BUFFER as i64;
    for height in [i32::MAX as i64 - buffer, i32::MAX as i64, (1 << 32) + 5, i64::MAX] {
        assert!(matches!(unlock_height(height), Err(StoreError::ConversionDatabaseInt)));
    }
}

#[test]
fn accepted_deposits_need_the_chain_tip() {
    let result = drive(store().get_pending_accepted_deposit_requests(&TIP, 20, 7), |_| {
        rows(vec![])
    });
    assert!(matches!(result, Err(StoreError::MissingBitcoinBlock(hash)) if hash == TIP));
}

#[test]
fn swept_deposits_need_a_stacks_chain_tip() {
    let none = drive(store().get_swept_deposit_requests(&TIP, 20), |action| {
        assert_eq!(statement(action).sql, sql::GET_STACKS_CHAIN_TIP);
        rows(vec![])
    });
    assert!(none.unwrap().is_empty());
    let found = drive(store().get_swept_deposit_requests(&TIP, 20), |action| {
        let action = statement(action);
        if action.sql == sql::GET_STACKS_CHAIN_TIP {
            rows(vec![vec![
                Value::Bytes(vec![11; 32]),
                Value::Int8(4),
                Value::Bytes(vec![12; 32]),
                Value::Bytes(vec![1; 32]),
            ]])
        } else {
            assert_eq!(bytes(&action.params[2]), &[11u8; 32]);
            rows(vec![vec![
                Value::Bytes(vec![8; 32]),
                Value::Bytes(vec![6; 32]),
                Value::Int8(91),
                Value::Bytes(vec![2; 32]),
                Value::Int4(5),
                Value::Text("ST000".to_string()),
                Value::Int8(70_000),
                Value::Int8(800),
            ]])
        }
    });
    let found = found.unwrap();
    assert_eq!(found.len(), 1);
    assert_eq!(found[0].sweep_txid, BitcoinTxId([8; 32]));
    assert_eq!(found[0].output_index, 5);
    assert_eq!(found[0].recipient, "ST000");
}

#[test]
fn votes_keep_their_order() {
    let votes = drive(store().get_deposit_request_signer_votes(&TXID, u32::MAX, &SIGNER), |action| {
        let asked = statement(action);
        assert_eq!(int8(&asked.params[2]), u32::MAX as i64);
        rows(vec![
            vec![Value::Bytes(vec![2; 33]), Value::Bool(false)],
            vec![Value::Bytes(vec![1; 33]), Value::Null],
        ])
    });
    assert_eq!(
        votes.unwrap().0,
        vec![
            SignerVote { signer_public_key: PublicKey([2; 33]), is_accepted: Some(false) },
            SignerVote { signer_public_key: PublicKey([1; 33]), is_accepted: None },
        ]
    );
}

#[test]
fn decisions_read_back() {
    let decision = DepositSigner {
        txid: TXID,
        output_index: 5,
        signer_pub_key: SIGNER,
        can_accept: true,
        can_sign: false,
    };
    let mut params = Some(first(store().write_deposit_signer_decision(&decision)).params);
    let read = drive(store().get_deposit_signers(&TXID, 5), |_| {
        rows(vec![params.take().unwrap()])
    });
    assert_eq!(read.unwrap(), vec![decision]);
    let mut params = Some(first(store().write_deposit_signer_decision(&decision)).params);
    let read = drive(store().get_deposit_signer_decisions(&TIP, 20, &SIGNER), |action| {
        let asked = statement(action);
        assert_eq!(asked.columns[3].key, ColumnKey::Named("can_accept"));
        assert_eq!(asked.columns[4].key, ColumnKey::Named("can_sign"));
        rows(vec![params.take().unwrap()])
    });
    assert_eq!(read.unwrap(), vec![decision]);
}

#[test]
fn one_bad_row_spoils_a_list() {
    let found = drive(store().get_pending_deposit_requests(&TIP, 20, &SIGNER), |_| {
        let good = first(store().write_deposit_request(&request(1, vec![]))).params;
        rows(vec![good, vec![Value::Null]])
    });
    assert!(matches!(found, Err(StoreError::SqlxQuery(DbError::ColumnDecode))));
}

#[test]
fn deposit_is_known_and_can_be_signed() {
    let known = drive(store().deposit_request_exists(&TXID, 5), |_| {
        rows(vec![vec![Value::Bool(true)]])
    });
    assert!(known.unwrap());
    let signable = drive(store().can_sign_deposit_tx(&TXID, 5, &SIGNER), |_| {
        rows(vec![vec![Value::Bool(false)]])
    });
    assert_eq!(signable.unwrap(), Some(false));
}

#[test]
fn completion_is_stored() {
    let event = CompletedDepositEvent {
        txid: StacksTxId([1; 32]),
        block_id: StacksBlockHash([2; 32]),
        amount: 70_000,
        outpoint: OutPoint { txid: TXID, vout: u32::MAX },
        sweep_block_hash: BitcoinBlockHash([3; 32]),
        sweep_block_height: BitcoinBlockHeight(91),
        sweep_txid: BitcoinTxId([4; 32]),
    };
    let asked = first(store().write_completed_deposit_event(&event));
    assert_eq!(int8(&asked.params[2]), 70_000);
    assert_eq!(bytes(&asked.params[3]), &[2u8; 32]);
    assert_eq!(int8(&asked.params[4]), u32::MAX as i64);
    assert_eq!(int8(&asked.params[6]), 91);
    assert_eq!(bytes(&asked.params[7]), &[4u8; 32]);
}
