use sbtc_store::error::StoreError;
use sbtc_store::model::{
    BitcoinBlockHash, BitcoinBlockHeight, BitcoinBlockRef, BitcoinTxId, PublicKey,
    QualifiedRequestId, ScriptPubKey, SigHash, StacksBlockHash, StacksBlockHeight, StacksBlockId,
    StacksTxId, TxOutputType,
};
use sbtc_store::procedure::{Procedure, Step};
use sbtc_store::sql;
use sbtc_store::store::PgStore;
use sbtc_store::value::{Action, ColumnKey, Fetch, Reply, Response, Row, Statement, Value};

fn store() -> PgStore<()> {
    PgStore::from(())
}

/// Drives an operation to its end, with the given answers.
fn drive<P: Procedure>(
    mut step: Step<P, P::Output>,
    mut answer: impl FnMut(Action) -> Response,
) -> Result<P::Output, StoreError> {
    loop {
        match step {
            Step::Ask(action, state) => step = state.resume(answer(action)),
            Step::Done(result) => return result,
        }
    }
}

/// The statement that an operation runs first.
fn first<S, T>(step: Step<S, T>) -> Statement {
    match step {
        Step::Ask(Action::Run(statement), _) => statement,
        _ => panic!("no statement"),
    }
}

fn rows(rows: Vec<Vec<Value>>) -> Response {
    Ok(Reply { rows: rows.into_iter().map(|values| Row { values }).collect(), rows_affected: 0 })
}

fn bytes(value: &Value) -> &[u8] {
    match value {
        Value::Bytes(bytes) => bytes,
        _ => panic!("no bytes"),
    }
}

fn int4(value: &Value) -> i32 {
    match value {
        Value::Int4(number) => *number,
        _ => panic!("no integer"),
    }
}

fn int8(value: &Value) -> i64 {
    match value {
        Value::Int8(number) => *number,
        _ => panic!("no bigint"),
    }
}

const BLOCK: BitcoinBlockHash = BitcoinBlockHash([1; 32]);

const STACKS_BLOCK: StacksBlockHash = StacksBlockHash([2; 32]);

const TXID: BitcoinTxId = BitcoinTxId([3; 32]);

const KEY: PublicKey = PublicKey([4; 33]);

const ID: QualifiedRequestId = QualifiedRequestId {
    request_id: 17,
    txid: StacksTxId([5; 32]),
    block_hash: STACKS_BLOCK,
};

fn tip() -> BitcoinBlockRef {
    BitcoinBlockRef { block_hash: BLOCK, block_height: BitcoinBlockHeight(100) }
}

/// The statements with which operations start.
fn statements() -> Vec<Statement> {
    let height = BitcoinBlockHeight(9);
    vec![
        first(store().get_bitcoin_block(&BLOCK)),
        first(store().get_stacks_block(&STACKS_BLOCK)),
        first(store().get_bitcoin_canonical_chain_tip()),
        first(store().get_bitcoin_canonical_chain_tip_ref()),
        first(store().get_stacks_chain_tip(&BLOCK)),
        first(store().get_bitcoin_blocks_with_transaction(&TXID)),
        first(store().stacks_block_exists(StacksBlockId([6; 32]))),
        first(store().is_known_bitcoin_block_hash(&BLOCK)),
        first(store().in_canonical_bitcoin_blockchain(&tip(), &tip())),
        first(store().in_canonical_stacks_blockchain(
            &STACKS_BLOCK,
            &STACKS_BLOCK,
            StacksBlockHeight(3),
        )),
        first(store().get_deposit_request(&TXID, 1)),
        first(store().get_deposit_request_least_height(&TXID, 1)),
        first(store().get_deposit_sweep_txid(&BLOCK, &TXID, 1, height)),
        first(store().get_pending_deposit_requests(&BLOCK, 20, &KEY)),
        first(store().get_deposit_request_signer_votes(&TXID, 1, &KEY)),
        first(store().get_deposit_signers(&TXID, 1)),
        first(store().can_sign_deposit_tx(&TXID, 1, &KEY)),
        first(store().deposit_request_exists(&TXID, 1)),
        first(store().get_deposit_signer_decisions(&BLOCK, 20, &KEY)),
        first(store().get_withdrawal_request_status_summary(&ID, &KEY)),
        first(store().get_withdrawal_sweep_info(&BLOCK, &ID)),
        first(store().get_withdrawal_request_signer_votes(&ID, &KEY)),
        first(store().get_withdrawal_signers(17, &STACKS_BLOCK)),
        first(store().get_pending_accepted_withdrawal_requests(&BLOCK, &STACKS_BLOCK, height, 2)),
        first(store().compute_withdrawn_total(&BLOCK, 20)),
        first(store().get_withdrawal_signer_decisions(&BLOCK, 20, &KEY)),
        first(store().is_withdrawal_active(&ID, &tip(), 6)),
        first(store().get_encrypted_dkg_shares(KEY.x_only())),
        first(store().get_latest_encrypted_dkg_shares()),
        first(store().get_latest_verified_dkg_shares()),
        first(store().get_encrypted_dkg_shares_count()),
        first(store().get_signers_script_pubkeys()),
        first(store().is_signer_script_pub_key(&ScriptPubKey(vec![]))),
        first(store().revoke_dkg_shares(KEY.x_only())),
        first(store().verify_dkg_shares(KEY.x_only())),
        first(store().get_utxo(&BLOCK, TxOutputType::SignersOutput, height)),
        first(store().get_least_txo_height(&BLOCK, height)),
        first(store().minimum_donation_txo_height()),
        first(store().minimum_utxo_height()),
        first(store().will_sign_bitcoin_tx_sighash(&SigHash([7; 32]))),
    ]
}

#[test]
fn statements_have_as_many_parameters_as_they_name() {
    for statement in statements() {
        let count = statement.params.len();
        assert!(!statement.sql.contains(&format!("${}", count + 1)), "{}", statement.sql);
        for number in 1..=count {
            assert!(statement.sql.contains(&format!("${number}")), "{}", statement.sql);
        }
    }
}

#[test]
fn columns_that_are_read_are_selected() {
    for statement in statements() {
        for column in &statement.columns {
            if let ColumnKey::Named(name) = column.key {
                assert!(statement.sql.contains(name), "{} in {}", name, statement.sql);
            }
        }
    }
}

#[test]
fn statements_without_rows_read_no_columns() {
    for statement in statements() {
        assert_eq!(statement.fetch == Fetch::Nothing, statement.columns.is_empty());
    }
}

#[test]
fn parameters_come_in_the_order_of_the_statement() {
    let asked = first(store().get_deposit_sweep_txid(&BLOCK, &TXID, 1, BitcoinBlockHeight(9)));
    assert_eq!(bytes(&asked.params[0]), &[1u8; 32]);
    assert_eq!(int8(&asked.params[1]), 9);
    assert_eq!(bytes(&asked.params[2]), &[3u8; 32]);
    assert_eq!(int4(&asked.params[3]), 1);
    let asked = first(store().get_withdrawal_sweep_info(&BLOCK, &ID));
    assert_eq!(bytes(&asked.params[0]), &[1u8; 32]);
    assert_eq!(int8(&asked.params[1]), 17);
    assert_eq!(bytes(&asked.params[2]), &[2u8; 32]);
    let asked = first(store().get_least_txo_height(&BLOCK, BitcoinBlockHeight(9)));
    assert_eq!(int8(&asked.params[1]), 9);
}

#[test]
fn heights_are_read() {
    let least = drive(store().get_deposit_request_least_height(&TXID, 1), |_| {
        rows(vec![vec![Value::Int8(55)]])
    });
    assert_eq!(least.unwrap(), Some(BitcoinBlockHeight(55)));
    let donation = drive(store().minimum_donation_txo_height(), |_| rows(vec![]));
    assert_eq!(donation.unwrap(), None);
}
