use sbtc_store::error::{DbError, StoreError};
use sbtc_store::model::{
    BitcoinBlock, BitcoinBlockHash, BitcoinBlockHeight, BitcoinBlockRef, BitcoinTxId,
    BitcoinTxRef, StacksBlock, StacksBlockHash, StacksBlockHeight, StacksBlockId,
};
use sbtc_store::procedure::{Procedure, Step};
use sbtc_store::sql;
use sbtc_store::store::PgStore;
use sbtc_store::value::{Action, ColumnKey, Fetch, Kind, Reply, Response, Row, Statement, Value};

fn store() -> PgStore<()> {
    PgStore::from(())
}

/// Drives an operation to its end, with the given answers.
fn drive<P: Procedure>(
    mut step: Step<P, P::Output>,
    mut answer: impl FnMut(Action) -> Response,
) -> Result<P::Output, StoreError> {
    loop {
        match step {
            Step::Ask(action, state) => step = state.resume(answer(action)),
            Step::Done(result) => return result,
        }
    }
}

/// The statement that an operation runs first.
fn first<S, T>(step: Step<S, T>) -> Statement {
    match step {
        Step::Ask(Action::Run(statement), _) => statement,
        _ => panic!("no statement"),
    }
}

/// The statement of an action.
fn statement(action: Action) -> Statement {
    match action {
        Action::Run(statement) => statement,
        _ => panic!("no statement"),
    }
}

fn rows(rows: Vec<Vec<Value>>) -> Response {
    Ok(Reply { rows: rows.into_iter().map(|values| Row { values }).collect(), rows_affected: 0 })
}

fn bytes(value: &Value) -> &[u8] {
    match value {
        Value::Bytes(bytes) => bytes,
        _ => panic!("no bytes"),
    }
}

fn int8(value: &Value) -> i64 {
    match value {
        Value::Int8(number) => *number,
        _ => panic!("no bigint"),
    }
}

fn block(height: u64) -> BitcoinBlock {
    BitcoinBlock {
        block_hash: BitcoinBlockHash([1; 32]),
        block_height: BitcoinBlockHeight(height),
        parent_hash: BitcoinBlockHash([2; 32]),
    }
}

fn stacks_block(height: u64) -> StacksBlock {
    StacksBlock {
        block_hash: StacksBlockHash([3; 32]),
        block_height: StacksBlockHeight(height),
        parent_hash: StacksBlockHash([4; 32]),
        bitcoin_anchor: BitcoinBlockHash([5; 32]),
    }
}

fn block_row(height: i64) -> Vec<Value> {
    vec![Value::Bytes(vec![1; 32]), Value::Int8(height), Value::Bytes(vec![2; 32])]
}

#[test]
fn bitcoin_block_is_asked_for_by_its_hash() {
    let asked = first(store().get_bitcoin_block(&BitcoinBlockHash([9; 32])));
    assert_eq!(asked.sql, sql::GET_BITCOIN_BLOCK);
    assert_eq!(asked.fetch, Fetch::Optional);
    assert_eq!(asked.params.len(), 1);
    assert_eq!(bytes(&asked.params[0]), &[9u8; 32]);
    assert_eq!(asked.columns.len(), 3);
    assert_eq!(asked.columns[1].key, ColumnKey::Named("block_height"));
    assert_eq!(asked.columns[1].kind, Kind::Int8);
}

#[test]
fn bitcoin_block_is_read() {
    let hash = BitcoinBlockHash([1; 32]);
    let found = drive(store().get_bitcoin_block(&hash), |_| rows(vec![block_row(7)]));
    assert_eq!(found.unwrap(), Some(block(7)));
    let missing = drive(store().get_bitcoin_block(&hash), |_| rows(vec![]));
    assert_eq!(missing.unwrap(), None);
}

#[test]
fn written_bitcoin_block_reads_back() {
    let written = first(store().write_bitcoin_block(&block(1 << 40)));
    assert_eq!(written.sql, sql::WRITE_BITCOIN_BLOCK);
    let mut params = Some(written.params);
    let read = drive(store().get_bitcoin_block(&BitcoinBlockHash([1; 32])), |_| {
        rows(vec![params.take().unwrap()])
    });
    assert_eq!(read.unwrap(), Some(block(1 << 40)));
}

#[test]
fn written_stacks_block_reads_back() {
    let written = first(store().write_stacks_block(&stacks_block(12)));
    let mut params = Some(written.params);
    let read = drive(store().get_stacks_block(&StacksBlockHash([3; 32])), |_| {
        rows(vec![params.take().unwrap()])
    });
    assert_eq!(read.unwrap(), Some(stacks_block(12)));
}

#[test]
fn failed_query_is_reported() {
    let result = drive(store().get_bitcoin_block(&BitcoinBlockHash([1; 32])), |_| {
        Err(sqlx::Error::PoolTimedOut)
    });
    assert!(matches!(
        result,
        Err(StoreError::SqlxQuery(DbError::Sqlx(sqlx::Error::PoolTimedOut)))
    ));
}

#[test]
fn row_that_cannot_be_read_is_reported() {
    let hash = BitcoinBlockHash([1; 32]);
    let negative = drive(store().get_bitcoin_block(&hash), |_| rows(vec![block_row(-1)]));
    assert!(matches!(negative, Err(StoreError::SqlxQuery(DbError::ColumnDecode))));
    let short = drive(store().get_bitcoin_block(&hash), |_| {
        rows(vec![vec![Value::Bytes(vec![1; 31]), Value::Int8(7), Value::Bytes(vec![2; 32])]])
    });
    assert!(matches!(short, Err(StoreError::SqlxQuery(DbError::ColumnDecode))));
    let null = drive(store().get_bitcoin_block(&hash), |_| {
        rows(vec![vec![Value::Bytes(vec![1; 32]), Value::Null, Value::Bytes(vec![2; 32])]])
    });
    assert!(matches!(null, Err(StoreError::SqlxQuery(DbError::ColumnDecode))));
    let narrow = drive(store().get_bitcoin_block(&hash), |_| rows(vec![vec![Value::Int8(7)]]));
    assert!(matches!(narrow, Err(StoreError::SqlxQuery(DbError::ColumnDecode))));
}

#[test]
fn row_that_has_to_be_there_is_missed() {
    let result = drive(store().is_known_bitcoin_block_hash(&BitcoinBlockHash([1; 32])), |_| {
        rows(vec![])
    });
    assert!(matches!(result, Err(StoreError::SqlxQuery(DbError::RowNotFound))));
}

#[test]
fn chain_tip_is_the_hash_of_the_block() {
    let tip = drive(store().get_bitcoin_canonical_chain_tip(), |action| {
        assert_eq!(statement(action).sql, sql::GET_BITCOIN_CANONICAL_CHAIN_TIP);
        rows(vec![block_row(7)])
    });
    assert_eq!(tip.unwrap(), Some(BitcoinBlockHash([1; 32])));
    let none = drive(store().get_bitcoin_canonical_chain_tip(), |_| rows(vec![]));
    assert_eq!(none.unwrap(), None);
}

#[test]
fn chain_tip_ref_has_the_height() {
    let tip = drive(store().get_bitcoin_canonical_chain_tip_ref(), |_| {
        rows(vec![vec![Value::Bytes(vec![1; 32]), Value::Int8(7)]])
    });
    let tip = tip.unwrap().unwrap();
    assert_eq!(tip.block_height, BitcoinBlockHeight(7));
}

#[test]
fn blocks_with_transaction_keep_their_order() {
    let found = drive(store().get_bitcoin_blocks_with_transaction(&BitcoinTxId([8; 32])), |_| {
        rows(vec![
            vec![Value::Bytes(vec![8; 32]), Value::Bytes(vec![6; 32])],
            vec![Value::Bytes(vec![8; 32]), Value::Bytes(vec![5; 32])],
        ])
    });
    assert_eq!(found.unwrap(), vec![BitcoinBlockHash([6; 32]), BitcoinBlockHash([5; 32])]);
}

#[test]
fn stacks_block_exists_if_there_is_a_row() {
    let id = StacksBlockId([7; 32]);
    let known = drive(store().stacks_block_exists(id), |action| {
        let asked = statement(action);
        assert_eq!(bytes(&asked.params[0]), &[7u8; 32]);
        rows(vec![vec![Value::Bool(true)]])
    });
    assert!(known.unwrap());
    let unknown = drive(store().stacks_block_exists(id), |_| rows(vec![]));
    assert!(!unknown.unwrap());
}

#[test]
fn search_in_the_blockchain_is_as_deep_as_the_block() {
    let tip = BitcoinBlockRef {
        block_hash: BitcoinBlockHash([1; 32]),
        block_height: BitcoinBlockHeight(100),
    };
    let below = BitcoinBlockRef {
        block_hash: BitcoinBlockHash([2; 32]),
        block_height: BitcoinBlockHeight(97),
    };
    let asked = first(store().in_canonical_bitcoin_blockchain(&tip, &below));
    assert_eq!(bytes(&asked.params[0]), &[1u8; 32]);
    assert_eq!(bytes(&asked.params[1]), &[2u8; 32]);
    assert_eq!(int8(&asked.params[2]), 3);
    assert_eq!(int8(&asked.params[3]), 97);
    let asked = first(store().in_canonical_bitcoin_blockchain(&below, &tip));
    assert_eq!(int8(&asked.params[2]), 0);
    assert_eq!(int8(&asked.params[3]), 100);
}

#[test]
fn height_that_does_not_fit_is_refused() {
    let tip = BitcoinBlockRef {
        block_hash: BitcoinBlockHash([1; 32]),
        block_height: BitcoinBlockHeight(u64::MAX),
    };
    let genesis = BitcoinBlockRef {
        block_hash: BitcoinBlockHash([2; 32]),
        block_height: BitcoinBlockHeight(0),
    };
    let step = store().in_canonical_bitcoin_blockchain(&tip, &genesis);
    assert!(matches!(step, Step::Done(Err(StoreError::ConversionDatabaseInt))));
    let step = store().in_canonical_bitcoin_blockchain(&genesis, &tip);
    assert!(matches!(step, Step::Done(Err(StoreError::ConversionDatabaseInt))));
    let step = store().write_bitcoin_block(&block(1 << 63));
    assert!(matches!(step, Step::Done(Err(StoreError::ConversionDatabaseInt))));
    let step = store().in_canonical_stacks_blockchain(
        &StacksBlockHash([1; 32]),
        &StacksBlockHash([2; 32]),
        StacksBlockHeight(1 << 63),
    );
    assert!(matches!(step, Step::Done(Err(StoreError::ConversionDatabaseInt))));
    let asked = first(store().write_bitcoin_block(&block((1 << 63) - 1)));
    assert_eq!(int8(&asked.params[1]), i64::MAX);
}

#[test]
fn canonical_stacks_block_is_found() {
    let found = drive(
        store().in_canonical_stacks_blockchain(
            &StacksBlockHash([1; 32]),
            &StacksBlockHash([2; 32]),
            StacksBlockHeight(5),
        ),
        |action| {
            let asked = statement(action);
            assert_eq!(asked.fetch, Fetch::One);
            assert_eq!(bytes(&asked.params[0]), &[1u8; 32]);
            assert_eq!(int8(&asked.params[1]), 5);
            assert_eq!(bytes(&asked.params[2]), &[2u8; 32]);
            rows(vec![vec![Value::Bool(true)]])
        },
    );
    assert!(found.unwrap());
}

#[test]
fn writing_takes_effect() {
    let tx_ref = BitcoinTxRef { txid: BitcoinTxId([1; 32]), block_hash: BitcoinBlockHash([2; 32]) };
    let done = drive(store().write_bitcoin_transaction(&tx_ref), |action| {
        let asked = statement(action);
        assert_eq!(asked.fetch, Fetch::Nothing);
        assert_eq!(bytes(&asked.params[0]), &[1u8; 32]);
        assert_eq!(bytes(&asked.params[1]), &[2u8; 32]);
        rows(vec![])
    });
    assert!(done.is_ok());
    let failed = drive(store().write_bitcoin_transaction(&tx_ref), |_| {
        Err(sqlx::Error::PoolClosed)
    });
    assert!(matches!(failed, Err(StoreError::SqlxQuery(DbError::Sqlx(_)))));
}

#[test]
fn empty_batches_ask_for_nothing() {
    assert!(matches!(store().write_bitcoin_transactions(vec![]), Step::Done(Ok(()))));
    assert!(matches!(store().write_stacks_block_headers(vec![]), Step::Done(Ok(()))));
}

#[test]
fn transactions_are_stored_by_columns() {
    let txs = vec![
        BitcoinTxRef { txid: BitcoinTxId([1; 32]), block_hash: BitcoinBlockHash([2; 32]) },
        BitcoinTxRef { txid: BitcoinTxId([3; 32]), block_hash: BitcoinBlockHash([4; 32]) },
    ];
    let asked = first(store().write_bitcoin_transactions(txs));
    assert_eq!(asked.sql, sql::WRITE_BITCOIN_TRANSACTIONS);
    match (&asked.params[0], &asked.params[1]) {
        (Value::BytesArray(txids), Value::BytesArray(hashes)) => {
            assert_eq!(txids, &vec![vec![1u8; 32], vec![3u8; 32]]);
            assert_eq!(hashes, &vec![vec![2u8; 32], vec![4u8; 32]]);
        }
        _ => panic!("no arrays"),
    }
}

#[test]
fn block_headers_are_stored_by_columns() {
    let asked = first(store().write_stacks_block_headers(vec![stacks_block(10), stacks_block(11)]));
    match (&asked.params[1], &asked.params[2], &asked.params[3]) {
        (Value::BytesArray(parents), Value::Int8Array(heights), Value::BytesArray(anchors)) => {
            assert_eq!(parents, &vec![vec![4u8; 32], vec![4u8; 32]]);
            assert_eq!(heights, &vec![10i64, 11]);
            assert_eq!(anchors, &vec![vec![5u8; 32], vec![5u8; 32]]);
        }
        _ => panic!("no arrays"),
    }
}

#[test]
fn batch_with_a_height_that_does_not_fit_is_refused() {
    let step = store().write_stacks_block_headers(vec![stacks_block(10), stacks_block(u64::MAX)]);
    assert!(matches!(step, Step::Done(Err(StoreError::ConversionDatabaseInt))));
}
