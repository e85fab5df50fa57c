//! The errors of the store.

use crate::model::BitcoinBlockHash;
use vstd::prelude::*;

verus! {

/// Declares `sqlx::Error`, which the store carries through without looking
/// inside it.
#[verifier::external_type_specification]
#[verifier::external_body]
pub struct ExSqlxError(sqlx::Error);

/// Why a statement did not give the rows that were asked for.
#[derive(Debug)]
pub enum DbError {
    /// The database, or the way to it, failed.
    Sqlx(sqlx::Error),
    /// A statement that has to give a row gave none.
    RowNotFound,
    /// A row does not hold values of the kind that its columns promise.
    ColumnDecode,
}

/// What an operation of the store fails with.
#[derive(Debug)]
pub enum StoreError {
    /// Connecting to the database failed.
    SqlxConnect(sqlx::Error),
    /// Running a migration script failed.
    SqlxMigrate(sqlx::Error),
    /// Opening a transaction failed.
    SqlxBeginTransaction(sqlx::Error),
    /// Committing a transaction failed.
    SqlxCommitTransaction(sqlx::Error),
    /// Rolling a transaction back failed.
    SqlxRollbackTransaction(sqlx::Error),
    /// A query failed, or its rows could not be read.
    SqlxQuery(DbError),
    /// The migration script at the given path is not UTF-8.
    ReadSqlMigration(String),
    /// An integer does not fit into the integer type of its column.
    ConversionDatabaseInt,
    /// An integer from the database is out of the range of its meaning.
    TypeConversion,
    /// A lock time has its disable flag set.
    DisabledLockTime(u32),
    /// The bitcoin block with the given hash is not in the database.
    MissingBitcoinBlock(BitcoinBlockHash),
    /// No stacks block is anchored to the given bitcoin blockchain.
    NoStacksChainTip,
}

} // verus!
