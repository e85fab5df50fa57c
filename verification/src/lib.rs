//! Storage of the sBTC signer on Postgres.
//!
//! Every operation of the store is a procedure: it asks for one database
//! action at a time and is resumed with what the database answered, until it
//! is done. What is asked, and what becomes of each answer, is decided here;
//! the connection itself is driven from outside.

pub mod by_name;
pub mod chain;
pub mod compose;
pub mod convert;
pub mod deposit_laws;
pub mod deposits;
pub mod error;
pub mod fetch;
pub mod funds_laws;
pub mod insert_laws;
pub mod key_laws;
pub mod keys;
pub mod laws;
pub mod limits;
pub mod migration_laws;
pub mod migrations;
pub mod model;
pub mod openapi;
pub mod openapi_laws;
pub mod order;
pub mod order_laws;
pub mod procedure;
pub mod query_laws;
pub mod read_laws;
pub mod records;
pub mod round_trip;
pub mod row;
pub mod signer_set;
pub mod sql;
pub mod store;
pub mod sweeps;
pub mod value;
pub mod value_laws;
pub mod votes;
pub mod withdrawal_laws;
pub mod withdrawals;
pub mod write_laws;
