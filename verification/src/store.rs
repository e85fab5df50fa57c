//! The store.

use crate::error::StoreError;
use vstd::prelude::*;
use vstd::std_specs::convert::FromSpecImpl;

verus! {

/// The store of a signer, on a pool of database connections.
///
/// Its methods start operations. An operation that needs the database asks for
/// an action, and is resumed with the outcome.
#[derive(Debug)]
pub struct PgStore<P> {
    pool: P,
}

impl<P> View for PgStore<P> {
    type V = P;

    closed spec fn view(&self) -> P {
        self.pool
    }
}

impl<P> PgStore<P> {
    /// The store on the pool that connecting to the database gave.
    pub fn connect(outcome: Result<P, sqlx::Error>) -> (result: Result<Self, StoreError>)
        ensures
            (match outcome {
                Ok(pool) => result matches Ok(store) && store@ == pool,
                Err(cause) => result matches Err(error) && error == StoreError::SqlxConnect(cause),
            }),
    {
        match outcome {
            Ok(pool) => Ok(PgStore { pool }),
            Err(error) => Err(StoreError::SqlxConnect(error)),
        }
    }

    /// The pool of connections.
    pub fn pool(&self) -> (pool: &P)
        ensures
            *pool == self@,
    {
        &self.pool
    }

    /// The store on the given pool.
    pub closed spec fn on(pool: P) -> Self {
        PgStore { pool }
    }

    /// The store on a pool has that pool.
    pub proof fn on_has_pool(pool: P)
        ensures
            Self::on(pool)@ == pool,
    {
    }
}

impl<P: Clone> Clone for PgStore<P> {
    fn clone(&self) -> (store: Self)
        ensures
            cloned::<P>(self@, store@),
    {
        PgStore { pool: self.pool.clone() }
    }
}

impl<P> From<P> for PgStore<P> {
    fn from(value: P) -> (store: Self) {
        PgStore { pool: value }
    }
}

impl<P> FromSpecImpl<P> for PgStore<P> {
    open spec fn obeys_from_spec() -> bool {
        true
    }

    open spec fn from_spec(value: P) -> Self {
        PgStore::on(value)
    }
}

} // verus!
