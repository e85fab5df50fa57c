//! The rules of the signers that the store depends on.

use vstd::prelude::*;

verus! {

/// The deepest reorganization of the bitcoin blockchain that is planned for,
/// in blocks.
pub const MAX_REORG_BLOCK_COUNT: u64 = 10;

/// The most transactions of a chain of unconfirmed transactions that a bitcoin
/// node keeps.
pub const MAX_MEMPOOL_PACKAGE_TX_COUNT: u64 = 25;

/// The number of bitcoin blocks after which a withdrawal request that is still
/// open is rejected.
pub const WITHDRAWAL_BLOCKS_EXPIRY: u64 = 24;

/// The number of blocks before its unlock height at which a deposit is no
/// longer swept.
pub const DEPOSIT_LOCKTIME_BLOCK_BUFFER: u16 = 3;

} // verus!
