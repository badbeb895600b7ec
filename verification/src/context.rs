//! The contexts that contract operations run in.

use vstd::prelude::*;
use crate::burn::{Burn2, Burn3};
use crate::mint::{Mint2, Mint3};
use crate::rune::{RuneId, Transaction};

verus! {

/// A block's height, hash and time (seconds since the Unix epoch, and nanoseconds).
#[derive(Debug, Clone, Copy, PartialEq, Eq, Structural)]
pub struct BlockContext {
    pub block_height: u32,
    pub block_hash: u32,
    pub block_time: i64,
    /// The fraction of the second of `block_time`, in nanoseconds.
    pub block_time_nanos: u32,
}

impl Default for BlockContext {
    fn default() -> (c: Self)
        ensures
            c.block_height == 0 && c.block_hash == 0 && c.block_time == 0 && c.block_time_nanos == 0,
    {
        BlockContext { block_height: 0, block_hash: 0, block_time: 0, block_time_nanos: 0 }
    }
}

/// A transaction's hash, index and raw form, as numbers.
#[derive(Debug, Clone, Copy, PartialEq, Eq, Structural)]
pub struct TxContext {
    pub tx_hash: u32,
    pub tx_index: u32,
    pub tx_hex: u32,
}

impl Default for TxContext {
    fn default() -> (c: Self)
        ensures
            c.tx_hash == 0 && c.tx_index == 0 && c.tx_hex == 0,
    {
        TxContext { tx_hash: 0, tx_index: 0, tx_hex: 0 }
    }
}

/// What a contract operation reads of the transaction that invokes it:
/// where it stands, the mints and burns it carries, and the address that
/// its first edict pays to.
#[derive(Debug, Clone)]
pub struct OperateContext {
    pub block_height: u64,
    pub block_timestamp: u64,
    pub tx: u32,
    /// The transaction id, in byte order.
    pub tx_id: Vec<u8>,
    pub rune_id: RuneId,
    pub transaction: Transaction,
    pub mint2s: Option<Vec<Mint2>>,
    pub mint3s: Option<Vec<Mint3>>,
    pub burn2s: Option<Burn2>,
    pub burn3s: Option<Burn3>,
    /// The address, as text, of the output that the operation's first edict names.
    pub address: Option<String>,
}

} // verus!
