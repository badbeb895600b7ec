//! The kinds of state a contract keeps, and the chain state a block carries.

use vstd::prelude::*;
use vstd::string::*;

verus! {

/// Chain state at a block; `block_time` is in seconds since the Unix epoch,
/// with `block_time_nanos` nanoseconds more.
#[derive(Debug, Clone, Copy, PartialEq, Eq, Structural)]
pub struct StateDB {
    pub block_height: u32,
    pub block_hash: u32,
    pub block_time: i64,
    /// The fraction of the second of `block_time`, in nanoseconds.
    pub block_time_nanos: u32,
}

impl Default for StateDB {
    fn default() -> (s: Self)
        ensures
            s.block_height == 0 && s.block_hash == 0 && s.block_time == 0 && s.block_time_nanos == 0,
    {
        StateDB { block_height: 0, block_hash: 0, block_time: 0, block_time_nanos: 0 }
    }
}

/// The kinds of state a contract answers queries about.
#[derive(Debug, Clone, Copy, PartialEq, Eq, Structural)]
pub enum State {
    RecoverableStateBalanceForMint2,
    RecoverableStateBalanceForMint3,
    StateBalanceOfApplicationForMint2,
    StateBalanceOfApplicationForMint3,
    StateBalanceForMint2,
    StateBalanceForMint3,
    StateBalanceForOwnerMint,
    Ticker0,
    Ticker1,
    Reserve0,
    Reserve1,
    Supply,
}

/// The short name of each kind of state.
pub open spec fn state_name(s: State) -> Seq<char> {
    match s {
        State::RecoverableStateBalanceForMint2 => "rsb2"@,
        State::RecoverableStateBalanceForMint3 => "rsb3"@,
        State::StateBalanceOfApplicationForMint2 => "sba2"@,
        State::StateBalanceOfApplicationForMint3 => "sba3"@,
        State::StateBalanceForMint2 => "sb2"@,
        State::StateBalanceForMint3 => "sb3"@,
        State::StateBalanceForOwnerMint => "sbom"@,
        State::Ticker0 => "ticker0"@,
        State::Ticker1 => "ticker1"@,
        State::Reserve0 => "reserve0"@,
        State::Reserve1 => "reserve1"@,
        State::Supply => "supply"@,
    }
}

impl State {
    /// The short name of this kind of state.
    pub fn to_string(&self) -> (s: String)
        ensures
            s@ == state_name(*self),
    {
        let name = match self {
            State::RecoverableStateBalanceForMint2 => "rsb2",
            State::RecoverableStateBalanceForMint3 => "rsb3",
            State::StateBalanceOfApplicationForMint2 => "sba2",
            State::StateBalanceOfApplicationForMint3 => "sba3",
            State::StateBalanceForMint2 => "sb2",
            State::StateBalanceForMint3 => "sb3",
            State::StateBalanceForOwnerMint => "sbom",
            State::Ticker0 => "ticker0",
            State::Ticker1 => "ticker1",
            State::Reserve0 => "reserve0",
            State::Reserve1 => "reserve1",
            State::Supply => "supply",
        };
        String::from_str(name)
    }
}

} // verus!
