//! Governance settings of a rune contract.

use vstd::prelude::*;

verus! {

/// Governance settings: whether voting started, its limit and time lock.
#[derive(Default, Debug, PartialEq, Copy, Clone, Eq, Structural)]
pub struct Dao {
    pub started: Option<bool>,
    pub vote_limit: Option<u32>,
    pub time_lock: Option<u32>,
}

} // verus!
