//! Burn records of a runestone: runes sent back to a contract.

use vstd::prelude::*;
use crate::ext::Ext;
use crate::rune::{Edict, RuneId};

verus! {

/// A burn of wrapped-by-mint2 runes into contract `to`.
#[derive(Default, Debug, PartialEq, Eq, Clone)]
pub struct Burn2 {
    pub to: RuneId,
    pub state_transition_function: u32,
    pub edicts: Vec<Edict>,
    pub proof: Option<Proof>,
    pub ext: Option<Ext>,
}

/// A burn of wrapped-by-mint3 runes into contract `to`.
#[derive(Default, Debug, PartialEq, Eq, Clone)]
pub struct Burn3 {
    pub to: RuneId,
    pub state_transition_function: u32,
    pub edicts: Vec<Edict>,
    pub proof: Option<Proof>,
    pub ext: Option<Ext>,
}

/// The location and amount of the output that a burn or mint refers to.
#[derive(Default, Debug, Clone, Copy)]
pub struct Proof {
    pub block: u64,
    pub tx: u32,
    pub output: u32,
    pub amount: u32,
}

/// Two proofs are equal when all four of their fields are.
pub open spec fn proofs_equal(a: Proof, b: Proof) -> bool {
    a.block == b.block && a.tx == b.tx && a.output == b.output && a.amount == b.amount
}

impl PartialEq for Proof {
    fn eq(&self, other: &Self) -> (r: bool) {
        self.block == other.block && self.tx == other.tx && self.output == other.output
            && self.amount == other.amount
    }

    fn ne(&self, other: &Self) -> (r: bool) {
        !self.eq(other)
    }
}

impl vstd::std_specs::cmp::PartialEqSpecImpl for Proof {
    open spec fn obeys_eq_spec() -> bool {
        true
    }

    open spec fn eq_spec(&self, other: &Self) -> bool {
        proofs_equal(*self, *other)
    }
}

impl Eq for Proof {
}

} // verus!
