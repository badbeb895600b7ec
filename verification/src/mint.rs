//! Mint records of a runestone: runes wrapped into a contract.

use vstd::prelude::*;
use crate::burn::Proof;
use crate::rune::{Edict, RuneId};

verus! {

/// A mint of runes wrapped by transfer (mint2), issued by contract `from`.
#[derive(Default, Debug, PartialEq, Eq, Clone)]
pub struct Mint2 {
    pub from: RuneId,
    pub state_transition_function: Option<u32>,
    pub edicts: Option<Vec<Edict>>,
    pub proof: Option<Proof>,
}

/// A mint of runes wrapped by deposit (mint3), issued by contract `from`.
#[derive(Default, Debug, PartialEq, Eq, Clone)]
pub struct Mint3 {
    pub from: RuneId,
    pub state_transition_function: Option<u32>,
    pub edicts: Option<Vec<Edict>>,
    pub proof: Option<Proof>,
}

} // verus!
