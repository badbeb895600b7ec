//! Contract kinds, execution results and the descriptive record of a rune
//! contract.

use vstd::prelude::*;
use vstd::string::*;
use crate::dao::Dao;
use crate::rune::{Rune, RuneId};
use crate::trading::Trading;

verus! {

/// The outcome of running a contract operation, with a message.
#[derive(Debug, Clone, PartialEq, Eq)]
pub enum ContractExecResult {
    Success(String),
    ValidationError(String),
    UnknownException(String),
}

/// The kinds of contract a rune can be etched with.
#[derive(Debug, Clone, Copy, PartialEq, Eq, Structural)]
pub enum ContractTemplate {
    Base,
    Governance,
    AMM,
    Staking,
    Stablecoin,
    Lending,
}

/// The code of each contract kind in an etching.
pub open spec fn template_code(t: ContractTemplate) -> u8 {
    match t {
        ContractTemplate::Base => 0,
        ContractTemplate::Governance => 1,
        ContractTemplate::AMM => 2,
        ContractTemplate::Staking => 4,
        ContractTemplate::Stablecoin => 6,
        ContractTemplate::Lending => 7,
    }
}

/// The contract kind a code stands for; codes 3, 5 and above 7 stand for none.
pub open spec fn template_of_code(value: u8) -> Option<ContractTemplate> {
    if value == 0 {
        Some(ContractTemplate::Base)
    } else if value == 1 {
        Some(ContractTemplate::Governance)
    } else if value == 2 {
        Some(ContractTemplate::AMM)
    } else if value == 4 {
        Some(ContractTemplate::Staking)
    } else if value == 6 {
        Some(ContractTemplate::Stablecoin)
    } else if value == 7 {
        Some(ContractTemplate::Lending)
    } else {
        None
    }
}

/// The text of a result: its kind, a colon and its message.
pub open spec fn describe_text(r: ContractExecResult) -> Seq<char> {
    match r {
        ContractExecResult::Success(m) => "Success: "@ + m@,
        ContractExecResult::ValidationError(m) => "Validation Error: "@ + m@,
        ContractExecResult::UnknownException(m) => "Unknown Exception: "@ + m@,
    }
}

impl ContractExecResult {
    /// The result's kind followed by its message.
    pub fn describe(&self) -> (s: String)
        ensures
            s@ == describe_text(*self),
    {
        match self {
            ContractExecResult::Success(msg) => {
                let mut s = String::from_str("Success: ");
                s.append(msg.as_str());
                s
            },
            ContractExecResult::ValidationError(msg) => {
                let mut s = String::from_str("Validation Error: ");
                s.append(msg.as_str());
                s
            },
            ContractExecResult::UnknownException(msg) => {
                let mut s = String::from_str("Unknown Exception: ");
                s.append(msg.as_str());
                s
            },
        }
    }
}

impl ContractTemplate {
    /// The contract kind of an etching's code.
    pub fn from_u8(value: u8) -> (t: Option<Self>)
        ensures
            t == template_of_code(value),
    {
        match value {
            0 => Some(ContractTemplate::Base),
            1 => Some(ContractTemplate::Governance),
            2 => Some(ContractTemplate::AMM),
            4 => Some(ContractTemplate::Staking),
            6 => Some(ContractTemplate::Stablecoin),
            7 => Some(ContractTemplate::Lending),
            _ => None,
        }
    }

    /// The code of this contract kind.
    pub fn to_u8(self) -> (v: u8)
        ensures
            v == template_code(self),
    {
        match self {
            ContractTemplate::Base => 0,
            ContractTemplate::Governance => 1,
            ContractTemplate::AMM => 2,
            ContractTemplate::Staking => 4,
            ContractTemplate::Stablecoin => 6,
            ContractTemplate::Lending => 7,
        }
    }
}

/// Every contract kind is read back from its code.
pub proof fn lemma_template_code_roundtrip(t: ContractTemplate)
    ensures
        template_of_code(template_code(t)) == Some(t),
{
}

/// A code that names a contract kind is that kind's code.
pub proof fn lemma_template_code_unique(value: u8)
    ensures
        template_of_code(value) matches Some(t) ==> template_code(t) == value,
{
}

/// The public description of a rune contract.
#[derive(Debug)]
pub struct RuneContractInfo {
    pub parent: Option<RuneId>,
    pub myself: RuneId,
    pub rune: Rune,
    pub contract: u8,
    pub mint2_amount: u128,
    pub burn3_able_rune_ids: (Option<Rune>, Option<Rune>),
    pub trading: Option<Trading>,
    pub dao: Option<Dao>,
}

/// A validation error carrying `message`.
pub fn validation_error(message: &str) -> (r: ContractExecResult)
    ensures
        r matches ContractExecResult::ValidationError(m) && m@ == message@,
{
    ContractExecResult::ValidationError(String::from_str(message))
}

} // verus!
