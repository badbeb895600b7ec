//! State transition functions that runestone operations name by number.

use vstd::prelude::*;
use vstd::string::*;

verus! {

/// The state transition functions of rune contracts.
#[derive(Debug, Clone, Copy, PartialEq, Eq, Structural)]
pub enum StateTransitionName {
    /// Initialise a contract.
    Ic,
    /// Add liquidity.
    Al,
    /// Remove liquidity.
    Rl,
    /// Swap.
    Sw,
    /// Wrap by mint2.
    W2,
    /// Wrap by mint3.
    W3,
    Unknown,
}

/// The function that a code names; codes above 5 name none.
pub open spec fn stf_of_code(code: u32) -> StateTransitionName {
    if code == 0 {
        StateTransitionName::Ic
    } else if code == 1 {
        StateTransitionName::Al
    } else if code == 2 {
        StateTransitionName::Rl
    } else if code == 3 {
        StateTransitionName::Sw
    } else if code == 4 {
        StateTransitionName::W2
    } else if code == 5 {
        StateTransitionName::W3
    } else {
        StateTransitionName::Unknown
    }
}

/// The code of each function.
pub open spec fn stf_code(s: StateTransitionName) -> u32 {
    match s {
        StateTransitionName::Ic => 0,
        StateTransitionName::Al => 1,
        StateTransitionName::Rl => 2,
        StateTransitionName::Sw => 3,
        StateTransitionName::W2 => 4,
        StateTransitionName::W3 => 5,
        StateTransitionName::Unknown => 6,
    }
}

/// The name under which a function is registered in the jump table.
pub open spec fn stf_name(s: StateTransitionName) -> Seq<char> {
    match s {
        StateTransitionName::Ic => "ic"@,
        StateTransitionName::Al => "al"@,
        StateTransitionName::Rl => "rl"@,
        StateTransitionName::Sw => "sw"@,
        StateTransitionName::W2 => "w2"@,
        StateTransitionName::W3 => "w3"@,
        StateTransitionName::Unknown => seq![],
    }
}

/// The registered name of the function a code names, if it names one.
pub open spec fn stf_name_of_code(code: u32) -> Option<Seq<char>> {
    if code <= 5 {
        Some(stf_name(stf_of_code(code)))
    } else {
        None
    }
}

impl StateTransitionName {
    /// The registered name of the function that `value` names.
    pub fn from_u32(value: u32) -> (name: Option<String>)
        ensures
            match name {
                Some(n) => stf_name_of_code(value) == Some(n@),
                None => stf_name_of_code(value) is None,
            },
    {
        match value {
            0 => Some(String::from_str("ic")),
            1 => Some(String::from_str("al")),
            2 => Some(String::from_str("rl")),
            3 => Some(String::from_str("sw")),
            4 => Some(String::from_str("w2")),
            5 => Some(String::from_str("w3")),
            _ => None,
        }
    }

    /// The function that `code` names.
    pub fn from(code: u32) -> (s: Self)
        ensures
            s == stf_of_code(code),
    {
        match code {
            0 => Self::Ic,
            1 => Self::Al,
            2 => Self::Rl,
            3 => Self::Sw,
            4 => Self::W2,
            5 => Self::W3,
            _ => Self::Unknown,
        }
    }

    /// The code of this function.
    pub fn to_u32(self) -> (c: u32)
        ensures
            c == stf_code(self),
    {
        match self {
            Self::Ic => 0,
            Self::Al => 1,
            Self::Rl => 2,
            Self::Sw => 3,
            Self::W2 => 4,
            Self::W3 => 5,
            Self::Unknown => 6,
        }
    }
}

/// Every function is read back from its code.
pub proof fn lemma_stf_code_roundtrip(s: StateTransitionName)
    ensures
        stf_of_code(stf_code(s)) == s,
{
}

/// A code names a registered function exactly when it does not read as
/// `Unknown`, and the name is that of the function it reads as.
pub proof fn lemma_stf_name_agrees(code: u32)
    ensures
        (stf_name_of_code(code) is Some) <==> stf_of_code(code) != StateTransitionName::Unknown,
        stf_name_of_code(code) is Some ==> stf_name_of_code(code) == Some(stf_name(stf_of_code(code))),
{
}

} // verus!
