//! Whether an etching creates a contract, and which.

use vstd::prelude::*;
use vstd::string::*;
use crate::contract::{template_code, template_of_code, ContractTemplate};
use crate::rune::{id_text, lemma_rune_name_injective, rune_name, Rune, RuneId};
use crate::text::{decimal, decimal_string};
use crate::trading::Trading;

verus! {

/// The parts of an etching that contract creation reads.
#[derive(Debug, Clone, Copy, Default)]
pub struct Etching {
    /// The contract kind's code; none stands for a base contract.
    pub contract: Option<u8>,
    pub parent: Option<RuneId>,
    pub rune: Option<Rune>,
    pub burn3able_rune_ids: (Option<Rune>, Option<Rune>),
    pub trading: Option<Trading>,
}

/// A contract to register, under `contract_id`.
#[derive(Debug)]
pub struct NewContract {
    pub contract_id: String,
    pub template: ContractTemplate,
    pub parent: Option<RuneId>,
    pub myself: RuneId,
    pub rune: Rune,
    pub contract: u8,
    pub burn3_able_rune_ids: (Option<Rune>, Option<Rune>),
    pub trading: Option<Trading>,
    /// For a pool, the names of the runes on its two sides; empty otherwise.
    pub ticker0: String,
    pub ticker1: String,
}

/// What an etching leads to: a message and nothing created, or a new contract.
#[derive(Debug)]
pub enum InitDecision {
    Refuse(String),
    Create(NewContract),
}

/// The contract kind an etching asks for.
pub open spec fn etching_template(etching: Etching) -> Option<ContractTemplate> {
    template_of_code(
        match etching.contract {
            Some(c) => c,
            None => 0,
        },
    )
}

/// The message for a kind the validator admits at this block.
pub open spec fn cannot_init_text(kind: Seq<char>, block: u64) -> Seq<char> {
    "cannot init "@ + kind + " contract at block "@ + decimal(block as nat)
}

/// The name a refusal gives each kind that is not created.
pub open spec fn template_label(t: ContractTemplate) -> Seq<char> {
    match t {
        ContractTemplate::Governance => "Governance"@,
        ContractTemplate::AMM => "AMM"@,
        ContractTemplate::Staking => "Staking"@,
        ContractTemplate::Stablecoin => "Stablecoin"@,
        ContractTemplate::Lending => "Lending"@,
        ContractTemplate::Base => "Base"@,
    }
}

/// Holds where the etching names a parent that is not registered.
pub open spec fn parent_missing(etching: Etching, parent_registered: bool) -> bool {
    etching.parent is Some && !parent_registered
}

/// Holds where `d` refuses with message `m`.
pub open spec fn refuses(d: InitDecision, m: Seq<char>) -> bool {
    d matches InitDecision::Refuse(s) && s@ == m
}

/// Holds where `c` is the contract that an etching at `(block, tx)` creates
/// with kind `t` (a pool or a base contract).
pub open spec fn creates(c: NewContract, etching: Etching, block: u64, tx: u32, t: ContractTemplate) -> bool {
    let myself = RuneId { block, tx };
    &&& c.contract_id@ == id_text(myself)
    &&& c.template == t
    &&& c.parent == etching.parent
    &&& c.myself == myself
    &&& c.contract == template_code(t)
    &&& if t == ContractTemplate::AMM {
        &&& c.rune == etching.rune.unwrap()
        &&& c.burn3_able_rune_ids == etching.burn3able_rune_ids
        &&& c.trading == etching.trading
        &&& c.ticker0@ == rune_name(etching.burn3able_rune_ids.0.unwrap())
        &&& c.ticker1@ == rune_name(etching.burn3able_rune_ids.1.unwrap())
    } else {
        &&& c.rune == (match etching.rune {
            Some(r) => r,
            None => Rune(0),
        })
        &&& c.burn3_able_rune_ids == (None::<Rune>, None::<Rune>)
        &&& c.trading is None
        &&& c.ticker0@.len() == 0 && c.ticker1@.len() == 0
    }
}

/// A pool created over two different runes has two different tickers, so
/// each side's other ticker is the opposite side.
pub proof fn lemma_pool_tickers_distinct(c: NewContract, etching: Etching, block: u64, tx: u32)
    requires
        creates(c, etching, block, tx, ContractTemplate::AMM),
        etching.burn3able_rune_ids.0.unwrap() != etching.burn3able_rune_ids.1.unwrap(),
    ensures
        c.ticker0@ != c.ticker1@,
{
    if c.ticker0@ == c.ticker1@ {
        lemma_rune_name_injective(etching.burn3able_rune_ids.0.unwrap(), etching.burn3able_rune_ids.1.unwrap());
    }
}

/// What `decide_init` needs of its inputs: a pool it would create names its
/// rune and the runes on its two sides.
pub open spec fn init_inputs_ok(etching: Etching, can_init: bool, parent_registered: bool) -> bool {
    etching_template(etching) == Some(ContractTemplate::AMM) && !can_init
        && !parent_missing(etching, parent_registered) ==> {
        &&& etching.rune is Some
        &&& etching.burn3able_rune_ids.0 is Some
        &&& etching.burn3able_rune_ids.1 is Some
    }
}

/// What an etching at `(block, tx)` leads to, given the validator's answer
/// `can_init` and whether its parent is registered.
pub open spec fn init_decided(
    block: u64,
    tx: u32,
    etching: Etching,
    can_init: bool,
    parent_registered: bool,
    d: InitDecision,
) -> bool {
    match etching_template(etching) {
        Some(ContractTemplate::AMM) => if can_init {
            refuses(d, cannot_init_text("AMM"@, block))
        } else if parent_missing(etching, parent_registered) {
            refuses(d, "Parent contract is not exist!"@)
        } else {
            d matches InitDecision::Create(c) && creates(c, etching, block, tx, ContractTemplate::AMM)
        },
        Some(ContractTemplate::Base) | None => if parent_missing(etching, parent_registered) {
            refuses(d, "Parent contract is not exist!"@)
        } else {
            d matches InitDecision::Create(c) && creates(c, etching, block, tx, ContractTemplate::Base)
        },
        Some(t) => if can_init {
            refuses(d, cannot_init_text(template_label(t), block))
        } else {
            refuses(d, "Unsupported contract!"@)
        },
    }
}

/// An etching of a pool the validator leaves to this code, or of a base
/// contract, that names a parent no contract is registered under is refused
/// with "Parent contract is not exist!", whatever else it holds.
pub proof fn lemma_init_parent_must_exist(
    block: u64,
    tx: u32,
    etching: Etching,
    can_init: bool,
    parent_registered: bool,
    d: InitDecision,
)
    requires
        init_decided(block, tx, etching, can_init, parent_registered, d),
        etching.parent is Some,
        !parent_registered,
        match etching_template(etching) {
            Some(ContractTemplate::AMM) => !can_init,
            Some(ContractTemplate::Base) | None => true,
            _ => false,
        },
    ensures
        d matches InitDecision::Refuse(m) && m@ == "Parent contract is not exist!"@,
{
}

/// No contract is ever created under a parent that is not registered.
pub proof fn lemma_init_created_parent_registered(
    block: u64,
    tx: u32,
    etching: Etching,
    can_init: bool,
    parent_registered: bool,
    d: InitDecision,
)
    requires
        init_decided(block, tx, etching, can_init, parent_registered, d),
        d is Create,
    ensures
        etching.parent is None || parent_registered,
{
}

/// A created contract is the etching's own: it is registered under the id
/// of the etching's transaction, keeps the etching's parent and rune (rune
/// `0` only where the etching names none), and is a pool exactly where the
/// etching asks for one the validator leaves to this code; every other kind
/// created is a base contract.
pub proof fn lemma_init_created_keeps_etching(
    block: u64,
    tx: u32,
    etching: Etching,
    can_init: bool,
    parent_registered: bool,
    d: InitDecision,
)
    requires
        init_inputs_ok(etching, can_init, parent_registered),
        init_decided(block, tx, etching, can_init, parent_registered, d),
        d is Create,
    ensures
        d matches InitDecision::Create(c) && {
            &&& c.myself == RuneId { block, tx }
            &&& c.contract_id@ == id_text(RuneId { block, tx })
            &&& c.parent == etching.parent
            &&& etching.rune matches Some(r) ==> c.rune == r
            &&& etching.rune is None ==> c.rune == Rune(0)
            &&& (c.template == ContractTemplate::AMM) == (etching_template(etching) == Some(ContractTemplate::AMM))
            &&& c.template == ContractTemplate::AMM ==> !can_init
            &&& c.template != ContractTemplate::AMM ==> c.template == ContractTemplate::Base
                && (etching_template(etching) is None || etching_template(etching) == Some(ContractTemplate::Base))
        },
{
}

/// The text of a refusal for kind `t` at `block`.
fn cannot_init(t: ContractTemplate, block: u64) -> (s: String)
    ensures
        s@ == cannot_init_text(template_label(t), block),
{
    let mut s = String::from_str("cannot init ");
    let label = match t {
        ContractTemplate::Governance => "Governance",
        ContractTemplate::AMM => "AMM",
        ContractTemplate::Staking => "Staking",
        ContractTemplate::Stablecoin => "Stablecoin",
        ContractTemplate::Lending => "Lending",
        ContractTemplate::Base => "Base",
    };
    s.append(label);
    s.append(" contract at block ");
    let b = decimal_string(block as u128);
    s.append(b.as_str());
    s
}

/// Decides what an etching at `(block, tx)` creates. `can_init` is the
/// contract validator's answer for the etching's kind at this block, and
/// `parent_registered` whether a contract is registered under the
/// etching's parent id (read only where there is a parent).
///
/// Governance, staking, stablecoin and lending contracts are not created:
/// the validator's admission gives the "cannot init" message, its refusal
/// "Unsupported contract!". A pool is likewise refused where the validator
/// admits it; a pool or base contract whose parent is not registered is
/// refused with "Parent contract is not exist!"; otherwise it is created.
pub fn decide_init(block: u64, tx: u32, etching: &Etching, can_init: bool, parent_registered: bool) -> (d: InitDecision)
    requires
        init_inputs_ok(*etching, can_init, parent_registered),
    ensures
        init_decided(block, tx, *etching, can_init, parent_registered, d),
{
    let code: u8 = match etching.contract {
        Some(c) => c,
        None => 0,
    };
    let myself = RuneId { block, tx };
    match ContractTemplate::from_u8(code) {
        Some(ContractTemplate::AMM) => {
            if can_init {
                return InitDecision::Refuse(cannot_init(ContractTemplate::AMM, block));
            }
            if etching.parent.is_some() && !parent_registered {
                return InitDecision::Refuse(String::from_str("Parent contract is not exist!"));
            }
            let ticker0 = etching.burn3able_rune_ids.0.unwrap().name();
            let ticker1 = etching.burn3able_rune_ids.1.unwrap().name();
            InitDecision::Create(NewContract {
                contract_id: myself.to_str(),
                template: ContractTemplate::AMM,
                parent: etching.parent,
                myself,
                rune: etching.rune.unwrap(),
                contract: ContractTemplate::AMM.to_u8(),
                burn3_able_rune_ids: etching.burn3able_rune_ids,
                trading: etching.trading,
                ticker0,
                ticker1,
            })
        },
        Some(ContractTemplate::Governance) => {
            if can_init {
                InitDecision::Refuse(cannot_init(ContractTemplate::Governance, block))
            } else {
                InitDecision::Refuse(String::from_str("Unsupported contract!"))
            }
        },
        Some(ContractTemplate::Staking) => {
            if can_init {
                InitDecision::Refuse(cannot_init(ContractTemplate::Staking, block))
            } else {
                InitDecision::Refuse(String::from_str("Unsupported contract!"))
            }
        },
        Some(ContractTemplate::Stablecoin) => {
            if can_init {
                InitDecision::Refuse(cannot_init(ContractTemplate::Stablecoin, block))
            } else {
                InitDecision::Refuse(String::from_str("Unsupported contract!"))
            }
        },
        Some(ContractTemplate::Lending) => {
            if can_init {
                InitDecision::Refuse(cannot_init(ContractTemplate::Lending, block))
            } else {
                InitDecision::Refuse(String::from_str("Unsupported contract!"))
            }
        },
        _ => {
            if etching.parent.is_some() && !parent_registered {
                return InitDecision::Refuse(String::from_str("Parent contract is not exist!"));
            }
            let rune = match etching.rune {
                Some(r) => r,
                None => Rune(0),
            };
            InitDecision::Create(NewContract {
                contract_id: myself.to_str(),
                template: ContractTemplate::Base,
                parent: etching.parent,
                myself,
                rune,
                contract: ContractTemplate::Base.to_u8(),
                burn3_able_rune_ids: (None, None),
                trading: None,
                ticker0: String::new(),
                ticker1: String::new(),
            })
        },
    }
}

} // verus!
