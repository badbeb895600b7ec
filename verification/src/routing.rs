//! How an applied edict moves balances between contracts' ledgers, and the
//! interpreter's answers about contracts and operations it dispatches to.

use vstd::prelude::*;
use vstd::string::*;
use crate::contract::ContractExecResult;
use crate::events::EdictRoute;
use crate::rune::{id_text, Edict};
use crate::state::State;

verus! {

/// The ledgers of a contract that an operation changes.
#[derive(Debug, Clone, Copy, PartialEq, Eq, Structural)]
pub enum LedgerKind {
    /// Credit a mint2 balance.
    Sb2Mint,
    /// Credit a mint3 balance.
    Sb3Mint,
    /// Debit a mint3 balance.
    Sb3Burn,
}

/// A change to the ledger of contract `contract_id`: `amount` of `ticker`
/// for `address`. It applies only where that contract is registered.
#[derive(Debug, Clone, PartialEq, Eq)]
pub struct LedgerOp {
    pub contract_id: String,
    pub kind: LedgerKind,
    pub address: String,
    pub ticker: String,
    pub amount: u128,
}

/// A ledger change with its texts as character sequences.
pub struct LedgerOpView {
    pub contract_id: Seq<char>,
    pub kind: LedgerKind,
    pub address: Seq<char>,
    pub ticker: Seq<char>,
    pub amount: u128,
}

/// A ledger change with its strings read as character sequences.
pub open spec fn op_view(op: LedgerOp) -> LedgerOpView {
    LedgerOpView {
        contract_id: op.contract_id@,
        kind: op.kind,
        address: op.address@,
        ticker: op.ticker@,
        amount: op.amount,
    }
}

/// A list of ledger changes, each read by `op_view`.
pub open spec fn ops_view(ops: Seq<LedgerOp>) -> Seq<LedgerOpView> {
    ops.map_values(|op: LedgerOp| op_view(op))
}

/// The ledger change with these parts.
pub open spec fn ledger_op(contract_id: Seq<char>, kind: LedgerKind, address: Seq<char>, ticker: Seq<char>, amount: u128) -> LedgerOpView {
    LedgerOpView { contract_id, kind, address, ticker, amount }
}

/// The ledger changes of an edict paid to `user` and applied by `route`,
/// with `to` the contract it is sent to. `pair` is the pool's ticker pair
/// and `another` the pool's other ticker for the edict's rune (none where
/// the pool is not registered).
///
/// - remove liquidity: on each ticker's contract, credit the user and debit
///   the pool, both by the edict's amount of that ticker;
/// - add liquidity: on the edict's rune contract, credit the pool;
/// - swap: on the other ticker's contract, credit the user and debit the
///   pool in the edict's rune, then on the edict's rune contract credit the
///   pool; nothing where the pool is not registered;
/// - wraps: on the edict's rune contract, credit the user's mint2 or mint3
///   balance.
pub open spec fn edict_ledger_ops(
    route: EdictRoute,
    to: Seq<char>,
    user: Seq<char>,
    edict: Edict,
    pair: Option<(Seq<char>, Seq<char>)>,
    another: Option<Seq<char>>,
) -> Seq<LedgerOpView> {
    let rune = id_text(edict.id);
    let amount = edict.amount;
    match route {
        EdictRoute::RemoveLiquidity => {
            let (t0, t1) = pair.unwrap();
            seq![
                ledger_op(t0, LedgerKind::Sb3Mint, user, t0, amount),
                ledger_op(t0, LedgerKind::Sb3Burn, to, t0, amount),
                ledger_op(t1, LedgerKind::Sb3Mint, user, t1, amount),
                ledger_op(t1, LedgerKind::Sb3Burn, to, t1, amount),
            ]
        },
        EdictRoute::AddLiquidity => seq![ledger_op(rune, LedgerKind::Sb3Mint, to, rune, amount)],
        EdictRoute::Swap => match another {
            None => seq![],
            Some(b) => seq![
                ledger_op(b, LedgerKind::Sb3Mint, user, rune, amount),
                ledger_op(b, LedgerKind::Sb3Burn, to, rune, amount),
                ledger_op(rune, LedgerKind::Sb3Mint, to, rune, amount),
            ],
        },
        EdictRoute::WrapMint2 => seq![ledger_op(rune, LedgerKind::Sb2Mint, user, rune, amount)],
        EdictRoute::WrapMint3 => seq![ledger_op(rune, LedgerKind::Sb3Mint, user, rune, amount)],
    }
}

/// An optional ticker pair as character sequences.
pub open spec fn pair_text(pair: Option<(String, String)>) -> Option<(Seq<char>, Seq<char>)> {
    match pair {
        Some((a, b)) => Some((a@, b@)),
        None => None,
    }
}

/// An optional string as an optional character sequence.
pub open spec fn text_of(o: Option<String>) -> Option<Seq<char>> {
    match o {
        Some(s) => Some(s@),
        None => None,
    }
}

/// The ledger change with these parts.
fn op(contract_id: &String, kind: LedgerKind, address: &String, ticker: &String, amount: u128) -> (r: LedgerOp)
    ensures
        op_view(r) == ledger_op(contract_id@, kind, address@, ticker@, amount),
{
    LedgerOp { contract_id: contract_id.clone(), kind, address: address.clone(), ticker: ticker.clone(), amount }
}

/// The ledger changes of an applied edict, in the order they are made.
pub fn edict_ledger_changes(
    route: EdictRoute,
    to_contract_id: &str,
    user_address: &str,
    edict: &Edict,
    pair: Option<(String, String)>,
    another: Option<String>,
) -> (ops: Vec<LedgerOp>)
    requires
        route == EdictRoute::RemoveLiquidity ==> pair is Some,
    ensures
        ops_view(ops@) == edict_ledger_ops(route, to_contract_id@, user_address@, *edict,
            pair_text(pair), text_of(another)),
{
    let rune = edict.id.to_str();
    let to = String::from_str(to_contract_id);
    let user = String::from_str(user_address);
    let amount = edict.amount;
    let mut ops: Vec<LedgerOp> = Vec::new();
    match route {
        EdictRoute::RemoveLiquidity => {
            let (t0, t1) = pair.unwrap();
            ops.push(op(&t0, LedgerKind::Sb3Mint, &user, &t0, amount));
            ops.push(op(&t0, LedgerKind::Sb3Burn, &to, &t0, amount));
            ops.push(op(&t1, LedgerKind::Sb3Mint, &user, &t1, amount));
            ops.push(op(&t1, LedgerKind::Sb3Burn, &to, &t1, amount));
        },
        EdictRoute::AddLiquidity => {
            ops.push(op(&rune, LedgerKind::Sb3Mint, &to, &rune, amount));
        },
        EdictRoute::Swap => {
            match another {
                Some(b) => {
                    ops.push(op(&b, LedgerKind::Sb3Mint, &user, &rune, amount));
                    ops.push(op(&b, LedgerKind::Sb3Burn, &to, &rune, amount));
                    ops.push(op(&rune, LedgerKind::Sb3Mint, &to, &rune, amount));
                },
                None => {},
            }
        },
        EdictRoute::WrapMint2 => {
            ops.push(op(&rune, LedgerKind::Sb2Mint, &user, &rune, amount));
        },
        EdictRoute::WrapMint3 => {
            ops.push(op(&rune, LedgerKind::Sb3Mint, &user, &rune, amount));
        },
    }
    assert(ops_view(ops@) =~= edict_ledger_ops(route, to_contract_id@, user_address@, *edict,
        pair_text(pair), text_of(another)));
    ops
}

/// Removing liquidity credits the user exactly what it debits the pool, on
/// each side: the changes come in pairs of one credit to the user and one
/// debit to the pool, of the same ticker and amount.
pub proof fn lemma_remove_liquidity_balanced(to: Seq<char>, user: Seq<char>, edict: Edict, t0: Seq<char>, t1: Seq<char>)
    ensures
        ({
            let ops = edict_ledger_ops(EdictRoute::RemoveLiquidity, to, user, edict, Some((t0, t1)), None);
            &&& ops.len() == 4
            &&& forall|i: int| 0 <= i < 2 ==> {
                &&& (#[trigger] ops[2 * i]).kind == LedgerKind::Sb3Mint && ops[2 * i].address == user
                &&& ops[2 * i + 1].kind == LedgerKind::Sb3Burn && ops[2 * i + 1].address == to
                &&& ops[2 * i].ticker == ops[2 * i + 1].ticker
                &&& ops[2 * i].contract_id == ops[2 * i + 1].contract_id
                &&& ops[2 * i].amount == edict.amount && ops[2 * i + 1].amount == edict.amount
            }
        }),
{
    let ops = edict_ledger_ops(EdictRoute::RemoveLiquidity, to, user, edict, Some((t0, t1)), None);
    assert forall|i: int| 0 <= i < 2 implies {
        &&& (#[trigger] ops[2 * i]).kind == LedgerKind::Sb3Mint && ops[2 * i].address == user
        &&& ops[2 * i + 1].kind == LedgerKind::Sb3Burn && ops[2 * i + 1].address == to
        &&& ops[2 * i].ticker == ops[2 * i + 1].ticker
        &&& ops[2 * i].contract_id == ops[2 * i + 1].contract_id
        &&& ops[2 * i].amount == edict.amount && ops[2 * i + 1].amount == edict.amount
    } by {
        if i == 0 {
        } else {
            assert(i == 1);
        }
    }
}

/// Removing liquidity books each side of the pool on that side's own
/// contract and in that side's ticker, whatever rune the edict names: the
/// user is credited, and the pool `to` debited, first ticker `t0` on
/// contract `t0`, then ticker `t1` on contract `t1`.
pub proof fn lemma_remove_liquidity_sides(
    to: Seq<char>,
    user: Seq<char>,
    edict: Edict,
    t0: Seq<char>,
    t1: Seq<char>,
    another: Option<Seq<char>>,
)
    ensures
        ({
            let ops = edict_ledger_ops(EdictRoute::RemoveLiquidity, to, user, edict, Some((t0, t1)), another);
            &&& ops.len() == 4
            &&& ops[0].contract_id == t0 && ops[0].ticker == t0 && ops[0].address == user
            &&& ops[1].contract_id == t0 && ops[1].ticker == t0 && ops[1].address == to
            &&& ops[2].contract_id == t1 && ops[2].ticker == t1 && ops[2].address == user
            &&& ops[3].contract_id == t1 && ops[3].ticker == t1 && ops[3].address == to
            &&& ops[0].kind == LedgerKind::Sb3Mint && ops[2].kind == LedgerKind::Sb3Mint
            &&& ops[1].kind == LedgerKind::Sb3Burn && ops[3].kind == LedgerKind::Sb3Burn
            &&& forall|i: int| 0 <= i < 4 ==> (#[trigger] ops[i]).amount == edict.amount
        }),
{
    let ops = edict_ledger_ops(EdictRoute::RemoveLiquidity, to, user, edict, Some((t0, t1)), another);
    assert forall|i: int| 0 <= i < 4 implies (#[trigger] ops[i]).amount == edict.amount by {
        if i == 0 {
        } else if i == 1 {
        } else if i == 2 {
        } else {
            assert(i == 3);
        }
    }
}

/// A wrap credits the user, on the contract of the edict's rune and in that
/// rune, the edict's amount: to the mint2 balance for a wrap by mint2, to the
/// mint3 balance for a wrap by mint3. Adding liquidity credits the pool `to`
/// there instead. A swap in a registered pool credits the user on the other
/// ticker's contract and debits the pool there, then credits the pool on the
/// edict's rune contract; in a pool not registered it changes nothing.
pub proof fn lemma_edict_changes_by_route(
    route: EdictRoute,
    to: Seq<char>,
    user: Seq<char>,
    edict: Edict,
    pair: Option<(Seq<char>, Seq<char>)>,
    another: Option<Seq<char>>,
)
    requires
        route != EdictRoute::RemoveLiquidity,
    ensures
        ({
            let ops = edict_ledger_ops(route, to, user, edict, pair, another);
            let rune = id_text(edict.id);
            &&& forall|i: int| 0 <= i < ops.len() ==> (#[trigger] ops[i]).amount == edict.amount
                && ops[i].ticker == rune
            &&& route == EdictRoute::WrapMint2 ==> ops.len() == 1 && ops[0].kind == LedgerKind::Sb2Mint
                && ops[0].contract_id == rune && ops[0].address == user
            &&& route == EdictRoute::WrapMint3 ==> ops.len() == 1 && ops[0].kind == LedgerKind::Sb3Mint
                && ops[0].contract_id == rune && ops[0].address == user
            &&& route == EdictRoute::AddLiquidity ==> ops.len() == 1 && ops[0].kind == LedgerKind::Sb3Mint
                && ops[0].contract_id == rune && ops[0].address == to
            &&& route == EdictRoute::Swap ==> match another {
                None => ops.len() == 0,
                Some(b) => {
                    &&& ops.len() == 3
                    &&& ops[0].kind == LedgerKind::Sb3Mint && ops[0].contract_id == b && ops[0].address == user
                    &&& ops[1].kind == LedgerKind::Sb3Burn && ops[1].contract_id == b && ops[1].address == to
                    &&& ops[2].kind == LedgerKind::Sb3Mint && ops[2].contract_id == rune && ops[2].address == to
                },
            }
        }),
{
    let ops = edict_ledger_ops(route, to, user, edict, pair, another);
    let rune = id_text(edict.id);
    assert forall|i: int| 0 <= i < ops.len() implies (#[trigger] ops[i]).amount == edict.amount
        && ops[i].ticker == rune by {
        if i == 0 {
        } else if i == 1 {
        } else {
            assert(i == 2);
        }
    }
}

/// The interpreter's answer to running an operation: success wherever the
/// contract is registered (whether or not the operation is), and an
/// unknown exception otherwise.
pub fn execute_result(contract_registered: bool) -> (r: ContractExecResult)
    ensures
        contract_registered ==> (r matches ContractExecResult::Success(m) && m@ == "RSM invoke contract successfully."@),
        !contract_registered ==> (r matches ContractExecResult::UnknownException(m) && m@ == "Contract not found."@),
{
    if contract_registered {
        ContractExecResult::Success(String::from_str("RSM invoke contract successfully."))
    } else {
        ContractExecResult::UnknownException(String::from_str("Contract not found."))
    }
}

/// The balance books of a wrapped rune contract.
#[derive(Debug, Clone, Copy, PartialEq, Eq, Structural)]
pub enum Ledger {
    /// Users' mint2 balances (sb2), by address and ticker.
    UserMint2,
    /// Users' mint3 balances (sb3), by address and ticker.
    UserMint3,
    /// The contract's own mint2 balances (sba2), by ticker.
    ApplicationMint2,
    /// The contract's own mint3 balances (sba3), by ticker.
    ApplicationMint3,
}

/// The amounts a pool keeps besides its ledgers.
#[derive(Debug, Clone, Copy, PartialEq, Eq, Structural)]
pub enum PoolAmount {
    Reserve0,
    Reserve1,
    Supply,
}

/// Where a wrapped rune contract answers a state query from: one of its
/// ledgers, or nowhere (the answer is zero).
pub open spec fn ledger_of_state(state: State) -> Option<Ledger> {
    match state {
        State::StateBalanceForMint2 => Some(Ledger::UserMint2),
        State::StateBalanceOfApplicationForMint2 => Some(Ledger::ApplicationMint2),
        State::StateBalanceForMint3 => Some(Ledger::UserMint3),
        State::StateBalanceOfApplicationForMint3 => Some(Ledger::ApplicationMint3),
        _ => None,
    }
}

/// The ledger a wrapped rune contract reads a state query from.
pub fn state_ledger(state: State) -> (r: Option<Ledger>)
    ensures
        r == ledger_of_state(state),
{
    match state {
        State::StateBalanceForMint2 => Some(Ledger::UserMint2),
        State::StateBalanceOfApplicationForMint2 => Some(Ledger::ApplicationMint2),
        State::StateBalanceForMint3 => Some(Ledger::UserMint3),
        State::StateBalanceOfApplicationForMint3 => Some(Ledger::ApplicationMint3),
        _ => None,
    }
}

/// The pool amount a pool answers a state query with, before it asks its
/// ledgers.
pub open spec fn pool_amount_of_state(state: State) -> Option<PoolAmount> {
    match state {
        State::Reserve0 => Some(PoolAmount::Reserve0),
        State::Reserve1 => Some(PoolAmount::Reserve1),
        State::Supply => Some(PoolAmount::Supply),
        _ => None,
    }
}

/// The pool amount a pool answers a state query with.
pub fn state_pool_amount(state: State) -> (r: Option<PoolAmount>)
    ensures
        r == pool_amount_of_state(state),
{
    match state {
        State::Reserve0 => Some(PoolAmount::Reserve0),
        State::Reserve1 => Some(PoolAmount::Reserve1),
        State::Supply => Some(PoolAmount::Supply),
        _ => None,
    }
}

/// The user ledger a burn of state debits: users' mint2 or mint3 balances;
/// other states are not burned.
pub open spec fn burn_ledger_of_state(state: State) -> Option<Ledger> {
    match state {
        State::StateBalanceForMint2 => Some(Ledger::UserMint2),
        State::StateBalanceForMint3 => Some(Ledger::UserMint3),
        _ => None,
    }
}

/// The user ledger a burn of state debits.
pub fn state_burn_ledger(state: State) -> (r: Option<Ledger>)
    ensures
        r == burn_ledger_of_state(state),
{
    match state {
        State::StateBalanceForMint2 => Some(Ledger::UserMint2),
        State::StateBalanceForMint3 => Some(Ledger::UserMint3),
        _ => None,
    }
}

/// Holds where `key` begins with `debug_`.
pub open spec fn is_debug_key(key: Seq<char>) -> bool {
    key.len() >= 6 && key.subrange(0, 6) == "debug_"@
}

/// Whether an operation is a debugging one, which a copied jump table leaves out.
pub fn is_debug_operation(key: &str) -> (r: bool)
    ensures
        r == is_debug_key(key@),
{
    let n = key.unicode_len();
    if n < 6 {
        return false;
    }
    let prefix = key.substring_char(0, 6);
    String::from_str(prefix) == String::from_str("debug_")
}

} // verus!
