//! Routing of a runestone's operations to contracts: which operations run,
//! on which contract, which edicts are applied and which lines are logged,
//! in the order the state machine performs them.

use vstd::prelude::*;
use vstd::string::*;
use crate::address::{
    extract_burn2_address, extract_burn3_address, extract_edict_address, extract_mint2_address,
    extract_mint3_address, output_address,
};
use crate::burn::{Burn2, Burn3};
use crate::context::OperateContext;
use crate::init::Etching;
use crate::mint::{Mint2, Mint3};
use crate::opi_log::{event_line, event_log_line};
use crate::rune::{id_text, Edict, RuneId, Transaction, TxOut};
use crate::stf::{stf_name_of_code, stf_of_code, StateTransitionName};

verus! {

/// The operations of a runestone that the state machine acts on.
#[derive(Debug, Clone, Default)]
pub struct Runestone {
    pub etching: Option<Etching>,
    pub mint2s: Option<Vec<Mint2>>,
    pub mint3s: Option<Vec<Mint3>>,
    pub burn2s: Option<Burn2>,
    pub burn3s: Option<Burn3>,
}

/// How an edict is applied to the contracts.
#[derive(Debug, Clone, Copy, PartialEq, Eq, Structural)]
pub enum EdictRoute {
    RemoveLiquidity,
    AddLiquidity,
    Swap,
    WrapMint2,
    WrapMint3,
}

/// The runestone operation an execution runs for: its burn2, its burn3, or
/// the mint at an index of its mint2s or mint3s.
#[derive(Debug, Clone, Copy, PartialEq, Eq, Structural)]
pub enum EventSource {
    Burn2,
    Burn3,
    Mint2(usize),
    Mint3(usize),
}

/// One thing the state machine does for a runestone.
#[derive(Debug)]
pub enum RsmStep {
    /// Create the contract that the runestone's etching asks for.
    InitContract,
    /// Run operation `function_name` of contract `contract_id`, in the
    /// context of `source`, whose first edict pays to `address`.
    Execute { contract_id: String, function_name: String, source: EventSource, address: Option<String> },
    /// Apply `edict`, paid to `user_address`, by `route`.
    Edict { route: EdictRoute, to_contract_id: String, user_address: String, edict: Edict },
    /// Write a line to the event log.
    Log(String),
}

/// A step with its texts as character sequences.
pub enum StepView {
    InitContract,
    Execute {
        contract_id: Seq<char>,
        function_name: Seq<char>,
        source: EventSource,
        address: Option<Seq<char>>,
    },
    Edict { route: EdictRoute, to_contract_id: Seq<char>, user_address: Seq<char>, edict: Edict },
    Log(Seq<char>),
}

/// An optional string as an optional character sequence.
pub open spec fn opt_text(o: Option<String>) -> Option<Seq<char>> {
    match o {
        Some(s) => Some(s@),
        None => None,
    }
}

/// A step with its strings read as character sequences.
pub open spec fn step_view(s: RsmStep) -> StepView {
    match s {
        RsmStep::InitContract => StepView::InitContract,
        RsmStep::Execute { contract_id, function_name, source, address } => StepView::Execute {
            contract_id: contract_id@,
            function_name: function_name@,
            source,
            address: opt_text(address),
        },
        RsmStep::Edict { route, to_contract_id, user_address, edict } => StepView::Edict {
            route,
            to_contract_id: to_contract_id@,
            user_address: user_address@,
            edict,
        },
        RsmStep::Log(line) => StepView::Log(line@),
    }
}

/// A list of steps, each read by `step_view`.
pub open spec fn steps_view(v: Seq<RsmStep>) -> Seq<StepView> {
    v.map_values(|s: RsmStep| step_view(s))
}

/// For each edict, in order, whose output has an address: the edict
/// applied by `route`, then its log line.
pub open spec fn edict_steps(
    route: EdictRoute,
    to_contract_id: Seq<char>,
    edicts: Seq<Edict>,
    tx: Transaction,
    block_height: u64,
    tx_id: Seq<char>,
    event: Seq<char>,
    stf: Seq<char>,
) -> Seq<StepView>
    decreases edicts.len(),
{
    if edicts.len() == 0 {
        seq![]
    } else {
        let before = edict_steps(route, to_contract_id, edicts.drop_last(), tx, block_height, tx_id, event, stf);
        let e = edicts.last();
        match output_address(tx, e.output) {
            Some(a) => before + seq![
                StepView::Edict { route, to_contract_id, user_address: a, edict: e },
                StepView::Log(event_line(block_height, event, tx_id, stf, e.output, to_contract_id,
                    id_text(e.id), e.amount, a)),
            ],
            None => before,
        }
    }
}

/// Holds where every edict names an existing output.
pub open spec fn outputs_exist(edicts: Seq<Edict>, tx: Transaction) -> bool {
    forall|i: int| 0 <= i < edicts.len() ==> (#[trigger] edicts[i]).output < tx.output@.len()
}

/// The steps of a burn2: run its state transition on contract `to`; for a
/// remove-liquidity, then apply each edict that pays to an address.
pub open spec fn burn2_steps(b: Burn2, tx: Transaction, block_height: u64, tx_id: Seq<char>) -> Seq<StepView> {
    let name = stf_name_of_code(b.state_transition_function).unwrap();
    seq![StepView::Execute {
        contract_id: id_text(b.to),
        function_name: name,
        source: EventSource::Burn2,
        address: output_address(tx, b.edicts@[0].output),
    }] + if stf_of_code(b.state_transition_function) == StateTransitionName::Rl {
        edict_steps(EdictRoute::RemoveLiquidity, id_text(b.to), b.edicts@, tx, block_height, tx_id,
            "tx_events_burn2"@, name)
    } else {
        seq![]
    }
}

/// The route a burn3's edicts take: add liquidity or swap; none for other
/// state transitions.
pub open spec fn burn3_route(stf: u32) -> Option<EdictRoute> {
    if stf_of_code(stf) == StateTransitionName::Al {
        Some(EdictRoute::AddLiquidity)
    } else if stf_of_code(stf) == StateTransitionName::Sw {
        Some(EdictRoute::Swap)
    } else {
        None
    }
}

/// The steps of a burn3: run its state transition on contract `to`; for an
/// add-liquidity or a swap, then apply each edict that pays to an address.
pub open spec fn burn3_steps(b: Burn3, tx: Transaction, block_height: u64, tx_id: Seq<char>) -> Seq<StepView> {
    let name = stf_name_of_code(b.state_transition_function).unwrap();
    seq![StepView::Execute {
        contract_id: id_text(b.to),
        function_name: name,
        source: EventSource::Burn3,
        address: output_address(tx, b.edicts@[0].output),
    }] + match burn3_route(b.state_transition_function) {
        Some(route) => edict_steps(route, id_text(b.to), b.edicts@, tx, block_height, tx_id,
            "tx_events_burn3"@, name),
        None => seq![],
    }
}

/// The address a mint's first edict pays to.
pub open spec fn mint_address(edicts: Option<Vec<Edict>>, tx: Transaction) -> Option<Seq<char>> {
    match edicts {
        Some(e) => output_address(tx, e@[0].output),
        None => None,
    }
}

/// The steps of the mint2 at index `k`: none without a state transition;
/// else run it on contract `from` and, for a wrap, apply each edict that
/// pays to an address.
pub open spec fn mint2_steps(m: Mint2, k: int, tx: Transaction, block_height: u64, tx_id: Seq<char>) -> Seq<StepView> {
    match m.state_transition_function {
        None => seq![],
        Some(stf) => {
            let name = stf_name_of_code(stf).unwrap();
            seq![StepView::Execute {
                contract_id: id_text(m.from),
                function_name: name,
                source: EventSource::Mint2(k as usize),
                address: mint_address(m.edicts, tx),
            }] + if stf_of_code(stf) == StateTransitionName::W2 && m.edicts is Some {
                edict_steps(EdictRoute::WrapMint2, id_text(m.from), m.edicts.unwrap()@, tx,
                    block_height, tx_id, "tx_events_mint2"@, name)
            } else {
                seq![]
            }
        },
    }
}

/// The steps of the mint3 at index `k`, as for a mint2 with wrap by mint3.
pub open spec fn mint3_steps(m: Mint3, k: int, tx: Transaction, block_height: u64, tx_id: Seq<char>) -> Seq<StepView> {
    match m.state_transition_function {
        None => seq![],
        Some(stf) => {
            let name = stf_name_of_code(stf).unwrap();
            seq![StepView::Execute {
                contract_id: id_text(m.from),
                function_name: name,
                source: EventSource::Mint3(k as usize),
                address: mint_address(m.edicts, tx),
            }] + if stf_of_code(stf) == StateTransitionName::W3 && m.edicts is Some {
                edict_steps(EdictRoute::WrapMint3, id_text(m.from), m.edicts.unwrap()@, tx,
                    block_height, tx_id, "tx_events_mint3"@, name)
            } else {
                seq![]
            }
        },
    }
}

/// The steps of a list of mint2s, in order.
pub open spec fn mint2s_steps(ms: Seq<Mint2>, tx: Transaction, block_height: u64, tx_id: Seq<char>) -> Seq<StepView>
    decreases ms.len(),
{
    if ms.len() == 0 {
        seq![]
    } else {
        mint2s_steps(ms.drop_last(), tx, block_height, tx_id)
            + mint2_steps(ms.last(), ms.len() - 1, tx, block_height, tx_id)
    }
}

/// The steps of a list of mint3s, in order.
pub open spec fn mint3s_steps(ms: Seq<Mint3>, tx: Transaction, block_height: u64, tx_id: Seq<char>) -> Seq<StepView>
    decreases ms.len(),
{
    if ms.len() == 0 {
        seq![]
    } else {
        mint3s_steps(ms.drop_last(), tx, block_height, tx_id)
            + mint3_steps(ms.last(), ms.len() - 1, tx, block_height, tx_id)
    }
}

/// The id of the contract an etching at `(block_height, tx_index)` creates.
pub open spec fn etched_id(block_height: u64, tx_index: u32) -> RuneId {
    RuneId { block: block_height, tx: tx_index }
}

/// The steps of an etching: create its contract, then log it under the new
/// contract's id.
pub open spec fn etching_steps(rs: Runestone, block_height: u64, tx_index: u32, tx_id: Seq<char>) -> Seq<StepView> {
    if rs.etching is Some {
        seq![
            StepView::InitContract,
            StepView::Log(event_line(block_height, "tx_events_init_contract"@, tx_id,
                "init_contract"@, 0, id_text(etched_id(block_height, tx_index)),
                id_text(etched_id(block_height, tx_index)), 0, seq![])),
        ]
    } else {
        seq![]
    }
}

/// All steps for a runestone in the order they are taken: the etching, the
/// burn2, the burn3, the mint2s, the mint3s.
pub open spec fn event_steps(rs: Runestone, tx: Transaction, block_height: u64, tx_index: u32, tx_id: Seq<char>) -> Seq<StepView> {
    etching_steps(rs, block_height, tx_index, tx_id)
        + (match rs.burn2s {
        Some(b) => burn2_steps(b, tx, block_height, tx_id),
        None => seq![],
    }) + (match rs.burn3s {
        Some(b) => burn3_steps(b, tx, block_height, tx_id),
        None => seq![],
    }) + (match rs.mint2s {
        Some(ms) => mint2s_steps(ms@, tx, block_height, tx_id),
        None => seq![],
    }) + (match rs.mint3s {
        Some(ms) => mint3s_steps(ms@, tx, block_height, tx_id),
        None => seq![],
    })
}

/// A burn the state machine can route: it has a first edict naming an
/// existing output, a known state transition, and, where its edicts are
/// applied, every edict names an existing output.
pub open spec fn burn_routable(stf: u32, edicts: Seq<Edict>, applies_edicts: bool, tx: Transaction) -> bool {
    &&& edicts.len() > 0
    &&& edicts[0].output < tx.output@.len()
    &&& stf_name_of_code(stf) is Some
    &&& applies_edicts ==> outputs_exist(edicts, tx)
}

/// A mint the state machine can route: its first edict, if it has edicts,
/// names an existing output; its state transition, if any, is known, and
/// where its edicts are applied every edict names an existing output.
pub open spec fn mint_routable(stf: Option<u32>, edicts: Option<Vec<Edict>>, wrap: StateTransitionName, tx: Transaction) -> bool {
    &&& edicts matches Some(e) ==> e@.len() > 0 && e@[0].output < tx.output@.len()
    &&& stf matches Some(s) ==> {
        &&& stf_name_of_code(s) is Some
        &&& stf_of_code(s) == wrap && edicts is Some ==> outputs_exist(edicts.unwrap()@, tx)
    }
}

/// A runestone whose operations can all be routed.
pub open spec fn routable(rs: Runestone, tx: Transaction) -> bool {
    &&& rs.burn2s matches Some(b) ==> burn_routable(b.state_transition_function, b.edicts@,
        stf_of_code(b.state_transition_function) == StateTransitionName::Rl, tx)
    &&& rs.burn3s matches Some(b) ==> burn_routable(b.state_transition_function, b.edicts@,
        burn3_route(b.state_transition_function) is Some, tx)
    &&& rs.mint2s matches Some(ms) ==> forall|k: int| 0 <= k < ms@.len() ==>
        mint_routable((#[trigger] ms@[k]).state_transition_function, ms@[k].edicts,
            StateTransitionName::W2, tx)
    &&& rs.mint3s matches Some(ms) ==> forall|k: int| 0 <= k < ms@.len() ==>
        mint_routable((#[trigger] ms@[k]).state_transition_function, ms@[k].edicts,
            StateTransitionName::W3, tx)
}

/// Holds where a step runs a state transition.
pub open spec fn is_execute(s: StepView) -> bool {
    s is Execute
}

/// Holds where a step applies an edict.
pub open spec fn is_edict(s: StepView) -> bool {
    s is Edict
}

/// The route an edict may take under a run of `function_name` for `source`:
/// remove liquidity under a burn2's `rl`, add liquidity under a burn3's `al`,
/// swap under a burn3's `sw`, wrap by mint2 under a mint2's `w2`, wrap by
/// mint3 under a mint3's `w3`.
pub open spec fn route_fits(source: EventSource, function_name: Seq<char>, route: EdictRoute) -> bool {
    match source {
        EventSource::Burn2 => function_name == "rl"@ && route == EdictRoute::RemoveLiquidity,
        EventSource::Burn3 => (function_name == "al"@ && route == EdictRoute::AddLiquidity)
            || (function_name == "sw"@ && route == EdictRoute::Swap),
        EventSource::Mint2(_) => function_name == "w2"@ && route == EdictRoute::WrapMint2,
        EventSource::Mint3(_) => function_name == "w3"@ && route == EdictRoute::WrapMint3,
    }
}

/// Holds where edict step `d` belongs to the run `x`: it goes to the same
/// contract, by the route that the run's source and function call for.
pub open spec fn governs(x: StepView, d: StepView) -> bool {
    match x {
        StepView::Execute { contract_id, function_name, source, .. } => match d {
            StepView::Edict { route, to_contract_id, .. } => to_contract_id == contract_id
                && route_fits(source, function_name, route),
            _ => true,
        },
        _ => true,
    }
}

/// Holds where every edict step comes after some run.
pub open spec fn edicts_after_execute(steps: Seq<StepView>) -> bool {
    forall|i: int| 0 <= i < steps.len() && is_edict(#[trigger] steps[i]) ==> exists|j: int|
        0 <= j < i && is_execute(#[trigger] steps[j])
}

/// Holds where every edict step that comes after a run belongs to the last
/// run before it.
pub open spec fn edicts_follow_last_execute(steps: Seq<StepView>) -> bool {
    forall|j: int, i: int|
        0 <= j < i < steps.len() && is_execute(#[trigger] steps[j]) && is_edict(#[trigger] steps[i])
            && (forall|l: int| j < l < i ==> !is_execute(#[trigger] steps[l])) ==> governs(steps[j], steps[i])
}

/// Holds where every edict step comes after some run, and belongs to the
/// last run before it.
pub open spec fn edicts_under_execute(steps: Seq<StepView>) -> bool {
    edicts_after_execute(steps) && edicts_follow_last_execute(steps)
}

/// Holds where a step is a log line or an edict applied by `route` to
/// contract `to_contract_id`.
pub open spec fn routed_edict_or_log(s: StepView, route: EdictRoute, to_contract_id: Seq<char>) -> bool {
    match s {
        StepView::Edict { route: r, to_contract_id: c, .. } => r == route && c == to_contract_id,
        StepView::Log(_) => true,
        _ => false,
    }
}

/// The steps of a list of edicts are edicts applied by the given route to
/// the given contract, and their log lines.
pub proof fn lemma_edict_steps_routed(
    route: EdictRoute,
    to_contract_id: Seq<char>,
    edicts: Seq<Edict>,
    tx: Transaction,
    block_height: u64,
    tx_id: Seq<char>,
    event: Seq<char>,
    stf: Seq<char>,
)
    ensures
        forall|i: int| 0 <= i < edict_steps(route, to_contract_id, edicts, tx, block_height, tx_id, event, stf).len()
            ==> routed_edict_or_log(
            #[trigger] edict_steps(route, to_contract_id, edicts, tx, block_height, tx_id, event, stf)[i],
            route,
            to_contract_id,
        ),
    decreases edicts.len(),
{
    if edicts.len() > 0 {
        let before = edict_steps(route, to_contract_id, edicts.drop_last(), tx, block_height, tx_id, event, stf);
        lemma_edict_steps_routed(route, to_contract_id, edicts.drop_last(), tx, block_height, tx_id, event, stf);
        let all = edict_steps(route, to_contract_id, edicts, tx, block_height, tx_id, event, stf);
        assert forall|i: int| 0 <= i < all.len() implies routed_edict_or_log(#[trigger] all[i], route,
            to_contract_id) by {
            if i < before.len() {
                match output_address(tx, edicts.last().output) {
                    Some(a) => { assert(all[i] == before[i]); },
                    None => {},
                }
            }
        }
    }
}

/// A run followed by edicts it routes, and their log lines.
proof fn lemma_run_then_edicts(x: StepView, es: Seq<StepView>, route: EdictRoute)
    requires
        x matches StepView::Execute { contract_id, function_name, source, .. } && route_fits(source,
            function_name, route) && forall|i: int| 0 <= i < es.len() ==> routed_edict_or_log(
            #[trigger] es[i],
            route,
            contract_id,
        ),
    ensures
        edicts_under_execute(seq![x] + es),
{
    let s = seq![x] + es;
    assert forall|i: int| 0 <= i < s.len() && is_edict(#[trigger] s[i]) implies exists|j: int|
        0 <= j < i && is_execute(#[trigger] s[j]) by {
        assert(s[i] == es[i - 1]);
        assert(is_execute(s[0]));
    }
    assert forall|j: int, i: int|
        0 <= j < i < s.len() && is_execute(#[trigger] s[j]) && is_edict(#[trigger] s[i])
            && (forall|l: int| j < l < i ==> !is_execute(#[trigger] s[l])) implies governs(s[j], s[i]) by {
        if j > 0 {
            assert(s[j] == es[j - 1]);
            assert(routed_edict_or_log(es[j - 1], route, x->contract_id));
        }
        assert(s[i] == es[i - 1]);
        assert(routed_edict_or_log(es[i - 1], route, x->contract_id));
    }
}

/// Steps that apply no edict.
proof fn lemma_no_edicts(s: Seq<StepView>)
    requires
        forall|i: int| 0 <= i < s.len() ==> !is_edict(#[trigger] s[i]),
    ensures
        edicts_under_execute(s),
{
}

/// Joining two step lists keeps every edict step after some run.
proof fn lemma_after_execute_concat(a: Seq<StepView>, b: Seq<StepView>)
    requires
        edicts_after_execute(a),
        edicts_after_execute(b),
    ensures
        edicts_after_execute(a + b),
{
    let s = a + b;
    assert forall|i: int| 0 <= i < s.len() && is_edict(#[trigger] s[i]) implies exists|j: int|
        0 <= j < i && is_execute(#[trigger] s[j]) by {
        if i < a.len() {
            assert(s[i] == a[i]);
            let j = choose|j: int| 0 <= j < i && is_execute(#[trigger] a[j]);
            assert(s[j] == a[j]);
        } else {
            assert(s[i] == b[i - a.len()]);
            let j = choose|j: int| 0 <= j < i - a.len() && is_execute(#[trigger] b[j]);
            assert(s[j + a.len()] == b[j]);
        }
    }
}

/// Joining two step lists in each of which every edict belongs to its run
/// keeps that so.
proof fn lemma_under_execute_concat(a: Seq<StepView>, b: Seq<StepView>)
    requires
        edicts_under_execute(a),
        edicts_under_execute(b),
    ensures
        edicts_under_execute(a + b),
{
    lemma_after_execute_concat(a, b);
    let s = a + b;
    assert forall|j: int, i: int|
        0 <= j < i < s.len() && is_execute(#[trigger] s[j]) && is_edict(#[trigger] s[i])
            && (forall|l: int| j < l < i ==> !is_execute(#[trigger] s[l])) implies governs(s[j], s[i]) by {
        if i < a.len() {
            lemma_governs_in_left(a, b, j, i);
        } else if j >= a.len() {
            lemma_governs_in_right(a, b, j, i);
        } else {
            lemma_no_run_between(a, b, j, i);
        }
    }
}

/// A run and an edict both in the left part of a joined list.
proof fn lemma_governs_in_left(a: Seq<StepView>, b: Seq<StepView>, j: int, i: int)
    requires
        edicts_follow_last_execute(a),
        0 <= j < i < a.len(),
        is_execute((a + b)[j]),
        is_edict((a + b)[i]),
        forall|l: int| j < l < i ==> !is_execute(#[trigger] (a + b)[l]),
    ensures
        governs((a + b)[j], (a + b)[i]),
{
    let s = a + b;
    assert(s[i] == a[i] && s[j] == a[j]);
    assert forall|l: int| j < l < i implies !is_execute(#[trigger] a[l]) by {
        assert(s[l] == a[l]);
    }
}

/// A run and an edict both in the right part of a joined list.
proof fn lemma_governs_in_right(a: Seq<StepView>, b: Seq<StepView>, j: int, i: int)
    requires
        edicts_follow_last_execute(b),
        a.len() <= j < i < (a + b).len(),
        is_execute((a + b)[j]),
        is_edict((a + b)[i]),
        forall|l: int| j < l < i ==> !is_execute(#[trigger] (a + b)[l]),
    ensures
        governs((a + b)[j], (a + b)[i]),
{
    let s = a + b;
    let jb = j - a.len();
    let ib = i - a.len();
    assert(s[i] == b[ib] && s[j] == b[jb]);
    assert forall|l: int| jb < l < ib implies !is_execute(#[trigger] b[l]) by {
        assert(s[l + a.len()] == b[l]);
    }
}

/// An edict in the right part of a joined list has a run of the right part
/// before it, so no run of the left part is the last before it.
proof fn lemma_no_run_between(a: Seq<StepView>, b: Seq<StepView>, j: int, i: int)
    requires
        edicts_after_execute(b),
        0 <= j < a.len() <= i < (a + b).len(),
        is_edict((a + b)[i]),
    ensures
        exists|l: int| j < l < i && is_execute(#[trigger] (a + b)[l]),
{
    let s = a + b;
    assert(s[i] == b[i - a.len()]);
    assert(is_edict(b[i - a.len()]));
    let k = choose|k: int| 0 <= k < i - a.len() && is_execute(#[trigger] b[k]);
    assert(s[k + a.len()] == b[k]);
    assert(is_execute(s[k + a.len()]));
}

/// The steps of a burn2 run its state transition, and every edict it applies
/// is a remove-liquidity under its `rl`, to the contract that ran it.
pub proof fn lemma_burn2_edicts_under_execute(b: Burn2, tx: Transaction, block_height: u64, tx_id: Seq<char>)
    ensures
        edicts_under_execute(burn2_steps(b, tx, block_height, tx_id)),
{
    let name = stf_name_of_code(b.state_transition_function).unwrap();
    let cid = id_text(b.to);
    let x = burn2_steps(b, tx, block_height, tx_id)[0];
    if stf_of_code(b.state_transition_function) == StateTransitionName::Rl {
        let es = edict_steps(EdictRoute::RemoveLiquidity, cid, b.edicts@, tx, block_height, tx_id,
            "tx_events_burn2"@, name);
        lemma_edict_steps_routed(EdictRoute::RemoveLiquidity, cid, b.edicts@, tx, block_height, tx_id,
            "tx_events_burn2"@, name);
        lemma_run_then_edicts(x, es, EdictRoute::RemoveLiquidity);
        assert(burn2_steps(b, tx, block_height, tx_id) == seq![x] + es);
    } else {
        assert(burn2_steps(b, tx, block_height, tx_id) =~= seq![x]);
        lemma_no_edicts(seq![x]);
    }
}

/// The steps of a burn3 run its state transition, and every edict it applies
/// is an add-liquidity under its `al` or a swap under its `sw`, to the
/// contract that ran it.
pub proof fn lemma_burn3_edicts_under_execute(b: Burn3, tx: Transaction, block_height: u64, tx_id: Seq<char>)
    ensures
        edicts_under_execute(burn3_steps(b, tx, block_height, tx_id)),
{
    let name = stf_name_of_code(b.state_transition_function).unwrap();
    let cid = id_text(b.to);
    let x = burn3_steps(b, tx, block_height, tx_id)[0];
    match burn3_route(b.state_transition_function) {
        Some(route) => {
            let es = edict_steps(route, cid, b.edicts@, tx, block_height, tx_id, "tx_events_burn3"@, name);
            lemma_edict_steps_routed(route, cid, b.edicts@, tx, block_height, tx_id, "tx_events_burn3"@, name);
            lemma_run_then_edicts(x, es, route);
            assert(burn3_steps(b, tx, block_height, tx_id) == seq![x] + es);
        },
        None => {
            assert(burn3_steps(b, tx, block_height, tx_id) =~= seq![x]);
            lemma_no_edicts(seq![x]);
        },
    }
}

/// The steps of the mint2 at index `k`: every edict it applies is a wrap by
/// mint2 under its `w2`, to the contract that ran it.
pub proof fn lemma_mint2_edicts_under_execute(m: Mint2, k: int, tx: Transaction, block_height: u64, tx_id: Seq<char>)
    ensures
        edicts_under_execute(mint2_steps(m, k, tx, block_height, tx_id)),
{
    let steps = mint2_steps(m, k, tx, block_height, tx_id);
    match m.state_transition_function {
        None => { lemma_no_edicts(steps); },
        Some(stf) => {
            let name = stf_name_of_code(stf).unwrap();
            let x = steps[0];
            if stf_of_code(stf) == StateTransitionName::W2 && m.edicts is Some {
                let es = edict_steps(EdictRoute::WrapMint2, id_text(m.from), m.edicts.unwrap()@, tx,
                    block_height, tx_id, "tx_events_mint2"@, name);
                lemma_edict_steps_routed(EdictRoute::WrapMint2, id_text(m.from), m.edicts.unwrap()@, tx,
                    block_height, tx_id, "tx_events_mint2"@, name);
                lemma_run_then_edicts(x, es, EdictRoute::WrapMint2);
                assert(steps == seq![x] + es);
            } else {
                assert(steps =~= seq![x]);
                lemma_no_edicts(seq![x]);
            }
        },
    }
}

/// The steps of the mint3 at index `k`: every edict it applies is a wrap by
/// mint3 under its `w3`, to the contract that ran it.
pub proof fn lemma_mint3_edicts_under_execute(m: Mint3, k: int, tx: Transaction, block_height: u64, tx_id: Seq<char>)
    ensures
        edicts_under_execute(mint3_steps(m, k, tx, block_height, tx_id)),
{
    let steps = mint3_steps(m, k, tx, block_height, tx_id);
    match m.state_transition_function {
        None => { lemma_no_edicts(steps); },
        Some(stf) => {
            let name = stf_name_of_code(stf).unwrap();
            let x = steps[0];
            if stf_of_code(stf) == StateTransitionName::W3 && m.edicts is Some {
                let es = edict_steps(EdictRoute::WrapMint3, id_text(m.from), m.edicts.unwrap()@, tx,
                    block_height, tx_id, "tx_events_mint3"@, name);
                lemma_edict_steps_routed(EdictRoute::WrapMint3, id_text(m.from), m.edicts.unwrap()@, tx,
                    block_height, tx_id, "tx_events_mint3"@, name);
                lemma_run_then_edicts(x, es, EdictRoute::WrapMint3);
                assert(steps == seq![x] + es);
            } else {
                assert(steps =~= seq![x]);
                lemma_no_edicts(seq![x]);
            }
        },
    }
}

/// Every edict a list of mint2s applies is a wrap by mint2, under the `w2`
/// of its own mint, to that mint's contract.
pub proof fn lemma_mint2s_edicts_under_execute(ms: Seq<Mint2>, tx: Transaction, block_height: u64, tx_id: Seq<char>)
    ensures
        edicts_under_execute(mint2s_steps(ms, tx, block_height, tx_id)),
    decreases ms.len(),
{
    if ms.len() == 0 {
        lemma_no_edicts(mint2s_steps(ms, tx, block_height, tx_id));
    } else {
        lemma_mint2s_edicts_under_execute(ms.drop_last(), tx, block_height, tx_id);
        lemma_mint2_edicts_under_execute(ms.last(), ms.len() - 1, tx, block_height, tx_id);
        lemma_under_execute_concat(mint2s_steps(ms.drop_last(), tx, block_height, tx_id),
            mint2_steps(ms.last(), ms.len() - 1, tx, block_height, tx_id));
    }
}

/// Every edict a list of mint3s applies is a wrap by mint3, under the `w3`
/// of its own mint, to that mint's contract.
pub proof fn lemma_mint3s_edicts_under_execute(ms: Seq<Mint3>, tx: Transaction, block_height: u64, tx_id: Seq<char>)
    ensures
        edicts_under_execute(mint3s_steps(ms, tx, block_height, tx_id)),
    decreases ms.len(),
{
    if ms.len() == 0 {
        lemma_no_edicts(mint3s_steps(ms, tx, block_height, tx_id));
    } else {
        lemma_mint3s_edicts_under_execute(ms.drop_last(), tx, block_height, tx_id);
        lemma_mint3_edicts_under_execute(ms.last(), ms.len() - 1, tx, block_height, tx_id);
        lemma_under_execute_concat(mint3s_steps(ms.drop_last(), tx, block_height, tx_id),
            mint3_steps(ms.last(), ms.len() - 1, tx, block_height, tx_id));
    }
}

/// In all the steps planned for a runestone, every applied edict comes
/// after a run of a state transition and belongs to the last run before it:
/// it goes to that run's contract, and by the route that the run's operation
/// and function call for (remove liquidity for a burn2's `rl`, add
/// liquidity or swap for a burn3's `al` or `sw`, wrap by mint2 for a mint2's
/// `w2`, wrap by mint3 for a mint3's `w3`).
pub proof fn lemma_event_edicts_under_execute(
    rs: Runestone,
    tx: Transaction,
    block_height: u64,
    tx_index: u32,
    tx_id: Seq<char>,
)
    ensures
        edicts_under_execute(event_steps(rs, tx, block_height, tx_index, tx_id)),
{
    let e = etching_steps(rs, block_height, tx_index, tx_id);
    let b2 = match rs.burn2s {
        Some(b) => burn2_steps(b, tx, block_height, tx_id),
        None => seq![],
    };
    let b3 = match rs.burn3s {
        Some(b) => burn3_steps(b, tx, block_height, tx_id),
        None => seq![],
    };
    let m2 = match rs.mint2s {
        Some(ms) => mint2s_steps(ms@, tx, block_height, tx_id),
        None => seq![],
    };
    let m3 = match rs.mint3s {
        Some(ms) => mint3s_steps(ms@, tx, block_height, tx_id),
        None => seq![],
    };
    lemma_no_edicts(e);
    match rs.burn2s {
        Some(b) => lemma_burn2_edicts_under_execute(b, tx, block_height, tx_id),
        None => lemma_no_edicts(b2),
    }
    match rs.burn3s {
        Some(b) => lemma_burn3_edicts_under_execute(b, tx, block_height, tx_id),
        None => lemma_no_edicts(b3),
    }
    match rs.mint2s {
        Some(ms) => lemma_mint2s_edicts_under_execute(ms@, tx, block_height, tx_id),
        None => lemma_no_edicts(m2),
    }
    match rs.mint3s {
        Some(ms) => lemma_mint3s_edicts_under_execute(ms@, tx, block_height, tx_id),
        None => lemma_no_edicts(m3),
    }
    lemma_under_execute_concat(e, b2);
    lemma_under_execute_concat(e + b2, b3);
    lemma_under_execute_concat(e + b2 + b3, m2);
    lemma_under_execute_concat(e + b2 + b3 + m2, m3);
}

/// Appends a step, keeping the view in step.
fn push_step(steps: &mut Vec<RsmStep>, s: RsmStep)
    ensures
        steps_view(final(steps)@) == steps_view(old(steps)@).push(step_view(s)),
{
    let ghost before = steps@;
    steps.push(s);
    assert(steps_view(steps@) =~= steps_view(before).push(step_view(s)));
}

/// Appends the steps of the edicts that pay to an address.
fn push_edict_steps(
    steps: &mut Vec<RsmStep>,
    route: EdictRoute,
    to_contract_id: &String,
    edicts: &Vec<Edict>,
    tx: &Transaction,
    block_height: u64,
    tx_id: &str,
    event: &str,
    stf: &String,
)
    requires
        outputs_exist(edicts@, *tx),
    ensures
        steps_view(final(steps)@) == steps_view(old(steps)@) + edict_steps(route, to_contract_id@,
            edicts@, *tx, block_height, tx_id@, event@, stf@),
{
    let ghost start = steps_view(steps@);
    let mut k: usize = 0;
    assert(edicts@.take(0) =~= Seq::<Edict>::empty());
    assert(start + edict_steps(route, to_contract_id@, edicts@.take(0), *tx, block_height, tx_id@,
        event@, stf@) =~= start);
    while k < edicts.len()
        invariant
            k <= edicts@.len(),
            outputs_exist(edicts@, *tx),
            steps_view(steps@) == start + edict_steps(route, to_contract_id@, edicts@.take(k as int),
                *tx, block_height, tx_id@, event@, stf@),
        decreases edicts@.len() - k,
    {
        let e = edicts[k];
        assert(edicts@[k as int].output < tx.output@.len());
        assert(edicts@.take(k + 1).drop_last() =~= edicts@.take(k as int));
        assert(edicts@.take(k + 1).last() == e);
        let ghost before = edict_steps(route, to_contract_id@, edicts@.take(k as int), *tx,
            block_height, tx_id@, event@, stf@);
        match extract_edict_address(&e, tx) {
            Some(a) => {
                let id = e.id.to_str();
                let line = event_log_line(block_height, event, tx_id, stf.as_str(), e.output,
                    to_contract_id.as_str(), id.as_str(), e.amount, a.as_str());
                push_step(steps, RsmStep::Edict {
                    route,
                    to_contract_id: to_contract_id.clone(),
                    user_address: a,
                    edict: e,
                });
                push_step(steps, RsmStep::Log(line));
                assert(steps_view(steps@) =~= start + edict_steps(route, to_contract_id@,
                    edicts@.take(k + 1), *tx, block_height, tx_id@, event@, stf@));
            },
            None => {},
        }
        k = k + 1;
    }
    assert(edicts@.take(edicts@.len() as int) =~= edicts@);
}

/// Appends the steps of a burn2.
fn push_burn2_steps(steps: &mut Vec<RsmStep>, b: &Burn2, tx: &Transaction, block_height: u64, tx_id: &str)
    requires
        burn_routable(b.state_transition_function, b.edicts@,
            stf_of_code(b.state_transition_function) == StateTransitionName::Rl, *tx),
    ensures
        steps_view(final(steps)@) == steps_view(old(steps)@) + burn2_steps(*b, *tx, block_height, tx_id@),
{
    let ghost start = steps_view(steps@);
    let name = StateTransitionName::from_u32(b.state_transition_function).unwrap();
    let address = extract_burn2_address(b, tx);
    let contract_id = b.to.to_str();
    push_step(steps, RsmStep::Execute {
        contract_id: contract_id.clone(),
        function_name: name.clone(),
        source: EventSource::Burn2,
        address,
    });
    if StateTransitionName::from(b.state_transition_function) == StateTransitionName::Rl && !b.edicts.is_empty() {
        push_edict_steps(steps, EdictRoute::RemoveLiquidity, &contract_id, &b.edicts, tx, block_height,
            tx_id, "tx_events_burn2", &name);
    }
    assert(steps_view(steps@) =~= start + burn2_steps(*b, *tx, block_height, tx_id@));
}

/// Appends the steps of a burn3.
fn push_burn3_steps(steps: &mut Vec<RsmStep>, b: &Burn3, tx: &Transaction, block_height: u64, tx_id: &str)
    requires
        burn_routable(b.state_transition_function, b.edicts@,
            burn3_route(b.state_transition_function) is Some, *tx),
    ensures
        steps_view(final(steps)@) == steps_view(old(steps)@) + burn3_steps(*b, *tx, block_height, tx_id@),
{
    let ghost start = steps_view(steps@);
    let name = StateTransitionName::from_u32(b.state_transition_function).unwrap();
    let address = extract_burn3_address(b, tx);
    let contract_id = b.to.to_str();
    push_step(steps, RsmStep::Execute {
        contract_id: contract_id.clone(),
        function_name: name.clone(),
        source: EventSource::Burn3,
        address,
    });
    let kind = StateTransitionName::from(b.state_transition_function);
    if (kind == StateTransitionName::Al || kind == StateTransitionName::Sw) && !b.edicts.is_empty() {
        let route = if kind == StateTransitionName::Al {
            EdictRoute::AddLiquidity
        } else {
            EdictRoute::Swap
        };
        push_edict_steps(steps, route, &contract_id, &b.edicts, tx, block_height, tx_id,
            "tx_events_burn3", &name);
    }
    assert(steps_view(steps@) =~= start + burn3_steps(*b, *tx, block_height, tx_id@));
}

/// Appends the steps of the mint2s.
fn push_mint2s_steps(steps: &mut Vec<RsmStep>, ms: &Vec<Mint2>, tx: &Transaction, block_height: u64, tx_id: &str)
    requires
        forall|k: int| 0 <= k < ms@.len() ==> mint_routable((#[trigger] ms@[k]).state_transition_function,
            ms@[k].edicts, StateTransitionName::W2, *tx),
    ensures
        steps_view(final(steps)@) == steps_view(old(steps)@) + mint2s_steps(ms@, *tx, block_height, tx_id@),
{
    let ghost start = steps_view(steps@);
    let mut k: usize = 0;
    assert(ms@.take(0) =~= Seq::<Mint2>::empty());
    assert(start + mint2s_steps(ms@.take(0), *tx, block_height, tx_id@) =~= start);
    while k < ms.len()
        invariant
            k <= ms@.len(),
            forall|j: int| 0 <= j < ms@.len() ==> mint_routable((#[trigger] ms@[j]).state_transition_function,
                ms@[j].edicts, StateTransitionName::W2, *tx),
            steps_view(steps@) == start + mint2s_steps(ms@.take(k as int), *tx, block_height, tx_id@),
        decreases ms@.len() - k,
    {
        let m = &ms[k];
        assert(mint_routable(ms@[k as int].state_transition_function, ms@[k as int].edicts,
            StateTransitionName::W2, *tx));
        assert(ms@.take(k + 1).drop_last() =~= ms@.take(k as int));
        assert(ms@.take(k + 1).last() == *m);
        let ghost mid = steps_view(steps@);
        let address = extract_mint2_address(m, tx);
        match m.state_transition_function {
            Some(stf) => {
                let name = StateTransitionName::from_u32(stf).unwrap();
                let contract_id = m.from.to_str();
                push_step(steps, RsmStep::Execute {
                    contract_id: contract_id.clone(),
                    function_name: name.clone(),
                    source: EventSource::Mint2(k),
                    address,
                });
                if StateTransitionName::from(stf) == StateTransitionName::W2 {
                    match &m.edicts {
                        Some(edicts) => {
                            push_edict_steps(steps, EdictRoute::WrapMint2, &contract_id, edicts, tx,
                                block_height, tx_id, "tx_events_mint2", &name);
                        },
                        None => {},
                    }
                }
            },
            None => {},
        }
        assert(steps_view(steps@) =~= mid + mint2_steps(*m, k as int, *tx, block_height, tx_id@));
        k = k + 1;
    }
    assert(ms@.take(ms@.len() as int) =~= ms@);
}

/// Appends the steps of the mint3s.
fn push_mint3s_steps(steps: &mut Vec<RsmStep>, ms: &Vec<Mint3>, tx: &Transaction, block_height: u64, tx_id: &str)
    requires
        forall|k: int| 0 <= k < ms@.len() ==> mint_routable((#[trigger] ms@[k]).state_transition_function,
            ms@[k].edicts, StateTransitionName::W3, *tx),
    ensures
        steps_view(final(steps)@) == steps_view(old(steps)@) + mint3s_steps(ms@, *tx, block_height, tx_id@),
{
    let ghost start = steps_view(steps@);
    let mut k: usize = 0;
    assert(ms@.take(0) =~= Seq::<Mint3>::empty());
    assert(start + mint3s_steps(ms@.take(0), *tx, block_height, tx_id@) =~= start);
    while k < ms.len()
        invariant
            k <= ms@.len(),
            forall|j: int| 0 <= j < ms@.len() ==> mint_routable((#[trigger] ms@[j]).state_transition_function,
                ms@[j].edicts, StateTransitionName::W3, *tx),
            steps_view(steps@) == start + mint3s_steps(ms@.take(k as int), *tx, block_height, tx_id@),
        decreases ms@.len() - k,
    {
        let m = &ms[k];
        assert(mint_routable(ms@[k as int].state_transition_function, ms@[k as int].edicts,
            StateTransitionName::W3, *tx));
        assert(ms@.take(k + 1).drop_last() =~= ms@.take(k as int));
        assert(ms@.take(k + 1).last() == *m);
        let ghost mid = steps_view(steps@);
        let address = extract_mint3_address(m, tx);
        match m.state_transition_function {
            Some(stf) => {
                let name = StateTransitionName::from_u32(stf).unwrap();
                let contract_id = m.from.to_str();
                push_step(steps, RsmStep::Execute {
                    contract_id: contract_id.clone(),
                    function_name: name.clone(),
                    source: EventSource::Mint3(k),
                    address,
                });
                if StateTransitionName::from(stf) == StateTransitionName::W3 {
                    match &m.edicts {
                        Some(edicts) => {
                            push_edict_steps(steps, EdictRoute::WrapMint3, &contract_id, edicts, tx,
                                block_height, tx_id, "tx_events_mint3", &name);
                        },
                        None => {},
                    }
                }
            },
            None => {},
        }
        assert(steps_view(steps@) =~= mid + mint3_steps(*m, k as int, *tx, block_height, tx_id@));
        k = k + 1;
    }
    assert(ms@.take(ms@.len() as int) =~= ms@);
}

/// The steps the state machine takes for a runestone of transaction `tx`,
/// at index `tx_index` of block `block_height`, whose id reads `tx_id`:
/// create the etched contract,
/// run the burn2's and burn3's state transitions and apply their edicts,
/// then each mint's, logging every applied edict.
pub fn plan_contract_events(
    runestone: &Runestone,
    transaction: &Transaction,
    block_height: u64,
    tx_index: u32,
    tx_id: &str,
) -> (steps: Vec<RsmStep>)
    requires
        routable(*runestone, *transaction),
    ensures
        steps_view(steps@) == event_steps(*runestone, *transaction, block_height, tx_index, tx_id@),
{
    let mut steps: Vec<RsmStep> = Vec::new();
    assert(steps_view(steps@) =~= Seq::<StepView>::empty());
    if runestone.etching.is_some() {
        push_step(&mut steps, RsmStep::InitContract);
        let contract_id = RuneId { block: block_height, tx: tx_index }.to_str();
        let line = event_log_line(block_height, "tx_events_init_contract", tx_id, "init_contract", 0,
            contract_id.as_str(), contract_id.as_str(), 0, "");
        proof { reveal_strlit(""); }
        push_step(&mut steps, RsmStep::Log(line));
    }
    let ghost after_etching = steps_view(steps@);
    assert(after_etching =~= etching_steps(*runestone, block_height, tx_index, tx_id@));
    match &runestone.burn2s {
        Some(b) => push_burn2_steps(&mut steps, b, transaction, block_height, tx_id),
        None => {},
    }
    let ghost after_burn2 = steps_view(steps@);
    match &runestone.burn3s {
        Some(b) => push_burn3_steps(&mut steps, b, transaction, block_height, tx_id),
        None => {},
    }
    let ghost after_burn3 = steps_view(steps@);
    match &runestone.mint2s {
        Some(ms) => push_mint2s_steps(&mut steps, ms, transaction, block_height, tx_id),
        None => {},
    }
    let ghost after_mint2 = steps_view(steps@);
    match &runestone.mint3s {
        Some(ms) => push_mint3s_steps(&mut steps, ms, transaction, block_height, tx_id),
        None => {},
    }
    assert(steps_view(steps@) =~= event_steps(*runestone, *transaction, block_height, tx_index, tx_id@));
    steps
}

/// Holds where two burn2s carry the same data.
pub open spec fn same_burn2(a: Burn2, b: Burn2) -> bool {
    a.to == b.to && a.state_transition_function == b.state_transition_function && a.edicts@ == b.edicts@
        && a.proof == b.proof && a.ext == b.ext
}

/// Holds where two burn3s carry the same data.
pub open spec fn same_burn3(a: Burn3, b: Burn3) -> bool {
    a.to == b.to && a.state_transition_function == b.state_transition_function && a.edicts@ == b.edicts@
        && a.proof == b.proof && a.ext == b.ext
}

/// Holds where two optional edict lists hold the same edicts.
pub open spec fn same_edict_list(a: Option<Vec<Edict>>, b: Option<Vec<Edict>>) -> bool {
    match (a, b) {
        (Some(x), Some(y)) => x@ == y@,
        (None, None) => true,
        _ => false,
    }
}

/// Holds where two lists of mint2s carry the same data.
pub open spec fn same_mint2s(a: Seq<Mint2>, b: Seq<Mint2>) -> bool {
    &&& a.len() == b.len()
    &&& forall|i: int| 0 <= i < a.len() ==> {
        &&& (#[trigger] a[i]).from == b[i].from
        &&& a[i].state_transition_function == b[i].state_transition_function
        &&& same_edict_list(a[i].edicts, b[i].edicts)
        &&& a[i].proof == b[i].proof
    }
}

/// Holds where two lists of mint3s carry the same data.
pub open spec fn same_mint3s(a: Seq<Mint3>, b: Seq<Mint3>) -> bool {
    &&& a.len() == b.len()
    &&& forall|i: int| 0 <= i < a.len() ==> {
        &&& (#[trigger] a[i]).from == b[i].from
        &&& a[i].state_transition_function == b[i].state_transition_function
        &&& same_edict_list(a[i].edicts, b[i].edicts)
        &&& a[i].proof == b[i].proof
    }
}

/// Holds where two transactions have outputs with the same scripts.
pub open spec fn same_transaction(a: Transaction, b: Transaction) -> bool {
    &&& a.output@.len() == b.output@.len()
    &&& forall|i: int| 0 <= i < a.output@.len() ==>
        (#[trigger] a.output@[i]).script_pubkey@ == b.output@[i].script_pubkey@
}

fn copy_bytes(v: &Vec<u8>) -> (r: Vec<u8>)
    ensures
        r@ == v@,
{
    let mut r: Vec<u8> = Vec::new();
    let mut i: usize = 0;
    while i < v.len()
        invariant
            i <= v@.len(),
            r@ == v@.take(i as int),
        decreases v@.len() - i,
    {
        r.push(v[i]);
        assert(v@.take(i + 1) =~= v@.take(i as int).push(v@[i as int]));
        i = i + 1;
    }
    assert(v@.take(v@.len() as int) =~= v@);
    r
}

fn copy_edicts(v: &Vec<Edict>) -> (r: Vec<Edict>)
    ensures
        r@ == v@,
{
    let mut r: Vec<Edict> = Vec::new();
    let mut i: usize = 0;
    while i < v.len()
        invariant
            i <= v@.len(),
            r@ == v@.take(i as int),
        decreases v@.len() - i,
    {
        r.push(v[i]);
        assert(v@.take(i + 1) =~= v@.take(i as int).push(v@[i as int]));
        i = i + 1;
    }
    assert(v@.take(v@.len() as int) =~= v@);
    r
}

fn copy_edict_list(v: &Option<Vec<Edict>>) -> (r: Option<Vec<Edict>>)
    ensures
        same_edict_list(r, *v),
{
    match v {
        Some(e) => Some(copy_edicts(e)),
        None => None,
    }
}

fn copy_transaction(tx: &Transaction) -> (r: Transaction)
    ensures
        same_transaction(r, *tx),
{
    let mut output: Vec<TxOut> = Vec::new();
    let mut i: usize = 0;
    while i < tx.output.len()
        invariant
            i <= tx.output@.len(),
            output@.len() == i,
            forall|j: int| 0 <= j < i ==> (#[trigger] output@[j]).script_pubkey@ == tx.output@[j].script_pubkey@,
        decreases tx.output@.len() - i,
    {
        output.push(TxOut { script_pubkey: copy_bytes(&tx.output[i].script_pubkey) });
        i = i + 1;
    }
    Transaction { output }
}

fn copy_burn2(b: &Burn2) -> (r: Burn2)
    ensures
        same_burn2(r, *b),
{
    Burn2 {
        to: b.to,
        state_transition_function: b.state_transition_function,
        edicts: copy_edicts(&b.edicts),
        proof: b.proof,
        ext: b.ext,
    }
}

fn copy_burn3(b: &Burn3) -> (r: Burn3)
    ensures
        same_burn3(r, *b),
{
    Burn3 {
        to: b.to,
        state_transition_function: b.state_transition_function,
        edicts: copy_edicts(&b.edicts),
        proof: b.proof,
        ext: b.ext,
    }
}

fn copy_mint2s(ms: &Vec<Mint2>) -> (r: Vec<Mint2>)
    ensures
        same_mint2s(r@, ms@),
{
    let mut r: Vec<Mint2> = Vec::new();
    let mut i: usize = 0;
    while i < ms.len()
        invariant
            i <= ms@.len(),
            same_mint2s(r@, ms@.take(i as int)),
        decreases ms@.len() - i,
    {
        let m = &ms[i];
        r.push(Mint2 {
            from: m.from,
            state_transition_function: m.state_transition_function,
            edicts: copy_edict_list(&m.edicts),
            proof: m.proof,
        });
        assert(same_mint2s(r@, ms@.take(i + 1)));
        i = i + 1;
    }
    assert(ms@.take(ms@.len() as int) =~= ms@);
    r
}

fn copy_mint3s(ms: &Vec<Mint3>) -> (r: Vec<Mint3>)
    ensures
        same_mint3s(r@, ms@),
{
    let mut r: Vec<Mint3> = Vec::new();
    let mut i: usize = 0;
    while i < ms.len()
        invariant
            i <= ms@.len(),
            same_mint3s(r@, ms@.take(i as int)),
        decreases ms@.len() - i,
    {
        let m = &ms[i];
        r.push(Mint3 {
            from: m.from,
            state_transition_function: m.state_transition_function,
            edicts: copy_edict_list(&m.edicts),
            proof: m.proof,
        });
        assert(same_mint3s(r@, ms@.take(i + 1)));
        i = i + 1;
    }
    assert(ms@.take(ms@.len() as int) =~= ms@);
    r
}

/// The context an execution step runs in: the block and transaction, the
/// operation's target rune id, the operation itself (for a mint, the whole
/// list of mints of its kind) and the address its first edict pays to.
pub fn operate_context(
    runestone: &Runestone,
    source: EventSource,
    transaction: &Transaction,
    block_height: u64,
    block_time: u32,
    tx: u32,
    tx_id: &Vec<u8>,
    address: Option<String>,
) -> (ctx: OperateContext)
    requires
        source == EventSource::Burn2 ==> runestone.burn2s is Some,
        source == EventSource::Burn3 ==> runestone.burn3s is Some,
        source matches EventSource::Mint2(k) ==> runestone.mint2s matches Some(ms) && k < ms@.len(),
        source matches EventSource::Mint3(k) ==> runestone.mint3s matches Some(ms) && k < ms@.len(),
    ensures
        ctx.block_height == block_height,
        ctx.block_timestamp == block_time as u64,
        ctx.tx == tx,
        ctx.tx_id@ == tx_id@,
        same_transaction(ctx.transaction, *transaction),
        opt_text(ctx.address) == opt_text(address),
        match source {
            EventSource::Burn2 => ctx.rune_id == runestone.burn2s.unwrap().to
                && (ctx.burn2s matches Some(b) && same_burn2(b, runestone.burn2s.unwrap()))
                && ctx.burn3s is None && ctx.mint2s is None && ctx.mint3s is None,
            EventSource::Burn3 => ctx.rune_id == runestone.burn3s.unwrap().to
                && (ctx.burn3s matches Some(b) && same_burn3(b, runestone.burn3s.unwrap()))
                && ctx.burn2s is None && ctx.mint2s is None && ctx.mint3s is None,
            EventSource::Mint2(k) => ctx.rune_id == runestone.mint2s.unwrap()@[k as int].from
                && (ctx.mint2s matches Some(ms) && same_mint2s(ms@, runestone.mint2s.unwrap()@))
                && ctx.burn2s is None && ctx.burn3s is None && ctx.mint3s is None,
            EventSource::Mint3(k) => ctx.rune_id == runestone.mint3s.unwrap()@[k as int].from
                && (ctx.mint3s matches Some(ms) && same_mint3s(ms@, runestone.mint3s.unwrap()@))
                && ctx.burn2s is None && ctx.burn3s is None && ctx.mint2s is None,
        },
{
    let mut ctx = OperateContext {
        block_height,
        block_timestamp: block_time as u64,
        tx,
        tx_id: copy_bytes(tx_id),
        rune_id: RuneId { block: 0, tx: 0 },
        transaction: copy_transaction(transaction),
        mint2s: None,
        mint3s: None,
        burn2s: None,
        burn3s: None,
        address,
    };
    match source {
        EventSource::Burn2 => {
            let b = runestone.burn2s.as_ref().unwrap();
            ctx.rune_id = b.to;
            ctx.burn2s = Some(copy_burn2(b));
        },
        EventSource::Burn3 => {
            let b = runestone.burn3s.as_ref().unwrap();
            ctx.rune_id = b.to;
            ctx.burn3s = Some(copy_burn3(b));
        },
        EventSource::Mint2(k) => {
            let ms = runestone.mint2s.as_ref().unwrap();
            ctx.rune_id = ms[k].from;
            ctx.mint2s = Some(copy_mint2s(ms));
        },
        EventSource::Mint3(k) => {
            let ms = runestone.mint3s.as_ref().unwrap();
            ctx.rune_id = ms[k].from;
            ctx.mint3s = Some(copy_mint3s(ms));
        },
    }
    ctx
}

} // verus!
