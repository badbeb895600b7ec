use rsm::address::{extract_burn2_address, extract_edict_address, extract_mint2_address};
use rsm::burn::{Burn2, Burn3};
use rsm::contract::{ContractExecResult, ContractTemplate};
use rsm::events::{operate_context, plan_contract_events, EdictRoute, EventSource, RsmStep, Runestone};
use rsm::init::{decide_init, Etching, InitDecision};
use rsm::mint::Mint2;
use rsm::routing::{edict_ledger_changes, execute_result, is_debug_operation, LedgerKind, LedgerOp};
use rsm::rune::{Edict, Rune, RuneId, Transaction, TxOut};
use rsm::trading::Trading;

fn p2pkh_zero() -> Vec<u8> {
    let mut s = vec![0x76, 0xa9, 0x14];
    s.extend_from_slice(&[0u8; 20]);
    s.extend_from_slice(&[0x88, 0xac]);
    s
}

const ZERO_ADDRESS: &str = "1111111111111111111114oLvT2";
const TXID: &str = "aa11";

fn routing_tx() -> Transaction {
    Transaction {
        output: vec![
            TxOut { script_pubkey: p2pkh_zero() },
            TxOut { script_pubkey: vec![0x6a] },
            TxOut { script_pubkey: Vec::new() },
        ],
    }
}

fn e(block: u64, tx: u32, amount: u128, output: u32) -> Edict {
    Edict { id: RuneId { block, tx }, amount, output }
}

#[test]
fn addresses_of_outputs() {
    let tx = routing_tx();
    assert_eq!(extract_edict_address(&e(1, 1, 1, 0), &tx), Some(ZERO_ADDRESS.to_string()));
    assert_eq!(extract_edict_address(&e(1, 1, 1, 1), &tx), None);
    assert_eq!(extract_edict_address(&e(1, 1, 1, 2), &tx), None);
    let burn2 = Burn2 { edicts: vec![e(1, 1, 1, 0)], ..Burn2::default() };
    assert_eq!(extract_burn2_address(&burn2, &tx), Some(ZERO_ADDRESS.to_string()));
    let mint2 = Mint2::default();
    assert_eq!(extract_mint2_address(&mint2, &tx), None);
}

fn amm_etching() -> Etching {
    Etching {
        contract: Some(2),
        parent: None,
        rune: Some(Rune(5)),
        burn3able_rune_ids: (Some(Rune(0)), Some(Rune(26))),
        trading: Some(Trading { lp_fee_percentage: Some(1), service_fee_percentage: None }),
    }
}

#[test]
fn amm_etching_creates_pool() {
    match decide_init(840000, 7, &amm_etching(), false, false) {
        InitDecision::Create(c) => {
            assert_eq!(c.contract_id, "840000:7");
            assert_eq!(c.template, ContractTemplate::AMM);
            assert_eq!(c.contract, 2);
            assert_eq!(c.myself, RuneId { block: 840000, tx: 7 });
            assert_eq!(c.rune, Rune(5));
            assert_eq!(c.ticker0, "A");
            assert_eq!(c.ticker1, "AA");
            assert_eq!(c.trading, amm_etching().trading);
        },
        other => panic!("unexpected {:?}", other),
    }
}

#[test]
fn admitted_amm_etching_is_refused() {
    match decide_init(12, 1, &amm_etching(), true, true) {
        InitDecision::Refuse(m) => assert_eq!(m, "cannot init AMM contract at block 12"),
        other => panic!("unexpected {:?}", other),
    }
}

#[test]
fn unregistered_parent_is_refused() {
    let mut et = amm_etching();
    et.parent = Some(RuneId { block: 1, tx: 1 });
    match decide_init(12, 1, &et, false, false) {
        InitDecision::Refuse(m) => assert_eq!(m, "Parent contract is not exist!"),
        other => panic!("unexpected {:?}", other),
    }
    match decide_init(12, 1, &et, false, true) {
        InitDecision::Create(c) => assert_eq!(c.parent, Some(RuneId { block: 1, tx: 1 })),
        other => panic!("unexpected {:?}", other),
    }
}

#[test]
fn base_etching_creates_base_contract() {
    let et = Etching { contract: None, parent: None, rune: None, burn3able_rune_ids: (None, None), trading: None };
    match decide_init(3, 4, &et, true, false) {
        InitDecision::Create(c) => {
            assert_eq!(c.template, ContractTemplate::Base);
            assert_eq!(c.contract, 0);
            assert_eq!(c.rune, Rune(0));
            assert_eq!(c.contract_id, "3:4");
            assert_eq!(c.burn3_able_rune_ids, (None, None));
        },
        other => panic!("unexpected {:?}", other),
    }
}

#[test]
fn unsupported_kinds_are_refused() {
    for (code, label) in [(1u8, "Governance"), (4, "Staking"), (6, "Stablecoin"), (7, "Lending")] {
        let et = Etching { contract: Some(code), ..Etching::default() };
        match decide_init(9, 0, &et, false, true) {
            InitDecision::Refuse(m) => assert_eq!(m, "Unsupported contract!"),
            other => panic!("unexpected {:?}", other),
        }
        match decide_init(9, 0, &et, true, true) {
            InitDecision::Refuse(m) => assert_eq!(m, format!("cannot init {} contract at block 9", label)),
            other => panic!("unexpected {:?}", other),
        }
    }
}

fn step_names(steps: &[RsmStep]) -> Vec<String> {
    steps
        .iter()
        .map(|s| match s {
            RsmStep::InitContract => "init".to_string(),
            RsmStep::Execute { contract_id, function_name, .. } => format!("exec {} {}", contract_id, function_name),
            RsmStep::Edict { route, user_address, edict, .. } => format!("edict {:?} {} {}", route, user_address, edict.amount),
            RsmStep::Log(line) => line.clone(),
        })
        .collect()
}

#[test]
fn remove_liquidity_burn_is_routed() {
    let rs = Runestone {
        burn2s: Some(Burn2 {
            to: RuneId { block: 9, tx: 9 },
            state_transition_function: 2,
            edicts: vec![e(9, 9, 50, 0), e(9, 9, 60, 1)],
            proof: None,
            ext: None,
        }),
        ..Runestone::default()
    };
    let steps = plan_contract_events(&rs, &routing_tx(), 100, 3, TXID);
    assert_eq!(
        step_names(&steps),
        vec![
            "exec 9:9 rl".to_string(),
            format!("edict RemoveLiquidity {} 50", ZERO_ADDRESS),
            format!("cmd;100;tx_events_burn2;aa11;rl;0;9:9;9:9;50;{}", ZERO_ADDRESS),
        ]
    );
    match &steps[0] {
        RsmStep::Execute { source, address, .. } => {
            assert_eq!(*source, EventSource::Burn2);
            assert_eq!(address.as_deref(), Some(ZERO_ADDRESS));
        },
        _ => panic!("first step runs the burn"),
    }
}

#[test]
fn full_runestone_order() {
    let rs = Runestone {
        etching: Some(Etching::default()),
        burn3s: Some(Burn3 {
            to: RuneId { block: 9, tx: 9 },
            state_transition_function: 3,
            edicts: vec![e(2, 1, 40, 0)],
            proof: None,
            ext: None,
        }),
        mint2s: Some(vec![
            Mint2 { from: RuneId { block: 2, tx: 1 }, state_transition_function: Some(4), edicts: Some(vec![e(2, 1, 7, 0)]), proof: None },
            Mint2 { from: RuneId { block: 2, tx: 2 }, state_transition_function: None, edicts: None, proof: None },
        ]),
        ..Runestone::default()
    };
    let steps = plan_contract_events(&rs, &routing_tx(), 5, 1, TXID);
    assert_eq!(
        step_names(&steps),
        vec![
            "init".to_string(),
            "cmd;5;tx_events_init_contract;aa11;init_contract;0;5:1;5:1;0;".to_string(),
            "exec 9:9 sw".to_string(),
            format!("edict Swap {} 40", ZERO_ADDRESS),
            format!("cmd;5;tx_events_burn3;aa11;sw;0;9:9;2:1;40;{}", ZERO_ADDRESS),
            "exec 2:1 w2".to_string(),
            format!("edict WrapMint2 {} 7", ZERO_ADDRESS),
            format!("cmd;5;tx_events_mint2;aa11;w2;0;2:1;2:1;7;{}", ZERO_ADDRESS),
        ]
    );
    let ctx = operate_context(&rs, EventSource::Mint2(0), &routing_tx(), 5, 77, 1, &vec![1; 32], None);
    assert_eq!(ctx.rune_id, RuneId { block: 2, tx: 1 });
    assert_eq!(ctx.block_timestamp, 77);
    assert_eq!(ctx.mint2s.as_ref().map(|m| m.len()), Some(2));
    assert!(ctx.burn2s.is_none() && ctx.burn3s.is_none());
}

#[test]
fn edicts_without_address_are_skipped() {
    let rs = Runestone {
        burn3s: Some(Burn3 {
            to: RuneId { block: 9, tx: 9 },
            state_transition_function: 1,
            edicts: vec![e(2, 1, 40, 1), e(3, 1, 41, 0)],
            proof: None,
            ext: None,
        }),
        ..Runestone::default()
    };
    let steps = plan_contract_events(&rs, &routing_tx(), 5, 1, TXID);
    assert_eq!(
        step_names(&steps),
        vec![
            "exec 9:9 al".to_string(),
            format!("edict AddLiquidity {} 41", ZERO_ADDRESS),
            format!("cmd;5;tx_events_burn3;aa11;al;0;9:9;3:1;41;{}", ZERO_ADDRESS),
        ]
    );
}

fn lop(c: &str, kind: LedgerKind, a: &str, t: &str, amount: u128) -> LedgerOp {
    LedgerOp { contract_id: c.to_string(), kind, address: a.to_string(), ticker: t.to_string(), amount }
}

#[test]
fn ledger_changes_per_route() {
    let ed = e(2, 1, 40, 0);
    let pair = Some(("2:1".to_string(), "3:1".to_string()));
    assert_eq!(
        edict_ledger_changes(EdictRoute::RemoveLiquidity, "9:9", "user", &ed, pair, None),
        vec![
            lop("2:1", LedgerKind::Sb3Mint, "user", "2:1", 40),
            lop("2:1", LedgerKind::Sb3Burn, "9:9", "2:1", 40),
            lop("3:1", LedgerKind::Sb3Mint, "user", "3:1", 40),
            lop("3:1", LedgerKind::Sb3Burn, "9:9", "3:1", 40),
        ]
    );
    assert_eq!(
        edict_ledger_changes(EdictRoute::AddLiquidity, "9:9", "user", &ed, None, None),
        vec![lop("2:1", LedgerKind::Sb3Mint, "9:9", "2:1", 40)]
    );
    assert_eq!(
        edict_ledger_changes(EdictRoute::Swap, "9:9", "user", &ed, None, Some("3:1".to_string())),
        vec![
            lop("3:1", LedgerKind::Sb3Mint, "user", "2:1", 40),
            lop("3:1", LedgerKind::Sb3Burn, "9:9", "2:1", 40),
            lop("2:1", LedgerKind::Sb3Mint, "9:9", "2:1", 40),
        ]
    );
    assert_eq!(edict_ledger_changes(EdictRoute::Swap, "9:9", "user", &ed, None, None), vec![]);
    assert_eq!(
        edict_ledger_changes(EdictRoute::WrapMint2, "9:9", "user", &ed, None, None),
        vec![lop("2:1", LedgerKind::Sb2Mint, "user", "2:1", 40)]
    );
    assert_eq!(
        edict_ledger_changes(EdictRoute::WrapMint3, "9:9", "user", &ed, None, None),
        vec![lop("2:1", LedgerKind::Sb3Mint, "user", "2:1", 40)]
    );
}

#[test]
fn interpreter_answers() {
    assert_eq!(execute_result(true), ContractExecResult::Success("RSM invoke contract successfully.".to_string()));
    assert_eq!(execute_result(false), ContractExecResult::UnknownException("Contract not found.".to_string()));
    assert!(is_debug_operation("debug_dump"));
    assert!(is_debug_operation("debug_"));
    assert!(!is_debug_operation("debug"));
    assert!(!is_debug_operation("al"));
    assert!(!is_debug_operation("xdebug_"));
}
