use rsm::routing::{state_burn_ledger, state_ledger, state_pool_amount, Ledger, PoolAmount};
use rsm::burn::{Burn2, Burn3, Proof};
use rsm::contract::{validation_error, ContractExecResult, ContractTemplate};
use rsm::dao::Dao;
use rsm::ext::Ext;
use rsm::mint::{Mint2, Mint3};
use rsm::state::{State, StateDB};
use rsm::stf::StateTransitionName;
use rsm::trading::Trading;
use rsm::context::{BlockContext, TxContext};

#[test]
fn proofs_compare_all_fields() {
    let a = Proof { block: 1, tx: 2, output: 3, amount: 4 };
    assert!(a == Proof { block: 1, tx: 2, output: 3, amount: 4 });
    assert!(a != Proof { block: 1, tx: 2, output: 3, amount: 5 });
    assert!(a != Proof { block: 9, tx: 2, output: 3, amount: 4 });
    assert_eq!(format!("{:?}", a), "Proof { block: 1, tx: 2, output: 3, amount: 4 }");
}

#[test]
fn defaults_are_empty() {
    let b2 = Burn2::default();
    assert!(b2.edicts.is_empty() && b2.proof.is_none() && b2.ext.is_none());
    assert_eq!(b2.state_transition_function, 0);
    let b3 = Burn3::default();
    assert!(b3.edicts.is_empty());
    assert_eq!(Mint2::default().edicts, None);
    assert_eq!(Mint3::default().state_transition_function, None);
    assert_eq!(Dao::default(), Dao { started: None, vote_limit: None, time_lock: None });
    assert_eq!(Ext::default().deadline, None);
}

#[test]
fn trading_new_has_no_fees() {
    let t = Trading::new();
    assert_eq!(t.lp_fee_percentage, None);
    assert_eq!(t.service_fee_percentage, None);
    assert_eq!(t, Trading::default());
}

#[test]
fn describe_results() {
    assert_eq!(ContractExecResult::Success("done".to_string()).describe(), "Success: done");
    assert_eq!(ContractExecResult::ValidationError("bad".to_string()).describe(), "Validation Error: bad");
    assert_eq!(ContractExecResult::UnknownException("odd".to_string()).describe(), "Unknown Exception: odd");
}

#[test]
fn validation_error_carries_message() {
    assert_eq!(validation_error("x is missing"), ContractExecResult::ValidationError("x is missing".to_string()));
}

#[test]
fn template_codes() {
    let all = [
        (ContractTemplate::Base, 0u8),
        (ContractTemplate::Governance, 1),
        (ContractTemplate::AMM, 2),
        (ContractTemplate::Staking, 4),
        (ContractTemplate::Stablecoin, 6),
        (ContractTemplate::Lending, 7),
    ];
    for (t, c) in all {
        assert_eq!(t.to_u8(), c);
        assert_eq!(ContractTemplate::from_u8(c), Some(t));
    }
    for c in [3u8, 5, 8, 255] {
        assert_eq!(ContractTemplate::from_u8(c), None);
    }
}

#[test]
fn state_names() {
    let all = [
        (State::RecoverableStateBalanceForMint2, "rsb2"),
        (State::RecoverableStateBalanceForMint3, "rsb3"),
        (State::StateBalanceOfApplicationForMint2, "sba2"),
        (State::StateBalanceOfApplicationForMint3, "sba3"),
        (State::StateBalanceForMint2, "sb2"),
        (State::StateBalanceForMint3, "sb3"),
        (State::StateBalanceForOwnerMint, "sbom"),
        (State::Ticker0, "ticker0"),
        (State::Ticker1, "ticker1"),
        (State::Reserve0, "reserve0"),
        (State::Reserve1, "reserve1"),
        (State::Supply, "supply"),
    ];
    for (s, n) in all {
        assert_eq!(s.to_string(), n);
    }
}

#[test]
fn state_transition_codes() {
    let all = [
        (0u32, StateTransitionName::Ic, "ic"),
        (1, StateTransitionName::Al, "al"),
        (2, StateTransitionName::Rl, "rl"),
        (3, StateTransitionName::Sw, "sw"),
        (4, StateTransitionName::W2, "w2"),
        (5, StateTransitionName::W3, "w3"),
    ];
    for (c, s, n) in all {
        assert_eq!(StateTransitionName::from(c), s);
        assert_eq!(s.to_u32(), c);
        assert_eq!(StateTransitionName::from_u32(c), Some(n.to_string()));
    }
    assert_eq!(StateTransitionName::from(6), StateTransitionName::Unknown);
    assert_eq!(StateTransitionName::from(99), StateTransitionName::Unknown);
    assert_eq!(StateTransitionName::Unknown.to_u32(), 6);
    assert_eq!(StateTransitionName::from_u32(6), None);
    assert_eq!(StateTransitionName::from(StateTransitionName::Unknown.to_u32()), StateTransitionName::Unknown);
}

#[test]
fn contexts_default_to_zero() {
    let b = BlockContext::default();
    assert_eq!((b.block_height, b.block_hash, b.block_time, b.block_time_nanos), (0, 0, 0, 0));
    let t = TxContext::default();
    assert_eq!((t.tx_hash, t.tx_index, t.tx_hex), (0, 0, 0));
    let s = StateDB::default();
    assert_eq!((s.block_height, s.block_hash, s.block_time, s.block_time_nanos), (0, 0, 0, 0));
}

#[test]
fn state_dispatch() {
    assert_eq!(state_ledger(State::StateBalanceForMint2), Some(Ledger::UserMint2));
    assert_eq!(state_ledger(State::StateBalanceOfApplicationForMint2), Some(Ledger::ApplicationMint2));
    assert_eq!(state_ledger(State::StateBalanceForMint3), Some(Ledger::UserMint3));
    assert_eq!(state_ledger(State::StateBalanceOfApplicationForMint3), Some(Ledger::ApplicationMint3));
    assert_eq!(state_ledger(State::Reserve0), None);
    assert_eq!(state_ledger(State::StateBalanceForOwnerMint), None);
    assert_eq!(state_pool_amount(State::Reserve0), Some(PoolAmount::Reserve0));
    assert_eq!(state_pool_amount(State::Reserve1), Some(PoolAmount::Reserve1));
    assert_eq!(state_pool_amount(State::Supply), Some(PoolAmount::Supply));
    assert_eq!(state_pool_amount(State::Ticker0), None);
    assert_eq!(state_burn_ledger(State::StateBalanceForMint2), Some(Ledger::UserMint2));
    assert_eq!(state_burn_ledger(State::StateBalanceForMint3), Some(Ledger::UserMint3));
    assert_eq!(state_burn_ledger(State::StateBalanceOfApplicationForMint2), None);
}
