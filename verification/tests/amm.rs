use rsm::amm::{
    add_liquidity_request, check_add_liquidity, check_remove_liquidity, check_swap, get_another_ticker,
    remove_liquidity_request, swap_request, AddLiquidityRequest, RemoveLiquidityRequest, SwapRequest,
};
use rsm::burn::{Burn2, Burn3};
use rsm::context::OperateContext;
use rsm::contract::ContractExecResult;
use rsm::ext::Ext;
use rsm::rune::{Edict, RuneId, Transaction};

fn err(m: &str) -> ContractExecResult {
    ContractExecResult::ValidationError(m.to_string())
}

fn full_ext() -> Ext {
    Ext { amount0_min: Some(3), amount1_min: Some(4), amount_out_min: Some(5), deadline: Some(900) }
}

fn edict(block: u64, tx: u32, amount: u128) -> Edict {
    Edict { id: RuneId { block, tx }, amount, output: 0 }
}

fn base_context() -> OperateContext {
    OperateContext {
        block_height: 100,
        block_timestamp: 800,
        tx: 1,
        tx_id: vec![0; 32],
        rune_id: RuneId { block: 9, tx: 9 },
        transaction: Transaction::default(),
        mint2s: None,
        mint3s: None,
        burn2s: None,
        burn3s: None,
        address: Some("bc1quser".to_string()),
    }
}

fn with_burn3(ext: Option<Ext>) -> OperateContext {
    let mut c = base_context();
    c.burn3s = Some(Burn3 {
        to: RuneId { block: 9, tx: 9 },
        state_transition_function: 1,
        edicts: vec![edict(2, 1, 1000), edict(3, 1, 2000)],
        proof: None,
        ext,
    });
    c
}

fn with_burn2(ext: Option<Ext>) -> OperateContext {
    let mut c = base_context();
    c.burn2s = Some(Burn2 {
        to: RuneId { block: 9, tx: 9 },
        state_transition_function: 2,
        edicts: vec![edict(9, 9, 77)],
        proof: None,
        ext,
    });
    c
}

#[test]
fn add_liquidity_request_reads_burn3() {
    let r = add_liquidity_request(&with_burn3(Some(full_ext()))).unwrap();
    assert_eq!(
        r,
        AddLiquidityRequest {
            address: "bc1quser".to_string(),
            amount0_desired: 1000,
            amount1_desired: 2000,
            amount0_min: 3,
            amount1_min: 4,
            deadline: 900,
            block_timestamp: 800,
        }
    );
}

#[test]
fn add_liquidity_request_errors_in_order() {
    let mut c = with_burn3(Some(full_ext()));
    c.address = None;
    assert_eq!(add_liquidity_request(&c), Err(err("Address is missing!")));
    assert_eq!(add_liquidity_request(&base_context()), Err(err("Burn3 is missing!")));
    assert_eq!(add_liquidity_request(&with_burn3(None)), Err(err("Extension data is missing!")));
    let mut e = full_ext();
    e.amount0_min = None;
    e.deadline = None;
    assert_eq!(add_liquidity_request(&with_burn3(Some(e))), Err(err("amount0_min is missing!")));
    let mut e = full_ext();
    e.amount1_min = None;
    assert_eq!(add_liquidity_request(&with_burn3(Some(e))), Err(err("amount1_min is missing!")));
    let mut e = full_ext();
    e.deadline = None;
    assert_eq!(add_liquidity_request(&with_burn3(Some(e))), Err(err("Deadline is missing!")));
}

#[test]
fn remove_liquidity_request_reads_burn2() {
    let r = remove_liquidity_request(&with_burn2(Some(full_ext()))).unwrap();
    assert_eq!(
        r,
        RemoveLiquidityRequest {
            address: "bc1quser".to_string(),
            lp_amount: 77,
            amount0_min: 3,
            amount1_min: 4,
            deadline: 900,
            block_timestamp: 800,
        }
    );
    assert_eq!(remove_liquidity_request(&base_context()), Err(err("Burn2 is missing!")));
    assert_eq!(remove_liquidity_request(&with_burn2(None)), Err(err("Extension data is missing!")));
    let mut e = full_ext();
    e.amount1_min = None;
    assert_eq!(remove_liquidity_request(&with_burn2(Some(e))), Err(err("amount1_min is missing!")));
}

#[test]
fn swap_request_reads_first_edict() {
    let r = swap_request(&with_burn3(Some(full_ext()))).unwrap();
    assert_eq!(
        r,
        SwapRequest {
            address: "bc1quser".to_string(),
            ticker_in: "2:1".to_string(),
            amount_in: 1000,
            amount_out_min: 5,
            deadline: 900,
            block_timestamp: 800,
        }
    );
    let mut e = full_ext();
    e.amount_out_min = None;
    assert_eq!(swap_request(&with_burn3(Some(e))), Err(err("Amount out min is missing!")));
    let mut c = with_burn3(Some(full_ext()));
    c.address = None;
    assert_eq!(swap_request(&c), Err(err("Address is missing!")));
}

#[test]
fn swap_checks_in_order() {
    assert_eq!(check_swap("a", "1:1", true, true, 10, 5, false), None);
    assert_eq!(check_swap("", "", false, false, 0, 0, true), Some(err("address cannot be empty")));
    assert_eq!(check_swap("a", "", false, false, 0, 0, true), Some(err("ticker_in cannot be empty")));
    assert_eq!(check_swap("a", "t", false, false, 0, 0, true), Some(err("amount_in must be greater than 0")));
    assert_eq!(check_swap("a", "t", true, false, 0, 0, true), Some(err("amount_out_min must be greater than 0")));
    assert_eq!(check_swap("a", "t", true, true, 0, 0, true), Some(err("block_timestamp must be greater than 0")));
    assert_eq!(check_swap("a", "t", true, true, 5, 5, true), Some(err("deadline must be greater than block_timestamp")));
    assert_eq!(check_swap("a", "t", true, true, 6, 5, true), Some(err("reserve is empty.")));
}

#[test]
fn add_liquidity_checks_in_order() {
    assert_eq!(check_add_liquidity("a", true, true, true, true, 10, 5), None);
    assert_eq!(check_add_liquidity("", false, false, false, false, 0, 0), Some(err("address cannot be empty")));
    assert_eq!(check_add_liquidity("a", false, false, false, false, 0, 0), Some(err("amount0_desired must be greater than 0")));
    assert_eq!(check_add_liquidity("a", true, false, false, false, 0, 0), Some(err("amount1_desired must be greater than 0")));
    assert_eq!(check_add_liquidity("a", true, true, false, false, 0, 0), Some(err("amount0_min must be greater than or equal to 0")));
    assert_eq!(check_add_liquidity("a", true, true, true, false, 0, 0), Some(err("amount1_min must be greater than or equal to 0")));
    assert_eq!(check_add_liquidity("a", true, true, true, true, 0, 0), Some(err("block_timestamp must be greater than 0")));
    assert_eq!(check_add_liquidity("a", true, true, true, true, 4, 5), Some(err("deadline must be greater than block_timestamp")));
}

#[test]
fn remove_liquidity_checks_in_order() {
    assert_eq!(check_remove_liquidity("a", true, true, true, 10, 5, false), None);
    assert_eq!(check_remove_liquidity("", false, false, false, 0, 0, true), Some(err("address cannot be empty")));
    assert_eq!(check_remove_liquidity("a", false, false, false, 0, 0, true), Some(err("lp_amount must be greater than 0")));
    assert_eq!(check_remove_liquidity("a", true, false, false, 0, 0, true), Some(err("amount0_min must be greater than or equal to 0")));
    assert_eq!(check_remove_liquidity("a", true, true, false, 0, 0, true), Some(err("amount1_min must be greater than or equal to 0")));
    assert_eq!(check_remove_liquidity("a", true, true, true, 0, 0, true), Some(err("block_timestamp must be greater than 0")));
    assert_eq!(check_remove_liquidity("a", true, true, true, 3, 5, true), Some(err("deadline must be greater than block_timestamp")));
    assert_eq!(check_remove_liquidity("a", true, true, true, 6, 5, true), Some(err("reserve pool is empty.")));
}

#[test]
fn another_ticker_of_a_pool() {
    let t0 = "2:1".to_string();
    let t1 = "3:1".to_string();
    assert_eq!(get_another_ticker(&t0, &t1, "2:1"), "3:1");
    assert_eq!(get_another_ticker(&t0, &t1, "3:1"), "2:1");
    assert_eq!(get_another_ticker(&t0, &t1, "4:1"), "");
    let back = get_another_ticker(&t0, &t1, &get_another_ticker(&t0, &t1, "2:1"));
    assert_eq!(back, "2:1");
}
