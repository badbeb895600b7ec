//! The rules of AMM pool operations that do not depend on amounts in the
//! pool: which request a burn carries, which checks a request must pass
//! and in what order, and which ticker a swap pays out.

use vstd::prelude::*;
use vstd::string::*;
use crate::context::OperateContext;
use crate::contract::{validation_error, ContractExecResult};
use crate::rune::id_text;

verus! {

/// An add-liquidity request read from a burn3: the two desired amounts are
/// those of its first two edicts.
#[derive(Debug, Clone, PartialEq, Eq)]
pub struct AddLiquidityRequest {
    pub address: String,
    pub amount0_desired: u128,
    pub amount1_desired: u128,
    pub amount0_min: u32,
    pub amount1_min: u32,
    pub deadline: u64,
    pub block_timestamp: u64,
}

/// A remove-liquidity request read from a burn2: the pool tokens to return
/// are the amount of its first edict.
#[derive(Debug, Clone, PartialEq, Eq)]
pub struct RemoveLiquidityRequest {
    pub address: String,
    pub lp_amount: u128,
    pub amount0_min: u32,
    pub amount1_min: u32,
    pub deadline: u64,
    pub block_timestamp: u64,
}

/// A swap request read from a burn3: the ticker and amount paid in are
/// those of its first edict.
#[derive(Debug, Clone, PartialEq, Eq)]
pub struct SwapRequest {
    pub address: String,
    pub ticker_in: String,
    pub amount_in: u128,
    pub amount_out_min: u32,
    pub deadline: u64,
    pub block_timestamp: u64,
}

/// Holds where `r` is a validation error with message `m`.
pub open spec fn is_validation_error(r: ContractExecResult, m: Seq<char>) -> bool {
    r matches ContractExecResult::ValidationError(s) && s@ == m
}

/// The first piece an add-liquidity request lacks, as the message it is refused with.
pub open spec fn add_liquidity_missing(ctx: OperateContext) -> Option<Seq<char>> {
    if ctx.address is None {
        Some("Address is missing!"@)
    } else if ctx.burn3s is None {
        Some("Burn3 is missing!"@)
    } else if ctx.burn3s.unwrap().ext is None {
        Some("Extension data is missing!"@)
    } else if ctx.burn3s.unwrap().ext.unwrap().amount0_min is None {
        Some("amount0_min is missing!"@)
    } else if ctx.burn3s.unwrap().ext.unwrap().amount1_min is None {
        Some("amount1_min is missing!"@)
    } else if ctx.burn3s.unwrap().ext.unwrap().deadline is None {
        Some("Deadline is missing!"@)
    } else {
        None
    }
}

/// The first piece a remove-liquidity request lacks, as the message it is refused with.
pub open spec fn remove_liquidity_missing(ctx: OperateContext) -> Option<Seq<char>> {
    if ctx.address is None {
        Some("Address is missing!"@)
    } else if ctx.burn2s is None {
        Some("Burn2 is missing!"@)
    } else if ctx.burn2s.unwrap().ext is None {
        Some("Extension data is missing!"@)
    } else if ctx.burn2s.unwrap().ext.unwrap().amount0_min is None {
        Some("amount0_min is missing!"@)
    } else if ctx.burn2s.unwrap().ext.unwrap().amount1_min is None {
        Some("amount1_min is missing!"@)
    } else if ctx.burn2s.unwrap().ext.unwrap().deadline is None {
        Some("Deadline is missing!"@)
    } else {
        None
    }
}

/// The first piece a swap request lacks, as the message it is refused with.
pub open spec fn swap_missing(ctx: OperateContext) -> Option<Seq<char>> {
    if ctx.address is None {
        Some("Address is missing!"@)
    } else if ctx.burn3s is None {
        Some("Burn3 is missing!"@)
    } else if ctx.burn3s.unwrap().ext is None {
        Some("Extension data is missing!"@)
    } else if ctx.burn3s.unwrap().ext.unwrap().amount_out_min is None {
        Some("Amount out min is missing!"@)
    } else if ctx.burn3s.unwrap().ext.unwrap().deadline is None {
        Some("Deadline is missing!"@)
    } else {
        None
    }
}

/// Reads an add-liquidity request from the context's address and burn3.
pub fn add_liquidity_request(ctx: &OperateContext) -> (res: Result<AddLiquidityRequest, ContractExecResult>)
    requires
        ctx.address is Some && ctx.burn3s is Some ==> ctx.burn3s.unwrap().edicts@.len() >= 2,
    ensures
        match res {
            Ok(r) => {
                let burn3 = ctx.burn3s.unwrap();
                let ext = burn3.ext.unwrap();
                &&& add_liquidity_missing(*ctx) is None
                &&& r.address@ == ctx.address.unwrap()@
                &&& r.amount0_desired == burn3.edicts@[0].amount
                &&& r.amount1_desired == burn3.edicts@[1].amount
                &&& r.amount0_min == ext.amount0_min.unwrap()
                &&& r.amount1_min == ext.amount1_min.unwrap()
                &&& r.deadline == ext.deadline.unwrap()
                &&& r.block_timestamp == ctx.block_timestamp
            },
            Err(e) => add_liquidity_missing(*ctx) matches Some(m) && is_validation_error(e, m),
        },
{
    let address = match &ctx.address {
        Some(a) => a,
        None => { return Err(validation_error("Address is missing!")); },
    };
    let burn3 = match &ctx.burn3s {
        Some(b) => b,
        None => { return Err(validation_error("Burn3 is missing!")); },
    };
    let amount0_desired = burn3.edicts[0].amount;
    let amount1_desired = burn3.edicts[1].amount;
    let ext = match &burn3.ext {
        Some(e) => e,
        None => { return Err(validation_error("Extension data is missing!")); },
    };
    let amount0_min = match ext.amount0_min {
        Some(v) => v,
        None => { return Err(validation_error("amount0_min is missing!")); },
    };
    let amount1_min = match ext.amount1_min {
        Some(v) => v,
        None => { return Err(validation_error("amount1_min is missing!")); },
    };
    let deadline = match ext.deadline {
        Some(v) => v,
        None => { return Err(validation_error("Deadline is missing!")); },
    };
    Ok(AddLiquidityRequest {
        address: address.clone(),
        amount0_desired,
        amount1_desired,
        amount0_min,
        amount1_min,
        deadline: deadline as u64,
        block_timestamp: ctx.block_timestamp,
    })
}

/// Reads a remove-liquidity request from the context's address and burn2.
pub fn remove_liquidity_request(ctx: &OperateContext) -> (res: Result<RemoveLiquidityRequest, ContractExecResult>)
    requires
        ctx.address is Some && ctx.burn2s is Some ==> ctx.burn2s.unwrap().edicts@.len() >= 1,
    ensures
        match res {
            Ok(r) => {
                let burn2 = ctx.burn2s.unwrap();
                let ext = burn2.ext.unwrap();
                &&& remove_liquidity_missing(*ctx) is None
                &&& r.address@ == ctx.address.unwrap()@
                &&& r.lp_amount == burn2.edicts@[0].amount
                &&& r.amount0_min == ext.amount0_min.unwrap()
                &&& r.amount1_min == ext.amount1_min.unwrap()
                &&& r.deadline == ext.deadline.unwrap()
                &&& r.block_timestamp == ctx.block_timestamp
            },
            Err(e) => remove_liquidity_missing(*ctx) matches Some(m) && is_validation_error(e, m),
        },
{
    let address = match &ctx.address {
        Some(a) => a,
        None => { return Err(validation_error("Address is missing!")); },
    };
    let burn2 = match &ctx.burn2s {
        Some(b) => b,
        None => { return Err(validation_error("Burn2 is missing!")); },
    };
    let lp_amount = burn2.edicts[0].amount;
    let ext = match &burn2.ext {
        Some(e) => e,
        None => { return Err(validation_error("Extension data is missing!")); },
    };
    let amount0_min = match ext.amount0_min {
        Some(v) => v,
        None => { return Err(validation_error("amount0_min is missing!")); },
    };
    let amount1_min = match ext.amount1_min {
        Some(v) => v,
        None => { return Err(validation_error("amount1_min is missing!")); },
    };
    let deadline = match ext.deadline {
        Some(v) => v,
        None => { return Err(validation_error("Deadline is missing!")); },
    };
    Ok(RemoveLiquidityRequest {
        address: address.clone(),
        lp_amount,
        amount0_min,
        amount1_min,
        deadline: deadline as u64,
        block_timestamp: ctx.block_timestamp,
    })
}

/// Reads a swap request from the context's address and burn3.
pub fn swap_request(ctx: &OperateContext) -> (res: Result<SwapRequest, ContractExecResult>)
    requires
        ctx.address is Some && ctx.burn3s is Some ==> ctx.burn3s.unwrap().edicts@.len() >= 1,
    ensures
        match res {
            Ok(r) => {
                let burn3 = ctx.burn3s.unwrap();
                let ext = burn3.ext.unwrap();
                &&& swap_missing(*ctx) is None
                &&& r.address@ == ctx.address.unwrap()@
                &&& r.ticker_in@ == id_text(burn3.edicts@[0].id)
                &&& r.amount_in == burn3.edicts@[0].amount
                &&& r.amount_out_min == ext.amount_out_min.unwrap()
                &&& r.deadline == ext.deadline.unwrap()
                &&& r.block_timestamp == ctx.block_timestamp
            },
            Err(e) => swap_missing(*ctx) matches Some(m) && is_validation_error(e, m),
        },
{
    let address = match &ctx.address {
        Some(a) => a,
        None => { return Err(validation_error("Address is missing!")); },
    };
    let burn3 = match &ctx.burn3s {
        Some(b) => b,
        None => { return Err(validation_error("Burn3 is missing!")); },
    };
    let ticker_in = burn3.edicts[0].id.to_str();
    let amount_in = burn3.edicts[0].amount;
    let ext = match &burn3.ext {
        Some(e) => e,
        None => { return Err(validation_error("Extension data is missing!")); },
    };
    let amount_out_min = match ext.amount_out_min {
        Some(v) => v,
        None => { return Err(validation_error("Amount out min is missing!")); },
    };
    let deadline = match ext.deadline {
        Some(v) => v,
        None => { return Err(validation_error("Deadline is missing!")); },
    };
    Ok(SwapRequest {
        address: address.clone(),
        ticker_in,
        amount_in,
        amount_out_min,
        deadline: deadline as u64,
        block_timestamp: ctx.block_timestamp,
    })
}

/// The first check a swap fails, as its message. The amount and reserve
/// conditions are given as the caller found them on the pool's amounts: an
/// amount counts as positive unless it compares at most zero, and a minimum
/// as nonnegative unless it compares below zero.
pub open spec fn swap_check_failure(
    address: Seq<char>,
    ticker_in: Seq<char>,
    amount_in_positive: bool,
    amount_out_min_positive: bool,
    deadline: u64,
    block_timestamp: u64,
    reserve_empty: bool,
) -> Option<Seq<char>> {
    if address.len() == 0 {
        Some("address cannot be empty"@)
    } else if ticker_in.len() == 0 {
        Some("ticker_in cannot be empty"@)
    } else if !amount_in_positive {
        Some("amount_in must be greater than 0"@)
    } else if !amount_out_min_positive {
        Some("amount_out_min must be greater than 0"@)
    } else if block_timestamp == 0 {
        Some("block_timestamp must be greater than 0"@)
    } else if deadline <= block_timestamp {
        Some("deadline must be greater than block_timestamp"@)
    } else if reserve_empty {
        Some("reserve is empty."@)
    } else {
        None
    }
}

/// The first check an add-liquidity request fails, as its message.
pub open spec fn add_liquidity_check_failure(
    address: Seq<char>,
    amount0_desired_positive: bool,
    amount1_desired_positive: bool,
    amount0_min_nonnegative: bool,
    amount1_min_nonnegative: bool,
    deadline: u64,
    block_timestamp: u64,
) -> Option<Seq<char>> {
    if address.len() == 0 {
        Some("address cannot be empty"@)
    } else if !amount0_desired_positive {
        Some("amount0_desired must be greater than 0"@)
    } else if !amount1_desired_positive {
        Some("amount1_desired must be greater than 0"@)
    } else if !amount0_min_nonnegative {
        Some("amount0_min must be greater than or equal to 0"@)
    } else if !amount1_min_nonnegative {
        Some("amount1_min must be greater than or equal to 0"@)
    } else if block_timestamp == 0 {
        Some("block_timestamp must be greater than 0"@)
    } else if deadline <= block_timestamp {
        Some("deadline must be greater than block_timestamp"@)
    } else {
        None
    }
}

/// The first check a remove-liquidity request fails, as its message.
pub open spec fn remove_liquidity_check_failure(
    address: Seq<char>,
    lp_amount_positive: bool,
    amount0_min_nonnegative: bool,
    amount1_min_nonnegative: bool,
    deadline: u64,
    block_timestamp: u64,
    reserve_empty: bool,
) -> Option<Seq<char>> {
    if address.len() == 0 {
        Some("address cannot be empty"@)
    } else if !lp_amount_positive {
        Some("lp_amount must be greater than 0"@)
    } else if !amount0_min_nonnegative {
        Some("amount0_min must be greater than or equal to 0"@)
    } else if !amount1_min_nonnegative {
        Some("amount1_min must be greater than or equal to 0"@)
    } else if block_timestamp == 0 {
        Some("block_timestamp must be greater than 0"@)
    } else if deadline <= block_timestamp {
        Some("deadline must be greater than block_timestamp"@)
    } else if reserve_empty {
        Some("reserve pool is empty."@)
    } else {
        None
    }
}

/// Holds where `r` is none exactly when `failure` is, and otherwise the
/// validation error with its message.
pub open spec fn refuses_with(r: Option<ContractExecResult>, failure: Option<Seq<char>>) -> bool {
    match r {
        None => failure is None,
        Some(e) => failure matches Some(m) && is_validation_error(e, m),
    }
}

/// Checks a swap before any amount is computed; `None` where it may go ahead.
pub fn check_swap(
    address: &str,
    ticker_in: &str,
    amount_in_positive: bool,
    amount_out_min_positive: bool,
    deadline: u64,
    block_timestamp: u64,
    reserve_empty: bool,
) -> (r: Option<ContractExecResult>)
    ensures
        refuses_with(r, swap_check_failure(address@, ticker_in@, amount_in_positive,
            amount_out_min_positive, deadline, block_timestamp, reserve_empty)),
{
    if address.is_empty() {
        return Some(validation_error("address cannot be empty"));
    }
    if ticker_in.is_empty() {
        return Some(validation_error("ticker_in cannot be empty"));
    }
    if !amount_in_positive {
        return Some(validation_error("amount_in must be greater than 0"));
    }
    if !amount_out_min_positive {
        return Some(validation_error("amount_out_min must be greater than 0"));
    }
    if block_timestamp == 0 {
        return Some(validation_error("block_timestamp must be greater than 0"));
    }
    if deadline <= block_timestamp {
        return Some(validation_error("deadline must be greater than block_timestamp"));
    }
    if reserve_empty {
        return Some(validation_error("reserve is empty."));
    }
    None
}

/// Checks an add-liquidity request before any amount is computed; `None`
/// where it may go ahead.
pub fn check_add_liquidity(
    address: &str,
    amount0_desired_positive: bool,
    amount1_desired_positive: bool,
    amount0_min_nonnegative: bool,
    amount1_min_nonnegative: bool,
    deadline: u64,
    block_timestamp: u64,
) -> (r: Option<ContractExecResult>)
    ensures
        refuses_with(r, add_liquidity_check_failure(address@, amount0_desired_positive,
            amount1_desired_positive, amount0_min_nonnegative, amount1_min_nonnegative, deadline,
            block_timestamp)),
{
    if address.is_empty() {
        return Some(validation_error("address cannot be empty"));
    }
    if !amount0_desired_positive {
        return Some(validation_error("amount0_desired must be greater than 0"));
    }
    if !amount1_desired_positive {
        return Some(validation_error("amount1_desired must be greater than 0"));
    }
    if !amount0_min_nonnegative {
        return Some(validation_error("amount0_min must be greater than or equal to 0"));
    }
    if !amount1_min_nonnegative {
        return Some(validation_error("amount1_min must be greater than or equal to 0"));
    }
    if block_timestamp == 0 {
        return Some(validation_error("block_timestamp must be greater than 0"));
    }
    if deadline <= block_timestamp {
        return Some(validation_error("deadline must be greater than block_timestamp"));
    }
    None
}

/// Checks a remove-liquidity request before any amount is computed; `None`
/// where it may go ahead.
pub fn check_remove_liquidity(
    address: &str,
    lp_amount_positive: bool,
    amount0_min_nonnegative: bool,
    amount1_min_nonnegative: bool,
    deadline: u64,
    block_timestamp: u64,
    reserve_empty: bool,
) -> (r: Option<ContractExecResult>)
    ensures
        refuses_with(r, remove_liquidity_check_failure(address@, lp_amount_positive,
            amount0_min_nonnegative, amount1_min_nonnegative, deadline, block_timestamp,
            reserve_empty)),
{
    if address.is_empty() {
        return Some(validation_error("address cannot be empty"));
    }
    if !lp_amount_positive {
        return Some(validation_error("lp_amount must be greater than 0"));
    }
    if !amount0_min_nonnegative {
        return Some(validation_error("amount0_min must be greater than or equal to 0"));
    }
    if !amount1_min_nonnegative {
        return Some(validation_error("amount1_min must be greater than or equal to 0"));
    }
    if block_timestamp == 0 {
        return Some(validation_error("block_timestamp must be greater than 0"));
    }
    if deadline <= block_timestamp {
        return Some(validation_error("deadline must be greater than block_timestamp"));
    }
    if reserve_empty {
        return Some(validation_error("reserve pool is empty."));
    }
    None
}

/// The other ticker of the pair `(ticker0, ticker1)`; empty for a ticker
/// of neither side. Where both sides are equal, the first answers.
pub open spec fn other_ticker(ticker0: Seq<char>, ticker1: Seq<char>, ticker: Seq<char>) -> Seq<char> {
    if ticker == ticker0 {
        ticker1
    } else if ticker == ticker1 {
        ticker0
    } else {
        seq![]
    }
}

/// The ticker on the other side of a pool from `ticker`.
pub fn get_another_ticker(ticker0: &String, ticker1: &String, ticker: &str) -> (r: String)
    ensures
        r@ == other_ticker(ticker0@, ticker1@, ticker@),
{
    let t = String::from_str(ticker);
    if t == *ticker0 {
        ticker1.clone()
    } else if t == *ticker1 {
        ticker0.clone()
    } else {
        String::new()
    }
}

/// Across a pool of two different tickers, taking the other side twice
/// comes back to where it started.
pub proof fn lemma_other_ticker_involution(ticker0: Seq<char>, ticker1: Seq<char>, ticker: Seq<char>)
    requires
        ticker0 != ticker1,
        ticker == ticker0 || ticker == ticker1,
    ensures
        other_ticker(ticker0, ticker1, other_ticker(ticker0, ticker1, ticker)) == ticker,
        other_ticker(ticker0, ticker1, ticker) != ticker,
{
}

} // verus!
