//! Fee settings of a trading (AMM) contract.

use vstd::prelude::*;

verus! {

/// Liquidity-provider and service fee percentages.
#[derive(Default, Debug, PartialEq, Copy, Clone, Eq, Structural)]
pub struct Trading {
    pub lp_fee_percentage: Option<u32>,
    pub service_fee_percentage: Option<u32>,
}

impl Trading {
    /// Trading settings with neither fee set.
    pub fn new() -> (t: Self)
        ensures
            t.lp_fee_percentage is None,
            t.service_fee_percentage is None,
    {
        Trading { lp_fee_percentage: None, service_fee_percentage: None }
    }
}

} // verus!
