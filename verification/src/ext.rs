//! Extension data carried by a burn: slippage bounds and a deadline.

use vstd::prelude::*;

verus! {

/// Bounds and deadline that AMM operations read from a burn.
#[derive(Default, Debug, PartialEq, Copy, Clone, Eq, Structural)]
pub struct Ext {
    pub amount0_min: Option<u32>,
    pub amount1_min: Option<u32>,
    pub amount_out_min: Option<u32>,
    pub deadline: Option<u32>,
}

} // verus!
