//! What the protocol asks of the external market maker. The host performs
//! these calls inside the same atomic operation; any failure there aborts it.
use vstd::prelude::*;

verus! {

/// The relative weight of one price bin in a one-sided deposit.
#[derive(Clone, Copy, Debug, PartialEq, Eq, Structural)]
pub struct BinLiquidityDistributionByWeight {
    pub bin_id: i32,
    pub weight: u16,
}

/// A deposit of a single token spread over price bins.
#[derive(Debug)]
pub struct LiquidityOneSideParameter {
    pub amount: u64,
    /// Active bin observed by the caller, for slippage protection.
    pub active_id: i32,
    /// Largest drift, in bins, of the active bin before the deposit fails.
    pub max_active_bin_slippage: i32,
    pub bin_liquidity_dist: Vec<BinLiquidityDistributionByWeight>,
}

/// Open a market-maker position over `width` bins from `lower_bin_id`, owned
/// by the pool's custody authority, and deposit the borrowed funds into it.
#[derive(Debug)]
pub struct AmmOpen {
    pub lower_bin_id: i32,
    pub width: i32,
    pub liquidity: LiquidityOneSideParameter,
}

} // verus!
