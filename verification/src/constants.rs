use vstd::prelude::*;

verus! {

/// Minimum liquidity minted to dead address on pool initialization.
/// Prevents first depositor inflation attacks (Uniswap V2 style).
/// Deposits also count it as virtual shares on top of the LP supply.
pub const MINIMUM_LIQUIDITY: u64 = 1_000;

/// Shares that the pool counts as outstanding beyond the LP mint's supply when
/// it prices a withdrawal. This value is this library's own choice (the same
/// amount as the locked minimum liquidity).
pub const VIRTUAL_SHARES: u64 = 1_000;

/// Assets that the pool counts in each vault beyond its balance when it prices
/// a withdrawal. This value is this library's own choice.
pub const VIRTUAL_ASSETS: u64 = 1;

} // verus!
