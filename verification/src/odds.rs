//! The odds engine. A contribution is priced once, at join time, from the
//! pool totals visible at that moment, and the multiplier is locked into the
//! ledger entry forever after. Odds are fixed-point with scale 1000:
//! 1000 means 1.000x.

use vstd::prelude::*;

verus! {

/// The fixed-point scale of an odds multiplier: 1000 stands for 1.000x.
pub const ODDS_SCALE: u64 = 1000;

/// The pricing rule. `total_side` is the chosen side's pool total before the
/// contribution, `pool_total` the sum of both sides' totals before it.
/// The first money on a side is priced at exactly 1.000x; later money gets
/// `pool-so-far / my-side-so-far`, floored, at scale 1000.
pub open spec fn spec_odds(total_side: int, pool_total: int) -> int {
    if total_side == 0 {
        1000
    } else {
        pool_total * 1000 / total_side
    }
}

/// Price one contribution from the totals visible at join time.
pub fn price_odds(total_side: u64, pool_total: u64) -> (odds: u64)
    requires
        pool_total * 1000 <= u64::MAX,
    ensures
        odds == spec_odds(total_side as int, pool_total as int),
        total_side == 0 ==> odds == 1000,
{
    if total_side == 0 {
        1000
    } else {
        (pool_total * 1000) / total_side
    }
}

} // verus!
