//! The library's general laws, proved once and for all. Each proof function
//! here states a property of the escrow that every caller may rely on; the
//! per-operation guarantees (a resolved claim never resolves again, a payout
//! collects at most once) live in the operations' own contracts.

use vstd::prelude::*;
use vstd::arithmetic::div_mod::lemma_div_is_ordered;
use vstd::arithmetic::div_mod::lemma_div_multiples_vanish;
use vstd::arithmetic::div_mod::lemma_div_pos_is_pos;
use vstd::arithmetic::mul::lemma_mul_inequality;
use vstd::arithmetic::mul::lemma_mul_nonnegative;
use crate::claim::ClaimAccount;
use crate::ledger::PoolLedger;
use crate::ledger::sum_stakes;
use crate::odds::spec_odds;
use crate::payout::spec_fee;
use crate::payout::spec_gross;
use crate::payout::spec_net;

verus! {

/// Funds conservation. For any well-formed claim, the two running totals
/// together equal the sum of every stake recorded across both ledgers.
/// Entries are created only by `create_claim` and `join_pool`, and each of
/// those hands back a transfer of exactly the recorded stake into the
/// side's holding — so after any sequence of joins, `total_of(A) +
/// total_of(B)` is the sum of all amounts transferred into the two
/// holdings.
pub proof fn lemma_funds_conservation(c: ClaimAccount)
    requires
        c.wf(),
    ensures
        c.side_a.total + c.side_b.total == sum_stakes(c.side_a.entries@) + sum_stakes(
            c.side_b.entries@,
        ),
{
}

/// First-contributor odds. The first contributor to a side is always priced
/// at exactly 1000 (1.000x): a side whose ledger holds no entries has total
/// zero, and the pricing rule sends a zero side total to 1000 — whatever
/// the pool total is.
pub proof fn lemma_first_contributor_odds(ledger: PoolLedger, pool_total: int)
    requires
        ledger.wf(),
        ledger.entries@.len() == 0,
    ensures
        spec_odds(ledger.total as int, pool_total) == 1000,
{
    assert(sum_stakes(ledger.entries@) == 0);
}

/// Payout accounting. Net and fee partition the gross exactly: the winning
/// holding is debited by `net + fee == gross`, never more, and the fee
/// never exceeds the gross.
pub proof fn lemma_payout_partitions_gross(stake: u64, locked_odds: u64)
    ensures
        spec_net(stake, locked_odds) + spec_fee(stake, locked_odds) == spec_gross(
            stake,
            locked_odds,
        ),
        0 <= spec_fee(stake, locked_odds) <= spec_gross(stake, locked_odds),
{
    lemma_mul_nonnegative(stake as int, locked_odds as int);
    lemma_div_pos_is_pos((stake as int) * (locked_odds as int), 1000);
    let gross = spec_gross(stake, locked_odds);
    lemma_mul_nonnegative(gross, 15);
    lemma_div_pos_is_pos(gross * 15, 1000);
    lemma_mul_inequality(15, 1000, gross);
    assert(gross * 15 == 15 * gross) by (nonlinear_arith);
    assert(gross * 1000 == 1000 * gross) by (nonlinear_arith);
    lemma_div_is_ordered(gross * 15, gross * 1000, 1000);
    lemma_div_multiples_vanish(gross, 1000);
}

} // verus!
