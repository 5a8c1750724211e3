//! The payout calculator. A winner's gross payout is their locked stake
//! times their locked odds (scale 1000), floored; a 1.5% protocol fee
//! (15/1000 of the gross, floored) goes to the treasury, the net to the
//! winner. The winning side's holding is debited by exactly net + fee — the
//! gross — so every unit leaving the vault is accounted for.

use vstd::prelude::*;
use vstd::arithmetic::div_mod::lemma_div_is_ordered;
use vstd::arithmetic::div_mod::lemma_div_multiples_vanish;
use vstd::arithmetic::mul::lemma_mul_inequality;
use vstd::arithmetic::mul::lemma_mul_upper_bound;
use crate::claim::ClaimAccount;
use crate::claim::ClaimStatus;
use crate::claim::Side;
use crate::claim::opposite;
use crate::errors::ErrorCode;
use crate::ledger::PoolEntry;
use crate::transfer::Party;
use crate::transfer::Transfer;

verus! {

/// The gross payout of a stake at its locked odds: `stake * odds / 1000`,
/// floored.
pub open spec fn spec_gross(stake: u64, locked_odds: u64) -> int {
    (stake * locked_odds) / 1000
}

/// The protocol fee on that gross: 1.5%, i.e. `gross * 15 / 1000`, floored.
pub open spec fn spec_fee(stake: u64, locked_odds: u64) -> int {
    spec_gross(stake, locked_odds) * 15 / 1000
}

/// What the winner actually receives: the gross less the fee.
pub open spec fn spec_net(stake: u64, locked_odds: u64) -> int {
    spec_gross(stake, locked_odds) - spec_fee(stake, locked_odds)
}

/// Compute one winner's payout from their locked ledger entry:
/// `(net, fee)`, with `net + fee` exactly the gross.
pub fn compute_payout(stake: u64, locked_odds: u64) -> (r: (u128, u128))
    ensures
        r.0 == spec_net(stake, locked_odds),
        r.1 == spec_fee(stake, locked_odds),
        r.0 + r.1 == spec_gross(stake, locked_odds),
        spec_gross(stake, locked_odds) < u128::MAX,
{
    proof {
        lemma_mul_upper_bound(stake as int, u64::MAX as int, locked_odds as int, u64::MAX as int);
        assert((u64::MAX as int) * (u64::MAX as int) < u128::MAX as int) by (nonlinear_arith);
    }
    let prod: u128 = (stake as u128) * (locked_odds as u128);
    let gross: u128 = prod / 1000;
    proof {
        lemma_div_is_ordered(prod as int, u128::MAX as int, 1000);
    }
    let fee: u128 = gross * 15 / 1000;
    proof {
        lemma_mul_inequality(15, 1000, gross as int);
        assert((gross as int) * 15 == 15 * (gross as int)) by (nonlinear_arith);
        assert((gross as int) * 1000 == 1000 * (gross as int)) by (nonlinear_arith);
        lemma_div_is_ordered((gross as int) * 15, (gross as int) * 1000, 1000);
        lemma_div_multiples_vanish(gross as int, 1000);
        assert(fee <= gross);
    }
    let net: u128 = gross - fee;
    (net, fee)
}

/// Whether the decision below lets the payout go ahead: the claim is
/// resolved for this side, the entry exists, the caller owns it, it is
/// unclaimed, and the gross fits the currency's unit type.
pub open spec fn spec_payout_decision(
    c: ClaimAccount,
    side: Side,
    index: int,
    caller: u64,
) -> Result<PoolEntry, ErrorCode> {
    if !(c.status is Resolved) {
        Err(ErrorCode::NotResolved)
    } else if c.winner != Some(side) {
        Err(ErrorCode::NotAuthorized)
    } else if index >= c.pool_of(side).entries@.len() {
        Err(ErrorCode::InvalidIndex)
    } else if c.pool_of(side).entries@[index].participant != caller {
        Err(ErrorCode::NotAuthorized)
    } else if c.pool_of(side).entries@[index].claimed {
        Err(ErrorCode::PayoutAlreadyClaimed)
    } else if spec_gross(c.pool_of(side).entries@[index].stake, c.pool_of(side).entries@[index].odds)
        > u64::MAX {
        Err(ErrorCode::InvalidPayoutAmount)
    } else {
        Ok(c.pool_of(side).entries@[index])
    }
}

impl ClaimAccount {
    /// Collect one winning entry's payout. The checks run in a fixed order:
    /// the claim must be `Resolved` (`NotResolved`), the requested side must
    /// be the winner (`NotAuthorized` — losers receive nothing), the index
    /// must exist (`InvalidIndex`), the caller must own the entry
    /// (`NotAuthorized`), the entry must be unclaimed
    /// (`PayoutAlreadyClaimed`), and the gross must fit the unit type
    /// (`InvalidPayoutAmount`). On success the entry's claimed flag is set —
    /// before the transfers are handed out, so a re-entrant second request
    /// fails — and the two returned transfers debit the winning holding by
    /// exactly the gross: the net to the caller, the fee to the treasury.
    /// On any failure the claim is unchanged. The surrounding program must
    /// perform both transfers or roll the whole operation back.
    pub fn claim_payout(&mut self, side: Side, index: usize, caller: u64) -> (r: Result<
        (Transfer, Transfer),
        ErrorCode,
    >)
        requires
            old(self).wf(),
        ensures
            final(self).wf(),
            final(self).same_identity(*old(self)),
            final(self).same_outcome(*old(self)),
            spec_payout_decision(*old(self), side, index as int, caller) matches Err(e) ==> r
                == Err::<(Transfer, Transfer), ErrorCode>(e) && *final(self) == *old(self),
            spec_payout_decision(*old(self), side, index as int, caller) matches Ok(entry) ==> r
                == Ok::<(Transfer, Transfer), ErrorCode>((
                (Transfer {
                    from: Party::Vault(side),
                    to: Party::Account(caller),
                    amount: spec_net(entry.stake, entry.odds) as u64,
                }),
                (Transfer {
                    from: Party::Vault(side),
                    to: Party::Treasury,
                    amount: spec_fee(entry.stake, entry.odds) as u64,
                }),
            )) && final(self).pool_of(side).entries@ == old(self).pool_of(side).entries@.update(
                index as int,
                (PoolEntry { claimed: true, ..entry }),
            ) && final(self).pool_of(side).total == old(self).pool_of(side).total
                && final(self).pool_of(opposite(side)) == old(self).pool_of(opposite(side)),
    {
        if !(self.status == ClaimStatus::Resolved) {
            return Err(ErrorCode::NotResolved);
        }
        let winner_side = self.winner.unwrap();
        if !(winner_side == side) {
            return Err(ErrorCode::NotAuthorized);
        }
        let looked_up = if side == Side::A {
            self.side_a.entry_at(index, caller)
        } else {
            self.side_b.entry_at(index, caller)
        };
        let entry = match looked_up {
            Ok(entry) => entry,
            Err(code) => {
                return Err(code);
            },
        };
        if entry.claimed {
            return Err(ErrorCode::PayoutAlreadyClaimed);
        }
        let (net, fee) = compute_payout(entry.stake, entry.odds);
        if net + fee > u64::MAX as u128 {
            return Err(ErrorCode::InvalidPayoutAmount);
        }
        let net_amount: u64 = net as u64;
        let fee_amount: u64 = fee as u64;
        if side == Side::A {
            self.side_a.mark_claimed(index);
        } else {
            self.side_b.mark_claimed(index);
        }
        Ok((
            Transfer { from: Party::Vault(side), to: Party::Account(caller), amount: net_amount },
            Transfer { from: Party::Vault(side), to: Party::Treasury, amount: fee_amount },
        ))
    }
}

} // verus!
