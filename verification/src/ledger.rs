//! The pool ledger: the authoritative per-side record of contributions.
//! Entries are append-only; the append order is what an index-based payout
//! lookup relies on. The only later mutation an entry ever sees is its
//! payout-claimed flag flipping to true, once.

use vstd::prelude::*;
use crate::errors::ErrorCode;

verus! {

/// One participant's contribution to one side of one claim. The odds are
/// locked at the instant of joining and never recomputed afterward.
#[derive(Clone, Copy, Debug, PartialEq, Eq, Structural)]
pub struct PoolEntry {
    /// The contributing participant's identity.
    pub participant: u64,
    /// The stake, in the smallest currency unit.
    pub stake: u64,
    /// The locked-in odds multiplier, fixed-point at scale 1000.
    pub odds: u64,
    /// Whether this entry's payout has been collected.
    pub claimed: bool,
}

/// The append-only list of one side's entries, with its running total.
#[derive(Clone, Debug)]
pub struct PoolLedger {
    pub entries: Vec<PoolEntry>,
    pub total: u64,
}

/// The sum of the stakes recorded in a sequence of entries.
pub open spec fn sum_stakes(s: Seq<PoolEntry>) -> int
    decreases s.len(),
{
    if s.len() == 0 {
        0
    } else {
        sum_stakes(s.drop_last()) + s.last().stake
    }
}

/// Appending an entry adds exactly its stake to the sum.
pub proof fn lemma_sum_stakes_push(s: Seq<PoolEntry>, e: PoolEntry)
    ensures
        sum_stakes(s.push(e)) == sum_stakes(s) + e.stake,
{
    assert(s.push(e).drop_last() =~= s);
    assert(s.push(e).last() == e);
}

/// Replacing an entry by one with the same stake leaves the sum unchanged.
pub proof fn lemma_sum_stakes_update_same_stake(s: Seq<PoolEntry>, i: int, e: PoolEntry)
    requires
        0 <= i < s.len(),
        e.stake == s[i].stake,
    ensures
        sum_stakes(s.update(i, e)) == sum_stakes(s),
    decreases s.len(),
{
    if i == s.len() - 1 {
        assert(s.update(i, e).drop_last() =~= s.drop_last());
        assert(s.update(i, e).last() == e);
    } else {
        assert(s.update(i, e).drop_last() =~= s.drop_last().update(i, e));
        assert(s.update(i, e).last() == s.last());
        lemma_sum_stakes_update_same_stake(s.drop_last(), i, e);
    }
}

impl PoolLedger {
    /// The ledger's invariant: the running total is the sum of the recorded
    /// stakes — every unit in the total was transferred in by some entry.
    pub open spec fn wf(self) -> bool {
        self.total == sum_stakes(self.entries@)
    }

    /// An empty ledger for a side nobody has backed yet.
    pub fn new() -> (r: PoolLedger)
        ensures
            r.wf(),
            r.entries@ == Seq::<PoolEntry>::empty(),
            r.total == 0,
    {
        PoolLedger { entries: Vec::new(), total: 0 }
    }

    /// Append one contribution: the only way an entry is ever created.
    /// The running total grows by exactly the appended stake.
    pub fn append(&mut self, participant: u64, amount: u64, odds: u64)
        requires
            old(self).wf(),
            old(self).total + amount <= u64::MAX,
        ensures
            final(self).wf(),
            final(self).entries@ == old(self).entries@.push(
                (PoolEntry { participant, stake: amount, odds, claimed: false }),
            ),
            final(self).total == old(self).total + amount,
    {
        let entry = PoolEntry { participant, stake: amount, odds, claimed: false };
        self.entries.push(entry);
        self.total = self.total + amount;
        proof {
            lemma_sum_stakes_push(old(self).entries@, entry);
        }
    }

    /// Look an entry up by index, checking that the caller owns it.
    /// Fails with `InvalidIndex` past the end, and with `NotAuthorized` when
    /// the caller is not the recorded participant.
    pub fn entry_at(&self, index: usize, caller: u64) -> (r: Result<PoolEntry, ErrorCode>)
        ensures
            index < self.entries@.len() && self.entries@[index as int].participant == caller
                ==> r == Ok::<PoolEntry, ErrorCode>(self.entries@[index as int]),
            index >= self.entries@.len()
                ==> r == Err::<PoolEntry, ErrorCode>(ErrorCode::InvalidIndex),
            index < self.entries@.len() && self.entries@[index as int].participant != caller
                ==> r == Err::<PoolEntry, ErrorCode>(ErrorCode::NotAuthorized),
    {
        if index >= self.entries.len() {
            return Err(ErrorCode::InvalidIndex);
        }
        let entry = self.entries[index];
        if entry.participant != caller {
            return Err(ErrorCode::NotAuthorized);
        }
        Ok(entry)
    }

    /// Flip one entry's payout-claimed flag to true. Stake and odds stay as
    /// they are, so the ledger's total is untouched.
    pub fn mark_claimed(&mut self, index: usize)
        requires
            old(self).wf(),
            index < old(self).entries@.len(),
        ensures
            final(self).wf(),
            final(self).entries@ == old(self).entries@.update(
                index as int,
                (PoolEntry { claimed: true, ..old(self).entries@[index as int] }),
            ),
            final(self).total == old(self).total,
    {
        let entry = self.entries[index];
        let updated = PoolEntry { claimed: true, ..entry };
        self.entries[index] = updated;
        proof {
            lemma_sum_stakes_update_same_stake(old(self).entries@, index as int, updated);
        }
    }
}

} // verus!
