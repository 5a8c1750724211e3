//! The claim: a single wager instance, with its lifecycle state machine.
//! States move `Open -> Locked -> {Resolving, Disputed} -> Resolved`;
//! `Resolved` is terminal. Betting closes externally (the deadline field is
//! authoritative but not enforced here), so the core itself never moves a
//! claim out of `Open`: resolution starts from `Locked` or `Resolving`.

use vstd::prelude::*;
use crate::errors::ErrorCode;
use crate::fingerprint::fingerprint_bytes;
use crate::fingerprint::sha256_of;
use crate::ledger::PoolEntry;
use crate::ledger::PoolLedger;
use crate::odds::price_odds;
use crate::odds::spec_odds;
use crate::transfer::Party;
use crate::transfer::Transfer;

verus! {

/// Where a claim stands in its lifecycle.
#[derive(Clone, Copy, Debug, PartialEq, Eq, Structural)]
pub enum ClaimStatus {
    /// Accepting entries on both sides.
    Open,
    /// Betting has closed; resolution has not begun.
    Locked,
    /// An automated resolution is in flight.
    Resolving,
    /// The outcome is recorded; payouts may be collected. Terminal.
    Resolved,
    /// Automated confidence was insufficient; a human arbiter must decide.
    Disputed,
}

/// One of the two mutually exclusive outcomes participants back.
#[derive(Clone, Copy, Debug, PartialEq, Eq, Structural)]
pub enum Side {
    A,
    B,
}

/// How a claim's outcome was decided.
#[derive(Clone, Copy, Debug, PartialEq, Eq, Structural)]
pub enum ResolutionMethod {
    AI,
    Human,
}

/// The immutable record of a claim's resolution, written exactly once, at
/// the transition into `Resolved`.
#[derive(Clone, Copy, Debug, PartialEq, Eq, Structural)]
pub struct ResolutionData {
    /// The verdict. A true verdict resolves for side A, a false one for side B.
    pub verdict: bool,
    /// The resolver's confidence, 0 to 100. A human arbiter counts as 100.
    pub confidence: u8,
    /// Whether the automated classifier or a human arbiter decided.
    pub method: ResolutionMethod,
    /// The identity of whoever resolved.
    pub resolver: u64,
    /// When the resolution was recorded.
    pub timestamp: i64,
}

/// The side a verdict backs: true is side A, false is side B.
pub open spec fn side_of_verdict(verdict: bool) -> Side {
    if verdict {
        Side::A
    } else {
        Side::B
    }
}

/// The side opposite to the given one.
pub open spec fn opposite(side: Side) -> Side {
    if side is A {
        Side::B
    } else {
        Side::A
    }
}

/// A single wager instance: its identity, its lifecycle state, its two pool
/// ledgers and, once resolved, its outcome. The record is created once and
/// mutated only through the transitions below; it is never deleted.
#[derive(Clone, Debug)]
pub struct ClaimAccount {
    /// The creator's identity, immutable after creation.
    pub creator: u64,
    /// The SHA-256 fingerprint of the claim's text; the raw text is never kept.
    pub claim_text_hash: [u8; 32],
    /// The instant after which no new entries are accepted. Authoritative,
    /// but enforced by the surrounding program, not here.
    pub deadline: i64,
    /// Where the claim stands in its lifecycle.
    pub status: ClaimStatus,
    /// The winning side, present exactly once the claim is `Resolved`.
    pub winner: Option<Side>,
    /// The resolution record, present exactly once the claim is `Resolved`.
    pub resolution: Option<ResolutionData>,
    /// Free-form category label.
    pub category: String,
    /// Free-form subcategory label.
    pub subcategory: String,
    /// The pool ledger of side A.
    pub side_a: PoolLedger,
    /// The pool ledger of side B.
    pub side_b: PoolLedger,
}

impl ClaimAccount {
    /// The claim's invariant: both ledgers are well-formed, and the status is
    /// correlated with the presence of the winner and the resolution record —
    /// both exist exactly when the claim is `Resolved`, and then the winner
    /// is the side the recorded verdict backs.
    pub open spec fn wf(self) -> bool {
        &&& self.side_a.wf()
        &&& self.side_b.wf()
        &&& (self.status is Resolved <==> self.winner is Some)
        &&& (self.status is Resolved <==> self.resolution is Some)
        &&& (self.resolution matches Some(res) ==> res.confidence <= 100
            && self.winner == Some(side_of_verdict(res.verdict)))
    }

    /// The ledger of the given side.
    pub open spec fn pool_of(self, side: Side) -> PoolLedger {
        if side is A {
            self.side_a
        } else {
            self.side_b
        }
    }

    /// The immutable identity and classification fields agree.
    pub open spec fn same_identity(self, other: ClaimAccount) -> bool {
        &&& self.creator == other.creator
        &&& self.claim_text_hash == other.claim_text_hash
        &&& self.deadline == other.deadline
        &&& self.category == other.category
        &&& self.subcategory == other.subcategory
    }

    /// Both pool ledgers agree.
    pub open spec fn same_pools(self, other: ClaimAccount) -> bool {
        self.side_a == other.side_a && self.side_b == other.side_b
    }

    /// Status, winner and resolution record agree.
    pub open spec fn same_outcome(self, other: ClaimAccount) -> bool {
        self.status == other.status && self.winner == other.winner
            && self.resolution == other.resolution
    }

    /// The odds a join on `side` is priced at, from the totals visible
    /// before the contribution is added.
    pub open spec fn join_odds(self, side: Side) -> int {
        spec_odds(
            self.pool_of(side).total as int,
            self.side_a.total + self.side_b.total,
        )
    }

    /// Build a fresh claim record in `Open` from an already-computed
    /// fingerprint: side A is seeded with the creator's own stake at 1.000x
    /// odds (the creator is the house for their own claim), side B starts
    /// empty, and the returned transfer funds the side-A holding with the
    /// seed stake.
    pub fn create_claim_record(
        creator: u64,
        claim_text_hash: [u8; 32],
        deadline: i64,
        stake: u64,
        category: String,
        subcategory: String,
    ) -> (r: (ClaimAccount, Transfer))
        ensures
            r.0.wf(),
            r.0.creator == creator,
            r.0.claim_text_hash == claim_text_hash,
            r.0.deadline == deadline,
            r.0.status is Open,
            r.0.winner is None,
            r.0.resolution is None,
            r.0.category == category,
            r.0.subcategory == subcategory,
            r.0.side_a.entries@ == seq![
                (PoolEntry { participant: creator, stake, odds: 1000, claimed: false }),
            ],
            r.0.side_a.total == stake,
            r.0.side_b.entries@ == Seq::<PoolEntry>::empty(),
            r.0.side_b.total == 0,
            r.1 == (Transfer {
                from: Party::Account(creator),
                to: Party::Vault(Side::A),
                amount: stake,
            }),
    {
        let mut side_a = PoolLedger::new();
        side_a.append(creator, stake, 1000);
        let side_b = PoolLedger::new();
        let claim = ClaimAccount {
            creator,
            claim_text_hash,
            deadline,
            status: ClaimStatus::Open,
            winner: None,
            resolution: None,
            category,
            subcategory,
            side_a,
            side_b,
        };
        let funding = Transfer {
            from: Party::Account(creator),
            to: Party::Vault(Side::A),
            amount: stake,
        };
        proof {
            assert(claim.side_a.entries@ =~= seq![
                PoolEntry { participant: creator, stake, odds: 1000, claimed: false },
            ]);
        }
        (claim, funding)
    }

    /// Open a claim from its raw text: fingerprint the text and build the
    /// record as `create_claim_record` does. Whether a claim with the same
    /// (creator, fingerprint) already exists is the storage layer's check —
    /// the record's address is derived from exactly that pair.
    pub fn create_claim(
        creator: u64,
        claim_text: &Vec<u8>,
        deadline: i64,
        stake: u64,
        category: String,
        subcategory: String,
    ) -> (r: (ClaimAccount, Transfer))
        ensures
            r.0.wf(),
            r.0.creator == creator,
            r.0.claim_text_hash@ == sha256_of(claim_text@),
            r.0.deadline == deadline,
            r.0.status is Open,
            r.0.winner is None,
            r.0.resolution is None,
            r.0.category == category,
            r.0.subcategory == subcategory,
            r.0.side_a.entries@ == seq![
                (PoolEntry { participant: creator, stake, odds: 1000, claimed: false }),
            ],
            r.0.side_a.total == stake,
            r.0.side_b.entries@ == Seq::<PoolEntry>::empty(),
            r.0.side_b.total == 0,
            r.1 == (Transfer {
                from: Party::Account(creator),
                to: Party::Vault(Side::A),
                amount: stake,
            }),
    {
        let digest = fingerprint_bytes(claim_text);
        ClaimAccount::create_claim_record(creator, digest, deadline, stake, category, subcategory)
    }

    /// Join a still-`Open` claim on one side: price the contribution from
    /// the totals visible at this moment, append the entry with those odds
    /// locked in forever, and hand back the transfer that funds the side's
    /// holding. In every other state nothing changes and the join fails with
    /// `ClaimNotOpen`.
    pub fn join_pool(&mut self, side: Side, participant: u64, amount: u64) -> (r: Result<
        Transfer,
        ErrorCode,
    >)
        requires
            old(self).wf(),
            old(self).status is Open ==> old(self).side_a.total + old(self).side_b.total + amount
                <= u64::MAX,
            old(self).status is Open ==> (old(self).side_a.total + old(self).side_b.total) * 1000
                <= u64::MAX,
        ensures
            final(self).wf(),
            final(self).same_identity(*old(self)),
            final(self).same_outcome(*old(self)),
            r is Ok <==> old(self).status is Open,
            !(old(self).status is Open) ==> r == Err::<Transfer, ErrorCode>(ErrorCode::ClaimNotOpen)
                && *final(self) == *old(self),
            old(self).status is Open ==> r == Ok::<Transfer, ErrorCode>((Transfer {
                from: Party::Account(participant),
                to: Party::Vault(side),
                amount,
            })),
            old(self).status is Open ==> final(self).pool_of(side).entries@ == old(self).pool_of(
                side,
            ).entries@.push(
                (PoolEntry {
                    participant,
                    stake: amount,
                    odds: old(self).join_odds(side) as u64,
                    claimed: false,
                }),
            ),
            old(self).status is Open ==> final(self).pool_of(side).total == old(self).pool_of(
                side,
            ).total + amount,
            old(self).status is Open ==> final(self).pool_of(opposite(side)) == old(self).pool_of(
                opposite(side),
            ),
            old(self).status is Open && old(self).pool_of(side).total == 0 ==> final(self).pool_of(
                side,
            ).entries@.last().odds == 1000,
    {
        if !(self.status == ClaimStatus::Open) {
            return Err(ErrorCode::ClaimNotOpen);
        }
        let pool_total = self.side_a.total + self.side_b.total;
        let side_total = if side == Side::A {
            self.side_a.total
        } else {
            self.side_b.total
        };
        let odds = price_odds(side_total, pool_total);
        if side == Side::A {
            self.side_a.append(participant, amount, odds);
        } else {
            self.side_b.append(participant, amount, odds);
        }
        Ok(Transfer { from: Party::Account(participant), to: Party::Vault(side), amount })
    }

    /// Automated resolution. From `Locked` or `Resolving`, a confident
    /// verdict (85 or more) resolves the claim for the verdict's side and
    /// writes the single resolution record; any lower confidence moves the
    /// claim to `Disputed` and mutates nothing else — the designed fallback
    /// to the human arbiter, not an error. From every other state — in
    /// particular once `Resolved` — the call fails with `InvalidStatus` and
    /// changes nothing.
    pub fn resolve_ai(&mut self, verdict: bool, confidence: u8, resolver: u64, now: i64) -> (r:
        Result<(), ErrorCode>)
        requires
            old(self).wf(),
            confidence <= 100,
        ensures
            final(self).wf(),
            final(self).same_identity(*old(self)),
            final(self).same_pools(*old(self)),
            r is Ok <==> (old(self).status is Locked || old(self).status is Resolving),
            !(old(self).status is Locked || old(self).status is Resolving) ==> r == Err::<
                (),
                ErrorCode,
            >(ErrorCode::InvalidStatus) && *final(self) == *old(self),
            (old(self).status is Locked || old(self).status is Resolving) && confidence >= 85
                ==> final(self).status is Resolved && final(self).winner == Some(
                side_of_verdict(verdict),
            ) && final(self).resolution == Some(
                (ResolutionData {
                    verdict,
                    confidence,
                    method: ResolutionMethod::AI,
                    resolver,
                    timestamp: now,
                }),
            ),
            (old(self).status is Locked || old(self).status is Resolving) && confidence < 85
                ==> final(self).status is Disputed && final(self).winner == old(self).winner
                && final(self).resolution == old(self).resolution,
    {
        if !(self.status == ClaimStatus::Locked || self.status == ClaimStatus::Resolving) {
            return Err(ErrorCode::InvalidStatus);
        }
        if confidence >= 85 {
            self.status = ClaimStatus::Resolved;
            self.winner = if verdict {
                Some(Side::A)
            } else {
                Some(Side::B)
            };
            self.resolution = Some(
                ResolutionData {
                    verdict,
                    confidence,
                    method: ResolutionMethod::AI,
                    resolver,
                    timestamp: now,
                },
            );
        } else {
            self.status = ClaimStatus::Disputed;
        }
        Ok(())
    }

    /// Human resolution, the fallback for a `Disputed` claim. Resolves for
    /// the verdict's side and records the arbiter with confidence fixed at
    /// 100. From every other state the call fails with `InvalidStatus` and
    /// changes nothing: a confident automated verdict is final, and humans
    /// may not override it.
    pub fn resolve_human(&mut self, verdict: bool, arbiter: u64, now: i64) -> (r: Result<
        (),
        ErrorCode,
    >)
        requires
            old(self).wf(),
        ensures
            final(self).wf(),
            final(self).same_identity(*old(self)),
            final(self).same_pools(*old(self)),
            r is Ok <==> old(self).status is Disputed,
            !(old(self).status is Disputed) ==> r == Err::<(), ErrorCode>(ErrorCode::InvalidStatus)
                && *final(self) == *old(self),
            old(self).status is Disputed ==> final(self).status is Resolved && final(self).winner
                == Some(side_of_verdict(verdict)) && final(self).resolution == Some(
                (ResolutionData {
                    verdict,
                    confidence: 100,
                    method: ResolutionMethod::Human,
                    resolver: arbiter,
                    timestamp: now,
                }),
            ),
    {
        if !(self.status == ClaimStatus::Disputed) {
            return Err(ErrorCode::InvalidStatus);
        }
        self.status = ClaimStatus::Resolved;
        self.winner = if verdict {
            Some(Side::A)
        } else {
            Some(Side::B)
        };
        self.resolution = Some(
            ResolutionData {
                verdict,
                confidence: 100,
                method: ResolutionMethod::Human,
                resolver: arbiter,
                timestamp: now,
            },
        );
        Ok(())
    }

    /// The two pools' running totals, side A first.
    pub fn get_pool_totals(&self) -> (r: (u64, u64))
        ensures
            r.0 == self.side_a.total,
            r.1 == self.side_b.total,
    {
        (self.side_a.total, self.side_b.total)
    }

    /// One side's running total.
    pub fn total_of(&self, side: Side) -> (r: u64)
        ensures
            r == self.pool_of(side).total,
    {
        if side == Side::A {
            self.side_a.total
        } else {
            self.side_b.total
        }
    }

    /// Look one side's entry up by index, with the mandatory ownership
    /// check: `InvalidIndex` past the end, `NotAuthorized` when the caller
    /// is not the recorded participant.
    pub fn entry_at(&self, side: Side, index: usize, caller: u64) -> (r: Result<
        PoolEntry,
        ErrorCode,
    >)
        ensures
            index < self.pool_of(side).entries@.len() && self.pool_of(side).entries@[
                index as int
            ].participant == caller ==> r == Ok::<PoolEntry, ErrorCode>(
                self.pool_of(side).entries@[index as int],
            ),
            index >= self.pool_of(side).entries@.len() ==> r == Err::<PoolEntry, ErrorCode>(
                ErrorCode::InvalidIndex,
            ),
            index < self.pool_of(side).entries@.len() && self.pool_of(side).entries@[
                index as int
            ].participant != caller ==> r == Err::<PoolEntry, ErrorCode>(ErrorCode::NotAuthorized),
    {
        if side == Side::A {
            self.side_a.entry_at(index, caller)
        } else {
            self.side_b.entry_at(index, caller)
        }
    }
}

} // verus!
