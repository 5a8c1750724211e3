//! The error taxonomy of the core. Every failure is terminal and
//! caller-correctable: a wrong state, a wrong identity or a wrong amount.
//! Nothing is retried and nothing is recovered silently. Two failures the
//! surrounding system knows do not originate here and so have no variant:
//! a duplicate claim surfaces in the storage layer, whose record address is
//! derived from the (creator, fingerprint) pair, and insufficient funds
//! surface in the funds backend when it refuses a transfer.

use vstd::prelude::*;

verus! {

/// Why a requested operation was refused. Each operation's contract states
/// exactly which variant comes back on which inputs.
#[derive(Clone, Copy, Debug, PartialEq, Eq, Structural)]
pub enum ErrorCode {
    /// A join was requested on a claim that is no longer accepting entries.
    ClaimNotOpen,
    /// A resolution was requested from a state that does not allow it.
    InvalidStatus,
    /// An automated verdict arrived with too little confidence to act on.
    LowConfidence,
    /// The caller's signature did not check out.
    InvalidSignature,
    /// A payout was requested before the claim was resolved.
    NotResolved,
    /// The human arbiter is not registered for this claim.
    ArbiterNotRegistered,
    /// A ledger lookup used an index past the end of the side's entries.
    InvalidIndex,
    /// The caller does not own the entry, or asked to be paid on the losing side.
    NotAuthorized,
    /// The entry's payout was already collected once.
    PayoutAlreadyClaimed,
    /// The computed payout does not fit in the currency's unit type.
    InvalidPayoutAmount,
}

} // verus!
