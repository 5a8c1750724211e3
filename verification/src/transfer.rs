//! The funds-transfer capability, as data. The core never moves money itself:
//! each operation that requires a move hands back a [`Transfer`] describing
//! it, and the surrounding program performs the move atomically (or fails the
//! whole operation).

use vstd::prelude::*;
use crate::claim::Side;

verus! {

/// One end of a transfer: a participant's own account, one side's custodial
/// holding of the claim at hand, or the protocol treasury.
#[derive(Clone, Copy, Debug, PartialEq, Eq, Structural)]
pub enum Party {
    /// A participant's account, by identity.
    Account(u64),
    /// The custodial holding of one side of the claim.
    Vault(Side),
    /// The protocol treasury that collects fees.
    Treasury,
}

/// An atomic, all-or-nothing move of `amount` units from `from` to `to`,
/// to be carried out by the funds backend.
#[derive(Clone, Copy, Debug, PartialEq, Eq, Structural)]
pub struct Transfer {
    pub from: Party,
    pub to: Party,
    pub amount: u64,
}

} // verus!
