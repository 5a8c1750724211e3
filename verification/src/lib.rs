//! A peer-to-peer wagering escrow core: participants stake funds behind one of
//! two mutually exclusive outcomes of a claim, an oracle (an automated
//! classifier with a confidence score, falling back to a human arbiter)
//! resolves the claim, and the escrowed pool is redistributed to winners net
//! of a protocol fee.
//!
//! The library holds the verified core: the claim lifecycle state machine,
//! the per-side pool ledgers with locked-in odds, the odds engine, and the
//! payout calculator. Account provisioning, signature checks and the actual
//! movement of funds are left to the surrounding program: the core hands back
//! [`transfer::Transfer`] values describing the moves it requires.

pub mod claim;
pub mod errors;
pub mod fingerprint;
pub mod laws;
pub mod ledger;
pub mod odds;
pub mod payout;
pub mod transfer;
