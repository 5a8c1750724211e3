//! The content fingerprint. A claim record never holds its raw text, only a
//! fixed-size digest of it; the digest also feeds the storage layer's
//! deterministic claim addressing, so it must be collision-resistant.

use vstd::prelude::*;

verus! {

/// The SHA-256 digest of a byte sequence. The digest is a function of the
/// input bytes alone; it is named here, not written out, and computed only
/// by the outside hasher below.
pub uninterp spec fn sha256_of(bytes: Seq<u8>) -> Seq<u8>;

/// Relies on `solana_program::hash::hash`: the SHA-256 digest of the input
/// bytes, 32 bytes, computed from those bytes alone.
#[verifier::external_body]
pub(crate) fn fingerprint_bytes(text: &Vec<u8>) -> (r: [u8; 32])
    ensures
        r@ == sha256_of(text@),
{
    solana_program::hash::hash(text.as_slice()).to_bytes()
}

} // verus!
