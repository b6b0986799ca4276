//! The one-way hash used for leaves and inner nodes.
use vstd::prelude::*;

verus! {

/// The Keccak-256 digest of the given bytes.
pub uninterp spec fn keccak_of(data: Seq<u8>) -> [u8; 32];

/// Relies on solana_program::keccak::hashv: the Keccak-256 digest of the concatenation
/// of the given slices (here a single one), a function of those bytes alone.
#[verifier::external_body]
pub(crate) fn keccak(data: &[u8]) -> (r: [u8; 32])
    ensures
        r == keccak_of(data@),
{
    solana_program::keccak::hashv(&[data]).0
}

} // verus!
