//! The binding hash: one wide, collision-resistant digest over the three
//! per-set commitment digests, the ceremony's public fingerprint for this step.

use blake2::Digest;
use vstd::prelude::*;

verus! {

/// The 64-byte BLAKE2b-512 digest of a byte sequence.
pub uninterp spec fn blake2b_of(data: Seq<u8>) -> Seq<u8>;

/// Relies on the blake2 crate's `Blake2b512` (through the `Digest` trait): the
/// digest is a deterministic function of the input bytes alone, 64 bytes long.
#[verifier::external_body]
pub(crate) fn blake2b512(data: &[u8]) -> (r: Vec<u8>)
    ensures
        r@ == blake2b_of(data@),
        r@.len() == 64,
{
    blake2::Blake2b512::digest(data).to_vec()
}

} // verus!
