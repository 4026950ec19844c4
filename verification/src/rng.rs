//! The ceremony's sole source of randomness: a stream-cipher based generator
//! seeded once from the decoded beacon value. Determinism is the defining
//! requirement — the same 32-byte seed must give the same generator state, and
//! hence the same output stream, on every run.

use rand::SeedableRng;
use rand_chacha::ChaCha20Rng;
use vstd::prelude::*;

verus! {

/// The ChaCha generator of the rand_chacha crate, opaque to verification.
#[verifier::external_type_specification]
#[verifier::external_body]
pub struct ExChaCha20Rng(ChaCha20Rng);

/// The state a ChaCha generator holds: its key material together with the
/// position in the output stream it will produce next.
pub uninterp spec fn rng_state(rng: ChaCha20Rng) -> Seq<u8>;

/// The state of a freshly seeded ChaCha generator, a function of the 32-byte
/// seed alone.
pub uninterp spec fn chacha_state_of(seed: Seq<u8>) -> Seq<u8>;

/// Relies on rand_chacha's `ChaCha20Rng::from_seed`: the generator it returns
/// is a deterministic function of the 32-byte seed alone (key taken from the
/// seed, block counter and stream identifier start at zero).
#[verifier::external_body]
pub(crate) fn seed_rng(seed: &[u8]) -> (rng: ChaCha20Rng)
    requires
        seed@.len() == 32,
    ensures
        rng_state(rng) == chacha_state_of(seed@),
{
    let mut s = [0u8; 32];
    s.copy_from_slice(seed);
    ChaCha20Rng::from_seed(s)
}

/// Determinism of seeding: the generator state derived from a beacon seed is a
/// function of the seed's bytes and of nothing else, so two runs seeded with
/// equal bytes start from equal generator states.
pub proof fn lemma_seeding_deterministic(s1: Seq<u8>, s2: Seq<u8>)
    requires
        s1 == s2,
    ensures
        chacha_state_of(s1) == chacha_state_of(s2),
{
}

} // verus!
