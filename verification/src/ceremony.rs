//! Orchestration of the finalization step. The ceremony is a fixed linear
//! pipeline: decode the beacon literal into a 32-byte seed, seed the shared
//! deterministic generator, let each of the three parameter sets contribute in
//! the fixed order Spend, Output, Mint, record each set's commitment digest,
//! and bind the three digests into one hash. The contribution mathematics
//! itself belongs to an external library; this module fixes the order of the
//! calls and the exact function from the recorded digests to the binding hash.

use rand_chacha::ChaCha20Rng;
use vstd::prelude::*;

use crate::hash::blake2b512;
use crate::hash::blake2b_of;
use crate::hex::decode_hex;
use crate::hex::decoded_hex;
use crate::hex::is_hex_str;
use crate::hex::is_hex_string;
use crate::rng::chacha_state_of;
use crate::rng::rng_state;
use crate::rng::seed_rng;

verus! {

/// Why the finalization step refused to start or to proceed. Every error is
/// fatal: the step runs once and is re-run by hand after inspection.
#[derive(Clone, Copy, Debug, PartialEq, Eq, Structural)]
pub enum CeremonyError {
    /// The beacon literal is not a 64-character hexadecimal string.
    InvalidBeacon,
    /// A parameter-set blob could not be deserialized from the input stream.
    Deserialization,
    /// The updated parameters could not be written to the output stream.
    Io,
}

/// The three parameter sets, in their fixed processing order.
#[derive(Clone, Copy, Debug, PartialEq, Eq, Structural)]
pub enum ParameterSet {
    Spend,
    Output,
    Mint,
}

/// Decode the beacon literal and seed the shared generator from it. Succeeds
/// exactly on a well-formed 64-character hexadecimal literal; the seed is the
/// 32 decoded bytes and the generator state is a function of those bytes alone.
pub fn start(beacon_hex: &str) -> (r: Result<(Vec<u8>, ChaCha20Rng), CeremonyError>)
    ensures
        match r {
            Ok(p) => is_hex_string(beacon_hex@) && beacon_hex@.len() == 64
                && p.0@ == decoded_hex(beacon_hex@) && p.0@.len() == 32 && rng_state(p.1)
                == chacha_state_of(decoded_hex(beacon_hex@)),
            Err(e) => e == CeremonyError::InvalidBeacon && !(is_hex_string(beacon_hex@)
                && beacon_hex@.len() == 64),
        },
{
    if !is_hex_str(beacon_hex) {
        return Err(CeremonyError::InvalidBeacon);
    }
    if beacon_hex.unicode_len() != 64 {
        return Err(CeremonyError::InvalidBeacon);
    }
    let seed = decode_hex(beacon_hex);
    let rng = seed_rng(seed.as_slice());
    Ok((seed, rng))
}

/// The progress of the contribution phase: the per-set commitment digests
/// recorded so far, in processing order. Complete once all three sets have
/// contributed; only then is there a binding hash.
pub struct Ceremony {
    digests: Vec<Vec<u8>>,
}

impl Ceremony {
    /// The commitment digests recorded so far, in processing order.
    pub closed spec fn recorded(self) -> Seq<Seq<u8>> {
        self.digests@.map(|i: int, d: Vec<u8>| d@)
    }

    /// At most three digests, each of the fixed 64-byte size.
    pub open spec fn well_formed(self) -> bool {
        self.recorded().len() <= 3 && (forall|i: int|
            0 <= i < self.recorded().len() ==> (#[trigger] self.recorded()[i]).len() == 64)
    }

    /// All three parameter sets have contributed.
    pub open spec fn complete(self) -> bool {
        self.recorded().len() == 3
    }

    /// A ceremony with no contribution recorded yet.
    pub fn new() -> (c: Ceremony)
        ensures
            c.well_formed(),
            c.recorded() == Seq::<Seq<u8>>::empty(),
    {
        let c = Ceremony { digests: Vec::new() };
        proof {
            assert(c.recorded() =~= Seq::<Seq<u8>>::empty());
        }
        c
    }

    /// How many parameter sets have contributed so far.
    pub fn sets_recorded(&self) -> (n: usize)
        ensures
            n == self.recorded().len(),
    {
        self.digests.len()
    }

    /// Whether all three parameter sets have contributed.
    pub fn is_complete(&self) -> (b: bool)
        ensures
            b == self.complete(),
    {
        self.digests.len() == 3
    }

    /// Which parameter set must contribute next. The order is fixed: Spend,
    /// then Output, then Mint; None once the ceremony is complete.
    pub fn next_set(&self) -> (r: Option<ParameterSet>)
        ensures
            r == (if self.recorded().len() == 0 {
                Some(ParameterSet::Spend)
            } else if self.recorded().len() == 1 {
                Some(ParameterSet::Output)
            } else if self.recorded().len() == 2 {
                Some(ParameterSet::Mint)
            } else {
                None::<ParameterSet>
            }),
    {
        let n = self.digests.len();
        if n == 0 {
            Some(ParameterSet::Spend)
        } else if n == 1 {
            Some(ParameterSet::Output)
        } else if n == 2 {
            Some(ParameterSet::Mint)
        } else {
            None
        }
    }

    /// Record the commitment digest of the next parameter set's contribution.
    pub fn record_digest(&mut self, digest: Vec<u8>)
        requires
            old(self).well_formed(),
            !old(self).complete(),
            digest@.len() == 64,
        ensures
            final(self).well_formed(),
            final(self).recorded() == old(self).recorded().push(digest@),
    {
        let ghost d = digest@;
        self.digests.push(digest);
        proof {
            assert(self.recorded() =~= old(self).recorded().push(d));
        }
    }

    /// The binding hash of a complete ceremony: the wide hash of the three
    /// commitment digests concatenated in processing order, and of nothing
    /// else. This is the step's public, auditable fingerprint.
    pub fn binding_hash(&self) -> (h: Vec<u8>)
        requires
            self.well_formed(),
            self.complete(),
        ensures
            h@ == blake2b_of(self.recorded()[0] + self.recorded()[1] + self.recorded()[2]),
            h@.len() == 64,
    {
        let mut buf: Vec<u8> = Vec::new();
        buf.extend_from_slice(self.digests[0].as_slice());
        buf.extend_from_slice(self.digests[1].as_slice());
        buf.extend_from_slice(self.digests[2].as_slice());
        proof {
            assert(buf@ =~= self.recorded()[0] + self.recorded()[1] + self.recorded()[2]);
        }
        blake2b512(buf.as_slice())
    }

    /// The binding hash if and only if the ceremony is complete: an incomplete
    /// ceremony — a run that failed before all three sets contributed — has no
    /// hash to publish.
    pub fn try_binding_hash(&self) -> (r: Option<Vec<u8>>)
        requires
            self.well_formed(),
        ensures
            match r {
                Some(h) => self.complete() && h@ == blake2b_of(
                    self.recorded()[0] + self.recorded()[1] + self.recorded()[2],
                ),
                None => !self.complete(),
            },
    {
        if self.is_complete() {
            Some(self.binding_hash())
        } else {
            None
        }
    }
}

/// Concatenating three fixed-width digests is injective: equal concatenations
/// come from equal triples. Reordering the sets' processing therefore feeds a
/// different input to the binding hash whenever it exchanges unequal digests.
pub proof fn lemma_digest_concat_injective(
    a1: Seq<u8>,
    a2: Seq<u8>,
    a3: Seq<u8>,
    b1: Seq<u8>,
    b2: Seq<u8>,
    b3: Seq<u8>,
)
    requires
        a1.len() == 64,
        a2.len() == 64,
        a3.len() == 64,
        b1.len() == 64,
        b2.len() == 64,
        b3.len() == 64,
        a1 + a2 + a3 == b1 + b2 + b3,
    ensures
        a1 == b1,
        a2 == b2,
        a3 == b3,
{
    let a = a1 + a2 + a3;
    let b = b1 + b2 + b3;
    assert(a.subrange(0, 64) =~= a1);
    assert(a.subrange(64, 128) =~= a2);
    assert(a.subrange(128, 192) =~= a3);
    assert(b.subrange(0, 64) =~= b1);
    assert(b.subrange(64, 128) =~= b2);
    assert(b.subrange(128, 192) =~= b3);
}

/// Determinism of the binding step: two complete ceremonies that recorded the
/// same three digests are bound to the same hash, since the hash is a function
/// of the concatenated digests and of nothing else.
pub proof fn lemma_binding_hash_deterministic(c1: Ceremony, c2: Ceremony)
    requires
        c1.complete(),
        c2.complete(),
        c1.recorded() == c2.recorded(),
    ensures
        blake2b_of(c1.recorded()[0] + c1.recorded()[1] + c1.recorded()[2]) == blake2b_of(
            c2.recorded()[0] + c2.recorded()[1] + c2.recorded()[2],
        ),
{
}

} // verus!
