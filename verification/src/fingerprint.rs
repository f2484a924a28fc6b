//! Behavioral fingerprinting.
//!
//! A fingerprint characterises how a context behaves, never what it
//! contains: a burst of no-op-safe probe calls runs inside a timing
//! bracket and the two bracket readings are folded into a 64-bit digest.
//! Real timing is noisy, so digests are compared with
//! [`crate::distance::digest_distance`], not equality; under a
//! deterministic tick source the digest is pinned exactly, which is what
//! makes the stability bound provable.

use vstd::prelude::*;
use crate::context::{byte_of, QuantumContext};
use crate::distance::{lemma_digest_distance_self, pop_below};
use crate::timing::TimingSource;

verus! {

/// One saturating tick advance.
pub open spec fn sat_step(tick: u64, step: u64) -> u64 {
    if tick + step > u64::MAX {
        u64::MAX
    } else {
        (tick + step) as u64
    }
}

/// The digest a deterministic tick source pins: the fold of the two
/// bracket readings around the probe burst.
pub open spec fn deterministic_digest(last: u64, step: u64) -> u64 {
    sat_step(last, step) ^ sat_step(sat_step(last, step), step)
}

/// Runs the context's silent probe `iterations` times inside a timing
/// bracket and folds the bracket readings into a digest. The digest
/// depends on the timing behaviour alone; the probe results are
/// discarded. Under a deterministic source the digest is pinned.
pub fn hash_behavior<const N: usize>(
    context: &QuantumContext<N>,
    timing: &mut TimingSource,
    iterations: u32,
) -> (digest: u64)
    ensures
        final(timing).last_tick() >= old(timing).last_tick(),
        final(timing).is_deterministic() == old(timing).is_deterministic(),
        final(timing).is_deterministic() ==> final(timing).step() == old(timing).step(),
        old(timing).is_deterministic() ==> digest == deterministic_digest(
            old(timing).last_tick(),
            old(timing).step(),
        ),
{
    let start = timing.now();
    let mut i: u32 = 0;
    while i < iterations
        invariant
            0 <= i <= iterations,
        decreases iterations - i,
    {
        let _probe: u64 = context.observe_silent();
        i = i + 1;
    }
    let end = timing.now();
    start ^ end
}

/// A timing-derived digest with the burst length it was taken over.
pub struct BehavioralFingerprint {
    digest: u64,
    iterations: u32,
}

impl BehavioralFingerprint {
    /// The 64-bit timing digest.
    pub closed spec fn digest(self) -> u64 {
        self.digest
    }

    /// How many probe calls the bracket enclosed.
    pub closed spec fn iterations(self) -> u32 {
        self.iterations
    }

    /// The digest value.
    pub fn digest_value(&self) -> (d: u64)
        ensures
            d == self.digest(),
    {
        self.digest
    }

    /// The burst length.
    pub fn iteration_count(&self) -> (n: u32)
        ensures
            n == self.iterations(),
    {
        self.iterations
    }
}

/// Takes a fingerprint of the context and records the digest into the
/// context's digest area. A pure function of timing behaviour: the
/// context's belief state, capabilities, trail and phase are untouched.
pub fn collect_fingerprint<const N: usize>(
    context: &mut QuantumContext<N>,
    timing: &mut TimingSource,
    iterations: u32,
) -> (r: BehavioralFingerprint)
    requires
        old(context).wf(),
    ensures
        final(context).wf(),
        r.iterations() == iterations,
        old(timing).is_deterministic() ==> r.digest() == deterministic_digest(
            old(timing).last_tick(),
            old(timing).step(),
        ),
        forall|i: int| 0 <= i < 8 ==> final(context).hash_bytes()[i] == byte_of(r.digest(), i),
        forall|i: int|
            8 <= i < 32 ==> final(context).hash_bytes()[i] == old(context).hash_bytes()[i],
        final(context).phase() == old(context).phase(),
        final(context).belief() == old(context).belief(),
        final(context).shadow_caps() == old(context).shadow_caps(),
        final(context).trail() == old(context).trail(),
        final(timing).last_tick() >= old(timing).last_tick(),
        final(timing).is_deterministic() == old(timing).is_deterministic(),
{
    let digest = hash_behavior(context, timing, iterations);
    context.record_behavioral_hash(digest);
    BehavioralFingerprint { digest, iterations }
}

/// Stability bound: two fingerprinting runs whose deterministic tick
/// sources stand in the same state pin the same digest, so repeated
/// fingerprints lie at Hamming distance zero — within every tolerance a
/// caller could choose.
pub proof fn lemma_fingerprint_stability(last_a: u64, step_a: u64, last_b: u64, step_b: u64)
    requires
        last_a == last_b,
        step_a == step_b,
    ensures
        deterministic_digest(last_a, step_a) == deterministic_digest(last_b, step_b),
        pop_below(deterministic_digest(last_a, step_a) ^ deterministic_digest(last_b, step_b), 64)
            == 0,
{
    lemma_digest_distance_self(deterministic_digest(last_a, step_a));
}

} // verus!
