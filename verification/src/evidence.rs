//! Zero-footprint evidence collection.
//!
//! Evidence carries only behavioural anomalies — a timing digest, a
//! reality-gap figure, a capability-drift count, a temporal-anomaly flag
//! and a short delusion note. It holds none of the traditional fields
//! (no address, no port, no timestamp), and its raw-memory area is
//! intentionally left zeroed: the collector reads nothing back and
//! leaves no residue. The engine fills the record; persisting it is a
//! collaborator's concern.

use vstd::prelude::*;
use crate::belief::{BeliefDetector, SystemMindReader};
use crate::capability::CapabilitySet;
use crate::context::QuantumContext;
use crate::distance::{differs_at, mismatch_offsets};
use crate::fingerprint::{deterministic_digest, hash_behavior};
use crate::timing::TimingSource;

verus! {

/// The note the evidence carries about the system's self-picture: empty
/// when belief and measurement agree.
pub open spec fn delusion_text(gap_count: nat) -> Seq<char> {
    if gap_count == 0 {
        Seq::empty()
    } else {
        "belief diverges from measured state"@
    }
}

/// A zero-footprint evidence record: behavioural anomalies only.
pub struct QuantumEvidence {
    /// Intentionally empty; nothing of the observed system is retained.
    pub raw_memory: [u8; 4096],
    pub behavioral_hash: u64,
    pub reality_gap: u64,
    pub capability_drift: u32,
    pub temporal_anomaly: bool,
    pub system_delusion: String,
}

/// Counts the words where the echoed capability snapshot and the directly
/// measured state disagree: the capability drift.
pub fn detect_capability_drift(caps: &CapabilitySet, detector: &BeliefDetector) -> (drift: u32)
    ensures
        drift == mismatch_offsets(caps.words(), detector.measured(), 8).len(),
{
    proof {
        caps.lemma_words_len();
        detector.lemma_shape();
    }
    let mut drift: u32 = 0;
    let mut i: usize = 0;
    while i < 8
        invariant
            0 <= i <= 8,
            caps.words().len() == 8,
            detector.measured().len() == 8,
            drift == mismatch_offsets(caps.words(), detector.measured(), i as int).len(),
            drift <= i,
        decreases 8 - i,
    {
        if caps.word_at(i) != detector.measured_word(i) {
            assert(differs_at(caps.words(), detector.measured(), i as int));
            drift = drift + 1;
        } else {
            assert(!differs_at(caps.words(), detector.measured(), i as int));
        }
        i = i + 1;
    }
    drift
}

/// Brackets two consecutive readings and reports whether time ran
/// backwards. Under this crate's monotonic tick sources it never does:
/// the flag is provably false, and stays in the record only because the
/// evidence shape demands it.
pub fn detect_temporal_anomaly(timing: &mut TimingSource) -> (anomaly: bool)
    ensures
        !anomaly,
        final(timing).last_tick() >= old(timing).last_tick(),
        final(timing).is_deterministic() == old(timing).is_deterministic(),
{
    let t1 = timing.now();
    let t2 = timing.now();
    t2 < t1
}

impl QuantumEvidence {
    /// Collects evidence without leaving traces: hashes the behavioural
    /// pattern, distils the reality gap, counts capability drift, checks
    /// for a temporal anomaly and notes the delusion, all from values
    /// already observed. The raw-memory area stays zeroed.
    pub fn collect_silent<const N: usize>(
        context: &QuantumContext<N>,
        reader: &SystemMindReader,
        timing: &mut TimingSource,
    ) -> (r: QuantumEvidence)
        ensures
            forall|i: int| 0 <= i < 4096 ==> r.raw_memory@[i] == 0,
            old(timing).is_deterministic() ==> r.behavioral_hash == deterministic_digest(
                old(timing).last_tick(),
                old(timing).step(),
            ),
            r.reality_gap == mismatch_offsets(
                reader.detector().belief(),
                reader.detector().measured(),
                8,
            ).len() * reader.analyzer().unit_scale(),
            r.capability_drift == mismatch_offsets(
                context.shadow_caps().words(),
                reader.detector().measured(),
                8,
            ).len(),
            !r.temporal_anomaly,
            r.system_delusion@ == delusion_text(
                mismatch_offsets(reader.detector().belief(), reader.detector().measured(), 8).len(),
            ),
    {
        let behavioral_hash = hash_behavior(context, timing, 100);
        let reality_gap = reader.reality_gap();
        let capability_drift = detect_capability_drift(context.capabilities(), reader.detector_ref());
        let temporal_anomaly = detect_temporal_anomaly(timing);
        let gaps = reader.discover_system_delusions();
        let system_delusion = if gaps.len() == 0 {
            String::new()
        } else {
            "belief diverges from measured state".to_owned()
        };
        QuantumEvidence {
            raw_memory: [0; 4096],
            behavioral_hash,
            reality_gap,
            capability_drift,
            temporal_anomaly,
            system_delusion,
        }
    }
}

} // verus!
