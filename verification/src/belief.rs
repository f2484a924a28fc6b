//! Belief-gap detection.
//!
//! The detector compares what a system declares about itself — the belief
//! state an out-of-band provider wrote into the probe context — against
//! the state that was directly measured through the cache probe. Every
//! mismatching word becomes one inconsistency, carrying a confidence score
//! derived from how many repeated measurements agreed. A system whose
//! beliefs match its measured state yields an empty report, never an
//! error.

use vstd::prelude::*;
use crate::context::QuantumContext;
use crate::distance::{differs_at, lemma_mismatch_of_equal, mismatch_offsets};
use crate::probe::{CacheProbe, ExecutionContext};

verus! {

/// One believed-state word, as the system declares it.
#[derive(Clone, Copy)]
pub struct SystemBelief {
    pub word: u64,
}

/// One directly measured state word.
#[derive(Clone, Copy)]
pub struct SystemState {
    pub word: u64,
}

/// One identity a context can present.
#[derive(Clone, Copy)]
pub struct Identity {
    pub marker: u64,
}

/// A behavioral primitive: the vocabulary of anomalies the engine can
/// report without carrying any payload of the observed system.
pub enum Primitive {
    /// The system believes one thing, measurement shows another.
    BeliefInconsistency { expected: SystemBelief, actual: SystemState },
    /// A capability observed outside the context it was granted to.
    AuthorityDrift { source_context: u64, target_capability: u32 },
    /// The same operation left two different state digests behind.
    TemporalShadow { before_state_hash: [u8; 32], after_state_hash: [u8; 32] },
    /// A context presenting several identities at once.
    IdentitySuperposition { simultaneous_identities: [Identity; 3] },
}

/// One gap between belief and measurement: which word, what the system
/// believes, what was measured, and how many repeated measurements agreed
/// on the measured value.
pub struct BeliefInconsistency {
    pub index: usize,
    pub expected: u64,
    pub actual: u64,
    pub confidence: u32,
}

/// Compares a believed state against a directly measured one.
pub struct BeliefDetector {
    belief_state: [u64; 8],
    measured_state: [u64; 8],
    agreement: [u32; 8],
}

impl BeliefDetector {
    /// The believed-state words under comparison.
    pub closed spec fn belief(self) -> Seq<u64> {
        self.belief_state@
    }

    /// The directly measured words.
    pub closed spec fn measured(self) -> Seq<u64> {
        self.measured_state@
    }

    /// Per-word agreement counts: how many measurement rounds returned
    /// the recorded value.
    pub closed spec fn agreement(self) -> Seq<u32> {
        self.agreement@
    }

    /// A detector always compares exactly eight words.
    pub proof fn lemma_shape(&self)
        ensures
            self.belief().len() == 8,
            self.measured().len() == 8,
            self.agreement().len() == 8,
    {
    }

    /// A synthetic fixture: belief, measurement and a uniform agreement
    /// count supplied directly.
    pub fn from_states(belief: [u64; 8], measured: [u64; 8], agreement: u32) -> (r: BeliefDetector)
        ensures
            r.belief() == belief@,
            r.measured() == measured@,
            r.agreement() =~= seq![agreement; 8],
    {
        BeliefDetector {
            belief_state: belief,
            measured_state: measured,
            agreement: [agreement; 8],
        }
    }

    /// Measures the target through the cache probe, `rounds` times per
    /// word, taking the believed state from the probe context. Every
    /// round reads the same stable words, so each agreement count equals
    /// the number of rounds.
    pub fn observe<const N: usize>(
        context: &QuantumContext<N>,
        probe: &mut CacheProbe,
        target: &ExecutionContext,
        rounds: u32,
    ) -> (r: BeliefDetector)
        requires
            rounds >= 1,
        ensures
            r.belief() == context.belief(),
            r.measured() == target.words(),
            r.agreement() =~= seq![rounds; 8],
    {
        proof {
            target.lemma_words_len();
            context.lemma_shape();
        }
        let mut belief: [u64; 8] = [0; 8];
        let mut measured: [u64; 8] = [0; 8];
        let mut line: usize = 0;
        while line < 8
            invariant
                0 <= line <= 8,
                rounds >= 1,
                target.words().len() == 8,
                context.belief().len() == 8,
                forall|i: int| 0 <= i < line ==> belief@[i] == context.belief()[i],
                forall|i: int| 0 <= i < line ==> measured@[i] == target.words()[i],
            decreases 8 - line,
        {
            belief.set(line, context.belief_word(line));
            probe.evict(line);
            let mut round: u32 = 0;
            let mut value: u64 = 0;
            while round < rounds
                invariant
                    0 <= round <= rounds,
                    rounds >= 1,
                    line < 8,
                    target.words().len() == 8,
                    round > 0 ==> value == target.words()[line as int],
                decreases rounds - round,
            {
                let (v, _elapsed) = probe.measure_access(target, line);
                value = v;
                round = round + 1;
            }
            measured.set(line, value);
            line = line + 1;
        }
        proof {
            assert(belief@ =~= context.belief());
            assert(measured@ =~= target.words());
        }
        BeliefDetector { belief_state: belief, measured_state: measured, agreement: [rounds; 8] }
    }

    /// One measured word.
    pub fn measured_word(&self, i: usize) -> (w: u64)
        requires
            i < 8,
        ensures
            w == self.measured()[i as int],
    {
        self.measured_state[i]
    }

    /// True when one reported entry faithfully describes the gap at `off`.
    pub open spec fn gap_entry_matches(self, e: BeliefInconsistency, off: int) -> bool {
        &&& e.index == off
        &&& e.expected == self.belief()[off]
        &&& e.actual == self.measured()[off]
        &&& e.confidence == self.agreement()[off]
    }

    /// The finite report of belief gaps: exactly one entry per word where
    /// belief and measurement disagree, in word order, each carrying the
    /// believed value, the measured value and the agreement count. An
    /// exact match produces an empty report.
    pub fn find_gaps(&self) -> (r: Vec<BeliefInconsistency>)
        ensures
            r@.len() == mismatch_offsets(self.belief(), self.measured(), 8).len(),
            forall|k: int|
                0 <= k < r@.len() ==> self.gap_entry_matches(
                    #[trigger] r@[k],
                    mismatch_offsets(self.belief(), self.measured(), 8)[k],
                ),
    {
        let mut gaps: Vec<BeliefInconsistency> = Vec::new();
        let mut i: usize = 0;
        while i < 8
            invariant
                0 <= i <= 8,
                gaps@.len() == mismatch_offsets(self.belief(), self.measured(), i as int).len(),
                forall|k: int|
                    0 <= k < gaps@.len() ==> self.gap_entry_matches(
                        #[trigger] gaps@[k],
                        mismatch_offsets(self.belief(), self.measured(), i as int)[k],
                    ),
            decreases 8 - i,
        {
            let ghost prev_gaps = gaps@;
            let ghost prev_offs = mismatch_offsets(self.belief(), self.measured(), i as int);
            let expected = self.belief_state[i];
            let actual = self.measured_state[i];
            if expected != actual {
                assert(differs_at(self.belief(), self.measured(), i as int));
                gaps.push(
                    BeliefInconsistency {
                        index: i,
                        expected,
                        actual,
                        confidence: self.agreement[i],
                    },
                );
                proof {
                    let cur_offs = mismatch_offsets(self.belief(), self.measured(), i as int + 1);
                    assert(cur_offs == prev_offs.push(i as int));
                    assert forall|k: int| 0 <= k < gaps@.len() implies self.gap_entry_matches(
                        #[trigger] gaps@[k],
                        cur_offs[k],
                    ) by {
                        if k < prev_gaps.len() {
                            assert(gaps@[k] == prev_gaps[k]);
                            assert(cur_offs[k] == prev_offs[k]);
                        } else {
                            assert(cur_offs[k] == i as int);
                        }
                    }
                }
            } else {
                assert(!differs_at(self.belief(), self.measured(), i as int));
            }
            i = i + 1;
        }
        gaps
    }
}

/// Empty gap on consistency: a detector whose believed state exactly
/// matches its measured state reports no inconsistency at all.
pub proof fn lemma_consistent_belief_has_no_gaps(d: BeliefDetector)
    requires
        d.belief() == d.measured(),
    ensures
        mismatch_offsets(d.belief(), d.measured(), 8).len() == 0,
{
    d.lemma_shape();
    lemma_mismatch_of_equal(d.belief(), 8);
}

/// Distils the belief/measurement comparison into one distance figure.
pub struct RealityGapAnalyzer {
    unit_scale: u32,
}

impl RealityGapAnalyzer {
    /// How many gap units one mismatching word counts for.
    pub closed spec fn unit_scale(self) -> u32 {
        self.unit_scale
    }

    pub fn new(unit_scale: u32) -> (r: RealityGapAnalyzer)
        requires
            unit_scale >= 1,
        ensures
            r.unit_scale() == unit_scale,
    {
        RealityGapAnalyzer { unit_scale }
    }

    /// The reality gap: the number of words where belief and measurement
    /// disagree, scaled by the unit. At most eight words can disagree, so
    /// the product stays in range whenever the scale does.
    pub fn measure_reality_gap(&self, d: &BeliefDetector) -> (gap: u64)
        ensures
            gap == mismatch_offsets(d.belief(), d.measured(), 8).len() * self.unit_scale(),
    {
        let gaps = d.find_gaps();
        proof {
            d.lemma_shape();
        }
        assert(gaps@.len() <= 8) by {
            lemma_mismatch_len_bound(d.belief(), d.measured(), 8);
        }
        let g: u64 = gaps.len() as u64;
        let s: u64 = self.unit_scale as u64;
        assert(g * s <= 8 * (u32::MAX as u64)) by (nonlinear_arith)
            requires
                g <= 8,
                s <= u32::MAX as u64,
        ;
        g * s
    }
}

/// No more than `n` positions below `n` can mismatch.
pub proof fn lemma_mismatch_len_bound<T>(x: Seq<T>, y: Seq<T>, n: int)
    requires
        n >= 0,
    ensures
        mismatch_offsets(x, y, n).len() <= n,
    decreases n,
{
    if n > 0 {
        lemma_mismatch_len_bound(x, y, n - 1);
    }
}

/// Reads what the system believes against what is directly observed.
pub struct SystemMindReader {
    belief_detector: BeliefDetector,
    reality_gap_analyzer: RealityGapAnalyzer,
}

impl SystemMindReader {
    /// The detector this reader consults.
    pub closed spec fn detector(self) -> BeliefDetector {
        self.belief_detector
    }

    /// The analyzer this reader distils gaps with.
    pub closed spec fn analyzer(self) -> RealityGapAnalyzer {
        self.reality_gap_analyzer
    }

    pub fn new(belief_detector: BeliefDetector, reality_gap_analyzer: RealityGapAnalyzer) -> (r:
        SystemMindReader)
        ensures
            r.detector() == belief_detector,
            r.analyzer() == reality_gap_analyzer,
    {
        SystemMindReader { belief_detector, reality_gap_analyzer }
    }

    /// The detector, borrowed for inspection.
    pub fn detector_ref(&self) -> (d: &BeliefDetector)
        ensures
            *d == self.detector(),
    {
        &self.belief_detector
    }

    /// Finds what the system believes that measurement contradicts: the
    /// full, finite gap report, by observation alone.
    pub fn discover_system_delusions(&self) -> (r: Vec<BeliefInconsistency>)
        ensures
            r@.len() == mismatch_offsets(self.detector().belief(), self.detector().measured(), 8).len(),
            forall|k: int|
                0 <= k < r@.len() ==> self.detector().gap_entry_matches(
                    #[trigger] r@[k],
                    mismatch_offsets(self.detector().belief(), self.detector().measured(), 8)[k],
                ),
    {
        self.belief_detector.find_gaps()
    }

    /// The distilled reality gap of the current comparison.
    pub fn reality_gap(&self) -> (gap: u64)
        ensures
            gap == mismatch_offsets(self.detector().belief(), self.detector().measured(), 8).len()
                * self.analyzer().unit_scale(),
    {
        self.reality_gap_analyzer.measure_reality_gap(&self.belief_detector)
    }
}

} // verus!
