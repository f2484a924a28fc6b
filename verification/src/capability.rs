//! Capability observation and echoing.
//!
//! The echo reconstructs a target's capability words through timed reads,
//! copies them into an isolated shadow snapshot — never into the target —
//! and validates the copy against a Hamming-distance tolerance, retrying
//! observation up to a fixed bound. It cannot fail: a reading that stayed
//! slow only lowers the confidence annotation of the returned set.

use vstd::prelude::*;
use crossbeam::atomic::AtomicCell;
use crate::cells::{snapshot_cell_load, snapshot_cell_new, snapshot_cell_store, snapshot_words};
use crate::distance::{lemma_digest_distance_self, lemma_pop_bound, pop_below, popcount};
use crate::probe::{CacheProbe, ExecutionContext};

verus! {

/// The bit-level Hamming distance between the low `n` words of two
/// snapshots.
pub open spec fn words_distance(a: Seq<u64>, b: Seq<u64>, n: int) -> int
    decreases n,
{
    if n <= 0 {
        0
    } else {
        words_distance(a, b, n - 1) + pop_below(a[n - 1] ^ b[n - 1], 64)
    }
}

/// A snapshot is at distance zero from itself: the validation pass of an
/// exact echo always lands inside the tolerance, so the retry bound is a
/// safeguard for degraded platforms, never consumed in the portable model.
pub proof fn lemma_words_distance_self(a: Seq<u64>, n: int)
    ensures
        words_distance(a, a, n) == 0,
    decreases n,
{
    if n > 0 {
        lemma_words_distance_self(a, n - 1);
        lemma_digest_distance_self(a[n - 1]);
    }
}

/// The Hamming distance between two eight-word snapshots.
pub fn hamming_words(a: &[u64; 8], b: &[u64; 8]) -> (d: u32)
    ensures
        d == words_distance(a@, b@, 8),
{
    let mut d: u32 = 0;
    let mut i: usize = 0;
    while i < 8
        invariant
            0 <= i <= 8,
            d == words_distance(a@, b@, i as int),
            d <= i * 64,
        decreases 8 - i,
    {
        let w = popcount(a[i] ^ b[i]);
        proof {
            lemma_pop_bound(a@[i as int] ^ b@[i as int], 64);
        }
        d = d + w;
        i = i + 1;
    }
    d
}

/// An immutable snapshot of observed capability words with a confidence
/// annotation: how many of the words were reconstructed from a fast,
/// cache-resident read.
///
/// Snapshots are produced by [`CapabilityEcho::execute`] and never mutated
/// afterwards; a newer observation replaces the whole snapshot.
pub struct CapabilitySet {
    words: [u64; 8],
    confidence: u32,
}

impl CapabilitySet {
    /// The observed capability words.
    pub closed spec fn words(self) -> Seq<u64> {
        self.words@
    }

    /// How many words were classified as cache-resident when observed.
    pub closed spec fn confidence(self) -> u32 {
        self.confidence
    }

    /// A snapshot always holds exactly eight words.
    pub proof fn lemma_words_len(&self)
        ensures
            self.words().len() == 8,
    {
    }

    /// The snapshot a context starts from, before any observation: every
    /// capability absent, with no confidence.
    pub fn absent() -> (r: CapabilitySet)
        ensures
            r.words() =~= seq![0u64; 8],
            r.confidence() == 0,
    {
        CapabilitySet { words: [0; 8], confidence: 0 }
    }

    pub(crate) fn from_observation(words: [u64; 8], confidence: u32) -> (r: CapabilitySet)
        ensures
            r.words() == words@,
            r.confidence() == confidence,
    {
        CapabilitySet { words, confidence }
    }

    /// One observed word.
    pub fn word_at(&self, line: usize) -> (w: u64)
        requires
            line < 8,
        ensures
            w == self.words()[line as int],
    {
        self.words[line]
    }

    /// The confidence annotation.
    pub fn confidence_count(&self) -> (c: u32)
        ensures
            c == self.confidence(),
    {
        self.confidence
    }
}

/// Observes a target's capability words through the cache probe and echoes
/// them into an isolated shadow snapshot.
pub struct CapabilityEcho {
    shadow_capabilities: AtomicCell<[u64; 8]>,
    probe: CacheProbe,
    tolerance: u32,
    retry_bound: u32,
}

impl CapabilityEcho {
    /// The words currently installed in the shadow snapshot cell.
    pub closed spec fn shadow(self) -> Seq<u64> {
        snapshot_words(self.shadow_capabilities)
    }

    /// The Hamming tolerance validation accepts.
    pub closed spec fn tolerance(self) -> u32 {
        self.tolerance
    }

    pub fn new(probe: CacheProbe, tolerance: u32, retry_bound: u32) -> (r: CapabilityEcho)
        ensures
            r.shadow() =~= seq![0u64; 8],
            r.tolerance() == tolerance,
    {
        CapabilityEcho {
            shadow_capabilities: snapshot_cell_new([0; 8]),
            probe,
            tolerance,
            retry_bound,
        }
    }

    /// The words currently echoed into the shadow snapshot.
    pub fn shadow_snapshot(&self) -> (words: [u64; 8])
        ensures
            words@ == self.shadow(),
    {
        snapshot_cell_load(&self.shadow_capabilities)
    }

    /// Phase one: pure observation. Each word is evicted, then read once
    /// under a timing bracket; the word is reconstructed from that read and
    /// the access is classified fast or slow. Returns the reconstructed
    /// words and how many reads were fast. The target is never written.
    fn observe_capabilities(&mut self, target: &ExecutionContext) -> (r: ([u64; 8], u32))
        ensures
            r.0@ =~= target.words(),
            r.1 <= 8,
            final(self).shadow() == old(self).shadow(),
            final(self).tolerance() == old(self).tolerance(),
    {
        proof {
            target.lemma_words_len();
        }
        let ghost shadow0 = self.shadow();
        let ghost tol0 = self.tolerance();
        let mut words: [u64; 8] = [0; 8];
        let mut fast: u32 = 0;
        let mut line: usize = 0;
        while line < 8
            invariant
                0 <= line <= 8,
                fast <= line,
                target.words().len() == 8,
                forall|i: int| 0 <= i < line ==> words@[i] == target.words()[i],
                self.shadow() == shadow0,
                self.tolerance() == tol0,
            decreases 8 - line,
        {
            self.probe.evict(line);
            let (value, elapsed) = self.probe.measure_access(target, line);
            if self.probe.classify(elapsed) {
                fast = fast + 1;
            }
            words.set(line, value);
            line = line + 1;
        }
        (words, fast)
    }

    /// Observes the target, echoes the reconstruction into the shadow
    /// snapshot — the original is only ever read — and validates the echo
    /// by re-reading the shadow and requiring the Hamming distance to stay
    /// within tolerance, retrying the observation up to the fixed bound.
    ///
    /// Never fails: the returned set always holds the reconstructed words,
    /// and its confidence annotation says how many reads were fast.
    pub fn execute(&mut self, target: &ExecutionContext) -> (r: CapabilitySet)
        ensures
            r.words() == target.words(),
            r.confidence() <= 8,
            final(self).shadow() == target.words(),
            final(self).tolerance() == old(self).tolerance(),
    {
        let ghost tol0 = self.tolerance();
        let bound = self.retry_bound;
        let (mut words, mut fast) = self.observe_capabilities(target);
        snapshot_cell_store(&mut self.shadow_capabilities, words);
        let mut echoed = snapshot_cell_load(&self.shadow_capabilities);
        let mut dist = hamming_words(&words, &echoed);
        let mut attempt: u32 = 0;
        while dist > self.tolerance && attempt < bound
            invariant
                words@ == target.words(),
                fast <= 8,
                self.shadow() == words@,
                self.tolerance() == tol0,
                attempt <= bound,
            decreases bound - attempt,
        {
            let observed = self.observe_capabilities(target);
            words = observed.0;
            fast = observed.1;
            snapshot_cell_store(&mut self.shadow_capabilities, words);
            echoed = snapshot_cell_load(&self.shadow_capabilities);
            dist = hamming_words(&words, &echoed);
            attempt = attempt + 1;
        }
        CapabilitySet::from_observation(words, fast)
    }
}

} // verus!
