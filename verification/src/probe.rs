//! Cache-line eviction and timed access.
//!
//! The probe never asks the platform what a target holds: it evicts a
//! line, performs one read bracketed by timing fences, and lets the caller
//! classify the elapsed ticks against a cutoff. On a platform without an
//! eviction primitive the eviction degrades to bookkeeping alone, which is
//! the documented best-effort behaviour; the probe keeps its own model of
//! which lines it has warmed so that callers can still reason about the
//! classification. The probe never writes to the observed words.

use vstd::prelude::*;
use crate::timing::TimingSource;

verus! {

/// A target under observation: a stable block of eight capability words.
///
/// The engine only ever borrows a target immutably, so an observed
/// target is byte-identical before and after any probe.
pub struct ExecutionContext {
    words: [u64; 8],
}

impl ExecutionContext {
    /// The capability words of the target.
    pub closed spec fn words(self) -> Seq<u64> {
        self.words@
    }

    /// A target always exposes exactly eight words.
    pub proof fn lemma_words_len(&self)
        ensures
            self.words().len() == 8,
    {
    }

    pub fn new(words: [u64; 8]) -> (r: ExecutionContext)
        ensures
            r.words() == words@,
    {
        ExecutionContext { words }
    }

    /// One capability word, read without any platform call.
    pub fn word_at(&self, line: usize) -> (w: u64)
        requires
            line < 8,
        ensures
            w == self.words()[line as int],
    {
        self.words[line]
    }
}

/// A probe that infers state from access latency.
pub struct CacheProbe {
    timing: TimingSource,
    threshold: u64,
    warm: [bool; 8],
}

impl CacheProbe {
    /// The tick source the probe brackets its reads with.
    pub closed spec fn timing(self) -> TimingSource {
        self.timing
    }

    /// The latency cutoff: a read at most this many ticks counts as a hit.
    pub closed spec fn threshold(self) -> u64 {
        self.threshold
    }

    /// The probe's model of which lines it has warmed since eviction.
    pub closed spec fn warm_lines(self) -> Seq<bool> {
        self.warm@
    }

    /// A fresh probe; every line counts as cold until it is accessed.
    pub fn new(timing: TimingSource, threshold: u64) -> (r: CacheProbe)
        ensures
            r.timing() == timing,
            r.threshold() == threshold,
            r.warm_lines() =~= seq![false; 8],
    {
        CacheProbe { timing, threshold, warm: [false; 8] }
    }

    /// Evicts one line: best-effort on platforms without an eviction
    /// primitive, so only the probe's own model changes. Nothing of the
    /// target is touched.
    pub fn evict(&mut self, line: usize)
        requires
            line < 8,
        ensures
            final(self).warm_lines() == old(self).warm_lines().update(line as int, false),
            final(self).timing() == old(self).timing(),
            final(self).threshold() == old(self).threshold(),
    {
        self.warm.set(line, false);
    }

    /// One aligned read of a capability word, bracketed by fenced timing
    /// readings. Returns the word and the elapsed ticks; the word is never
    /// written. The line counts as warm afterwards.
    pub fn measure_access(&mut self, target: &ExecutionContext, line: usize) -> (r: (u64, u64))
        requires
            line < 8,
        ensures
            r.0 == target.words()[line as int],
            final(self).warm_lines() == old(self).warm_lines().update(line as int, true),
            final(self).threshold() == old(self).threshold(),
            final(self).timing().last_tick() >= old(self).timing().last_tick(),
            final(self).timing().is_deterministic() == old(self).timing().is_deterministic(),
            final(self).timing().is_deterministic() ==> final(self).timing().step() == old(
                self,
            ).timing().step(),
            old(self).timing().is_deterministic() && old(self).timing().last_tick() + 2 * old(
                self,
            ).timing().step() <= u64::MAX ==> r.1 == old(self).timing().step(),
    {
        let start = self.timing.now();
        let value = target.word_at(line);
        let end = self.timing.now();
        self.warm.set(line, true);
        (value, end - start)
    }

    /// Classifies an elapsed reading: fast means the line was resident.
    pub fn classify(&self, elapsed: u64) -> (fast: bool)
        ensures
            fast == (elapsed <= self.threshold()),
    {
        elapsed <= self.threshold
    }
}

} // verus!
