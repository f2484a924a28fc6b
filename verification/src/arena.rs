//! Versioned snapshot arena: deferred reclamation without a collector.
//!
//! A shared snapshot is never edited in place: a newer generation is
//! installed and becomes current, while readers that pinned an older
//! generation keep reading it. A generation is retired only once no
//! reader holds it, so no reader can ever observe a retired snapshot —
//! the arena equivalent of epoch-based reclamation, with the guarantee
//! carried by the well-formedness invariant instead of a runtime
//! collector. Readers never block writers: installing never waits.

use vstd::prelude::*;
use crate::capability::CapabilitySet;

verus! {

/// Generations of capability snapshots, with per-generation reader pins.
pub struct SnapshotArena {
    snapshots: Vec<CapabilitySet>,
    readers: Vec<u32>,
    retired: Vec<bool>,
    current: usize,
}

impl SnapshotArena {
    /// All generations ever installed.
    pub closed spec fn snapshots(self) -> Seq<CapabilitySet> {
        self.snapshots@
    }

    /// How many readers hold each generation pinned.
    pub closed spec fn readers(self) -> Seq<u32> {
        self.readers@
    }

    /// Which generations have been retired.
    pub closed spec fn retired(self) -> Seq<bool> {
        self.retired@
    }

    /// The generation new readers pin.
    pub closed spec fn current(self) -> int {
        self.current as int
    }

    /// Well-formed: one reader count and one retirement flag per
    /// generation, a current generation that exists and is live, and —
    /// the reclamation guarantee — no pinned generation is ever retired.
    pub open spec fn wf(self) -> bool {
        &&& self.readers().len() == self.snapshots().len()
        &&& self.retired().len() == self.snapshots().len()
        &&& 0 <= self.current() < self.snapshots().len()
        &&& !self.retired()[self.current()]
        &&& forall|g: int|
            0 <= g < self.snapshots().len() && #[trigger] self.retired()[g]
                ==> self.readers()[g] == 0
    }

    /// How many generations have been installed.
    pub fn generation_count(&self) -> (n: usize)
        ensures
            n == self.snapshots().len(),
    {
        self.snapshots.len()
    }

    /// The index of the current generation.
    pub fn current_generation(&self) -> (g: usize)
        ensures
            g == self.current(),
    {
        self.current
    }

    /// How many readers hold one generation pinned.
    pub fn reader_count(&self, gen: usize) -> (n: u32)
        requires
            gen < self.readers().len(),
        ensures
            n == self.readers()[gen as int],
    {
        self.readers[gen]
    }

    /// Whether one generation has been retired.
    pub fn is_retired(&self, gen: usize) -> (r: bool)
        requires
            gen < self.retired().len(),
        ensures
            r == self.retired()[gen as int],
    {
        self.retired[gen]
    }

    /// An arena holding one live generation.
    pub fn new(initial: CapabilitySet) -> (r: SnapshotArena)
        ensures
            r.wf(),
            r.snapshots().len() == 1,
            r.snapshots()[0] == initial,
            r.current() == 0,
            r.readers() =~= seq![0u32],
            r.retired() =~= seq![false],
    {
        SnapshotArena {
            snapshots: vec![initial],
            readers: vec![0],
            retired: vec![false],
            current: 0,
        }
    }

    /// Installs a newer snapshot as the current generation. Never waits
    /// on readers: older generations stay until retired.
    pub fn install(&mut self, snapshot: CapabilitySet)
        requires
            old(self).wf(),
            old(self).snapshots().len() < usize::MAX,
        ensures
            final(self).wf(),
            final(self).snapshots() == old(self).snapshots().push(snapshot),
            final(self).current() == old(self).snapshots().len(),
            final(self).readers() == old(self).readers().push(0u32),
            final(self).retired() == old(self).retired().push(false),
    {
        self.snapshots.push(snapshot);
        self.readers.push(0);
        self.retired.push(false);
        self.current = self.snapshots.len() - 1;
    }

    /// A reader enters: pins the current generation and learns its index.
    pub fn pin(&mut self) -> (gen: usize)
        requires
            old(self).wf(),
            old(self).readers()[old(self).current()] < u32::MAX,
        ensures
            final(self).wf(),
            gen == old(self).current(),
            final(self).readers() == old(self).readers().update(
                gen as int,
                (old(self).readers()[gen as int] + 1) as u32,
            ),
            final(self).snapshots() == old(self).snapshots(),
            final(self).retired() == old(self).retired(),
            final(self).current() == old(self).current(),
            final(self).readers()[gen as int] > 0,
    {
        let gen = self.current;
        let count = self.readers[gen];
        self.readers[gen] = count + 1;
        gen
    }

    /// Reads a pinned generation. A pinned generation is provably live:
    /// the invariant rules out reading anything retired.
    pub fn read(&self, gen: usize) -> (snapshot: &CapabilitySet)
        requires
            self.wf(),
            gen < self.snapshots().len(),
            self.readers()[gen as int] > 0,
        ensures
            *snapshot == self.snapshots()[gen as int],
            !self.retired()[gen as int],
    {
        &self.snapshots[gen]
    }

    /// A reader leaves its pinned generation.
    pub fn unpin(&mut self, gen: usize)
        requires
            old(self).wf(),
            gen < old(self).snapshots().len(),
            old(self).readers()[gen as int] > 0,
        ensures
            final(self).wf(),
            final(self).readers() == old(self).readers().update(
                gen as int,
                (old(self).readers()[gen as int] - 1) as u32,
            ),
            final(self).snapshots() == old(self).snapshots(),
            final(self).retired() == old(self).retired(),
            final(self).current() == old(self).current(),
    {
        let count = self.readers[gen];
        self.readers[gen] = count - 1;
    }

    /// Retires every generation no reader holds, except the current one.
    /// Pinned generations are left exactly as they were: deferred, safe
    /// reclamation.
    pub fn retire_stale(&mut self)
        requires
            old(self).wf(),
        ensures
            final(self).wf(),
            final(self).snapshots() == old(self).snapshots(),
            final(self).readers() == old(self).readers(),
            final(self).current() == old(self).current(),
            final(self).retired().len() == old(self).retired().len(),
            forall|g: int|
                0 <= g < old(self).retired().len() ==> #[trigger] final(self).retired()[g] == (old(
                    self,
                ).retired()[g] || (old(self).readers()[g] == 0 && g != old(self).current())),
    {
        let ghost entry = *self;
        let total = self.snapshots.len();
        let mut g: usize = 0;
        while g < total
            invariant
                0 <= g <= total,
                self.snapshots() == entry.snapshots(),
                self.readers() == entry.readers(),
                self.current() == entry.current(),
                self.retired@.len() == entry.retired().len(),
                total == entry.snapshots().len(),
                entry.wf(),
                forall|j: int|
                    0 <= j < g ==> #[trigger] self.retired@[j] == (entry.retired()[j] || (
                    entry.readers()[j] == 0 && j != entry.current())),
                forall|j: int| g <= j < total ==> self.retired@[j] == entry.retired()[j],
            decreases total - g,
        {
            if g != self.current && self.readers[g] == 0 && !self.retired[g] {
                self.retired[g] = true;
            }
            g = g + 1;
        }
    }
}

} // verus!
