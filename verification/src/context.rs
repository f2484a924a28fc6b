//! The probe context: the unit of observation.
//!
//! A context is owned exclusively by its caller; the engine borrows it for
//! one probe and retains nothing. Its phase counter advances lock-free
//! through an atomic cell, its scratch trail is write-only — nothing in
//! this crate reads a trail byte back — and its capability snapshot is
//! only ever replaced whole, never edited in place.

use vstd::prelude::*;
use crossbeam::atomic::AtomicCell;
use crate::capability::CapabilitySet;
use crate::cells::{phase_cell_bump, phase_cell_load, phase_cell_new, phase_value};
use crate::operation::Operation;

verus! {

/// The fault type of silent execution. No function of this crate ever
/// constructs one: silent operations cannot fail, because a
/// distinguishable error path would itself be an observable signal. The
/// `Result` shape is kept for composability alone, and every contract
/// promises the `Ok` variant.
pub struct ProbeFault;

/// The phase counter after one lock-free increment: one more, wrapping at
/// the top of the range.
pub open spec fn wrapped_successor(p: u64) -> u64 {
    if p == u64::MAX {
        0
    } else {
        (p + 1) as u64
    }
}

/// The exclusive-or fold of the low `n` words of `s`.
pub open spec fn xor_fold(s: Seq<u64>, n: int) -> u64
    decreases n,
{
    if n <= 0 {
        0
    } else {
        xor_fold(s, n - 1) ^ s[n - 1]
    }
}

/// The byte of `x` at position `i`, little-endian.
pub open spec fn byte_of(x: u64, i: int) -> u8 {
    ((x >> ((8 * i) as u64)) & 0xff) as u8
}

/// One unit of observation, with a scratch trail of `N` bytes.
pub struct QuantumContext<const N: usize> {
    phase: AtomicCell<u64>,
    behavioral_hash: [u8; 32],
    system_belief_state: [u64; 8],
    shadow_capabilities: CapabilitySet,
    execution_trail: [u8; N],
    trail_cursor: usize,
}

impl<const N: usize> QuantumContext<N> {
    /// The trail cursor stays inside the trail whenever there is one.
    pub closed spec fn wf(self) -> bool {
        N == 0 || self.trail_cursor < N
    }

    /// The lock-free phase counter's value.
    pub closed spec fn phase(self) -> u64 {
        phase_value(self.phase)
    }

    /// The 32-byte behavioral digest area.
    pub closed spec fn hash_bytes(self) -> Seq<u8> {
        self.behavioral_hash@
    }

    /// What the system claims to be true, one word per believed field.
    pub closed spec fn belief(self) -> Seq<u64> {
        self.system_belief_state@
    }

    /// The capability snapshot last installed.
    pub closed spec fn shadow_caps(self) -> CapabilitySet {
        self.shadow_capabilities
    }

    /// The write-only scratch trail.
    pub closed spec fn trail(self) -> Seq<u8> {
        self.execution_trail@
    }

    /// Where the next trail byte lands.
    pub closed spec fn cursor(self) -> int {
        self.trail_cursor as int
    }

    /// The belief state always holds exactly eight words, and the trail
    /// exactly `N` bytes.
    pub proof fn lemma_shape(&self)
        ensures
            self.belief().len() == 8,
            self.hash_bytes().len() == 32,
            self.trail().len() == N,
    {
    }

    /// A fresh context: phase zero, digest area zeroed, no capability
    /// observed yet, an all-zero trail.
    pub fn new(belief: [u64; 8]) -> (r: QuantumContext<N>)
        ensures
            r.wf(),
            r.phase() == 0,
            r.belief() == belief@,
            r.hash_bytes() =~= seq![0u8; 32],
            r.shadow_caps().words() =~= seq![0u64; 8],
            r.shadow_caps().confidence() == 0,
            r.trail().len() == N as int,
            forall|i: int| 0 <= i < N ==> r.trail()[i] == 0,
            r.cursor() == 0,
    {
        QuantumContext {
            phase: phase_cell_new(0),
            behavioral_hash: [0; 32],
            system_belief_state: belief,
            shadow_capabilities: CapabilitySet::absent(),
            execution_trail: [0; N],
            trail_cursor: 0,
        }
    }

    /// The current phase, read from the lock-free cell.
    pub fn phase_count(&self) -> (p: u64)
        ensures
            p == self.phase(),
    {
        phase_cell_load(&self.phase)
    }

    /// One byte of the digest area.
    pub fn hash_byte(&self, i: usize) -> (b: u8)
        requires
            i < 32,
        ensures
            b == self.hash_bytes()[i as int],
    {
        self.behavioral_hash[i]
    }

    /// The capability snapshot last installed, borrowed for inspection.
    pub fn capabilities(&self) -> (c: &CapabilitySet)
        ensures
            *c == self.shadow_caps(),
    {
        &self.shadow_capabilities
    }

    /// One believed-state word.
    pub fn belief_word(&self, i: usize) -> (w: u64)
        requires
            i < 8,
        ensures
            w == self.belief()[i as int],
    {
        self.system_belief_state[i]
    }

    /// Replaces the believed state, as populated by an out-of-band,
    /// non-intrusive provider.
    pub fn set_belief_state(&mut self, belief: [u64; 8])
        requires
            old(self).wf(),
        ensures
            final(self).wf(),
            final(self).belief() == belief@,
            final(self).phase() == old(self).phase(),
            final(self).hash_bytes() == old(self).hash_bytes(),
            final(self).shadow_caps() == old(self).shadow_caps(),
            final(self).trail() == old(self).trail(),
            final(self).cursor() == old(self).cursor(),
    {
        self.system_belief_state = belief;
    }

    /// Installs a newer capability snapshot whole: copy-on-observe, the
    /// previous snapshot is simply replaced.
    pub fn install_capabilities(&mut self, snapshot: CapabilitySet)
        requires
            old(self).wf(),
        ensures
            final(self).wf(),
            final(self).shadow_caps() == snapshot,
            final(self).phase() == old(self).phase(),
            final(self).belief() == old(self).belief(),
            final(self).hash_bytes() == old(self).hash_bytes(),
            final(self).trail() == old(self).trail(),
            final(self).cursor() == old(self).cursor(),
    {
        self.shadow_capabilities = snapshot;
    }

    /// Writes the 64-bit digest into the first eight bytes of the digest
    /// area, little-endian; the remaining bytes keep their value.
    pub fn record_behavioral_hash(&mut self, digest: u64)
        requires
            old(self).wf(),
        ensures
            final(self).wf(),
            forall|i: int| 0 <= i < 8 ==> final(self).hash_bytes()[i] == byte_of(digest, i),
            forall|i: int| 8 <= i < 32 ==> final(self).hash_bytes()[i] == old(self).hash_bytes()[i],
            final(self).phase() == old(self).phase(),
            final(self).belief() == old(self).belief(),
            final(self).shadow_caps() == old(self).shadow_caps(),
            final(self).trail() == old(self).trail(),
            final(self).cursor() == old(self).cursor(),
    {
        let ghost entry = *self;
        let mut i: usize = 0;
        while i < 8
            invariant
                0 <= i <= 8,
                self.wf(),
                self.phase() == entry.phase(),
                self.belief() == entry.belief(),
                self.shadow_caps() == entry.shadow_caps(),
                self.trail() == entry.trail(),
                self.cursor() == entry.cursor(),
                self.hash_bytes().len() == 32,
                forall|j: int| 0 <= j < i ==> self.hash_bytes()[j] == byte_of(digest, j),
                forall|j: int| i <= j < 32 ==> self.hash_bytes()[j] == entry.hash_bytes()[j],
            decreases 8 - i,
        {
            let sh: u64 = 8 * (i as u64);
            let word: u64 = (digest >> sh) & 0xff;
            assert((digest >> sh) & 0xff <= 0xff) by (bit_vector);
            self.behavioral_hash.set(i, word as u8);
            i = i + 1;
        }
    }

    /// The no-op-safe probe call: folds the believed state into one word
    /// without mutating anything and without any platform call.
    pub fn observe_silent(&self) -> (r: u64)
        ensures
            r == xor_fold(self.belief(), 8),
    {
        let mut acc: u64 = 0;
        let mut i: usize = 0;
        while i < 8
            invariant
                0 <= i <= 8,
                acc == xor_fold(self.belief(), i as int),
            decreases 8 - i,
        {
            acc = acc ^ self.system_belief_state[i];
            i = i + 1;
        }
        acc
    }

    /// Executes an operation silently: the only visible effects are one
    /// write-only trail byte and one lock-free phase bump. Cannot fail —
    /// the error variant of the result has no values.
    pub fn execute_silent(&mut self, operation: &Operation) -> (r: Result<(), ProbeFault>)
        requires
            old(self).wf(),
        ensures
            r is Ok,
            final(self).wf(),
            final(self).phase() == wrapped_successor(old(self).phase()),
            final(self).belief() == old(self).belief(),
            final(self).hash_bytes() == old(self).hash_bytes(),
            final(self).shadow_caps() == old(self).shadow_caps(),
            N == 0 ==> final(self).trail() == old(self).trail(),
            N > 0 ==> final(self).trail() == old(self).trail().update(
                old(self).cursor(),
                operation.tag(),
            ),
    {
        if N > 0 {
            let tag = operation.id();
            self.execution_trail.set(self.trail_cursor, tag);
            self.trail_cursor = if self.trail_cursor + 1 == N {
                0
            } else {
                self.trail_cursor + 1
            };
        }
        phase_cell_bump(&mut self.phase);
        Ok(())
    }
}

} // verus!
