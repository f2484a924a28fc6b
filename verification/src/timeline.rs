//! Differential dual-timeline execution.
//!
//! The executor replays one logical operation on two isolated timelines —
//! separate threads sharing nothing mutable, only the immutable inputs —
//! waits until both report completion, and extracts the structural diff of
//! the two results. Identical results yield a zero-severity record, a hard
//! invariant for deterministic operations; a divergence names the byte
//! offsets where the timelines disagree. A timeout of zero polls yields a
//! record marked incomplete instead of blocking.

use vstd::prelude::*;
use crossbeam::atomic::AtomicCell;
use crate::cells::{phase_cell_bump, phase_cell_load, phase_cell_new, phase_value};
use crate::context::wrapped_successor;
use crate::distance::{differs_at, lemma_mismatch_of_equal, mismatch_offsets};
use crate::operation::Operation;

verus! {

/// The positions of `s`, widened for comparison against mismatch offsets.
pub open spec fn offsets_as_ints(s: Seq<usize>) -> Seq<int> {
    s.map_values(|v: usize| v as int)
}

/// The structural diff of two byte buffers: every offset, up to the longer
/// length, where they disagree.
pub open spec fn paradox_between(x: Seq<u8>, y: Seq<u8>) -> Seq<int> {
    mismatch_offsets(x, y, if x.len() >= y.len() { x.len() as int } else { y.len() as int })
}

/// Identical timeline results carry an empty paradox: determinism under
/// duplication. Whatever bytes both timelines produced, if they are equal
/// the diff has no offsets and hence severity zero.
pub proof fn lemma_identical_results_zero_paradox(out: Seq<u8>)
    ensures
        paradox_between(out, out).len() == 0,
{
    lemma_mismatch_of_equal(out, out.len() as int);
}

/// One of exactly two parallel execution paths: an operation together with
/// its own immutable input snapshot. Siblings share no mutable state.
pub struct Timeline {
    op: Operation,
    input: Vec<u8>,
}

impl Timeline {
    /// The operation this timeline replays.
    pub closed spec fn op(self) -> Operation {
        self.op
    }

    /// The immutable input snapshot.
    pub closed spec fn input(self) -> Seq<u8> {
        self.input@
    }

    /// The bytes this timeline is bound to produce.
    pub open spec fn expected_output(self) -> Seq<u8> {
        self.op().output_of(self.input())
    }

    pub fn new(op: Operation, input: Vec<u8>) -> (r: Timeline)
        ensures
            r.op() == op,
            r.input() == input@,
    {
        Timeline { op, input }
    }
}

/// What one timeline hands back: an opaque byte buffer and a completion
/// flag.
pub struct TimelineResult {
    pub data: Vec<u8>,
    pub complete: bool,
}

/// Runs one timeline to completion in the current thread.
pub fn execute_timeline(t: &Timeline) -> (r: TimelineResult)
    ensures
        r.data@ == t.expected_output(),
        r.complete,
{
    let data = t.op.run(&t.input);
    TimelineResult { data, complete: true }
}

/// Relies on crossbeam's `thread::scope` and scoped `spawn`/`join`: the
/// scope runs both closures, each on its own thread, to completion, and
/// `join` hands back exactly what the closure returned. Each closure only
/// calls the verified [`execute_timeline`]; since that function cannot
/// panic, the joins cannot observe a child panic. The two timelines are
/// borrowed immutably, so the threads share no mutable state.
#[verifier::external_body]
fn run_pair(a: &Timeline, b: &Timeline) -> (r: (TimelineResult, TimelineResult))
    ensures
        r.0.data@ == a.expected_output(),
        r.0.complete,
        r.1.data@ == b.expected_output(),
        r.1.complete,
{
    crossbeam::thread::scope(|s| {
        let ha = s.spawn(|_| execute_timeline(a));
        let hb = s.spawn(|_| execute_timeline(b));
        (ha.join().unwrap(), hb.join().unwrap())
    }).unwrap()
}

/// The structural diff between two timeline results: the byte offsets
/// where they disagree, with a severity proportional to the differing
/// span. Immutable once created, and only created from two completed
/// results.
pub struct ParadoxRecord {
    offsets: Vec<usize>,
    severity: u64,
    complete: bool,
}

impl ParadoxRecord {
    /// The recorded byte offsets of disagreement.
    pub closed spec fn offsets(self) -> Seq<int> {
        offsets_as_ints(self.offsets@)
    }

    /// The severity score.
    pub closed spec fn severity(self) -> u64 {
        self.severity
    }

    /// Whether both timelines had completed when the record was made.
    pub closed spec fn complete(self) -> bool {
        self.complete
    }

    /// How many offsets disagree.
    pub fn offset_count(&self) -> (n: usize)
        ensures
            n == self.offsets().len(),
    {
        self.offsets.len()
    }

    /// One disagreeing offset.
    pub fn offset_at(&self, k: usize) -> (off: usize)
        requires
            k < self.offsets().len(),
        ensures
            off == self.offsets()[k as int],
    {
        self.offsets[k]
    }

    /// The severity score: the number of disagreeing offsets, zero for
    /// identical results. Undefined in an incomplete record, which always
    /// carries zero.
    pub fn severity_score(&self) -> (s: u64)
        ensures
            s == self.severity(),
    {
        self.severity
    }

    /// Whether the record covers two completed results.
    pub fn is_complete(&self) -> (c: bool)
        ensures
            c == self.complete(),
    {
        self.complete
    }
}

/// Extracts the paradox between two completed timeline results: exactly
/// the offsets where the buffers disagree, in increasing order, and a
/// severity equal to their number.
pub fn extract_paradox(a: &TimelineResult, b: &TimelineResult) -> (r: ParadoxRecord)
    requires
        a.complete,
        b.complete,
    ensures
        r.complete(),
        r.offsets() == paradox_between(a.data@, b.data@),
        r.severity() == paradox_between(a.data@, b.data@).len(),
{
    let la = a.data.len();
    let lb = b.data.len();
    let longer: usize = if la >= lb {
        la
    } else {
        lb
    };
    let mut offsets: Vec<usize> = Vec::new();
    let mut i: usize = 0;
    while i < longer
        invariant
            0 <= i <= longer,
            la == a.data@.len(),
            lb == b.data@.len(),
            longer == (if la >= lb { la } else { lb }),
            offsets@.len() <= i,
            offsets_as_ints(offsets@) == mismatch_offsets(a.data@, b.data@, i as int),
        decreases longer - i,
    {
        let differs: bool = if i < la && i < lb {
            a.data[i] != b.data[i]
        } else {
            true
        };
        if differs {
            assert(differs_at(a.data@, b.data@, i as int));
            let ghost before = offsets@;
            offsets.push(i);
            proof {
                assert(offsets_as_ints(offsets@) =~= offsets_as_ints(before).push(i as int));
            }
        } else {
            assert(!differs_at(a.data@, b.data@, i as int));
        }
        i = i + 1;
    }
    let severity: u64 = offsets.len() as u64;
    ParadoxRecord { offsets, severity, complete: true }
}

/// Duplicates one operation across two isolated timelines anchored to a
/// lock-free counter, and extracts the time paradox: the diff of what the
/// two timelines produced.
pub struct TemporalShadow {
    timeline_anchor: AtomicCell<u64>,
    parallel_timelines: [Timeline; 2],
}

impl TemporalShadow {
    /// How many paradox extractions this shadow has anchored.
    pub closed spec fn anchor(self) -> u64 {
        phase_value(self.timeline_anchor)
    }

    /// The two parallel timelines.
    pub closed spec fn timelines(self) -> Seq<Timeline> {
        self.parallel_timelines@
    }

    pub fn new(first: Timeline, second: Timeline) -> (r: TemporalShadow)
        ensures
            r.anchor() == 0,
            r.timelines().len() == 2,
            r.timelines()[0] == first,
            r.timelines()[1] == second,
    {
        TemporalShadow {
            timeline_anchor: phase_cell_new(0),
            parallel_timelines: [first, second],
        }
    }

    /// The anchor counter's current value.
    pub fn anchor_count(&self) -> (n: u64)
        ensures
            n == self.anchor(),
    {
        phase_cell_load(&self.timeline_anchor)
    }

    /// Executes both timelines concurrently, waits for both to complete,
    /// and extracts the difference between them. The anchor counter is
    /// bumped lock-free; the timelines themselves are only read.
    pub fn create_time_paradox(&mut self) -> (r: ParadoxRecord)
        ensures
            r.complete(),
            r.offsets() == paradox_between(
                old(self).timelines()[0].expected_output(),
                old(self).timelines()[1].expected_output(),
            ),
            r.severity() == r.offsets().len(),
            final(self).anchor() == wrapped_successor(old(self).anchor()),
            final(self).timelines() == old(self).timelines(),
    {
        phase_cell_bump(&mut self.timeline_anchor);
        let pair = run_pair(&self.parallel_timelines[0], &self.parallel_timelines[1]);
        extract_paradox(&pair.0, &pair.1)
    }
}

/// Races one operation against its own duplicate: both timelines receive
/// the same operation and the same immutable input, so a deterministic
/// engine owes the caller a zero-severity record. With a zero poll budget
/// the race gives up immediately and hands back a record marked
/// incomplete instead of blocking.
pub fn race(op: Operation, input: Vec<u8>, timeout_polls: u64) -> (r: ParadoxRecord)
    ensures
        timeout_polls == 0 ==> !r.complete() && r.offsets().len() == 0 && r.severity() == 0,
        timeout_polls > 0 ==> r.complete() && r.offsets().len() == 0 && r.severity() == 0,
{
    if timeout_polls == 0 {
        return ParadoxRecord { offsets: Vec::new(), severity: 0, complete: false };
    }
    let t = Timeline::new(op, input);
    let pair = run_pair(&t, &t);
    let record = extract_paradox(&pair.0, &pair.1);
    proof {
        lemma_identical_results_zero_paradox(t.expected_output());
    }
    record
}

} // verus!
