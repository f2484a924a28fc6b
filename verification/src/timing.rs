//! Monotonic tick source and memory barrier.
//!
//! Every measurement the engine makes is bracketed by [`TimingSource::now`]
//! calls. The consumer-observable contract is monotonicity alone: a platform
//! without a high-resolution clock degrades to a coarser counter, never to an
//! error. The deterministic counter mode is that degraded form; it is also
//! what makes fingerprints reproducible in a controlled fixture.

use vstd::prelude::*;

verus! {

#[verifier::external_type_specification]
#[verifier::external_body]
pub struct ExInstant(std::time::Instant);

/// Relies on `std::time::Instant::now`: an opaque reading of the platform's
/// monotonic clock. Nothing is assumed of the value itself.
pub assume_specification[ std::time::Instant::now ]() -> std::time::Instant;

/// Relies on `std::time::Instant::elapsed`: the time since the anchor
/// instant, as an opaque `Duration`. Nothing is assumed of the value.
pub assume_specification[ std::time::Instant::elapsed ](
    anchor: &std::time::Instant,
) -> std::time::Duration;

/// Relies on `std::time::Duration::as_nanos`: the duration in whole
/// nanoseconds. Nothing is assumed of the value.
pub assume_specification[ std::time::Duration::as_nanos ](
    d: &std::time::Duration,
) -> u128;

/// Relies on `std::sync::atomic::fence` with sequentially consistent
/// ordering: a full memory fence, so reads and writes around a timing
/// bracket are not reordered across it. No value is produced and no
/// observable state changes.
#[verifier::external_body]
pub fn barrier() {
    std::sync::atomic::fence(std::sync::atomic::Ordering::SeqCst);
}

/// How a [`TimingSource`] obtains its raw readings.
pub enum ClockMode {
    /// A deterministic software counter that advances by a fixed step on
    /// every reading: the portable degraded form, and the reproducible
    /// fixture mode.
    Counter { step: u64 },
    /// The platform's monotonic clock, read as nanoseconds since the
    /// anchor instant.
    Clock { anchor: std::time::Instant },
}

/// A monotonically non-decreasing tick counter.
///
/// `last` records the highest tick handed out so far; every reading is
/// clamped against it, so monotonicity holds whatever the raw clock
/// returns.
pub struct TimingSource {
    mode: ClockMode,
    last: u64,
}

impl TimingSource {
    /// The highest tick this source has handed out.
    pub closed spec fn last_tick(self) -> u64 {
        self.last
    }

    /// True in the deterministic counter mode.
    pub closed spec fn is_deterministic(self) -> bool {
        self.mode is Counter
    }

    /// The fixed step of the counter mode.
    pub closed spec fn step(self) -> u64 {
        self.mode->Counter_step
    }

    /// The tick that the counter mode hands out next: the previous tick
    /// advanced by the step, saturating at the top of the range.
    pub open spec fn counter_next(self) -> u64 {
        if self.last_tick() + self.step() > u64::MAX {
            u64::MAX
        } else {
            (self.last_tick() + self.step()) as u64
        }
    }

    /// A deterministic source starting at tick zero.
    pub fn new_counter(step: u64) -> (r: TimingSource)
        ensures
            r.is_deterministic(),
            r.last_tick() == 0,
            r.step() == step,
    {
        TimingSource { mode: ClockMode::Counter { step }, last: 0 }
    }

    /// A source backed by the platform's monotonic clock.
    pub fn new_clock() -> (r: TimingSource)
        ensures
            !r.is_deterministic(),
            r.last_tick() == 0,
    {
        TimingSource { mode: ClockMode::Clock { anchor: std::time::Instant::now() }, last: 0 }
    }

    /// One reading, bracketed by full memory fences.
    ///
    /// Each result is at least as large as every earlier result from the
    /// same source, whatever the raw clock returned; in the deterministic
    /// mode the result is pinned exactly.
    pub fn now(&mut self) -> (t: u64)
        ensures
            t >= old(self).last_tick(),
            final(self).last_tick() == t,
            final(self).is_deterministic() == old(self).is_deterministic(),
            final(self).is_deterministic() ==> final(self).step() == old(self).step(),
            old(self).is_deterministic() ==> t == old(self).counter_next(),
    {
        barrier();
        let raw: u64 = match &self.mode {
            ClockMode::Counter { step } => {
                let s: u64 = *step;
                if self.last > u64::MAX - s {
                    u64::MAX
                } else {
                    self.last + s
                }
            },
            ClockMode::Clock { anchor } => {
                let nanos: u128 = anchor.elapsed().as_nanos();
                if nanos > u64::MAX as u128 {
                    u64::MAX
                } else {
                    nanos as u64
                }
            },
        };
        let t: u64 = if raw > self.last {
            raw
        } else {
            self.last
        };
        self.last = t;
        barrier();
        t
    }
}

} // verus!
