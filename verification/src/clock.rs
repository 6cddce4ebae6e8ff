//! The frame clock: time elapsed since a fixed start, and the deadline of
//! the next frame.
//!
//! Timestamps are whole nanoseconds counted from an origin that the host
//! picks once; the clock never reads the time itself.

use vstd::prelude::*;

verus! {

/// Nanoseconds in one second.
pub const NANOS_PER_SEC: u64 = 1_000_000_000;

/// The frame quantum of a 60 Hz cadence, in nanoseconds.
pub const FRAME_QUANTUM_NANOS: u64 = 16_666_667;

/// A span of time as whole seconds and the fraction of a second in
/// nanoseconds.
#[derive(Copy, Clone, Debug, PartialEq, Eq, Structural)]
pub struct Elapsed {
    pub secs: u64,
    pub subsec_nanos: u32,
}

impl Elapsed {
    /// The whole span in nanoseconds.
    pub open spec fn total_nanos(self) -> int {
        self.secs * NANOS_PER_SEC + self.subsec_nanos
    }
}

/// The span of `nanos` nanoseconds.
pub open spec fn elapsed_of(nanos: int) -> Elapsed {
    Elapsed {
        secs: (nanos / (NANOS_PER_SEC as int)) as u64,
        subsec_nanos: (nanos % (NANOS_PER_SEC as int)) as u32,
    }
}

/// Splitting a span into seconds and fraction loses nothing of it.
pub proof fn lemma_elapsed_of_total(nanos: int)
    requires
        0 <= nanos <= u64::MAX,
    ensures
        elapsed_of(nanos).total_nanos() == nanos,
        elapsed_of(nanos).subsec_nanos < NANOS_PER_SEC,
{
}

/// Tracks the timestamp at which the run started.
#[derive(Copy, Clone, Debug)]
pub struct FrameClock {
    start_ns: u64,
}

impl FrameClock {
    /// The timestamp at which the run started.
    pub closed spec fn spec_start(self) -> int {
        self.start_ns as int
    }

    /// The time elapsed at timestamp `now_ns`.
    pub open spec fn spec_elapsed(self, now_ns: int) -> Elapsed {
        elapsed_of(now_ns - self.spec_start())
    }

    /// A clock whose run started at `start_ns`.
    pub fn new(start_ns: u64) -> (clock: FrameClock)
        ensures
            clock.spec_start() == start_ns,
    {
        FrameClock { start_ns }
    }

    /// The timestamp at which the run started.
    pub fn start(&self) -> (start_ns: u64)
        ensures
            start_ns == self.spec_start(),
    {
        self.start_ns
    }

    /// The time elapsed since the start at timestamp `now_ns`, as seconds
    /// and their fraction. A reading that lies before the start is outside
    /// what the clock is built for.
    pub fn elapsed_seconds(&self, now_ns: u64) -> (elapsed: Elapsed)
        requires
            self.spec_start() <= now_ns,
        ensures
            elapsed == self.spec_elapsed(now_ns as int),
            elapsed.total_nanos() == now_ns - self.spec_start(),
            elapsed.subsec_nanos < NANOS_PER_SEC,
    {
        let nanos: u64 = now_ns - self.start_ns;
        Elapsed { secs: nanos / NANOS_PER_SEC, subsec_nanos: (nanos % NANOS_PER_SEC) as u32 }
    }

    /// The deadline of the next frame: one quantum after `now_ns`. It never
    /// lies before `now_ns`.
    pub fn next_deadline(now_ns: u64, quantum_ns: u64) -> (deadline_ns: u64)
        requires
            now_ns + quantum_ns <= u64::MAX,
        ensures
            deadline_ns == now_ns + quantum_ns,
            deadline_ns >= now_ns,
    {
        now_ns + quantum_ns
    }

    /// How long remains at `now_ns` until `deadline_ns`: nothing once the
    /// deadline has passed.
    pub fn remaining(deadline_ns: u64, now_ns: u64) -> (wait_ns: u64)
        ensures
            wait_ns == if now_ns >= deadline_ns {
                0
            } else {
                deadline_ns - now_ns
            },
    {
        if now_ns >= deadline_ns {
            0
        } else {
            deadline_ns - now_ns
        }
    }
}

/// Deadlines follow the clock: a later reading never gives an earlier
/// deadline, whatever the quantum.
pub proof fn lemma_deadline_follows_clock(earlier_ns: int, later_ns: int, quantum_ns: int)
    requires
        earlier_ns <= later_ns,
        0 <= quantum_ns,
    ensures
        earlier_ns <= earlier_ns + quantum_ns <= later_ns + quantum_ns,
{
}

/// Elapsed time strictly increases with the clock reading: of two readings
/// at or after the start, the later one has the longer elapsed time.
pub proof fn lemma_elapsed_strictly_increasing(clock: FrameClock, earlier_ns: int, later_ns: int)
    requires
        clock.spec_start() <= earlier_ns < later_ns <= u64::MAX,
    ensures
        clock.spec_elapsed(earlier_ns).total_nanos() < clock.spec_elapsed(later_ns).total_nanos(),
        clock.spec_elapsed(earlier_ns) != clock.spec_elapsed(later_ns),
{
    lemma_elapsed_of_total(earlier_ns - clock.spec_start());
    lemma_elapsed_of_total(later_ns - clock.spec_start());
}

} // verus!
