//! Frame pacing: a soft cap on the frame rate.
//!
//! After a draw the loop blocks for whatever is left of the target frame
//! interval, so that one iteration never takes less than the interval. The
//! pacer only computes for how long; the caller measures and sleeps.

use vstd::prelude::*;

verus! {

/// Nanoseconds in a second.
pub const NANOS_PER_SEC: u32 = 1_000_000_000;

/// Nanoseconds in the default target frame interval, one sixtieth of a
/// second rounded to the nearest nanosecond.
pub const DEFAULT_INTERVAL_NANOS: u64 = 16_666_667;

/// A span of time measured on a monotonic clock: whole seconds and the
/// nanoseconds beyond them.
#[derive(Clone, Copy, Debug, PartialEq, Eq, Structural)]
pub struct Elapsed {
    pub secs: u64,
    pub subsec_nanos: u32,
}

impl Elapsed {
    /// The whole span in nanoseconds.
    pub open spec fn nanos(self) -> nat {
        (self.secs * NANOS_PER_SEC + self.subsec_nanos) as nat
    }

    /// Returns the whole span in nanoseconds.
    pub fn as_nanos(&self) -> (total: u128)
        ensures
            total == self.nanos(),
    {
        assert(self.secs * NANOS_PER_SEC + self.subsec_nanos <= u128::MAX) by (nonlinear_arith)
            requires
                self.secs <= u64::MAX,
                NANOS_PER_SEC == 1_000_000_000,
                self.subsec_nanos <= u32::MAX,
        ;
        self.secs as u128 * NANOS_PER_SEC as u128 + self.subsec_nanos as u128
    }
}

/// What is left of an interval of `interval` nanoseconds once `elapsed`
/// nanoseconds of it have passed.
pub open spec fn remaining_nanos(interval: nat, elapsed: nat) -> nat {
    if elapsed < interval {
        (interval - elapsed) as nat
    } else {
        0
    }
}

/// Caps the frame rate at one frame per interval.
#[derive(Clone, Copy, Debug, PartialEq, Eq, Structural)]
pub struct FramePacer {
    /// The target frame interval in nanoseconds.
    pub interval_nanos: u64,
}

impl FramePacer {
    /// Returns a pacer with a target frame interval of `interval_nanos`
    /// nanoseconds.
    pub fn new(interval_nanos: u64) -> (pacer: FramePacer)
        ensures
            pacer.interval_nanos == interval_nanos,
    {
        FramePacer { interval_nanos }
    }

    /// Returns for how many nanoseconds to block after a draw that took
    /// `frame_time`: the rest of the interval, or nothing when the draw
    /// took the whole interval or longer.
    pub fn pause(&self, frame_time: Elapsed) -> (rest: u64)
        ensures
            rest == remaining_nanos(self.interval_nanos as nat, frame_time.nanos()),
    {
        let elapsed: u128 = frame_time.as_nanos();
        let interval: u128 = self.interval_nanos as u128;
        if elapsed < interval {
            (interval - elapsed) as u64
        } else {
            0
        }
    }
}

impl Default for FramePacer {
    /// Returns a pacer for sixty frames per second.
    fn default() -> (pacer: FramePacer)
        ensures
            pacer.interval_nanos == DEFAULT_INTERVAL_NANOS,
    {
        FramePacer { interval_nanos: DEFAULT_INTERVAL_NANOS }
    }
}

/// A draw followed by its pause lasts at least the target interval, and
/// exactly the interval when the draw alone was shorter; a draw that took
/// the interval or longer is not delayed further.
pub proof fn lemma_paced_frame_lasts_interval(interval: nat, elapsed: nat)
    ensures
        elapsed + remaining_nanos(interval, elapsed) >= interval,
        elapsed < interval ==> elapsed + remaining_nanos(interval, elapsed) == interval,
        elapsed >= interval ==> remaining_nanos(interval, elapsed) == 0,
{
}

} // verus!
