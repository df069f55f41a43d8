//! The idle monitor's decisions: which threshold holds, and whether to act on
//! a measured idle time or to sleep.
use crate::text::{parse_u64, parsed_u64};
use vstd::prelude::*;

verus! {

/// The smallest threshold, in seconds, that the monitor works with.
pub const IDLE_FLOOR_SECONDS: u64 = 60;

/// How long to let a keyboard correction settle before measuring again.
pub const KEYBOARD_SETTLE_SECONDS: u64 = 10;

/// How long the supervisor waits before it restarts a loop that ended.
pub const RESTART_BACKOFF_SECONDS: u64 = 60;

/// The idle time at which the monitor acts: 94% of the threshold, rounded down.
pub open spec fn spec_trigger(threshold: int) -> int {
    threshold * 94 / 100
}

pub fn trigger_point(threshold: u64) -> (r: u64)
    ensures
        r == spec_trigger(threshold as int),
{
    assert(threshold / 100 * 94 + threshold % 100 * 94 / 100 == threshold * 94 / 100)
        by (nonlinear_arith);
    threshold / 100 * 94 + threshold % 100 * 94 / 100
}

/// The monitor acts before the threshold is reached: for every threshold from
/// the floor up, the trigger point lies below the threshold.
pub proof fn lemma_trigger_before_threshold(threshold: u64)
    requires
        threshold >= IDLE_FLOOR_SECONDS,
    ensures
        spec_trigger(threshold as int) < threshold,
        spec_trigger(threshold as int) > 0,
{
    assert(threshold * 94 / 100 < threshold) by (nonlinear_arith)
        requires
            threshold >= 60,
    ;
    assert(threshold * 94 / 100 > 0) by (nonlinear_arith)
        requires
            threshold >= 60,
    ;
}

/// What one pass of the loop does after measuring.
#[derive(Clone, Copy, Debug, PartialEq, Eq, Structural)]
pub enum IdleAction {
    /// Correct: the measured idle time, in seconds, reached the trigger point.
    Correct(u64),
    /// Sleep this many seconds before the next pass.
    Sleep(u64),
}

/// The monitor's state: the last threshold that it could read.
pub struct IdleMonitor {
    pub threshold: u64,
}

impl IdleMonitor {
    pub open spec fn wf(&self) -> bool {
        self.threshold >= IDLE_FLOOR_SECONDS
    }

    /// Before any threshold was read, the floor holds.
    pub fn new() -> (r: IdleMonitor)
        ensures
            r.threshold == IDLE_FLOOR_SECONDS,
            r.wf(),
    {
        IdleMonitor { threshold: IDLE_FLOOR_SECONDS }
    }

    /// Takes the stored `ForceInterval` text. A number below the floor is
    /// raised to it, and the result says that the floor must be written back;
    /// text that is no number leaves the last good threshold.
    pub fn refresh_threshold(&mut self, raw: &str) -> (persist_floor: bool)
        ensures
            old(self).wf() ==> final(self).wf(),
            match parsed_u64(raw@) {
                Some(v) => if v < IDLE_FLOOR_SECONDS {
                    final(self).threshold == IDLE_FLOOR_SECONDS && persist_floor
                } else {
                    final(self).threshold == v && !persist_floor
                },
                None => final(self).threshold == old(self).threshold && !persist_floor,
            },
    {
        match parse_u64(raw) {
            Some(v) => {
                if v < IDLE_FLOOR_SECONDS {
                    self.threshold = IDLE_FLOOR_SECONDS;
                    true
                } else {
                    self.threshold = v;
                    false
                }
            },
            None => false,
        }
    }

    /// Decides on a measured idle time; a failed measurement counts as none.
    /// At or past the trigger point the monitor corrects, with no sleep; below
    /// it, it sleeps for the trigger point's length.
    pub fn decide(&self, idle: Option<u64>) -> (r: IdleAction)
        ensures
            ({
                let seen = match idle {
                    Some(i) => i,
                    None => 0,
                };
                if seen >= spec_trigger(self.threshold as int) {
                    r == IdleAction::Correct(seen)
                } else {
                    r == IdleAction::Sleep(spec_trigger(self.threshold as int) as u64)
                }
            }),
    {
        let seen = match idle {
            Some(i) => i,
            None => 0,
        };
        let trigger = trigger_point(self.threshold);
        if seen >= trigger {
            IdleAction::Correct(seen)
        } else {
            IdleAction::Sleep(trigger)
        }
    }
}

/// Whether a correction failed to reset the idle timer: a new measurement
/// exists and is no smaller than the one taken before the correction.
pub fn idle_not_reset(before: u64, now: Option<u64>) -> (r: bool)
    ensures
        r == (now matches Some(n) && n >= before),
{
    match now {
        Some(n) => n >= before,
        None => false,
    }
}

} // verus!
