//! Scheduler decisions for the two periodic loops (scan and upload).
//!
//! Each loop owns a `LoopTimer`. On every tick the loop re-reads its interval
//! from the shared settings and calls [`LoopTimer::on_tick`]; when the value
//! changed since the timer was built, the caller must rebuild its timer at
//! the returned interval. The tick that noticed the change still counts as a
//! fire at the old cadence; no tick is double-fired or skipped.
use vstd::prelude::*;

verus! {

/// The interval (in minutes) a periodic loop's timer was last built with.
pub struct LoopTimer {
    pub interval_minutes: u64,
}

impl LoopTimer {
    /// Start a loop timer at the given interval.
    pub fn new(interval_minutes: u64) -> (t: LoopTimer)
        ensures
            t.interval_minutes == interval_minutes,
    {
        LoopTimer { interval_minutes }
    }

    /// Called on every tick with the interval currently found in settings.
    /// Returns true exactly when the timer must be rebuilt, and always leaves
    /// the timer recording the latest interval, so the next tick compares
    /// against the value the timer actually runs at.
    pub fn on_tick(&mut self, latest_minutes: u64) -> (rebuild: bool)
        ensures
            final(self).interval_minutes == latest_minutes,
            rebuild == (old(self).interval_minutes != latest_minutes),
    {
        let changed = self.interval_minutes != latest_minutes;
        self.interval_minutes = latest_minutes;
        changed
    }
}

/// The number of seconds a repeating timer of `minutes` minutes runs at;
/// `None` when the product does not fit in a `u64`.
pub fn interval_seconds(minutes: u64) -> (r: Option<u64>)
    ensures
        minutes * 60 <= u64::MAX ==> r == Some((minutes * 60) as u64),
        minutes * 60 > u64::MAX ==> r is None,
{
    minutes.checked_mul(60)
}

} // verus!
