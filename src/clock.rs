//! Measuring time between frames. The caller reads the monotonic clock and passes the reading
//! in nanoseconds; the clock keeps its start and computes differences.
use vstd::prelude::*;

verus! {

/// Difference of two readings, zero when `now` is not after `start`.
pub open spec fn elapsed_spec(start: u128, now: u128) -> u128 {
    if now >= start { (now - start) as u128 } else { 0 }
}

/// A clock started at a reading of the monotonic clock.
pub struct Clock {
    start: u128,
}

impl Clock {
    pub closed spec fn spec_start(&self) -> u128 {
        self.start
    }

    /// A clock started at `now`.
    pub fn new(now: u128) -> (r: Self)
        ensures
            r.spec_start() == now,
    {
        Clock { start: now }
    }

    /// Time since the start, as of `now`.
    pub fn elapsed(&self, now: u128) -> (r: u128)
        ensures
            r == elapsed_spec(self.spec_start(), now),
    {
        if now >= self.start { now - self.start } else { 0 }
    }

    /// Restarts the clock at `now` and returns the time elapsed until then.
    pub fn reset(&mut self, now: u128) -> (r: u128)
        ensures
            r == elapsed_spec(old(self).spec_start(), now),
            final(self).spec_start() == now,
    {
        let elapsed = self.elapsed(now);
        self.start = now;
        elapsed
    }
}

/// Whole milliseconds in a duration of `ns` nanoseconds.
pub fn ms(ns: u128) -> (r: u128)
    ensures
        r == ns / 1_000_000,
{
    ns / 1_000_000
}

/// Whole microseconds in a duration of `ns` nanoseconds.
pub fn us(ns: u128) -> (r: u128)
    ensures
        r == ns / 1_000,
{
    ns / 1_000
}

} // verus!
