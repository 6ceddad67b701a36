use vstd::prelude::*;

use core::time::Duration;

verus! {

/// A collector that emits the current instant once per interval.
pub struct IntervalCollector {
    interval: Duration,
}

impl IntervalCollector {
    /// The time between two events.
    pub closed spec fn spec_interval(&self) -> Duration {
        self.interval
    }

    pub fn new(interval: Duration) -> (r: Self)
        ensures
            r.spec_interval() == interval,
    {
        IntervalCollector { interval }
    }

    pub fn interval(&self) -> (r: &Duration)
        ensures
            *r == self.spec_interval(),
    {
        &self.interval
    }
}

} // verus!
