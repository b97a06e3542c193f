//! Process-wide metrics: a mapping from counter name to a monotonically
//! increasing 64-bit count, incremented once per request and never reset
//! during the process lifetime.

use vstd::prelude::*;

verus! {

/// The small fixed set of counters the process exposes; currently only the
/// per-request counter.
#[derive(Clone, Copy, PartialEq, Eq, Structural, Debug)]
pub enum CounterName {
    Requests,
}

/// The metrics store, owned by the composition root and shared (behind the
/// runtime's synchronization) by every connection.
pub struct MetricsCounter {
    pub requests: u64,
}

impl MetricsCounter {
    /// The mapping from counter name to its current count.
    pub open spec fn counts(self) -> Map<CounterName, u64> {
        map![CounterName::Requests => self.requests]
    }

    /// All counters start at zero.
    pub fn new() -> (r: Self)
        ensures
            r.counts()[CounterName::Requests] == 0u64,
    {
        MetricsCounter { requests: 0 }
    }

    /// Adds one to the named counter and touches no other counter.
    pub fn increment(&mut self, name: CounterName)
        requires
            old(self).counts()[name] < u64::MAX,
        ensures
            final(self).counts() == old(self).counts().insert(name, (old(self).counts()[name] + 1) as u64),
    {
        match name {
            CounterName::Requests => {
                self.requests = self.requests + 1;
            }
        }
        proof {
            assert(self.counts() =~= old(self).counts().insert(name, (old(self).counts()[name] + 1) as u64));
        }
    }

    /// Reads the named counter, for external scraping.
    pub fn read(&self, name: CounterName) -> (r: u64)
        ensures
            r == self.counts()[name],
    {
        match name {
            CounterName::Requests => self.requests,
        }
    }
}

} // verus!
