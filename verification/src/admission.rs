//! Connection admission: a hard ceiling on how many connections are
//! concurrently in service, modelled as a counter bounded by a fixed budget.

use vstd::prelude::*;

verus! {

/// Enforces the admission budget: at most `budget` connections are past the
/// admission step at any time. `try_acquire` admits one unit of work when a
/// permit is free; `release` returns the permit. A caller that is refused is
/// expected to retry once another connection releases (the suspending acquire
/// of the runtime is driven outside the library).
pub struct AdmissionController {
    pub budget: usize,
    pub in_service: usize,
}

impl AdmissionController {
    /// The admission bound: the count of admitted connections never exceeds
    /// the configured budget.
    pub open spec fn wf(self) -> bool {
        self.in_service <= self.budget
    }

    pub fn new(budget: usize) -> (r: Self)
        ensures
            r.wf(),
            r.budget == budget,
            r.in_service == 0,
    {
        AdmissionController { budget, in_service: 0 }
    }

    /// Admits one connection if the budget is not exhausted. Returns true
    /// exactly when a permit was free, i.e. the N+1-th concurrent attempt
    /// against a full budget is refused until some permit is released.
    pub fn try_acquire(&mut self) -> (r: bool)
        requires
            old(self).wf(),
        ensures
            final(self).wf(),
            final(self).budget == old(self).budget,
            r == (old(self).in_service < old(self).budget),
            r ==> final(self).in_service == old(self).in_service + 1,
            !r ==> final(self).in_service == old(self).in_service,
    {
        if self.in_service < self.budget {
            self.in_service = self.in_service + 1;
            true
        } else {
            false
        }
    }

    /// Returns one permit to the pool; callable only while some connection
    /// actually holds a permit.
    pub fn release(&mut self)
        requires
            old(self).wf(),
            old(self).in_service >= 1,
        ensures
            final(self).wf(),
            final(self).budget == old(self).budget,
            final(self).in_service == old(self).in_service - 1,
    {
        self.in_service = self.in_service - 1;
    }

    pub fn in_service_now(&self) -> (r: usize)
        ensures
            r == self.in_service,
    {
        self.in_service
    }

    pub fn budget_total(&self) -> (r: usize)
        ensures
            r == self.budget,
    {
        self.budget
    }
}

} // verus!
