//! The coordinator admission pool.
//!
//! The admission loop advertises, accepts one connection at a time, and
//! spawns a coordinator for it — but only while fewer than the configured
//! bound of coordinators are live. When the pool is exhausted, admission
//! fails cleanly: the failure is reported to the caller (who logs it and
//! leaves the connection un-serviced) and nothing crashes.

use vstd::prelude::*;

verus! {

/// A bounded count of concurrently live coordinators.
#[derive(Clone, Copy, PartialEq, Eq, Structural, Debug)]
pub struct AdmissionPool {
    active: usize,
    bound: usize,
}

impl AdmissionPool {
    /// How many coordinators are currently live.
    pub closed spec fn spec_active(&self) -> usize {
        self.active
    }

    /// The fixed pool bound.
    pub closed spec fn spec_bound(&self) -> usize {
        self.bound
    }

    /// The pool never exceeds its bound.
    pub open spec fn wf(&self) -> bool {
        self.spec_active() <= self.spec_bound()
    }

    /// An empty pool with the given fixed bound.
    pub fn new(bound: usize) -> (r: AdmissionPool)
        ensures
            r.spec_active() == 0,
            r.spec_bound() == bound,
            r.wf(),
    {
        AdmissionPool { active: 0, bound }
    }

    /// How many coordinators are currently live.
    pub fn active(&self) -> (n: usize)
        ensures
            n == self.spec_active(),
    {
        self.active
    }

    /// The fixed pool bound.
    pub fn bound(&self) -> (n: usize)
        ensures
            n == self.spec_bound(),
    {
        self.bound
    }

    /// Tries to admit one more coordinator. Succeeds and takes a pool slot
    /// exactly when the pool is not yet at its bound; otherwise the pool is
    /// unchanged and the caller must leave the connection un-serviced.
    pub fn try_admit(&mut self) -> (admitted: bool)
        requires
            old(self).wf(),
        ensures
            admitted == (old(self).spec_active() < old(self).spec_bound()),
            admitted ==> final(self).spec_active() == old(self).spec_active() + 1,
            !admitted ==> *final(self) == *old(self),
            final(self).spec_bound() == old(self).spec_bound(),
            final(self).wf(),
    {
        if self.active < self.bound {
            self.active = self.active + 1;
            true
        } else {
            false
        }
    }

    /// Returns a pool slot when a coordinator exits. Releasing an empty
    /// pool (a caller bookkeeping error) leaves it empty rather than
    /// underflowing.
    pub fn release(&mut self)
        ensures
            old(self).spec_active() > 0 ==> final(self).spec_active() == old(self).spec_active()
                - 1,
            old(self).spec_active() == 0 ==> final(self).spec_active() == 0,
            final(self).spec_bound() == old(self).spec_bound(),
            old(self).wf() ==> final(self).wf(),
    {
        if self.active > 0 {
            self.active = self.active - 1;
        }
    }
}

} // verus!
