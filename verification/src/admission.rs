//! Server-side admission control: a fixed pool of permits bounds the number
//! of concurrently accepted sessions. A connection takes one permit before
//! its tasks start and gives it back exactly once, at teardown; a connection
//! that finds the pool empty waits rather than being rejected.

use vstd::prelude::*;

verus! {

/// The permit pool. `active` counts sessions that were admitted and have
/// not been torn down yet.
pub struct AdmissionController {
    pub capacity: usize,
    pub active: usize,
}

/// The admission invariant: live sessions never exceed the configured
/// capacity.
pub open spec fn spec_admission_wf(c: AdmissionController) -> bool {
    c.active <= c.capacity
}

/// The pool after one admission attempt, and whether it granted a permit.
pub open spec fn spec_try_acquire(c: AdmissionController) -> (AdmissionController, bool) {
    if c.active < c.capacity {
        (AdmissionController { capacity: c.capacity, active: (c.active + 1) as usize }, true)
    } else {
        (c, false)
    }
}

/// The pool after one permit is returned.
pub open spec fn spec_release(c: AdmissionController) -> AdmissionController
    recommends
        c.active > 0,
{
    AdmissionController { capacity: c.capacity, active: (c.active - 1) as usize }
}

impl AdmissionController {
    /// An empty pool of the given capacity.
    pub fn new(capacity: usize) -> (c: AdmissionController)
        ensures
            c.capacity == capacity,
            c.active == 0,
            spec_admission_wf(c),
    {
        AdmissionController { capacity, active: 0 }
    }

    /// Well-formedness, checkable at run time.
    pub fn wf(&self) -> (r: bool)
        ensures
            r == spec_admission_wf(*self),
    {
        self.active <= self.capacity
    }

    /// Tries to admit one connection. A permit is granted exactly when one
    /// is free; a caller that is refused waits and retries rather than
    /// rejecting the connection.
    pub fn try_acquire(&mut self) -> (granted: bool)
        requires
            spec_admission_wf(*old(self)),
        ensures
            granted == (old(self).active < old(self).capacity),
            *final(self) == spec_try_acquire(*old(self)).0,
            granted == spec_try_acquire(*old(self)).1,
            spec_admission_wf(*final(self)),
            final(self).capacity == old(self).capacity,
            granted ==> final(self).active == old(self).active + 1,
            !granted ==> *final(self) == *old(self),
    {
        if self.active < self.capacity {
            self.active = self.active + 1;
            true
        } else {
            false
        }
    }

    /// Returns the permit of one torn-down session. Each session releases
    /// exactly once, however its tasks ended.
    pub fn release(&mut self)
        requires
            spec_admission_wf(*old(self)),
            old(self).active > 0,
        ensures
            *final(self) == spec_release(*old(self)),
            final(self).capacity == old(self).capacity,
            final(self).active == old(self).active - 1,
            spec_admission_wf(*final(self)),
    {
        self.active = self.active - 1;
    }

    /// How many more sessions could be admitted right now.
    pub fn available(&self) -> (r: usize)
        requires
            spec_admission_wf(*self),
        ensures
            r == self.capacity - self.active,
    {
        self.capacity - self.active
    }
}

/// Admission law: the invariant is preserved by every operation — a pool
/// that starts within capacity can never be driven past it — and releasing
/// one permit from a full pool admits exactly one more waiting connection:
/// the next attempt is granted and the one after that is refused again.
pub proof fn lemma_release_admits_exactly_one(c: AdmissionController)
    requires
        spec_admission_wf(c),
        c.active == c.capacity,
        c.active > 0,
    ensures
        !spec_try_acquire(c).1,
        spec_admission_wf(spec_release(c)),
        spec_try_acquire(spec_release(c)).1,
        !spec_try_acquire(spec_try_acquire(spec_release(c)).0).1,
{
}

/// Admission law, inductive part: both operations preserve the invariant,
/// so by induction over any interleaving of admissions and releases the
/// number of live sessions never exceeds the capacity.
pub proof fn lemma_admission_invariant_preserved(c: AdmissionController)
    requires
        spec_admission_wf(c),
    ensures
        spec_admission_wf(spec_try_acquire(c).0),
        c.active > 0 ==> spec_admission_wf(spec_release(c)),
{
}

} // verus!
