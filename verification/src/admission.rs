//! Admission control: a counting pool of permits that caps the number of
//! concurrently active relays.
//!
//! Each accepted connection acquires one permit before dialing the
//! destination and releases it, unconditionally, when its relay finishes.
//! Acquisition is denied (the caller must wait and retry) while the pool is
//! at capacity; it never over-grants. The ghost totals record every
//! acquisition and release since the pool was created, so the pool's
//! invariant can speak of the whole history.

use vstd::prelude::*;

verus! {

/// A counting pool of admission permits with a fixed capacity.
pub struct AdmissionPool {
    /// Fixed number of permits the pool was created with.
    pub capacity: usize,
    /// Permits currently held by live relays.
    pub outstanding: usize,
    /// Total number of acquisitions since the pool was created.
    pub acquired: Ghost<nat>,
    /// Total number of releases since the pool was created.
    pub released: Ghost<nat>,
}

impl AdmissionPool {
    /// The pool's invariant: the outstanding count is exactly the excess of
    /// acquisitions over releases, and never exceeds the capacity.
    pub open spec fn wf(&self) -> bool {
        &&& self.acquired@ == self.released@ + self.outstanding as nat
        &&& self.outstanding <= self.capacity
    }

    /// True when one more relay may be admitted without exceeding capacity.
    pub open spec fn can_admit(&self) -> bool {
        self.outstanding < self.capacity
    }

    /// Create a pool with every permit available.
    pub fn new(capacity: usize) -> (pool: AdmissionPool)
        ensures
            pool.wf(),
            pool.capacity == capacity,
            pool.outstanding == 0,
            pool.acquired@ == 0,
            pool.released@ == 0,
    {
        AdmissionPool {
            capacity,
            outstanding: 0,
            acquired: Ghost(0),
            released: Ghost(0),
        }
    }

    /// Try to take one permit. Grants exactly when the pool is below
    /// capacity; a denied call leaves the pool unchanged, so a caller at
    /// capacity must wait for a release and try again.
    pub fn try_acquire(&mut self) -> (granted: bool)
        requires
            old(self).wf(),
        ensures
            final(self).wf(),
            granted == old(self).can_admit(),
            final(self).capacity == old(self).capacity,
            granted ==> final(self).outstanding == old(self).outstanding + 1,
            granted ==> final(self).acquired@ == old(self).acquired@ + 1,
            granted ==> final(self).released@ == old(self).released@,
            !granted ==> *final(self) == *old(self),
    {
        if self.outstanding < self.capacity {
            self.outstanding = self.outstanding + 1;
            self.acquired = Ghost(self.acquired@ + 1);
            true
        } else {
            false
        }
    }

    /// Hand one permit back. Requires that a permit is actually outstanding:
    /// every release is paired with exactly one prior acquisition.
    pub fn release(&mut self)
        requires
            old(self).wf(),
            old(self).outstanding > 0,
        ensures
            final(self).wf(),
            final(self).capacity == old(self).capacity,
            final(self).outstanding == old(self).outstanding - 1,
            final(self).acquired@ == old(self).acquired@,
            final(self).released@ == old(self).released@ + 1,
    {
        self.outstanding = self.outstanding - 1;
        self.released = Ghost(self.released@ + 1);
    }
}

/// Law: at any instant, acquisitions minus releases never exceeds the
/// capacity, and the difference never goes negative.
pub proof fn lemma_pool_invariant(pool: AdmissionPool)
    requires
        pool.wf(),
    ensures
        pool.released@ <= pool.acquired@,
        pool.acquired@ - pool.released@ <= pool.capacity as int,
{
}

/// Law (backpressure, pool side): a pool at full capacity admits no further
/// relay; only a release can make `try_acquire` grant again.
pub proof fn lemma_backpressure(pool: AdmissionPool)
    requires
        pool.wf(),
        pool.outstanding == pool.capacity,
    ensures
        !pool.can_admit(),
{
}

} // verus!
