//! The process-wide counting admission gate for the scarce automation
//! resource.
//!
//! Every fetch task, whichever ingress admitted its job, must take a permit
//! from the one shared pool before it touches the resource and must give the
//! permit back when it is done, so the number of permits out at once can
//! never pass the capacity fixed at process start.

use vstd::prelude::*;

verus! {

/// A fixed-capacity counting gate: `held` permits are out, never more than
/// `capacity`.
pub struct ResourcePool {
    capacity: usize,
    held: usize,
}

impl ResourcePool {
    /// The capacity the pool was created with.
    pub closed spec fn spec_capacity(&self) -> nat {
        self.capacity as nat
    }

    /// How many permits are currently out.
    pub closed spec fn spec_held(&self) -> nat {
        self.held as nat
    }

    /// The pool's invariant: permits out never exceed capacity.
    pub open spec fn wf(&self) -> bool {
        self.spec_held() <= self.spec_capacity()
    }

    /// A pool of the given capacity with no permit out.
    pub fn new(capacity: usize) -> (p: ResourcePool)
        ensures
            p.wf(),
            p.spec_capacity() == capacity,
            p.spec_held() == 0,
    {
        ResourcePool { capacity, held: 0 }
    }

    /// Hands out a permit if one is free; grants exactly when the pool is not
    /// full, and never grows `held` past the capacity.
    pub fn try_acquire(&mut self) -> (granted: bool)
        requires
            old(self).wf(),
        ensures
            final(self).wf(),
            final(self).spec_capacity() == old(self).spec_capacity(),
            granted <==> old(self).spec_held() < old(self).spec_capacity(),
            granted ==> final(self).spec_held() == old(self).spec_held() + 1,
            !granted ==> final(self).spec_held() == old(self).spec_held(),
    {
        if self.held < self.capacity {
            self.held = self.held + 1;
            true
        } else {
            false
        }
    }

    /// Returns a permit to the pool.
    pub fn release(&mut self)
        requires
            old(self).wf(),
            old(self).spec_held() > 0,
        ensures
            final(self).wf(),
            final(self).spec_capacity() == old(self).spec_capacity(),
            final(self).spec_held() == old(self).spec_held() - 1,
    {
        self.held = self.held - 1;
    }

    /// How many permits are still free.
    pub fn available(&self) -> (n: usize)
        requires
            self.wf(),
        ensures
            n == self.spec_capacity() - self.spec_held(),
    {
        self.capacity - self.held
    }

    /// How many permits are currently out.
    pub fn held(&self) -> (n: usize)
        ensures
            n == self.spec_held(),
    {
        self.held
    }
}

/// One step a fetch task takes at the pool: asking for a permit or giving
/// one back.
pub ghost enum PoolEvent {
    Acquire,
    Release,
}

/// How many permits are out after a sequence of pool events, starting from an
/// idle pool of capacity `cap`: an acquire is granted only when the pool is
/// not full, and a release with nothing out changes nothing.
pub open spec fn held_after(cap: nat, events: Seq<PoolEvent>) -> nat
    decreases events.len(),
{
    if events.len() == 0 {
        0
    } else {
        let h = held_after(cap, events.drop_last());
        match events.last() {
            PoolEvent::Acquire => if h < cap {
                h + 1
            } else {
                h
            },
            PoolEvent::Release => if h > 0 {
                (h - 1) as nat
            } else {
                h
            },
        }
    }
}

/// Law: at no point does the number of permits out exceed the capacity,
/// whatever sequence of acquires and releases the in-flight jobs interleave.
pub proof fn lemma_pool_never_exceeds_capacity(cap: nat, events: Seq<PoolEvent>)
    ensures
        held_after(cap, events) <= cap,
    decreases events.len(),
{
    if events.len() > 0 {
        lemma_pool_never_exceeds_capacity(cap, events.drop_last());
    }
}

} // verus!
