//! The network stack's fixed-capacity pool of socket and query slots: at
//! most as many concurrent TCP connections and DNS queries as the pool
//! was configured with. Exceeding the pool must fail, never allocate.

use vstd::prelude::*;

verus! {

/// Why a slot could not be handed out.
#[derive(Clone, Copy, PartialEq, Eq, Structural, Debug)]
pub enum PoolError {
    /// Every slot is in use; the request fails rather than allocating.
    Exhausted,
}

/// A pool of identical resource slots whose size is fixed when the stack
/// is configured.
pub struct SlotPool {
    pub capacity: usize,
    pub in_use: usize,
}

impl SlotPool {
    /// No more slots are ever handed out than the pool was created with.
    pub open spec fn inv(self) -> bool {
        self.in_use <= self.capacity
    }

    /// A fresh pool with every slot free.
    pub fn new(capacity: usize) -> (pool: SlotPool)
        ensures
            pool.inv(),
            pool.capacity == capacity,
            pool.in_use == 0,
    {
        SlotPool { capacity, in_use: 0 }
    }

    /// How many slots are still free.
    pub fn free_slots(&self) -> (free: usize)
        requires
            self.inv(),
        ensures
            free == self.capacity - self.in_use,
    {
        self.capacity - self.in_use
    }

    /// Take one slot. Succeeds exactly when a slot is free; a full pool
    /// fails with `Exhausted` and is left unchanged — the capacity never
    /// grows to satisfy a request.
    pub fn acquire(&mut self) -> (r: Result<(), PoolError>)
        requires
            old(self).inv(),
        ensures
            final (self).inv(),
            final (self).capacity == old(self).capacity,
            old(self).in_use < old(self).capacity ==> r == Result::<(), PoolError>::Ok(())
                && final (self).in_use == old(self).in_use + 1,
            old(self).in_use >= old(self).capacity ==> r == Result::<(), PoolError>::Err(
                PoolError::Exhausted,
            ) && final (self).in_use == old(self).in_use,
    {
        if self.in_use < self.capacity {
            self.in_use = self.in_use + 1;
            Ok(())
        } else {
            Err(PoolError::Exhausted)
        }
    }

    /// Hand one slot back.
    pub fn release(&mut self)
        requires
            old(self).inv(),
            old(self).in_use > 0,
        ensures
            final (self).inv(),
            final (self).capacity == old(self).capacity,
            final (self).in_use == old(self).in_use - 1,
    {
        self.in_use = self.in_use - 1;
    }
}

} // verus!
