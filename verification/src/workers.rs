//! The permit count behind bounded connection concurrency: how many task
//! slots a dispatcher has and how many are free. A dispatch takes a slot
//! before its task starts and gives it back when the task finishes, so no
//! more tasks run at once than the capacity allows.

use vstd::prelude::*;

verus! {

/// A counting semaphore's state over a fixed capacity of at least one.
#[derive(Clone, Copy, Debug)]
pub struct WorkerPermitCount {
    capacity: usize,
    available: usize,
}

impl View for WorkerPermitCount {
    /// The capacity and the number of free slots.
    type V = (nat, nat);

    closed spec fn view(&self) -> (nat, nat) {
        (self.capacity as nat, self.available as nat)
    }
}

impl WorkerPermitCount {
    /// The number of tasks holding a slot.
    pub open spec fn in_flight(&self) -> int {
        self@.0 - self@.1
    }

    /// A count never has more free slots than its capacity, and its capacity is never zero.
    pub open spec fn well_formed(&self) -> bool {
        1 <= self@.0 && self@.1 <= self@.0
    }

    /// Every count is well formed.
    #[verifier::type_invariant]
    closed spec fn stays_well_formed(&self) -> bool {
        self.well_formed()
    }

    /// A count with every slot free. A capacity of zero would block the first
    /// dispatch for ever, so it is raised to one.
    pub fn new(capacity: usize) -> (count: Self)
        ensures
            count.well_formed(),
            count@ == (if capacity == 0 { 1nat } else { capacity as nat }, if capacity == 0 {
                1nat
            } else {
                capacity as nat
            }),
    {
        let capacity = if capacity == 0 { 1 } else { capacity };
        Self { capacity, available: capacity }
    }

    pub fn capacity(&self) -> (capacity: usize)
        ensures
            capacity == self@.0,
    {
        self.capacity
    }

    pub fn available(&self) -> (available: usize)
        ensures
            available == self@.1,
            self.well_formed(),
    {
        proof {
            use_type_invariant(self);
        }
        self.available
    }

    /// Takes a slot when one is free; says whether it did.
    pub fn try_acquire(&mut self) -> (acquired: bool)
        ensures
            final(self).well_formed(),
            final(self)@.0 == old(self)@.0,
            acquired == (old(self)@.1 > 0),
            acquired ==> final(self)@.1 == old(self)@.1 - 1,
            !acquired ==> final(self)@ == old(self)@,
            final(self).in_flight() <= final(self)@.0,
    {
        proof {
            use_type_invariant(&*self);
        }
        if self.available == 0 {
            false
        } else {
            self.available = self.available - 1;
            true
        }
    }

    /// Gives back a slot taken by `try_acquire`.
    pub fn release(&mut self)
        requires
            old(self).in_flight() > 0,
        ensures
            final(self).well_formed(),
            final(self)@ == (old(self)@.0, old(self)@.1 + 1),
    {
        proof {
            use_type_invariant(&*self);
        }
        self.available = self.available + 1;
    }
}

/// In every well-formed count, which `new`, `try_acquire` and `release` all
/// keep, the tasks holding a slot never outnumber the capacity.
pub proof fn lemma_in_flight_within_capacity(count: WorkerPermitCount)
    requires
        count.well_formed(),
    ensures
        0 <= count.in_flight() <= count@.0,
{
}

} // verus!
