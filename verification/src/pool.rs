//! The task pool's concurrency ceiling.
//!
//! One fetch task is launched per chapter reference, but only a bounded
//! number may execute simultaneously: a counting admission primitive tracks
//! how many slots a pool of a fixed capacity has handed out. The caller asks
//! for a slot before launching a task and returns it when the task's outcome
//! has been collected; a launch is refused, never queued, while the pool is
//! saturated.

use vstd::prelude::*;

verus! {

/// A counting admission primitive: `active` of at most `capacity` slots are
/// handed out at any moment.
pub struct TaskPool {
    /// How many tasks may execute simultaneously.
    pub capacity: usize,
    /// How many launched tasks have not returned their slot yet.
    pub active: usize,
}

impl TaskPool {
    /// The ceiling is never exceeded.
    pub open spec fn wf(self) -> bool {
        self.active <= self.capacity
    }

    /// Every slot is handed out.
    pub open spec fn saturated(self) -> bool {
        self.active == self.capacity
    }

    /// A pool of `capacity` slots, all free.
    pub fn new(capacity: usize) -> (p: TaskPool)
        requires
            capacity >= 1,
        ensures
            p.capacity == capacity,
            p.active == 0,
            p.wf(),
    {
        TaskPool { capacity, active: 0 }
    }

    /// Ask for a slot to launch one task. A slot is granted exactly when the
    /// pool is not saturated; a refused request changes nothing.
    pub fn try_launch(&mut self) -> (granted: bool)
        requires
            old(self).wf(),
        ensures
            granted == !old(self).saturated(),
            final(self).capacity == old(self).capacity,
            final(self).active == if granted {
                old(self).active + 1
            } else {
                old(self).active as int
            },
            final(self).wf(),
    {
        if self.active < self.capacity {
            self.active = self.active + 1;
            true
        } else {
            false
        }
    }

    /// Return the slot of a task whose outcome has been collected.
    pub fn task_finished(&mut self)
        requires
            old(self).wf(),
            old(self).active > 0,
        ensures
            final(self).capacity == old(self).capacity,
            final(self).active == old(self).active - 1,
            final(self).wf(),
            !final(self).saturated(),
    {
        self.active = self.active - 1;
    }
}

} // verus!
