//! Single-slot actuator signal: a single-writer, single-reader,
//! overwrite-on-write cell that decouples a control loop's output rate
//! from an actuator-driving task's duty cycle.
//!
//! A write never blocks and replaces any unconsumed value; a reader takes
//! the pending value, leaving the slot empty. Coalescing is deliberate:
//! for actuator targets, staleness is worse than skipping an intermediate
//! value, so only the latest write matters. The blocking `wait` of the
//! running system is a retry loop around `try_take`, driven by the task
//! runtime.

use vstd::prelude::*;

verus! {

/// Zero or one pending value.
pub struct SlotSignal<T> {
    pub slot: Option<T>,
}

impl<T> SlotSignal<T> {
    pub fn new() -> (s: Self)
        ensures
            s.slot is None,
    {
        SlotSignal { slot: None }
    }

    /// Non-blocking write; replaces any unconsumed value (last write
    /// wins, no queuing).
    pub fn write(&mut self, value: T)
        ensures
            final(self).slot == Some(value),
    {
        self.slot = Some(value);
    }

    /// Consume the pending value, if any. After a successful take the
    /// slot is empty until the next write.
    pub fn try_take(&mut self) -> (r: Option<T>)
        ensures
            r == old(self).slot,
            final(self).slot is None,
    {
        self.slot.take()
    }
}

/// What one write leaves in the slot.
pub open spec fn spec_write<T>(s: SlotSignal<T>, value: T) -> SlotSignal<T> {
    SlotSignal { slot: Some(value) }
}

/// The slot after a whole run of writes, one at a time, with no
/// intervening read.
pub open spec fn slot_after_writes<T>(s: SlotSignal<T>, writes: Seq<T>) -> SlotSignal<T>
    decreases writes.len(),
{
    if writes.len() == 0 {
        s
    } else {
        spec_write(slot_after_writes(s, writes.drop_last()), writes.last())
    }
}

/// Coalescing (law): after any non-empty run of writes with no
/// intervening read, the next take observes exactly the last written
/// value; every earlier write of the run is discarded unseen.
pub proof fn lemma_last_write_wins<T>(s: SlotSignal<T>, writes: Seq<T>)
    requires
        writes.len() > 0,
    ensures
        slot_after_writes(s, writes).slot == Some(writes.last()),
{
}

} // verus!
