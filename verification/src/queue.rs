//! Bounded command/status queue: an ordered, capacity-limited FIFO
//! connecting producers of discrete events (user input, control
//! decisions) to consumers.
//!
//! The queue itself never blocks: `try_send` reports a full queue to the
//! producer, which suspends and retries (producer-side backpressure, so
//! no command is ever dropped), and `try_receive` reports an empty queue
//! to the consumer. The blocking `send`/`receive` of the running system
//! are retry loops around these steps, driven by the task runtime.

use vstd::prelude::*;

verus! {

/// Fixed-capacity FIFO. The capacity is set once at creation and never
/// changes; the front of `items` is the oldest element.
pub struct BoundedQueue<T> {
    pub items: Vec<T>,
    pub capacity: usize,
}

impl<T> BoundedQueue<T> {
    /// Well-formed: at least one slot, and the contents never exceed the
    /// capacity fixed at creation.
    pub open spec fn wf(&self) -> bool {
        1 <= self.capacity && self.items@.len() <= self.capacity
    }

    /// The queued elements, oldest first.
    pub open spec fn contents(&self) -> Seq<T> {
        self.items@
    }

    pub open spec fn spec_is_full(&self) -> bool {
        self.items@.len() == self.capacity
    }

    pub fn new(capacity: usize) -> (q: Self)
        requires
            1 <= capacity,
        ensures
            q.wf(),
            q.capacity == capacity,
            q.contents() == Seq::<T>::empty(),
    {
        BoundedQueue { items: Vec::new(), capacity }
    }

    pub fn len(&self) -> (n: usize)
        ensures
            n == self.contents().len(),
    {
        self.items.len()
    }

    pub fn is_full(&self) -> (b: bool)
        ensures
            b == self.spec_is_full(),
    {
        self.items.len() == self.capacity
    }

    pub fn is_empty(&self) -> (b: bool)
        ensures
            b == (self.contents().len() == 0),
    {
        self.items.len() == 0
    }

    /// Non-blocking enqueue. Succeeds if and only if a slot is free; a
    /// full queue hands the value back untouched, so the producer can
    /// suspend and retry without losing it.
    pub fn try_send(&mut self, value: T) -> (r: Result<(), T>)
        requires
            old(self).wf(),
        ensures
            final(self).wf(),
            final(self).capacity == old(self).capacity,
            r is Ok <==> !old(self).spec_is_full(),
            !old(self).spec_is_full() ==> final(self).contents()
                == old(self).contents().push(value),
            old(self).spec_is_full() ==> (r matches Err(v) && v == value)
                && final(self).contents() == old(self).contents(),
    {
        if self.items.len() < self.capacity {
            self.items.push(value);
            Ok(())
        } else {
            Err(value)
        }
    }

    /// Non-blocking dequeue. Returns the oldest element if one is
    /// present; an empty queue leaves the state untouched.
    pub fn try_receive(&mut self) -> (r: Option<T>)
        requires
            old(self).wf(),
        ensures
            final(self).wf(),
            final(self).capacity == old(self).capacity,
            r is Some <==> old(self).contents().len() > 0,
            old(self).contents().len() > 0 ==> (r matches Some(v)
                && v == old(self).contents()[0])
                && final(self).contents() == old(self).contents().drop_first(),
            old(self).contents().len() == 0 ==> final(self).contents()
                == old(self).contents(),
    {
        if self.items.len() == 0 {
            None
        } else {
            Some(self.items.remove(0))
        }
    }
}

/// Contents after a producer has enqueued `sent`, one element at a time,
/// behind what was already pending — each step appending at the back, as
/// a successful `try_send` does.
pub open spec fn queue_after_sends<T>(pending: Seq<T>, sent: Seq<T>) -> Seq<T>
    decreases sent.len(),
{
    if sent.len() == 0 {
        pending
    } else {
        queue_after_sends(pending, sent.drop_last()).push(sent.last())
    }
}

/// Contents after a consumer has dequeued `n` elements — each step taking
/// the front, as a successful `try_receive` does.
pub open spec fn queue_after_receives<T>(contents: Seq<T>, n: int) -> Seq<T>
    decreases n,
{
    if n <= 0 {
        contents
    } else {
        queue_after_receives(contents, n - 1).drop_first()
    }
}

/// A run of sends is exactly concatenation at the back.
pub proof fn lemma_sends_append<T>(pending: Seq<T>, sent: Seq<T>)
    ensures
        queue_after_sends(pending, sent) == pending + sent,
    decreases sent.len(),
{
    if sent.len() == 0 {
        assert(queue_after_sends(pending, sent) =~= pending + sent);
    } else {
        lemma_sends_append(pending, sent.drop_last());
        assert(queue_after_sends(pending, sent) =~= pending + sent);
    }
}

/// A run of receives is exactly dropping from the front.
pub proof fn lemma_receives_skip<T>(contents: Seq<T>, n: int)
    requires
        0 <= n <= contents.len(),
    ensures
        queue_after_receives(contents, n) == contents.skip(n),
    decreases n,
{
    if n == 0 {
        assert(queue_after_receives(contents, n) =~= contents.skip(n));
    } else {
        lemma_receives_skip(contents, n - 1);
        assert(queue_after_receives(contents, n) =~= contents.skip(n));
    }
}

/// FIFO order (law): however many elements were already pending, a run of
/// sends is received back in send order — after `k` receives, the next
/// receive returns exactly the `k`-th element of the combined sequence.
/// Together with the `try_send` contract (which succeeds if and only if a
/// slot is free), this says a send past capacity waits, and nothing is
/// reordered, dropped or duplicated.
pub proof fn lemma_fifo_order<T>(pending: Seq<T>, sent: Seq<T>, k: int)
    requires
        0 <= k < pending.len() + sent.len(),
    ensures
        queue_after_receives(queue_after_sends(pending, sent), k).len() > 0,
        queue_after_receives(queue_after_sends(pending, sent), k)[0]
            == (pending + sent)[k],
{
    lemma_sends_append(pending, sent);
    lemma_receives_skip(pending + sent, k);
}

/// Backpressure relief (law): one receive on a full queue frees exactly
/// one slot, so the suspended producer's retry then succeeds.
pub proof fn lemma_receive_frees_slot<T>(q: BoundedQueue<T>)
    requires
        q.wf(),
        q.spec_is_full(),
    ensures
        q.contents().drop_first().len() < q.capacity,
{
}

} // verus!
