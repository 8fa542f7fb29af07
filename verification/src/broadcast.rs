//! Broadcast state cell: a single-writer, multi-reader latest-value store
//! for a continuously sampled physical quantity (temperature, pressure,
//! pump speed, flow rate).
//!
//! The cell holds exactly the latest published value plus a monotonically
//! increasing version, never a backlog: publishing always succeeds and
//! never blocks, a slow reader skips intermediate values but never sees
//! them out of order or twice (lossy but monotonic). The full publish
//! history is carried as ghost state so the ordering laws can be stated;
//! the running system stores only the latest value. The blocking
//! `receive` of the running system is a retry loop around `try_read`,
//! driven by the task runtime.

use vstd::prelude::*;

verus! {

/// Latest-value store with a version counter. `history` is the ghost
/// record of every value ever published, in publish order; the version
/// equals its length.
pub struct BroadcastCell<T> {
    pub latest: Option<T>,
    pub version: u64,
    pub readers: usize,
    pub max_readers: usize,
    pub history: Ghost<Seq<T>>,
}

/// A reader's handle: the watermark of the last version it consumed.
pub struct CellReceiver {
    pub last_seen: u64,
}

impl<T> BroadcastCell<T> {
    /// Well-formed: the version counts the publishes, and the stored
    /// value is the most recent publish (or none before the first).
    pub open spec fn wf(&self) -> bool {
        &&& self.version as int == self.history@.len()
        &&& self.version > 0 ==> self.latest == Some(self.history@.last())
        &&& self.version == 0 ==> self.latest is None
        &&& self.readers <= self.max_readers
    }

    /// Created once at system initialization with a fixed maximum
    /// concurrent-reader bound.
    pub fn new(max_readers: usize) -> (c: Self)
        ensures
            c.wf(),
            c.latest is None,
            c.version == 0,
            c.readers == 0,
            c.max_readers == max_readers,
            c.history@ == Seq::<T>::empty(),
    {
        BroadcastCell {
            latest: None,
            version: 0,
            readers: 0,
            max_readers,
            history: Ghost(Seq::empty()),
        }
    }

    /// Non-blocking publish: overwrites the stored value and bumps the
    /// version. It has no failure mode and succeeds even when no reader
    /// is waiting — the value is retained for future reads.
    pub fn publish(&mut self, value: T)
        requires
            old(self).wf(),
            old(self).version < u64::MAX,
        ensures
            final(self).wf(),
            publish_rel(*old(self), value, *final(self)),
    {
        self.latest = Some(value);
        self.version = self.version + 1;
        proof {
            self.history@ = self.history@.push(value);
        }
    }

    /// Register one more reader. Called only during initialization;
    /// fails (and changes nothing) exactly when the fixed reader bound
    /// is already reached.
    pub fn subscribe(&mut self) -> (r: Option<CellReceiver>)
        requires
            old(self).wf(),
        ensures
            final(self).wf(),
            r is Some <==> old(self).readers < old(self).max_readers,
            old(self).readers < old(self).max_readers ==> {
                &&& r == Some((CellReceiver { last_seen: 0u64 }))
                &&& final(self).readers == old(self).readers + 1
            },
            old(self).readers >= old(self).max_readers ==> *final(self) == *old(self),
            final(self).latest == old(self).latest,
            final(self).version == old(self).version,
            final(self).history == old(self).history,
            final(self).max_readers == old(self).max_readers,
    {
        if self.readers < self.max_readers {
            self.readers = self.readers + 1;
            Some(CellReceiver { last_seen: 0 })
        } else {
            None
        }
    }
}

impl<T: Copy> BroadcastCell<T> {
    /// Non-blocking read step. Returns the stored value exactly when a
    /// version newer than the receiver's watermark is available, and
    /// advances the watermark to it; a receiver that has already consumed
    /// the current version gets nothing and is left unchanged. Never
    /// returns a value the receiver has already consumed, and never
    /// blocks the publisher.
    pub fn try_read(&self, rx: &mut CellReceiver) -> (r: Option<T>)
        requires
            self.wf(),
            old(rx).last_seen <= self.version,
        ensures
            r is Some <==> old(rx).last_seen < self.version,
            old(rx).last_seen < self.version ==> {
                &&& r == self.latest
                &&& final(rx).last_seen == self.version
                &&& read_observes(*self, old(rx).last_seen, final(rx).last_seen, self.history@.last())
            },
            old(rx).last_seen == self.version ==> *final(rx) == *old(rx),
    {
        if rx.last_seen < self.version {
            rx.last_seen = self.version;
            match self.latest {
                Some(v) => Some(v),
                None => None,
            }
        } else {
            None
        }
    }
}

/// How one publish changes the cell: the new value is stored, the version
/// is bumped, the ghost history grows by the published value, and the
/// reader bookkeeping is untouched.
pub open spec fn publish_rel<T>(pre: BroadcastCell<T>, value: T, post: BroadcastCell<T>) -> bool {
    &&& post.latest == Some(value)
    &&& post.version == pre.version + 1
    &&& post.history@ == pre.history@.push(value)
    &&& post.readers == pre.readers
    &&& post.max_readers == pre.max_readers
}

/// The cell `b` is the cell `a` after zero or more further publishes.
pub open spec fn evolves<T>(a: BroadcastCell<T>, b: BroadcastCell<T>) -> bool {
    a.history@.is_prefix_of(b.history@)
}

/// A successful read on cell state `c` moved the watermark from
/// `w_before` to `w_after` and returned `x`.
pub open spec fn read_observes<T>(c: BroadcastCell<T>, w_before: u64, w_after: u64, x: T) -> bool {
    &&& w_before < c.version
    &&& w_after == c.version
    &&& Some(x) == c.latest
}

/// Each publish step only extends the history: the cell evolves.
pub proof fn lemma_publish_evolves<T>(pre: BroadcastCell<T>, value: T, post: BroadcastCell<T>)
    requires
        publish_rel(pre, value, post),
    ensures
        evolves(pre, post),
{
    assert(pre.history@ =~= post.history@.take(pre.history@.len() as int));
}

/// Evolution chains across any number of publishes.
pub proof fn lemma_evolves_transitive<T>(
    a: BroadcastCell<T>,
    b: BroadcastCell<T>,
    c: BroadcastCell<T>,
)
    requires
        evolves(a, b),
        evolves(b, c),
    ensures
        evolves(a, c),
{
    assert(a.history@ =~= c.history@.take(a.history@.len() as int));
}

/// Monotonic, no-reordering observation (law): take two successful reads
/// by one receiver, the first against cell state `a` and the second
/// against a later state `b` of the same cell. The observed versions
/// strictly increase, and each observed value is exactly the publish with
/// that version — so the observed sequence is a subsequence of the
/// publish sequence: nothing reordered, nothing duplicated, values only
/// skipped.
pub proof fn lemma_reader_monotonic<T>(
    a: BroadcastCell<T>,
    b: BroadcastCell<T>,
    w0: u64,
    w1: u64,
    w2: u64,
    x1: T,
    x2: T,
)
    requires
        a.wf(),
        b.wf(),
        evolves(a, b),
        read_observes(a, w0, w1, x1),
        read_observes(b, w1, w2, x2),
    ensures
        w1 < w2,
        x1 == b.history@[w1 as int - 1],
        x2 == b.history@[w2 as int - 1],
{
    assert(a.history@ =~= b.history@.take(a.history@.len() as int));
    assert(b.history@[w1 as int - 1] == a.history@[w1 as int - 1]);
}

/// Evolution chains along a whole run of cell states.
pub proof fn lemma_evolves_chain<T>(cs: Seq<BroadcastCell<T>>, i: int, j: int)
    requires
        0 <= i <= j < cs.len(),
        forall|k: int| 0 <= k < cs.len() - 1 ==> #[trigger] evolves(cs[k], cs[k + 1]),
    ensures
        evolves(cs[i], cs[j]),
    decreases j - i,
{
    if i == j {
        assert(cs[i].history@ =~= cs[i].history@.take(cs[i].history@.len() as int));
    } else {
        lemma_evolves_chain(cs, i, j - 1);
        let k = j - 1;
        assert(evolves(cs[k], cs[k + 1]));
        lemma_evolves_transitive(cs[i], cs[j - 1], cs[j]);
    }
}

/// Monotonic observation over a whole run (law): let a reader make any
/// number of successful reads, the `k`-th against cell state `cs[k]`,
/// carrying its watermark from `ws[k]` to `ws[k + 1]` and observing
/// `xs[k]`, while the cell only ever evolves by publishes. Then every
/// read strictly raises the watermark, and each observed value is exactly
/// the publish with its version in the final history — the observed
/// sequence is a subsequence of the publish sequence, in publish order,
/// with no duplication.
pub proof fn lemma_run_observations<T>(cs: Seq<BroadcastCell<T>>, ws: Seq<u64>, xs: Seq<T>, i: int)
    requires
        cs.len() >= 1,
        ws.len() == cs.len() + 1,
        xs.len() == cs.len(),
        forall|k: int| 0 <= k < cs.len() ==> (#[trigger] cs[k]).wf(),
        forall|k: int| 0 <= k < cs.len() - 1 ==> #[trigger] evolves(cs[k], cs[k + 1]),
        forall|k: int| 0 <= k < cs.len() ==> #[trigger] read_observes(
            cs[k],
            ws[k],
            ws[k + 1],
            xs[k],
        ),
        0 <= i < cs.len(),
    ensures
        ws[i] < ws[i + 1],
        xs[i] == cs[cs.len() - 1].history@[ws[i + 1] as int - 1],
{
    assert(cs[i].wf());
    assert(read_observes(cs[i], ws[i], ws[i + 1], xs[i]));
    lemma_evolves_chain(cs, i, cs.len() - 1);
    let last = cs[cs.len() - 1];
    assert(cs[i].history@ =~= last.history@.take(cs[i].history@.len() as int));
    assert(xs[i] == cs[i].history@[ws[i + 1] as int - 1]);
}

/// Idempotence up to the version counter (law): publishing the same value
/// twice leaves the cell observably as after publishing it once — the
/// stored value (what any reader behind the watermark observes) is the
/// same — and only the version counter differs, by exactly one.
pub proof fn lemma_publish_idempotent<T>(
    c0: BroadcastCell<T>,
    c1: BroadcastCell<T>,
    c2: BroadcastCell<T>,
    value: T,
)
    requires
        c0.wf(),
        publish_rel(c0, value, c1),
        publish_rel(c1, value, c2),
    ensures
        c1.latest == Some(value),
        c2.latest == c1.latest,
        c2.version == c1.version + 1,
        c2.readers == c1.readers,
{
}

} // verus!
