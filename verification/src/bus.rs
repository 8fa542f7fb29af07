//! Exclusive bus arbiter: a mutual-exclusion wrapper around a serial bus
//! shared by several logical devices, each bound to its own chip-select
//! line. A transaction acquires the bus lock, asserts the device's
//! chip-select, transfers, deasserts and releases — and no other device
//! can interleave its own chip-select assertion while the lock is held.
//!
//! The arbiter records every step in an event trace; the trace is the
//! subject of the no-interleaving law. A transport error during the
//! transfer is surfaced to the caller, but chip-select is still
//! deasserted and the lock released (no poisoning), so other devices
//! remain usable. Fairness between contending devices is not promised,
//! only mutual exclusion; a blocked device retries `try_acquire` at its
//! next turn of the cooperative scheduler.

use vstd::prelude::*;

verus! {

/// One observable step on the shared bus, tagged with the logical device
/// (its chip-select line) that performed it.
#[derive(Clone, Copy, Debug, PartialEq, Eq, Structural)]
pub enum BusEvent {
    Acquired(u8),
    CsAsserted(u8),
    Transferred(u8),
    CsDeasserted(u8),
    Released(u8),
}

/// A transport-level failure during the transfer step of a transaction.
#[derive(Clone, Copy, Debug, PartialEq, Eq, Structural)]
pub enum BusError {
    Transport,
}

pub open spec fn device_of(e: BusEvent) -> u8 {
    match e {
        BusEvent::Acquired(d) => d,
        BusEvent::CsAsserted(d) => d,
        BusEvent::Transferred(d) => d,
        BusEvent::CsDeasserted(d) => d,
        BusEvent::Released(d) => d,
    }
}

/// Which device holds the lock after this trace: the device of the last
/// unmatched acquisition, if any.
pub open spec fn holder_after(log: Seq<BusEvent>) -> Option<u8>
    decreases log.len(),
{
    if log.len() == 0 {
        None
    } else {
        match log.last() {
            BusEvent::Acquired(d) => Some(d),
            BusEvent::Released(_) => None,
            _ => holder_after(log.drop_last()),
        }
    }
}

/// An event is legal after `prefix`: a device acquires only a free lock,
/// and every other step is made only by the current lock holder.
pub open spec fn event_ok(prefix: Seq<BusEvent>, e: BusEvent) -> bool {
    match e {
        BusEvent::Acquired(_) => holder_after(prefix) is None,
        _ => holder_after(prefix) == Some(device_of(e)),
    }
}

/// Every event of the trace was legal when it happened.
pub open spec fn log_wf(log: Seq<BusEvent>) -> bool {
    forall|i: int| 0 <= i < log.len() ==> #[trigger] event_ok(log.take(i), log[i])
}

/// The five steps of one complete transaction by `device`, in order.
pub open spec fn transaction_events(device: u8) -> Seq<BusEvent> {
    seq![
        BusEvent::Acquired(device),
        BusEvent::CsAsserted(device),
        BusEvent::Transferred(device),
        BusEvent::CsDeasserted(device),
        BusEvent::Released(device),
    ]
}

proof fn lemma_holder_after_push(log: Seq<BusEvent>, e: BusEvent)
    ensures
        holder_after(log.push(e)) == (match e {
            BusEvent::Acquired(d) => Some(d),
            BusEvent::Released(_) => None::<u8>,
            _ => holder_after(log),
        }),
{
    assert(log.push(e).last() == e);
    assert(log.push(e).drop_last() =~= log);
}

proof fn lemma_log_wf_push(log: Seq<BusEvent>, e: BusEvent)
    requires
        log_wf(log),
        event_ok(log, e),
    ensures
        log_wf(log.push(e)),
{
    let l2 = log.push(e);
    assert forall|i: int| 0 <= i < l2.len() implies #[trigger] event_ok(l2.take(i), l2[i]) by {
        if i < log.len() {
            assert(l2.take(i) =~= log.take(i));
            assert(event_ok(log.take(i), log[i]));
        } else {
            assert(l2.take(i) =~= log);
        }
    }
}

/// The arbiter: the current lock holder plus the trace of every step
/// performed on the bus since startup.
pub struct BusArbiter {
    pub holder: Option<u8>,
    pub trace: Vec<BusEvent>,
}

impl BusArbiter {
    /// Well-formed: the recorded holder matches the trace, and the trace
    /// is a legal serialization.
    pub open spec fn wf(&self) -> bool {
        &&& self.holder == holder_after(self.trace@)
        &&& log_wf(self.trace@)
    }

    pub fn new() -> (b: Self)
        ensures
            b.wf(),
            b.holder is None,
            b.trace@ == Seq::<BusEvent>::empty(),
    {
        BusArbiter { holder: None, trace: Vec::new() }
    }

    /// Try to take the exclusive lock for `device`. Succeeds exactly when
    /// no transaction is in progress; a contending device retries at its
    /// next scheduling turn.
    pub fn try_acquire(&mut self, device: u8) -> (r: bool)
        requires
            old(self).wf(),
        ensures
            final(self).wf(),
            r <==> old(self).holder is None,
            r ==> final(self).holder == Some(device) && final(self).trace@
                == old(self).trace@.push(BusEvent::Acquired(device)),
            !r ==> *final(self) == *old(self),
    {
        match self.holder {
            None => {
                proof {
                    lemma_log_wf_push(self.trace@, BusEvent::Acquired(device));
                    lemma_holder_after_push(self.trace@, BusEvent::Acquired(device));
                }
                self.trace.push(BusEvent::Acquired(device));
                self.holder = Some(device);
                true
            },
            Some(_) => false,
        }
    }

    /// Assert the device's chip-select. Legal only while that device
    /// holds the lock.
    pub fn assert_cs(&mut self, device: u8)
        requires
            old(self).wf(),
            old(self).holder == Some(device),
        ensures
            final(self).wf(),
            final(self).holder == old(self).holder,
            final(self).trace@ == old(self).trace@.push(BusEvent::CsAsserted(device)),
    {
        proof {
            lemma_log_wf_push(self.trace@, BusEvent::CsAsserted(device));
            lemma_holder_after_push(self.trace@, BusEvent::CsAsserted(device));
        }
        self.trace.push(BusEvent::CsAsserted(device));
    }

    /// Record the transfer step. The byte exchange itself happens in the
    /// hardware; its outcome arrives as `ok` and is surfaced to the
    /// caller. The event is recorded, and the lock stays held, either
    /// way.
    pub fn transfer(&mut self, device: u8, ok: bool) -> (r: Result<(), BusError>)
        requires
            old(self).wf(),
            old(self).holder == Some(device),
        ensures
            final(self).wf(),
            final(self).holder == old(self).holder,
            final(self).trace@ == old(self).trace@.push(BusEvent::Transferred(device)),
            r is Ok <==> ok,
            !ok ==> r == Err::<(), BusError>(BusError::Transport),
    {
        proof {
            lemma_log_wf_push(self.trace@, BusEvent::Transferred(device));
            lemma_holder_after_push(self.trace@, BusEvent::Transferred(device));
        }
        self.trace.push(BusEvent::Transferred(device));
        if ok {
            Ok(())
        } else {
            Err(BusError::Transport)
        }
    }

    /// Deassert the device's chip-select, still under the lock.
    pub fn deassert_cs(&mut self, device: u8)
        requires
            old(self).wf(),
            old(self).holder == Some(device),
        ensures
            final(self).wf(),
            final(self).holder == old(self).holder,
            final(self).trace@ == old(self).trace@.push(BusEvent::CsDeasserted(device)),
    {
        proof {
            lemma_log_wf_push(self.trace@, BusEvent::CsDeasserted(device));
            lemma_holder_after_push(self.trace@, BusEvent::CsDeasserted(device));
        }
        self.trace.push(BusEvent::CsDeasserted(device));
    }

    /// Release the lock. Always reached, even after a failed transfer, so
    /// an error on one device never poisons the bus for the others.
    pub fn release(&mut self, device: u8)
        requires
            old(self).wf(),
            old(self).holder == Some(device),
        ensures
            final(self).wf(),
            final(self).holder is None,
            final(self).trace@ == old(self).trace@.push(BusEvent::Released(device)),
    {
        proof {
            lemma_log_wf_push(self.trace@, BusEvent::Released(device));
            lemma_holder_after_push(self.trace@, BusEvent::Released(device));
        }
        self.trace.push(BusEvent::Released(device));
        self.holder = None;
    }

    /// One whole transaction for `device`, run while the bus is free:
    /// acquire, assert chip-select, transfer, deassert, release, as one
    /// unit no other device can interleave. A transport failure (`ok`
    /// false) is surfaced, but chip-select is still deasserted and the
    /// lock released.
    pub fn transaction(&mut self, device: u8, ok: bool) -> (r: Result<(), BusError>)
        requires
            old(self).wf(),
            old(self).holder is None,
        ensures
            final(self).wf(),
            final(self).holder is None,
            final(self).trace@ == old(self).trace@ + transaction_events(device),
            r is Ok <==> ok,
            !ok ==> r == Err::<(), BusError>(BusError::Transport),
    {
        let _locked = self.try_acquire(device);
        self.assert_cs(device);
        let outcome = self.transfer(device, ok);
        self.deassert_cs(device);
        self.release(device);
        proof {
            assert(self.trace@ =~= old(self).trace@ + transaction_events(device));
        }
        outcome
    }
}

proof fn lemma_holder_persists(log: Seq<BusEvent>, i: int, j: int, a: u8)
    requires
        log_wf(log),
        0 <= i,
        i < j <= log.len(),
        log[i] == BusEvent::Acquired(a),
        forall|m: int| i < m < j ==> log[m] != BusEvent::Released(a),
    ensures
        holder_after(log.take(j)) == Some(a),
    decreases j,
{
    if j == i + 1 {
        assert(log.take(j).last() == log[i]);
    } else {
        lemma_holder_persists(log, i, j - 1, a);
        assert(event_ok(log.take(j - 1), log[j - 1]));
        assert(log.take(j).last() == log[j - 1]);
        assert(log.take(j).drop_last() =~= log.take(j - 1));
    }
}

/// Mutual exclusion (law): in any legal trace, between a device's
/// acquisition of the lock and its release of it, every event on the bus
/// — chip-select assertion, transfer, deassertion — belongs to that
/// device. No transaction is ever split by another device's chip-select,
/// under arbitrary suspension points inside the transaction.
pub proof fn lemma_no_interleaving(log: Seq<BusEvent>, i: int, j: int, a: u8)
    requires
        log_wf(log),
        0 <= i < j < log.len(),
        log[i] == BusEvent::Acquired(a),
        forall|m: int| i < m < j ==> log[m] != BusEvent::Released(a),
    ensures
        device_of(log[j]) == a,
{
    lemma_holder_persists(log, i, j, a);
    assert(event_ok(log.take(j), log[j]));
}

/// Corollary for chip-select in particular: while device `a`'s
/// transaction is open, any chip-select assertion on the bus is `a`'s
/// own — another device's transaction can never split it.
pub proof fn lemma_no_foreign_chip_select(log: Seq<BusEvent>, i: int, j: int, a: u8, b: u8)
    requires
        log_wf(log),
        0 <= i < j < log.len(),
        log[i] == BusEvent::Acquired(a),
        forall|m: int| i < m < j ==> log[m] != BusEvent::Released(a),
        log[j] == BusEvent::CsAsserted(b),
    ensures
        b == a,
{
    lemma_no_interleaving(log, i, j, a);
}

} // verus!
