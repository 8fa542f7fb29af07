use brew_core::bus::{BusArbiter, BusError, BusEvent};

#[test]
fn transactions_never_interleave() {
    let mut bus = BusArbiter::new();
    // Two logical sensor devices on one bus issue their conversions in
    // turn; the observed event trace holds each transaction whole.
    assert!(bus.transaction(0, true).is_ok());
    assert!(bus.transaction(1, true).is_ok());
    assert_eq!(
        bus.trace,
        vec![
            BusEvent::Acquired(0),
            BusEvent::CsAsserted(0),
            BusEvent::Transferred(0),
            BusEvent::CsDeasserted(0),
            BusEvent::Released(0),
            BusEvent::Acquired(1),
            BusEvent::CsAsserted(1),
            BusEvent::Transferred(1),
            BusEvent::CsDeasserted(1),
            BusEvent::Released(1),
        ]
    );
}

#[test]
fn lock_excludes_second_device() {
    let mut bus = BusArbiter::new();
    assert!(bus.try_acquire(0));
    // While device 0 holds the bus, device 1 cannot begin.
    assert!(!bus.try_acquire(1));
    bus.assert_cs(0);
    assert!(!bus.try_acquire(1));
    assert!(bus.transfer(0, true).is_ok());
    bus.deassert_cs(0);
    bus.release(0);
    // Released: device 1 proceeds.
    assert!(bus.try_acquire(1));
    // Device 0's whole transaction stands unbroken in the trace.
    assert_eq!(
        &bus.trace[..5],
        &[
            BusEvent::Acquired(0),
            BusEvent::CsAsserted(0),
            BusEvent::Transferred(0),
            BusEvent::CsDeasserted(0),
            BusEvent::Released(0),
        ]
    );
}

#[test]
fn transport_error_does_not_poison_bus() {
    let mut bus = BusArbiter::new();
    // A failing transfer is surfaced to the caller...
    assert_eq!(bus.transaction(0, false), Err(BusError::Transport));
    // ...but the lock was released: the other device remains usable.
    assert!(bus.holder.is_none());
    assert_eq!(bus.transaction(1, true), Ok(()));
}
