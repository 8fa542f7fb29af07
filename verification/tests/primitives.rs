use brew_core::broadcast::BroadcastCell;
use brew_core::control::MachineCommand;
use brew_core::queue::BoundedQueue;
use brew_core::signal::SlotSignal;

#[test]
fn broadcast_reader_sees_latest_only() {
    let mut cell: BroadcastCell<i32> = BroadcastCell::new(3);
    let mut rx = cell.subscribe().unwrap();
    cell.publish(9250);
    cell.publish(9310);
    assert_eq!(cell.try_read(&mut rx), Some(9310));
    assert_eq!(cell.try_read(&mut rx), None);
}

#[test]
fn broadcast_versions_monotonic() {
    let mut cell: BroadcastCell<i32> = BroadcastCell::new(3);
    let mut rx = cell.subscribe().unwrap();
    assert_eq!(cell.try_read(&mut rx), None);
    cell.publish(1);
    assert_eq!(cell.try_read(&mut rx), Some(1));
    assert_eq!(rx.last_seen, 1);
    cell.publish(2);
    cell.publish(3);
    assert_eq!(cell.try_read(&mut rx), Some(3));
    assert_eq!(rx.last_seen, 3);
    assert_eq!(cell.try_read(&mut rx), None);
}

#[test]
fn broadcast_readers_have_independent_watermarks() {
    let mut cell: BroadcastCell<i32> = BroadcastCell::new(3);
    let mut fast = cell.subscribe().unwrap();
    let mut slow = cell.subscribe().unwrap();
    cell.publish(10);
    assert_eq!(cell.try_read(&mut fast), Some(10));
    cell.publish(20);
    assert_eq!(cell.try_read(&mut fast), Some(20));
    // The slow reader missed 10 but still sees the latest value once,
    // never an older one afterwards.
    assert_eq!(cell.try_read(&mut slow), Some(20));
    assert_eq!(cell.try_read(&mut slow), None);
    assert_eq!(cell.try_read(&mut fast), None);
}

#[test]
fn broadcast_subscribe_bound() {
    let mut cell: BroadcastCell<i32> = BroadcastCell::new(1);
    assert!(cell.subscribe().is_some());
    assert!(cell.subscribe().is_none());
}

#[test]
fn broadcast_publish_idempotent() {
    let mut once: BroadcastCell<i32> = BroadcastCell::new(3);
    let mut twice: BroadcastCell<i32> = BroadcastCell::new(3);
    let mut rx_once = once.subscribe().unwrap();
    let mut rx_twice = twice.subscribe().unwrap();
    once.publish(42);
    twice.publish(42);
    twice.publish(42);
    assert_eq!(once.try_read(&mut rx_once), twice.try_read(&mut rx_twice));
    assert_eq!(once.version + 1, twice.version);
}

#[test]
fn signal_last_write_wins() {
    let mut sig: SlotSignal<u8> = SlotSignal::new();
    sig.write(30);
    sig.write(45);
    assert_eq!(sig.try_take(), Some(45));
    assert_eq!(sig.try_take(), None);
}

#[test]
fn queue_fifo_order() {
    let mut q: BoundedQueue<i32> = BoundedQueue::new(10);
    assert!(q.try_send(1).is_ok());
    assert!(q.try_send(2).is_ok());
    assert!(q.try_send(3).is_ok());
    assert_eq!(q.try_receive(), Some(1));
    assert_eq!(q.try_receive(), Some(2));
    assert_eq!(q.try_receive(), Some(3));
    assert_eq!(q.try_receive(), None);
}

#[test]
fn queue_backpressure_no_command_lost() {
    let mut q: BoundedQueue<MachineCommand> = BoundedQueue::new(10);
    for i in 0..10u8 {
        assert!(q.try_send(MachineCommand::SetPumpDutyCycle(i)).is_ok());
    }
    // The eleventh send finds the queue full: the command is handed back,
    // not dropped, and the producer waits for the consumer.
    let eleventh = MachineCommand::StartBrewing;
    let held = match q.try_send(eleventh) {
        Ok(()) => panic!("send past capacity must not succeed"),
        Err(c) => c,
    };
    assert_eq!(held, eleventh);
    // The controller drains one; the retry then succeeds.
    assert_eq!(q.try_receive(), Some(MachineCommand::SetPumpDutyCycle(0)));
    assert!(q.try_send(held).is_ok());
    // Everything arrives, in order.
    for i in 1..10u8 {
        assert_eq!(q.try_receive(), Some(MachineCommand::SetPumpDutyCycle(i)));
    }
    assert_eq!(q.try_receive(), Some(MachineCommand::StartBrewing));
    assert_eq!(q.try_receive(), None);
}
