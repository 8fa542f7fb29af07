//! The supervisor's wiring: the fixed, statically-known topology of
//! cells, signals, queues and the bus arbiter, created once at startup
//! and never destroyed or reallocated. Sensor values flow through the
//! broadcast cells into the controller; commands flow from the input
//! tasks through the command queue into the controller; the controller's
//! decisions flow to the actuators via the slot signal and to the
//! display via the status queue. The hardware bring-up around this, and
//! the permanent join of the task loops, live outside the library.

use crate::broadcast::BroadcastCell;
use crate::bus::BusArbiter;
use crate::control::{
    BoilerControlTarget, ControllerState, GroupBrewControlTarget, MachineCommand, Status,
};
use crate::queue::BoundedQueue;
use crate::signal::SlotSignal;
use crate::ui::UIStatus;
use vstd::prelude::*;

verus! {

/// Fixed maximum of concurrent readers per broadcast cell; subscribing
/// past it is an initialization-time error.
pub const MAX_CELL_READERS: usize = 3;

/// Fixed capacity of each event queue.
pub const QUEUE_CAPACITY: usize = 10;

/// Chip-select identities of the logical devices sharing the internal
/// serial bus.
pub const TEMP_SENSOR_DEVICE: u8 = 0;

pub const PRESSURE_SENSOR_DEVICE: u8 = 1;

/// The whole statically-allocated resource graph. Each broadcast cell
/// carries one continuously sampled quantity in hundredths of its unit
/// (the pump speed cell carries whole revolutions per minute); the slot
/// signal carries the heating element's duty target; the three queues
/// carry the disjoint event kinds, never merged, preserving the
/// separation of user intent, machine telemetry and UI state.
pub struct System {
    pub temp_cell: BroadcastCell<i32>,
    pub pressure_cell: BroadcastCell<i32>,
    pub pump_rpm_cell: BroadcastCell<i32>,
    pub flow_cell: BroadcastCell<i32>,
    pub heating_signal: SlotSignal<u8>,
    pub command_queue: BoundedQueue<MachineCommand>,
    pub status_queue: BoundedQueue<Status>,
    pub ui_status_queue: BoundedQueue<UIStatus>,
    pub bus: BusArbiter,
    pub controller: ControllerState,
}

impl System {
    /// Every component well-formed, with the fixed structural bounds.
    pub open spec fn wf(&self) -> bool {
        &&& self.temp_cell.wf() && self.temp_cell.max_readers == MAX_CELL_READERS
        &&& self.pressure_cell.wf() && self.pressure_cell.max_readers == MAX_CELL_READERS
        &&& self.pump_rpm_cell.wf() && self.pump_rpm_cell.max_readers == MAX_CELL_READERS
        &&& self.flow_cell.wf() && self.flow_cell.max_readers == MAX_CELL_READERS
        &&& self.command_queue.wf() && self.command_queue.capacity == QUEUE_CAPACITY
        &&& self.status_queue.wf() && self.status_queue.capacity == QUEUE_CAPACITY
        &&& self.ui_status_queue.wf() && self.ui_status_queue.capacity == QUEUE_CAPACITY
        &&& self.bus.wf()
    }

    /// Build the resource graph once, at startup: every cell unpublished,
    /// every queue and the signal empty, the bus free, the controller not
    /// brewing and holding the configured targets.
    pub fn new(
        idle_boiler_target: BoilerControlTarget,
        brew_boiler_target: BoilerControlTarget,
        group_target: GroupBrewControlTarget,
    ) -> (r: System)
        ensures
            r.wf(),
            r.temp_cell.version == 0,
            r.pressure_cell.version == 0,
            r.pump_rpm_cell.version == 0,
            r.flow_cell.version == 0,
            r.heating_signal.slot is None,
            r.command_queue.contents() == Seq::<MachineCommand>::empty(),
            r.status_queue.contents() == Seq::<Status>::empty(),
            r.ui_status_queue.contents() == Seq::<UIStatus>::empty(),
            r.bus.holder is None,
            r.bus.trace@ == Seq::<crate::bus::BusEvent>::empty(),
            !r.controller.brewing,
            r.controller.active_boiler_target == idle_boiler_target,
            r.controller.idle_boiler_target == idle_boiler_target,
            r.controller.brew_boiler_target == brew_boiler_target,
            r.controller.group_target == group_target,
    {
        System {
            temp_cell: BroadcastCell::new(MAX_CELL_READERS),
            pressure_cell: BroadcastCell::new(MAX_CELL_READERS),
            pump_rpm_cell: BroadcastCell::new(MAX_CELL_READERS),
            flow_cell: BroadcastCell::new(MAX_CELL_READERS),
            heating_signal: SlotSignal::new(),
            command_queue: BoundedQueue::new(QUEUE_CAPACITY),
            status_queue: BoundedQueue::new(QUEUE_CAPACITY),
            ui_status_queue: BoundedQueue::new(QUEUE_CAPACITY),
            bus: BusArbiter::new(),
            controller: ControllerState {
                brewing: false,
                active_boiler_target: idle_boiler_target,
                idle_boiler_target,
                brew_boiler_target,
                group_target,
            },
        }
    }
}

} // verus!
