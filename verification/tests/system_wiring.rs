use brew_core::control::{
    controller_step, BoilerControlTarget, ControlOutputs, GroupBrewControlTarget, MachineCommand,
    SensorSnapshot,
};
use brew_core::display::render_lines;
use brew_core::sensor::{sensor_step, LinearScale};
use brew_core::system::{System, MAX_CELL_READERS, QUEUE_CAPACITY};
use brew_core::ui::{rotary_step, RotaryEvent, UIStatus};

#[test]
fn startup_graph_is_empty_and_bounded() {
    let sys = System::new(
        BoilerControlTarget::Off,
        BoilerControlTarget::Off,
        GroupBrewControlTarget::FixedDutyCycle(30),
    );
    assert_eq!(sys.command_queue.capacity, QUEUE_CAPACITY);
    assert_eq!(sys.status_queue.capacity, QUEUE_CAPACITY);
    assert_eq!(sys.ui_status_queue.capacity, QUEUE_CAPACITY);
    assert_eq!(sys.temp_cell.max_readers, MAX_CELL_READERS);
    assert_eq!(sys.temp_cell.version, 0);
    assert!(sys.heating_signal.slot.is_none());
    assert!(sys.bus.holder.is_none());
    assert!(sys.bus.trace.is_empty());
    assert!(!sys.controller.brewing);
}

#[test]
fn one_full_cycle_through_the_graph() {
    let mut sys = System::new(
        BoilerControlTarget::Off,
        BoilerControlTarget::Off,
        GroupBrewControlTarget::FixedDutyCycle(30),
    );
    // Sensor task: a conversion arrives over the bus and is published.
    assert!(sys.bus.transaction(0, true).is_ok());
    let probe = LinearScale { num: 1, den: 1, offset: -295 };
    let r: Result<(), u8> = sensor_step(&mut sys.temp_cell, &probe, Ok(9605));
    assert!(r.is_ok());
    // Input task: the operator confirms the edited duty; the command
    // enters the queue.
    let ui = UIStatus::new();
    let (ui, cmd) = rotary_step(&ui, RotaryEvent::Confirm);
    assert!(sys.command_queue.try_send(cmd.unwrap()).is_ok());
    assert!(sys.command_queue.try_send(MachineCommand::StartBrewing).is_ok());
    // Controller task: drains the commands in order, reads the latest
    // sensor value, publishes status.
    let mut controller_rx = sys.temp_cell.subscribe().unwrap();
    let temp = sys.temp_cell.try_read(&mut controller_rx).unwrap();
    let sensors = SensorSnapshot {
        boiler_temp: temp,
        boiler_pressure: None,
        pump_rpm: None,
        group_flow_rate: None,
    };
    let outputs = ControlOutputs { boiler_duty: 45, pump_duty: 30, boiler_pid: None, pump_pid: None };
    let mut state = sys.controller;
    while let Some(c) = sys.command_queue.try_receive() {
        let (next, status) = controller_step(&state, Some(c), &sensors, &outputs);
        state = next;
        assert!(sys.status_queue.try_send(status).is_ok());
    }
    assert!(state.brewing);
    // Display task: polls the status queue and renders.
    let mut latest = None;
    while let Some(s) = sys.status_queue.try_receive() {
        latest = Some(s);
    }
    let lines = render_lines(&latest.unwrap(), &ui);
    assert_eq!(lines[0].as_str(), "T: 93.10 C (Tgt 93)");
}
