use brew_core::control::{
    controller_step, handle_command, BoilerControlTarget, ControlOutputs, ControllerState,
    GroupBrewControlTarget, MachineCommand, SensorSnapshot, Status, DEFAULT_BREW_TEMP_CENTI,
};

fn idle_state() -> ControllerState {
    ControllerState {
        brewing: false,
        active_boiler_target: BoilerControlTarget::Off,
        idle_boiler_target: BoilerControlTarget::Off,
        brew_boiler_target: BoilerControlTarget::Off,
        group_target: GroupBrewControlTarget::FixedDutyCycle(30),
    }
}

fn quiet_outputs() -> ControlOutputs {
    ControlOutputs { boiler_duty: 0, pump_duty: 0, boiler_pid: None, pump_pid: None }
}

fn snapshot() -> SensorSnapshot {
    SensorSnapshot {
        boiler_temp: 9310,
        boiler_pressure: Some(925),
        pump_rpm: None,
        group_flow_rate: None,
    }
}

#[test]
fn start_brewing_from_off_heats() {
    // Boiler target is Off; StartBrewing arrives. The status published
    // after the decision cycle reflects a non-Off boiler control target.
    let (next, status): (ControllerState, Status) = controller_step(
        &idle_state(),
        Some(MachineCommand::StartBrewing),
        &snapshot(),
        &quiet_outputs(),
    );
    assert!(next.brewing);
    assert!(!matches!(status.config_brew_boiler_control_target, BoilerControlTarget::Off));
    match status.config_brew_boiler_control_target {
        BoilerControlTarget::Temperature(t, _) => assert_eq!(t, DEFAULT_BREW_TEMP_CENTI),
        other => panic!("unexpected target {:?}", other),
    }
}

#[test]
fn stop_brewing_restores_idle_target() {
    let started = handle_command(&idle_state(), MachineCommand::StartBrewing);
    let stopped = handle_command(&started, MachineCommand::StopBrewing);
    assert!(!stopped.brewing);
    assert_eq!(stopped.active_boiler_target, BoilerControlTarget::Off);
}

#[test]
fn set_pump_duty_clamps_to_hundred() {
    let next = handle_command(&idle_state(), MachineCommand::SetPumpDutyCycle(150));
    assert_eq!(next.group_target, GroupBrewControlTarget::FixedDutyCycle(100));
    let next = handle_command(&idle_state(), MachineCommand::SetPumpDutyCycle(35));
    assert_eq!(next.group_target, GroupBrewControlTarget::FixedDutyCycle(35));
}

#[test]
fn set_boiler_temperature_applies_while_brewing() {
    let started = handle_command(&idle_state(), MachineCommand::StartBrewing);
    let edited = handle_command(&started, MachineCommand::SetBoilerTemperature(9450));
    match edited.active_boiler_target {
        BoilerControlTarget::Temperature(t, _) => assert_eq!(t, 9450),
        other => panic!("unexpected target {:?}", other),
    }
}

#[test]
fn drain_applies_commands_in_arrival_order() {
    let mut q: brew_core::queue::BoundedQueue<MachineCommand> =
        brew_core::queue::BoundedQueue::new(10);
    assert!(q.try_send(MachineCommand::StartBrewing).is_ok());
    assert!(q.try_send(MachineCommand::SetPumpDutyCycle(10)).is_ok());
    assert!(q.try_send(MachineCommand::SetPumpDutyCycle(20)).is_ok());
    assert!(q.try_send(MachineCommand::StopBrewing).is_ok());
    let end = brew_core::control::drain_commands(&idle_state(), &mut q);
    assert!(q.is_empty());
    // The later duty edit and the later stop both won.
    assert_eq!(end.group_target, GroupBrewControlTarget::FixedDutyCycle(20));
    assert!(!end.brewing);
    assert_eq!(end.active_boiler_target, BoilerControlTarget::Off);
}

#[test]
fn status_reflects_sensors_and_outputs() {
    let outputs = ControlOutputs {
        boiler_duty: 45,
        pump_duty: 30,
        boiler_pid: None,
        pump_pid: None,
    };
    let (_, status) = controller_step(&idle_state(), None, &snapshot(), &outputs);
    assert_eq!(status.boiler_temp, 9310);
    assert_eq!(status.boiler_pressure, Some(925));
    assert_eq!(status.brew_boiler_duty_cycle, 45);
    assert_eq!(status.pump_duty_cycle, 30);
    assert_eq!(status.config_group_brew_control_target, GroupBrewControlTarget::FixedDutyCycle(30));
}
