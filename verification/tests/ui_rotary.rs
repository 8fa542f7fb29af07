use brew_core::control::MachineCommand;
use brew_core::ui::{
    next_mode, rotary_step, RotaryDirection, RotaryEvent, UIEditMode, UIStatus,
};

#[test]
fn rotation_updates_ui_before_any_command() {
    // Editing the pump duty cycle at 30: one detent clockwise moves the
    // edit snapshot to 35 while no command is emitted yet.
    let ui = UIStatus::new();
    assert_eq!(ui.edit_mode, UIEditMode::PumpDutyCycle);
    assert_eq!(ui.current_duty_cycle, 30);
    let (edited, cmd) = rotary_step(&ui, RotaryEvent::Rotate(RotaryDirection::Clockwise));
    assert_eq!(edited.current_duty_cycle, 35);
    assert!(cmd.is_none());
    // Only the confirmation emits the command, carrying the edited value.
    let (confirmed, cmd) = rotary_step(&edited, RotaryEvent::Confirm);
    assert_eq!(confirmed.current_duty_cycle, 35);
    assert_eq!(cmd, Some(MachineCommand::SetPumpDutyCycle(35)));
}

#[test]
fn counter_clockwise_decrements() {
    let ui = UIStatus::new();
    let (edited, cmd) = rotary_step(&ui, RotaryEvent::Rotate(RotaryDirection::CounterClockwise));
    assert_eq!(edited.current_duty_cycle, 25);
    assert!(cmd.is_none());
}

#[test]
fn edit_values_clamp_at_bounds() {
    let mut ui = UIStatus::new();
    ui.current_duty_cycle = 98;
    let (edited, _) = rotary_step(&ui, RotaryEvent::Rotate(RotaryDirection::Clockwise));
    assert_eq!(edited.current_duty_cycle, 100);
    let mut ui = UIStatus::new();
    ui.current_duty_cycle = 2;
    let (edited, _) = rotary_step(&ui, RotaryEvent::Rotate(RotaryDirection::CounterClockwise));
    assert_eq!(edited.current_duty_cycle, 0);
}

#[test]
fn mode_button_cycles_through_all_modes() {
    let m0 = UIEditMode::PumpDutyCycle;
    let m1 = next_mode(m0);
    let m2 = next_mode(m1);
    let m3 = next_mode(m2);
    let m4 = next_mode(m3);
    assert_eq!(m1, UIEditMode::BoilerTemperature);
    assert_eq!(m2, UIEditMode::PumpFlowRate);
    assert_eq!(m3, UIEditMode::PumpPressure);
    assert_eq!(m4, UIEditMode::PumpDutyCycle);
}

#[test]
fn confirm_emits_mode_specific_command() {
    let mut ui = UIStatus::new();
    ui.edit_mode = UIEditMode::BoilerTemperature;
    ui.current_boiler_temp = 9450;
    let (_, cmd) = rotary_step(&ui, RotaryEvent::Confirm);
    assert_eq!(cmd, Some(MachineCommand::SetBoilerTemperature(9450)));
    ui.edit_mode = UIEditMode::PumpFlowRate;
    ui.current_flow_rate = 500;
    let (_, cmd) = rotary_step(&ui, RotaryEvent::Confirm);
    assert_eq!(cmd, Some(MachineCommand::SetPumpFlowRate(500)));
    ui.edit_mode = UIEditMode::PumpPressure;
    ui.current_pressure = 900;
    let (_, cmd) = rotary_step(&ui, RotaryEvent::Confirm);
    assert_eq!(cmd, Some(MachineCommand::SetPumpPressure(900)));
}
