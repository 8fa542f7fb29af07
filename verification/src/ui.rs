//! The input/rotary task's state machine over edit modes. A button press
//! advances the mode cyclically; encoder rotation adjusts the mode's
//! scalar by a fixed step within fixed bounds; a confirmation emits a
//! command carrying the edited value. The updated edit snapshot is
//! returned — and published — on every tick, independent of
//! confirmation, so the display always shows live editing feedback.

use crate::control::MachineCommand;
use vstd::prelude::*;

verus! {

/// Pump duty cycle step and bounds, in whole percent.
pub const DUTY_STEP: u8 = 5;

pub const DUTY_MAX: u8 = 100;

/// Boiler temperature step and bounds, in centi-degrees.
pub const TEMP_STEP: i32 = 50;

pub const TEMP_MAX: i32 = 13000;

/// Flow rate step and bounds, in centi-millilitres per second.
pub const FLOW_STEP: i32 = 10;

pub const FLOW_MAX: i32 = 2000;

/// Pressure step and bounds, in centi-bar.
pub const PRESSURE_STEP: i32 = 10;

pub const PRESSURE_MAX: i32 = 1500;

/// Which parameter the operator is editing.
#[derive(Clone, Copy, Debug, PartialEq, Eq, Structural)]
pub enum UIEditMode {
    PumpDutyCycle,
    BoilerTemperature,
    PumpFlowRate,
    PumpPressure,
}

/// Immutable snapshot of the current edit state. Produced only by the
/// rotary task; consumed by the display.
#[derive(Clone, Copy, Debug, PartialEq, Eq)]
pub struct UIStatus {
    pub edit_mode: UIEditMode,
    pub current_duty_cycle: u8,
    pub current_boiler_temp: i32,
    pub current_flow_rate: i32,
    pub current_pressure: i32,
}

#[derive(Clone, Copy, Debug, PartialEq, Eq, Structural)]
pub enum RotaryDirection {
    Clockwise,
    CounterClockwise,
}

/// One debounced input edge handed to the state machine: a detent of the
/// encoder, the mode-advance button, or the confirmation action.
#[derive(Clone, Copy, Debug, PartialEq, Eq, Structural)]
pub enum RotaryEvent {
    Rotate(RotaryDirection),
    ModeButton,
    Confirm,
}

impl UIStatus {
    /// All edited values within their fixed bounds.
    pub open spec fn wf(&self) -> bool {
        &&& self.current_duty_cycle <= DUTY_MAX
        &&& 0 <= self.current_boiler_temp <= TEMP_MAX
        &&& 0 <= self.current_flow_rate <= FLOW_MAX
        &&& 0 <= self.current_pressure <= PRESSURE_MAX
    }

    /// The edit state at startup: editing the pump duty cycle, with the
    /// configured initial duty and brew temperature and the rates at
    /// their lower bounds.
    pub fn new() -> (r: Self)
        ensures
            r.wf(),
            r.edit_mode == UIEditMode::PumpDutyCycle,
            r.current_duty_cycle == 30u8,
            r.current_boiler_temp == 9300i32,
            r.current_flow_rate == 0i32,
            r.current_pressure == 0i32,
    {
        UIStatus {
            edit_mode: UIEditMode::PumpDutyCycle,
            current_duty_cycle: 30,
            current_boiler_temp: 9300,
            current_flow_rate: 0,
            current_pressure: 0,
        }
    }
}

/// The cyclic order of the edit modes.
pub open spec fn spec_next_mode(m: UIEditMode) -> UIEditMode {
    match m {
        UIEditMode::PumpDutyCycle => UIEditMode::BoilerTemperature,
        UIEditMode::BoilerTemperature => UIEditMode::PumpFlowRate,
        UIEditMode::PumpFlowRate => UIEditMode::PumpPressure,
        UIEditMode::PumpPressure => UIEditMode::PumpDutyCycle,
    }
}

pub fn next_mode(m: UIEditMode) -> (r: UIEditMode)
    ensures
        r == spec_next_mode(m),
{
    match m {
        UIEditMode::PumpDutyCycle => UIEditMode::BoilerTemperature,
        UIEditMode::BoilerTemperature => UIEditMode::PumpFlowRate,
        UIEditMode::PumpFlowRate => UIEditMode::PumpPressure,
        UIEditMode::PumpPressure => UIEditMode::PumpDutyCycle,
    }
}

/// One step up or down, clamped to `[0, hi]`.
pub open spec fn spec_stepped(v: int, step: int, hi: int, up: bool) -> int {
    if up {
        if v + step > hi {
            hi
        } else {
            v + step
        }
    } else {
        if v - step < 0 {
            0
        } else {
            v - step
        }
    }
}

fn stepped_i32(v: i32, step: i32, hi: i32, up: bool) -> (r: i32)
    requires
        0 <= v <= hi,
        0 < step,
        hi <= 1000000,
        step <= hi,
    ensures
        r as int == spec_stepped(v as int, step as int, hi as int, up),
        0 <= r <= hi,
{
    if up {
        if v + step > hi {
            hi
        } else {
            v + step
        }
    } else {
        if v < step {
            0
        } else {
            v - step
        }
    }
}

/// The edit snapshot after one encoder detent: the active mode's value
/// moves by its step, clamped to its bounds; everything else is
/// untouched.
pub open spec fn spec_rotated(ui: UIStatus, dir: RotaryDirection) -> UIStatus {
    let up = dir is Clockwise;
    match ui.edit_mode {
        UIEditMode::PumpDutyCycle => UIStatus {
            current_duty_cycle: spec_stepped(
                ui.current_duty_cycle as int,
                DUTY_STEP as int,
                DUTY_MAX as int,
                up,
            ) as u8,
            ..ui
        },
        UIEditMode::BoilerTemperature => UIStatus {
            current_boiler_temp: spec_stepped(
                ui.current_boiler_temp as int,
                TEMP_STEP as int,
                TEMP_MAX as int,
                up,
            ) as i32,
            ..ui
        },
        UIEditMode::PumpFlowRate => UIStatus {
            current_flow_rate: spec_stepped(
                ui.current_flow_rate as int,
                FLOW_STEP as int,
                FLOW_MAX as int,
                up,
            ) as i32,
            ..ui
        },
        UIEditMode::PumpPressure => UIStatus {
            current_pressure: spec_stepped(
                ui.current_pressure as int,
                PRESSURE_STEP as int,
                PRESSURE_MAX as int,
                up,
            ) as i32,
            ..ui
        },
    }
}

fn apply_rotation(ui: &UIStatus, dir: RotaryDirection) -> (r: UIStatus)
    requires
        ui.wf(),
    ensures
        r.wf(),
        r == spec_rotated(*ui, dir),
{
    let up = matches!(dir, RotaryDirection::Clockwise);
    match ui.edit_mode {
        UIEditMode::PumpDutyCycle => {
            let v = ui.current_duty_cycle;
            let next = if up {
                if v + DUTY_STEP > DUTY_MAX {
                    DUTY_MAX
                } else {
                    v + DUTY_STEP
                }
            } else {
                if v < DUTY_STEP {
                    0
                } else {
                    v - DUTY_STEP
                }
            };
            UIStatus { current_duty_cycle: next, ..*ui }
        },
        UIEditMode::BoilerTemperature => UIStatus {
            current_boiler_temp: stepped_i32(ui.current_boiler_temp, TEMP_STEP, TEMP_MAX, up),
            ..*ui
        },
        UIEditMode::PumpFlowRate => UIStatus {
            current_flow_rate: stepped_i32(ui.current_flow_rate, FLOW_STEP, FLOW_MAX, up),
            ..*ui
        },
        UIEditMode::PumpPressure => UIStatus {
            current_pressure: stepped_i32(ui.current_pressure, PRESSURE_STEP, PRESSURE_MAX, up),
            ..*ui
        },
    }
}

/// The command a confirmation emits: the active mode's edited value.
pub open spec fn spec_confirm_command(ui: UIStatus) -> MachineCommand {
    match ui.edit_mode {
        UIEditMode::PumpDutyCycle => MachineCommand::SetPumpDutyCycle(ui.current_duty_cycle),
        UIEditMode::BoilerTemperature => MachineCommand::SetBoilerTemperature(
            ui.current_boiler_temp,
        ),
        UIEditMode::PumpFlowRate => MachineCommand::SetPumpFlowRate(ui.current_flow_rate),
        UIEditMode::PumpPressure => MachineCommand::SetPumpPressure(ui.current_pressure),
    }
}

pub fn confirm_command(ui: &UIStatus) -> (r: MachineCommand)
    ensures
        r == spec_confirm_command(*ui),
{
    match ui.edit_mode {
        UIEditMode::PumpDutyCycle => MachineCommand::SetPumpDutyCycle(ui.current_duty_cycle),
        UIEditMode::BoilerTemperature => MachineCommand::SetBoilerTemperature(
            ui.current_boiler_temp,
        ),
        UIEditMode::PumpFlowRate => MachineCommand::SetPumpFlowRate(ui.current_flow_rate),
        UIEditMode::PumpPressure => MachineCommand::SetPumpPressure(ui.current_pressure),
    }
}

/// One tick of the rotary task: the new edit snapshot (published every
/// tick) and the command to enqueue, if any. A rotation or a mode
/// advance emits no command — the edited value is visible on the display
/// before anything is confirmed; only a confirmation emits one, carrying
/// exactly the currently edited value.
pub fn rotary_step(ui: &UIStatus, event: RotaryEvent) -> (r: (UIStatus, Option<MachineCommand>))
    requires
        ui.wf(),
    ensures
        r.0.wf(),
        match event {
            RotaryEvent::Rotate(dir) => r.0 == spec_rotated(*ui, dir) && r.1 is None,
            RotaryEvent::ModeButton => r.0 == (UIStatus {
                edit_mode: spec_next_mode(ui.edit_mode),
                ..*ui
            }) && r.1 is None,
            RotaryEvent::Confirm => r.0 == *ui && r.1 == Some(spec_confirm_command(*ui)),
        },
{
    match event {
        RotaryEvent::Rotate(dir) => (apply_rotation(ui, dir), None),
        RotaryEvent::ModeButton => (
            UIStatus { edit_mode: next_mode(ui.edit_mode), ..*ui },
            None,
        ),
        RotaryEvent::Confirm => (*ui, Some(confirm_command(ui))),
    }
}

} // verus!
