//! The controller task's decision logic: the command and status types,
//! and the single place where commands take effect on the control
//! targets. The numeric control computation itself (PID evaluation,
//! boiler/mechanism state transitions) is an external collaborator: its
//! outputs for one decision cycle arrive here as plain values, and the
//! controller republishes them as a consolidated status snapshot.
//!
//! The controller is the single consumer of commands and the single
//! writer of status: no other task mutates control targets.

use crate::queue::BoundedQueue;
use vstd::prelude::*;

verus! {

/// Default brew-boiler setpoint, in centi-degrees, used when brewing
/// starts with no boiler target configured.
pub const DEFAULT_BREW_TEMP_CENTI: i32 = 9300;

/// One PID coefficient: a scale in hundredths and optional clamp bounds
/// for that term's contribution.
#[derive(Clone, Copy, Debug, PartialEq, Eq)]
pub struct PidTerm {
    pub scale: i32,
    pub min: Option<i32>,
    pub max: Option<i32>,
}

#[derive(Clone, Copy, Debug, PartialEq, Eq)]
pub struct PidParameters {
    pub kp: PidTerm,
    pub ki: PidTerm,
    pub kd: PidTerm,
}

/// The evaluated proportional/integral/derivative contributions of one
/// control cycle, in hundredths.
#[derive(Clone, Copy, Debug, PartialEq, Eq)]
pub struct PidOutput {
    pub p: i32,
    pub i: i32,
    pub d: i32,
}

/// What the boiler is asked to hold: nothing, a temperature
/// (centi-degrees) or a pressure (centi-bar), each with its loop
/// parameters.
#[derive(Clone, Copy, Debug, PartialEq, Eq)]
pub enum BoilerControlTarget {
    Off,
    Temperature(i32, PidParameters),
    Pressure(i32, PidParameters),
}

impl BoilerControlTarget {
    pub open spec fn is_off(self) -> bool {
        self is Off
    }
}

/// What drives the group while brewing: a fixed pump duty cycle (whole
/// percent), a pressure (centi-bar) or a flow rate (centi-ml/s).
#[derive(Clone, Copy, Debug, PartialEq, Eq)]
pub enum GroupBrewControlTarget {
    FixedDutyCycle(u8),
    Pressure(i32, PidParameters),
    GroupFlowRate(i32, PidParameters),
}

/// A discrete user/control intent. Immutable once constructed; consumed
/// exactly once by the controller.
#[derive(Clone, Copy, Debug, PartialEq, Eq)]
pub enum MachineCommand {
    StartBrewing,
    StopBrewing,
    SetPumpDutyCycle(u8),
    SetBoilerTemperature(i32),
    SetPumpFlowRate(i32),
    SetPumpPressure(i32),
}

/// The latest calibrated sensor values, as read from the broadcast
/// cells at the start of a decision cycle.
#[derive(Clone, Copy, Debug, PartialEq, Eq)]
pub struct SensorSnapshot {
    pub boiler_temp: i32,
    pub boiler_pressure: Option<i32>,
    pub pump_rpm: Option<u32>,
    pub group_flow_rate: Option<i32>,
}

/// What the external control algorithm returned for one decision cycle:
/// the actuator duties and, where the active mode produces them, the PID
/// term breakdowns.
#[derive(Clone, Copy, Debug, PartialEq, Eq)]
pub struct ControlOutputs {
    pub boiler_duty: u8,
    pub pump_duty: u8,
    pub boiler_pid: Option<PidOutput>,
    pub pump_pid: Option<PidOutput>,
}

/// Aggregated, immutable snapshot of machine telemetry at a point in
/// time. Produced only by the controller; consumed by the display.
#[derive(Clone, Copy, Debug, PartialEq, Eq)]
pub struct Status {
    pub boiler_temp: i32,
    pub boiler_pressure: Option<i32>,
    pub pump_duty_cycle: u8,
    pub brew_boiler_duty_cycle: u8,
    pub group_flow_rate: Option<i32>,
    pub boiler_pid_output: Option<PidOutput>,
    pub pump_pid_output: Option<PidOutput>,
    pub config_brew_boiler_control_target: BoilerControlTarget,
    pub config_group_brew_control_target: GroupBrewControlTarget,
}

/// The controller's own state: whether a brew is in progress, the boiler
/// target currently in force, the configured idle and brew targets, and
/// the group target.
#[derive(Clone, Copy, Debug, PartialEq, Eq)]
pub struct ControllerState {
    pub brewing: bool,
    pub active_boiler_target: BoilerControlTarget,
    pub idle_boiler_target: BoilerControlTarget,
    pub brew_boiler_target: BoilerControlTarget,
    pub group_target: GroupBrewControlTarget,
}

/// Loop parameters used when a setpoint is edited for a mode that had
/// none configured yet.
pub open spec fn spec_default_pid_parameters() -> PidParameters {
    PidParameters {
        kp: PidTerm { scale: 300, min: None, max: None },
        ki: PidTerm { scale: 1, min: Some(-8000i32), max: Some(8000i32) },
        kd: PidTerm { scale: 3000, min: None, max: None },
    }
}

pub fn default_pid_parameters() -> (p: PidParameters)
    ensures
        p == spec_default_pid_parameters(),
{
    PidParameters {
        kp: PidTerm { scale: 300, min: None, max: None },
        ki: PidTerm { scale: 1, min: Some(-8000), max: Some(8000) },
        kd: PidTerm { scale: 3000, min: None, max: None },
    }
}

/// The boiler target that takes effect when brewing starts: the
/// configured brew target, or a default temperature hold if none is
/// configured — starting a brew always heats.
pub open spec fn spec_brew_boiler_target(configured: BoilerControlTarget) -> BoilerControlTarget {
    if configured is Off {
        BoilerControlTarget::Temperature(DEFAULT_BREW_TEMP_CENTI, spec_default_pid_parameters())
    } else {
        configured
    }
}

/// How one command changes the controller state.
pub open spec fn spec_handle_command(s: ControllerState, cmd: MachineCommand) -> ControllerState {
    match cmd {
        MachineCommand::StartBrewing => ControllerState {
            brewing: true,
            active_boiler_target: spec_brew_boiler_target(s.brew_boiler_target),
            brew_boiler_target: spec_brew_boiler_target(s.brew_boiler_target),
            ..s
        },
        MachineCommand::StopBrewing => ControllerState {
            brewing: false,
            active_boiler_target: s.idle_boiler_target,
            ..s
        },
        MachineCommand::SetPumpDutyCycle(d) => ControllerState {
            group_target: GroupBrewControlTarget::FixedDutyCycle(if d > 100 {
                100u8
            } else {
                d
            }),
            ..s
        },
        MachineCommand::SetBoilerTemperature(t) => {
            let params = match s.brew_boiler_target {
                BoilerControlTarget::Temperature(_, p) => p,
                _ => spec_default_pid_parameters(),
            };
            let target = BoilerControlTarget::Temperature(t, params);
            ControllerState {
                brew_boiler_target: target,
                active_boiler_target: if s.brewing {
                    target
                } else {
                    s.active_boiler_target
                },
                ..s
            }
        },
        MachineCommand::SetPumpFlowRate(f) => {
            let params = match s.group_target {
                GroupBrewControlTarget::GroupFlowRate(_, p) => p,
                _ => spec_default_pid_parameters(),
            };
            ControllerState { group_target: GroupBrewControlTarget::GroupFlowRate(f, params), ..s }
        },
        MachineCommand::SetPumpPressure(p) => {
            let params = match s.group_target {
                GroupBrewControlTarget::Pressure(_, q) => q,
                _ => spec_default_pid_parameters(),
            };
            ControllerState { group_target: GroupBrewControlTarget::Pressure(p, params), ..s }
        },
    }
}

/// Apply one command to the controller state. This is the only place
/// where a command takes effect. Starting a brew always leaves a
/// non-`Off` boiler target in force, even when none was configured.
pub fn handle_command(s: &ControllerState, cmd: MachineCommand) -> (r: ControllerState)
    ensures
        r == spec_handle_command(*s, cmd),
        cmd is StartBrewing ==> !r.active_boiler_target.is_off() && r.brewing,
        cmd is StopBrewing ==> !r.brewing,
{
    match cmd {
        MachineCommand::StartBrewing => {
            let target = match s.brew_boiler_target {
                BoilerControlTarget::Off => BoilerControlTarget::Temperature(
                    DEFAULT_BREW_TEMP_CENTI,
                    default_pid_parameters(),
                ),
                other => other,
            };
            ControllerState {
                brewing: true,
                active_boiler_target: target,
                brew_boiler_target: target,
                ..*s
            }
        },
        MachineCommand::StopBrewing => ControllerState {
            brewing: false,
            active_boiler_target: s.idle_boiler_target,
            ..*s
        },
        MachineCommand::SetPumpDutyCycle(d) => ControllerState {
            group_target: GroupBrewControlTarget::FixedDutyCycle(if d > 100 {
                100u8
            } else {
                d
            }),
            ..*s
        },
        MachineCommand::SetBoilerTemperature(t) => {
            let params = match s.brew_boiler_target {
                BoilerControlTarget::Temperature(_, p) => p,
                _ => default_pid_parameters(),
            };
            let target = BoilerControlTarget::Temperature(t, params);
            ControllerState {
                brew_boiler_target: target,
                active_boiler_target: if s.brewing {
                    target
                } else {
                    s.active_boiler_target
                },
                ..*s
            }
        },
        MachineCommand::SetPumpFlowRate(f) => {
            let params = match s.group_target {
                GroupBrewControlTarget::GroupFlowRate(_, p) => p,
                _ => default_pid_parameters(),
            };
            ControllerState {
                group_target: GroupBrewControlTarget::GroupFlowRate(f, params),
                ..*s
            }
        },
        MachineCommand::SetPumpPressure(p) => {
            let params = match s.group_target {
                GroupBrewControlTarget::Pressure(_, q) => q,
                _ => default_pid_parameters(),
            };
            ControllerState { group_target: GroupBrewControlTarget::Pressure(p, params), ..*s }
        },
    }
}

/// The status snapshot published after one decision cycle.
pub open spec fn spec_make_status(
    s: ControllerState,
    sensors: SensorSnapshot,
    outputs: ControlOutputs,
) -> Status {
    Status {
        boiler_temp: sensors.boiler_temp,
        boiler_pressure: sensors.boiler_pressure,
        pump_duty_cycle: outputs.pump_duty,
        brew_boiler_duty_cycle: outputs.boiler_duty,
        group_flow_rate: sensors.group_flow_rate,
        boiler_pid_output: outputs.boiler_pid,
        pump_pid_output: outputs.pump_pid,
        config_brew_boiler_control_target: s.active_boiler_target,
        config_group_brew_control_target: s.group_target,
    }
}

pub fn make_status(s: &ControllerState, sensors: &SensorSnapshot, outputs: &ControlOutputs) -> (r:
    Status)
    ensures
        r == spec_make_status(*s, *sensors, *outputs),
{
    Status {
        boiler_temp: sensors.boiler_temp,
        boiler_pressure: sensors.boiler_pressure,
        pump_duty_cycle: outputs.pump_duty,
        brew_boiler_duty_cycle: outputs.boiler_duty,
        group_flow_rate: sensors.group_flow_rate,
        boiler_pid_output: outputs.boiler_pid,
        pump_pid_output: outputs.pump_pid,
        config_brew_boiler_control_target: s.active_boiler_target,
        config_group_brew_control_target: s.group_target,
    }
}

/// The controller state after a whole run of commands, applied one at a
/// time, oldest first.
pub open spec fn spec_handle_all(s: ControllerState, cmds: Seq<MachineCommand>) -> ControllerState
    decreases cmds.len(),
{
    if cmds.len() == 0 {
        s
    } else {
        spec_handle_all(spec_handle_command(s, cmds[0]), cmds.drop_first())
    }
}

/// Drain the command queue, applying every pending command in arrival
/// order — the strict one-at-a-time ordering the controller owes its
/// producers. Leaves the queue empty.
pub fn drain_commands(s: &ControllerState, q: &mut BoundedQueue<MachineCommand>) -> (r:
    ControllerState)
    requires
        old(q).wf(),
    ensures
        final(q).wf(),
        final(q).capacity == old(q).capacity,
        final(q).contents().len() == 0,
        r == spec_handle_all(*s, old(q).contents()),
{
    let mut state = *s;
    while q.len() > 0
        invariant
            q.wf(),
            q.capacity == old(q).capacity,
            spec_handle_all(state, q.contents()) == spec_handle_all(*s, old(q).contents()),
        decreases q.contents().len(),
    {
        if let Some(c) = q.try_receive() {
            state = handle_command(&state, c);
        }
    }
    state
}

/// One decision cycle of the controller task: apply the received command
/// (if the queue yielded one), then consolidate the latest sensor values
/// and the external control algorithm's outputs into the status snapshot
/// published for the display. A `StartBrewing` cycle always publishes a
/// status whose boiler control target is not `Off`.
pub fn controller_step(
    s: &ControllerState,
    cmd: Option<MachineCommand>,
    sensors: &SensorSnapshot,
    outputs: &ControlOutputs,
) -> (r: (ControllerState, Status))
    ensures
        r.0 == (match cmd {
            Some(c) => spec_handle_command(*s, c),
            None => *s,
        }),
        r.1 == spec_make_status(r.0, *sensors, *outputs),
        cmd == Some(MachineCommand::StartBrewing)
            ==> !r.1.config_brew_boiler_control_target.is_off(),
{
    let next = match cmd {
        Some(c) => handle_command(s, c),
        None => *s,
    };
    let status = make_status(&next, sensors, outputs);
    (next, status)
}

} // verus!

