//! The display task's decision logic: non-blocking snapshot retention
//! (the render loop must never stall waiting for new data — absence of a
//! new item means "keep the previous snapshot") and the fixed multi-line
//! layout rendered each refresh. Drawing and flushing the frame buffer
//! are external collaborators; the library produces the exact text of
//! each line.

use crate::control::{BoilerControlTarget, GroupBrewControlTarget, Status};
use crate::textfmt::{dec_digits, fmt_centi0, fmt_centi0_spec, fmt_centi2, fmt_centi2_spec,
    fmt_centi1, fmt_centi1_spec, fmt_u64};
use crate::ui::{UIEditMode, UIStatus};
use vstd::prelude::*;

verus! {

/// One polling step of the render loop: take the newest status and edit
/// snapshots if the queues yielded any, keep the previous ones otherwise.
pub fn poll_update(
    status: &mut Status,
    ui: &mut UIStatus,
    new_status: Option<Status>,
    new_ui: Option<UIStatus>,
)
    ensures
        *final(status) == (match new_status {
            Some(s) => s,
            None => *old(status),
        }),
        *final(ui) == (match new_ui {
            Some(u) => u,
            None => *old(ui),
        }),
{
    if let Some(s) = new_status {
        *status = s;
    }
    if let Some(u) = new_ui {
        *ui = u;
    }
}

/// The temperature the boiler is being held at, for the header line:
/// zero when the target is off or a pressure.
pub open spec fn spec_target_temp(st: Status) -> int {
    match st.config_brew_boiler_control_target {
        BoilerControlTarget::Off => 0,
        BoilerControlTarget::Temperature(t, _) => t as int,
        BoilerControlTarget::Pressure(_, _) => 0,
    }
}

pub fn target_temp(st: &Status) -> (r: i32)
    ensures
        r as int == spec_target_temp(*st),
{
    match st.config_brew_boiler_control_target {
        BoilerControlTarget::Off => 0,
        BoilerControlTarget::Temperature(t, _) => t,
        BoilerControlTarget::Pressure(_, _) => 0,
    }
}

/// The pump duty shown beside the pressure: only a fixed-duty group
/// target has one.
pub open spec fn spec_shown_pump_duty(st: Status) -> int {
    match st.config_group_brew_control_target {
        GroupBrewControlTarget::FixedDutyCycle(dc) => dc as int,
        _ => 0,
    }
}

pub fn shown_pump_duty(st: &Status) -> (r: u8)
    ensures
        r as int == spec_shown_pump_duty(*st),
{
    match st.config_group_brew_control_target {
        GroupBrewControlTarget::FixedDutyCycle(dc) => dc,
        _ => 0,
    }
}

pub open spec fn spec_temp_line(st: Status) -> Seq<char> {
    "T: "@ + fmt_centi2_spec(st.boiler_temp as int) + " C (Tgt "@ + fmt_centi0_spec(
        spec_target_temp(st),
    ) + ")"@
}

/// The header line: boiler temperature to two decimals and its target.
pub fn temp_line(st: &Status) -> (s: String)
    ensures
        s@ == spec_temp_line(*st),
{
    let mut s = String::from_str("T: ");
    s.append(fmt_centi2(st.boiler_temp).as_str());
    s.append(" C (Tgt ");
    s.append(fmt_centi0(target_temp(st)).as_str());
    s.append(")");
    proof {
        assert(s@ =~= spec_temp_line(*st));
    }
    s
}

pub open spec fn spec_pressure_line(st: Status) -> Seq<char>
    recommends
        st.boiler_pressure is Some,
{
    "P: "@ + fmt_centi2_spec(st.boiler_pressure->0 as int) + " bar (PT "@ + dec_digits(
        spec_shown_pump_duty(st) as nat,
    ) + "%)"@
}

/// The pressure line, drawn only when a pressure reading exists.
pub fn pressure_line(st: &Status) -> (r: Option<String>)
    ensures
        r is Some <==> st.boiler_pressure is Some,
        r matches Some(s) ==> s@ == spec_pressure_line(*st),
{
    match st.boiler_pressure {
        Some(p) => {
            let mut s = String::from_str("P: ");
            s.append(fmt_centi2(p).as_str());
            s.append(" bar (PT ");
            s.append(fmt_u64(shown_pump_duty(st) as u64).as_str());
            s.append("%)");
            proof {
                assert(s@ =~= spec_pressure_line(*st));
            }
            Some(s)
        },
        None => None,
    }
}

pub open spec fn spec_flow_line(st: Status) -> Seq<char>
    recommends
        st.group_flow_rate is Some,
{
    "Flow: "@ + fmt_centi1_spec(st.group_flow_rate->0 as int) + " ml/s"@
}

/// The flow line, drawn only when a flow reading exists, to one decimal.
pub fn flow_line(st: &Status) -> (r: Option<String>)
    ensures
        r is Some <==> st.group_flow_rate is Some,
        r matches Some(s) ==> s@ == spec_flow_line(*st),
{
    match st.group_flow_rate {
        Some(f) => {
            let mut s = String::from_str("Flow: ");
            s.append(fmt_centi1(f).as_str());
            s.append(" ml/s");
            proof {
                assert(s@ =~= spec_flow_line(*st));
            }
            Some(s)
        },
        None => None,
    }
}

pub open spec fn spec_duty_line(st: Status) -> Seq<char> {
    "Pump: "@ + dec_digits(st.pump_duty_cycle as nat) + " % Boil: "@ + dec_digits(
        st.brew_boiler_duty_cycle as nat,
    ) + "%"@
}

/// The actuator line: pump and boiler duty cycles in whole percent.
pub fn duty_line(st: &Status) -> (s: String)
    ensures
        s@ == spec_duty_line(*st),
{
    let mut s = String::from_str("Pump: ");
    s.append(fmt_u64(st.pump_duty_cycle as u64).as_str());
    s.append(" % Boil: ");
    s.append(fmt_u64(st.brew_boiler_duty_cycle as u64).as_str());
    s.append("%");
    proof {
        assert(s@ =~= spec_duty_line(*st));
    }
    s
}

pub open spec fn spec_pid_line(prefix: Seq<char>, p: int, i: int, d: int) -> Seq<char> {
    prefix + fmt_centi0_spec(p) + " I: "@ + fmt_centi0_spec(i) + " D: "@ + fmt_centi0_spec(d)
}

pub open spec fn spec_boiler_pid_line(st: Status) -> Seq<char>
    recommends
        st.boiler_pid_output is Some,
{
    spec_pid_line(
        "Boil P: "@,
        st.boiler_pid_output->0.p as int,
        st.boiler_pid_output->0.i as int,
        st.boiler_pid_output->0.d as int,
    )
}

pub open spec fn spec_pump_pid_line(st: Status) -> Seq<char>
    recommends
        st.pump_pid_output is Some,
{
    spec_pid_line(
        "Pump P: "@,
        st.pump_pid_output->0.p as int,
        st.pump_pid_output->0.i as int,
        st.pump_pid_output->0.d as int,
    )
}

/// The boiler PID breakdown, drawn only when the active mode produced one.
pub fn boiler_pid_line(st: &Status) -> (r: Option<String>)
    ensures
        r is Some <==> st.boiler_pid_output is Some,
        r matches Some(s) ==> s@ == spec_boiler_pid_line(*st),
{
    match st.boiler_pid_output {
        Some(pid) => {
            let mut s = String::from_str("Boil P: ");
            s.append(fmt_centi0(pid.p).as_str());
            s.append(" I: ");
            s.append(fmt_centi0(pid.i).as_str());
            s.append(" D: ");
            s.append(fmt_centi0(pid.d).as_str());
            proof {
                assert(s@ =~= spec_boiler_pid_line(*st));
            }
            Some(s)
        },
        None => None,
    }
}

/// The pump PID breakdown, drawn only when the active mode produced one.
pub fn pump_pid_line(st: &Status) -> (r: Option<String>)
    ensures
        r is Some <==> st.pump_pid_output is Some,
        r matches Some(s) ==> s@ == spec_pump_pid_line(*st),
{
    match st.pump_pid_output {
        Some(pid) => {
            let mut s = String::from_str("Pump P: ");
            s.append(fmt_centi0(pid.p).as_str());
            s.append(" I: ");
            s.append(fmt_centi0(pid.i).as_str());
            s.append(" D: ");
            s.append(fmt_centi0(pid.d).as_str());
            proof {
                assert(s@ =~= spec_pump_pid_line(*st));
            }
            Some(s)
        },
        None => None,
    }
}

pub open spec fn spec_edit_line(ui: UIStatus) -> Seq<char> {
    match ui.edit_mode {
        UIEditMode::PumpDutyCycle => "Edit: Pump DC ("@ + dec_digits(ui.current_duty_cycle as nat)
            + ")"@,
        UIEditMode::BoilerTemperature => "Edit: Boil T ("@ + fmt_centi0_spec(
            ui.current_boiler_temp as int,
        ) + ")"@,
        UIEditMode::PumpFlowRate => "Edit: Flow ("@ + fmt_centi0_spec(ui.current_flow_rate as int)
            + ")"@,
        UIEditMode::PumpPressure => "Edit: Prs ("@ + fmt_centi0_spec(ui.current_pressure as int)
            + ")"@,
    }
}

/// The live editing feedback line for the current edit mode.
pub fn edit_line(ui: &UIStatus) -> (s: String)
    ensures
        s@ == spec_edit_line(*ui),
{
    match ui.edit_mode {
        UIEditMode::PumpDutyCycle => {
            let mut s = String::from_str("Edit: Pump DC (");
            s.append(fmt_u64(ui.current_duty_cycle as u64).as_str());
            s.append(")");
            proof {
                assert(s@ =~= spec_edit_line(*ui));
            }
            s
        },
        UIEditMode::BoilerTemperature => {
            let mut s = String::from_str("Edit: Boil T (");
            s.append(fmt_centi0(ui.current_boiler_temp).as_str());
            s.append(")");
            proof {
                assert(s@ =~= spec_edit_line(*ui));
            }
            s
        },
        UIEditMode::PumpFlowRate => {
            let mut s = String::from_str("Edit: Flow (");
            s.append(fmt_centi0(ui.current_flow_rate).as_str());
            s.append(")");
            proof {
                assert(s@ =~= spec_edit_line(*ui));
            }
            s
        },
        UIEditMode::PumpPressure => {
            let mut s = String::from_str("Edit: Prs (");
            s.append(fmt_centi0(ui.current_pressure).as_str());
            s.append(")");
            proof {
                assert(s@ =~= spec_edit_line(*ui));
            }
            s
        },
    }
}

/// The whole fixed layout, present lines in drawing order.
pub open spec fn spec_render_lines(st: Status, ui: UIStatus) -> Seq<Seq<char>> {
    seq![spec_temp_line(st)] + (if st.boiler_pressure is Some {
        seq![spec_pressure_line(st)]
    } else {
        Seq::empty()
    }) + (if st.group_flow_rate is Some {
        seq![spec_flow_line(st)]
    } else {
        Seq::empty()
    }) + seq![spec_duty_line(st)] + (if st.boiler_pid_output is Some {
        seq![spec_boiler_pid_line(st)]
    } else {
        Seq::empty()
    }) + (if st.pump_pid_output is Some {
        seq![spec_pump_pid_line(st)]
    } else {
        Seq::empty()
    }) + seq![spec_edit_line(ui)]
}

/// Render one refresh of the fixed layout: the exact text of every line
/// that is drawn, in order. Lines whose datum is absent (no pressure
/// reading yet, no PID breakdown in the active mode) are skipped.
pub fn render_lines(st: &Status, ui: &UIStatus) -> (r: Vec<String>)
    ensures
        r@.map_values(|s: String| s@) == spec_render_lines(*st, *ui),
{
    let mut lines: Vec<String> = Vec::new();
    lines.push(temp_line(st));
    if let Some(s) = pressure_line(st) {
        lines.push(s);
    }
    if let Some(s) = flow_line(st) {
        lines.push(s);
    }
    lines.push(duty_line(st));
    if let Some(s) = boiler_pid_line(st) {
        lines.push(s);
    }
    if let Some(s) = pump_pid_line(st) {
        lines.push(s);
    }
    lines.push(edit_line(ui));
    proof {
        assert(lines@.map_values(|s: String| s@) =~= spec_render_lines(*st, *ui));
    }
    lines
}

} // verus!
