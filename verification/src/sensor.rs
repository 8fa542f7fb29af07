//! Sensor-side task logic: the calibration transform applied to a raw
//! conversion before it is published into a broadcast cell, the
//! publish-or-skip step of an acquisition cycle, and the duty-fraction
//! decision of the binary heating-element driver. The conversion itself
//! (register-level sequencing over the shared bus, waiting on data-ready)
//! is an external collaborator; its result arrives here as a plain
//! value. Frequency counters (pump tachometer, flow meter) are the dual
//! of a sensor: they run their raw edge rate through the same kind of
//! linear transform and publish the derived physical rate.

use crate::broadcast::{publish_rel, BroadcastCell};
use vstd::prelude::*;

verus! {

/// A configurable linear calibration on a raw reading, in hundredths:
/// `raw * num / den + offset`. The bounds keep every intermediate inside
/// a 64-bit word.
#[derive(Clone, Copy, Debug, PartialEq, Eq)]
pub struct LinearScale {
    pub num: i64,
    pub den: i64,
    pub offset: i64,
}

/// The largest raw reading a transducer hands in, in hundredths.
pub const RAW_BOUND: i64 = 1000000000;

impl LinearScale {
    pub open spec fn wf(&self) -> bool {
        &&& 0 < self.den <= 1000000
        &&& 0 <= self.num <= 1000000
        &&& -1000000000 <= self.offset <= 1000000000
    }

    pub open spec fn spec_apply(&self, raw: int) -> int {
        raw * (self.num as int) / (self.den as int) + (self.offset as int)
    }

    /// Apply the calibration to a raw reading.
    pub fn apply(&self, raw: i64) -> (r: i64)
        requires
            self.wf(),
            0 <= raw <= RAW_BOUND,
        ensures
            r as int == self.spec_apply(raw as int),
    {
        proof {
            assert(raw * self.num <= 1000000000i64 * 1000000i64) by (nonlinear_arith)
                requires
                    0 <= raw <= 1000000000,
                    0 <= self.num <= 1000000,
            ;
            assert(0 <= raw * self.num) by (nonlinear_arith)
                requires
                    0 <= raw,
                    0 <= self.num,
            ;
        }
        let product = (raw as u64) * (self.num as u64);
        let scaled = product / (self.den as u64);
        proof {
            assert(scaled <= product);
        }
        (scaled as i64) + self.offset
    }
}

/// Saturate a calibrated 64-bit value into the 32-bit range the
/// broadcast cells carry.
pub open spec fn spec_sat_i32(x: int) -> int {
    if x < i32::MIN as int {
        i32::MIN as int
    } else if x > i32::MAX as int {
        i32::MAX as int
    } else {
        x
    }
}

pub fn sat_i32(x: i64) -> (r: i32)
    ensures
        r as int == spec_sat_i32(x as int),
{
    if x < i32::MIN as i64 {
        i32::MIN
    } else if x > i32::MAX as i64 {
        i32::MAX
    } else {
        x as i32
    }
}

/// One acquisition cycle, after the external driver finished (or failed)
/// a conversion: a good reading is calibrated and published into the
/// task's broadcast cell; a conversion error leaves the cell untouched
/// and is handed back, so the caller logs it and continues with the next
/// cycle — a sensor task never terminates on a single bad reading.
pub fn sensor_step<E>(
    cell: &mut BroadcastCell<i32>,
    scale: &LinearScale,
    reading: Result<i64, E>,
) -> (r: Result<(), E>)
    requires
        old(cell).wf(),
        old(cell).version < u64::MAX,
        scale.wf(),
        reading matches Ok(v) ==> 0 <= v <= RAW_BOUND,
    ensures
        final(cell).wf(),
        reading matches Ok(v) ==> r is Ok && publish_rel(
            *old(cell),
            spec_sat_i32(scale.spec_apply(v as int)) as i32,
            *final(cell),
        ),
        reading matches Err(e) ==> (r matches Err(e2) && e2 == e) && *final(cell) == *old(cell),
{
    match reading {
        Ok(raw) => {
            let calibrated = sat_i32(scale.apply(raw));
            cell.publish(calibrated);
            Ok(())
        },
        Err(e) => Err(e),
    }
}

/// The binary heating element's decision for one tick: within a cycle of
/// `cycle_len` ticks, the element is driven for the first
/// `duty` per cent of them. The driver is purely reactive — it never
/// originates a target, only applies the latest one.
/// The pump driver's counterpart: the compare value loaded into a PWM
/// slice counting up to `top`, for a requested duty in whole percent.
/// The result never exceeds `top`, so a full duty holds the output high
/// for the whole period.
pub fn pwm_compare(duty: u8, top: u16) -> (r: u16)
    requires
        duty <= 100,
    ensures
        r as int == (duty as int) * (top as int) / 100,
        r <= top,
{
    proof {
        assert((duty as int) * (top as int) <= 100 * (top as int)) by (nonlinear_arith)
            requires
                duty <= 100,
                top >= 0,
        ;
    }
    let r = ((duty as u32) * (top as u32)) / 100;
    proof {
        assert(r <= top);
    }
    r as u16
}

pub fn element_on(duty: u8, tick: u64, cycle_len: u64) -> (r: bool)
    requires
        duty <= 100,
        1 <= cycle_len <= 1000000,
        tick < cycle_len,
    ensures
        r <==> (tick * 100 < duty * cycle_len),
{
    proof {
        assert((duty as int) * (cycle_len as int) <= 100 * 1000000) by (nonlinear_arith)
            requires
                duty <= 100,
                cycle_len <= 1000000,
        ;
    }
    tick * 100 < (duty as u64) * cycle_len
}

} // verus!
