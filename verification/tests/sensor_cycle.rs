use brew_core::broadcast::BroadcastCell;
use brew_core::sensor::{element_on, pwm_compare, sat_i32, sensor_step, LinearScale};

#[test]
fn calibration_is_linear() {
    // The pump tachometer transform: raw edge rate times 60/32.
    let tacho = LinearScale { num: 60, den: 32, offset: 0 };
    assert_eq!(tacho.apply(3200), 6000);
    // An offset-bearing probe calibration.
    let probe = LinearScale { num: 1, den: 1, offset: -295 };
    assert_eq!(probe.apply(9605), 9310);
}

#[test]
fn good_reading_is_published() {
    let mut cell: BroadcastCell<i32> = BroadcastCell::new(3);
    let mut rx = cell.subscribe().unwrap();
    let probe = LinearScale { num: 1, den: 1, offset: -295 };
    let r: Result<(), u8> = sensor_step(&mut cell, &probe, Ok(9605));
    assert!(r.is_ok());
    assert_eq!(cell.try_read(&mut rx), Some(9310));
}

#[test]
fn conversion_error_skips_cycle() {
    let mut cell: BroadcastCell<i32> = BroadcastCell::new(3);
    let probe = LinearScale { num: 1, den: 1, offset: 0 };
    let r: Result<(), u8> = sensor_step(&mut cell, &probe, Err(7));
    assert_eq!(r, Err(7));
    // The cell is untouched: the loop continues with the next cycle.
    assert_eq!(cell.version, 0);
    assert!(cell.latest.is_none());
}

#[test]
fn oversized_reading_saturates() {
    assert_eq!(sat_i32(5_000_000_000), i32::MAX);
    assert_eq!(sat_i32(-5_000_000_000), i32::MIN);
    let mut cell: BroadcastCell<i32> = BroadcastCell::new(3);
    let mut rx = cell.subscribe().unwrap();
    let wide = LinearScale { num: 1000000, den: 1, offset: 0 };
    let r: Result<(), u8> = sensor_step(&mut cell, &wide, Ok(1000000000));
    assert!(r.is_ok());
    assert_eq!(cell.try_read(&mut rx), Some(i32::MAX));
}

#[test]
fn pump_pwm_compare_value() {
    // A 10 kHz slice counting to 14999: 30 percent duty.
    assert_eq!(pwm_compare(30, 14999), 4499);
    assert_eq!(pwm_compare(0, 14999), 0);
    assert_eq!(pwm_compare(100, 14999), 14999);
    assert_eq!(pwm_compare(100, u16::MAX), u16::MAX);
}

#[test]
fn heating_element_duty_fraction() {
    // 30 percent duty over a 100-tick cycle: on for the first 30 ticks.
    assert!(element_on(30, 0, 100));
    assert!(element_on(30, 29, 100));
    assert!(!element_on(30, 30, 100));
    assert!(!element_on(30, 99, 100));
    // The edges of the range.
    assert!(!element_on(0, 0, 100));
    assert!(element_on(100, 99, 100));
}
