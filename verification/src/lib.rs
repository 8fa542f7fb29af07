//! Runtime core of a single-board machine controller: the typed
//! coordination primitives (broadcast state cells, single-slot actuator
//! signals, bounded command/status queues, an exclusive bus arbiter) and
//! the decision logic of the long-lived tasks (sensor acquisition, rotary
//! input, controller, display) stated over plain values and verified.
//!
//! Physical quantities are carried as scaled integers: temperatures and
//! pressures in hundredths of a unit (centi-degrees, centi-bar), flow
//! rates in hundredths of a millilitre per second, duty cycles in whole
//! percent. The hardware loop that drives these steps lives outside the
//! library.

pub mod broadcast;
pub mod bus;
pub mod control;
pub mod display;
pub mod queue;
pub mod sensor;
pub mod signal;
pub mod system;
pub mod textfmt;
pub mod ui;
