//! Decision engine of a ventilation-fan controller.
//!
//! Temperatures are fixed-point integers in hundredths of a degree Celsius,
//! humidities in hundredths of a percent, and the smoothing weight in
//! thousandths. Every periodic loop of the controller is a step function on the
//! shared record [`state::ControlState`]; the loops themselves, the network and
//! the GPIO pin are driven by the caller.

pub mod resolver;
pub mod smoothing;
pub mod outdoor;
pub mod hysteresis;
pub mod schedule;
pub mod actuator;
pub mod control;
pub mod state;
pub mod proofs;
