//! Logic of a clock-and-sensor node: the three-wire real-time-clock protocol
//! with its packed-decimal registers, the button gesture classifier, and the
//! setup / access-control state machine that ties them together.
//!
//! Everything here is pure: pin drivers, timers and channels live with the
//! caller, which executes the wire operations this crate plans and feeds the
//! sampled levels, press durations and sensor readings back in.

pub mod bcd;
pub mod bus;
pub mod button;
pub mod display;
pub mod rtc;
pub mod sensor;
pub mod wire;
