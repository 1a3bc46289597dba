//! Core logic of a sensor-telemetry firmware: a rolling average over recent
//! sensor samples, interrupt-toggled control state, elapsed-time accounting
//! over a wrapping hardware counter, the sampling control loop's decisions,
//! and the serial report framing.
//!
//! Averages are carried as exact sum/count pairs and timestamps as counter
//! ticks; the one floating-point division per reported value happens at the
//! transport edge, outside this library.

pub mod average;
pub mod control;
pub mod controller;
pub mod serial_comms;
pub mod storage;
pub mod timing;
