//! Lifecycle and frame-rate-gated dispatch for a depth-sensing camera.
//!
//! The library holds the decisions: which streams are active, whether a
//! category is due on a tick, whether a polled frame is new, and what each
//! tick reports. The host runs the sensor SDK and hands the results back.
pub mod category;
pub mod controller;
pub mod laws;
pub mod stream;
