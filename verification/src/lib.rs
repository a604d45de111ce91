//! The verified core of a pulse-Doppler radar simulation service.
//!
//! - `geometry`: the sampling geometry of a run, from which every index of
//!   the signal chain follows, and the laws of its bins and windows.
//! - `grid` and `types`: the tables and records that hold the products of a
//!   run, and their shape.
//! - `defaults`: the values of a run that its caller leaves open.
//! - `analysis`: the verdicts of the drone analysis.
//! - `session`: what a WebSocket session does for each frame of its client.
//! - `cors`, `error`, `observability`: the rules of the service around them.
//!
//! The crate holds no arithmetic on samples: the signal chain computes them
//! and asks this crate where they belong.

pub mod analysis;
pub mod cors;
pub mod defaults;
pub mod error;
pub mod geometry;
pub mod grid;
pub mod observability;
pub mod session;
pub mod types;
