//! Core of a quadrotor control stack that drives either a real vehicle over a
//! radio link or a simulated one inside a fixed-timestep physics host.
//!
//! The library holds the command/state vocabulary, the backend contract, the
//! per-tick flight control loop (height PD controller and motor mixer) and the
//! bridge between asynchronous command producers and the synchronous
//! simulation tick. All physical quantities are fixed-point integers:
//! throttle in millionths of full scale, lengths in millimetres, speeds in
//! millimetres per second, forces in micronewtons, angles in millidegrees.

pub mod bridge;
pub mod constants;
pub mod control;
pub mod drone;
pub mod hardware;
pub mod sim;
pub mod types;
