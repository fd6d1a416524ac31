//! Physical and control constants of the simulated vehicle, in fixed point.
//!
//! Throttle is measured in millionths of full scale (`THROTTLE_SCALE`),
//! lengths in millimetres, speeds in millimetres per second and forces in
//! micronewtons, so every constant here is exactly representable.

use vstd::prelude::*;

verus! {

/// Full-scale throttle: `1.0` of the normalized range, in millionths.
pub const THROTTLE_SCALE: i64 = 1_000_000;

/// Vehicle mass in grams (a 27 g quadrotor).
pub const DRONE_MASS_G: i64 = 27;

/// Gravitational acceleration in millimetres per second squared.
pub const GRAVITY_MM_S2: i64 = 9810;

/// Weight of the vehicle in micronewtons; the total thrust that exactly
/// balances gravity. With mass in grams and acceleration in mm/s² the
/// product is already in micronewtons.
pub const HOVER_THRUST_UN: i64 = DRONE_MASS_G * GRAVITY_MM_S2;

/// Thrust of one motor at full throttle, in micronewtons: each motor covers
/// half the hover thrust, so four motors at full scale give twice the weight.
pub const MAX_THRUST_PER_MOTOR_UN: i64 = 132_435;

/// Baseline throttle expected to exactly balance gravity: half of full scale.
pub const BASE_THROTTLE: i64 = 500_000;

/// Proportional gain of the height controller, in millionths of throttle per
/// millimetre of height error (0.5 of full scale per metre).
pub const HEIGHT_P_GAIN: i64 = 500;

/// Derivative gain of the height controller, in millionths of throttle per
/// millimetre per second of climb rate (0.2 of full scale per metre/second).
pub const HEIGHT_D_GAIN: i64 = 200;

/// The height correction is clamped to this magnitude (0.3 of full scale).
pub const CORRECTION_LIMIT: i64 = 300_000;

/// Default height setpoint of a freshly spawned vehicle: one metre.
pub const DEFAULT_TARGET_HEIGHT_MM: i32 = 1000;

/// Wire scale of a thrust magnitude: `0..=65535`.
pub const THRUST_WIRE_MAX: i64 = 65535;

/// Battery level the simulation reports, in millivolts.
pub const SIM_BATTERY_MV: u32 = 3700;

/// Number of motors on the vehicle.
pub const MOTOR_COUNT: usize = 4;

/// Capacity of the bounded command queue between the asynchronous producers
/// and the simulation tick.
pub const COMMAND_QUEUE_CAPACITY: usize = 32;

} // verus!
