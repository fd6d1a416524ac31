//! Height convergence of the control loop, checked on a plain Euler
//! integration of the vehicle mass — no physics engine involved.

use crazybox::drone::{apply_motor_forces, Drone, HeightController};
use crazybox::sim::height_control;

const DT_S: f64 = 1.0 / 60.0;
const MASS_KG: f64 = 0.027;
const TOLERANCE_M: f64 = 0.05;

/// Runs one control tick on the model and Euler-integrates the mass under
/// the returned net force. Returns the trajectory of heights in metres.
fn fly(ticks: usize) -> Vec<f64> {
    let mut drone = Drone::new();
    let ctrl = HeightController::default();
    let mut height_m: f64 = 0.0;
    let mut vel_m_s: f64 = 0.0;
    let mut trajectory = Vec::with_capacity(ticks);
    for _ in 0..ticks {
        height_control(
            &mut drone,
            &ctrl,
            (height_m * 1000.0).round() as i32,
            (vel_m_s * 1000.0).round() as i32,
        );
        let net_un = apply_motor_forces(&mut drone);
        let accel_m_s2 = net_un as f64 * 1e-6 / MASS_KG;
        vel_m_s += accel_m_s2 * DT_S;
        height_m += vel_m_s * DT_S;
        trajectory.push(height_m);
    }
    trajectory
}

#[test]
fn error_shrinks_monotonically_until_within_tolerance() {
    let trajectory = fly(600);
    let mut prev_err = 1.0f64;
    let mut reached_at = None;
    for (i, h) in trajectory.iter().enumerate() {
        let err = (1.0 - h).abs();
        if err <= TOLERANCE_M {
            reached_at = Some(i);
            break;
        }
        assert!(
            err <= prev_err,
            "error grew before reaching tolerance at tick {i}: {prev_err} -> {err}"
        );
        prev_err = err;
    }
    let reached_at = reached_at.expect("never came within tolerance of the target");
    assert!(reached_at < 120, "took too long to approach the target: {reached_at} ticks");
}

#[test]
fn hover_is_steady_without_divergence() {
    let trajectory = fly(600);
    // The vehicle never runs away from the target...
    for h in trajectory.iter() {
        assert!((-0.1..2.0).contains(h), "diverged to {h} m");
    }
    // ...and after five seconds it holds the setpoint tightly.
    for h in trajectory[300..].iter() {
        assert!((1.0 - h).abs() <= 0.01, "not at steady hover: {h} m");
    }
}
