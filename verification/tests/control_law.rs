//! The pure flight-control computations: PD correction, mixer, hover law.

use crazybox::control::{calculate_motor_throttles, height_correction, hover_throttle, normalized_thrust};
use crazybox::types::RpytCommand;

fn rpyt(thrust: u16) -> RpytCommand {
    RpytCommand { roll_mdeg: 0, pitch_mdeg: 0, yaw_mdeg: 0, thrust }
}

#[test]
fn mixer_zero_thrust_zero_correction() {
    let t = calculate_motor_throttles(&rpyt(0), 0);
    assert_eq!(t, [0, 0, 0, 0]);
}

#[test]
fn mixer_full_thrust_is_full_scale() {
    let t = calculate_motor_throttles(&rpyt(65535), 0);
    assert_eq!(t, [1_000_000, 1_000_000, 1_000_000, 1_000_000]);
}

#[test]
fn mixer_clamps_at_full_thrust_with_positive_correction() {
    let t = calculate_motor_throttles(&rpyt(65535), 300_000);
    assert_eq!(t, [1_000_000, 1_000_000, 1_000_000, 1_000_000]);
}

#[test]
fn mixer_clamps_at_zero_thrust_with_negative_correction() {
    let t = calculate_motor_throttles(&rpyt(0), -300_000);
    assert_eq!(t, [0, 0, 0, 0]);
}

#[test]
fn mixer_layers_correction_on_commanded_thrust() {
    // 32768 / 65535 of full scale is 500_007 millionths, rounded down.
    let t = calculate_motor_throttles(&rpyt(32768), -300_000);
    assert_eq!(t, [200_007, 200_007, 200_007, 200_007]);
    let t = calculate_motor_throttles(&rpyt(32768), 100_000);
    assert_eq!(t, [600_007, 600_007, 600_007, 600_007]);
}

#[test]
fn mixer_clamps_oversized_correction_before_use() {
    // A correction beyond the limit acts as exactly the limit.
    let t = calculate_motor_throttles(&rpyt(0), 5_000_000);
    assert_eq!(t, [300_000, 300_000, 300_000, 300_000]);
    let t = calculate_motor_throttles(&rpyt(65535), -5_000_000);
    assert_eq!(t, [700_000, 700_000, 700_000, 700_000]);
}

#[test]
fn mixer_output_always_within_throttle_range() {
    let thrusts: [u16; 5] = [0, 1, 32768, 65534, 65535];
    let corrections: [i64; 5] = [-300_000, -1, 0, 1, 300_000];
    for &thrust in thrusts.iter() {
        for &c in corrections.iter() {
            let t = calculate_motor_throttles(&rpyt(thrust), c);
            for &m in t.iter() {
                assert!(m <= 1_000_000);
            }
        }
    }
}

#[test]
fn correction_is_proportional_and_damped() {
    // 100 mm of error: 100 * 500 = 50_000; 100 mm/s of climb: -100 * 200.
    assert_eq!(height_correction(1000, 900, 100), 30_000);
    // Descending adds positive derivative action.
    assert_eq!(height_correction(1000, 900, -100), 70_000);
}

#[test]
fn correction_clamps_to_limit() {
    assert_eq!(height_correction(1000, 0, 0), 300_000);
    assert_eq!(height_correction(0, 1000, 0), -300_000);
    assert_eq!(height_correction(0, 0, 10_000), -300_000);
}

#[test]
fn hover_throttle_centres_on_baseline() {
    assert_eq!(hover_throttle(0), 500_000);
    assert_eq!(hover_throttle(300_000), 800_000);
    assert_eq!(hover_throttle(-300_000), 200_000);
}

#[test]
fn normalized_thrust_spans_wire_scale() {
    assert_eq!(normalized_thrust(0), 0);
    assert_eq!(normalized_thrust(65535), 1_000_000);
    assert_eq!(normalized_thrust(32768), 500_007);
}
