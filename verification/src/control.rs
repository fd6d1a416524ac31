//! Per-tick flight control: the proportional-derivative height law and the
//! motor mixer that turns one thrust magnitude into four motor throttles.

use vstd::prelude::*;
use crate::constants::{
    BASE_THROTTLE, CORRECTION_LIMIT, HEIGHT_D_GAIN, HEIGHT_P_GAIN, THROTTLE_SCALE,
    THRUST_WIRE_MAX,
};
use crate::types::RpytCommand;

verus! {

/// `x` forced into `[lo, hi]`.
pub open spec fn clamp_spec(x: int, lo: int, hi: int) -> int {
    if x < lo {
        lo
    } else if x > hi {
        hi
    } else {
        x
    }
}

/// Saturating bound on a 64-bit value.
pub fn clamp_i64(x: i64, lo: i64, hi: i64) -> (r: i64)
    requires
        lo <= hi,
    ensures
        r == clamp_spec(x as int, lo as int, hi as int),
{
    if x < lo {
        lo
    } else if x > hi {
        hi
    } else {
        x
    }
}

/// The height correction, in millionths of throttle: a proportional term on
/// the height error plus a derivative term opposing the climb rate, clamped
/// to `[-CORRECTION_LIMIT, CORRECTION_LIMIT]`. No integral term is active.
pub open spec fn height_correction_spec(target_mm: int, height_mm: int, vel_mm_s: int) -> int {
    clamp_spec(
        (target_mm - height_mm) * (HEIGHT_P_GAIN as int) + (-vel_mm_s) * (HEIGHT_D_GAIN as int),
        -(CORRECTION_LIMIT as int),
        CORRECTION_LIMIT as int,
    )
}

/// Computes the PD height correction from the setpoint, the measured height
/// and the measured vertical speed.
pub fn height_correction(target_mm: i32, height_mm: i32, vel_mm_s: i32) -> (c: i64)
    ensures
        c == height_correction_spec(target_mm as int, height_mm as int, vel_mm_s as int),
        -CORRECTION_LIMIT <= c <= CORRECTION_LIMIT,
{
    let error_mm: i64 = target_mm as i64 - height_mm as i64;
    let raw: i64 = error_mm * HEIGHT_P_GAIN + -(vel_mm_s as i64) * HEIGHT_D_GAIN;
    clamp_i64(raw, -CORRECTION_LIMIT, CORRECTION_LIMIT)
}

/// A wire-scale thrust magnitude mapped onto the normalized throttle range:
/// `thrust / 65535` of full scale, in millionths, rounded down.
pub open spec fn normalized_thrust_spec(thrust: u16) -> int {
    thrust * (THROTTLE_SCALE as int) / (THRUST_WIRE_MAX as int)
}

/// The throttle sent to each motor for an operator thrust command: the
/// normalized commanded thrust with the height correction layered on top,
/// clamped to the valid throttle range. The correction itself is clamped to
/// `[-CORRECTION_LIMIT, CORRECTION_LIMIT]` before use.
pub open spec fn mixed_throttle_spec(thrust: u16, correction: int) -> int {
    clamp_spec(
        normalized_thrust_spec(thrust) + clamp_spec(
            correction,
            -(CORRECTION_LIMIT as int),
            CORRECTION_LIMIT as int,
        ),
        0,
        THROTTLE_SCALE as int,
    )
}

/// The throttle every motor receives when no operator command arrived this
/// tick: the hover baseline plus the height correction, clamped to the valid
/// throttle range.
pub open spec fn hover_throttle_spec(correction: int) -> int {
    clamp_spec((BASE_THROTTLE as int) + correction, 0, THROTTLE_SCALE as int)
}

/// Every mixed throttle lies in the valid range `[0, THROTTLE_SCALE]`,
/// whatever wire-scale thrust and whatever (even unclamped) correction went
/// in: the mixer clamps before use.
pub proof fn lemma_thrust_bound(thrust: u16, correction: int)
    ensures
        0 <= mixed_throttle_spec(thrust, correction) <= THROTTLE_SCALE as int,
{
}

/// Normalizes a wire-scale thrust magnitude to millionths of full scale.
pub fn normalized_thrust(thrust: u16) -> (t: u32)
    ensures
        t == normalized_thrust_spec(thrust),
        t <= THROTTLE_SCALE,
{
    proof {
        assert(thrust * (THROTTLE_SCALE as int) / (THRUST_WIRE_MAX as int) <= THROTTLE_SCALE as int
            && thrust * (THROTTLE_SCALE as int) / (THRUST_WIRE_MAX as int) >= 0) by (nonlinear_arith)
            requires
                0 <= thrust <= THRUST_WIRE_MAX,
        ;
    }
    (thrust as u64 * THROTTLE_SCALE as u64 / THRUST_WIRE_MAX as u64) as u32
}

/// The motor mixer: one operator thrust command plus the height correction,
/// applied uniformly to all four motors. Roll, pitch and yaw are deliberately
/// not actuated. Every returned throttle is clamped to `[0, THROTTLE_SCALE]`.
pub fn calculate_motor_throttles(cmd: &RpytCommand, height_correction: i64) -> (t: [u32; 4])
    ensures
        forall|i: int| 0 <= i < 4 ==> t@[i] == mixed_throttle_spec(cmd.thrust, height_correction as int),
        forall|i: int| 0 <= i < 4 ==> t@[i] <= THROTTLE_SCALE,
{
    let correction: i64 = clamp_i64(height_correction, -CORRECTION_LIMIT, CORRECTION_LIMIT);
    let base: i64 = normalized_thrust(cmd.thrust) as i64 + correction;
    let throttle: u32 = clamp_i64(base, 0, THROTTLE_SCALE) as u32;
    [throttle, throttle, throttle, throttle]
}

/// The hover throttle for one tick: baseline plus height correction, clamped.
/// The correction comes from the PD law, which already bounds it.
pub fn hover_throttle(correction: i64) -> (t: u32)
    requires
        -CORRECTION_LIMIT <= correction <= CORRECTION_LIMIT,
    ensures
        t == hover_throttle_spec(correction as int),
        t <= THROTTLE_SCALE,
{
    clamp_i64(BASE_THROTTLE + correction, 0, THROTTLE_SCALE) as u32
}

} // verus!
