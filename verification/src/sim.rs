//! One simulation tick, in the order the fixed-tick physics host runs it:
//! height control, command drain, force application, best-effort publish.

use vstd::prelude::*;
use std::sync::Arc;
use crate::bridge::{drain_commands, try_store_state};
use crate::constants::{COMMAND_QUEUE_CAPACITY, MOTOR_COUNT};
use crate::control::{height_correction, height_correction_spec, hover_throttle, hover_throttle_spec};
use crate::drone::{
    apply_commands, apply_motor_forces, build_state, net_force_un_spec, run_armed, run_commands,
    state_snapshot_spec, Drone, HeightController,
};
use crate::types::{DroneCommand, DroneState};

verus! {

/// The targets the height controller alone would set this tick: the hover
/// baseline corrected by the PD law, the same on all four motors.
pub open spec fn hover_targets_spec(target_mm: int, height_mm: int, vel_mm_s: int) -> Seq<u32> {
    Seq::new(
        MOTOR_COUNT as nat,
        |i: int| hover_throttle_spec(height_correction_spec(target_mm, height_mm, vel_mm_s)) as u32,
    )
}

/// The height control system: computes the PD correction from the sensed
/// height and climb rate and points every motor at the corrected hover
/// throttle. Runs before the command drain, so an operator command received
/// in the same tick overrides these targets.
pub fn height_control(
    drone: &mut Drone,
    controller: &HeightController,
    height_mm: i32,
    vel_mm_s: i32,
)
    requires
        old(drone).wf(),
    ensures
        final(drone).wf(),
        final(drone).targets() == hover_targets_spec(
            controller.target_mm as int,
            height_mm as int,
            vel_mm_s as int,
        ),
        final(drone).currents() == old(drone).currents(),
        final(drone).armed == old(drone).armed,
{
    let correction: i64 = height_correction(controller.target_mm, height_mm, vel_mm_s);
    let throttle: u32 = hover_throttle(correction);
    crate::drone::set_all_targets(drone, throttle);
    proof {
        assert(drone.targets() =~= hover_targets_spec(
            controller.target_mm as int,
            height_mm as int,
            vel_mm_s as int,
        ));
    }
}

/// Drains the queue without blocking and applies every drained command in
/// send order, with the tick's height correction layered onto operator
/// thrust. What was queued depends on concurrent producers, so the contract
/// promises last-wins application of some command sequence; `apply_commands`
/// carries the exact semantics for a known sequence.
pub fn process_commands(
    drone: &mut Drone,
    rx: &mut tokio::sync::mpsc::Receiver<DroneCommand>,
    correction: i64,
)
    requires
        old(drone).wf(),
    ensures
        final(drone).wf(),
        exists|cmds: Seq<DroneCommand>|
            cmds.len() <= COMMAND_QUEUE_CAPACITY && final(drone).targets() == run_commands(
                old(drone).targets(),
                cmds,
                correction as int,
            ) && final(drone).armed == run_armed(old(drone).armed, cmds),
        final(drone).currents() == old(drone).currents(),
{
    let cmds: Vec<DroneCommand> = drain_commands(rx);
    apply_commands(drone, &cmds, correction);
    proof {
        assert(exists|s: Seq<DroneCommand>|
            s.len() <= COMMAND_QUEUE_CAPACITY && drone.targets() == run_commands(
                old(drone).targets(),
                s,
                correction as int,
            ) && drone.armed == run_armed(old(drone).armed, s)) by {
            assert(cmds@.len() <= COMMAND_QUEUE_CAPACITY && drone.targets() == run_commands(
                old(drone).targets(),
                cmds@,
                correction as int,
            ) && drone.armed == run_armed(old(drone).armed, cmds@));
        }
    }
}

/// Builds the tick's snapshot and offers it to the shared state cell without
/// blocking: when a slow reader holds the cell the publish is skipped and
/// false comes back — a diagnostic, never an error. The snapshot offered is
/// returned and fully pinned down; only whether the cell took it depends on
/// concurrent readers, so nothing more is promised of the flag.
pub fn update_state_sync(
    drone: &Drone,
    cell: &Arc<tokio::sync::Mutex<DroneState>>,
    roll_mdeg: i32,
    pitch_mdeg: i32,
    yaw_mdeg: i32,
) -> (r: (bool, DroneState))
    requires
        drone.wf(),
    ensures
        r.1 == state_snapshot_spec(*drone, roll_mdeg, pitch_mdeg, yaw_mdeg),
{
    let snapshot: DroneState = build_state(drone, roll_mdeg, pitch_mdeg, yaw_mdeg);
    let published: bool = try_store_state(cell, &snapshot);
    (published, snapshot)
}

/// One fixed-timestep tick of the simulation backend, in strict order:
/// run the height controller, drain and apply the queued commands, latch the
/// motors and compute the net vertical force for the physics host, then
/// publish a fresh snapshot best-effort. Returns the net force in
/// micronewtons together with the snapshot that was offered to the cell;
/// the caller applies the force to the rigid body and reads attitude back
/// for the next tick.
pub fn simulation_tick(
    drone: &mut Drone,
    controller: &HeightController,
    rx: &mut tokio::sync::mpsc::Receiver<DroneCommand>,
    cell: &Arc<tokio::sync::Mutex<DroneState>>,
    height_mm: i32,
    vel_mm_s: i32,
    roll_mdeg: i32,
    pitch_mdeg: i32,
    yaw_mdeg: i32,
) -> (r: (i64, DroneState))
    requires
        old(drone).wf(),
    ensures
        final(drone).wf(),
        exists|cmds: Seq<DroneCommand>|
            cmds.len() <= COMMAND_QUEUE_CAPACITY && final(drone).targets() == run_commands(
                hover_targets_spec(controller.target_mm as int, height_mm as int, vel_mm_s as int),
                cmds,
                height_correction_spec(
                    controller.target_mm as int,
                    height_mm as int,
                    vel_mm_s as int,
                ),
            ) && final(drone).armed == run_armed(old(drone).armed, cmds),
        final(drone).currents() == final(drone).targets(),
        r.0 == net_force_un_spec(final(drone).currents()),
        r.1 == state_snapshot_spec(*final(drone), roll_mdeg, pitch_mdeg, yaw_mdeg),
{
    let correction: i64 = height_correction(controller.target_mm, height_mm, vel_mm_s);
    let throttle: u32 = hover_throttle(correction);
    crate::drone::set_all_targets(drone, throttle);
    proof {
        assert(drone.targets() =~= hover_targets_spec(
            controller.target_mm as int,
            height_mm as int,
            vel_mm_s as int,
        ));
    }
    let ghost hover_targets = drone.targets();
    let cmds: Vec<DroneCommand> = drain_commands(rx);
    apply_commands(drone, &cmds, correction);
    let net_un: i64 = apply_motor_forces(drone);
    let (_published, snapshot): (bool, DroneState) = update_state_sync(
        drone,
        cell,
        roll_mdeg,
        pitch_mdeg,
        yaw_mdeg,
    );
    proof {
        let corr_spec = height_correction_spec(
            controller.target_mm as int,
            height_mm as int,
            vel_mm_s as int,
        );
        assert(exists|s: Seq<DroneCommand>|
            s.len() <= COMMAND_QUEUE_CAPACITY && drone.targets() == run_commands(
                hover_targets,
                s,
                corr_spec,
            ) && drone.armed == run_armed(old(drone).armed, s)) by {
            assert(cmds@.len() <= COMMAND_QUEUE_CAPACITY && drone.targets() == run_commands(
                hover_targets,
                cmds@,
                corr_spec,
            ) && drone.armed == run_armed(old(drone).armed, cmds@));
        }
    }
    (net_un, snapshot)
}

} // verus!
