//! The cross-context bridge and the full simulation tick, run against the
//! real bounded channel and state cell.

use std::sync::Arc;
use tokio::sync::{mpsc, Mutex};

use crazybox::bridge::{drain_commands, read_state};
use crazybox::drone::{Drone, HeightController};
use crazybox::sim::{process_commands, simulation_tick, update_state_sync};
use crazybox::types::{DroneCommand, DroneState, RpytCommand};

fn rpyt_cmd(thrust: u16) -> DroneCommand {
    DroneCommand::Rpyt(RpytCommand { roll_mdeg: 0, pitch_mdeg: 0, yaw_mdeg: 0, thrust })
}

fn targets(d: &Drone) -> Vec<u32> {
    d.motors.iter().map(|m| m.target_throttle).collect()
}

fn currents(d: &Drone) -> Vec<u32> {
    d.motors.iter().map(|m| m.current_throttle).collect()
}

fn new_cell() -> Arc<Mutex<DroneState>> {
    Arc::new(Mutex::new(DroneState::default()))
}

#[test]
fn drain_returns_commands_in_send_order() {
    let (tx, mut rx) = mpsc::channel(32);
    tx.try_send(rpyt_cmd(1)).unwrap();
    tx.try_send(rpyt_cmd(2)).unwrap();
    tx.try_send(DroneCommand::Arm).unwrap();
    let cmds = drain_commands(&mut rx);
    assert_eq!(cmds, vec![rpyt_cmd(1), rpyt_cmd(2), DroneCommand::Arm]);
    assert!(drain_commands(&mut rx).is_empty());
}

#[test]
fn disarm_last_in_one_tick_window_wins() {
    let (tx, mut rx) = mpsc::channel(32);
    tx.try_send(rpyt_cmd(0)).unwrap();
    tx.try_send(rpyt_cmd(65535)).unwrap();
    tx.try_send(DroneCommand::Disarm).unwrap();
    let mut d = Drone::new();
    process_commands(&mut d, &mut rx, 0);
    assert_eq!(targets(&d), vec![0, 0, 0, 0]);
}

#[test]
fn last_thrust_command_of_a_tick_survives() {
    let (tx, mut rx) = mpsc::channel(32);
    tx.try_send(rpyt_cmd(65535)).unwrap();
    tx.try_send(rpyt_cmd(32768)).unwrap();
    let mut d = Drone::new();
    process_commands(&mut d, &mut rx, 0);
    assert_eq!(targets(&d), vec![500_007; 4]);
}

#[test]
fn empty_queue_keeps_targets_unchanged() {
    let (_tx, mut rx) = mpsc::channel::<DroneCommand>(32);
    let mut d = Drone::new();
    crazybox::drone::set_all_targets(&mut d, 321_000);
    process_commands(&mut d, &mut rx, 0);
    assert_eq!(targets(&d), vec![321_000; 4]);
}

#[test]
fn tick_without_commands_points_motors_at_hover_law() {
    let (_tx, mut rx) = mpsc::channel::<DroneCommand>(32);
    let cell = new_cell();
    let mut d = Drone::new();
    let ctrl = HeightController::default();
    // At the ground with zero speed the correction saturates at +300_000.
    let (net, offered) = simulation_tick(&mut d, &ctrl, &mut rx, &cell, 0, 0, 0, 0, 0);
    assert_eq!(currents(&d), vec![800_000; 4]);
    // 800_000 millionths on each motor: 4 * 105_948 micronewtons of thrust.
    assert_eq!(net, 4 * 105_948 - 264_870);
    let s = read_state(&cell).unwrap();
    assert_eq!(s, offered);
    // No arm command was sent, so the latch stays cleared whatever spins.
    assert!(!s.armed);
    assert_eq!(s.thrust, 65_535);
}

#[test]
fn disarm_tick_stops_all_motors_and_disarms_snapshot() {
    let (tx, mut rx) = mpsc::channel(32);
    let cell = new_cell();
    let mut d = Drone::new();
    let ctrl = HeightController::default();
    // Arming publishes armed at zero thrust: the latch sets, no motor spins.
    tx.try_send(DroneCommand::Arm).unwrap();
    simulation_tick(&mut d, &ctrl, &mut rx, &cell, 1000, 0, 0, 0, 0);
    let s = read_state(&cell).unwrap();
    assert!(s.armed);
    assert_eq!(s.thrust, 0);
    // A command-free tick flies the hover law with the latch still set.
    simulation_tick(&mut d, &ctrl, &mut rx, &cell, 1000, 0, 0, 0, 0);
    let s = read_state(&cell).unwrap();
    assert!(s.armed);
    assert_eq!(s.thrust, 65_535);
    // Disarming stops every motor and clears the latch within one tick.
    tx.try_send(DroneCommand::Disarm).unwrap();
    simulation_tick(&mut d, &ctrl, &mut rx, &cell, 1000, 0, 0, 0, 0);
    assert_eq!(currents(&d), vec![0, 0, 0, 0]);
    let s = read_state(&cell).unwrap();
    assert!(!s.armed);
    assert_eq!(s.thrust, 0);
}

#[test]
fn held_cell_skips_publish_without_stalling_the_tick() {
    let (_tx, mut rx) = mpsc::channel::<DroneCommand>(32);
    let cell = new_cell();
    let mut d = Drone::new();
    let ctrl = HeightController::default();

    // A slow reader holds the cell across the whole tick.
    let guard = cell.try_lock().unwrap();
    let (published, offered) = update_state_sync(&d, &cell, 0, 0, 0);
    assert!(!published);
    assert_eq!(offered.thrust, 0);
    let started = std::time::Instant::now();
    let (net, skipped) = simulation_tick(&mut d, &ctrl, &mut rx, &cell, 0, 0, 7, 7, 7);
    // The tick completed within its fixed budget instead of waiting for the
    // reader, and motors and force were still updated.
    assert!(started.elapsed() < std::time::Duration::from_millis(16));
    assert_eq!(currents(&d), vec![800_000; 4]);
    assert_eq!(net, 4 * 105_948 - 264_870);
    assert_eq!(skipped.roll_mdeg, 7);
    drop(guard);

    // The skipped publish left the previous snapshot in place.
    let stale = read_state(&cell).unwrap();
    assert_eq!(stale, DroneState::default());

    // With the cell free again the next tick publishes.
    simulation_tick(&mut d, &ctrl, &mut rx, &cell, 0, 0, 7, 7, 7);
    let fresh = read_state(&cell).unwrap();
    assert_eq!(fresh.roll_mdeg, 7);
    assert_eq!(fresh.thrust, 65_535);
}

#[test]
fn state_reads_are_idempotent_between_ticks() {
    let (_tx, mut rx) = mpsc::channel::<DroneCommand>(32);
    let cell = new_cell();
    let mut d = Drone::new();
    let ctrl = HeightController::default();
    let (_net, offered) = simulation_tick(&mut d, &ctrl, &mut rx, &cell, 250, -40, 10, 20, 30);
    let first = read_state(&cell).unwrap();
    let second = read_state(&cell).unwrap();
    assert_eq!(first, offered);
    assert_eq!(first, second);
}

#[test]
fn read_state_skips_when_cell_is_held() {
    let cell = new_cell();
    let guard = cell.try_lock().unwrap();
    assert!(read_state(&cell).is_none());
    drop(guard);
    assert_eq!(read_state(&cell), Some(DroneState::default()));
}
