//! Shared command/state vocabulary and the backend contract every drone
//! backend implements.

use vstd::prelude::*;

verus! {

/// Snapshot of the vehicle published once per control tick.
///
/// Angles are in millidegrees, the battery level in millivolts. `thrust` is
/// the last reported aggregate thrust magnitude on the wire scale `0..=65535`;
/// every `u16` value is structurally valid. `armed` is true exactly when the
/// backend currently permits nonzero motor output.
#[derive(Clone, Copy, Debug, PartialEq, Eq, Structural)]
pub struct DroneState {
    pub roll_mdeg: i32,
    pub pitch_mdeg: i32,
    pub yaw_mdeg: i32,
    pub thrust: u16,
    pub armed: bool,
    pub battery_mv: u32,
}

impl Default for DroneState {
    /// The state of a vehicle at rest before any tick has published: level,
    /// zero thrust, disarmed, battery unknown.
    fn default() -> (s: DroneState)
        ensures
            s == (DroneState {
                roll_mdeg: 0,
                pitch_mdeg: 0,
                yaw_mdeg: 0,
                thrust: 0,
                armed: false,
                battery_mv: 0,
            }),
    {
        DroneState { roll_mdeg: 0, pitch_mdeg: 0, yaw_mdeg: 0, thrust: 0, armed: false, battery_mv: 0 }
    }
}

/// Roll/pitch/yaw setpoint with a thrust magnitude, angles in millidegrees
/// (yaw in millidegrees per second), thrust on the wire scale `0..=65535`.
#[derive(Clone, Copy, Debug, PartialEq, Eq, Structural)]
pub struct RpytCommand {
    pub roll_mdeg: i32,
    pub pitch_mdeg: i32,
    pub yaw_mdeg: i32,
    pub thrust: u16,
}

/// One operator command. Commands are immutable values; every constructible
/// value is valid, so no runtime validation exists anywhere downstream.
#[derive(Clone, Copy, Debug, PartialEq, Eq, Structural)]
pub enum DroneCommand {
    Rpyt(RpytCommand),
    /// Transition to armed at zero thrust; arming alone never produces thrust.
    Arm,
    /// Transition to disarmed, forcing zero thrust.
    Disarm,
}

/// The zero-thrust setpoint `init` issues to bring a backend to its safe
/// armed-at-zero-thrust baseline (hardware needs it to unlock motor output;
/// the simulation treats it like any other command).
pub fn zero_setpoint() -> (c: DroneCommand)
    ensures
        c == DroneCommand::Rpyt(RpytCommand { roll_mdeg: 0, pitch_mdeg: 0, yaw_mdeg: 0, thrust: 0 }),
{
    DroneCommand::Rpyt(RpytCommand { roll_mdeg: 0, pitch_mdeg: 0, yaw_mdeg: 0, thrust: 0 })
}

/// The command an arm/disarm request maps to: true arms, false disarms.
pub fn arm_command(arm: bool) -> (c: DroneCommand)
    ensures
        c == if arm {
            DroneCommand::Arm
        } else {
            DroneCommand::Disarm
        },
{
    if arm {
        DroneCommand::Arm
    } else {
        DroneCommand::Disarm
    }
}

/// Why a backend operation failed. Contention inside the fixed-tick loop is
/// never an error: the tick silently skips the contended operation instead.
#[derive(Clone, Copy, Debug, PartialEq, Eq, Structural)]
pub enum DroneError {
    /// The command or state channel has no surviving counterpart; fatal to
    /// this backend instance.
    ChannelClosed,
    /// An opaque transport failure owned by the concrete backend (radio link,
    /// middleware call); per-call, does not tear the backend down.
    Transport,
}

impl DroneError {
    /// A short human-readable description of the failure.
    pub fn message(&self) -> (m: &'static str)
        ensures
            (*self is ChannelClosed) ==> m@ == "channel closed"@,
            (*self is Transport) ==> m@ == "transport failure"@,
    {
        match self {
            DroneError::ChannelClosed => "channel closed",
            DroneError::Transport => "transport failure",
        }
    }
}

/// The capability contract every backend variant (simulated, hardware, future
/// transports) implements identically, so callers stay backend-agnostic.
///
/// `init` must be called exactly once before any other operation; it brings
/// the backend to a safe armed-at-zero-thrust baseline. `get_state` returns
/// the most recent published snapshot without ever blocking the producing
/// tick. `send_command` returns once the command is durably queued, not once
/// it has taken effect; it fails only on transport or channel closure, never
/// on malformed input, because all command values are structurally valid.
pub trait DroneInterface {
    fn init(&mut self) -> Result<(), DroneError>;

    fn get_state(&self) -> Result<DroneState, DroneError>;

    fn send_command(&mut self, cmd: DroneCommand) -> Result<(), DroneError>;
}

} // verus!
