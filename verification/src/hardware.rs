//! State bookkeeping of a hardware-link backend. The radio link itself lives
//! outside the library; what the backend records about the vehicle after each
//! command it forwards is plain logic and is verified here.

use vstd::prelude::*;
use crate::types::{DroneCommand, DroneState};

verus! {

/// The snapshot a hardware backend keeps after forwarding one command: a
/// thrust setpoint records its magnitude and arms the vehicle exactly when
/// the magnitude is nonzero; arming and disarming both put a zero setpoint
/// on the wire, so they record zero thrust and set the flag. Attitude and
/// battery fields only ever change through telemetry, never through
/// commands.
pub open spec fn state_after_command_spec(s: DroneState, cmd: DroneCommand) -> DroneState {
    match cmd {
        DroneCommand::Rpyt(c) => DroneState { thrust: c.thrust, armed: c.thrust > 0, ..s },
        DroneCommand::Arm => DroneState { thrust: 0, armed: true, ..s },
        DroneCommand::Disarm => DroneState { thrust: 0, armed: false, ..s },
    }
}

/// Updates the backend's snapshot after a command was forwarded to the
/// vehicle, exactly as `state_after_command_spec` states.
pub fn state_after_command(s: &DroneState, cmd: &DroneCommand) -> (r: DroneState)
    ensures
        r == state_after_command_spec(*s, *cmd),
{
    match cmd {
        DroneCommand::Rpyt(c) => DroneState { thrust: c.thrust, armed: c.thrust > 0, ..*s },
        DroneCommand::Arm => DroneState { thrust: 0, armed: true, ..*s },
        DroneCommand::Disarm => DroneState { thrust: 0, armed: false, ..*s },
    }
}

} // verus!
