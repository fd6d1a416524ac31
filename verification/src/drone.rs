//! The simulated vehicle: four motors, the height controller state, command
//! application with last-wins semantics, force computation and the state
//! snapshot built after each tick.

use vstd::prelude::*;
use crate::constants::{
    DEFAULT_TARGET_HEIGHT_MM, HOVER_THRUST_UN, MAX_THRUST_PER_MOTOR_UN, MOTOR_COUNT,
    SIM_BATTERY_MV, THROTTLE_SCALE, THRUST_WIRE_MAX,
};
use crate::control::{calculate_motor_throttles, lemma_thrust_bound, mixed_throttle_spec};
use crate::types::{DroneCommand, DroneState};

verus! {

/// One rotor. Throttles are in millionths of full scale. `target_throttle`
/// is what the control loop asked for this tick; `current_throttle` is what
/// the motor actually runs at (set equal to the target every tick, with no
/// slew limiting).
#[derive(Clone, Copy, Debug, PartialEq, Eq, Structural)]
pub struct DroneMotor {
    pub current_throttle: u32,
    pub target_throttle: u32,
}

/// Both throttles of a motor lie in the valid range.
pub open spec fn motor_wf(m: DroneMotor) -> bool {
    m.current_throttle <= THROTTLE_SCALE && m.target_throttle <= THROTTLE_SCALE
}

/// The vehicle owned by the simulation backend: exactly four motors and the
/// safety latch. `armed` is the latch the arm/disarm commands toggle — true
/// exactly when the backend currently permits nonzero motor output,
/// independent of the commanded thrust.
pub struct Drone {
    pub motors: Vec<DroneMotor>,
    pub armed: bool,
}

impl Drone {
    /// Exactly four motors, all with valid throttles.
    pub open spec fn wf(self) -> bool {
        self.motors@.len() == MOTOR_COUNT as int && forall|i: int|
            0 <= i < self.motors@.len() ==> motor_wf(self.motors@[i])
    }

    /// The four target throttles, in motor order.
    pub open spec fn targets(self) -> Seq<u32> {
        self.motors@.map_values(|m: DroneMotor| m.target_throttle)
    }

    /// The four running throttles, in motor order.
    pub open spec fn currents(self) -> Seq<u32> {
        self.motors@.map_values(|m: DroneMotor| m.current_throttle)
    }

    /// Decides well-formedness at run time, for callers outside the verified
    /// world that must check before handing a vehicle to the tick.
    pub fn is_wf(&self) -> (b: bool)
        ensures
            b == self.wf(),
    {
        if self.motors.len() != MOTOR_COUNT {
            return false;
        }
        let mut i: usize = 0;
        while i < MOTOR_COUNT
            invariant
                i <= MOTOR_COUNT,
                self.motors@.len() == MOTOR_COUNT as int,
                forall|j: int| 0 <= j < i ==> motor_wf(self.motors@[j]),
            decreases MOTOR_COUNT - i,
        {
            if self.motors[i].current_throttle > THROTTLE_SCALE as u32 || self.motors[i]
                .target_throttle > THROTTLE_SCALE as u32 {
                return false;
            }
            i += 1;
        }
        true
    }

    /// A freshly spawned vehicle: all motors stopped, disarmed.
    pub fn new() -> (d: Drone)
        ensures
            d.wf(),
            d.targets() == Seq::new(MOTOR_COUNT as nat, |i: int| 0u32),
            d.currents() == Seq::new(MOTOR_COUNT as nat, |i: int| 0u32),
            !d.armed,
    {
        let mut motors: Vec<DroneMotor> = Vec::new();
        let mut i: usize = 0;
        while i < MOTOR_COUNT
            invariant
                i <= MOTOR_COUNT,
                motors@.len() == i,
                forall|j: int| 0 <= j < i ==> motors@[j] == (DroneMotor {
                    current_throttle: 0u32,
                    target_throttle: 0u32,
                }),
            decreases MOTOR_COUNT - i,
        {
            motors.push(DroneMotor { current_throttle: 0, target_throttle: 0 });
            i += 1;
        }
        let d = Drone { motors, armed: false };
        proof {
            assert(d.targets() =~= Seq::new(MOTOR_COUNT as nat, |i: int| 0u32));
            assert(d.currents() =~= Seq::new(MOTOR_COUNT as nat, |i: int| 0u32));
        }
        d
    }
}

/// Per-vehicle height control state. The integral and last-error fields are
/// reserved accumulators: the active control law is purely
/// proportional-derivative and never reads or writes them.
pub struct HeightController {
    pub target_mm: i32,
    pub integral_mm: i32,
    pub last_error_mm: i32,
}

impl Default for HeightController {
    /// A fresh controller aims at the default height of one metre.
    fn default() -> (c: HeightController)
        ensures
            c.target_mm == DEFAULT_TARGET_HEIGHT_MM,
            c.integral_mm == 0,
            c.last_error_mm == 0,
    {
        HeightController { target_mm: DEFAULT_TARGET_HEIGHT_MM, integral_mm: 0, last_error_mm: 0 }
    }
}

/// The four motor targets one command leaves behind, given the height
/// correction active in that tick: an operator thrust command mixes its
/// thrust with the correction; arming and disarming force all targets to
/// zero (arming alone never produces thrust).
pub open spec fn command_targets(cmd: DroneCommand, correction: int) -> Seq<u32> {
    match cmd {
        DroneCommand::Rpyt(c) => Seq::new(
            MOTOR_COUNT as nat,
            |i: int| mixed_throttle_spec(c.thrust, correction) as u32,
        ),
        DroneCommand::Arm => Seq::new(MOTOR_COUNT as nat, |i: int| 0u32),
        DroneCommand::Disarm => Seq::new(MOTOR_COUNT as nat, |i: int| 0u32),
    }
}

/// The safety latch one command leaves behind: arming sets it,
/// disarming clears it, and a thrust setpoint leaves it alone — the latch
/// is independent of commanded thrust.
pub open spec fn command_armed(cmd: DroneCommand, armed: bool) -> bool {
    match cmd {
        DroneCommand::Rpyt(_) => armed,
        DroneCommand::Arm => true,
        DroneCommand::Disarm => false,
    }
}

/// The safety latch after a whole queue of commands is applied in enqueue
/// order, starting from `init`.
pub open spec fn run_armed(init: bool, cmds: Seq<DroneCommand>) -> bool
    decreases cmds.len(),
{
    if cmds.len() == 0 {
        init
    } else {
        run_armed(command_armed(cmds.first(), init), cmds.drop_first())
    }
}

/// Appending one command to a batch passes the batch's outcome through
/// that command.
pub proof fn lemma_run_armed_snoc(init: bool, cmds: Seq<DroneCommand>, cmd: DroneCommand)
    ensures
        run_armed(init, cmds.push(cmd)) == command_armed(cmd, run_armed(init, cmds)),
    decreases cmds.len(),
{
    if cmds.len() == 0 {
        assert(cmds.push(cmd).first() == cmd);
        assert(cmds.push(cmd).drop_first() =~= Seq::<DroneCommand>::empty());
        assert(run_armed(init, cmds.push(cmd)) == run_armed(
            command_armed(cmd, init),
            cmds.push(cmd).drop_first(),
        ));
        assert(run_armed(init, cmds) == init);
    } else {
        assert(cmds.push(cmd).first() == cmds.first());
        assert(cmds.push(cmd).drop_first() =~= cmds.drop_first().push(cmd));
        lemma_run_armed_snoc(command_armed(cmds.first(), init), cmds.drop_first(), cmd);
    }
}

/// The latch after a batch is decided by its last arm or disarm: a batch
/// ending in `Arm` leaves the vehicle armed, one ending in `Disarm` leaves
/// it disarmed, whatever came before.
pub proof fn lemma_run_armed_latch(init: bool, cmds: Seq<DroneCommand>)
    requires
        cmds.len() > 0,
    ensures
        cmds.last() is Arm ==> run_armed(init, cmds),
        cmds.last() is Disarm ==> !run_armed(init, cmds),
    decreases cmds.len(),
{
    if cmds.len() == 1 {
        assert(cmds.first() == cmds.last());
        assert(cmds.drop_first().len() == 0);
        assert(run_armed(init, cmds) == run_armed(
            command_armed(cmds.first(), init),
            cmds.drop_first(),
        ));
        assert(run_armed(command_armed(cmds.first(), init), cmds.drop_first()) == command_armed(
            cmds.first(),
            init,
        ));
    } else {
        lemma_run_armed_latch(command_armed(cmds.first(), init), cmds.drop_first());
        assert(cmds.drop_first().last() == cmds.last());
    }
}

/// The motor targets after a whole queue of commands is applied in enqueue
/// order, starting from `init`. This is the reference semantics of one
/// tick's command drain.
pub open spec fn run_commands(init: Seq<u32>, cmds: Seq<DroneCommand>, correction: int) -> Seq<u32>
    decreases cmds.len(),
{
    if cmds.len() == 0 {
        init
    } else {
        run_commands(command_targets(cmds.first(), correction), cmds.drop_first(), correction)
    }
}

/// Commands are applied in enqueue order and each application fully
/// determines the targets, so only the last command of a tick survives into
/// that tick's force computation.
pub proof fn lemma_last_command_wins(init: Seq<u32>, cmds: Seq<DroneCommand>, correction: int)
    requires
        cmds.len() > 0,
    ensures
        run_commands(init, cmds, correction) == command_targets(cmds.last(), correction),
    decreases cmds.len(),
{
    if cmds.len() == 1 {
        assert(cmds.first() == cmds.last());
        assert(cmds.drop_first().len() == 0);
        assert(run_commands(command_targets(cmds.first(), correction), cmds.drop_first(), correction)
            == command_targets(cmds.first(), correction));
    } else {
        lemma_last_command_wins(command_targets(cmds.first(), correction), cmds.drop_first(), correction);
        assert(cmds.drop_first().last() == cmds.last());
    }
}

/// Disarm dominance: when the last command of a tick is a disarm, every
/// motor target is zero and the safety latch is cleared afterwards, whatever
/// the prior state and whatever commands came before it in the same tick.
pub proof fn lemma_disarm_dominance(
    init: Seq<u32>,
    init_armed: bool,
    cmds: Seq<DroneCommand>,
    correction: int,
)
    requires
        cmds.len() > 0,
        cmds.last() is Disarm,
    ensures
        run_commands(init, cmds, correction).len() == MOTOR_COUNT as int,
        forall|i: int|
            0 <= i < MOTOR_COUNT as int ==> run_commands(init, cmds, correction)[i] == 0u32,
        !run_armed(init_armed, cmds),
{
    lemma_last_command_wins(init, cmds, correction);
    lemma_run_armed_latch(init_armed, cmds);
}

/// Sets every motor target to the same throttle, leaving the running
/// throttles untouched.
pub fn set_all_targets(drone: &mut Drone, throttle: u32)
    requires
        old(drone).wf(),
        throttle <= THROTTLE_SCALE,
    ensures
        final(drone).wf(),
        final(drone).targets() == Seq::new(MOTOR_COUNT as nat, |i: int| throttle),
        final(drone).currents() == old(drone).currents(),
        final(drone).armed == old(drone).armed,
{
    let mut i: usize = 0;
    while i < MOTOR_COUNT
        invariant
            old(drone).wf(),
            throttle <= THROTTLE_SCALE,
            i <= MOTOR_COUNT,
            drone.motors@.len() == MOTOR_COUNT as int,
            drone.armed == old(drone).armed,
            forall|j: int| 0 <= j < i ==> drone.motors@[j] == (DroneMotor {
                current_throttle: old(drone).motors@[j].current_throttle,
                target_throttle: throttle,
            }),
            forall|j: int| i <= j < MOTOR_COUNT as int ==> drone.motors@[j] == old(drone).motors@[j],
        decreases MOTOR_COUNT - i,
    {
        let cur: u32 = drone.motors[i].current_throttle;
        drone.motors[i] = DroneMotor { current_throttle: cur, target_throttle: throttle };
        i += 1;
    }
    proof {
        assert(drone.targets() =~= Seq::new(MOTOR_COUNT as nat, |i: int| throttle));
        assert(drone.currents() =~= old(drone).currents());
    }
}

/// Applies one command to the vehicle, exactly as `command_targets` and
/// `command_armed` state: thrust commands mix with the height correction,
/// arm and disarm zero every target and toggle the safety latch. Running
/// throttles are untouched until force application.
pub fn apply_command(drone: &mut Drone, cmd: &DroneCommand, correction: i64)
    requires
        old(drone).wf(),
    ensures
        final(drone).wf(),
        final(drone).targets() == command_targets(*cmd, correction as int),
        final(drone).currents() == old(drone).currents(),
        final(drone).armed == command_armed(*cmd, old(drone).armed),
{
    match cmd {
        DroneCommand::Rpyt(c) => {
            let throttles = calculate_motor_throttles(c, correction);
            proof {
                lemma_thrust_bound(c.thrust, correction as int);
            }
            set_all_targets(drone, throttles[0]);
            proof {
                assert(drone.targets() =~= command_targets(*cmd, correction as int));
            }
        },
        DroneCommand::Arm => {
            set_all_targets(drone, 0);
            drone.armed = true;
            proof {
                assert(drone.targets() =~= command_targets(*cmd, correction as int));
            }
        },
        DroneCommand::Disarm => {
            set_all_targets(drone, 0);
            drone.armed = false;
            proof {
                assert(drone.targets() =~= command_targets(*cmd, correction as int));
            }
        },
    }
}

/// Applies a drained batch of commands in enqueue order — the reference
/// last-wins semantics of one tick, for both the targets and the safety
/// latch.
pub fn apply_commands(drone: &mut Drone, cmds: &Vec<DroneCommand>, correction: i64)
    requires
        old(drone).wf(),
    ensures
        final(drone).wf(),
        final(drone).targets() == run_commands(old(drone).targets(), cmds@, correction as int),
        final(drone).currents() == old(drone).currents(),
        final(drone).armed == run_armed(old(drone).armed, cmds@),
{
    let mut i: usize = 0;
    while i < cmds.len()
        invariant
            old(drone).wf(),
            drone.wf(),
            i <= cmds@.len(),
            drone.targets() == run_commands(old(drone).targets(), cmds@.take(i as int), correction as int),
            drone.currents() == old(drone).currents(),
            drone.armed == run_armed(old(drone).armed, cmds@.take(i as int)),
        decreases cmds@.len() - i,
    {
        apply_command(drone, &cmds[i], correction);
        proof {
            let done = cmds@.take(i as int);
            let done_next = cmds@.take(i as int + 1);
            assert(done_next =~= done.push(cmds@[i as int]));
            assert(done_next.len() > 0);
            assert(done_next.last() == cmds@[i as int]);
            lemma_last_command_wins(old(drone).targets(), done_next, correction as int);
            lemma_run_armed_snoc(old(drone).armed, done, cmds@[i as int]);
        }
        i += 1;
    }
    proof {
        assert(cmds@.take(cmds@.len() as int) =~= cmds@);
    }
}

/// The upward thrust of one motor at a running throttle, in micronewtons.
pub open spec fn motor_thrust_un_spec(throttle: u32) -> int {
    throttle * (MAX_THRUST_PER_MOTOR_UN as int) / (THROTTLE_SCALE as int)
}

/// Net vertical force on the vehicle, in micronewtons: the thrust of all
/// four motors minus the vehicle's weight. Lateral force and torque are
/// always zero (attitude is deliberately not actuated).
pub open spec fn net_force_un_spec(currents: Seq<u32>) -> int
    recommends
        currents.len() == MOTOR_COUNT as int,
{
    motor_thrust_un_spec(currents[0]) + motor_thrust_un_spec(currents[1]) + motor_thrust_un_spec(
        currents[2],
    ) + motor_thrust_un_spec(currents[3]) - HOVER_THRUST_UN as int
}

/// Latches every motor's running throttle to its target (no slew limiting)
/// and returns the net vertical force the physics host should apply this
/// tick, in micronewtons.
pub fn apply_motor_forces(drone: &mut Drone) -> (net_un: i64)
    requires
        old(drone).wf(),
    ensures
        final(drone).wf(),
        final(drone).targets() == old(drone).targets(),
        final(drone).currents() == old(drone).targets(),
        final(drone).armed == old(drone).armed,
        net_un == net_force_un_spec(final(drone).currents()),
{
    let mut i: usize = 0;
    while i < MOTOR_COUNT
        invariant
            old(drone).wf(),
            i <= MOTOR_COUNT,
            drone.motors@.len() == MOTOR_COUNT as int,
            drone.armed == old(drone).armed,
            forall|j: int| 0 <= j < i ==> drone.motors@[j] == (DroneMotor {
                current_throttle: old(drone).motors@[j].target_throttle,
                target_throttle: old(drone).motors@[j].target_throttle,
            }),
            forall|j: int| i <= j < MOTOR_COUNT as int ==> drone.motors@[j] == old(drone).motors@[j],
        decreases MOTOR_COUNT - i,
    {
        let target: u32 = drone.motors[i].target_throttle;
        drone.motors[i] = DroneMotor { current_throttle: target, target_throttle: target };
        i += 1;
    }
    proof {
        assert(drone.targets() =~= old(drone).targets());
        assert(drone.currents() =~= old(drone).targets());
    }
    let t0: i64 = drone.motors[0].current_throttle as i64 * MAX_THRUST_PER_MOTOR_UN / THROTTLE_SCALE;
    let t1: i64 = drone.motors[1].current_throttle as i64 * MAX_THRUST_PER_MOTOR_UN / THROTTLE_SCALE;
    let t2: i64 = drone.motors[2].current_throttle as i64 * MAX_THRUST_PER_MOTOR_UN / THROTTLE_SCALE;
    let t3: i64 = drone.motors[3].current_throttle as i64 * MAX_THRUST_PER_MOTOR_UN / THROTTLE_SCALE;
    t0 + t1 + t2 + t3 - HOVER_THRUST_UN
}

/// The aggregate thrust magnitude a snapshot reports, on the wire scale: the
/// sum of all running throttles rescaled from millionths to `0..=65535`,
/// saturated at the top of the scale.
pub open spec fn thrust_report_spec(currents: Seq<u32>) -> int
    recommends
        currents.len() == MOTOR_COUNT as int,
{
    let scaled = (currents[0] + currents[1] + currents[2] + currents[3]) * (THRUST_WIRE_MAX as int)
        / (THROTTLE_SCALE as int);
    if scaled > THRUST_WIRE_MAX as int {
        THRUST_WIRE_MAX as int
    } else {
        scaled
    }
}

/// The snapshot one tick publishes for a given vehicle and read-back
/// attitude: angles passed through, aggregate thrust per
/// `thrust_report_spec`, the armed latch as the commands left it, and the
/// simulated battery level.
pub open spec fn state_snapshot_spec(
    drone: Drone,
    roll_mdeg: i32,
    pitch_mdeg: i32,
    yaw_mdeg: i32,
) -> DroneState {
    DroneState {
        roll_mdeg,
        pitch_mdeg,
        yaw_mdeg,
        thrust: thrust_report_spec(drone.currents()) as u16,
        armed: drone.armed,
        battery_mv: SIM_BATTERY_MV,
    }
}

/// Builds the snapshot published after a tick: attitude read back from the
/// physics host, aggregate thrust derived from the running throttles, the
/// safety latch as the commands left it, and the simulated battery level.
pub fn build_state(drone: &Drone, roll_mdeg: i32, pitch_mdeg: i32, yaw_mdeg: i32) -> (s: DroneState)
    requires
        drone.wf(),
    ensures
        s == state_snapshot_spec(*drone, roll_mdeg, pitch_mdeg, yaw_mdeg),
        s.thrust == thrust_report_spec(drone.currents()),
        s.armed == drone.armed,
{
    proof {
        assert(motor_wf(drone.motors@[0]));
        assert(motor_wf(drone.motors@[1]));
        assert(motor_wf(drone.motors@[2]));
        assert(motor_wf(drone.motors@[3]));
    }
    let c0: u32 = drone.motors[0].current_throttle;
    let c1: u32 = drone.motors[1].current_throttle;
    let c2: u32 = drone.motors[2].current_throttle;
    let c3: u32 = drone.motors[3].current_throttle;
    let total: u64 = c0 as u64 + c1 as u64 + c2 as u64 + c3 as u64;
    proof {
        assert(total <= 4 * THROTTLE_SCALE as u64);
        assert(total * (THRUST_WIRE_MAX as u64) <= 4 * (THROTTLE_SCALE as int) * (
        THRUST_WIRE_MAX as int)) by (nonlinear_arith)
            requires
                total <= 4 * THROTTLE_SCALE as u64,
        ;
    }
    let scaled: u64 = total * THRUST_WIRE_MAX as u64 / THROTTLE_SCALE as u64;
    let thrust: u16 = if scaled > THRUST_WIRE_MAX as u64 {
        THRUST_WIRE_MAX as u16
    } else {
        scaled as u16
    };
    DroneState {
        roll_mdeg,
        pitch_mdeg,
        yaw_mdeg,
        thrust,
        armed: drone.armed,
        battery_mv: SIM_BATTERY_MV,
    }
}

} // verus!
