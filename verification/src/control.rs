//! Vehicle control arbitration.
//!
//! Two independent inbound command streams can target one vehicle: a direct
//! actuator command, applied verbatim, and an ackermann command, converted by
//! a closed-loop controller.  The subscribe task merges both into a
//! single-slot, overwrite-on-send, peek-without-consume mailbox; the poll
//! path re-applies whatever the slot holds, every tick, until a newer command
//! overwrites it.  Float-valued fields are 32-bit IEEE-754 bit patterns.

use vstd::prelude::*;

use crate::time::TimeDelta;

verus! {

/// A direct actuator command as it arrives from the bus.
#[derive(Debug, Clone, Copy, PartialEq, Eq, Structural)]
pub struct DirectCommand {
    pub throttle: u32,
    pub steer: u32,
    pub brake: u32,
    pub hand_brake: bool,
    pub reverse: bool,
    pub gear: i32,
    pub manual_gear_shift: bool,
}

/// An ackermann command as it arrives from the bus: lateral and longitudinal
/// targets with their presence flags.
#[derive(Debug, Clone, Copy, PartialEq, Eq, Structural)]
pub struct AckermannCommand {
    pub steering_tire_angle: u32,
    pub is_defined_steering_tire_rotation_rate: bool,
    pub velocity: u32,
    pub acceleration: u32,
    pub is_defined_acceleration: bool,
    pub is_defined_jerk: bool,
}

/// One command of either stream, tagged.
#[derive(Debug, Clone, Copy, PartialEq, Eq, Structural)]
pub enum ControlKind {
    Direct(DirectCommand),
    Ackermann(AckermannCommand),
}

impl From<DirectCommand> for ControlKind {
    fn from(v: DirectCommand) -> (r: Self) {
        ControlKind::Direct(v)
    }
}

impl vstd::std_specs::convert::FromSpecImpl<DirectCommand> for ControlKind {
    open spec fn obeys_from_spec() -> bool {
        true
    }

    open spec fn from_spec(v: DirectCommand) -> Self {
        ControlKind::Direct(v)
    }
}

impl From<AckermannCommand> for ControlKind {
    fn from(v: AckermannCommand) -> (r: Self) {
        ControlKind::Ackermann(v)
    }
}

impl vstd::std_specs::convert::FromSpecImpl<AckermannCommand> for ControlKind {
    open spec fn obeys_from_spec() -> bool {
        true
    }

    open spec fn from_spec(v: AckermannCommand) -> Self {
        ControlKind::Ackermann(v)
    }
}

/// The single-slot mailbox between the subscribe task and the poll path:
/// sending overwrites any unconsumed value, peeking never drains.
#[derive(Debug, Clone, Copy, PartialEq, Eq, Structural)]
pub struct CommandSlot {
    pub cmd: Option<ControlKind>,
}

/// The slot after a send: the new command, whatever was there before.
pub open spec fn spec_send(slot: CommandSlot, cmd: ControlKind) -> CommandSlot {
    CommandSlot { cmd: Some(cmd) }
}

impl CommandSlot {
    /// A fresh slot: no command has arrived yet.
    pub fn empty() -> (r: CommandSlot)
        ensures
            r.cmd is None,
    {
        CommandSlot { cmd: None }
    }

    /// Overwrites the slot with the newest command; a superseded command is
    /// dropped, never queued.
    pub fn send(&mut self, cmd: ControlKind)
        ensures
            *final(self) == spec_send(*old(self), cmd),
    {
        self.cmd = Some(cmd);
    }

    /// Reads the command of record without consuming it: repeated peeks see
    /// the same command until a send overwrites it.
    pub fn peek(&self) -> (r: Option<ControlKind>)
        ensures
            r == self.cmd,
    {
        self.cmd
    }
}

/// Law: of two commands sent in order, the later one is the command of
/// record, whichever streams they came from.
pub proof fn lemma_last_command_wins(slot: CommandSlot, first: ControlKind, second: ControlKind)
    ensures
        spec_send(spec_send(slot, first), second).cmd == Some(second),
{
}

/// The actuator surface of the simulator: what one application of a command
/// sets.
#[derive(Debug, Clone, Copy, PartialEq, Eq, Structural)]
pub struct VehicleControl {
    pub throttle: u32,
    pub steer: u32,
    pub brake: u32,
    pub hand_brake: bool,
    pub reverse: bool,
    pub manual_gear_shift: bool,
    pub gear: i32,
}

/// The actuator values a direct command sets: the five fields pass straight
/// through.
pub open spec fn spec_direct_control(cmd: DirectCommand) -> VehicleControl {
    VehicleControl {
        throttle: cmd.throttle,
        steer: cmd.steer,
        brake: cmd.brake,
        hand_brake: cmd.hand_brake,
        reverse: cmd.reverse,
        manual_gear_shift: cmd.manual_gear_shift,
        gear: cmd.gear,
    }
}

/// Applies a direct command: passes the actuator fields through verbatim.
pub fn direct_control(cmd: &DirectCommand) -> (r: VehicleControl)
    ensures
        r == spec_direct_control(*cmd),
{
    VehicleControl {
        throttle: cmd.throttle,
        steer: cmd.steer,
        brake: cmd.brake,
        hand_brake: cmd.hand_brake,
        reverse: cmd.reverse,
        manual_gear_shift: cmd.manual_gear_shift,
        gear: cmd.gear,
    }
}

/// Which unsupported or missing command fields have been warned about
/// already.  Each warning is emitted once per vehicle, not once per message.
#[derive(Debug, Clone, Copy, PartialEq, Eq, Structural)]
pub struct WarnFlags {
    pub steer_rate: bool,
    pub jerk: bool,
    pub missing_accel: bool,
}

impl WarnFlags {
    /// No warning emitted yet.
    pub fn none() -> (r: WarnFlags)
        ensures
            r == (WarnFlags { steer_rate: false, jerk: false, missing_accel: false }),
    {
        WarnFlags { steer_rate: false, jerk: false, missing_accel: false }
    }
}

/// A one-time warning about an ackermann command.
#[derive(Debug, Clone, Copy, PartialEq, Eq, Structural)]
pub enum Warning {
    SteeringRateUnsupported,
    JerkUnsupported,
    AccelerationMissing,
}

/// What the closed-loop controller is asked to do for one ackermann command:
/// the targets handed to it and the real time elapsed since the last step.
#[derive(Debug, Clone, Copy, PartialEq, Eq, Structural)]
pub struct AckermannPlan {
    pub steering_angle: u32,
    pub speed: u32,
    pub accel: u32,
    pub elapsed_nanos: u64,
}

/// The plan an ackermann command produces: targets pass through, except that
/// a missing acceleration falls back to zero.
pub open spec fn spec_ackermann_plan(cmd: AckermannCommand, delta: TimeDelta) -> AckermannPlan {
    AckermannPlan {
        steering_angle: cmd.steering_tire_angle,
        speed: cmd.velocity,
        accel: if cmd.is_defined_acceleration {
            cmd.acceleration
        } else {
            0
        },
        elapsed_nanos: delta.time_delta,
    }
}

/// The warning flags after seeing one ackermann command.
pub open spec fn spec_warn_update(cmd: AckermannCommand, warned: WarnFlags) -> WarnFlags {
    WarnFlags {
        steer_rate: warned.steer_rate || cmd.is_defined_steering_tire_rotation_rate,
        jerk: warned.jerk || cmd.is_defined_jerk,
        missing_accel: warned.missing_accel || !cmd.is_defined_acceleration,
    }
}

/// The warnings one ackermann command emits: each condition warns only the
/// first time it is seen.
pub open spec fn spec_new_warnings(cmd: AckermannCommand, warned: WarnFlags) -> Seq<Warning> {
    (if cmd.is_defined_steering_tire_rotation_rate && !warned.steer_rate {
        seq![Warning::SteeringRateUnsupported]
    } else {
        Seq::empty()
    }) + (if cmd.is_defined_jerk && !warned.jerk {
        seq![Warning::JerkUnsupported]
    } else {
        Seq::empty()
    }) + (if !cmd.is_defined_acceleration && !warned.missing_accel {
        seq![Warning::AccelerationMissing]
    } else {
        Seq::empty()
    })
}

/// Turns an ackermann command into a controller plan: unsupported sub-fields
/// (rotation-rate steering, jerk) are ignored with a one-time warning, and a
/// missing acceleration falls back to zero with a one-time warning.
pub fn plan_ackermann(cmd: &AckermannCommand, delta: &TimeDelta, warned: WarnFlags) -> (r: (
    AckermannPlan,
    WarnFlags,
    Vec<Warning>,
))
    ensures
        r.0 == spec_ackermann_plan(*cmd, *delta),
        r.1 == spec_warn_update(*cmd, warned),
        r.2@ == spec_new_warnings(*cmd, warned),
{
    let mut warnings: Vec<Warning> = Vec::new();
    if cmd.is_defined_steering_tire_rotation_rate && !warned.steer_rate {
        warnings.push(Warning::SteeringRateUnsupported);
    }
    if cmd.is_defined_jerk && !warned.jerk {
        warnings.push(Warning::JerkUnsupported);
    }
    let accel = if cmd.is_defined_acceleration {
        cmd.acceleration
    } else {
        if !warned.missing_accel {
            warnings.push(Warning::AccelerationMissing);
        }
        0
    };
    let plan = AckermannPlan {
        steering_angle: cmd.steering_tire_angle,
        speed: cmd.velocity,
        accel,
        elapsed_nanos: delta.time_delta,
    };
    let flags = WarnFlags {
        steer_rate: warned.steer_rate || cmd.is_defined_steering_tire_rotation_rate,
        jerk: warned.jerk || cmd.is_defined_jerk,
        missing_accel: warned.missing_accel || !cmd.is_defined_acceleration,
    };
    proof {
        assert(warnings@ =~= spec_new_warnings(*cmd, warned));
    }
    (plan, flags, warnings)
}

/// What one poll of a vehicle does to the simulator's actuator surface.
#[derive(Debug, Clone, Copy, PartialEq, Eq, Structural)]
pub enum ControlAction {
    Direct(VehicleControl),
    Ackermann(AckermannPlan),
}

/// The bit pattern of 70 degrees in radians as a 32-bit float: the steering
/// limit assumed when a vehicle reports no per-wheel limits.
pub const DEFAULT_MAX_STEER_ANGLE_BITS: u32 = 0x3f9c_61aa;

/// The bit pattern of the largest finite positive 32-bit float; bit patterns
/// up to here order exactly as the non-negative float values they encode.
pub const F32_INFINITY_BITS: u32 = 0x7f80_0000;

/// A vehicle's steering limit: the minimum of its wheels' steering limits,
/// or the 70-degree default when it reports none.  For non-negative,
/// non-NaN 32-bit floats the unsigned order of the bit patterns equals the
/// numeric order, so the minimum bit pattern encodes the minimum angle.
pub fn max_steering_angle(wheel_max_steer: &Vec<u32>) -> (r: u32)
    requires
        forall|i: int| 0 <= i < wheel_max_steer@.len() ==> #[trigger] wheel_max_steer@[i]
            <= F32_INFINITY_BITS,
    ensures
        wheel_max_steer@.len() == 0 ==> r == DEFAULT_MAX_STEER_ANGLE_BITS,
        wheel_max_steer@.len() > 0 ==> wheel_max_steer@.contains(r) && forall|i: int|
            0 <= i < wheel_max_steer@.len() ==> r <= #[trigger] wheel_max_steer@[i],
{
    if wheel_max_steer.len() == 0 {
        return DEFAULT_MAX_STEER_ANGLE_BITS;
    }
    let mut best = wheel_max_steer[0];
    let mut i: usize = 1;
    while i < wheel_max_steer.len()
        invariant
            1 <= i <= wheel_max_steer@.len(),
            wheel_max_steer@.contains(best),
            forall|k: int| 0 <= k < i ==> best <= #[trigger] wheel_max_steer@[k],
        decreases wheel_max_steer@.len() - i,
    {
        if wheel_max_steer[i] < best {
            best = wheel_max_steer[i];
        }
        i = i + 1;
    }
    best
}

} // verus!
