//! The vehicle node.
//!
//! Construction requires the vehicle's role-name attribute; without it the
//! entity is rejected and not registered.  A one-shot vehicle-info message
//! (the static physics snapshot) is produced exactly once, at construction.
//! Each tick the publish side applies the pending command of record, if any,
//! to the actuator surface and emits odometry.  The subscribe side's two
//! command streams are merged by the shell into the node's single-slot
//! mailbox.

use vstd::prelude::*;

use crate::actor_node::odom::{spec_odom_next, OdomPub};
use crate::control::{
    direct_control, plan_ackermann, spec_ackermann_plan, spec_direct_control, spec_new_warnings,
    spec_send, spec_warn_update, CommandSlot, ControlAction, ControlKind, WarnFlags, Warning,
};
use crate::msg::{TimeMsg, Vec3Bits, VehicleInfoMsg, WheelInfoMsg};
use crate::time::TimeDelta;
use crate::utils::{physics_matches, ActorPhysics, ActorSnapshot};

verus! {

/// Static physical parameters of one wheel, as the simulator reports them.
/// Scalar fields are 32-bit float bit patterns.
#[derive(Debug, Clone, Copy, PartialEq, Eq, Structural)]
pub struct WheelData {
    pub tire_friction: u32,
    pub damping_rate: u32,
    pub max_steer_angle: u32,
    pub radius: u32,
    pub max_brake_torque: u32,
    pub max_handbrake_torque: u32,
    pub position: Vec3Bits,
}

/// A vehicle's static physics snapshot, read once at node creation and
/// treated as immutable for the node's life.
#[derive(Debug, Clone, PartialEq)]
pub struct VehiclePhysicsData {
    pub max_rpm: u32,
    pub moi: u32,
    pub damping_rate_full_throttle: u32,
    pub damping_rate_zero_throttle_clutch_engaged: u32,
    pub damping_rate_zero_throttle_clutch_disengaged: u32,
    pub use_gear_autobox: bool,
    pub gear_switch_time: u32,
    pub clutch_strength: u32,
    pub mass: u32,
    pub drag_coefficient: u32,
    pub center_of_mass: Vec3Bits,
    pub wheels: Vec<WheelData>,
}

/// The announced form of one wheel's parameters.
pub open spec fn spec_wheel_info(w: WheelData) -> WheelInfoMsg {
    WheelInfoMsg {
        tire_friction: w.tire_friction,
        damping_rate: w.damping_rate,
        max_steer_angle: w.max_steer_angle,
        radius: w.radius,
        max_brake_torque: w.max_brake_torque,
        max_handbrake_torque: w.max_handbrake_torque,
        position: w.position,
    }
}

/// The one-shot vehicle announcement carries the physics snapshot verbatim,
/// each wheel mapped to its announced form.
pub open spec fn vehicle_info_matches(
    m: VehicleInfoMsg,
    id: u32,
    type_id: Seq<char>,
    rolename: Seq<char>,
    physics: VehiclePhysicsData,
) -> bool {
    &&& m.id == id
    &&& m.type_id@ == type_id
    &&& m.rolename@ == rolename
    &&& m.wheels@.len() == physics.wheels@.len()
    &&& forall|i: int| 0 <= i < physics.wheels@.len() ==> m.wheels@[i] == spec_wheel_info(
        #[trigger] physics.wheels@[i],
    )
    &&& m.max_rpm == physics.max_rpm
    &&& m.moi == physics.moi
    &&& m.damping_rate_full_throttle == physics.damping_rate_full_throttle
    &&& m.damping_rate_zero_throttle_clutch_engaged
        == physics.damping_rate_zero_throttle_clutch_engaged
    &&& m.damping_rate_zero_throttle_clutch_disengaged
        == physics.damping_rate_zero_throttle_clutch_disengaged
    &&& m.use_gear_autobox == physics.use_gear_autobox
    &&& m.gear_switch_time == physics.gear_switch_time
    &&& m.clutch_strength == physics.clutch_strength
    &&& m.mass == physics.mass
    &&& m.drag_coefficient == physics.drag_coefficient
    &&& m.center_of_mass == physics.center_of_mass
}

/// Builds the one-shot vehicle announcement from the static physics
/// snapshot.
pub fn vehicle_info_msg(
    id: u32,
    type_id: &String,
    rolename: &String,
    physics: &VehiclePhysicsData,
) -> (m: VehicleInfoMsg)
    ensures
        vehicle_info_matches(m, id, type_id@, rolename@, *physics),
{
    let mut wheels: Vec<WheelInfoMsg> = Vec::new();
    let mut i: usize = 0;
    while i < physics.wheels.len()
        invariant
            i <= physics.wheels@.len(),
            wheels@.len() == i,
            forall|k: int| 0 <= k < i ==> wheels@[k] == spec_wheel_info(
                #[trigger] physics.wheels@[k],
            ),
        decreases physics.wheels@.len() - i,
    {
        let w = physics.wheels[i];
        wheels.push(
            WheelInfoMsg {
                tire_friction: w.tire_friction,
                damping_rate: w.damping_rate,
                max_steer_angle: w.max_steer_angle,
                radius: w.radius,
                max_brake_torque: w.max_brake_torque,
                max_handbrake_torque: w.max_handbrake_torque,
                position: w.position,
            },
        );
        i = i + 1;
    }
    VehicleInfoMsg {
        id,
        type_id: type_id.clone(),
        rolename: rolename.clone(),
        wheels,
        max_rpm: physics.max_rpm,
        moi: physics.moi,
        damping_rate_full_throttle: physics.damping_rate_full_throttle,
        damping_rate_zero_throttle_clutch_engaged: physics.damping_rate_zero_throttle_clutch_engaged,
        damping_rate_zero_throttle_clutch_disengaged: physics.damping_rate_zero_throttle_clutch_disengaged,
        use_gear_autobox: physics.use_gear_autobox,
        gear_switch_time: physics.gear_switch_time,
        clutch_strength: physics.clutch_strength,
        mass: physics.mass,
        drag_coefficient: physics.drag_coefficient,
        center_of_mass: physics.center_of_mass,
    }
}

/// Why an entity could not be turned into a node.
#[derive(Debug, Clone, Copy, PartialEq, Eq, Structural)]
pub enum ActorBuildError {
    MissingRoleName,
}

/// Publish side of a vehicle node.
#[derive(Debug, Clone, PartialEq)]
pub struct VehiclePub {
    pub id: u32,
    pub type_id: String,
    pub role_name: String,
    pub physics: VehiclePhysicsData,
    pub odom_pub: OdomPub,
    pub slot: CommandSlot,
    pub warned: WarnFlags,
}

/// Subscribe side of a vehicle node: the shell runs it as a concurrent task
/// that forwards both command streams into the node's mailbox.
#[derive(Debug, Clone, Copy, PartialEq, Eq, Structural)]
pub struct VehicleSub {}

/// Creates the node pair for a vehicle entity, together with its one-shot
/// vehicle-info announcement.  A vehicle without a role-name attribute is
/// rejected and not registered.
pub fn new(
    id: u32,
    type_id: String,
    role_name: Option<String>,
    physics: VehiclePhysicsData,
) -> (r: Result<(VehiclePub, VehicleSub, VehicleInfoMsg), ActorBuildError>)
    ensures
        r is Ok <==> role_name is Some,
        r matches Err(e) ==> e == ActorBuildError::MissingRoleName,
        r matches Ok((p, _sub, info)) ==> {
            &&& p.id == id
            &&& p.type_id == type_id
            &&& Some(p.role_name) == role_name
            &&& p.physics == physics
            &&& p.odom_pub.frame_count == 0
            &&& p.slot.cmd is None
            &&& p.warned == (WarnFlags { steer_rate: false, jerk: false, missing_accel: false })
            &&& vehicle_info_matches(info, id, type_id@, role_name.unwrap()@, physics)
        },
{
    let role_name = match role_name {
        Some(rn) => rn,
        None => {
            return Err(ActorBuildError::MissingRoleName);
        },
    };
    let info = vehicle_info_msg(id, &type_id, &role_name, &physics);
    let pub_ = VehiclePub {
        id,
        type_id,
        role_name,
        physics,
        odom_pub: OdomPub::new(),
        slot: CommandSlot::empty(),
        warned: WarnFlags::none(),
    };
    Ok((pub_, VehicleSub {}, info))
}

/// The command of record after a poll that saw `new_command`: a newly
/// arrived command overwrites the slot, otherwise the slot keeps its value.
pub open spec fn spec_slot_after(slot: CommandSlot, new_command: Option<ControlKind>) -> CommandSlot {
    match new_command {
        Some(c) => spec_send(slot, c),
        None => slot,
    }
}

/// The action one poll takes for a given command of record.
pub open spec fn spec_vehicle_action(
    cmd: Option<ControlKind>,
    delta: TimeDelta,
) -> Option<ControlAction> {
    match cmd {
        None => None,
        Some(ControlKind::Direct(d)) => Some(ControlAction::Direct(spec_direct_control(d))),
        Some(ControlKind::Ackermann(a)) => Some(
            ControlAction::Ackermann(spec_ackermann_plan(a, delta)),
        ),
    }
}

/// The warning flags after one poll: only an ackermann command of record can
/// trigger new warnings.
pub open spec fn spec_vehicle_warned(
    cmd: Option<ControlKind>,
    warned: WarnFlags,
) -> WarnFlags {
    match cmd {
        Some(ControlKind::Ackermann(a)) => spec_warn_update(a, warned),
        _ => warned,
    }
}

/// The warnings one poll emits.
pub open spec fn spec_vehicle_warnings(
    cmd: Option<ControlKind>,
    warned: WarnFlags,
) -> Seq<Warning> {
    match cmd {
        Some(ControlKind::Ackermann(a)) => spec_new_warnings(a, warned),
        _ => Seq::empty(),
    }
}

impl VehiclePub {
    /// Hands a newly arrived command to the node's mailbox: last write wins.
    pub fn send_command(&mut self, cmd: ControlKind)
        ensures
            final(self).slot == spec_send(old(self).slot, cmd),
            final(self).id == old(self).id,
            final(self).type_id == old(self).type_id,
            final(self).role_name == old(self).role_name,
            final(self).physics == old(self).physics,
            final(self).odom_pub == old(self).odom_pub,
            final(self).warned == old(self).warned,
    {
        self.slot.send(cmd);
    }

    /// One tick of the vehicle: takes the newest command, if one arrived,
    /// as the command of record; applies the command of record (a direct
    /// command verbatim, an ackermann command as a controller plan); and
    /// emits odometry.  With no new command the previous command of record
    /// is re-applied: the slot is a set-point, not a one-shot.
    pub fn poll(
        &mut self,
        time: TimeMsg,
        delta: &TimeDelta,
        new_command: Option<ControlKind>,
        snap: &ActorSnapshot,
    ) -> (r: (Option<ControlAction>, Vec<Warning>, ActorPhysics))
        requires
            old(self).odom_pub.frame_count < u64::MAX,
        ensures
            final(self).id == old(self).id,
            final(self).type_id == old(self).type_id,
            final(self).role_name == old(self).role_name,
            final(self).physics == old(self).physics,
            final(self).odom_pub == spec_odom_next(old(self).odom_pub),
            final(self).slot == spec_slot_after(old(self).slot, new_command),
            final(self).warned == spec_vehicle_warned(
                spec_slot_after(old(self).slot, new_command).cmd,
                old(self).warned,
            ),
            r.0 == spec_vehicle_action(spec_slot_after(old(self).slot, new_command).cmd, *delta),
            r.1@ == spec_vehicle_warnings(
                spec_slot_after(old(self).slot, new_command).cmd,
                old(self).warned,
            ),
            physics_matches(r.2, time, old(self).odom_pub.frame_count, *snap),
    {
        if let Some(cmd) = new_command {
            self.slot.send(cmd);
        }
        let (action, warnings): (Option<ControlAction>, Vec<Warning>) = match self.slot.peek() {
            None => (None, Vec::new()),
            Some(ControlKind::Direct(d)) => (Some(ControlAction::Direct(direct_control(&d))), Vec::new()),
            Some(ControlKind::Ackermann(a)) => {
                let (plan, flags, warnings) = plan_ackermann(&a, delta, self.warned);
                self.warned = flags;
                (Some(ControlAction::Ackermann(plan)), warnings)
            },
        };
        let p = self.odom_pub.poll(time, snap);
        (action, warnings, p)
    }
}

/// Law: a command of record stays in force.  A poll that sees no new command
/// leaves the slot untouched and derives its action from the old command
/// again, so every subsequent poll without new input re-applies it.
pub proof fn lemma_stale_command_reapplied(slot: CommandSlot, delta: TimeDelta)
    ensures
        spec_slot_after(slot, None) == slot,
        spec_vehicle_action(spec_slot_after(slot, None).cmd, delta) == spec_vehicle_action(
            slot.cmd,
            delta,
        ),
{
}

} // verus!
