//! The polymorphic actor node: one tagged union over the closed set of
//! entity kinds, constructed from a discovery description and polled once
//! per tick through a single interface.

use vstd::prelude::*;

use crate::actor_node::odom::{spec_odom_next, OdomPub};
use crate::actor_node::other::{self, OtherPub, OtherSub};
use crate::actor_node::sensor::{self, SensorPub, SensorSub};
use crate::actor_node::traffic_light::{
    self, reportable, signal_slots_match, TrafficLightPub, TrafficLightSub,
};
use crate::actor_node::traffic_sign::{self, TrafficSignPub, TrafficSignSub};
use crate::actor_node::vehicle::{
    self, spec_slot_after, spec_vehicle_action, spec_vehicle_warned, spec_vehicle_warnings,
    vehicle_info_matches, ActorBuildError, VehiclePhysicsData, VehiclePub, VehicleSub,
};
use crate::control::{
    spec_new_warnings, spec_warn_update, CommandSlot, ControlAction, ControlKind, WarnFlags,
    Warning,
};
use crate::msg::{
    AccelStampedMsg, BoundingBoxBits, Header, OdometryMsg, OrientedBoundingBoxMsg, TimeMsg,
    TrafficSignalStampedMsg, TypeMsg, VehicleInfoMsg,
};
use crate::time::TimeDelta;
use crate::types::LightState;
use crate::utils::{accel_msg_is, odometry_msg_is, ActorSnapshot, ToRosType};

verus! {

/// What the registry learns about an entity at discovery time.  The kind is
/// determined once and never changes for the entity's lifetime.
#[derive(Debug, Clone, PartialEq)]
pub enum ActorDescription {
    Vehicle { type_id: String, role_name: Option<String>, physics: VehiclePhysicsData },
    Sensor { type_id: String },
    TrafficLight,
    TrafficSign,
    Other,
}

/// Whether a description can be turned into a node: only a vehicle missing
/// its role-name attribute cannot.
pub open spec fn constructible(desc: ActorDescription) -> bool {
    match desc {
        ActorDescription::Vehicle { role_name, .. } => role_name is Some,
        _ => true,
    }
}

/// Publish side of one entity's node, specialized by kind.
#[derive(Debug, Clone, PartialEq)]
pub enum ActorPub {
    Vehicle(VehiclePub),
    Sensor(SensorPub),
    TrafficLight(TrafficLightPub),
    TrafficSign(TrafficSignPub),
    Other(OtherPub),
}

/// Subscribe side of one entity's node, specialized by kind.  Only the
/// vehicle's carries work: the shell runs it as a concurrent task.
#[derive(Debug, Clone, Copy, PartialEq, Eq, Structural)]
pub enum ActorSub {
    Vehicle(VehicleSub),
    Sensor(SensorSub),
    TrafficLight(TrafficLightSub),
    TrafficSign(TrafficSignSub),
    Other(OtherSub),
}

/// The freshly constructed node for a constructible description: every frame
/// counter at 0, the command slot empty, no warning emitted yet.
pub open spec fn spec_new_node(id: u32, desc: ActorDescription) -> ActorPub
    recommends
        constructible(desc),
{
    match desc {
        ActorDescription::Vehicle { type_id, role_name, physics } => ActorPub::Vehicle(
            VehiclePub {
                id,
                type_id,
                role_name: role_name.unwrap(),
                physics,
                odom_pub: OdomPub { frame_count: 0 },
                slot: CommandSlot { cmd: None },
                warned: WarnFlags { steer_rate: false, jerk: false, missing_accel: false },
            },
        ),
        ActorDescription::Sensor { type_id } => ActorPub::Sensor(
            SensorPub { type_id, odom_pub: OdomPub { frame_count: 0 } },
        ),
        ActorDescription::TrafficLight => ActorPub::TrafficLight(
            TrafficLightPub { odom_pub: OdomPub { frame_count: 0 } },
        ),
        ActorDescription::TrafficSign => ActorPub::TrafficSign(
            TrafficSignPub { odom_pub: OdomPub { frame_count: 0 } },
        ),
        ActorDescription::Other => ActorPub::Other(OtherPub { odom_pub: OdomPub { frame_count: 0 } }),
    }
}

/// The subscribe side a description's node gets.
pub open spec fn spec_new_sub(desc: ActorDescription) -> ActorSub {
    match desc {
        ActorDescription::Vehicle { .. } => ActorSub::Vehicle(VehicleSub {}),
        ActorDescription::Sensor { .. } => ActorSub::Sensor(SensorSub {}),
        ActorDescription::TrafficLight => ActorSub::TrafficLight(TrafficLightSub {}),
        ActorDescription::TrafficSign => ActorSub::TrafficSign(TrafficSignSub {}),
        ActorDescription::Other => ActorSub::Other(OtherSub {}),
    }
}

/// Constructs the node pair for a discovered entity, dispatching on its
/// kind.  A vehicle also yields its one-shot info announcement.  A vehicle
/// without a role name is rejected: that entity is not registered and the
/// registry goes on with the others.
pub fn new(id: u32, desc: ActorDescription) -> (r: Result<
    (ActorPub, ActorSub, Option<VehicleInfoMsg>),
    ActorBuildError,
>)
    ensures
        r is Ok <==> constructible(desc),
        r matches Err(e) ==> e == ActorBuildError::MissingRoleName,
        r matches Ok((p, sub, info)) ==> {
            &&& p == spec_new_node(id, desc)
            &&& sub == spec_new_sub(desc)
            &&& (info is Some <==> desc is Vehicle)
            &&& (desc matches ActorDescription::Vehicle { type_id, role_name, physics } ==> info
                matches Some(i) && vehicle_info_matches(
                i,
                id,
                type_id@,
                role_name.unwrap()@,
                physics,
            ))
        },
{
    match desc {
        ActorDescription::Vehicle { type_id, role_name, physics } => {
            match vehicle::new(id, type_id, role_name, physics) {
                Ok((p, sub, info)) => Ok(
                    (ActorPub::Vehicle(p), ActorSub::Vehicle(sub), Some(info)),
                ),
                Err(e) => Err(e),
            }
        },
        ActorDescription::Sensor { type_id } => {
            let (p, sub) = sensor::new(type_id);
            Ok((ActorPub::Sensor(p), ActorSub::Sensor(sub), None))
        },
        ActorDescription::TrafficLight => {
            let (p, sub) = traffic_light::new();
            Ok((ActorPub::TrafficLight(p), ActorSub::TrafficLight(sub), None))
        },
        ActorDescription::TrafficSign => {
            let (p, sub) = traffic_sign::new();
            Ok((ActorPub::TrafficSign(p), ActorSub::TrafficSign(sub), None))
        },
        ActorDescription::Other => {
            let (p, sub) = other::new();
            Ok((ActorPub::Other(p), ActorSub::Other(sub), None))
        },
    }
}

/// The kind-specific inputs of one poll.
#[derive(Debug, Clone, Copy, PartialEq, Eq, Structural)]
pub enum PollData {
    Vehicle { new_command: Option<ControlKind> },
    Sensor,
    TrafficLight { state: LightState, trigger_volume: BoundingBoxBits },
    TrafficSign { trigger_volume: BoundingBoxBits },
    Other,
}

/// Whether a poll input fits a node's kind.
pub open spec fn data_matches(node: ActorPub, data: PollData) -> bool {
    match node {
        ActorPub::Vehicle(_) => data is Vehicle,
        ActorPub::Sensor(_) => data is Sensor,
        ActorPub::TrafficLight(_) => data is TrafficLight,
        ActorPub::TrafficSign(_) => data is TrafficSign,
        ActorPub::Other(_) => data is Other,
    }
}

/// One message a poll emits.
#[derive(Debug, Clone, PartialEq)]
pub enum OutMsg {
    Odometry(OdometryMsg),
    Accel(AccelStampedMsg),
    TypeInfo(TypeMsg),
    Signal(TrafficSignalStampedMsg),
    TriggerVolume(OrientedBoundingBoxMsg),
}

/// Everything one poll of one node produces: the messages to publish, in
/// emission order, and for a vehicle the actuator action and any one-time
/// warnings.
#[derive(Debug, Clone, PartialEq)]
pub struct PollOutput {
    pub msgs: Vec<OutMsg>,
    pub action: Option<ControlAction>,
    pub warnings: Vec<Warning>,
}

/// Whether a node can be polled once more: its frame counter has room to
/// advance.
pub open spec fn can_poll(node: ActorPub) -> bool {
    match node {
        ActorPub::Vehicle(p) => p.odom_pub.frame_count < u64::MAX,
        ActorPub::Sensor(p) => p.odom_pub.frame_count < u64::MAX,
        ActorPub::TrafficLight(p) => p.odom_pub.frame_count < u64::MAX,
        ActorPub::TrafficSign(p) => p.odom_pub.frame_count < u64::MAX,
        ActorPub::Other(p) => p.odom_pub.frame_count < u64::MAX,
    }
}

/// An odometry message followed by its acceleration message, both stamped
/// with frame counter `frame`.
pub open spec fn odom_pair_matches(
    m0: OutMsg,
    m1: OutMsg,
    time: TimeMsg,
    frame: u64,
    snap: ActorSnapshot,
) -> bool {
    &&& m0 matches OutMsg::Odometry(om) && odometry_msg_is(om, time, frame, snap)
    &&& m1 matches OutMsg::Accel(am) && accel_msg_is(am, time, frame, snap)
}

/// The complete specification of one poll: how the node state advances and
/// what it emits, by kind.
pub open spec fn poll_spec(
    pre: ActorPub,
    post: ActorPub,
    time: TimeMsg,
    delta: TimeDelta,
    snap: ActorSnapshot,
    data: PollData,
    out: PollOutput,
) -> bool {
    match pre {
        ActorPub::Other(p) => {
            &&& post == ActorPub::Other(OtherPub { odom_pub: spec_odom_next(p.odom_pub) })
            &&& out.msgs@.len() == 2
            &&& odom_pair_matches(out.msgs@[0], out.msgs@[1], time, p.odom_pub.frame_count, snap)
            &&& out.action is None
            &&& out.warnings@.len() == 0
        },
        ActorPub::Sensor(p) => {
            &&& post == ActorPub::Sensor(
                SensorPub { type_id: p.type_id, odom_pub: spec_odom_next(p.odom_pub) },
            )
            &&& out.msgs@.len() == 3
            &&& out.msgs@[0] matches OutMsg::TypeInfo(t) && t.data@ == p.type_id@
            &&& odom_pair_matches(out.msgs@[1], out.msgs@[2], time, p.odom_pub.frame_count, snap)
            &&& out.action is None
            &&& out.warnings@.len() == 0
        },
        ActorPub::TrafficSign(p) => {
            &&& data matches PollData::TrafficSign { trigger_volume } ==> {
                &&& post == ActorPub::TrafficSign(
                    TrafficSignPub { odom_pub: spec_odom_next(p.odom_pub) },
                )
                &&& out.msgs@.len() == 3
                &&& out.msgs@[0] matches OutMsg::TriggerVolume(b) && b == trigger_volume.ros_spec()
                &&& odom_pair_matches(out.msgs@[1], out.msgs@[2], time, p.odom_pub.frame_count, snap)
            }
            &&& out.action is None
            &&& out.warnings@.len() == 0
        },
        ActorPub::TrafficLight(p) => {
            &&& data matches PollData::TrafficLight { state, trigger_volume } ==> {
                if reportable(state) {
                    &&& post == ActorPub::TrafficLight(
                        TrafficLightPub { odom_pub: spec_odom_next(p.odom_pub) },
                    )
                    &&& out.msgs@.len() == 4
                    &&& odom_pair_matches(
                        out.msgs@[0],
                        out.msgs@[1],
                        time,
                        p.odom_pub.frame_count,
                        snap,
                    )
                    &&& out.msgs@[2] matches OutMsg::Signal(sig) && sig.header == (Header {
                        stamp: time,
                        frame_id: 0,
                    }) && sig.map_primitive_id == 0 && signal_slots_match(sig.lights@, state)
                    &&& out.msgs@[3] matches OutMsg::TriggerVolume(b) && b
                        == trigger_volume.ros_spec()
                } else {
                    &&& post == pre
                    &&& out.msgs@.len() == 0
                }
            }
            &&& out.action is None
            &&& out.warnings@.len() == 0
        },
        ActorPub::Vehicle(p) => {
            data matches PollData::Vehicle { new_command } ==> {
                let slot = spec_slot_after(p.slot, new_command);
                &&& post == ActorPub::Vehicle(
                    VehiclePub {
                        id: p.id,
                        type_id: p.type_id,
                        role_name: p.role_name,
                        physics: p.physics,
                        odom_pub: spec_odom_next(p.odom_pub),
                        slot,
                        warned: spec_vehicle_warned(slot.cmd, p.warned),
                    },
                )
                &&& out.msgs@.len() == 2
                &&& odom_pair_matches(out.msgs@[0], out.msgs@[1], time, p.odom_pub.frame_count, snap)
                &&& out.action == spec_vehicle_action(slot.cmd, delta)
                &&& out.warnings@ == spec_vehicle_warnings(slot.cmd, p.warned)
            }
        },
    }
}

/// Law: a vehicle's command of record is a set-point, not a one-shot.  Of
/// two successive polls that see no new command, the second applies the same
/// actuator action as the first, re-emits odometry for the same snapshot
/// with the frame counter advanced by exactly one, and emits no warning the
/// first poll has already emitted.
pub proof fn lemma_vehicle_repoll_stable(
    pre: ActorPub,
    mid: ActorPub,
    post: ActorPub,
    time: TimeMsg,
    delta: TimeDelta,
    snap: ActorSnapshot,
    out1: PollOutput,
    out2: PollOutput,
)
    requires
        pre is Vehicle,
        can_poll(pre),
        poll_spec(pre, mid, time, delta, snap, PollData::Vehicle { new_command: None }, out1),
        poll_spec(mid, post, time, delta, snap, PollData::Vehicle { new_command: None }, out2),
    ensures
        out2.action == out1.action,
        out2.warnings@.len() == 0,
        out2.msgs@[0]->Odometry_0.pose == out1.msgs@[0]->Odometry_0.pose,
        out2.msgs@[0]->Odometry_0.linear_velocity == out1.msgs@[0]->Odometry_0.linear_velocity,
        out2.msgs@[0]->Odometry_0.header.frame_id == out1.msgs@[0]->Odometry_0.header.frame_id
            + 1,
{
    let p = pre->Vehicle_0;
    match p.slot.cmd {
        Some(ControlKind::Ackermann(a)) => {
            assert(spec_new_warnings(a, spec_warn_update(a, p.warned)) =~= Seq::<Warning>::empty());
        },
        _ => {},
    }
}

impl ActorPub {
    /// Polls this node once: applies any pending command (vehicles), emits
    /// the kind's telemetry for this tick, and advances the frame counter.
    pub fn poll(
        &mut self,
        time: TimeMsg,
        delta: &TimeDelta,
        snap: &ActorSnapshot,
        data: &PollData,
    ) -> (out: PollOutput)
        requires
            can_poll(*old(self)),
            data_matches(*old(self), *data),
        ensures
            poll_spec(*old(self), *final(self), time, *delta, *snap, *data, out),
    {
        match self {
            ActorPub::Other(p) => {
                let physics = p.poll(time, snap);
                let mut msgs: Vec<OutMsg> = Vec::new();
                msgs.push(OutMsg::Odometry(physics.odom_msg));
                msgs.push(OutMsg::Accel(physics.accel_msg));
                PollOutput { msgs, action: None, warnings: Vec::new() }
            },
            ActorPub::Sensor(p) => {
                let (type_msg, physics) = p.poll(time, snap);
                let mut msgs: Vec<OutMsg> = Vec::new();
                msgs.push(OutMsg::TypeInfo(type_msg));
                msgs.push(OutMsg::Odometry(physics.odom_msg));
                msgs.push(OutMsg::Accel(physics.accel_msg));
                PollOutput { msgs, action: None, warnings: Vec::new() }
            },
            ActorPub::TrafficSign(p) => {
                let mut msgs: Vec<OutMsg> = Vec::new();
                if let PollData::TrafficSign { trigger_volume } = data {
                    let (bbox, physics) = p.poll(time, snap, trigger_volume);
                    msgs.push(OutMsg::TriggerVolume(bbox));
                    msgs.push(OutMsg::Odometry(physics.odom_msg));
                    msgs.push(OutMsg::Accel(physics.accel_msg));
                }
                PollOutput { msgs, action: None, warnings: Vec::new() }
            },
            ActorPub::TrafficLight(p) => {
                let mut msgs: Vec<OutMsg> = Vec::new();
                if let PollData::TrafficLight { state, trigger_volume } = data {
                    if let Some((physics, sig, bbox)) = p.poll(time, snap, *state, trigger_volume) {
                        msgs.push(OutMsg::Odometry(physics.odom_msg));
                        msgs.push(OutMsg::Accel(physics.accel_msg));
                        msgs.push(OutMsg::Signal(sig));
                        msgs.push(OutMsg::TriggerVolume(bbox));
                    }
                }
                PollOutput { msgs, action: None, warnings: Vec::new() }
            },
            ActorPub::Vehicle(p) => {
                let mut msgs: Vec<OutMsg> = Vec::new();
                let mut action: Option<ControlAction> = None;
                let mut warnings: Vec<Warning> = Vec::new();
                if let PollData::Vehicle { new_command } = data {
                    let (a, w, physics) = p.poll(time, delta, *new_command, snap);
                    action = a;
                    warnings = w;
                    msgs.push(OutMsg::Odometry(physics.odom_msg));
                    msgs.push(OutMsg::Accel(physics.accel_msg));
                }
                PollOutput { msgs, action, warnings }
            },
        }
    }
}

} // verus!
