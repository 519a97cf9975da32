//! The traffic-light node.
//!
//! Each tick it reads the lamp state and maps it onto a fixed three-slot
//! (red, amber, green) signal report with per-slot on/off status, then emits
//! the report, the trigger volume, and odometry.  An off or unknown lamp
//! state is silently skipped: nothing is emitted that tick, by design.

use vstd::prelude::*;

use crate::actor_node::odom::{spec_odom_next, OdomPub};
use crate::msg::{
    BoundingBoxBits, Header, OrientedBoundingBoxMsg, TimeMsg, TrafficLightMsg,
    TrafficSignalStampedMsg,
};
use crate::types::{LightState, TrafficLightColor, TrafficLightShape, TrafficLightStatus};
use crate::utils::{physics_matches, ActorPhysics, ActorSnapshot, ToRosType};

verus! {

/// Publish side of a traffic-light node.
#[derive(Debug, Clone, Copy, PartialEq, Eq, Structural)]
pub struct TrafficLightPub {
    pub odom_pub: OdomPub,
}

/// Subscribe side of a traffic-light node: lights take no commands.
#[derive(Debug, Clone, Copy, PartialEq, Eq, Structural)]
pub struct TrafficLightSub {}

/// Creates the node pair for a traffic-light entity.
pub fn new() -> (r: (TrafficLightPub, TrafficLightSub))
    ensures
        r.0.odom_pub.frame_count == 0,
{
    (TrafficLightPub { odom_pub: OdomPub::new() }, TrafficLightSub {})
}

/// Whether a lamp state is reported at all: only red, yellow and green are.
pub open spec fn reportable(state: LightState) -> bool {
    state is Red || state is Yellow || state is Green
}

/// The on/off status code of one slot.
pub open spec fn spec_slot_status(lit: bool) -> u8 {
    if lit {
        TrafficLightStatus::SOLID_ON.spec_code()
    } else {
        TrafficLightStatus::SOLID_OFF.spec_code()
    }
}

/// The three-slot report for a reportable lamp state: exactly the slot of
/// the lit lamp is on, the other two are off.
pub open spec fn signal_slots_match(lights: Seq<TrafficLightMsg>, state: LightState) -> bool {
    &&& lights.len() == 3
    &&& lights[0] == (TrafficLightMsg {
        color: TrafficLightColor::RED.spec_code(),
        shape: TrafficLightShape::CIRCLE.spec_code(),
        status: spec_slot_status(state is Red),
        confidence: 0,
    })
    &&& lights[1] == (TrafficLightMsg {
        color: TrafficLightColor::AMBER.spec_code(),
        shape: TrafficLightShape::CIRCLE.spec_code(),
        status: spec_slot_status(state is Yellow),
        confidence: 0,
    })
    &&& lights[2] == (TrafficLightMsg {
        color: TrafficLightColor::GREEN.spec_code(),
        shape: TrafficLightShape::CIRCLE.spec_code(),
        status: spec_slot_status(state is Green),
        confidence: 0,
    })
}

impl TrafficLightPub {
    /// Emits this tick's odometry, signal report and trigger volume for a
    /// red, yellow or green lamp state; emits nothing, and leaves the node
    /// untouched, for an off or unknown state.
    pub fn poll(
        &mut self,
        time: TimeMsg,
        snap: &ActorSnapshot,
        state: LightState,
        trigger_volume: &BoundingBoxBits,
    ) -> (r: Option<(ActorPhysics, TrafficSignalStampedMsg, OrientedBoundingBoxMsg)>)
        requires
            old(self).odom_pub.frame_count < u64::MAX,
        ensures
            r is Some <==> reportable(state),
            r is None ==> *final(self) == *old(self),
            r matches Some((p, sig, bbox)) ==> {
                &&& final(self).odom_pub == spec_odom_next(old(self).odom_pub)
                &&& physics_matches(p, time, old(self).odom_pub.frame_count, *snap)
                &&& sig.header == (Header { stamp: time, frame_id: 0 })
                &&& sig.map_primitive_id == 0
                &&& signal_slots_match(sig.lights@, state)
                &&& bbox == trigger_volume.ros_spec()
            },
    {
        let (rbit, ybit, gbit): (bool, bool, bool) = match state {
            LightState::Red => (true, false, false),
            LightState::Yellow => (false, true, false),
            LightState::Green => (false, false, true),
            _ => {
                return None;
            },
        };

        let rstatus = if rbit {
            TrafficLightStatus::SOLID_ON
        } else {
            TrafficLightStatus::SOLID_OFF
        };
        let ystatus = if ybit {
            TrafficLightStatus::SOLID_ON
        } else {
            TrafficLightStatus::SOLID_OFF
        };
        let gstatus = if gbit {
            TrafficLightStatus::SOLID_ON
        } else {
            TrafficLightStatus::SOLID_OFF
        };

        let mut lights: Vec<TrafficLightMsg> = Vec::new();
        lights.push(
            TrafficLightMsg {
                color: TrafficLightColor::RED.code(),
                shape: TrafficLightShape::CIRCLE.code(),
                status: rstatus.code(),
                confidence: 0,
            },
        );
        lights.push(
            TrafficLightMsg {
                color: TrafficLightColor::AMBER.code(),
                shape: TrafficLightShape::CIRCLE.code(),
                status: ystatus.code(),
                confidence: 0,
            },
        );
        lights.push(
            TrafficLightMsg {
                color: TrafficLightColor::GREEN.code(),
                shape: TrafficLightShape::CIRCLE.code(),
                status: gstatus.code(),
                confidence: 0,
            },
        );

        let sig = TrafficSignalStampedMsg {
            header: Header { stamp: time, frame_id: 0 },
            map_primitive_id: 0,
            lights,
        };
        let bbox_msg = trigger_volume.to_ros_type();
        let p = self.odom_pub.poll(time, snap);
        Some((p, sig, bbox_msg))
    }
}

} // verus!
