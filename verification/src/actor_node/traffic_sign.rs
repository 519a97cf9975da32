//! The traffic-sign node: each tick it emits the sign's static trigger
//! volume and odometry.

use vstd::prelude::*;

use crate::actor_node::odom::{spec_odom_next, OdomPub};
use crate::msg::{BoundingBoxBits, OrientedBoundingBoxMsg, TimeMsg};
use crate::utils::{physics_matches, ActorPhysics, ActorSnapshot, ToRosType};

verus! {

/// Publish side of a traffic-sign node.
#[derive(Debug, Clone, Copy, PartialEq, Eq, Structural)]
pub struct TrafficSignPub {
    pub odom_pub: OdomPub,
}

/// Subscribe side of a traffic-sign node: signs take no commands.
#[derive(Debug, Clone, Copy, PartialEq, Eq, Structural)]
pub struct TrafficSignSub {}

/// Creates the node pair for a traffic-sign entity.
pub fn new() -> (r: (TrafficSignPub, TrafficSignSub))
    ensures
        r.0.odom_pub.frame_count == 0,
{
    (TrafficSignPub { odom_pub: OdomPub::new() }, TrafficSignSub {})
}

impl TrafficSignPub {
    /// Emits this tick's trigger-volume message and odometry, in that order.
    pub fn poll(&mut self, time: TimeMsg, snap: &ActorSnapshot, trigger_volume: &BoundingBoxBits) -> (r: (
        OrientedBoundingBoxMsg,
        ActorPhysics,
    ))
        requires
            old(self).odom_pub.frame_count < u64::MAX,
        ensures
            final(self).odom_pub == spec_odom_next(old(self).odom_pub),
            r.0 == trigger_volume.ros_spec(),
            physics_matches(r.1, time, old(self).odom_pub.frame_count, *snap),
    {
        let bbox_msg = trigger_volume.to_ros_type();
        let p = self.odom_pub.poll(time, snap);
        (bbox_msg, p)
    }
}

} // verus!
