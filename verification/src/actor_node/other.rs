//! The catch-all node for unclassified entities: odometry only.

use vstd::prelude::*;

use crate::actor_node::odom::{spec_odom_next, OdomPub};
use crate::msg::TimeMsg;
use crate::utils::{physics_matches, ActorPhysics, ActorSnapshot};

verus! {

/// Publish side of an unclassified entity's node.
#[derive(Debug, Clone, Copy, PartialEq, Eq, Structural)]
pub struct OtherPub {
    pub odom_pub: OdomPub,
}

/// Subscribe side of an unclassified entity's node: it takes no commands.
#[derive(Debug, Clone, Copy, PartialEq, Eq, Structural)]
pub struct OtherSub {}

/// Creates the node pair for an unclassified entity.
pub fn new() -> (r: (OtherPub, OtherSub))
    ensures
        r.0.odom_pub.frame_count == 0,
{
    (OtherPub { odom_pub: OdomPub::new() }, OtherSub {})
}

impl OtherPub {
    /// Emits this tick's odometry for the entity.
    pub fn poll(&mut self, time: TimeMsg, snap: &ActorSnapshot) -> (p: ActorPhysics)
        requires
            old(self).odom_pub.frame_count < u64::MAX,
        ensures
            final(self).odom_pub == spec_odom_next(old(self).odom_pub),
            physics_matches(p, time, old(self).odom_pub.frame_count, *snap),
    {
        self.odom_pub.poll(time, snap)
    }
}

} // verus!
