//! The per-entity odometry publisher: derives a pose/twist/acceleration
//! snapshot every tick, stamped with its own frame counter.

use vstd::prelude::*;

use crate::msg::TimeMsg;
use crate::utils::{create_physics_msg, physics_matches, ActorPhysics, ActorSnapshot};

verus! {

/// Odometry publisher state: the stream's frame counter.  The counter starts
/// at 0 when the owning node is created and advances by exactly 1 per poll.
#[derive(Debug, Clone, Copy, PartialEq, Eq, Structural)]
pub struct OdomPub {
    pub frame_count: u64,
}

/// The publisher state after one poll.
pub open spec fn spec_odom_next(p: OdomPub) -> OdomPub {
    OdomPub { frame_count: (p.frame_count + 1) as u64 }
}

impl OdomPub {
    /// A fresh publisher: the counter restarts at 0.
    pub fn new() -> (r: OdomPub)
        ensures
            r.frame_count == 0,
    {
        OdomPub { frame_count: 0 }
    }

    /// Emits this tick's odometry and acceleration messages for the given
    /// snapshot, stamped with the current frame counter, and advances the
    /// counter.
    pub fn poll(&mut self, time: TimeMsg, snap: &ActorSnapshot) -> (p: ActorPhysics)
        requires
            old(self).frame_count < u64::MAX,
        ensures
            *final(self) == spec_odom_next(*old(self)),
            physics_matches(p, time, old(self).frame_count, *snap),
    {
        let p = create_physics_msg(snap, time, self.frame_count);
        self.frame_count = self.frame_count + 1;
        p
    }
}

/// Law: with no new tick data, a second poll emits the same odometry as the
/// first but for the frame counter, which advances by exactly 1 per poll,
/// never skipping or repeating.
pub proof fn lemma_poll_idempotent(
    pre: OdomPub,
    first: ActorPhysics,
    second: ActorPhysics,
    time: TimeMsg,
    snap: ActorSnapshot,
)
    requires
        pre.frame_count < u64::MAX - 1,
        physics_matches(first, time, pre.frame_count, snap),
        physics_matches(second, time, spec_odom_next(pre).frame_count, snap),
    ensures
        spec_odom_next(pre).frame_count == pre.frame_count + 1,
        second.odom_msg.header.frame_id == first.odom_msg.header.frame_id + 1,
        second.odom_msg.pose == first.odom_msg.pose,
        second.odom_msg.linear_velocity == first.odom_msg.linear_velocity,
        second.odom_msg.angular_velocity == first.odom_msg.angular_velocity,
        second.odom_msg.pose_covariance@ == first.odom_msg.pose_covariance@,
        second.odom_msg.twist_covariance@ == first.odom_msg.twist_covariance@,
        second.odom_msg.header.stamp == first.odom_msg.header.stamp,
        second.accel_msg.linear == first.accel_msg.linear,
        second.accel_msg.angular == first.accel_msg.angular,
{
}

} // verus!
