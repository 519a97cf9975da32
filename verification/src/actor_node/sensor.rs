//! The sensor node.
//!
//! Per tick, the publish side emits the sensor's type identifier and an
//! odometry snapshot.  Raw measurement delivery is push-driven and not
//! tick-synchronized: the simulator invokes a callback whenever data is
//! ready, the shell encodes it through the wire codec, and `SensorStream`
//! supplies the consecutive headers that stamp that data stream.

use vstd::prelude::*;

use crate::actor_node::odom::{spec_odom_next, OdomPub};
use crate::msg::{Header, TimeMsg, TypeMsg};
use crate::utils::{physics_matches, ActorPhysics, ActorSnapshot};

verus! {

/// Publish side of a sensor node.
#[derive(Debug, Clone, PartialEq)]
pub struct SensorPub {
    pub type_id: String,
    pub odom_pub: OdomPub,
}

/// Subscribe side of a sensor node: sensors take no commands.
#[derive(Debug, Clone, Copy, PartialEq, Eq, Structural)]
pub struct SensorSub {}

/// Creates the node pair for a sensor entity.
pub fn new(type_id: String) -> (r: (SensorPub, SensorSub))
    ensures
        r.0.type_id == type_id,
        r.0.odom_pub.frame_count == 0,
{
    (SensorPub { type_id, odom_pub: OdomPub::new() }, SensorSub {})
}

impl SensorPub {
    /// Emits this tick's type-identifier message and odometry.
    pub fn poll(&mut self, time: TimeMsg, snap: &ActorSnapshot) -> (r: (TypeMsg, ActorPhysics))
        requires
            old(self).odom_pub.frame_count < u64::MAX,
        ensures
            final(self).type_id == old(self).type_id,
            final(self).odom_pub == spec_odom_next(old(self).odom_pub),
            r.0.data@ == old(self).type_id@,
            physics_matches(r.1, time, old(self).odom_pub.frame_count, *snap),
    {
        let type_msg = TypeMsg { data: self.type_id.clone() };
        proof {
            assert(type_msg.data@ == self.type_id@);
        }
        let p = self.odom_pub.poll(time, snap);
        (type_msg, p)
    }
}

/// The header source for one sensor's push-driven data stream.  Each
/// delivered measurement is stamped with the next counter value; the counter
/// restarts at 0 when the sensor's node is created.
#[derive(Debug, Clone, Copy, PartialEq, Eq, Structural)]
pub struct SensorStream {
    pub frame_count: u64,
}

impl SensorStream {
    /// A fresh stream: the counter restarts at 0.
    pub fn new() -> (r: SensorStream)
        ensures
            r.frame_count == 0,
    {
        SensorStream { frame_count: 0 }
    }

    /// The header for the next delivered measurement: the given stamp and
    /// the current counter, which then advances by exactly 1.
    pub fn next_header(&mut self, stamp: TimeMsg) -> (h: Header)
        requires
            old(self).frame_count < u64::MAX,
        ensures
            h == (Header { stamp, frame_id: old(self).frame_count }),
            final(self).frame_count == old(self).frame_count + 1,
    {
        let h = Header { stamp, frame_id: self.frame_count };
        self.frame_count = self.frame_count + 1;
        h
    }
}

} // verus!
