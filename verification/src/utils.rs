//! Shared helpers: the fixed covariance blocks and the per-tick physics
//! snapshot that every actor's odometry is built from.

use vstd::prelude::*;

use crate::msg::{
    AccelStampedMsg, BoundingBoxBits, Header, OdometryMsg, OrientedBoundingBoxMsg, PoseBits,
    TimeMsg, Vec3Bits,
};

verus! {

/// The IEEE-754 bit pattern of 1.0 as a 64-bit float.
pub const F64_ONE_BITS: u64 = 0x3FF0_0000_0000_0000;

/// The row-major `size` x `size` identity matrix, entries as 64-bit float bit
/// patterns.  Entry `k` lies on the diagonal exactly when its row `k / size`
/// equals its column `k % size`.
pub open spec fn spec_identity_matrix(size: nat) -> Seq<u64> {
    Seq::new(
        size * size,
        |k: int| if k / (size as int) == k % (size as int) {
            F64_ONE_BITS
        } else {
            0u64
        },
    )
}

/// Builds the row-major `size` x `size` identity matrix used as the fixed
/// covariance block of every telemetry message.
pub fn identity_matrix(size: usize) -> (m: Vec<u64>)
    requires
        size * size <= usize::MAX,
    ensures
        m@ == spec_identity_matrix(size as nat),
{
    let total = size * size;
    let mut m: Vec<u64> = Vec::new();
    let mut k: usize = 0;
    while k < total
        invariant
            total == size * size,
            k <= total,
            m@.len() == k,
            forall|kk: int| 0 <= kk < k ==> m@[kk] == spec_identity_matrix(size as nat)[kk],
        decreases total - k,
    {
        proof {
            if size == 0 {
                assert(total == 0) by (nonlinear_arith)
                    requires
                        total == size * size,
                        size == 0,
                ;
            }
        }
        if k / size == k % size {
            m.push(F64_ONE_BITS);
        } else {
            m.push(0u64);
        }
        k = k + 1;
    }
    proof {
        assert(m@ =~= spec_identity_matrix(size as nat));
    }
    m
}

/// What the simulator reports about one actor at one tick: pose, velocity,
/// angular velocity and acceleration, as 32-bit float bit patterns.
#[derive(Debug, Clone, Copy, PartialEq, Eq, Structural)]
pub struct ActorSnapshot {
    pub transform: PoseBits,
    pub velocity: Vec3Bits,
    pub angular_velocity: Vec3Bits,
    pub accel: Vec3Bits,
}

/// The telemetry derived from one actor snapshot: the raw values together
/// with the ready-to-publish odometry and acceleration messages.
#[derive(Debug, Clone, PartialEq)]
pub struct ActorPhysics {
    pub transform: PoseBits,
    pub velocity: Vec3Bits,
    pub angular_velocity: Vec3Bits,
    pub accel: Vec3Bits,
    pub odom_msg: OdometryMsg,
    pub accel_msg: AccelStampedMsg,
}

/// The odometry message derived from snapshot `snap`, stamped with `time` and
/// stream frame counter `frame`.
pub open spec fn odometry_msg_is(m: OdometryMsg, time: TimeMsg, frame: u64, snap: ActorSnapshot) -> bool {
    &&& m.header == (Header { stamp: time, frame_id: frame })
    &&& m.pose == snap.transform
    &&& m.pose_covariance@ == spec_identity_matrix(6)
    &&& m.linear_velocity == snap.velocity
    &&& m.angular_velocity == snap.angular_velocity
    &&& m.twist_covariance@ == spec_identity_matrix(6)
}

/// The acceleration message derived from snapshot `snap`: the linear part is
/// the reported acceleration, the angular part is zero.
pub open spec fn accel_msg_is(m: AccelStampedMsg, time: TimeMsg, frame: u64, snap: ActorSnapshot) -> bool {
    &&& m.header == (Header { stamp: time, frame_id: frame })
    &&& m.linear == snap.accel
    &&& m.angular == Vec3Bits::spec_zero()
    &&& m.covariance@ == spec_identity_matrix(6)
}

/// The full physics bundle derived from snapshot `snap`.
pub open spec fn physics_matches(p: ActorPhysics, time: TimeMsg, frame: u64, snap: ActorSnapshot) -> bool {
    &&& p.transform == snap.transform
    &&& p.velocity == snap.velocity
    &&& p.angular_velocity == snap.angular_velocity
    &&& p.accel == snap.accel
    &&& odometry_msg_is(p.odom_msg, time, frame, snap)
    &&& accel_msg_is(p.accel_msg, time, frame, snap)
}

/// Derives the odometry and acceleration messages for one actor at one tick.
pub fn create_physics_msg(snap: &ActorSnapshot, time: TimeMsg, frame: u64) -> (p: ActorPhysics)
    ensures
        physics_matches(p, time, frame, *snap),
{
    let header = Header { stamp: time, frame_id: frame };
    let odom_msg = OdometryMsg {
        header,
        pose: snap.transform,
        pose_covariance: identity_matrix(6),
        linear_velocity: snap.velocity,
        angular_velocity: snap.angular_velocity,
        twist_covariance: identity_matrix(6),
    };
    let accel_msg = AccelStampedMsg {
        header,
        linear: snap.accel,
        angular: Vec3Bits::zero(),
        covariance: identity_matrix(6),
    };
    ActorPhysics {
        transform: snap.transform,
        velocity: snap.velocity,
        angular_velocity: snap.angular_velocity,
        accel: snap.accel,
        odom_msg,
        accel_msg,
    }
}

/// Conversion from a simulator-native value to its bus message counterpart.
pub trait ToRosType<T> {
    /// The message value this converts to.
    spec fn ros_spec(&self) -> T;

    /// Performs the conversion.
    fn to_ros_type(&self) -> (r: T)
        ensures
            r == self.ros_spec(),
    ;
}

impl ToRosType<OrientedBoundingBoxMsg> for BoundingBoxBits {
    open spec fn ros_spec(&self) -> OrientedBoundingBoxMsg {
        OrientedBoundingBoxMsg { pose: self.transform, extents: self.extent }
    }

    fn to_ros_type(&self) -> (r: OrientedBoundingBoxMsg) {
        OrientedBoundingBoxMsg { pose: self.transform, extents: self.extent }
    }
}

} // verus!
