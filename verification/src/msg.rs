//! Plain-value models of the bus messages the bridge emits.
//!
//! Telemetry values that the bus carries as floating point are held here as
//! IEEE-754 bit patterns: `u32` for 32-bit fields, `u64` for 64-bit fields.
//! The library only routes these values, so the bit pattern is the exact
//! content; the unverified shell converts patterns to native floats when it
//! hands a message to the bus.

use vstd::prelude::*;

verus! {

/// The tick heartbeat message: it carries nothing.
#[derive(Debug, Clone, Copy, PartialEq, Eq, Structural)]
pub struct EmptyMsg {}

/// A `(seconds, nanoseconds)` stamp, as the bus's builtin time type holds it.
#[derive(Debug, Clone, Copy, PartialEq, Eq, Structural)]
pub struct TimeMsg {
    pub sec: i32,
    pub nanosec: u32,
}

/// A message header: the stamp and the stream's frame counter.
///
/// Successive messages of one stream carry consecutive `frame_id` values,
/// starting at 0, so consumers can detect gaps and reordering.  Streams for
/// which the bridge keeps no counter stamp 0.
#[derive(Debug, Clone, Copy, PartialEq, Eq, Structural)]
pub struct Header {
    pub stamp: TimeMsg,
    pub frame_id: u64,
}

/// A three-component vector of 32-bit float bit patterns.
#[derive(Debug, Clone, Copy, PartialEq, Eq, Structural)]
pub struct Vec3Bits {
    pub x: u32,
    pub y: u32,
    pub z: u32,
}

impl Vec3Bits {
    /// The zero vector: all components are the bit pattern of +0.0.
    pub open spec fn spec_zero() -> Vec3Bits {
        Vec3Bits { x: 0, y: 0, z: 0 }
    }

    /// The zero vector, executable form.
    pub fn zero() -> (r: Vec3Bits)
        ensures
            r == Vec3Bits::spec_zero(),
    {
        Vec3Bits { x: 0, y: 0, z: 0 }
    }
}

/// A quaternion of 32-bit float bit patterns.
#[derive(Debug, Clone, Copy, PartialEq, Eq, Structural)]
pub struct QuatBits {
    pub x: u32,
    pub y: u32,
    pub z: u32,
    pub w: u32,
}

/// A rigid pose: position and orientation.
#[derive(Debug, Clone, Copy, PartialEq, Eq, Structural)]
pub struct PoseBits {
    pub position: Vec3Bits,
    pub orientation: QuatBits,
}

/// A bounding volume as the simulator reports it: a pose and half-extents.
#[derive(Debug, Clone, Copy, PartialEq, Eq, Structural)]
pub struct BoundingBoxBits {
    pub transform: PoseBits,
    pub extent: Vec3Bits,
}

/// An oriented-bounding-box message.
#[derive(Debug, Clone, Copy, PartialEq, Eq, Structural)]
pub struct OrientedBoundingBoxMsg {
    pub pose: PoseBits,
    pub extents: Vec3Bits,
}

/// An odometry message: pose and twist with fixed covariance blocks.
/// Covariance entries are 64-bit float bit patterns.
#[derive(Debug, Clone, PartialEq)]
pub struct OdometryMsg {
    pub header: Header,
    pub pose: PoseBits,
    pub pose_covariance: Vec<u64>,
    pub linear_velocity: Vec3Bits,
    pub angular_velocity: Vec3Bits,
    pub twist_covariance: Vec<u64>,
}

/// A stamped acceleration message with a fixed covariance block.
#[derive(Debug, Clone, PartialEq)]
pub struct AccelStampedMsg {
    pub header: Header,
    pub linear: Vec3Bits,
    pub angular: Vec3Bits,
    pub covariance: Vec<u64>,
}

/// A camera image message.  `data` is a row-major `b, g, r, a` byte stream.
#[derive(Debug, Clone, PartialEq)]
pub struct ImageMsg {
    pub header: Header,
    pub height: u32,
    pub width: u32,
    pub encoding: String,
    pub is_bigendian: u8,
    pub step: u32,
    pub data: Vec<u8>,
}

/// One entry of a point cloud's field descriptor table.
#[derive(Debug, Clone, PartialEq)]
pub struct PointFieldMsg {
    pub name: String,
    pub offset: u32,
    pub datatype: u8,
    pub count: u32,
}

/// A point-cloud message.
#[derive(Debug, Clone, PartialEq)]
pub struct PointCloudMsg {
    pub header: Header,
    pub height: u32,
    pub width: u32,
    pub fields: Vec<PointFieldMsg>,
    pub is_bigendian: bool,
    pub point_step: u32,
    pub row_step: u32,
    pub data: Vec<u8>,
    pub is_dense: bool,
}

/// An inertial measurement message.
#[derive(Debug, Clone, PartialEq)]
pub struct ImuMsg {
    pub header: Header,
    pub orientation: QuatBits,
    pub orientation_covariance: Vec<u64>,
    pub angular_velocity: Vec3Bits,
    pub angular_velocity_covariance: Vec<u64>,
    pub linear_acceleration: Vec3Bits,
    pub linear_acceleration_covariance: Vec<u64>,
}

/// A plain string message (a sensor's type identifier).
#[derive(Debug, Clone, PartialEq)]
pub struct TypeMsg {
    pub data: String,
}

/// One slot of a traffic-signal report.  `confidence` is a 32-bit float bit
/// pattern.
#[derive(Debug, Clone, Copy, PartialEq, Eq, Structural)]
pub struct TrafficLightMsg {
    pub color: u8,
    pub shape: u8,
    pub status: u8,
    pub confidence: u32,
}

/// A stamped traffic-signal report: one slot per lamp color.
#[derive(Debug, Clone, PartialEq)]
pub struct TrafficSignalStampedMsg {
    pub header: Header,
    pub map_primitive_id: i64,
    pub lights: Vec<TrafficLightMsg>,
}

/// Static physical parameters of one wheel, as announced once per vehicle.
#[derive(Debug, Clone, Copy, PartialEq, Eq, Structural)]
pub struct WheelInfoMsg {
    pub tire_friction: u32,
    pub damping_rate: u32,
    pub max_steer_angle: u32,
    pub radius: u32,
    pub max_brake_torque: u32,
    pub max_handbrake_torque: u32,
    pub position: Vec3Bits,
}

/// The one-shot vehicle announcement: static physical parameters.
#[derive(Debug, Clone, PartialEq)]
pub struct VehicleInfoMsg {
    pub id: u32,
    pub type_id: String,
    pub rolename: String,
    pub wheels: Vec<WheelInfoMsg>,
    pub max_rpm: u32,
    pub moi: u32,
    pub damping_rate_full_throttle: u32,
    pub damping_rate_zero_throttle_clutch_engaged: u32,
    pub damping_rate_zero_throttle_clutch_disengaged: u32,
    pub use_gear_autobox: bool,
    pub gear_switch_time: u32,
    pub clutch_strength: u32,
    pub mass: u32,
    pub drag_coefficient: u32,
    pub center_of_mass: Vec3Bits,
}

} // verus!
