use carla_autoware_bridge::codec::{
    camera_msg, collision_msg, compass_to_yaw, decode_lidar, decode_words, encode_words,
    imu_msg, is_bigendian, lidar_msg, semantic_lidar_msg, ColorBgra, LidarPoint,
    SemanticLidarPoint,
};
use carla_autoware_bridge::msg::{Header, QuatBits, TimeMsg, Vec3Bits};
use carla_autoware_bridge::utils::identity_matrix;
use carla_autoware_bridge::TimeBuffer;

fn header() -> Header {
    Header { stamp: TimeMsg { sec: 12, nanosec: 34 }, frame_id: 0 }
}

#[test]
fn machine_endianness_is_reported() {
    let expected = u16::to_ne_bytes(1)[0] == 0;
    assert_eq!(is_bigendian(), expected);
}

#[test]
fn words_encode_little_endian() {
    let ws = vec![0x0403_0201u32, 0xAABB_CCDDu32];
    let data = encode_words(&ws, false);
    assert_eq!(data, vec![0x01, 0x02, 0x03, 0x04, 0xDD, 0xCC, 0xBB, 0xAA]);
}

#[test]
fn words_encode_big_endian() {
    let ws = vec![0x0403_0201u32];
    let data = encode_words(&ws, true);
    assert_eq!(data, vec![0x04, 0x03, 0x02, 0x01]);
}

#[test]
fn words_round_trip_both_orders() {
    let ws = vec![0u32, 1, 0xFFFF_FFFF, 0x8000_0000, 7, 1_000_000];
    for big in [false, true] {
        let data = encode_words(&ws, big);
        assert_eq!(decode_words(&data, big), ws);
    }
}

#[test]
fn lidar_message_layout() {
    // Two detections with exact float values, held as bit patterns.
    let p0 = LidarPoint {
        x: 1.5f32.to_bits(),
        y: (-2.25f32).to_bits(),
        z: 0.5f32.to_bits(),
        intensity: 0.75f32.to_bits(),
    };
    let p1 = LidarPoint {
        x: 10.0f32.to_bits(),
        y: 20.0f32.to_bits(),
        z: 30.0f32.to_bits(),
        intensity: 1.0f32.to_bits(),
    };
    let points = vec![p0, p1];
    let msg = lidar_msg(header(), &points, false).unwrap();
    assert_eq!(msg.height, 1);
    assert_eq!(msg.width, 2);
    assert_eq!(msg.point_step, 16);
    assert_eq!(msg.row_step, 2);
    assert!(msg.is_dense);
    assert!(!msg.is_bigendian);
    assert_eq!(msg.data.len(), 32);
    assert_eq!(msg.fields.len(), 4);
    assert_eq!(msg.fields[0].name, "x");
    assert_eq!(msg.fields[1].name, "y");
    assert_eq!(msg.fields[2].name, "z");
    assert_eq!(msg.fields[3].name, "intensity");
    for (i, f) in msg.fields.iter().enumerate() {
        assert_eq!(f.offset, 4 * i as u32);
        assert_eq!(f.datatype, 7);
        assert_eq!(f.count, 1);
    }
    // The first detection's x occupies the first four bytes, native layout.
    assert_eq!(&msg.data[0..4], &1.5f32.to_le_bytes());
}

#[test]
fn lidar_round_trip_reproduces_floats_exactly() {
    let points = vec![
        LidarPoint {
            x: 1.5f32.to_bits(),
            y: (-2.25f32).to_bits(),
            z: 3.75f32.to_bits(),
            intensity: 0.125f32.to_bits(),
        },
        LidarPoint {
            x: (-0.0f32).to_bits(),
            y: f32::MIN_POSITIVE.to_bits(),
            z: f32::MAX.to_bits(),
            intensity: 0.0f32.to_bits(),
        },
        LidarPoint {
            x: 7.25f32.to_bits(),
            y: 8.5f32.to_bits(),
            z: 9.75f32.to_bits(),
            intensity: 1.0f32.to_bits(),
        },
    ];
    for big in [false, true] {
        let msg = lidar_msg(header(), &points, big).unwrap();
        assert_eq!(msg.width, 3);
        assert_eq!(msg.row_step, 3);
        let decoded = decode_lidar(&msg.data, big);
        assert_eq!(decoded, points);
        // The bit patterns convert back to the exact float values.
        assert_eq!(f32::from_bits(decoded[0].x), 1.5);
        assert_eq!(f32::from_bits(decoded[0].y), -2.25);
        assert_eq!(f32::from_bits(decoded[2].intensity), 1.0);
    }
}

#[test]
fn empty_lidar_buffer_is_dropped() {
    let points: Vec<LidarPoint> = Vec::new();
    assert!(lidar_msg(header(), &points, false).is_none());
}

#[test]
fn semantic_lidar_message_layout() {
    let p = SemanticLidarPoint {
        x: 1.0f32.to_bits(),
        y: 2.0f32.to_bits(),
        z: 3.0f32.to_bits(),
        cos_inc_angle: 0.5f32.to_bits(),
        object_idx: 42,
        object_tag: 7,
    };
    let points = vec![p];
    let msg = semantic_lidar_msg(header(), &points, false).unwrap();
    assert_eq!(msg.width, 1);
    assert_eq!(msg.point_step, 24);
    assert_eq!(msg.row_step, 1);
    assert_eq!(msg.data.len(), 24);
    assert_eq!(msg.fields.len(), 6);
    let names: Vec<&str> = msg.fields.iter().map(|f| f.name.as_str()).collect();
    assert_eq!(names, vec!["x", "y", "z", "cos_inc_angle", "object_idx", "object_tag"]);
    let offsets: Vec<u32> = msg.fields.iter().map(|f| f.offset).collect();
    assert_eq!(offsets, vec![0, 4, 8, 12, 16, 20]);
    let datatypes: Vec<u8> = msg.fields.iter().map(|f| f.datatype).collect();
    assert_eq!(datatypes, vec![7, 7, 7, 7, 6, 6]);
    // The unsigned words sit at offsets 16 and 20, native byte order.
    assert_eq!(&msg.data[16..20], &42u32.to_le_bytes());
    assert_eq!(&msg.data[20..24], &7u32.to_le_bytes());
}

#[test]
fn empty_semantic_buffer_is_dropped() {
    let points: Vec<SemanticLidarPoint> = Vec::new();
    assert!(semantic_lidar_msg(header(), &points, false).is_none());
}

#[test]
fn camera_message_layout() {
    let pixels = vec![
        ColorBgra { b: 1, g: 2, r: 3, a: 4 },
        ColorBgra { b: 5, g: 6, r: 7, a: 8 },
    ];
    let msg = camera_msg(header(), 2, 1, &pixels, false).unwrap();
    assert_eq!(msg.width, 2);
    assert_eq!(msg.height, 1);
    assert_eq!(msg.encoding, "bgra8");
    assert_eq!(msg.is_bigendian, 0);
    assert_eq!(msg.step, 8);
    assert_eq!(msg.data, vec![1, 2, 3, 4, 5, 6, 7, 8]);
}

#[test]
fn zero_length_camera_frame_is_dropped() {
    let pixels: Vec<ColorBgra> = Vec::new();
    assert!(camera_msg(header(), 0, 0, &pixels, false).is_none());
}

#[test]
fn imu_covariances_are_identity() {
    let q = QuatBits { x: 0, y: 0, z: 0, w: 1.0f32.to_bits() };
    let gyro = Vec3Bits { x: 1.0f32.to_bits(), y: 0, z: 0 };
    let accel = Vec3Bits { x: 0, y: 0, z: 9.81f32.to_bits() };
    let msg = imu_msg(header(), q, gyro, accel);
    let identity: Vec<u64> = vec![
        1.0f64.to_bits(),
        0,
        0,
        0,
        1.0f64.to_bits(),
        0,
        0,
        0,
        1.0f64.to_bits(),
    ];
    assert_eq!(msg.orientation_covariance, identity);
    assert_eq!(msg.angular_velocity_covariance, identity);
    assert_eq!(msg.linear_acceleration_covariance, identity);
    assert_eq!(msg.orientation, q);
    assert_eq!(msg.angular_velocity, gyro);
    assert_eq!(msg.linear_acceleration, accel);
}

#[test]
fn compass_negation_flips_sign_bit() {
    let compass = 1.25f32;
    let yaw_bits = compass_to_yaw(compass.to_bits());
    assert_eq!(f32::from_bits(yaw_bits), -1.25);
    // Negating twice gives the original heading back.
    assert_eq!(compass_to_yaw(yaw_bits), compass.to_bits());
}

#[test]
fn collision_event_carries_only_the_stamp() {
    let h = header();
    assert_eq!(collision_msg(&h), h.stamp);
}

#[test]
fn identity_matrix_is_f64_ones_on_the_diagonal() {
    let m = identity_matrix(6);
    assert_eq!(m.len(), 36);
    for i in 0..6 {
        for j in 0..6 {
            let expected = if i == j { 1.0f64.to_bits() } else { 0u64 };
            assert_eq!(m[i * 6 + j], expected);
        }
    }
}

#[test]
fn first_observation_has_zero_deltas() {
    let mut buf = TimeBuffer::default();
    let d = buf.step(100, 5_000_000_000);
    assert_eq!(d.frame, 100);
    assert_eq!(d.frame_delta, 0);
    assert_eq!(d.time, 5_000_000_000);
    assert_eq!(d.time_delta, 0);
}

#[test]
fn later_observations_report_differences() {
    let mut buf = TimeBuffer::default();
    buf.step(100, 5_000_000_000);
    let d = buf.step(103, 5_150_000_000);
    assert_eq!(d.frame, 103);
    assert_eq!(d.frame_delta, 3);
    assert_eq!(d.time_delta, 150_000_000);
}

#[test]
fn simulator_reset_starts_a_fresh_epoch() {
    let mut buf = TimeBuffer::default();
    buf.step(100, 5_000_000_000);
    // The frame counter went backwards: a reset, so deltas are zero, never
    // negative.
    let d = buf.step(2, 40_000_000);
    assert_eq!(d.frame, 2);
    assert_eq!(d.frame_delta, 0);
    assert_eq!(d.time_delta, 0);
    // The epoch continues from the new observation.
    let d2 = buf.step(3, 90_000_000);
    assert_eq!(d2.frame_delta, 1);
    assert_eq!(d2.time_delta, 50_000_000);
}
