use carla_autoware_bridge::control::{
    direct_control, max_steering_angle, plan_ackermann, AckermannCommand, CommandSlot,
    ControlKind, DirectCommand, WarnFlags, Warning, DEFAULT_MAX_STEER_ANGLE_BITS,
};
use carla_autoware_bridge::params::{ParamValue, ParameterValueExt, Params, ParamError};
use carla_autoware_bridge::qos::{
    best_effort, latched, DurabilityPolicy, HistoryPolicy, ReliabilityPolicy,
};
use carla_autoware_bridge::types::SensorType;
use carla_autoware_bridge::TimeDelta;

fn direct(throttle: f32) -> DirectCommand {
    DirectCommand {
        throttle: throttle.to_bits(),
        steer: 0.25f32.to_bits(),
        brake: 0,
        hand_brake: false,
        reverse: false,
        gear: 3,
        manual_gear_shift: true,
    }
}

fn ackermann(speed: f32) -> AckermannCommand {
    AckermannCommand {
        steering_tire_angle: 0.1f32.to_bits(),
        is_defined_steering_tire_rotation_rate: false,
        velocity: speed.to_bits(),
        acceleration: 2.0f32.to_bits(),
        is_defined_acceleration: true,
        is_defined_jerk: false,
    }
}

fn delta(nanos: u64) -> TimeDelta {
    TimeDelta { frame: 10, frame_delta: 1, time: nanos, time_delta: nanos }
}

#[test]
fn direct_command_passes_fields_through() {
    let cmd = direct(0.5);
    let ctl = direct_control(&cmd);
    assert_eq!(ctl.throttle, 0.5f32.to_bits());
    assert_eq!(ctl.steer, 0.25f32.to_bits());
    assert_eq!(ctl.brake, 0);
    assert!(!ctl.hand_brake);
    assert!(!ctl.reverse);
    assert!(ctl.manual_gear_shift);
    assert_eq!(ctl.gear, 3);
}

#[test]
fn later_command_wins_direct_then_ackermann() {
    let mut slot = CommandSlot::empty();
    assert_eq!(slot.peek(), None);
    slot.send(ControlKind::Direct(direct(0.5)));
    slot.send(ControlKind::Ackermann(ackermann(3.0)));
    assert_eq!(slot.peek(), Some(ControlKind::Ackermann(ackermann(3.0))));
}

#[test]
fn later_command_wins_ackermann_then_direct() {
    let mut slot = CommandSlot::empty();
    slot.send(ControlKind::Ackermann(ackermann(3.0)));
    slot.send(ControlKind::Direct(direct(0.5)));
    assert_eq!(slot.peek(), Some(ControlKind::Direct(direct(0.5))));
}

#[test]
fn peek_does_not_consume() {
    let mut slot = CommandSlot::empty();
    slot.send(ControlKind::Direct(direct(0.5)));
    assert_eq!(slot.peek(), Some(ControlKind::Direct(direct(0.5))));
    assert_eq!(slot.peek(), Some(ControlKind::Direct(direct(0.5))));
}

#[test]
fn ackermann_plan_passes_targets_through() {
    let cmd = ackermann(4.0);
    let (plan, flags, warnings) = plan_ackermann(&cmd, &delta(20_000_000), WarnFlags::none());
    assert_eq!(plan.steering_angle, 0.1f32.to_bits());
    assert_eq!(plan.speed, 4.0f32.to_bits());
    assert_eq!(plan.accel, 2.0f32.to_bits());
    assert_eq!(plan.elapsed_nanos, 20_000_000);
    assert!(warnings.is_empty());
    assert!(!flags.steer_rate && !flags.jerk && !flags.missing_accel);
}

#[test]
fn missing_acceleration_falls_back_to_zero_with_one_warning() {
    let mut cmd = ackermann(4.0);
    cmd.is_defined_acceleration = false;
    let (plan, flags, warnings) = plan_ackermann(&cmd, &delta(1), WarnFlags::none());
    assert_eq!(plan.accel, 0);
    assert_eq!(warnings, vec![Warning::AccelerationMissing]);
    assert!(flags.missing_accel);
    // The second command with the same defect warns no more.
    let (plan2, _, warnings2) = plan_ackermann(&cmd, &delta(1), flags);
    assert_eq!(plan2.accel, 0);
    assert!(warnings2.is_empty());
}

#[test]
fn unsupported_subfields_warn_once() {
    let mut cmd = ackermann(4.0);
    cmd.is_defined_steering_tire_rotation_rate = true;
    cmd.is_defined_jerk = true;
    let (_, flags, warnings) = plan_ackermann(&cmd, &delta(1), WarnFlags::none());
    assert_eq!(
        warnings,
        vec![Warning::SteeringRateUnsupported, Warning::JerkUnsupported]
    );
    let (_, _, warnings2) = plan_ackermann(&cmd, &delta(1), flags);
    assert!(warnings2.is_empty());
}

#[test]
fn steering_limit_is_minimum_of_wheel_limits() {
    let limits = vec![
        0.9f32.to_bits(),
        0.6f32.to_bits(),
        0.75f32.to_bits(),
        0.6f32.to_bits(),
    ];
    let r = max_steering_angle(&limits);
    assert_eq!(f32::from_bits(r), 0.6);
}

#[test]
fn steering_limit_defaults_to_seventy_degrees() {
    let limits: Vec<u32> = Vec::new();
    let r = max_steering_angle(&limits);
    assert_eq!(r, DEFAULT_MAX_STEER_ANGLE_BITS);
    assert_eq!(f32::from_bits(r), 70.0f32.to_radians());
}

#[test]
fn qos_profiles_are_the_two_documented_ones() {
    let b = best_effort();
    assert_eq!(b.history, HistoryPolicy::KeepLast);
    assert_eq!(b.depth, 1);
    assert_eq!(b.reliability, ReliabilityPolicy::BestEffort);
    assert_eq!(b.durability, DurabilityPolicy::Volatile);
    let l = latched();
    assert_eq!(l.history, HistoryPolicy::KeepAll);
    assert_eq!(l.depth, 1);
    assert_eq!(l.reliability, ReliabilityPolicy::Reliable);
    assert_eq!(l.durability, DurabilityPolicy::TransientLocal);
}

#[test]
fn params_default_when_absent() {
    let p = Params::load(None, None, None).unwrap();
    assert_eq!(p.carla_host, "127.0.0.1");
    assert_eq!(p.carla_port, 2000);
    assert_eq!(p.carla_timeout_millis, 20000);
}

#[test]
fn params_take_given_values() {
    let host = ParamValue::StringValue("sim.example".to_owned());
    let port = ParamValue::Integer(2500);
    let timeout = ParamValue::Integer(1000);
    let p = Params::load(Some(&host), Some(&port), Some(&timeout)).unwrap();
    assert_eq!(p.carla_host, "sim.example");
    assert_eq!(p.carla_port, 2500);
    assert_eq!(p.carla_timeout_millis, 1000);
}

#[test]
fn params_reject_wrong_types_in_order() {
    let bad = ParamValue::Bool(true);
    assert_eq!(
        Params::load(Some(&bad), None, None),
        Err(ParamError::InvalidHostType)
    );
    assert_eq!(
        Params::load(None, Some(&bad), None),
        Err(ParamError::InvalidPortType)
    );
    assert_eq!(
        Params::load(None, None, Some(&bad)),
        Err(ParamError::InvalidTimeoutType)
    );
    // The host error comes first even when all three are wrong.
    assert_eq!(
        Params::load(Some(&bad), Some(&bad), Some(&bad)),
        Err(ParamError::InvalidHostType)
    );
}

#[test]
fn params_reject_out_of_range_numbers() {
    let too_big = ParamValue::Integer(70000);
    let negative = ParamValue::Integer(-1);
    assert_eq!(
        Params::load(None, Some(&too_big), None),
        Err(ParamError::PortOutOfRange)
    );
    assert_eq!(
        Params::load(None, Some(&negative), None),
        Err(ParamError::PortOutOfRange)
    );
    assert_eq!(
        Params::load(None, None, Some(&negative)),
        Err(ParamError::TimeoutOutOfRange)
    );
}

#[test]
fn parameter_value_accessors() {
    let s = ParamValue::StringValue("abc".to_owned());
    assert_eq!(s.to_str(), Some("abc"));
    assert_eq!(s.to_i64(), None);
    let i = ParamValue::Integer(-7);
    assert_eq!(i.to_str(), None);
    assert_eq!(i.to_i64(), Some(-7));
    assert_eq!(ParamValue::NotSet.to_str(), None);
    assert_eq!(ParamValue::Double.to_i64(), None);
}

#[test]
fn sensor_type_parsing() {
    assert_eq!(SensorType::from_str("sensor.camera.rgb"), Some(SensorType::CameraRgb));
    assert_eq!(SensorType::from_str("sensor.lidar.ray_cast"), Some(SensorType::LidarRayCast));
    assert_eq!(
        SensorType::from_str("sensor.lidar.ray_cast_semantic"),
        Some(SensorType::LidarRayCastSemantic)
    );
    assert_eq!(SensorType::from_str("sensor.other.imu"), Some(SensorType::Imu));
    assert_eq!(SensorType::from_str("sensor.other.collision"), Some(SensorType::Collision));
    assert_eq!(SensorType::from_str("sensor.other.gnss"), None);
    assert_eq!(SensorType::from_str(""), None);
}
