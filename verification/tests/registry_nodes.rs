use carla_autoware_bridge::actor_node::generic::{
    new as actor_new, ActorDescription, ActorPub, OutMsg, PollData,
};
use carla_autoware_bridge::actor_node::sensor::SensorStream;
use carla_autoware_bridge::actor_node::vehicle::{VehiclePhysicsData, WheelData};
use carla_autoware_bridge::codec::{camera_msg, ColorBgra};
use carla_autoware_bridge::control::{AckermannCommand, ControlAction, ControlKind, DirectCommand};
use carla_autoware_bridge::map_srv::Cache;
use carla_autoware_bridge::msg::{BoundingBoxBits, PoseBits, QuatBits, TimeMsg, Vec3Bits};
use carla_autoware_bridge::registry::{DiscoveredActor, PollInput, Registry};
use carla_autoware_bridge::types::LightState;
use carla_autoware_bridge::utils::ActorSnapshot;
use carla_autoware_bridge::TimeDelta;

fn vec3(x: f32, y: f32, z: f32) -> Vec3Bits {
    Vec3Bits { x: x.to_bits(), y: y.to_bits(), z: z.to_bits() }
}

fn pose() -> PoseBits {
    PoseBits {
        position: vec3(1.0, 2.0, 3.0),
        orientation: QuatBits { x: 0, y: 0, z: 0, w: 1.0f32.to_bits() },
    }
}

fn snapshot() -> ActorSnapshot {
    ActorSnapshot {
        transform: pose(),
        velocity: vec3(4.0, 0.0, 0.0),
        angular_velocity: vec3(0.0, 0.0, 0.5),
        accel: vec3(0.0, -1.0, 0.0),
    }
}

fn bbox() -> BoundingBoxBits {
    BoundingBoxBits { transform: pose(), extent: vec3(0.5, 0.5, 1.0) }
}

fn time(sec: i32) -> TimeMsg {
    TimeMsg { sec, nanosec: 0 }
}

fn delta() -> TimeDelta {
    TimeDelta { frame: 1, frame_delta: 1, time: 20_000_000, time_delta: 20_000_000 }
}

fn physics() -> VehiclePhysicsData {
    VehiclePhysicsData {
        max_rpm: 5800.0f32.to_bits(),
        moi: 1.0f32.to_bits(),
        damping_rate_full_throttle: 0.15f32.to_bits(),
        damping_rate_zero_throttle_clutch_engaged: 2.0f32.to_bits(),
        damping_rate_zero_throttle_clutch_disengaged: 0.35f32.to_bits(),
        use_gear_autobox: true,
        gear_switch_time: 0.5f32.to_bits(),
        clutch_strength: 10.0f32.to_bits(),
        mass: 1845.0f32.to_bits(),
        drag_coefficient: 0.15f32.to_bits(),
        center_of_mass: vec3(0.1, 0.0, -0.2),
        wheels: vec![
            WheelData {
                tire_friction: 3.5f32.to_bits(),
                damping_rate: 0.25f32.to_bits(),
                max_steer_angle: 0.6f32.to_bits(),
                radius: 37.0f32.to_bits(),
                max_brake_torque: 700.0f32.to_bits(),
                max_handbrake_torque: 0,
                position: vec3(1.5, 0.8, 0.3),
            },
            WheelData {
                tire_friction: 3.5f32.to_bits(),
                damping_rate: 0.25f32.to_bits(),
                max_steer_angle: 0.7f32.to_bits(),
                radius: 37.0f32.to_bits(),
                max_brake_torque: 700.0f32.to_bits(),
                max_handbrake_torque: 1400.0f32.to_bits(),
                position: vec3(-1.5, 0.8, 0.3),
            },
        ],
    }
}

fn camera_desc() -> ActorDescription {
    ActorDescription::Sensor { type_id: "sensor.camera.rgb".to_owned() }
}

fn vehicle_desc(role: Option<&str>) -> ActorDescription {
    ActorDescription::Vehicle {
        type_id: "vehicle.tesla.model3".to_owned(),
        role_name: role.map(|r| r.to_owned()),
        physics: physics(),
    }
}

#[test]
fn vehicle_without_role_name_is_rejected() {
    let r = actor_new(9, vehicle_desc(None));
    assert!(r.is_err());
}

#[test]
fn vehicle_info_is_announced_once_at_construction() {
    let (_node, _sub, info) = actor_new(9, vehicle_desc(Some("ego"))).unwrap();
    let info = info.unwrap();
    assert_eq!(info.id, 9);
    assert_eq!(info.type_id, "vehicle.tesla.model3");
    assert_eq!(info.rolename, "ego");
    assert_eq!(info.mass, 1845.0f32.to_bits());
    assert_eq!(info.wheels.len(), 2);
    assert_eq!(info.wheels[0].max_steer_angle, 0.6f32.to_bits());
    assert_eq!(info.wheels[1].max_handbrake_torque, 1400.0f32.to_bits());
    assert_eq!(info.center_of_mass, vec3(0.1, 0.0, -0.2));
}

#[test]
fn sensor_node_is_not_announced() {
    let (_node, _sub, info) = actor_new(7, camera_desc()).unwrap();
    assert!(info.is_none());
}

#[test]
fn sensor_poll_emits_type_and_odometry_with_increasing_frames() {
    let (mut node, _sub, _info) = actor_new(7, camera_desc()).unwrap();
    let snap = snapshot();
    let out1 = node.poll(time(1), &delta(), &snap, &PollData::Sensor);
    assert_eq!(out1.msgs.len(), 3);
    match &out1.msgs[0] {
        OutMsg::TypeInfo(t) => assert_eq!(t.data, "sensor.camera.rgb"),
        other => panic!("expected the type message first, got {:?}", other),
    }
    let f1 = match &out1.msgs[1] {
        OutMsg::Odometry(om) => {
            assert_eq!(om.pose, snap.transform);
            assert_eq!(om.linear_velocity, snap.velocity);
            om.header.frame_id
        },
        other => panic!("expected odometry second, got {:?}", other),
    };
    // A second poll with the same inputs re-emits the same odometry, frame
    // counter advanced by exactly one.
    let out2 = node.poll(time(1), &delta(), &snap, &PollData::Sensor);
    let f2 = match (&out1.msgs[1], &out2.msgs[1]) {
        (OutMsg::Odometry(a), OutMsg::Odometry(b)) => {
            assert_eq!(a.pose, b.pose);
            assert_eq!(a.linear_velocity, b.linear_velocity);
            assert_eq!(a.header.stamp, b.header.stamp);
            b.header.frame_id
        },
        _ => unreachable!(),
    };
    assert_eq!(f2, f1 + 1);
}

#[test]
fn sensor_stream_headers_count_up_from_zero() {
    let mut stream = SensorStream::new();
    let h0 = stream.next_header(time(5));
    let h1 = stream.next_header(time(6));
    let h2 = stream.next_header(time(7));
    assert_eq!(h0.frame_id, 0);
    assert_eq!(h1.frame_id, 1);
    assert_eq!(h2.frame_id, 2);
}

#[test]
fn green_light_reports_exactly_the_green_slot_on() {
    let (mut node, _sub, _info) = actor_new(3, ActorDescription::TrafficLight).unwrap();
    let data = PollData::TrafficLight { state: LightState::Green, trigger_volume: bbox() };
    let out = node.poll(time(2), &delta(), &snapshot(), &data);
    assert_eq!(out.msgs.len(), 4);
    match &out.msgs[2] {
        OutMsg::Signal(sig) => {
            assert_eq!(sig.lights.len(), 3);
            // red, amber, green slots; 13 = solid off, 14 = solid on.
            assert_eq!(sig.lights[0].color, 1);
            assert_eq!(sig.lights[0].status, 13);
            assert_eq!(sig.lights[1].color, 2);
            assert_eq!(sig.lights[1].status, 13);
            assert_eq!(sig.lights[2].color, 3);
            assert_eq!(sig.lights[2].status, 14);
            for l in sig.lights.iter() {
                assert_eq!(l.shape, 5);
                assert_eq!(l.confidence, 0);
            }
        },
        other => panic!("expected the signal report third, got {:?}", other),
    }
}

#[test]
fn red_light_reports_exactly_the_red_slot_on() {
    let (mut node, _sub, _info) = actor_new(3, ActorDescription::TrafficLight).unwrap();
    let data = PollData::TrafficLight { state: LightState::Red, trigger_volume: bbox() };
    let out = node.poll(time(2), &delta(), &snapshot(), &data);
    match &out.msgs[2] {
        OutMsg::Signal(sig) => {
            assert_eq!(sig.lights[0].status, 14);
            assert_eq!(sig.lights[1].status, 13);
            assert_eq!(sig.lights[2].status, 13);
        },
        other => panic!("expected the signal report third, got {:?}", other),
    }
}

#[test]
fn off_light_publishes_nothing_that_tick() {
    let (mut node, _sub, _info) = actor_new(3, ActorDescription::TrafficLight).unwrap();
    let data = PollData::TrafficLight { state: LightState::Off, trigger_volume: bbox() };
    let out = node.poll(time(2), &delta(), &snapshot(), &data);
    assert!(out.msgs.is_empty());
    let data2 = PollData::TrafficLight { state: LightState::Unknown, trigger_volume: bbox() };
    let out2 = node.poll(time(3), &delta(), &snapshot(), &data2);
    assert!(out2.msgs.is_empty());
}

#[test]
fn traffic_sign_emits_trigger_volume_then_odometry() {
    let (mut node, _sub, _info) = actor_new(4, ActorDescription::TrafficSign).unwrap();
    let data = PollData::TrafficSign { trigger_volume: bbox() };
    let out = node.poll(time(2), &delta(), &snapshot(), &data);
    assert_eq!(out.msgs.len(), 3);
    match &out.msgs[0] {
        OutMsg::TriggerVolume(b) => {
            assert_eq!(b.pose, pose());
            assert_eq!(b.extents, vec3(0.5, 0.5, 1.0));
        },
        other => panic!("expected the trigger volume first, got {:?}", other),
    }
    assert!(matches!(&out.msgs[1], OutMsg::Odometry(_)));
    assert!(matches!(&out.msgs[2], OutMsg::Accel(_)));
}

fn direct_cmd() -> DirectCommand {
    DirectCommand {
        throttle: 0.5f32.to_bits(),
        steer: 0,
        brake: 0,
        hand_brake: false,
        reverse: false,
        gear: 1,
        manual_gear_shift: false,
    }
}

fn ackermann_cmd() -> AckermannCommand {
    AckermannCommand {
        steering_tire_angle: 0.1f32.to_bits(),
        is_defined_steering_tire_rotation_rate: false,
        velocity: 5.0f32.to_bits(),
        acceleration: 1.5f32.to_bits(),
        is_defined_acceleration: true,
        is_defined_jerk: false,
    }
}

#[test]
fn vehicle_applies_latest_command_and_reapplies_it_when_none_arrives() {
    let (mut node, _sub, _info) = actor_new(9, vehicle_desc(Some("ego"))).unwrap();
    let snap = snapshot();

    // No command yet: nothing is applied.
    let out0 = node.poll(
        time(1),
        &delta(),
        &snap,
        &PollData::Vehicle { new_command: None },
    );
    assert!(out0.action.is_none());

    // A direct command arrives, then an ackermann command in the same tick:
    // the later one is the command of record.
    let out1 = node.poll(
        time(2),
        &delta(),
        &snap,
        &PollData::Vehicle { new_command: Some(ControlKind::Direct(direct_cmd())) },
    );
    match out1.action {
        Some(ControlAction::Direct(ctl)) => assert_eq!(ctl.throttle, 0.5f32.to_bits()),
        other => panic!("expected a direct action, got {:?}", other),
    }
    let out2 = node.poll(
        time(3),
        &delta(),
        &snap,
        &PollData::Vehicle { new_command: Some(ControlKind::Ackermann(ackermann_cmd())) },
    );
    match out2.action {
        Some(ControlAction::Ackermann(plan)) => {
            assert_eq!(plan.speed, 5.0f32.to_bits());
            assert_eq!(plan.accel, 1.5f32.to_bits());
            assert_eq!(plan.elapsed_nanos, 20_000_000);
        },
        other => panic!("expected an ackermann action, got {:?}", other),
    }

    // No new command: the previous command of record is re-applied, every
    // subsequent poll.
    for sec in 4..7 {
        let out = node.poll(
            time(sec),
            &delta(),
            &snap,
            &PollData::Vehicle { new_command: None },
        );
        match out.action {
            Some(ControlAction::Ackermann(plan)) => assert_eq!(plan.speed, 5.0f32.to_bits()),
            other => panic!("expected the stale ackermann action, got {:?}", other),
        }
    }
}

#[test]
fn vehicle_warns_once_about_missing_acceleration() {
    let (mut node, _sub, _info) = actor_new(9, vehicle_desc(Some("ego"))).unwrap();
    let mut cmd = ackermann_cmd();
    cmd.is_defined_acceleration = false;
    let out1 = node.poll(
        time(1),
        &delta(),
        &snapshot(),
        &PollData::Vehicle { new_command: Some(ControlKind::Ackermann(cmd)) },
    );
    assert_eq!(out1.warnings.len(), 1);
    // The same stale command keeps being applied but warns no more.
    let out2 = node.poll(
        time(2),
        &delta(),
        &snapshot(),
        &PollData::Vehicle { new_command: None },
    );
    assert!(out2.warnings.is_empty());
    match out2.action {
        Some(ControlAction::Ackermann(plan)) => assert_eq!(plan.accel, 0),
        other => panic!("expected the ackermann action, got {:?}", other),
    }
}

fn discovered(ids: &[(u32, ActorDescription)]) -> Vec<DiscoveredActor> {
    ids.iter().map(|(id, d)| DiscoveredActor { id: *id, desc: d.clone() }).collect()
}

#[test]
fn registry_tracks_the_current_entity_set() {
    let mut reg = Registry::new();

    let report = reg.reconcile(discovered(&[
        (7, camera_desc()),
        (9, vehicle_desc(Some("ego"))),
        (3, ActorDescription::TrafficLight),
    ]));
    assert_eq!(report.added, vec![7, 9, 3]);
    assert!(report.removed.is_empty());
    assert!(report.rejected.is_empty());
    assert_eq!(report.announcements.len(), 1);
    assert_eq!(report.announcements[0].0, 9);
    assert_eq!(report.subscribe_sides.len(), 3);
    assert_eq!(reg.ids(), vec![7, 9, 3]);

    // Entity 7 vanishes, entity 12 appears: the node set follows exactly.
    let report2 = reg.reconcile(discovered(&[
        (9, vehicle_desc(Some("ego"))),
        (3, ActorDescription::TrafficLight),
        (12, ActorDescription::Other),
    ]));
    assert_eq!(report2.removed, vec![7]);
    assert_eq!(report2.added, vec![12]);
    assert!(report2.announcements.is_empty());
    assert_eq!(reg.ids(), vec![9, 3, 12]);
}

#[test]
fn rejected_vehicle_does_not_block_the_others() {
    let mut reg = Registry::new();
    let report = reg.reconcile(discovered(&[
        (1, vehicle_desc(None)),
        (2, ActorDescription::Other),
    ]));
    assert_eq!(report.rejected, vec![1]);
    assert_eq!(report.added, vec![2]);
    assert_eq!(reg.ids(), vec![2]);
}

#[test]
fn camera_sensor_lifecycle() {
    // Entity 7, a camera sensor, appears: a node is registered and its type
    // and odometry topics publish on the next tick.
    let mut reg = Registry::new();
    let report = reg.reconcile(discovered(&[(7, camera_desc())]));
    assert_eq!(report.added, vec![7]);
    assert_eq!(reg.ids(), vec![7]);

    let inputs = vec![PollInput { snapshot: snapshot(), data: PollData::Sensor }];
    let (outs, _heartbeat) = reg.poll_all(time(11), &delta(), &inputs);
    assert_eq!(outs.len(), 1);
    assert_eq!(outs[0].msgs.len(), 3);
    assert!(matches!(&outs[0].msgs[0], OutMsg::TypeInfo(_)));
    assert!(matches!(&outs[0].msgs[1], OutMsg::Odometry(_)));

    // A zero-length image callback arrives: no image message is published.
    let empty: Vec<ColorBgra> = Vec::new();
    let h = carla_autoware_bridge::msg::Header { stamp: time(11), frame_id: 0 };
    assert!(camera_msg(h, 0, 0, &empty, false).is_none());

    // Entity 7 vanishes: its node is removed and nothing is emitted for it
    // afterwards.
    let report2 = reg.reconcile(Vec::new());
    assert_eq!(report2.removed, vec![7]);
    assert!(reg.ids().is_empty());
    let (outs2, _heartbeat) = reg.poll_all(time(51), &delta(), &Vec::new());
    assert!(outs2.is_empty());
}

#[test]
fn poll_all_polls_every_node_once_in_order() {
    let mut reg = Registry::new();
    reg.reconcile(discovered(&[
        (5, ActorDescription::Other),
        (6, ActorDescription::TrafficSign),
    ]));
    let inputs = vec![
        PollInput { snapshot: snapshot(), data: PollData::Other },
        PollInput { snapshot: snapshot(), data: PollData::TrafficSign { trigger_volume: bbox() } },
    ];
    let (outs, _heartbeat) = reg.poll_all(time(1), &delta(), &inputs);
    assert_eq!(outs.len(), 2);
    assert_eq!(outs[0].msgs.len(), 2);
    assert_eq!(outs[1].msgs.len(), 3);
    assert_eq!(reg.ids(), vec![5, 6]);
}

#[test]
fn retained_nodes_keep_their_state_across_reconciliations() {
    let mut reg = Registry::new();
    reg.reconcile(discovered(&[(7, camera_desc())]));
    let inputs = vec![PollInput { snapshot: snapshot(), data: PollData::Sensor }];
    let (outs1, _) = reg.poll_all(time(1), &delta(), &inputs);
    let f1 = match &outs1[0].msgs[1] {
        OutMsg::Odometry(om) => om.header.frame_id,
        _ => unreachable!(),
    };
    // The entity stays current: the node, and its frame counter, survive.
    reg.reconcile(discovered(&[(7, camera_desc())]));
    let (outs2, _) = reg.poll_all(time(2), &delta(), &inputs);
    let f2 = match &outs2[0].msgs[1] {
        OutMsg::Odometry(om) => om.header.frame_id,
        _ => unreachable!(),
    };
    assert_eq!(f2, f1 + 1);
}

#[test]
fn vehicle_node_through_the_registry_arbitrates_commands() {
    let mut reg = Registry::new();
    reg.reconcile(discovered(&[(9, vehicle_desc(Some("ego")))]));
    let mk = |cmd: Option<ControlKind>| vec![PollInput {
        snapshot: snapshot(),
        data: PollData::Vehicle { new_command: cmd },
    }];
    let (outs, _) = reg.poll_all(
        time(1),
        &delta(),
        &mk(Some(ControlKind::Direct(direct_cmd()))),
    );
    assert!(matches!(outs[0].action, Some(ControlAction::Direct(_))));
    let (outs, _) = reg.poll_all(time(2), &delta(), &mk(None));
    assert!(matches!(outs[0].action, Some(ControlAction::Direct(_))));
}

#[test]
fn map_cache_refreshes_only_on_a_new_version_id() {
    let mut cache = Cache::new(10, vec![1, 2, 3]);
    assert!(!cache.needs_refresh(10));
    assert_eq!(cache.get(), &vec![1, 2, 3]);
    assert!(cache.needs_refresh(11));
    cache.store(11, vec![4, 5]);
    assert!(!cache.needs_refresh(11));
    assert_eq!(cache.get(), &vec![4, 5]);
}
