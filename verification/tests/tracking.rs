use alvr_dfr::eye_tracked_ffr::{
    get_synchronized_dfr_shift, get_synchronized_sequence_id, initialize_dfr, DfrState, ScreenShift,
};
use alvr_dfr::float::Float32;
use alvr_dfr::packets::{
    DeviceMotion, EyeTrackingDataPICO, EyeTrackingInputStatus, FaceData, Pose, Quat, Vec3,
};
use alvr_dfr::time::{Duration, Instant};
use alvr_dfr::tracking::{
    convert_pose_status, DeviceIds, HandType, MotionPlacement, OriginOrientation, OriginPosition,
    PositionRecenteringMode, RotationRecenteringMode, TrackingManager,
};
use alvr_dfr::tracking_loop::{
    after_receive, gesture_hands, ingest_tracking, named_motions, output_plan, retain_used_motions,
    sampled_motions, BodyTrackingConfig, GestureHands, LoopStep, OutputPlan, ReceiveOutcome,
    TrackingSample, VmcConfig,
};
use std::collections::HashMap;

fn f(x: f32) -> Float32 {
    Float32 { bits: x.to_bits() }
}

fn ns(nanos: u64) -> Duration {
    Duration::from_nanos(nanos)
}

fn pose(x: f32) -> Pose {
    Pose {
        orientation: Quat { x: f(0.1), y: f(0.2), z: f(0.3), w: f(x) },
        position: Vec3 { x: f(x), y: f(x + 1.0), z: f(x + 2.0) },
    }
}

fn motion(x: f32) -> DeviceMotion {
    let still = Vec3 { x: f(0.0), y: f(0.0), z: f(0.0) };
    DeviceMotion { pose: pose(x), linear_velocity: still, angular_velocity: still }
}

const IDS: DeviceIds = DeviceIds {
    head: 1,
    hand_left: 2,
    hand_right: 3,
    body_chest: 4,
    body_hips: 5,
    body_left_elbow: 6,
    body_right_elbow: 7,
    body_left_knee: 8,
    body_left_foot: 9,
    body_right_knee: 10,
    body_right_foot: 11,
};

fn eye(time: u64, status: u32) -> EyeTrackingDataPICO<Float32> {
    let v = |x: f32| [f(x), f(x + 0.5), f(x + 0.75)];
    EyeTrackingDataPICO {
        time,
        left_eye_pose_status: status,
        right_eye_pose_status: 1,
        combined_eye_pose_status: status,
        left_eye_gaze_point: v(1.0),
        right_eye_gaze_point: v(2.0),
        combined_eye_gaze_point: v(3.0),
        left_eye_gaze_vector: v(4.0),
        right_eye_gaze_vector: v(5.0),
        combined_eye_gaze_vector: v(6.0),
        left_eye_openness: f(0.5),
        right_eye_openness: f(0.25),
        left_eye_pupil_dilation: f(0.1),
        right_eye_pupil_dilation: f(0.2),
        left_eye_position_guide: v(7.0),
        right_eye_position_guide: v(8.0),
        foveated_gaze_direction: v(9.0),
        foveated_gaze_tracking_state: -3,
    }
}

fn face(data: Option<EyeTrackingDataPICO<Float32>>) -> FaceData {
    FaceData {
        eye_gazes: [None, Some(pose(3.0))],
        fb_face_expression: None,
        htc_eye_expression: None,
        htc_lip_expression: None,
        pico_eye_tracking_data: data,
        eye_tracking_state: EyeTrackingInputStatus::Standby,
    }
}

fn report(m: &mut TrackingManager, t: u64, motions: &[(u64, f32)]) {
    let reported: Vec<(u64, DeviceMotion)> = motions.iter().map(|(id, x)| (*id, motion(*x))).collect();
    let placed: Vec<DeviceMotion> = motions.iter().map(|(_, x)| motion(*x + 100.0)).collect();
    m.report_device_motions(&IDS, true, ns(t), &reported, &placed);
}

#[test]
fn a_reported_motion_is_found() {
    let mut m = TrackingManager::new(3);
    assert_eq!(m.get_device_motion(1, ns(0)), None);
    report(&mut m, 10, &[(1, 1.0), (2, 2.0), (99, 3.0)]);
    // Devices that are placed are kept as placed, any other as reported.
    assert_eq!(m.get_device_motion(1, ns(10)), Some(motion(101.0)));
    assert_eq!(m.get_device_motion(2, ns(10)), Some(motion(102.0)));
    assert_eq!(m.get_device_motion(99, ns(10)), Some(motion(3.0)));
    assert_eq!(m.get_device_motion(3, ns(10)), None);
    // Of two reports for the same time the later one counts.
    report(&mut m, 10, &[(99, 4.0), (99, 5.0)]);
    assert_eq!(m.get_device_motion(99, ns(10)), Some(motion(5.0)));
    assert_eq!(m.get_device_motion(1, ns(10)), Some(motion(101.0)));
}

#[test]
fn the_closest_motion_that_is_not_older_is_taken() {
    let mut m = TrackingManager::new(10);
    for (t, x) in [(10, 1.0), (30, 3.0), (20, 2.0)] {
        report(&mut m, t, &[(99, x)]);
    }
    assert_eq!(m.get_device_motion(99, ns(0)), Some(motion(1.0)));
    assert_eq!(m.get_device_motion(99, ns(11)), Some(motion(2.0)));
    assert_eq!(m.get_device_motion(99, ns(20)), Some(motion(2.0)));
    assert_eq!(m.get_device_motion(99, ns(21)), Some(motion(3.0)));
    assert_eq!(m.get_device_motion(99, ns(31)), None);
}

#[test]
fn motion_histories_are_bounded() {
    let mut m = TrackingManager::new(2);
    for t in [10, 20, 30] {
        report(&mut m, t, &[(99, t as f32)]);
    }
    assert_eq!(m.get_device_motion(99, ns(0)), Some(motion(20.0)));
    // A device's first motion is kept even without room for a history, its later ones are not.
    let mut none = TrackingManager::new(0);
    report(&mut none, 10, &[(99, 1.0)]);
    assert_eq!(none.get_device_motion(99, ns(10)), Some(motion(1.0)));
    report(&mut none, 20, &[(99, 2.0)]);
    assert_eq!(none.get_device_motion(99, ns(20)), Some(motion(2.0)));
    assert_eq!(none.get_device_motion(99, ns(10)), Some(motion(2.0)));
}

#[test]
fn placements_depend_on_the_device() {
    for id in [1, 4, 5, 6, 7, 8, 9, 10, 11] {
        assert_eq!(IDS.motion_placement(true, id), Some(MotionPlacement::Plain));
        assert_eq!(IDS.motion_placement(false, id), Some(MotionPlacement::Plain));
    }
    assert_eq!(IDS.motion_placement(true, 2), Some(MotionPlacement::LeftController));
    assert_eq!(IDS.motion_placement(true, 3), Some(MotionPlacement::RightController));
    assert_eq!(IDS.motion_placement(false, 2), None);
    assert_eq!(IDS.motion_placement(false, 3), None);
    assert_eq!(IDS.motion_placement(true, 99), None);
}

#[test]
fn recentering_goes_by_the_last_head_pose() {
    let mut m = TrackingManager::new(2);
    assert_eq!(m.inverse_recentering_origin(), Pose::identity());
    let plan = m.recentering_plan(PositionRecenteringMode::LocalFloor, RotationRecenteringMode::Tilted);
    assert_eq!(plan.position, OriginPosition::At(Pose::identity().position));
    report(&mut m, 1, &[(1, 5.0), (2, 6.0)]);
    let head = pose(5.0);
    let plan = m.recentering_plan(PositionRecenteringMode::LocalFloor, RotationRecenteringMode::Yaw);
    assert_eq!(
        plan.position,
        OriginPosition::At(Vec3 { x: f(5.0), y: f(0.0), z: f(7.0) })
    );
    assert_eq!(
        plan.orientation,
        OriginOrientation::Normalized(Quat { x: f(0.0), y: f(0.2), z: f(0.0), w: f(5.0) })
    );
    let plan = m.recentering_plan(
        PositionRecenteringMode::Local { view_height: f(1.5) },
        RotationRecenteringMode::Tilted,
    );
    assert_eq!(plan.position, OriginPosition::BelowHead { head, height: f(1.5) });
    assert_eq!(plan.orientation, OriginOrientation::As(head.orientation));
    let plan = m.recentering_plan(PositionRecenteringMode::Disabled, RotationRecenteringMode::Disabled);
    assert_eq!(plan.position, OriginPosition::At(Pose::identity().position));
    assert_eq!(plan.orientation, OriginOrientation::As(Pose::identity().orientation));
    m.set_inverse_recentering_origin(pose(9.0));
    assert_eq!(m.inverse_recentering_origin(), pose(9.0));
}

#[test]
fn a_reported_skeleton_is_found() {
    let mut m = TrackingManager::new(2);
    assert!(m.get_hand_skeleton(HandType::Left, ns(1)).is_none());
    for t in [1u64, 2, 3] {
        m.report_hand_skeleton(HandType::Left, ns(t), [pose(t as f32); 26]);
    }
    assert!(m.get_hand_skeleton(HandType::Left, ns(1)).is_none());
    assert_eq!(m.get_hand_skeleton(HandType::Left, ns(2)).unwrap()[25], pose(2.0));
    assert_eq!(m.get_hand_skeleton(HandType::Left, ns(3)).unwrap()[0], pose(3.0));
    assert!(m.get_hand_skeleton(HandType::Right, ns(3)).is_none());
    // Of two skeletons for the same time the older one is found.
    m.report_hand_skeleton(HandType::Right, ns(7), [pose(1.0); 26]);
    m.report_hand_skeleton(HandType::Right, ns(7), [pose(2.0); 26]);
    assert_eq!(m.get_hand_skeleton(HandType::Right, ns(7)).unwrap()[0], pose(1.0));
}

#[test]
fn face_data_replaces_face_data() {
    let mut m = TrackingManager::new(2);
    assert_eq!(m.get_face_data().eye_gazes, [None, None]);
    assert_eq!(m.get_face_data().eye_tracking_state, EyeTrackingInputStatus::Unsupported);
    m.report_face_data(face(None));
    assert_eq!(m.get_face_data().eye_gazes, [None, Some(pose(3.0))]);
}

#[test]
fn eye_samples_are_taken_once() {
    let mut m = TrackingManager::new(2);
    assert!(m.get_pico_eye_data().is_none());
    assert!(m.report_pico_eye_data(&eye(0, 0)));
    assert!(!m.report_pico_eye_data(&eye(0, 2)));
    assert!(!m.get_pico_eye_data().unwrap().left_eye_pose_status.gaze_vector_valid);
    assert!(m.report_pico_eye_data(&eye(5, 0x804)));
    let log = m.get_pico_eye_data().unwrap();
    assert_eq!(log.timestamp_ns, 5);
    assert_eq!(log.left_eye_pose_status, convert_pose_status(0x804));
    assert!(log.left_eye_pose_status.eye_openness_valid);
    assert!(log.left_eye_pose_status.pupil_dilation_valid);
    assert!(!log.left_eye_pose_status.gaze_point_valid);
    assert!(log.right_eye_pose_status.gaze_point_valid);
    assert_eq!(log.right_eye_pose_status.status_flags, 1);
    assert_eq!(log.combined_eye_gaze_vector, [f(6.0), f(6.5), f(6.75)]);
    assert_eq!(log.foveated_gaze_tracking_state, -3);
    assert_eq!(log.left_eye_openness, f(0.5));
    // Going back to an earlier time is a new sample.
    assert!(m.report_pico_eye_data(&eye(0, 0)));
}

#[test]
fn a_skeleton_stands_in_for_its_controller() {
    let motions: Vec<(u64, DeviceMotion)> = [1, 2, 3, 2].iter().map(|id| (*id, motion(0.0))).collect();
    let used = |multimodal: bool, left: bool, right: bool| -> Vec<u64> {
        retain_used_motions(&IDS, multimodal, left, right, &motions).iter().map(|m| m.0).collect()
    };
    assert_eq!(used(false, false, false), [1, 2, 3, 2]);
    assert_eq!(used(false, true, false), [1, 3]);
    assert_eq!(used(false, false, true), [1, 2, 2]);
    assert_eq!(used(false, true, true), [1]);
    assert_eq!(used(true, true, true), [1, 2, 3, 2]);
}

#[test]
fn gestures_need_a_skeleton_without_a_controller() {
    let keys = vec![1, 3];
    assert_eq!(
        gesture_hands(true, &IDS, &keys, true, true),
        GestureHands { left: true, right: false }
    );
    assert_eq!(
        gesture_hands(true, &IDS, &vec![], false, true),
        GestureHands { left: false, right: true }
    );
    assert_eq!(
        gesture_hands(false, &IDS, &vec![], true, true),
        GestureHands { left: false, right: false }
    );
}

#[test]
fn a_packet_is_taken_over_whole() {
    let mut m = TrackingManager::new(4);
    let mut state = DfrState::new();
    let dfr = initialize_dfr();
    let sample = || TrackingSample {
        target_timestamp: ns(50),
        device_motions: vec![(1, motion(1.0)), (99, motion(2.0)), (1, motion(3.0))],
        placed_motions: vec![motion(11.0), motion(12.0), motion(13.0)],
        left_skeleton: Some([pose(1.0); 26]),
        right_skeleton: None,
        face_data: face(Some(eye(8, 2))),
    };
    let shift = Some(ScreenShift { x: f(0.1), y: f(0.2) });
    let now = Instant { nanos: 1 };
    let r = ingest_tracking(&mut m, &dfr, &mut state, &IDS, false, sample(), shift, now);
    assert_eq!(r.device_motion_keys, [1, 99, 1]);
    assert!(r.new_eye_data);
    assert_eq!(m.get_device_motion(1, ns(50)), Some(motion(13.0)));
    assert_eq!(m.get_device_motion(99, ns(50)), Some(motion(2.0)));
    assert!(m.get_hand_skeleton(HandType::Left, ns(50)).is_some());
    assert!(m.get_hand_skeleton(HandType::Right, ns(50)).is_none());
    assert_eq!(m.get_pico_eye_data().unwrap().timestamp_ns, 8);
    assert_eq!(m.get_face_data().pico_eye_tracking_data.as_ref().unwrap().time, 8);
    assert_eq!(get_synchronized_sequence_id(&state), 1);
    assert_eq!(get_synchronized_dfr_shift(&state).unwrap().shift_x, f(0.1));
    // Each device of the packet has a motion at its time.
    let sampled = sampled_motions(&m, &r.device_motion_keys, ns(50));
    assert_eq!(sampled, [(1, motion(13.0)), (99, motion(2.0)), (1, motion(13.0))]);
    let names: HashMap<u64, String> = [(99, "/tracker".to_string())].into_iter().collect();
    let named = named_motions(&m, &r.device_motion_keys, &names, ns(50));
    assert_eq!(named, [("/tracker".to_string(), motion(2.0))]);
    let again = ingest_tracking(&mut m, &dfr, &mut state, &IDS, false, sample(), shift, now);
    assert!(!again.new_eye_data);
    assert_eq!(get_synchronized_sequence_id(&state), 1);
}

#[test]
fn the_loop_goes_on_after_a_timeout_only() {
    assert_eq!(after_receive(ReceiveOutcome::Packet), LoopStep::Process);
    assert_eq!(after_receive(ReceiveOutcome::TryAgain), LoopStep::Retry);
    assert_eq!(after_receive(ReceiveOutcome::BadHeader), LoopStep::Stop);
    assert_eq!(after_receive(ReceiveOutcome::Failed), LoopStep::Stop);
}

#[test]
fn outputs_need_a_setting_and_a_sink() {
    let vmc = |publish: bool| Some(VmcConfig { publish, orientation_correction: true });
    let body = |is_tracked: bool| Some(BodyTrackingConfig { is_tracked });
    assert_eq!(
        output_plan(vmc(true), body(true), true, true),
        OutputPlan { vmc: Some(true), body: true }
    );
    assert_eq!(
        output_plan(Some(VmcConfig { publish: true, orientation_correction: false }), None, true, true),
        OutputPlan { vmc: Some(false), body: false }
    );
    let none = OutputPlan { vmc: None, body: false };
    assert_eq!(output_plan(vmc(false), body(false), true, true), none);
    assert_eq!(output_plan(vmc(true), body(true), false, false), none);
    assert_eq!(output_plan(None, None, true, true), none);
}
