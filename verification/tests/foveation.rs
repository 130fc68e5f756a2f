use alvr_dfr::eye_tracked_ffr::{
    get_dfr_shift_for_timestamp, get_eye_tracked_ffr_shift,
    get_eye_tracked_ffr_shift_with_timestamp, get_last_fr_rendered_sequence_id,
    get_last_fr_rendered_shift, get_synchronized_dfr_shift, get_synchronized_sequence_id,
    get_timestamp_cache_info, initialize_dfr, is_eye_tracking_active,
    is_last_fr_rendered_shift_recent, DFRShiftParams, DfrState, ScreenShift,
};
use alvr_dfr::float::Float32;
use alvr_dfr::packets::{EyeTrackingDataPICO, EyeTrackingInputStatus, FaceData};
use alvr_dfr::shift_threshold::is_beyond_threshold;
use alvr_dfr::time::Instant;

fn f(x: f32) -> Float32 {
    Float32 { bits: x.to_bits() }
}

fn at_ms(ms: u128) -> Instant {
    Instant { nanos: ms * 1_000_000 }
}

fn face(status: Option<u32>) -> FaceData {
    let zero = [f(0.0); 3];
    FaceData {
        eye_gazes: [None, None],
        fb_face_expression: None,
        htc_eye_expression: None,
        htc_lip_expression: None,
        pico_eye_tracking_data: status.map(|combined_eye_pose_status| EyeTrackingDataPICO {
            time: 1,
            left_eye_pose_status: 0,
            right_eye_pose_status: 0,
            combined_eye_pose_status,
            left_eye_gaze_point: zero,
            right_eye_gaze_point: zero,
            combined_eye_gaze_point: zero,
            left_eye_gaze_vector: zero,
            right_eye_gaze_vector: zero,
            combined_eye_gaze_vector: [f(0.1), f(0.2), f(-1.0)],
            left_eye_openness: f(0.0),
            right_eye_openness: f(0.0),
            left_eye_pupil_dilation: f(0.0),
            right_eye_pupil_dilation: f(0.0),
            left_eye_position_guide: zero,
            right_eye_position_guide: zero,
            foveated_gaze_direction: zero,
            foveated_gaze_tracking_state: 0,
        }),
        eye_tracking_state: EyeTrackingInputStatus::Active,
    }
}

fn shift(x: f32, y: f32) -> Option<ScreenShift> {
    Some(ScreenShift { x: f(x), y: f(y) })
}

fn params(x: f32, y: f32) -> DFRShiftParams {
    DFRShiftParams { shift_x: f(x), shift_y: f(y), is_eye_tracked: true }
}

#[test]
fn a_new_session_is_centred() {
    let mut state = DfrState::new();
    assert_eq!(get_synchronized_dfr_shift(&state), None);
    assert_eq!(get_synchronized_sequence_id(&state), 0);
    assert!(!is_eye_tracking_active(&state, at_ms(0)));
    assert_eq!(get_last_fr_rendered_shift(&state), None);
    assert_eq!(get_last_fr_rendered_sequence_id(&state), None);
    assert!(!is_last_fr_rendered_shift_recent(&state, at_ms(0)));
    assert_eq!(get_timestamp_cache_info(&state), (0, None, None));
    assert_eq!(get_eye_tracked_ffr_shift(&mut state, at_ms(5)), DFRShiftParams::default());
    assert_eq!(get_last_fr_rendered_shift(&state), Some(DFRShiftParams::default()));
    assert_eq!(get_last_fr_rendered_sequence_id(&state), Some(0));
}

#[test]
fn the_foveal_region_follows_a_valid_gaze_only() {
    let dfr = initialize_dfr();
    let mut state = DfrState::new();
    dfr.update_from_face_data(&mut state, &face(Some(2)), shift(0.1, -0.2), at_ms(10));
    assert_eq!(get_eye_tracked_ffr_shift(&mut state, at_ms(11)), params(0.1, -0.2));
    assert_eq!(get_synchronized_dfr_shift(&state), Some(params(0.1, -0.2)));
    // Not flagged valid, not a reasonable gaze, and no sample at all.
    for (status, screen) in [(Some(1), shift(0.3, 0.3)), (Some(2), None), (None, shift(0.3, 0.3))] {
        dfr.update_from_face_data(&mut state, &face(status), screen, at_ms(20));
        assert_eq!(get_eye_tracked_ffr_shift(&mut state, at_ms(21)), DFRShiftParams::default());
        assert_eq!(get_synchronized_dfr_shift(&state), None);
        assert!(is_eye_tracking_active(&state, at_ms(22)));
    }
}

#[test]
fn synchronizations_are_counted() {
    let dfr = initialize_dfr();
    let mut state = DfrState::new();
    let go = |state: &mut DfrState, status: u32, x: f32| {
        dfr.update_from_face_data(state, &face(Some(status)), shift(x, 0.0), at_ms(1));
        get_synchronized_sequence_id(state)
    };
    assert_eq!(go(&mut state, 2, 0.1), 1);
    // A small movement changes the shift in force but not the synchronized one.
    assert_eq!(go(&mut state, 2, 0.11), 1);
    assert_eq!(get_synchronized_dfr_shift(&state), Some(params(0.1, 0.0)));
    assert_eq!(get_eye_tracked_ffr_shift(&mut state, at_ms(2)), params(0.11, 0.0));
    assert_eq!(go(&mut state, 2, 0.2), 2);
    assert_eq!(go(&mut state, 0, 0.2), 3);
    // Fixed foveation is set anew with each sample.
    assert_eq!(go(&mut state, 0, 0.2), 4);
    assert_eq!(go(&mut state, 2, 0.2), 5);
}

#[test]
fn eye_input_times_out() {
    let dfr = initialize_dfr();
    let mut state = DfrState::new();
    dfr.update_from_face_data(&mut state, &face(None), None, at_ms(1000));
    assert!(is_eye_tracking_active(&state, at_ms(1000)));
    assert!(is_eye_tracking_active(&state, at_ms(1199)));
    assert!(!is_eye_tracking_active(&state, at_ms(1200)));
    assert!(!is_eye_tracking_active(&state, at_ms(999)));
}

#[test]
fn the_rendered_shift_outlives_updates() {
    let dfr = initialize_dfr();
    let mut state = DfrState::new();
    dfr.update_from_face_data(&mut state, &face(Some(2)), shift(0.1, 0.0), at_ms(0));
    get_eye_tracked_ffr_shift(&mut state, at_ms(0));
    dfr.update_from_face_data(&mut state, &face(Some(2)), shift(0.4, 0.0), at_ms(1));
    assert_eq!(get_last_fr_rendered_shift(&state), Some(params(0.1, 0.0)));
    assert_eq!(get_last_fr_rendered_sequence_id(&state), Some(1));
    assert_eq!(get_synchronized_sequence_id(&state), 2);
    assert!(is_last_fr_rendered_shift_recent(&state, at_ms(999)));
    assert!(!is_last_fr_rendered_shift_recent(&state, at_ms(1000)));
}

#[test]
fn a_frame_is_decoded_with_the_shift_it_was_encoded_with() {
    let dfr = initialize_dfr();
    let mut state = DfrState::new();
    for i in 1..=50u64 {
        let x = i as f32 / 1000.0;
        dfr.update_from_face_data(&mut state, &face(Some(2)), shift(x, 0.0), at_ms(0));
        assert_eq!(
            get_eye_tracked_ffr_shift_with_timestamp(&mut state, i * 11, at_ms(0)),
            params(x, 0.0)
        );
    }
    for i in 1..=50u64 {
        assert_eq!(
            get_dfr_shift_for_timestamp(&state, i * 11),
            Some(params(i as f32 / 1000.0, 0.0))
        );
    }
    assert_eq!(get_dfr_shift_for_timestamp(&state, 12), None);
    // Binding does not count as rendering.
    assert_eq!(get_last_fr_rendered_shift(&state), None);
}

#[test]
fn the_cache_keeps_the_newest_hundred_frames() {
    let mut state = DfrState::new();
    for t in 1..=150u64 {
        get_eye_tracked_ffr_shift_with_timestamp(&mut state, t, at_ms(0));
    }
    assert_eq!(get_timestamp_cache_info(&state), (100, Some(51), Some(150)));
    assert_eq!(get_dfr_shift_for_timestamp(&state, 50), None);
    assert_eq!(get_dfr_shift_for_timestamp(&state, 51), Some(DFRShiftParams::default()));
    // A timestamp older than all of a full cache is pushed out at once.
    get_eye_tracked_ffr_shift_with_timestamp(&mut state, 7, at_ms(0));
    assert_eq!(get_dfr_shift_for_timestamp(&state, 7), None);
    assert_eq!(get_timestamp_cache_info(&state), (100, Some(51), Some(150)));
}

#[test]
fn the_timestamp_zero_binds_nothing() {
    let mut state = DfrState::new();
    assert_eq!(
        get_eye_tracked_ffr_shift_with_timestamp(&mut state, 0, at_ms(3)),
        DFRShiftParams::default()
    );
    assert_eq!(get_timestamp_cache_info(&state), (0, None, None));
    assert_eq!(get_last_fr_rendered_shift(&state), Some(DFRShiftParams::default()));
}

/// The comparison in floating point arithmetic.
fn far(a: f32, b: f32) -> bool {
    (a - b).abs() > 0.02
}

#[test]
fn the_threshold_is_that_of_single_precision() {
    assert_eq!(0.02f32.to_bits(), 0x3ca3_d70a);
    let mut seed: u64 = 1;
    let mut next = || {
        seed = seed.wrapping_mul(6364136223846793005).wrapping_add(1442695040888963407);
        (seed >> 32) as u32
    };
    let mut pairs: Vec<(f32, f32)> = Vec::new();
    for _ in 0..20000 {
        // Any two numbers, numbers of about the threshold's scale, and numbers about the threshold
        // apart.
        pairs.push((f32::from_bits(next()), f32::from_bits(next())));
        let near = |bits: u32| f32::from_bits((bits & 0x81ff_ffff) | 0x3a00_0000);
        pairs.push((near(next()), near(next())));
        let a = near(next());
        let b = a + 0.02;
        pairs.push((a, f32::from_bits(b.to_bits().wrapping_add(next() % 7).wrapping_sub(3))));
        pairs.push((f32::from_bits(0x3ca3_d70a - 3 + next() % 7), f32::from_bits(next() % 0x3400_0000)));
        pairs.push((f32::from_bits(0x3ca3_d70a - 3 + next() % 7), -f32::from_bits(next() % 0x3400_0000)));
    }
    for x in [0.0f32, -0.0, 0.02, -0.02, 1.0, f32::MAX, f32::MIN, f32::INFINITY, f32::NEG_INFINITY, f32::NAN, 1e-45] {
        for y in [0.0f32, 0.02, -0.02, 0.04, f32::MAX, f32::INFINITY, f32::NEG_INFINITY, f32::NAN, 1e-45] {
            pairs.push((x, y));
        }
    }
    // The middle between the threshold and the next number, and a little more.
    let half_step = f32::from_bits(0x3000_0000 - 0x80_0000);
    let step = f32::from_bits(0x3ca3_d70b) - 0.02;
    pairs.push((0.02, -step / 2.0));
    pairs.push((0.02, -f32::from_bits((step / 2.0).to_bits() + 1)));
    pairs.push((0.02, -half_step));
    let mut beyond = 0;
    for (a, b) in &pairs {
        assert_eq!(is_beyond_threshold(f(*a), f(*b)), far(*a, *b), "{a:e} {b:e}");
        assert_eq!(is_beyond_threshold(f(*b), f(*a)), far(*a, *b));
        if far(*a, *b) {
            beyond += 1;
        }
    }
    assert!(beyond > 20000 && beyond < pairs.len() - 20000);
}

#[test]
fn the_synchronized_shift_follows_the_gaze() {
    let dfr = initialize_dfr();
    let mut state = DfrState::new();
    for i in 0..200 {
        let x = (i as f32 * 0.013).sin() * 0.4;
        let y = (i as f32 * 0.031).cos() * 0.4;
        dfr.update_from_face_data(&mut state, &face(Some(2)), shift(x, y), at_ms(0));
        let kept = get_synchronized_dfr_shift(&state).unwrap();
        assert!(!far(f32::from_bits(kept.shift_x.bits), x));
        assert!(!far(f32::from_bits(kept.shift_y.bits), y));
    }
    assert!(get_synchronized_sequence_id(&state) > 20);
    assert!(get_synchronized_sequence_id(&state) < 200);
}
