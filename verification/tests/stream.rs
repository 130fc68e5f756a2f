use alvr_dfr::float::Float32;
use alvr_dfr::packets::{
    DFRShiftData, DeviceMotion, EyeTrackingDataPICO, EyeTrackingInputStatus, Fov, Pose, UVec2, Vec3,
    ViewParams,
};
use alvr_dfr::stream::{
    advance_deadline, assemble_face_data, classify_eye_tracking_state, collect_device_motions,
    displayed_timestamp, foveation_profile, frame_times, input_step, keep_polling, renderer_flags,
    submit_delay, tracking_timestamp, ClientsideFoveationConfig, ClientsideFoveationMode, CodecType, EyeSources,
    FoveationExtensions, FoveationProfile, FrameTimes, HostTypes, InputStep, ParsedStreamConfig,
    PassthroughMode, RealTimeConfig, RendererFlags, StreamState, VideoSettings, WiFiCache,
    WiFiReading,
};
use alvr_dfr::stream_config::NegotiatedStreamingConfig;
use alvr_dfr::time::{Duration, Instant};
use alvr_dfr::tracking::DeviceIds;

struct Host {}

impl HostTypes for Host {
    type Chroma = u32;
    type FoveatedEncoding = &'static str;
    type PostProcessing = u8;
    type Upscaling = u16;
    type DecoderOptions = Vec<String>;
    type InteractionSources = char;
}

fn f(x: f32) -> Float32 {
    Float32 { bits: x.to_bits() }
}

fn negotiated(enable_foveated_encoding: bool) -> NegotiatedStreamingConfig {
    NegotiatedStreamingConfig {
        view_resolution: UVec2 { x: 10, y: 20 },
        refresh_rate_hint: "90.0".to_string(),
        game_audio_sample_rate: 1,
        enable_foveated_encoding,
        use_multimodal_protocol: false,
        use_full_range: true,
        encoding_gamma: "2.2".to_string(),
        enable_hdr: true,
        wired: false,
    }
}

fn settings(passthrough: Option<PassthroughMode<u32>>, buffering: f32) -> VideoSettings<Host> {
    VideoSettings {
        passthrough,
        foveated_encoding: Some("fovea"),
        clientside_foveation: None,
        clientside_post_processing: Some(4),
        upscaling: Some(5),
        force_software_decoder: true,
        max_buffering_frames: f(buffering),
        buffering_history_weight: f(0.9),
        mediacodec_extra_options: vec!["o".to_string()],
    }
}

fn views(x: f32) -> [ViewParams; 2] {
    let fov = Fov { left: f(-x), right: f(x), up: f(x), down: f(-x) };
    [ViewParams { pose: Pose::identity(), fov }; 2]
}

fn state(passthrough: Option<PassthroughMode<u32>>, buffering: f32) -> StreamState<Host> {
    let config = ParsedStreamConfig::new(settings(passthrough, buffering), negotiated(true), 'i');
    StreamState::new(config, views(1.0))
}

#[test]
fn settings_and_negotiation_come_together() {
    let c: ParsedStreamConfig<Host> =
        ParsedStreamConfig::new(settings(None, 1.0), negotiated(true), 'i');
    assert_eq!(c.view_resolution, UVec2 { x: 10, y: 20 });
    assert_eq!(c.refresh_rate_hint, "90.0");
    assert_eq!(c.encoding_gamma, "2.2");
    assert!(c.use_full_range && c.enable_hdr && c.force_software_decoder);
    assert_eq!(c.foveated_encoding_config, Some("fovea"));
    assert_eq!(c.clientside_post_processing, Some(4));
    assert_eq!(c.upscaling, Some(5));
    assert!(c.dynamic_foveated_center.is_none());
    assert_eq!(c.decoder_options, ["o"]);
    assert_eq!(c.interaction_sources, 'i');
    let c: ParsedStreamConfig<Host> =
        ParsedStreamConfig::new(settings(None, 1.0), negotiated(false), 'i');
    assert_eq!(c.foveated_encoding_config, None);
}

#[test]
fn the_runtime_foveates_where_it_can() {
    let all = FoveationExtensions {
        swapchain_update_state: true,
        foveation: true,
        foveation_configuration: true,
    };
    let config = |mode: ClientsideFoveationMode| {
        Some(ClientsideFoveationConfig { mode, vertical_offset_deg: f(2.0) })
    };
    assert_eq!(
        foveation_profile(config(ClientsideFoveationMode::Static { level: 3 }), all),
        Some(FoveationProfile { level: 3, vertical_offset: f(2.0), dynamic: false })
    );
    let dynamic = config(ClientsideFoveationMode::Dynamic { max_level: 2 });
    assert_eq!(
        foveation_profile(dynamic, all),
        Some(FoveationProfile { level: 2, vertical_offset: f(2.0), dynamic: true })
    );
    assert_eq!(foveation_profile(None, all), None);
    for lacking in [
        FoveationExtensions { swapchain_update_state: false, ..all },
        FoveationExtensions { foveation: false, ..all },
        FoveationExtensions { foveation_configuration: false, ..all },
    ] {
        assert_eq!(foveation_profile(dynamic, lacking), None);
    }
}

#[test]
fn colours_depend_on_the_platform() {
    let flags = |a: bool, b: bool| RendererFlags { enable_srgb_correction: a, fix_limited_range: b };
    assert_eq!(renderer_flags(false, false, true, false), flags(true, true));
    assert_eq!(renderer_flags(true, false, true, false), flags(false, true));
    assert_eq!(renderer_flags(false, true, true, true), flags(false, false));
    assert_eq!(renderer_flags(false, true, false, false), flags(true, false));
    assert_eq!(renderer_flags(false, false, true, true), flags(true, false));
}

fn shift_data() -> DFRShiftData {
    DFRShiftData {
        shift_x: f(0.1),
        shift_y: f(0.2),
        left_shift_x: f(0.3),
        left_shift_y: f(0.4),
        right_shift_x: f(0.5),
        right_shift_y: f(0.6),
        sequence_id: 7,
        is_eye_tracked: true,
    }
}

fn times(ms: u64) -> FrameTimes {
    frame_times(Duration::from_millis(ms), Duration::from_millis(ms))
}

#[test]
fn a_late_frame_keeps_its_own_shift() {
    let ms = Duration::from_millis;
    let t = frame_times(ms(5000), ms(6001));
    assert_eq!(t, FrameTimes { lookup: ms(5000), shown: ms(5001) });
    let shown = state(None, 1.0).show_frame(t, views(2.0), Some(shift_data()));
    assert_eq!(shown.timestamp, ms(5001));
    assert_eq!(shown.shift.unwrap().sequence_id, Some(7));
    assert_eq!(frame_times(ms(5), ms(9)), FrameTimes { lookup: ms(5), shown: ms(5) });
}

#[test]
fn polling_ends_with_a_frame_or_at_the_deadline() {
    let at = |nanos: u128| Instant { nanos };
    assert!(keep_polling(false, at(9), at(10)));
    assert!(!keep_polling(false, at(10), at(10)));
    assert!(!keep_polling(true, at(9), at(10)));
}

#[test]
fn a_reused_frame_keeps_its_shift() {
    let mut s = state(None, 1.0);
    let first = s.reuse_frame(Duration::from_millis(1));
    assert!(first.reused);
    assert_eq!(first.view_params, views(1.0));
    assert_eq!(first.shift, None);
    let shown = s.show_frame(times(5), views(2.0), Some(shift_data()));
    assert!(!shown.reused);
    assert_eq!(shown.timestamp, Duration::from_millis(5));
    let center = shown.shift.unwrap();
    assert_eq!((center.center_shift_x, center.center_shift_y), (f(0.1), f(0.2)));
    assert_eq!((center.left_shift_x, center.left_shift_y), (f(0.3), f(0.4)));
    assert_eq!((center.right_shift_x, center.right_shift_y), (f(0.5), f(0.6)));
    assert_eq!(center.sequence_id, Some(7));
    for _ in 0..3 {
        let again = s.reuse_frame(Duration::from_millis(9));
        assert!(again.reused);
        assert_eq!(again.timestamp, Duration::from_millis(9));
        assert_eq!(again.view_params, views(2.0));
        assert_eq!(again.shift, Some(center));
    }
    // A frame without a shift takes the old shift with it.
    s.show_frame(times(10), views(3.0), None);
    assert_eq!(s.reuse_frame(Duration::from_millis(11)).shift, None);
}

#[test]
fn timestamps_are_brought_forward() {
    let ms = Duration::from_millis;
    assert_eq!(displayed_timestamp(ms(5000), ms(5500)), ms(5000));
    assert_eq!(displayed_timestamp(ms(5000), ms(6001)), ms(5001));
    assert_eq!(displayed_timestamp(ms(0), ms(500)), ms(0));
    assert_eq!(displayed_timestamp(ms(9), ms(5)), ms(9));
}

#[test]
fn the_submit_delay_is_told_of_new_frames() {
    let vsync = Duration::from_nanos(100);
    assert_eq!(submit_delay(false, vsync, Some(40)), Some(Duration::from_nanos(60)));
    assert_eq!(submit_delay(false, vsync, Some(140)), Some(Duration::zero()));
    assert_eq!(submit_delay(false, vsync, Some(-1)), Some(Duration::zero()));
    let late = Duration { nanos: u64::MAX as u128 };
    assert_eq!(submit_delay(false, late, Some(-3)), Some(Duration::from_nanos(2)));
    assert_eq!(submit_delay(false, late, Some(i64::MIN)), Some(Duration::from_nanos((1 << 63) - 1)));
    assert_eq!(submit_delay(true, vsync, Some(40)), None);
    assert_eq!(submit_delay(false, vsync, None), None);
}

#[test]
fn a_decoder_is_set_up_once() {
    let mut s = state(None, 1.0);
    assert!(s.maybe_initialize_decoder(CodecType::H264, vec![1, 2], true));
    assert!(!s.maybe_initialize_decoder(CodecType::H264, vec![1, 2], true));
    assert!(s.maybe_initialize_decoder(CodecType::Hevc, vec![1, 2], true));
    assert!(s.maybe_initialize_decoder(CodecType::Hevc, vec![1], true));
    assert!(!s.maybe_initialize_decoder(CodecType::Hevc, vec![1], true));
    assert!(s.maybe_initialize_decoder(CodecType::Hevc, vec![1], false));
    let mut odd = state(None, f32::NAN);
    assert!(odd.maybe_initialize_decoder(CodecType::AV1, vec![], true));
    assert!(odd.maybe_initialize_decoder(CodecType::AV1, vec![], true));
}

#[test]
fn the_server_changes_a_running_stream() {
    let mut s = state(None, 1.0);
    assert!(!s.uses_passthrough());
    assert_eq!(s.layer_alpha(), None);
    assert_eq!(s.layer_post_processing(true), Some(&4));
    assert_eq!(s.layer_post_processing(false), None);
    let update: RealTimeConfig<Host> =
        RealTimeConfig::from_settings(Some(PassthroughMode::RgbChromaKey(1)), None);
    assert!(update.dynamic_foveated_center.is_none());
    s.update_real_time_config(update);
    assert!(s.uses_passthrough());
    assert_eq!(s.layer_alpha(), Some(true));
    assert_eq!(s.layer_post_processing(true), None);
    assert_eq!(s.config().upscaling, Some(5));
}

#[test]
fn alpha_depends_on_the_passthrough_mode() {
    let alpha = |mode: PassthroughMode<u32>| state(Some(mode), 1.0).layer_alpha();
    assert_eq!(alpha(PassthroughMode::Blend { premultiplied_alpha: true, config: 0 }), Some(true));
    assert_eq!(alpha(PassthroughMode::Blend { premultiplied_alpha: false, config: 0 }), Some(false));
    assert_eq!(alpha(PassthroughMode::HsvChromaKey(0)), Some(true));
    assert_eq!(alpha(PassthroughMode::Other(0)), Some(false));
}

fn eye(left: u32, right: u32, combined: u32) -> EyeTrackingDataPICO<Float32> {
    let v = [f(0.0); 3];
    EyeTrackingDataPICO {
        time: 1,
        left_eye_pose_status: left,
        right_eye_pose_status: right,
        combined_eye_pose_status: combined,
        left_eye_gaze_point: v,
        right_eye_gaze_point: v,
        combined_eye_gaze_point: v,
        left_eye_gaze_vector: v,
        right_eye_gaze_vector: v,
        combined_eye_gaze_vector: v,
        left_eye_openness: f(0.0),
        right_eye_openness: f(0.0),
        left_eye_pupil_dilation: f(0.0),
        right_eye_pupil_dilation: f(0.0),
        left_eye_position_guide: v,
        right_eye_position_guide: v,
        foveated_gaze_direction: v,
        foveated_gaze_tracking_state: 0,
    }
}

const NO_SOURCES: EyeSources = EyeSources {
    eye_tracker_fb: false,
    face_tracker_pico: false,
    eye_tracker_htc: false,
    combined_eyes_source: false,
};

#[test]
fn eye_input_is_unsupported_standby_or_active() {
    let pico = EyeSources { face_tracker_pico: true, ..NO_SOURCES };
    let gaze = [None, Some(Pose::identity())];
    let none = [None, None];
    let state = |s: &EyeSources, g: &[Option<Pose>; 2], d: Option<EyeTrackingDataPICO<Float32>>| {
        classify_eye_tracking_state(s, g, &d)
    };
    assert_eq!(state(&NO_SOURCES, &gaze, Some(eye(2, 2, 2))), EyeTrackingInputStatus::Unsupported);
    assert_eq!(state(&pico, &none, None), EyeTrackingInputStatus::Standby);
    assert_eq!(state(&pico, &none, Some(eye(1, 4, 8))), EyeTrackingInputStatus::Standby);
    assert_eq!(state(&pico, &gaze, None), EyeTrackingInputStatus::Active);
    assert_eq!(state(&pico, &none, Some(eye(2, 0, 0))), EyeTrackingInputStatus::Active);
    assert_eq!(state(&pico, &none, Some(eye(0, 0x100, 0))), EyeTrackingInputStatus::Active);
    assert_eq!(state(&pico, &none, Some(eye(0, 0, 2))), EyeTrackingInputStatus::Active);
    for sources in [
        EyeSources { eye_tracker_fb: true, ..NO_SOURCES },
        EyeSources { eye_tracker_htc: true, ..NO_SOURCES },
        EyeSources { combined_eyes_source: true, ..NO_SOURCES },
    ] {
        assert_eq!(state(&sources, &none, None), EyeTrackingInputStatus::Standby);
    }
}

#[test]
fn the_first_face_tracker_goes_before_the_second() {
    let pico = EyeSources { face_tracker_pico: true, ..NO_SOURCES };
    let face = |fb: Option<Vec<Float32>>| {
        assemble_face_data(&pico, [None, None], fb, Some(vec![f(2.0)]), None, None, Some(eye(2, 0, 0)))
    };
    assert_eq!(face(Some(vec![f(1.0)])).fb_face_expression, Some(vec![f(1.0)]));
    assert_eq!(face(None).fb_face_expression, Some(vec![f(2.0)]));
    assert_eq!(face(None).eye_tracking_state, EyeTrackingInputStatus::Active);
}

fn motion(x: f32) -> DeviceMotion {
    let still = Vec3 { x: f(x), y: f(0.0), z: f(0.0) };
    DeviceMotion { pose: Pose::identity(), linear_velocity: still, angular_velocity: still }
}

const IDS: DeviceIds = DeviceIds {
    head: 1,
    hand_left: 2,
    hand_right: 3,
    body_chest: 4,
    body_hips: 5,
    body_left_elbow: 6,
    body_right_elbow: 7,
    body_left_knee: 8,
    body_left_foot: 9,
    body_right_knee: 10,
    body_right_foot: 11,
};

#[test]
fn a_hand_is_sent_by_controller_or_skeleton() {
    let body = vec![(4, motion(4.0)), (5, motion(5.0))];
    let sent = |left: bool, right: bool, multimodal: bool| -> Vec<u64> {
        collect_device_motions(
            &IDS,
            motion(1.0),
            Some(motion(2.0)),
            left,
            Some(motion(3.0)),
            right,
            multimodal,
            &body,
        )
        .iter()
        .map(|m| m.0)
        .collect()
    };
    assert_eq!(sent(false, false, false), [1, 2, 3, 4, 5]);
    assert_eq!(sent(true, false, false), [1, 3, 4, 5]);
    assert_eq!(sent(false, true, false), [1, 2, 4, 5]);
    assert_eq!(sent(true, true, true), [1, 2, 3, 4, 5]);
    let none =
        collect_device_motions(&IDS, motion(1.0), None, false, None, false, true, &Vec::new());
    assert_eq!(none, [(1, motion(1.0))]);
}

#[test]
fn polling_stops_skips_or_sends() {
    assert_eq!(input_step(true, true, true), InputStep::Send);
    assert_eq!(input_step(true, true, false), InputStep::Skip);
    assert_eq!(input_step(true, false, true), InputStep::Stop);
    assert_eq!(input_step(false, true, true), InputStep::Stop);
}

#[test]
fn readings_of_the_network_are_spaced() {
    let at = |ms: u128| Instant { nanos: ms * 1_000_000 };
    let reading = WiFiReading {
        timestamp_ns: 5,
        rssi_dbm: -40,
        frequency_mhz: 5180,
        link_speed_mbps: 866,
    };
    let mut cache = WiFiCache::new();
    assert!(cache.is_stale(at(0)));
    assert!(cache.metrics().is_none());
    cache.refresh(None, at(0));
    assert!(cache.metrics().is_none());
    cache.refresh(Some(reading), at(1000));
    assert!(!cache.is_stale(at(1000)));
    assert!(!cache.is_stale(at(1100)));
    assert!(cache.is_stale(at(1101)));
    assert!(!cache.is_stale(at(10)));
    cache.refresh(None, at(1101));
    assert!(cache.is_stale(at(1101)));
    let m = cache.metrics().unwrap();
    assert_eq!((m.timestamp_ns, m.rssi_dbm), (5, -40));
    assert_eq!((m.frequency_mhz, m.link_speed_mbps), (5180, 866));
    assert_eq!(m.wifi_standard, "UNKNOWN");
    assert_eq!(m.channel_width, 0);
    assert!(m.mcs_index.is_none() && m.snr_db.is_none() && m.guard_interval.is_none());
}

#[test]
fn input_is_polled_three_times_a_frame() {
    let interval = Duration { nanos: 11_111_111 };
    let mut deadline = Instant { nanos: 100 };
    for _ in 0..3 {
        deadline = advance_deadline(deadline, interval);
    }
    assert_eq!(deadline.nanos, 100 + 3 * 3_703_703);
    assert_eq!(tracking_timestamp(Duration { nanos: (1 << 64) + 9 }), Duration::from_nanos(9));
}
