use alvr_dfr::float::Float32;
use alvr_dfr::packets::{ClientStatistics, DeviceMotion, EyeTrackingDataPICO, Pose, Quat, Vec3};
use alvr_dfr::statistics::{FrameReport, ServerLatencies};
use alvr_dfr::telemetry::{
    event_log_columns, event_log_row, state_log_columns, state_log_row, EventNumbers, FrameRates,
    StateLogCsvRecord, StateLogPayload, StateNumbers, TelemetryCsvRecord, TelemetryPayload,
};
use alvr_dfr::time::Duration;
use alvr_dfr::tracking::{convert_pose_status, EyeTrackingDataLog};
use alvr_dfr::tracking_log::{
    eye_csv_header, eye_csv_row, eye_json_line, gaze_csv_header, gaze_csv_row, gaze_json_line,
    log_time, rotate_file, LogTime, PoseTexts, PoseValues,
};
use serde_json::Value;

fn f(x: f32) -> Float32 {
    Float32 { bits: x.to_bits() }
}

const TIME: LogTime = LogTime { timestamp_ms: 12, unix_timestamp: 34 };

#[test]
fn times_are_written_in_milliseconds() {
    let t = log_time(Duration { nanos: 1_999_999 }, Duration { nanos: 5_000_000 });
    assert_eq!(t, LogTime { timestamp_ms: 1, unix_timestamp: 5 });
    assert_eq!(Duration::from_secs(119).minutes_u64(), 1);
}

#[test]
fn files_rotate_with_the_minute() {
    let mut last = None;
    assert!(rotate_file(&mut last, 7));
    assert!(!rotate_file(&mut last, 7));
    assert!(rotate_file(&mut last, 8));
    assert!(rotate_file(&mut last, 7));
    assert_eq!(last, Some(7));
}

fn s(x: &str) -> String {
    x.to_string()
}

fn pose_texts() -> PoseTexts {
    PoseTexts {
        position: [s("1"), s("-2.5"), s("3")],
        orientation: [s("0"), s("0.5"), s("0"), s("1")],
    }
}

#[test]
fn gaze_rows_have_a_column_for_each_name() {
    assert_eq!(
        gaze_csv_header(),
        "timestamp_ms,unix_timestamp,device_motion_key,left_eye_pos_x,left_eye_pos_y,left_eye_pos_z,left_eye_ori_x,left_eye_ori_y,left_eye_ori_z,left_eye_ori_w,right_eye_pos_x,right_eye_pos_y,right_eye_pos_z,right_eye_ori_x,right_eye_ori_y,right_eye_ori_z,right_eye_ori_w"
    );
    assert_eq!(gaze_csv_header().split(',').count(), 17);
    assert!(gaze_csv_row(TIME, &None, &None).is_none());
    let row = gaze_csv_row(TIME, &Some(pose_texts()), &None).unwrap();
    assert_eq!(
        row,
        "12,34,eye_tracking,1,-2.5,3,0,0.5,0,1,null,null,null,null,null,null,null"
    );
    let row = gaze_csv_row(TIME, &None, &Some(pose_texts())).unwrap();
    assert_eq!(
        row,
        "12,34,eye_tracking,null,null,null,null,null,null,null,1,-2.5,3,0,0.5,0,1"
    );
}

fn pose_values() -> PoseValues {
    let v = |x: f32| Value::from(x);
    PoseValues {
        position: [v(1.0), v(-2.5), v(3.0)],
        orientation: [v(0.0), v(0.5), v(0.0), v(1.0)],
    }
}

#[test]
fn gaze_lines_are_json() {
    assert!(gaze_json_line(TIME, &None, &None).is_none());
    let line = gaze_json_line(TIME, &Some(pose_values()), &None).unwrap();
    assert_eq!(
        line,
        r#"{"data":{"left_eye":{"orientation":[0.0,0.5,0.0,1.0],"position":[1.0,-2.5,3.0]},"right_eye":null},"device_motion_key":"eye_tracking","timestamp_ms":12,"unix_timestamp":34}"#
    );
}

fn eye_log<F>(make: impl Fn(f32) -> F) -> EyeTrackingDataLog<F> {
    let v = |x: f32| [make(x), make(x + 0.25), make(x + 0.5)];
    EyeTrackingDataLog {
        timestamp_ns: 99,
        left_eye_pose_status: convert_pose_status(1),
        right_eye_pose_status: convert_pose_status(2),
        combined_eye_pose_status: convert_pose_status(12),
        left_eye_gaze_point: v(1.0),
        right_eye_gaze_point: v(2.0),
        combined_eye_gaze_point: v(3.0),
        left_eye_gaze_vector: v(4.0),
        right_eye_gaze_vector: v(5.0),
        combined_eye_gaze_vector: v(6.0),
        left_eye_openness: make(7.0),
        right_eye_openness: make(8.0),
        left_eye_pupil_dilation: make(9.0),
        right_eye_pupil_dilation: make(10.0),
        left_eye_position_guide: v(11.0),
        right_eye_position_guide: v(12.0),
        foveated_gaze_direction: v(13.0),
        foveated_gaze_tracking_state: -1,
    }
}

#[test]
fn eye_rows_have_a_column_for_each_name() {
    assert_eq!(
        eye_csv_header(),
        "timestamp_ms,unix_timestamp,device_motion_key,timestamp_ns,left_status_flags,left_gaze_point_valid,left_gaze_vector_valid,left_eye_openness_valid,left_pupil_dilation_valid,right_status_flags,right_gaze_point_valid,right_gaze_vector_valid,right_eye_openness_valid,right_pupil_dilation_valid,combined_status_flags,combined_gaze_point_valid,combined_gaze_vector_valid,combined_eye_openness_valid,combined_pupil_dilation_valid,left_gaze_point_x,left_gaze_point_y,left_gaze_point_z,right_gaze_point_x,right_gaze_point_y,right_gaze_point_z,combined_gaze_point_x,combined_gaze_point_y,combined_gaze_point_z,left_gaze_vector_x,left_gaze_vector_y,left_gaze_vector_z,right_gaze_vector_x,right_gaze_vector_y,right_gaze_vector_z,combined_gaze_vector_x,combined_gaze_vector_y,combined_gaze_vector_z,left_eye_openness,right_eye_openness,left_pupil_dilation,right_pupil_dilation,left_position_guide_x,left_position_guide_y,left_position_guide_z,right_position_guide_x,right_position_guide_y,right_position_guide_z,foveated_gaze_direction_x,foveated_gaze_direction_y,foveated_gaze_direction_z,foveated_gaze_tracking_state"
    );
    assert_eq!(eye_csv_header().split(',').count(), 51);
    let row = eye_csv_row(TIME, &eye_log(|x| x.to_string()));
    assert_eq!(
        row,
        "12,34,pico_eye_tracking_raw,99,1,true,false,false,false,2,false,true,false,false,12,false,false,true,true,\
1,1.25,1.5,2,2.25,2.5,3,3.25,3.5,4,4.25,4.5,5,5.25,5.5,6,6.25,6.5,7,8,9,10,\
11,11.25,11.5,12,12.25,12.5,13,13.25,13.5,-1"
    );
    assert_eq!(row.split(',').count(), 51);
}

#[test]
fn eye_lines_are_json() {
    let line = eye_json_line(TIME, &eye_log(|x| Value::from(x)));
    assert!(line.starts_with(
        r#"{"data":{"combined_eye_gaze_point":[3.0,3.25,3.5],"combined_eye_gaze_vector":[6.0,6.25,6.5],"combined_eye_pose_status":{"eye_openness_valid":true,"gaze_point_valid":false,"gaze_vector_valid":false,"pupil_dilation_valid":true,"status_flags":12},"foveated_gaze_direction":"#
    ));
    assert!(line.ends_with(
        r#","timestamp_ns":99},"device_motion_key":"pico_eye_tracking_raw","timestamp_ms":12,"unix_timestamp":34}"#
    ));
    let v: Value = serde_json::from_str(&line).unwrap();
    assert_eq!(v["timestamp_ms"], 12);
    assert_eq!(v["unix_timestamp"], 34);
    assert_eq!(v["device_motion_key"], "pico_eye_tracking_raw");
    let d = &v["data"];
    assert_eq!(d.as_object().unwrap().len(), 18);
    assert_eq!(d["timestamp_ns"], 99);
    assert_eq!(d["left_eye_pose_status"].as_object().unwrap().len(), 5);
    assert_eq!(d["left_eye_pose_status"]["status_flags"], 1);
    assert_eq!(d["left_eye_pose_status"]["gaze_point_valid"], true);
    assert_eq!(d["right_eye_pose_status"]["gaze_vector_valid"], true);
    assert_eq!(d["combined_eye_pose_status"]["eye_openness_valid"], true);
    assert_eq!(d["combined_eye_pose_status"]["pupil_dilation_valid"], true);
    for (key, x) in [
        ("left_eye_gaze_point", 1.0f32),
        ("right_eye_gaze_point", 2.0),
        ("combined_eye_gaze_point", 3.0),
        ("left_eye_gaze_vector", 4.0),
        ("right_eye_gaze_vector", 5.0),
        ("combined_eye_gaze_vector", 6.0),
        ("left_eye_position_guide", 11.0),
        ("right_eye_position_guide", 12.0),
        ("foveated_gaze_direction", 13.0),
    ] {
        assert_eq!(d[key], Value::from(vec![x, x + 0.25, x + 0.5]));
    }
    assert_eq!(d["left_eye_openness"], 7.0);
    assert_eq!(d["right_eye_openness"], 8.0);
    assert_eq!(d["left_eye_pupil_dilation"], 9.0);
    assert_eq!(d["right_eye_pupil_dilation"], 10.0);
    assert_eq!(d["foveated_gaze_tracking_state"], -1);
}

fn client() -> ClientStatistics {
    let d = Duration::from_millis;
    ClientStatistics {
        target_timestamp: Duration { nanos: (1 << 64) + 5 },
        frame_interval: d(11),
        video_decode: d(1),
        video_decoder_queue: d(2),
        rendering: d(3),
        vsync_queue: d(4),
        total_pipeline_latency: d(50),
    }
}

fn frame_report() -> FrameReport {
    let d = Duration::from_millis;
    FrameReport {
        latencies: ServerLatencies {
            game_time: d(5),
            server_compositor: d(6),
            encoder: d(7),
            network: d(8),
        },
        client_frame_interval: d(11),
        server_frame_interval: d(11),
        transfer_interval: d(8),
        stats_window: d(100),
        packets_lost: 0,
        video_packet_bytes: 1234,
        is_idr: true,
        log_dataset: true,
        upload: false,
        summary: None,
    }
}

const RATES: FrameRates = FrameRates {
    throughput_bps: Float32 { bits: 1 },
    packets_lost_per_sec: Float32 { bits: 2 },
    client_fps: Float32 { bits: 3 },
    server_fps: Float32 { bits: 4 },
};

fn eye_sample() -> EyeTrackingDataPICO<Float32> {
    let v = |x: f32| [f(x), f(x + 0.25), f(x + 0.5)];
    EyeTrackingDataPICO {
        time: 1,
        left_eye_pose_status: 0x102,
        right_eye_pose_status: 0x804,
        combined_eye_pose_status: 0,
        left_eye_gaze_point: v(1.0),
        right_eye_gaze_point: v(2.0),
        combined_eye_gaze_point: v(3.0),
        left_eye_gaze_vector: v(4.0),
        right_eye_gaze_vector: v(5.0),
        combined_eye_gaze_vector: v(6.0),
        left_eye_openness: f(7.0),
        right_eye_openness: f(8.0),
        left_eye_pupil_dilation: f(9.0),
        right_eye_pupil_dilation: f(10.0),
        left_eye_position_guide: v(11.0),
        right_eye_position_guide: v(12.0),
        foveated_gaze_direction: v(13.0),
        foveated_gaze_tracking_state: 0,
    }
}

#[test]
fn a_payload_is_flattened() {
    let still = Vec3 { x: f(0.0), y: f(0.0), z: f(0.0) };
    let head = DeviceMotion {
        pose: Pose {
            orientation: Quat { x: f(0.1), y: f(0.2), z: f(0.3), w: f(0.4) },
            position: Vec3 { x: f(1.0), y: f(2.0), z: f(3.0) },
        },
        linear_velocity: still,
        angular_velocity: still,
    };
    let payload =
        TelemetryPayload::new(&client(), &frame_report(), RATES, 77, Some(head), Some(eye_sample()));
    let r = TelemetryCsvRecord::from(payload);
    let d = Duration::from_millis;
    assert_eq!(r.frame_timestamp_ns, 5);
    assert_eq!(r.system_unix_time_ms, 77);
    assert_eq!((r.head_position_x, r.head_position_y, r.head_position_z), (f(1.0), f(2.0), f(3.0)));
    assert_eq!(r.head_orientation_x, f(0.1));
    assert_eq!(r.head_orientation_w, f(0.4));
    assert!(r.left_gaze_vector_valid && !r.right_gaze_vector_valid);
    assert!(!r.left_eye_openness_valid && r.right_eye_openness_valid);
    assert!(!r.left_pupil_dilation_valid && r.right_pupil_dilation_valid);
    assert_eq!(r.left_gaze_vector_z, Some(f(4.5)));
    // Values are kept though a flag is down.
    assert_eq!(r.right_gaze_vector_x, Some(f(5.0)));
    assert_eq!(r.left_eye_openness, Some(f(7.0)));
    assert_eq!(r.right_pupil_dilation, Some(f(10.0)));
    assert_eq!((r.game_time, r.server_compositor, r.encode_latency), (d(5), d(6), d(7)));
    assert_eq!((r.network_latency, r.decode_latency, r.decoder_queue), (d(8), d(1), d(2)));
    assert_eq!((r.client_compositor, r.vsync_queue), (d(3), d(4)));
    assert_eq!(r.total_pipeline_latency, d(50));
    assert_eq!(r.rates, RATES);
    assert!(r.is_idr);
    assert_eq!(r.video_packet_bytes, 1234);
}

#[test]
fn a_payload_without_head_and_eyes_has_defaults() {
    let payload = TelemetryPayload::new(&client(), &frame_report(), RATES, 77, None, None);
    let r = TelemetryCsvRecord::from(payload);
    assert_eq!(r.head_position_y, f(0.0));
    assert_eq!(r.head_orientation_z, f(0.0));
    assert_eq!(r.head_orientation_w, f(1.0));
    assert!(!r.left_gaze_vector_valid);
    assert_eq!(r.left_gaze_vector_x, None);
    assert_eq!(r.right_eye_openness, None);
}

fn tick() -> StateLogPayload {
    let v = |x: f32| [f(x), f(x + 0.25), f(x + 0.5)];
    let q = |x: f32| [f(x), f(x + 0.25), f(x + 0.5), f(x + 0.75)];
    StateLogPayload {
        system_unix_time_ms: 1,
        monotonic_time_ns: 2,
        head_position: v(3.0),
        head_orientation: q(4.0),
        head_age_ms: f(5.0),
        head_valid: true,
        left_gaze_vector: v(6.0),
        right_gaze_vector: v(7.0),
        left_eye_openness: f(8.0),
        right_eye_openness: f(9.0),
        left_pupil_dilation: f(10.0),
        right_pupil_dilation: f(11.0),
        left_gaze_vector_valid: true,
        right_gaze_vector_valid: false,
        left_eye_openness_valid: true,
        right_eye_openness_valid: false,
        left_pupil_dilation_valid: true,
        right_pupil_dilation_valid: false,
        eye_age_ms: f(12.0),
        eye_source_time: 13,
        server_fps: f(14.0),
        server_fps_age_ms: f(15.0),
        rendered_head_position: v(16.0),
        rendered_head_orientation: q(17.0),
        rendered_head_valid: true,
        pose_delta_position: f(18.0),
        pose_delta_orientation_deg: f(19.0),
    }
}

#[test]
fn a_tick_is_flattened() {
    let r = StateLogCsvRecord::from(tick());
    assert_eq!(r.monotonic_time_ns, 2);
    assert_eq!(r.head_position_z, f(3.5));
    assert_eq!(r.head_orientation_w, f(4.75));
    assert_eq!(r.left_gaze_vector_y, f(6.25));
    assert_eq!(r.right_gaze_vector_x, f(7.0));
    assert_eq!(r.rendered_head_position_x, f(16.0));
    assert_eq!(r.rendered_head_orientation_z, f(17.5));
    assert!(r.left_pupil_dilation_valid && !r.right_pupil_dilation_valid);
    assert_eq!(r.pose_delta_orientation_deg, f(19.0));
}

#[test]
fn log_headers_name_every_column() {
    let event = event_log_columns();
    assert_eq!(event.len(), 40);
    assert_eq!(
        event.join(","),
        "frame_timestamp_ns,system_unix_time_ms,head_position_x,head_position_y,head_position_z,head_orientation_x,head_orientation_y,head_orientation_z,head_orientation_w,left_gaze_vector_valid,right_gaze_vector_valid,left_eye_openness_valid,right_eye_openness_valid,left_pupil_dilation_valid,right_pupil_dilation_valid,left_gaze_vector_x,left_gaze_vector_y,left_gaze_vector_z,right_gaze_vector_x,right_gaze_vector_y,right_gaze_vector_z,left_eye_openness,right_eye_openness,left_pupil_dilation,right_pupil_dilation,game_time_ms,server_compositor_ms,encode_latency_ms,network_latency_ms,decode_latency_ms,decoder_queue_ms,client_compositor_ms,vsync_queue_ms,total_pipeline_latency_ms,throughput_mbps,packets_lost_per_sec,client_fps,server_fps,is_idr,video_packet_bytes"
    );
    let state = state_log_columns();
    assert_eq!(state.len(), 41);
    assert_eq!(
        state.join(","),
        "system_unix_time_ms,monotonic_time_ns,head_position_x,head_position_y,head_position_z,head_orientation_x,head_orientation_y,head_orientation_z,head_orientation_w,head_age_ms,head_valid,left_gaze_vector_x,left_gaze_vector_y,left_gaze_vector_z,right_gaze_vector_x,right_gaze_vector_y,right_gaze_vector_z,left_eye_openness,right_eye_openness,left_pupil_dilation,right_pupil_dilation,left_gaze_vector_valid,right_gaze_vector_valid,left_eye_openness_valid,right_eye_openness_valid,left_pupil_dilation_valid,right_pupil_dilation_valid,eye_age_ms,eye_source_time,server_fps,server_fps_age_ms,rendered_head_position_x,rendered_head_position_y,rendered_head_position_z,rendered_head_orientation_x,rendered_head_orientation_y,rendered_head_orientation_z,rendered_head_orientation_w,rendered_head_valid,pose_delta_position,pose_delta_orientation_deg"
    );
}

#[test]
fn an_event_row_fills_the_columns_in_order() {
    let n = |name: &str| format!("<{name}>");
    let numbers = EventNumbers {
        head_position_x: n("head_position_x"),
        head_position_y: n("head_position_y"),
        head_position_z: n("head_position_z"),
        head_orientation_x: n("head_orientation_x"),
        head_orientation_y: n("head_orientation_y"),
        head_orientation_z: n("head_orientation_z"),
        head_orientation_w: n("head_orientation_w"),
        left_gaze_vector_x: n("left_gaze_vector_x"),
        left_gaze_vector_y: n("left_gaze_vector_y"),
        left_gaze_vector_z: n("left_gaze_vector_z"),
        right_gaze_vector_x: n("right_gaze_vector_x"),
        right_gaze_vector_y: n("right_gaze_vector_y"),
        right_gaze_vector_z: n("right_gaze_vector_z"),
        left_eye_openness: n("left_eye_openness"),
        right_eye_openness: n("right_eye_openness"),
        left_pupil_dilation: n("left_pupil_dilation"),
        right_pupil_dilation: n("right_pupil_dilation"),
        game_time_ms: n("game_time_ms"),
        server_compositor_ms: n("server_compositor_ms"),
        encode_latency_ms: n("encode_latency_ms"),
        network_latency_ms: n("network_latency_ms"),
        decode_latency_ms: n("decode_latency_ms"),
        decoder_queue_ms: n("decoder_queue_ms"),
        client_compositor_ms: n("client_compositor_ms"),
        vsync_queue_ms: n("vsync_queue_ms"),
        total_pipeline_latency_ms: n("total_pipeline_latency_ms"),
        throughput_mbps: n("throughput_mbps"),
        packets_lost_per_sec: n("packets_lost_per_sec"),
        client_fps: n("client_fps"),
        server_fps: n("server_fps"),
    };
    let columns = event_log_columns();
    for eye in [Some(eye_sample()), None] {
        let has_eye = eye.is_some();
        let payload = TelemetryPayload::new(&client(), &frame_report(), RATES, 77, None, eye);
        let record = TelemetryCsvRecord::from(payload);
        let row = event_log_row(&record, &numbers);
        assert_eq!(row.len(), columns.len());
        for (name, text) in columns.iter().zip(&row) {
            let expected = match name.as_str() {
                "frame_timestamp_ns" => "5".to_string(),
                "system_unix_time_ms" => "77".to_string(),
                "video_packet_bytes" => "1234".to_string(),
                "is_idr" => "true".to_string(),
                "left_gaze_vector_valid" | "right_eye_openness_valid" | "right_pupil_dilation_valid" => {
                    has_eye.to_string()
                }
                valid if valid.ends_with("_valid") => "false".to_string(),
                eye if !has_eye && (eye.starts_with("left_") || eye.starts_with("right_")) => String::new(),
                number => n(number),
            };
            assert_eq!(text, &expected, "{name}");
        }
    }
}

#[test]
fn a_state_row_fills_the_columns_in_order() {
    let n = |name: &str| format!("<{name}>");
    let numbers = StateNumbers {
        head_position_x: n("head_position_x"),
        head_position_y: n("head_position_y"),
        head_position_z: n("head_position_z"),
        head_orientation_x: n("head_orientation_x"),
        head_orientation_y: n("head_orientation_y"),
        head_orientation_z: n("head_orientation_z"),
        head_orientation_w: n("head_orientation_w"),
        head_age_ms: n("head_age_ms"),
        left_gaze_vector_x: n("left_gaze_vector_x"),
        left_gaze_vector_y: n("left_gaze_vector_y"),
        left_gaze_vector_z: n("left_gaze_vector_z"),
        right_gaze_vector_x: n("right_gaze_vector_x"),
        right_gaze_vector_y: n("right_gaze_vector_y"),
        right_gaze_vector_z: n("right_gaze_vector_z"),
        left_eye_openness: n("left_eye_openness"),
        right_eye_openness: n("right_eye_openness"),
        left_pupil_dilation: n("left_pupil_dilation"),
        right_pupil_dilation: n("right_pupil_dilation"),
        eye_age_ms: n("eye_age_ms"),
        server_fps: n("server_fps"),
        server_fps_age_ms: n("server_fps_age_ms"),
        rendered_head_position_x: n("rendered_head_position_x"),
        rendered_head_position_y: n("rendered_head_position_y"),
        rendered_head_position_z: n("rendered_head_position_z"),
        rendered_head_orientation_x: n("rendered_head_orientation_x"),
        rendered_head_orientation_y: n("rendered_head_orientation_y"),
        rendered_head_orientation_z: n("rendered_head_orientation_z"),
        rendered_head_orientation_w: n("rendered_head_orientation_w"),
        pose_delta_position: n("pose_delta_position"),
        pose_delta_orientation_deg: n("pose_delta_orientation_deg"),
    };
    let row = state_log_row(&StateLogCsvRecord::from(tick()), &numbers);
    let columns = state_log_columns();
    assert_eq!(row.len(), columns.len());
    for (name, text) in columns.iter().zip(&row) {
        let expected = match name.as_str() {
            "system_unix_time_ms" => "1".to_string(),
            "monotonic_time_ns" => "2".to_string(),
            "eye_source_time" => "13".to_string(),
            right if right.starts_with("right_") && right.ends_with("_valid") => "false".to_string(),
            valid if valid.ends_with("_valid") => "true".to_string(),
            number => n(number),
        };
        assert_eq!(text, &expected, "{name}");
    }
}
