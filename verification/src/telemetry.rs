//! The measurements of a frame and of a tick, as they are queued and as they are written.

use crate::eye_pose_status_pico::{
    eye_openness_set, gaze_vector_set, is_eye_openness_valid, is_gaze_vector_valid,
    is_pupil_dilation_valid, law_valid_parts, pupil_dilation_set,
};
use crate::float::Float32;
use crate::packets::{ClientStatistics, DeviceMotion, EyeTrackingDataPICO, Pose};
use crate::path::{law_joined_pieces_split, split};
use crate::statistics::FrameReport;
use crate::text::{
    bool_string, bool_text, decimal, decimal_string, join, owned_strings, texts,
};
use crate::time::Duration;
use vstd::prelude::*;

verus! {

/// The names of the event log's columns.
pub open spec fn event_column_names() -> Seq<Seq<char>> {
    seq![
        "frame_timestamp_ns"@,
        "system_unix_time_ms"@,
        "head_position_x"@,
        "head_position_y"@,
        "head_position_z"@,
        "head_orientation_x"@,
        "head_orientation_y"@,
        "head_orientation_z"@,
        "head_orientation_w"@,
        "left_gaze_vector_valid"@,
        "right_gaze_vector_valid"@,
        "left_eye_openness_valid"@,
        "right_eye_openness_valid"@,
        "left_pupil_dilation_valid"@,
        "right_pupil_dilation_valid"@,
        "left_gaze_vector_x"@,
        "left_gaze_vector_y"@,
        "left_gaze_vector_z"@,
        "right_gaze_vector_x"@,
        "right_gaze_vector_y"@,
        "right_gaze_vector_z"@,
        "left_eye_openness"@,
        "right_eye_openness"@,
        "left_pupil_dilation"@,
        "right_pupil_dilation"@,
        "game_time_ms"@,
        "server_compositor_ms"@,
        "encode_latency_ms"@,
        "network_latency_ms"@,
        "decode_latency_ms"@,
        "decoder_queue_ms"@,
        "client_compositor_ms"@,
        "vsync_queue_ms"@,
        "total_pipeline_latency_ms"@,
        "throughput_mbps"@,
        "packets_lost_per_sec"@,
        "client_fps"@,
        "server_fps"@,
        "is_idr"@,
        "video_packet_bytes"@,
    ]
}

/// The columns of the event log.
pub fn event_log_columns() -> (r: Vec<String>)
    ensures
        texts(r@) == event_column_names(),
{
    let names = owned_strings(
        &[
            "frame_timestamp_ns",
            "system_unix_time_ms",
            "head_position_x",
            "head_position_y",
            "head_position_z",
            "head_orientation_x",
            "head_orientation_y",
            "head_orientation_z",
            "head_orientation_w",
            "left_gaze_vector_valid",
            "right_gaze_vector_valid",
            "left_eye_openness_valid",
            "right_eye_openness_valid",
            "left_pupil_dilation_valid",
            "right_pupil_dilation_valid",
            "left_gaze_vector_x",
            "left_gaze_vector_y",
            "left_gaze_vector_z",
            "right_gaze_vector_x",
            "right_gaze_vector_y",
            "right_gaze_vector_z",
            "left_eye_openness",
            "right_eye_openness",
            "left_pupil_dilation",
            "right_pupil_dilation",
            "game_time_ms",
            "server_compositor_ms",
            "encode_latency_ms",
            "network_latency_ms",
            "decode_latency_ms",
            "decoder_queue_ms",
            "client_compositor_ms",
            "vsync_queue_ms",
            "total_pipeline_latency_ms",
            "throughput_mbps",
            "packets_lost_per_sec",
            "client_fps",
            "server_fps",
            "is_idr",
            "video_packet_bytes",
        ],
    );
    assert(texts(names@) =~= event_column_names());
    names
}

/// The names of the state log's columns.
pub open spec fn state_column_names() -> Seq<Seq<char>> {
    seq![
        "system_unix_time_ms"@,
        "monotonic_time_ns"@,
        "head_position_x"@,
        "head_position_y"@,
        "head_position_z"@,
        "head_orientation_x"@,
        "head_orientation_y"@,
        "head_orientation_z"@,
        "head_orientation_w"@,
        "head_age_ms"@,
        "head_valid"@,
        "left_gaze_vector_x"@,
        "left_gaze_vector_y"@,
        "left_gaze_vector_z"@,
        "right_gaze_vector_x"@,
        "right_gaze_vector_y"@,
        "right_gaze_vector_z"@,
        "left_eye_openness"@,
        "right_eye_openness"@,
        "left_pupil_dilation"@,
        "right_pupil_dilation"@,
        "left_gaze_vector_valid"@,
        "right_gaze_vector_valid"@,
        "left_eye_openness_valid"@,
        "right_eye_openness_valid"@,
        "left_pupil_dilation_valid"@,
        "right_pupil_dilation_valid"@,
        "eye_age_ms"@,
        "eye_source_time"@,
        "server_fps"@,
        "server_fps_age_ms"@,
        "rendered_head_position_x"@,
        "rendered_head_position_y"@,
        "rendered_head_position_z"@,
        "rendered_head_orientation_x"@,
        "rendered_head_orientation_y"@,
        "rendered_head_orientation_z"@,
        "rendered_head_orientation_w"@,
        "rendered_head_valid"@,
        "pose_delta_position"@,
        "pose_delta_orientation_deg"@,
    ]
}

/// The columns of the state log.
pub fn state_log_columns() -> (r: Vec<String>)
    ensures
        texts(r@) == state_column_names(),
{
    let names = owned_strings(
        &[
            "system_unix_time_ms",
            "monotonic_time_ns",
            "head_position_x",
            "head_position_y",
            "head_position_z",
            "head_orientation_x",
            "head_orientation_y",
            "head_orientation_z",
            "head_orientation_w",
            "head_age_ms",
            "head_valid",
            "left_gaze_vector_x",
            "left_gaze_vector_y",
            "left_gaze_vector_z",
            "right_gaze_vector_x",
            "right_gaze_vector_y",
            "right_gaze_vector_z",
            "left_eye_openness",
            "right_eye_openness",
            "left_pupil_dilation",
            "right_pupil_dilation",
            "left_gaze_vector_valid",
            "right_gaze_vector_valid",
            "left_eye_openness_valid",
            "right_eye_openness_valid",
            "left_pupil_dilation_valid",
            "right_pupil_dilation_valid",
            "eye_age_ms",
            "eye_source_time",
            "server_fps",
            "server_fps_age_ms",
            "rendered_head_position_x",
            "rendered_head_position_y",
            "rendered_head_position_z",
            "rendered_head_orientation_x",
            "rendered_head_orientation_y",
            "rendered_head_orientation_z",
            "rendered_head_orientation_w",
            "rendered_head_valid",
            "pose_delta_position",
            "pose_delta_orientation_deg",
        ],
    );
    assert(texts(names@) =~= state_column_names());
    names
}

/// The rates of a frame.
#[derive(Clone, Copy, PartialEq, Eq, Structural, Debug)]
pub struct FrameRates {
    pub throughput_bps: Float32,
    pub packets_lost_per_sec: Float32,
    pub client_fps: Float32,
    pub server_fps: Float32,
}

/// The measurements of a frame, as they are queued.
#[derive(Clone, Debug)]
pub struct TelemetryPayload {
    pub frame_timestamp_ns: u64,
    pub system_unix_time_ms: u64,
    pub head_motion: Option<DeviceMotion>,
    pub pico_eye_tracking_data: Option<EyeTrackingDataPICO<Float32>>,
    pub game_time_latency: Duration,
    pub server_compositor_latency: Duration,
    pub encoder_latency: Duration,
    pub network_latency: Duration,
    pub decoder_latency: Duration,
    pub decoder_queue_latency: Duration,
    pub client_compositor_latency: Duration,
    pub vsync_queue_latency: Duration,
    pub total_pipeline_latency: Duration,
    pub rates: FrameRates,
    pub is_idr: bool,
    pub video_packet_bytes: usize,
}

/// The measurements of a frame, one value per column. Latencies are written in milliseconds, the
/// throughput in megabits per second.
#[derive(Clone, Copy, PartialEq, Eq, Structural, Debug)]
pub struct TelemetryCsvRecord {
    pub frame_timestamp_ns: u64,
    pub system_unix_time_ms: u64,
    pub head_position_x: Float32,
    pub head_position_y: Float32,
    pub head_position_z: Float32,
    pub head_orientation_x: Float32,
    pub head_orientation_y: Float32,
    pub head_orientation_z: Float32,
    pub head_orientation_w: Float32,
    pub left_gaze_vector_valid: bool,
    pub right_gaze_vector_valid: bool,
    pub left_eye_openness_valid: bool,
    pub right_eye_openness_valid: bool,
    pub left_pupil_dilation_valid: bool,
    pub right_pupil_dilation_valid: bool,
    pub left_gaze_vector_x: Option<Float32>,
    pub left_gaze_vector_y: Option<Float32>,
    pub left_gaze_vector_z: Option<Float32>,
    pub right_gaze_vector_x: Option<Float32>,
    pub right_gaze_vector_y: Option<Float32>,
    pub right_gaze_vector_z: Option<Float32>,
    pub left_eye_openness: Option<Float32>,
    pub right_eye_openness: Option<Float32>,
    pub left_pupil_dilation: Option<Float32>,
    pub right_pupil_dilation: Option<Float32>,
    pub game_time: Duration,
    pub server_compositor: Duration,
    pub encode_latency: Duration,
    pub network_latency: Duration,
    pub decode_latency: Duration,
    pub decoder_queue: Duration,
    pub client_compositor: Duration,
    pub vsync_queue: Duration,
    pub total_pipeline_latency: Duration,
    pub rates: FrameRates,
    pub is_idr: bool,
    pub video_packet_bytes: usize,
}

/// What is known at a tick of the state log: each value is the last one that came in, with its age.
#[derive(Clone, Debug)]
pub struct StateLogPayload {
    pub system_unix_time_ms: u64,
    pub monotonic_time_ns: u64,
    pub head_position: [Float32; 3],
    pub head_orientation: [Float32; 4],
    pub head_age_ms: Float32,
    pub head_valid: bool,
    pub left_gaze_vector: [Float32; 3],
    pub right_gaze_vector: [Float32; 3],
    pub left_eye_openness: Float32,
    pub right_eye_openness: Float32,
    pub left_pupil_dilation: Float32,
    pub right_pupil_dilation: Float32,
    pub left_gaze_vector_valid: bool,
    pub right_gaze_vector_valid: bool,
    pub left_eye_openness_valid: bool,
    pub right_eye_openness_valid: bool,
    pub left_pupil_dilation_valid: bool,
    pub right_pupil_dilation_valid: bool,
    pub eye_age_ms: Float32,
    pub eye_source_time: u64,
    pub server_fps: Float32,
    pub server_fps_age_ms: Float32,
    pub rendered_head_position: [Float32; 3],
    pub rendered_head_orientation: [Float32; 4],
    pub rendered_head_valid: bool,
    pub pose_delta_position: Float32,
    pub pose_delta_orientation_deg: Float32,
}

/// What is known at a tick, one value per column.
#[derive(Clone, Copy, PartialEq, Eq, Structural, Debug)]
pub struct StateLogCsvRecord {
    pub system_unix_time_ms: u64,
    pub monotonic_time_ns: u64,
    pub head_position_x: Float32,
    pub head_position_y: Float32,
    pub head_position_z: Float32,
    pub head_orientation_x: Float32,
    pub head_orientation_y: Float32,
    pub head_orientation_z: Float32,
    pub head_orientation_w: Float32,
    pub head_age_ms: Float32,
    pub head_valid: bool,
    pub left_gaze_vector_x: Float32,
    pub left_gaze_vector_y: Float32,
    pub left_gaze_vector_z: Float32,
    pub right_gaze_vector_x: Float32,
    pub right_gaze_vector_y: Float32,
    pub right_gaze_vector_z: Float32,
    pub left_eye_openness: Float32,
    pub right_eye_openness: Float32,
    pub left_pupil_dilation: Float32,
    pub right_pupil_dilation: Float32,
    pub left_gaze_vector_valid: bool,
    pub right_gaze_vector_valid: bool,
    pub left_eye_openness_valid: bool,
    pub right_eye_openness_valid: bool,
    pub left_pupil_dilation_valid: bool,
    pub right_pupil_dilation_valid: bool,
    pub eye_age_ms: Float32,
    pub eye_source_time: u64,
    pub server_fps: Float32,
    pub server_fps_age_ms: Float32,
    pub rendered_head_position_x: Float32,
    pub rendered_head_position_y: Float32,
    pub rendered_head_position_z: Float32,
    pub rendered_head_orientation_x: Float32,
    pub rendered_head_orientation_y: Float32,
    pub rendered_head_orientation_z: Float32,
    pub rendered_head_orientation_w: Float32,
    pub rendered_head_valid: bool,
    pub pose_delta_position: Float32,
    pub pose_delta_orientation_deg: Float32,
}

impl TelemetryPayload {
    /// The payload for a reported frame.
    pub open spec fn for_frame(
        client: ClientStatistics,
        report: FrameReport,
        rates: FrameRates,
        system_unix_time_ms: u64,
        head_motion: Option<DeviceMotion>,
        pico_eye_tracking_data: Option<EyeTrackingDataPICO<Float32>>,
    ) -> TelemetryPayload {
        TelemetryPayload {
            frame_timestamp_ns: (client.target_timestamp@ % 0x1_0000_0000_0000_0000) as u64,
            system_unix_time_ms,
            head_motion,
            pico_eye_tracking_data,
            game_time_latency: report.latencies.game_time,
            server_compositor_latency: report.latencies.server_compositor,
            encoder_latency: report.latencies.encoder,
            network_latency: report.latencies.network,
            decoder_latency: client.video_decode,
            decoder_queue_latency: client.video_decoder_queue,
            client_compositor_latency: client.rendering,
            vsync_queue_latency: client.vsync_queue,
            total_pipeline_latency: client.total_pipeline_latency,
            rates,
            is_idr: report.is_idr,
            video_packet_bytes: report.video_packet_bytes,
        }
    }

    /// The payload for a reported frame.
    pub fn new(
        client: &ClientStatistics,
        report: &FrameReport,
        rates: FrameRates,
        system_unix_time_ms: u64,
        head_motion: Option<DeviceMotion>,
        pico_eye_tracking_data: Option<EyeTrackingDataPICO<Float32>>,
    ) -> (r: TelemetryPayload)
        ensures
            r == TelemetryPayload::for_frame(
                *client,
                *report,
                rates,
                system_unix_time_ms,
                head_motion,
                pico_eye_tracking_data,
            ),
    {
        TelemetryPayload {
            frame_timestamp_ns: client.target_timestamp.nanos_u64(),
            system_unix_time_ms,
            head_motion,
            pico_eye_tracking_data,
            game_time_latency: report.latencies.game_time,
            server_compositor_latency: report.latencies.server_compositor,
            encoder_latency: report.latencies.encoder,
            network_latency: report.latencies.network,
            decoder_latency: client.video_decode,
            decoder_queue_latency: client.video_decoder_queue,
            client_compositor_latency: client.rendering,
            vsync_queue_latency: client.vsync_queue,
            total_pipeline_latency: client.total_pipeline_latency,
            rates,
            is_idr: report.is_idr,
            video_packet_bytes: report.video_packet_bytes,
        }
    }
}

/// The pose of the head: that of its motion, or the identity where there is none.
pub open spec fn head_pose(head_motion: Option<DeviceMotion>) -> Pose {
    match head_motion {
        Some(motion) => motion.pose,
        None => Pose::identity_pose(),
    }
}

/// A value of an eye sample, if there is a sample.
pub open spec fn eye_value(
    eye: Option<EyeTrackingDataPICO<Float32>>,
    f: spec_fn(EyeTrackingDataPICO<Float32>) -> Float32,
) -> Option<Float32> {
    match eye {
        Some(d) => Some(f(d)),
        None => None,
    }
}

/// The record of a payload. Flags are down and values missing where there is no eye sample; the
/// values of a sample are kept whether or not its flags call them valid.
pub open spec fn telemetry_record(payload: TelemetryPayload) -> TelemetryCsvRecord {
    let head = head_pose(payload.head_motion);
    let eye = payload.pico_eye_tracking_data;
    let left = eye->0.left_eye_pose_status;
    let right = eye->0.right_eye_pose_status;
    TelemetryCsvRecord {
        frame_timestamp_ns: payload.frame_timestamp_ns,
        system_unix_time_ms: payload.system_unix_time_ms,
        head_position_x: head.position.x,
        head_position_y: head.position.y,
        head_position_z: head.position.z,
        head_orientation_x: head.orientation.x,
        head_orientation_y: head.orientation.y,
        head_orientation_z: head.orientation.z,
        head_orientation_w: head.orientation.w,
        left_gaze_vector_valid: eye is Some && gaze_vector_set(left),
        right_gaze_vector_valid: eye is Some && gaze_vector_set(right),
        left_eye_openness_valid: eye is Some && eye_openness_set(left),
        right_eye_openness_valid: eye is Some && eye_openness_set(right),
        left_pupil_dilation_valid: eye is Some && pupil_dilation_set(left),
        right_pupil_dilation_valid: eye is Some && pupil_dilation_set(right),
        left_gaze_vector_x: eye_value(
            eye,
            |d: EyeTrackingDataPICO<Float32>| d.left_eye_gaze_vector[0],
        ),
        left_gaze_vector_y: eye_value(
            eye,
            |d: EyeTrackingDataPICO<Float32>| d.left_eye_gaze_vector[1],
        ),
        left_gaze_vector_z: eye_value(
            eye,
            |d: EyeTrackingDataPICO<Float32>| d.left_eye_gaze_vector[2],
        ),
        right_gaze_vector_x: eye_value(
            eye,
            |d: EyeTrackingDataPICO<Float32>| d.right_eye_gaze_vector[0],
        ),
        right_gaze_vector_y: eye_value(
            eye,
            |d: EyeTrackingDataPICO<Float32>| d.right_eye_gaze_vector[1],
        ),
        right_gaze_vector_z: eye_value(
            eye,
            |d: EyeTrackingDataPICO<Float32>| d.right_eye_gaze_vector[2],
        ),
        left_eye_openness: eye_value(
            eye,
            |d: EyeTrackingDataPICO<Float32>| d.left_eye_openness,
        ),
        right_eye_openness: eye_value(
            eye,
            |d: EyeTrackingDataPICO<Float32>| d.right_eye_openness,
        ),
        left_pupil_dilation: eye_value(
            eye,
            |d: EyeTrackingDataPICO<Float32>| d.left_eye_pupil_dilation,
        ),
        right_pupil_dilation: eye_value(
            eye,
            |d: EyeTrackingDataPICO<Float32>| d.right_eye_pupil_dilation,
        ),
        game_time: payload.game_time_latency,
        server_compositor: payload.server_compositor_latency,
        encode_latency: payload.encoder_latency,
        network_latency: payload.network_latency,
        decode_latency: payload.decoder_latency,
        decoder_queue: payload.decoder_queue_latency,
        client_compositor: payload.client_compositor_latency,
        vsync_queue: payload.vsync_queue_latency,
        total_pipeline_latency: payload.total_pipeline_latency,
        rates: payload.rates,
        is_idr: payload.is_idr,
        video_packet_bytes: payload.video_packet_bytes,
    }
}

impl vstd::std_specs::convert::FromSpecImpl<TelemetryPayload> for TelemetryCsvRecord {
    open spec fn obeys_from_spec() -> bool {
        true
    }

    open spec fn from_spec(payload: TelemetryPayload) -> TelemetryCsvRecord {
        telemetry_record(payload)
    }
}

impl From<TelemetryPayload> for TelemetryCsvRecord {
    fn from(payload: TelemetryPayload) -> (r: Self) {
        let head = match payload.head_motion {
            Some(motion) => motion.pose,
            None => Pose::identity(),
        };
        let mut r = TelemetryCsvRecord {
            frame_timestamp_ns: payload.frame_timestamp_ns,
            system_unix_time_ms: payload.system_unix_time_ms,
            head_position_x: head.position.x,
            head_position_y: head.position.y,
            head_position_z: head.position.z,
            head_orientation_x: head.orientation.x,
            head_orientation_y: head.orientation.y,
            head_orientation_z: head.orientation.z,
            head_orientation_w: head.orientation.w,
            left_gaze_vector_valid: false,
            right_gaze_vector_valid: false,
            left_eye_openness_valid: false,
            right_eye_openness_valid: false,
            left_pupil_dilation_valid: false,
            right_pupil_dilation_valid: false,
            left_gaze_vector_x: None,
            left_gaze_vector_y: None,
            left_gaze_vector_z: None,
            right_gaze_vector_x: None,
            right_gaze_vector_y: None,
            right_gaze_vector_z: None,
            left_eye_openness: None,
            right_eye_openness: None,
            left_pupil_dilation: None,
            right_pupil_dilation: None,
            game_time: payload.game_time_latency,
            server_compositor: payload.server_compositor_latency,
            encode_latency: payload.encoder_latency,
            network_latency: payload.network_latency,
            decode_latency: payload.decoder_latency,
            decoder_queue: payload.decoder_queue_latency,
            client_compositor: payload.client_compositor_latency,
            vsync_queue: payload.vsync_queue_latency,
            total_pipeline_latency: payload.total_pipeline_latency,
            rates: payload.rates,
            is_idr: payload.is_idr,
            video_packet_bytes: payload.video_packet_bytes,
        };
        if let Some(d) = &payload.pico_eye_tracking_data {
            r.left_gaze_vector_valid = is_gaze_vector_valid(d.left_eye_pose_status);
            r.right_gaze_vector_valid = is_gaze_vector_valid(d.right_eye_pose_status);
            r.left_eye_openness_valid = is_eye_openness_valid(d.left_eye_pose_status);
            r.right_eye_openness_valid = is_eye_openness_valid(d.right_eye_pose_status);
            r.left_pupil_dilation_valid = is_pupil_dilation_valid(d.left_eye_pose_status);
            r.right_pupil_dilation_valid = is_pupil_dilation_valid(d.right_eye_pose_status);
            r.left_gaze_vector_x = Some(d.left_eye_gaze_vector[0]);
            r.left_gaze_vector_y = Some(d.left_eye_gaze_vector[1]);
            r.left_gaze_vector_z = Some(d.left_eye_gaze_vector[2]);
            r.right_gaze_vector_x = Some(d.right_eye_gaze_vector[0]);
            r.right_gaze_vector_y = Some(d.right_eye_gaze_vector[1]);
            r.right_gaze_vector_z = Some(d.right_eye_gaze_vector[2]);
            r.left_eye_openness = Some(d.left_eye_openness);
            r.right_eye_openness = Some(d.right_eye_openness);
            r.left_pupil_dilation = Some(d.left_eye_pupil_dilation);
            r.right_pupil_dilation = Some(d.right_eye_pupil_dilation);
        }
        r
    }
}

impl vstd::std_specs::convert::FromSpecImpl<StateLogPayload> for StateLogCsvRecord {
    open spec fn obeys_from_spec() -> bool {
        true
    }

    open spec fn from_spec(p: StateLogPayload) -> StateLogCsvRecord {
        StateLogCsvRecord {
            system_unix_time_ms: p.system_unix_time_ms,
            monotonic_time_ns: p.monotonic_time_ns,
            head_position_x: p.head_position[0],
            head_position_y: p.head_position[1],
            head_position_z: p.head_position[2],
            head_orientation_x: p.head_orientation[0],
            head_orientation_y: p.head_orientation[1],
            head_orientation_z: p.head_orientation[2],
            head_orientation_w: p.head_orientation[3],
            head_age_ms: p.head_age_ms,
            head_valid: p.head_valid,
            left_gaze_vector_x: p.left_gaze_vector[0],
            left_gaze_vector_y: p.left_gaze_vector[1],
            left_gaze_vector_z: p.left_gaze_vector[2],
            right_gaze_vector_x: p.right_gaze_vector[0],
            right_gaze_vector_y: p.right_gaze_vector[1],
            right_gaze_vector_z: p.right_gaze_vector[2],
            left_eye_openness: p.left_eye_openness,
            right_eye_openness: p.right_eye_openness,
            left_pupil_dilation: p.left_pupil_dilation,
            right_pupil_dilation: p.right_pupil_dilation,
            left_gaze_vector_valid: p.left_gaze_vector_valid,
            right_gaze_vector_valid: p.right_gaze_vector_valid,
            left_eye_openness_valid: p.left_eye_openness_valid,
            right_eye_openness_valid: p.right_eye_openness_valid,
            left_pupil_dilation_valid: p.left_pupil_dilation_valid,
            right_pupil_dilation_valid: p.right_pupil_dilation_valid,
            eye_age_ms: p.eye_age_ms,
            eye_source_time: p.eye_source_time,
            server_fps: p.server_fps,
            server_fps_age_ms: p.server_fps_age_ms,
            rendered_head_position_x: p.rendered_head_position[0],
            rendered_head_position_y: p.rendered_head_position[1],
            rendered_head_position_z: p.rendered_head_position[2],
            rendered_head_orientation_x: p.rendered_head_orientation[0],
            rendered_head_orientation_y: p.rendered_head_orientation[1],
            rendered_head_orientation_z: p.rendered_head_orientation[2],
            rendered_head_orientation_w: p.rendered_head_orientation[3],
            rendered_head_valid: p.rendered_head_valid,
            pose_delta_position: p.pose_delta_position,
            pose_delta_orientation_deg: p.pose_delta_orientation_deg,
        }
    }
}

impl From<StateLogPayload> for StateLogCsvRecord {
    fn from(p: StateLogPayload) -> (r: Self) {
        StateLogCsvRecord {
            system_unix_time_ms: p.system_unix_time_ms,
            monotonic_time_ns: p.monotonic_time_ns,
            head_position_x: p.head_position[0],
            head_position_y: p.head_position[1],
            head_position_z: p.head_position[2],
            head_orientation_x: p.head_orientation[0],
            head_orientation_y: p.head_orientation[1],
            head_orientation_z: p.head_orientation[2],
            head_orientation_w: p.head_orientation[3],
            head_age_ms: p.head_age_ms,
            head_valid: p.head_valid,
            left_gaze_vector_x: p.left_gaze_vector[0],
            left_gaze_vector_y: p.left_gaze_vector[1],
            left_gaze_vector_z: p.left_gaze_vector[2],
            right_gaze_vector_x: p.right_gaze_vector[0],
            right_gaze_vector_y: p.right_gaze_vector[1],
            right_gaze_vector_z: p.right_gaze_vector[2],
            left_eye_openness: p.left_eye_openness,
            right_eye_openness: p.right_eye_openness,
            left_pupil_dilation: p.left_pupil_dilation,
            right_pupil_dilation: p.right_pupil_dilation,
            left_gaze_vector_valid: p.left_gaze_vector_valid,
            right_gaze_vector_valid: p.right_gaze_vector_valid,
            left_eye_openness_valid: p.left_eye_openness_valid,
            right_eye_openness_valid: p.right_eye_openness_valid,
            left_pupil_dilation_valid: p.left_pupil_dilation_valid,
            right_pupil_dilation_valid: p.right_pupil_dilation_valid,
            eye_age_ms: p.eye_age_ms,
            eye_source_time: p.eye_source_time,
            server_fps: p.server_fps,
            server_fps_age_ms: p.server_fps_age_ms,
            rendered_head_position_x: p.rendered_head_position[0],
            rendered_head_position_y: p.rendered_head_position[1],
            rendered_head_position_z: p.rendered_head_position[2],
            rendered_head_orientation_x: p.rendered_head_orientation[0],
            rendered_head_orientation_y: p.rendered_head_orientation[1],
            rendered_head_orientation_z: p.rendered_head_orientation[2],
            rendered_head_orientation_w: p.rendered_head_orientation[3],
            rendered_head_valid: p.rendered_head_valid,
            pose_delta_position: p.pose_delta_position,
            pose_delta_orientation_deg: p.pose_delta_orientation_deg,
        }
    }
}

/// The floating point numbers of an event log's row as they are written, each under the name of its
/// column.
#[derive(Debug)]
pub struct EventNumbers {
    pub head_position_x: String,
    pub head_position_y: String,
    pub head_position_z: String,
    pub head_orientation_x: String,
    pub head_orientation_y: String,
    pub head_orientation_z: String,
    pub head_orientation_w: String,
    pub left_gaze_vector_x: String,
    pub left_gaze_vector_y: String,
    pub left_gaze_vector_z: String,
    pub right_gaze_vector_x: String,
    pub right_gaze_vector_y: String,
    pub right_gaze_vector_z: String,
    pub left_eye_openness: String,
    pub right_eye_openness: String,
    pub left_pupil_dilation: String,
    pub right_pupil_dilation: String,
    pub game_time_ms: String,
    pub server_compositor_ms: String,
    pub encode_latency_ms: String,
    pub network_latency_ms: String,
    pub decode_latency_ms: String,
    pub decoder_queue_ms: String,
    pub client_compositor_ms: String,
    pub vsync_queue_ms: String,
    pub total_pipeline_latency_ms: String,
    pub throughput_mbps: String,
    pub packets_lost_per_sec: String,
    pub client_fps: String,
    pub server_fps: String,
}

/// The floating point numbers of a state log's row as they are written, each under the name of its
/// column.
#[derive(Debug)]
pub struct StateNumbers {
    pub head_position_x: String,
    pub head_position_y: String,
    pub head_position_z: String,
    pub head_orientation_x: String,
    pub head_orientation_y: String,
    pub head_orientation_z: String,
    pub head_orientation_w: String,
    pub head_age_ms: String,
    pub left_gaze_vector_x: String,
    pub left_gaze_vector_y: String,
    pub left_gaze_vector_z: String,
    pub right_gaze_vector_x: String,
    pub right_gaze_vector_y: String,
    pub right_gaze_vector_z: String,
    pub left_eye_openness: String,
    pub right_eye_openness: String,
    pub left_pupil_dilation: String,
    pub right_pupil_dilation: String,
    pub eye_age_ms: String,
    pub server_fps: String,
    pub server_fps_age_ms: String,
    pub rendered_head_position_x: String,
    pub rendered_head_position_y: String,
    pub rendered_head_position_z: String,
    pub rendered_head_orientation_x: String,
    pub rendered_head_orientation_y: String,
    pub rendered_head_orientation_z: String,
    pub rendered_head_orientation_w: String,
    pub pose_delta_position: String,
    pub pose_delta_orientation_deg: String,
}

/// The text of a value that may be missing, which is empty where it is.
pub open spec fn present_text(value: Option<Float32>, text: Seq<char>) -> Seq<char> {
    match value {
        Some(_) => text,
        None => seq![],
    }
}

/// The columns of a row of the event log, in the order of their names.
pub open spec fn event_columns(record: TelemetryCsvRecord, numbers: EventNumbers) -> Seq<Seq<char>> {
    seq![
        decimal(record.frame_timestamp_ns as nat),
        decimal(record.system_unix_time_ms as nat),
        numbers.head_position_x@,
        numbers.head_position_y@,
        numbers.head_position_z@,
        numbers.head_orientation_x@,
        numbers.head_orientation_y@,
        numbers.head_orientation_z@,
        numbers.head_orientation_w@,
        bool_text(record.left_gaze_vector_valid),
        bool_text(record.right_gaze_vector_valid),
        bool_text(record.left_eye_openness_valid),
        bool_text(record.right_eye_openness_valid),
        bool_text(record.left_pupil_dilation_valid),
        bool_text(record.right_pupil_dilation_valid),
        present_text(record.left_gaze_vector_x, numbers.left_gaze_vector_x@),
        present_text(record.left_gaze_vector_y, numbers.left_gaze_vector_y@),
        present_text(record.left_gaze_vector_z, numbers.left_gaze_vector_z@),
        present_text(record.right_gaze_vector_x, numbers.right_gaze_vector_x@),
        present_text(record.right_gaze_vector_y, numbers.right_gaze_vector_y@),
        present_text(record.right_gaze_vector_z, numbers.right_gaze_vector_z@),
        present_text(record.left_eye_openness, numbers.left_eye_openness@),
        present_text(record.right_eye_openness, numbers.right_eye_openness@),
        present_text(record.left_pupil_dilation, numbers.left_pupil_dilation@),
        present_text(record.right_pupil_dilation, numbers.right_pupil_dilation@),
        numbers.game_time_ms@,
        numbers.server_compositor_ms@,
        numbers.encode_latency_ms@,
        numbers.network_latency_ms@,
        numbers.decode_latency_ms@,
        numbers.decoder_queue_ms@,
        numbers.client_compositor_ms@,
        numbers.vsync_queue_ms@,
        numbers.total_pipeline_latency_ms@,
        numbers.throughput_mbps@,
        numbers.packets_lost_per_sec@,
        numbers.client_fps@,
        numbers.server_fps@,
        bool_text(record.is_idr),
        decimal(record.video_packet_bytes as nat),
    ]
}

/// The columns of a row of the state log, in the order of their names.
pub open spec fn state_columns(record: StateLogCsvRecord, numbers: StateNumbers) -> Seq<Seq<char>> {
    seq![
        decimal(record.system_unix_time_ms as nat),
        decimal(record.monotonic_time_ns as nat),
        numbers.head_position_x@,
        numbers.head_position_y@,
        numbers.head_position_z@,
        numbers.head_orientation_x@,
        numbers.head_orientation_y@,
        numbers.head_orientation_z@,
        numbers.head_orientation_w@,
        numbers.head_age_ms@,
        bool_text(record.head_valid),
        numbers.left_gaze_vector_x@,
        numbers.left_gaze_vector_y@,
        numbers.left_gaze_vector_z@,
        numbers.right_gaze_vector_x@,
        numbers.right_gaze_vector_y@,
        numbers.right_gaze_vector_z@,
        numbers.left_eye_openness@,
        numbers.right_eye_openness@,
        numbers.left_pupil_dilation@,
        numbers.right_pupil_dilation@,
        bool_text(record.left_gaze_vector_valid),
        bool_text(record.right_gaze_vector_valid),
        bool_text(record.left_eye_openness_valid),
        bool_text(record.right_eye_openness_valid),
        bool_text(record.left_pupil_dilation_valid),
        bool_text(record.right_pupil_dilation_valid),
        numbers.eye_age_ms@,
        decimal(record.eye_source_time as nat),
        numbers.server_fps@,
        numbers.server_fps_age_ms@,
        numbers.rendered_head_position_x@,
        numbers.rendered_head_position_y@,
        numbers.rendered_head_position_z@,
        numbers.rendered_head_orientation_x@,
        numbers.rendered_head_orientation_y@,
        numbers.rendered_head_orientation_z@,
        numbers.rendered_head_orientation_w@,
        bool_text(record.rendered_head_valid),
        numbers.pose_delta_position@,
        numbers.pose_delta_orientation_deg@,
    ]
}

/// The text of a value that may be missing, which is empty where it is.
fn present_string(value: Option<Float32>, text: &String) -> (r: String)
    ensures
        r@ == present_text(value, text@),
{
    match value {
        Some(_) => text.clone(),
        None => String::new(),
    }
}

/// A row of the event log, one text per column.
pub fn event_log_row(record: &TelemetryCsvRecord, numbers: &EventNumbers) -> (r: Vec<String>)
    ensures
        texts(r@) == event_columns(*record, *numbers),
        r@.len() == event_column_names().len(),
{
    let mut row: Vec<String> = Vec::new();
    row.push(decimal_string(record.frame_timestamp_ns));
    row.push(decimal_string(record.system_unix_time_ms));
    row.push(numbers.head_position_x.clone());
    row.push(numbers.head_position_y.clone());
    row.push(numbers.head_position_z.clone());
    row.push(numbers.head_orientation_x.clone());
    row.push(numbers.head_orientation_y.clone());
    row.push(numbers.head_orientation_z.clone());
    row.push(numbers.head_orientation_w.clone());
    row.push(bool_string(record.left_gaze_vector_valid));
    row.push(bool_string(record.right_gaze_vector_valid));
    row.push(bool_string(record.left_eye_openness_valid));
    row.push(bool_string(record.right_eye_openness_valid));
    row.push(bool_string(record.left_pupil_dilation_valid));
    row.push(bool_string(record.right_pupil_dilation_valid));
    row.push(present_string(record.left_gaze_vector_x, &numbers.left_gaze_vector_x));
    row.push(present_string(record.left_gaze_vector_y, &numbers.left_gaze_vector_y));
    row.push(present_string(record.left_gaze_vector_z, &numbers.left_gaze_vector_z));
    row.push(present_string(record.right_gaze_vector_x, &numbers.right_gaze_vector_x));
    row.push(present_string(record.right_gaze_vector_y, &numbers.right_gaze_vector_y));
    row.push(present_string(record.right_gaze_vector_z, &numbers.right_gaze_vector_z));
    row.push(present_string(record.left_eye_openness, &numbers.left_eye_openness));
    row.push(present_string(record.right_eye_openness, &numbers.right_eye_openness));
    row.push(present_string(record.left_pupil_dilation, &numbers.left_pupil_dilation));
    row.push(present_string(record.right_pupil_dilation, &numbers.right_pupil_dilation));
    row.push(numbers.game_time_ms.clone());
    row.push(numbers.server_compositor_ms.clone());
    row.push(numbers.encode_latency_ms.clone());
    row.push(numbers.network_latency_ms.clone());
    row.push(numbers.decode_latency_ms.clone());
    row.push(numbers.decoder_queue_ms.clone());
    row.push(numbers.client_compositor_ms.clone());
    row.push(numbers.vsync_queue_ms.clone());
    row.push(numbers.total_pipeline_latency_ms.clone());
    row.push(numbers.throughput_mbps.clone());
    row.push(numbers.packets_lost_per_sec.clone());
    row.push(numbers.client_fps.clone());
    row.push(numbers.server_fps.clone());
    row.push(bool_string(record.is_idr));
    row.push(decimal_string(record.video_packet_bytes as u64));
    assert(texts(row@) =~= event_columns(*record, *numbers));
    row
}

/// A row of the state log, one text per column.
pub fn state_log_row(record: &StateLogCsvRecord, numbers: &StateNumbers) -> (r: Vec<String>)
    ensures
        texts(r@) == state_columns(*record, *numbers),
        r@.len() == state_column_names().len(),
{
    let mut row: Vec<String> = Vec::new();
    row.push(decimal_string(record.system_unix_time_ms));
    row.push(decimal_string(record.monotonic_time_ns));
    row.push(numbers.head_position_x.clone());
    row.push(numbers.head_position_y.clone());
    row.push(numbers.head_position_z.clone());
    row.push(numbers.head_orientation_x.clone());
    row.push(numbers.head_orientation_y.clone());
    row.push(numbers.head_orientation_z.clone());
    row.push(numbers.head_orientation_w.clone());
    row.push(numbers.head_age_ms.clone());
    row.push(bool_string(record.head_valid));
    row.push(numbers.left_gaze_vector_x.clone());
    row.push(numbers.left_gaze_vector_y.clone());
    row.push(numbers.left_gaze_vector_z.clone());
    row.push(numbers.right_gaze_vector_x.clone());
    row.push(numbers.right_gaze_vector_y.clone());
    row.push(numbers.right_gaze_vector_z.clone());
    row.push(numbers.left_eye_openness.clone());
    row.push(numbers.right_eye_openness.clone());
    row.push(numbers.left_pupil_dilation.clone());
    row.push(numbers.right_pupil_dilation.clone());
    row.push(bool_string(record.left_gaze_vector_valid));
    row.push(bool_string(record.right_gaze_vector_valid));
    row.push(bool_string(record.left_eye_openness_valid));
    row.push(bool_string(record.right_eye_openness_valid));
    row.push(bool_string(record.left_pupil_dilation_valid));
    row.push(bool_string(record.right_pupil_dilation_valid));
    row.push(numbers.eye_age_ms.clone());
    row.push(decimal_string(record.eye_source_time));
    row.push(numbers.server_fps.clone());
    row.push(numbers.server_fps_age_ms.clone());
    row.push(numbers.rendered_head_position_x.clone());
    row.push(numbers.rendered_head_position_y.clone());
    row.push(numbers.rendered_head_position_z.clone());
    row.push(numbers.rendered_head_orientation_x.clone());
    row.push(numbers.rendered_head_orientation_y.clone());
    row.push(numbers.rendered_head_orientation_z.clone());
    row.push(numbers.rendered_head_orientation_w.clone());
    row.push(bool_string(record.rendered_head_valid));
    row.push(numbers.pose_delta_position.clone());
    row.push(numbers.pose_delta_orientation_deg.clone());
    assert(texts(row@) =~= state_columns(*record, *numbers));
    row
}

/// A record calls a value of an eye valid only where there is an eye sample, and then it holds the
/// value.
pub proof fn law_valid_values_are_present(payload: TelemetryPayload)
    ensures
        ({
            let r = telemetry_record(payload);
            &&& r.left_gaze_vector_valid ==> r.left_gaze_vector_x is Some
                && r.left_gaze_vector_y is Some && r.left_gaze_vector_z is Some
            &&& r.right_gaze_vector_valid ==> r.right_gaze_vector_x is Some
                && r.right_gaze_vector_y is Some && r.right_gaze_vector_z is Some
            &&& r.left_eye_openness_valid ==> r.left_eye_openness is Some
            &&& r.right_eye_openness_valid ==> r.right_eye_openness is Some
            &&& r.left_pupil_dilation_valid ==> r.left_pupil_dilation is Some
            &&& r.right_pupil_dilation_valid ==> r.right_pupil_dilation is Some
        }),
{
}

/// No name of a column holds a comma.
proof fn lemma_event_names_are_plain()
    ensures
        forall|i: int|
            0 <= i < event_column_names().len() ==> !(#[trigger] event_column_names()[i]).contains(','),
{
    reveal_strlit("frame_timestamp_ns");
    reveal_strlit("system_unix_time_ms");
    reveal_strlit("head_position_x");
    reveal_strlit("head_position_y");
    reveal_strlit("head_position_z");
    reveal_strlit("head_orientation_x");
    reveal_strlit("head_orientation_y");
    reveal_strlit("head_orientation_z");
    reveal_strlit("head_orientation_w");
    reveal_strlit("left_gaze_vector_valid");
    reveal_strlit("right_gaze_vector_valid");
    reveal_strlit("left_eye_openness_valid");
    reveal_strlit("right_eye_openness_valid");
    reveal_strlit("left_pupil_dilation_valid");
    reveal_strlit("right_pupil_dilation_valid");
    reveal_strlit("left_gaze_vector_x");
    reveal_strlit("left_gaze_vector_y");
    reveal_strlit("left_gaze_vector_z");
    reveal_strlit("right_gaze_vector_x");
    reveal_strlit("right_gaze_vector_y");
    reveal_strlit("right_gaze_vector_z");
    reveal_strlit("left_eye_openness");
    reveal_strlit("right_eye_openness");
    reveal_strlit("left_pupil_dilation");
    reveal_strlit("right_pupil_dilation");
    reveal_strlit("game_time_ms");
    reveal_strlit("server_compositor_ms");
    reveal_strlit("encode_latency_ms");
    reveal_strlit("network_latency_ms");
    reveal_strlit("decode_latency_ms");
    reveal_strlit("decoder_queue_ms");
    reveal_strlit("client_compositor_ms");
    reveal_strlit("vsync_queue_ms");
    reveal_strlit("total_pipeline_latency_ms");
    reveal_strlit("throughput_mbps");
    reveal_strlit("packets_lost_per_sec");
    reveal_strlit("client_fps");
    reveal_strlit("server_fps");
    reveal_strlit("is_idr");
    reveal_strlit("video_packet_bytes");
}

/// No name of a column holds a comma.
proof fn lemma_state_names_are_plain()
    ensures
        forall|i: int|
            0 <= i < state_column_names().len() ==> !(#[trigger] state_column_names()[i]).contains(','),
{
    reveal_strlit("system_unix_time_ms");
    reveal_strlit("monotonic_time_ns");
    reveal_strlit("head_position_x");
    reveal_strlit("head_position_y");
    reveal_strlit("head_position_z");
    reveal_strlit("head_orientation_x");
    reveal_strlit("head_orientation_y");
    reveal_strlit("head_orientation_z");
    reveal_strlit("head_orientation_w");
    reveal_strlit("head_age_ms");
    reveal_strlit("head_valid");
    reveal_strlit("left_gaze_vector_x");
    reveal_strlit("left_gaze_vector_y");
    reveal_strlit("left_gaze_vector_z");
    reveal_strlit("right_gaze_vector_x");
    reveal_strlit("right_gaze_vector_y");
    reveal_strlit("right_gaze_vector_z");
    reveal_strlit("left_eye_openness");
    reveal_strlit("right_eye_openness");
    reveal_strlit("left_pupil_dilation");
    reveal_strlit("right_pupil_dilation");
    reveal_strlit("left_gaze_vector_valid");
    reveal_strlit("right_gaze_vector_valid");
    reveal_strlit("left_eye_openness_valid");
    reveal_strlit("right_eye_openness_valid");
    reveal_strlit("left_pupil_dilation_valid");
    reveal_strlit("right_pupil_dilation_valid");
    reveal_strlit("eye_age_ms");
    reveal_strlit("eye_source_time");
    reveal_strlit("server_fps");
    reveal_strlit("server_fps_age_ms");
    reveal_strlit("rendered_head_position_x");
    reveal_strlit("rendered_head_position_y");
    reveal_strlit("rendered_head_position_z");
    reveal_strlit("rendered_head_orientation_x");
    reveal_strlit("rendered_head_orientation_y");
    reveal_strlit("rendered_head_orientation_z");
    reveal_strlit("rendered_head_orientation_w");
    reveal_strlit("rendered_head_valid");
    reveal_strlit("pose_delta_position");
    reveal_strlit("pose_delta_orientation_deg");
}

/// Joined with commas, the names of a log's columns split into themselves again: a reader of the first
/// line finds forty columns in the event log and one more in the state log, as many as each row fills.
pub proof fn law_first_lines_name_the_columns(
    event: TelemetryCsvRecord,
    event_numbers: EventNumbers,
    state: StateLogCsvRecord,
    state_numbers: StateNumbers,
)
    ensures
        event_columns(event, event_numbers).len() == event_column_names().len(),
        state_columns(state, state_numbers).len() == state_column_names().len(),
        split(join(event_column_names(), seq![',']), ',') == event_column_names(),
        event_column_names().len() == 40,
        split(join(state_column_names(), seq![',']), ',') == state_column_names(),
        state_column_names().len() == 41,
{
    lemma_event_names_are_plain();
    law_joined_pieces_split(event_column_names(), ',');
    lemma_state_names_are_plain();
    law_joined_pieces_split(state_column_names(), ',');
}

/// Each column of the event log has its name and its value at the same place: the value of the record
/// or the text of the number that bears the column's name, and nothing where the value is missing.
pub proof fn law_event_rows_match_their_columns(record: TelemetryCsvRecord, numbers: EventNumbers)
    ensures
        ({
            let names = event_column_names();
            let row = event_columns(record, numbers);
            &&& names.len() == 40 && row.len() == 40
            &&& names[0] == "frame_timestamp_ns"@
            &&& row[0] == decimal(record.frame_timestamp_ns as nat)
            &&& names[1] == "system_unix_time_ms"@
            &&& row[1] == decimal(record.system_unix_time_ms as nat)
            &&& names[2] == "head_position_x"@ && row[2] == numbers.head_position_x@
            &&& names[3] == "head_position_y"@ && row[3] == numbers.head_position_y@
            &&& names[4] == "head_position_z"@ && row[4] == numbers.head_position_z@
            &&& names[5] == "head_orientation_x"@ && row[5] == numbers.head_orientation_x@
            &&& names[6] == "head_orientation_y"@ && row[6] == numbers.head_orientation_y@
            &&& names[7] == "head_orientation_z"@ && row[7] == numbers.head_orientation_z@
            &&& names[8] == "head_orientation_w"@ && row[8] == numbers.head_orientation_w@
            &&& names[9] == "left_gaze_vector_valid"@
            &&& row[9] == bool_text(record.left_gaze_vector_valid)
            &&& names[10] == "right_gaze_vector_valid"@
            &&& row[10] == bool_text(record.right_gaze_vector_valid)
            &&& names[11] == "left_eye_openness_valid"@
            &&& row[11] == bool_text(record.left_eye_openness_valid)
            &&& names[12] == "right_eye_openness_valid"@
            &&& row[12] == bool_text(record.right_eye_openness_valid)
            &&& names[13] == "left_pupil_dilation_valid"@
            &&& row[13] == bool_text(record.left_pupil_dilation_valid)
            &&& names[14] == "right_pupil_dilation_valid"@
            &&& row[14] == bool_text(record.right_pupil_dilation_valid)
            &&& names[15] == "left_gaze_vector_x"@
            &&& row[15] == (if record.left_gaze_vector_x is Some {
                numbers.left_gaze_vector_x@
            } else {
                Seq::empty()
            })
            &&& names[16] == "left_gaze_vector_y"@
            &&& row[16] == (if record.left_gaze_vector_y is Some {
                numbers.left_gaze_vector_y@
            } else {
                Seq::empty()
            })
            &&& names[17] == "left_gaze_vector_z"@
            &&& row[17] == (if record.left_gaze_vector_z is Some {
                numbers.left_gaze_vector_z@
            } else {
                Seq::empty()
            })
            &&& names[18] == "right_gaze_vector_x"@
            &&& row[18] == (if record.right_gaze_vector_x is Some {
                numbers.right_gaze_vector_x@
            } else {
                Seq::empty()
            })
            &&& names[19] == "right_gaze_vector_y"@
            &&& row[19] == (if record.right_gaze_vector_y is Some {
                numbers.right_gaze_vector_y@
            } else {
                Seq::empty()
            })
            &&& names[20] == "right_gaze_vector_z"@
            &&& row[20] == (if record.right_gaze_vector_z is Some {
                numbers.right_gaze_vector_z@
            } else {
                Seq::empty()
            })
            &&& names[21] == "left_eye_openness"@
            &&& row[21] == (if record.left_eye_openness is Some {
                numbers.left_eye_openness@
            } else {
                Seq::empty()
            })
            &&& names[22] == "right_eye_openness"@
            &&& row[22] == (if record.right_eye_openness is Some {
                numbers.right_eye_openness@
            } else {
                Seq::empty()
            })
            &&& names[23] == "left_pupil_dilation"@
            &&& row[23] == (if record.left_pupil_dilation is Some {
                numbers.left_pupil_dilation@
            } else {
                Seq::empty()
            })
            &&& names[24] == "right_pupil_dilation"@
            &&& row[24] == (if record.right_pupil_dilation is Some {
                numbers.right_pupil_dilation@
            } else {
                Seq::empty()
            })
            &&& names[25] == "game_time_ms"@ && row[25] == numbers.game_time_ms@
            &&& names[26] == "server_compositor_ms"@ && row[26] == numbers.server_compositor_ms@
            &&& names[27] == "encode_latency_ms"@ && row[27] == numbers.encode_latency_ms@
            &&& names[28] == "network_latency_ms"@ && row[28] == numbers.network_latency_ms@
            &&& names[29] == "decode_latency_ms"@ && row[29] == numbers.decode_latency_ms@
            &&& names[30] == "decoder_queue_ms"@ && row[30] == numbers.decoder_queue_ms@
            &&& names[31] == "client_compositor_ms"@ && row[31] == numbers.client_compositor_ms@
            &&& names[32] == "vsync_queue_ms"@ && row[32] == numbers.vsync_queue_ms@
            &&& names[33] == "total_pipeline_latency_ms"@
            &&& row[33] == numbers.total_pipeline_latency_ms@
            &&& names[34] == "throughput_mbps"@ && row[34] == numbers.throughput_mbps@
            &&& names[35] == "packets_lost_per_sec"@ && row[35] == numbers.packets_lost_per_sec@
            &&& names[36] == "client_fps"@ && row[36] == numbers.client_fps@
            &&& names[37] == "server_fps"@ && row[37] == numbers.server_fps@
            &&& names[38] == "is_idr"@ && row[38] == bool_text(record.is_idr)
            &&& names[39] == "video_packet_bytes"@
            &&& row[39] == decimal(record.video_packet_bytes as nat)
        }),
{
}

/// Each column of the state log has its name and its value at the same place: the value of the record
/// or the text of the number that bears the column's name.
pub proof fn law_state_rows_match_their_columns(record: StateLogCsvRecord, numbers: StateNumbers)
    ensures
        ({
            let names = state_column_names();
            let row = state_columns(record, numbers);
            &&& names.len() == 41 && row.len() == 41
            &&& names[0] == "system_unix_time_ms"@
            &&& row[0] == decimal(record.system_unix_time_ms as nat)
            &&& names[1] == "monotonic_time_ns"@
            &&& row[1] == decimal(record.monotonic_time_ns as nat)
            &&& names[2] == "head_position_x"@ && row[2] == numbers.head_position_x@
            &&& names[3] == "head_position_y"@ && row[3] == numbers.head_position_y@
            &&& names[4] == "head_position_z"@ && row[4] == numbers.head_position_z@
            &&& names[5] == "head_orientation_x"@ && row[5] == numbers.head_orientation_x@
            &&& names[6] == "head_orientation_y"@ && row[6] == numbers.head_orientation_y@
            &&& names[7] == "head_orientation_z"@ && row[7] == numbers.head_orientation_z@
            &&& names[8] == "head_orientation_w"@ && row[8] == numbers.head_orientation_w@
            &&& names[9] == "head_age_ms"@ && row[9] == numbers.head_age_ms@
            &&& names[10] == "head_valid"@ && row[10] == bool_text(record.head_valid)
            &&& names[11] == "left_gaze_vector_x"@ && row[11] == numbers.left_gaze_vector_x@
            &&& names[12] == "left_gaze_vector_y"@ && row[12] == numbers.left_gaze_vector_y@
            &&& names[13] == "left_gaze_vector_z"@ && row[13] == numbers.left_gaze_vector_z@
            &&& names[14] == "right_gaze_vector_x"@ && row[14] == numbers.right_gaze_vector_x@
            &&& names[15] == "right_gaze_vector_y"@ && row[15] == numbers.right_gaze_vector_y@
            &&& names[16] == "right_gaze_vector_z"@ && row[16] == numbers.right_gaze_vector_z@
            &&& names[17] == "left_eye_openness"@ && row[17] == numbers.left_eye_openness@
            &&& names[18] == "right_eye_openness"@ && row[18] == numbers.right_eye_openness@
            &&& names[19] == "left_pupil_dilation"@ && row[19] == numbers.left_pupil_dilation@
            &&& names[20] == "right_pupil_dilation"@ && row[20] == numbers.right_pupil_dilation@
            &&& names[21] == "left_gaze_vector_valid"@
            &&& row[21] == bool_text(record.left_gaze_vector_valid)
            &&& names[22] == "right_gaze_vector_valid"@
            &&& row[22] == bool_text(record.right_gaze_vector_valid)
            &&& names[23] == "left_eye_openness_valid"@
            &&& row[23] == bool_text(record.left_eye_openness_valid)
            &&& names[24] == "right_eye_openness_valid"@
            &&& row[24] == bool_text(record.right_eye_openness_valid)
            &&& names[25] == "left_pupil_dilation_valid"@
            &&& row[25] == bool_text(record.left_pupil_dilation_valid)
            &&& names[26] == "right_pupil_dilation_valid"@
            &&& row[26] == bool_text(record.right_pupil_dilation_valid)
            &&& names[27] == "eye_age_ms"@ && row[27] == numbers.eye_age_ms@
            &&& names[28] == "eye_source_time"@ && row[28] == decimal(record.eye_source_time as nat)
            &&& names[29] == "server_fps"@ && row[29] == numbers.server_fps@
            &&& names[30] == "server_fps_age_ms"@ && row[30] == numbers.server_fps_age_ms@
            &&& names[31] == "rendered_head_position_x"@
            &&& row[31] == numbers.rendered_head_position_x@
            &&& names[32] == "rendered_head_position_y"@
            &&& row[32] == numbers.rendered_head_position_y@
            &&& names[33] == "rendered_head_position_z"@
            &&& row[33] == numbers.rendered_head_position_z@
            &&& names[34] == "rendered_head_orientation_x"@
            &&& row[34] == numbers.rendered_head_orientation_x@
            &&& names[35] == "rendered_head_orientation_y"@
            &&& row[35] == numbers.rendered_head_orientation_y@
            &&& names[36] == "rendered_head_orientation_z"@
            &&& row[36] == numbers.rendered_head_orientation_z@
            &&& names[37] == "rendered_head_orientation_w"@
            &&& row[37] == numbers.rendered_head_orientation_w@
            &&& names[38] == "rendered_head_valid"@
            &&& row[38] == bool_text(record.rendered_head_valid)
            &&& names[39] == "pose_delta_position"@ && row[39] == numbers.pose_delta_position@
            &&& names[40] == "pose_delta_orientation_deg"@
            &&& row[40] == numbers.pose_delta_orientation_deg@
        }),
{
}

/// What is queued for a frame: the measured parts of its way, on the server as reported and on the
/// client as measured, each under its own name; the low 64 bits of its timestamp; and the head, the
/// eyes, the rates and the time as they were handed in.
pub proof fn law_payload_is_the_frame(
    client: ClientStatistics,
    report: FrameReport,
    rates: FrameRates,
    system_unix_time_ms: u64,
    head_motion: Option<DeviceMotion>,
    pico_eye_tracking_data: Option<EyeTrackingDataPICO<Float32>>,
)
    ensures
        ({
            let payload = TelemetryPayload::for_frame(
                client,
                report,
                rates,
                system_unix_time_ms,
                head_motion,
                pico_eye_tracking_data,
            );
            &&& client.target_timestamp@ <= u64::MAX ==> payload.frame_timestamp_ns
                == client.target_timestamp@
            &&& (client.target_timestamp@ - payload.frame_timestamp_ns) % 0x1_0000_0000_0000_0000
                == 0
            &&& payload.system_unix_time_ms == system_unix_time_ms
            &&& payload.head_motion == head_motion
            &&& payload.pico_eye_tracking_data == pico_eye_tracking_data
            &&& payload.game_time_latency == report.latencies.game_time
            &&& payload.server_compositor_latency == report.latencies.server_compositor
            &&& payload.encoder_latency == report.latencies.encoder
            &&& payload.network_latency == report.latencies.network
            &&& payload.decoder_latency == client.video_decode
            &&& payload.decoder_queue_latency == client.video_decoder_queue
            &&& payload.client_compositor_latency == client.rendering
            &&& payload.vsync_queue_latency == client.vsync_queue
            &&& payload.total_pipeline_latency == client.total_pipeline_latency
            &&& payload.rates == rates
            &&& payload.is_idr == report.is_idr
            &&& payload.video_packet_bytes == report.video_packet_bytes
        }),
{
}

/// What is recorded of a payload: its times, latencies, rates and sizes under their own names, and
/// the head's pose, which is the identity where the head's motion is not known.
pub proof fn law_record_is_the_payload(payload: TelemetryPayload)
    ensures
        ({
            let record: TelemetryCsvRecord =
                vstd::std_specs::convert::FromSpec::<TelemetryPayload>::from_spec(payload);
            let head = payload.head_motion->0.pose;
            &&& record == telemetry_record(payload)
            &&& record.frame_timestamp_ns == payload.frame_timestamp_ns
            &&& record.system_unix_time_ms == payload.system_unix_time_ms
            &&& payload.head_motion is Some ==> {
                &&& record.head_position_x == head.position.x
                &&& record.head_position_y == head.position.y
                &&& record.head_position_z == head.position.z
                &&& record.head_orientation_x == head.orientation.x
                &&& record.head_orientation_y == head.orientation.y
                &&& record.head_orientation_z == head.orientation.z
                &&& record.head_orientation_w == head.orientation.w
            }
            &&& payload.head_motion is None ==> {
                &&& record.head_position_x.bits == 0
                &&& record.head_position_y.bits == 0
                &&& record.head_position_z.bits == 0
                &&& record.head_orientation_x.bits == 0
                &&& record.head_orientation_y.bits == 0
                &&& record.head_orientation_z.bits == 0
                &&& record.head_orientation_w.bits == 0x3f80_0000
            }
            &&& record.game_time == payload.game_time_latency
            &&& record.server_compositor == payload.server_compositor_latency
            &&& record.encode_latency == payload.encoder_latency
            &&& record.network_latency == payload.network_latency
            &&& record.decode_latency == payload.decoder_latency
            &&& record.decoder_queue == payload.decoder_queue_latency
            &&& record.client_compositor == payload.client_compositor_latency
            &&& record.vsync_queue == payload.vsync_queue_latency
            &&& record.total_pipeline_latency == payload.total_pipeline_latency
            &&& record.rates == payload.rates
            &&& record.is_idr == payload.is_idr
            &&& record.video_packet_bytes == payload.video_packet_bytes
        }),
{
}

/// What is recorded of an eye sample: each eye's values are that eye's in the sample, kept whether
/// valid or not, and its flags go by that eye's status, digits 1 and 8 for the gaze vector, 2 for the
/// openness, 3 and 11 for the pupil. Without a sample every flag is down and every value missing.
pub proof fn law_recorded_eyes_are_the_sample(payload: TelemetryPayload)
    ensures
        ({
            let r = telemetry_record(payload);
            match payload.pico_eye_tracking_data {
                Some(d) => {
                    let left = d.left_eye_pose_status;
                    let right = d.right_eye_pose_status;
                    &&& r.left_gaze_vector_valid <==> (left / 2) % 2 == 1 || (left / 0x100) % 2
                        == 1
                    &&& r.right_gaze_vector_valid <==> (right / 2) % 2 == 1 || (right / 0x100) % 2
                        == 1
                    &&& r.left_eye_openness_valid <==> (left / 4) % 2 == 1
                    &&& r.right_eye_openness_valid <==> (right / 4) % 2 == 1
                    &&& r.left_pupil_dilation_valid <==> (left / 8) % 2 == 1 || (left / 0x800) % 2
                        == 1
                    &&& r.right_pupil_dilation_valid <==> (right / 8) % 2 == 1 || (right / 0x800)
                        % 2 == 1
                    &&& r.left_gaze_vector_x == Some(d.left_eye_gaze_vector[0])
                    &&& r.left_gaze_vector_y == Some(d.left_eye_gaze_vector[1])
                    &&& r.left_gaze_vector_z == Some(d.left_eye_gaze_vector[2])
                    &&& r.right_gaze_vector_x == Some(d.right_eye_gaze_vector[0])
                    &&& r.right_gaze_vector_y == Some(d.right_eye_gaze_vector[1])
                    &&& r.right_gaze_vector_z == Some(d.right_eye_gaze_vector[2])
                    &&& r.left_eye_openness == Some(d.left_eye_openness)
                    &&& r.right_eye_openness == Some(d.right_eye_openness)
                    &&& r.left_pupil_dilation == Some(d.left_eye_pupil_dilation)
                    &&& r.right_pupil_dilation == Some(d.right_eye_pupil_dilation)
                },
                None => {
                    &&& !r.left_gaze_vector_valid && !r.right_gaze_vector_valid
                    &&& !r.left_eye_openness_valid && !r.right_eye_openness_valid
                    &&& !r.left_pupil_dilation_valid && !r.right_pupil_dilation_valid
                    &&& r.left_gaze_vector_x is None && r.right_gaze_vector_x is None
                    &&& r.left_gaze_vector_y is None && r.right_gaze_vector_y is None
                    &&& r.left_gaze_vector_z is None && r.right_gaze_vector_z is None
                    &&& r.left_eye_openness is None && r.right_eye_openness is None
                    &&& r.left_pupil_dilation is None && r.right_pupil_dilation is None
                },
            }
        }),
{
    if let Some(d) = payload.pico_eye_tracking_data {
        law_valid_parts(d.left_eye_pose_status);
        law_valid_parts(d.right_eye_pose_status);
    }
}

/// What is recorded of a tick: each value under its own name, and of each vector its parts in order.
pub proof fn law_recorded_tick_is_the_tick(p: StateLogPayload)
    ensures
        ({
            let record: StateLogCsvRecord =
                vstd::std_specs::convert::FromSpec::<StateLogPayload>::from_spec(p);
            &&& record.system_unix_time_ms == p.system_unix_time_ms
            &&& record.monotonic_time_ns == p.monotonic_time_ns
            &&& record.head_position_x == p.head_position[0]
            &&& record.head_position_y == p.head_position[1]
            &&& record.head_position_z == p.head_position[2]
            &&& record.head_orientation_x == p.head_orientation[0]
            &&& record.head_orientation_y == p.head_orientation[1]
            &&& record.head_orientation_z == p.head_orientation[2]
            &&& record.head_orientation_w == p.head_orientation[3]
            &&& record.head_age_ms == p.head_age_ms
            &&& record.head_valid == p.head_valid
            &&& record.left_gaze_vector_x == p.left_gaze_vector[0]
            &&& record.left_gaze_vector_y == p.left_gaze_vector[1]
            &&& record.left_gaze_vector_z == p.left_gaze_vector[2]
            &&& record.right_gaze_vector_x == p.right_gaze_vector[0]
            &&& record.right_gaze_vector_y == p.right_gaze_vector[1]
            &&& record.right_gaze_vector_z == p.right_gaze_vector[2]
            &&& record.left_eye_openness == p.left_eye_openness
            &&& record.right_eye_openness == p.right_eye_openness
            &&& record.left_pupil_dilation == p.left_pupil_dilation
            &&& record.right_pupil_dilation == p.right_pupil_dilation
            &&& record.left_gaze_vector_valid == p.left_gaze_vector_valid
            &&& record.right_gaze_vector_valid == p.right_gaze_vector_valid
            &&& record.left_eye_openness_valid == p.left_eye_openness_valid
            &&& record.right_eye_openness_valid == p.right_eye_openness_valid
            &&& record.left_pupil_dilation_valid == p.left_pupil_dilation_valid
            &&& record.right_pupil_dilation_valid == p.right_pupil_dilation_valid
            &&& record.eye_age_ms == p.eye_age_ms
            &&& record.eye_source_time == p.eye_source_time
            &&& record.server_fps == p.server_fps
            &&& record.server_fps_age_ms == p.server_fps_age_ms
            &&& record.rendered_head_position_x == p.rendered_head_position[0]
            &&& record.rendered_head_position_y == p.rendered_head_position[1]
            &&& record.rendered_head_position_z == p.rendered_head_position[2]
            &&& record.rendered_head_orientation_x == p.rendered_head_orientation[0]
            &&& record.rendered_head_orientation_y == p.rendered_head_orientation[1]
            &&& record.rendered_head_orientation_z == p.rendered_head_orientation[2]
            &&& record.rendered_head_orientation_w == p.rendered_head_orientation[3]
            &&& record.rendered_head_valid == p.rendered_head_valid
            &&& record.pose_delta_position == p.pose_delta_position
            &&& record.pose_delta_orientation_deg == p.pose_delta_orientation_deg
        }),
{
}

} // verus!
