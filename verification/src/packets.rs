//! The values that headset and server exchange.

use crate::float::Float32;
use crate::time::Duration;
use std::collections::HashSet;
use vstd::prelude::*;

verus! {

pub const TRACKING: u16 = 0;

pub const HAPTICS: u16 = 1;

pub const AUDIO: u16 = 2;

pub const VIDEO: u16 = 3;

pub const STATISTICS: u16 = 4;

/// The bit field of an eye sample's validity flags.
pub type EyePoseStatusPICO = u32;

/// A pair of unsigned coordinates.
#[derive(Clone, Copy, PartialEq, Eq, Structural, Debug)]
pub struct UVec2 {
    pub x: u32,
    pub y: u32,
}

/// A vector in space.
#[derive(Clone, Copy, PartialEq, Eq, Structural, Debug)]
pub struct Vec3 {
    pub x: Float32,
    pub y: Float32,
    pub z: Float32,
}

/// A rotation.
#[derive(Clone, Copy, PartialEq, Eq, Structural, Debug)]
pub struct Quat {
    pub x: Float32,
    pub y: Float32,
    pub z: Float32,
    pub w: Float32,
}

/// An orientation and a position.
#[derive(Clone, Copy, PartialEq, Eq, Structural, Debug)]
pub struct Pose {
    pub orientation: Quat,
    pub position: Vec3,
}

/// The angles of a view's four edges.
#[derive(Clone, Copy, PartialEq, Eq, Structural, Debug)]
pub struct Fov {
    pub left: Float32,
    pub right: Float32,
    pub up: Float32,
    pub down: Float32,
}

/// A pose and its velocities.
#[derive(Clone, Copy, PartialEq, Eq, Structural, Debug)]
pub struct DeviceMotion {
    pub pose: Pose,
    pub linear_velocity: Vec3,
    pub angular_velocity: Vec3,
}

/// The view of one eye.
#[derive(Clone, Copy, PartialEq, Eq, Structural, Debug)]
pub struct ViewParams {
    pub pose: Pose,
    pub fov: Fov,
}

/// The stream's configuration as two JSON texts.
#[derive(Debug)]
pub struct StreamConfigPacket {
    /// The session, which allows for extrapolation.
    pub session: String,
    /// The negotiated parameters.
    pub negotiated: String,
}

/// A control message that the client sends inside a reserved packet.
#[derive(Debug)]
pub enum ReservedClientControlPacket {
    CustomInteractionProfile { device_id: u64, input_ids: HashSet<u64> },
}

/// An eye sample as the headset reports it.
#[derive(Clone, Debug)]
pub struct EyeTrackingDataPICO<F> {
    pub time: u64,
    pub left_eye_pose_status: EyePoseStatusPICO,
    pub right_eye_pose_status: EyePoseStatusPICO,
    pub combined_eye_pose_status: EyePoseStatusPICO,
    pub left_eye_gaze_point: [F; 3],
    pub right_eye_gaze_point: [F; 3],
    pub combined_eye_gaze_point: [F; 3],
    pub left_eye_gaze_vector: [F; 3],
    pub right_eye_gaze_vector: [F; 3],
    pub combined_eye_gaze_vector: [F; 3],
    pub left_eye_openness: F,
    pub right_eye_openness: F,
    pub left_eye_pupil_dilation: F,
    pub right_eye_pupil_dilation: F,
    pub left_eye_position_guide: [F; 3],
    pub right_eye_position_guide: [F; 3],
    pub foveated_gaze_direction: [F; 3],
    pub foveated_gaze_tracking_state: i32,
}

/// Whether eye input is there and delivers samples.
#[derive(Clone, Copy, PartialEq, Eq, Structural, Debug)]
pub enum EyeTrackingInputStatus {
    Unsupported,
    /// Eye tracking hardware is present but delivers no gaze (eyes closed or headset removed).
    Standby,
    /// Valid gaze data is being produced this frame.
    Active,
}

/// What the headset knows of the wearer's face.
#[derive(Debug)]
pub struct FaceData {
    pub eye_gazes: [Option<Pose>; 2],
    pub fb_face_expression: Option<Vec<Float32>>,
    pub htc_eye_expression: Option<Vec<Float32>>,
    pub htc_lip_expression: Option<Vec<Float32>>,
    pub pico_eye_tracking_data: Option<EyeTrackingDataPICO<Float32>>,
    pub eye_tracking_state: EyeTrackingInputStatus,
}

/// The shift of the foveal region with which a frame was encoded.
#[derive(Clone, Copy, PartialEq, Eq, Structural, Debug)]
pub struct DFRShiftData {
    pub shift_x: Float32,
    pub shift_y: Float32,
    pub left_shift_x: Float32,
    pub left_shift_y: Float32,
    pub right_shift_x: Float32,
    pub right_shift_y: Float32,
    pub sequence_id: u64,
    pub is_eye_tracked: bool,
}

/// The centre of the foveal region for each eye.
#[derive(Clone, Copy, PartialEq, Eq, Structural, Debug)]
pub struct DynamicFoveatedCenter {
    pub center_shift_x: Float32,
    pub center_shift_y: Float32,
    pub left_shift_x: Float32,
    pub left_shift_y: Float32,
    pub right_shift_x: Float32,
    pub right_shift_y: Float32,
    pub sequence_id: Option<u64>,
}

/// What is known of the wireless network's signal.
#[derive(Clone, Debug)]
pub struct WiFiMetrics {
    pub timestamp_ns: u64,
    pub rssi_dbm: i32,
    pub frequency_mhz: u32,
    pub link_speed_mbps: u32,
    pub mcs_index: Option<u8>,
    pub snr_db: Option<Float32>,
    pub tx_bitrate_mbps: Option<Float32>,
    pub rx_bitrate_mbps: Option<Float32>,
    pub tx_retries: Option<u32>,
    pub tx_failures: Option<u32>,
    pub wifi_standard: String,
    pub channel_width: u32,
    pub guard_interval: Option<u32>,
}

/// The audio devices of a machine.
#[derive(Clone, Debug)]
pub struct AudioDevicesList {
    pub output: Vec<String>,
    pub input: Vec<String>,
}

/// What the client measured of one frame.
#[derive(Clone, Copy, PartialEq, Eq, Structural, Debug)]
pub struct ClientStatistics {
    /// Identifies the frame.
    pub target_timestamp: Duration,
    pub frame_interval: Duration,
    pub video_decode: Duration,
    pub video_decoder_queue: Duration,
    pub rendering: Duration,
    pub vsync_queue: Duration,
    pub total_pipeline_latency: Duration,
}

/// A change to the firewall's rules.
#[derive(Debug)]
pub enum FirewallRulesAction {
    Add,
    Remove,
}

impl FaceData {
    /// Nothing is known.
    pub open spec fn nothing_known(self) -> bool {
        &&& self.eye_gazes@ == seq![None::<Pose>, None::<Pose>]
        &&& self.fb_face_expression is None
        &&& self.htc_eye_expression is None
        &&& self.htc_lip_expression is None
        &&& self.pico_eye_tracking_data is None
        &&& self.eye_tracking_state == EyeTrackingInputStatus::Unsupported
    }
}

impl Default for FaceData {
    fn default() -> (r: Self)
        ensures
            r.nothing_known(),
    {
        FaceData {
            eye_gazes: [None, None],
            fb_face_expression: None,
            htc_eye_expression: None,
            htc_lip_expression: None,
            pico_eye_tracking_data: None,
            eye_tracking_state: EyeTrackingInputStatus::Unsupported,
        }
    }
}

impl Pose {
    /// No rotation, at the origin.
    pub open spec fn identity_pose() -> Pose {
        let zero = Float32 { bits: 0 };
        Pose {
            orientation: Quat { x: zero, y: zero, z: zero, w: Float32 { bits: 0x3f80_0000 } },
            position: Vec3 { x: zero, y: zero, z: zero },
        }
    }

    /// No rotation, at the origin.
    pub fn identity() -> (r: Pose)
        ensures
            r == Pose::identity_pose(),
    {
        Pose {
            orientation: Quat {
                x: Float32::zero(),
                y: Float32::zero(),
                z: Float32::zero(),
                w: Float32::one(),
            },
            position: Vec3 { x: Float32::zero(), y: Float32::zero(), z: Float32::zero() },
        }
    }
}

/// Where nothing is known of a face there is no gaze of either eye, no expression and no eye sample,
/// and eye input is unsupported. The identity turns nothing and is at the origin.
pub proof fn law_nothing_known_of_a_face(face: FaceData)
    requires
        face.nothing_known(),
    ensures
        face.eye_gazes[0] is None && face.eye_gazes[1] is None,
        face.fb_face_expression is None,
        face.htc_eye_expression is None,
        face.htc_lip_expression is None,
        face.pico_eye_tracking_data is None,
        face.eye_tracking_state is Unsupported,
        Pose::identity_pose().orientation.x.bits == 0 && Pose::identity_pose().orientation.y.bits
            == 0 && Pose::identity_pose().orientation.z.bits == 0,
        Pose::identity_pose().orientation.w.bits == 0x3f80_0000,
        Pose::identity_pose().position.x.bits == 0 && Pose::identity_pose().position.y.bits == 0
            && Pose::identity_pose().position.z.bits == 0,
{
    assert(face.eye_gazes@[0] is None && face.eye_gazes@[1] is None);
}

} // verus!
