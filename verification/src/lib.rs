//! Verified core of an eye-tracked dynamic foveated rendering pipeline.

pub mod capabilities;
pub mod dataset;
pub mod eye_pose_status_pico;
pub mod eye_tracked_ffr;
pub mod face_tracking_pico;
pub mod float;
pub mod json;
pub mod packets;
pub mod path;
pub mod shift_threshold;
pub mod statistics;
pub mod stream;
pub mod stream_config;
pub mod telemetry;
pub mod text;
pub mod time;
pub mod tracking;
pub mod tracking_log;
pub mod tracking_loop;
