# alvr_dfr

The core of an eye-tracked dynamic foveated rendering pipeline for a streamed VR headset, written and
verified in Verus.

The server moves the high-quality region of the image with the wearer's gaze. Each frame is encoded with
a shift of that region and has to be decoded with the same shift; without valid eye input the region stays
at the image's centre.

## Layout

- `src/eye_tracked_ffr.rs`, `src/shift_threshold.rs`: the foveal shift, its synchronization when the gaze
  moves noticeably, and the cache that binds shifts to frames.
- `src/tracking.rs`, `src/tracking_loop.rs`, `src/tracking_log.rs`: what is tracked, what is done with each
  packet, and the log files.
- `src/statistics.rs`, `src/telemetry.rs`, `src/dataset.rs`: frame latencies, their records, and where they
  are collected.
- `src/stream.rs`, `src/face_tracking_pico.rs`: the headset's side of a stream.
- `src/packets.rs`, `src/capabilities.rs`, `src/stream_config.rs`, `src/path.rs`, `src/json.rs`,
  `src/eye_pose_status_pico.rs`: what goes over the wire.
- `src/float.rs`, `src/time.rs`, `src/text.rs`: plain values.
- `app/`: clocks, files, sockets, threads, floating point geometry and the headset's runtime.

Floating point numbers are carried by their bit patterns, points in time are handed in by the caller, and
state that a session shares lives in explicit values. Functions named `law_*` state what holds across
several operations.
