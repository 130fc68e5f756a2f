use alvr_dfr::dataset::{
    plan_collection, recorded_session, CollectionSettings, DatasetDirectory, DatasetPlan, DEFAULT_TELEMETRY_ENDPOINT,
};
use alvr_dfr::float::Float32;
use alvr_dfr::packets::ClientStatistics;
use alvr_dfr::statistics::{BatteryData, DatasetSessionMetadata, StatisticsManager};
use alvr_dfr::time::{Duration, Instant};

fn ms(ms: u64) -> Duration {
    Duration::from_millis(ms)
}

fn at(ms: u128) -> Instant {
    Instant { nanos: ms * 1_000_000 }
}

const HEAD: u64 = 77;

fn session() -> DatasetSessionMetadata<String> {
    DatasetSessionMetadata {
        session_dir: "d".to_string(),
        session_start_ms: 1,
        csv_path: "d/telemetry_event.csv".to_string(),
        state_log_csv_path: "d/telemetry_state_90hz.csv".to_string(),
        video_manifest_path: "d/video_manifest.csv".to_string(),
        video_segment_duration: Duration::from_secs(10),
    }
}

fn manager(history: usize, record: bool) -> StatisticsManager<String, u32> {
    StatisticsManager::new(
        history,
        ms(10),
        ms(25),
        0,
        false,
        if record { Some(session()) } else { None },
        ms(11),
        at(1000),
    )
}

fn client(target: u64, total: u64) -> ClientStatistics {
    ClientStatistics {
        target_timestamp: ms(target),
        frame_interval: ms(11),
        video_decode: ms(3),
        video_decoder_queue: ms(2),
        rendering: ms(4),
        vsync_queue: ms(1),
        total_pipeline_latency: ms(total),
    }
}

#[test]
fn the_parts_of_a_latency_add_up() {
    let mut m = manager(10, false);
    m.report_tracking_received(ms(5), at(1000));
    m.report_frame_present(ms(5), ms(0), at(1006));
    m.report_frame_composed(ms(5), ms(1), at(1010));
    assert_eq!(m.report_frame_encoded(ms(5), 5000, true, at(1014)), ms(5));
    let ((network, game), report) = m.report_statistics(&client(5, 60), HEAD, at(1050));
    assert_eq!(game, ms(6));
    // 60 - (6 + 3 + 5) - (3 + 2 + 4 + 1)
    assert_eq!(network, ms(36));
    let r = report.unwrap();
    assert_eq!(r.latencies.server_compositor, ms(3));
    assert_eq!(r.latencies.encoder, ms(5));
    assert_eq!(r.client_frame_interval, ms(11));
    assert_eq!(r.server_frame_interval, ms(6));
    assert_eq!(r.transfer_interval, ms(36));
    assert_eq!(r.stats_window, ms(50));
    assert_eq!(r.packets_lost, 0);
    assert_eq!(r.video_packet_bytes, 5000);
    assert!(r.is_idr);
    assert!(!r.log_dataset);
    assert!(!r.upload);
    assert!(r.summary.is_none());
    // Where the measured parts exceed the whole, nothing is left.
    let ((network, _), report) = m.report_statistics(&client(5, 10), HEAD, at(1051));
    assert_eq!(network, ms(0));
    assert_eq!(report.unwrap().transfer_interval, Duration { nanos: 1000 });
}

#[test]
fn an_unknown_frame_has_no_latency() {
    let mut m = manager(10, true);
    assert_eq!(m.report_frame_encoded(ms(5), 10, false, at(1001)), ms(0));
    assert!(!m.has_frame(ms(5)));
    m.report_frame_present(ms(5), ms(2000), at(1001));
    m.report_frame_composed(ms(5), ms(2000), at(1001));
    assert_eq!(m.get_last_frame_present_instant(), at(1000));
    let (latencies, report) = m.report_statistics(&client(5, 60), HEAD, at(9000));
    assert_eq!(latencies, (ms(0), ms(0)));
    assert!(report.is_none());
    assert_eq!(m.video_packets_total(), 1);
    assert_eq!(m.video_bytes_total(), 10);
}

#[test]
fn the_history_is_bounded_and_without_repetition() {
    let mut m = manager(2, false);
    m.report_tracking_received(ms(1), at(1001));
    m.report_tracking_received(ms(1), at(1002));
    m.report_tracking_received(ms(2), at(1003));
    m.report_tracking_received(ms(1), at(1004));
    assert!(m.has_frame(ms(1)) && m.has_frame(ms(2)) && !m.has_frame(ms(3)));
    m.report_frame_present(ms(1), ms(0), at(1010));
    let ((_, game), _) = m.report_statistics(&client(1, 60), HEAD, at(1020));
    assert_eq!(game, ms(9));
    m.report_tracking_received(ms(3), at(1005));
    assert!(m.report_statistics(&client(1, 60), HEAD, at(1020)).1.is_none());
    assert!(m.report_statistics(&client(2, 60), HEAD, at(1020)).1.is_some());
    assert!(m.report_statistics(&client(3, 60), HEAD, at(1020)).1.is_some());
}

#[test]
fn dataset_samples_are_spaced() {
    let mut m = manager(4, true);
    assert!(m.is_state_log_enabled());
    assert_eq!(m.dataset_session_metadata().unwrap().session_start_ms, 1);
    m.report_tracking_received(ms(1), at(1000));
    let mut sampled = Vec::new();
    for t in 1000..1030 {
        if m.report_statistics(&client(1, 60), HEAD, at(t)).1.unwrap().log_dataset {
            sampled.push(t);
        }
    }
    assert_eq!(sampled, [1000, 1011, 1022]);
    let mut without = manager(4, false);
    assert!(!without.is_state_log_enabled());
    assert!(without.dataset_session_metadata().is_none());
    without.report_tracking_received(ms(1), at(1000));
    assert!(!without.report_statistics(&client(1, 60), HEAD, at(2000)).1.unwrap().log_dataset);
}

#[test]
fn every_packet_is_in_one_full_report() {
    let mut m = manager(4, false);
    m.report_tracking_received(ms(1), at(1000));
    m.report_battery(HEAD, Float32 { bits: 0.5f32.to_bits() }, true);
    m.report_frame_encoded(ms(1), 100, false, at(1000));
    m.report_packet_loss();
    m.report_packet_loss();
    // Exactly half a second is not yet enough.
    let early = m.report_statistics(&client(1, 60), HEAD, at(1500)).1.unwrap();
    assert!(early.summary.is_none());
    assert_eq!(early.packets_lost, 2);
    let first = m.report_statistics(&client(1, 60), HEAD, at(1501)).1.unwrap();
    assert_eq!(first.stats_window, ms(501));
    let sums = first.summary.unwrap();
    assert_eq!((sums.video_packets_total, sums.video_packets_partial_sum), (1, 1));
    assert_eq!((sums.video_bytes_total, sums.video_bytes_partial_sum), (100, 100));
    assert_eq!((sums.packets_lost_total, sums.packets_lost_partial_sum), (2, 2));
    assert_eq!(
        sums.hmd_battery,
        BatteryData { gauge_value: Float32 { bits: 0.5f32.to_bits() }, is_plugged: true }
    );
    m.report_frame_encoded(ms(1), 7, false, at(1600));
    let second = m.report_statistics(&client(1, 60), HEAD, at(2002)).1.unwrap();
    assert_eq!(second.packets_lost, 0);
    let sums = second.summary.unwrap();
    assert_eq!((sums.video_packets_total, sums.video_packets_partial_sum), (2, 1));
    assert_eq!((sums.video_bytes_total, sums.video_bytes_partial_sum), (107, 7));
    assert_eq!((sums.packets_lost_total, sums.packets_lost_partial_sum), (2, 0));
}

#[test]
fn an_unknown_battery_is_empty() {
    let m = manager(4, false);
    assert_eq!(
        m.battery(HEAD),
        BatteryData { gauge_value: Float32 { bits: 0 }, is_plugged: false }
    );
}

#[test]
fn the_server_rate_follows_presented_frames() {
    let mut m = manager(4, false);
    assert_eq!(m.server_frame_interval(), Duration { nanos: 1000 });
    m.report_tracking_received(ms(1), at(1000));
    m.report_frame_present(ms(1), ms(2), at(1010));
    assert_eq!(m.server_frame_interval(), ms(8));
    assert_eq!(m.get_last_frame_present_instant(), at(1008));
    assert_eq!(m.tracker_pose_time_offset(), ms(25));
    m.report_throughput_stats(9);
    assert_eq!(*m.throughput_directives(), 9);
}

#[test]
fn the_next_vsync_is_found() {
    let mut m = manager(4, false);
    assert_eq!(m.duration_until_next_vsync(at(1000)), ms(10));
    assert_eq!(m.duration_until_next_vsync(at(1004)), ms(6));
    assert_eq!(m.duration_until_next_vsync(at(1010)), ms(0));
    assert_eq!(m.duration_until_next_vsync(at(1011)), ms(9));
    assert_eq!(m.duration_until_next_vsync(at(1996)), ms(4));
    assert_eq!(m.last_vsync_time(), at(1990));
    // A clock that goes back is as far from the same vsync.
    assert_eq!(m.duration_until_next_vsync(at(1990)), ms(10));
    assert_eq!(m.duration_until_next_vsync(at(1980)), ms(20));
}

fn settings() -> CollectionSettings {
    CollectionSettings {
        enable_data_collection: true,
        data_collection_endpoint: String::new(),
        enable_dataset_collection: true,
        dataset_directory: String::new(),
        rolling_video_duration_s: None,
    }
}

#[test]
fn blank_settings_lead_to_defaults() {
    let p = plan_collection(&settings(), true);
    assert_eq!(p.telemetry_endpoint.as_deref(), Some(DEFAULT_TELEMETRY_ENDPOINT));
    assert_eq!(DEFAULT_TELEMETRY_ENDPOINT, "127.0.0.1:49152");
    assert!(matches!(p.dataset, DatasetPlan::Record(DatasetDirectory::Logs)));
    assert_eq!(p.video_segment_duration, Duration::from_secs(10));
}

#[test]
fn settings_are_trimmed() {
    let p = plan_collection(
        &CollectionSettings {
            data_collection_endpoint: " 10.0.0.1:9 \n".to_string(),
            dataset_directory: "\t/tmp/x ".to_string(),
            rolling_video_duration_s: Some(30),
            ..settings()
        },
        true,
    );
    assert_eq!(p.telemetry_endpoint.as_deref(), Some("10.0.0.1:9"));
    assert!(matches!(p.dataset, DatasetPlan::Record(DatasetDirectory::Custom(d)) if d == "/tmp/x"));
    assert_eq!(p.video_segment_duration, Duration::from_secs(30));
}

#[test]
fn collection_can_be_off() {
    let off = CollectionSettings { enable_data_collection: false, ..settings() };
    let p = plan_collection(&off, true);
    assert!(p.telemetry_endpoint.is_none());
    assert!(matches!(p.dataset, DatasetPlan::Disabled));
    let no_dataset = CollectionSettings { enable_dataset_collection: false, ..settings() };
    let p = plan_collection(&no_dataset, true);
    assert!(p.telemetry_endpoint.is_some());
    assert!(matches!(p.dataset, DatasetPlan::Disabled));
    assert!(matches!(plan_collection(&settings(), false).dataset, DatasetPlan::LayoutUnavailable));
    let zero = CollectionSettings { rolling_video_duration_s: Some(0), ..settings() };
    assert_eq!(plan_collection(&zero, true).video_segment_duration, Duration::from_secs(1));
}

#[test]
fn a_session_is_recorded_where_the_plan_says_so() {
    let long = CollectionSettings { rolling_video_duration_s: Some(30), ..settings() };
    let plan = plan_collection(&long, true);
    let recorded = recorded_session(&plan, Some(session())).unwrap();
    assert_eq!(recorded.video_segment_duration, Duration::from_secs(30));
    assert_eq!(recorded.csv_path, "d/telemetry_event.csv");
    assert_eq!(recorded.session_start_ms, 1);
    assert!(recorded_session::<String>(&plan, None).is_none());
    assert!(recorded_session(&plan_collection(&settings(), false), Some(session())).is_none());
    let off = CollectionSettings { enable_dataset_collection: false, ..settings() };
    assert!(recorded_session(&plan_collection(&off, true), Some(session())).is_none());
}
