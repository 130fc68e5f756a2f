//! What is known of the frames in flight, and the figures drawn from them.

use crate::float::Float32;
use crate::packets::ClientStatistics;
use crate::time::{larger, saturating_difference, Duration, Instant};
use std::collections::{HashMap, VecDeque};
use vstd::prelude::*;

verus! {

/// How long a full report covers, in nanoseconds.
pub const FULL_REPORT_INTERVAL_NANOS: u128 = 500_000_000;

/// The shortest interval by which a rate is computed, in nanoseconds.
pub const EPS_INTERVAL_NANOS: u128 = 1_000;

/// The files of a recording session. `P` is the path type of the file system in use.
#[derive(Clone, Debug)]
pub struct DatasetSessionMetadata<P> {
    pub session_dir: P,
    pub session_start_ms: u64,
    pub csv_path: P,
    pub state_log_csv_path: P,
    pub video_manifest_path: P,
    pub video_segment_duration: Duration,
}

/// The way of one frame through the server.
#[derive(Clone, Copy, PartialEq, Eq, Structural, Debug)]
pub struct HistoryFrame {
    pub target_timestamp: Duration,
    pub tracking_received: Instant,
    pub frame_present: Instant,
    pub frame_composed: Instant,
    pub frame_encoded: Instant,
    pub video_packet_bytes: usize,
    pub total_pipeline_latency: Duration,
    pub is_idr: bool,
}

impl HistoryFrame {
    /// A frame for which tracking data has just come in.
    pub open spec fn fresh(target_timestamp: Duration, now: Instant) -> HistoryFrame {
        HistoryFrame {
            target_timestamp,
            tracking_received: now,
            frame_present: now,
            frame_composed: now,
            frame_encoded: now,
            video_packet_bytes: 0,
            total_pipeline_latency: Duration { nanos: 0 },
            is_idr: false,
        }
    }

    /// A frame for which tracking data has just come in.
    pub fn new(target_timestamp: Duration, now: Instant) -> (r: HistoryFrame)
        ensures
            r == HistoryFrame::fresh(target_timestamp, now),
    {
        HistoryFrame {
            target_timestamp,
            tracking_received: now,
            frame_present: now,
            frame_composed: now,
            frame_encoded: now,
            video_packet_bytes: 0,
            total_pipeline_latency: Duration::zero(),
            is_idr: false,
        }
    }
}

/// The charge of a device.
#[derive(Clone, Copy, PartialEq, Eq, Structural, Debug)]
pub struct BatteryData {
    pub gauge_value: Float32,
    pub is_plugged: bool,
}

/// Where the time of a frame went on the server and the network.
#[derive(Clone, Copy, PartialEq, Eq, Structural, Debug)]
pub struct ServerLatencies {
    pub game_time: Duration,
    pub server_compositor: Duration,
    pub encoder: Duration,
    pub network: Duration,
}

/// The counters of a full report.
#[derive(Clone, Copy, PartialEq, Eq, Structural, Debug)]
pub struct SummaryCounters {
    pub video_packets_total: usize,
    pub video_packets_partial_sum: usize,
    pub video_bytes_total: usize,
    pub video_bytes_partial_sum: usize,
    pub packets_lost_total: usize,
    pub packets_lost_partial_sum: usize,
    /// The headset's charge, empty and unplugged where it is not known.
    pub hmd_battery: BatteryData,
}

/// The figures of one frame. Intervals that divide are never shorter than the shortest interval.
#[derive(Clone, Copy, PartialEq, Eq, Structural, Debug)]
pub struct FrameReport {
    pub latencies: ServerLatencies,
    pub client_frame_interval: Duration,
    pub server_frame_interval: Duration,
    /// The time in which the frame's bytes went over the network.
    pub transfer_interval: Duration,
    /// The time since the partial sums were reset.
    pub stats_window: Duration,
    /// The packets that were lost in that time.
    pub packets_lost: usize,
    pub video_packet_bytes: usize,
    pub is_idr: bool,
    /// The frame is to be recorded in the dataset.
    pub log_dataset: bool,
    /// The frame is to be uploaded.
    pub upload: bool,
    /// A full report is due.
    pub summary: Option<SummaryCounters>,
}

/// Collects what happens to frames. `P` is the path type of the recording session, `D` what the
/// bitrate manager reports.
pub struct StatisticsManager<P, D> {
    history_buffer: VecDeque<HistoryFrame>,
    max_history_size: usize,
    last_full_report_instant: Instant,
    partial_stats_last_reset: Instant,
    last_frame_present_instant: Instant,
    last_frame_present_interval: Duration,
    video_packets_total: usize,
    video_packets_partial_sum: usize,
    video_bytes_total: usize,
    video_bytes_partial_sum: usize,
    packets_lost_total: usize,
    packets_lost_partial_sum: usize,
    battery_gauges: HashMap<u64, BatteryData>,
    steamvr_pipeline_latency: Duration,
    last_vsync_time: Instant,
    frame_interval: Duration,
    last_throughput_directives: D,
    telemetry_upload: bool,
    dataset_session: Option<DatasetSessionMetadata<P>>,
    dataset_sample_interval: Duration,
    last_dataset_sample_instant: Instant,
}

/// What a `StatisticsManager` holds. The history runs from the newest frame to the oldest.
pub struct StatisticsState<P, D> {
    pub history: Seq<HistoryFrame>,
    pub max_history_size: usize,
    pub last_full_report_instant: Instant,
    pub partial_stats_last_reset: Instant,
    pub last_frame_present_instant: Instant,
    pub last_frame_present_interval: Duration,
    pub video_packets_total: usize,
    pub video_packets_partial_sum: usize,
    pub video_bytes_total: usize,
    pub video_bytes_partial_sum: usize,
    pub packets_lost_total: usize,
    pub packets_lost_partial_sum: usize,
    pub batteries: Map<u64, BatteryData>,
    pub steamvr_pipeline_latency: Duration,
    pub last_vsync_time: Instant,
    pub frame_interval: Duration,
    pub directives: D,
    pub telemetry_upload: bool,
    pub dataset_session: Option<DatasetSessionMetadata<P>>,
    pub dataset_sample_interval: Duration,
    pub last_dataset_sample_instant: Instant,
}

impl<P, D> View for StatisticsManager<P, D> {
    type V = StatisticsState<P, D>;

    closed spec fn view(&self) -> StatisticsState<P, D> {
        StatisticsState {
            history: self.history_buffer@,
            max_history_size: self.max_history_size,
            last_full_report_instant: self.last_full_report_instant,
            partial_stats_last_reset: self.partial_stats_last_reset,
            last_frame_present_instant: self.last_frame_present_instant,
            last_frame_present_interval: self.last_frame_present_interval,
            video_packets_total: self.video_packets_total,
            video_packets_partial_sum: self.video_packets_partial_sum,
            video_bytes_total: self.video_bytes_total,
            video_bytes_partial_sum: self.video_bytes_partial_sum,
            packets_lost_total: self.packets_lost_total,
            packets_lost_partial_sum: self.packets_lost_partial_sum,
            batteries: self.battery_gauges@,
            steamvr_pipeline_latency: self.steamvr_pipeline_latency,
            last_vsync_time: self.last_vsync_time,
            frame_interval: self.frame_interval,
            directives: self.last_throughput_directives,
            telemetry_upload: self.telemetry_upload,
            dataset_session: self.dataset_session,
            dataset_sample_interval: self.dataset_sample_interval,
            last_dataset_sample_instant: self.last_dataset_sample_instant,
        }
    }
}

/// `i` is the place of the newest frame for a timestamp.
pub open spec fn is_frame_at(
    history: Seq<HistoryFrame>,
    target_timestamp: Duration,
    i: int,
) -> bool {
    &&& 0 <= i < history.len()
    &&& history[i].target_timestamp == target_timestamp
    &&& forall|j: int|
        0 <= j < i ==> (#[trigger] history[j]).target_timestamp != target_timestamp
}

/// The place of the newest frame for a timestamp, if there is one.
pub open spec fn frame_index(history: Seq<HistoryFrame>, target_timestamp: Duration) -> Option<int> {
    if exists|i: int| is_frame_at(history, target_timestamp, i) {
        Some(choose|i: int| is_frame_at(history, target_timestamp, i))
    } else {
        None
    }
}

/// There is only one such place.
pub proof fn lemma_frame_index(history: Seq<HistoryFrame>, target_timestamp: Duration, i: int)
    requires
        is_frame_at(history, target_timestamp, i),
    ensures
        frame_index(history, target_timestamp) == Some(i),
{
    let k = choose|k: int| is_frame_at(history, target_timestamp, k);
    assert(is_frame_at(history, target_timestamp, k));
    if k < i {
        assert(history[k].target_timestamp != target_timestamp);
    }
    if i < k {
        assert(history[i].target_timestamp != target_timestamp);
    }
}

/// No two frames of a history are for the same timestamp.
pub open spec fn distinct_timestamps(history: Seq<HistoryFrame>) -> bool {
    forall|i: int, j: int|
        0 <= i < j < history.len() ==> (#[trigger] history[i]).target_timestamp != (
        #[trigger] history[j]).target_timestamp
}

/// The history after tracking data for a timestamp came in.
pub open spec fn history_received(
    history: Seq<HistoryFrame>,
    max_history_size: nat,
    target_timestamp: Duration,
    now: Instant,
) -> Seq<HistoryFrame> {
    let longer = if frame_index(history, target_timestamp) is Some {
        history
    } else {
        seq![HistoryFrame::fresh(target_timestamp, now)] + history
    };
    if longer.len() > max_history_size {
        longer.drop_last()
    } else {
        longer
    }
}

/// The interval between two points in time, but not less than the shortest.
pub open spec fn at_least_eps(d: nat) -> Duration {
    Duration { nanos: larger(d, EPS_INTERVAL_NANOS as nat) as u128 }
}

/// Where the time of a frame went. What the parts that were measured leave of the whole is the
/// network's, and nothing where they exceed it.
pub open spec fn server_latencies(frame: HistoryFrame, client: ClientStatistics) -> ServerLatencies {
    let game_time = saturating_difference(frame.frame_present@, frame.tracking_received@);
    let server_compositor = saturating_difference(frame.frame_composed@, frame.frame_present@);
    let encoder = saturating_difference(frame.frame_encoded@, frame.frame_composed@);
    ServerLatencies {
        game_time: Duration { nanos: game_time as u128 },
        server_compositor: Duration { nanos: server_compositor as u128 },
        encoder: Duration { nanos: encoder as u128 },
        network: Duration {
            nanos: saturating_difference(
                client.total_pipeline_latency@,
                game_time + server_compositor + encoder + client_latency(client),
            ) as u128,
        },
    }
}

/// The time that a frame spent in the client.
pub open spec fn client_latency(client: ClientStatistics) -> nat {
    client.video_decode@ + client.video_decoder_queue@ + client.rendering@ + client.vsync_queue@
}

impl<P, D> StatisticsState<P, D> {
    /// The history is within its bound and without repetition, and no partial sum exceeds its total.
    pub open spec fn valid(self) -> bool {
        &&& self.history.len() <= self.max_history_size
        &&& distinct_timestamps(self.history)
        &&& self.video_packets_partial_sum <= self.video_packets_total
        &&& self.video_bytes_partial_sum <= self.video_bytes_total
        &&& self.packets_lost_partial_sum <= self.packets_lost_total
    }

    /// The frame at `i` is replaced.
    pub open spec fn with_frame(self, i: int, frame: HistoryFrame) -> StatisticsState<P, D> {
        StatisticsState { history: self.history.update(i, frame), ..self }
    }

    /// Collecting has just started.
    pub open spec fn started(
        max_history_size: usize,
        nominal_server_frame_interval: Duration,
        steamvr_pipeline_latency: Duration,
        directives: D,
        telemetry_upload: bool,
        dataset_session: Option<DatasetSessionMetadata<P>>,
        dataset_sample_interval: Duration,
        now: Instant,
    ) -> StatisticsState<P, D> {
        StatisticsState {
            history: Seq::empty(),
            max_history_size,
            last_full_report_instant: now,
            partial_stats_last_reset: now,
            last_frame_present_instant: now,
            last_frame_present_interval: Duration { nanos: 0 },
            video_packets_total: 0,
            video_packets_partial_sum: 0,
            video_bytes_total: 0,
            video_bytes_partial_sum: 0,
            packets_lost_total: 0,
            packets_lost_partial_sum: 0,
            batteries: Map::empty(),
            steamvr_pipeline_latency,
            last_vsync_time: now,
            frame_interval: nominal_server_frame_interval,
            directives,
            telemetry_upload,
            dataset_session,
            dataset_sample_interval,
            last_dataset_sample_instant: Instant {
                nanos: (now.nanos - dataset_sample_interval.nanos) as u128,
            },
        }
    }

    /// The state after tracking data for a timestamp came in.
    pub open spec fn received(self, target_timestamp: Duration, now: Instant) -> StatisticsState<P, D> {
        StatisticsState {
            history: history_received(
                self.history,
                self.max_history_size as nat,
                target_timestamp,
                now,
            ),
            ..self
        }
    }

    /// The state after the game handed a frame over.
    pub open spec fn presented(self, target_timestamp: Duration, present: Instant) -> StatisticsState<
        P,
        D,
    > {
        match frame_index(self.history, target_timestamp) {
            Some(i) => StatisticsState {
                last_frame_present_interval: Duration {
                    nanos: saturating_difference(
                        present@,
                        self.last_frame_present_instant@,
                    ) as u128,
                },
                last_frame_present_instant: present,
                ..self.with_frame(i, HistoryFrame { frame_present: present, ..self.history[i] })
            },
            None => self,
        }
    }

    /// The state after the compositor finished a frame.
    pub open spec fn composed(self, target_timestamp: Duration, composed: Instant) -> StatisticsState<
        P,
        D,
    > {
        match frame_index(self.history, target_timestamp) {
            Some(i) => self.with_frame(
                i,
                HistoryFrame { frame_composed: composed, ..self.history[i] },
            ),
            None => self,
        }
    }

    /// The state after the encoder finished a frame.
    pub open spec fn encoded(
        self,
        target_timestamp: Duration,
        bytes_count: usize,
        is_idr: bool,
        now: Instant,
    ) -> StatisticsState<P, D> {
        let counted = StatisticsState {
            video_packets_total: (self.video_packets_total + 1) as usize,
            video_packets_partial_sum: (self.video_packets_partial_sum + 1) as usize,
            video_bytes_total: (self.video_bytes_total + bytes_count) as usize,
            video_bytes_partial_sum: (self.video_bytes_partial_sum + bytes_count) as usize,
            ..self
        };
        match frame_index(self.history, target_timestamp) {
            Some(i) => counted.with_frame(
                i,
                HistoryFrame {
                    frame_encoded: now,
                    video_packet_bytes: bytes_count,
                    is_idr,
                    ..self.history[i]
                },
            ),
            None => counted,
        }
    }

    /// How long the encoder took for a frame that it finished at `now`, nothing for an unknown one.
    pub open spec fn encoding_time(self, target_timestamp: Duration, now: Instant) -> nat {
        match frame_index(self.history, target_timestamp) {
            Some(i) => saturating_difference(now@, self.history[i].frame_composed@),
            None => 0,
        }
    }

    /// The time from `now` to the next vertical synchronization.
    pub open spec fn until_vsync(self, now: Instant) -> nat {
        saturating_difference(self.vsync_before(now) + self.frame_interval@, now@)
    }

    /// The state after a packet was lost.
    pub open spec fn lost(self) -> StatisticsState<P, D> {
        StatisticsState {
            packets_lost_total: (self.packets_lost_total + 1) as usize,
            packets_lost_partial_sum: (self.packets_lost_partial_sum + 1) as usize,
            ..self
        }
    }

    /// The state after a device reported its charge.
    pub open spec fn charged(self, device_id: u64, data: BatteryData) -> StatisticsState<P, D> {
        StatisticsState { batteries: self.batteries.insert(device_id, data), ..self }
    }

    /// The dataset takes another sample.
    pub open spec fn dataset_sample_due(self, now: Instant) -> bool {
        self.dataset_session is Some && now@ >= self.last_dataset_sample_instant@
            + self.dataset_sample_interval@
    }

    /// A full report is due.
    pub open spec fn full_report_due(self, now: Instant) -> bool {
        now@ > self.last_full_report_instant@ + FULL_REPORT_INTERVAL_NANOS
    }

    /// The charge of a device, empty and unplugged where it is not known.
    pub open spec fn battery(self, device_id: u64) -> BatteryData {
        if self.batteries.contains_key(device_id) {
            self.batteries[device_id]
        } else {
            BatteryData { gauge_value: Float32 { bits: 0 }, is_plugged: false }
        }
    }

    /// The figures of the frame at `i`.
    pub open spec fn frame_report(
        self,
        i: int,
        client: ClientStatistics,
        head_id: u64,
        now: Instant,
    ) -> FrameReport {
        let frame = self.history[i];
        let latencies = server_latencies(frame, client);
        FrameReport {
            latencies,
            client_frame_interval: at_least_eps(client.frame_interval@),
            server_frame_interval: at_least_eps(self.last_frame_present_interval@),
            transfer_interval: at_least_eps(latencies.network@),
            stats_window: at_least_eps(
                saturating_difference(now@, self.partial_stats_last_reset@),
            ),
            packets_lost: self.packets_lost_partial_sum,
            video_packet_bytes: frame.video_packet_bytes,
            is_idr: frame.is_idr,
            log_dataset: self.dataset_sample_due(now),
            upload: self.telemetry_upload,
            summary: if self.full_report_due(now) {
                Some(
                    SummaryCounters {
                        video_packets_total: self.video_packets_total,
                        video_packets_partial_sum: self.video_packets_partial_sum,
                        video_bytes_total: self.video_bytes_total,
                        video_bytes_partial_sum: self.video_bytes_partial_sum,
                        packets_lost_total: self.packets_lost_total,
                        packets_lost_partial_sum: self.packets_lost_partial_sum,
                        hmd_battery: self.battery(head_id),
                    },
                )
            } else {
                None
            },
        }
    }

    /// The state after the figures of the frame at `i` were reported.
    pub open spec fn reported(
        self,
        i: int,
        client: ClientStatistics,
        now: Instant,
    ) -> StatisticsState<P, D> {
        let timed = self.with_frame(
            i,
            HistoryFrame {
                total_pipeline_latency: client.total_pipeline_latency,
                ..self.history[i]
            },
        );
        let sampled = StatisticsState {
            last_dataset_sample_instant: if self.dataset_sample_due(now) {
                now
            } else {
                self.last_dataset_sample_instant
            },
            ..timed
        };
        if self.full_report_due(now) {
            StatisticsState {
                last_full_report_instant: now,
                partial_stats_last_reset: now,
                video_packets_partial_sum: 0,
                video_bytes_partial_sum: 0,
                packets_lost_partial_sum: 0,
                ..sampled
            }
        } else {
            sampled
        }
    }

    /// The last vertical synchronization before which the next one is not yet over at `now`.
    pub open spec fn vsync_before(self, now: Instant) -> nat {
        self.last_vsync_time@ + vsync_steps(
            self.last_vsync_time@,
            self.frame_interval@,
            now@,
        ) * self.frame_interval@
    }
}

/// The fewest intervals after `last` such that one more does not end before `now`.
pub open spec fn vsync_steps(last: nat, interval: nat, now: nat) -> nat {
    if now <= last || interval == 0 {
        0
    } else {
        (now - last - 1) as nat / interval
    }
}

impl<P, D> StatisticsManager<P, D> {
    /// Starts collecting. The recording session, if any, has its files already.
    pub fn new(
        max_history_size: usize,
        nominal_server_frame_interval: Duration,
        steamvr_pipeline_latency: Duration,
        directives: D,
        telemetry_upload: bool,
        dataset_session: Option<DatasetSessionMetadata<P>>,
        dataset_sample_interval: Duration,
        now: Instant,
    ) -> (r: StatisticsManager<P, D>)
        requires
            dataset_sample_interval@ <= now@,
        ensures
            r@.valid(),
            r@ == (StatisticsState {
                history: Seq::empty(),
                max_history_size,
                last_full_report_instant: now,
                partial_stats_last_reset: now,
                last_frame_present_instant: now,
                last_frame_present_interval: Duration { nanos: 0 },
                video_packets_total: 0,
                video_packets_partial_sum: 0,
                video_bytes_total: 0,
                video_bytes_partial_sum: 0,
                packets_lost_total: 0,
                packets_lost_partial_sum: 0,
                batteries: Map::empty(),
                steamvr_pipeline_latency,
                last_vsync_time: now,
                frame_interval: nominal_server_frame_interval,
                directives,
                telemetry_upload,
                dataset_session,
                dataset_sample_interval,
                last_dataset_sample_instant: Instant {
                    nanos: (now.nanos - dataset_sample_interval.nanos) as u128,
                },
            }),
            r@ == StatisticsState::<P, D>::started(
                max_history_size,
                nominal_server_frame_interval,
                steamvr_pipeline_latency,
                directives,
                telemetry_upload,
                dataset_session,
                dataset_sample_interval,
                now,
            ),
    {
        StatisticsManager {
            history_buffer: VecDeque::new(),
            max_history_size,
            last_full_report_instant: now,
            partial_stats_last_reset: now,
            last_frame_present_instant: now,
            last_frame_present_interval: Duration::zero(),
            video_packets_total: 0,
            video_packets_partial_sum: 0,
            video_bytes_total: 0,
            video_bytes_partial_sum: 0,
            packets_lost_total: 0,
            packets_lost_partial_sum: 0,
            battery_gauges: HashMap::new(),
            steamvr_pipeline_latency,
            last_vsync_time: now,
            frame_interval: nominal_server_frame_interval,
            last_throughput_directives: directives,
            telemetry_upload,
            dataset_session,
            dataset_sample_interval,
            last_dataset_sample_instant: Instant {
                nanos: now.nanos - dataset_sample_interval.nanos,
            },
        }
    }

    /// The recording session.
    pub fn dataset_session_metadata(&self) -> (r: Option<&DatasetSessionMetadata<P>>)
        ensures
            r == (match self@.dataset_session {
                Some(session) => Some(&session),
                None => None,
            }),
    {
        self.dataset_session.as_ref()
    }

    /// Whether the state log is written, which it is during a recording session.
    pub fn is_state_log_enabled(&self) -> (r: bool)
        ensures
            r == self@.dataset_session is Some,
    {
        self.dataset_session.is_some()
    }

    /// The interval whose reciprocal is the server's frame rate.
    pub fn server_frame_interval(&self) -> (r: Duration)
        ensures
            r == at_least_eps(self@.last_frame_present_interval@),
    {
        self.last_frame_present_interval.max(Duration { nanos: EPS_INTERVAL_NANOS })
    }

    /// When a frame was last presented.
    pub fn get_last_frame_present_instant(&self) -> (r: Instant)
        ensures
            r == self@.last_frame_present_instant,
    {
        self.last_frame_present_instant
    }

    /// The last vertical synchronization that is known.
    pub fn last_vsync_time(&self) -> (r: Instant)
        ensures
            r == self@.last_vsync_time,
    {
        self.last_vsync_time
    }

    /// The video bytes sent in all.
    pub fn video_bytes_total(&self) -> (r: usize)
        ensures
            r == self@.video_bytes_total,
    {
        self.video_bytes_total
    }

    /// The video packets sent in all.
    pub fn video_packets_total(&self) -> (r: usize)
        ensures
            r == self@.video_packets_total,
    {
        self.video_packets_total
    }

    /// The packets lost in all.
    pub fn packets_lost_total(&self) -> (r: usize)
        ensures
            r == self@.packets_lost_total,
    {
        self.packets_lost_total
    }

    /// What the bitrate manager reported last.
    pub fn throughput_directives(&self) -> (r: &D)
        ensures
            *r == self@.directives,
    {
        &self.last_throughput_directives
    }

    /// Whether a frame is known for a timestamp.
    pub fn has_frame(&self, target_timestamp: Duration) -> (r: bool)
        ensures
            r == frame_index(self@.history, target_timestamp) is Some,
    {
        self.find_frame(target_timestamp).is_some()
    }

    /// Finds the newest frame for a timestamp.
    fn find_frame(&self, target_timestamp: Duration) -> (r: Option<usize>)
        ensures
            match r {
                Some(i) => is_frame_at(self@.history, target_timestamp, i as int) && frame_index(
                    self@.history,
                    target_timestamp,
                ) == Some(i as int),
                None => frame_index(self@.history, target_timestamp) is None,
            },
    {
        let mut i: usize = 0;
        while i < self.history_buffer.len()
            invariant
                i <= self@.history.len(),
                forall|j: int|
                    0 <= j < i ==> (#[trigger] self@.history[j]).target_timestamp
                        != target_timestamp,
            decreases self@.history.len() - i,
        {
            if self.history_buffer[i].target_timestamp == target_timestamp {
                proof {
                    lemma_frame_index(self@.history, target_timestamp, i as int);
                }
                return Some(i);
            }
            i += 1;
        }
        None
    }

    /// Replaces the frame at `i`.
    fn set_frame(&mut self, i: usize, frame: HistoryFrame)
        requires
            i < old(self)@.history.len(),
        ensures
            final(self)@ == old(self)@.with_frame(i as int, frame),
    {
        let ghost before = self.history_buffer@;
        self.history_buffer.remove(i);
        self.history_buffer.insert(i, frame);
        assert(self.history_buffer@ =~= before.update(i as int, frame));
    }

    /// Tracking data for a timestamp came in: a frame is begun unless it was already.
    pub fn report_tracking_received(&mut self, target_timestamp: Duration, now: Instant)
        requires
            old(self)@.valid(),
        ensures
            final(self)@.valid(),
            final(self)@ == (StatisticsState {
                history: history_received(
                    old(self)@.history,
                    old(self)@.max_history_size as nat,
                    target_timestamp,
                    now,
                ),
                ..old(self)@
            }),
            final(self)@ == old(self)@.received(target_timestamp, now),
    {
        if self.find_frame(target_timestamp).is_none() {
            proof {
                assert forall|j: int| 0 <= j < self@.history.len() implies (
                #[trigger] self@.history[j]).target_timestamp != target_timestamp by {
                    if self@.history[j].target_timestamp == target_timestamp {
                        lemma_some_frame(self@.history, target_timestamp, j);
                    }
                }
            }
            self.history_buffer.push_front(HistoryFrame::new(target_timestamp, now));
        }
        if self.history_buffer.len() > self.max_history_size {
            let ghost before = self.history_buffer@;
            self.history_buffer.pop_back();
            assert(self.history_buffer@ =~= before.drop_last());
        }
    }

    /// The game handed a frame over, `offset` ago.
    pub fn report_frame_present(&mut self, target_timestamp: Duration, offset: Duration, now: Instant)
        requires
            old(self)@.valid(),
            frame_index(old(self)@.history, target_timestamp) is Some ==> offset@ <= now@,
        ensures
            final(self)@.valid(),
            final(self)@ == match frame_index(old(self)@.history, target_timestamp) {
                Some(i) => {
                    let present = Instant { nanos: (now.nanos - offset.nanos) as u128 };
                    StatisticsState {
                        last_frame_present_interval: Duration {
                            nanos: saturating_difference(
                                present@,
                                old(self)@.last_frame_present_instant@,
                            ) as u128,
                        },
                        last_frame_present_instant: present,
                        ..old(self)@.with_frame(
                            i,
                            HistoryFrame { frame_present: present, ..old(self)@.history[i] },
                        )
                    }
                },
                None => old(self)@,
            },
            final(self)@ == old(self)@.presented(
                target_timestamp,
                Instant { nanos: (now.nanos - offset.nanos) as u128 },
            ),
    {
        if let Some(i) = self.find_frame(target_timestamp) {
            let present = Instant { nanos: now.nanos - offset.nanos };
            self.last_frame_present_interval =
            present.saturating_duration_since(self.last_frame_present_instant);
            self.last_frame_present_instant = present;
            let mut frame = self.history_buffer[i];
            frame.frame_present = present;
            self.set_frame(i, frame);
        }
    }

    /// The compositor finished a frame, `offset` ago.
    pub fn report_frame_composed(
        &mut self,
        target_timestamp: Duration,
        offset: Duration,
        now: Instant,
    )
        requires
            old(self)@.valid(),
            frame_index(old(self)@.history, target_timestamp) is Some ==> offset@ <= now@,
        ensures
            final(self)@.valid(),
            final(self)@ == match frame_index(old(self)@.history, target_timestamp) {
                Some(i) => old(self)@.with_frame(
                    i,
                    HistoryFrame {
                        frame_composed: Instant { nanos: (now.nanos - offset.nanos) as u128 },
                        ..old(self)@.history[i]
                    },
                ),
                None => old(self)@,
            },
            final(self)@ == old(self)@.composed(
                target_timestamp,
                Instant { nanos: (now.nanos - offset.nanos) as u128 },
            ),
    {
        if let Some(i) = self.find_frame(target_timestamp) {
            let mut frame = self.history_buffer[i];
            frame.frame_composed = Instant { nanos: now.nanos - offset.nanos };
            self.set_frame(i, frame);
        }
    }

    /// The encoder finished a frame. Returns how long it took, zero for an unknown frame.
    pub fn report_frame_encoded(
        &mut self,
        target_timestamp: Duration,
        bytes_count: usize,
        is_idr: bool,
        now: Instant,
    ) -> (r: Duration)
        requires
            old(self)@.valid(),
            old(self)@.video_packets_total < usize::MAX,
            old(self)@.video_bytes_total + bytes_count <= usize::MAX,
        ensures
            final(self)@.valid(),
            ({
                let counted = StatisticsState {
                    video_packets_total: (old(self)@.video_packets_total + 1) as usize,
                    video_packets_partial_sum: (old(self)@.video_packets_partial_sum + 1) as usize,
                    video_bytes_total: (old(self)@.video_bytes_total + bytes_count) as usize,
                    video_bytes_partial_sum: (old(self)@.video_bytes_partial_sum
                        + bytes_count) as usize,
                    ..old(self)@
                };
                match frame_index(old(self)@.history, target_timestamp) {
                    Some(i) => {
                        let frame = old(self)@.history[i];
                        &&& final(self)@ == counted.with_frame(
                            i,
                            HistoryFrame {
                                frame_encoded: now,
                                video_packet_bytes: bytes_count,
                                is_idr,
                                ..frame
                            },
                        )
                        &&& r@ == saturating_difference(now@, frame.frame_composed@)
                    },
                    None => final(self)@ == counted && r@ == 0,
                }
            }),
            final(self)@ == old(self)@.encoded(target_timestamp, bytes_count, is_idr, now),
            r@ == old(self)@.encoding_time(target_timestamp, now),
    {
        self.video_packets_total = self.video_packets_total + 1;
        self.video_packets_partial_sum = self.video_packets_partial_sum + 1;
        self.video_bytes_total = self.video_bytes_total + bytes_count;
        self.video_bytes_partial_sum = self.video_bytes_partial_sum + bytes_count;
        if let Some(i) = self.find_frame(target_timestamp) {
            let mut frame = self.history_buffer[i];
            frame.frame_encoded = now;
            frame.video_packet_bytes = bytes_count;
            frame.is_idr = is_idr;
            self.set_frame(i, frame);
            frame.frame_encoded.saturating_duration_since(frame.frame_composed)
        } else {
            Duration::zero()
        }
    }

    /// A packet was lost.
    pub fn report_packet_loss(&mut self)
        requires
            old(self)@.valid(),
            old(self)@.packets_lost_total < usize::MAX,
        ensures
            final(self)@.valid(),
            final(self)@ == (StatisticsState {
                packets_lost_total: (old(self)@.packets_lost_total + 1) as usize,
                packets_lost_partial_sum: (old(self)@.packets_lost_partial_sum + 1) as usize,
                ..old(self)@
            }),
            final(self)@ == old(self)@.lost(),
    {
        self.packets_lost_total = self.packets_lost_total + 1;
        self.packets_lost_partial_sum = self.packets_lost_partial_sum + 1;
    }

    /// A device reported its charge.
    pub fn report_battery(&mut self, device_id: u64, gauge_value: Float32, is_plugged: bool)
        ensures
            final(self)@ == (StatisticsState {
                batteries: old(self)@.batteries.insert(
                    device_id,
                    BatteryData { gauge_value, is_plugged },
                ),
                ..old(self)@
            }),
            final(self)@ == old(self)@.charged(device_id, BatteryData { gauge_value, is_plugged }),
    {
        self.battery_gauges.insert(device_id, BatteryData { gauge_value, is_plugged });
    }

    /// The bitrate manager changed its mind.
    pub fn report_throughput_stats(&mut self, stats: D)
        ensures
            final(self)@ == (StatisticsState { directives: stats, ..old(self)@ }),
    {
        self.last_throughput_directives = stats;
    }

    /// The charge of a device, empty and unplugged where it is not known.
    pub fn battery(&self, device_id: u64) -> (r: BatteryData)
        ensures
            r == self@.battery(device_id),
    {
        match self.battery_gauges.get(&device_id) {
            Some(battery) => *battery,
            None => BatteryData { gauge_value: Float32::zero(), is_plugged: false },
        }
    }

    /// The client measured a frame. Returns its network and game latency, zero for an unknown frame,
    /// and the figures of a known one.
    pub fn report_statistics(
        &mut self,
        client_stats: &ClientStatistics,
        head_id: u64,
        now: Instant,
    ) -> (r: ((Duration, Duration), Option<FrameReport>))
        requires
            old(self)@.valid(),
        ensures
            final(self)@.valid(),
            match frame_index(old(self)@.history, client_stats.target_timestamp) {
                Some(i) => {
                    let report = old(self)@.frame_report(i, *client_stats, head_id, now);
                    &&& r.1 == Some(report)
                    &&& r.0 == (report.latencies.network, report.latencies.game_time)
                    &&& final(self)@ == old(self)@.reported(i, *client_stats, now)
                },
                None => {
                    &&& r.1 is None
                    &&& r.0.0@ == 0
                    &&& r.0.1@ == 0
                    &&& final(self)@ == old(self)@
                },
            },
            r.1 is Some <==> exists|i: int|
                0 <= i < old(self)@.history.len() && (
                #[trigger] old(self)@.history[i]).target_timestamp == client_stats.target_timestamp,
            r.1 matches Some(report) ==> (report.log_dataset <==> old(self)@.dataset_session is Some
                && now@ - old(self)@.last_dataset_sample_instant@ >= old(
            self)@.dataset_sample_interval@),
            r.1 matches Some(report) ==> final(self)@.last_dataset_sample_instant
                == if report.log_dataset {
                now
            } else {
                old(self)@.last_dataset_sample_instant
            },
            r.1 matches Some(report) ==> report.upload == old(self)@.telemetry_upload,
            r.1 matches Some(report) ==> (report.summary is Some <==> now@ - old(
            self)@.last_full_report_instant@ > 500_000_000),
    {
        let i: usize = match self.find_frame(client_stats.target_timestamp) {
            Some(i) => i,
            None => {
                proof {
                    assert forall|j: int| 0 <= j < self@.history.len() implies (
                    #[trigger] self@.history[j]).target_timestamp
                        != client_stats.target_timestamp by {
                        if self@.history[j].target_timestamp == client_stats.target_timestamp {
                            lemma_some_frame(self@.history, client_stats.target_timestamp, j);
                        }
                    }
                }
                return ((Duration::zero(), Duration::zero()), None);
            },
        };
        assert(self@.history[i as int].target_timestamp == client_stats.target_timestamp);
        let mut frame = self.history_buffer[i];
        let latencies = measure_latencies(&frame, client_stats);
        frame.total_pipeline_latency = client_stats.total_pipeline_latency;
        self.set_frame(i, frame);
        let eps = Duration { nanos: EPS_INTERVAL_NANOS };
        let stats_window = now.saturating_duration_since(self.partial_stats_last_reset).max(eps);
        let packets_lost: usize = self.packets_lost_partial_sum;
        let log_dataset = self.dataset_session.is_some() && now.nanos
            >= self.last_dataset_sample_instant.nanos && now.nanos
            - self.last_dataset_sample_instant.nanos >= self.dataset_sample_interval.nanos;
        if log_dataset {
            self.last_dataset_sample_instant = now;
        }
        let mut summary: Option<SummaryCounters> = None;
        if now.nanos > self.last_full_report_instant.nanos && now.nanos
            - self.last_full_report_instant.nanos > FULL_REPORT_INTERVAL_NANOS {
            self.last_full_report_instant = now;
            summary = Some(
                SummaryCounters {
                    video_packets_total: self.video_packets_total,
                    video_packets_partial_sum: self.video_packets_partial_sum,
                    video_bytes_total: self.video_bytes_total,
                    video_bytes_partial_sum: self.video_bytes_partial_sum,
                    packets_lost_total: self.packets_lost_total,
                    packets_lost_partial_sum: self.packets_lost_partial_sum,
                    hmd_battery: self.battery(head_id),
                },
            );
            self.video_packets_partial_sum = 0;
            self.video_bytes_partial_sum = 0;
            self.packets_lost_partial_sum = 0;
            self.partial_stats_last_reset = now;
        }
        let report = FrameReport {
            latencies,
            client_frame_interval: client_stats.frame_interval.max(eps),
            server_frame_interval: self.server_frame_interval(),
            transfer_interval: latencies.network.max(eps),
            stats_window,
            packets_lost,
            video_packet_bytes: frame.video_packet_bytes,
            is_idr: frame.is_idr,
            log_dataset,
            upload: self.telemetry_upload,
            summary,
        };
        ((latencies.network, latencies.game_time), Some(report))
    }

    /// How far ahead of the display the pipeline runs.
    pub fn tracker_pose_time_offset(&self) -> (r: Duration)
        ensures
            r == self@.steamvr_pipeline_latency,
    {
        self.steamvr_pipeline_latency
    }

    /// The time until the next vertical synchronization.
    pub fn duration_until_next_vsync(&mut self, now: Instant) -> (r: Duration)
        requires
            old(self)@.frame_interval@ > 0 || now@ <= old(self)@.last_vsync_time@,
            old(self)@.last_vsync_time@ + old(self)@.frame_interval@ <= u128::MAX,
        ensures
            final(self)@ == (StatisticsState {
                last_vsync_time: Instant { nanos: old(self)@.vsync_before(now) as u128 },
                ..old(self)@
            }),
            r@ == saturating_difference(
                old(self)@.vsync_before(now) + old(self)@.frame_interval@,
                now@,
            ),
            r@ == old(self)@.until_vsync(now),
    {
        let interval: u128 = self.frame_interval.nanos;
        let last: u128 = self.last_vsync_time.nanos;
        if now.nanos <= last || interval == 0 {
            proof {
                vstd::arithmetic::mul::lemma_mul_basics(interval as int);
            }
            return Duration {
                nanos: if now.nanos <= last + interval {
                    last + interval - now.nanos
                } else {
                    0
                },
            };
        }
        let steps: u128 = (now.nanos - last - 1) / interval;
        proof {
            vstd::arithmetic::div_mod::lemma_fundamental_div_mod(
                now.nanos - last - 1,
                interval as int,
            );
            assert(steps * interval == interval * steps) by (nonlinear_arith);
        }
        let passed: u128 = steps * interval;
        self.last_vsync_time = Instant { nanos: last + passed };
        Duration { nanos: interval - (now.nanos - last - passed) }
    }
}

/// A frame for a timestamp somewhere in the history means that there is a newest one.
proof fn lemma_some_frame(history: Seq<HistoryFrame>, target_timestamp: Duration, j: int)
    requires
        0 <= j < history.len(),
        history[j].target_timestamp == target_timestamp,
    ensures
        frame_index(history, target_timestamp) is Some,
    decreases j,
{
    if exists|h: int| 0 <= h < j && (#[trigger] history[h]).target_timestamp == target_timestamp {
        let h = choose|h: int|
            0 <= h < j && (#[trigger] history[h]).target_timestamp == target_timestamp;
        lemma_some_frame(history, target_timestamp, h);
    } else {
        lemma_frame_index(history, target_timestamp, j);
    }
}

/// Where the time of a frame went.
fn measure_latencies(frame: &HistoryFrame, client: &ClientStatistics) -> (r: ServerLatencies)
    ensures
        r == server_latencies(*frame, *client),
{
    let game_time = frame.frame_present.saturating_duration_since(frame.tracking_received);
    let server_compositor = frame.frame_composed.saturating_duration_since(frame.frame_present);
    let encoder = frame.frame_encoded.saturating_duration_since(frame.frame_composed);
    let rest = client.total_pipeline_latency.saturating_sub(game_time).saturating_sub(
        server_compositor,
    ).saturating_sub(encoder).saturating_sub(client.video_decode).saturating_sub(
        client.video_decoder_queue,
    ).saturating_sub(client.rendering).saturating_sub(client.vsync_queue);
    ServerLatencies { game_time, server_compositor, encoder, network: rest }
}

/// Once tracking data for a timestamp came in, its frame is known; and more data for the same
/// timestamp changes nothing.
pub proof fn law_received_frame_is_known<P, D>(
    state: StatisticsState<P, D>,
    target_timestamp: Duration,
    now: Instant,
    later: Instant,
)
    requires
        state.valid(),
        state.max_history_size > 0,
    ensures
        ({
            let max = state.max_history_size as nat;
            let after = history_received(state.history, max, target_timestamp, now);
            &&& frame_index(after, target_timestamp) is Some
            &&& history_received(after, max, target_timestamp, later) == after
            &&& frame_index(state.history, target_timestamp) is None ==> after[0]
                == HistoryFrame::fresh(target_timestamp, now)
            &&& frame_index(state.history, target_timestamp) is Some ==> after == state.history
        }),
{
    let max = state.max_history_size as nat;
    let after = history_received(state.history, max, target_timestamp, now);
    if frame_index(state.history, target_timestamp) is None {
        assert(after[0] == HistoryFrame::fresh(target_timestamp, now));
        lemma_frame_index(after, target_timestamp, 0);
    }
}

/// Data for one timestamp leaves every frame for another one as it was, except that the oldest
/// frame makes room for a new one.
pub proof fn law_other_frames_are_kept<P, D>(
    state: StatisticsState<P, D>,
    target_timestamp: Duration,
    now: Instant,
    i: int,
)
    requires
        state.valid(),
        0 <= i < state.history.len(),
        i < state.max_history_size - 1,
    ensures
        history_received(
            state.history,
            state.max_history_size as nat,
            target_timestamp,
            now,
        ).contains(state.history[i]),
{
    let after = history_received(
        state.history,
        state.max_history_size as nat,
        target_timestamp,
        now,
    );
    if frame_index(state.history, target_timestamp) is Some {
        assert(after[i] == state.history[i]);
    } else {
        assert(after[i + 1] == state.history[i]);
    }
}

/// The parts of a frame's latency add up to the whole. Where the measured parts alone exceed it,
/// nothing is left for the network.
pub proof fn law_latencies_add_up(frame: HistoryFrame, client: ClientStatistics)
    ensures
        ({
            let parts = server_latencies(frame, client);
            let measured = parts.game_time@ + parts.server_compositor@ + parts.encoder@
                + client_latency(client);
            if measured <= client.total_pipeline_latency@ {
                measured + parts.network@ == client.total_pipeline_latency@
            } else {
                parts.network@ == 0
            }
        }),
{
}

/// Two samples of the dataset are at least the sample interval apart.
pub proof fn law_dataset_samples_are_spaced<P, D>(
    state: StatisticsState<P, D>,
    i: int,
    client: ClientStatistics,
    now: Instant,
    later: Instant,
)
    requires
        state.dataset_sample_due(now),
    ensures
        state.reported(i, client, now).dataset_sample_due(later) <==> later@ >= now@
            + state.dataset_sample_interval@,
{
}

/// What was counted before the current window grows by just what a full report gives out: no
/// packet and no byte is in two reports, and none is in no report.
pub proof fn law_reports_count_once<P, D>(
    state: StatisticsState<P, D>,
    i: int,
    client: ClientStatistics,
    head_id: u64,
    now: Instant,
)
    requires
        state.valid(),
    ensures
        ({
            let after = state.reported(i, client, now);
            let out = state.frame_report(i, client, head_id, now).summary;
            &&& after.video_packets_total - after.video_packets_partial_sum
                == state.video_packets_total - state.video_packets_partial_sum + match out {
                Some(sums) => sums.video_packets_partial_sum as int,
                None => 0,
            }
            &&& after.video_bytes_total - after.video_bytes_partial_sum
                == state.video_bytes_total - state.video_bytes_partial_sum + match out {
                Some(sums) => sums.video_bytes_partial_sum as int,
                None => 0,
            }
            &&& after.packets_lost_total - after.packets_lost_partial_sum
                == state.packets_lost_total - state.packets_lost_partial_sum + match out {
                Some(sums) => sums.packets_lost_partial_sum as int,
                None => 0,
            }
        }),
{
}

/// The next vertical synchronization is not over, is at most one interval away unless the last one
/// lies in the future, and is a whole number of intervals after the last one.
pub proof fn law_next_vsync<P, D>(state: StatisticsState<P, D>, now: Instant)
    requires
        state.frame_interval@ > 0,
    ensures
        ({
            let before = state.vsync_before(now);
            let interval = state.frame_interval@;
            &&& now@ <= before + interval
            &&& before > state.last_vsync_time@ ==> before < now@
            &&& (before - state.last_vsync_time@) % interval as int == 0
            &&& StatisticsState {
                last_vsync_time: Instant { nanos: before as u128 },
                ..state
            }.vsync_before(now) == before
        }),
{
    let last = state.last_vsync_time@;
    let interval = state.frame_interval@;
    let steps = vsync_steps(last, interval, now@);
    let before = state.vsync_before(now);
    vstd::arithmetic::mul::lemma_mul_basics(interval as int);
    vstd::arithmetic::div_mod::lemma_mod_multiples_basic(steps as int, interval as int);
    if now@ > last {
        let rest = (now@ - last - 1) as int;
        vstd::arithmetic::div_mod::lemma_fundamental_div_mod(rest, interval as int);
        assert(steps * interval == interval * steps) by (nonlinear_arith);
        assert(before + rest % interval as int == now@ - 1);
        vstd::arithmetic::div_mod::lemma_mod_bound(rest, interval as int);
        vstd::arithmetic::div_mod::lemma_basic_div(now@ - before - 1, interval as int);
        assert(vsync_steps(before, interval, now@) == 0);
    }
}

/// The place of a timestamp's frame is that of the first frame with that timestamp, counted from the
/// newest, and there is none just where no frame has it.
pub proof fn law_newest_frame_is_found(history: Seq<HistoryFrame>, target_timestamp: Duration)
    ensures
        match frame_index(history, target_timestamp) {
            Some(i) => 0 <= i < history.len() && history[i].target_timestamp == target_timestamp
                && forall|j: int|
                0 <= j < i ==> (#[trigger] history[j]).target_timestamp != target_timestamp,
            None => forall|j: int|
                0 <= j < history.len() ==> (#[trigger] history[j]).target_timestamp
                    != target_timestamp,
        },
{
    if frame_index(history, target_timestamp) is None {
        assert forall|j: int| 0 <= j < history.len() implies (#[trigger] history[j]).target_timestamp
            != target_timestamp by {
            if history[j].target_timestamp == target_timestamp {
                lemma_some_frame(history, target_timestamp, j);
            }
        }
    }
}

/// A timestamp that no frame has begins one, in front of the earlier frames, which stay in their
/// order; where there would be more than `max_history_size`, just the oldest goes. All of the new
/// frame's times are the present one, and nothing is counted for it yet.
pub proof fn law_new_frame_goes_to_the_front<P, D>(
    state: StatisticsState<P, D>,
    target_timestamp: Duration,
    now: Instant,
)
    requires
        state.valid(),
        forall|j: int|
            0 <= j < state.history.len() ==> (#[trigger] state.history[j]).target_timestamp
                != target_timestamp,
    ensures
        ({
            let after = history_received(
                state.history,
                state.max_history_size as nat,
                target_timestamp,
                now,
            );
            &&& state.max_history_size == 0 ==> after.len() == 0
            &&& state.max_history_size > 0 ==> after.len() > 0 && after[0] == (HistoryFrame {
                target_timestamp,
                tracking_received: now,
                frame_present: now,
                frame_composed: now,
                frame_encoded: now,
                video_packet_bytes: 0,
                total_pipeline_latency: Duration { nanos: 0 },
                is_idr: false,
            })
            &&& state.history.len() < state.max_history_size ==> after.skip(1) == state.history
            &&& 0 < state.history.len() == state.max_history_size ==> after.skip(1)
                == state.history.drop_last()
        }),
{
    let after = history_received(
        state.history,
        state.max_history_size as nat,
        target_timestamp,
        now,
    );
    law_newest_frame_is_found(state.history, target_timestamp);
    if state.history.len() < state.max_history_size {
        assert(after.skip(1) =~= state.history);
    } else if state.max_history_size > 0 {
        assert(after.skip(1) =~= state.history.drop_last());
    }
}

/// With a recording session, the report of a known frame is recorded just where the sample interval
/// has passed since the last sample, whatever else is set; without one nothing is.
pub proof fn law_dataset_samples_are_due<P, D>(
    state: StatisticsState<P, D>,
    i: int,
    client: ClientStatistics,
    head_id: u64,
    now: Instant,
)
    ensures
        state.frame_report(i, client, head_id, now).log_dataset <==> state.dataset_session is Some
            && now@ - state.last_dataset_sample_instant@ >= state.dataset_sample_interval@,
        state.frame_report(i, client, head_id, now).log_dataset ==> state.reported(
            i,
            client,
            now,
        ).last_dataset_sample_instant == now,
        !state.frame_report(i, client, head_id, now).log_dataset ==> state.reported(
            i,
            client,
            now,
        ).last_dataset_sample_instant == state.last_dataset_sample_instant,
{
}

/// After a sample the next report at or after the sample interval is recorded too, and none before.
pub proof fn law_dataset_samples_follow<P, D>(
    state: StatisticsState<P, D>,
    i: int,
    client: ClientStatistics,
    head_id: u64,
    now: Instant,
    k: int,
    next_client: ClientStatistics,
    later: Instant,
)
    requires
        state.frame_report(i, client, head_id, now).log_dataset,
    ensures
        state.reported(i, client, now).frame_report(
            k,
            next_client,
            head_id,
            later,
        ).log_dataset <==> later@ >= now@ + state.dataset_sample_interval@,
{
}

/// With a recording session the first known frame after the start is recorded, and its report finds
/// the settings that collecting started with.
pub proof fn law_first_frame_is_sampled<P, D>(
    max_history_size: usize,
    nominal_server_frame_interval: Duration,
    steamvr_pipeline_latency: Duration,
    directives: D,
    telemetry_upload: bool,
    dataset_session: Option<DatasetSessionMetadata<P>>,
    dataset_sample_interval: Duration,
    start: Instant,
    target_timestamp: Duration,
    seen: Instant,
    i: int,
    client: ClientStatistics,
    head_id: u64,
    now: Instant,
)
    requires
        dataset_sample_interval@ <= start@,
        start@ <= now@,
    ensures
        ({
            let state = StatisticsState::<P, D>::started(
                max_history_size,
                nominal_server_frame_interval,
                steamvr_pipeline_latency,
                directives,
                telemetry_upload,
                dataset_session,
                dataset_sample_interval,
                start,
            );
            let report = state.received(target_timestamp, seen).frame_report(
                i,
                client,
                head_id,
                now,
            );
            &&& report.log_dataset <==> dataset_session is Some
            &&& report.upload == telemetry_upload
            &&& report.packets_lost == 0
            &&& report.summary is Some <==> now@ > start@ + 500_000_000
        }),
{
}

/// What collecting starts with: the settings as they are given, nothing counted or known, every time
/// that of the start, and the last sample one sample interval before it.
pub proof fn law_start_knows_nothing<P, D>(
    max_history_size: usize,
    nominal_server_frame_interval: Duration,
    steamvr_pipeline_latency: Duration,
    directives: D,
    telemetry_upload: bool,
    dataset_session: Option<DatasetSessionMetadata<P>>,
    dataset_sample_interval: Duration,
    start: Instant,
)
    requires
        dataset_sample_interval@ <= start@,
    ensures
        ({
            let state = StatisticsState::<P, D>::started(
                max_history_size,
                nominal_server_frame_interval,
                steamvr_pipeline_latency,
                directives,
                telemetry_upload,
                dataset_session,
                dataset_sample_interval,
                start,
            );
            &&& state.valid()
            &&& state.history.len() == 0
            &&& state.max_history_size == max_history_size
            &&& state.last_full_report_instant == start
            &&& state.partial_stats_last_reset == start
            &&& state.last_frame_present_instant == start
            &&& state.last_frame_present_interval@ == 0
            &&& state.video_packets_total == 0 && state.video_packets_partial_sum == 0
            &&& state.video_bytes_total == 0 && state.video_bytes_partial_sum == 0
            &&& state.packets_lost_total == 0 && state.packets_lost_partial_sum == 0
            &&& forall|id: u64| !#[trigger] state.batteries.contains_key(id)
            &&& state.steamvr_pipeline_latency == steamvr_pipeline_latency
            &&& state.last_vsync_time == start
            &&& state.frame_interval == nominal_server_frame_interval
            &&& state.directives == directives
            &&& state.telemetry_upload == telemetry_upload
            &&& state.dataset_session == dataset_session
            &&& state.dataset_sample_interval == dataset_sample_interval
            &&& state.last_dataset_sample_instant@ + dataset_sample_interval@ == start@
        }),
{
}

/// Where a frame's time went: each part on the server is the time from one of the frame's points to
/// the next, and nothing where the next is not later; the network has what these and the client's
/// four parts leave of the whole.
pub proof fn law_latency_parts(frame: HistoryFrame, client: ClientStatistics)
    ensures
        ({
            let parts = server_latencies(frame, client);
            let rest = client.total_pipeline_latency@ - parts.game_time@ - parts.server_compositor@
                - parts.encoder@ - client.video_decode@ - client.video_decoder_queue@
                - client.rendering@ - client.vsync_queue@;
            &&& frame.tracking_received@ <= frame.frame_present@ ==> frame.tracking_received@
                + parts.game_time@ == frame.frame_present@
            &&& frame.tracking_received@ > frame.frame_present@ ==> parts.game_time@ == 0
            &&& frame.frame_present@ <= frame.frame_composed@ ==> frame.frame_present@
                + parts.server_compositor@ == frame.frame_composed@
            &&& frame.frame_present@ > frame.frame_composed@ ==> parts.server_compositor@ == 0
            &&& frame.frame_composed@ <= frame.frame_encoded@ ==> frame.frame_composed@
                + parts.encoder@ == frame.frame_encoded@
            &&& frame.frame_composed@ > frame.frame_encoded@ ==> parts.encoder@ == 0
            &&& rest >= 0 ==> parts.network@ == rest
            &&& rest < 0 ==> parts.network@ == 0
        }),
{
}

/// The figures of a frame are those of the frame, of the client's measurement and of the counters at
/// the time. Intervals that divide are the measured ones, or a microsecond where those are shorter.
pub proof fn law_report_gives_the_figures<P, D>(
    state: StatisticsState<P, D>,
    i: int,
    client: ClientStatistics,
    head_id: u64,
    now: Instant,
)
    ensures
        ({
            let report = state.frame_report(i, client, head_id, now);
            let network = server_latencies(state.history[i], client).network@;
            let window = if state.partial_stats_last_reset@ <= now@ {
                now@ - state.partial_stats_last_reset@
            } else {
                0
            };
            &&& report.latencies == server_latencies(state.history[i], client)
            &&& report.client_frame_interval@ == if client.frame_interval@ >= 1_000 {
                client.frame_interval@
            } else {
                1_000
            }
            &&& report.server_frame_interval@ == if state.last_frame_present_interval@ >= 1_000 {
                state.last_frame_present_interval@
            } else {
                1_000
            }
            &&& report.transfer_interval@ == if network >= 1_000 {
                network
            } else {
                1_000
            }
            &&& report.stats_window@ == if window >= 1_000 {
                window
            } else {
                1_000
            }
            &&& report.packets_lost == state.packets_lost_partial_sum
            &&& report.video_packet_bytes == state.history[i].video_packet_bytes
            &&& report.is_idr == state.history[i].is_idr
            &&& report.upload == state.telemetry_upload
        }),
{
}

/// A full report is due where more than half a second has passed since the last one. It gives each
/// counter under its own name and the headset's charge, empty and unplugged where it is not known.
pub proof fn law_full_reports<P, D>(
    state: StatisticsState<P, D>,
    i: int,
    client: ClientStatistics,
    head_id: u64,
    now: Instant,
)
    ensures
        match state.frame_report(i, client, head_id, now).summary {
            Some(sums) => {
                &&& now@ - state.last_full_report_instant@ > 500_000_000
                &&& sums.video_packets_total == state.video_packets_total
                &&& sums.video_packets_partial_sum == state.video_packets_partial_sum
                &&& sums.video_bytes_total == state.video_bytes_total
                &&& sums.video_bytes_partial_sum == state.video_bytes_partial_sum
                &&& sums.packets_lost_total == state.packets_lost_total
                &&& sums.packets_lost_partial_sum == state.packets_lost_partial_sum
                &&& state.batteries.contains_key(head_id) ==> sums.hmd_battery
                    == state.batteries[head_id]
                &&& !state.batteries.contains_key(head_id) ==> sums.hmd_battery.gauge_value.bits
                    == 0 && !sums.hmd_battery.is_plugged
            },
            None => now@ - state.last_full_report_instant@ <= 500_000_000,
        },
{
}

/// What a report leaves: the whole latency is noted for the frame, a full report starts a new window
/// with empty partial sums, and nothing else changes but the time of the last sample.
pub proof fn law_report_leaves_the_rest<P, D>(
    state: StatisticsState<P, D>,
    i: int,
    client: ClientStatistics,
    now: Instant,
)
    requires
        0 <= i < state.history.len(),
    ensures
        ({
            let after = state.reported(i, client, now);
            let full = now@ - state.last_full_report_instant@ > 500_000_000;
            &&& after.history.len() == state.history.len()
            &&& forall|j: int|
                0 <= j < state.history.len() && j != i ==> #[trigger] after.history[j]
                    == state.history[j]
            &&& after.history[i] == (HistoryFrame {
                total_pipeline_latency: client.total_pipeline_latency,
                ..state.history[i]
            })
            &&& after == (StatisticsState {
                history: after.history,
                last_full_report_instant: if full {
                    now
                } else {
                    state.last_full_report_instant
                },
                partial_stats_last_reset: if full {
                    now
                } else {
                    state.partial_stats_last_reset
                },
                video_packets_partial_sum: if full {
                    0
                } else {
                    state.video_packets_partial_sum
                },
                video_bytes_partial_sum: if full {
                    0
                } else {
                    state.video_bytes_partial_sum
                },
                packets_lost_partial_sum: if full {
                    0
                } else {
                    state.packets_lost_partial_sum
                },
                last_dataset_sample_instant: after.last_dataset_sample_instant,
                ..state
            })
        }),
{
}

/// A device's charge is what it reported last, whatever the others report, and empty and unplugged
/// before its first report.
pub proof fn law_battery_is_the_last_reported<P, D>(
    state: StatisticsState<P, D>,
    device_id: u64,
    data: BatteryData,
    other: u64,
)
    ensures
        ({
            let after = state.charged(device_id, data);
            &&& after.battery(device_id) == data
            &&& other != device_id ==> after.battery(other) == state.battery(other)
            &&& after == (StatisticsState { batteries: after.batteries, ..state })
        }),
        !state.batteries.contains_key(device_id) ==> state.battery(device_id).gauge_value.bits == 0
            && !state.battery(device_id).is_plugged,
{
}

/// Replacing a frame leaves every other frame and everything else as it was.
pub proof fn law_replaced_frame<P, D>(state: StatisticsState<P, D>, i: int, frame: HistoryFrame)
    requires
        0 <= i < state.history.len(),
    ensures
        state.with_frame(i, frame).history[i] == frame,
        forall|j: int|
            0 <= j < state.history.len() && j != i ==> #[trigger] state.with_frame(
                i,
                frame,
            ).history[j] == state.history[j],
        state.with_frame(i, frame) == (StatisticsState {
            history: state.with_frame(i, frame).history,
            ..state
        }),
        state.with_frame(i, frame).history.len() == state.history.len(),
{
}

/// The synchronization that is taken as the last one never goes back, and stays where it is until it
/// is over by more than an interval.
pub proof fn law_vsync_never_goes_back<P, D>(state: StatisticsState<P, D>, now: Instant)
    ensures
        state.vsync_before(now) >= state.last_vsync_time@,
        now@ <= state.last_vsync_time@ + state.frame_interval@ ==> state.vsync_before(now)
            == state.last_vsync_time@,
{
    let last = state.last_vsync_time@;
    let interval = state.frame_interval@;
    let steps = vsync_steps(last, interval, now@);
    vstd::arithmetic::mul::lemma_mul_basics(interval as int);
    assert(steps * interval >= 0) by (nonlinear_arith);
    if last < now@ <= last + interval {
        vstd::arithmetic::div_mod::lemma_basic_div(now@ - last - 1, interval as int);
    }
}

/// A history within its bound holds one frame for a timestamp at most, so that a frame's place can be
/// told from its timestamp.
pub proof fn law_valid_state<P, D>(state: StatisticsState<P, D>, i: int, j: int)
    requires
        state.valid(),
        0 <= i < state.history.len(),
        0 <= j < state.history.len(),
        state.history[i].target_timestamp == state.history[j].target_timestamp,
    ensures
        i == j,
        frame_index(state.history, state.history[i].target_timestamp) == Some(i),
        state.history.len() <= state.max_history_size,
{
    if i < j {
        assert(state.history[i].target_timestamp != state.history[j].target_timestamp);
    }
    if j < i {
        assert(state.history[j].target_timestamp != state.history[i].target_timestamp);
    }
    lemma_frame_index(state.history, state.history[i].target_timestamp, i);
}

/// A frame that is replaced by one for the same timestamp is still found where it was.
proof fn lemma_replaced_frame_is_found(history: Seq<HistoryFrame>, i: int, frame: HistoryFrame)
    requires
        frame_index(history, frame.target_timestamp) == Some(i),
    ensures
        0 <= i < history.len(),
        frame_index(history.update(i, frame), frame.target_timestamp) == Some(i),
{
    law_newest_frame_is_found(history, frame.target_timestamp);
    let after = history.update(i, frame);
    assert forall|j: int| 0 <= j < i implies (#[trigger] after[j]).target_timestamp
        != frame.target_timestamp by {
        assert(after[j] == history[j]);
    }
    lemma_frame_index(after, frame.target_timestamp, i);
}

/// A frame that was handed over at one time, composed at a second and encoded at a third is measured
/// by these: its game time runs from its tracking data to the first, its compositor's time from the
/// first to the second and its encoder's from the second to the third, none of them where the later
/// one is not later. It is reported with the encoder's size and mark, and no other frame is touched.
pub proof fn law_frame_is_measured_on_its_way<P, D>(
    state: StatisticsState<P, D>,
    target_timestamp: Duration,
    i: int,
    present: Instant,
    composed: Instant,
    bytes_count: usize,
    is_idr: bool,
    encoded: Instant,
    client: ClientStatistics,
    head_id: u64,
    now: Instant,
)
    requires
        frame_index(state.history, target_timestamp) == Some(i),
    ensures
        ({
            let after = state.presented(target_timestamp, present).composed(
                target_timestamp,
                composed,
            ).encoded(target_timestamp, bytes_count, is_idr, encoded);
            let begun = state.history[i].tracking_received@;
            let report = after.frame_report(i, client, head_id, now);
            &&& after.history.len() == state.history.len()
            &&& forall|j: int|
                0 <= j < state.history.len() && j != i ==> #[trigger] after.history[j]
                    == state.history[j]
            &&& report.latencies.game_time@ == if begun <= present@ {
                present@ - begun
            } else {
                0
            }
            &&& report.latencies.server_compositor@ == if present@ <= composed@ {
                composed@ - present@
            } else {
                0
            }
            &&& report.latencies.encoder@ == if composed@ <= encoded@ {
                encoded@ - composed@
            } else {
                0
            }
            &&& report.video_packet_bytes == bytes_count
            &&& report.is_idr == is_idr
            &&& after.history[i].target_timestamp == target_timestamp
            &&& after.history[i].tracking_received == state.history[i].tracking_received
            &&& after.history[i].total_pipeline_latency == state.history[i].total_pipeline_latency
        }),
{
    law_newest_frame_is_found(state.history, target_timestamp);
    let frame = state.history[i];
    lemma_replaced_frame_is_found(
        state.history,
        i,
        HistoryFrame { frame_present: present, ..frame },
    );
    let first = state.presented(target_timestamp, present);
    lemma_replaced_frame_is_found(
        first.history,
        i,
        HistoryFrame { frame_composed: composed, ..first.history[i] },
    );
}

/// Of a timestamp without a frame only the encoder's counts are taken.
pub proof fn law_unknown_frames_are_only_counted<P, D>(
    state: StatisticsState<P, D>,
    target_timestamp: Duration,
    at: Instant,
    bytes_count: usize,
    is_idr: bool,
)
    requires
        forall|j: int|
            0 <= j < state.history.len() ==> (#[trigger] state.history[j]).target_timestamp
                != target_timestamp,
    ensures
        state.presented(target_timestamp, at) == state,
        state.composed(target_timestamp, at) == state,
        state.encoded(target_timestamp, bytes_count, is_idr, at).history == state.history,
{
    law_newest_frame_is_found(state.history, target_timestamp);
}

/// The interval between presented frames is the time from one known frame to the next, and none where
/// the next one was handed over no later.
pub proof fn law_present_interval<P, D>(
    state: StatisticsState<P, D>,
    first_timestamp: Duration,
    first: Instant,
    next_timestamp: Duration,
    next: Instant,
)
    requires
        frame_index(state.history, first_timestamp) is Some,
        frame_index(
            state.presented(first_timestamp, first).history,
            next_timestamp,
        ) is Some,
    ensures
        ({
            let after = state.presented(first_timestamp, first).presented(next_timestamp, next);
            &&& after.last_frame_present_instant == next
            &&& first@ <= next@ ==> first@ + after.last_frame_present_interval@ == next@
            &&& first@ > next@ ==> after.last_frame_present_interval@ == 0
        }),
{
}

/// What is reported of a frame's way changes the frame and the presented interval alone, and encoding
/// adds one packet and its bytes to both the totals and the partial sums; a lost packet adds one to
/// both of its counters. Nothing else changes.
pub proof fn law_reports_count<P, D>(
    state: StatisticsState<P, D>,
    target_timestamp: Duration,
    at: Instant,
    bytes_count: usize,
    is_idr: bool,
)
    requires
        state.valid(),
        state.video_packets_total < usize::MAX,
        state.video_bytes_total + bytes_count <= usize::MAX,
        state.packets_lost_total < usize::MAX,
    ensures
        ({
            let presented = state.presented(target_timestamp, at);
            let composed = state.composed(target_timestamp, at);
            let encoded = state.encoded(target_timestamp, bytes_count, is_idr, at);
            let lost = state.lost();
            &&& presented == (StatisticsState {
                history: presented.history,
                last_frame_present_instant: presented.last_frame_present_instant,
                last_frame_present_interval: presented.last_frame_present_interval,
                ..state
            })
            &&& composed == (StatisticsState { history: composed.history, ..state })
            &&& encoded.video_packets_total == state.video_packets_total + 1
            &&& encoded.video_packets_partial_sum == state.video_packets_partial_sum + 1
            &&& encoded.video_bytes_total == state.video_bytes_total + bytes_count
            &&& encoded.video_bytes_partial_sum == state.video_bytes_partial_sum + bytes_count
            &&& encoded == (StatisticsState {
                history: encoded.history,
                video_packets_total: encoded.video_packets_total,
                video_packets_partial_sum: encoded.video_packets_partial_sum,
                video_bytes_total: encoded.video_bytes_total,
                video_bytes_partial_sum: encoded.video_bytes_partial_sum,
                ..state
            })
            &&& lost.packets_lost_total == state.packets_lost_total + 1
            &&& lost.packets_lost_partial_sum == state.packets_lost_partial_sum + 1
            &&& lost == (StatisticsState {
                packets_lost_total: lost.packets_lost_total,
                packets_lost_partial_sum: lost.packets_lost_partial_sum,
                ..state
            })
        }),
{
}

/// Tracking data changes nothing but the frames.
pub proof fn law_received_data_changes_frames_only<P, D>(
    state: StatisticsState<P, D>,
    target_timestamp: Duration,
    now: Instant,
)
    ensures
        state.received(target_timestamp, now) == (StatisticsState {
            history: history_received(
                state.history,
                state.max_history_size as nat,
                target_timestamp,
                now,
            ),
            ..state
        }),
{
}

/// The encoder's time for a frame is the time since the compositor finished it, and is what the frame
/// is reported with afterwards. An unknown frame took none.
pub proof fn law_encoding_time<P, D>(
    state: StatisticsState<P, D>,
    target_timestamp: Duration,
    i: int,
    composed: Instant,
    bytes_count: usize,
    is_idr: bool,
    encoded: Instant,
    client: ClientStatistics,
    head_id: u64,
    now: Instant,
)
    ensures
        frame_index(state.history, target_timestamp) is None ==> state.encoding_time(
            target_timestamp,
            encoded,
        ) == 0,
        frame_index(state.history, target_timestamp) == Some(i) ==> {
            let before = state.composed(target_timestamp, composed);
            let time = before.encoding_time(target_timestamp, encoded);
            &&& composed@ <= encoded@ ==> composed@ + time == encoded@
            &&& composed@ > encoded@ ==> time == 0
            &&& before.encoded(target_timestamp, bytes_count, is_idr, encoded).frame_report(
                i,
                client,
                head_id,
                now,
            ).latencies.encoder@ == time
        },
{
    if frame_index(state.history, target_timestamp) == Some(i) {
        law_newest_frame_is_found(state.history, target_timestamp);
        lemma_replaced_frame_is_found(
            state.history,
            i,
            HistoryFrame { frame_composed: composed, ..state.history[i] },
        );
    }
}

/// The time to the next vertical synchronization ends a whole number of intervals after the last one
/// that is known, and is no longer than an interval where that one is over.
pub proof fn law_time_to_the_next_vsync<P, D>(state: StatisticsState<P, D>, now: Instant)
    requires
        state.frame_interval@ > 0,
    ensures
        state.last_vsync_time@ <= now@ + state.until_vsync(now),
        (now@ + state.until_vsync(now) - state.last_vsync_time@) % state.frame_interval@ as int
            == 0,
        now@ > state.last_vsync_time@ ==> state.until_vsync(now) < state.frame_interval@,
        now@ <= state.last_vsync_time@ ==> now@ + state.until_vsync(now) == state.last_vsync_time@
            + state.frame_interval@,
{
    law_next_vsync(state, now);
    law_vsync_never_goes_back(state, now);
    let interval = state.frame_interval@ as int;
    let before = state.vsync_before(now);
    vstd::arithmetic::div_mod::lemma_mod_add_multiples_vanish(
        before - state.last_vsync_time@,
        interval,
    );
    assert(now@ + state.until_vsync(now) == before + interval);
    assert(interval + (before - state.last_vsync_time@) == now@ + state.until_vsync(now)
        - state.last_vsync_time@);
}

} // verus!
