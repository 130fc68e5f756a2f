//! The log files of gazes and eye samples.
//!
//! Each minute has a file of JSON lines and a file of comma separated values. Floating point numbers
//! come in as they are to be written: as texts for the one, as JSON values for the other.

use crate::json::{self, null_text};
use crate::path::{law_joined_pieces_split, split};
use crate::text::{
    bool_string, bool_text, decimal, decimal_string, join, join_strings, owned_strings, signed_decimal,
    signed_decimal_string, texts,
};
use crate::time::Duration;
use crate::tracking::{EyePoseStatusLog, EyeTrackingDataLog};
use vstd::prelude::*;

verus! {

/// The directory of gaze logs below the log directory.
pub const GAZE_LOG_DIR: &'static str = "gazelog";

/// The directory of eye sample logs below the log directory.
pub const EYE_LOG_DIR: &'static str = "eyelog";

/// By what a line of a gaze log is known.
pub const GAZE_LOG_KEY: &'static str = "eye_tracking";

/// By what a line of an eye sample log is known.
pub const EYE_LOG_KEY: &'static str = "pico_eye_tracking_raw";

/// The names of a gaze log's columns.
pub open spec fn gaze_column_names() -> Seq<Seq<char>> {
    seq![
        "timestamp_ms"@,
        "unix_timestamp"@,
        "device_motion_key"@,
        "left_eye_pos_x"@,
        "left_eye_pos_y"@,
        "left_eye_pos_z"@,
        "left_eye_ori_x"@,
        "left_eye_ori_y"@,
        "left_eye_ori_z"@,
        "left_eye_ori_w"@,
        "right_eye_pos_x"@,
        "right_eye_pos_y"@,
        "right_eye_pos_z"@,
        "right_eye_ori_x"@,
        "right_eye_ori_y"@,
        "right_eye_ori_z"@,
        "right_eye_ori_w"@,
    ]
}

/// The first line of a gaze log.
pub fn gaze_csv_header() -> (r: String)
    ensures
        r@ == join(gaze_column_names(), seq![',']),
{
    let names = owned_strings(
        &[
            "timestamp_ms",
            "unix_timestamp",
            "device_motion_key",
            "left_eye_pos_x",
            "left_eye_pos_y",
            "left_eye_pos_z",
            "left_eye_ori_x",
            "left_eye_ori_y",
            "left_eye_ori_z",
            "left_eye_ori_w",
            "right_eye_pos_x",
            "right_eye_pos_y",
            "right_eye_pos_z",
            "right_eye_ori_x",
            "right_eye_ori_y",
            "right_eye_ori_z",
            "right_eye_ori_w",
        ],
    );
    proof {
        reveal_strlit(",");
        assert(","@ =~= seq![',']);
        assert(texts(names@) =~= gaze_column_names());
    }
    join_strings(&names, ",")
}

/// The names of an eye sample log's columns.
pub open spec fn eye_column_names() -> Seq<Seq<char>> {
    seq![
        "timestamp_ms"@,
        "unix_timestamp"@,
        "device_motion_key"@,
        "timestamp_ns"@,
        "left_status_flags"@,
        "left_gaze_point_valid"@,
        "left_gaze_vector_valid"@,
        "left_eye_openness_valid"@,
        "left_pupil_dilation_valid"@,
        "right_status_flags"@,
        "right_gaze_point_valid"@,
        "right_gaze_vector_valid"@,
        "right_eye_openness_valid"@,
        "right_pupil_dilation_valid"@,
        "combined_status_flags"@,
        "combined_gaze_point_valid"@,
        "combined_gaze_vector_valid"@,
        "combined_eye_openness_valid"@,
        "combined_pupil_dilation_valid"@,
        "left_gaze_point_x"@,
        "left_gaze_point_y"@,
        "left_gaze_point_z"@,
        "right_gaze_point_x"@,
        "right_gaze_point_y"@,
        "right_gaze_point_z"@,
        "combined_gaze_point_x"@,
        "combined_gaze_point_y"@,
        "combined_gaze_point_z"@,
        "left_gaze_vector_x"@,
        "left_gaze_vector_y"@,
        "left_gaze_vector_z"@,
        "right_gaze_vector_x"@,
        "right_gaze_vector_y"@,
        "right_gaze_vector_z"@,
        "combined_gaze_vector_x"@,
        "combined_gaze_vector_y"@,
        "combined_gaze_vector_z"@,
        "left_eye_openness"@,
        "right_eye_openness"@,
        "left_pupil_dilation"@,
        "right_pupil_dilation"@,
        "left_position_guide_x"@,
        "left_position_guide_y"@,
        "left_position_guide_z"@,
        "right_position_guide_x"@,
        "right_position_guide_y"@,
        "right_position_guide_z"@,
        "foveated_gaze_direction_x"@,
        "foveated_gaze_direction_y"@,
        "foveated_gaze_direction_z"@,
        "foveated_gaze_tracking_state"@,
    ]
}

/// The first line of an eye sample log.
pub fn eye_csv_header() -> (r: String)
    ensures
        r@ == join(eye_column_names(), seq![',']),
{
    let names = owned_strings(
        &[
            "timestamp_ms",
            "unix_timestamp",
            "device_motion_key",
            "timestamp_ns",
            "left_status_flags",
            "left_gaze_point_valid",
            "left_gaze_vector_valid",
            "left_eye_openness_valid",
            "left_pupil_dilation_valid",
            "right_status_flags",
            "right_gaze_point_valid",
            "right_gaze_vector_valid",
            "right_eye_openness_valid",
            "right_pupil_dilation_valid",
            "combined_status_flags",
            "combined_gaze_point_valid",
            "combined_gaze_vector_valid",
            "combined_eye_openness_valid",
            "combined_pupil_dilation_valid",
            "left_gaze_point_x",
            "left_gaze_point_y",
            "left_gaze_point_z",
            "right_gaze_point_x",
            "right_gaze_point_y",
            "right_gaze_point_z",
            "combined_gaze_point_x",
            "combined_gaze_point_y",
            "combined_gaze_point_z",
            "left_gaze_vector_x",
            "left_gaze_vector_y",
            "left_gaze_vector_z",
            "right_gaze_vector_x",
            "right_gaze_vector_y",
            "right_gaze_vector_z",
            "combined_gaze_vector_x",
            "combined_gaze_vector_y",
            "combined_gaze_vector_z",
            "left_eye_openness",
            "right_eye_openness",
            "left_pupil_dilation",
            "right_pupil_dilation",
            "left_position_guide_x",
            "left_position_guide_y",
            "left_position_guide_z",
            "right_position_guide_x",
            "right_position_guide_y",
            "right_position_guide_z",
            "foveated_gaze_direction_x",
            "foveated_gaze_direction_y",
            "foveated_gaze_direction_z",
            "foveated_gaze_tracking_state",
        ],
    );
    proof {
        reveal_strlit(",");
        assert(","@ =~= seq![',']);
        assert(texts(names@) =~= eye_column_names());
    }
    join_strings(&names, ",")
}

/// The pose of an eye, its numbers as texts.
#[derive(Debug)]
pub struct PoseTexts {
    pub position: [String; 3],
    pub orientation: [String; 4],
}

/// The pose of an eye, its numbers as JSON values.
#[derive(Debug)]
pub struct PoseValues {
    pub position: [serde_json::Value; 3],
    pub orientation: [serde_json::Value; 4],
}

/// The time of a line: by the tracking clock and by the calendar, in milliseconds.
#[derive(Clone, Copy, PartialEq, Eq, Structural, Debug)]
pub struct LogTime {
    pub timestamp_ms: u64,
    pub unix_timestamp: u64,
}

/// The time of a line about a sample that was taken at `timestamp` and is logged at `now`.
pub open spec fn time_of(timestamp: Duration, now: Duration) -> LogTime {
    LogTime {
        timestamp_ms: ((timestamp@ / 1_000_000) % 0x1_0000_0000_0000_0000) as u64,
        unix_timestamp: ((now@ / 1_000_000) % 0x1_0000_0000_0000_0000) as u64,
    }
}

/// The time of a line about a sample that was taken at `timestamp` and is logged at `now` since the
/// Unix epoch.
pub fn log_time(timestamp: Duration, now: Duration) -> (r: LogTime)
    ensures
        r.timestamp_ms == (timestamp@ / 1_000_000) % 0x1_0000_0000_0000_0000,
        r.unix_timestamp == (now@ / 1_000_000) % 0x1_0000_0000_0000_0000,
        r == time_of(timestamp, now),
{
    LogTime { timestamp_ms: timestamp.millis_u64(), unix_timestamp: now.millis_u64() }
}

/// A line is the first of its minute.
pub open spec fn starts_minute(last_minute: Option<u64>, current_minute: u64) -> bool {
    last_minute != Some(current_minute)
}

/// Notes the minute of a line. Returns whether the line is the first of its minute.
pub fn rotate_file(last_minute: &mut Option<u64>, current_minute: u64) -> (r: bool)
    ensures
        *final(last_minute) == Some(current_minute),
        r == (*old(last_minute) != Some(current_minute)),
        r == starts_minute(*old(last_minute), current_minute),
{
    let same = match *last_minute {
        Some(last) => last == current_minute,
        None => false,
    };
    if !same {
        *last_minute = Some(current_minute);
    }
    !same
}

/// The columns of an eye's pose, all of them `null` where there is none.
pub open spec fn pose_columns(pose: Option<PoseTexts>) -> Seq<Seq<char>> {
    match pose {
        Some(pose) => texts(pose.position@) + texts(pose.orientation@),
        None => Seq::new(7, |i: int| null_text()),
    }
}

/// The columns of a line of a gaze log.
pub open spec fn gaze_columns(
    time: LogTime,
    left: Option<PoseTexts>,
    right: Option<PoseTexts>,
) -> Seq<Seq<char>> {
    seq![decimal(time.timestamp_ms as nat), decimal(time.unix_timestamp as nat), GAZE_LOG_KEY@]
        + pose_columns(left) + pose_columns(right)
}

/// A line of a gaze log as comma separated values. A pose is there where the eye's data is valid, and
/// where neither eye's is, nothing is logged.
pub fn gaze_csv_row(time: LogTime, left: &Option<PoseTexts>, right: &Option<PoseTexts>) -> (r:
    Option<String>)
    ensures
        r is None <==> left is None && right is None,
        r matches Some(row) ==> row@ == join(gaze_columns(time, *left, *right), seq![',']),
{
    if left.is_none() && right.is_none() {
        return None;
    }
    let mut row: Vec<String> = Vec::new();
    row.push(decimal_string(time.timestamp_ms));
    row.push(decimal_string(time.unix_timestamp));
    row.push(GAZE_LOG_KEY.to_owned());
    push_pose(&mut row, left);
    push_pose(&mut row, right);
    proof {
        reveal_strlit(",");
        assert(","@ =~= seq![',']);
        assert(texts(row@) =~= gaze_columns(time, *left, *right));
    }
    Some(join_strings(&row, ","))
}

/// Appends the columns of an eye's pose.
fn push_pose(row: &mut Vec<String>, pose: &Option<PoseTexts>)
    ensures
        texts(final(row)@) == texts(old(row)@) + pose_columns(*pose),
{
    let ghost before = texts(row@);
    match pose {
        Some(pose) => {
            row.push(pose.position[0].clone());
            row.push(pose.position[1].clone());
            row.push(pose.position[2].clone());
            row.push(pose.orientation[0].clone());
            row.push(pose.orientation[1].clone());
            row.push(pose.orientation[2].clone());
            row.push(pose.orientation[3].clone());
            assert(texts(row@) =~= before + pose_columns(Some(*pose)));
        },
        None => {
            let mut i: usize = 0;
            while i < 7
                invariant
                    i <= 7,
                    texts(row@) == before + Seq::new(i as nat, |j: int| null_text()),
                decreases 7 - i,
            {
                let ghost columns = row@;
                row.push("null".to_owned());
                i += 1;
                proof {
                    reveal_strlit("null");
                    assert("null"@ =~= null_text());
                    assert(texts(row@) =~= texts(columns).push(null_text()));
                    assert(texts(row@) =~= before + Seq::new(i as nat, |j: int| null_text()));
                }
            }
            assert(texts(row@) =~= before + pose_columns(None));
        },
    }
}

/// The columns of three numbers.
pub open spec fn triple_columns(values: [String; 3]) -> Seq<Seq<char>> {
    texts(values@)
}

/// The columns of an eye's flags.
pub open spec fn status_columns(status: EyePoseStatusLog) -> Seq<Seq<char>> {
    seq![
        decimal(status.status_flags as nat),
        bool_text(status.gaze_point_valid),
        bool_text(status.gaze_vector_valid),
        bool_text(status.eye_openness_valid),
        bool_text(status.pupil_dilation_valid),
    ]
}

/// The columns of a line of an eye sample log.
pub open spec fn eye_columns(time: LogTime, data: EyeTrackingDataLog<String>) -> Seq<Seq<char>> {
    seq![
        decimal(time.timestamp_ms as nat),
        decimal(time.unix_timestamp as nat),
        EYE_LOG_KEY@,
        decimal(data.timestamp_ns as nat),
    ] + status_columns(data.left_eye_pose_status) + status_columns(data.right_eye_pose_status)
        + status_columns(data.combined_eye_pose_status) + triple_columns(data.left_eye_gaze_point)
        + triple_columns(data.right_eye_gaze_point) + triple_columns(data.combined_eye_gaze_point)
        + triple_columns(data.left_eye_gaze_vector) + triple_columns(data.right_eye_gaze_vector)
        + triple_columns(data.combined_eye_gaze_vector) + seq![
        data.left_eye_openness@,
        data.right_eye_openness@,
        data.left_eye_pupil_dilation@,
        data.right_eye_pupil_dilation@,
    ] + triple_columns(data.left_eye_position_guide) + triple_columns(data.right_eye_position_guide)
        + triple_columns(data.foveated_gaze_direction) + seq![
        signed_decimal(data.foveated_gaze_tracking_state as int),
    ]
}

/// A line of an eye sample log as comma separated values.
pub fn eye_csv_row(time: LogTime, data: &EyeTrackingDataLog<String>) -> (r: String)
    ensures
        r@ == join(eye_columns(time, *data), seq![',']),
{
    let mut row: Vec<String> = Vec::new();
    row.push(decimal_string(time.timestamp_ms));
    row.push(decimal_string(time.unix_timestamp));
    row.push(EYE_LOG_KEY.to_owned());
    row.push(decimal_string(data.timestamp_ns));
    assert(texts(row@) =~= seq![
        decimal(time.timestamp_ms as nat),
        decimal(time.unix_timestamp as nat),
        EYE_LOG_KEY@,
        decimal(data.timestamp_ns as nat),
    ]);
    push_status(&mut row, &data.left_eye_pose_status);
    push_status(&mut row, &data.right_eye_pose_status);
    push_status(&mut row, &data.combined_eye_pose_status);
    push_triple(&mut row, &data.left_eye_gaze_point);
    push_triple(&mut row, &data.right_eye_gaze_point);
    push_triple(&mut row, &data.combined_eye_gaze_point);
    push_triple(&mut row, &data.left_eye_gaze_vector);
    push_triple(&mut row, &data.right_eye_gaze_vector);
    push_triple(&mut row, &data.combined_eye_gaze_vector);
    let ghost columns = texts(row@);
    row.push(data.left_eye_openness.clone());
    row.push(data.right_eye_openness.clone());
    row.push(data.left_eye_pupil_dilation.clone());
    row.push(data.right_eye_pupil_dilation.clone());
    assert(texts(row@) =~= columns + seq![
        data.left_eye_openness@,
        data.right_eye_openness@,
        data.left_eye_pupil_dilation@,
        data.right_eye_pupil_dilation@,
    ]);
    push_triple(&mut row, &data.left_eye_position_guide);
    push_triple(&mut row, &data.right_eye_position_guide);
    push_triple(&mut row, &data.foveated_gaze_direction);
    let ghost columns = texts(row@);
    row.push(signed_decimal_string(data.foveated_gaze_tracking_state));
    proof {
        assert(texts(row@) =~= columns + seq![
            signed_decimal(data.foveated_gaze_tracking_state as int),
        ]);
        reveal_strlit(",");
        assert(","@ =~= seq![',']);
        assert(texts(row@) =~= eye_columns(time, *data));
    }
    join_strings(&row, ",")
}

/// Appends the columns of an eye's flags.
fn push_status(row: &mut Vec<String>, status: &EyePoseStatusLog)
    ensures
        texts(final(row)@) == texts(old(row)@) + status_columns(*status),
{
    let ghost before = texts(row@);
    row.push(decimal_string(status.status_flags as u64));
    row.push(bool_string(status.gaze_point_valid));
    row.push(bool_string(status.gaze_vector_valid));
    row.push(bool_string(status.eye_openness_valid));
    row.push(bool_string(status.pupil_dilation_valid));
    assert(texts(row@) =~= before + status_columns(*status));
}

/// Appends the columns of three numbers.
fn push_triple(row: &mut Vec<String>, values: &[String; 3])
    ensures
        texts(final(row)@) == texts(old(row)@) + triple_columns(*values),
{
    let ghost before = texts(row@);
    row.push(values[0].clone());
    row.push(values[1].clone());
    row.push(values[2].clone());
    assert(texts(row@) =~= before + triple_columns(*values));
}

/// The members of a line of JSON about `data`.
pub open spec fn line_entries(time: LogTime, key: Seq<char>, data: Seq<char>) -> Seq<
    (Seq<char>, Seq<char>),
> {
    seq![
        ("data"@, data),
        ("device_motion_key"@, seq!['"'] + key + seq!['"']),
        ("timestamp_ms"@, decimal(time.timestamp_ms as nat)),
        ("unix_timestamp"@, decimal(time.unix_timestamp as nat)),
    ]
}

/// A line of JSON about `data`.
pub open spec fn line_text(time: LogTime, key: Seq<char>, data: Seq<char>) -> Seq<char> {
    json::object_text(line_entries(time, key, data))
}

/// The keys of a line of JSON are in order.
proof fn lemma_line_keys()
    ensures
        json::ordered_keys(
            seq![
                "data"@,
                "device_motion_key"@,
                "timestamp_ms"@,
                "unix_timestamp"@,
            ],
        ),
{
    reveal_strlit("data");
    reveal_strlit("device_motion_key");
    reveal_strlit("timestamp_ms");
    reveal_strlit("unix_timestamp");
    json::lemma_text_less_at("data"@, "device_motion_key"@, 1);
    json::lemma_text_less_at("device_motion_key"@, "timestamp_ms"@, 0);
    json::lemma_text_less_at("timestamp_ms"@, "unix_timestamp"@, 0);
}

/// A line of JSON about `data`.
fn json_line(time: LogTime, key: &str, data: serde_json::Value) -> (r: String)
    requires
        forall|i: int| 0 <= i < key@.len() ==> json::is_unescaped(#[trigger] key@[i]),
    ensures
        r@ == line_text(time, key@, json::json_text(data)),
{
    let ghost data_text = json::json_text(data);
    let mut members: Vec<(&'static str, serde_json::Value)> = Vec::new();
    members.push(("data", data));
    members.push(("device_motion_key", json::string_value(key)));
    members.push(("timestamp_ms", json::unsigned_value(time.timestamp_ms)));
    members.push(("unix_timestamp", json::unsigned_value(time.unix_timestamp)));
    proof {
        let entries = line_entries(time, key@, data_text);
        lemma_line_keys();
        assert(json::value_entries(members@) =~= entries);
        assert(json::keys_of(entries) =~= seq![
            "data"@,
            "device_motion_key"@,
            "timestamp_ms"@,
            "unix_timestamp"@,
        ]);
    }
    json::value_string(&json::object(members))
}

/// The compact text of four values.
pub open spec fn quadruple_text(values: [serde_json::Value; 4]) -> Seq<char> {
    seq!['['] + join(json::value_texts(values@), seq![',']) + seq![']']
}

/// The members of an eye's pose.
pub open spec fn pose_entries(pose: PoseValues) -> Seq<(Seq<char>, Seq<char>)> {
    seq![
        ("orientation"@, quadruple_text(pose.orientation)),
        ("position"@, triple_text(pose.position)),
    ]
}

/// The compact text of an eye's pose, or of null where there is none.
pub open spec fn pose_text(pose: Option<PoseValues>) -> Seq<char> {
    match pose {
        Some(pose) => json::object_text(pose_entries(pose)),
        None => null_text(),
    }
}

/// The members of the data of a line of a gaze log.
pub open spec fn gaze_entries(left: Option<PoseValues>, right: Option<PoseValues>) -> Seq<
    (Seq<char>, Seq<char>),
> {
    seq![("left_eye"@, pose_text(left)), ("right_eye"@, pose_text(right))]
}

/// A line of a gaze log as JSON.
pub open spec fn gaze_line_text(
    time: LogTime,
    left: Option<PoseValues>,
    right: Option<PoseValues>,
) -> Seq<char> {
    line_text(time, GAZE_LOG_KEY@, json::object_text(gaze_entries(left, right)))
}

/// The keys of a gaze are in order.
proof fn lemma_gaze_keys()
    ensures
        json::ordered_keys(
            seq![
                "left_eye"@,
                "right_eye"@,
            ],
        ),
{
    reveal_strlit("left_eye");
    reveal_strlit("right_eye");
    json::lemma_text_less_at("left_eye"@, "right_eye"@, 0);
}

/// A line of a gaze log as JSON. A pose is there where the eye's data is valid, and where neither
/// eye's is, nothing is logged.
pub fn gaze_json_line(time: LogTime, left: &Option<PoseValues>, right: &Option<PoseValues>) -> (r:
    Option<String>)
    ensures
        r is None <==> left is None && right is None,
        r matches Some(line) ==> line@ == gaze_line_text(time, *left, *right),
{
    if left.is_none() && right.is_none() {
        return None;
    }
    let mut members: Vec<(&'static str, serde_json::Value)> = Vec::new();
    members.push(("left_eye", pose_value(left)));
    members.push(("right_eye", pose_value(right)));
    proof {
        let entries = gaze_entries(*left, *right);
        lemma_gaze_keys();
        assert(json::value_entries(members@) =~= entries);
        assert(json::keys_of(entries) =~= seq!["left_eye"@, "right_eye"@]);
        reveal_strlit("eye_tracking");
    }
    Some(json_line(time, GAZE_LOG_KEY, json::object(members)))
}

/// The keys of an eye's pose are in order.
proof fn lemma_pose_keys()
    ensures
        json::ordered_keys(
            seq![
                "orientation"@,
                "position"@,
            ],
        ),
{
    reveal_strlit("orientation");
    reveal_strlit("position");
    json::lemma_text_less_at("orientation"@, "position"@, 0);
}

/// The pose of an eye as an object, or null where there is none.
fn pose_value(pose: &Option<PoseValues>) -> (r: serde_json::Value)
    ensures
        json::json_text(r) == pose_text(*pose),
{
    match pose {
        Some(pose) => {
            let mut members: Vec<(&'static str, serde_json::Value)> = Vec::new();
            members.push(("orientation", quadruple_value(&pose.orientation)));
            members.push(("position", triple_value(&pose.position)));
            proof {
                let entries = pose_entries(*pose);
                lemma_pose_keys();
                assert(json::value_entries(members@) =~= entries);
                assert(json::keys_of(entries) =~= seq!["orientation"@, "position"@]);
            }
            json::object(members)
        },
        None => json::null_value(),
    }
}

/// Four values as an array.
fn quadruple_value(values: &[serde_json::Value; 4]) -> (r: serde_json::Value)
    ensures
        json::json_text(r) == quadruple_text(*values),
{
    let mut items: Vec<serde_json::Value> = Vec::new();
    items.push(json::copy_value(&values[0]));
    items.push(json::copy_value(&values[1]));
    items.push(json::copy_value(&values[2]));
    items.push(json::copy_value(&values[3]));
    assert(json::value_texts(items@) =~= json::value_texts(values@));
    json::array_value(items)
}

/// The members of an eye's flags.
pub open spec fn status_entries(status: EyePoseStatusLog) -> Seq<(Seq<char>, Seq<char>)> {
    seq![
        ("eye_openness_valid"@, bool_text(status.eye_openness_valid)),
        ("gaze_point_valid"@, bool_text(status.gaze_point_valid)),
        ("gaze_vector_valid"@, bool_text(status.gaze_vector_valid)),
        ("pupil_dilation_valid"@, bool_text(status.pupil_dilation_valid)),
        ("status_flags"@, decimal(status.status_flags as nat)),
    ]
}

/// The compact text of an eye's flags.
pub open spec fn status_text(status: EyePoseStatusLog) -> Seq<char> {
    json::object_text(status_entries(status))
}

/// The compact text of three values.
pub open spec fn triple_text(values: [serde_json::Value; 3]) -> Seq<char> {
    seq!['['] + join(json::value_texts(values@), seq![',']) + seq![']']
}

/// The members of the data of a line of an eye sample log.
pub open spec fn eye_entries(data: EyeTrackingDataLog<serde_json::Value>) -> Seq<
    (Seq<char>, Seq<char>),
> {
    seq![
        ("combined_eye_gaze_point"@, triple_text(data.combined_eye_gaze_point)),
        ("combined_eye_gaze_vector"@, triple_text(data.combined_eye_gaze_vector)),
        ("combined_eye_pose_status"@, status_text(data.combined_eye_pose_status)),
        ("foveated_gaze_direction"@, triple_text(data.foveated_gaze_direction)),
        (
            "foveated_gaze_tracking_state"@,
            signed_decimal(data.foveated_gaze_tracking_state as int),
        ),
        ("left_eye_gaze_point"@, triple_text(data.left_eye_gaze_point)),
        ("left_eye_gaze_vector"@, triple_text(data.left_eye_gaze_vector)),
        ("left_eye_openness"@, json::json_text(data.left_eye_openness)),
        ("left_eye_pose_status"@, status_text(data.left_eye_pose_status)),
        ("left_eye_position_guide"@, triple_text(data.left_eye_position_guide)),
        ("left_eye_pupil_dilation"@, json::json_text(data.left_eye_pupil_dilation)),
        ("right_eye_gaze_point"@, triple_text(data.right_eye_gaze_point)),
        ("right_eye_gaze_vector"@, triple_text(data.right_eye_gaze_vector)),
        ("right_eye_openness"@, json::json_text(data.right_eye_openness)),
        ("right_eye_pose_status"@, status_text(data.right_eye_pose_status)),
        ("right_eye_position_guide"@, triple_text(data.right_eye_position_guide)),
        ("right_eye_pupil_dilation"@, json::json_text(data.right_eye_pupil_dilation)),
        ("timestamp_ns"@, decimal(data.timestamp_ns as nat)),
    ]
}

/// A line of an eye sample log as JSON.
pub open spec fn eye_line_text(
    time: LogTime,
    data: EyeTrackingDataLog<serde_json::Value>,
) -> Seq<char> {
    line_text(time, EYE_LOG_KEY@, json::object_text(eye_entries(data)))
}

/// The keys of an eye sample are in order.
proof fn lemma_eye_keys()
    ensures
        json::ordered_keys(
            seq![
                "combined_eye_gaze_point"@,
                "combined_eye_gaze_vector"@,
                "combined_eye_pose_status"@,
                "foveated_gaze_direction"@,
                "foveated_gaze_tracking_state"@,
                "left_eye_gaze_point"@,
                "left_eye_gaze_vector"@,
                "left_eye_openness"@,
                "left_eye_pose_status"@,
                "left_eye_position_guide"@,
                "left_eye_pupil_dilation"@,
                "right_eye_gaze_point"@,
                "right_eye_gaze_vector"@,
                "right_eye_openness"@,
                "right_eye_pose_status"@,
                "right_eye_position_guide"@,
                "right_eye_pupil_dilation"@,
                "timestamp_ns"@,
            ],
        ),
{
    reveal_strlit("combined_eye_gaze_point");
    reveal_strlit("combined_eye_gaze_vector");
    reveal_strlit("combined_eye_pose_status");
    reveal_strlit("foveated_gaze_direction");
    reveal_strlit("foveated_gaze_tracking_state");
    reveal_strlit("left_eye_gaze_point");
    reveal_strlit("left_eye_gaze_vector");
    reveal_strlit("left_eye_openness");
    reveal_strlit("left_eye_pose_status");
    reveal_strlit("left_eye_position_guide");
    reveal_strlit("left_eye_pupil_dilation");
    reveal_strlit("right_eye_gaze_point");
    reveal_strlit("right_eye_gaze_vector");
    reveal_strlit("right_eye_openness");
    reveal_strlit("right_eye_pose_status");
    reveal_strlit("right_eye_position_guide");
    reveal_strlit("right_eye_pupil_dilation");
    reveal_strlit("timestamp_ns");
    json::lemma_text_less_at("combined_eye_gaze_point"@, "combined_eye_gaze_vector"@, 18);
    json::lemma_text_less_at("combined_eye_gaze_vector"@, "combined_eye_pose_status"@, 13);
    json::lemma_text_less_at("combined_eye_pose_status"@, "foveated_gaze_direction"@, 0);
    json::lemma_text_less_at("foveated_gaze_direction"@, "foveated_gaze_tracking_state"@, 14);
    json::lemma_text_less_at("foveated_gaze_tracking_state"@, "left_eye_gaze_point"@, 0);
    json::lemma_text_less_at("left_eye_gaze_point"@, "left_eye_gaze_vector"@, 14);
    json::lemma_text_less_at("left_eye_gaze_vector"@, "left_eye_openness"@, 9);
    json::lemma_text_less_at("left_eye_openness"@, "left_eye_pose_status"@, 9);
    json::lemma_text_less_at("left_eye_pose_status"@, "left_eye_position_guide"@, 12);
    json::lemma_text_less_at("left_eye_position_guide"@, "left_eye_pupil_dilation"@, 10);
    json::lemma_text_less_at("left_eye_pupil_dilation"@, "right_eye_gaze_point"@, 0);
    json::lemma_text_less_at("right_eye_gaze_point"@, "right_eye_gaze_vector"@, 15);
    json::lemma_text_less_at("right_eye_gaze_vector"@, "right_eye_openness"@, 10);
    json::lemma_text_less_at("right_eye_openness"@, "right_eye_pose_status"@, 10);
    json::lemma_text_less_at("right_eye_pose_status"@, "right_eye_position_guide"@, 13);
    json::lemma_text_less_at("right_eye_position_guide"@, "right_eye_pupil_dilation"@, 11);
    json::lemma_text_less_at("right_eye_pupil_dilation"@, "timestamp_ns"@, 0);
}

/// A line of an eye sample log as JSON.
pub fn eye_json_line(time: LogTime, data: &EyeTrackingDataLog<serde_json::Value>) -> (r: String)
    ensures
        r@ == eye_line_text(time, *data),
{
    let mut members: Vec<(&'static str, serde_json::Value)> = Vec::new();
    members.push(("combined_eye_gaze_point", triple_value(&data.combined_eye_gaze_point)));
    members.push(("combined_eye_gaze_vector", triple_value(&data.combined_eye_gaze_vector)));
    members.push(("combined_eye_pose_status", status_value(&data.combined_eye_pose_status)));
    members.push(("foveated_gaze_direction", triple_value(&data.foveated_gaze_direction)));
    members.push(
        (
            "foveated_gaze_tracking_state",
            json::signed_value(data.foveated_gaze_tracking_state),
        ),
    );
    members.push(("left_eye_gaze_point", triple_value(&data.left_eye_gaze_point)));
    members.push(("left_eye_gaze_vector", triple_value(&data.left_eye_gaze_vector)));
    members.push(("left_eye_openness", json::copy_value(&data.left_eye_openness)));
    members.push(("left_eye_pose_status", status_value(&data.left_eye_pose_status)));
    members.push(("left_eye_position_guide", triple_value(&data.left_eye_position_guide)));
    members.push(("left_eye_pupil_dilation", json::copy_value(&data.left_eye_pupil_dilation)));
    members.push(("right_eye_gaze_point", triple_value(&data.right_eye_gaze_point)));
    members.push(("right_eye_gaze_vector", triple_value(&data.right_eye_gaze_vector)));
    members.push(("right_eye_openness", json::copy_value(&data.right_eye_openness)));
    members.push(("right_eye_pose_status", status_value(&data.right_eye_pose_status)));
    members.push(("right_eye_position_guide", triple_value(&data.right_eye_position_guide)));
    members.push(("right_eye_pupil_dilation", json::copy_value(&data.right_eye_pupil_dilation)));
    members.push(("timestamp_ns", json::unsigned_value(data.timestamp_ns)));
    proof {
        let entries = eye_entries(*data);
        lemma_eye_keys();
        assert(json::value_entries(members@) =~= entries);
        assert(json::keys_of(entries) =~= seq![
            "combined_eye_gaze_point"@,
            "combined_eye_gaze_vector"@,
            "combined_eye_pose_status"@,
            "foveated_gaze_direction"@,
            "foveated_gaze_tracking_state"@,
            "left_eye_gaze_point"@,
            "left_eye_gaze_vector"@,
            "left_eye_openness"@,
            "left_eye_pose_status"@,
            "left_eye_position_guide"@,
            "left_eye_pupil_dilation"@,
            "right_eye_gaze_point"@,
            "right_eye_gaze_vector"@,
            "right_eye_openness"@,
            "right_eye_pose_status"@,
            "right_eye_position_guide"@,
            "right_eye_pupil_dilation"@,
            "timestamp_ns"@,
        ]);
        reveal_strlit("pico_eye_tracking_raw");
    }
    json_line(time, EYE_LOG_KEY, json::object(members))
}

/// The keys of an eye's flags are in order.
proof fn lemma_status_keys()
    ensures
        json::ordered_keys(
            seq![
                "eye_openness_valid"@,
                "gaze_point_valid"@,
                "gaze_vector_valid"@,
                "pupil_dilation_valid"@,
                "status_flags"@,
            ],
        ),
{
    reveal_strlit("eye_openness_valid");
    reveal_strlit("gaze_point_valid");
    reveal_strlit("gaze_vector_valid");
    reveal_strlit("pupil_dilation_valid");
    reveal_strlit("status_flags");
    json::lemma_text_less_at("eye_openness_valid"@, "gaze_point_valid"@, 0);
    json::lemma_text_less_at("gaze_point_valid"@, "gaze_vector_valid"@, 5);
    json::lemma_text_less_at("gaze_vector_valid"@, "pupil_dilation_valid"@, 0);
    json::lemma_text_less_at("pupil_dilation_valid"@, "status_flags"@, 0);
}

/// The flags of an eye as an object.
fn status_value(status: &EyePoseStatusLog) -> (r: serde_json::Value)
    ensures
        json::json_text(r) == status_text(*status),
{
    let mut members: Vec<(&'static str, serde_json::Value)> = Vec::new();
    members.push(("eye_openness_valid", json::bool_value(status.eye_openness_valid)));
    members.push(("gaze_point_valid", json::bool_value(status.gaze_point_valid)));
    members.push(("gaze_vector_valid", json::bool_value(status.gaze_vector_valid)));
    members.push(("pupil_dilation_valid", json::bool_value(status.pupil_dilation_valid)));
    members.push(("status_flags", json::unsigned_value(status.status_flags as u64)));
    proof {
        let entries = status_entries(*status);
        lemma_status_keys();
        assert(json::value_entries(members@) =~= entries);
        assert(json::keys_of(entries) =~= seq![
            "eye_openness_valid"@,
            "gaze_point_valid"@,
            "gaze_vector_valid"@,
            "pupil_dilation_valid"@,
            "status_flags"@,
        ]);
    }
    json::object(members)
}

/// Three values as an array.
fn triple_value(values: &[serde_json::Value; 3]) -> (r: serde_json::Value)
    ensures
        json::json_text(r) == triple_text(*values),
{
    let mut items: Vec<serde_json::Value> = Vec::new();
    items.push(json::copy_value(&values[0]));
    items.push(json::copy_value(&values[1]));
    items.push(json::copy_value(&values[2]));
    assert(json::value_texts(items@) =~= json::value_texts(values@));
    json::array_value(items)
}

/// No name of a column holds a comma.
proof fn lemma_gaze_names_are_plain()
    ensures
        forall|i: int|
            0 <= i < gaze_column_names().len() ==> !(#[trigger] gaze_column_names()[i]).contains(','),
{
    reveal_strlit("timestamp_ms");
    reveal_strlit("unix_timestamp");
    reveal_strlit("device_motion_key");
    reveal_strlit("left_eye_pos_x");
    reveal_strlit("left_eye_pos_y");
    reveal_strlit("left_eye_pos_z");
    reveal_strlit("left_eye_ori_x");
    reveal_strlit("left_eye_ori_y");
    reveal_strlit("left_eye_ori_z");
    reveal_strlit("left_eye_ori_w");
    reveal_strlit("right_eye_pos_x");
    reveal_strlit("right_eye_pos_y");
    reveal_strlit("right_eye_pos_z");
    reveal_strlit("right_eye_ori_x");
    reveal_strlit("right_eye_ori_y");
    reveal_strlit("right_eye_ori_z");
    reveal_strlit("right_eye_ori_w");
}

/// No name of a column holds a comma.
proof fn lemma_eye_names_are_plain()
    ensures
        forall|i: int|
            0 <= i < eye_column_names().len() ==> !(#[trigger] eye_column_names()[i]).contains(','),
{
    reveal_strlit("timestamp_ms");
    reveal_strlit("unix_timestamp");
    reveal_strlit("device_motion_key");
    reveal_strlit("timestamp_ns");
    reveal_strlit("left_status_flags");
    reveal_strlit("left_gaze_point_valid");
    reveal_strlit("left_gaze_vector_valid");
    reveal_strlit("left_eye_openness_valid");
    reveal_strlit("left_pupil_dilation_valid");
    reveal_strlit("right_status_flags");
    reveal_strlit("right_gaze_point_valid");
    reveal_strlit("right_gaze_vector_valid");
    reveal_strlit("right_eye_openness_valid");
    reveal_strlit("right_pupil_dilation_valid");
    reveal_strlit("combined_status_flags");
    reveal_strlit("combined_gaze_point_valid");
    reveal_strlit("combined_gaze_vector_valid");
    reveal_strlit("combined_eye_openness_valid");
    reveal_strlit("combined_pupil_dilation_valid");
    reveal_strlit("left_gaze_point_x");
    reveal_strlit("left_gaze_point_y");
    reveal_strlit("left_gaze_point_z");
    reveal_strlit("right_gaze_point_x");
    reveal_strlit("right_gaze_point_y");
    reveal_strlit("right_gaze_point_z");
    reveal_strlit("combined_gaze_point_x");
    reveal_strlit("combined_gaze_point_y");
    reveal_strlit("combined_gaze_point_z");
    reveal_strlit("left_gaze_vector_x");
    reveal_strlit("left_gaze_vector_y");
    reveal_strlit("left_gaze_vector_z");
    reveal_strlit("right_gaze_vector_x");
    reveal_strlit("right_gaze_vector_y");
    reveal_strlit("right_gaze_vector_z");
    reveal_strlit("combined_gaze_vector_x");
    reveal_strlit("combined_gaze_vector_y");
    reveal_strlit("combined_gaze_vector_z");
    reveal_strlit("left_eye_openness");
    reveal_strlit("right_eye_openness");
    reveal_strlit("left_pupil_dilation");
    reveal_strlit("right_pupil_dilation");
    reveal_strlit("left_position_guide_x");
    reveal_strlit("left_position_guide_y");
    reveal_strlit("left_position_guide_z");
    reveal_strlit("right_position_guide_x");
    reveal_strlit("right_position_guide_y");
    reveal_strlit("right_position_guide_z");
    reveal_strlit("foveated_gaze_direction_x");
    reveal_strlit("foveated_gaze_direction_y");
    reveal_strlit("foveated_gaze_direction_z");
    reveal_strlit("foveated_gaze_tracking_state");
}

/// The first line of a log names its columns, as many as each later line fills: with one eye as with
/// two for a gaze log, and always the same number for an eye sample log.
pub proof fn law_rows_fill_the_columns(
    time: LogTime,
    left: Option<PoseTexts>,
    right: Option<PoseTexts>,
    data: EyeTrackingDataLog<String>,
)
    ensures
        split(join(gaze_column_names(), seq![',']), ',') == gaze_column_names(),
        gaze_column_names().len() == 17,
        gaze_columns(time, left, right).len() == 17,
        split(join(eye_column_names(), seq![',']), ',') == eye_column_names(),
        eye_column_names().len() == 51,
        eye_columns(time, data).len() == 51,
{
    lemma_gaze_names_are_plain();
    law_joined_pieces_split(gaze_column_names(), ',');
    lemma_eye_names_are_plain();
    law_joined_pieces_split(eye_column_names(), ',');
}

/// Each column of a gaze log has its name and its value at the same place: a pose's numbers under the
/// names of their eye and axis, and `null` for an eye without a pose.
pub proof fn law_gaze_rows_match_their_columns(
    time: LogTime,
    left: Option<PoseTexts>,
    right: Option<PoseTexts>,
)
    ensures
        ({
            let names = gaze_column_names();
            let row = gaze_columns(time, left, right);
            &&& names.len() == 17 && row.len() == 17
            &&& names[0] == "timestamp_ms"@ && row[0] == decimal(time.timestamp_ms as nat)
            &&& names[1] == "unix_timestamp"@ && row[1] == decimal(time.unix_timestamp as nat)
            &&& names[2] == "device_motion_key"@ && row[2] == "eye_tracking"@
            &&& names[3] == "left_eye_pos_x"@ && row[3] == (if left is Some {
                left->0.position[0]@
            } else {
                "null"@
            })
            &&& names[4] == "left_eye_pos_y"@ && row[4] == (if left is Some {
                left->0.position[1]@
            } else {
                "null"@
            })
            &&& names[5] == "left_eye_pos_z"@ && row[5] == (if left is Some {
                left->0.position[2]@
            } else {
                "null"@
            })
            &&& names[6] == "left_eye_ori_x"@ && row[6] == (if left is Some {
                left->0.orientation[0]@
            } else {
                "null"@
            })
            &&& names[7] == "left_eye_ori_y"@ && row[7] == (if left is Some {
                left->0.orientation[1]@
            } else {
                "null"@
            })
            &&& names[8] == "left_eye_ori_z"@ && row[8] == (if left is Some {
                left->0.orientation[2]@
            } else {
                "null"@
            })
            &&& names[9] == "left_eye_ori_w"@ && row[9] == (if left is Some {
                left->0.orientation[3]@
            } else {
                "null"@
            })
            &&& names[10] == "right_eye_pos_x"@ && row[10] == (if right is Some {
                right->0.position[0]@
            } else {
                "null"@
            })
            &&& names[11] == "right_eye_pos_y"@ && row[11] == (if right is Some {
                right->0.position[1]@
            } else {
                "null"@
            })
            &&& names[12] == "right_eye_pos_z"@ && row[12] == (if right is Some {
                right->0.position[2]@
            } else {
                "null"@
            })
            &&& names[13] == "right_eye_ori_x"@ && row[13] == (if right is Some {
                right->0.orientation[0]@
            } else {
                "null"@
            })
            &&& names[14] == "right_eye_ori_y"@ && row[14] == (if right is Some {
                right->0.orientation[1]@
            } else {
                "null"@
            })
            &&& names[15] == "right_eye_ori_z"@ && row[15] == (if right is Some {
                right->0.orientation[2]@
            } else {
                "null"@
            })
            &&& names[16] == "right_eye_ori_w"@ && row[16] == (if right is Some {
                right->0.orientation[3]@
            } else {
                "null"@
            })
        }),
{
    reveal_strlit("null");
    assert("null"@ =~= null_text());
}

/// Each column of an eye sample log has its name and its value at the same place: the value of the eye
/// and axis that the name tells.
pub proof fn law_eye_rows_match_their_columns(time: LogTime, data: EyeTrackingDataLog<String>)
    ensures
        ({
            let names = eye_column_names();
            let row = eye_columns(time, data);
            &&& names.len() == 51 && row.len() == 51
            &&& names[0] == "timestamp_ms"@ && row[0] == decimal(time.timestamp_ms as nat)
            &&& names[1] == "unix_timestamp"@ && row[1] == decimal(time.unix_timestamp as nat)
            &&& names[2] == "device_motion_key"@ && row[2] == "pico_eye_tracking_raw"@
            &&& names[3] == "timestamp_ns"@ && row[3] == decimal(data.timestamp_ns as nat)
            &&& names[4] == "left_status_flags"@ && row[4] == decimal(
                data.left_eye_pose_status.status_flags as nat,
            )
            &&& names[5] == "left_gaze_point_valid"@ && row[5] == bool_text(
                data.left_eye_pose_status.gaze_point_valid,
            )
            &&& names[6] == "left_gaze_vector_valid"@ && row[6] == bool_text(
                data.left_eye_pose_status.gaze_vector_valid,
            )
            &&& names[7] == "left_eye_openness_valid"@ && row[7] == bool_text(
                data.left_eye_pose_status.eye_openness_valid,
            )
            &&& names[8] == "left_pupil_dilation_valid"@ && row[8] == bool_text(
                data.left_eye_pose_status.pupil_dilation_valid,
            )
            &&& names[9] == "right_status_flags"@ && row[9] == decimal(
                data.right_eye_pose_status.status_flags as nat,
            )
            &&& names[10] == "right_gaze_point_valid"@ && row[10] == bool_text(
                data.right_eye_pose_status.gaze_point_valid,
            )
            &&& names[11] == "right_gaze_vector_valid"@ && row[11] == bool_text(
                data.right_eye_pose_status.gaze_vector_valid,
            )
            &&& names[12] == "right_eye_openness_valid"@ && row[12] == bool_text(
                data.right_eye_pose_status.eye_openness_valid,
            )
            &&& names[13] == "right_pupil_dilation_valid"@ && row[13] == bool_text(
                data.right_eye_pose_status.pupil_dilation_valid,
            )
            &&& names[14] == "combined_status_flags"@ && row[14] == decimal(
                data.combined_eye_pose_status.status_flags as nat,
            )
            &&& names[15] == "combined_gaze_point_valid"@ && row[15] == bool_text(
                data.combined_eye_pose_status.gaze_point_valid,
            )
            &&& names[16] == "combined_gaze_vector_valid"@ && row[16] == bool_text(
                data.combined_eye_pose_status.gaze_vector_valid,
            )
            &&& names[17] == "combined_eye_openness_valid"@ && row[17] == bool_text(
                data.combined_eye_pose_status.eye_openness_valid,
            )
            &&& names[18] == "combined_pupil_dilation_valid"@ && row[18] == bool_text(
                data.combined_eye_pose_status.pupil_dilation_valid,
            )
            &&& names[19] == "left_gaze_point_x"@ && row[19] == data.left_eye_gaze_point[0]@
            &&& names[20] == "left_gaze_point_y"@ && row[20] == data.left_eye_gaze_point[1]@
            &&& names[21] == "left_gaze_point_z"@ && row[21] == data.left_eye_gaze_point[2]@
            &&& names[22] == "right_gaze_point_x"@ && row[22] == data.right_eye_gaze_point[0]@
            &&& names[23] == "right_gaze_point_y"@ && row[23] == data.right_eye_gaze_point[1]@
            &&& names[24] == "right_gaze_point_z"@ && row[24] == data.right_eye_gaze_point[2]@
            &&& names[25] == "combined_gaze_point_x"@ && row[25] == data.combined_eye_gaze_point[0]@
            &&& names[26] == "combined_gaze_point_y"@ && row[26] == data.combined_eye_gaze_point[1]@
            &&& names[27] == "combined_gaze_point_z"@ && row[27] == data.combined_eye_gaze_point[2]@
            &&& names[28] == "left_gaze_vector_x"@ && row[28] == data.left_eye_gaze_vector[0]@
            &&& names[29] == "left_gaze_vector_y"@ && row[29] == data.left_eye_gaze_vector[1]@
            &&& names[30] == "left_gaze_vector_z"@ && row[30] == data.left_eye_gaze_vector[2]@
            &&& names[31] == "right_gaze_vector_x"@ && row[31] == data.right_eye_gaze_vector[0]@
            &&& names[32] == "right_gaze_vector_y"@ && row[32] == data.right_eye_gaze_vector[1]@
            &&& names[33] == "right_gaze_vector_z"@ && row[33] == data.right_eye_gaze_vector[2]@
            &&& names[34] == "combined_gaze_vector_x"@
            &&& row[34] == data.combined_eye_gaze_vector[0]@
            &&& names[35] == "combined_gaze_vector_y"@
            &&& row[35] == data.combined_eye_gaze_vector[1]@
            &&& names[36] == "combined_gaze_vector_z"@
            &&& row[36] == data.combined_eye_gaze_vector[2]@
            &&& names[37] == "left_eye_openness"@ && row[37] == data.left_eye_openness@
            &&& names[38] == "right_eye_openness"@ && row[38] == data.right_eye_openness@
            &&& names[39] == "left_pupil_dilation"@ && row[39] == data.left_eye_pupil_dilation@
            &&& names[40] == "right_pupil_dilation"@ && row[40] == data.right_eye_pupil_dilation@
            &&& names[41] == "left_position_guide_x"@ && row[41] == data.left_eye_position_guide[0]@
            &&& names[42] == "left_position_guide_y"@ && row[42] == data.left_eye_position_guide[1]@
            &&& names[43] == "left_position_guide_z"@ && row[43] == data.left_eye_position_guide[2]@
            &&& names[44] == "right_position_guide_x"@
            &&& row[44] == data.right_eye_position_guide[0]@
            &&& names[45] == "right_position_guide_y"@
            &&& row[45] == data.right_eye_position_guide[1]@
            &&& names[46] == "right_position_guide_z"@
            &&& row[46] == data.right_eye_position_guide[2]@
            &&& names[47] == "foveated_gaze_direction_x"@
            &&& row[47] == data.foveated_gaze_direction[0]@
            &&& names[48] == "foveated_gaze_direction_y"@
            &&& row[48] == data.foveated_gaze_direction[1]@
            &&& names[49] == "foveated_gaze_direction_z"@
            &&& row[49] == data.foveated_gaze_direction[2]@
            &&& names[50] == "foveated_gaze_tracking_state"@ && row[50] == signed_decimal(
                data.foveated_gaze_tracking_state as int,
            )
        }),
{
}

/// An eye sample as JSON has a member for each of its values, under the value's own name, in the order
/// of the names.
pub proof fn law_eye_members_are_the_sample(data: EyeTrackingDataLog<serde_json::Value>)
    ensures
        ({
            let entries = eye_entries(data);
            &&& entries.len() == 18
            &&& entries[0].0 == "combined_eye_gaze_point"@
            &&& entries[0].1 == triple_text(data.combined_eye_gaze_point)
            &&& entries[1].0 == "combined_eye_gaze_vector"@
            &&& entries[1].1 == triple_text(data.combined_eye_gaze_vector)
            &&& entries[2].0 == "combined_eye_pose_status"@
            &&& entries[2].1 == status_text(data.combined_eye_pose_status)
            &&& entries[3].0 == "foveated_gaze_direction"@
            &&& entries[3].1 == triple_text(data.foveated_gaze_direction)
            &&& entries[4].0 == "foveated_gaze_tracking_state"@ && entries[4].1 == signed_decimal(
                data.foveated_gaze_tracking_state as int,
            )
            &&& entries[5].0 == "left_eye_gaze_point"@
            &&& entries[5].1 == triple_text(data.left_eye_gaze_point)
            &&& entries[6].0 == "left_eye_gaze_vector"@
            &&& entries[6].1 == triple_text(data.left_eye_gaze_vector)
            &&& entries[7].0 == "left_eye_openness"@
            &&& entries[7].1 == json::json_text(data.left_eye_openness)
            &&& entries[8].0 == "left_eye_pose_status"@
            &&& entries[8].1 == status_text(data.left_eye_pose_status)
            &&& entries[9].0 == "left_eye_position_guide"@
            &&& entries[9].1 == triple_text(data.left_eye_position_guide)
            &&& entries[10].0 == "left_eye_pupil_dilation"@
            &&& entries[10].1 == json::json_text(data.left_eye_pupil_dilation)
            &&& entries[11].0 == "right_eye_gaze_point"@
            &&& entries[11].1 == triple_text(data.right_eye_gaze_point)
            &&& entries[12].0 == "right_eye_gaze_vector"@
            &&& entries[12].1 == triple_text(data.right_eye_gaze_vector)
            &&& entries[13].0 == "right_eye_openness"@
            &&& entries[13].1 == json::json_text(data.right_eye_openness)
            &&& entries[14].0 == "right_eye_pose_status"@
            &&& entries[14].1 == status_text(data.right_eye_pose_status)
            &&& entries[15].0 == "right_eye_position_guide"@
            &&& entries[15].1 == triple_text(data.right_eye_position_guide)
            &&& entries[16].0 == "right_eye_pupil_dilation"@
            &&& entries[16].1 == json::json_text(data.right_eye_pupil_dilation)
            &&& entries[17].0 == "timestamp_ns"@
            &&& entries[17].1 == decimal(data.timestamp_ns as nat)
        }),
{
}

/// Three and four values are written in their order, in brackets.
pub proof fn law_arrays_are_written(three: [serde_json::Value; 3], four: [serde_json::Value; 4])
    ensures
        triple_text(three) == "["@ + json::json_text(three[0]) + ","@ + json::json_text(three[1])
            + ","@ + json::json_text(three[2]) + "]"@,
        quadruple_text(four) == "["@ + json::json_text(four[0]) + ","@ + json::json_text(four[1])
            + ","@ + json::json_text(four[2]) + ","@ + json::json_text(four[3]) + "]"@,
{
    reveal_strlit("[");
    reveal_strlit(",");
    reveal_strlit("]");
    reveal_with_fuel(join, 4);
    assert(triple_text(three) =~= "["@ + json::json_text(three[0]) + ","@ + json::json_text(
        three[1],
    ) + ","@ + json::json_text(three[2]) + "]"@);
    assert(quadruple_text(four) =~= "["@ + json::json_text(four[0]) + ","@ + json::json_text(
        four[1],
    ) + ","@ + json::json_text(four[2]) + ","@ + json::json_text(four[3]) + "]"@);
}

/// A line of JSON names its data, what it is known by and its two times, in this order.
pub proof fn law_line_is_written(time: LogTime, key: Seq<char>, data: Seq<char>)
    ensures
        line_text(time, key, data) == "{\"data\":"@ + data + ",\"device_motion_key\":\""@ + key
            + "\",\"timestamp_ms\":"@ + decimal(time.timestamp_ms as nat)
            + ",\"unix_timestamp\":"@ + decimal(time.unix_timestamp as nat) + "}"@,
{
    reveal_strlit("data");
    reveal_strlit("device_motion_key");
    reveal_strlit("timestamp_ms");
    reveal_strlit("unix_timestamp");
    reveal_strlit("{\"data\":");
    reveal_strlit(",\"device_motion_key\":\"");
    reveal_strlit("\",\"timestamp_ms\":");
    reveal_strlit(",\"unix_timestamp\":");
    reveal_strlit("}");
    reveal_with_fuel(join, 4);
    assert(line_text(time, key, data) =~= "{\"data\":"@ + data + ",\"device_motion_key\":\""@ + key
        + "\",\"timestamp_ms\":"@ + decimal(time.timestamp_ms as nat) + ",\"unix_timestamp\":"@
        + decimal(time.unix_timestamp as nat) + "}"@);
}

/// A line about a gaze is known by `eye_tracking` and holds the left eye's pose and the right eye's,
/// each `null` where it is missing.
pub proof fn law_gaze_line_is_written(
    time: LogTime,
    left: Option<PoseValues>,
    right: Option<PoseValues>,
)
    ensures
        gaze_line_text(time, left, right) == line_text(
            time,
            "eye_tracking"@,
            "{\"left_eye\":"@ + pose_text(left) + ",\"right_eye\":"@ + pose_text(right) + "}"@,
        ),
        left is None ==> pose_text(left) == "null"@,
        left matches Some(pose) ==> pose_text(left) == "{\"orientation\":"@ + quadruple_text(
            pose.orientation,
        ) + ",\"position\":"@ + triple_text(pose.position) + "}"@,
{
    reveal_strlit("left_eye");
    reveal_strlit("right_eye");
    reveal_strlit("{\"left_eye\":");
    reveal_strlit(",\"right_eye\":");
    reveal_strlit("}");
    reveal_strlit("null");
    reveal_strlit("orientation");
    reveal_strlit("position");
    reveal_strlit("{\"orientation\":");
    reveal_strlit(",\"position\":");
    reveal_with_fuel(join, 2);
    assert(json::object_text(gaze_entries(left, right)) =~= "{\"left_eye\":"@ + pose_text(left)
        + ",\"right_eye\":"@ + pose_text(right) + "}"@);
    match left {
        Some(pose) => {
            assert(pose_text(left) =~= "{\"orientation\":"@ + quadruple_text(pose.orientation)
                + ",\"position\":"@ + triple_text(pose.position) + "}"@);
        },
        None => {
            assert(pose_text(left) =~= "null"@);
        },
    }
}

/// The text of an object with five members, taken apart before the members.
proof fn lemma_object_of_five(entries: Seq<(Seq<char>, Seq<char>)>)
    requires
        entries.len() == 5,
    ensures
        json::object_text(entries) == (seq!['{'] + json::entry_text(entries[0])) + (seq![',']
            + json::entry_text(entries[1])) + (seq![','] + json::entry_text(entries[2])) + (
        seq![','] + json::entry_text(entries[3])) + (seq![','] + json::entry_text(entries[4]))
            + seq!['}'],
{
    let parts = entries.map_values(|e: (Seq<char>, Seq<char>)| json::entry_text(e));
    let sep = seq![','];
    let one = parts.take(1);
    let two = parts.take(2);
    let three = parts.take(3);
    let four = parts.take(4);
    assert(two.drop_last() =~= one);
    assert(three.drop_last() =~= two);
    assert(four.drop_last() =~= three);
    assert(parts.drop_last() =~= four);
    assert(join(one, sep) == parts[0]);
    assert(join(two, sep) == parts[0] + sep + parts[1]);
    assert(join(three, sep) == parts[0] + sep + parts[1] + sep + parts[2]);
    assert(join(four, sep) == parts[0] + sep + parts[1] + sep + parts[2] + sep + parts[3]);
    assert(json::object_text(entries) =~= (seq!['{'] + parts[0]) + (sep + parts[1]) + (sep
        + parts[2]) + (sep + parts[3]) + (sep + parts[4]) + seq!['}']);
}

/// Texts can be put together in any grouping.
proof fn lemma_regroup(
    first: Seq<char>,
    a: Seq<char>,
    b: Seq<char>,
    c: Seq<char>,
    d: Seq<char>,
    e: Seq<char>,
    f: Seq<char>,
    g: Seq<char>,
    h: Seq<char>,
)
    ensures
        first + (a + b) + (c + d) + (e + f) + (g + h) == first + a + b + c + d + e + f + g + h,
{
    assert(first + (a + b) =~= first + a + b);
    let ab = first + a + b;
    assert(ab + (c + d) =~= ab + c + d);
    let cd = ab + c + d;
    assert(cd + (e + f) =~= cd + e + f);
    let ef = cd + e + f;
    assert(ef + (g + h) =~= ef + g + h);
}

/// A line about an eye sample is known by `pico_eye_tracking_raw` and holds the sample's members.
pub proof fn law_eye_line_is_written(
    time: LogTime,
    data: EyeTrackingDataLog<serde_json::Value>,
    status: EyePoseStatusLog,
)
    ensures
        eye_line_text(time, data) == line_text(
            time,
            "pico_eye_tracking_raw"@,
            json::object_text(eye_entries(data)),
        ),
        status_text(status) == "{\"eye_openness_valid\":"@ + bool_text(status.eye_openness_valid)
            + ",\"gaze_point_valid\":"@ + bool_text(status.gaze_point_valid)
            + ",\"gaze_vector_valid\":"@ + bool_text(status.gaze_vector_valid)
            + ",\"pupil_dilation_valid\":"@ + bool_text(status.pupil_dilation_valid)
            + ",\"status_flags\":"@ + decimal(status.status_flags as nat) + "}"@,
{
    let entries = status_entries(status);
    lemma_object_of_five(entries);
    let v0 = bool_text(status.eye_openness_valid);
    let v1 = bool_text(status.gaze_point_valid);
    let v2 = bool_text(status.gaze_vector_valid);
    let v3 = bool_text(status.pupil_dilation_valid);
    let v4 = decimal(status.status_flags as nat);
    assert(seq!['{'] + json::entry_text(entries[0]) == "{\"eye_openness_valid\":"@ + v0) by {
        reveal_strlit("eye_openness_valid");
        reveal_strlit("{\"eye_openness_valid\":");
        assert(seq!['{'] + json::entry_text(("eye_openness_valid"@, v0))
            =~= "{\"eye_openness_valid\":"@ + v0);
    }
    assert(seq![','] + json::entry_text(entries[1]) == ",\"gaze_point_valid\":"@ + v1) by {
        reveal_strlit("gaze_point_valid");
        reveal_strlit(",\"gaze_point_valid\":");
        assert(seq![','] + json::entry_text(("gaze_point_valid"@, v1)) =~= ",\"gaze_point_valid\":"@ + v1);
    }
    assert(seq![','] + json::entry_text(entries[2]) == ",\"gaze_vector_valid\":"@ + v2) by {
        reveal_strlit("gaze_vector_valid");
        reveal_strlit(",\"gaze_vector_valid\":");
        assert(seq![','] + json::entry_text(("gaze_vector_valid"@, v2)) =~= ",\"gaze_vector_valid\":"@ + v2);
    }
    assert(seq![','] + json::entry_text(entries[3]) == ",\"pupil_dilation_valid\":"@ + v3) by {
        reveal_strlit("pupil_dilation_valid");
        reveal_strlit(",\"pupil_dilation_valid\":");
        assert(seq![','] + json::entry_text(("pupil_dilation_valid"@, v3)) =~= ",\"pupil_dilation_valid\":"@ + v3);
    }
    assert(seq![','] + json::entry_text(entries[4]) == ",\"status_flags\":"@ + v4) by {
        reveal_strlit("status_flags");
        reveal_strlit(",\"status_flags\":");
        assert(seq![','] + json::entry_text(("status_flags"@, v4)) =~= ",\"status_flags\":"@ + v4);
    }
    assert("}"@ == seq!['}']) by {
        reveal_strlit("}");
        assert("}"@ =~= seq!['}']);
    }
    lemma_regroup(
        "{\"eye_openness_valid\":"@ + v0,
        ",\"gaze_point_valid\":"@,
        v1,
        ",\"gaze_vector_valid\":"@,
        v2,
        ",\"pupil_dilation_valid\":"@,
        v3,
        ",\"status_flags\":"@,
        v4,
    );
}

/// A file is begun with the first line and with every line of another minute than the line before it.
pub proof fn law_files_are_begun_by_the_minute(last_minute: Option<u64>, current: u64, next: u64)
    ensures
        starts_minute(None, current),
        starts_minute(Some(current), next) <==> next != current,
{
}

/// The times of a line are whole milliseconds, rounded down, as long as they fit.
pub proof fn law_line_times_are_milliseconds(timestamp: Duration, now: Duration)
    ensures
        timestamp@ < 0x1_0000_0000_0000_0000 * 1_000_000 ==> time_of(timestamp, now).timestamp_ms
            * 1_000_000 <= timestamp@ < (time_of(timestamp, now).timestamp_ms + 1) * 1_000_000,
        now@ < 0x1_0000_0000_0000_0000 * 1_000_000 ==> time_of(timestamp, now).unix_timestamp
            * 1_000_000 <= now@ < (time_of(timestamp, now).unix_timestamp + 1) * 1_000_000,
{
}

} // verus!
