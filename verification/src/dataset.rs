//! Whether and where measurements are collected.

use crate::statistics::DatasetSessionMetadata;
use crate::text::{trim_string, trimmed};
use crate::time::Duration;
use vstd::prelude::*;

verus! {

/// Where telemetry goes unless the settings say otherwise.
pub const DEFAULT_TELEMETRY_ENDPOINT: &'static str = "127.0.0.1:49152";

/// The directory of recordings below the log directory.
pub const DATASET_DIR: &'static str = "dataset";

/// The event log of a recording session.
pub const EVENT_LOG_FILE: &'static str = "telemetry_event.csv";

/// The state log of a recording session.
pub const STATE_LOG_FILE: &'static str = "telemetry_state_90hz.csv";

/// The list of a recording session's video files.
pub const VIDEO_MANIFEST_FILE: &'static str = "video_manifest.csv";

/// What an empty list of video files holds.
pub const VIDEO_MANIFEST_HEADER: &'static str = "file,start_ms,duration_ms\n";

/// How many measurements may wait for a writer.
pub const DATA_COLLECTION_QUEUE_LEN: usize = 32;

/// How long a video file is, in seconds, where no rolling recording is set up.
pub const DEFAULT_SEGMENT_SECS: u64 = 10;

/// The settings that bear on the collection of measurements.
#[derive(Debug)]
pub struct CollectionSettings {
    pub enable_data_collection: bool,
    pub data_collection_endpoint: String,
    pub enable_dataset_collection: bool,
    pub dataset_directory: String,
    /// The length of a rolling video file in seconds, where such files are enabled.
    pub rolling_video_duration_s: Option<u64>,
}

/// Where recording sessions are kept.
#[derive(Debug)]
pub enum DatasetDirectory {
    /// Below the log directory.
    Logs,
    Custom(String),
}

/// What becomes of the dataset.
#[derive(Debug)]
pub enum DatasetPlan {
    /// No recording is wanted.
    Disabled,
    /// A recording is wanted, but the file system layout is not known.
    LayoutUnavailable,
    Record(DatasetDirectory),
}

/// What becomes of the measurements.
#[derive(Debug)]
pub struct CollectionPlan {
    /// Where they are uploaded.
    pub telemetry_endpoint: Option<String>,
    pub dataset: DatasetPlan,
    pub video_segment_duration: Duration,
}

/// The setting, or the default where it is blank.
pub open spec fn endpoint_text(setting: Seq<char>) -> Seq<char> {
    if trimmed(setting).len() == 0 {
        DEFAULT_TELEMETRY_ENDPOINT@
    } else {
        trimmed(setting)
    }
}

/// The plan that settings lead to.
pub open spec fn is_plan_for(
    plan: CollectionPlan,
    settings: CollectionSettings,
    layout_available: bool,
) -> bool {
    &&& match plan.telemetry_endpoint {
        Some(endpoint) => settings.enable_data_collection && endpoint@ == endpoint_text(
            settings.data_collection_endpoint@,
        ),
        None => !settings.enable_data_collection,
    }
    &&& match plan.dataset {
        DatasetPlan::Disabled => !(settings.enable_data_collection
            && settings.enable_dataset_collection),
        DatasetPlan::LayoutUnavailable => settings.enable_data_collection
            && settings.enable_dataset_collection && !layout_available,
        DatasetPlan::Record(directory) => {
            &&& settings.enable_data_collection
            &&& settings.enable_dataset_collection
            &&& layout_available
            &&& match directory {
                DatasetDirectory::Logs => trimmed(settings.dataset_directory@).len() == 0,
                DatasetDirectory::Custom(path) => path@.len() > 0 && path@ == trimmed(
                    settings.dataset_directory@,
                ),
            }
        },
    }
    &&& plan.video_segment_duration@ == segment_secs(settings.rolling_video_duration_s)
        * 1_000_000_000
}

/// The length of a video file in seconds, which is at least one.
pub open spec fn segment_secs(rolling_video_duration_s: Option<u64>) -> nat {
    match rolling_video_duration_s {
        Some(secs) => if secs < 1 {
            1
        } else {
            secs as nat
        },
        None => DEFAULT_SEGMENT_SECS as nat,
    }
}

/// Decides what becomes of the measurements.
pub fn plan_collection(settings: &CollectionSettings, layout_available: bool) -> (r: CollectionPlan)
    ensures
        is_plan_for(r, *settings, layout_available),
{
    let telemetry_endpoint = if settings.enable_data_collection {
        let endpoint = trim_string(settings.data_collection_endpoint.as_str());
        if endpoint.as_str().unicode_len() == 0 {
            Some(DEFAULT_TELEMETRY_ENDPOINT.to_owned())
        } else {
            Some(endpoint)
        }
    } else {
        None
    };
    let dataset = if settings.enable_data_collection && settings.enable_dataset_collection {
        if layout_available {
            let directory = trim_string(settings.dataset_directory.as_str());
            if directory.as_str().unicode_len() == 0 {
                DatasetPlan::Record(DatasetDirectory::Logs)
            } else {
                DatasetPlan::Record(DatasetDirectory::Custom(directory))
            }
        } else {
            DatasetPlan::LayoutUnavailable
        }
    } else {
        DatasetPlan::Disabled
    };
    let secs: u64 = match settings.rolling_video_duration_s {
        Some(secs) => if secs < 1 {
            1
        } else {
            secs
        },
        None => DEFAULT_SEGMENT_SECS,
    };
    CollectionPlan {
        telemetry_endpoint,
        dataset,
        video_segment_duration: Duration::from_secs(secs),
    }
}

/// The recording session of a plan.
pub open spec fn session_of<P>(
    plan: CollectionPlan,
    opened: Option<DatasetSessionMetadata<P>>,
) -> Option<DatasetSessionMetadata<P>> {
    match opened {
        Some(session) if plan.dataset is Record => Some(
            DatasetSessionMetadata {
                video_segment_duration: plan.video_segment_duration,
                ..session
            },
        ),
        _ => None,
    }
}

/// The recording session of a plan: the one whose directory and files were opened, with the plan's
/// length of a video file. There is none where the plan is not to record, or the directory could not
/// be opened.
pub fn recorded_session<P>(
    plan: &CollectionPlan,
    opened: Option<DatasetSessionMetadata<P>>,
) -> (r: Option<DatasetSessionMetadata<P>>)
    ensures
        r == (match opened {
            Some(session) if plan.dataset is Record => Some(
                DatasetSessionMetadata {
                    video_segment_duration: plan.video_segment_duration,
                    ..session
                },
            ),
            _ => None,
        }),
        r == session_of(*plan, opened),
{
    match &plan.dataset {
        DatasetPlan::Record(_) => match opened {
            Some(session) => {
                let mut session = session;
                session.video_segment_duration = plan.video_segment_duration;
                Some(session)
            },
            None => None,
        },
        _ => None,
    }
}

/// A session is recorded only where the settings ask for both telemetry and a dataset, and the file
/// system layout is known.
pub proof fn law_sessions_are_asked_for(
    plan: CollectionPlan,
    settings: CollectionSettings,
    layout_available: bool,
)
    requires
        is_plan_for(plan, settings, layout_available),
    ensures
        plan.dataset is Record <==> settings.enable_data_collection
            && settings.enable_dataset_collection && layout_available,
        plan.telemetry_endpoint is Some <==> settings.enable_data_collection,
{
}

/// Where measurements go: the endpoint is the setting without the white space around it, or that of
/// this machine where nothing else is set; the recording goes below the log directory where no
/// directory is set; and a video file is as long as set but at least a second, or ten seconds where no
/// rolling recording is set up.
pub proof fn law_plan_follows_the_settings(
    plan: CollectionPlan,
    settings: CollectionSettings,
    layout_available: bool,
)
    requires
        is_plan_for(plan, settings, layout_available),
    ensures
        plan.telemetry_endpoint matches Some(endpoint) ==> endpoint@ == if trimmed(
            settings.data_collection_endpoint@,
        ).len() > 0 {
            trimmed(settings.data_collection_endpoint@)
        } else {
            "127.0.0.1:49152"@
        },
        plan.dataset is Disabled <==> !settings.enable_data_collection
            || !settings.enable_dataset_collection,
        plan.dataset is LayoutUnavailable <==> settings.enable_data_collection
            && settings.enable_dataset_collection && !layout_available,
        plan.dataset matches DatasetPlan::Record(directory) ==> {
            &&& directory is Logs <==> trimmed(settings.dataset_directory@).len() == 0
            &&& directory matches DatasetDirectory::Custom(path) ==> path@ == trimmed(
                settings.dataset_directory@,
            )
        },
        plan.video_segment_duration@ == match settings.rolling_video_duration_s {
            Some(secs) => if secs == 0 {
                1_000_000_000
            } else {
                secs * 1_000_000_000
            },
            None => 10_000_000_000,
        },
{
}

/// A session is recorded just where the settings ask for one and its directory could be opened, in the
/// files that were opened and with the length of a video file that is set.
pub proof fn law_recorded_sessions<P>(
    plan: CollectionPlan,
    settings: CollectionSettings,
    layout_available: bool,
    opened: Option<DatasetSessionMetadata<P>>,
)
    requires
        is_plan_for(plan, settings, layout_available),
    ensures
        session_of(plan, opened) is Some <==> settings.enable_data_collection
            && settings.enable_dataset_collection && layout_available && opened is Some,
        session_of(plan, opened) matches Some(session) ==> {
            &&& session.session_dir == opened->0.session_dir
            &&& session.session_start_ms == opened->0.session_start_ms
            &&& session.csv_path == opened->0.csv_path
            &&& session.state_log_csv_path == opened->0.state_log_csv_path
            &&& session.video_manifest_path == opened->0.video_manifest_path
            &&& session.video_segment_duration@ == match settings.rolling_video_duration_s {
                Some(secs) => if secs == 0 {
                    1_000_000_000
                } else {
                    secs * 1_000_000_000
                },
                None => 10_000_000_000,
            }
        },
{
}

} // verus!
