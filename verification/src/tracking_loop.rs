//! What is done with each tracking packet.

use crate::eye_tracked_ffr::{
    combined_shift, needs_synchronization, DfrState, DynamicFoveatedRenderer, ScreenShift,
};
use crate::packets::{DeviceMotion, FaceData};
use crate::time::{Duration, Instant};
use crate::tracking::{
    all_older, is_motion_at, law_motion_at_is_unique, law_reported_motion_is_found, DeviceIds,
    HandSkeleton, HandType, TrackingManager, TrackingState,
};
use std::collections::HashMap;
use vstd::prelude::*;

verus! {

/// What came of waiting for a packet.
#[derive(Clone, Copy, PartialEq, Eq, Structural, Debug)]
pub enum ReceiveOutcome {
    /// A packet with a readable header.
    Packet,
    /// A packet whose header cannot be read.
    BadHeader,
    /// Nothing within the time allowed.
    TryAgain,
    /// The connection failed otherwise.
    Failed,
}

/// What the loop does next.
#[derive(Clone, Copy, PartialEq, Eq, Structural, Debug)]
pub enum LoopStep {
    Process,
    Retry,
    Stop,
}

/// What a packet brings. Skeletons and placed motions are in the recentered space.
#[derive(Debug)]
pub struct TrackingSample {
    pub target_timestamp: Duration,
    pub device_motions: Vec<(u64, DeviceMotion)>,
    pub placed_motions: Vec<DeviceMotion>,
    pub left_skeleton: Option<HandSkeleton>,
    pub right_skeleton: Option<HandSkeleton>,
    pub face_data: FaceData,
}

/// What came of taking a packet over.
#[derive(Debug)]
pub struct Ingested {
    /// The devices of the packet, in its order.
    pub device_motion_keys: Vec<u64>,
    /// The packet holds an eye sample that was not taken over before.
    pub new_eye_data: bool,
}

/// Which hands act by gestures.
#[derive(Clone, Copy, PartialEq, Eq, Structural, Debug)]
pub struct GestureHands {
    pub left: bool,
    pub right: bool,
}

/// The settings for motion capture output.
#[derive(Clone, Copy, PartialEq, Eq, Structural, Debug)]
pub struct VmcConfig {
    pub publish: bool,
    pub orientation_correction: bool,
}

/// The settings for body tracking output.
#[derive(Clone, Copy, PartialEq, Eq, Structural, Debug)]
pub struct BodyTrackingConfig {
    pub is_tracked: bool,
}

/// Where the motions of a packet are sent on to.
#[derive(Clone, Copy, PartialEq, Eq, Structural, Debug)]
pub struct OutputPlan {
    /// To motion capture, with or without orientation correction.
    pub vmc: Option<bool>,
    pub body: bool,
}

/// What follows from the outcome of waiting for a packet.
pub open spec fn step_for(outcome: ReceiveOutcome) -> LoopStep {
    match outcome {
        ReceiveOutcome::Packet => LoopStep::Process,
        ReceiveOutcome::TryAgain => LoopStep::Retry,
        _ => LoopStep::Stop,
    }
}

/// What follows from the outcome of waiting for a packet.
pub fn after_receive(outcome: ReceiveOutcome) -> (r: LoopStep)
    ensures
        r == LoopStep::Process <==> outcome == ReceiveOutcome::Packet,
        r == LoopStep::Retry <==> outcome == ReceiveOutcome::TryAgain,
        r == LoopStep::Stop <==> outcome == ReceiveOutcome::BadHeader || outcome
            == ReceiveOutcome::Failed,
        r == step_for(outcome),
{
    match outcome {
        ReceiveOutcome::Packet => LoopStep::Process,
        ReceiveOutcome::TryAgain => LoopStep::Retry,
        ReceiveOutcome::BadHeader | ReceiveOutcome::Failed => LoopStep::Stop,
    }
}

/// The motion of a device is used: unless both inputs may be there at once, the skeleton of a hand
/// stands in for its controller.
pub open spec fn is_used(
    ids: DeviceIds,
    multimodal_protocol: bool,
    left_skeleton: bool,
    right_skeleton: bool,
    device_id: u64,
) -> bool {
    multimodal_protocol || !(left_skeleton && device_id == ids.hand_left || right_skeleton
        && device_id == ids.hand_right)
}

/// The motions of a packet that are used.
pub open spec fn used_motions(
    ids: DeviceIds,
    multimodal_protocol: bool,
    left_skeleton: bool,
    right_skeleton: bool,
    device_motions: Seq<(u64, DeviceMotion)>,
) -> Seq<(u64, DeviceMotion)> {
    device_motions.filter(
        |m: (u64, DeviceMotion)|
            is_used(ids, multimodal_protocol, left_skeleton, right_skeleton, m.0),
    )
}

/// Drops the controllers for which the packet holds a hand's skeleton.
pub fn retain_used_motions(
    ids: &DeviceIds,
    multimodal_protocol: bool,
    left_skeleton: bool,
    right_skeleton: bool,
    device_motions: &Vec<(u64, DeviceMotion)>,
) -> (r: Vec<(u64, DeviceMotion)>)
    ensures
        r@ == used_motions(
            *ids,
            multimodal_protocol,
            left_skeleton,
            right_skeleton,
            device_motions@,
        ),
{
    let ghost used = |m: (u64, DeviceMotion)|
        is_used(*ids, multimodal_protocol, left_skeleton, right_skeleton, m.0);
    let mut kept: Vec<(u64, DeviceMotion)> = Vec::new();
    let mut i: usize = 0;
    proof {
        reveal(Seq::filter);
    }
    while i < device_motions.len()
        invariant
            i <= device_motions@.len(),
            used == (|m: (u64, DeviceMotion)|
                is_used(*ids, multimodal_protocol, left_skeleton, right_skeleton, m.0)),
            kept@ == device_motions@.take(i as int).filter(used),
        decreases device_motions@.len() - i,
    {
        proof {
            reveal(Seq::filter);
            assert(device_motions@.take(i + 1).drop_last() =~= device_motions@.take(i as int));
        }
        let (device_id, motion) = device_motions[i];
        if multimodal_protocol || !(left_skeleton && device_id == ids.hand_left || right_skeleton
            && device_id == ids.hand_right) {
            kept.push((device_id, motion));
        }
        i += 1;
    }
    assert(device_motions@.take(i as int) =~= device_motions@);
    kept
}

impl TrackingState {
    /// The state after a packet was taken over.
    pub open spec fn ingested(
        self,
        ids: DeviceIds,
        controllers_enabled: bool,
        sample: TrackingSample,
    ) -> TrackingState {
        let timestamp = sample.target_timestamp;
        let moved = self.with_device_motions(
            ids,
            controllers_enabled,
            timestamp,
            sample.device_motions@,
            sample.placed_motions@,
        );
        let left = match sample.left_skeleton {
            Some(skeleton) => moved.with_hand_skeleton(HandType::Left, timestamp, skeleton),
            None => moved,
        };
        let right = match sample.right_skeleton {
            Some(skeleton) => left.with_hand_skeleton(HandType::Right, timestamp, skeleton),
            None => left,
        };
        let faced = TrackingState { face_data: sample.face_data, ..right };
        match sample.face_data.pico_eye_tracking_data {
            Some(data) => faced.with_eye_data(data),
            None => faced,
        }
    }
}

/// The devices of a list of motions.
pub open spec fn device_keys(device_motions: Seq<(u64, DeviceMotion)>) -> Seq<u64> {
    device_motions.map_values(|m: (u64, DeviceMotion)| m.0)
}

/// Takes a packet over: its motions, skeletons, face and eyes, and the foveal shift that its gaze
/// calls for. `screen_shift` is the combined gaze mapped to the screen.
pub fn ingest_tracking(
    manager: &mut TrackingManager,
    renderer: &DynamicFoveatedRenderer,
    dfr: &mut DfrState,
    ids: &DeviceIds,
    controllers_enabled: bool,
    sample: TrackingSample,
    screen_shift: Option<ScreenShift>,
    now: Instant,
) -> (r: Ingested)
    requires
        old(manager)@.valid(),
        sample.placed_motions@.len() == sample.device_motions@.len(),
        old(dfr)@.sequence_id < u64::MAX || !needs_synchronization(
            old(dfr)@.synchronized_shift,
            combined_shift(sample.face_data, screen_shift),
        ),
    ensures
        final(manager)@.valid(),
        final(manager)@ == old(manager)@.ingested(*ids, controllers_enabled, sample),
        final(dfr)@ == old(dfr)@.updated(combined_shift(sample.face_data, screen_shift), now),
        r.device_motion_keys@ == device_keys(sample.device_motions@),
        r.new_eye_data == (sample.face_data.pico_eye_tracking_data matches Some(data)
            && !old(manager)@.repeats(data)),
{
    let timestamp = sample.target_timestamp;
    let mut device_motion_keys: Vec<u64> = Vec::new();
    let mut i: usize = 0;
    while i < sample.device_motions.len()
        invariant
            i <= sample.device_motions@.len(),
            device_motion_keys@ == device_keys(sample.device_motions@.take(i as int)),
        decreases sample.device_motions@.len() - i,
    {
        device_motion_keys.push(sample.device_motions[i].0);
        i += 1;
        assert(device_motion_keys@ =~= device_keys(sample.device_motions@.take(i as int)));
    }
    assert(sample.device_motions@.take(i as int) =~= sample.device_motions@);
    manager.report_device_motions(
        ids,
        controllers_enabled,
        timestamp,
        &sample.device_motions,
        &sample.placed_motions,
    );
    if let Some(skeleton) = sample.left_skeleton {
        manager.report_hand_skeleton(HandType::Left, timestamp, skeleton);
    }
    if let Some(skeleton) = sample.right_skeleton {
        manager.report_hand_skeleton(HandType::Right, timestamp, skeleton);
    }
    renderer.update_from_face_data(dfr, &sample.face_data, screen_shift, now);
    let new_eye_data = match &sample.face_data.pico_eye_tracking_data {
        Some(data) => manager.report_pico_eye_data(data),
        None => false,
    };
    manager.report_face_data(sample.face_data);
    Ingested { device_motion_keys, new_eye_data }
}

/// Every device of a list has a motion at a time.
pub open spec fn all_sampled(state: TrackingState, keys: Seq<u64>, timestamp: Duration) -> bool {
    forall|i: int|
        0 <= i < keys.len() ==> state.motions.contains_key(#[trigger] keys[i]) && !all_older(
            state.motions[keys[i]],
            timestamp,
        )
}

/// The motions of devices at a time, which all of them have.
pub fn sampled_motions(manager: &TrackingManager, keys: &Vec<u64>, timestamp: Duration) -> (r: Vec<
    (u64, DeviceMotion),
>)
    requires
        all_sampled(manager@, keys@, timestamp),
    ensures
        r@.len() == keys@.len(),
        forall|i: int|
            0 <= i < keys@.len() ==> (#[trigger] r@[i]).0 == keys@[i] && is_motion_at(
                manager@.motions,
                keys@[i],
                timestamp,
                Some(r@[i].1),
            ),
{
    let mut motions: Vec<(u64, DeviceMotion)> = Vec::new();
    let mut i: usize = 0;
    while i < keys.len()
        invariant
            i <= keys@.len(),
            motions@.len() == i,
            all_sampled(manager@, keys@, timestamp),
            forall|j: int|
                0 <= j < i ==> (#[trigger] motions@[j]).0 == keys@[j] && is_motion_at(
                    manager@.motions,
                    keys@[j],
                    timestamp,
                    Some(motions@[j].1),
                ),
        decreases keys@.len() - i,
    {
        let motion = manager.get_device_motion(keys[i], timestamp);
        proof {
            law_motion_at_is_unique(manager@.motions, keys@[i as int], timestamp, motion, motion);
        }
        motions.push((keys[i], motion.unwrap()));
        i += 1;
    }
    motions
}

/// The devices of a list that have a name.
pub open spec fn named_keys(keys: Seq<u64>, names: Map<u64, String>) -> Seq<u64> {
    keys.filter(|k: u64| names.contains_key(k))
}

/// The motions at a time of the devices that have a name, which all of these have.
pub fn named_motions(
    manager: &TrackingManager,
    keys: &Vec<u64>,
    names: &HashMap<u64, String>,
    timestamp: Duration,
) -> (r: Vec<(String, DeviceMotion)>)
    requires
        all_sampled(manager@, keys@, timestamp),
    ensures
        r@.len() == named_keys(keys@, names@).len(),
        forall|i: int|
            0 <= i < r@.len() ==> (#[trigger] r@[i]).0@ == names@[named_keys(
                keys@,
                names@,
            )[i]]@ && is_motion_at(
                manager@.motions,
                named_keys(keys@, names@)[i],
                timestamp,
                Some(r@[i].1),
            ),
{
    let ghost has_name = |k: u64| names@.contains_key(k);
    let mut motions: Vec<(String, DeviceMotion)> = Vec::new();
    let mut i: usize = 0;
    proof {
        reveal(Seq::filter);
    }
    while i < keys.len()
        invariant
            i <= keys@.len(),
            has_name == (|k: u64| names@.contains_key(k)),
            all_sampled(manager@, keys@, timestamp),
            motions@.len() == keys@.take(i as int).filter(has_name).len(),
            forall|j: int|
                0 <= j < motions@.len() ==> (#[trigger] motions@[j]).0@ == names@[keys@.take(
                    i as int,
                ).filter(has_name)[j]]@ && is_motion_at(
                    manager@.motions,
                    keys@.take(i as int).filter(has_name)[j],
                    timestamp,
                    Some(motions@[j].1),
                ),
        decreases keys@.len() - i,
    {
        proof {
            reveal(Seq::filter);
            assert(keys@.take(i + 1).drop_last() =~= keys@.take(i as int));
        }
        let key: u64 = keys[i];
        if let Some(name) = names.get(&key) {
            let motion = manager.get_device_motion(key, timestamp);
            proof {
                assert(key == keys@[i as int]);
                law_motion_at_is_unique(manager@.motions, key, timestamp, motion, motion);
            }
            motions.push((name.clone(), motion.unwrap()));
        }
        i += 1;
    }
    assert(keys@.take(i as int) =~= keys@);
    motions
}

/// Whether a device is in a list.
fn contains_key(keys: &Vec<u64>, key: u64) -> (r: bool)
    ensures
        r == keys@.contains(key),
{
    let mut i: usize = 0;
    while i < keys.len()
        invariant
            i <= keys@.len(),
            forall|j: int| 0 <= j < i ==> #[trigger] keys@[j] != key,
        decreases keys@.len() - i,
    {
        if keys[i] == key {
            return true;
        }
        i += 1;
    }
    false
}

/// A hand acts by gestures.
pub open spec fn acts_by_gestures(
    gestures_enabled: bool,
    hand_id: u64,
    device_motion_keys: Seq<u64>,
    skeleton: bool,
) -> bool {
    gestures_enabled && skeleton && !device_motion_keys.contains(hand_id)
}

/// Which hands act by gestures: those with a skeleton but without a controller, where gestures are
/// set up.
pub fn gesture_hands(
    gestures_enabled: bool,
    ids: &DeviceIds,
    device_motion_keys: &Vec<u64>,
    left_skeleton: bool,
    right_skeleton: bool,
) -> (r: GestureHands)
    ensures
        r.left == (gestures_enabled && left_skeleton && !device_motion_keys@.contains(
            ids.hand_left,
        )),
        r.right == (gestures_enabled && right_skeleton && !device_motion_keys@.contains(
            ids.hand_right,
        )),
        r.left == acts_by_gestures(
            gestures_enabled,
            ids.hand_left,
            device_motion_keys@,
            left_skeleton,
        ),
        r.right == acts_by_gestures(
            gestures_enabled,
            ids.hand_right,
            device_motion_keys@,
            right_skeleton,
        ),
{
    GestureHands {
        left: gestures_enabled && left_skeleton && !contains_key(device_motion_keys, ids.hand_left),
        right: gestures_enabled && right_skeleton && !contains_key(
            device_motion_keys,
            ids.hand_right,
        ),
    }
}

/// Where the motions of a packet are sent on to.
pub open spec fn outputs(
    vmc: Option<VmcConfig>,
    body: Option<BodyTrackingConfig>,
    has_vmc_sink: bool,
    has_body_sink: bool,
) -> OutputPlan {
    OutputPlan {
        vmc: match vmc {
            Some(config) if has_vmc_sink && config.publish => Some(config.orientation_correction),
            _ => None,
        },
        body: has_body_sink && (body matches Some(config) && config.is_tracked),
    }
}

/// Where the motions of a packet are sent on to: to each output that is enabled, asks for motions and
/// could be opened.
pub fn output_plan(
    vmc: Option<VmcConfig>,
    body: Option<BodyTrackingConfig>,
    has_vmc_sink: bool,
    has_body_sink: bool,
) -> (r: OutputPlan)
    ensures
        match r.vmc {
            Some(correction) => has_vmc_sink && (vmc matches Some(config) && config.publish
                && config.orientation_correction == correction),
            None => !has_vmc_sink || !(vmc matches Some(config) && config.publish),
        },
        r.body == (has_body_sink && (body matches Some(config) && config.is_tracked)),
        r == outputs(vmc, body, has_vmc_sink, has_body_sink),
{
    OutputPlan {
        vmc: match vmc {
            Some(config) => if has_vmc_sink && config.publish {
                Some(config.orientation_correction)
            } else {
                None
            },
            None => None,
        },
        body: match body {
            Some(config) => has_body_sink && config.is_tracked,
            None => false,
        },
    }
}

/// Once a packet was taken over, each of its devices has a motion at the packet's time.
pub proof fn law_ingested_devices_are_sampled(
    state: TrackingState,
    ids: DeviceIds,
    controllers_enabled: bool,
    sample: TrackingSample,
)
    requires
        state.valid(),
        sample.placed_motions@.len() == sample.device_motions@.len(),
    ensures
        all_sampled(
            state.ingested(ids, controllers_enabled, sample),
            device_keys(sample.device_motions@),
            sample.target_timestamp,
        ),
{
    let keys = device_keys(sample.device_motions@);
    let timestamp = sample.target_timestamp;
    let after = state.with_device_motions(
        ids,
        controllers_enabled,
        timestamp,
        sample.device_motions@,
        sample.placed_motions@,
    );
    assert(state.ingested(ids, controllers_enabled, sample).motions == after.motions);
    assert forall|i: int| 0 <= i < keys.len() implies after.motions.contains_key(
        #[trigger] keys[i],
    ) && !all_older(after.motions[keys[i]], timestamp) by {
        if !after.motions.contains_key(keys[i]) || all_older(after.motions[keys[i]], timestamp) {
            assert(is_motion_at(after.motions, keys[i], timestamp, None));
            law_reported_motion_is_found(
                state,
                ids,
                controllers_enabled,
                timestamp,
                sample.device_motions@,
                sample.placed_motions@,
                i,
                None,
            );
        }
    }
}

/// A hand never acts both by its controller's motion and by gestures.
pub proof fn law_hand_acts_once(
    ids: DeviceIds,
    left_skeleton: bool,
    right_skeleton: bool,
    device_motions: Seq<(u64, DeviceMotion)>,
)
    ensures
        ({
            let keys = device_keys(
                used_motions(ids, false, left_skeleton, right_skeleton, device_motions),
            );
            &&& left_skeleton ==> !keys.contains(ids.hand_left)
            &&& right_skeleton ==> !keys.contains(ids.hand_right)
        }),
{
    let used = |m: (u64, DeviceMotion)| is_used(ids, false, left_skeleton, right_skeleton, m.0);
    let kept = used_motions(ids, false, left_skeleton, right_skeleton, device_motions);
    let keys = device_keys(kept);
    assert forall|i: int| 0 <= i < keys.len() implies is_used(
        ids,
        false,
        left_skeleton,
        right_skeleton,
        #[trigger] keys[i],
    ) by {
        device_motions.lemma_filter_pred(used, i);
        assert(used(kept[i]));
    }
}

/// A device's motion goes unused just where it is a hand's controller, the packet holds the skeleton
/// of the same hand, and only one input is allowed.
pub proof fn law_unused_devices(
    ids: DeviceIds,
    multimodal_protocol: bool,
    left_skeleton: bool,
    right_skeleton: bool,
    device_id: u64,
)
    ensures
        !is_used(ids, multimodal_protocol, left_skeleton, right_skeleton, device_id) <==> {
            ||| !multimodal_protocol && left_skeleton && device_id == ids.hand_left
            ||| !multimodal_protocol && right_skeleton && device_id == ids.hand_right
        },
{
}

/// The used motions of a packet are picked one by one, in their order: one more motion comes behind
/// them where its device is used, and changes nothing otherwise.
pub proof fn law_used_motions_keep_their_order(
    ids: DeviceIds,
    multimodal_protocol: bool,
    left_skeleton: bool,
    right_skeleton: bool,
    device_motions: Seq<(u64, DeviceMotion)>,
    next: (u64, DeviceMotion),
)
    ensures
        ({
            let picked = used_motions(
                ids,
                multimodal_protocol,
                left_skeleton,
                right_skeleton,
                device_motions,
            );
            let more = used_motions(
                ids,
                multimodal_protocol,
                left_skeleton,
                right_skeleton,
                device_motions.push(next),
            );
            let unused = !multimodal_protocol && (left_skeleton && next.0 == ids.hand_left
                || right_skeleton && next.0 == ids.hand_right);
            &&& unused ==> more == picked
            &&& !unused ==> more == picked.push(next)
            &&& device_motions.len() == 0 ==> picked.len() == 0
        }),
{
    reveal(Seq::filter);
    assert(device_motions.push(next).drop_last() =~= device_motions);
}

/// The devices of a packet are listed in its order, each as often as it occurs; and of those listed
/// the ones with a name are picked one by one, in their order.
pub proof fn law_devices_are_listed_in_order(
    device_motions: Seq<(u64, DeviceMotion)>,
    keys: Seq<u64>,
    names: Map<u64, String>,
    next: u64,
)
    ensures
        device_keys(device_motions).len() == device_motions.len(),
        forall|i: int|
            0 <= i < device_motions.len() ==> #[trigger] device_keys(device_motions)[i]
                == device_motions[i].0,
        names.contains_key(next) ==> named_keys(keys.push(next), names) == named_keys(
            keys,
            names,
        ).push(next),
        !names.contains_key(next) ==> named_keys(keys.push(next), names) == named_keys(keys, names),
        keys.len() == 0 ==> named_keys(keys, names).len() == 0,
{
    reveal(Seq::filter);
    assert(keys.push(next).drop_last() =~= keys);
}

/// What taking a packet over changes. The motions and the head's pose are those after the report of
/// its devices; a hand's skeletons change just where the packet holds one of that hand, for the
/// packet's time; the face is the packet's; the eye sample is the packet's where its time is new.
/// The origin and the bound of the histories stay.
pub proof fn law_packet_is_taken_over_part_by_part(
    state: TrackingState,
    ids: DeviceIds,
    controllers_enabled: bool,
    sample: TrackingSample,
)
    ensures
        ({
            let after = state.ingested(ids, controllers_enabled, sample);
            let time = sample.target_timestamp;
            let reported = state.with_device_motions(
                ids,
                controllers_enabled,
                time,
                sample.device_motions@,
                sample.placed_motions@,
            );
            &&& after.motions == reported.motions
            &&& after.last_head_pose == reported.last_head_pose
            &&& after.face_data == sample.face_data
            &&& after.inverse_recentering_origin == state.inverse_recentering_origin
            &&& after.max_history_size == state.max_history_size
            &&& sample.left_skeleton is None ==> after.left_skeletons == state.left_skeletons
            &&& sample.right_skeleton is None ==> after.right_skeletons == state.right_skeletons
            &&& sample.left_skeleton matches Some(skeleton) ==> after.left_skeletons
                == state.with_hand_skeleton(HandType::Left, time, skeleton).left_skeletons
            &&& sample.right_skeleton matches Some(skeleton) ==> after.right_skeletons
                == state.with_hand_skeleton(HandType::Right, time, skeleton).right_skeletons
            &&& match sample.face_data.pico_eye_tracking_data {
                Some(data) => {
                    &&& after.pico_timestamp == Some(data.time)
                    &&& state.pico_timestamp == Some(data.time) ==> after.pico_eye_data
                        == state.pico_eye_data
                    &&& state.pico_timestamp != Some(data.time) ==> after.pico_eye_data
                        == state.with_eye_data(data).pico_eye_data
                },
                None => {
                    &&& after.pico_timestamp == state.pico_timestamp
                    &&& after.pico_eye_data == state.pico_eye_data
                },
            }
        }),
{
}

/// A device has a motion at a time just where it is known and some motion of it is not older.
pub proof fn law_sampled_devices(state: TrackingState, keys: Seq<u64>, timestamp: Duration)
    ensures
        all_sampled(state, keys, timestamp) <==> forall|i: int|
            0 <= i < keys.len() ==> state.motions.contains_key(#[trigger] keys[i]) && exists|j: int|
                0 <= j < state.motions[keys[i]].len() && (
                #[trigger] state.motions[keys[i]][j]).0.nanos >= timestamp.nanos,
{
    assert forall|i: int| 0 <= i < keys.len() implies (all_older(
        state.motions[#[trigger] keys[i]],
        timestamp,
    ) <==> !exists|j: int|
        0 <= j < state.motions[keys[i]].len() && (#[trigger] state.motions[keys[i]][j]).0.nanos
            >= timestamp.nanos) by {
        let history = state.motions[keys[i]];
        assert(forall|j: int|
            0 <= j < history.len() ==> (#[trigger] history[j]).0@ == history[j].0.nanos);
    }
}

/// A hand acts by gestures just where gestures are set up, it has a skeleton, and no device of the
/// packet is its controller. What is done of a packet's used motions and gestures leaves no hand with
/// both, where only one input is allowed.
pub proof fn law_gestures_stand_in_for_controllers(
    gestures_enabled: bool,
    hand_id: u64,
    device_motion_keys: Seq<u64>,
    skeleton: bool,
)
    ensures
        acts_by_gestures(gestures_enabled, hand_id, device_motion_keys, skeleton) <==> {
            &&& gestures_enabled
            &&& skeleton
            &&& forall|i: int|
                0 <= i < device_motion_keys.len() ==> #[trigger] device_motion_keys[i] != hand_id
        },
{
    if !device_motion_keys.contains(hand_id) {
        assert forall|i: int| 0 <= i < device_motion_keys.len() implies #[trigger] device_motion_keys[i]
            != hand_id by {}
    }
}

/// An output gets a packet's motions just where it is open, set up and asks for them; motion capture
/// with the correction that it is set up with.
pub proof fn law_outputs_are_asked_for(
    vmc: Option<VmcConfig>,
    body: Option<BodyTrackingConfig>,
    has_vmc_sink: bool,
    has_body_sink: bool,
)
    ensures
        ({
            let plan = outputs(vmc, body, has_vmc_sink, has_body_sink);
            &&& plan.vmc is Some <==> has_vmc_sink && vmc is Some && vmc->0.publish
            &&& plan.vmc matches Some(correction) ==> correction == vmc->0.orientation_correction
            &&& plan.body <==> has_body_sink && body is Some && body->0.is_tracked
        }),
{
}

/// The loop goes on after a packet and after a wait in vain, and processes nothing but packets; every
/// other outcome ends it.
pub proof fn law_loop_goes_on(outcome: ReceiveOutcome)
    ensures
        step_for(outcome) is Process <==> outcome is Packet,
        step_for(outcome) is Stop <==> outcome is BadHeader || outcome is Failed,
        step_for(outcome) is Retry <==> outcome is TryAgain,
{
}

} // verus!
