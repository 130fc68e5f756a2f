//! What is known of the tracked devices, hands, face and eyes.

use crate::eye_pose_status_pico::{
    eye_openness_set, gaze_point_set, gaze_vector_set, is_eye_openness_valid, is_gaze_point_valid,
    is_gaze_vector_valid, is_pupil_dilation_valid, law_valid_parts, pupil_dilation_set,
};
use crate::float::Float32;
use crate::packets::{
    DeviceMotion, EyePoseStatusPICO, EyeTrackingDataPICO, FaceData, Pose, Quat, Vec3,
};
use crate::time::Duration;
use std::collections::{HashMap, VecDeque};
use vstd::prelude::*;

verus! {

/// The validity flags of an eye, taken apart.
#[derive(Clone, Copy, PartialEq, Eq, Structural, Debug)]
pub struct EyePoseStatusLog {
    pub status_flags: u32,
    pub gaze_point_valid: bool,
    pub gaze_vector_valid: bool,
    pub eye_openness_valid: bool,
    pub pupil_dilation_valid: bool,
}

/// An eye sample as it is logged.
#[derive(Clone, Debug)]
pub struct EyeTrackingDataLog<F> {
    pub timestamp_ns: u64,
    pub left_eye_pose_status: EyePoseStatusLog,
    pub right_eye_pose_status: EyePoseStatusLog,
    pub combined_eye_pose_status: EyePoseStatusLog,
    pub left_eye_gaze_point: [F; 3],
    pub right_eye_gaze_point: [F; 3],
    pub combined_eye_gaze_point: [F; 3],
    pub left_eye_gaze_vector: [F; 3],
    pub right_eye_gaze_vector: [F; 3],
    pub combined_eye_gaze_vector: [F; 3],
    pub left_eye_openness: F,
    pub right_eye_openness: F,
    pub left_eye_pupil_dilation: F,
    pub right_eye_pupil_dilation: F,
    pub left_eye_position_guide: [F; 3],
    pub right_eye_position_guide: [F; 3],
    pub foveated_gaze_direction: [F; 3],
    pub foveated_gaze_tracking_state: i32,
}

/// One of the two hands.
#[derive(Clone, Copy, PartialEq, Eq, Structural, Debug)]
pub enum HandType {
    Left,
    Right,
}

/// How the position of the origin follows the head.
#[derive(Clone, Copy, PartialEq, Eq, Structural, Debug)]
pub enum PositionRecenteringMode {
    Disabled,
    LocalFloor,
    Local { view_height: Float32 },
}

/// How the orientation of the origin follows the head.
#[derive(Clone, Copy, PartialEq, Eq, Structural, Debug)]
pub enum RotationRecenteringMode {
    Disabled,
    Yaw,
    Tilted,
}

/// The position of a new origin.
#[derive(Clone, Copy, PartialEq, Eq, Structural, Debug)]
pub enum OriginPosition {
    At(Vec3),
    /// `height` below the head, along the head's own vertical.
    BelowHead { head: Pose, height: Float32 },
}

/// The orientation of a new origin.
#[derive(Clone, Copy, PartialEq, Eq, Structural, Debug)]
pub enum OriginOrientation {
    As(Quat),
    /// The quaternion brought to length one.
    Normalized(Quat),
}

/// The origin that a recentering asks for.
#[derive(Clone, Copy, PartialEq, Eq, Structural, Debug)]
pub struct RecenteringPlan {
    pub position: OriginPosition,
    pub orientation: OriginOrientation,
}

/// The names by which devices are known.
#[derive(Clone, Copy, PartialEq, Eq, Structural, Debug)]
pub struct DeviceIds {
    pub head: u64,
    pub hand_left: u64,
    pub hand_right: u64,
    pub body_chest: u64,
    pub body_hips: u64,
    pub body_left_elbow: u64,
    pub body_right_elbow: u64,
    pub body_left_knee: u64,
    pub body_left_foot: u64,
    pub body_right_knee: u64,
    pub body_right_foot: u64,
}

/// How a device's motion is brought into the recentered space.
#[derive(Clone, Copy, PartialEq, Eq, Structural, Debug)]
pub enum MotionPlacement {
    /// Recentered, without an offset.
    Plain,
    /// Recentered, with the left controller's offset and cutoffs.
    LeftController,
    /// Recentered, with the left controller's offset mirrored, and the same cutoffs.
    RightController,
}

/// The joints of a hand.
pub type HandSkeleton = [Pose; 26];

/// The recent motions of a device, newest first.
pub type MotionHistory = Seq<(Duration, DeviceMotion)>;

/// Keeps what came in of the tracked devices, hands, face and eyes.
pub struct TrackingManager {
    last_head_pose: Pose,
    inverse_recentering_origin: Pose,
    device_motions_history: HashMap<u64, VecDeque<(Duration, DeviceMotion)>>,
    left_skeletons_history: VecDeque<(Duration, HandSkeleton)>,
    right_skeletons_history: VecDeque<(Duration, HandSkeleton)>,
    last_face_data: FaceData,
    last_pico_eye_data: Option<EyeTrackingDataLog<Float32>>,
    last_pico_timestamp: Option<u64>,
    max_history_size: usize,
}

/// What a `TrackingManager` holds. Motions run from the newest to the oldest, skeletons from the
/// oldest to the newest.
pub struct TrackingState {
    pub last_head_pose: Pose,
    pub inverse_recentering_origin: Pose,
    pub motions: Map<u64, MotionHistory>,
    pub left_skeletons: Seq<(Duration, HandSkeleton)>,
    pub right_skeletons: Seq<(Duration, HandSkeleton)>,
    pub face_data: FaceData,
    pub pico_eye_data: Option<EyeTrackingDataLog<Float32>>,
    pub pico_timestamp: Option<u64>,
    pub max_history_size: usize,
}

impl View for TrackingManager {
    type V = TrackingState;

    closed spec fn view(&self) -> TrackingState {
        TrackingState {
            last_head_pose: self.last_head_pose,
            inverse_recentering_origin: self.inverse_recentering_origin,
            motions: self.device_motions_history@.map_values(
                |motions: VecDeque<(Duration, DeviceMotion)>| motions@,
            ),
            left_skeletons: self.left_skeletons_history@,
            right_skeletons: self.right_skeletons_history@,
            face_data: self.last_face_data,
            pico_eye_data: self.last_pico_eye_data,
            pico_timestamp: self.last_pico_timestamp,
            max_history_size: self.max_history_size,
        }
    }
}

/// A history that grew by one is cut back to its bound.
pub open spec fn without_oldest(motions: MotionHistory, max_history_size: nat) -> MotionHistory {
    if motions.len() > max_history_size {
        motions.drop_last()
    } else {
        motions
    }
}

/// The histories after one more motion of a device. A device's first motion is kept in any case.
pub open spec fn with_motion(
    histories: Map<u64, MotionHistory>,
    max_history_size: nat,
    timestamp: Duration,
    device_id: u64,
    motion: DeviceMotion,
) -> Map<u64, MotionHistory> {
    let newest = seq![(timestamp, motion)];
    histories.insert(
        device_id,
        if histories.contains_key(device_id) {
            without_oldest(newest + histories[device_id], max_history_size)
        } else {
            newest
        },
    )
}

/// The histories after the motions of several devices, in their order.
pub open spec fn with_motions(
    histories: Map<u64, MotionHistory>,
    max_history_size: nat,
    timestamp: Duration,
    motions: Seq<(u64, DeviceMotion)>,
) -> Map<u64, MotionHistory>
    decreases motions.len(),
{
    if motions.len() == 0 {
        histories
    } else {
        with_motion(
            with_motions(histories, max_history_size, timestamp, motions.drop_last()),
            max_history_size,
            timestamp,
            motions.last().0,
            motions.last().1,
        )
    }
}

/// The pose of the last of the head's motions, or `before` where the head is not among them.
pub open spec fn head_pose_after(
    before: Pose,
    head_id: u64,
    motions: Seq<(u64, DeviceMotion)>,
) -> Pose
    decreases motions.len(),
{
    if motions.len() == 0 {
        before
    } else if motions.last().0 == head_id {
        motions.last().1.pose
    } else {
        head_pose_after(before, head_id, motions.drop_last())
    }
}

impl DeviceIds {
    /// The head or a part of the body other than the hands.
    pub open spec fn on_body(self, device_id: u64) -> bool {
        ||| device_id == self.head
        ||| device_id == self.body_chest
        ||| device_id == self.body_hips
        ||| device_id == self.body_left_elbow
        ||| device_id == self.body_right_elbow
        ||| device_id == self.body_left_knee
        ||| device_id == self.body_left_foot
        ||| device_id == self.body_right_knee
        ||| device_id == self.body_right_foot
    }

    /// How the motion of a device is placed, if it is.
    pub open spec fn placement(self, controllers_enabled: bool, device_id: u64) -> Option<
        MotionPlacement,
    > {
        if controllers_enabled && device_id == self.hand_right {
            Some(MotionPlacement::RightController)
        } else if controllers_enabled && device_id == self.hand_left {
            Some(MotionPlacement::LeftController)
        } else if self.on_body(device_id) {
            Some(MotionPlacement::Plain)
        } else {
            None
        }
    }

    /// How the motion of a device is placed. A device for which there is no placement is taken as
    /// it is.
    pub fn motion_placement(&self, controllers_enabled: bool, device_id: u64) -> (r: Option<
        MotionPlacement,
    >)
        ensures
            r == self.placement(controllers_enabled, device_id),
    {
        if controllers_enabled && device_id == self.hand_right {
            Some(MotionPlacement::RightController)
        } else if controllers_enabled && device_id == self.hand_left {
            Some(MotionPlacement::LeftController)
        } else if device_id == self.head || device_id == self.body_chest || device_id
            == self.body_hips || device_id == self.body_left_elbow || device_id
            == self.body_right_elbow || device_id == self.body_left_knee || device_id
            == self.body_left_foot || device_id == self.body_right_knee || device_id
            == self.body_right_foot {
            Some(MotionPlacement::Plain)
        } else {
            None
        }
    }

    /// The motions that are kept: the placed one of a device that is placed, the reported one of any
    /// other.
    pub open spec fn kept_motions(
        self,
        controllers_enabled: bool,
        reported: Seq<(u64, DeviceMotion)>,
        placed: Seq<DeviceMotion>,
    ) -> Seq<(u64, DeviceMotion)> {
        Seq::new(
            reported.len(),
            |i: int|
                (
                    reported[i].0,
                    if self.placement(controllers_enabled, reported[i].0) is Some {
                        placed[i]
                    } else {
                        reported[i].1
                    },
                ),
        )
    }
}

/// `i` is the place of the motion that answers for a time: of those that are not older than it the
/// closest, and of several for the same time the one that came in last.
pub open spec fn is_closest(motions: MotionHistory, sample_timestamp: Duration, i: int) -> bool {
    &&& 0 <= i < motions.len()
    &&& motions[i].0@ >= sample_timestamp@
    &&& forall|j: int|
        0 <= j < motions.len() && (#[trigger] motions[j]).0@ >= sample_timestamp@
            ==> motions[i].0@ <= motions[j].0@
    &&& forall|j: int| 0 <= j < i ==> (#[trigger] motions[j]).0@ != motions[i].0@
}

/// Every motion is older than a time.
pub open spec fn all_older(motions: MotionHistory, sample_timestamp: Duration) -> bool {
    forall|j: int| 0 <= j < motions.len() ==> (#[trigger] motions[j]).0@ < sample_timestamp@
}

/// `r` is the motion of a device for a time.
pub open spec fn is_motion_at(
    histories: Map<u64, MotionHistory>,
    device_id: u64,
    sample_timestamp: Duration,
    r: Option<DeviceMotion>,
) -> bool {
    match r {
        Some(motion) => histories.contains_key(device_id) && exists|i: int|
            #[trigger] is_closest(histories[device_id], sample_timestamp, i)
                && histories[device_id][i].1 == motion,
        None => histories.contains_key(device_id) ==> all_older(
            histories[device_id],
            sample_timestamp,
        ),
    }
}

/// The skeletons of a hand after one more.
pub open spec fn with_skeleton(
    skeletons: Seq<(Duration, HandSkeleton)>,
    max_history_size: nat,
    timestamp: Duration,
    skeleton: HandSkeleton,
) -> Seq<(Duration, HandSkeleton)> {
    let longer = skeletons.push((timestamp, skeleton));
    if longer.len() > max_history_size {
        longer.skip(1)
    } else {
        longer
    }
}

/// `r` is the oldest skeleton for a time.
pub open spec fn is_skeleton_at(
    skeletons: Seq<(Duration, HandSkeleton)>,
    sample_timestamp: Duration,
    r: Option<&HandSkeleton>,
) -> bool {
    match r {
        Some(skeleton) => exists|i: int|
            0 <= i < skeletons.len() && (#[trigger] skeletons[i]) == (sample_timestamp, *skeleton)
                && forall|j: int| 0 <= j < i ==> (#[trigger] skeletons[j]).0 != sample_timestamp,
        None => forall|i: int|
            0 <= i < skeletons.len() ==> (#[trigger] skeletons[i]).0 != sample_timestamp,
    }
}

/// The flags of an eye, taken apart.
pub open spec fn status_log(status: EyePoseStatusPICO) -> EyePoseStatusLog {
    EyePoseStatusLog {
        status_flags: status,
        gaze_point_valid: gaze_point_set(status),
        gaze_vector_valid: gaze_vector_set(status),
        eye_openness_valid: eye_openness_set(status),
        pupil_dilation_valid: pupil_dilation_set(status),
    }
}

/// An eye sample as it is logged.
pub open spec fn eye_log<F>(data: EyeTrackingDataPICO<F>) -> EyeTrackingDataLog<F> {
    EyeTrackingDataLog {
        timestamp_ns: data.time,
        left_eye_pose_status: status_log(data.left_eye_pose_status),
        right_eye_pose_status: status_log(data.right_eye_pose_status),
        combined_eye_pose_status: status_log(data.combined_eye_pose_status),
        left_eye_gaze_point: data.left_eye_gaze_point,
        right_eye_gaze_point: data.right_eye_gaze_point,
        combined_eye_gaze_point: data.combined_eye_gaze_point,
        left_eye_gaze_vector: data.left_eye_gaze_vector,
        right_eye_gaze_vector: data.right_eye_gaze_vector,
        combined_eye_gaze_vector: data.combined_eye_gaze_vector,
        left_eye_openness: data.left_eye_openness,
        right_eye_openness: data.right_eye_openness,
        left_eye_pupil_dilation: data.left_eye_pupil_dilation,
        right_eye_pupil_dilation: data.right_eye_pupil_dilation,
        left_eye_position_guide: data.left_eye_position_guide,
        right_eye_position_guide: data.right_eye_position_guide,
        foveated_gaze_direction: data.foveated_gaze_direction,
        foveated_gaze_tracking_state: data.foveated_gaze_tracking_state,
    }
}

/// Takes the flags of an eye apart.
pub fn convert_pose_status(status: EyePoseStatusPICO) -> (r: EyePoseStatusLog)
    ensures
        r == status_log(status),
        r.status_flags == status,
        r.gaze_point_valid <==> status % 2 == 1 || (status / 0x80) % 2 == 1,
        r.gaze_vector_valid <==> (status / 2) % 2 == 1 || (status / 0x100) % 2 == 1,
        r.eye_openness_valid <==> (status / 4) % 2 == 1,
        r.pupil_dilation_valid <==> (status / 8) % 2 == 1 || (status / 0x800) % 2 == 1,
{
    proof {
        law_valid_parts(status);
    }
    EyePoseStatusLog {
        status_flags: status,
        gaze_point_valid: is_gaze_point_valid(status),
        gaze_vector_valid: is_gaze_vector_valid(status),
        eye_openness_valid: is_eye_openness_valid(status),
        pupil_dilation_valid: is_pupil_dilation_valid(status),
    }
}

impl TrackingState {
    /// Every device that is known has a motion, and no history exceeds its bound.
    pub open spec fn valid(self) -> bool {
        &&& forall|id: u64| #[trigger]
            self.motions.contains_key(id) ==> 1 <= self.motions[id].len() && (
            self.motions[id].len() <= 1 || self.motions[id].len() <= self.max_history_size)
        &&& self.left_skeletons.len() <= self.max_history_size
        &&& self.right_skeletons.len() <= self.max_history_size
    }

    /// The state after the motions of devices came in.
    pub open spec fn with_device_motions(
        self,
        ids: DeviceIds,
        controllers_enabled: bool,
        timestamp: Duration,
        reported: Seq<(u64, DeviceMotion)>,
        placed: Seq<DeviceMotion>,
    ) -> TrackingState {
        TrackingState {
            last_head_pose: head_pose_after(self.last_head_pose, ids.head, reported),
            motions: with_motions(
                self.motions,
                self.max_history_size as nat,
                timestamp,
                ids.kept_motions(controllers_enabled, reported, placed),
            ),
            ..self
        }
    }

    /// The skeletons of a hand.
    pub open spec fn skeletons(self, hand_type: HandType) -> Seq<(Duration, HandSkeleton)> {
        match hand_type {
            HandType::Left => self.left_skeletons,
            HandType::Right => self.right_skeletons,
        }
    }

    /// The state after a skeleton of a hand came in.
    pub open spec fn with_hand_skeleton(
        self,
        hand_type: HandType,
        timestamp: Duration,
        skeleton: HandSkeleton,
    ) -> TrackingState {
        let skeletons = with_skeleton(
            self.skeletons(hand_type),
            self.max_history_size as nat,
            timestamp,
            skeleton,
        );
        match hand_type {
            HandType::Left => TrackingState { left_skeletons: skeletons, ..self },
            HandType::Right => TrackingState { right_skeletons: skeletons, ..self },
        }
    }

    /// The sample's hardware time is that of the last one.
    pub open spec fn repeats(self, data: EyeTrackingDataPICO<Float32>) -> bool {
        self.pico_timestamp == Some(data.time)
    }

    /// The state after an eye sample came in.
    pub open spec fn with_eye_data(self, data: EyeTrackingDataPICO<Float32>) -> TrackingState {
        if self.repeats(data) {
            self
        } else {
            TrackingState {
                pico_eye_data: Some(eye_log(data)),
                pico_timestamp: Some(data.time),
                ..self
            }
        }
    }

    /// Nothing came in yet.
    pub open spec fn initial(face_data: FaceData, max_history_size: usize) -> TrackingState {
        TrackingState {
            last_head_pose: Pose::identity_pose(),
            inverse_recentering_origin: Pose::identity_pose(),
            motions: Map::empty(),
            left_skeletons: Seq::empty(),
            right_skeletons: Seq::empty(),
            face_data,
            pico_eye_data: None,
            pico_timestamp: None,
            max_history_size,
        }
    }

    /// The state after an origin was taken over.
    pub open spec fn with_origin(self, inverse: Pose) -> TrackingState {
        TrackingState { inverse_recentering_origin: inverse, ..self }
    }

    /// The state after face data came in.
    pub open spec fn with_face(self, face_data: FaceData) -> TrackingState {
        TrackingState { face_data, ..self }
    }

    /// The origin that a recentering asks for.
    pub open spec fn recentering(
        self,
        position_mode: PositionRecenteringMode,
        rotation_mode: RotationRecenteringMode,
    ) -> RecenteringPlan {
        let head = self.last_head_pose;
        let zero = Float32 { bits: 0 };
        RecenteringPlan {
            position: match position_mode {
                PositionRecenteringMode::Disabled => OriginPosition::At(
                    Vec3 { x: zero, y: zero, z: zero },
                ),
                PositionRecenteringMode::LocalFloor => OriginPosition::At(
                    Vec3 { y: zero, ..head.position },
                ),
                PositionRecenteringMode::Local { view_height } => OriginPosition::BelowHead {
                    head,
                    height: view_height,
                },
            },
            orientation: match rotation_mode {
                RotationRecenteringMode::Disabled => OriginOrientation::As(
                    Pose::identity_pose().orientation,
                ),
                RotationRecenteringMode::Yaw => OriginOrientation::Normalized(
                    Quat { x: zero, z: zero, ..head.orientation },
                ),
                RotationRecenteringMode::Tilted => OriginOrientation::As(head.orientation),
            },
        }
    }
}

impl TrackingManager {
    /// Nothing came in yet. Histories keep `max_history_size` entries.
    pub fn new(max_history_size: usize) -> (r: TrackingManager)
        ensures
            r@.valid(),
            r@.face_data.nothing_known(),
            r@ == (TrackingState {
                last_head_pose: Pose::identity_pose(),
                inverse_recentering_origin: Pose::identity_pose(),
                motions: Map::empty(),
                left_skeletons: Seq::empty(),
                right_skeletons: Seq::empty(),
                face_data: r@.face_data,
                pico_eye_data: None,
                pico_timestamp: None,
                max_history_size,
            }),
            r@ == TrackingState::initial(r@.face_data, max_history_size),
    {
        let r = TrackingManager {
            last_head_pose: Pose::identity(),
            inverse_recentering_origin: Pose::identity(),
            device_motions_history: HashMap::new(),
            left_skeletons_history: VecDeque::new(),
            right_skeletons_history: VecDeque::new(),
            last_face_data: FaceData::default(),
            last_pico_eye_data: None,
            last_pico_timestamp: None,
            max_history_size,
        };
        assert(r@.motions =~= Map::empty());
        r
    }

    /// The origin that a recentering asks for: where the head was last, as far as the modes say.
    pub fn recentering_plan(
        &self,
        position_recentering_mode: PositionRecenteringMode,
        rotation_recentering_mode: RotationRecenteringMode,
    ) -> (r: RecenteringPlan)
        ensures
            r == self@.recentering(position_recentering_mode, rotation_recentering_mode),
    {
        let head = self.last_head_pose;
        let position = match position_recentering_mode {
            PositionRecenteringMode::Disabled => OriginPosition::At(Pose::identity().position),
            PositionRecenteringMode::LocalFloor => {
                let mut floor = head.position;
                floor.y = Float32::zero();
                OriginPosition::At(floor)
            },
            PositionRecenteringMode::Local { view_height } => OriginPosition::BelowHead {
                head,
                height: view_height,
            },
        };
        let orientation = match rotation_recentering_mode {
            RotationRecenteringMode::Disabled => OriginOrientation::As(
                Pose::identity().orientation,
            ),
            RotationRecenteringMode::Yaw => {
                let mut yaw = head.orientation;
                yaw.x = Float32::zero();
                yaw.z = Float32::zero();
                OriginOrientation::Normalized(yaw)
            },
            RotationRecenteringMode::Tilted => OriginOrientation::As(head.orientation),
        };
        RecenteringPlan { position, orientation }
    }

    /// Takes over the inverse of a new origin.
    pub fn set_inverse_recentering_origin(&mut self, inverse: Pose)
        ensures
            final(self)@ == (TrackingState { inverse_recentering_origin: inverse, ..old(self)@ }),
            final(self)@ == old(self)@.with_origin(inverse),
    {
        self.inverse_recentering_origin = inverse;
    }

    /// The inverse of the origin, by which poses and motions are multiplied.
    pub fn inverse_recentering_origin(&self) -> (r: Pose)
        ensures
            r == self@.inverse_recentering_origin,
    {
        self.inverse_recentering_origin
    }

    /// Takes over the motions of devices. `placed` holds each motion in the recentered space.
    pub fn report_device_motions(
        &mut self,
        ids: &DeviceIds,
        controllers_enabled: bool,
        timestamp: Duration,
        device_motions: &Vec<(u64, DeviceMotion)>,
        placed: &Vec<DeviceMotion>,
    )
        requires
            old(self)@.valid(),
            placed@.len() == device_motions@.len(),
        ensures
            final(self)@.valid(),
            final(self)@ == old(self)@.with_device_motions(
                *ids,
                controllers_enabled,
                timestamp,
                device_motions@,
                placed@,
            ),
            // The head was last where the last of its motions says, or where it was before.
            forall|i: int|
                0 <= i < device_motions@.len() && (#[trigger] device_motions@[i]).0 == ids.head && (
                forall|j: int|
                    i < j < device_motions@.len() ==> (#[trigger] device_motions@[j]).0 != ids.head)
                    ==> final(self)@.last_head_pose == device_motions@[i].1.pose,
            (forall|j: int|
                0 <= j < device_motions@.len() ==> (#[trigger] device_motions@[j]).0 != ids.head)
                ==> final(self)@.last_head_pose == old(self)@.last_head_pose,
    {
        let ghost before = self@;
        let ghost reported = device_motions@;
        let ghost kept = ids.kept_motions(controllers_enabled, reported, placed@);
        let mut i: usize = 0;
        assert(kept.take(0) =~= Seq::empty());
        assert(reported.take(0) =~= Seq::empty());
        while i < device_motions.len()
            invariant
                i <= device_motions@.len(),
                placed@.len() == device_motions@.len(),
                reported == device_motions@,
                kept == ids.kept_motions(controllers_enabled, reported, placed@),
                self@.valid(),
                self@ == (TrackingState {
                    last_head_pose: head_pose_after(
                        before.last_head_pose,
                        ids.head,
                        reported.take(i as int),
                    ),
                    motions: with_motions(
                        before.motions,
                        before.max_history_size as nat,
                        timestamp,
                        kept.take(i as int),
                    ),
                    ..before
                }),
            decreases device_motions@.len() - i,
        {
            let (device_id, motion) = device_motions[i];
            if device_id == ids.head {
                let ghost current = self@;
                self.last_head_pose = motion.pose;
                assert(self@ == (TrackingState { last_head_pose: motion.pose, ..current }));
            }
            let stored = if ids.motion_placement(controllers_enabled, device_id).is_some() {
                placed[i]
            } else {
                motion
            };
            self.push_motion(timestamp, device_id, stored);
            proof {
                assert(reported.take(i + 1).drop_last() =~= reported.take(i as int));
                assert(kept.take(i + 1).drop_last() =~= kept.take(i as int));
                assert(kept.take(i + 1).last() == (device_id, stored));
            }
            i += 1;
        }
        assert(kept.take(i as int) =~= kept);
        assert(reported.take(i as int) =~= reported);
        proof {
            assert forall|i: int|
                0 <= i < reported.len() && (#[trigger] reported[i]).0 == ids.head && (forall|j: int|
                    i < j < reported.len() ==> (#[trigger] reported[j]).0 != ids.head)
                implies self@.last_head_pose == reported[i].1.pose by {
                lemma_head_pose(before.last_head_pose, ids.head, reported, i);
            }
            if forall|j: int| 0 <= j < reported.len() ==> (#[trigger] reported[j]).0 != ids.head {
                lemma_head_pose(before.last_head_pose, ids.head, reported, -1);
            }
        }
    }

    /// Puts a motion in front of a device's history.
    fn push_motion(&mut self, timestamp: Duration, device_id: u64, motion: DeviceMotion)
        requires
            old(self)@.valid(),
        ensures
            final(self)@.valid(),
            final(self)@ == (TrackingState {
                motions: with_motion(
                    old(self)@.motions,
                    old(self)@.max_history_size as nat,
                    timestamp,
                    device_id,
                    motion,
                ),
                ..old(self)@
            }),
            final(self)@.motions.dom() == old(self)@.motions.dom().insert(device_id),
            final(self)@.motions[device_id].len() == if !old(self)@.motions.contains_key(
                device_id,
            ) {
                1
            } else if old(self)@.motions[device_id].len() < old(self)@.max_history_size {
                old(self)@.motions[device_id].len() + 1
            } else {
                old(self)@.motions[device_id].len()
            },
            final(self)@.motions[device_id][0] == (timestamp, motion),
            forall|k: int|
                0 < k < final(self)@.motions[device_id].len()
                    ==> #[trigger] final(self)@.motions[device_id][k] == old(
                self)@.motions[device_id][k - 1],
    {
        let ghost before = self@.motions;
        let ghost newest = seq![(timestamp, motion)];
        let mut motions: VecDeque<(Duration, DeviceMotion)> = match self.device_motions_history.remove(
            &device_id,
        ) {
            Some(motions) => motions,
            None => VecDeque::new(),
        };
        let known = motions.len() > 0;
        let ghost history = motions@;
        proof {
            if before.contains_key(device_id) {
                assert(before[device_id] == history);
            } else {
                assert(history.len() == 0);
            }
        }
        motions.push_front((timestamp, motion));
        assert(motions@ =~= newest + history);
        if known && motions.len() > self.max_history_size {
            motions.pop_back();
            assert(motions@ =~= (newest + history).drop_last());
        } else if !known {
            assert(motions@ =~= newest);
        }
        self.device_motions_history.insert(device_id, motions);
        assert(self@.motions =~= with_motion(
            before,
            self.max_history_size as nat,
            timestamp,
            device_id,
            motion,
        ));
    }

    /// The motion of a device at a time. If there is none for just that time, it is the closest one
    /// that is not older: `None` means that there is no newer one.
    pub fn get_device_motion(&self, device_id: u64, sample_timestamp: Duration) -> (r: Option<
        DeviceMotion,
    >)
        ensures
            is_motion_at(self@.motions, device_id, sample_timestamp, r),
            r is Some <==> self@.motions.contains_key(device_id) && exists|i: int|
                0 <= i < self@.motions[device_id].len() && (
                #[trigger] self@.motions[device_id][i]).0@ >= sample_timestamp@,
    {
        let motions = match self.device_motions_history.get(&device_id) {
            Some(motions) => motions,
            None => {
                return None;
            },
        };
        let ghost history = self@.motions[device_id];
        assert(self@.motions.contains_key(device_id) && history == motions@);
        let mut best: Option<usize> = None;
        let mut i: usize = 0;
        while i < motions.len()
            invariant
                i <= motions@.len(),
                history == motions@,
                match best {
                    Some(b) => b < i && is_closest(history.take(i as int), sample_timestamp, b as int),
                    None => all_older(history.take(i as int), sample_timestamp),
                },
            decreases motions@.len() - i,
        {
            let timestamp = motions[i].0;
            let ghost seen = history.take(i as int);
            let ghost next = history.take(i + 1);
            assert(forall|j: int| 0 <= j < i ==> #[trigger] next[j] == seen[j]);
            assert(next[i as int] == history[i as int]);
            if timestamp.nanos >= sample_timestamp.nanos {
                let closer = match best {
                    Some(b) => timestamp.nanos < motions[b].0.nanos,
                    None => true,
                };
                if closer {
                    best = Some(i);
                    assert(is_closest(next, sample_timestamp, i as int));
                }
            }
            i += 1;
        }
        assert(history.take(i as int) =~= history);
        assert(best matches Some(b) ==> history[b as int].0@ >= sample_timestamp@);
        match best {
            Some(b) => Some(motions[b].1),
            None => None,
        }
    }

    /// Takes over the skeleton of a hand, which is in the recentered space.
    pub fn report_hand_skeleton(
        &mut self,
        hand_type: HandType,
        timestamp: Duration,
        skeleton: HandSkeleton,
    )
        requires
            old(self)@.valid(),
        ensures
            final(self)@.valid(),
            final(self)@ == old(self)@.with_hand_skeleton(hand_type, timestamp, skeleton),
    {
        match hand_type {
            HandType::Left => push_skeleton(
                &mut self.left_skeletons_history,
                self.max_history_size,
                timestamp,
                skeleton,
            ),
            HandType::Right => push_skeleton(
                &mut self.right_skeletons_history,
                self.max_history_size,
                timestamp,
                skeleton,
            ),
        }
    }

    /// The skeleton of a hand for just this time.
    pub fn get_hand_skeleton(&self, hand_type: HandType, sample_timestamp: Duration) -> (r: Option<
        &HandSkeleton,
    >)
        ensures
            is_skeleton_at(self@.skeletons(hand_type), sample_timestamp, r),
    {
        let skeletons = match hand_type {
            HandType::Left => &self.left_skeletons_history,
            HandType::Right => &self.right_skeletons_history,
        };
        let mut i: usize = 0;
        while i < skeletons.len()
            invariant
                i <= skeletons@.len(),
                skeletons@ == self@.skeletons(hand_type),
                forall|j: int| 0 <= j < i ==> (#[trigger] skeletons@[j]).0 != sample_timestamp,
            decreases skeletons@.len() - i,
        {
            if skeletons[i].0 == sample_timestamp {
                return Some(&skeletons[i].1);
            }
            i += 1;
        }
        None
    }

    /// Takes over face data, which is in the head's own space already.
    pub fn report_face_data(&mut self, face_data: FaceData)
        ensures
            final(self)@ == (TrackingState { face_data, ..old(self)@ }),
            final(self)@ == old(self)@.with_face(face_data),
    {
        self.last_face_data = face_data;
    }

    /// The face data that came in last.
    pub fn get_face_data(&self) -> (r: &FaceData)
        ensures
            *r == self@.face_data,
    {
        &self.last_face_data
    }

    /// An eye sample as it is logged.
    pub fn convert_pico_eye_data(&self, data: &EyeTrackingDataPICO<Float32>) -> (r:
        EyeTrackingDataLog<Float32>)
        ensures
            r == eye_log(*data),
            r.timestamp_ns == data.time,
            r.left_eye_pose_status.status_flags == data.left_eye_pose_status,
            r.right_eye_pose_status.status_flags == data.right_eye_pose_status,
            r.combined_eye_pose_status.status_flags == data.combined_eye_pose_status,
            r.left_eye_gaze_point == data.left_eye_gaze_point,
            r.right_eye_gaze_point == data.right_eye_gaze_point,
            r.combined_eye_gaze_point == data.combined_eye_gaze_point,
            r.left_eye_gaze_vector == data.left_eye_gaze_vector,
            r.right_eye_gaze_vector == data.right_eye_gaze_vector,
            r.combined_eye_gaze_vector == data.combined_eye_gaze_vector,
            r.left_eye_openness == data.left_eye_openness,
            r.right_eye_openness == data.right_eye_openness,
            r.left_eye_pupil_dilation == data.left_eye_pupil_dilation,
            r.right_eye_pupil_dilation == data.right_eye_pupil_dilation,
            r.left_eye_position_guide == data.left_eye_position_guide,
            r.right_eye_position_guide == data.right_eye_position_guide,
            r.foveated_gaze_direction == data.foveated_gaze_direction,
            r.foveated_gaze_tracking_state == data.foveated_gaze_tracking_state,
    {
        EyeTrackingDataLog {
            timestamp_ns: data.time,
            left_eye_pose_status: convert_pose_status(data.left_eye_pose_status),
            right_eye_pose_status: convert_pose_status(data.right_eye_pose_status),
            combined_eye_pose_status: convert_pose_status(data.combined_eye_pose_status),
            left_eye_gaze_point: data.left_eye_gaze_point,
            right_eye_gaze_point: data.right_eye_gaze_point,
            combined_eye_gaze_point: data.combined_eye_gaze_point,
            left_eye_gaze_vector: data.left_eye_gaze_vector,
            right_eye_gaze_vector: data.right_eye_gaze_vector,
            combined_eye_gaze_vector: data.combined_eye_gaze_vector,
            left_eye_openness: data.left_eye_openness,
            right_eye_openness: data.right_eye_openness,
            left_eye_pupil_dilation: data.left_eye_pupil_dilation,
            right_eye_pupil_dilation: data.right_eye_pupil_dilation,
            left_eye_position_guide: data.left_eye_position_guide,
            right_eye_position_guide: data.right_eye_position_guide,
            foveated_gaze_direction: data.foveated_gaze_direction,
            foveated_gaze_tracking_state: data.foveated_gaze_tracking_state,
        }
    }

    /// Takes over an eye sample unless its hardware time is that of the last one. Returns whether
    /// the sample was new.
    pub fn report_pico_eye_data(&mut self, eye_tracking_data: &EyeTrackingDataPICO<Float32>) -> (r:
        bool)
        ensures
            r == !old(self)@.repeats(*eye_tracking_data),
            final(self)@ == old(self)@.with_eye_data(*eye_tracking_data),
    {
        if let Some(last_timestamp) = self.last_pico_timestamp {
            if eye_tracking_data.time == last_timestamp {
                return false;
            }
        }
        let converted = self.convert_pico_eye_data(eye_tracking_data);
        self.last_pico_eye_data = Some(converted);
        self.last_pico_timestamp = Some(eye_tracking_data.time);
        true
    }

    /// The eye sample that came in last.
    pub fn get_pico_eye_data(&self) -> (r: Option<&EyeTrackingDataLog<Float32>>)
        ensures
            r == (match self@.pico_eye_data {
                Some(data) => Some(&data),
                None => None,
            }),
    {
        self.last_pico_eye_data.as_ref()
    }
}

/// Puts a skeleton behind a hand's history.
fn push_skeleton(
    skeletons: &mut VecDeque<(Duration, HandSkeleton)>,
    max_history_size: usize,
    timestamp: Duration,
    skeleton: HandSkeleton,
)
    requires
        old(skeletons)@.len() <= max_history_size,
    ensures
        final(skeletons)@.len() <= max_history_size,
        final(skeletons)@ == with_skeleton(
            old(skeletons)@,
            max_history_size as nat,
            timestamp,
            skeleton,
        ),
{
    skeletons.push_back((timestamp, skeleton));
    if skeletons.len() > max_history_size {
        let ghost longer = skeletons@;
        skeletons.pop_front();
        assert(skeletons@ =~= longer.skip(1));
    }
}

/// The last motion of a device among several, if there is one.
pub open spec fn last_motion_of(motions: Seq<(u64, DeviceMotion)>, device_id: u64) -> Option<
    DeviceMotion,
>
    decreases motions.len(),
{
    if motions.len() == 0 {
        None
    } else if motions.last().0 == device_id {
        Some(motions.last().1)
    } else {
        last_motion_of(motions.drop_last(), device_id)
    }
}

/// Every device that is known has a motion.
spec fn none_empty(histories: Map<u64, MotionHistory>) -> bool {
    forall|id: u64| #[trigger] histories.contains_key(id) ==> histories[id].len() >= 1
}

/// What several motions leave of a device's history.
proof fn lemma_with_motions(
    histories: Map<u64, MotionHistory>,
    max_history_size: nat,
    timestamp: Duration,
    motions: Seq<(u64, DeviceMotion)>,
    device_id: u64,
)
    requires
        none_empty(histories),
    ensures
        ({
            let after = with_motions(histories, max_history_size, timestamp, motions);
            &&& none_empty(after)
            &&& match last_motion_of(motions, device_id) {
                Some(motion) => after.contains_key(device_id) && after[device_id][0] == (
                    timestamp,
                    motion,
                ),
                None => {
                    &&& after.contains_key(device_id) == histories.contains_key(device_id)
                    &&& after[device_id] == histories[device_id]
                },
            }
        }),
    decreases motions.len(),
{
    if motions.len() > 0 {
        lemma_with_motions(
            histories,
            max_history_size,
            timestamp,
            motions.drop_last(),
            device_id,
        );
    }
}

/// A device that reported a motion for a time has a motion at that time, the one that was kept of
/// its last report.
pub proof fn law_reported_motion_is_found(
    state: TrackingState,
    ids: DeviceIds,
    controllers_enabled: bool,
    timestamp: Duration,
    reported: Seq<(u64, DeviceMotion)>,
    placed: Seq<DeviceMotion>,
    i: int,
    found: Option<DeviceMotion>,
)
    requires
        state.valid(),
        placed.len() == reported.len(),
        0 <= i < reported.len(),
        is_motion_at(
            state.with_device_motions(
                ids,
                controllers_enabled,
                timestamp,
                reported,
                placed,
            ).motions,
            reported[i].0,
            timestamp,
            found,
        ),
    ensures
        found is Some,
        found == last_motion_of(
            ids.kept_motions(controllers_enabled, reported, placed),
            reported[i].0,
        ),
{
    let kept = ids.kept_motions(controllers_enabled, reported, placed);
    let device_id = reported[i].0;
    assert(kept[i].0 == device_id);
    lemma_last_motion_exists(kept, i);
    lemma_with_motions(
        state.motions,
        state.max_history_size as nat,
        timestamp,
        kept,
        device_id,
    );
    let after = with_motions(state.motions, state.max_history_size as nat, timestamp, kept);
    assert(after[device_id][0].0@ >= timestamp@);
    if let Some(motion) = found {
        let k = choose|k: int|
            #[trigger] is_closest(after[device_id], timestamp, k) && after[device_id][k].1
                == motion;
        assert(is_closest(after[device_id], timestamp, k));
        assert(after[device_id][k].0@ <= after[device_id][0].0@);
    }
}

proof fn lemma_last_motion_exists(motions: Seq<(u64, DeviceMotion)>, i: int)
    requires
        0 <= i < motions.len(),
    ensures
        last_motion_of(motions, motions[i].0) is Some,
    decreases motions.len(),
{
    if motions.last().0 != motions[i].0 {
        assert(motions.drop_last()[i] == motions[i]);
        lemma_last_motion_exists(motions.drop_last(), i);
    }
}

/// The motions of some devices leave the history of any other as it was.
pub proof fn law_other_devices_are_kept(
    state: TrackingState,
    ids: DeviceIds,
    controllers_enabled: bool,
    timestamp: Duration,
    reported: Seq<(u64, DeviceMotion)>,
    placed: Seq<DeviceMotion>,
    device_id: u64,
)
    requires
        state.valid(),
        forall|i: int| 0 <= i < reported.len() ==> (#[trigger] reported[i]).0 != device_id,
    ensures
        ({
            let after = state.with_device_motions(
                ids,
                controllers_enabled,
                timestamp,
                reported,
                placed,
            );
            &&& after.motions.contains_key(device_id) == state.motions.contains_key(device_id)
            &&& after.motions[device_id] == state.motions[device_id]
        }),
{
    let kept = ids.kept_motions(controllers_enabled, reported, placed);
    assert forall|i: int| 0 <= i < kept.len() implies (#[trigger] kept[i]).0 != device_id by {
        assert(reported[i].0 != device_id);
    }
    lemma_no_last_motion(kept, device_id);
    lemma_with_motions(
        state.motions,
        state.max_history_size as nat,
        timestamp,
        kept,
        device_id,
    );
}

proof fn lemma_no_last_motion(motions: Seq<(u64, DeviceMotion)>, device_id: u64)
    requires
        forall|i: int| 0 <= i < motions.len() ==> (#[trigger] motions[i]).0 != device_id,
    ensures
        last_motion_of(motions, device_id) is None,
    decreases motions.len(),
{
    if motions.len() > 0 {
        lemma_no_last_motion(motions.drop_last(), device_id);
    }
}

/// The motion of a device at a time is a matter of its history alone, and never an older one.
pub proof fn law_motion_at_is_unique(
    histories: Map<u64, MotionHistory>,
    device_id: u64,
    sample_timestamp: Duration,
    a: Option<DeviceMotion>,
    b: Option<DeviceMotion>,
)
    requires
        is_motion_at(histories, device_id, sample_timestamp, a),
        is_motion_at(histories, device_id, sample_timestamp, b),
    ensures
        a == b,
        a is Some <==> histories.contains_key(device_id) && !all_older(
            histories[device_id],
            sample_timestamp,
        ),
{
    let motions = histories[device_id];
    if a is Some {
        let i = choose|i: int| #[trigger]
            is_closest(motions, sample_timestamp, i) && motions[i].1 == a->0;
        assert(is_closest(motions, sample_timestamp, i));
        assert(!all_older(motions, sample_timestamp));
        if b is Some {
            let j = choose|j: int| #[trigger]
                is_closest(motions, sample_timestamp, j) && motions[j].1 == b->0;
            assert(is_closest(motions, sample_timestamp, j));
            assert(motions[i].0@ <= motions[j].0@ <= motions[i].0@);
            if i < j {
                assert(motions[i].0@ != motions[j].0@);
            }
            if j < i {
                assert(motions[j].0@ != motions[i].0@);
            }
        }
    } else if b is Some {
        let j = choose|j: int| #[trigger]
            is_closest(motions, sample_timestamp, j) && motions[j].1 == b->0;
        assert(is_closest(motions, sample_timestamp, j));
    }
}

/// A skeleton that came in for a new time is what is found for that time, and the other hand is not
/// touched.
pub proof fn law_reported_skeleton_is_found(
    state: TrackingState,
    hand_type: HandType,
    timestamp: Duration,
    skeleton: HandSkeleton,
    found: Option<&HandSkeleton>,
)
    requires
        state.max_history_size > 0,
        is_skeleton_at(state.skeletons(hand_type), timestamp, None),
        is_skeleton_at(
            state.with_hand_skeleton(hand_type, timestamp, skeleton).skeletons(hand_type),
            timestamp,
            found,
        ),
    ensures
        found == Some(&skeleton),
        hand_type == HandType::Left ==> state.with_hand_skeleton(
            hand_type,
            timestamp,
            skeleton,
        ).right_skeletons == state.right_skeletons,
        hand_type == HandType::Right ==> state.with_hand_skeleton(
            hand_type,
            timestamp,
            skeleton,
        ).left_skeletons == state.left_skeletons,
{
    let before = state.skeletons(hand_type);
    let after = state.with_hand_skeleton(hand_type, timestamp, skeleton).skeletons(hand_type);
    assert(after.last() == (timestamp, skeleton));
    assert(after[after.len() - 1].0 == timestamp);
    assert forall|i: int| 0 <= i < after.len() - 1 implies (#[trigger] after[i]).0
        != timestamp by {
        if before.len() + 1 > state.max_history_size {
            assert(after[i] == before[i + 1]);
        } else {
            assert(after[i] == before[i]);
        }
    }
}

/// A sample that comes in again changes nothing, and one with another hardware time takes its place.
pub proof fn law_eye_samples_are_taken_once(
    state: TrackingState,
    data: EyeTrackingDataPICO<Float32>,
    again: EyeTrackingDataPICO<Float32>,
)
    requires
        !state.repeats(data),
    ensures
        state.with_eye_data(data).pico_eye_data == Some(eye_log(data)),
        state.with_eye_data(data).repeats(again) <==> again.time == data.time,
        again.time == data.time ==> state.with_eye_data(data).with_eye_data(again)
            == state.with_eye_data(data),
        again.time != data.time ==> state.with_eye_data(data).with_eye_data(again).pico_eye_data
            == Some(eye_log(again)),
{
}

/// The head pose goes by the last of the head's motions, at `i`, or stays where there is none, which
/// a negative `i` says.
proof fn lemma_head_pose(before: Pose, head_id: u64, motions: Seq<(u64, DeviceMotion)>, i: int)
    requires
        -1 <= i < motions.len(),
        i >= 0 ==> motions[i].0 == head_id,
        forall|j: int| i < j < motions.len() ==> (#[trigger] motions[j]).0 != head_id,
    ensures
        head_pose_after(before, head_id, motions) == if i >= 0 {
            motions[i].1.pose
        } else {
            before
        },
    decreases motions.len(),
{
    if motions.len() > 0 && i < motions.len() - 1 {
        assert(motions[motions.len() - 1].0 != head_id);
        lemma_head_pose(before, head_id, motions.drop_last(), i);
    }
}

/// After a report the last head pose is that of the last of the head's motions among the reported
/// ones, as it was reported, whatever the head pose was before.
pub proof fn law_head_pose_is_the_last_reported(
    state: TrackingState,
    ids: DeviceIds,
    controllers_enabled: bool,
    timestamp: Duration,
    reported: Seq<(u64, DeviceMotion)>,
    placed: Seq<DeviceMotion>,
    i: int,
)
    requires
        0 <= i < reported.len(),
        reported[i].0 == ids.head,
        forall|j: int| i < j < reported.len() ==> (#[trigger] reported[j]).0 != ids.head,
    ensures
        state.with_device_motions(
            ids,
            controllers_enabled,
            timestamp,
            reported,
            placed,
        ).last_head_pose == reported[i].1.pose,
{
    lemma_head_pose(state.last_head_pose, ids.head, reported, i);
}

/// A report without the head leaves the last head pose as it was, and no report touches anything but
/// the head pose and the motions.
pub proof fn law_report_without_the_head(
    state: TrackingState,
    ids: DeviceIds,
    controllers_enabled: bool,
    timestamp: Duration,
    reported: Seq<(u64, DeviceMotion)>,
    placed: Seq<DeviceMotion>,
)
    ensures
        ({
            let after = state.with_device_motions(
                ids,
                controllers_enabled,
                timestamp,
                reported,
                placed,
            );
            &&& (forall|j: int|
                0 <= j < reported.len() ==> (#[trigger] reported[j]).0 != ids.head)
                ==> after.last_head_pose == state.last_head_pose
            &&& after == (TrackingState {
                last_head_pose: after.last_head_pose,
                motions: after.motions,
                ..state
            })
        }),
{
    if forall|j: int| 0 <= j < reported.len() ==> (#[trigger] reported[j]).0 != ids.head {
        lemma_head_pose(state.last_head_pose, ids.head, reported, -1);
    }
}

/// A motion is kept under its device's name in the place it was reported in: as it was placed where
/// the device is the head, another part of the body, or, with controllers, a hand, and as it was
/// reported otherwise.
pub proof fn law_kept_motions(
    ids: DeviceIds,
    controllers_enabled: bool,
    reported: Seq<(u64, DeviceMotion)>,
    placed: Seq<DeviceMotion>,
    i: int,
)
    requires
        0 <= i < reported.len(),
    ensures
        ({
            let kept = ids.kept_motions(controllers_enabled, reported, placed);
            let id = reported[i].0;
            let hand = id == ids.hand_left || id == ids.hand_right;
            let body = seq![
                ids.head,
                ids.body_chest,
                ids.body_hips,
                ids.body_left_elbow,
                ids.body_right_elbow,
                ids.body_left_knee,
                ids.body_left_foot,
                ids.body_right_knee,
                ids.body_right_foot,
            ];
            &&& kept.len() == reported.len()
            &&& kept[i].0 == id
            &&& (controllers_enabled && hand) || body.contains(id) ==> kept[i].1 == placed[i]
            &&& !(controllers_enabled && hand) && !body.contains(id) ==> kept[i].1
                == reported[i].1
            &&& ids.placement(controllers_enabled, id) == (if controllers_enabled && id
                == ids.hand_right {
                Some(MotionPlacement::RightController)
            } else if controllers_enabled && id == ids.hand_left {
                Some(MotionPlacement::LeftController)
            } else if body.contains(id) {
                Some(MotionPlacement::Plain)
            } else {
                None
            })
        }),
{
    let body = seq![
        ids.head,
        ids.body_chest,
        ids.body_hips,
        ids.body_left_elbow,
        ids.body_right_elbow,
        ids.body_left_knee,
        ids.body_left_foot,
        ids.body_right_knee,
        ids.body_right_foot,
    ];
    assert(body[0] == ids.head && body[1] == ids.body_chest && body[2] == ids.body_hips && body[3]
        == ids.body_left_elbow && body[4] == ids.body_right_elbow && body[5] == ids.body_left_knee
        && body[6] == ids.body_left_foot && body[7] == ids.body_right_knee && body[8]
        == ids.body_right_foot);
}

/// The motions of one device among several, in their order.
pub open spec fn motions_of(motions: Seq<(u64, DeviceMotion)>, device_id: u64) -> Seq<
    (u64, DeviceMotion),
> {
    motions.filter(|m: (u64, DeviceMotion)| m.0 == device_id)
}

/// What several motions make of a device's history, entry by entry.
proof fn lemma_history_after(
    histories: Map<u64, MotionHistory>,
    max_history_size: nat,
    timestamp: Duration,
    motions: Seq<(u64, DeviceMotion)>,
    device_id: u64,
)
    requires
        histories.contains_key(device_id) ==> 1 <= histories[device_id].len() && (
        histories[device_id].len() <= 1 || histories[device_id].len() <= max_history_size),
    ensures
        ({
            let new = motions_of(motions, device_id);
            let old_len = if histories.contains_key(device_id) {
                histories[device_id].len()
            } else {
                0
            };
            let after = with_motions(histories, max_history_size, timestamp, motions);
            &&& after.contains_key(device_id) <==> histories.contains_key(device_id) || new.len()
                > 0
            &&& new.len() == 0 ==> after[device_id] == histories[device_id]
            &&& new.len() > 0 ==> after[device_id].len() == if new.len() + old_len
                <= max_history_size {
                new.len() + old_len
            } else if max_history_size > 0 {
                max_history_size
            } else {
                1
            }
            &&& new.len() > 0 ==> forall|k: int|
                0 <= k < after[device_id].len() ==> #[trigger] after[device_id][k] == if k
                    < new.len() {
                    (timestamp, new[new.len() - 1 - k].1)
                } else {
                    histories[device_id][k - new.len()]
                }
        }),
    decreases motions.len(),
{
    reveal(Seq::filter);
    if motions.len() > 0 {
        let earlier = motions.drop_last();
        lemma_history_after(histories, max_history_size, timestamp, earlier, device_id);
        let before = with_motions(histories, max_history_size, timestamp, earlier);
        let after = with_motions(histories, max_history_size, timestamp, motions);
        let new = motions_of(motions, device_id);
        let shorter = motions_of(earlier, device_id);
        let last = motions.last();
        if last.0 == device_id {
            assert(new == shorter.push(last));
            assert(after[device_id][0] == (timestamp, last.1));
            assert forall|k: int| 0 < k < after[device_id].len() implies #[trigger] after[device_id][k]
                == before[device_id][k - 1] by {}
        } else {
            assert(new == shorter);
            assert(after[device_id] == before[device_id]);
        }
    }
}

/// A device's history after a report holds the device's new motions, the last of them first, and
/// behind them its earlier ones in their order, cut off at the end to `max_history_size` entries: as
/// long as they fit nothing is dropped, and otherwise just the oldest are. One motion is always kept.
pub proof fn law_history_keeps_the_latest(
    state: TrackingState,
    ids: DeviceIds,
    controllers_enabled: bool,
    timestamp: Duration,
    reported: Seq<(u64, DeviceMotion)>,
    placed: Seq<DeviceMotion>,
    device_id: u64,
)
    requires
        state.valid(),
    ensures
        ({
            let new = motions_of(
                ids.kept_motions(controllers_enabled, reported, placed),
                device_id,
            );
            let earlier = if state.motions.contains_key(device_id) {
                state.motions[device_id]
            } else {
                Seq::empty()
            };
            let all = Seq::new(
                new.len(),
                |k: int| (timestamp, new[new.len() - 1 - k].1),
            ) + earlier;
            let bound = if state.max_history_size > 0 {
                state.max_history_size as int
            } else {
                1
            };
            let after = state.with_device_motions(
                ids,
                controllers_enabled,
                timestamp,
                reported,
                placed,
            ).motions;
            &&& after.contains_key(device_id) <==> all.len() > 0
            &&& all.len() > 0 && all.len() <= bound ==> after[device_id] == all
            &&& all.len() > bound ==> after[device_id] == all.take(bound)
        }),
{
    let kept = ids.kept_motions(controllers_enabled, reported, placed);
    let new = motions_of(kept, device_id);
    lemma_history_after(
        state.motions,
        state.max_history_size as nat,
        timestamp,
        kept,
        device_id,
    );
    let earlier = if state.motions.contains_key(device_id) {
        state.motions[device_id]
    } else {
        Seq::empty()
    };
    let all = Seq::new(new.len(), |k: int| (timestamp, new[new.len() - 1 - k].1)) + earlier;
    let bound = if state.max_history_size > 0 {
        state.max_history_size as int
    } else {
        1
    };
    let after = with_motions(state.motions, state.max_history_size as nat, timestamp, kept);
    if all.len() > 0 && all.len() <= bound {
        assert(after[device_id] =~= all);
    }
    if all.len() > bound {
        assert(after[device_id] =~= all.take(bound));
    }
}

/// One more motion of a known device leaves all of that device's earlier motions in its history, in
/// their order, behind the new one, as long as there are fewer than `max_history_size` of them, and
/// otherwise drops just the oldest.
pub proof fn law_one_more_motion(
    state: TrackingState,
    ids: DeviceIds,
    controllers_enabled: bool,
    timestamp: Duration,
    device_id: u64,
    motion: DeviceMotion,
    placed: DeviceMotion,
)
    requires
        state.valid(),
        state.motions.contains_key(device_id),
    ensures
        ({
            let earlier = state.motions[device_id];
            let after = state.with_device_motions(
                ids,
                controllers_enabled,
                timestamp,
                seq![(device_id, motion)],
                seq![placed],
            ).motions[device_id];
            &&& after[0] == (timestamp, motion) || after[0] == (timestamp, placed)
            &&& earlier.len() < state.max_history_size ==> after.skip(1) == earlier
            &&& earlier.len() >= state.max_history_size ==> after.skip(1) == earlier.drop_last()
        }),
{
    let reported = seq![(device_id, motion)];
    let kept = ids.kept_motions(controllers_enabled, reported, seq![placed]);
    reveal(Seq::filter);
    assert(kept.drop_last() =~= Seq::empty());
    assert(motions_of(kept.drop_last(), device_id) =~= Seq::empty());
    assert(motions_of(kept, device_id) =~= seq![kept[0]]);
    lemma_history_after(
        state.motions,
        state.max_history_size as nat,
        timestamp,
        kept,
        device_id,
    );
    let earlier = state.motions[device_id];
    let after = state.with_device_motions(
        ids,
        controllers_enabled,
        timestamp,
        reported,
        seq![placed],
    ).motions[device_id];
    if earlier.len() < state.max_history_size {
        assert(after.skip(1) =~= earlier);
    } else {
        assert(after.skip(1) =~= earlier.drop_last());
    }
}

/// A report of devices' motions: its time, the motions as they were reported, and as they were
/// placed.
pub type MotionReport = (Duration, Seq<(u64, DeviceMotion)>, Seq<DeviceMotion>);

/// The state after several reports, in their order.
pub open spec fn after_reports(
    state: TrackingState,
    ids: DeviceIds,
    controllers_enabled: bool,
    reports: Seq<MotionReport>,
) -> TrackingState
    decreases reports.len(),
{
    if reports.len() == 0 {
        state
    } else {
        let last = reports.last();
        after_reports(state, ids, controllers_enabled, reports.drop_last()).with_device_motions(
            ids,
            controllers_enabled,
            last.0,
            last.1,
            last.2,
        )
    }
}

/// How many motions of a device several reports hold.
pub open spec fn count_of(reports: Seq<MotionReport>, device_id: u64) -> nat
    decreases reports.len(),
{
    if reports.len() == 0 {
        0
    } else {
        count_of(reports.drop_last(), device_id) + motions_of(reports.last().1, device_id).len()
    }
}

/// As many motions of a device are kept as were reported.
proof fn lemma_kept_count(
    ids: DeviceIds,
    controllers_enabled: bool,
    reported: Seq<(u64, DeviceMotion)>,
    placed: Seq<DeviceMotion>,
    device_id: u64,
)
    ensures
        motions_of(ids.kept_motions(controllers_enabled, reported, placed), device_id).len()
            == motions_of(reported, device_id).len(),
    decreases reported.len(),
{
    reveal(Seq::filter);
    let kept = ids.kept_motions(controllers_enabled, reported, placed);
    if reported.len() > 0 {
        lemma_kept_count(ids, controllers_enabled, reported.drop_last(), placed, device_id);
        assert(kept.drop_last() =~= ids.kept_motions(
            controllers_enabled,
            reported.drop_last(),
            placed,
        ));
    }
}

/// A report leaves no history empty or beyond its bound.
proof fn lemma_histories_stay_bounded(
    histories: Map<u64, MotionHistory>,
    max_history_size: nat,
    timestamp: Duration,
    motions: Seq<(u64, DeviceMotion)>,
)
    requires
        forall|id: u64| #[trigger]
            histories.contains_key(id) ==> 1 <= histories[id].len() && (histories[id].len() <= 1
                || histories[id].len() <= max_history_size),
    ensures
        ({
            let after = with_motions(histories, max_history_size, timestamp, motions);
            forall|id: u64| #[trigger]
                after.contains_key(id) ==> 1 <= after[id].len() && (after[id].len() <= 1
                    || after[id].len() <= max_history_size)
        }),
{
    let after = with_motions(histories, max_history_size, timestamp, motions);
    assert forall|id: u64| #[trigger] after.contains_key(id) implies 1 <= after[id].len() && (
    after[id].len() <= 1 || after[id].len() <= max_history_size) by {
        lemma_history_after(histories, max_history_size, timestamp, motions, id);
    }
}

/// However often devices report, the histories stay within their bounds.
pub proof fn law_reports_keep_the_bounds(
    state: TrackingState,
    ids: DeviceIds,
    controllers_enabled: bool,
    reports: Seq<MotionReport>,
)
    requires
        state.valid(),
    ensures
        after_reports(state, ids, controllers_enabled, reports).valid(),
        after_reports(state, ids, controllers_enabled, reports).max_history_size
            == state.max_history_size,
    decreases reports.len(),
{
    if reports.len() > 0 {
        let earlier = after_reports(state, ids, controllers_enabled, reports.drop_last());
        law_reports_keep_the_bounds(state, ids, controllers_enabled, reports.drop_last());
        let last = reports.last();
        lemma_histories_stay_bounded(
            earlier.motions,
            earlier.max_history_size as nat,
            last.0,
            ids.kept_motions(controllers_enabled, last.1, last.2),
        );
    }
}

/// A motion moves back in its device's history by one place with each later motion of the same
/// device, and stays there as long as fewer than `max_history_size` motions are in front of it.
pub proof fn law_motion_stays_in_the_history(
    state: TrackingState,
    ids: DeviceIds,
    controllers_enabled: bool,
    reports: Seq<MotionReport>,
    device_id: u64,
    k: int,
)
    requires
        state.valid(),
        state.motions.contains_key(device_id),
        0 <= k < state.motions[device_id].len(),
        k + count_of(reports, device_id) < state.max_history_size,
    ensures
        ({
            let after = after_reports(state, ids, controllers_enabled, reports).motions;
            &&& after.contains_key(device_id)
            &&& k + count_of(reports, device_id) < after[device_id].len()
            &&& after[device_id][k + count_of(reports, device_id)] == state.motions[device_id][k]
        }),
    decreases reports.len(),
{
    if reports.len() > 0 {
        let earlier = after_reports(state, ids, controllers_enabled, reports.drop_last());
        law_motion_stays_in_the_history(
            state,
            ids,
            controllers_enabled,
            reports.drop_last(),
            device_id,
            k,
        );
        law_reports_keep_the_bounds(state, ids, controllers_enabled, reports.drop_last());
        let last = reports.last();
        lemma_kept_count(ids, controllers_enabled, last.1, last.2, device_id);
        lemma_history_after(
            earlier.motions,
            earlier.max_history_size as nat,
            last.0,
            ids.kept_motions(controllers_enabled, last.1, last.2),
            device_id,
        );
    }
}

/// A motion with fewer than `max_history_size` later motions of the same device is still found for
/// its time, unless one of those is for the same time.
pub proof fn law_recent_motion_is_found(
    state: TrackingState,
    ids: DeviceIds,
    controllers_enabled: bool,
    reports: Seq<MotionReport>,
    device_id: u64,
    k: int,
    found: Option<DeviceMotion>,
)
    requires
        state.valid(),
        state.motions.contains_key(device_id),
        0 <= k < state.motions[device_id].len(),
        k + count_of(reports, device_id) < state.max_history_size,
        is_motion_at(
            after_reports(state, ids, controllers_enabled, reports).motions,
            device_id,
            state.motions[device_id][k].0,
            found,
        ),
    ensures
        found is Some,
        (forall|j: int|
            0 <= j < k + count_of(reports, device_id) ==> (#[trigger] after_reports(
                state,
                ids,
                controllers_enabled,
                reports,
            ).motions[device_id][j]).0 != state.motions[device_id][k].0) ==> found == Some(
            state.motions[device_id][k].1,
        ),
{
    law_motion_stays_in_the_history(state, ids, controllers_enabled, reports, device_id, k);
    let history = after_reports(state, ids, controllers_enabled, reports).motions[device_id];
    let at = k + count_of(reports, device_id);
    let time = state.motions[device_id][k].0;
    assert(history[at].0@ >= time@);
    if let Some(motion) = found {
        let i = choose|i: int| #[trigger]
            is_closest(history, time, i) && history[i].1 == motion;
        assert(is_closest(history, time, i));
        assert(history[i].0@ <= history[at].0@);
        assert(history[i].0@ == time@);
        assert(history[i].0 == time);
        if at < i {
            assert(history[at].0@ != history[i].0@);
        }
        if i < at {
            assert(after_reports(state, ids, controllers_enabled, reports).motions[device_id][i].0
                == time);
        }
    }
}

/// What is found for a time is a motion of the device's history that is not older; no such motion is
/// closer to the time, and of those as close none came in later. Nothing is found just where every
/// motion is older.
pub proof fn law_found_motion_is_the_closest(
    histories: Map<u64, MotionHistory>,
    device_id: u64,
    sample_timestamp: Duration,
    found: Option<DeviceMotion>,
)
    requires
        is_motion_at(histories, device_id, sample_timestamp, found),
    ensures
        found matches Some(motion) ==> histories.contains_key(device_id) && exists|i: int|
            0 <= i < histories[device_id].len() && (#[trigger] histories[device_id][i]).1 == motion
                && histories[device_id][i].0.nanos >= sample_timestamp.nanos && forall|j: int|
                0 <= j < histories[device_id].len() && (#[trigger] histories[device_id][j]).0.nanos
                    >= sample_timestamp.nanos ==> histories[device_id][i].0.nanos
                    < histories[device_id][j].0.nanos || (histories[device_id][i].0.nanos
                    == histories[device_id][j].0.nanos && i <= j),
        found is None && histories.contains_key(device_id) ==> forall|j: int|
            0 <= j < histories[device_id].len() ==> (#[trigger] histories[device_id][j]).0.nanos
                < sample_timestamp.nanos,
{
    let history = histories[device_id];
    if let Some(motion) = found {
        let i = choose|i: int| #[trigger]
            is_closest(history, sample_timestamp, i) && history[i].1 == motion;
        assert(is_closest(history, sample_timestamp, i));
        assert forall|j: int|
            0 <= j < history.len() && (#[trigger] history[j]).0.nanos >= sample_timestamp.nanos
            implies history[i].0.nanos < history[j].0.nanos || (history[i].0.nanos
            == history[j].0.nanos && i <= j) by {
            assert(history[i].0@ <= history[j].0@);
            if j < i {
                assert(history[j].0@ != history[i].0@);
            }
        }
        assert(history[i].1 == motion);
    } else if histories.contains_key(device_id) {
        assert(all_older(history, sample_timestamp));
        assert forall|j: int| 0 <= j < history.len() implies (#[trigger] history[j]).0.nanos
            < sample_timestamp.nanos by {
            assert(history[j].0@ < sample_timestamp@);
        }
    }
}

/// One more skeleton of a hand goes behind the earlier ones, which stay in their order; where there
/// would be more than `max_history_size`, just the oldest goes. Nothing else changes.
pub proof fn law_skeletons_keep_the_latest(
    state: TrackingState,
    hand_type: HandType,
    timestamp: Duration,
    skeleton: HandSkeleton,
)
    ensures
        ({
            let earlier = match hand_type {
                HandType::Left => state.left_skeletons,
                HandType::Right => state.right_skeletons,
            };
            let after = state.with_hand_skeleton(hand_type, timestamp, skeleton);
            let all = earlier.push((timestamp, skeleton));
            let kept = if all.len() > state.max_history_size {
                all.subrange(1, all.len() as int)
            } else {
                all
            };
            &&& hand_type is Left ==> after == (TrackingState { left_skeletons: kept, ..state })
            &&& hand_type is Right ==> after == (TrackingState { right_skeletons: kept, ..state })
        }),
{
    let earlier = state.skeletons(hand_type);
    let all = earlier.push((timestamp, skeleton));
    assert(all.skip(1) =~= all.subrange(1, all.len() as int));
}

/// What is found for a time is the oldest skeleton for just that time, and nothing is found just
/// where there is none.
pub proof fn law_found_skeleton_is_for_the_time(
    skeletons: Seq<(Duration, HandSkeleton)>,
    sample_timestamp: Duration,
    found: Option<&HandSkeleton>,
)
    requires
        is_skeleton_at(skeletons, sample_timestamp, found),
    ensures
        found is None <==> forall|i: int|
            0 <= i < skeletons.len() ==> (#[trigger] skeletons[i]).0.nanos
                != sample_timestamp.nanos,
        forall|i: int|
            0 <= i < skeletons.len() && (#[trigger] skeletons[i]).0.nanos == sample_timestamp.nanos
                && (forall|j: int|
                0 <= j < i ==> (#[trigger] skeletons[j]).0.nanos != sample_timestamp.nanos)
                ==> found == Some(&skeletons[i].1),
{
    if let Some(skeleton) = found {
        let k = choose|k: int|
            0 <= k < skeletons.len() && (#[trigger] skeletons[k]) == (sample_timestamp, *skeleton)
                && forall|j: int| 0 <= j < k ==> (#[trigger] skeletons[j]).0 != sample_timestamp;
        assert(skeletons[k].0.nanos == sample_timestamp.nanos);
        assert forall|i: int|
            0 <= i < skeletons.len() && (#[trigger] skeletons[i]).0.nanos == sample_timestamp.nanos
                && (forall|j: int|
                0 <= j < i ==> (#[trigger] skeletons[j]).0.nanos != sample_timestamp.nanos)
            implies found == Some(&skeletons[i].1) by {
            assert(skeletons[i].0 == sample_timestamp);
            if i < k {
                assert(skeletons[i].0 != sample_timestamp);
            }
        }
    } else {
        assert forall|i: int| 0 <= i < skeletons.len() implies (#[trigger] skeletons[i]).0.nanos
            != sample_timestamp.nanos by {
            assert(skeletons[i].0 != sample_timestamp);
        }
    }
}

/// A sample that is new is held under its own names: each gaze point, gaze vector, openness, pupil
/// size and position guide is that of the same eye in the sample, and each eye's status is taken
/// apart by its own digits. Only the eye sample and its time change, and a repeated one changes
/// nothing.
pub proof fn law_logged_sample_is_the_sample(
    state: TrackingState,
    data: EyeTrackingDataPICO<Float32>,
)
    ensures
        state.pico_timestamp == Some(data.time) ==> state.with_eye_data(data) == state,
        state.pico_timestamp != Some(data.time) ==> state.with_eye_data(data) == (TrackingState {
            pico_eye_data: state.with_eye_data(data).pico_eye_data,
            pico_timestamp: Some(data.time),
            ..state
        }),
        state.pico_timestamp != Some(data.time) ==> ({
            &&& state.with_eye_data(data).pico_eye_data matches Some(log)
            &&& log.timestamp_ns == data.time
            &&& log.left_eye_pose_status.status_flags == data.left_eye_pose_status
            &&& log.right_eye_pose_status.status_flags == data.right_eye_pose_status
            &&& log.combined_eye_pose_status.status_flags == data.combined_eye_pose_status
            &&& log.left_eye_gaze_point == data.left_eye_gaze_point
            &&& log.right_eye_gaze_point == data.right_eye_gaze_point
            &&& log.combined_eye_gaze_point == data.combined_eye_gaze_point
            &&& log.left_eye_gaze_vector == data.left_eye_gaze_vector
            &&& log.right_eye_gaze_vector == data.right_eye_gaze_vector
            &&& log.combined_eye_gaze_vector == data.combined_eye_gaze_vector
            &&& log.left_eye_openness == data.left_eye_openness
            &&& log.right_eye_openness == data.right_eye_openness
            &&& log.left_eye_pupil_dilation == data.left_eye_pupil_dilation
            &&& log.right_eye_pupil_dilation == data.right_eye_pupil_dilation
            &&& log.left_eye_position_guide == data.left_eye_position_guide
            &&& log.right_eye_position_guide == data.right_eye_position_guide
            &&& log.foveated_gaze_direction == data.foveated_gaze_direction
            &&& log.foveated_gaze_tracking_state == data.foveated_gaze_tracking_state
        }),
{
}

/// A status is taken apart by its digits: 0 and 7 for the gaze point, 1 and 8 for the gaze vector, 2
/// for the openness, 3 and 11 for the pupil's size; and it is kept whole beside them.
pub proof fn law_status_is_taken_apart(status: EyePoseStatusPICO)
    ensures
        status_log(status).status_flags == status,
        status_log(status).gaze_point_valid <==> status % 2 == 1 || (status / 0x80) % 2 == 1,
        status_log(status).gaze_vector_valid <==> (status / 2) % 2 == 1 || (status / 0x100) % 2
            == 1,
        status_log(status).eye_openness_valid <==> (status / 4) % 2 == 1,
        status_log(status).pupil_dilation_valid <==> (status / 8) % 2 == 1 || (status / 0x800) % 2
            == 1,
{
    law_valid_parts(status);
}

/// Each eye's status in a logged sample is that eye's status in the sample.
pub proof fn law_logged_statuses<F>(data: EyeTrackingDataPICO<F>)
    ensures
        eye_log(data).left_eye_pose_status == status_log(data.left_eye_pose_status),
        eye_log(data).right_eye_pose_status == status_log(data.right_eye_pose_status),
        eye_log(data).combined_eye_pose_status == status_log(data.combined_eye_pose_status),
{
}

/// What a recentering asks for. The origin's position is zero where it does not follow the head, the
/// head's on the floor, or below the head by the view's height; its orientation is none where it does
/// not follow the head, the head's turn about the vertical alone, or all of the head's.
pub proof fn law_recentering_follows_the_head(
    state: TrackingState,
    position_mode: PositionRecenteringMode,
    rotation_mode: RotationRecenteringMode,
)
    ensures
        ({
            let head = state.last_head_pose;
            let plan = state.recentering(position_mode, rotation_mode);
            &&& position_mode is Disabled ==> (plan.position matches OriginPosition::At(at)
                && at.x.bits == 0 && at.y.bits == 0 && at.z.bits == 0)
            &&& position_mode is LocalFloor ==> (plan.position matches OriginPosition::At(at)
                && at.x == head.position.x && at.y.bits == 0 && at.z == head.position.z)
            &&& position_mode matches PositionRecenteringMode::Local { view_height }
                ==> plan.position == (OriginPosition::BelowHead { head, height: view_height })
            &&& rotation_mode is Disabled ==> (plan.orientation matches OriginOrientation::As(by)
                && by.x.bits == 0 && by.y.bits == 0 && by.z.bits == 0 && by.w.bits == 0x3f80_0000)
            &&& rotation_mode is Yaw ==> (plan.orientation matches OriginOrientation::Normalized(
                by,
            ) && by.x.bits == 0 && by.y == head.orientation.y && by.z.bits == 0 && by.w
                == head.orientation.w)
            &&& rotation_mode is Tilted ==> plan.orientation == OriginOrientation::As(
                head.orientation,
            )
        }),
{
}

/// At first no device, hand or eye is known, the head is at the origin, and the bound of the histories
/// is the one that was set.
pub proof fn law_nothing_is_known_at_first(
    face_data: FaceData,
    max_history_size: usize,
    device_id: u64,
)
    ensures
        ({
            let state = TrackingState::initial(face_data, max_history_size);
            &&& state.valid()
            &&& !state.motions.contains_key(device_id)
            &&& state.left_skeletons.len() == 0
            &&& state.right_skeletons.len() == 0
            &&& state.pico_eye_data is None
            &&& state.pico_timestamp is None
            &&& state.max_history_size == max_history_size
            &&& state.face_data == face_data
            &&& state.last_head_pose == state.inverse_recentering_origin
            &&& state.last_head_pose == Pose::identity_pose()
        }),
{
}

/// The origin and the face that came in last are in force, and each leaves everything else as it was;
/// neither takes part in where a recentering puts the origin, which goes by the head alone.
pub proof fn law_origin_and_face_are_the_last(
    state: TrackingState,
    first: Pose,
    inverse: Pose,
    face_data: FaceData,
    position_mode: PositionRecenteringMode,
    rotation_mode: RotationRecenteringMode,
)
    ensures
        state.with_origin(first).with_origin(inverse) == state.with_origin(inverse),
        state.with_origin(inverse).inverse_recentering_origin == inverse,
        state.with_origin(inverse).recentering(position_mode, rotation_mode) == state.recentering(
            position_mode,
            rotation_mode,
        ),
        state.with_origin(inverse).with_origin(state.inverse_recentering_origin) == state,
        state.with_face(face_data).face_data == face_data,
        state.with_face(face_data).with_face(state.face_data) == state,
{
}

} // verus!
