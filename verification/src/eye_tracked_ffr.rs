//! The foveal shift that follows the gaze, kept in step between encoding and decoding.

use crate::eye_pose_status_pico;
use crate::float::Float32;
use crate::packets::FaceData;
use crate::shift_threshold::{beyond_threshold, is_beyond_threshold, law_threshold_is_symmetric};
use crate::time::{Duration, Instant};
use std::collections::BTreeMap;
use vstd::prelude::*;

verus! {

/// How long eye input counts as active after its last update, in nanoseconds.
pub const EYE_TRACKING_TIMEOUT_NANOS: u128 = 200_000_000;

/// How long a rendered shift counts as recent, in nanoseconds.
pub const RENDERED_SHIFT_WINDOW_NANOS: u128 = 1_000_000_000;

/// How many timestamps the cache keeps.
pub const TIMESTAMP_CACHE_SIZE: usize = 100;

/// The shift of the foveal region from the image's centre.
#[derive(Clone, Copy, PartialEq, Eq, Structural, Debug)]
pub struct DFRShiftParams {
    pub shift_x: Float32,
    pub shift_y: Float32,
    /// Whether the shift comes from valid eye tracking data.
    pub is_eye_tracked: bool,
}

impl DFRShiftParams {
    /// No shift: fixed foveation.
    pub open spec fn fixed() -> DFRShiftParams {
        DFRShiftParams {
            shift_x: Float32 { bits: 0 },
            shift_y: Float32 { bits: 0 },
            is_eye_tracked: false,
        }
    }
}

impl Default for DFRShiftParams {
    fn default() -> (r: Self)
        ensures
            r == DFRShiftParams::fixed(),
    {
        DFRShiftParams { shift_x: Float32::zero(), shift_y: Float32::zero(), is_eye_tracked: false }
    }
}

/// A gaze as a shift on the screen.
#[derive(Clone, Copy, PartialEq, Eq, Structural, Debug)]
pub struct ScreenShift {
    pub x: Float32,
    pub y: Float32,
}

/// The shift that the foveation shader last used.
#[derive(Clone, Copy, PartialEq, Eq, Structural, Debug)]
pub struct RenderedShiftData {
    pub shift: DFRShiftParams,
    pub sequence_id: u64,
    pub timestamp: Instant,
}

/// The shift that is in force, the one that the pipeline agreed on, the one that was rendered last,
/// and those bound to frame timestamps.
pub struct DfrState {
    global_shift: Option<DFRShiftParams>,
    global_last_update: Option<Instant>,
    synchronized_shift: Option<DFRShiftParams>,
    synchronized_last_update: Option<Instant>,
    sequence_id: u64,
    last_rendered: Option<RenderedShiftData>,
    timestamp_cache: BTreeMap<u64, DFRShiftParams>,
}

/// What a `DfrState` holds.
pub struct DfrStateView {
    pub global_shift: Option<DFRShiftParams>,
    pub global_last_update: Option<Instant>,
    pub synchronized_shift: Option<DFRShiftParams>,
    pub synchronized_last_update: Option<Instant>,
    pub sequence_id: u64,
    pub last_rendered: Option<RenderedShiftData>,
    pub timestamp_cache: Map<u64, DFRShiftParams>,
}

impl View for DfrState {
    type V = DfrStateView;

    closed spec fn view(&self) -> DfrStateView {
        DfrStateView {
            global_shift: self.global_shift,
            global_last_update: self.global_last_update,
            synchronized_shift: self.synchronized_shift,
            synchronized_last_update: self.synchronized_last_update,
            sequence_id: self.sequence_id,
            last_rendered: self.last_rendered,
            timestamp_cache: self.timestamp_cache@,
        }
    }
}

/// The keys of a map, in increasing order.
pub open spec fn lists_keys(keys: Seq<u64>, cache: Map<u64, DFRShiftParams>) -> bool {
    &&& forall|i: int, j: int| 0 <= i < j < keys.len() ==> keys[i] < keys[j]
    &&& forall|k: u64| keys.contains(k) <==> #[trigger] cache.contains_key(k)
}

/// The cached timestamps, oldest first.
fn sorted_keys(cache: &BTreeMap<u64, DFRShiftParams>) -> (keys: Vec<u64>)
    ensures
        lists_keys(keys@, cache@),
        keys@.len() == cache@.len(),
{
    broadcast use vstd::std_specs::btree::group_btree_axioms;
    broadcast use vstd::laws_cmp::group_laws_cmp;

    let entries = cache.iter();
    let ghost listed = vstd::std_specs::iter::IteratorSpec::remaining(&entries);
    let ghost sorted = listed.map_values(|e: (&u64, &DFRShiftParams)| *e.0);
    assert(vstd::std_specs::btree::increasing_seq(sorted));
    let mut keys: Vec<u64> = Vec::new();
    for e in it: entries
        invariant
            it.seq() == listed,
            sorted.len() == listed.len(),
            forall|i: int| 0 <= i < listed.len() ==> sorted[i] == *(#[trigger] listed[i]).0,
            keys@ == sorted.take(it.index()),
    {
        keys.push(*e.0);
        assert(keys@ =~= sorted.take(it.index() + 1));
    }
    assert(keys@ =~= sorted);
    assert forall|i: int, j: int| 0 <= i < j < keys@.len() implies keys@[i] < keys@[j] by {
        assert(vstd::std_specs::cmp::OrdSpec::cmp_spec(&sorted[i], &sorted[j]) is Less);
    }
    assert forall|k: u64| keys@.contains(k) <==> #[trigger] cache@.contains_key(k) by {
        if cache@.contains_key(k) {
            assert(listed.contains((&k, &cache@[k])));
            let i = choose|i: int| 0 <= i < listed.len() && listed[i] == (&k, &cache@[k]);
            assert(sorted[i] == k);
        }
        if keys@.contains(k) {
            let i = choose|i: int| 0 <= i < keys@.len() && keys@[i] == k;
            assert(cache@.contains_key(*listed[i].0));
        }
    }
    keys
}

/// The entries of `cache` with fewer than `n` later timestamps beside them.
pub open spec fn newest(cache: Map<u64, DFRShiftParams>, n: nat) -> Map<u64, DFRShiftParams> {
    cache.restrict(Set::new(|k: u64| later(cache, k).len() < n))
}

/// The timestamps of `cache` later than `k`.
pub open spec fn later(cache: Map<u64, DFRShiftParams>, k: u64) -> Set<u64> {
    cache.dom().filter(|j: u64| j > k)
}

/// In an ordered listing of the timestamps, those later than one of them are those behind it.
proof fn lemma_later_count(cache: Map<u64, DFRShiftParams>, keys: Seq<u64>, i: int)
    requires
        lists_keys(keys, cache),
        0 <= i < keys.len(),
    ensures
        later(cache, keys[i]).len() == keys.len() - 1 - i,
{
    let behind = keys.subrange(i + 1, keys.len() as int);
    assert(behind.no_duplicates());
    behind.unique_seq_to_set();
    assert forall|k: u64| behind.to_set().contains(k) <==> #[trigger] later(
        cache,
        keys[i],
    ).contains(k) by {
        if later(cache, keys[i]).contains(k) {
            assert(cache.contains_key(k));
            let j = choose|j: int| 0 <= j < keys.len() && keys[j] == k;
            assert(behind[j - i - 1] == k);
        }
        if behind.contains(k) {
            let j = choose|j: int| 0 <= j < behind.len() && behind[j] == k;
            assert(keys[i + 1 + j] == k);
            assert(keys.contains(k));
            assert(cache.contains_key(k));
        }
    }
    assert(behind.to_set() =~= later(cache, keys[i]));
}

/// Drops the oldest entries until at most `TIMESTAMP_CACHE_SIZE` are left.
fn evict(cache: &mut BTreeMap<u64, DFRShiftParams>)
    ensures
        final(cache)@ == newest(old(cache)@, TIMESTAMP_CACHE_SIZE as nat),
        final(cache)@.len() <= TIMESTAMP_CACHE_SIZE,
{
    broadcast use vstd::std_specs::btree::group_btree_axioms;

    let keys = sorted_keys(cache);
    let ghost full = cache@;
    let surplus: usize = if keys.len() > TIMESTAMP_CACHE_SIZE {
        keys.len() - TIMESTAMP_CACHE_SIZE
    } else {
        0
    };
    let mut i: usize = 0;
    assert(cache@ =~= full.remove_keys(keys@.take(0).to_set()));
    while i < surplus
        invariant
            i <= surplus <= keys@.len(),
            lists_keys(keys@, full),
            keys@.len() == full.len(),
            full.dom().finite(),
            cache@ == full.remove_keys(keys@.take(i as int).to_set()),
            cache@.dom().finite(),
            cache@.len() == full.len() - i,
        decreases surplus - i,
    {
        let ghost before = cache@;
        proof {
            let k = keys@[i as int];
            assert(keys@.contains(k));
            assert(!keys@.take(i as int).contains(k));
            assert(before.contains_key(k));
        }
        cache.remove(&keys[i]);
        proof {
            let dropped = keys@.take(i as int);
            let next = keys@.take(i + 1);
            assert forall|k: u64| #[trigger] next.contains(k) == (dropped.contains(k) || k
                == keys@[i as int]) by {
                if next.contains(k) {
                    let j = choose|j: int| 0 <= j < next.len() && next[j] == k;
                    if j < i {
                        assert(dropped[j] == k);
                    }
                }
                if dropped.contains(k) {
                    let j = choose|j: int| 0 <= j < dropped.len() && dropped[j] == k;
                    assert(next[j] == k);
                }
                assert(next[i as int] == keys@[i as int]);
            }
            assert(cache@ =~= full.remove_keys(keys@.take(i + 1).to_set()));
        }
        i += 1;
    }
    proof {
        assert forall|k: u64| #[trigger] cache@.contains_key(k) <==> newest(
            full,
            TIMESTAMP_CACHE_SIZE as nat,
        ).contains_key(k) by {
            if full.contains_key(k) {
                assert(keys@.contains(k));
                let j = choose|j: int| 0 <= j < keys@.len() && keys@[j] == k;
                lemma_later_count(full, keys@, j);
                if j < surplus {
                    assert(keys@.take(surplus as int)[j] == k);
                } else if keys@.take(surplus as int).contains(k) {
                    let dropped = keys@.take(surplus as int);
                    let h = choose|h: int| 0 <= h < dropped.len() && dropped[h] == k;
                    assert(keys@[h] < keys@[j]);
                }
            }
        }
        assert(cache@ =~= newest(full, TIMESTAMP_CACHE_SIZE as nat));
    }
}

impl DfrState {
    /// Nothing known yet.
    pub fn new() -> (r: DfrState)
        ensures
            r@ == (DfrStateView {
                global_shift: None,
                global_last_update: None,
                synchronized_shift: None,
                synchronized_last_update: None,
                sequence_id: 0,
                last_rendered: None,
                timestamp_cache: Map::empty(),
            }),
            r@ == DfrStateView::initial(),
    {
        DfrState {
            global_shift: None,
            global_last_update: None,
            synchronized_shift: None,
            synchronized_last_update: None,
            sequence_id: 0,
            last_rendered: None,
            timestamp_cache: BTreeMap::new(),
        }
    }
}

impl DfrStateView {
    /// Nothing known yet.
    pub open spec fn initial() -> DfrStateView {
        DfrStateView {
            global_shift: None,
            global_last_update: None,
            synchronized_shift: None,
            synchronized_last_update: None,
            sequence_id: 0,
            last_rendered: None,
            timestamp_cache: Map::empty(),
        }
    }

    /// Eye input was updated within the timeout.
    pub open spec fn input_active(self, now: Instant) -> bool {
        match self.global_last_update {
            Some(last_update) => last_update@ <= now@ < last_update@ + EYE_TRACKING_TIMEOUT_NANOS,
            None => false,
        }
    }

    /// The shader took its last shift within the last second.
    pub open spec fn rendered_recently(self, now: Instant) -> bool {
        match self.last_rendered {
            Some(data) => now@ < data.timestamp@ + RENDERED_SHIFT_WINDOW_NANOS,
            None => false,
        }
    }

    /// The shift that is bound to a timestamp.
    pub open spec fn shift_for(self, target_timestamp_ns: u64) -> Option<DFRShiftParams> {
        if self.timestamp_cache.contains_key(target_timestamp_ns) {
            Some(self.timestamp_cache[target_timestamp_ns])
        } else {
            None
        }
    }

    /// The state after the shift in force was asked for with a timestamp, of which zero is none.
    pub open spec fn asked(self, target_timestamp_ns: u64, now: Instant) -> DfrStateView {
        if target_timestamp_ns == 0 {
            self.rendered(now)
        } else {
            self.bound(target_timestamp_ns)
        }
    }

    /// The shift in force, which is none where the eyes are not tracked.
    pub open spec fn current_shift(self) -> DFRShiftParams {
        match self.global_shift {
            Some(shift) => shift,
            None => DFRShiftParams::fixed(),
        }
    }

    /// The state after the shift in force was handed to the shader.
    pub open spec fn rendered(self, now: Instant) -> DfrStateView {
        DfrStateView {
            last_rendered: Some(
                RenderedShiftData {
                    shift: self.current_shift(),
                    sequence_id: self.sequence_id,
                    timestamp: now,
                },
            ),
            ..self
        }
    }

    /// The state after the shift in force was bound to a frame's timestamp.
    pub open spec fn bound(self, target_timestamp_ns: u64) -> DfrStateView {
        DfrStateView {
            timestamp_cache: newest(
                self.timestamp_cache.insert(target_timestamp_ns, self.current_shift()),
                TIMESTAMP_CACHE_SIZE as nat,
            ),
            ..self
        }
    }

    /// The state after a new shift came in.
    pub open spec fn updated(self, shift: DFRShiftParams, now: Instant) -> DfrStateView {
        let current = if shift.is_eye_tracked {
            Some(shift)
        } else {
            None
        };
        let timed = DfrStateView {
            global_shift: current,
            global_last_update: Some(now),
            ..self
        };
        if needs_synchronization(self.synchronized_shift, shift) {
            DfrStateView {
                synchronized_shift: current,
                synchronized_last_update: Some(now),
                sequence_id: (self.sequence_id + 1) as u64,
                ..timed
            }
        } else {
            timed
        }
    }
}

/// Two shifts differ noticeably: by more than two hundredths in one of their coordinates.
pub open spec fn noticeable(current: DFRShiftParams, new_shift: DFRShiftParams) -> bool {
    beyond_threshold(current.shift_x, new_shift.shift_x) || beyond_threshold(
        current.shift_y,
        new_shift.shift_y,
    )
}

/// The pipeline has to agree on a new shift: there is none yet, the mode changes, or the gaze moved
/// noticeably.
pub open spec fn needs_synchronization(
    synchronized: Option<DFRShiftParams>,
    new_shift: DFRShiftParams,
) -> bool {
    match synchronized {
        Some(current) => {
            ||| current.is_eye_tracked != new_shift.is_eye_tracked
            ||| !new_shift.is_eye_tracked
            ||| noticeable(current, new_shift)
        },
        None => true,
    }
}

/// The shift for a face: that of its combined gaze where that gaze is flagged valid and maps to the
/// screen, none otherwise.
pub open spec fn combined_shift(face: FaceData, screen_shift: Option<ScreenShift>) -> DFRShiftParams {
    match (face.pico_eye_tracking_data, screen_shift) {
        (Some(eyes), Some(shift)) if eye_pose_status_pico::gaze_vector_set(
            eyes.combined_eye_pose_status,
        ) => DFRShiftParams { shift_x: shift.x, shift_y: shift.y, is_eye_tracked: true },
        _ => DFRShiftParams::fixed(),
    }
}

/// Turns face data into shifts.
pub struct DynamicFoveatedRenderer {}

impl Default for DynamicFoveatedRenderer {
    fn default() -> (r: Self)
        ensures
            r == (DynamicFoveatedRenderer {  }),
    {
        DynamicFoveatedRenderer {  }
    }
}

impl DynamicFoveatedRenderer {
    pub fn new() -> (r: Self)
        ensures
            r == (DynamicFoveatedRenderer {  }),
    {
        DynamicFoveatedRenderer::default()
    }

    /// Takes over a new face sample. `screen_shift` is the combined gaze vector mapped to the screen,
    /// `None` where the vector is not a reasonable gaze.
    pub fn update_from_face_data(
        &self,
        state: &mut DfrState,
        face_data: &FaceData,
        screen_shift: Option<ScreenShift>,
        now: Instant,
    )
        requires
            old(state)@.sequence_id < u64::MAX || !needs_synchronization(
                old(state)@.synchronized_shift,
                combined_shift(*face_data, screen_shift),
            ),
        ensures
            final(state)@ == old(state)@.updated(
                combined_shift(*face_data, screen_shift),
                now,
            ),
            final(state)@.global_last_update == Some(now),
            final(state)@.last_rendered == old(state)@.last_rendered,
            final(state)@.timestamp_cache == old(state)@.timestamp_cache,
            // Between tracked shifts that are close in both coordinates nothing is synchronized.
            match (old(state)@.synchronized_shift, final(state)@.global_shift) {
                (Some(current), Some(shift)) => (current.is_eye_tracked && !beyond_threshold(
                    current.shift_x,
                    shift.shift_x,
                ) && !beyond_threshold(current.shift_y, shift.shift_y)) ==> (final(
                state)@.synchronized_shift == old(state)@.synchronized_shift && final(
                state)@.synchronized_last_update == old(state)@.synchronized_last_update && final(
                state)@.sequence_id == old(state)@.sequence_id),
                _ => true,
            },
    {
        let shift = self.calculate_dfr_shift_combined(face_data, screen_shift);
        let current = if shift.is_eye_tracked {
            Some(shift)
        } else {
            None
        };
        // The time is noted even where there is no valid eye data, so that input does not time out.
        state.global_last_update = Some(now);
        state.global_shift = current;
        if self.should_update_synchronized_shift(&state.synchronized_shift, &shift) {
            state.sequence_id = state.sequence_id + 1;
            state.synchronized_shift = current;
            state.synchronized_last_update = Some(now);
        }
    }

    /// Whether the pipeline has to agree on a new shift.
    pub fn should_update_synchronized_shift(
        &self,
        synchronized: &Option<DFRShiftParams>,
        new_shift: &DFRShiftParams,
    ) -> (r: bool)
        ensures
            r == needs_synchronization(*synchronized, *new_shift),
            r <==> match *synchronized {
                Some(current) => {
                    ||| !current.is_eye_tracked
                    ||| !new_shift.is_eye_tracked
                    ||| beyond_threshold(current.shift_x, new_shift.shift_x)
                    ||| beyond_threshold(current.shift_y, new_shift.shift_y)
                },
                None => true,
            },
    {
        match synchronized {
            Some(current) => current.is_eye_tracked != new_shift.is_eye_tracked
                || !new_shift.is_eye_tracked || is_beyond_threshold(
                current.shift_x,
                new_shift.shift_x,
            ) || is_beyond_threshold(current.shift_y, new_shift.shift_y),
            None => true,
        }
    }

    /// The shift for a face sample.
    pub fn calculate_dfr_shift_combined(
        &self,
        face_data: &FaceData,
        screen_shift: Option<ScreenShift>,
    ) -> (r: DFRShiftParams)
        ensures
            r == combined_shift(*face_data, screen_shift),
    {
        if let Some(eyes) = &face_data.pico_eye_tracking_data {
            if eye_pose_status_pico::is_gaze_vector_valid(eyes.combined_eye_pose_status) {
                if let Some(shift) = screen_shift {
                    return DFRShiftParams {
                        shift_x: shift.x,
                        shift_y: shift.y,
                        is_eye_tracked: true,
                    };
                }
            }
        }
        DFRShiftParams::default()
    }
}

/// Hands the shift in force to the foveation shader and remembers it as the rendered one.
pub fn get_eye_tracked_ffr_shift(state: &mut DfrState, now: Instant) -> (r: DFRShiftParams)
    ensures
        r == old(state)@.current_shift(),
        final(state)@ == old(state)@.rendered(now),
{
    let shift = match state.global_shift {
        Some(shift) => shift,
        None => DFRShiftParams::default(),
    };
    let sequence_id: u64 = get_synchronized_sequence_id(state);
    state.last_rendered = Some(RenderedShiftData { shift, sequence_id, timestamp: now });
    shift
}

/// The shift that encoding and decoding agreed on, `None` for fixed foveation.
pub fn get_synchronized_dfr_shift(state: &DfrState) -> (r: Option<DFRShiftParams>)
    ensures
        r == state@.synchronized_shift,
{
    state.synchronized_shift
}

/// How often the synchronized shift was set.
pub fn get_synchronized_sequence_id(state: &DfrState) -> (r: u64)
    ensures
        r == state@.sequence_id,
{
    state.sequence_id
}

/// Whether eye input was updated within the timeout. A clock that went back makes it inactive.
pub fn is_eye_tracking_active(state: &DfrState, now: Instant) -> (r: bool)
    ensures
        r == (match state@.global_last_update {
            Some(last_update) => last_update@ <= now@ < last_update@ + EYE_TRACKING_TIMEOUT_NANOS,
            None => false,
        }),
        r <==> (state@.global_last_update matches Some(last_update) && 0 <= now@ - last_update@
            < 200_000_000),
        r == state@.input_active(now),
{
    match state.global_last_update {
        Some(last_update) => last_update.nanos <= now.nanos && now.nanos - last_update.nanos
            < EYE_TRACKING_TIMEOUT_NANOS,
        None => false,
    }
}

/// The shift that the shader last used.
pub fn get_last_fr_rendered_shift(state: &DfrState) -> (r: Option<DFRShiftParams>)
    ensures
        r == (match state@.last_rendered {
            Some(data) => Some(data.shift),
            None => None,
        }),
{
    match state.last_rendered {
        Some(data) => Some(data.shift),
        None => None,
    }
}

/// The sequence number that was current when the shader last took a shift.
pub fn get_last_fr_rendered_sequence_id(state: &DfrState) -> (r: Option<u64>)
    ensures
        r == (match state@.last_rendered {
            Some(data) => Some(data.sequence_id),
            None => None,
        }),
{
    match state.last_rendered {
        Some(data) => Some(data.sequence_id),
        None => None,
    }
}

/// Whether the shader took its last shift within the last second.
pub fn is_last_fr_rendered_shift_recent(state: &DfrState, now: Instant) -> (r: bool)
    ensures
        r == (match state@.last_rendered {
            Some(data) => now@ < data.timestamp@ + RENDERED_SHIFT_WINDOW_NANOS,
            None => false,
        }),
        r <==> (state@.last_rendered matches Some(data) && now@ - data.timestamp@ < 1_000_000_000),
        r == state@.rendered_recently(now),
{
    match state.last_rendered {
        Some(data) => {
            let elapsed: Duration = now.saturating_duration_since(data.timestamp);
            elapsed.nanos < RENDERED_SHIFT_WINDOW_NANOS
        },
        None => false,
    }
}

/// Binds the shift in force to a frame's timestamp, so that the frame is decoded with the shift
/// that it is encoded with. The timestamp zero is not one: the shift is then only handed out.
pub fn get_eye_tracked_ffr_shift_with_timestamp(
    state: &mut DfrState,
    target_timestamp_ns: u64,
    now: Instant,
) -> (r: DFRShiftParams)
    ensures
        r == old(state)@.current_shift(),
        final(state)@ == if target_timestamp_ns == 0 {
            old(state)@.rendered(now)
        } else {
            old(state)@.bound(target_timestamp_ns)
        },
        target_timestamp_ns != 0 ==> final(state)@.timestamp_cache.len() <= TIMESTAMP_CACHE_SIZE,
        final(state)@ == old(state)@.asked(target_timestamp_ns, now),
{
    if target_timestamp_ns == 0 {
        return get_eye_tracked_ffr_shift(state, now);
    }
    let current_shift = match state.global_shift {
        Some(shift) => shift,
        None => DFRShiftParams::default(),
    };
    bind_timestamp(&mut state.timestamp_cache, target_timestamp_ns, current_shift);
    current_shift
}

/// Enters a timestamp and drops what is too old.
fn bind_timestamp(
    cache: &mut BTreeMap<u64, DFRShiftParams>,
    target_timestamp_ns: u64,
    shift: DFRShiftParams,
)
    ensures
        final(cache)@ == newest(
            old(cache)@.insert(target_timestamp_ns, shift),
            TIMESTAMP_CACHE_SIZE as nat,
        ),
        final(cache)@.len() <= TIMESTAMP_CACHE_SIZE,
{
    cache.insert(target_timestamp_ns, shift);
    if cache.len() > TIMESTAMP_CACHE_SIZE {
        evict(cache);
    } else {
        assert(cache@ =~= newest(cache@, TIMESTAMP_CACHE_SIZE as nat)) by {
            assert forall|k: u64| #[trigger] cache@.contains_key(k) implies later(
                cache@,
                k,
            ).len() < TIMESTAMP_CACHE_SIZE by {
                vstd::set_lib::lemma_len_subset(later(cache@, k), cache@.dom().remove(k));
            }
        }
    }
}

/// The shift with which the frame of a timestamp was encoded.
pub fn get_dfr_shift_for_timestamp(state: &DfrState, target_timestamp_ns: u64) -> (r: Option<
    DFRShiftParams,
>)
    ensures
        r == (if state@.timestamp_cache.contains_key(target_timestamp_ns) {
            Some(state@.timestamp_cache[target_timestamp_ns])
        } else {
            None
        }),
        r == state@.shift_for(target_timestamp_ns),
{
    match state.timestamp_cache.get(&target_timestamp_ns) {
        Some(shift) => Some(*shift),
        None => None,
    }
}

/// The number of cached timestamps, the oldest and the newest of them.
pub fn get_timestamp_cache_info(state: &DfrState) -> (r: (usize, Option<u64>, Option<u64>))
    ensures
        r.0 == state@.timestamp_cache.len(),
        match r.1 {
            Some(oldest) => state@.timestamp_cache.contains_key(oldest) && forall|k: u64| #[trigger]
                state@.timestamp_cache.contains_key(k) ==> oldest <= k,
            None => state@.timestamp_cache.is_empty(),
        },
        match r.2 {
            Some(newest) => state@.timestamp_cache.contains_key(newest) && forall|k: u64| #[trigger]
                state@.timestamp_cache.contains_key(k) ==> k <= newest,
            None => state@.timestamp_cache.is_empty(),
        },
{
    let keys = sorted_keys(&state.timestamp_cache);
    if keys.len() == 0 {
        assert(state@.timestamp_cache =~= Map::empty()) by {
            assert forall|k: u64| !state@.timestamp_cache.contains_key(k) by {
                assert(!keys@.contains(k));
            }
        }
        return (0, None, None);
    }
    proof {
        assert(keys@.contains(keys@[0]));
        assert(keys@.contains(keys@.last()));
        assert forall|k: u64| #[trigger] state@.timestamp_cache.contains_key(k) implies keys@[0]
            <= k <= keys@.last() by {
            assert(keys@.contains(k));
            let i = choose|i: int| 0 <= i < keys@.len() && keys@[i] == k;
        }
    }
    (keys.len(), Some(keys[0]), Some(keys[keys.len() - 1]))
}

/// The renderer with which a session starts.
pub fn initialize_dfr() -> (r: DynamicFoveatedRenderer)
    ensures
        r == (DynamicFoveatedRenderer {  }),
{
    DynamicFoveatedRenderer::new()
}

/// Adding a timestamp does not change which timestamps are later than it.
proof fn lemma_later_than_inserted(
    cache: Map<u64, DFRShiftParams>,
    k: u64,
    shift: DFRShiftParams,
)
    ensures
        later(cache.insert(k, shift), k) == later(cache, k),
{
    assert(later(cache.insert(k, shift), k) =~= later(cache, k));
}

/// A frame is decoded with the shift that it was encoded with: what is looked up for a timestamp
/// right after it was bound is the shift that was handed to the encoder, unless a full cache of
/// later timestamps pushes it out at once.
pub proof fn law_decoding_uses_the_encoding_shift(s: DfrStateView, target_timestamp_ns: u64)
    requires
        target_timestamp_ns != 0,
        later(s.timestamp_cache, target_timestamp_ns).len() < TIMESTAMP_CACHE_SIZE,
    ensures
        s.bound(target_timestamp_ns).timestamp_cache.contains_key(target_timestamp_ns),
        s.bound(target_timestamp_ns).timestamp_cache[target_timestamp_ns] == s.current_shift(),
{
    lemma_later_than_inserted(s.timestamp_cache, target_timestamp_ns, s.current_shift());
}

/// Binding another timestamp leaves a bound shift as it is, as long as the cache is not filled with
/// later timestamps.
pub proof fn law_bound_shift_is_kept(s: DfrStateView, kept: u64, other: u64)
    requires
        s.timestamp_cache.contains_key(kept),
        other != kept,
        later(s.timestamp_cache.insert(other, s.current_shift()), kept).len()
            < TIMESTAMP_CACHE_SIZE,
    ensures
        s.bound(other).timestamp_cache.contains_key(kept),
        s.bound(other).timestamp_cache[kept] == s.timestamp_cache[kept],
{
}

/// A cache after several bindings, in their order.
pub open spec fn after_bindings(
    cache: Map<u64, DFRShiftParams>,
    bindings: Seq<(u64, DFRShiftParams)>,
) -> Map<u64, DFRShiftParams>
    decreases bindings.len(),
{
    if bindings.len() == 0 {
        cache
    } else {
        let last = bindings.last();
        newest(
            after_bindings(cache, bindings.drop_last()).insert(last.0, last.1),
            TIMESTAMP_CACHE_SIZE as nat,
        )
    }
}

/// The timestamps among several bindings that are later than `k`.
pub open spec fn later_bindings(bindings: Seq<(u64, DFRShiftParams)>, k: u64) -> Set<u64> {
    bindings.map_values(|b: (u64, DFRShiftParams)| b.0).to_set().filter(|j: u64| j > k)
}

/// The later timestamps of a cache come from the cache before or from the bindings.
proof fn lemma_later_after_bindings(
    cache: Map<u64, DFRShiftParams>,
    bindings: Seq<(u64, DFRShiftParams)>,
    k: u64,
)
    requires
        cache.dom().finite(),
    ensures
        after_bindings(cache, bindings).dom().finite(),
        later(after_bindings(cache, bindings), k).subset_of(
            later(cache, k).union(later_bindings(bindings, k)),
        ),
    decreases bindings.len(),
{
    if bindings.len() > 0 {
        let earlier = bindings.drop_last();
        let keys = bindings.map_values(|b: (u64, DFRShiftParams)| b.0);
        let earlier_keys = earlier.map_values(|b: (u64, DFRShiftParams)| b.0);
        lemma_later_after_bindings(cache, earlier, k);
        assert(keys[keys.len() - 1] == bindings.last().0);
        assert forall|j: u64| #[trigger] earlier_keys.contains(j) implies keys.contains(j) by {
            let i = choose|i: int| 0 <= i < earlier_keys.len() && earlier_keys[i] == j;
            assert(keys[i] == j);
        }
        assert forall|j: u64| #[trigger] later(after_bindings(cache, bindings), k).contains(
            j,
        ) implies later(cache, k).union(later_bindings(bindings, k)).contains(j) by {
            if j != bindings.last().0 {
                assert(later(after_bindings(cache, earlier), k).contains(j));
                if later_bindings(earlier, k).contains(j) {
                    assert(earlier_keys.contains(j));
                }
            } else {
                assert(keys.contains(j));
            }
        }
        vstd::set_lib::lemma_len_subset(
            after_bindings(cache, bindings).dom(),
            after_bindings(cache, earlier).dom().insert(bindings.last().0),
        );
    }
}

/// However many other frames are bound, and whatever the gaze does meanwhile, a frame can be decoded
/// with its own shift as long as fewer timestamps than the cache keeps are later than its own.
pub proof fn law_bound_shift_survives(
    cache: Map<u64, DFRShiftParams>,
    bindings: Seq<(u64, DFRShiftParams)>,
    kept: u64,
)
    requires
        cache.dom().finite(),
        cache.contains_key(kept),
        forall|i: int| 0 <= i < bindings.len() ==> (#[trigger] bindings[i]).0 != kept,
        later(cache, kept).union(later_bindings(bindings, kept)).len() < TIMESTAMP_CACHE_SIZE,
    ensures
        after_bindings(cache, bindings).contains_key(kept),
        after_bindings(cache, bindings)[kept] == cache[kept],
    decreases bindings.len(),
{
    if bindings.len() > 0 {
        let earlier = bindings.drop_last();
        let last = bindings.last();
        let keys = bindings.map_values(|b: (u64, DFRShiftParams)| b.0);
        let earlier_keys = earlier.map_values(|b: (u64, DFRShiftParams)| b.0);
        let all = later(cache, kept).union(later_bindings(bindings, kept));
        let before = later(cache, kept).union(later_bindings(earlier, kept));
        vstd::seq_lib::seq_to_set_is_finite(keys);
        assert forall|j: u64| #[trigger] before.contains(j) implies all.contains(j) by {
            if earlier_keys.contains(j) {
                let i = choose|i: int| 0 <= i < earlier_keys.len() && earlier_keys[i] == j;
                assert(keys[i] == j);
            }
        }
        vstd::set_lib::lemma_len_subset(before, all);
        law_bound_shift_survives(cache, earlier, kept);
        lemma_later_after_bindings(cache, earlier, kept);
        let inserted = after_bindings(cache, earlier).insert(last.0, last.1);
        assert(bindings[bindings.len() - 1].0 != kept);
        assert(keys[keys.len() - 1] == last.0);
        assert forall|j: u64| #[trigger] later(inserted, kept).contains(j) implies all.contains(
            j,
        ) by {
            if j == last.0 {
                assert(keys.contains(j));
            } else {
                assert(later(after_bindings(cache, earlier), kept).contains(j));
                assert(before.contains(j));
            }
        }
        vstd::set_lib::lemma_len_subset(later(inserted, kept), all);
    }
}

/// The cache never invents a shift: what it holds after a binding was there before or is the shift
/// in force.
pub proof fn law_cache_holds_only_bound_shifts(s: DfrStateView, bound: u64, k: u64)
    requires
        s.bound(bound).timestamp_cache.contains_key(k),
    ensures
        s.bound(bound).timestamp_cache[k] == if k == bound {
            s.current_shift()
        } else {
            s.timestamp_cache[k]
        },
        k != bound ==> s.timestamp_cache.contains_key(k),
{
}

/// What is reported as the rendered shift is what the shader got, whatever came in since.
pub proof fn law_rendered_shift_outlives_updates(
    s: DfrStateView,
    rendered_at: Instant,
    shift: DFRShiftParams,
    now: Instant,
)
    ensures
        s.rendered(rendered_at).last_rendered matches Some(data) && data.shift == s.current_shift()
            && data.sequence_id == s.sequence_id,
        s.rendered(rendered_at).updated(shift, now).last_rendered == s.rendered(
            rendered_at,
        ).last_rendered,
{
}

/// Without valid eye input the foveal region goes back to the centre, and the input still counts as
/// updated.
pub proof fn law_fixed_foveation_fallback(
    s: DfrStateView,
    face: FaceData,
    screen_shift: Option<ScreenShift>,
    now: Instant,
)
    ensures
        ({
            let after = s.updated(combined_shift(face, screen_shift), now);
            let valid = (face.pico_eye_tracking_data matches Some(eyes)
                && eye_pose_status_pico::gaze_vector_set(eyes.combined_eye_pose_status))
                && screen_shift is Some;
            &&& !valid ==> after.current_shift() == DFRShiftParams::fixed()
            &&& valid ==> after.current_shift() == (DFRShiftParams {
                shift_x: screen_shift->0.x,
                shift_y: screen_shift->0.y,
                is_eye_tracked: true,
            })
            &&& after.global_last_update == Some(now)
        }),
{
}

/// The sequence number goes up by one with each synchronization, and while it stands still so does
/// the synchronized shift.
pub proof fn law_sequence_counts_synchronizations(
    s: DfrStateView,
    shift: DFRShiftParams,
    now: Instant,
)
    requires
        s.sequence_id < u64::MAX,
    ensures
        ({
            let after = s.updated(shift, now);
            if needs_synchronization(s.synchronized_shift, shift) {
                after.sequence_id == s.sequence_id + 1 && after.synchronized_shift
                    == after.global_shift
            } else {
                after.sequence_id == s.sequence_id && after.synchronized_shift
                    == s.synchronized_shift
            }
        }),
{
}

/// After every update there is a synchronized shift just where the eyes are tracked, and it does not
/// differ noticeably from the gaze.
pub proof fn law_synchronized_shift_follows_the_gaze(
    s: DfrStateView,
    shift: DFRShiftParams,
    now: Instant,
)
    ensures
        s.updated(shift, now).synchronized_shift is Some <==> shift.is_eye_tracked,
        s.updated(shift, now).synchronized_shift matches Some(kept) ==> kept.is_eye_tracked
            && !noticeable(kept, shift),
{
    law_threshold_is_symmetric(shift.shift_x, shift.shift_x);
    law_threshold_is_symmetric(shift.shift_y, shift.shift_y);
}

/// The shifts in force and synchronized are absent or come from tracked eyes, in every state that
/// updates lead to.
pub open spec fn shifts_are_tracked(s: DfrStateView) -> bool {
    &&& s.global_shift matches Some(shift) ==> shift.is_eye_tracked
    &&& s.synchronized_shift matches Some(shift) ==> shift.is_eye_tracked
}

/// Every operation keeps the shifts in force and synchronized absent or tracked.
pub proof fn law_shifts_stay_tracked(
    s: DfrStateView,
    shift: DFRShiftParams,
    now: Instant,
    target_timestamp_ns: u64,
)
    requires
        shifts_are_tracked(s),
    ensures
        shifts_are_tracked(s.updated(shift, now)),
        shifts_are_tracked(s.rendered(now)),
        shifts_are_tracked(s.bound(target_timestamp_ns)),
{
}

/// Where the synchronized shift and the new one both come from tracked eyes and neither coordinate
/// is beyond the threshold, an update leaves the synchronized shift, the time of the last
/// synchronization and the sequence number as they are.
pub proof fn law_small_moves_are_not_synchronized(
    s: DfrStateView,
    current: DFRShiftParams,
    shift: DFRShiftParams,
    now: Instant,
)
    requires
        s.synchronized_shift == Some(current),
        current.is_eye_tracked,
        shift.is_eye_tracked,
        !beyond_threshold(current.shift_x, shift.shift_x),
        !beyond_threshold(current.shift_y, shift.shift_y),
    ensures
        s.updated(shift, now).synchronized_shift == Some(current),
        s.updated(shift, now).synchronized_last_update == s.synchronized_last_update,
        s.updated(shift, now).sequence_id == s.sequence_id,
{
}

/// An update synchronizes the new shift where the eyes are tracked and were not before, where they
/// are tracked no more, and where a tracked gaze went beyond the threshold in x or in y.
pub proof fn law_other_moves_are_synchronized(s: DfrStateView, shift: DFRShiftParams, now: Instant)
    requires
        s.sequence_id < u64::MAX,
        s.synchronized_shift matches Some(current) ==> {
            ||| !current.is_eye_tracked
            ||| !shift.is_eye_tracked
            ||| beyond_threshold(current.shift_x, shift.shift_x)
            ||| beyond_threshold(current.shift_y, shift.shift_y)
        },
    ensures
        ({
            let after = s.updated(shift, now);
            &&& shift.is_eye_tracked ==> after.synchronized_shift == Some(shift)
            &&& !shift.is_eye_tracked ==> after.synchronized_shift is None
            &&& after.synchronized_last_update == Some(now)
            &&& after.sequence_id == s.sequence_id + 1
        }),
{
}

/// Two updates with the same tracked shift synchronize at most once: the second one changes nothing
/// but the time of the last update.
pub proof fn law_the_same_gaze_is_synchronized_once(
    s: DfrStateView,
    shift: DFRShiftParams,
    now: Instant,
    later: Instant,
)
    requires
        shift.is_eye_tracked,
    ensures
        s.updated(shift, now).updated(shift, later) == (DfrStateView {
            global_last_update: Some(later),
            ..s.updated(shift, now)
        }),
{
    law_threshold_is_symmetric(shift.shift_x, shift.shift_x);
    law_threshold_is_symmetric(shift.shift_y, shift.shift_y);
}

/// An update puts a tracked shift in force, and none for eyes that are not tracked. It notes its
/// time, and leaves what was rendered and what is bound to timestamps alone.
pub proof fn law_update_sets_the_shift_in_force(s: DfrStateView, shift: DFRShiftParams, now: Instant)
    ensures
        shift.is_eye_tracked ==> s.updated(shift, now).global_shift == Some(shift),
        !shift.is_eye_tracked ==> s.updated(shift, now).global_shift is None,
        s.updated(shift, now).global_last_update == Some(now),
        s.updated(shift, now).last_rendered == s.last_rendered,
        s.updated(shift, now).timestamp_cache == s.timestamp_cache,
{
}

/// The shift of a face is tracked just where the face has eye data, the combined gaze vector is
/// flagged valid by digit 1 or 8 of its status, and the gaze maps to the screen; it is then the
/// gaze's own, and zero in both coordinates otherwise.
pub proof fn law_shift_of_a_face(face: FaceData, screen_shift: Option<ScreenShift>)
    ensures
        ({
            let shift = combined_shift(face, screen_shift);
            let status = match face.pico_eye_tracking_data {
                Some(eyes) => eyes.combined_eye_pose_status,
                None => 0,
            };
            &&& shift.is_eye_tracked <==> face.pico_eye_tracking_data is Some && ((status / 2) % 2
                == 1 || (status / 0x100) % 2 == 1) && screen_shift is Some
            &&& shift.is_eye_tracked ==> shift.shift_x == screen_shift->0.x && shift.shift_y
                == screen_shift->0.y
            &&& !shift.is_eye_tracked ==> shift.shift_x.bits == 0 && shift.shift_y.bits == 0
        }),
{
    if let Some(eyes) = face.pico_eye_tracking_data {
        eye_pose_status_pico::law_valid_parts(eyes.combined_eye_pose_status);
    }
}

/// What the shader gets is the shift in force, or zero where there is none, and it is remembered with
/// the sequence number and the time. Nothing else changes.
pub proof fn law_rendering_is_remembered(s: DfrStateView, now: Instant)
    ensures
        s.global_shift matches Some(shift) ==> s.current_shift() == shift,
        s.global_shift is None ==> s.current_shift().shift_x.bits == 0
            && s.current_shift().shift_y.bits == 0 && !s.current_shift().is_eye_tracked,
        s.rendered(now).last_rendered matches Some(data) && data.shift == s.current_shift()
            && data.sequence_id == s.sequence_id && data.timestamp == now,
        s.rendered(now) == (DfrStateView { last_rendered: s.rendered(now).last_rendered, ..s }),
{
}

/// A finite set of timestamps that is not empty has a first one.
proof fn lemma_first(keys: Set<u64>) -> (first: u64)
    requires
        keys.finite(),
        keys.len() > 0,
    ensures
        keys.contains(first),
        forall|k: u64| #[trigger] keys.contains(k) ==> first <= k,
    decreases keys.len(),
{
    let a = keys.choose();
    let rest = keys.remove(a);
    if rest.len() == 0 {
        assert forall|k: u64| #[trigger] keys.contains(k) implies a <= k by {
            if k != a {
                assert(rest.contains(k));
                assert(rest.remove(k).len() == rest.len() - 1);
            }
        }
        a
    } else {
        let b = lemma_first(rest);
        assert forall|k: u64| #[trigger] keys.contains(k) implies (if a < b {
            a
        } else {
            b
        }) <= k by {
            if k != a {
                assert(rest.contains(k));
            }
        }
        if a < b {
            a
        } else {
            b
        }
    }
}

/// The newest `n` entries are as many as there are, but at most `n`.
proof fn lemma_newest_len(cache: Map<u64, DFRShiftParams>, n: nat)
    requires
        cache.dom().finite(),
    ensures
        newest(cache, n).dom().finite(),
        newest(cache, n).len() == if cache.len() < n {
            cache.len()
        } else {
            n
        },
        cache.len() <= n ==> newest(cache, n) == cache,
    decreases cache.len(),
{
    if cache.len() <= n {
        assert forall|k: u64| #[trigger] cache.contains_key(k) implies later(cache, k).len()
            < n by {
            vstd::set_lib::lemma_len_subset(later(cache, k), cache.dom().remove(k));
        }
        assert(newest(cache, n) =~= cache);
    } else {
        let first = lemma_first(cache.dom());
        let rest = cache.remove(first);
        assert(later(cache, first) =~= cache.dom().remove(first));
        lemma_newest_len(rest, n);
        assert forall|k: u64| #[trigger] rest.contains_key(k) implies later(cache, k) == later(
            rest,
            k,
        ) by {
            assert(later(cache, k) =~= later(rest, k));
        }
        assert(newest(cache, n) =~= newest(rest, n));
    }
}

/// Binding a timestamp enters the shift in force for it and drops entries only where there would be
/// more than a hundred, so that a hundred are left: the earliest ones go, whatever is kept is later
/// than whatever is dropped, and what is kept stays as it is. Nothing but the cache changes.
pub proof fn law_cache_keeps_the_newest(s: DfrStateView, bound: u64)
    requires
        s.timestamp_cache.dom().finite(),
    ensures
        ({
            let entered = s.timestamp_cache.insert(bound, s.current_shift());
            let after = s.bound(bound).timestamp_cache;
            &&& after.len() == if entered.len() <= 100 {
                entered.len()
            } else {
                100
            }
            &&& forall|k: u64| #[trigger]
                after.contains_key(k) ==> entered.contains_key(k) && after[k] == entered[k]
            &&& forall|kept: u64, dropped: u64|
                #![trigger after.contains_key(kept), after.contains_key(dropped)]
                after.contains_key(kept) && entered.contains_key(dropped) && !after.contains_key(
                    dropped,
                ) ==> dropped < kept
            &&& entered.len() <= 100 ==> after == entered
            &&& s.bound(bound) == (DfrStateView { timestamp_cache: after, ..s })
        }),
{
    let entered = s.timestamp_cache.insert(bound, s.current_shift());
    let after = s.bound(bound).timestamp_cache;
    lemma_newest_len(entered, 100);
    assert forall|kept: u64, dropped: u64|
        #![trigger after.contains_key(kept), after.contains_key(dropped)]
        after.contains_key(kept) && entered.contains_key(dropped) && !after.contains_key(
            dropped,
        ) implies dropped < kept by {
        if dropped >= kept {
            vstd::set_lib::lemma_len_subset(later(entered, dropped), later(entered, kept));
        }
    }
}

/// Eye input counts as active from an update on, for 200 milliseconds and not longer, whether the eyes
/// were tracked or not. Handing shifts out does not make it active, and before the first update it is
/// not.
pub proof fn law_input_is_active_after_an_update(
    s: DfrStateView,
    shift: DFRShiftParams,
    update: Instant,
    asked: Instant,
    target_timestamp_ns: u64,
    now: Instant,
)
    ensures
        s.updated(shift, update).input_active(now) <==> update@ <= now@ && now@ - update@
            < 200_000_000,
        s.asked(target_timestamp_ns, asked).input_active(now) == s.input_active(now),
        !DfrStateView::initial().input_active(now),
{
}

/// A shift counts as recently rendered for a second after the shader took it, whatever came in since.
/// Binding a timestamp is no rendering, and the timestamp zero is none.
pub proof fn law_rendered_shift_is_recent_for_a_second(
    s: DfrStateView,
    rendered: Instant,
    shift: DFRShiftParams,
    update: Instant,
    target_timestamp_ns: u64,
    now: Instant,
)
    ensures
        s.rendered(rendered).rendered_recently(now) <==> now@ - rendered@ < 1_000_000_000,
        s.updated(shift, update).rendered_recently(now) == s.rendered_recently(now),
        target_timestamp_ns != 0 ==> s.asked(target_timestamp_ns, rendered).last_rendered
            == s.last_rendered,
        s.asked(0, rendered) == s.rendered(rendered),
        !DfrStateView::initial().rendered_recently(now),
{
}

/// A frame that was asked for with a timestamp is looked up under it with the shift that was handed
/// out, as long as fewer than a hundred cached timestamps are later; an unbound timestamp has none.
pub proof fn law_asked_shift_is_looked_up(
    s: DfrStateView,
    target_timestamp_ns: u64,
    now: Instant,
    other: u64,
)
    requires
        target_timestamp_ns != 0,
        s.timestamp_cache.dom().finite(),
        s.timestamp_cache.dom().filter(|k: u64| k > target_timestamp_ns).len() < 100,
    ensures
        s.asked(target_timestamp_ns, now).shift_for(target_timestamp_ns) == Some(s.current_shift()),
        other != target_timestamp_ns && s.shift_for(other) is None ==> s.asked(
            target_timestamp_ns,
            now,
        ).shift_for(other) is None,
        DfrStateView::initial().shift_for(other) is None,
{
    assert(later(s.timestamp_cache, target_timestamp_ns) =~= s.timestamp_cache.dom().filter(
        |k: u64| k > target_timestamp_ns,
    ));
    law_decoding_uses_the_encoding_shift(s, target_timestamp_ns);
}

/// At first there is no shift of any sort, and nothing was synchronized.
pub proof fn law_nothing_is_known_at_first()
    ensures
        ({
            let s = DfrStateView::initial();
            &&& s.global_shift is None
            &&& s.global_last_update is None
            &&& s.synchronized_shift is None
            &&& s.synchronized_last_update is None
            &&& s.sequence_id == 0
            &&& s.last_rendered is None
            &&& s.timestamp_cache.len() == 0
            &&& shifts_are_tracked(s)
        }),
{
}

} // verus!
