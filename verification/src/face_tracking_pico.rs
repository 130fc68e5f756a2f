//! What the headset's face and eye tracker delivers.

use crate::float::Float32;
use vstd::prelude::*;

verus! {

/// The tracking mode bit of the face.
pub const TRACKING_MODE_FACE_BIT: u64 = 0x8;

/// The tracking mode bit of the eyes.
pub const TRACKING_MODE_EYE_BIT: u64 = 0x4;

/// How many of the delivered weights are face expressions.
pub const PICO_FACE_EXPRESSION_COUNT: usize = 52;

/// After how many calls with a time that stands still the fact is worth a warning.
pub const STALL_WARNING_CALLS: u32 = 60;

/// A change to what is tracked.
#[derive(Clone, Copy, PartialEq, Eq, Structural, Debug)]
pub enum TrackingChange {
    /// The face, and the eyes with it.
    StartFace,
    StartEyes,
    StopFace,
}

/// The tracking mode with which a change is made.
pub fn tracking_mode(change: TrackingChange) -> (r: u64)
    ensures
        r == (match change {
            TrackingChange::StartFace => TRACKING_MODE_FACE_BIT + TRACKING_MODE_EYE_BIT,
            TrackingChange::StartEyes => TRACKING_MODE_EYE_BIT as int,
            TrackingChange::StopFace => TRACKING_MODE_FACE_BIT as int,
        }),
        change == TrackingChange::StartFace ==> r == 12,
        change == TrackingChange::StartEyes ==> r == 4,
        change == TrackingChange::StopFace ==> r == 8,
{
    match change {
        TrackingChange::StartFace => {
            assert(0x8u64 | 0x4u64 == 0xc) by (bit_vector);
            TRACKING_MODE_FACE_BIT | TRACKING_MODE_EYE_BIT
        },
        TrackingChange::StartEyes => TRACKING_MODE_EYE_BIT,
        TrackingChange::StopFace => TRACKING_MODE_FACE_BIT,
    }
}

/// The expressions among the delivered weights. A sample with the time zero is none.
pub fn face_expressions(time: u64, blend_shape_weight: &[Float32; 72]) -> (r: Option<Vec<Float32>>)
    ensures
        r is Some <==> time != 0,
        r matches Some(weights) ==> weights@ == blend_shape_weight@.take(
            PICO_FACE_EXPRESSION_COUNT as int,
        ),
        r matches Some(weights) ==> weights@.len() == 52 && forall|i: int|
            0 <= i < 52 ==> #[trigger] weights@[i] == blend_shape_weight@[i],
{
    if time == 0 {
        return None;
    }
    let mut weights: Vec<Float32> = Vec::new();
    let mut i: usize = 0;
    while i < PICO_FACE_EXPRESSION_COUNT
        invariant
            i <= PICO_FACE_EXPRESSION_COUNT,
            weights@ == blend_shape_weight@.take(i as int),
        decreases PICO_FACE_EXPRESSION_COUNT - i,
    {
        weights.push(blend_shape_weight[i]);
        i += 1;
        assert(weights@ =~= blend_shape_weight@.take(i as int));
    }
    Some(weights)
}

/// What is notable about an eye sample's time.
#[derive(Clone, Copy, PartialEq, Eq, Structural, Debug)]
pub enum SampleNote {
    /// The time is zero: there is no sample.
    ZeroTime,
    /// The time changed from that of the last sample.
    Changed { from: u64 },
    /// The time stands still, and this is worth a warning now.
    Stalled,
    /// The time stands still.
    Nothing,
}

/// Watches the times of eye samples.
#[derive(Clone, Copy, PartialEq, Eq, Structural, Debug)]
pub struct SampleMonitor {
    pub last_time: u64,
    pub call_count: u32,
}

impl SampleMonitor {
    /// No sample was seen yet.
    pub fn new() -> (r: SampleMonitor)
        ensures
            r.last_time == 0,
            r.call_count == 0,
    {
        SampleMonitor { last_time: 0, call_count: 0 }
    }

    /// What is notable about a sample's time, and what is remembered of it.
    pub open spec fn observed(self, time: u64) -> (SampleNote, SampleMonitor) {
        let count = (self.call_count + 1) % 0x1_0000_0000;
        if time == 0 {
            (SampleNote::ZeroTime, self)
        } else {
            (
                if time != self.last_time {
                    SampleNote::Changed { from: self.last_time }
                } else if count % STALL_WARNING_CALLS as int == 0 {
                    SampleNote::Stalled
                } else {
                    SampleNote::Nothing
                },
                SampleMonitor { last_time: time, call_count: count as u32 },
            )
        }
    }

    /// Notes the time of a sample. The count of samples wraps around.
    pub fn observe(&mut self, time: u64) -> (r: SampleNote)
        ensures
            time == 0 ==> r == SampleNote::ZeroTime && *final(self) == *old(self),
            time != 0 ==> {
                &&& final(self).last_time == time
                &&& final(self).call_count == (old(self).call_count + 1) % 0x1_0000_0000
                &&& r == (if time != old(self).last_time {
                    SampleNote::Changed { from: old(self).last_time }
                } else if final(self).call_count % STALL_WARNING_CALLS == 0 {
                    SampleNote::Stalled
                } else {
                    SampleNote::Nothing
                })
                &&& r == SampleNote::Stalled <==> time == old(self).last_time && final(
                self).call_count % 60 == 0
            },
            (r, *final(self)) == old(self).observed(time),
    {
        if time == 0 {
            return SampleNote::ZeroTime;
        }
        self.call_count = self.call_count.wrapping_add(1);
        let note = if time != self.last_time {
            SampleNote::Changed { from: self.last_time }
        } else if self.call_count % STALL_WARNING_CALLS == 0 {
            SampleNote::Stalled
        } else {
            SampleNote::Nothing
        };
        self.last_time = time;
        note
    }
}

/// A sample without a time is none and leaves nothing behind. Any other is counted and its time
/// remembered: the same time again is no change and worth a warning at every sixtieth sample, and
/// another time is a change from the remembered one.
pub proof fn law_samples_are_watched(monitor: SampleMonitor, time: u64, next: u64)
    ensures
        monitor.observed(0) == (SampleNote::ZeroTime, monitor),
        time != 0 ==> monitor.observed(time).1.last_time == time,
        time != 0 && monitor.call_count < u32::MAX ==> monitor.observed(time).1.call_count
            == monitor.call_count + 1,
        time != 0 && monitor.call_count == u32::MAX ==> monitor.observed(time).1.call_count == 0,
        time != 0 && next != 0 && next != time ==> monitor.observed(time).1.observed(next).0 == (
        SampleNote::Changed { from: time }),
        time != 0 ==> monitor.observed(time).1.observed(time).0 == if monitor.observed(
            time,
        ).1.observed(time).1.call_count % 60 == 0 {
            SampleNote::Stalled
        } else {
            SampleNote::Nothing
        },
{
}

} // verus!
