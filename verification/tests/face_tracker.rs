use alvr_dfr::face_tracking_pico::{
    face_expressions, tracking_mode, SampleMonitor, SampleNote, TrackingChange,
};
use alvr_dfr::float::Float32;

#[test]
fn tracking_modes_are_bits() {
    assert_eq!(tracking_mode(TrackingChange::StartFace), 12);
    assert_eq!(tracking_mode(TrackingChange::StartEyes), 4);
    assert_eq!(tracking_mode(TrackingChange::StopFace), 8);
}

#[test]
fn the_first_weights_are_expressions() {
    let mut weights = [Float32 { bits: 0 }; 72];
    for (i, w) in weights.iter_mut().enumerate() {
        w.bits = i as u32;
    }
    assert!(face_expressions(0, &weights).is_none());
    let r = face_expressions(1, &weights).unwrap();
    assert_eq!(r.len(), 52);
    assert_eq!(r[51].bits, 51);
}

#[test]
fn a_time_that_stands_still_is_told_now_and_then() {
    let mut m = SampleMonitor::new();
    assert_eq!(m.observe(0), SampleNote::ZeroTime);
    assert_eq!(m.call_count, 0);
    assert_eq!(m.observe(9), SampleNote::Changed { from: 0 });
    for _ in 2..60 {
        assert_eq!(m.observe(9), SampleNote::Nothing);
    }
    assert_eq!(m.observe(9), SampleNote::Stalled);
    assert_eq!(m.observe(10), SampleNote::Changed { from: 9 });
    let mut late = SampleMonitor { last_time: 3, call_count: u32::MAX };
    assert_eq!(late.observe(3), SampleNote::Stalled);
    assert_eq!(late.call_count, 0);
}
