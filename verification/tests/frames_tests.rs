use camera_app::frames::{PhotoLatch, RecordingClock};

#[test]
fn clock_starts_at_zero() {
    assert_eq!(RecordingClock::new().seconds(), 0);
}

#[test]
fn frames_without_recorder() {
    let mut clock = RecordingClock::new();
    let step = clock.on_frame(true, false, 5);
    assert!(step.save_photo);
    assert!(!step.forward_to_recorder);
    assert!(step.restart_timer);
    assert!(step.time_label.is_none());
    assert_eq!(clock.seconds(), 0);
}

#[test]
fn recording_counts_seconds() {
    let mut clock = RecordingClock::new();
    clock.on_frame(false, false, 0);
    let quick = clock.on_frame(false, true, 0);
    assert!(quick.forward_to_recorder);
    assert!(!quick.restart_timer);
    assert!(quick.time_label.is_none());
    assert!(!quick.save_photo);
    let first = clock.on_frame(false, true, 1);
    assert!(first.restart_timer);
    assert_eq!(first.time_label.as_deref(), Some("00:01"));
    for _ in 0..58 {
        clock.on_frame(false, true, 2);
    }
    assert_eq!(clock.seconds(), 59);
    let minute = clock.on_frame(true, true, 1);
    assert!(minute.save_photo);
    assert_eq!(minute.time_label.as_deref(), Some("01:00"));
}

#[test]
fn new_recording_counts_from_zero() {
    let mut clock = RecordingClock::new();
    for _ in 0..10 {
        clock.on_frame(false, true, 1);
    }
    assert_eq!(clock.seconds(), 10);
    let idle = clock.on_frame(false, false, 0);
    assert!(idle.restart_timer);
    assert_eq!(clock.seconds(), 0);
    let next = clock.on_frame(false, true, 3);
    assert_eq!(next.time_label.as_deref(), Some("00:01"));
}

#[test]
fn quick_frames_between_advances() {
    let mut clock = RecordingClock::new();
    clock.on_frame(false, false, 0);
    let mut shown = Vec::new();
    for elapsed in [0u64, 1, 0, 0, 2, 0, 1, 0] {
        if let Some(label) = clock.on_frame(false, true, elapsed).time_label {
            shown.push(label);
        }
    }
    assert_eq!(shown, vec!["00:01", "00:02", "00:03"]);
    assert_eq!(clock.seconds(), 3);
}

#[test]
fn long_recording_labels() {
    let mut clock = RecordingClock::new();
    let mut last = None;
    for _ in 0..605 {
        last = clock.on_frame(false, true, 1).time_label;
        if clock.seconds() == 75 {
            assert_eq!(last.as_deref(), Some("01:15"));
        }
    }
    assert_eq!(last.as_deref(), Some("10:05"));
}

#[test]
fn photo_requests_act_as_one() {
    let mut latch = PhotoLatch::new();
    assert!(!latch.take());
    latch.request();
    latch.request();
    latch.request();
    assert!(latch.take());
    assert!(!latch.take());
    assert!(!latch.take());
    latch.request();
    assert!(latch.take());
}
