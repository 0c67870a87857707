use relay_core::meter::FrameEvent;
use relay_core::meter::Meter;
use relay_core::meter::meter_frames;

#[test]
fn frame_sizes_sum_exactly() {
    let frames = vec![
        FrameEvent::Payload { len: 100 },
        FrameEvent::Payload { len: 250 },
        FrameEvent::Payload { len: 0 },
        FrameEvent::Payload { len: 75 },
    ];
    assert_eq!(meter_frames(&frames), 425);
}

#[test]
fn empty_body_totals_zero() {
    let frames: Vec<FrameEvent> = vec![];
    assert_eq!(meter_frames(&frames), 0);
}

#[test]
fn frames_without_payload_contribute_zero() {
    let frames = vec![
        FrameEvent::Payload { len: 100 },
        FrameEvent::Empty,
        FrameEvent::Payload { len: 50 },
        FrameEvent::Empty,
    ];
    assert_eq!(meter_frames(&frames), 150);
}

#[test]
fn partial_failure_keeps_partial_total() {
    let frames = vec![
        FrameEvent::Payload { len: 100 },
        FrameEvent::Payload { len: 200 },
        FrameEvent::Fault,
    ];
    assert_eq!(meter_frames(&frames), 300);
}

#[test]
fn frames_after_a_fault_are_never_counted() {
    let frames = vec![
        FrameEvent::Payload { len: 100 },
        FrameEvent::Payload { len: 200 },
        FrameEvent::Fault,
        FrameEvent::Payload { len: 999 },
        FrameEvent::Payload { len: 1 },
    ];
    assert_eq!(meter_frames(&frames), 300);
}

#[test]
fn stepwise_meter_matches_batch_accounting() {
    let mut m = Meter::new();
    assert!(m.feed(FrameEvent::Payload { len: 100 }));
    assert!(m.feed(FrameEvent::Payload { len: 250 }));
    assert!(m.feed(FrameEvent::Payload { len: 0 }));
    assert!(m.feed(FrameEvent::Payload { len: 75 }));
    assert_eq!(m.total(), 425);
}

#[test]
fn stepwise_meter_stops_at_fault_and_ignores_later_frames() {
    let mut m = Meter::new();
    assert!(m.feed(FrameEvent::Payload { len: 100 }));
    assert!(m.feed(FrameEvent::Payload { len: 200 }));
    assert!(!m.feed(FrameEvent::Fault));
    assert_eq!(m.total(), 300);
    assert!(!m.feed(FrameEvent::Payload { len: 999 }));
    assert_eq!(m.total(), 300);
}

#[test]
fn totals_clip_at_the_counter_maximum() {
    let mut m = Meter::new();
    assert!(m.feed(FrameEvent::Payload { len: usize::MAX }));
    assert!(m.feed(FrameEvent::Payload { len: usize::MAX }));
    assert!(m.feed(FrameEvent::Payload { len: usize::MAX }));
    assert_eq!(m.total(), u64::MAX);
}
