use page_recording::capture::{CaptureEvent, CaptureLoop, CapturePhase};
use page_recording::time::TimePoint;

fn at_ms(ms: u64) -> TimePoint {
    TimePoint { nanos: u128::from(ms) * 1_000_000 }
}

fn shot(text: &str) -> CaptureEvent {
    CaptureEvent::Screenshot(Ok(text.to_string()))
}

#[test]
fn an_ungated_loop_writes_the_frames_that_are_due() {
    let mut capture = CaptureLoop::new(30, false);
    assert_eq!(capture.phase, CapturePhase::AwaitTick);
    assert!(capture.command("s").is_none());
    capture.step(CaptureEvent::Tick);
    let command = capture.command("s").unwrap();
    assert_eq!(command.method, "Page.captureScreenshot");
    let params = command.params.unwrap();
    assert_eq!(params.get("quality").and_then(|v| v.as_u64()), Some(80));
    assert_eq!(params.get("format").and_then(|v| v.as_str()), Some("jpeg"));
    assert_eq!(params.get("fromSurface").and_then(|v| v.as_bool()), Some(true));
    capture.step(shot("aGk="));
    assert_eq!(capture.phase, CapturePhase::ReadClock);
    assert_eq!(capture.frame, b"hi".to_vec());
    capture.step(CaptureEvent::Clock(at_ms(100)));
    assert_eq!(capture.remaining, 1);
    capture.step(CaptureEvent::Written(true));
    assert_eq!(capture.phase, CapturePhase::AwaitTick);

    capture.step(CaptureEvent::Tick);
    capture.step(shot("aGk="));
    capture.step(CaptureEvent::Clock(at_ms(600)));
    assert_eq!(capture.remaining, 15);
    for _ in 0..15 {
        assert_eq!(capture.phase, CapturePhase::WriteFrame);
        capture.step(CaptureEvent::Written(true));
    }
    assert_eq!(capture.phase, CapturePhase::AwaitTick);
    assert_eq!(capture.total_frames, 16);
    assert_eq!(capture.segment_frames, 16);
}

#[test]
fn a_paused_gate_ends_the_segment() {
    let mut capture = CaptureLoop::new(30, true);
    assert_eq!(capture.phase, CapturePhase::AskGate);
    capture.step(CaptureEvent::Gate(false));
    assert_eq!(capture.phase, CapturePhase::AwaitGate);
    capture.step(CaptureEvent::GateOpened);
    assert_eq!(capture.phase, CapturePhase::ResetTimer);
    capture.step(CaptureEvent::TimerReset);
    capture.step(CaptureEvent::Tick);
    assert_eq!(capture.phase, CapturePhase::AskGateAgain);
    capture.step(CaptureEvent::Gate(true));
    capture.step(shot(""));
    capture.step(CaptureEvent::Clock(at_ms(5_000)));
    capture.step(CaptureEvent::Written(true));
    assert_eq!((capture.segment_frames, capture.total_frames), (1, 1));
    capture.step(CaptureEvent::Gate(true));
    capture.step(CaptureEvent::Tick);
    capture.step(CaptureEvent::Gate(false));
    assert_eq!(capture.phase, CapturePhase::AskGate);
    assert_eq!((capture.segment_frames, capture.total_frames), (0, 1));
    assert_eq!(capture.started_at, None);
    capture.step(CaptureEvent::Gate(true));
    capture.step(CaptureEvent::Tick);
    capture.step(CaptureEvent::Gate(true));
    capture.step(shot(""));
    // A minute of pause is not made up for.
    capture.step(CaptureEvent::Clock(at_ms(65_000)));
    assert_eq!(capture.remaining, 1);
}

#[test]
fn screenshots_that_fail_are_skipped_until_the_page_is_gone() {
    let mut capture = CaptureLoop::new(10, false);
    for message in ["CDP command timed out", "busy"] {
        capture.step(CaptureEvent::Tick);
        capture.step(CaptureEvent::Screenshot(Err(message.to_string())));
        assert_eq!(capture.phase, CapturePhase::AwaitTick);
    }
    capture.step(CaptureEvent::Tick);
    capture.step(shot("not base64!"));
    assert_eq!(capture.phase, CapturePhase::AwaitTick);
    capture.step(CaptureEvent::Tick);
    capture.step(shot("aGk"));
    assert_eq!(capture.phase, CapturePhase::AwaitTick);
    for message in ["Target closed", "Session with given id not found."] {
        let mut capture = CaptureLoop::new(10, false);
        capture.step(CaptureEvent::Tick);
        capture.step(CaptureEvent::Screenshot(Err(message.to_string())));
        assert_eq!(capture.phase, CapturePhase::Finished);
    }
}

#[test]
fn a_cancel_or_a_failed_write_ends_the_loop() {
    let mut capture = CaptureLoop::new(10, false);
    capture.step(CaptureEvent::Cancelled);
    assert_eq!(capture.phase, CapturePhase::Finished);
    capture.step(CaptureEvent::Tick);
    assert_eq!(capture.phase, CapturePhase::Finished);

    let mut waiting = CaptureLoop::new(10, true);
    waiting.step(CaptureEvent::Gate(false));
    waiting.step(CaptureEvent::Cancelled);
    assert_eq!(waiting.phase, CapturePhase::Finished);

    let mut failing = CaptureLoop::new(10, false);
    failing.step(CaptureEvent::Tick);
    failing.step(shot("aGk="));
    failing.step(CaptureEvent::Clock(at_ms(1)));
    failing.step(CaptureEvent::Written(false));
    assert_eq!(failing.phase, CapturePhase::Finished);
    assert_eq!(failing.total_frames, 0);
}

#[test]
fn events_out_of_range_are_told_apart() {
    let mut capture = CaptureLoop::new(10, false);
    capture.step(CaptureEvent::Tick);
    capture.step(shot("aGk="));
    capture.step(CaptureEvent::Clock(at_ms(0)));
    capture.step(CaptureEvent::Written(true));
    capture.step(CaptureEvent::Tick);
    capture.step(shot("aGk="));
    assert!(capture.accepts(&CaptureEvent::Clock(at_ms(1))));
    assert!(!capture.accepts(&CaptureEvent::Clock(TimePoint { nanos: u128::MAX })));
    assert!(capture.accepts(&CaptureEvent::Tick));
}
