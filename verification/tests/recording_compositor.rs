use std::sync::Arc;

use page_recording::capture::{CaptureEvent, CapturePhase};
use page_recording::cdp::{CdpCommand, ExceptionDetails};
use page_recording::json::{JsonNumber, JsonValue};
use page_recording::recording_compositor::{
    close_command, compositor_encoder_outcome, compositor_outcome, viewport_command,
    viewport_for_session, CompositorCreation, CompositorEvent, CompositorLoop, CompositorPage,
    CreateStage, EndStep, RecordingCompositor, SourceStage, Viewport, COMPOSITOR_HTML,
    COMPOSITOR_RUNTIME_JS, SOURCE_BUDGET_MS, VIEWPORT_EXPRESSION,
};
use page_recording::time::TimePoint;

fn at_ms(ms: u64) -> TimePoint {
    TimePoint { nanos: u128::from(ms) * 1_000_000 }
}

fn param<'a>(command: &'a CdpCommand, key: &str) -> Option<&'a JsonValue> {
    command.params.as_ref().and_then(|p| p.get(key))
}

fn text_param<'a>(command: &'a CdpCommand, key: &str) -> Option<&'a str> {
    param(command, key).and_then(|v| v.as_str())
}

fn page(width: i32, height: i32) -> CompositorPage {
    CompositorPage {
        url: "about:blank#compositor".to_string(),
        browser_context_id: Some("ctx".to_string()),
        width,
        height,
        device_scale_factor: Some("1.5".to_string()),
        mobile: false,
    }
}

#[test]
fn a_compositor_is_made_step_by_step() {
    let page = page(0, 720);
    let mut creation = CompositorCreation::new();
    let command = creation.command(&page).unwrap();
    assert_eq!(command.method, "Target.createTarget");
    assert_eq!(text_param(&command, "url"), Some("about:blank#compositor"));
    assert_eq!(text_param(&command, "browserContextId"), Some("ctx"));
    assert_eq!(command.session_id, None);
    creation.advance(Ok("t1".to_string()));

    let command = creation.command(&page).unwrap();
    assert_eq!(command.method, "Target.attachToTarget");
    assert_eq!(text_param(&command, "targetId"), Some("t1"));
    assert_eq!(param(&command, "flatten").and_then(|v| v.as_bool()), Some(true));
    creation.advance(Ok("s1".to_string()));

    for method in ["Page.enable", "Runtime.enable", "Runtime.runIfWaitingForDebugger"] {
        let command = creation.command(&page).unwrap();
        assert_eq!(command.method, method);
        assert_eq!(command.session_id.as_deref(), Some("s1"));
        assert!(command.params.is_none());
        if method == "Runtime.runIfWaitingForDebugger" {
            creation.advance(Err("not waiting".to_string()));
        } else {
            creation.advance(Ok(String::new()));
        }
    }

    let command = creation.command(&page).unwrap();
    assert_eq!(command.method, "Emulation.setDeviceMetricsOverride");
    assert_eq!(param(&command, "width").and_then(|v| v.as_u64()), Some(1));
    assert_eq!(param(&command, "height").and_then(|v| v.as_u64()), Some(720));
    assert_eq!(param(&command, "mobile").and_then(|v| v.as_bool()), Some(false));
    assert!(matches!(
        param(&command, "deviceScaleFactor"),
        Some(JsonValue::Number(JsonNumber::Decimal(scale))) if scale == "1.5"
    ));
    creation.advance(Ok(String::new()));

    let command = creation.command(&page).unwrap();
    let script = text_param(&command, "expression").unwrap();
    let literal = script
        .strip_prefix("document.open(); document.write(")
        .unwrap()
        .strip_suffix("); document.close();")
        .unwrap();
    let written: String = serde_json::from_str(literal).unwrap();
    assert_eq!(written, COMPOSITOR_HTML);
    creation.advance(Ok(String::new()));

    let command = creation.command(&page).unwrap();
    assert_eq!(text_param(&command, "expression"), Some(COMPOSITOR_RUNTIME_JS));
    creation.advance(Ok(String::new()));

    let command = creation.command(&page).unwrap();
    assert_eq!(command.method, "Target.activateTarget");
    assert_eq!(text_param(&command, "targetId"), Some("t1"));
    creation.advance(Err("hidden".to_string()));

    assert_eq!(creation.stage, CreateStage::Ready);
    assert!(creation.command(&page).is_none());
    let compositor = creation.finish(Arc::new(5)).unwrap().unwrap();
    assert_eq!(compositor.target_id, "t1");
    assert_eq!(compositor.session_id, "s1");
    assert_eq!(*compositor.client, 5);
    let copy = compositor.clone();
    assert!(Arc::ptr_eq(&copy.client, &compositor.client));
    assert_eq!((copy.target_id, copy.session_id), ("t1".to_string(), "s1".to_string()));
}

#[test]
fn an_error_ends_the_making() {
    let mut creation = CompositorCreation::new();
    creation.advance(Ok("t1".to_string()));
    creation.advance(Err("no session".to_string()));
    assert_eq!(creation.stage, CreateStage::Failed);
    creation.advance(Ok("late".to_string()));
    assert!(creation.command(&page(1, 1)).is_none());
    assert!(matches!(creation.finish(Arc::new(())), Some(Err(e)) if e == "no session"));
    assert!(CompositorCreation::new().finish(Arc::new(())).is_none());
}

#[test]
fn scales_without_a_decimal_are_null() {
    let mut creation = CompositorCreation::new();
    creation.stage = CreateStage::SetMetrics;
    let page = CompositorPage { device_scale_factor: None, ..page(1, 1) };
    let command = creation.command(&page).unwrap();
    assert!(matches!(param(&command, "deviceScaleFactor"), Some(JsonValue::Null)));
}

fn compositor() -> RecordingCompositor<()> {
    RecordingCompositor {
        client: Arc::new(()),
        target_id: "t1".to_string(),
        session_id: "s1".to_string(),
    }
}

fn tick(state: &mut CompositorLoop) {
    state.step(CompositorEvent::Capture(CaptureEvent::Tick));
}

#[test]
fn a_round_shows_the_source_and_captures_the_compositor() {
    let page = compositor();
    let mut state = CompositorLoop::new(30, false, at_ms(2_000));
    assert_eq!(state.last_source_refresh, at_ms(1_000));
    tick(&mut state);
    assert_eq!(state.stage, SourceStage::CheckRefresh);
    assert!(state.command("source", &page).is_none());
    state.step(CompositorEvent::Clock(at_ms(2_001)));
    assert_eq!(state.last_source_refresh, at_ms(2_001));
    let command = state.command("source", &page).unwrap();
    assert_eq!(command.method, "Page.captureScreenshot");
    assert_eq!(command.session_id.as_deref(), Some("source"));
    assert_eq!(param(&command, "quality").and_then(|v| v.as_u64()), Some(82));
    assert_eq!(state.source_deadline(), Some(at_ms(2_091)));
    state.step(CompositorEvent::Source(Ok("QUJD".to_string())));
    assert_eq!(state.stage, SourceStage::SetFrame);
    assert_eq!(state.source_deadline(), Some(at_ms(2_091)));
    let command = state.command("source", &page).unwrap();
    assert_eq!(
        text_param(&command, "expression"),
        Some("window.__agentBrowserRecordingCompositor.setFrame(\"QUJD\")")
    );
    state.step(CompositorEvent::FrameSet(Ok(())));
    assert_eq!(state.last_source_frame.as_deref(), Some("QUJD"));
    assert_eq!(state.command("source", &page).unwrap().method, "Target.activateTarget");
    state.step(CompositorEvent::Activated);
    let command = state.command("source", &page).unwrap();
    assert_eq!(command.session_id.as_deref(), Some("s1"));
    assert_eq!(param(&command, "quality").and_then(|v| v.as_u64()), Some(90));
    state.step(CompositorEvent::Screenshot(Ok("aGk=".to_string())));
    assert_eq!(state.capture.phase, CapturePhase::ReadClock);
    assert_eq!(state.capture.frame, b"hi".to_vec());
    state.step(CompositorEvent::Capture(CaptureEvent::Clock(at_ms(2_050))));
    state.step(CompositorEvent::Capture(CaptureEvent::Written(true)));
    assert_eq!(state.capture.total_frames, 1);

    // Too soon for another look at the source.
    tick(&mut state);
    state.step(CompositorEvent::Clock(at_ms(2_120)));
    assert_eq!(state.stage, SourceStage::Activate);
    state.step(CompositorEvent::Activated);
    state.step(CompositorEvent::Screenshot(Err("Target closed".to_string())));
    assert_eq!(state.capture.phase, CapturePhase::AwaitTick);

    // An unchanged source is not shown again.
    tick(&mut state);
    state.step(CompositorEvent::Clock(at_ms(2_121)));
    assert_eq!(state.stage, SourceStage::CaptureSource);
    state.step(CompositorEvent::Source(Ok("QUJD".to_string())));
    assert_eq!(state.stage, SourceStage::Activate);
    assert_eq!(SOURCE_BUDGET_MS, 90);
}

#[test]
fn rounds_without_a_source_are_skipped() {
    let mut state = CompositorLoop::new(30, false, at_ms(5_000));
    let failures = [
        CompositorEvent::Source(Err("Target closed".to_string())),
        CompositorEvent::TimedOut,
    ];
    for (i, failure) in failures.into_iter().enumerate() {
        tick(&mut state);
        state.step(CompositorEvent::Clock(at_ms(5_000 + 120 * i as u64)));
        state.step(failure);
        assert_eq!(state.capture.phase, CapturePhase::AwaitTick);
        assert_eq!(state.stage, SourceStage::CheckRefresh);
    }
    for failure in [CompositorEvent::FrameSet(Err("x".to_string())), CompositorEvent::TimedOut] {
        tick(&mut state);
        state.step(CompositorEvent::Clock(TimePoint {
            nanos: state.last_source_refresh.nanos + 120_000_000,
        }));
        state.step(CompositorEvent::Source(Ok("A".to_string())));
        assert_eq!(state.stage, SourceStage::SetFrame);
        state.step(failure);
        assert_eq!(state.last_source_frame, None);
        assert_eq!(state.next_source_frame, None);
        assert_eq!(state.capture.phase, CapturePhase::AwaitTick);
    }
    assert!(state.accepts(&CompositorEvent::TimedOut));
    state.step(CompositorEvent::Capture(CaptureEvent::Cancelled));
    assert_eq!(state.capture.phase, CapturePhase::Finished);
}

#[test]
fn the_page_is_closed_once_before_the_encoder_is_awaited() {
    let mut state = CompositorLoop::new(30, false, at_ms(2_000));
    assert_eq!(state.ending(), None);
    tick(&mut state);
    state.step(CompositorEvent::Capture(CaptureEvent::Screenshot(Err(
        "Target closed".to_string(),
    ))));
    assert_eq!(state.ending(), None);
    let mut cancelled = CompositorLoop::new(30, false, at_ms(2_000));
    cancelled.step(CompositorEvent::Capture(CaptureEvent::Cancelled));
    let mut end = cancelled.ending().unwrap();
    let mut closings = 0;
    for _ in 0..5 {
        if let Some(command) = end.command("t1") {
            assert_eq!(command.method, "Target.closeTarget");
            assert_eq!(text_param(&command, "targetId"), Some("t1"));
            closings += 1;
        }
        if end == EndStep::AwaitEncoder {
            assert_eq!(closings, 1);
        }
        end = end.advance();
    }
    assert_eq!((closings, end), (1, EndStep::Done));
}

#[test]
fn a_look_at_the_end_of_the_clock_has_no_deadline() {
    let state = CompositorLoop::new(30, false, TimePoint { nanos: u128::MAX });
    assert!(state.source_deadline().is_some());
    let late = CompositorLoop { last_source_refresh: TimePoint { nanos: u128::MAX }, ..state };
    assert_eq!(late.source_deadline(), None);
}

#[test]
fn compositor_script_shows_the_idle_cursor_by_its_motion() {
    assert!(COMPOSITOR_RUNTIME_JS.contains("opacity: state.cursor.motion === 'auto' ? '0' : '1'"));
    assert!(COMPOSITOR_RUNTIME_JS.contains("state.cursor.motion !== 'auto' || effectUnderway()"));
    assert!(COMPOSITOR_RUNTIME_JS.contains("if (cursor) cursor.style.opacity = '0';"));
}

#[test]
fn compositor_script_teleports_without_motion() {
    assert!(!COMPOSITOR_RUNTIME_JS.contains("motion === 'off') return"));
    assert!(COMPOSITOR_RUNTIME_JS.contains("const duration = state.cursor.motion === 'off'\n      ? 0\n"));
}

#[test]
fn a_young_clock_starts_without_a_look_back() {
    let state = CompositorLoop::new(30, true, at_ms(10));
    assert_eq!(state.last_source_refresh, at_ms(10));
    assert_eq!(state.capture.phase, CapturePhase::AskGate);
}

#[test]
fn outcomes_of_the_compositor() {
    let details = ExceptionDetails { text: "t".to_string(), description: Some("d".to_string()) };
    assert_eq!(
        compositor_outcome(Some(details)),
        Err("Recording compositor runtime error: d".to_string())
    );
    assert_eq!(compositor_outcome(None), Ok(()));
    let long = "x".repeat(900);
    assert_eq!(
        compositor_encoder_outcome(false, &long),
        Err(format!("ffmpeg failed: {}", long))
    );
    assert_eq!(compositor_encoder_outcome(true, &long), Ok(()));
    let close = close_command("t9");
    assert_eq!(close.method, "Target.closeTarget");
    assert_eq!(text_param(&close, "targetId"), Some("t9"));
}

#[test]
fn viewports_are_read_with_defaults() {
    let command = viewport_command("s");
    assert_eq!(text_param(&command, "expression"), Some(VIEWPORT_EXPRESSION));
    assert_eq!(param(&command, "awaitPromise").and_then(|v| v.as_bool()), Some(false));
    let nothing = viewport_for_session(None, None);
    assert_eq!((nothing.width, nothing.height, nothing.mobile), (1280, 720, false));
    assert!(matches!(nothing.scale, JsonNumber::Unsigned(1)));
    let reported = JsonValue::empty_object()
        .with("width", JsonValue::Number(JsonNumber::Unsigned((1 << 32) + 5)))
        .with("height", JsonValue::Number(JsonNumber::Negative(-7)))
        .with("deviceScaleFactor", JsonValue::Number(JsonNumber::Decimal("2.5".to_string())))
        .with("mobile", JsonValue::Bool(true));
    let read = viewport_for_session(None, Some(&reported));
    assert_eq!((read.width, read.height, read.mobile), (5, -7, true));
    assert!(matches!(&read.scale, JsonNumber::Decimal(scale) if scale == "2.5"));
    let fractional = JsonValue::empty_object()
        .with("width", JsonValue::Number(JsonNumber::Decimal("800.5".to_string())));
    assert_eq!(viewport_for_session(None, Some(&fractional)).width, 1280);
    let known = Viewport { width: 3, height: 4, scale: JsonNumber::Unsigned(2), mobile: true };
    let kept = viewport_for_session(Some(known), Some(&reported));
    assert_eq!((kept.width, kept.height, kept.mobile), (3, 4, true));
}
