use std::sync::Arc;

use page_recording::cursor_overlay::animation::{
    position_command, position_from_reply, set_cursor_command, set_ripple_command, RippleStep,
    TweenEvent, TweenStep, POSITION_EXPRESSION, STEP_INTERVAL_MS,
};
use page_recording::cursor_overlay::controller::{
    classify_bridge_result, is_transient_bridge_error, CursorOverlayConfig, InstallStep, RemoveStep,
};
use page_recording::cursor_overlay::scripts::{MotionMode, Theme};
use page_recording::json::{JsonNumber, JsonValue};

fn number(n: u64) -> JsonValue {
    JsonValue::Number(JsonNumber::Unsigned(n))
}

#[test]
fn default_config_has_expected_values() {
    let cfg = CursorOverlayConfig::default();
    assert_eq!(cfg.theme, Theme::Arrow);
    assert_eq!(cfg.size_px, 28);
    assert_eq!(cfg.tween_ms, 250);
    assert_eq!(cfg.click_ms, 400);
    assert_eq!(cfg.motion, MotionMode::Auto);
    assert!(!cfg.block_clicks);
}

#[test]
fn install_source_includes_chosen_theme_and_durations() {
    let cfg = CursorOverlayConfig {
        theme: Theme::Dot,
        size_px: 40,
        tween_ms: 400,
        click_ms: 200,
        motion: MotionMode::Always,
        block_clicks: true,
    };
    let src = cfg.install_source();
    assert!(src.contains("\"size\":40"));
    assert!(src.contains("\"tweenMs\":400"));
    assert!(src.contains("\"clickMs\":200"));
    assert!(src.contains("\"motion\":\"always\""));
    assert!(src.contains("<circle"));
}

#[test]
fn transient_errors_are_swallowed() {
    let transient_messages = [
        "CDP error (Runtime.evaluate): Promise was collected",
        "Promise was collected",
        "CDP error (Runtime.evaluate): Execution context was destroyed",
        "Execution context with given id not found",
        "Cannot find context with specified id",
        "Inspected target navigated or closed",
    ];
    for msg in transient_messages {
        assert!(
            is_transient_bridge_error(msg),
            "expected transient classification for: {}",
            msg
        );
        assert!(
            classify_bridge_result(Err(msg.to_string())).is_ok(),
            "expected Ok for transient: {}",
            msg
        );
    }
}

#[test]
fn target_closed_propagates() {
    let propagated = [
        "CDP error (Runtime.evaluate): Target closed",
        "not found",
        "CDP command timed out: Runtime.evaluate",
        "CDP response channel closed",
    ];
    for msg in propagated {
        assert!(
            !is_transient_bridge_error(msg),
            "expected propagation for: {}",
            msg
        );
        assert!(
            classify_bridge_result(Err(msg.to_string())).is_err(),
            "expected Err for: {}",
            msg
        );
    }
}

#[test]
fn ok_results_pass_through_as_ok_unit() {
    let value = JsonValue::empty_object().with("value", number(1));
    assert!(classify_bridge_result(Ok(value)).is_ok());
    assert!(classify_bridge_result(Ok(JsonValue::Null)).is_ok());
}

#[test]
fn cursor_options_are_read() {
    let all = JsonValue::empty_object()
        .with("theme", JsonValue::text("HAND"))
        .with("motion", JsonValue::text("Off"))
        .with("size", number(96))
        .with("tweenMs", number(0))
        .with("clickMs", number(2000))
        .with("blockClicks", JsonValue::Bool(true));
    let cfg = CursorOverlayConfig::from_cmd_value(&all).unwrap().unwrap();
    assert_eq!(cfg.theme, Theme::Hand);
    assert_eq!(cfg.motion, MotionMode::Off);
    assert_eq!((cfg.size_px, cfg.tween_ms, cfg.click_ms), (96, 0, 2000));
    assert!(cfg.block_clicks);

    let none = CursorOverlayConfig::from_cmd_value(&JsonValue::empty_object())
        .unwrap()
        .unwrap();
    assert_eq!((none.size_px, none.tween_ms, none.click_ms), (28, 250, 400));
}

#[test]
fn an_absent_cursor_field_disables_the_cursor() {
    assert!(matches!(CursorOverlayConfig::from_cmd_value(&JsonValue::Null), Ok(None)));
    for value in [JsonValue::Bool(false), number(0), JsonValue::Array(Vec::new())] {
        assert_eq!(
            CursorOverlayConfig::from_cmd_value(&value).unwrap_err(),
            "'cursor' must be an object"
        );
    }
}

#[test]
fn each_wrong_cursor_option_has_its_error() {
    let read = |key: &str, value: JsonValue| {
        CursorOverlayConfig::from_cmd_value(&JsonValue::empty_object().with(key, value))
            .unwrap_err()
    };
    assert_eq!(
        CursorOverlayConfig::from_cmd_value(&JsonValue::text("arrow")).unwrap_err(),
        "'cursor' must be an object"
    );
    assert_eq!(
        read("theme", JsonValue::text("Blob")),
        "unknown cursor theme 'blob'; valid options: arrow, dot, hand"
    );
    assert_eq!(
        read("motion", JsonValue::text("Slow")),
        "unknown cursor motion mode 'slow'; valid options: auto, always, off"
    );
    assert_eq!(
        read("size", number(7)),
        "cursor.size must be between 8 and 96 (got 7)"
    );
    assert_eq!(
        read("tweenMs", number(2001)),
        "cursor.tweenMs must be between 0 and 2000 (got 2001)"
    );
    assert_eq!(
        read("clickMs", JsonValue::Number(JsonNumber::Negative(-1))),
        "cursor.clickMs must be a non-negative integer"
    );
    assert_eq!(
        read("clickMs", number(1 << 32)),
        "cursor.clickMs is out of range"
    );
}

#[test]
fn a_bridge_takes_the_knobs_over() {
    let cfg = CursorOverlayConfig { block_clicks: true, ..CursorOverlayConfig::default() };
    let bridge = cfg.bridge(Arc::new("client"));
    assert_eq!((bridge.tween_ms, bridge.click_ms), (250, 400));
    assert!(bridge.block_clicks);
    assert_eq!(*bridge.client, "client");
    let copy = bridge.clone();
    assert!(Arc::ptr_eq(&copy.client, &bridge.client));
    assert_eq!((copy.tween_ms, copy.click_ms, copy.block_clicks), (250, 400, true));
}

fn param<'a>(command: &'a page_recording::cdp::CdpCommand, key: &str) -> Option<&'a JsonValue> {
    command.params.as_ref().and_then(|p| p.get(key))
}

#[test]
fn installing_registers_and_evaluates() {
    let cfg = CursorOverlayConfig::default();
    let step = InstallStep::Register;
    let command = step.command("s1", &cfg).unwrap();
    assert_eq!(command.method, "Page.addScriptToEvaluateOnNewDocument");
    assert_eq!(command.session_id.as_deref(), Some("s1"));
    let source = cfg.install_source();
    assert_eq!(param(&command, "source").and_then(|v| v.as_str()), Some(source.as_str()));
    assert_eq!(param(&command, "runImmediately").and_then(|v| v.as_bool()), Some(true));

    let step = step.advance(Ok(JsonValue::empty_object().with("identifier", JsonValue::text("7"))));
    let command = step.command("s1", &cfg).unwrap();
    assert_eq!(command.method, "Runtime.evaluate");
    assert_eq!(param(&command, "expression").and_then(|v| v.as_str()), Some(source.as_str()));
    let step = step.advance(Err("whatever".to_string()));
    assert!(step.command("s1", &cfg).is_none());
    assert!(matches!(step, InstallStep::Done(Ok(id)) if id == "7"));

    let failed = InstallStep::Register.advance(Err("no".to_string()));
    assert!(matches!(failed, InstallStep::Done(Err(e)) if e == "no"));
    let unnamed = InstallStep::Register.advance(Ok(JsonValue::empty_object()));
    assert!(matches!(unnamed, InstallStep::Evaluate(id) if id.is_empty()));
}

#[test]
fn removing_unregisters_and_destroys() {
    let step = RemoveStep::start("7");
    let command = step.command("s1").unwrap();
    assert_eq!(command.method, "Page.removeScriptToEvaluateOnNewDocument");
    assert_eq!(param(&command, "identifier").and_then(|v| v.as_str()), Some("7"));
    let step = step.advance(Ok(JsonValue::Null));
    let command = step.command("s1").unwrap();
    assert!(param(&command, "expression")
        .and_then(|v| v.as_str())
        .unwrap()
        .contains("__ab_cursor.destroy()"));
    assert!(matches!(step.advance(Err("x".to_string())), RemoveStep::Done(Ok(()))));

    assert!(matches!(RemoveStep::start(""), RemoveStep::Destroy));
    let failed = RemoveStep::start("7").advance(Err("x".to_string()));
    assert!(matches!(failed, RemoveStep::Done(Err(e)) if e == "x"));
}

fn evaluated(text: &str) -> JsonValue {
    JsonValue::empty_object().with(
        "result",
        JsonValue::empty_object().with("value", JsonValue::text(text)),
    )
}

#[test]
fn positions_are_read_from_the_payload() {
    let command = position_command("s");
    assert_eq!(param(&command, "expression").and_then(|v| v.as_str()), Some(POSITION_EXPRESSION));
    let absent = ("-1000".to_string(), "-1000".to_string());
    assert_eq!(
        position_from_reply(Ok(evaluated("{\"x\": 12.5, \"y\": 3e2}"))),
        ("12.5".to_string(), "300".to_string())
    );
    assert_eq!(
        position_from_reply(Ok(evaluated("{\"x\":-1000,\"y\":-1000}"))),
        absent
    );
    assert_eq!(
        position_from_reply(Ok(evaluated("{\"x\":4}"))),
        ("4".to_string(), "-1000".to_string())
    );
    assert_eq!(position_from_reply(Ok(evaluated("no json"))), absent);
    assert_eq!(position_from_reply(Ok(JsonValue::Null)), absent);
    assert_eq!(position_from_reply(Err("gone".to_string())), absent);
}

#[test]
fn cursor_and_ripple_scripts() {
    let command = set_cursor_command("s", "1.5", "2");
    assert_eq!(
        param(&command, "expression").and_then(|v| v.as_str()),
        Some("window.__ab_cursor && window.__ab_cursor.setCursor(1.5, 2)")
    );
    assert_eq!(param(&command, "returnByValue").and_then(|v| v.as_bool()), Some(true));
    let command = set_ripple_command("s", "1", "2", "0.6", "0.85");
    assert_eq!(
        param(&command, "expression").and_then(|v| v.as_str()),
        Some("window.__ab_cursor && window.__ab_cursor.setRipple(1, 2, 0.6, 0.85)")
    );
}

#[test]
fn a_tween_makes_each_step_once() {
    assert_eq!(STEP_INTERVAL_MS, 30);
    for (ms, expected) in [(1u32, 2u32), (250, 8), (400, 13), (u32::MAX, 120)] {
        let mut step = TweenStep::start(ms, false, false);
        let mut seen = 0;
        loop {
            step = match step {
                TweenStep::Move { index, steps } => {
                    seen += 1;
                    assert_eq!((index, steps), (seen, expected));
                    step.advance(TweenEvent::Reply(Ok(JsonValue::Null)))
                }
                TweenStep::Pause { index, .. } => {
                    assert_eq!(index, seen);
                    step.advance(TweenEvent::Rested)
                }
                TweenStep::Done(outcome) => {
                    assert_eq!(outcome, Ok(()));
                    break;
                }
                TweenStep::Snap => panic!("no snap expected"),
            };
        }
        assert_eq!(seen, expected);
    }
}

#[test]
fn tweens_snap_and_stop_at_errors() {
    for step in [
        TweenStep::start(0, false, false),
        TweenStep::start(250, true, false),
        TweenStep::start(250, false, true),
    ] {
        assert!(matches!(step, TweenStep::Snap));
        let done = step.advance(TweenEvent::Reply(Err("Cannot find context".to_string())));
        assert!(matches!(done, TweenStep::Done(Ok(()))));
    }
    let done = TweenStep::start(250, false, false)
        .advance(TweenEvent::Reply(Err("Target closed".to_string())));
    assert!(matches!(done, TweenStep::Done(Err(e)) if e == "Target closed"));
}

#[test]
fn a_ripple_is_born_grows_and_vanishes() {
    for (ms, expected) in [(0u32, 13u32), (400, 13), (1, 4), (60_000, 40)] {
        let mut step = RippleStep::start(ms);
        assert_eq!(step, RippleStep::Born { steps: expected });
        let mut grown = 0;
        let mut pauses = 0;
        let mut vanished = 0;
        while step != RippleStep::Done {
            step = step.advance();
            match step {
                RippleStep::Grow { index, .. } => {
                    grown += 1;
                    assert_eq!(index, grown);
                }
                RippleStep::Pause { .. } => pauses += 1,
                RippleStep::Vanish => vanished += 1,
                _ => {}
            }
        }
        assert_eq!((grown, pauses, vanished), (expected, expected - 1, 1));
    }
}
