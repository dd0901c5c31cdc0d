use std::sync::Arc;

use page_recording::cdp::ExceptionDetails;
use page_recording::json::{JsonNumber, JsonValue};
use page_recording::recording_effects::{
    cleanup_command, click_call, configure_call, effects_outcome, is_missing_runtime_error,
    key_call, move_call, overlay_call, remaining_click_delay, runtime_async_call, spotlight_call,
    zoom_call, ClickSync, CursorEffectsConfig, CursorTheme, InputMode, MotionMode, OverlayPosition,
    RecordEffectsPreset, RecordMode, RecordingEffectsConfig, RecordingEffectsState, RuntimeStep,
    RECORDING_EFFECTS_RUNTIME_JS,
};
use page_recording::time::{TimePoint, TimeSpan};

type State = RecordingEffectsState<(), f64>;

fn number(n: u64) -> JsonValue {
    JsonValue::Number(JsonNumber::Unsigned(n))
}

fn at_ms(ms: u64) -> TimePoint {
    TimePoint { nanos: u128::from(ms) * 1_000_000 }
}

fn defaults(preset: RecordEffectsPreset) -> RecordingEffectsConfig {
    RecordingEffectsConfig::from_cmd(preset, None, None, None, None, None)
        .unwrap()
        .unwrap()
}

#[test]
fn parses_effect_presets() {
    assert_eq!(
        RecordEffectsPreset::from_str("off").unwrap(),
        RecordEffectsPreset::Off
    );
    assert_eq!(
        RecordEffectsPreset::from_str("cursor").unwrap(),
        RecordEffectsPreset::Cursor
    );
    assert_eq!(
        RecordEffectsPreset::from_str("demo").unwrap(),
        RecordEffectsPreset::Demo
    );
    assert!(RecordEffectsPreset::from_str("other").is_err());
}

#[test]
fn demo_mode_defaults_to_block_clicks_and_animated_input() {
    let cfg = RecordingEffectsConfig::from_cmd(
        RecordEffectsPreset::Demo,
        None,
        None,
        None,
        None,
        None,
    )
    .unwrap()
    .unwrap();

    assert_eq!(cfg.mode, RecordMode::Demo);
    assert_eq!(cfg.input_mode, InputMode::Animated);
    let cursor = cfg.cursor.unwrap();
    assert_eq!(cursor.click_sync, ClickSync::Block);
    assert_eq!(cursor.tween_ms, 700);
    assert_eq!(cursor.click_ms, 500);
}

#[test]
fn demo_mode_preserves_explicit_cursor_timing() {
    let value = JsonValue::empty_object()
        .with("theme", JsonValue::text("arrow"))
        .with("tweenMs", number(320))
        .with("clickMs", number(220));
    let cfg = RecordingEffectsConfig::from_cmd(
        RecordEffectsPreset::Demo,
        Some(&value),
        None,
        None,
        None,
        None,
    )
    .unwrap()
    .unwrap();

    let cursor = cfg.cursor.unwrap();
    assert_eq!(cursor.tween_ms, 320);
    assert_eq!(cursor.click_ms, 220);
}

#[test]
fn demo_mode_theme_only_cursor_keeps_demo_timing() {
    let value = JsonValue::empty_object().with("theme", JsonValue::text("arrow"));
    let cfg = RecordingEffectsConfig::from_cmd(
        RecordEffectsPreset::Demo,
        Some(&value),
        None,
        None,
        None,
        None,
    )
    .unwrap()
    .unwrap();

    let cursor = cfg.cursor.unwrap();
    assert_eq!(cursor.theme, CursorTheme::Arrow);
    assert_eq!(cursor.tween_ms, 700);
    assert_eq!(cursor.click_ms, 500);
}

#[test]
fn click_extends_post_roll_without_auto_zoom_state() {
    let cfg = defaults(RecordEffectsPreset::Demo);
    let mut state = State::new(cfg);
    let delay = state.click(120.0, 80.0, at_ms(10));

    assert_eq!(delay, TimeSpan::from_millis(700));
    assert!(state.stop_post_roll_duration(at_ms(10)) >= TimeSpan::from_millis(1_100));
}

#[test]
fn stop_post_roll_waits_for_effect_tail() {
    let cfg = defaults(RecordEffectsPreset::Cursor);
    let mut state = State::new(cfg);
    let now = at_ms(10);
    state.zoom_to(120.0, 80.0, 1.5, Some(1_200), now);

    assert!(state.stop_post_roll_duration(now) >= TimeSpan::from_millis(1_700));
}

#[test]
fn zoom_without_duration_keeps_transition_tail_until_reset() {
    let cfg = defaults(RecordEffectsPreset::Cursor);
    let mut state = State::new(cfg);
    state.zoom_to(120.0, 80.0, 1.6, None, at_ms(0));

    assert!(state.stop_post_roll_duration(at_ms(1)) >= TimeSpan::from_millis(650));
    state.zoom_reset(at_ms(2));
    assert!(state.stop_post_roll_duration(at_ms(2)) >= TimeSpan::from_millis(1_300));
}

#[test]
fn overlay_timing_serializes_for_post_roll() {
    let cfg = defaults(RecordEffectsPreset::Cursor);
    let mut state = State::new(cfg);
    state.overlay_text("first", OverlayPosition::Bottom, 1_000, at_ms(5));
    let first_until = state.overlay_chain_until.unwrap();
    state.overlay_text("second", OverlayPosition::Bottom, 1_000, at_ms(6));

    assert!(
        state.overlay_chain_until.unwrap() >= first_until.plus(TimeSpan::from_millis(1_180))
    );
}

#[test]
fn runtime_script_defines_dom_only_effects() {
    assert!(RECORDING_EFFECTS_RUNTIME_JS.contains("__agentBrowserRecordingEffects"));
    assert!(RECORDING_EFFECTS_RUNTIME_JS.contains("data-agent-browser-recording-root"));
    assert!(RECORDING_EFFECTS_RUNTIME_JS.contains("initialCursorPoint"));
    assert!(RECORDING_EFFECTS_RUNTIME_JS.contains("visualCursorPoint"));
    assert!(RECORDING_EFFECTS_RUNTIME_JS.contains("overlayChain"));
    assert!(RECORDING_EFFECTS_RUNTIME_JS.contains("data-agent-browser-recording-click"));
    assert!(RECORDING_EFFECTS_RUNTIME_JS.contains("data-agent-browser-recording-spotlight"));
    assert!(!RECORDING_EFFECTS_RUNTIME_JS.contains("composite_frame"));
}

#[test]
fn names_of_all_options_read_back() {
    for value in [RecordEffectsPreset::Off, RecordEffectsPreset::Cursor, RecordEffectsPreset::Demo] {
        assert_eq!(RecordEffectsPreset::from_str(value.as_str()), Ok(value));
    }
    for value in [CursorTheme::Arrow, CursorTheme::Dot, CursorTheme::Hand] {
        assert_eq!(CursorTheme::from_str(value.as_str()), Ok(value));
    }
    for value in [MotionMode::Auto, MotionMode::Always, MotionMode::Off] {
        assert_eq!(MotionMode::from_str(value.as_str()), Ok(value));
    }
    for value in [ClickSync::Async, ClickSync::Block] {
        assert_eq!(ClickSync::from_str(value.as_str()), Ok(value));
    }
    for value in [OverlayPosition::Top, OverlayPosition::Center, OverlayPosition::Bottom] {
        assert_eq!(OverlayPosition::from_str(value.as_str()), Ok(value));
    }
    assert_eq!(RecordMode::from_str("automation"), Ok(RecordMode::Automation));
    assert_eq!(RecordMode::from_str("demo"), Ok(RecordMode::Demo));
    assert_eq!(InputMode::from_str("fast"), Ok(InputMode::Fast));
    assert_eq!(InputMode::from_str("animated"), Ok(InputMode::Animated));
}

#[test]
fn unknown_names_are_told() {
    assert_eq!(
        RecordEffectsPreset::from_str("Demo").unwrap_err(),
        "unknown record effects preset 'Demo'; valid options: cursor, demo, off"
    );
    assert_eq!(
        RecordMode::from_str("x").unwrap_err(),
        "unknown record mode 'x'; valid options: automation, demo"
    );
    assert_eq!(
        CursorTheme::from_str("off").unwrap_err(),
        "cursor.theme must be one of arrow, dot, hand, off (got off)"
    );
    assert_eq!(
        MotionMode::from_str("x").unwrap_err(),
        "cursor.motion must be one of auto, always, off (got x)"
    );
    assert_eq!(
        ClickSync::from_str("x").unwrap_err(),
        "click sync must be one of async, block (got x)"
    );
    assert_eq!(
        InputMode::from_str("x").unwrap_err(),
        "input mode must be one of fast, animated (got x)"
    );
    assert_eq!(
        OverlayPosition::from_str("").unwrap_err(),
        "overlay position must be one of top, center, bottom (got )"
    );
}

#[test]
fn effects_that_are_off_ask_for_nothing_else() {
    assert!(!RecordEffectsPreset::Off.enabled());
    assert!(RecordEffectsPreset::Cursor.enabled());
    let none = RecordingEffectsConfig::from_cmd(
        RecordEffectsPreset::Off,
        Some(&JsonValue::Null),
        Some("nonsense"),
        Some("nonsense"),
        Some("nonsense"),
        None,
    );
    assert_eq!(none, Ok(None));
}

#[test]
fn automation_defaults() {
    let cfg = defaults(RecordEffectsPreset::Cursor);
    assert_eq!(cfg.mode, RecordMode::Automation);
    assert_eq!(cfg.input_mode, InputMode::Fast);
    assert_eq!(cfg.input_delay_ms, 0);
    assert_eq!(cfg.cursor, Some(CursorEffectsConfig::default()));
    assert_eq!(defaults(RecordEffectsPreset::Demo).input_delay_ms, 35);
}

#[test]
fn a_cursor_that_is_off_keeps_the_effects() {
    let value = JsonValue::empty_object()
        .with("theme", JsonValue::text("off"))
        .with("size", number(5000));
    let cfg = RecordingEffectsConfig::from_cmd(
        RecordEffectsPreset::Cursor,
        Some(&value),
        Some("demo"),
        Some("nonsense"),
        Some("fast"),
        Some(7),
    )
    .unwrap()
    .unwrap();
    assert_eq!(cfg.cursor, None);
    assert_eq!(cfg.mode, RecordMode::Demo);
    assert_eq!(cfg.input_mode, InputMode::Fast);
    assert_eq!(cfg.input_delay_ms, 7);
}

#[test]
fn click_sync_options_and_their_precedence() {
    let cursor = |value: &JsonValue| CursorEffectsConfig::from_cmd_value(value).unwrap().unwrap();
    let block = JsonValue::empty_object().with("blockClicks", JsonValue::Bool(true));
    assert_eq!(cursor(&block).click_sync, ClickSync::Block);
    let both = JsonValue::empty_object()
        .with("blockClicks", JsonValue::Bool(true))
        .with("clickSync", JsonValue::text("async"));
    assert_eq!(cursor(&both).click_sync, ClickSync::Async);
    let flag = RecordingEffectsConfig::from_cmd(
        RecordEffectsPreset::Demo,
        Some(&block),
        None,
        Some("async"),
        None,
        None,
    )
    .unwrap()
    .unwrap();
    assert_eq!(flag.cursor.unwrap().click_sync, ClickSync::Async);
}

#[test]
fn wrong_effects_options_are_told_in_order() {
    let value = JsonValue::empty_object().with("size", number(97));
    let read = |cursor: Option<&JsonValue>, mode, sync, input| {
        RecordingEffectsConfig::from_cmd(
            RecordEffectsPreset::Cursor,
            cursor,
            mode,
            sync,
            input,
            None,
        )
        .unwrap_err()
    };
    assert_eq!(
        read(Some(&value), Some("m"), Some("s"), Some("i")),
        "unknown record mode 'm'; valid options: automation, demo"
    );
    assert_eq!(
        read(Some(&value), None, Some("s"), Some("i")),
        "cursor.size must be between 8 and 96 (got 97)"
    );
    assert_eq!(
        read(None, None, Some("s"), Some("i")),
        "click sync must be one of async, block (got s)"
    );
    assert_eq!(
        read(None, None, None, Some("i")),
        "input mode must be one of fast, animated (got i)"
    );
    assert_eq!(
        read(Some(&JsonValue::text("off")), None, None, None),
        "'cursor' must be an object or \"off\""
    );
    let sync = JsonValue::empty_object().with("clickSync", JsonValue::text("never"));
    assert_eq!(
        read(Some(&sync), None, None, None),
        "click sync must be one of async, block (got never)"
    );
}

#[test]
fn exact_times_of_each_effect() {
    let mut state = State::new(defaults(RecordEffectsPreset::Cursor));
    assert_eq!(state.stop_post_roll_duration(at_ms(0)), TimeSpan::zero());
    state.move_to(1.0, 2.0, at_ms(1_000));
    assert_eq!(state.effect_active_until, Some(at_ms(1_250)));
    assert_eq!(state.click(1.0, 2.0, at_ms(1_000)), TimeSpan::zero());
    assert_eq!(state.effect_active_until, Some(at_ms(1_400)));
    state.key("", at_ms(9_000));
    assert_eq!(state.effect_active_until, Some(at_ms(1_400)));
    state.key("Enter", at_ms(1_000));
    assert_eq!(state.effect_active_until, Some(at_ms(1_900)));
    state.spotlight(0.0, 0.0, 0, at_ms(1_900));
    assert_eq!(state.effect_active_until, Some(at_ms(1_901)));
    state.spotlight(0.0, 0.0, 10, at_ms(1_000));
    assert_eq!(state.effect_active_until, Some(at_ms(1_901)));
    state.zoom_to(0.0, 0.0, 2.0, Some(0), at_ms(2_000));
    assert_eq!(state.effect_active_until, Some(at_ms(2_701)));
    state.zoom_to(0.0, 0.0, 2.0, None, at_ms(3_000));
    assert_eq!(state.effect_active_until, Some(at_ms(3_650)));
    state.zoom_reset(at_ms(3_000));
    assert_eq!(state.effect_active_until, Some(at_ms(3_700)));

    assert_eq!(state.stop_post_roll_duration(at_ms(3_600)), TimeSpan::from_millis(750));
    assert_eq!(state.stop_post_roll_duration(at_ms(3_700)), TimeSpan::from_millis(650));
    assert_eq!(state.stop_post_roll_duration(at_ms(5_700)), TimeSpan::from_millis(650));
    assert_eq!(state.stop_post_roll_duration(at_ms(5_701)), TimeSpan::zero());
}

#[test]
fn blocked_clicks_wait_for_the_cursor() {
    let mut cfg = defaults(RecordEffectsPreset::Demo);
    let mut state = State::new(cfg);
    assert_eq!(state.click(1.0, 2.0, at_ms(0)), TimeSpan::from_millis(700));
    assert_eq!(state.effect_active_until, Some(at_ms(1_200)));
    if let Some(cursor) = cfg.cursor.as_mut() {
        cursor.motion = MotionMode::Off;
        cursor.click_ms = 0;
    }
    let mut still = State::new(cfg);
    assert_eq!(still.click(1.0, 2.0, at_ms(0)), TimeSpan::zero());
    assert_eq!(still.effect_active_until, Some(at_ms(1)));
    cfg.cursor = None;
    let mut hidden = State::new(cfg);
    assert_eq!(hidden.click(1.0, 2.0, at_ms(0)), TimeSpan::zero());
    assert_eq!(hidden.effect_active_until, None);
    assert_eq!(remaining_click_delay(TimeSpan::from_millis(7), true), TimeSpan::zero());
    assert_eq!(
        remaining_click_delay(TimeSpan::from_millis(7), false),
        TimeSpan::from_millis(7)
    );
}

#[test]
fn blank_overlays_are_not_shown_and_cleared_ones_do_not_delay() {
    let mut state = State::new(defaults(RecordEffectsPreset::Cursor));
    state.overlay_text(" \t\u{2003}\n", OverlayPosition::Top, 100, at_ms(0));
    assert_eq!(state.overlay_chain_until, None);
    state.overlay_text("a", OverlayPosition::Top, 0, at_ms(0));
    assert_eq!(state.overlay_chain_until, Some(at_ms(181)));
    state.clear_overlay();
    state.overlay_text("b", OverlayPosition::Top, 20, at_ms(50));
    assert_eq!(state.overlay_chain_until, Some(at_ms(250)));
    state.overlay_text("c", OverlayPosition::Top, 20, at_ms(1_000));
    assert_eq!(state.overlay_chain_until, Some(at_ms(1_200)));
    state.set_device_scale_factor(2.0);
    assert_eq!(state.effect_active_until, Some(at_ms(1_200)));
}

#[test]
fn moves_are_coalesced() {
    let mut state = State::new(defaults(RecordEffectsPreset::Cursor));
    assert!(state.queue_move(1.0, 1.0, at_ms(0)));
    assert!(!state.queue_move(2.0, 3.0, at_ms(1)));
    assert_eq!(state.flush_move(), Some((2.0, 3.0)));
    assert_eq!(state.flush_move(), None);
    assert!(state.queue_move(4.0, 4.0, at_ms(2)));
    state.click(4.0, 4.0, at_ms(3));
    assert_eq!(state.flush_move(), None);
    assert_eq!(state.config().mode, RecordMode::Automation);
}

#[test]
fn a_runtime_needs_a_target_and_is_installed_once() {
    let cfg = defaults(RecordEffectsPreset::Cursor);
    let nowhere = State::new(cfg);
    assert!(nowhere.runtime().is_none());
    assert!(nowhere.pending_install().is_none());
    let client = Arc::new("client");
    let mut state: RecordingEffectsState<&str, f64> =
        RecordingEffectsState::new_with_target(cfg, client.clone(), "s1".to_string());
    let runtime = state.pending_install().unwrap();
    assert!(Arc::ptr_eq(&runtime.target.client, &client));
    assert_eq!(runtime.target.session_id, "s1");
    assert_eq!(runtime.config, cfg);
    assert_eq!(state.finish_install(Err("no".to_string())), Err("no".to_string()));
    assert!(!state.runtime_installed);
    assert!(state.pending_install().is_some());
    assert_eq!(state.finish_install(Ok(())), Ok(()));
    assert!(state.runtime_installed);
    assert!(state.pending_install().is_none());
    assert_eq!(state.finish_install(Err("late".to_string())), Err("late".to_string()));
    assert!(state.runtime_installed);
    assert!(state.runtime().is_some());
}

#[test]
fn calls_as_scripts() {
    assert_eq!(
        runtime_async_call("zoomReset()"),
        "(async () => { await window.__agentBrowserRecordingEffects.zoomReset(); })()"
    );
    assert_eq!(move_call("1", "2.5"), "moveTo(1, 2.5)");
    assert_eq!(click_call("1", "0"), "click(1, 0)");
    assert_eq!(key_call("a\"\\\n\u{1}"), "key(\"a\\\"\\\\\\n\\u0001\")");
    assert_eq!(
        overlay_call("hi", OverlayPosition::Center, 0),
        "overlayText(\"hi\", \"center\", 1)"
    );
    assert_eq!(spotlight_call("1", "2", 30), "spotlight(1, 2, 30)");
    assert_eq!(zoom_call("1", "2", "1.5", None), "zoomTo(1, 2, 1.5, null)");
    assert_eq!(zoom_call("1", "2", "1.5", Some(0)), "zoomTo(1, 2, 1.5, 1)");
}

#[test]
fn the_configuration_as_a_call() {
    let mut cfg = defaults(RecordEffectsPreset::Demo);
    let call = configure_call(&cfg);
    assert_eq!(
        call,
        "configure({\"cursor\":{\"clickMs\":500,\"clickSync\":\"block\",\"motion\":\"auto\",\
         \"size\":28,\"theme\":\"arrow\",\"tweenMs\":700}})"
    );
    let inside = call.strip_prefix("configure(").unwrap().strip_suffix(')').unwrap();
    let parsed: serde_json::Value = serde_json::from_str(inside).unwrap();
    assert_eq!(parsed.to_string(), inside);
    cfg.cursor = None;
    assert_eq!(configure_call(&cfg), "configure({ cursor: null })");
}

#[test]
fn missing_effects_are_recognised() {
    assert!(is_missing_runtime_error("x: window.__agentBrowserRecordingEffects is not defined"));
    assert!(is_missing_runtime_error("TypeError: Cannot read properties of undefined (reading)"));
    assert!(is_missing_runtime_error("Cannot read property 'key' of undefined"));
    assert!(!is_missing_runtime_error("Target closed"));
    assert_eq!(effects_outcome(None), Ok(()));
    let plain = ExceptionDetails { text: "Uncaught".to_string(), description: None };
    assert_eq!(
        effects_outcome(Some(plain)),
        Err("Recording effects runtime error: Uncaught".to_string())
    );
    let described = ExceptionDetails {
        text: "Uncaught".to_string(),
        description: Some("Error: no".to_string()),
    };
    assert_eq!(
        effects_outcome(Some(described)),
        Err("Recording effects runtime error: Error: no".to_string())
    );
}

#[test]
fn a_call_installs_missing_effects_and_is_made_again() {
    let cfg = defaults(RecordEffectsPreset::Cursor);
    let state: RecordingEffectsState<(), f64> =
        RecordingEffectsState::new_with_target(cfg, Arc::new(()), "s1".to_string());
    let runtime = state.runtime().unwrap();
    let script = |step: &RuntimeStep| {
        step.command("key(\"a\")", &runtime).map(|command| {
            assert_eq!(command.method, "Runtime.evaluate");
            assert_eq!(command.session_id.as_deref(), Some("s1"));
            let params = command.params.unwrap();
            assert_eq!(params.get("awaitPromise").and_then(|v| v.as_bool()), Some(true));
            params.get("expression").and_then(|v| v.as_str()).unwrap().to_string()
        })
    };
    let call = runtime_async_call("key(\"a\")");
    let step = RuntimeStep::Attempt;
    assert_eq!(script(&step).as_deref(), Some(call.as_str()));
    let step = step.advance(Err("Cannot read property".to_string()));
    assert_eq!(script(&step).as_deref(), Some(RECORDING_EFFECTS_RUNTIME_JS));
    let step = step.advance(Ok(()));
    assert_eq!(script(&step), Some(runtime_async_call(&configure_call(&cfg))));
    let step = step.advance(Ok(()));
    assert_eq!(script(&step).as_deref(), Some(call.as_str()));
    let step = step.advance(Err("Cannot read property".to_string()));
    assert_eq!(script(&step), None);
    assert!(matches!(step, RuntimeStep::Done(Err(e)) if e == "Cannot read property"));

    let done = RuntimeStep::Attempt.advance(Ok(()));
    assert!(matches!(done, RuntimeStep::Done(Ok(()))));
    let failed = RuntimeStep::Attempt.advance(Err("Target closed".to_string()));
    assert!(matches!(failed, RuntimeStep::Done(Err(e)) if e == "Target closed"));
    let alone = RuntimeStep::Install { retry: false }.advance(Ok(())).advance(Ok(()));
    assert!(matches!(alone, RuntimeStep::Done(Ok(()))));
    assert_eq!(cleanup_command("s9").session_id.as_deref(), Some("s9"));
}

/// The effect that ends last decides, in whatever order the effects came.
#[test]
fn post_roll_follows_the_effect_that_ends_last() {
    let mut state = State::new(defaults(RecordEffectsPreset::Cursor));
    state.spotlight(0.0, 0.0, 5_000, at_ms(0));
    state.key("a", at_ms(100));
    state.clear_overlay();
    state.zoom_reset(at_ms(200));
    assert_eq!(state.stop_post_roll_duration(at_ms(1_000)), TimeSpan::from_millis(4_650));
    assert_eq!(state.stop_post_roll_duration(at_ms(7_000)), TimeSpan::from_millis(650));
    assert_eq!(state.stop_post_roll_duration(at_ms(7_001)), TimeSpan::zero());
}

/// With motion `always` the cursor is shown from the configuration on; with `auto` it
/// is hidden once no effect is under way.
#[test]
fn page_script_shows_the_idle_cursor_by_its_motion() {
    assert!(RECORDING_EFFECTS_RUNTIME_JS
        .contains("if (config.cursor.motion === 'always') showIdleCursor();"));
    assert!(RECORDING_EFFECTS_RUNTIME_JS.contains("config.cursor?.motion !== 'auto') return;"));
    assert!(RECORDING_EFFECTS_RUNTIME_JS.contains("if (cursor) cursor.style.opacity = '0';"));
}

/// Without motion the cursor is still drawn and moves without a tween, and an overlay
/// goes away by itself.
#[test]
fn page_script_teleports_without_motion_and_dismisses_overlays() {
    assert!(!RECORDING_EFFECTS_RUNTIME_JS.contains("motion === 'off') return"));
    assert!(RECORDING_EFFECTS_RUNTIME_JS.contains(
        "const duration = config.cursor.motion === 'off'\n      ? 0\n"
    ));
    let overlay = RECORDING_EFFECTS_RUNTIME_JS
        .split("function overlayText")
        .nth(1)
        .and_then(|rest| rest.split("function key").next())
        .unwrap();
    assert!(overlay.contains("setTimeout(() => drop(el), 180)"));
}
