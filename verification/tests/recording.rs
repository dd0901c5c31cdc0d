use page_recording::frame_clock::whole_frames;
use page_recording::json::JsonValue;
use page_recording::recording::{
    build_ffmpeg_command, capture_interval, due_frame_count, encoder_outcome, encoder_start_error,
    encoder_wait_error, is_countable, recording_abort, recording_restart, recording_start,
    recording_stop, validate_fps, RecordingCaptureGate, RecordingState, TaskEnd,
    DEFAULT_CAPTURE_FPS,
};
use page_recording::time::{TimePoint, TimeSpan};

fn at(nanos: u128) -> TimePoint {
    TimePoint { nanos }
}

fn text_of<'a>(value: &'a JsonValue, key: &str) -> Option<&'a str> {
    value.get(key).and_then(|v| v.as_str())
}

#[test]
fn test_recording_state_new() {
    let state: RecordingState = RecordingState::new();
    assert!(!state.active);
    assert!(state.output_path.is_empty());
    assert_eq!(state.frame_count, 0);
}

#[test]
fn test_recording_start_sets_active() {
    let mut state: RecordingState = RecordingState::new();
    let result = recording_start(&mut state, "/tmp/test.mp4");
    assert!(result.is_ok());
    assert!(state.active);
    assert_eq!(state.output_path, "/tmp/test.mp4");
    assert_eq!(state.frame_count, 0);
}

#[test]
fn test_recording_start_while_active() {
    let mut state: RecordingState = RecordingState::new();
    recording_start(&mut state, "/tmp/test1.mp4").unwrap();
    let result = recording_start(&mut state, "/tmp/test2.mp4");
    assert!(result.is_err());
    assert!(result.unwrap_err().contains("already active"));
}

#[test]
fn test_recording_stop_not_active() {
    let mut state: RecordingState = RecordingState::new();
    let result = recording_stop(&mut state);
    assert!(result.is_err());
    assert!(result.unwrap_err().contains("No recording"));
}

#[test]
fn test_recording_stop_no_frames() {
    let mut state: RecordingState = RecordingState::new();
    recording_start(&mut state, "/tmp/test.mp4").unwrap();
    let result = recording_stop(&mut state);
    assert!(result.is_err());
    assert!(result.unwrap_err().contains("No frames"));
    assert!(!state.active);
}

#[test]
fn test_recording_abort_discards_state_without_frames() {
    let mut state: RecordingState = RecordingState::new();
    recording_start(&mut state, "/tmp/test.webm").unwrap();
    let result = recording_abort(&mut state).unwrap();

    assert_eq!(result.get("aborted").and_then(|v| v.as_bool()), Some(true));
    assert_eq!(text_of(&result, "path"), Some("/tmp/test.webm"));
    assert!(!state.active);
    assert_eq!(state.frame_count, 0);
    assert!(state.output_path.is_empty());
}

#[test]
fn test_recording_restart_while_inactive() {
    let mut state: RecordingState = RecordingState::new();
    let result = recording_restart(&mut state, "/tmp/new.webm");
    assert!(result.is_ok());
    assert!(state.active);
    assert_eq!(state.output_path, "/tmp/new.webm");
}

#[test]
fn test_recording_restart_while_active() {
    let mut state: RecordingState = RecordingState::new();
    recording_start(&mut state, "/tmp/old.webm").unwrap();
    state.frame_count = 10;
    let result = recording_restart(&mut state, "/tmp/new.webm").unwrap();
    assert!(state.active);
    assert_eq!(state.output_path, "/tmp/new.webm");
    assert_eq!(state.frame_count, 0);
    assert_eq!(text_of(&result, "previousPath"), Some("/tmp/old.webm"));
}

#[test]
fn test_build_ffmpeg_command_webm() {
    let cmd = build_ffmpeg_command("/tmp/out.webm", DEFAULT_CAPTURE_FPS);
    let args_str: Vec<&str> = cmd.args.iter().map(|a| a.as_str()).collect();
    assert!(args_str.contains(&"libvpx"));
    assert!(args_str.contains(&"/tmp/out.webm"));
}

#[test]
fn test_build_ffmpeg_command_mp4() {
    let cmd = build_ffmpeg_command("/tmp/out.mp4", DEFAULT_CAPTURE_FPS);
    let args_str: Vec<&str> = cmd.args.iter().map(|a| a.as_str()).collect();
    assert!(args_str.contains(&"libx264"));
    assert!(args_str.contains(&"/tmp/out.mp4"));
}

#[test]
fn test_build_ffmpeg_command_passes_fps_to_framerate() {
    let cmd = build_ffmpeg_command("/tmp/out.webm", 24);
    let args_str: Vec<&str> = cmd.args.iter().map(|a| a.as_str()).collect();
    let fr_idx = args_str
        .iter()
        .position(|a| *a == "-framerate")
        .expect("ffmpeg invocation should include -framerate");
    assert_eq!(args_str[fr_idx + 1], "24");
}

#[test]
fn test_capture_interval_for_fps() {
    assert_eq!(capture_interval(30).as_millis(), 33);
    assert_eq!(capture_interval(10).as_millis(), 100);
    assert_eq!(capture_interval(60).as_millis(), 16);
}

#[test]
fn test_due_frame_count_preserves_wall_clock_time() {
    let started_at = at(7_000_000_000);
    assert_eq!(due_frame_count(started_at, started_at, 30, 0), 1);
    assert_eq!(
        due_frame_count(started_at, started_at.plus(TimeSpan::from_millis(500)), 30, 1),
        15
    );
    assert_eq!(
        due_frame_count(started_at, started_at.plus(TimeSpan::from_millis(1000)), 30, 16),
        15
    );
}

#[test]
fn test_due_frame_count_caps_long_stall_catch_up() {
    let started_at = at(7_000_000_000);
    assert_eq!(
        due_frame_count(started_at, started_at.plus(TimeSpan::from_secs(10)), 30, 1),
        60
    );
}

#[test]
fn test_recording_capture_gate_starts_paused() {
    let now = at(5);
    let mut gate = RecordingCaptureGate::new_paused();
    assert!(!gate.is_active(now));

    gate.activate_for(TimeSpan::from_millis(25), now);
    assert!(gate.is_active(now));
}

#[test]
fn test_validate_fps_bounds() {
    assert!(validate_fps(0).is_err());
    assert!(validate_fps(1).is_ok());
    assert!(validate_fps(30).is_ok());
    assert!(validate_fps(60).is_ok());
    assert!(validate_fps(61).is_err());
}

#[test]
fn refused_rates_are_named() {
    assert_eq!(validate_fps(61).unwrap_err(), "fps must be between 1 and 60 (got 61)");
    assert_eq!(
        validate_fps(u32::MAX).unwrap_err(),
        "fps must be between 1 and 60 (got 4294967295)"
    );
    assert_eq!(validate_fps(24), Ok(24));
}

#[test]
fn start_and_stop_with_frames() {
    let mut state: RecordingState = RecordingState::new();
    let started = recording_start(&mut state, "a.webm").unwrap();
    assert_eq!(started.get("started").and_then(|v| v.as_bool()), Some(true));
    assert_eq!(text_of(&started, "path"), Some("a.webm"));
    state.frame_count = 12;
    let stopped = recording_stop(&mut state).unwrap();
    assert_eq!(text_of(&stopped, "path"), Some("a.webm"));
    assert_eq!(stopped.get("frames").and_then(|v| v.as_u64()), Some(12));
    assert!(!state.active);
    assert_eq!(state.frame_count, 12);
    assert_eq!(
        recording_stop(&mut state).unwrap_err(),
        "No recording in progress"
    );
}

#[test]
fn abort_without_a_recording_is_refused() {
    let mut state: RecordingState = RecordingState::new();
    assert_eq!(
        recording_abort(&mut state).unwrap_err(),
        "No recording in progress"
    );
}

#[test]
fn restart_of_an_empty_recording_names_no_previous_file() {
    let mut state: RecordingState = RecordingState::new();
    recording_start(&mut state, "old.mp4").unwrap();
    let reply = recording_restart(&mut state, "new.mp4").unwrap();
    assert!(matches!(reply.get("previousPath"), Some(JsonValue::Null)));
    assert_eq!(reply.get("restarted").and_then(|v| v.as_bool()), Some(true));
    assert_eq!(text_of(&reply, "path"), Some("new.mp4"));
}

#[test]
fn an_activation_never_shortens_an_earlier_one() {
    let mut gate = RecordingCaptureGate::new_paused();
    assert!(gate.activate_for(TimeSpan::from_millis(100), at(0)));
    assert!(gate.activate_for(TimeSpan::from_millis(10), at(1)));
    assert!(gate.is_active(at(99_999_999)));
    assert!(!gate.is_active(at(100_000_000)));
    assert!(!gate.activate_for(TimeSpan::zero(), at(200_000_000)));
    assert!(!gate.is_active(at(200_000_000)));
}

#[test]
fn the_whole_encoder_command_line() {
    let cmd = build_ffmpeg_command("clip.webm", 60);
    assert_eq!(cmd.program, "ffmpeg");
    assert_eq!(
        cmd.args.join(" "),
        "-y -avioflags direct -fpsprobesize 0 -probesize 32 -analyzeduration 0 -f image2pipe \
         -c:v mjpeg -framerate 60 -i pipe:0 -vf pad=ceil(iw/2)*2:ceil(ih/2)*2 \
         -c:v libvpx -crf 30 -b:v 1M -pix_fmt yuv420p -threads 1 clip.webm"
    );
    let other = build_ffmpeg_command("clip.webm.mkv", 1);
    assert!(other.args.join(" ").contains("-c:v libx264 -preset ultrafast -pix_fmt"));
}

#[test]
fn intervals_are_rounded_down() {
    assert_eq!(capture_interval(0).as_millis(), 1000);
    assert_eq!(capture_interval(7).nanos, 142_000_000);
    assert_eq!(capture_interval(1001).nanos, 0);
}

#[test]
fn at_least_one_frame_is_due() {
    let start = at(1_000);
    assert_eq!(due_frame_count(start, start, 30, 500), 1);
    assert_eq!(due_frame_count(start, at(0), 30, 0), 1);
    assert_eq!(due_frame_count(start, start.plus(TimeSpan::from_secs(9)), 0, 0), 2);
}

/// Elapsed time times the rate is rounded as a double is: the count agrees with
/// double-precision arithmetic, also where that differs from exact arithmetic.
#[test]
fn due_frames_agree_with_double_precision() {
    let mut checked = 0;
    let mut nanos: u64 = 0;
    for step in 0..20_000u64 {
        nanos = nanos
            .wrapping_mul(6_364_136_223_846_793_005)
            .wrapping_add(1_442_695_040_888_963_407 + step);
        let span = if step % 2 == 0 {
            (nanos >> 40) * 1_000_000
        } else {
            nanos >> (step % 40)
        };
        let fps = (step % 60) as u32 + 1;
        let secs = std::time::Duration::from_nanos(span).as_secs_f64();
        let target = (secs * f64::from(fps)).floor() as u64 + 1;
        let written = target.saturating_sub(step % 7);
        let expected = target.saturating_sub(written).max(1).min(u64::from(fps) * 2);
        let start = at(3);
        let now = at(3 + u128::from(span));
        assert!(is_countable(start, now, fps));
        assert_eq!(due_frame_count(start, now, fps, written), expected);
        checked += 1;
    }
    assert_eq!(checked, 20_000);
    // Exactly 29 periods have passed, and the double product falls short of 29.
    let due = due_frame_count(at(0), at(580_000_000), 50, 0);
    assert_eq!(due, (0.58f64 * 50.0).floor() as u64 + 1);
}

#[test]
fn spans_beyond_counting_are_told_apart() {
    assert!(is_countable(at(0), at(u128::from(u64::MAX)), 60));
    assert!(!is_countable(at(0), at(u128::MAX), 30));
}

#[test]
fn stopping_takes_the_handles_and_the_count() {
    let mut state: RecordingState<u8, u16, u32> = RecordingState::new();
    state.capture_task = Some(1);
    state.shared_frame_count = Some(2);
    state.cancel_tx = Some(3);
    let handles = state.begin_stop();
    assert_eq!(handles.task, Some(1));
    assert_eq!(handles.counter, Some(2));
    assert_eq!(handles.cancel, Some(3));
    assert!(state.capture_task.is_none());
    assert!(state.shared_frame_count.is_none());
    assert!(state.cancel_tx.is_none());
    assert_eq!(state.finish_stop(Some(TaskEnd::Finished(Ok(()))), Some(44)), Ok(()));
    assert_eq!(state.frame_count, 44);
    assert_eq!(
        state.finish_stop(Some(TaskEnd::Lost("boom".to_string())), None),
        Err("Recording task panicked: boom".to_string())
    );
    assert_eq!(state.frame_count, 44);
    assert_eq!(
        state.finish_stop(Some(TaskEnd::Finished(Err("bad".to_string()))), Some(0)),
        Err("bad".to_string())
    );
    assert_eq!(state.finish_stop(None, None), Ok(()));
}

#[test]
fn encoder_errors() {
    assert_eq!(
        encoder_start_error("no such file"),
        "ffmpeg not found or failed to execute: no such file. Install ffmpeg to enable recording."
    );
    assert_eq!(encoder_wait_error("gone"), "ffmpeg wait failed: gone");
    assert_eq!(encoder_outcome(true, "noise"), Ok(()));
    assert_eq!(
        encoder_outcome(false, "short"),
        Err("ffmpeg failed: short".to_string())
    );
    let long: String = "é".repeat(400);
    assert_eq!(
        encoder_outcome(false, &long),
        Err(format!("ffmpeg failed: {}", "é".repeat(300)))
    );
}

#[test]
fn frame_counts_stay_close_to_exact_time_and_never_go_back() {
    for rate in [1u32, 24, 30, 50, 60] {
        let mut last = 0;
        for ms in (0..200_000u64).step_by(7) {
            let count = whole_frames(TimeSpan::from_millis(ms), rate);
            let exact = ms * u64::from(rate) / 1_000;
            assert!(count <= exact + 1 && exact <= count + 1);
            assert!(count >= last);
            last = count;
        }
        for secs in 0..100 {
            assert_eq!(whole_frames(TimeSpan::from_secs(secs), rate), secs * u64::from(rate));
        }
    }
}

#[test]
fn captures_keep_the_declared_rate() {
    for fps in 1..=60u32 {
        let pause = capture_interval(fps).nanos;
        assert!(pause > 0 && pause * u128::from(fps) <= 1_000_000_000);
    }
}
