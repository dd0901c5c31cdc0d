//! The life cycle of a recording: its state, the capture gate, the encoder's
//! command line, and the pace at which frames are due.

use vstd::arithmetic::div_mod::*;
use vstd::prelude::*;
use vstd::string::*;

use crate::frame_clock::{frame_periods, whole_frames};
use crate::json::{lookup, Json, JsonNumber, JsonValue, Numeral};
use crate::text::{decimal, decimal_text, ends_with, first_chars, is_tail, take_chars};
use crate::time::{elapsed_nanos, millis, TimePoint, TimeSpan, NANOS_PER_SEC};

verus! {

/// Default capture cadence. 30 fps is the lowest rate at which sub-frame motion
/// (cursor tween, click ripple) reads as smooth animation.
pub const DEFAULT_CAPTURE_FPS: u32 = 30;

/// Lower bound. Below this, ffmpeg's image2pipe demuxer rejects timestamps.
pub const MIN_CAPTURE_FPS: u32 = 1;

/// Upper bound. Anything higher and screenshots cannot keep up.
pub const MAX_CAPTURE_FPS: u32 = 60;

/// How many seconds of missed frames one screenshot may stand for.
pub const MAX_CATCH_UP_SECONDS: u64 = 2;

/// The state of the recorder. The handles of a running capture (its task, frame
/// counter, cancel signal, gate and session) are whatever the caller runs it with.
pub struct RecordingState<Task = (), Counter = (), Cancel = (), Gate = (), Session = ()> {
    pub active: bool,
    pub output_path: String,
    pub frame_count: u64,
    pub fps: u32,
    pub capture_task: Option<Task>,
    pub shared_frame_count: Option<Counter>,
    pub cancel_tx: Option<Cancel>,
    pub stop_post_roll: TimeSpan,
    pub capture_gate: Option<Gate>,
    pub capture_session: Option<Session>,
}

impl<Task, Counter, Cancel, Gate, Session> RecordingState<Task, Counter, Cancel, Gate, Session> {
    /// A recorder that has not recorded anything.
    pub fn new() -> (r: Self)
        ensures
            !r.active,
            r.output_path@ == Seq::<char>::empty(),
            r.frame_count == 0,
            r.fps == DEFAULT_CAPTURE_FPS,
            r.capture_task is None,
            r.shared_frame_count is None,
            r.cancel_tx is None,
            r.stop_post_roll.nanos == 0,
            r.detached(),
    {
        RecordingState {
            active: false,
            output_path: String::new(),
            frame_count: 0,
            fps: DEFAULT_CAPTURE_FPS,
            capture_task: None,
            shared_frame_count: None,
            cancel_tx: None,
            stop_post_roll: TimeSpan::zero(),
            capture_gate: None,
            capture_session: None,
        }
    }

    /// Neither a gate nor a session is attached.
    pub open spec fn detached(self) -> bool {
        self.capture_gate is None && self.capture_session is None
    }

    /// The rate, the running capture and the post-roll are those of `other`.
    pub open spec fn same_capture(self, other: Self) -> bool {
        &&& self.fps == other.fps
        &&& self.capture_task == other.capture_task
        &&& self.shared_frame_count == other.shared_frame_count
        &&& self.cancel_tx == other.cancel_tx
        &&& self.stop_post_roll == other.stop_post_roll
    }

    /// `self` is `before` with a recording to `path` started.
    pub open spec fn started_from(self, before: Self, path: Seq<char>) -> bool {
        &&& self.active
        &&& self.output_path@ == path
        &&& self.frame_count == 0
        &&& self.detached()
        &&& self.same_capture(before)
    }

    /// `self` is `before` with its recording stopped.
    pub open spec fn stopped_from(self, before: Self) -> bool {
        &&& !self.active
        &&& self.output_path@ == before.output_path@
        &&& self.frame_count == before.frame_count
        &&& self.detached()
        &&& self.same_capture(before)
    }

    /// `self` is `before` with its recording discarded.
    pub open spec fn aborted_from(self, before: Self) -> bool {
        &&& !self.active
        &&& self.output_path@ == Seq::<char>::empty()
        &&& self.frame_count == 0
        &&& self.detached()
        &&& self.same_capture(before)
    }
}

/// The reply to a recording that was started.
pub open spec fn started_reply(path: Seq<char>) -> Json {
    Json::empty_object().with("started"@, Json::Bool(true)).with("path"@, Json::Text(path))
}

/// The reply to a recording that was stopped with frames in it.
pub open spec fn stopped_reply(path: Seq<char>, frames: u64) -> Json {
    Json::empty_object().with("path"@, Json::Text(path)).with(
        "frames"@,
        Json::Number(Numeral::Unsigned(frames)),
    )
}

/// The reply to a recording that was discarded.
pub open spec fn aborted_reply(path: Seq<char>) -> Json {
    Json::empty_object().with("aborted"@, Json::Bool(true)).with("path"@, Json::Text(path))
}

/// The reply to a recording that was restarted.
pub open spec fn restarted_reply(previous: Option<Seq<char>>, path: Seq<char>) -> Json {
    Json::empty_object().with("restarted"@, Json::Bool(true)).with(
        "previousPath"@,
        match previous {
            Some(p) => Json::Text(p),
            None => Json::Null,
        },
    ).with("path"@, Json::Text(path))
}

/// Starts a recording to `path`, unless one is active.
pub fn recording_start<Task, Counter, Cancel, Gate, Session>(
    state: &mut RecordingState<Task, Counter, Cancel, Gate, Session>,
    path: &str,
) -> (r: Result<JsonValue, String>)
    ensures
        match r {
            Ok(reply) => {
                &&& !old(state).active
                &&& final(state).started_from(*old(state), path@)
                &&& reply@ == started_reply(path@)
            },
            Err(message) => {
                &&& old(state).active
                &&& *final(state) == *old(state)
                &&& message@ == "Recording already active"@
            },
        },
{
    if state.active {
        return Err("Recording already active".to_owned());
    }
    state.active = true;
    state.output_path = path.to_owned();
    state.frame_count = 0;
    state.capture_gate = None;
    state.capture_session = None;
    Ok(
        JsonValue::empty_object().with("started", JsonValue::Bool(true)).with(
            "path",
            JsonValue::text(path),
        ),
    )
}

/// Stops the active recording. A recording without frames is stopped too, and is
/// an error.
pub fn recording_stop<Task, Counter, Cancel, Gate, Session>(
    state: &mut RecordingState<Task, Counter, Cancel, Gate, Session>,
) -> (r: Result<JsonValue, String>)
    ensures
        !old(state).active ==> {
            &&& r is Err
            &&& r->Err_0@ == "No recording in progress"@
            &&& *final(state) == *old(state)
        },
        old(state).active ==> final(state).stopped_from(*old(state)),
        old(state).active && old(state).frame_count == 0 ==> {
            &&& r is Err
            &&& r->Err_0@ == "No frames captured"@
        },
        old(state).active && old(state).frame_count > 0 ==> {
            &&& r is Ok
            &&& r->Ok_0@ == stopped_reply(old(state).output_path@, old(state).frame_count)
        },
{
    if !state.active {
        return Err("No recording in progress".to_owned());
    }
    state.active = false;
    state.capture_gate = None;
    state.capture_session = None;
    if state.frame_count == 0 {
        return Err("No frames captured".to_owned());
    }
    Ok(
        JsonValue::empty_object().with("path", JsonValue::text(state.output_path.as_str())).with(
            "frames",
            JsonValue::Number(JsonNumber::Unsigned(state.frame_count)),
        ),
    )
}

/// Discards the active recording.
pub fn recording_abort<Task, Counter, Cancel, Gate, Session>(
    state: &mut RecordingState<Task, Counter, Cancel, Gate, Session>,
) -> (r: Result<JsonValue, String>)
    ensures
        match r {
            Ok(reply) => {
                &&& old(state).active
                &&& final(state).aborted_from(*old(state))
                &&& reply@ == aborted_reply(old(state).output_path@)
            },
            Err(message) => {
                &&& !old(state).active
                &&& *final(state) == *old(state)
                &&& message@ == "No recording in progress"@
            },
        },
{
    if !state.active {
        return Err("No recording in progress".to_owned());
    }
    let path = state.output_path.clone();
    state.active = false;
    state.output_path = String::new();
    state.frame_count = 0;
    state.capture_gate = None;
    state.capture_session = None;
    Ok(
        JsonValue::empty_object().with("aborted", JsonValue::Bool(true)).with(
            "path",
            JsonValue::text(path.as_str()),
        ),
    )
}

/// The path of a recording that was stopped with frames in it.
proof fn lemma_stopped_reply_path(path: Seq<char>, frames: u64)
    ensures
        stopped_reply(path, frames).member("path"@) == Some(Json::Text(path)),
{
    let members = stopped_reply(path, frames)->Object_0;
    assert(members[0] == ("path"@, Json::Text(path)));
    assert(lookup(members, "path"@) == Some(Json::Text(path)));
}

/// Stops the active recording, if there is one, and starts a new one to `path`.
/// The reply names the file that was saved by this.
pub fn recording_restart<Task, Counter, Cancel, Gate, Session>(
    state: &mut RecordingState<Task, Counter, Cancel, Gate, Session>,
    path: &str,
) -> (r: Result<JsonValue, String>)
    ensures
        final(state).started_from(*old(state), path@),
        r is Ok,
        r->Ok_0@ == restarted_reply(
            if old(state).active && old(state).frame_count > 0 {
                Some(old(state).output_path@)
            } else {
                None
            },
            path@,
        ),
{
    let previous: JsonValue = if state.active {
        match recording_stop(state) {
            Ok(reply) => {
                proof {
                    lemma_stopped_reply_path(old(state).output_path@, old(state).frame_count);
                }
                match reply.get("path") {
                    Some(saved) => match saved.as_str() {
                        Some(text) => JsonValue::text(text),
                        None => JsonValue::Null,
                    },
                    None => JsonValue::Null,
                }
            },
            Err(_) => JsonValue::Null,
        }
    } else {
        JsonValue::Null
    };
    match recording_start(state, path) {
        Ok(_) => {},
        Err(message) => return Err(message),
    }
    Ok(
        JsonValue::empty_object().with("restarted", JsonValue::Bool(true)).with(
            "previousPath",
            previous,
        ).with("path", JsonValue::text(path)),
    )
}

/// A restart is a stop and a start: whatever was recorded before, the new recording
/// begins as one that was started then.
pub proof fn restart_is_stop_and_start<Task, Counter, Cancel, Gate, Session>(
    before: RecordingState<Task, Counter, Cancel, Gate, Session>,
    stopped: RecordingState<Task, Counter, Cancel, Gate, Session>,
    started: RecordingState<Task, Counter, Cancel, Gate, Session>,
    path: Seq<char>,
)
    requires
        stopped.stopped_from(before),
        started.started_from(stopped, path),
    ensures
        started.started_from(before, path),
{
}

/// A discarded recording leaves nothing behind: a recording that is started after it
/// begins as if there had been none.
pub proof fn abort_leaves_nothing_behind<Task, Counter, Cancel, Gate, Session>(
    before: RecordingState<Task, Counter, Cancel, Gate, Session>,
    aborted: RecordingState<Task, Counter, Cancel, Gate, Session>,
    started: RecordingState<Task, Counter, Cancel, Gate, Session>,
    path: Seq<char>,
)
    requires
        aborted.aborted_from(before),
        started.started_from(aborted, path),
    ensures
        !aborted.active,
        aborted.output_path@.len() == 0,
        aborted.frame_count == 0,
        started.started_from(before, path),
{
}

/// Activity gate for demo recordings. Normal recordings capture wall-clock time
/// continuously; demo recordings only capture while a browser action or a
/// recording effect is visually active.
#[derive(Debug)]
pub struct RecordingCaptureGate {
    /// The capture gate is open before this reading.
    pub active_until: Option<TimePoint>,
}

impl RecordingCaptureGate {
    /// The capture gate is open at `now`.
    pub open spec fn open_at(self, now: TimePoint) -> bool {
        self.active_until is Some && self.active_until->0.nanos > now.nanos
    }

    /// Open for `duration` from `now` on, and for as long as before.
    pub open spec fn activated(self, duration: TimeSpan, now: TimePoint) -> Self {
        let until = now.nanos + duration.nanos;
        if duration.nanos == 0 {
            self
        } else if self.active_until is Some && self.active_until->0.nanos >= until {
            self
        } else {
            RecordingCaptureGate { active_until: Some(TimePoint { nanos: until as u128 }) }
        }
    }

    /// A closed gate.
    pub fn new_paused() -> (r: Self)
        ensures
            r.active_until is None,
    {
        RecordingCaptureGate { active_until: None }
    }

    /// Opens the capture gate for `duration` from `now` on; it never closes earlier for
    /// that. Says whether a waiting capture is to be woken.
    pub fn activate_for(&mut self, duration: TimeSpan, now: TimePoint) -> (wake: bool)
        requires
            now.nanos + duration.nanos <= u128::MAX,
        ensures
            wake == (duration.nanos > 0),
            *final(self) == old(self).activated(duration, now),
    {
        if duration.is_zero() {
            return false;
        }
        let until = now.plus(duration);
        let extend = match self.active_until {
            Some(current) => until.is_after(current),
            None => true,
        };
        if extend {
            self.active_until = Some(until);
        }
        true
    }

    /// Whether the capture gate is open at `now`.
    pub fn is_active(&self, now: TimePoint) -> (r: bool)
        ensures
            r == self.open_at(now),
    {
        match self.active_until {
            Some(until) => until.is_after(now),
            None => false,
        }
    }
}

/// A gate that is activated is open for that long, and never closes earlier for it;
/// it is open at no other time.
pub proof fn activation_extends_the_opening(
    gate: RecordingCaptureGate,
    duration: TimeSpan,
    now: TimePoint,
    at: TimePoint,
)
    requires
        now.nanos + duration.nanos <= u128::MAX,
    ensures
        gate.open_at(at) ==> gate.activated(duration, now).open_at(at),
        at.nanos < now.nanos + duration.nanos && duration.nanos > 0 ==> gate.activated(
            duration,
            now,
        ).open_at(at),
        gate.activated(duration, now).open_at(at) ==> gate.open_at(at) || at.nanos < now.nanos
            + duration.nanos,
{
}

/// What is said of a rate outside the supported range.
pub open spec fn fps_message(fps: u32) -> Seq<char> {
    "fps must be between "@ + decimal(MIN_CAPTURE_FPS as nat) + " and "@ + decimal(
        MAX_CAPTURE_FPS as nat,
    ) + " (got "@ + decimal(fps as nat) + ")"@
}

/// Accepts a rate in the supported range as it is and refuses every other one.
pub fn validate_fps(fps: u32) -> (r: Result<u32, String>)
    ensures
        match r {
            Ok(rate) => MIN_CAPTURE_FPS <= fps <= MAX_CAPTURE_FPS && rate == fps,
            Err(message) => !(MIN_CAPTURE_FPS <= fps <= MAX_CAPTURE_FPS) && message@ == fps_message(
                fps,
            ),
        },
{
    if fps < MIN_CAPTURE_FPS || fps > MAX_CAPTURE_FPS {
        let mut message = "fps must be between ".to_owned();
        message.append(decimal_text(MIN_CAPTURE_FPS as u64).as_str());
        message.append(" and ");
        message.append(decimal_text(MAX_CAPTURE_FPS as u64).as_str());
        message.append(" (got ");
        message.append(decimal_text(fps as u64).as_str());
        message.append(")");
        return Err(message);
    }
    Ok(fps)
}

/// A program and its arguments.
#[derive(Debug)]
pub struct EncoderCommand {
    pub program: String,
    pub args: Vec<String>,
}

/// The characters of each argument.
pub open spec fn arg_texts(args: Seq<String>) -> Seq<Seq<char>> {
    args.map_values(|a: String| a@)
}

/// The codec that fits the name of the output file.
pub open spec fn codec_args(output_path: Seq<char>) -> Seq<Seq<char>> {
    if is_tail(output_path, ".webm"@) {
        seq!["-c:v"@, "libvpx"@, "-crf"@, "30"@, "-b:v"@, "1M"@]
    } else {
        seq!["-c:v"@, "libx264"@, "-preset"@, "ultrafast"@]
    }
}

/// The encoder's arguments: JPEG images from standard input at the given rate,
/// padded to even sides, into the output file.
pub open spec fn encoder_args(output_path: Seq<char>, fps: u32) -> Seq<Seq<char>> {
    seq![
        "-y"@,
        "-avioflags"@,
        "direct"@,
        "-fpsprobesize"@,
        "0"@,
        "-probesize"@,
        "32"@,
        "-analyzeduration"@,
        "0"@,
        "-f"@,
        "image2pipe"@,
        "-c:v"@,
        "mjpeg"@,
        "-framerate"@,
        decimal(fps as nat),
        "-i"@,
        "pipe:0"@,
        "-vf"@,
        "pad=ceil(iw/2)*2:ceil(ih/2)*2"@,
    ] + codec_args(output_path) + seq!["-pix_fmt"@, "yuv420p"@, "-threads"@, "1"@, output_path]
}

fn add_arg(args: &mut Vec<String>, text: &str)
    ensures
        arg_texts(final(args)@) == arg_texts(old(args)@).push(text@),
{
    args.push(text.to_owned());
    assert(arg_texts(args@) =~= arg_texts(old(args)@).push(text@));
}

/// The command line that encodes a stream of JPEG images into `output_path`.
pub fn build_ffmpeg_command(output_path: &str, fps: u32) -> (r: EncoderCommand)
    ensures
        r.program@ == "ffmpeg"@,
        arg_texts(r.args@) == encoder_args(output_path@, fps),
{
    let mut args: Vec<String> = Vec::new();
    assert(arg_texts(args@) =~= Seq::empty());
    add_arg(&mut args, "-y");
    add_arg(&mut args, "-avioflags");
    add_arg(&mut args, "direct");
    add_arg(&mut args, "-fpsprobesize");
    add_arg(&mut args, "0");
    add_arg(&mut args, "-probesize");
    add_arg(&mut args, "32");
    add_arg(&mut args, "-analyzeduration");
    add_arg(&mut args, "0");
    add_arg(&mut args, "-f");
    add_arg(&mut args, "image2pipe");
    add_arg(&mut args, "-c:v");
    add_arg(&mut args, "mjpeg");
    add_arg(&mut args, "-framerate");
    add_arg(&mut args, decimal_text(fps as u64).as_str());
    add_arg(&mut args, "-i");
    add_arg(&mut args, "pipe:0");
    add_arg(&mut args, "-vf");
    add_arg(&mut args, "pad=ceil(iw/2)*2:ceil(ih/2)*2");
    let ghost input = arg_texts(args@);
    if ends_with(output_path, ".webm") {
        add_arg(&mut args, "-c:v");
        add_arg(&mut args, "libvpx");
        add_arg(&mut args, "-crf");
        add_arg(&mut args, "30");
        add_arg(&mut args, "-b:v");
        add_arg(&mut args, "1M");
    } else {
        add_arg(&mut args, "-c:v");
        add_arg(&mut args, "libx264");
        add_arg(&mut args, "-preset");
        add_arg(&mut args, "ultrafast");
    }
    assert(arg_texts(args@) =~= input + codec_args(output_path@));
    add_arg(&mut args, "-pix_fmt");
    add_arg(&mut args, "yuv420p");
    add_arg(&mut args, "-threads");
    add_arg(&mut args, "1");
    add_arg(&mut args, output_path);
    assert(arg_texts(args@) =~= encoder_args(output_path@, fps));
    EncoderCommand { program: "ffmpeg".to_owned(), args }
}

/// The rate itself, or one frame per second where it is zero.
pub open spec fn positive_rate(fps: u32) -> nat {
    if fps == 0 {
        1
    } else {
        fps as nat
    }
}

/// The pause between two captures in whole milliseconds, rounded down: slightly
/// faster than the declared rate rather than slower.
pub fn capture_interval(fps: u32) -> (r: TimeSpan)
    ensures
        r.nanos == millis(1000nat / positive_rate(fps)),
{
    let rate: u64 = if fps == 0 {
        1
    } else {
        fps as u64
    };
    TimeSpan::from_millis(1000 / rate)
}

/// Captures come at the declared rate or slightly faster, never slower: as many
/// pauses as there are frames in a second fit into a second. At every supported rate
/// there is a pause.
pub proof fn captures_keep_up_with_the_rate(fps: u32)
    ensures
        millis(1000nat / positive_rate(fps)) * positive_rate(fps) <= NANOS_PER_SEC,
        fps <= MAX_CAPTURE_FPS ==> millis(1000nat / positive_rate(fps)) > 0,
{
    let rate = positive_rate(fps);
    let pause = 1000nat / rate;
    lemma_fundamental_div_mod(1000, rate as int);
    assert(pause * rate <= 1000) by (nonlinear_arith)
        requires
            1000 == rate * pause + 1000nat % rate,
            1000nat % rate >= 0,
    ;
    assert(millis(pause) * rate == (pause * rate) * 1_000_000) by (nonlinear_arith)
        requires
            millis(pause) == pause * 1_000_000,
    ;
    if fps <= MAX_CAPTURE_FPS {
        lemma_div_is_ordered_by_denominator(1000, rate as int, 60);
    }
}

/// The frames that are due after `nanos` with `frames_written` of them written: as
/// many as keep wall-clock time, at least one, and no more than the catch-up limit.
pub open spec fn due_frames(nanos: nat, fps: u32, frames_written: nat) -> nat {
    let target = frame_periods(nanos, positive_rate(fps)) + 1;
    let missing = if target > frames_written {
        (target - frames_written) as nat
    } else {
        1
    };
    let limit = positive_rate(fps) * MAX_CATCH_UP_SECONDS as nat;
    if missing < limit {
        missing
    } else {
        limit
    }
}

/// One screenshot stands for one frame at least, and never for more than the
/// catch-up limit.
pub proof fn due_frames_are_bounded(nanos: nat, fps: u32, frames_written: nat)
    ensures
        1 <= due_frames(nanos, fps, frames_written) <= positive_rate(fps) * MAX_CATCH_UP_SECONDS,
{
}

/// A recorder that writes what is due, frame after frame, and that never falls
/// further behind than the catch-up limit, has one frame for the start and one for
/// each period that has passed.
pub proof fn due_frames_fill_the_gap(nanos: nat, fps: u32, frames_written: nat)
    requires
        frames_written <= frame_periods(nanos, positive_rate(fps)) < frames_written + positive_rate(
            fps,
        ) * MAX_CATCH_UP_SECONDS,
    ensures
        frames_written + due_frames(nanos, fps, frames_written) == frame_periods(
            nanos,
            positive_rate(fps),
        ) + 1,
{
}

/// A span that can be counted in frames.
pub open spec fn countable(nanos: nat, fps: u32) -> bool {
    &&& nanos / NANOS_PER_SEC as nat <= u64::MAX
    &&& frame_periods(nanos, positive_rate(fps)) < u64::MAX
}

/// Whether the span between two readings can be counted in frames.
pub fn is_countable(started_at: TimePoint, now: TimePoint, fps: u32) -> (r: bool)
    ensures
        r == countable(elapsed_nanos(started_at, now), fps),
{
    let elapsed = now.duration_since(started_at);
    if elapsed.nanos / NANOS_PER_SEC > u64::MAX as u128 {
        return false;
    }
    let rate: u32 = if fps == 0 {
        1
    } else {
        fps
    };
    whole_frames(elapsed, rate) < u64::MAX
}

/// How many frames one screenshot taken at `now` stands for.
pub fn due_frame_count(started_at: TimePoint, now: TimePoint, fps: u32, frames_written: u64) -> (r:
    u64)
    requires
        countable(elapsed_nanos(started_at, now), fps),
    ensures
        r == due_frames(elapsed_nanos(started_at, now), fps, frames_written as nat),
{
    let elapsed = now.duration_since(started_at);
    let rate: u32 = if fps == 0 {
        1
    } else {
        fps
    };
    let target: u64 = whole_frames(elapsed, rate) + 1;
    let limit: u64 = rate as u64 * MAX_CATCH_UP_SECONDS;
    let missing: u64 = if target > frames_written {
        target - frames_written
    } else {
        1
    };
    if missing < limit {
        missing
    } else {
        limit
    }
}

/// What came of waiting for the capture task.
pub enum TaskEnd {
    /// The task ran to its end.
    Finished(Result<(), String>),
    /// The task was lost, for the reason given.
    Lost(String),
}

/// The handles of a capture that is being stopped.
pub struct StoppingCapture<Task, Counter, Cancel> {
    pub cancel: Option<Cancel>,
    pub counter: Option<Counter>,
    pub task: Option<Task>,
}

impl<Task, Counter, Cancel, Gate, Session> RecordingState<Task, Counter, Cancel, Gate, Session> {
    /// Nothing but the handles of the capture task differs from `other`.
    pub open spec fn same_but_handles(self, other: Self) -> bool {
        &&& self.active == other.active
        &&& self.output_path == other.output_path
        &&& self.frame_count == other.frame_count
        &&& self.fps == other.fps
        &&& self.stop_post_roll == other.stop_post_roll
        &&& self.capture_gate == other.capture_gate
        &&& self.capture_session == other.capture_session
    }

    /// Takes the handles of the capture task out of the state, for the caller to
    /// send the cancel signal and to wait for the task.
    pub fn begin_stop(&mut self) -> (r: StoppingCapture<Task, Counter, Cancel>)
        ensures
            r.cancel == old(self).cancel_tx,
            r.counter == old(self).shared_frame_count,
            r.task == old(self).capture_task,
            final(self).cancel_tx is None,
            final(self).shared_frame_count is None,
            final(self).capture_task is None,
            final(self).same_but_handles(*old(self)),
    {
        let cancel = self.cancel_tx.take();
        let counter = self.shared_frame_count.take();
        let task = self.capture_task.take();
        StoppingCapture { cancel, counter, task }
    }

    /// Takes over the count of the frames that were written, where there was a
    /// counter, and says what came of the task, where there was one.
    pub fn finish_stop(&mut self, end: Option<TaskEnd>, counted: Option<u64>) -> (r: Result<
        (),
        String,
    >)
        ensures
            final(self).frame_count == match counted {
                Some(n) => n,
                None => old(self).frame_count,
            },
            *final(self) == (RecordingState {
                frame_count: final(self).frame_count,
                ..*old(self)
            }),
            match end {
                None => r is Ok,
                Some(TaskEnd::Finished(outcome)) => r == outcome,
                Some(TaskEnd::Lost(reason)) => r is Err && r->Err_0@ == "Recording task panicked: "@
                    + reason@,
            },
    {
        match counted {
            Some(n) => {
                self.frame_count = n;
            },
            None => {},
        }
        match end {
            None => Ok(()),
            Some(TaskEnd::Finished(outcome)) => outcome,
            Some(TaskEnd::Lost(reason)) => {
                let mut message = "Recording task panicked: ".to_owned();
                message.append(reason.as_str());
                Err(message)
            },
        }
    }
}

/// What is said when the encoder cannot be run.
pub fn encoder_start_error(reason: &str) -> (r: String)
    ensures
        r@ == "ffmpeg not found or failed to execute: "@ + reason@
            + ". Install ffmpeg to enable recording."@,
{
    let mut message = "ffmpeg not found or failed to execute: ".to_owned();
    message.append(reason);
    message.append(". Install ffmpeg to enable recording.");
    message
}

/// What is said when the end of the encoder cannot be waited for.
pub fn encoder_wait_error(reason: &str) -> (r: String)
    ensures
        r@ == "ffmpeg wait failed: "@ + reason@,
{
    let mut message = "ffmpeg wait failed: ".to_owned();
    message.append(reason);
    message
}

/// How many characters of the encoder's messages an error of a page recording
/// repeats.
pub const ENCODER_MESSAGE_CHARS: usize = 300;

/// What came of the encoder: its own messages, cut short, where it failed.
pub fn encoder_outcome(success: bool, messages: &str) -> (r: Result<(), String>)
    ensures
        match r {
            Ok(_) => success,
            Err(message) => !success && message@ == "ffmpeg failed: "@ + first_chars(
                messages@,
                ENCODER_MESSAGE_CHARS as nat,
            ),
        },
{
    if success {
        return Ok(());
    }
    let mut message = "ffmpeg failed: ".to_owned();
    message.append(take_chars(messages, ENCODER_MESSAGE_CHARS).as_str());
    Err(message)
}

} // verus!
