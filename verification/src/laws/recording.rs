//! Laws of the recorder's state, the encoder's command line and the pace of frames.

use vstd::prelude::*;

use crate::frame_clock::{
    frame_periods, frame_periods_are_within_one, frame_periods_never_go_back,
};
use crate::json::{Json, Numeral};
use crate::laws::values::{members_are_found_under_their_names, tails_stand_at_the_end};
use crate::recording::{
    aborted_reply, arg_texts, countable, due_frames, encoder_args, fps_message,
    positive_rate, restarted_reply, started_reply, stopped_reply, RecordingCaptureGate,
    RecordingState,
};
use crate::text::decimal;
use crate::time::{millis, TimePoint, TimeSpan};

verus! {

/// A recording that was started is active, goes to its path, has no frames yet and neither
/// gate nor session, and keeps the rate, the handles and the post-roll.
pub proof fn started_recordings_begin_afresh<Task, Counter, Cancel, Gate, Session>(
    before: RecordingState<Task, Counter, Cancel, Gate, Session>,
    started: RecordingState<Task, Counter, Cancel, Gate, Session>,
    path: Seq<char>,
)
    requires
        started.started_from(before, path),
    ensures
        started.active,
        started.output_path@ == path,
        started.frame_count == 0,
        started.capture_gate is None,
        started.capture_session is None,
        started.fps == before.fps,
        started.capture_task == before.capture_task,
        started.shared_frame_count == before.shared_frame_count,
        started.cancel_tx == before.cancel_tx,
        started.stop_post_roll == before.stop_post_roll,
{
}

/// A recording that was stopped is inactive and lets go of its gate and its session; its
/// path and its frames stay to be told, as do rate, handles and post-roll.
pub proof fn stopped_recordings_keep_their_result<Task, Counter, Cancel, Gate, Session>(
    before: RecordingState<Task, Counter, Cancel, Gate, Session>,
    stopped: RecordingState<Task, Counter, Cancel, Gate, Session>,
)
    requires
        stopped.stopped_from(before),
    ensures
        !stopped.active,
        stopped.output_path@ == before.output_path@,
        stopped.frame_count == before.frame_count,
        stopped.capture_gate is None,
        stopped.capture_session is None,
        stopped.fps == before.fps,
        stopped.capture_task == before.capture_task,
        stopped.shared_frame_count == before.shared_frame_count,
        stopped.cancel_tx == before.cancel_tx,
        stopped.stop_post_roll == before.stop_post_roll,
{
}

/// A recording that was discarded is inactive and has neither path nor frames, gate nor
/// session; rate, handles and post-roll stay.
pub proof fn aborted_recordings_keep_nothing<Task, Counter, Cancel, Gate, Session>(
    before: RecordingState<Task, Counter, Cancel, Gate, Session>,
    aborted: RecordingState<Task, Counter, Cancel, Gate, Session>,
)
    requires
        aborted.aborted_from(before),
    ensures
        !aborted.active,
        aborted.output_path@.len() == 0,
        aborted.frame_count == 0,
        aborted.capture_gate is None,
        aborted.capture_session is None,
        aborted.fps == before.fps,
        aborted.capture_task == before.capture_task,
        aborted.shared_frame_count == before.shared_frame_count,
        aborted.cancel_tx == before.cancel_tx,
        aborted.stop_post_roll == before.stop_post_roll,
{
}

/// Taking the handles of the capture task out of the state touches nothing else in it.
pub proof fn stopping_touches_the_handles_only<Task, Counter, Cancel, Gate, Session>(
    before: RecordingState<Task, Counter, Cancel, Gate, Session>,
    after: RecordingState<Task, Counter, Cancel, Gate, Session>,
)
    requires
        after.same_but_handles(before),
    ensures
        after.active == before.active,
        after.output_path == before.output_path,
        after.frame_count == before.frame_count,
        after.fps == before.fps,
        after.stop_post_roll == before.stop_post_roll,
        after.capture_gate == before.capture_gate,
        after.capture_session == before.capture_session,
{
}

proof fn lemma_reply_names()
    ensures
        "started"@ != "path"@,
        "path"@ != "frames"@,
        "aborted"@ != "path"@,
        "restarted"@ != "previousPath"@,
        "restarted"@ != "path"@,
        "previousPath"@ != "path"@,
{
    reveal_strlit("started");
    reveal_strlit("path");
    reveal_strlit("frames");
    reveal_strlit("aborted");
    reveal_strlit("restarted");
    reveal_strlit("previousPath");
    assert("started"@.len() == 7);
    assert("path"@.len() == 4);
    assert("frames"@.len() == 6);
    assert("aborted"@.len() == 7);
    assert("restarted"@.len() == 9);
    assert("previousPath"@.len() == 12);
}

proof fn lemma_two_members(first: Seq<char>, one: Json, second: Seq<char>, two: Json)
    requires
        first != second,
    ensures
        Json::empty_object().with(first, one).with(second, two)->Object_0.len() == 2,
        Json::empty_object().with(first, one).with(second, two).member(first) == Some(one),
        Json::empty_object().with(first, one).with(second, two).member(second) == Some(two),
{
    let none = Json::empty_object();
    let some = none.with(first, one);
    members_are_found_under_their_names(none, first, one, first);
    members_are_found_under_their_names(none, first, one, second);
    members_are_found_under_their_names(some, second, two, first);
    members_are_found_under_their_names(some, second, two, second);
}

/// Every reply names the file it is about: the one that was started, the one that was
/// saved and how many frames it has, the one that was discarded.
pub proof fn replies_name_their_file(path: Seq<char>, frames: u64)
    ensures
        started_reply(path)->Object_0.len() == 2,
        started_reply(path).member("started"@) == Some(Json::Bool(true)),
        started_reply(path).member("path"@) == Some(Json::Text(path)),
        stopped_reply(path, frames)->Object_0.len() == 2,
        stopped_reply(path, frames).member("path"@) == Some(Json::Text(path)),
        stopped_reply(path, frames).member("frames"@) == Some(
            Json::Number(Numeral::Unsigned(frames)),
        ),
        aborted_reply(path)->Object_0.len() == 2,
        aborted_reply(path).member("aborted"@) == Some(Json::Bool(true)),
        aborted_reply(path).member("path"@) == Some(Json::Text(path)),
{
    lemma_reply_names();
    lemma_two_members("started"@, Json::Bool(true), "path"@, Json::Text(path));
    lemma_two_members(
        "path"@,
        Json::Text(path),
        "frames"@,
        Json::Number(Numeral::Unsigned(frames)),
    );
    lemma_two_members("aborted"@, Json::Bool(true), "path"@, Json::Text(path));
}

/// The reply to a restart names the new file, and the old one where one was saved.
pub proof fn restarts_name_both_files(previous: Option<Seq<char>>, path: Seq<char>)
    ensures
        restarted_reply(previous, path)->Object_0.len() == 3,
        restarted_reply(previous, path).member("restarted"@) == Some(Json::Bool(true)),
        restarted_reply(previous, path).member("path"@) == Some(Json::Text(path)),
        restarted_reply(previous, path).member("previousPath"@) == Some(
            match previous {
                Some(saved) => Json::Text(saved),
                None => Json::Null,
            },
        ),
{
    lemma_reply_names();
    let saved = match previous {
        Some(saved) => Json::Text(saved),
        None => Json::Null,
    };
    let two = Json::empty_object().with("restarted"@, Json::Bool(true)).with(
        "previousPath"@,
        saved,
    );
    lemma_two_members("restarted"@, Json::Bool(true), "previousPath"@, saved);
    members_are_found_under_their_names(two, "path"@, Json::Text(path), "restarted"@);
    members_are_found_under_their_names(two, "path"@, Json::Text(path), "previousPath"@);
    members_are_found_under_their_names(two, "path"@, Json::Text(path), "path"@);
    let none = Json::empty_object();
    members_are_found_under_their_names(none, "restarted"@, Json::Bool(true), "path"@);
    members_are_found_under_their_names(
        none.with("restarted"@, Json::Bool(true)),
        "previousPath"@,
        saved,
        "path"@,
    );
}

/// A refused rate is told together with the range that is supported.
pub proof fn refused_rates_are_told(fps: u32)
    ensures
        fps_message(fps) == "fps must be between "@ + decimal(1) + " and "@ + decimal(60)
            + " (got "@ + decimal(fps as nat) + ")"@,
{
}

/// A gate is open exactly before the reading that it holds; activating it sets that to the
/// end of the activation, unless it held a later one.
pub proof fn gates_hold_the_latest_end(
    gate: RecordingCaptureGate,
    duration: TimeSpan,
    now: TimePoint,
    at: TimePoint,
)
    requires
        now.nanos + duration.nanos <= 0xffff_ffff_ffff_ffff_ffff_ffff_ffff_ffff,
    ensures
        gate.open_at(at) <==> gate.active_until is Some && at.nanos < gate.active_until->0.nanos,
        duration.nanos == 0 ==> gate.activated(duration, now) == gate,
        duration.nanos > 0 ==> gate.activated(duration, now).active_until is Some,
        duration.nanos > 0 && gate.active_until is None ==> gate.activated(
            duration,
            now,
        ).active_until->0.nanos == now.nanos + duration.nanos,
        duration.nanos > 0 && gate.active_until is Some ==> gate.activated(
            duration,
            now,
        ).active_until->0.nanos == if gate.active_until->0.nanos > now.nanos + duration.nanos {
            gate.active_until->0.nanos as int
        } else {
            now.nanos + duration.nanos
        },
{
}

/// Whatever the file is called, the encoder reads JPEG images from its standard input at
/// the given rate: the argument behind `-framerate` is that rate in decimal.
pub proof fn encoders_read_at_the_given_rate(output_path: Seq<char>, fps: u32)
    ensures
        encoder_args(output_path, fps).len() > 19,
        encoder_args(output_path, fps)[13] == "-framerate"@,
        encoder_args(output_path, fps)[14] == decimal(fps as nat),
        encoder_args(output_path, fps)[15] == "-i"@,
        encoder_args(output_path, fps)[16] == "pipe:0"@,
        encoder_args(output_path, fps).subrange(9, 13) == seq![
            "-f"@,
            "image2pipe"@,
            "-c:v"@,
            "mjpeg"@,
        ],
        encoder_args(output_path, fps).subrange(17, 19) == seq![
            "-vf"@,
            "pad=ceil(iw/2)*2:ceil(ih/2)*2"@,
        ],
{
}

/// What the encoder is told of its input depends on nothing but the rate, and that in one
/// argument only: not on the name of the file.
pub proof fn encoder_input_depends_on_the_rate_alone(
    path: Seq<char>,
    fps: u32,
    other_path: Seq<char>,
    other_fps: u32,
    i: int,
)
    requires
        0 <= i < 19,
    ensures
        encoder_args(path, fps)[i] == encoder_args(other_path, fps)[i],
        i != 14 ==> encoder_args(path, fps)[i] == encoder_args(path, other_fps)[i],
        encoder_args(path, fps).take(9) == seq![
            "-y"@,
            "-avioflags"@,
            "direct"@,
            "-fpsprobesize"@,
            "0"@,
            "-probesize"@,
            "32"@,
            "-analyzeduration"@,
            "0"@,
        ],
{
    assert(encoder_args(path, fps).take(9) =~= seq![
        "-y"@,
        "-avioflags"@,
        "direct"@,
        "-fpsprobesize"@,
        "0"@,
        "-probesize"@,
        "32"@,
        "-analyzeduration"@,
        "0"@,
    ]);
}

/// The file is what comes last, and its name decides the codec: VP8 where it ends in
/// `.webm`, H.264 otherwise. The rate plays no part in that.
pub proof fn encoder_output_goes_to_the_file(stem: Seq<char>, path: Seq<char>, fps: u32)
    ensures
        encoder_args(stem + ".webm"@, fps).skip(19) == seq![
            "-c:v"@,
            "libvpx"@,
            "-crf"@,
            "30"@,
            "-b:v"@,
            "1M"@,
            "-pix_fmt"@,
            "yuv420p"@,
            "-threads"@,
            "1"@,
            stem + ".webm"@,
        ],
        (forall|any: Seq<char>| path != #[trigger] (any + ".webm"@)) ==> encoder_args(
            path,
            fps,
        ).skip(19) == seq![
            "-c:v"@,
            "libx264"@,
            "-preset"@,
            "ultrafast"@,
            "-pix_fmt"@,
            "yuv420p"@,
            "-threads"@,
            "1"@,
            path,
        ],
{
    tails_stand_at_the_end(stem + ".webm"@, ".webm"@);
    tails_stand_at_the_end(path, ".webm"@);
}

/// The arguments of a command are told by their characters, in their order.
pub proof fn arguments_are_told_in_order(args: Seq<String>, i: int)
    ensures
        arg_texts(args).len() == args.len(),
        0 <= i < args.len() ==> arg_texts(args)[i] == args[i]@,
{
}

/// The pause between captures is the longest one of whole milliseconds that keeps up with
/// the rate; no rate counts as one frame per second.
pub proof fn pauses_are_as_long_as_the_rate_allows(fps: u32)
    ensures
        ({
            let rate = if fps == 0 {
                1nat
            } else {
                fps as nat
            };
            let pause = millis(1000nat / positive_rate(fps));
            &&& pause * rate <= 1_000_000_000
            &&& (pause + 1_000_000) * rate > 1_000_000_000
        }),
{
    let rate = positive_rate(fps);
    let ms = 1000nat / rate;
    vstd::arithmetic::div_mod::lemma_fundamental_div_mod(1000, rate as int);
    assert(ms * rate <= 1000 && (ms + 1) * rate > 1000) by (nonlinear_arith)
        requires
            1000 == rate * ms + 1000nat % rate,
            0 <= 1000nat % rate < rate,
    ;
    assert(millis(ms) * rate == 1_000_000 * (ms * rate) && (millis(ms) + 1_000_000) * rate
        == 1_000_000 * ((ms + 1) * rate)) by (nonlinear_arith)
        requires
            millis(ms) == ms * 1_000_000,
    ;
}

/// A screenshot stands for the frames that are missing: those that bring the recording to
/// one frame for the start and one for each period that has passed. It stands for one at
/// least, also where none is missing, and for two seconds of frames at most.
pub proof fn screenshots_stand_for_missing_frames(nanos: nat, fps: u32, frames_written: nat)
    ensures
        ({
            let rate = if fps == 0 {
                1nat
            } else {
                fps as nat
            };
            let wanted = frame_periods(nanos, rate) + 1;
            let due = due_frames(nanos, fps, frames_written);
            &&& wanted <= frames_written ==> due == 1
            &&& frames_written < wanted <= frames_written + 2 * rate ==> frames_written + due
                == wanted
            &&& wanted > frames_written + 2 * rate ==> due == 2 * rate
        }),
{
}

/// The longer it takes, the more frames are due; the more are written, the fewer.
pub proof fn due_frames_grow_with_time(
    earlier: nat,
    later: nat,
    fps: u32,
    fewer: nat,
    more: nat,
)
    requires
        earlier <= later,
        later / 1_000_000_000 < vstd::arithmetic::power2::pow2(53),
        fewer <= more,
    ensures
        due_frames(earlier, fps, fewer) <= due_frames(later, fps, fewer),
        due_frames(later, fps, more) <= due_frames(later, fps, fewer),
{
    frame_periods_never_go_back(earlier, later, positive_rate(fps));
}

/// Every span of which the frames can be numbered in 51 bits can be counted.
pub proof fn ordinary_spans_are_countable(nanos: nat, fps: u32)
    requires
        nanos * positive_rate(fps) <= vstd::arithmetic::power2::pow2(51) * 1_000_000_000,
    ensures
        countable(nanos, fps),
{
    let rate = positive_rate(fps);
    let most = vstd::arithmetic::power2::pow2(51);
    vstd::arithmetic::power2::lemma2_to64();
    vstd::arithmetic::power2::lemma2_to64_rest();
    frame_periods_are_within_one(nanos, rate);
    assert(nanos <= most * 1_000_000_000) by (nonlinear_arith)
        requires
            nanos * rate <= most * 1_000_000_000,
            rate >= 1,
    ;
}

} // verus!
