//! Laws of the capture loop.

use vstd::prelude::*;

use crate::capture::{
    after_writes, base64_bytes, page_is_gone, Capture, CaptureEvent, CaptureLoop, CapturePhase,
    Happening,
};
use crate::laws::values::contained_texts_stand_in_between;
use crate::recording::{countable, due_frames};
use crate::time::{elapsed_nanos, TimePoint};

verus! {

/// A loop starts with nothing written and nothing to write, at the rate and with the capture gate
/// that it is given; a gate is asked first, otherwise a tick is waited for.
pub proof fn captures_start_empty(fps: u32, gated: bool)
    ensures
        Capture::initial(fps, gated).fps == fps,
        Capture::initial(fps, gated).gated == gated,
        Capture::initial(fps, gated).started_at is None,
        Capture::initial(fps, gated).segment_frames == 0,
        Capture::initial(fps, gated).total_frames == 0,
        Capture::initial(fps, gated).frame.len() == 0,
        Capture::initial(fps, gated).remaining == 0,
        gated ==> Capture::initial(fps, gated).phase == CapturePhase::AskGate,
        !gated ==> Capture::initial(fps, gated).phase == CapturePhase::AwaitTick,
        Capture::initial(fps, gated).valid(),
{
}

/// What is known of a loop is what it holds.
pub proof fn captures_are_what_they_hold(capture: CaptureLoop)
    ensures
        capture@.phase == capture.phase,
        capture@.gated == capture.gated,
        capture@.fps == capture.fps,
        capture@.started_at == capture.started_at,
        capture@.segment_frames == capture.segment_frames,
        capture@.total_frames == capture.total_frames,
        capture@.frame == capture.frame@,
        capture@.remaining == capture.remaining,
{
}

/// What happened is what is reported.
pub proof fn happenings_are_what_is_reported(event: CaptureEvent)
    ensures
        match event {
            CaptureEvent::Gate(active) => event@ == Happening::Gate(active),
            CaptureEvent::GateOpened => event@ == Happening::GateOpened,
            CaptureEvent::TimerReset => event@ == Happening::TimerReset,
            CaptureEvent::Tick => event@ == Happening::Tick,
            CaptureEvent::Cancelled => event@ == Happening::Cancelled,
            CaptureEvent::Screenshot(Ok(data)) => event@ == Happening::Screenshot(Ok(data@)),
            CaptureEvent::Screenshot(Err(message)) => event@ == Happening::Screenshot(
                Err(message@),
            ),
            CaptureEvent::Clock(now) => event@ == Happening::Clock(now),
            CaptureEvent::Written(ok) => event@ == Happening::Written(ok),
        },
{
}

/// A phase waits for that kind of event.
pub open spec fn waits_for(phase: CapturePhase, event: Happening) -> bool {
    match event {
        Happening::Gate(_) => phase == CapturePhase::AskGate || phase == CapturePhase::AskGateAgain,
        Happening::GateOpened => phase == CapturePhase::AwaitGate,
        Happening::TimerReset => phase == CapturePhase::ResetTimer,
        Happening::Tick => phase == CapturePhase::AwaitTick,
        Happening::Cancelled => phase == CapturePhase::AwaitGate || phase
            == CapturePhase::AwaitTick,
        Happening::Screenshot(_) => phase == CapturePhase::TakeScreenshot,
        Happening::Clock(_) => phase == CapturePhase::ReadClock,
        Happening::Written(_) => phase == CapturePhase::WriteFrame,
    }
}

/// An event that the phase does not wait for changes nothing, and one that it waits for
/// leads on; the rate and the capture gate never change.
pub proof fn only_awaited_events_matter(capture: Capture, event: Happening)
    requires
        capture.phase == CapturePhase::WriteFrame ==> capture.remaining > 0,
    ensures
        !waits_for(capture.phase, event) ==> capture.after(event) == capture,
        waits_for(capture.phase, event) ==> capture.after(event) != capture,
        capture.after(event).fps == capture.fps,
        capture.after(event).gated == capture.gated,
{
}

/// A tick is followed by a screenshot where nothing pauses the capture, and by a last
/// look at the capture gate where something may; nothing else changes by it.
pub proof fn ticks_lead_to_screenshots(capture: Capture)
    requires
        capture.phase == CapturePhase::AwaitTick,
    ensures
        !capture.gated ==> capture.after(Happening::Tick) == (Capture {
            phase: CapturePhase::TakeScreenshot,
            ..capture
        }),
        capture.gated ==> capture.after(Happening::Tick) == (Capture {
            phase: CapturePhase::AskGateAgain,
            ..capture
        }),
        capture.gated ==> capture.after(Happening::Tick).after(Happening::Gate(true)) == (Capture {
            phase: CapturePhase::TakeScreenshot,
            ..capture
        }),
{
}

/// An open gate lets the round go on as it is. A closed one ends the segment, and the loop
/// waits for it to open, then sets the timer anew, then waits for a tick.
pub proof fn closed_gates_pause_the_capture(capture: Capture)
    requires
        capture.phase == CapturePhase::AskGate,
    ensures
        capture.after(Happening::Gate(true)) == (Capture {
            phase: CapturePhase::AwaitTick,
            ..capture
        }),
        capture.after(Happening::Gate(false)) == (Capture {
            phase: CapturePhase::AwaitGate,
            started_at: None,
            segment_frames: 0,
            ..capture
        }),
        capture.after(Happening::Gate(false)).after(Happening::GateOpened) == (Capture {
            phase: CapturePhase::ResetTimer,
            started_at: None,
            segment_frames: 0,
            ..capture
        }),
        capture.after(Happening::Gate(false)).after(Happening::GateOpened).after(
            Happening::TimerReset,
        ) == (Capture {
            phase: CapturePhase::AwaitTick,
            started_at: None,
            segment_frames: 0,
            ..capture
        }),
        capture.after(Happening::Gate(false)).after(Happening::Cancelled).phase
            == CapturePhase::Finished,
{
}

/// A gate that has closed by the tick ends the segment, and the round begins again with
/// the capture gate, without a screenshot.
pub proof fn late_closing_skips_the_screenshot(capture: Capture)
    requires
        capture.phase == CapturePhase::AskGateAgain,
        capture.gated,
    ensures
        ({
            let after = capture.after(Happening::Gate(false));
            &&& after.phase == CapturePhase::AskGate
            &&& after.started_at is None
            &&& after.segment_frames == 0
            &&& after.total_frames == capture.total_frames
            &&& after.remaining == 0
        }),
{
}

/// `after` is at the start of a round, with the segment and the counts of `before`.
pub open spec fn begins_a_round(after: Capture, before: Capture) -> bool {
    &&& after.phase == if before.gated {
        CapturePhase::AskGate
    } else {
        CapturePhase::AwaitTick
    }
    &&& after.started_at == before.started_at
    &&& after.segment_frames == before.segment_frames
    &&& after.total_frames == before.total_frames
    &&& after.remaining == 0
}

/// A screenshot that failed, or that cannot be decoded, is skipped: the next round begins,
/// and nothing is written or counted. One that says that the page is gone ends the loop.
pub proof fn failed_screenshots_are_skipped(
    capture: Capture,
    data: Seq<char>,
    message: Seq<char>,
    before: Seq<char>,
    behind: Seq<char>,
)
    requires
        capture.phase == CapturePhase::TakeScreenshot,
    ensures
        base64_bytes(data) is None ==> begins_a_round(
            capture.after(Happening::Screenshot(Ok(data))),
            capture,
        ),
        (forall|a: Seq<char>, b: Seq<char>|
            message != #[trigger] (a + "Target closed"@ + b)) && (forall|
            a: Seq<char>,
            b: Seq<char>,
        |
            message != #[trigger] (a + "not found"@ + b)) ==> begins_a_round(
            capture.after(Happening::Screenshot(Err(message))),
            capture,
        ),
        capture.after(
            Happening::Screenshot(Err(before + "Target closed"@ + behind)),
        ).phase == CapturePhase::Finished,
        capture.after(Happening::Screenshot(Err(before + "not found"@ + behind))).phase
            == CapturePhase::Finished,
        capture.after(Happening::Screenshot(Err(message))).total_frames == capture.total_frames,
{
    contained_texts_stand_in_between(message, "Target closed"@);
    contained_texts_stand_in_between(message, "not found"@);
    contained_texts_stand_in_between(before + "Target closed"@ + behind, "Target closed"@);
    contained_texts_stand_in_between(before + "not found"@ + behind, "not found"@);
}

/// The first frame of a segment is written once, and its time is the start of the segment.
/// A later frame leaves that start as it is, and is written as often as frames are due
/// since then.
pub proof fn frames_are_due_since_the_segment_started(capture: Capture, now: TimePoint)
    requires
        capture.phase == CapturePhase::ReadClock,
        countable(elapsed_nanos(capture.segment_start(now), now), capture.fps),
    ensures
        ({
            let stamped = capture.after(Happening::Clock(now));
            &&& stamped.phase == CapturePhase::WriteFrame
            &&& capture.started_at is None ==> stamped.started_at == Some(now)
            &&& capture.started_at is None ==> stamped.remaining == due_frames(
                0,
                capture.fps,
                capture.segment_frames as nat,
            )
            &&& capture.started_at is Some ==> stamped.started_at == capture.started_at
            &&& capture.started_at is Some && capture.started_at->0.nanos <= now.nanos
                ==> stamped.remaining == due_frames(
                (now.nanos - capture.started_at->0.nanos) as nat,
                capture.fps,
                capture.segment_frames as nat,
            )
            &&& capture.started_at is Some && capture.started_at->0.nanos > now.nanos
                ==> stamped.remaining == due_frames(
                0,
                capture.fps,
                capture.segment_frames as nat,
            )
            &&& stamped.segment_frames == capture.segment_frames
            &&& stamped.total_frames == capture.total_frames
        }),
{
    crate::recording::due_frames_are_bounded(
        elapsed_nanos(capture.segment_start(now), now),
        capture.fps,
        capture.segment_frames as nat,
    );
}

proof fn lemma_writing(state: Capture, n: nat)
    requires
        state.phase == CapturePhase::WriteFrame,
        n <= state.remaining,
        state.segment_frames + state.remaining <= u64::MAX,
    ensures
        n < state.remaining ==> {
            &&& after_writes(state, n).phase == CapturePhase::WriteFrame
            &&& after_writes(state, n).frame == state.frame
            &&& after_writes(state, n).remaining == state.remaining - n
        },
        n > 0 && n == state.remaining ==> after_writes(state, n).phase == if state.gated {
            CapturePhase::AskGate
        } else {
            CapturePhase::AwaitTick
        },
        after_writes(state, n).segment_frames == state.segment_frames + n,
        after_writes(state, n).gated == state.gated,
        after_writes(state, n).started_at == state.started_at,
    decreases n,
{
    if n > 0 {
        lemma_writing(state, (n - 1) as nat);
    }
}

/// What is written is the screenshot that was taken: from a screenshot that decodes to
/// some bytes, every write up to the next round is one of these bytes, and each counts as
/// a frame. The next round begins when all copies are written.
pub proof fn what_is_written_is_the_screenshot(
    capture: Capture,
    data: Seq<char>,
    bytes: Seq<u8>,
    now: TimePoint,
    n: nat,
)
    requires
        capture.phase == CapturePhase::TakeScreenshot,
        base64_bytes(data) == Some(bytes),
        countable(elapsed_nanos(capture.segment_start(now), now), capture.fps),
        capture.segment_frames + capture.after(Happening::Screenshot(Ok(data))).after(
            Happening::Clock(now),
        ).remaining <= u64::MAX,
    ensures
        ({
            let taken = capture.after(Happening::Screenshot(Ok(data)));
            let stamped = taken.after(Happening::Clock(now));
            &&& taken.phase == CapturePhase::ReadClock
            &&& taken.frame == bytes
            &&& taken.started_at == capture.started_at
            &&& taken.segment_frames == capture.segment_frames
            &&& taken.total_frames == capture.total_frames
            &&& stamped.phase == CapturePhase::WriteFrame
            &&& stamped.frame == bytes
            &&& stamped.remaining > 0
            &&& n < stamped.remaining ==> after_writes(stamped, n).phase
                == CapturePhase::WriteFrame && after_writes(stamped, n).frame == bytes
            &&& n <= stamped.remaining ==> after_writes(stamped, n).segment_frames
                == capture.segment_frames + n
            &&& n == stamped.remaining ==> after_writes(stamped, n).phase == if capture.gated {
                CapturePhase::AskGate
            } else {
                CapturePhase::AwaitTick
            }
        }),
{
    let taken = capture.after(Happening::Screenshot(Ok(data)));
    let stamped = taken.after(Happening::Clock(now));
    crate::recording::due_frames_are_bounded(
        elapsed_nanos(capture.segment_start(now), now),
        capture.fps,
        capture.segment_frames as nat,
    );
    if n <= stamped.remaining {
        lemma_writing(stamped, n);
    }
}

/// A frame that was written counts once, in the segment and in all, and one copy fewer is
/// left; the same bytes are written next, until none is left and a round begins. A frame
/// that could not be written ends the loop and does not count.
pub proof fn written_frames_count_once(capture: Capture)
    requires
        capture.phase == CapturePhase::WriteFrame,
        capture.remaining > 0,
        capture.segment_frames < u64::MAX,
    ensures
        ({
            let written = capture.after(Happening::Written(true));
            &&& written.segment_frames == capture.segment_frames + 1
            &&& capture.total_frames < u64::MAX ==> written.total_frames == capture.total_frames + 1
            &&& written.started_at == capture.started_at
            &&& written.remaining == capture.remaining - 1
            &&& capture.remaining > 1 ==> written.phase == CapturePhase::WriteFrame
                && written.frame == capture.frame
            &&& capture.remaining == 1 ==> written.phase == if capture.gated {
                CapturePhase::AskGate
            } else {
                CapturePhase::AwaitTick
            }
        }),
        ({
            let failed = capture.after(Happening::Written(false));
            &&& failed.phase == CapturePhase::Finished
            &&& failed.segment_frames == capture.segment_frames
            &&& failed.total_frames == capture.total_frames
        }),
{
}

/// A cancel ends the loop wherever it waits for a tick or for the capture gate, and what was
/// counted stays.
pub proof fn cancels_keep_the_count(capture: Capture)
    requires
        capture.phase == CapturePhase::AwaitTick || capture.phase == CapturePhase::AwaitGate,
    ensures
        capture.after(Happening::Cancelled).phase == CapturePhase::Finished,
        capture.after(Happening::Cancelled).total_frames == capture.total_frames,
{
}

/// Every event can be taken, but for a clock reading past counting and for a frame past
/// the range of the counter.
pub proof fn ordinary_events_can_be_taken(capture: Capture, event: Happening)
    ensures
        !(event is Clock) && event != Happening::Written(true) ==> capture.can_take(event),
        capture.segment_frames < u64::MAX ==> capture.can_take(Happening::Written(true)),
        event is Clock && countable(
            elapsed_nanos(capture.segment_start(event->Clock_0), event->Clock_0),
            capture.fps,
        ) ==> capture.can_take(event),
{
}

/// A message says that the page is gone where it speaks of a closed target or of something
/// that is not found.
pub proof fn gone_pages_are_recognised(message: Seq<char>)
    ensures
        page_is_gone(message) <==> (exists|a: Seq<char>, b: Seq<char>|
            message == #[trigger] (a + "Target closed"@ + b)) || (exists|
            a: Seq<char>,
            b: Seq<char>,
        |
            message == #[trigger] (a + "not found"@ + b)),
{
    contained_texts_stand_in_between(message, "Target closed"@);
    contained_texts_stand_in_between(message, "not found"@);
}

} // verus!
