//! The capture loop of a recording, as a state machine. The caller does what the
//! phase says (ask the capture gate, wait, take a screenshot, write a frame) and reports
//! what came of it; the loop decides what comes next.

use base64::Engine;
use vstd::prelude::*;
use vstd::string::*;

use crate::cdp::{jpeg_screenshot, screenshot_command, CdpCommand};
use crate::frame_clock::frame_periods;
use crate::recording::{
    countable, due_frame_count, due_frames, is_countable, positive_rate, MAX_CATCH_UP_SECONDS,
};
use crate::text::{contains, occurs_in};
use crate::time::{elapsed_nanos, TimePoint};

verus! {

/// The JPEG quality of the screenshots of a page.
pub const PAGE_JPEG_QUALITY: u64 = 80;

/// What the loop waits for.
#[derive(Debug, Clone, Copy, PartialEq, Eq, Structural)]
pub enum CapturePhase {
    /// Whether the capture gate is open, at the start of a round.
    AskGate,
    /// The capture gate to open, or a cancel.
    AwaitGate,
    /// The timer to be set anew after a pause.
    ResetTimer,
    /// The next tick, or a cancel.
    AwaitTick,
    /// Whether the capture gate is still open after the tick.
    AskGateAgain,
    /// A screenshot.
    TakeScreenshot,
    /// The time at which the decoded screenshot is at hand.
    ReadClock,
    /// One copy of the frame to be written.
    WriteFrame,
    /// Nothing: the recording is over.
    Finished,
}

/// What the caller reports to the loop.
#[derive(Debug)]
pub enum CaptureEvent {
    Gate(bool),
    GateOpened,
    TimerReset,
    Tick,
    Cancelled,
    /// The screenshot in base64, or the error of the command.
    Screenshot(Result<String, String>),
    Clock(TimePoint),
    /// Whether the frame could be written.
    Written(bool),
}

/// The mathematical content of a [`CaptureEvent`].
pub enum Happening {
    Gate(bool),
    GateOpened,
    TimerReset,
    Tick,
    Cancelled,
    Screenshot(Result<Seq<char>, Seq<char>>),
    Clock(TimePoint),
    Written(bool),
}

impl View for CaptureEvent {
    type V = Happening;

    open spec fn view(&self) -> Happening {
        match self {
            CaptureEvent::Gate(active) => Happening::Gate(*active),
            CaptureEvent::GateOpened => Happening::GateOpened,
            CaptureEvent::TimerReset => Happening::TimerReset,
            CaptureEvent::Tick => Happening::Tick,
            CaptureEvent::Cancelled => Happening::Cancelled,
            CaptureEvent::Screenshot(Ok(data)) => Happening::Screenshot(Ok(data@)),
            CaptureEvent::Screenshot(Err(message)) => Happening::Screenshot(Err(message@)),
            CaptureEvent::Clock(now) => Happening::Clock(*now),
            CaptureEvent::Written(ok) => Happening::Written(*ok),
        }
    }
}

/// The state of a capture loop.
#[derive(Debug)]
pub struct CaptureLoop {
    pub phase: CapturePhase,
    /// Whether a gate pauses the capture.
    pub gated: bool,
    pub fps: u32,
    /// When the current segment started; a pause ends a segment.
    pub started_at: Option<TimePoint>,
    /// The frames written in the current segment.
    pub segment_frames: u64,
    /// All frames written.
    pub total_frames: u64,
    /// The frame that is being written.
    pub frame: Vec<u8>,
    /// How many more copies of it are due.
    pub remaining: u64,
}

/// The mathematical content of a [`CaptureLoop`].
#[verifier::ext_equal]
pub struct Capture {
    pub phase: CapturePhase,
    pub gated: bool,
    pub fps: u32,
    pub started_at: Option<TimePoint>,
    pub segment_frames: u64,
    pub total_frames: u64,
    pub frame: Seq<u8>,
    pub remaining: u64,
}

impl View for CaptureLoop {
    type V = Capture;

    open spec fn view(&self) -> Capture {
        Capture {
            phase: self.phase,
            gated: self.gated,
            fps: self.fps,
            started_at: self.started_at,
            segment_frames: self.segment_frames,
            total_frames: self.total_frames,
            frame: self.frame@,
            remaining: self.remaining,
        }
    }
}

/// What base64 with the standard alphabet and padding decodes `text` to, where it
/// is such a text.
pub uninterp spec fn base64_bytes(text: Seq<char>) -> Option<Seq<u8>>;

/// `base64::engine::general_purpose::STANDARD.decode`: the bytes that the text
/// stands for, or nothing where it is refused.
#[verifier::external_body]
fn decode_base64(text: &str) -> (r: Option<Vec<u8>>)
    ensures
        match r {
            Some(bytes) => base64_bytes(text@) == Some(bytes@),
            None => base64_bytes(text@) is None,
        },
{
    base64::engine::general_purpose::STANDARD.decode(text).ok()
}

/// The page is gone, and no later screenshot can succeed.
pub open spec fn page_is_gone(message: Seq<char>) -> bool {
    occurs_in(message, "Target closed"@) || occurs_in(message, "not found"@)
}

impl Capture {
    /// A loop that is about to start.
    pub open spec fn initial(fps: u32, gated: bool) -> Capture {
        Capture {
            phase: if gated {
                CapturePhase::AskGate
            } else {
                CapturePhase::AwaitTick
            },
            gated,
            fps,
            started_at: None,
            segment_frames: 0,
            total_frames: 0,
            frame: Seq::empty(),
            remaining: 0,
        }
    }

    /// At the start of the next round.
    pub open spec fn next_round(self) -> Capture {
        Capture {
            phase: if self.gated {
                CapturePhase::AskGate
            } else {
                CapturePhase::AwaitTick
            },
            frame: Seq::empty(),
            remaining: 0,
            ..self
        }
    }

    /// Over.
    pub open spec fn finished(self) -> Capture {
        Capture { phase: CapturePhase::Finished, frame: Seq::empty(), remaining: 0, ..self }
    }

    /// Between two segments.
    pub open spec fn segment_ended(self) -> Capture {
        Capture { started_at: None, segment_frames: 0, ..self }
    }

    /// In another phase.
    pub open spec fn at(self, phase: CapturePhase) -> Capture {
        Capture { phase, ..self }
    }

    /// After a screenshot was decoded: a refused one is skipped.
    pub open spec fn decoded(self, bytes: Option<Seq<u8>>) -> Capture {
        match bytes {
            Some(b) => Capture { phase: CapturePhase::ReadClock, frame: b, ..self },
            None => self.next_round(),
        }
    }

    /// The start of the segment that a frame at `now` belongs to.
    pub open spec fn segment_start(self, now: TimePoint) -> TimePoint {
        match self.started_at {
            Some(at) => at,
            None => now,
        }
    }

    /// With the copies of the frame that are due at `now`.
    pub open spec fn stamped(self, now: TimePoint) -> Capture {
        let start = self.segment_start(now);
        Capture {
            phase: CapturePhase::WriteFrame,
            started_at: Some(start),
            remaining: due_frames(
                elapsed_nanos(start, now),
                self.fps,
                self.segment_frames as nat,
            ) as u64,
            ..self
        }
    }

    /// With one more frame written.
    pub open spec fn written(self) -> Capture {
        let counted = Capture {
            segment_frames: (self.segment_frames + 1) as u64,
            total_frames: self.total_frames.wrapping_add(1),
            remaining: (self.remaining - 1) as u64,
            ..self
        };
        if self.remaining == 1 {
            counted.next_round()
        } else {
            counted
        }
    }

    /// The numbers that the event leads to are in range.
    pub open spec fn can_take(self, event: Happening) -> bool {
        match event {
            Happening::Clock(now) => self.phase == CapturePhase::ReadClock ==> countable(
                elapsed_nanos(self.segment_start(now), now),
                self.fps,
            ),
            Happening::Written(true) => self.phase == CapturePhase::WriteFrame
                ==> self.segment_frames < u64::MAX,
            _ => true,
        }
    }

    /// After the event. An event that the phase does not wait for changes nothing.
    pub open spec fn after(self, event: Happening) -> Capture {
        match (self.phase, event) {
            (CapturePhase::AskGate, Happening::Gate(true)) => self.at(CapturePhase::AwaitTick),
            (CapturePhase::AskGate, Happening::Gate(false)) => self.segment_ended().at(
                CapturePhase::AwaitGate,
            ),
            (CapturePhase::AwaitGate, Happening::Cancelled) => self.finished(),
            (CapturePhase::AwaitGate, Happening::GateOpened) => self.at(CapturePhase::ResetTimer),
            (CapturePhase::ResetTimer, Happening::TimerReset) => self.at(CapturePhase::AwaitTick),
            (CapturePhase::AwaitTick, Happening::Cancelled) => self.finished(),
            (CapturePhase::AwaitTick, Happening::Tick) => if self.gated {
                self.at(CapturePhase::AskGateAgain)
            } else {
                self.at(CapturePhase::TakeScreenshot)
            },
            (CapturePhase::AskGateAgain, Happening::Gate(true)) => self.at(
                CapturePhase::TakeScreenshot,
            ),
            (CapturePhase::AskGateAgain, Happening::Gate(false)) => {
                self.segment_ended().next_round()
            },
            (CapturePhase::TakeScreenshot, Happening::Screenshot(Ok(data))) => self.decoded(
                base64_bytes(data),
            ),
            (CapturePhase::TakeScreenshot, Happening::Screenshot(Err(message))) => if page_is_gone(
                message,
            ) {
                self.finished()
            } else {
                self.next_round()
            },
            (CapturePhase::ReadClock, Happening::Clock(now)) => self.stamped(now),
            (CapturePhase::WriteFrame, Happening::Written(true)) => self.written(),
            (CapturePhase::WriteFrame, Happening::Written(false)) => self.finished(),
            _ => self,
        }
    }

    /// What holds of every state that the loop gets into.
    pub open spec fn valid(self) -> bool {
        &&& !self.gated ==> self.phase != CapturePhase::AskGate && self.phase
            != CapturePhase::AwaitGate && self.phase != CapturePhase::ResetTimer && self.phase
            != CapturePhase::AskGateAgain
        &&& self.phase == CapturePhase::WriteFrame ==> self.started_at is Some && 1
            <= self.remaining <= positive_rate(self.fps) * MAX_CATCH_UP_SECONDS
        &&& self.phase != CapturePhase::WriteFrame ==> self.remaining == 0
        &&& self.started_at is None ==> self.segment_frames == 0
    }
}

impl CaptureLoop {
    /// A loop that is about to start, at `fps` frames per second, with or without
    /// a gate.
    pub fn new(fps: u32, gated: bool) -> (r: CaptureLoop)
        ensures
            r@ == Capture::initial(fps, gated),
            r@.valid(),
    {
        CaptureLoop {
            phase: if gated {
                CapturePhase::AskGate
            } else {
                CapturePhase::AwaitTick
            },
            gated,
            fps,
            started_at: None,
            segment_frames: 0,
            total_frames: 0,
            frame: Vec::new(),
            remaining: 0,
        }
    }

    /// The command that takes the screenshot, where the loop waits for one.
    pub fn command(&self, session_id: &str) -> (r: Option<CdpCommand>)
        ensures
            r is Some == (self.phase == CapturePhase::TakeScreenshot),
            r is Some ==> r->0@ == jpeg_screenshot(PAGE_JPEG_QUALITY, session_id@),
    {
        match self.phase {
            CapturePhase::TakeScreenshot => Some(screenshot_command(PAGE_JPEG_QUALITY, session_id)),
            _ => None,
        }
    }

    /// Goes to the start of the next round.
    pub fn start_round(&mut self)
        ensures
            final(self)@ == old(self)@.next_round(),
    {
        self.phase = if self.gated {
            CapturePhase::AskGate
        } else {
            CapturePhase::AwaitTick
        };
        self.frame = Vec::new();
        self.remaining = 0;
    }

    /// Ends the loop.
    pub fn finish(&mut self)
        ensures
            final(self)@ == old(self)@.finished(),
    {
        self.phase = CapturePhase::Finished;
        self.frame = Vec::new();
        self.remaining = 0;
    }

    /// Takes over a screenshot that was decoded; one that was refused is skipped.
    pub fn take_frame(&mut self, bytes: Option<Vec<u8>>)
        ensures
            final(self)@ == old(self)@.decoded(
                match bytes {
                    Some(b) => Some(b@),
                    None => None,
                },
            ),
    {
        match bytes {
            Some(b) => {
                self.frame = b;
                self.phase = CapturePhase::ReadClock;
            },
            None => self.start_round(),
        }
    }

    /// Decodes a screenshot and takes it over.
    pub fn take_screenshot(&mut self, data: &str)
        ensures
            final(self)@ == old(self)@.decoded(base64_bytes(data@)),
    {
        let bytes = decode_base64(data);
        self.take_frame(bytes);
    }

    /// Whether the numbers that the event leads to are in range.
    pub fn accepts(&self, event: &CaptureEvent) -> (r: bool)
        ensures
            r == self@.can_take(event@),
    {
        match (self.phase, event) {
            (CapturePhase::ReadClock, CaptureEvent::Clock(now)) => {
                let start = match self.started_at {
                    Some(at) => at,
                    None => *now,
                };
                is_countable(start, *now, self.fps)
            },
            (CapturePhase::WriteFrame, CaptureEvent::Written(true)) => self.segment_frames
                < u64::MAX,
            _ => true,
        }
    }

    /// Moves on with what the caller reports.
    pub fn step(&mut self, event: CaptureEvent)
        requires
            old(self)@.can_take(event@),
            old(self)@.valid(),
        ensures
            final(self)@ == old(self)@.after(event@),
            final(self)@.valid(),
    {
        match (self.phase, event) {
            (CapturePhase::AskGate, CaptureEvent::Gate(active)) => {
                if active {
                    self.phase = CapturePhase::AwaitTick;
                } else {
                    self.started_at = None;
                    self.segment_frames = 0;
                    self.phase = CapturePhase::AwaitGate;
                }
            },
            (CapturePhase::AwaitGate, CaptureEvent::Cancelled) => self.finish(),
            (CapturePhase::AwaitGate, CaptureEvent::GateOpened) => {
                self.phase = CapturePhase::ResetTimer;
            },
            (CapturePhase::ResetTimer, CaptureEvent::TimerReset) => {
                self.phase = CapturePhase::AwaitTick;
            },
            (CapturePhase::AwaitTick, CaptureEvent::Cancelled) => self.finish(),
            (CapturePhase::AwaitTick, CaptureEvent::Tick) => {
                self.phase = if self.gated {
                    CapturePhase::AskGateAgain
                } else {
                    CapturePhase::TakeScreenshot
                };
            },
            (CapturePhase::AskGateAgain, CaptureEvent::Gate(active)) => {
                if active {
                    self.phase = CapturePhase::TakeScreenshot;
                } else {
                    self.started_at = None;
                    self.segment_frames = 0;
                    self.start_round();
                }
            },
            (CapturePhase::TakeScreenshot, CaptureEvent::Screenshot(Ok(data))) => {
                self.take_screenshot(data.as_str());
            },
            (CapturePhase::TakeScreenshot, CaptureEvent::Screenshot(Err(message))) => {
                if contains(message.as_str(), "Target closed") || contains(
                    message.as_str(),
                    "not found",
                ) {
                    self.finish();
                } else {
                    self.start_round();
                }
            },
            (CapturePhase::ReadClock, CaptureEvent::Clock(now)) => {
                let start = match self.started_at {
                    Some(at) => at,
                    None => now,
                };
                self.started_at = Some(start);
                self.remaining = due_frame_count(start, now, self.fps, self.segment_frames);
                self.phase = CapturePhase::WriteFrame;
            },
            (CapturePhase::WriteFrame, CaptureEvent::Written(ok)) => {
                if ok {
                    self.segment_frames = self.segment_frames + 1;
                    self.total_frames = self.total_frames.wrapping_add(1);
                    self.remaining = self.remaining - 1;
                    if self.remaining == 0 {
                        self.start_round();
                    }
                } else {
                    self.finish();
                }
            },
            _ => {},
        }
    }
}

/// A loop that starts in a valid state stays in valid states.
pub proof fn capture_stays_valid(state: Capture, event: Happening)
    requires
        state.valid(),
        state.can_take(event),
    ensures
        state.after(event).valid(),
        state.after(event).gated == state.gated,
        state.after(event).fps == state.fps,
{
}

/// A gated loop comes to take a screenshot only by hearing, right before, that the
/// gate is open: a demo recording captures nothing else.
pub proof fn gated_capture_needs_open_gate(state: Capture, event: Happening)
    requires
        state.valid(),
        state.gated,
        state.phase != CapturePhase::TakeScreenshot,
        state.after(event).phase == CapturePhase::TakeScreenshot,
    ensures
        state.phase == CapturePhase::AskGateAgain,
        event == Happening::Gate(true),
{
}

/// A closed gate ends the segment: the next frame starts a new one, so that the
/// pause is not encoded into the video.
pub proof fn closed_gate_restarts_the_segment(state: Capture, now: TimePoint)
    requires
        state.phase == CapturePhase::AskGate || state.phase == CapturePhase::AskGateAgain,
    ensures
        state.after(Happening::Gate(false)).started_at is None,
        state.after(Happening::Gate(false)).segment_frames == 0,
        state.after(Happening::Gate(false)).segment_start(now) == now,
        state.after(Happening::Gate(false)).total_frames == state.total_frames,
{
}

/// A loop that is over stays as it is.
pub proof fn finished_is_final(state: Capture, event: Happening)
    requires
        state.phase == CapturePhase::Finished,
    ensures
        state.after(event) == state,
{
}

/// A cancel ends the loop wherever the loop waits.
pub proof fn cancel_ends_the_wait(state: Capture)
    requires
        state.phase == CapturePhase::AwaitGate || state.phase == CapturePhase::AwaitTick,
    ensures
        state.after(Happening::Cancelled).phase == CapturePhase::Finished,
{
}

/// The count of frames grows by one for each frame that was written, and by
/// nothing else.
pub proof fn only_written_frames_count(state: Capture, event: Happening)
    requires
        state.valid(),
        state.can_take(event),
    ensures
        state.after(event).total_frames == if state.phase == CapturePhase::WriteFrame && event
            == Happening::Written(true) {
            state.total_frames.wrapping_add(1)
        } else {
            state.total_frames
        },
{
}

/// The state after each of `n` copies of the frame has been written.
pub open spec fn after_writes(state: Capture, n: nat) -> Capture
    decreases n,
{
    if n == 0 {
        state
    } else {
        after_writes(state, (n - 1) as nat).after(Happening::Written(true))
    }
}

proof fn lemma_writes_count(state: Capture, n: nat)
    requires
        state.valid(),
        state.phase == CapturePhase::WriteFrame,
        n <= state.remaining,
        state.segment_frames + state.remaining <= u64::MAX,
    ensures
        after_writes(state, n).segment_frames == state.segment_frames + n,
        after_writes(state, n).valid(),
        after_writes(state, n).started_at == state.started_at,
        n < state.remaining ==> {
            &&& after_writes(state, n).phase == CapturePhase::WriteFrame
            &&& after_writes(state, n).remaining == state.remaining - n
            &&& after_writes(state, n).frame == state.frame
        },
        n == state.remaining ==> after_writes(state, n).phase == state.next_round().phase,
        after_writes(state, n).gated == state.gated,
        after_writes(state, n).fps == state.fps,
    decreases n,
{
    if n > 0 {
        lemma_writes_count(state, (n - 1) as nat);
    }
}

/// Wall-clock time is kept: once the copies of a frame taken at `now` are written,
/// the segment has the first frame and one for each period that has passed, unless
/// it was ahead of that or the stall was longer than the catch-up limit.
pub proof fn writes_keep_wall_clock_time(state: Capture, now: TimePoint)
    requires
        state.valid(),
        state.phase == CapturePhase::ReadClock,
        state.can_take(Happening::Clock(now)),
        state.segment_frames + positive_rate(state.fps) * MAX_CATCH_UP_SECONDS <= u64::MAX,
    ensures
        ({
            let stamped = state.after(Happening::Clock(now));
            let done = after_writes(stamped, stamped.remaining as nat);
            let passed = frame_periods(
                elapsed_nanos(state.segment_start(now), now),
                positive_rate(state.fps),
            );
            let limit = positive_rate(state.fps) * MAX_CATCH_UP_SECONDS as nat;
            &&& done.phase == state.next_round().phase
            &&& done.started_at == Some(state.segment_start(now))
            &&& state.segment_frames + 1 <= done.segment_frames <= state.segment_frames + limit
            &&& passed + 1 <= state.segment_frames ==> done.segment_frames == state.segment_frames
                + 1
            &&& state.segment_frames < passed + 1 <= state.segment_frames + limit
                ==> done.segment_frames == passed + 1
            &&& passed + 1 > state.segment_frames + limit ==> done.segment_frames
                == state.segment_frames + limit
        }),
{
    let stamped = state.after(Happening::Clock(now));
    lemma_writes_count(stamped, stamped.remaining as nat);
}

} // verus!
