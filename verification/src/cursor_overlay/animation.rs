//! How the cursor is moved and how a click is shown: the commands for the single
//! positions, and the steps of a tween and of a ripple. Coordinates, scales and
//! opacities pass through as their decimal texts.

use vstd::prelude::*;
use vstd::string::*;

use crate::cdp::{evaluate_by_value, evaluate_command, CdpCommand};
use crate::cursor_overlay::controller::{bridge_outcome, classify_bridge_result, reply_content};
use crate::json::{Json, JsonValue};

verus! {

/// One step interval of an animation in milliseconds. It matches the default
/// capture rate, so that each captured frame sees a fresh cursor position.
pub const STEP_INTERVAL_MS: u64 = 30;

/// Asks the page for the position of the cursor.
pub const POSITION_EXPRESSION: &'static str =
    "window.__ab_cursor ? JSON.stringify({x: window.__ab_cursor.state.x, y: window.__ab_cursor.state.y}) : '{\"x\":-1000,\"y\":-1000}'";

/// The coordinate of a cursor that is not there.
pub const ABSENT_COORDINATE: &'static str = "-1000";

/// The command that reads the position of the cursor.
pub fn position_command(session_id: &str) -> (r: CdpCommand)
    ensures
        r@ == evaluate_by_value(POSITION_EXPRESSION@, session_id@),
{
    evaluate_command(POSITION_EXPRESSION, session_id)
}

/// The decimal text of the number that stands under `key` in the JSON object that
/// `text` is. There is none where `text` is no JSON, or no object, or holds no
/// number there.
pub uninterp spec fn number_member(text: Seq<char>, key: Seq<char>) -> Option<Seq<char>>;

/// `serde_json::from_str` into a `serde_json::Value`, of which `Value::get` and
/// `Value::as_f64` read the member; the number is handed on as its decimal text.
#[verifier::external_body]
fn parse_number_member(text: &str, key: &str) -> (r: Option<String>)
    ensures
        match r {
            Some(number) => number_member(text@, key@) == Some(number@),
            None => number_member(text@, key@) is None,
        },
{
    let value: serde_json::Value = serde_json::from_str(text).ok()?;
    let number = value.get(key)?.as_f64()?;
    Some(number.to_string())
}

/// The payload of an evaluation: the text under `result.value`.
pub open spec fn evaluated_text(reply: Json) -> Option<Seq<char>> {
    match reply.member("result"@) {
        Some(result) => match result.member("value"@) {
            Some(value) => value.as_text(),
            None => None,
        },
        None => None,
    }
}

/// A coordinate that was read, or that of a cursor that is not there.
pub open spec fn coordinate(read: Option<Seq<char>>) -> Seq<char> {
    match read {
        Some(number) => number,
        None => ABSENT_COORDINATE@,
    }
}

/// The position that the reply to [`position_command`] tells.
pub open spec fn told_position(reply: Result<Json, Seq<char>>) -> (Seq<char>, Seq<char>) {
    match reply {
        Ok(value) => match evaluated_text(value) {
            Some(payload) => (
                coordinate(number_member(payload, "x"@)),
                coordinate(number_member(payload, "y"@)),
            ),
            None => (ABSENT_COORDINATE@, ABSENT_COORDINATE@),
        },
        Err(_) => (ABSENT_COORDINATE@, ABSENT_COORDINATE@),
    }
}

/// A coordinate that was read, or that of a cursor that is not there.
pub fn coordinate_or_absent(read: Option<String>) -> (r: String)
    ensures
        r@ == coordinate(
            match read {
                Some(number) => Some(number@),
                None => None,
            },
        ),
{
    match read {
        Some(number) => number,
        None => ABSENT_COORDINATE.to_owned(),
    }
}

/// The payload of an evaluation.
pub fn payload_of(reply: &JsonValue) -> (r: Option<&str>)
    ensures
        match r {
            Some(text) => evaluated_text(reply@) == Some(text@),
            None => evaluated_text(reply@) is None,
        },
{
    match reply.get("result") {
        Some(result) => match result.get("value") {
            Some(value) => value.as_str(),
            None => None,
        },
        None => None,
    }
}

/// The position that the reply to [`position_command`] tells. Where the cursor
/// is not installed both coordinates are negative.
pub fn position_from_reply(reply: Result<JsonValue, String>) -> (r: (String, String))
    ensures
        (r.0@, r.1@) == told_position(reply_content(reply)),
{
    match reply {
        Ok(value) => match payload_of(&value) {
            Some(payload) => (
                coordinate_or_absent(parse_number_member(payload, "x")),
                coordinate_or_absent(parse_number_member(payload, "y")),
            ),
            None => (ABSENT_COORDINATE.to_owned(), ABSENT_COORDINATE.to_owned()),
        },
        Err(_) => (ABSENT_COORDINATE.to_owned(), ABSENT_COORDINATE.to_owned()),
    }
}

/// The script that puts the cursor at a point.
pub open spec fn cursor_script(x: Seq<char>, y: Seq<char>) -> Seq<char> {
    "window.__ab_cursor && window.__ab_cursor.setCursor("@ + x + ", "@ + y + ")"@
}

/// The script that shows the ripple at a point.
pub open spec fn ripple_script(
    x: Seq<char>,
    y: Seq<char>,
    scale: Seq<char>,
    opacity: Seq<char>,
) -> Seq<char> {
    "window.__ab_cursor && window.__ab_cursor.setRipple("@ + x + ", "@ + y + ", "@ + scale + ", "@
        + opacity + ")"@
}

/// The command that puts the cursor at a point.
pub fn set_cursor_command(session_id: &str, x: &str, y: &str) -> (r: CdpCommand)
    ensures
        r@ == evaluate_by_value(cursor_script(x@, y@), session_id@),
{
    let mut script = "window.__ab_cursor && window.__ab_cursor.setCursor(".to_owned();
    script.append(x);
    script.append(", ");
    script.append(y);
    script.append(")");
    evaluate_command(script.as_str(), session_id)
}

/// The command that shows the ripple at a point.
pub fn set_ripple_command(session_id: &str, x: &str, y: &str, scale: &str, opacity: &str) -> (r:
    CdpCommand)
    ensures
        r@ == evaluate_by_value(ripple_script(x@, y@, scale@, opacity@), session_id@),
{
    let mut script = "window.__ab_cursor && window.__ab_cursor.setRipple(".to_owned();
    script.append(x);
    script.append(", ");
    script.append(y);
    script.append(", ");
    script.append(scale);
    script.append(", ");
    script.append(opacity);
    script.append(")");
    evaluate_command(script.as_str(), session_id)
}

/// `n` held between `lo` and `hi`.
pub open spec fn clamped(n: nat, lo: nat, hi: nat) -> nat {
    if n < lo {
        lo
    } else if n > hi {
        hi
    } else {
        n
    }
}

/// How many steps an animation of `ms` milliseconds has.
fn step_count(ms: u32, lo: u32, hi: u32) -> (r: u32)
    requires
        lo <= hi,
    ensures
        r == clamped(ms as nat / STEP_INTERVAL_MS as nat, lo as nat, hi as nat),
{
    let n: u64 = ms as u64 / STEP_INTERVAL_MS;
    if n < lo as u64 {
        lo
    } else if n > hi as u64 {
        hi
    } else {
        n as u32
    }
}

/// The steps of a tween.
pub open spec fn tween_steps(tween_ms: u32) -> nat {
    clamped(tween_ms as nat / STEP_INTERVAL_MS as nat, 2, 120)
}

/// The steps of a ripple; no duration means the default one.
pub open spec fn ripple_steps(click_ms: u32) -> nat {
    let ms = if click_ms == 0 {
        400
    } else {
        click_ms as nat
    };
    clamped(ms / STEP_INTERVAL_MS as nat, 4, 40)
}

/// Moving the cursor to a point, step by step.
pub enum TweenStep {
    /// Put the cursor at the target at once.
    Snap,
    /// Put the cursor at this part of the way: step `index` of `steps`.
    Move { index: u32, steps: u32 },
    /// Rest for one step interval after that step.
    Pause { index: u32, steps: u32 },
    /// Over.
    Done(Result<(), String>),
}

/// What the caller reports of a tween.
pub enum TweenEvent {
    /// The reply to the command of the step.
    Reply(Result<JsonValue, String>),
    /// The pause is over.
    Rested,
}

/// The mathematical content of a [`TweenStep`].
pub enum Tween {
    Snap,
    Move { index: u32, steps: u32 },
    Pause { index: u32, steps: u32 },
    Done(Result<(), Seq<char>>),
}

/// The mathematical content of a [`TweenEvent`].
pub enum TweenHappening {
    Reply(Result<Json, Seq<char>>),
    Rested,
}

impl View for TweenStep {
    type V = Tween;

    open spec fn view(&self) -> Tween {
        match self {
            TweenStep::Snap => Tween::Snap,
            TweenStep::Move { index, steps } => Tween::Move { index: *index, steps: *steps },
            TweenStep::Pause { index, steps } => Tween::Pause { index: *index, steps: *steps },
            TweenStep::Done(Ok(_)) => Tween::Done(Ok(())),
            TweenStep::Done(Err(message)) => Tween::Done(Err(message@)),
        }
    }
}

impl View for TweenEvent {
    type V = TweenHappening;

    open spec fn view(&self) -> TweenHappening {
        match self {
            TweenEvent::Reply(reply) => TweenHappening::Reply(reply_content(*reply)),
            TweenEvent::Rested => TweenHappening::Rested,
        }
    }
}

/// The cursor goes to its target without a tween: there is no time for one, or no
/// place where it could start.
pub open spec fn snaps(tween_ms: u32, from_x_negative: bool, from_y_negative: bool) -> bool {
    tween_ms == 0 || from_x_negative || from_y_negative
}

impl Tween {
    /// The first step of a tween.
    pub open spec fn first(tween_ms: u32, from_x_negative: bool, from_y_negative: bool) -> Tween {
        if snaps(tween_ms, from_x_negative, from_y_negative) {
            Tween::Snap
        } else {
            Tween::Move { index: 1, steps: tween_steps(tween_ms) as u32 }
        }
    }

    /// The step after the event. An error that is not transient ends the tween.
    pub open spec fn after(self, event: TweenHappening) -> Tween {
        match (self, event) {
            (Tween::Snap, TweenHappening::Reply(reply)) => Tween::Done(bridge_outcome(reply)),
            (Tween::Move { index, steps }, TweenHappening::Reply(reply)) => match bridge_outcome(
                reply,
            ) {
                Err(message) => Tween::Done(Err(message)),
                Ok(_) => if index < steps {
                    Tween::Pause { index, steps }
                } else {
                    Tween::Done(Ok(()))
                },
            },
            (Tween::Pause { index, steps }, TweenHappening::Rested) => Tween::Move {
                index: (index + 1) as u32,
                steps,
            },
            _ => self,
        }
    }

    /// What holds of every step of a tween.
    pub open spec fn valid(self) -> bool {
        match self {
            Tween::Move { index, steps } => 1 <= index <= steps <= 120,
            Tween::Pause { index, steps } => 1 <= index < steps <= 120,
            _ => true,
        }
    }
}

impl TweenStep {
    /// Whether the cursor goes to its target without a tween.
    pub fn is_snap(tween_ms: u32, from_x_negative: bool, from_y_negative: bool) -> (r: bool)
        ensures
            r == snaps(tween_ms, from_x_negative, from_y_negative),
    {
        tween_ms == 0 || from_x_negative || from_y_negative
    }

    /// The first step of a tween that takes `tween_ms`, from a point of which each
    /// coordinate is negative or not.
    pub fn start(tween_ms: u32, from_x_negative: bool, from_y_negative: bool) -> (r: TweenStep)
        ensures
            r@ == Tween::first(tween_ms, from_x_negative, from_y_negative),
            r@.valid(),
    {
        if TweenStep::is_snap(tween_ms, from_x_negative, from_y_negative) {
            TweenStep::Snap
        } else {
            TweenStep::Move { index: 1, steps: step_count(tween_ms, 2, 120) }
        }
    }

    /// Moves on with what the caller reports.
    pub fn advance(self, event: TweenEvent) -> (r: TweenStep)
        requires
            self@.valid(),
        ensures
            r@ == self@.after(event@),
            r@.valid(),
    {
        match (self, event) {
            (TweenStep::Snap, TweenEvent::Reply(reply)) => TweenStep::Done(
                classify_bridge_result(reply),
            ),
            (TweenStep::Move { index, steps }, TweenEvent::Reply(reply)) => {
                match classify_bridge_result(reply) {
                    Err(message) => TweenStep::Done(Err(message)),
                    Ok(_) => if index < steps {
                        TweenStep::Pause { index, steps }
                    } else {
                        TweenStep::Done(Ok(()))
                    },
                }
            },
            (TweenStep::Pause { index, steps }, TweenEvent::Rested) => TweenStep::Move {
                index: index + 1,
                steps,
            },
            (step, _) => step,
        }
    }
}

/// Showing a click, step by step. The replies to the commands do not matter.
#[derive(Debug, Clone, Copy, PartialEq, Eq, Structural)]
pub enum RippleStep {
    /// Show the ripple as it is born.
    Born { steps: u32 },
    /// Show step `index` of `steps`.
    Grow { index: u32, steps: u32 },
    /// Rest for one step interval after that step.
    Pause { index: u32, steps: u32 },
    /// Hide the ripple, so that no ghost of it lingers.
    Vanish,
    /// Over.
    Done,
}

impl RippleStep {
    /// What holds of every step of a ripple.
    pub open spec fn valid(self) -> bool {
        match self {
            RippleStep::Born { steps } => 4 <= steps <= 40,
            RippleStep::Grow { index, steps } => 1 <= index <= steps <= 40,
            RippleStep::Pause { index, steps } => 1 <= index < steps <= 40,
            _ => true,
        }
    }

    /// The step that follows.
    pub open spec fn next(self) -> RippleStep {
        match self {
            RippleStep::Born { steps } => RippleStep::Grow { index: 1, steps },
            RippleStep::Grow { index, steps } => if index < steps {
                RippleStep::Pause { index, steps }
            } else {
                RippleStep::Vanish
            },
            RippleStep::Pause { index, steps } => RippleStep::Grow {
                index: (index + 1) as u32,
                steps,
            },
            RippleStep::Vanish => RippleStep::Done,
            RippleStep::Done => RippleStep::Done,
        }
    }

    /// The first step of a ripple that takes `click_ms`.
    pub fn start(click_ms: u32) -> (r: RippleStep)
        ensures
            r == (RippleStep::Born { steps: ripple_steps(click_ms) as u32 }),
            r.valid(),
    {
        let ms: u32 = if click_ms == 0 {
            400
        } else {
            click_ms
        };
        RippleStep::Born { steps: step_count(ms, 4, 40) }
    }

    /// The step that follows.
    pub fn advance(self) -> (r: RippleStep)
        requires
            self.valid(),
        ensures
            r == self.next(),
            r.valid(),
    {
        match self {
            RippleStep::Born { steps } => RippleStep::Grow { index: 1, steps },
            RippleStep::Grow { index, steps } => if index < steps {
                RippleStep::Pause { index, steps }
            } else {
                RippleStep::Vanish
            },
            RippleStep::Pause { index, steps } => RippleStep::Grow { index: index + 1, steps },
            RippleStep::Vanish => RippleStep::Done,
            RippleStep::Done => RippleStep::Done,
        }
    }
}

/// A tween after `n` moves that went well, with the pauses between them.
pub open spec fn after_moves(tween: Tween, n: nat) -> Tween
    decreases n,
{
    if n == 0 {
        tween
    } else {
        let moved = after_moves(tween, (n - 1) as nat).after(TweenHappening::Reply(Ok(Json::Null)));
        if moved is Pause {
            moved.after(TweenHappening::Rested)
        } else {
            moved
        }
    }
}

proof fn lemma_moves_progress(index: u32, steps: u32, n: nat)
    requires
        1 <= index,
        index + n <= steps,
        steps <= 120,
    ensures
        after_moves(Tween::Move { index, steps }, n) == (Tween::Move {
            index: (index + n) as u32,
            steps,
        }),
    decreases n,
{
    if n > 0 {
        lemma_moves_progress(index, steps, (n - 1) as nat);
    }
}

/// A tween whose moves go well makes each of its steps once, the last of them at
/// the target, and is then over.
pub proof fn tween_arrives(tween_ms: u32, n: nat)
    requires
        tween_ms > 0,
        n < tween_steps(tween_ms),
    ensures
        after_moves(Tween::first(tween_ms, false, false), n) == (Tween::Move {
            index: (n + 1) as u32,
            steps: tween_steps(tween_ms) as u32,
        }),
        after_moves(Tween::first(tween_ms, false, false), tween_steps(tween_ms)) == Tween::Done(
            Ok(()),
        ),
{
    let steps = tween_steps(tween_ms);
    lemma_moves_progress(1, steps as u32, n);
    lemma_moves_progress(1, steps as u32, (steps - 1) as nat);
}

/// The tween is over at the first error that is not transient, with that error.
pub proof fn tween_stops_at_errors(tween: Tween, message: Seq<char>)
    requires
        tween is Move || tween is Snap,
        !crate::cursor_overlay::controller::is_transient(message),
    ensures
        tween.after(TweenHappening::Reply(Err(message))) == Tween::Done(Err(message)),
{
}

/// A ripple after `n` steps.
pub open spec fn ripple_after(step: RippleStep, n: nat) -> RippleStep
    decreases n,
{
    if n == 0 {
        step
    } else {
        ripple_after(step, (n - 1) as nat).next()
    }
}

proof fn lemma_ripple_grows(steps: u32, index: u32)
    requires
        1 <= index <= steps <= 40,
    ensures
        ripple_after(RippleStep::Born { steps }, (2 * index - 1) as nat) == (RippleStep::Grow {
            index,
            steps,
        }),
    decreases index,
{
    reveal_with_fuel(ripple_after, 3);
    if index > 1 {
        lemma_ripple_grows(steps, (index - 1) as u32);
    }
}

/// A ripple shows its birth and each of its steps, with a pause between two of
/// them, then hides itself and is over.
pub proof fn ripple_vanishes(click_ms: u32, index: u32)
    requires
        1 <= index <= ripple_steps(click_ms),
    ensures
        ({
            let steps = ripple_steps(click_ms) as u32;
            let born = RippleStep::Born { steps };
            &&& ripple_after(born, (2 * index - 1) as nat) == (RippleStep::Grow { index, steps })
            &&& ripple_after(born, (2 * steps) as nat) == RippleStep::Vanish
            &&& ripple_after(born, (2 * steps + 1) as nat) == RippleStep::Done
        }),
{
    let steps = ripple_steps(click_ms) as u32;
    lemma_ripple_grows(steps, index);
    lemma_ripple_grows(steps, steps);
}

} // verus!
