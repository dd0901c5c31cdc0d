//! Laws of the in-page cursor.

use vstd::prelude::*;

use crate::cdp::evaluate_by_value;
use crate::cursor_overlay::animation::{
    clamped, coordinate, cursor_script, evaluated_text, number_member, ripple_script, ripple_steps,
    snaps, told_position, tween_steps, RippleStep, Tween, TweenEvent, TweenHappening, TweenStep,
};
use crate::cursor_overlay::controller::{
    bridge_outcome, default_overlay, is_transient, motion_message, reply_content,
    requested_overlay, theme_message, CursorOverlayConfig, InstallStep, Installing, RemoveStep,
    Removing, DESTROY_EXPRESSION,
};
use crate::cursor_overlay::scripts::{
    install_script, motion_named, theme_named, MotionMode, Theme, ARROW_SVG, CONTROLLER_JS, DOT_SVG,
    HAND_SVG,
};
use crate::json::{quoted, Json, JsonValue};
use crate::laws::effects::{number_asked, number_fits};
use crate::laws::values::{
    contained_texts_stand_in_between, lower_case_changes_capitals_only,
    members_are_found_under_their_names,
};
use crate::options::bounded;
use crate::text::{decimal, lower};

verus! {

/// The themes are known under their names in any case, the first of them without a name
/// too, and under no other; each has its own image.
pub proof fn themes_have_names_and_images(text: Seq<char>)
    ensures
        Theme::Arrow.name() == "arrow"@,
        Theme::Dot.name() == "dot"@,
        Theme::Hand.name() == "hand"@,
        Theme::Arrow.image() == ARROW_SVG@,
        Theme::Dot.image() == DOT_SVG@,
        Theme::Hand.image() == HAND_SVG@,
        theme_named(text) == Some(Theme::Arrow) <==> text.len() == 0 || lower(text) == "arrow"@,
        theme_named(text) == Some(Theme::Dot) <==> lower(text) == "dot"@,
        theme_named(text) == Some(Theme::Hand) <==> lower(text) == "hand"@,
        theme_message(text) == "unknown cursor theme '"@ + lower(text)
            + "'; valid options: arrow, dot, hand"@,
{
    reveal_strlit("arrow");
    reveal_strlit("dot");
    reveal_strlit("hand");
    assert("arrow"@.len() == 5 && "dot"@.len() == 3 && "hand"@.len() == 4);
    lower_case_changes_capitals_only(text);
}

/// The motion modes are known under their names in any case, the first of them without a
/// name too, and under no other.
pub proof fn motions_have_names(text: Seq<char>)
    ensures
        MotionMode::Auto.name() == "auto"@,
        MotionMode::Always.name() == "always"@,
        MotionMode::Off.name() == "off"@,
        motion_named(text) == Some(MotionMode::Auto) <==> text.len() == 0 || lower(text)
            == "auto"@,
        motion_named(text) == Some(MotionMode::Always) <==> lower(text) == "always"@,
        motion_named(text) == Some(MotionMode::Off) <==> lower(text) == "off"@,
        motion_message(text) == "unknown cursor motion mode '"@ + lower(text)
            + "'; valid options: auto, always, off"@,
{
    reveal_strlit("auto");
    reveal_strlit("always");
    reveal_strlit("off");
    assert("auto"@.len() == 4 && "always"@.len() == 6 && "off"@.len() == 3);
    lower_case_changes_capitals_only(text);
}

/// The page is told every setting under its name, the image as a literal, in front of the
/// controller that reads them.
pub proof fn install_scripts_tell_every_setting(config: CursorOverlayConfig)
    ensures
        config.script() == "window.__ab_cursor_config = "@ + ("{\"size\":"@ + decimal(
            config.size_px as nat,
        ) + ",\"tweenMs\":"@ + decimal(config.tween_ms as nat) + ",\"clickMs\":"@ + decimal(
            config.click_ms as nat,
        ) + ",\"motion\":"@ + quoted(
            match config.motion {
                MotionMode::Auto => "auto"@,
                MotionMode::Always => "always"@,
                MotionMode::Off => "off"@,
            },
        ) + ",\"svg\":"@ + quoted(
            match config.theme {
                Theme::Arrow => ARROW_SVG@,
                Theme::Dot => DOT_SVG@,
                Theme::Hand => HAND_SVG@,
            },
        ) + "}"@) + ";\n"@ + CONTROLLER_JS@,
        install_script(
            config.theme,
            config.size_px,
            config.tween_ms,
            config.click_ms,
            config.motion,
        ) == config.script(),
{
}

/// What a cursor object asks for is what the overlay is: the theme and the motion of that
/// name, each number that is given, and waiting clicks where it says so; what is not asked
/// for has its default.
pub proof fn overlays_are_what_is_asked_for(cursor: Json)
    requires
        requested_overlay(cursor) is Ok,
        requested_overlay(cursor)->Ok_0 is Some,
    ensures
        ({
            let config = requested_overlay(cursor)->Ok_0->0;
            &&& cursor is Object
            &&& match cursor.member("theme"@) {
                Some(Json::Text(text)) => text.len() == 0 && config.theme == Theme::Arrow
                    || config.theme.name() == lower(text),
                _ => config.theme == Theme::Arrow,
            }
            &&& match cursor.member("motion"@) {
                Some(Json::Text(text)) => text.len() == 0 && config.motion == MotionMode::Auto
                    || config.motion.name() == lower(text),
                _ => config.motion == MotionMode::Auto,
            }
            &&& number_asked(cursor, "size"@, config.size_px, 28)
            &&& number_asked(cursor, "tweenMs"@, config.tween_ms, 250)
            &&& number_asked(cursor, "clickMs"@, config.click_ms, 400)
            &&& config.block_clicks <==> cursor.member("blockClicks"@) == Some(Json::Bool(true))
        }),
{
    crate::cursor_overlay::scripts::theme_names_read_back(Theme::Arrow);
    crate::cursor_overlay::scripts::motion_names_read_back(MotionMode::Auto);
}

/// An object is accepted exactly where each of its options is one that there is.
pub proof fn well_formed_overlays_are_accepted(cursor: Json)
    requires
        cursor is Object,
    ensures
        ({
            let theme = match cursor.member("theme"@) {
                Some(Json::Text(text)) => text.len() == 0 || lower(text) == "arrow"@ || lower(text)
                    == "dot"@ || lower(text) == "hand"@,
                _ => true,
            };
            let motion = match cursor.member("motion"@) {
                Some(Json::Text(text)) => text.len() == 0 || lower(text) == "auto"@ || lower(text)
                    == "always"@ || lower(text) == "off"@,
                _ => true,
            };
            requested_overlay(cursor) is Ok <==> theme && motion && number_fits(
                cursor,
                "size"@,
                8,
                96,
            ) && number_fits(cursor, "tweenMs"@, 0, 2000) && number_fits(
                cursor,
                "clickMs"@,
                0,
                2000,
            )
        }),
{
    crate::cursor_overlay::scripts::theme_names_read_back(Theme::Arrow);
    crate::cursor_overlay::scripts::motion_names_read_back(MotionMode::Auto);
}

/// What is wrong with a request is told, the first thing first: that it is no object, then
/// the theme, the motion, the size, the duration of a move and that of a click.
pub proof fn the_first_wrong_overlay_option_is_told(cursor: Json)
    ensures
        ({
            let told = requested_overlay(cursor);
            let theme = match cursor.member("theme"@) {
                Some(Json::Text(text)) => theme_named(text) is Some,
                _ => true,
            };
            let motion = match cursor.member("motion"@) {
                Some(Json::Text(text)) => motion_named(text) is Some,
                _ => true,
            };
            let size = bounded(cursor.member("size"@), "size"@, 8, 96, 28);
            let tween = bounded(cursor.member("tweenMs"@), "tweenMs"@, 0, 2000, 250);
            let click = bounded(cursor.member("clickMs"@), "clickMs"@, 0, 2000, 400);
            &&& !(cursor is Object) && !(cursor is Null) ==> told == Err::<
                Option<CursorOverlayConfig>,
                Seq<char>,
            >("'cursor' must be an object"@)
            &&& cursor is Object && !theme ==> told == Err::<
                Option<CursorOverlayConfig>,
                Seq<char>,
            >(theme_message(cursor.member("theme"@)->0->Text_0))
            &&& cursor is Object && theme && !motion ==> told == Err::<
                Option<CursorOverlayConfig>,
                Seq<char>,
            >(motion_message(cursor.member("motion"@)->0->Text_0))
            &&& cursor is Object && theme && motion && size is Err ==> told is Err && told->Err_0
                == size->Err_0
            &&& cursor is Object && theme && motion && size is Ok && tween is Err ==> told is Err
                && told->Err_0 == tween->Err_0
            &&& cursor is Object && theme && motion && size is Ok && tween is Ok && click is Err
                ==> told is Err && told->Err_0 == click->Err_0
        }),
{
    crate::cursor_overlay::scripts::theme_names_read_back(Theme::Arrow);
    crate::cursor_overlay::scripts::motion_names_read_back(MotionMode::Auto);
}

/// Nothing is asked for by nothing; every object that is accepted asks for an overlay, and
/// that one lies within the bounds of the options.
pub proof fn accepted_objects_ask_for_an_overlay(cursor: Json, config: CursorOverlayConfig)
    ensures
        cursor is Null ==> requested_overlay(cursor) is Ok && requested_overlay(
            cursor,
        )->Ok_0 is None,
        cursor is Object && requested_overlay(cursor) is Ok ==> requested_overlay(
            cursor,
        )->Ok_0 is Some,
        config.in_bounds() <==> 8 <= config.size_px <= 96 && 0 <= config.tween_ms <= 2000 && 0
            <= config.click_ms <= 2000,
{
}

/// The overlay that nothing was asked of is a small arrow that moves in a quarter of a
/// second and does not hold clicks back.
pub proof fn the_default_overlay_is_an_arrow()
    ensures
        default_overlay().theme == Theme::Arrow,
        default_overlay().motion == MotionMode::Auto,
        default_overlay().size_px == 28,
        default_overlay().tween_ms == 250,
        default_overlay().click_ms == 400,
        !default_overlay().block_clicks,
{
}

/// An error is transient where it speaks of one of the conditions under which the cursor is
/// not available for a moment.
pub proof fn transient_errors_are_recognised(message: Seq<char>)
    ensures
        is_transient(message) <==> {
            ||| exists|a: Seq<char>, b: Seq<char>|
                message == #[trigger] (a + "Promise was collected"@ + b)
            ||| exists|a: Seq<char>, b: Seq<char>|
                message == #[trigger] (a + "Execution context was destroyed"@ + b)
            ||| exists|a: Seq<char>, b: Seq<char>|
                message == #[trigger] (a + "Execution context with given id not found"@ + b)
            ||| exists|a: Seq<char>, b: Seq<char>|
                message == #[trigger] (a + "Cannot find context"@ + b)
            ||| exists|a: Seq<char>, b: Seq<char>|
                message == #[trigger] (a + "Inspected target navigated or closed"@ + b)
        },
{
    let needles = crate::cursor_overlay::controller::transient_needles();
    assert(needles[0] == "Promise was collected"@);
    assert(needles[1] == "Execution context was destroyed"@);
    assert(needles[2] == "Execution context with given id not found"@);
    assert(needles[3] == "Cannot find context"@);
    assert(needles[4] == "Inspected target navigated or closed"@);
    assert forall|i: int| 0 <= i < 5 implies crate::text::occurs_in(message, #[trigger] needles[i])
        == (exists|a: Seq<char>, b: Seq<char>| message == #[trigger] (a + needles[i] + b)) by {
        contained_texts_stand_in_between(message, needles[i]);
    }
}

/// A reply is what came back; a call whose reply is one counts as done, one whose error is
/// transient too, and any other error is its result.
pub proof fn bridge_calls_tell_real_errors(
    reply: Result<JsonValue, String>,
    value: Json,
    message: Seq<char>,
)
    ensures
        reply_content(reply) == match reply {
            Ok(found) => Ok(found@),
            Err(error) => Err(error@),
        },
        bridge_outcome(Ok(value)) == Ok::<(), Seq<char>>(()),
        is_transient(message) ==> bridge_outcome(Err(message)) == Ok::<(), Seq<char>>(()),
        !is_transient(message) ==> bridge_outcome(Err(message)) == Err::<(), Seq<char>>(message),
{
}

/// An installation registers the script of its overlay, to run at once as well, and then
/// evaluates that same script; the identifier is that of the registration. An error of the
/// registration ends it; what comes of the evaluation does not matter.
pub proof fn installations_register_then_evaluate(
    config: CursorOverlayConfig,
    session_id: Seq<char>,
    registered: Json,
    identifier: Seq<char>,
    message: Seq<char>,
    reply: Result<Json, Seq<char>>,
    end: Result<Seq<char>, Seq<char>>,
)
    ensures
        ({
            let sent = Installing::Register.sends(session_id, config);
            &&& sent is Some
            &&& sent->0.method == "Page.addScriptToEvaluateOnNewDocument"@
            &&& sent->0.session_id == Some(session_id)
            &&& sent->0.params is Some
            &&& sent->0.params->0->Object_0.len() == 2
            &&& sent->0.params->0.member("source"@) == Some(Json::Text(config.script()))
            &&& sent->0.params->0.member("runImmediately"@) == Some(Json::Bool(true))
        }),
        Installing::Evaluate(identifier).sends(session_id, config) == Some(
            evaluate_by_value(config.script(), session_id),
        ),
        Installing::Done(end).sends(session_id, config) is None,
        match registered.member("identifier"@) {
            Some(Json::Text(text)) => Installing::Register.after(Ok(registered))
                == Installing::Evaluate(text),
            _ => Installing::Register.after(Ok(registered)) == Installing::Evaluate(""@),
        },
        Installing::Register.after(Err(message)) == Installing::Done(Err(message)),
        Installing::Evaluate(identifier).after(reply) == Installing::Done(Ok(identifier)),
        Installing::Done(end).after(reply) == Installing::Done(end),
{
    reveal_strlit("source");
    reveal_strlit("runImmediately");
    assert("source"@.len() == 6 && "runImmediately"@.len() == 14);
    let none = Json::empty_object();
    let source = Json::Text(config.script());
    members_are_found_under_their_names(none, "source"@, source, "source"@);
    members_are_found_under_their_names(none, "source"@, source, "runImmediately"@);
    let one = none.with("source"@, source);
    members_are_found_under_their_names(one, "runImmediately"@, Json::Bool(true), "source"@);
    members_are_found_under_their_names(
        one,
        "runImmediately"@,
        Json::Bool(true),
        "runImmediately"@,
    );
}

/// A removal takes back the registration with its identifier, where there is one, and then
/// tears the overlay down; an error of the first ends it, one of the second does not matter.
pub proof fn removals_unregister_then_destroy(
    session_id: Seq<char>,
    identifier: Seq<char>,
    value: Json,
    message: Seq<char>,
    reply: Result<Json, Seq<char>>,
    end: Result<(), Seq<char>>,
)
    ensures
        identifier.len() > 0 ==> Removing::first(identifier) == Removing::Unregister(identifier),
        identifier.len() == 0 ==> Removing::first(identifier) == Removing::Destroy,
        ({
            let sent = Removing::Unregister(identifier).sends(session_id);
            &&& sent is Some
            &&& sent->0.method == "Page.removeScriptToEvaluateOnNewDocument"@
            &&& sent->0.session_id == Some(session_id)
            &&& sent->0.params is Some
            &&& sent->0.params->0->Object_0.len() == 1
            &&& sent->0.params->0.member("identifier"@) == Some(Json::Text(identifier))
        }),
        Removing::Destroy.sends(session_id) == Some(
            evaluate_by_value(DESTROY_EXPRESSION@, session_id),
        ),
        Removing::Done(end).sends(session_id) is None,
        Removing::Unregister(identifier).after(Ok(value)) == Removing::Destroy,
        Removing::Unregister(identifier).after(Err(message)) == Removing::Done(Err(message)),
        Removing::Destroy.after(reply) == Removing::Done(Ok(())),
        Removing::Done(end).after(reply) == Removing::Done(end),
{
    members_are_found_under_their_names(
        Json::empty_object(),
        "identifier"@,
        Json::Text(identifier),
        "identifier"@,
    );
}

/// The position of the cursor is what the page tells under `x` and under `y`, each by
/// itself; a coordinate that is not told is that of a cursor that is not there.
pub proof fn positions_are_what_the_page_tells(
    reply: Json,
    result: Json,
    payload: Seq<char>,
    message: Seq<char>,
)
    ensures
        told_position(Err(message)) == ("-1000"@, "-1000"@),
        evaluated_text(reply) is None ==> told_position(Ok(reply)) == ("-1000"@, "-1000"@),
        evaluated_text(reply) == Some(payload) ==> told_position(Ok(reply)) == (
            match number_member(payload, "x"@) {
                Some(x) => x,
                None => "-1000"@,
            },
            match number_member(payload, "y"@) {
                Some(y) => y,
                None => "-1000"@,
            },
        ),
        reply.member("result"@) == Some(result) && result.member("value"@) == Some(
            Json::Text(payload),
        ) ==> evaluated_text(reply) == Some(payload),
        evaluated_text(reply) is Some ==> reply.member("result"@) is Some && reply.member(
            "result"@,
        )->0.member("value"@) == Some(Json::Text(evaluated_text(reply)->0)),
        coordinate(Some(payload)) == payload,
        coordinate(None) == "-1000"@,
{
}

/// The cursor is put at the point that is given, and the ripple shown there with the scale
/// and the opacity that are given, where the cursor is installed.
pub proof fn points_are_handed_to_the_page(
    x: Seq<char>,
    y: Seq<char>,
    scale: Seq<char>,
    opacity: Seq<char>,
)
    ensures
        cursor_script(x, y) == "window.__ab_cursor && window.__ab_cursor.setCursor("@ + x + ", "@
            + y + ")"@,
        ripple_script(x, y, scale, opacity)
            == "window.__ab_cursor && window.__ab_cursor.setRipple("@ + x + ", "@ + y + ", "@
            + scale + ", "@ + opacity + ")"@,
{
}

/// An animation has one step for every 30 milliseconds of its duration, within bounds: a
/// tween from 2 to 120, a ripple from 4 to 40, and a ripple without duration lasts 400.
pub proof fn animations_step_every_thirty_milliseconds(ms: u32)
    ensures
        tween_steps(ms) <= 120,
        tween_steps(ms) >= 2,
        ms < 60 ==> tween_steps(ms) == 2,
        60 <= ms <= 3600 ==> tween_steps(ms) * 30 <= ms < (tween_steps(ms) + 1) * 30,
        ms > 3600 ==> tween_steps(ms) == 120,
        ripple_steps(0) == ripple_steps(400),
        0 < ms < 120 ==> ripple_steps(ms) == 4,
        120 <= ms <= 1200 ==> ripple_steps(ms) * 30 <= ms < (ripple_steps(ms) + 1) * 30,
        ms > 1200 ==> ripple_steps(ms) == 40,
{
}

/// A number that is clamped lies within its bounds, and is itself where it did before.
pub proof fn clamped_numbers_lie_within_bounds(n: nat, lo: nat, hi: nat)
    requires
        lo <= hi,
    ensures
        lo <= clamped(n, lo, hi) <= hi,
        lo <= n <= hi ==> clamped(n, lo, hi) == n,
        n < lo ==> clamped(n, lo, hi) == lo,
        n > hi ==> clamped(n, lo, hi) == hi,
{
}

/// The cursor goes to its target at once where it has no time for a tween or is not there
/// yet; otherwise by the first of its steps.
pub proof fn tweens_need_time_and_a_start(tween_ms: u32, x_negative: bool, y_negative: bool)
    ensures
        snaps(tween_ms, x_negative, y_negative) <==> tween_ms == 0 || x_negative || y_negative,
        snaps(tween_ms, x_negative, y_negative) ==> Tween::first(tween_ms, x_negative, y_negative)
            == Tween::Snap,
        !snaps(tween_ms, x_negative, y_negative) ==> Tween::first(tween_ms, x_negative, y_negative)
            == (Tween::Move { index: 1, steps: tween_steps(tween_ms) as u32 }),
{
}

/// Each step of a tween is followed by a pause and that by the next step, up to the last,
/// which ends it; an error that is not transient ends it at once, and is its result.
pub proof fn tweens_go_step_by_step(
    index: u32,
    steps: u32,
    reply: Result<Json, Seq<char>>,
    end: Result<(), Seq<char>>,
    event: TweenHappening,
)
    requires
        1 <= index <= steps <= 120,
    ensures
        ({
            let step = Tween::Move { index, steps };
            let after = step.after(TweenHappening::Reply(reply));
            let fails = reply is Err && !is_transient(reply->Err_0);
            &&& fails ==> after == Tween::Done(Err(reply->Err_0))
            &&& !fails && index < steps ==> after == (Tween::Pause { index, steps })
            &&& !fails && index == steps ==> after == Tween::Done(Ok(()))
            &&& step.after(TweenHappening::Rested) == step
            &&& step.valid()
        }),
        index < steps ==> (Tween::Pause { index, steps }).after(TweenHappening::Rested) == (
        Tween::Move { index: (index + 1) as u32, steps }),
        (Tween::Pause { index, steps }).after(TweenHappening::Reply(reply)) == (Tween::Pause {
            index,
            steps,
        }),
        Tween::Snap.after(TweenHappening::Reply(reply)) == Tween::Done(
            if reply is Err && !is_transient(reply->Err_0) {
                Err(reply->Err_0)
            } else {
                Ok(())
            },
        ),
        Tween::Snap.after(TweenHappening::Rested) == Tween::Snap,
        Tween::Done(end).after(event) == Tween::Done(end),
{
}

/// A ripple is shown as it is born, then step by step with a pause between two, then hidden,
/// and is over.
pub proof fn ripples_go_step_by_step(index: u32, steps: u32)
    requires
        1 <= index <= steps <= 40,
    ensures
        (RippleStep::Born { steps }).next() == (RippleStep::Grow { index: 1, steps }),
        index < steps ==> (RippleStep::Grow { index, steps }).next() == (RippleStep::Pause {
            index,
            steps,
        }),
        index == steps ==> (RippleStep::Grow { index, steps }).next() == RippleStep::Vanish,
        index < steps ==> (RippleStep::Pause { index, steps }).next() == (RippleStep::Grow {
            index: (index + 1) as u32,
            steps,
        }),
        RippleStep::Vanish.next() == RippleStep::Done,
        RippleStep::Done.next() == RippleStep::Done,
        (RippleStep::Grow { index, steps }).valid(),
        index < steps ==> (RippleStep::Pause { index, steps }).valid(),
        steps >= 4 ==> (RippleStep::Born { steps }).valid(),
{
}

/// What is known of the steps of this module is what they hold, errors by their characters.
pub proof fn cursor_steps_are_what_they_hold(
    install: InstallStep,
    remove: RemoveStep,
    tween: TweenStep,
    event: TweenEvent,
)
    ensures
        match install {
            InstallStep::Register => install@ == Installing::Register,
            InstallStep::Evaluate(identifier) => install@ == Installing::Evaluate(identifier@),
            InstallStep::Done(Ok(identifier)) => install@ == Installing::Done(Ok(identifier@)),
            InstallStep::Done(Err(message)) => install@ == Installing::Done(Err(message@)),
        },
        match remove {
            RemoveStep::Unregister(identifier) => remove@ == Removing::Unregister(identifier@),
            RemoveStep::Destroy => remove@ == Removing::Destroy,
            RemoveStep::Done(Ok(_)) => remove@ == Removing::Done(Ok(())),
            RemoveStep::Done(Err(message)) => remove@ == Removing::Done(Err(message@)),
        },
        match tween {
            TweenStep::Snap => tween@ == Tween::Snap,
            TweenStep::Move { index, steps } => tween@ == (Tween::Move { index, steps }),
            TweenStep::Pause { index, steps } => tween@ == (Tween::Pause { index, steps }),
            TweenStep::Done(Ok(_)) => tween@ == Tween::Done(Ok(())),
            TweenStep::Done(Err(message)) => tween@ == Tween::Done(Err(message@)),
        },
        match event {
            TweenEvent::Reply(Ok(value)) => event@ == TweenHappening::Reply(Ok(value@)),
            TweenEvent::Reply(Err(message)) => event@ == TweenHappening::Reply(Err(message@)),
            TweenEvent::Rested => event@ == TweenHappening::Rested,
        },
{
}

} // verus!
