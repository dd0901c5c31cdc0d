//! Laws of the recording effects.

use vstd::prelude::*;

use crate::json::{quoted, Json, JsonValue, Numeral};
use crate::laws::values::contained_texts_stand_in_between;
use crate::options::bounded;
use crate::recording_effects::{
    async_call, configure_text, option_names_read_back, optional_json, optional_text, outcome_text,
    post_roll_after, requested_cursor, requested_effects, runtime_is_missing, shows, ClickSync,
    CursorEffectsConfig, CursorTheme, Effect, InputMode, MotionMode, OverlayPosition,
    RecordEffectsPreset, RecordMode, RecordingEffectsConfig, RecordingEffectsRuntime,
    RecordingEffectsState, RuntimeCourse, RuntimeStep, RECORDING_EFFECTS_RUNTIME_JS,
};
use crate::text::{decimal, is_blank_text};
use crate::time::TimePoint;

verus! {

/// The presets are known under their names, and under no other; another name is refused
/// with that name and the ones that there are.
pub proof fn presets_have_their_names(value: RecordEffectsPreset, text: Seq<char>)
    ensures
        RecordEffectsPreset::Off.name() == "off"@,
        RecordEffectsPreset::Cursor.name() == "cursor"@,
        RecordEffectsPreset::Demo.name() == "demo"@,
        RecordEffectsPreset::named(text) == Some(value) <==> text == value.name(),
        RecordEffectsPreset::named(text) is None <==> text != "off"@ && text != "cursor"@
            && text != "demo"@,
        RecordEffectsPreset::message(text) == "unknown record effects preset '"@
            + text + "'; valid options: cursor, demo, off"@,
{
    option_names_read_back(
        value,
        RecordMode::Demo,
        CursorTheme::Dot,
        MotionMode::Off,
        ClickSync::Block,
        InputMode::Fast,
        OverlayPosition::Top,
    );
}

/// The record modes are known under their names, and under no other; another name is refused
/// with that name and the ones that there are.
pub proof fn record_modes_have_their_names(value: RecordMode, text: Seq<char>)
    ensures
        RecordMode::Automation.name() == "automation"@,
        RecordMode::Demo.name() == "demo"@,
        RecordMode::named(text) == Some(value) <==> text == value.name(),
        RecordMode::named(text) is None <==> text != "automation"@ && text != "demo"@,
        RecordMode::message(text) == "unknown record mode '"@
            + text + "'; valid options: automation, demo"@,
{
    option_names_read_back(
        RecordEffectsPreset::Off,
        value,
        CursorTheme::Dot,
        MotionMode::Off,
        ClickSync::Block,
        InputMode::Fast,
        OverlayPosition::Top,
    );
}

/// The cursor themes are known under their names, and under no other; another name is refused
/// with that name and the ones that there are.
pub proof fn cursor_themes_have_their_names(value: CursorTheme, text: Seq<char>)
    ensures
        CursorTheme::Arrow.name() == "arrow"@,
        CursorTheme::Dot.name() == "dot"@,
        CursorTheme::Hand.name() == "hand"@,
        CursorTheme::named(text) == Some(value) <==> text == value.name(),
        CursorTheme::named(text) is None <==> text != "arrow"@ && text != "dot"@ && text != "hand"@,
        CursorTheme::message(text) == "cursor.theme must be one of arrow, dot, hand, off (got "@
            + text + ")"@,
{
    option_names_read_back(
        RecordEffectsPreset::Off,
        RecordMode::Demo,
        value,
        MotionMode::Off,
        ClickSync::Block,
        InputMode::Fast,
        OverlayPosition::Top,
    );
}

/// The motion modes are known under their names, and under no other; another name is refused
/// with that name and the ones that there are.
pub proof fn motion_modes_have_their_names(value: MotionMode, text: Seq<char>)
    ensures
        MotionMode::Auto.name() == "auto"@,
        MotionMode::Always.name() == "always"@,
        MotionMode::Off.name() == "off"@,
        MotionMode::named(text) == Some(value) <==> text == value.name(),
        MotionMode::named(text) is None <==> text != "auto"@ && text != "always"@ && text != "off"@,
        MotionMode::message(text) == "cursor.motion must be one of auto, always, off (got "@
            + text + ")"@,
{
    option_names_read_back(
        RecordEffectsPreset::Off,
        RecordMode::Demo,
        CursorTheme::Dot,
        value,
        ClickSync::Block,
        InputMode::Fast,
        OverlayPosition::Top,
    );
}

/// The click syncs are known under their names, and under no other; another name is refused
/// with that name and the ones that there are.
pub proof fn click_syncs_have_their_names(value: ClickSync, text: Seq<char>)
    ensures
        ClickSync::Async.name() == "async"@,
        ClickSync::Block.name() == "block"@,
        ClickSync::named(text) == Some(value) <==> text == value.name(),
        ClickSync::named(text) is None <==> text != "async"@ && text != "block"@,
        ClickSync::message(text) == "click sync must be one of async, block (got "@ + text + ")"@,
{
    option_names_read_back(
        RecordEffectsPreset::Off,
        RecordMode::Demo,
        CursorTheme::Dot,
        MotionMode::Off,
        value,
        InputMode::Fast,
        OverlayPosition::Top,
    );
}

/// The input modes are known under their names, and under no other; another name is refused
/// with that name and the ones that there are.
pub proof fn input_modes_have_their_names(value: InputMode, text: Seq<char>)
    ensures
        InputMode::Fast.name() == "fast"@,
        InputMode::Animated.name() == "animated"@,
        InputMode::named(text) == Some(value) <==> text == value.name(),
        InputMode::named(text) is None <==> text != "fast"@ && text != "animated"@,
        InputMode::message(text) == "input mode must be one of fast, animated (got "@ + text + ")"@,
{
    option_names_read_back(
        RecordEffectsPreset::Off,
        RecordMode::Demo,
        CursorTheme::Dot,
        MotionMode::Off,
        ClickSync::Block,
        value,
        OverlayPosition::Top,
    );
}

/// The overlay positions are known under their names, and under no other; another name is refused
/// with that name and the ones that there are.
pub proof fn overlay_positions_have_their_names(value: OverlayPosition, text: Seq<char>)
    ensures
        OverlayPosition::Top.name() == "top"@,
        OverlayPosition::Center.name() == "center"@,
        OverlayPosition::Bottom.name() == "bottom"@,
        OverlayPosition::named(text) == Some(value) <==> text == value.name(),
        OverlayPosition::named(text) is None <==> text != "top"@ && text != "center"@
            && text != "bottom"@,
        OverlayPosition::message(text) == "overlay position must be one of top, center, bottom (got "@
            + text + ")"@,
{
    option_names_read_back(
        RecordEffectsPreset::Off,
        RecordMode::Demo,
        CursorTheme::Dot,
        MotionMode::Off,
        ClickSync::Block,
        InputMode::Fast,
        value,
    );
}

/// The number under `key` is `n`, or none stands there and `n` is the default.
pub open spec fn number_asked(cursor: Json, key: Seq<char>, n: u32, default: u32) -> bool {
    match cursor.member(key) {
        Some(value) => value == Json::Number(Numeral::Unsigned(n as u64)),
        None => n == default,
    }
}

/// The text under `key` is `name`, or none stands there and `name` is the default.
pub open spec fn name_asked(
    cursor: Json,
    key: Seq<char>,
    name: Seq<char>,
    default: Seq<char>,
) -> bool {
    match cursor.member(key) {
        Some(Json::Text(text)) => name == text,
        _ => name == default,
    }
}

/// What a cursor object asks for is what the configuration holds: the theme and the motion
/// of that name, each number that is given, and waiting clicks where either option says so;
/// what is not asked for has its default.
pub proof fn cursor_objects_are_taken_at_their_word(cursor: Json)
    requires
        requested_cursor(cursor) is Ok,
        requested_cursor(cursor)->Ok_0 is Some,
    ensures
        ({
            let config = requested_cursor(cursor)->Ok_0->0;
            &&& cursor is Object
            &&& name_asked(cursor, "theme"@, config.theme.name(), "arrow"@)
            &&& name_asked(cursor, "motion"@, config.motion.name(), "auto"@)
            &&& number_asked(cursor, "size"@, config.size_px, 28)
            &&& number_asked(cursor, "tweenMs"@, config.tween_ms, 250)
            &&& number_asked(cursor, "clickMs"@, config.click_ms, 400)
            &&& 8 <= config.size_px <= 96
            &&& config.tween_ms <= 2000
            &&& config.click_ms <= 2000
            &&& match cursor.member("clickSync"@) {
                Some(Json::Text(text)) => config.click_sync.name() == text,
                _ => config.click_sync == ClickSync::Block <==> cursor.member("blockClicks"@)
                    == Some(Json::Bool(true)),
            }
        }),
{
}

/// The text under `key` is one of `names`, or none stands there.
pub open spec fn name_known(cursor: Json, key: Seq<char>, names: Seq<Seq<char>>) -> bool {
    match cursor.member(key) {
        Some(Json::Text(text)) => names.contains(text),
        _ => true,
    }
}

/// The number under `key` is an integer from `lo` to `hi`, or none stands there.
pub open spec fn number_fits(cursor: Json, key: Seq<char>, lo: int, hi: int) -> bool {
    match cursor.member(key) {
        Some(Json::Number(Numeral::Unsigned(n))) => lo <= n <= hi,
        Some(_) => false,
        None => true,
    }
}

/// A cursor object is accepted with a cursor exactly where each of its options is one
/// that there is; with the theme `off` it is accepted without one, whatever else it asks
/// for.
pub proof fn well_formed_cursor_objects_are_accepted(cursor: Json)
    requires
        cursor is Object,
    ensures
        cursor.member("theme"@) == Some(Json::Text("off"@)) <==> requested_cursor(cursor) == Ok::<
            Option<CursorEffectsConfig>,
            Seq<char>,
        >(None),
        cursor.member("theme"@) != Some(Json::Text("off"@)) ==> (requested_cursor(cursor) is Ok
            <==> {
            &&& name_known(cursor, "theme"@, seq!["arrow"@, "dot"@, "hand"@])
            &&& name_known(cursor, "motion"@, seq!["auto"@, "always"@, "off"@])
            &&& name_known(cursor, "clickSync"@, seq!["async"@, "block"@])
            &&& number_fits(cursor, "size"@, 8, 96)
            &&& number_fits(cursor, "tweenMs"@, 0, 2000)
            &&& number_fits(cursor, "clickMs"@, 0, 2000)
        }),
{
    reveal_strlit("arrow");
    reveal_strlit("off");
    assert("arrow"@.len() == 5 && "off"@.len() == 3);
    let themes = seq!["arrow"@, "dot"@, "hand"@];
    let motions = seq!["auto"@, "always"@, "off"@];
    let syncs = seq!["async"@, "block"@];
    assert(themes[0] == "arrow"@ && themes[1] == "dot"@ && themes[2] == "hand"@);
    assert(motions[0] == "auto"@ && motions[1] == "always"@ && motions[2] == "off"@);
    assert(syncs[0] == "async"@ && syncs[1] == "block"@);
}

/// The bounds of a cursor are those of its options.
pub proof fn cursors_have_the_bounds_of_their_options(config: CursorEffectsConfig)
    ensures
        config.in_bounds() <==> 8 <= config.size_px <= 96 && 0 <= config.tween_ms <= 2000 && 0
            <= config.click_ms <= 2000,
{
}

/// What is wrong with a cursor object is told, the first thing first: that it is no object,
/// then the theme, the motion, the size, the duration of a move, the duration of a click,
/// and how clicks are synchronised.
pub proof fn the_first_wrong_cursor_option_is_told(cursor: Json)
    ensures
        ({
            let told = requested_cursor(cursor);
            let theme = name_known(cursor, "theme"@, seq!["arrow"@, "dot"@, "hand"@, "off"@]);
            let motion = name_known(cursor, "motion"@, seq!["auto"@, "always"@, "off"@]);
            let shown = cursor is Object && cursor.member("theme"@) != Some(Json::Text("off"@));
            let size = bounded(cursor.member("size"@), "size"@, 8, 96, 28);
            let tween = bounded(cursor.member("tweenMs"@), "tweenMs"@, 0, 2000, 250);
            let click = bounded(cursor.member("clickMs"@), "clickMs"@, 0, 2000, 400);
            &&& !(cursor is Object) ==> told == Err::<
                Option<CursorEffectsConfig>,
                Seq<char>,
            >("'cursor' must be an object or \"off\""@)
            &&& cursor is Object && !theme ==> told == Err::<Option<CursorEffectsConfig>, Seq<char>>(
                "cursor.theme must be one of arrow, dot, hand, off (got "@ + cursor.member(
                    "theme"@,
                )->0->Text_0 + ")"@,
            )
            &&& shown && theme && !motion ==> told == Err::<Option<CursorEffectsConfig>, Seq<char>>(
                "cursor.motion must be one of auto, always, off (got "@ + cursor.member(
                    "motion"@,
                )->0->Text_0 + ")"@,
            )
            &&& shown && theme && motion && size is Err ==> told is Err && told->Err_0
                == size->Err_0
            &&& shown && theme && motion && size is Ok && tween is Err ==> told is Err
                && told->Err_0 == tween->Err_0
            &&& shown && theme && motion && size is Ok && tween is Ok && click is Err ==> told
                is Err && told->Err_0 == click->Err_0
            &&& shown && theme && motion && size is Ok && tween is Ok && click is Ok
                && !name_known(cursor, "clickSync"@, seq!["async"@, "block"@]) ==> told == Err::<
                Option<CursorEffectsConfig>,
                Seq<char>,
            >(
                "click sync must be one of async, block (got "@ + cursor.member(
                    "clickSync"@,
                )->0->Text_0 + ")"@,
            )
        }),
{
    reveal_strlit("arrow");
    reveal_strlit("off");
    assert("arrow"@.len() == 5 && "off"@.len() == 3);
    let themes = seq!["arrow"@, "dot"@, "hand"@, "off"@];
    let motions = seq!["auto"@, "always"@, "off"@];
    let syncs = seq!["async"@, "block"@];
    assert(themes[0] == "arrow"@ && themes[1] == "dot"@ && themes[2] == "hand"@ && themes[3]
        == "off"@);
    assert(motions[0] == "auto"@ && motions[1] == "always"@ && motions[2] == "off"@);
    assert(syncs[0] == "async"@ && syncs[1] == "block"@);
}

/// What a command asks for is what the effects hold, in every mode: the record mode, the
/// input mode and the click sync of that name, the input delay, and of the cursor object
/// the theme, the motion, the size and each duration that is given. What is not asked for
/// depends on the mode, and the mode, where that is not asked for, on the preset.
pub proof fn commands_are_taken_at_their_word(
    preset: RecordEffectsPreset,
    cursor: Option<Json>,
    mode: Option<Seq<char>>,
    sync: Option<Seq<char>>,
    input: Option<Seq<char>>,
    delay_ms: Option<u64>,
)
    requires
        requested_effects(preset, cursor, mode, sync, input, delay_ms) is Ok,
        requested_effects(preset, cursor, mode, sync, input, delay_ms)->Ok_0 is Some,
    ensures
        ({
            let effects = requested_effects(
                preset,
                cursor,
                mode,
                sync,
                input,
                delay_ms,
            )->Ok_0->0;
            let demo = effects.mode == RecordMode::Demo;
            let object = match cursor {
                Some(value) => value,
                None => Json::Object(Seq::empty()),
            };
            &&& preset != RecordEffectsPreset::Off
            &&& match mode {
                Some(text) => effects.mode.name() == text,
                None => demo <==> preset == RecordEffectsPreset::Demo,
            }
            &&& match input {
                Some(text) => effects.input_mode.name() == text,
                None => effects.input_mode == InputMode::Animated <==> demo,
            }
            &&& match delay_ms {
                Some(ms) => effects.input_delay_ms == ms,
                None => effects.input_delay_ms == if effects.input_mode == InputMode::Animated {
                    35u64
                } else {
                    0
                },
            }
            &&& effects.cursor is None <==> object.member("theme"@) == Some(Json::Text("off"@))
            &&& effects.cursor is Some ==> {
                let shown = effects.cursor->0;
                &&& name_asked(object, "theme"@, shown.theme.name(), "arrow"@)
                &&& name_asked(object, "motion"@, shown.motion.name(), "auto"@)
                &&& number_asked(object, "size"@, shown.size_px, 28)
                &&& demo ==> number_asked(object, "tweenMs"@, shown.tween_ms, 700)
                &&& !demo ==> number_asked(object, "tweenMs"@, shown.tween_ms, 250)
                &&& demo ==> number_asked(object, "clickMs"@, shown.click_ms, 500)
                &&& !demo ==> number_asked(object, "clickMs"@, shown.click_ms, 400)
                &&& match sync {
                    Some(text) => shown.click_sync.name() == text,
                    None => if demo {
                        shown.click_sync == ClickSync::Block
                    } else {
                        match object.member("clickSync"@) {
                            Some(Json::Text(text)) => shown.click_sync.name() == text,
                            _ => shown.click_sync == ClickSync::Block <==> object.member(
                                "blockClicks"@,
                            ) == Some(Json::Bool(true)),
                        }
                    },
                }
            }
        }),
{
    reveal_strlit("arrow");
    reveal_strlit("off");
    assert("arrow"@.len() == 5 && "off"@.len() == 3);
}

/// A command is accepted exactly where its mode, its cursor object, its input mode and,
/// with a cursor, its click sync are ones that there are; the first that is not is told.
/// With effects off nothing is looked at.
pub proof fn the_first_wrong_option_is_told(
    preset: RecordEffectsPreset,
    cursor: Option<Json>,
    mode: Option<Seq<char>>,
    sync: Option<Seq<char>>,
    input: Option<Seq<char>>,
    delay_ms: Option<u64>,
)
    ensures
        ({
            let told = requested_effects(preset, cursor, mode, sync, input, delay_ms);
            let on = preset != RecordEffectsPreset::Off;
            let mode_known = mode is Some ==> mode->0 == "automation"@ || mode->0 == "demo"@;
            let cursor_known = cursor is Some ==> requested_cursor(cursor->0) is Ok;
            let hidden = cursor is Some && cursor->0.member("theme"@) == Some(
                Json::Text("off"@),
            );
            let sync_known = sync is Some && !hidden ==> sync->0 == "async"@ || sync->0
                == "block"@;
            let input_known = input is Some ==> input->0 == "fast"@ || input->0 == "animated"@;
            &&& !on ==> told == Ok::<Option<RecordingEffectsConfig>, Seq<char>>(None)
            &&& on ==> (told is Ok <==> mode_known && cursor_known && sync_known && input_known)
            &&& on && told is Ok ==> told->Ok_0 is Some
            &&& on && !mode_known ==> told == Err::<Option<RecordingEffectsConfig>, Seq<char>>(
                "unknown record mode '"@ + mode->0 + "'; valid options: automation, demo"@,
            )
            &&& on && mode_known && !cursor_known ==> told is Err && told->Err_0
                == requested_cursor(cursor->0)->Err_0
            &&& on && mode_known && cursor_known && !sync_known ==> told == Err::<
                Option<RecordingEffectsConfig>,
                Seq<char>,
            >("click sync must be one of async, block (got "@ + sync->0 + ")"@)
            &&& on && mode_known && cursor_known && sync_known && !input_known ==> told == Err::<
                Option<RecordingEffectsConfig>,
                Seq<char>,
            >("input mode must be one of fast, animated (got "@ + input->0 + ")"@)
        }),
{
    reveal_strlit("arrow");
    reveal_strlit("off");
    assert("arrow"@.len() == 5 && "off"@.len() == 3);
}

/// The texts and values that a command carries are read as they stand.
pub proof fn options_are_read_as_they_stand(text: &str, value: &JsonValue)
    ensures
        optional_text(Some(text)) == Some(text@),
        optional_text(None) is None,
        optional_json(Some(value)) == Some(value@),
        optional_json(None) is None,
{
}

/// A click that waits for the cursor waits exactly as long as a move of the cursor takes,
/// which is the tween that is configured, and nothing without motion; other clicks do not
/// wait. A ripple takes the click duration, one millisecond at least.
pub proof fn blocked_clicks_wait_for_the_tween(cursor: CursorEffectsConfig)
    ensures
        cursor.motion == MotionMode::Off ==> cursor.move_ms() == 0,
        cursor.motion != MotionMode::Off ==> cursor.move_ms() == cursor.tween_ms,
        cursor.click_sync == ClickSync::Block && cursor.motion != MotionMode::Off
            ==> cursor.click_delay_ms() == cursor.tween_ms,
        cursor.click_sync == ClickSync::Block && cursor.motion == MotionMode::Off
            ==> cursor.click_delay_ms() == 0,
        cursor.click_sync == ClickSync::Async ==> cursor.click_delay_ms() == 0,
        cursor.click_ms > 0 ==> cursor.ripple_ms() == cursor.click_ms,
        cursor.click_ms == 0 ==> cursor.ripple_ms() == 1,
{
}

/// How many milliseconds after its start an effect ends: a move after its tween, a click
/// after its ripple and its move, which comes first where clicks wait, a key label after
/// 900, an overlay 180 after its own time, a spotlight after its own time, a zoom 700
/// after its own time or 650 without one, a reset after 700. Nothing that is not shown
/// ends.
pub open spec fn lasting_ms(effect: Effect, cursor: Option<CursorEffectsConfig>) -> Option<int> {
    match effect {
        Effect::Move => match cursor {
            Some(c) => Some(
                if c.motion == MotionMode::Off {
                    0
                } else {
                    c.tween_ms as int
                },
            ),
            None => None,
        },
        Effect::Click => match cursor {
            Some(c) => {
                let tween = if c.motion == MotionMode::Off {
                    0
                } else {
                    c.tween_ms as int
                };
                let ripple = if c.click_ms == 0 {
                    1
                } else {
                    c.click_ms as int
                };
                Some(
                    if c.click_sync == ClickSync::Block {
                        tween + ripple
                    } else if tween > ripple {
                        tween
                    } else {
                        ripple
                    },
                )
            },
            None => None,
        },
        Effect::Key(label) => if label.len() == 0 {
            None
        } else {
            Some(900)
        },
        Effect::OverlayText(text, ms) => if is_blank_text(text) {
            None
        } else if ms == 0 {
            Some(181)
        } else {
            Some(ms + 180)
        },
        Effect::Spotlight(ms) => if ms == 0 {
            Some(1)
        } else {
            Some(ms as int)
        },
        Effect::ClearOverlay => None,
        Effect::ZoomTo(None) => Some(650),
        Effect::ZoomTo(Some(ms)) => if ms == 0 {
            Some(701)
        } else {
            Some(ms + 700)
        },
        Effect::ZoomReset => Some(700),
    }
}

/// When an effect starts that is asked for at `now`: at once, but for an overlay, which
/// starts when the ones before it have ended.
pub open spec fn starting_nanos(effect: Effect, chain: Option<TimePoint>, now: TimePoint) -> int {
    if effect is OverlayText && chain is Some && chain->0.nanos > now.nanos {
        chain->0.nanos as int
    } else {
        now.nanos as int
    }
}

/// The effects last until the latest of their ends: after another effect, until it ends or
/// for as long as before, whichever is later. Only an overlay that is shown moves the time
/// at which the next overlay starts, to its own end; clearing forgets that time.
pub proof fn effects_last_for_their_time<Client, Number>(
    state: RecordingEffectsState<Client, Number>,
    effect: Effect,
    now: TimePoint,
)
    requires
        state.can_show(effect, now),
    ensures
        ({
            let after = state.after(effect, now);
            let ms = lasting_ms(effect, state.config.cursor);
            let end = starting_nanos(effect, state.overlay_chain_until, now) + 1_000_000 * ms->0;
            &&& ms is None ==> after.effect_active_until == state.effect_active_until
            &&& ms is Some ==> after.effect_active_until is Some
            &&& ms is Some && state.effect_active_until is None
                ==> after.effect_active_until->0.nanos == end
            &&& ms is Some && state.effect_active_until is Some
                ==> after.effect_active_until->0.nanos == if state.effect_active_until->0.nanos
                > end {
                state.effect_active_until->0.nanos as int
            } else {
                end
            }
            &&& effect is OverlayText && ms is Some ==> after.overlay_chain_until is Some
                && after.overlay_chain_until->0.nanos == end
            &&& effect is OverlayText && ms is None ==> after.overlay_chain_until
                == state.overlay_chain_until
            &&& effect is ClearOverlay ==> after.overlay_chain_until is None
            &&& !(effect is OverlayText) && !(effect is ClearOverlay)
                ==> after.overlay_chain_until == state.overlay_chain_until
            &&& after.config == state.config
            &&& after.target == state.target
            &&& after.runtime_installed == state.runtime_installed
            &&& after.move_flush_scheduled == state.move_flush_scheduled
            &&& effect is Click && state.config.cursor is Some ==> after.pending_move is None
            &&& !(effect is Click && state.config.cursor is Some) ==> after.pending_move
                == state.pending_move
        }),
{
}

/// Every effect can be shown whose end is in the range of the clock and whose duration can
/// be added to.
pub proof fn ordinary_effects_can_be_shown<Client, Number>(
    state: RecordingEffectsState<Client, Number>,
    effect: Effect,
    now: TimePoint,
)
    requires
        effect is OverlayText ==> effect->OverlayText_1 < 0xffff_ffff_ffff_ff00,
        lasting_ms(effect, state.config.cursor) is Some ==> starting_nanos(
            effect,
            state.overlay_chain_until,
            now,
        ) + 1_000_000 * lasting_ms(effect, state.config.cursor)->0
            <= 0xffff_ffff_ffff_ffff_ffff_ffff_ffff_ffff,
    ensures
        state.can_show(effect, now),
{
}

/// A recording that is stopped goes on to the end of its effects and 650 milliseconds
/// more, for these 650 where the effects ended within the last two seconds, and not at all
/// otherwise.
pub proof fn post_rolls_reach_past_the_effects<Client, Number>(
    state: RecordingEffectsState<Client, Number>,
    end: TimePoint,
    now: TimePoint,
)
    ensures
        now.nanos <= end.nanos ==> now.nanos + post_roll_after(end, now) == end.nanos
            + 650_000_000,
        end.nanos < now.nanos <= end.nanos + 2_000_000_000 ==> post_roll_after(end, now)
            == 650_000_000,
        now.nanos > end.nanos + 2_000_000_000 ==> post_roll_after(end, now) == 0,
        state.effect_active_until is None ==> state.post_roll(now) == 0,
        state.effect_active_until is Some ==> state.post_roll(now) == post_roll_after(
            state.effect_active_until->0,
            now,
        ),
{
}

/// A move that is queued takes the place of one that waits, and lasts as a move does; a
/// flush takes it away and lets the next move schedule another. Nothing else changes.
pub proof fn queued_moves_wait_for_the_flush<Client, Number>(
    state: RecordingEffectsState<Client, Number>,
    x: Number,
    y: Number,
    now: TimePoint,
)
    ensures
        ({
            let queued = state.queued(x, y, now);
            let moved = state.after(Effect::Move, now);
            &&& queued.pending_move == Some((x, y))
            &&& queued.move_flush_scheduled
            &&& queued.effect_active_until == moved.effect_active_until
            &&& queued.overlay_chain_until == state.overlay_chain_until
            &&& queued.config == state.config
            &&& queued.target == state.target
            &&& queued.runtime_installed == state.runtime_installed
        }),
        ({
            let flushed = state.flushed();
            &&& flushed.pending_move is None
            &&& !flushed.move_flush_scheduled
            &&& flushed.effect_active_until == state.effect_active_until
            &&& flushed.overlay_chain_until == state.overlay_chain_until
            &&& flushed.config == state.config
            &&& flushed.target == state.target
            &&& flushed.runtime_installed == state.runtime_installed
        }),
{
}

/// The runtime script is to be installed where there is a session and it has not been
/// installed; an installation counts where it succeeded, and changes nothing else.
pub proof fn installations_count_once_they_succeed<Client, Number>(
    state: RecordingEffectsState<Client, Number>,
    succeeded: bool,
)
    ensures
        state.awaits_install() <==> state.target is Some && !state.runtime_installed,
        succeeded ==> state.after_install(succeeded) == (RecordingEffectsState {
            runtime_installed: true,
            ..state
        }),
        !succeeded ==> state.after_install(succeeded) == state,
{
}

/// Effects are shown in the session that they were made for, with their configuration, and
/// nowhere without one.
pub proof fn effects_are_shown_in_their_session<Client, Number>(
    runtime: Option<RecordingEffectsRuntime<Client>>,
    state: RecordingEffectsState<Client, Number>,
)
    requires
        shows(runtime, state),
    ensures
        state.target is None <==> runtime is None,
        runtime is Some ==> runtime->0.config == state.config,
        runtime is Some ==> runtime->0.target.client == state.target->0.client,
        runtime is Some ==> runtime->0.target.session_id@ == state.target->0.session_id@,
{
}

/// A call is made on the page's effects, and waited for.
pub proof fn calls_are_made_on_the_effects(call: Seq<char>)
    ensures
        async_call(call) == "(async () => { await window.__agentBrowserRecordingEffects."@ + call
            + "; })()"@,
{
}

/// The page is told every setting of the cursor under its name, the duration of a move as
/// it is in its motion, and that there is no cursor where there is none.
pub proof fn pages_are_told_every_setting(config: RecordingEffectsConfig)
    ensures
        config.cursor is None ==> configure_text(config) == "configure({ cursor: null })"@,
        config.cursor is Some ==> configure_text(config) == "configure({\"cursor\":{\"clickMs\":"@
            + decimal(config.cursor->0.click_ms as nat) + ",\"clickSync\":"@ + quoted(
            match config.cursor->0.click_sync {
                ClickSync::Async => "async"@,
                ClickSync::Block => "block"@,
            },
        ) + ",\"motion\":"@ + quoted(
            match config.cursor->0.motion {
                MotionMode::Auto => "auto"@,
                MotionMode::Always => "always"@,
                MotionMode::Off => "off"@,
            },
        ) + ",\"size\":"@ + decimal(config.cursor->0.size_px as nat) + ",\"theme\":"@ + quoted(
            match config.cursor->0.theme {
                CursorTheme::Arrow => "arrow"@,
                CursorTheme::Dot => "dot"@,
                CursorTheme::Hand => "hand"@,
            },
        ) + ",\"tweenMs\":"@ + decimal(
            match config.cursor->0.motion {
                MotionMode::Off => 0nat,
                _ => config.cursor->0.tween_ms as nat,
            },
        ) + "}})"@,
{
}

/// Effects are missing where the error speaks of them or of something undefined.
pub proof fn missing_effects_are_recognised(message: Seq<char>)
    ensures
        runtime_is_missing(message) <==> {
            ||| exists|a: Seq<char>, b: Seq<char>|
                message == #[trigger] (a + "__agentBrowserRecordingEffects"@ + b)
            ||| exists|a: Seq<char>, b: Seq<char>|
                message == #[trigger] (a + "Cannot read properties of undefined"@ + b)
            ||| exists|a: Seq<char>, b: Seq<char>|
                message == #[trigger] (a + "Cannot read property"@ + b)
        },
{
    contained_texts_stand_in_between(message, "__agentBrowserRecordingEffects"@);
    contained_texts_stand_in_between(message, "Cannot read properties of undefined"@);
    contained_texts_stand_in_between(message, "Cannot read property"@);
}

/// Both times that a call is made it is the same call; between them the runtime script is
/// evaluated, then the configuration is told. Nothing is evaluated when it is over.
pub proof fn courses_evaluate_the_call_and_the_installation(
    call: Seq<char>,
    config: RecordingEffectsConfig,
    retry: bool,
    outcome: Result<(), Seq<char>>,
)
    ensures
        RuntimeCourse::Attempt.script(call, config) == Some(async_call(call)),
        RuntimeCourse::Retry.script(call, config) == Some(async_call(call)),
        (RuntimeCourse::Install { retry }).script(call, config) == Some(
            RECORDING_EFFECTS_RUNTIME_JS@,
        ),
        (RuntimeCourse::Configure { retry }).script(call, config) == Some(
            async_call(configure_text(config)),
        ),
        RuntimeCourse::Done(outcome).script(call, config) is None,
{
}

/// An error on the way of an installation ends the course with that error; so does what
/// comes of the second call, and of a configuration that was asked for by itself. A course
/// that is over stays as it ended.
pub proof fn courses_end_with_what_came_out(
    message: Seq<char>,
    retry: bool,
    end: Result<(), Seq<char>>,
    outcome: Result<(), Seq<char>>,
)
    ensures
        (RuntimeCourse::Install { retry }).after(Err(message)) == RuntimeCourse::Done(
            Err(message),
        ),
        (RuntimeCourse::Install { retry }).after(Ok(())) == (RuntimeCourse::Configure { retry }),
        (RuntimeCourse::Configure { retry }).after(Err(message)) == RuntimeCourse::Done(
            Err(message),
        ),
        (RuntimeCourse::Configure { retry: true }).after(Ok(())) == RuntimeCourse::Retry,
        (RuntimeCourse::Configure { retry: false }).after(Ok(())) == RuntimeCourse::Done(Ok(())),
        RuntimeCourse::Retry.after(outcome) == RuntimeCourse::Done(outcome),
        RuntimeCourse::Done(end).after(outcome) == RuntimeCourse::Done(end),
        RuntimeCourse::Attempt.after(Ok(())) == RuntimeCourse::Done(Ok(())),
        runtime_is_missing(message) ==> RuntimeCourse::Attempt.after(Err(message)) == (
        RuntimeCourse::Install { retry: true }),
        !runtime_is_missing(message) ==> RuntimeCourse::Attempt.after(Err(message))
            == RuntimeCourse::Done(Err(message)),
{
}

/// A step is what it holds, an error by its characters.
pub proof fn steps_are_what_they_hold(step: RuntimeStep, outcome: Result<(), String>)
    ensures
        outcome_text(outcome) == match outcome {
            Ok(_) => Ok(()),
            Err(message) => Err(message@),
        },
        match step {
            RuntimeStep::Attempt => step@ == RuntimeCourse::Attempt,
            RuntimeStep::Install { retry } => step@ == (RuntimeCourse::Install { retry }),
            RuntimeStep::Configure { retry } => step@ == (RuntimeCourse::Configure { retry }),
            RuntimeStep::Retry => step@ == RuntimeCourse::Retry,
            RuntimeStep::Done(end) => step@ == RuntimeCourse::Done(
                match end {
                    Ok(_) => Ok(()),
                    Err(message) => Err(message@),
                },
            ),
        },
{
}

} // verus!
