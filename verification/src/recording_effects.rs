//! Recording effects: what is shown in a recording besides the page (cursor, click
//! ripples, key labels, text overlays, spotlight, zoom), how it is configured, and
//! how long each effect keeps the recording busy.

use std::sync::Arc;

use vstd::prelude::*;
use vstd::string::*;

use crate::cdp::{
    evaluate_promise_command, evaluate_with_promise, evaluation_outcome, CdpCommand,
    ExceptionDetails,
};
use crate::json::{js_string, quoted, Json, JsonValue};
use crate::options::{bounded, bounded_u32, flag_option, is_set, text_option, text_or};
use crate::sharing::share;
use crate::text::{
    agrees, contains, decimal, decimal_text, is_blank, is_blank_text, occurs_in, same_text,
};
use crate::time::{millis, TimePoint, TimeSpan, NANOS_PER_SEC};

verus! {

/// What a recording shows besides the page.
#[derive(Debug, Clone, Copy, PartialEq, Eq, Structural)]
pub enum RecordEffectsPreset {
    Off,
    Cursor,
    Demo,
}

impl RecordEffectsPreset {
    /// The name under which commands speak of it.
    pub open spec fn name(self) -> Seq<char> {
        match self {
            RecordEffectsPreset::Off => "off"@,
            RecordEffectsPreset::Cursor => "cursor"@,
            RecordEffectsPreset::Demo => "demo"@,
        }
    }

    /// The one that `text` names.
    pub open spec fn named(text: Seq<char>) -> Option<RecordEffectsPreset> {
        if text == "off"@ {
            Some(RecordEffectsPreset::Off)
        } else if text == "cursor"@ {
            Some(RecordEffectsPreset::Cursor)
        } else if text == "demo"@ {
            Some(RecordEffectsPreset::Demo)
        } else {
            None
        }
    }

    /// What is said of a text that names none.
    pub open spec fn message(text: Seq<char>) -> Seq<char> {
        "unknown record effects preset '"@ + text + "'; valid options: cursor, demo, off"@
    }

    /// Reads a name.
    pub fn from_str(s: &str) -> (r: Result<Self, String>)
        ensures
            match r {
                Ok(value) => RecordEffectsPreset::named(s@) == Some(value),
                Err(message) => RecordEffectsPreset::named(s@) is None && message@ == RecordEffectsPreset::message(s@),
            },
    {
        if same_text(s, "off") {
            Ok(RecordEffectsPreset::Off)
        } else if same_text(s, "cursor") {
            Ok(RecordEffectsPreset::Cursor)
        } else if same_text(s, "demo") {
            Ok(RecordEffectsPreset::Demo)
        } else {
            let mut message = "unknown record effects preset '".to_owned();
            message.append(s);
            message.append("'; valid options: cursor, demo, off");
            Err(message)
        }
    }

    /// The name under which commands speak of it.
    pub fn as_str(self) -> (r: &'static str)
        ensures
            r@ == self.name(),
    {
        match self {
            RecordEffectsPreset::Off => "off",
            RecordEffectsPreset::Cursor => "cursor",
            RecordEffectsPreset::Demo => "demo",
        }
    }

    /// Whether anything is shown besides the page.
    pub fn enabled(self) -> (r: bool)
        ensures
            r == (self != RecordEffectsPreset::Off),
    {
        match self {
            RecordEffectsPreset::Off => false,
            _ => true,
        }
    }
}

/// How the actions of a recording are timed.
#[derive(Debug, Clone, Copy, PartialEq, Eq, Structural)]
pub enum RecordMode {
    Automation,
    Demo,
}

impl RecordMode {
    /// The name under which commands speak of it.
    pub open spec fn name(self) -> Seq<char> {
        match self {
            RecordMode::Automation => "automation"@,
            RecordMode::Demo => "demo"@,
        }
    }

    /// The one that `text` names.
    pub open spec fn named(text: Seq<char>) -> Option<RecordMode> {
        if text == "automation"@ {
            Some(RecordMode::Automation)
        } else if text == "demo"@ {
            Some(RecordMode::Demo)
        } else {
            None
        }
    }

    /// What is said of a text that names none.
    pub open spec fn message(text: Seq<char>) -> Seq<char> {
        "unknown record mode '"@ + text + "'; valid options: automation, demo"@
    }

    /// Reads a name.
    pub fn from_str(s: &str) -> (r: Result<Self, String>)
        ensures
            match r {
                Ok(value) => RecordMode::named(s@) == Some(value),
                Err(message) => RecordMode::named(s@) is None && message@ == RecordMode::message(s@),
            },
    {
        if same_text(s, "automation") {
            Ok(RecordMode::Automation)
        } else if same_text(s, "demo") {
            Ok(RecordMode::Demo)
        } else {
            let mut message = "unknown record mode '".to_owned();
            message.append(s);
            message.append("'; valid options: automation, demo");
            Err(message)
        }
    }
}

/// The shape of the cursor.
#[derive(Debug, Clone, Copy, PartialEq, Eq, Structural)]
pub enum CursorTheme {
    Arrow,
    Dot,
    Hand,
}

impl CursorTheme {
    /// The name under which commands speak of it.
    pub open spec fn name(self) -> Seq<char> {
        match self {
            CursorTheme::Arrow => "arrow"@,
            CursorTheme::Dot => "dot"@,
            CursorTheme::Hand => "hand"@,
        }
    }

    /// The one that `text` names.
    pub open spec fn named(text: Seq<char>) -> Option<CursorTheme> {
        if text == "arrow"@ {
            Some(CursorTheme::Arrow)
        } else if text == "dot"@ {
            Some(CursorTheme::Dot)
        } else if text == "hand"@ {
            Some(CursorTheme::Hand)
        } else {
            None
        }
    }

    /// What is said of a text that names none.
    pub open spec fn message(text: Seq<char>) -> Seq<char> {
        "cursor.theme must be one of arrow, dot, hand, off (got "@ + text + ")"@
    }

    /// Reads a name.
    pub fn from_str(s: &str) -> (r: Result<Self, String>)
        ensures
            match r {
                Ok(value) => CursorTheme::named(s@) == Some(value),
                Err(message) => CursorTheme::named(s@) is None && message@ == CursorTheme::message(s@),
            },
    {
        if same_text(s, "arrow") {
            Ok(CursorTheme::Arrow)
        } else if same_text(s, "dot") {
            Ok(CursorTheme::Dot)
        } else if same_text(s, "hand") {
            Ok(CursorTheme::Hand)
        } else {
            let mut message = "cursor.theme must be one of arrow, dot, hand, off (got ".to_owned();
            message.append(s);
            message.append(")");
            Err(message)
        }
    }

    /// The name under which commands speak of it.
    pub fn as_str(self) -> (r: &'static str)
        ensures
            r@ == self.name(),
    {
        match self {
            CursorTheme::Arrow => "arrow",
            CursorTheme::Dot => "dot",
            CursorTheme::Hand => "hand",
        }
    }
}

/// How the cursor moves.
#[derive(Debug, Clone, Copy, PartialEq, Eq, Structural)]
pub enum MotionMode {
    Auto,
    Always,
    Off,
}

impl MotionMode {
    /// The name under which commands speak of it.
    pub open spec fn name(self) -> Seq<char> {
        match self {
            MotionMode::Auto => "auto"@,
            MotionMode::Always => "always"@,
            MotionMode::Off => "off"@,
        }
    }

    /// The one that `text` names.
    pub open spec fn named(text: Seq<char>) -> Option<MotionMode> {
        if text == "auto"@ {
            Some(MotionMode::Auto)
        } else if text == "always"@ {
            Some(MotionMode::Always)
        } else if text == "off"@ {
            Some(MotionMode::Off)
        } else {
            None
        }
    }

    /// What is said of a text that names none.
    pub open spec fn message(text: Seq<char>) -> Seq<char> {
        "cursor.motion must be one of auto, always, off (got "@ + text + ")"@
    }

    /// Reads a name.
    pub fn from_str(s: &str) -> (r: Result<Self, String>)
        ensures
            match r {
                Ok(value) => MotionMode::named(s@) == Some(value),
                Err(message) => MotionMode::named(s@) is None && message@ == MotionMode::message(s@),
            },
    {
        if same_text(s, "auto") {
            Ok(MotionMode::Auto)
        } else if same_text(s, "always") {
            Ok(MotionMode::Always)
        } else if same_text(s, "off") {
            Ok(MotionMode::Off)
        } else {
            let mut message = "cursor.motion must be one of auto, always, off (got ".to_owned();
            message.append(s);
            message.append(")");
            Err(message)
        }
    }

    /// The name under which commands speak of it.
    pub fn as_str(self) -> (r: &'static str)
        ensures
            r@ == self.name(),
    {
        match self {
            MotionMode::Auto => "auto",
            MotionMode::Always => "always",
            MotionMode::Off => "off",
        }
    }
}

/// Whether a click waits for the cursor.
#[derive(Debug, Clone, Copy, PartialEq, Eq, Structural)]
pub enum ClickSync {
    Async,
    Block,
}

impl ClickSync {
    /// The name under which commands speak of it.
    pub open spec fn name(self) -> Seq<char> {
        match self {
            ClickSync::Async => "async"@,
            ClickSync::Block => "block"@,
        }
    }

    /// The one that `text` names.
    pub open spec fn named(text: Seq<char>) -> Option<ClickSync> {
        if text == "async"@ {
            Some(ClickSync::Async)
        } else if text == "block"@ {
            Some(ClickSync::Block)
        } else {
            None
        }
    }

    /// What is said of a text that names none.
    pub open spec fn message(text: Seq<char>) -> Seq<char> {
        "click sync must be one of async, block (got "@ + text + ")"@
    }

    /// Reads a name.
    pub fn from_str(s: &str) -> (r: Result<Self, String>)
        ensures
            match r {
                Ok(value) => ClickSync::named(s@) == Some(value),
                Err(message) => ClickSync::named(s@) is None && message@ == ClickSync::message(s@),
            },
    {
        if same_text(s, "async") {
            Ok(ClickSync::Async)
        } else if same_text(s, "block") {
            Ok(ClickSync::Block)
        } else {
            let mut message = "click sync must be one of async, block (got ".to_owned();
            message.append(s);
            message.append(")");
            Err(message)
        }
    }

    /// The name under which commands speak of it.
    pub fn as_str(self) -> (r: &'static str)
        ensures
            r@ == self.name(),
    {
        match self {
            ClickSync::Async => "async",
            ClickSync::Block => "block",
        }
    }
}

/// How text is typed.
#[derive(Debug, Clone, Copy, PartialEq, Eq, Structural)]
pub enum InputMode {
    Fast,
    Animated,
}

impl InputMode {
    /// The name under which commands speak of it.
    pub open spec fn name(self) -> Seq<char> {
        match self {
            InputMode::Fast => "fast"@,
            InputMode::Animated => "animated"@,
        }
    }

    /// The one that `text` names.
    pub open spec fn named(text: Seq<char>) -> Option<InputMode> {
        if text == "fast"@ {
            Some(InputMode::Fast)
        } else if text == "animated"@ {
            Some(InputMode::Animated)
        } else {
            None
        }
    }

    /// What is said of a text that names none.
    pub open spec fn message(text: Seq<char>) -> Seq<char> {
        "input mode must be one of fast, animated (got "@ + text + ")"@
    }

    /// Reads a name.
    pub fn from_str(s: &str) -> (r: Result<Self, String>)
        ensures
            match r {
                Ok(value) => InputMode::named(s@) == Some(value),
                Err(message) => InputMode::named(s@) is None && message@ == InputMode::message(s@),
            },
    {
        if same_text(s, "fast") {
            Ok(InputMode::Fast)
        } else if same_text(s, "animated") {
            Ok(InputMode::Animated)
        } else {
            let mut message = "input mode must be one of fast, animated (got ".to_owned();
            message.append(s);
            message.append(")");
            Err(message)
        }
    }
}

/// Where a text overlay stands.
#[derive(Debug, Clone, Copy, PartialEq, Eq, Structural)]
pub enum OverlayPosition {
    Top,
    Center,
    Bottom,
}

impl OverlayPosition {
    /// The name under which commands speak of it.
    pub open spec fn name(self) -> Seq<char> {
        match self {
            OverlayPosition::Top => "top"@,
            OverlayPosition::Center => "center"@,
            OverlayPosition::Bottom => "bottom"@,
        }
    }

    /// The one that `text` names.
    pub open spec fn named(text: Seq<char>) -> Option<OverlayPosition> {
        if text == "top"@ {
            Some(OverlayPosition::Top)
        } else if text == "center"@ {
            Some(OverlayPosition::Center)
        } else if text == "bottom"@ {
            Some(OverlayPosition::Bottom)
        } else {
            None
        }
    }

    /// What is said of a text that names none.
    pub open spec fn message(text: Seq<char>) -> Seq<char> {
        "overlay position must be one of top, center, bottom (got "@ + text + ")"@
    }

    /// Reads a name.
    pub fn from_str(s: &str) -> (r: Result<Self, String>)
        ensures
            match r {
                Ok(value) => OverlayPosition::named(s@) == Some(value),
                Err(message) => OverlayPosition::named(s@) is None && message@ == OverlayPosition::message(s@),
            },
    {
        if same_text(s, "top") {
            Ok(OverlayPosition::Top)
        } else if same_text(s, "center") {
            Ok(OverlayPosition::Center)
        } else if same_text(s, "bottom") {
            Ok(OverlayPosition::Bottom)
        } else {
            let mut message = "overlay position must be one of top, center, bottom (got ".to_owned();
            message.append(s);
            message.append(")");
            Err(message)
        }
    }

    /// The name under which commands speak of it.
    pub fn as_str(self) -> (r: &'static str)
        ensures
            r@ == self.name(),
    {
        match self {
            OverlayPosition::Top => "top",
            OverlayPosition::Center => "center",
            OverlayPosition::Bottom => "bottom",
        }
    }
}

/// Every name is read back as what it names.
pub proof fn option_names_read_back(
    preset: RecordEffectsPreset,
    mode: RecordMode,
    theme: CursorTheme,
    motion: MotionMode,
    sync: ClickSync,
    input: InputMode,
    position: OverlayPosition,
)
    ensures
        RecordEffectsPreset::named(preset.name()) == Some(preset),
        RecordMode::named(mode.name()) == Some(mode),
        CursorTheme::named(theme.name()) == Some(theme),
        MotionMode::named(motion.name()) == Some(motion),
        ClickSync::named(sync.name()) == Some(sync),
        InputMode::named(input.name()) == Some(input),
        OverlayPosition::named(position.name()) == Some(position),
{
    reveal_strlit("off");
    reveal_strlit("cursor");
    reveal_strlit("demo");
    reveal_strlit("automation");
    reveal_strlit("arrow");
    reveal_strlit("dot");
    reveal_strlit("hand");
    reveal_strlit("auto");
    reveal_strlit("always");
    reveal_strlit("async");
    reveal_strlit("block");
    reveal_strlit("fast");
    reveal_strlit("animated");
    reveal_strlit("top");
    reveal_strlit("center");
    reveal_strlit("bottom");
    assert("off"@[0] != "cursor"@[0] && "off"@[0] != "demo"@[0] && "cursor"@[0] != "demo"@[0]);
    assert("automation"@[0] != "demo"@[0]);
    assert("arrow"@[0] != "dot"@[0] && "arrow"@[0] != "hand"@[0] && "dot"@[0] != "hand"@[0]);
    assert("auto"@[1] != "always"@[1] && "auto"@[0] != "off"@[0] && "always"@[0] != "off"@[0]);
    assert("async"@[0] != "block"@[0]);
    assert("fast"@[0] != "animated"@[0]);
    assert("top"@[0] != "center"@[0] && "top"@[0] != "bottom"@[0] && "center"@[0] != "bottom"@[0]);
}

/// The cursor of a recording.
#[derive(Debug, Clone, Copy, PartialEq, Eq, Structural)]
pub struct CursorEffectsConfig {
    pub theme: CursorTheme,
    pub size_px: u32,
    pub tween_ms: u32,
    pub click_ms: u32,
    pub motion: MotionMode,
    pub click_sync: ClickSync,
}

/// The cursor that is shown where nothing else is asked for.
pub open spec fn default_cursor() -> CursorEffectsConfig {
    CursorEffectsConfig {
        theme: CursorTheme::Arrow,
        size_px: 28,
        tween_ms: 250,
        click_ms: 400,
        motion: MotionMode::Auto,
        click_sync: ClickSync::Async,
    }
}

impl Default for CursorEffectsConfig {
    fn default() -> (r: Self)
        ensures
            r == default_cursor(),
    {
        CursorEffectsConfig {
            theme: CursorTheme::Arrow,
            size_px: 28,
            tween_ms: 250,
            click_ms: 400,
            motion: MotionMode::Auto,
            click_sync: ClickSync::Async,
        }
    }
}

/// The text under `clickSync`, where there is one.
pub open spec fn click_sync_text(cursor: Json) -> Option<Seq<char>> {
    match cursor.member("clickSync"@) {
        Some(value) => value.as_text(),
        None => None,
    }
}

/// The cursor that a `cursor` object asks for (none, where its theme is `off`), or
/// the first thing that is wrong with it.
pub open spec fn requested_cursor(cursor: Json) -> Result<Option<CursorEffectsConfig>, Seq<char>> {
    let theme_text = text_option(cursor, "theme"@, "arrow"@);
    let motion_text = text_option(cursor, "motion"@, "auto"@);
    let size = bounded(cursor.member("size"@), "size"@, 8, 96, 28);
    let tween = bounded(cursor.member("tweenMs"@), "tweenMs"@, 0, 2000, 250);
    let click = bounded(cursor.member("clickMs"@), "clickMs"@, 0, 2000, 400);
    let sync_text = click_sync_text(cursor);
    if !(cursor is Object) {
        Err("'cursor' must be an object or \"off\""@)
    } else if theme_text == "off"@ {
        Ok(None)
    } else if CursorTheme::named(theme_text) is None {
        Err(CursorTheme::message(theme_text))
    } else if MotionMode::named(motion_text) is None {
        Err(MotionMode::message(motion_text))
    } else if size is Err {
        Err(size->Err_0)
    } else if tween is Err {
        Err(tween->Err_0)
    } else if click is Err {
        Err(click->Err_0)
    } else if sync_text is Some && ClickSync::named(sync_text->0) is None {
        Err(ClickSync::message(sync_text->0))
    } else {
        Ok(
            Some(
                CursorEffectsConfig {
                    theme: CursorTheme::named(theme_text)->0,
                    size_px: size->Ok_0,
                    tween_ms: tween->Ok_0,
                    click_ms: click->Ok_0,
                    motion: MotionMode::named(motion_text)->0,
                    click_sync: if sync_text is Some {
                        ClickSync::named(sync_text->0)->0
                    } else if flag_option(cursor, "blockClicks"@) {
                        ClickSync::Block
                    } else {
                        ClickSync::Async
                    },
                },
            ),
        )
    }
}

impl CursorEffectsConfig {
    /// How long a move of the cursor takes; without motion it teleports.
    pub open spec fn move_ms(self) -> u32 {
        if self.motion == MotionMode::Off {
            0
        } else {
            self.tween_ms
        }
    }

    /// How long a click holds the page back.
    pub open spec fn click_delay_ms(self) -> u32 {
        if self.click_sync == ClickSync::Block {
            self.move_ms()
        } else {
            0
        }
    }

    /// How long the ripple of a click takes; it is never without duration.
    pub open spec fn ripple_ms(self) -> u32 {
        if self.click_ms == 0 {
            1
        } else {
            self.click_ms
        }
    }

    /// The size and the durations are in the range that the options allow.
    pub open spec fn in_bounds(self) -> bool {
        8 <= self.size_px <= 96 && self.tween_ms <= 2000 && self.click_ms <= 2000
    }

    /// Reads the `cursor` object of a command.
    pub fn from_cmd_value(value: &JsonValue) -> (r: Result<Option<Self>, String>)
        ensures
            agrees(r, requested_cursor(value@)),
    {
        if !value.is_object() {
            return Err("'cursor' must be an object or \"off\"".to_owned());
        }
        let theme_text = text_or(value, "theme", "arrow");
        if same_text(theme_text, "off") {
            return Ok(None);
        }
        let theme = match CursorTheme::from_str(theme_text) {
            Ok(theme) => theme,
            Err(message) => return Err(message),
        };
        let motion = match MotionMode::from_str(text_or(value, "motion", "auto")) {
            Ok(motion) => motion,
            Err(message) => return Err(message),
        };
        let size_px: u32 = match bounded_u32(value.get("size"), "size", 8, 96, 28) {
            Ok(size) => size,
            Err(message) => return Err(message),
        };
        let tween_ms: u32 = match bounded_u32(value.get("tweenMs"), "tweenMs", 0, 2000, 250) {
            Ok(tween) => tween,
            Err(message) => return Err(message),
        };
        let click_ms: u32 = match bounded_u32(value.get("clickMs"), "clickMs", 0, 2000, 400) {
            Ok(click) => click,
            Err(message) => return Err(message),
        };
        let mut click_sync = if is_set(value, "blockClicks") {
            ClickSync::Block
        } else {
            ClickSync::Async
        };
        let sync_text = match value.get("clickSync") {
            Some(given) => given.as_str(),
            None => None,
        };
        if let Some(text) = sync_text {
            match ClickSync::from_str(text) {
                Ok(sync) => {
                    click_sync = sync;
                },
                Err(message) => return Err(message),
            }
        }
        Ok(
            Some(
                CursorEffectsConfig { theme, size_px, tween_ms, click_ms, motion, click_sync },
            ),
        )
    }

    /// How long a move of the cursor takes.
    pub fn effective_tween_ms(&self) -> (r: u32)
        ensures
            r == self.move_ms(),
    {
        match self.motion {
            MotionMode::Off => 0,
            _ => self.tween_ms,
        }
    }
}

/// The effects of a recording.
#[derive(Debug, Clone, Copy, PartialEq, Eq, Structural)]
pub struct RecordingEffectsConfig {
    pub mode: RecordMode,
    pub cursor: Option<CursorEffectsConfig>,
    pub input_mode: InputMode,
    pub input_delay_ms: u64,
}

/// The mode that is asked for, or else the one that goes with the preset.
pub open spec fn requested_mode(
    preset: RecordEffectsPreset,
    mode: Option<Seq<char>>,
) -> Option<RecordMode> {
    match mode {
        Some(text) => RecordMode::named(text),
        None => if preset == RecordEffectsPreset::Demo {
            Some(RecordMode::Demo)
        } else {
            Some(RecordMode::Automation)
        },
    }
}

/// The value has a member of that name.
pub open spec fn asks_for(cursor: Option<Json>, key: Seq<char>) -> bool {
    cursor is Some && cursor->0.member(key) is Some
}

/// A cursor in the timing of a mode: demos are slower unless a duration was asked
/// for, and their clicks wait unless told otherwise.
pub open spec fn timed_cursor(
    config: CursorEffectsConfig,
    cursor: Option<Json>,
    mode: RecordMode,
    sync: Option<ClickSync>,
) -> CursorEffectsConfig {
    let demo = mode == RecordMode::Demo;
    CursorEffectsConfig {
        tween_ms: if demo && !asks_for(cursor, "tweenMs"@) {
            700
        } else {
            config.tween_ms
        },
        click_ms: if demo && !asks_for(cursor, "clickMs"@) {
            500
        } else {
            config.click_ms
        },
        click_sync: match sync {
            Some(s) => s,
            None => if demo {
                ClickSync::Block
            } else {
                config.click_sync
            },
        },
        ..config
    }
}

/// The input mode that is asked for, or else the one that goes with the mode.
pub open spec fn requested_input(mode: RecordMode, input: Option<Seq<char>>) -> Option<InputMode> {
    match input {
        Some(text) => InputMode::named(text),
        None => if mode == RecordMode::Demo {
            Some(InputMode::Animated)
        } else {
            Some(InputMode::Fast)
        },
    }
}

/// The effects that a command asks for (none, where they are off), or the first
/// thing that is wrong with it.
pub open spec fn requested_effects(
    preset: RecordEffectsPreset,
    cursor: Option<Json>,
    mode: Option<Seq<char>>,
    sync: Option<Seq<char>>,
    input: Option<Seq<char>>,
    delay_ms: Option<u64>,
) -> Result<Option<RecordingEffectsConfig>, Seq<char>> {
    let base: Result<Option<CursorEffectsConfig>, Seq<char>> = match cursor {
        Some(value) => requested_cursor(value),
        None => Ok(Some(default_cursor())),
    };
    let record_mode = requested_mode(preset, mode);
    let input_mode = requested_input(record_mode->0, input);
    if preset == RecordEffectsPreset::Off {
        Ok(None)
    } else if record_mode is None {
        Err(RecordMode::message(mode->0))
    } else if base is Err {
        Err(base->Err_0)
    } else if base->Ok_0 is Some && sync is Some && ClickSync::named(sync->0) is None {
        Err(ClickSync::message(sync->0))
    } else if input_mode is None {
        Err(InputMode::message(input->0))
    } else {
        Ok(
            Some(
                RecordingEffectsConfig {
                    mode: record_mode->0,
                    cursor: match base->Ok_0 {
                        Some(config) => Some(
                            timed_cursor(
                                config,
                                cursor,
                                record_mode->0,
                                match sync {
                                    Some(text) => ClickSync::named(text),
                                    None => None,
                                },
                            ),
                        ),
                        None => None,
                    },
                    input_mode: input_mode->0,
                    input_delay_ms: match delay_ms {
                        Some(ms) => ms,
                        None => if input_mode->0 == InputMode::Animated {
                            35
                        } else {
                            0
                        },
                    },
                },
            ),
        )
    }
}

/// The characters of an optional text.
pub open spec fn optional_text(text: Option<&str>) -> Option<Seq<char>> {
    match text {
        Some(t) => Some(t@),
        None => None,
    }
}

/// The content of an optional value.
pub open spec fn optional_json(value: Option<&JsonValue>) -> Option<Json> {
    match value {
        Some(v) => Some(v@),
        None => None,
    }
}

fn has_member(value: Option<&JsonValue>, key: &str) -> (r: bool)
    ensures
        r == asks_for(optional_json(value), key@),
{
    match value {
        Some(v) => v.get(key).is_some(),
        None => false,
    }
}

impl RecordingEffectsConfig {
    /// Reads the effects that a command asks for. An option that is not given takes
    /// its default from the mode, and the mode from the preset.
    pub fn from_cmd(
        preset: RecordEffectsPreset,
        cursor_value: Option<&JsonValue>,
        record_mode: Option<&str>,
        click_sync: Option<&str>,
        input_mode: Option<&str>,
        input_delay_ms: Option<u64>,
    ) -> (r: Result<Option<Self>, String>)
        ensures
            agrees(
                r,
                requested_effects(
                    preset,
                    optional_json(cursor_value),
                    optional_text(record_mode),
                    optional_text(click_sync),
                    optional_text(input_mode),
                    input_delay_ms,
                ),
            ),
    {
        if !preset.enabled() {
            return Ok(None);
        }
        let mode = match record_mode {
            Some(text) => match RecordMode::from_str(text) {
                Ok(mode) => mode,
                Err(message) => return Err(message),
            },
            None => match preset {
                RecordEffectsPreset::Demo => RecordMode::Demo,
                _ => RecordMode::Automation,
            },
        };
        let demo = match mode {
            RecordMode::Demo => true,
            RecordMode::Automation => false,
        };
        let mut cursor = match cursor_value {
            Some(value) => match CursorEffectsConfig::from_cmd_value(value) {
                Ok(cursor) => cursor,
                Err(message) => return Err(message),
            },
            None => Some(CursorEffectsConfig::default()),
        };
        if let Some(given) = cursor {
            let mut config = given;
            if demo && !has_member(cursor_value, "tweenMs") {
                config.tween_ms = 700;
            }
            if demo && !has_member(cursor_value, "clickMs") {
                config.click_ms = 500;
            }
            match click_sync {
                Some(text) => match ClickSync::from_str(text) {
                    Ok(sync) => {
                        config.click_sync = sync;
                    },
                    Err(message) => return Err(message),
                },
                None => {
                    if demo {
                        config.click_sync = ClickSync::Block;
                    }
                },
            }
            cursor = Some(config);
        }
        let input = match input_mode {
            Some(text) => match InputMode::from_str(text) {
                Ok(input) => input,
                Err(message) => return Err(message),
            },
            None => if demo {
                InputMode::Animated
            } else {
                InputMode::Fast
            },
        };
        let delay: u64 = match input_delay_ms {
            Some(ms) => ms,
            None => match input {
                InputMode::Animated => 35,
                InputMode::Fast => 0,
            },
        };
        Ok(
            Some(
                RecordingEffectsConfig { mode, cursor, input_mode: input, input_delay_ms: delay },
            ),
        )
    }
}

/// Every cursor that can be asked for is in bounds, in whatever timing.
pub proof fn requested_cursors_are_in_bounds(
    preset: RecordEffectsPreset,
    cursor: Option<Json>,
    mode: Option<Seq<char>>,
    sync: Option<Seq<char>>,
    input: Option<Seq<char>>,
    delay_ms: Option<u64>,
)
    ensures
        ({
            let effects = requested_effects(preset, cursor, mode, sync, input, delay_ms);
            effects is Ok && effects->Ok_0 is Some && effects->Ok_0->0.cursor is Some
                ==> effects->Ok_0->0.cursor->0.in_bounds()
        }),
{
}

/// With effects off nothing is shown, whatever else is asked for.
pub proof fn off_preset_disables_effects(
    cursor: Option<Json>,
    mode: Option<Seq<char>>,
    sync: Option<Seq<char>>,
    input: Option<Seq<char>>,
    delay_ms: Option<u64>,
)
    ensures
        requested_effects(RecordEffectsPreset::Off, cursor, mode, sync, input, delay_ms) == Ok::<
            Option<RecordingEffectsConfig>,
            Seq<char>,
        >(None),
{
}

/// A cursor whose theme is `off` hides the cursor and nothing else: the effects
/// themselves stay on.
pub proof fn cursor_off_keeps_effects(
    preset: RecordEffectsPreset,
    cursor: Json,
    mode: Option<Seq<char>>,
    sync: Option<Seq<char>>,
    input: Option<Seq<char>>,
    delay_ms: Option<u64>,
)
    requires
        preset != RecordEffectsPreset::Off,
        cursor is Object,
        text_option(cursor, "theme"@, "arrow"@) == "off"@,
        requested_mode(preset, mode) is Some,
        requested_input(requested_mode(preset, mode)->0, input) is Some,
    ensures
        ({
            let effects = requested_effects(preset, Some(cursor), mode, sync, input, delay_ms);
            &&& effects is Ok
            &&& effects->Ok_0 is Some
            &&& effects->Ok_0->0.cursor is None
        }),
{
}

/// Demo mode slows the cursor down, makes clicks wait and animates the input, as
/// far as the command does not ask for something else.
pub proof fn demo_mode_defaults(
    preset: RecordEffectsPreset,
    cursor: Option<Json>,
    mode: Option<Seq<char>>,
)
    requires
        preset != RecordEffectsPreset::Off,
        requested_mode(preset, mode) == Some(RecordMode::Demo),
        requested_effects(preset, cursor, mode, None, None, None) is Ok,
        requested_effects(preset, cursor, mode, None, None, None)->Ok_0->0.cursor is Some,
    ensures
        ({
            let effects = requested_effects(preset, cursor, mode, None, None, None)->Ok_0->0;
            let shown = effects.cursor->0;
            &&& effects.mode == RecordMode::Demo
            &&& effects.input_mode == InputMode::Animated
            &&& effects.input_delay_ms == 35
            &&& shown.click_sync == ClickSync::Block
            &&& !asks_for(cursor, "tweenMs"@) ==> shown.tween_ms == 700
            &&& !asks_for(cursor, "clickMs"@) ==> shown.click_ms == 500
            &&& asks_for(cursor, "tweenMs"@) ==> cursor->0.member("tweenMs"@)->0.as_unsigned()
                == Some(shown.tween_ms as u64)
            &&& asks_for(cursor, "clickMs"@) ==> cursor->0.member("clickMs"@)->0.as_unsigned()
                == Some(shown.click_ms as u64)
        }),
{
}

/// Where the effects are shown: a session, and the client that reaches it.
pub struct RecordingEffectsTarget<Client> {
    pub client: Arc<Client>,
    pub session_id: String,
}

impl<Client> Clone for RecordingEffectsTarget<Client> {
    fn clone(&self) -> (r: Self)
        ensures
            r.client == self.client,
            r.session_id@ == self.session_id@,
    {
        RecordingEffectsTarget { client: share(&self.client), session_id: self.session_id.clone() }
    }
}

/// How long a move waits for others before it is shown.
pub const MOVE_FLUSH_MS: u64 = 16;

/// How long a key label stays.
pub const KEY_LABEL_MS: u64 = 900;

/// What a text overlay takes beyond the time that it is shown.
pub const OVERLAY_FADE_MS: u64 = 180;

/// How long a zoom takes that lasts until it is reset.
pub const ZOOM_TRANSITION_MS: u64 = 650;

/// How long it takes to zoom out again.
pub const ZOOM_RESET_MS: u64 = 700;

/// How long a recording goes on after the last effect has ended.
pub const STOP_HOLD_MS: u64 = 650;

/// How many seconds after the last effect a recording still goes on for a moment.
pub const RECENT_EFFECT_SECS: u64 = 2;

/// What the effects of a recording have shown so far, and until when they last.
/// `Number` is what coordinates are given in.
pub struct RecordingEffectsState<Client = (), Number = ()> {
    pub config: RecordingEffectsConfig,
    pub target: Option<RecordingEffectsTarget<Client>>,
    /// Until when the text overlays that were asked for are shown.
    pub overlay_chain_until: Option<TimePoint>,
    /// Until when any effect is shown.
    pub effect_active_until: Option<TimePoint>,
    pub runtime_installed: bool,
    /// The last move that has not been shown yet.
    pub pending_move: Option<(Number, Number)>,
    pub move_flush_scheduled: bool,
}

/// One effect that is asked for.
pub enum Effect {
    Move,
    Click,
    Key(Seq<char>),
    OverlayText(Seq<char>, u64),
    Spotlight(u64),
    ClearOverlay,
    ZoomTo(Option<u64>),
    ZoomReset,
}

/// `ms`, or one millisecond where it is nothing.
pub open spec fn shown_ms(ms: u64) -> nat {
    if ms == 0 {
        1
    } else {
        ms as nat
    }
}

/// The reading `ms` milliseconds after `from`.
pub open spec fn later(from: TimePoint, ms: nat) -> TimePoint {
    TimePoint { nanos: (from.nanos + millis(ms)) as u128 }
}

/// The clock can tell the reading `ms` milliseconds after `from`.
pub open spec fn in_reach(from: TimePoint, ms: nat) -> bool {
    from.nanos + millis(ms) <= u128::MAX
}

/// The later of the end so far and `until`.
pub open spec fn extended(end: Option<TimePoint>, until: TimePoint) -> Option<TimePoint> {
    if end is None || until.nanos > end->0.nanos {
        Some(until)
    } else {
        end
    }
}

/// How long a recording goes on, in nanoseconds, that is stopped at `now` and whose last
/// effect ends at `end`: to that end and a moment more, for that moment where the end
/// is recent, and not at all otherwise.
pub open spec fn post_roll_after(end: TimePoint, now: TimePoint) -> nat {
    if now.nanos <= end.nanos {
        (end.nanos - now.nanos) as nat + millis(STOP_HOLD_MS as nat)
    } else if now.nanos - end.nanos <= RECENT_EFFECT_SECS * NANOS_PER_SEC {
        millis(STOP_HOLD_MS as nat)
    } else {
        0
    }
}

impl<Client, Number> RecordingEffectsState<Client, Number> {
    /// With effects that last until `until` at least.
    pub open spec fn lasting(self, until: TimePoint) -> Self {
        RecordingEffectsState {
            effect_active_until: extended(self.effect_active_until, until),
            ..self
        }
    }

    /// When an overlay starts that is asked for at `now`: after those before it.
    pub open spec fn overlay_start(self, now: TimePoint) -> TimePoint {
        if self.overlay_chain_until is Some && self.overlay_chain_until->0.nanos > now.nanos {
            self.overlay_chain_until->0
        } else {
            now
        }
    }

    /// The clock can tell until when the effect lasts.
    pub open spec fn can_show(self, effect: Effect, now: TimePoint) -> bool {
        match effect {
            Effect::Move => self.config.cursor is Some ==> in_reach(
                now,
                self.config.cursor->0.move_ms() as nat,
            ),
            Effect::Click => self.config.cursor is Some ==> in_reach(
                now,
                self.config.cursor->0.move_ms() as nat,
            ) && in_reach(
                now,
                self.config.cursor->0.click_delay_ms() as nat
                    + self.config.cursor->0.ripple_ms() as nat,
            ),
            Effect::Key(label) => label.len() > 0 ==> in_reach(now, KEY_LABEL_MS as nat),
            Effect::OverlayText(text, ms) => !is_blank_text(text) ==> shown_ms(ms)
                + OVERLAY_FADE_MS <= u64::MAX && in_reach(
                self.overlay_start(now),
                shown_ms(ms) + OVERLAY_FADE_MS as nat,
            ),
            Effect::Spotlight(ms) => in_reach(now, shown_ms(ms)),
            Effect::ClearOverlay => true,
            Effect::ZoomTo(Some(ms)) => in_reach(now, shown_ms(ms) + ZOOM_RESET_MS as nat),
            Effect::ZoomTo(None) => in_reach(now, ZOOM_TRANSITION_MS as nat),
            Effect::ZoomReset => in_reach(now, ZOOM_RESET_MS as nat),
        }
    }

    /// After the effect was asked for at `now`.
    pub open spec fn after(self, effect: Effect, now: TimePoint) -> Self {
        match effect {
            Effect::Move => if self.config.cursor is Some {
                self.lasting(later(now, self.config.cursor->0.move_ms() as nat))
            } else {
                self
            },
            Effect::Click => if self.config.cursor is Some {
                let cursor = self.config.cursor->0;
                RecordingEffectsState {
                    pending_move: None,
                    ..self.lasting(later(now, cursor.move_ms() as nat)).lasting(
                        later(now, cursor.click_delay_ms() as nat + cursor.ripple_ms() as nat),
                    )
                }
            } else {
                self
            },
            Effect::Key(label) => if label.len() > 0 {
                self.lasting(later(now, KEY_LABEL_MS as nat))
            } else {
                self
            },
            Effect::OverlayText(text, ms) => if is_blank_text(text) {
                self
            } else {
                let until = later(self.overlay_start(now), shown_ms(ms) + OVERLAY_FADE_MS as nat);
                RecordingEffectsState { overlay_chain_until: Some(until), ..self.lasting(until) }
            },
            Effect::Spotlight(ms) => self.lasting(later(now, shown_ms(ms))),
            Effect::ClearOverlay => RecordingEffectsState { overlay_chain_until: None, ..self },
            Effect::ZoomTo(Some(ms)) => self.lasting(
                later(now, shown_ms(ms) + ZOOM_RESET_MS as nat),
            ),
            Effect::ZoomTo(None) => self.lasting(later(now, ZOOM_TRANSITION_MS as nat)),
            Effect::ZoomReset => self.lasting(later(now, ZOOM_RESET_MS as nat)),
        }
    }

    /// With a move that is to be shown soon, in place of one that waits for that.
    pub open spec fn queued(self, x: Number, y: Number, now: TimePoint) -> Self {
        RecordingEffectsState {
            pending_move: Some((x, y)),
            move_flush_scheduled: true,
            ..self.after(Effect::Move, now)
        }
    }

    /// The runtime script is still to be installed.
    pub open spec fn awaits_install(self) -> bool {
        !self.runtime_installed && self.target is Some
    }

    /// After an installation that succeeded or did not.
    pub open spec fn after_install(self, succeeded: bool) -> Self {
        RecordingEffectsState {
            runtime_installed: self.runtime_installed || succeeded,
            ..self
        }
    }

    /// With no move that waits to be shown.
    pub open spec fn flushed(self) -> Self {
        RecordingEffectsState { pending_move: None, move_flush_scheduled: false, ..self }
    }

    /// When an effect ends that is asked for at `now`; nothing that is not shown ends.
    pub open spec fn end_of(self, effect: Effect, now: TimePoint) -> Option<TimePoint> {
        match effect {
            Effect::Move => if self.config.cursor is Some {
                Some(later(now, self.config.cursor->0.move_ms() as nat))
            } else {
                None
            },
            Effect::Click => if self.config.cursor is Some {
                let cursor = self.config.cursor->0;
                let arrival = cursor.move_ms() as nat;
                let ripple_end = cursor.click_delay_ms() as nat + cursor.ripple_ms() as nat;
                if arrival > ripple_end {
                    Some(later(now, arrival))
                } else {
                    Some(later(now, ripple_end))
                }
            } else {
                None
            },
            Effect::Key(label) => if label.len() > 0 {
                Some(later(now, KEY_LABEL_MS as nat))
            } else {
                None
            },
            Effect::OverlayText(text, ms) => if is_blank_text(text) {
                None
            } else {
                Some(later(self.overlay_start(now), shown_ms(ms) + OVERLAY_FADE_MS as nat))
            },
            Effect::Spotlight(ms) => Some(later(now, shown_ms(ms))),
            Effect::ClearOverlay => None,
            Effect::ZoomTo(Some(ms)) => Some(later(now, shown_ms(ms) + ZOOM_RESET_MS as nat)),
            Effect::ZoomTo(None) => Some(later(now, ZOOM_TRANSITION_MS as nat)),
            Effect::ZoomReset => Some(later(now, ZOOM_RESET_MS as nat)),
        }
    }

    /// After each of the effects was asked for at its time, one after another.
    pub open spec fn after_all(self, history: Seq<(Effect, TimePoint)>) -> Self
        decreases history.len(),
    {
        if history.len() == 0 {
            self
        } else {
            self.after_all(history.drop_last()).after(history.last().0, history.last().1)
        }
    }

    /// The clock can tell until when each of the effects lasts.
    pub open spec fn can_show_all(self, history: Seq<(Effect, TimePoint)>) -> bool {
        forall|i: int|
            0 <= i < history.len() ==> self.after_all(history.take(i)).can_show(
                (#[trigger] history[i]).0,
                history[i].1,
            )
    }

    /// When the effect at position `i` of a history ends.
    pub open spec fn end_in(self, history: Seq<(Effect, TimePoint)>, i: int) -> Option<TimePoint> {
        self.after_all(history.take(i)).end_of(history[i].0, history[i].1)
    }

    /// No effect of the history ends after `end`.
    pub open spec fn none_ends_after(
        self,
        history: Seq<(Effect, TimePoint)>,
        end: TimePoint,
    ) -> bool {
        forall|i: int|
            0 <= i < history.len() ==> match #[trigger] self.end_in(history, i) {
                Some(other) => other.nanos <= end.nanos,
                None => true,
            }
    }

    /// How long a recording that is stopped at `now` goes on, in nanoseconds.
    pub open spec fn post_roll(self, now: TimePoint) -> nat {
        match self.effect_active_until {
            None => 0,
            Some(until) => post_roll_after(until, now),
        }
    }

    /// Effects that nothing has been asked of, shown nowhere.
    pub fn new(config: RecordingEffectsConfig) -> (r: Self)
        ensures
            r == (RecordingEffectsState::<Client, Number> {
                config,
                target: None,
                overlay_chain_until: None,
                effect_active_until: None,
                runtime_installed: false,
                pending_move: None,
                move_flush_scheduled: false,
            }),
    {
        RecordingEffectsState {
            config,
            target: None,
            overlay_chain_until: None,
            effect_active_until: None,
            runtime_installed: false,
            pending_move: None,
            move_flush_scheduled: false,
        }
    }

    /// Effects that nothing has been asked of, shown in a session.
    pub fn new_with_target(
        config: RecordingEffectsConfig,
        client: Arc<Client>,
        session_id: String,
    ) -> (r: Self)
        ensures
            r == (RecordingEffectsState::<Client, Number> {
                config,
                target: Some(RecordingEffectsTarget { client, session_id }),
                overlay_chain_until: None,
                effect_active_until: None,
                runtime_installed: false,
                pending_move: None,
                move_flush_scheduled: false,
            }),
    {
        let mut state = RecordingEffectsState::new(config);
        state.target = Some(RecordingEffectsTarget { client, session_id });
        state
    }

    /// The configuration.
    pub fn config(&self) -> (r: &RecordingEffectsConfig)
        ensures
            *r == self.config,
    {
        &self.config
    }

    /// Does nothing: the effects are drawn in CSS pixels, and the screenshots
    /// account for the scale of the device.
    pub fn set_device_scale_factor(&mut self, _scale: Number)
        ensures
            *final(self) == *old(self),
    {
    }

    /// Where to install the runtime script: nowhere, if it is installed already or
    /// there is no session.
    pub fn pending_install(&self) -> (r: Option<RecordingEffectsRuntime<Client>>)
        ensures
            r is Some == self.awaits_install(),
            r is Some ==> shows(r, *self),
    {
        if self.runtime_installed {
            return None;
        }
        self.runtime()
    }

    /// Takes note of what came of an installation, and hands it on. Only one that
    /// succeeded counts as installed.
    pub fn finish_install(&mut self, outcome: Result<(), String>) -> (r: Result<(), String>)
        ensures
            r == outcome,
            *final(self) == old(self).after_install(outcome is Ok),
    {
        if outcome.is_ok() {
            self.runtime_installed = true;
        }
        outcome
    }

    /// The session in which effects are shown, with the configuration.
    pub fn runtime(&self) -> (r: Option<RecordingEffectsRuntime<Client>>)
        ensures
            shows(r, *self),
    {
        match &self.target {
            Some(target) => Some(
                RecordingEffectsRuntime { target: target.clone(), config: self.config },
            ),
            None => None,
        }
    }

    fn extend_effect_active_until(&mut self, until: TimePoint)
        ensures
            *final(self) == old(self).lasting(until),
    {
        let extend = match self.effect_active_until {
            Some(current) => until.is_after(current),
            None => true,
        };
        if extend {
            self.effect_active_until = Some(until);
        }
    }

    fn extend_by_move(&mut self, now: TimePoint)
        requires
            old(self).can_show(Effect::Move, now),
        ensures
            *final(self) == old(self).after(Effect::Move, now),
    {
        if let Some(cursor) = self.config.cursor {
            let tween = TimeSpan::from_millis(cursor.effective_tween_ms() as u64);
            self.extend_effect_active_until(now.plus(tween));
        }
    }

    /// The cursor moves, at `now`.
    pub fn move_to(&mut self, _x: Number, _y: Number, now: TimePoint)
        requires
            old(self).can_show(Effect::Move, now),
        ensures
            *final(self) == old(self).after(Effect::Move, now),
    {
        self.extend_by_move(now);
    }

    /// The cursor clicks, at `now`. Says how long the click of the page is to wait
    /// for it.
    pub fn click(&mut self, x: Number, y: Number, now: TimePoint) -> (delay: TimeSpan)
        requires
            old(self).can_show(Effect::Click, now),
        ensures
            *final(self) == old(self).after(Effect::Click, now),
            delay.nanos == match old(self).config.cursor {
                Some(cursor) => millis(cursor.click_delay_ms() as nat),
                None => 0,
            },
    {
        let cursor = match self.config.cursor {
            Some(cursor) => cursor,
            None => return TimeSpan::zero(),
        };
        self.move_to(x, y, now);
        self.pending_move = None;
        let delay = match cursor.click_sync {
            ClickSync::Block => TimeSpan::from_millis(cursor.effective_tween_ms() as u64),
            ClickSync::Async => TimeSpan::zero(),
        };
        let ripple_ms: u32 = if cursor.click_ms == 0 {
            1
        } else {
            cursor.click_ms
        };
        let ripple_start = now.plus(delay);
        self.extend_effect_active_until(ripple_start.plus(TimeSpan::from_millis(ripple_ms as u64)));
        delay
    }

    /// A key label is shown, at `now`; an empty one is not.
    pub fn key(&mut self, label: &str, now: TimePoint)
        requires
            old(self).can_show(Effect::Key(label@), now),
        ensures
            *final(self) == old(self).after(Effect::Key(label@), now),
    {
        if label.unicode_len() == 0 {
            return;
        }
        self.extend_effect_active_until(now.plus(TimeSpan::from_millis(KEY_LABEL_MS)));
    }

    /// A text overlay is asked for, at `now`; overlays are shown one after another,
    /// and a blank one is not shown.
    pub fn overlay_text(
        &mut self,
        text: &str,
        _position: OverlayPosition,
        duration_ms: u64,
        now: TimePoint,
    )
        requires
            old(self).can_show(Effect::OverlayText(text@, duration_ms), now),
        ensures
            *final(self) == old(self).after(Effect::OverlayText(text@, duration_ms), now),
    {
        if is_blank(text) {
            return;
        }
        let duration = TimeSpan::from_millis(at_least_one(duration_ms) + OVERLAY_FADE_MS);
        let started_at = match self.overlay_chain_until {
            Some(until) => if until.is_after(now) {
                until
            } else {
                now
            },
            None => now,
        };
        let active_until = started_at.plus(duration);
        self.overlay_chain_until = Some(active_until);
        self.extend_effect_active_until(active_until);
    }

    /// A spotlight is shown, at `now`.
    pub fn spotlight(&mut self, _x: Number, _y: Number, duration_ms: u64, now: TimePoint)
        requires
            old(self).can_show(Effect::Spotlight(duration_ms), now),
        ensures
            *final(self) == old(self).after(Effect::Spotlight(duration_ms), now),
    {
        let duration = TimeSpan::from_millis(at_least_one(duration_ms));
        self.extend_effect_active_until(now.plus(duration));
    }

    /// The overlays are taken away; the next one starts at once.
    pub fn clear_overlay(&mut self)
        ensures
            *final(self) == (RecordingEffectsState { overlay_chain_until: None, ..*old(self) }),
    {
        self.overlay_chain_until = None;
    }

    /// The view zooms in, at `now`, for a while or until it is reset.
    pub fn zoom_to(
        &mut self,
        _x: Number,
        _y: Number,
        _scale: Number,
        duration_ms: Option<u64>,
        now: TimePoint,
    )
        requires
            old(self).can_show(Effect::ZoomTo(duration_ms), now),
        ensures
            *final(self) == old(self).after(Effect::ZoomTo(duration_ms), now),
    {
        let duration = match duration_ms {
            Some(ms) => TimeSpan::from_millis(at_least_one(ms)).plus(
                TimeSpan::from_millis(ZOOM_RESET_MS),
            ),
            None => TimeSpan::from_millis(ZOOM_TRANSITION_MS),
        };
        self.extend_effect_active_until(now.plus(duration));
    }

    /// The view zooms out again, at `now`.
    pub fn zoom_reset(&mut self, now: TimePoint)
        requires
            old(self).can_show(Effect::ZoomReset, now),
        ensures
            *final(self) == old(self).after(Effect::ZoomReset, now),
    {
        self.extend_effect_active_until(now.plus(TimeSpan::from_millis(ZOOM_RESET_MS)));
    }

    /// How long a recording that is stopped at `now` goes on.
    pub fn stop_post_roll_duration(&self, now: TimePoint) -> (r: TimeSpan)
        requires
            self.post_roll(now) <= u128::MAX,
        ensures
            r.nanos == self.post_roll(now),
    {
        let hold = TimeSpan::from_millis(STOP_HOLD_MS);
        let active_until = match self.effect_active_until {
            Some(until) => until,
            None => return TimeSpan::zero(),
        };
        if let Some(remaining) = active_until.checked_duration_since(now) {
            return remaining.plus(hold);
        }
        if now.duration_since(active_until).nanos <= TimeSpan::from_secs(RECENT_EFFECT_SECS).nanos {
            return hold;
        }
        TimeSpan::zero()
    }

    /// A move that is to be shown soon. Says whether a flush is to be scheduled for
    /// it, which is so unless one is under way.
    pub fn queue_move(&mut self, x: Number, y: Number, now: TimePoint) -> (schedule: bool)
        requires
            old(self).can_show(Effect::Move, now),
        ensures
            schedule == !old(self).move_flush_scheduled,
            *final(self) == old(self).queued(x, y, now),
    {
        self.extend_by_move(now);
        self.pending_move = Some((x, y));
        if self.move_flush_scheduled {
            false
        } else {
            self.move_flush_scheduled = true;
            true
        }
    }

    /// The flush: takes the last move that has not been shown.
    pub fn flush_move(&mut self) -> (point: Option<(Number, Number)>)
        ensures
            point == old(self).pending_move,
            *final(self) == old(self).flushed(),
    {
        self.move_flush_scheduled = false;
        self.pending_move.take()
    }
}

fn at_least_one(ms: u64) -> (r: u64)
    ensures
        r == shown_ms(ms),
{
    if ms == 0 {
        1
    } else {
        ms
    }
}

/// The delay that is left once a click was to be shown: none where the page showed
/// it, since it waited for it.
pub fn remaining_click_delay(delay: TimeSpan, shown: bool) -> (r: TimeSpan)
    ensures
        r.nanos == if shown {
            0
        } else {
            delay.nanos
        },
{
    if shown {
        TimeSpan::zero()
    } else {
        delay
    }
}

/// The effects never end earlier for another effect. An effect changes nothing but
/// the times, except that a click drops the move that waits to be shown.
pub proof fn effects_never_end_earlier<Client, Number>(
    state: RecordingEffectsState<Client, Number>,
    effect: Effect,
    now: TimePoint,
)
    requires
        state.can_show(effect, now),
    ensures
        state.effect_active_until is Some ==> state.after(effect, now).effect_active_until is Some
            && state.after(effect, now).effect_active_until->0.nanos
            >= state.effect_active_until->0.nanos,
        state.after(effect, now).config == state.config,
        state.after(effect, now).target == state.target,
        state.after(effect, now).runtime_installed == state.runtime_installed,
        state.after(effect, now).move_flush_scheduled == state.move_flush_scheduled,
        effect is Click || state.after(effect, now).pending_move == state.pending_move,
{
}

/// Overlays are shown one after another: one that is asked for while another is
/// shown lasts its full time after that one.
pub proof fn overlays_follow_each_other<Client, Number>(
    state: RecordingEffectsState<Client, Number>,
    first: Seq<char>,
    first_ms: u64,
    first_at: TimePoint,
    second: Seq<char>,
    second_ms: u64,
    second_at: TimePoint,
)
    requires
        !is_blank_text(first),
        !is_blank_text(second),
        state.can_show(Effect::OverlayText(first, first_ms), first_at),
        state.after(Effect::OverlayText(first, first_ms), first_at).can_show(
            Effect::OverlayText(second, second_ms),
            second_at,
        ),
    ensures
        ({
            let one = state.after(Effect::OverlayText(first, first_ms), first_at);
            let two = one.after(Effect::OverlayText(second, second_ms), second_at);
            let first_until = one.overlay_chain_until->0.nanos;
            let second_until = two.overlay_chain_until->0.nanos;
            let shown = millis(shown_ms(second_ms) + OVERLAY_FADE_MS as nat);
            &&& one.overlay_chain_until is Some
            &&& two.overlay_chain_until is Some
            &&& second_at.nanos < first_until ==> second_until == first_until + shown
            &&& second_at.nanos >= first_until ==> second_until == second_at.nanos + shown
            &&& two.effect_active_until is Some
            &&& two.effect_active_until->0.nanos >= second_until
        }),
{
}

/// Once the overlays are taken away, the next one starts when it is asked for.
pub proof fn cleared_overlays_do_not_delay<Client, Number>(
    state: RecordingEffectsState<Client, Number>,
    cleared_at: TimePoint,
    now: TimePoint,
)
    ensures
        state.after(Effect::ClearOverlay, cleared_at).overlay_start(now) == now,
        state.after(Effect::ClearOverlay, cleared_at).effect_active_until
            == state.effect_active_until,
{
}

/// A recording that is stopped right after an effect goes on for the whole effect
/// and the moment after it: every effect has been recorded to its end.
pub proof fn post_roll_outlasts_the_effect<Client, Number>(
    state: RecordingEffectsState<Client, Number>,
    effect: Effect,
    now: TimePoint,
    stopped_at: TimePoint,
)
    requires
        state.can_show(effect, now),
        state.after(effect, now).effect_active_until is Some,
        now.nanos <= stopped_at.nanos <= state.after(effect, now).effect_active_until->0.nanos,
    ensures
        stopped_at.nanos + state.after(effect, now).post_roll(stopped_at) == state.after(
            effect,
            now,
        ).effect_active_until->0.nanos + millis(STOP_HOLD_MS as nat),
{
}

/// The effects end with the later of those before and the new one.
proof fn lemma_effect_extends<Client, Number>(
    state: RecordingEffectsState<Client, Number>,
    effect: Effect,
    now: TimePoint,
)
    requires
        state.can_show(effect, now),
    ensures
        state.after(effect, now).effect_active_until == match state.end_of(effect, now) {
            Some(end) => extended(state.effect_active_until, end),
            None => state.effect_active_until,
        },
{
}

/// The latest of some ends, as far as there are any.
spec fn latest(ends: Seq<Option<TimePoint>>) -> Option<TimePoint>
    decreases ends.len(),
{
    if ends.len() == 0 {
        None
    } else {
        match ends.last() {
            Some(end) => extended(latest(ends.drop_last()), end),
            None => latest(ends.drop_last()),
        }
    }
}

/// No end is after the latest, which is one of them.
proof fn lemma_latest(ends: Seq<Option<TimePoint>>)
    ensures
        match latest(ends) {
            Some(end) => {
                &&& forall|i: int|
                    0 <= i < ends.len() && (#[trigger] ends[i]) is Some ==> ends[i]->0.nanos
                        <= end.nanos
                &&& exists|i: int| 0 <= i < ends.len() && #[trigger] ends[i] == Some(end)
            },
            None => forall|i: int| 0 <= i < ends.len() ==> (#[trigger] ends[i]) is None,
        },
    decreases ends.len(),
{
    if ends.len() > 0 {
        let earlier = ends.drop_last();
        lemma_latest(earlier);
        assert forall|i: int| 0 <= i < earlier.len() implies earlier[i] == #[trigger] ends[i] by {}
        if latest(ends) is Some && latest(ends) != ends.last() {
            let i = choose|i: int|
                0 <= i < earlier.len() && #[trigger] earlier[i] == latest(earlier);
            assert(ends[i] == latest(ends));
        }
    }
}

/// The ends of the effects of a history.
spec fn ends_in<Client, Number>(
    start: RecordingEffectsState<Client, Number>,
    history: Seq<(Effect, TimePoint)>,
) -> Seq<Option<TimePoint>> {
    Seq::new(history.len(), |i: int| start.end_in(history, i))
}

/// The effects of a history last until the latest of their ends.
proof fn lemma_history_lasts<Client, Number>(
    start: RecordingEffectsState<Client, Number>,
    history: Seq<(Effect, TimePoint)>,
)
    requires
        start.effect_active_until is None,
        start.can_show_all(history),
    ensures
        start.after_all(history).effect_active_until == latest(ends_in(start, history)),
    decreases history.len(),
{
    if history.len() > 0 {
        let earlier = history.drop_last();
        let last = history.len() - 1;
        assert forall|i: int| 0 <= i < last implies #[trigger] history.take(i) == earlier.take(i) by {
            assert(history.take(i) =~= earlier.take(i));
        }
        assert(start.can_show_all(earlier)) by {
            assert forall|i: int| 0 <= i < earlier.len() implies start.after_all(
                earlier.take(i),
            ).can_show((#[trigger] earlier[i]).0, earlier[i].1) by {
                assert(history[i] == earlier[i]);
                assert(history.take(i) == earlier.take(i));
            }
        }
        assert(ends_in(start, history).drop_last() == ends_in(start, earlier)) by {
            assert forall|i: int| 0 <= i < last implies #[trigger] start.end_in(history, i)
                == start.end_in(earlier, i) by {
                assert(history.take(i) == earlier.take(i));
            }
            assert(ends_in(start, history).drop_last() =~= ends_in(start, earlier));
        }
        lemma_history_lasts(start, earlier);
        assert(history.take(last) =~= earlier);
        assert(history[last] == history.last());
        lemma_effect_extends(start.after_all(earlier), history[last].0, history[last].1);
    }
}

/// The effects of a history end with the one of them that ends last.
proof fn lemma_history_ends_last<Client, Number>(
    start: RecordingEffectsState<Client, Number>,
    history: Seq<(Effect, TimePoint)>,
)
    requires
        start.effect_active_until is None,
        start.can_show_all(history),
    ensures
        match start.after_all(history).effect_active_until {
            Some(end) => {
                &&& start.none_ends_after(history, end)
                &&& exists|i: int|
                    0 <= i < history.len() && #[trigger] start.end_in(history, i) == Some(end)
            },
            None => forall|i: int|
                0 <= i < history.len() ==> #[trigger] start.end_in(history, i) is None,
        },
{
    let ends = ends_in(start, history);
    lemma_history_lasts(start, history);
    lemma_latest(ends);
    assert forall|i: int| 0 <= i < history.len() implies #[trigger] start.end_in(history, i)
        == ends[i] by {}
    if let Some(end) = latest(ends) {
        let i = choose|i: int| 0 <= i < ends.len() && #[trigger] ends[i] == Some(end);
        assert(start.end_in(history, i) == Some(end));
    }
}

/// How long a recording goes on when it is stopped is decided by that effect, of all that
/// were shown in it, which ends last; without any, it does not go on.
pub proof fn post_roll_follows_the_last_effect<Client, Number>(
    start: RecordingEffectsState<Client, Number>,
    history: Seq<(Effect, TimePoint)>,
    now: TimePoint,
)
    requires
        start.effect_active_until is None,
        start.can_show_all(history),
    ensures
        (forall|i: int| 0 <= i < history.len() ==> #[trigger] start.end_in(history, i) is None)
            ==> start.after_all(history).post_roll(now) == 0,
        forall|i: int|
            0 <= i < history.len() && (#[trigger] start.end_in(history, i)) is Some
                && start.none_ends_after(history, start.end_in(history, i)->0)
                ==> start.after_all(history).post_roll(now) == post_roll_after(
                start.end_in(history, i)->0,
                now,
            ),
        (exists|i: int| 0 <= i < history.len() && #[trigger] start.end_in(history, i) is Some)
            ==> exists|i: int|
            0 <= i < history.len() && (#[trigger] start.end_in(history, i)) is Some
                && start.none_ends_after(history, start.end_in(history, i)->0),
{
    lemma_history_ends_last(start, history);
    let all = start.after_all(history).effect_active_until;
    if let Some(end) = all {
        let k = choose|k: int|
            0 <= k < history.len() && #[trigger] start.end_in(history, k) == Some(end);
        assert(start.none_ends_after(history, start.end_in(history, k)->0));
        assert forall|i: int|
            0 <= i < history.len() && (#[trigger] start.end_in(history, i)) is Some
                && start.none_ends_after(
                history,
                start.end_in(history, i)->0,
            ) implies start.after_all(history).post_roll(now) == post_roll_after(
            start.end_in(history, i)->0,
            now,
        ) by {
            assert(start.end_in(history, k)->0.nanos <= start.end_in(history, i)->0.nanos);
            assert(start.end_in(history, i)->0.nanos <= end.nanos);
        }
    }
}

/// Another effect never makes a recording stop earlier, and one that ends no later than
/// those before makes no difference.
pub proof fn effects_never_lower_the_post_roll<Client, Number>(
    state: RecordingEffectsState<Client, Number>,
    effect: Effect,
    shown_at: TimePoint,
    now: TimePoint,
)
    requires
        state.can_show(effect, shown_at),
    ensures
        state.after(effect, shown_at).post_roll(now) >= state.post_roll(now),
        state.end_of(effect, shown_at) is None ==> state.after(effect, shown_at).post_roll(now)
            == state.post_roll(now),
        state.end_of(effect, shown_at) is Some && state.effect_active_until is Some
            && state.end_of(effect, shown_at)->0.nanos <= state.effect_active_until->0.nanos
            ==> state.after(effect, shown_at).post_roll(now) == state.post_roll(now),
{
    lemma_effect_extends(state, effect, shown_at);
}

/// A click lasts for its ripple, which starts only after the wait where clicks wait
/// for the cursor.
pub proof fn click_lasts_for_its_ripple<Client, Number>(
    state: RecordingEffectsState<Client, Number>,
    now: TimePoint,
)
    requires
        state.config.cursor is Some,
        state.can_show(Effect::Click, now),
    ensures
        ({
            let cursor = state.config.cursor->0;
            let after = state.after(Effect::Click, now);
            &&& after.effect_active_until is Some
            &&& after.effect_active_until->0.nanos >= now.nanos + millis(
                cursor.click_delay_ms() as nat,
            ) + millis(cursor.ripple_ms() as nat)
            &&& after.effect_active_until->0.nanos >= now.nanos + millis(cursor.move_ms() as nat)
            &&& after.post_roll(now) >= millis(cursor.click_delay_ms() as nat) + millis(
                cursor.ripple_ms() as nat,
            ) + millis(STOP_HOLD_MS as nat)
            &&& after.pending_move is None
        }),
{
}

/// Of the moves that come before a flush the last one is shown, and it alone: the
/// first schedules the flush, a later one takes its place, and a click drops it.
pub proof fn only_the_last_move_is_shown<Client, Number>(
    state: RecordingEffectsState<Client, Number>,
    first: (Number, Number),
    first_at: TimePoint,
    second: (Number, Number),
    second_at: TimePoint,
    click_at: TimePoint,
)
    ensures
        ({
            let once = state.queued(first.0, first.1, first_at);
            let twice = once.queued(second.0, second.1, second_at);
            &&& once.move_flush_scheduled
            &&& twice.move_flush_scheduled
            &&& twice.pending_move == Some(second)
            &&& !twice.flushed().move_flush_scheduled
            &&& twice.flushed().pending_move is None
            &&& state.config.cursor is Some ==> twice.after(Effect::Click, click_at).pending_move
                is None
        }),
{
}

/// The runtime script is installed once: an installation that succeeded is not made
/// again, and one that failed is, with nothing changed by the failure.
pub proof fn failed_installs_are_tried_again<Client, Number>(
    state: RecordingEffectsState<Client, Number>,
)
    ensures
        !state.after_install(true).awaits_install(),
        state.after_install(false) == state,
        state.awaits_install() ==> state.after_install(false).awaits_install(),
{
}

/// Without motion the cursor teleports: a move takes no time, and a click does not
/// wait.
pub proof fn motion_off_never_waits(cursor: CursorEffectsConfig)
    requires
        cursor.motion == MotionMode::Off,
    ensures
        cursor.move_ms() == 0,
        cursor.click_delay_ms() == 0,
{
}

/// A session in which effects are shown, with their configuration.
pub struct RecordingEffectsRuntime<Client> {
    pub target: RecordingEffectsTarget<Client>,
    pub config: RecordingEffectsConfig,
}

impl<Client> Clone for RecordingEffectsRuntime<Client> {
    fn clone(&self) -> (r: Self)
        ensures
            r.target.client == self.target.client,
            r.target.session_id@ == self.target.session_id@,
            r.config == self.config,
    {
        RecordingEffectsRuntime { target: self.target.clone(), config: self.config }
    }
}

/// `runtime` is the session of `state`, with its configuration.
pub open spec fn shows<Client, Number>(
    runtime: Option<RecordingEffectsRuntime<Client>>,
    state: RecordingEffectsState<Client, Number>,
) -> bool {
    match state.target {
        None => runtime is None,
        Some(target) => {
            &&& runtime is Some
            &&& runtime->0.target.client == target.client
            &&& runtime->0.target.session_id@ == target.session_id@
            &&& runtime->0.config == state.config
        },
    }
}

/// A call of the page's effects, as a script.
pub open spec fn async_call(call: Seq<char>) -> Seq<char> {
    "(async () => { await window.__agentBrowserRecordingEffects."@ + call + "; })()"@
}

/// A call of the page's effects, as a script.
pub fn runtime_async_call(call: &str) -> (r: String)
    ensures
        r@ == async_call(call@),
{
    let mut script = "(async () => { await window.__agentBrowserRecordingEffects.".to_owned();
    script.append(call);
    script.append("; })()");
    script
}

/// The script that takes all effects off the page.
pub const CLEANUP_EXPRESSION: &'static str = "(async () => { if (window.__agentBrowserRecordingEffects) await window.__agentBrowserRecordingEffects.cleanup(); })()";

/// The call that tells the page about the cursor. The members stand in the order of
/// their names.
pub open spec fn configure_text(config: RecordingEffectsConfig) -> Seq<char> {
    match config.cursor {
        None => "configure({ cursor: null })"@,
        Some(cursor) => "configure({\"cursor\":{\"clickMs\":"@ + decimal(cursor.click_ms as nat)
            + ",\"clickSync\":"@ + quoted(cursor.click_sync.name()) + ",\"motion\":"@ + quoted(
            cursor.motion.name(),
        ) + ",\"size\":"@ + decimal(cursor.size_px as nat) + ",\"theme\":"@ + quoted(
            cursor.theme.name(),
        ) + ",\"tweenMs\":"@ + decimal(cursor.move_ms() as nat) + "}})"@,
    }
}

/// The call that tells the page about the cursor.
pub fn configure_call(config: &RecordingEffectsConfig) -> (r: String)
    ensures
        r@ == configure_text(*config),
{
    match config.cursor {
        None => "configure({ cursor: null })".to_owned(),
        Some(cursor) => {
            let mut call = "configure({\"cursor\":{\"clickMs\":".to_owned();
            call.append(decimal_text(cursor.click_ms as u64).as_str());
            call.append(",\"clickSync\":");
            call.append(js_string(cursor.click_sync.as_str()).as_str());
            call.append(",\"motion\":");
            call.append(js_string(cursor.motion.as_str()).as_str());
            call.append(",\"size\":");
            call.append(decimal_text(cursor.size_px as u64).as_str());
            call.append(",\"theme\":");
            call.append(js_string(cursor.theme.as_str()).as_str());
            call.append(",\"tweenMs\":");
            call.append(decimal_text(cursor.effective_tween_ms() as u64).as_str());
            call.append("}})");
            call
        },
    }
}

/// The call that moves the cursor; the coordinates are numbers as scripts write
/// them.
pub fn move_call(x: &str, y: &str) -> (r: String)
    ensures
        r@ == "moveTo("@ + x@ + ", "@ + y@ + ")"@,
{
    let mut call = "moveTo(".to_owned();
    call.append(x);
    call.append(", ");
    call.append(y);
    call.append(")");
    call
}

/// The call that shows a click.
pub fn click_call(x: &str, y: &str) -> (r: String)
    ensures
        r@ == "click("@ + x@ + ", "@ + y@ + ")"@,
{
    let mut call = "click(".to_owned();
    call.append(x);
    call.append(", ");
    call.append(y);
    call.append(")");
    call
}

/// The call that shows a key label.
pub fn key_call(label: &str) -> (r: String)
    ensures
        r@ == "key("@ + quoted(label@) + ")"@,
{
    let mut call = "key(".to_owned();
    call.append(js_string(label).as_str());
    call.append(")");
    call
}

/// The call that shows a text overlay.
pub fn overlay_call(text: &str, position: OverlayPosition, duration_ms: u64) -> (r: String)
    ensures
        r@ == "overlayText("@ + quoted(text@) + ", "@ + quoted(position.name()) + ", "@ + decimal(
            shown_ms(duration_ms),
        ) + ")"@,
{
    let mut call = "overlayText(".to_owned();
    call.append(js_string(text).as_str());
    call.append(", ");
    call.append(js_string(position.as_str()).as_str());
    call.append(", ");
    call.append(decimal_text(at_least_one(duration_ms)).as_str());
    call.append(")");
    call
}

/// The call that shows a spotlight.
pub fn spotlight_call(x: &str, y: &str, duration_ms: u64) -> (r: String)
    ensures
        r@ == "spotlight("@ + x@ + ", "@ + y@ + ", "@ + decimal(shown_ms(duration_ms)) + ")"@,
{
    let mut call = "spotlight(".to_owned();
    call.append(x);
    call.append(", ");
    call.append(y);
    call.append(", ");
    call.append(decimal_text(at_least_one(duration_ms)).as_str());
    call.append(")");
    call
}

/// The call that takes the overlays away.
pub const CLEAR_OVERLAY_CALL: &'static str = "clearOverlay()";

/// The call that zooms in; without a duration the zoom lasts until it is reset.
pub fn zoom_call(x: &str, y: &str, scale: &str, duration_ms: Option<u64>) -> (r: String)
    ensures
        r@ == "zoomTo("@ + x@ + ", "@ + y@ + ", "@ + scale@ + ", "@ + match duration_ms {
            Some(ms) => decimal(shown_ms(ms)),
            None => "null"@,
        } + ")"@,
{
    let mut call = "zoomTo(".to_owned();
    call.append(x);
    call.append(", ");
    call.append(y);
    call.append(", ");
    call.append(scale);
    call.append(", ");
    match duration_ms {
        Some(ms) => call.append(decimal_text(at_least_one(ms)).as_str()),
        None => call.append("null"),
    }
    call.append(")");
    call
}

/// The call that zooms out again.
pub const ZOOM_RESET_CALL: &'static str = "zoomReset()";

/// The page has no effects yet, or lost them.
pub open spec fn runtime_is_missing(message: Seq<char>) -> bool {
    ||| occurs_in(message, "__agentBrowserRecordingEffects"@)
    ||| occurs_in(message, "Cannot read properties of undefined"@)
    ||| occurs_in(message, "Cannot read property"@)
}

/// Whether an error says that the page has no effects.
pub fn is_missing_runtime_error(err: &str) -> (r: bool)
    ensures
        r == runtime_is_missing(err@),
{
    contains(err, "__agentBrowserRecordingEffects") || contains(
        err,
        "Cannot read properties of undefined",
    ) || contains(err, "Cannot read property")
}

/// What came of a script of the effects.
pub fn effects_outcome(exception: Option<ExceptionDetails>) -> (r: Result<(), String>)
    ensures
        match exception {
            None => r is Ok,
            Some(details) => r is Err && r->Err_0@ == "Recording effects runtime error: "@
                + details.message(),
        },
{
    evaluation_outcome("Recording effects runtime error: ", exception)
}

/// The course of a call: where the page turns out to have no effects, they are
/// installed and the call is made once more. An installation by itself is the
/// middle part of that.
#[derive(Debug)]
pub enum RuntimeStep {
    /// The call, for the first time.
    Attempt,
    /// The runtime script, before the call is made once more or by itself.
    Install { retry: bool },
    /// The configuration, likewise.
    Configure { retry: bool },
    /// The call, once more.
    Retry,
    Done(Result<(), String>),
}

/// The mathematical content of a [`RuntimeStep`].
pub enum RuntimeCourse {
    Attempt,
    Install { retry: bool },
    Configure { retry: bool },
    Retry,
    Done(Result<(), Seq<char>>),
}

/// The characters of an error.
pub open spec fn outcome_text(outcome: Result<(), String>) -> Result<(), Seq<char>> {
    match outcome {
        Ok(_) => Ok(()),
        Err(message) => Err(message@),
    }
}

impl View for RuntimeStep {
    type V = RuntimeCourse;

    open spec fn view(&self) -> RuntimeCourse {
        match self {
            RuntimeStep::Attempt => RuntimeCourse::Attempt,
            RuntimeStep::Install { retry } => RuntimeCourse::Install { retry: *retry },
            RuntimeStep::Configure { retry } => RuntimeCourse::Configure { retry: *retry },
            RuntimeStep::Retry => RuntimeCourse::Retry,
            RuntimeStep::Done(outcome) => RuntimeCourse::Done(outcome_text(*outcome)),
        }
    }
}

impl RuntimeCourse {
    /// The script that the step evaluates.
    pub open spec fn script(self, call: Seq<char>, config: RecordingEffectsConfig) -> Option<
        Seq<char>,
    > {
        match self {
            RuntimeCourse::Attempt => Some(async_call(call)),
            RuntimeCourse::Install { .. } => Some(RECORDING_EFFECTS_RUNTIME_JS@),
            RuntimeCourse::Configure { .. } => Some(async_call(configure_text(config))),
            RuntimeCourse::Retry => Some(async_call(call)),
            RuntimeCourse::Done(_) => None,
        }
    }

    /// The step after one that came out so.
    pub open spec fn after(self, outcome: Result<(), Seq<char>>) -> RuntimeCourse {
        match (self, outcome) {
            (RuntimeCourse::Attempt, Err(message)) => if runtime_is_missing(message) {
                RuntimeCourse::Install { retry: true }
            } else {
                RuntimeCourse::Done(outcome)
            },
            (RuntimeCourse::Install { retry }, Ok(_)) => RuntimeCourse::Configure { retry },
            (RuntimeCourse::Configure { retry: true }, Ok(_)) => RuntimeCourse::Retry,
            (RuntimeCourse::Done(_), _) => self,
            _ => RuntimeCourse::Done(outcome),
        }
    }
}

impl RuntimeStep {
    /// The command of the step, unless the course is over.
    pub fn command<Client>(&self, call: &str, runtime: &RecordingEffectsRuntime<Client>) -> (r:
        Option<CdpCommand>)
        ensures
            match self@.script(call@, runtime.config) {
                Some(script) => r is Some && r->0@ == evaluate_with_promise(
                    script,
                    true,
                    runtime.target.session_id@,
                ),
                None => r is None,
            },
    {
        let session_id = runtime.target.session_id.as_str();
        let script = match self {
            RuntimeStep::Attempt => runtime_async_call(call),
            RuntimeStep::Install { .. } => RECORDING_EFFECTS_RUNTIME_JS.to_owned(),
            RuntimeStep::Configure { .. } => runtime_async_call(
                configure_call(&runtime.config).as_str(),
            ),
            RuntimeStep::Retry => runtime_async_call(call),
            RuntimeStep::Done(_) => return None,
        };
        Some(evaluate_promise_command(script.as_str(), true, session_id))
    }

    /// Moves on with what came of the step's command.
    pub fn advance(self, outcome: Result<(), String>) -> (r: RuntimeStep)
        ensures
            r@ == self@.after(outcome_text(outcome)),
    {
        match (self, outcome) {
            (RuntimeStep::Attempt, Err(message)) => if is_missing_runtime_error(message.as_str()) {
                RuntimeStep::Install { retry: true }
            } else {
                RuntimeStep::Done(Err(message))
            },
            (RuntimeStep::Install { retry }, Ok(_)) => RuntimeStep::Configure { retry },
            (RuntimeStep::Configure { retry: true }, Ok(_)) => RuntimeStep::Retry,
            (RuntimeStep::Done(end), _) => RuntimeStep::Done(end),
            (_, result) => RuntimeStep::Done(result),
        }
    }
}

/// The command that takes all effects off the page.
pub fn cleanup_command(session_id: &str) -> (r: CdpCommand)
    ensures
        r@ == evaluate_with_promise(CLEANUP_EXPRESSION@, true, session_id@),
{
    evaluate_promise_command(CLEANUP_EXPRESSION, true, session_id)
}

/// A course is over after four commands at the latest, whatever comes of them: a
/// call is made twice at most.
pub proof fn calls_are_retried_once(
    a: Result<(), Seq<char>>,
    b: Result<(), Seq<char>>,
    c: Result<(), Seq<char>>,
    d: Result<(), Seq<char>>,
)
    ensures
        RuntimeCourse::Attempt.after(a).after(b).after(c).after(d) is Done,
        (RuntimeCourse::Install { retry: false }).after(a).after(b) is Done,
{
}

/// A call that the page carries out is made once; a call that fails for another
/// reason than missing effects is not made again, and its error is the result.
pub proof fn calls_settle_at_once(outcome: Result<(), Seq<char>>)
    requires
        outcome is Err ==> !runtime_is_missing(outcome->Err_0),
    ensures
        RuntimeCourse::Attempt.after(outcome) == RuntimeCourse::Done(outcome),
{
}

/// A call that finds no effects is made once more, behind an installation that
/// succeeded, and that second time decides.
pub proof fn missing_effects_are_installed(message: Seq<char>, outcome: Result<(), Seq<char>>)
    requires
        runtime_is_missing(message),
    ensures
        RuntimeCourse::Attempt.after(Err(message)).after(Ok(())).after(Ok(())).after(outcome)
            == RuntimeCourse::Done(outcome),
{
}

/// The script that draws the effects in the page. It keeps its state under
/// `window.__agentBrowserRecordingEffects` and does nothing where it is there already.
pub const RECORDING_EFFECTS_RUNTIME_JS: &'static str = r#"
(() => {
  const VERSION = 5;
  if (window.__agentBrowserRecordingEffects?.version === VERSION) return;

  const Z = '2147483647';
  const CURSOR_HOLD_MS = 650;
  const EFFECTS = '[data-agent-browser-recording-click], [data-agent-browser-recording-key], [data-agent-browser-recording-overlay], [data-agent-browser-recording-spotlight]';
  const ns = 'http://www.w3.org/2000/svg';
  const defaultConfig = {
    cursor: {
      theme: 'arrow',
      size: 28,
      tweenMs: 250,
      clickMs: 400,
      motion: 'auto',
      clickSync: 'async',
    },
  };
  let config = structuredClone(defaultConfig);
  let root = null;
  let cursor = null;
  let cursorPath = null;
  let cursorPoint = null;
  let cursorAnimation = null;
  let cursorVisible = false;
  let cursorTimer = null;
  let moving = 0;
  let zoomed = false;
  let overlayChain = Promise.resolve();
  let overlayGeneration = 0;
  let zoomResetTimer = null;
  let zoomOriginalStyles = null;
  let installedStyle = null;

  function ensureRoot() {
    if (root && root.isConnected) return root;
    installedStyle = document.createElement('style');
    installedStyle.setAttribute('data-agent-browser-recording-style', '');
    installedStyle.textContent = `
      [data-agent-browser-recording-root] {
        position: fixed;
        inset: 0;
        width: 100vw;
        height: 100vh;
        overflow: hidden;
        pointer-events: none;
        z-index: ${Z};
        contain: layout style paint;
      }
      [data-agent-browser-recording-root] * {
        box-sizing: border-box;
      }
    `;
    document.documentElement.appendChild(installedStyle);
    root = document.createElement('div');
    root.setAttribute('data-agent-browser-recording-root', '');
    document.documentElement.appendChild(root);
    return root;
  }

  function cursorShape(theme) {
    if (theme === 'dot') {
      return {
        viewBox: '0 0 24 24',
        path: '<circle cx="12" cy="12" r="7.5"></circle>',
        tipX: 12 / 24,
        tipY: 12 / 24,
      };
    }
    if (theme === 'hand') {
      return {
        viewBox: '0 0 24 24',
        path: '<path d="M9.5 1C10.88 1 12 2.12 12 3.5v3.3a3.05 3.05 0 0 1 2.1-.1l4.5 1.3A3.2 3.2 0 0 1 21 11.1v4.4A7.5 7.5 0 0 1 13.5 23c-4.9 0-7.2-2.8-9.2-7.2-.9-2.1-1.5-3.5-1.8-4.3-.4-1.1.3-2.5 1.7-2.6 1.1-.1 2 .2 2.8.8V3.5C7 2.12 8.12 1 9.5 1Zm0 2A.5.5 0 0 0 9 3.5V14H7.2l-.2-.8c-.3-1.5-1.1-2.3-2-2.4.3.8.8 2 1.6 3.8 1.8 4 3.3 6.4 6.9 6.4a5.5 5.5 0 0 0 5.5-5.5v-4.4c0-.5-.3-1-.8-1.1l-4.6-1.3A1.25 1.25 0 0 0 12 9.9V12h-2V3.5A.5.5 0 0 0 9.5 3Z"></path>',
        tipX: 9.5 / 24,
        tipY: 1 / 24,
      };
    }
    return {
      viewBox: '0 0 24 24',
      path: '<path d="M15.38 13.5 17.94 20.5 13.24 22.22 10.69 15.2 6.79 17.65 8.41 1.63 19.95 12.86 15.38 13.5Zm0 5.82-2.72-7.46 2.96-.41-5.64-5.49-.79 7.83 2.53-1.59 2.72 7.46.94-.34Z"></path>',
      tipX: 8.4 / 24,
      tipY: 1.6 / 24,
    };
  }

  function ensureCursor() {
    if (!config.cursor) return null;
    ensureRoot();
    if (cursor && cursor.isConnected) return cursor;
    cursor = document.createElementNS(ns, 'svg');
    cursor.setAttribute('data-agent-browser-recording-cursor', '');
    cursor.style.position = 'absolute';
    cursor.style.left = '0';
    cursor.style.top = '0';
    cursor.style.opacity = '0';
    cursor.style.fill = '#fff';
    cursor.style.stroke = 'rgba(0,0,0,.82)';
    cursor.style.strokeWidth = '1.25';
    cursor.style.strokeLinejoin = 'round';
    cursor.style.paintOrder = 'stroke fill';
    cursor.style.filter = 'drop-shadow(0 2px 2px rgba(0,0,0,.55))';
    cursor.style.zIndex = '60';
    cursor.style.pointerEvents = 'none';
    cursor.style.willChange = 'transform, opacity';
    cursor.style.transformOrigin = '0 0';
    cursorPath = document.createElementNS(ns, 'g');
    cursor.appendChild(cursorPath);
    root.appendChild(cursor);
    updateCursorShape();
    return cursor;
  }

  function updateCursorShape() {
    if (!cursor || !config.cursor) return;
    const size = Math.max(8, Math.min(96, Number(config.cursor.size) || 28));
    const shape = cursorShape(config.cursor.theme);
    cursor.setAttribute('viewBox', shape.viewBox);
    cursor.setAttribute('width', String(size));
    cursor.setAttribute('height', String(size));
    cursor.dataset.tipX = String(shape.tipX * size);
    cursor.dataset.tipY = String(shape.tipY * size);
    cursorPath.innerHTML = shape.path;
  }

  function cursorTransform(point) {
    const size = Math.max(8, Math.min(96, Number(config.cursor?.size) || 28));
    const tipX = Number(cursor?.dataset.tipX || size * 0.35);
    const tipY = Number(cursor?.dataset.tipY || size * 0.08);
    return `translate3d(${point.x - tipX}px, ${point.y - tipY}px, 0)`;
  }

  function visualCursorPoint() {
    if (!cursor) return null;
    const transform = getComputedStyle(cursor).transform;
    if (!transform || transform === 'none') return cursorPoint;
    try {
      const matrix = new DOMMatrixReadOnly(transform);
      const size = Math.max(8, Math.min(96, Number(config.cursor?.size) || 28));
      const tipX = Number(cursor.dataset.tipX || size * 0.35);
      const tipY = Number(cursor.dataset.tipY || size * 0.08);
      return { x: matrix.m41 + tipX, y: matrix.m42 + tipY };
    } catch (_) {
      return cursorPoint;
    }
  }

  function initialCursorPoint(to) {
    const size = Math.max(8, Math.min(96, Number(config.cursor?.size) || 28));
    const vw = window.innerWidth || document.documentElement.clientWidth || 1;
    const vh = window.innerHeight || document.documentElement.clientHeight || 1;
    const margin = size * 1.4;
    const x = to.x < vw / 2 ? -margin : vw + margin;
    const y = Math.max(margin, Math.min(vh - margin, to.y + 72));
    return { x, y };
  }

  function idleCursorPoint() {
    const size = Math.max(8, Math.min(96, Number(config.cursor?.size) || 28));
    const margin = Math.max(36, size * .9);
    return { x: margin, y: Math.max(margin, window.innerHeight - margin) };
  }

  function showIdleCursor() {
    const el = ensureCursor();
    if (!el) return;
    if (!cursorPoint) {
      cursorPoint = idleCursorPoint();
      el.style.transform = cursorTransform(cursorPoint);
    }
    cursorVisible = true;
    el.style.opacity = '1';
  }

  function hideCursor() {
    clearTimeout(cursorTimer);
    cursorAnimation?.cancel();
    cursorAnimation = null;
    cursor?.remove();
    cursor = null;
    cursorPath = null;
    cursorPoint = null;
    cursorVisible = false;
  }

  function effectUnderway() {
    return moving > 0 || zoomed || !!root?.querySelector(EFFECTS);
  }

  // With motion 'auto' the cursor is there while an effect is under way and for the
  // moment that a recording goes on after it.
  function settleCursor() {
    clearTimeout(cursorTimer);
    if (!cursor || !cursorVisible || config.cursor?.motion !== 'auto') return;
    if (effectUnderway()) {
      cursor.style.opacity = '1';
      return;
    }
    cursorTimer = setTimeout(() => {
      if (cursor) cursor.style.opacity = '0';
    }, CURSOR_HOLD_MS);
  }

  function drop(el) {
    el.remove();
    settleCursor();
  }

  async function moveTo(x, y, options = {}) {
    if (!config.cursor) return;
    const el = ensureCursor();
    if (!el) return;
    updateCursorShape();
    const to = { x: Number(x) || 0, y: Number(y) || 0 };
    const from = visualCursorPoint() || initialCursorPoint(to);
    const duration = config.cursor.motion === 'off'
      ? 0
      : Math.max(0, Number(options.durationMs ?? config.cursor.tweenMs) || 0);
    cursorVisible = true;
    clearTimeout(cursorTimer);
    cursorAnimation?.cancel();
    cursorAnimation = null;
    el.style.opacity = '1';
    if (duration === 0) {
      el.style.transform = cursorTransform(to);
      cursorPoint = to;
      settleCursor();
      return;
    }
    el.style.transform = cursorTransform(from);
    const animation = el.animate(
      [
        { transform: cursorTransform(from), opacity: 1 },
        { transform: cursorTransform(to), opacity: 1 },
      ],
      { duration, easing: 'cubic-bezier(0.45, 0, 0.15, 1)', fill: 'forwards' }
    );
    cursorAnimation = animation;
    moving += 1;
    await Promise.all([
      animation.finished.catch(() => {}),
      new Promise(resolve => setTimeout(resolve, duration)),
    ]);
    moving = Math.max(0, moving - 1);
    if (animation === cursorAnimation) {
      el.style.transform = cursorTransform(to);
      cursorPoint = to;
      animation.cancel();
      cursorAnimation = null;
    }
    settleCursor();
  }

  function burst(x, y, duration) {
    ensureRoot();
    const ms = Math.max(260, Number(duration) || 500);
    const group = document.createElement('div');
    group.setAttribute('data-agent-browser-recording-click', '');
    group.style.position = 'absolute';
    group.style.left = `${x}px`;
    group.style.top = `${y}px`;
    group.style.width = '0';
    group.style.height = '0';
    group.style.pointerEvents = 'none';
    group.style.zIndex = '50';
    root.appendChild(group);
    settleCursor();

    const rings = [];
    for (let i = 0; i < 2; i += 1) {
      const ring = document.createElement('div');
      ring.style.position = 'absolute';
      ring.style.left = '-10px';
      ring.style.top = '-10px';
      ring.style.width = '20px';
      ring.style.height = '20px';
      ring.style.border = i === 0 ? '3px solid rgba(255,255,255,.96)' : '2px solid rgba(118,255,56,.92)';
      ring.style.borderRadius = '999px';
      ring.style.background = 'transparent';
      ring.style.boxShadow = i === 0
        ? '0 0 0 1px rgba(0,0,0,.55), 0 0 18px rgba(255,255,255,.35)'
        : '0 0 0 1px rgba(0,0,0,.45), 0 0 24px rgba(118,255,56,.55)';
      ring.style.transformOrigin = 'center center';
      group.appendChild(ring);
      rings.push(ring);
    }

    const rays = [];
    for (let i = 0; i < 8; i += 1) {
      const ray = document.createElement('div');
      ray.style.position = 'absolute';
      ray.style.width = '16px';
      ray.style.height = '3px';
      ray.style.borderRadius = '2px';
      ray.style.background = i % 2 === 0 ? '#fff' : '#76ff38';
      ray.style.boxShadow = '0 0 0 1px rgba(0,0,0,.55), 0 0 10px rgba(118,255,56,.60)';
      ray.style.transformOrigin = 'center center';
      group.appendChild(ray);
      rays.push(ray);
    }
    rings.forEach((ring, i) => ring.animate(
      [
        { transform: 'translate(-50%, -50%) scale(.35)', opacity: i === 0 ? .95 : .75 },
        { transform: `translate(-50%, -50%) scale(${i === 0 ? 3.2 : 4.6})`, opacity: 0 },
      ],
      { duration: ms + i * 120, easing: 'cubic-bezier(0, 0, 0.2, 1)', fill: 'forwards' }
    ));
    rays.forEach((ray, i) => {
      const a = (i / rays.length) * Math.PI * 2;
      const dx = Math.cos(a);
      const dy = Math.sin(a);
      const deg = a * 180 / Math.PI;
      ray.animate(
        [
          { transform: `translate(${dx * 12 - 8}px, ${dy * 12 - 1.5}px) rotate(${deg}deg) scaleX(.15)`, opacity: 0 },
          { transform: `translate(${dx * 24 - 8}px, ${dy * 24 - 1.5}px) rotate(${deg}deg) scaleX(1)`, opacity: 1, offset: .32 },
          { transform: `translate(${dx * 44 - 8}px, ${dy * 44 - 1.5}px) rotate(${deg}deg) scaleX(.2)`, opacity: 0 },
        ],
        { duration: ms, delay: 35 + i * 18, easing: 'cubic-bezier(0, 0, 0.2, 1)', fill: 'forwards' }
      );
    });
    setTimeout(() => drop(group), ms + 360);
  }

  async function click(x, y) {
    const point = { x: Number(x) || 0, y: Number(y) || 0 };
    const clickMs = Math.max(260, Number(config.cursor?.clickMs) || 500);
    if (config.cursor?.clickSync === 'block') {
      await moveTo(point.x, point.y);
    } else {
      moveTo(point.x, point.y);
    }
    burst(point.x, point.y, clickMs);
  }

  function pill(text, position, opacity = 1) {
    ensureRoot();
    const wrap = document.createElement('div');
    wrap.style.position = 'absolute';
    wrap.style.left = '0';
    wrap.style.width = '100%';
    wrap.style.display = 'flex';
    wrap.style.justifyContent = 'center';
    wrap.style.padding = '0 24px';
    wrap.style.opacity = String(opacity);
    wrap.style.transition = 'opacity 180ms ease';
    wrap.style.zIndex = '40';
    if (position === 'top') wrap.style.top = '28px';
    else if (position === 'center') {
      wrap.style.top = '50%';
      wrap.style.transform = 'translateY(-50%)';
    } else wrap.style.bottom = '72px';
    const inner = document.createElement('div');
    inner.textContent = String(text || '');
    inner.style.maxWidth = '80%';
    inner.style.padding = '8px 20px';
    inner.style.borderRadius = '8px';
    inner.style.background = 'rgba(0,0,0,.75)';
    inner.style.color = '#fff';
    inner.style.font = '18px/1.4 system-ui, -apple-system, BlinkMacSystemFont, "Segoe UI", sans-serif';
    inner.style.textAlign = 'center';
    inner.style.backdropFilter = 'blur(4px)';
    inner.style.boxShadow = '0 4px 18px rgba(0,0,0,.18)';
    wrap.appendChild(inner);
    root.appendChild(wrap);
    return wrap;
  }

  function overlayText(text, position = 'bottom', durationMs = 5000) {
    const previous = overlayChain;
    const generation = overlayGeneration;
    const shown = previous.then(() => {
      if (generation !== overlayGeneration) return null;
      root?.querySelectorAll('[data-agent-browser-recording-overlay]').forEach(el => el.remove());
      const el = pill(text, position, 0);
      el.setAttribute('data-agent-browser-recording-overlay', '');
      settleCursor();
      void el.offsetWidth;
      el.style.opacity = '1';
      return el;
    });
    overlayChain = shown.then(el => new Promise(resolve => {
      setTimeout(() => {
        if (el && generation === overlayGeneration) {
          el.style.opacity = '0';
          setTimeout(() => drop(el), 180);
        }
        resolve();
      }, Math.max(1, Number(durationMs) || 5000));
    })).catch(() => {});
    return shown.then(() => undefined);
  }

  function key(label) {
    ensureRoot();
    const el = document.createElement('div');
    el.setAttribute('data-agent-browser-recording-key', '');
    el.textContent = String(label || '');
    Object.assign(el.style, {
      position: 'absolute',
      top: '18px',
      left: '50%',
      transform: 'translateX(-50%)',
      maxWidth: '72%',
      padding: '5px 10px',
      borderRadius: '7px',
      background: 'rgba(17,24,39,.82)',
      color: '#fff',
      font: '13px/1.35 ui-monospace, SFMono-Regular, Menlo, Consolas, monospace',
      boxShadow: '0 3px 12px rgba(0,0,0,.18)',
      whiteSpace: 'nowrap',
      overflow: 'hidden',
      textOverflow: 'ellipsis',
      opacity: '0',
      transition: 'opacity 160ms ease',
      zIndex: '45',
    });
    root.appendChild(el);
    settleCursor();
    requestAnimationFrame(() => { el.style.opacity = '1'; });
    setTimeout(() => {
      el.style.opacity = '0';
      setTimeout(() => drop(el), 180);
    }, 850);
  }

  function spotlight(x, y, durationMs = 1200) {
    ensureRoot();
    root.querySelectorAll('[data-agent-browser-recording-spotlight]').forEach(el => el.remove());
    const el = document.createElement('div');
    el.setAttribute('data-agent-browser-recording-spotlight', '');
    const px = Number(x) || 0;
    const py = Number(y) || 0;
    Object.assign(el.style, {
      position: 'absolute',
      inset: '0',
      background: `radial-gradient(circle at ${px}px ${py}px, rgba(118,255,56,.18) 0, rgba(118,255,56,.10) 64px, rgba(0,0,0,.18) 128px, rgba(0,0,0,.52) 240px)`,
      opacity: '0',
      transition: 'opacity 180ms ease',
      zIndex: '20',
    });
    const ring = document.createElement('div');
    Object.assign(ring.style, {
      position: 'absolute',
      left: `${px - 72}px`,
      top: `${py - 72}px`,
      width: '144px',
      height: '144px',
      border: '3px solid rgba(118,255,56,.98)',
      borderRadius: '999px',
      boxShadow: '0 0 0 2px rgba(0,0,0,.55), 0 0 36px rgba(118,255,56,.72), inset 0 0 24px rgba(118,255,56,.28)',
    });
    el.appendChild(ring);
    root.appendChild(el);
    settleCursor();
    requestAnimationFrame(() => { el.style.opacity = '1'; });
    setTimeout(() => {
      if (!el.isConnected) return;
      el.style.opacity = '0';
      setTimeout(() => drop(el), 180);
    }, Math.max(1, Number(durationMs) || 1200));
  }

  function clearOverlay() {
    ensureRoot();
    overlayGeneration += 1;
    root.querySelectorAll('[data-agent-browser-recording-overlay], [data-agent-browser-recording-key], [data-agent-browser-recording-spotlight]').forEach(el => el.remove());
    overlayChain = Promise.resolve();
    settleCursor();
  }

  function snapshotZoomStyles() {
    if (zoomOriginalStyles) return;
    const body = document.body;
    if (!body) return;
    zoomOriginalStyles = {
      htmlOverflow: document.documentElement.style.overflow,
      bodyOverflow: body.style.overflow,
      bodyTransformOrigin: body.style.transformOrigin,
      bodyTransition: body.style.transition,
      bodyTransform: body.style.transform,
    };
  }

  function restoreZoomStyles() {
    const body = document.body;
    if (!body || !zoomOriginalStyles) return;
    document.documentElement.style.overflow = zoomOriginalStyles.htmlOverflow;
    body.style.overflow = zoomOriginalStyles.bodyOverflow;
    body.style.transformOrigin = zoomOriginalStyles.bodyTransformOrigin;
    body.style.transition = zoomOriginalStyles.bodyTransition;
    body.style.transform = zoomOriginalStyles.bodyTransform;
    zoomOriginalStyles = null;
  }

  function zoomTo(x, y, scale, durationMs = null) {
    const s = Math.max(1, Math.min(3, Number(scale) || 1));
    clearTimeout(zoomResetTimer);
    const body = document.body;
    if (!body) return;
    snapshotZoomStyles();
    zoomed = true;
    settleCursor();
    const vw = window.innerWidth || document.documentElement.clientWidth || 1;
    const vh = window.innerHeight || document.documentElement.clientHeight || 1;
    const cx = Number(x) || 0;
    const cy = Number(y) || vh;
    let originX = 0;
    let originY = vh;
    if (s !== 1) {
      originX = (s * cx - vw / 2) / (s - 1);
      originY = (s * cy - vh / 2) / (s - 1);
      originX = Math.max(0, Math.min(vw, originX));
      originY = Math.max(0, Math.min(vh, originY));
    }
    document.documentElement.style.overflow = 'hidden';
    body.style.overflow = 'hidden';
    body.style.transformOrigin = `${originX}px ${originY}px`;
    body.style.transition = 'transform 600ms cubic-bezier(0.4, 0, 0.2, 1)';
    body.style.transform = `scale(${s})`;
    if (durationMs !== null && durationMs !== undefined) {
      zoomResetTimer = setTimeout(() => zoomReset(), Math.max(1, Number(durationMs) || 1));
    }
  }

  async function zoomReset() {
    clearTimeout(zoomResetTimer);
    const body = document.body;
    if (!body) return;
    body.style.transition = 'transform 600ms cubic-bezier(0.4, 0, 0.2, 1)';
    body.style.transform = '';
    await new Promise(resolve => setTimeout(resolve, 700));
    restoreZoomStyles();
    zoomed = false;
    settleCursor();
  }

  function cleanup() {
    clearTimeout(zoomResetTimer);
    hideCursor();
    root?.remove();
    installedStyle?.remove();
    root = null;
    moving = 0;
    zoomed = false;
    overlayGeneration += 1;
    overlayChain = Promise.resolve();
    restoreZoomStyles();
  }

  window.__agentBrowserRecordingEffects = {
    version: VERSION,
    configure(nextConfig = {}) {
      config = { ...defaultConfig, ...nextConfig };
      if (nextConfig.cursor === null) config.cursor = null;
      else config.cursor = { ...defaultConfig.cursor, ...(nextConfig.cursor || {}) };
      if (!config.cursor) {
        hideCursor();
        return;
      }
      if (config.cursor.motion === 'always') showIdleCursor();
      updateCursorShape();
      settleCursor();
    },
    moveTo,
    click,
    key,
    overlayText,
    spotlight,
    clearOverlay,
    zoomTo,
    zoomReset,
    cleanup,
  };
})();
"#;

} // verus!
