//! The bridge to the in-page cursor overlay.
//!
//! All bridge calls are best-effort: where the cursor is not installed (yet) or
//! the execution context has been destroyed (mid-navigation), the error is
//! transient and the call counts as done. Genuine connection failures propagate.

use std::sync::Arc;

use vstd::prelude::*;
use vstd::string::*;

use crate::cdp::{
    command_to_session, evaluate_by_value, evaluate_command, session_command, CdpCommand, Command,
};
use crate::cursor_overlay::scripts::{
    build_install_script, install_script, motion_named, theme_named, MotionMode, Theme,
};
use crate::json::{Json, JsonValue};
use crate::options::{bounded, bounded_u32, flag_option, is_set, text_option, text_or};
use crate::sharing::share;
use crate::text::{agrees, contains, lower, occurs_in};

verus! {

/// Configuration of the cursor overlay. The defaults produce a clean cursor without
/// further configuration.
#[derive(Debug, Clone, Copy)]
pub struct CursorOverlayConfig {
    pub theme: Theme,
    pub size_px: u32,
    pub tween_ms: u32,
    pub click_ms: u32,
    pub motion: MotionMode,
    /// When `true`, click dispatch awaits the tween before firing mouse events.
    pub block_clicks: bool,
}

impl Default for CursorOverlayConfig {
    fn default() -> (r: Self)
        ensures
            r == default_overlay(),
    {
        CursorOverlayConfig {
            theme: Theme::default(),
            size_px: 28,
            tween_ms: 250,
            click_ms: 400,
            motion: MotionMode::default(),
            block_clicks: false,
        }
    }
}

/// The overlay that is shown where nothing else is asked for.
pub open spec fn default_overlay() -> CursorOverlayConfig {
    CursorOverlayConfig {
        theme: Theme::Arrow,
        size_px: 28,
        tween_ms: 250,
        click_ms: 400,
        motion: MotionMode::Auto,
        block_clicks: false,
    }
}

/// What is said of an unknown theme.
pub open spec fn theme_message(text: Seq<char>) -> Seq<char> {
    "unknown cursor theme '"@ + lower(text) + "'; valid options: arrow, dot, hand"@
}

/// What is said of an unknown motion mode.
pub open spec fn motion_message(text: Seq<char>) -> Seq<char> {
    "unknown cursor motion mode '"@ + lower(text) + "'; valid options: auto, always, off"@
}

/// The overlay that a `cursor` field asks for, or the first thing that is wrong with
/// it. A field that is absent, which reads as null, asks for none.
pub open spec fn requested_overlay(cursor: Json) -> Result<
    Option<CursorOverlayConfig>,
    Seq<char>,
> {
    let theme_text = text_option(cursor, "theme"@, "arrow"@);
    let motion_text = text_option(cursor, "motion"@, "auto"@);
    let size = bounded(cursor.member("size"@), "size"@, 8, 96, 28);
    let tween = bounded(cursor.member("tweenMs"@), "tweenMs"@, 0, 2000, 250);
    let click = bounded(cursor.member("clickMs"@), "clickMs"@, 0, 2000, 400);
    if cursor is Null {
        Ok(None)
    } else if !(cursor is Object) {
        Err("'cursor' must be an object"@)
    } else if theme_named(theme_text) is None {
        Err(theme_message(theme_text))
    } else if motion_named(motion_text) is None {
        Err(motion_message(motion_text))
    } else if size is Err {
        Err(size->Err_0)
    } else if tween is Err {
        Err(tween->Err_0)
    } else if click is Err {
        Err(click->Err_0)
    } else {
        Ok(
            Some(
                CursorOverlayConfig {
                    theme: theme_named(theme_text)->0,
                    size_px: size->Ok_0,
                    tween_ms: tween->Ok_0,
                    click_ms: click->Ok_0,
                    motion: motion_named(motion_text)->0,
                    block_clicks: flag_option(cursor, "blockClicks"@),
                },
            ),
        )
    }
}

impl CursorOverlayConfig {
    /// The install script of this overlay.
    pub open spec fn script(self) -> Seq<char> {
        install_script(self.theme, self.size_px, self.tween_ms, self.click_ms, self.motion)
    }

    /// The size and the durations are in the range that the options allow.
    pub open spec fn in_bounds(self) -> bool {
        8 <= self.size_px <= 96 && self.tween_ms <= 2000 && self.click_ms <= 2000
    }

    /// The script that installs this overlay.
    pub fn install_source(&self) -> (r: String)
        ensures
            r@ == self.script(),
    {
        build_install_script(self.theme, self.size_px, self.tween_ms, self.click_ms, self.motion)
    }

    /// Snapshot of the per-call knobs that clicking and hovering need, paired with
    /// the client that the animation goes through.
    pub fn bridge<Client>(&self, client: Arc<Client>) -> (r: CursorBridge<Client>)
        ensures
            r.tween_ms == self.tween_ms,
            r.click_ms == self.click_ms,
            r.block_clicks == self.block_clicks,
            r.client == client,
    {
        CursorBridge {
            tween_ms: self.tween_ms,
            click_ms: self.click_ms,
            block_clicks: self.block_clicks,
            client,
        }
    }

    /// Reads the `cursor` object of a command. Gives `Ok(None)` where the field is
    /// absent (null), which means that the cursor is disabled. Numbers are held to the
    /// bounds that the command line advertises.
    pub fn from_cmd_value(value: &JsonValue) -> (r: Result<Option<Self>, String>)
        ensures
            agrees(r, requested_overlay(value@)),
    {
        if value.is_null() {
            return Ok(None);
        }
        if !value.is_object() {
            return Err("'cursor' must be an object".to_owned());
        }
        let theme = match Theme::from_str_ci(text_or(value, "theme", "arrow")) {
            Ok(theme) => theme,
            Err(message) => return Err(message),
        };
        let motion = match MotionMode::from_str_ci(text_or(value, "motion", "auto")) {
            Ok(motion) => motion,
            Err(message) => return Err(message),
        };
        let size_px: u32 = match bounded_u32(value.get("size"), "size", 8, 96, 28) {
            Ok(size) => size,
            Err(message) => return Err(message),
        };
        let tween_ms: u32 = match bounded_u32(value.get("tweenMs"), "tweenMs", 0, 2000, 250) {
            Ok(tween) => tween,
            Err(message) => return Err(message),
        };
        let click_ms: u32 = match bounded_u32(value.get("clickMs"), "clickMs", 0, 2000, 400) {
            Ok(click) => click,
            Err(message) => return Err(message),
        };
        let block_clicks = is_set(value, "blockClicks");
        Ok(
            Some(
                CursorOverlayConfig { theme, size_px, tween_ms, click_ms, motion, block_clicks },
            ),
        )
    }
}

/// Cursor knobs that clicking and hovering need, with a shared client for the
/// animation tasks.
pub struct CursorBridge<Client> {
    pub tween_ms: u32,
    pub click_ms: u32,
    pub block_clicks: bool,
    pub client: Arc<Client>,
}

impl<Client> Clone for CursorBridge<Client> {
    fn clone(&self) -> (r: Self)
        ensures
            r.tween_ms == self.tween_ms,
            r.click_ms == self.click_ms,
            r.block_clicks == self.block_clicks,
            r.client == self.client,
    {
        CursorBridge {
            tween_ms: self.tween_ms,
            click_ms: self.click_ms,
            block_clicks: self.block_clicks,
            client: share(&self.client),
        }
    }
}

/// Every overlay that can be asked for is in bounds.
pub proof fn requested_overlays_are_in_bounds(cursor: Json)
    requires
        requested_overlay(cursor) is Ok,
        requested_overlay(cursor)->Ok_0 is Some,
    ensures
        requested_overlay(cursor)->Ok_0->0.in_bounds(),
{
}

/// The cursor is disabled where the field is absent, and only there: an object asks
/// for an overlay or is refused.
pub proof fn absence_disables_the_cursor(cursor: Json)
    ensures
        requested_overlay(cursor) == Ok::<Option<CursorOverlayConfig>, Seq<char>>(None)
            <==> cursor is Null,
{
}

/// An object that asks for nothing gets the default overlay.
pub proof fn empty_request_is_default()
    ensures
        requested_overlay(Json::empty_object()) == Ok::<Option<CursorOverlayConfig>, Seq<char>>(
            Some(default_overlay()),
        ),
{
    crate::cursor_overlay::scripts::theme_names_read_back(Theme::Arrow);
    crate::cursor_overlay::scripts::motion_names_read_back(MotionMode::Auto);
}

/// The errors that mean that the page-side cursor is not available right now.
pub open spec fn transient_needles() -> Seq<Seq<char>> {
    seq![
        "Promise was collected"@,
        "Execution context was destroyed"@,
        "Execution context with given id not found"@,
        "Cannot find context"@,
        "Inspected target navigated or closed"@,
    ]
}

/// One of the transient errors is spoken of.
pub open spec fn is_transient(message: Seq<char>) -> bool {
    exists|i: int|
        0 <= i < transient_needles().len() && occurs_in(message, #[trigger] transient_needles()[i])
}

/// Whether an error means "the page-side cursor isn't available right now"
/// (mid-navigation, just-created context, page already torn down) rather than "the
/// connection is dead."
pub fn is_transient_bridge_error(message: &str) -> (r: bool)
    ensures
        r == is_transient(message@),
{
    let found = contains(message, "Promise was collected") || contains(
        message,
        "Execution context was destroyed",
    ) || contains(message, "Execution context with given id not found") || contains(
        message,
        "Cannot find context",
    ) || contains(message, "Inspected target navigated or closed");
    proof {
        let needles = transient_needles();
        assert(needles[0] == "Promise was collected"@);
        assert(needles[1] == "Execution context was destroyed"@);
        assert(needles[2] == "Execution context with given id not found"@);
        assert(needles[3] == "Cannot find context"@);
        assert(needles[4] == "Inspected target navigated or closed"@);
        if is_transient(message@) {
            let i = choose|i: int|
                0 <= i < needles.len() && occurs_in(message@, #[trigger] needles[i]);
            assert(i == 0 || i == 1 || i == 2 || i == 3 || i == 4);
        }
    }
    found
}

/// The reply to a command, as its content.
pub open spec fn reply_content(reply: Result<JsonValue, String>) -> Result<Json, Seq<char>> {
    match reply {
        Ok(value) => Ok(value@),
        Err(message) => Err(message@),
    }
}

/// The best-effort contract of bridge calls: transient page-side conditions count
/// as done, genuine connection failures propagate.
pub open spec fn bridge_outcome(reply: Result<Json, Seq<char>>) -> Result<(), Seq<char>> {
    match reply {
        Ok(_) => Ok(()),
        Err(message) => if is_transient(message) {
            Ok(())
        } else {
            Err(message)
        },
    }
}

/// Maps the raw reply of a bridge call into the best-effort contract.
pub fn classify_bridge_result(result: Result<JsonValue, String>) -> (r: Result<(), String>)
    ensures
        agrees(r, bridge_outcome(reply_content(result))),
{
    match result {
        Ok(_) => Ok(()),
        Err(message) => if is_transient_bridge_error(message.as_str()) {
            Ok(())
        } else {
            Err(message)
        },
    }
}

/// Installing the overlay, step by step.
pub enum InstallStep {
    /// Register the script for every navigation, and run it at once.
    Register,
    /// Registered under this identifier; evaluate the script on the current page.
    Evaluate(String),
    /// Over, with the identifier or an error.
    Done(Result<String, String>),
}

/// The mathematical content of an [`InstallStep`].
pub enum Installing {
    Register,
    Evaluate(Seq<char>),
    Done(Result<Seq<char>, Seq<char>>),
}

impl View for InstallStep {
    type V = Installing;

    open spec fn view(&self) -> Installing {
        match self {
            InstallStep::Register => Installing::Register,
            InstallStep::Evaluate(identifier) => Installing::Evaluate(identifier@),
            InstallStep::Done(Ok(identifier)) => Installing::Done(Ok(identifier@)),
            InstallStep::Done(Err(message)) => Installing::Done(Err(message@)),
        }
    }
}

impl Installing {
    /// The command that the step sends.
    pub open spec fn sends(
        self,
        session_id: Seq<char>,
        config: CursorOverlayConfig,
    ) -> Option<Command> {
        match self {
            Installing::Register => Some(
                session_command(
                    "Page.addScriptToEvaluateOnNewDocument"@,
                    Json::empty_object().with("source"@, Json::Text(config.script())).with(
                        "runImmediately"@,
                        Json::Bool(true),
                    ),
                    session_id,
                ),
            ),
            Installing::Evaluate(_) => Some(evaluate_by_value(config.script(), session_id)),
            Installing::Done(_) => None,
        }
    }

    /// The step after the reply. A failed registration ends the installation; the
    /// evaluation is redundant, and its reply does not matter.
    pub open spec fn after(self, reply: Result<Json, Seq<char>>) -> Installing {
        match (self, reply) {
            (Installing::Register, Ok(value)) => Installing::Evaluate(
                text_option(value, "identifier"@, ""@),
            ),
            (Installing::Register, Err(message)) => Installing::Done(Err(message)),
            (Installing::Evaluate(identifier), _) => Installing::Done(Ok(identifier)),
            (Installing::Done(_), _) => self,
        }
    }
}

impl InstallStep {
    /// The command that the step sends.
    pub fn command(&self, session_id: &str, config: &CursorOverlayConfig) -> (r: Option<CdpCommand>)
        ensures
            match r {
                Some(command) => self@.sends(session_id@, *config) == Some(command@),
                None => self@.sends(session_id@, *config) is None,
            },
    {
        match self {
            InstallStep::Register => {
                let source = config.install_source();
                let params = JsonValue::empty_object().with(
                    "source",
                    JsonValue::text(source.as_str()),
                ).with("runImmediately", JsonValue::Bool(true));
                Some(
                    command_to_session(
                        "Page.addScriptToEvaluateOnNewDocument",
                        params,
                        session_id,
                    ),
                )
            },
            InstallStep::Evaluate(_) => Some(
                evaluate_command(config.install_source().as_str(), session_id),
            ),
            InstallStep::Done(_) => None,
        }
    }

    /// Moves on with the reply to the command.
    pub fn advance(self, reply: Result<JsonValue, String>) -> (r: InstallStep)
        ensures
            r@ == self@.after(reply_content(reply)),
    {
        match (self, reply) {
            (InstallStep::Register, Ok(value)) => InstallStep::Evaluate(
                text_or(&value, "identifier", "").to_owned(),
            ),
            (InstallStep::Register, Err(message)) => InstallStep::Done(Err(message)),
            (InstallStep::Evaluate(identifier), _) => InstallStep::Done(Ok(identifier)),
            (InstallStep::Done(outcome), _) => InstallStep::Done(outcome),
        }
    }
}

/// Removing the overlay, step by step.
pub enum RemoveStep {
    /// Take back the registration with this identifier.
    Unregister(String),
    /// Tear the overlay down on the current page.
    Destroy,
    /// Over.
    Done(Result<(), String>),
}

/// The mathematical content of a [`RemoveStep`].
pub enum Removing {
    Unregister(Seq<char>),
    Destroy,
    Done(Result<(), Seq<char>>),
}

impl View for RemoveStep {
    type V = Removing;

    open spec fn view(&self) -> Removing {
        match self {
            RemoveStep::Unregister(identifier) => Removing::Unregister(identifier@),
            RemoveStep::Destroy => Removing::Destroy,
            RemoveStep::Done(Ok(_)) => Removing::Done(Ok(())),
            RemoveStep::Done(Err(message)) => Removing::Done(Err(message@)),
        }
    }
}

/// The script that tears the overlay down.
pub const DESTROY_EXPRESSION: &'static str =
    "window.__ab_cursor && window.__ab_cursor.destroy && window.__ab_cursor.destroy()";

impl Removing {
    /// The first step: without an identifier there is no registration.
    pub open spec fn first(identifier: Seq<char>) -> Removing {
        if identifier.len() == 0 {
            Removing::Destroy
        } else {
            Removing::Unregister(identifier)
        }
    }

    /// The command that the step sends.
    pub open spec fn sends(self, session_id: Seq<char>) -> Option<Command> {
        match self {
            Removing::Unregister(identifier) => Some(
                session_command(
                    "Page.removeScriptToEvaluateOnNewDocument"@,
                    Json::empty_object().with("identifier"@, Json::Text(identifier)),
                    session_id,
                ),
            ),
            Removing::Destroy => Some(evaluate_by_value(DESTROY_EXPRESSION@, session_id)),
            Removing::Done(_) => None,
        }
    }

    /// The step after the reply. An error of the teardown does not matter.
    pub open spec fn after(self, reply: Result<Json, Seq<char>>) -> Removing {
        match (self, reply) {
            (Removing::Unregister(_), Ok(_)) => Removing::Destroy,
            (Removing::Unregister(_), Err(message)) => Removing::Done(Err(message)),
            (Removing::Destroy, _) => Removing::Done(Ok(())),
            (Removing::Done(_), _) => self,
        }
    }
}

impl RemoveStep {
    /// The first step.
    pub fn start(identifier: &str) -> (r: RemoveStep)
        ensures
            r@ == Removing::first(identifier@),
    {
        if identifier.is_empty() {
            RemoveStep::Destroy
        } else {
            RemoveStep::Unregister(identifier.to_owned())
        }
    }

    /// The command that the step sends.
    pub fn command(&self, session_id: &str) -> (r: Option<CdpCommand>)
        ensures
            match r {
                Some(command) => self@.sends(session_id@) == Some(command@),
                None => self@.sends(session_id@) is None,
            },
    {
        match self {
            RemoveStep::Unregister(identifier) => {
                let params = JsonValue::empty_object().with(
                    "identifier",
                    JsonValue::text(identifier.as_str()),
                );
                Some(
                    command_to_session(
                        "Page.removeScriptToEvaluateOnNewDocument",
                        params,
                        session_id,
                    ),
                )
            },
            RemoveStep::Destroy => Some(evaluate_command(DESTROY_EXPRESSION, session_id)),
            RemoveStep::Done(_) => None,
        }
    }

    /// Moves on with the reply to the command.
    pub fn advance(self, reply: Result<JsonValue, String>) -> (r: RemoveStep)
        ensures
            r@ == self@.after(reply_content(reply)),
    {
        match (self, reply) {
            (RemoveStep::Unregister(_), Ok(_)) => RemoveStep::Destroy,
            (RemoveStep::Unregister(_), Err(message)) => RemoveStep::Done(Err(message)),
            (RemoveStep::Destroy, _) => RemoveStep::Done(Ok(())),
            (RemoveStep::Done(outcome), _) => RemoveStep::Done(outcome),
        }
    }
}

/// An overlay that the page registered can be removed: the installation hands out
/// the identifier of the registration, whatever comes of the evaluation after it, and
/// the removal takes that registration back.
pub proof fn removal_takes_back_the_registration(
    registered: Json,
    evaluated: Result<Json, Seq<char>>,
    session_id: Seq<char>,
)
    requires
        text_option(registered, "identifier"@, ""@).len() > 0,
    ensures
        ({
            let identifier = text_option(registered, "identifier"@, ""@);
            &&& Installing::Register.after(Ok(registered)).after(evaluated) == Installing::Done(
                Ok(identifier),
            )
            &&& Removing::first(identifier).sends(session_id) == Some(
                session_command(
                    "Page.removeScriptToEvaluateOnNewDocument"@,
                    Json::empty_object().with("identifier"@, Json::Text(identifier)),
                    session_id,
                ),
            )
        }),
{
}

/// A removal ends by tearing the overlay down, and an error of that does not matter;
/// without a registration there is nothing else that could fail.
pub proof fn removal_tears_the_overlay_down(
    identifier: Seq<char>,
    unregistered: Json,
    destroyed: Result<Json, Seq<char>>,
)
    ensures
        identifier.len() > 0 ==> Removing::first(identifier).after(Ok(unregistered)).after(
            destroyed,
        ) == Removing::Done(Ok(())),
        identifier.len() == 0 ==> Removing::first(identifier).after(destroyed) == Removing::Done(
            Ok(()),
        ),
{
}

/// A bridge call never fails because the cursor is not available right now, and never
/// hides another error.
pub proof fn bridge_calls_are_best_effort(message: Seq<char>)
    ensures
        is_transient(message) ==> bridge_outcome(Err(message)) == Ok::<(), Seq<char>>(()),
        !is_transient(message) ==> bridge_outcome(Err(message)) == Err::<(), Seq<char>>(message),
{
}

} // verus!
