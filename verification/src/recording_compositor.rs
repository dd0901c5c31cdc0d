//! The recording compositor: a page of its own that shows the recorded page's
//! latest screenshot with the effects on top, and that is captured in its place.

use std::sync::Arc;

use vstd::prelude::*;
use vstd::string::*;

use crate::capture::{base64_bytes, Capture, CaptureEvent, CaptureLoop, CapturePhase, Happening};
use crate::cdp::{
    bare_command, browser_command, command_to_browser, command_to_session, command_without_params,
    evaluate_promise_command, evaluate_with_promise, evaluation_outcome, jpeg_screenshot,
    screenshot_command, session_command, CdpCommand, Command, ExceptionDetails,
};
use crate::json::{js_string, quoted, Json, JsonNumber, JsonValue, Numeral};
use crate::sharing::share;
use crate::text::same_text;
use crate::time::{elapsed_nanos, millis, TimePoint, TimeSpan, NANOS_PER_SEC};

verus! {

/// A compositor page, and the client that reaches it.
pub struct RecordingCompositor<Client> {
    pub client: Arc<Client>,
    pub target_id: String,
    pub session_id: String,
}

impl<Client> Clone for RecordingCompositor<Client> {
    fn clone(&self) -> (r: Self)
        ensures
            r.client == self.client,
            r.target_id@ == self.target_id@,
            r.session_id@ == self.session_id@,
    {
        RecordingCompositor {
            client: share(&self.client),
            target_id: self.target_id.clone(),
            session_id: self.session_id.clone(),
        }
    }
}

/// The page that a compositor is to be.
#[derive(Debug)]
pub struct CompositorPage {
    pub url: String,
    /// The browser context to open it in, where it is not the default one.
    pub browser_context_id: Option<String>,
    pub width: i32,
    pub height: i32,
    /// The device scale factor as a decimal number, where it has one.
    pub device_scale_factor: Option<String>,
    pub mobile: bool,
}

/// A side of the page in pixels: one at least.
pub open spec fn side(pixels: i32) -> u64 {
    if pixels < 1 {
        1
    } else {
        pixels as u64
    }
}

/// The script that fills the page.
pub open spec fn document_script() -> Seq<char> {
    "document.open(); document.write("@ + quoted(COMPOSITOR_HTML@) + "); document.close();"@
}

/// The script that shows a frame.
pub open spec fn frame_script(jpeg_base64: Seq<char>) -> Seq<char> {
    "window.__agentBrowserRecordingCompositor.setFrame("@ + quoted(jpeg_base64) + ")"@
}

/// Brings a page to the front.
pub open spec fn activate_target(target_id: Seq<char>) -> Command {
    browser_command(
        "Target.activateTarget"@,
        Json::empty_object().with("targetId"@, Json::Text(target_id)),
    )
}

/// Closes a page.
pub open spec fn close_target(target_id: Seq<char>) -> Command {
    browser_command(
        "Target.closeTarget"@,
        Json::empty_object().with("targetId"@, Json::Text(target_id)),
    )
}

/// The command that brings a page to the front.
pub fn activate_command(target_id: &str) -> (r: CdpCommand)
    ensures
        r@ == activate_target(target_id@),
{
    command_to_browser(
        "Target.activateTarget",
        JsonValue::empty_object().with("targetId", JsonValue::text(target_id)),
    )
}

/// The command that closes a page.
pub fn close_command(target_id: &str) -> (r: CdpCommand)
    ensures
        r@ == close_target(target_id@),
{
    command_to_browser(
        "Target.closeTarget",
        JsonValue::empty_object().with("targetId", JsonValue::text(target_id)),
    )
}

/// The command that shows a frame, given in base64.
pub fn set_frame_command(session_id: &str, jpeg_base64: &str) -> (r: CdpCommand)
    ensures
        r@ == evaluate_with_promise(frame_script(jpeg_base64@), true, session_id@),
{
    let mut script = "window.__agentBrowserRecordingCompositor.setFrame(".to_owned();
    script.append(js_string(jpeg_base64).as_str());
    script.append(")");
    evaluate_promise_command(script.as_str(), true, session_id)
}

/// What came of a script of the compositor.
pub fn compositor_outcome(exception: Option<ExceptionDetails>) -> (r: Result<(), String>)
    ensures
        match exception {
            None => r is Ok,
            Some(details) => r is Err && r->Err_0@ == "Recording compositor runtime error: "@
                + details.message(),
        },
{
    evaluation_outcome("Recording compositor runtime error: ", exception)
}

/// How far the making of a compositor has come: what is to be done next.
#[derive(Debug, Clone, Copy, PartialEq, Eq, Structural)]
pub enum CreateStage {
    CreateTarget,
    Attach,
    EnablePage,
    EnableRuntime,
    Resume,
    SetMetrics,
    WriteDocument,
    RunScript,
    Activate,
    Ready,
    Failed,
}

/// The making of a compositor, step by step.
#[derive(Debug)]
pub struct CompositorCreation {
    pub stage: CreateStage,
    /// The page, once it is there.
    pub target_id: String,
    /// The session, once it is attached.
    pub session_id: String,
    /// What went wrong, where something did.
    pub error: String,
}

/// The mathematical content of a [`CompositorCreation`].
#[verifier::ext_equal]
pub struct Creating {
    pub stage: CreateStage,
    pub target_id: Seq<char>,
    pub session_id: Seq<char>,
    pub error: Seq<char>,
}

impl View for CompositorCreation {
    type V = Creating;

    open spec fn view(&self) -> Creating {
        Creating {
            stage: self.stage,
            target_id: self.target_id@,
            session_id: self.session_id@,
            error: self.error@,
        }
    }
}

/// The parameters that open the page.
pub open spec fn target_params(page: CompositorPage) -> Json {
    let url = Json::empty_object().with("url"@, Json::Text(page.url@));
    match page.browser_context_id {
        Some(id) => url.with("browserContextId"@, Json::Text(id@)),
        None => url,
    }
}

/// The parameters that set the size of the page.
pub open spec fn metrics_params(page: CompositorPage) -> Json {
    Json::empty_object().with("width"@, Json::Number(Numeral::Unsigned(side(page.width)))).with(
        "height"@,
        Json::Number(Numeral::Unsigned(side(page.height))),
    ).with(
        "deviceScaleFactor"@,
        match page.device_scale_factor {
            Some(scale) => Json::Number(Numeral::Decimal(scale@)),
            None => Json::Null,
        },
    ).with("mobile"@, Json::Bool(page.mobile))
}

impl Creating {
    /// Before the first step.
    pub open spec fn initial() -> Creating {
        Creating {
            stage: CreateStage::CreateTarget,
            target_id: Seq::empty(),
            session_id: Seq::empty(),
            error: Seq::empty(),
        }
    }

    /// At another stage.
    pub open spec fn at(self, stage: CreateStage) -> Creating {
        Creating { stage, ..self }
    }

    /// Given up.
    pub open spec fn failed(self, error: Seq<char>) -> Creating {
        Creating { stage: CreateStage::Failed, error, ..self }
    }

    /// The command of the stage.
    pub open spec fn sends(self, page: CompositorPage) -> Option<Command> {
        match self.stage {
            CreateStage::CreateTarget => Some(
                browser_command("Target.createTarget"@, target_params(page)),
            ),
            CreateStage::Attach => Some(
                browser_command(
                    "Target.attachToTarget"@,
                    Json::empty_object().with("targetId"@, Json::Text(self.target_id)).with(
                        "flatten"@,
                        Json::Bool(true),
                    ),
                ),
            ),
            CreateStage::EnablePage => Some(bare_command("Page.enable"@, self.session_id)),
            CreateStage::EnableRuntime => Some(bare_command("Runtime.enable"@, self.session_id)),
            CreateStage::Resume => Some(
                bare_command("Runtime.runIfWaitingForDebugger"@, self.session_id),
            ),
            CreateStage::SetMetrics => Some(
                session_command(
                    "Emulation.setDeviceMetricsOverride"@,
                    metrics_params(page),
                    self.session_id,
                ),
            ),
            CreateStage::WriteDocument => Some(
                evaluate_with_promise(document_script(), true, self.session_id),
            ),
            CreateStage::RunScript => Some(
                evaluate_with_promise(COMPOSITOR_RUNTIME_JS@, true, self.session_id),
            ),
            CreateStage::Activate => Some(activate_target(self.target_id)),
            CreateStage::Ready => None,
            CreateStage::Failed => None,
        }
    }

    /// After the reply to the command; a page and a session come with their
    /// identifiers. What came of the resumption and of the activation does not
    /// matter; any other error ends the making.
    pub open spec fn after(self, reply: Result<Seq<char>, Seq<char>>) -> Creating {
        match (self.stage, reply) {
            (CreateStage::CreateTarget, Ok(id)) => Creating {
                target_id: id,
                ..self.at(CreateStage::Attach)
            },
            (CreateStage::Attach, Ok(id)) => Creating {
                session_id: id,
                ..self.at(CreateStage::EnablePage)
            },
            (CreateStage::EnablePage, Ok(_)) => self.at(CreateStage::EnableRuntime),
            (CreateStage::EnableRuntime, Ok(_)) => self.at(CreateStage::Resume),
            (CreateStage::Resume, _) => self.at(CreateStage::SetMetrics),
            (CreateStage::SetMetrics, Ok(_)) => self.at(CreateStage::WriteDocument),
            (CreateStage::WriteDocument, Ok(_)) => self.at(CreateStage::RunScript),
            (CreateStage::RunScript, Ok(_)) => self.at(CreateStage::Activate),
            (CreateStage::Activate, _) => self.at(CreateStage::Ready),
            (CreateStage::Ready, _) => self,
            (CreateStage::Failed, _) => self,
            (_, Err(message)) => self.failed(message),
        }
    }
}

/// The characters of a reply.
pub open spec fn reply_text(reply: Result<String, String>) -> Result<Seq<char>, Seq<char>> {
    match reply {
        Ok(text) => Ok(text@),
        Err(message) => Err(message@),
    }
}

impl CompositorCreation {
    /// Before the first step.
    pub fn new() -> (r: CompositorCreation)
        ensures
            r@ == Creating::initial(),
    {
        CompositorCreation {
            stage: CreateStage::CreateTarget,
            target_id: String::new(),
            session_id: String::new(),
            error: String::new(),
        }
    }

    /// The command of the stage, until the making is over.
    pub fn command(&self, page: &CompositorPage) -> (r: Option<CdpCommand>)
        ensures
            match r {
                Some(command) => self@.sends(*page) == Some(command@),
                None => self@.sends(*page) is None,
            },
    {
        let session_id = self.session_id.as_str();
        match self.stage {
            CreateStage::CreateTarget => {
                let url = JsonValue::empty_object().with("url", JsonValue::text(page.url.as_str()));
                let params = match &page.browser_context_id {
                    Some(id) => url.with("browserContextId", JsonValue::text(id.as_str())),
                    None => url,
                };
                Some(command_to_browser("Target.createTarget", params))
            },
            CreateStage::Attach => {
                let params = JsonValue::empty_object().with(
                    "targetId",
                    JsonValue::text(self.target_id.as_str()),
                ).with("flatten", JsonValue::Bool(true));
                Some(command_to_browser("Target.attachToTarget", params))
            },
            CreateStage::EnablePage => Some(command_without_params("Page.enable", session_id)),
            CreateStage::EnableRuntime => Some(
                command_without_params("Runtime.enable", session_id),
            ),
            CreateStage::Resume => Some(
                command_without_params("Runtime.runIfWaitingForDebugger", session_id),
            ),
            CreateStage::SetMetrics => {
                let scale = match &page.device_scale_factor {
                    Some(scale) => JsonValue::Number(JsonNumber::Decimal(scale.clone())),
                    None => JsonValue::Null,
                };
                let params = JsonValue::empty_object().with("width", pixels(page.width)).with(
                    "height",
                    pixels(page.height),
                ).with("deviceScaleFactor", scale).with("mobile", JsonValue::Bool(page.mobile));
                Some(command_to_session("Emulation.setDeviceMetricsOverride", params, session_id))
            },
            CreateStage::WriteDocument => {
                let mut script = "document.open(); document.write(".to_owned();
                script.append(js_string(COMPOSITOR_HTML).as_str());
                script.append("); document.close();");
                Some(evaluate_promise_command(script.as_str(), true, session_id))
            },
            CreateStage::RunScript => Some(
                evaluate_promise_command(COMPOSITOR_RUNTIME_JS, true, session_id),
            ),
            CreateStage::Activate => Some(activate_command(self.target_id.as_str())),
            CreateStage::Ready => None,
            CreateStage::Failed => None,
        }
    }

    /// Moves on with the reply to the command.
    pub fn advance(&mut self, reply: Result<String, String>)
        ensures
            final(self)@ == old(self)@.after(reply_text(reply)),
    {
        match (self.stage, reply) {
            (CreateStage::CreateTarget, Ok(id)) => {
                self.target_id = id;
                self.stage = CreateStage::Attach;
            },
            (CreateStage::Attach, Ok(id)) => {
                self.session_id = id;
                self.stage = CreateStage::EnablePage;
            },
            (CreateStage::EnablePage, Ok(_)) => {
                self.stage = CreateStage::EnableRuntime;
            },
            (CreateStage::EnableRuntime, Ok(_)) => {
                self.stage = CreateStage::Resume;
            },
            (CreateStage::Resume, _) => {
                self.stage = CreateStage::SetMetrics;
            },
            (CreateStage::SetMetrics, Ok(_)) => {
                self.stage = CreateStage::WriteDocument;
            },
            (CreateStage::WriteDocument, Ok(_)) => {
                self.stage = CreateStage::RunScript;
            },
            (CreateStage::RunScript, Ok(_)) => {
                self.stage = CreateStage::Activate;
            },
            (CreateStage::Activate, _) => {
                self.stage = CreateStage::Ready;
            },
            (CreateStage::Ready, _) => {},
            (CreateStage::Failed, _) => {},
            (_, Err(message)) => {
                self.error = message;
                self.stage = CreateStage::Failed;
            },
        }
    }

    /// The compositor that was made, or what went wrong. Before the making is over
    /// there is neither.
    pub fn finish<Client>(self, client: Arc<Client>) -> (r: Option<
        Result<RecordingCompositor<Client>, String>,
    >)
        ensures
            match self.stage {
                CreateStage::Ready => r == Some(
                    Ok::<_, String>(
                        (RecordingCompositor {
                            client,
                            target_id: self.target_id,
                            session_id: self.session_id,
                        }),
                    ),
                ),
                CreateStage::Failed => r == Some(
                    Err::<RecordingCompositor<Client>, String>(self.error),
                ),
                _ => r is None,
            },
    {
        match self.stage {
            CreateStage::Ready => Some(
                Ok(
                    RecordingCompositor {
                        client,
                        target_id: self.target_id,
                        session_id: self.session_id,
                    },
                ),
            ),
            CreateStage::Failed => Some(Err(self.error)),
            _ => None,
        }
    }
}

fn pixels(count: i32) -> (r: JsonValue)
    ensures
        r@ == Json::Number(Numeral::Unsigned(side(count))),
{
    let at_least_one: u64 = if count < 1 {
        1
    } else {
        count as u64
    };
    JsonValue::Number(JsonNumber::Unsigned(at_least_one))
}

/// How often the source page is looked at again, in milliseconds.
pub const SOURCE_REFRESH_MS: u64 = 120;

/// How long one look at the source page may take, in milliseconds.
pub const SOURCE_BUDGET_MS: u64 = 90;

/// The JPEG quality of the screenshots of the source page.
pub const SOURCE_JPEG_QUALITY: u64 = 82;

/// The JPEG quality of the screenshots of the compositor.
pub const COMPOSITOR_JPEG_QUALITY: u64 = 90;

/// What the taking of a screenshot waits for.
#[derive(Debug, Clone, Copy, PartialEq, Eq, Structural)]
pub enum SourceStage {
    /// The time, to see whether the source page is to be looked at again.
    CheckRefresh,
    /// A screenshot of the source page.
    CaptureSource,
    /// The compositor to show it.
    SetFrame,
    /// The compositor to be brought to the front.
    Activate,
    /// A screenshot of the compositor.
    CaptureCompositor,
}

/// What the caller reports to the loop of a compositor recording.
#[derive(Debug)]
pub enum CompositorEvent {
    /// What the loop around the screenshots waits for.
    Capture(CaptureEvent),
    Clock(TimePoint),
    /// The screenshot of the source page in base64, or an error.
    Source(Result<String, String>),
    /// What came of showing it.
    FrameSet(Result<(), String>),
    /// The look at the source page took too long.
    TimedOut,
    /// The compositor was asked to the front.
    Activated,
    /// The screenshot of the compositor in base64, or an error.
    Screenshot(Result<String, String>),
}

/// The mathematical content of a [`CompositorEvent`].
pub enum CompositorHappening {
    Capture(Happening),
    Clock(TimePoint),
    Source(Result<Seq<char>, Seq<char>>),
    /// Whether the frame is shown.
    FrameSet(bool),
    TimedOut,
    Activated,
    Screenshot(Result<Seq<char>, Seq<char>>),
}

impl View for CompositorEvent {
    type V = CompositorHappening;

    open spec fn view(&self) -> CompositorHappening {
        match self {
            CompositorEvent::Capture(event) => CompositorHappening::Capture(event@),
            CompositorEvent::Clock(now) => CompositorHappening::Clock(*now),
            CompositorEvent::Source(reply) => CompositorHappening::Source(reply_text(*reply)),
            CompositorEvent::FrameSet(outcome) => CompositorHappening::FrameSet(outcome is Ok),
            CompositorEvent::TimedOut => CompositorHappening::TimedOut,
            CompositorEvent::Activated => CompositorHappening::Activated,
            CompositorEvent::Screenshot(reply) => CompositorHappening::Screenshot(
                reply_text(*reply),
            ),
        }
    }
}

/// The capture loop of a compositor recording. It is the loop of a page recording,
/// with more to do for a screenshot.
#[derive(Debug)]
pub struct CompositorLoop {
    pub capture: CaptureLoop,
    pub stage: SourceStage,
    /// The screenshot of the source page that the compositor shows, in base64.
    pub last_source_frame: Option<String>,
    /// The one that it is asked to show.
    pub next_source_frame: Option<String>,
    /// When the source page was last looked at.
    pub last_source_refresh: TimePoint,
}

/// The mathematical content of a [`CompositorLoop`].
#[verifier::ext_equal]
pub struct Compositing {
    pub capture: Capture,
    pub stage: SourceStage,
    pub last_source_frame: Option<Seq<char>>,
    pub next_source_frame: Option<Seq<char>>,
    pub last_source_refresh: TimePoint,
}

/// The characters of an optional string.
pub open spec fn string_text(text: Option<String>) -> Option<Seq<char>> {
    match text {
        Some(t) => Some(t@),
        None => None,
    }
}

impl View for CompositorLoop {
    type V = Compositing;

    open spec fn view(&self) -> Compositing {
        Compositing {
            capture: self.capture@,
            stage: self.stage,
            last_source_frame: string_text(self.last_source_frame),
            next_source_frame: string_text(self.next_source_frame),
            last_source_refresh: self.last_source_refresh,
        }
    }
}

impl Compositing {
    /// A loop that starts at `now`: the source page is due for a look, as far back
    /// as the clock can tell.
    pub open spec fn initial(fps: u32, gated: bool, now: TimePoint) -> Compositing {
        Compositing {
            capture: Capture::initial(fps, gated),
            stage: SourceStage::CheckRefresh,
            last_source_frame: None,
            next_source_frame: None,
            last_source_refresh: if now.nanos >= NANOS_PER_SEC {
                TimePoint { nanos: (now.nanos - NANOS_PER_SEC) as u128 }
            } else {
                now
            },
        }
    }

    /// A screenshot is being taken.
    pub open spec fn taking(self) -> bool {
        self.capture.phase == CapturePhase::TakeScreenshot
    }

    /// At another stage of the screenshot.
    pub open spec fn at(self, stage: SourceStage) -> Compositing {
        Compositing { stage, ..self }
    }

    /// With the loop around the screenshots in another state.
    pub open spec fn resumed(self, capture: Capture) -> Compositing {
        Compositing {
            capture,
            stage: SourceStage::CheckRefresh,
            next_source_frame: None,
            ..self
        }
    }

    /// After the look at the source page: with nothing to show the round is over.
    pub open spec fn refreshed(self) -> Compositing {
        if self.last_source_frame is None {
            self.resumed(self.capture.next_round())
        } else {
            Compositing { stage: SourceStage::Activate, next_source_frame: None, ..self }
        }
    }

    /// When a look at the source page is given up, screenshot and showing together;
    /// never, where the clock cannot tell that time.
    pub open spec fn deadline(self) -> Option<TimePoint> {
        let until = self.last_source_refresh.nanos + millis(SOURCE_BUDGET_MS as nat);
        if until <= u128::MAX {
            Some(TimePoint { nanos: until as u128 })
        } else {
            None
        }
    }

    /// The numbers that the event leads to are in range.
    pub open spec fn can_take(self, event: CompositorHappening) -> bool {
        match event {
            CompositorHappening::Capture(happening) => self.taking() || self.capture.can_take(
                happening,
            ),
            _ => true,
        }
    }

    /// After the event. An event that is not waited for changes nothing.
    pub open spec fn after(self, event: CompositorHappening) -> Compositing {
        if !self.taking() {
            match event {
                CompositorHappening::Capture(happening) => self.resumed(
                    self.capture.after(happening),
                ),
                _ => self,
            }
        } else {
            match (self.stage, event) {
                (SourceStage::CheckRefresh, CompositorHappening::Clock(now)) => if elapsed_nanos(
                    self.last_source_refresh,
                    now,
                ) >= millis(SOURCE_REFRESH_MS as nat) {
                    Compositing {
                        stage: SourceStage::CaptureSource,
                        last_source_refresh: now,
                        ..self
                    }
                } else {
                    self.at(SourceStage::Activate)
                },
                (SourceStage::CaptureSource, CompositorHappening::Source(Ok(data))) => {
                    if self.last_source_frame == Some(data) {
                        self.refreshed()
                    } else {
                        Compositing {
                            stage: SourceStage::SetFrame,
                            next_source_frame: Some(data),
                            ..self
                        }
                    }
                },
                (SourceStage::CaptureSource, CompositorHappening::Source(Err(_))) => {
                    self.refreshed()
                },
                (SourceStage::CaptureSource, CompositorHappening::TimedOut) => self.refreshed(),
                (SourceStage::SetFrame, CompositorHappening::FrameSet(shown)) => if shown {
                    (Compositing { last_source_frame: self.next_source_frame, ..self }).refreshed()
                } else {
                    self.refreshed()
                },
                (SourceStage::SetFrame, CompositorHappening::TimedOut) => self.refreshed(),
                (SourceStage::Activate, CompositorHappening::Activated) => self.at(
                    SourceStage::CaptureCompositor,
                ),
                (SourceStage::CaptureCompositor, CompositorHappening::Screenshot(Ok(data))) => {
                    self.resumed(self.capture.decoded(base64_bytes(data)))
                },
                (SourceStage::CaptureCompositor, CompositorHappening::Screenshot(Err(_))) => {
                    self.resumed(self.capture.next_round())
                },
                _ => self,
            }
        }
    }

    /// The command of the stage of a screenshot.
    pub open spec fn sends(
        self,
        source_session: Seq<char>,
        target_id: Seq<char>,
        session_id: Seq<char>,
    ) -> Option<Command> {
        if !self.taking() {
            None
        } else {
            match self.stage {
                SourceStage::CheckRefresh => None,
                SourceStage::CaptureSource => Some(
                    jpeg_screenshot(SOURCE_JPEG_QUALITY, source_session),
                ),
                SourceStage::SetFrame => match self.next_source_frame {
                    Some(data) => Some(evaluate_with_promise(frame_script(data), true, session_id)),
                    None => None,
                },
                SourceStage::Activate => Some(activate_target(target_id)),
                SourceStage::CaptureCompositor => Some(
                    jpeg_screenshot(COMPOSITOR_JPEG_QUALITY, session_id),
                ),
            }
        }
    }

    /// What holds of every state that the loop gets into.
    pub open spec fn valid(self) -> bool {
        &&& self.capture.valid()
        &&& !self.taking() ==> self.stage == SourceStage::CheckRefresh
        &&& (self.stage == SourceStage::SetFrame) == (self.next_source_frame is Some)
    }
}

impl CompositorLoop {
    /// A loop that is about to start at `now`, at `fps` frames per second, with or
    /// without a gate.
    pub fn new(fps: u32, gated: bool, now: TimePoint) -> (r: CompositorLoop)
        ensures
            r@ == Compositing::initial(fps, gated, now),
            r@.valid(),
    {
        CompositorLoop {
            capture: CaptureLoop::new(fps, gated),
            stage: SourceStage::CheckRefresh,
            last_source_frame: None,
            next_source_frame: None,
            last_source_refresh: match now.checked_sub(TimeSpan::from_secs(1)) {
                Some(earlier) => earlier,
                None => now,
            },
        }
    }

    /// The command of the stage of a screenshot, where there is one.
    pub fn command<Client>(
        &self,
        source_session: &str,
        compositor: &RecordingCompositor<Client>,
    ) -> (r: Option<CdpCommand>)
        ensures
            ({
                let sent = self@.sends(
                    source_session@,
                    compositor.target_id@,
                    compositor.session_id@,
                );
                match r {
                    Some(command) => sent == Some(command@),
                    None => sent is None,
                }
            }),
    {
        let session_id = compositor.session_id.as_str();
        match self.capture.phase {
            CapturePhase::TakeScreenshot => match self.stage {
                SourceStage::CheckRefresh => None,
                SourceStage::CaptureSource => Some(
                    screenshot_command(SOURCE_JPEG_QUALITY, source_session),
                ),
                SourceStage::SetFrame => match &self.next_source_frame {
                    Some(data) => Some(set_frame_command(session_id, data.as_str())),
                    None => None,
                },
                SourceStage::Activate => Some(activate_command(compositor.target_id.as_str())),
                SourceStage::CaptureCompositor => Some(
                    screenshot_command(COMPOSITOR_JPEG_QUALITY, session_id),
                ),
            },
            _ => None,
        }
    }

    /// Whether the numbers that the event leads to are in range.
    pub fn accepts(&self, event: &CompositorEvent) -> (r: bool)
        ensures
            r == self@.can_take(event@),
    {
        match event {
            CompositorEvent::Capture(inner) => match self.capture.phase {
                CapturePhase::TakeScreenshot => true,
                _ => self.capture.accepts(inner),
            },
            _ => true,
        }
    }

    /// When a look at the source page is given up, screenshot and showing together;
    /// never, where the clock cannot tell that time.
    pub fn source_deadline(&self) -> (r: Option<TimePoint>)
        ensures
            r == self@.deadline(),
    {
        let budget = TimeSpan::from_millis(SOURCE_BUDGET_MS);
        if self.last_source_refresh.nanos <= u128::MAX - budget.nanos {
            Some(self.last_source_refresh.plus(budget))
        } else {
            None
        }
    }

    /// The first step of the ending, once the capture is over.
    pub fn ending(&self) -> (r: Option<EndStep>)
        ensures
            r == if self@.capture.phase == CapturePhase::Finished {
                Some(EndStep::Close)
            } else {
                None
            },
    {
        match self.capture.phase {
            CapturePhase::Finished => Some(EndStep::Close),
            _ => None,
        }
    }

    fn resume(&mut self)
        ensures
            final(self)@ == old(self)@.resumed(old(self)@.capture),
    {
        self.stage = SourceStage::CheckRefresh;
        self.next_source_frame = None;
    }

    fn finish_refresh(&mut self)
        ensures
            final(self)@ == old(self)@.refreshed(),
    {
        match &self.last_source_frame {
            Some(_) => {
                self.stage = SourceStage::Activate;
                self.next_source_frame = None;
            },
            None => {
                self.capture.start_round();
                self.resume();
            },
        }
    }

    fn shows(&self, data: &str) -> (r: bool)
        ensures
            r == (self@.last_source_frame == Some(data@)),
    {
        match &self.last_source_frame {
            Some(shown) => same_text(shown.as_str(), data),
            None => false,
        }
    }

    /// Moves on with what the caller reports.
    pub fn step(&mut self, event: CompositorEvent)
        requires
            old(self)@.can_take(event@),
            old(self)@.valid(),
        ensures
            final(self)@ == old(self)@.after(event@),
            final(self)@.valid(),
    {
        let taking = match self.capture.phase {
            CapturePhase::TakeScreenshot => true,
            _ => false,
        };
        if !taking {
            if let CompositorEvent::Capture(inner) = event {
                self.capture.step(inner);
                self.resume();
            }
            return;
        }
        match (self.stage, event) {
            (SourceStage::CheckRefresh, CompositorEvent::Clock(now)) => {
                let due = now.duration_since(self.last_source_refresh).nanos
                    >= TimeSpan::from_millis(SOURCE_REFRESH_MS).nanos;
                if due {
                    self.last_source_refresh = now;
                    self.stage = SourceStage::CaptureSource;
                } else {
                    self.stage = SourceStage::Activate;
                }
            },
            (SourceStage::CaptureSource, CompositorEvent::Source(Ok(data))) => {
                if self.shows(data.as_str()) {
                    self.finish_refresh();
                } else {
                    self.next_source_frame = Some(data);
                    self.stage = SourceStage::SetFrame;
                }
            },
            (SourceStage::CaptureSource, CompositorEvent::Source(Err(_))) => self.finish_refresh(),
            (SourceStage::CaptureSource, CompositorEvent::TimedOut) => self.finish_refresh(),
            (SourceStage::SetFrame, CompositorEvent::FrameSet(outcome)) => {
                if outcome.is_ok() {
                    self.last_source_frame = self.next_source_frame.take();
                }
                self.finish_refresh();
            },
            (SourceStage::SetFrame, CompositorEvent::TimedOut) => self.finish_refresh(),
            (SourceStage::Activate, CompositorEvent::Activated) => {
                self.stage = SourceStage::CaptureCompositor;
            },
            (SourceStage::CaptureCompositor, CompositorEvent::Screenshot(Ok(data))) => {
                self.capture.take_screenshot(data.as_str());
                self.resume();
            },
            (SourceStage::CaptureCompositor, CompositorEvent::Screenshot(Err(_))) => {
                self.capture.start_round();
                self.resume();
            },
            _ => {},
        }
    }
}

/// The ending of a compositor recording, step by step: the compositor's page is closed,
/// then the encoder is waited for.
#[derive(Debug, Clone, Copy, PartialEq, Eq, Structural)]
pub enum EndStep {
    /// Close the compositor's page.
    Close,
    /// Wait for the encoder, whose input is closed.
    AwaitEncoder,
    /// Over.
    Done,
}

impl EndStep {
    /// The command of the step.
    pub open spec fn sends(self, target_id: Seq<char>) -> Option<Command> {
        match self {
            EndStep::Close => Some(close_target(target_id)),
            _ => None,
        }
    }

    /// The step that follows, whatever came of this one.
    pub open spec fn next(self) -> EndStep {
        match self {
            EndStep::Close => EndStep::AwaitEncoder,
            EndStep::AwaitEncoder => EndStep::Done,
            EndStep::Done => EndStep::Done,
        }
    }

    /// The command of the step.
    pub fn command(&self, target_id: &str) -> (r: Option<CdpCommand>)
        ensures
            match r {
                Some(command) => self.sends(target_id@) == Some(command@),
                None => self.sends(target_id@) is None,
            },
    {
        match self {
            EndStep::Close => Some(close_command(target_id)),
            _ => None,
        }
    }

    /// The step that follows, whatever came of this one.
    pub fn advance(self) -> (r: EndStep)
        ensures
            r == self.next(),
    {
        match self {
            EndStep::Close => EndStep::AwaitEncoder,
            EndStep::AwaitEncoder => EndStep::Done,
            EndStep::Done => EndStep::Done,
        }
    }
}

/// The ending after `n` of its steps.
pub open spec fn ended_after(n: nat) -> EndStep
    decreases n,
{
    if n == 0 {
        EndStep::Close
    } else {
        ended_after((n - 1) as nat).next()
    }
}

/// The commands that the first `n` steps of the ending send.
pub open spec fn ending_commands(target_id: Seq<char>, n: nat) -> Seq<Command>
    decreases n,
{
    if n == 0 {
        Seq::empty()
    } else {
        let before = ending_commands(target_id, (n - 1) as nat);
        match ended_after((n - 1) as nat).sends(target_id) {
            Some(command) => before.push(command),
            None => before,
        }
    }
}

/// What came of the encoder: its own messages in full where it failed.
pub fn compositor_encoder_outcome(success: bool, messages: &str) -> (r: Result<(), String>)
    ensures
        match r {
            Ok(_) => success,
            Err(message) => !success && message@ == "ffmpeg failed: "@ + messages@,
        },
{
    if success {
        return Ok(());
    }
    let mut message = "ffmpeg failed: ".to_owned();
    message.append(messages);
    Err(message)
}

/// A loop that starts in a valid state stays in valid states.
pub proof fn compositing_stays_valid(state: Compositing, event: CompositorHappening)
    requires
        state.valid(),
        state.can_take(event),
    ensures
        state.after(event).valid(),
{
    if !state.taking() && event is Capture {
        crate::capture::capture_stays_valid(state.capture, event->Capture_0);
    }
}

/// Nothing that goes wrong with a screenshot ends a compositor recording: the source
/// page may navigate or be closed meanwhile.
pub proof fn screenshots_never_end_compositing(state: Compositing, event: CompositorHappening)
    requires
        state.taking(),
    ensures
        state.after(event).capture.phase != CapturePhase::Finished,
        state.after(event).capture.total_frames == state.capture.total_frames,
        state.after(event).capture.started_at == state.capture.started_at,
        state.after(event).capture.segment_frames == state.capture.segment_frames,
{
}

/// A compositor recording ends by a cancel or by a frame that could not be written,
/// and by nothing else.
pub proof fn compositing_ends_by_cancel_or_failed_write(
    state: Compositing,
    event: CompositorHappening,
)
    requires
        state.capture.phase != CapturePhase::Finished,
        state.after(event).capture.phase == CapturePhase::Finished,
    ensures
        event == CompositorHappening::Capture(Happening::Cancelled) || event
            == CompositorHappening::Capture(Happening::Written(false)),
{
}

/// However a compositor recording ended, its page is closed once: the closing command is
/// the only one of the ending, however far that has come, and it has been sent when the
/// encoder is waited for.
pub proof fn compositor_is_closed_once(target_id: Seq<char>, n: nat)
    ensures
        ended_after(0) == EndStep::Close,
        ended_after(1) == EndStep::AwaitEncoder,
        n >= 2 ==> ended_after(n) == EndStep::Done,
        n >= 1 ==> ending_commands(target_id, n) == seq![close_target(target_id)],
        ended_after(n) == EndStep::AwaitEncoder ==> ending_commands(target_id, n)
            == seq![close_target(target_id)],
    decreases n,
{
    reveal_with_fuel(ended_after, 3);
    reveal_with_fuel(ending_commands, 3);
    if n >= 2 {
        compositor_is_closed_once(target_id, (n - 1) as nat);
    } else if n == 1 {
        assert(ending_commands(target_id, 1) =~= seq![close_target(target_id)]);
    }
}

/// A look at the source page has one deadline, for the screenshot and for showing it:
/// the budget after the look began.
pub proof fn one_deadline_for_a_look(state: Compositing, event: CompositorHappening, now: TimePoint)
    requires
        state.valid(),
        now.nanos + millis(SOURCE_BUDGET_MS as nat) <= u128::MAX,
    ensures
        state.stage == SourceStage::CheckRefresh && state.after(
            CompositorHappening::Clock(now),
        ).stage == SourceStage::CaptureSource ==> state.after(
            CompositorHappening::Clock(now),
        ).deadline() == Some(
            TimePoint { nanos: (now.nanos + millis(SOURCE_BUDGET_MS as nat)) as u128 },
        ),
        state.stage == SourceStage::CaptureSource && state.after(event).stage
            == SourceStage::SetFrame ==> state.after(event).deadline() == state.deadline(),
{
}

/// The source page is looked at no more often than every refresh interval.
pub proof fn source_refreshes_are_spaced(state: Compositing, event: CompositorHappening)
    requires
        state.valid(),
        state.stage != SourceStage::CaptureSource,
        state.after(event).stage == SourceStage::CaptureSource,
    ensures
        state.after(event).last_source_refresh.nanos >= state.last_source_refresh.nanos + millis(
            SOURCE_REFRESH_MS as nat,
        ),
{
}

/// A loop that starts when the clock has run for a second looks at the source page
/// for the first screenshot, however soon that is.
pub proof fn first_screenshot_looks_at_the_source(
    fps: u32,
    started_at: TimePoint,
    now: TimePoint,
)
    requires
        started_at.nanos >= NANOS_PER_SEC,
        now.nanos >= started_at.nanos,
    ensures
        Compositing::initial(fps, false, started_at).after(
            CompositorHappening::Capture(Happening::Tick),
        ).after(CompositorHappening::Clock(now)).stage == SourceStage::CaptureSource,
{
}

/// A source page that looks as it did is not sent to the compositor again, and a new
/// look counts as shown only once the compositor shows it.
pub proof fn unchanged_source_is_not_sent(state: Compositing, event: CompositorHappening)
    requires
        state.valid(),
    ensures
        state.stage != SourceStage::SetFrame && state.after(event).stage == SourceStage::SetFrame
            ==> state.after(event).next_source_frame != state.last_source_frame,
        state.after(event).last_source_frame != state.last_source_frame ==> state.stage
            == SourceStage::SetFrame && event == CompositorHappening::FrameSet(true)
            && state.after(event).last_source_frame == state.next_source_frame,
{
}

/// A compositor that is ready has gone through every stage; an error on the way ends
/// the making with that error.
pub proof fn creation_runs_to_the_end(
    target_id: Seq<char>,
    session_id: Seq<char>,
    done: Seq<char>,
    resumed: Result<Seq<char>, Seq<char>>,
    activated: Result<Seq<char>, Seq<char>>,
)
    ensures
        Creating::initial().after(Ok(target_id)).after(Ok(session_id)).after(Ok(done)).after(
            Ok(done),
        ).after(resumed).after(Ok(done)).after(Ok(done)).after(Ok(done)).after(activated) == (
        Creating {
            stage: CreateStage::Ready,
            target_id,
            session_id,
            error: Seq::empty(),
        }),
{
}

/// An error ends the making, but for the resumption and the activation.
pub proof fn creation_stops_at_errors(state: Creating, message: Seq<char>)
    ensures
        match state.stage {
            CreateStage::Resume => state.after(Err(message)).stage == CreateStage::SetMetrics,
            CreateStage::Activate => state.after(Err(message)).stage == CreateStage::Ready,
            CreateStage::Ready => state.after(Err(message)) == state,
            CreateStage::Failed => state.after(Err(message)) == state,
            _ => state.after(Err(message)) == state.failed(message),
        },
{
}

/// The size of a page and how it is shown.
#[derive(Debug)]
pub struct Viewport {
    pub width: i32,
    pub height: i32,
    pub scale: JsonNumber,
    pub mobile: bool,
}

/// The integer under `key`, or `default` where there is none, cut to 32 bits.
pub open spec fn integer_option(value: Option<Json>, key: Seq<char>, default: i64) -> i32 {
    let number = match value {
        Some(object) => match object.member(key) {
            Some(member) => match member.as_signed() {
                Some(n) => n,
                None => default,
            },
            None => default,
        },
        None => default,
    };
    number as i32
}

/// The device scale factor that a page reports, or one.
pub open spec fn reported_scale(value: Option<Json>) -> Numeral {
    match value {
        Some(object) => match object.member("deviceScaleFactor"@) {
            Some(member) => match member.as_numeral() {
                Some(n) => n,
                None => Numeral::Unsigned(1),
            },
            None => Numeral::Unsigned(1),
        },
        None => Numeral::Unsigned(1),
    }
}

/// The page reports that it is on a mobile device.
pub open spec fn reported_mobile(value: Option<Json>) -> bool {
    match value {
        Some(object) => match object.member("mobile"@) {
            Some(member) => member.as_truth() == Some(true),
            None => false,
        },
        None => false,
    }
}

fn integer_or(value: Option<&JsonValue>, key: &str, default: i64) -> (r: i32)
    ensures
        r == integer_option(
            match value {
                Some(v) => Some(v@),
                None => None,
            },
            key@,
            default,
        ),
{
    let number: i64 = match value {
        Some(object) => match object.get(key) {
            Some(member) => match member.as_i64() {
                Some(n) => n,
                None => default,
            },
            None => default,
        },
        None => default,
    };
    #[verifier::truncate]
    (number as i32)
}

/// Asks a page for its viewport.
pub const VIEWPORT_EXPRESSION: &'static str = r#"({
      width: Math.max(1, window.innerWidth || document.documentElement.clientWidth || 1280),
      height: Math.max(1, window.innerHeight || document.documentElement.clientHeight || 720),
      deviceScaleFactor: window.devicePixelRatio || 1,
      mobile: /Mobi|Android/i.test(navigator.userAgent)
    })"#;

/// The command that asks a page for its viewport.
pub fn viewport_command(session_id: &str) -> (r: CdpCommand)
    ensures
        r@ == evaluate_with_promise(VIEWPORT_EXPRESSION@, false, session_id@),
{
    evaluate_promise_command(VIEWPORT_EXPRESSION, false, session_id)
}

/// The viewport that is known, or else the one that the page reports; what it does
/// not report is that of an ordinary window.
pub fn viewport_for_session(fallback: Option<Viewport>, reported: Option<&JsonValue>) -> (r:
    Viewport)
    ensures
        match fallback {
            Some(known) => r == known,
            None => {
                let value = match reported {
                    Some(v) => Some(v@),
                    None => None,
                };
                &&& r.width == integer_option(value, "width"@, 1280)
                &&& r.height == integer_option(value, "height"@, 720)
                &&& r.scale@ == reported_scale(value)
                &&& r.mobile == reported_mobile(value)
            },
        },
{
    if let Some(known) = fallback {
        return known;
    }
    let scale = match reported {
        Some(object) => match object.get("deviceScaleFactor") {
            Some(member) => match member.as_number() {
                Some(n) => n.clone(),
                None => JsonNumber::Unsigned(1),
            },
            None => JsonNumber::Unsigned(1),
        },
        None => JsonNumber::Unsigned(1),
    };
    let mobile = match reported {
        Some(object) => match object.get("mobile") {
            Some(member) => match member.as_bool() {
                Some(flag) => flag,
                None => false,
            },
            None => false,
        },
        None => false,
    };
    Viewport {
        width: integer_or(reported, "width", 1280),
        height: integer_or(reported, "height", 720),
        scale,
        mobile,
    }
}

/// The document of the compositor page.
pub const COMPOSITOR_HTML: &'static str = r#"<!doctype html>
<html>
<head>
<meta charset="utf-8">
<style>
html, body {
  width: 100%;
  height: 100%;
  margin: 0;
  overflow: hidden;
  background: #fff;
}
body {
  font-family: -apple-system, BlinkMacSystemFont, "Segoe UI", sans-serif;
}
#stage {
  position: fixed;
  inset: 0;
  overflow: hidden;
  background: #fff;
}
#camera {
  position: absolute;
  inset: 0;
  transform-origin: 0 0;
  transform: scale(1);
  will-change: transform;
}
#content-frame {
  position: absolute;
  inset: 0;
  width: 100%;
  height: 100%;
  object-fit: fill;
  display: block;
}
#effects {
  position: fixed;
  inset: 0;
  pointer-events: none;
  overflow: hidden;
  z-index: 2147483647;
}
</style>
</head>
<body>
<div id="stage">
  <div id="camera"><img id="content-frame" alt=""></div>
  <div id="effects"></div>
</div>
</body>
</html>"#;

/// The script of the compositor page. It shows frames and draws the effects.
pub const COMPOSITOR_RUNTIME_JS: &'static str = r#"
(() => {
  const VERSION = 1;
  if (window.__agentBrowserRecordingCompositor?.version === VERSION) return;

  const camera = document.getElementById('camera');
  const frame = document.getElementById('content-frame');
  const effects = document.getElementById('effects');
  const ns = 'http://www.w3.org/2000/svg';
  const CURSOR_HOLD_MS = 650;
  const EFFECTS = '[data-agent-browser-recording-click], [data-agent-browser-recording-key], [data-agent-browser-recording-overlay], [data-agent-browser-recording-spotlight]';

  const state = {
    cursor: { theme: 'arrow', size: 28, tweenMs: 700, clickMs: 500, motion: 'always', clickSync: 'block' },
    camera: { scale: 1, originX: 0, originY: 0 },
    cursorPoint: null,
    cursorAnimation: null,
    cursorGeneration: 0,
    cursorTimer: null,
    moving: 0,
    zoomed: false,
    overlayChain: Promise.resolve(),
    overlayGeneration: 0,
    zoomGeneration: 0,
    zoomTimer: null,
  };

  let cursor = null;
  let cursorPath = null;

  function cursorShape(theme) {
    if (theme === 'dot') {
      return { viewBox: '0 0 24 24', tipX: .5, tipY: .5, path: '<circle cx="12" cy="12" r="6"/>' };
    }
    if (theme === 'hand') {
      return { viewBox: '0 0 32 32', tipX: .42, tipY: .12, path: '<path d="M12.8 3.4c1.3 0 2.3 1 2.3 2.3v8.1h.6V8.2a2.2 2.2 0 0 1 4.4 0v6.1h.6v-4a2.2 2.2 0 0 1 4.4 0v6.4l.8-1.6a2.1 2.1 0 0 1 3.8 1.8l-2.9 6.2c-1.5 3.2-4.8 5.3-8.4 5.3h-3.1c-2.5 0-4.9-1-6.6-2.8L3.6 16a2.2 2.2 0 0 1 3.1-3.1l3.7 3.6V5.7c0-1.3 1.1-2.3 2.4-2.3z"/>' };
    }
    return { viewBox: '0 0 32 32', tipX: .18, tipY: .12, path: '<path d="M5 3.8 26.8 17 17 19.2 12 28.5 5 3.8z"/>' };
  }

  function screenPoint(point) {
    const c = state.camera;
    return {
      x: c.originX + (point.x - c.originX) * c.scale,
      y: c.originY + (point.y - c.originY) * c.scale,
    };
  }

  function screenRadius(radius) {
    return Math.max(24, radius * state.camera.scale);
  }

  function cursorTransform(point) {
    const size = Math.max(8, Math.min(96, Number(state.cursor?.size) || 28));
    const tipX = Number(cursor?.dataset.tipX || size * .18);
    const tipY = Number(cursor?.dataset.tipY || size * .12);
    return `translate3d(${point.x - tipX}px, ${point.y - tipY}px, 0)`;
  }

  function idleCursorPoint() {
    const size = Math.max(8, Math.min(96, Number(state.cursor?.size) || 28));
    const margin = Math.max(36, size * .9);
    return { x: margin, y: Math.max(margin, window.innerHeight - margin) };
  }

  function ensureCursor() {
    if (!state.cursor) return null;
    if (cursor?.isConnected) return cursor;
    cursor = document.createElementNS(ns, 'svg');
    cursor.setAttribute('data-agent-browser-recording-cursor', '');
    Object.assign(cursor.style, {
      position: 'absolute',
      left: '0',
      top: '0',
      opacity: state.cursor.motion === 'auto' ? '0' : '1',
      fill: '#fff',
      stroke: 'rgba(0,0,0,.82)',
      strokeWidth: '1.25',
      strokeLinejoin: 'round',
      paintOrder: 'stroke fill',
      filter: 'drop-shadow(0 2px 2px rgba(0,0,0,.55))',
      zIndex: '60',
      pointerEvents: 'none',
      willChange: 'transform, opacity',
      transformOrigin: '0 0',
    });
    cursorPath = document.createElementNS(ns, 'g');
    cursor.appendChild(cursorPath);
    effects.appendChild(cursor);
    updateCursorShape();
    const point = state.cursorPoint || idleCursorPoint();
    state.cursorPoint = point;
    cursor.style.transform = cursorTransform(point);
    return cursor;
  }

  function updateCursorShape() {
    if (!cursor || !state.cursor) return;
    const size = Math.max(8, Math.min(96, Number(state.cursor.size) || 28));
    const shape = cursorShape(state.cursor.theme);
    cursor.setAttribute('viewBox', shape.viewBox);
    cursor.setAttribute('width', String(size));
    cursor.setAttribute('height', String(size));
    cursor.dataset.tipX = String(shape.tipX * size);
    cursor.dataset.tipY = String(shape.tipY * size);
    cursorPath.innerHTML = shape.path;
  }

  function hideCursor() {
    clearTimeout(state.cursorTimer);
    state.cursorGeneration += 1;
    state.cursorAnimation?.cancel();
    state.cursorAnimation = null;
    state.cursorPoint = null;
    cursor?.remove();
    cursor = null;
    cursorPath = null;
  }

  function effectUnderway() {
    return state.moving > 0 || state.zoomed || !!effects.querySelector(EFFECTS);
  }

  // With motion 'auto' the cursor is there while an effect is under way and for the
  // moment that a recording goes on after it.
  function settleCursor() {
    clearTimeout(state.cursorTimer);
    if (!cursor || !state.cursor) return;
    if (state.cursor.motion !== 'auto' || effectUnderway()) {
      cursor.style.opacity = '1';
      return;
    }
    state.cursorTimer = setTimeout(() => {
      if (cursor) cursor.style.opacity = '0';
    }, CURSOR_HOLD_MS);
  }

  function drop(el) {
    el.remove();
    settleCursor();
  }

  async function moveTo(x, y, options = {}) {
    if (!state.cursor) return;
    const el = ensureCursor();
    if (!el) return;
    updateCursorShape();
    const contentPoint = { x: Number(x) || 0, y: Number(y) || 0 };
    const to = screenPoint(contentPoint);
    const from = state.cursorPoint || idleCursorPoint();
    const duration = state.cursor.motion === 'off'
      ? 0
      : Math.max(0, Number(options.durationMs ?? state.cursor.tweenMs) || 0);
    const generation = ++state.cursorGeneration;
    clearTimeout(state.cursorTimer);
    state.cursorAnimation?.cancel();
    state.cursorAnimation = null;
    el.style.opacity = '1';
    if (duration === 0) {
      el.style.transform = cursorTransform(to);
      state.cursorPoint = to;
      settleCursor();
      return;
    }
    el.style.transform = cursorTransform(from);
    const animation = el.animate(
      [
        { transform: cursorTransform(from), opacity: 1 },
        { transform: cursorTransform(to), opacity: 1 },
      ],
      { duration, easing: 'cubic-bezier(0.45, 0, 0.15, 1)', fill: 'forwards' }
    );
    state.cursorAnimation = animation;
    state.moving += 1;
    await Promise.all([
      animation.finished.catch(() => {}),
      new Promise(resolve => setTimeout(resolve, duration)),
    ]);
    state.moving = Math.max(0, state.moving - 1);
    if (generation === state.cursorGeneration) {
      el.style.transform = cursorTransform(to);
      state.cursorPoint = to;
      animation.cancel();
      state.cursorAnimation = null;
    }
    settleCursor();
  }

  function burstAt(point, duration) {
    const ms = Math.max(260, Number(duration) || 500);
    const group = document.createElement('div');
    group.setAttribute('data-agent-browser-recording-click', '');
    group.style.position = 'absolute';
    group.style.left = `${point.x}px`;
    group.style.top = `${point.y}px`;
    group.style.width = '0';
    group.style.height = '0';
    group.style.pointerEvents = 'none';
    group.style.zIndex = '50';
    effects.appendChild(group);
    settleCursor();

    const ring = document.createElement('div');
    Object.assign(ring.style, {
      position: 'absolute',
      left: '-9px',
      top: '-9px',
      width: '18px',
      height: '18px',
      border: '2px solid rgba(255,255,255,.96)',
      borderRadius: '999px',
      background: 'transparent',
      boxShadow: '0 0 0 1px rgba(0,0,0,.42), 0 0 14px rgba(255,255,255,.26)',
      transformOrigin: 'center center',
    });
    group.appendChild(ring);
    ring.animate(
      [
        { transform: 'translate(-50%, -50%) scale(.45)', opacity: .78 },
        { transform: 'translate(-50%, -50%) scale(2.8)', opacity: 0 },
      ],
      { duration: ms, easing: 'cubic-bezier(0, 0, 0.2, 1)', fill: 'forwards' }
    );

    for (let i = 0; i < 6; i += 1) {
      const a = (i / 6) * Math.PI * 2;
      const dx = Math.cos(a);
      const dy = Math.sin(a);
      const deg = a * 180 / Math.PI;
      const ray = document.createElement('div');
      Object.assign(ray.style, {
        position: 'absolute',
        width: '13px',
        height: '2px',
        borderRadius: '2px',
        background: 'rgba(255,255,255,.92)',
        boxShadow: '0 0 0 1px rgba(0,0,0,.38), 0 0 8px rgba(255,255,255,.28)',
        transformOrigin: 'center center',
      });
      group.appendChild(ray);
      ray.animate(
        [
          { transform: `translate(${dx * 12 - 8}px, ${dy * 12 - 1.5}px) rotate(${deg}deg) scaleX(.15)`, opacity: 0 },
          { transform: `translate(${dx * 22 - 8}px, ${dy * 22 - 1}px) rotate(${deg}deg) scaleX(.85)`, opacity: .85, offset: .3 },
          { transform: `translate(${dx * 36 - 8}px, ${dy * 36 - 1}px) rotate(${deg}deg) scaleX(.2)`, opacity: 0 },
        ],
        { duration: ms, delay: 25 + i * 14, easing: 'cubic-bezier(0, 0, 0.2, 1)', fill: 'forwards' }
      );
    }
    setTimeout(() => drop(group), ms + 360);
  }

  async function click(x, y) {
    const contentPoint = { x: Number(x) || 0, y: Number(y) || 0 };
    if (state.cursor?.clickSync === 'block') await moveTo(contentPoint.x, contentPoint.y);
    else moveTo(contentPoint.x, contentPoint.y);
    const point = screenPoint(contentPoint);
    state.cursorPoint = point;
    burstAt(point, Math.max(260, Number(state.cursor?.clickMs) || 500));
  }

  function pill(text, position, opacity = 1) {
    const wrap = document.createElement('div');
    Object.assign(wrap.style, {
      position: 'absolute',
      left: '0',
      width: '100%',
      display: 'flex',
      justifyContent: 'center',
      padding: '0 24px',
      opacity: String(opacity),
      transition: 'opacity 180ms ease',
      boxSizing: 'border-box',
      zIndex: '70',
    });
    if (position === 'top') wrap.style.top = '32px';
    else if (position === 'center') {
      wrap.style.top = '50%';
      wrap.style.transform = 'translateY(-50%)';
    } else wrap.style.bottom = '72px';

    const el = document.createElement('div');
    el.textContent = text;
    Object.assign(el.style, {
      maxWidth: '80%',
      padding: '8px 20px',
      borderRadius: '8px',
      background: 'rgba(0,0,0,.75)',
      color: '#fff',
      font: '18px -apple-system, BlinkMacSystemFont, Segoe UI, sans-serif',
      lineHeight: '1.45',
      textAlign: 'center',
      backdropFilter: 'blur(4px)',
      boxShadow: '0 8px 30px rgba(0,0,0,.22)',
    });
    wrap.appendChild(el);
    effects.appendChild(wrap);
    return wrap;
  }

  function overlayText(text, position = 'bottom', durationMs = 5000) {
    const previous = state.overlayChain;
    const generation = state.overlayGeneration;
    const ms = Math.max(1, Number(durationMs) || 5000);
    const shown = previous.then(() => {
      if (generation !== state.overlayGeneration) return null;
      effects.querySelectorAll('[data-agent-browser-recording-overlay]').forEach(el => el.remove());
      const el = pill(String(text || ''), position, 0);
      el.setAttribute('data-agent-browser-recording-overlay', '');
      settleCursor();
      requestAnimationFrame(() => { el.style.opacity = '1'; });
      return el;
    });
    state.overlayChain = shown.then(() => new Promise(resolve => {
      setTimeout(() => {
        if (generation === state.overlayGeneration) {
          effects.querySelectorAll('[data-agent-browser-recording-overlay]').forEach(el => {
            el.style.opacity = '0';
            setTimeout(() => drop(el), 180);
          });
        }
        resolve();
      }, ms);
    })).catch(() => {});
    return shown.then(() => undefined);
  }

  function key(label) {
    const el = pill(String(label || ''), 'top', 0);
    el.setAttribute('data-agent-browser-recording-key', '');
    settleCursor();
    requestAnimationFrame(() => { el.style.opacity = '1'; });
    setTimeout(() => {
      el.style.opacity = '0';
      setTimeout(() => drop(el), 180);
    }, 850);
  }

  function spotlight(x, y, durationMs = 1200, radius = null) {
    effects.querySelectorAll('[data-agent-browser-recording-spotlight]').forEach(el => el.remove());
    const point = screenPoint({ x: Number(x) || 0, y: Number(y) || 0 });
    const r = Math.max(36, Math.min(420, screenRadius(Number(radius) || 72)));
    const soft = Math.round(r * 1.7);
    const outer = Math.round(r * 3);
    const el = document.createElement('div');
    el.setAttribute('data-agent-browser-recording-spotlight', '');
    Object.assign(el.style, {
      position: 'absolute',
      inset: '0',
      background: `radial-gradient(circle at ${point.x}px ${point.y}px, rgba(118,255,56,.14) 0, rgba(118,255,56,.08) ${r}px, rgba(0,0,0,.16) ${soft}px, rgba(0,0,0,.50) ${outer}px)`,
      opacity: '0',
      transition: 'opacity 220ms ease',
      zIndex: '20',
    });
    const ring = document.createElement('div');
    Object.assign(ring.style, {
      position: 'absolute',
      left: `${point.x - r}px`,
      top: `${point.y - r}px`,
      width: `${r * 2}px`,
      height: `${r * 2}px`,
      border: '2px solid rgba(118,255,56,.92)',
      borderRadius: '999px',
      boxShadow: '0 0 0 1px rgba(0,0,0,.45), 0 0 26px rgba(118,255,56,.52), inset 0 0 18px rgba(118,255,56,.20)',
      transform: 'scale(.94)',
      opacity: '0',
    });
    el.appendChild(ring);
    effects.appendChild(el);
    settleCursor();
    requestAnimationFrame(() => {
      el.style.opacity = '1';
      ring.animate(
        [
          { transform: 'scale(.94)', opacity: 0 },
          { transform: 'scale(1)', opacity: 1 },
        ],
        { duration: 220, easing: 'cubic-bezier(0.4, 0, 0.2, 1)', fill: 'forwards' }
      );
    });
    setTimeout(() => {
      if (!el.isConnected) return;
      el.style.opacity = '0';
      setTimeout(() => drop(el), 240);
    }, Math.max(1, Number(durationMs) || 1200));
  }

  function clearOverlay() {
    state.overlayGeneration += 1;
    state.overlayChain = Promise.resolve();
    effects.querySelectorAll('[data-agent-browser-recording-overlay], [data-agent-browser-recording-spotlight], [data-agent-browser-recording-key]').forEach(el => el.remove());
    settleCursor();
  }

  async function zoomTo(x, y, scale, durationMs = null) {
    const s = Math.max(1, Math.min(3, Number(scale) || 1));
    clearTimeout(state.zoomTimer);
    const generation = ++state.zoomGeneration;
    state.zoomed = true;
    settleCursor();
    const vw = window.innerWidth || document.documentElement.clientWidth || 1;
    const vh = window.innerHeight || document.documentElement.clientHeight || 1;
    const cx = Number(x) || 0;
    const cy = Number(y) || vh;
    let originX = 0;
    let originY = vh;
    if (s !== 1) {
      originX = (s * cx - vw / 2) / (s - 1);
      originY = (s * cy - vh / 2) / (s - 1);
      originX = Math.max(0, Math.min(vw, originX));
      originY = Math.max(0, Math.min(vh, originY));
    }
    state.camera = { scale: s, originX, originY };
    camera.style.transformOrigin = `${originX}px ${originY}px`;
    camera.style.transition = 'transform 600ms cubic-bezier(0.4, 0, 0.2, 1)';
    camera.style.transform = `scale(${s})`;
    if (durationMs !== null && durationMs !== undefined) {
      state.zoomTimer = setTimeout(() => zoomReset(generation), Math.max(1, Number(durationMs) || 1));
    }
  }

  async function zoomReset(expectedGeneration = null) {
    clearTimeout(state.zoomTimer);
    const generation = expectedGeneration ?? ++state.zoomGeneration;
    if (expectedGeneration === null) state.zoomGeneration = generation;
    state.camera = { scale: 1, originX: state.camera.originX, originY: state.camera.originY };
    camera.style.transition = 'transform 600ms cubic-bezier(0.4, 0, 0.2, 1)';
    camera.style.transform = 'scale(1)';
    await new Promise(resolve => setTimeout(resolve, 700));
    if (generation !== state.zoomGeneration) return;
    camera.style.transformOrigin = '0 0';
    state.camera = { scale: 1, originX: 0, originY: 0 };
    state.zoomed = false;
    settleCursor();
  }

  async function setFrame(jpegBase64) {
    const src = `data:image/jpeg;base64,${jpegBase64}`;
    if (frame.src === src) return;
    frame.src = src;
    if (frame.decode) {
      await frame.decode().catch(() => {});
    } else {
      await new Promise(resolve => {
        frame.onload = resolve;
        frame.onerror = resolve;
      });
    }
  }

  function cleanup() {
    clearTimeout(state.zoomTimer);
    hideCursor();
    effects.replaceChildren();
    state.moving = 0;
    state.zoomed = false;
  }

  window.__agentBrowserRecordingEffects = {
    version: VERSION,
    configure(nextConfig = {}) {
      if (nextConfig.cursor === null) state.cursor = null;
      else state.cursor = { ...state.cursor, ...(nextConfig.cursor || {}) };
      if (!state.cursor) {
        hideCursor();
        return;
      }
      ensureCursor();
      updateCursorShape();
      settleCursor();
    },
    moveTo,
    click,
    key,
    overlayText,
    spotlight,
    clearOverlay,
    zoomTo,
    zoomReset,
    cleanup,
  };
  window.__agentBrowserRecordingCompositor = { version: VERSION, setFrame };
  ensureCursor();
})();
"#;

} // verus!
