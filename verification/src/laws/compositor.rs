//! Laws of the compositor page and of its capture loop.

use vstd::prelude::*;

use crate::capture::{base64_bytes, Capture, CapturePhase, Happening};
use crate::cdp::{evaluate_with_promise, jpeg_screenshot, Command};
use crate::json::{quoted, Json, Numeral};
use crate::laws::capture::{begins_a_round, captures_start_empty};
use crate::laws::values::{
    members_are_found_under_their_names, members_with_their_own_name_are_found,
};
use crate::recording_compositor::{
    activate_target, close_target, document_script, frame_script, integer_option, metrics_params,
    reply_text, reported_mobile, reported_scale, side, string_text, target_params, Compositing,
    CompositorCreation, CompositorEvent, CompositorHappening, CompositorLoop, CompositorPage,
    CreateStage, Creating, EndStep, SourceStage, COMPOSITOR_HTML, COMPOSITOR_RUNTIME_JS,
};
use crate::time::TimePoint;

verus! {

/// The scripts of the compositor carry their text as a literal: the document that is
/// written, the frame that is shown.
pub proof fn scripts_carry_their_text(jpeg_base64: Seq<char>)
    ensures
        document_script() == "document.open(); document.write("@ + quoted(COMPOSITOR_HTML@)
            + "); document.close();"@,
        frame_script(jpeg_base64) == "window.__agentBrowserRecordingCompositor.setFrame("@ + quoted(
            jpeg_base64,
        ) + ")"@,
{
}

/// The browser is asked to bring that page to the front, or to close that page.
pub proof fn pages_are_addressed_by_their_target(target_id: Seq<char>)
    ensures
        activate_target(target_id).method == "Target.activateTarget"@,
        activate_target(target_id).session_id is None,
        activate_target(target_id).params is Some,
        activate_target(target_id).params->0->Object_0.len() == 1,
        activate_target(target_id).params->0.member("targetId"@) == Some(Json::Text(target_id)),
        close_target(target_id).method == "Target.closeTarget"@,
        close_target(target_id).session_id is None,
        close_target(target_id).params is Some,
        close_target(target_id).params->0->Object_0.len() == 1,
        close_target(target_id).params->0.member("targetId"@) == Some(Json::Text(target_id)),
{
    members_are_found_under_their_names(
        Json::empty_object(),
        "targetId"@,
        Json::Text(target_id),
        "targetId"@,
    );
}

/// The page is opened at its address, in the browser context that it is given, or in the
/// default one.
pub proof fn pages_open_at_their_address(page: CompositorPage)
    ensures
        target_params(page) is Object,
        target_params(page).member("url"@) == Some(Json::Text(page.url@)),
        target_params(page).member("browserContextId"@) == match page.browser_context_id {
            Some(id) => Some(Json::Text(id@)),
            None => None,
        },
        target_params(page)->Object_0.len() == if page.browser_context_id is Some {
            2nat
        } else {
            1nat
        },
{
    reveal_strlit("url");
    reveal_strlit("browserContextId");
    assert("url"@.len() == 3 && "browserContextId"@.len() == 16);
    let none = Json::empty_object();
    let url = Json::Text(page.url@);
    members_are_found_under_their_names(none, "url"@, url, "url"@);
    members_are_found_under_their_names(none, "url"@, url, "browserContextId"@);
    if let Some(id) = page.browser_context_id {
        let one = none.with("url"@, url);
        members_are_found_under_their_names(one, "browserContextId"@, Json::Text(id@), "url"@);
        members_are_found_under_their_names(
            one,
            "browserContextId"@,
            Json::Text(id@),
            "browserContextId"@,
        );
    }
}

/// The page gets the size that it is given, one pixel at least on each side, its scale and
/// whether it is mobile.
pub proof fn pages_get_their_size(page: CompositorPage)
    ensures
        ({
            let params = metrics_params(page);
            let width = if page.width > 0 {
                page.width as u64
            } else {
                1
            };
            let height = if page.height > 0 {
                page.height as u64
            } else {
                1
            };
            &&& params is Object
            &&& params->Object_0.len() == 4
            &&& params.member("width"@) == Some(Json::Number(Numeral::Unsigned(width)))
            &&& params.member("height"@) == Some(Json::Number(Numeral::Unsigned(height)))
            &&& params.member("deviceScaleFactor"@) == Some(
                match page.device_scale_factor {
                    Some(scale) => Json::Number(Numeral::Decimal(scale@)),
                    None => Json::Null,
                },
            )
            &&& params.member("mobile"@) == Some(Json::Bool(page.mobile))
        }),
        page.width > 0 ==> side(page.width) == page.width,
        page.width <= 0 ==> side(page.width) == 1,
{
    reveal_strlit("width");
    reveal_strlit("height");
    reveal_strlit("deviceScaleFactor");
    reveal_strlit("mobile");
    assert("width"@.len() == 5 && "height"@.len() == 6 && "deviceScaleFactor"@.len() == 17);
    assert("mobile"@.len() == 6 && "mobile"@[0] != "height"@[0]);
    let members = metrics_params(page)->Object_0;
    assert(members[0].0 == "width"@ && members[1].0 == "height"@);
    assert(members[2].0 == "deviceScaleFactor"@ && members[3].0 == "mobile"@);
    assert forall|i: int| 0 <= i < 4 implies Json::Object(members).member(
        (#[trigger] members[i]).0,
    ) == Some(members[i].1) by {
        members_with_their_own_name_are_found(members, i);
    }
    assert(members[0].1 == Json::Number(Numeral::Unsigned(side(page.width))));
    assert(members[3].1 == Json::Bool(page.mobile));
}

/// What is done at each stage of the making of a compositor: the page is opened, attached,
/// enabled, sized, filled and brought to the front, each in its own session.
pub proof fn creation_commands_fit_their_stage(creation: Creating, page: CompositorPage)
    ensures
        ({
            let sent = creation.sends(page);
            let session = Some(creation.session_id);
            match creation.stage {
                CreateStage::CreateTarget => sent == Some(
                    Command {
                        method: "Target.createTarget"@,
                        params: Some(target_params(page)),
                        session_id: None,
                    },
                ),
                CreateStage::Attach => {
                    &&& sent is Some
                    &&& sent->0.method == "Target.attachToTarget"@
                    &&& sent->0.session_id is None
                    &&& sent->0.params is Some
                    &&& sent->0.params->0->Object_0.len() == 2
                    &&& sent->0.params->0.member("targetId"@) == Some(
                        Json::Text(creation.target_id),
                    )
                    &&& sent->0.params->0.member("flatten"@) == Some(Json::Bool(true))
                },
                CreateStage::EnablePage => sent == Some(
                    Command { method: "Page.enable"@, params: None, session_id: session },
                ),
                CreateStage::EnableRuntime => sent == Some(
                    Command { method: "Runtime.enable"@, params: None, session_id: session },
                ),
                CreateStage::Resume => sent == Some(
                    Command {
                        method: "Runtime.runIfWaitingForDebugger"@,
                        params: None,
                        session_id: session,
                    },
                ),
                CreateStage::SetMetrics => sent == Some(
                    Command {
                        method: "Emulation.setDeviceMetricsOverride"@,
                        params: Some(metrics_params(page)),
                        session_id: session,
                    },
                ),
                CreateStage::WriteDocument => sent == Some(
                    evaluate_with_promise(document_script(), true, creation.session_id),
                ),
                CreateStage::RunScript => sent == Some(
                    evaluate_with_promise(COMPOSITOR_RUNTIME_JS@, true, creation.session_id),
                ),
                CreateStage::Activate => sent == Some(activate_target(creation.target_id)),
                CreateStage::Ready => sent is None,
                CreateStage::Failed => sent is None,
            }
        }),
{
    reveal_strlit("targetId");
    reveal_strlit("flatten");
    assert("targetId"@.len() == 8 && "flatten"@.len() == 7);
    let none = Json::empty_object();
    let id = Json::Text(creation.target_id);
    members_are_found_under_their_names(none, "targetId"@, id, "targetId"@);
    members_are_found_under_their_names(none, "targetId"@, id, "flatten"@);
    let one = none.with("targetId"@, id);
    members_are_found_under_their_names(one, "flatten"@, Json::Bool(true), "targetId"@);
    members_are_found_under_their_names(one, "flatten"@, Json::Bool(true), "flatten"@);
}

/// A stage that succeeds is followed by the next, and the identifiers of the page and of the
/// session are kept from the replies that name them; nothing else changes them.
pub proof fn creation_goes_on_stage_by_stage(creation: Creating, text: Seq<char>)
    ensures
        Creating::initial() == (Creating {
            stage: CreateStage::CreateTarget,
            target_id: Seq::empty(),
            session_id: Seq::empty(),
            error: Seq::empty(),
        }),
        creation.stage == CreateStage::CreateTarget ==> creation.after(Ok(text)) == (Creating {
            stage: CreateStage::Attach,
            target_id: text,
            ..creation
        }),
        creation.stage == CreateStage::Attach ==> creation.after(Ok(text)) == (Creating {
            stage: CreateStage::EnablePage,
            session_id: text,
            ..creation
        }),
        creation.stage == CreateStage::EnablePage ==> creation.after(Ok(text)) == (Creating {
            stage: CreateStage::EnableRuntime,
            ..creation
        }),
        creation.stage == CreateStage::EnableRuntime ==> creation.after(Ok(text)) == (Creating {
            stage: CreateStage::Resume,
            ..creation
        }),
        creation.stage == CreateStage::Resume ==> creation.after(Ok(text)) == (Creating {
            stage: CreateStage::SetMetrics,
            ..creation
        }),
        creation.stage == CreateStage::SetMetrics ==> creation.after(Ok(text)) == (Creating {
            stage: CreateStage::WriteDocument,
            ..creation
        }),
        creation.stage == CreateStage::WriteDocument ==> creation.after(Ok(text)) == (Creating {
            stage: CreateStage::RunScript,
            ..creation
        }),
        creation.stage == CreateStage::RunScript ==> creation.after(Ok(text)) == (Creating {
            stage: CreateStage::Activate,
            ..creation
        }),
        creation.stage == CreateStage::Activate ==> creation.after(Ok(text)) == (Creating {
            stage: CreateStage::Ready,
            ..creation
        }),
        creation.stage == CreateStage::Ready || creation.stage == CreateStage::Failed
            ==> creation.after(Ok(text)) == creation,
{
}

/// An error ends the making and is kept as its result, but for the resumption and the
/// activation, which may fail.
pub proof fn creation_errors_are_kept(creation: Creating, message: Seq<char>)
    ensures
        match creation.stage {
            CreateStage::Resume => creation.after(Err(message)) == (Creating {
                stage: CreateStage::SetMetrics,
                ..creation
            }),
            CreateStage::Activate => creation.after(Err(message)) == (Creating {
                stage: CreateStage::Ready,
                ..creation
            }),
            CreateStage::Ready => creation.after(Err(message)) == creation,
            CreateStage::Failed => creation.after(Err(message)) == creation,
            _ => creation.after(Err(message)) == (Creating {
                stage: CreateStage::Failed,
                error: message,
                ..creation
            }),
        },
{
}

/// What is known of the machines of this module is what they hold, texts by their
/// characters.
pub proof fn machines_are_what_they_hold(
    creation: CompositorCreation,
    state: CompositorLoop,
    reply: Result<String, String>,
    text: String,
)
    ensures
        creation@.stage == creation.stage,
        creation@.target_id == creation.target_id@,
        creation@.session_id == creation.session_id@,
        creation@.error == creation.error@,
        state@.capture == state.capture@,
        state@.stage == state.stage,
        state@.last_source_refresh == state.last_source_refresh,
        state@.last_source_frame is Some == state.last_source_frame is Some,
        state.last_source_frame is Some ==> state@.last_source_frame->0
            == state.last_source_frame->0@,
        state@.next_source_frame is Some == state.next_source_frame is Some,
        state.next_source_frame is Some ==> state@.next_source_frame->0
            == state.next_source_frame->0@,
        string_text(Some(text)) == Some(text@),
        string_text(None) is None,
        reply_text(reply) == match reply {
            Ok(found) => Ok(found@),
            Err(message) => Err(message@),
        },
{
}

/// What happened is what is reported; of a frame that could not be shown, that it could
/// not.
pub proof fn compositor_happenings_are_what_is_reported(event: CompositorEvent)
    ensures
        match event {
            CompositorEvent::Capture(inner) => event@ == CompositorHappening::Capture(inner@),
            CompositorEvent::Clock(now) => event@ == CompositorHappening::Clock(now),
            CompositorEvent::Source(Ok(data)) => event@ == CompositorHappening::Source(Ok(data@)),
            CompositorEvent::Source(Err(message)) => event@ == CompositorHappening::Source(
                Err(message@),
            ),
            CompositorEvent::FrameSet(Ok(_)) => event@ == CompositorHappening::FrameSet(true),
            CompositorEvent::FrameSet(Err(_)) => event@ == CompositorHappening::FrameSet(false),
            CompositorEvent::TimedOut => event@ == CompositorHappening::TimedOut,
            CompositorEvent::Activated => event@ == CompositorHappening::Activated,
            CompositorEvent::Screenshot(Ok(data)) => event@ == CompositorHappening::Screenshot(
                Ok(data@),
            ),
            CompositorEvent::Screenshot(Err(message)) => event@ == CompositorHappening::Screenshot(
                Err(message@),
            ),
        },
{
}

/// A compositor recording starts as a page recording does, shows nothing yet, and last
/// looked at the source page a second ago, as far as its clock reaches back.
pub proof fn compositing_starts_with_nothing_shown(fps: u32, gated: bool, now: TimePoint)
    ensures
        ({
            let start = Compositing::initial(fps, gated, now);
            &&& start.capture == Capture::initial(fps, gated)
            &&& start.capture.fps == fps
            &&& start.capture.gated == gated
            &&& start.stage == SourceStage::CheckRefresh
            &&& start.last_source_frame is None
            &&& start.next_source_frame is None
            &&& now.nanos >= 1_000_000_000 ==> start.last_source_refresh.nanos + 1_000_000_000
                == now.nanos
            &&& now.nanos < 1_000_000_000 ==> start.last_source_refresh == now
            &&& start.valid()
        }),
{
    captures_start_empty(fps, gated);
}

/// Outside of a screenshot the loop goes on as that of a page recording; what it shows and
/// when it last looked stay.
pub proof fn compositing_wraps_the_capture(state: Compositing, event: Happening)
    requires
        state.capture.phase != CapturePhase::TakeScreenshot,
    ensures
        ({
            let after = state.after(CompositorHappening::Capture(event));
            &&& after.capture == state.capture.after(event)
            &&& after.stage == SourceStage::CheckRefresh
            &&& after.last_source_frame == state.last_source_frame
            &&& after.last_source_refresh == state.last_source_refresh
            &&& after.next_source_frame is None
        }),
        state.can_take(CompositorHappening::Capture(event)) <==> state.capture.can_take(event),
{
}

/// A screenshot begins with a look at the clock: 120 milliseconds after the last look at the
/// source page, or later, the source page is looked at again, from now on; before that the
/// compositor is captured with what it shows.
pub proof fn looks_are_due_after_their_interval(state: Compositing, now: TimePoint)
    requires
        state.capture.phase == CapturePhase::TakeScreenshot,
        state.stage == SourceStage::CheckRefresh,
    ensures
        now.nanos >= state.last_source_refresh.nanos + 120_000_000 ==> state.after(
            CompositorHappening::Clock(now),
        ) == (Compositing {
            stage: SourceStage::CaptureSource,
            last_source_refresh: now,
            ..state
        }),
        now.nanos < state.last_source_refresh.nanos + 120_000_000 ==> state.after(
            CompositorHappening::Clock(now),
        ) == (Compositing { stage: SourceStage::Activate, ..state }),
{
}

/// A source page that has changed is shown: whatever screenshot of it differs from the one
/// that the compositor shows, or comes while it shows none, is exactly the one that the
/// compositor is told to show next, and once it is shown it is what the compositor shows.
pub proof fn changed_sources_are_shown(
    state: Compositing,
    data: Seq<char>,
    source_session: Seq<char>,
    target_id: Seq<char>,
    session_id: Seq<char>,
)
    requires
        state.capture.phase == CapturePhase::TakeScreenshot,
        state.stage == SourceStage::CaptureSource,
        state.last_source_frame != Some(data),
    ensures
        ({
            let told = state.after(CompositorHappening::Source(Ok(data)));
            let shown = told.after(CompositorHappening::FrameSet(true));
            &&& told == (Compositing {
                stage: SourceStage::SetFrame,
                next_source_frame: Some(data),
                ..state
            })
            &&& told.sends(source_session, target_id, session_id) == Some(
                evaluate_with_promise(frame_script(data), true, session_id),
            )
            &&& shown.last_source_frame == Some(data)
            &&& shown.next_source_frame is None
            &&& shown.stage == SourceStage::Activate
            &&& shown.capture == state.capture
            &&& shown.last_source_refresh == state.last_source_refresh
        }),
{
}

/// A source page that looks as it did leaves the compositor as it is: that is brought to
/// the front and captured.
pub proof fn unchanged_sources_leave_the_compositor(state: Compositing, data: Seq<char>)
    requires
        state.capture.phase == CapturePhase::TakeScreenshot,
        state.stage == SourceStage::CaptureSource,
        state.last_source_frame == Some(data),
    ensures
        state.after(CompositorHappening::Source(Ok(data))) == (Compositing {
            stage: SourceStage::Activate,
            next_source_frame: None,
            ..state
        }),
{
}

/// A look that fails or takes too long, in either half, changes nothing of what the
/// compositor shows: with something shown it is captured all the same, with nothing shown
/// the round is over.
pub proof fn failed_looks_change_nothing(state: Compositing, message: Seq<char>)
    requires
        state.capture.phase == CapturePhase::TakeScreenshot,
    ensures
        ({
            let ends = |after: Compositing|
                {
                    &&& after.last_source_frame == state.last_source_frame
                    &&& after.next_source_frame is None
                    &&& after.last_source_refresh == state.last_source_refresh
                    &&& state.last_source_frame is Some ==> after.stage == SourceStage::Activate
                        && after.capture == state.capture
                    &&& state.last_source_frame is None ==> after.stage
                        == SourceStage::CheckRefresh && begins_a_round(
                        after.capture,
                        state.capture,
                    )
                };
            &&& state.stage == SourceStage::CaptureSource ==> ends(
                state.after(CompositorHappening::Source(Err(message))),
            ) && ends(state.after(CompositorHappening::TimedOut))
            &&& state.stage == SourceStage::SetFrame ==> ends(
                state.after(CompositorHappening::FrameSet(false)),
            ) && ends(state.after(CompositorHappening::TimedOut))
        }),
{
}

/// The compositor is brought to the front and then captured; what is captured is what is
/// written. A capture that fails or cannot be decoded is skipped.
pub proof fn compositor_captures_are_what_is_written(
    state: Compositing,
    data: Seq<char>,
    message: Seq<char>,
)
    requires
        state.capture.phase == CapturePhase::TakeScreenshot,
    ensures
        state.stage == SourceStage::Activate ==> state.after(CompositorHappening::Activated) == (
        Compositing { stage: SourceStage::CaptureCompositor, ..state }),
        state.stage == SourceStage::CaptureCompositor && base64_bytes(data) is Some ==> ({
            let taken = state.after(CompositorHappening::Screenshot(Ok(data)));
            &&& taken.capture.phase == CapturePhase::ReadClock
            &&& taken.capture.frame == base64_bytes(data)->0
            &&& taken.capture.started_at == state.capture.started_at
            &&& taken.capture.segment_frames == state.capture.segment_frames
            &&& taken.capture.total_frames == state.capture.total_frames
            &&& taken.last_source_frame == state.last_source_frame
        }),
        state.stage == SourceStage::CaptureCompositor && base64_bytes(data) is None
            ==> begins_a_round(
            state.after(CompositorHappening::Screenshot(Ok(data))).capture,
            state.capture,
        ),
        state.stage == SourceStage::CaptureCompositor ==> begins_a_round(
            state.after(CompositorHappening::Screenshot(Err(message))).capture,
            state.capture,
        ),
        state.stage == SourceStage::CaptureCompositor ==> state.after(
            CompositorHappening::Screenshot(Err(message)),
        ).last_source_frame == state.last_source_frame,
{
}

/// An event that a stage does not wait for changes nothing.
pub proof fn only_awaited_compositor_events_matter(state: Compositing, event: CompositorHappening)
    ensures
        ({
            let waits = match event {
                CompositorHappening::Capture(_) => state.capture.phase
                    != CapturePhase::TakeScreenshot,
                CompositorHappening::Clock(_) => state.stage == SourceStage::CheckRefresh,
                CompositorHappening::Source(_) => state.stage == SourceStage::CaptureSource,
                CompositorHappening::FrameSet(_) => state.stage == SourceStage::SetFrame,
                CompositorHappening::TimedOut => state.stage == SourceStage::CaptureSource
                    || state.stage == SourceStage::SetFrame,
                CompositorHappening::Activated => state.stage == SourceStage::Activate,
                CompositorHappening::Screenshot(_) => state.stage
                    == SourceStage::CaptureCompositor,
            };
            let taking = state.capture.phase == CapturePhase::TakeScreenshot;
            &&& !waits ==> state.after(event) == state
            &&& !taking && !(event is Capture) ==> state.after(event) == state
            &&& taking || !(event is Capture) ==> state.can_take(event)
        }),
{
}

/// The source page is captured in its own session at quality 82, the compositor in its own
/// at 90; the compositor is what is brought to the front. Nothing is sent while the clock is
/// looked at or outside of a screenshot.
pub proof fn looks_go_to_their_page(
    state: Compositing,
    source_session: Seq<char>,
    target_id: Seq<char>,
    session_id: Seq<char>,
)
    ensures
        ({
            let sent = state.sends(source_session, target_id, session_id);
            if state.capture.phase != CapturePhase::TakeScreenshot {
                sent is None
            } else {
                match state.stage {
                    SourceStage::CheckRefresh => sent is None,
                    SourceStage::CaptureSource => sent == Some(jpeg_screenshot(82, source_session)),
                    SourceStage::SetFrame => state.next_source_frame is Some ==> sent == Some(
                        evaluate_with_promise(
                            frame_script(state.next_source_frame->0),
                            true,
                            session_id,
                        ),
                    ),
                    SourceStage::Activate => sent == Some(activate_target(target_id)),
                    SourceStage::CaptureCompositor => sent == Some(jpeg_screenshot(90, session_id)),
                }
            }
        }),
{
}

/// A look is given up 90 milliseconds after it began.
pub proof fn looks_are_given_up_in_time(state: Compositing)
    ensures
        state.last_source_refresh.nanos <= 0xffff_ffff_ffff_ffff_ffff_ffff_0000_0000
            ==> state.deadline() is Some && state.deadline()->0.nanos
            == state.last_source_refresh.nanos + 90_000_000,
        state.deadline() is None ==> state.last_source_refresh.nanos + 90_000_000
            > 0xffff_ffff_ffff_ffff_ffff_ffff_ffff_ffff,
{
}

/// The ending closes the page, then waits for the encoder, then is over, and only its first
/// step sends something.
pub proof fn endings_close_then_wait(target_id: Seq<char>)
    ensures
        EndStep::Close.sends(target_id) == Some(close_target(target_id)),
        EndStep::AwaitEncoder.sends(target_id) is None,
        EndStep::Done.sends(target_id) is None,
        EndStep::Close.next() == EndStep::AwaitEncoder,
        EndStep::AwaitEncoder.next() == EndStep::Done,
        EndStep::Done.next() == EndStep::Done,
{
}

/// A viewport is what the page reports: each side an integer, cut to 32 bits, the scale a
/// number, and whether it is mobile; what is not reported in that form has its default.
pub proof fn viewports_are_what_the_page_reports(value: Json, key: Seq<char>, default: i64)
    ensures
        integer_option(None, key, default) == default as i32,
        match value.member(key) {
            Some(Json::Number(Numeral::Unsigned(n))) => if n <= 0x7fff_ffff_ffff_ffff {
                integer_option(Some(value), key, default) == (n as i64) as i32
            } else {
                integer_option(Some(value), key, default) == default as i32
            },
            Some(Json::Number(Numeral::Negative(n))) => integer_option(Some(value), key, default)
                == n as i32,
            _ => integer_option(Some(value), key, default) == default as i32,
        },
        reported_scale(None) == Numeral::Unsigned(1),
        match value.member("deviceScaleFactor"@) {
            Some(Json::Number(n)) => reported_scale(Some(value)) == n,
            _ => reported_scale(Some(value)) == Numeral::Unsigned(1),
        },
        !reported_mobile(None),
        reported_mobile(Some(value)) <==> value.member("mobile"@) == Some(Json::Bool(true)),
{
}

} // verus!
