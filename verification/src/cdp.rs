//! Commands of the Chrome DevTools Protocol, as values.

use vstd::prelude::*;
use vstd::string::*;

use crate::json::{Json, JsonNumber, JsonValue, Numeral};

verus! {

/// One command: its method, its parameters, and the session that it goes to.
#[derive(Debug)]
pub struct CdpCommand {
    pub method: String,
    pub params: Option<JsonValue>,
    pub session_id: Option<String>,
}

/// The mathematical content of a [`CdpCommand`].
pub struct Command {
    pub method: Seq<char>,
    pub params: Option<Json>,
    pub session_id: Option<Seq<char>>,
}

impl View for CdpCommand {
    type V = Command;

    open spec fn view(&self) -> Command {
        Command {
            method: self.method@,
            params: match self.params {
                Some(p) => Some(p@),
                None => None,
            },
            session_id: match self.session_id {
                Some(s) => Some(s@),
                None => None,
            },
        }
    }
}

/// A command with parameters, to one session.
pub open spec fn session_command(
    method: Seq<char>,
    params: Json,
    session_id: Seq<char>,
) -> Command {
    Command { method, params: Some(params), session_id: Some(session_id) }
}

/// A command with parameters, to the browser itself.
pub open spec fn browser_command(method: Seq<char>, params: Json) -> Command {
    Command { method, params: Some(params), session_id: None }
}

/// A command without parameters, to one session.
pub open spec fn bare_command(method: Seq<char>, session_id: Seq<char>) -> Command {
    Command { method, params: None, session_id: Some(session_id) }
}

/// Evaluates a script and hands its value back.
pub open spec fn evaluate_by_value(expression: Seq<char>, session_id: Seq<char>) -> Command {
    session_command(
        "Runtime.evaluate"@,
        Json::empty_object().with("expression"@, Json::Text(expression)).with(
            "returnByValue"@,
            Json::Bool(true),
        ),
        session_id,
    )
}

/// Evaluates a script, hands its value back, and says whether to wait for a
/// promise to settle.
pub open spec fn evaluate_with_promise(
    expression: Seq<char>,
    await_promise: bool,
    session_id: Seq<char>,
) -> Command {
    session_command(
        "Runtime.evaluate"@,
        Json::empty_object().with("expression"@, Json::Text(expression)).with(
            "returnByValue"@,
            Json::Bool(true),
        ).with("awaitPromise"@, Json::Bool(await_promise)),
        session_id,
    )
}

/// Takes a JPEG screenshot of what a session shows.
pub open spec fn jpeg_screenshot(quality: u64, session_id: Seq<char>) -> Command {
    session_command(
        "Page.captureScreenshot"@,
        Json::empty_object().with("format"@, Json::Text("jpeg"@)).with(
            "quality"@,
            Json::Number(Numeral::Unsigned(quality)),
        ).with("fromSurface"@, Json::Bool(true)),
        session_id,
    )
}

/// A command with parameters, to one session.
pub fn command_to_session(method: &str, params: JsonValue, session_id: &str) -> (r: CdpCommand)
    ensures
        r@ == session_command(method@, params@, session_id@),
{
    CdpCommand {
        method: method.to_owned(),
        params: Some(params),
        session_id: Some(session_id.to_owned()),
    }
}

/// A command with parameters, to the browser itself.
pub fn command_to_browser(method: &str, params: JsonValue) -> (r: CdpCommand)
    ensures
        r@ == browser_command(method@, params@),
{
    CdpCommand { method: method.to_owned(), params: Some(params), session_id: None }
}

/// A command without parameters, to one session.
pub fn command_without_params(method: &str, session_id: &str) -> (r: CdpCommand)
    ensures
        r@ == bare_command(method@, session_id@),
{
    CdpCommand { method: method.to_owned(), params: None, session_id: Some(session_id.to_owned()) }
}

/// The command that evaluates `expression` and hands its value back.
pub fn evaluate_command(expression: &str, session_id: &str) -> (r: CdpCommand)
    ensures
        r@ == evaluate_by_value(expression@, session_id@),
{
    let params = JsonValue::empty_object().with("expression", JsonValue::text(expression)).with(
        "returnByValue",
        JsonValue::Bool(true),
    );
    command_to_session("Runtime.evaluate", params, session_id)
}

/// The command that evaluates `expression`, with or without waiting for a promise.
pub fn evaluate_promise_command(expression: &str, await_promise: bool, session_id: &str) -> (r:
    CdpCommand)
    ensures
        r@ == evaluate_with_promise(expression@, await_promise, session_id@),
{
    let params = JsonValue::empty_object().with("expression", JsonValue::text(expression)).with(
        "returnByValue",
        JsonValue::Bool(true),
    ).with("awaitPromise", JsonValue::Bool(await_promise));
    command_to_session("Runtime.evaluate", params, session_id)
}

/// The command that takes a JPEG screenshot.
pub fn screenshot_command(quality: u64, session_id: &str) -> (r: CdpCommand)
    ensures
        r@ == jpeg_screenshot(quality, session_id@),
{
    let params = JsonValue::empty_object().with("format", JsonValue::text("jpeg")).with(
        "quality",
        JsonValue::Number(JsonNumber::Unsigned(quality)),
    ).with("fromSurface", JsonValue::Bool(true));
    command_to_session("Page.captureScreenshot", params, session_id)
}

/// What a page reports when an evaluated script throws.
#[derive(Debug)]
pub struct ExceptionDetails {
    /// The short text of the exception.
    pub text: String,
    /// The description of the thrown value, where it has one.
    pub description: Option<String>,
}

impl ExceptionDetails {
    /// The description, or else the short text.
    pub open spec fn message(self) -> Seq<char> {
        match self.description {
            Some(d) => d@,
            None => self.text@,
        }
    }
}

/// Turns what an evaluation reports into a result: an exception becomes an error
/// that starts with `prefix`.
pub fn evaluation_outcome(prefix: &str, exception: Option<ExceptionDetails>) -> (r: Result<
    (),
    String,
>)
    ensures
        match exception {
            None => r is Ok,
            Some(details) => r is Err && r->Err_0@ == prefix@ + details.message(),
        },
{
    match exception {
        None => Ok(()),
        Some(details) => {
            let mut message = prefix.to_owned();
            match details.description {
                Some(d) => message.append(d.as_str()),
                None => message.append(details.text.as_str()),
            }
            Err(message)
        },
    }
}

} // verus!
