//! The login, as a sequence of decisions.
//!
//! A flow hands out what is to be done next and is told what came of it.
//! It sends nothing itself: whoever drives it owns the transport.

use crate::auth::{AuthData, AuthView};
use crate::error::{Error, ErrorView};
use crate::headers::empty_headers;
use crate::request::{build_endpoint, login_path, login_payload, login_request, Method, Request};
use crate::settings::{Settings, SettingsView};
use crate::status::{is_error_status, status_failure, status_failure_text, status_is_error};
use vstd::prelude::*;

verus! {

/// An [`Event`] with texts in place of strings.
pub enum EventView {
    Failed(Seq<char>),
    Status(u16),
    Envelope(Result<AuthView, Seq<char>>),
    Text(Option<Seq<char>>),
}

/// What the transport reports back to a flow.
#[derive(Debug)]
pub enum Event {
    /// The request could not be carried; the text says why.
    Failed(String),
    /// An answer arrived, with this status.
    Status(u16),
    /// The body of the login answer was decoded: the credentials it held,
    /// or the decoder's complaint.
    Envelope(Result<AuthData, String>),
    /// The body of the answer was read as text, or could not be.
    Text(Option<String>),
}

impl View for Event {
    type V = EventView;

    open spec fn view(&self) -> EventView {
        match self {
            Event::Failed(text) => EventView::Failed(text@),
            Event::Status(status) => EventView::Status(*status),
            Event::Envelope(Ok(auth)) => EventView::Envelope(Ok(auth@)),
            Event::Envelope(Err(text)) => EventView::Envelope(Err(text@)),
            Event::Text(Some(text)) => EventView::Text(Some(text@)),
            Event::Text(None) => EventView::Text(None),
        }
    }
}

/// How far a login has come.
#[derive(Debug, Clone, Copy, PartialEq, Eq, Structural)]
pub enum LoginStage {
    /// The login request is out; its status is awaited.
    Sent,
    /// The status was accepted; the decoded body is awaited.
    Answered,
    /// The login failed. Nothing more is accepted.
    Failed,
    /// The login gave credentials. Nothing more is accepted.
    LoggedIn,
}

/// A [`LoginFlow`] as the contracts see it.
pub struct LoginFlowView {
    pub stage: LoginStage,
    pub url: Seq<char>,
}

/// A login under way: its stage, and the URL it asked.
#[derive(Debug)]
pub struct LoginFlow {
    stage: LoginStage,
    url: String,
}

impl View for LoginFlow {
    type V = LoginFlowView;

    closed spec fn view(&self) -> LoginFlowView {
        LoginFlowView { stage: self.stage, url: self.url@ }
    }
}

/// A [`LoginAction`] with texts in place of strings.
pub enum LoginActionView {
    Decode,
    Finish(Result<AuthView, ErrorView>),
}

/// What a login asks of its driver next.
#[derive(Debug)]
pub enum LoginAction {
    /// Decode the body of the answer and report the outcome as
    /// [`Event::Envelope`].
    Decode,
    /// The login is over, with this result.
    Finish(Result<AuthData, Error>),
}

impl View for LoginAction {
    type V = LoginActionView;

    open spec fn view(&self) -> LoginActionView {
        match self {
            LoginAction::Decode => LoginActionView::Decode,
            LoginAction::Finish(Ok(auth)) => LoginActionView::Finish(Ok(auth@)),
            LoginAction::Finish(Err(error)) => LoginActionView::Finish(Err(error@)),
        }
    }
}

/// The login that has just sent its request for `settings`.
pub open spec fn login_started(settings: SettingsView) -> LoginFlowView {
    LoginFlowView { stage: LoginStage::Sent, url: settings.domain + login_path() }
}

/// A login that failed with `error`.
pub open spec fn login_fails(flow: LoginFlowView, error: ErrorView) -> Option<(LoginFlowView, LoginActionView)> {
    Some((LoginFlowView { stage: LoginStage::Failed, ..flow }, LoginActionView::Finish(Err(error))))
}

/// What a login does with an event: the flow it becomes and what it asks
/// for, or `None` where the event is not one that its stage waits for.
///
/// - While the request is out: a transport failure ends the login with
///   `RequestFailed` and the transport's text; a status of the error
///   classes ends it with `RequestFailed` and the text for that status and
///   the login URL; any other status asks for the body to be decoded.
/// - While the body is being decoded: credentials end the login with
///   success, a complaint ends it with `JsonDecodeError` and that text.
/// - Once the login is over, nothing is accepted.
pub open spec fn login_react(flow: LoginFlowView, event: EventView) -> Option<(LoginFlowView, LoginActionView)> {
    match (flow.stage, event) {
        (LoginStage::Sent, EventView::Failed(text)) => login_fails(flow, ErrorView::RequestFailed(text)),
        (LoginStage::Sent, EventView::Status(status)) => if is_error_status(status) {
            login_fails(flow, ErrorView::RequestFailed(status_failure(status, flow.url)))
        } else {
            Some((LoginFlowView { stage: LoginStage::Answered, ..flow }, LoginActionView::Decode))
        },
        (LoginStage::Answered, EventView::Envelope(Ok(auth))) => Some(
            (LoginFlowView { stage: LoginStage::LoggedIn, ..flow }, LoginActionView::Finish(Ok(auth))),
        ),
        (LoginStage::Answered, EventView::Envelope(Err(text))) => login_fails(
            flow,
            ErrorView::JsonDecodeError(text),
        ),
        _ => None,
    }
}

/// The outcome of a step agrees with what the model says of it.
pub open spec fn login_step_agrees(
    before: LoginFlowView,
    event: EventView,
    after: LoginFlowView,
    action: Option<LoginAction>,
) -> bool {
    match login_react(before, event) {
        Some((flow, wanted)) => {
            &&& after == flow
            &&& action matches Some(given)
            &&& given@ == wanted
        },
        None => after == before && action is None,
    }
}

impl LoginFlow {
    /// Begins a login with `settings`: the flow, and the request that its
    /// driver is to send first. The request is a `POST` to the login path
    /// behind the base URL, with the account's name and password as its
    /// body and no header.
    pub fn start(settings: &Settings) -> (begun: (LoginFlow, Request))
        ensures
            begun.0@ == login_started(settings@),
            begun.1@ == login_request(settings@),
    {
        let url = build_endpoint(settings.domain(), "/api/v1/login");
        let first = Request {
            endpoint: url.clone(),
            method: Method::Post,
            body: login_payload(settings),
            headers: empty_headers(),
        };
        (LoginFlow { stage: LoginStage::Sent, url }, first)
    }

    /// The stage that the login is at.
    pub fn stage(&self) -> (stage: LoginStage)
        ensures
            stage == self@.stage,
    {
        self.stage
    }

    /// The URL that the login asked.
    pub fn url(&self) -> (url: &str)
        ensures
            url@ == self@.url,
    {
        self.url.as_str()
    }

    /// Takes one event and says what is to be done next, as
    /// [`login_react`] defines it. An event that the stage does not wait
    /// for is refused: the flow comes back as it was, with `None`.
    pub fn step(self, event: Event) -> (next: (LoginFlow, Option<LoginAction>))
        ensures
            login_step_agrees(self@, event@, next.0@, next.1),
    {
        let LoginFlow { stage, url } = self;
        match (stage, event) {
            (LoginStage::Sent, Event::Failed(text)) => (
                LoginFlow { stage: LoginStage::Failed, url },
                Some(LoginAction::Finish(Err(Error::RequestFailed(text)))),
            ),
            (LoginStage::Sent, Event::Status(status)) => {
                if status_is_error(status) {
                    let text = status_failure_text(status, url.as_str());
                    (
                        LoginFlow { stage: LoginStage::Failed, url },
                        Some(LoginAction::Finish(Err(Error::RequestFailed(text)))),
                    )
                } else {
                    (LoginFlow { stage: LoginStage::Answered, url }, Some(LoginAction::Decode))
                }
            },
            (LoginStage::Answered, Event::Envelope(Ok(auth))) => (
                LoginFlow { stage: LoginStage::LoggedIn, url },
                Some(LoginAction::Finish(Ok(auth))),
            ),
            (LoginStage::Answered, Event::Envelope(Err(text))) => (
                LoginFlow { stage: LoginStage::Failed, url },
                Some(LoginAction::Finish(Err(Error::JsonDecodeError(text)))),
            ),
            (stage, _) => (LoginFlow { stage, url }, None),
        }
    }
}

} // verus!
