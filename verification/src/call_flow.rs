//! A call that logs in first, as a sequence of decisions.

use crate::auth::{header_safe, AuthView};
use crate::error::{Error, ErrorView};
use crate::json_map::JsonMap;
use crate::login_flow::{
    login_react, login_started, Event, EventView, LoginAction, LoginActionView, LoginFlow, LoginFlowView,
    LoginStage,
};
use crate::request::{
    build_endpoint, composed, login_request, request, unsendable, Method, Request, RequestView,
};
use crate::settings::{Settings, SettingsView};
use crate::status::{is_error_status, status_failure, status_failure_text, status_is_error};
use vstd::prelude::*;

verus! {

/// How far a call has come.
#[derive(Debug, Clone, Copy, PartialEq, Eq, Structural)]
pub enum CallStage {
    /// The login is under way, or has failed: the login's own stage says
    /// which. The call itself has not been sent.
    Login,
    /// The call is out; its status is awaited.
    Sent,
    /// The status was accepted; the text of the answer is awaited.
    Answered,
    /// The login gave credentials that no header can carry, so the call
    /// failed before it was sent. Nothing more is accepted.
    Unsendable,
    /// The call was sent and failed. Nothing more is accepted.
    Failed,
    /// The call gave its answer. Nothing more is accepted.
    Finished,
}

/// A [`CallFlow`] as the contracts see it.
pub struct CallFlowView {
    pub login: LoginFlowView,
    pub stage: CallStage,
    pub url: Seq<char>,
    pub method: Method,
    pub body: Map<Seq<char>, Seq<char>>,
}

/// A call under way: the login that opens it, its own stage, and what is
/// to be asked once the login has given credentials.
#[derive(Debug)]
pub struct CallFlow {
    login: LoginFlow,
    stage: CallStage,
    url: String,
    method: Method,
    payload: JsonMap,
}

impl View for CallFlow {
    type V = CallFlowView;

    closed spec fn view(&self) -> CallFlowView {
        CallFlowView {
            login: self.login@,
            stage: self.stage,
            url: self.url@,
            method: self.method,
            body: self.payload@,
        }
    }
}

/// A [`CallAction`] with texts in place of strings.
pub enum CallActionView {
    Send(RequestView),
    Decode,
    ReadText,
    Finish(Result<Seq<char>, ErrorView>),
}

/// What a call asks of its driver next.
#[derive(Debug)]
pub enum CallAction {
    /// Send this request and report [`Event::Status`] or [`Event::Failed`].
    Send(Request),
    /// Decode the body of the login answer and report the outcome as
    /// [`Event::Envelope`].
    Decode,
    /// Read the body of the answer as text and report the outcome as
    /// [`Event::Text`].
    ReadText,
    /// The call is over, with this result.
    Finish(Result<String, Error>),
}

impl View for CallAction {
    type V = CallActionView;

    open spec fn view(&self) -> CallActionView {
        match self {
            CallAction::Send(request) => CallActionView::Send(request@),
            CallAction::Decode => CallActionView::Decode,
            CallAction::ReadText => CallActionView::ReadText,
            CallAction::Finish(Ok(text)) => CallActionView::Finish(Ok(text@)),
            CallAction::Finish(Err(error)) => CallActionView::Finish(Err(error@)),
        }
    }
}

/// The call that has just sent the login request for `settings` and will
/// ask for `path` with `method` and `body`.
pub open spec fn call_started(
    settings: SettingsView,
    path: Seq<char>,
    method: Method,
    body: Map<Seq<char>, Seq<char>>,
) -> CallFlowView {
    CallFlowView {
        login: login_started(settings),
        stage: CallStage::Login,
        url: settings.domain + path,
        method,
        body,
    }
}

/// The request that `flow` sends once the login has given `auth`.
pub open spec fn target_request(flow: CallFlowView, auth: AuthView) -> RequestView {
    composed(flow.url, flow.method, flow.body, Some(auth))
}

/// A call that was sent and failed with `error`.
pub open spec fn call_fails(flow: CallFlowView, error: ErrorView) -> Option<(CallFlowView, CallActionView)> {
    Some((CallFlowView { stage: CallStage::Failed, ..flow }, CallActionView::Finish(Err(error))))
}

/// What a call does with an event: the flow it becomes and what it asks
/// for, or `None` where the event is not one that its stage waits for.
///
/// - While the login is under way, the login decides ([`login_react`]).
///   What it asks for is passed on, and a failure ends the call with the
///   login's own error, unchanged. Credentials make the call send its
///   request, with exactly those credentials in its headers; credentials
///   that no header can carry end the call with `RequestFailed`, and
///   nothing is sent.
/// - While the call is out: a transport failure ends it with
///   `RequestFailed` and the transport's text; a status of the error
///   classes ends it with `RequestFailed` and the text for that status and
///   the URL of the call; any other status asks for the text of the body.
/// - While the text is being read: a text ends the call with that text,
///   as it is; no text ends it with `ResponseTextError`.
/// - Once the call is over, nothing is accepted.
pub open spec fn call_react(flow: CallFlowView, event: EventView) -> Option<(CallFlowView, CallActionView)> {
    match flow.stage {
        CallStage::Login => match login_react(flow.login, event) {
            Some((login, LoginActionView::Decode)) => Some(
                (CallFlowView { login, ..flow }, CallActionView::Decode),
            ),
            Some((login, LoginActionView::Finish(Err(error)))) => Some(
                (CallFlowView { login, ..flow }, CallActionView::Finish(Err(error))),
            ),
            Some((login, LoginActionView::Finish(Ok(auth)))) => if header_safe(auth) {
                Some(
                    (
                        CallFlowView { login, stage: CallStage::Sent, ..flow },
                        CallActionView::Send(target_request(flow, auth)),
                    ),
                )
            } else {
                Some(
                    (
                        CallFlowView { login, stage: CallStage::Unsendable, ..flow },
                        CallActionView::Finish(Err(unsendable())),
                    ),
                )
            },
            None => None,
        },
        CallStage::Sent => match event {
            EventView::Failed(text) => call_fails(flow, ErrorView::RequestFailed(text)),
            EventView::Status(status) => if is_error_status(status) {
                call_fails(flow, ErrorView::RequestFailed(status_failure(status, flow.url)))
            } else {
                Some((CallFlowView { stage: CallStage::Answered, ..flow }, CallActionView::ReadText))
            },
            _ => None,
        },
        CallStage::Answered => match event {
            EventView::Text(Some(text)) => Some(
                (CallFlowView { stage: CallStage::Finished, ..flow }, CallActionView::Finish(Ok(text))),
            ),
            EventView::Text(None) => call_fails(flow, ErrorView::ResponseTextError),
            _ => None,
        },
        _ => None,
    }
}

/// The outcome of a step agrees with what the model says of it.
pub open spec fn call_step_agrees(
    before: CallFlowView,
    event: EventView,
    after: CallFlowView,
    action: Option<CallAction>,
) -> bool {
    match call_react(before, event) {
        Some((flow, wanted)) => {
            &&& after == flow
            &&& action matches Some(given)
            &&& given@ == wanted
        },
        None => after == before && action is None,
    }
}

impl CallFlow {
    /// Begins a call: the flow, and the login request that its driver is
    /// to send first. `endpoint` is the path of the operation; it is
    /// written directly behind the base URL of `settings`.
    pub fn start(settings: &Settings, endpoint: &str, method: Method, payload: JsonMap) -> (begun: (
        CallFlow,
        Request,
    ))
        ensures
            begun.0@ == call_started(settings@, endpoint@, method, payload@),
            begun.1@ == login_request(settings@),
    {
        let (login, first) = LoginFlow::start(settings);
        let url = build_endpoint(settings.domain(), endpoint);
        (CallFlow { login, stage: CallStage::Login, url, method, payload }, first)
    }

    /// The stage that the call is at.
    pub fn stage(&self) -> (stage: CallStage)
        ensures
            stage == self@.stage,
    {
        self.stage
    }

    /// The stage that the login of this call is at.
    pub fn login_stage(&self) -> (stage: LoginStage)
        ensures
            stage == self@.login.stage,
    {
        self.login.stage()
    }

    /// The URL that the call asks once it is logged in.
    pub fn url(&self) -> (url: &str)
        ensures
            url@ == self@.url,
    {
        self.url.as_str()
    }

    /// Takes one event and says what is to be done next, as [`call_react`]
    /// defines it. A refused event leaves the flow as it was and gives
    /// `None`.
    pub fn step(self, event: Event) -> (next: (CallFlow, Option<CallAction>))
        ensures
            call_step_agrees(self@, event@, next.0@, next.1),
    {
        let CallFlow { login, stage, url, method, payload } = self;
        match stage {
            CallStage::Login => {
                let (login, action) = login.step(event);
                match action {
                    Some(LoginAction::Decode) => (
                        CallFlow { login, stage, url, method, payload },
                        Some(CallAction::Decode),
                    ),
                    Some(LoginAction::Finish(Err(error))) => (
                        CallFlow { login, stage, url, method, payload },
                        Some(CallAction::Finish(Err(error))),
                    ),
                    Some(LoginAction::Finish(Ok(auth))) => {
                        match request(url.clone(), method, &payload, Some(auth)) {
                            Ok(target) => (
                                CallFlow { login, stage: CallStage::Sent, url, method, payload },
                                Some(CallAction::Send(target)),
                            ),
                            Err(error) => (
                                CallFlow { login, stage: CallStage::Unsendable, url, method, payload },
                                Some(CallAction::Finish(Err(error))),
                            ),
                        }
                    },
                    None => (CallFlow { login, stage, url, method, payload }, None),
                }
            },
            CallStage::Sent => match event {
                Event::Failed(text) => (
                    CallFlow { login, stage: CallStage::Failed, url, method, payload },
                    Some(CallAction::Finish(Err(Error::RequestFailed(text)))),
                ),
                Event::Status(status) => {
                    if status_is_error(status) {
                        let text = status_failure_text(status, url.as_str());
                        (
                            CallFlow { login, stage: CallStage::Failed, url, method, payload },
                            Some(CallAction::Finish(Err(Error::RequestFailed(text)))),
                        )
                    } else {
                        (
                            CallFlow { login, stage: CallStage::Answered, url, method, payload },
                            Some(CallAction::ReadText),
                        )
                    }
                },
                _ => (CallFlow { login, stage, url, method, payload }, None),
            },
            CallStage::Answered => match event {
                Event::Text(Some(text)) => (
                    CallFlow { login, stage: CallStage::Finished, url, method, payload },
                    Some(CallAction::Finish(Ok(text))),
                ),
                Event::Text(None) => (
                    CallFlow { login, stage: CallStage::Failed, url, method, payload },
                    Some(CallAction::Finish(Err(Error::ResponseTextError))),
                ),
                _ => (CallFlow { login, stage, url, method, payload }, None),
            },
            _ => (CallFlow { login, stage, url, method, payload }, None),
        }
    }
}

} // verus!
