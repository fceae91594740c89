//! What holds of every login and every call, whatever the transport
//! reports and in whatever order.

use crate::auth::{auth_fields, header_safe, token_header, user_header, AuthView};
use crate::call_flow::{call_react, call_started, target_request, CallActionView, CallFlowView, CallStage};
use crate::error::ErrorView;
use crate::login_flow::{login_react, login_started, EventView, LoginActionView, LoginFlowView, LoginStage};
use crate::headers::no_fields;
use crate::request::{login_body, login_path, login_request, unsendable, Method, RequestView};
use crate::settings::SettingsView;
use crate::status::{class_text, decimal, is_error_status, status_failure};
use vstd::prelude::*;
use vstd::utf8::encode_utf8;

verus! {

/// Where a call stands after a number of events: the flow, the requests it
/// has asked to be sent since it began (the login request, which opens
/// every call, is not among them), and the result if it has given one.
pub struct Trace {
    pub flow: CallFlowView,
    pub sent: Seq<RequestView>,
    pub result: Option<Result<Seq<char>, ErrorView>>,
}

/// One more event.
pub open spec fn advance(before: Trace, event: EventView) -> Trace {
    match call_react(before.flow, event) {
        Some((flow, CallActionView::Send(request))) => Trace { flow, sent: before.sent.push(request), ..before },
        Some((flow, CallActionView::Finish(result))) => Trace { flow, result: Some(result), ..before },
        Some((flow, _)) => Trace { flow, ..before },
        None => before,
    }
}

/// A call driven from `start` through `events`, in order, refused events
/// counting for nothing.
pub open spec fn run(start: CallFlowView, events: Seq<EventView>) -> Trace
    decreases events.len(),
{
    if events.len() == 0 {
        Trace { flow: start, sent: Seq::empty(), result: None }
    } else {
        advance(run(start, events.drop_last()), events.last())
    }
}

/// The login of the call has failed.
pub open spec fn login_failed(flow: CallFlowView) -> bool {
    flow.login.stage == LoginStage::Failed
}

/// The error is one that a login gives.
pub open spec fn is_login_error(error: ErrorView) -> bool {
    error is RequestFailed || error is JsonDecodeError
}

/// The result is a failure with one of the login's errors.
pub open spec fn is_login_failure(result: Option<Result<Seq<char>, ErrorView>>) -> bool {
    match result {
        Some(Err(error)) => is_login_error(error),
        _ => false,
    }
}

/// What ties a trace to the call it began as.
pub open spec fn trace_fits(start: CallFlowView, events: Seq<EventView>, trace: Trace) -> bool {
    &&& trace.flow.url == start.url
    &&& trace.flow.method == start.method
    &&& trace.flow.body == start.body
    &&& trace.flow.login.url == start.login.url
    &&& trace.sent.len() <= 1
    &&& trace.flow.stage == CallStage::Login || trace.flow.stage == CallStage::Unsendable
        <==> trace.sent.len() == 0
    &&& trace.flow.stage == CallStage::Login <==> trace.flow.login.stage != LoginStage::LoggedIn
    &&& trace.flow.stage == CallStage::Unsendable ==> trace.result == Some(
        Err::<Seq<char>, ErrorView>(unsendable()),
    )
    &&& trace.sent.len() == 1 ==> exists|at: int, auth: AuthView|
        0 <= at < events.len() && header_safe(auth) && #[trigger] events[at] == EventView::Envelope(Ok(auth))
            && trace.sent[0] == #[trigger] target_request(start, auth)
    &&& login_failed(trace.flow) ==> is_login_failure(trace.result)
    &&& trace.result is Some <==> login_failed(trace.flow) || trace.flow.stage == CallStage::Unsendable
        || trace.flow.stage == CallStage::Failed || trace.flow.stage == CallStage::Finished
}

/// A call asks for at most one request beyond its login request, and only
/// after the login has given credentials: a call whose login is still
/// under way or has failed has asked for none, and neither has one whose
/// login gave credentials that no header can carry. The one request it
/// asks for is the call itself, with the credentials of a decoded login
/// answer that was reported to it. A failed login leaves the call with one
/// of the login's errors as its result, unusable credentials leave it with
/// `RequestFailed`.
pub proof fn law_no_call_without_login(
    settings: SettingsView,
    path: Seq<char>,
    method: Method,
    body: Map<Seq<char>, Seq<char>>,
    events: Seq<EventView>,
)
    ensures
        trace_fits(
            call_started(settings, path, method, body),
            events,
            run(call_started(settings, path, method, body), events),
        ),
    decreases events.len(),
{
    let start = call_started(settings, path, method, body);
    if events.len() > 0 {
        let earlier = events.drop_last();
        law_no_call_without_login(settings, path, method, body, earlier);
        let before = run(start, earlier);
        let after = run(start, events);
        assert(after == advance(before, events.last()));
        if before.sent.len() == 1 {
            let (at, auth) = choose|at: int, auth: AuthView|
                0 <= at < earlier.len() && header_safe(auth) && #[trigger] earlier[at] == EventView::Envelope(
                    Ok(auth),
                ) && before.sent[0] == #[trigger] target_request(start, auth);
            assert(events[at] == EventView::Envelope(Ok(auth)));
            assert(after.sent[0] == target_request(start, auth));
        } else if after.sent.len() == 1 {
            let at = events.len() - 1;
            let auth = events.last()->Envelope_0->Ok_0;
            assert(events[at] == EventView::Envelope(Ok(auth)));
            assert(after.sent[0] == target_request(start, auth));
        }
    }
}

/// If the login of a call fails, the call asks for no request at all: of
/// the whole call, only the login request was ever handed out.
pub proof fn law_failed_login_sends_nothing(
    settings: SettingsView,
    path: Seq<char>,
    method: Method,
    body: Map<Seq<char>, Seq<char>>,
    events: Seq<EventView>,
)
    requires
        login_failed(run(call_started(settings, path, method, body), events).flow),
    ensures
        run(call_started(settings, path, method, body), events).sent == Seq::<RequestView>::empty(),
        is_login_failure(run(call_started(settings, path, method, body), events).result),
{
    law_no_call_without_login(settings, path, method, body, events);
    let trace = run(call_started(settings, path, method, body), events);
    assert(trace.sent =~= Seq::<RequestView>::empty());
}

/// The request of a call carries two headers and no other, each exactly
/// once: the token of the login answer under `x-auth-token` and its user
/// identifier under `x-user-id`, byte for byte.
pub proof fn law_call_carries_credentials(flow: CallFlowView, auth: AuthView)
    ensures
        target_request(flow, auth).headers == auth_fields(auth),
        auth_fields(auth).dom() == set![token_header(), user_header()],
        auth_fields(auth)[token_header()] == seq![encode_utf8(auth.auth_token)],
        auth_fields(auth)[user_header()] == seq![encode_utf8(auth.user_id)],
        target_request(flow, auth).endpoint == flow.url,
        target_request(flow, auth).method == flow.method,
        target_request(flow, auth).body == flow.body,
{
    reveal_strlit("x-auth-token");
    reveal_strlit("x-user-id");
    assert(token_header().len() != user_header().len());
    assert(auth_fields(auth).dom() =~= set![token_header(), user_header()]);
}

/// The flow of a login whose status was accepted.
pub open spec fn login_answered(settings: SettingsView) -> LoginFlowView {
    LoginFlowView { stage: LoginStage::Answered, ..login_started(settings) }
}

/// A login whose request is answered with a status outside the error
/// classes and whose body decodes to credentials returns those
/// credentials, whatever the settings.
pub proof fn law_login_returns_credentials(settings: SettingsView, status: u16, auth: AuthView)
    requires
        !is_error_status(status),
    ensures
        login_react(login_started(settings), EventView::Status(status)) == Some(
            (login_answered(settings), LoginActionView::Decode),
        ),
        login_react(login_answered(settings), EventView::Envelope(Ok(auth))) == Some(
            (
                LoginFlowView { stage: LoginStage::LoggedIn, ..login_started(settings) },
                LoginActionView::Finish(Ok(auth)),
            ),
        ),
{
}

/// A login whose request is answered with a status of the error classes
/// fails with `RequestFailed`, and the text names the status and the login
/// URL. The body is never asked for, so no decoding error can come of it.
pub proof fn law_login_refused_by_status(settings: SettingsView, status: u16)
    requires
        is_error_status(status),
    ensures
        login_react(login_started(settings), EventView::Status(status)) == Some(
            (
                LoginFlowView { stage: LoginStage::Failed, ..login_started(settings) },
                LoginActionView::Finish(
                    Err(ErrorView::RequestFailed(status_failure(status, settings.domain + login_path()))),
                ),
            ),
        ),
{
}

/// A login whose body does not decode fails with `JsonDecodeError` and the
/// decoder's text.
pub proof fn law_login_undecodable(settings: SettingsView, complaint: Seq<char>)
    ensures
        login_react(login_answered(settings), EventView::Envelope(Err(complaint))) == Some(
            (
                LoginFlowView { stage: LoginStage::Failed, ..login_started(settings) },
                LoginActionView::Finish(Err(ErrorView::JsonDecodeError(complaint))),
            ),
        ),
{
}

proof fn lemma_run_push(start: CallFlowView, events: Seq<EventView>, event: EventView)
    ensures
        run(start, events.push(event)) == advance(run(start, events), event),
{
    assert(events.push(event).drop_last() =~= events);
}

/// The events of a call whose login succeeds with `auth`.
pub open spec fn logged_in_with(status: u16, auth: AuthView) -> Seq<EventView> {
    seq![EventView::Status(status), EventView::Envelope(Ok(auth))]
}

proof fn lemma_logged_in(start: CallFlowView, status: u16, auth: AuthView)
    requires
        start.stage == CallStage::Login,
        start.login.stage == LoginStage::Sent,
        !is_error_status(status),
        header_safe(auth),
    ensures
        run(start, logged_in_with(status, auth)).flow == (CallFlowView {
            login: LoginFlowView { stage: LoginStage::LoggedIn, ..start.login },
            stage: CallStage::Sent,
            ..start
        }),
        run(start, logged_in_with(status, auth)).sent == seq![target_request(start, auth)],
        run(start, logged_in_with(status, auth)).result is None,
{
    let none = Seq::<EventView>::empty();
    let first = none.push(EventView::Status(status));
    lemma_run_push(start, none, EventView::Status(status));
    lemma_run_push(start, first, EventView::Envelope(Ok(auth)));
    assert(logged_in_with(status, auth) =~= first.push(EventView::Envelope(Ok(auth))));
    assert(run(start, logged_in_with(status, auth)).sent =~= seq![target_request(start, auth)]);
}

/// A call whose login succeeds and whose own request is answered with a
/// status outside the error classes returns the text of that answer, as it
/// is.
pub proof fn law_call_returns_text(
    settings: SettingsView,
    path: Seq<char>,
    method: Method,
    body: Map<Seq<char>, Seq<char>>,
    login_status: u16,
    auth: AuthView,
    status: u16,
    text: Seq<char>,
)
    requires
        !is_error_status(login_status),
        header_safe(auth),
        !is_error_status(status),
    ensures
        run(
            call_started(settings, path, method, body),
            logged_in_with(login_status, auth).push(EventView::Status(status)).push(
                EventView::Text(Some(text)),
            ),
        ).result == Some(Ok::<Seq<char>, ErrorView>(text)),
{
    let start = call_started(settings, path, method, body);
    let logged_in = logged_in_with(login_status, auth);
    lemma_logged_in(start, login_status, auth);
    lemma_run_push(start, logged_in, EventView::Status(status));
    lemma_run_push(start, logged_in.push(EventView::Status(status)), EventView::Text(Some(text)));
}

/// A call whose login succeeds and whose own request is answered with a
/// status of the error classes fails with `RequestFailed`, and the text
/// names that status and the URL of the call, not that of the login.
pub proof fn law_call_refused_by_status(
    settings: SettingsView,
    path: Seq<char>,
    method: Method,
    body: Map<Seq<char>, Seq<char>>,
    login_status: u16,
    auth: AuthView,
    status: u16,
)
    requires
        !is_error_status(login_status),
        header_safe(auth),
        is_error_status(status),
    ensures
        run(
            call_started(settings, path, method, body),
            logged_in_with(login_status, auth).push(EventView::Status(status)),
        ).result == Some(
            Err::<Seq<char>, ErrorView>(
                ErrorView::RequestFailed(status_failure(status, settings.domain + path)),
            ),
        ),
        path != login_path() ==> status_failure(status, settings.domain + path) != status_failure(
            status,
            settings.domain + login_path(),
        ),
{
    let start = call_started(settings, path, method, body);
    let logged_in = logged_in_with(login_status, auth);
    lemma_logged_in(start, login_status, auth);
    lemma_run_push(start, logged_in, EventView::Status(status));
    if path != login_path() {
        law_failure_names_url(status, settings.domain + path, settings.domain + login_path());
        if settings.domain + path == settings.domain + login_path() {
            let whole = settings.domain + path;
            let skip = settings.domain.len() as int;
            assert(path =~= whole.subrange(skip, whole.len() as int));
            assert(login_path() =~= whole.subrange(skip, whole.len() as int));
        }
    }
}

/// The text of a failure by status tells the URL: two requests that failed
/// with the same status have the same text only if they asked the same URL.
pub proof fn law_failure_names_url(status: u16, first: Seq<char>, second: Seq<char>)
    ensures
        status_failure(status, first) == status_failure(status, second) ==> first == second,
{
    let a = status_failure(status, first);
    let b = status_failure(status, second);
    if a == b {
        let head = class_text(status) + " ("@ + decimal(status as nat) + ") for url ("@;
        let lead = head.len() as int;
        assert(a == head + first + ")"@);
        assert(b == head + second + ")"@);
        assert(a.len() == b.len());
        assert(first =~= a.subrange(lead, lead + first.len()));
        assert(second =~= b.subrange(lead, lead + second.len()));
    }
}

/// The body of a login has two members and no other: the account's name
/// under `user` and its password under `password`.
pub proof fn law_login_body(settings: SettingsView)
    ensures
        login_body(settings).dom() == set!["user"@, "password"@],
        login_body(settings)["user"@] == settings.username,
        login_body(settings)["password"@] == settings.password,
        login_request(settings).body == login_body(settings),
        login_request(settings).method == Method::Post,
        login_request(settings).endpoint == settings.domain + login_path(),
        login_request(settings).headers == no_fields(),
{
    reveal_strlit("user");
    reveal_strlit("password");
    assert("user"@.len() != "password"@.len());
    assert(login_body(settings).dom() =~= set!["user"@, "password"@]);
}

/// A call begins with the very login that a login alone would be, and
/// whatever error that login ends with is the error of the call: the same
/// kind with the same text, nothing wrapped round it.
pub proof fn law_call_passes_login_errors_on(
    settings: SettingsView,
    path: Seq<char>,
    method: Method,
    body: Map<Seq<char>, Seq<char>>,
    flow: CallFlowView,
    event: EventView,
    error: ErrorView,
)
    requires
        flow.stage == CallStage::Login,
        login_react(flow.login, event) matches Some((_, action)) && action == LoginActionView::Finish(
            Err(error),
        ),
    ensures
        call_started(settings, path, method, body).login == login_started(settings),
        call_react(flow, event) matches Some((after, action)) && after.stage == CallStage::Login
            && login_failed(after) && action == CallActionView::Finish(Err(error)),
{
}

/// Credentials that no header can carry end the call with `RequestFailed`
/// before anything more is sent.
pub proof fn law_unusable_credentials_fail_the_call(flow: CallFlowView, auth: AuthView)
    requires
        flow.stage == CallStage::Login,
        flow.login.stage == LoginStage::Answered,
        !header_safe(auth),
    ensures
        call_react(flow, EventView::Envelope(Ok(auth))) matches Some((after, action)) && after.stage
            == CallStage::Unsendable && action == CallActionView::Finish(Err(unsendable())),
{
}

} // verus!
