use apicall::{
    APIMethod, AuthData, CallAction, CallFlow, CallStage, Error, Event, JsonMap, LoginAction, LoginFlow,
    LoginStage, Method, OperationView, Request, Settings,
};

/// What a scripted server does with one request.
enum Reply {
    /// The request never arrives.
    Unreachable(&'static str),
    /// The login is answered: a status, and what decoding the body gives.
    Login(u16, Result<AuthData, String>),
    /// The call is answered: a status, and the text of the body if it can be read.
    Text(u16, Option<&'static str>),
}

/// A transport that records what it is asked to send and answers from a script.
struct Spy {
    script: Vec<Reply>,
    seen: Vec<Request>,
    envelope: Option<Result<AuthData, String>>,
    text: Option<Option<&'static str>>,
}

impl Spy {
    fn new(script: Vec<Reply>) -> Spy {
        Spy { script, seen: Vec::new(), envelope: None, text: None }
    }

    fn send(&mut self, request: Request) -> Event {
        self.seen.push(request);
        if self.script.is_empty() {
            panic!("more requests than the script has replies");
        }
        match self.script.remove(0) {
            Reply::Unreachable(why) => Event::Failed(why.to_string()),
            Reply::Login(status, envelope) => {
                self.envelope = Some(envelope);
                Event::Status(status)
            }
            Reply::Text(status, text) => {
                self.text = Some(text);
                Event::Status(status)
            }
        }
    }

    fn decode(&mut self) -> Event {
        Event::Envelope(self.envelope.take().unwrap())
    }

    fn read_text(&mut self) -> Event {
        Event::Text(self.text.take().unwrap().map(|text| text.to_string()))
    }
}

fn drive_login(begun: (LoginFlow, Request), spy: &mut Spy) -> (Result<AuthData, Error>, LoginFlow) {
    let (mut flow, first) = begun;
    let mut event = spy.send(first);
    loop {
        let (next, action) = flow.step(event);
        flow = next;
        match action.unwrap() {
            LoginAction::Decode => event = spy.decode(),
            LoginAction::Finish(result) => return (result, flow),
        }
    }
}

fn drive_call(begun: (CallFlow, Request), spy: &mut Spy) -> (Result<String, Error>, CallFlow) {
    let (mut flow, first) = begun;
    let mut event = spy.send(first);
    loop {
        let (next, action) = flow.step(event);
        flow = next;
        match action.unwrap() {
            CallAction::Send(request) => event = spy.send(request),
            CallAction::Decode => event = spy.decode(),
            CallAction::ReadText => event = spy.read_text(),
            CallAction::Finish(result) => return (result, flow),
        }
    }
}

fn settings() -> Settings {
    Settings::new("http://chat.example".to_string(), "alice".to_string(), "s3cret".to_string())
}

fn auth(user_id: &str, auth_token: &str) -> AuthData {
    AuthData { user_id: user_id.to_string(), auth_token: auth_token.to_string() }
}

fn payload() -> JsonMap {
    let mut body = JsonMap::new();
    body.insert("name", "general");
    body
}

fn begin_call() -> (CallFlow, Request) {
    CallFlow::start(&settings(), "/api/v1/channels.create", Method::Post, payload())
}

struct CreateChannel {
    settings: Settings,
    name: String,
}

impl APIMethod for CreateChannel {
    fn operation(&self) -> OperationView {
        unreachable!()
    }

    fn settings(&self) -> &Settings {
        &self.settings
    }

    fn endpoint(&self) -> &str {
        "/api/v1/channels.create"
    }

    fn method(&self) -> Method {
        Method::Post
    }

    fn json_payload(&self) -> JsonMap {
        let mut body = JsonMap::new();
        body.insert("name", &self.name);
        body
    }
}

fn create_channel() -> CreateChannel {
    CreateChannel { settings: settings(), name: "general".to_string() }
}

#[test]
fn login_request_is_a_post_of_the_account_to_the_login_path() {
    let (flow, first) = LoginFlow::start(&settings());
    assert_eq!(flow.stage(), LoginStage::Sent);
    assert_eq!(flow.url(), "http://chat.example/api/v1/login");
    assert_eq!(first.endpoint, "http://chat.example/api/v1/login");
    assert_eq!(first.method, Method::Post);
    assert_eq!(first.body.len(), 2);
    assert_eq!(first.body.get("user"), Some("alice"));
    assert_eq!(first.body.get("password"), Some("s3cret"));
    assert!(first.headers.is_empty());
}

#[test]
fn login_returns_the_credentials_of_the_answer() {
    let mut spy = Spy::new(vec![Reply::Login(200, Ok(auth("u1", "t1")))]);
    let (result, flow) = drive_login(LoginFlow::start(&settings()), &mut spy);
    assert_eq!(result, Ok(auth("u1", "t1")));
    assert_eq!(flow.stage(), LoginStage::LoggedIn);
    assert_eq!(spy.seen.len(), 1);
}

#[test]
fn login_returns_credentials_for_any_settings() {
    for (domain, user, password) in [("", "", ""), ("https://a.b/", "ü", "p w"), ("x", "y", "z")] {
        let settings = Settings::new(domain.to_string(), user.to_string(), password.to_string());
        let mut spy = Spy::new(vec![Reply::Login(200, Ok(auth("u1", "t1")))]);
        let (result, _) = drive_login(LoginFlow::start(&settings), &mut spy);
        assert_eq!(result, Ok(auth("u1", "t1")));
        assert_eq!(spy.seen[0].endpoint, format!("{}/api/v1/login", domain));
        assert_eq!(spy.seen[0].body.get("user"), Some(user));
        assert_eq!(spy.seen[0].body.get("password"), Some(password));
    }
}

#[test]
fn login_lets_credentials_through_that_no_header_could_carry() {
    let mut spy = Spy::new(vec![Reply::Login(200, Ok(auth("u\n1", "t1")))]);
    let (result, _) = drive_login(LoginFlow::start(&settings()), &mut spy);
    assert_eq!(result, Ok(auth("u\n1", "t1")));
}

#[test]
fn login_answered_with_401_fails_as_a_request() {
    let mut spy = Spy::new(vec![Reply::Login(401, Err("never decoded".to_string()))]);
    let (result, flow) = drive_login(LoginFlow::start(&settings()), &mut spy);
    assert_eq!(
        result,
        Err(Error::RequestFailed(
            "HTTP status client error (401) for url (http://chat.example/api/v1/login)".to_string()
        ))
    );
    assert_eq!(flow.stage(), LoginStage::Failed);
    assert!(spy.envelope.is_some(), "the body of a refused login is not decoded");
}

#[test]
fn login_answered_with_401_and_a_good_body_still_fails() {
    let mut spy = Spy::new(vec![Reply::Login(401, Ok(auth("u1", "t1")))]);
    let (result, _) = drive_login(LoginFlow::start(&settings()), &mut spy);
    assert!(matches!(result, Err(Error::RequestFailed(_))));
}

#[test]
fn login_answered_with_a_malformed_body_fails_as_a_decoding() {
    let complaint = "missing field `authToken` at line 1 column 24";
    let mut spy = Spy::new(vec![Reply::Login(200, Err(complaint.to_string()))]);
    let (result, flow) = drive_login(LoginFlow::start(&settings()), &mut spy);
    assert_eq!(result, Err(Error::JsonDecodeError(complaint.to_string())));
    assert_eq!(flow.stage(), LoginStage::Failed);
}

#[test]
fn login_that_cannot_be_sent_fails_with_the_transport_text() {
    let mut spy = Spy::new(vec![Reply::Unreachable("dns error")]);
    let (result, flow) = drive_login(LoginFlow::start(&settings()), &mut spy);
    assert_eq!(result, Err(Error::RequestFailed("dns error".to_string())));
    assert_eq!(flow.stage(), LoginStage::Failed);
}

#[test]
fn login_takes_redirections_and_unassigned_statuses_as_answers() {
    for status in [100u16, 204, 302, 399, 600, 999] {
        let mut spy = Spy::new(vec![Reply::Login(status, Ok(auth("u1", "t1")))]);
        let (result, _) = drive_login(LoginFlow::start(&settings()), &mut spy);
        assert_eq!(result, Ok(auth("u1", "t1")), "{}", status);
    }
}

#[test]
fn login_refuses_events_it_does_not_wait_for() {
    let (flow, _) = LoginFlow::start(&settings());
    let (flow, action) = flow.step(Event::Envelope(Ok(auth("u1", "t1"))));
    assert!(action.is_none());
    assert_eq!(flow.stage(), LoginStage::Sent);
    let (flow, action) = flow.step(Event::Text(Some("ok".to_string())));
    assert!(action.is_none());
    assert_eq!(flow.stage(), LoginStage::Sent);
    let (flow, action) = flow.step(Event::Status(200));
    assert!(matches!(action, Some(LoginAction::Decode)));
    assert_eq!(flow.stage(), LoginStage::Answered);
    let (flow, action) = flow.step(Event::Status(200));
    assert!(action.is_none());
    let (flow, action) = flow.step(Event::Failed("late".to_string()));
    assert!(action.is_none());
    assert_eq!(flow.stage(), LoginStage::Answered);
    assert_eq!(flow.url(), "http://chat.example/api/v1/login");
}

#[test]
fn login_that_is_over_accepts_nothing() {
    let (flow, _) = LoginFlow::start(&settings());
    let (flow, _) = flow.step(Event::Status(500));
    assert_eq!(flow.stage(), LoginStage::Failed);
    let (flow, action) = flow.step(Event::Status(200));
    assert!(action.is_none());
    let (flow, action) = flow.step(Event::Envelope(Ok(auth("u1", "t1"))));
    assert!(action.is_none());
    assert_eq!(flow.stage(), LoginStage::Failed);

    let (flow, _) = LoginFlow::start(&settings());
    let (flow, _) = flow.step(Event::Status(200));
    let (flow, _) = flow.step(Event::Envelope(Ok(auth("u1", "t1"))));
    assert_eq!(flow.stage(), LoginStage::LoggedIn);
    let (flow, action) = flow.step(Event::Envelope(Ok(auth("u2", "t2"))));
    assert!(action.is_none());
    assert_eq!(flow.stage(), LoginStage::LoggedIn);
}

#[test]
fn call_returns_the_text_of_the_answer() {
    let mut spy = Spy::new(vec![Reply::Login(200, Ok(auth("u1", "t1"))), Reply::Text(200, Some("ok"))]);
    let (result, flow) = drive_call(begin_call(), &mut spy);
    assert_eq!(result, Ok("ok".to_string()));
    assert_eq!(flow.stage(), CallStage::Finished);
    assert_eq!(flow.login_stage(), LoginStage::LoggedIn);
    assert_eq!(spy.seen.len(), 2);
}

#[test]
fn call_returns_the_text_unparsed() {
    let body = "{\"success\": false, \"error\": \"no\"}\n";
    let mut spy = Spy::new(vec![Reply::Login(200, Ok(auth("u1", "t1"))), Reply::Text(201, Some(body))]);
    let (result, _) = drive_call(begin_call(), &mut spy);
    assert_eq!(result, Ok(body.to_string()));
    let mut spy = Spy::new(vec![Reply::Login(200, Ok(auth("u1", "t1"))), Reply::Text(200, Some(""))]);
    let (result, _) = drive_call(begin_call(), &mut spy);
    assert_eq!(result, Ok(String::new()));
}

#[test]
fn call_sends_the_login_first_and_then_the_operation() {
    let mut spy = Spy::new(vec![Reply::Login(200, Ok(auth("u1", "t1"))), Reply::Text(200, Some("ok"))]);
    let (flow, first) = begin_call();
    assert_eq!(flow.stage(), CallStage::Login);
    assert_eq!(flow.login_stage(), LoginStage::Sent);
    assert_eq!(flow.url(), "http://chat.example/api/v1/channels.create");
    drive_call((flow, first), &mut spy);
    let login = &spy.seen[0];
    assert_eq!(login.endpoint, "http://chat.example/api/v1/login");
    assert_eq!(login.method, Method::Post);
    assert_eq!(login.body.get("user"), Some("alice"));
    assert_eq!(login.body.get("password"), Some("s3cret"));
    assert!(login.headers.is_empty());
    let target = &spy.seen[1];
    assert_eq!(target.endpoint, "http://chat.example/api/v1/channels.create");
    assert_eq!(target.method, Method::Post);
    assert_eq!(target.body.members(), vec![("name".to_string(), "general".to_string())]);
}

#[test]
fn call_carries_the_credentials_of_the_login_answer() {
    let mut spy = Spy::new(vec![
        Reply::Login(200, Ok(auth("user-17", "token-abc"))),
        Reply::Text(200, Some("ok")),
    ]);
    drive_call(begin_call(), &mut spy);
    let headers = &spy.seen[1].headers;
    assert_eq!(headers.len(), 2);
    assert_eq!(headers.get("x-auth-token").unwrap().as_bytes(), b"token-abc");
    assert_eq!(headers.get("x-user-id").unwrap().as_bytes(), b"user-17");
}

#[test]
fn call_answered_with_500_fails_and_names_the_call() {
    let mut spy = Spy::new(vec![Reply::Login(200, Ok(auth("u1", "t1"))), Reply::Text(500, Some("oops"))]);
    let (result, flow) = drive_call(begin_call(), &mut spy);
    assert_eq!(
        result,
        Err(Error::RequestFailed(
            "HTTP status server error (500) for url (http://chat.example/api/v1/channels.create)".to_string()
        ))
    );
    assert_eq!(flow.stage(), CallStage::Failed);
    assert_eq!(flow.login_stage(), LoginStage::LoggedIn);
    assert_eq!(spy.seen.len(), 2);
    assert!(spy.text.is_some(), "the body of a refused call is not read");
}

#[test]
fn call_that_cannot_be_sent_fails_with_the_transport_text() {
    let mut spy = Spy::new(vec![Reply::Login(200, Ok(auth("u1", "t1"))), Reply::Unreachable("reset")]);
    let (result, flow) = drive_call(begin_call(), &mut spy);
    assert_eq!(result, Err(Error::RequestFailed("reset".to_string())));
    assert_eq!(flow.stage(), CallStage::Failed);
}

#[test]
fn call_whose_answer_cannot_be_read_fails_without_a_text() {
    let mut spy = Spy::new(vec![Reply::Login(200, Ok(auth("u1", "t1"))), Reply::Text(200, None)]);
    let (result, flow) = drive_call(begin_call(), &mut spy);
    assert_eq!(result, Err(Error::ResponseTextError));
    assert_eq!(flow.stage(), CallStage::Failed);
}

#[test]
fn call_is_not_attempted_when_the_login_is_refused() {
    let mut spy = Spy::new(vec![Reply::Login(401, Err("never decoded".to_string()))]);
    let (result, flow) = drive_call(begin_call(), &mut spy);
    assert_eq!(
        result,
        Err(Error::RequestFailed(
            "HTTP status client error (401) for url (http://chat.example/api/v1/login)".to_string()
        ))
    );
    assert_eq!(spy.seen.len(), 1);
    assert_eq!(spy.seen[0].endpoint, "http://chat.example/api/v1/login");
    assert_eq!(flow.stage(), CallStage::Login);
    assert_eq!(flow.login_stage(), LoginStage::Failed);
}

#[test]
fn call_is_not_attempted_when_the_login_cannot_be_sent() {
    let mut spy = Spy::new(vec![Reply::Unreachable("dns error")]);
    let (result, _) = drive_call(begin_call(), &mut spy);
    assert_eq!(result, Err(Error::RequestFailed("dns error".to_string())));
    assert_eq!(spy.seen.len(), 1);
}

#[test]
fn call_is_not_attempted_when_the_login_answer_is_malformed() {
    let mut spy = Spy::new(vec![Reply::Login(200, Err("missing field `authToken`".to_string()))]);
    let (result, _) = drive_call(begin_call(), &mut spy);
    assert_eq!(result, Err(Error::JsonDecodeError("missing field `authToken`".to_string())));
    assert_eq!(spy.seen.len(), 1);
}

#[test]
fn call_that_failed_at_login_accepts_nothing_more() {
    let (flow, _) = begin_call();
    let (flow, action) = flow.step(Event::Status(403));
    assert!(matches!(action, Some(CallAction::Finish(Err(Error::RequestFailed(_))))));
    for event in [
        Event::Status(200),
        Event::Envelope(Ok(auth("u1", "t1"))),
        Event::Text(Some("ok".to_string())),
        Event::Failed("x".to_string()),
    ] {
        let (same, action) = CallFlow::start(&settings(), "/p", Method::Get, JsonMap::new()).0.step(Event::Status(403)).0.step(event);
        assert!(action.is_none());
        assert_eq!(same.stage(), CallStage::Login);
        assert_eq!(same.login_stage(), LoginStage::Failed);
    }
    assert_eq!(flow.stage(), CallStage::Login);
}

#[test]
fn call_with_credentials_that_no_header_can_carry_fails_unsent() {
    let mut spy = Spy::new(vec![Reply::Login(200, Ok(auth("u1", "a\nb")))]);
    let (result, flow) = drive_call(begin_call(), &mut spy);
    assert_eq!(result, Err(Error::RequestFailed("failed to parse header value".to_string())));
    assert_eq!(spy.seen.len(), 1);
    assert_eq!(spy.seen[0].endpoint, "http://chat.example/api/v1/login");
    assert_eq!(flow.stage(), CallStage::Unsendable);
    assert_eq!(flow.login_stage(), LoginStage::LoggedIn);
    let (flow, action) = flow.step(Event::Envelope(Ok(auth("u1", "t1"))));
    assert!(action.is_none());
    let (flow, action) = flow.step(Event::Status(200));
    assert!(action.is_none());
    assert_eq!(flow.stage(), CallStage::Unsendable);
}

#[test]
fn call_with_a_user_identifier_that_no_header_can_carry_fails_unsent() {
    let mut spy = Spy::new(vec![Reply::Login(200, Ok(auth("u\r1", "t1")))]);
    let (result, _) = drive_call(begin_call(), &mut spy);
    assert_eq!(result, Err(Error::RequestFailed("failed to parse header value".to_string())));
    assert_eq!(spy.seen.len(), 1);
}

#[test]
fn call_fails_at_login_exactly_as_the_login_alone_does() {
    let scripts: Vec<fn() -> Reply> = vec![
        || Reply::Unreachable("dns error"),
        || Reply::Login(401, Err("never decoded".to_string())),
        || Reply::Login(503, Ok(AuthData { user_id: "u1".to_string(), auth_token: "t1".to_string() })),
        || Reply::Login(200, Err("missing field `data`".to_string())),
    ];
    for script in scripts {
        let operation = create_channel();
        let mut alone = Spy::new(vec![script()]);
        let (login_result, _) = drive_login(operation.login(), &mut alone);
        let mut within = Spy::new(vec![script()]);
        let (call_result, _) = drive_call(operation.call(), &mut within);
        assert!(login_result.is_err());
        assert_eq!(call_result.err(), login_result.err());
        assert_eq!(within.seen.len(), 1);
    }
}

#[test]
fn call_refuses_events_it_does_not_wait_for() {
    let (flow, _) = begin_call();
    let (flow, action) = flow.step(Event::Text(Some("ok".to_string())));
    assert!(action.is_none());
    let (flow, _) = flow.step(Event::Status(200));
    let (flow, _) = flow.step(Event::Envelope(Ok(auth("u1", "t1"))));
    let (flow, action) = flow.step(Event::Envelope(Ok(auth("u2", "t2"))));
    assert!(action.is_none());
    let (flow, action) = flow.step(Event::Text(Some("early".to_string())));
    assert!(action.is_none());
    assert_eq!(flow.stage(), CallStage::Sent);
    let (flow, action) = flow.step(Event::Status(200));
    assert!(matches!(action, Some(CallAction::ReadText)));
    let (flow, action) = flow.step(Event::Status(200));
    assert!(action.is_none());
    let (flow, action) = flow.step(Event::Failed("late".to_string()));
    assert!(action.is_none());
    assert_eq!(flow.stage(), CallStage::Answered);
    let (flow, action) = flow.step(Event::Text(Some("ok".to_string())));
    assert!(matches!(action, Some(CallAction::Finish(Ok(_)))));
    let (flow, action) = flow.step(Event::Text(Some("again".to_string())));
    assert!(action.is_none());
    assert_eq!(flow.stage(), CallStage::Finished);
}

#[test]
fn operation_builds_its_endpoint_behind_the_domain() {
    let operation = create_channel();
    assert_eq!(operation.build_endpoint("/api/v1/login"), "http://chat.example/api/v1/login");
    assert_eq!(operation.build_endpoint(operation.endpoint()), "http://chat.example/api/v1/channels.create");
}

#[test]
fn operation_builds_the_login_payload_of_its_settings() {
    let body = create_channel().login_payload();
    assert_eq!(body.len(), 2);
    assert_eq!(body.get("user"), Some("alice"));
    assert_eq!(body.get("password"), Some("s3cret"));
}

#[test]
fn operation_puts_requests_together() {
    let operation = create_channel();
    let body = operation.json_payload();
    let plain = operation.request("http://h/p".to_string(), Method::Put, &body, None).unwrap();
    assert_eq!(plain.endpoint, "http://h/p");
    assert_eq!(plain.method, Method::Put);
    assert_eq!(plain.body.get("name"), Some("general"));
    assert!(plain.headers.is_empty());
    let signed = operation.request("http://h/p".to_string(), Method::Put, &body, Some(auth("u1", "t1"))).unwrap();
    assert_eq!(signed.headers.get("x-auth-token").unwrap().as_bytes(), b"t1");
    assert_eq!(signed.headers.get("x-user-id").unwrap().as_bytes(), b"u1");
    assert_eq!(
        operation.request("http://h/p".to_string(), Method::Put, &body, Some(auth("u1", "\0"))).err(),
        Some(Error::RequestFailed("failed to parse header value".to_string()))
    );
}

#[test]
fn operation_logs_in() {
    let mut spy = Spy::new(vec![Reply::Login(200, Ok(auth("u1", "t1")))]);
    let (result, _) = drive_login(create_channel().login(), &mut spy);
    assert_eq!(result, Ok(auth("u1", "t1")));
    assert_eq!(spy.seen[0].endpoint, "http://chat.example/api/v1/login");
    assert_eq!(spy.seen[0].method, Method::Post);
}

#[test]
fn operation_is_called_with_its_own_path_method_and_payload() {
    let mut spy = Spy::new(vec![Reply::Login(200, Ok(auth("u1", "t1"))), Reply::Text(200, Some("ok"))]);
    let (result, _) = drive_call(create_channel().call(), &mut spy);
    assert_eq!(result, Ok("ok".to_string()));
    assert_eq!(spy.seen.len(), 2);
    assert_eq!(spy.seen[1].endpoint, "http://chat.example/api/v1/channels.create");
    assert_eq!(spy.seen[1].method, Method::Post);
    assert_eq!(spy.seen[1].body.get("name"), Some("general"));
    assert_eq!(spy.seen[1].headers.get("x-auth-token").unwrap().as_bytes(), b"t1");
    assert_eq!(spy.seen[1].headers.get("x-user-id").unwrap().as_bytes(), b"u1");
}

#[test]
fn every_call_logs_in_anew() {
    let operation = create_channel();
    let mut spy = Spy::new(vec![
        Reply::Login(200, Ok(auth("u1", "t1"))),
        Reply::Text(200, Some("first")),
        Reply::Login(200, Ok(auth("u1", "t2"))),
        Reply::Text(200, Some("second")),
    ]);
    assert_eq!(drive_call(operation.call(), &mut spy).0, Ok("first".to_string()));
    assert_eq!(drive_call(operation.call(), &mut spy).0, Ok("second".to_string()));
    assert_eq!(spy.seen.len(), 4);
    assert_eq!(spy.seen[2].endpoint, "http://chat.example/api/v1/login");
    assert_eq!(spy.seen[1].headers.get("x-auth-token").unwrap().as_bytes(), b"t1");
    assert_eq!(spy.seen[3].headers.get("x-auth-token").unwrap().as_bytes(), b"t2");
}
