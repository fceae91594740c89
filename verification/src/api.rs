//! An API operation, as its author describes it.

use crate::auth::{can_carry, view_of, AuthData};
use crate::call_flow::{call_started, CallFlow};
use crate::error::Error;
use crate::json_map::JsonMap;
use crate::login_flow::{login_started, LoginFlow};
use crate::request::{composed, login_body, login_request, unsendable, Method, Request};
use crate::settings::{Settings, SettingsView};
use vstd::prelude::*;

verus! {

/// What an operation is made of, as the contracts see it.
pub struct OperationView {
    pub settings: SettingsView,
    pub endpoint: Seq<char>,
    pub method: Method,
    pub payload: Map<Seq<char>, Seq<char>>,
}

/// One operation of the API. Its author says where the API lives, which
/// path the operation has, which method it takes and what it sends; the
/// provided methods make the login and the call out of that.
///
/// `operation` stands for those four values in the contracts. Each of the
/// four required methods answers for one of them and must return it
/// whenever it is asked: the provided methods are proved on that
/// condition, and nothing here can hold an implementation to it.
///
/// `operation` is never run. An implementation that is not itself
/// verified gives it a body that cannot be reached.
pub trait APIMethod {
    /// The four values of the operation.
    spec fn operation(&self) -> OperationView;

    /// The base URL and the account.
    fn settings(&self) -> (settings: &Settings)
        ensures
            settings@ == self.operation().settings,
    ;

    /// The path of the operation, beginning with a slash.
    fn endpoint(&self) -> (path: &str)
        ensures
            path@ == self.operation().endpoint,
    ;

    /// The method of the operation.
    fn method(&self) -> (method: Method)
        ensures
            method == self.operation().method,
    ;

    /// The body of the operation.
    fn json_payload(&self) -> (body: JsonMap)
        ensures
            body@ == self.operation().payload,
    ;

    /// `uri` written directly behind the base URL of the operation's
    /// settings, with nothing added or taken away between the two.
    fn build_endpoint(&self, uri: &str) -> (url: String)
        ensures
            url@ == self.operation().settings.domain + uri@,
    {
        crate::request::build_endpoint(self.settings().domain(), uri)
    }

    /// Puts a request together, as [`crate::request::request`] does: the
    /// credential headers where `auth_data` is there, none otherwise. It
    /// fails with `RequestFailed` exactly where `auth_data` cannot stand in
    /// headers.
    fn request(&self, endpoint: String, method: Method, json_map: &JsonMap, auth_data: Option<AuthData>) -> (made:
        Result<Request, Error>)
        ensures
            made is Ok == can_carry(view_of(auth_data)),
            made matches Ok(request) ==> request@ == composed(
                endpoint@,
                method,
                json_map@,
                view_of(auth_data),
            ),
            made matches Err(error) ==> error@ == unsendable(),
    {
        crate::request::request(endpoint, method, json_map, auth_data)
    }

    /// The body of the login: the name of the operation's account under
    /// `user` and its password under `password`.
    fn login_payload(&self) -> (body: JsonMap)
        ensures
            body@ == login_body(self.operation().settings),
    {
        crate::request::login_payload(self.settings())
    }

    /// Begins a login with the operation's settings: the flow, and the
    /// request to send first.
    fn login(&self) -> (begun: (LoginFlow, Request))
        ensures
            begun.0@ == login_started(self.operation().settings),
            begun.1@ == login_request(self.operation().settings),
    {
        LoginFlow::start(self.settings())
    }

    /// Begins the call of this operation: the flow, and the login request
    /// to send first. The flow will ask for the operation's own path behind
    /// the base URL, with its method and its body.
    fn call(&self) -> (begun: (CallFlow, Request))
        ensures
            begun.0@ == call_started(
                self.operation().settings,
                self.operation().endpoint,
                self.operation().method,
                self.operation().payload,
            ),
            begun.1@ == login_request(self.operation().settings),
    {
        let payload = self.json_payload();
        let method = self.method();
        CallFlow::start(self.settings(), self.endpoint(), method, payload)
    }
}

} // verus!
