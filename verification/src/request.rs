//! A request as a value: where it goes, how, and what it carries.

use crate::auth::{can_carry, request_headers, view_of, wanted_fields, AuthData, AuthView};
use crate::error::{Error, ErrorView};
use crate::headers::header_fields;
use crate::json_map::JsonMap;
use crate::settings::{Settings, SettingsView};
use reqwest::header::{HeaderMap, HeaderValue};
use vstd::prelude::*;
use vstd::string::StringExecFns;

verus! {

/// The method of a request.
#[derive(Debug, Clone, Copy, PartialEq, Eq, Structural)]
pub enum Method {
    Get,
    Post,
    Put,
    Delete,
    Patch,
    Head,
    Options,
    Connect,
    Trace,
}

/// The name of a method as it stands on the wire.
pub open spec fn method_name(method: Method) -> Seq<char> {
    match method {
        Method::Get => "GET"@,
        Method::Post => "POST"@,
        Method::Put => "PUT"@,
        Method::Delete => "DELETE"@,
        Method::Patch => "PATCH"@,
        Method::Head => "HEAD"@,
        Method::Options => "OPTIONS"@,
        Method::Connect => "CONNECT"@,
        Method::Trace => "TRACE"@,
    }
}

impl Method {
    /// The name of the method, in capitals.
    pub fn as_str(&self) -> (name: &'static str)
        ensures
            name@ == method_name(*self),
    {
        match self {
            Method::Get => "GET",
            Method::Post => "POST",
            Method::Put => "PUT",
            Method::Delete => "DELETE",
            Method::Patch => "PATCH",
            Method::Head => "HEAD",
            Method::Options => "OPTIONS",
            Method::Connect => "CONNECT",
            Method::Trace => "TRACE",
        }
    }
}

/// A [`Request`] as the contracts see it.
pub struct RequestView {
    pub endpoint: Seq<char>,
    pub method: Method,
    pub body: Map<Seq<char>, Seq<char>>,
    pub headers: Map<Seq<char>, Seq<Seq<u8>>>,
}

/// One request, ready to be handed to a transport: the full URL, the
/// method, the members of the JSON body and the header block.
#[derive(Debug)]
pub struct Request {
    pub endpoint: String,
    pub method: Method,
    pub body: JsonMap,
    pub headers: HeaderMap<HeaderValue>,
}

impl View for Request {
    type V = RequestView;

    open spec fn view(&self) -> RequestView {
        RequestView {
            endpoint: self.endpoint@,
            method: self.method,
            body: self.body@,
            headers: header_fields(self.headers),
        }
    }
}

/// The path of the login, behind whatever the base URL is.
pub open spec fn login_path() -> Seq<char> {
    "/api/v1/login"@
}

/// The body of a login: the account's name under `user`, its password
/// under `password`.
pub open spec fn login_body(settings: SettingsView) -> Map<Seq<char>, Seq<char>> {
    Map::<Seq<char>, Seq<char>>::empty().insert("user"@, settings.username).insert(
        "password"@,
        settings.password,
    )
}

/// The request that asks for `endpoint` with `method` and `body`, on behalf
/// of `auth` where there is one.
pub open spec fn composed(
    endpoint: Seq<char>,
    method: Method,
    body: Map<Seq<char>, Seq<char>>,
    auth: Option<AuthView>,
) -> RequestView {
    RequestView { endpoint, method, body, headers: wanted_fields(auth) }
}

/// The request that logs in with `settings`.
pub open spec fn login_request(settings: SettingsView) -> RequestView {
    composed(settings.domain + login_path(), Method::Post, login_body(settings), None)
}

/// `uri` written directly behind `domain`. Nothing is added or taken away
/// between the two, so a `uri` begins with the slash that parts them.
pub fn build_endpoint(domain: &str, uri: &str) -> (url: String)
    ensures
        url@ == domain@ + uri@,
{
    let mut url = String::from_str(domain);
    url.append(uri);
    url
}

/// The body of the login with `settings`.
pub fn login_payload(settings: &Settings) -> (body: JsonMap)
    ensures
        body@ == login_body(settings@),
{
    let mut body = JsonMap::new();
    body.insert("user", settings.username());
    body.insert("password", settings.password());
    body
}

/// What comes of credentials that no header can carry: the request is
/// not made, and fails as a request.
pub open spec fn unsendable() -> ErrorView {
    ErrorView::RequestFailed("failed to parse header value"@)
}

/// Puts a request together: `endpoint` and `method` as given, a copy of
/// `json_map` as the body, and the two credential headers where
/// `auth_data` is there, no header otherwise.
///
/// It fails exactly where `auth_data` holds a text that no header can
/// carry, and then with `RequestFailed`.
pub fn request(endpoint: String, method: Method, json_map: &JsonMap, auth_data: Option<AuthData>) -> (made:
    Result<Request, Error>)
    ensures
        made is Ok == can_carry(view_of(auth_data)),
        made matches Ok(request) ==> request@ == composed(
            endpoint@,
            method,
            json_map@,
            view_of(auth_data),
        ),
        made matches Err(error) ==> error@ == unsendable(),
{
    match request_headers(&auth_data) {
        Some(headers) => Ok(Request { endpoint, method, body: json_map.clone(), headers }),
        None => Err(Error::RequestFailed(String::from_str("failed to parse header value"))),
    }
}

} // verus!
