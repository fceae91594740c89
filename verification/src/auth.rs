//! What a login yields, and the two headers that carry it.

use crate::headers::{empty_headers, header_fields, is_header_text, no_fields, put_header, single_value};
use reqwest::header::{HeaderMap, HeaderValue};
use vstd::prelude::*;

verus! {

/// The two texts of an [`AuthData`] value.
pub struct AuthView {
    pub user_id: Seq<char>,
    pub auth_token: Seq<char>,
}

/// The user's identifier and the session token that a login returned.
#[derive(Debug, PartialEq, Eq)]
pub struct AuthData {
    pub user_id: String,
    pub auth_token: String,
}

impl View for AuthData {
    type V = AuthView;

    open spec fn view(&self) -> AuthView {
        AuthView { user_id: self.user_id@, auth_token: self.auth_token@ }
    }
}

impl Clone for AuthData {
    fn clone(&self) -> (copy: AuthData)
        ensures
            copy@ == self@,
    {
        AuthData { user_id: self.user_id.clone(), auth_token: self.auth_token.clone() }
    }
}

/// The name of the header that carries the session token.
pub open spec fn token_header() -> Seq<char> {
    "x-auth-token"@
}

/// The name of the header that carries the user's identifier.
pub open spec fn user_header() -> Seq<char> {
    "x-user-id"@
}

/// Both texts can stand in a header as they are.
pub open spec fn header_safe(auth: AuthView) -> bool {
    is_header_text(auth.auth_token) && is_header_text(auth.user_id)
}

/// The headers of a request made on behalf of `auth`: the token and the
/// user's identifier, each once and byte for byte, and nothing else.
pub open spec fn auth_fields(auth: AuthView) -> Map<Seq<char>, Seq<Seq<u8>>> {
    no_fields().insert(token_header(), single_value(auth.auth_token)).insert(
        user_header(),
        single_value(auth.user_id),
    )
}

/// The headers of a request: those of `auth` where there is one, none
/// otherwise.
pub open spec fn wanted_fields(auth: Option<AuthView>) -> Map<Seq<char>, Seq<Seq<u8>>> {
    match auth {
        Some(auth) => auth_fields(auth),
        None => no_fields(),
    }
}

/// Whether headers can be made for `auth`.
pub open spec fn can_carry(auth: Option<AuthView>) -> bool {
    match auth {
        Some(auth) => header_safe(auth),
        None => true,
    }
}

/// The view of an optional [`AuthData`].
pub open spec fn view_of(auth: Option<AuthData>) -> Option<AuthView> {
    match auth {
        Some(auth) => Some(auth@),
        None => None,
    }
}

impl AuthData {
    /// Whether the token and the identifier can be sent as header values.
    /// A text with a control character other than the tab cannot.
    pub fn is_header_safe(&self) -> (safe: bool)
        ensures
            safe == header_safe(self@),
    {
        auth_headers(self).is_some()
    }
}

/// The header block that authenticates a request as `auth`, or `None` where
/// the token or the identifier cannot stand in a header.
pub fn auth_headers(auth: &AuthData) -> (made: Option<HeaderMap<HeaderValue>>)
    ensures
        made is Some == header_safe(auth@),
        made matches Some(headers) ==> header_fields(headers) == auth_fields(auth@),
{
    let mut headers = empty_headers();
    proof {
        reveal_strlit("x-auth-token");
        reveal_strlit("x-user-id");
    }
    if !put_header(&mut headers, "x-auth-token", auth.auth_token.as_str()) {
        return None;
    }
    if !put_header(&mut headers, "x-user-id", auth.user_id.as_str()) {
        return None;
    }
    Some(headers)
}

/// The header block of a request: that of `auth` where there is one, an
/// empty block otherwise. `None` where `auth` cannot stand in headers.
pub fn request_headers(auth: &Option<AuthData>) -> (made: Option<HeaderMap<HeaderValue>>)
    ensures
        made is Some == can_carry(view_of(*auth)),
        made matches Some(headers) ==> header_fields(headers) == wanted_fields(view_of(*auth)),
{
    match auth {
        Some(auth) => auth_headers(auth),
        None => Some(empty_headers()),
    }
}

} // verus!
