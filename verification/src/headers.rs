//! The header block of a request, kept in the HTTP client's own collection.
//!
//! The verifier does not look inside that collection. What it holds is
//! named by [`header_fields`]; the few operations used here are stated
//! over that name and taken on trust.

use reqwest::header::{HeaderMap, HeaderName, HeaderValue};
use vstd::prelude::*;
use vstd::utf8::encode_utf8;

verus! {

#[verifier::external_type_specification]
#[verifier::external_body]
#[verifier::reject_recursive_types(T)]
pub struct ExHeaderMap<T>(HeaderMap<T>);

#[verifier::external_type_specification]
#[verifier::external_body]
pub struct ExHeaderValue(HeaderValue);

/// What a header block holds: each header name it has, with the values
/// that stand under that name, in their order, each as its bytes.
pub uninterp spec fn header_fields(headers: HeaderMap<HeaderValue>) -> Map<Seq<char>, Seq<Seq<u8>>>;

/// A block without any header.
pub open spec fn no_fields() -> Map<Seq<char>, Seq<Seq<u8>>> {
    Map::empty()
}

/// The values under a name that carries `text` and nothing else: one
/// value, the bytes of the text.
pub open spec fn single_value(text: Seq<char>) -> Seq<Seq<u8>> {
    seq![encode_utf8(text)]
}

/// A character that may stand in a header value: a tab, or anything from
/// the space upwards but the delete character.
pub open spec fn is_value_char(c: char) -> bool {
    c == '\t' || (' ' <= c && c != '\x7f')
}

/// Text that a header value can carry as it is.
pub open spec fn is_header_text(text: Seq<char>) -> bool {
    forall|i: int| 0 <= i < text.len() ==> is_value_char(#[trigger] text[i])
}

/// A character of the header names that this crate writes: a lower-case
/// letter, a digit or a hyphen.
pub open spec fn is_name_char(c: char) -> bool {
    ('a' <= c <= 'z') || ('0' <= c <= '9') || c == '-'
}

/// A short, non-empty header name made of such characters.
pub open spec fn is_plain_name(name: Seq<char>) -> bool {
    &&& 0 < name.len() <= NAME_LIMIT
    &&& forall|i: int| 0 <= i < name.len() ==> is_name_char(#[trigger] name[i])
}

/// The longest header name that this crate hands to the client.
pub const NAME_LIMIT: usize = 64;

/// The number of names below which a header block takes one more without
/// ever reaching the size at which the client gives up.
pub const ROOM_LIMIT: usize = 1024;

/// `HeaderMap::new`: a block that holds nothing.
#[verifier::external_body]
pub(crate) fn empty_headers() -> (headers: HeaderMap<HeaderValue>)
    ensures
        header_fields(headers) == no_fields(),
{
    HeaderMap::new()
}

/// `HeaderMap::insert`, with the name made by `HeaderName::from_static` and
/// the value by `HeaderValue::from_str`.
///
/// `from_str` takes a text exactly when each of its bytes is a tab or is
/// at least 32 and not 127, which for a `str` comes to [`is_header_text`];
/// the value then holds the text's bytes unchanged. `insert` puts the value
/// under the name in place of every value that stood there, so that the
/// name then has this one value. Where `from_str` refuses the text, nothing
/// is inserted and `false` comes back.
///
/// `from_static` panics on a name that is empty, longer than 65535 bytes or
/// holds a byte outside its table of lower-case name characters, and
/// `insert` panics once the block outgrows 32768 slots: `requires` keeps
/// well inside both.
#[verifier::external_body]
pub(crate) fn put_header(headers: &mut HeaderMap<HeaderValue>, name: &'static str, value: &str) -> (done: bool)
    requires
        is_plain_name(name@),
        header_fields(*old(headers)).dom().finite(),
        header_fields(*old(headers)).dom().len() < ROOM_LIMIT,
    ensures
        done == is_header_text(value@),
        done ==> header_fields(*final(headers)) == header_fields(*old(headers)).insert(
            name@,
            single_value(value@),
        ),
        !done ==> header_fields(*final(headers)) == header_fields(*old(headers)),
{
    match HeaderValue::from_str(value) {
        Ok(value) => {
            headers.insert(HeaderName::from_static(name), value);
            true
        },
        Err(_) => false,
    }
}

} // verus!
