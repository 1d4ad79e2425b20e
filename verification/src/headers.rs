//! HTTP header fields, as the `http` types that `axum` re-exports hold them.
use axum::http::{HeaderMap, HeaderName, HeaderValue};
use vstd::prelude::*;
use vstd::utf8::encode_utf8;

verus! {

/// Trusted: the type `http::HeaderMap` is opaque; [`header_fields`] names what it holds.
#[verifier::external_type_specification]
#[verifier::external_body]
#[verifier::reject_recursive_types(T)]
pub struct ExHeaderMap<T>(axum::http::HeaderMap<T>);

/// Trusted: the type `http::HeaderValue` is opaque; [`header_bytes`] names what it holds.
#[verifier::external_type_specification]
#[verifier::external_body]
pub struct ExHeaderValue(axum::http::HeaderValue);

/// What a header map holds: under each lower-case field name that can be looked up its values,
/// oldest first. A name that the map holds has at least one value.
pub uninterp spec fn header_fields(headers: axum::http::HeaderMap) -> Map<Seq<char>, Seq<Seq<u8>>>;

/// The bytes that a header value holds.
pub uninterp spec fn header_bytes(value: axum::http::HeaderValue) -> Seq<u8>;

/// The header map without any field.
pub open spec fn no_fields() -> Map<Seq<char>, Seq<Seq<u8>>> {
    Map::empty()
}

/// ASCII letters in lower case, everything else as it is.
pub open spec fn lower_ascii(s: Seq<char>) -> Seq<char> {
    s.map_values(
        |c: char|
            if 'A' <= c && c <= 'Z' {
                (c as int + 32) as char
            } else {
                c
            },
    )
}

/// A byte that a header value may hold and still be read as text.
pub open spec fn visible(b: u8) -> bool {
    32 <= b < 127 || b == 9
}

/// A byte that a header value may hold at all.
pub open spec fn sendable(b: u8) -> bool {
    (b >= 32 && b != 127) || b == 9
}

/// A header value as text; nothing where some byte of it is not visible ASCII or a tab.
pub open spec fn header_text(bytes: Seq<u8>) -> Option<Seq<char>> {
    if forall|i: int| 0 <= i < bytes.len() ==> visible(#[trigger] bytes[i]) {
        Some(bytes.map_values(|b: u8| b as char))
    } else {
        None
    }
}

/// The text of the first value under a lower-case field name.
pub open spec fn field_text(fields: Map<Seq<char>, Seq<Seq<u8>>>, name: Seq<char>) -> Option<
    Seq<char>,
> {
    if fields.contains_key(name) {
        header_text(fields[name][0])
    } else {
        None
    }
}

/// A field name made of lower-case letters, digits and hyphens, of sixty-four at most.
pub open spec fn plain_name(name: Seq<char>) -> bool {
    &&& 0 < name.len() <= 64
    &&& forall|i: int|
        0 <= i < name.len() ==> {
            let c = #[trigger] name[i];
            'a' <= c <= 'z' || '0' <= c <= '9' || c == '-'
        }
}

/// Trusted: `HeaderMap::get` with a string. Field names are looked up without regard to case,
/// and of several values the oldest is given.
#[verifier::external_body]
fn header_get<'a>(headers: &'a HeaderMap, name: &str) -> (value: Option<&'a HeaderValue>)
    ensures
        match value {
            Some(v) => {
                &&& header_fields(*headers).contains_key(lower_ascii(name@))
                &&& header_bytes(*v) == header_fields(*headers)[lower_ascii(name@)][0]
            },
            None => !header_fields(*headers).contains_key(lower_ascii(name@)),
        },
{
    headers.get(name)
}

/// Trusted: `HeaderValue::to_str`. A value of visible ASCII and tabs is given as text, any other
/// is refused.
#[verifier::external_body]
fn header_to_str<'a>(value: &'a HeaderValue) -> (text: Option<&'a str>)
    ensures
        match text {
            Some(t) => header_text(header_bytes(*value)) == Some(t@),
            None => header_text(header_bytes(*value)) is None,
        },
{
    value.to_str().ok()
}

/// Trusted: `HeaderValue::from_str`. The value holds the UTF-8 bytes of the text; text with a
/// control character other than a tab is refused.
#[verifier::external_body]
pub(crate) fn header_from_str(text: &str) -> (value: Option<HeaderValue>)
    ensures
        match value {
            Some(v) => {
                &&& forall|i: int|
                    0 <= i < encode_utf8(text@).len() ==> sendable(
                        #[trigger] encode_utf8(text@)[i],
                    )
                &&& header_bytes(v) == encode_utf8(text@)
            },
            None => exists|i: int|
                0 <= i < encode_utf8(text@).len() && !sendable(#[trigger] encode_utf8(text@)[i]),
        },
{
    HeaderValue::from_str(text).ok()
}

/// Trusted: `HeaderMap::new` gives a map without fields.
#[verifier::external_body]
pub(crate) fn header_map_new() -> (headers: HeaderMap)
    ensures
        header_fields(headers) == no_fields(),
{
    HeaderMap::new()
}

/// Trusted: `HeaderMap::insert` under a name that `HeaderName::from_static` accepts. The value
/// becomes the only one under that name. A map that is full panics, as does a name in upper
/// case, so the map is asked to be empty and the name to be plain.
#[verifier::external_body]
pub(crate) fn header_map_insert(headers: &mut HeaderMap, name: &'static str, value: HeaderValue)
    requires
        header_fields(*old(headers)) == no_fields(),
        plain_name(name@),
    ensures
        header_fields(*final(headers)) == header_fields(*old(headers)).insert(
            name@,
            seq![header_bytes(value)],
        ),
{
    headers.insert(HeaderName::from_static(name), value);
}

/// Reads a header field as text: its oldest value, where that is visible ASCII.
pub fn header_field<'a>(headers: &'a HeaderMap, name: &str) -> (text: Option<&'a str>)
    ensures
        match text {
            Some(t) => field_text(header_fields(*headers), lower_ascii(name@)) == Some(t@),
            None => field_text(header_fields(*headers), lower_ascii(name@)) is None,
        },
{
    match header_get(headers, name) {
        Some(value) => header_to_str(value),
        None => None,
    }
}

} // verus!
