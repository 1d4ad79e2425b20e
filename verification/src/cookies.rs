//! The encrypted session cookie.
use crate::headers::header_fields;
use crate::text::{found, maybe};
use axum::http::HeaderMap;
use axum_extra::extract::cookie::{Key, PrivateCookieJar};
use vstd::prelude::*;

verus! {

/// Trusted: the type `cookie::Key` is opaque.
#[verifier::external_type_specification]
#[verifier::external_body]
pub struct ExKey(axum_extra::extract::cookie::Key);

/// Trusted: the type `axum_extra::extract::cookie::PrivateCookieJar` is opaque; [`jar_cookies`]
/// names what it holds.
#[verifier::external_type_specification]
#[verifier::external_body]
#[verifier::reject_recursive_types(K)]
pub struct ExPrivateCookieJar<K>(axum_extra::extract::cookie::PrivateCookieJar<K>);

/// The decrypted cookies of a jar, by name.
pub uninterp spec fn jar_cookies(
    jar: axum_extra::extract::cookie::PrivateCookieJar,
) -> Map<Seq<char>, Seq<char>>;

/// The cookies that the values of the `Cookie` field hold under a key: those that are
/// authentic, decrypted, by name.
pub uninterp spec fn private_cookies(values: Seq<Seq<u8>>, key: Seq<u8>) -> Map<
    Seq<char>,
    Seq<char>,
>;

/// The values of the `Cookie` field.
pub open spec fn cookie_values(fields: Map<Seq<char>, Seq<Seq<u8>>>) -> Seq<Seq<u8>> {
    if fields.contains_key("cookie"@) {
        fields["cookie"@]
    } else {
        seq![]
    }
}

/// The text of the session cookie of a request.
pub open spec fn session_cookie_in(
    fields: Map<Seq<char>, Seq<Seq<u8>>>,
    key: Seq<u8>,
) -> Option<Seq<char>> {
    found(private_cookies(cookie_values(fields), key), "lg_session"@)
}

/// Trusted: `PrivateCookieJar::from_headers`, with the key that `Key::from` makes of the bytes. The
/// jar holds the cookies that can be decrypted, which depend on the values of the `Cookie` field
/// and on the key alone. A key of less than 64 bytes panics, so none is handed over.
#[verifier::external_body]
fn jar_from_headers(headers: &HeaderMap, key: &[u8]) -> (jar: PrivateCookieJar)
    requires
        key@.len() >= 64,
    ensures
        jar_cookies(jar) == private_cookies(cookie_values(header_fields(*headers)), key@),
{
    PrivateCookieJar::from_headers(headers, Key::from(key))
}

/// Trusted: `PrivateCookieJar::get` and the `value` of the cookie that it gives. Gives the
/// decrypted cookie of the name, where the jar holds one.
#[verifier::external_body]
fn jar_get(jar: &PrivateCookieJar, name: &str) -> (value: Option<String>)
    ensures
        maybe(value) == found(jar_cookies(*jar), name@),
{
    match jar.get(name) {
        Some(cookie) => Some(cookie.value().to_owned()),
        None => None,
    }
}

/// Reads the session cookie of a request. A cookie that was not made with this key is none.
pub fn session_cookie(headers: &HeaderMap, key: &[u8]) -> (cookie: Option<String>)
    requires
        key@.len() >= 64,
    ensures
        maybe(cookie) == session_cookie_in(header_fields(*headers), key@),
{
    let jar: PrivateCookieJar = jar_from_headers(headers, key);
    jar_get(&jar, "lg_session")
}

} // verus!
