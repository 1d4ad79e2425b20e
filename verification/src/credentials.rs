//! The credentials that a request carries.
use crate::headers::{field_text, header_field, header_fields, lower_ascii};
use crate::text::{
    hex_lower, hex_of, maybe, same_text, split_on, split_text, strip_prefix, stripped, texts,
};
use axum::http::HeaderMap;
use vstd::prelude::*;
use vstd::utf8::{encode_utf8, encode_utf8_decode_utf8};

verus! {

/// The text of the `Authorization` field, where it has one.
pub open spec fn authorization(fields: Map<Seq<char>, Seq<Seq<u8>>>) -> Option<Seq<char>> {
    field_text(fields, "authorization"@)
}

/// The token behind `Bearer ` in an `Authorization` text.
pub open spec fn bearer_in(authorization: Option<Seq<char>>) -> Option<Seq<char>> {
    match authorization {
        Some(text) => stripped(text, "Bearer "@),
        None => None,
    }
}

/// The rest of the first part that begins with the prefix.
pub open spec fn first_stripped(parts: Seq<Seq<char>>, prefix: Seq<char>) -> Option<Seq<char>>
    decreases parts.len(),
{
    if parts.len() == 0 {
        None
    } else {
        match stripped(parts[0], prefix) {
            Some(rest) => Some(rest),
            None => first_stripped(parts.drop_first(), prefix),
        }
    }
}

/// The value of the first `sdk_key` parameter of a query.
pub open spec fn sdk_key_param(query: Seq<char>) -> Option<Seq<char>> {
    first_stripped(split_on(query, '&'), "sdk_key="@)
}

/// The SDK key of a request: the bearer token, else the query parameter.
pub open spec fn sdk_key_in(authorization: Option<Seq<char>>, query: Seq<char>) -> Option<
    Seq<char>,
> {
    match bearer_in(authorization) {
        Some(token) => Some(token),
        None => sdk_key_param(query),
    }
}

/// The part behind the first part that is the given word.
pub open spec fn part_behind(parts: Seq<Seq<char>>, word: Seq<char>) -> Option<Seq<char>>
    decreases parts.len(),
{
    if parts.len() == 0 {
        None
    } else if parts[0] == word {
        if parts.len() > 1 {
            Some(parts[1])
        } else {
            None
        }
    } else {
        part_behind(parts.drop_first(), word)
    }
}

/// The environment that a path names: the part behind the first part `environments`.
pub open spec fn environment_in(path: Seq<char>) -> Option<Seq<char>> {
    part_behind(split_on(path, '/'), "environments"@)
}

/// The SHA-256 digest of some bytes.
pub uninterp spec fn sha256_of(bytes: Seq<u8>) -> Seq<u8>;

/// The text under which a token is stored: the SHA-256 of its UTF-8, in lower-case hexadecimal.
pub open spec fn token_hash(token: Seq<char>) -> Seq<char> {
    hex_of(sha256_of(encode_utf8(token)))
}

/// Trusted: `sha2::Sha256::digest`. The digest depends on the bytes alone.
#[verifier::external_body]
fn sha256(bytes: &[u8]) -> (digest: [u8; 32])
    ensures
        digest@ == sha256_of(bytes@),
{
    <sha2::Sha256 as sha2::Digest>::digest(bytes).into()
}

/// Trusted: `constant_time_eq::constant_time_eq` compares two byte strings. That the time it
/// takes does not depend on their contents is not stated.
pub assume_specification[ constant_time_eq::constant_time_eq ](a: &[u8], b: &[u8]) -> (same: bool)
    ensures
        same == (a@ == b@),
;

proof fn lemma_authorization_name()
    ensures
        lower_ascii("Authorization"@) == "authorization"@,
{
    reveal_strlit("Authorization");
    reveal_strlit("authorization");
    assert(lower_ascii("Authorization"@) =~= "authorization"@);
}

fn authorization_text<'a>(headers: &'a HeaderMap) -> (text: Option<&'a str>)
    ensures
        maybe(text) == authorization(header_fields(*headers)),
{
    proof {
        lemma_authorization_name();
    }
    header_field(headers, "Authorization")
}

/// The token of an `Authorization` text.
pub fn bearer_token<'a>(authorization: Option<&'a str>) -> (token: Option<&'a str>)
    ensures
        maybe(token) == bearer_in(maybe(authorization)),
{
    match authorization {
        Some(text) => strip_prefix(text, "Bearer "),
        None => None,
    }
}

/// The SDK key of an `Authorization` text and a query.
pub fn sdk_key<'a>(authorization: Option<&'a str>, query: &'a str) -> (key: Option<&'a str>)
    ensures
        maybe(key) == sdk_key_in(maybe(authorization), query@),
{
    let bearer: Option<&'a str> = bearer_token(authorization);
    if bearer.is_some() {
        return bearer;
    }
    let parts: Vec<&'a str> = split_text(query, '&');
    let ghost all = texts(parts@);
    let mut i: usize = 0;
    assert(all.skip(0) =~= all);
    while i < parts.len()
        invariant
            i <= parts.len(),
            all == texts(parts@),
            all == split_on(query@, '&'),
            bearer_in(maybe(authorization)) is None,
            first_stripped(all, "sdk_key="@) == first_stripped(all.skip(i as int), "sdk_key="@),
        decreases parts.len() - i,
    {
        assert(all.skip(i as int)[0] == parts[i as int]@);
        assert(all.skip(i as int).drop_first() =~= all.skip(i + 1));
        let found: Option<&'a str> = strip_prefix(parts[i], "sdk_key=");
        if found.is_some() {
            return found;
        }
        i = i + 1;
    }
    None
}

/// Extracts the SDK key from a request. The bearer header takes priority over the `sdk_key`
/// query parameter, which is there for browser event streams that cannot set headers.
pub fn extract_sdk_key<'a>(headers: &'a HeaderMap, query: &'a str) -> (key: Option<&'a str>)
    ensures
        maybe(key) == sdk_key_in(authorization(header_fields(*headers)), query@),
{
    sdk_key(authorization_text(headers), query)
}

/// Extracts a bearer token. Unlike an SDK key, a personal access token is never accepted in the
/// query, which proxies and access logs would record.
pub fn extract_bearer<'a>(headers: &'a HeaderMap) -> (token: Option<&'a str>)
    ensures
        maybe(token) == bearer_in(authorization(header_fields(*headers))),
{
    bearer_token(authorization_text(headers))
}

/// Hashes a token for lookup.
pub fn hash_token(token: &str) -> (hash: String)
    ensures
        hash@ == token_hash(token@),
{
    let digest: [u8; 32] = sha256(token.as_bytes());
    hex_lower(&digest)
}

/// Compares a key with the one that is expected.
pub fn key_matches(key: &str, expected: &str) -> (same: bool)
    ensures
        same == (key@ == expected@),
{
    proof {
        encode_utf8_decode_utf8(key@);
        encode_utf8_decode_utf8(expected@);
    }
    constant_time_eq::constant_time_eq(key.as_bytes(), expected.as_bytes())
}

/// Reads the environment out of a request path.
pub fn environment_of_path<'a>(path: &'a str) -> (env_id: Option<&'a str>)
    ensures
        maybe(env_id) == environment_in(path@),
{
    let parts: Vec<&'a str> = split_text(path, '/');
    let ghost all = texts(parts@);
    let mut i: usize = 0;
    assert(all.skip(0) =~= all);
    while i < parts.len()
        invariant
            i <= parts.len(),
            all == texts(parts@),
            all == split_on(path@, '/'),
            part_behind(all, "environments"@) == part_behind(
                all.skip(i as int),
                "environments"@,
            ),
        decreases parts.len() - i,
    {
        assert(all.skip(i as int)[0] == parts[i as int]@);
        assert(all.skip(i as int).drop_first() =~= all.skip(i + 1));
        if same_text(parts[i], "environments") {
            if i + 1 < parts.len() {
                assert(all.skip(i as int)[1] == parts[i + 1]@);
                return Some(parts[i + 1]);
            }
            return None;
        }
        i = i + 1;
    }
    None
}

} // verus!
