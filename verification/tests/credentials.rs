//! Credentials in headers and queries, token hashes, paths and the session cookie.
use axum::http::{HeaderMap, HeaderValue};
use axum::response::IntoResponse;
use axum_extra::extract::cookie::{Cookie, Key, PrivateCookieJar};
use checkgate::cookies::session_cookie;
use checkgate::credentials::{
    bearer_token, environment_of_path, extract_bearer, extract_sdk_key, hash_token, key_matches,
    sdk_key,
};
use checkgate::headers::header_field;
use checkgate::text::{decimal_text, hex_lower, split_text};

fn with_authorization(value: &'static str) -> HeaderMap {
    let mut headers = HeaderMap::new();
    headers.insert("authorization", HeaderValue::from_static(value));
    headers
}

#[test]
fn bearer_header_is_the_sdk_key() {
    let headers = with_authorization("Bearer key-1");
    assert_eq!(extract_sdk_key(&headers, ""), Some("key-1"));
    assert_eq!(extract_bearer(&headers), Some("key-1"));
}

#[test]
fn bearer_header_takes_priority_over_the_query() {
    let headers = with_authorization("Bearer header-key");
    assert_eq!(extract_sdk_key(&headers, "sdk_key=query-key"), Some("header-key"));
}

#[test]
fn query_parameter_is_the_fallback() {
    let headers = HeaderMap::new();
    assert_eq!(extract_sdk_key(&headers, "a=1&sdk_key=k1&sdk_key=k2"), Some("k1"));
    assert_eq!(extract_sdk_key(&headers, "sdk_key="), Some(""));
    assert_eq!(extract_sdk_key(&headers, "xsdk_key=k"), None);
    assert_eq!(extract_sdk_key(&headers, ""), None);
}

#[test]
fn another_scheme_falls_back_to_the_query() {
    let headers = with_authorization("Basic abc");
    assert_eq!(extract_sdk_key(&headers, "sdk_key=k"), Some("k"));
    assert_eq!(extract_bearer(&headers), None);
}

#[test]
fn bearer_is_never_read_from_the_query() {
    assert_eq!(extract_bearer(&HeaderMap::new()), None);
}

#[test]
fn scheme_is_matched_to_the_letter() {
    assert_eq!(bearer_token(Some("bearer k")), None);
    assert_eq!(bearer_token(Some("Bearer ")), Some(""));
    assert_eq!(bearer_token(Some("Bearer  k")), Some(" k"));
    assert_eq!(bearer_token(None), None);
    assert_eq!(sdk_key(Some("Bearer k"), "sdk_key=q"), Some("k"));
    assert_eq!(sdk_key(None, "sdk_key=q"), Some("q"));
}

#[test]
fn field_names_have_no_case_and_the_oldest_value_counts() {
    let mut headers = HeaderMap::new();
    headers.append("x-name", HeaderValue::from_static("first"));
    headers.append("x-name", HeaderValue::from_static("second"));
    assert_eq!(header_field(&headers, "X-Name"), Some("first"));
    assert_eq!(header_field(&headers, "x-other"), None);
}

#[test]
fn field_that_is_not_visible_ascii_is_no_text() {
    let mut headers = HeaderMap::new();
    let value = HeaderValue::from_bytes(&[66, 101, 200]).expect("opaque bytes are allowed");
    headers.insert("authorization", value);
    assert_eq!(header_field(&headers, "Authorization"), None);
    assert_eq!(extract_sdk_key(&headers, "sdk_key=k"), Some("k"));
}

#[test]
fn tokens_are_hashed_with_sha256() {
    assert_eq!(
        hash_token("abc"),
        "ba7816bf8f01cfea414140de5dae2223b00361a396177a9cb410ff61f20015ad"
    );
    assert_eq!(
        hash_token(""),
        "e3b0c44298fc1c149afbf4c8996fb92427ae41e4649b934ca495991b7852b855"
    );
}

#[test]
fn keys_match_only_when_equal() {
    assert!(key_matches("secret", "secret"));
    assert!(!key_matches("secret", "secreT"));
    assert!(!key_matches("secret", "secret2"));
    assert!(key_matches("", ""));
}

#[test]
fn environment_is_the_part_behind_the_first_environments() {
    assert_eq!(environment_of_path("/api/environments/e1/flags"), Some("e1"));
    assert_eq!(environment_of_path("/api/environments/e1/environments/e2"), Some("e1"));
    assert_eq!(environment_of_path("/api/environments"), None);
    assert_eq!(environment_of_path("/api/environments/"), Some(""));
    assert_eq!(environment_of_path("/environments/environments"), Some("environments"));
    assert_eq!(environment_of_path("/api/projects/p1"), None);
}

#[test]
fn splitting_keeps_empty_parts() {
    assert_eq!(split_text("/a//b", '/'), vec!["", "a", "", "b"]);
    assert_eq!(split_text("", '/'), vec![""]);
    assert_eq!(split_text("\u{e9}/\u{1f600}", '/'), vec!["\u{e9}", "\u{1f600}"]);
}

#[test]
fn hexadecimal_tells_byte_strings_apart() {
    assert_eq!(hex_lower(&[0x00, 0x0f, 0xa5, 0xff]), "000fa5ff");
    assert_ne!(hex_lower(&[0x12, 0x03]), hex_lower(&[0x12, 0x30]));
    assert_eq!(hex_lower(&[]), "");
}

#[test]
fn decimal_has_no_leading_zeros() {
    assert_eq!(decimal_text(0), "0");
    assert_eq!(decimal_text(10), "10");
    assert_eq!(decimal_text(usize::MAX), usize::MAX.to_string());
}

fn request_with_cookie(key: &[u8], name: &'static str, value: &'static str) -> HeaderMap {
    let jar: PrivateCookieJar = PrivateCookieJar::new(Key::from(key));
    let response = jar.add(Cookie::new(name, value)).into_response();
    let set = response.headers().get("set-cookie").expect("the jar sets a cookie");
    let mut headers = HeaderMap::new();
    headers.insert("cookie", set.clone());
    headers
}

#[test]
fn session_cookie_is_decrypted() {
    let key = [7u8; 64];
    let headers = request_with_cookie(&key, "lg_session", "{\"user_id\":1}");
    assert_eq!(session_cookie(&headers, &key), Some("{\"user_id\":1}".to_string()));
}

#[test]
fn session_cookie_of_another_key_is_none() {
    let headers = request_with_cookie(&[7u8; 64], "lg_session", "{}");
    assert_eq!(session_cookie(&headers, &[8u8; 64]), None);
}

#[test]
fn session_cookie_goes_by_its_name() {
    let key = [7u8; 64];
    let headers = request_with_cookie(&key, "other", "{}");
    assert_eq!(session_cookie(&headers, &key), None);
    assert_eq!(session_cookie(&HeaderMap::new(), &key), None);
}

#[test]
fn cookie_in_plain_text_is_none() {
    let mut headers = HeaderMap::new();
    headers.insert("cookie", HeaderValue::from_static("lg_session=abc"));
    assert_eq!(session_cookie(&headers, &[7u8; 64]), None);
}
