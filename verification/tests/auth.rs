//! Authentication, step by step.
use axum::http::{HeaderMap, HeaderValue};
use checkgate::auth::{
    attach, begin_auth, begin_auth_at, live_session, require_auth, resolve_pat, resolve_sdk_key,
    resolve_session, start_auth, AccountRow, AuthAction, AuthReply, AuthState, Identity, PatRow,
    SdkKeyRow,
};
use checkgate::credentials::hash_token;
use checkgate::identity::{
    get_session_claims, pat_scope, AuthContext, PatIdentity, RequestIdentities, SdkKeyEntry,
    SessionClaims,
};
use checkgate::status::Status;

fn claims(expires_at: i64) -> SessionClaims {
    SessionClaims {
        user_id: 7,
        expires_at,
        email: "old@example.com".to_string(),
        name: "Old".to_string(),
        role: "admin".to_string(),
    }
}

fn account() -> AccountRow {
    AccountRow {
        email: "new@example.com".to_string(),
        name: "New".to_string(),
        role: "viewer".to_string(),
    }
}

fn current(expires_at: i64) -> SessionClaims {
    SessionClaims {
        user_id: 7,
        expires_at,
        email: "new@example.com".to_string(),
        name: "New".to_string(),
        role: "viewer".to_string(),
    }
}

fn key_row() -> SdkKeyRow {
    SdkKeyRow {
        id: 3,
        name: "ci".to_string(),
        value: "k".to_string(),
        environment_id: "env-1".to_string(),
    }
}

fn stored_entry() -> SdkKeyEntry {
    SdkKeyEntry {
        id: 3,
        name: "ci".to_string(),
        value: "k".to_string(),
        environment_id: Some("env-1".to_string()),
    }
}

fn server_entry(value: &str) -> SdkKeyEntry {
    SdkKeyEntry {
        id: -1,
        name: "env:SDK_KEY".to_string(),
        value: value.to_string(),
        environment_id: None,
    }
}

fn pat_row(scope: &str) -> PatRow {
    PatRow {
        id: 11,
        scope: scope.to_string(),
        user_id: 9,
        email: "pat@example.com".to_string(),
        name: "Pat".to_string(),
        role: "editor".to_string(),
    }
}

fn pat_identity(scope: &str) -> PatIdentity {
    PatIdentity {
        claims: SessionClaims {
            user_id: 9,
            expires_at: i64::MAX,
            email: "pat@example.com".to_string(),
            name: "Pat".to_string(),
            role: "editor".to_string(),
        },
        scope: scope.to_string(),
    }
}

fn bearer(value: &'static str) -> HeaderMap {
    let mut headers = HeaderMap::new();
    headers.insert("authorization", HeaderValue::from_static(value));
    headers
}

fn no_env(row: Result<Option<SdkKeyRow>, ()>) -> AuthReply {
    AuthReply::SdkKey { row, env_key: None }
}

#[test]
fn session_is_live_before_its_expiry_only() {
    assert_eq!(live_session(Some(claims(100)), 99), Some(claims(100)));
    assert_eq!(live_session(Some(claims(100)), 100), None);
    assert_eq!(live_session(Some(claims(100)), 101), None);
    assert_eq!(live_session(None, 0), None);
}

#[test]
fn session_takes_the_role_that_the_account_has_now() {
    assert_eq!(resolve_session(claims(100), Ok(Some(account()))), Ok(Some(current(100))));
    assert_eq!(resolve_session(claims(100), Ok(None)), Ok(None));
    assert_eq!(resolve_session(claims(100), Err(())), Err(Status::service_unavailable()));
}

#[test]
fn token_acts_as_its_owner() {
    assert_eq!(resolve_pat(pat_row("read_only")), pat_identity("read_only"));
}

#[test]
fn stored_key_wins_over_the_servers_own() {
    assert_eq!(
        resolve_sdk_key("k", Some(key_row()), Some("k".to_string())),
        Some(stored_entry())
    );
    assert_eq!(resolve_sdk_key("k", None, Some("k".to_string())), Some(server_entry("k")));
    assert_eq!(resolve_sdk_key("k", None, Some("other".to_string())), None);
    assert_eq!(resolve_sdk_key("k", None, None), None);
}

#[test]
fn empty_server_key_admits_nobody() {
    assert_eq!(resolve_sdk_key("", None, Some(String::new())), None);
}

#[test]
fn session_comes_first() {
    let headers = bearer("Bearer k");
    let (state, action) = begin_auth_at(&headers, "", Some(claims(100)), 50);
    assert_eq!(action, AuthAction::FindAccount { user_id: 7 });
    let (state, action) = require_auth(state, AuthReply::Account(Ok(Some(account()))));
    assert_eq!(state, AuthState::Done);
    assert_eq!(action, AuthAction::Accept(Identity::Session(current(100))));
}

#[test]
fn failed_account_lookup_is_503_even_with_a_key() {
    let (state, _) = begin_auth_at(&bearer("Bearer k"), "", Some(claims(100)), 50);
    let (_, action) = require_auth(state, AuthReply::Account(Err(())));
    assert_eq!(action, AuthAction::Reject(Status::service_unavailable()));
}

#[test]
fn deleted_user_falls_through_to_the_key() {
    let (state, _) = begin_auth_at(&bearer("Bearer k"), "", Some(claims(100)), 50);
    let (state, action) = require_auth(state, AuthReply::Account(Ok(None)));
    assert_eq!(action, AuthAction::FindSdkKey { key: "k".to_string() });
    let (_, action) = require_auth(state, no_env(Ok(Some(key_row()))));
    assert_eq!(action, AuthAction::Accept(Identity::SdkKey(stored_entry())));
}

#[test]
fn expired_cookie_counts_for_nothing() {
    let with = begin_auth_at(&bearer("Bearer k"), "", Some(claims(100)), 100);
    let without = begin_auth_at(&bearer("Bearer k"), "", None, 100);
    assert_eq!(with, without);
    assert_eq!(with.1, AuthAction::FindSdkKey { key: "k".to_string() });
}

#[test]
fn query_key_is_looked_up_but_never_as_a_token() {
    let (state, action) = begin_auth_at(&HeaderMap::new(), "x=1&sdk_key=k", None, 0);
    assert_eq!(action, AuthAction::FindSdkKey { key: "k".to_string() });
    let (state, action) = require_auth(state, no_env(Ok(None)));
    assert_eq!(state, AuthState::Done);
    assert_eq!(action, AuthAction::Reject(Status::unauthorized()));
}

#[test]
fn failed_key_lookup_is_503() {
    let (state, _) = begin_auth_at(&bearer("Bearer k"), "", None, 0);
    let reply = AuthReply::SdkKey { row: Err(()), env_key: Some("k".to_string()) };
    let (_, action) = require_auth(state, reply);
    assert_eq!(action, AuthAction::Reject(Status::service_unavailable()));
}

#[test]
fn servers_own_key_is_accepted() {
    let (state, _) = begin_auth_at(&bearer("Bearer legacy"), "", None, 0);
    let reply = AuthReply::SdkKey { row: Ok(None), env_key: Some("legacy".to_string()) };
    let (_, action) = require_auth(state, reply);
    assert_eq!(action, AuthAction::Accept(Identity::SdkKey(server_entry("legacy"))));
}

#[test]
fn bearer_that_is_no_key_is_looked_up_as_a_token() {
    let (state, _) = begin_auth_at(&bearer("Bearer abc"), "", None, 0);
    let (state, action) = require_auth(state, no_env(Ok(None)));
    assert_eq!(action, AuthAction::FindToken { hash: hash_token("abc") });
    let (state, action) = require_auth(state, AuthReply::Token(Ok(Some(pat_row("read_only")))));
    assert_eq!(action, AuthAction::TouchToken { id: 11 });
    let (state, action) = require_auth(state, AuthReply::Touched);
    assert_eq!(state, AuthState::Done);
    assert_eq!(action, AuthAction::Accept(Identity::Pat(pat_identity("read_only"))));
}

#[test]
fn unknown_token_is_401_and_a_failed_lookup_503() {
    let (_, action) = require_auth(AuthState::Token, AuthReply::Token(Ok(None)));
    assert_eq!(action, AuthAction::Reject(Status::unauthorized()));
    let (_, action) = require_auth(AuthState::Token, AuthReply::Token(Err(())));
    assert_eq!(action, AuthAction::Reject(Status::service_unavailable()));
}

#[test]
fn no_credentials_is_401() {
    let (state, action) = start_auth(None, None, None);
    assert_eq!(state, AuthState::Done);
    assert_eq!(action, AuthAction::Reject(Status::unauthorized()));
}

#[test]
fn authentication_goes_by_the_clock() {
    let headers = HeaderMap::new();
    let (_, action) = begin_auth(&headers, "", Some(claims(i64::MAX)));
    assert_eq!(action, AuthAction::FindAccount { user_id: 7 });
    // Some time after September 2001.
    let (_, action) = begin_auth(&headers, "", Some(claims(1_000_000_000)));
    assert_eq!(action, AuthAction::Reject(Status::unauthorized()));
}

#[test]
fn identity_is_attached_alone() {
    let who = attach(Identity::Pat(pat_identity("read_only")));
    assert_eq!(
        who,
        RequestIdentities { sdk_key: None, session: None, pat: Some(pat_identity("read_only")) }
    );
    assert_eq!(
        attach(Identity::SdkKey(stored_entry())),
        RequestIdentities { sdk_key: Some(stored_entry()), session: None, pat: None }
    );
    assert_eq!(
        attach(Identity::Session(claims(1))),
        RequestIdentities { sdk_key: None, session: Some(claims(1)), pat: None }
    );
}

#[test]
fn session_claims_take_priority_over_the_token() {
    let both =
        AuthContext { session: Some(claims(100)), pat: Some(pat_identity("read_only")) };
    assert_eq!(get_session_claims(&both), Some(claims(100)));
    assert_eq!(pat_scope(&both), None);
}

#[test]
fn token_alone_gives_its_claims_and_its_scope() {
    let ctx = AuthContext::from_identities(&attach(Identity::Pat(pat_identity("read_only"))));
    assert_eq!(get_session_claims(&ctx), Some(pat_identity("read_only").claims));
    assert_eq!(pat_scope(&ctx), Some("read_only"));
}

#[test]
fn sdk_key_alone_gives_no_user() {
    let ctx = AuthContext::from_identities(&attach(Identity::SdkKey(stored_entry())));
    assert_eq!(ctx, AuthContext { session: None, pat: None });
    assert_eq!(get_session_claims(&ctx), None);
    assert_eq!(pat_scope(&ctx), None);
}

#[test]
fn identities_are_copied_in_full() {
    let who = RequestIdentities {
        sdk_key: Some(stored_entry()),
        session: Some(claims(5)),
        pat: Some(pat_identity("read_write")),
    };
    assert_eq!(who.clone(), who);
    let ctx = AuthContext::from_identities(&who);
    assert_eq!(ctx.clone(), ctx);
}

#[test]
fn status_codes_print_with_their_reason() {
    assert_eq!(Status::bad_request().line(), "400 Bad Request");
    assert_eq!(Status::unauthorized().line(), "401 Unauthorized");
    assert_eq!(Status::forbidden().line(), "403 Forbidden");
    assert_eq!(Status::conflict().line(), "409 Conflict");
    assert_eq!(Status::internal_server_error().line(), "500 Internal Server Error");
    assert_eq!(Status::service_unavailable().line(), "503 Service Unavailable");
    assert_eq!(Status::new(404).map(|s| s.code()), Some(404));
    assert_eq!(Status::new(99), None);
    assert_eq!(Status::new(1000), None);
}
