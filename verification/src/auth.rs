//! Authentication: which identity a request gets, and what is asked of the database on the way.
use crate::credentials::{
    authorization, bearer_in, extract_bearer, extract_sdk_key, hash_token, key_matches,
    sdk_key_in, token_hash,
};
use crate::headers::header_fields;
use crate::identity::{
    ClaimsView, IdentitiesView, PatIdentity, PatView, RequestIdentities, SdkKeyEntry, SdkKeyView,
    SessionClaims,
};
use crate::status::Status;
use crate::text::maybe;
use axum::http::HeaderMap;
use vstd::prelude::*;

verus! {

/// The account that a session's user has now.
#[derive(Debug, PartialEq, Eq)]
pub struct AccountRow {
    pub email: String,
    pub name: String,
    pub role: String,
}

/// What an account says.
pub struct AccountView {
    pub email: Seq<char>,
    pub name: Seq<char>,
    pub role: Seq<char>,
}

impl View for AccountRow {
    type V = AccountView;

    open spec fn view(&self) -> AccountView {
        AccountView { email: self.email@, name: self.name@, role: self.role@ }
    }
}

/// A stored SDK key; it belongs to one environment.
#[derive(Debug, PartialEq, Eq)]
pub struct SdkKeyRow {
    pub id: i64,
    pub name: String,
    pub value: String,
    pub environment_id: String,
}

/// What a stored SDK key says.
pub struct SdkKeyRowView {
    pub id: i64,
    pub name: Seq<char>,
    pub value: Seq<char>,
    pub environment_id: Seq<char>,
}

impl View for SdkKeyRow {
    type V = SdkKeyRowView;

    open spec fn view(&self) -> SdkKeyRowView {
        SdkKeyRowView {
            id: self.id,
            name: self.name@,
            value: self.value@,
            environment_id: self.environment_id@,
        }
    }
}

/// A live personal access token, with the account of its owner.
#[derive(Debug, PartialEq, Eq)]
pub struct PatRow {
    pub id: i64,
    pub scope: String,
    pub user_id: i64,
    pub email: String,
    pub name: String,
    pub role: String,
}

/// What a live token says.
pub struct PatRowView {
    pub id: i64,
    pub scope: Seq<char>,
    pub user_id: i64,
    pub email: Seq<char>,
    pub name: Seq<char>,
    pub role: Seq<char>,
}

impl View for PatRow {
    type V = PatRowView;

    open spec fn view(&self) -> PatRowView {
        PatRowView {
            id: self.id,
            scope: self.scope@,
            user_id: self.user_id,
            email: self.email@,
            name: self.name@,
            role: self.role@,
        }
    }
}

/// What a lookup for one row came back with: the row, no row, or a failure.
pub open spec fn lookup<T: View>(reply: Result<Option<T>, ()>) -> Result<Option<T::V>, ()> {
    match reply {
        Ok(row) => Ok(maybe(row)),
        Err(()) => Err(()),
    }
}

/// An identity that authentication gives to a request.
#[derive(Debug, PartialEq, Eq)]
pub enum Identity {
    Session(SessionClaims),
    SdkKey(SdkKeyEntry),
    Pat(PatIdentity),
}

/// What an identity says.
pub enum IdentityView {
    Session(ClaimsView),
    SdkKey(SdkKeyView),
    Pat(PatView),
}

impl View for Identity {
    type V = IdentityView;

    open spec fn view(&self) -> IdentityView {
        match self {
            Identity::Session(claims) => IdentityView::Session(claims@),
            Identity::SdkKey(entry) => IdentityView::SdkKey(entry@),
            Identity::Pat(pat) => IdentityView::Pat(pat@),
        }
    }
}

/// What is attached to a request that got an identity: that one, and no other.
pub open spec fn attached(identity: IdentityView) -> IdentitiesView {
    match identity {
        IdentityView::Session(claims) => IdentitiesView {
            sdk_key: None,
            session: Some(claims),
            pat: None,
        },
        IdentityView::SdkKey(entry) => IdentitiesView {
            sdk_key: Some(entry),
            session: None,
            pat: None,
        },
        IdentityView::Pat(pat) => IdentitiesView { sdk_key: None, session: None, pat: Some(pat) },
    }
}

/// Attaches the identity that a request got.
pub fn attach(identity: Identity) -> (identities: RequestIdentities)
    ensures
        identities@ == attached(identity@),
{
    match identity {
        Identity::Session(claims) => RequestIdentities {
            sdk_key: None,
            session: Some(claims),
            pat: None,
        },
        Identity::SdkKey(entry) => RequestIdentities {
            sdk_key: Some(entry),
            session: None,
            pat: None,
        },
        Identity::Pat(pat) => RequestIdentities { sdk_key: None, session: None, pat: Some(pat) },
    }
}

// ---------------------------------------------------------------------------
// Sessions and tokens
// ---------------------------------------------------------------------------
/// The claims of a cookie that has not expired.
pub open spec fn live_claims(cookie: Option<ClaimsView>, now: i64) -> Option<ClaimsView> {
    match cookie {
        Some(claims) => if claims.expires_at <= now {
            None
        } else {
            Some(claims)
        },
        None => None,
    }
}

/// The claims of a session, with what the account says now.
pub open spec fn refreshed(claims: ClaimsView, account: AccountView) -> ClaimsView {
    ClaimsView { email: account.email, name: account.name, role: account.role, ..claims }
}

/// The claims of a session whose account was looked up.
pub open spec fn session_verdict(
    claims: ClaimsView,
    account: Result<Option<AccountView>, ()>,
) -> Result<Option<ClaimsView>, u16> {
    match account {
        Ok(Some(row)) => Ok(Some(refreshed(claims, row))),
        Ok(None) => Ok(None),
        Err(()) => Err(503),
    }
}

/// The identity behind a token: its owner, whose claims do not expire, under the token's scope.
pub open spec fn pat_of(row: PatRowView) -> PatView {
    PatView {
        claims: ClaimsView {
            user_id: row.user_id,
            expires_at: i64::MAX,
            email: row.email,
            name: row.name,
            role: row.role,
        },
        scope: row.scope,
    }
}

/// The SDK key of a stored row.
pub open spec fn stored_key(row: SdkKeyRowView) -> SdkKeyView {
    SdkKeyView {
        id: row.id,
        name: row.name,
        value: row.value,
        environment_id: Some(row.environment_id),
    }
}

/// The SDK key that the server's own environment sets, where it is set and is the one presented.
pub open spec fn server_key(key: Seq<char>, env_key: Option<Seq<char>>) -> Option<SdkKeyView> {
    match env_key {
        Some(value) => if value.len() > 0 && key == value {
            Some(
                SdkKeyView { id: (-1) as i64, name: "env:SDK_KEY"@, value: value, environment_id: None },
            )
        } else {
            None
        },
        None => None,
    }
}

/// Keeps the claims of a cookie that has not expired at `now`.
pub fn live_session(cookie: Option<SessionClaims>, now: i64) -> (session: Option<SessionClaims>)
    ensures
        maybe(session) == live_claims(maybe(cookie), now),
{
    match cookie {
        Some(claims) => if claims.expires_at <= now {
            None
        } else {
            Some(claims)
        },
        None => None,
    }
}

/// Resolves the account's current identity, including its role. A session whose account is gone
/// is no session; a lookup that failed is answered with 503.
pub fn resolve_session(claims: SessionClaims, account: Result<Option<AccountRow>, ()>) -> (session:
    Result<Option<SessionClaims>, Status>)
    ensures
        match session {
            Ok(s) => session_verdict(claims@, lookup(account)) == Ok::<_, u16>(maybe(s)),
            Err(status) => session_verdict(claims@, lookup(account))
                == Err::<Option<ClaimsView>, _>(status@),
        },
{
    match account {
        Ok(Some(row)) => Ok(
            Some(
                SessionClaims {
                    user_id: claims.user_id,
                    expires_at: claims.expires_at,
                    email: row.email,
                    name: row.name,
                    role: row.role,
                },
            ),
        ),
        Ok(None) => Ok(None),
        Err(()) => Err(Status::service_unavailable()),
    }
}

/// The identity of a live token. A token acts as the user who owns it.
pub fn resolve_pat(row: PatRow) -> (identity: PatIdentity)
    ensures
        identity@ == pat_of(row@),
{
    PatIdentity {
        claims: SessionClaims {
            user_id: row.user_id,
            expires_at: i64::MAX,
            email: row.email,
            name: row.name,
            role: row.role,
        },
        scope: row.scope,
    }
}

/// The entry of an SDK key that was looked up. A stored key wins; else the key that the server's
/// own environment sets is accepted, compared in constant time.
pub fn resolve_sdk_key(key: &str, row: Option<SdkKeyRow>, env_key: Option<String>) -> (entry:
    Option<SdkKeyEntry>)
    ensures
        maybe(entry) == match maybe(row) {
            Some(r) => Some(stored_key(r)),
            None => server_key(key@, maybe(env_key)),
        },
{
    match row {
        Some(r) => Some(
            SdkKeyEntry {
                id: r.id,
                name: r.name,
                value: r.value,
                environment_id: Some(r.environment_id),
            },
        ),
        None => match env_key {
            Some(value) => if !value.as_str().is_empty() && key_matches(key, value.as_str()) {
                Some(
                    SdkKeyEntry {
                        id: -1,
                        name: "env:SDK_KEY".to_owned(),
                        value,
                        environment_id: None,
                    },
                )
            } else {
                None
            },
            None => None,
        },
    }
}

// ---------------------------------------------------------------------------
// The steps of authentication
// ---------------------------------------------------------------------------
/// What authentication waits for.
#[derive(Debug, PartialEq, Eq)]
pub enum AuthState {
    /// The account of a live session.
    Account { claims: SessionClaims, sdk_key: Option<String>, bearer: Option<String> },
    /// The row of an SDK key.
    SdkKey { key: String, bearer: Option<String> },
    /// The row of a personal access token.
    Token,
    /// The note that the token was used.
    Touch { identity: PatIdentity },
    /// Nothing: the request is accepted or refused.
    Done,
}

/// What authentication asks for, or its answer.
#[derive(Debug, PartialEq, Eq)]
pub enum AuthAction {
    FindAccount { user_id: i64 },
    FindSdkKey { key: String },
    FindToken { hash: String },
    TouchToken { id: i64 },
    Accept(Identity),
    Reject(Status),
}

/// What came back.
#[derive(Debug, PartialEq, Eq)]
pub enum AuthReply {
    Account(Result<Option<AccountRow>, ()>),
    /// The row of an SDK key, and the key that the server's own environment sets.
    SdkKey { row: Result<Option<SdkKeyRow>, ()>, env_key: Option<String> },
    Token(Result<Option<PatRow>, ()>),
    /// The use of the token was noted, or could not be: neither blocks the request.
    Touched,
}

/// What a state says.
pub enum AuthStateView {
    Account { claims: ClaimsView, sdk_key: Option<Seq<char>>, bearer: Option<Seq<char>> },
    SdkKey { key: Seq<char>, bearer: Option<Seq<char>> },
    Token,
    Touch { identity: PatView },
    Done,
}

/// What an action says.
pub enum AuthActionView {
    FindAccount { user_id: i64 },
    FindSdkKey { key: Seq<char> },
    FindToken { hash: Seq<char> },
    TouchToken { id: i64 },
    Accept(IdentityView),
    Reject(u16),
}

/// What a reply says.
pub enum AuthReplyView {
    Account(Result<Option<AccountView>, ()>),
    SdkKey { row: Result<Option<SdkKeyRowView>, ()>, env_key: Option<Seq<char>> },
    Token(Result<Option<PatRowView>, ()>),
    Touched,
}

impl View for AuthState {
    type V = AuthStateView;

    open spec fn view(&self) -> AuthStateView {
        match self {
            AuthState::Account { claims, sdk_key, bearer } => AuthStateView::Account {
                claims: claims@,
                sdk_key: maybe(*sdk_key),
                bearer: maybe(*bearer),
            },
            AuthState::SdkKey { key, bearer } => AuthStateView::SdkKey {
                key: key@,
                bearer: maybe(*bearer),
            },
            AuthState::Token => AuthStateView::Token,
            AuthState::Touch { identity } => AuthStateView::Touch { identity: identity@ },
            AuthState::Done => AuthStateView::Done,
        }
    }
}

impl View for AuthAction {
    type V = AuthActionView;

    open spec fn view(&self) -> AuthActionView {
        match self {
            AuthAction::FindAccount { user_id } => AuthActionView::FindAccount {
                user_id: *user_id,
            },
            AuthAction::FindSdkKey { key } => AuthActionView::FindSdkKey { key: key@ },
            AuthAction::FindToken { hash } => AuthActionView::FindToken { hash: hash@ },
            AuthAction::TouchToken { id } => AuthActionView::TouchToken { id: *id },
            AuthAction::Accept(identity) => AuthActionView::Accept(identity@),
            AuthAction::Reject(status) => AuthActionView::Reject(status@),
        }
    }
}

impl View for AuthReply {
    type V = AuthReplyView;

    open spec fn view(&self) -> AuthReplyView {
        match self {
            AuthReply::Account(row) => AuthReplyView::Account(lookup(*row)),
            AuthReply::SdkKey { row, env_key } => AuthReplyView::SdkKey {
                row: lookup(*row),
                env_key: maybe(*env_key),
            },
            AuthReply::Token(row) => AuthReplyView::Token(lookup(*row)),
            AuthReply::Touched => AuthReplyView::Touched,
        }
    }
}

/// Refuses with a status.
pub open spec fn refuse(code: u16) -> (AuthStateView, AuthActionView) {
    (AuthStateView::Done, AuthActionView::Reject(code))
}

/// Accepts with an identity.
pub open spec fn accept(identity: IdentityView) -> (AuthStateView, AuthActionView) {
    (AuthStateView::Done, AuthActionView::Accept(identity))
}

/// Goes on to the bearer token: it is looked up as a personal access token.
pub open spec fn seek_token(bearer: Option<Seq<char>>) -> (AuthStateView, AuthActionView) {
    match bearer {
        Some(token) => (
            AuthStateView::Token,
            AuthActionView::FindToken { hash: token_hash(token) },
        ),
        None => refuse(401),
    }
}

/// Goes on to the SDK key, else to the bearer token.
pub open spec fn seek_sdk_key(sdk_key: Option<Seq<char>>, bearer: Option<Seq<char>>) -> (
    AuthStateView,
    AuthActionView,
) {
    match sdk_key {
        Some(key) => (
            AuthStateView::SdkKey { key, bearer },
            AuthActionView::FindSdkKey { key },
        ),
        None => seek_token(bearer),
    }
}

/// The first step: a live session is looked up before any other credential.
pub open spec fn auth_start(
    session: Option<ClaimsView>,
    sdk_key: Option<Seq<char>>,
    bearer: Option<Seq<char>>,
) -> (AuthStateView, AuthActionView) {
    match session {
        Some(claims) => (
            AuthStateView::Account { claims, sdk_key, bearer },
            AuthActionView::FindAccount { user_id: claims.user_id },
        ),
        None => seek_sdk_key(sdk_key, bearer),
    }
}

/// The first step of a request that carries a cookie, header fields and a query at a time.
pub open spec fn auth_start_at(
    fields: Map<Seq<char>, Seq<Seq<u8>>>,
    query: Seq<char>,
    cookie: Option<ClaimsView>,
    now: i64,
) -> (AuthStateView, AuthActionView) {
    auth_start(
        live_claims(cookie, now),
        sdk_key_in(authorization(fields), query),
        bearer_in(authorization(fields)),
    )
}

/// The reply is the one that the state waits for.
pub open spec fn awaits(state: AuthStateView, reply: AuthReplyView) -> bool {
    match state {
        AuthStateView::Account { .. } => reply is Account,
        AuthStateView::SdkKey { .. } => reply is SdkKey,
        AuthStateView::Token => reply is Token,
        AuthStateView::Touch { .. } => reply is Touched,
        AuthStateView::Done => false,
    }
}

/// The step that follows a reply.
pub open spec fn auth_next(state: AuthStateView, reply: AuthReplyView) -> (
    AuthStateView,
    AuthActionView,
) {
    match (state, reply) {
        (AuthStateView::Account { claims, sdk_key, bearer }, AuthReplyView::Account(account)) => {
            match session_verdict(claims, account) {
                Ok(Some(current)) => accept(IdentityView::Session(current)),
                Ok(None) => seek_sdk_key(sdk_key, bearer),
                Err(code) => refuse(code),
            }
        },
        (AuthStateView::SdkKey { key, bearer }, AuthReplyView::SdkKey { row, env_key }) => {
            match row {
                Ok(Some(stored)) => accept(IdentityView::SdkKey(stored_key(stored))),
                Ok(None) => match server_key(key, env_key) {
                    Some(entry) => accept(IdentityView::SdkKey(entry)),
                    None => seek_token(bearer),
                },
                Err(()) => refuse(503),
            }
        },
        (AuthStateView::Token, AuthReplyView::Token(row)) => {
            match row {
                Ok(Some(live)) => (
                    AuthStateView::Touch { identity: pat_of(live) },
                    AuthActionView::TouchToken { id: live.id },
                ),
                Ok(None) => refuse(401),
                Err(()) => refuse(503),
            }
        },
        (AuthStateView::Touch { identity }, _) => accept(IdentityView::Pat(identity)),
        _ => refuse(401),
    }
}

/// Trusted: `time::OffsetDateTime::now_utc` and its `unix_timestamp`. Nothing is stated of the
/// clock.
#[verifier::external_body]
fn unix_now() -> (seconds: i64) {
    time::OffsetDateTime::now_utc().unix_timestamp()
}

fn find_token(bearer: Option<String>) -> (step: (AuthState, AuthAction))
    ensures
        (step.0@, step.1@) == seek_token(maybe(bearer)),
{
    match bearer {
        Some(token) => (AuthState::Token, AuthAction::FindToken { hash: hash_token(token.as_str()) }),
        None => (AuthState::Done, AuthAction::Reject(Status::unauthorized())),
    }
}

fn find_sdk_key(sdk_key: Option<String>, bearer: Option<String>) -> (step: (AuthState, AuthAction))
    ensures
        (step.0@, step.1@) == seek_sdk_key(maybe(sdk_key), maybe(bearer)),
{
    match sdk_key {
        Some(key) => {
            let asked: String = key.clone();
            (AuthState::SdkKey { key, bearer }, AuthAction::FindSdkKey { key: asked })
        },
        None => find_token(bearer),
    }
}

/// Starts the authentication of a request that carries these credentials.
pub fn start_auth(session: Option<SessionClaims>, sdk_key: Option<String>, bearer: Option<String>) -> (step:
    (AuthState, AuthAction))
    ensures
        (step.0@, step.1@) == auth_start(maybe(session), maybe(sdk_key), maybe(bearer)),
{
    match session {
        Some(claims) => {
            let user_id: i64 = claims.user_id;
            (AuthState::Account { claims, sdk_key, bearer }, AuthAction::FindAccount { user_id })
        },
        None => find_sdk_key(sdk_key, bearer),
    }
}

fn owned(text: Option<&str>) -> (copy: Option<String>)
    ensures
        maybe(copy) == maybe(text),
{
    match text {
        Some(t) => Some(t.to_owned()),
        None => None,
    }
}

/// Starts the authentication of a request that arrives at `now`.
pub fn begin_auth_at(headers: &HeaderMap, query: &str, cookie: Option<SessionClaims>, now: i64) -> (step:
    (AuthState, AuthAction))
    ensures
        (step.0@, step.1@) == auth_start_at(header_fields(*headers), query@, maybe(cookie), now),
{
    start_auth(
        live_session(cookie, now),
        owned(extract_sdk_key(headers, query)),
        owned(extract_bearer(headers)),
    )
}

/// Starts the authentication of a request that arrives now. `cookie` is what its session cookie
/// claims, where it has one that can be read.
pub fn begin_auth(headers: &HeaderMap, query: &str, cookie: Option<SessionClaims>) -> (step: (
    AuthState,
    AuthAction,
))
    ensures
        exists|now: i64|
            (step.0@, step.1@) == #[trigger] auth_start_at(
                header_fields(*headers),
                query@,
                maybe(cookie),
                now,
            ),
{
    let now: i64 = unix_now();
    begin_auth_at(headers, query, cookie, now)
}

/// Validates a request, step by step, by its session cookie, else its SDK key, else its personal
/// access token. A lookup that fails is answered with 503; absent or invalid credentials are
/// answered with 401.
pub fn require_auth(state: AuthState, reply: AuthReply) -> (step: (AuthState, AuthAction))
    requires
        awaits(state@, reply@),
    ensures
        (step.0@, step.1@) == auth_next(state@, reply@),
{
    match (state, reply) {
        (AuthState::Account { claims, sdk_key, bearer }, AuthReply::Account(account)) => {
            match resolve_session(claims, account) {
                Ok(Some(current)) => (
                    AuthState::Done,
                    AuthAction::Accept(Identity::Session(current)),
                ),
                Ok(None) => find_sdk_key(sdk_key, bearer),
                Err(status) => (AuthState::Done, AuthAction::Reject(status)),
            }
        },
        (AuthState::SdkKey { key, bearer }, AuthReply::SdkKey { row, env_key }) => {
            match row {
                Ok(found) => match resolve_sdk_key(key.as_str(), found, env_key) {
                    Some(entry) => (AuthState::Done, AuthAction::Accept(Identity::SdkKey(entry))),
                    None => find_token(bearer),
                },
                Err(()) => (AuthState::Done, AuthAction::Reject(Status::service_unavailable())),
            }
        },
        (AuthState::Token, AuthReply::Token(row)) => {
            match row {
                Ok(Some(live)) => {
                    let id: i64 = live.id;
                    (
                        AuthState::Touch { identity: resolve_pat(live) },
                        AuthAction::TouchToken { id },
                    )
                },
                Ok(None) => (AuthState::Done, AuthAction::Reject(Status::unauthorized())),
                Err(()) => (AuthState::Done, AuthAction::Reject(Status::service_unavailable())),
            }
        },
        (AuthState::Touch { identity }, _) => (
            AuthState::Done,
            AuthAction::Accept(Identity::Pat(identity)),
        ),
        _ => (AuthState::Done, AuthAction::Reject(Status::unauthorized())),
    }
}

} // verus!
