//! Who a request comes from.
use crate::text::maybe;
use vstd::prelude::*;

verus! {

/// Full session claims, for handlers that need the caller's email or role.
#[derive(Debug, PartialEq, Eq)]
pub struct SessionClaims {
    pub user_id: i64,
    pub expires_at: i64,
    pub email: String,
    pub name: String,
    pub role: String,
}

/// What session claims say.
pub struct ClaimsView {
    pub user_id: i64,
    pub expires_at: i64,
    pub email: Seq<char>,
    pub name: Seq<char>,
    pub role: Seq<char>,
}

impl View for SessionClaims {
    type V = ClaimsView;

    open spec fn view(&self) -> ClaimsView {
        ClaimsView {
            user_id: self.user_id,
            expires_at: self.expires_at,
            email: self.email@,
            name: self.name@,
            role: self.role@,
        }
    }
}

impl Clone for SessionClaims {
    fn clone(&self) -> (copy: SessionClaims)
        ensures
            copy == *self,
    {
        SessionClaims {
            user_id: self.user_id,
            expires_at: self.expires_at,
            email: self.email.clone(),
            name: self.name.clone(),
            role: self.role.clone(),
        }
    }
}

/// The identity behind a personal access token. A token acts as the user who owns it, with that
/// user's role and project memberships, capped by `scope`; an SDK key, by contrast, is always
/// admin-equivalent.
#[derive(Debug, PartialEq, Eq)]
pub struct PatIdentity {
    pub claims: SessionClaims,
    /// `"read_only"` or `"read_write"`.
    pub scope: String,
}

/// What a token identity says.
pub struct PatView {
    pub claims: ClaimsView,
    pub scope: Seq<char>,
}

impl View for PatIdentity {
    type V = PatView;

    open spec fn view(&self) -> PatView {
        PatView { claims: self.claims@, scope: self.scope@ }
    }
}

impl Clone for PatIdentity {
    fn clone(&self) -> (copy: PatIdentity)
        ensures
            copy == *self,
    {
        PatIdentity { claims: self.claims.clone(), scope: self.scope.clone() }
    }
}

/// A validated SDK key. Only the key that the server's own environment sets has no
/// `environment_id`.
#[derive(Debug, PartialEq, Eq)]
pub struct SdkKeyEntry {
    pub id: i64,
    pub name: String,
    pub value: String,
    pub environment_id: Option<String>,
}

/// What an SDK key says.
pub struct SdkKeyView {
    pub id: i64,
    pub name: Seq<char>,
    pub value: Seq<char>,
    pub environment_id: Option<Seq<char>>,
}

impl View for SdkKeyEntry {
    type V = SdkKeyView;

    open spec fn view(&self) -> SdkKeyView {
        SdkKeyView {
            id: self.id,
            name: self.name@,
            value: self.value@,
            environment_id: maybe(self.environment_id),
        }
    }
}

impl Clone for SdkKeyEntry {
    fn clone(&self) -> (copy: SdkKeyEntry)
        ensures
            copy == *self,
    {
        SdkKeyEntry {
            id: self.id,
            name: self.name.clone(),
            value: self.value.clone(),
            environment_id: copy_of_text(&self.environment_id),
        }
    }
}

/// The identities that authentication has attached to a request.
#[derive(Debug, PartialEq, Eq)]
pub struct RequestIdentities {
    pub sdk_key: Option<SdkKeyEntry>,
    pub session: Option<SessionClaims>,
    pub pat: Option<PatIdentity>,
}

/// What is attached to a request.
pub struct IdentitiesView {
    pub sdk_key: Option<SdkKeyView>,
    pub session: Option<ClaimsView>,
    pub pat: Option<PatView>,
}

impl View for RequestIdentities {
    type V = IdentitiesView;

    open spec fn view(&self) -> IdentitiesView {
        IdentitiesView {
            sdk_key: maybe(self.sdk_key),
            session: maybe(self.session),
            pat: maybe(self.pat),
        }
    }
}

impl Clone for RequestIdentities {
    fn clone(&self) -> (copy: RequestIdentities)
        ensures
            copy == *self,
    {
        RequestIdentities {
            sdk_key: match &self.sdk_key {
                Some(entry) => Some(entry.clone()),
                None => None,
            },
            session: copy_of_session(&self.session),
            pat: copy_of_pat(&self.pat),
        }
    }
}

/// The user identities of a request that authentication has already validated.
#[derive(Debug, PartialEq, Eq)]
pub struct AuthContext {
    pub session: Option<SessionClaims>,
    pub pat: Option<PatIdentity>,
}

/// What an authentication context says.
pub struct ContextView {
    pub session: Option<ClaimsView>,
    pub pat: Option<PatView>,
}

impl View for AuthContext {
    type V = ContextView;

    open spec fn view(&self) -> ContextView {
        ContextView { session: maybe(self.session), pat: maybe(self.pat) }
    }
}

impl Clone for AuthContext {
    fn clone(&self) -> (copy: AuthContext)
        ensures
            copy == *self,
    {
        AuthContext { session: copy_of_session(&self.session), pat: copy_of_pat(&self.pat) }
    }
}

impl AuthContext {
    /// The user identities of a request; its SDK key is none of them.
    pub fn from_identities(identities: &RequestIdentities) -> (context: AuthContext)
        ensures
            context.session == identities.session,
            context.pat == identities.pat,
    {
        AuthContext {
            session: copy_of_session(&identities.session),
            pat: copy_of_pat(&identities.pat),
        }
    }
}

fn copy_of_session(session: &Option<SessionClaims>) -> (copy: Option<SessionClaims>)
    ensures
        copy == *session,
{
    match session {
        Some(claims) => Some(claims.clone()),
        None => None,
    }
}

fn copy_of_pat(pat: &Option<PatIdentity>) -> (copy: Option<PatIdentity>)
    ensures
        copy == *pat,
{
    match pat {
        Some(identity) => Some(identity.clone()),
        None => None,
    }
}

pub(crate) fn copy_of_text(text: &Option<String>) -> (copy: Option<String>)
    ensures
        copy == *text,
{
    match text {
        Some(t) => Some(t.clone()),
        None => None,
    }
}

/// The claims that speak for the caller: those of the session, else those of the token's owner.
pub open spec fn caller_claims(session: Option<ClaimsView>, pat: Option<PatView>) -> Option<
    ClaimsView,
> {
    match session {
        Some(claims) => Some(claims),
        None => match pat {
            Some(identity) => Some(identity.claims),
            None => None,
        },
    }
}

/// Resolves the caller's identity. The session takes priority over the token; a request that an
/// SDK key alone authenticated has no user identity.
pub fn get_session_claims(ctx: &AuthContext) -> (claims: Option<SessionClaims>)
    ensures
        maybe(claims) == caller_claims(ctx@.session, ctx@.pat),
{
    match &ctx.session {
        Some(claims) => Some(claims.clone()),
        None => match &ctx.pat {
            Some(identity) => Some(identity.claims.clone()),
            None => None,
        },
    }
}

/// The scope that caps the caller: that of the token, and none where a session speaks for the
/// caller or no token does.
pub open spec fn scope_cap(session: Option<ClaimsView>, pat: Option<PatView>) -> Option<
    Seq<char>,
> {
    match (session, pat) {
        (None, Some(identity)) => Some(identity.scope),
        _ => None,
    }
}

/// The scope of the personal access token that authenticated this request; nothing where a
/// session cookie or an SDK key did, which are uncapped.
///
/// It keeps a `read_only` token from minting a `read_write` one for the same user.
pub fn pat_scope(ctx: &AuthContext) -> (scope: Option<&str>)
    ensures
        maybe(scope) == scope_cap(ctx@.session, ctx@.pat),
{
    if ctx.session.is_some() {
        return None;
    }
    match &ctx.pat {
        Some(identity) => Some(identity.scope.as_str()),
        None => None,
    }
}

} // verus!
