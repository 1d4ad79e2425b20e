//! What authentication amounts to, whatever the lookups come back with.
use crate::access::{
    admin_verdict, editor_step, editor_verdict, edits, env_role_step, may_write,
    project_role_verdict, AccessView,
};
use crate::auth::{
    attached, auth_next, auth_start, auth_start_at, awaits, live_claims, pat_of, refreshed,
    server_key, session_verdict, stored_key, AccountView, AuthActionView, AuthReplyView,
    AuthStateView, IdentityView, PatRowView, SdkKeyRowView,
};
use crate::credentials::{
    authorization, bearer_in, environment_in, sdk_key_in, sdk_key_param, sha256_of,
};
use crate::identity::{
    caller_claims, scope_cap, ClaimsView, IdentitiesView, PatView, SdkKeyView,
};
use crate::stream::{scope_of, ScopeView};
use crate::text::hex_of;
use vstd::prelude::*;
use vstd::utf8::encode_utf8;

verus! {

/// The credentials of a request: a live session, an SDK key and a bearer token.
pub struct CredentialsView {
    pub session: Option<ClaimsView>,
    pub sdk_key: Option<Seq<char>>,
    pub bearer: Option<Seq<char>>,
}

/// What each lookup would come back with.
pub struct LookupsView {
    pub account: Result<Option<AccountView>, ()>,
    pub sdk_key: Result<Option<SdkKeyRowView>, ()>,
    pub env_key: Option<Seq<char>>,
    pub token: Result<Option<PatRowView>, ()>,
}

/// The answer to the session of a request: its identity, none, or a refusal.
pub open spec fn by_session(c: CredentialsView, l: LookupsView) -> Result<
    Option<IdentityView>,
    u16,
> {
    match c.session {
        Some(claims) => match session_verdict(claims, l.account) {
            Ok(Some(current)) => Ok(Some(IdentityView::Session(current))),
            Ok(None) => Ok(None),
            Err(code) => Err(code),
        },
        None => Ok(None),
    }
}

/// The answer to the SDK key of a request.
pub open spec fn by_sdk_key(c: CredentialsView, l: LookupsView) -> Result<
    Option<IdentityView>,
    u16,
> {
    match c.sdk_key {
        Some(key) => match l.sdk_key {
            Ok(Some(row)) => Ok(Some(IdentityView::SdkKey(stored_key(row)))),
            Ok(None) => match server_key(key, l.env_key) {
                Some(entry) => Ok(Some(IdentityView::SdkKey(entry))),
                None => Ok(None),
            },
            Err(()) => Err(503),
        },
        None => Ok(None),
    }
}

/// The answer to the bearer token of a request.
pub open spec fn by_token(c: CredentialsView, l: LookupsView) -> Result<
    Option<IdentityView>,
    u16,
> {
    match c.bearer {
        Some(token) => match l.token {
            Ok(Some(row)) => Ok(Some(IdentityView::Pat(pat_of(row)))),
            Ok(None) => Ok(None),
            Err(()) => Err(503),
        },
        None => Ok(None),
    }
}

/// The verdict on a request: the first of session, SDK key and token that gives an identity or a
/// refusal, and 401 where none does.
pub open spec fn auth_verdict(c: CredentialsView, l: LookupsView) -> Result<IdentityView, u16> {
    match by_session(c, l) {
        Err(code) => Err(code),
        Ok(Some(identity)) => Ok(identity),
        Ok(None) => match by_sdk_key(c, l) {
            Err(code) => Err(code),
            Ok(Some(identity)) => Ok(identity),
            Ok(None) => match by_token(c, l) {
                Err(code) => Err(code),
                Ok(Some(identity)) => Ok(identity),
                Ok(None) => Err(401),
            },
        },
    }
}

/// How many replies a state may still wait for.
pub open spec fn replies_left(state: AuthStateView) -> nat {
    match state {
        AuthStateView::Account { .. } => 4,
        AuthStateView::SdkKey { .. } => 3,
        AuthStateView::Token => 2,
        AuthStateView::Touch { .. } => 1,
        AuthStateView::Done => 0,
    }
}

/// The reply that a state waits for.
pub open spec fn reply_to(state: AuthStateView, l: LookupsView) -> AuthReplyView {
    match state {
        AuthStateView::Account { .. } => AuthReplyView::Account(l.account),
        AuthStateView::SdkKey { .. } => AuthReplyView::SdkKey {
            row: l.sdk_key,
            env_key: l.env_key,
        },
        AuthStateView::Token => AuthReplyView::Token(l.token),
        _ => AuthReplyView::Touched,
    }
}

/// The answer that the steps come to, each reply taken from the lookups.
pub open spec fn auth_answer(step: (AuthStateView, AuthActionView), l: LookupsView) -> Result<
    IdentityView,
    u16,
>
    decreases replies_left(step.0),
{
    match step.1 {
        AuthActionView::Accept(identity) => Ok(identity),
        AuthActionView::Reject(code) => Err(code),
        _ => if step.0 is Done {
            Err(401)
        } else {
            auth_answer(auth_next(step.0, reply_to(step.0, l)), l)
        },
    }
}

/// Every reply that was waited for brings authentication closer to its end: no lookup is asked
/// for twice, and after at most four replies the request is accepted or refused.
pub proof fn law_auth_ends(state: AuthStateView, reply: AuthReplyView)
    requires
        awaits(state, reply),
    ensures
        replies_left(auth_next(state, reply).0) < replies_left(state),
        auth_next(state, reply).0 is Done <==> (auth_next(state, reply).1 is Accept || auth_next(
            state,
            reply,
        ).1 is Reject),
{
}

/// The steps come to the verdict.
pub proof fn law_auth_comes_to_its_verdict(c: CredentialsView, l: LookupsView)
    ensures
        auth_answer(auth_start(c.session, c.sdk_key, c.bearer), l) == auth_verdict(c, l),
{
    reveal_with_fuel(auth_answer, 6);
}

/// A live session whose account exists speaks for the request, whatever else it carries.
pub proof fn law_session_comes_first(
    c: CredentialsView,
    l: LookupsView,
    claims: ClaimsView,
    account: AccountView,
)
    requires
        c.session == Some(claims),
        l.account == Ok::<Option<AccountView>, ()>(Some(account)),
    ensures
        auth_verdict(c, l) == Ok::<IdentityView, u16>(
            IdentityView::Session(refreshed(claims, account)),
        ),
{
}

/// Whoever is accepted by session has the email, name and role that the account has now; what
/// the cookie said of them does not matter.
pub proof fn law_session_role_is_current(c: CredentialsView, l: LookupsView, current: ClaimsView)
    requires
        auth_verdict(c, l) == Ok::<IdentityView, u16>(IdentityView::Session(current)),
    ensures
        c.session is Some,
        current.user_id == c.session->0.user_id,
        l.account matches Ok(Some(account)) && current.email == account.email && current.name
            == account.name && current.role == account.role,
{
}

/// An expired cookie counts for nothing: the request is answered as if it had none.
pub proof fn law_expired_session_is_none(
    fields: Map<Seq<char>, Seq<Seq<u8>>>,
    query: Seq<char>,
    cookie: ClaimsView,
    now: i64,
)
    requires
        cookie.expires_at <= now,
    ensures
        auth_start_at(fields, query, Some(cookie), now) == auth_start_at(fields, query, None, now),
{
}

/// A session of a user who has been deleted counts for nothing: the request is answered as if it
/// had none.
pub proof fn law_deleted_user_is_no_session(c: CredentialsView, l: LookupsView)
    requires
        l.account == Ok::<Option<AccountView>, ()>(None),
    ensures
        auth_verdict(c, l) == auth_verdict(CredentialsView { session: None, ..c }, l),
{
}

/// A personal access token is accepted only from the `Authorization` field: whatever the query
/// holds, a request without a bearer header gets no token identity.
pub proof fn law_token_is_header_only(
    fields: Map<Seq<char>, Seq<Seq<u8>>>,
    query: Seq<char>,
    cookie: Option<ClaimsView>,
    now: i64,
    l: LookupsView,
)
    requires
        bearer_in(authorization(fields)) is None,
    ensures
        !(auth_answer(auth_start_at(fields, query, cookie, now), l) matches Ok(
            IdentityView::Pat(_),
        )),
{
    let c = CredentialsView {
        session: live_claims(cookie, now),
        sdk_key: sdk_key_in(authorization(fields), query),
        bearer: bearer_in(authorization(fields)),
    };
    law_auth_comes_to_its_verdict(c, l);
}

/// The bearer header takes priority over the query parameter, which counts only without it.
pub proof fn law_bearer_before_query(authorization: Option<Seq<char>>, query: Seq<char>)
    ensures
        bearer_in(authorization) is Some ==> sdk_key_in(authorization, query) == bearer_in(
            authorization,
        ),
        bearer_in(authorization) is None ==> sdk_key_in(authorization, query) == sdk_key_param(
            query,
        ),
{
}

/// A refusal is 401 or 503. It is 503 exactly where a lookup that was needed failed, so a
/// database that is down is never reported as bad credentials.
pub proof fn law_failed_lookup_is_503(c: CredentialsView, l: LookupsView)
    ensures
        auth_verdict(c, l) matches Err(code) ==> code == 401 || code == 503,
        auth_verdict(c, l) == Err::<IdentityView, u16>(503) <==> {
            ||| c.session is Some && l.account is Err
            ||| by_session(c, l) == Ok::<Option<IdentityView>, u16>(None) && c.sdk_key is Some
                && l.sdk_key is Err
            ||| by_session(c, l) == Ok::<Option<IdentityView>, u16>(None) && by_sdk_key(c, l)
                == Ok::<Option<IdentityView>, u16>(None) && c.bearer is Some && l.token is Err
        },
{
}

/// A request without credentials is refused with 401.
pub proof fn law_no_credentials_is_401(l: LookupsView)
    ensures
        auth_verdict(CredentialsView { session: None, sdk_key: None, bearer: None }, l) == Err::<
            IdentityView,
            u16,
        >(401),
{
}

/// Only the key that the server's own environment sets comes without an environment, and an
/// empty setting admits nobody.
pub proof fn law_unscoped_key_is_the_servers(c: CredentialsView, l: LookupsView, entry: SdkKeyView)
    requires
        auth_verdict(c, l) == Ok::<IdentityView, u16>(IdentityView::SdkKey(entry)),
        entry.environment_id is None,
    ensures
        c.sdk_key is Some,
        l.env_key == c.sdk_key,
        entry.value == c.sdk_key->0,
        entry.value.len() > 0,
        l.sdk_key == Ok::<Option<SdkKeyRowView>, ()>(None),
{
}

/// A token's identity is its owner's, under the token's scope.
pub proof fn law_token_acts_as_its_owner(c: CredentialsView, l: LookupsView)
    requires
        auth_verdict(c, l) matches Ok(IdentityView::Pat(_)),
    ensures
        l.token matches Ok(Some(row)) && auth_verdict(c, l) == Ok::<IdentityView, u16>(
            IdentityView::Pat(pat_of(row)),
        ),
{
}

/// Whoever was accepted is somebody to the role checks: they answer 401 to no accepted request.
pub proof fn law_accepted_is_never_401(
    identity: IdentityView,
    path: Seq<char>,
    role: Result<Option<Seq<char>>, ()>,
)
    ensures
        admin_verdict(attached(identity)) != Err::<(), u16>(401),
        editor_verdict(attached(identity), path, role) != Err::<(), u16>(401),
{
}

/// A token that was accepted caps its request: its scope is the cap that handlers see, and without
/// the scope `read_write` both role checks refuse it with 403. A session and an SDK key are
/// uncapped.
pub proof fn law_token_scope_caps_its_request(
    identity: IdentityView,
    path: Seq<char>,
    role: Result<Option<Seq<char>>, ()>,
)
    ensures
        ({
            let who = attached(identity);
            match identity {
                IdentityView::Pat(pat) => {
                    &&& scope_cap(who.session, who.pat) == Some(pat.scope)
                    &&& pat.scope != "read_write"@ ==> admin_verdict(who) == Err::<(), u16>(403)
                        && editor_verdict(who, path, role) == Err::<(), u16>(403)
                },
                _ => scope_cap(who.session, who.pat) is None,
            }
        }),
{
}

/// Of all the requests that are accepted, only one with the key that the server's own environment
/// sets may see every environment on the event stream without being a member anywhere.
pub proof fn law_unscoped_stream_is_the_servers(
    c: CredentialsView,
    l: LookupsView,
    identity: IdentityView,
)
    requires
        auth_verdict(c, l) == Ok::<IdentityView, u16>(identity),
    ensures
        ({
            let who = attached(identity);
            let environment_id = match who.sdk_key {
                Some(entry) => entry.environment_id,
                None => None,
            };
            scope_of(environment_id, caller_claims(who.session, who.pat)) is All ==> {
                &&& identity is SdkKey
                &&& c.sdk_key is Some
                &&& l.env_key == c.sdk_key
                &&& c.sdk_key->0.len() > 0
            }
        }),
{
}

// ---------------------------------------------------------------------------
// A request and the database
// ---------------------------------------------------------------------------
/// A database: what it answers to each question, by what is asked. `env_key` is the key that the
/// server's own environment sets.
pub struct Database {
    pub accounts: spec_fn(i64) -> Result<Option<AccountView>, ()>,
    pub sdk_keys: spec_fn(Seq<char>) -> Result<Option<SdkKeyRowView>, ()>,
    pub tokens: spec_fn(Seq<char>) -> Result<Option<PatRowView>, ()>,
    pub env_key: Option<Seq<char>>,
}

/// The answer of the database to what an action asks.
pub open spec fn answer_of(db: Database, action: AuthActionView) -> AuthReplyView {
    match action {
        AuthActionView::FindAccount { user_id } => AuthReplyView::Account((db.accounts)(user_id)),
        AuthActionView::FindSdkKey { key } => AuthReplyView::SdkKey {
            row: (db.sdk_keys)(key),
            env_key: db.env_key,
        },
        AuthActionView::FindToken { hash } => AuthReplyView::Token((db.tokens)(hash)),
        _ => AuthReplyView::Touched,
    }
}

/// What authentication comes to over a database, within so many replies; nothing where it comes
/// to no answer.
pub open spec fn decided(step: (AuthStateView, AuthActionView), db: Database, replies: nat) -> Option<
    Result<IdentityView, u16>,
>
    decreases replies,
{
    match step.1 {
        AuthActionView::Accept(identity) => Some(Ok(identity)),
        AuthActionView::Reject(code) => Some(Err(code)),
        _ => if replies == 0 {
            None
        } else {
            decided(
                auth_next(step.0, answer_of(db, step.1)),
                db,
                (replies - 1) as nat,
            )
        },
    }
}

/// A cookie speaks for nobody: there is none, it has expired, or its user is gone.
pub open spec fn nobody_by_session(cookie: Option<ClaimsView>, now: i64, db: Database) -> bool {
    match cookie {
        None => true,
        Some(c) => c.expires_at <= now || (db.accounts)(c.user_id) == Ok::<
            Option<AccountView>,
            (),
        >(None),
    }
}

/// An SDK key speaks for nobody: there is none, or it is neither stored nor the one that the
/// server's own environment sets.
pub open spec fn nobody_by_sdk_key(key: Option<Seq<char>>, db: Database) -> bool {
    match key {
        None => true,
        Some(k) => (db.sdk_keys)(k) == Ok::<Option<SdkKeyRowView>, ()>(None) && !(k.len() > 0
            && db.env_key == Some(k)),
    }
}

/// A request with a cookie that has not expired is accepted as the user of the cookie, with the
/// email, name and role that the account of that user has, whatever else the request carries; and
/// refused with 503 where the account cannot be looked up.
pub proof fn law_request_by_session(
    fields: Map<Seq<char>, Seq<Seq<u8>>>,
    query: Seq<char>,
    cookie: ClaimsView,
    now: i64,
    db: Database,
)
    requires
        cookie.expires_at > now,
    ensures
        match (db.accounts)(cookie.user_id) {
            Ok(Some(account)) => decided(
                auth_start_at(fields, query, Some(cookie), now),
                db,
                4,
            ) == Some(
                Ok::<IdentityView, u16>(
                    IdentityView::Session(
                        ClaimsView {
                            user_id: cookie.user_id,
                            expires_at: cookie.expires_at,
                            email: account.email,
                            name: account.name,
                            role: account.role,
                        },
                    ),
                ),
            ),
            Err(()) => decided(auth_start_at(fields, query, Some(cookie), now), db, 4) == Some(
                Err::<IdentityView, u16>(503),
            ),
            Ok(None) => true,
        },
{
    reveal_with_fuel(decided, 5);
}

/// A request without a session that carries an SDK key is accepted with the stored key, field by
/// field, in its environment; else, where the key is the one that the server's own environment
/// sets and is not empty, as the server's own, in no environment; and refused with 503 where the
/// key cannot be looked up.
pub proof fn law_request_by_sdk_key(
    fields: Map<Seq<char>, Seq<Seq<u8>>>,
    query: Seq<char>,
    cookie: Option<ClaimsView>,
    now: i64,
    db: Database,
    key: Seq<char>,
)
    requires
        nobody_by_session(cookie, now, db),
        sdk_key_in(authorization(fields), query) == Some(key),
    ensures
        match (db.sdk_keys)(key) {
            Ok(Some(row)) => decided(auth_start_at(fields, query, cookie, now), db, 4) == Some(
                Ok::<IdentityView, u16>(
                    IdentityView::SdkKey(
                        SdkKeyView {
                            id: row.id,
                            name: row.name,
                            value: row.value,
                            environment_id: Some(row.environment_id),
                        },
                    ),
                ),
            ),
            Ok(None) => key.len() > 0 && db.env_key == Some(key) ==> decided(
                auth_start_at(fields, query, cookie, now),
                db,
                4,
            ) == Some(
                Ok::<IdentityView, u16>(
                    IdentityView::SdkKey(
                        SdkKeyView {
                            id: -1i64,
                            name: "env:SDK_KEY"@,
                            value: key,
                            environment_id: None,
                        },
                    ),
                ),
            ),
            Err(()) => decided(auth_start_at(fields, query, cookie, now), db, 4) == Some(
                Err::<IdentityView, u16>(503),
            ),
        },
{
    reveal_with_fuel(decided, 5);
}

/// A request without a session and without a key that counts, but with a bearer token, is accepted
/// as the owner of the token that is stored under the hexadecimal SHA-256 of its UTF-8: with the
/// scope of the row, and with the user, email, name and role of the row, field by field. It is
/// refused with 401 where there is no such token, and with 503 where it cannot be looked up.
pub proof fn law_request_by_token(
    fields: Map<Seq<char>, Seq<Seq<u8>>>,
    query: Seq<char>,
    cookie: Option<ClaimsView>,
    now: i64,
    db: Database,
    token: Seq<char>,
)
    requires
        nobody_by_session(cookie, now, db),
        nobody_by_sdk_key(sdk_key_in(authorization(fields), query), db),
        bearer_in(authorization(fields)) == Some(token),
    ensures
        match (db.tokens)(hex_of(sha256_of(encode_utf8(token)))) {
            Ok(Some(row)) => decided(auth_start_at(fields, query, cookie, now), db, 4) == Some(
                Ok::<IdentityView, u16>(
                    IdentityView::Pat(
                        PatView {
                            claims: ClaimsView {
                                user_id: row.user_id,
                                expires_at: i64::MAX,
                                email: row.email,
                                name: row.name,
                                role: row.role,
                            },
                            scope: row.scope,
                        },
                    ),
                ),
            ),
            Ok(None) => decided(auth_start_at(fields, query, cookie, now), db, 4) == Some(
                Err::<IdentityView, u16>(401),
            ),
            Err(()) => decided(auth_start_at(fields, query, cookie, now), db, 4) == Some(
                Err::<IdentityView, u16>(503),
            ),
        },
{
    reveal_with_fuel(decided, 5);
}

/// A request without a session, without a key that counts and without a bearer token is refused
/// with 401.
pub proof fn law_request_by_nothing(
    fields: Map<Seq<char>, Seq<Seq<u8>>>,
    query: Seq<char>,
    cookie: Option<ClaimsView>,
    now: i64,
    db: Database,
)
    requires
        nobody_by_session(cookie, now, db),
        nobody_by_sdk_key(sdk_key_in(authorization(fields), query), db),
        bearer_in(authorization(fields)) is None,
    ensures
        decided(auth_start_at(fields, query, cookie, now), db, 4) == Some(
            Err::<IdentityView, u16>(401),
        ),
{
    reveal_with_fuel(decided, 5);
}

/// The use of a token that was found is noted under its own id before its owner is accepted, and
/// only then.
pub proof fn law_token_use_is_noted(state: AuthStateView, reply: AuthReplyView)
    requires
        awaits(state, reply),
    ensures
        auth_next(state, reply).1 is TouchToken <==> (reply matches AuthReplyView::Token(
            Ok(Some(_)),
        )),
        reply matches AuthReplyView::Token(Ok(Some(row))) ==> auth_next(state, reply).1 == (
        AuthActionView::TouchToken { id: row.id }),
        auth_next(state, reply).1 matches AuthActionView::Accept(IdentityView::Pat(_)) ==> reply
            is Touched,
{
}

// ---------------------------------------------------------------------------
// What an identity may do
// ---------------------------------------------------------------------------
/// The identity that a request got is attached to it as it is, and nothing else is.
pub proof fn law_identity_is_attached_alone(claims: ClaimsView, entry: SdkKeyView, pat: PatView)
    ensures
        attached(IdentityView::Session(claims)) == (IdentitiesView {
            sdk_key: None,
            session: Some(claims),
            pat: None,
        }),
        attached(IdentityView::SdkKey(entry)) == (IdentitiesView {
            sdk_key: Some(entry),
            session: None,
            pat: None,
        }),
        attached(IdentityView::Pat(pat)) == (IdentitiesView {
            sdk_key: None,
            session: None,
            pat: Some(pat),
        }),
{
}

/// A session speaks for the caller, uncapped, whatever token there is; without one the owner of
/// the token does, capped by its scope; without either nobody does.
pub proof fn law_who_speaks(claims: ClaimsView, pat: PatView, any: Option<PatView>)
    ensures
        caller_claims(Some(claims), any) == Some(claims),
        caller_claims(None, Some(pat)) == Some(pat.claims),
        caller_claims(None, None) is None,
        scope_cap(Some(claims), any) is None,
        scope_cap(None, Some(pat)) == Some(pat.scope),
        scope_cap(None, None) is None,
{
}

/// Who passes the check for admins: an SDK key; a session of an admin, unless a token that may not
/// write comes with it; and, without a session, a token of an admin that may write. Nobody is
/// refused with 401, and everybody else with 403.
pub proof fn law_who_is_admin(who: IdentitiesView)
    ensures
        ({
            let writes = who.pat matches Some(pat) ==> pat.scope == "read_write"@;
            let admin = match (who.session, who.pat) {
                (Some(claims), _) => claims.role == "admin"@,
                (None, Some(pat)) => pat.claims.role == "admin"@,
                (None, None) => false,
            };
            let nobody = who.session is None && who.pat is None;
            &&& admin_verdict(who) is Ok <==> who.sdk_key is Some || (admin && writes)
            &&& admin_verdict(who) == Err::<(), u16>(401) <==> who.sdk_key is None && nobody
            &&& admin_verdict(who) == Err::<(), u16>(403) <==> who.sdk_key is None && !nobody && !(
            admin && writes)
        }),
{
}

/// What a project role allows: `admin` and `editor` everything, `viewer` to read; any other role
/// and none are refused with 403, and a lookup that failed with 500.
pub proof fn law_what_a_project_role_allows(role: Seq<char>)
    ensures
        project_role_verdict(Ok(Some(role)), true) is Ok <==> role == "admin"@ || role
            == "editor"@,
        project_role_verdict(Ok(Some(role)), false) is Ok <==> role == "admin"@ || role
            == "editor"@ || role == "viewer"@,
        forall|write: bool|
            #![auto]
            project_role_verdict(Ok(Some(role)), write) is Err ==> project_role_verdict(
                Ok(Some(role)),
                write,
            ) == Err::<(), u16>(403),
        forall|write: bool|
            #![auto]
            project_role_verdict(Ok(None), write) == Err::<(), u16>(403),
        forall|write: bool|
            #![auto]
            project_role_verdict(Err(()), write) == Err::<(), u16>(500),
{
}

/// Who may write where a path leads, before any lookup: an SDK key may; a token that may not write
/// is refused with 403, and nobody with 401. Where the path names an environment, an admin may, and
/// anyone else is looked up by their own id in that environment; where it names none, admins and
/// editors may, and anyone else is refused with 403.
pub proof fn law_who_is_editor(who: IdentitiesView, path: Seq<char>)
    ensures
        ({
            let blocked = who.pat matches Some(pat) && pat.scope != "read_write"@;
            let step = editor_step(who, path);
            if who.sdk_key is Some {
                step is Allow
            } else if blocked {
                step == AccessView::Reject(403)
            } else {
                match (who.session, who.pat) {
                    (None, None) => step == AccessView::Reject(401),
                    (Some(claims), _) => editor_step_is(step, claims, path),
                    (None, Some(pat)) => editor_step_is(step, pat.claims, path),
                }
            }
        }),
{
}

/// A workspace admin needs no role in a project; anyone else is looked up, by their own id in the
/// environment that was named.
pub proof fn law_project_roles_are_looked_up(claims: ClaimsView, env_id: Seq<char>)
    ensures
        env_role_step(claims, env_id) is Allow <==> claims.role == "admin"@,
        claims.role != "admin"@ ==> env_role_step(claims, env_id) == (AccessView::FindProjectRole {
            env_id,
            user_id: claims.user_id,
        }),
{
}

/// The step for a caller who may write at all.
pub open spec fn editor_step_is(step: AccessView, claims: ClaimsView, path: Seq<char>) -> bool {
    match environment_in(path) {
        Some(env_id) => if claims.role == "admin"@ {
            step is Allow
        } else {
            step == (AccessView::FindProjectRole { env_id, user_id: claims.user_id })
        },
        None => if claims.role == "admin"@ || claims.role == "editor"@ {
            step is Allow
        } else {
            step == AccessView::Reject(403)
        },
    }
}

/// Which environments a connection may see: that of its SDK key; else those of its user, by id and
/// role; else all.
pub proof fn law_what_a_connection_may_see(
    env_id: Seq<char>,
    claims: ClaimsView,
    any: Option<ClaimsView>,
)
    ensures
        scope_of(Some(env_id), any) == ScopeView::Only(env_id),
        scope_of(None, Some(claims)) == (ScopeView::Member {
            user_id: claims.user_id,
            role: claims.role,
        }),
        scope_of(None, None) is All,
{
}

/// Without a token anyone may write, and with one exactly where its scope is `read_write`; the
/// roles that edit are `admin` and `editor`.
pub proof fn law_who_may_write(pat: PatView, role: Seq<char>)
    ensures
        may_write(None),
        may_write(Some(pat)) <==> pat.scope == "read_write"@,
        edits(role) <==> role == "admin"@ || role == "editor"@,
{
}

/// What a cookie counts for: itself before its time, and nothing from then on.
pub proof fn law_cookie_counts_before_its_time(cookie: ClaimsView, now: i64)
    ensures
        live_claims(Some(cookie), now) == Some(cookie) <==> now < cookie.expires_at,
        live_claims(Some(cookie), now) is None <==> cookie.expires_at <= now,
        live_claims(None, now) is None,
{
}

/// What a session comes to: the user and expiry of the cookie with the email, name and role of the
/// account; nothing without an account; 503 where the lookup failed.
pub proof fn law_session_comes_to(claims: ClaimsView, account: AccountView)
    ensures
        session_verdict(claims, Ok(Some(account))) == Ok::<Option<ClaimsView>, u16>(
            Some(
                ClaimsView {
                    user_id: claims.user_id,
                    expires_at: claims.expires_at,
                    email: account.email,
                    name: account.name,
                    role: account.role,
                },
            ),
        ),
        session_verdict(claims, Ok(None)) == Ok::<Option<ClaimsView>, u16>(None),
        session_verdict(claims, Err(())) == Err::<Option<ClaimsView>, u16>(503),
{
}

/// What stored keys and tokens come to, field by field.
pub proof fn law_rows_come_to(key: SdkKeyRowView, pat: PatRowView)
    ensures
        stored_key(key).id == key.id,
        stored_key(key).name == key.name,
        stored_key(key).value == key.value,
        stored_key(key).environment_id == Some(key.environment_id),
        pat_of(pat).scope == pat.scope,
        pat_of(pat).claims.user_id == pat.user_id,
        pat_of(pat).claims.email == pat.email,
        pat_of(pat).claims.name == pat.name,
        pat_of(pat).claims.role == pat.role,
        pat_of(pat).claims.expires_at == i64::MAX,
{
}

/// A key is the server's own exactly where the server's own environment sets that very key and it
/// is not empty; it then has no environment.
pub proof fn law_servers_own_key(key: Seq<char>, env_key: Option<Seq<char>>)
    ensures
        server_key(key, env_key) is Some <==> key.len() > 0 && env_key == Some(key),
        server_key(key, env_key) matches Some(entry) ==> entry == (SdkKeyView {
            id: -1i64,
            name: "env:SDK_KEY"@,
            value: key,
            environment_id: None,
        }),
{
}

/// What is asked first: the account of a live session, by its user; else the SDK key, to the
/// letter; else the token, by its hash; and without any of them the request is refused with 401.
pub proof fn law_what_is_asked_first(claims: ClaimsView, key: Seq<char>, token: Seq<char>)
    ensures
        forall|k: Option<Seq<char>>, b: Option<Seq<char>>| #[trigger]
            auth_start(Some(claims), k, b).1 == (AuthActionView::FindAccount {
                user_id: claims.user_id,
            }),
        forall|b: Option<Seq<char>>| #[trigger]
            auth_start(None, Some(key), b).1 == (AuthActionView::FindSdkKey { key }),
        auth_start(None, None, Some(token)).1 == (AuthActionView::FindToken {
            hash: hex_of(sha256_of(encode_utf8(token))),
        }),
        auth_start(None, None, None).1 == AuthActionView::Reject(401),
{
}

/// Authentication takes every answer to what it asked.
pub proof fn law_every_lookup_is_taken(state: AuthStateView, reply: AuthReplyView)
    ensures
        state is Account ==> (awaits(state, reply) <==> reply is Account),
        state is SdkKey ==> (awaits(state, reply) <==> reply is SdkKey),
        state is Token ==> (awaits(state, reply) <==> reply is Token),
        state is Touch ==> (awaits(state, reply) <==> reply is Touched),
        state is Done ==> !awaits(state, reply),
{
}

} // verus!
