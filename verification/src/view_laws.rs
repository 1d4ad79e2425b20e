//! What the views of the library's types show: every field of every value, under its own name.
//!
//! Contracts speak of views. These laws say that a view leaves nothing out and mixes nothing up,
//! so that what holds of the views holds of the values.
use crate::access::{verdict, AccessStep, AccessView};
use crate::auth::{
    lookup, AccountRow, AccountView, AuthAction, AuthActionView, AuthReply, AuthReplyView,
    AuthState, AuthStateView, Identity, IdentityView, PatRow, PatRowView, SdkKeyRow,
    SdkKeyRowView,
};
use crate::clients::ConnectedClient;
use crate::headers::header_fields;
use crate::identity::{
    AuthContext, ClaimsView, PatIdentity, PatView, RequestIdentities, SdkKeyEntry, SdkKeyView,
    SessionClaims,
};
use crate::json::{json_of, member, text_member, Json};
use crate::scheduler::{
    DueJob, DuePass, PassAction, PassActionView, PassReply, PassReplyView, Phase, PhaseView,
};
use crate::sdk::{maybe_document, UserContext};
use crate::snapshot::{
    snapshot_takes, SnapshotAction, SnapshotActionView, SnapshotReply, SnapshotReplyView,
    SnapshotState, SnapshotStateView,
};
use crate::sse::{
    segments_after, taken_as, SseAction, SseActionView, SseEvent, SsePhase, SsePhaseView,
    SseReply, SseReplyView,
};
use crate::status::Status;
use crate::stream::{documents, expands_to, strings, EnvScope, ScopeView};
use crate::text::{found, maybe, texts};
use axum::http::HeaderMap;
use serde_json::Value;
use vstd::prelude::*;

verus! {

/// An optional value shows the view of what it holds, a lookup that of the row it came back with,
/// and a map what it holds under the key; a list of texts shows each of them in its place.
pub proof fn law_options_lookups_and_lists<T: View>(
    value: T,
    map: Map<Seq<char>, T>,
    key: Seq<char>,
    parts: Seq<&str>,
    list: Seq<String>,
    i: int,
)
    ensures
        maybe(Some(value)) == Some(value@),
        maybe::<T>(None) is None,
        lookup(Ok(Some(value))) == Ok::<_, ()>(Some(value@)),
        lookup::<T>(Ok(None)) == Ok::<Option<T::V>, ()>(None),
        lookup::<T>(Err(())) is Err,
        found(map, key) == Some(value) <==> map.contains_key(key) && map[key] == value,
        texts(parts).len() == parts.len(),
        0 <= i < parts.len() ==> texts(parts)[i] == parts[i]@,
        strings(list).len() == list.len(),
        0 <= i < list.len() ==> strings(list)[i] == list[i]@,
{
}

/// A document member is found exactly where the document is an object that has it, and its text
/// exactly where it is a text.
pub proof fn law_members(document: Json, key: Seq<char>, inner: Json, text: Seq<char>, value: Value)
    ensures
        member(document, key) == Some(inner) <==> (document matches Json::Object(members)
            && members.contains_key(key) && members[key] == inner),
        text_member(Some(document), key) == Some(text) <==> (document matches Json::Object(members)
            && members.contains_key(key) && members[key] == Json::Text(text)),
        text_member(None, key) is None,
        maybe_document(Some(value)) == Some(json_of(value)),
        maybe_document(None) is None,
{
}

/// Identities show their fields.
pub proof fn law_identities_show_their_fields(
    claims: SessionClaims,
    pat: PatIdentity,
    entry: SdkKeyEntry,
    who: RequestIdentities,
    ctx: AuthContext,
)
    ensures
        claims@ == (ClaimsView {
            user_id: claims.user_id,
            expires_at: claims.expires_at,
            email: claims.email@,
            name: claims.name@,
            role: claims.role@,
        }),
        pat@ == (PatView { claims: pat.claims@, scope: pat.scope@ }),
        entry@.id == entry.id,
        entry@.name == entry.name@,
        entry@.value == entry.value@,
        entry.environment_id is None ==> entry@.environment_id is None,
        entry.environment_id matches Some(env_id) ==> entry@.environment_id == Some(env_id@),
        who.sdk_key matches Some(e) ==> who@.sdk_key == Some(e@),
        who.sdk_key is None ==> who@.sdk_key is None,
        who.session matches Some(c) ==> who@.session == Some(c@),
        who.session is None ==> who@.session is None,
        who.pat matches Some(p) ==> who@.pat == Some(p@),
        who.pat is None ==> who@.pat is None,
        ctx.session matches Some(c) ==> ctx@.session == Some(c@),
        ctx.session is None ==> ctx@.session is None,
        ctx.pat matches Some(p) ==> ctx@.pat == Some(p@),
        ctx.pat is None ==> ctx@.pat is None,
        Identity::Session(claims)@ == IdentityView::Session(claims@),
        Identity::SdkKey(entry)@ == IdentityView::SdkKey(entry@),
        Identity::Pat(pat)@ == IdentityView::Pat(pat@),
{
}

/// Rows of the database show their fields.
pub proof fn law_rows_show_their_fields(account: AccountRow, key: SdkKeyRow, pat: PatRow)
    ensures
        account@ == (AccountView {
            email: account.email@,
            name: account.name@,
            role: account.role@,
        }),
        key@ == (SdkKeyRowView {
            id: key.id,
            name: key.name@,
            value: key.value@,
            environment_id: key.environment_id@,
        }),
        pat@ == (PatRowView {
            id: pat.id,
            scope: pat.scope@,
            user_id: pat.user_id,
            email: pat.email@,
            name: pat.name@,
            role: pat.role@,
        }),
{
}

/// The states, actions and replies of authentication show what they hold.
pub proof fn law_authentication_shows_what_it_holds(
    claims: SessionClaims,
    identity: PatIdentity,
    text: String,
    other: String,
    id: i64,
    who: Identity,
    status: Status,
    account: AccountRow,
    key: SdkKeyRow,
    pat: PatRow,
)
    ensures
        (AuthState::Account { claims, sdk_key: Some(text), bearer: Some(other) })@ == (
        AuthStateView::Account { claims: claims@, sdk_key: Some(text@), bearer: Some(other@) }),
        (AuthState::Account { claims, sdk_key: None, bearer: None })@ == (
        AuthStateView::Account { claims: claims@, sdk_key: None, bearer: None }),
        (AuthState::SdkKey { key: text, bearer: Some(other) })@ == (AuthStateView::SdkKey {
            key: text@,
            bearer: Some(other@),
        }),
        (AuthState::SdkKey { key: text, bearer: None })@ == (AuthStateView::SdkKey {
            key: text@,
            bearer: None,
        }),
        AuthState::Token@ is Token,
        (AuthState::Touch { identity })@ == (AuthStateView::Touch { identity: identity@ }),
        AuthState::Done@ is Done,
        (AuthAction::FindAccount { user_id: id })@ == (AuthActionView::FindAccount {
            user_id: id,
        }),
        (AuthAction::FindSdkKey { key: text })@ == (AuthActionView::FindSdkKey { key: text@ }),
        (AuthAction::FindToken { hash: text })@ == (AuthActionView::FindToken { hash: text@ }),
        (AuthAction::TouchToken { id })@ == (AuthActionView::TouchToken { id }),
        AuthAction::Accept(who)@ == AuthActionView::Accept(who@),
        AuthAction::Reject(status)@ == AuthActionView::Reject(status@),
        AuthReply::Account(Ok(Some(account)))@ == AuthReplyView::Account(Ok(Some(account@))),
        AuthReply::Account(Ok(None))@ == AuthReplyView::Account(Ok(None)),
        AuthReply::Account(Err(()))@ matches AuthReplyView::Account(Err(_)),
        (AuthReply::SdkKey { row: Ok(Some(key)), env_key: Some(text) })@ == (
        AuthReplyView::SdkKey { row: Ok(Some(key@)), env_key: Some(text@) }),
        (AuthReply::SdkKey { row: Ok(None), env_key: None })@ == (AuthReplyView::SdkKey {
            row: Ok(None),
            env_key: None,
        }),
        (AuthReply::SdkKey { row: Err(()), env_key: None })@ matches AuthReplyView::SdkKey {
            row: Err(_),
            env_key: None,
        },
        AuthReply::Token(Ok(Some(pat)))@ == AuthReplyView::Token(Ok(Some(pat@))),
        AuthReply::Token(Ok(None))@ == AuthReplyView::Token(Ok(None)),
        AuthReply::Token(Err(()))@ matches AuthReplyView::Token(Err(_)),
        AuthReply::Touched@ is Touched,
{
}

/// The steps and verdicts of a role check show what they hold.
pub proof fn law_access_shows_what_it_holds(status: Status, text: String, id: i64)
    ensures
        AccessStep::Allow@ is Allow,
        AccessStep::Reject(status)@ == AccessView::Reject(status@),
        (AccessStep::FindProjectRole { env_id: text, user_id: id })@ == (
        AccessView::FindProjectRole { env_id: text@, user_id: id }),
        verdict(Ok(())) is Ok,
        verdict(Err(status)) == Err::<(), u16>(status@),
{
}

/// What a pass waits for, asks for and is answered shows what it holds.
pub proof fn law_pass_shows_what_it_holds(
    pass: DuePass,
    job: DueJob,
    value: Value,
    status: Status,
    text: String,
    other: String,
    n: u64,
    b: bool,
)
    ensures
        pass@.rounds_left == pass.rounds_left,
        pass@.phase == pass.phase@,
        job@.id == job.id@,
        job@.env_id == job.env_id@,
        job@.flag_key == job.flag_key@,
        Phase::Begin@ is Begin,
        Phase::Claim@ is Claim,
        (Phase::Savepoint { job, patch: value })@ == (PhaseView::Savepoint {
            job: job@,
            patch: json_of(value),
        }),
        (Phase::Lock { job, patch: value })@ == (PhaseView::Lock {
            job: job@,
            patch: json_of(value),
        }),
        (Phase::Patch { job })@ == (PhaseView::Patch { job: job@ }),
        (Phase::MarkExecuted { job, change: value })@ == (PhaseView::MarkExecuted {
            job: job@,
            change: json_of(value),
        }),
        (Phase::CommitApplied { job, change: value })@ == (PhaseView::CommitApplied {
            job: job@,
            change: json_of(value),
        }),
        Phase::Emit@ is Emit,
        (Phase::Rollback { job, status })@ == (PhaseView::Rollback { job: job@, status: status@ }),
        Phase::RecordFailure@ is RecordFailure,
        Phase::CommitFailure@ is CommitFailure,
        Phase::Stopped@ is Stopped,
        PassAction::Begin@ is Begin,
        (PassAction::Claim { retry_after_seconds: n })@ == (PassActionView::Claim {
            retry_after_seconds: n,
        }),
        PassAction::Savepoint@ is Savepoint,
        (PassAction::LockEnvironment { env_id: text })@ == (PassActionView::LockEnvironment {
            env_id: text@,
        }),
        (PassAction::ApplyPatch { env_id: text, flag_key: other, patch: value })@ == (
        PassActionView::ApplyPatch { env_id: text@, flag_key: other@, patch: json_of(value) }),
        (PassAction::MarkExecuted { id: text })@ == (PassActionView::MarkExecuted { id: text@ }),
        PassAction::Commit@ is Commit,
        (PassAction::Emit { job, change: value })@ == (PassActionView::Emit {
            job: job@,
            change: json_of(value),
        }),
        PassAction::RollbackToSavepoint@ is RollbackToSavepoint,
        (PassAction::RecordFailure { id: text, error: other })@ == (
        PassActionView::RecordFailure { id: text@, error: other@ }),
        PassAction::Stop@ is Stop,
        PassReply::Done@ is Done,
        PassReply::Failed@ is Failed,
        PassReply::Claimed(Some((job, value)))@ == PassReplyView::Claimed(
            Some((job@, json_of(value))),
        ),
        PassReply::Claimed(None)@ == PassReplyView::Claimed(None),
        (PassReply::Locked { approval_required: b })@ == (PassReplyView::Locked {
            approval_required: b,
        }),
        PassReply::Patched(value)@ == PassReplyView::Patched(json_of(value)),
        PassReply::Refused(status)@ == PassReplyView::Refused(status@),
{
}

/// What a connection waits for, asks for and sends shows what it holds.
pub proof fn law_stream_shows_what_it_holds(
    event: SseEvent,
    text: String,
    other: String,
    id: i64,
    i: usize,
    status: Status,
)
    ensures
        event@.event == event.event@,
        event@.data == event.data@,
        EnvScope::Only(text)@ == ScopeView::Only(text@),
        (EnvScope::Member { user_id: id, role: text })@ == (ScopeView::Member {
            user_id: id,
            role: text@,
        }),
        EnvScope::All@ is All,
        SsePhase::Environments@ is Environments,
        SsePhase::Subscribe@ is Subscribe,
        SsePhase::Segments(i)@ == SsePhaseView::Segments(i as nat),
        SsePhase::Flags(i)@ == SsePhaseView::Flags(i as nat),
        SsePhase::Register@ is Register,
        SsePhase::Stored(i)@ == SsePhaseView::Stored(i as nat),
        SsePhase::Ready@ is Ready,
        SsePhase::Live@ is Live,
        SsePhase::Delivered@ is Delivered,
        SsePhase::Finished@ is Finished,
        (SseAction::FindMemberEnvironments { user_id: id, role: text })@ == (
        SseActionView::FindMemberEnvironments { user_id: id, role: text@ }),
        SseAction::FindAllEnvironments@ is FindAllEnvironments,
        SseAction::Subscribe@ is Subscribe,
        (SseAction::LoadSegments { env_id: text })@ == (SseActionView::LoadSegments {
            env_id: text@,
        }),
        (SseAction::LoadFlags { env_id: text })@ == (SseActionView::LoadFlags { env_id: text@ }),
        (SseAction::Register { environment_id: Some(text), sdk_key_name: Some(other) })@ == (
        SseActionView::Register { environment_id: Some(text@), sdk_key_name: Some(other@) }),
        (SseAction::Register { environment_id: None, sdk_key_name: None })@ == (
        SseActionView::Register { environment_id: None, sdk_key_name: None }),
        SseAction::Emit(event)@ == SseActionView::Emit(event@),
        SseAction::Receive@ is Receive,
        SseAction::Close@ is Close,
        SseAction::Reject(status)@ == SseActionView::Reject(status@),
{
}

/// A connection takes each reply for what it is: a list of environments as listed, a broadcast to
/// the letter, a failure as a failure; and of the flags of an environment, each is expanded with
/// the segments that the connection holds. Those are the ones that were answered last.
pub proof fn law_stream_takes_replies_as_they_are<S, X: Fn(Value, &S) -> Option<Value>>(
    held: Option<S>,
    expand: X,
    reply: SseReply<S>,
    taken: SseReplyView,
)
    requires
        taken_as(held, expand, reply, taken),
    ensures
        match reply {
            SseReply::Environments(Ok(list)) => taken matches SseReplyView::Environments(
                Ok(shown),
            ) && shown.len() == list@.len() && forall|k: int|
                0 <= k < list@.len() ==> #[trigger] shown[k] == list@[k]@,
            SseReply::Environments(Err(_)) => taken matches SseReplyView::Environments(Err(_)),
            SseReply::Subscribed => taken is Subscribed,
            SseReply::Segments(Ok(_)) => taken matches SseReplyView::Segments(Ok(_)),
            SseReply::Segments(Err(_)) => taken matches SseReplyView::Segments(Err(_)),
            SseReply::Flags(Ok(rows)) => held is Some && exists|flags: Seq<Option<Value>>|
                #[trigger] expands_to(expand, &held->0, rows@, flags) && taken
                    == SseReplyView::Flags(Ok(documents(flags))),
            SseReply::Flags(Err(_)) => taken matches SseReplyView::Flags(Err(_)),
            SseReply::Registered => taken is Registered,
            SseReply::Taken => taken is Taken,
            SseReply::Received(payload) => taken == SseReplyView::Received(payload@),
            SseReply::Lagged(missed) => taken == SseReplyView::Lagged(missed),
            SseReply::ChannelClosed => taken is ChannelClosed,
        },
        reply matches SseReply::Segments(Ok(loaded)) ==> segments_after(held, reply) == Some(
            loaded,
        ),
        !(reply matches SseReply::Segments(Ok(_))) ==> segments_after(held, reply) == held,
{
}

/// A snapshot shows what it holds, and takes each reply for what it is: of the flags of the
/// environment, each is expanded with the segments that were loaded for it.
pub proof fn law_snapshot_shows_what_it_holds<S, F, X: Fn(Value, &S) -> Option<F>>(
    text: String,
    segments: S,
    headers: HeaderMap,
    flags: Vec<F>,
    status: Status,
    expand: X,
    reply: SnapshotReply<S>,
    taken: SnapshotReplyView<S, F>,
)
    requires
        snapshot_takes(
            SnapshotStateView::Flags { env_id: text@, segments },
            expand,
            reply,
            taken,
        ),
    ensures
        (SnapshotState::<S>::Segments { env_id: text })@ == (SnapshotStateView::<S>::Segments {
            env_id: text@,
        }),
        (SnapshotState::<S>::Flags { env_id: text, segments })@ == (
        SnapshotStateView::<S>::Flags { env_id: text@, segments }),
        SnapshotState::<S>::Done@ is Done,
        (SnapshotAction::<F>::LoadSegments { env_id: text })@ == (
        SnapshotActionView::<F>::LoadSegments { env_id: text@ }),
        (SnapshotAction::<F>::LoadFlags { env_id: text })@ == (
        SnapshotActionView::<F>::LoadFlags { env_id: text@ }),
        (SnapshotAction::<F>::Respond { headers, flags })@ == (SnapshotActionView::<F>::Respond {
            fields: header_fields(headers),
            flags: flags@,
        }),
        SnapshotAction::<F>::Reject(status)@ == SnapshotActionView::<F>::Reject(status@),
        match reply {
            SnapshotReply::Segments(result) => taken == SnapshotReplyView::<S, F>::Segments(
                result,
            ),
            SnapshotReply::Flags(Err(_)) => taken matches SnapshotReplyView::Flags(Err(_)),
            SnapshotReply::Flags(Ok(rows)) => taken matches SnapshotReplyView::Flags(Ok(list))
                && expands_to(expand, &segments, rows@, list),
        },
{
}

/// A user and a connected client show their fields.
pub proof fn law_users_and_clients_show_their_fields(user: UserContext, client: ConnectedClient)
    ensures
        user@.key == user.key@,
        user@.attributes == user.attributes.deep_view(),
        client@.0 == client.connection_id@,
        client.environment_id matches Some(env_id) ==> client@.1 == Some(env_id@),
        client.environment_id is None ==> client@.1 is None,
        client.sdk_key_name matches Some(name) ==> client@.2 == Some(name@),
        client.sdk_key_name is None ==> client@.2 is None,
        client@.3 == client.client_ip@,
        client@.4 == client.connected_at,
{
}

} // verus!
