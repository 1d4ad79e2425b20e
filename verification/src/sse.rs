//! One connection to the event stream: what it is sent, and when it is refused or closed.
use crate::identity::{
    caller_claims, copy_of_text, get_session_claims, AuthContext, SdkKeyEntry, SessionClaims,
};
use crate::json::{json_document, json_text, Json};
use crate::status::Status;
use crate::stream::{
    connected_document, connected_payload, documents, expand_rows, expands_to, forwards, payloads,
    scope_of, should_forward, stream_scope, strings, write_payloads, EnvScope, ScopeView,
};
use crate::text::{decimal_of, decimal_text, maybe};
use serde_json::Value;
use vstd::hash_set::StringHashSet;
use vstd::prelude::*;

verus! {

/// How often an idle connection is kept alive, in seconds.
pub const KEEP_ALIVE_SECONDS: u64 = 15;

/// One event on the stream.
#[derive(Debug, PartialEq, Eq)]
pub struct SseEvent {
    pub event: String,
    pub data: String,
}

/// What an event says.
pub struct SseEventView {
    pub event: Seq<char>,
    pub data: Seq<char>,
}

impl View for SseEvent {
    type V = SseEventView;

    open spec fn view(&self) -> SseEventView {
        SseEventView { event: self.event@, data: self.data@ }
    }
}

/// What a connection waits for.
#[derive(Clone, Copy, Debug, PartialEq, Eq)]
pub enum SsePhase {
    /// The environments that it may see.
    Environments,
    /// The subscription to the broadcast.
    Subscribe,
    /// The segments of an environment, by its place in the list.
    Segments(usize),
    /// The flags of an environment, by its place in the list.
    Flags(usize),
    /// The note on the health dashboard.
    Register,
    /// The client, before the next stored flag.
    Stored(usize),
    /// The client, before the first broadcast.
    Ready,
    /// The broadcast.
    Live,
    /// The client, after a broadcast that it was sent.
    Delivered,
    /// Nothing: the connection was refused or closed.
    Finished,
}

/// What a connection waits for, with places as numbers.
pub enum SsePhaseView {
    Environments,
    Subscribe,
    Segments(nat),
    Flags(nat),
    Register,
    Stored(nat),
    Ready,
    Live,
    Delivered,
    Finished,
}

impl View for SsePhase {
    type V = SsePhaseView;

    open spec fn view(&self) -> SsePhaseView {
        match self {
            SsePhase::Environments => SsePhaseView::Environments,
            SsePhase::Subscribe => SsePhaseView::Subscribe,
            SsePhase::Segments(i) => SsePhaseView::Segments(*i as nat),
            SsePhase::Flags(i) => SsePhaseView::Flags(*i as nat),
            SsePhase::Register => SsePhaseView::Register,
            SsePhase::Stored(i) => SsePhaseView::Stored(*i as nat),
            SsePhase::Ready => SsePhaseView::Ready,
            SsePhase::Live => SsePhaseView::Live,
            SsePhase::Delivered => SsePhaseView::Delivered,
            SsePhase::Finished => SsePhaseView::Finished,
        }
    }
}

/// A connection. `S` is the segments of an environment.
pub struct SseSession<S> {
    environment_id: Option<String>,
    sdk_key_name: Option<String>,
    env_ids: Vec<String>,
    allowed: StringHashSet,
    segments: Option<S>,
    bootstrap: Vec<String>,
    phase: SsePhase,
}

/// What a connection says: the environment and the name of its SDK key, the environments that it
/// may see, the payloads of the stored flags, and what it waits for.
pub struct SseView {
    pub environment_id: Option<Seq<char>>,
    pub sdk_key_name: Option<Seq<char>>,
    pub env_ids: Seq<Seq<char>>,
    pub bootstrap: Seq<Seq<char>>,
    pub phase: SsePhaseView,
}

impl<S> View for SseSession<S> {
    type V = SseView;

    closed spec fn view(&self) -> SseView {
        SseView {
            environment_id: maybe(self.environment_id),
            sdk_key_name: maybe(self.sdk_key_name),
            env_ids: strings(self.env_ids@),
            bootstrap: strings(self.bootstrap@),
            phase: self.phase@,
        }
    }
}

impl<S> SseSession<S> {
    /// The segments that were loaded last: those of the environment whose flags are waited for.
    pub closed spec fn segments(self) -> Option<S> {
        self.segments
    }

    #[verifier::type_invariant]
    spec fn consistent(self) -> bool {
        &&& self.phase is Flags ==> self.segments is Some
        &&& self.allowed@ == strings(self.env_ids@).to_set()
        &&& self.phase matches SsePhase::Segments(i) ==> i < self.env_ids.len()
        &&& self.phase matches SsePhase::Flags(i) ==> i < self.env_ids.len()
        &&& self.phase matches SsePhase::Stored(i) ==> i <= self.bootstrap.len()
    }
}

/// What a connection asks for, or does.
#[derive(Debug, PartialEq, Eq)]
pub enum SseAction {
    /// The environments of the projects that the user is a member of; all where the role is
    /// `admin`.
    FindMemberEnvironments { user_id: i64, role: String },
    /// All environments.
    FindAllEnvironments,
    /// Subscribe to the broadcast.
    Subscribe,
    /// Load the segments of an environment.
    LoadSegments { env_id: String },
    /// Load the flags of an environment by key.
    LoadFlags { env_id: String },
    /// Note the connection on the health dashboard.
    Register { environment_id: Option<String>, sdk_key_name: Option<String> },
    /// Send an event.
    Emit(SseEvent),
    /// Wait for a broadcast.
    Receive,
    /// Close the stream, so that the client connects again.
    Close,
    /// Refuse the connection.
    Reject(Status),
}

/// What an action says.
pub enum SseActionView {
    FindMemberEnvironments { user_id: i64, role: Seq<char> },
    FindAllEnvironments,
    Subscribe,
    LoadSegments { env_id: Seq<char> },
    LoadFlags { env_id: Seq<char> },
    Register { environment_id: Option<Seq<char>>, sdk_key_name: Option<Seq<char>> },
    Emit(SseEventView),
    Receive,
    Close,
    Reject(u16),
}

impl View for SseAction {
    type V = SseActionView;

    open spec fn view(&self) -> SseActionView {
        match self {
            SseAction::FindMemberEnvironments { user_id, role } => {
                SseActionView::FindMemberEnvironments { user_id: *user_id, role: role@ }
            },
            SseAction::FindAllEnvironments => SseActionView::FindAllEnvironments,
            SseAction::Subscribe => SseActionView::Subscribe,
            SseAction::LoadSegments { env_id } => SseActionView::LoadSegments { env_id: env_id@ },
            SseAction::LoadFlags { env_id } => SseActionView::LoadFlags { env_id: env_id@ },
            SseAction::Register { environment_id, sdk_key_name } => SseActionView::Register {
                environment_id: maybe(*environment_id),
                sdk_key_name: maybe(*sdk_key_name),
            },
            SseAction::Emit(event) => SseActionView::Emit(event@),
            SseAction::Receive => SseActionView::Receive,
            SseAction::Close => SseActionView::Close,
            SseAction::Reject(status) => SseActionView::Reject(status@),
        }
    }
}

/// What came back.
#[derive(Debug, PartialEq, Eq)]
pub enum SseReply<S> {
    Environments(Result<Vec<String>, ()>),
    Subscribed,
    Segments(Result<S, ()>),
    /// The flags as they are stored, in order; nothing in place of a row that could not be read.
    Flags(Result<Vec<Option<Value>>, ()>),
    Registered,
    /// The client took the last event.
    Taken,
    /// A broadcast.
    Received(String),
    /// The connection fell behind, and missed so many broadcasts.
    Lagged(u64),
    /// There will be no more broadcasts.
    ChannelClosed,
}

/// What a reply says.
pub enum SseReplyView {
    Environments(Result<Seq<Seq<char>>, ()>),
    Subscribed,
    Segments(Result<(), ()>),
    Flags(Result<Seq<Option<Json>>, ()>),
    Registered,
    Taken,
    Received(Seq<char>),
    Lagged(u64),
    ChannelClosed,
}

impl<S> View for SseReply<S> {
    type V = SseReplyView;

    open spec fn view(&self) -> SseReplyView {
        match self {
            SseReply::Environments(list) => SseReplyView::Environments(
                match list {
                    Ok(env_ids) => Ok(strings(env_ids@)),
                    Err(()) => Err(()),
                },
            ),
            SseReply::Subscribed => SseReplyView::Subscribed,
            SseReply::Segments(result) => SseReplyView::Segments(
                match result {
                    Ok(_) => Ok(()),
                    Err(()) => Err(()),
                },
            ),
            SseReply::Flags(rows) => SseReplyView::Flags(
                match rows {
                    Ok(list) => Ok(documents(list@)),
                    Err(()) => Err(()),
                },
            ),
            SseReply::Registered => SseReplyView::Registered,
            SseReply::Taken => SseReplyView::Taken,
            SseReply::Received(payload) => SseReplyView::Received(payload@),
            SseReply::Lagged(missed) => SseReplyView::Lagged(*missed),
            SseReply::ChannelClosed => SseReplyView::ChannelClosed,
        }
    }
}

/// A reply as the connection takes it: the flags of an environment are expanded with the segments
/// that were loaded for it, and any other reply is taken as it is.
pub open spec fn taken_as<S, X: Fn(Value, &S) -> Option<Value>>(
    segments: Option<S>,
    expand: X,
    reply: SseReply<S>,
    taken: SseReplyView,
) -> bool {
    match reply {
        SseReply::Flags(Ok(rows)) => exists|flags: Seq<Option<Value>>|
            segments is Some && #[trigger] expands_to(expand, &segments->0, rows@, flags) && taken
                == SseReplyView::Flags(Ok(documents(flags))),
        _ => taken == reply@,
    }
}

/// The segments that a connection holds after a reply.
pub open spec fn segments_after<S>(held: Option<S>, reply: SseReply<S>) -> Option<S> {
    match reply {
        SseReply::Segments(Ok(loaded)) => Some(loaded),
        _ => held,
    }
}

/// The event that announces the environment of the connection.
pub open spec fn connected_event(environment_id: Option<Seq<char>>) -> SseEventView {
    SseEventView { event: "connected"@, data: json_text(connected_document(environment_id)) }
}

/// The event that carries a flag.
pub open spec fn update_event(payload: Seq<char>) -> SseEventView {
    SseEventView { event: "update"@, data: payload }
}

/// The event that tells how many stored flags were sent.
pub open spec fn ready_event(count: nat) -> SseEventView {
    SseEventView { event: "ready"@, data: decimal_of(count) }
}

/// The reply is one that the connection waits for.
pub open spec fn sse_awaits(phase: SsePhaseView, reply: SseReplyView) -> bool {
    match phase {
        SsePhaseView::Environments => reply is Environments,
        SsePhaseView::Subscribe => reply is Subscribed,
        SsePhaseView::Segments(_) => reply is Segments,
        SsePhaseView::Flags(_) => reply is Flags,
        SsePhaseView::Register => reply is Registered,
        SsePhaseView::Stored(_) => reply is Taken,
        SsePhaseView::Ready => reply is Taken,
        SsePhaseView::Live => reply is Received || reply is Lagged || reply is ChannelClosed,
        SsePhaseView::Delivered => reply is Taken,
        SsePhaseView::Finished => false,
    }
}

/// A connection that is refused because something could not be loaded.
pub open spec fn sse_refuse(s: SseView) -> (SseView, SseActionView) {
    (SseView { phase: SsePhaseView::Finished, ..s }, SseActionView::Reject(500))
}

/// The next environment to load, by its place in the list; the note on the dashboard where all
/// are loaded.
pub open spec fn sse_load(s: SseView, i: nat) -> (SseView, SseActionView) {
    if i < s.env_ids.len() {
        (
            SseView { phase: SsePhaseView::Segments(i), ..s },
            SseActionView::LoadSegments { env_id: s.env_ids[i as int] },
        )
    } else {
        (
            SseView { phase: SsePhaseView::Register, ..s },
            SseActionView::Register {
                environment_id: s.environment_id,
                sdk_key_name: s.sdk_key_name,
            },
        )
    }
}

/// The first step of a connection.
pub open spec fn sse_start(
    environment_id: Option<Seq<char>>,
    sdk_key_name: Option<Seq<char>>,
    scope: ScopeView,
) -> (SseView, SseActionView) {
    let s = SseView {
        environment_id,
        sdk_key_name,
        env_ids: seq![],
        bootstrap: seq![],
        phase: SsePhaseView::Environments,
    };
    match scope {
        ScopeView::Only(env_id) => (
            SseView { env_ids: seq![env_id], phase: SsePhaseView::Subscribe, ..s },
            SseActionView::Subscribe,
        ),
        ScopeView::Member { user_id, role } => (
            s,
            SseActionView::FindMemberEnvironments { user_id, role },
        ),
        ScopeView::All => (s, SseActionView::FindAllEnvironments),
    }
}

/// The step that follows a reply.
pub open spec fn sse_next(s: SseView, reply: SseReplyView) -> (SseView, SseActionView) {
    match (s.phase, reply) {
        (SsePhaseView::Environments, SseReplyView::Environments(Ok(env_ids))) => (
            SseView { env_ids, phase: SsePhaseView::Subscribe, ..s },
            SseActionView::Subscribe,
        ),
        (SsePhaseView::Subscribe, _) => sse_load(s, 0),
        (SsePhaseView::Segments(i), SseReplyView::Segments(Ok(()))) => (
            SseView { phase: SsePhaseView::Flags(i), ..s },
            SseActionView::LoadFlags { env_id: s.env_ids[i as int] },
        ),
        (SsePhaseView::Flags(i), SseReplyView::Flags(Ok(rows))) => {
            match payloads(s.env_ids[i as int], rows) {
                Some(more) => sse_load(SseView { bootstrap: s.bootstrap + more, ..s }, i + 1),
                None => sse_refuse(s),
            }
        },
        (SsePhaseView::Register, _) => (
            SseView { phase: SsePhaseView::Stored(0), ..s },
            SseActionView::Emit(connected_event(s.environment_id)),
        ),
        (SsePhaseView::Stored(i), _) => {
            if i < s.bootstrap.len() {
                (
                    SseView { phase: SsePhaseView::Stored(i + 1), ..s },
                    SseActionView::Emit(update_event(s.bootstrap[i as int])),
                )
            } else {
                (
                    SseView { phase: SsePhaseView::Ready, ..s },
                    SseActionView::Emit(ready_event(s.bootstrap.len())),
                )
            }
        },
        (SsePhaseView::Ready, _) => (
            SseView { phase: SsePhaseView::Live, ..s },
            SseActionView::Receive,
        ),
        (SsePhaseView::Live, SseReplyView::Received(payload)) => {
            if forwards(json_document(payload), s.env_ids.to_set()) {
                (
                    SseView { phase: SsePhaseView::Delivered, ..s },
                    SseActionView::Emit(update_event(payload)),
                )
            } else {
                (s, SseActionView::Receive)
            }
        },
        (SsePhaseView::Live, _) => (
            SseView { phase: SsePhaseView::Finished, ..s },
            SseActionView::Close,
        ),
        (SsePhaseView::Delivered, _) => (
            SseView { phase: SsePhaseView::Live, ..s },
            SseActionView::Receive,
        ),
        _ => sse_refuse(s),
    }
}

fn allowed_set(env_ids: &Vec<String>) -> (allowed: StringHashSet)
    ensures
        allowed@ == strings(env_ids@).to_set(),
{
    let mut allowed: StringHashSet = StringHashSet::new();
    let mut i: usize = 0;
    while i < env_ids.len()
        invariant
            i <= env_ids.len(),
            forall|e: Seq<char>|
                allowed@.contains(e) <==> strings(env_ids@).take(i as int).contains(e),
        decreases env_ids.len() - i,
    {
        let ghost before = strings(env_ids@).take(i as int);
        let ghost after = strings(env_ids@).take(i + 1);
        allowed.insert(env_ids[i].clone());
        proof {
            assert(after =~= before.push(env_ids[i as int]@));
            assert forall|e: Seq<char>| allowed@.contains(e) <==> after.contains(e) by {
                if before.contains(e) {
                    let k = before.index_of(e);
                    assert(after[k] == e);
                }
                if e == env_ids[i as int]@ {
                    assert(after[i as int] == e);
                }
                if after.contains(e) {
                    let k = after.index_of(e);
                    if k < i {
                        assert(before[k] == e);
                    }
                }
            }
        }
        i = i + 1;
    }
    proof {
        assert(strings(env_ids@).take(i as int) =~= strings(env_ids@));
        assert(allowed@ =~= strings(env_ids@).to_set());
    }
    allowed
}

fn event(name: &str, data: String) -> (action: SseAction)
    ensures
        action@ == SseActionView::Emit(SseEventView { event: name@, data: data@ }),
{
    SseAction::Emit(SseEvent { event: name.to_owned(), data })
}

/// Starts a connection that an SDK key or a user was authenticated for.
pub fn begin_stream<S>(sdk_key: Option<&SdkKeyEntry>, ctx: &AuthContext) -> (step: (
    SseSession<S>,
    SseAction,
))
    ensures
        ({
            let environment_id = match sdk_key {
                Some(key) => key@.environment_id,
                None => None,
            };
            let sdk_key_name = match sdk_key {
                Some(key) => Some(key@.name),
                None => None,
            };
            (step.0@, step.1@) == sse_start(
                environment_id,
                sdk_key_name,
                scope_of(environment_id, caller_claims(ctx@.session, ctx@.pat)),
            )
        }),
{
    let environment_id: Option<String> = match sdk_key {
        Some(key) => copy_of_text(&key.environment_id),
        None => None,
    };
    let sdk_key_name: Option<String> = match sdk_key {
        Some(key) => Some(key.name.clone()),
        None => None,
    };
    let claims: Option<SessionClaims> = get_session_claims(ctx);
    let scope: EnvScope = stream_scope(&environment_id, claims);
    let mut env_ids: Vec<String> = Vec::new();
    let mut phase: SsePhase = SsePhase::Environments;
    let action: SseAction = match scope {
        EnvScope::Only(env_id) => {
            env_ids.push(env_id);
            phase = SsePhase::Subscribe;
            SseAction::Subscribe
        },
        EnvScope::Member { user_id, role } => SseAction::FindMemberEnvironments { user_id, role },
        EnvScope::All => SseAction::FindAllEnvironments,
    };
    let allowed: StringHashSet = allowed_set(&env_ids);
    let session: SseSession<S> = SseSession {
        environment_id,
        sdk_key_name,
        env_ids,
        allowed,
        segments: None,
        bootstrap: Vec::new(),
        phase,
    };
    assert(session@.bootstrap =~= seq![]);
    assert(phase is Environments ==> session@.env_ids =~= seq![]);
    assert(phase is Subscribe ==> session@.env_ids =~= seq![session@.env_ids[0]]);
    (session, action)
}

impl<S> SseSession<S> {
    fn at(self, phase: SsePhase) -> (moved: SseSession<S>)
        requires
            phase is Flags ==> self.segments() is Some,
            phase matches SsePhase::Segments(i) ==> i < self@.env_ids.len(),
            phase matches SsePhase::Flags(i) ==> i < self@.env_ids.len(),
            phase matches SsePhase::Stored(i) ==> i <= self@.bootstrap.len(),
        ensures
            moved@ == (SseView { phase: phase@, ..self@ }),
            moved.segments() == self.segments(),
    {
        proof {
            use_type_invariant(&self);
        }
        SseSession {
            environment_id: self.environment_id,
            sdk_key_name: self.sdk_key_name,
            env_ids: self.env_ids,
            allowed: self.allowed,
            segments: self.segments,
            bootstrap: self.bootstrap,
            phase,
        }
    }

    fn with_segments(self, loaded: S) -> (moved: SseSession<S>)
        ensures
            moved@ == self@,
            moved.segments() == Some(loaded),
    {
        proof {
            use_type_invariant(&self);
        }
        SseSession {
            environment_id: self.environment_id,
            sdk_key_name: self.sdk_key_name,
            env_ids: self.env_ids,
            allowed: self.allowed,
            segments: Some(loaded),
            bootstrap: self.bootstrap,
            phase: self.phase,
        }
    }

    fn refuse(self) -> (step: (SseSession<S>, SseAction))
        ensures
            (step.0@, step.1@) == sse_refuse(self@),
            step.0.segments() == self.segments(),
    {
        (self.at(SsePhase::Finished), SseAction::Reject(Status::internal_server_error()))
    }

    fn load(self, i: usize) -> (step: (SseSession<S>, SseAction))
        ensures
            (step.0@, step.1@) == sse_load(self@, i as nat),
            step.0.segments() == self.segments(),
    {
        if i < self.env_ids.len() {
            let env_id: String = self.env_ids[i].clone();
            (self.at(SsePhase::Segments(i)), SseAction::LoadSegments { env_id })
        } else {
            let environment_id: Option<String> = copy_of_text(&self.environment_id);
            let sdk_key_name: Option<String> = copy_of_text(&self.sdk_key_name);
            (
                self.at(SsePhase::Register),
                SseAction::Register { environment_id, sdk_key_name },
            )
        }
    }

    fn with_environments(self, env_ids: Vec<String>) -> (moved: SseSession<S>)
        requires
            self@.phase is Environments,
        ensures
            moved@ == (SseView {
                env_ids: strings(env_ids@),
                phase: SsePhaseView::Subscribe,
                ..self@
            }),
            moved.segments() == self.segments(),
    {
        let allowed: StringHashSet = allowed_set(&env_ids);
        SseSession {
            environment_id: self.environment_id,
            sdk_key_name: self.sdk_key_name,
            env_ids,
            allowed,
            segments: self.segments,
            bootstrap: self.bootstrap,
            phase: SsePhase::Subscribe,
        }
    }

    fn with_payloads(self, more: Vec<String>) -> (moved: SseSession<S>)
        requires
            self@.phase is Flags,
        ensures
            moved@ == (SseView { bootstrap: self@.bootstrap + strings(more@), ..self@ }),
            moved.segments() == self.segments(),
    {
        proof {
            use_type_invariant(&self);
        }
        let mut bootstrap: Vec<String> = self.bootstrap;
        let mut list: Vec<String> = more;
        let ghost before = bootstrap@;
        bootstrap.append(&mut list);
        assert(strings(bootstrap@) =~= strings(before) + strings(more@));
        SseSession {
            environment_id: self.environment_id,
            sdk_key_name: self.sdk_key_name,
            env_ids: self.env_ids,
            allowed: self.allowed,
            segments: self.segments,
            bootstrap,
            phase: self.phase,
        }
    }
}

/// Serves a connection, step by step. The stored flags of every environment are loaded before
/// anything is sent, each expanded with the segments of its environment; where one cannot be, the
/// connection is refused with 500. Then the client is told its environment, sent every stored
/// flag, told how many there were, and from there on sent the broadcasts of its environments,
/// until it falls behind or the broadcast ends.
///
/// `expand` reads a stored flag and expands its segments; it gives nothing where the row is no
/// flag.
pub fn sse_handler<S, X: Fn(Value, &S) -> Option<Value>>(
    session: SseSession<S>,
    expand: X,
    reply: SseReply<S>,
) -> (step: (SseSession<S>, SseAction))
    requires
        forall|row: Value, s: &S| call_requires(expand, (row, s)),
        sse_awaits(session@.phase, reply@),
    ensures
        exists|taken: SseReplyView|
            taken_as(session.segments(), expand, reply, taken) && (step.0@, step.1@)
                == #[trigger] sse_next(session@, taken),
        step.0.segments() == segments_after(session.segments(), reply),
{
    proof {
        use_type_invariant(&session);
    }
    let ghost given = reply;
    let ghost held = session.segments();
    let phase: SsePhase = session.phase;
    let ghost mut taken = reply@;
    let step: (SseSession<S>, SseAction) = match (phase, reply) {
        (SsePhase::Environments, SseReply::Environments(Ok(env_ids))) => (
            session.with_environments(env_ids),
            SseAction::Subscribe,
        ),
        (SsePhase::Subscribe, _) => session.load(0),
        (SsePhase::Segments(i), SseReply::Segments(Ok(loaded))) => {
            let env_id: String = session.env_ids[i].clone();
            (
                session.with_segments(loaded).at(SsePhase::Flags(i)),
                SseAction::LoadFlags { env_id },
            )
        },
        (SsePhase::Flags(i), SseReply::Flags(Ok(rows))) => {
            let flags: Vec<Option<Value>> = match &session.segments {
                Some(segments) => expand_rows(&expand, segments, rows),
                None => Vec::new(),
            };
            proof {
                taken = SseReplyView::Flags(Ok(documents(flags@)));
                assert(expands_to(expand, &held->0, rows@, flags@));
            }
            match write_payloads(session.env_ids[i].as_str(), flags) {
                Some(more) => session.with_payloads(more).load(i + 1),
                None => session.refuse(),
            }
        },
        (SsePhase::Register, _) => {
            let data: String = connected_payload(&session.environment_id);
            (session.at(SsePhase::Stored(0)), event("connected", data))
        },
        (SsePhase::Stored(i), _) => {
            if i < session.bootstrap.len() {
                let data: String = session.bootstrap[i].clone();
                (session.at(SsePhase::Stored(i + 1)), event("update", data))
            } else {
                let data: String = decimal_text(session.bootstrap.len());
                (session.at(SsePhase::Ready), event("ready", data))
            }
        },
        (SsePhase::Ready, _) => (session.at(SsePhase::Live), SseAction::Receive),
        (SsePhase::Live, SseReply::Received(payload)) => {
            if should_forward(payload.as_str(), &session.allowed) {
                (session.at(SsePhase::Delivered), event("update", payload))
            } else {
                (session, SseAction::Receive)
            }
        },
        (SsePhase::Live, _) => (session.at(SsePhase::Finished), SseAction::Close),
        (SsePhase::Delivered, _) => (session.at(SsePhase::Live), SseAction::Receive),
        _ => session.refuse(),
    };
    assert(taken_as(held, expand, given, taken));
    assert((step.0@, step.1@) == sse_next(session@, taken));
    step
}

} // verus!
