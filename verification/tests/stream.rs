//! The event stream, the snapshot and the connected clients.
use axum::http::HeaderMap;
use checkgate::clients::{
    connected_client, connection_id_of, random_connection_id, ClientRegistry, ConnectedClient,
};
use checkgate::identity::{AuthContext, PatIdentity, SdkKeyEntry, SessionClaims};
use checkgate::json::read_text_member;
use checkgate::snapshot::{
    begin_snapshot, flags_snapshot_handler, full_flags, snapshot_headers, SnapshotAction,
    SnapshotReply, SnapshotState,
};
use checkgate::sse::{
    begin_stream, sse_handler, SseAction, SseEvent, SseReply, SseSession, KEEP_ALIVE_SECONDS,
};
use checkgate::status::Status;
use checkgate::stream::{
    connected_payload, stream_scope, upsert_payload, write_payloads, EnvScope,
};
use serde_json::Value;

fn text(s: &str) -> String {
    s.to_string()
}

fn claims(role: &str) -> SessionClaims {
    SessionClaims {
        user_id: 4,
        expires_at: 1,
        email: text("u@example.com"),
        name: text("U"),
        role: text(role),
    }
}

fn key(environment_id: Option<&str>) -> SdkKeyEntry {
    SdkKeyEntry {
        id: 1,
        name: text("ci"),
        value: text("v"),
        environment_id: environment_id.map(text),
    }
}

fn no_user() -> AuthContext {
    AuthContext { session: None, pat: None }
}

fn flag(name: &str) -> Value {
    serde_json::from_str(&format!(r#"{{"key":"{name}"}}"#)).expect("flag parses")
}

fn update(data: &str) -> SseAction {
    SseAction::Emit(SseEvent { event: text("update"), data: text(data) })
}

#[test]
fn scope_is_the_keys_environment_first() {
    assert_eq!(stream_scope(&Some(text("e1")), Some(claims("admin"))), EnvScope::Only(text("e1")));
    assert_eq!(
        stream_scope(&None, Some(claims("editor"))),
        EnvScope::Member { user_id: 4, role: text("editor") }
    );
    assert_eq!(stream_scope(&None, None), EnvScope::All);
}

#[test]
fn payloads_have_their_members_in_order_of_the_keys() {
    assert_eq!(
        upsert_payload("e1", flag("f")),
        r#"{"env_id":"e1","flag":{"key":"f"},"type":"UPSERT"}"#
    );
    assert_eq!(connected_payload(&Some(text("e1"))), r#"{"environment_id":"e1"}"#);
    assert_eq!(connected_payload(&None), r#"{"environment_id":null}"#);
}

#[test]
fn payloads_escape_what_json_escapes() {
    assert_eq!(connected_payload(&Some(text("a\"b"))), r#"{"environment_id":"a\"b"}"#);
}

#[test]
fn one_unreadable_flag_spoils_the_list() {
    let all = write_payloads("e", vec![Some(flag("a")), Some(flag("b"))]);
    assert_eq!(all.map(|list| list.len()), Some(2));
    assert_eq!(write_payloads("e", vec![Some(flag("a")), None]), None);
    assert_eq!(write_payloads("e", vec![]), Some(vec![]));
}

#[test]
fn text_members_are_read() {
    assert_eq!(read_text_member(r#"{"env_id":"e1"}"#, "env_id"), Some(text("e1")));
    assert_eq!(read_text_member(r#"{"env_id":"e1"}"#, "other"), None);
    assert_eq!(read_text_member(r#"{"env_id":7}"#, "env_id"), None);
    assert_eq!(read_text_member(r#"["env_id"]"#, "env_id"), None);
    assert_eq!(read_text_member("nonsense", "env_id"), None);
}

/// Reads a stored flag and expands its segments: here they are the text that it is tagged with.
fn expand(row: Value, segments: &String) -> Option<Value> {
    let mut members = row.as_object()?.clone();
    members.get("key")?;
    if !segments.is_empty() {
        members.insert(text("segment"), Value::String(segments.clone()));
    }
    Some(Value::Object(members))
}

fn tagged(name: &str, tag: &str) -> Value {
    serde_json::from_str(&format!(r#"{{"key":"{name}","segment":"{tag}"}}"#)).expect("flag parses")
}

fn step(session: SseSession<String>, reply: SseReply<String>) -> (SseSession<String>, SseAction) {
    sse_handler(session, expand, reply)
}

/// Brings a connection of an SDK key of environment `e1` to its live part.
fn live_connection(flags: Vec<Value>) -> SseSession<String> {
    let (session, action) = begin_stream(Some(&key(Some("e1"))), &no_user());
    assert_eq!(action, SseAction::Subscribe);
    let (session, action) = step(session, SseReply::Subscribed);
    assert_eq!(action, SseAction::LoadSegments { env_id: text("e1") });
    let (session, action) = step(session, SseReply::Segments(Ok(String::new())));
    assert_eq!(action, SseAction::LoadFlags { env_id: text("e1") });
    let rows: Vec<Option<Value>> = flags.iter().cloned().map(Some).collect();
    let (session, action) = step(session, SseReply::Flags(Ok(rows)));
    assert_eq!(
        action,
        SseAction::Register { environment_id: Some(text("e1")), sdk_key_name: Some(text("ci")) }
    );
    let (mut session, action) = step(session, SseReply::Registered);
    assert_eq!(
        action,
        SseAction::Emit(SseEvent {
            event: text("connected"),
            data: text(r#"{"environment_id":"e1"}"#)
        })
    );
    for f in &flags {
        let (next, action) = step(session, SseReply::Taken);
        assert_eq!(action, update(&upsert_payload("e1", f.clone())));
        session = next;
    }
    let (session, action) = step(session, SseReply::Taken);
    assert_eq!(
        action,
        SseAction::Emit(SseEvent { event: text("ready"), data: flags.len().to_string() })
    );
    let (session, action) = step(session, SseReply::Taken);
    assert_eq!(action, SseAction::Receive);
    session
}

#[test]
fn connection_opens_with_every_stored_flag() {
    live_connection(vec![flag("a"), flag("b"), flag("c")]);
    live_connection(vec![]);
}

#[test]
fn broadcasts_of_other_environments_are_held_back() {
    let session = live_connection(vec![]);
    let mine = r#"{"env_id":"e1","type":"DELETE","key":"a"}"#;
    let (session, action) = step(session, SseReply::Received(text(mine)));
    assert_eq!(action, update(mine));
    let (mut session, action) = step(session, SseReply::Taken);
    assert_eq!(action, SseAction::Receive);
    for other in [r#"{"env_id":"e2"}"#, r#"{"type":"DELETE"}"#, r#"{"env_id":1}"#, "nonsense"] {
        let (next, action) = step(session, SseReply::Received(text(other)));
        assert_eq!(action, SseAction::Receive);
        session = next;
    }
}

#[test]
fn lagging_or_a_closed_channel_closes_the_connection() {
    let (_, action) = step(live_connection(vec![]), SseReply::Lagged(3));
    assert_eq!(action, SseAction::Close);
    let (_, action) = step(live_connection(vec![]), SseReply::ChannelClosed);
    assert_eq!(action, SseAction::Close);
}

#[test]
fn user_sees_the_environments_of_their_projects() {
    let pat = PatIdentity { claims: claims("editor"), scope: text("read_only") };
    let ctx = AuthContext { session: None, pat: Some(pat) };
    let (session, action) = begin_stream(None, &ctx);
    assert_eq!(action, SseAction::FindMemberEnvironments { user_id: 4, role: text("editor") });
    let list = vec![text("e1"), text("e2")];
    let (session, action) = step(session, SseReply::Environments(Ok(list)));
    assert_eq!(action, SseAction::Subscribe);
    let (session, action) = step(session, SseReply::Subscribed);
    assert_eq!(action, SseAction::LoadSegments { env_id: text("e1") });
    let (session, _) = step(session, SseReply::Segments(Ok(String::new())));
    let (session, action) = step(session, SseReply::Flags(Ok(vec![Some(flag("a"))])));
    assert_eq!(action, SseAction::LoadSegments { env_id: text("e2") });
    let (session, action) = step(session, SseReply::Segments(Ok(String::new())));
    assert_eq!(action, SseAction::LoadFlags { env_id: text("e2") });
    let (session, action) = step(session, SseReply::Flags(Ok(vec![Some(flag("b"))])));
    assert_eq!(action, SseAction::Register { environment_id: None, sdk_key_name: None });
    let (session, action) = step(session, SseReply::Registered);
    assert_eq!(
        action,
        SseAction::Emit(SseEvent {
            event: text("connected"),
            data: text(r#"{"environment_id":null}"#)
        })
    );
    let (session, action) = step(session, SseReply::Taken);
    assert_eq!(action, update(&upsert_payload("e1", flag("a"))));
    let (_, action) = step(session, SseReply::Taken);
    assert_eq!(action, update(&upsert_payload("e2", flag("b"))));
}

#[test]
fn member_of_nothing_gets_an_empty_ready_store() {
    let ctx = AuthContext { session: Some(claims("viewer")), pat: None };
    let (session, _) = begin_stream(None, &ctx);
    let (session, _) = step(session, SseReply::Environments(Ok(vec![])));
    let (session, action) = step(session, SseReply::Subscribed);
    assert_eq!(action, SseAction::Register { environment_id: None, sdk_key_name: None });
    let (session, _) = step(session, SseReply::Registered);
    let (_, action) = step(session, SseReply::Taken);
    assert_eq!(action, SseAction::Emit(SseEvent { event: text("ready"), data: text("0") }));
}

#[test]
fn unscoped_key_sees_every_environment() {
    let (_, action) = begin_stream::<String>(Some(&key(None)), &no_user());
    assert_eq!(action, SseAction::FindAllEnvironments);
}

#[test]
fn failed_loads_refuse_the_connection() {
    let refused = SseAction::Reject(Status::internal_server_error());
    let (session, _) = begin_stream(Some(&key(None)), &no_user());
    let (_, action) = step(session, SseReply::Environments(Err(())));
    assert_eq!(action, refused);

    let (session, _) = begin_stream(Some(&key(Some("e1"))), &no_user());
    let (session, _) = step(session, SseReply::Subscribed);
    let (_, action) = step(session, SseReply::Segments(Err(())));
    assert_eq!(action, refused);

    let (session, _) = begin_stream(Some(&key(Some("e1"))), &no_user());
    let (session, _) = step(session, SseReply::Subscribed);
    let (session, _) = step(session, SseReply::Segments(Ok(String::new())));
    let (_, action) = step(session, SseReply::Flags(Err(())));
    assert_eq!(action, refused);

    let (session, _) = begin_stream(Some(&key(Some("e1"))), &no_user());
    let (session, _) = step(session, SseReply::Subscribed);
    let (session, _) = step(session, SseReply::Segments(Ok(String::new())));
    let (_, action) = step(session, SseReply::Flags(Ok(vec![Some(flag("a")), None])));
    assert_eq!(action, refused);
}

#[test]
fn idle_connections_are_kept_alive_every_fifteen_seconds() {
    assert_eq!(KEEP_ALIVE_SECONDS, 15);
}

// ---------------------------------------------------------------------------
// Snapshot
// ---------------------------------------------------------------------------
fn take(
    state: SnapshotState<String>,
    reply: SnapshotReply<String>,
) -> (SnapshotState<String>, SnapshotAction<Value>) {
    flags_snapshot_handler(state, expand, reply)
}

fn waiting_for_flags(env_id: &str) -> SnapshotState<String> {
    SnapshotState::Flags { env_id: text(env_id), segments: String::new() }
}

fn responded(action: SnapshotAction<Value>) -> (HeaderMap, Vec<Value>) {
    match action {
        SnapshotAction::Respond { headers, flags } => (headers, flags),
        _ => panic!("no answer"),
    }
}

fn refused_with(action: SnapshotAction<Value>) -> Option<u16> {
    match action {
        SnapshotAction::Reject(status) => Some(status.code()),
        _ => None,
    }
}

#[test]
fn snapshot_serves_every_flag_with_its_segments() {
    let (state, action) = begin_snapshot::<String, Value>(Some(&key(Some("e1"))));
    assert!(matches!(action, SnapshotAction::LoadSegments { env_id } if env_id == "e1"));
    let (state, action) = take(state, SnapshotReply::Segments(Ok(text("beta"))));
    assert!(matches!(action, SnapshotAction::LoadFlags { env_id } if env_id == "e1"));
    let rows = vec![Some(flag("a")), Some(flag("b"))];
    let (state, action) = take(state, SnapshotReply::Flags(Ok(rows)));
    assert_eq!(state, SnapshotState::Done);
    let (headers, flags) = responded(action);
    assert_eq!(flags, vec![tagged("a", "beta"), tagged("b", "beta")]);
    assert_eq!(headers.len(), 1);
    assert_eq!(headers.get("X-Checkgate-Environment-Id").expect("the field is set"), "e1");
}

#[test]
fn snapshot_of_no_flags_is_empty() {
    let (_, action) = take(waiting_for_flags("e1"), SnapshotReply::Flags(Ok(vec![])));
    assert_eq!(responded(action).1, Vec::<Value>::new());
}

#[test]
fn snapshot_with_a_flag_that_cannot_be_read_is_500() {
    let rows = vec![Some(flag("a")), None, Some(flag("c"))];
    let (_, action) = take(waiting_for_flags("e1"), SnapshotReply::Flags(Ok(rows)));
    assert_eq!(refused_with(action), Some(500));
    let rows = vec![Some(flag("a")), Some(Value::Null)];
    let (_, action) = take(waiting_for_flags("e1"), SnapshotReply::Flags(Ok(rows)));
    assert_eq!(refused_with(action), Some(500));
}

#[test]
fn snapshot_without_an_environment_is_400() {
    assert_eq!(refused_with(begin_snapshot::<String, Value>(None).1), Some(400));
    assert_eq!(refused_with(begin_snapshot::<String, Value>(Some(&key(None))).1), Some(400));
}

#[test]
fn snapshot_that_cannot_be_loaded_is_500() {
    let segments = SnapshotState::Segments { env_id: text("e1") };
    let (_, action) = take(segments, SnapshotReply::Segments(Err(())));
    assert_eq!(refused_with(action), Some(500));
    let (_, action) = take(waiting_for_flags("e1"), SnapshotReply::Flags(Err(())));
    assert_eq!(refused_with(action), Some(500));
}

#[test]
fn environment_that_fits_no_header_is_500() {
    let rows = vec![Some(flag("a"))];
    let (_, action) = take(waiting_for_flags("a\nb"), SnapshotReply::Flags(Ok(rows)));
    assert_eq!(refused_with(action), Some(500));
    assert!(snapshot_headers("a\u{7f}").is_none());
    assert!(snapshot_headers("a\tb").is_some());
    assert!(snapshot_headers("\u{e9}").is_some());
}

#[test]
fn full_flags_are_all_or_none() {
    assert_eq!(full_flags(vec![Some('b'), Some('a')]), Some(vec!['b', 'a']));
    assert_eq!(full_flags(vec![Some('b'), None]), None);
    assert_eq!(full_flags::<char>(vec![]), Some(vec![]));
}

// ---------------------------------------------------------------------------
// Connected clients
// ---------------------------------------------------------------------------
fn client(id: &str) -> ConnectedClient {
    connected_client(text(id), Some(text("e1")), Some(text("ci")), text("10.0.0.1"), 1_700_000_000)
}

#[test]
fn connection_ids_are_sixteen_hexadecimal_digits() {
    assert_eq!(connection_id_of(&[0, 1, 2, 0x10, 0xab, 0xcd, 0xef, 0xff]), "00010210abcdefff");
    let id = random_connection_id();
    assert_eq!(id.len(), 16);
    assert!(id.chars().all(|c| c.is_ascii_digit() || ('a'..='f').contains(&c)));
    // Two of them are the same once in 2^64 times.
    assert_ne!(id, random_connection_id());
}

#[test]
fn client_is_recorded_as_it_connected() {
    assert_eq!(
        client("c1"),
        ConnectedClient {
            connection_id: text("c1"),
            environment_id: Some(text("e1")),
            sdk_key_name: Some(text("ci")),
            client_ip: text("10.0.0.1"),
            connected_at: 1_700_000_000,
        }
    );
}

#[test]
fn disconnecting_undoes_connecting() {
    let mut registry = ClientRegistry::new();
    assert_eq!(registry.register(client("c1")), None);
    assert_eq!(registry.register(client("c2")), None);
    assert_eq!(registry.unregister("c1"), Some(client("c1")));
    assert_eq!(registry.unregister("c1"), None);
    assert_eq!(registry.unregister("c2"), Some(client("c2")));
}

#[test]
fn registering_an_id_again_gives_the_former_back() {
    let mut registry = ClientRegistry::new();
    registry.register(client("c1"));
    let again = connected_client(text("c1"), None, None, text("10.0.0.2"), 5);
    assert_eq!(registry.register(again), Some(client("c1")));
    let last = registry.unregister("c1").expect("it is open");
    assert_eq!(last.client_ip, "10.0.0.2");
    assert_eq!(last.connected_at, 5);
}

#[test]
fn other_connections_are_left_alone() {
    let mut registry = ClientRegistry::new();
    registry.register(client("c0"));
    registry.register(client("c1"));
    registry.register(client("c2"));
    registry.unregister("c0");
    assert_eq!(registry.unregister("c1"), Some(client("c1")));
    assert_eq!(registry.unregister("c2"), Some(client("c2")));
    assert_eq!(registry.unregister("c0"), None);
}

#[test]
fn snapshot_holds_the_flags_that_the_stream_opens_with() {
    let rows = vec![Some(flag("a")), Some(flag("b"))];
    let sent = write_payloads("e1", rows.clone()).expect("every flag can be read");
    let (_, action) = take(waiting_for_flags("e1"), SnapshotReply::Flags(Ok(rows)));
    let flags = responded(action).1;
    let carried: Vec<String> = flags.into_iter().map(|f| upsert_payload("e1", f)).collect();
    assert_eq!(carried, sent);
    // What the stream refuses, the snapshot refuses.
    let rows = vec![Some(flag("a")), None];
    assert_eq!(write_payloads("e1", rows.clone()), None);
    let (_, action) = take(waiting_for_flags("e1"), SnapshotReply::Flags(Ok(rows)));
    assert_eq!(refused_with(action), Some(500));
}

#[test]
fn flags_are_expanded_with_the_segments_of_their_environment() {
    let ctx = AuthContext { session: Some(claims("admin")), pat: None };
    let (session, _) = begin_stream(None, &ctx);
    let list = vec![text("e1"), text("e2")];
    let (session, _) = step(session, SseReply::Environments(Ok(list)));
    let (session, _) = step(session, SseReply::Subscribed);
    let (session, _) = step(session, SseReply::Segments(Ok(text("one"))));
    let (session, _) = step(session, SseReply::Flags(Ok(vec![Some(flag("a"))])));
    let (session, _) = step(session, SseReply::Segments(Ok(text("two"))));
    let (session, _) = step(session, SseReply::Flags(Ok(vec![Some(flag("a"))])));
    let (session, _) = step(session, SseReply::Registered);
    let (session, action) = step(session, SseReply::Taken);
    assert_eq!(action, update(&upsert_payload("e1", tagged("a", "one"))));
    let (_, action) = step(session, SseReply::Taken);
    assert_eq!(action, update(&upsert_payload("e2", tagged("a", "two"))));
}

#[test]
fn row_that_is_no_flag_refuses_the_connection() {
    let (session, _) = begin_stream(Some(&key(Some("e1"))), &no_user());
    let (session, _) = step(session, SseReply::Subscribed);
    let (session, _) = step(session, SseReply::Segments(Ok(String::new())));
    let (_, action) = step(session, SseReply::Flags(Ok(vec![Some(Value::Null)])));
    assert_eq!(action, SseAction::Reject(Status::internal_server_error()));
}

#[test]
fn broadcasts_of_other_environments_do_not_show() {
    let mine = r#"{"env_id":"e1"}"#;
    let other = r#"{"env_id":"e2"}"#;
    let events = |payloads: &[&str]| {
        let mut session = live_connection(vec![flag("a")]);
        let mut sent = vec![];
        for payload in payloads {
            let (next, action) = step(session, SseReply::Received(text(payload)));
            session = next;
            if let SseAction::Emit(event) = action {
                sent.push(event);
                session = step(session, SseReply::Taken).0;
            }
        }
        sent
    };
    assert_eq!(events(&[other, mine, other, other, mine]), events(&[mine, mine, other]));
}
