//! The full flag snapshot that SDK clients poll where the event stream cannot be had.
use crate::headers::{
    header_fields, header_from_str, header_map_insert, header_map_new, sendable,
};
use crate::identity::SdkKeyEntry;
use crate::json::{json_of, json_text};
use crate::status::Status;
use crate::stream::{documents, expand_rows, expands_to, payloads, upsert_document};
use axum::http::HeaderMap;
use serde_json::Value;
use vstd::prelude::*;
use vstd::utf8::encode_utf8;

verus! {

/// What a snapshot waits for. `S` is the segments of an environment.
#[derive(Debug, PartialEq, Eq)]
pub enum SnapshotState<S> {
    /// The segments of the environment.
    Segments { env_id: String },
    /// The flags of the environment, whose segments are at hand.
    Flags { env_id: String, segments: S },
    /// Nothing: the snapshot was served or refused.
    Done,
}

/// What a state says.
pub enum SnapshotStateView<S> {
    Segments { env_id: Seq<char> },
    Flags { env_id: Seq<char>, segments: S },
    Done,
}

impl<S> View for SnapshotState<S> {
    type V = SnapshotStateView<S>;

    open spec fn view(&self) -> SnapshotStateView<S> {
        match self {
            SnapshotState::Segments { env_id } => SnapshotStateView::Segments { env_id: env_id@ },
            SnapshotState::Flags { env_id, segments } => SnapshotStateView::Flags {
                env_id: env_id@,
                segments: *segments,
            },
            SnapshotState::Done => SnapshotStateView::Done,
        }
    }
}

/// What a snapshot asks for, or its answer. `F` is a flag.
pub enum SnapshotAction<F> {
    /// Load the segments of an environment.
    LoadSegments { env_id: String },
    /// Load the flags of an environment by key.
    LoadFlags { env_id: String },
    /// Answer with these header fields and flags.
    Respond { headers: HeaderMap, flags: Vec<F> },
    /// Refuse.
    Reject(Status),
}

/// What an action says: the header fields of an answer by name.
pub enum SnapshotActionView<F> {
    LoadSegments { env_id: Seq<char> },
    LoadFlags { env_id: Seq<char> },
    Respond { fields: Map<Seq<char>, Seq<Seq<u8>>>, flags: Seq<F> },
    Reject(u16),
}

impl<F> View for SnapshotAction<F> {
    type V = SnapshotActionView<F>;

    open spec fn view(&self) -> SnapshotActionView<F> {
        match self {
            SnapshotAction::LoadSegments { env_id } => SnapshotActionView::LoadSegments {
                env_id: env_id@,
            },
            SnapshotAction::LoadFlags { env_id } => SnapshotActionView::LoadFlags {
                env_id: env_id@,
            },
            SnapshotAction::Respond { headers, flags } => SnapshotActionView::Respond {
                fields: header_fields(*headers),
                flags: flags@,
            },
            SnapshotAction::Reject(status) => SnapshotActionView::Reject(status@),
        }
    }
}

/// What came back.
#[derive(Debug, PartialEq, Eq)]
pub enum SnapshotReply<S> {
    Segments(Result<S, ()>),
    /// The flags as they are stored, in order; nothing in place of a row that could not be read.
    Flags(Result<Vec<Option<Value>>, ()>),
}

/// A reply as the snapshot takes it: the flags expanded, with nothing in place of a flag that
/// could not be read.
pub enum SnapshotReplyView<S, F> {
    Segments(Result<S, ()>),
    Flags(Result<Seq<Option<F>>, ()>),
}

/// How a snapshot takes a reply: the flags of the environment are expanded with the segments that
/// were loaded for it.
pub open spec fn snapshot_takes<S, F, X: Fn(Value, &S) -> Option<F>>(
    state: SnapshotStateView<S>,
    expand: X,
    reply: SnapshotReply<S>,
    taken: SnapshotReplyView<S, F>,
) -> bool {
    match reply {
        SnapshotReply::Segments(segments) => taken == SnapshotReplyView::<S, F>::Segments(
            segments,
        ),
        SnapshotReply::Flags(Err(())) => taken == SnapshotReplyView::<S, F>::Flags(Err(())),
        SnapshotReply::Flags(Ok(rows)) => exists|flags: Seq<Option<F>>|
            state is Flags && #[trigger] expands_to(expand, &state->Flags_segments, rows@, flags)
                && taken == SnapshotReplyView::<S, F>::Flags(Ok(flags)),
    }
}

/// All the flags, in order; nothing where some flag could not be read.
pub open spec fn full<F>(rows: Seq<Option<F>>) -> Option<Seq<F>> {
    if forall|i: int| 0 <= i < rows.len() ==> (#[trigger] rows[i]) is Some {
        Some(Seq::new(rows.len(), |i: int| rows[i]->0))
    } else {
        None
    }
}

/// An environment id that can be sent in a header field.
pub open spec fn fits_header(env_id: Seq<char>) -> bool {
    forall|i: int| 0 <= i < encode_utf8(env_id).len() ==> sendable(#[trigger] encode_utf8(env_id)[i])
}

/// The header fields that tell the environment of a snapshot.
pub open spec fn snapshot_fields(env_id: Seq<char>) -> Map<Seq<char>, Seq<Seq<u8>>> {
    map!["x-checkgate-environment-id"@ => seq![encode_utf8(env_id)]]
}

/// The first step: only an SDK key that belongs to an environment has a snapshot.
pub open spec fn snapshot_start<S, F>(environment_id: Option<Seq<char>>) -> (
    SnapshotStateView<S>,
    SnapshotActionView<F>,
) {
    match environment_id {
        Some(env_id) => (
            SnapshotStateView::Segments { env_id },
            SnapshotActionView::LoadSegments { env_id },
        ),
        None => (SnapshotStateView::Done, SnapshotActionView::Reject(400)),
    }
}

/// The reply is the one that the state waits for.
pub open spec fn snapshot_awaits<S>(state: SnapshotStateView<S>, reply: SnapshotReply<S>) -> bool {
    match state {
        SnapshotStateView::Segments { .. } => reply is Segments,
        SnapshotStateView::Flags { .. } => reply is Flags,
        SnapshotStateView::Done => false,
    }
}

/// The step that follows a reply.
pub open spec fn snapshot_next<S, F>(
    state: SnapshotStateView<S>,
    reply: SnapshotReplyView<S, F>,
) -> (SnapshotStateView<S>, SnapshotActionView<F>) {
    match (state, reply) {
        (SnapshotStateView::Segments { env_id }, SnapshotReplyView::Segments(Ok(segments))) => (
            SnapshotStateView::Flags { env_id, segments },
            SnapshotActionView::LoadFlags { env_id },
        ),
        (SnapshotStateView::Flags { env_id, .. }, SnapshotReplyView::Flags(Ok(rows))) => (
            SnapshotStateView::Done,
            match full(rows) {
                Some(flags) if fits_header(env_id) => SnapshotActionView::Respond {
                    fields: snapshot_fields(env_id),
                    flags,
                },
                _ => SnapshotActionView::Reject(500),
            },
        ),
        _ => (SnapshotStateView::Done, SnapshotActionView::Reject(500)),
    }
}

/// All the flags, in order; nothing where some flag could not be read.
pub fn full_flags<F>(rows: Vec<Option<F>>) -> (flags: Option<Vec<F>>)
    ensures
        match flags {
            Some(list) => full(rows@) == Some(list@),
            None => full(rows@) is None,
        },
{
    let mut flags: Vec<F> = Vec::new();
    let ghost all = rows@;
    for row in it: rows
        invariant
            all == it.seq(),
            flags.len() == it.index(),
            forall|i: int| 0 <= i < flags.len() ==> #[trigger] all[i] == Some(flags@[i]),
    {
        assert(all[it.index() as int] == row);
        match row {
            Some(flag) => flags.push(flag),
            None => {
                return None;
            },
        }
    }
    assert(full(all)->0 =~= flags@);
    Some(flags)
}

/// The header fields that tell the environment of a snapshot; nothing where its id cannot be
/// sent in one.
pub fn snapshot_headers(env_id: &str) -> (headers: Option<HeaderMap>)
    ensures
        match headers {
            Some(h) => fits_header(env_id@) && header_fields(h) == snapshot_fields(env_id@),
            None => !fits_header(env_id@),
        },
{
    match header_from_str(env_id) {
        Some(value) => {
            let mut headers: HeaderMap = header_map_new();
            proof {
                reveal_strlit("x-checkgate-environment-id");
            }
            header_map_insert(&mut headers, "x-checkgate-environment-id", value);
            assert(header_fields(headers) =~= snapshot_fields(env_id@));
            Some(headers)
        },
        None => None,
    }
}

/// Starts a snapshot. It is keyed by the SDK key alone, like the event stream; a request that a
/// session authenticated is refused with 400, as is the server's own key, for neither belongs to
/// one environment.
pub fn begin_snapshot<S, F>(sdk_key: Option<&SdkKeyEntry>) -> (step: (
    SnapshotState<S>,
    SnapshotAction<F>,
))
    ensures
        (step.0@, step.1@) == snapshot_start::<S, F>(
            match sdk_key {
                Some(key) => key@.environment_id,
                None => None,
            },
        ),
{
    match sdk_key {
        Some(key) => match &key.environment_id {
            Some(env_id) => (
                SnapshotState::Segments { env_id: env_id.clone() },
                SnapshotAction::LoadSegments { env_id: env_id.clone() },
            ),
            None => (SnapshotState::Done, SnapshotAction::Reject(Status::bad_request())),
        },
        None => (SnapshotState::Done, SnapshotAction::Reject(Status::bad_request())),
    }
}

fn snapshot_of<S, F>(env_id: String, rows: Vec<Option<F>>) -> (step: (
    SnapshotState<S>,
    SnapshotAction<F>,
))
    ensures
        step.0@ is Done,
        step.1@ == match full(rows@) {
            Some(flags) if fits_header(env_id@) => SnapshotActionView::Respond {
                fields: snapshot_fields(env_id@),
                flags,
            },
            _ => SnapshotActionView::Reject(500),
        },
{
    match (full_flags(rows), snapshot_headers(env_id.as_str())) {
        (Some(flags), Some(headers)) => (
            SnapshotState::Done,
            SnapshotAction::Respond { headers, flags },
        ),
        _ => (SnapshotState::Done, SnapshotAction::Reject(Status::internal_server_error())),
    }
}

/// Serves a snapshot, step by step: every flag of the environment, expanded with the segments of
/// the environment, as the event stream sends them on opening. Where a lookup fails or a flag
/// cannot be read, the snapshot is refused with 500: a part is never served for the whole. The
/// environment is told in a header field, for analytics.
///
/// `expand` reads a stored flag and expands its segments; it gives nothing where the row is no
/// flag.
pub fn flags_snapshot_handler<S, F, X: Fn(Value, &S) -> Option<F>>(
    state: SnapshotState<S>,
    expand: X,
    reply: SnapshotReply<S>,
) -> (step: (SnapshotState<S>, SnapshotAction<F>))
    requires
        forall|row: Value, s: &S| call_requires(expand, (row, s)),
        snapshot_awaits(state@, reply),
    ensures
        exists|taken: SnapshotReplyView<S, F>|
            snapshot_takes(state@, expand, reply, taken) && (step.0@, step.1@)
                == #[trigger] snapshot_next(state@, taken),
{
    match (state, reply) {
        (SnapshotState::Segments { env_id }, SnapshotReply::Segments(Ok(segments))) => {
            let asked: String = env_id.clone();
            let step: (SnapshotState<S>, SnapshotAction<F>) = (
                SnapshotState::Flags { env_id, segments },
                SnapshotAction::LoadFlags { env_id: asked },
            );
            let ghost taken = SnapshotReplyView::<S, F>::Segments(Ok(segments));
            assert(snapshot_takes(state@, expand, reply, taken));
            assert((step.0@, step.1@) == snapshot_next(state@, taken));
            step
        },
        (SnapshotState::Flags { env_id, segments }, SnapshotReply::Flags(Ok(rows))) => {
            let flags: Vec<Option<F>> = expand_rows(&expand, &segments, rows);
            let ghost taken = SnapshotReplyView::<S, F>::Flags(Ok(flags@));
            assert(state@->Flags_segments == segments);
            assert(expands_to(expand, &state@->Flags_segments, rows@, flags@));
            assert(snapshot_takes(state@, expand, reply, taken));
            let step: (SnapshotState<S>, SnapshotAction<F>) = snapshot_of(env_id, flags);
            assert((step.0@, step.1@) == snapshot_next(state@, taken));
            step
        },
        (_, other) => {
            let step: (SnapshotState<S>, SnapshotAction<F>) = (
                SnapshotState::Done,
                SnapshotAction::Reject(Status::internal_server_error()),
            );
            let ghost taken = match other {
                SnapshotReply::Segments(result) => SnapshotReplyView::<S, F>::Segments(result),
                SnapshotReply::Flags(_) => SnapshotReplyView::<S, F>::Flags(Err(())),
            };
            assert(snapshot_takes(state@, expand, reply, taken));
            assert((step.0@, step.1@) == snapshot_next(state@, taken));
            step
        },
    }
}

// ---------------------------------------------------------------------------
// Laws
// ---------------------------------------------------------------------------
/// The answer to a request for a snapshot, where both lookups come back as given.
pub open spec fn snapshot_answer<S, F>(
    environment_id: Option<Seq<char>>,
    segments: Result<S, ()>,
    flags: Result<Seq<Option<F>>, ()>,
) -> SnapshotActionView<F> {
    let start = snapshot_start::<S, F>(environment_id);
    if start.0 is Done {
        start.1
    } else {
        let loaded = snapshot_next(start.0, SnapshotReplyView::<S, F>::Segments(segments));
        if loaded.0 is Done {
            loaded.1
        } else {
            snapshot_next(loaded.0, SnapshotReplyView::<S, F>::Flags(flags)).1
        }
    }
}

/// A request for a snapshot comes to all its flags, 400 or 500: 400 without an environment, 500
/// where a lookup fails, a flag cannot be read or the environment cannot be told, and else every
/// flag of the environment.
pub proof fn law_snapshot_answer<S, F>(
    environment_id: Option<Seq<char>>,
    segments: Result<S, ()>,
    flags: Result<Seq<Option<F>>, ()>,
)
    ensures
        snapshot_answer(environment_id, segments, flags) == match (
            environment_id,
            segments,
            flags,
        ) {
            (None, _, _) => SnapshotActionView::Reject(400),
            (Some(env_id), Ok(_), Ok(rows)) if fits_header(env_id) && full(rows) is Some => {
                SnapshotActionView::Respond {
                    fields: snapshot_fields(env_id),
                    flags: full(rows)->0,
                }
            },
            _ => SnapshotActionView::Reject(500),
        },
{
}

/// A snapshot that is served is the full one: as many flags as rows, each the flag of its row, in
/// order; and it is told for the environment that was asked for.
pub proof fn law_snapshot_is_complete<S, F>(
    environment_id: Option<Seq<char>>,
    segments: Result<S, ()>,
    rows: Seq<Option<F>>,
    fields: Map<Seq<char>, Seq<Seq<u8>>>,
    flags: Seq<F>,
)
    requires
        snapshot_answer(environment_id, segments, Ok(rows)) == (SnapshotActionView::Respond {
            fields,
            flags,
        }),
    ensures
        flags.len() == rows.len(),
        forall|i: int| 0 <= i < rows.len() ==> #[trigger] rows[i] == Some(flags[i]),
        environment_id matches Some(env_id) && fields == snapshot_fields(env_id),
{
    law_snapshot_answer(environment_id, segments, Ok::<Seq<Option<F>>, ()>(rows));
    assert forall|i: int| 0 <= i < rows.len() implies #[trigger] rows[i] == Some(flags[i]) by {
        assert(rows[i] is Some);
    }
}

/// The payloads that carry some flags of an environment.
pub open spec fn carried(env_id: Seq<char>, flags: Seq<Value>) -> Seq<Seq<char>> {
    flags.map_values(|flag: Value| json_text(upsert_document(env_id, json_of(flag))))
}

/// The snapshot of an environment is what the event stream sends of it on opening. For an id that
/// fits a header field, it is served exactly where the stream takes the same rows, and holds the
/// very flags that the payloads of the stream carry, in the same order; else both are refused
/// with 500.
pub proof fn law_snapshot_matches_the_bootstrap<S>(
    env_id: Seq<char>,
    segments: S,
    rows: Seq<Option<Value>>,
)
    requires
        fits_header(env_id),
    ensures
        match payloads(env_id, documents(rows)) {
            Some(sent) => {
                &&& full(rows) matches Some(flags) && sent == carried(env_id, flags)
                    && snapshot_answer(Some(env_id), Ok::<S, ()>(segments), Ok(rows)) == (
                SnapshotActionView::Respond { fields: snapshot_fields(env_id), flags })
            },
            None => snapshot_answer(Some(env_id), Ok::<S, ()>(segments), Ok(rows))
                == SnapshotActionView::<Value>::Reject(500),
        },
{
    let docs = documents(rows);
    law_snapshot_answer(Some(env_id), Ok::<S, ()>(segments), Ok(rows));
    if full(rows) is Some {
        assert forall|i: int| 0 <= i < docs.len() implies (#[trigger] docs[i]) is Some by {
            assert(rows[i] is Some);
        }
        let flags = full(rows)->0;
        assert forall|i: int| 0 <= i < rows.len() implies docs[i] == Some(
            json_of(#[trigger] flags[i]),
        ) by {
            assert(rows[i] is Some);
        }
        assert(payloads(env_id, docs)->0 =~= carried(env_id, flags));
    } else {
        let k = choose|k: int| 0 <= k < rows.len() && !((#[trigger] rows[k]) is Some);
        assert(docs[k] is None);
    }
}

/// What a request for a snapshot asks for and is answered, step by step: the segments and then the
/// flags of the environment of the key; and all the flags, under the one header field that tells
/// the environment, exactly where every flag reads and the UTF-8 of the id holds no control byte
/// but a tab. Else it is refused with 500, and without an environment with 400.
pub proof fn law_snapshot_step_by_step<S, F>(
    env_id: Seq<char>,
    segments: S,
    rows: Seq<Option<F>>,
)
    ensures
        snapshot_start::<S, F>(Some(env_id)).1 == (SnapshotActionView::<F>::LoadSegments {
            env_id,
        }),
        snapshot_start::<S, F>(None).1 == SnapshotActionView::<F>::Reject(400),
        snapshot_start::<S, F>(None).0 is Done,
        ({
            let asked = snapshot_start::<S, F>(Some(env_id)).0;
            let loaded = snapshot_next(asked, SnapshotReplyView::<S, F>::Segments(Ok(segments)));
            let failed = snapshot_next(asked, SnapshotReplyView::<S, F>::Segments(Err(())));
            let answer = snapshot_next(loaded.0, SnapshotReplyView::<S, F>::Flags(Ok(rows)));
            let lost = snapshot_next(loaded.0, SnapshotReplyView::<S, F>::Flags(Err(())));
            let reads = forall|i: int| 0 <= i < rows.len() ==> (#[trigger] rows[i]) is Some;
            let tells = forall|i: int|
                0 <= i < encode_utf8(env_id).len() ==> (#[trigger] encode_utf8(env_id)[i] >= 32
                    && encode_utf8(env_id)[i] != 127) || encode_utf8(env_id)[i] == 9;
            &&& loaded.1 == (SnapshotActionView::<F>::LoadFlags { env_id })
            &&& loaded.0 == (SnapshotStateView::<S>::Flags { env_id, segments })
            &&& failed.1 == SnapshotActionView::<F>::Reject(500)
            &&& lost.1 == SnapshotActionView::<F>::Reject(500)
            &&& answer.1 is Respond <==> reads && tells
            &&& !(reads && tells) ==> answer.1 == SnapshotActionView::<F>::Reject(500)
            &&& answer.1 matches SnapshotActionView::Respond { fields, flags } ==> {
                &&& fields == map!["x-checkgate-environment-id"@ => seq![encode_utf8(env_id)]]
                &&& flags.len() == rows.len()
                &&& forall|i: int| 0 <= i < rows.len() ==> #[trigger] rows[i] == Some(flags[i])
            }
        }),
{
    let reads = forall|i: int| 0 <= i < rows.len() ==> (#[trigger] rows[i]) is Some;
    if reads {
        assert forall|i: int| 0 <= i < rows.len() implies #[trigger] rows[i] == Some(
            (full(rows)->0)[i],
        ) by {
            assert(rows[i] is Some);
        }
    }
}

/// A snapshot takes every answer to what it asked.
pub proof fn law_every_load_is_taken<S>(state: SnapshotStateView<S>, reply: SnapshotReply<S>)
    ensures
        state is Segments ==> (snapshot_awaits(state, reply) <==> reply is Segments),
        state is Flags ==> (snapshot_awaits(state, reply) <==> reply is Flags),
        state is Done ==> !snapshot_awaits(state, reply),
{
}

} // verus!
