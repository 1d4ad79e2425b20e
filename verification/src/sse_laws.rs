//! What a connection to the event stream is promised, whatever it is answered.
use crate::json::{json_document, json_of, json_text, Json};
use crate::sse::{
    connected_event, ready_event, sse_awaits, sse_load, sse_next, sse_refuse, sse_start,
    update_event, SseActionView, SseEventView, SsePhaseView, SseReplyView, SseView,
};
use crate::stream::{
    documents, expands_to, forwards, payloads, upsert_document, ScopeView,
};
use crate::text::decimal_of;
use serde_json::Value;
use vstd::prelude::*;

verus! {

// ---------------------------------------------------------------------------
// Loading
// ---------------------------------------------------------------------------
/// The payloads of the environments from the `i`th on, one list of rows for each; nothing where
/// some flag could not be read.
pub open spec fn stored_payloads(
    env_ids: Seq<Seq<char>>,
    loads: Seq<Seq<Option<Json>>>,
    i: nat,
) -> Option<Seq<Seq<char>>>
    decreases env_ids.len() - i,
{
    if i >= env_ids.len() {
        Some(seq![])
    } else {
        match (payloads(env_ids[i as int], loads[i as int]), stored_payloads(
            env_ids,
            loads,
            i + 1,
        )) {
            (Some(first), Some(rest)) => Some(first + rest),
            _ => None,
        }
    }
}

/// The steps from the `i`th environment on, where every load succeeds with the given rows.
pub open spec fn load_run(s: SseView, loads: Seq<Seq<Option<Json>>>, i: nat) -> (
    SseView,
    SseActionView,
)
    decreases loads.len() - i,
{
    let step = sse_load(s, i);
    if i >= loads.len() {
        step
    } else {
        let segments = sse_next(step.0, SseReplyView::Segments(Ok(())));
        let flags = sse_next(segments.0, SseReplyView::Flags(Ok(loads[i as int])));
        if flags.1 is Reject {
            flags
        } else {
            load_run(flags.0, loads, i + 1)
        }
    }
}

proof fn lemma_load_run(s: SseView, loads: Seq<Seq<Option<Json>>>, i: nat)
    requires
        loads.len() == s.env_ids.len(),
        i <= s.env_ids.len(),
    ensures
        match stored_payloads(s.env_ids, loads, i) {
            Some(all) => load_run(s, loads, i) == sse_load(
                SseView { bootstrap: s.bootstrap + all, ..s },
                s.env_ids.len(),
            ),
            None => load_run(s, loads, i).1 == SseActionView::Reject(500),
        },
    decreases s.env_ids.len() - i,
{
    if i >= s.env_ids.len() {
        assert(s.bootstrap + Seq::<Seq<char>>::empty() =~= s.bootstrap);
    } else {
        let step = sse_load(s, i);
        let segments = sse_next(step.0, SseReplyView::Segments(Ok(())));
        let flags = sse_next(segments.0, SseReplyView::Flags(Ok(loads[i as int])));
        match payloads(s.env_ids[i as int], loads[i as int]) {
            Some(first) => {
                assert(flags == sse_load(
                    SseView { bootstrap: s.bootstrap + first, ..segments.0 },
                    i + 1,
                ));
                lemma_load_run(flags.0, loads, i + 1);
                if let Some(rest) = stored_payloads(s.env_ids, loads, i + 1) {
                    assert((s.bootstrap + first) + rest =~= s.bootstrap + (first + rest));
                }
            },
            None => {},
        }
    }
}

/// Once subscribed, a connection collects the flags of its environments, in the order of the
/// environments and of their flags, and only then asks to be noted on the dashboard. Where one
/// flag cannot be read it is refused with 500 instead.
pub proof fn law_bootstrap_is_complete(s: SseView, loads: Seq<Seq<Option<Json>>>)
    requires
        loads.len() == s.env_ids.len(),
        s.bootstrap.len() == 0,
    ensures
        match stored_payloads(s.env_ids, loads, 0) {
            Some(all) => load_run(s, loads, 0) == (
                SseView { bootstrap: all, phase: SsePhaseView::Register, ..s },
                SseActionView::Register {
                    environment_id: s.environment_id,
                    sdk_key_name: s.sdk_key_name,
                },
            ),
            None => load_run(s, loads, 0).1 == SseActionView::Reject(500),
        },
{
    lemma_load_run(s, loads, 0);
    if let Some(all) = stored_payloads(s.env_ids, loads, 0) {
        assert(s.bootstrap + all =~= all);
    }
}

/// A load that fails refuses the connection with 500: a failure is never taken for an empty,
/// ready store.
pub proof fn law_failed_load_is_refused(s: SseView, reply: SseReplyView)
    requires
        sse_awaits(s.phase, reply),
        reply == SseReplyView::Environments(Err(())) || reply == SseReplyView::Segments(Err(()))
            || reply == SseReplyView::Flags(Err(())),
    ensures
        sse_next(s, reply) == sse_refuse(s),
{
}

/// The broadcast is subscribed to before the first environment is loaded, so that no change in
/// between is lost.
pub proof fn law_subscribed_before_loading(
    environment_id: Option<Seq<char>>,
    sdk_key_name: Option<Seq<char>>,
    scope: ScopeView,
    s: SseView,
    reply: SseReplyView,
)
    requires
        sse_awaits(s.phase, reply),
    ensures
        sse_next(s, reply).0.phase is Segments ==> s.phase is Subscribe || s.phase is Flags,
        sse_next(s, reply).0.phase is Flags ==> s.phase is Segments,
        sse_start(environment_id, sdk_key_name, scope).0.phase is Environments || sse_start(
            environment_id,
            sdk_key_name,
            scope,
        ).0.phase is Subscribe,
        s.phase is Environments ==> sse_next(s, reply).0.phase is Subscribe || sse_next(
            s,
            reply,
        ).0.phase is Finished,
{
}

// ---------------------------------------------------------------------------
// Opening
// ---------------------------------------------------------------------------
/// The `k`th event of a connection: its environment, every stored flag, and how many there were.
pub open spec fn opening_event(s: SseView, k: nat) -> SseEventView {
    if k == 0 {
        connected_event(s.environment_id)
    } else if k <= s.bootstrap.len() {
        update_event(s.bootstrap[k - 1])
    } else {
        ready_event(s.bootstrap.len())
    }
}

/// The step after a connection was noted on the dashboard and its client took `k` events.
pub open spec fn opening_run(s: SseView, k: nat) -> (SseView, SseActionView)
    decreases k,
{
    if k == 0 {
        sse_next(s, SseReplyView::Registered)
    } else {
        sse_next(opening_run(s, (k - 1) as nat).0, SseReplyView::Taken)
    }
}

/// A connection opens with its environment, then every stored flag, then their number; after
/// that it waits for broadcasts.
pub proof fn law_opening_order(s: SseView, k: nat)
    requires
        s.phase is Register,
        k <= s.bootstrap.len() + 2,
    ensures
        k <= s.bootstrap.len() + 1 ==> opening_run(s, k).1 == SseActionView::Emit(
            opening_event(s, k),
        ),
        k == s.bootstrap.len() + 2 ==> opening_run(s, k) == (
            SseView { phase: SsePhaseView::Live, ..s },
            SseActionView::Receive,
        ),
        opening_run(s, k).0 == (SseView {
            phase: if k <= s.bootstrap.len() {
                SsePhaseView::Stored(k)
            } else if k == s.bootstrap.len() + 1 {
                SsePhaseView::Ready
            } else {
                SsePhaseView::Live
            },
            ..s
        }),
    decreases k,
{
    if k > 0 {
        law_opening_order(s, (k - 1) as nat);
    }
}

// ---------------------------------------------------------------------------
// The whole connection
// ---------------------------------------------------------------------------
/// A connection and its last action after some replies.
pub open spec fn sse_run(
    start: (SseView, SseActionView),
    replies: Seq<SseReplyView>,
) -> (SseView, SseActionView)
    decreases replies.len(),
{
    if replies.len() == 0 {
        start
    } else {
        sse_next(sse_run(start, replies.drop_last()).0, replies.last())
    }
}

/// Every reply was waited for.
pub open spec fn sse_orderly(start: (SseView, SseActionView), replies: Seq<SseReplyView>) -> bool
    decreases replies.len(),
{
    replies.len() == 0 || {
        &&& sse_orderly(start, replies.drop_last())
        &&& sse_awaits(sse_run(start, replies.drop_last()).0.phase, replies.last())
    }
}

/// A payload carries a flag of one of the environments.
pub open spec fn carries_flag_of(payload: Seq<char>, env_ids: Seq<Seq<char>>) -> bool {
    exists|e: int, flag: Json|
        0 <= e < env_ids.len() && payload == json_text(#[trigger] upsert_document(env_ids[e], flag))
}

/// An event that a connection which may see these environments may be sent.
pub open spec fn authorized(event: SseEventView, s: SseView) -> bool {
    ||| event == connected_event(s.environment_id)
    ||| event == ready_event(s.bootstrap.len())
    ||| event == update_event(event.data) && carries_flag_of(event.data, s.env_ids)
    ||| event == update_event(event.data) && forwards(
        json_document(event.data),
        s.env_ids.to_set(),
    )
}

spec fn sound(s: SseView) -> bool {
    &&& forall|p: int|
        0 <= p < s.bootstrap.len() ==> carries_flag_of(#[trigger] s.bootstrap[p], s.env_ids)
    &&& s.phase is Environments || s.phase is Subscribe ==> s.bootstrap.len() == 0
    &&& s.phase matches SsePhaseView::Segments(i) ==> i < s.env_ids.len()
    &&& s.phase matches SsePhaseView::Flags(i) ==> i < s.env_ids.len()
}

proof fn lemma_sound_step(s: SseView, reply: SseReplyView)
    requires
        sound(s),
        sse_awaits(s.phase, reply),
    ensures
        sound(sse_next(s, reply).0),
        sse_next(s, reply).1 matches SseActionView::Emit(event) ==> authorized(
            event,
            sse_next(s, reply).0,
        ),
        !(s.phase is Environments) ==> sse_next(s, reply).0.env_ids == s.env_ids,
{
    if let (SsePhaseView::Flags(i), SseReplyView::Flags(Ok(rows))) = (s.phase, reply) {
        let env_id = s.env_ids[i as int];
        if let Some(more) = payloads(env_id, rows) {
            let all = s.bootstrap + more;
            assert forall|p: int| 0 <= p < all.len() implies carries_flag_of(
                #[trigger] all[p],
                s.env_ids,
            ) by {
                if p < s.bootstrap.len() {
                    assert(all[p] == s.bootstrap[p]);
                } else {
                    let flag = rows[p - s.bootstrap.len()]->0;
                    assert(all[p] == json_text(upsert_document(s.env_ids[i as int], flag)));
                }
            }
        }
    }
}

/// A connection is sent only its environment, the number of its stored flags, stored flags of the
/// environments that it may see, and broadcasts that name one of them. The environments that it
/// may see are the one of its SDK key, or the list that was looked up for its user.
pub proof fn law_only_authorized_events(
    environment_id: Option<Seq<char>>,
    sdk_key_name: Option<Seq<char>>,
    scope: ScopeView,
    replies: Seq<SseReplyView>,
)
    requires
        sse_orderly(sse_start(environment_id, sdk_key_name, scope), replies),
    ensures
        ({
            let (s, action) = sse_run(
                sse_start(environment_id, sdk_key_name, scope),
                replies,
            );
            &&& action matches SseActionView::Emit(event) ==> authorized(event, s)
            &&& scope matches ScopeView::Only(env_id) ==> s.env_ids == seq![env_id]
            &&& !(scope is Only) && replies.len() > 0 ==> (
            replies[0] matches SseReplyView::Environments(Ok(list)) ==> s.env_ids == list)
        }),
{
    lemma_sound_run(environment_id, sdk_key_name, scope, replies);
}

proof fn lemma_sound_run(
    environment_id: Option<Seq<char>>,
    sdk_key_name: Option<Seq<char>>,
    scope: ScopeView,
    replies: Seq<SseReplyView>,
)
    requires
        sse_orderly(sse_start(environment_id, sdk_key_name, scope), replies),
    ensures
        ({
            let (s, action) = sse_run(
                sse_start(environment_id, sdk_key_name, scope),
                replies,
            );
            &&& sound(s)
            &&& action matches SseActionView::Emit(event) ==> authorized(event, s)
            &&& scope matches ScopeView::Only(env_id) ==> s.env_ids == seq![env_id]
            &&& s.phase is Environments ==> !(scope is Only) && replies.len() == 0
            &&& !(scope is Only) && replies.len() > 0 ==> (
            replies[0] matches SseReplyView::Environments(Ok(list)) ==> s.env_ids == list)
        }),
    decreases replies.len(),
{
    let start = sse_start(environment_id, sdk_key_name, scope);
    if replies.len() > 0 {
        let before = replies.drop_last();
        lemma_sound_run(environment_id, sdk_key_name, scope, before);
        let s = sse_run(start, before).0;
        let last = replies.last();
        assert(last == replies[replies.len() - 1]);
        lemma_sound_step(s, last);
        if before.len() > 0 {
            assert(before[0] == replies[0]);
        }
    }
}

/// Nothing is sent before the connection is noted on the dashboard, and a connection that is
/// noted there is never refused.
pub proof fn law_nothing_sent_before_registered(s: SseView, reply: SseReplyView)
    requires
        sse_awaits(s.phase, reply),
    ensures
        sse_next(s, reply).1 is Emit ==> s.phase is Register || s.phase is Stored || s.phase is Live,
        sse_next(s, reply).1 is Reject ==> s.phase is Environments || s.phase is Segments
            || s.phase is Flags,
        s.phase is Register || s.phase is Stored || s.phase is Ready || s.phase is Live
            || s.phase is Delivered ==> {
            let next = sse_next(s, reply).0.phase;
            next is Stored || next is Ready || next is Live || next is Delivered
                || next is Finished
        },
{
}

/// A client that falls behind is disconnected, so that it connects again and starts afresh; so is
/// everyone when the broadcast ends. Nothing else closes a connection.
pub proof fn law_lagging_closes(s: SseView, reply: SseReplyView)
    requires
        sse_awaits(s.phase, reply),
    ensures
        sse_next(s, reply).1 is Close <==> reply is Lagged || reply is ChannelClosed,
{
}

// ---------------------------------------------------------------------------
// Everything that is sent
// ---------------------------------------------------------------------------
/// The events that a connection was sent, in order.
pub open spec fn sent(start: (SseView, SseActionView), replies: Seq<SseReplyView>) -> Seq<
    SseEventView,
>
    decreases replies.len(),
{
    if replies.len() == 0 {
        seq![]
    } else {
        let before = sent(start, replies.drop_last());
        match sse_run(start, replies).1 {
            SseActionView::Emit(event) => before.push(event),
            _ => before,
        }
    }
}

/// The events that open a connection: its environment, every stored flag, and how many there
/// were.
pub open spec fn opening_events(s: SseView) -> Seq<SseEventView> {
    Seq::new(s.bootstrap.len() + 2, |k: int| opening_event(s, k as nat))
}

/// The broadcasts that were received and name one of the environments, as events, in order.
pub open spec fn allowed_broadcasts(replies: Seq<SseReplyView>, env_ids: Seq<Seq<char>>) -> Seq<
    SseEventView,
>
    decreases replies.len(),
{
    if replies.len() == 0 {
        seq![]
    } else {
        let before = allowed_broadcasts(replies.drop_last(), env_ids);
        match replies.last() {
            SseReplyView::Received(payload) => if forwards(
                json_document(payload),
                env_ids.to_set(),
            ) {
                before.push(update_event(payload))
            } else {
                before
            },
            _ => before,
        }
    }
}

/// The flags that were loaded, environment by environment.
pub open spec fn flag_loads(replies: Seq<SseReplyView>) -> Seq<Seq<Option<Json>>>
    decreases replies.len(),
{
    if replies.len() == 0 {
        seq![]
    } else {
        let before = flag_loads(replies.drop_last());
        match replies.last() {
            SseReplyView::Flags(Ok(rows)) => before.push(rows),
            _ => before,
        }
    }
}

/// The payloads of the first `k` environments.
spec fn stored_first(env_ids: Seq<Seq<char>>, loads: Seq<Seq<Option<Json>>>, k: nat) -> Option<
    Seq<Seq<char>>,
>
    decreases k,
{
    if k == 0 {
        Some(seq![])
    } else {
        match (stored_first(env_ids, loads, (k - 1) as nat), payloads(env_ids[k - 1], loads[k
            - 1])) {
            (Some(before), Some(last)) => Some(before + last),
            _ => None,
        }
    }
}

proof fn lemma_stored_first_push(
    env_ids: Seq<Seq<char>>,
    loads: Seq<Seq<Option<Json>>>,
    rows: Seq<Option<Json>>,
    k: nat,
)
    requires
        k <= loads.len(),
    ensures
        stored_first(env_ids, loads.push(rows), k) == stored_first(env_ids, loads, k),
    decreases k,
{
    if k > 0 {
        lemma_stored_first_push(env_ids, loads, rows, (k - 1) as nat);
        assert(loads.push(rows)[k - 1] == loads[k - 1]);
    }
}

proof fn lemma_stored_first(env_ids: Seq<Seq<char>>, loads: Seq<Seq<Option<Json>>>, k: nat)
    requires
        k <= env_ids.len(),
        stored_first(env_ids, loads, k) is Some,
    ensures
        stored_payloads(env_ids, loads, 0) == match stored_payloads(env_ids, loads, k) {
            Some(rest) => Some(stored_first(env_ids, loads, k)->0 + rest),
            None => None,
        },
    decreases k,
{
    if k == 0 {
        if let Some(rest) = stored_payloads(env_ids, loads, 0) {
            assert(Seq::<Seq<char>>::empty() + rest =~= rest);
        }
    } else {
        let j = (k - 1) as nat;
        lemma_stored_first(env_ids, loads, j);
        let before = stored_first(env_ids, loads, j)->0;
        let last = payloads(env_ids[k - 1], loads[k - 1])->0;
        if let Some(rest) = stored_payloads(env_ids, loads, k) {
            assert(before + (last + rest) =~= (before + last) + rest);
        }
    }
}

/// Every environment was loaded, and the stored payloads are those of the loads.
pub open spec fn fully_loaded(s: SseView, replies: Seq<SseReplyView>) -> bool {
    &&& flag_loads(replies).len() == s.env_ids.len()
    &&& stored_payloads(s.env_ids, flag_loads(replies), 0) == Some(s.bootstrap)
}

/// What a connection was sent, by what it waits for.
spec fn sent_in_step(
    start: (SseView, SseActionView),
    replies: Seq<SseReplyView>,
    s: SseView,
    action: SseActionView,
) -> bool {
    let loads = flag_loads(replies);
    let events = sent(start, replies);
    let news = allowed_broadcasts(replies, s.env_ids);
    let all = opening_events(s) + news;
    match s.phase {
        SsePhaseView::Environments => {
            replies.len() == 0 && s.bootstrap.len() == 0
        },
        SsePhaseView::Subscribe => {
            events.len() == 0 && news.len() == 0 && loads.len() == 0 && s.bootstrap.len() == 0
        },
        SsePhaseView::Segments(i) => {
            &&& events.len() == 0 && news.len() == 0
            &&& i < s.env_ids.len()
            &&& loads.len() == i
            &&& stored_first(s.env_ids, loads, i) == Some(s.bootstrap)
        },
        SsePhaseView::Flags(i) => {
            &&& events.len() == 0 && news.len() == 0
            &&& i < s.env_ids.len()
            &&& loads.len() == i
            &&& stored_first(s.env_ids, loads, i) == Some(s.bootstrap)
        },
        SsePhaseView::Register => {
            events.len() == 0 && news.len() == 0 && fully_loaded(s, replies)
        },
        SsePhaseView::Stored(i) => {
            &&& i <= s.bootstrap.len()
            &&& events == opening_events(s).take(i as int + 1)
            &&& news.len() == 0
            &&& fully_loaded(s, replies)
        },
        SsePhaseView::Ready => events == all && news.len() == 0 && fully_loaded(s, replies),
        SsePhaseView::Live => events == all && fully_loaded(s, replies),
        SsePhaseView::Delivered => events == all && fully_loaded(s, replies),
        SsePhaseView::Finished => if action is Close {
            events == all && fully_loaded(s, replies)
        } else {
            action == SseActionView::Reject(500) && events.len() == 0
        },
    }
}

proof fn lemma_sent_in_step(
    environment_id: Option<Seq<char>>,
    sdk_key_name: Option<Seq<char>>,
    scope: ScopeView,
    replies: Seq<SseReplyView>,
)
    requires
        sse_orderly(sse_start(environment_id, sdk_key_name, scope), replies),
    ensures
        ({
            let start = sse_start(environment_id, sdk_key_name, scope);
            let (s, action) = sse_run(start, replies);
            &&& sent_in_step(start, replies, s, action)
            &&& s.environment_id == environment_id
            &&& s.sdk_key_name == sdk_key_name
        }),
    decreases replies.len(),
{
    let start = sse_start(environment_id, sdk_key_name, scope);
    if replies.len() > 0 {
        let earlier = replies.drop_last();
        let s = sse_run(start, earlier).0;
        let (t, action) = sse_run(start, replies);
        let reply = replies.last();
        lemma_sent_in_step(environment_id, sdk_key_name, scope, earlier);
        let loads = flag_loads(earlier);
        match (s.phase, reply) {
            (SsePhaseView::Environments, _) => {
                assert(earlier.len() == 0);
                assert(sent(start, earlier) =~= seq![]);
                assert(allowed_broadcasts(earlier, t.env_ids) =~= seq![]);
                assert(flag_loads(earlier) =~= seq![]);
            },
            (SsePhaseView::Subscribe, _) => {
                assert(s.bootstrap =~= seq![]);
                assert(flag_loads(replies) =~= seq![]);
                if t.phase is Register {
                    assert(stored_payloads(t.env_ids, flag_loads(replies), 0) =~= Some(
                        t.bootstrap,
                    ));
                }
            },
            (SsePhaseView::Flags(i), SseReplyView::Flags(Ok(rows))) => {
                lemma_stored_first_push(s.env_ids, loads, rows, i);
                assert(loads.push(rows)[i as int] == rows);
                if payloads(s.env_ids[i as int], rows) is Some {
                    assert(stored_first(s.env_ids, flag_loads(replies), i + 1) == Some(
                        t.bootstrap,
                    ));
                    lemma_stored_first(s.env_ids, flag_loads(replies), i + 1);
                    assert(t.bootstrap + Seq::<Seq<char>>::empty() =~= t.bootstrap);
                }
            },
            (SsePhaseView::Register, _) => {
                assert(sent(start, replies) =~= opening_events(t).take(1));
            },
            (SsePhaseView::Stored(i), _) => {
                assert(opening_events(s) =~= opening_events(t));
                if i < s.bootstrap.len() {
                    assert(sent(start, replies) =~= opening_events(t).take(i as int + 2));
                } else {
                    assert(sent(start, replies) =~= opening_events(t) + allowed_broadcasts(
                        replies,
                        t.env_ids,
                    ));
                }
            },
            _ => {
                assert(opening_events(s) =~= opening_events(t));
                assert(t.phase is Live || t.phase is Delivered || action is Close ==> sent(
                    start,
                    replies,
                ) =~= opening_events(t) + allowed_broadcasts(replies, t.env_ids));
            },
        }
    }
}

/// What a connection is sent from its beginning to its end, whatever it is answered: its
/// environment, every stored flag of its environments in order, how many there were, and then the
/// broadcasts that were received and name one of its environments, in order and once each. What
/// was sent so far is always the beginning of that; once the connection is live it is all of it,
/// and up to a refusal it is nothing. The connection is noted on the dashboard with the
/// environment and the key name of its caller.
pub proof fn law_events_in_order(
    environment_id: Option<Seq<char>>,
    sdk_key_name: Option<Seq<char>>,
    scope: ScopeView,
    replies: Seq<SseReplyView>,
)
    requires
        sse_orderly(sse_start(environment_id, sdk_key_name, scope), replies),
    ensures
        ({
            let start = sse_start(environment_id, sdk_key_name, scope);
            let (s, action) = sse_run(start, replies);
            let events = sent(start, replies);
            let all = opening_events(s) + allowed_broadcasts(replies, s.env_ids);
            &&& events.is_prefix_of(all)
            &&& s.phase is Live || s.phase is Delivered || action is Close ==> events == all
            &&& action is Reject ==> events.len() == 0
            &&& events.len() > 0 ==> fully_loaded(s, replies)
            &&& action matches SseActionView::Register { environment_id: e, sdk_key_name: n } ==> e
                == environment_id && n == sdk_key_name
        }),
{
    let start = sse_start(environment_id, sdk_key_name, scope);
    let (s, action) = sse_run(start, replies);
    lemma_sent_in_step(environment_id, sdk_key_name, scope, replies);
    if replies.len() > 0 {
        let r = sse_run(start, replies.drop_last()).0;
        assert(action == sse_next(r, replies.last()).1);
    }
    let all = opening_events(s) + allowed_broadcasts(replies, s.env_ids);
    assert(sent(start, replies).is_prefix_of(all));
}

/// The flags of an environment are asked for only with its segments at hand: whoever waits for
/// the flags of the `i`th environment asks for those, and the reply before was the segments of
/// that same environment.
pub proof fn law_segments_are_of_the_same_environment(s: SseView, reply: SseReplyView, i: nat)
    requires
        sse_awaits(s.phase, reply),
        sse_next(s, reply).0.phase == SsePhaseView::Flags(i),
    ensures
        s.phase == SsePhaseView::Segments(i),
        reply matches SseReplyView::Segments(Ok(_)),
        sse_next(s, reply).1 == (SseActionView::LoadFlags { env_id: s.env_ids[i as int] }),
{
}

/// Whoever waits for the segments of the `i`th environment asked for those.
pub proof fn law_segments_are_asked_for(s: SseView, reply: SseReplyView, i: nat)
    requires
        sse_awaits(s.phase, reply),
        sse_next(s, reply).0.phase == SsePhaseView::Segments(i),
    ensures
        i < s.env_ids.len(),
        sse_next(s, reply).1 == (SseActionView::LoadSegments { env_id: s.env_ids[i as int] }),
{
}

/// Two connections for the same environment, which may see the same environments, loaded the same
/// flags of these and received the same broadcasts that name one of them, are sent the same
/// events, whatever else was broadcast: both are sent a beginning of one sequence, and once they
/// are live all of it. What happens in environments that a connection may not see does not show.
pub proof fn law_other_environments_do_not_show(
    environment_id: Option<Seq<char>>,
    name_a: Option<Seq<char>>,
    name_b: Option<Seq<char>>,
    scope_a: ScopeView,
    scope_b: ScopeView,
    replies_a: Seq<SseReplyView>,
    replies_b: Seq<SseReplyView>,
)
    requires
        sse_orderly(sse_start(environment_id, name_a, scope_a), replies_a),
        sse_orderly(sse_start(environment_id, name_b, scope_b), replies_b),
        ({
            let a = sse_run(sse_start(environment_id, name_a, scope_a), replies_a).0;
            let b = sse_run(sse_start(environment_id, name_b, scope_b), replies_b).0;
            &&& a.env_ids == b.env_ids
            &&& flag_loads(replies_a) == flag_loads(replies_b)
            &&& allowed_broadcasts(replies_a, a.env_ids) == allowed_broadcasts(
                replies_b,
                b.env_ids,
            )
        }),
    ensures
        ({
            let start_a = sse_start(environment_id, name_a, scope_a);
            let start_b = sse_start(environment_id, name_b, scope_b);
            let (a, act_a) = sse_run(start_a, replies_a);
            let (b, act_b) = sse_run(start_b, replies_b);
            let (events_a, events_b) = (sent(start_a, replies_a), sent(start_b, replies_b));
            &&& events_a.is_prefix_of(events_b) || events_b.is_prefix_of(events_a)
            &&& (a.phase is Live || a.phase is Delivered || act_a is Close) && (b.phase is Live
                || b.phase is Delivered || act_b is Close) ==> events_a == events_b
        }),
{
    let start_a = sse_start(environment_id, name_a, scope_a);
    let start_b = sse_start(environment_id, name_b, scope_b);
    lemma_sent_in_step(environment_id, name_a, scope_a, replies_a);
    lemma_sent_in_step(environment_id, name_b, scope_b, replies_b);
    law_events_in_order(environment_id, name_a, scope_a, replies_a);
    law_events_in_order(environment_id, name_b, scope_b, replies_b);
    let (a, b) = (sse_run(start_a, replies_a).0, sse_run(start_b, replies_b).0);
    let (events_a, events_b) = (sent(start_a, replies_a), sent(start_b, replies_b));
    if events_a.len() > 0 && events_b.len() > 0 {
        assert(a.bootstrap == b.bootstrap);
        assert(opening_events(a) =~= opening_events(b));
        if events_a.len() <= events_b.len() {
            assert(events_a.is_prefix_of(events_b));
        } else {
            assert(events_b.is_prefix_of(events_a));
        }
    } else if events_a.len() == 0 {
        assert(events_a.is_prefix_of(events_b));
    } else {
        assert(events_b.is_prefix_of(events_a));
    }
}

// ---------------------------------------------------------------------------
// What events and payloads say
// ---------------------------------------------------------------------------
/// A connection is told its environment under the name `connected`, as an object of one member;
/// null where it has none.
pub proof fn law_connected_event(env_id: Seq<char>)
    ensures
        connected_event(Some(env_id)).event == "connected"@,
        connected_event(Some(env_id)).data == json_text(
            Json::Object(map!["environment_id"@ => Json::Text(env_id)]),
        ),
        connected_event(None).event == "connected"@,
        connected_event(None).data == json_text(
            Json::Object(map!["environment_id"@ => Json::Null]),
        ),
{
}

/// A payload is sent under the name `update` to the letter, and the number of stored flags under
/// the name `ready`, in decimal.
pub proof fn law_update_and_ready_events(payload: Seq<char>, count: nat)
    ensures
        update_event(payload).event == "update"@,
        update_event(payload).data == payload,
        ready_event(count).event == "ready"@,
        ready_event(count).data == decimal_of(count),
{
}

/// A stored flag is carried by an object of three members and no other: its type, its environment
/// and the flag itself.
pub proof fn law_upsert_document(env_id: Seq<char>, flag: Json)
    ensures
        upsert_document(env_id, flag) matches Json::Object(members) && {
            &&& members.dom() =~= set!["type"@, "env_id"@, "flag"@]
            &&& members["type"@] == Json::Text("UPSERT"@)
            &&& members["env_id"@] == Json::Text(env_id)
            &&& members["flag"@] == flag
        },
{
    reveal_strlit("type");
    reveal_strlit("env_id");
    reveal_strlit("flag");
    assert("type"@[0] == 't' && "env_id"@[0] == 'e' && "flag"@[0] == 'f');
}

/// The payloads of an environment are one for each row, in order, each the text of the object that
/// carries that row's flag; there are none exactly where some row could not be read.
pub proof fn law_payloads_are_the_flags(env_id: Seq<char>, rows: Seq<Option<Json>>)
    ensures
        payloads(env_id, rows) is Some <==> forall|i: int|
            0 <= i < rows.len() ==> (#[trigger] rows[i]) is Some,
        payloads(env_id, rows) matches Some(list) ==> list.len() == rows.len() && forall|i: int|
            0 <= i < rows.len() ==> #[trigger] list[i] == json_text(
                Json::Object(
                    map![
                        "type"@ => Json::Text("UPSERT"@),
                        "env_id"@ => Json::Text(env_id),
                        "flag"@ => rows[i]->0,
                    ],
                ),
            ),
{
}

/// The documents of some rows are those that their values hold, row by row.
pub proof fn law_documents_are_of_the_rows(rows: Seq<Option<Value>>, i: int)
    requires
        0 <= i < rows.len(),
    ensures
        documents(rows).len() == rows.len(),
        rows[i] matches Some(value) ==> documents(rows)[i] == Some(json_of(value)),
        rows[i] is None ==> documents(rows)[i] is None,
{
}

/// Every row of an environment is expanded by itself, with the segments of the environment; a row
/// that could not be read comes to nothing.
pub proof fn law_rows_are_expanded_one_by_one<S, F, X: Fn(Value, &S) -> Option<F>>(
    expand: X,
    segments: &S,
    rows: Seq<Option<Value>>,
    flags: Seq<Option<F>>,
    i: int,
)
    requires
        expands_to(expand, segments, rows, flags),
        0 <= i < rows.len(),
    ensures
        flags.len() == rows.len(),
        rows[i] matches Some(row) ==> call_ensures(expand, (row, segments), flags[i]),
        rows[i] is None ==> flags[i] is None,
{
}

// ---------------------------------------------------------------------------
// Broadcasts
// ---------------------------------------------------------------------------
/// A broadcast is forwarded exactly where its document is an object whose member `env_id` is a
/// text, and that text is an environment which is allowed. Nothing else about it matters.
pub proof fn law_forwarded_by_environment_alone(document: Option<Json>, allowed: Set<Seq<char>>)
    ensures
        forwards(document, allowed) <==> (document matches Some(Json::Object(members))
            && members.contains_key("env_id"@) && (members["env_id"@] matches Json::Text(env_id)
            && allowed.contains(env_id))),
{
}

/// A live connection sends a broadcast on exactly where its document is an object whose member
/// `env_id` is the text of an environment that the connection may see; then it sends the very
/// payload, as an `update`, and waits for the client. Any other broadcast it passes over, and
/// waits for the next.
pub proof fn law_live_broadcasts(s: SseView, payload: Seq<char>)
    requires
        s.phase is Live,
    ensures
        ({
            let step = sse_next(s, SseReplyView::Received(payload));
            let mine = json_document(payload) matches Some(Json::Object(members))
                && members.contains_key("env_id"@) && (members["env_id"@] matches Json::Text(
                env_id,
            ) && s.env_ids.contains(env_id));
            &&& mine ==> step == (
                SseView { phase: SsePhaseView::Delivered, ..s },
                SseActionView::Emit(SseEventView { event: "update"@, data: payload }),
            )
            &&& !mine ==> step == (s, SseActionView::Receive)
        }),
{
}

/// Whatever else a broadcast holds, an upsert of a flag in an environment that the connection may
/// see is sent on.
pub proof fn law_upserts_are_sent_on(
    s: SseView,
    payload: Seq<char>,
    env_id: Seq<char>,
    flag: Json,
)
    requires
        s.phase is Live,
        json_document(payload) == Some(upsert_document(env_id, flag)),
        s.env_ids.contains(env_id),
    ensures
        sse_next(s, SseReplyView::Received(payload)).1 == SseActionView::Emit(
            SseEventView { event: "update"@, data: payload },
        ),
{
    law_upsert_document(env_id, flag);
    law_live_broadcasts(s, payload);
}

/// Two broadcasts that name the same environment are both sent on or both passed over.
pub proof fn law_forwarding_depends_on_the_environment(
    a: Map<Seq<char>, Json>,
    b: Map<Seq<char>, Json>,
    allowed: Set<Seq<char>>,
)
    requires
        a.contains_key("env_id"@),
        b.contains_key("env_id"@),
        a["env_id"@] == b["env_id"@],
    ensures
        forwards(Some(Json::Object(a)), allowed) == forwards(Some(Json::Object(b)), allowed),
{
}

// ---------------------------------------------------------------------------
// What follows each reply
// ---------------------------------------------------------------------------
/// How a connection starts: a key of an environment may see that one and subscribes; a user asks
/// for the environments of their projects, by their own id and role; the server's own key asks for
/// all. Nothing is loaded yet.
pub proof fn law_connection_starts(
    environment_id: Option<Seq<char>>,
    sdk_key_name: Option<Seq<char>>,
    scope: ScopeView,
)
    ensures
        ({
            let (s, action) = sse_start(environment_id, sdk_key_name, scope);
            &&& s.environment_id == environment_id
            &&& s.sdk_key_name == sdk_key_name
            &&& s.bootstrap.len() == 0
            &&& match scope {
                ScopeView::Only(env_id) => s.env_ids == seq![env_id] && s.phase is Subscribe
                    && action is Subscribe,
                ScopeView::Member { user_id, role } => s.env_ids.len() == 0
                    && s.phase is Environments && action == (
                SseActionView::FindMemberEnvironments { user_id, role }),
                ScopeView::All => s.env_ids.len() == 0 && s.phase is Environments
                    && action is FindAllEnvironments,
            }
        }),
{
}

/// A connection is refused, with 500, exactly where the environments, segments or flags could not
/// be loaded or some flag could not be read; no other reply refuses it.
pub proof fn law_refused_exactly_when(s: SseView, reply: SseReplyView)
    requires
        sse_awaits(s.phase, reply),
    ensures
        sse_next(s, reply).1 is Reject <==> {
            ||| reply matches SseReplyView::Environments(Err(_))
            ||| reply matches SseReplyView::Segments(Err(_))
            ||| reply matches SseReplyView::Flags(Err(_))
            ||| (reply matches SseReplyView::Flags(Ok(rows)) && exists|i: int|
                0 <= i < rows.len() && (#[trigger] rows[i]) is None)
        },
        sse_next(s, reply).1 is Reject ==> sse_next(s, reply).1 == SseActionView::Reject(500),
{
    if let SseReplyView::Flags(Ok(rows)) = reply {
        if payloads(s.env_ids[s.phase->Flags_0 as int], rows) is None {
            let i = choose|i: int| 0 <= i < rows.len() && !((#[trigger] rows[i]) is Some);
            assert(rows[i] is None);
        }
    }
}

/// Loading goes through the environments in order: each has its segments loaded and then its
/// flags, whose payloads are kept behind those of the environments before it; after the last, the
/// connection asks to be noted on the dashboard.
pub proof fn law_loading_goes_in_order(s: SseView, i: nat, rows: Seq<Option<Json>>)
    requires
        i < s.env_ids.len(),
        forall|k: int| 0 <= k < rows.len() ==> (#[trigger] rows[k]) is Some,
    ensures
        ({
            let subscribed = sse_next(
                SseView { phase: SsePhaseView::Subscribe, ..s },
                SseReplyView::Subscribed,
            );
            let asked = sse_next(
                SseView { phase: SsePhaseView::Segments(i), ..s },
                SseReplyView::Segments(Ok(())),
            );
            let loaded = sse_next(
                SseView { phase: SsePhaseView::Flags(i), ..s },
                SseReplyView::Flags(Ok(rows)),
            );
            &&& subscribed == (
                SseView { phase: SsePhaseView::Segments(0), ..s },
                SseActionView::LoadSegments { env_id: s.env_ids[0] },
            )
            &&& asked == (
                SseView { phase: SsePhaseView::Flags(i), ..s },
                SseActionView::LoadFlags { env_id: s.env_ids[i as int] },
            )
            &&& loaded.0.env_ids == s.env_ids
            &&& loaded.0.environment_id == s.environment_id
            &&& loaded.0.sdk_key_name == s.sdk_key_name
            &&& loaded.0.bootstrap.len() == s.bootstrap.len() + rows.len()
            &&& loaded.0.bootstrap.take(s.bootstrap.len() as int) == s.bootstrap
            &&& forall|k: int|
                0 <= k < rows.len() ==> loaded.0.bootstrap[s.bootstrap.len() + k] == json_text(
                    Json::Object(
                        map![
                            "type"@ => Json::Text("UPSERT"@),
                            "env_id"@ => Json::Text(s.env_ids[i as int]),
                            "flag"@ => (#[trigger] rows[k])->0,
                        ],
                    ),
                )
            &&& i + 1 < s.env_ids.len() ==> loaded.0.phase == SsePhaseView::Segments(i + 1)
                && loaded.1 == (SseActionView::LoadSegments { env_id: s.env_ids[i as int + 1] })
            &&& i + 1 == s.env_ids.len() ==> loaded.0.phase is Register && loaded.1 == (
            SseActionView::Register {
                environment_id: s.environment_id,
                sdk_key_name: s.sdk_key_name,
            })
        }),
{
    let more = payloads(s.env_ids[i as int], rows)->0;
    assert((s.bootstrap + more).take(s.bootstrap.len() as int) =~= s.bootstrap);
    let loaded = sse_next(
        SseView { phase: SsePhaseView::Flags(i), ..s },
        SseReplyView::Flags(Ok(rows)),
    );
    assert(loaded.0.bootstrap == s.bootstrap + more);
    law_payloads_are_the_flags(s.env_ids[i as int], rows);
    assert forall|k: int| 0 <= k < rows.len() implies loaded.0.bootstrap[s.bootstrap.len() + k]
        == json_text(
        Json::Object(
            map![
                "type"@ => Json::Text("UPSERT"@),
                "env_id"@ => Json::Text(s.env_ids[i as int]),
                "flag"@ => (#[trigger] rows[k])->0,
            ],
        ),
    ) by {
        assert(loaded.0.bootstrap[s.bootstrap.len() + k] == more[k]);
    }
}

/// A connection with no environment to load asks to be noted on the dashboard at once.
pub proof fn law_nothing_to_load(s: SseView)
    requires
        s.phase is Subscribe,
        s.env_ids.len() == 0,
    ensures
        sse_next(s, SseReplyView::Subscribed) == (
            SseView { phase: SsePhaseView::Register, ..s },
            SseActionView::Register {
                environment_id: s.environment_id,
                sdk_key_name: s.sdk_key_name,
            },
        ),
{
}

/// The environments that were looked up for a user are the ones that the connection may see.
pub proof fn law_looked_up_environments_are_taken(s: SseView, env_ids: Seq<Seq<char>>)
    requires
        s.phase is Environments,
    ensures
        sse_next(s, SseReplyView::Environments(Ok(env_ids))) == (
            SseView { env_ids, phase: SsePhaseView::Subscribe, ..s },
            SseActionView::Subscribe,
        ),
{
}

/// Once the client took what it was sent, the connection goes on: with the next stored flag, with
/// their number, or with the next broadcast.
pub proof fn law_client_is_sent_the_next(s: SseView)
    requires
        s.phase is Stored || s.phase is Ready || s.phase is Delivered,
        s.phase matches SsePhaseView::Stored(i) ==> i <= s.bootstrap.len(),
    ensures
        ({
            let step = sse_next(s, SseReplyView::Taken);
            match s.phase {
                SsePhaseView::Stored(i) => if i < s.bootstrap.len() {
                    step == (
                        SseView { phase: SsePhaseView::Stored(i + 1), ..s },
                        SseActionView::Emit(
                            SseEventView { event: "update"@, data: s.bootstrap[i as int] },
                        ),
                    )
                } else {
                    step == (
                        SseView { phase: SsePhaseView::Ready, ..s },
                        SseActionView::Emit(
                            SseEventView {
                                event: "ready"@,
                                data: decimal_of(s.bootstrap.len()),
                            },
                        ),
                    )
                },
                _ => step == (
                    SseView { phase: SsePhaseView::Live, ..s },
                    SseActionView::Receive,
                ),
            }
        }),
{
}

/// A connection takes every answer to what it asked.
pub proof fn law_every_reply_is_taken(phase: SsePhaseView, reply: SseReplyView)
    ensures
        phase is Environments ==> (sse_awaits(phase, reply) <==> reply is Environments),
        phase is Subscribe ==> (sse_awaits(phase, reply) <==> reply is Subscribed),
        phase is Segments ==> (sse_awaits(phase, reply) <==> reply is Segments),
        phase is Flags ==> (sse_awaits(phase, reply) <==> reply is Flags),
        phase is Register ==> (sse_awaits(phase, reply) <==> reply is Registered),
        phase is Stored || phase is Ready || phase is Delivered ==> (sse_awaits(phase, reply)
            <==> reply is Taken),
        phase is Live ==> (sse_awaits(phase, reply) <==> reply is Received || reply is Lagged
            || reply is ChannelClosed),
        phase is Finished ==> !sse_awaits(phase, reply),
{
}

} // verus!
