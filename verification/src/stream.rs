//! The event stream that carries flags to SDK clients and to the dashboard.
use crate::identity::{ClaimsView, SessionClaims};
use crate::json::{
    json_document, json_null, json_object, json_of, json_string, json_text, json_to_string,
    members_of, object_of_one, read_text_member, text_member, Json,
};
use crate::text::maybe;
use serde_json::Value;
use vstd::hash_set::StringHashSet;
use vstd::prelude::*;

verus! {

/// The environments that a connection may see.
#[derive(Debug, PartialEq, Eq)]
pub enum EnvScope {
    /// The one that the SDK key belongs to.
    Only(String),
    /// Those of the projects that the user is a member of; all of them where the role is `admin`.
    Member { user_id: i64, role: String },
    /// All of them.
    All,
}

/// What a scope says.
pub enum ScopeView {
    Only(Seq<char>),
    Member { user_id: i64, role: Seq<char> },
    All,
}

impl View for EnvScope {
    type V = ScopeView;

    open spec fn view(&self) -> ScopeView {
        match self {
            EnvScope::Only(env_id) => ScopeView::Only(env_id@),
            EnvScope::Member { user_id, role } => ScopeView::Member {
                user_id: *user_id,
                role: role@,
            },
            EnvScope::All => ScopeView::All,
        }
    }
}

/// The scope of a connection: the environment of its SDK key, else the memberships of its user,
/// else everything, which only the server's own key comes to.
pub open spec fn scope_of(environment_id: Option<Seq<char>>, claims: Option<ClaimsView>) -> ScopeView {
    match environment_id {
        Some(env_id) => ScopeView::Only(env_id),
        None => match claims {
            Some(c) => ScopeView::Member { user_id: c.user_id, role: c.role },
            None => ScopeView::All,
        },
    }
}

/// Decides which environments a connection may see.
pub fn stream_scope(environment_id: &Option<String>, claims: Option<SessionClaims>) -> (scope: EnvScope)
    ensures
        scope@ == scope_of(maybe(*environment_id), maybe(claims)),
{
    match environment_id {
        Some(env_id) => EnvScope::Only(env_id.clone()),
        None => match claims {
            Some(c) => EnvScope::Member { user_id: c.user_id, role: c.role },
            None => EnvScope::All,
        },
    }
}

// ---------------------------------------------------------------------------
// Payloads
// ---------------------------------------------------------------------------
/// The document that carries a flag of an environment.
pub open spec fn upsert_document(env_id: Seq<char>, flag: Json) -> Json {
    Json::Object(
        map![
            "type"@ => Json::Text("UPSERT"@),
            "env_id"@ => Json::Text(env_id),
            "flag"@ => flag,
        ],
    )
}

/// The document that announces the environment of a connection.
pub open spec fn connected_document(environment_id: Option<Seq<char>>) -> Json {
    Json::Object(
        map![
            "environment_id"@ => match environment_id {
                Some(env_id) => Json::Text(env_id),
                None => Json::Null,
            },
        ],
    )
}

/// The payloads of an environment's flags; nothing where some flag could not be read.
pub open spec fn payloads(env_id: Seq<char>, rows: Seq<Option<Json>>) -> Option<Seq<Seq<char>>> {
    if forall|i: int| 0 <= i < rows.len() ==> (#[trigger] rows[i]) is Some {
        Some(
            Seq::new(
                rows.len(),
                |i: int| json_text(upsert_document(env_id, rows[i]->0)),
            ),
        )
    } else {
        None
    }
}

/// The documents of some rows.
pub open spec fn documents(rows: Seq<Option<Value>>) -> Seq<Option<Json>> {
    rows.map_values(
        |row: Option<Value>|
            match row {
                Some(value) => Some(json_of(value)),
                None => None,
            },
    )
}

/// The texts of some strings.
pub open spec fn strings(list: Seq<String>) -> Seq<Seq<char>> {
    list.map_values(|s: String| s@)
}

/// A broadcast is forwarded where its document names an environment that is allowed.
pub open spec fn forwards(document: Option<Json>, allowed: Set<Seq<char>>) -> bool {
    match text_member(document, "env_id"@) {
        Some(env_id) => allowed.contains(env_id),
        None => false,
    }
}

/// What the engine may make of the rows of an environment: of a row that could be read, the flag
/// with these segments expanded, or nothing where it is no flag; nothing of any other row.
pub open spec fn expands_to<S, F, X: Fn(Value, &S) -> Option<F>>(
    expand: X,
    segments: &S,
    rows: Seq<Option<Value>>,
    flags: Seq<Option<F>>,
) -> bool {
    &&& flags.len() == rows.len()
    &&& forall|i: int|
        0 <= i < rows.len() ==> match #[trigger] rows[i] {
            Some(row) => call_ensures(expand, (row, segments), flags[i]),
            None => flags[i] is None,
        }
}

/// Expands the rows of an environment with its segments.
pub fn expand_rows<S, F, X: Fn(Value, &S) -> Option<F>>(
    expand: &X,
    segments: &S,
    rows: Vec<Option<Value>>,
) -> (flags: Vec<Option<F>>)
    requires
        forall|row: Value, s: &S| call_requires(*expand, (row, s)),
    ensures
        expands_to(*expand, segments, rows@, flags@),
{
    let ghost all = rows@;
    let mut flags: Vec<Option<F>> = Vec::new();
    for row in it: rows
        invariant
            all == it.seq(),
            flags.len() == it.index(),
            forall|row: Value, s: &S| call_requires(*expand, (row, s)),
            expands_to(*expand, segments, all.take(it.index() as int), flags@),
    {
        let ghost before = flags@;
        let ghost done = all.take(it.index() as int);
        let ghost next = all.take(it.index() + 1);
        let flag: Option<F> = match row {
            Some(value) => expand(value, segments),
            None => None,
        };
        flags.push(flag);
        assert forall|i: int| 0 <= i < next.len() implies match #[trigger] next[i] {
            Some(r) => call_ensures(*expand, (r, segments), flags@[i]),
            None => flags@[i] is None,
        } by {
            if i < done.len() {
                assert(next[i] == done[i]);
                assert(flags@[i] == before[i]);
            } else {
                assert(next[i] == row);
            }
        }
    }
    assert(all.take(all.len() as int) =~= all);
    flags
}

/// Writes the payload that carries a flag of an environment.
pub fn upsert_payload(env_id: &str, flag: Value) -> (payload: String)
    ensures
        payload@ == json_text(upsert_document(env_id@, json_of(flag))),
{
    let fields: Vec<(String, Value)> = vec![
        ("type".to_owned(), json_string("UPSERT".to_owned())),
        ("env_id".to_owned(), json_string(env_id.to_owned())),
        ("flag".to_owned(), flag),
    ];
    proof {
        reveal_strlit("type");
        reveal_strlit("env_id");
        reveal_strlit("flag");
        assert("type"@[0] == 't' && "env_id"@[0] == 'e' && "flag"@[0] == 'f');
        reveal_with_fuel(members_of, 4);
        let one = fields@.drop_last();
        assert(one.drop_last().drop_last() =~= Seq::empty());
        assert(members_of(fields@) =~= upsert_document(env_id@, json_of(flag))->Object_0);
    }
    json_to_string(&json_object(fields)).unwrap()
}

/// Writes the payload that announces the environment of a connection.
pub fn connected_payload(environment_id: &Option<String>) -> (payload: String)
    ensures
        payload@ == json_text(connected_document(maybe(*environment_id))),
{
    let value: Value = match environment_id {
        Some(env_id) => json_string(env_id.clone()),
        None => json_null(),
    };
    let object: Value = object_of_one("environment_id", value);
    assert(json_of(object)->Object_0 =~= connected_document(maybe(*environment_id))->Object_0);
    json_to_string(&object).unwrap()
}

/// Tells whether an environment is named and allowed.
pub fn env_is_allowed(env_id: Option<&str>, allowed: &StringHashSet) -> (yes: bool)
    ensures
        yes == (env_id is Some && allowed@.contains(env_id->0@)),
{
    match env_id {
        Some(env) => allowed.contains(env),
        None => false,
    }
}

/// Tells whether a broadcast goes to a connection that may see these environments. A broadcast
/// that is no JSON, or names no environment, goes to nobody.
pub fn should_forward(payload: &str, allowed: &StringHashSet) -> (yes: bool)
    ensures
        yes == forwards(json_document(payload@), allowed@),
{
    match read_text_member(payload, "env_id") {
        Some(env) => env_is_allowed(Some(env.as_str()), allowed),
        None => false,
    }
}

/// Writes the payloads of an environment's flags; nothing where some flag could not be read.
pub fn write_payloads(env_id: &str, rows: Vec<Option<Value>>) -> (written: Option<Vec<String>>)
    ensures
        match written {
            Some(list) => payloads(env_id@, documents(rows@)) == Some(strings(list@)),
            None => payloads(env_id@, documents(rows@)) is None,
        },
{
    let ghost all = documents(rows@);
    let mut list: Vec<String> = Vec::new();
    for row in it: rows
        invariant
            all == documents(it.seq()),
            list.len() == it.index(),
            forall|i: int| 0 <= i < list.len() ==> (#[trigger] all[i]) is Some,
            forall|i: int|
                0 <= i < list.len() ==> (#[trigger] list[i])@ == json_text(
                    upsert_document(env_id@, all[i]->0),
                ),
    {
        assert(all[it.index() as int] == match row {
            Some(value) => Some(json_of(value)),
            None => None,
        });
        match row {
            Some(flag) => {
                list.push(upsert_payload(env_id, flag));
            },
            None => {
                return None;
            },
        }
    }
    assert(payloads(env_id@, all)->0 =~= strings(list@));
    Some(list)
}

} // verus!
