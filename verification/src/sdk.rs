//! The SDK surface: a store of flags, and their evaluation for a user.
//!
//! The flag engine is handed in: what makes a flag of a JSON document, and what evaluates a flag
//! for a user. `F` is the engine's flag.
use crate::json::{
    json_bool, json_document, json_empty_array, json_int, json_null, json_object, json_of,
    json_string, json_text, json_to_string, members_of, parse_json, parse_string_members,
    string_members, Json,
};
use crate::text::{maybe, split_once};
use serde_json::Value;
use std::collections::HashMap;
use vstd::hash_map::StringHashMap;
use vstd::prelude::*;

verus! {

// ---------------------------------------------------------------------------
// The store
// ---------------------------------------------------------------------------
/// The flags by key.
#[verifier::reject_recursive_types(F)]
pub struct FlagStore<F> {
    flags: StringHashMap<F>,
}

impl<F> View for FlagStore<F> {
    type V = Map<Seq<char>, F>;

    closed spec fn view(&self) -> Map<Seq<char>, F> {
        self.flags@
    }
}

impl<F> FlagStore<F> {
    /// A store without flags.
    pub fn new() -> (store: FlagStore<F>)
        ensures
            store@ == Map::<Seq<char>, F>::empty(),
    {
        FlagStore { flags: StringHashMap::new() }
    }

    /// Puts a flag under its key, in place of any that was there.
    pub fn upsert_flag(&mut self, key: String, flag: F)
        ensures
            final(self)@ == old(self)@.insert(key@, flag),
    {
        self.flags.insert(key, flag);
    }

    /// The flag under a key.
    pub fn get_flag(&self, key: &str) -> (flag: Option<&F>)
        ensures
            match flag {
                Some(f) => self@.contains_key(key@) && *f == self@[key@],
                None => !self@.contains_key(key@),
            },
    {
        self.flags.get(key)
    }

    /// Takes the flag under a key out, where there is one.
    pub fn delete_flag(&mut self, key: &str)
        ensures
            final(self)@ == old(self)@.remove(key@),
    {
        self.flags.remove(key);
    }

    /// Takes every flag out.
    pub fn clear(&mut self)
        ensures
            final(self)@ == Map::<Seq<char>, F>::empty(),
    {
        self.flags.clear();
    }
}

/// The flags after an upsert of what the engine made of a document: nothing changes where it made
/// no flag.
pub open spec fn upserted<F>(flags: Map<Seq<char>, F>, made: Option<(String, F)>) -> Map<
    Seq<char>,
    F,
> {
    match made {
        Some((key, flag)) => flags.insert(key@, flag),
        None => flags,
    }
}

fn put<F>(store: &mut FlagStore<F>, made: Option<(String, F)>)
    ensures
        final(store)@ == upserted(old(store)@, made),
{
    if let Some((key, flag)) = made {
        store.upsert_flag(key, flag);
    }
}

/// A store that an upsert of a full JSON text may leave: what the engine made of the text is
/// upserted, and without a text nothing changes.
pub open spec fn text_upserts_to<F, P: Fn(&str) -> Option<(String, F)>>(
    before: Map<Seq<char>, F>,
    parse: P,
    flag_json: Option<&str>,
    after: Map<Seq<char>, F>,
) -> bool {
    match flag_json {
        Some(text) => exists|made: Option<(String, F)>|
            #[trigger] call_ensures(parse, (text,), made) && after == upserted(before, made),
        None => after == before,
    }
}

/// Upserts a flag from its full JSON text. Without a text, or where the engine makes no flag of
/// it, nothing changes.
pub fn checkgate_upsert_flag_v2<F, P: Fn(&str) -> Option<(String, F)>>(
    store: &mut FlagStore<F>,
    parse: P,
    flag_json: Option<&str>,
)
    requires
        forall|text: &str| call_requires(parse, (text,)),
    ensures
        text_upserts_to(old(store)@, parse, flag_json, final(store)@),
{
    if let Some(text) = flag_json {
        let made: Option<(String, F)> = parse(text);
        put(store, made);
    }
}

/// The rules of a legacy upsert: the document that their text stands for, and no rules where
/// there is no text or it is no JSON.
pub open spec fn legacy_rules(rules: Option<Json>) -> Json {
    match rules {
        Some(document) => document,
        None => Json::Array(seq![]),
    }
}

/// The rollout of a legacy upsert: none where the percentage is negative, else a hundred at most.
pub open spec fn legacy_rollout(percentage: int) -> Json {
    if percentage < 0 {
        Json::Null
    } else if percentage > 100 {
        Json::Integer(100)
    } else {
        Json::Integer(percentage)
    }
}

/// The document of a legacy upsert.
pub open spec fn legacy_document(
    key: Seq<char>,
    is_enabled: bool,
    percentage: int,
    rules: Option<Json>,
) -> Json {
    Json::Object(
        map![
            "key"@ => Json::Text(key),
            "is_enabled"@ => Json::Bool(is_enabled),
            "rollout_percentage"@ => legacy_rollout(percentage),
            "description"@ => Json::Null,
            "rules"@ => legacy_rules(rules),
        ],
    )
}

/// The document that an optional value holds.
pub open spec fn maybe_document(value: Option<Value>) -> Option<Json> {
    match value {
        Some(v) => Some(json_of(v)),
        None => None,
    }
}

/// The document that a legacy upsert stands for, by the rules that were read.
pub fn legacy_flag(key: String, is_enabled: bool, rollout_percentage: i32, rules: Option<Value>) -> (flag:
    Value)
    ensures
        json_of(flag) == legacy_document(
            key@,
            is_enabled,
            rollout_percentage as int,
            maybe_document(rules),
        ),
{
    let ghost given = maybe_document(rules);
    let rules_value: Value = match rules {
        Some(value) => value,
        None => json_empty_array(),
    };
    let rollout: Value = if rollout_percentage < 0 {
        json_null()
    } else if rollout_percentage > 100 {
        json_int(100)
    } else {
        json_int(rollout_percentage)
    };
    let fields: Vec<(String, Value)> = vec![
        ("key".to_owned(), json_string(key)),
        ("is_enabled".to_owned(), json_bool(is_enabled)),
        ("rollout_percentage".to_owned(), rollout),
        ("description".to_owned(), json_null()),
        ("rules".to_owned(), rules_value),
    ];
    proof {
        reveal_strlit("key");
        reveal_strlit("is_enabled");
        reveal_strlit("rollout_percentage");
        reveal_strlit("description");
        reveal_strlit("rules");
        assert("key"@.len() == 3 && "is_enabled"@.len() == 10 && "rollout_percentage"@.len() == 18
            && "description"@.len() == 11 && "rules"@.len() == 5);
        reveal_with_fuel(members_of, 6);
        let f = fields@;
        assert(f.drop_last().drop_last().drop_last().drop_last().drop_last() =~= Seq::empty());
        assert(members_of(f) =~= legacy_document(
            key@,
            is_enabled,
            rollout_percentage as int,
            given,
        )->Object_0);
    }
    json_object(fields)
}

/// What a text of rules stands for.
pub open spec fn rules_of(rules_json: Option<Seq<char>>) -> Option<Json> {
    match rules_json {
        Some(text) => json_document(text),
        None => None,
    }
}

/// A store that an upsert of a document may leave: what the engine made of a value that holds the
/// document is upserted.
pub open spec fn document_upserts_to<F, P: Fn(&Value) -> Option<(String, F)>>(
    before: Map<Seq<char>, F>,
    parse: P,
    document: Json,
    after: Map<Seq<char>, F>,
) -> bool {
    exists|value: Value, made: Option<(String, F)>|
        {
            &&& json_of(value) == document
            &&& #[trigger] call_ensures(parse, (&value,), made)
            &&& after == upserted(before, made)
        }
}

/// Upserts a flag from its parts. `rollout_percentage` is 0 to 100, or negative for no limit.
pub fn checkgate_upsert_flag<F, P: Fn(&Value) -> Option<(String, F)>>(
    store: &mut FlagStore<F>,
    parse: P,
    key: String,
    is_enabled: bool,
    rollout_percentage: i32,
    rules_json: Option<&str>,
)
    requires
        forall|document: &Value| call_requires(parse, (document,)),
    ensures
        document_upserts_to(
            old(store)@,
            parse,
            legacy_document(
                key@,
                is_enabled,
                rollout_percentage as int,
                rules_of(maybe(rules_json)),
            ),
            final(store)@,
        ),
{
    let rules: Option<Value> = match rules_json {
        Some(text) => parse_json(text),
        None => None,
    };
    let document: Value = legacy_flag(key, is_enabled, rollout_percentage, rules);
    let made: Option<(String, F)> = parse(&document);
    put(store, made);
}

/// Removes a flag.
pub fn checkgate_delete_flag<F>(store: &mut FlagStore<F>, key: &str)
    ensures
        final(store)@ == old(store)@.remove(key@),
{
    store.delete_flag(key);
}

/// Removes every flag, as a client does when its event stream connects again.
pub fn checkgate_clear_store<F>(store: &mut FlagStore<F>)
    ensures
        final(store)@ == Map::<Seq<char>, F>::empty(),
{
    store.clear();
}

// ---------------------------------------------------------------------------
// Users
// ---------------------------------------------------------------------------
/// The user that a flag is evaluated for.
#[derive(Debug, PartialEq, Eq)]
pub struct UserContext {
    pub key: String,
    pub attributes: HashMap<String, String>,
}

/// What a user says.
pub struct UserView {
    pub key: Seq<char>,
    pub attributes: Map<Seq<char>, Seq<char>>,
}

impl View for UserContext {
    type V = UserView;

    open spec fn view(&self) -> UserView {
        UserView { key: self.key@, attributes: self.attributes.deep_view() }
    }
}

/// A user whose attributes were read once, for many evaluations.
#[derive(Debug, PartialEq, Eq)]
pub struct CheckgateContext {
    inner: UserContext,
}

impl View for CheckgateContext {
    type V = UserView;

    closed spec fn view(&self) -> UserView {
        self.inner@
    }
}

/// The attributes that were read, and none where they could not be.
pub open spec fn attributes_or_none(read: Option<Map<Seq<char>, Seq<char>>>) -> Map<
    Seq<char>,
    Seq<char>,
> {
    match read {
        Some(attributes) => attributes,
        None => Map::empty(),
    }
}

/// What a text of attributes stands for.
pub open spec fn attributes_of(attributes_json: Option<Seq<char>>) -> Option<
    Map<Seq<char>, Seq<char>>,
> {
    match attributes_json {
        Some(text) => string_members(text),
        None => None,
    }
}

/// The user of a key and a text of attributes.
pub open spec fn user_of(user_key: Seq<char>, attributes_json: Option<Seq<char>>) -> UserView {
    UserView {
        key: user_key,
        attributes: attributes_or_none(attributes_of(attributes_json)),
    }
}

/// The user of a key and of the attributes that were read.
pub fn user_with(user_key: String, read: Option<HashMap<String, String>>) -> (user: UserContext)
    ensures
        user@ == (UserView { key: user_key@, attributes: attributes_or_none(read.deep_view()) }),
{
    let attributes: HashMap<String, String> = match read {
        Some(a) => a,
        None => {
            let none: HashMap<String, String> = HashMap::new();
            proof {
                reveal(vstd::std_specs::hash::hash_map_deep_view_impl);
                assert(none.deep_view() =~= Map::empty());
            }
            none
        },
    };
    UserContext { key: user_key, attributes }
}

fn read_user(user_key: String, attributes_json: Option<&str>) -> (user: UserContext)
    ensures
        user@ == user_of(user_key@, maybe(attributes_json)),
{
    let read: Option<HashMap<String, String>> = match attributes_json {
        Some(text) => parse_string_members(text),
        None => None,
    };
    user_with(user_key, read)
}

impl CheckgateContext {
    /// The user.
    pub fn user(&self) -> (user: &UserContext)
        ensures
            user@ == self@,
    {
        &self.inner
    }
}

/// Reads a user key and a text of attributes into a context. Without a text, or where it is no
/// object of strings, the user has no attributes.
pub fn checkgate_make_context(user_key: String, attributes_json: Option<&str>) -> (ctx:
    CheckgateContext)
    ensures
        ctx@ == user_of(user_key@, maybe(attributes_json)),
{
    CheckgateContext { inner: read_user(user_key, attributes_json) }
}

// ---------------------------------------------------------------------------
// Evaluation
// ---------------------------------------------------------------------------
/// The code of an answer.
pub open spec fn enabled_code(enabled: bool) -> i32 {
    if enabled {
        1
    } else {
        0
    }
}

/// The code that an evaluation comes to: 0 without the flag or without a user, else what the
/// engine answers for that flag and that user.
pub open spec fn evaluates_to<F, E: Fn(&F, &UserContext, &FlagStore<F>) -> bool>(
    store: &FlagStore<F>,
    evaluate: E,
    flag_key: Seq<char>,
    user: Option<UserView>,
    code: i32,
) -> bool {
    if store@.contains_key(flag_key) && user is Some {
        exists|u: UserContext, enabled: bool|
            {
                &&& u@ == user->0
                &&& #[trigger] call_ensures(evaluate, (&store@[flag_key], &u, store), enabled)
                &&& code == enabled_code(enabled)
            }
    } else {
        code == 0
    }
}

fn evaluate_code<F, E: Fn(&F, &UserContext, &FlagStore<F>) -> bool>(
    store: &FlagStore<F>,
    evaluate: E,
    flag: &F,
    user: &UserContext,
) -> (code: i32)
    requires
        forall|f: &F, u: &UserContext, s: &FlagStore<F>| call_requires(evaluate, (f, u, s)),
    ensures
        exists|enabled: bool|
            #[trigger] call_ensures(evaluate, (flag, user, store), enabled) && code
                == enabled_code(enabled),
{
    let enabled: bool = evaluate(flag, user, store);
    if enabled {
        1
    } else {
        0
    }
}

/// Evaluates a flag for a context. Gives 1 where it is enabled, else 0; without a context, 0.
pub fn checkgate_is_enabled_ctx<F, E: Fn(&F, &UserContext, &FlagStore<F>) -> bool>(
    store: &FlagStore<F>,
    evaluate: E,
    flag_key: &str,
    ctx: Option<&CheckgateContext>,
) -> (code: i32)
    requires
        forall|f: &F, u: &UserContext, s: &FlagStore<F>| call_requires(evaluate, (f, u, s)),
    ensures
        evaluates_to(store, evaluate, flag_key@, maybe(ctx), code),
{
    match store.get_flag(flag_key) {
        Some(flag) => match ctx {
            Some(c) => evaluate_code(store, evaluate, flag, &c.inner),
            None => 0,
        },
        None => 0,
    }
}

/// Evaluates a flag for a user whose attributes are read on every call. Gives 1 where it is
/// enabled, else 0.
pub fn checkgate_is_enabled<F, E: Fn(&F, &UserContext, &FlagStore<F>) -> bool>(
    store: &FlagStore<F>,
    evaluate: E,
    flag_key: &str,
    user_key: String,
    attributes_json: Option<&str>,
) -> (code: i32)
    requires
        forall|f: &F, u: &UserContext, s: &FlagStore<F>| call_requires(evaluate, (f, u, s)),
    ensures
        evaluates_to(
            store,
            evaluate,
            flag_key@,
            Some(user_of(user_key@, maybe(attributes_json))),
            code,
        ),
{
    match store.get_flag(flag_key) {
        Some(flag) => {
            let user: UserContext = read_user(user_key, attributes_json);
            evaluate_code(store, evaluate, flag, &user)
        },
        None => 0,
    }
}

// ---------------------------------------------------------------------------
// Variants
// ---------------------------------------------------------------------------
/// What a flag comes to for a user: whether it is enabled, and its value.
#[derive(Debug, PartialEq, Eq)]
pub struct EvalResult {
    pub enabled: bool,
    pub value: Value,
}

/// The document of a result.
pub open spec fn result_document(enabled: bool, value: Json) -> Json {
    Json::Object(map!["enabled"@ => Json::Bool(enabled), "value"@ => value])
}

/// The text that is handed out as a C string: one with an interior NUL cannot be, and `null`
/// takes its place.
pub open spec fn c_text(text: Seq<char>) -> Seq<char> {
    if text.contains('\0') {
        "null"@
    } else {
        text
    }
}

/// Makes a text fit for a C string.
pub fn alloc_cstring(text: String) -> (fit: String)
    ensures
        fit@ == c_text(text@),
{
    if split_once(text.as_str(), '\0').is_some() {
        assert(text@.contains('\0')) by {
            let (before, after) = choose|before: Seq<char>, after: Seq<char>|
                text@ == #[trigger] (before.push('\0') + after);
            assert((before.push('\0') + after)[before.len() as int] == '\0');
        }
        "null".to_owned()
    } else {
        text
    }
}

/// Writes a result as JSON.
pub fn eval_result_to_json(result: EvalResult) -> (text: String)
    ensures
        text@ == json_text(result_document(result.enabled, json_of(result.value))),
{
    let fields: Vec<(String, Value)> = vec![
        ("enabled".to_owned(), json_bool(result.enabled)),
        ("value".to_owned(), result.value),
    ];
    proof {
        reveal_strlit("enabled");
        reveal_strlit("value");
        assert("enabled"@.len() == 7 && "value"@.len() == 5);
        reveal_with_fuel(members_of, 3);
        assert(fields@.drop_last().drop_last() =~= Seq::empty());
        assert(members_of(fields@) =~= result_document(
            result.enabled,
            json_of(result.value),
        )->Object_0);
    }
    match json_to_string(&json_object(fields)) {
        Some(text) => text,
        None => "null".to_owned(),
    }
}

/// Writes the value of a result as JSON.
pub fn value_to_json(result: EvalResult) -> (text: String)
    ensures
        text@ == json_text(json_of(result.value)),
{
    match json_to_string(&result.value) {
        Some(text) => text,
        None => "null".to_owned(),
    }
}

/// The text that is handed out for a result.
pub open spec fn variant_of(result: EvalResult) -> Seq<char> {
    c_text(json_text(result_document(result.enabled, json_of(result.value))))
}

/// The text that is handed out for the value of a result.
pub open spec fn value_of(result: EvalResult) -> Seq<char> {
    c_text(json_text(json_of(result.value)))
}

/// A result that the engine may answer for a flag and a user.
pub open spec fn answers<F, E: Fn(&F, &UserContext, &FlagStore<F>) -> EvalResult>(
    store: &FlagStore<F>,
    evaluate: E,
    flag: F,
    user: UserView,
    result: EvalResult,
) -> bool {
    exists|u: UserContext|
        u@ == user && #[trigger] call_ensures(evaluate, (&flag, &u, store), result)
}

/// The text that an evaluation comes to: that of a result which the engine answers, and `null`
/// without the flag.
pub open spec fn variant_text<F, E: Fn(&F, &UserContext, &FlagStore<F>) -> EvalResult>(
    store: &FlagStore<F>,
    evaluate: E,
    flag_key: Seq<char>,
    user: UserView,
    text: Seq<char>,
) -> bool {
    if store@.contains_key(flag_key) {
        exists|result: EvalResult|
            #[trigger] answers(store, evaluate, store@[flag_key], user, result) && text
                == variant_of(result)
    } else {
        text == "null"@
    }
}

/// The text of the value that an evaluation comes to: that of a result which the engine answers,
/// and `null` without the flag.
pub open spec fn value_text<F, E: Fn(&F, &UserContext, &FlagStore<F>) -> EvalResult>(
    store: &FlagStore<F>,
    evaluate: E,
    flag_key: Seq<char>,
    user: UserView,
    text: Seq<char>,
) -> bool {
    if store@.contains_key(flag_key) {
        exists|result: EvalResult|
            #[trigger] answers(store, evaluate, store@[flag_key], user, result) && text == value_of(
                result,
            )
    } else {
        text == "null"@
    }
}

/// Evaluates a flag and writes the result as JSON, `{"enabled":..,"value":..}`; `null` where there
/// is no such flag.
pub fn checkgate_get_variant<F, E: Fn(&F, &UserContext, &FlagStore<F>) -> EvalResult>(
    store: &FlagStore<F>,
    evaluate_variant: E,
    flag_key: &str,
    user_key: String,
    attributes_json: Option<&str>,
) -> (text: String)
    requires
        forall|f: &F, u: &UserContext, s: &FlagStore<F>| call_requires(evaluate_variant, (f, u, s)),
    ensures
        variant_text(
            store,
            evaluate_variant,
            flag_key@,
            user_of(user_key@, maybe(attributes_json)),
            text@,
        ),
{
    match store.get_flag(flag_key) {
        Some(flag) => {
            let user: UserContext = read_user(user_key, attributes_json);
            let result: EvalResult = evaluate_variant(flag, &user, store);
            assert(answers(store, evaluate_variant, store@[flag_key@], user@, result));
            alloc_cstring(eval_result_to_json(result))
        },
        None => alloc_cstring("null".to_owned()),
    }
}

/// Evaluates a flag and writes just its value as JSON; `null` where there is no such flag.
pub fn checkgate_get_value<F, E: Fn(&F, &UserContext, &FlagStore<F>) -> EvalResult>(
    store: &FlagStore<F>,
    evaluate_variant: E,
    flag_key: &str,
    user_key: String,
    attributes_json: Option<&str>,
) -> (text: String)
    requires
        forall|f: &F, u: &UserContext, s: &FlagStore<F>| call_requires(evaluate_variant, (f, u, s)),
    ensures
        value_text(
            store,
            evaluate_variant,
            flag_key@,
            user_of(user_key@, maybe(attributes_json)),
            text@,
        ),
{
    match store.get_flag(flag_key) {
        Some(flag) => {
            let user: UserContext = read_user(user_key, attributes_json);
            let result: EvalResult = evaluate_variant(flag, &user, store);
            assert(answers(store, evaluate_variant, store@[flag_key@], user@, result));
            alloc_cstring(value_to_json(result))
        },
        None => alloc_cstring("null".to_owned()),
    }
}

} // verus!
