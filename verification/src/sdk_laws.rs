//! What the SDK surface promises, whatever the flag engine answers.
//!
//! Where two calls are compared, the engine is one that answers alike on equal input: an engine
//! that draws lots could answer them differently.
use crate::json::{json_document, json_of, json_text, member, string_members, Json};
use crate::sdk::{
    answers, attributes_of, attributes_or_none, c_text, document_upserts_to, enabled_code,
    evaluates_to, legacy_document, legacy_rollout, legacy_rules, result_document, rules_of,
    text_upserts_to, upserted, user_of, value_of, value_text, variant_of, variant_text,
    CheckgateContext, EvalResult, FlagStore, UserContext, UserView,
};
use serde_json::Value;
use vstd::prelude::*;

verus! {

// ---------------------------------------------------------------------------
// Engines
// ---------------------------------------------------------------------------
/// The engine evaluates alike: one flag in one store comes to one answer for users who say the
/// same.
pub open spec fn evaluates_alike<F, E: Fn(&F, &UserContext, &FlagStore<F>) -> bool>(
    evaluate: E,
) -> bool {
    forall|f: &F, s: &FlagStore<F>, u1: UserContext, u2: UserContext, b1: bool, b2: bool|
        #[trigger] call_ensures(evaluate, (f, &u1, s), b1) && #[trigger] call_ensures(
            evaluate,
            (f, &u2, s),
            b2,
        ) && u1@ == u2@ ==> b1 == b2
}

/// The engine answers alike: one flag in one store comes to one result for users who say the
/// same.
pub open spec fn answers_alike<F, E: Fn(&F, &UserContext, &FlagStore<F>) -> EvalResult>(
    evaluate: E,
) -> bool {
    forall|
        f: &F,
        s: &FlagStore<F>,
        u1: UserContext,
        u2: UserContext,
        r1: EvalResult,
        r2: EvalResult,
    |
        #[trigger] call_ensures(evaluate, (f, &u1, s), r1) && #[trigger] call_ensures(
            evaluate,
            (f, &u2, s),
            r2,
        ) && u1@ == u2@ ==> r1.enabled == r2.enabled && json_of(r1.value) == json_of(r2.value)
}

/// Two things made of documents are the same: no flag both times, or the same flag under the same
/// key.
pub open spec fn same_made<F>(a: Option<(String, F)>, b: Option<(String, F)>) -> bool {
    match (a, b) {
        (Some((k1, f1)), Some((k2, f2))) => k1@ == k2@ && f1 == f2,
        (None, None) => true,
        _ => false,
    }
}

/// What the engine makes of a value depends on the document that the value holds.
pub open spec fn parses_alike<F, P: Fn(&Value) -> Option<(String, F)>>(parse: P) -> bool {
    forall|v1: Value, v2: Value, m1: Option<(String, F)>, m2: Option<(String, F)>|
        #[trigger] call_ensures(parse, (&v1,), m1) && #[trigger] call_ensures(parse, (&v2,), m2)
            && json_of(v1) == json_of(v2) ==> same_made(m1, m2)
}

/// What the engine makes of a text is what it makes of the document that the text stands for.
pub open spec fn parsers_agree<
    F,
    P: Fn(&str) -> Option<(String, F)>,
    Q: Fn(&Value) -> Option<(String, F)>,
>(parse_text: P, parse: Q) -> bool {
    forall|text: &str, v: Value, m1: Option<(String, F)>, m2: Option<(String, F)>|
        #[trigger] call_ensures(parse_text, (text,), m1) && #[trigger] call_ensures(
            parse,
            (&v,),
            m2,
        ) && json_document(text@) == Some(json_of(v)) ==> same_made(m1, m2)
}

/// The engine puts a flag under the key that its document names.
pub open spec fn keeps_keys<F, P: Fn(&Value) -> Option<(String, F)>>(parse: P) -> bool {
    forall|v: Value, made: Option<(String, F)>|
        #[trigger] call_ensures(parse, (&v,), made) ==> (made matches Some((key, _)) ==> member(
            json_of(v),
            "key"@,
        ) == Some(Json::Text(key@)))
}

// ---------------------------------------------------------------------------
// Evaluation
// ---------------------------------------------------------------------------
/// Evaluation fails closed: without the flag or without a context it comes to 0, and it never
/// comes to anything but 0 or 1.
pub proof fn law_evaluation_fails_closed<F, E: Fn(&F, &UserContext, &FlagStore<F>) -> bool>(
    store: &FlagStore<F>,
    evaluate: E,
    flag_key: Seq<char>,
    user: Option<UserView>,
    code: i32,
)
    requires
        evaluates_to(store, evaluate, flag_key, user, code),
    ensures
        code == 0 || code == 1,
        !store@.contains_key(flag_key) ==> code == 0,
        user is None ==> code == 0,
{
}

/// A flag that was deleted is disabled for everyone, and so is every flag of a store that was
/// cleared.
pub proof fn law_deleted_flag_is_disabled<F, E: Fn(&F, &UserContext, &FlagStore<F>) -> bool>(
    before: &FlagStore<F>,
    after: &FlagStore<F>,
    evaluate: E,
    flag_key: Seq<char>,
    user: Option<UserView>,
    code: i32,
)
    requires
        after@ == before@.remove(flag_key) || after@ == Map::<Seq<char>, F>::empty(),
        evaluates_to(after, evaluate, flag_key, user, code),
    ensures
        code == 0,
{
}

/// Reading the attributes once and evaluating with the context comes to the same code as
/// evaluating with the key and the attributes, for every flag; and the code is 0 or 1.
pub proof fn law_context_agrees_with_single_call<
    F,
    E: Fn(&F, &UserContext, &FlagStore<F>) -> bool,
>(
    store: &FlagStore<F>,
    evaluate: E,
    flag_key: Seq<char>,
    user_key: Seq<char>,
    attributes_json: Option<Seq<char>>,
    ctx: CheckgateContext,
    by_context: i32,
    by_single_call: i32,
)
    requires
        evaluates_alike::<F, E>(evaluate),
        ctx@ == user_of(user_key, attributes_json),
        evaluates_to(store, evaluate, flag_key, Some(ctx@), by_context),
        evaluates_to(
            store,
            evaluate,
            flag_key,
            Some(user_of(user_key, attributes_json)),
            by_single_call,
        ),
    ensures
        by_context == by_single_call,
        by_context == 0 || by_context == 1,
{
    if store@.contains_key(flag_key) {
        let flag = &store@[flag_key];
        let user = user_of(user_key, attributes_json);
        let (u1, b1) = choose|u: UserContext, b: bool|
            u@ == user && #[trigger] call_ensures(evaluate, (flag, &u, store), b) && by_context
                == enabled_code(b);
        let (u2, b2) = choose|u: UserContext, b: bool|
            u@ == user && #[trigger] call_ensures(evaluate, (flag, &u, store), b) && by_single_call
                == enabled_code(b);
        assert(call_ensures(evaluate, (flag, &u1, store), b1));
        assert(call_ensures(evaluate, (flag, &u2, store), b2));
        assert(b1 == b2);
    }
}

/// The text of a value is that of just the value of the result whose text the variant is: one
/// result of the engine gives both. Without the flag both are `null`.
pub proof fn law_value_is_that_of_the_variant<
    F,
    E: Fn(&F, &UserContext, &FlagStore<F>) -> EvalResult,
>(
    store: &FlagStore<F>,
    evaluate: E,
    flag_key: Seq<char>,
    user: UserView,
    variant: Seq<char>,
    value: Seq<char>,
)
    requires
        answers_alike::<F, E>(evaluate),
        variant_text(store, evaluate, flag_key, user, variant),
        value_text(store, evaluate, flag_key, user, value),
    ensures
        if store@.contains_key(flag_key) {
            exists|r: EvalResult|
                #[trigger] answers(store, evaluate, store@[flag_key], user, r) && variant
                    == variant_of(r) && value == value_of(r)
        } else {
            variant == "null"@ && value == "null"@
        },
{
    if store@.contains_key(flag_key) {
        let flag = store@[flag_key];
        let r = choose|r: EvalResult|
            #[trigger] answers(store, evaluate, flag, user, r) && variant == variant_of(r);
        let q = choose|q: EvalResult|
            #[trigger] answers(store, evaluate, flag, user, q) && value == value_of(q);
        let u1 = choose|u: UserContext|
            u@ == user && #[trigger] call_ensures(evaluate, (&flag, &u, store), r);
        let u2 = choose|u: UserContext|
            u@ == user && #[trigger] call_ensures(evaluate, (&flag, &u, store), q);
        assert(call_ensures(evaluate, (&flag, &u1, store), r));
        assert(call_ensures(evaluate, (&flag, &u2, store), q));
        assert(json_of(r.value) == json_of(q.value));
    }
}

/// No text that is handed out holds a NUL, so that every one of them is a C string as a whole.
pub proof fn law_handed_out_text_has_no_nul<
    F,
    E: Fn(&F, &UserContext, &FlagStore<F>) -> EvalResult,
>(
    store: &FlagStore<F>,
    evaluate: E,
    flag_key: Seq<char>,
    user: UserView,
    text: Seq<char>,
)
    requires
        variant_text(store, evaluate, flag_key, user, text) || value_text(
            store,
            evaluate,
            flag_key,
            user,
            text,
        ),
    ensures
        !text.contains('\0'),
        !store@.contains_key(flag_key) ==> text == "null"@,
{
    lemma_null_has_no_nul();
}

proof fn lemma_null_has_no_nul()
    ensures
        !"null"@.contains('\0'),
        forall|text: Seq<char>| !(#[trigger] c_text(text)).contains('\0'),
{
    reveal_strlit("null");
    assert("null"@ =~= seq!['n', 'u', 'l', 'l']);
}

// ---------------------------------------------------------------------------
// Upserts
// ---------------------------------------------------------------------------
/// A flag that was upserted is the one that is evaluated under its key, and no other key is
/// affected; deleting it again takes out that one only.
pub proof fn law_upsert_touches_one_key<F>(
    flags: Map<Seq<char>, F>,
    key: String,
    flag: F,
    other: Seq<char>,
)
    ensures
        upserted(flags, Some((key, flag))).contains_key(key@),
        upserted(flags, Some((key, flag)))[key@] == flag,
        !upserted(flags, Some((key, flag))).remove(key@).contains_key(key@),
        other != key@ ==> upserted(flags, Some((key, flag))).contains_key(other)
            == flags.contains_key(other),
        other != key@ && flags.contains_key(other) ==> upserted(flags, Some((key, flag)))[other]
            == flags[other],
        other != key@ ==> flags.remove(key@).contains_key(other) == flags.contains_key(other),
        other != key@ && flags.contains_key(other) ==> flags.remove(key@)[other] == flags[other],
{
}

/// A legacy rollout is no limit or a percentage from 0 to 100, and such a percentage is kept.
pub proof fn law_legacy_rollout_is_a_percentage(percentage: int)
    ensures
        percentage < 0 ==> legacy_rollout(percentage) == Json::Null,
        percentage >= 0 ==> (legacy_rollout(percentage) matches Json::Integer(n) && 0 <= n <= 100),
        percentage > 100 ==> legacy_rollout(percentage) == Json::Integer(100),
        0 <= percentage <= 100 ==> legacy_rollout(percentage) == Json::Integer(percentage),
{
}

/// A legacy upsert leaves the store that an upsert of the full text of its document leaves.
pub proof fn law_legacy_upsert_is_a_full_upsert<
    F,
    P: Fn(&str) -> Option<(String, F)>,
    Q: Fn(&Value) -> Option<(String, F)>,
>(
    before: Map<Seq<char>, F>,
    parse_text: P,
    parse: Q,
    key: Seq<char>,
    is_enabled: bool,
    percentage: int,
    rules_json: Option<Seq<char>>,
    text: &str,
    by_parts: Map<Seq<char>, F>,
    by_text: Map<Seq<char>, F>,
)
    requires
        parsers_agree::<F, P, Q>(parse_text, parse),
        json_document(text@) == Some(
            legacy_document(key, is_enabled, percentage, rules_of(rules_json)),
        ),
        document_upserts_to(
            before,
            parse,
            legacy_document(key, is_enabled, percentage, rules_of(rules_json)),
            by_parts,
        ),
        text_upserts_to(before, parse_text, Some(text), by_text),
    ensures
        by_parts == by_text,
{
    let document = legacy_document(key, is_enabled, percentage, rules_of(rules_json));
    let made = choose|made: Option<(String, F)>|
        #[trigger] call_ensures(parse_text, (text,), made) && by_text == upserted(before, made);
    let (v, m) = choose|v: Value, m: Option<(String, F)>|
        {
            &&& json_of(v) == document
            &&& #[trigger] call_ensures(parse, (&v,), m)
            &&& by_parts == upserted(before, m)
        };
    assert(call_ensures(parse_text, (text,), made));
    assert(call_ensures(parse, (&v,), m));
    assert(same_made(made, m));
}

/// A legacy upsert touches the flag of its key and no other.
pub proof fn law_legacy_upsert_touches_its_key<F, P: Fn(&Value) -> Option<(String, F)>>(
    before: Map<Seq<char>, F>,
    parse: P,
    key: Seq<char>,
    is_enabled: bool,
    percentage: int,
    rules: Option<Json>,
    after: Map<Seq<char>, F>,
    other: Seq<char>,
)
    requires
        keeps_keys::<F, P>(parse),
        document_upserts_to(
            before,
            parse,
            legacy_document(key, is_enabled, percentage, rules),
            after,
        ),
        other != key,
    ensures
        after.contains_key(other) == before.contains_key(other),
        before.contains_key(other) ==> after[other] == before[other],
{
    let document = legacy_document(key, is_enabled, percentage, rules);
    let (v, m) = choose|v: Value, m: Option<(String, F)>|
        {
            &&& json_of(v) == document
            &&& #[trigger] call_ensures(parse, (&v,), m)
            &&& after == upserted(before, m)
        };
    assert(call_ensures(parse, (&v,), m));
    lemma_legacy_members(key, is_enabled, percentage, rules);
}

/// The members of a legacy document that its readers go by.
proof fn lemma_legacy_members(
    key: Seq<char>,
    is_enabled: bool,
    percentage: int,
    rules: Option<Json>,
)
    ensures
        ({
            let document = legacy_document(key, is_enabled, percentage, rules);
            &&& member(document, "key"@) == Some(Json::Text(key))
            &&& member(document, "rules"@) == Some(legacy_rules(rules))
        }),
{
    reveal_strlit("key");
    reveal_strlit("is_enabled");
    reveal_strlit("rollout_percentage");
    reveal_strlit("description");
    reveal_strlit("rules");
    assert("key"@.len() == 3 && "is_enabled"@.len() == 10 && "rollout_percentage"@.len() == 18
        && "description"@.len() == 11 && "rules"@.len() == 5);
}

/// Rules that count as none: no text, a text that is no JSON, or an empty list.
pub open spec fn no_rules(rules_json: Option<Seq<char>>) -> bool {
    rules_of(rules_json) is None || rules_of(rules_json) == Some(Json::Array(seq![]))
}

/// No text of rules, a text that is no JSON and an empty list of rules all leave the same store: in
/// each case the document that the engine is given has an empty list of rules.
pub proof fn law_absent_rules_are_no_rules<F, P: Fn(&Value) -> Option<(String, F)>>(
    before: Map<Seq<char>, F>,
    parse: P,
    key: Seq<char>,
    is_enabled: bool,
    percentage: int,
    a: Option<Seq<char>>,
    b: Option<Seq<char>>,
    after_a: Map<Seq<char>, F>,
    after_b: Map<Seq<char>, F>,
)
    requires
        parses_alike::<F, P>(parse),
        no_rules(a),
        no_rules(b),
        document_upserts_to(
            before,
            parse,
            legacy_document(key, is_enabled, percentage, rules_of(a)),
            after_a,
        ),
        document_upserts_to(
            before,
            parse,
            legacy_document(key, is_enabled, percentage, rules_of(b)),
            after_b,
        ),
    ensures
        legacy_document(key, is_enabled, percentage, rules_of(a)) == legacy_document(
            key,
            is_enabled,
            percentage,
            rules_of(b),
        ),
        member(legacy_document(key, is_enabled, percentage, rules_of(a)), "rules"@) == Some(
            Json::Array(seq![]),
        ),
        after_a == after_b,
{
    lemma_legacy_members(key, is_enabled, percentage, rules_of(a));
    let document = legacy_document(key, is_enabled, percentage, rules_of(a));
    assert(document == legacy_document(key, is_enabled, percentage, rules_of(b)));
    let (v, m) = choose|v: Value, m: Option<(String, F)>|
        {
            &&& json_of(v) == document
            &&& #[trigger] call_ensures(parse, (&v,), m)
            &&& after_a == upserted(before, m)
        };
    let (w, n) = choose|w: Value, n: Option<(String, F)>|
        {
            &&& json_of(w) == document
            &&& #[trigger] call_ensures(parse, (&w,), n)
            &&& after_b == upserted(before, n)
        };
    assert(call_ensures(parse, (&v,), m));
    assert(call_ensures(parse, (&w,), n));
    assert(same_made(m, n));
}

/// A document of which the engine makes no flag, as of rules that are no list of rules, leaves the
/// store unchanged: an earlier flag under the key survives.
pub proof fn law_refused_upsert_changes_nothing<F, P: Fn(&Value) -> Option<(String, F)>>(
    before: Map<Seq<char>, F>,
    parse: P,
    document: Json,
    after: Map<Seq<char>, F>,
)
    requires
        document_upserts_to(before, parse, document, after),
        forall|v: Value, made: Option<(String, F)>|
            #[trigger] call_ensures(parse, (&v,), made) && json_of(v) == document ==> made is None,
    ensures
        after == before,
{
}

// ---------------------------------------------------------------------------
// What is handed to the engine, and what is made of its answers
// ---------------------------------------------------------------------------
/// The document of a legacy upsert has five members and no other: the key and the switch as they
/// were passed in, the percentage up to a hundred or null where it is negative, no description,
/// and the rules that were read or an empty list.
pub proof fn law_legacy_document_is_what_was_passed(
    key: Seq<char>,
    is_enabled: bool,
    percentage: int,
    rules: Option<Json>,
)
    ensures
        legacy_document(key, is_enabled, percentage, rules) matches Json::Object(members) && {
            &&& members.dom() =~= set![
                "key"@,
                "is_enabled"@,
                "rollout_percentage"@,
                "description"@,
                "rules"@,
            ]
            &&& members["key"@] == Json::Text(key)
            &&& members["is_enabled"@] == Json::Bool(is_enabled)
            &&& percentage < 0 ==> members["rollout_percentage"@] == Json::Null
            &&& 0 <= percentage <= 100 ==> members["rollout_percentage"@] == Json::Integer(
                percentage,
            )
            &&& percentage > 100 ==> members["rollout_percentage"@] == Json::Integer(100)
            &&& members["description"@] == Json::Null
            &&& rules is None ==> members["rules"@] == Json::Array(seq![])
            &&& rules is Some ==> members["rules"@] == rules->0
        },
{
    reveal_strlit("key");
    reveal_strlit("is_enabled");
    reveal_strlit("rollout_percentage");
    reveal_strlit("description");
    reveal_strlit("rules");
    assert("key"@.len() == 3 && "is_enabled"@.len() == 10 && "rollout_percentage"@.len() == 18
        && "description"@.len() == 11 && "rules"@.len() == 5);
}

/// Two legacy upserts give the engine the same document only where the key, the switch and the
/// percentage, as far as it counts, are the same.
pub proof fn law_legacy_document_tells_flags_apart(
    key_a: Seq<char>,
    on_a: bool,
    percentage_a: int,
    rules_a: Option<Json>,
    key_b: Seq<char>,
    on_b: bool,
    percentage_b: int,
    rules_b: Option<Json>,
)
    requires
        legacy_document(key_a, on_a, percentage_a, rules_a) == legacy_document(
            key_b,
            on_b,
            percentage_b,
            rules_b,
        ),
    ensures
        key_a == key_b,
        on_a == on_b,
        0 <= percentage_a <= 100 && 0 <= percentage_b <= 100 ==> percentage_a == percentage_b,
        percentage_a < 0 <==> percentage_b < 0,
{
    law_legacy_document_is_what_was_passed(key_a, on_a, percentage_a, rules_a);
    law_legacy_document_is_what_was_passed(key_b, on_b, percentage_b, rules_b);
}

/// The rules of a legacy upsert are read from their text as JSON.
pub proof fn law_rules_are_read_as_json(text: Seq<char>)
    ensures
        rules_of(Some(text)) == json_document(text),
        rules_of(None) is None,
{
}

/// An upsert puts what the engine made of the text under the key that the engine gave, and leaves
/// everything else; where the engine made nothing of it, or there is no text, the store is as it
/// was.
pub proof fn law_text_upsert_stores_what_was_made<F, P: Fn(&str) -> Option<(String, F)>>(
    before: Map<Seq<char>, F>,
    parse: P,
    flag_json: Option<&str>,
    after: Map<Seq<char>, F>,
)
    requires
        text_upserts_to(before, parse, flag_json, after),
    ensures
        match flag_json {
            None => after == before,
            Some(text) => exists|made: Option<(String, F)>|
                #[trigger] call_ensures(parse, (text,), made) && match made {
                    Some((key, flag)) => after == before.insert(key@, flag),
                    None => after == before,
                },
        },
{
    if let Some(text) = flag_json {
        let made = choose|made: Option<(String, F)>|
            #[trigger] call_ensures(parse, (text,), made) && after == upserted(before, made);
        assert(call_ensures(parse, (text,), made));
    }
}

/// An upsert of a document puts what the engine made of a value that holds it under the key that
/// the engine gave, and leaves everything else; where the engine made nothing of it, the store is
/// as it was.
pub proof fn law_document_upsert_stores_what_was_made<F, P: Fn(&Value) -> Option<(String, F)>>(
    before: Map<Seq<char>, F>,
    parse: P,
    document: Json,
    after: Map<Seq<char>, F>,
)
    requires
        document_upserts_to(before, parse, document, after),
    ensures
        exists|value: Value, made: Option<(String, F)>|
            {
                &&& json_of(value) == document
                &&& #[trigger] call_ensures(parse, (&value,), made)
                &&& match made {
                    Some((key, flag)) => after == before.insert(key@, flag),
                    None => after == before,
                }
            },
{
    let (value, made) = choose|value: Value, made: Option<(String, F)>|
        {
            &&& json_of(value) == document
            &&& #[trigger] call_ensures(parse, (&value,), made)
            &&& after == upserted(before, made)
        };
    assert(call_ensures(parse, (&value,), made));
}

/// The user that a flag is evaluated for has the key that was passed in, and the attributes that
/// the text stands for; without a text, or with one that is no object of strings, none.
pub proof fn law_user_is_what_was_passed(user_key: Seq<char>, text: Seq<char>)
    ensures
        user_of(user_key, None).key == user_key,
        user_of(user_key, None).attributes == Map::<Seq<char>, Seq<char>>::empty(),
        user_of(user_key, Some(text)).key == user_key,
        string_members(text) matches Some(members) ==> user_of(user_key, Some(text)).attributes
            == members,
        string_members(text) is None ==> user_of(user_key, Some(text)).attributes == Map::<
            Seq<char>,
            Seq<char>,
        >::empty(),
{
}

/// A flag in the store is evaluated for the very user, in the very store, and comes to 1 exactly
/// where the engine answers that it is enabled, and else to 0.
pub proof fn law_code_is_the_engines_answer<F, E: Fn(&F, &UserContext, &FlagStore<F>) -> bool>(
    store: &FlagStore<F>,
    evaluate: E,
    flag_key: Seq<char>,
    user: UserView,
    code: i32,
)
    requires
        evaluates_to(store, evaluate, flag_key, Some(user), code),
        store@.contains_key(flag_key),
    ensures
        exists|u: UserContext, enabled: bool|
            {
                &&& u@ == user
                &&& #[trigger] call_ensures(evaluate, (&store@[flag_key], &u, store), enabled)
                &&& enabled ==> code == 1
                &&& !enabled ==> code == 0
            },
{
    let (u, enabled) = choose|u: UserContext, enabled: bool|
        {
            &&& u@ == user
            &&& #[trigger] call_ensures(evaluate, (&store@[flag_key], &u, store), enabled)
            &&& code == enabled_code(enabled)
        };
    assert(call_ensures(evaluate, (&store@[flag_key], &u, store), enabled));
}

/// The text that is handed out for a JSON document: the text of the document itself, or `null`
/// where that text holds a NUL.
pub open spec fn hands_out(text: Seq<char>, document: Json) -> bool {
    if json_text(document).contains('\0') {
        text == "null"@
    } else {
        text == json_text(document)
    }
}

/// The variant of a flag in the store is the text of an object of two members: whether the result
/// that the engine answers for that flag and that user is enabled, and the value of the result.
pub proof fn law_variant_is_the_engines_answer<
    F,
    E: Fn(&F, &UserContext, &FlagStore<F>) -> EvalResult,
>(
    store: &FlagStore<F>,
    evaluate: E,
    flag_key: Seq<char>,
    user: UserView,
    text: Seq<char>,
)
    requires
        variant_text(store, evaluate, flag_key, user, text),
        store@.contains_key(flag_key),
    ensures
        exists|u: UserContext, r: EvalResult|
            {
                &&& u@ == user
                &&& #[trigger] call_ensures(evaluate, (&store@[flag_key], &u, store), r)
                &&& hands_out(
                    text,
                    Json::Object(
                        map!["enabled"@ => Json::Bool(r.enabled), "value"@ => json_of(r.value)],
                    ),
                )
            },
{
    let r = choose|r: EvalResult|
        #[trigger] answers(store, evaluate, store@[flag_key], user, r) && text == variant_of(r);
    let u = choose|u: UserContext|
        u@ == user && #[trigger] call_ensures(evaluate, (&store@[flag_key], &u, store), r);
    assert(call_ensures(evaluate, (&store@[flag_key], &u, store), r));
}

/// The value of a flag in the store is the text of the value of the result that the engine answers
/// for that flag and that user, whether the result is enabled or not.
pub proof fn law_value_is_the_engines_answer<
    F,
    E: Fn(&F, &UserContext, &FlagStore<F>) -> EvalResult,
>(
    store: &FlagStore<F>,
    evaluate: E,
    flag_key: Seq<char>,
    user: UserView,
    text: Seq<char>,
)
    requires
        value_text(store, evaluate, flag_key, user, text),
        store@.contains_key(flag_key),
    ensures
        exists|u: UserContext, r: EvalResult|
            {
                &&& u@ == user
                &&& #[trigger] call_ensures(evaluate, (&store@[flag_key], &u, store), r)
                &&& hands_out(text, json_of(r.value))
            },
{
    let r = choose|r: EvalResult|
        #[trigger] answers(store, evaluate, store@[flag_key], user, r) && text == value_of(r);
    let u = choose|u: UserContext|
        u@ == user && #[trigger] call_ensures(evaluate, (&store@[flag_key], &u, store), r);
    assert(call_ensures(evaluate, (&store@[flag_key], &u, store), r));
}

/// For an engine that answers alike, the value that is handed out is the text of the member
/// `value` of the document that the variant is the text of, enabled or not.
pub proof fn law_value_is_a_member_of_the_variant<
    F,
    E: Fn(&F, &UserContext, &FlagStore<F>) -> EvalResult,
>(
    store: &FlagStore<F>,
    evaluate: E,
    flag_key: Seq<char>,
    user: UserView,
    variant: Seq<char>,
    value: Seq<char>,
)
    requires
        answers_alike::<F, E>(evaluate),
        variant_text(store, evaluate, flag_key, user, variant),
        value_text(store, evaluate, flag_key, user, value),
        store@.contains_key(flag_key),
    ensures
        exists|members: Map<Seq<char>, Json>|
            {
                &&& members.dom() =~= set!["enabled"@, "value"@]
                &&& #[trigger] hands_out(variant, Json::Object(members))
                &&& hands_out(value, members["value"@])
            },
{
    law_variant_is_the_engines_answer(store, evaluate, flag_key, user, variant);
    law_value_is_the_engines_answer(store, evaluate, flag_key, user, value);
    let flag = &store@[flag_key];
    let (u1, r1) = choose|u: UserContext, r: EvalResult|
        {
            &&& u@ == user
            &&& #[trigger] call_ensures(evaluate, (flag, &u, store), r)
            &&& hands_out(
                variant,
                Json::Object(
                    map!["enabled"@ => Json::Bool(r.enabled), "value"@ => json_of(r.value)],
                ),
            )
        };
    let (u2, r2) = choose|u: UserContext, r: EvalResult|
        {
            &&& u@ == user
            &&& #[trigger] call_ensures(evaluate, (flag, &u, store), r)
            &&& hands_out(value, json_of(r.value))
        };
    assert(call_ensures(evaluate, (flag, &u1, store), r1));
    assert(call_ensures(evaluate, (flag, &u2, store), r2));
    assert(json_of(r1.value) == json_of(r2.value));
    let members = map!["enabled"@ => Json::Bool(r1.enabled), "value"@ => json_of(r1.value)];
    reveal_strlit("enabled");
    reveal_strlit("value");
    assert("enabled"@.len() == 7 && "value"@.len() == 5);
    assert(members.dom() =~= set!["enabled"@, "value"@]);
    assert(members["value"@] == json_of(r1.value));
    assert(hands_out(variant, Json::Object(members)));
}

/// A text is handed out to the letter, but for one that holds a NUL, which is handed out as
/// `null`.
pub proof fn law_text_is_handed_out_to_the_letter(text: Seq<char>)
    ensures
        !text.contains('\0') ==> c_text(text) == text,
        text.contains('\0') ==> c_text(text) == "null"@,
{
}

/// A result is written as an object of two members and no other: whether it is enabled, and its
/// value.
pub proof fn law_result_has_two_members(enabled: bool, value: Json)
    ensures
        result_document(enabled, value) matches Json::Object(members) && {
            &&& members.dom() =~= set!["enabled"@, "value"@]
            &&& members["enabled"@] == Json::Bool(enabled)
            &&& members["value"@] == value
        },
{
    reveal_strlit("enabled");
    reveal_strlit("value");
    assert("enabled"@.len() == 7 && "value"@.len() == 5);
}

/// Attributes that were read are kept as they are; where none could be read there are none.
pub proof fn law_attributes_are_kept(read: Map<Seq<char>, Seq<char>>, text: Seq<char>)
    ensures
        attributes_or_none(Some(read)) == read,
        attributes_or_none(None) == Map::<Seq<char>, Seq<char>>::empty(),
        attributes_of(Some(text)) == string_members(text),
        attributes_of(None) is None,
{
}

/// An upsert of nothing changes nothing, and an upsert of a flag is an insertion under its key.
pub proof fn law_upsert_is_an_insertion<F>(flags: Map<Seq<char>, F>, key: String, flag: F)
    ensures
        upserted(flags, None) == flags,
        upserted(flags, Some((key, flag))) == flags.insert(key@, flag),
{
}

} // verus!
