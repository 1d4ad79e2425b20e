//! The SDK surface, over a small flag engine.
use checkgate::sdk::{
    alloc_cstring, checkgate_clear_store, checkgate_delete_flag, checkgate_get_value,
    checkgate_get_variant, checkgate_is_enabled, checkgate_is_enabled_ctx, checkgate_make_context,
    checkgate_upsert_flag, checkgate_upsert_flag_v2, eval_result_to_json, legacy_flag, user_with,
    value_to_json, CheckgateContext, EvalResult, FlagStore, UserContext,
};
use serde_json::Value;
use std::collections::HashMap;

/// A flag that is on for everyone, or for the users of one plan.
struct StubFlag {
    is_enabled: bool,
    rollout: Option<i64>,
    plan: Option<String>,
}

fn flag_of(document: &Value) -> Option<(String, StubFlag)> {
    let key = document.get("key")?.as_str()?.to_string();
    let is_enabled = document.get("is_enabled")?.as_bool()?;
    let rollout = document.get("rollout_percentage").and_then(Value::as_i64);
    let plan = document
        .get("rules")
        .and_then(|rules| rules.get(0))
        .and_then(|rule| rule.get("plan"))
        .and_then(Value::as_str)
        .map(str::to_string);
    Some((key, StubFlag { is_enabled, rollout, plan }))
}

fn flag_of_text(text: &str) -> Option<(String, StubFlag)> {
    flag_of(&serde_json::from_str(text).ok()?)
}

fn evaluate(flag: &StubFlag, user: &UserContext, _store: &FlagStore<StubFlag>) -> bool {
    let planned = match &flag.plan {
        Some(plan) => user.attributes.get("plan") == Some(plan),
        None => true,
    };
    flag.is_enabled && flag.rollout != Some(0) && planned
}

fn evaluate_variant(
    flag: &StubFlag,
    user: &UserContext,
    store: &FlagStore<StubFlag>,
) -> EvalResult {
    let enabled = evaluate(flag, user, store);
    EvalResult { enabled, value: Value::String(user.key.clone()) }
}

fn upsert_on(store: &mut FlagStore<StubFlag>, key: &str) {
    let json = format!(
        r#"{{"key":"{key}","is_enabled":true,"rollout_percentage":100,"rules":[]}}"#
    );
    checkgate_upsert_flag_v2(store, flag_of_text, Some(&json));
}

fn is_enabled(store: &FlagStore<StubFlag>, key: &str, user: &str, attributes: Option<&str>) -> i32 {
    checkgate_is_enabled(store, evaluate, key, user.to_string(), attributes)
}

fn in_context(store: &FlagStore<StubFlag>, key: &str, ctx: Option<&CheckgateContext>) -> i32 {
    checkgate_is_enabled_ctx(store, evaluate, key, ctx)
}

fn attributes(pairs: &[(&str, &str)]) -> HashMap<String, String> {
    pairs.iter().map(|(k, v)| (k.to_string(), v.to_string())).collect()
}

#[test]
fn upsert_then_evaluate_without_a_context() {
    let key = "rn-eval-no-ctx";
    let mut store = FlagStore::new();
    upsert_on(&mut store, key);
    let got = is_enabled(&store, key, "user-1", None);
    assert_eq!(got, 1);
}

#[test]
fn context_handle_round_trips_through_raw_pointers() {
    let key = "rn-eval-ctx";
    let mut store = FlagStore::new();
    upsert_on(&mut store, key);
    let ctx = checkgate_make_context("user-2".to_string(), Some(r#"{"plan":"pro"}"#));
    assert_eq!(
        ctx.user(),
        &UserContext {
            key: "user-2".to_string(),
            attributes: attributes(&[("plan", "pro")])
        }
    );
    let got = in_context(&store, key, Some(&ctx));
    assert_eq!(got, 1);
}

#[test]
fn null_context_fails_closed_instead_of_dereferencing() {
    let store = FlagStore::new();
    let got = in_context(&store, "rn-null-ctx", None);
    assert_eq!(got, 0, "a NULL context must fail closed, not segfault");
}

#[test]
fn returned_strings_round_trip_and_are_freed() {
    let key = "rn-variant";
    let mut store = FlagStore::new();
    upsert_on(&mut store, key);
    let text =
        checkgate_get_variant(&store, evaluate_variant, key, "user-3".to_string(), None);
    assert!(!text.is_empty());
    assert!(text.contains("enabled"), "unexpected payload: {text}");
    assert_eq!(text, r#"{"enabled":true,"value":"user-3"}"#);
}

#[test]
fn delete_removes_the_flag_and_evaluation_fails_closed() {
    let key = "rn-delete";
    let mut store = FlagStore::new();
    upsert_on(&mut store, key);
    checkgate_delete_flag(&mut store, key);
    let got = is_enabled(&store, key, "user-4", None);
    assert_eq!(got, 0);
}

#[test]
fn null_context_fails_closed_for_a_flag_that_is_on() {
    let mut store = FlagStore::new();
    upsert_on(&mut store, "on");
    assert_eq!(in_context(&store, "on", None), 0);
}

#[test]
fn clearing_removes_every_flag() {
    let mut store = FlagStore::new();
    upsert_on(&mut store, "a");
    upsert_on(&mut store, "b");
    checkgate_clear_store(&mut store);
    assert_eq!(is_enabled(&store, "a", "u", None), 0);
    assert_eq!(is_enabled(&store, "b", "u", None), 0);
    assert!(store.get_flag("a").is_none());
}

#[test]
fn deleting_touches_one_key() {
    let mut store = FlagStore::new();
    upsert_on(&mut store, "a");
    upsert_on(&mut store, "b");
    checkgate_delete_flag(&mut store, "a");
    checkgate_delete_flag(&mut store, "absent");
    assert_eq!(is_enabled(&store, "a", "u", None), 0);
    assert_eq!(is_enabled(&store, "b", "u", None), 1);
}

#[test]
fn upserting_again_replaces_the_flag() {
    let mut store = FlagStore::new();
    upsert_on(&mut store, "a");
    checkgate_upsert_flag_v2(&mut store, flag_of_text, Some(r#"{"key":"a","is_enabled":false}"#));
    assert_eq!(is_enabled(&store, "a", "u", None), 0);
}

#[test]
fn text_that_is_no_flag_changes_nothing() {
    let mut store = FlagStore::new();
    upsert_on(&mut store, "a");
    checkgate_upsert_flag_v2(&mut store, flag_of_text, Some("not json"));
    checkgate_upsert_flag_v2(&mut store, flag_of_text, None);
    assert_eq!(is_enabled(&store, "a", "u", None), 1);
}

#[test]
fn attributes_reach_the_engine() {
    let mut store = FlagStore::new();
    let rules = r#"[{"plan":"pro"}]"#;
    checkgate_upsert_flag(&mut store, flag_of, "p".to_string(), true, -1, Some(rules));
    assert_eq!(is_enabled(&store, "p", "u", Some(r#"{"plan":"pro"}"#)), 1);
    assert_eq!(is_enabled(&store, "p", "u", Some(r#"{"plan":"free"}"#)), 0);
    assert_eq!(is_enabled(&store, "p", "u", None), 0);
}

#[test]
fn context_agrees_with_the_single_call() {
    let mut store = FlagStore::new();
    let rules = r#"[{"plan":"pro"}]"#;
    checkgate_upsert_flag(&mut store, flag_of, "p".to_string(), true, 100, Some(rules));
    for text in [Some(r#"{"plan":"pro"}"#), Some(r#"{"plan":"free"}"#), Some("[]"), None] {
        let ctx = checkgate_make_context("u".to_string(), text);
        assert_eq!(in_context(&store, "p", Some(&ctx)), is_enabled(&store, "p", "u", text));
    }
}

#[test]
fn attributes_that_are_no_object_of_strings_are_none() {
    for text in ["nonsense", "[]", r#"{"plan":3}"#, r#"{"plan":null}"#, ""] {
        let ctx = checkgate_make_context("u".to_string(), Some(text));
        assert_eq!(ctx.user().attributes, HashMap::new());
        assert_eq!(ctx.user().key, "u");
    }
}

#[test]
fn user_takes_the_attributes_that_were_read() {
    let read = attributes(&[("a", "1"), ("b", "2")]);
    assert_eq!(user_with("u".to_string(), Some(read.clone())).attributes, read);
    assert_eq!(user_with("u".to_string(), None).attributes, HashMap::new());
}

fn legacy(percentage: i32, rules: Option<Value>) -> String {
    serde_json::to_string(&legacy_flag("k".to_string(), true, percentage, rules))
        .expect("a document prints")
}

#[test]
fn legacy_upsert_is_a_full_document() {
    assert_eq!(
        legacy(30, None),
        r#"{"description":null,"is_enabled":true,"key":"k","rollout_percentage":30,"rules":[]}"#
    );
}

#[test]
fn legacy_rollout_is_clamped_and_negative_means_no_limit() {
    assert!(legacy(250, None).contains(r#""rollout_percentage":100"#));
    assert!(legacy(100, None).contains(r#""rollout_percentage":100"#));
    assert!(legacy(0, None).contains(r#""rollout_percentage":0"#));
    assert!(legacy(-1, None).contains(r#""rollout_percentage":null"#));
    assert!(legacy(i32::MIN, None).contains(r#""rollout_percentage":null"#));
}

#[test]
fn legacy_rules_are_kept_as_they_were_read() {
    let rules = serde_json::from_str(r#"[{"plan":"pro"}]"#).expect("rules parse");
    assert!(legacy(1, Some(rules)).contains(r#""rules":[{"plan":"pro"}]"#));
}

#[test]
fn legacy_rules_that_are_no_json_are_none() {
    let mut store = FlagStore::new();
    checkgate_upsert_flag(&mut store, flag_of, "r".to_string(), true, 50, Some("{broken"));
    assert_eq!(is_enabled(&store, "r", "u", None), 1);
    checkgate_upsert_flag(&mut store, flag_of, "r".to_string(), true, 0, None);
    assert_eq!(is_enabled(&store, "r", "u", None), 0);
}

#[test]
fn legacy_upsert_that_makes_no_flag_changes_nothing() {
    let mut store = FlagStore::new();
    upsert_on(&mut store, "a");
    let refuse = |_: &Value| -> Option<(String, StubFlag)> { None };
    checkgate_upsert_flag(&mut store, refuse, "a".to_string(), false, 0, None);
    assert_eq!(is_enabled(&store, "a", "u", None), 1);
}

#[test]
fn value_is_written_alone() {
    let mut store = FlagStore::new();
    upsert_on(&mut store, "v");
    let text = checkgate_get_value(&store, evaluate_variant, "v", "user-5".to_string(), None);
    assert_eq!(text, r#""user-5""#);
}

#[test]
fn unknown_flag_is_null() {
    let store: FlagStore<StubFlag> = FlagStore::new();
    let variant = checkgate_get_variant(&store, evaluate_variant, "x", "u".to_string(), None);
    let value = checkgate_get_value(&store, evaluate_variant, "x", "u".to_string(), None);
    assert_eq!(variant, "null");
    assert_eq!(value, "null");
}

#[test]
fn results_are_written_as_json() {
    let value: Value = serde_json::from_str(r#"{"b":[1,true],"a":"x"}"#).expect("value parses");
    let text = eval_result_to_json(EvalResult { enabled: false, value: value.clone() });
    assert_eq!(text, r#"{"enabled":false,"value":{"a":"x","b":[1,true]}}"#);
    assert_eq!(value_to_json(EvalResult { enabled: true, value }), r#"{"a":"x","b":[1,true]}"#);
    assert_eq!(value_to_json(EvalResult { enabled: true, value: Value::Null }), "null");
}

#[test]
fn text_with_a_nul_is_handed_out_as_null() {
    assert_eq!(alloc_cstring("a\0b".to_string()), "null");
    assert_eq!(alloc_cstring("\0".to_string()), "null");
    assert_eq!(alloc_cstring("plain".to_string()), "plain");
    assert_eq!(alloc_cstring(String::new()), "");
}

#[test]
fn nul_in_a_value_is_escaped_by_json() {
    let value = Value::String("a\0b".to_string());
    let text = value_to_json(EvalResult { enabled: true, value });
    assert_eq!(alloc_cstring(text), r#""a\u0000b""#);
}

#[test]
fn value_is_that_of_the_variant() {
    let mut store = FlagStore::new();
    upsert_on(&mut store, "v");
    let user = || "user-6".to_string();
    let variant = checkgate_get_variant(&store, evaluate_variant, "v", user(), None);
    let value = checkgate_get_value(&store, evaluate_variant, "v", user(), None);
    let document: Value = serde_json::from_str(&variant).expect("a variant is JSON");
    assert_eq!(document.get("value").map(|v| v.to_string()), Some(value));
}

#[test]
fn legacy_upsert_leaves_what_a_full_upsert_leaves() {
    let rules = r#"[{"plan":"pro"}]"#;
    let mut by_parts = FlagStore::new();
    checkgate_upsert_flag(&mut by_parts, flag_of, "k".to_string(), true, 250, Some(rules));
    let mut by_text = FlagStore::new();
    let json = r#"{"key":"k","is_enabled":true,"rollout_percentage":100,"description":null,"rules":[{"plan":"pro"}]}"#;
    checkgate_upsert_flag_v2(&mut by_text, flag_of_text, Some(json));
    let (a, b) = (by_parts.get_flag("k"), by_text.get_flag("k"));
    let (a, b) = (a.expect("upserted"), b.expect("upserted"));
    assert_eq!(a.is_enabled, b.is_enabled);
    assert_eq!(a.rollout, Some(100));
    assert_eq!(b.rollout, Some(100));
    assert_eq!(a.plan, b.plan);
    assert_eq!(a.plan, Some("pro".to_string()));
}

#[test]
fn absent_empty_and_broken_rules_leave_the_same_store() {
    for rules in [None, Some("[]"), Some("{broken")] {
        let mut store = FlagStore::new();
        checkgate_upsert_flag(&mut store, flag_of, "k".to_string(), true, 7, rules);
        let flag = store.get_flag("k").expect("upserted");
        assert!(flag.is_enabled);
        assert_eq!(flag.rollout, Some(7));
        assert_eq!(flag.plan, None);
    }
}
