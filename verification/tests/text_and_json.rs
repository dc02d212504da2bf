use openruscli::github::{get_array_field, get_string_field, normalize_argument_value};
use openruscli::error::AppError;
use openruscli::json::{get_field, get_item, Json};
use openruscli::ollama::arguments_text;
use openruscli::planning_skill::PlanningSkillAdapter;
use openruscli::paths::{file_stem_and_extension, join};
use openruscli::text::{chars_of, decimal_string, lines_of, second_word_of, string_from, trim_string};

use serde_json::Value;

/// The library's form of a codec value.
fn json(v: &Value) -> Json {
    match v {
        Value::Null => Json::Null,
        Value::Bool(b) => Json::Bool(*b),
        Value::Number(n) => Json::Number(n.to_string()),
        Value::String(s) => Json::Str(s.clone()),
        Value::Array(a) => Json::Array(a.iter().map(json).collect()),
        Value::Object(m) => Json::Object(m.iter().map(|(k, x)| (k.clone(), json(x))).collect()),
    }
}

/// The codec's form of a library document.
fn value(j: &Json) -> Value {
    match j {
        Json::Null => Value::Null,
        Json::Bool(b) => Value::Bool(*b),
        Json::Number(n) => Value::Number(n.parse().expect("a number")),
        Json::Str(s) => Value::String(s.clone()),
        Json::Array(a) => Value::Array(a.iter().map(value).collect()),
        Json::Object(m) => Value::Object(m.iter().map(|(k, x)| (k.clone(), value(x))).collect()),
    }
}

fn parse(text: &str) -> Json {
    json(&serde_json::from_str::<Value>(text).expect("valid JSON"))
}

fn json_text(j: &Json) -> String {
    value(j).to_string()
}

fn text_of(j: &Json) -> String {
    json_text(j)
}

#[test]
fn trim_removes_unicode_whitespace_at_both_ends() {
    assert_eq!(trim_string("\u{3000}\t hello world \n\u{a0}"), "hello world");
    assert_eq!(trim_string("   "), "");
    assert_eq!(trim_string("x"), "x");
}

#[test]
fn trimming_twice_is_trimming_once() {
    for s in ["  a b  ", "\n\n", "", "x  ", "\u{2003}y"] {
        let once = trim_string(s);
        assert_eq!(trim_string(&once), once);
    }
}

#[test]
fn lines_split_like_str_lines() {
    let cases = ["a\nb", "a\r\nb\r\n", "", "\n", "a\n\nb", "tail\r"];
    for c in cases {
        let v = chars_of(c);
        let ours: Vec<String> = lines_of(&v).iter().map(|l| string_from(l)).collect();
        let std_lines: Vec<String> = c.lines().map(|l| l.to_string()).collect();
        assert_eq!(ours, std_lines, "input {:?}", c);
    }
}

#[test]
fn second_word_follows_split_whitespace() {
    let w = second_word_of(&chars_of("M  src/main.rs")).map(|v| string_from(&v));
    assert_eq!(w.as_deref(), Some("src/main.rs"));
    assert!(second_word_of(&chars_of("single")).is_none());
    let w = second_word_of(&chars_of("?? a b")).map(|v| string_from(&v));
    assert_eq!(w.as_deref(), Some("a"));
}

#[test]
fn decimal_text_of_counts() {
    assert_eq!(decimal_string(0), "0");
    assert_eq!(decimal_string(7), "7");
    assert_eq!(decimal_string(1234567890), "1234567890");
    assert_eq!(decimal_string(u64::MAX), u64::MAX.to_string());
}

#[test]
fn path_join_matches_std() {
    for (base, part) in [("sessions", "a.json"), ("sessions/", "a.json"), ("", "a.json"), ("dir", "/abs/x"), ("a/b", "")] {
        let expected = std::path::Path::new(base).join(part).to_string_lossy().to_string();
        assert_eq!(join(base, part), expected, "{:?} {:?}", base, part);
    }
}

#[test]
fn stem_and_extension_match_std_path() {
    for name in ["abc.json", "abc.JSON", ".json", "noext", "a.b.c", "trailing.", ".hidden.json"] {
        let p = std::path::Path::new(name);
        let (stem, ext) = file_stem_and_extension(name);
        assert_eq!(Some(stem.as_str()), p.file_stem().and_then(|s| s.to_str()), "{}", name);
        assert_eq!(ext.as_deref(), p.extension().and_then(|s| s.to_str()), "{}", name);
    }
}

#[test]
fn json_round_trip_through_the_codec() {
    let planning = PlanningSkillAdapter::new();
    let j = planning.load_plan("{\"b\": [1, 2.5, \"x\"], \"a\": null, \"c\": true}").expect("valid JSON");
    assert_eq!(text_of(&j), "{\"a\":null,\"b\":[1,2.5,\"x\"],\"c\":true}");
    assert_eq!(arguments_text(&j), "{\"a\":null,\"b\":[1,2.5,\"x\"],\"c\":true}");
    let (_, pretty) = planning.save_plan("s", "p", &j);
    assert!(pretty.starts_with("{\n  \"plan\": {\n    \"a\": null,"));
    assert!(matches!(planning.load_plan("{not json"), Err(AppError::SerializationError(_))));
}

#[test]
fn indexing_gives_null_for_what_is_absent() {
    let j = parse("{\"a\": {\"b\": [10, 20]}}");
    let a = get_field(&j, "a");
    let b = get_field(&a, "b");
    assert_eq!(text_of(&get_item(&b, 1)), "20");
    assert!(matches!(get_item(&b, 5), Json::Null));
    assert!(matches!(get_field(&j, "missing"), Json::Null));
    assert!(matches!(get_field(&b, "x"), Json::Null));
}

#[test]
fn string_arguments_holding_json_are_read_as_documents() {
    let v = Json::Str("  {\"k\": 1} ".to_string());
    assert_eq!(text_of(&normalize_argument_value(&v)), "{\"k\":1}");
    let plain = Json::Str("{oops".to_string());
    assert_eq!(text_of(&normalize_argument_value(&plain)), "\"{oops\"");
    let args = parse("{\"n\": 42, \"s\": \"x\", \"files\": \"[1,2]\", \"o\": {}}");
    assert_eq!(get_string_field(&args, "n").as_deref(), Some("42"));
    assert_eq!(get_string_field(&args, "s").as_deref(), Some("x"));
    assert_eq!(get_string_field(&args, "o"), None);
    assert_eq!(get_array_field(&args, "files").map(|a| a.len()), Some(2));
    assert!(get_array_field(&args, "s").is_none());
}
