use context_policy::bridge::validate_finite;
use context_policy::json::{entries_line, Json};
use serde_json::{Number, Value};

fn json(text: &str) -> Json {
    Json::parse(text).expect("valid JSON")
}

#[test]
fn values_go_through_unchanged() {
    let text = r#"{"a":[null,true,false,-3,18446744073709551615,2.5,"x"],"b":{"c":{}}}"#;
    let value: Value = serde_json::from_str(text).expect("value");
    let document = Json::from_value(&value);
    assert_eq!(document.to_value(), value);
    assert_eq!(document.to_text(), text);
    assert!(document.equals(&document.copy()));
    assert!(document.equals(&json(text)));
}

#[test]
fn the_later_of_two_entries_counts() {
    let document = Json::Object(vec![
        ("a".to_string(), Json::unsigned(1)),
        ("b".to_string(), Json::text("kept")),
        ("a".to_string(), Json::signed(-2)),
    ]);
    assert_eq!(document.get_i64("a"), Some(-2));
    assert_eq!(document.get_u64("a"), None);
    assert_eq!(document.get_str("b"), Some("kept"));
    assert_eq!(document.to_text(), r#"{"a":-2,"b":"kept"}"#);
    assert!(document.equals(&json(r#"{"b":"kept","a":-2}"#)));
    assert!(!document.equals(&json(r#"{"b":"kept","a":1}"#)));
    assert!(!document.equals(&json(r#"{"a":-2}"#)));
}

#[test]
fn fields_are_read_by_their_kind() {
    let document = json(r#"{"n": 7, "f": 7.0, "s": "7", "big": 9223372036854775808}"#);
    assert_eq!(document.get_u64("n"), Some(7));
    assert_eq!(document.get_i64("n"), Some(7));
    assert_eq!(document.get_u64("f"), None);
    assert_eq!(document.get_str("n"), None);
    assert_eq!(document.get_str("s"), Some("7"));
    assert_eq!(document.get_u64("big"), Some(9223372036854775808));
    assert_eq!(document.get_i64("big"), None);
    assert!(document.get("missing").is_none());
    assert!(json("[1]").get("n").is_none());
    assert_eq!(json("\"text\"").as_str(), Some("text"));
    assert_eq!(json("1").as_str(), None);
}

#[test]
fn missing_values_are_null() {
    assert_eq!(Json::opt_text(&None).to_text(), "null");
    assert_eq!(Json::opt_text(&Some("t".to_string())).to_text(), "\"t\"");
    assert_eq!(Json::opt_unsigned(None).to_text(), "null");
    assert_eq!(Json::opt_unsigned(Some(3)).to_text(), "3");
    assert_eq!(Json::opt_signed(Some(-3)).to_text(), "-3");
    assert_eq!(Json::opt_number(None).to_text(), "null");
    assert_eq!(Json::opt_number(Number::from_f64(1.5)).to_text(), "1.5");
}

#[test]
fn entries_are_written_in_their_order() {
    let pairs = vec![
        ("b".to_string(), json(r#"{"z": [1, 2.5], "a": null}"#)),
        ("a".to_string(), Json::text("x\ny")),
    ];
    assert_eq!(entries_line(&pairs), r#"{"b":{"a":null,"z":[1,2.5]},"a":"x\ny"}"#);
    assert_eq!(entries_line(&Vec::new()), "{}");
}

#[test]
fn control_characters_are_escaped() {
    let text = Json::text("a\nb\rc\u{1}").to_text();
    assert_eq!(text, "\"a\\nb\\rc\\u0001\"");
    assert_eq!(json(&text).as_str(), Some("a\nb\rc\u{1}"));
}

#[test]
fn malformed_text_gives_the_message_of_the_parser() {
    let expected = serde_json::from_str::<Value>("not-json").expect_err("no JSON").to_string();
    assert_eq!(Json::parse("not-json").expect_err("no JSON"), expected);
}

#[test]
fn documents_nested_too_deeply_are_refused() {
    let nested = |n: usize| format!("{}{}", "[".repeat(n), "]".repeat(n));
    let deepest = json(&nested(127));
    assert_eq!(deepest.to_text(), nested(127));
    assert!(Json::parse(&nested(128)).is_err());
    assert!(validate_finite(&deepest).is_ok());
}
