use serde_json::Value;
use uma::json::{JsonNumber, JsonValue};

fn to_json(v: &Value) -> JsonValue {
    match v {
        Value::Null => JsonValue::Null,
        Value::Bool(b) => JsonValue::Bool(*b),
        Value::Number(n) => {
            if let Some(u) = n.as_u64() {
                JsonValue::Number(JsonNumber::PosInt(u))
            } else if let Some(i) = n.as_i64() {
                JsonValue::Number(JsonNumber::NegInt(i))
            } else {
                JsonValue::Number(JsonNumber::Float(n.as_f64().unwrap().to_bits()))
            }
        }
        Value::String(s) => JsonValue::Str(s.clone()),
        Value::Array(items) => JsonValue::Array(items.iter().map(to_json).collect()),
        Value::Object(map) => JsonValue::Object(map.iter().map(|(k, v)| (k.clone(), to_json(v))).collect()),
    }
}

fn parse(text: &str) -> Value {
    serde_json::from_str(text).unwrap()
}
use uma::scraping::error::ScraperError;
use uma::scraping::support_cards::parse_rarity;

#[test]
fn values_are_described_as_compact_json() {
    let v = parse(r#"{"a": [1, -2, "x\"y", null, true], "b": {"c": "\n\u0001"}}"#);
    assert_eq!(to_json(&v).describe(), v.to_string());
    assert_eq!(to_json(&parse("\"tab\\there\"")).describe(), "\"tab\\there\"");
    assert_eq!(to_json(&parse("[]")).describe(), "[]");
}

#[test]
fn messages_show_the_offending_value_as_json() {
    match parse_rarity(&to_json(&parse("\"gold\""))) {
        Err(ScraperError::UnknownValue(msg)) => assert_eq!(msg, "support card rarity: \"gold\""),
        _ => panic!("expected an unknown value"),
    }
}

#[test]
fn fields_are_looked_up_by_key() {
    let v = to_json(&parse(r#"{"n": 7, "s": "t", "arr": [1]}"#));
    assert_eq!(v.field_u64("n"), Some(7));
    assert_eq!(v.field_str("s"), Some("t"));
    assert_eq!(v.field_array("arr").map(|a| a.len()), Some(1));
    assert_eq!(v.field_u64("missing"), None);
    assert_eq!(v.describe_field("missing"), "null");
}
