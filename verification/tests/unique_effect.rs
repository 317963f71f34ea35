use uma::scraping::unique_effect::{unique_effect_is_translatable, unique_values_translatable};
use serde_json::Value;
use uma::json::{JsonNumber, JsonValue};

fn to_json(v: &Value) -> JsonValue {
    match v {
        Value::Null => JsonValue::Null,
        Value::Bool(b) => JsonValue::Bool(*b),
        Value::Number(n) => {
            if let Some(u) = n.as_u64() {
                JsonValue::Number(JsonNumber::PosInt(u))
            } else if let Some(i) = n.as_i64() {
                JsonValue::Number(JsonNumber::NegInt(i))
            } else {
                JsonValue::Number(JsonNumber::Float(n.as_f64().unwrap().to_bits()))
            }
        }
        Value::String(s) => JsonValue::Str(s.clone()),
        Value::Array(items) => JsonValue::Array(items.iter().map(to_json).collect()),
        Value::Object(map) => JsonValue::Object(map.iter().map(|(k, v)| (k.clone(), to_json(v))).collect()),
    }
}

fn parse(text: &str) -> Value {
    serde_json::from_str(text).unwrap()
}
use uma::scraping::error::ScraperError;
use uma::scraping::unique_effect::{collect_effect_values, parse_unique_effect, translate_unique_effect_type};

#[test]
fn parse_unique_effect_non_conditional() {
    let unique = parse(r#"{"level": 25, "effects": [{"type": 8, "value": 5}, {"type": 15, "value": 5}]}"#);
    let result = parse_unique_effect(&to_json(&unique)).unwrap();
    assert_eq!(result, "Training Effectiveness 5%, Race Bonus 5%");
}

#[test]
fn parse_unique_effect_conditional() {
    let unique = parse(r#"{"level": 0, "effects": [{"type": 101, "value": 80, "value_1": 5, "value_2": 10}]}"#);
    let result = parse_unique_effect(&to_json(&unique)).unwrap();
    assert_eq!(result, "Gain Power Bonus 10 when bond gauge is at least 80");
}

#[test]
fn parse_unique_effect_full_bond_gauge() {
    let unique = parse(r#"{"level": 0, "effects": [{"type": 101, "value": 100, "value_1": 8, "value_2": 15}]}"#);
    let result = parse_unique_effect(&to_json(&unique)).unwrap();
    assert_eq!(result, "Gain Training Effectiveness 15% when the bond gauge is full");
}

#[test]
fn parse_unique_effect_empty_array_errors() {
    let unique = parse(r#"{"level": 0, "effects": []}"#);
    assert!(matches!(parse_unique_effect(&to_json(&unique)), Err(ScraperError::InvalidShape(_))));
}

#[test]
fn parse_unique_effect_unknown_type_errors() {
    let unique = parse(r#"{"level": 0, "effects": [{"type": 999, "value": 5}]}"#);
    assert!(matches!(parse_unique_effect(&to_json(&unique)), Err(ScraperError::UnknownValue(_))));
}

#[test]
fn parse_unique_effect_without_effects_is_missing_field() {
    let unique = parse(r#"{"level": 0}"#);
    assert!(matches!(parse_unique_effect(&to_json(&unique)), Err(ScraperError::MissingField(_))));
}

#[test]
fn collects_values_in_key_order() {
    let effect = parse(r#"{"type": 101, "value": 80, "value_1": 5, "value_2": 10}"#);
    assert_eq!(collect_effect_values(&to_json(&effect)), vec![80, 5, 10]);
}

#[test]
fn translates_plain_percentages() {
    assert_eq!(translate_unique_effect_type(8, &[5]), Some("Training Effectiveness 5%".to_string()));
    assert_eq!(translate_unique_effect_type(999, &[5]), None);
}

#[test]
fn translatability_checks_indexes_and_products() {
    assert!(unique_values_translatable(101, &[80, 5, 10]));
    assert!(!unique_values_translatable(101, &[80]));
    assert!(!unique_values_translatable(104, &[i64::MAX, 2]));
    assert!(unique_values_translatable(104, &[3, 2]));
    let ok = parse(r#"{"effects": [{"type": 8, "value": 5}]}"#);
    assert!(unique_effect_is_translatable(&to_json(&ok)));
}
