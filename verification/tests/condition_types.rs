use serde_json::Value;
use uma::json::{JsonNumber, JsonValue};

fn to_json(v: &Value) -> JsonValue {
    match v {
        Value::Null => JsonValue::Null,
        Value::Bool(b) => JsonValue::Bool(*b),
        Value::Number(n) => {
            if let Some(u) = n.as_u64() {
                JsonValue::Number(JsonNumber::PosInt(u))
            } else if let Some(i) = n.as_i64() {
                JsonValue::Number(JsonNumber::NegInt(i))
            } else {
                JsonValue::Number(JsonNumber::Float(n.as_f64().unwrap().to_bits()))
            }
        }
        Value::String(s) => JsonValue::Str(s.clone()),
        Value::Array(items) => JsonValue::Array(items.iter().map(to_json).collect()),
        Value::Object(map) => JsonValue::Object(map.iter().map(|(k, v)| (k.clone(), to_json(v))).collect()),
    }
}

fn parse(text: &str) -> Value {
    serde_json::from_str(text).unwrap()
}
use uma::scraping::condition_types::{parse_condition_item, parse_skill_condition_types};
use uma::scraping::error::ScraperError;

fn valid_item() -> Value {
    parse(
        r#"{
            "name": "accumulatetime",
            "desc": "The number of seconds since the race has started.",
            "note": "",
            "example": "accumulatetime>=5",
            "example_meaning": "The race has been ongoing for at least 5 seconds.",
            "values": ""
        }"#,
    )
}

#[test]
fn skill_condition_type_parser_parses_valid_item() {
    let entry = parse_condition_item(&to_json(&valid_item())).unwrap();
    assert_eq!(entry.cond_key, "accumulatetime");
    assert_eq!(entry.description, "The number of seconds since the race has started.");
    let example = entry.example.unwrap();
    assert!(example.contains("accumulatetime>=5"));
    assert!(example.contains("at least 5 seconds"));
}

#[test]
fn appends_note_to_description() {
    let mut item = valid_item();
    item["note"] = Value::from("Some additional note.");
    let entry = parse_condition_item(&to_json(&item)).unwrap();
    assert!(entry.description.contains("The number of seconds since the race has started."));
    assert!(entry.description.contains("Some additional note."));
}

#[test]
fn example_is_none_when_empty() {
    let mut item = valid_item();
    item["example"] = Value::from("");
    let entry = parse_condition_item(&to_json(&item)).unwrap();
    assert!(entry.example.is_none());
}

#[test]
fn example_has_no_meaning_when_meaning_empty() {
    let mut item = valid_item();
    item["example_meaning"] = Value::from("");
    let entry = parse_condition_item(&to_json(&item)).unwrap();
    assert_eq!(entry.example.unwrap(), "accumulatetime>=5");
}

#[test]
fn skill_condition_type_parser_errors_on_missing_name() {
    let mut item = valid_item();
    item.as_object_mut().unwrap().remove("name");
    let result = parse_condition_item(&to_json(&item));
    assert!(matches!(result, Err(ScraperError::ParseError(_))));
}

#[test]
fn skill_condition_type_parser_roster_tolerates_bad_items() {
    let bad_item = parse(r#"{"desc": "no name here"}"#);
    let root = Value::Array(vec![valid_item(), bad_item]);
    let entries = parse_skill_condition_types(&to_json(&root)).unwrap();
    assert_eq!(entries.len(), 1);
}

#[test]
fn skill_condition_type_parser_parses_full_roster() {
    let root = Value::Array(vec![valid_item(), valid_item()]);
    let entries = parse_skill_condition_types(&to_json(&root)).unwrap();
    assert_eq!(entries.len(), 2);
}

#[test]
fn description_and_example_join_exactly() {
    let mut item = valid_item();
    item["note"] = Value::from("  Some note. ");
    let entry = parse_condition_item(&to_json(&item)).unwrap();
    assert_eq!(entry.description, "The number of seconds since the race has started. Some note.");
    assert_eq!(
        entry.example.unwrap(),
        "accumulatetime>=5 — The race has been ongoing for at least 5 seconds."
    );
}

#[test]
fn condition_roster_of_a_non_array_is_a_parse_error() {
    let root = parse(r#"{"name": "x"}"#);
    assert!(matches!(parse_skill_condition_types(&to_json(&root)), Err(ScraperError::ParseError(_))));
}
