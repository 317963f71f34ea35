use serde_json::Value;
use uma::json::{JsonNumber, JsonValue};

fn to_json(v: &Value) -> JsonValue {
    match v {
        Value::Null => JsonValue::Null,
        Value::Bool(b) => JsonValue::Bool(*b),
        Value::Number(n) => {
            if let Some(u) = n.as_u64() {
                JsonValue::Number(JsonNumber::PosInt(u))
            } else if let Some(i) = n.as_i64() {
                JsonValue::Number(JsonNumber::NegInt(i))
            } else {
                JsonValue::Number(JsonNumber::Float(n.as_f64().unwrap().to_bits()))
            }
        }
        Value::String(s) => JsonValue::Str(s.clone()),
        Value::Array(items) => JsonValue::Array(items.iter().map(to_json).collect()),
        Value::Object(map) => JsonValue::Object(map.iter().map(|(k, v)| (k.clone(), to_json(v))).collect()),
    }
}

fn parse(text: &str) -> Value {
    serde_json::from_str(text).unwrap()
}
use uma::scraping::error::ScraperError;
use uma::scraping::urls::{resolve_conditions_url, resolve_predicted_release_dates_url, resolve_skills_url, resolve_uma_url};

fn manifest() -> JsonValue {
    to_json(&parse(
        r#"{"character-cards": "abc123", "skills": "3b4d4239", "static/skill_conditions": "32e9f707",
            "en/foresight/predicted_releases": "ff00"}"#,
    ))
}

#[test]
fn resolves_urls_from_manifest_hashes() {
    let m = manifest();
    assert_eq!(resolve_uma_url(&m).unwrap(), "https://gametora.com/data/umamusume/character-cards.abc123.json");
    assert_eq!(resolve_skills_url(&m).unwrap(), "https://gametora.com/data/umamusume/skills.3b4d4239.json");
    assert_eq!(
        resolve_conditions_url(&m).unwrap(),
        "https://gametora.com/data/umamusume/static/skill_conditions.32e9f707.json"
    );
    assert_eq!(
        resolve_predicted_release_dates_url(&m).unwrap(),
        "https://gametora.com/data/umamusume/en/foresight/predicted_releases.ff00.json"
    );
}

#[test]
fn missing_key_is_a_parse_error() {
    let m = to_json(&parse(r#"{"skills": "1"}"#));
    match resolve_uma_url(&m) {
        Err(ScraperError::ParseError(msg)) => assert_eq!(msg, "Key 'character-cards' not found in manifest"),
        _ => panic!("expected a parse error"),
    }
}

#[test]
fn manifest_of_non_strings_is_a_json_error() {
    let m = to_json(&parse(r#"{"skills": 1}"#));
    assert!(matches!(resolve_skills_url(&m), Err(ScraperError::JsonError(_))));
    let m = to_json(&parse(r#"[1, 2]"#));
    assert!(matches!(resolve_skills_url(&m), Err(ScraperError::JsonError(_))));
}
