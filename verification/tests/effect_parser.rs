use serde_json::Value;
use uma::json::{JsonNumber, JsonValue};

fn to_json(v: &Value) -> JsonValue {
    match v {
        Value::Null => JsonValue::Null,
        Value::Bool(b) => JsonValue::Bool(*b),
        Value::Number(n) => {
            if let Some(u) = n.as_u64() {
                JsonValue::Number(JsonNumber::PosInt(u))
            } else if let Some(i) = n.as_i64() {
                JsonValue::Number(JsonNumber::NegInt(i))
            } else {
                JsonValue::Number(JsonNumber::Float(n.as_f64().unwrap().to_bits()))
            }
        }
        Value::String(s) => JsonValue::Str(s.clone()),
        Value::Array(items) => JsonValue::Array(items.iter().map(to_json).collect()),
        Value::Object(map) => JsonValue::Object(map.iter().map(|(k, v)| (k.clone(), to_json(v))).collect()),
    }
}

fn parse(text: &str) -> Value {
    serde_json::from_str(text).unwrap()
}
use uma::ids::SkillId;
use uma::models::skill::EffectType;
use uma::scraping::error::ScraperError;
use uma::scraping::scaling::parse_scaling;
use uma::scraping::skills::parse_effect;

fn make_cg(extra: &str) -> Value {
    let mut base = parse(r#"{"base_time": 50000, "effects": [{"type": 27, "value": 2500}], "condition": "phase>=2", "precondition": ""}"#);
    let extra = parse(extra);
    for (k, v) in extra.as_object().unwrap() {
        base.as_object_mut().unwrap().insert(k.clone(), v.clone());
    }
    base
}

#[test]
fn no_scaling_when_absent() {
    let cg = make_cg("{}");
    assert!(parse_scaling(&to_json(&cg)).is_none());
}

#[test]
fn parses_time_scale() {
    let cg = make_cg(r#"{"time_scale": 2}"#);
    let scaling = parse_scaling(&to_json(&cg));
    assert!(scaling.is_some());
    assert!(scaling.unwrap().contains("distance from first place"));
}

#[test]
fn parses_value_scale() {
    let cg = make_cg(r#"{"effects": [{"type": 27, "value": 2500, "value_scale": 14}]}"#);
    let scaling = parse_scaling(&to_json(&cg));
    assert!(scaling.is_some());
    assert!(scaling.unwrap().contains("green skills"));
}

#[test]
fn time_scale_takes_priority_over_value_scale() {
    let cg = make_cg(r#"{"time_scale": 2, "effects": [{"type": 27, "value": 2500, "value_scale": 14}]}"#);
    assert!(parse_scaling(&to_json(&cg)).unwrap().contains("distance from first place"));
}

#[test]
fn unknown_time_scale_returns_none() {
    let cg = make_cg(r#"{"time_scale": 99}"#);
    assert!(parse_scaling(&to_json(&cg)).is_none());
}

#[test]
fn unknown_value_scale_returns_none() {
    let cg = make_cg(r#"{"effects": [{"type": 27, "value": 2500, "value_scale": 99}]}"#);
    assert!(parse_scaling(&to_json(&cg)).is_none());
}

#[test]
fn first_effect_with_a_value_scale_decides() {
    let cg = make_cg(r#"{"effects": [{"type": 27, "value": 2500}, {"type": 31, "value": 10, "value_scale": 22}, {"type": 31, "value_scale": 3}]}"#);
    assert_eq!(parse_scaling(&to_json(&cg)).unwrap(), "Multiplier scales with base Speed stat");
}

#[test]
fn effect_parser_skips_unknown_effect_types() {
    let cg = make_cg(r#"{"effects": [{"type": 9999, "value": 100}]}"#);
    let effect = parse_effect(&to_json(&cg), SkillId(1)).unwrap();
    assert!(effect.effects.is_empty());
}

#[test]
fn effect_parser_parses_conditions() {
    let cg = make_cg(r#"{"condition": "distance_rate>=50&order_rate>50"}"#);
    let effect = parse_effect(&to_json(&cg), SkillId(1)).unwrap();
    assert_eq!(effect.conditions.len(), 2);
    assert_eq!(effect.conditions[0].cond_key, "distance_rate");
}

#[test]
fn effect_parser_parses_or_conditions() {
    let cg = make_cg(r#"{"condition": "distance_rate>=50&order<=3@distance_rate>=50&order_rate<=50"}"#);
    let effect = parse_effect(&to_json(&cg), SkillId(1)).unwrap();
    let conditions = &effect.conditions;
    assert_eq!(conditions.len(), 4);
    assert!(!conditions[0].is_or);
    assert!(!conditions[1].is_or);
    assert!(conditions[2].is_or);
    assert!(!conditions[3].is_or);
}

#[test]
fn errors_on_missing_base_time() {
    let mut cg = make_cg("{}");
    cg.as_object_mut().unwrap().remove("base_time");
    assert!(matches!(parse_effect(&to_json(&cg), SkillId(1)), Err(ScraperError::MissingField(_))));
}

#[test]
fn effect_parser_errors_on_malformed_condition() {
    let cg = make_cg(r#"{"condition": "notacondition"}"#);
    assert!(matches!(parse_effect(&to_json(&cg), SkillId(1)), Err(ScraperError::InvalidCondition(_))));
}

#[test]
fn parses_stamina_recovery() {
    let cg = make_cg(r#"{"effects": [{"type": 9, "value": 350}]}"#);
    let effect = parse_effect(&to_json(&cg), SkillId(1)).unwrap();
    assert!(matches!(effect.effects[0], EffectType::StaminaRecovery(_)));
}

#[test]
fn parse_effect_messages_and_values() {
    let mut cg = make_cg("{}");
    cg.as_object_mut().unwrap().remove("base_time");
    match parse_effect(&to_json(&cg), SkillId(10071)) {
        Err(ScraperError::MissingField(m)) => assert_eq!(m, "base_time in skill 10071"),
        other => panic!("unexpected {:?}", other),
    }
    let infinite = make_cg(r#"{"base_time": -1, "effects": [{"type": 9, "value": 350}]}"#);
    let effect = parse_effect(&to_json(&infinite), SkillId(1)).unwrap();
    assert_eq!(effect.effects, vec![EffectType::StaminaRecovery(3500)]);
    assert_eq!(effect.preconditions.len(), 0);
    let text_time = make_cg(r#"{"base_time": "5"}"#);
    assert!(matches!(parse_effect(&to_json(&text_time), SkillId(1)), Err(ScraperError::MissingField(_))));
    let malformed = make_cg(r#"{"condition": "notacondition"}"#);
    match parse_effect(&to_json(&malformed), SkillId(7)) {
        Err(ScraperError::InvalidCondition(m)) => assert_eq!(m, "'notacondition' in skill 7"),
        other => panic!("unexpected {:?}", other),
    }
}
