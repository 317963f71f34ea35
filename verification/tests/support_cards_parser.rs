use serde_json::Value;
use uma::json::{JsonNumber, JsonValue};

fn to_json(v: &Value) -> JsonValue {
    match v {
        Value::Null => JsonValue::Null,
        Value::Bool(b) => JsonValue::Bool(*b),
        Value::Number(n) => {
            if let Some(u) = n.as_u64() {
                JsonValue::Number(JsonNumber::PosInt(u))
            } else if let Some(i) = n.as_i64() {
                JsonValue::Number(JsonNumber::NegInt(i))
            } else {
                JsonValue::Number(JsonNumber::Float(n.as_f64().unwrap().to_bits()))
            }
        }
        Value::String(s) => JsonValue::Str(s.clone()),
        Value::Array(items) => JsonValue::Array(items.iter().map(to_json).collect()),
        Value::Object(map) => JsonValue::Object(map.iter().map(|(k, v)| (k.clone(), to_json(v))).collect()),
    }
}

fn parse(text: &str) -> Value {
    serde_json::from_str(text).unwrap()
}
use std::collections::HashMap;
use uma::dates::Date;
use uma::ids::{SkillId, SupportCardId};
use uma::models::support_card::{CardType, EffectValue, LbValues, Rarity};
use uma::scraping::error::ScraperError;
use uma::scraping::release_dates::parse_predicted_release_dates;
use uma::scraping::support_cards::{parse_support_card, parse_support_card_roster};
use uma::support_card_skill::HintAcquisition;

fn no_predicted_dates() -> HashMap<u32, Date> {
    HashMap::new()
}

fn valid_item() -> Value {
    parse(
        r#"{
            "support_id": 10001,
            "char_id": 1001,
            "char_name": "Special Week",
            "title_en": "[Tracen Academy]",
            "type": "guts",
            "rarity": 1,
            "obtained": "gacha",
            "release_en": "2025-06-26",
            "effects": [
                [1, 5, -1, -1, 10, 10, -1, -1, 15, -1, -1, -1],
                [2, 10, -1, -1, -1, 25, -1, -1, -1, 35, -1, -1]
            ],
            "event_skills": [200042],
            "hints": {
                "hint_skills": [200162, 200232]
            }
        }"#,
    )
}

#[test]
fn parses_valid_card() {
    let card = parse_support_card(&to_json(&valid_item()), &no_predicted_dates()).unwrap().unwrap();
    assert_eq!(card.id, SupportCardId(10001));
    assert_eq!(card.char_name, "Special Week");
    assert_eq!(card.title, "[Tracen Academy]");
    assert!(!card.is_welfare);
    assert!(!card.is_predicted_date);
    assert!(card.unique_effect.is_none());
    assert_eq!(card.effects.len(), 2);
    assert_eq!(card.skills.len(), 3);
}

#[test]
fn parses_event_skills() {
    let card = parse_support_card(&to_json(&valid_item()), &no_predicted_dates()).unwrap().unwrap();
    let event_skills: Vec<_> = card.skills.iter().filter(|s| s.acquisition == HintAcquisition::Event).collect();
    assert_eq!(event_skills.len(), 1);
    assert_eq!(event_skills[0].skill_id, SkillId(200042));
}

#[test]
fn parses_hint_skills() {
    let card = parse_support_card(&to_json(&valid_item()), &no_predicted_dates()).unwrap().unwrap();
    let hint_skills: Vec<_> = card.skills.iter().filter(|s| s.acquisition == HintAcquisition::Hint).collect();
    assert_eq!(hint_skills.len(), 2);
    assert_eq!(hint_skills[0].skill_id, SkillId(200162));
    assert_eq!(hint_skills[1].skill_id, SkillId(200232));
}

#[test]
fn handles_missing_skills_gracefully() {
    let mut item = valid_item();
    item.as_object_mut().unwrap().remove("event_skills");
    item["hints"].as_object_mut().unwrap().remove("hint_skills");
    let card = parse_support_card(&to_json(&item), &no_predicted_dates()).unwrap().unwrap();
    assert_eq!(card.skills.len(), 0);
}

#[test]
fn welfare_card_sets_is_welfare() {
    let mut item = valid_item();
    item["obtained"] = Value::from("welfare");
    let card = parse_support_card(&to_json(&item), &no_predicted_dates()).unwrap().unwrap();
    assert!(card.is_welfare);
}

#[test]
fn drops_unknown_effect_id_with_warning() {
    let mut item = valid_item();
    item["effects"] = parse(
        r#"[[1, 5, -1, -1, 10, 10, -1, -1, 15, -1, -1, -1], [999, 5, -1, -1, -1, -1, -1, -1, -1, -1, -1, -1]]"#,
    );
    let card = parse_support_card(&to_json(&item), &no_predicted_dates()).unwrap().unwrap();
    assert_eq!(card.effects.len(), 1);
}

#[test]
fn support_cards_parser_uses_predicted_date_when_no_release_en() {
    let mut item = valid_item();
    item.as_object_mut().unwrap().remove("release_en");
    let date = Date { year: 2025, month: 6, day: 26 };
    let mut predicted = HashMap::new();
    predicted.insert(10001u32, date);
    let card = parse_support_card(&to_json(&item), &predicted).unwrap().unwrap();
    assert_eq!(card.release_date, Some(date));
    assert!(card.is_predicted_date);
}

#[test]
fn support_cards_parser_errors_on_invalid_rarity() {
    let mut item = valid_item();
    item["rarity"] = Value::from(99);
    let result = parse_support_card(&to_json(&item), &no_predicted_dates());
    assert!(matches!(result, Err(ScraperError::UnknownValue(_))));
}

#[test]
fn errors_on_invalid_card_type() {
    let mut item = valid_item();
    item["type"] = Value::from("invalid");
    let result = parse_support_card(&to_json(&item), &no_predicted_dates());
    assert!(matches!(result, Err(ScraperError::UnknownValue(_))));
}

#[test]
fn effect_values_are_read_at_the_limit_break_levels() {
    let card = parse_support_card(&to_json(&valid_item()), &no_predicted_dates()).unwrap().unwrap();
    // An R card is read at levels 20, 25, 30, 35, 40.
    assert_eq!(
        card.effects[0],
        EffectValue::FriendshipBonus(LbValues { lb0: Some(10), lb1: Some(11), lb2: Some(13), lb3: Some(15), mlb: Some(15) })
    );
    assert_eq!(card.card_type, CardType::Guts);
    assert_eq!(card.rarity, Rarity::R);
    assert_eq!(card.release_date, Some(Date { year: 2025, month: 6, day: 26 }));
}

#[test]
fn card_roster_keeps_good_entries() {
    let mut bad = valid_item();
    bad["type"] = Value::from("invalid");
    let root = Value::Array(vec![valid_item(), bad]);
    let cards = parse_support_card_roster(&to_json(&root), &no_predicted_dates()).unwrap();
    assert_eq!(cards.len(), 1);
}

#[test]
fn predicted_release_dates_are_keyed_by_id() {
    let root = parse(r#"{"support_cards": {"10001": {"release_date": "2025-07-01"}}}"#);
    let dates = parse_predicted_release_dates(&to_json(&root), "support_cards").unwrap();
    assert_eq!(dates.get(&10001), Some(&Date { year: 2025, month: 7, day: 1 }));
}

#[test]
fn predicted_release_dates_reject_non_numeric_keys() {
    let root = parse(r#"{"support_cards": {"abc": {"release_date": "2025-07-01"}}}"#);
    assert!(matches!(
        parse_predicted_release_dates(&to_json(&root), "support_cards"),
        Err(ScraperError::UnknownValue(_))
    ));
}

#[test]
fn predicted_release_dates_reject_bad_dates() {
    let root = parse(r#"{"support_cards": {"10001": {"release_date": "2025-13-01"}}}"#);
    assert!(matches!(
        parse_predicted_release_dates(&to_json(&root), "support_cards"),
        Err(ScraperError::InvalidDate(_))
    ));
}

#[test]
fn predicted_release_dates_need_the_section() {
    let root = parse(r#"{"other": {}}"#);
    assert!(matches!(
        parse_predicted_release_dates(&to_json(&root), "support_cards"),
        Err(ScraperError::MissingField(_))
    ));
}

#[test]
fn readable_cards_pass_the_check() {
    let root = Value::Array(vec![valid_item()]);
    assert!(uma::scraping::support_cards::cards_are_readable(&to_json(&root), &no_predicted_dates()));
}

#[test]
fn short_bond_gauge_effect_fails_the_check() {
    let mut item = valid_item();
    item["unique"] = parse(r#"{"level": 0, "effects": [{"type": 101, "value": 80}]}"#);
    let root = Value::Array(vec![item.clone()]);
    assert!(!uma::scraping::support_cards::cards_are_readable(&to_json(&root), &no_predicted_dates()));
    assert!(!uma::scraping::support_cards::card_is_readable(&to_json(&item), &no_predicted_dates()));
}

#[test]
fn effect_row_past_the_breakpoints_fails_the_check() {
    let mut item = valid_item();
    item["effects"] = parse(r#"[[1, 5, -1, -1, 10, 10, -1, -1, 15, -1, -1, -1, 7]]"#);
    assert!(!uma::scraping::support_cards::card_is_readable(&to_json(&item), &no_predicted_dates()));
    let r = uma::scraping::support_cards::card_effects_are_readable(&to_json(&item), &Rarity::R);
    assert!(!r);
}

#[test]
fn unique_effect_is_carried_as_text() {
    let mut item = valid_item();
    item["unique"] = parse(r#"{"level": 25, "effects": [{"type": 8, "value": 5}, {"type": 15, "value": 5}]}"#);
    let card = parse_support_card(&to_json(&item), &no_predicted_dates()).unwrap().unwrap();
    assert_eq!(card.unique_effect.as_deref(), Some("Training Effectiveness 5%, Race Bonus 5%"));
}
