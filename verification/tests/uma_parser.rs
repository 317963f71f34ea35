use serde_json::Value;
use uma::json::{JsonNumber, JsonValue};

fn to_json(v: &Value) -> JsonValue {
    match v {
        Value::Null => JsonValue::Null,
        Value::Bool(b) => JsonValue::Bool(*b),
        Value::Number(n) => {
            if let Some(u) = n.as_u64() {
                JsonValue::Number(JsonNumber::PosInt(u))
            } else if let Some(i) = n.as_i64() {
                JsonValue::Number(JsonNumber::NegInt(i))
            } else {
                JsonValue::Number(JsonNumber::Float(n.as_f64().unwrap().to_bits()))
            }
        }
        Value::String(s) => JsonValue::Str(s.clone()),
        Value::Array(items) => JsonValue::Array(items.iter().map(to_json).collect()),
        Value::Object(map) => JsonValue::Object(map.iter().map(|(k, v)| (k.clone(), to_json(v))).collect()),
    }
}

fn parse(text: &str) -> Value {
    serde_json::from_str(text).unwrap()
}
use std::collections::HashMap;
use uma::dates::Date;
use uma::ids::{SkillId, UmaId};
use uma::models::uma::{AptitudeLevel, UmaRarity as Rarity};
use uma::scraping::error::ScraperError;
use uma::scraping::umas::{parse_uma, parse_uma_roster};
use uma::uma_skill::SkillAcquisition;

fn no_predicted_dates() -> HashMap<u32, Date> {
    HashMap::new()
}

fn valid_item() -> Value {
    parse(
        r#"{
            "card_id": 102001,
            "name_en": "Seiun Sky",
            "version": "default",
            "rarity": 3,
            "base_stats": [98, 98, 88, 83, 83],
            "stat_bonus": [20, 0, 10, 0, 20],
            "aptitude": ["A", "G", "G", "C", "A", "A", "A", "B", "D", "E"],
            "skills_unique": [100201],
            "skills_innate": [200881, 201192],
            "skills_awakening": [201522],
            "skills_event": [200891, 200742],
            "skills_evo": [
                {"new": 102001111, "old": 201191},
                {"new": 102001211, "old": 200541}
            ],
            "release_en": "2025-06-26"
        }"#,
    )
}

#[test]
fn uma_parser_parses_valid_item() {
    let uma = parse_uma(&to_json(&valid_item()), &no_predicted_dates()).unwrap().unwrap();
    assert_eq!(uma.id, UmaId(102001));
    assert_eq!(uma.name, "Seiun Sky");
    assert_eq!(uma.subtitle, "default");
    assert!(matches!(uma.rarity, Rarity::SSR));
    assert_eq!(uma.base_stats.speed, 98);
    assert_eq!(uma.base_stats.stamina, 98);
    assert_eq!(uma.base_stats.power, 88);
    assert_eq!(uma.base_stats.guts, 83);
    assert_eq!(uma.base_stats.wit, 83);
    assert_eq!(uma.growth_rates.speed, 20);
    assert_eq!(uma.growth_rates.stamina, 0);
    assert_eq!(uma.growth_rates.power, 10);
    assert_eq!(uma.growth_rates.guts, 0);
    assert_eq!(uma.growth_rates.wit, 20);
    assert!(matches!(uma.aptitudes.surface.turf, AptitudeLevel::A));
    assert!(matches!(uma.aptitudes.surface.dirt, AptitudeLevel::G));
    assert!(matches!(uma.aptitudes.distance.short, AptitudeLevel::G));
    assert!(matches!(uma.aptitudes.distance.mile, AptitudeLevel::C));
    assert!(matches!(uma.aptitudes.strategy.front, AptitudeLevel::A));
    assert!(matches!(uma.aptitudes.strategy.end, AptitudeLevel::E));
    assert_eq!(uma.skill_list.len(), 8);
    assert!(!uma.is_predicted_date);
}

#[test]
fn skips_when_no_release_en_and_no_predicted_date() {
    let mut item = valid_item();
    item.as_object_mut().unwrap().remove("release_en");
    let result = parse_uma(&to_json(&item), &no_predicted_dates()).unwrap();
    assert!(result.is_none());
}

#[test]
fn uma_parser_uses_predicted_date_when_no_release_en() {
    let mut item = valid_item();
    item.as_object_mut().unwrap().remove("release_en");
    let date = Date { year: 2025, month: 6, day: 26 };
    let mut predicted = HashMap::new();
    predicted.insert(102001u32, date);
    let uma = parse_uma(&to_json(&item), &predicted).unwrap().unwrap();
    assert_eq!(uma.release_date, date);
    assert!(uma.is_predicted_date);
}

#[test]
fn stores_future_release_en_date() {
    let mut item = valid_item();
    item["release_en"] = Value::from("2099-01-01");
    let uma = parse_uma(&to_json(&item), &no_predicted_dates()).unwrap().unwrap();
    assert_eq!(uma.release_date, Date { year: 2099, month: 1, day: 1 });
    assert!(!uma.is_predicted_date);
}

#[test]
fn uma_parser_errors_on_invalid_rarity() {
    let mut item = valid_item();
    item["rarity"] = Value::from(99);
    let result = parse_uma(&to_json(&item), &no_predicted_dates());
    assert!(matches!(result, Err(ScraperError::UnknownValue(_))));
}

#[test]
fn uma_parser_errors_on_short_base_stats() {
    let mut item = valid_item();
    item["base_stats"] = parse("[98, 98, 88]");
    let result = parse_uma(&to_json(&item), &no_predicted_dates());
    assert!(matches!(result, Err(ScraperError::InvalidShape(_))));
}

#[test]
fn uma_parser_errors_on_short_aptitude() {
    let mut item = valid_item();
    item["aptitude"] = parse(r#"["A", "B", "C"]"#);
    let result = parse_uma(&to_json(&item), &no_predicted_dates());
    assert!(matches!(result, Err(ScraperError::InvalidShape(_))));
}

#[test]
fn uma_parser_handles_missing_skill_categories() {
    let mut item = valid_item();
    item.as_object_mut().unwrap().remove("skills_event");
    item.as_object_mut().unwrap().remove("skills_awakening");
    let uma = parse_uma(&to_json(&item), &no_predicted_dates()).unwrap().unwrap();
    assert_eq!(uma.skill_list.len(), 5);
}

#[test]
fn errors_on_short_stat_bonus() {
    let mut item = valid_item();
    item["stat_bonus"] = parse("[20, 0, 10]");
    let result = parse_uma(&to_json(&item), &no_predicted_dates());
    assert!(matches!(result, Err(ScraperError::InvalidShape(_))));
}

#[test]
fn parses_evolution_skills() {
    let uma = parse_uma(&to_json(&valid_item()), &no_predicted_dates()).unwrap().unwrap();
    let evo_skills: Vec<_> = uma
        .skill_list
        .iter()
        .filter(|s| matches!(s.acquisition, SkillAcquisition::Evolution(_)))
        .collect();
    assert_eq!(evo_skills.len(), 2);
    assert_eq!(evo_skills[0].id, SkillId(102001111));
    assert!(matches!(evo_skills[0].acquisition, SkillAcquisition::Evolution(SkillId(201191))));
}

#[test]
fn uma_roster_skips_unreleased_and_bad_entries() {
    let mut unreleased = valid_item();
    unreleased.as_object_mut().unwrap().remove("release_en");
    let mut bad = valid_item();
    bad["rarity"] = Value::from(99);
    let root = Value::Array(vec![valid_item(), unreleased, bad]);
    let umas = parse_uma_roster(&to_json(&root), &no_predicted_dates()).unwrap();
    assert_eq!(umas.len(), 1);
}
