use serde_json::Value;
use uma::ids::SkillId;
use uma::json::{JsonNumber, JsonValue};
use uma::models::skill::{Category, EffectType, Operator, Rarity};
use uma::scraping::error::ScraperError;
use uma::scraping::skills::{icon_id_to_category, parse_skill_item, parse_skill_roster};

fn to_json(v: &Value) -> JsonValue {
    match v {
        Value::Null => JsonValue::Null,
        Value::Bool(b) => JsonValue::Bool(*b),
        Value::Number(n) => {
            if let Some(u) = n.as_u64() {
                JsonValue::Number(JsonNumber::PosInt(u))
            } else if let Some(i) = n.as_i64() {
                JsonValue::Number(JsonNumber::NegInt(i))
            } else {
                JsonValue::Number(JsonNumber::Float(n.as_f64().unwrap().to_bits()))
            }
        }
        Value::String(s) => JsonValue::Str(s.clone()),
        Value::Array(items) => JsonValue::Array(items.iter().map(to_json).collect()),
        Value::Object(map) => JsonValue::Object(map.iter().map(|(k, v)| (k.clone(), to_json(v))).collect()),
    }
}

fn parse(text: &str) -> Value {
    serde_json::from_str(text).unwrap()
}

fn icons() -> Vec<(u32, Category)> {
    vec![(20013, Category::Velocity), (20023, Category::Acceleration)]
}

fn valid_item() -> Value {
    parse(
        r#"{
            "id": 10071,
            "name_en": "Warning Shot!",
            "desc_en": "Slightly increase velocity with a long spurt starting halfway through the race.",
            "rarity": 3,
            "iconid": 20013,
            "cost": 200,
            "condition_groups": [
                {
                    "effects": [
                        {"type": 27, "value": 4500},
                        {"type": 31, "value": 2000}
                    ],
                    "condition": "distance_rate>=50&order_rate>50",
                    "precondition": "phase>=2"
                }
            ]
        }"#,
    )
}

#[test]
fn skill_parser_parses_valid_skill() {
    let skill = parse_skill_item(&to_json(&valid_item()), &icons()).unwrap();
    assert_eq!(skill.id, SkillId(10071));
    assert_eq!(skill.name, "Warning Shot!");
    assert_eq!(
        skill.ingame_description,
        "Slightly increase velocity with a long spurt starting halfway through the race."
    );
    assert!(matches!(skill.rarity, Rarity::Rare));
    assert_eq!(skill.sp_cost, 200);
}

#[test]
fn parses_effects() {
    let skill = parse_skill_item(&to_json(&valid_item()), &icons()).unwrap();
    assert_eq!(skill.effects.len(), 1);
    let effect = &skill.effects[0];
    assert_eq!(effect.effects.len(), 2);
    assert!(matches!(effect.effects[0], EffectType::TargetSpeedUp(_)));
    assert!(matches!(effect.effects[1], EffectType::AccelerationUp(_)));
}

#[test]
fn skill_parser_parses_conditions() {
    let skill = parse_skill_item(&to_json(&valid_item()), &icons()).unwrap();
    let conditions = &skill.effects[0].conditions;
    assert_eq!(conditions.len(), 2);
    assert_eq!(conditions[0].cond_key, "distance_rate");
    assert!(matches!(conditions[0].operator, Operator::GtEq));
    assert_eq!(conditions[0].cond_val, "50");
    assert!(!conditions[0].is_or);
    assert_eq!(conditions[1].cond_key, "order_rate");
    assert!(matches!(conditions[1].operator, Operator::Gt));
    assert_eq!(conditions[1].cond_val, "50");
    assert!(!conditions[1].is_or);
}

#[test]
fn parses_preconditions() {
    let skill = parse_skill_item(&to_json(&valid_item()), &icons()).unwrap();
    let preconditions = &skill.effects[0].preconditions;
    assert_eq!(preconditions.len(), 1);
    assert_eq!(preconditions[0].cond_key, "phase");
    assert!(matches!(preconditions[0].operator, Operator::GtEq));
    assert_eq!(preconditions[0].cond_val, "2");
}

#[test]
fn skill_parser_parses_or_conditions() {
    let mut item = valid_item();
    item["condition_groups"][0]["condition"] =
        Value::from("distance_rate>=50&order<=3@distance_rate>=50&order_rate<=50");
    let skill = parse_skill_item(&to_json(&item), &icons()).unwrap();
    let conditions = &skill.effects[0].conditions;
    assert_eq!(conditions.len(), 4);
    assert!(!conditions[0].is_or);
    assert!(!conditions[1].is_or);
    assert!(conditions[2].is_or);
    assert!(!conditions[3].is_or);
}

#[test]
fn skill_parser_skips_unknown_effect_types() {
    let mut item = valid_item();
    item["condition_groups"][0]["effects"] = parse(r#"[{"type": 27, "value": 4500}, {"type": 9999, "value": 100}]"#);
    let skill = parse_skill_item(&to_json(&item), &icons()).unwrap();
    assert_eq!(skill.effects[0].effects.len(), 1);
}

#[test]
fn skill_parser_handles_empty_condition_groups() {
    let mut item = valid_item();
    item.as_object_mut().unwrap().remove("condition_groups");
    let skill = parse_skill_item(&to_json(&item), &icons()).unwrap();
    assert!(skill.effects.is_empty());
}

#[test]
fn handles_empty_conditions() {
    let mut item = valid_item();
    item["condition_groups"][0]["condition"] = Value::from("");
    item["condition_groups"][0]["precondition"] = Value::from("");
    let skill = parse_skill_item(&to_json(&item), &icons()).unwrap();
    assert!(skill.effects[0].conditions.is_empty());
    assert!(skill.effects[0].preconditions.is_empty());
}

#[test]
fn skill_parser_defaults_sp_cost_to_zero_when_absent() {
    let mut item = valid_item();
    item.as_object_mut().unwrap().remove("cost");
    let skill = parse_skill_item(&to_json(&item), &icons()).unwrap();
    assert_eq!(skill.sp_cost, 0);
}

#[test]
fn skill_parser_defaults_desc_en_to_empty_when_absent() {
    let mut item = valid_item();
    item.as_object_mut().unwrap().remove("desc_en");
    let skill = parse_skill_item(&to_json(&item), &icons()).unwrap();
    assert_eq!(skill.ingame_description, "");
}

#[test]
fn skill_parser_errors_on_missing_id() {
    let mut item = valid_item();
    item.as_object_mut().unwrap().remove("id");
    assert!(matches!(
        parse_skill_item(&to_json(&item), &icons()),
        Err(ScraperError::MissingField(_))
    ));
}

#[test]
fn skill_parser_errors_on_missing_name() {
    let mut item = valid_item();
    item.as_object_mut().unwrap().remove("name_en");
    assert!(matches!(
        parse_skill_item(&to_json(&item), &icons()),
        Err(ScraperError::MissingField(_))
    ));
}

#[test]
fn skill_parser_errors_on_invalid_rarity() {
    let mut item = valid_item();
    item["rarity"] = Value::from(99);
    assert!(matches!(
        parse_skill_item(&to_json(&item), &icons()),
        Err(ScraperError::UnknownValue(_))
    ));
}

#[test]
fn skill_parser_errors_on_unknown_iconid() {
    let mut item = valid_item();
    item["iconid"] = Value::from(99999);
    assert!(matches!(
        parse_skill_item(&to_json(&item), &icons()),
        Err(ScraperError::UnknownValue(_))
    ));
}

#[test]
fn skill_parser_errors_on_malformed_condition() {
    let mut item = valid_item();
    item["condition_groups"][0]["condition"] = Value::from("notacondition");
    assert!(matches!(
        parse_skill_item(&to_json(&item), &icons()),
        Err(ScraperError::InvalidCondition(_))
    ));
}

#[test]
fn skill_parser_parses_full_roster() {
    let root = Value::Array(vec![valid_item(), valid_item()]);
    let skills = parse_skill_roster(&to_json(&root), &icons()).unwrap();
    assert_eq!(skills.len(), 2);
}

#[test]
fn skill_parser_roster_tolerates_bad_items() {
    let bad_item = parse(r#"{"id": 99999, "rarity": 99}"#);
    let root = Value::Array(vec![valid_item(), bad_item]);
    let skills = parse_skill_roster(&to_json(&root), &icons()).unwrap();
    assert_eq!(skills.len(), 1);
}

#[test]
fn roster_of_a_non_array_is_a_json_error() {
    let root = parse(r#"{"id": 1}"#);
    assert!(matches!(parse_skill_roster(&to_json(&root), &icons()), Err(ScraperError::JsonError(_))));
}

#[test]
fn effect_values_are_normalized_to_ten_thousand() {
    let skill = parse_skill_item(&to_json(&valid_item()), &icons()).unwrap();
    assert_eq!(skill.effects[0].effects[0], EffectType::TargetSpeedUp(4500));
    assert_eq!(skill.effects[0].effects[1], EffectType::AccelerationUp(20000));
    assert_eq!(skill.category, Category::Velocity);
}

#[test]
fn japanese_only_skill_takes_its_name_from_enname() {
    let mut item = valid_item();
    item.as_object_mut().unwrap().remove("name_en");
    item["enname"] = Value::from("Warning Shot JP");
    let skill = parse_skill_item(&to_json(&item), &icons()).unwrap();
    assert_eq!(skill.name, "Warning Shot JP");
    assert!(skill.is_jp_only);
}

#[test]
fn icon_lookup_finds_listed_icons_only() {
    assert_eq!(icon_id_to_category(&icons(), 20023), Some(Category::Acceleration));
    assert_eq!(icon_id_to_category(&icons(), 1), None);
}

fn localized_item() -> Value {
    let mut item = valid_item();
    item["condition_groups"][0]["base_time"] = Value::from(50000);
    item
}

#[test]
fn prefers_en_loc_condition_groups() {
    let mut item = localized_item();
    item["loc"] = parse(
        r#"{"en": {"condition_groups": [{"base_time": 50000, "effects": [{"type": 27, "value": 1500}], "condition": "is_lastspurt==1", "precondition": ""}]}}"#,
    );
    let skill = parse_skill_item(&to_json(&item), &icons()).unwrap();
    let conditions = &skill.effects[0].conditions;
    assert_eq!(conditions.len(), 1);
    assert_eq!(conditions[0].cond_key, "is_lastspurt");
}

#[test]
fn falls_back_to_top_level_condition_groups_when_no_en_loc() {
    let item = localized_item();
    let skill = parse_skill_item(&to_json(&item), &icons()).unwrap();
    assert_eq!(skill.effects[0].conditions[0].cond_key, "distance_rate");
}

#[test]
fn localized_groups_replace_the_top_level_ones() {
    let mut item = localized_item();
    item["loc"] = parse(r#"{"en": {"condition_groups": []}}"#);
    let skill = parse_skill_item(&to_json(&item), &icons()).unwrap();
    assert!(skill.effects.is_empty());

    let mut item = localized_item();
    item["loc"] = parse(r#"{"ja": {"condition_groups": []}}"#);
    let skill = parse_skill_item(&to_json(&item), &icons()).unwrap();
    assert_eq!(skill.effects.len(), 1);

    let mut item = localized_item();
    item["loc"] = parse(r#"{"en": {"condition_groups": [{"condition": "bad"}]}}"#);
    assert!(matches!(parse_skill_item(&to_json(&item), &icons()), Err(ScraperError::InvalidCondition(_))));
}
