use serde_json::Value;
use uma::json::{JsonNumber, JsonValue};

fn to_json(v: &Value) -> JsonValue {
    match v {
        Value::Null => JsonValue::Null,
        Value::Bool(b) => JsonValue::Bool(*b),
        Value::Number(n) => {
            if let Some(u) = n.as_u64() {
                JsonValue::Number(JsonNumber::PosInt(u))
            } else if let Some(i) = n.as_i64() {
                JsonValue::Number(JsonNumber::NegInt(i))
            } else {
                JsonValue::Number(JsonNumber::Float(n.as_f64().unwrap().to_bits()))
            }
        }
        Value::String(s) => JsonValue::Str(s.clone()),
        Value::Array(items) => JsonValue::Array(items.iter().map(to_json).collect()),
        Value::Object(map) => JsonValue::Object(map.iter().map(|(k, v)| (k.clone(), to_json(v))).collect()),
    }
}

fn parse(text: &str) -> Value {
    serde_json::from_str(text).unwrap()
}

use uma::ids::UmaId;
use uma::models::uma::{AptitudeLevel, UmaRarity};
use uma::scraping::error::{ErrorKind, ScraperError, ScraperResult};
use uma::scraping::trainee_page::{next_data_json, parse_character_data, CharacterPage};
use uma::uma_skill::SkillAcquisition;

/// Reads a trainee page the way the command-line tool does: the script text,
/// its JSON, then the trainee.
fn parse_character_page(html: &str) -> ScraperResult<CharacterPage> {
    let text = next_data_json(html)?;
    let root: Value = serde_json::from_str(&text)
        .map_err(|e| ScraperError::ParseError(format!("failed to parse __NEXT_DATA__: {e}")))?;
    parse_character_data(&to_json(&root))
}

fn make_next_data(item: Value) -> String {
    let mut root = parse(r#"{"props": {"pageProps": {"itemData": null}}}"#);
    root["props"]["pageProps"]["itemData"] = item;
    format!(
        r#"<html><head><script id="__NEXT_DATA__" type="application/json">{}</script></head></html>"#,
        root
    )
}

fn valid_item() -> Value {
    parse(
        r#"{
            "card_id": 102001,
            "name_en": "Seiun Sky",
            "title_en_gl": "[Reeling in the Big One]",
            "rarity": 3,
            "base_stats": [98, 98, 88, 83, 83],
            "aptitude": ["A", "G", "G", "C", "A", "A", "A", "B", "D", "E"],
            "skills_unique": [100201],
            "skills_innate": [200881, 201192],
            "skills_awakening": [201522],
            "skills_event": [200891, 200742]
        }"#,
    )
}

fn parse_error_message(result: ScraperResult<CharacterPage>) -> String {
    match result {
        Err(ScraperError::ParseError(m)) => m,
        other => panic!("expected a parse error, got {:?}", other),
    }
}

#[test]
fn parses_valid_character_page() {
    let html = make_next_data(valid_item());
    let uma = parse_character_page(&html).unwrap();

    assert_eq!(uma.id, UmaId(102001));
    assert_eq!(uma.name, "Seiun Sky");
    assert_eq!(uma.subtitle, "[Reeling in the Big One]");
    assert!(matches!(uma.rarity, UmaRarity::SSR));
    assert_eq!(uma.base_stats.speed, 98);
    assert_eq!(uma.base_stats.stamina, 98);
    assert_eq!(uma.base_stats.power, 88);
    assert_eq!(uma.base_stats.guts, 83);
    assert_eq!(uma.base_stats.wit, 83);
    assert!(matches!(uma.aptitudes.surface.turf, AptitudeLevel::A));
    assert!(matches!(uma.aptitudes.surface.dirt, AptitudeLevel::G));
    assert!(matches!(uma.aptitudes.distance.short, AptitudeLevel::G));
    assert!(matches!(uma.aptitudes.distance.mile, AptitudeLevel::C));
    assert!(matches!(uma.aptitudes.strategy.front, AptitudeLevel::A));
    assert!(matches!(uma.aptitudes.strategy.end, AptitudeLevel::E));
    assert_eq!(uma.skill_list.len(), 6);
}

#[test]
fn errors_on_missing_next_data() {
    let html = "<html><body>no script here</body></html>";
    let result = parse_character_page(html);
    assert!(matches!(result, Err(ScraperError::ParseError(_))));
}

#[test]
fn trainee_parser_errors_on_invalid_rarity() {
    let mut item = valid_item();
    item["rarity"] = Value::from(99);
    let html = make_next_data(item);
    let result = parse_character_page(&html);
    assert!(matches!(result, Err(ScraperError::ParseError(_))));
}

#[test]
fn trainee_parser_errors_on_short_base_stats() {
    let mut item = valid_item();
    item["base_stats"] = parse("[98, 98, 88]");
    let html = make_next_data(item);
    let result = parse_character_page(&html);
    assert!(matches!(result, Err(ScraperError::ParseError(_))));
}

#[test]
fn trainee_parser_errors_on_short_aptitude() {
    let mut item = valid_item();
    item["aptitude"] = parse(r#"["A", "B", "C"]"#);
    let html = make_next_data(item);
    let result = parse_character_page(&html);
    assert!(matches!(result, Err(ScraperError::ParseError(_))));
}

#[test]
fn trainee_parser_handles_missing_skill_categories() {
    let mut item = valid_item();
    item.as_object_mut().unwrap().remove("skills_event");
    item.as_object_mut().unwrap().remove("skills_awakening");
    let html = make_next_data(item);
    let uma = parse_character_page(&html).unwrap();
    assert_eq!(uma.skill_list.len(), 3);
}

#[test]
fn next_data_json_hands_out_the_script_text() {
    let html = r#"<html><head><script id="__NEXT_DATA__">{"a": 1}</script></head></html>"#;
    assert_eq!(next_data_json(html).unwrap(), r#"{"a": 1}"#);
    let missing = next_data_json("<html></html>").unwrap_err();
    assert_eq!(missing.kind(), ErrorKind::Parse);
    assert_eq!(parse_error_message(Err(missing)), "__NEXT_DATA__ script not found");
}

#[test]
fn skills_come_in_category_order() {
    let uma = parse_character_page(&make_next_data(valid_item())).unwrap();
    let ids: Vec<u32> = uma.skill_list.iter().map(|s| s.id.0).collect();
    assert_eq!(ids, vec![100201, 200881, 201192, 201522, 200891, 200742]);
    assert!(matches!(uma.skill_list[0].acquisition, SkillAcquisition::Unique));
    assert!(matches!(uma.skill_list[1].acquisition, SkillAcquisition::Innate));
    assert!(matches!(uma.skill_list[3].acquisition, SkillAcquisition::Awakening));
    assert!(matches!(uma.skill_list[5].acquisition, SkillAcquisition::Event));
}

#[test]
fn error_messages_name_the_failing_field() {
    let mut item = valid_item();
    item.as_object_mut().unwrap().remove("card_id");
    assert_eq!(parse_error_message(parse_character_page(&make_next_data(item))), "missing card_id");

    let mut item = valid_item();
    item["name_en"] = Value::from(5);
    assert_eq!(parse_error_message(parse_character_page(&make_next_data(item))), "missing name_en");

    let mut item = valid_item();
    item.as_object_mut().unwrap().remove("title_en_gl");
    assert_eq!(parse_error_message(parse_character_page(&make_next_data(item))), "missing title_en_gl");

    let mut item = valid_item();
    item["rarity"] = Value::from(99);
    assert_eq!(parse_error_message(parse_character_page(&make_next_data(item))), "unknown rarity value: 99");

    let mut item = valid_item();
    item["base_stats"] = Value::from("fast");
    assert_eq!(parse_error_message(parse_character_page(&make_next_data(item))), "base_stats is not an array");

    let mut item = valid_item();
    item["base_stats"] = parse("[98, 98, 88]");
    assert_eq!(parse_error_message(parse_character_page(&make_next_data(item))), "base_stats has fewer than 5 elements");

    let mut item = valid_item();
    item["base_stats"] = parse(r#"[98, "x", 88, 83, 83]"#);
    assert_eq!(parse_error_message(parse_character_page(&make_next_data(item))), "base_stats element is not a number");

    let mut item = valid_item();
    item["aptitude"] = Value::Null;
    assert_eq!(parse_error_message(parse_character_page(&make_next_data(item))), "aptitude is not an array");

    let mut item = valid_item();
    item["aptitude"] = parse(r#"["A", "B", "C"]"#);
    assert_eq!(parse_error_message(parse_character_page(&make_next_data(item))), "aptitude has fewer than 10 elements");

    let mut item = valid_item();
    item["aptitude"] = parse(r#"["A", "G", "G", "C", "S", "A", "A", "B", "D", "E"]"#);
    assert_eq!(parse_error_message(parse_character_page(&make_next_data(item))), r#"unknown aptitude level: "S""#);

    let mut item = valid_item();
    item["skills_innate"] = parse(r#"[200881, "x"]"#);
    assert_eq!(parse_error_message(parse_character_page(&make_next_data(item))), "invalid skill id in skills_innate");
}

#[test]
fn a_document_without_item_data_misses_the_card_id() {
    let root = to_json(&parse(r#"{"props": {}}"#));
    assert_eq!(parse_error_message(parse_character_data(&root)), "missing card_id");
}
