use uma::api::auth::{authorize, ApiKey};
use uma::api::models::SkillQueryParams;
use uma::api::routes::{card_effect, card_skill, effect_id_to_name, skill_condition, skill_filter, skill_summary, uma_skill_entry};
use uma::db::types::{ConditionRow, DbSkillAcquisition, DbSkillCategory, DbSkillOperator, DbSkillRarity, SkillRow, UmaSkillRow};
use uma::models::support_card::{EffectValue, LbValues};

#[test]
fn effect_names_by_id() {
    assert_eq!(effect_id_to_name(1), "Friendship Bonus");
    assert_eq!(effect_id_to_name(33), "Hint Quantity Bonus");
    assert_eq!(effect_id_to_name(41), "All Stats Bonus");
    assert_eq!(effect_id_to_name(34), "Unknown");
    assert_eq!(effect_id_to_name(-1), "Unknown");
}

#[test]
fn every_known_effect_id_has_a_name() {
    let v = LbValues { lb0: None, lb1: None, lb2: None, lb3: None, mlb: None };
    for id in -5i32..60 {
        let known = id >= 0 && EffectValue::from_id(id as u32, v).is_some();
        assert_eq!(effect_id_to_name(id) != "Unknown", known);
    }
}

#[test]
fn api_key_is_trimmed_and_checked() {
    let key = ApiKey::new("  s3cret \n");
    assert_eq!(key.as_bytes(), b"s3cret");
    assert!(authorize(Some("Bearer s3cret"), &key));
    assert!(!authorize(Some("Bearer s3cret "), &key));
    assert!(!authorize(Some("bearer s3cret"), &key));
    assert!(!authorize(Some("s3cret"), &key));
    assert!(!authorize(Some("Bearer "), &key));
    assert!(!authorize(None, &key));
}

#[test]
fn rows_become_answers() {
    let e = card_effect(3, Some(1), None, Some(2), None, Some(4));
    assert_eq!(e.effect_name, "Speed Bonus");
    assert_eq!(e.lb2, Some(2));
    let s = card_skill(200042, "event");
    assert_eq!(s.acquisition, "event");
    let summary = skill_summary(SkillRow {
        id: 5,
        name: "n".to_string(),
        category: DbSkillCategory::AccelDebuff,
        rarity: DbSkillRarity::Unique,
        sp_cost: 100,
        is_jp_only: true,
    });
    assert_eq!(summary.category, "accel_debuff");
    assert_eq!(summary.rarity, "unique");
    assert!(summary.is_jp_only);
    let entry = uma_skill_entry(UmaSkillRow {
        id: 7,
        name: "m".to_string(),
        category: DbSkillCategory::Green,
        rarity: DbSkillRarity::Normal,
        sp_cost: 90,
        acquisition: DbSkillAcquisition::Evolution,
        evolved_from: Some(3),
    });
    assert_eq!(entry.acquisition, "evolution");
    assert_eq!(entry.evolved_from, Some(3));
    let c = skill_condition(ConditionRow {
        cond_key: "phase".to_string(),
        operator: DbSkillOperator::NotEq,
        cond_val: "2".to_string(),
        is_or: true,
    });
    assert_eq!(c.operator, "not_eq");
    assert!(c.is_or);
    let f = skill_filter(SkillQueryParams {
        category: Some(DbSkillCategory::Zenkai),
        rarity: None,
        is_jp_only: Some(true),
        effect_type: None,
    });
    assert_eq!(f.category, Some(DbSkillCategory::Zenkai));
    assert_eq!(f.is_jp_only, Some(true));
}
