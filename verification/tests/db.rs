use uma::db::skill_repo::{
    rows_of_trigger,
    condition_type_columns, conditions_of_trigger, skill_columns, skill_query, trigger_child_columns,
    trigger_skill_ids, SkillQueryArg, TriggerConditionRecord,
};
use uma::db::support_card_repo::{
    card_rarity_label, card_type_label,
    card_effect_columns, card_skill_columns, effect_value_to_id, effect_value_to_lb_values, support_card_columns,
};
use uma::db::types::{
    DbAptitudeLevel, DbSkillAcquisition, DbSkillCategory, DbSkillOperator, DbSkillRarity, DbUmaRarity, SkillFilter,
};
use uma::db::uma_repo::{uma_columns, uma_skill_columns};
use uma::dates::Date;
use uma::ids::{SkillId, SupportCardId, UmaId};
use uma::models::skill::{Category, Condition, ConditionType, Effect, EffectType, Operator, Rarity, Skill};
use uma::models::support_card::{CardType, EffectValue, LbValues, Rarity as CardRarity, SupportCard};
use uma::models::uma::{
    AptitudeLevel, Aptitudes, BaseStats, DistanceAptitudes, GrowthRates, StrategyAptitudes, SurfaceAptitudes, Uma,
    UmaRarity,
};
use uma::support_card_skill::{HintAcquisition, SupportCardSkill};
use uma::uma_skill::{SkillAcquisition, UmaSkill};

fn condition(key: &str, op: Operator, val: &str, is_or: bool) -> Condition {
    Condition { cond_key: key.to_string(), operator: op, cond_val: val.to_string(), is_or }
}

fn skill(id: u32, triggers: Vec<Effect>) -> Skill {
    Skill {
        id: SkillId(id),
        name: format!("skill {id}"),
        ingame_description: "desc".to_string(),
        category: Category::Velocity,
        rarity: Rarity::Rare,
        sp_cost: 180,
        effects: triggers,
        is_jp_only: false,
    }
}

fn trigger(effects: Vec<EffectType>, conditions: Vec<Condition>, preconditions: Vec<Condition>) -> Effect {
    Effect { effects, conditions, preconditions }
}

#[test]
fn db_enums_convert_and_name() {
    assert_eq!(DbSkillCategory::from(Category::SpeedDebuff), DbSkillCategory::SpeedDebuff);
    assert_eq!(DbSkillCategory::SpeedDebuff.as_str(), "speed_debuff");
    assert_eq!(DbSkillRarity::from(Rarity::Evolution).as_str(), "evolution");
    assert_eq!(DbSkillOperator::from(Operator::GtEq).as_str(), "gt_eq");
    assert_eq!(DbUmaRarity::from(UmaRarity::SSR).as_str(), "ssr");
    assert_eq!(DbAptitudeLevel::from(AptitudeLevel::B).as_str(), "B");
    assert_eq!(DbSkillAcquisition::from(SkillAcquisition::Evolution(SkillId(3))), DbSkillAcquisition::Evolution);
    assert_eq!(DbSkillAcquisition::Awakening.as_str(), "awakening");
}

#[test]
fn condition_type_columns_follow_the_input() {
    let types = vec![
        ConditionType { cond_key: "a".to_string(), description: "da".to_string(), example: None },
        ConditionType { cond_key: "b".to_string(), description: "db".to_string(), example: Some("ex".to_string()) },
    ];
    let c = condition_type_columns(&types);
    assert_eq!(c.cond_keys, vec!["a".to_string(), "b".to_string()]);
    assert_eq!(c.descriptions, vec!["da".to_string(), "db".to_string()]);
    assert_eq!(c.examples, vec![None, Some("ex".to_string())]);
}

#[test]
fn skill_and_trigger_columns() {
    let skills = vec![
        skill(
            10071,
            vec![
                trigger(
                    vec![EffectType::TargetSpeedUp(4500), EffectType::RunawaySkill],
                    vec![condition("distance_rate", Operator::GtEq, "50", false)],
                    vec![condition("phase", Operator::GtEq, "2", false)],
                ),
                trigger(vec![EffectType::SpeedUp(600)], vec![], vec![]),
            ],
        ),
        skill(10072, vec![]),
        skill(10073, vec![trigger(vec![EffectType::WitUp(10)], vec![condition("order", Operator::Lt, "3", true)], vec![])]),
    ];
    let cols = skill_columns(&skills);
    assert_eq!(cols.ids, vec![10071, 10072, 10073]);
    assert_eq!(cols.categories, vec![DbSkillCategory::Velocity; 3]);
    assert_eq!(cols.sp_costs, vec![180; 3]);
    assert_eq!(trigger_skill_ids(&skills), vec![10071, 10071, 10073]);

    let child = trigger_child_columns(&skills, &[7, 8, 9]);
    assert_eq!(child.effect_trigger_ids, vec![7, 7, 8, 9]);
    assert_eq!(child.effect_types, vec!["Increase Target Speed", "Runaway", "Speed Up", "Wit Up"]);
    assert_eq!(child.effect_values, vec![Some(4500), None, Some(600), Some(10)]);
    assert_eq!(child.cond_trigger_ids, vec![7, 7, 9]);
    assert_eq!(child.cond_keys, vec!["distance_rate".to_string(), "phase".to_string(), "order".to_string()]);
    assert_eq!(child.cond_operators, vec![DbSkillOperator::GtEq, DbSkillOperator::GtEq, DbSkillOperator::Lt]);
    assert_eq!(child.cond_is_preconditions, vec![false, true, false]);
    assert_eq!(child.cond_is_ors, vec![false, false, true]);

    let fewer = trigger_child_columns(&skills, &[7]);
    assert_eq!(fewer.effect_trigger_ids, vec![7, 7]);
    assert_eq!(fewer.cond_trigger_ids, vec![7, 7]);
}

#[test]
fn skill_query_numbers_its_parameters() {
    let all = skill_query(&SkillFilter { category: None, rarity: None, is_jp_only: None, effect_type: None });
    assert_eq!(
        all.0,
        "SELECT DISTINCT s.id, s.name, s.category, s.rarity, s.sp_cost, s.is_jp_only\n         FROM skills s WHERE 1=1 ORDER BY s.name"
    );
    assert!(all.1.is_empty());
    let some = skill_query(&SkillFilter {
        category: None,
        rarity: Some(DbSkillRarity::Rare),
        is_jp_only: Some(false),
        effect_type: Some("speed".to_string()),
    });
    assert_eq!(
        some.0,
        "SELECT DISTINCT s.id, s.name, s.category, s.rarity, s.sp_cost, s.is_jp_only\n         FROM skills s \
         JOIN skill_triggers st ON st.skill_id = s.id JOIN skill_trigger_effects ste ON ste.trigger_id = st.id \
         WHERE 1=1 AND s.rarity = $1 AND s.is_jp_only = $2 AND ste.effect_type ILIKE $3 ORDER BY s.name"
    );
    assert_eq!(some.1.len(), 3);
    assert!(matches!(some.1[0], SkillQueryArg::Rarity(DbSkillRarity::Rare)));
    assert!(matches!(some.1[1], SkillQueryArg::JpOnly(false)));
    assert!(matches!(&some.1[2], SkillQueryArg::Pattern(p) if p == "%speed%"));
}

#[test]
fn trigger_conditions_split_by_kind() {
    let rec = |trigger_id: i32, key: &str, pre: bool| TriggerConditionRecord {
        trigger_id,
        cond_key: key.to_string(),
        operator: DbSkillOperator::Eq,
        cond_val: "1".to_string(),
        is_precondition: pre,
        is_or: false,
    };
    let all = vec![rec(1, "a", false), rec(2, "b", true), rec(1, "c", true), rec(1, "d", false)];
    let (pre, main) = conditions_of_trigger(&all, 1);
    assert_eq!(pre.iter().map(|c| c.cond_key.as_str()).collect::<Vec<_>>(), vec!["c"]);
    assert_eq!(main.iter().map(|c| c.cond_key.as_str()).collect::<Vec<_>>(), vec!["a", "d"]);
}

fn uma(id: u32, skills: Vec<UmaSkill>) -> Uma {
    Uma {
        id: UmaId(id),
        name: "Seiun Sky".to_string(),
        subtitle: "default".to_string(),
        rarity: UmaRarity::SSR,
        base_stats: BaseStats { speed: 98, stamina: 98, power: 88, guts: 83, wit: 83 },
        growth_rates: GrowthRates { speed: 20, stamina: 0, power: 10, guts: 0, wit: 20 },
        aptitudes: Aptitudes {
            surface: SurfaceAptitudes { turf: AptitudeLevel::A, dirt: AptitudeLevel::G },
            distance: DistanceAptitudes {
                short: AptitudeLevel::G,
                mile: AptitudeLevel::C,
                medium: AptitudeLevel::A,
                long: AptitudeLevel::A,
            },
            strategy: StrategyAptitudes {
                front: AptitudeLevel::A,
                pace: AptitudeLevel::B,
                late: AptitudeLevel::D,
                end: AptitudeLevel::E,
            },
        },
        skill_list: skills,
        release_date: Date { year: 2025, month: 6, day: 26 },
        is_predicted_date: false,
    }
}

#[test]
fn uma_columns_and_skills() {
    let umas = vec![
        uma(
            102001,
            vec![
                UmaSkill { id: SkillId(100201), acquisition: SkillAcquisition::Unique },
                UmaSkill { id: SkillId(102001111), acquisition: SkillAcquisition::Evolution(SkillId(201191)) },
            ],
        ),
        uma(102002, vec![]),
    ];
    let cols = uma_columns(&umas);
    assert_eq!(cols.ids, vec![102001, 102002]);
    assert_eq!(cols.rarities, vec![DbUmaRarity::SSR; 2]);
    assert_eq!(cols.stat_powers, vec![88, 88]);
    assert_eq!(cols.growth_wits, vec![20, 20]);
    assert_eq!(cols.apt_miles, vec![DbAptitudeLevel::C; 2]);
    assert_eq!(cols.apt_ends, vec![DbAptitudeLevel::E; 2]);
    let links = uma_skill_columns(&umas);
    assert_eq!(links.uma_ids, vec![102001, 102001]);
    assert_eq!(links.skill_ids, vec![100201, 102001111]);
    assert_eq!(links.acquisitions, vec![DbSkillAcquisition::Unique, DbSkillAcquisition::Evolution]);
    assert_eq!(links.evolved_froms, vec![None, Some(201191)]);
}

#[test]
fn support_card_columns_effects_and_skills() {
    let lbs = LbValues { lb0: Some(10), lb1: Some(11), lb2: None, lb3: Some(15), mlb: Some(15) };
    let card = SupportCard {
        id: SupportCardId(10001),
        char_id: 1001,
        char_name: "Special Week".to_string(),
        title: "[Tracen Academy]".to_string(),
        card_type: CardType::Guts,
        rarity: CardRarity::R,
        is_welfare: false,
        release_date: Some(Date { year: 2025, month: 6, day: 26 }),
        is_predicted_date: false,
        unique_effect: None,
        effects: vec![EffectValue::FriendshipBonus(lbs), EffectValue::AllStatsBonus(lbs)],
        skills: vec![
            SupportCardSkill { skill_id: SkillId(200042), acquisition: HintAcquisition::Event },
            SupportCardSkill { skill_id: SkillId(200162), acquisition: HintAcquisition::Hint },
        ],
    };
    let cards = vec![card];
    let cols = support_card_columns(&cards);
    assert_eq!(cols.support_ids, vec![10001]);
    assert_eq!(cols.card_types, vec![CardType::Guts]);
    let effects = card_effect_columns(&cards);
    assert_eq!(effects.effect_ids, vec![1, 41]);
    assert_eq!(effects.lb1s, vec![Some(11), Some(11)]);
    assert_eq!(effects.lb2s, vec![None, None]);
    let skills = card_skill_columns(&cards);
    assert_eq!(skills.skill_ids, vec![200042, 200162]);
    assert_eq!(skills.acquisitions, vec!["event".to_string(), "hint".to_string()]);
    assert_eq!(effect_value_to_id(&EffectValue::HintQuantityBonus(lbs)), 33);
    assert_eq!(*effect_value_to_lb_values(&EffectValue::MaxWit(lbs)), lbs);
}

#[test]
fn stored_effects_read_back() {
    let lbs = LbValues { lb0: None, lb1: Some(1), lb2: Some(2), lb3: Some(3), mlb: Some(4) };
    for e in [EffectValue::MoodEffect(lbs), EffectValue::InitialSkillPoints(lbs), EffectValue::AllStatsBonus(lbs)] {
        let id = effect_value_to_id(&e);
        assert_eq!(EffectValue::from_id(id as u32, *effect_value_to_lb_values(&e)), Some(e));
    }
}

#[test]
fn card_labels_name_each_type_and_rarity() {
    let types = [
        (CardType::Speed, "speed"),
        (CardType::Stamina, "stamina"),
        (CardType::Power, "power"),
        (CardType::Guts, "guts"),
        (CardType::Wit, "intelligence"),
        (CardType::Friend, "friend"),
        (CardType::Group, "group"),
    ];
    for (t, label) in types.iter() {
        assert_eq!(card_type_label(t), *label);
    }
    assert_eq!(card_rarity_label(&CardRarity::R), "r");
    assert_eq!(card_rarity_label(&CardRarity::SR), "sr");
    assert_eq!(card_rarity_label(&CardRarity::SSR), "ssr");
    let mut labels: Vec<&str> = types.iter().map(|(t, _)| card_type_label(t)).collect();
    labels.sort();
    labels.dedup();
    assert_eq!(labels.len(), 7);
}

#[test]
fn effect_rows_are_found_per_trigger_in_order() {
    let ids = [7, 3, 7, 9, 7];
    assert_eq!(rows_of_trigger(&ids, 7), vec![0, 2, 4]);
    assert_eq!(rows_of_trigger(&ids, 3), vec![1]);
    assert!(rows_of_trigger(&ids, 5).is_empty());
    assert!(rows_of_trigger(&[], 7).is_empty());
}

#[test]
fn aptitude_levels_are_stored_in_lower_case() {
    let all = [
        (DbAptitudeLevel::A, "a", "A"),
        (DbAptitudeLevel::B, "b", "B"),
        (DbAptitudeLevel::C, "c", "C"),
        (DbAptitudeLevel::D, "d", "D"),
        (DbAptitudeLevel::E, "e", "E"),
        (DbAptitudeLevel::F, "f", "F"),
        (DbAptitudeLevel::G, "g", "G"),
    ];
    for (level, stored, shown) in all.iter() {
        assert_eq!(level.db_label(), *stored);
        assert_eq!(level.as_str(), *shown);
    }
}
