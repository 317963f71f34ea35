use uma::models::racetrack::RacetrackName;
use uma::models::skill::EffectType;
use uma::models::support_card::{EffectValue, LbValues};
use uma::models::uma::UmaRarity;
use uma::scraping::racetracks::parse_racetrack_name;
use uma::scraping::skills::text_num_text;
use uma::support_card_skill::HintAcquisition;
use uma::uma_skill::SkillAcquisition;
use uma::ids::SkillId;

#[test]
fn effect_from_raw_normalizes_to_ten_thousand() {
    assert_eq!(EffectType::from_raw(1, 60), Some(EffectType::SpeedUp(600)));
    assert_eq!(EffectType::from_raw(27, 3500), Some(EffectType::TargetSpeedUp(3500)));
    assert_eq!(EffectType::from_raw(35, 1), Some(EffectType::ChangeLane(100)));
    assert_eq!(EffectType::from_raw(6, 0), Some(EffectType::RunawaySkill));
    assert_eq!(EffectType::from_raw(7, 10), None);
}

#[test]
fn effect_names_and_values() {
    assert_eq!(EffectType::TargetSpeedUp(3500).kind_name(), "Increase Target Speed");
    assert_eq!(EffectType::TargetSpeedUp(3500).value(), Some(3500));
    assert_eq!(EffectType::DebuffImmunity.value(), None);
    assert_eq!(EffectType::DebuffImmunity.kind_name(), "Debuff Immunity");
}

#[test]
fn effect_display_text() {
    assert_eq!(EffectType::SpeedUp(20000).display_text(), "Speed +2");
    assert_eq!(EffectType::TargetSpeedUp(3500).display_text(), "Target Speed +0.35");
    assert_eq!(EffectType::AccelerationUp(2000).display_text(), "Acceleration +0.2");
    assert_eq!(EffectType::StaminaRecovery(150).display_text(), "Stamina Recovery +0.0150");
    assert_eq!(EffectType::StaminaRecovery(155).display_text(), "Stamina Recovery +0.0155");
    assert_eq!(EffectType::CurrentSpeedDown(-1500).display_text(), "Current Speed -0.15");
    assert_eq!(EffectType::ChangeLane(-10000).display_text(), "Change Lane -1");
    assert_eq!(EffectType::RunawaySkill.display_text(), "Runaway");
}

#[test]
fn effect_display_matches_float_formatting() {
    for v in [1i32, 7, 50, 155, 1000, 1234, 25000, 123456, -3, -500, -12345, 99999] {
        let f = v as f64 / 10000.0;
        let expected = if v % 10000 == 0 {
            format!("{}", v / 10000)
        } else if v % 1000 == 0 {
            format!("{:.1}", f)
        } else if v % 100 == 0 {
            format!("{:.2}", f)
        } else {
            format!("{:.4}", f)
        };
        assert_eq!(EffectType::WitUp(v).display_text(), format!("Wit +{}", expected));
    }
}

#[test]
fn effect_value_ids_round_trip() {
    let v = LbValues { lb0: Some(1), lb1: None, lb2: Some(3), lb3: None, mlb: Some(5) };
    assert_eq!(EffectValue::from_id(41, v), Some(EffectValue::AllStatsBonus(v)));
    assert_eq!(EffectValue::from_id(34, v), None);
    assert_eq!(EffectValue::from_id(1, v), Some(EffectValue::FriendshipBonus(v)));
}

#[test]
fn rarity_stars_and_names() {
    assert_eq!(UmaRarity::SSR.stars(), "⭐⭐⭐");
    assert_eq!(UmaRarity::R.stars(), "⭐");
    assert_eq!(HintAcquisition::Hint.as_str(), "hint");
    assert_eq!(HintAcquisition::Event.as_str(), "event");
}

#[test]
fn evolved_from_only_for_evolutions() {
    assert_eq!(SkillAcquisition::Evolution(SkillId(5)).evolved_from(), Some(SkillId(5)));
    assert_eq!(SkillAcquisition::Innate.evolved_from(), None);
}

#[test]
fn racetrack_names() {
    assert_eq!(parse_racetrack_name(10006).unwrap(), RacetrackName::Tokyo);
    assert_eq!(parse_racetrack_name(10201).unwrap(), RacetrackName::Longchamp);
    assert!(parse_racetrack_name(1).is_err());
    assert_eq!(RacetrackName::Tokyo.display_name(), "Tokyo");
}

#[test]
fn text_around_a_number() {
    assert_eq!(text_num_text("id ", 42, "!"), "id 42!");
}

fn every_kind(v: i32) -> Vec<EffectType> {
    vec![
        EffectType::SpeedUp(v),
        EffectType::StaminaUp(v),
        EffectType::PowerUp(v),
        EffectType::GutsUp(v),
        EffectType::WitUp(v),
        EffectType::AllStatsUp(v),
        EffectType::CurrentSpeedUp(v),
        EffectType::CurrentSpeedDown(v),
        EffectType::TargetSpeedUp(v),
        EffectType::ZenkaiSpurtAcceleration(v),
        EffectType::AccelerationUp(v),
        EffectType::StaminaRecovery(v),
        EffectType::FieldOfViewUp(v),
        EffectType::LaneChangeSpeed(v),
        EffectType::ChangeLane(v),
        EffectType::StartReactionImprovement(v),
        EffectType::StartDelayAdded(v),
        EffectType::RushTimeIncrease(v),
        EffectType::RushChanceDecrease(v),
        EffectType::UseRandomRareSkills(v),
        EffectType::EvolvedSkillDurationUp(v),
        EffectType::RunawaySkill,
        EffectType::DebuffImmunity,
        EffectType::ActivateRelatedSkillsOnAllUma,
    ]
}

#[test]
fn kind_names_distinguish_kinds_and_ignore_magnitude() {
    let small = every_kind(1);
    let large = every_kind(-25000);
    for (i, a) in small.iter().enumerate() {
        assert_eq!(a.kind_name(), large[i].kind_name());
        for (j, b) in small.iter().enumerate() {
            if i != j {
                assert_ne!(a.kind_name(), b.kind_name());
            }
        }
    }
}
