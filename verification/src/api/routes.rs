//! What the routes hand back: the names of support card effects, and the
//! rows of the database turned into the API's answers.
use crate::api::models::{CardEffect, CardSkill, SkillCondition, SkillSummary, UmaSkillEntry};
use crate::db::types::{ConditionRow, SkillFilter, SkillRow, UmaSkillRow};
use crate::api::models::SkillQueryParams;
use crate::models::support_card::spec_effect_value_from_id;
use crate::models::support_card::LbValues;
use vstd::prelude::*;

verus! {

/// The name of the support card effect with id `id`; `Unknown` for an id
/// that names no effect.
pub open spec fn spec_effect_name(id: i32) -> Seq<char> {
    if id == 1 {
        "Friendship Bonus"@
    } else if id == 2 {
        "Mood Effect"@
    } else if id == 3 {
        "Speed Bonus"@
    } else if id == 4 {
        "Stamina Bonus"@
    } else if id == 5 {
        "Power Bonus"@
    } else if id == 6 {
        "Guts Bonus"@
    } else if id == 7 {
        "Wit Bonus"@
    } else if id == 8 {
        "Training Effectiveness"@
    } else if id == 9 {
        "Initial Speed"@
    } else if id == 10 {
        "Initial Stamina"@
    } else if id == 11 {
        "Initial Power"@
    } else if id == 12 {
        "Initial Guts"@
    } else if id == 13 {
        "Initial Wit"@
    } else if id == 14 {
        "Initial Friendship Gauge"@
    } else if id == 15 {
        "Race Bonus"@
    } else if id == 16 {
        "Fan Bonus"@
    } else if id == 17 {
        "Hint Levels"@
    } else if id == 18 {
        "Hint Frequency"@
    } else if id == 19 {
        "Specialty Priority"@
    } else if id == 20 {
        "Max Speed"@
    } else if id == 21 {
        "Max Stamina"@
    } else if id == 22 {
        "Max Power"@
    } else if id == 23 {
        "Max Guts"@
    } else if id == 24 {
        "Max Wit"@
    } else if id == 25 {
        "Event Recovery"@
    } else if id == 26 {
        "Event Effectiveness"@
    } else if id == 27 {
        "Failure Protection"@
    } else if id == 28 {
        "Energy Cost Reduction"@
    } else if id == 29 {
        "Minigame Effectiveness"@
    } else if id == 30 {
        "Skill Point Bonus"@
    } else if id == 31 {
        "Wit Friendship Recovery"@
    } else if id == 32 {
        "Initial Skill Points"@
    } else if id == 33 {
        "Hint Quantity Bonus"@
    } else if id == 41 {
        "All Stats Bonus"@
    } else {
        "Unknown"@
    }
}

/// The name of the support card effect with id `id`.
pub fn effect_id_to_name(id: i32) -> (r: &'static str)
    ensures
        r@ == spec_effect_name(id),
{
    match id {
        1 => "Friendship Bonus",
        2 => "Mood Effect",
        3 => "Speed Bonus",
        4 => "Stamina Bonus",
        5 => "Power Bonus",
        6 => "Guts Bonus",
        7 => "Wit Bonus",
        8 => "Training Effectiveness",
        9 => "Initial Speed",
        10 => "Initial Stamina",
        11 => "Initial Power",
        12 => "Initial Guts",
        13 => "Initial Wit",
        14 => "Initial Friendship Gauge",
        15 => "Race Bonus",
        16 => "Fan Bonus",
        17 => "Hint Levels",
        18 => "Hint Frequency",
        19 => "Specialty Priority",
        20 => "Max Speed",
        21 => "Max Stamina",
        22 => "Max Power",
        23 => "Max Guts",
        24 => "Max Wit",
        25 => "Event Recovery",
        26 => "Event Effectiveness",
        27 => "Failure Protection",
        28 => "Energy Cost Reduction",
        29 => "Minigame Effectiveness",
        30 => "Skill Point Bonus",
        31 => "Wit Friendship Recovery",
        32 => "Initial Skill Points",
        33 => "Hint Quantity Bonus",
        41 => "All Stats Bonus",
        _ => "Unknown",
    }
}

/// The API names exactly the effects that the model knows: an id gets a
/// name other than `Unknown` if and only if it is the id of an effect.
pub proof fn law_effect_names_match_effect_ids(id: i32, values: LbValues)
    ensures
        (spec_effect_name(id) == "Unknown"@) <==> spec_effect_value_from_id(id as u32, values) is None,
{
    reveal_strlit("Friendship Bonus");
    reveal_strlit("Mood Effect");
    reveal_strlit("Speed Bonus");
    reveal_strlit("Stamina Bonus");
    reveal_strlit("Power Bonus");
    reveal_strlit("Guts Bonus");
    reveal_strlit("Wit Bonus");
    reveal_strlit("Training Effectiveness");
    reveal_strlit("Initial Speed");
    reveal_strlit("Initial Stamina");
    reveal_strlit("Initial Power");
    reveal_strlit("Initial Guts");
    reveal_strlit("Initial Wit");
    reveal_strlit("Initial Friendship Gauge");
    reveal_strlit("Race Bonus");
    reveal_strlit("Fan Bonus");
    reveal_strlit("Hint Levels");
    reveal_strlit("Hint Frequency");
    reveal_strlit("Specialty Priority");
    reveal_strlit("Max Speed");
    reveal_strlit("Max Stamina");
    reveal_strlit("Max Power");
    reveal_strlit("Max Guts");
    reveal_strlit("Max Wit");
    reveal_strlit("Event Recovery");
    reveal_strlit("Event Effectiveness");
    reveal_strlit("Failure Protection");
    reveal_strlit("Energy Cost Reduction");
    reveal_strlit("Minigame Effectiveness");
    reveal_strlit("Skill Point Bonus");
    reveal_strlit("Wit Friendship Recovery");
    reveal_strlit("Initial Skill Points");
    reveal_strlit("Hint Quantity Bonus");
    reveal_strlit("All Stats Bonus");
    reveal_strlit("Unknown");
    if 0 <= id {
        assert(id as u32 == id);
    } else {
        assert(id as u32 > 41) by (bit_vector)
            requires
                id < 0;
    }
    assert("Friendship Bonus"@ != "Unknown"@ ) by { assert("Friendship Bonus"@.len() != 7 || "Friendship Bonus"@[0] != 'U'); }
    assert("Mood Effect"@ != "Unknown"@ ) by { assert("Mood Effect"@.len() != 7 || "Mood Effect"@[0] != 'U'); }
    assert("Speed Bonus"@ != "Unknown"@ ) by { assert("Speed Bonus"@.len() != 7 || "Speed Bonus"@[0] != 'U'); }
    assert("Stamina Bonus"@ != "Unknown"@ ) by { assert("Stamina Bonus"@.len() != 7 || "Stamina Bonus"@[0] != 'U'); }
    assert("Power Bonus"@ != "Unknown"@ ) by { assert("Power Bonus"@.len() != 7 || "Power Bonus"@[0] != 'U'); }
    assert("Guts Bonus"@ != "Unknown"@ ) by { assert("Guts Bonus"@.len() != 7 || "Guts Bonus"@[0] != 'U'); }
    assert("Wit Bonus"@ != "Unknown"@ ) by { assert("Wit Bonus"@.len() != 7 || "Wit Bonus"@[0] != 'U'); }
    assert("Training Effectiveness"@ != "Unknown"@ ) by { assert("Training Effectiveness"@.len() != 7 || "Training Effectiveness"@[0] != 'U'); }
    assert("Initial Speed"@ != "Unknown"@ ) by { assert("Initial Speed"@.len() != 7 || "Initial Speed"@[0] != 'U'); }
    assert("Initial Stamina"@ != "Unknown"@ ) by { assert("Initial Stamina"@.len() != 7 || "Initial Stamina"@[0] != 'U'); }
    assert("Initial Power"@ != "Unknown"@ ) by { assert("Initial Power"@.len() != 7 || "Initial Power"@[0] != 'U'); }
    assert("Initial Guts"@ != "Unknown"@ ) by { assert("Initial Guts"@.len() != 7 || "Initial Guts"@[0] != 'U'); }
    assert("Initial Wit"@ != "Unknown"@ ) by { assert("Initial Wit"@.len() != 7 || "Initial Wit"@[0] != 'U'); }
    assert("Initial Friendship Gauge"@ != "Unknown"@ ) by { assert("Initial Friendship Gauge"@.len() != 7 || "Initial Friendship Gauge"@[0] != 'U'); }
    assert("Race Bonus"@ != "Unknown"@ ) by { assert("Race Bonus"@.len() != 7 || "Race Bonus"@[0] != 'U'); }
    assert("Fan Bonus"@ != "Unknown"@ ) by { assert("Fan Bonus"@.len() != 7 || "Fan Bonus"@[0] != 'U'); }
    assert("Hint Levels"@ != "Unknown"@ ) by { assert("Hint Levels"@.len() != 7 || "Hint Levels"@[0] != 'U'); }
    assert("Hint Frequency"@ != "Unknown"@ ) by { assert("Hint Frequency"@.len() != 7 || "Hint Frequency"@[0] != 'U'); }
    assert("Specialty Priority"@ != "Unknown"@ ) by { assert("Specialty Priority"@.len() != 7 || "Specialty Priority"@[0] != 'U'); }
    assert("Max Speed"@ != "Unknown"@ ) by { assert("Max Speed"@.len() != 7 || "Max Speed"@[0] != 'U'); }
    assert("Max Stamina"@ != "Unknown"@ ) by { assert("Max Stamina"@.len() != 7 || "Max Stamina"@[0] != 'U'); }
    assert("Max Power"@ != "Unknown"@ ) by { assert("Max Power"@.len() != 7 || "Max Power"@[0] != 'U'); }
    assert("Max Guts"@ != "Unknown"@ ) by { assert("Max Guts"@.len() != 7 || "Max Guts"@[0] != 'U'); }
    assert("Max Wit"@ != "Unknown"@ ) by { assert("Max Wit"@.len() != 7 || "Max Wit"@[0] != 'U'); }
    assert("Event Recovery"@ != "Unknown"@ ) by { assert("Event Recovery"@.len() != 7 || "Event Recovery"@[0] != 'U'); }
    assert("Event Effectiveness"@ != "Unknown"@ ) by { assert("Event Effectiveness"@.len() != 7 || "Event Effectiveness"@[0] != 'U'); }
    assert("Failure Protection"@ != "Unknown"@ ) by { assert("Failure Protection"@.len() != 7 || "Failure Protection"@[0] != 'U'); }
    assert("Energy Cost Reduction"@ != "Unknown"@ ) by { assert("Energy Cost Reduction"@.len() != 7 || "Energy Cost Reduction"@[0] != 'U'); }
    assert("Minigame Effectiveness"@ != "Unknown"@ ) by { assert("Minigame Effectiveness"@.len() != 7 || "Minigame Effectiveness"@[0] != 'U'); }
    assert("Skill Point Bonus"@ != "Unknown"@ ) by { assert("Skill Point Bonus"@.len() != 7 || "Skill Point Bonus"@[0] != 'U'); }
    assert("Wit Friendship Recovery"@ != "Unknown"@ ) by { assert("Wit Friendship Recovery"@.len() != 7 || "Wit Friendship Recovery"@[0] != 'U'); }
    assert("Initial Skill Points"@ != "Unknown"@ ) by { assert("Initial Skill Points"@.len() != 7 || "Initial Skill Points"@[0] != 'U'); }
    assert("Hint Quantity Bonus"@ != "Unknown"@ ) by { assert("Hint Quantity Bonus"@.len() != 7 || "Hint Quantity Bonus"@[0] != 'U'); }
    assert("All Stats Bonus"@ != "Unknown"@ ) by { assert("All Stats Bonus"@.len() != 7 || "All Stats Bonus"@[0] != 'U'); }
}

/// A support card effect as the API shows it, named by its id.
pub fn card_effect(effect_id: i32, lb0: Option<i32>, lb1: Option<i32>, lb2: Option<i32>, lb3: Option<i32>, mlb: Option<i32>) -> (r: CardEffect)
    ensures
        r.effect_name@ == spec_effect_name(effect_id),
        r.lb0 == lb0 && r.lb1 == lb1 && r.lb2 == lb2 && r.lb3 == lb3 && r.mlb == mlb,
{
    CardEffect { effect_name: String::from_str(effect_id_to_name(effect_id)), lb0, lb1, lb2, lb3, mlb }
}

/// A support card skill as the API shows it.
pub fn card_skill(skill_id: i32, acquisition: &str) -> (r: CardSkill)
    ensures
        r.skill_id == skill_id,
        r.acquisition@ == acquisition@,
{
    CardSkill { skill_id, acquisition: acquisition.to_owned() }
}

/// The listing filter that the query asks for.
pub fn skill_filter(params: SkillQueryParams) -> (r: SkillFilter)
    ensures
        r.category == params.category,
        r.rarity == params.rarity,
        r.is_jp_only == params.is_jp_only,
        r.effect_type == params.effect_type,
{
    SkillFilter {
        category: params.category,
        rarity: params.rarity,
        is_jp_only: params.is_jp_only,
        effect_type: params.effect_type,
    }
}

/// A skill of the listing, its category and rarity by name.
pub fn skill_summary(row: SkillRow) -> (r: SkillSummary)
    ensures
        r.id == row.id,
        r.name == row.name,
        r.category@ == row.category.spec_as_str(),
        r.rarity@ == row.rarity.spec_as_str(),
        r.sp_cost == row.sp_cost,
        r.is_jp_only == row.is_jp_only,
{
    SkillSummary {
        id: row.id,
        category: String::from_str(row.category.as_str()),
        rarity: String::from_str(row.rarity.as_str()),
        name: row.name,
        sp_cost: row.sp_cost,
        is_jp_only: row.is_jp_only,
    }
}

/// A skill of a trainee, its category, rarity and acquisition by name.
pub fn uma_skill_entry(row: UmaSkillRow) -> (r: UmaSkillEntry)
    ensures
        r.id == row.id,
        r.name == row.name,
        r.category@ == row.category.spec_as_str(),
        r.rarity@ == row.rarity.spec_as_str(),
        r.sp_cost == row.sp_cost,
        r.acquisition@ == row.acquisition.spec_as_str(),
        r.evolved_from == row.evolved_from,
{
    UmaSkillEntry {
        id: row.id,
        category: String::from_str(row.category.as_str()),
        rarity: String::from_str(row.rarity.as_str()),
        acquisition: String::from_str(row.acquisition.as_str()),
        name: row.name,
        sp_cost: row.sp_cost,
        evolved_from: row.evolved_from,
    }
}

/// A trigger condition, its operator by name.
pub fn skill_condition(row: ConditionRow) -> (r: SkillCondition)
    ensures
        r.cond_key == row.cond_key,
        r.operator@ == row.operator.spec_as_str(),
        r.cond_val == row.cond_val,
        r.is_or == row.is_or,
{
    SkillCondition {
        operator: String::from_str(row.operator.as_str()),
        cond_key: row.cond_key,
        cond_val: row.cond_val,
        is_or: row.is_or,
    }
}

} // verus!
