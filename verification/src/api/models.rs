//! The shapes of the API's answers and of its query parameters.
use crate::db::types::{DbAptitudeLevel, DbSkillCategory, DbSkillRarity};
use vstd::prelude::*;

verus! {

/// A trainee in the index: its id, name and version (its subtitle).
#[derive(Debug)]
pub struct UmaIndex {
    pub id: i32,
    pub name: String,
    pub version: String,
}

/// A skill in the index.
#[derive(Debug)]
pub struct SkillIndex {
    pub id: i32,
    pub name: String,
}

/// The query of the trainee listing.
pub struct UmaQueryParams {
    pub released: Option<bool>,
    pub turf: Option<DbAptitudeLevel>,
    pub dirt: Option<DbAptitudeLevel>,
    pub short: Option<DbAptitudeLevel>,
    pub mile: Option<DbAptitudeLevel>,
    pub medium: Option<DbAptitudeLevel>,
    pub long: Option<DbAptitudeLevel>,
    pub front: Option<DbAptitudeLevel>,
    pub pace: Option<DbAptitudeLevel>,
    pub late: Option<DbAptitudeLevel>,
    pub end: Option<DbAptitudeLevel>,
}

/// A trainee in the listing.
pub struct UmaSummary {
    pub id: i32,
    pub name: String,
    pub subtitle: String,
    pub apt_turf: String,
    pub apt_dirt: String,
    pub apt_short: String,
    pub apt_mile: String,
    pub apt_medium: String,
    pub apt_long: String,
    pub apt_front: String,
    pub apt_pace: String,
    pub apt_late: String,
    pub apt_end: String,
    pub release_date: String,
    pub is_predicted_date: bool,
}

/// A trainee with its growth rates and skills.
pub struct UmaDetail {
    pub id: i32,
    pub name: String,
    pub subtitle: String,
    pub apt_turf: String,
    pub apt_dirt: String,
    pub apt_short: String,
    pub apt_mile: String,
    pub apt_medium: String,
    pub apt_long: String,
    pub apt_front: String,
    pub apt_pace: String,
    pub apt_late: String,
    pub apt_end: String,
    pub growth_speed: i32,
    pub growth_stamina: i32,
    pub growth_power: i32,
    pub growth_guts: i32,
    pub growth_wit: i32,
    pub release_date: String,
    pub is_predicted_date: bool,
    pub skills: Vec<UmaSkillEntry>,
}

/// A skill of a trainee.
pub struct UmaSkillEntry {
    pub id: i32,
    pub name: String,
    pub category: String,
    pub rarity: String,
    pub sp_cost: i32,
    pub acquisition: String,
    pub evolved_from: Option<i32>,
}

/// The query of the skill listing.
pub struct SkillQueryParams {
    pub category: Option<DbSkillCategory>,
    pub rarity: Option<DbSkillRarity>,
    pub is_jp_only: Option<bool>,
    pub effect_type: Option<String>,
}

/// A skill in the listing.
pub struct SkillSummary {
    pub id: i32,
    pub name: String,
    pub category: String,
    pub rarity: String,
    pub sp_cost: i32,
    pub is_jp_only: bool,
}

/// An activation condition of a skill trigger.
pub struct SkillCondition {
    pub cond_key: String,
    pub operator: String,
    pub cond_val: String,
    pub is_or: bool,
}

/// A support card in the index.
#[derive(Debug)]
pub struct CardIndex {
    pub support_id: i32,
    pub char_name: String,
    pub title: String,
    pub card_type: String,
    pub rarity: String,
    pub is_welfare: bool,
    pub release_date: Option<String>,
    pub is_predicted_date: bool,
}

/// A support card with its effects and skills.
pub struct CardDetail {
    pub support_id: i32,
    pub char_name: String,
    pub title: String,
    pub card_type: String,
    pub rarity: String,
    pub is_welfare: bool,
    pub release_date: Option<String>,
    pub is_predicted_date: bool,
    pub unique_effect: Option<String>,
    pub effects: Vec<CardEffect>,
    pub skills: Vec<CardSkill>,
}

/// An effect of a support card, by name, with its values at each limit break.
pub struct CardEffect {
    pub effect_name: String,
    pub lb0: Option<i32>,
    pub lb1: Option<i32>,
    pub lb2: Option<i32>,
    pub lb3: Option<i32>,
    pub mlb: Option<i32>,
}

/// A skill that a support card hands out.
pub struct CardSkill {
    pub skill_id: i32,
    pub acquisition: String,
}

} // verus!
