//! The database's enumerations, the rows that queries return, and the
//! filters that select them.
use crate::models::skill::{Category, Operator, Rarity as SkillRarity};
use crate::models::uma::{AptitudeLevel, UmaRarity};
use crate::json::JsonValue;
use crate::scraping::skills::spec_skill_rarity;
use crate::scraping::umas::{spec_aptitude_level, spec_uma_rarity};
use crate::uma_skill::SkillAcquisition;
use vstd::prelude::*;
use vstd::std_specs::convert::{FromSpec, FromSpecImpl};

verus! {

/// A uma rarity as the database stores it.
#[derive(Debug, Clone, Copy, PartialEq, Eq, Structural)]
pub enum DbUmaRarity {
    R,
    SR,
    SSR,
}

impl DbUmaRarity {
    pub open spec fn spec_as_str(self) -> Seq<char> {
        match self {
            DbUmaRarity::R => "r"@,
            DbUmaRarity::SR => "sr"@,
            DbUmaRarity::SSR => "ssr"@,
        }
    }

    /// The name under which the uma rarity is shown.
    pub fn as_str(&self) -> (r: &'static str)
        ensures
            r@ == self.spec_as_str(),
    {
        match self {
            DbUmaRarity::R => "r",
            DbUmaRarity::SR => "sr",
            DbUmaRarity::SSR => "ssr",
        }
    }
}

impl From<UmaRarity> for DbUmaRarity {
    fn from(v: UmaRarity) -> (r: Self) {
        match v {
            UmaRarity::R => DbUmaRarity::R,
            UmaRarity::SR => DbUmaRarity::SR,
            UmaRarity::SSR => DbUmaRarity::SSR,
        }
    }
}

impl FromSpecImpl<UmaRarity> for DbUmaRarity {
    open spec fn obeys_from_spec() -> bool {
        true
    }

    open spec fn from_spec(v: UmaRarity) -> Self {
        match v {
            UmaRarity::R => DbUmaRarity::R,
            UmaRarity::SR => DbUmaRarity::SR,
            UmaRarity::SSR => DbUmaRarity::SSR,
        }
    }
}

/// A aptitude level as the database stores it.
#[derive(Debug, Clone, Copy, PartialEq, Eq, Structural)]
pub enum DbAptitudeLevel {
    A,
    B,
    C,
    D,
    E,
    F,
    G,
}

impl DbAptitudeLevel {
    pub open spec fn spec_as_str(self) -> Seq<char> {
        match self {
            DbAptitudeLevel::A => "A"@,
            DbAptitudeLevel::B => "B"@,
            DbAptitudeLevel::C => "C"@,
            DbAptitudeLevel::D => "D"@,
            DbAptitudeLevel::E => "E"@,
            DbAptitudeLevel::F => "F"@,
            DbAptitudeLevel::G => "G"@,
        }
    }

    /// The label under which the database stores the aptitude level.
    pub open spec fn spec_db_label(self) -> Seq<char> {
        match self {
            DbAptitudeLevel::A => "a"@,
            DbAptitudeLevel::B => "b"@,
            DbAptitudeLevel::C => "c"@,
            DbAptitudeLevel::D => "d"@,
            DbAptitudeLevel::E => "e"@,
            DbAptitudeLevel::F => "f"@,
            DbAptitudeLevel::G => "g"@,
        }
    }

    /// The label under which the database stores the aptitude level.
    pub fn db_label(&self) -> (r: &'static str)
        ensures
            r@ == self.spec_db_label(),
    {
        match self {
            DbAptitudeLevel::A => "a",
            DbAptitudeLevel::B => "b",
            DbAptitudeLevel::C => "c",
            DbAptitudeLevel::D => "d",
            DbAptitudeLevel::E => "e",
            DbAptitudeLevel::F => "f",
            DbAptitudeLevel::G => "g",
        }
    }

    /// The name under which the aptitude level is shown.
    pub fn as_str(&self) -> (r: &'static str)
        ensures
            r@ == self.spec_as_str(),
    {
        match self {
            DbAptitudeLevel::A => "A",
            DbAptitudeLevel::B => "B",
            DbAptitudeLevel::C => "C",
            DbAptitudeLevel::D => "D",
            DbAptitudeLevel::E => "E",
            DbAptitudeLevel::F => "F",
            DbAptitudeLevel::G => "G",
        }
    }
}

impl From<AptitudeLevel> for DbAptitudeLevel {
    fn from(v: AptitudeLevel) -> (r: Self) {
        match v {
            AptitudeLevel::A => DbAptitudeLevel::A,
            AptitudeLevel::B => DbAptitudeLevel::B,
            AptitudeLevel::C => DbAptitudeLevel::C,
            AptitudeLevel::D => DbAptitudeLevel::D,
            AptitudeLevel::E => DbAptitudeLevel::E,
            AptitudeLevel::F => DbAptitudeLevel::F,
            AptitudeLevel::G => DbAptitudeLevel::G,
        }
    }
}

impl FromSpecImpl<AptitudeLevel> for DbAptitudeLevel {
    open spec fn obeys_from_spec() -> bool {
        true
    }

    open spec fn from_spec(v: AptitudeLevel) -> Self {
        match v {
            AptitudeLevel::A => DbAptitudeLevel::A,
            AptitudeLevel::B => DbAptitudeLevel::B,
            AptitudeLevel::C => DbAptitudeLevel::C,
            AptitudeLevel::D => DbAptitudeLevel::D,
            AptitudeLevel::E => DbAptitudeLevel::E,
            AptitudeLevel::F => DbAptitudeLevel::F,
            AptitudeLevel::G => DbAptitudeLevel::G,
        }
    }
}

/// A way a trainee acquires a skill as the database stores it.
#[derive(Debug, Clone, Copy, PartialEq, Eq, Structural)]
pub enum DbSkillAcquisition {
    Unique,
    Innate,
    Awakening,
    Event,
    Evolution,
}

impl DbSkillAcquisition {
    pub open spec fn spec_as_str(self) -> Seq<char> {
        match self {
            DbSkillAcquisition::Unique => "unique"@,
            DbSkillAcquisition::Innate => "innate"@,
            DbSkillAcquisition::Awakening => "awakening"@,
            DbSkillAcquisition::Event => "event"@,
            DbSkillAcquisition::Evolution => "evolution"@,
        }
    }

    /// The name under which the way a trainee acquires a skill is shown.
    pub fn as_str(&self) -> (r: &'static str)
        ensures
            r@ == self.spec_as_str(),
    {
        match self {
            DbSkillAcquisition::Unique => "unique",
            DbSkillAcquisition::Innate => "innate",
            DbSkillAcquisition::Awakening => "awakening",
            DbSkillAcquisition::Event => "event",
            DbSkillAcquisition::Evolution => "evolution",
        }
    }
}

impl From<SkillAcquisition> for DbSkillAcquisition {
    fn from(v: SkillAcquisition) -> (r: Self) {
        match v {
            SkillAcquisition::Unique => DbSkillAcquisition::Unique,
            SkillAcquisition::Innate => DbSkillAcquisition::Innate,
            SkillAcquisition::Awakening => DbSkillAcquisition::Awakening,
            SkillAcquisition::Event => DbSkillAcquisition::Event,
            SkillAcquisition::Evolution(_) => DbSkillAcquisition::Evolution,
        }
    }
}

impl FromSpecImpl<SkillAcquisition> for DbSkillAcquisition {
    open spec fn obeys_from_spec() -> bool {
        true
    }

    open spec fn from_spec(v: SkillAcquisition) -> Self {
        match v {
            SkillAcquisition::Unique => DbSkillAcquisition::Unique,
            SkillAcquisition::Innate => DbSkillAcquisition::Innate,
            SkillAcquisition::Awakening => DbSkillAcquisition::Awakening,
            SkillAcquisition::Event => DbSkillAcquisition::Event,
            SkillAcquisition::Evolution(_) => DbSkillAcquisition::Evolution,
        }
    }
}

/// A skill category as the database stores it.
#[derive(Debug, Clone, Copy, PartialEq, Eq, Structural)]
pub enum DbSkillCategory {
    Green,
    Recovery,
    Velocity,
    Acceleration,
    Movement,
    Gate,
    Vision,
    SpeedDebuff,
    AccelDebuff,
    FrenzyDebuff,
    StaminaDrain,
    VisionDebuff,
    Purple,
    Scenario,
    Unique,
    UniqueRecovery,
    Zenkai,
}

impl DbSkillCategory {
    pub open spec fn spec_as_str(self) -> Seq<char> {
        match self {
            DbSkillCategory::Green => "green"@,
            DbSkillCategory::Recovery => "recovery"@,
            DbSkillCategory::Velocity => "velocity"@,
            DbSkillCategory::Acceleration => "acceleration"@,
            DbSkillCategory::Movement => "movement"@,
            DbSkillCategory::Gate => "gate"@,
            DbSkillCategory::Vision => "vision"@,
            DbSkillCategory::SpeedDebuff => "speed_debuff"@,
            DbSkillCategory::AccelDebuff => "accel_debuff"@,
            DbSkillCategory::FrenzyDebuff => "frenzy_debuff"@,
            DbSkillCategory::StaminaDrain => "stamina_drain"@,
            DbSkillCategory::VisionDebuff => "vision_debuff"@,
            DbSkillCategory::Purple => "purple"@,
            DbSkillCategory::Scenario => "scenario"@,
            DbSkillCategory::Unique => "unique"@,
            DbSkillCategory::UniqueRecovery => "unique_recovery"@,
            DbSkillCategory::Zenkai => "zenkai"@,
        }
    }

    /// The name under which the skill category is shown.
    pub fn as_str(&self) -> (r: &'static str)
        ensures
            r@ == self.spec_as_str(),
    {
        match self {
            DbSkillCategory::Green => "green",
            DbSkillCategory::Recovery => "recovery",
            DbSkillCategory::Velocity => "velocity",
            DbSkillCategory::Acceleration => "acceleration",
            DbSkillCategory::Movement => "movement",
            DbSkillCategory::Gate => "gate",
            DbSkillCategory::Vision => "vision",
            DbSkillCategory::SpeedDebuff => "speed_debuff",
            DbSkillCategory::AccelDebuff => "accel_debuff",
            DbSkillCategory::FrenzyDebuff => "frenzy_debuff",
            DbSkillCategory::StaminaDrain => "stamina_drain",
            DbSkillCategory::VisionDebuff => "vision_debuff",
            DbSkillCategory::Purple => "purple",
            DbSkillCategory::Scenario => "scenario",
            DbSkillCategory::Unique => "unique",
            DbSkillCategory::UniqueRecovery => "unique_recovery",
            DbSkillCategory::Zenkai => "zenkai",
        }
    }
}

impl From<Category> for DbSkillCategory {
    fn from(v: Category) -> (r: Self) {
        match v {
            Category::Green => DbSkillCategory::Green,
            Category::Recovery => DbSkillCategory::Recovery,
            Category::Velocity => DbSkillCategory::Velocity,
            Category::Acceleration => DbSkillCategory::Acceleration,
            Category::Movement => DbSkillCategory::Movement,
            Category::Gate => DbSkillCategory::Gate,
            Category::Vision => DbSkillCategory::Vision,
            Category::SpeedDebuff => DbSkillCategory::SpeedDebuff,
            Category::AccelDebuff => DbSkillCategory::AccelDebuff,
            Category::FrenzyDebuff => DbSkillCategory::FrenzyDebuff,
            Category::StaminaDrain => DbSkillCategory::StaminaDrain,
            Category::VisionDebuff => DbSkillCategory::VisionDebuff,
            Category::Purple => DbSkillCategory::Purple,
            Category::Scenario => DbSkillCategory::Scenario,
            Category::Unique => DbSkillCategory::Unique,
            Category::UniqueRecovery => DbSkillCategory::UniqueRecovery,
            Category::Zenkai => DbSkillCategory::Zenkai,
        }
    }
}

impl FromSpecImpl<Category> for DbSkillCategory {
    open spec fn obeys_from_spec() -> bool {
        true
    }

    open spec fn from_spec(v: Category) -> Self {
        match v {
            Category::Green => DbSkillCategory::Green,
            Category::Recovery => DbSkillCategory::Recovery,
            Category::Velocity => DbSkillCategory::Velocity,
            Category::Acceleration => DbSkillCategory::Acceleration,
            Category::Movement => DbSkillCategory::Movement,
            Category::Gate => DbSkillCategory::Gate,
            Category::Vision => DbSkillCategory::Vision,
            Category::SpeedDebuff => DbSkillCategory::SpeedDebuff,
            Category::AccelDebuff => DbSkillCategory::AccelDebuff,
            Category::FrenzyDebuff => DbSkillCategory::FrenzyDebuff,
            Category::StaminaDrain => DbSkillCategory::StaminaDrain,
            Category::VisionDebuff => DbSkillCategory::VisionDebuff,
            Category::Purple => DbSkillCategory::Purple,
            Category::Scenario => DbSkillCategory::Scenario,
            Category::Unique => DbSkillCategory::Unique,
            Category::UniqueRecovery => DbSkillCategory::UniqueRecovery,
            Category::Zenkai => DbSkillCategory::Zenkai,
        }
    }
}

/// A skill rarity as the database stores it.
#[derive(Debug, Clone, Copy, PartialEq, Eq, Structural)]
pub enum DbSkillRarity {
    Normal,
    Rare,
    Unique,
    Evolution,
}

impl DbSkillRarity {
    pub open spec fn spec_as_str(self) -> Seq<char> {
        match self {
            DbSkillRarity::Normal => "normal"@,
            DbSkillRarity::Rare => "rare"@,
            DbSkillRarity::Unique => "unique"@,
            DbSkillRarity::Evolution => "evolution"@,
        }
    }

    /// The name under which the skill rarity is shown.
    pub fn as_str(&self) -> (r: &'static str)
        ensures
            r@ == self.spec_as_str(),
    {
        match self {
            DbSkillRarity::Normal => "normal",
            DbSkillRarity::Rare => "rare",
            DbSkillRarity::Unique => "unique",
            DbSkillRarity::Evolution => "evolution",
        }
    }
}

impl From<SkillRarity> for DbSkillRarity {
    fn from(v: SkillRarity) -> (r: Self) {
        match v {
            SkillRarity::Normal => DbSkillRarity::Normal,
            SkillRarity::Rare => DbSkillRarity::Rare,
            SkillRarity::Unique => DbSkillRarity::Unique,
            SkillRarity::Evolution => DbSkillRarity::Evolution,
        }
    }
}

impl FromSpecImpl<SkillRarity> for DbSkillRarity {
    open spec fn obeys_from_spec() -> bool {
        true
    }

    open spec fn from_spec(v: SkillRarity) -> Self {
        match v {
            SkillRarity::Normal => DbSkillRarity::Normal,
            SkillRarity::Rare => DbSkillRarity::Rare,
            SkillRarity::Unique => DbSkillRarity::Unique,
            SkillRarity::Evolution => DbSkillRarity::Evolution,
        }
    }
}

/// A condition operator as the database stores it.
#[derive(Debug, Clone, Copy, PartialEq, Eq, Structural)]
pub enum DbSkillOperator {
    Eq,
    NotEq,
    Gt,
    GtEq,
    Lt,
    LtEq,
}

impl DbSkillOperator {
    pub open spec fn spec_as_str(self) -> Seq<char> {
        match self {
            DbSkillOperator::Eq => "eq"@,
            DbSkillOperator::NotEq => "not_eq"@,
            DbSkillOperator::Gt => "gt"@,
            DbSkillOperator::GtEq => "gt_eq"@,
            DbSkillOperator::Lt => "lt"@,
            DbSkillOperator::LtEq => "lt_eq"@,
        }
    }

    /// The name under which the condition operator is shown.
    pub fn as_str(&self) -> (r: &'static str)
        ensures
            r@ == self.spec_as_str(),
    {
        match self {
            DbSkillOperator::Eq => "eq",
            DbSkillOperator::NotEq => "not_eq",
            DbSkillOperator::Gt => "gt",
            DbSkillOperator::GtEq => "gt_eq",
            DbSkillOperator::Lt => "lt",
            DbSkillOperator::LtEq => "lt_eq",
        }
    }
}

impl From<Operator> for DbSkillOperator {
    fn from(v: Operator) -> (r: Self) {
        match v {
            Operator::Eq => DbSkillOperator::Eq,
            Operator::NotEq => DbSkillOperator::NotEq,
            Operator::Gt => DbSkillOperator::Gt,
            Operator::GtEq => DbSkillOperator::GtEq,
            Operator::Lt => DbSkillOperator::Lt,
            Operator::LtEq => DbSkillOperator::LtEq,
        }
    }
}

impl FromSpecImpl<Operator> for DbSkillOperator {
    open spec fn obeys_from_spec() -> bool {
        true
    }

    open spec fn from_spec(v: Operator) -> Self {
        match v {
            Operator::Eq => DbSkillOperator::Eq,
            Operator::NotEq => DbSkillOperator::NotEq,
            Operator::Gt => DbSkillOperator::Gt,
            Operator::GtEq => DbSkillOperator::GtEq,
            Operator::Lt => DbSkillOperator::Lt,
            Operator::LtEq => DbSkillOperator::LtEq,
        }
    }
}
/// Which trainees to list: each aptitude that is set must match.
pub struct UmaFilter {
    pub turf: Option<DbAptitudeLevel>,
    pub dirt: Option<DbAptitudeLevel>,
    pub short: Option<DbAptitudeLevel>,
    pub mile: Option<DbAptitudeLevel>,
    pub medium: Option<DbAptitudeLevel>,
    pub long: Option<DbAptitudeLevel>,
    pub front: Option<DbAptitudeLevel>,
    pub pace: Option<DbAptitudeLevel>,
    pub late: Option<DbAptitudeLevel>,
    pub end: Option<DbAptitudeLevel>,
}

/// A trainee as stored, with its growth rates.
pub struct UmaRow {
    pub id: i32,
    pub name: String,
    pub subtitle: String,
    pub apt_turf: DbAptitudeLevel,
    pub apt_dirt: DbAptitudeLevel,
    pub apt_short: DbAptitudeLevel,
    pub apt_mile: DbAptitudeLevel,
    pub apt_medium: DbAptitudeLevel,
    pub apt_long: DbAptitudeLevel,
    pub apt_front: DbAptitudeLevel,
    pub apt_pace: DbAptitudeLevel,
    pub apt_late: DbAptitudeLevel,
    pub apt_end: DbAptitudeLevel,
    pub growth_speed: i32,
    pub growth_stamina: i32,
    pub growth_power: i32,
    pub growth_guts: i32,
    pub growth_wit: i32,
}

/// A trainee as listed.
pub struct UmaSummaryRow {
    pub id: i32,
    pub name: String,
    pub subtitle: String,
    pub apt_turf: DbAptitudeLevel,
    pub apt_dirt: DbAptitudeLevel,
    pub apt_short: DbAptitudeLevel,
    pub apt_mile: DbAptitudeLevel,
    pub apt_medium: DbAptitudeLevel,
    pub apt_long: DbAptitudeLevel,
    pub apt_front: DbAptitudeLevel,
    pub apt_pace: DbAptitudeLevel,
    pub apt_late: DbAptitudeLevel,
    pub apt_end: DbAptitudeLevel,
}

/// A skill of a trainee, with how the trainee acquires it.
pub struct UmaSkillRow {
    pub id: i32,
    pub name: String,
    pub category: DbSkillCategory,
    pub rarity: DbSkillRarity,
    pub sp_cost: i32,
    pub acquisition: DbSkillAcquisition,
    pub evolved_from: Option<i32>,
}

/// A skill as listed.
pub struct SkillRow {
    pub id: i32,
    pub name: String,
    pub category: DbSkillCategory,
    pub rarity: DbSkillRarity,
    pub sp_cost: i32,
    pub is_jp_only: bool,
}

/// Which skills to list: each field that is set must match; `effect_type`
/// matches, ignoring case, any part of the name of one of the skill's effects.
pub struct SkillFilter {
    pub category: Option<DbSkillCategory>,
    pub rarity: Option<DbSkillRarity>,
    pub is_jp_only: Option<bool>,
    pub effect_type: Option<String>,
}

/// A condition of a skill trigger as stored.
pub struct ConditionRow {
    pub cond_key: String,
    pub operator: DbSkillOperator,
    pub cond_val: String,
    pub is_or: bool,
}


/// What the database stores follows what was read: a trainee rarity read
/// from code `n` is stored under a label of `n` letters ("r", "sr", "ssr");
/// an aptitude read from a letter is stored as that same letter (in lower
/// case in the database); and a skill rarity read from code 1 is stored as
/// "normal", from 2 or 3 as "rare", from 4 or 5 as "unique", from 6 as
/// "evolution".
pub proof fn law_stored_labels_follow_what_was_read(rarity: JsonValue, letter: JsonValue, code: Option<u64>)
    ensures
        spec_uma_rarity(rarity) is Some ==>
            <DbUmaRarity as FromSpec<UmaRarity>>::from_spec(spec_uma_rarity(rarity).unwrap()).spec_as_str().len() == rarity.spec_as_u64().unwrap(),
        spec_aptitude_level(letter) is Some ==>
            <DbAptitudeLevel as FromSpec<AptitudeLevel>>::from_spec(spec_aptitude_level(letter).unwrap()).spec_as_str() == letter.spec_as_str().unwrap(),
        spec_aptitude_level(letter) is Some ==>
            <DbAptitudeLevel as FromSpec<AptitudeLevel>>::from_spec(spec_aptitude_level(letter).unwrap()).spec_db_label().len() == 1,
        code == Some(1u64) ==> <DbSkillRarity as FromSpec<SkillRarity>>::from_spec(spec_skill_rarity(code).unwrap()).spec_as_str() == "normal"@,
        (code == Some(2u64) || code == Some(3u64)) ==> <DbSkillRarity as FromSpec<SkillRarity>>::from_spec(spec_skill_rarity(code).unwrap()).spec_as_str() == "rare"@,
        (code == Some(4u64) || code == Some(5u64)) ==> <DbSkillRarity as FromSpec<SkillRarity>>::from_spec(spec_skill_rarity(code).unwrap()).spec_as_str() == "unique"@,
        code == Some(6u64) ==> <DbSkillRarity as FromSpec<SkillRarity>>::from_spec(spec_skill_rarity(code).unwrap()).spec_as_str() == "evolution"@,
{
    reveal_strlit("r");
    reveal_strlit("sr");
    reveal_strlit("ssr");
    reveal_strlit("a");
    reveal_strlit("b");
    reveal_strlit("c");
    reveal_strlit("d");
    reveal_strlit("e");
    reveal_strlit("f");
    reveal_strlit("g");
    crate::scraping::umas::law_aptitude_letters(letter);
}

} // verus!
