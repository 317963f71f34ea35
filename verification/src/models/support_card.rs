//! Support cards and their effects at each limit break.
use crate::dates::Date;
use crate::ids::SupportCardId;
use crate::support_card_skill::SupportCardSkill;
use vstd::prelude::*;

verus! {

#[derive(Debug)]
pub struct SupportCard {
    pub id: SupportCardId,
    pub char_id: u32,
    pub char_name: String,
    pub title: String,
    pub card_type: CardType,
    pub rarity: Rarity,
    pub is_welfare: bool,
    pub release_date: Option<Date>,
    pub is_predicted_date: bool,
    pub unique_effect: Option<String>,
    pub effects: Vec<EffectValue>,
    pub skills: Vec<SupportCardSkill>,
}

#[derive(Debug, Clone, Copy, PartialEq, Eq, Structural)]
pub enum Rarity {
    R,
    SR,
    SSR,
}

#[derive(Debug, Clone, Copy, PartialEq, Eq, Structural)]
pub enum CardType {
    Speed,
    Stamina,
    Power,
    Guts,
    Wit,
    Friend,
    Group,
}

/// An effect's value at limit breaks 0 to 3 and at the maximum limit break.
#[derive(Debug, Clone, Copy, PartialEq, Eq, Structural)]
pub struct LbValues {
    pub lb0: Option<i32>,
    pub lb1: Option<i32>,
    pub lb2: Option<i32>,
    pub lb3: Option<i32>,
    pub mlb: Option<i32>,
}

#[derive(Debug, Clone, Copy, PartialEq, Eq, Structural)]
pub enum EffectValue {
    /// Effect ID 1
    FriendshipBonus(LbValues),
    /// Effect ID 2
    MoodEffect(LbValues),
    /// Effect ID 3
    SpeedBonus(LbValues),
    /// Effect ID 4
    StaminaBonus(LbValues),
    /// Effect ID 5
    PowerBonus(LbValues),
    /// Effect ID 6
    GutsBonus(LbValues),
    /// Effect ID 7
    WitBonus(LbValues),
    /// Effect ID 8
    TrainingEffectiveness(LbValues),
    /// Effect ID 9
    InitialSpeed(LbValues),
    /// Effect ID 10
    InitialStamina(LbValues),
    /// Effect ID 11
    InitialPower(LbValues),
    /// Effect ID 12
    InitialGuts(LbValues),
    /// Effect ID 13
    InitialWit(LbValues),
    /// Effect ID 14
    InitialFriendshipGauge(LbValues),
    /// Effect ID 15
    RaceBonus(LbValues),
    /// Effect ID 16
    FanBonus(LbValues),
    /// Effect ID 17
    HintLevels(LbValues),
    /// Effect ID 18
    HintFrequency(LbValues),
    /// Effect ID 19
    SpecialtyPriority(LbValues),
    /// Effect ID 20 (inactive)
    MaxSpeed(LbValues),
    /// Effect ID 21 (inactive)
    MaxStamina(LbValues),
    /// Effect ID 22 (inactive)
    MaxPower(LbValues),
    /// Effect ID 23 (inactive)
    MaxGuts(LbValues),
    /// Effect ID 24 (inactive)
    MaxWit(LbValues),
    /// Effect ID 25
    EventRecovery(LbValues),
    /// Effect ID 26
    EventEffectiveness(LbValues),
    /// Effect ID 27
    FailureProtection(LbValues),
    /// Effect ID 28
    EnergyCostReduction(LbValues),
    /// Effect ID 29 (inactive)
    MinigameEffectiveness(LbValues),
    /// Effect ID 30
    SkillPointBonus(LbValues),
    /// Effect ID 31
    WitFriendshipRecovery(LbValues),
    /// Effect ID 32
    InitialSkillPoints(LbValues),
    /// Effect ID 33
    HintQuantityBonus(LbValues),
    /// Effect ID 41
    AllStatsBonus(LbValues),
}

/// The effect with the given id, carrying `values`; `None` for an unknown id.
pub open spec fn spec_effect_value_from_id(id: u32, values: LbValues) -> Option<EffectValue> {
    if id == 1 { Some(EffectValue::FriendshipBonus(values)) }
    else if id == 2 { Some(EffectValue::MoodEffect(values)) }
    else if id == 3 { Some(EffectValue::SpeedBonus(values)) }
    else if id == 4 { Some(EffectValue::StaminaBonus(values)) }
    else if id == 5 { Some(EffectValue::PowerBonus(values)) }
    else if id == 6 { Some(EffectValue::GutsBonus(values)) }
    else if id == 7 { Some(EffectValue::WitBonus(values)) }
    else if id == 8 { Some(EffectValue::TrainingEffectiveness(values)) }
    else if id == 9 { Some(EffectValue::InitialSpeed(values)) }
    else if id == 10 { Some(EffectValue::InitialStamina(values)) }
    else if id == 11 { Some(EffectValue::InitialPower(values)) }
    else if id == 12 { Some(EffectValue::InitialGuts(values)) }
    else if id == 13 { Some(EffectValue::InitialWit(values)) }
    else if id == 14 { Some(EffectValue::InitialFriendshipGauge(values)) }
    else if id == 15 { Some(EffectValue::RaceBonus(values)) }
    else if id == 16 { Some(EffectValue::FanBonus(values)) }
    else if id == 17 { Some(EffectValue::HintLevels(values)) }
    else if id == 18 { Some(EffectValue::HintFrequency(values)) }
    else if id == 19 { Some(EffectValue::SpecialtyPriority(values)) }
    else if id == 20 { Some(EffectValue::MaxSpeed(values)) }
    else if id == 21 { Some(EffectValue::MaxStamina(values)) }
    else if id == 22 { Some(EffectValue::MaxPower(values)) }
    else if id == 23 { Some(EffectValue::MaxGuts(values)) }
    else if id == 24 { Some(EffectValue::MaxWit(values)) }
    else if id == 25 { Some(EffectValue::EventRecovery(values)) }
    else if id == 26 { Some(EffectValue::EventEffectiveness(values)) }
    else if id == 27 { Some(EffectValue::FailureProtection(values)) }
    else if id == 28 { Some(EffectValue::EnergyCostReduction(values)) }
    else if id == 29 { Some(EffectValue::MinigameEffectiveness(values)) }
    else if id == 30 { Some(EffectValue::SkillPointBonus(values)) }
    else if id == 31 { Some(EffectValue::WitFriendshipRecovery(values)) }
    else if id == 32 { Some(EffectValue::InitialSkillPoints(values)) }
    else if id == 33 { Some(EffectValue::HintQuantityBonus(values)) }
    else if id == 41 { Some(EffectValue::AllStatsBonus(values)) }
    else { None }
}

impl EffectValue {
    /// The id of the effect.
    pub open spec fn spec_id(self) -> u32 {
        match self {
            EffectValue::FriendshipBonus(_) => 1,
            EffectValue::MoodEffect(_) => 2,
            EffectValue::SpeedBonus(_) => 3,
            EffectValue::StaminaBonus(_) => 4,
            EffectValue::PowerBonus(_) => 5,
            EffectValue::GutsBonus(_) => 6,
            EffectValue::WitBonus(_) => 7,
            EffectValue::TrainingEffectiveness(_) => 8,
            EffectValue::InitialSpeed(_) => 9,
            EffectValue::InitialStamina(_) => 10,
            EffectValue::InitialPower(_) => 11,
            EffectValue::InitialGuts(_) => 12,
            EffectValue::InitialWit(_) => 13,
            EffectValue::InitialFriendshipGauge(_) => 14,
            EffectValue::RaceBonus(_) => 15,
            EffectValue::FanBonus(_) => 16,
            EffectValue::HintLevels(_) => 17,
            EffectValue::HintFrequency(_) => 18,
            EffectValue::SpecialtyPriority(_) => 19,
            EffectValue::MaxSpeed(_) => 20,
            EffectValue::MaxStamina(_) => 21,
            EffectValue::MaxPower(_) => 22,
            EffectValue::MaxGuts(_) => 23,
            EffectValue::MaxWit(_) => 24,
            EffectValue::EventRecovery(_) => 25,
            EffectValue::EventEffectiveness(_) => 26,
            EffectValue::FailureProtection(_) => 27,
            EffectValue::EnergyCostReduction(_) => 28,
            EffectValue::MinigameEffectiveness(_) => 29,
            EffectValue::SkillPointBonus(_) => 30,
            EffectValue::WitFriendshipRecovery(_) => 31,
            EffectValue::InitialSkillPoints(_) => 32,
            EffectValue::HintQuantityBonus(_) => 33,
            EffectValue::AllStatsBonus(_) => 41,
        }
    }

    /// The values that the effect carries.
    pub open spec fn spec_lb_values(self) -> LbValues {
        match self {
            EffectValue::FriendshipBonus(v)
            | EffectValue::MoodEffect(v)
            | EffectValue::SpeedBonus(v)
            | EffectValue::StaminaBonus(v)
            | EffectValue::PowerBonus(v)
            | EffectValue::GutsBonus(v)
            | EffectValue::WitBonus(v)
            | EffectValue::TrainingEffectiveness(v)
            | EffectValue::InitialSpeed(v)
            | EffectValue::InitialStamina(v)
            | EffectValue::InitialPower(v)
            | EffectValue::InitialGuts(v)
            | EffectValue::InitialWit(v)
            | EffectValue::InitialFriendshipGauge(v)
            | EffectValue::RaceBonus(v)
            | EffectValue::FanBonus(v)
            | EffectValue::HintLevels(v)
            | EffectValue::HintFrequency(v)
            | EffectValue::SpecialtyPriority(v)
            | EffectValue::MaxSpeed(v)
            | EffectValue::MaxStamina(v)
            | EffectValue::MaxPower(v)
            | EffectValue::MaxGuts(v)
            | EffectValue::MaxWit(v)
            | EffectValue::EventRecovery(v)
            | EffectValue::EventEffectiveness(v)
            | EffectValue::FailureProtection(v)
            | EffectValue::EnergyCostReduction(v)
            | EffectValue::MinigameEffectiveness(v)
            | EffectValue::SkillPointBonus(v)
            | EffectValue::WitFriendshipRecovery(v)
            | EffectValue::InitialSkillPoints(v)
            | EffectValue::HintQuantityBonus(v)
            | EffectValue::AllStatsBonus(v) => v,
        }
    }

    /// The effect with the given id, carrying `values`; `None` for an unknown id.
    pub fn from_id(id: u32, values: LbValues) -> (r: Option<Self>)
        ensures r == spec_effect_value_from_id(id, values),
    {
        match id {
            1 => Some(Self::FriendshipBonus(values)),
            2 => Some(Self::MoodEffect(values)),
            3 => Some(Self::SpeedBonus(values)),
            4 => Some(Self::StaminaBonus(values)),
            5 => Some(Self::PowerBonus(values)),
            6 => Some(Self::GutsBonus(values)),
            7 => Some(Self::WitBonus(values)),
            8 => Some(Self::TrainingEffectiveness(values)),
            9 => Some(Self::InitialSpeed(values)),
            10 => Some(Self::InitialStamina(values)),
            11 => Some(Self::InitialPower(values)),
            12 => Some(Self::InitialGuts(values)),
            13 => Some(Self::InitialWit(values)),
            14 => Some(Self::InitialFriendshipGauge(values)),
            15 => Some(Self::RaceBonus(values)),
            16 => Some(Self::FanBonus(values)),
            17 => Some(Self::HintLevels(values)),
            18 => Some(Self::HintFrequency(values)),
            19 => Some(Self::SpecialtyPriority(values)),
            20 => Some(Self::MaxSpeed(values)),
            21 => Some(Self::MaxStamina(values)),
            22 => Some(Self::MaxPower(values)),
            23 => Some(Self::MaxGuts(values)),
            24 => Some(Self::MaxWit(values)),
            25 => Some(Self::EventRecovery(values)),
            26 => Some(Self::EventEffectiveness(values)),
            27 => Some(Self::FailureProtection(values)),
            28 => Some(Self::EnergyCostReduction(values)),
            29 => Some(Self::MinigameEffectiveness(values)),
            30 => Some(Self::SkillPointBonus(values)),
            31 => Some(Self::WitFriendshipRecovery(values)),
            32 => Some(Self::InitialSkillPoints(values)),
            33 => Some(Self::HintQuantityBonus(values)),
            41 => Some(Self::AllStatsBonus(values)),
            _ => None,
        }
    }
}

/// Rebuilding an effect from its id and its values gives the effect back.
pub proof fn lemma_effect_value_roundtrip(e: EffectValue)
    ensures spec_effect_value_from_id(e.spec_id(), e.spec_lb_values()) == Some(e),
{
}

/// An effect built from an id carries that id and the values it was given.
pub proof fn lemma_effect_value_from_id_inverse(id: u32, values: LbValues)
    requires spec_effect_value_from_id(id, values) is Some,
    ensures
        spec_effect_value_from_id(id, values).unwrap().spec_id() == id,
        spec_effect_value_from_id(id, values).unwrap().spec_lb_values() == values,
{
}

} // verus!
