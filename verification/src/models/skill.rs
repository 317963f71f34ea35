//! Skills: their categories, effects and activation conditions.
use crate::ids::SkillId;
use crate::text::{digit_char, i64_to_string, int_str, nat_str, u64_to_string};
use vstd::prelude::*;

verus! {

#[derive(Debug)]
pub struct Skill {
    pub id: SkillId,
    pub name: String,
    pub ingame_description: String,
    pub category: Category,
    pub rarity: Rarity,
    pub sp_cost: u32,
    pub effects: Vec<Effect>,
    pub is_jp_only: bool,
}

#[derive(Debug, Copy, Clone, PartialEq, Eq, Structural)]
pub enum Category {
    Green,
    Recovery,
    Velocity,
    Acceleration,
    Movement,
    Gate,
    Vision,
    SpeedDebuff,
    AccelDebuff,
    FrenzyDebuff,
    StaminaDrain,
    VisionDebuff,
    Purple,
    Scenario,
    Unique,
    UniqueRecovery,
    Zenkai,
}

#[derive(Copy, Clone, Debug, PartialEq, Eq, Structural)]
pub enum Rarity {
    Normal,
    Rare,
    Unique,
    Evolution,
}

/// One activation of a skill: what it does, and when.
#[derive(Debug)]
pub struct Effect {
    pub effects: Vec<EffectType>,
    pub conditions: Vec<Condition>,
    pub preconditions: Vec<Condition>,
}

#[derive(Debug, Copy, Clone, PartialEq, Eq, Structural)]
pub enum Operator {
    Eq,
    NotEq,
    Gt,
    GtEq,
    Lt,
    LtEq,
}

/// `cond_key operator cond_val`; `is_or` marks the first condition of an
/// alternative group.
#[derive(Debug)]
pub struct Condition {
    pub cond_key: String,
    pub operator: Operator,
    pub cond_val: String,
    pub is_or: bool,
}

#[derive(Debug)]
pub struct ConditionType {
    pub cond_key: String,
    pub description: String,
    pub example: Option<String>,
}

/// A stat line of a skill effect as the wiki lists it.
#[derive(Debug)]
pub struct SkillEffectStat {
    pub stat_key: String,
    pub stat_val: String,
}

#[derive(Debug, Copy, Clone, PartialEq, Eq, Structural)]
pub enum SkillOperator {
    Eq,
    NotEq,
    Gt,
    GtEq,
    Lt,
    LtEq,
}

/// A condition read from a skill's wiki page.
#[derive(Debug)]
pub struct SkillCondition {
    pub is_precondition: bool,
    pub cond_key: String,
    pub operator: SkillOperator,
    pub cond_val: String,
    pub description: Option<String>,
    pub example: Option<String>,
}

/// One effect block of a skill's wiki page.
#[derive(Debug)]
pub struct SkillEffect {
    pub stats: Vec<SkillEffectStat>,
    pub conditions: Vec<SkillCondition>,
}

/// An effect of a skill; magnitudes are normalized to a base of 10000.
#[derive(Debug, Clone, Copy, PartialEq, Eq, Structural)]
pub enum EffectType {
    SpeedUp(i32),
    StaminaUp(i32),
    PowerUp(i32),
    GutsUp(i32),
    WitUp(i32),
    AllStatsUp(i32),
    CurrentSpeedUp(i32),
    CurrentSpeedDown(i32),
    TargetSpeedUp(i32),
    ZenkaiSpurtAcceleration(i32),
    AccelerationUp(i32),
    StaminaRecovery(i32),
    FieldOfViewUp(i32),
    LaneChangeSpeed(i32),
    ChangeLane(i32),
    StartReactionImprovement(i32),
    StartDelayAdded(i32),
    RushTimeIncrease(i32),
    RushChanceDecrease(i32),
    RunawaySkill,
    DebuffImmunity,
    ActivateRelatedSkillsOnAllUma,
    UseRandomRareSkills(i32),
    EvolvedSkillDurationUp(i32),
}

/// Division that rounds toward zero, as Rust's `/` on integers does.
pub open spec fn trunc_div(a: int, b: int) -> int {
    if a >= 0 { a / b } else { -((-a) / b) }
}

/// A raw effect value on the base that `divisor` names, brought to base 10000:
/// the product wraps as `i64` arithmetic does, and the quotient is cut to `i32`.
pub open spec fn normalized(raw: i64, divisor: int) -> i32 {
    trunc_div(vstd::wrapping::i64_specs::wrapping_mul(raw, 10000) as int, divisor) as i32
}

/// The effect that a raw type id and value denote, if the type id is known.
pub open spec fn spec_effect_from_raw(type_id: u64, raw: i64) -> Option<EffectType> {
    if type_id == 1 { Some(EffectType::SpeedUp(normalized(raw, 1000))) }
    else if type_id == 2 { Some(EffectType::StaminaUp(normalized(raw, 1000))) }
    else if type_id == 3 { Some(EffectType::PowerUp(normalized(raw, 1000))) }
    else if type_id == 4 { Some(EffectType::GutsUp(normalized(raw, 1000))) }
    else if type_id == 5 { Some(EffectType::WitUp(normalized(raw, 1000))) }
    else if type_id == 6 { Some(EffectType::RunawaySkill) }
    else if type_id == 8 { Some(EffectType::FieldOfViewUp(normalized(raw, 1000))) }
    else if type_id == 9 { Some(EffectType::StaminaRecovery(normalized(raw, 1000))) }
    else if type_id == 10 { Some(EffectType::StartReactionImprovement(normalized(raw, 10000))) }
    else if type_id == 13 { Some(EffectType::RushTimeIncrease(normalized(raw, 10000))) }
    else if type_id == 14 { Some(EffectType::StartDelayAdded(normalized(raw, 10000))) }
    else if type_id == 21 { Some(EffectType::CurrentSpeedDown(normalized(raw, 10000))) }
    else if type_id == 22 { Some(EffectType::CurrentSpeedUp(normalized(raw, 10000))) }
    else if type_id == 27 { Some(EffectType::TargetSpeedUp(normalized(raw, 10000))) }
    else if type_id == 28 { Some(EffectType::LaneChangeSpeed(normalized(raw, 1000))) }
    else if type_id == 29 { Some(EffectType::RushChanceDecrease(normalized(raw, 10000))) }
    else if type_id == 31 { Some(EffectType::AccelerationUp(normalized(raw, 1000))) }
    else if type_id == 32 { Some(EffectType::AllStatsUp(normalized(raw, 10000))) }
    else if type_id == 35 { Some(EffectType::ChangeLane(normalized(raw, 100))) }
    else if type_id == 37 { Some(EffectType::UseRandomRareSkills(normalized(raw, 10000))) }
    else if type_id == 38 { Some(EffectType::DebuffImmunity) }
    else if type_id == 41 { Some(EffectType::ActivateRelatedSkillsOnAllUma) }
    else if type_id == 42 { Some(EffectType::EvolvedSkillDurationUp(normalized(raw, 1000))) }
    else if type_id == 48 { Some(EffectType::ZenkaiSpurtAcceleration(normalized(raw, 10000))) }
    else { None }
}

/// Brings a raw value to base 10000 from the base that `divisor` names.
fn normalize(raw: i64, divisor: i64) -> (r: i32)
    requires divisor > 0,
    ensures r == normalized(raw, divisor as int),
{
    (raw.wrapping_mul(10000) / divisor) as i32
}

impl EffectType {
    /// The magnitude of the effect; `None` for the effects that have none.
    pub open spec fn spec_value(self) -> Option<i32> {
        match self {
            EffectType::RunawaySkill | EffectType::DebuffImmunity
            | EffectType::ActivateRelatedSkillsOnAllUma => None,
            EffectType::SpeedUp(v) | EffectType::StaminaUp(v) | EffectType::PowerUp(v)
            | EffectType::GutsUp(v) | EffectType::WitUp(v) | EffectType::AllStatsUp(v)
            | EffectType::CurrentSpeedUp(v) | EffectType::CurrentSpeedDown(v)
            | EffectType::TargetSpeedUp(v) | EffectType::ZenkaiSpurtAcceleration(v)
            | EffectType::AccelerationUp(v) | EffectType::StaminaRecovery(v)
            | EffectType::FieldOfViewUp(v) | EffectType::LaneChangeSpeed(v)
            | EffectType::ChangeLane(v) | EffectType::StartReactionImprovement(v)
            | EffectType::StartDelayAdded(v) | EffectType::RushTimeIncrease(v)
            | EffectType::RushChanceDecrease(v) | EffectType::UseRandomRareSkills(v)
            | EffectType::EvolvedSkillDurationUp(v) => Some(v),
        }
    }

    pub open spec fn spec_kind_name(self) -> Seq<char> {
        match self {
            EffectType::SpeedUp(_) => "Speed Up"@,
            EffectType::StaminaUp(_) => "Stamina Up"@,
            EffectType::PowerUp(_) => "Power Up"@,
            EffectType::GutsUp(_) => "Guts Up"@,
            EffectType::WitUp(_) => "Wit Up"@,
            EffectType::AllStatsUp(_) => "All Stats Up"@,
            EffectType::CurrentSpeedUp(_) => "Current Speed Up"@,
            EffectType::CurrentSpeedDown(_) => "Current Speed Down"@,
            EffectType::TargetSpeedUp(_) => "Increase Target Speed"@,
            EffectType::ZenkaiSpurtAcceleration(_) => "Zenkai Spurt Acceleration"@,
            EffectType::AccelerationUp(_) => "Acceleration Up"@,
            EffectType::StaminaRecovery(_) => "Stamina Recovery"@,
            EffectType::FieldOfViewUp(_) => "Field of View Up"@,
            EffectType::LaneChangeSpeed(_) => "Lane Change Speed"@,
            EffectType::ChangeLane(_) => "Change Lane"@,
            EffectType::StartReactionImprovement(_) => "Start Reaction Improvement"@,
            EffectType::StartDelayAdded(_) => "Start Delay Added"@,
            EffectType::RushTimeIncrease(_) => "Rush Time Increase"@,
            EffectType::RushChanceDecrease(_) => "Rush Chance Decrease"@,
            EffectType::UseRandomRareSkills(_) => "Use Random Rare Skills"@,
            EffectType::EvolvedSkillDurationUp(_) => "Evolved Skill Duration Up"@,
            EffectType::RunawaySkill => "Runaway"@,
            EffectType::DebuffImmunity => "Debuff Immunity"@,
            EffectType::ActivateRelatedSkillsOnAllUma => "Activate Related Skills on All Uma"@,
        }
    }

    /// The position of the effect's kind among the kinds of effect, whatever
    /// its magnitude.
    pub open spec fn kind_index(self) -> int {
        match self {
            EffectType::SpeedUp(_) => 0,
            EffectType::StaminaUp(_) => 1,
            EffectType::PowerUp(_) => 2,
            EffectType::GutsUp(_) => 3,
            EffectType::WitUp(_) => 4,
            EffectType::AllStatsUp(_) => 5,
            EffectType::CurrentSpeedUp(_) => 6,
            EffectType::CurrentSpeedDown(_) => 7,
            EffectType::TargetSpeedUp(_) => 8,
            EffectType::ZenkaiSpurtAcceleration(_) => 9,
            EffectType::AccelerationUp(_) => 10,
            EffectType::StaminaRecovery(_) => 11,
            EffectType::FieldOfViewUp(_) => 12,
            EffectType::LaneChangeSpeed(_) => 13,
            EffectType::ChangeLane(_) => 14,
            EffectType::StartReactionImprovement(_) => 15,
            EffectType::StartDelayAdded(_) => 16,
            EffectType::RushTimeIncrease(_) => 17,
            EffectType::RushChanceDecrease(_) => 18,
            EffectType::UseRandomRareSkills(_) => 19,
            EffectType::EvolvedSkillDurationUp(_) => 20,
            EffectType::RunawaySkill => 21,
            EffectType::DebuffImmunity => 22,
            EffectType::ActivateRelatedSkillsOnAllUma => 23,
        }
    }

    /// Constructs an effect from a raw type id and raw value, normalized to base 10000.
    pub fn from_raw(type_id: u64, raw_value: i64) -> (r: Option<Self>)
        ensures r == spec_effect_from_raw(type_id, raw_value),
    {
        match type_id {
            1 => Some(Self::SpeedUp(normalize(raw_value, 1000))),
            2 => Some(Self::StaminaUp(normalize(raw_value, 1000))),
            3 => Some(Self::PowerUp(normalize(raw_value, 1000))),
            4 => Some(Self::GutsUp(normalize(raw_value, 1000))),
            5 => Some(Self::WitUp(normalize(raw_value, 1000))),
            6 => Some(Self::RunawaySkill),
            8 => Some(Self::FieldOfViewUp(normalize(raw_value, 1000))),
            9 => Some(Self::StaminaRecovery(normalize(raw_value, 1000))),
            10 => Some(Self::StartReactionImprovement(normalize(raw_value, 10000))),
            13 => Some(Self::RushTimeIncrease(normalize(raw_value, 10000))),
            14 => Some(Self::StartDelayAdded(normalize(raw_value, 10000))),
            21 => Some(Self::CurrentSpeedDown(normalize(raw_value, 10000))),
            22 => Some(Self::CurrentSpeedUp(normalize(raw_value, 10000))),
            27 => Some(Self::TargetSpeedUp(normalize(raw_value, 10000))),
            28 => Some(Self::LaneChangeSpeed(normalize(raw_value, 1000))),
            29 => Some(Self::RushChanceDecrease(normalize(raw_value, 10000))),
            31 => Some(Self::AccelerationUp(normalize(raw_value, 1000))),
            32 => Some(Self::AllStatsUp(normalize(raw_value, 10000))),
            35 => Some(Self::ChangeLane(normalize(raw_value, 100))),
            37 => Some(Self::UseRandomRareSkills(normalize(raw_value, 10000))),
            38 => Some(Self::DebuffImmunity),
            41 => Some(Self::ActivateRelatedSkillsOnAllUma),
            42 => Some(Self::EvolvedSkillDurationUp(normalize(raw_value, 1000))),
            48 => Some(Self::ZenkaiSpurtAcceleration(normalize(raw_value, 10000))),
            _ => None,
        }
    }

    /// The display name of the effect's kind.
    pub fn kind_name(&self) -> (r: &'static str)
        ensures r@ == self.spec_kind_name(),
    {
        match self {
            Self::SpeedUp(_) => "Speed Up",
            Self::StaminaUp(_) => "Stamina Up",
            Self::PowerUp(_) => "Power Up",
            Self::GutsUp(_) => "Guts Up",
            Self::WitUp(_) => "Wit Up",
            Self::AllStatsUp(_) => "All Stats Up",
            Self::CurrentSpeedUp(_) => "Current Speed Up",
            Self::CurrentSpeedDown(_) => "Current Speed Down",
            Self::TargetSpeedUp(_) => "Increase Target Speed",
            Self::ZenkaiSpurtAcceleration(_) => "Zenkai Spurt Acceleration",
            Self::AccelerationUp(_) => "Acceleration Up",
            Self::StaminaRecovery(_) => "Stamina Recovery",
            Self::FieldOfViewUp(_) => "Field of View Up",
            Self::LaneChangeSpeed(_) => "Lane Change Speed",
            Self::ChangeLane(_) => "Change Lane",
            Self::StartReactionImprovement(_) => "Start Reaction Improvement",
            Self::StartDelayAdded(_) => "Start Delay Added",
            Self::RushTimeIncrease(_) => "Rush Time Increase",
            Self::RushChanceDecrease(_) => "Rush Chance Decrease",
            Self::UseRandomRareSkills(_) => "Use Random Rare Skills",
            Self::EvolvedSkillDurationUp(_) => "Evolved Skill Duration Up",
            Self::RunawaySkill => "Runaway",
            Self::DebuffImmunity => "Debuff Immunity",
            Self::ActivateRelatedSkillsOnAllUma => "Activate Related Skills on All Uma",
        }
    }

    /// The magnitude of the effect, for the effects that have one.
    pub fn value(&self) -> (r: Option<i32>)
        ensures r == self.spec_value(),
    {
        match self {
            Self::RunawaySkill | Self::DebuffImmunity | Self::ActivateRelatedSkillsOnAllUma => None,
            Self::SpeedUp(v)
            | Self::StaminaUp(v)
            | Self::PowerUp(v)
            | Self::GutsUp(v)
            | Self::WitUp(v)
            | Self::AllStatsUp(v)
            | Self::CurrentSpeedUp(v)
            | Self::CurrentSpeedDown(v)
            | Self::TargetSpeedUp(v)
            | Self::ZenkaiSpurtAcceleration(v)
            | Self::AccelerationUp(v)
            | Self::StaminaRecovery(v)
            | Self::FieldOfViewUp(v)
            | Self::LaneChangeSpeed(v)
            | Self::ChangeLane(v)
            | Self::StartReactionImprovement(v)
            | Self::StartDelayAdded(v)
            | Self::RushTimeIncrease(v)
            | Self::RushChanceDecrease(v)
            | Self::UseRandomRareSkills(v)
            | Self::EvolvedSkillDurationUp(v) => Some(*v),
        }
    }
}


/// `n` written with exactly `width` decimal digits, leading zeros included
/// (the lowest `width` digits when `n` has more).
pub open spec fn padded_digits(n: nat, width: nat) -> Seq<char>
    decreases width,
{
    if width == 0 {
        Seq::empty()
    } else {
        padded_digits(n / 10, (width - 1) as nat) + seq![digit_char((n % 10) as int)]
    }
}

/// A magnitude on a base of 10000 written as a decimal number: a whole number
/// when it is one; otherwise with one, two or four decimals, the fewest of
/// these that write it exactly.
pub open spec fn decimal_text(v: int) -> Seq<char> {
    let a = if v < 0 { -v } else { v };
    if a % 10000 == 0 {
        int_str(v / 10000)
    } else {
        (if v < 0 { seq!['-'] } else { Seq::empty() }) + nat_str((a / 10000) as nat) + seq!['.']
            + (if a % 1000 == 0 {
                padded_digits(((a % 10000) / 1000) as nat, 1)
            } else if a % 100 == 0 {
                padded_digits(((a % 10000) / 100) as nat, 2)
            } else {
                padded_digits((a % 10000) as nat, 4)
            })
    }
}

fn append_padded(out: &mut String, n: u64, width: u64)
    requires
        width <= 4,
    ensures
        final(out)@ == old(out)@ + padded_digits(n as nat, width as nat),
    decreases width,
{
    if width > 0 {
        append_padded(out, n / 10, width - 1);
        out.append(digit_text(n % 10));
        assert(final(out)@ =~= old(out)@ + padded_digits(n as nat, width as nat));
    }
}

/// The text of a magnitude on a base of 10000.
pub fn decimal_string(v: i32) -> (r: String)
    ensures
        r@ == decimal_text(v as int),
{
    let a: u64 = if v < 0 { (-(v as i64)) as u64 } else { v as u64 };
    if a % 10000 == 0 {
        proof {
            assert((v as int) % 10000 == 0 || (-(v as int)) % 10000 == 0);
        }
        let q: i64 = (v as i64) / 10000;
        return i64_to_string(q);
    }
    let mut out = if v < 0 { String::from_str("-") } else { String::new() };
    proof {
        reveal_strlit("-");
        reveal_strlit(".");
    }
    let whole = u64_to_string(a / 10000);
    out.append(whole.as_str());
    out.append(".");
    if a % 1000 == 0 {
        append_padded(&mut out, (a % 10000) / 1000, 1);
    } else if a % 100 == 0 {
        append_padded(&mut out, (a % 10000) / 100, 2);
    } else {
        append_padded(&mut out, a % 10000, 4);
    }
    assert(out@ =~= decimal_text(v as int));
    out
}

/// The single decimal digit `d`.
fn digit_text(d: u64) -> (r: &'static str)
    requires
        d < 10,
    ensures
        r@ == seq![digit_char(d as int)],
{
    if d == 0 { proof { reveal_strlit("0"); } "0" }
    else if d == 1 { proof { reveal_strlit("1"); } "1" }
    else if d == 2 { proof { reveal_strlit("2"); } "2" }
    else if d == 3 { proof { reveal_strlit("3"); } "3" }
    else if d == 4 { proof { reveal_strlit("4"); } "4" }
    else if d == 5 { proof { reveal_strlit("5"); } "5" }
    else if d == 6 { proof { reveal_strlit("6"); } "6" }
    else if d == 7 { proof { reveal_strlit("7"); } "7" }
    else if d == 8 { proof { reveal_strlit("8"); } "8" }
    else { proof { reveal_strlit("9"); } "9" }
}

impl EffectType {
    /// How the effect reads: its name and its magnitude as a decimal number.
    pub open spec fn spec_display_text(self) -> Seq<char> {
        match self {
            EffectType::SpeedUp(x) => "Speed +"@ + decimal_text(x as int),
            EffectType::StaminaUp(x) => "Stamina +"@ + decimal_text(x as int),
            EffectType::PowerUp(x) => "Power +"@ + decimal_text(x as int),
            EffectType::GutsUp(x) => "Guts +"@ + decimal_text(x as int),
            EffectType::WitUp(x) => "Wit +"@ + decimal_text(x as int),
            EffectType::AllStatsUp(x) => "All Stats +"@ + decimal_text(x as int),
            EffectType::CurrentSpeedUp(x) => "Current Speed +"@ + decimal_text(x as int),
            EffectType::CurrentSpeedDown(x) => "Current Speed "@ + decimal_text(x as int),
            EffectType::TargetSpeedUp(x) => "Target Speed +"@ + decimal_text(x as int),
            EffectType::ZenkaiSpurtAcceleration(x) => "Zenkai Spurt Accel +"@ + decimal_text(x as int),
            EffectType::AccelerationUp(x) => "Acceleration +"@ + decimal_text(x as int),
            EffectType::StaminaRecovery(x) => "Stamina Recovery +"@ + decimal_text(x as int),
            EffectType::FieldOfViewUp(x) => "Field of View +"@ + decimal_text(x as int),
            EffectType::LaneChangeSpeed(x) => "Lane Change Speed +"@ + decimal_text(x as int),
            EffectType::ChangeLane(x) => "Change Lane "@ + decimal_text(x as int),
            EffectType::StartReactionImprovement(x) => "Start Reaction +"@ + decimal_text(x as int),
            EffectType::StartDelayAdded(x) => "Start Delay +"@ + decimal_text(x as int),
            EffectType::RushTimeIncrease(x) => "Rush Time +"@ + decimal_text(x as int),
            EffectType::RushChanceDecrease(x) => "Rush Chance "@ + decimal_text(x as int),
            EffectType::UseRandomRareSkills(x) => "Random Rare Skills +"@ + decimal_text(x as int),
            EffectType::EvolvedSkillDurationUp(x) => "Evolved Skill Duration +"@ + decimal_text(x as int),
            EffectType::RunawaySkill => "Runaway"@,
            EffectType::DebuffImmunity => "Debuff Immunity"@,
            EffectType::ActivateRelatedSkillsOnAllUma => "Activate Related Skills on All Uma"@,
        }
    }

    /// The label of the effect's kind in its display text.
    fn display_label(&self) -> (r: &'static str)
        ensures
            self.spec_value() is Some ==> r@ + decimal_text(self.spec_value().unwrap() as int) == self.spec_display_text(),
            self.spec_value() is None ==> r@ == self.spec_display_text(),
    {
        match self {
            EffectType::SpeedUp(_) => "Speed +",
            EffectType::StaminaUp(_) => "Stamina +",
            EffectType::PowerUp(_) => "Power +",
            EffectType::GutsUp(_) => "Guts +",
            EffectType::WitUp(_) => "Wit +",
            EffectType::AllStatsUp(_) => "All Stats +",
            EffectType::CurrentSpeedUp(_) => "Current Speed +",
            EffectType::CurrentSpeedDown(_) => "Current Speed ",
            EffectType::TargetSpeedUp(_) => "Target Speed +",
            EffectType::ZenkaiSpurtAcceleration(_) => "Zenkai Spurt Accel +",
            EffectType::AccelerationUp(_) => "Acceleration +",
            EffectType::StaminaRecovery(_) => "Stamina Recovery +",
            EffectType::FieldOfViewUp(_) => "Field of View +",
            EffectType::LaneChangeSpeed(_) => "Lane Change Speed +",
            EffectType::ChangeLane(_) => "Change Lane ",
            EffectType::StartReactionImprovement(_) => "Start Reaction +",
            EffectType::StartDelayAdded(_) => "Start Delay +",
            EffectType::RushTimeIncrease(_) => "Rush Time +",
            EffectType::RushChanceDecrease(_) => "Rush Chance ",
            EffectType::UseRandomRareSkills(_) => "Random Rare Skills +",
            EffectType::EvolvedSkillDurationUp(_) => "Evolved Skill Duration +",
            EffectType::RunawaySkill => "Runaway",
            EffectType::DebuffImmunity => "Debuff Immunity",
            EffectType::ActivateRelatedSkillsOnAllUma => "Activate Related Skills on All Uma",
        }
    }

    /// How the effect reads, such as `Speed +0.35` or `Runaway`.
    pub fn display_text(&self) -> (r: String)
        ensures
            r@ == self.spec_display_text(),
    {
        let label = self.display_label();
        let mut out = String::from_str(label);
        match self.value() {
            Some(v) => {
                let num = decimal_string(v);
                out.append(num.as_str());
            },
            None => {},
        }
        out
    }
}

/// An effect built from a raw type id has a magnitude exactly when its type
/// id is not one of the three effects without one.
pub proof fn lemma_from_raw_value_presence(type_id: u64, raw: i64)
    requires spec_effect_from_raw(type_id, raw) is Some,
    ensures
        (spec_effect_from_raw(type_id, raw).unwrap().spec_value() is None)
            <==> (type_id == 6 || type_id == 38 || type_id == 41),
{
}


/// Two effects have the same kind name exactly when they are of the same
/// kind: the name never depends on the magnitude, and no two kinds share a
/// name.
pub proof fn law_kind_names_distinguish_kinds(e1: EffectType, e2: EffectType)
    ensures
        (e1.spec_kind_name() == e2.spec_kind_name()) <==> (e1.kind_index() == e2.kind_index()),
{
    reveal_strlit("Speed Up");
    reveal_strlit("Stamina Up");
    reveal_strlit("Power Up");
    reveal_strlit("Guts Up");
    reveal_strlit("Wit Up");
    reveal_strlit("All Stats Up");
    reveal_strlit("Current Speed Up");
    reveal_strlit("Current Speed Down");
    reveal_strlit("Increase Target Speed");
    reveal_strlit("Zenkai Spurt Acceleration");
    reveal_strlit("Acceleration Up");
    reveal_strlit("Stamina Recovery");
    reveal_strlit("Field of View Up");
    reveal_strlit("Lane Change Speed");
    reveal_strlit("Change Lane");
    reveal_strlit("Start Reaction Improvement");
    reveal_strlit("Start Delay Added");
    reveal_strlit("Rush Time Increase");
    reveal_strlit("Rush Chance Decrease");
    reveal_strlit("Use Random Rare Skills");
    reveal_strlit("Evolved Skill Duration Up");
    reveal_strlit("Runaway");
    reveal_strlit("Debuff Immunity");
    reveal_strlit("Activate Related Skills on All Uma");
    let (a, b) = (e1.spec_kind_name(), e2.spec_kind_name());
    if a == b {
        assert(a.len() == b.len() && a[0] == b[0]);
    }
}

} // verus!
