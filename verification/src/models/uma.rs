//! Trainees: stats, growth rates, aptitudes and skills.
use crate::dates::Date;
use crate::ids::UmaId;
use crate::uma_skill::UmaSkill;
use vstd::prelude::*;

verus! {

#[derive(Debug)]
pub struct Uma {
    pub id: UmaId,
    pub name: String,
    pub subtitle: String,
    pub rarity: UmaRarity,
    pub base_stats: BaseStats,
    pub growth_rates: GrowthRates,
    pub aptitudes: Aptitudes,
    pub skill_list: Vec<UmaSkill>,
    pub release_date: Date,
    pub is_predicted_date: bool,
}

#[derive(Debug, Copy, Clone, PartialEq, Eq, Structural)]
pub enum UmaRarity {
    R,
    SR,
    SSR,
}

impl UmaRarity {
    pub open spec fn spec_stars(self) -> Seq<char> {
        match self {
            UmaRarity::R => "⭐"@,
            UmaRarity::SR => "⭐⭐"@,
            UmaRarity::SSR => "⭐⭐⭐"@,
        }
    }

    /// The rarity as a row of stars, one per rarity level.
    pub fn stars(&self) -> (r: &'static str)
        ensures r@ == self.spec_stars(),
    {
        match self {
            UmaRarity::R => "⭐",
            UmaRarity::SR => "⭐⭐",
            UmaRarity::SSR => "⭐⭐⭐",
        }
    }
}

#[derive(Debug, Copy, Clone, PartialEq, Eq, Structural)]
pub struct BaseStats {
    pub speed: u32,
    pub stamina: u32,
    pub power: u32,
    pub guts: u32,
    pub wit: u32,
}

#[derive(Debug, Copy, Clone, PartialEq, Eq, Structural)]
pub struct GrowthRates {
    pub speed: u32,
    pub stamina: u32,
    pub power: u32,
    pub guts: u32,
    pub wit: u32,
}

#[derive(Debug, Copy, Clone, PartialEq, Eq, Structural)]
pub struct Aptitudes {
    pub surface: SurfaceAptitudes,
    pub distance: DistanceAptitudes,
    pub strategy: StrategyAptitudes,
}

#[derive(Debug, Copy, Clone, PartialEq, Eq, Structural)]
pub struct SurfaceAptitudes {
    pub turf: AptitudeLevel,
    pub dirt: AptitudeLevel,
}

#[derive(Debug, Copy, Clone, PartialEq, Eq, Structural)]
pub struct DistanceAptitudes {
    pub short: AptitudeLevel,
    pub mile: AptitudeLevel,
    pub medium: AptitudeLevel,
    pub long: AptitudeLevel,
}

#[derive(Debug, Copy, Clone, PartialEq, Eq, Structural)]
pub struct StrategyAptitudes {
    pub front: AptitudeLevel,
    pub pace: AptitudeLevel,
    pub late: AptitudeLevel,
    pub end: AptitudeLevel,
}

#[derive(Debug, Copy, Clone, PartialEq, Eq, Structural)]
pub enum AptitudeLevel {
    A,
    B,
    C,
    D,
    E,
    F,
    G,
}

} // verus!
