//! Skills that a trainee holds, and how each is acquired.
use crate::ids::SkillId;
use vstd::prelude::*;

verus! {

#[derive(Debug, Clone, Copy, PartialEq, Eq, Structural)]
pub enum SkillAcquisition {
    Unique,
    Innate,
    Awakening,
    Event,
    Evolution(SkillId),
}

#[derive(Debug, Clone, Copy, PartialEq, Eq, Structural)]
pub struct UmaSkill {
    pub id: SkillId,
    pub acquisition: SkillAcquisition,
}

impl SkillAcquisition {
    /// The skill that this one evolved from, for an evolution.
    pub fn evolved_from(&self) -> (r: Option<SkillId>)
        ensures
            r == (match *self {
                SkillAcquisition::Evolution(id) => Some(id),
                _ => None,
            }),
    {
        match self {
            SkillAcquisition::Evolution(id) => Some(*id),
            _ => None,
        }
    }
}

} // verus!
