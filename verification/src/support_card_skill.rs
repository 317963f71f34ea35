//! Skills that a support card hands out.
use crate::ids::SkillId;
use vstd::prelude::*;

verus! {

#[derive(Debug, Clone, Copy, PartialEq, Eq, Structural)]
pub struct SupportCardSkill {
    pub skill_id: SkillId,
    pub acquisition: HintAcquisition,
}

#[derive(Debug, Clone, Copy, PartialEq, Eq, Structural)]
pub enum HintAcquisition {
    Event,
    Hint,
}

impl HintAcquisition {
    pub open spec fn spec_as_str(self) -> Seq<char> {
        match self {
            HintAcquisition::Event => "event"@,
            HintAcquisition::Hint => "hint"@,
        }
    }

    /// The lower-case name of the way the skill is acquired.
    pub fn as_str(&self) -> (r: &'static str)
        ensures r@ == self.spec_as_str(),
    {
        match self {
            HintAcquisition::Event => "event",
            HintAcquisition::Hint => "hint",
        }
    }
}

} // verus!
