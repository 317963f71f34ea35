use vstd::prelude::*;

verus! {

/// Identifier of a skill.
#[derive(Debug, Clone, Copy, PartialEq, Eq, Hash, Structural)]
pub struct SkillId(pub u32);

/// Identifier of a trainee (a character card).
#[derive(Debug, Clone, Copy, PartialEq, Eq, Hash, Structural)]
pub struct UmaId(pub u32);

/// Identifier of a support card.
#[derive(Debug, Clone, Copy, PartialEq, Eq, Hash, Structural)]
pub struct SupportCardId(pub u32);

} // verus!
