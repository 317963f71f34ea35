//! The description of how a skill trigger's duration or magnitude scales.
use crate::json::JsonValue;
use vstd::prelude::*;

verus! {

/// The description of a duration scaling code; `None` for an unknown code.
pub open spec fn time_scale_text(code: u64) -> Option<Seq<char>> {
    if code == 2 {
        Some("Duration scales linearly 0.8–1.6× with distance from first place"@)
    } else if code == 3 {
        Some("Duration scales with remaining HP"@)
    } else if code == 4 {
        Some("Each overtake (up to 3) extends base duration by 1 second"@)
    } else {
        None
    }
}

/// The description of a magnitude scaling code; `None` for an unknown code.
pub open spec fn value_scale_text(code: u64) -> Option<Seq<char>> {
    if code == 2 {
        Some("Multiplier scales with number of skills learned (1 + 0.01 × skills, max 1.2 at 20)"@)
    } else if code == 3 {
        Some("Multiplier scales with combined team Speed stat"@)
    } else if code == 4 {
        Some("Multiplier scales with combined team Stamina stat"@)
    } else if code == 5 {
        Some("Multiplier scales with combined team Power stat"@)
    } else if code == 6 {
        Some("Multiplier scales with combined team Guts stat"@)
    } else if code == 7 {
        Some("Multiplier scales with combined team Wit stat"@)
    } else if code == 8 {
        Some("Multiplier is random (60%: none, 30%: +0.02, 10%: +0.04)"@)
    } else if code == 10 {
        Some("Multiplier scales with race victories during training"@)
    } else if code == 11 {
        Some("Multiplier scales with overtakes during Late-Race corners"@)
    } else if code == 12 {
        Some("Multiplier scales with fan count"@)
    } else if code == 14 {
        Some("Multiplier scales with green skills activated in the race"@)
    } else if code == 19 {
        Some("Each overtake (up to 3) grants additional acceleration for the remaining duration"@)
    } else if code == 20 {
        Some("Each skill activated while this is active (up to 3) grants additional speed for the remaining duration"@)
    } else if code == 22 {
        Some("Multiplier scales with base Speed stat"@)
    } else if code == 23 {
        Some("Multiplier scales with base Speed stat"@)
    } else if code == 24 {
        Some("Multiplier scales with cumulative Overseas Aptitude level"@)
    } else {
        None
    }
}

fn time_scale_description(code: u64) -> (r: Option<&'static str>)
    ensures
        match r {
            Some(t) => time_scale_text(code) == Some(t@),
            None => time_scale_text(code) is None,
        },
{
    match code {
        2 => Some("Duration scales linearly 0.8–1.6× with distance from first place"),
        3 => Some("Duration scales with remaining HP"),
        4 => Some("Each overtake (up to 3) extends base duration by 1 second"),
        _ => None,
    }
}

fn value_scale_description(code: u64) -> (r: Option<&'static str>)
    ensures
        match r {
            Some(t) => value_scale_text(code) == Some(t@),
            None => value_scale_text(code) is None,
        },
{
    match code {
        2 => Some("Multiplier scales with number of skills learned (1 + 0.01 × skills, max 1.2 at 20)"),
        3 => Some("Multiplier scales with combined team Speed stat"),
        4 => Some("Multiplier scales with combined team Stamina stat"),
        5 => Some("Multiplier scales with combined team Power stat"),
        6 => Some("Multiplier scales with combined team Guts stat"),
        7 => Some("Multiplier scales with combined team Wit stat"),
        8 => Some("Multiplier is random (60%: none, 30%: +0.02, 10%: +0.04)"),
        10 => Some("Multiplier scales with race victories during training"),
        11 => Some("Multiplier scales with overtakes during Late-Race corners"),
        12 => Some("Multiplier scales with fan count"),
        14 => Some("Multiplier scales with green skills activated in the race"),
        19 => Some("Each overtake (up to 3) grants additional acceleration for the remaining duration"),
        20 => Some("Each skill activated while this is active (up to 3) grants additional speed for the remaining duration"),
        22 => Some("Multiplier scales with base Speed stat"),
        23 => Some("Multiplier scales with base Speed stat"),
        24 => Some("Multiplier scales with cumulative Overseas Aptitude level"),
        _ => None,
    }
}

/// The `value_scale` of the first effect that has one (as a non-negative
/// integer).
pub open spec fn first_value_scale(effects: Seq<JsonValue>) -> Option<u64>
    decreases effects.len(),
{
    if effects.len() == 0 {
        None
    } else {
        match effects[0].at("value_scale"@).spec_as_u64() {
            Some(v) => Some(v),
            None => first_value_scale(effects.drop_first()),
        }
    }
}

/// How a trigger scales: by its `time_scale` when it has one; otherwise by
/// the `value_scale` of the first of its effects that has one. An unknown
/// code describes nothing, and the search stops at the first code found.
pub open spec fn spec_scaling(cg: JsonValue) -> Option<Seq<char>> {
    match cg.at("time_scale"@).spec_as_u64() {
        Some(t) => time_scale_text(t),
        None => match cg.at("effects"@).spec_as_array() {
            Some(effects) => match first_value_scale(effects) {
                Some(v) => value_scale_text(v),
                None => None,
            },
            None => None,
        },
    }
}

/// Describes how a trigger's duration or magnitude scales, if it does.
pub fn parse_scaling(cg: &JsonValue) -> (r: Option<String>)
    ensures
        match r {
            Some(t) => spec_scaling(*cg) == Some(t@),
            None => spec_scaling(*cg) is None,
        },
{
    if let Some(t) = cg.field_u64("time_scale") {
        return match time_scale_description(t) {
            Some(text) => Some(String::from_str(text)),
            None => None,
        };
    }
    let effects = match cg.field_array("effects") {
        Some(effects) => effects,
        None => return None,
    };
    let mut i: usize = 0;
    assert(effects@.skip(0) =~= effects@);
    while i < effects.len()
        invariant
            0 <= i <= effects.len(),
            spec_scaling(*cg) == (match first_value_scale(effects@.skip(i as int)) {
                Some(v) => value_scale_text(v),
                None => None,
            }),
        decreases effects.len() - i,
    {
        assert(effects@.skip(i as int)[0] == effects@[i as int]);
        assert(effects@.skip(i as int).drop_first() =~= effects@.skip(i + 1));
        if let Some(v) = effects[i].field_u64("value_scale") {
            return match value_scale_description(v) {
                Some(text) => Some(String::from_str(text)),
                None => None,
            };
        }
        i += 1;
    }
    None
}

} // verus!
