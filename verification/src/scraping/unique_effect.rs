//! Unique effects of support cards, rendered as English text.
use crate::json::JsonValue;
use crate::scraping::error::{error_of, ErrorKind, ScraperError, ScraperResult};
use crate::text::{i64_to_string, int_str, nat_str, u64_to_string};
use vstd::prelude::*;

verus! {

/// The `i`-th value of a unique effect, 0 when there is none.
pub open spec fn uv(values: Seq<i64>, i: int) -> i64 {
    if 0 <= i < values.len() { values[i] } else { 0 }
}

pub open spec fn uv0(values: Seq<i64>) -> i64 { uv(values, 0) }

pub open spec fn uv1(values: Seq<i64>) -> i64 { uv(values, 1) }

pub open spec fn uv2(values: Seq<i64>) -> i64 { uv(values, 2) }

pub open spec fn uv3(values: Seq<i64>) -> i64 { uv(values, 3) }

pub open spec fn uv4(values: Seq<i64>) -> i64 { uv(values, 4) }

/// The label of a unique effect type that is a plain bonus, and whether its
/// value is a percentage.
pub open spec fn simple_unique_label(type_id: u64) -> Option<(Seq<char>, bool)> {
    if type_id == 1 { Some(("Friendship Bonus"@, false)) }
    else if type_id == 2 { Some(("Mood Effect"@, false)) }
    else if type_id == 3 { Some(("Speed Bonus"@, false)) }
    else if type_id == 4 { Some(("Stamina Bonus"@, false)) }
    else if type_id == 5 { Some(("Power Bonus"@, false)) }
    else if type_id == 6 { Some(("Guts Bonus"@, false)) }
    else if type_id == 7 { Some(("Wit Bonus"@, false)) }
    else if type_id == 8 { Some(("Training Effectiveness"@, true)) }
    else if type_id == 9 { Some(("Initial Speed"@, false)) }
    else if type_id == 10 { Some(("Initial Stamina"@, false)) }
    else if type_id == 11 { Some(("Initial Power"@, false)) }
    else if type_id == 12 { Some(("Initial Guts"@, false)) }
    else if type_id == 13 { Some(("Initial Wit"@, false)) }
    else if type_id == 14 { Some(("Initial Friendship Gauge"@, false)) }
    else if type_id == 15 { Some(("Race Bonus"@, true)) }
    else if type_id == 16 { Some(("Fan Bonus"@, true)) }
    else if type_id == 17 { Some(("Hint Levels"@, false)) }
    else if type_id == 18 { Some(("Hint Frequency"@, true)) }
    else if type_id == 19 { Some(("Specialty Priority"@, false)) }
    else if type_id == 25 { Some(("Event Recovery"@, true)) }
    else if type_id == 26 { Some(("Event Effectiveness"@, true)) }
    else if type_id == 27 { Some(("Failure Protection"@, true)) }
    else if type_id == 28 { Some(("Energy Cost Reduction"@, true)) }
    else if type_id == 30 { Some(("Skill Point Bonus"@, false)) }
    else if type_id == 31 { Some(("Wit Friendship Recovery"@, false)) }
    else if type_id == 32 { Some(("Initial Skill Points"@, false)) }
    else if type_id == 33 { Some(("Hint Quantity Bonus"@, false)) }
    else if type_id == 41 { Some(("All Stats Bonus"@, false)) }
    else { None }
}

/// A unique effect type and values can be translated without indexing past
/// the values or overflowing a product.
pub open spec fn unique_translatable(type_id: u64, values: Seq<i64>) -> bool
    decreases values.len(),
{
    if type_id == 101 {
        values.len() >= 2 && unique_translatable(values[1] as u64, values.skip(2))
    } else if type_id == 104 {
        i64::MIN <= uv0(values) * uv1(values) <= i64::MAX
    } else if type_id == 106 {
        i64::MIN <= uv0(values) * uv2(values) <= i64::MAX
    } else if type_id == 116 {
        i64::MIN <= uv2(values) * uv3(values) <= i64::MAX
    } else {
        true
    }
}

/// The English text of a unique effect type with its values; `None` for an
/// unknown type. Type 101 wraps the effect that its second value names, with
/// the remaining values, in a bond gauge condition given by its first value.
pub open spec fn unique_text(type_id: u64, values: Seq<i64>) -> Option<Seq<char>>
    decreases values.len(),
{
    if simple_unique_label(type_id) is Some {
        let (label, pct) = simple_unique_label(type_id).unwrap();
        Some(label + " "@ + int_str(uv0(values) as int) + (if pct { "%"@ } else { ""@ }))
    } else if type_id == 101 {
        if values.len() >= 2 {
            let condition = if uv0(values) == 100 {
                "when the bond gauge is full"@
            } else {
                "when bond gauge is at least "@ + int_str(uv0(values) as int)
            };
            match unique_text(values[1] as u64, values.skip(2)) {
                Some(e) => Some("Gain "@ + e + " "@ + condition),
                None => None,
            }
        } else {
            None
        }
    }
    else if type_id == 102 { Some("When the bond gauge is "@ + int_str(uv0(values) as int) + " or higher and this card is in a facility different from its type, gain increased Training Effectiveness "@ + int_str(uv1(values) as int) + ""@) }
    else if type_id == 103 { Some("If there are at least "@ + int_str(uv0(values) as int) + " different types of support cards in your deck, gain increased Training Effectiveness "@ + int_str(uv1(values) as int) + ""@) }
    else if type_id == 104 { Some("Gain increased Training Effectiveness (1) per "@ + int_str(uv0(values) as int) + " fans, up to "@ + int_str(uv1(values) as int) + " for "@ + int_str(uv0(values) * uv1(values)) + ""@) }
    else if type_id == 105 { Some("Gain Initial Stat Up ("@ + int_str(uv0(values) as int) + "), where Stat is the type of card, for every card in your support deck (Friend and Group types give ("@ + int_str(uv1(values) as int) + ") to every stat)"@) }
    else if type_id == 106 { Some("Gain Friendship Bonus ("@ + int_str(uv2(values) as int) + ") every time you do friendship training with this card, up to "@ + int_str(uv0(values) as int) + " times for a total of ("@ + int_str(uv0(values) * uv2(values)) + ")"@) }
    else if type_id == 107 { Some("The less energy you have, the more Friendship Bonus you'll gain (Max: "@ + int_str(uv3(values) as int) + ")"@) }
    else if type_id == 108 { Some("The more maximum energy you have, the higher Training Effectiveness you'll gain (Max: "@ + int_str(uv4(values) as int) + ")"@) }
    else if type_id == 109 { Some("The higher the bond of all your support is, the higher Training Effectiveness you'll gain (Max: 20)"@) }
    else if type_id == 110 { Some("Gain Training Effectiveness ("@ + int_str(uv1(values) as int) + ") for every support card in the same training facility"@) }
    else if type_id == 111 { Some("Gain Training Effectiveness ("@ + int_str(uv1(values) as int) + ") per every level of the current training facility"@) }
    else if type_id == 112 { Some(""@ + int_str(uv0(values) as int) + "% chance to make the current training fail rate zero"@) }
    else if type_id == 113 { Some("Gain Mood Effect ("@ + int_str(uv1(values) as int) + ") when participating in a friendship training"@) }
    else if type_id == 114 { Some("The more energy you have, the more Training Effectiveness you'll gain (Max: "@ + int_str(uv2(values) as int) + ")"@) }
    else if type_id == 115 { Some("All support cards gain Initial Friendship Gauge ("@ + int_str(uv1(values) as int) + ")"@) }
    else if type_id == 116 { Some("Gain Training Effectiveness ("@ + int_str(uv2(values) as int) + ") for every Speed-increasing skill, up to ("@ + int_str(uv2(values) * uv3(values)) + ") for "@ + int_str(uv3(values) as int) + " skills"@) }
    else if type_id == 117 { Some("The higher combined facility level, the higher Training Effectiveness you'll gain (up to "@ + int_str(uv2(values) as int) + ")"@) }
    else if type_id == 118 { Some("When the bond gauge is "@ + int_str(uv1(values) as int) + " or higher, this support can appear in 2 training facilities at once"@) }
    else if type_id == 119 { Some("When the bond gauge is "@ + int_str(uv2(values) as int) + " or higher, all support cards in your deck are more likely to appear in training facilities"@) }
    else if type_id == 120 { Some("When the bond gauge is "@ + int_str(uv1(values) as int) + " or higher, gain Stat Bonus, where Stat is the type of the card, for every card in your support deck (up to 2 per Stat); Friend and Group cards give skill points"@) }
    else if type_id == 121 { Some("All supports get "@ + int_str(uv0(values) as int) + " bonus bond from training; "@ + int_str(uv1(values) as int) + " if they're in the same facility as this card"@) }
    else if type_id == 122 { Some("Supports that train together with this one gain Specialty Priority ("@ + int_str(uv1(values) as int) + ") for the next turn"@) }
    else { None }
}

fn simple_label(type_id: u64) -> (r: Option<(&'static str, bool)>)
    ensures
        match r {
            Some((l, p)) => simple_unique_label(type_id) == Some((l@, p)),
            None => simple_unique_label(type_id) is None,
        },
{
    match type_id {
        1 => Some(("Friendship Bonus", false)),
        2 => Some(("Mood Effect", false)),
        3 => Some(("Speed Bonus", false)),
        4 => Some(("Stamina Bonus", false)),
        5 => Some(("Power Bonus", false)),
        6 => Some(("Guts Bonus", false)),
        7 => Some(("Wit Bonus", false)),
        8 => Some(("Training Effectiveness", true)),
        9 => Some(("Initial Speed", false)),
        10 => Some(("Initial Stamina", false)),
        11 => Some(("Initial Power", false)),
        12 => Some(("Initial Guts", false)),
        13 => Some(("Initial Wit", false)),
        14 => Some(("Initial Friendship Gauge", false)),
        15 => Some(("Race Bonus", true)),
        16 => Some(("Fan Bonus", true)),
        17 => Some(("Hint Levels", false)),
        18 => Some(("Hint Frequency", true)),
        19 => Some(("Specialty Priority", false)),
        25 => Some(("Event Recovery", true)),
        26 => Some(("Event Effectiveness", true)),
        27 => Some(("Failure Protection", true)),
        28 => Some(("Energy Cost Reduction", true)),
        30 => Some(("Skill Point Bonus", false)),
        31 => Some(("Wit Friendship Recovery", false)),
        32 => Some(("Initial Skill Points", false)),
        33 => Some(("Hint Quantity Bonus", false)),
        41 => Some(("All Stats Bonus", false)),
        _ => None,
    }
}

fn value_at(values: &[i64], i: usize) -> (r: i64)
    ensures r == uv(values@, i as int),
{
    if i < values.len() { values[i] } else { 0 }
}

/// Translates a unique effect type id and its values into English text;
/// `None` for an unknown type id.
pub fn translate_unique_effect_type(type_id: u64, values: &[i64]) -> (r: Option<String>)
    requires unique_translatable(type_id, values@),
    ensures
        match r {
            Some(t) => unique_text(type_id, values@) == Some(t@),
            None => unique_text(type_id, values@) is None,
        },
    decreases values@.len(),
{
    proof { reveal_strlit(""); reveal_strlit("%"); reveal_strlit(" "); }
    let v0 = value_at(values, 0);
    let v1 = value_at(values, 1);
    let v2 = value_at(values, 2);
    let v3 = value_at(values, 3);
    let v4 = value_at(values, 4);
    if let Some((label, pct)) = simple_label(type_id) {
        let mut s = String::from_str(label);
        s.append(" ");
        s.append(i64_to_string(v0).as_str());
        if pct {
            s.append("%");
        }
        proof {
            let expected = label@ + " "@ + int_str(v0 as int) + (if pct { "%"@ } else { ""@ });
            assert(s@ =~= expected);
        }
        return Some(s);
    }
    match type_id {
        101 => {
            let condition = if v0 == 100 {
                String::from_str("when the bond gauge is full")
            } else {
                let mut c = String::from_str("when bond gauge is at least ");
                c.append(i64_to_string(v0).as_str());
                c
            };
            let rest = crate::text::suffix_slice(values, 2);
            match translate_unique_effect_type(#[verifier::truncate] (v1 as u64), rest) {
                Some(e) => {
                    let mut s = String::from_str("Gain ");
                    s.append(e.as_str());
                    s.append(" ");
                    s.append(condition.as_str());
                    proof {
                        assert(s@ =~= "Gain "@ + e@ + " "@ + condition@);
                    }
                    Some(s)
                },
                None => None,
            }
        },
        102 => {
            let mut s = String::from_str("When the bond gauge is ");
            s.append(i64_to_string(v0).as_str());
            s.append(" or higher and this card is in a facility different from its type, gain increased Training Effectiveness ");
            s.append(i64_to_string(v1).as_str());
            s.append("");
            proof { assert(s@ =~= "When the bond gauge is "@ + int_str(uv0(values@) as int) + " or higher and this card is in a facility different from its type, gain increased Training Effectiveness "@ + int_str(uv1(values@) as int) + ""@); }
            Some(s)
        },
        103 => {
            let mut s = String::from_str("If there are at least ");
            s.append(i64_to_string(v0).as_str());
            s.append(" different types of support cards in your deck, gain increased Training Effectiveness ");
            s.append(i64_to_string(v1).as_str());
            s.append("");
            proof { assert(s@ =~= "If there are at least "@ + int_str(uv0(values@) as int) + " different types of support cards in your deck, gain increased Training Effectiveness "@ + int_str(uv1(values@) as int) + ""@); }
            Some(s)
        },
        104 => {
            let mut s = String::from_str("Gain increased Training Effectiveness (1) per ");
            s.append(i64_to_string(v0).as_str());
            s.append(" fans, up to ");
            s.append(i64_to_string(v1).as_str());
            s.append(" for ");
            s.append(i64_to_string(v0 * v1).as_str());
            s.append("");
            proof { assert(s@ =~= "Gain increased Training Effectiveness (1) per "@ + int_str(uv0(values@) as int) + " fans, up to "@ + int_str(uv1(values@) as int) + " for "@ + int_str(uv0(values@) * uv1(values@)) + ""@); }
            Some(s)
        },
        105 => {
            let mut s = String::from_str("Gain Initial Stat Up (");
            s.append(i64_to_string(v0).as_str());
            s.append("), where Stat is the type of card, for every card in your support deck (Friend and Group types give (");
            s.append(i64_to_string(v1).as_str());
            s.append(") to every stat)");
            proof { assert(s@ =~= "Gain Initial Stat Up ("@ + int_str(uv0(values@) as int) + "), where Stat is the type of card, for every card in your support deck (Friend and Group types give ("@ + int_str(uv1(values@) as int) + ") to every stat)"@); }
            Some(s)
        },
        106 => {
            let mut s = String::from_str("Gain Friendship Bonus (");
            s.append(i64_to_string(v2).as_str());
            s.append(") every time you do friendship training with this card, up to ");
            s.append(i64_to_string(v0).as_str());
            s.append(" times for a total of (");
            s.append(i64_to_string(v0 * v2).as_str());
            s.append(")");
            proof { assert(s@ =~= "Gain Friendship Bonus ("@ + int_str(uv2(values@) as int) + ") every time you do friendship training with this card, up to "@ + int_str(uv0(values@) as int) + " times for a total of ("@ + int_str(uv0(values@) * uv2(values@)) + ")"@); }
            Some(s)
        },
        107 => {
            let mut s = String::from_str("The less energy you have, the more Friendship Bonus you'll gain (Max: ");
            s.append(i64_to_string(v3).as_str());
            s.append(")");
            proof { assert(s@ =~= "The less energy you have, the more Friendship Bonus you'll gain (Max: "@ + int_str(uv3(values@) as int) + ")"@); }
            Some(s)
        },
        108 => {
            let mut s = String::from_str("The more maximum energy you have, the higher Training Effectiveness you'll gain (Max: ");
            s.append(i64_to_string(v4).as_str());
            s.append(")");
            proof { assert(s@ =~= "The more maximum energy you have, the higher Training Effectiveness you'll gain (Max: "@ + int_str(uv4(values@) as int) + ")"@); }
            Some(s)
        },
        109 => {
            let mut s = String::from_str("The higher the bond of all your support is, the higher Training Effectiveness you'll gain (Max: 20)");
            proof { assert(s@ =~= "The higher the bond of all your support is, the higher Training Effectiveness you'll gain (Max: 20)"@); }
            Some(s)
        },
        110 => {
            let mut s = String::from_str("Gain Training Effectiveness (");
            s.append(i64_to_string(v1).as_str());
            s.append(") for every support card in the same training facility");
            proof { assert(s@ =~= "Gain Training Effectiveness ("@ + int_str(uv1(values@) as int) + ") for every support card in the same training facility"@); }
            Some(s)
        },
        111 => {
            let mut s = String::from_str("Gain Training Effectiveness (");
            s.append(i64_to_string(v1).as_str());
            s.append(") per every level of the current training facility");
            proof { assert(s@ =~= "Gain Training Effectiveness ("@ + int_str(uv1(values@) as int) + ") per every level of the current training facility"@); }
            Some(s)
        },
        112 => {
            let mut s = String::from_str("");
            s.append(i64_to_string(v0).as_str());
            s.append("% chance to make the current training fail rate zero");
            proof { assert(s@ =~= ""@ + int_str(uv0(values@) as int) + "% chance to make the current training fail rate zero"@); }
            Some(s)
        },
        113 => {
            let mut s = String::from_str("Gain Mood Effect (");
            s.append(i64_to_string(v1).as_str());
            s.append(") when participating in a friendship training");
            proof { assert(s@ =~= "Gain Mood Effect ("@ + int_str(uv1(values@) as int) + ") when participating in a friendship training"@); }
            Some(s)
        },
        114 => {
            let mut s = String::from_str("The more energy you have, the more Training Effectiveness you'll gain (Max: ");
            s.append(i64_to_string(v2).as_str());
            s.append(")");
            proof { assert(s@ =~= "The more energy you have, the more Training Effectiveness you'll gain (Max: "@ + int_str(uv2(values@) as int) + ")"@); }
            Some(s)
        },
        115 => {
            let mut s = String::from_str("All support cards gain Initial Friendship Gauge (");
            s.append(i64_to_string(v1).as_str());
            s.append(")");
            proof { assert(s@ =~= "All support cards gain Initial Friendship Gauge ("@ + int_str(uv1(values@) as int) + ")"@); }
            Some(s)
        },
        116 => {
            let mut s = String::from_str("Gain Training Effectiveness (");
            s.append(i64_to_string(v2).as_str());
            s.append(") for every Speed-increasing skill, up to (");
            s.append(i64_to_string(v2 * v3).as_str());
            s.append(") for ");
            s.append(i64_to_string(v3).as_str());
            s.append(" skills");
            proof { assert(s@ =~= "Gain Training Effectiveness ("@ + int_str(uv2(values@) as int) + ") for every Speed-increasing skill, up to ("@ + int_str(uv2(values@) * uv3(values@)) + ") for "@ + int_str(uv3(values@) as int) + " skills"@); }
            Some(s)
        },
        117 => {
            let mut s = String::from_str("The higher combined facility level, the higher Training Effectiveness you'll gain (up to ");
            s.append(i64_to_string(v2).as_str());
            s.append(")");
            proof { assert(s@ =~= "The higher combined facility level, the higher Training Effectiveness you'll gain (up to "@ + int_str(uv2(values@) as int) + ")"@); }
            Some(s)
        },
        118 => {
            let mut s = String::from_str("When the bond gauge is ");
            s.append(i64_to_string(v1).as_str());
            s.append(" or higher, this support can appear in 2 training facilities at once");
            proof { assert(s@ =~= "When the bond gauge is "@ + int_str(uv1(values@) as int) + " or higher, this support can appear in 2 training facilities at once"@); }
            Some(s)
        },
        119 => {
            let mut s = String::from_str("When the bond gauge is ");
            s.append(i64_to_string(v2).as_str());
            s.append(" or higher, all support cards in your deck are more likely to appear in training facilities");
            proof { assert(s@ =~= "When the bond gauge is "@ + int_str(uv2(values@) as int) + " or higher, all support cards in your deck are more likely to appear in training facilities"@); }
            Some(s)
        },
        120 => {
            let mut s = String::from_str("When the bond gauge is ");
            s.append(i64_to_string(v1).as_str());
            s.append(" or higher, gain Stat Bonus, where Stat is the type of the card, for every card in your support deck (up to 2 per Stat); Friend and Group cards give skill points");
            proof { assert(s@ =~= "When the bond gauge is "@ + int_str(uv1(values@) as int) + " or higher, gain Stat Bonus, where Stat is the type of the card, for every card in your support deck (up to 2 per Stat); Friend and Group cards give skill points"@); }
            Some(s)
        },
        121 => {
            let mut s = String::from_str("All supports get ");
            s.append(i64_to_string(v0).as_str());
            s.append(" bonus bond from training; ");
            s.append(i64_to_string(v1).as_str());
            s.append(" if they're in the same facility as this card");
            proof { assert(s@ =~= "All supports get "@ + int_str(uv0(values@) as int) + " bonus bond from training; "@ + int_str(uv1(values@) as int) + " if they're in the same facility as this card"@); }
            Some(s)
        },
        122 => {
            let mut s = String::from_str("Supports that train together with this one gain Specialty Priority (");
            s.append(i64_to_string(v1).as_str());
            s.append(") for the next turn");
            proof { assert(s@ =~= "Supports that train together with this one gain Specialty Priority ("@ + int_str(uv1(values@) as int) + ") for the next turn"@); }
            Some(s)
        },
        _ => None,
    }
}


pub open spec fn opt_seq(o: Option<i64>) -> Seq<i64> {
    match o {
        Some(v) => seq![v],
        None => Seq::empty(),
    }
}

/// The values of a unique effect: those of `value`, `value_1`, ..., `value_4`
/// that are present, in that order.
pub open spec fn collected_values(effect: JsonValue) -> Seq<i64> {
    opt_seq(effect.at("value"@).spec_as_i64()) + opt_seq(effect.at("value_1"@).spec_as_i64())
        + opt_seq(effect.at("value_2"@).spec_as_i64()) + opt_seq(effect.at("value_3"@).spec_as_i64())
        + opt_seq(effect.at("value_4"@).spec_as_i64())
}

/// Collects the value fields of a unique effect in positional order.
pub fn collect_effect_values(effect: &JsonValue) -> (r: Vec<i64>)
    ensures r@ == collected_values(*effect),
{
    let mut values: Vec<i64> = Vec::new();
    if let Some(v) = effect.field_i64("value") {
        values.push(v);
    }
    if let Some(v) = effect.field_i64("value_1") {
        values.push(v);
    }
    if let Some(v) = effect.field_i64("value_2") {
        values.push(v);
    }
    if let Some(v) = effect.field_i64("value_3") {
        values.push(v);
    }
    if let Some(v) = effect.field_i64("value_4") {
        values.push(v);
    }
    assert(values@ =~= collected_values(*effect));
    values
}

/// The descriptions of the unique effect entries in order, or the error of
/// the first entry that has no type or an unknown one.
pub open spec fn unique_parts(effects: Seq<JsonValue>) -> Result<Seq<Seq<char>>, (ErrorKind, Seq<char>)>
    decreases effects.len(),
{
    if effects.len() == 0 {
        Ok(Seq::empty())
    } else {
        match effects[0].at("type"@).spec_as_u64() {
            None => Err((ErrorKind::MissingField, "unique effect type"@)),
            Some(t) => match unique_text(t, collected_values(effects[0])) {
                None => Err((ErrorKind::UnknownValue, "unique effect type ID "@ + nat_str(t as nat))),
                Some(d) => match unique_parts(effects.drop_first()) {
                    Ok(rest) => Ok(seq![d] + rest),
                    Err(e) => Err(e),
                },
            },
        }
    }
}

/// The entries of a unique effect, up to the first that fails, can be
/// translated without indexing past their values or overflowing.
pub open spec fn unique_entries_translatable(effects: Seq<JsonValue>) -> bool
    decreases effects.len(),
{
    if effects.len() == 0 {
        true
    } else {
        match effects[0].at("type"@).spec_as_u64() {
            None => true,
            Some(t) => unique_translatable(t, collected_values(effects[0]))
                && (unique_text(t, collected_values(effects[0])) is None
                    || unique_entries_translatable(effects.drop_first())),
        }
    }
}

/// A unique effect object can be translated without indexing past its
/// values or overflowing.
pub open spec fn unique_effect_translatable(unique: JsonValue) -> bool {
    match unique.at("effects"@).spec_as_array() {
        Some(effects) => unique_entries_translatable(effects),
        None => true,
    }
}

/// `parts` joined with `sep` between consecutive parts.
pub open spec fn join(parts: Seq<Seq<char>>, sep: Seq<char>) -> Seq<char>
    decreases parts.len(),
{
    if parts.len() == 0 {
        Seq::empty()
    } else if parts.len() == 1 {
        parts[0]
    } else {
        join(parts.drop_last(), sep) + sep + parts.last()
    }
}

/// The description of a support card's unique effect: the descriptions of its
/// entries joined by a space when the first entry is a bond gauge condition
/// (type 101), and by `, ` otherwise.
pub open spec fn spec_unique_effect(unique: JsonValue) -> Result<Seq<char>, (ErrorKind, Seq<char>)> {
    match unique.at("effects"@).spec_as_array() {
        None => Err((ErrorKind::MissingField, "unique.effects"@)),
        Some(effects) => if effects.len() == 0 {
            Err((ErrorKind::InvalidShape, "unique effects array is empty"@))
        } else {
            let conditional = effects[0].at("type"@).spec_as_u64() == Some(101u64);
            match unique_parts(effects) {
                Ok(parts) => Ok(join(parts, if conditional { " "@ } else { ", "@ })),
                Err(e) => Err(e),
            }
        },
    }
}

/// Joins the strings with `sep` between consecutive ones.
pub fn join_strings(parts: &Vec<String>, sep: &str) -> (r: String)
    ensures r@ == join(parts@.map_values(|p: String| p@), sep@),
{
    let ghost views = parts@.map_values(|p: String| p@);
    let mut out = String::new();
    let mut i: usize = 0;
    while i < parts.len()
        invariant
            0 <= i <= parts.len(),
            views == parts@.map_values(|p: String| p@),
            out@ == join(views.take(i as int), sep@),
        decreases parts.len() - i,
    {
        assert(views.take(i + 1).drop_last() =~= views.take(i as int));
        assert(views.take(i + 1).last() == parts@[i as int]@);
        if i == 0 {
            out.append(parts[i].as_str());
            assert(out@ =~= join(views.take(1), sep@));
        } else {
            out.append(sep);
            out.append(parts[i].as_str());
        }
        i += 1;
    }
    assert(views.take(parts.len() as int) =~= views);
    out
}

/// Describes a support card's unique effect in English.
pub fn parse_unique_effect(unique: &JsonValue) -> (r: ScraperResult<String>)
    requires unique_effect_translatable(*unique),
    ensures
        match r {
            Ok(t) => spec_unique_effect(*unique) == Ok::<Seq<char>, (ErrorKind, Seq<char>)>(t@),
            Err(e) => spec_unique_effect(*unique) == Err::<Seq<char>, (ErrorKind, Seq<char>)>(e.report()),
        },
{
    let effects = match unique.field_array("effects") {
        Some(e) => e,
        None => return Err(error_of(ErrorKind::MissingField, String::from_str("unique.effects"))),
    };
    if effects.len() == 0 {
        return Err(error_of(ErrorKind::InvalidShape, String::from_str("unique effects array is empty")));
    }
    let is_conditional = match effects[0].field_u64("type") {
        Some(t) => t == 101,
        None => false,
    };
    let mut parts: Vec<String> = Vec::new();
    let mut i: usize = 0;
    proof {
        assert(effects@.skip(0) =~= effects@);
        match unique_parts(effects@) {
            Ok(p) => { assert(Seq::<Seq<char>>::empty() + p =~= p); },
            Err(_) => {},
        }
        assert(parts@.map_values(|p: String| p@) =~= Seq::<Seq<char>>::empty());
    }
    while i < effects.len()
        invariant
            0 <= i <= effects.len(),
            unique.at("effects"@).spec_as_array() == Some(effects@),
            effects@.len() > 0,
            is_conditional == (effects@[0].at("type"@).spec_as_u64() == Some(101u64)),
            unique_entries_translatable(effects@.skip(i as int)),
            unique_parts(effects@) == match unique_parts(effects@.skip(i as int)) {
                Ok(rest) => Ok(parts@.map_values(|p: String| p@) + rest),
                Err(e) => Err::<Seq<Seq<char>>, (ErrorKind, Seq<char>)>(e),
            },
        decreases effects.len() - i,
    {
        let effect = &effects[i];
        assert(effects@.skip(i as int)[0] == *effect);
        assert(effects@.skip(i as int).drop_first() =~= effects@.skip(i + 1));
        let type_id = match effect.field_u64("type") {
            Some(t) => t,
            None => return Err(error_of(ErrorKind::MissingField, String::from_str("unique effect type"))),
        };
        let values = collect_effect_values(effect);
        match translate_unique_effect_type(type_id, values.as_slice()) {
            Some(description) => {
                let ghost before = parts@.map_values(|p: String| p@);
                parts.push(description);
                proof {
                    assert(parts@.map_values(|p: String| p@) =~= before.push(description@));
                    match unique_parts(effects@.skip(i + 1)) {
                        Ok(rest) => { assert(before + (seq![description@] + rest) =~= before.push(description@) + rest); },
                        Err(_) => {},
                    }
                }
            },
            None => {
                let msg = crate::scraping::skills::text_num_text("unique effect type ID ", type_id, "");
                proof { reveal_strlit(""); assert(msg@ =~= "unique effect type ID "@ + nat_str(type_id as nat)); }
                return Err(error_of(ErrorKind::UnknownValue, msg));
            },
        }
        i += 1;
    }
    proof {
        assert(effects@.skip(i as int) =~= Seq::<JsonValue>::empty());
        let v = parts@.map_values(|p: String| p@);
        assert(v + Seq::<Seq<char>>::empty() =~= v);
    }
    let body = if is_conditional { join_strings(&parts, " ") } else { join_strings(&parts, ", ") };
    Ok(body)
}


fn product_fits(a: i64, b: i64) -> (r: bool)
    ensures
        r == (i64::MIN <= a * b <= i64::MAX),
{
    assert(-0x4000_0000_0000_0000_0000_0000_0000_0000 <= a * b <= 0x4000_0000_0000_0000_0000_0000_0000_0000) by (nonlinear_arith)
        requires
            -0x8000_0000_0000_0000 <= a <= 0x8000_0000_0000_0000,
            -0x8000_0000_0000_0000 <= b <= 0x8000_0000_0000_0000;
    let p: i128 = (a as i128) * (b as i128);
    p >= i64::MIN as i128 && p <= i64::MAX as i128
}

/// Whether a unique effect type and its values can be translated without
/// indexing past the values or overflowing a product.
pub fn unique_values_translatable(type_id: u64, values: &[i64]) -> (r: bool)
    ensures
        r == unique_translatable(type_id, values@),
    decreases values@.len(),
{
    if type_id == 101 {
        if values.len() < 2 {
            return false;
        }
        let rest = crate::text::suffix_slice(values, 2);
        unique_values_translatable(#[verifier::truncate] (values[1] as u64), rest)
    } else if type_id == 104 {
        product_fits(value_at(values, 0), value_at(values, 1))
    } else if type_id == 106 {
        product_fits(value_at(values, 0), value_at(values, 2))
    } else if type_id == 116 {
        product_fits(value_at(values, 2), value_at(values, 3))
    } else {
        true
    }
}

/// Whether a unique effect object can be translated without indexing past
/// its values or overflowing.
pub fn unique_effect_is_translatable(unique: &JsonValue) -> (r: bool)
    ensures
        r == unique_effect_translatable(*unique),
{
    let effects = match unique.field_array("effects") {
        Some(effects) => effects,
        None => return true,
    };
    let mut i: usize = 0;
    assert(effects@.skip(0) =~= effects@);
    while i < effects.len()
        invariant
            0 <= i <= effects.len(),
            unique_effect_translatable(*unique) == unique_entries_translatable(effects@.skip(i as int)),
        decreases effects.len() - i,
    {
        let effect = &effects[i];
        assert(effects@.skip(i as int)[0] == *effect);
        assert(effects@.skip(i as int).drop_first() =~= effects@.skip(i + 1));
        match effect.field_u64("type") {
            None => return true,
            Some(t) => {
                let values = collect_effect_values(effect);
                if !unique_values_translatable(t, values.as_slice()) {
                    return false;
                }
                if translate_unique_effect_type(t, values.as_slice()).is_none() {
                    return true;
                }
            },
        }
        i += 1;
    }
    true
}


proof fn lemma_prefix_through(a: Seq<char>, m: Seq<char>, rest: Seq<char>, q: Seq<char>)
    requires
        q.is_prefix_of(m),
    ensures
        (a + q).is_prefix_of(a + m + rest),
{
    assert((a + q) =~= (a + m + rest).subrange(0, (a + q).len() as int));
}

proof fn lemma_suffix_through(front: Seq<char>, m: Seq<char>, b: Seq<char>, q: Seq<char>)
    requires
        q.is_suffix_of(m),
    ensures
        (q + b).is_suffix_of(front + m + b),
{
    let w = front + m + b;
    assert((q + b) =~= w.subrange(w.len() - (q + b).len(), w.len() as int));
}

/// The texts of the threshold effects quote their values where they belong:
/// for values `[a, b, ..]`, type 102 reads "When the bond gauge is a or
/// higher ... Training Effectiveness b", type 103 reads "If there are at
/// least a different types ... Training Effectiveness b", and type 104 reads
/// "... (1) per a fans, up to b for a*b".
pub proof fn law_threshold_texts_quote_their_values(values: Seq<i64>)
    requires
        values.len() >= 2,
    ensures
        ("When the bond gauge is "@ + int_str(values[0] as int) + " or higher"@).is_prefix_of(unique_text(102, values)->Some_0),
        ("Training Effectiveness "@ + int_str(values[1] as int)).is_suffix_of(unique_text(102, values)->Some_0),
        ("If there are at least "@ + int_str(values[0] as int) + " different types"@).is_prefix_of(unique_text(103, values)->Some_0),
        ("Training Effectiveness "@ + int_str(values[1] as int)).is_suffix_of(unique_text(103, values)->Some_0),
        ("Gain increased Training Effectiveness (1) per "@ + int_str(values[0] as int) + " fans"@).is_prefix_of(unique_text(104, values)->Some_0),
        (" for "@ + int_str(values[0] * values[1])).is_suffix_of(unique_text(104, values)->Some_0),
{
    reveal_strlit("");
    reveal_strlit(" or higher");
    reveal_strlit(" or higher and this card is in a facility different from its type, gain increased Training Effectiveness ");
    reveal_strlit("Training Effectiveness ");
    reveal_strlit(" different types");
    reveal_strlit(" different types of support cards in your deck, gain increased Training Effectiveness ");
    reveal_strlit(" fans");
    reveal_strlit(" fans, up to ");
    reveal_strlit(" for ");
    let (a, b) = (int_str(values[0] as int), int_str(values[1] as int));
    let m102 = " or higher and this card is in a facility different from its type, gain increased Training Effectiveness "@;
    let m103 = " different types of support cards in your deck, gain increased Training Effectiveness "@;
    let t102 = unique_text(102, values)->Some_0;
    let t103 = unique_text(103, values)->Some_0;
    let t104 = unique_text(104, values)->Some_0;
    assert(simple_unique_label(102) is None && simple_unique_label(103) is None && simple_unique_label(104) is None);
    assert(t102 =~= "When the bond gauge is "@ + a + m102 + b);
    assert(t103 =~= "If there are at least "@ + a + m103 + b);
    assert(" or higher"@ =~= m102.subrange(0, 10));
    lemma_prefix_through("When the bond gauge is "@ + a, m102, b, " or higher"@);
    assert("Training Effectiveness "@ =~= m102.subrange(m102.len() - 23, m102.len() as int));
    lemma_suffix_through("When the bond gauge is "@ + a, m102, b, "Training Effectiveness "@);
    assert(" different types"@ =~= m103.subrange(0, 16));
    lemma_prefix_through("If there are at least "@ + a, m103, b, " different types"@);
    assert("Training Effectiveness "@ =~= m103.subrange(m103.len() - 23, m103.len() as int));
    lemma_suffix_through("If there are at least "@ + a, m103, b, "Training Effectiveness "@);
    let m104 = " fans, up to "@;
    let p104 = "Gain increased Training Effectiveness (1) per "@;
    let c = int_str(values[0] * values[1]);
    assert(t104 =~= p104 + a + m104 + (b + " for "@ + c));
    assert(" fans"@ =~= m104.subrange(0, 5));
    lemma_prefix_through(p104 + a, m104, b + " for "@ + c, " fans"@);
    assert(t104 =~= (p104 + a + m104 + b) + " for "@ + c);
    assert((" for "@ + c) =~= t104.subrange(t104.len() - (" for "@ + c).len(), t104.len() as int));
}


/// The texts of the two- and three-value effects quote their values where
/// they belong: for values `[a, b, c, ..]`, type 105 reads "Gain Initial
/// Stat Up (a) ... give (b) to every stat)", type 106 reads "Gain Friendship
/// Bonus (c) ... up to a times for a total of (a*c)", and type 121 reads
/// "All supports get a bonus ...; b if they're in the same facility ...".
pub proof fn law_bonus_texts_quote_their_values(values: Seq<i64>)
    requires
        values.len() >= 3,
    ensures
        ("Gain Initial Stat Up ("@ + int_str(values[0] as int) + ")"@).is_prefix_of(unique_text(105, values)->Some_0),
        ("("@ + int_str(values[1] as int) + ") to every stat)"@).is_suffix_of(unique_text(105, values)->Some_0),
        ("Gain Friendship Bonus ("@ + int_str(values[2] as int) + ")"@).is_prefix_of(unique_text(106, values)->Some_0),
        ("("@ + int_str(values[0] * values[2]) + ")"@).is_suffix_of(unique_text(106, values)->Some_0),
        ("All supports get "@ + int_str(values[0] as int) + " bonus"@).is_prefix_of(unique_text(121, values)->Some_0),
        ("; "@ + int_str(values[1] as int) + " if they're in the same facility as this card"@).is_suffix_of(unique_text(121, values)->Some_0),
{
    reveal_strlit(")");
    reveal_strlit("(");
    reveal_strlit(" bonus");
    reveal_strlit("; ");
    reveal_strlit("), where Stat is the type of card, for every card in your support deck (Friend and Group types give (");
    reveal_strlit(") every time you do friendship training with this card, up to ");
    reveal_strlit(" times for a total of (");
    reveal_strlit(" bonus bond from training; ");
    let (a, b, c) = (int_str(values[0] as int), int_str(values[1] as int), int_str(values[2] as int));
    assert(simple_unique_label(105) is None && simple_unique_label(106) is None && simple_unique_label(121) is None);

    let p105 = "Gain Initial Stat Up ("@;
    let m105 = "), where Stat is the type of card, for every card in your support deck (Friend and Group types give ("@;
    let s105 = ") to every stat)"@;
    let t105 = unique_text(105, values)->Some_0;
    assert(t105 =~= p105 + a + m105 + (b + s105));
    assert(")"@ =~= m105.subrange(0, 1));
    lemma_prefix_through(p105 + a, m105, b + s105, ")"@);
    assert("("@ =~= m105.subrange(m105.len() - 1, m105.len() as int));
    lemma_suffix_through(p105 + a, m105, b + s105, "("@);
    assert("("@ + (b + s105) =~= "("@ + b + s105);

    let p106 = "Gain Friendship Bonus ("@;
    let m106 = ") every time you do friendship training with this card, up to "@;
    let n106 = " times for a total of ("@;
    let prod = int_str(values[0] * values[2]);
    let t106 = unique_text(106, values)->Some_0;
    assert(t106 =~= p106 + c + m106 + (a + n106 + prod + ")"@));
    assert(")"@ =~= m106.subrange(0, 1));
    lemma_prefix_through(p106 + c, m106, a + n106 + prod + ")"@, ")"@);
    assert(t106 =~= (p106 + c + m106 + a) + n106 + (prod + ")"@));
    assert("("@ =~= n106.subrange(n106.len() - 1, n106.len() as int));
    lemma_suffix_through(p106 + c + m106 + a, n106, prod + ")"@, "("@);
    assert("("@ + (prod + ")"@) =~= "("@ + prod + ")"@);

    let p121 = "All supports get "@;
    let m121 = " bonus bond from training; "@;
    let s121 = " if they're in the same facility as this card"@;
    let t121 = unique_text(121, values)->Some_0;
    assert(t121 =~= p121 + a + m121 + (b + s121));
    assert(" bonus"@ =~= m121.subrange(0, 6));
    lemma_prefix_through(p121 + a, m121, b + s121, " bonus"@);
    assert("; "@ =~= m121.subrange(m121.len() - 2, m121.len() as int));
    lemma_suffix_through(p121 + a, m121, b + s121, "; "@);
    assert("; "@ + (b + s121) =~= "; "@ + b + s121);
}

} // verus!
