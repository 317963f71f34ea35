//! The trainee roster read from the JSON character card list.
use crate::dates::{chrono_iso_date, parse_iso_date, Date};
use crate::ids::{SkillId, UmaId};
use crate::json::{json_text, JsonValue};
use crate::models::uma::{AptitudeLevel, Aptitudes, BaseStats, DistanceAptitudes, GrowthRates, StrategyAptitudes, SurfaceAptitudes, Uma, UmaRarity};
use crate::scraping::error::{error_of, ErrorKind, ScraperError, ScraperResult};
use crate::scraping::release_dates::date_of;
use crate::text::str_eq;
use crate::uma_skill::{SkillAcquisition, UmaSkill};
use std::collections::HashMap;
use vstd::prelude::*;

verus! {

broadcast use vstd::std_specs::hash::group_hash_axioms;

/// A trainee as plain values.
pub struct UmaView {
    pub id: UmaId,
    pub name: Seq<char>,
    pub subtitle: Seq<char>,
    pub rarity: UmaRarity,
    pub base_stats: BaseStats,
    pub growth_rates: GrowthRates,
    pub aptitudes: Aptitudes,
    pub skill_list: Seq<UmaSkill>,
    pub release_date: Date,
    pub is_predicted_date: bool,
}

impl View for Uma {
    type V = UmaView;

    open spec fn view(&self) -> UmaView {
        UmaView {
            id: self.id,
            name: self.name@,
            subtitle: self.subtitle@,
            rarity: self.rarity,
            base_stats: self.base_stats,
            growth_rates: self.growth_rates,
            aptitudes: self.aptitudes,
            skill_list: self.skill_list@,
            release_date: self.release_date,
            is_predicted_date: self.is_predicted_date,
        }
    }
}

/// The release date of a trainee: its English release date when listed, else
/// its predicted date (marked as predicted); `None` when it has neither.
pub open spec fn spec_uma_release(item: JsonValue, id: UmaId, predicted: Map<u32, Date>) -> Result<Option<(Date, bool)>, (ErrorKind, Seq<char>)> {
    match item.at("release_en"@).spec_as_str() {
        Some(t) => match chrono_iso_date(t) {
            Ok(ymd) => Ok(Some((date_of(ymd), false))),
            Err(e) => Err((ErrorKind::InvalidDate, "invalid release_en date: "@ + e)),
        },
        None => if predicted.contains_key(id.0) {
            Ok(Some((predicted[id.0], true)))
        } else {
            Ok(None)
        },
    }
}

/// Reads the release date of a trainee.
pub fn parse_release(item: &JsonValue, id: UmaId, predicted_dates: &HashMap<u32, Date>) -> (r: ScraperResult<Option<(Date, bool)>>)
    ensures
        match r {
            Ok(x) => spec_uma_release(*item, id, predicted_dates@) == Ok::<Option<(Date, bool)>, (ErrorKind, Seq<char>)>(x),
            Err(e) => spec_uma_release(*item, id, predicted_dates@) == Err::<Option<(Date, bool)>, (ErrorKind, Seq<char>)>(e.report()),
        },
{
    match item.field_str("release_en") {
        Some(date_str) => match parse_iso_date(date_str) {
            Ok(d) => Ok(Some((d, false))),
            Err(e) => {
                let mut msg = String::from_str("invalid release_en date: ");
                msg.append(e.as_str());
                Err(error_of(ErrorKind::InvalidDate, msg))
            },
        },
        None => match predicted_dates.get(&id.0) {
            Some(d) => Ok(Some((*d, true))),
            None => Ok(None),
        },
    }
}

pub open spec fn spec_uma_rarity(v: JsonValue) -> Option<UmaRarity> {
    match v.spec_as_u64() {
        Some(1) => Some(UmaRarity::R),
        Some(2) => Some(UmaRarity::SR),
        Some(3) => Some(UmaRarity::SSR),
        _ => None,
    }
}

/// Reads a trainee rarity code.
pub fn parse_rarity(value: &JsonValue) -> (r: ScraperResult<UmaRarity>)
    ensures
        match r {
            Ok(x) => spec_uma_rarity(*value) == Some(x),
            Err(e) => spec_uma_rarity(*value) is None
                && e.report() == (ErrorKind::UnknownValue, "rarity value: "@ + json_text(*value)),
        },
{
    match value.as_u64() {
        Some(1) => Ok(UmaRarity::R),
        Some(2) => Ok(UmaRarity::SR),
        Some(3) => Ok(UmaRarity::SSR),
        _ => {
            let mut msg = String::from_str("rarity value: ");
            msg.append(value.describe().as_str());
            Err(error_of(ErrorKind::UnknownValue, msg))
        },
    }
}

/// A trainee's rarity code names its rarity: 1 is R, 2 is SR, 3 is SSR,
/// and no other value is a rarity.
pub proof fn law_uma_rarity_codes(v: JsonValue)
    ensures
        spec_uma_rarity(v) == Some(UmaRarity::R) <==> v.spec_as_u64() == Some(1u64),
        spec_uma_rarity(v) == Some(UmaRarity::SR) <==> v.spec_as_u64() == Some(2u64),
        spec_uma_rarity(v) == Some(UmaRarity::SSR) <==> v.spec_as_u64() == Some(3u64),
        spec_uma_rarity(v) is None <==> !(v.spec_as_u64() matches Some(n) && 1 <= n <= 3),
{
}

/// The `i`-th element of the array, read as a stat.
pub open spec fn stat_at(arr: Seq<JsonValue>, i: int) -> Option<u32> {
    match arr[i].spec_as_u64() {
        Some(n) => Some(n as u32),
        None => None,
    }
}

/// The first five elements of a stat array (speed, stamina, power, guts,
/// wit), or the kind and message of the error: the value is not an array,
/// has fewer than five elements, or one of the five is not a number.
pub open spec fn spec_five_stats(v: JsonValue, field: Seq<char>) -> Result<(u32, u32, u32, u32, u32), (ErrorKind, Seq<char>)> {
    match v.spec_as_array() {
        None => Err((ErrorKind::MissingField, field + " is not an array"@)),
        Some(arr) => if arr.len() < 5 {
            Err((ErrorKind::InvalidShape, field + " has fewer than 5 elements"@))
        } else if stat_at(arr, 0) is Some && stat_at(arr, 1) is Some && stat_at(arr, 2) is Some
            && stat_at(arr, 3) is Some && stat_at(arr, 4) is Some {
            Ok((stat_at(arr, 0).unwrap(), stat_at(arr, 1).unwrap(), stat_at(arr, 2).unwrap(),
                stat_at(arr, 3).unwrap(), stat_at(arr, 4).unwrap()))
        } else {
            Err((ErrorKind::UnknownValue, field + " element is not a number"@))
        },
    }
}

/// Reads the five stats of a stat array named `field`.
pub fn parse_five_stats(value: &JsonValue, field: &str) -> (r: ScraperResult<(u32, u32, u32, u32, u32)>)
    ensures
        match r {
            Ok(x) => spec_five_stats(*value, field@) == Ok::<(u32, u32, u32, u32, u32), (ErrorKind, Seq<char>)>(x),
            Err(e) => spec_five_stats(*value, field@) == Err::<(u32, u32, u32, u32, u32), (ErrorKind, Seq<char>)>(e.report()),
        },
{
    let arr = match value.as_array() {
        Some(a) => a,
        None => {
            let mut msg = String::from_str(field);
            msg.append(" is not an array");
            return Err(error_of(ErrorKind::MissingField, msg));
        },
    };
    if arr.len() < 5 {
        let mut msg = String::from_str(field);
        msg.append(" has fewer than 5 elements");
        return Err(error_of(ErrorKind::InvalidShape, msg));
    }
    let mut stats: Vec<u32> = Vec::new();
    let mut i: usize = 0;
    while i < 5
        invariant
            arr@.len() >= 5,
            value.spec_as_array() == Some(arr@),
            0 <= i <= 5,
            stats@.len() == i,
            forall|j: int| 0 <= j < i ==> stat_at(arr@, j) == Some(#[trigger] stats@[j]),
        decreases 5 - i,
    {
        match arr[i].as_u64() {
            Some(n) => stats.push(#[verifier::truncate] (n as u32)),
            None => {
                let mut msg = String::from_str(field);
                msg.append(" element is not a number");
                return Err(error_of(ErrorKind::UnknownValue, msg));
            },
        }
        i += 1;
    }
    Ok((stats[0], stats[1], stats[2], stats[3], stats[4]))
}

pub open spec fn spec_aptitude_level(v: JsonValue) -> Option<AptitudeLevel> {
    match v.spec_as_str() {
        Some(t) => if t == "A"@ { Some(AptitudeLevel::A) }
            else if t == "B"@ { Some(AptitudeLevel::B) }
            else if t == "C"@ { Some(AptitudeLevel::C) }
            else if t == "D"@ { Some(AptitudeLevel::D) }
            else if t == "E"@ { Some(AptitudeLevel::E) }
            else if t == "F"@ { Some(AptitudeLevel::F) }
            else if t == "G"@ { Some(AptitudeLevel::G) }
            else { None },
        None => None,
    }
}

/// Reads an aptitude level letter.
pub fn parse_aptitude_level(value: &JsonValue) -> (r: ScraperResult<AptitudeLevel>)
    ensures
        match r {
            Ok(x) => spec_aptitude_level(*value) == Some(x),
            Err(e) => spec_aptitude_level(*value) is None
                && e.report() == (ErrorKind::UnknownValue, "aptitude level: "@ + json_text(*value)),
        },
{
    let found = match value.as_str() {
        Some(t) => if str_eq(t, "A") { Some(AptitudeLevel::A) }
            else if str_eq(t, "B") { Some(AptitudeLevel::B) }
            else if str_eq(t, "C") { Some(AptitudeLevel::C) }
            else if str_eq(t, "D") { Some(AptitudeLevel::D) }
            else if str_eq(t, "E") { Some(AptitudeLevel::E) }
            else if str_eq(t, "F") { Some(AptitudeLevel::F) }
            else if str_eq(t, "G") { Some(AptitudeLevel::G) }
            else { None },
        None => None,
    };
    match found {
        Some(x) => Ok(x),
        None => {
            let mut msg = String::from_str("aptitude level: ");
            msg.append(value.describe().as_str());
            Err(error_of(ErrorKind::UnknownValue, msg))
        },
    }
}

/// The aptitude levels of the elements from `k` up to 10, or the message of
/// the first that is not a level letter.
pub open spec fn levels_from(arr: Seq<JsonValue>, k: int) -> Result<Seq<AptitudeLevel>, Seq<char>>
    decreases 10 - k,
{
    if k >= 10 {
        Ok(Seq::empty())
    } else {
        match spec_aptitude_level(arr[k]) {
            None => Err("aptitude level: "@ + json_text(arr[k])),
            Some(l) => match levels_from(arr, k + 1) {
                Ok(rest) => Ok(seq![l] + rest),
                Err(e) => Err(e),
            },
        }
    }
}

pub open spec fn aptitudes_of(l: Seq<AptitudeLevel>) -> Aptitudes {
    Aptitudes {
        surface: SurfaceAptitudes { turf: l[0], dirt: l[1] },
        distance: DistanceAptitudes { short: l[2], mile: l[3], medium: l[4], long: l[5] },
        strategy: StrategyAptitudes { front: l[6], pace: l[7], late: l[8], end: l[9] },
    }
}

/// The aptitudes of the first ten elements of the aptitude array: turf,
/// dirt, short, mile, medium, long, front, pace, late, end.
pub open spec fn spec_aptitudes(v: JsonValue) -> Result<Aptitudes, (ErrorKind, Seq<char>)> {
    match v.spec_as_array() {
        None => Err((ErrorKind::MissingField, "aptitude is not an array"@)),
        Some(arr) => if arr.len() < 10 {
            Err((ErrorKind::InvalidShape, "aptitude has fewer than 10 elements"@))
        } else {
            match levels_from(arr, 0) {
                Ok(l) => Ok(aptitudes_of(l)),
                Err(m) => Err((ErrorKind::UnknownValue, m)),
            }
        },
    }
}

/// Each aptitude letter names its own level: "A" to "G" give A to G, and a
/// value gives a level only when it is that level's letter.
pub proof fn law_aptitude_letters(v: JsonValue)
    ensures
        spec_aptitude_level(v) == Some(AptitudeLevel::A) <==> v.spec_as_str() == Some("A"@),
        spec_aptitude_level(v) == Some(AptitudeLevel::B) <==> v.spec_as_str() == Some("B"@),
        spec_aptitude_level(v) == Some(AptitudeLevel::C) <==> v.spec_as_str() == Some("C"@),
        spec_aptitude_level(v) == Some(AptitudeLevel::D) <==> v.spec_as_str() == Some("D"@),
        spec_aptitude_level(v) == Some(AptitudeLevel::E) <==> v.spec_as_str() == Some("E"@),
        spec_aptitude_level(v) == Some(AptitudeLevel::F) <==> v.spec_as_str() == Some("F"@),
        spec_aptitude_level(v) == Some(AptitudeLevel::G) <==> v.spec_as_str() == Some("G"@),
{
    reveal_strlit("A");
    reveal_strlit("B");
    reveal_strlit("C");
    reveal_strlit("D");
    reveal_strlit("E");
    reveal_strlit("F");
    reveal_strlit("G");
    if let Some(t) = v.spec_as_str() {
        let letters = seq!["A"@, "B"@, "C"@, "D"@, "E"@, "F"@, "G"@];
        assert forall|i: int, j: int| 0 <= i < 7 && 0 <= j < 7 && i != j implies letters[i] != letters[j] by {
            if letters[i] == letters[j] {
                assert(letters[i][0] == letters[j][0]);
            }
        }
        assert(letters[0] == "A"@ && letters[1] == "B"@ && letters[2] == "C"@ && letters[3] == "D"@);
        assert(letters[4] == "E"@ && letters[5] == "F"@ && letters[6] == "G"@);
    }
}

proof fn lemma_levels_from_elements(arr: Seq<JsonValue>, k: int)
    requires
        0 <= k <= 10,
        levels_from(arr, k) is Ok,
    ensures
        levels_from(arr, k)->Ok_0.len() == 10 - k,
        forall|i: int| 0 <= i < 10 - k
            ==> spec_aptitude_level(arr[k + i]) == Some(#[trigger] levels_from(arr, k)->Ok_0[i]),
    decreases 10 - k,
{
    if k < 10 {
        lemma_levels_from_elements(arr, k + 1);
        let l = spec_aptitude_level(arr[k]).unwrap();
        let rest = levels_from(arr, k + 1)->Ok_0;
        assert(levels_from(arr, k)->Ok_0 == seq![l] + rest);
        assert forall|i: int| 0 <= i < 10 - k
            implies spec_aptitude_level(arr[k + i]) == Some(#[trigger] levels_from(arr, k)->Ok_0[i]) by {
            if i > 0 {
                assert(levels_from(arr, k)->Ok_0[i] == rest[i - 1]);
                assert(arr[k + i] == arr[(k + 1) + (i - 1)]);
            }
        }
    }
}

/// The aptitudes take the levels of the first ten elements of the aptitude
/// array in the order turf, dirt, short, mile, medium, long, front, pace,
/// late, end: the i-th field is the level of the i-th element.
pub proof fn law_aptitudes_follow_array_order(v: JsonValue)
    requires
        spec_aptitudes(v) is Ok,
    ensures
        ({
            let arr = v.spec_as_array().unwrap();
            let a = spec_aptitudes(v)->Ok_0;
            &&& v.spec_as_array() is Some
            &&& arr.len() >= 10
            &&& spec_aptitude_level(arr[0]) == Some(a.surface.turf)
            &&& spec_aptitude_level(arr[1]) == Some(a.surface.dirt)
            &&& spec_aptitude_level(arr[2]) == Some(a.distance.short)
            &&& spec_aptitude_level(arr[3]) == Some(a.distance.mile)
            &&& spec_aptitude_level(arr[4]) == Some(a.distance.medium)
            &&& spec_aptitude_level(arr[5]) == Some(a.distance.long)
            &&& spec_aptitude_level(arr[6]) == Some(a.strategy.front)
            &&& spec_aptitude_level(arr[7]) == Some(a.strategy.pace)
            &&& spec_aptitude_level(arr[8]) == Some(a.strategy.late)
            &&& spec_aptitude_level(arr[9]) == Some(a.strategy.end)
        }),
{
    let arr = v.spec_as_array().unwrap();
    lemma_levels_from_elements(arr, 0);
    let l = levels_from(arr, 0)->Ok_0;
    assert(spec_aptitude_level(arr[0int + 0]) == Some(l[0]));
    assert(spec_aptitude_level(arr[0int + 1]) == Some(l[1]));
    assert(spec_aptitude_level(arr[0int + 2]) == Some(l[2]));
    assert(spec_aptitude_level(arr[0int + 3]) == Some(l[3]));
    assert(spec_aptitude_level(arr[0int + 4]) == Some(l[4]));
    assert(spec_aptitude_level(arr[0int + 5]) == Some(l[5]));
    assert(spec_aptitude_level(arr[0int + 6]) == Some(l[6]));
    assert(spec_aptitude_level(arr[0int + 7]) == Some(l[7]));
    assert(spec_aptitude_level(arr[0int + 8]) == Some(l[8]));
    assert(spec_aptitude_level(arr[0int + 9]) == Some(l[9]));
}

/// Reads the aptitude array of a trainee.
pub fn parse_aptitudes(value: &JsonValue) -> (r: ScraperResult<Aptitudes>)
    ensures
        match r {
            Ok(x) => spec_aptitudes(*value) == Ok::<Aptitudes, (ErrorKind, Seq<char>)>(x),
            Err(e) => spec_aptitudes(*value) == Err::<Aptitudes, (ErrorKind, Seq<char>)>(e.report()),
        },
{
    let arr = match value.as_array() {
        Some(a) => a,
        None => return Err(error_of(ErrorKind::MissingField, String::from_str("aptitude is not an array"))),
    };
    if arr.len() < 10 {
        return Err(error_of(ErrorKind::InvalidShape, String::from_str("aptitude has fewer than 10 elements")));
    }
    let mut levels: Vec<AptitudeLevel> = Vec::new();
    let mut k: usize = 0;
    proof {
        match levels_from(arr@, 0) {
            Ok(rest) => { assert(Seq::<AptitudeLevel>::empty() + rest =~= rest); },
            Err(_) => {},
        }
    }
    while k < 10
        invariant
            arr@.len() >= 10,
            value.spec_as_array() == Some(arr@),
            0 <= k <= 10,
            levels@.len() == k,
            levels_from(arr@, 0) == match levels_from(arr@, k as int) {
                Ok(rest) => Ok(levels@ + rest),
                Err(m) => Err::<Seq<AptitudeLevel>, Seq<char>>(m),
            },
        decreases 10 - k,
    {
        let ghost before = levels@;
        match parse_aptitude_level(&arr[k]) {
            Ok(l) => {
                levels.push(l);
                proof {
                    match levels_from(arr@, k + 1) {
                        Ok(rest) => { assert(before + (seq![l] + rest) =~= before.push(l) + rest); },
                        Err(_) => {},
                    }
                }
            },
            Err(e) => return Err(e),
        }
        k += 1;
    }
    assert(levels@ + Seq::<AptitudeLevel>::empty() =~= levels@);
    Ok(Aptitudes {
        surface: SurfaceAptitudes { turf: levels[0], dirt: levels[1] },
        distance: DistanceAptitudes { short: levels[2], mile: levels[3], medium: levels[4], long: levels[5] },
        strategy: StrategyAptitudes { front: levels[6], pace: levels[7], late: levels[8], end: levels[9] },
    })
}


/// The skills of the ids in `entries` that are unsigned integers, in order.
pub open spec fn uma_skill_ids(entries: Seq<JsonValue>, acquisition: SkillAcquisition) -> Seq<UmaSkill>
    decreases entries.len(),
{
    if entries.len() == 0 {
        Seq::empty()
    } else {
        let rest = uma_skill_ids(entries.drop_last(), acquisition);
        match entries.last().spec_as_u64() {
            Some(n) => rest.push(UmaSkill { id: SkillId(n as u32), acquisition }),
            None => rest,
        }
    }
}

pub open spec fn optional_uma_skills(v: JsonValue, acquisition: SkillAcquisition) -> Seq<UmaSkill> {
    match v.spec_as_array() {
        Some(a) => uma_skill_ids(a, acquisition),
        None => Seq::empty(),
    }
}

/// The unique, innate, awakening and event skills, in that order.
pub open spec fn flat_uma_skills(item: JsonValue) -> Seq<UmaSkill> {
    optional_uma_skills(item.at("skills_unique"@), SkillAcquisition::Unique)
        + optional_uma_skills(item.at("skills_innate"@), SkillAcquisition::Innate)
        + optional_uma_skills(item.at("skills_awakening"@), SkillAcquisition::Awakening)
        + optional_uma_skills(item.at("skills_event"@), SkillAcquisition::Event)
}

/// The evolved skills: each entry's `new` skill, evolved from its `old` one;
/// or the message of the first entry that lacks either.
pub open spec fn evo_skills(entries: Seq<JsonValue>) -> Result<Seq<UmaSkill>, Seq<char>>
    decreases entries.len(),
{
    if entries.len() == 0 {
        Ok(Seq::empty())
    } else {
        match entries[0].at("new"@).spec_as_u64() {
            None => Err("'new' in skills_evo entry"@),
            Some(n) => match entries[0].at("old"@).spec_as_u64() {
                None => Err("'old' in skills_evo entry"@),
                Some(o) => match evo_skills(entries.drop_first()) {
                    Ok(rest) => Ok(seq![UmaSkill { id: SkillId(n as u32), acquisition: SkillAcquisition::Evolution(SkillId(o as u32)) }] + rest),
                    Err(m) => Err(m),
                },
            },
        }
    }
}

/// The skill list of a trainee: its flat skills, then its evolved skills.
pub open spec fn spec_uma_skills(item: JsonValue) -> Result<Seq<UmaSkill>, (ErrorKind, Seq<char>)> {
    match item.at("skills_evo"@).spec_as_array() {
        None => Ok(flat_uma_skills(item)),
        Some(a) => match evo_skills(a) {
            Ok(e) => Ok(flat_uma_skills(item) + e),
            Err(m) => Err((ErrorKind::MissingField, m)),
        },
    }
}

fn push_uma_skill_ids(out: &mut Vec<UmaSkill>, item: &JsonValue, key: &str, acquisition: SkillAcquisition)
    ensures final(out)@ == old(out)@ + optional_uma_skills(item.at(key@), acquisition),
{
    let ghost start = out@;
    let entries = match item.field_array(key) {
        Some(a) => a,
        None => {
            assert(start + Seq::<UmaSkill>::empty() =~= start);
            return;
        },
    };
    let mut i: usize = 0;
    assert(start + uma_skill_ids(entries@.take(0), acquisition) =~= start);
    while i < entries.len()
        invariant
            0 <= i <= entries.len(),
            out@ == start + uma_skill_ids(entries@.take(i as int), acquisition),
        decreases entries.len() - i,
    {
        assert(entries@.take(i + 1).drop_last() =~= entries@.take(i as int));
        assert(entries@.take(i + 1).last() == entries@[i as int]);
        if let Some(n) = entries[i].as_u64() {
            out.push(UmaSkill { id: SkillId(#[verifier::truncate] (n as u32)), acquisition });
            assert(out@ =~= start + uma_skill_ids(entries@.take(i + 1), acquisition));
        }
        i += 1;
    }
    assert(entries@.take(entries.len() as int) =~= entries@);
}

/// Reads the skill list of a trainee.
pub fn parse_uma_skills(item: &JsonValue) -> (r: ScraperResult<Vec<UmaSkill>>)
    ensures
        match r {
            Ok(v) => spec_uma_skills(*item) == Ok::<Seq<UmaSkill>, (ErrorKind, Seq<char>)>(v@),
            Err(e) => spec_uma_skills(*item) == Err::<Seq<UmaSkill>, (ErrorKind, Seq<char>)>(e.report()),
        },
{
    let mut skills: Vec<UmaSkill> = Vec::new();
    push_uma_skill_ids(&mut skills, item, "skills_unique", SkillAcquisition::Unique);
    push_uma_skill_ids(&mut skills, item, "skills_innate", SkillAcquisition::Innate);
    push_uma_skill_ids(&mut skills, item, "skills_awakening", SkillAcquisition::Awakening);
    push_uma_skill_ids(&mut skills, item, "skills_event", SkillAcquisition::Event);
    assert(skills@ =~= flat_uma_skills(*item));
    let ghost flat = skills@;
    let evo = match item.field_array("skills_evo") {
        Some(a) => a,
        None => return Ok(skills),
    };
    let mut i: usize = 0;
    proof {
        assert(evo@.skip(0) =~= evo@);
        assert(skills@.skip(flat.len() as int) =~= Seq::<UmaSkill>::empty());
        match evo_skills(evo@) {
            Ok(rest) => { assert(Seq::<UmaSkill>::empty() + rest =~= rest); },
            Err(_) => {},
        }
    }
    while i < evo.len()
        invariant
            0 <= i <= evo.len(),
            item.at("skills_evo"@).spec_as_array() == Some(evo@),
            flat == flat_uma_skills(*item),
            flat.len() <= skills@.len(),
            skills@.take(flat.len() as int) == flat,
            evo_skills(evo@) == match evo_skills(evo@.skip(i as int)) {
                Ok(rest) => Ok(skills@.skip(flat.len() as int) + rest),
                Err(m) => Err::<Seq<UmaSkill>, Seq<char>>(m),
            },
        decreases evo.len() - i,
    {
        assert(evo@.skip(i as int)[0] == evo@[i as int]);
        assert(evo@.skip(i as int).drop_first() =~= evo@.skip(i + 1));
        let new_id = match evo[i].field_u64("new") {
            Some(n) => SkillId(#[verifier::truncate] (n as u32)),
            None => return Err(error_of(ErrorKind::MissingField, String::from_str("'new' in skills_evo entry"))),
        };
        let old_id = match evo[i].field_u64("old") {
            Some(n) => SkillId(#[verifier::truncate] (n as u32)),
            None => return Err(error_of(ErrorKind::MissingField, String::from_str("'old' in skills_evo entry"))),
        };
        let ghost before = skills@;
        let s = UmaSkill { id: new_id, acquisition: SkillAcquisition::Evolution(old_id) };
        skills.push(s);
        proof {
            assert(skills@.take(flat.len() as int) =~= before.take(flat.len() as int));
            assert(skills@.skip(flat.len() as int) =~= before.skip(flat.len() as int).push(s));
            match evo_skills(evo@.skip(i + 1)) {
                Ok(rest) => { assert(before.skip(flat.len() as int) + (seq![s] + rest) =~= before.skip(flat.len() as int).push(s) + rest); },
                Err(_) => {},
            }
        }
        i += 1;
    }
    proof {
        assert(evo@.skip(i as int) =~= Seq::<JsonValue>::empty());
        assert(skills@ =~= flat + skills@.skip(flat.len() as int));
        assert(skills@.skip(flat.len() as int) + Seq::<UmaSkill>::empty() =~= skills@.skip(flat.len() as int));
    }
    Ok(skills)
}

/// The trainee that an entry of the character card list describes: `None`
/// when it has neither an English release date nor a predicted one; else the
/// trainee, or the kind and message of the error that stops it.
pub open spec fn spec_uma(item: JsonValue, predicted: Map<u32, Date>) -> Result<Option<UmaView>, (ErrorKind, Seq<char>)> {
    match item.at("card_id"@).spec_as_u64() {
        None => Err((ErrorKind::MissingField, "card_id"@)),
        Some(n) => {
            let id = UmaId(n as u32);
            match spec_uma_release(item, id, predicted) {
                Err(e) => Err(e),
                Ok(None) => Ok(None),
                Ok(Some((release_date, is_predicted_date))) => match item.at("name_en"@).spec_as_str() {
                    None => Err((ErrorKind::MissingField, "name_en"@)),
                    Some(name) => match spec_uma_rarity(item.at("rarity"@)) {
                        None => Err((ErrorKind::UnknownValue, "rarity value: "@ + json_text(item.at("rarity"@)))),
                        Some(rarity) => match spec_five_stats(item.at("base_stats"@), "base_stats"@) {
                            Err(e) => Err(e),
                            Ok(b) => match spec_five_stats(item.at("stat_bonus"@), "stat_bonus"@) {
                                Err(e) => Err(e),
                                Ok(g) => match spec_aptitudes(item.at("aptitude"@)) {
                                    Err(e) => Err(e),
                                    Ok(aptitudes) => match spec_uma_skills(item) {
                                        Err(e) => Err(e),
                                        Ok(skill_list) => Ok(Some(UmaView {
                                            id,
                                            name,
                                            subtitle: match item.at("version"@).spec_as_str() {
                                                Some(v) => v,
                                                None => "default"@,
                                            },
                                            rarity,
                                            base_stats: BaseStats { speed: b.0, stamina: b.1, power: b.2, guts: b.3, wit: b.4 },
                                            growth_rates: GrowthRates { speed: g.0, stamina: g.1, power: g.2, guts: g.3, wit: g.4 },
                                            aptitudes,
                                            skill_list,
                                            release_date,
                                            is_predicted_date,
                                        })),
                                    },
                                },
                            },
                        },
                    },
                },
            }
        },
    }
}

/// Reads one entry of the character card list.
pub fn parse_uma(item: &JsonValue, predicted_dates: &HashMap<u32, Date>) -> (r: ScraperResult<Option<Uma>>)
    ensures
        match r {
            Ok(Some(uma)) => spec_uma(*item, predicted_dates@) == Ok::<Option<UmaView>, (ErrorKind, Seq<char>)>(Some(uma@)),
            Ok(None) => spec_uma(*item, predicted_dates@) == Ok::<Option<UmaView>, (ErrorKind, Seq<char>)>(None),
            Err(e) => spec_uma(*item, predicted_dates@) == Err::<Option<UmaView>, (ErrorKind, Seq<char>)>(e.report()),
        },
{
    let id = match item.field_u64("card_id") {
        Some(n) => UmaId(#[verifier::truncate] (n as u32)),
        None => return Err(error_of(ErrorKind::MissingField, String::from_str("card_id"))),
    };
    let (release_date, is_predicted_date) = match parse_release(item, id, predicted_dates) {
        Ok(Some(x)) => x,
        Ok(None) => return Ok(None),
        Err(e) => return Err(e),
    };
    let name = match item.field_str("name_en") {
        Some(n) => String::from_str(n),
        None => return Err(error_of(ErrorKind::MissingField, String::from_str("name_en"))),
    };
    let subtitle = match item.field_str("version") {
        Some(v) => String::from_str(v),
        None => String::from_str("default"),
    };
    let rarity = match item.get("rarity") {
        Some(v) => parse_rarity(v),
        None => parse_rarity(&JsonValue::Null),
    };
    let rarity = match rarity {
        Ok(r) => r,
        Err(e) => return Err(e),
    };
    let b = match item.get("base_stats") {
        Some(v) => parse_five_stats(v, "base_stats"),
        None => parse_five_stats(&JsonValue::Null, "base_stats"),
    };
    let b = match b {
        Ok(x) => x,
        Err(e) => return Err(e),
    };
    let g = match item.get("stat_bonus") {
        Some(v) => parse_five_stats(v, "stat_bonus"),
        None => parse_five_stats(&JsonValue::Null, "stat_bonus"),
    };
    let g = match g {
        Ok(x) => x,
        Err(e) => return Err(e),
    };
    let aptitudes = match item.get("aptitude") {
        Some(v) => parse_aptitudes(v),
        None => parse_aptitudes(&JsonValue::Null),
    };
    let aptitudes = match aptitudes {
        Ok(x) => x,
        Err(e) => return Err(e),
    };
    let skill_list = match parse_uma_skills(item) {
        Ok(x) => x,
        Err(e) => return Err(e),
    };
    let uma = Uma {
        id,
        name,
        subtitle,
        rarity,
        base_stats: BaseStats { speed: b.0, stamina: b.1, power: b.2, guts: b.3, wit: b.4 },
        growth_rates: GrowthRates { speed: g.0, stamina: g.1, power: g.2, guts: g.3, wit: g.4 },
        aptitudes,
        skill_list,
        release_date,
        is_predicted_date,
    };
    Ok(Some(uma))
}

/// The trainees of the entries that read to a trainee, in order.
pub open spec fn parsed_umas(items: Seq<JsonValue>, predicted: Map<u32, Date>) -> Seq<UmaView>
    decreases items.len(),
{
    if items.len() == 0 {
        Seq::empty()
    } else {
        let rest = parsed_umas(items.drop_last(), predicted);
        match spec_uma(items.last(), predicted) {
            Ok(Some(uma)) => rest.push(uma),
            _ => rest,
        }
    }
}

/// Reads the character card list: every entry that reads to a trainee, in
/// order; unreleased entries and entries with errors are skipped. Fails only
/// when the document is not an array.
pub fn parse_uma_roster(root: &JsonValue, predicted_dates: &HashMap<u32, Date>) -> (r: ScraperResult<Vec<Uma>>)
    ensures
        match r {
            Ok(umas) => root.spec_as_array() is Some
                && umas@.map_values(|u: Uma| u@) == parsed_umas(root.spec_as_array().unwrap(), predicted_dates@),
            Err(e) => root.spec_as_array() is None && e.spec_kind() == ErrorKind::Json,
        },
{
    let items = match root.as_array() {
        Some(items) => items,
        None => return Err(error_of(ErrorKind::Json, String::from_str("failed to parse character cards JSON: expected an array"))),
    };
    let mut umas: Vec<Uma> = Vec::new();
    let mut i: usize = 0;
    while i < items.len()
        invariant
            0 <= i <= items.len(),
            umas@.map_values(|u: Uma| u@) == parsed_umas(items@.take(i as int), predicted_dates@),
        decreases items.len() - i,
    {
        assert(items@.take(i + 1).drop_last() =~= items@.take(i as int));
        assert(items@.take(i + 1).last() == items@[i as int]);
        let ghost before = umas@.map_values(|u: Uma| u@);
        match parse_uma(&items[i], predicted_dates) {
            Ok(Some(uma)) => {
                umas.push(uma);
                assert(umas@.map_values(|u: Uma| u@) =~= before.push(uma@));
            },
            _ => {},
        }
        i += 1;
    }
    assert(items@.take(items.len() as int) =~= items@);
    Ok(umas)
}


/// The five stats of a stat array are its first five elements in the order
/// speed, stamina, power, guts, wit.
pub open spec fn stats_in_order(v: JsonValue, speed: u32, stamina: u32, power: u32, guts: u32, wit: u32) -> bool {
    &&& v.spec_as_array() is Some
    &&& v.spec_as_array().unwrap().len() >= 5
    &&& v.spec_as_array().unwrap()[0].spec_as_u64() matches Some(n) && speed == n as u32
    &&& v.spec_as_array().unwrap()[1].spec_as_u64() matches Some(n) && stamina == n as u32
    &&& v.spec_as_array().unwrap()[2].spec_as_u64() matches Some(n) && power == n as u32
    &&& v.spec_as_array().unwrap()[3].spec_as_u64() matches Some(n) && guts == n as u32
    &&& v.spec_as_array().unwrap()[4].spec_as_u64() matches Some(n) && wit == n as u32
}

/// A trainee read from the character list carries what its entry says: the
/// rarity of its rarity code, base stats from `base_stats` and growth rates
/// from `stat_bonus` in the order speed, stamina, power, guts, wit, and the
/// aptitudes of its `aptitude` array.
pub proof fn law_uma_fields(item: JsonValue, predicted: Map<u32, Date>)
    requires
        spec_uma(item, predicted) matches Ok(Some(_)),
    ensures
        ({
            let u = spec_uma(item, predicted)->Ok_0.unwrap();
            &&& item.at("card_id"@).spec_as_u64() matches Some(n) && u.id == UmaId(n as u32)
            &&& spec_uma_rarity(item.at("rarity"@)) == Some(u.rarity)
            &&& stats_in_order(item.at("base_stats"@), u.base_stats.speed, u.base_stats.stamina,
                    u.base_stats.power, u.base_stats.guts, u.base_stats.wit)
            &&& stats_in_order(item.at("stat_bonus"@), u.growth_rates.speed, u.growth_rates.stamina,
                    u.growth_rates.power, u.growth_rates.guts, u.growth_rates.wit)
            &&& spec_aptitudes(item.at("aptitude"@)) == Ok::<Aptitudes, (ErrorKind, Seq<char>)>(u.aptitudes)
        }),
{
}

} // verus!
