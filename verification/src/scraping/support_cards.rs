//! The support card roster read from the JSON card list.
use crate::dates::{chrono_iso_date, parse_iso_date, Date};
use crate::db::support_card_repo::spec_card_type_label;
use crate::ids::{SkillId, SupportCardId};
use crate::json::{json_text, JsonValue};
use crate::models::support_card::{spec_effect_value_from_id, CardType, EffectValue, LbValues, Rarity, SupportCard};
use crate::scraping::error::{error_of, ErrorKind, ScraperError, ScraperResult};
use crate::scraping::interpolation::{breakpoints, interpolate_effect, interpolation, interpolation_fits, interpolation_fits_at, lb_levels_for_rarity, row_in_columns, row_is_in_columns, spec_lb_levels};
use crate::scraping::release_dates::date_of;
use crate::scraping::skills::str_or_empty;
use crate::scraping::unique_effect::{parse_unique_effect, spec_unique_effect, unique_effect_is_translatable, unique_effect_translatable};
use crate::support_card_skill::{HintAcquisition, SupportCardSkill};
use crate::text::str_eq;
use std::collections::HashMap;
use vstd::prelude::*;

verus! {

broadcast use vstd::std_specs::hash::group_hash_axioms;

/// A support card as plain values.
pub struct SupportCardView {
    pub id: SupportCardId,
    pub char_id: u32,
    pub char_name: Seq<char>,
    pub title: Seq<char>,
    pub card_type: CardType,
    pub rarity: Rarity,
    pub is_welfare: bool,
    pub release_date: Option<Date>,
    pub is_predicted_date: bool,
    pub unique_effect: Option<Seq<char>>,
    pub effects: Seq<EffectValue>,
    pub skills: Seq<SupportCardSkill>,
}

impl View for SupportCard {
    type V = SupportCardView;

    open spec fn view(&self) -> SupportCardView {
        SupportCardView {
            id: self.id,
            char_id: self.char_id,
            char_name: self.char_name@,
            title: self.title@,
            card_type: self.card_type,
            rarity: self.rarity,
            is_welfare: self.is_welfare,
            release_date: self.release_date,
            is_predicted_date: self.is_predicted_date,
            unique_effect: match self.unique_effect {
                Some(u) => Some(u@),
                None => None,
            },
            effects: self.effects@,
            skills: self.skills@,
        }
    }
}

pub open spec fn spec_card_rarity(v: JsonValue) -> Option<Rarity> {
    match v.spec_as_u64() {
        Some(1) => Some(Rarity::R),
        Some(2) => Some(Rarity::SR),
        Some(3) => Some(Rarity::SSR),
        _ => None,
    }
}

/// Reads a support card rarity code.
pub fn parse_rarity(value: &JsonValue) -> (r: ScraperResult<Rarity>)
    ensures
        match r {
            Ok(x) => spec_card_rarity(*value) == Some(x),
            Err(e) => spec_card_rarity(*value) is None
                && e.report() == (ErrorKind::UnknownValue, "support card rarity: "@ + json_text(*value)),
        },
{
    match value.as_u64() {
        Some(1) => Ok(Rarity::R),
        Some(2) => Ok(Rarity::SR),
        Some(3) => Ok(Rarity::SSR),
        _ => {
            let mut msg = String::from_str("support card rarity: ");
            msg.append(value.describe().as_str());
            Err(error_of(ErrorKind::UnknownValue, msg))
        },
    }
}

pub open spec fn spec_card_type(v: JsonValue) -> Option<CardType> {
    match v.spec_as_str() {
        Some(t) => if t == "speed"@ { Some(CardType::Speed) }
            else if t == "stamina"@ { Some(CardType::Stamina) }
            else if t == "power"@ { Some(CardType::Power) }
            else if t == "guts"@ { Some(CardType::Guts) }
            else if t == "intelligence"@ { Some(CardType::Wit) }
            else if t == "friend"@ { Some(CardType::Friend) }
            else if t == "group"@ { Some(CardType::Group) }
            else { None },
        None => None,
    }
}

/// Each card type is read from its own name and from no other text: the
/// names "speed", "stamina", "power", "guts", "intelligence", "friend" and
/// "group" give Speed, Stamina, Power, Guts, Wit, Friend and Group; a type
/// reads back from the label under which the database stores it; and a
/// value that gives a type carries exactly that type's name, so distinct
/// names give distinct types.
pub proof fn law_card_type_names(v: JsonValue, t: CardType)
    ensures
        v.spec_as_str() == Some(spec_card_type_label(t)) ==> spec_card_type(v) == Some(t),
        spec_card_type(v) == Some(t) ==> v.spec_as_str() == Some(spec_card_type_label(t)),
        v.spec_as_str() == Some("speed"@) ==> spec_card_type(v) == Some(CardType::Speed),
        v.spec_as_str() == Some("stamina"@) ==> spec_card_type(v) == Some(CardType::Stamina),
        v.spec_as_str() == Some("power"@) ==> spec_card_type(v) == Some(CardType::Power),
        v.spec_as_str() == Some("guts"@) ==> spec_card_type(v) == Some(CardType::Guts),
        v.spec_as_str() == Some("intelligence"@) ==> spec_card_type(v) == Some(CardType::Wit),
        v.spec_as_str() == Some("friend"@) ==> spec_card_type(v) == Some(CardType::Friend),
        v.spec_as_str() == Some("group"@) ==> spec_card_type(v) == Some(CardType::Group),
{
    reveal_strlit("speed");
    reveal_strlit("stamina");
    reveal_strlit("power");
    reveal_strlit("guts");
    reveal_strlit("intelligence");
    reveal_strlit("friend");
    reveal_strlit("group");
    if let Some(text) = v.spec_as_str() {
        let names = seq!["speed"@, "stamina"@, "power"@, "guts"@, "intelligence"@, "friend"@, "group"@];
        assert forall|i: int, j: int| 0 <= i < 7 && 0 <= j < 7 && i != j implies names[i] != names[j] by {
            if names[i] == names[j] {
                assert(names[i].len() == names[j].len() && names[i][0] == names[j][0]);
            }
        }
        assert(names[0] == "speed"@ && names[1] == "stamina"@ && names[2] == "power"@ && names[3] == "guts"@);
        assert(names[4] == "intelligence"@ && names[5] == "friend"@ && names[6] == "group"@);
    }
}

/// A support card's rarity code names its rarity: 1 is R, 2 is SR, 3 is
/// SSR, and no other value is a rarity.
pub proof fn law_card_rarity_codes(v: JsonValue)
    ensures
        spec_card_rarity(v) == Some(Rarity::R) <==> v.spec_as_u64() == Some(1u64),
        spec_card_rarity(v) == Some(Rarity::SR) <==> v.spec_as_u64() == Some(2u64),
        spec_card_rarity(v) == Some(Rarity::SSR) <==> v.spec_as_u64() == Some(3u64),
        spec_card_rarity(v) is None <==> !(v.spec_as_u64() matches Some(n) && 1 <= n <= 3),
{
}

/// Reads a support card type name.
pub fn parse_card_type(value: &JsonValue) -> (r: ScraperResult<CardType>)
    ensures
        match r {
            Ok(x) => spec_card_type(*value) == Some(x),
            Err(e) => spec_card_type(*value) is None
                && e.report() == (ErrorKind::UnknownValue, "support card type: "@ + json_text(*value)),
        },
{
    let found = match value.as_str() {
        Some(t) => if str_eq(t, "speed") { Some(CardType::Speed) }
            else if str_eq(t, "stamina") { Some(CardType::Stamina) }
            else if str_eq(t, "power") { Some(CardType::Power) }
            else if str_eq(t, "guts") { Some(CardType::Guts) }
            else if str_eq(t, "intelligence") { Some(CardType::Wit) }
            else if str_eq(t, "friend") { Some(CardType::Friend) }
            else if str_eq(t, "group") { Some(CardType::Group) }
            else { None },
        None => None,
    };
    match found {
        Some(x) => Ok(x),
        None => {
            let mut msg = String::from_str("support card type: ");
            msg.append(value.describe().as_str());
            Err(error_of(ErrorKind::UnknownValue, msg))
        },
    }
}

/// The release date of a card: its English release date when listed, else
/// its predicted date (marked as predicted) when there is one, else none.
pub open spec fn spec_card_release(item: JsonValue, predicted: Map<u32, Date>) -> Result<(Option<Date>, bool), (ErrorKind, Seq<char>)> {
    match item.at("release_en"@).spec_as_str() {
        Some(t) => match chrono_iso_date(t) {
            Ok(ymd) => Ok((Some(date_of(ymd)), false)),
            Err(e) => Err((ErrorKind::InvalidDate, "invalid release_en: "@ + e)),
        },
        None => match item.at("support_id"@).spec_as_u64() {
            Some(n) => if predicted.contains_key(n as u32) {
                Ok((Some(predicted[n as u32]), true))
            } else {
                Ok((None, false))
            },
            None => Ok((None, false)),
        },
    }
}

/// Reads the release date of a card.
pub fn parse_release(item: &JsonValue, predicted_dates: &HashMap<u32, Date>) -> (r: ScraperResult<(Option<Date>, bool)>)
    ensures
        match r {
            Ok(x) => spec_card_release(*item, predicted_dates@) == Ok::<(Option<Date>, bool), (ErrorKind, Seq<char>)>(x),
            Err(e) => spec_card_release(*item, predicted_dates@) == Err::<(Option<Date>, bool), (ErrorKind, Seq<char>)>(e.report()),
        },
{
    match item.field_str("release_en") {
        Some(date_str) => match parse_iso_date(date_str) {
            Ok(d) => Ok((Some(d), false)),
            Err(e) => {
                let mut msg = String::from_str("invalid release_en: ");
                msg.append(e.as_str());
                Err(error_of(ErrorKind::InvalidDate, msg))
            },
        },
        None => match item.field_u64("support_id") {
            Some(n) => {
                let key: u32 = #[verifier::truncate] (n as u32);
                match predicted_dates.get(&key) {
                    Some(d) => Ok((Some(*d), true)),
                    None => Ok((None, false)),
                }
            },
            None => Ok((None, false)),
        },
    }
}

/// A matrix cell read as an integer; `-1` when it is not one.
pub open spec fn cell_value(v: JsonValue) -> i64 {
    match v.spec_as_i64() {
        Some(x) => x,
        None => -1i64,
    }
}

/// The matrix values of an effects row: the columns after the effect id,
/// with non-integers read as `-1`.
pub open spec fn matrix_of(cols: Seq<JsonValue>) -> Seq<i64> {
    cols.skip(1).map_values(|v: JsonValue| cell_value(v))
}

/// The value at `level`, when it is positive.
pub open spec fn lb_value(values: Seq<i64>, level: u32) -> Option<i32> {
    let v = interpolation(breakpoints(values), level);
    if v <= 0 { None } else { Some(v as i32) }
}

pub open spec fn lb_values_of(values: Seq<i64>, levels: Seq<u32>) -> LbValues {
    LbValues {
        lb0: lb_value(values, levels[0]),
        lb1: lb_value(values, levels[1]),
        lb2: lb_value(values, levels[2]),
        lb3: lb_value(values, levels[3]),
        mlb: lb_value(values, levels[4]),
    }
}

/// The row can be interpolated at all five limit break levels.
pub open spec fn row_readable(cols: Seq<JsonValue>, levels: Seq<u32>) -> bool {
    let values = matrix_of(cols);
    &&& row_in_columns(values)
    &&& forall|k: int| 0 <= k < 5 ==> interpolation_fits(values, #[trigger] levels[k])
}

/// The effects of the rows of an effects matrix, in order: empty rows are
/// skipped, and rows with an unknown effect id are left out.
pub open spec fn effect_rows(rows: Seq<JsonValue>, levels: Seq<u32>) -> Result<Seq<EffectValue>, (ErrorKind, Seq<char>)>
    decreases rows.len(),
{
    if rows.len() == 0 {
        Ok(Seq::empty())
    } else {
        match rows[0].spec_as_array() {
            None => Err((ErrorKind::InvalidShape, "effect row is not an array"@)),
            Some(cols) => if cols.len() == 0 {
                effect_rows(rows.drop_first(), levels)
            } else {
                match cols[0].spec_as_u64() {
                    None => Err((ErrorKind::MissingField, "effect_id in row"@)),
                    Some(id) => {
                        let e = spec_effect_value_from_id(id as u32, lb_values_of(matrix_of(cols), levels));
                        match effect_rows(rows.drop_first(), levels) {
                            Ok(rest) => Ok(match e {
                                Some(x) => seq![x] + rest,
                                None => rest,
                            }),
                            Err(err) => Err(err),
                        }
                    },
                }
            },
        }
    }
}

/// The rows that are read, up to the first that fails, can be interpolated.
pub open spec fn rows_readable(rows: Seq<JsonValue>, levels: Seq<u32>) -> bool
    decreases rows.len(),
{
    if rows.len() == 0 {
        true
    } else {
        match rows[0].spec_as_array() {
            None => true,
            Some(cols) => if cols.len() == 0 {
                rows_readable(rows.drop_first(), levels)
            } else {
                match cols[0].spec_as_u64() {
                    None => true,
                    Some(_) => row_readable(cols, levels) && rows_readable(rows.drop_first(), levels),
                }
            },
        }
    }
}

/// The effects of a card of the given rarity.
pub open spec fn spec_card_effects(item: JsonValue, rarity: Rarity) -> Result<Seq<EffectValue>, (ErrorKind, Seq<char>)> {
    match item.at("effects"@).spec_as_array() {
        None => Err((ErrorKind::MissingField, "effects"@)),
        Some(rows) => effect_rows(rows, spec_lb_levels(rarity)),
    }
}

pub open spec fn card_effects_readable(item: JsonValue, rarity: Rarity) -> bool {
    match item.at("effects"@).spec_as_array() {
        None => true,
        Some(rows) => rows_readable(rows, spec_lb_levels(rarity)),
    }
}

/// The matrix values of an effects row.
fn matrix_values_of(cols: &Vec<JsonValue>) -> (r: Vec<i64>)
    requires cols@.len() > 0,
    ensures r@ == matrix_of(cols@),
{
    let mut out: Vec<i64> = Vec::new();
    let mut j: usize = 1;
    while j < cols.len()
        invariant
            1 <= j <= cols.len(),
            out@ == cols@.subrange(1, j as int).map_values(|v: JsonValue| cell_value(v)),
        decreases cols.len() - j,
    {
        let v = match cols[j].as_i64() {
            Some(x) => x,
            None => -1,
        };
        out.push(v);
        assert(cols@.subrange(1, j + 1).map_values(|v: JsonValue| cell_value(v))
            =~= cols@.subrange(1, j as int).map_values(|v: JsonValue| cell_value(v)).push(v));
        j += 1;
    }
    assert(cols@.subrange(1, cols@.len() as int) =~= cols@.skip(1));
    out
}

fn lb_value_at(values: &Vec<i64>, level: u32) -> (r: Option<i32>)
    requires
        row_in_columns(values@),
        interpolation_fits(values@, level),
    ensures r == lb_value(values@, level),
{
    let val = interpolate_effect(values.as_slice(), level);
    if val <= 0 { None } else { Some(#[verifier::truncate] (val as i32)) }
}

/// Reads the effects matrix of a card: each row is an effect id followed by
/// the values at the level breakpoints, and each effect gets its values at
/// the card's limit break levels.
pub fn parse_effects(item: &JsonValue, rarity: &Rarity) -> (r: ScraperResult<Vec<EffectValue>>)
    requires card_effects_readable(*item, *rarity),
    ensures
        match r {
            Ok(v) => spec_card_effects(*item, *rarity) == Ok::<Seq<EffectValue>, (ErrorKind, Seq<char>)>(v@),
            Err(e) => spec_card_effects(*item, *rarity) == Err::<Seq<EffectValue>, (ErrorKind, Seq<char>)>(e.report()),
        },
{
    let lb_levels = lb_levels_for_rarity(rarity);
    let rows = match item.field_array("effects") {
        Some(a) => a,
        None => return Err(error_of(ErrorKind::MissingField, String::from_str("effects"))),
    };
    let ghost levels = spec_lb_levels(*rarity);
    let mut effects: Vec<EffectValue> = Vec::new();
    let mut i: usize = 0;
    proof {
        assert(rows@.skip(0) =~= rows@);
        match effect_rows(rows@, levels) {
            Ok(rest) => { assert(Seq::<EffectValue>::empty() + rest =~= rest); },
            Err(_) => {},
        }
    }
    while i < rows.len()
        invariant
            0 <= i <= rows.len(),
            lb_levels@ == levels,
            item.at("effects"@).spec_as_array() == Some(rows@),
            levels == spec_lb_levels(*rarity),
            rows_readable(rows@.skip(i as int), levels),
            spec_card_effects(*item, *rarity) == match effect_rows(rows@.skip(i as int), levels) {
                Ok(rest) => Ok(effects@ + rest),
                Err(err) => Err::<Seq<EffectValue>, (ErrorKind, Seq<char>)>(err),
            },
        decreases rows.len() - i,
    {
        assert(rows@.skip(i as int)[0] == rows@[i as int]);
        assert(rows@.skip(i as int).drop_first() =~= rows@.skip(i + 1));
        let cols = match rows[i].as_array() {
            Some(c) => c,
            None => return Err(error_of(ErrorKind::InvalidShape, String::from_str("effect row is not an array"))),
        };
        if cols.len() == 0 {
            i += 1;
            continue;
        }
        let effect_id: u32 = match cols[0].as_u64() {
            Some(n) => #[verifier::truncate] (n as u32),
            None => return Err(error_of(ErrorKind::MissingField, String::from_str("effect_id in row"))),
        };
        let matrix_values = matrix_values_of(cols);
        proof {
            assert(row_readable(cols@, levels));
            assert(interpolation_fits(matrix_values@, levels[0]));
            assert(interpolation_fits(matrix_values@, levels[1]));
            assert(interpolation_fits(matrix_values@, levels[2]));
            assert(interpolation_fits(matrix_values@, levels[3]));
            assert(interpolation_fits(matrix_values@, levels[4]));
        }
        let lb_values = LbValues {
            lb0: lb_value_at(&matrix_values, lb_levels[0]),
            lb1: lb_value_at(&matrix_values, lb_levels[1]),
            lb2: lb_value_at(&matrix_values, lb_levels[2]),
            lb3: lb_value_at(&matrix_values, lb_levels[3]),
            mlb: lb_value_at(&matrix_values, lb_levels[4]),
        };
        let ghost before = effects@;
        match EffectValue::from_id(effect_id, lb_values) {
            Some(e) => {
                effects.push(e);
                proof {
                    match effect_rows(rows@.skip(i + 1), levels) {
                        Ok(rest) => { assert(before + (seq![e] + rest) =~= before.push(e) + rest); },
                        Err(_) => {},
                    }
                }
            },
            None => {},
        }
        i += 1;
    }
    proof {
        assert(rows@.skip(i as int) =~= Seq::<JsonValue>::empty());
        assert(effects@ + Seq::<EffectValue>::empty() =~= effects@);
    }
    Ok(effects)
}


/// The skills of the ids in `entries` that are unsigned integers, in order,
/// each with the way `acquisition` that the card hands it out.
pub open spec fn card_skill_ids(entries: Seq<JsonValue>, acquisition: HintAcquisition) -> Seq<SupportCardSkill>
    decreases entries.len(),
{
    if entries.len() == 0 {
        Seq::empty()
    } else {
        let rest = card_skill_ids(entries.drop_last(), acquisition);
        match entries.last().spec_as_u64() {
            Some(n) => rest.push(SupportCardSkill { skill_id: SkillId(n as u32), acquisition }),
            None => rest,
        }
    }
}

pub open spec fn optional_skill_ids(v: JsonValue, acquisition: HintAcquisition) -> Seq<SupportCardSkill> {
    match v.spec_as_array() {
        Some(a) => card_skill_ids(a, acquisition),
        None => Seq::empty(),
    }
}

/// The skills of a card: its event skills, then its hint skills.
pub open spec fn spec_card_skills(item: JsonValue) -> Seq<SupportCardSkill> {
    optional_skill_ids(item.at("event_skills"@), HintAcquisition::Event)
        + optional_skill_ids(item.at("hints"@).at("hint_skills"@), HintAcquisition::Hint)
}

fn push_skill_ids(out: &mut Vec<SupportCardSkill>, entries: &Vec<JsonValue>, acquisition: HintAcquisition)
    ensures final(out)@ == old(out)@ + card_skill_ids(entries@, acquisition),
{
    let ghost start = out@;
    let mut i: usize = 0;
    assert(start + card_skill_ids(entries@.take(0), acquisition) =~= start);
    while i < entries.len()
        invariant
            0 <= i <= entries.len(),
            out@ == start + card_skill_ids(entries@.take(i as int), acquisition),
        decreases entries.len() - i,
    {
        assert(entries@.take(i + 1).drop_last() =~= entries@.take(i as int));
        assert(entries@.take(i + 1).last() == entries@[i as int]);
        if let Some(n) = entries[i].as_u64() {
            let ghost before = out@;
            out.push(SupportCardSkill { skill_id: SkillId(#[verifier::truncate] (n as u32)), acquisition });
            assert(out@ =~= start + card_skill_ids(entries@.take(i + 1), acquisition));
        }
        i += 1;
    }
    assert(entries@.take(entries.len() as int) =~= entries@);
}

/// Reads the event skills and hint skills of a card; entries that are not
/// skill ids are skipped.
pub fn parse_skills(item: &JsonValue) -> (r: Vec<SupportCardSkill>)
    ensures r@ == spec_card_skills(*item),
{
    let mut skills: Vec<SupportCardSkill> = Vec::new();
    if let Some(arr) = item.field_array("event_skills") {
        push_skill_ids(&mut skills, arr, HintAcquisition::Event);
    }
    assert(skills@ =~= optional_skill_ids(item.at("event_skills"@), HintAcquisition::Event));
    let ghost first = skills@;
    let hints = match item.get("hints") {
        Some(h) => h.field_array("hint_skills"),
        None => None,
    };
    if let Some(arr) = hints {
        push_skill_ids(&mut skills, arr, HintAcquisition::Hint);
    }
    assert(skills@ =~= first + optional_skill_ids(item.at("hints"@).at("hint_skills"@), HintAcquisition::Hint));
    skills
}

/// The card that an entry of the card list describes, or the kind and
/// message of the error that stops it.
pub open spec fn spec_support_card(item: JsonValue, predicted: Map<u32, Date>) -> Result<SupportCardView, (ErrorKind, Seq<char>)> {
    match item.at("support_id"@).spec_as_u64() {
        None => Err((ErrorKind::MissingField, "support_id"@)),
        Some(sid) => match item.at("char_id"@).spec_as_u64() {
            None => Err((ErrorKind::MissingField, "char_id"@)),
            Some(cid) => match item.at("char_name"@).spec_as_str() {
                None => Err((ErrorKind::MissingField, "char_name"@)),
                Some(char_name) => match spec_card_rarity(item.at("rarity"@)) {
                    None => Err((ErrorKind::UnknownValue, "support card rarity: "@ + json_text(item.at("rarity"@)))),
                    Some(rarity) => match spec_card_type(item.at("type"@)) {
                        None => Err((ErrorKind::UnknownValue, "support card type: "@ + json_text(item.at("type"@)))),
                        Some(card_type) => match spec_card_release(item, predicted) {
                            Err(e) => Err(e),
                            Ok((release_date, is_predicted_date)) => {
                                let unique = match item.spec_get("unique"@) {
                                    Some(u) => match spec_unique_effect(u) {
                                        Ok(t) => Ok(Some(t)),
                                        Err(e) => Err(e),
                                    },
                                    None => Ok(None),
                                };
                                match unique {
                                    Err(e) => Err(e),
                                    Ok(unique_effect) => match spec_card_effects(item, rarity) {
                                        Err(e) => Err(e),
                                        Ok(effects) => Ok(SupportCardView {
                                            id: SupportCardId(sid as u32),
                                            char_id: cid as u32,
                                            char_name,
                                            title: str_or_empty(item.at("title_en"@)),
                                            card_type,
                                            rarity,
                                            is_welfare: item.at("obtained"@).spec_as_str() == Some("welfare"@),
                                            release_date,
                                            is_predicted_date,
                                            unique_effect,
                                            effects,
                                            skills: spec_card_skills(item),
                                        }),
                                    },
                                }
                            },
                        },
                    },
                },
            },
        },
    }
}

/// Reading the entry never indexes past a unique effect's values, overflows,
/// or reads a matrix row past its breakpoint columns.
pub open spec fn card_readable(item: JsonValue, predicted: Map<u32, Date>) -> bool {
    let reaches = item.at("support_id"@).spec_as_u64() is Some
        && item.at("char_id"@).spec_as_u64() is Some
        && item.at("char_name"@).spec_as_str() is Some
        && spec_card_rarity(item.at("rarity"@)) is Some
        && spec_card_type(item.at("type"@)) is Some
        && spec_card_release(item, predicted) is Ok;
    reaches ==> {
        &&& (match item.spec_get("unique"@) {
            Some(u) => unique_effect_translatable(u),
            None => true,
        })
        &&& (match item.spec_get("unique"@) {
            Some(u) => spec_unique_effect(u) is Ok,
            None => true,
        }) ==> card_effects_readable(item, spec_card_rarity(item.at("rarity"@)).unwrap())
    }
}

/// Reads one entry of the support card list; `predicted_dates` gives the
/// predicted release dates by card id. Cards read here are always `Some`.
pub fn parse_support_card(item: &JsonValue, predicted_dates: &HashMap<u32, Date>) -> (r: ScraperResult<Option<SupportCard>>)
    requires card_readable(*item, predicted_dates@),
    ensures
        match r {
            Ok(Some(card)) => spec_support_card(*item, predicted_dates@) == Ok::<SupportCardView, (ErrorKind, Seq<char>)>(card@),
            Ok(None) => false,
            Err(e) => spec_support_card(*item, predicted_dates@) == Err::<SupportCardView, (ErrorKind, Seq<char>)>(e.report()),
        },
{
    proof { reveal_strlit(""); reveal_strlit("welfare"); }
    let id = match item.field_u64("support_id") {
        Some(n) => SupportCardId(#[verifier::truncate] (n as u32)),
        None => return Err(error_of(ErrorKind::MissingField, String::from_str("support_id"))),
    };
    let char_id: u32 = match item.field_u64("char_id") {
        Some(n) => #[verifier::truncate] (n as u32),
        None => return Err(error_of(ErrorKind::MissingField, String::from_str("char_id"))),
    };
    let char_name = match item.field_str("char_name") {
        Some(n) => String::from_str(n),
        None => return Err(error_of(ErrorKind::MissingField, String::from_str("char_name"))),
    };
    let title = match item.field_str("title_en") {
        Some(t) => String::from_str(t),
        None => String::new(),
    };
    let rarity = match item.get("rarity") {
        Some(v) => parse_rarity(v),
        None => parse_rarity(&JsonValue::Null),
    };
    let rarity = match rarity {
        Ok(r) => r,
        Err(e) => return Err(e),
    };
    let card_type = match item.get("type") {
        Some(v) => parse_card_type(v),
        None => parse_card_type(&JsonValue::Null),
    };
    let card_type = match card_type {
        Ok(t) => t,
        Err(e) => return Err(e),
    };
    let is_welfare = match item.field_str("obtained") {
        Some(o) => str_eq(o, "welfare"),
        None => false,
    };
    let (release_date, is_predicted_date) = match parse_release(item, predicted_dates) {
        Ok(x) => x,
        Err(e) => return Err(e),
    };
    let unique_effect = match item.get("unique") {
        Some(unique) => match parse_unique_effect(unique) {
            Ok(t) => Some(t),
            Err(e) => return Err(e),
        },
        None => None,
    };
    let effects = match parse_effects(item, &rarity) {
        Ok(e) => e,
        Err(e) => return Err(e),
    };
    let skills = parse_skills(item);
    let card = SupportCard {
        id,
        char_id,
        char_name,
        title,
        card_type,
        rarity,
        is_welfare,
        release_date,
        is_predicted_date,
        unique_effect,
        effects,
        skills,
    };
    proof {
        let sv = spec_support_card(*item, predicted_dates@);
        assert(sv is Ok);
        assert(sv->Ok_0.unique_effect == card@.unique_effect);
        assert(sv->Ok_0.is_welfare == card@.is_welfare);
        assert(sv->Ok_0.title == card@.title);
    }
    Ok(Some(card))
}


/// The cards of the entries that read without error, in order.
pub open spec fn parsed_cards(items: Seq<JsonValue>, predicted: Map<u32, Date>) -> Seq<SupportCardView>
    decreases items.len(),
{
    if items.len() == 0 {
        Seq::empty()
    } else {
        let rest = parsed_cards(items.drop_last(), predicted);
        match spec_support_card(items.last(), predicted) {
            Ok(card) => rest.push(card),
            Err(_) => rest,
        }
    }
}

/// Every entry of the card list can be read without panicking.
pub open spec fn all_cards_readable(items: Seq<JsonValue>, predicted: Map<u32, Date>) -> bool {
    forall|i: int| 0 <= i < items.len() ==> card_readable(#[trigger] items[i], predicted)
}

/// Reads the support card list: every entry that reads without error, in
/// order; entries with errors are skipped. Fails only when the document is
/// not an array.
pub fn parse_support_card_roster(root: &JsonValue, predicted_dates: &HashMap<u32, Date>) -> (r: ScraperResult<Vec<SupportCard>>)
    requires
        root.spec_as_array() is Some ==> all_cards_readable(root.spec_as_array().unwrap(), predicted_dates@),
    ensures
        match r {
            Ok(cards) => root.spec_as_array() is Some
                && cards@.map_values(|c: SupportCard| c@) == parsed_cards(root.spec_as_array().unwrap(), predicted_dates@),
            Err(e) => root.spec_as_array() is None && e.spec_kind() == ErrorKind::Json,
        },
{
    let items = match root.as_array() {
        Some(items) => items,
        None => return Err(error_of(ErrorKind::Json, String::from_str("failed to parse support cards JSON: expected an array"))),
    };
    let mut cards: Vec<SupportCard> = Vec::new();
    let mut i: usize = 0;
    while i < items.len()
        invariant
            0 <= i <= items.len(),
            root.spec_as_array() == Some(items@),
            all_cards_readable(items@, predicted_dates@),
            cards@.map_values(|c: SupportCard| c@) == parsed_cards(items@.take(i as int), predicted_dates@),
        decreases items.len() - i,
    {
        assert(items@.take(i + 1).drop_last() =~= items@.take(i as int));
        assert(items@.take(i + 1).last() == items@[i as int]);
        let ghost before = cards@.map_values(|c: SupportCard| c@);
        match parse_support_card(&items[i], predicted_dates) {
            Ok(Some(card)) => {
                cards.push(card);
                assert(cards@.map_values(|c: SupportCard| c@) =~= before.push(card@));
            },
            Ok(None) => {},
            Err(_) => {},
        }
        i += 1;
    }
    assert(items@.take(items.len() as int) =~= items@);
    Ok(cards)
}


/// Whether every row of an effects matrix can be read at the given levels.
fn rows_are_readable(rows: &Vec<JsonValue>, levels: &[u32; 5]) -> (r: bool)
    ensures
        r == rows_readable(rows@, levels@),
{
    let mut i: usize = 0;
    assert(rows@.skip(0) =~= rows@);
    while i < rows.len()
        invariant
            0 <= i <= rows.len(),
            rows_readable(rows@, levels@) == rows_readable(rows@.skip(i as int), levels@),
        decreases rows.len() - i,
    {
        assert(rows@.skip(i as int)[0] == rows@[i as int]);
        assert(rows@.skip(i as int).drop_first() =~= rows@.skip(i + 1));
        let cols = match rows[i].as_array() {
            Some(cols) => cols,
            None => return true,
        };
        if cols.len() > 0 {
            if cols[0].as_u64().is_none() {
                return true;
            }
            let values = matrix_values_of(cols);
            if !row_is_in_columns(values.as_slice()) {
                assert(rows@.skip(i as int)[0].spec_as_array() == Some(cols@));
                return false;
            }
            let mut k: usize = 0;
            while k < 5
                invariant
                    0 <= k <= 5,
                    0 <= i < rows@.len(),
                    rows@[i as int].spec_as_array() == Some(cols@),
                    cols@.len() > 0,
                    cols@[0].spec_as_u64() is Some,
                    rows_readable(rows@, levels@) == rows_readable(rows@.skip(i as int), levels@),
                    rows@.skip(i as int)[0] == rows@[i as int],
                    values@ == matrix_of(cols@),
                    row_in_columns(values@),
                    forall|j: int| 0 <= j < k ==> interpolation_fits(values@, #[trigger] levels@[j]),
                decreases 5 - k,
            {
                if !interpolation_fits_at(values.as_slice(), levels[k]) {
                    assert(!interpolation_fits(values@, levels@[k as int]));
                    assert(!row_readable(cols@, levels@));
                    assert(rows@.skip(i as int)[0].spec_as_array() == Some(cols@));
                    return false;
                }
                k += 1;
            }
        }
        i += 1;
    }
    true
}

/// Whether the effects matrix of a card can be read at its limit break levels.
pub fn card_effects_are_readable(item: &JsonValue, rarity: &Rarity) -> (r: bool)
    ensures
        r == card_effects_readable(*item, *rarity),
{
    match item.field_array("effects") {
        None => true,
        Some(rows) => {
            let levels = lb_levels_for_rarity(rarity);
            rows_are_readable(rows, &levels)
        },
    }
}

/// Whether reading the entry stays within its values and its arithmetic
/// (what `parse_support_card` asks of its input).
pub fn card_is_readable(item: &JsonValue, predicted_dates: &HashMap<u32, Date>) -> (r: bool)
    ensures
        r == card_readable(*item, predicted_dates@),
{
    let rarity = match item.get("rarity") {
        Some(v) => parse_rarity(v),
        None => parse_rarity(&JsonValue::Null),
    };
    let card_type = match item.get("type") {
        Some(v) => parse_card_type(v),
        None => parse_card_type(&JsonValue::Null),
    };
    let reaches = item.field_u64("support_id").is_some()
        && item.field_u64("char_id").is_some()
        && item.field_str("char_name").is_some()
        && rarity.is_ok()
        && card_type.is_ok()
        && parse_release(item, predicted_dates).is_ok();
    if !reaches {
        return true;
    }
    let rarity = match rarity {
        Ok(r) => r,
        Err(_) => return true,
    };
    match item.get("unique") {
        Some(u) => {
            if !unique_effect_is_translatable(u) {
                return false;
            }
            if parse_unique_effect(u).is_err() {
                return true;
            }
        },
        None => {},
    }
    card_effects_are_readable(item, &rarity)
}

/// Whether every entry of the support card list can be read (what
/// `parse_support_card_roster` asks of its input).
pub fn cards_are_readable(root: &JsonValue, predicted_dates: &HashMap<u32, Date>) -> (r: bool)
    ensures
        r == (root.spec_as_array() is Some ==> all_cards_readable(root.spec_as_array().unwrap(), predicted_dates@)),
{
    let items = match root.as_array() {
        Some(items) => items,
        None => return true,
    };
    let mut i: usize = 0;
    while i < items.len()
        invariant
            0 <= i <= items.len(),
            root.spec_as_array() == Some(items@),
            forall|j: int| 0 <= j < i ==> card_readable(#[trigger] items@[j], predicted_dates@),
        decreases items.len() - i,
    {
        if !card_is_readable(&items[i], predicted_dates) {
            return false;
        }
        i += 1;
    }
    true
}

} // verus!
