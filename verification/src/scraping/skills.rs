//! The skill roster: skills read from the JSON skill list.
use crate::ids::SkillId;
use crate::json::{json_text, JsonValue};
use crate::models::skill::{spec_effect_from_raw, Category, Condition, Effect, EffectType, Rarity, Skill};
use crate::scraping::conditions::{invalid_condition_message, parse_condition_string, spec_condition_string, ConditionView};
use crate::scraping::error::{error_of, ErrorKind, ScraperError, ScraperResult};
use crate::text::nat_str;
use vstd::prelude::*;

verus! {

/// An effect: its effect types, conditions and preconditions.
pub type EffectView = (Seq<EffectType>, Seq<ConditionView>, Seq<ConditionView>);

impl View for Effect {
    type V = EffectView;

    open spec fn view(&self) -> EffectView {
        (self.effects@, self.conditions@.map_values(|c: Condition| c@), self.preconditions@.map_values(|c: Condition| c@))
    }
}

/// A skill as plain values.
pub struct SkillView {
    pub id: SkillId,
    pub name: Seq<char>,
    pub ingame_description: Seq<char>,
    pub category: Category,
    pub rarity: Rarity,
    pub sp_cost: u32,
    pub effects: Seq<EffectView>,
    pub is_jp_only: bool,
}

impl View for Skill {
    type V = SkillView;

    open spec fn view(&self) -> SkillView {
        SkillView {
            id: self.id,
            name: self.name@,
            ingame_description: self.ingame_description@,
            category: self.category,
            rarity: self.rarity,
            sp_cost: self.sp_cost,
            effects: self.effects@.map_values(|e: Effect| e@),
            is_jp_only: self.is_jp_only,
        }
    }
}

/// The text of a string value, or the empty text for any other value.
pub open spec fn str_or_empty(v: JsonValue) -> Seq<char> {
    match v.spec_as_str() {
        Some(s) => s,
        None => Seq::empty(),
    }
}

/// The effect types of the entries of an `effects` array: entries without an
/// unsigned `type`, or with an unknown one, are left out; a missing or
/// non-integer `value` counts as 0.
pub open spec fn spec_effect_types(entries: Seq<JsonValue>) -> Seq<EffectType>
    decreases entries.len(),
{
    if entries.len() == 0 {
        Seq::empty()
    } else {
        let rest = spec_effect_types(entries.drop_last());
        let e = entries.last();
        match e.at("type"@).spec_as_u64() {
            Some(t) => match spec_effect_from_raw(t, e.at("value"@).spec_as_i64().unwrap_or(0)) {
                Some(x) => rest.push(x),
                None => rest,
            },
            None => rest,
        }
    }
}

/// An effect group of the skill list: its effects, conditions and
/// preconditions, or the first condition term that is invalid.
pub open spec fn spec_effect_group(cg: JsonValue) -> Result<EffectView, Seq<char>> {
    let effs = match cg.at("effects"@).spec_as_array() {
        Some(a) => spec_effect_types(a),
        None => Seq::empty(),
    };
    match spec_condition_string(str_or_empty(cg.at("condition"@))) {
        Err(p) => Err(p),
        Ok(c) => match spec_condition_string(str_or_empty(cg.at("precondition"@))) {
            Err(p) => Err(p),
            Ok(pc) => Ok((effs, c, pc)),
        },
    }
}

/// The effect groups in order, or the first invalid condition term.
pub open spec fn spec_effect_groups(groups: Seq<JsonValue>) -> Result<Seq<EffectView>, Seq<char>>
    decreases groups.len(),
{
    if groups.len() == 0 {
        Ok(Seq::empty())
    } else {
        match spec_effect_group(groups[0]) {
            Err(p) => Err(p),
            Ok(e) => match spec_effect_groups(groups.drop_first()) {
                Ok(rest) => Ok(seq![e] + rest),
                Err(p) => Err(p),
            },
        }
    }
}

/// Reads the effects of an effect group.
fn parse_effect_types(entries: &Vec<JsonValue>) -> (r: Vec<EffectType>)
    ensures r@ == spec_effect_types(entries@),
{
    let mut out: Vec<EffectType> = Vec::new();
    let mut i: usize = 0;
    while i < entries.len()
        invariant
            0 <= i <= entries.len(),
            out@ == spec_effect_types(entries@.take(i as int)),
        decreases entries.len() - i,
    {
        let e = &entries[i];
        assert(entries@.take(i + 1).drop_last() =~= entries@.take(i as int));
        assert(entries@.take(i + 1).last() == *e);
        if let Some(type_id) = e.field_u64("type") {
            let value = match e.field_i64("value") {
                Some(v) => v,
                None => 0,
            };
            if let Some(x) = EffectType::from_raw(type_id, value) {
                out.push(x);
            }
        }
        i += 1;
    }
    assert(entries@.take(entries.len() as int) =~= entries@);
    out
}

/// Reads one effect group of a skill.
pub fn parse_effect_group(cg: &JsonValue, skill_id: SkillId) -> (r: ScraperResult<Effect>)
    ensures
        match r {
            Ok(e) => spec_effect_group(*cg) == Ok::<EffectView, Seq<char>>(e@),
            Err(e) => spec_effect_group(*cg) is Err && e.report() == (ErrorKind::InvalidCondition,
                invalid_condition_message(spec_effect_group(*cg)->Err_0, skill_id)),
        },
{
    proof { reveal_strlit(""); }
    let effects = match cg.field_array("effects") {
        Some(a) => parse_effect_types(a),
        None => Vec::new(),
    };
    let condition = match cg.field_str("condition") {
        Some(t) => t,
        None => "",
    };
    let precondition = match cg.field_str("precondition") {
        Some(t) => t,
        None => "",
    };
    let conditions = match parse_condition_string(condition, skill_id) {
        Ok(c) => c,
        Err(e) => return Err(e),
    };
    let preconditions = match parse_condition_string(precondition, skill_id) {
        Ok(c) => c,
        Err(e) => return Err(e),
    };
    Ok(Effect { effects, conditions, preconditions })
}


/// An effect group read on its own: a group without an integer `base_time`
/// is refused; otherwise its effects, conditions and preconditions, or the
/// first invalid condition term.
pub open spec fn spec_effect(cg: JsonValue, skill_id: SkillId) -> Result<EffectView, (ErrorKind, Seq<char>)> {
    match cg.at("base_time"@).spec_as_i64() {
        None => Err((ErrorKind::MissingField, "base_time in skill "@ + nat_str(skill_id.0 as nat))),
        Some(_) => match spec_effect_group(cg) {
            Ok(e) => Ok(e),
            Err(p) => Err((ErrorKind::InvalidCondition, invalid_condition_message(p, skill_id))),
        },
    }
}

/// Reads an effect group that must carry its base duration (`base_time`).
pub fn parse_effect(cg: &JsonValue, skill_id: SkillId) -> (r: ScraperResult<Effect>)
    ensures
        match r {
            Ok(e) => spec_effect(*cg, skill_id) == Ok::<EffectView, (ErrorKind, Seq<char>)>(e@),
            Err(e) => spec_effect(*cg, skill_id) == Err::<EffectView, (ErrorKind, Seq<char>)>(e.report()),
        },
{
    proof { reveal_strlit(""); }
    if cg.field_i64("base_time").is_none() {
        let msg = text_num_text("base_time in skill ", skill_id.0 as u64, "");
        assert(msg@ =~= "base_time in skill "@ + nat_str(skill_id.0 as nat));
        return Err(error_of(ErrorKind::MissingField, msg));
    }
    parse_effect_group(cg, skill_id)
}

/// Reads the effect groups of a skill in order, stopping at the first invalid one.
pub fn parse_effect_groups(groups: &Vec<JsonValue>, skill_id: SkillId) -> (r: ScraperResult<Vec<Effect>>)
    ensures
        match r {
            Ok(v) => spec_effect_groups(groups@) == Ok::<Seq<EffectView>, Seq<char>>(v@.map_values(|e: Effect| e@)),
            Err(e) => spec_effect_groups(groups@) is Err && e.report() == (ErrorKind::InvalidCondition,
                invalid_condition_message(spec_effect_groups(groups@)->Err_0, skill_id)),
        },
{
    let mut out: Vec<Effect> = Vec::new();
    let mut i: usize = 0;
    proof {
        assert(groups@.skip(0) =~= groups@);
        assert(out@.map_values(|e: Effect| e@) =~= Seq::<EffectView>::empty());
        match spec_effect_groups(groups@) {
            Ok(rest) => { assert(Seq::<EffectView>::empty() + rest =~= rest); },
            Err(_) => {},
        }
    }
    while i < groups.len()
        invariant
            0 <= i <= groups.len(),
            spec_effect_groups(groups@) == match spec_effect_groups(groups@.skip(i as int)) {
                Ok(rest) => Ok(out@.map_values(|e: Effect| e@) + rest),
                Err(p) => Err::<Seq<EffectView>, Seq<char>>(p),
            },
        decreases groups.len() - i,
    {
        assert(groups@.skip(i as int)[0] == groups@[i as int]);
        assert(groups@.skip(i as int).drop_first() =~= groups@.skip(i + 1));
        let ghost before = out@.map_values(|e: Effect| e@);
        match parse_effect_group(&groups[i], skill_id) {
            Ok(e) => {
                out.push(e);
                proof {
                    let ev = spec_effect_group(groups@[i as int])->Ok_0;
                    assert(out@.map_values(|e: Effect| e@) =~= before.push(ev));
                    match spec_effect_groups(groups@.skip(i + 1)) {
                        Ok(rest) => { assert(before + (seq![ev] + rest) =~= before.push(ev) + rest); },
                        Err(_) => {},
                    }
                }
            },
            Err(e) => {
                return Err(e);
            },
        }
        i += 1;
    }
    proof {
        assert(groups@.skip(i as int) =~= Seq::<JsonValue>::empty());
        let v = out@.map_values(|e: Effect| e@);
        assert(v + Seq::<EffectView>::empty() =~= v);
    }
    Ok(out)
}

/// The rarity that a skill list rarity code denotes.
pub open spec fn spec_skill_rarity(code: Option<u64>) -> Option<Rarity> {
    match code {
        Some(1) => Some(Rarity::Normal),
        Some(2) | Some(3) => Some(Rarity::Rare),
        Some(4) | Some(5) => Some(Rarity::Unique),
        Some(6) => Some(Rarity::Evolution),
        _ => None,
    }
}

/// A skill's rarity follows its rarity code: 1 is Normal, 2 and 3 are Rare,
/// 4 and 5 are Unique, 6 is Evolution, and any other code is refused. A
/// skill read from an entry carries the rarity of the entry's code, so no
/// code but 1 gives a Normal skill.
pub proof fn law_skill_rarity_codes(item: JsonValue, table: Seq<(u32, Category)>)
    ensures
        ({
            let code = item.at("rarity"@).spec_as_u64();
            &&& spec_skill_rarity(code) == Some(Rarity::Normal) <==> code == Some(1u64)
            &&& spec_skill_rarity(code) == Some(Rarity::Rare) <==> (code == Some(2u64) || code == Some(3u64))
            &&& spec_skill_rarity(code) == Some(Rarity::Unique) <==> (code == Some(4u64) || code == Some(5u64))
            &&& spec_skill_rarity(code) == Some(Rarity::Evolution) <==> code == Some(6u64)
            &&& spec_skill_rarity(code) is None <==> !(code matches Some(n) && 1 <= n <= 6)
            &&& spec_skill_item(item, table) is Ok ==> Some(spec_skill_item(item, table)->Ok_0.rarity) == spec_skill_rarity(code)
            &&& (item.at("id"@).spec_as_u64() is Some && spec_skill_rarity(code) is None)
                ==> (spec_skill_item(item, table) is Err && spec_skill_item(item, table)->Err_0.0 == ErrorKind::UnknownValue)
        }),
{
}

/// The category that the icon table gives an icon id: its first entry for the id.
pub open spec fn icon_category(table: Seq<(u32, Category)>, icon: u32) -> Option<Category>
    decreases table.len(),
{
    if table.len() == 0 {
        None
    } else if table[0].0 == icon {
        Some(table[0].1)
    } else {
        icon_category(table.drop_first(), icon)
    }
}

/// Looks up the category of an icon id in the icon table.
pub fn icon_id_to_category(table: &[(u32, Category)], icon: u32) -> (r: Option<Category>)
    ensures r == icon_category(table@, icon),
{
    let mut i: usize = 0;
    assert(table@.skip(0) =~= table@);
    while i < table.len()
        invariant
            0 <= i <= table.len(),
            icon_category(table@, icon) == icon_category(table@.skip(i as int), icon),
        decreases table.len() - i,
    {
        assert(table@.skip(i as int)[0] == table@[i as int]);
        assert(table@.skip(i as int).drop_first() =~= table@.skip(i + 1));
        if table[i].0 == icon {
            return Some(table[i].1);
        }
        i += 1;
    }
    None
}

/// The effect groups of a skill-list entry: its English localisation's
/// `loc.en.condition_groups` when that member exists, else its top-level
/// `condition_groups`.
pub open spec fn spec_condition_groups(item: JsonValue) -> JsonValue {
    match item.at("loc"@).at("en"@).spec_get("condition_groups"@) {
        Some(g) => g,
        None => item.at("condition_groups"@),
    }
}

/// Finds the effect groups of a skill-list entry, preferring the English
/// localisation's.
fn condition_groups_of(item: &JsonValue) -> (r: Option<&Vec<JsonValue>>)
    ensures
        match r {
            Some(g) => spec_condition_groups(*item).spec_as_array() == Some(g@),
            None => spec_condition_groups(*item).spec_as_array() is None,
        },
{
    let localized = match item.get("loc") {
        Some(loc) => match loc.get("en") {
            Some(en) => en.get("condition_groups"),
            None => None,
        },
        None => None,
    };
    match localized {
        Some(g) => g.as_array(),
        None => item.field_array("condition_groups"),
    }
}

/// A skill read from an entry of the skill list, or the kind and message of
/// the error that stops it.
pub open spec fn spec_skill_item(item: JsonValue, table: Seq<(u32, Category)>) -> Result<SkillView, (ErrorKind, Seq<char>)> {
    match item.at("id"@).spec_as_u64() {
        None => Err((ErrorKind::MissingField, "id"@)),
        Some(n) => {
            let id = SkillId(n as u32);
            let idt = nat_str(id.0 as nat);
            match spec_skill_rarity(item.at("rarity"@).spec_as_u64()) {
                None => Err((ErrorKind::UnknownValue,
                    "rarity value "@ + json_text(item.at("rarity"@)) + " for skill "@ + idt)),
                Some(rarity) => {
                    let name_en = item.at("name_en"@).spec_as_str();
                    let enname = item.at("enname"@).spec_as_str();
                    if name_en is None && enname is None {
                        Err((ErrorKind::MissingField, "enname for skill "@ + idt))
                    } else {
                        let (name, is_jp_only) = match name_en {
                            Some(t) => (t, false),
                            None => (enname.unwrap(), true),
                        };
                        match item.at("iconid"@).spec_as_u64() {
                            None => Err((ErrorKind::MissingField, "iconid for skill "@ + idt)),
                            Some(icon64) => {
                                let icon = icon64 as u32;
                                match icon_category(table, icon) {
                                    None => Err((ErrorKind::UnknownValue,
                                        "iconid "@ + nat_str(icon as nat) + " for skill "@ + idt)),
                                    Some(category) => {
                                        let groups = match spec_condition_groups(item).spec_as_array() {
                                            Some(g) => spec_effect_groups(g),
                                            None => Ok(Seq::empty()),
                                        };
                                        match groups {
                                            Err(p) => Err((ErrorKind::InvalidCondition, invalid_condition_message(p, id))),
                                            Ok(effects) => Ok(SkillView {
                                                id,
                                                name,
                                                ingame_description: str_or_empty(item.at("desc_en"@)),
                                                category,
                                                rarity,
                                                sp_cost: item.at("cost"@).spec_as_u64().unwrap_or(0) as u32,
                                                effects,
                                                is_jp_only,
                                            }),
                                        }
                                    },
                                }
                            },
                        }
                    }
                },
            }
        },
    }
}

/// `a` followed by the decimal text of `n` and then `b`.
pub fn text_num_text(a: &str, n: u64, b: &str) -> (r: String)
    ensures r@ == a@ + nat_str(n as nat) + b@,
{
    let mut s = String::from_str(a);
    s.append(crate::text::u64_to_string(n).as_str());
    s.append(b);
    s
}

/// Reads one entry of the skill list. `icon_categories` gives the category of
/// each skill icon id; the effects come from the English localisation's
/// condition groups when the entry has them, else from the top-level ones.
pub fn parse_skill_item(item: &JsonValue, icon_categories: &[(u32, Category)]) -> (r: ScraperResult<Skill>)
    ensures
        match r {
            Ok(skill) => spec_skill_item(*item, icon_categories@) == Ok::<SkillView, (ErrorKind, Seq<char>)>(skill@),
            Err(e) => spec_skill_item(*item, icon_categories@) == Err::<SkillView, (ErrorKind, Seq<char>)>(e.report()),
        },
{
    proof { reveal_strlit(""); }
    let id = match item.field_u64("id") {
        Some(n) => SkillId(#[verifier::truncate] (n as u32)),
        None => return Err(error_of(ErrorKind::MissingField, String::from_str("id"))),
    };
    let rarity = match item.field_u64("rarity") {
        Some(1) => Rarity::Normal,
        Some(2) => Rarity::Rare,
        Some(3) => Rarity::Rare,
        Some(4) => Rarity::Unique,
        Some(5) => Rarity::Unique,
        Some(6) => Rarity::Evolution,
        _ => {
            let mut msg = String::from_str("rarity value ");
            msg.append(item.describe_field("rarity").as_str());
            msg.append(text_num_text(" for skill ", id.0 as u64, "").as_str());
            assert(msg@ =~= "rarity value "@ + json_text(item.at("rarity"@)) + " for skill "@ + nat_str(id.0 as nat));
            return Err(error_of(ErrorKind::UnknownValue, msg));
        },
    };
    let (name, is_jp_only) = match item.field_str("name_en") {
        Some(n) => (String::from_str(n), false),
        None => match item.field_str("enname") {
            Some(n) => (String::from_str(n), true),
            None => return Err(error_of(ErrorKind::MissingField, text_num_text("enname for skill ", id.0 as u64, ""))),
        },
    };
    let ingame_description = match item.field_str("desc_en") {
        Some(d) => String::from_str(d),
        None => String::new(),
    };
    let icon_id = match item.field_u64("iconid") {
        Some(n) => #[verifier::truncate] (n as u32),
        None => return Err(error_of(ErrorKind::MissingField, text_num_text("iconid for skill ", id.0 as u64, ""))),
    };
    let category = match icon_id_to_category(icon_categories, icon_id) {
        Some(c) => c,
        None => {
            let mut msg = text_num_text("iconid ", icon_id as u64, " for skill ");
            msg.append(text_num_text("", id.0 as u64, "").as_str());
            assert(msg@ =~= "iconid "@ + nat_str(icon_id as nat) + " for skill "@ + nat_str(id.0 as nat));
            return Err(error_of(ErrorKind::UnknownValue, msg));
        },
    };
    let sp_cost = match item.field_u64("cost") {
        Some(c) => #[verifier::truncate] (c as u32),
        None => 0,
    };
    let effects = match condition_groups_of(item) {
        Some(groups) => match parse_effect_groups(groups, id) {
            Ok(e) => e,
            Err(e) => return Err(e),
        },
        None => Vec::new(),
    };
    let skill = Skill { id, name, ingame_description, category, rarity, sp_cost, effects, is_jp_only };
    proof {
        let sv = spec_skill_item(*item, icon_categories@);
        assert(sv is Ok);
        assert(sv->Ok_0.id == skill@.id);
        assert(sv->Ok_0.name == skill@.name);
        assert(sv->Ok_0.ingame_description == skill@.ingame_description);
        assert(sv->Ok_0.category == skill@.category);
        assert(sv->Ok_0.rarity == skill@.rarity);
        assert(sv->Ok_0.sp_cost == skill@.sp_cost);
        assert(sv->Ok_0.effects == skill@.effects);
        assert(sv->Ok_0.is_jp_only == skill@.is_jp_only);
        assert(skill@.effects =~= skill.effects@.map_values(|e: Effect| e@));
    }
    Ok(skill)
}


/// The skills of the entries that read without error, in order.
pub open spec fn parsed_skills(items: Seq<JsonValue>, table: Seq<(u32, Category)>) -> Seq<SkillView>
    decreases items.len(),
{
    if items.len() == 0 {
        Seq::empty()
    } else {
        let rest = parsed_skills(items.drop_last(), table);
        match spec_skill_item(items.last(), table) {
            Ok(skill) => rest.push(skill),
            Err(_) => rest,
        }
    }
}

/// Reads the skill list: every entry that reads without error, in order;
/// entries with errors are skipped. Fails only when the document is not an array.
pub fn parse_skill_roster(root: &JsonValue, icon_categories: &[(u32, Category)]) -> (r: ScraperResult<Vec<Skill>>)
    ensures
        match r {
            Ok(skills) => root.spec_as_array() is Some
                && skills@.map_values(|s: Skill| s@) == parsed_skills(root.spec_as_array().unwrap(), icon_categories@),
            Err(e) => root.spec_as_array() is None && e.spec_kind() == ErrorKind::Json,
        },
{
    let items = match root.as_array() {
        Some(items) => items,
        None => return Err(error_of(ErrorKind::Json, String::from_str("failed to parse skills JSON: expected an array"))),
    };
    let mut skills: Vec<Skill> = Vec::new();
    let mut i: usize = 0;
    while i < items.len()
        invariant
            0 <= i <= items.len(),
            skills@.map_values(|s: Skill| s@) == parsed_skills(items@.take(i as int), icon_categories@),
        decreases items.len() - i,
    {
        assert(items@.take(i + 1).drop_last() =~= items@.take(i as int));
        assert(items@.take(i + 1).last() == items@[i as int]);
        let ghost before = skills@.map_values(|s: Skill| s@);
        match parse_skill_item(&items[i], icon_categories) {
            Ok(skill) => {
                skills.push(skill);
                assert(skills@.map_values(|s: Skill| s@) =~= before.push(skill@));
            },
            Err(_) => {},
        }
        i += 1;
    }
    assert(items@.take(items.len() as int) =~= items@);
    Ok(skills)
}

/// A skill list keeps no more skills than it has entries.
pub proof fn lemma_parsed_skills_len(items: Seq<JsonValue>, table: Seq<(u32, Category)>)
    ensures parsed_skills(items, table).len() <= items.len(),
    decreases items.len(),
{
    if items.len() > 0 {
        lemma_parsed_skills_len(items.drop_last(), table);
    }
}

/// A skill list that grows by an entry keeps what it kept before, and the new
/// entry's skill when it reads without error.
pub proof fn lemma_parsed_skills_push(items: Seq<JsonValue>, item: JsonValue, table: Seq<(u32, Category)>)
    ensures
        parsed_skills(items.push(item), table) == match spec_skill_item(item, table) {
            Ok(skill) => parsed_skills(items, table).push(skill),
            Err(_) => parsed_skills(items, table),
        },
{
    assert(items.push(item).drop_last() =~= items);
}


proof fn lemma_effect_groups_len(groups: Seq<JsonValue>)
    requires
        spec_effect_groups(groups) is Ok,
    ensures
        spec_effect_groups(groups)->Ok_0.len() == groups.len(),
    decreases groups.len(),
{
    if groups.len() > 0 {
        lemma_effect_groups_len(groups.drop_first());
    }
}

proof fn lemma_icon_category_found(table: Seq<(u32, Category)>, icon: u32)
    requires
        icon_category(table, icon) is Some,
    ensures
        exists|i: int| 0 <= i < table.len() && #[trigger] table[i] == (icon, icon_category(table, icon).unwrap())
            && forall|j: int| 0 <= j < i ==> (#[trigger] table[j]).0 != icon,
    decreases table.len(),
{
    if table[0].0 != icon {
        lemma_icon_category_found(table.drop_first(), icon);
        let c = icon_category(table, icon).unwrap();
        let i = choose|i: int| 0 <= i < table.drop_first().len() && #[trigger] table.drop_first()[i] == (icon, c)
            && forall|j: int| 0 <= j < i ==> (#[trigger] table.drop_first()[j]).0 != icon;
        assert(table[i + 1] == (icon, c));
        assert forall|j: int| 0 <= j < i + 1 implies (#[trigger] table[j]).0 != icon by {
            if j > 0 {
                assert(table[j] == table.drop_first()[j - 1]);
            }
        }
    } else {
        assert(table[0] == (icon, icon_category(table, icon).unwrap()));
    }
}

/// A skill read from an entry carries what the entry says: its id; its
/// English name when it has one (and is then not JP-only), else its `enname`
/// (and is JP-only); its description or none; the category of the first
/// icon table entry for its icon; its cost or 0; and one effect per effect
/// group, the groups being the English localisation's when present.
pub proof fn law_skill_item_fields(item: JsonValue, table: Seq<(u32, Category)>)
    requires
        spec_skill_item(item, table) is Ok,
    ensures
        ({
            let skill = spec_skill_item(item, table)->Ok_0;
            let icon = item.at("iconid"@).spec_as_u64().unwrap() as u32;
            &&& item.at("id"@).spec_as_u64() is Some
            &&& skill.id == SkillId(item.at("id"@).spec_as_u64().unwrap() as u32)
            &&& item.at("name_en"@).spec_as_str() is Some ==>
                    skill.name == item.at("name_en"@).spec_as_str().unwrap() && !skill.is_jp_only
            &&& item.at("name_en"@).spec_as_str() is None ==>
                    Some(skill.name) == item.at("enname"@).spec_as_str() && skill.is_jp_only
            &&& skill.ingame_description == (match item.at("desc_en"@).spec_as_str() { Some(d) => d, None => Seq::empty() })
            &&& item.at("iconid"@).spec_as_u64() is Some
            &&& exists|i: int| 0 <= i < table.len() && #[trigger] table[i] == (icon, skill.category)
                    && forall|j: int| 0 <= j < i ==> (#[trigger] table[j]).0 != icon
            &&& skill.sp_cost == (match item.at("cost"@).spec_as_u64() { Some(c) => c as u32, None => 0u32 })
            &&& skill.effects.len() == (match spec_condition_groups(item).spec_as_array() { Some(g) => g.len(), None => 0 })
        }),
{
    let icon = item.at("iconid"@).spec_as_u64().unwrap() as u32;
    lemma_icon_category_found(table, icon);
    if let Some(g) = spec_condition_groups(item).spec_as_array() {
        lemma_effect_groups_len(g);
    }
}

} // verus!
