//! What the skill tables receive and return: the columns of the bulk upserts
//! of condition types, skills, triggers, effects and conditions; the listing
//! query and its parameters; and the grouping of a skill's stored conditions
//! by trigger.
use crate::db::types::{ConditionRow, DbSkillCategory, DbSkillOperator, DbSkillRarity, SkillFilter};
use crate::models::skill::{Condition, ConditionType, Effect, EffectType, Skill};
use crate::text::{nat_str, u64_to_string};
use vstd::prelude::*;
use vstd::std_specs::convert::FromSpec;

verus! {

/// The columns of the condition type upsert, one entry per condition type.
pub struct ConditionTypeColumns {
    pub cond_keys: Vec<String>,
    pub descriptions: Vec<String>,
    pub examples: Vec<Option<String>>,
}

/// Lays the condition types out as the columns of the upsert.
pub fn condition_type_columns(conditions: &[ConditionType]) -> (r: ConditionTypeColumns)
    ensures
        r.cond_keys.len() == conditions.len(),
        r.descriptions.len() == conditions.len(),
        r.examples.len() == conditions.len(),
        forall|i: int| 0 <= i < conditions.len() ==> {
            &&& (#[trigger] r.cond_keys@[i])@ == conditions@[i].cond_key@
            &&& r.descriptions@[i]@ == conditions@[i].description@
            &&& r.examples@[i] == conditions@[i].example
        },
{
    let mut r = ConditionTypeColumns { cond_keys: Vec::new(), descriptions: Vec::new(), examples: Vec::new() };
    let mut i: usize = 0;
    while i < conditions.len()
        invariant
            0 <= i <= conditions.len(),
            r.cond_keys.len() == i,
            r.descriptions.len() == i,
            r.examples.len() == i,
            forall|j: int| 0 <= j < i ==> {
                &&& (#[trigger] r.cond_keys@[j])@ == conditions@[j].cond_key@
                &&& r.descriptions@[j]@ == conditions@[j].description@
                &&& r.examples@[j] == conditions@[j].example
            },
        decreases conditions.len() - i,
    {
        let c = &conditions[i];
        r.cond_keys.push(c.cond_key.clone());
        r.descriptions.push(c.description.clone());
        r.examples.push(c.example.clone());
        i += 1;
    }
    r
}

/// The columns of the skill upsert, one entry per skill.
pub struct SkillColumns {
    pub ids: Vec<i32>,
    pub names: Vec<String>,
    pub descriptions: Vec<String>,
    pub categories: Vec<DbSkillCategory>,
    pub rarities: Vec<DbSkillRarity>,
    pub sp_costs: Vec<i32>,
    pub jp_only: Vec<bool>,
}

/// Entry `i` of the skill columns holds skill `i`; ids and costs are stored
/// as the database's signed integers.
pub open spec fn skill_columns_hold(r: SkillColumns, skills: Seq<Skill>) -> bool {
    skill_columns_prefix(r, skills, skills.len() as int)
}

/// The columns hold the first `n` skills.
pub open spec fn skill_columns_prefix(r: SkillColumns, skills: Seq<Skill>, n: int) -> bool {
    &&& r.ids.len() == n
    &&& r.names.len() == n
    &&& r.descriptions.len() == n
    &&& r.categories.len() == n
    &&& r.rarities.len() == n
    &&& r.sp_costs.len() == n
    &&& r.jp_only.len() == n
    &&& forall|i: int| 0 <= i < n ==> {
        &&& #[trigger] r.ids@[i] == skills[i].id.0 as i32
        &&& r.names@[i]@ == skills[i].name@
        &&& r.descriptions@[i]@ == skills[i].ingame_description@
        &&& r.categories@[i] == DbSkillCategory::from_spec(skills[i].category)
        &&& r.rarities@[i] == DbSkillRarity::from_spec(skills[i].rarity)
        &&& r.sp_costs@[i] == skills[i].sp_cost as i32
        &&& r.jp_only@[i] == skills[i].is_jp_only
    }
}

/// Lays the skills out as the columns of the upsert.
pub fn skill_columns(skills: &[Skill]) -> (r: SkillColumns)
    ensures
        skill_columns_hold(r, skills@),
{
    let mut r = SkillColumns {
        ids: Vec::new(),
        names: Vec::new(),
        descriptions: Vec::new(),
        categories: Vec::new(),
        rarities: Vec::new(),
        sp_costs: Vec::new(),
        jp_only: Vec::new(),
    };
    let mut i: usize = 0;
    while i < skills.len()
        invariant
            0 <= i <= skills.len(),
            skill_columns_prefix(r, skills@, i as int),
        decreases skills.len() - i,
    {
        let s = &skills[i];
        r.ids.push(s.id.0 as i32);
        r.names.push(s.name.clone());
        r.descriptions.push(s.ingame_description.clone());
        r.categories.push(DbSkillCategory::from(s.category));
        r.rarities.push(DbSkillRarity::from(s.rarity));
        r.sp_costs.push(s.sp_cost as i32);
        r.jp_only.push(s.is_jp_only);
        i += 1;
    }
    r
}

/// The triggers of the skills, in order, each with the id of its skill.
pub open spec fn flat_triggers(skills: Seq<Skill>) -> Seq<(u32, Effect)>
    decreases skills.len(),
{
    if skills.len() == 0 {
        Seq::empty()
    } else {
        flat_triggers(skills.drop_last()) + skills.last().effects@.map_values(|e: Effect| (skills.last().id.0, e))
    }
}

/// The skill id column of the trigger insert: one entry per trigger, in the
/// order of the skills and of their triggers.
pub fn trigger_skill_ids(skills: &[Skill]) -> (r: Vec<i32>)
    ensures
        r@ == flat_triggers(skills@).map_values(|t: (u32, Effect)| t.0 as i32),
{
    let mut r: Vec<i32> = Vec::new();
    let mut i: usize = 0;
    while i < skills.len()
        invariant
            0 <= i <= skills.len(),
            r@ == flat_triggers(skills@.take(i as int)).map_values(|t: (u32, Effect)| t.0 as i32),
        decreases skills.len() - i,
    {
        let s = &skills[i];
        let ghost before = r@;
        let mut k: usize = 0;
        while k < s.effects.len()
            invariant
                0 <= k <= s.effects.len(),
                r@ == before + Seq::new(k as nat, |j: int| s.id.0 as i32),
            decreases s.effects.len() - k,
        {
            r.push(s.id.0 as i32);
            k += 1;
            assert(r@ =~= before + Seq::new(k as nat, |j: int| s.id.0 as i32));
        }
        assert(skills@.take(i + 1).drop_last() =~= skills@.take(i as int));
        assert(skills@.take(i + 1).last() == *s);
        let ghost added = s.effects@.map_values(|e: Effect| (s.id.0, e));
        assert((flat_triggers(skills@.take(i as int)) + added).map_values(|t: (u32, Effect)| t.0 as i32)
            =~= before + Seq::new(s.effects.len() as nat, |j: int| s.id.0 as i32));
        i += 1;
    }
    assert(skills@.take(skills.len() as int) =~= skills@);
    r
}

/// An effect row of a trigger: trigger id, effect name and value.
pub type EffectRowView = (i32, Seq<char>, Option<i32>);

/// A condition row of a trigger: trigger id, key, operator, value, whether it
/// is a precondition, and whether it opens an alternative group.
pub type ConditionRowView = (i32, Seq<char>, DbSkillOperator, Seq<char>, bool, bool);

pub open spec fn effect_row(id: i32, e: EffectType) -> EffectRowView {
    (id, e.spec_kind_name(), e.spec_value())
}

pub open spec fn condition_row(id: i32, c: Condition, pre: bool) -> ConditionRowView {
    (id, c.cond_key@, DbSkillOperator::from_spec(c.operator), c.cond_val@, pre, c.is_or)
}

/// The effect rows of the first `n` triggers, trigger `k` stored under `ids[k]`.
pub open spec fn effect_rows(triggers: Seq<(u32, Effect)>, ids: Seq<i32>, n: int) -> Seq<EffectRowView>
    decreases n,
{
    if n <= 0 {
        Seq::empty()
    } else {
        effect_rows(triggers, ids, n - 1)
            + triggers[n - 1].1.effects@.map_values(|e: EffectType| effect_row(ids[n - 1], e))
    }
}

/// The condition rows of the first `n` triggers: for each, its conditions and
/// then its preconditions.
pub open spec fn condition_rows(triggers: Seq<(u32, Effect)>, ids: Seq<i32>, n: int) -> Seq<ConditionRowView>
    decreases n,
{
    if n <= 0 {
        Seq::empty()
    } else {
        condition_rows(triggers, ids, n - 1)
            + triggers[n - 1].1.conditions@.map_values(|c: Condition| condition_row(ids[n - 1], c, false))
            + triggers[n - 1].1.preconditions@.map_values(|c: Condition| condition_row(ids[n - 1], c, true))
    }
}

/// The columns of the effect and condition inserts.
pub struct TriggerChildColumns {
    pub effect_trigger_ids: Vec<i32>,
    pub effect_types: Vec<&'static str>,
    pub effect_values: Vec<Option<i32>>,
    pub cond_trigger_ids: Vec<i32>,
    pub cond_keys: Vec<String>,
    pub cond_operators: Vec<DbSkillOperator>,
    pub cond_vals: Vec<String>,
    pub cond_is_preconditions: Vec<bool>,
    pub cond_is_ors: Vec<bool>,
}

pub open spec fn effect_columns_view(r: TriggerChildColumns) -> Seq<EffectRowView> {
    Seq::new(r.effect_trigger_ids.len() as nat, |i: int| (r.effect_trigger_ids@[i], r.effect_types@[i]@, r.effect_values@[i]))
}

pub open spec fn condition_columns_view(r: TriggerChildColumns) -> Seq<ConditionRowView> {
    Seq::new(r.cond_trigger_ids.len() as nat, |i: int| (
        r.cond_trigger_ids@[i],
        r.cond_keys@[i]@,
        r.cond_operators@[i],
        r.cond_vals@[i]@,
        r.cond_is_preconditions@[i],
        r.cond_is_ors@[i],
    ))
}

pub open spec fn child_columns_aligned(r: TriggerChildColumns) -> bool {
    &&& r.effect_types.len() == r.effect_trigger_ids.len()
    &&& r.effect_values.len() == r.effect_trigger_ids.len()
    &&& r.cond_keys.len() == r.cond_trigger_ids.len()
    &&& r.cond_operators.len() == r.cond_trigger_ids.len()
    &&& r.cond_vals.len() == r.cond_trigger_ids.len()
    &&& r.cond_is_preconditions.len() == r.cond_trigger_ids.len()
    &&& r.cond_is_ors.len() == r.cond_trigger_ids.len()
}

fn push_condition_rows(r: &mut TriggerChildColumns, id: i32, conditions: &Vec<Condition>, pre: bool)
    requires
        child_columns_aligned(*old(r)),
    ensures
        child_columns_aligned(*final(r)),
        effect_columns_view(*final(r)) == effect_columns_view(*old(r)),
        condition_columns_view(*final(r)) == condition_columns_view(*old(r))
            + conditions@.map_values(|c: Condition| condition_row(id, c, pre)),
{
    let ghost start = condition_columns_view(*r);
    let mut k: usize = 0;
    while k < conditions.len()
        invariant
            0 <= k <= conditions.len(),
            child_columns_aligned(*r),
            effect_columns_view(*r) == effect_columns_view(*old(r)),
            condition_columns_view(*r) == start + conditions@.take(k as int).map_values(|c: Condition| condition_row(id, c, pre)),
        decreases conditions.len() - k,
    {
        let c = &conditions[k];
        let ghost before = condition_columns_view(*r);
        r.cond_trigger_ids.push(id);
        r.cond_keys.push(c.cond_key.clone());
        r.cond_operators.push(DbSkillOperator::from(c.operator));
        r.cond_vals.push(c.cond_val.clone());
        r.cond_is_preconditions.push(pre);
        r.cond_is_ors.push(c.is_or);
        assert(condition_columns_view(*r) =~= before.push(condition_row(id, *c, pre)));
        assert(conditions@.take(k + 1).map_values(|c: Condition| condition_row(id, c, pre))
            =~= conditions@.take(k as int).map_values(|c: Condition| condition_row(id, c, pre)).push(condition_row(id, *c, pre)));
        k += 1;
        assert(effect_columns_view(*r) =~= effect_columns_view(*old(r)));
    }
    assert(conditions@.take(conditions.len() as int) =~= conditions@);
}

fn push_effect_rows(r: &mut TriggerChildColumns, id: i32, effects: &Vec<EffectType>)
    requires
        child_columns_aligned(*old(r)),
    ensures
        child_columns_aligned(*final(r)),
        condition_columns_view(*final(r)) == condition_columns_view(*old(r)),
        effect_columns_view(*final(r)) == effect_columns_view(*old(r))
            + effects@.map_values(|e: EffectType| effect_row(id, e)),
{
    let ghost start = effect_columns_view(*r);
    let mut k: usize = 0;
    while k < effects.len()
        invariant
            0 <= k <= effects.len(),
            child_columns_aligned(*r),
            condition_columns_view(*r) == condition_columns_view(*old(r)),
            effect_columns_view(*r) == start + effects@.take(k as int).map_values(|e: EffectType| effect_row(id, e)),
        decreases effects.len() - k,
    {
        let e = &effects[k];
        let ghost before = effect_columns_view(*r);
        r.effect_trigger_ids.push(id);
        r.effect_types.push(e.kind_name());
        r.effect_values.push(e.value());
        assert(effect_columns_view(*r) =~= before.push(effect_row(id, *e)));
        assert(effects@.take(k + 1).map_values(|e: EffectType| effect_row(id, e))
            =~= effects@.take(k as int).map_values(|e: EffectType| effect_row(id, e)).push(effect_row(id, *e)));
        k += 1;
        assert(condition_columns_view(*r) =~= condition_columns_view(*old(r)));
    }
    assert(effects@.take(effects.len() as int) =~= effects@);
}

/// The triggers of the skills, in the order of `flat_triggers`.
fn flat_effects<'a>(skills: &'a [Skill]) -> (r: Vec<&'a Effect>)
    ensures
        r@.len() == flat_triggers(skills@).len(),
        forall|k: int| 0 <= k < r@.len() ==> *(#[trigger] r@[k]) == flat_triggers(skills@)[k].1,
{
    let mut r: Vec<&'a Effect> = Vec::new();
    let mut i: usize = 0;
    while i < skills.len()
        invariant
            0 <= i <= skills.len(),
            r@.len() == flat_triggers(skills@.take(i as int)).len(),
            forall|k: int| 0 <= k < r@.len() ==> *(#[trigger] r@[k]) == flat_triggers(skills@.take(i as int))[k].1,
        decreases skills.len() - i,
    {
        let s = &skills[i];
        let ghost base = r@.len();
        let ghost prev = flat_triggers(skills@.take(i as int));
        let mut k: usize = 0;
        while k < s.effects.len()
            invariant
                0 <= k <= s.effects.len(),
                r@.len() == base + k,
                base == prev.len(),
                forall|j: int| 0 <= j < base ==> *(#[trigger] r@[j]) == prev[j].1,
                forall|j: int| base <= j < base + k ==> *(#[trigger] r@[j]) == s.effects@[j - base],
            decreases s.effects.len() - k,
        {
            r.push(&s.effects[k]);
            k += 1;
        }
        proof {
            assert(skills@.take(i + 1).drop_last() =~= skills@.take(i as int));
            assert(skills@.take(i + 1).last() == *s);
            let next = flat_triggers(skills@.take(i + 1));
            assert(next == prev + s.effects@.map_values(|e: Effect| (s.id.0, e)));
            assert forall|j: int| 0 <= j < r@.len() implies *(#[trigger] r@[j]) == next[j].1 by {
                if j >= base {
                    assert(next[j] == (s.id.0, s.effects@[j - base]));
                }
            }
        }
        i += 1;
    }
    assert(skills@.take(skills.len() as int) =~= skills@);
    r
}

/// Lays out the effects and conditions of the skills' triggers, trigger `k`
/// (in the order of `flat_triggers`) under the stored id `trigger_ids[k]`;
/// triggers beyond the ids given are left out.
pub fn trigger_child_columns(skills: &[Skill], trigger_ids: &[i32]) -> (r: TriggerChildColumns)
    ensures
        child_columns_aligned(r),
        ({
            let n = if flat_triggers(skills@).len() < trigger_ids@.len() { flat_triggers(skills@).len() as int } else { trigger_ids@.len() as int };
            &&& effect_columns_view(r) == effect_rows(flat_triggers(skills@), trigger_ids@, n)
            &&& condition_columns_view(r) == condition_rows(flat_triggers(skills@), trigger_ids@, n)
        }),
{
    let mut r = TriggerChildColumns {
        effect_trigger_ids: Vec::new(),
        effect_types: Vec::new(),
        effect_values: Vec::new(),
        cond_trigger_ids: Vec::new(),
        cond_keys: Vec::new(),
        cond_operators: Vec::new(),
        cond_vals: Vec::new(),
        cond_is_preconditions: Vec::new(),
        cond_is_ors: Vec::new(),
    };
    let ghost all = flat_triggers(skills@);
    let triggers = flat_effects(skills);
    let n = if triggers.len() < trigger_ids.len() { triggers.len() } else { trigger_ids.len() };
    assert(effect_columns_view(r) =~= Seq::<EffectRowView>::empty());
    assert(condition_columns_view(r) =~= Seq::<ConditionRowView>::empty());
    let mut k: usize = 0;
    while k < n
        invariant
            0 <= k <= n,
            n <= triggers@.len(),
            n <= trigger_ids@.len(),
            all == flat_triggers(skills@),
            triggers@.len() == all.len(),
            forall|j: int| 0 <= j < triggers@.len() ==> *(#[trigger] triggers@[j]) == all[j].1,
            child_columns_aligned(r),
            effect_columns_view(r) == effect_rows(all, trigger_ids@, k as int),
            condition_columns_view(r) == condition_rows(all, trigger_ids@, k as int),
        decreases n - k,
    {
        let trig: &Effect = triggers[k];
        let id = trigger_ids[k];
        assert(*trig == all[k as int].1);
        push_effect_rows(&mut r, id, &trig.effects);
        push_condition_rows(&mut r, id, &trig.conditions, false);
        push_condition_rows(&mut r, id, &trig.preconditions, true);
        k += 1;
    }
    r
}

/// A parameter of the skill listing query.
#[derive(Debug)]
pub enum SkillQueryArg {
    Category(DbSkillCategory),
    Rarity(DbSkillRarity),
    JpOnly(bool),
    Pattern(String),
}

/// The view of a query parameter: the pattern by its text.
pub enum SkillQueryArgView {
    Category(DbSkillCategory),
    Rarity(DbSkillRarity),
    JpOnly(bool),
    Pattern(Seq<char>),
}

pub open spec fn arg_view(a: SkillQueryArg) -> SkillQueryArgView {
    match a {
        SkillQueryArg::Category(c) => SkillQueryArgView::Category(c),
        SkillQueryArg::Rarity(r) => SkillQueryArgView::Rarity(r),
        SkillQueryArg::JpOnly(b) => SkillQueryArgView::JpOnly(b),
        SkillQueryArg::Pattern(p) => SkillQueryArgView::Pattern(p@),
    }
}

/// The filter's tests, in order: the SQL text before each parameter, and the
/// parameter.
pub open spec fn filter_tests(f: SkillFilter) -> Seq<(Seq<char>, SkillQueryArgView)> {
    (match f.category { Some(c) => seq![(" AND s.category = "@, SkillQueryArgView::Category(c))], None => Seq::empty() })
    + (match f.rarity { Some(r) => seq![(" AND s.rarity = "@, SkillQueryArgView::Rarity(r))], None => Seq::empty() })
    + (match f.is_jp_only { Some(b) => seq![(" AND s.is_jp_only = "@, SkillQueryArgView::JpOnly(b))], None => Seq::empty() })
    + (match f.effect_type { Some(v) => seq![(" AND ste.effect_type ILIKE "@, SkillQueryArgView::Pattern("%"@ + v@ + "%"@))], None => Seq::empty() })
}

/// The tests with their parameters numbered `$start`, `$start + 1`, ...
pub open spec fn numbered_tests(tests: Seq<(Seq<char>, SkillQueryArgView)>, start: nat) -> Seq<char>
    decreases tests.len(),
{
    if tests.len() == 0 {
        Seq::empty()
    } else {
        tests[0].0 + "$"@ + nat_str(start) + numbered_tests(tests.drop_first(), start + 1)
    }
}

pub open spec fn skill_query_head(f: SkillFilter) -> Seq<char> {
    "SELECT DISTINCT s.id, s.name, s.category, s.rarity, s.sp_cost, s.is_jp_only\n         FROM skills s"@
        + (if f.effect_type is Some {
            " JOIN skill_triggers st ON st.skill_id = s.id"@ + " JOIN skill_trigger_effects ste ON ste.trigger_id = st.id"@
        } else {
            Seq::empty()
        })
        + " WHERE 1=1"@
}

/// The listing query of the skills that pass the filter, ordered by name, and
/// its parameters in the order of their placeholders.
pub open spec fn spec_skill_query(f: SkillFilter) -> (Seq<char>, Seq<SkillQueryArgView>) {
    (
        skill_query_head(f) + numbered_tests(filter_tests(f), 1) + " ORDER BY s.name"@,
        filter_tests(f).map_values(|t: (Seq<char>, SkillQueryArgView)| t.1),
    )
}

proof fn lemma_numbered_tests_push(tests: Seq<(Seq<char>, SkillQueryArgView)>, start: nat, t: (Seq<char>, SkillQueryArgView))
    ensures
        numbered_tests(tests.push(t), start) == numbered_tests(tests, start) + t.0 + "$"@ + nat_str(start + tests.len()),
    decreases tests.len(),
{
    if tests.len() == 0 {
        let one = tests.push(t);
        assert(one.drop_first() =~= Seq::<(Seq<char>, SkillQueryArgView)>::empty());
        assert(numbered_tests(one.drop_first(), start + 1) == Seq::<char>::empty());
        assert(one[0] == t);
        assert(numbered_tests(one, start) == t.0 + "$"@ + nat_str(start) + numbered_tests(one.drop_first(), start + 1));
        assert(numbered_tests(tests, start) == Seq::<char>::empty());
        assert(numbered_tests(one, start) =~= numbered_tests(tests, start) + t.0 + "$"@ + nat_str(start + tests.len()));
    } else {
        assert(tests.push(t).drop_first() =~= tests.drop_first().push(t));
        lemma_numbered_tests_push(tests.drop_first(), start + 1, t);
        assert(numbered_tests(tests.push(t), start) =~= numbered_tests(tests, start) + t.0 + "$"@ + nat_str(start + tests.len()));
    }
}

/// Appends a test and its numbered placeholder.
fn push_test(sql: &mut String, args: &mut Vec<SkillQueryArg>, text: &str, arg: SkillQueryArg, Ghost(tests): Ghost<Seq<(Seq<char>, SkillQueryArgView)>>, Ghost(head): Ghost<Seq<char>>)
    requires
        old(args)@.map_values(|a: SkillQueryArg| arg_view(a)) == tests.map_values(|t: (Seq<char>, SkillQueryArgView)| t.1),
        old(sql)@ == head + numbered_tests(tests, 1),
        old(args).len() < 4,
    ensures
        final(args).len() == old(args).len() + 1,
        final(args)@.map_values(|a: SkillQueryArg| arg_view(a))
            == tests.push((text@, arg_view(arg))).map_values(|t: (Seq<char>, SkillQueryArgView)| t.1),
        final(sql)@ == head + numbered_tests(tests.push((text@, arg_view(arg))), 1),
{
    proof {
        reveal_strlit("$");
        lemma_numbered_tests_push(tests, 1, (text@, arg_view(arg)));
        assert(old(args)@.map_values(|a: SkillQueryArg| arg_view(a)).len() == tests.len());
    }
    sql.append(text);
    sql.append("$");
    let n = u64_to_string(args.len() as u64 + 1);
    sql.append(n.as_str());
    let ghost a0 = args@;
    args.push(arg);
    proof {
        assert(args@.map_values(|a: SkillQueryArg| arg_view(a)) =~= a0.map_values(|a: SkillQueryArg| arg_view(a)).push(arg_view(arg)));
        assert(tests.push((text@, arg_view(arg))).map_values(|t: (Seq<char>, SkillQueryArgView)| t.1)
            =~= tests.map_values(|t: (Seq<char>, SkillQueryArgView)| t.1).push(arg_view(arg)));
        assert(sql@ =~= head + numbered_tests(tests.push((text@, arg_view(arg))), 1));
    }
}

/// The listing query of the skills that pass the filter, and its parameters.
pub fn skill_query(filter: &SkillFilter) -> (r: (String, Vec<SkillQueryArg>))
    ensures
        r.0@ == spec_skill_query(*filter).0,
        r.1@.map_values(|a: SkillQueryArg| arg_view(a)) == spec_skill_query(*filter).1,
{
    proof {
        reveal_strlit(" AND s.category = ");
        reveal_strlit(" AND s.rarity = ");
        reveal_strlit(" AND s.is_jp_only = ");
        reveal_strlit(" AND ste.effect_type ILIKE ");
        reveal_strlit("%");
    }
    let mut sql = String::from_str("SELECT DISTINCT s.id, s.name, s.category, s.rarity, s.sp_cost, s.is_jp_only\n         FROM skills s");
    if filter.effect_type.is_some() {
        sql.append(" JOIN skill_triggers st ON st.skill_id = s.id");
        sql.append(" JOIN skill_trigger_effects ste ON ste.trigger_id = st.id");
    }
    sql.append(" WHERE 1=1");
    let ghost head = skill_query_head(*filter);
    assert(sql@ =~= head + numbered_tests(Seq::empty(), 1));
    let mut args: Vec<SkillQueryArg> = Vec::new();
    let ghost mut tests: Seq<(Seq<char>, SkillQueryArgView)> = Seq::empty();
    assert(args@.map_values(|a: SkillQueryArg| arg_view(a)) =~= tests.map_values(|t: (Seq<char>, SkillQueryArgView)| t.1));
    if let Some(c) = filter.category {
        push_test(&mut sql, &mut args, " AND s.category = ", SkillQueryArg::Category(c), Ghost(tests), Ghost(head));
        proof { tests = tests.push((" AND s.category = "@, SkillQueryArgView::Category(c))); }
    }
    if let Some(v) = filter.rarity {
        push_test(&mut sql, &mut args, " AND s.rarity = ", SkillQueryArg::Rarity(v), Ghost(tests), Ghost(head));
        proof { tests = tests.push((" AND s.rarity = "@, SkillQueryArgView::Rarity(v))); }
    }
    if let Some(b) = filter.is_jp_only {
        push_test(&mut sql, &mut args, " AND s.is_jp_only = ", SkillQueryArg::JpOnly(b), Ghost(tests), Ghost(head));
        proof { tests = tests.push((" AND s.is_jp_only = "@, SkillQueryArgView::JpOnly(b))); }
    }
    if let Some(v) = &filter.effect_type {
        let mut pattern = String::from_str("%");
        pattern.append(v.as_str());
        pattern.append("%");
        push_test(&mut sql, &mut args, " AND ste.effect_type ILIKE ", SkillQueryArg::Pattern(pattern), Ghost(tests), Ghost(head));
        proof { tests = tests.push((" AND ste.effect_type ILIKE "@, SkillQueryArgView::Pattern("%"@ + v@ + "%"@))); }
    }
    assert(tests =~= filter_tests(*filter));
    sql.append(" ORDER BY s.name");
    (sql, args)
}

/// A stored condition of some trigger.
pub struct TriggerConditionRecord {
    pub trigger_id: i32,
    pub cond_key: String,
    pub operator: DbSkillOperator,
    pub cond_val: String,
    pub is_precondition: bool,
    pub is_or: bool,
}

/// A condition as the API shows it: key, operator, value, and whether it
/// opens an alternative group.
pub type ConditionRowFields = (Seq<char>, DbSkillOperator, Seq<char>, bool);

pub open spec fn condition_row_fields(c: ConditionRow) -> ConditionRowFields {
    (c.cond_key@, c.operator, c.cond_val@, c.is_or)
}

pub open spec fn record_fields(c: TriggerConditionRecord) -> ConditionRowFields {
    (c.cond_key@, c.operator, c.cond_val@, c.is_or)
}

/// The conditions of trigger `id` that are (or are not) preconditions, in
/// the order stored.
pub open spec fn conditions_where(all: Seq<TriggerConditionRecord>, id: i32, pre: bool) -> Seq<ConditionRowFields>
    decreases all.len(),
{
    if all.len() == 0 {
        Seq::empty()
    } else {
        let before = conditions_where(all.drop_last(), id, pre);
        let c = all.last();
        if c.trigger_id == id && c.is_precondition == pre { before.push(record_fields(c)) } else { before }
    }
}

/// The number of stored conditions of trigger `id`.
pub open spec fn conditions_of(all: Seq<TriggerConditionRecord>, id: i32) -> nat
    decreases all.len(),
{
    if all.len() == 0 {
        0
    } else {
        conditions_of(all.drop_last(), id) + (if all.last().trigger_id == id { 1nat } else { 0nat })
    }
}

/// Splits the stored conditions of trigger `id` into its preconditions and
/// its conditions, each in the order stored.
pub fn conditions_of_trigger(all: &[TriggerConditionRecord], id: i32) -> (r: (Vec<ConditionRow>, Vec<ConditionRow>))
    ensures
        r.0@.map_values(|c: ConditionRow| condition_row_fields(c)) == conditions_where(all@, id, true),
        r.1@.map_values(|c: ConditionRow| condition_row_fields(c)) == conditions_where(all@, id, false),
{
    let mut pre: Vec<ConditionRow> = Vec::new();
    let mut main: Vec<ConditionRow> = Vec::new();
    let mut i: usize = 0;
    while i < all.len()
        invariant
            0 <= i <= all.len(),
            pre@.map_values(|c: ConditionRow| condition_row_fields(c)) == conditions_where(all@.take(i as int), id, true),
            main@.map_values(|c: ConditionRow| condition_row_fields(c)) == conditions_where(all@.take(i as int), id, false),
        decreases all.len() - i,
    {
        assert(all@.take(i + 1).drop_last() =~= all@.take(i as int));
        let c = &all[i];
        assert(all@.take(i + 1).last() == *c);
        if c.trigger_id == id {
            let row = ConditionRow { cond_key: c.cond_key.clone(), operator: c.operator, cond_val: c.cond_val.clone(), is_or: c.is_or };
            if c.is_precondition {
                pre.push(row);
            } else {
                main.push(row);
            }
        }
        i += 1;
        assert(pre@.map_values(|c: ConditionRow| condition_row_fields(c)) =~= conditions_where(all@.take(i as int), id, true));
        assert(main@.map_values(|c: ConditionRow| condition_row_fields(c)) =~= conditions_where(all@.take(i as int), id, false));
    }
    assert(all@.take(all.len() as int) =~= all@);
    (pre, main)
}

/// The positions, in order, of the stored rows that belong to trigger `id`,
/// given the trigger id of each row.
pub open spec fn rows_where(trigger_ids: Seq<i32>, id: i32) -> Seq<usize>
    decreases trigger_ids.len(),
{
    if trigger_ids.len() == 0 {
        Seq::empty()
    } else {
        let before = rows_where(trigger_ids.drop_last(), id);
        if trigger_ids.last() == id { before.push((trigger_ids.len() - 1) as usize) } else { before }
    }
}

proof fn lemma_rows_where_in_range(trigger_ids: Seq<i32>, id: i32)
    ensures
        forall|k: int| 0 <= k < rows_where(trigger_ids, id).len()
            ==> #[trigger] rows_where(trigger_ids, id)[k] < trigger_ids.len(),
    decreases trigger_ids.len(),
{
    if trigger_ids.len() > 0 {
        let before = rows_where(trigger_ids.drop_last(), id);
        lemma_rows_where_in_range(trigger_ids.drop_last(), id);
        assert forall|k: int| 0 <= k < rows_where(trigger_ids, id).len()
            implies #[trigger] rows_where(trigger_ids, id)[k] < trigger_ids.len() by {
            if k < before.len() {
                assert(rows_where(trigger_ids, id)[k] == before[k]);
            }
        }
    }
}

/// The positions of the stored effect rows of trigger `id`, in the order
/// stored; `trigger_ids` holds the trigger id of each row.
pub fn rows_of_trigger(trigger_ids: &[i32], id: i32) -> (r: Vec<usize>)
    ensures
        r@ == rows_where(trigger_ids@, id),
        forall|k: int| 0 <= k < r@.len() ==> #[trigger] r@[k] < trigger_ids@.len(),
{
    let mut out: Vec<usize> = Vec::new();
    let mut i: usize = 0;
    while i < trigger_ids.len()
        invariant
            0 <= i <= trigger_ids.len(),
            out@ == rows_where(trigger_ids@.take(i as int), id),
        decreases trigger_ids.len() - i,
    {
        assert(trigger_ids@.take(i + 1).drop_last() =~= trigger_ids@.take(i as int));
        if trigger_ids[i] == id {
            out.push(i);
        }
        i += 1;
    }
    assert(trigger_ids@.take(trigger_ids.len() as int) =~= trigger_ids@);
    proof { lemma_rows_where_in_range(trigger_ids@, id); }
    out
}

/// Splitting a trigger's conditions into preconditions and conditions loses
/// none and adds none: together they are all the stored conditions of the
/// trigger.
pub proof fn law_condition_split_is_exact(all: Seq<TriggerConditionRecord>, id: i32)
    ensures
        conditions_where(all, id, true).len() + conditions_where(all, id, false).len() == conditions_of(all, id),
    decreases all.len(),
{
    if all.len() > 0 {
        law_condition_split_is_exact(all.drop_last(), id);
    }
}

} // verus!
