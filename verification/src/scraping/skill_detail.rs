//! Skill effects from a skill's wiki page: each effect block holds a table of
//! stats and a table of activation conditions, written as `key op value`
//! terms joined by `AND`, with `OR` rows that open alternative branches.
use crate::ids::SkillId;
use crate::models::skill::{SkillCondition, SkillEffect, SkillEffectStat, SkillOperator};
use crate::scraping::conditions::{free_of_operators, lemma_symbol_absent, lemma_symbol_splits, operator_chars_only, split_at_operator, split_at_symbol};
use crate::text::{contains_str, find, split, split_str, str_eq, trim, trim_str};
use scraper::{ElementRef, Html, Selector};
use vstd::prelude::*;

verus! {

/// A table row as the page shows it: the texts of its header cells and of its
/// data cells.
pub type RowTexts = (Seq<Seq<char>>, Seq<Seq<char>>);

/// A parsed condition: precondition or not, key, operator, value.
pub type DetailCondition = (bool, Seq<char>, SkillOperator, Seq<char>);

/// For each `div.skill-effect-wrapper` of the page, in document order, its
/// `table.wikitable` elements, and for each table its `tr` rows with the text
/// of their `th` and of their `td` elements.
pub uninterp spec fn page_effect_tables(html: Seq<char>) -> Seq<Seq<Seq<RowTexts>>>;

/// Parses the HTML document with the `scraper` crate (`Html::parse_document`,
/// `Selector::parse`, `ElementRef::select`, `ElementRef::text`) and hands out
/// the texts of the effect blocks. The contract names the result.
#[verifier::external_body]
fn select_effect_tables(html: &str) -> (r: Vec<Vec<Vec<(Vec<String>, Vec<String>)>>>)
    ensures
        r.deep_view() == page_effect_tables(html@),
{
    let doc = Html::parse_document(html);
    let sel = |s: &str| Selector::parse(s).unwrap();
    let (wrapper, table, tr, th, td) = (sel("div.skill-effect-wrapper"), sel("table.wikitable"), sel("tr"), sel("th"), sel("td"));
    let texts = |row: ElementRef, s: &Selector| row.select(s).map(|e| e.text().collect()).collect::<Vec<String>>();
    doc.select(&wrapper).map(|w| w.select(&table).map(|t| t.select(&tr).map(|r| (texts(r, &th), texts(r, &td))).collect()).collect()).collect()
}

/// A term `key op value`: the operators are tried in the order `!=`, `>=`,
/// `<=`, `==`, `>`, `<`, and the first that splits the term into a non-empty
/// key and value wins.
pub open spec fn spec_single_condition(s: Seq<char>) -> Option<(Seq<char>, SkillOperator, Seq<char>)> {
    if split_at_symbol(s, "!="@) is Some {
        Some((split_at_symbol(s, "!="@).unwrap().0, SkillOperator::NotEq, split_at_symbol(s, "!="@).unwrap().1))
    } else if split_at_symbol(s, ">="@) is Some {
        Some((split_at_symbol(s, ">="@).unwrap().0, SkillOperator::GtEq, split_at_symbol(s, ">="@).unwrap().1))
    } else if split_at_symbol(s, "<="@) is Some {
        Some((split_at_symbol(s, "<="@).unwrap().0, SkillOperator::LtEq, split_at_symbol(s, "<="@).unwrap().1))
    } else if split_at_symbol(s, "=="@) is Some {
        Some((split_at_symbol(s, "=="@).unwrap().0, SkillOperator::Eq, split_at_symbol(s, "=="@).unwrap().1))
    } else if split_at_symbol(s, ">"@) is Some {
        Some((split_at_symbol(s, ">"@).unwrap().0, SkillOperator::Gt, split_at_symbol(s, ">"@).unwrap().1))
    } else if split_at_symbol(s, "<"@) is Some {
        Some((split_at_symbol(s, "<"@).unwrap().0, SkillOperator::Lt, split_at_symbol(s, "<"@).unwrap().1))
    } else {
        None
    }
}

/// The symbol that writes an operator in a condition of the skill page.
pub open spec fn skill_operator_symbol(op: SkillOperator) -> Seq<char> {
    match op {
        SkillOperator::Eq => "=="@,
        SkillOperator::NotEq => "!="@,
        SkillOperator::Gt => ">"@,
        SkillOperator::GtEq => ">="@,
        SkillOperator::Lt => "<"@,
        SkillOperator::LtEq => "<="@,
    }
}

/// A condition of the skill page reads as the operator its symbol writes:
/// for a key and a value that hold no operator character and are not blank,
/// the term `key`, symbol of `op`, `value` reads as the trimmed key, `op`,
/// and the trimmed value.
pub proof fn law_page_condition_reads_its_operator(k: Seq<char>, op: SkillOperator, v: Seq<char>)
    requires
        free_of_operators(k),
        free_of_operators(v),
        trim(k).len() > 0,
        trim(v).len() > 0,
    ensures
        spec_single_condition(k + skill_operator_symbol(op) + v) == Some((trim(k), op, trim(v))),
{
    reveal_strlit(">=");
    reveal_strlit("<=");
    reveal_strlit("!=");
    reveal_strlit("==");
    reveal_strlit(">");
    reveal_strlit("<");
    let sym = skill_operator_symbol(op);
    assert(operator_chars_only(">="@));
    assert(operator_chars_only("<="@));
    assert(operator_chars_only("!="@));
    assert(operator_chars_only("=="@));
    assert(operator_chars_only(">"@));
    assert(operator_chars_only("<"@));
    lemma_symbol_splits(k, sym, v);
    if op != SkillOperator::NotEq {
        lemma_symbol_absent(k, sym, v, "!="@);
    }
    if op != SkillOperator::NotEq && op != SkillOperator::GtEq {
        lemma_symbol_absent(k, sym, v, ">="@);
    }
    if op != SkillOperator::NotEq && op != SkillOperator::GtEq && op != SkillOperator::LtEq {
        lemma_symbol_absent(k, sym, v, "<="@);
    }
    if op == SkillOperator::Gt || op == SkillOperator::Lt {
        lemma_symbol_absent(k, sym, v, "=="@);
    }
    if op == SkillOperator::Lt {
        lemma_symbol_absent(k, sym, v, ">"@);
    }
}

/// The view of a parsed condition; the page gives no description or example.
pub open spec fn detail_condition(c: SkillCondition) -> DetailCondition {
    (c.is_precondition, c.cond_key@, c.operator, c.cond_val@)
}

pub open spec fn plain_condition(c: SkillCondition) -> bool {
    c.description is None && c.example is None
}

/// Parses one term into a condition, when it is one.
pub fn parse_single_condition(s: &str, is_precondition: bool) -> (r: Option<SkillCondition>)
    ensures
        match r {
            Some(c) => spec_single_condition(s@) == Some((c.cond_key@, c.operator, c.cond_val@))
                && c.is_precondition == is_precondition && plain_condition(c),
            None => spec_single_condition(s@) is None,
        },
{
    proof {
        reveal_strlit("!=");
        reveal_strlit(">=");
        reveal_strlit("<=");
        reveal_strlit("==");
        reveal_strlit(">");
        reveal_strlit("<");
    }
    let (key, operator, val) = if let Some((k, v)) = split_at_operator(s, "!=") {
        (k, SkillOperator::NotEq, v)
    } else if let Some((k, v)) = split_at_operator(s, ">=") {
        (k, SkillOperator::GtEq, v)
    } else if let Some((k, v)) = split_at_operator(s, "<=") {
        (k, SkillOperator::LtEq, v)
    } else if let Some((k, v)) = split_at_operator(s, "==") {
        (k, SkillOperator::Eq, v)
    } else if let Some((k, v)) = split_at_operator(s, ">") {
        (k, SkillOperator::Gt, v)
    } else if let Some((k, v)) = split_at_operator(s, "<") {
        (k, SkillOperator::Lt, v)
    } else {
        return None;
    };
    Some(SkillCondition { is_precondition, cond_key: key, operator, cond_val: val, description: None, example: None })
}

/// The conditions of the `AND`-separated terms `parts`: each is trimmed, and
/// empty terms and terms that are no condition are left out.
pub open spec fn conditions_of_terms(parts: Seq<Seq<char>>, pre: bool) -> Seq<DetailCondition>
    decreases parts.len(),
{
    if parts.len() == 0 {
        Seq::empty()
    } else {
        let before = conditions_of_terms(parts.drop_last(), pre);
        let p = trim(parts.last());
        if p.len() == 0 {
            before
        } else {
            match spec_single_condition(p) {
                Some((k, op, v)) => before.push((pre, k, op, v)),
                None => before,
            }
        }
    }
}

/// The conditions of a cell's text.
pub open spec fn spec_condition_text(text: Seq<char>, pre: bool) -> Seq<DetailCondition> {
    conditions_of_terms(split(text, "AND"@), pre)
}

/// Parses the conditions of a cell's text: terms joined by `AND`. Terms that
/// are no condition are dropped.
pub fn parse_condition_text(text: &str, is_precondition: bool) -> (r: Vec<SkillCondition>)
    ensures
        r@.map_values(|c: SkillCondition| detail_condition(c)) == spec_condition_text(text@, is_precondition),
        forall|i: int| 0 <= i < r.len() ==> plain_condition(#[trigger] r@[i]),
{
    proof {
        reveal_strlit("AND");
    }
    let parts = split_str(text, "AND");
    let ghost pv = parts@.map_values(|x: String| x@);
    let mut out: Vec<SkillCondition> = Vec::new();
    let mut i: usize = 0;
    while i < parts.len()
        invariant
            0 <= i <= parts.len(),
            pv == parts@.map_values(|x: String| x@),
            pv == split(text@, "AND"@),
            out@.map_values(|c: SkillCondition| detail_condition(c)) == conditions_of_terms(pv.take(i as int), is_precondition),
            forall|j: int| 0 <= j < out.len() ==> plain_condition(#[trigger] out@[j]),
        decreases parts.len() - i,
    {
        assert(pv.take(i + 1).drop_last() =~= pv.take(i as int));
        assert(pv.take(i + 1).last() == parts@[i as int]@);
        let part = trim_str(parts[i].as_str());
        if part.unicode_len() > 0 {
            match parse_single_condition(part.as_str(), is_precondition) {
                Some(c) => {
                    out.push(c);
                },
                None => {},
            }
        }
        i += 1;
        assert(out@.map_values(|c: SkillCondition| detail_condition(c)) =~= conditions_of_terms(pv.take(i as int), is_precondition));
    }
    assert(pv.take(parts.len() as int) =~= pv);
    out
}

/// The stat of a row of the stats table: its first header and first data
/// cell, trimmed, when both are there and non-empty.
pub open spec fn stat_of_row(row: RowTexts) -> Seq<(Seq<char>, Seq<char>)> {
    if row.0.len() > 0 && row.1.len() > 0 && trim(row.0[0]).len() > 0 && trim(row.1[0]).len() > 0 {
        seq![(trim(row.0[0]), trim(row.1[0]))]
    } else {
        Seq::empty()
    }
}

pub open spec fn stats_of_rows(rows: Seq<RowTexts>) -> Seq<(Seq<char>, Seq<char>)>
    decreases rows.len(),
{
    if rows.len() == 0 {
        Seq::empty()
    } else {
        stats_of_rows(rows.drop_last()) + stat_of_row(rows.last())
    }
}

pub open spec fn stat_view(s: SkillEffectStat) -> (Seq<char>, Seq<char>) {
    (s.stat_key@, s.stat_val@)
}

/// The stats listed in a stats table.
fn parse_stats(rows: &Vec<(Vec<String>, Vec<String>)>) -> (r: Vec<SkillEffectStat>)
    ensures
        r@.map_values(|s: SkillEffectStat| stat_view(s)) == stats_of_rows(rows.deep_view()),
{
    let ghost rv = rows.deep_view();
    let mut out: Vec<SkillEffectStat> = Vec::new();
    let mut i: usize = 0;
    while i < rows.len()
        invariant
            0 <= i <= rows.len(),
            rv == rows.deep_view(),
            out@.map_values(|s: SkillEffectStat| stat_view(s)) == stats_of_rows(rv.take(i as int)),
        decreases rows.len() - i,
    {
        assert(rv.take(i + 1).drop_last() =~= rv.take(i as int));
        assert(rv.take(i + 1).last() == rows@[i as int].deep_view());
        let row = &rows[i];
        if row.0.len() > 0 && row.1.len() > 0 {
            let key = trim_str(row.0[0].as_str());
            let val = trim_str(row.1[0].as_str());
            assert(rv[i as int].0[0] == row.0@[0]@);
            assert(rv[i as int].1[0] == row.1@[0]@);
            if key.unicode_len() > 0 && val.unicode_len() > 0 {
                out.push(SkillEffectStat { stat_key: key, stat_val: val });
            }
        }
        i += 1;
        assert(out@.map_values(|s: SkillEffectStat| stat_view(s)) =~= stats_of_rows(rv.take(i as int)));
    }
    assert(rv.take(rows.len() as int) =~= rv);
    out
}

/// One row of the conditions table, read after the conditions `acc` with the
/// open `OR` group `group` (whether its branches are preconditions). A row
/// with a header starts a new entry: a precondition entry when the header
/// mentions `Precondition`; when its first cell reads `OR`, its second cell is
/// the first branch and the rows without a header that follow are the other
/// branches; otherwise its first cell holds the conditions. A row without a
/// header outside an `OR` group is ignored.
pub open spec fn condition_row_step(acc: Seq<DetailCondition>, group: Option<bool>, row: RowTexts) -> (Seq<DetailCondition>, Option<bool>) {
    if row.0.len() > 0 {
        let pre = find(trim(row.0[0]), "Precondition"@) is Some;
        let tds = row.1;
        if tds.len() > 0 && trim(tds[0]) == "OR"@ {
            (acc + (if tds.len() > 1 { spec_condition_text(trim(tds[1]), pre) } else { Seq::empty() }), Some(pre))
        } else {
            (acc + (if tds.len() > 0 { spec_condition_text(trim(tds[0]), pre) } else { Seq::empty() }), None)
        }
    } else {
        match group {
            Some(pre) => (acc + (if row.1.len() > 0 { spec_condition_text(trim(row.1[0]), pre) } else { Seq::empty() }), Some(pre)),
            None => (acc, None),
        }
    }
}

pub open spec fn condition_rows(rows: Seq<RowTexts>) -> (Seq<DetailCondition>, Option<bool>)
    decreases rows.len(),
{
    if rows.len() == 0 {
        (Seq::empty(), None)
    } else {
        let (acc, group) = condition_rows(rows.drop_last());
        condition_row_step(acc, group, rows.last())
    }
}

proof fn lemma_map_append(a: Seq<SkillCondition>, b: Seq<SkillCondition>)
    ensures
        (a + b).map_values(|c: SkillCondition| detail_condition(c))
            == a.map_values(|c: SkillCondition| detail_condition(c)) + b.map_values(|c: SkillCondition| detail_condition(c)),
{
    assert((a + b).map_values(|c: SkillCondition| detail_condition(c))
        =~= a.map_values(|c: SkillCondition| detail_condition(c)) + b.map_values(|c: SkillCondition| detail_condition(c)));
}

/// Appends the conditions of `text` to `out`.
fn append_conditions(out: &mut Vec<SkillCondition>, text: &str, pre: bool)
    requires
        forall|j: int| 0 <= j < old(out).len() ==> plain_condition(#[trigger] old(out)@[j]),
    ensures
        final(out)@.map_values(|c: SkillCondition| detail_condition(c))
            == old(out)@.map_values(|c: SkillCondition| detail_condition(c)) + spec_condition_text(trim(text@), pre),
        forall|j: int| 0 <= j < final(out).len() ==> plain_condition(#[trigger] final(out)@[j]),
{
    let t = trim_str(text);
    let mut more = parse_condition_text(t.as_str(), pre);
    let ghost before = out@;
    let ghost added = more@;
    out.append(&mut more);
    proof {
        lemma_map_append(before, added);
        assert(out@ =~= before + added);
        assert forall|j: int| 0 <= j < out.len() implies plain_condition(#[trigger] out@[j]) by {
            if j >= before.len() {
                assert(out@[j] == added[j - before.len()]);
            }
        }
    }
}

/// The conditions listed in a conditions table.
fn parse_conditions_table(rows: &Vec<(Vec<String>, Vec<String>)>) -> (r: Vec<SkillCondition>)
    ensures
        r@.map_values(|c: SkillCondition| detail_condition(c)) == condition_rows(rows.deep_view()).0,
        forall|j: int| 0 <= j < r.len() ==> plain_condition(#[trigger] r@[j]),
{
    proof {
        reveal_strlit("Precondition");
        reveal_strlit("OR");
    }
    let ghost rv = rows.deep_view();
    let mut out: Vec<SkillCondition> = Vec::new();
    let mut group: Option<bool> = None;
    let mut i: usize = 0;
    while i < rows.len()
        invariant
            0 <= i <= rows.len(),
            rv == rows.deep_view(),
            (out@.map_values(|c: SkillCondition| detail_condition(c)), group) == condition_rows(rv.take(i as int)),
            forall|j: int| 0 <= j < out.len() ==> plain_condition(#[trigger] out@[j]),
        decreases rows.len() - i,
    {
        assert(rv.take(i + 1).drop_last() =~= rv.take(i as int));
        assert(rv.take(i + 1).last() == rows@[i as int].deep_view());
        let row = &rows[i];
        let ghost r = rv[i as int];
        let ghost acc = out@.map_values(|c: SkillCondition| detail_condition(c));
        let ghost g0 = group;
        assert(condition_rows(rv.take(i + 1)) == condition_row_step(acc, g0, r));
        if row.0.len() > 0 {
            assert(r.0[0] == row.0@[0]@);
            let th = trim_str(row.0[0].as_str());
            let pre = contains_str(th.as_str(), "Precondition");
            let is_or = if row.1.len() > 0 {
                assert(r.1[0] == row.1@[0]@);
                let first = trim_str(row.1[0].as_str());
                str_eq(first.as_str(), "OR")
            } else {
                false
            };
            if is_or {
                if row.1.len() > 1 {
                    assert(r.1[1] == row.1@[1]@);
                    append_conditions(&mut out, row.1[1].as_str(), pre);
                } else {
                    assert(acc + Seq::<DetailCondition>::empty() =~= acc);
                }
                group = Some(pre);
            } else {
                if row.1.len() > 0 {
                    append_conditions(&mut out, row.1[0].as_str(), pre);
                } else {
                    assert(acc + Seq::<DetailCondition>::empty() =~= acc);
                }
                group = None;
            }
        } else {
            match group {
                Some(pre) => {
                    if row.1.len() > 0 {
                        assert(r.1[0] == row.1@[0]@);
                        append_conditions(&mut out, row.1[0].as_str(), pre);
                    } else {
                        assert(acc + Seq::<DetailCondition>::empty() =~= acc);
                    }
                },
                None => {},
            }
        }
        assert((out@.map_values(|c: SkillCondition| detail_condition(c)), group) == condition_row_step(acc, g0, r));
        i += 1;
    }
    assert(rv.take(rows.len() as int) =~= rv);
    out
}

/// A parsed effect: its stats and its conditions.
pub type EffectBlock = (Seq<(Seq<char>, Seq<char>)>, Seq<DetailCondition>);

/// The effects of the blocks, in order; a block with fewer than two tables is
/// skipped.
pub open spec fn effects_of_blocks(blocks: Seq<Seq<Seq<RowTexts>>>) -> Seq<EffectBlock>
    decreases blocks.len(),
{
    if blocks.len() == 0 {
        Seq::empty()
    } else {
        let before = effects_of_blocks(blocks.drop_last());
        let tables = blocks.last();
        if tables.len() < 2 {
            before
        } else {
            before.push((stats_of_rows(tables[0]), condition_rows(tables[1]).0))
        }
    }
}

/// The skill's effects as the page lists them, or `None` when the page has
/// no effect block or none of them holds both tables.
pub open spec fn spec_skill_detail(blocks: Seq<Seq<Seq<RowTexts>>>) -> Option<Seq<EffectBlock>> {
    if blocks.len() == 0 || effects_of_blocks(blocks).len() == 0 {
        None
    } else {
        Some(effects_of_blocks(blocks))
    }
}

/// The skill effects read from a skill's wiki page.
#[derive(Debug)]
pub struct SkillDetailData {
    pub id: SkillId,
    pub effects: Vec<SkillEffect>,
}

pub open spec fn effect_view(e: SkillEffect) -> EffectBlock {
    (e.stats@.map_values(|s: SkillEffectStat| stat_view(s)), e.conditions@.map_values(|c: SkillCondition| detail_condition(c)))
}

pub open spec fn plain_effect(e: SkillEffect) -> bool {
    forall|j: int| 0 <= j < e.conditions.len() ==> plain_condition(#[trigger] e.conditions@[j])
}

/// Builds the skill detail from the texts of the page's effect blocks.
pub fn parse_skill_detail_blocks(blocks: &Vec<Vec<Vec<(Vec<String>, Vec<String>)>>>, id: SkillId) -> (r: Option<SkillDetailData>)
    ensures
        match r {
            Some(d) => d.id == id
                && spec_skill_detail(blocks.deep_view()) == Some(d.effects@.map_values(|e: SkillEffect| effect_view(e)))
                && forall|j: int| 0 <= j < d.effects.len() ==> plain_effect(#[trigger] d.effects@[j]),
            None => spec_skill_detail(blocks.deep_view()) is None,
        },
{
    let ghost bv = blocks.deep_view();
    if blocks.len() == 0 {
        return None;
    }
    let mut effects: Vec<SkillEffect> = Vec::new();
    let mut i: usize = 0;
    while i < blocks.len()
        invariant
            0 <= i <= blocks.len(),
            bv == blocks.deep_view(),
            effects@.map_values(|e: SkillEffect| effect_view(e)) == effects_of_blocks(bv.take(i as int)),
            forall|j: int| 0 <= j < effects.len() ==> plain_effect(#[trigger] effects@[j]),
        decreases blocks.len() - i,
    {
        assert(bv.take(i + 1).drop_last() =~= bv.take(i as int));
        assert(bv.take(i + 1).last() == blocks@[i as int].deep_view());
        let tables = &blocks[i];
        if tables.len() >= 2 {
            assert(bv[i as int][0] == tables@[0].deep_view());
            assert(bv[i as int][1] == tables@[1].deep_view());
            let stats = parse_stats(&tables[0]);
            let conditions = parse_conditions_table(&tables[1]);
            effects.push(SkillEffect { stats, conditions });
        }
        i += 1;
        assert(effects@.map_values(|e: SkillEffect| effect_view(e)) =~= effects_of_blocks(bv.take(i as int)));
    }
    assert(bv.take(blocks.len() as int) =~= bv);
    if effects.len() == 0 {
        None
    } else {
        Some(SkillDetailData { id, effects })
    }
}

/// Parses a skill's wiki page: the effects of its effect blocks, or `None`
/// when it shows none.
pub fn parse_skill_detail_page(html: &str, id: SkillId) -> (r: Option<SkillDetailData>)
    ensures
        match r {
            Some(d) => d.id == id
                && spec_skill_detail(page_effect_tables(html@)) == Some(d.effects@.map_values(|e: SkillEffect| effect_view(e))),
            None => spec_skill_detail(page_effect_tables(html@)) is None,
        },
{
    let blocks = select_effect_tables(html);
    parse_skill_detail_blocks(&blocks, id)
}

} // verus!
