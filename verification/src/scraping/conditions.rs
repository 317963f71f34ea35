//! Skill activation conditions written as `key<op>value` terms, joined by `&`
//! within a group and by `@` between alternative groups.
use crate::ids::SkillId;
use crate::models::skill::{Condition, Operator};
use crate::scraping::error::{ScraperError, ScraperResult};
use crate::text::{find, find_from, find_str, occurs_at, int_str, lemma_find_occurs, nat_str, prefix_to, split, split_str, suffix_from, trim, trim_str, u64_to_string};
use vstd::prelude::*;

verus! {

impl View for Condition {
    type V = (Seq<char>, Operator, Seq<char>, bool);

    open spec fn view(&self) -> Self::V {
        (self.cond_key@, self.operator, self.cond_val@, self.is_or)
    }
}

/// The trimmed text before and after the first occurrence of `sym` in `s`,
/// when both are non-empty.
pub open spec fn split_at_symbol(s: Seq<char>, sym: Seq<char>) -> Option<(Seq<char>, Seq<char>)> {
    match find(s, sym) {
        Some(p) => {
            let key = trim(s.take(p));
            let val = trim(s.skip(p + sym.len()));
            if key.len() > 0 && val.len() > 0 { Some((key, val)) } else { None }
        },
        None => None,
    }
}

/// A term `key<op>value`: the operators are tried in the order `>=`, `<=`,
/// `!=`, `==`, `>`, `<`, and the first that splits the term into a non-empty
/// key and value wins.
pub open spec fn spec_condition_part(s: Seq<char>) -> Option<(Seq<char>, Operator, Seq<char>)> {
    if split_at_symbol(s, ">="@) is Some {
        Some((split_at_symbol(s, ">="@).unwrap().0, Operator::GtEq, split_at_symbol(s, ">="@).unwrap().1))
    } else if split_at_symbol(s, "<="@) is Some {
        Some((split_at_symbol(s, "<="@).unwrap().0, Operator::LtEq, split_at_symbol(s, "<="@).unwrap().1))
    } else if split_at_symbol(s, "!="@) is Some {
        Some((split_at_symbol(s, "!="@).unwrap().0, Operator::NotEq, split_at_symbol(s, "!="@).unwrap().1))
    } else if split_at_symbol(s, "=="@) is Some {
        Some((split_at_symbol(s, "=="@).unwrap().0, Operator::Eq, split_at_symbol(s, "=="@).unwrap().1))
    } else if split_at_symbol(s, ">"@) is Some {
        Some((split_at_symbol(s, ">"@).unwrap().0, Operator::Gt, split_at_symbol(s, ">"@).unwrap().1))
    } else if split_at_symbol(s, "<"@) is Some {
        Some((split_at_symbol(s, "<"@).unwrap().0, Operator::Lt, split_at_symbol(s, "<"@).unwrap().1))
    } else {
        None
    }
}

/// The trimmed key and value around the first `sym` in `s`, when both are non-empty.
pub fn split_at_operator(s: &str, sym: &str) -> (r: Option<(String, String)>)
    requires sym@.len() > 0,
    ensures
        match r {
            Some((k, v)) => split_at_symbol(s@, sym@) == Some((k@, v@)),
            None => split_at_symbol(s@, sym@) is None,
        },
{
    proof { lemma_find_occurs(s@, sym@); }
    match find_str(s, sym) {
        Some(pos) => {
            let n = s.unicode_len();
            let m = sym.unicode_len();
            let key = trim_str(prefix_to(s, pos));
            let val = trim_str(suffix_from(s, pos + m));
            if key.unicode_len() > 0 && val.unicode_len() > 0 {
                Some((key, val))
            } else {
                None
            }
        },
        None => None,
    }
}

/// Splits a term `key<op>value` at its operator.
pub fn parse_condition_part(s: &str) -> (r: Option<(String, Operator, String)>)
    ensures
        match r {
            Some((k, op, v)) => spec_condition_part(s@) == Some((k@, op, v@)),
            None => spec_condition_part(s@) is None,
        },
{
    proof {
        reveal_strlit(">=");
        reveal_strlit("<=");
        reveal_strlit("!=");
        reveal_strlit("==");
        reveal_strlit(">");
        reveal_strlit("<");
    }
    if let Some((k, v)) = split_at_operator(s, ">=") {
        return Some((k, Operator::GtEq, v));
    }
    if let Some((k, v)) = split_at_operator(s, "<=") {
        return Some((k, Operator::LtEq, v));
    }
    if let Some((k, v)) = split_at_operator(s, "!=") {
        return Some((k, Operator::NotEq, v));
    }
    if let Some((k, v)) = split_at_operator(s, "==") {
        return Some((k, Operator::Eq, v));
    }
    if let Some((k, v)) = split_at_operator(s, ">") {
        return Some((k, Operator::Gt, v));
    }
    if let Some((k, v)) = split_at_operator(s, "<") {
        return Some((k, Operator::Lt, v));
    }
    None
}


/// The symbol that writes an operator in a condition term.
pub open spec fn operator_symbol(op: Operator) -> Seq<char> {
    match op {
        Operator::Eq => "=="@,
        Operator::NotEq => "!="@,
        Operator::Gt => ">"@,
        Operator::GtEq => ">="@,
        Operator::Lt => "<"@,
        Operator::LtEq => "<="@,
    }
}

/// A character that operator symbols are made of.
pub open spec fn is_operator_char(c: char) -> bool {
    c == '<' || c == '>' || c == '=' || c == '!'
}

/// No character of `s` belongs to an operator symbol.
pub open spec fn free_of_operators(s: Seq<char>) -> bool {
    forall|i: int| 0 <= i < s.len() ==> !is_operator_char(#[trigger] s[i])
}

/// Every character of `s` belongs to an operator symbol.
pub open spec fn operator_chars_only(s: Seq<char>) -> bool {
    forall|i: int| 0 <= i < s.len() ==> is_operator_char(#[trigger] s[i])
}

proof fn lemma_find_from_none(s: Seq<char>, p: Seq<char>, i: int)
    requires
        forall|m: int| i <= m ==> !occurs_at(s, p, m),
    ensures
        find_from(s, p, i) is None,
    decreases s.len() + 1 - i,
{
    if !(i < 0 || i + p.len() > s.len()) {
        assert(!occurs_at(s, p, i));
        lemma_find_from_none(s, p, i + 1);
    }
}

proof fn lemma_find_from_first(s: Seq<char>, p: Seq<char>, i: int, j: int)
    requires
        0 <= i <= j,
        occurs_at(s, p, j),
        forall|m: int| i <= m < j ==> !occurs_at(s, p, m),
    ensures
        find_from(s, p, i) == Some(j),
    decreases j - i,
{
    if i < j {
        assert(!occurs_at(s, p, i));
        lemma_find_from_first(s, p, i + 1, j);
    }
}

/// In `k + sym + v`, with `k` and `v` free of operator characters, a text of
/// operator characters can only occur inside `sym`.
proof fn lemma_occurrence_inside_symbol(k: Seq<char>, sym: Seq<char>, v: Seq<char>, t: Seq<char>, m: int)
    requires
        free_of_operators(k),
        free_of_operators(v),
        t.len() > 0,
        operator_chars_only(t),
        occurs_at(k + sym + v, t, m),
    ensures
        k.len() <= m,
        m + t.len() <= k.len() + sym.len(),
        t[0] == sym[m - k.len()],
        t[t.len() - 1] == sym[m + t.len() - 1 - k.len()],
{
    let s = k + sym + v;
    let n = k.len();
    assert(s.subrange(m, m + t.len())[0] == t[0]);
    assert(s.subrange(m, m + t.len())[t.len() - 1] == t[t.len() - 1]);
    assert(is_operator_char(t[0]));
    assert(is_operator_char(t[t.len() - 1]));
    if m < n {
        assert(s[m] == k[m]);
    }
    let e = m + t.len() - 1;
    if e >= n + sym.len() {
        assert(s[e] == v[e - n - sym.len()]);
    }
    assert(s[m] == sym[m - n]);
    assert(s[e] == sym[e - n]);
}

/// A symbol that cannot be laid over `sym` (its first or last character
/// disagrees at every place) does not split `k + sym + v`.
pub proof fn lemma_symbol_absent(k: Seq<char>, sym: Seq<char>, v: Seq<char>, t: Seq<char>)
    requires
        free_of_operators(k),
        free_of_operators(v),
        t.len() > 0,
        operator_chars_only(t),
        forall|d: int| 0 <= d && d + t.len() <= sym.len()
            ==> t[0] != #[trigger] sym[d] || t[t.len() - 1] != sym[d + t.len() - 1],
    ensures
        split_at_symbol(k + sym + v, t) is None,
{
    let s = k + sym + v;
    assert forall|m: int| 0 <= m implies !occurs_at(s, t, m) by {
        if occurs_at(s, t, m) {
            lemma_occurrence_inside_symbol(k, sym, v, t, m);
            let d = m - k.len();
            assert(t[0] == sym[d] && t[t.len() - 1] == sym[d + t.len() - 1]);
        }
    }
    lemma_find_from_none(s, t, 0);
}

/// `k + sym + v` splits at `sym` into the trimmed `k` and `v`.
pub proof fn lemma_symbol_splits(k: Seq<char>, sym: Seq<char>, v: Seq<char>)
    requires
        free_of_operators(k),
        free_of_operators(v),
        sym.len() > 0,
        operator_chars_only(sym),
        trim(k).len() > 0,
        trim(v).len() > 0,
    ensures
        split_at_symbol(k + sym + v, sym) == Some((trim(k), trim(v))),
{
    let s = k + sym + v;
    let n = k.len() as int;
    let l = sym.len() as int;
    assert(s.subrange(n, n + l) =~= sym);
    assert forall|m: int| 0 <= m < n implies !occurs_at(s, sym, m) by {
        if occurs_at(s, sym, m) {
            lemma_occurrence_inside_symbol(k, sym, v, sym, m);
        }
    }
    lemma_find_from_first(s, sym, 0, n);
    assert(s.take(n) =~= k);
    assert(s.skip(n + l) =~= v);
}

/// A condition term reads as the operator its symbol writes: for a key and
/// a value that hold no operator character and are not blank, the term
/// `key`, symbol of `op`, `value` reads as the trimmed key, `op`, and the
/// trimmed value. So `<=` gives `LtEq` and never `Lt`, `>=` gives `GtEq`, and
/// so on for each operator.
pub proof fn law_condition_term_reads_its_operator(k: Seq<char>, op: Operator, v: Seq<char>)
    requires
        free_of_operators(k),
        free_of_operators(v),
        trim(k).len() > 0,
        trim(v).len() > 0,
    ensures
        spec_condition_part(k + operator_symbol(op) + v) == Some((trim(k), op, trim(v))),
{
    reveal_strlit(">=");
    reveal_strlit("<=");
    reveal_strlit("!=");
    reveal_strlit("==");
    reveal_strlit(">");
    reveal_strlit("<");
    let sym = operator_symbol(op);
    assert(operator_chars_only(">="@));
    assert(operator_chars_only("<="@));
    assert(operator_chars_only("!="@));
    assert(operator_chars_only("=="@));
    assert(operator_chars_only(">"@));
    assert(operator_chars_only("<"@));
    lemma_symbol_splits(k, sym, v);
    if op != Operator::GtEq {
        lemma_symbol_absent(k, sym, v, ">="@);
    }
    if op != Operator::GtEq && op != Operator::LtEq {
        lemma_symbol_absent(k, sym, v, "<="@);
    }
    if op != Operator::GtEq && op != Operator::LtEq && op != Operator::NotEq {
        lemma_symbol_absent(k, sym, v, "!="@);
    }
    if op == Operator::Gt || op == Operator::Lt {
        lemma_symbol_absent(k, sym, v, "=="@);
    }
    if op == Operator::Lt {
        lemma_symbol_absent(k, sym, v, ">"@);
    }
}

/// A parsed condition: key, operator, value, and whether it opens an
/// alternative group.
pub type ConditionView = (Seq<char>, Operator, Seq<char>, bool);

/// The conditions of the `&`-joined terms `parts`; the first carries
/// `lead_is_or`. On failure, the first term that is not a condition.
pub open spec fn parts_conditions(parts: Seq<Seq<char>>, lead_is_or: bool) -> Result<Seq<ConditionView>, Seq<char>>
    decreases parts.len(),
{
    if parts.len() == 0 {
        Ok(Seq::empty())
    } else {
        match spec_condition_part(parts[0]) {
            None => Err(parts[0]),
            Some((k, op, v)) => match parts_conditions(parts.drop_first(), false) {
                Ok(rest) => Ok(seq![(k, op, v, lead_is_or)] + rest),
                Err(e) => Err(e),
            },
        }
    }
}

/// The conditions of the `@`-separated groups; every group but the first
/// opens with a condition marked as an alternative.
pub open spec fn groups_conditions(groups: Seq<Seq<char>>, first: bool) -> Result<Seq<ConditionView>, Seq<char>>
    decreases groups.len(),
{
    if groups.len() == 0 {
        Ok(Seq::empty())
    } else {
        match parts_conditions(split(groups[0], "&"@), !first) {
            Err(e) => Err(e),
            Ok(a) => match groups_conditions(groups.drop_first(), false) {
                Ok(b) => Ok(a + b),
                Err(e) => Err(e),
            },
        }
    }
}

/// The conditions that a condition string denotes; the empty string has none.
pub open spec fn spec_condition_string(s: Seq<char>) -> Result<Seq<ConditionView>, Seq<char>> {
    if s.len() == 0 {
        Ok(Seq::empty())
    } else {
        groups_conditions(split(s, "@"@), true)
    }
}

/// `acc` followed by what `r` holds, or `r`'s failure.
pub open spec fn after(acc: Seq<ConditionView>, r: Result<Seq<ConditionView>, Seq<char>>) -> Result<Seq<ConditionView>, Seq<char>> {
    match r {
        Ok(b) => Ok(acc + b),
        Err(e) => Err(e),
    }
}

/// The message of an invalid condition term in a skill.
pub open spec fn invalid_condition_message(part: Seq<char>, skill_id: SkillId) -> Seq<char> {
    "'"@ + part + "' in skill "@ + nat_str(skill_id.0 as nat)
}

fn invalid_condition(part: &str, skill_id: SkillId) -> (r: ScraperError)
    ensures r == ScraperError::InvalidCondition(r->InvalidCondition_0),
        r->InvalidCondition_0@ == invalid_condition_message(part@, skill_id),
{
    let mut msg = String::from_str("'");
    msg.append(part);
    msg.append("' in skill ");
    msg.append(u64_to_string(skill_id.0 as u64).as_str());
    ScraperError::InvalidCondition(msg)
}

proof fn lemma_after_empty(r: Result<Seq<ConditionView>, Seq<char>>)
    ensures after(Seq::empty(), r) == r,
{
    match r {
        Ok(c) => { assert(Seq::<ConditionView>::empty() + c =~= c); },
        Err(_) => {},
    }
}

proof fn lemma_after_assoc(a: Seq<ConditionView>, b: Seq<ConditionView>, r: Result<Seq<ConditionView>, Seq<char>>)
    ensures after(a, after(b, r)) == after(a + b, r),
{
    match r {
        Ok(c) => { assert(a + (b + c) =~= (a + b) + c); },
        Err(_) => {},
    }
}

/// Parses a condition string: `&` joins the terms of a group, `@` separates
/// alternative groups, and the first condition of every group but the first
/// is marked `is_or`. An invalid term fails the whole string.
pub fn parse_condition_string(s: &str, skill_id: SkillId) -> (r: ScraperResult<Vec<Condition>>)
    ensures
        match r {
            Ok(v) => spec_condition_string(s@) == Ok::<Seq<ConditionView>, Seq<char>>(v@.map_values(|c: Condition| c@)),
            Err(e) => spec_condition_string(s@) is Err
                && e == ScraperError::InvalidCondition(e->InvalidCondition_0)
                && e->InvalidCondition_0@ == invalid_condition_message(spec_condition_string(s@)->Err_0, skill_id),
        },
{
    let mut conditions: Vec<Condition> = Vec::new();
    if s.unicode_len() == 0 {
        assert(conditions@.map_values(|c: Condition| c@) =~= Seq::<ConditionView>::empty());
        return Ok(conditions);
    }
    proof { reveal_strlit("@"); reveal_strlit("&"); }
    let groups = split_str(s, "@");
    let ghost gviews = groups@.map_values(|x: String| x@);
    let mut gi: usize = 0;
    proof {
        assert(gviews.skip(0) =~= gviews);
        assert(conditions@.map_values(|c: Condition| c@) =~= Seq::<ConditionView>::empty());
        lemma_after_empty(groups_conditions(gviews, true));
    }
    while gi < groups.len()
        invariant
            gviews == groups@.map_values(|x: String| x@),
            gviews == split(s@, "@"@),
            s@.len() > 0,
            "&"@ == seq!['&'],
            0 <= gi <= groups.len(),
            spec_condition_string(s@) == after(conditions@.map_values(|c: Condition| c@),
                groups_conditions(gviews.skip(gi as int), gi == 0)),
        decreases groups.len() - gi,
    {
        let parts = split_str(groups[gi].as_str(), "&");
        let ghost pviews = parts@.map_values(|x: String| x@);
        let ghost before = conditions@.map_values(|c: Condition| c@);
        assert(gviews.skip(gi as int)[0] == gviews[gi as int]);
        assert(gviews.skip(gi as int).drop_first() =~= gviews.skip(gi + 1));
        assert(gviews[gi as int] == groups@[gi as int]@);
        assert(pviews == split(gviews[gi as int], "&"@));
        let mut pi: usize = 0;
        proof {
            let cv = conditions@.map_values(|c: Condition| c@);
            assert(cv.take(before.len() as int) =~= before);
            assert(cv.skip(before.len() as int) =~= Seq::<ConditionView>::empty());
            assert(pviews.skip(0) =~= pviews);
            lemma_after_empty(parts_conditions(pviews, gi > 0));
        }
        while pi < parts.len()
            invariant
                pviews == parts@.map_values(|x: String| x@),
                gviews == groups@.map_values(|x: String| x@),
                0 <= gi < groups.len(),
                pviews == split(gviews[gi as int], "&"@),
                gviews.skip(gi as int)[0] == gviews[gi as int],
                gviews.skip(gi as int).drop_first() == gviews.skip(gi + 1),
                spec_condition_string(s@) == after(before, groups_conditions(gviews.skip(gi as int), gi == 0)),
                before.len() <= conditions@.len(),
                conditions@.map_values(|c: Condition| c@).take(before.len() as int) == before,
                0 <= pi <= parts.len(),
                parts_conditions(pviews, gi > 0) == after(
                    conditions@.map_values(|c: Condition| c@).skip(before.len() as int),
                    parts_conditions(pviews.skip(pi as int), gi > 0 && pi == 0)),
            decreases parts.len() - pi,
        {
            assert(pviews.skip(pi as int)[0] == pviews[pi as int]);
            assert(pviews.skip(pi as int).drop_first() =~= pviews.skip(pi + 1));
            match parse_condition_part(parts[pi].as_str()) {
                Some((cond_key, operator, cond_val)) => {
                    let is_or = gi > 0 && pi == 0;
                    let ghost old_views = conditions@.map_values(|c: Condition| c@);
                    conditions.push(Condition { cond_key, operator, cond_val, is_or });
                    proof {
                        let nv = conditions@.map_values(|c: Condition| c@);
                        assert(nv =~= old_views.push((cond_key@, operator, cond_val@, is_or)));
                        assert(nv.take(before.len() as int) =~= old_views.take(before.len() as int));
                        assert(nv.skip(before.len() as int) =~= old_views.skip(before.len() as int).push((cond_key@, operator, cond_val@, is_or)));
                        let tail = parts_conditions(pviews.skip(pi + 1), false);
                        lemma_after_assoc(old_views.skip(before.len() as int), seq![(cond_key@, operator, cond_val@, is_or)], tail);
                        assert(old_views.skip(before.len() as int) + seq![(cond_key@, operator, cond_val@, is_or)]
                            =~= old_views.skip(before.len() as int).push((cond_key@, operator, cond_val@, is_or)));
                    }
                },
                None => {
                    let e = invalid_condition(parts[pi].as_str(), skill_id);
                    proof {
                        assert(pviews[pi as int] == parts@[pi as int]@);
                        assert(parts_conditions(pviews.skip(pi as int), gi > 0 && pi == 0) == Err::<Seq<ConditionView>, Seq<char>>(parts@[pi as int]@));
                        assert(parts_conditions(pviews, gi > 0) == Err::<Seq<ConditionView>, Seq<char>>(parts@[pi as int]@));
                        assert(groups_conditions(gviews.skip(gi as int), gi == 0) == Err::<Seq<ConditionView>, Seq<char>>(parts@[pi as int]@));
                        let gv = conditions@.map_values(|c: Condition| c@);
                        assert(gv =~= before + gv.skip(before.len() as int));
                        lemma_after_assoc(before, gv.skip(before.len() as int), parts_conditions(pviews.skip(pi as int), gi > 0 && pi == 0));
                    }
                    return Err(e);
                },
            }
            pi += 1;
        }
        proof {
            let cv = conditions@.map_values(|c: Condition| c@);
            assert(pviews.skip(pi as int) =~= Seq::<Seq<char>>::empty());
            assert(cv.skip(before.len() as int) + Seq::<ConditionView>::empty() =~= cv.skip(before.len() as int));
            assert(cv =~= before + cv.skip(before.len() as int));
            let rest = groups_conditions(gviews.skip(gi + 1), false);
            lemma_after_assoc(before, cv.skip(before.len() as int), rest);
        }
        gi += 1;
    }
    proof {
        assert(gviews.skip(gi as int) =~= Seq::<Seq<char>>::empty());
        let cv = conditions@.map_values(|c: Condition| c@);
        assert(cv + Seq::<ConditionView>::empty() =~= cv);
    }
    Ok(conditions)
}

} // verus!
