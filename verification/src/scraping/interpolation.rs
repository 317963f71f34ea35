//! Support card effect values between the level breakpoints of the effects matrix.
use crate::models::support_card::Rarity;
use vstd::prelude::*;

verus! {

/// The level of the `i`-th column of the effects matrix:
/// 1, 5, 10, 15, 20, 25, 30, 35, 40, 45, 50.
pub open spec fn breakpoint_level(i: int) -> u32 {
    if i == 0 { 1 } else { (5 * i) as u32 }
}

/// The number of columns of the effects matrix.
pub const BREAKPOINT_COUNT: usize = 11;

fn level_of_column(i: usize) -> (r: u32)
    requires i < BREAKPOINT_COUNT,
    ensures r == breakpoint_level(i as int),
{
    if i == 0 { 1 } else { 5 * (i as u32) }
}

pub open spec fn spec_lb_levels(rarity: Rarity) -> Seq<u32> {
    match rarity {
        Rarity::R => seq![20u32, 25, 30, 35, 40],
        Rarity::SR => seq![25u32, 30, 35, 40, 45],
        Rarity::SSR => seq![30u32, 35, 40, 45, 50],
    }
}

/// The card levels at limit breaks 0 to 3 and at the maximum limit break.
pub fn lb_levels_for_rarity(rarity: &Rarity) -> (r: [u32; 5])
    ensures r@ == spec_lb_levels(*rarity),
{
    let r = match rarity {
        Rarity::R => [20, 25, 30, 35, 40],
        Rarity::SR => [25, 30, 35, 40, 45],
        Rarity::SSR => [30, 35, 40, 45, 50],
    };
    assert(r@ =~= spec_lb_levels(*rarity));
    r
}

/// The defined breakpoints of a matrix row, in column order: the level of
/// each column whose value is not `-1`, with that value.
pub open spec fn breakpoints(values: Seq<i64>) -> Seq<(u32, i64)>
    decreases values.len(),
{
    if values.len() == 0 {
        Seq::empty()
    } else {
        let rest = breakpoints(values.drop_last());
        if values.last() != -1 {
            rest.push((breakpoint_level(values.len() - 1), values.last()))
        } else {
            rest
        }
    }
}

/// The first breakpoint whose level is `level`.
pub open spec fn first_at_level(bps: Seq<(u32, i64)>, level: u32) -> Option<int>
    decreases bps.len(),
{
    if bps.len() == 0 {
        None
    } else if bps[0].0 == level {
        Some(0)
    } else {
        match first_at_level(bps.drop_first(), level) {
            Some(k) => Some(k + 1),
            None => None,
        }
    }
}

/// The first breakpoint whose level is above `level`.
pub open spec fn first_above_level(bps: Seq<(u32, i64)>, level: u32) -> Option<int>
    decreases bps.len(),
{
    if bps.len() == 0 {
        None
    } else if bps[0].0 > level {
        Some(0)
    } else {
        match first_above_level(bps.drop_first(), level) {
            Some(k) => Some(k + 1),
            None => None,
        }
    }
}

/// The segment of the breakpoints that surrounds `level`: the index of its
/// upper end, when `level` lies strictly between two defined breakpoints.
pub open spec fn segment(bps: Seq<(u32, i64)>, level: u32) -> Option<int> {
    if bps.len() == 0 || first_at_level(bps, level) is Some || level < bps[0].0
        || level > bps.last().0 {
        None
    } else {
        first_above_level(bps, level)
    }
}

/// The value between the ends of segment `u`, by linear interpolation,
/// floored (the segment's length is positive, so `/` is floor division).
pub open spec fn segment_value(bps: Seq<(u32, i64)>, u: int, level: u32) -> int {
    let lo = bps[u - 1];
    let hi = bps[u];
    lo.1 + ((hi.1 - lo.1) * (level - lo.0)) / (hi.0 - lo.0)
}

/// The effect value at `level` that the breakpoints define.
pub open spec fn interpolation(bps: Seq<(u32, i64)>, level: u32) -> int {
    if bps.len() == 0 {
        0
    } else if first_at_level(bps, level) is Some {
        bps[first_at_level(bps, level).unwrap()].1 as int
    } else if level < bps[0].0 {
        0
    } else if level > bps.last().0 {
        bps.last().1 as int
    } else {
        segment_value(bps, first_above_level(bps, level).unwrap(), level)
    }
}

/// The matrix row can be read: no column past the last breakpoint column holds a value.
pub open spec fn row_in_columns(values: Seq<i64>) -> bool {
    forall|i: int| BREAKPOINT_COUNT <= i < values.len() ==> values[i] == -1
}

/// The arithmetic of the interpolation at `level` stays within `i64`.
pub open spec fn interpolation_fits(values: Seq<i64>, level: u32) -> bool {
    let bps = breakpoints(values);
    match segment(bps, level) {
        Some(u) => {
            let delta = bps[u].1 - bps[u - 1].1;
            &&& i64::MIN <= delta <= i64::MAX
            &&& i64::MIN <= delta * (level - bps[u - 1].0) <= i64::MAX
        },
        None => true,
    }
}


proof fn lemma_first_at_level_found(bps: Seq<(u32, i64)>, level: u32, k: int)
    requires
        0 <= k < bps.len(),
        bps[k].0 == level,
        forall|j: int| 0 <= j < k ==> bps[j].0 != level,
    ensures
        first_at_level(bps, level) == Some(k),
    decreases k,
{
    if k > 0 {
        lemma_first_at_level_found(bps.drop_first(), level, k - 1);
    }
}

proof fn lemma_first_at_level_none(bps: Seq<(u32, i64)>, level: u32)
    requires
        forall|j: int| 0 <= j < bps.len() ==> bps[j].0 != level,
    ensures
        first_at_level(bps, level) is None,
    decreases bps.len(),
{
    if bps.len() > 0 {
        lemma_first_at_level_none(bps.drop_first(), level);
    }
}

proof fn lemma_first_above_level_found(bps: Seq<(u32, i64)>, level: u32, k: int)
    requires
        0 <= k < bps.len(),
        bps[k].0 > level,
        forall|j: int| 0 <= j < k ==> bps[j].0 <= level,
    ensures
        first_above_level(bps, level) == Some(k),
    decreases k,
{
    if k > 0 {
        lemma_first_above_level_found(bps.drop_first(), level, k - 1);
    }
}

/// A quotient of `delta * steps` by a longer segment lies between 0 and `delta`.
proof fn lemma_partial_step(delta: int, steps: int, len: int)
    requires
        0 <= steps < len,
    ensures
        delta >= 0 ==> 0 <= (delta * steps) / len <= delta,
        delta < 0 ==> delta <= (delta * steps) / len <= 0,
{
    if delta >= 0 {
        assert(0 <= delta * steps <= delta * len) by (nonlinear_arith)
            requires delta >= 0, 0 <= steps < len;
        assert((delta * steps) / len <= delta) by (nonlinear_arith)
            requires delta >= 0, 0 <= steps < len, 0 <= delta * steps <= delta * len;
        assert((delta * steps) / len >= 0) by (nonlinear_arith)
            requires 0 <= delta * steps, len > 0;
    } else {
        assert(delta * len <= delta * steps <= 0) by (nonlinear_arith)
            requires delta < 0, 0 <= steps < len;
        assert((delta * len) / len == delta) by (nonlinear_arith)
            requires len > 0;
        vstd::arithmetic::div_mod::lemma_div_is_ordered(delta * len, delta * steps, len);
        vstd::arithmetic::div_mod::lemma_div_is_ordered(delta * steps, 0, len);
    }
}

/// Floor division of `p` by a positive `l`, in machine integers.
fn floor_div(p: i128, l: i128) -> (q: i128)
    requires
        l > 0,
        -0x1_0000_0000_0000_0000_0000_0000 <= p <= 0x1_0000_0000_0000_0000_0000_0000,
        l <= 0x1_0000_0000,
    ensures
        q == p / l,
{
    if p >= 0 {
        p / l
    } else {
        let a: i128 = -p;
        let c: i128 = (a + l - 1) / l;
        let q: i128 = -c;
        proof {
            let (pi, li, ai, ci, qi) = (p as int, l as int, a as int, c as int, q as int);
            let r = pi - qi * li;
            assert(ci * li <= ai + li - 1 < ci * li + li) by (nonlinear_arith)
                requires ci == (ai + li - 1) / li, li > 0, ai + li - 1 >= 0;
            assert(0 <= r < li) by (nonlinear_arith)
                requires r == pi - qi * li, qi == -ci, ai == -pi, ci * li <= ai + li - 1 < ci * li + li;
            vstd::arithmetic::div_mod::lemma_fundamental_div_mod_converse_div(pi, li, qi, r);
        }
        q
    }
}

/// Interpolates an effect value at `target_level` linearly between the two
/// surrounding breakpoints of the effects matrix row `matrix_values`,
/// floored. A value of `-1` marks a column without a breakpoint.
/// Returns 0 when no breakpoint is defined or the level lies below the first
/// one, and the last breakpoint's value when the level lies above the last.
pub fn interpolate_effect(matrix_values: &[i64], target_level: u32) -> (r: i64)
    requires
        row_in_columns(matrix_values@),
        interpolation_fits(matrix_values@, target_level),
    ensures
        r == interpolation(breakpoints(matrix_values@), target_level),
{
    let mut bps: Vec<(u32, i64)> = Vec::new();
    let n = matrix_values.len();
    let mut i: usize = 0;
    while i < n
        invariant
            n == matrix_values@.len(),
            0 <= i <= n,
            row_in_columns(matrix_values@),
            bps@ == breakpoints(matrix_values@.take(i as int)),
        decreases n - i,
    {
        let v = matrix_values[i];
        assert(matrix_values@.take(i + 1).drop_last() =~= matrix_values@.take(i as int));
        if v != -1 {
            bps.push((level_of_column(i), v));
        }
        i += 1;
    }
    assert(matrix_values@.take(n as int) =~= matrix_values@);
    let ghost all = bps@;
    let m = bps.len();
    if m == 0 {
        return 0;
    }
    let mut k: usize = 0;
    while k < m
        invariant
            m == bps@.len(),
            bps@ == breakpoints(matrix_values@),
            0 <= k <= m,
            forall|j: int| 0 <= j < k ==> bps@[j].0 != target_level,
        decreases m - k,
    {
        if bps[k].0 == target_level {
            proof { lemma_first_at_level_found(bps@, target_level, k as int); }
            return bps[k].1;
        }
        k += 1;
    }
    proof { lemma_first_at_level_none(bps@, target_level); }
    if target_level < bps[0].0 {
        return 0;
    }
    if target_level > bps[m - 1].0 {
        return bps[m - 1].1;
    }
    let mut u: usize = 0;
    while bps[u].0 <= target_level
        invariant
            m == bps@.len(),
            bps@ == breakpoints(matrix_values@),
            0 <= u < m,
            bps@[m - 1].0 > target_level,
            forall|j: int| 0 <= j < u ==> bps@[j].0 <= target_level,
        decreases m - u,
    {
        u += 1;
    }
    proof {
        lemma_first_above_level_found(bps@, target_level, u as int);
        assert(u > 0);
    }
    let (lo_lvl, lo_val) = bps[u - 1];
    let (hi_lvl, hi_val) = bps[u];
    proof {
        assert(segment(bps@, target_level) == Some(u as int));
    }
    let delta = hi_val - lo_val;
    let segment_len = (hi_lvl - lo_lvl) as i64;
    let steps_from_lo = (target_level - lo_lvl) as i64;
    let product = delta * steps_from_lo;
    let q = floor_div(product as i128, segment_len as i128);
    proof {
        lemma_partial_step(delta as int, steps_from_lo as int, segment_len as int);
    }
    lo_val + q as i64
}


/// Whether no column past the last breakpoint column holds a value.
pub fn row_is_in_columns(values: &[i64]) -> (r: bool)
    ensures
        r == row_in_columns(values@),
{
    let mut i: usize = BREAKPOINT_COUNT;
    while i < values.len()
        invariant
            BREAKPOINT_COUNT <= i,
            forall|j: int| BREAKPOINT_COUNT <= j < i && j < values@.len() ==> values@[j] == -1,
        decreases values.len() - i,
    {
        if values[i] != -1 {
            return false;
        }
        i += 1;
    }
    true
}

/// Whether interpolating the row at `level` stays within `i64`.
pub fn interpolation_fits_at(values: &[i64], level: u32) -> (r: bool)
    requires
        row_in_columns(values@),
    ensures
        r == interpolation_fits(values@, level),
{
    let mut bps: Vec<(u32, i64)> = Vec::new();
    let n = values.len();
    let mut i: usize = 0;
    while i < n
        invariant
            n == values@.len(),
            0 <= i <= n,
            row_in_columns(values@),
            bps@ == breakpoints(values@.take(i as int)),
        decreases n - i,
    {
        let v = values[i];
        assert(values@.take(i + 1).drop_last() =~= values@.take(i as int));
        if v != -1 {
            bps.push((level_of_column(i), v));
        }
        i += 1;
    }
    assert(values@.take(n as int) =~= values@);
    let m = bps.len();
    if m == 0 {
        return true;
    }
    let mut k: usize = 0;
    while k < m
        invariant
            m == bps@.len(),
            bps@ == breakpoints(values@),
            0 <= k <= m,
            forall|j: int| 0 <= j < k ==> bps@[j].0 != level,
        decreases m - k,
    {
        if bps[k].0 == level {
            proof { lemma_first_at_level_found(bps@, level, k as int); }
            return true;
        }
        k += 1;
    }
    proof { lemma_first_at_level_none(bps@, level); }
    if level < bps[0].0 || level > bps[m - 1].0 {
        return true;
    }
    let mut u: usize = 0;
    while bps[u].0 <= level
        invariant
            m == bps@.len(),
            bps@ == breakpoints(values@),
            0 <= u < m,
            bps@[m - 1].0 > level,
            forall|j: int| 0 <= j < u ==> bps@[j].0 <= level,
        decreases m - u,
    {
        u += 1;
    }
    proof {
        lemma_first_above_level_found(bps@, level, u as int);
        assert(segment(bps@, level) == Some(u as int));
    }
    let (lo_lvl, lo_val) = bps[u - 1];
    let (_hi_lvl, hi_val) = bps[u];
    let delta: i128 = hi_val as i128 - lo_val as i128;
    if delta < i64::MIN as i128 || delta > i64::MAX as i128 {
        return false;
    }
    let steps: i128 = level as i128 - lo_lvl as i128;
    assert(0 <= steps <= 0x1_0000_0000);
    assert(-0x8000_0000_0000_0000_0000_0000 <= delta * steps <= 0x8000_0000_0000_0000_0000_0000) by (nonlinear_arith)
        requires
            -0x8000_0000_0000_0000 <= delta <= 0x8000_0000_0000_0000,
            0 <= steps <= 0x1_0000_0000;
    let product: i128 = delta * steps;
    product >= i64::MIN as i128 && product <= i64::MAX as i128
}


proof fn lemma_first_above_level_props(bps: Seq<(u32, i64)>, level: u32)
    requires
        first_above_level(bps, level) is Some,
    ensures
        0 <= first_above_level(bps, level).unwrap() < bps.len(),
        bps[first_above_level(bps, level).unwrap()].0 > level,
        forall|j: int| 0 <= j < first_above_level(bps, level).unwrap() ==> bps[j].0 <= level,
    decreases bps.len(),
{
    if bps[0].0 <= level {
        lemma_first_above_level_props(bps.drop_first(), level);
        let k = first_above_level(bps.drop_first(), level).unwrap();
        assert forall|j: int| 0 <= j < k + 1 implies bps[j].0 <= level by {
            if j > 0 {
                assert(bps[j] == bps.drop_first()[j - 1]);
            }
        }
    }
}

proof fn lemma_first_at_level_absent(bps: Seq<(u32, i64)>, level: u32, j: int)
    requires
        first_at_level(bps, level) is None,
        0 <= j < bps.len(),
    ensures
        bps[j].0 != level,
    decreases bps.len(),
{
    if j > 0 {
        lemma_first_at_level_absent(bps.drop_first(), level, j - 1);
    }
}

/// Between two defined breakpoints the value moves from one breakpoint's
/// value toward the other's and never past either: it lies between the
/// values of the breakpoints that surround the level.
pub proof fn law_interpolation_between_breakpoints(values: Seq<i64>, level: u32)
    requires
        segment(breakpoints(values), level) is Some,
    ensures
        ({
            let bps = breakpoints(values);
            let u = segment(bps, level).unwrap();
            let lo = bps[u - 1].1 as int;
            let hi = bps[u].1 as int;
            &&& 1 <= u < bps.len()
            &&& bps[u - 1].0 < level < bps[u].0
            &&& lo <= hi ==> lo <= interpolation(bps, level) <= hi
            &&& hi < lo ==> hi <= interpolation(bps, level) <= lo
        }),
{
    let bps = breakpoints(values);
    lemma_first_above_level_props(bps, level);
    let u = first_above_level(bps, level).unwrap();
    lemma_first_at_level_absent(bps, level, 0);
    assert(u >= 1);
    lemma_first_at_level_absent(bps, level, u - 1);
    let lo = bps[u - 1];
    let hi = bps[u];
    lemma_partial_step(hi.1 - lo.1, level - lo.0, hi.0 - lo.0);
}

} // verus!
