//! Character-level text operations with their meaning stated over `Seq<char>`.
use vstd::prelude::*;

verus! {

/// The characters that carry the Unicode `White_Space` property.
pub open spec fn is_ws(c: char) -> bool {
    let u = c as u32;
    ||| (0x09 <= u && u <= 0x0D)
    ||| u == 0x20
    ||| u == 0x85
    ||| u == 0xA0
    ||| u == 0x1680
    ||| (0x2000 <= u && u <= 0x200A)
    ||| u == 0x2028
    ||| u == 0x2029
    ||| u == 0x202F
    ||| u == 0x205F
    ||| u == 0x3000
}

pub open spec fn trim_start(s: Seq<char>) -> Seq<char>
    decreases s.len(),
{
    if s.len() > 0 && is_ws(s[0]) {
        trim_start(s.drop_first())
    } else {
        s
    }
}

pub open spec fn trim_end(s: Seq<char>) -> Seq<char>
    decreases s.len(),
{
    if s.len() > 0 && is_ws(s.last()) {
        trim_end(s.drop_last())
    } else {
        s
    }
}

/// `s` without leading and trailing white space.
pub open spec fn trim(s: Seq<char>) -> Seq<char> {
    trim_end(trim_start(s))
}

/// `p` occurs in `s` at position `i`.
pub open spec fn occurs_at(s: Seq<char>, p: Seq<char>, i: int) -> bool {
    0 <= i && i + p.len() <= s.len() && s.subrange(i, i + p.len()) == p
}

/// The first position at or after `i` where `p` occurs in `s`.
pub open spec fn find_from(s: Seq<char>, p: Seq<char>, i: int) -> Option<int>
    decreases s.len() + 1 - i,
{
    if i < 0 || i + p.len() > s.len() {
        None
    } else if s.subrange(i, i + p.len()) == p {
        Some(i)
    } else {
        find_from(s, p, i + 1)
    }
}

/// The first position where `p` occurs in `s`.
pub open spec fn find(s: Seq<char>, p: Seq<char>) -> Option<int> {
    find_from(s, p, 0)
}

/// The pieces of `s` between the occurrences of the non-empty separator `sep`,
/// taken from left to right.
pub open spec fn split(s: Seq<char>, sep: Seq<char>) -> Seq<Seq<char>>
    decreases s.len(),
{
    if sep.len() == 0 {
        seq![s]
    } else {
        match find(s, sep) {
            Some(i) => if 0 <= i && i + sep.len() <= s.len() {
                seq![s.take(i)] + split(s.skip(i + sep.len()), sep)
            } else {
                seq![s]
            },
            None => seq![s],
        }
    }
}

pub open spec fn is_digit(c: char) -> bool {
    '0' <= c && c <= '9'
}

pub open spec fn digit_value(c: char) -> int {
    (c as u32) - ('0' as u32)
}

pub open spec fn all_digits(s: Seq<char>) -> bool {
    forall|i: int| 0 <= i < s.len() ==> is_digit(#[trigger] s[i])
}

/// The number that a string of decimal digits denotes.
pub open spec fn digits_value(s: Seq<char>) -> int
    decreases s.len(),
{
    if s.len() == 0 {
        0
    } else {
        digits_value(s.drop_last()) * 10 + digit_value(s.last())
    }
}

/// The digits of an unsigned number, with an optional leading `+`.
pub open spec fn unsigned_digits(s: Seq<char>) -> Seq<char> {
    if s.len() > 0 && s[0] == '+' { s.drop_first() } else { s }
}

/// What the standard library's unsigned integer parsing accepts: an optional
/// `+`, then one or more decimal digits; the value, when it is at most `max`.
pub open spec fn parse_unsigned(s: Seq<char>, max: int) -> Option<int> {
    let d = unsigned_digits(s);
    if d.len() > 0 && all_digits(d) && digits_value(d) <= max {
        Some(digits_value(d))
    } else {
        None
    }
}

pub open spec fn digit_char(d: int) -> char {
    ('0' as u32 + d) as char
}

/// The decimal digits of `n`, without leading zeros.
pub open spec fn nat_str(n: nat) -> Seq<char>
    decreases n,
{
    if n < 10 {
        seq![digit_char(n as int)]
    } else {
        nat_str(n / 10) + seq![digit_char((n % 10) as int)]
    }
}

/// The decimal text of an integer, as `Display` writes it.
pub open spec fn int_str(v: int) -> Seq<char> {
    if v < 0 {
        seq!['-'] + nat_str((-v) as nat)
    } else {
        nat_str(v as nat)
    }
}

pub fn is_whitespace(c: char) -> (r: bool)
    ensures r == is_ws(c),
{
    let u = c as u32;
    (0x09 <= u && u <= 0x0D) || u == 0x20 || u == 0x85 || u == 0xA0 || u == 0x1680 || (0x2000
        <= u && u <= 0x200A) || u == 0x2028 || u == 0x2029 || u == 0x202F || u == 0x205F || u
        == 0x3000
}

proof fn lemma_trim_start_skip(s: Seq<char>, i: int)
    requires
        0 <= i <= s.len(),
        forall|j: int| 0 <= j < i ==> is_ws(#[trigger] s[j]),
    ensures
        trim_start(s) == trim_start(s.skip(i)),
    decreases i,
{
    if i > 0 {
        assert(s.drop_first().skip(i - 1) =~= s.skip(i));
        assert forall|j: int| 0 <= j < i - 1 implies is_ws(#[trigger] s.drop_first()[j]) by {
            assert(s.drop_first()[j] == s[j + 1]);
        }
        lemma_trim_start_skip(s.drop_first(), i - 1);
    } else {
        assert(s.skip(0) =~= s);
    }
}

proof fn lemma_trim_end_take(s: Seq<char>, i: int)
    requires
        0 <= i <= s.len(),
        forall|j: int| i <= j < s.len() ==> is_ws(#[trigger] s[j]),
    ensures
        trim_end(s) == trim_end(s.take(i)),
    decreases s.len() - i,
{
    if i < s.len() {
        assert(s.drop_last().take(i) =~= s.take(i));
        lemma_trim_end_take(s.drop_last(), i);
    } else {
        assert(s.take(i) =~= s);
    }
}

/// `s` without leading and trailing white space.
pub fn trim_str(s: &str) -> (r: String)
    ensures r@ == trim(s@),
{
    let n = s.unicode_len();
    let mut i: usize = 0;
    while i < n && is_whitespace(s.get_char(i))
        invariant
            n == s@.len(),
            0 <= i <= n,
            forall|j: int| 0 <= j < i ==> is_ws(#[trigger] s@[j]),
        decreases n - i,
    {
        i += 1;
    }
    let mut j: usize = n;
    while j > i && is_whitespace(s.get_char(j - 1))
        invariant
            n == s@.len(),
            0 <= i <= j <= n,
            forall|k: int| j <= k < n ==> is_ws(#[trigger] s@[k]),
        decreases j,
    {
        j -= 1;
    }
    proof {
        lemma_trim_start_skip(s@, i as int);
        let t = s@.skip(i as int);
        if i < n {
            assert(!is_ws(t[0]));
        }
        assert(trim_start(t) == t);
        assert forall|k: int| (j - i) <= k < t.len() implies is_ws(#[trigger] t[k]) by {
            assert(t[k] == s@[k + i]);
        }
        lemma_trim_end_take(t, (j - i) as int);
        let u = t.take((j - i) as int);
        if j > i {
            assert(u.last() == s@[j - 1]);
        }
        assert(trim_end(u) == u);
        assert(u =~= s@.subrange(i as int, j as int));
    }
    String::from_str(s.substring_char(i, j))
}


/// Whether `p` occurs in `s` at character position `i`.
fn matches_at(s: &str, p: &str, i: usize) -> (r: bool)
    requires
        i + p@.len() <= s@.len(),
    ensures
        r == (s@.subrange(i as int, i + p@.len()) == p@),
{
    let m = p.unicode_len();
    let n = s.unicode_len();
    let mut k: usize = 0;
    while k < m
        invariant
            m == p@.len(),
            n == s@.len(),
            i + m <= s@.len(),
            0 <= k <= m,
            forall|t: int| 0 <= t < k ==> s@[i + t] == p@[t],
        decreases m - k,
    {
        if s.get_char(i + k) != p.get_char(k) {
            assert(s@.subrange(i as int, i + p@.len())[k as int] != p@[k as int]);
            return false;
        }
        k += 1;
    }
    assert(s@.subrange(i as int, i + p@.len()) =~= p@);
    true
}

/// The first character position where `p` occurs in `s`.
pub fn find_str(s: &str, p: &str) -> (r: Option<usize>)
    ensures
        match r {
            Some(i) => find(s@, p@) == Some(i as int),
            None => find(s@, p@) is None,
        },
{
    let n = s.unicode_len();
    let m = p.unicode_len();
    if m > n {
        return None;
    }
    let mut i: usize = 0;
    loop
        invariant
            n == s@.len(),
            m == p@.len(),
            m <= n,
            0 <= i <= n - m,
            find_from(s@, p@, 0) == find_from(s@, p@, i as int),
        decreases n - m - i,
    {
        if matches_at(s, p, i) {
            return Some(i);
        }
        if i == n - m {
            assert(find_from(s@, p@, i + 1) is None);
            return None;
        }
        i += 1;
    }
}

proof fn lemma_find_bounds(s: Seq<char>, p: Seq<char>, i: int)
    ensures
        find_from(s, p, i) matches Some(k) ==> i <= k && k + p.len() <= s.len() && occurs_at(s, p, k),
    decreases s.len() + 1 - i,
{
    if !(i < 0 || i + p.len() > s.len()) && s.subrange(i, i + p.len()) != p {
        lemma_find_bounds(s, p, i + 1);
    }
}

/// The first occurrence of `p` in `s` is where `find` says it is.
pub proof fn lemma_find_occurs(s: Seq<char>, p: Seq<char>)
    ensures
        find(s, p) matches Some(k) ==> 0 <= k && k + p.len() <= s.len() && occurs_at(s, p, k),
{
    lemma_find_bounds(s, p, 0);
}

/// Whether `p` occurs in `s`.
pub fn contains_str(s: &str, p: &str) -> (r: bool)
    ensures r == find(s@, p@).is_some(),
{
    find_str(s, p).is_some()
}

/// The characters of `s` from position `from` to the end.
pub fn suffix_from(s: &str, from: usize) -> (r: &str)
    requires from <= s@.len(),
    ensures r@ == s@.skip(from as int),
{
    let n = s.unicode_len();
    let r = s.substring_char(from, n);
    assert(r@ =~= s@.skip(from as int));
    r
}

/// The characters of `s` before position `to`.
pub fn prefix_to(s: &str, to: usize) -> (r: &str)
    requires to <= s@.len(),
    ensures r@ == s@.take(to as int),
{
    let r = s.substring_char(0, to);
    assert(r@ =~= s@.take(to as int));
    r
}

/// The pieces of `s` between the occurrences of `sep`, left to right.
pub fn split_str(s: &str, sep: &str) -> (r: Vec<String>)
    requires sep@.len() > 0,
    ensures r@.map_values(|x: String| x@) == split(s@, sep@),
{
    let mut out: Vec<String> = Vec::new();
    let mut rest: &str = s;
    let ghost mut done: Seq<Seq<char>> = Seq::empty();
    loop
        invariant
            sep@.len() > 0,
            out@.map_values(|x: String| x@) == done,
            done + split(rest@, sep@) == split(s@, sep@),
        decreases rest@.len(),
    {
        proof { lemma_find_occurs(rest@, sep@); }
        match find_str(rest, sep) {
            Some(i) => {
                let piece = String::from_str(prefix_to(rest, i));
                let sep_len = sep.unicode_len();
                let rest_len = rest.unicode_len();
                assert(i + sep_len <= rest_len);
                let next = suffix_from(rest, i + sep_len);
                proof {
                    assert(split(rest@, sep@) == seq![rest@.take(i as int)] + split(next@, sep@));
                    done = done.push(piece@);
                    assert(done + split(next@, sep@) =~= (done.drop_last() + seq![piece@]) + split(next@, sep@));
                }
                out.push(piece);
                proof {
                    assert(out@.map_values(|x: String| x@) =~= done);
                }
                rest = next;
            },
            None => {
                let piece = String::from_str(rest);
                out.push(piece);
                proof {
                    assert(split(rest@, sep@) == seq![rest@]);
                    assert(out@.map_values(|x: String| x@) =~= done.push(rest@));
                    assert(done.push(rest@) =~= done + split(rest@, sep@));
                }
                return out;
            },
        }
    }
}


proof fn lemma_digits_value_prefix(d: Seq<char>, j: int)
    requires
        0 <= j <= d.len(),
        all_digits(d),
    ensures
        digits_value(d) >= digits_value(d.take(j)),
        digits_value(d) >= 0,
    decreases d.len(),
{
    if d.len() > 0 {
        let e = d.drop_last();
        assert(all_digits(e)) by {
            assert forall|i: int| 0 <= i < e.len() implies is_digit(#[trigger] e[i]) by {
                assert(e[i] == d[i]);
            }
        }
        if j == d.len() {
            assert(d.take(j) =~= d);
            lemma_digits_value_prefix(e, e.len() as int);
        } else {
            assert(e.take(j) =~= d.take(j));
            lemma_digits_value_prefix(e, j);
        }
        assert(is_digit(d.last()));
    } else {
        assert(d.take(j) =~= d);
    }
}

fn is_digit_char(c: char) -> (r: bool)
    ensures r == is_digit(c),
{
    '0' <= c && c <= '9'
}

/// Parses an unsigned decimal number no greater than `max`, as the standard
/// library's `FromStr` for unsigned integers does.
pub fn parse_unsigned_str(s: &str, max: u64) -> (r: Option<u64>)
    ensures
        match r {
            Some(v) => parse_unsigned(s@, max as int) == Some(v as int),
            None => parse_unsigned(s@, max as int) is None,
        },
{
    let n = s.unicode_len();
    let start: usize = if n > 0 && s.get_char(0) == '+' { 1 } else { 0 };
    let d = suffix_from(s, start);
    proof {
        assert(d@ =~= unsigned_digits(s@));
    }
    let m = d.unicode_len();
    if m == 0 {
        return None;
    }
    let mut acc: u64 = 0;
    let mut k: usize = 0;
    while k < m
        invariant
            m == d@.len(),
            d@ == unsigned_digits(s@),
            0 <= k <= m,
            acc <= max,
            acc as int == digits_value(d@.take(k as int)),
            all_digits(d@.take(k as int)),
        decreases m - k,
    {
        let c = d.get_char(k);
        assert(d@.take(k + 1).drop_last() =~= d@.take(k as int));
        assert(d@.take(k + 1).last() == c);
        if !is_digit_char(c) {
            assert(!is_digit(d@[k as int]));
            return None;
        }
        let dv = (c as u32 - '0' as u32) as u64;
        if acc > max / 10 || (acc == max / 10 && dv > max % 10) {
            proof {
                assert(acc * 10 + dv > max) by (nonlinear_arith)
                    requires acc > max / 10 || (acc == max / 10 && dv > max % 10), max >= 0;
                if all_digits(d@) {
                    lemma_digits_value_prefix(d@, k + 1);
                }
            }
            return None;
        }
        proof {
            assert(acc * 10 + dv <= max) by (nonlinear_arith)
                requires !(acc > max / 10 || (acc == max / 10 && dv > max % 10)), max >= 0, 0 <= dv <= 9;
        }
        acc = acc * 10 + dv;
        k += 1;
        proof {
            assert forall|i: int| 0 <= i < k implies is_digit(#[trigger] d@.take(k as int)[i]) by {
                if i < k - 1 {
                    assert(d@.take(k as int)[i] == d@.take(k - 1)[i]);
                }
            }
        }
    }
    assert(d@.take(m as int) =~= d@);
    Some(acc)
}

/// The text of a single decimal digit.
fn digit_str(d: u64) -> (r: &'static str)
    requires d < 10,
    ensures r@ == seq![digit_char(d as int)],
{
    if d == 0 { proof { reveal_strlit("0"); } "0" }
    else if d == 1 { proof { reveal_strlit("1"); } "1" }
    else if d == 2 { proof { reveal_strlit("2"); } "2" }
    else if d == 3 { proof { reveal_strlit("3"); } "3" }
    else if d == 4 { proof { reveal_strlit("4"); } "4" }
    else if d == 5 { proof { reveal_strlit("5"); } "5" }
    else if d == 6 { proof { reveal_strlit("6"); } "6" }
    else if d == 7 { proof { reveal_strlit("7"); } "7" }
    else if d == 8 { proof { reveal_strlit("8"); } "8" }
    else { proof { reveal_strlit("9"); } "9" }
}

fn append_digits(out: &mut String, n: u64)
    ensures final(out)@ == old(out)@ + nat_str(n as nat),
    decreases n,
{
    if n >= 10 {
        append_digits(out, n / 10);
    }
    out.append(digit_str(n % 10));
    proof {
        assert(final(out)@ =~= old(out)@ + nat_str(n as nat));
    }
}

/// The decimal text of an unsigned number.
pub fn u64_to_string(n: u64) -> (r: String)
    ensures r@ == nat_str(n as nat),
{
    let mut out = String::new();
    append_digits(&mut out, n);
    assert(out@ =~= nat_str(n as nat));
    out
}

/// The decimal text of a signed number.
pub fn i64_to_string(v: i64) -> (r: String)
    ensures r@ == int_str(v as int),
{
    if v < 0 {
        let mag: u64 = if v == i64::MIN { 9223372036854775808u64 } else { (-v) as u64 };
        let mut out = String::from_str("-");
        proof { reveal_strlit("-"); }
        append_digits(&mut out, mag);
        assert(out@ =~= int_str(v as int));
        out
    } else {
        u64_to_string(v as u64)
    }
}


/// The elements of `v` from position `from` to the end.
pub fn suffix_slice<T>(v: &[T], from: usize) -> (r: &[T])
    requires from <= v@.len(),
    ensures r@ == v@.skip(from as int),
{
    let r = vstd::slice::slice_subrange(v, from, v.len());
    assert(r@ =~= v@.skip(from as int));
    r
}


/// Whether two texts are equal.
pub fn str_eq(a: &str, b: &str) -> (r: bool)
    ensures r == (a@ == b@),
{
    a.to_owned() == b.to_owned()
}

} // verus!
