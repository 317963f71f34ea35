//! The trainee list of the wiki: one table row per trainee, with its icon (whose
//! file name carries the id), its name, and its English release date when it
//! has one.
use crate::ids::UmaId;
use scraper::{Html, Selector};
use crate::text::{nat_str, parse_unsigned, parse_unsigned_str, split, split_str, trim, trim_str, u64_to_string};
use vstd::prelude::*;

verus! {

/// What a table cell offers: whether it carries a `data-sort-value`
/// attribute, the `src` of its first image, and the text of its first link.
pub type CellTexts = (bool, Option<Seq<char>>, Option<Seq<char>>);

/// For each row selected by `table.wikitable tbody tr`, in document order,
/// what each of its `td` cells offers.
pub uninterp spec fn page_trainee_rows(html: Seq<char>) -> Seq<Seq<CellTexts>>;

/// Parses the HTML document with the `scraper` crate (`Html::parse_document`,
/// `Selector::parse`, `ElementRef::select`, `Element::attr`, `ElementRef::text`)
/// and hands out what the cells of the trainee rows offer. The contract names
/// the result.
#[verifier::external_body]
fn select_trainee_rows(html: &str) -> (r: Vec<Vec<(bool, Option<String>, Option<String>)>>)
    ensures
        r.deep_view() == page_trainee_rows(html@),
{
    let doc = Html::parse_document(html);
    let sel = |s: &str| Selector::parse(s).unwrap();
    let (row, td, img, a) = (sel("table.wikitable tbody tr"), sel("td"), sel("img"), sel("a"));
    doc.select(&row).map(|r| r.select(&td).map(|c| (
        c.value().attr("data-sort-value").is_some(),
        c.select(&img).next().and_then(|i| i.value().attr("src")).map(|s| s.to_string()),
        c.select(&a).next().map(|l| l.text().collect::<String>()),
    )).collect()).collect()
}

/// A trainee of the list: its id and its English name.
#[derive(Debug)]
pub struct TraineeIndexEntry {
    pub id: UmaId,
    pub name: String,
}

/// The lower-case form of `s`, as Unicode defines it.
pub uninterp spec fn lowercase(s: Seq<char>) -> Seq<char>;

/// `str::to_lowercase`: the Unicode lower-case form. The contract names the
/// result.
#[verifier::external_body]
fn to_lowercase(s: &str) -> (r: String)
    ensures
        r@ == lowercase(s@),
{
    s.to_lowercase()
}

/// `s` with each space replaced by a hyphen.
pub open spec fn hyphenate(s: Seq<char>) -> Seq<char> {
    s.map_values(|c: char| if c == ' ' { '-' } else { c })
}

fn replace_spaces(s: &str) -> (r: String)
    ensures
        r@ == hyphenate(s@),
{
    proof {
        reveal_strlit("-");
    }
    let n = s.unicode_len();
    let mut out = String::new();
    let mut i: usize = 0;
    while i < n
        invariant
            0 <= i <= n,
            n == s@.len(),
            out@ == hyphenate(s@.take(i as int)),
        decreases n - i,
    {
        let c = s.get_char(i);
        assert(s@.take(i + 1) =~= s@.take(i as int).push(c));
        assert(hyphenate(s@.take(i + 1)) =~= hyphenate(s@.take(i as int)).push(if c == ' ' { '-' } else { c }));
        if c == ' ' {
            proof {
                reveal_strlit("-");
                assert("-"@.len() == 1 && "-"@[0] == '-');
            }
            out.append("-");
            assert("-"@ =~= seq!['-']);
        } else {
            let one = s.substring_char(i, i + 1);
            assert(one@ =~= seq![c]);
            out.append(one);
        }
        assert(out@ =~= hyphenate(s@.take(i + 1)));
        i += 1;
    }
    assert(s@.take(n as int) =~= s@);
    out
}

/// The address of a trainee's page on GameTora: its id, a hyphen, and its
/// name in lower case with spaces turned into hyphens.
pub open spec fn spec_gametora_url(id: u32, name: Seq<char>) -> Seq<char> {
    "https://gametora.com/umamusume/characters/"@ + nat_str(id as nat) + "-"@ + hyphenate(lowercase(name))
}

impl TraineeIndexEntry {
    /// The address of the trainee's page on GameTora.
    pub fn gametora_url(&self) -> (r: String)
        ensures
            r@ == spec_gametora_url(self.id.0, self.name@),
    {
        let lower = to_lowercase(self.name.as_str());
        let slug = replace_spaces(lower.as_str());
        let mut url = String::from_str("https://gametora.com/umamusume/characters/");
        let id = u64_to_string(self.id.0 as u64);
        url.append(id.as_str());
        url.append("-");
        url.append(slug.as_str());
        url
    }
}

/// The id that an icon's file name carries: the text after the first
/// `Icon_` and before the next `.`, as a number.
pub open spec fn icon_id(src: Seq<char>) -> Option<u32> {
    let parts = split(src, "Icon_"@);
    if parts.len() < 2 {
        None
    } else {
        match parse_unsigned(split(parts[1], "."@)[0], u32::MAX as int) {
            Some(v) => Some(v as u32),
            None => None,
        }
    }
}

/// The trainee of a row: rows with fewer than five cells, rows without an
/// English release (no `data-sort-value` on the fifth cell), and rows whose
/// icon or name cannot be read are skipped.
pub open spec fn trainee_of_row(cells: Seq<CellTexts>) -> Option<(u32, Seq<char>)> {
    if cells.len() < 5 || !cells[4].0 {
        None
    } else {
        match cells[0].1 {
            None => None,
            Some(src) => match icon_id(src) {
                None => None,
                Some(id) => match cells[2].2 {
                    Some(t) if trim(t).len() > 0 => Some((id, trim(t))),
                    _ => None,
                },
            },
        }
    }
}

pub open spec fn trainees_of_rows(rows: Seq<Seq<CellTexts>>) -> Seq<(u32, Seq<char>)>
    decreases rows.len(),
{
    if rows.len() == 0 {
        Seq::empty()
    } else {
        let before = trainees_of_rows(rows.drop_last());
        match trainee_of_row(rows.last()) {
            Some(t) => before.push(t),
            None => before,
        }
    }
}

pub open spec fn entry_view(e: TraineeIndexEntry) -> (u32, Seq<char>) {
    (e.id.0, e.name@)
}

proof fn lemma_split_nonempty(s: Seq<char>, sep: Seq<char>)
    ensures
        split(s, sep).len() >= 1,
{
    if sep.len() > 0 {
        match crate::text::find(s, sep) {
            Some(i) => {},
            None => {},
        }
    }
}

/// The id carried by an icon's file name.
fn parse_icon_id(src: &str) -> (r: Option<u32>)
    ensures
        r == icon_id(src@),
{
    proof {
        reveal_strlit("Icon_");
        reveal_strlit(".");
    }
    let parts = split_str(src, "Icon_");
    proof {
        assert(parts@.map_values(|x: String| x@).len() == parts.len());
    }
    if parts.len() < 2 {
        return None;
    }
    let pieces = split_str(parts[1].as_str(), ".");
    proof {
        lemma_split_nonempty(parts@[1]@, "."@);
        assert(pieces@.map_values(|x: String| x@).len() == pieces.len());
        assert(pieces@.map_values(|x: String| x@)[0] == pieces@[0]@);
        assert(parts@.map_values(|x: String| x@)[1] == parts@[1]@);
    }
    match parse_unsigned_str(pieces[0].as_str(), 0xFFFF_FFFF) {
        Some(v) => Some(v as u32),
        None => None,
    }
}

/// The trainees listed by the rows, in order.
pub fn parse_trainee_rows(rows: &Vec<Vec<(bool, Option<String>, Option<String>)>>) -> (r: Vec<TraineeIndexEntry>)
    ensures
        r@.map_values(|e: TraineeIndexEntry| entry_view(e)) == trainees_of_rows(rows.deep_view()),
{
    let ghost rv = rows.deep_view();
    let mut out: Vec<TraineeIndexEntry> = Vec::new();
    let mut i: usize = 0;
    while i < rows.len()
        invariant
            0 <= i <= rows.len(),
            rv == rows.deep_view(),
            out@.map_values(|e: TraineeIndexEntry| entry_view(e)) == trainees_of_rows(rv.take(i as int)),
        decreases rows.len() - i,
    {
        assert(rv.take(i + 1).drop_last() =~= rv.take(i as int));
        assert(rv.take(i + 1).last() == rows@[i as int].deep_view());
        let cells = &rows[i];
        let ghost cv = rv[i as int];
        if cells.len() >= 5 && cells[4].0 {
            assert(cv[4].0 == cells@[4].0);
            assert(cv[0].1 == cells@[0].1.deep_view());
            assert(cv[2].2 == cells@[2].2.deep_view());
            match &cells[0].1 {
                Some(src) => match parse_icon_id(src.as_str()) {
                    Some(id) => match &cells[2].2 {
                        Some(t) => {
                            let name = trim_str(t.as_str());
                            if name.unicode_len() > 0 {
                                out.push(TraineeIndexEntry { id: UmaId(id), name });
                            }
                        },
                        None => {},
                    },
                    None => {},
                },
                None => {},
            }
        }
        i += 1;
        assert(out@.map_values(|e: TraineeIndexEntry| entry_view(e)) =~= trainees_of_rows(rv.take(i as int)));
    }
    assert(rv.take(rows.len() as int) =~= rv);
    out
}

/// Parses the trainee list page of the wiki: the trainees released in the
/// English version, in the order of the table.
pub fn parse_trainee_index(html: &str) -> (r: Vec<TraineeIndexEntry>)
    ensures
        r@.map_values(|e: TraineeIndexEntry| entry_view(e)) == trainees_of_rows(page_trainee_rows(html@)),
{
    let rows = select_trainee_rows(html);
    parse_trainee_rows(&rows)
}

} // verus!
