//! The catalogue of condition keys and what each means.
use crate::json::JsonValue;
use crate::models::skill::ConditionType;
use crate::scraping::error::{error_of, ErrorKind, ScraperError, ScraperResult};
use crate::scraping::skills::str_or_empty;
use crate::text::{trim, trim_str};
use vstd::prelude::*;

verus! {

impl View for ConditionType {
    type V = (Seq<char>, Seq<char>, Option<Seq<char>>);

    open spec fn view(&self) -> Self::V {
        (self.cond_key@, self.description@, match self.example {
            Some(e) => Some(e@),
            None => None,
        })
    }
}

/// A condition key entry: its key, its description (with the note appended
/// after a space when there is one), and its example (with the example's
/// meaning appended after ` — ` when there is one); texts are trimmed.
pub open spec fn spec_condition_item(item: JsonValue) -> Result<(Seq<char>, Seq<char>, Option<Seq<char>>), (ErrorKind, Seq<char>)> {
    match item.at("name"@).spec_as_str() {
        None => Err((ErrorKind::Parse, "missing name"@)),
        Some(key) => {
            let desc = trim(str_or_empty(item.at("desc"@)));
            let note = trim(str_or_empty(item.at("note"@)));
            let description = if note.len() == 0 { desc } else { desc + " "@ + note };
            let text = trim(str_or_empty(item.at("example"@)));
            let meaning = trim(str_or_empty(item.at("example_meaning"@)));
            let example = if text.len() == 0 {
                None
            } else if meaning.len() == 0 {
                Some(text)
            } else {
                Some(text + " — "@ + meaning)
            };
            Ok((key, description, example))
        },
    }
}

/// Trimmed text of the string field `key`, or empty text.
fn trimmed_field(item: &JsonValue, key: &str) -> (r: String)
    ensures r@ == trim(str_or_empty(item.at(key@))),
{
    proof { reveal_strlit(""); }
    match item.field_str(key) {
        Some(t) => trim_str(t),
        None => trim_str(""),
    }
}

/// Reads one entry of the condition key catalogue.
pub fn parse_condition_item(item: &JsonValue) -> (r: ScraperResult<ConditionType>)
    ensures
        match r {
            Ok(c) => spec_condition_item(*item) == Ok::<(Seq<char>, Seq<char>, Option<Seq<char>>), (ErrorKind, Seq<char>)>(c@),
            Err(e) => spec_condition_item(*item) == Err::<(Seq<char>, Seq<char>, Option<Seq<char>>), (ErrorKind, Seq<char>)>(e.report()),
        },
{
    let cond_key = match item.field_str("name") {
        Some(n) => String::from_str(n),
        None => return Err(error_of(ErrorKind::Parse, String::from_str("missing name"))),
    };
    let desc = trimmed_field(item, "desc");
    let note = trimmed_field(item, "note");
    let description = if note.unicode_len() == 0 {
        desc
    } else {
        let mut d = desc;
        d.append(" ");
        d.append(note.as_str());
        d
    };
    let text = trimmed_field(item, "example");
    let meaning = trimmed_field(item, "example_meaning");
    let example = if text.unicode_len() == 0 {
        None
    } else if meaning.unicode_len() == 0 {
        Some(text)
    } else {
        let mut e = text;
        e.append(" — ");
        e.append(meaning.as_str());
        Some(e)
    };
    Ok(ConditionType { cond_key, description, example })
}

/// The entries of the catalogue that read without error, in order.
pub open spec fn parsed_condition_items(items: Seq<JsonValue>) -> Seq<(Seq<char>, Seq<char>, Option<Seq<char>>)>
    decreases items.len(),
{
    if items.len() == 0 {
        Seq::empty()
    } else {
        let rest = parsed_condition_items(items.drop_last());
        match spec_condition_item(items.last()) {
            Ok(c) => rest.push(c),
            Err(_) => rest,
        }
    }
}

/// Reads the condition key catalogue, skipping entries that do not read.
/// Fails only when the document is not an array.
pub fn parse_skill_condition_types(root: &JsonValue) -> (r: ScraperResult<Vec<ConditionType>>)
    ensures
        match r {
            Ok(v) => root.spec_as_array() is Some
                && v@.map_values(|c: ConditionType| c@) == parsed_condition_items(root.spec_as_array().unwrap()),
            Err(e) => root.spec_as_array() is None && e.spec_kind() == ErrorKind::Parse,
        },
{
    let items = match root.as_array() {
        Some(items) => items,
        None => return Err(error_of(ErrorKind::Parse, String::from_str("failed to parse skill conditions JSON: expected an array"))),
    };
    let mut entries: Vec<ConditionType> = Vec::new();
    let mut i: usize = 0;
    while i < items.len()
        invariant
            0 <= i <= items.len(),
            entries@.map_values(|c: ConditionType| c@) == parsed_condition_items(items@.take(i as int)),
        decreases items.len() - i,
    {
        assert(items@.take(i + 1).drop_last() =~= items@.take(i as int));
        assert(items@.take(i + 1).last() == items@[i as int]);
        let ghost before = entries@.map_values(|c: ConditionType| c@);
        match parse_condition_item(&items[i]) {
            Ok(c) => {
                entries.push(c);
                assert(entries@.map_values(|c: ConditionType| c@) =~= before.push(c@));
            },
            Err(_) => {},
        }
        i += 1;
    }
    assert(items@.take(items.len() as int) =~= items@);
    Ok(entries)
}

} // verus!
