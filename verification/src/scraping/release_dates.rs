//! Predicted release dates of cards not yet released in the English version.
use crate::dates::{chrono_iso_date, parse_iso_date, Date};
use crate::json::JsonValue;
use crate::scraping::error::{error_of, ErrorKind, ScraperError, ScraperResult};
use crate::text::{parse_unsigned, parse_unsigned_str};
use std::collections::HashMap;
use vstd::prelude::*;

verus! {

broadcast use vstd::std_specs::hash::group_hash_axioms;

pub open spec fn date_of(ymd: (i32, u32, u32)) -> Date {
    Date { year: ymd.0, month: ymd.1, day: ymd.2 }
}

/// The dates of the members `entries`, each keyed by its numeric name and
/// inserted in order into `acc`; or the error of the first member that fails.
pub open spec fn predicted_from(
    entries: Seq<(String, JsonValue)>,
    key: Seq<char>,
    acc: Map<u32, Date>,
) -> Result<Map<u32, Date>, (ErrorKind, Seq<char>)>
    decreases entries.len(),
{
    if entries.len() == 0 {
        Ok(acc)
    } else {
        let name = entries[0].0@;
        match parse_unsigned(name, u32::MAX as int) {
            None => Err((ErrorKind::UnknownValue, "non-numeric "@ + key + " key: "@ + name)),
            Some(id) => match entries[0].1.at("release_date"@).spec_as_str() {
                None => Err((ErrorKind::MissingField, "release_date for "@ + name)),
                Some(ds) => match chrono_iso_date(ds) {
                    Err(e) => Err((ErrorKind::InvalidDate, "invalid release_date for "@ + name + ": "@ + e)),
                    Ok(ymd) => predicted_from(entries.drop_first(), key, acc.insert(id as u32, date_of(ymd))),
                },
            },
        }
    }
}

/// The predicted release dates under the object member `key` of the document.
pub open spec fn spec_predicted_release_dates(root: JsonValue, key: Seq<char>) -> Result<Map<u32, Date>, (ErrorKind, Seq<char>)> {
    match root.at(key).spec_as_object() {
        None => Err((ErrorKind::MissingField, key)),
        Some(entries) => predicted_from(entries, key, Map::empty()),
    }
}

/// Reads the predicted release dates listed under the member `key` of the
/// document: an object from card ids to entries with a `release_date` of the
/// form `%Y-%m-%d`. The first malformed entry fails the whole document.
pub fn parse_predicted_release_dates(root: &JsonValue, key: &str) -> (r: ScraperResult<HashMap<u32, Date>>)
    ensures
        match r {
            Ok(m) => spec_predicted_release_dates(*root, key@) == Ok::<Map<u32, Date>, (ErrorKind, Seq<char>)>(m@),
            Err(e) => spec_predicted_release_dates(*root, key@) == Err::<Map<u32, Date>, (ErrorKind, Seq<char>)>(e.report()),
        },
{
    let entries = match root.get(key) {
        Some(v) => match v.as_object() {
            Some(e) => e,
            None => return Err(error_of(ErrorKind::MissingField, String::from_str(key))),
        },
        None => return Err(error_of(ErrorKind::MissingField, String::from_str(key))),
    };
    let mut map: HashMap<u32, Date> = HashMap::new();
    let mut i: usize = 0;
    proof {
        assert(entries@.skip(0) =~= entries@);
        assert(map@ =~= Map::<u32, Date>::empty());
    }
    while i < entries.len()
        invariant
            0 <= i <= entries.len(),
            root.at(key@).spec_as_object() == Some(entries@),
            spec_predicted_release_dates(*root, key@) == predicted_from(entries@.skip(i as int), key@, map@),
        decreases entries.len() - i,
    {
        let (name, entry) = (&entries[i].0, &entries[i].1);
        assert(entries@.skip(i as int)[0] == entries@[i as int]);
        assert(entries@.skip(i as int).drop_first() =~= entries@.skip(i + 1));
        let id = match parse_unsigned_str(name.as_str(), 4294967295u64) {
            Some(n) => n as u32,
            None => {
                let mut msg = String::from_str("non-numeric ");
                msg.append(key);
                msg.append(" key: ");
                msg.append(name.as_str());
                return Err(error_of(ErrorKind::UnknownValue, msg));
            },
        };
        let date_str = match entry.field_str("release_date") {
            Some(t) => t,
            None => {
                let mut msg = String::from_str("release_date for ");
                msg.append(name.as_str());
                return Err(error_of(ErrorKind::MissingField, msg));
            },
        };
        let date = match parse_iso_date(date_str) {
            Ok(d) => d,
            Err(e) => {
                let mut msg = String::from_str("invalid release_date for ");
                msg.append(name.as_str());
                msg.append(": ");
                msg.append(e.as_str());
                return Err(error_of(ErrorKind::InvalidDate, msg));
            },
        };
        map.insert(id, date);
        i += 1;
    }
    Ok(map)
}

} // verus!
