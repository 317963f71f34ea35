//! The racetrack roster.
use crate::json::JsonValue;
use crate::models::racetrack::{Racetrack, RacetrackName};
use crate::scraping::error::{error_of, ErrorKind, ScraperError, ScraperResult};
use crate::text::nat_str;
use vstd::prelude::*;

verus! {

pub open spec fn spec_racetrack_name(id: u32) -> Option<RacetrackName> {
    if id == 10001 { Some(RacetrackName::Sapporo) }
    else if id == 10002 { Some(RacetrackName::Hakodate) }
    else if id == 10003 { Some(RacetrackName::Niigata) }
    else if id == 10004 { Some(RacetrackName::Fukushima) }
    else if id == 10005 { Some(RacetrackName::Nakayama) }
    else if id == 10006 { Some(RacetrackName::Tokyo) }
    else if id == 10007 { Some(RacetrackName::Chukyo) }
    else if id == 10008 { Some(RacetrackName::Kyoto) }
    else if id == 10009 { Some(RacetrackName::Hanshin) }
    else if id == 10010 { Some(RacetrackName::Kokura) }
    else if id == 10101 { Some(RacetrackName::Ooi) }
    else if id == 10103 { Some(RacetrackName::Kawasaki) }
    else if id == 10104 { Some(RacetrackName::Funabashi) }
    else if id == 10105 { Some(RacetrackName::Morioka) }
    else if id == 10201 { Some(RacetrackName::Longchamp) }
    else if id == 10202 { Some(RacetrackName::SantaAnitaPark) }
    else if id == 10203 { Some(RacetrackName::DelMar) }
    else { None }
}

/// The racetrack that a racetrack id names.
pub fn parse_racetrack_name(racetrack_id: u32) -> (r: ScraperResult<RacetrackName>)
    ensures
        match r {
            Ok(n) => spec_racetrack_name(racetrack_id) == Some(n),
            Err(e) => spec_racetrack_name(racetrack_id) is None
                && e.report() == (ErrorKind::UnknownValue, "racetrack_id "@ + nat_str(racetrack_id as nat)),
        },
{
    match racetrack_id {
        10001 => Ok(RacetrackName::Sapporo),
        10002 => Ok(RacetrackName::Hakodate),
        10003 => Ok(RacetrackName::Niigata),
        10004 => Ok(RacetrackName::Fukushima),
        10005 => Ok(RacetrackName::Nakayama),
        10006 => Ok(RacetrackName::Tokyo),
        10007 => Ok(RacetrackName::Chukyo),
        10008 => Ok(RacetrackName::Kyoto),
        10009 => Ok(RacetrackName::Hanshin),
        10010 => Ok(RacetrackName::Kokura),
        10101 => Ok(RacetrackName::Ooi),
        10103 => Ok(RacetrackName::Kawasaki),
        10104 => Ok(RacetrackName::Funabashi),
        10105 => Ok(RacetrackName::Morioka),
        10201 => Ok(RacetrackName::Longchamp),
        10202 => Ok(RacetrackName::SantaAnitaPark),
        10203 => Ok(RacetrackName::DelMar),
        _ => {
            let msg = crate::scraping::skills::text_num_text("racetrack_id ", racetrack_id as u64, "");
            proof { reveal_strlit(""); assert(msg@ =~= "racetrack_id "@ + nat_str(racetrack_id as nat)); }
            Err(error_of(ErrorKind::UnknownValue, msg))
        },
    }
}

/// Reads one racetrack entry. Racetrack details are not read yet: every
/// entry gives an empty racetrack.
pub fn parse_racetrack(item: &JsonValue) -> (r: ScraperResult<Racetrack>)
    ensures
        r is Ok,
        r->Ok_0.spec_course_count() == 0,
        r->Ok_0.spec_name().len() == 0,
        r->Ok_0.spec_id().len() == 0,
{
    Ok(Racetrack::empty())
}

/// Reads the racetrack list: one racetrack per entry. Fails only when the
/// document is not an array.
pub fn parse_racetrack_roster(root: &JsonValue) -> (r: ScraperResult<Vec<Racetrack>>)
    ensures
        match r {
            Ok(v) => root.spec_as_array() is Some && v@.len() == root.spec_as_array().unwrap().len()
                && forall|i: int| 0 <= i < v@.len() ==> {
                    &&& (#[trigger] v@[i]).spec_course_count() == 0
                    &&& v@[i].spec_name().len() == 0
                    &&& v@[i].spec_id().len() == 0
                },
            Err(e) => root.spec_as_array() is None && e.spec_kind() == ErrorKind::Parse,
        },
{
    let items = match root.as_array() {
        Some(items) => items,
        None => return Err(error_of(ErrorKind::Parse, String::from_str("failed to parse racetracks JSON: expected an array"))),
    };
    let mut racetracks: Vec<Racetrack> = Vec::new();
    let mut i: usize = 0;
    while i < items.len()
        invariant
            0 <= i <= items.len(),
            racetracks@.len() == i,
            forall|j: int| 0 <= j < racetracks@.len() ==> {
                &&& (#[trigger] racetracks@[j]).spec_course_count() == 0
                &&& racetracks@[j].spec_name().len() == 0
                &&& racetracks@[j].spec_id().len() == 0
            },
        decreases items.len() - i,
    {
        match parse_racetrack(&items[i]) {
            Ok(t) => racetracks.push(t),
            Err(_) => {},
        }
        i += 1;
    }
    Ok(racetracks)
}

} // verus!
