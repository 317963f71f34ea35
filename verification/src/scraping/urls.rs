//! Data file URLs, resolved through the content hashes of the manifest.
use crate::json::{lookup, JsonValue};
use crate::scraping::error::{error_of, ErrorKind, ScraperError, ScraperResult};
use vstd::prelude::*;

verus! {

/// The location of the manifest of data files.
pub const MANIFEST_URL: &'static str = "https://gametora.com/data/manifests/umamusume.json";

/// The base location of the data files.
pub const BASE_URL: &'static str = "https://gametora.com/data/umamusume";

/// Every member of the manifest maps its key to a string (a content hash).
pub open spec fn all_strings(entries: Seq<(String, JsonValue)>) -> bool {
    forall|i: int| 0 <= i < entries.len() ==> (#[trigger] entries[i]).1 is Str
}

/// The URL of the data file `path` with content hash `hash`.
pub open spec fn data_url(base: Seq<char>, path: Seq<char>, hash: Seq<char>) -> Seq<char> {
    base + "/"@ + path + "."@ + hash + ".json"@
}

/// What resolving `key` and `path` against the manifest document gives: the
/// data URL, a JSON error when the manifest is not an object of strings, or a
/// parse error when `key` is missing.
pub open spec fn spec_resolve(manifest: JsonValue, key: Seq<char>, path: Seq<char>) -> Result<Seq<char>, ErrorKind> {
    match manifest.spec_as_object() {
        Some(entries) if all_strings(entries) => match lookup(entries, key) {
            Some(JsonValue::Str(h)) => Ok(data_url(BASE_URL@, path, h@)),
            _ => Err(ErrorKind::Parse),
        },
        _ => Err(ErrorKind::Json),
    }
}

/// Resolves the URL of the data file `path` from the manifest document: the
/// file name carries the hash that the manifest lists under `key`.
pub fn resolve_url_from_manifest(manifest: &JsonValue, key: &str, path: &str) -> (r: ScraperResult<String>)
    ensures
        match r {
            Ok(u) => spec_resolve(*manifest, key@, path@) == Ok::<Seq<char>, ErrorKind>(u@),
            Err(e) => spec_resolve(*manifest, key@, path@) == Err::<Seq<char>, ErrorKind>(e.spec_kind())
                && (e.spec_kind() == ErrorKind::Parse ==> e.spec_detail() == "Key '"@ + key@ + "' not found in manifest"@),
        },
{
    let entries = match manifest.as_object() {
        Some(entries) => entries,
        None => {
            return Err(error_of(ErrorKind::Json, String::from_str("invalid type: expected a map of strings")));
        },
    };
    let mut j: usize = 0;
    while j < entries.len()
        invariant
            0 <= j <= entries.len(),
            manifest.spec_as_object() == Some(entries@),
            forall|t: int| 0 <= t < j ==> (#[trigger] entries@[t]).1 is Str,
        decreases entries.len() - j,
    {
        match &entries[j].1 {
            JsonValue::Str(_) => {},
            _ => {
                assert(!(entries@[j as int].1 is Str));
                return Err(error_of(ErrorKind::Json, String::from_str("invalid type: expected a string")));
            },
        }
        j += 1;
    }
    let k = key.to_owned();
    let mut i: usize = 0;
    assert(entries@.skip(0) =~= entries@);
    while i < entries.len()
        invariant
            0 <= i <= entries.len(),
            k@ == key@,
            all_strings(entries@),
            manifest.spec_as_object() == Some(entries@),
            lookup(entries@, key@) == lookup(entries@.skip(i as int), key@),
        decreases entries.len() - i,
    {
        assert(entries@.skip(i as int)[0] == entries@[i as int]);
        assert(entries@.skip(i as int).drop_first() =~= entries@.skip(i + 1));
        if entries[i].0 == k {
            let hash = match &entries[i].1 {
                JsonValue::Str(h) => h,
                _ => {
                    assert(entries@[i as int].1 is Str);
                    return Err(error_of(ErrorKind::Json, String::from_str("invalid type: expected a string")));
                },
            };
            let mut url = String::from_str(BASE_URL);
            url.append("/");
            url.append(path);
            url.append(".");
            url.append(hash.as_str());
            url.append(".json");
            return Ok(url);
        }
        i += 1;
    }
    let mut msg = String::from_str("Key '");
    msg.append(key);
    msg.append("' not found in manifest");
    Err(error_of(ErrorKind::Parse, msg))
}

/// The URL of the character data file.
pub fn resolve_uma_url(manifest: &JsonValue) -> (r: ScraperResult<String>)
    ensures
        match r {
            Ok(u) => spec_resolve(*manifest, "character-cards"@, "character-cards"@) == Ok::<Seq<char>, ErrorKind>(u@),
            Err(e) => spec_resolve(*manifest, "character-cards"@, "character-cards"@) == Err::<Seq<char>, ErrorKind>(e.spec_kind()),
        },
{
    resolve_url_from_manifest(manifest, "character-cards", "character-cards")
}

/// The URL of the skill data file.
pub fn resolve_skills_url(manifest: &JsonValue) -> (r: ScraperResult<String>)
    ensures
        match r {
            Ok(u) => spec_resolve(*manifest, "skills"@, "skills"@) == Ok::<Seq<char>, ErrorKind>(u@),
            Err(e) => spec_resolve(*manifest, "skills"@, "skills"@) == Err::<Seq<char>, ErrorKind>(e.spec_kind()),
        },
{
    resolve_url_from_manifest(manifest, "skills", "skills")
}

/// The URL of the skill condition data file.
pub fn resolve_conditions_url(manifest: &JsonValue) -> (r: ScraperResult<String>)
    ensures
        match r {
            Ok(u) => spec_resolve(*manifest, "static/skill_conditions"@, "static/skill_conditions"@) == Ok::<Seq<char>, ErrorKind>(u@),
            Err(e) => spec_resolve(*manifest, "static/skill_conditions"@, "static/skill_conditions"@) == Err::<Seq<char>, ErrorKind>(e.spec_kind()),
        },
{
    resolve_url_from_manifest(manifest, "static/skill_conditions", "static/skill_conditions")
}

/// The URL of the predicted release dates data file.
pub fn resolve_predicted_release_dates_url(manifest: &JsonValue) -> (r: ScraperResult<String>)
    ensures
        match r {
            Ok(u) => spec_resolve(*manifest, "en/foresight/predicted_releases"@, "en/foresight/predicted_releases"@)
                == Ok::<Seq<char>, ErrorKind>(u@),
            Err(e) => spec_resolve(*manifest, "en/foresight/predicted_releases"@, "en/foresight/predicted_releases"@)
                == Err::<Seq<char>, ErrorKind>(e.spec_kind()),
        },
{
    resolve_url_from_manifest(manifest, "en/foresight/predicted_releases", "en/foresight/predicted_releases")
}

} // verus!
