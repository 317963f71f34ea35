//! A trainee's page on GameTora: the JSON document that its `__NEXT_DATA__`
//! script carries, and the trainee that the document describes.
use crate::ids::{SkillId, UmaId};
use crate::json::{json_text, JsonValue};
use crate::models::uma::{Aptitudes, BaseStats, UmaRarity};
use crate::scraping::error::{error_of, ErrorKind, ScraperError, ScraperResult};
use crate::scraping::umas::{parse_aptitudes, parse_five_stats, spec_aptitudes, spec_five_stats, spec_uma_rarity, stats_in_order};
use crate::uma_skill::{SkillAcquisition, UmaSkill};
use scraper::{Html, Selector};
use vstd::prelude::*;

verus! {

/// The text of the first `script#__NEXT_DATA__` element of the HTML
/// document, or `None` when the document has no such element.
pub uninterp spec fn page_next_data(html: Seq<char>) -> Option<Seq<char>>;

/// Parses the HTML document with the `scraper` crate (`Html::parse_document`,
/// `Selector::parse`, `ElementRef::text`) and hands out the text of the first
/// `script#__NEXT_DATA__` element. The contract names the result.
#[verifier::external_body]
fn next_data_text(html: &str) -> (r: Option<String>)
    ensures
        r.deep_view() == page_next_data(html@),
{
    let doc = Html::parse_document(html);
    let sel = Selector::parse("script#__NEXT_DATA__").unwrap();
    doc.select(&sel).next().map(|s| s.text().collect::<String>())
}

/// The JSON text of a trainee page's `__NEXT_DATA__` script; a parse error
/// when the page has none.
pub fn next_data_json(html: &str) -> (r: ScraperResult<String>)
    ensures
        match r {
            Ok(t) => page_next_data(html@) == Some(t@),
            Err(e) => page_next_data(html@) is None
                && e.report() == (ErrorKind::Parse, "__NEXT_DATA__ script not found"@),
        },
{
    match next_data_text(html) {
        Some(t) => Ok(t),
        None => Err(error_of(ErrorKind::Parse, String::from_str("__NEXT_DATA__ script not found"))),
    }
}

/// A trainee as its GameTora page describes it.
#[derive(Debug)]
pub struct CharacterPage {
    pub id: UmaId,
    pub name: String,
    pub subtitle: String,
    pub rarity: UmaRarity,
    pub base_stats: BaseStats,
    pub aptitudes: Aptitudes,
    pub skill_list: Vec<UmaSkill>,
}

/// A trainee page as plain values.
pub struct CharacterPageView {
    pub id: UmaId,
    pub name: Seq<char>,
    pub subtitle: Seq<char>,
    pub rarity: UmaRarity,
    pub base_stats: BaseStats,
    pub aptitudes: Aptitudes,
    pub skill_list: Seq<UmaSkill>,
}

impl View for CharacterPage {
    type V = CharacterPageView;

    open spec fn view(&self) -> CharacterPageView {
        CharacterPageView {
            id: self.id,
            name: self.name@,
            subtitle: self.subtitle@,
            rarity: self.rarity,
            base_stats: self.base_stats,
            aptitudes: self.aptitudes,
            skill_list: self.skill_list@,
        }
    }
}

/// The trainee's entry of the document: `props.pageProps.itemData`.
pub open spec fn page_item(root: JsonValue) -> JsonValue {
    root.at("props"@).at("pageProps"@).at("itemData"@)
}

/// The rarity of the page, or the message for a value that is not 1, 2 or 3.
pub open spec fn spec_page_rarity(v: JsonValue) -> Result<UmaRarity, Seq<char>> {
    match spec_uma_rarity(v) {
        Some(r) => Ok(r),
        None => Err("unknown rarity value: "@ + json_text(v)),
    }
}

/// The base stats of the page: the first five elements of `base_stats`.
pub open spec fn spec_page_stats(v: JsonValue) -> Result<BaseStats, Seq<char>> {
    match spec_five_stats(v, "base_stats"@) {
        Ok((speed, stamina, power, guts, wit)) => Ok(BaseStats { speed, stamina, power, guts, wit }),
        Err((_, m)) => Err(m),
    }
}

/// The aptitudes of the page: the first ten letters of `aptitude`.
pub open spec fn spec_page_aptitudes(v: JsonValue) -> Result<Aptitudes, Seq<char>> {
    match spec_aptitudes(v) {
        Ok(a) => Ok(a),
        Err((k, m)) => Err(if k == ErrorKind::UnknownValue { "unknown "@ + m } else { m }),
    }
}

/// The skills of the ids in `entries`, in order; `None` when one of them is
/// not an unsigned integer.
pub open spec fn page_skill_ids(entries: Seq<JsonValue>, acquisition: SkillAcquisition) -> Option<Seq<UmaSkill>>
    decreases entries.len(),
{
    if entries.len() == 0 {
        Some(Seq::empty())
    } else {
        match page_skill_ids(entries.drop_last(), acquisition) {
            None => None,
            Some(rest) => match entries.last().spec_as_u64() {
                Some(n) => Some(rest.push(UmaSkill { id: SkillId(n as u32), acquisition })),
                None => None,
            },
        }
    }
}

/// The skills of the category `key`: none when the member is not an array,
/// else its ids, or the message for an id that is not an unsigned integer.
pub open spec fn page_category(item: JsonValue, key: Seq<char>, acquisition: SkillAcquisition) -> Result<Seq<UmaSkill>, Seq<char>> {
    match item.at(key).spec_as_array() {
        None => Ok(Seq::empty()),
        Some(entries) => match page_skill_ids(entries, acquisition) {
            Some(s) => Ok(s),
            None => Err("invalid skill id in "@ + key),
        },
    }
}

/// The skill list of the page: its unique, innate, awakening and event
/// skills, in that order; or the message of the first category that fails.
pub open spec fn spec_page_skills(item: JsonValue) -> Result<Seq<UmaSkill>, Seq<char>> {
    match page_category(item, "skills_unique"@, SkillAcquisition::Unique) {
        Err(m) => Err(m),
        Ok(a) => match page_category(item, "skills_innate"@, SkillAcquisition::Innate) {
            Err(m) => Err(m),
            Ok(b) => match page_category(item, "skills_awakening"@, SkillAcquisition::Awakening) {
                Err(m) => Err(m),
                Ok(c) => match page_category(item, "skills_event"@, SkillAcquisition::Event) {
                    Err(m) => Err(m),
                    Ok(d) => Ok(a + b + c + d),
                },
            },
        },
    }
}

/// The trainee that the document's entry describes, or the message of the
/// first field that stops it: its id, name, subtitle, rarity, base stats,
/// aptitudes and skills, in that order.
pub open spec fn spec_character_item(item: JsonValue) -> Result<CharacterPageView, Seq<char>> {
    match item.at("card_id"@).spec_as_u64() {
        None => Err("missing card_id"@),
        Some(n) => match item.at("name_en"@).spec_as_str() {
            None => Err("missing name_en"@),
            Some(name) => match item.at("title_en_gl"@).spec_as_str() {
                None => Err("missing title_en_gl"@),
                Some(subtitle) => match spec_page_rarity(item.at("rarity"@)) {
                    Err(m) => Err(m),
                    Ok(rarity) => match spec_page_stats(item.at("base_stats"@)) {
                        Err(m) => Err(m),
                        Ok(base_stats) => match spec_page_aptitudes(item.at("aptitude"@)) {
                            Err(m) => Err(m),
                            Ok(aptitudes) => match spec_page_skills(item) {
                                Err(m) => Err(m),
                                Ok(skill_list) => Ok(CharacterPageView {
                                    id: UmaId(n as u32),
                                    name,
                                    subtitle,
                                    rarity,
                                    base_stats,
                                    aptitudes,
                                    skill_list,
                                }),
                            },
                        },
                    },
                },
            },
        },
    }
}

/// The trainee that a page's `__NEXT_DATA__` document describes; every
/// failure is a parse error.
pub open spec fn spec_character(root: JsonValue) -> Result<CharacterPageView, (ErrorKind, Seq<char>)> {
    match spec_character_item(page_item(root)) {
        Ok(c) => Ok(c),
        Err(m) => Err((ErrorKind::Parse, m)),
    }
}

/// Reads the rarity of a page.
fn page_rarity(value: &JsonValue) -> (r: Result<UmaRarity, String>)
    ensures
        match r {
            Ok(x) => spec_page_rarity(*value) == Ok::<UmaRarity, Seq<char>>(x),
            Err(m) => spec_page_rarity(*value) == Err::<UmaRarity, Seq<char>>(m@),
        },
{
    match value.as_u64() {
        Some(1) => Ok(UmaRarity::R),
        Some(2) => Ok(UmaRarity::SR),
        Some(3) => Ok(UmaRarity::SSR),
        _ => {
            let mut msg = String::from_str("unknown rarity value: ");
            msg.append(value.describe().as_str());
            Err(msg)
        },
    }
}

/// Reads the base stats of a page.
fn page_stats(value: &JsonValue) -> (r: Result<BaseStats, String>)
    ensures
        match r {
            Ok(x) => spec_page_stats(*value) == Ok::<BaseStats, Seq<char>>(x),
            Err(m) => spec_page_stats(*value) == Err::<BaseStats, Seq<char>>(m@),
        },
{
    match parse_five_stats(value, "base_stats") {
        Ok((speed, stamina, power, guts, wit)) => Ok(BaseStats { speed, stamina, power, guts, wit }),
        Err(e) => Err(e.into_detail()),
    }
}

/// Reads the aptitudes of a page.
fn page_aptitudes(value: &JsonValue) -> (r: Result<Aptitudes, String>)
    ensures
        match r {
            Ok(x) => spec_page_aptitudes(*value) == Ok::<Aptitudes, Seq<char>>(x),
            Err(m) => spec_page_aptitudes(*value) == Err::<Aptitudes, Seq<char>>(m@),
        },
{
    match parse_aptitudes(value) {
        Ok(a) => Ok(a),
        Err(e) => {
            let unknown = e.kind() == ErrorKind::UnknownValue;
            let m = e.into_detail();
            if unknown {
                let mut msg = String::from_str("unknown ");
                msg.append(m.as_str());
                Err(msg)
            } else {
                Err(m)
            }
        },
    }
}

/// A prefix whose ids do not all read keeps the whole sequence from reading.
proof fn lemma_skill_ids_fail_extends(entries: Seq<JsonValue>, k: int, acquisition: SkillAcquisition)
    requires
        0 <= k <= entries.len(),
        page_skill_ids(entries.take(k), acquisition) is None,
    ensures
        page_skill_ids(entries, acquisition) is None,
    decreases entries.len(),
{
    if k == entries.len() {
        assert(entries.take(k) =~= entries);
    } else {
        assert(entries.drop_last().take(k) =~= entries.take(k));
        lemma_skill_ids_fail_extends(entries.drop_last(), k, acquisition);
    }
}

/// Appends the skills of the category `key`, or gives its error message.
fn push_page_skills(out: &mut Vec<UmaSkill>, item: &JsonValue, key: &str, acquisition: SkillAcquisition) -> (r: Result<(), String>)
    ensures
        match page_category(*item, key@, acquisition) {
            Ok(s) => r is Ok && final(out)@ == old(out)@ + s,
            Err(m) => match r {
                Ok(_) => false,
                Err(msg) => msg@ == m,
            },
        },
{
    let ghost start = out@;
    let entries = match item.field_array(key) {
        Some(a) => a,
        None => {
            assert(start + Seq::<UmaSkill>::empty() =~= start);
            return Ok(());
        },
    };
    let mut i: usize = 0;
    assert(entries@.take(0) =~= Seq::<JsonValue>::empty());
    assert(start + Seq::<UmaSkill>::empty() =~= start);
    while i < entries.len()
        invariant
            0 <= i <= entries.len(),
            item.at(key@).spec_as_array() == Some(entries@),
            page_skill_ids(entries@.take(i as int), acquisition) is Some,
            out@ == start + page_skill_ids(entries@.take(i as int), acquisition).unwrap(),
        decreases entries.len() - i,
    {
        assert(entries@.take(i + 1).drop_last() =~= entries@.take(i as int));
        assert(entries@.take(i + 1).last() == entries@[i as int]);
        match entries[i].as_u64() {
            Some(n) => {
                out.push(UmaSkill { id: SkillId(#[verifier::truncate] (n as u32)), acquisition });
                assert(out@ =~= start + page_skill_ids(entries@.take(i + 1), acquisition).unwrap());
            },
            None => {
                proof { lemma_skill_ids_fail_extends(entries@, i + 1, acquisition); }
                let mut msg = String::from_str("invalid skill id in ");
                msg.append(key);
                return Err(msg);
            },
        }
        i += 1;
    }
    assert(entries@.take(entries.len() as int) =~= entries@);
    Ok(())
}

/// Reads the skill list of a page.
fn page_skills(item: &JsonValue) -> (r: Result<Vec<UmaSkill>, String>)
    ensures
        match r {
            Ok(v) => spec_page_skills(*item) == Ok::<Seq<UmaSkill>, Seq<char>>(v@),
            Err(m) => spec_page_skills(*item) == Err::<Seq<UmaSkill>, Seq<char>>(m@),
        },
{
    let mut skills: Vec<UmaSkill> = Vec::new();
    if let Err(m) = push_page_skills(&mut skills, item, "skills_unique", SkillAcquisition::Unique) {
        return Err(m);
    }
    if let Err(m) = push_page_skills(&mut skills, item, "skills_innate", SkillAcquisition::Innate) {
        return Err(m);
    }
    if let Err(m) = push_page_skills(&mut skills, item, "skills_awakening", SkillAcquisition::Awakening) {
        return Err(m);
    }
    if let Err(m) = push_page_skills(&mut skills, item, "skills_event", SkillAcquisition::Event) {
        return Err(m);
    }
    proof {
        if let Ok(a) = page_category(*item, "skills_unique"@, SkillAcquisition::Unique) {
            assert(Seq::<UmaSkill>::empty() + a =~= a);
        }
    }
    Ok(skills)
}

/// Reads the trainee that a document's entry describes.
fn parse_character_item(item: &JsonValue) -> (r: Result<CharacterPage, String>)
    ensures
        match r {
            Ok(c) => spec_character_item(*item) == Ok::<CharacterPageView, Seq<char>>(c@),
            Err(m) => spec_character_item(*item) == Err::<CharacterPageView, Seq<char>>(m@),
        },
{
    let id = match item.field_u64("card_id") {
        Some(n) => UmaId(#[verifier::truncate] (n as u32)),
        None => return Err(String::from_str("missing card_id")),
    };
    let name = match item.field_str("name_en") {
        Some(t) => t.to_string(),
        None => return Err(String::from_str("missing name_en")),
    };
    let subtitle = match item.field_str("title_en_gl") {
        Some(t) => t.to_string(),
        None => return Err(String::from_str("missing title_en_gl")),
    };
    let null = JsonValue::Null;
    let rarity = match page_rarity(match item.get("rarity") { Some(v) => v, None => &null }) {
        Ok(x) => x,
        Err(m) => return Err(m),
    };
    let base_stats = match page_stats(match item.get("base_stats") { Some(v) => v, None => &null }) {
        Ok(x) => x,
        Err(m) => return Err(m),
    };
    let aptitudes = match page_aptitudes(match item.get("aptitude") { Some(v) => v, None => &null }) {
        Ok(x) => x,
        Err(m) => return Err(m),
    };
    let skill_list = match page_skills(item) {
        Ok(x) => x,
        Err(m) => return Err(m),
    };
    Ok(CharacterPage { id, name, subtitle, rarity, base_stats, aptitudes, skill_list })
}

/// Reads the trainee that a page's `__NEXT_DATA__` document describes, from
/// its entry `props.pageProps.itemData`. Every failure is a parse error.
pub fn parse_character_data(root: &JsonValue) -> (r: ScraperResult<CharacterPage>)
    ensures
        match r {
            Ok(c) => spec_character(*root) == Ok::<CharacterPageView, (ErrorKind, Seq<char>)>(c@),
            Err(e) => spec_character(*root) == Err::<CharacterPageView, (ErrorKind, Seq<char>)>(e.report()),
        },
{
    let null = JsonValue::Null;
    let props = match root.get("props") { Some(v) => v, None => &null };
    let page_props = match props.get("pageProps") { Some(v) => v, None => &null };
    let item = match page_props.get("itemData") { Some(v) => v, None => &null };
    match parse_character_item(item) {
        Ok(c) => Ok(c),
        Err(m) => Err(error_of(ErrorKind::Parse, m)),
    }
}


/// A trainee read from its page carries what the page's entry says: its
/// card id, English name and title, the rarity of its rarity code, its base
/// stats as the first five elements of `base_stats` in the order speed,
/// stamina, power, guts, wit, and the aptitudes of its `aptitude` array.
pub proof fn law_character_fields(root: JsonValue)
    requires
        spec_character(root) is Ok,
    ensures
        ({
            let item = page_item(root);
            let c = spec_character(root)->Ok_0;
            &&& item.at("card_id"@).spec_as_u64() matches Some(n) && c.id == UmaId(n as u32)
            &&& item.at("name_en"@).spec_as_str() == Some(c.name)
            &&& item.at("title_en_gl"@).spec_as_str() == Some(c.subtitle)
            &&& spec_uma_rarity(item.at("rarity"@)) == Some(c.rarity)
            &&& stats_in_order(item.at("base_stats"@), c.base_stats.speed, c.base_stats.stamina,
                    c.base_stats.power, c.base_stats.guts, c.base_stats.wit)
            &&& spec_aptitudes(item.at("aptitude"@)) == Ok::<Aptitudes, (ErrorKind, Seq<char>)>(c.aptitudes)
        }),
{
}

} // verus!
