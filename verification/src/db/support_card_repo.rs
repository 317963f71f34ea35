//! What the support card tables receive: the columns of the bulk upsert of
//! cards, of their effects (by effect id, with the values at each limit
//! break), and of the skills they hand out.
use crate::dates::Date;
use crate::models::support_card::{CardType, EffectValue, LbValues, Rarity, SupportCard};
use crate::support_card_skill::SupportCardSkill;
use vstd::prelude::*;

verus! {

/// The label under which the database stores a card type.
pub open spec fn spec_card_type_label(t: CardType) -> Seq<char> {
    match t {
        CardType::Speed => "speed"@,
        CardType::Stamina => "stamina"@,
        CardType::Power => "power"@,
        CardType::Guts => "guts"@,
        CardType::Wit => "intelligence"@,
        CardType::Friend => "friend"@,
        CardType::Group => "group"@,
    }
}

/// The label under which the database stores a card type.
pub fn card_type_label(t: &CardType) -> (r: &'static str)
    ensures
        r@ == spec_card_type_label(*t),
{
    match t {
        CardType::Speed => "speed",
        CardType::Stamina => "stamina",
        CardType::Power => "power",
        CardType::Guts => "guts",
        CardType::Wit => "intelligence",
        CardType::Friend => "friend",
        CardType::Group => "group",
    }
}

/// The label under which the database stores a card rarity.
pub open spec fn spec_card_rarity_label(r: Rarity) -> Seq<char> {
    match r {
        Rarity::R => "r"@,
        Rarity::SR => "sr"@,
        Rarity::SSR => "ssr"@,
    }
}

/// The label under which the database stores a card rarity.
pub fn card_rarity_label(r: &Rarity) -> (out: &'static str)
    ensures
        out@ == spec_card_rarity_label(*r),
{
    match r {
        Rarity::R => "r",
        Rarity::SR => "sr",
        Rarity::SSR => "ssr",
    }
}

/// Distinct card types are stored under distinct labels, and so are
/// distinct rarities: a stored label names one type or one rarity.
pub proof fn law_card_labels_are_distinct(t1: CardType, t2: CardType, r1: Rarity, r2: Rarity)
    ensures
        (spec_card_type_label(t1) == spec_card_type_label(t2)) <==> (t1 == t2),
        (spec_card_rarity_label(r1) == spec_card_rarity_label(r2)) <==> (r1 == r2),
{
    reveal_strlit("speed");
    reveal_strlit("stamina");
    reveal_strlit("power");
    reveal_strlit("guts");
    reveal_strlit("intelligence");
    reveal_strlit("friend");
    reveal_strlit("group");
    reveal_strlit("r");
    reveal_strlit("sr");
    reveal_strlit("ssr");
    if spec_card_type_label(t1) == spec_card_type_label(t2) {
        let (a, b) = (spec_card_type_label(t1), spec_card_type_label(t2));
        assert(a.len() == b.len() && (a.len() > 0 ==> a[0] == b[0]) && (a.len() > 1 ==> a[1] == b[1]));
    }
    if spec_card_rarity_label(r1) == spec_card_rarity_label(r2) {
        let (a, b) = (spec_card_rarity_label(r1), spec_card_rarity_label(r2));
        assert(a.len() == b.len());
    }
}

/// The id under which an effect is stored.
pub fn effect_value_to_id(e: &EffectValue) -> (r: i32)
    ensures
        r == e.spec_id() as i32,
        1 <= r <= 41,
{
    match e {
        EffectValue::FriendshipBonus(_) => 1,
        EffectValue::MoodEffect(_) => 2,
        EffectValue::SpeedBonus(_) => 3,
        EffectValue::StaminaBonus(_) => 4,
        EffectValue::PowerBonus(_) => 5,
        EffectValue::GutsBonus(_) => 6,
        EffectValue::WitBonus(_) => 7,
        EffectValue::TrainingEffectiveness(_) => 8,
        EffectValue::InitialSpeed(_) => 9,
        EffectValue::InitialStamina(_) => 10,
        EffectValue::InitialPower(_) => 11,
        EffectValue::InitialGuts(_) => 12,
        EffectValue::InitialWit(_) => 13,
        EffectValue::InitialFriendshipGauge(_) => 14,
        EffectValue::RaceBonus(_) => 15,
        EffectValue::FanBonus(_) => 16,
        EffectValue::HintLevels(_) => 17,
        EffectValue::HintFrequency(_) => 18,
        EffectValue::SpecialtyPriority(_) => 19,
        EffectValue::MaxSpeed(_) => 20,
        EffectValue::MaxStamina(_) => 21,
        EffectValue::MaxPower(_) => 22,
        EffectValue::MaxGuts(_) => 23,
        EffectValue::MaxWit(_) => 24,
        EffectValue::EventRecovery(_) => 25,
        EffectValue::EventEffectiveness(_) => 26,
        EffectValue::FailureProtection(_) => 27,
        EffectValue::EnergyCostReduction(_) => 28,
        EffectValue::MinigameEffectiveness(_) => 29,
        EffectValue::SkillPointBonus(_) => 30,
        EffectValue::WitFriendshipRecovery(_) => 31,
        EffectValue::InitialSkillPoints(_) => 32,
        EffectValue::HintQuantityBonus(_) => 33,
        EffectValue::AllStatsBonus(_) => 41,
    }
}

/// The values of an effect at each limit break.
pub fn effect_value_to_lb_values(e: &EffectValue) -> (r: &LbValues)
    ensures
        *r == e.spec_lb_values(),
{
    match e {
        EffectValue::FriendshipBonus(v)
        | EffectValue::MoodEffect(v)
        | EffectValue::SpeedBonus(v)
        | EffectValue::StaminaBonus(v)
        | EffectValue::PowerBonus(v)
        | EffectValue::GutsBonus(v)
        | EffectValue::WitBonus(v)
        | EffectValue::TrainingEffectiveness(v)
        | EffectValue::InitialSpeed(v)
        | EffectValue::InitialStamina(v)
        | EffectValue::InitialPower(v)
        | EffectValue::InitialGuts(v)
        | EffectValue::InitialWit(v)
        | EffectValue::InitialFriendshipGauge(v)
        | EffectValue::RaceBonus(v)
        | EffectValue::FanBonus(v)
        | EffectValue::HintLevels(v)
        | EffectValue::HintFrequency(v)
        | EffectValue::SpecialtyPriority(v)
        | EffectValue::MaxSpeed(v)
        | EffectValue::MaxStamina(v)
        | EffectValue::MaxPower(v)
        | EffectValue::MaxGuts(v)
        | EffectValue::MaxWit(v)
        | EffectValue::EventRecovery(v)
        | EffectValue::EventEffectiveness(v)
        | EffectValue::FailureProtection(v)
        | EffectValue::EnergyCostReduction(v)
        | EffectValue::MinigameEffectiveness(v)
        | EffectValue::SkillPointBonus(v)
        | EffectValue::WitFriendshipRecovery(v)
        | EffectValue::InitialSkillPoints(v)
        | EffectValue::HintQuantityBonus(v)
        | EffectValue::AllStatsBonus(v) => v,
    }
}

/// An effect stored by its id and its values reads back as the same effect.
pub proof fn law_stored_effect_reads_back(e: EffectValue)
    ensures
        crate::models::support_card::spec_effect_value_from_id((e.spec_id() as i32) as u32, e.spec_lb_values()) == Some(e),
{
}

/// The columns of the card upsert, one entry per card.
pub struct SupportCardColumns {
    pub support_ids: Vec<i32>,
    pub char_names: Vec<String>,
    pub titles: Vec<String>,
    pub card_types: Vec<CardType>,
    pub rarities: Vec<Rarity>,
    pub is_welfares: Vec<bool>,
    pub release_dates: Vec<Option<Date>>,
    pub is_predicted_dates: Vec<bool>,
    pub unique_effects: Vec<Option<String>>,
}

/// Entry `i` of the columns holds card `c`.
pub open spec fn card_columns_entry(r: SupportCardColumns, c: SupportCard, i: int) -> bool {
    &&& r.support_ids@[i] == c.id.0 as i32
    &&& r.char_names@[i]@ == c.char_name@
    &&& r.titles@[i]@ == c.title@
    &&& r.card_types@[i] == c.card_type
    &&& r.rarities@[i] == c.rarity
    &&& r.is_welfares@[i] == c.is_welfare
    &&& r.release_dates@[i] == c.release_date
    &&& r.is_predicted_dates@[i] == c.is_predicted_date
    &&& r.unique_effects@[i] == c.unique_effect
}

/// The columns hold the first `n` cards.
pub open spec fn card_columns_prefix(r: SupportCardColumns, cards: Seq<SupportCard>, n: int) -> bool {
    &&& r.support_ids.len() == n
    &&& r.char_names.len() == n
    &&& r.titles.len() == n
    &&& r.card_types.len() == n
    &&& r.rarities.len() == n
    &&& r.is_welfares.len() == n
    &&& r.release_dates.len() == n
    &&& r.is_predicted_dates.len() == n
    &&& r.unique_effects.len() == n
    &&& forall|i: int| 0 <= i < n ==> #[trigger] card_columns_entry(r, cards[i], i)
}

/// Lays the cards out as the columns of the upsert.
pub fn support_card_columns(cards: &[SupportCard]) -> (r: SupportCardColumns)
    ensures
        card_columns_prefix(r, cards@, cards.len() as int),
{
    let mut r = SupportCardColumns {
        support_ids: Vec::new(),
        char_names: Vec::new(),
        titles: Vec::new(),
        card_types: Vec::new(),
        rarities: Vec::new(),
        is_welfares: Vec::new(),
        release_dates: Vec::new(),
        is_predicted_dates: Vec::new(),
        unique_effects: Vec::new(),
    };
    let mut i: usize = 0;
    while i < cards.len()
        invariant
            0 <= i <= cards.len(),
            card_columns_prefix(r, cards@, i as int),
        decreases cards.len() - i,
    {
        let c = &cards[i];
        let ghost r0 = r;
        r.support_ids.push(c.id.0 as i32);
        r.char_names.push(c.char_name.clone());
        r.titles.push(c.title.clone());
        r.card_types.push(c.card_type);
        r.rarities.push(c.rarity);
        r.is_welfares.push(c.is_welfare);
        r.release_dates.push(c.release_date);
        r.is_predicted_dates.push(c.is_predicted_date);
        r.unique_effects.push(c.unique_effect.clone());
        assert(card_columns_entry(r, cards@[i as int], i as int));
        assert forall|j: int| 0 <= j < i + 1 implies #[trigger] card_columns_entry(r, cards@[j], j) by {
            if j < i {
                assert(card_columns_entry(r0, cards@[j], j));
            }
        }
        i += 1;
    }
    r
}

/// The effects of the cards, in order, each with its card's id.
pub open spec fn flat_card_effects(cards: Seq<SupportCard>) -> Seq<(u32, EffectValue)>
    decreases cards.len(),
{
    if cards.len() == 0 {
        Seq::empty()
    } else {
        flat_card_effects(cards.drop_last()) + cards.last().effects@.map_values(|e: EffectValue| (cards.last().id.0, e))
    }
}

/// A row of the effect insert: card id, effect id, and the values at limit
/// breaks 0 to 3 and at the maximum.
pub type CardEffectRowView = (i32, i32, Option<i32>, Option<i32>, Option<i32>, Option<i32>, Option<i32>);

pub open spec fn card_effect_row(t: (u32, EffectValue)) -> CardEffectRowView {
    let v = t.1.spec_lb_values();
    (t.0 as i32, t.1.spec_id() as i32, v.lb0, v.lb1, v.lb2, v.lb3, v.mlb)
}

/// The columns of the effect insert.
pub struct CardEffectColumns {
    pub support_ids: Vec<i32>,
    pub effect_ids: Vec<i32>,
    pub lb0s: Vec<Option<i32>>,
    pub lb1s: Vec<Option<i32>>,
    pub lb2s: Vec<Option<i32>>,
    pub lb3s: Vec<Option<i32>>,
    pub mlbs: Vec<Option<i32>>,
}

pub open spec fn card_effect_columns_view(r: CardEffectColumns) -> Seq<CardEffectRowView> {
    Seq::new(r.support_ids.len() as nat, |i: int| (r.support_ids@[i], r.effect_ids@[i], r.lb0s@[i], r.lb1s@[i], r.lb2s@[i], r.lb3s@[i], r.mlbs@[i]))
}

pub open spec fn card_effect_columns_aligned(r: CardEffectColumns) -> bool {
    &&& r.effect_ids.len() == r.support_ids.len()
    &&& r.lb0s.len() == r.support_ids.len()
    &&& r.lb1s.len() == r.support_ids.len()
    &&& r.lb2s.len() == r.support_ids.len()
    &&& r.lb3s.len() == r.support_ids.len()
    &&& r.mlbs.len() == r.support_ids.len()
}

/// Lays out the effects of the cards as the columns of the insert: one row
/// per effect, in the order of the cards and of their effects.
pub fn card_effect_columns(cards: &[SupportCard]) -> (r: CardEffectColumns)
    ensures
        card_effect_columns_aligned(r),
        card_effect_columns_view(r) == flat_card_effects(cards@).map_values(|t: (u32, EffectValue)| card_effect_row(t)),
{
    let mut r = CardEffectColumns {
        support_ids: Vec::new(),
        effect_ids: Vec::new(),
        lb0s: Vec::new(),
        lb1s: Vec::new(),
        lb2s: Vec::new(),
        lb3s: Vec::new(),
        mlbs: Vec::new(),
    };
    let mut i: usize = 0;
    assert(card_effect_columns_view(r) =~= Seq::<CardEffectRowView>::empty());
    while i < cards.len()
        invariant
            0 <= i <= cards.len(),
            card_effect_columns_aligned(r),
            card_effect_columns_view(r) == flat_card_effects(cards@.take(i as int)).map_values(|t: (u32, EffectValue)| card_effect_row(t)),
        decreases cards.len() - i,
    {
        let c = &cards[i];
        let ghost start = card_effect_columns_view(r);
        let mut k: usize = 0;
        while k < c.effects.len()
            invariant
                0 <= k <= c.effects.len(),
                card_effect_columns_aligned(r),
                card_effect_columns_view(r) == start
                    + c.effects@.take(k as int).map_values(|e: EffectValue| card_effect_row((c.id.0, e))),
            decreases c.effects.len() - k,
        {
            let e = &c.effects[k];
            let ghost before = card_effect_columns_view(r);
            let lbs = effect_value_to_lb_values(e);
            r.support_ids.push(c.id.0 as i32);
            r.effect_ids.push(effect_value_to_id(e));
            r.lb0s.push(lbs.lb0);
            r.lb1s.push(lbs.lb1);
            r.lb2s.push(lbs.lb2);
            r.lb3s.push(lbs.lb3);
            r.mlbs.push(lbs.mlb);
            assert(card_effect_columns_view(r) =~= before.push(card_effect_row((c.id.0, *e))));
            assert(c.effects@.take(k + 1).map_values(|e: EffectValue| card_effect_row((c.id.0, e)))
                =~= c.effects@.take(k as int).map_values(|e: EffectValue| card_effect_row((c.id.0, e))).push(card_effect_row((c.id.0, *e))));
            k += 1;
        }
        proof {
            assert(c.effects@.take(k as int) =~= c.effects@);
            assert(cards@.take(i + 1).drop_last() =~= cards@.take(i as int));
            assert(cards@.take(i + 1).last() == *c);
            let added = c.effects@.map_values(|e: EffectValue| (c.id.0, e));
            assert((flat_card_effects(cards@.take(i as int)) + added).map_values(|t: (u32, EffectValue)| card_effect_row(t))
                =~= start + c.effects@.map_values(|e: EffectValue| card_effect_row((c.id.0, e))));
        }
        i += 1;
    }
    assert(cards@.take(cards.len() as int) =~= cards@);
    r
}

/// The skills of the cards, in order, each with its card's id.
pub open spec fn flat_card_skills(cards: Seq<SupportCard>) -> Seq<(u32, SupportCardSkill)>
    decreases cards.len(),
{
    if cards.len() == 0 {
        Seq::empty()
    } else {
        flat_card_skills(cards.drop_last()) + cards.last().skills@.map_values(|s: SupportCardSkill| (cards.last().id.0, s))
    }
}

/// A row of the card skill insert: card id, skill id, and how the skill is
/// acquired, by name.
pub type CardSkillRowView = (i32, i32, Seq<char>);

pub open spec fn card_skill_row(t: (u32, SupportCardSkill)) -> CardSkillRowView {
    (t.0 as i32, t.1.skill_id.0 as i32, t.1.acquisition.spec_as_str())
}

/// The columns of the card skill insert.
pub struct CardSkillColumns {
    pub support_ids: Vec<i32>,
    pub skill_ids: Vec<i32>,
    pub acquisitions: Vec<String>,
}

pub open spec fn card_skill_columns_view(r: CardSkillColumns) -> Seq<CardSkillRowView> {
    Seq::new(r.support_ids.len() as nat, |i: int| (r.support_ids@[i], r.skill_ids@[i], r.acquisitions@[i]@))
}

pub open spec fn card_skill_columns_aligned(r: CardSkillColumns) -> bool {
    &&& r.skill_ids.len() == r.support_ids.len()
    &&& r.acquisitions.len() == r.support_ids.len()
}

/// Lays out the skills of the cards as the columns of the insert: one row
/// per skill, in the order of the cards and of their skills.
pub fn card_skill_columns(cards: &[SupportCard]) -> (r: CardSkillColumns)
    ensures
        card_skill_columns_aligned(r),
        card_skill_columns_view(r) == flat_card_skills(cards@).map_values(|t: (u32, SupportCardSkill)| card_skill_row(t)),
{
    let mut r = CardSkillColumns { support_ids: Vec::new(), skill_ids: Vec::new(), acquisitions: Vec::new() };
    let mut i: usize = 0;
    assert(card_skill_columns_view(r) =~= Seq::<CardSkillRowView>::empty());
    while i < cards.len()
        invariant
            0 <= i <= cards.len(),
            card_skill_columns_aligned(r),
            card_skill_columns_view(r) == flat_card_skills(cards@.take(i as int)).map_values(|t: (u32, SupportCardSkill)| card_skill_row(t)),
        decreases cards.len() - i,
    {
        let c = &cards[i];
        let ghost start = card_skill_columns_view(r);
        let mut k: usize = 0;
        while k < c.skills.len()
            invariant
                0 <= k <= c.skills.len(),
                card_skill_columns_aligned(r),
                card_skill_columns_view(r) == start
                    + c.skills@.take(k as int).map_values(|s: SupportCardSkill| card_skill_row((c.id.0, s))),
            decreases c.skills.len() - k,
        {
            let sk = c.skills[k];
            let ghost before = card_skill_columns_view(r);
            r.support_ids.push(c.id.0 as i32);
            r.skill_ids.push(sk.skill_id.0 as i32);
            r.acquisitions.push(String::from_str(sk.acquisition.as_str()));
            assert(card_skill_columns_view(r) =~= before.push(card_skill_row((c.id.0, sk))));
            assert(c.skills@.take(k + 1).map_values(|s: SupportCardSkill| card_skill_row((c.id.0, s)))
                =~= c.skills@.take(k as int).map_values(|s: SupportCardSkill| card_skill_row((c.id.0, s))).push(card_skill_row((c.id.0, sk))));
            k += 1;
        }
        proof {
            assert(c.skills@.take(k as int) =~= c.skills@);
            assert(cards@.take(i + 1).drop_last() =~= cards@.take(i as int));
            assert(cards@.take(i + 1).last() == *c);
            let added = c.skills@.map_values(|s: SupportCardSkill| (c.id.0, s));
            assert((flat_card_skills(cards@.take(i as int)) + added).map_values(|t: (u32, SupportCardSkill)| card_skill_row(t))
                =~= start + c.skills@.map_values(|s: SupportCardSkill| card_skill_row((c.id.0, s))));
        }
        i += 1;
    }
    assert(cards@.take(cards.len() as int) =~= cards@);
    r
}

} // verus!
