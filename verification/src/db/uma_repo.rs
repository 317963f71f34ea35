//! What the trainee tables receive: the columns of the bulk upsert of
//! trainees and of the skills each trainee holds.
use crate::db::types::{DbAptitudeLevel, DbSkillAcquisition, DbUmaRarity};
use crate::models::uma::Uma;
use crate::uma_skill::{SkillAcquisition, UmaSkill};
use vstd::prelude::*;
use vstd::std_specs::convert::FromSpec;

verus! {

/// The columns of the trainee upsert, one entry per trainee.
pub struct UmaColumns {
    pub ids: Vec<i32>,
    pub names: Vec<String>,
    pub subtitles: Vec<String>,
    pub rarities: Vec<DbUmaRarity>,
    pub stat_speeds: Vec<i32>,
    pub stat_staminas: Vec<i32>,
    pub stat_powers: Vec<i32>,
    pub stat_guts: Vec<i32>,
    pub stat_wits: Vec<i32>,
    pub growth_speeds: Vec<i32>,
    pub growth_staminas: Vec<i32>,
    pub growth_powers: Vec<i32>,
    pub growth_guts: Vec<i32>,
    pub growth_wits: Vec<i32>,
    pub apt_turfs: Vec<DbAptitudeLevel>,
    pub apt_dirts: Vec<DbAptitudeLevel>,
    pub apt_shorts: Vec<DbAptitudeLevel>,
    pub apt_miles: Vec<DbAptitudeLevel>,
    pub apt_mediums: Vec<DbAptitudeLevel>,
    pub apt_longs: Vec<DbAptitudeLevel>,
    pub apt_fronts: Vec<DbAptitudeLevel>,
    pub apt_paces: Vec<DbAptitudeLevel>,
    pub apt_lates: Vec<DbAptitudeLevel>,
    pub apt_ends: Vec<DbAptitudeLevel>,
}

/// The columns hold the first `n` trainees; ids and numbers are stored as
/// the database's signed integers.
pub open spec fn uma_columns_prefix(r: UmaColumns, umas: Seq<Uma>, n: int) -> bool {
    &&& r.ids.len() == n
    &&& r.names.len() == n
    &&& r.subtitles.len() == n
    &&& r.rarities.len() == n
    &&& r.stat_speeds.len() == n
    &&& r.stat_staminas.len() == n
    &&& r.stat_powers.len() == n
    &&& r.stat_guts.len() == n
    &&& r.stat_wits.len() == n
    &&& r.growth_speeds.len() == n
    &&& r.growth_staminas.len() == n
    &&& r.growth_powers.len() == n
    &&& r.growth_guts.len() == n
    &&& r.growth_wits.len() == n
    &&& r.apt_turfs.len() == n
    &&& r.apt_dirts.len() == n
    &&& r.apt_shorts.len() == n
    &&& r.apt_miles.len() == n
    &&& r.apt_mediums.len() == n
    &&& r.apt_longs.len() == n
    &&& r.apt_fronts.len() == n
    &&& r.apt_paces.len() == n
    &&& r.apt_lates.len() == n
    &&& r.apt_ends.len() == n
    &&& forall|i: int| 0 <= i < n ==> #[trigger] uma_columns_entry(r, umas[i], i)
}

/// Entry `i` of the columns holds trainee `u`.
pub open spec fn uma_columns_entry(r: UmaColumns, u: Uma, i: int) -> bool {
    &&& r.ids@[i] == u.id.0 as i32
    &&& r.names@[i]@ == u.name@
    &&& r.subtitles@[i]@ == u.subtitle@
    &&& r.rarities@[i] == DbUmaRarity::from_spec(u.rarity)
    &&& r.stat_speeds@[i] == u.base_stats.speed as i32
    &&& r.stat_staminas@[i] == u.base_stats.stamina as i32
    &&& r.stat_powers@[i] == u.base_stats.power as i32
    &&& r.stat_guts@[i] == u.base_stats.guts as i32
    &&& r.stat_wits@[i] == u.base_stats.wit as i32
    &&& r.growth_speeds@[i] == u.growth_rates.speed as i32
    &&& r.growth_staminas@[i] == u.growth_rates.stamina as i32
    &&& r.growth_powers@[i] == u.growth_rates.power as i32
    &&& r.growth_guts@[i] == u.growth_rates.guts as i32
    &&& r.growth_wits@[i] == u.growth_rates.wit as i32
    &&& r.apt_turfs@[i] == DbAptitudeLevel::from_spec(u.aptitudes.surface.turf)
    &&& r.apt_dirts@[i] == DbAptitudeLevel::from_spec(u.aptitudes.surface.dirt)
    &&& r.apt_shorts@[i] == DbAptitudeLevel::from_spec(u.aptitudes.distance.short)
    &&& r.apt_miles@[i] == DbAptitudeLevel::from_spec(u.aptitudes.distance.mile)
    &&& r.apt_mediums@[i] == DbAptitudeLevel::from_spec(u.aptitudes.distance.medium)
    &&& r.apt_longs@[i] == DbAptitudeLevel::from_spec(u.aptitudes.distance.long)
    &&& r.apt_fronts@[i] == DbAptitudeLevel::from_spec(u.aptitudes.strategy.front)
    &&& r.apt_paces@[i] == DbAptitudeLevel::from_spec(u.aptitudes.strategy.pace)
    &&& r.apt_lates@[i] == DbAptitudeLevel::from_spec(u.aptitudes.strategy.late)
    &&& r.apt_ends@[i] == DbAptitudeLevel::from_spec(u.aptitudes.strategy.end)
}

/// Lays the trainees out as the columns of the upsert.
pub fn uma_columns(umas: &[Uma]) -> (r: UmaColumns)
    ensures
        uma_columns_prefix(r, umas@, umas.len() as int),
{
    let mut r = UmaColumns {
        ids: Vec::new(),
        names: Vec::new(),
        subtitles: Vec::new(),
        rarities: Vec::new(),
        stat_speeds: Vec::new(),
        stat_staminas: Vec::new(),
        stat_powers: Vec::new(),
        stat_guts: Vec::new(),
        stat_wits: Vec::new(),
        growth_speeds: Vec::new(),
        growth_staminas: Vec::new(),
        growth_powers: Vec::new(),
        growth_guts: Vec::new(),
        growth_wits: Vec::new(),
        apt_turfs: Vec::new(),
        apt_dirts: Vec::new(),
        apt_shorts: Vec::new(),
        apt_miles: Vec::new(),
        apt_mediums: Vec::new(),
        apt_longs: Vec::new(),
        apt_fronts: Vec::new(),
        apt_paces: Vec::new(),
        apt_lates: Vec::new(),
        apt_ends: Vec::new(),
    };
    let mut i: usize = 0;
    while i < umas.len()
        invariant
            0 <= i <= umas.len(),
            uma_columns_prefix(r, umas@, i as int),
        decreases umas.len() - i,
    {
        let s = &umas[i];
        let ghost r0 = r;
        r.ids.push(s.id.0 as i32);
        r.names.push(s.name.clone());
        r.subtitles.push(s.subtitle.clone());
        r.rarities.push(DbUmaRarity::from(s.rarity));
        r.stat_speeds.push(s.base_stats.speed as i32);
        r.stat_staminas.push(s.base_stats.stamina as i32);
        r.stat_powers.push(s.base_stats.power as i32);
        r.stat_guts.push(s.base_stats.guts as i32);
        r.stat_wits.push(s.base_stats.wit as i32);
        r.growth_speeds.push(s.growth_rates.speed as i32);
        r.growth_staminas.push(s.growth_rates.stamina as i32);
        r.growth_powers.push(s.growth_rates.power as i32);
        r.growth_guts.push(s.growth_rates.guts as i32);
        r.growth_wits.push(s.growth_rates.wit as i32);
        r.apt_turfs.push(DbAptitudeLevel::from(s.aptitudes.surface.turf));
        r.apt_dirts.push(DbAptitudeLevel::from(s.aptitudes.surface.dirt));
        r.apt_shorts.push(DbAptitudeLevel::from(s.aptitudes.distance.short));
        r.apt_miles.push(DbAptitudeLevel::from(s.aptitudes.distance.mile));
        r.apt_mediums.push(DbAptitudeLevel::from(s.aptitudes.distance.medium));
        r.apt_longs.push(DbAptitudeLevel::from(s.aptitudes.distance.long));
        r.apt_fronts.push(DbAptitudeLevel::from(s.aptitudes.strategy.front));
        r.apt_paces.push(DbAptitudeLevel::from(s.aptitudes.strategy.pace));
        r.apt_lates.push(DbAptitudeLevel::from(s.aptitudes.strategy.late));
        r.apt_ends.push(DbAptitudeLevel::from(s.aptitudes.strategy.end));
        assert(uma_columns_entry(r, umas@[i as int], i as int));
        assert forall|j: int| 0 <= j < i + 1 implies #[trigger] uma_columns_entry(r, umas@[j], j) by {
            if j < i {
                assert(uma_columns_entry(r0, umas@[j], j));
            }
        }
        i += 1;
    }
    r
}

/// The skills of the trainees, in order, each with its trainee's id.
pub open spec fn flat_uma_skills(umas: Seq<Uma>) -> Seq<(u32, UmaSkill)>
    decreases umas.len(),
{
    if umas.len() == 0 {
        Seq::empty()
    } else {
        flat_uma_skills(umas.drop_last()) + umas.last().skill_list@.map_values(|s: UmaSkill| (umas.last().id.0, s))
    }
}

/// A row of the trainee skill insert: trainee id, skill id, acquisition, and
/// the skill it evolved from.
pub type UmaSkillRowView = (i32, i32, DbSkillAcquisition, Option<i32>);

pub open spec fn uma_skill_row(t: (u32, UmaSkill)) -> UmaSkillRowView {
    (
        t.0 as i32,
        t.1.id.0 as i32,
        DbSkillAcquisition::from_spec(t.1.acquisition),
        match t.1.acquisition {
            SkillAcquisition::Evolution(from) => Some(from.0 as i32),
            _ => None,
        },
    )
}

/// The columns of the trainee skill insert.
pub struct UmaSkillColumns {
    pub uma_ids: Vec<i32>,
    pub skill_ids: Vec<i32>,
    pub acquisitions: Vec<DbSkillAcquisition>,
    pub evolved_froms: Vec<Option<i32>>,
}

pub open spec fn uma_skill_columns_view(r: UmaSkillColumns) -> Seq<UmaSkillRowView> {
    Seq::new(r.uma_ids.len() as nat, |i: int| (r.uma_ids@[i], r.skill_ids@[i], r.acquisitions@[i], r.evolved_froms@[i]))
}

pub open spec fn uma_skill_columns_aligned(r: UmaSkillColumns) -> bool {
    &&& r.skill_ids.len() == r.uma_ids.len()
    &&& r.acquisitions.len() == r.uma_ids.len()
    &&& r.evolved_froms.len() == r.uma_ids.len()
}

/// Lays out the skills of the trainees as the columns of the insert: one row
/// per skill, in the order of the trainees and of their skill lists.
pub fn uma_skill_columns(umas: &[Uma]) -> (r: UmaSkillColumns)
    ensures
        uma_skill_columns_aligned(r),
        uma_skill_columns_view(r) == flat_uma_skills(umas@).map_values(|t: (u32, UmaSkill)| uma_skill_row(t)),
{
    let mut r = UmaSkillColumns { uma_ids: Vec::new(), skill_ids: Vec::new(), acquisitions: Vec::new(), evolved_froms: Vec::new() };
    let mut i: usize = 0;
    assert(uma_skill_columns_view(r) =~= Seq::<UmaSkillRowView>::empty());
    while i < umas.len()
        invariant
            0 <= i <= umas.len(),
            uma_skill_columns_aligned(r),
            uma_skill_columns_view(r) == flat_uma_skills(umas@.take(i as int)).map_values(|t: (u32, UmaSkill)| uma_skill_row(t)),
        decreases umas.len() - i,
    {
        let u = &umas[i];
        let ghost start = uma_skill_columns_view(r);
        let mut k: usize = 0;
        while k < u.skill_list.len()
            invariant
                0 <= k <= u.skill_list.len(),
                uma_skill_columns_aligned(r),
                uma_skill_columns_view(r) == start
                    + u.skill_list@.take(k as int).map_values(|s: UmaSkill| uma_skill_row((u.id.0, s))),
            decreases u.skill_list.len() - k,
        {
            let sk = u.skill_list[k];
            let ghost before = uma_skill_columns_view(r);
            r.uma_ids.push(u.id.0 as i32);
            r.skill_ids.push(sk.id.0 as i32);
            r.acquisitions.push(DbSkillAcquisition::from(sk.acquisition));
            let from = match sk.acquisition.evolved_from() {
                Some(id) => Some(id.0 as i32),
                None => None,
            };
            r.evolved_froms.push(from);
            assert(uma_skill_columns_view(r) =~= before.push(uma_skill_row((u.id.0, sk))));
            assert(u.skill_list@.take(k + 1).map_values(|s: UmaSkill| uma_skill_row((u.id.0, s)))
                =~= u.skill_list@.take(k as int).map_values(|s: UmaSkill| uma_skill_row((u.id.0, s))).push(uma_skill_row((u.id.0, sk))));
            k += 1;
        }
        proof {
            assert(u.skill_list@.take(k as int) =~= u.skill_list@);
            assert(umas@.take(i + 1).drop_last() =~= umas@.take(i as int));
            assert(umas@.take(i + 1).last() == *u);
            let added = u.skill_list@.map_values(|s: UmaSkill| (u.id.0, s));
            assert((flat_uma_skills(umas@.take(i as int)) + added).map_values(|t: (u32, UmaSkill)| uma_skill_row(t))
                =~= start + u.skill_list@.map_values(|s: UmaSkill| uma_skill_row((u.id.0, s))));
        }
        i += 1;
    }
    assert(umas@.take(umas.len() as int) =~= umas@);
    r
}

} // verus!
