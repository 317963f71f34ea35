//! Racetracks and the layout of their courses.
use vstd::prelude::*;

verus! {

pub struct Racetrack {
    name: String,
    pub courses: Vec<Course>,
    id: String,
}

impl Racetrack {
    /// A racetrack with no name, no id and no courses.
    pub fn empty() -> (r: Racetrack)
        ensures
            r.spec_course_count() == 0,
            r.spec_name().len() == 0,
            r.spec_id().len() == 0,
    {
        Racetrack { name: String::new(), courses: Vec::new(), id: String::new() }
    }

    pub closed spec fn spec_name(&self) -> Seq<char> {
        self.name@
    }

    pub closed spec fn spec_id(&self) -> Seq<char> {
        self.id@
    }

    pub closed spec fn spec_course_count(&self) -> nat {
        self.courses@.len()
    }
}

pub struct Course {
    corners: Vec<Corner>,
    distance: i64,
    id: i64,
    inout: i64,
    laps: Vec<Lap>,
    length: i64,
    no_mans_land: Vec<NoMansLand>,
    overlaps: Vec<String>,
    phases: Vec<Phase>,
    position_keep_end: i64,
    slopes: Vec<Slope>,
    spurt_start: SpurtStart,
    stat_thresholds: Vec<i64>,
    straights: Vec<Straight>,
    terrain: i64,
    terrain_changes: Vec<TerrainChange>,
    turn: i64,
}

pub struct Corner {
    end: i64,
    number: i64,
    start: i64,
}

pub struct Lap {
    end: i64,
    lap: i64,
    start: i64,
}

pub struct NoMansLand {
    end: i64,
    start: i64,
}

pub struct Phase {
    end: i64,
    id: i64,
    start: i64,
}

pub struct Slope {
    end: i64,
    slope: i64,
    start: i64,
}

pub struct SpurtStart {
    lap: i64,
    location: Vec<Location>,
    meters: i64,
}

pub enum Location {
    Corner,
    Downhill,
    FinalCorner,
    FinalStraight,
    Straight,
    Uphill,
}

pub struct Straight {
    end: i64,
    front_type: i64,
    start: i64,
}

pub struct TerrainChange {
    start: i64,
    terrain: i64,
}

#[derive(Debug, Clone, Copy, PartialEq, Eq, Structural)]
pub enum RacetrackName {
    Sapporo,
    Hakodate,
    Niigata,
    Fukushima,
    Nakayama,
    Tokyo,
    Chukyo,
    Kyoto,
    Hanshin,
    Kokura,
    Ooi,
    Kawasaki,
    Funabashi,
    Morioka,
    Longchamp,
    SantaAnitaPark,
    DelMar,
}

impl RacetrackName {
    pub open spec fn spec_display_name(self) -> Seq<char> {
        match self {
            RacetrackName::Sapporo => "Sapporo"@,
            RacetrackName::Hakodate => "Hakodate"@,
            RacetrackName::Niigata => "Niigata"@,
            RacetrackName::Fukushima => "Fukushima"@,
            RacetrackName::Nakayama => "Nakayama"@,
            RacetrackName::Tokyo => "Tokyo"@,
            RacetrackName::Chukyo => "Chukyo"@,
            RacetrackName::Kyoto => "Kyoto"@,
            RacetrackName::Hanshin => "Hanshin"@,
            RacetrackName::Kokura => "Kokura"@,
            RacetrackName::Ooi => "Ooi"@,
            RacetrackName::Kawasaki => "Kawasaki"@,
            RacetrackName::Funabashi => "Funabashi"@,
            RacetrackName::Morioka => "Morioka"@,
            RacetrackName::Longchamp => "Longchamp"@,
            RacetrackName::SantaAnitaPark => "Santa Anita Park"@,
            RacetrackName::DelMar => "Del Mar"@,
        }
    }

    /// The name of the racetrack as it is written for people: the words of
    /// the variant's name, separated by spaces.
    pub fn display_name(&self) -> (r: &'static str)
        ensures r@ == self.spec_display_name(),
    {
        match self {
            RacetrackName::Sapporo => "Sapporo",
            RacetrackName::Hakodate => "Hakodate",
            RacetrackName::Niigata => "Niigata",
            RacetrackName::Fukushima => "Fukushima",
            RacetrackName::Nakayama => "Nakayama",
            RacetrackName::Tokyo => "Tokyo",
            RacetrackName::Chukyo => "Chukyo",
            RacetrackName::Kyoto => "Kyoto",
            RacetrackName::Hanshin => "Hanshin",
            RacetrackName::Kokura => "Kokura",
            RacetrackName::Ooi => "Ooi",
            RacetrackName::Kawasaki => "Kawasaki",
            RacetrackName::Funabashi => "Funabashi",
            RacetrackName::Morioka => "Morioka",
            RacetrackName::Longchamp => "Longchamp",
            RacetrackName::SantaAnitaPark => "Santa Anita Park",
            RacetrackName::DelMar => "Del Mar",
        }
    }
}

} // verus!
