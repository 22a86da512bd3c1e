//! The Classical California stations and what is shown of each.
use vstd::prelude::*;

verus! {

/// A station: what is shown of it and what a directory search asks for.
#[derive(Debug, Clone, Copy, PartialEq, Eq, Hash)]
pub struct Station {
    pub name: &'static str,
    pub search: &'static str,
    pub description: &'static str,
}

/// The stations offered, in the order in which they are listed.
#[derive(Debug, Clone, Copy, PartialEq, Eq, Structural, Hash)]
pub enum ClassicalStations {
    ClassicalCalifornia,
    Ultimate,
    GreatEscape,
    NuestraMusicaEn,
    NuestraMusicaEs,
    Arcade,
    Americana,
    Christmas,
    Glissando,
}

/// The station record of each variant.
pub open spec fn station_record(s: ClassicalStations) -> Station {
    match s {
        ClassicalStations::ClassicalCalifornia => Station {
            name: "Classical California",
            search: "Classical KUSC",
            description: "Live Streaming 24/7 Classical Music",
        },
        ClassicalStations::Ultimate => Station {
            name: "Ultimate Playlist",
            search: "KDFC Classical California Ultimate Playlist",
            description: "Listener-voted favorites",
        },
        ClassicalStations::GreatEscape => Station {
            name: "Great Escape",
            search: "KDFC Great Escape",
            description: "Peaceful, ambient classical",
        },
        ClassicalStations::NuestraMusicaEn => Station {
            name: "Nuestra Música [In English]",
            search: "CC - Nuestra Música [In English]",
            description: "Classical music from Latin composers",
        },
        ClassicalStations::NuestraMusicaEs => Station {
            name: "Nuestra Música [En Español]",
            search: "CC - Nuestra Música [En Español]",
            description: "Classical music from Latin composers",
        },
        ClassicalStations::Arcade => Station {
            name: "Arcade",
            search: "KDFC Arcade",
            description: "Video game & film scores",
        },
        ClassicalStations::Americana => Station {
            name: "Americana",
            search: "KDFC Classical Americana",
            description: "American classical composers",
        },
        ClassicalStations::Christmas => Station {
            name: "Classical Christmas",
            search: "KDFC Classical Christmas",
            description: "Christmas Classics",
        },
        ClassicalStations::Glissando => Station {
            name: "Glissando",
            search: "KDFC Glissando",
            description: "A New Children's Musical Adventure Every 20 Minutes!",
        },
    }
}

impl ClassicalStations {
    /// The record of this station.
    pub fn station(&self) -> (s: Station)
        ensures
            s == station_record(*self),
    {
        match self {
            ClassicalStations::ClassicalCalifornia => Station {
                name: "Classical California",
                search: "Classical KUSC",
                description: "Live Streaming 24/7 Classical Music",
            },
            ClassicalStations::Ultimate => Station {
                name: "Ultimate Playlist",
                search: "KDFC Classical California Ultimate Playlist",
                description: "Listener-voted favorites",
            },
            ClassicalStations::GreatEscape => Station {
                name: "Great Escape",
                search: "KDFC Great Escape",
                description: "Peaceful, ambient classical",
            },
            ClassicalStations::NuestraMusicaEn => Station {
                name: "Nuestra Música [In English]",
                search: "CC - Nuestra Música [In English]",
                description: "Classical music from Latin composers",
            },
            ClassicalStations::NuestraMusicaEs => Station {
                name: "Nuestra Música [En Español]",
                search: "CC - Nuestra Música [En Español]",
                description: "Classical music from Latin composers",
            },
            ClassicalStations::Arcade => Station {
                name: "Arcade",
                search: "KDFC Arcade",
                description: "Video game & film scores",
            },
            ClassicalStations::Americana => Station {
                name: "Americana",
                search: "KDFC Classical Americana",
                description: "American classical composers",
            },
            ClassicalStations::Christmas => Station {
                name: "Classical Christmas",
                search: "KDFC Classical Christmas",
                description: "Christmas Classics",
            },
            ClassicalStations::Glissando => Station {
                name: "Glissando",
                search: "KDFC Glissando",
                description: "A New Children's Musical Adventure Every 20 Minutes!",
            },
        }
    }
}


/// Number of stations.
pub const STATION_COUNT: usize = 9;

/// Position of each station in the list.
pub open spec fn station_position(s: ClassicalStations) -> nat {
    match s {
        ClassicalStations::ClassicalCalifornia => 0,
        ClassicalStations::Ultimate => 1,
        ClassicalStations::GreatEscape => 2,
        ClassicalStations::NuestraMusicaEn => 3,
        ClassicalStations::NuestraMusicaEs => 4,
        ClassicalStations::Arcade => 5,
        ClassicalStations::Americana => 6,
        ClassicalStations::Christmas => 7,
        ClassicalStations::Glissando => 8,
    }
}

/// The station at a position of the list; the last station past its end.
pub open spec fn station_at(i: int) -> ClassicalStations {
    if i <= 0 {
        ClassicalStations::ClassicalCalifornia
    } else if i == 1 {
        ClassicalStations::Ultimate
    } else if i == 2 {
        ClassicalStations::GreatEscape
    } else if i == 3 {
        ClassicalStations::NuestraMusicaEn
    } else if i == 4 {
        ClassicalStations::NuestraMusicaEs
    } else if i == 5 {
        ClassicalStations::Arcade
    } else if i == 6 {
        ClassicalStations::Americana
    } else if i == 7 {
        ClassicalStations::Christmas
    } else {
        ClassicalStations::Glissando
    }
}

impl ClassicalStations {
    /// Position of this station in the list.
    pub fn position(&self) -> (i: usize)
        ensures
            i == station_position(*self),
            i < STATION_COUNT,
    {
        match self {
            ClassicalStations::ClassicalCalifornia => 0,
            ClassicalStations::Ultimate => 1,
            ClassicalStations::GreatEscape => 2,
            ClassicalStations::NuestraMusicaEn => 3,
            ClassicalStations::NuestraMusicaEs => 4,
            ClassicalStations::Arcade => 5,
            ClassicalStations::Americana => 6,
            ClassicalStations::Christmas => 7,
            ClassicalStations::Glissando => 8,
        }
    }

    /// The station at a position of the list, if there is one.
    pub fn from_position(i: usize) -> (r: Option<ClassicalStations>)
        ensures
            match r {
                Some(s) => i < STATION_COUNT && station_position(s) == i && s == station_at(i as int),
                None => i >= STATION_COUNT,
            },
    {
        match i {
            0 => Some(ClassicalStations::ClassicalCalifornia),
            1 => Some(ClassicalStations::Ultimate),
            2 => Some(ClassicalStations::GreatEscape),
            3 => Some(ClassicalStations::NuestraMusicaEn),
            4 => Some(ClassicalStations::NuestraMusicaEs),
            5 => Some(ClassicalStations::Arcade),
            6 => Some(ClassicalStations::Americana),
            7 => Some(ClassicalStations::Christmas),
            8 => Some(ClassicalStations::Glissando),
            _ => None,
        }
    }

    /// Every station, in list order.
    pub fn all() -> (v: Vec<ClassicalStations>)
        ensures
            v@.len() == STATION_COUNT,
            forall|i: int| 0 <= i < v@.len() ==> station_position(#[trigger] v@[i]) == i,
    {
        vec![
            ClassicalStations::ClassicalCalifornia,
            ClassicalStations::Ultimate,
            ClassicalStations::GreatEscape,
            ClassicalStations::NuestraMusicaEn,
            ClassicalStations::NuestraMusicaEs,
            ClassicalStations::Arcade,
            ClassicalStations::Americana,
            ClassicalStations::Christmas,
            ClassicalStations::Glissando,
        ]
    }
}

impl Default for ClassicalStations {
    /// The station that plays when none is chosen.
    fn default() -> (s: Self)
        ensures
            s == ClassicalStations::ClassicalCalifornia,
    {
        ClassicalStations::ClassicalCalifornia
    }
}

/// Two stations with the same position are the same station: the position
/// identifies a station.
pub proof fn lemma_position_identifies(a: ClassicalStations, b: ClassicalStations)
    ensures
        station_position(a) == station_position(b) ==> a == b,
{
}

/// Position and station determine each other.
pub proof fn lemma_position_roundtrip(s: ClassicalStations, i: int)
    ensures
        station_at(station_position(s) as int) == s,
        0 <= i < STATION_COUNT ==> station_position(station_at(i)) == i,
{
}

/// Distinct stations carry distinct names, so a name identifies a station.
pub proof fn lemma_names_identify(a: ClassicalStations, b: ClassicalStations)
    ensures
        a != b ==> station_record(a).name@ != station_record(b).name@,
{
    reveal_strlit("Classical California");
    reveal_strlit("Ultimate Playlist");
    reveal_strlit("Great Escape");
    reveal_strlit("Nuestra Música [In English]");
    reveal_strlit("Nuestra Música [En Español]");
    reveal_strlit("Arcade");
    reveal_strlit("Americana");
    reveal_strlit("Classical Christmas");
    reveal_strlit("Glissando");
    if a != b {
        let na = station_record(a).name@;
        let nb = station_record(b).name@;
        if na.len() == nb.len() {
            assert(na[0] != nb[0] || na[16] != nb[16]);
        }
    }
}

/// The station table: each station's name, the term the radio directory is
/// searched with, and the description shown beside the name.
pub proof fn lemma_station_table()
    ensures
        station_record(ClassicalStations::ClassicalCalifornia).name@ == "Classical California"@,
        station_record(ClassicalStations::ClassicalCalifornia).search@ == "Classical KUSC"@,
        station_record(ClassicalStations::ClassicalCalifornia).description@ == "Live Streaming 24/7 Classical Music"@,
        station_record(ClassicalStations::Ultimate).name@ == "Ultimate Playlist"@,
        station_record(ClassicalStations::Ultimate).search@ == "KDFC Classical California Ultimate Playlist"@,
        station_record(ClassicalStations::Ultimate).description@ == "Listener-voted favorites"@,
        station_record(ClassicalStations::GreatEscape).name@ == "Great Escape"@,
        station_record(ClassicalStations::GreatEscape).search@ == "KDFC Great Escape"@,
        station_record(ClassicalStations::GreatEscape).description@ == "Peaceful, ambient classical"@,
        station_record(ClassicalStations::NuestraMusicaEn).name@ == "Nuestra Música [In English]"@,
        station_record(ClassicalStations::NuestraMusicaEn).search@ == "CC - Nuestra Música [In English]"@,
        station_record(ClassicalStations::NuestraMusicaEn).description@ == "Classical music from Latin composers"@,
        station_record(ClassicalStations::NuestraMusicaEs).name@ == "Nuestra Música [En Español]"@,
        station_record(ClassicalStations::NuestraMusicaEs).search@ == "CC - Nuestra Música [En Español]"@,
        station_record(ClassicalStations::NuestraMusicaEs).description@ == "Classical music from Latin composers"@,
        station_record(ClassicalStations::Arcade).name@ == "Arcade"@,
        station_record(ClassicalStations::Arcade).search@ == "KDFC Arcade"@,
        station_record(ClassicalStations::Arcade).description@ == "Video game & film scores"@,
        station_record(ClassicalStations::Americana).name@ == "Americana"@,
        station_record(ClassicalStations::Americana).search@ == "KDFC Classical Americana"@,
        station_record(ClassicalStations::Americana).description@ == "American classical composers"@,
        station_record(ClassicalStations::Christmas).name@ == "Classical Christmas"@,
        station_record(ClassicalStations::Christmas).search@ == "KDFC Classical Christmas"@,
        station_record(ClassicalStations::Christmas).description@ == "Christmas Classics"@,
        station_record(ClassicalStations::Glissando).name@ == "Glissando"@,
        station_record(ClassicalStations::Glissando).search@ == "KDFC Glissando"@,
        station_record(ClassicalStations::Glissando).description@ == "A New Children's Musical Adventure Every 20 Minutes!"@,
{
}

/// Distinct stations are searched for with distinct terms, so no two
/// stations look up the same directory entry.
pub proof fn lemma_searches_identify(a: ClassicalStations, b: ClassicalStations)
    ensures
        a != b ==> station_record(a).search@ != station_record(b).search@,
{
    reveal_strlit("Classical KUSC");
    reveal_strlit("KDFC Classical California Ultimate Playlist");
    reveal_strlit("KDFC Great Escape");
    reveal_strlit("CC - Nuestra Música [In English]");
    reveal_strlit("CC - Nuestra Música [En Español]");
    reveal_strlit("KDFC Arcade");
    reveal_strlit("KDFC Classical Americana");
    reveal_strlit("KDFC Classical Christmas");
    reveal_strlit("KDFC Glissando");
    if a != b {
        let sa = station_record(a).search@;
        let sb = station_record(b).search@;
        if sa.len() == sb.len() {
            assert(sa[0] != sb[0] || sa[15] != sb[15] || sa[21] != sb[21]);
        }
    }
}

/// The order in which the stations are listed and drawn.
pub proof fn lemma_list_order()
    ensures
        STATION_COUNT == 9,
        station_position(ClassicalStations::ClassicalCalifornia) == 0,
        station_position(ClassicalStations::Ultimate) == 1,
        station_position(ClassicalStations::GreatEscape) == 2,
        station_position(ClassicalStations::NuestraMusicaEn) == 3,
        station_position(ClassicalStations::NuestraMusicaEs) == 4,
        station_position(ClassicalStations::Arcade) == 5,
        station_position(ClassicalStations::Americana) == 6,
        station_position(ClassicalStations::Christmas) == 7,
        station_position(ClassicalStations::Glissando) == 8,
{
}

} // verus!
