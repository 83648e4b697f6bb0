//! The match and mutator options of the GUI, with the names it shows and stores
//! for each option.

use vstd::prelude::*;
use crate::text::{opt_view, str_eq};

verus! {

/// The arena of a match; `Custom` names a custom map file.
#[derive(Debug)]
pub enum MapType {
    DfhStadium,
    Mannfield,
    ChampionsField,
    UrbanCentral,
    BeckwithPark,
    UtopiaColiseum,
    Wasteland,
    NeoTokyo,
    AquaDome,
    StarbaseArc,
    Farmstead,
    SaltyShores,
    DfhStadiumStormy,
    DfhStadiumDay,
    MannfieldStormy,
    MannfieldNight,
    ChampionsFieldDay,
    BeckwithParkStormy,
    BeckwithParkMidnight,
    UrbanCentralNight,
    UrbanCentralDawn,
    UtopiaColiseumDusk,
    DfhStadiumSnowy,
    MannfieldSnowy,
    UtopiaColiseumSnowy,
    Badlands,
    BadlandsNight,
    TokyoUnderpass,
    Arctagon,
    Pillars,
    Cosmic,
    DoubleGoal,
    Octagon,
    Underpass,
    UtopiaRetro,
    HoopsDunkHouse,
    DropShotCore707,
    ThrowbackStadium,
    ForbiddenTemple,
    RivalsArena,
    FarmsteadNight,
    SaltyShoresNight,
    NeonFields,
    DFHStadiumCircuit,
    DeadeyeCanyon,
    StarbaseArcAftermath,
    WastelandNight,
    BeckwithParkGothamNight,
    ForbiddenTempleDay,
    UrbanCentralHaunted,
    ChampionsFieldNFL,
    ThrowbackStadiumSnowy,
    Basin,
    Corridor,
    Loophole,
    Galleon,
    GalleonRetro,
    Hourglass,
    Barricade,
    Colossus,
    Custom(String),
}

impl Clone for MapType {
    fn clone(&self) -> (r: Self)
        ensures
            r == *self,
    {
        match self {
            MapType::DfhStadium => MapType::DfhStadium,
            MapType::Mannfield => MapType::Mannfield,
            MapType::ChampionsField => MapType::ChampionsField,
            MapType::UrbanCentral => MapType::UrbanCentral,
            MapType::BeckwithPark => MapType::BeckwithPark,
            MapType::UtopiaColiseum => MapType::UtopiaColiseum,
            MapType::Wasteland => MapType::Wasteland,
            MapType::NeoTokyo => MapType::NeoTokyo,
            MapType::AquaDome => MapType::AquaDome,
            MapType::StarbaseArc => MapType::StarbaseArc,
            MapType::Farmstead => MapType::Farmstead,
            MapType::SaltyShores => MapType::SaltyShores,
            MapType::DfhStadiumStormy => MapType::DfhStadiumStormy,
            MapType::DfhStadiumDay => MapType::DfhStadiumDay,
            MapType::MannfieldStormy => MapType::MannfieldStormy,
            MapType::MannfieldNight => MapType::MannfieldNight,
            MapType::ChampionsFieldDay => MapType::ChampionsFieldDay,
            MapType::BeckwithParkStormy => MapType::BeckwithParkStormy,
            MapType::BeckwithParkMidnight => MapType::BeckwithParkMidnight,
            MapType::UrbanCentralNight => MapType::UrbanCentralNight,
            MapType::UrbanCentralDawn => MapType::UrbanCentralDawn,
            MapType::UtopiaColiseumDusk => MapType::UtopiaColiseumDusk,
            MapType::DfhStadiumSnowy => MapType::DfhStadiumSnowy,
            MapType::MannfieldSnowy => MapType::MannfieldSnowy,
            MapType::UtopiaColiseumSnowy => MapType::UtopiaColiseumSnowy,
            MapType::Badlands => MapType::Badlands,
            MapType::BadlandsNight => MapType::BadlandsNight,
            MapType::TokyoUnderpass => MapType::TokyoUnderpass,
            MapType::Arctagon => MapType::Arctagon,
            MapType::Pillars => MapType::Pillars,
            MapType::Cosmic => MapType::Cosmic,
            MapType::DoubleGoal => MapType::DoubleGoal,
            MapType::Octagon => MapType::Octagon,
            MapType::Underpass => MapType::Underpass,
            MapType::UtopiaRetro => MapType::UtopiaRetro,
            MapType::HoopsDunkHouse => MapType::HoopsDunkHouse,
            MapType::DropShotCore707 => MapType::DropShotCore707,
            MapType::ThrowbackStadium => MapType::ThrowbackStadium,
            MapType::ForbiddenTemple => MapType::ForbiddenTemple,
            MapType::RivalsArena => MapType::RivalsArena,
            MapType::FarmsteadNight => MapType::FarmsteadNight,
            MapType::SaltyShoresNight => MapType::SaltyShoresNight,
            MapType::NeonFields => MapType::NeonFields,
            MapType::DFHStadiumCircuit => MapType::DFHStadiumCircuit,
            MapType::DeadeyeCanyon => MapType::DeadeyeCanyon,
            MapType::StarbaseArcAftermath => MapType::StarbaseArcAftermath,
            MapType::WastelandNight => MapType::WastelandNight,
            MapType::BeckwithParkGothamNight => MapType::BeckwithParkGothamNight,
            MapType::ForbiddenTempleDay => MapType::ForbiddenTempleDay,
            MapType::UrbanCentralHaunted => MapType::UrbanCentralHaunted,
            MapType::ChampionsFieldNFL => MapType::ChampionsFieldNFL,
            MapType::ThrowbackStadiumSnowy => MapType::ThrowbackStadiumSnowy,
            MapType::Basin => MapType::Basin,
            MapType::Corridor => MapType::Corridor,
            MapType::Loophole => MapType::Loophole,
            MapType::Galleon => MapType::Galleon,
            MapType::GalleonRetro => MapType::GalleonRetro,
            MapType::Hourglass => MapType::Hourglass,
            MapType::Barricade => MapType::Barricade,
            MapType::Colossus => MapType::Colossus,
            MapType::Custom(s) => MapType::Custom(s.clone()),
        }
    }
}

impl MapType {
    /// The name under which the GUI shows and stores this map.
    pub open spec fn label(self) -> Seq<char> {
        match self {
            MapType::DfhStadium => "DFHStadium"@,
            MapType::Mannfield => "Mannfield"@,
            MapType::ChampionsField => "ChampionsField"@,
            MapType::UrbanCentral => "UrbanCentral"@,
            MapType::BeckwithPark => "BeckwithPark"@,
            MapType::UtopiaColiseum => "UtopiaColiseum"@,
            MapType::Wasteland => "Wasteland"@,
            MapType::NeoTokyo => "NeoTokyo"@,
            MapType::AquaDome => "AquaDome"@,
            MapType::StarbaseArc => "StarbaseArc"@,
            MapType::Farmstead => "Farmstead"@,
            MapType::SaltyShores => "SaltyShores"@,
            MapType::DfhStadiumStormy => "DFHStadium_Stormy"@,
            MapType::DfhStadiumDay => "DFHStadium_Day"@,
            MapType::MannfieldStormy => "Mannfield_Stormy"@,
            MapType::MannfieldNight => "Mannfield_Night"@,
            MapType::ChampionsFieldDay => "ChampionsField_Day"@,
            MapType::BeckwithParkStormy => "BeckwithPark_Stormy"@,
            MapType::BeckwithParkMidnight => "BeckwithPark_Midnight"@,
            MapType::UrbanCentralNight => "UrbanCentral_Night"@,
            MapType::UrbanCentralDawn => "UrbanCentral_Dawn"@,
            MapType::UtopiaColiseumDusk => "UtopiaColiseum_Dusk"@,
            MapType::DfhStadiumSnowy => "DFHStadium_Snowy"@,
            MapType::MannfieldSnowy => "Mannfield_Snowy"@,
            MapType::UtopiaColiseumSnowy => "UtopiaColiseum_Snowy"@,
            MapType::Badlands => "Badlands"@,
            MapType::BadlandsNight => "Badlands_Night"@,
            MapType::TokyoUnderpass => "TokyoUnderpass"@,
            MapType::Arctagon => "Arctagon"@,
            MapType::Pillars => "Pillars"@,
            MapType::Cosmic => "Cosmic"@,
            MapType::DoubleGoal => "DoubleGoal"@,
            MapType::Octagon => "Octagon"@,
            MapType::Underpass => "Underpass"@,
            MapType::UtopiaRetro => "UtopiaRetro"@,
            MapType::HoopsDunkHouse => "Hoops_DunkHouse"@,
            MapType::DropShotCore707 => "DropShot_Core707"@,
            MapType::ThrowbackStadium => "ThrowbackStadium"@,
            MapType::ForbiddenTemple => "ForbiddenTemple"@,
            MapType::RivalsArena => "RivalsArena"@,
            MapType::FarmsteadNight => "Farmstead_Night"@,
            MapType::SaltyShoresNight => "SaltyShores_Night"@,
            MapType::NeonFields => "NeonFields"@,
            MapType::DFHStadiumCircuit => "DFHStadium_Circuit"@,
            MapType::DeadeyeCanyon => "DeadeyeCanyon"@,
            MapType::StarbaseArcAftermath => "StarbaseArc_Aftermath"@,
            MapType::WastelandNight => "Wasteland_Night"@,
            MapType::BeckwithParkGothamNight => "BeckwithParkGothamNight"@,
            MapType::ForbiddenTempleDay => "ForbiddenTemple_Day"@,
            MapType::UrbanCentralHaunted => "UrbanCentral_Haunted"@,
            MapType::ChampionsFieldNFL => "ChampionsField_NFL"@,
            MapType::ThrowbackStadiumSnowy => "ThrowbackStadium_Snowy"@,
            MapType::Basin => "Basin"@,
            MapType::Corridor => "Corridor"@,
            MapType::Loophole => "Loophole"@,
            MapType::Galleon => "Galleon"@,
            MapType::GalleonRetro => "GalleonRetro"@,
            MapType::Hourglass => "Hourglass"@,
            MapType::Barricade => "Barricade"@,
            MapType::Colossus => "Colossus"@,
            MapType::Custom(s) => s@,
        }
    }

    /// The built-in map named `s`, if any.
    pub open spec fn builtin_named(s: Seq<char>) -> Option<Self> {
        if s == "DFHStadium"@ {
            Some(MapType::DfhStadium)
        } else if s == "Mannfield"@ {
            Some(MapType::Mannfield)
        } else if s == "ChampionsField"@ {
            Some(MapType::ChampionsField)
        } else if s == "UrbanCentral"@ {
            Some(MapType::UrbanCentral)
        } else if s == "BeckwithPark"@ {
            Some(MapType::BeckwithPark)
        } else if s == "UtopiaColiseum"@ {
            Some(MapType::UtopiaColiseum)
        } else if s == "Wasteland"@ {
            Some(MapType::Wasteland)
        } else if s == "NeoTokyo"@ {
            Some(MapType::NeoTokyo)
        } else if s == "AquaDome"@ {
            Some(MapType::AquaDome)
        } else if s == "StarbaseArc"@ {
            Some(MapType::StarbaseArc)
        } else if s == "Farmstead"@ {
            Some(MapType::Farmstead)
        } else if s == "SaltyShores"@ {
            Some(MapType::SaltyShores)
        } else if s == "DFHStadium_Stormy"@ {
            Some(MapType::DfhStadiumStormy)
        } else if s == "DFHStadium_Day"@ {
            Some(MapType::DfhStadiumDay)
        } else if s == "Mannfield_Stormy"@ {
            Some(MapType::MannfieldStormy)
        } else if s == "Mannfield_Night"@ {
            Some(MapType::MannfieldNight)
        } else if s == "ChampionsField_Day"@ {
            Some(MapType::ChampionsFieldDay)
        } else if s == "BeckwithPark_Stormy"@ {
            Some(MapType::BeckwithParkStormy)
        } else if s == "BeckwithPark_Midnight"@ {
            Some(MapType::BeckwithParkMidnight)
        } else if s == "UrbanCentral_Night"@ {
            Some(MapType::UrbanCentralNight)
        } else if s == "UrbanCentral_Dawn"@ {
            Some(MapType::UrbanCentralDawn)
        } else if s == "UtopiaColiseum_Dusk"@ {
            Some(MapType::UtopiaColiseumDusk)
        } else if s == "DFHStadium_Snowy"@ {
            Some(MapType::DfhStadiumSnowy)
        } else if s == "Mannfield_Snowy"@ {
            Some(MapType::MannfieldSnowy)
        } else if s == "UtopiaColiseum_Snowy"@ {
            Some(MapType::UtopiaColiseumSnowy)
        } else if s == "Badlands"@ {
            Some(MapType::Badlands)
        } else if s == "Badlands_Night"@ {
            Some(MapType::BadlandsNight)
        } else if s == "TokyoUnderpass"@ {
            Some(MapType::TokyoUnderpass)
        } else if s == "Arctagon"@ {
            Some(MapType::Arctagon)
        } else if s == "Pillars"@ {
            Some(MapType::Pillars)
        } else if s == "Cosmic"@ {
            Some(MapType::Cosmic)
        } else if s == "DoubleGoal"@ {
            Some(MapType::DoubleGoal)
        } else if s == "Octagon"@ {
            Some(MapType::Octagon)
        } else if s == "Underpass"@ {
            Some(MapType::Underpass)
        } else if s == "UtopiaRetro"@ {
            Some(MapType::UtopiaRetro)
        } else if s == "Hoops_DunkHouse"@ {
            Some(MapType::HoopsDunkHouse)
        } else if s == "DropShot_Core707"@ {
            Some(MapType::DropShotCore707)
        } else if s == "ThrowbackStadium"@ {
            Some(MapType::ThrowbackStadium)
        } else if s == "ForbiddenTemple"@ {
            Some(MapType::ForbiddenTemple)
        } else if s == "RivalsArena"@ {
            Some(MapType::RivalsArena)
        } else if s == "Farmstead_Night"@ {
            Some(MapType::FarmsteadNight)
        } else if s == "SaltyShores_Night"@ {
            Some(MapType::SaltyShoresNight)
        } else if s == "NeonFields"@ {
            Some(MapType::NeonFields)
        } else if s == "DFHStadium_Circuit"@ {
            Some(MapType::DFHStadiumCircuit)
        } else if s == "DeadeyeCanyon"@ {
            Some(MapType::DeadeyeCanyon)
        } else if s == "StarbaseArc_Aftermath"@ {
            Some(MapType::StarbaseArcAftermath)
        } else if s == "Wasteland_Night"@ {
            Some(MapType::WastelandNight)
        } else if s == "BeckwithParkGothamNight"@ {
            Some(MapType::BeckwithParkGothamNight)
        } else if s == "ForbiddenTemple_Day"@ {
            Some(MapType::ForbiddenTempleDay)
        } else if s == "UrbanCentral_Haunted"@ {
            Some(MapType::UrbanCentralHaunted)
        } else if s == "ChampionsField_NFL"@ {
            Some(MapType::ChampionsFieldNFL)
        } else if s == "ThrowbackStadium_Snowy"@ {
            Some(MapType::ThrowbackStadiumSnowy)
        } else if s == "Basin"@ {
            Some(MapType::Basin)
        } else if s == "Corridor"@ {
            Some(MapType::Corridor)
        } else if s == "Loophole"@ {
            Some(MapType::Loophole)
        } else if s == "Galleon"@ {
            Some(MapType::Galleon)
        } else if s == "GalleonRetro"@ {
            Some(MapType::GalleonRetro)
        } else if s == "Hourglass"@ {
            Some(MapType::Hourglass)
        } else if s == "Barricade"@ {
            Some(MapType::Barricade)
        } else if s == "Colossus"@ {
            Some(MapType::Colossus)
        } else {
            None
        }
    }

    /// `m` is what the name `s` stands for: the built-in map of that name,
    /// or else a custom map whose name is `s`.
    pub open spec fn parses_to(s: Seq<char>, m: MapType) -> bool {
        match Self::builtin_named(s) {
            Some(b) => m == b,
            None => m matches MapType::Custom(c) && c@ == s,
        }
    }

    /// `m` is a custom map that carries the name of a built-in one.
    pub open spec fn named_like_builtin(m: MapType) -> bool {
        m matches MapType::Custom(c) && Self::builtin_named(c@) is Some
    }

    /// `m` is the map a stored name gives: what the name stands for, or else the default map.
    pub open spec fn read_as(stored: Option<Seq<char>>, m: MapType) -> bool {
        match stored {
            Some(l) => Self::parses_to(l, m),
            None => m == MapType::DfhStadium,
        }
    }

    /// `a` and `b` are the same map: the same built-in map, or custom maps of one name.
    pub open spec fn same_map(a: MapType, b: MapType) -> bool {
        match (a, b) {
            (MapType::Custom(x), MapType::Custom(y)) => x@ == y@,
            _ => a == b,
        }
    }

    /// The built-in maps in declaration order, then a custom map with an empty name.
    pub open spec fn listed(s: Seq<MapType>) -> bool {
        &&& s.len() == 61
        &&& s.subrange(0, 60) == seq![MapType::DfhStadium, MapType::Mannfield, MapType::ChampionsField, MapType::UrbanCentral, MapType::BeckwithPark, MapType::UtopiaColiseum, MapType::Wasteland, MapType::NeoTokyo, MapType::AquaDome, MapType::StarbaseArc, MapType::Farmstead, MapType::SaltyShores, MapType::DfhStadiumStormy, MapType::DfhStadiumDay, MapType::MannfieldStormy, MapType::MannfieldNight, MapType::ChampionsFieldDay, MapType::BeckwithParkStormy, MapType::BeckwithParkMidnight, MapType::UrbanCentralNight, MapType::UrbanCentralDawn, MapType::UtopiaColiseumDusk, MapType::DfhStadiumSnowy, MapType::MannfieldSnowy, MapType::UtopiaColiseumSnowy, MapType::Badlands, MapType::BadlandsNight, MapType::TokyoUnderpass, MapType::Arctagon, MapType::Pillars, MapType::Cosmic, MapType::DoubleGoal, MapType::Octagon, MapType::Underpass, MapType::UtopiaRetro, MapType::HoopsDunkHouse, MapType::DropShotCore707, MapType::ThrowbackStadium, MapType::ForbiddenTemple, MapType::RivalsArena, MapType::FarmsteadNight, MapType::SaltyShoresNight, MapType::NeonFields, MapType::DFHStadiumCircuit, MapType::DeadeyeCanyon, MapType::StarbaseArcAftermath, MapType::WastelandNight, MapType::BeckwithParkGothamNight, MapType::ForbiddenTempleDay, MapType::UrbanCentralHaunted, MapType::ChampionsFieldNFL, MapType::ThrowbackStadiumSnowy, MapType::Basin, MapType::Corridor, MapType::Loophole, MapType::Galleon, MapType::GalleonRetro, MapType::Hourglass, MapType::Barricade, MapType::Colossus]
        &&& s[60] matches MapType::Custom(c) && c@.len() == 0
    }

    /// The name under which the GUI shows and stores this map.
    pub fn as_label(&self) -> (r: &str)
        ensures
            r@ == self.label(),
    {
        match self {
            MapType::DfhStadium => "DFHStadium",
            MapType::Mannfield => "Mannfield",
            MapType::ChampionsField => "ChampionsField",
            MapType::UrbanCentral => "UrbanCentral",
            MapType::BeckwithPark => "BeckwithPark",
            MapType::UtopiaColiseum => "UtopiaColiseum",
            MapType::Wasteland => "Wasteland",
            MapType::NeoTokyo => "NeoTokyo",
            MapType::AquaDome => "AquaDome",
            MapType::StarbaseArc => "StarbaseArc",
            MapType::Farmstead => "Farmstead",
            MapType::SaltyShores => "SaltyShores",
            MapType::DfhStadiumStormy => "DFHStadium_Stormy",
            MapType::DfhStadiumDay => "DFHStadium_Day",
            MapType::MannfieldStormy => "Mannfield_Stormy",
            MapType::MannfieldNight => "Mannfield_Night",
            MapType::ChampionsFieldDay => "ChampionsField_Day",
            MapType::BeckwithParkStormy => "BeckwithPark_Stormy",
            MapType::BeckwithParkMidnight => "BeckwithPark_Midnight",
            MapType::UrbanCentralNight => "UrbanCentral_Night",
            MapType::UrbanCentralDawn => "UrbanCentral_Dawn",
            MapType::UtopiaColiseumDusk => "UtopiaColiseum_Dusk",
            MapType::DfhStadiumSnowy => "DFHStadium_Snowy",
            MapType::MannfieldSnowy => "Mannfield_Snowy",
            MapType::UtopiaColiseumSnowy => "UtopiaColiseum_Snowy",
            MapType::Badlands => "Badlands",
            MapType::BadlandsNight => "Badlands_Night",
            MapType::TokyoUnderpass => "TokyoUnderpass",
            MapType::Arctagon => "Arctagon",
            MapType::Pillars => "Pillars",
            MapType::Cosmic => "Cosmic",
            MapType::DoubleGoal => "DoubleGoal",
            MapType::Octagon => "Octagon",
            MapType::Underpass => "Underpass",
            MapType::UtopiaRetro => "UtopiaRetro",
            MapType::HoopsDunkHouse => "Hoops_DunkHouse",
            MapType::DropShotCore707 => "DropShot_Core707",
            MapType::ThrowbackStadium => "ThrowbackStadium",
            MapType::ForbiddenTemple => "ForbiddenTemple",
            MapType::RivalsArena => "RivalsArena",
            MapType::FarmsteadNight => "Farmstead_Night",
            MapType::SaltyShoresNight => "SaltyShores_Night",
            MapType::NeonFields => "NeonFields",
            MapType::DFHStadiumCircuit => "DFHStadium_Circuit",
            MapType::DeadeyeCanyon => "DeadeyeCanyon",
            MapType::StarbaseArcAftermath => "StarbaseArc_Aftermath",
            MapType::WastelandNight => "Wasteland_Night",
            MapType::BeckwithParkGothamNight => "BeckwithParkGothamNight",
            MapType::ForbiddenTempleDay => "ForbiddenTemple_Day",
            MapType::UrbanCentralHaunted => "UrbanCentral_Haunted",
            MapType::ChampionsFieldNFL => "ChampionsField_NFL",
            MapType::ThrowbackStadiumSnowy => "ThrowbackStadium_Snowy",
            MapType::Basin => "Basin",
            MapType::Corridor => "Corridor",
            MapType::Loophole => "Loophole",
            MapType::Galleon => "Galleon",
            MapType::GalleonRetro => "GalleonRetro",
            MapType::Hourglass => "Hourglass",
            MapType::Barricade => "Barricade",
            MapType::Colossus => "Colossus",
            MapType::Custom(s) => s.as_str(),
        }
    }

    /// The map named `s`: a built-in map, or else a custom map of that name.
    pub fn from_label(s: &str) -> (r: MapType)
        ensures
            Self::parses_to(s@, r),
    {
        if str_eq(s, "DFHStadium") {
            MapType::DfhStadium
        } else if str_eq(s, "Mannfield") {
            MapType::Mannfield
        } else if str_eq(s, "ChampionsField") {
            MapType::ChampionsField
        } else if str_eq(s, "UrbanCentral") {
            MapType::UrbanCentral
        } else if str_eq(s, "BeckwithPark") {
            MapType::BeckwithPark
        } else if str_eq(s, "UtopiaColiseum") {
            MapType::UtopiaColiseum
        } else if str_eq(s, "Wasteland") {
            MapType::Wasteland
        } else if str_eq(s, "NeoTokyo") {
            MapType::NeoTokyo
        } else if str_eq(s, "AquaDome") {
            MapType::AquaDome
        } else if str_eq(s, "StarbaseArc") {
            MapType::StarbaseArc
        } else if str_eq(s, "Farmstead") {
            MapType::Farmstead
        } else if str_eq(s, "SaltyShores") {
            MapType::SaltyShores
        } else if str_eq(s, "DFHStadium_Stormy") {
            MapType::DfhStadiumStormy
        } else if str_eq(s, "DFHStadium_Day") {
            MapType::DfhStadiumDay
        } else if str_eq(s, "Mannfield_Stormy") {
            MapType::MannfieldStormy
        } else if str_eq(s, "Mannfield_Night") {
            MapType::MannfieldNight
        } else if str_eq(s, "ChampionsField_Day") {
            MapType::ChampionsFieldDay
        } else if str_eq(s, "BeckwithPark_Stormy") {
            MapType::BeckwithParkStormy
        } else if str_eq(s, "BeckwithPark_Midnight") {
            MapType::BeckwithParkMidnight
        } else if str_eq(s, "UrbanCentral_Night") {
            MapType::UrbanCentralNight
        } else if str_eq(s, "UrbanCentral_Dawn") {
            MapType::UrbanCentralDawn
        } else if str_eq(s, "UtopiaColiseum_Dusk") {
            MapType::UtopiaColiseumDusk
        } else if str_eq(s, "DFHStadium_Snowy") {
            MapType::DfhStadiumSnowy
        } else if str_eq(s, "Mannfield_Snowy") {
            MapType::MannfieldSnowy
        } else if str_eq(s, "UtopiaColiseum_Snowy") {
            MapType::UtopiaColiseumSnowy
        } else if str_eq(s, "Badlands") {
            MapType::Badlands
        } else if str_eq(s, "Badlands_Night") {
            MapType::BadlandsNight
        } else if str_eq(s, "TokyoUnderpass") {
            MapType::TokyoUnderpass
        } else if str_eq(s, "Arctagon") {
            MapType::Arctagon
        } else if str_eq(s, "Pillars") {
            MapType::Pillars
        } else if str_eq(s, "Cosmic") {
            MapType::Cosmic
        } else if str_eq(s, "DoubleGoal") {
            MapType::DoubleGoal
        } else if str_eq(s, "Octagon") {
            MapType::Octagon
        } else if str_eq(s, "Underpass") {
            MapType::Underpass
        } else if str_eq(s, "UtopiaRetro") {
            MapType::UtopiaRetro
        } else if str_eq(s, "Hoops_DunkHouse") {
            MapType::HoopsDunkHouse
        } else if str_eq(s, "DropShot_Core707") {
            MapType::DropShotCore707
        } else if str_eq(s, "ThrowbackStadium") {
            MapType::ThrowbackStadium
        } else if str_eq(s, "ForbiddenTemple") {
            MapType::ForbiddenTemple
        } else if str_eq(s, "RivalsArena") {
            MapType::RivalsArena
        } else if str_eq(s, "Farmstead_Night") {
            MapType::FarmsteadNight
        } else if str_eq(s, "SaltyShores_Night") {
            MapType::SaltyShoresNight
        } else if str_eq(s, "NeonFields") {
            MapType::NeonFields
        } else if str_eq(s, "DFHStadium_Circuit") {
            MapType::DFHStadiumCircuit
        } else if str_eq(s, "DeadeyeCanyon") {
            MapType::DeadeyeCanyon
        } else if str_eq(s, "StarbaseArc_Aftermath") {
            MapType::StarbaseArcAftermath
        } else if str_eq(s, "Wasteland_Night") {
            MapType::WastelandNight
        } else if str_eq(s, "BeckwithParkGothamNight") {
            MapType::BeckwithParkGothamNight
        } else if str_eq(s, "ForbiddenTemple_Day") {
            MapType::ForbiddenTempleDay
        } else if str_eq(s, "UrbanCentral_Haunted") {
            MapType::UrbanCentralHaunted
        } else if str_eq(s, "ChampionsField_NFL") {
            MapType::ChampionsFieldNFL
        } else if str_eq(s, "ThrowbackStadium_Snowy") {
            MapType::ThrowbackStadiumSnowy
        } else if str_eq(s, "Basin") {
            MapType::Basin
        } else if str_eq(s, "Corridor") {
            MapType::Corridor
        } else if str_eq(s, "Loophole") {
            MapType::Loophole
        } else if str_eq(s, "Galleon") {
            MapType::Galleon
        } else if str_eq(s, "GalleonRetro") {
            MapType::GalleonRetro
        } else if str_eq(s, "Hourglass") {
            MapType::Hourglass
        } else if str_eq(s, "Barricade") {
            MapType::Barricade
        } else if str_eq(s, "Colossus") {
            MapType::Colossus
        } else {
            MapType::Custom(s.to_owned())
        }
    }

    /// The map a stored name gives: what the name stands for, or else the default map.
    pub fn from_stored_label(stored: Option<String>) -> (r: MapType)
        ensures
            Self::read_as(opt_view(stored), r),
    {
        match stored {
            Some(l) => Self::from_label(l.as_str()),
            None => MapType::DfhStadium,
        }
    }

    /// Every map: the built-in ones in declaration order, then a custom map with an empty name.
    pub fn all() -> (r: Vec<Self>)
        ensures
            Self::listed(r@),
    {
        let r = vec![MapType::DfhStadium, MapType::Mannfield, MapType::ChampionsField, MapType::UrbanCentral, MapType::BeckwithPark, MapType::UtopiaColiseum, MapType::Wasteland, MapType::NeoTokyo, MapType::AquaDome, MapType::StarbaseArc, MapType::Farmstead, MapType::SaltyShores, MapType::DfhStadiumStormy, MapType::DfhStadiumDay, MapType::MannfieldStormy, MapType::MannfieldNight, MapType::ChampionsFieldDay, MapType::BeckwithParkStormy, MapType::BeckwithParkMidnight, MapType::UrbanCentralNight, MapType::UrbanCentralDawn, MapType::UtopiaColiseumDusk, MapType::DfhStadiumSnowy, MapType::MannfieldSnowy, MapType::UtopiaColiseumSnowy, MapType::Badlands, MapType::BadlandsNight, MapType::TokyoUnderpass, MapType::Arctagon, MapType::Pillars, MapType::Cosmic, MapType::DoubleGoal, MapType::Octagon, MapType::Underpass, MapType::UtopiaRetro, MapType::HoopsDunkHouse, MapType::DropShotCore707, MapType::ThrowbackStadium, MapType::ForbiddenTemple, MapType::RivalsArena, MapType::FarmsteadNight, MapType::SaltyShoresNight, MapType::NeonFields, MapType::DFHStadiumCircuit, MapType::DeadeyeCanyon, MapType::StarbaseArcAftermath, MapType::WastelandNight, MapType::BeckwithParkGothamNight, MapType::ForbiddenTempleDay, MapType::UrbanCentralHaunted, MapType::ChampionsFieldNFL, MapType::ThrowbackStadiumSnowy, MapType::Basin, MapType::Corridor, MapType::Loophole, MapType::Galleon, MapType::GalleonRetro, MapType::Hourglass, MapType::Barricade, MapType::Colossus, MapType::Custom(String::new())];
        assert(r@.subrange(0, 60) =~= seq![MapType::DfhStadium, MapType::Mannfield, MapType::ChampionsField, MapType::UrbanCentral, MapType::BeckwithPark, MapType::UtopiaColiseum, MapType::Wasteland, MapType::NeoTokyo, MapType::AquaDome, MapType::StarbaseArc, MapType::Farmstead, MapType::SaltyShores, MapType::DfhStadiumStormy, MapType::DfhStadiumDay, MapType::MannfieldStormy, MapType::MannfieldNight, MapType::ChampionsFieldDay, MapType::BeckwithParkStormy, MapType::BeckwithParkMidnight, MapType::UrbanCentralNight, MapType::UrbanCentralDawn, MapType::UtopiaColiseumDusk, MapType::DfhStadiumSnowy, MapType::MannfieldSnowy, MapType::UtopiaColiseumSnowy, MapType::Badlands, MapType::BadlandsNight, MapType::TokyoUnderpass, MapType::Arctagon, MapType::Pillars, MapType::Cosmic, MapType::DoubleGoal, MapType::Octagon, MapType::Underpass, MapType::UtopiaRetro, MapType::HoopsDunkHouse, MapType::DropShotCore707, MapType::ThrowbackStadium, MapType::ForbiddenTemple, MapType::RivalsArena, MapType::FarmsteadNight, MapType::SaltyShoresNight, MapType::NeonFields, MapType::DFHStadiumCircuit, MapType::DeadeyeCanyon, MapType::StarbaseArcAftermath, MapType::WastelandNight, MapType::BeckwithParkGothamNight, MapType::ForbiddenTempleDay, MapType::UrbanCentralHaunted, MapType::ChampionsFieldNFL, MapType::ThrowbackStadiumSnowy, MapType::Basin, MapType::Corridor, MapType::Loophole, MapType::Galleon, MapType::GalleonRetro, MapType::Hourglass, MapType::Barricade, MapType::Colossus]);
        r
    }

    /// Reading back the name of a map gives the same map, unless it is a custom map
    /// that carries the name of a built-in one.
    pub proof fn lemma_label_round_trip(self, other: MapType)
        requires
            !Self::named_like_builtin(self),
            Self::parses_to(self.label(), other),
        ensures
            Self::same_map(self, other),
    {
        reveal_strlit("DFHStadium");
        assert("DFHStadium"@ =~= seq!['D', 'F', 'H', 'S', 't', 'a', 'd', 'i', 'u', 'm']);
        reveal_strlit("Mannfield");
        assert("Mannfield"@ =~= seq!['M', 'a', 'n', 'n', 'f', 'i', 'e', 'l', 'd']);
        reveal_strlit("ChampionsField");
        assert("ChampionsField"@ =~= seq!['C', 'h', 'a', 'm', 'p', 'i', 'o', 'n', 's', 'F', 'i', 'e', 'l', 'd']);
        reveal_strlit("UrbanCentral");
        assert("UrbanCentral"@ =~= seq!['U', 'r', 'b', 'a', 'n', 'C', 'e', 'n', 't', 'r', 'a', 'l']);
        reveal_strlit("BeckwithPark");
        assert("BeckwithPark"@ =~= seq!['B', 'e', 'c', 'k', 'w', 'i', 't', 'h', 'P', 'a', 'r', 'k']);
        reveal_strlit("UtopiaColiseum");
        assert("UtopiaColiseum"@ =~= seq!['U', 't', 'o', 'p', 'i', 'a', 'C', 'o', 'l', 'i', 's', 'e', 'u', 'm']);
        reveal_strlit("Wasteland");
        assert("Wasteland"@ =~= seq!['W', 'a', 's', 't', 'e', 'l', 'a', 'n', 'd']);
        reveal_strlit("NeoTokyo");
        assert("NeoTokyo"@ =~= seq!['N', 'e', 'o', 'T', 'o', 'k', 'y', 'o']);
        reveal_strlit("AquaDome");
        assert("AquaDome"@ =~= seq!['A', 'q', 'u', 'a', 'D', 'o', 'm', 'e']);
        reveal_strlit("StarbaseArc");
        assert("StarbaseArc"@ =~= seq!['S', 't', 'a', 'r', 'b', 'a', 's', 'e', 'A', 'r', 'c']);
        reveal_strlit("Farmstead");
        assert("Farmstead"@ =~= seq!['F', 'a', 'r', 'm', 's', 't', 'e', 'a', 'd']);
        reveal_strlit("SaltyShores");
        assert("SaltyShores"@ =~= seq!['S', 'a', 'l', 't', 'y', 'S', 'h', 'o', 'r', 'e', 's']);
        reveal_strlit("DFHStadium_Stormy");
        assert("DFHStadium_Stormy"@ =~= seq!['D', 'F', 'H', 'S', 't', 'a', 'd', 'i', 'u', 'm', '_', 'S', 't', 'o', 'r', 'm', 'y']);
        reveal_strlit("DFHStadium_Day");
        assert("DFHStadium_Day"@ =~= seq!['D', 'F', 'H', 'S', 't', 'a', 'd', 'i', 'u', 'm', '_', 'D', 'a', 'y']);
        reveal_strlit("Mannfield_Stormy");
        assert("Mannfield_Stormy"@ =~= seq!['M', 'a', 'n', 'n', 'f', 'i', 'e', 'l', 'd', '_', 'S', 't', 'o', 'r', 'm', 'y']);
        reveal_strlit("Mannfield_Night");
        assert("Mannfield_Night"@ =~= seq!['M', 'a', 'n', 'n', 'f', 'i', 'e', 'l', 'd', '_', 'N', 'i', 'g', 'h', 't']);
        reveal_strlit("ChampionsField_Day");
        assert("ChampionsField_Day"@ =~= seq!['C', 'h', 'a', 'm', 'p', 'i', 'o', 'n', 's', 'F', 'i', 'e', 'l', 'd', '_', 'D', 'a', 'y']);
        reveal_strlit("BeckwithPark_Stormy");
        assert("BeckwithPark_Stormy"@ =~= seq!['B', 'e', 'c', 'k', 'w', 'i', 't', 'h', 'P', 'a', 'r', 'k', '_', 'S', 't', 'o', 'r', 'm', 'y']);
        reveal_strlit("BeckwithPark_Midnight");
        assert("BeckwithPark_Midnight"@ =~= seq!['B', 'e', 'c', 'k', 'w', 'i', 't', 'h', 'P', 'a', 'r', 'k', '_', 'M', 'i', 'd', 'n', 'i', 'g', 'h', 't']);
        reveal_strlit("UrbanCentral_Night");
        assert("UrbanCentral_Night"@ =~= seq!['U', 'r', 'b', 'a', 'n', 'C', 'e', 'n', 't', 'r', 'a', 'l', '_', 'N', 'i', 'g', 'h', 't']);
        reveal_strlit("UrbanCentral_Dawn");
        assert("UrbanCentral_Dawn"@ =~= seq!['U', 'r', 'b', 'a', 'n', 'C', 'e', 'n', 't', 'r', 'a', 'l', '_', 'D', 'a', 'w', 'n']);
        reveal_strlit("UtopiaColiseum_Dusk");
        assert("UtopiaColiseum_Dusk"@ =~= seq!['U', 't', 'o', 'p', 'i', 'a', 'C', 'o', 'l', 'i', 's', 'e', 'u', 'm', '_', 'D', 'u', 's', 'k']);
        reveal_strlit("DFHStadium_Snowy");
        assert("DFHStadium_Snowy"@ =~= seq!['D', 'F', 'H', 'S', 't', 'a', 'd', 'i', 'u', 'm', '_', 'S', 'n', 'o', 'w', 'y']);
        reveal_strlit("Mannfield_Snowy");
        assert("Mannfield_Snowy"@ =~= seq!['M', 'a', 'n', 'n', 'f', 'i', 'e', 'l', 'd', '_', 'S', 'n', 'o', 'w', 'y']);
        reveal_strlit("UtopiaColiseum_Snowy");
        assert("UtopiaColiseum_Snowy"@ =~= seq!['U', 't', 'o', 'p', 'i', 'a', 'C', 'o', 'l', 'i', 's', 'e', 'u', 'm', '_', 'S', 'n', 'o', 'w', 'y']);
        reveal_strlit("Badlands");
        assert("Badlands"@ =~= seq!['B', 'a', 'd', 'l', 'a', 'n', 'd', 's']);
        reveal_strlit("Badlands_Night");
        assert("Badlands_Night"@ =~= seq!['B', 'a', 'd', 'l', 'a', 'n', 'd', 's', '_', 'N', 'i', 'g', 'h', 't']);
        reveal_strlit("TokyoUnderpass");
        assert("TokyoUnderpass"@ =~= seq!['T', 'o', 'k', 'y', 'o', 'U', 'n', 'd', 'e', 'r', 'p', 'a', 's', 's']);
        reveal_strlit("Arctagon");
        assert("Arctagon"@ =~= seq!['A', 'r', 'c', 't', 'a', 'g', 'o', 'n']);
        reveal_strlit("Pillars");
        assert("Pillars"@ =~= seq!['P', 'i', 'l', 'l', 'a', 'r', 's']);
        reveal_strlit("Cosmic");
        assert("Cosmic"@ =~= seq!['C', 'o', 's', 'm', 'i', 'c']);
        reveal_strlit("DoubleGoal");
        assert("DoubleGoal"@ =~= seq!['D', 'o', 'u', 'b', 'l', 'e', 'G', 'o', 'a', 'l']);
        reveal_strlit("Octagon");
        assert("Octagon"@ =~= seq!['O', 'c', 't', 'a', 'g', 'o', 'n']);
        reveal_strlit("Underpass");
        assert("Underpass"@ =~= seq!['U', 'n', 'd', 'e', 'r', 'p', 'a', 's', 's']);
        reveal_strlit("UtopiaRetro");
        assert("UtopiaRetro"@ =~= seq!['U', 't', 'o', 'p', 'i', 'a', 'R', 'e', 't', 'r', 'o']);
        reveal_strlit("Hoops_DunkHouse");
        assert("Hoops_DunkHouse"@ =~= seq!['H', 'o', 'o', 'p', 's', '_', 'D', 'u', 'n', 'k', 'H', 'o', 'u', 's', 'e']);
        reveal_strlit("DropShot_Core707");
        assert("DropShot_Core707"@ =~= seq!['D', 'r', 'o', 'p', 'S', 'h', 'o', 't', '_', 'C', 'o', 'r', 'e', '7', '0', '7']);
        reveal_strlit("ThrowbackStadium");
        assert("ThrowbackStadium"@ =~= seq!['T', 'h', 'r', 'o', 'w', 'b', 'a', 'c', 'k', 'S', 't', 'a', 'd', 'i', 'u', 'm']);
        reveal_strlit("ForbiddenTemple");
        assert("ForbiddenTemple"@ =~= seq!['F', 'o', 'r', 'b', 'i', 'd', 'd', 'e', 'n', 'T', 'e', 'm', 'p', 'l', 'e']);
        reveal_strlit("RivalsArena");
        assert("RivalsArena"@ =~= seq!['R', 'i', 'v', 'a', 'l', 's', 'A', 'r', 'e', 'n', 'a']);
        reveal_strlit("Farmstead_Night");
        assert("Farmstead_Night"@ =~= seq!['F', 'a', 'r', 'm', 's', 't', 'e', 'a', 'd', '_', 'N', 'i', 'g', 'h', 't']);
        reveal_strlit("SaltyShores_Night");
        assert("SaltyShores_Night"@ =~= seq!['S', 'a', 'l', 't', 'y', 'S', 'h', 'o', 'r', 'e', 's', '_', 'N', 'i', 'g', 'h', 't']);
        reveal_strlit("NeonFields");
        assert("NeonFields"@ =~= seq!['N', 'e', 'o', 'n', 'F', 'i', 'e', 'l', 'd', 's']);
        reveal_strlit("DFHStadium_Circuit");
        assert("DFHStadium_Circuit"@ =~= seq!['D', 'F', 'H', 'S', 't', 'a', 'd', 'i', 'u', 'm', '_', 'C', 'i', 'r', 'c', 'u', 'i', 't']);
        reveal_strlit("DeadeyeCanyon");
        assert("DeadeyeCanyon"@ =~= seq!['D', 'e', 'a', 'd', 'e', 'y', 'e', 'C', 'a', 'n', 'y', 'o', 'n']);
        reveal_strlit("StarbaseArc_Aftermath");
        assert("StarbaseArc_Aftermath"@ =~= seq!['S', 't', 'a', 'r', 'b', 'a', 's', 'e', 'A', 'r', 'c', '_', 'A', 'f', 't', 'e', 'r', 'm', 'a', 't', 'h']);
        reveal_strlit("Wasteland_Night");
        assert("Wasteland_Night"@ =~= seq!['W', 'a', 's', 't', 'e', 'l', 'a', 'n', 'd', '_', 'N', 'i', 'g', 'h', 't']);
        reveal_strlit("BeckwithParkGothamNight");
        assert("BeckwithParkGothamNight"@ =~= seq!['B', 'e', 'c', 'k', 'w', 'i', 't', 'h', 'P', 'a', 'r', 'k', 'G', 'o', 't', 'h', 'a', 'm', 'N', 'i', 'g', 'h', 't']);
        reveal_strlit("ForbiddenTemple_Day");
        assert("ForbiddenTemple_Day"@ =~= seq!['F', 'o', 'r', 'b', 'i', 'd', 'd', 'e', 'n', 'T', 'e', 'm', 'p', 'l', 'e', '_', 'D', 'a', 'y']);
        reveal_strlit("UrbanCentral_Haunted");
        assert("UrbanCentral_Haunted"@ =~= seq!['U', 'r', 'b', 'a', 'n', 'C', 'e', 'n', 't', 'r', 'a', 'l', '_', 'H', 'a', 'u', 'n', 't', 'e', 'd']);
        reveal_strlit("ChampionsField_NFL");
        assert("ChampionsField_NFL"@ =~= seq!['C', 'h', 'a', 'm', 'p', 'i', 'o', 'n', 's', 'F', 'i', 'e', 'l', 'd', '_', 'N', 'F', 'L']);
        reveal_strlit("ThrowbackStadium_Snowy");
        assert("ThrowbackStadium_Snowy"@ =~= seq!['T', 'h', 'r', 'o', 'w', 'b', 'a', 'c', 'k', 'S', 't', 'a', 'd', 'i', 'u', 'm', '_', 'S', 'n', 'o', 'w', 'y']);
        reveal_strlit("Basin");
        assert("Basin"@ =~= seq!['B', 'a', 's', 'i', 'n']);
        reveal_strlit("Corridor");
        assert("Corridor"@ =~= seq!['C', 'o', 'r', 'r', 'i', 'd', 'o', 'r']);
        reveal_strlit("Loophole");
        assert("Loophole"@ =~= seq!['L', 'o', 'o', 'p', 'h', 'o', 'l', 'e']);
        reveal_strlit("Galleon");
        assert("Galleon"@ =~= seq!['G', 'a', 'l', 'l', 'e', 'o', 'n']);
        reveal_strlit("GalleonRetro");
        assert("GalleonRetro"@ =~= seq!['G', 'a', 'l', 'l', 'e', 'o', 'n', 'R', 'e', 't', 'r', 'o']);
        reveal_strlit("Hourglass");
        assert("Hourglass"@ =~= seq!['H', 'o', 'u', 'r', 'g', 'l', 'a', 's', 's']);
        reveal_strlit("Barricade");
        assert("Barricade"@ =~= seq!['B', 'a', 'r', 'r', 'i', 'c', 'a', 'd', 'e']);
        reveal_strlit("Colossus");
        assert("Colossus"@ =~= seq!['C', 'o', 'l', 'o', 's', 's', 'u', 's']);
    }
}

impl Default for MapType {
    fn default() -> (r: Self)
        ensures
            r == MapType::DfhStadium,
    {
        MapType::DfhStadium
    }
}

/// The game mode of a match.
#[derive(Clone, Copy, Debug, PartialEq, Eq, Structural)]
pub enum GameMode {
    Soccer,
    Hoops,
    Dropshot,
    Hockey,
    Rumble,
    Heatseeker,
    Gridiron,
}

impl GameMode {
    /// The name under which the GUI shows and stores this value.
    pub open spec fn label(self) -> Seq<char> {
        match self {
            GameMode::Soccer => "Soccer"@,
            GameMode::Hoops => "Hoops"@,
            GameMode::Dropshot => "Dropshot"@,
            GameMode::Hockey => "Hockey"@,
            GameMode::Rumble => "Rumble"@,
            GameMode::Heatseeker => "Heatseeker"@,
            GameMode::Gridiron => "Gridiron"@,
        }
    }

    /// The value named `s`, if any.
    pub open spec fn parse_label(s: Seq<char>) -> Option<Self> {
        if s == "Soccer"@ {
            Some(GameMode::Soccer)
        } else if s == "Hoops"@ {
            Some(GameMode::Hoops)
        } else if s == "Dropshot"@ {
            Some(GameMode::Dropshot)
        } else if s == "Hockey"@ {
            Some(GameMode::Hockey)
        } else if s == "Rumble"@ {
            Some(GameMode::Rumble)
        } else if s == "Heatseeker"@ {
            Some(GameMode::Heatseeker)
        } else if s == "Gridiron"@ {
            Some(GameMode::Gridiron)
        } else {
            None
        }
    }

    /// The value a stored name gives: the value of that name, or else the default.
    pub open spec fn read_or_default(stored: Option<Seq<char>>) -> Self {
        match stored {
            Some(l) => match Self::parse_label(l) {
                Some(v) => v,
                None => GameMode::Soccer,
            },
            None => GameMode::Soccer,
        }
    }

    /// Every value, in declaration order.
    pub open spec fn all_values() -> Seq<Self> {
        seq![GameMode::Soccer, GameMode::Hoops, GameMode::Dropshot, GameMode::Hockey, GameMode::Rumble, GameMode::Heatseeker, GameMode::Gridiron]
    }

    /// The name under which the GUI shows and stores this value.
    pub fn as_label(&self) -> (r: &'static str)
        ensures
            r@ == self.label(),
    {
        match self {
            GameMode::Soccer => "Soccer",
            GameMode::Hoops => "Hoops",
            GameMode::Dropshot => "Dropshot",
            GameMode::Hockey => "Hockey",
            GameMode::Rumble => "Rumble",
            GameMode::Heatseeker => "Heatseeker",
            GameMode::Gridiron => "Gridiron",
        }
    }

    /// The value named `s`, if any.
    pub fn from_label(s: &str) -> (r: Option<Self>)
        ensures
            r == Self::parse_label(s@),
    {
        if str_eq(s, "Soccer") {
            Some(GameMode::Soccer)
        } else if str_eq(s, "Hoops") {
            Some(GameMode::Hoops)
        } else if str_eq(s, "Dropshot") {
            Some(GameMode::Dropshot)
        } else if str_eq(s, "Hockey") {
            Some(GameMode::Hockey)
        } else if str_eq(s, "Rumble") {
            Some(GameMode::Rumble)
        } else if str_eq(s, "Heatseeker") {
            Some(GameMode::Heatseeker)
        } else if str_eq(s, "Gridiron") {
            Some(GameMode::Gridiron)
        } else {
            None
        }
    }

    /// The value a stored name gives: the value of that name, or else the default.
    pub fn from_stored_label(stored: Option<String>) -> (r: Self)
        ensures
            r == Self::read_or_default(opt_view(stored)),
    {
        match stored {
            Some(l) => match Self::from_label(l.as_str()) {
                Some(v) => v,
                None => GameMode::Soccer,
            },
            None => GameMode::Soccer,
        }
    }

    /// Every value, in declaration order.
    pub fn all() -> (r: Vec<Self>)
        ensures
            r@ == Self::all_values(),
    {
        let r = vec![GameMode::Soccer, GameMode::Hoops, GameMode::Dropshot, GameMode::Hockey, GameMode::Rumble, GameMode::Heatseeker, GameMode::Gridiron];
        assert(r@ =~= Self::all_values());
        r
    }

    /// Reading back the name of a value gives the value.
    pub proof fn lemma_label_round_trip(self)
        ensures
            Self::parse_label(self.label()) == Some(self),
    {
        reveal_strlit("Soccer");
        assert("Soccer"@ =~= seq!['S', 'o', 'c', 'c', 'e', 'r']);
        reveal_strlit("Hoops");
        assert("Hoops"@ =~= seq!['H', 'o', 'o', 'p', 's']);
        reveal_strlit("Dropshot");
        assert("Dropshot"@ =~= seq!['D', 'r', 'o', 'p', 's', 'h', 'o', 't']);
        reveal_strlit("Hockey");
        assert("Hockey"@ =~= seq!['H', 'o', 'c', 'k', 'e', 'y']);
        reveal_strlit("Rumble");
        assert("Rumble"@ =~= seq!['R', 'u', 'm', 'b', 'l', 'e']);
        reveal_strlit("Heatseeker");
        assert("Heatseeker"@ =~= seq!['H', 'e', 'a', 't', 's', 'e', 'e', 'k', 'e', 'r']);
        reveal_strlit("Gridiron");
        assert("Gridiron"@ =~= seq!['G', 'r', 'i', 'd', 'i', 'r', 'o', 'n']);
        match self {
            GameMode::Soccer => {},
            GameMode::Hoops => {},
            GameMode::Dropshot => {},
            GameMode::Hockey => {},
            GameMode::Rumble => {},
            GameMode::Heatseeker => {},
            GameMode::Gridiron => {},
        }
    }
}

impl Default for GameMode {
    fn default() -> (r: Self)
        ensures
            r == GameMode::Soccer,
    {
        GameMode::Soccer
    }
}

/// What to do when a match is already running.
#[derive(Clone, Copy, Debug, PartialEq, Eq, Structural)]
pub enum ExistingMatchBehavior {
    RestartIfDifferent,
    Restart,
    ContinueAndSpawn,
}

impl ExistingMatchBehavior {
    /// The name under which the GUI shows and stores this value.
    pub open spec fn label(self) -> Seq<char> {
        match self {
            ExistingMatchBehavior::RestartIfDifferent => "Restart If Different"@,
            ExistingMatchBehavior::Restart => "Restart"@,
            ExistingMatchBehavior::ContinueAndSpawn => "Continue And Spawn"@,
        }
    }

    /// The value named `s`, if any.
    pub open spec fn parse_label(s: Seq<char>) -> Option<Self> {
        if s == "Restart If Different"@ {
            Some(ExistingMatchBehavior::RestartIfDifferent)
        } else if s == "Restart"@ {
            Some(ExistingMatchBehavior::Restart)
        } else if s == "Continue And Spawn"@ {
            Some(ExistingMatchBehavior::ContinueAndSpawn)
        } else {
            None
        }
    }

    /// The value a stored name gives: the value of that name, or else the default.
    pub open spec fn read_or_default(stored: Option<Seq<char>>) -> Self {
        match stored {
            Some(l) => match Self::parse_label(l) {
                Some(v) => v,
                None => ExistingMatchBehavior::RestartIfDifferent,
            },
            None => ExistingMatchBehavior::RestartIfDifferent,
        }
    }

    /// Every value, in declaration order.
    pub open spec fn all_values() -> Seq<Self> {
        seq![ExistingMatchBehavior::RestartIfDifferent, ExistingMatchBehavior::Restart, ExistingMatchBehavior::ContinueAndSpawn]
    }

    /// The name under which the GUI shows and stores this value.
    pub fn as_label(&self) -> (r: &'static str)
        ensures
            r@ == self.label(),
    {
        match self {
            ExistingMatchBehavior::RestartIfDifferent => "Restart If Different",
            ExistingMatchBehavior::Restart => "Restart",
            ExistingMatchBehavior::ContinueAndSpawn => "Continue And Spawn",
        }
    }

    /// The value named `s`, if any.
    pub fn from_label(s: &str) -> (r: Option<Self>)
        ensures
            r == Self::parse_label(s@),
    {
        if str_eq(s, "Restart If Different") {
            Some(ExistingMatchBehavior::RestartIfDifferent)
        } else if str_eq(s, "Restart") {
            Some(ExistingMatchBehavior::Restart)
        } else if str_eq(s, "Continue And Spawn") {
            Some(ExistingMatchBehavior::ContinueAndSpawn)
        } else {
            None
        }
    }

    /// The value a stored name gives: the value of that name, or else the default.
    pub fn from_stored_label(stored: Option<String>) -> (r: Self)
        ensures
            r == Self::read_or_default(opt_view(stored)),
    {
        match stored {
            Some(l) => match Self::from_label(l.as_str()) {
                Some(v) => v,
                None => ExistingMatchBehavior::RestartIfDifferent,
            },
            None => ExistingMatchBehavior::RestartIfDifferent,
        }
    }

    /// Every value, in declaration order.
    pub fn all() -> (r: Vec<Self>)
        ensures
            r@ == Self::all_values(),
    {
        let r = vec![ExistingMatchBehavior::RestartIfDifferent, ExistingMatchBehavior::Restart, ExistingMatchBehavior::ContinueAndSpawn];
        assert(r@ =~= Self::all_values());
        r
    }

    /// Reading back the name of a value gives the value.
    pub proof fn lemma_label_round_trip(self)
        ensures
            Self::parse_label(self.label()) == Some(self),
    {
        reveal_strlit("Restart If Different");
        assert("Restart If Different"@ =~= seq!['R', 'e', 's', 't', 'a', 'r', 't', ' ', 'I', 'f', ' ', 'D', 'i', 'f', 'f', 'e', 'r', 'e', 'n', 't']);
        reveal_strlit("Restart");
        assert("Restart"@ =~= seq!['R', 'e', 's', 't', 'a', 'r', 't']);
        reveal_strlit("Continue And Spawn");
        assert("Continue And Spawn"@ =~= seq!['C', 'o', 'n', 't', 'i', 'n', 'u', 'e', ' ', 'A', 'n', 'd', ' ', 'S', 'p', 'a', 'w', 'n']);
        match self {
            ExistingMatchBehavior::RestartIfDifferent => {},
            ExistingMatchBehavior::Restart => {},
            ExistingMatchBehavior::ContinueAndSpawn => {},
        }
    }
}

impl Default for ExistingMatchBehavior {
    fn default() -> (r: Self)
        ensures
            r == ExistingMatchBehavior::RestartIfDifferent,
    {
        ExistingMatchBehavior::RestartIfDifferent
    }
}

/// How long a match lasts.
#[derive(Clone, Copy, Debug, PartialEq, Eq, Structural)]
pub enum MatchLength {
    FiveMinutes,
    TenMinutes,
    TwentyMinutes,
    Unlimited,
}

impl MatchLength {
    /// The name under which the GUI shows and stores this value.
    pub open spec fn label(self) -> Seq<char> {
        match self {
            MatchLength::FiveMinutes => "5 Minutes"@,
            MatchLength::TenMinutes => "10 Minutes"@,
            MatchLength::TwentyMinutes => "20 Minutes"@,
            MatchLength::Unlimited => "Unlimited"@,
        }
    }

    /// The value named `s`, if any.
    pub open spec fn parse_label(s: Seq<char>) -> Option<Self> {
        if s == "5 Minutes"@ {
            Some(MatchLength::FiveMinutes)
        } else if s == "10 Minutes"@ {
            Some(MatchLength::TenMinutes)
        } else if s == "20 Minutes"@ {
            Some(MatchLength::TwentyMinutes)
        } else if s == "Unlimited"@ {
            Some(MatchLength::Unlimited)
        } else {
            None
        }
    }

    /// The value a stored name gives: the value of that name, or else the default.
    pub open spec fn read_or_default(stored: Option<Seq<char>>) -> Self {
        match stored {
            Some(l) => match Self::parse_label(l) {
                Some(v) => v,
                None => MatchLength::FiveMinutes,
            },
            None => MatchLength::FiveMinutes,
        }
    }

    /// Every value, in declaration order.
    pub open spec fn all_values() -> Seq<Self> {
        seq![MatchLength::FiveMinutes, MatchLength::TenMinutes, MatchLength::TwentyMinutes, MatchLength::Unlimited]
    }

    /// The name under which the GUI shows and stores this value.
    pub fn as_label(&self) -> (r: &'static str)
        ensures
            r@ == self.label(),
    {
        match self {
            MatchLength::FiveMinutes => "5 Minutes",
            MatchLength::TenMinutes => "10 Minutes",
            MatchLength::TwentyMinutes => "20 Minutes",
            MatchLength::Unlimited => "Unlimited",
        }
    }

    /// The value named `s`, if any.
    pub fn from_label(s: &str) -> (r: Option<Self>)
        ensures
            r == Self::parse_label(s@),
    {
        if str_eq(s, "5 Minutes") {
            Some(MatchLength::FiveMinutes)
        } else if str_eq(s, "10 Minutes") {
            Some(MatchLength::TenMinutes)
        } else if str_eq(s, "20 Minutes") {
            Some(MatchLength::TwentyMinutes)
        } else if str_eq(s, "Unlimited") {
            Some(MatchLength::Unlimited)
        } else {
            None
        }
    }

    /// The value a stored name gives: the value of that name, or else the default.
    pub fn from_stored_label(stored: Option<String>) -> (r: Self)
        ensures
            r == Self::read_or_default(opt_view(stored)),
    {
        match stored {
            Some(l) => match Self::from_label(l.as_str()) {
                Some(v) => v,
                None => MatchLength::FiveMinutes,
            },
            None => MatchLength::FiveMinutes,
        }
    }

    /// Every value, in declaration order.
    pub fn all() -> (r: Vec<Self>)
        ensures
            r@ == Self::all_values(),
    {
        let r = vec![MatchLength::FiveMinutes, MatchLength::TenMinutes, MatchLength::TwentyMinutes, MatchLength::Unlimited];
        assert(r@ =~= Self::all_values());
        r
    }

    /// Reading back the name of a value gives the value.
    pub proof fn lemma_label_round_trip(self)
        ensures
            Self::parse_label(self.label()) == Some(self),
    {
        reveal_strlit("5 Minutes");
        assert("5 Minutes"@ =~= seq!['5', ' ', 'M', 'i', 'n', 'u', 't', 'e', 's']);
        reveal_strlit("10 Minutes");
        assert("10 Minutes"@ =~= seq!['1', '0', ' ', 'M', 'i', 'n', 'u', 't', 'e', 's']);
        reveal_strlit("20 Minutes");
        assert("20 Minutes"@ =~= seq!['2', '0', ' ', 'M', 'i', 'n', 'u', 't', 'e', 's']);
        reveal_strlit("Unlimited");
        assert("Unlimited"@ =~= seq!['U', 'n', 'l', 'i', 'm', 'i', 't', 'e', 'd']);
        match self {
            MatchLength::FiveMinutes => {},
            MatchLength::TenMinutes => {},
            MatchLength::TwentyMinutes => {},
            MatchLength::Unlimited => {},
        }
    }
}

impl Default for MatchLength {
    fn default() -> (r: Self)
        ensures
            r == MatchLength::FiveMinutes,
    {
        MatchLength::FiveMinutes
    }
}

/// The score that ends a match.
#[derive(Clone, Copy, Debug, PartialEq, Eq, Structural)]
pub enum MaxScore {
    Unlimited,
    OneGoal,
    ThreeGoals,
    FiveGoals,
}

impl MaxScore {
    /// The name under which the GUI shows and stores this value.
    pub open spec fn label(self) -> Seq<char> {
        match self {
            MaxScore::Unlimited => "Unlimited"@,
            MaxScore::OneGoal => "1 Goal"@,
            MaxScore::ThreeGoals => "3 Goals"@,
            MaxScore::FiveGoals => "5 Goals"@,
        }
    }

    /// The value named `s`, if any.
    pub open spec fn parse_label(s: Seq<char>) -> Option<Self> {
        if s == "Unlimited"@ {
            Some(MaxScore::Unlimited)
        } else if s == "1 Goal"@ {
            Some(MaxScore::OneGoal)
        } else if s == "3 Goals"@ {
            Some(MaxScore::ThreeGoals)
        } else if s == "5 Goals"@ {
            Some(MaxScore::FiveGoals)
        } else {
            None
        }
    }

    /// The value a stored name gives: the value of that name, or else the default.
    pub open spec fn read_or_default(stored: Option<Seq<char>>) -> Self {
        match stored {
            Some(l) => match Self::parse_label(l) {
                Some(v) => v,
                None => MaxScore::Unlimited,
            },
            None => MaxScore::Unlimited,
        }
    }

    /// Every value, in declaration order.
    pub open spec fn all_values() -> Seq<Self> {
        seq![MaxScore::Unlimited, MaxScore::OneGoal, MaxScore::ThreeGoals, MaxScore::FiveGoals]
    }

    /// The name under which the GUI shows and stores this value.
    pub fn as_label(&self) -> (r: &'static str)
        ensures
            r@ == self.label(),
    {
        match self {
            MaxScore::Unlimited => "Unlimited",
            MaxScore::OneGoal => "1 Goal",
            MaxScore::ThreeGoals => "3 Goals",
            MaxScore::FiveGoals => "5 Goals",
        }
    }

    /// The value named `s`, if any.
    pub fn from_label(s: &str) -> (r: Option<Self>)
        ensures
            r == Self::parse_label(s@),
    {
        if str_eq(s, "Unlimited") {
            Some(MaxScore::Unlimited)
        } else if str_eq(s, "1 Goal") {
            Some(MaxScore::OneGoal)
        } else if str_eq(s, "3 Goals") {
            Some(MaxScore::ThreeGoals)
        } else if str_eq(s, "5 Goals") {
            Some(MaxScore::FiveGoals)
        } else {
            None
        }
    }

    /// The value a stored name gives: the value of that name, or else the default.
    pub fn from_stored_label(stored: Option<String>) -> (r: Self)
        ensures
            r == Self::read_or_default(opt_view(stored)),
    {
        match stored {
            Some(l) => match Self::from_label(l.as_str()) {
                Some(v) => v,
                None => MaxScore::Unlimited,
            },
            None => MaxScore::Unlimited,
        }
    }

    /// Every value, in declaration order.
    pub fn all() -> (r: Vec<Self>)
        ensures
            r@ == Self::all_values(),
    {
        let r = vec![MaxScore::Unlimited, MaxScore::OneGoal, MaxScore::ThreeGoals, MaxScore::FiveGoals];
        assert(r@ =~= Self::all_values());
        r
    }

    /// Reading back the name of a value gives the value.
    pub proof fn lemma_label_round_trip(self)
        ensures
            Self::parse_label(self.label()) == Some(self),
    {
        reveal_strlit("Unlimited");
        assert("Unlimited"@ =~= seq!['U', 'n', 'l', 'i', 'm', 'i', 't', 'e', 'd']);
        reveal_strlit("1 Goal");
        assert("1 Goal"@ =~= seq!['1', ' ', 'G', 'o', 'a', 'l']);
        reveal_strlit("3 Goals");
        assert("3 Goals"@ =~= seq!['3', ' ', 'G', 'o', 'a', 'l', 's']);
        reveal_strlit("5 Goals");
        assert("5 Goals"@ =~= seq!['5', ' ', 'G', 'o', 'a', 'l', 's']);
        match self {
            MaxScore::Unlimited => {},
            MaxScore::OneGoal => {},
            MaxScore::ThreeGoals => {},
            MaxScore::FiveGoals => {},
        }
    }
}

impl Default for MaxScore {
    fn default() -> (r: Self)
        ensures
            r == MaxScore::Unlimited,
    {
        MaxScore::Unlimited
    }
}

/// How overtime is played.
#[derive(Clone, Copy, Debug, PartialEq, Eq, Structural)]
pub enum Overtime {
    Unlimited,
    PlusFiveMaxFirstScore,
    PlusFiveMaxRandomTeam,
}

impl Overtime {
    /// The name under which the GUI shows and stores this value.
    pub open spec fn label(self) -> Seq<char> {
        match self {
            Overtime::Unlimited => "Unlimited"@,
            Overtime::PlusFiveMaxFirstScore => "+5 Max, First Score"@,
            Overtime::PlusFiveMaxRandomTeam => "+5 Max, Random Team"@,
        }
    }

    /// The value named `s`, if any.
    pub open spec fn parse_label(s: Seq<char>) -> Option<Self> {
        if s == "Unlimited"@ {
            Some(Overtime::Unlimited)
        } else if s == "+5 Max, First Score"@ {
            Some(Overtime::PlusFiveMaxFirstScore)
        } else if s == "+5 Max, Random Team"@ {
            Some(Overtime::PlusFiveMaxRandomTeam)
        } else {
            None
        }
    }

    /// The value a stored name gives: the value of that name, or else the default.
    pub open spec fn read_or_default(stored: Option<Seq<char>>) -> Self {
        match stored {
            Some(l) => match Self::parse_label(l) {
                Some(v) => v,
                None => Overtime::Unlimited,
            },
            None => Overtime::Unlimited,
        }
    }

    /// Every value, in declaration order.
    pub open spec fn all_values() -> Seq<Self> {
        seq![Overtime::Unlimited, Overtime::PlusFiveMaxFirstScore, Overtime::PlusFiveMaxRandomTeam]
    }

    /// The name under which the GUI shows and stores this value.
    pub fn as_label(&self) -> (r: &'static str)
        ensures
            r@ == self.label(),
    {
        match self {
            Overtime::Unlimited => "Unlimited",
            Overtime::PlusFiveMaxFirstScore => "+5 Max, First Score",
            Overtime::PlusFiveMaxRandomTeam => "+5 Max, Random Team",
        }
    }

    /// The value named `s`, if any.
    pub fn from_label(s: &str) -> (r: Option<Self>)
        ensures
            r == Self::parse_label(s@),
    {
        if str_eq(s, "Unlimited") {
            Some(Overtime::Unlimited)
        } else if str_eq(s, "+5 Max, First Score") {
            Some(Overtime::PlusFiveMaxFirstScore)
        } else if str_eq(s, "+5 Max, Random Team") {
            Some(Overtime::PlusFiveMaxRandomTeam)
        } else {
            None
        }
    }

    /// The value a stored name gives: the value of that name, or else the default.
    pub fn from_stored_label(stored: Option<String>) -> (r: Self)
        ensures
            r == Self::read_or_default(opt_view(stored)),
    {
        match stored {
            Some(l) => match Self::from_label(l.as_str()) {
                Some(v) => v,
                None => Overtime::Unlimited,
            },
            None => Overtime::Unlimited,
        }
    }

    /// Every value, in declaration order.
    pub fn all() -> (r: Vec<Self>)
        ensures
            r@ == Self::all_values(),
    {
        let r = vec![Overtime::Unlimited, Overtime::PlusFiveMaxFirstScore, Overtime::PlusFiveMaxRandomTeam];
        assert(r@ =~= Self::all_values());
        r
    }

    /// Reading back the name of a value gives the value.
    pub proof fn lemma_label_round_trip(self)
        ensures
            Self::parse_label(self.label()) == Some(self),
    {
        reveal_strlit("Unlimited");
        assert("Unlimited"@ =~= seq!['U', 'n', 'l', 'i', 'm', 'i', 't', 'e', 'd']);
        reveal_strlit("+5 Max, First Score");
        assert("+5 Max, First Score"@ =~= seq!['+', '5', ' ', 'M', 'a', 'x', ',', ' ', 'F', 'i', 'r', 's', 't', ' ', 'S', 'c', 'o', 'r', 'e']);
        reveal_strlit("+5 Max, Random Team");
        assert("+5 Max, Random Team"@ =~= seq!['+', '5', ' ', 'M', 'a', 'x', ',', ' ', 'R', 'a', 'n', 'd', 'o', 'm', ' ', 'T', 'e', 'a', 'm']);
        match self {
            Overtime::Unlimited => {},
            Overtime::PlusFiveMaxFirstScore => {},
            Overtime::PlusFiveMaxRandomTeam => {},
        }
    }
}

impl Default for Overtime {
    fn default() -> (r: Self)
        ensures
            r == Overtime::Unlimited,
    {
        Overtime::Unlimited
    }
}

/// How many games a series has.
#[derive(Clone, Copy, Debug, PartialEq, Eq, Structural)]
pub enum SeriesLength {
    Unlimited,
    ThreeGames,
    FiveGames,
    SevenGames,
}

impl SeriesLength {
    /// The name under which the GUI shows and stores this value.
    pub open spec fn label(self) -> Seq<char> {
        match self {
            SeriesLength::Unlimited => "Unlimited"@,
            SeriesLength::ThreeGames => "3 Games"@,
            SeriesLength::FiveGames => "5 Games"@,
            SeriesLength::SevenGames => "7 Games"@,
        }
    }

    /// The value named `s`, if any.
    pub open spec fn parse_label(s: Seq<char>) -> Option<Self> {
        if s == "Unlimited"@ {
            Some(SeriesLength::Unlimited)
        } else if s == "3 Games"@ {
            Some(SeriesLength::ThreeGames)
        } else if s == "5 Games"@ {
            Some(SeriesLength::FiveGames)
        } else if s == "7 Games"@ {
            Some(SeriesLength::SevenGames)
        } else {
            None
        }
    }

    /// The value a stored name gives: the value of that name, or else the default.
    pub open spec fn read_or_default(stored: Option<Seq<char>>) -> Self {
        match stored {
            Some(l) => match Self::parse_label(l) {
                Some(v) => v,
                None => SeriesLength::Unlimited,
            },
            None => SeriesLength::Unlimited,
        }
    }

    /// Every value, in declaration order.
    pub open spec fn all_values() -> Seq<Self> {
        seq![SeriesLength::Unlimited, SeriesLength::ThreeGames, SeriesLength::FiveGames, SeriesLength::SevenGames]
    }

    /// The name under which the GUI shows and stores this value.
    pub fn as_label(&self) -> (r: &'static str)
        ensures
            r@ == self.label(),
    {
        match self {
            SeriesLength::Unlimited => "Unlimited",
            SeriesLength::ThreeGames => "3 Games",
            SeriesLength::FiveGames => "5 Games",
            SeriesLength::SevenGames => "7 Games",
        }
    }

    /// The value named `s`, if any.
    pub fn from_label(s: &str) -> (r: Option<Self>)
        ensures
            r == Self::parse_label(s@),
    {
        if str_eq(s, "Unlimited") {
            Some(SeriesLength::Unlimited)
        } else if str_eq(s, "3 Games") {
            Some(SeriesLength::ThreeGames)
        } else if str_eq(s, "5 Games") {
            Some(SeriesLength::FiveGames)
        } else if str_eq(s, "7 Games") {
            Some(SeriesLength::SevenGames)
        } else {
            None
        }
    }

    /// The value a stored name gives: the value of that name, or else the default.
    pub fn from_stored_label(stored: Option<String>) -> (r: Self)
        ensures
            r == Self::read_or_default(opt_view(stored)),
    {
        match stored {
            Some(l) => match Self::from_label(l.as_str()) {
                Some(v) => v,
                None => SeriesLength::Unlimited,
            },
            None => SeriesLength::Unlimited,
        }
    }

    /// Every value, in declaration order.
    pub fn all() -> (r: Vec<Self>)
        ensures
            r@ == Self::all_values(),
    {
        let r = vec![SeriesLength::Unlimited, SeriesLength::ThreeGames, SeriesLength::FiveGames, SeriesLength::SevenGames];
        assert(r@ =~= Self::all_values());
        r
    }

    /// Reading back the name of a value gives the value.
    pub proof fn lemma_label_round_trip(self)
        ensures
            Self::parse_label(self.label()) == Some(self),
    {
        reveal_strlit("Unlimited");
        assert("Unlimited"@ =~= seq!['U', 'n', 'l', 'i', 'm', 'i', 't', 'e', 'd']);
        reveal_strlit("3 Games");
        assert("3 Games"@ =~= seq!['3', ' ', 'G', 'a', 'm', 'e', 's']);
        reveal_strlit("5 Games");
        assert("5 Games"@ =~= seq!['5', ' ', 'G', 'a', 'm', 'e', 's']);
        reveal_strlit("7 Games");
        assert("7 Games"@ =~= seq!['7', ' ', 'G', 'a', 'm', 'e', 's']);
        match self {
            SeriesLength::Unlimited => {},
            SeriesLength::ThreeGames => {},
            SeriesLength::FiveGames => {},
            SeriesLength::SevenGames => {},
        }
    }
}

impl Default for SeriesLength {
    fn default() -> (r: Self)
        ensures
            r == SeriesLength::Unlimited,
    {
        SeriesLength::Unlimited
    }
}

/// The speed of the game.
#[derive(Clone, Copy, Debug, PartialEq, Eq, Structural)]
pub enum GameSpeed {
    Default,
    SloMo,
    TimeWarp,
}

impl GameSpeed {
    /// The name under which the GUI shows and stores this value.
    pub open spec fn label(self) -> Seq<char> {
        match self {
            GameSpeed::Default => "Default"@,
            GameSpeed::SloMo => "Slo-Mo"@,
            GameSpeed::TimeWarp => "Time Warp"@,
        }
    }

    /// The value named `s`, if any.
    pub open spec fn parse_label(s: Seq<char>) -> Option<Self> {
        if s == "Default"@ {
            Some(GameSpeed::Default)
        } else if s == "Slo-Mo"@ {
            Some(GameSpeed::SloMo)
        } else if s == "Time Warp"@ {
            Some(GameSpeed::TimeWarp)
        } else {
            None
        }
    }

    /// The value a stored name gives: the value of that name, or else the default.
    pub open spec fn read_or_default(stored: Option<Seq<char>>) -> Self {
        match stored {
            Some(l) => match Self::parse_label(l) {
                Some(v) => v,
                None => GameSpeed::Default,
            },
            None => GameSpeed::Default,
        }
    }

    /// Every value, in declaration order.
    pub open spec fn all_values() -> Seq<Self> {
        seq![GameSpeed::Default, GameSpeed::SloMo, GameSpeed::TimeWarp]
    }

    /// The name under which the GUI shows and stores this value.
    pub fn as_label(&self) -> (r: &'static str)
        ensures
            r@ == self.label(),
    {
        match self {
            GameSpeed::Default => "Default",
            GameSpeed::SloMo => "Slo-Mo",
            GameSpeed::TimeWarp => "Time Warp",
        }
    }

    /// The value named `s`, if any.
    pub fn from_label(s: &str) -> (r: Option<Self>)
        ensures
            r == Self::parse_label(s@),
    {
        if str_eq(s, "Default") {
            Some(GameSpeed::Default)
        } else if str_eq(s, "Slo-Mo") {
            Some(GameSpeed::SloMo)
        } else if str_eq(s, "Time Warp") {
            Some(GameSpeed::TimeWarp)
        } else {
            None
        }
    }

    /// The value a stored name gives: the value of that name, or else the default.
    pub fn from_stored_label(stored: Option<String>) -> (r: Self)
        ensures
            r == Self::read_or_default(opt_view(stored)),
    {
        match stored {
            Some(l) => match Self::from_label(l.as_str()) {
                Some(v) => v,
                None => GameSpeed::Default,
            },
            None => GameSpeed::Default,
        }
    }

    /// Every value, in declaration order.
    pub fn all() -> (r: Vec<Self>)
        ensures
            r@ == Self::all_values(),
    {
        let r = vec![GameSpeed::Default, GameSpeed::SloMo, GameSpeed::TimeWarp];
        assert(r@ =~= Self::all_values());
        r
    }

    /// Reading back the name of a value gives the value.
    pub proof fn lemma_label_round_trip(self)
        ensures
            Self::parse_label(self.label()) == Some(self),
    {
        reveal_strlit("Default");
        assert("Default"@ =~= seq!['D', 'e', 'f', 'a', 'u', 'l', 't']);
        reveal_strlit("Slo-Mo");
        assert("Slo-Mo"@ =~= seq!['S', 'l', 'o', '-', 'M', 'o']);
        reveal_strlit("Time Warp");
        assert("Time Warp"@ =~= seq!['T', 'i', 'm', 'e', ' ', 'W', 'a', 'r', 'p']);
        match self {
            GameSpeed::Default => {},
            GameSpeed::SloMo => {},
            GameSpeed::TimeWarp => {},
        }
    }
}

impl Default for GameSpeed {
    fn default() -> (r: Self)
        ensures
            r == GameSpeed::Default,
    {
        GameSpeed::Default
    }
}

/// The ball's top speed.
#[derive(Clone, Copy, Debug, PartialEq, Eq, Structural)]
pub enum BallMaxSpeed {
    Default,
    Slow,
    Fast,
    SuperFast,
}

impl BallMaxSpeed {
    /// The name under which the GUI shows and stores this value.
    pub open spec fn label(self) -> Seq<char> {
        match self {
            BallMaxSpeed::Default => "Default"@,
            BallMaxSpeed::Slow => "Slow"@,
            BallMaxSpeed::Fast => "Fast"@,
            BallMaxSpeed::SuperFast => "Super Fast"@,
        }
    }

    /// The value named `s`, if any.
    pub open spec fn parse_label(s: Seq<char>) -> Option<Self> {
        if s == "Default"@ {
            Some(BallMaxSpeed::Default)
        } else if s == "Slow"@ {
            Some(BallMaxSpeed::Slow)
        } else if s == "Fast"@ {
            Some(BallMaxSpeed::Fast)
        } else if s == "Super Fast"@ {
            Some(BallMaxSpeed::SuperFast)
        } else {
            None
        }
    }

    /// The value a stored name gives: the value of that name, or else the default.
    pub open spec fn read_or_default(stored: Option<Seq<char>>) -> Self {
        match stored {
            Some(l) => match Self::parse_label(l) {
                Some(v) => v,
                None => BallMaxSpeed::Default,
            },
            None => BallMaxSpeed::Default,
        }
    }

    /// Every value, in declaration order.
    pub open spec fn all_values() -> Seq<Self> {
        seq![BallMaxSpeed::Default, BallMaxSpeed::Slow, BallMaxSpeed::Fast, BallMaxSpeed::SuperFast]
    }

    /// The name under which the GUI shows and stores this value.
    pub fn as_label(&self) -> (r: &'static str)
        ensures
            r@ == self.label(),
    {
        match self {
            BallMaxSpeed::Default => "Default",
            BallMaxSpeed::Slow => "Slow",
            BallMaxSpeed::Fast => "Fast",
            BallMaxSpeed::SuperFast => "Super Fast",
        }
    }

    /// The value named `s`, if any.
    pub fn from_label(s: &str) -> (r: Option<Self>)
        ensures
            r == Self::parse_label(s@),
    {
        if str_eq(s, "Default") {
            Some(BallMaxSpeed::Default)
        } else if str_eq(s, "Slow") {
            Some(BallMaxSpeed::Slow)
        } else if str_eq(s, "Fast") {
            Some(BallMaxSpeed::Fast)
        } else if str_eq(s, "Super Fast") {
            Some(BallMaxSpeed::SuperFast)
        } else {
            None
        }
    }

    /// The value a stored name gives: the value of that name, or else the default.
    pub fn from_stored_label(stored: Option<String>) -> (r: Self)
        ensures
            r == Self::read_or_default(opt_view(stored)),
    {
        match stored {
            Some(l) => match Self::from_label(l.as_str()) {
                Some(v) => v,
                None => BallMaxSpeed::Default,
            },
            None => BallMaxSpeed::Default,
        }
    }

    /// Every value, in declaration order.
    pub fn all() -> (r: Vec<Self>)
        ensures
            r@ == Self::all_values(),
    {
        let r = vec![BallMaxSpeed::Default, BallMaxSpeed::Slow, BallMaxSpeed::Fast, BallMaxSpeed::SuperFast];
        assert(r@ =~= Self::all_values());
        r
    }

    /// Reading back the name of a value gives the value.
    pub proof fn lemma_label_round_trip(self)
        ensures
            Self::parse_label(self.label()) == Some(self),
    {
        reveal_strlit("Default");
        assert("Default"@ =~= seq!['D', 'e', 'f', 'a', 'u', 'l', 't']);
        reveal_strlit("Slow");
        assert("Slow"@ =~= seq!['S', 'l', 'o', 'w']);
        reveal_strlit("Fast");
        assert("Fast"@ =~= seq!['F', 'a', 's', 't']);
        reveal_strlit("Super Fast");
        assert("Super Fast"@ =~= seq!['S', 'u', 'p', 'e', 'r', ' ', 'F', 'a', 's', 't']);
        match self {
            BallMaxSpeed::Default => {},
            BallMaxSpeed::Slow => {},
            BallMaxSpeed::Fast => {},
            BallMaxSpeed::SuperFast => {},
        }
    }
}

impl Default for BallMaxSpeed {
    fn default() -> (r: Self)
        ensures
            r == BallMaxSpeed::Default,
    {
        BallMaxSpeed::Default
    }
}

/// The shape of the ball.
#[derive(Clone, Copy, Debug, PartialEq, Eq, Structural)]
pub enum BallType {
    Default,
    Cube,
    Puck,
    Basketball,
}

impl BallType {
    /// The name under which the GUI shows and stores this value.
    pub open spec fn label(self) -> Seq<char> {
        match self {
            BallType::Default => "Default"@,
            BallType::Cube => "Cube"@,
            BallType::Puck => "Puck"@,
            BallType::Basketball => "Basketball"@,
        }
    }

    /// The value named `s`, if any.
    pub open spec fn parse_label(s: Seq<char>) -> Option<Self> {
        if s == "Default"@ {
            Some(BallType::Default)
        } else if s == "Cube"@ {
            Some(BallType::Cube)
        } else if s == "Puck"@ {
            Some(BallType::Puck)
        } else if s == "Basketball"@ {
            Some(BallType::Basketball)
        } else {
            None
        }
    }

    /// The value a stored name gives: the value of that name, or else the default.
    pub open spec fn read_or_default(stored: Option<Seq<char>>) -> Self {
        match stored {
            Some(l) => match Self::parse_label(l) {
                Some(v) => v,
                None => BallType::Default,
            },
            None => BallType::Default,
        }
    }

    /// Every value, in declaration order.
    pub open spec fn all_values() -> Seq<Self> {
        seq![BallType::Default, BallType::Cube, BallType::Puck, BallType::Basketball]
    }

    /// The name under which the GUI shows and stores this value.
    pub fn as_label(&self) -> (r: &'static str)
        ensures
            r@ == self.label(),
    {
        match self {
            BallType::Default => "Default",
            BallType::Cube => "Cube",
            BallType::Puck => "Puck",
            BallType::Basketball => "Basketball",
        }
    }

    /// The value named `s`, if any.
    pub fn from_label(s: &str) -> (r: Option<Self>)
        ensures
            r == Self::parse_label(s@),
    {
        if str_eq(s, "Default") {
            Some(BallType::Default)
        } else if str_eq(s, "Cube") {
            Some(BallType::Cube)
        } else if str_eq(s, "Puck") {
            Some(BallType::Puck)
        } else if str_eq(s, "Basketball") {
            Some(BallType::Basketball)
        } else {
            None
        }
    }

    /// The value a stored name gives: the value of that name, or else the default.
    pub fn from_stored_label(stored: Option<String>) -> (r: Self)
        ensures
            r == Self::read_or_default(opt_view(stored)),
    {
        match stored {
            Some(l) => match Self::from_label(l.as_str()) {
                Some(v) => v,
                None => BallType::Default,
            },
            None => BallType::Default,
        }
    }

    /// Every value, in declaration order.
    pub fn all() -> (r: Vec<Self>)
        ensures
            r@ == Self::all_values(),
    {
        let r = vec![BallType::Default, BallType::Cube, BallType::Puck, BallType::Basketball];
        assert(r@ =~= Self::all_values());
        r
    }

    /// Reading back the name of a value gives the value.
    pub proof fn lemma_label_round_trip(self)
        ensures
            Self::parse_label(self.label()) == Some(self),
    {
        reveal_strlit("Default");
        assert("Default"@ =~= seq!['D', 'e', 'f', 'a', 'u', 'l', 't']);
        reveal_strlit("Cube");
        assert("Cube"@ =~= seq!['C', 'u', 'b', 'e']);
        reveal_strlit("Puck");
        assert("Puck"@ =~= seq!['P', 'u', 'c', 'k']);
        reveal_strlit("Basketball");
        assert("Basketball"@ =~= seq!['B', 'a', 's', 'k', 'e', 't', 'b', 'a', 'l', 'l']);
        match self {
            BallType::Default => {},
            BallType::Cube => {},
            BallType::Puck => {},
            BallType::Basketball => {},
        }
    }
}

impl Default for BallType {
    fn default() -> (r: Self)
        ensures
            r == BallType::Default,
    {
        BallType::Default
    }
}

/// The ball's weight.
#[derive(Clone, Copy, Debug, PartialEq, Eq, Structural)]
pub enum BallWeight {
    Default,
    Light,
    Heavy,
    SuperLight,
}

impl BallWeight {
    /// The name under which the GUI shows and stores this value.
    pub open spec fn label(self) -> Seq<char> {
        match self {
            BallWeight::Default => "Default"@,
            BallWeight::Light => "Light"@,
            BallWeight::Heavy => "Heavy"@,
            BallWeight::SuperLight => "Super Light"@,
        }
    }

    /// The value named `s`, if any.
    pub open spec fn parse_label(s: Seq<char>) -> Option<Self> {
        if s == "Default"@ {
            Some(BallWeight::Default)
        } else if s == "Light"@ {
            Some(BallWeight::Light)
        } else if s == "Heavy"@ {
            Some(BallWeight::Heavy)
        } else if s == "Super Light"@ {
            Some(BallWeight::SuperLight)
        } else {
            None
        }
    }

    /// The value a stored name gives: the value of that name, or else the default.
    pub open spec fn read_or_default(stored: Option<Seq<char>>) -> Self {
        match stored {
            Some(l) => match Self::parse_label(l) {
                Some(v) => v,
                None => BallWeight::Default,
            },
            None => BallWeight::Default,
        }
    }

    /// Every value, in declaration order.
    pub open spec fn all_values() -> Seq<Self> {
        seq![BallWeight::Default, BallWeight::Light, BallWeight::Heavy, BallWeight::SuperLight]
    }

    /// The name under which the GUI shows and stores this value.
    pub fn as_label(&self) -> (r: &'static str)
        ensures
            r@ == self.label(),
    {
        match self {
            BallWeight::Default => "Default",
            BallWeight::Light => "Light",
            BallWeight::Heavy => "Heavy",
            BallWeight::SuperLight => "Super Light",
        }
    }

    /// The value named `s`, if any.
    pub fn from_label(s: &str) -> (r: Option<Self>)
        ensures
            r == Self::parse_label(s@),
    {
        if str_eq(s, "Default") {
            Some(BallWeight::Default)
        } else if str_eq(s, "Light") {
            Some(BallWeight::Light)
        } else if str_eq(s, "Heavy") {
            Some(BallWeight::Heavy)
        } else if str_eq(s, "Super Light") {
            Some(BallWeight::SuperLight)
        } else {
            None
        }
    }

    /// The value a stored name gives: the value of that name, or else the default.
    pub fn from_stored_label(stored: Option<String>) -> (r: Self)
        ensures
            r == Self::read_or_default(opt_view(stored)),
    {
        match stored {
            Some(l) => match Self::from_label(l.as_str()) {
                Some(v) => v,
                None => BallWeight::Default,
            },
            None => BallWeight::Default,
        }
    }

    /// Every value, in declaration order.
    pub fn all() -> (r: Vec<Self>)
        ensures
            r@ == Self::all_values(),
    {
        let r = vec![BallWeight::Default, BallWeight::Light, BallWeight::Heavy, BallWeight::SuperLight];
        assert(r@ =~= Self::all_values());
        r
    }

    /// Reading back the name of a value gives the value.
    pub proof fn lemma_label_round_trip(self)
        ensures
            Self::parse_label(self.label()) == Some(self),
    {
        reveal_strlit("Default");
        assert("Default"@ =~= seq!['D', 'e', 'f', 'a', 'u', 'l', 't']);
        reveal_strlit("Light");
        assert("Light"@ =~= seq!['L', 'i', 'g', 'h', 't']);
        reveal_strlit("Heavy");
        assert("Heavy"@ =~= seq!['H', 'e', 'a', 'v', 'y']);
        reveal_strlit("Super Light");
        assert("Super Light"@ =~= seq!['S', 'u', 'p', 'e', 'r', ' ', 'L', 'i', 'g', 'h', 't']);
        match self {
            BallWeight::Default => {},
            BallWeight::Light => {},
            BallWeight::Heavy => {},
            BallWeight::SuperLight => {},
        }
    }
}

impl Default for BallWeight {
    fn default() -> (r: Self)
        ensures
            r == BallWeight::Default,
    {
        BallWeight::Default
    }
}

/// The ball's size.
#[derive(Clone, Copy, Debug, PartialEq, Eq, Structural)]
pub enum BallSize {
    Default,
    Small,
    Large,
    Gigantic,
}

impl BallSize {
    /// The name under which the GUI shows and stores this value.
    pub open spec fn label(self) -> Seq<char> {
        match self {
            BallSize::Default => "Default"@,
            BallSize::Small => "Small"@,
            BallSize::Large => "Large"@,
            BallSize::Gigantic => "Gigantic"@,
        }
    }

    /// The value named `s`, if any.
    pub open spec fn parse_label(s: Seq<char>) -> Option<Self> {
        if s == "Default"@ {
            Some(BallSize::Default)
        } else if s == "Small"@ {
            Some(BallSize::Small)
        } else if s == "Large"@ {
            Some(BallSize::Large)
        } else if s == "Gigantic"@ {
            Some(BallSize::Gigantic)
        } else {
            None
        }
    }

    /// The value a stored name gives: the value of that name, or else the default.
    pub open spec fn read_or_default(stored: Option<Seq<char>>) -> Self {
        match stored {
            Some(l) => match Self::parse_label(l) {
                Some(v) => v,
                None => BallSize::Default,
            },
            None => BallSize::Default,
        }
    }

    /// Every value, in declaration order.
    pub open spec fn all_values() -> Seq<Self> {
        seq![BallSize::Default, BallSize::Small, BallSize::Large, BallSize::Gigantic]
    }

    /// The name under which the GUI shows and stores this value.
    pub fn as_label(&self) -> (r: &'static str)
        ensures
            r@ == self.label(),
    {
        match self {
            BallSize::Default => "Default",
            BallSize::Small => "Small",
            BallSize::Large => "Large",
            BallSize::Gigantic => "Gigantic",
        }
    }

    /// The value named `s`, if any.
    pub fn from_label(s: &str) -> (r: Option<Self>)
        ensures
            r == Self::parse_label(s@),
    {
        if str_eq(s, "Default") {
            Some(BallSize::Default)
        } else if str_eq(s, "Small") {
            Some(BallSize::Small)
        } else if str_eq(s, "Large") {
            Some(BallSize::Large)
        } else if str_eq(s, "Gigantic") {
            Some(BallSize::Gigantic)
        } else {
            None
        }
    }

    /// The value a stored name gives: the value of that name, or else the default.
    pub fn from_stored_label(stored: Option<String>) -> (r: Self)
        ensures
            r == Self::read_or_default(opt_view(stored)),
    {
        match stored {
            Some(l) => match Self::from_label(l.as_str()) {
                Some(v) => v,
                None => BallSize::Default,
            },
            None => BallSize::Default,
        }
    }

    /// Every value, in declaration order.
    pub fn all() -> (r: Vec<Self>)
        ensures
            r@ == Self::all_values(),
    {
        let r = vec![BallSize::Default, BallSize::Small, BallSize::Large, BallSize::Gigantic];
        assert(r@ =~= Self::all_values());
        r
    }

    /// Reading back the name of a value gives the value.
    pub proof fn lemma_label_round_trip(self)
        ensures
            Self::parse_label(self.label()) == Some(self),
    {
        reveal_strlit("Default");
        assert("Default"@ =~= seq!['D', 'e', 'f', 'a', 'u', 'l', 't']);
        reveal_strlit("Small");
        assert("Small"@ =~= seq!['S', 'm', 'a', 'l', 'l']);
        reveal_strlit("Large");
        assert("Large"@ =~= seq!['L', 'a', 'r', 'g', 'e']);
        reveal_strlit("Gigantic");
        assert("Gigantic"@ =~= seq!['G', 'i', 'g', 'a', 'n', 't', 'i', 'c']);
        match self {
            BallSize::Default => {},
            BallSize::Small => {},
            BallSize::Large => {},
            BallSize::Gigantic => {},
        }
    }
}

impl Default for BallSize {
    fn default() -> (r: Self)
        ensures
            r == BallSize::Default,
    {
        BallSize::Default
    }
}

/// How the ball bounces.
#[derive(Clone, Copy, Debug, PartialEq, Eq, Structural)]
pub enum BallBounciness {
    Default,
    Low,
    High,
    SuperHigh,
}

impl BallBounciness {
    /// The name under which the GUI shows and stores this value.
    pub open spec fn label(self) -> Seq<char> {
        match self {
            BallBounciness::Default => "Default"@,
            BallBounciness::Low => "Low"@,
            BallBounciness::High => "High"@,
            BallBounciness::SuperHigh => "Super High"@,
        }
    }

    /// The value named `s`, if any.
    pub open spec fn parse_label(s: Seq<char>) -> Option<Self> {
        if s == "Default"@ {
            Some(BallBounciness::Default)
        } else if s == "Low"@ {
            Some(BallBounciness::Low)
        } else if s == "High"@ {
            Some(BallBounciness::High)
        } else if s == "Super High"@ {
            Some(BallBounciness::SuperHigh)
        } else {
            None
        }
    }

    /// The value a stored name gives: the value of that name, or else the default.
    pub open spec fn read_or_default(stored: Option<Seq<char>>) -> Self {
        match stored {
            Some(l) => match Self::parse_label(l) {
                Some(v) => v,
                None => BallBounciness::Default,
            },
            None => BallBounciness::Default,
        }
    }

    /// Every value, in declaration order.
    pub open spec fn all_values() -> Seq<Self> {
        seq![BallBounciness::Default, BallBounciness::Low, BallBounciness::High, BallBounciness::SuperHigh]
    }

    /// The name under which the GUI shows and stores this value.
    pub fn as_label(&self) -> (r: &'static str)
        ensures
            r@ == self.label(),
    {
        match self {
            BallBounciness::Default => "Default",
            BallBounciness::Low => "Low",
            BallBounciness::High => "High",
            BallBounciness::SuperHigh => "Super High",
        }
    }

    /// The value named `s`, if any.
    pub fn from_label(s: &str) -> (r: Option<Self>)
        ensures
            r == Self::parse_label(s@),
    {
        if str_eq(s, "Default") {
            Some(BallBounciness::Default)
        } else if str_eq(s, "Low") {
            Some(BallBounciness::Low)
        } else if str_eq(s, "High") {
            Some(BallBounciness::High)
        } else if str_eq(s, "Super High") {
            Some(BallBounciness::SuperHigh)
        } else {
            None
        }
    }

    /// The value a stored name gives: the value of that name, or else the default.
    pub fn from_stored_label(stored: Option<String>) -> (r: Self)
        ensures
            r == Self::read_or_default(opt_view(stored)),
    {
        match stored {
            Some(l) => match Self::from_label(l.as_str()) {
                Some(v) => v,
                None => BallBounciness::Default,
            },
            None => BallBounciness::Default,
        }
    }

    /// Every value, in declaration order.
    pub fn all() -> (r: Vec<Self>)
        ensures
            r@ == Self::all_values(),
    {
        let r = vec![BallBounciness::Default, BallBounciness::Low, BallBounciness::High, BallBounciness::SuperHigh];
        assert(r@ =~= Self::all_values());
        r
    }

    /// Reading back the name of a value gives the value.
    pub proof fn lemma_label_round_trip(self)
        ensures
            Self::parse_label(self.label()) == Some(self),
    {
        reveal_strlit("Default");
        assert("Default"@ =~= seq!['D', 'e', 'f', 'a', 'u', 'l', 't']);
        reveal_strlit("Low");
        assert("Low"@ =~= seq!['L', 'o', 'w']);
        reveal_strlit("High");
        assert("High"@ =~= seq!['H', 'i', 'g', 'h']);
        reveal_strlit("Super High");
        assert("Super High"@ =~= seq!['S', 'u', 'p', 'e', 'r', ' ', 'H', 'i', 'g', 'h']);
        match self {
            BallBounciness::Default => {},
            BallBounciness::Low => {},
            BallBounciness::High => {},
            BallBounciness::SuperHigh => {},
        }
    }
}

impl Default for BallBounciness {
    fn default() -> (r: Self)
        ensures
            r == BallBounciness::Default,
    {
        BallBounciness::Default
    }
}

/// How much boost the cars get.
#[derive(Clone, Copy, Debug, PartialEq, Eq, Structural)]
pub enum BoostAmount {
    Default,
    Unlimited,
    RechargeSlow,
    RechargeFast,
    NoBoost,
}

impl BoostAmount {
    /// The name under which the GUI shows and stores this value.
    pub open spec fn label(self) -> Seq<char> {
        match self {
            BoostAmount::Default => "Default"@,
            BoostAmount::Unlimited => "Unlimited"@,
            BoostAmount::RechargeSlow => "Recharge (Slow)"@,
            BoostAmount::RechargeFast => "Recharge (Fast)"@,
            BoostAmount::NoBoost => "No Boost"@,
        }
    }

    /// The value named `s`, if any.
    pub open spec fn parse_label(s: Seq<char>) -> Option<Self> {
        if s == "Default"@ {
            Some(BoostAmount::Default)
        } else if s == "Unlimited"@ {
            Some(BoostAmount::Unlimited)
        } else if s == "Recharge (Slow)"@ {
            Some(BoostAmount::RechargeSlow)
        } else if s == "Recharge (Fast)"@ {
            Some(BoostAmount::RechargeFast)
        } else if s == "No Boost"@ {
            Some(BoostAmount::NoBoost)
        } else {
            None
        }
    }

    /// The value a stored name gives: the value of that name, or else the default.
    pub open spec fn read_or_default(stored: Option<Seq<char>>) -> Self {
        match stored {
            Some(l) => match Self::parse_label(l) {
                Some(v) => v,
                None => BoostAmount::Default,
            },
            None => BoostAmount::Default,
        }
    }

    /// Every value, in declaration order.
    pub open spec fn all_values() -> Seq<Self> {
        seq![BoostAmount::Default, BoostAmount::Unlimited, BoostAmount::RechargeSlow, BoostAmount::RechargeFast, BoostAmount::NoBoost]
    }

    /// The name under which the GUI shows and stores this value.
    pub fn as_label(&self) -> (r: &'static str)
        ensures
            r@ == self.label(),
    {
        match self {
            BoostAmount::Default => "Default",
            BoostAmount::Unlimited => "Unlimited",
            BoostAmount::RechargeSlow => "Recharge (Slow)",
            BoostAmount::RechargeFast => "Recharge (Fast)",
            BoostAmount::NoBoost => "No Boost",
        }
    }

    /// The value named `s`, if any.
    pub fn from_label(s: &str) -> (r: Option<Self>)
        ensures
            r == Self::parse_label(s@),
    {
        if str_eq(s, "Default") {
            Some(BoostAmount::Default)
        } else if str_eq(s, "Unlimited") {
            Some(BoostAmount::Unlimited)
        } else if str_eq(s, "Recharge (Slow)") {
            Some(BoostAmount::RechargeSlow)
        } else if str_eq(s, "Recharge (Fast)") {
            Some(BoostAmount::RechargeFast)
        } else if str_eq(s, "No Boost") {
            Some(BoostAmount::NoBoost)
        } else {
            None
        }
    }

    /// The value a stored name gives: the value of that name, or else the default.
    pub fn from_stored_label(stored: Option<String>) -> (r: Self)
        ensures
            r == Self::read_or_default(opt_view(stored)),
    {
        match stored {
            Some(l) => match Self::from_label(l.as_str()) {
                Some(v) => v,
                None => BoostAmount::Default,
            },
            None => BoostAmount::Default,
        }
    }

    /// Every value, in declaration order.
    pub fn all() -> (r: Vec<Self>)
        ensures
            r@ == Self::all_values(),
    {
        let r = vec![BoostAmount::Default, BoostAmount::Unlimited, BoostAmount::RechargeSlow, BoostAmount::RechargeFast, BoostAmount::NoBoost];
        assert(r@ =~= Self::all_values());
        r
    }

    /// Reading back the name of a value gives the value.
    pub proof fn lemma_label_round_trip(self)
        ensures
            Self::parse_label(self.label()) == Some(self),
    {
        reveal_strlit("Default");
        assert("Default"@ =~= seq!['D', 'e', 'f', 'a', 'u', 'l', 't']);
        reveal_strlit("Unlimited");
        assert("Unlimited"@ =~= seq!['U', 'n', 'l', 'i', 'm', 'i', 't', 'e', 'd']);
        reveal_strlit("Recharge (Slow)");
        assert("Recharge (Slow)"@ =~= seq!['R', 'e', 'c', 'h', 'a', 'r', 'g', 'e', ' ', '(', 'S', 'l', 'o', 'w', ')']);
        reveal_strlit("Recharge (Fast)");
        assert("Recharge (Fast)"@ =~= seq!['R', 'e', 'c', 'h', 'a', 'r', 'g', 'e', ' ', '(', 'F', 'a', 's', 't', ')']);
        reveal_strlit("No Boost");
        assert("No Boost"@ =~= seq!['N', 'o', ' ', 'B', 'o', 'o', 's', 't']);
        match self {
            BoostAmount::Default => {},
            BoostAmount::Unlimited => {},
            BoostAmount::RechargeSlow => {},
            BoostAmount::RechargeFast => {},
            BoostAmount::NoBoost => {},
        }
    }
}

impl Default for BoostAmount {
    fn default() -> (r: Self)
        ensures
            r == BoostAmount::Default,
    {
        BoostAmount::Default
    }
}

/// The rumble power-ups.
#[derive(Clone, Copy, Debug, PartialEq, Eq, Structural)]
pub enum Rumble {
    NoRumble,
    Default,
    Slow,
    Civilized,
    DestructionDerby,
    SpringLoaded,
    SpikesOnly,
    SpikeRush,
}

impl Rumble {
    /// The name under which the GUI shows and stores this value.
    pub open spec fn label(self) -> Seq<char> {
        match self {
            Rumble::NoRumble => "None"@,
            Rumble::Default => "Default"@,
            Rumble::Slow => "Slow"@,
            Rumble::Civilized => "Civilized"@,
            Rumble::DestructionDerby => "Destruction Derby"@,
            Rumble::SpringLoaded => "Spring Loaded"@,
            Rumble::SpikesOnly => "Spikes Only"@,
            Rumble::SpikeRush => "Spike Rush"@,
        }
    }

    /// The value named `s`, if any.
    pub open spec fn parse_label(s: Seq<char>) -> Option<Self> {
        if s == "None"@ {
            Some(Rumble::NoRumble)
        } else if s == "Default"@ {
            Some(Rumble::Default)
        } else if s == "Slow"@ {
            Some(Rumble::Slow)
        } else if s == "Civilized"@ {
            Some(Rumble::Civilized)
        } else if s == "Destruction Derby"@ {
            Some(Rumble::DestructionDerby)
        } else if s == "Spring Loaded"@ {
            Some(Rumble::SpringLoaded)
        } else if s == "Spikes Only"@ {
            Some(Rumble::SpikesOnly)
        } else if s == "Spike Rush"@ {
            Some(Rumble::SpikeRush)
        } else {
            None
        }
    }

    /// The value a stored name gives: the value of that name, or else the default.
    pub open spec fn read_or_default(stored: Option<Seq<char>>) -> Self {
        match stored {
            Some(l) => match Self::parse_label(l) {
                Some(v) => v,
                None => Rumble::NoRumble,
            },
            None => Rumble::NoRumble,
        }
    }

    /// Every value, in declaration order.
    pub open spec fn all_values() -> Seq<Self> {
        seq![Rumble::NoRumble, Rumble::Default, Rumble::Slow, Rumble::Civilized, Rumble::DestructionDerby, Rumble::SpringLoaded, Rumble::SpikesOnly, Rumble::SpikeRush]
    }

    /// The name under which the GUI shows and stores this value.
    pub fn as_label(&self) -> (r: &'static str)
        ensures
            r@ == self.label(),
    {
        match self {
            Rumble::NoRumble => "None",
            Rumble::Default => "Default",
            Rumble::Slow => "Slow",
            Rumble::Civilized => "Civilized",
            Rumble::DestructionDerby => "Destruction Derby",
            Rumble::SpringLoaded => "Spring Loaded",
            Rumble::SpikesOnly => "Spikes Only",
            Rumble::SpikeRush => "Spike Rush",
        }
    }

    /// The value named `s`, if any.
    pub fn from_label(s: &str) -> (r: Option<Self>)
        ensures
            r == Self::parse_label(s@),
    {
        if str_eq(s, "None") {
            Some(Rumble::NoRumble)
        } else if str_eq(s, "Default") {
            Some(Rumble::Default)
        } else if str_eq(s, "Slow") {
            Some(Rumble::Slow)
        } else if str_eq(s, "Civilized") {
            Some(Rumble::Civilized)
        } else if str_eq(s, "Destruction Derby") {
            Some(Rumble::DestructionDerby)
        } else if str_eq(s, "Spring Loaded") {
            Some(Rumble::SpringLoaded)
        } else if str_eq(s, "Spikes Only") {
            Some(Rumble::SpikesOnly)
        } else if str_eq(s, "Spike Rush") {
            Some(Rumble::SpikeRush)
        } else {
            None
        }
    }

    /// The value a stored name gives: the value of that name, or else the default.
    pub fn from_stored_label(stored: Option<String>) -> (r: Self)
        ensures
            r == Self::read_or_default(opt_view(stored)),
    {
        match stored {
            Some(l) => match Self::from_label(l.as_str()) {
                Some(v) => v,
                None => Rumble::NoRumble,
            },
            None => Rumble::NoRumble,
        }
    }

    /// Every value, in declaration order.
    pub fn all() -> (r: Vec<Self>)
        ensures
            r@ == Self::all_values(),
    {
        let r = vec![Rumble::NoRumble, Rumble::Default, Rumble::Slow, Rumble::Civilized, Rumble::DestructionDerby, Rumble::SpringLoaded, Rumble::SpikesOnly, Rumble::SpikeRush];
        assert(r@ =~= Self::all_values());
        r
    }

    /// Reading back the name of a value gives the value.
    pub proof fn lemma_label_round_trip(self)
        ensures
            Self::parse_label(self.label()) == Some(self),
    {
        reveal_strlit("None");
        assert("None"@ =~= seq!['N', 'o', 'n', 'e']);
        reveal_strlit("Default");
        assert("Default"@ =~= seq!['D', 'e', 'f', 'a', 'u', 'l', 't']);
        reveal_strlit("Slow");
        assert("Slow"@ =~= seq!['S', 'l', 'o', 'w']);
        reveal_strlit("Civilized");
        assert("Civilized"@ =~= seq!['C', 'i', 'v', 'i', 'l', 'i', 'z', 'e', 'd']);
        reveal_strlit("Destruction Derby");
        assert("Destruction Derby"@ =~= seq!['D', 'e', 's', 't', 'r', 'u', 'c', 't', 'i', 'o', 'n', ' ', 'D', 'e', 'r', 'b', 'y']);
        reveal_strlit("Spring Loaded");
        assert("Spring Loaded"@ =~= seq!['S', 'p', 'r', 'i', 'n', 'g', ' ', 'L', 'o', 'a', 'd', 'e', 'd']);
        reveal_strlit("Spikes Only");
        assert("Spikes Only"@ =~= seq!['S', 'p', 'i', 'k', 'e', 's', ' ', 'O', 'n', 'l', 'y']);
        reveal_strlit("Spike Rush");
        assert("Spike Rush"@ =~= seq!['S', 'p', 'i', 'k', 'e', ' ', 'R', 'u', 's', 'h']);
        match self {
            Rumble::NoRumble => {},
            Rumble::Default => {},
            Rumble::Slow => {},
            Rumble::Civilized => {},
            Rumble::DestructionDerby => {},
            Rumble::SpringLoaded => {},
            Rumble::SpikesOnly => {},
            Rumble::SpikeRush => {},
        }
    }
}

impl Default for Rumble {
    fn default() -> (r: Self)
        ensures
            r == Rumble::NoRumble,
    {
        Rumble::NoRumble
    }
}

/// How strong boost is.
#[derive(Clone, Copy, Debug, PartialEq, Eq, Structural)]
pub enum BoostStrength {
    One,
    OnePointFive,
    Two,
    Ten,
}

impl BoostStrength {
    /// The name under which the GUI shows and stores this value.
    pub open spec fn label(self) -> Seq<char> {
        match self {
            BoostStrength::One => "1x"@,
            BoostStrength::OnePointFive => "1.5x"@,
            BoostStrength::Two => "2x"@,
            BoostStrength::Ten => "10x"@,
        }
    }

    /// The value named `s`, if any.
    pub open spec fn parse_label(s: Seq<char>) -> Option<Self> {
        if s == "1x"@ {
            Some(BoostStrength::One)
        } else if s == "1.5x"@ {
            Some(BoostStrength::OnePointFive)
        } else if s == "2x"@ {
            Some(BoostStrength::Two)
        } else if s == "10x"@ {
            Some(BoostStrength::Ten)
        } else {
            None
        }
    }

    /// The value a stored name gives: the value of that name, or else the default.
    pub open spec fn read_or_default(stored: Option<Seq<char>>) -> Self {
        match stored {
            Some(l) => match Self::parse_label(l) {
                Some(v) => v,
                None => BoostStrength::One,
            },
            None => BoostStrength::One,
        }
    }

    /// Every value, in declaration order.
    pub open spec fn all_values() -> Seq<Self> {
        seq![BoostStrength::One, BoostStrength::OnePointFive, BoostStrength::Two, BoostStrength::Ten]
    }

    /// The name under which the GUI shows and stores this value.
    pub fn as_label(&self) -> (r: &'static str)
        ensures
            r@ == self.label(),
    {
        match self {
            BoostStrength::One => "1x",
            BoostStrength::OnePointFive => "1.5x",
            BoostStrength::Two => "2x",
            BoostStrength::Ten => "10x",
        }
    }

    /// The value named `s`, if any.
    pub fn from_label(s: &str) -> (r: Option<Self>)
        ensures
            r == Self::parse_label(s@),
    {
        if str_eq(s, "1x") {
            Some(BoostStrength::One)
        } else if str_eq(s, "1.5x") {
            Some(BoostStrength::OnePointFive)
        } else if str_eq(s, "2x") {
            Some(BoostStrength::Two)
        } else if str_eq(s, "10x") {
            Some(BoostStrength::Ten)
        } else {
            None
        }
    }

    /// The value a stored name gives: the value of that name, or else the default.
    pub fn from_stored_label(stored: Option<String>) -> (r: Self)
        ensures
            r == Self::read_or_default(opt_view(stored)),
    {
        match stored {
            Some(l) => match Self::from_label(l.as_str()) {
                Some(v) => v,
                None => BoostStrength::One,
            },
            None => BoostStrength::One,
        }
    }

    /// Every value, in declaration order.
    pub fn all() -> (r: Vec<Self>)
        ensures
            r@ == Self::all_values(),
    {
        let r = vec![BoostStrength::One, BoostStrength::OnePointFive, BoostStrength::Two, BoostStrength::Ten];
        assert(r@ =~= Self::all_values());
        r
    }

    /// Reading back the name of a value gives the value.
    pub proof fn lemma_label_round_trip(self)
        ensures
            Self::parse_label(self.label()) == Some(self),
    {
        reveal_strlit("1x");
        assert("1x"@ =~= seq!['1', 'x']);
        reveal_strlit("1.5x");
        assert("1.5x"@ =~= seq!['1', '.', '5', 'x']);
        reveal_strlit("2x");
        assert("2x"@ =~= seq!['2', 'x']);
        reveal_strlit("10x");
        assert("10x"@ =~= seq!['1', '0', 'x']);
        match self {
            BoostStrength::One => {},
            BoostStrength::OnePointFive => {},
            BoostStrength::Two => {},
            BoostStrength::Ten => {},
        }
    }
}

impl Default for BoostStrength {
    fn default() -> (r: Self)
        ensures
            r == BoostStrength::One,
    {
        BoostStrength::One
    }
}

/// The strength of gravity.
#[derive(Clone, Copy, Debug, PartialEq, Eq, Structural)]
pub enum Gravity {
    Default,
    Low,
    High,
    SuperHigh,
}

impl Gravity {
    /// The name under which the GUI shows and stores this value.
    pub open spec fn label(self) -> Seq<char> {
        match self {
            Gravity::Default => "Default"@,
            Gravity::Low => "Low"@,
            Gravity::High => "High"@,
            Gravity::SuperHigh => "Super High"@,
        }
    }

    /// The value named `s`, if any.
    pub open spec fn parse_label(s: Seq<char>) -> Option<Self> {
        if s == "Default"@ {
            Some(Gravity::Default)
        } else if s == "Low"@ {
            Some(Gravity::Low)
        } else if s == "High"@ {
            Some(Gravity::High)
        } else if s == "Super High"@ {
            Some(Gravity::SuperHigh)
        } else {
            None
        }
    }

    /// The value a stored name gives: the value of that name, or else the default.
    pub open spec fn read_or_default(stored: Option<Seq<char>>) -> Self {
        match stored {
            Some(l) => match Self::parse_label(l) {
                Some(v) => v,
                None => Gravity::Default,
            },
            None => Gravity::Default,
        }
    }

    /// Every value, in declaration order.
    pub open spec fn all_values() -> Seq<Self> {
        seq![Gravity::Default, Gravity::Low, Gravity::High, Gravity::SuperHigh]
    }

    /// The name under which the GUI shows and stores this value.
    pub fn as_label(&self) -> (r: &'static str)
        ensures
            r@ == self.label(),
    {
        match self {
            Gravity::Default => "Default",
            Gravity::Low => "Low",
            Gravity::High => "High",
            Gravity::SuperHigh => "Super High",
        }
    }

    /// The value named `s`, if any.
    pub fn from_label(s: &str) -> (r: Option<Self>)
        ensures
            r == Self::parse_label(s@),
    {
        if str_eq(s, "Default") {
            Some(Gravity::Default)
        } else if str_eq(s, "Low") {
            Some(Gravity::Low)
        } else if str_eq(s, "High") {
            Some(Gravity::High)
        } else if str_eq(s, "Super High") {
            Some(Gravity::SuperHigh)
        } else {
            None
        }
    }

    /// The value a stored name gives: the value of that name, or else the default.
    pub fn from_stored_label(stored: Option<String>) -> (r: Self)
        ensures
            r == Self::read_or_default(opt_view(stored)),
    {
        match stored {
            Some(l) => match Self::from_label(l.as_str()) {
                Some(v) => v,
                None => Gravity::Default,
            },
            None => Gravity::Default,
        }
    }

    /// Every value, in declaration order.
    pub fn all() -> (r: Vec<Self>)
        ensures
            r@ == Self::all_values(),
    {
        let r = vec![Gravity::Default, Gravity::Low, Gravity::High, Gravity::SuperHigh];
        assert(r@ =~= Self::all_values());
        r
    }

    /// Reading back the name of a value gives the value.
    pub proof fn lemma_label_round_trip(self)
        ensures
            Self::parse_label(self.label()) == Some(self),
    {
        reveal_strlit("Default");
        assert("Default"@ =~= seq!['D', 'e', 'f', 'a', 'u', 'l', 't']);
        reveal_strlit("Low");
        assert("Low"@ =~= seq!['L', 'o', 'w']);
        reveal_strlit("High");
        assert("High"@ =~= seq!['H', 'i', 'g', 'h']);
        reveal_strlit("Super High");
        assert("Super High"@ =~= seq!['S', 'u', 'p', 'e', 'r', ' ', 'H', 'i', 'g', 'h']);
        match self {
            Gravity::Default => {},
            Gravity::Low => {},
            Gravity::High => {},
            Gravity::SuperHigh => {},
        }
    }
}

impl Default for Gravity {
    fn default() -> (r: Self)
        ensures
            r == Gravity::Default,
    {
        Gravity::Default
    }
}

/// When cars are demolished.
#[derive(Clone, Copy, Debug, PartialEq, Eq, Structural)]
pub enum Demolish {
    Default,
    Disabled,
    FriendlyFire,
    OnContact,
    OnContactFriendlyFire,
}

impl Demolish {
    /// The name under which the GUI shows and stores this value.
    pub open spec fn label(self) -> Seq<char> {
        match self {
            Demolish::Default => "Default"@,
            Demolish::Disabled => "Disabled"@,
            Demolish::FriendlyFire => "Friendly Fire"@,
            Demolish::OnContact => "On Contact"@,
            Demolish::OnContactFriendlyFire => "On Contact (FF)"@,
        }
    }

    /// The value named `s`, if any.
    pub open spec fn parse_label(s: Seq<char>) -> Option<Self> {
        if s == "Default"@ {
            Some(Demolish::Default)
        } else if s == "Disabled"@ {
            Some(Demolish::Disabled)
        } else if s == "Friendly Fire"@ {
            Some(Demolish::FriendlyFire)
        } else if s == "On Contact"@ {
            Some(Demolish::OnContact)
        } else if s == "On Contact (FF)"@ {
            Some(Demolish::OnContactFriendlyFire)
        } else {
            None
        }
    }

    /// The value a stored name gives: the value of that name, or else the default.
    pub open spec fn read_or_default(stored: Option<Seq<char>>) -> Self {
        match stored {
            Some(l) => match Self::parse_label(l) {
                Some(v) => v,
                None => Demolish::Default,
            },
            None => Demolish::Default,
        }
    }

    /// Every value, in declaration order.
    pub open spec fn all_values() -> Seq<Self> {
        seq![Demolish::Default, Demolish::Disabled, Demolish::FriendlyFire, Demolish::OnContact, Demolish::OnContactFriendlyFire]
    }

    /// The name under which the GUI shows and stores this value.
    pub fn as_label(&self) -> (r: &'static str)
        ensures
            r@ == self.label(),
    {
        match self {
            Demolish::Default => "Default",
            Demolish::Disabled => "Disabled",
            Demolish::FriendlyFire => "Friendly Fire",
            Demolish::OnContact => "On Contact",
            Demolish::OnContactFriendlyFire => "On Contact (FF)",
        }
    }

    /// The value named `s`, if any.
    pub fn from_label(s: &str) -> (r: Option<Self>)
        ensures
            r == Self::parse_label(s@),
    {
        if str_eq(s, "Default") {
            Some(Demolish::Default)
        } else if str_eq(s, "Disabled") {
            Some(Demolish::Disabled)
        } else if str_eq(s, "Friendly Fire") {
            Some(Demolish::FriendlyFire)
        } else if str_eq(s, "On Contact") {
            Some(Demolish::OnContact)
        } else if str_eq(s, "On Contact (FF)") {
            Some(Demolish::OnContactFriendlyFire)
        } else {
            None
        }
    }

    /// The value a stored name gives: the value of that name, or else the default.
    pub fn from_stored_label(stored: Option<String>) -> (r: Self)
        ensures
            r == Self::read_or_default(opt_view(stored)),
    {
        match stored {
            Some(l) => match Self::from_label(l.as_str()) {
                Some(v) => v,
                None => Demolish::Default,
            },
            None => Demolish::Default,
        }
    }

    /// Every value, in declaration order.
    pub fn all() -> (r: Vec<Self>)
        ensures
            r@ == Self::all_values(),
    {
        let r = vec![Demolish::Default, Demolish::Disabled, Demolish::FriendlyFire, Demolish::OnContact, Demolish::OnContactFriendlyFire];
        assert(r@ =~= Self::all_values());
        r
    }

    /// Reading back the name of a value gives the value.
    pub proof fn lemma_label_round_trip(self)
        ensures
            Self::parse_label(self.label()) == Some(self),
    {
        reveal_strlit("Default");
        assert("Default"@ =~= seq!['D', 'e', 'f', 'a', 'u', 'l', 't']);
        reveal_strlit("Disabled");
        assert("Disabled"@ =~= seq!['D', 'i', 's', 'a', 'b', 'l', 'e', 'd']);
        reveal_strlit("Friendly Fire");
        assert("Friendly Fire"@ =~= seq!['F', 'r', 'i', 'e', 'n', 'd', 'l', 'y', ' ', 'F', 'i', 'r', 'e']);
        reveal_strlit("On Contact");
        assert("On Contact"@ =~= seq!['O', 'n', ' ', 'C', 'o', 'n', 't', 'a', 'c', 't']);
        reveal_strlit("On Contact (FF)");
        assert("On Contact (FF)"@ =~= seq!['O', 'n', ' ', 'C', 'o', 'n', 't', 'a', 'c', 't', ' ', '(', 'F', 'F', ')']);
        match self {
            Demolish::Default => {},
            Demolish::Disabled => {},
            Demolish::FriendlyFire => {},
            Demolish::OnContact => {},
            Demolish::OnContactFriendlyFire => {},
        }
    }
}

impl Default for Demolish {
    fn default() -> (r: Self)
        ensures
            r == Demolish::Default,
    {
        Demolish::Default
    }
}

/// How long a demolished car waits.
#[derive(Clone, Copy, Debug, PartialEq, Eq, Structural)]
pub enum RespawnTime {
    ThreeSeconds,
    TwoSeconds,
    OneSecond,
    DisableGoalReset,
}

impl RespawnTime {
    /// The name under which the GUI shows and stores this value.
    pub open spec fn label(self) -> Seq<char> {
        match self {
            RespawnTime::ThreeSeconds => "3 Seconds"@,
            RespawnTime::TwoSeconds => "2 Seconds"@,
            RespawnTime::OneSecond => "1 Second"@,
            RespawnTime::DisableGoalReset => "Disable Goal Reset"@,
        }
    }

    /// The value named `s`, if any.
    pub open spec fn parse_label(s: Seq<char>) -> Option<Self> {
        if s == "3 Seconds"@ {
            Some(RespawnTime::ThreeSeconds)
        } else if s == "2 Seconds"@ {
            Some(RespawnTime::TwoSeconds)
        } else if s == "1 Second"@ {
            Some(RespawnTime::OneSecond)
        } else if s == "Disable Goal Reset"@ {
            Some(RespawnTime::DisableGoalReset)
        } else {
            None
        }
    }

    /// The value a stored name gives: the value of that name, or else the default.
    pub open spec fn read_or_default(stored: Option<Seq<char>>) -> Self {
        match stored {
            Some(l) => match Self::parse_label(l) {
                Some(v) => v,
                None => RespawnTime::ThreeSeconds,
            },
            None => RespawnTime::ThreeSeconds,
        }
    }

    /// Every value, in declaration order.
    pub open spec fn all_values() -> Seq<Self> {
        seq![RespawnTime::ThreeSeconds, RespawnTime::TwoSeconds, RespawnTime::OneSecond, RespawnTime::DisableGoalReset]
    }

    /// The name under which the GUI shows and stores this value.
    pub fn as_label(&self) -> (r: &'static str)
        ensures
            r@ == self.label(),
    {
        match self {
            RespawnTime::ThreeSeconds => "3 Seconds",
            RespawnTime::TwoSeconds => "2 Seconds",
            RespawnTime::OneSecond => "1 Second",
            RespawnTime::DisableGoalReset => "Disable Goal Reset",
        }
    }

    /// The value named `s`, if any.
    pub fn from_label(s: &str) -> (r: Option<Self>)
        ensures
            r == Self::parse_label(s@),
    {
        if str_eq(s, "3 Seconds") {
            Some(RespawnTime::ThreeSeconds)
        } else if str_eq(s, "2 Seconds") {
            Some(RespawnTime::TwoSeconds)
        } else if str_eq(s, "1 Second") {
            Some(RespawnTime::OneSecond)
        } else if str_eq(s, "Disable Goal Reset") {
            Some(RespawnTime::DisableGoalReset)
        } else {
            None
        }
    }

    /// The value a stored name gives: the value of that name, or else the default.
    pub fn from_stored_label(stored: Option<String>) -> (r: Self)
        ensures
            r == Self::read_or_default(opt_view(stored)),
    {
        match stored {
            Some(l) => match Self::from_label(l.as_str()) {
                Some(v) => v,
                None => RespawnTime::ThreeSeconds,
            },
            None => RespawnTime::ThreeSeconds,
        }
    }

    /// Every value, in declaration order.
    pub fn all() -> (r: Vec<Self>)
        ensures
            r@ == Self::all_values(),
    {
        let r = vec![RespawnTime::ThreeSeconds, RespawnTime::TwoSeconds, RespawnTime::OneSecond, RespawnTime::DisableGoalReset];
        assert(r@ =~= Self::all_values());
        r
    }

    /// Reading back the name of a value gives the value.
    pub proof fn lemma_label_round_trip(self)
        ensures
            Self::parse_label(self.label()) == Some(self),
    {
        reveal_strlit("3 Seconds");
        assert("3 Seconds"@ =~= seq!['3', ' ', 'S', 'e', 'c', 'o', 'n', 'd', 's']);
        reveal_strlit("2 Seconds");
        assert("2 Seconds"@ =~= seq!['2', ' ', 'S', 'e', 'c', 'o', 'n', 'd', 's']);
        reveal_strlit("1 Second");
        assert("1 Second"@ =~= seq!['1', ' ', 'S', 'e', 'c', 'o', 'n', 'd']);
        reveal_strlit("Disable Goal Reset");
        assert("Disable Goal Reset"@ =~= seq!['D', 'i', 's', 'a', 'b', 'l', 'e', ' ', 'G', 'o', 'a', 'l', ' ', 'R', 'e', 's', 'e', 't']);
        match self {
            RespawnTime::ThreeSeconds => {},
            RespawnTime::TwoSeconds => {},
            RespawnTime::OneSecond => {},
            RespawnTime::DisableGoalReset => {},
        }
    }
}

impl Default for RespawnTime {
    fn default() -> (r: Self)
        ensures
            r == RespawnTime::ThreeSeconds,
    {
        RespawnTime::ThreeSeconds
    }
}

/// Every choice of each mutator, for the GUI to offer.
#[derive(Debug, Clone)]
pub struct Mutators {
    pub match_length_types: Vec<MatchLength>,
    pub max_score_types: Vec<MaxScore>,
    pub overtime_types: Vec<Overtime>,
    pub series_length_types: Vec<SeriesLength>,
    pub game_speed_types: Vec<GameSpeed>,
    pub ball_max_speed_types: Vec<BallMaxSpeed>,
    pub ball_type_types: Vec<BallType>,
    pub ball_weight_types: Vec<BallWeight>,
    pub ball_size_types: Vec<BallSize>,
    pub ball_bounciness_types: Vec<BallBounciness>,
    pub boost_amount_types: Vec<BoostAmount>,
    pub rumble_types: Vec<Rumble>,
    pub boost_strength_types: Vec<BoostStrength>,
    pub gravity_types: Vec<Gravity>,
    pub demolish_types: Vec<Demolish>,
    pub respawn_time_types: Vec<RespawnTime>,
}

impl Default for Mutators {
    fn default() -> (r: Self)
        ensures
            r.match_length_types@ == MatchLength::all_values(),
            r.max_score_types@ == MaxScore::all_values(),
            r.overtime_types@ == Overtime::all_values(),
            r.series_length_types@ == SeriesLength::all_values(),
            r.game_speed_types@ == GameSpeed::all_values(),
            r.ball_max_speed_types@ == BallMaxSpeed::all_values(),
            r.ball_type_types@ == BallType::all_values(),
            r.ball_weight_types@ == BallWeight::all_values(),
            r.ball_size_types@ == BallSize::all_values(),
            r.ball_bounciness_types@ == BallBounciness::all_values(),
            r.boost_amount_types@ == BoostAmount::all_values(),
            r.rumble_types@ == Rumble::all_values(),
            r.boost_strength_types@ == BoostStrength::all_values(),
            r.gravity_types@ == Gravity::all_values(),
            r.demolish_types@ == Demolish::all_values(),
            r.respawn_time_types@ == RespawnTime::all_values(),
    {
        Mutators {
            match_length_types: MatchLength::all(),
            max_score_types: MaxScore::all(),
            overtime_types: Overtime::all(),
            series_length_types: SeriesLength::all(),
            game_speed_types: GameSpeed::all(),
            ball_max_speed_types: BallMaxSpeed::all(),
            ball_type_types: BallType::all(),
            ball_weight_types: BallWeight::all(),
            ball_size_types: BallSize::all(),
            ball_bounciness_types: BallBounciness::all(),
            boost_amount_types: BoostAmount::all(),
            rumble_types: Rumble::all(),
            boost_strength_types: BoostStrength::all(),
            gravity_types: Gravity::all(),
            demolish_types: Demolish::all(),
            respawn_time_types: RespawnTime::all(),
        }
    }
}

/// Every map, game mode and match behaviour, and every mutator choice, for the GUI to offer.
#[derive(Debug)]
pub struct MatchOptions {
    pub map_types: Vec<MapType>,
    pub game_modes: Vec<GameMode>,
    pub match_behaviours: Vec<ExistingMatchBehavior>,
    pub mutators: Mutators,
}

impl Default for MatchOptions {
    fn default() -> (r: Self)
        ensures
            MapType::listed(r.map_types@),
            r.game_modes@ == GameMode::all_values(),
            r.match_behaviours@ == ExistingMatchBehavior::all_values(),
            r.mutators.match_length_types@ == MatchLength::all_values(),
            r.mutators.max_score_types@ == MaxScore::all_values(),
            r.mutators.overtime_types@ == Overtime::all_values(),
            r.mutators.series_length_types@ == SeriesLength::all_values(),
            r.mutators.game_speed_types@ == GameSpeed::all_values(),
            r.mutators.ball_max_speed_types@ == BallMaxSpeed::all_values(),
            r.mutators.ball_type_types@ == BallType::all_values(),
            r.mutators.ball_weight_types@ == BallWeight::all_values(),
            r.mutators.ball_size_types@ == BallSize::all_values(),
            r.mutators.ball_bounciness_types@ == BallBounciness::all_values(),
            r.mutators.boost_amount_types@ == BoostAmount::all_values(),
            r.mutators.rumble_types@ == Rumble::all_values(),
            r.mutators.boost_strength_types@ == BoostStrength::all_values(),
            r.mutators.gravity_types@ == Gravity::all_values(),
            r.mutators.demolish_types@ == Demolish::all_values(),
            r.mutators.respawn_time_types@ == RespawnTime::all_values(),
    {
        MatchOptions {
            map_types: MapType::all(),
            game_modes: GameMode::all(),
            match_behaviours: ExistingMatchBehavior::all(),
            mutators: Mutators::default(),
        }
    }
}

} // verus!
