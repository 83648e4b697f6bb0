//! The options the GUI offers for a match, as lists of names.

use vstd::prelude::*;
use crate::match_settings_config_parser::{BallBounciness, BallMaxSpeed, BallSize, BallType, BallWeight, BoostAmount, BoostStrength, Demolish, ExistingMatchBehavior, GameMode, GameSpeed, Gravity, MatchLength, MaxScore, Overtime, RespawnTime, Rumble, SeriesLength};
use crate::text::views;

verus! {

/// The views of a list of string slices.
pub open spec fn str_views(v: Seq<&str>) -> Seq<Seq<char>> {
    v.map_values(|s: &str| s@)
}

/// Owned copies of a list of names.
pub fn vec_to_string(vec: &[&str]) -> (r: Vec<String>)
    ensures
        views(r@) == str_views(vec@),
{
    let mut r: Vec<String> = Vec::new();
    let mut i: usize = 0;
    while i < vec.len()
        invariant
            i <= vec@.len(),
            views(r@) == str_views(vec@.subrange(0, i as int)),
        decreases vec.len() - i,
    {
        let name: &str = vec[i];
        let ghost before = r@;
        r.push(name.to_owned());
        assert(vec@.subrange(0, i + 1) =~= vec@.subrange(0, i as int).push(name));
        assert(views(r@) =~= views(before).push(name@));
        assert(str_views(vec@.subrange(0, i + 1)) =~= str_views(vec@.subrange(0, i as int)).push(name@));
        i = i + 1;
    }
    assert(vec@.subrange(0, i as int) =~= vec@);
    r
}

/// The names of the maps offered.
pub open spec fn map_type_names() -> Seq<Seq<char>> {
    seq!["DFHStadium"@, "Mannfield"@, "ChampionsField"@, "UrbanCentral"@, "BeckwithPark"@, "UtopiaColiseum"@, "Wasteland"@, "NeoTokyo"@, "AquaDome"@, "StarbaseArc"@, "Farmstead"@, "SaltyShores"@, "DFHStadium_Stormy"@, "DFHStadium_Day"@, "Mannfield_Stormy"@, "Mannfield_Night"@, "ChampionsField_Day"@, "BeckwithPark_Stormy"@, "BeckwithPark_Midnight"@, "UrbanCentral_Night"@, "UrbanCentral_Dawn"@, "UtopiaColiseum_Dusk"@, "DFHStadium_Snowy"@, "Mannfield_Snowy"@, "UtopiaColiseum_Snowy"@, "Badlands"@, "Badlands_Night"@, "TokyoUnderpass"@, "Arctagon"@, "Pillars"@, "Cosmic"@, "DoubleGoal"@, "Octagon"@, "Underpass"@, "UtopiaRetro"@, "Hoops_DunkHouse"@, "DropShot_Core707"@, "ThrowbackStadium"@, "ForbiddenTemple"@, "RivalsArena"@, "Farmstead_Night"@, "SaltyShores_Night"@, "NeonFields"@, "DFHStadium_Circuit"@, "DeadeyeCanyon"@, "StarbaseArc_Aftermath"@, "Wasteland_Night"@, "BeckwithPark_GothamNight"@, "ForbiddenTemple_Day"@, "UrbanCentral_Haunted"@, "ChampionsField_NFL"@, "ThrowbackStadium_Snowy"@, "Basin"@, "Corridor"@, "Loophole"@, "Galleon"@, "GalleonRetro"@, "Hourglass"@, "Barricade"@, "Colossus"@]
}

/// The names of every choice of each mutator.
#[derive(Debug, Clone)]
pub struct Mutators {
    pub match_length_types: Vec<String>,
    pub max_score_types: Vec<String>,
    pub overtime_types: Vec<String>,
    pub series_length_types: Vec<String>,
    pub game_speed_types: Vec<String>,
    pub ball_max_speed_types: Vec<String>,
    pub ball_type_types: Vec<String>,
    pub ball_weight_types: Vec<String>,
    pub ball_size_types: Vec<String>,
    pub ball_bounciness_types: Vec<String>,
    pub boost_amount_types: Vec<String>,
    pub rumble_types: Vec<String>,
    pub boost_strength_types: Vec<String>,
    pub gravity_types: Vec<String>,
    pub demolish_types: Vec<String>,
    pub respawn_time_types: Vec<String>,
}

impl Mutators {
    /// The names of every choice of each mutator, in the order the mutator lists them.
    pub fn new() -> (r: Self)
        ensures
            views(r.match_length_types@) == MatchLength::all_values().map_values(|v: MatchLength| v.label()),
            views(r.max_score_types@) == MaxScore::all_values().map_values(|v: MaxScore| v.label()),
            views(r.overtime_types@) == Overtime::all_values().map_values(|v: Overtime| v.label()),
            views(r.series_length_types@) == SeriesLength::all_values().map_values(|v: SeriesLength| v.label()),
            views(r.game_speed_types@) == GameSpeed::all_values().map_values(|v: GameSpeed| v.label()),
            views(r.ball_max_speed_types@) == BallMaxSpeed::all_values().map_values(|v: BallMaxSpeed| v.label()),
            views(r.ball_type_types@) == BallType::all_values().map_values(|v: BallType| v.label()),
            views(r.ball_weight_types@) == BallWeight::all_values().map_values(|v: BallWeight| v.label()),
            views(r.ball_size_types@) == BallSize::all_values().map_values(|v: BallSize| v.label()),
            views(r.ball_bounciness_types@) == BallBounciness::all_values().map_values(|v: BallBounciness| v.label()),
            views(r.boost_amount_types@) == BoostAmount::all_values().map_values(|v: BoostAmount| v.label()),
            views(r.rumble_types@) == Rumble::all_values().map_values(|v: Rumble| v.label()),
            views(r.boost_strength_types@) == BoostStrength::all_values().map_values(|v: BoostStrength| v.label()),
            views(r.gravity_types@) == Gravity::all_values().map_values(|v: Gravity| v.label()),
            views(r.demolish_types@) == Demolish::all_values().map_values(|v: Demolish| v.label()),
            views(r.respawn_time_types@) == RespawnTime::all_values().map_values(|v: RespawnTime| v.label()),
    {
        let match_length_types = vec_to_string(&["5 Minutes", "10 Minutes", "20 Minutes", "Unlimited"]);
        assert(views(match_length_types@) =~= MatchLength::all_values().map_values(|v: MatchLength| v.label()));
        let max_score_types = vec_to_string(&["Unlimited", "1 Goal", "3 Goals", "5 Goals"]);
        assert(views(max_score_types@) =~= MaxScore::all_values().map_values(|v: MaxScore| v.label()));
        let overtime_types = vec_to_string(&["Unlimited", "+5 Max, First Score", "+5 Max, Random Team"]);
        assert(views(overtime_types@) =~= Overtime::all_values().map_values(|v: Overtime| v.label()));
        let series_length_types = vec_to_string(&["Unlimited", "3 Games", "5 Games", "7 Games"]);
        assert(views(series_length_types@) =~= SeriesLength::all_values().map_values(|v: SeriesLength| v.label()));
        let game_speed_types = vec_to_string(&["Default", "Slo-Mo", "Time Warp"]);
        assert(views(game_speed_types@) =~= GameSpeed::all_values().map_values(|v: GameSpeed| v.label()));
        let ball_max_speed_types = vec_to_string(&["Default", "Slow", "Fast", "Super Fast"]);
        assert(views(ball_max_speed_types@) =~= BallMaxSpeed::all_values().map_values(|v: BallMaxSpeed| v.label()));
        let ball_type_types = vec_to_string(&["Default", "Cube", "Puck", "Basketball"]);
        assert(views(ball_type_types@) =~= BallType::all_values().map_values(|v: BallType| v.label()));
        let ball_weight_types = vec_to_string(&["Default", "Light", "Heavy", "Super Light"]);
        assert(views(ball_weight_types@) =~= BallWeight::all_values().map_values(|v: BallWeight| v.label()));
        let ball_size_types = vec_to_string(&["Default", "Small", "Large", "Gigantic"]);
        assert(views(ball_size_types@) =~= BallSize::all_values().map_values(|v: BallSize| v.label()));
        let ball_bounciness_types = vec_to_string(&["Default", "Low", "High", "Super High"]);
        assert(views(ball_bounciness_types@) =~= BallBounciness::all_values().map_values(|v: BallBounciness| v.label()));
        let boost_amount_types = vec_to_string(&["Default", "Unlimited", "Recharge (Slow)", "Recharge (Fast)", "No Boost"]);
        assert(views(boost_amount_types@) =~= BoostAmount::all_values().map_values(|v: BoostAmount| v.label()));
        let rumble_types = vec_to_string(&["None", "Default", "Slow", "Civilized", "Destruction Derby", "Spring Loaded", "Spikes Only", "Spike Rush"]);
        assert(views(rumble_types@) =~= Rumble::all_values().map_values(|v: Rumble| v.label()));
        let boost_strength_types = vec_to_string(&["1x", "1.5x", "2x", "10x"]);
        assert(views(boost_strength_types@) =~= BoostStrength::all_values().map_values(|v: BoostStrength| v.label()));
        let gravity_types = vec_to_string(&["Default", "Low", "High", "Super High"]);
        assert(views(gravity_types@) =~= Gravity::all_values().map_values(|v: Gravity| v.label()));
        let demolish_types = vec_to_string(&["Default", "Disabled", "Friendly Fire", "On Contact", "On Contact (FF)"]);
        assert(views(demolish_types@) =~= Demolish::all_values().map_values(|v: Demolish| v.label()));
        let respawn_time_types = vec_to_string(&["3 Seconds", "2 Seconds", "1 Second", "Disable Goal Reset"]);
        assert(views(respawn_time_types@) =~= RespawnTime::all_values().map_values(|v: RespawnTime| v.label()));
        Mutators {
            match_length_types,
            max_score_types,
            overtime_types,
            series_length_types,
            game_speed_types,
            ball_max_speed_types,
            ball_type_types,
            ball_weight_types,
            ball_size_types,
            ball_bounciness_types,
            boost_amount_types,
            rumble_types,
            boost_strength_types,
            gravity_types,
            demolish_types,
            respawn_time_types,
        }
    }
}

/// The names of every map, game mode and match behaviour, and of every mutator choice.
#[derive(Debug, Clone)]
pub struct MatchOptions {
    pub map_types: Vec<String>,
    pub game_modes: Vec<String>,
    pub match_behaviours: Vec<String>,
    pub mutators: Mutators,
}

impl MatchOptions {
    /// The names of every option.
    pub fn new() -> (r: Self)
        ensures
            views(r.map_types@) == map_type_names(),
            views(r.game_modes@) == GameMode::all_values().map_values(|v: GameMode| v.label()),
            views(r.match_behaviours@) == ExistingMatchBehavior::all_values().map_values(|v: ExistingMatchBehavior| v.label()),
            views(r.mutators.match_length_types@) == MatchLength::all_values().map_values(|v: MatchLength| v.label()),
            views(r.mutators.max_score_types@) == MaxScore::all_values().map_values(|v: MaxScore| v.label()),
            views(r.mutators.overtime_types@) == Overtime::all_values().map_values(|v: Overtime| v.label()),
            views(r.mutators.series_length_types@) == SeriesLength::all_values().map_values(|v: SeriesLength| v.label()),
            views(r.mutators.game_speed_types@) == GameSpeed::all_values().map_values(|v: GameSpeed| v.label()),
            views(r.mutators.ball_max_speed_types@) == BallMaxSpeed::all_values().map_values(|v: BallMaxSpeed| v.label()),
            views(r.mutators.ball_type_types@) == BallType::all_values().map_values(|v: BallType| v.label()),
            views(r.mutators.ball_weight_types@) == BallWeight::all_values().map_values(|v: BallWeight| v.label()),
            views(r.mutators.ball_size_types@) == BallSize::all_values().map_values(|v: BallSize| v.label()),
            views(r.mutators.ball_bounciness_types@) == BallBounciness::all_values().map_values(|v: BallBounciness| v.label()),
            views(r.mutators.boost_amount_types@) == BoostAmount::all_values().map_values(|v: BoostAmount| v.label()),
            views(r.mutators.rumble_types@) == Rumble::all_values().map_values(|v: Rumble| v.label()),
            views(r.mutators.boost_strength_types@) == BoostStrength::all_values().map_values(|v: BoostStrength| v.label()),
            views(r.mutators.gravity_types@) == Gravity::all_values().map_values(|v: Gravity| v.label()),
            views(r.mutators.demolish_types@) == Demolish::all_values().map_values(|v: Demolish| v.label()),
            views(r.mutators.respawn_time_types@) == RespawnTime::all_values().map_values(|v: RespawnTime| v.label()),
    {
        let map_types = vec_to_string(&["DFHStadium", "Mannfield", "ChampionsField", "UrbanCentral", "BeckwithPark", "UtopiaColiseum", "Wasteland", "NeoTokyo", "AquaDome", "StarbaseArc", "Farmstead", "SaltyShores", "DFHStadium_Stormy", "DFHStadium_Day", "Mannfield_Stormy", "Mannfield_Night", "ChampionsField_Day", "BeckwithPark_Stormy", "BeckwithPark_Midnight", "UrbanCentral_Night", "UrbanCentral_Dawn", "UtopiaColiseum_Dusk", "DFHStadium_Snowy", "Mannfield_Snowy", "UtopiaColiseum_Snowy", "Badlands", "Badlands_Night", "TokyoUnderpass", "Arctagon", "Pillars", "Cosmic", "DoubleGoal", "Octagon", "Underpass", "UtopiaRetro", "Hoops_DunkHouse", "DropShot_Core707", "ThrowbackStadium", "ForbiddenTemple", "RivalsArena", "Farmstead_Night", "SaltyShores_Night", "NeonFields", "DFHStadium_Circuit", "DeadeyeCanyon", "StarbaseArc_Aftermath", "Wasteland_Night", "BeckwithPark_GothamNight", "ForbiddenTemple_Day", "UrbanCentral_Haunted", "ChampionsField_NFL", "ThrowbackStadium_Snowy", "Basin", "Corridor", "Loophole", "Galleon", "GalleonRetro", "Hourglass", "Barricade", "Colossus"]);
        assert(views(map_types@) =~= map_type_names());
        let game_modes = vec_to_string(&["Soccer", "Hoops", "Dropshot", "Hockey", "Rumble", "Heatseeker", "Gridiron"]);
        assert(views(game_modes@) =~= GameMode::all_values().map_values(|v: GameMode| v.label()));
        let match_behaviours = vec_to_string(&["Restart If Different", "Restart", "Continue And Spawn"]);
        assert(views(match_behaviours@) =~= ExistingMatchBehavior::all_values().map_values(|v: ExistingMatchBehavior| v.label()));
        MatchOptions { map_types, game_modes, match_behaviours, mutators: Mutators::new() }
    }
}

} // verus!
