use rlbot_gui::match_option_names::{vec_to_string, MatchOptions as MatchOptionNames, Mutators as MutatorNames};
use rlbot_gui::match_settings_config_parser::{
    BoostAmount, Demolish, ExistingMatchBehavior, GameMode, MapType, MatchLength, MatchOptions, Mutators, Overtime, Rumble,
};

#[test]
fn labels_are_the_stored_names() {
    assert_eq!(MatchLength::TenMinutes.as_label(), "10 Minutes");
    assert_eq!(Overtime::PlusFiveMaxRandomTeam.as_label(), "+5 Max, Random Team");
    assert_eq!(Demolish::OnContactFriendlyFire.as_label(), "On Contact (FF)");
    assert_eq!(ExistingMatchBehavior::RestartIfDifferent.as_label(), "Restart If Different");
    assert_eq!(MapType::DfhStadiumStormy.as_label(), "DFHStadium_Stormy");
    assert_eq!(MapType::BeckwithParkGothamNight.as_label(), "BeckwithParkGothamNight");
    assert_eq!(MapType::Custom("x.upk".to_owned()).as_label(), "x.upk");
}

#[test]
fn names_read_back_as_values() {
    assert_eq!(BoostAmount::from_label("No Boost"), Some(BoostAmount::NoBoost));
    assert_eq!(Rumble::from_label("None"), Some(Rumble::NoRumble));
    assert_eq!(Rumble::from_label("none"), None);
    assert_eq!(GameMode::from_label("Gridiron"), Some(GameMode::Gridiron));
    assert!(matches!(MapType::from_label("Hoops_DunkHouse"), MapType::HoopsDunkHouse));
    assert!(matches!(MapType::from_label("custom.udk"), MapType::Custom(ref c) if c == "custom.udk"));
    for v in Rumble::all() {
        assert_eq!(Rumble::from_label(v.as_label()), Some(v));
    }
}

#[test]
fn stored_labels_fall_back_to_defaults() {
    assert_eq!(MatchLength::from_stored_label(Some("Unlimited".to_owned())), MatchLength::Unlimited);
    assert_eq!(MatchLength::from_stored_label(Some("nope".to_owned())), MatchLength::FiveMinutes);
    assert_eq!(MatchLength::from_stored_label(None), MatchLength::FiveMinutes);
    assert!(matches!(MapType::from_stored_label(None), MapType::DfhStadium));
}

#[test]
fn every_option_is_offered() {
    let o = MatchOptions::default();
    assert_eq!(o.map_types.len(), 61);
    assert!(matches!(o.map_types[0], MapType::DfhStadium));
    assert!(matches!(o.map_types[60], MapType::Custom(ref c) if c.is_empty()));
    assert_eq!(o.game_modes.len(), 7);
    assert_eq!(o.match_behaviours, vec![ExistingMatchBehavior::RestartIfDifferent, ExistingMatchBehavior::Restart, ExistingMatchBehavior::ContinueAndSpawn]);
    let m = Mutators::default();
    assert_eq!(m.rumble_types.len(), 8);
    assert_eq!(m.boost_amount_types[4], BoostAmount::NoBoost);
}

#[test]
fn option_names_match_the_values() {
    let names = MatchOptionNames::new();
    assert_eq!(names.map_types.len(), 60);
    assert_eq!(names.map_types[47], "BeckwithPark_GothamNight");
    assert_eq!(names.game_modes, vec!["Soccer", "Hoops", "Dropshot", "Hockey", "Rumble", "Heatseeker", "Gridiron"]);
    let m = MutatorNames::new();
    assert_eq!(m.boost_strength_types, vec!["1x", "1.5x", "2x", "10x"]);
    let from_values: Vec<String> = Rumble::all().iter().map(|r| r.as_label().to_owned()).collect();
    assert_eq!(m.rumble_types, from_values);
}

#[test]
fn names_are_copied() {
    assert_eq!(vec_to_string(&["a", "b c"]), vec!["a".to_owned(), "b c".to_owned()]);
    assert!(vec_to_string(&[]).is_empty());
}
