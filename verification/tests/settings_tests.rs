use rlbot_gui::settings::{AllRecommendations, Recommendation};
use configparser::ini::Ini;
use rlbot_gui::config_handles::{set_gui_config_to_default, GuiTabCategory, PrimaryCategories};
use rlbot_gui::match_settings_config_parser::{
    BallSize, BoostAmount, BoostStrength, ExistingMatchBehavior, GameMode, MapType, MatchLength, MaxScore, RespawnTime, Rumble,
};
use rlbot_gui::settings::{BotFolder, BotFolders, LauncherConfig, MatchConfig, MiniMatchConfig, MutatorConfig};

#[test]
fn mutators_default_to_the_first_choice() {
    let m = MutatorConfig::default();
    assert_eq!(m.match_length, MatchLength::FiveMinutes);
    assert_eq!(m.max_score, MaxScore::Unlimited);
    assert_eq!(m.rumble, Rumble::NoRumble);
    assert_eq!(m.boost_strength, BoostStrength::One);
    assert_eq!(m.respawn_time, RespawnTime::ThreeSeconds);
}

#[test]
fn mutators_are_stored_as_json_names() {
    let mut conf = Ini::new();
    let mut m = MutatorConfig::default();
    m.boost_amount = BoostAmount::RechargeFast;
    m.save_config(&mut conf);
    assert_eq!(conf.get("mutator_settings", "match_length"), Some("\"5 Minutes\"".to_owned()));
    assert_eq!(conf.get("mutator_settings", "boost_amount"), Some("\"Recharge (Fast)\"".to_owned()));
    assert_eq!(conf.get("mutator_settings", "rumble"), Some("\"None\"".to_owned()));
}

#[test]
fn mutators_read_back_what_was_saved() {
    let mut conf = Ini::new();
    let mut m = MutatorConfig::default();
    m.ball_size = BallSize::Gigantic;
    m.max_score = MaxScore::ThreeGoals;
    m.rumble = Rumble::SpikeRush;
    m.save_config(&mut conf);
    assert_eq!(MutatorConfig::load_from_config(&conf), m);
}

#[test]
fn unknown_mutator_names_fall_back_to_defaults() {
    let mut conf = Ini::new();
    conf.set("mutator_settings", "max_score", Some("\"7 Goals\"".to_owned()));
    conf.set("mutator_settings", "ball_size", Some("not json".to_owned()));
    let m = MutatorConfig::load_from_config(&conf);
    assert_eq!(m, MutatorConfig::default());
}

#[test]
fn match_settings_read_back_what_was_saved() {
    let mut conf = Ini::new();
    let mut m = MatchConfig::default();
    m.map = MapType::Custom("my_map.upk".to_owned());
    m.game_mode = GameMode::Hoops;
    m.match_behavior = ExistingMatchBehavior::ContinueAndSpawn;
    m.skip_replays = true;
    m.enable_state_setting = true;
    m.mutators.ball_size = BallSize::Small;
    m.save_to_config(&mut conf, Some("[]".to_owned()));
    assert_eq!(conf.get("match_settings", "map"), Some("\"my_map.upk\"".to_owned()));
    assert_eq!(conf.get("match_settings", "skip_replays"), Some("true".to_owned()));
    assert_eq!(conf.get("match_settings", "instant_start"), Some("false".to_owned()));
    let loaded = MatchConfig::load_from_config(&conf, Vec::new());
    assert!(matches!(loaded.map, MapType::Custom(ref c) if c == "my_map.upk"));
    assert_eq!(loaded.game_mode, GameMode::Hoops);
    assert_eq!(loaded.match_behavior, ExistingMatchBehavior::ContinueAndSpawn);
    assert!(loaded.skip_replays);
    assert!(!loaded.instant_start);
    assert!(loaded.enable_state_setting);
    assert_eq!(loaded.mutators, m.mutators);
    assert_eq!(MatchConfig::stored_scripts(&conf), "[]");
}

#[test]
fn custom_map_named_like_a_builtin_reads_back_as_the_builtin() {
    let mut conf = Ini::new();
    let mut m = MatchConfig::default();
    m.map = MapType::Custom("Mannfield".to_owned());
    m.save_to_config(&mut conf, None);
    let loaded = MatchConfig::load_from_config(&conf, Vec::new());
    assert!(matches!(loaded.map, MapType::Mannfield));
}

#[test]
fn match_settings_default_when_nothing_is_stored() {
    let conf = Ini::new();
    let loaded = MatchConfig::load_from_config(&conf, Vec::new());
    assert!(matches!(loaded.map, MapType::DfhStadium));
    assert_eq!(loaded.game_mode, GameMode::Soccer);
    assert!(loaded.enable_state_setting);
    assert!(!loaded.skip_replays);
    assert_eq!(MatchConfig::stored_scripts(&conf), "[]");
    let d = MatchConfig::default();
    assert!(!d.enable_state_setting);
}

#[test]
fn switches_are_read_in_any_case() {
    let mut conf = Ini::new();
    conf.set("Match_Settings", "Instant_Start", Some("TRUE".to_owned()));
    conf.set("match_settings", "enable_state_setting", Some("maybe".to_owned()));
    let loaded = MatchConfig::load_from_config(&conf, Vec::new());
    assert!(loaded.instant_start);
    assert!(loaded.enable_state_setting);
}

#[test]
fn mini_match_defaults_enable_state_setting() {
    let m = MiniMatchConfig::default();
    assert!(m.enable_state_setting);
    assert!(!m.randomize_map);
    assert!(m.scripts.is_empty());
}

#[test]
fn launcher_settings_default() {
    let conf = Ini::new();
    let l = LauncherConfig::load_from_config(&conf);
    assert_eq!(l.preferred_launcher, "epic");
    assert!(l.use_login_tricks);
    assert_eq!(l.rocket_league_exe_path, None);
}

#[test]
fn launcher_settings_read_back_what_was_written() {
    let mut conf = Ini::new();
    let l = LauncherConfig { preferred_launcher: "steam".to_owned(), use_login_tricks: false, rocket_league_exe_path: Some("C:/RL".to_owned()) };
    l.write_to_config(&mut conf);
    assert_eq!(conf.get("launcher_settings", "use_login_tricks"), Some("false".to_owned()));
    let back = LauncherConfig::load_from_config(&conf);
    assert_eq!(back.preferred_launcher, "steam");
    assert!(!back.use_login_tricks);
    assert_eq!(back.rocket_league_exe_path, Some("C:/RL".to_owned()));
}

#[test]
fn selected_tab_reads_back() {
    let mut conf = Ini::new();
    let tab = GuiTabCategory::new(PrimaryCategories::Extra, 4);
    tab.save_to_config(&mut conf);
    assert_eq!(conf.get("gui_state", "selected_tab"), Some("\"extra\"".to_owned()));
    assert_eq!(conf.get("gui_state", "selected_tab_secondary"), Some("4".to_owned()));
    assert_eq!(GuiTabCategory::load_from_config(&conf), tab);
    assert_eq!(GuiTabCategory::load_from_config(&Ini::new()), GuiTabCategory::default());
}

#[test]
fn new_settings_document_holds_the_defaults() {
    let mut conf = Ini::new();
    set_gui_config_to_default(&mut conf, "python3".to_owned());
    assert_eq!(conf.get("bot_folder_settings", "files"), Some("{}".to_owned()));
    assert_eq!(conf.get("bot_folder_settings", "incr"), None);
    assert_eq!(conf.get("python_config", "path"), Some("python3".to_owned()));
    assert_eq!(conf.get("launcher_settings", "preferred_launcher"), Some("epic".to_owned()));
    assert_eq!(conf.get("launcher_settings", "use_login_tricks"), Some("true".to_owned()));
    assert_eq!(conf.get("match_settings", "scripts"), Some("[]".to_owned()));
    assert_eq!(conf.get("match_settings", "map"), Some("\"DFHStadium\"".to_owned()));
    assert_eq!(conf.get("gui_state", "selected_tab"), Some("\"all\"".to_owned()));
}

#[test]
fn bot_folders_are_added_shown() {
    let mut bf = BotFolders::default();
    bf.add_folder("/bots".to_owned());
    bf.add_file("/bots/a.cfg".to_owned());
    assert_eq!(bf.folders.get("/bots"), Some(&BotFolder { visible: true }));
    assert_eq!(bf.files.get("/bots/a.cfg"), Some(&BotFolder { visible: true }));
}

#[test]
fn first_settings_document() {
    let conf = rlbot_gui::config_handles::new_gui_config("/usr/bin/python3".to_owned());
    assert_eq!(conf.get("python_config", "path"), Some("/usr/bin/python3".to_owned()));
    assert_eq!(conf.get("launcher_settings", "preferred_launcher"), Some("epic".to_owned()));
    assert_eq!(conf.get("bot_folder_settings", "files"), Some("{}".to_owned()));
    assert_eq!(conf.get("match_settings", "scripts"), Some("[]".to_owned()));
    assert_eq!(GuiTabCategory::load_from_config(&conf).primary, PrimaryCategories::All);
}

#[test]
fn changing_recommendations_twice_is_changing_once_by_the_composition() {
    let a = AllRecommendations {
        recommendations: vec![Recommendation { bots: vec![1u32, 2, 3] }, Recommendation { bots: vec![] }, Recommendation { bots: vec![7] }],
    };
    let twice = a.change_generic(&|x: &u32| *x as u64 + 1).change_generic(&|y: &u64| y * 10);
    let once = a.change_generic(&|x: &u32| (*x as u64 + 1) * 10);
    assert_eq!(twice.recommendations.len(), once.recommendations.len());
    for (p, q) in twice.recommendations.iter().zip(once.recommendations.iter()) {
        assert_eq!(p.bots, q.bots);
    }
    assert_eq!(once.recommendations[0].bots, vec![20, 30, 40]);
    let same = a.change_generic(&|x: &u32| *x);
    for (p, q) in same.recommendations.iter().zip(a.recommendations.iter()) {
        assert_eq!(p.bots, q.bots);
    }
}
