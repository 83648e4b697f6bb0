use configparser::ini::Ini;
use rlbot_gui::bot_config_bundle::{BotConfigBundle, RLBotCfgParseError};
use rlbot_gui::bot_creation::{
    configure_rust_bot, configure_rust_package, configure_scratch_bot, existing_bot_message, new_bot_folder_name,
    new_hive_key, rename_hivemind_class, rename_hivemind_drone, CREATED_BOTS_FOLDER,
};
use rlbot_gui::commands::handler_command_text;
use rlbot_gui::match_settings_config_parser::MapType;
use rlbot_gui::settings::{BotFolders, MiniMatchConfig};

#[test]
fn folder_names_are_made_fit_for_files() {
    assert_eq!(new_bot_folder_name("My/Bot"), "MyBot");
    assert_eq!(new_bot_folder_name("Plain Bot"), "Plain Bot");
    assert_eq!(CREATED_BOTS_FOLDER, "MyBots");
    assert_eq!(
        existing_bot_message("Plain Bot"),
        "There is already a bot named Plain Bot, please choose a different name!"
    );
}

#[test]
fn rust_bot_settings() {
    let mut conf = Ini::new();
    configure_rust_bot(&mut conf, "Crab");
    assert_eq!(conf.get("Locations", "name"), Some("Crab".to_owned()));
    assert_eq!(conf.get("Bot Parameters", "path"), Some("../target/debug/Crab.exe".to_owned()));
    let mut cargo = Ini::new();
    configure_rust_package(&mut cargo, "crab");
    assert_eq!(cargo.get("package", "name"), Some("\"crab\"".to_owned()));
    assert_eq!(cargo.get("package", "authors"), Some("[\"\"]".to_owned()));
}

#[test]
fn scratch_bot_settings() {
    let mut conf = Ini::new();
    let port = configure_scratch_bot(&mut conf, "Cat", "cat_bot");
    assert!((20000..65000).contains(&port));
    assert_eq!(conf.get("Locations", "name"), Some("Cat".to_owned()));
    assert_eq!(conf.get("Bot Parameters", "sb3file"), Some("cat_bot.sb3".to_owned()));
    assert_eq!(conf.get("Bot Parameters", "port"), Some(port.to_string()));
}

#[test]
fn hivemind_files_are_renamed() {
    let _ = new_hive_key("Bees");
    assert_eq!(
        rename_hivemind_drone("hive_name = \"Old\"", "Bees", 42),
        Some("hive_name = \"Bees Hivemind\"".to_owned())
    );
    assert_eq!(rename_hivemind_drone("hive_key = \"7\"", "Bees", 42), Some("hive_key = \"42\"".to_owned()));
    assert_eq!(
        rename_hivemind_class("class OldHivemind(PythonHivemind):\n    pass", "Bees"),
        Some("class BeesHivemind(PythonHivemind):\n    pass".to_owned())
    );
}

fn bot_conf() -> Ini {
    let mut conf = Ini::new();
    conf.read(
        "[Locations]\npython_file = bot.py\nname = Tester\nlooks_config = looks.cfg\nsupports_standalone = True\nuse_virtual_environment = True\n[Details]\ndeveloper = Me\nlanguage = Python 3\ntags = 1v1, teamplay\n"
            .to_owned(),
    )
    .unwrap();
    conf
}

#[test]
fn bot_bundle_is_read_from_its_cfg() {
    let conf = bot_conf();
    assert_eq!(BotConfigBundle::python_file_of(&conf, "/b"), Some("/b/bot.py".to_owned()));
    assert_eq!(BotConfigBundle::looks_file_of(&conf, "/b"), Some("/b/looks.cfg".to_owned()));
    let b = BotConfigBundle::minimal_from_conf(&conf, "/b/bot.cfg".to_owned(), "bot.cfg".to_owned(), "/b".to_owned(), true, true)
        .unwrap();
    assert_eq!(b.name, "Tester");
    assert_eq!(b.python_path, "/b/bot.py");
    assert_eq!(b.looks_path, "/b/looks.cfg");
    assert_eq!(b.logo_path, "/b/logo.png");
    assert_eq!(b.runnable_type, "rlbot");
    assert_eq!(b.image, "imgs/rlbot.png");
    assert_eq!(b.requirements_file, None);
    assert!(b.supports_standalone);
    assert!(b.use_virtual_environment());
    assert!(!b.requires_tkinter);
    assert!(b.is_rlbot_controlled());
    assert!(b.may_require_python_packages());
    assert_eq!(b.get_config_file_name(), "bot.cfg");
    assert_eq!(b.info.as_ref().unwrap().tags, vec!["1v1".to_owned(), "teamplay".to_owned()]);
}

#[test]
fn bot_bundle_errors() {
    let conf = bot_conf();
    let no_python = BotConfigBundle::minimal_from_conf(&conf, "p".to_owned(), "f".to_owned(), "/b".to_owned(), false, true);
    assert!(matches!(no_python, Err(RLBotCfgParseError::NoPythonFile(ref p)) if p == "p"));
    let no_looks = BotConfigBundle::minimal_from_conf(&conf, "p".to_owned(), "f".to_owned(), "/b".to_owned(), true, false);
    assert!(matches!(no_looks, Err(RLBotCfgParseError::NoLooksConfig(ref p)) if p == "p"));
    let mut unnamed = Ini::new();
    unnamed.set("Locations", "python_file", Some("bot.py".to_owned()));
    let no_name = BotConfigBundle::minimal_from_conf(&unnamed, "p".to_owned(), "f".to_owned(), "/b".to_owned(), true, true);
    assert!(matches!(no_name, Err(RLBotCfgParseError::NoName(ref p)) if p == "p"));
}

#[test]
fn bot_names_are_read_from_their_cfg() {
    let conf = bot_conf();
    let ok = BotConfigBundle::name_from_conf(&conf, "/b/bot.cfg".to_owned(), "/b", true, true).unwrap();
    assert_eq!(ok, ("Tester".to_owned(), "/b/bot.cfg".to_owned()));
    let no_looks = BotConfigBundle::name_from_conf(&conf, "p".to_owned(), "/b", false, true);
    assert!(matches!(no_looks, Err(RLBotCfgParseError::NoLooksConfig(_))));
    let no_python = BotConfigBundle::name_from_conf(&conf, "p".to_owned(), "/b", true, false);
    assert!(matches!(no_python, Err(RLBotCfgParseError::NoPythonFile(_))));
    let no_name = BotConfigBundle::name_from_conf(&Ini::new(), "p".to_owned(), "/b", true, true);
    assert!(matches!(no_name, Err(RLBotCfgParseError::NoName(_))));
}

#[test]
fn the_human_bundle() {
    let h = BotConfigBundle::new_human();
    assert_eq!(h.name, "Human");
    assert_eq!(h.runnable_type, "human");
    assert_eq!(h.image, "imgs/human.png");
    assert!(!h.is_rlbot_controlled());
    assert!(!h.may_require_python_packages());
}

#[test]
fn custom_maps_are_found_before_a_match() {
    let mut m = MiniMatchConfig::default();
    m.map = MapType::Custom("my_map".to_owned());
    let missing = MiniMatchConfig { map: MapType::Custom("my_map".to_owned()), ..MiniMatchConfig::default() };
    assert_eq!(missing.setup_for_start_match(None).unwrap_err(), "Failed to find custom map my_map");
    let found = m.setup_for_start_match(Some("/maps/my_map.upk".to_owned())).unwrap();
    assert!(matches!(found.map, MapType::Custom(ref p) if p == "/maps/my_map.upk"));
    let plain = MiniMatchConfig::default().setup_for_start_match(None).unwrap();
    assert!(matches!(plain.map, MapType::DfhStadium));
}

#[test]
fn bot_folder_texts_default_to_empty_lists() {
    let mut conf = Ini::new();
    assert_eq!(BotFolders::stored_texts(&conf), ("[]".to_owned(), "[]".to_owned()));
    conf.set("bot_folder_settings", "files", Some("{\"a.cfg\":{\"visible\":true}}".to_owned()));
    assert_eq!(BotFolders::stored_texts(&conf), ("{\"a.cfg\":{\"visible\":true}}".to_owned(), "[]".to_owned()));
}

#[test]
fn match_handler_commands() {
    assert_eq!(handler_command_text(&vec!["start".to_owned(), "x".to_owned()]), "start | x | \n");
    assert_eq!(handler_command_text(&vec![]), " | \n");
}

#[test]
fn scratch_match_config_points_at_the_bot() {
    assert_eq!(
        rlbot_gui::bot_creation::point_participants_at("[match]\nparticipant_config_0 = old.cfg", "-cat\\cat.cfg"),
        Some("[match]\nparticipant_config_0 = -cat\\\\cat.cfg".to_owned())
    );
    // A path starting with a word character continues the group's name `$a`,
    // which then names no group and is replaced by nothing.
    assert_eq!(
        rlbot_gui::bot_creation::point_participants_at("participant_config_1 = a", "b/c.cfg"),
        Some("/c.cfg".to_owned())
    );
}
