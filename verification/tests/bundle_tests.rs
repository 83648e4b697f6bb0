use configparser::ini::Ini;
use rlbot_gui::agent_config_parser::{BotLooksConfig, BotTeamLooksConfig};
use rlbot_gui::bot_config_bundle::{get_file_extension, logo_data_url, Clean, DevInfo, RLBotCfgParseError, ScriptConfigBundle};
use rlbot_gui::config_handles::filter_hidden_bundles;
use rlbot_gui::custom_maps::{custom_map_named, get_search_folders};
use rlbot_gui::gateway_util::{find_existing_process, IDEAL_RLBOT_PORT};
use rlbot_gui::match_settings_config_parser::MapType;
use rlbot_gui::settings::{clean, BotFolder};
use rlbot_gui::setup_manager::{is_rocket_league_running, RLNoBotError};
use rlbot_gui::str_map::StrMap;

fn script_conf() -> Ini {
    let mut conf = Ini::new();
    conf.read(
        "[Locations]\nscript_file = run.py\nname = My Script\nuse_virtual_environment = Yes\nrequirements_file = req.txt\n[Details]\ndeveloper = Me\ntags = 1v1, teamplay\n"
            .to_owned(),
    )
    .unwrap();
    conf
}

#[test]
fn dev_info_is_read_from_details() {
    let info = DevInfo::from_config(&script_conf());
    assert_eq!(info.developer, "Me");
    assert_eq!(info.description, "");
    assert_eq!(info.tags, vec!["1v1".to_owned(), "teamplay".to_owned()]);
    let empty = DevInfo::from_config(&Ini::new());
    assert_eq!(empty.tags, vec![String::new()]);
}

#[test]
fn script_bundle_is_read_from_its_cfg() {
    let conf = script_conf();
    assert_eq!(ScriptConfigBundle::script_file_of(&conf, "/s"), Some("/s/run.py".to_owned()));
    let b = ScriptConfigBundle::from_conf(&conf, "/s/s.cfg".to_owned(), "s.cfg".to_owned(), "/s".to_owned(), true).unwrap();
    assert_eq!(b.name, "My Script");
    assert_eq!(b.runnable_type, "script");
    assert_eq!(b.image, "imgs/rlbot.png");
    assert_eq!(b.script_file, "/s/run.py");
    assert_eq!(b.logo_path, Some("/s/logo.png".to_owned()));
    assert_eq!(b.requirements_file, Some("/s/req.txt".to_owned()));
    assert!(b.use_virtual_environment);
    assert!(!b.requires_tkinter);
    assert_eq!(b.get_config_file_name(), "s.cfg");
    assert_eq!(b.info.as_ref().unwrap().developer, "Me");
}

#[test]
fn script_bundle_errors() {
    let conf = script_conf();
    let missing = ScriptConfigBundle::from_conf(&conf, "/s/s.cfg".to_owned(), "s.cfg".to_owned(), "/s".to_owned(), false);
    assert!(matches!(missing, Err(RLBotCfgParseError::NoScriptFile(ref p)) if p == "/s/s.cfg"));
    let mut no_name = Ini::new();
    no_name.set("Locations", "script_file", Some("run.py".to_owned()));
    let r = ScriptConfigBundle::from_conf(&no_name, "p".to_owned(), "f".to_owned(), "d".to_owned(), true);
    assert!(matches!(r, Err(RLBotCfgParseError::NoName(ref p)) if p == "p"));
    let r2 = ScriptConfigBundle::from_conf(&Ini::new(), "p".to_owned(), "f".to_owned(), "d".to_owned(), true);
    assert!(matches!(r2, Err(RLBotCfgParseError::NoScriptFile(_))));
}

#[test]
fn cleaning_drops_what_was_loaded_for_display() {
    let mut b = ScriptConfigBundle::from_conf(&script_conf(), "p".to_owned(), "_hidden.cfg".to_owned(), "d".to_owned(), true).unwrap();
    b.logo = Some("data".to_owned());
    b.warn = Some("pythonpkg".to_owned());
    b.missing_python_packages = Some(vec!["x".to_owned()]);
    let c = b.cleaned();
    assert_eq!(c.logo, None);
    assert_eq!(c.warn, None);
    assert_eq!(c.missing_python_packages, None);
    assert_eq!(c.name, b.name);
    let all = clean(&[b]);
    assert_eq!(all.len(), 1);
    assert_eq!(all[0].logo, None);
}

#[test]
fn hidden_bundles_are_dropped() {
    let shown = ScriptConfigBundle::from_conf(&script_conf(), "p".to_owned(), "a.cfg".to_owned(), "d".to_owned(), true).unwrap();
    let hidden = ScriptConfigBundle::from_conf(&script_conf(), "p".to_owned(), "_b.cfg".to_owned(), "d".to_owned(), true).unwrap();
    let kept = filter_hidden_bundles(vec![hidden, shown]);
    assert_eq!(kept.len(), 1);
    assert_eq!(kept[0].config_file_name, "a.cfg");
}

#[test]
fn image_formats() {
    let png = b"\x89PNG\r\n\x1a\n".to_vec();
    assert_eq!(get_file_extension(&png), Some("png"));
    assert_eq!(get_file_extension(b"GIF89a...."), Some("gif"));
    assert_eq!(get_file_extension(b"plain text"), None);
    assert_eq!(logo_data_url(&png), Some("data:image/png;base64,iVBORw0KGgo=".to_owned()));
    assert_eq!(logo_data_url(b"plain text"), None);
}

#[test]
fn looks_read_back() {
    let mut team = BotTeamLooksConfig::from_config(&Ini::new(), "Bot Loadout", "Bot Paint Blue");
    assert_eq!(team.car_id, "");
    team.car_id = "23".to_owned();
    team.goal_explosion_paint_id = "7".to_owned();
    let mut other = team.clone();
    other.car_id = "1".to_owned();
    let looks = BotLooksConfig { blue: team, orange: other };
    let mut conf = Ini::new();
    looks.save_to_config(&mut conf);
    assert_eq!(conf.get("Bot Loadout", "car_id"), Some("23".to_owned()));
    let back = BotLooksConfig::from_config(&conf);
    assert_eq!(back.blue.car_id, "23");
    assert_eq!(back.blue.goal_explosion_paint_id, "7");
    assert_eq!(back.orange.car_id, "1");
}

#[test]
fn rocket_league_arguments() {
    let good = vec!["RocketLeague".to_owned(), "-rlbot".to_owned(), "RLBot_ControllerURL=127.0.0.1:23233".to_owned()];
    assert_eq!(is_rocket_league_running(Some(&good), 23233), Ok(true));
    assert_eq!(is_rocket_league_running(Some(&good), 23234), Err(RLNoBotError(23234)));
    assert_eq!(is_rocket_league_running(None, 23233), Ok(false));
    let first_only = vec!["-rlbot".to_owned(), "RLBot_ControllerURL=127.0.0.1:23233".to_owned()];
    assert_eq!(is_rocket_league_running(Some(&first_only), 23233), Err(RLNoBotError(23233)));
    assert_eq!(
        RLNoBotError(23233).message(),
        "Please close Rocket League and let RLBot open it for you. Do not start Rocket League yourself. (Rocket League is not running with '-rlbot' and/or on port 23233 (with 'RLBot_ControllerURL=127.0.0.1:23233'))"
    );
}

#[test]
fn existing_rlbot_port() {
    assert_eq!(IDEAL_RLBOT_PORT, 23233);
    assert_eq!(find_existing_process(&vec!["RLBot".to_owned(), "23234".to_owned()]), Some(23234));
    assert_eq!(find_existing_process(&vec!["RLBot".to_owned(), "70000".to_owned()]), None);
    assert_eq!(find_existing_process(&vec!["RLBot".to_owned()]), None);
    assert_eq!(find_existing_process(&vec!["RLBot".to_owned(), "port".to_owned()]), None);
}

#[test]
fn custom_map_files() {
    assert!(matches!(custom_map_named("arena.upk"), Some(MapType::Custom(ref c)) if c == "arena.upk"));
    assert!(custom_map_named("_private.upk").is_none());
    let folders = StrMap::from_pairs(vec![
        ("/a".to_owned(), BotFolder { visible: true }),
        ("/b".to_owned(), BotFolder { visible: false }),
        ("/c".to_owned(), BotFolder { visible: true }),
    ]);
    assert_eq!(get_search_folders(&folders), vec!["/a".to_owned(), "/c".to_owned()]);
}

#[test]
fn team_looks_round_trip_under_any_header() {
    let mut team = BotTeamLooksConfig::from_config(&Ini::new(), "Équipe", "Peinture Ÿ");
    team.car_id = "23".to_owned();
    team.hat_paint_id = "4".to_owned();
    let mut conf = Ini::new();
    team.save_to_config(&mut conf, "Équipe", "Peinture Ÿ");
    assert_eq!(conf.get("équipe", "car_id"), Some("23".to_owned()));
    let back = BotTeamLooksConfig::from_config(&conf, "ÉQUIPE", "Peinture Ÿ");
    assert_eq!(back.car_id, "23");
    assert_eq!(back.hat_paint_id, "4");
    assert_eq!(back.team_color_id, team.team_color_id);
}
