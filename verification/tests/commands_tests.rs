use rlbot_gui::commands::{
    checks_python_packages, collapse_path, find_challenge_in_city, found_packages_update, get_package_name, known_packages_update,
    logo_update, make_match_config, make_script_configs, needs_logo, parse_console_command, python_support, resolve_path_parts,
    script_to_miniscript_bundle, stale_packages_update, RunCommandError,
};
use rlbot_gui::match_settings_config_parser::{BoostAmount, GameMode, MapType, MaxScore, Rumble};
use rlbot_gui::settings::{MiniScriptBundle, MutatorConfig};
use rlbot_gui::stories::{Challenge, City, Script};
use rlbot_gui::str_map::StrMap;

#[test]
fn package_names_get_their_constraints() {
    assert_eq!(get_package_name("numpy"), "numpy<1.23");
    assert_eq!(get_package_name("rlbot"), "rlbot==1.*");
    assert_eq!(get_package_name("rlbot_smh"), "rlbot_smh>=1.0.13");
    assert_eq!(get_package_name("pip"), "pip");
    assert_eq!(get_package_name("requests"), "requests");
    assert_eq!(get_package_name(""), "pip");
}

fn challenge(id: &str, limitations: Vec<&str>, disabled_boost: bool) -> Challenge {
    Challenge {
        id: id.to_owned(),
        human_team_size: 2,
        opponent_bots: vec!["a".to_owned()],
        scripts: vec!["s1".to_owned(), "missing".to_owned(), "s2".to_owned()],
        limitations: limitations.into_iter().map(String::from).collect(),
        map: MapType::Wasteland,
        max_score: MaxScore::FiveGoals,
        disabled_boost,
    }
}

#[test]
fn half_field_challenges_play_heatseeker() {
    let mut upgrades = StrMap::new();
    upgrades.insert("rumble".to_owned(), 1);
    let m = make_match_config(&challenge("c", vec!["half-field"], true), &upgrades, vec![MiniScriptBundle { path: "p".to_owned() }]);
    assert_eq!(m.game_mode, GameMode::Heatseeker);
    assert!(matches!(m.map, MapType::Wasteland));
    assert!(m.enable_state_setting);
    assert_eq!(m.scripts.len(), 1);
    assert_eq!(m.mutators.max_score, MaxScore::FiveGoals);
    assert_eq!(m.mutators.boost_amount, BoostAmount::NoBoost);
    assert_eq!(m.mutators.rumble, Rumble::Default);
}

#[test]
fn plain_challenges_play_soccer() {
    let m = make_match_config(&challenge("c", vec!["no-boost"], false), &StrMap::new(), Vec::new());
    assert_eq!(m.game_mode, GameMode::Soccer);
    assert_eq!(m.mutators.boost_amount, BoostAmount::Default);
    assert_eq!(m.mutators.rumble, Rumble::NoRumble);
    assert_eq!(m.mutators.match_length, MutatorConfig::default().match_length);
    assert!(!m.skip_replays);
}

#[test]
fn challenges_are_found_by_id() {
    let city = City { challenges: vec![challenge("a", vec![], false), challenge("b", vec!["x"], false), challenge("b", vec![], true)] };
    let found = find_challenge_in_city("b", &city).unwrap();
    assert_eq!(found.id, "b");
    assert_eq!(found.limitations, vec!["x".to_owned()]);
    assert!(find_challenge_in_city("z", &city).is_none());
}

#[test]
fn story_paths_get_the_botpack_root() {
    let parts = vec!["$RLBOTPACKROOT".to_owned(), "RLBotPack".to_owned(), "Kamael.cfg".to_owned()];
    assert_eq!(resolve_path_parts(&parts, "/root"), vec!["/root".to_owned(), "RLBotPack".to_owned(), "Kamael.cfg".to_owned()]);
    assert_eq!(collapse_path(None, "/root"), None);
    let collapsed = collapse_path(Some(&parts), "/root").unwrap();
    assert!(collapsed.starts_with("/root"));
    assert!(collapsed.ends_with("Kamael.cfg"));
    let bundle = script_to_miniscript_bundle(&Script { path: vec!["a".to_owned()] }, "/root");
    assert_eq!(bundle.path, "a");
}

#[test]
fn only_defined_scripts_are_run() {
    let mut scripts = StrMap::new();
    scripts.insert("s1".to_owned(), Script { path: vec!["x.cfg".to_owned()] });
    scripts.insert("s2".to_owned(), Script { path: vec!["y.cfg".to_owned()] });
    let configs = make_script_configs(&challenge("c", vec![], false), &scripts, "/root");
    let paths: Vec<String> = configs.into_iter().map(|c| c.path).collect();
    assert_eq!(paths, vec!["x.cfg".to_owned(), "y.cfg".to_owned()]);
}

#[test]
fn python_support_report() {
    let s = python_support(true, false);
    assert_eq!(s.get("python"), Some(&true));
    assert_eq!(s.get("rlbotpython"), Some(&false));
    let t = python_support(false, true);
    assert_eq!(t.get("rlbotpython"), Some(&false));
}

#[test]
fn package_updates() {
    assert!(checks_python_packages(true, true));
    assert!(!checks_python_packages(true, false));
    let u = known_packages_update(3, &Some("pythonpkg".to_owned()), &Vec::new()).unwrap();
    assert_eq!(u.index, 3);
    assert_eq!(u.warn, None);
    assert_eq!(u.missing_packages, Some(Vec::new()));
    assert!(known_packages_update(3, &Some("pythonpkg".to_owned()), &vec!["numpy".to_owned()]).is_none());
    assert!(known_packages_update(3, &None, &Vec::new()).is_none());
    let f = found_packages_update(1, vec!["scipy".to_owned()]);
    assert_eq!(f.warn, Some("pythonpkg".to_owned()));
    assert_eq!(found_packages_update(1, Vec::new()).warn, None);
    let s = stale_packages_update(2, true, &Some("pythonpkg".to_owned()), &None).unwrap();
    assert_eq!((s.index, s.warn, s.missing_packages), (2, None, None));
    assert!(stale_packages_update(2, false, &Some("x".to_owned()), &None).is_none());
    assert!(stale_packages_update(2, true, &None, &None).is_none());
}

#[test]
fn logo_updates() {
    assert!(needs_logo(true, &None));
    assert!(!needs_logo(true, &Some("x".to_owned())));
    assert!(!needs_logo(false, &None));
    let u = logo_update(4, Some("data".to_owned())).unwrap();
    assert_eq!((u.index, u.logo), (4, "data".to_owned()));
    assert!(logo_update(4, None).is_none());
}

#[test]
fn console_commands() {
    let (p, a) = parse_console_command("pip install numpy", "/py", "$rlpy", "\\$rlpy").unwrap();
    assert_eq!(p, "pip");
    assert_eq!(a, vec!["install".to_owned(), "numpy".to_owned()]);
    let (p, a) = parse_console_command("$rlpy -m pip", "/py", "$rlpy", "\\$rlpy").unwrap();
    assert_eq!(p, "/py");
    assert_eq!(a, vec!["-m".to_owned(), "pip".to_owned()]);
    let (p, a) = parse_console_command("\\$rlpy x", "/py", "$rlpy", "\\$rlpy").unwrap();
    assert_eq!(p, "\\$rlpy");
    assert_eq!(a, vec!["x".to_owned()]);
    let (p, a) = parse_console_command("echo \"a b\"", "/py", "$rlpy", "\\$rlpy").unwrap();
    assert_eq!(p, "echo");
    assert_eq!(a, vec!["a b".to_owned()]);
    let (p, a) = parse_console_command("  ls -a", "/py", "$rlpy", "\\$rlpy").unwrap();
    assert_eq!(p, "ls");
    assert!(a.is_empty());
    assert!(matches!(parse_console_command("   ", "/py", "$rlpy", "\\$rlpy"), Err(RunCommandError::NoCommand)));
    let (_, a) = parse_console_command("echo \"open", "/py", "$rlpy", "\\$rlpy").unwrap();
    assert!(a.is_empty());
}

#[test]
fn leading_unicode_white_space_is_skipped() {
    let (p, _) = parse_console_command("\u{3000}\u{2003}ls -a", "/py", "$rlpy", "\\$rlpy").unwrap();
    assert_eq!(p, "ls");
    assert!(matches!(parse_console_command("\u{85}\u{a0}\t", "/py", "$rlpy", "\\$rlpy"), Err(RunCommandError::NoCommand)));
}
