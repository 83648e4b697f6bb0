use rlbot_gui::commands::{missing_packages_update, needs_package_lookup};
use rlbot_gui::config_handles::filter_hidden_bot_bundles;
use configparser::ini::Ini;
use rlbot_gui::bot_config_bundle::{is_reported_scan_error, BotConfigBundle, RLBotCfgParseError, ScriptConfigBundle};
use rlbot_gui::python_detect::{detected_python, python_candidates, CandidateKind, Platform};
use rlbot_gui::python_packages::{
    ensurepip_args, install_upgrade_basic_packages, missing_from_helper_output, missing_packages_check,
    missing_without_tkinter, paths_named, BasicInstall, PackageCheck,
};

fn strings(v: &[&str]) -> Vec<String> {
    v.iter().map(|s| s.to_string()).collect()
}

#[test]
fn package_checks() {
    assert!(matches!(missing_packages_check(true, &Some("r.txt".to_owned()), true), PackageCheck::NoneMissing));
    assert!(matches!(missing_packages_check(false, &None, true), PackageCheck::Tkinter));
    assert!(matches!(missing_packages_check(false, &None, false), PackageCheck::NoneMissing));
    match missing_packages_check(false, &Some("/b/requirements.txt".to_owned()), true) {
        PackageCheck::Helper(args) => assert_eq!(
            args,
            strings(&[
                "-c",
                "from rlbot_smh.get_missing_packages import run; run()",
                "requires_tkinter",
                "requirements_file=/b/requirements.txt"
            ])
        ),
        other => panic!("unexpected check {other:?}"),
    }
    match missing_packages_check(false, &Some("r.txt".to_owned()), false) {
        PackageCheck::Helper(args) => assert_eq!(args.len(), 3),
        other => panic!("unexpected check {other:?}"),
    }
}

#[test]
fn bundle_package_checks() {
    let mut conf = Ini::new();
    conf.read(
        "[Locations]\npython_file = bot.py\nname = B\nlooks_config = l.cfg\nrequirements_file = req.txt\nsupports_standalone = True\nuse_virtual_environment = True\n"
            .to_owned(),
    )
    .unwrap();
    let bot = BotConfigBundle::minimal_from_conf(&conf, "p".to_owned(), "f".to_owned(), "/b".to_owned(), true, true).unwrap();
    assert!(matches!(bot.package_check(), PackageCheck::NoneMissing));
    let mut script_conf = Ini::new();
    script_conf.read("[Locations]\nscript_file = s.py\nname = S\nrequirements_file = req.txt\n".to_owned()).unwrap();
    let script = ScriptConfigBundle::from_conf(&script_conf, "p".to_owned(), "f".to_owned(), "/s".to_owned(), true).unwrap();
    assert!(matches!(script.package_check(), PackageCheck::Helper(ref a) if a.last().unwrap() == "requirements_file=/s/req.txt"));
}

#[test]
fn helper_output_is_read_as_json() {
    assert_eq!(missing_from_helper_output("[\"numpy\", \"rlbot\"]"), strings(&["numpy", "rlbot"]));
    assert_eq!(missing_from_helper_output("[]"), Vec::<String>::new());
    assert_eq!(missing_from_helper_output("not json"), Vec::<String>::new());
    assert_eq!(missing_without_tkinter(true), Vec::<String>::new());
    assert_eq!(missing_without_tkinter(false), strings(&["tkinter"]));
}

#[test]
fn missing_packages_set_the_warning() {
    let b = BotConfigBundle::new_human().with_missing_packages(strings(&["numpy"]));
    assert_eq!(b.warn, Some("pythonpkg".to_owned()));
    assert_eq!(b.missing_python_packages, Some(strings(&["numpy"])));
    let none = BotConfigBundle::new_human().with_missing_packages(Vec::new());
    assert_eq!(none.warn, None);
    assert_eq!(none.missing_python_packages, Some(Vec::new()));
    assert_eq!(none.name, "Human");
}

#[test]
fn recommended_bots_are_found_by_name() {
    let pairs = vec![
        ("A".to_owned(), "/a.cfg".to_owned()),
        ("B".to_owned(), "/b.cfg".to_owned()),
        ("A".to_owned(), "/a2.cfg".to_owned()),
    ];
    assert_eq!(paths_named(&pairs, "A"), strings(&["/a.cfg", "/a2.cfg"]));
    assert_eq!(paths_named(&pairs, "C"), Vec::<String>::new());
}

#[test]
fn basic_install_stops_at_the_first_failure() {
    assert_eq!(ensurepip_args(), strings(&["-m", "ensurepip"]));
    let mut install = BasicInstall::new();
    assert_eq!(
        install.next_command(),
        Some(strings(&["-m", "pip", "install", "-U", "--no-warn-script-location", "pip"]))
    );
    install.record(0);
    assert_eq!(install.next_command().unwrap().last().unwrap(), "setuptools");
    install.record(1);
    assert_eq!(install.next_command(), None);
    let result = install.result();
    assert_eq!(result.exit_code, 1);
    assert_eq!(result.packages.len(), 9);
    assert_eq!(result.packages[3], "numpy<1.23");
}

#[test]
fn basic_install_runs_every_package() {
    let mut install = BasicInstall::new();
    let mut runs = 0;
    while let Some(args) = install.next_command() {
        assert_eq!(args[0], "-m");
        install.record(0);
        runs += 1;
    }
    assert_eq!(runs, 9);
    assert_eq!(install.result().exit_code, 0);
    assert_eq!(BasicInstall::unreachable_result().exit_code, 3);
}

#[test]
fn basic_upgrade_outcomes() {
    let ok = Some(Some(0));
    let r = install_upgrade_basic_packages(&vec![ok, ok, ok, Some(Some(5))]);
    assert_eq!(r.exit_code, 5);
    assert_eq!(r.packages[6], "websockets");
    assert_eq!(install_upgrade_basic_packages(&vec![ok, ok, ok, Some(None)]).exit_code, 1);
    assert_eq!(install_upgrade_basic_packages(&vec![ok, Some(Some(1))]).exit_code, 2);
    assert_eq!(install_upgrade_basic_packages(&vec![None]).exit_code, 2);
    assert_eq!(install_upgrade_basic_packages(&vec![]).exit_code, 2);
    let runs = rlbot_gui::python_packages::basic_upgrade_runs();
    assert_eq!(runs.len(), 4);
    assert_eq!(runs[2], strings(&["-m", "pip", "install", "-U", "--no-warn-script-location", "setuptools", "wheel"]));
}

#[test]
fn python_candidates_per_platform() {
    let linux = python_candidates(Platform::Linux);
    assert_eq!(linux[0], (CandidateKind::Bundled, "venv/bin/python".to_owned()));
    assert_eq!(linux.len(), 8);
    let windows = python_candidates(Platform::Windows);
    assert_eq!(windows.last().unwrap(), &(CandidateKind::Command, "python".to_owned()));
    assert_eq!(python_candidates(Platform::MacOs).len(), 5);
    assert_eq!(detected_python(CandidateKind::Bundled, "x".to_owned()), ("x".to_owned(), true));
    assert_eq!(detected_python(CandidateKind::Command, "python3".to_owned()), ("python3".to_owned(), false));
}

#[test]
fn scan_errors_that_are_reported() {
    assert!(!is_reported_scan_error(&RLBotCfgParseError::NoPythonFile("p".to_owned())));
    assert!(!is_reported_scan_error(&RLBotCfgParseError::NoScriptFile("p".to_owned())));
    assert!(is_reported_scan_error(&RLBotCfgParseError::NoName("p".to_owned())));
}

#[test]
fn missing_package_updates_per_bundle() {
    assert!(needs_package_lookup(true, true, true, &None));
    assert!(!needs_package_lookup(true, true, true, &Some(vec![])));
    assert!(!needs_package_lookup(false, true, true, &None));
    let found = missing_packages_update(2, true, true, true, &None, &None, Some(strings(&["numpy"]))).unwrap();
    assert_eq!(found.index, 2);
    assert_eq!(found.warn, Some("pythonpkg".to_owned()));
    assert_eq!(found.missing_packages, Some(strings(&["numpy"])));
    let cleared = missing_packages_update(0, true, true, true, &Some("pythonpkg".to_owned()), &Some(vec![]), None).unwrap();
    assert_eq!(cleared.warn, None);
    assert!(missing_packages_update(0, true, true, true, &Some("pythonpkg".to_owned()), &Some(strings(&["x"])), None).is_none());
    assert!(missing_packages_update(0, true, false, true, &None, &None, None).is_none());
    let stale = missing_packages_update(1, false, true, true, &Some("pythonpkg".to_owned()), &None, None).unwrap();
    assert_eq!((stale.warn, stale.missing_packages), (None, None));
    assert!(missing_packages_update(1, false, true, true, &None, &None, None).is_none());
}

#[test]
fn scripts_are_run_by_rlbot() {
    let mut conf = Ini::new();
    conf.read("[Locations]\nscript_file = s.py\nname = S\n".to_owned()).unwrap();
    let script = ScriptConfigBundle::from_conf(&conf, "p".to_owned(), "f".to_owned(), "/s".to_owned(), true).unwrap();
    assert!(script.is_rlbot_controlled());
    assert!(script.may_require_python_packages());
}

#[test]
fn hidden_bot_bundles_are_dropped() {
    let mut shown = BotConfigBundle::new_human();
    shown.config_file_name = "bot.cfg".to_owned();
    let mut hidden = BotConfigBundle::new_human();
    hidden.config_file_name = "_hidden.cfg".to_owned();
    let kept = filter_hidden_bot_bundles(vec![hidden, shown]);
    assert_eq!(kept.len(), 1);
    assert_eq!(kept[0].config_file_name, "bot.cfg");
}

#[test]
fn package_install_runs() {
    assert_eq!(
        rlbot_gui::python_packages::install_package_args("rlbot"),
        strings(&["-m", "pip", "install", "-U", "--no-warn-script-location", "rlbot==1.*"])
    );
    assert_eq!(
        rlbot_gui::python_packages::install_package_args("requests").last().unwrap(),
        "requests"
    );
    assert_eq!(
        rlbot_gui::python_packages::requirements_install_args("/b/req.txt"),
        strings(&["-m", "pip", "install", "--no-warn-script-location", "-r", "/b/req.txt"])
    );
    let none = rlbot_gui::python_packages::no_requirements_result();
    assert_eq!((none.exit_code, none.packages), (1, strings(&["unknown file"])));
}

#[test]
fn lookups_are_asked_for_unknown_packages_only() {
    let bundles = vec![
        (true, true, None, None),
        (true, false, None, None),
        (false, true, None, None),
        (true, true, Some("pythonpkg".to_owned()), Some(vec![])),
        (true, true, None, None),
    ];
    assert_eq!(rlbot_gui::commands::package_lookups(true, &bundles), vec![0, 4]);
    assert_eq!(rlbot_gui::commands::package_lookups(false, &bundles), Vec::<usize>::new());
}
