use configparser::ini::Ini;
use rlbot_gui::archive::{extraction_plan, read_zip_entries};
use rlbot_gui::bot_config_bundle::imghdr_can_read;
use rlbot_gui::cfg_helper::{load_cfg_text, Error};
use rlbot_gui::commands::{collapse_path, script_to_miniscript_bundle};
use rlbot_gui::config_handles::{gui_config_from_text, new_gui_config, set_gui_config_to_default};
use rlbot_gui::stories::Script;
use std::io::{Cursor, Write};
use zip::write::FileOptions;
use zip::ZipWriter;

fn zip_of(files: &[(&str, &[u8])], dirs: &[&str]) -> Vec<u8> {
    let mut w = ZipWriter::new(Cursor::new(Vec::new()));
    for d in dirs {
        w.add_directory(*d, FileOptions::default()).unwrap();
    }
    for (name, data) in files {
        w.start_file(*name, FileOptions::default()).unwrap();
        w.write_all(data).unwrap();
    }
    w.finish().unwrap().into_inner()
}

#[test]
fn imghdr_needs_enough_bytes() {
    assert!(!imghdr_can_read(b"short"));
    assert!(!imghdr_can_read(b"RIFFabcdef"));
    assert!(imghdr_can_read(b"RIFFabcdefgh"));
    assert!(imghdr_can_read(b"\x89PNG\r\n\x1a\n"));
    assert!(!imghdr_can_read(b"\x89PNG\r\n\x1a"));
    assert!(imghdr_can_read(b"plain text"));
    assert!(imghdr_can_read(b"\xff\xd8\xff\xe0\x00\x10JFIF"));
}

#[test]
fn story_path_collapses_under_the_botpack_root() {
    let parts = vec!["$RLBOTPACKROOT".to_owned(), "RLBotPack".to_owned(), "Kamael_family".to_owned(), "Kamael.cfg".to_owned()];
    assert_eq!(collapse_path(Some(&parts), "/home/u/bp"), Some("/home/u/bp/RLBotPack/Kamael_family/Kamael.cfg".to_owned()));
    assert_eq!(collapse_path(None, "/home/u/bp"), None);
    assert_eq!(collapse_path(Some(&vec![]), "/home/u/bp"), Some(String::new()));
    let bundle = script_to_miniscript_bundle(&Script { path: vec!["$RLBOTPACKROOT".to_owned(), "s".to_owned(), "x.cfg".to_owned()] }, "/bp");
    assert_eq!(bundle.path, "/bp/s/x.cfg");
}

#[test]
fn cfg_text_is_parsed_with_continuation_lines() {
    let conf = load_cfg_text("[Locations]\nname = Bot\nlooks = a\n  b\n; a comment\n[Details]\nTags = 1v1\n".to_owned()).unwrap();
    assert_eq!(conf.get("locations", "name"), Some("Bot".to_owned()));
    assert_eq!(conf.get("locations", "looks"), Some("a\nb".to_owned()));
    assert_eq!(conf.get("details", "tags"), Some("1v1".to_owned()));
    assert!(matches!(load_cfg_text("[Locations\nname = Bot\n".to_owned()), Err(Error::Load(_))));
}

#[test]
fn settings_text_is_read_or_reported() {
    let (conf, error) = gui_config_from_text("[launcher_settings]\npreferred_launcher = steam\n".to_owned());
    assert!(error.is_none());
    assert_eq!(conf.get("launcher_settings", "preferred_launcher"), Some("steam".to_owned()));
    let (empty, error) = gui_config_from_text("[launcher_settings\n".to_owned());
    assert!(error.is_some());
    assert_eq!(empty.get("launcher_settings", "preferred_launcher"), None);
}

#[test]
fn default_settings_hold_the_default_match() {
    let conf = new_gui_config("python3".to_owned());
    assert_eq!(conf.get("match_settings", "game_mode"), Some("\"Soccer\"".to_owned()));
    assert_eq!(conf.get("match_settings", "skip_replays"), Some("false".to_owned()));
    assert_eq!(conf.get("match_settings", "instant_start"), Some("false".to_owned()));
    assert_eq!(conf.get("match_settings", "enable_state_setting"), Some("false".to_owned()));
    assert_eq!(conf.get("mutator_settings", "match_length"), Some("\"5 Minutes\"".to_owned()));
    let mut old = Ini::new();
    old.set("match_settings", "skip_replays", Some("true".to_owned()));
    old.set("match_settings", "stale", Some("x".to_owned()));
    set_gui_config_to_default(&mut old, String::new());
    assert_eq!(old.get("match_settings", "skip_replays"), Some("false".to_owned()));
    assert_eq!(old.get("match_settings", "stale"), Some("x".to_owned()));
}

#[test]
fn archive_entries_are_read_in_order() {
    let bytes = zip_of(&[("top/a.txt", b"alpha"), ("top/sub/b.txt", b"beta")], &["top/"]);
    let entries = read_zip_entries(bytes).unwrap();
    assert_eq!(entries.len(), 3);
    assert_eq!(entries[0].mangled, vec!["top".to_owned()]);
    assert!(entries[0].is_dir);
    assert_eq!(entries[1].enclosed, Some(vec!["top".to_owned(), "a.txt".to_owned()]));
    assert_eq!(entries[1].contents, b"alpha".to_vec());
    assert_eq!(entries[2].contents, b"beta".to_vec());
    assert!(read_zip_entries(b"not an archive".to_vec()).is_err());
}

#[test]
fn extraction_plan_strips_the_top_folder_and_skips_unsafe_names() {
    let bytes = zip_of(&[("top/a.txt", b"alpha"), ("top/sub/b.txt", b"beta")], &[]);
    let entries = read_zip_entries(bytes).unwrap();
    let plan = extraction_plan(&entries, true);
    assert_eq!(plan, vec![(0, vec!["a.txt".to_owned()]), (1, vec!["sub".to_owned(), "b.txt".to_owned()])]);
    let kept = extraction_plan(&entries, false);
    assert_eq!(kept[0], (0, vec!["top".to_owned(), "a.txt".to_owned()]));

    let bytes = zip_of(&[("top/a.txt", b"alpha"), ("/abs.txt", b"x"), ("top/../../up.txt", b"y")], &[]);
    let entries = read_zip_entries(bytes).unwrap();
    assert_eq!(entries[2].enclosed, None);
    let plan = extraction_plan(&entries, true);
    assert!(plan.iter().all(|(i, _)| *i != 2));
    assert_eq!(plan[0], (0, vec!["top".to_owned(), "a.txt".to_owned()]));
}

#[test]
fn stripping_the_top_folder_can_climb_one_level() {
    let bytes = zip_of(&[("top/a.txt", b"alpha"), ("top/../x.txt", b"x")], &[]);
    let entries = read_zip_entries(bytes).unwrap();
    assert_eq!(entries[1].enclosed, Some(vec!["top".to_owned(), "..".to_owned(), "x.txt".to_owned()]));
    let plan = extraction_plan(&entries, true);
    assert_eq!(plan[1], (1, vec!["..".to_owned(), "x.txt".to_owned()]));
    let kept = extraction_plan(&entries, false);
    assert_eq!(kept[1], (1, vec!["top".to_owned(), "..".to_owned(), "x.txt".to_owned()]));
}
