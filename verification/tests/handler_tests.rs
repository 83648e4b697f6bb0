use std::io::Read;
use rlbot_gui::archive::{entry_action, extraction_parts, has_toplevel, relative_text, EntryAction};
use rlbot_gui::commands::{challenge_lineup, make_player_configs, BotType, StoryBot};
use rlbot_gui::str_map::StrMap;
use rlbot_gui::downloader::{deleted_files, release_revision};
use rlbot_gui::match_handler::{
    gzip_encode, join_with_bars, launch_challenge_args, pre_match_cleanup, rocket_league_state_text, start_match_args,
    start_match_text, ChallengeJson, HandlerAction, HandlerSend,
};
use rlbot_gui::match_settings_config_parser::{MapType, MaxScore};
use rlbot_gui::settings::{BotFolders, LauncherConfig};
use rlbot_gui::stories::Challenge;
use rlbot_gui::story::Team;

fn strings(v: &[&str]) -> Vec<String> {
    v.iter().map(|s| s.to_string()).collect()
}

#[test]
fn commands_are_joined_with_bars() {
    assert_eq!(join_with_bars(&strings(&["a", "b", "c"])), "a | b | c");
    assert_eq!(join_with_bars(&vec![]), "");
    assert_eq!(start_match_text(&strings(&["start_match", "x"])), "start_match | x | ");
}

#[test]
fn packed_commands_unpack() {
    let packed = gzip_encode("start | x | \n").unwrap();
    assert_ne!(packed, "start | x | \n");
    let bytes = base64::Engine::decode(&base64::prelude::BASE64_STANDARD, packed.as_bytes()).unwrap();
    let mut text = String::new();
    flate2::read::GzDecoder::new(bytes.as_slice()).read_to_string(&mut text).unwrap();
    assert_eq!(text, "start | x | \n");
}

fn launcher() -> LauncherConfig {
    LauncherConfig { preferred_launcher: "epic".to_owned(), use_login_tricks: true, rocket_league_exe_path: None }
}

#[test]
fn start_match_arguments() {
    let args = start_match_args("[]".to_owned(), "{}".to_owned(), &launcher());
    assert_eq!(args, strings(&["start_match", "[]", "{}", "epic", "true", ""]));
    let json = ChallengeJson {
        city_color: "1".to_owned(),
        team_color: "2".to_owned(),
        upgrades: "{}".to_owned(),
        players: "[]".to_owned(),
        match_settings: "{}".to_owned(),
        challenge: "{}".to_owned(),
        save_state: "{}".to_owned(),
    };
    let launch = launch_challenge_args("INTRO-1".to_owned(), json, &launcher());
    assert_eq!(launch.len(), 12);
    assert_eq!(launch[0], "launch_challenge");
    assert_eq!(launch[1], "INTRO-1");
    assert_eq!(launch[10], "true");
}

#[test]
fn handler_is_restarted_once() {
    let mut send = HandlerSend::new(true, Some(false));
    assert_eq!(send.next_action(), HandlerAction::Write);
    assert!(send.wrote(false));
    assert_eq!(send.next_action(), HandlerAction::Start { use_pipe: false });
    send.started();
    assert_eq!(send.next_action(), HandlerAction::Write);
    assert!(!send.wrote(false));
    assert_eq!(send.next_action(), HandlerAction::Fail);
}

#[test]
fn handler_that_may_not_start() {
    let send = HandlerSend::new(false, None);
    assert_eq!(send.next_action(), HandlerAction::GiveUp);
    let mut ok = HandlerSend::new(false, Some(true));
    assert_eq!(ok.next_action(), HandlerAction::Start { use_pipe: true });
    ok.started();
    assert!(!ok.wrote(true));
    assert_eq!(ok.next_action(), HandlerAction::Done);
}

#[test]
fn cleanup_before_a_match() {
    assert_eq!(pre_match_cleanup(true, false), (true, true));
    assert_eq!(pre_match_cleanup(true, true), (true, false));
    assert_eq!(pre_match_cleanup(false, false), (false, false));
    assert_eq!(rocket_league_state_text(true), "Rocket League is already running with RLBot args!");
    assert_eq!(rocket_league_state_text(false), "Rocket League is not running yet...");
}

#[test]
fn archive_top_level() {
    let e = |parts: &[&str]| strings(parts);
    assert!(has_toplevel(&vec![e(&["pack"]), e(&["pack", "a.txt"]), e(&["pack", "b", "c"])]));
    assert!(!has_toplevel(&vec![e(&["pack", "a.txt"]), e(&["other", "b"])]));
    assert!(!has_toplevel(&vec![e(&["pack", "a.txt"])]));
    assert!(has_toplevel(&vec![vec![], e(&["x"])]));
    assert_eq!(extraction_parts(&e(&["pack", "a", "b.txt"]), true), e(&["a", "b.txt"]));
    assert_eq!(extraction_parts(&e(&["pack", "a"]), false), e(&["pack", "a"]));
    assert_eq!(extraction_parts(&vec![], true), Vec::<String>::new());
    assert_eq!(relative_text(&e(&["a", "b\\c.txt"])), "a/b/c.txt");
    assert_eq!(relative_text(&vec![]), "");
}

#[test]
fn archive_entry_actions() {
    let p = strings(&["a"]);
    assert_eq!(entry_action(&vec![], true, false, true), EntryAction::Skip);
    assert_eq!(entry_action(&p, true, true, false), EntryAction::Directory { create: false });
    assert_eq!(entry_action(&p, false, true, false), EntryAction::Skip);
    assert_eq!(entry_action(&p, false, true, true), EntryAction::File { replace_existing: true });
    assert_eq!(entry_action(&p, false, false, false), EntryAction::File { replace_existing: false });
}

#[test]
fn patch_deletions_and_revisions() {
    let lines = strings(&["bots/a.py\r", "", "\0\r", "bots/b.py"]);
    assert_eq!(deleted_files(&lines), strings(&["bots/a.py", "bots/b.py"]));
    assert_eq!(release_revision("v12"), Some(12));
    assert_eq!(release_revision("v"), None);
    assert_eq!(release_revision("vx1"), None);
}

#[test]
fn challenge_lineups() {
    let challenge = Challenge {
        id: "c".to_owned(),
        human_team_size: 2,
        opponent_bots: strings(&["opp", "ghost"]),
        scripts: vec![],
        limitations: vec![],
        map: MapType::Mannfield,
        max_score: MaxScore::ThreeGoals,
        disabled_boost: false,
    };
    let known = strings(&["mate", "other", "opp"]);
    let lineup = challenge_lineup(&challenge, &strings(&["mate", "other"]), &known);
    assert_eq!(lineup, vec![("mate".to_owned(), Team::Blue), ("opp".to_owned(), Team::Orange)]);
}

#[test]
fn shown_bot_folders() {
    let mut bf = BotFolders::default();
    bf.add_folder("/a".to_owned());
    bf.add_file("/f.cfg".to_owned());
    assert_eq!(bf.visible_folders(), strings(&["/a"]));
    assert_eq!(bf.visible_files(), strings(&["/f.cfg"]));
}

#[test]
fn logs_are_shared_without_the_home_folder() {
    assert_eq!(
        rlbot_gui::log_upload::log_for_upload("opened /home/me/bot.cfg\nsaved /home/me/x", "/home/me", "~"),
        Some("opened ~/bot.cfg\nsaved ~/x".to_owned())
    );
    assert_eq!(rlbot_gui::log_upload::log_for_upload("", "/home/me", "~"), None);
    assert_eq!(rlbot_gui::log_upload::log_for_upload("ab", "", "~"), Some("~a~b~".to_owned()));
    assert_eq!(rlbot_gui::log_upload::uploaded_log_url("abc"), "https://hastebin.com/abc");
}

#[test]
fn replacing_text() {
    assert_eq!(rlbot_gui::text::str_replace_all("aaa", "aa", "b"), "ba");
    assert_eq!(rlbot_gui::text::str_replace_all("abc", "x", "y"), "abc");
    assert_eq!("aaa".replace("aa", "b"), rlbot_gui::text::str_replace_all("aaa", "aa", "b"));
    assert_eq!("ab".replace("", "-"), rlbot_gui::text::str_replace_all("ab", "", "-"));
}

#[test]
fn spawn_car_arguments() {
    let args = rlbot_gui::match_handler::spawn_car_args("{}".to_owned(), 1, "goal-explosion".to_owned(), "Mannfield".to_owned(), &launcher());
    assert_eq!(args, strings(&["spawn_car_for_viewing", "{}", "1", "goal-explosion", "Mannfield", "epic", "true", ""]));
}

#[test]
fn gzip_streams_are_written_in_base64() {
    assert_eq!(rlbot_gui::match_handler::encode_gzipped(Ok(vec![1u8, 2, 3])).unwrap(), "AQID");
    let failed = rlbot_gui::match_handler::encode_gzipped(Err(std::io::Error::new(std::io::ErrorKind::Other, "full")));
    assert!(matches!(failed, Err(rlbot_gui::commands::MatchHandlerError::Io(ref e)) if e.to_string() == "full"));
}

#[test]
fn challenge_players_start_with_the_human() {
    let challenge = Challenge {
        id: "c".to_owned(),
        human_team_size: 2,
        opponent_bots: strings(&["pro", "ghost", "kamael"]),
        scripts: vec![],
        limitations: vec![],
        map: MapType::Mannfield,
        max_score: MaxScore::ThreeGoals,
        disabled_boost: false,
    };
    let mut bots = StrMap::new();
    bots.insert("pro".to_owned(), StoryBot { name: "Psyonix Pro".to_owned(), type_field: BotType::Psyonix, path: None });
    bots.insert(
        "kamael".to_owned(),
        StoryBot { name: "Kamael".to_owned(), type_field: BotType::Rlbot, path: Some(strings(&["$RLBOTPACKROOT", "RLBotPack", "Kamael.cfg"])) },
    );
    bots.insert("nopath".to_owned(), StoryBot { name: "NoPath".to_owned(), type_field: BotType::Rlbot, path: None });
    let players = make_player_configs(&challenge, &strings(&["nopath", "kamael"]), &bots, "/bp");
    let seen: Vec<(String, Team, String, Option<String>)> =
        players.into_iter().map(|p| (p.name, p.team, p.runnable_type, p.path)).collect();
    assert_eq!(
        seen,
        vec![
            ("Human".to_owned(), Team::Blue, "human".to_owned(), None),
            ("NoPath".to_owned(), Team::Blue, "rlbot".to_owned(), Some(String::new())),
            ("Psyonix Pro".to_owned(), Team::Orange, "psyonix".to_owned(), None),
            ("Kamael".to_owned(), Team::Orange, "rlbot".to_owned(), Some("/bp/RLBotPack/Kamael.cfg".to_owned())),
        ]
    );
}
