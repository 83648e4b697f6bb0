use configparser::ini::Ini;
use rlbot_gui::downloader::{
    check_update, get_current_tag_name, get_url_from_tag, is_botpack_current, map_pack_status, maps_to_fetch, record_tag, tag_number_of,
    BotpackPatcher, BotpackStatus,
};
use rlbot_gui::str_map::StrMap;

#[test]
fn patch_url() {
    assert_eq!(get_url_from_tag("RLBot/RLBotPack", 103), "https://github.com/RLBot/RLBotPack/releases/download/incr-103/incremental.zip");
    assert_eq!(get_url_from_tag("a/b", 0), "https://github.com/a/b/releases/download/incr-0/incremental.zip");
}

#[test]
fn tag_numbers() {
    assert_eq!(tag_number_of("incr-103"), Some(103));
    assert_eq!(tag_number_of("103"), Some(103));
    assert_eq!(tag_number_of("incr-+7"), Some(7));
    assert_eq!(tag_number_of("incr-4294967295"), Some(4294967295));
    assert_eq!(tag_number_of("incr-4294967296"), None);
    assert_eq!(tag_number_of("incr-"), None);
    assert_eq!(tag_number_of("incr-1a"), None);
    assert_eq!(tag_number_of("v103"), None);
}

#[test]
fn recorded_tag_reads_back() {
    let mut conf = Ini::new();
    assert_eq!(get_current_tag_name(&conf), None);
    record_tag(&mut conf, 57);
    assert_eq!(conf.get("bot_folder_settings", "incr"), Some("incr-57".to_owned()));
    assert_eq!(get_current_tag_name(&conf), Some(57));
}

#[test]
fn botpack_currency() {
    assert!(is_botpack_current(None, Some(3)));
    assert!(is_botpack_current(Some(3), None));
    assert!(is_botpack_current(Some(3), Some(3)));
    assert!(!is_botpack_current(Some(3), Some(4)));
}

#[test]
fn update_decisions() {
    assert_eq!(check_update(None, Some(4), true), Some(BotpackStatus::RequiresFullDownload));
    assert_eq!(check_update(Some(4), None, true), Some(BotpackStatus::Skipped("Failed to get the latest release tag.".to_owned())));
    assert_eq!(check_update(Some(4), Some(4), true), Some(BotpackStatus::Skipped("The botpack is already up-to-date!".to_owned())));
    assert_eq!(check_update(Some(4), Some(55), true), Some(BotpackStatus::RequiresFullDownload));
    assert_eq!(check_update(Some(4), Some(54), true), None);
    assert_eq!(check_update(Some(4), Some(5), true), None);
    assert_eq!(check_update(Some(4), Some(5), false), Some(BotpackStatus::RequiresFullDownload));
    assert_eq!(check_update(Some(4), Some(4), false), Some(BotpackStatus::Skipped("The botpack is already up-to-date!".to_owned())));
    assert_eq!(check_update(None, Some(4), false), Some(BotpackStatus::RequiresFullDownload));
}

#[test]
fn patches_go_in_order() {
    let mut p = BotpackPatcher::new(4, 6);
    let mut applied = Vec::new();
    while let Some(t) = p.next_tag() {
        applied.push(t);
        p.patch_applied();
    }
    assert_eq!(applied, vec![5, 6]);
    assert_eq!(p.finish(), BotpackStatus::Success("Updated the botpack!".to_owned()));
}

#[test]
fn interrupted_patching_is_reported() {
    let mut p = BotpackPatcher::new(4, 6);
    assert_eq!(p.next_tag(), Some(5));
    p.patch_applied();
    assert_eq!(p.finish(), BotpackStatus::Skipped("Failed to update the botpack...".to_owned()));
}

#[test]
fn map_pack_decisions() {
    assert_eq!(map_pack_status(3, 4), BotpackStatus::RequiresFullDownload);
    assert_eq!(map_pack_status(4, 4), BotpackStatus::Skipped("Map pack is already up-to-date!".to_owned()));
}

#[test]
fn only_new_or_updated_maps_are_fetched() {
    let new_maps = StrMap::from_pairs(vec![("a.upk".to_owned(), 2u64), ("b.upk".to_owned(), 1), ("c.upk".to_owned(), 5)]);
    let old_maps = StrMap::from_pairs(vec![("a.upk".to_owned(), 1u64), ("b.upk".to_owned(), 1)]);
    assert_eq!(maps_to_fetch(&new_maps, &old_maps), vec!["a.upk".to_owned(), "c.upk".to_owned()]);
    assert_eq!(maps_to_fetch(&new_maps, &StrMap::new()).len(), 3);
}
