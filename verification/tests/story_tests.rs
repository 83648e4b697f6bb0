use rlbot_gui::story::{CustomConfig, StoryConfig, StoryIDs, StoryState, StoryTeamConfig};

fn new_state() -> StoryState {
    StoryState::new(
        StoryTeamConfig { name: "Team".to_owned(), color: 3 },
        StoryConfig { story_id: StoryIDs::Default, use_custom_maps: false, custom_config: CustomConfig { story_path: String::new() } },
    )
}

fn state_with_currency(amount: usize) -> StoryState {
    let mut s = new_state();
    s.upgrades.insert("currency".to_owned(), amount);
    s
}

#[test]
fn new_story_starts_without_currency() {
    let s = new_state();
    assert_eq!(s.version, 1);
    assert_eq!(s.get_upgrades().get("currency"), Some(&0));
    assert_eq!(s.get_upgrades().len(), 1);
    assert_eq!(s.teammates.len(), 0);
    assert_eq!(s.challenges_attempts.len(), 0);
    assert_eq!(s.challenges_completed.len(), 0);
    assert_eq!(s.get_team_settings().name, "Team");
    assert_eq!(s.get_team_settings().color, 3);
    assert_eq!(s.get_story_settings().story_id, StoryIDs::Default);
}

#[test]
fn purchase_pays_its_cost() {
    let mut s = state_with_currency(5);
    assert!(s.add_purchase("boost".to_owned(), 3).is_ok());
    assert_eq!(s.upgrades.get("currency"), Some(&2));
    assert_eq!(s.upgrades.get("boost"), Some(&1));
}

#[test]
fn purchase_of_everything_left_is_allowed() {
    let mut s = state_with_currency(4);
    assert!(s.add_purchase("rumble".to_owned(), 4).is_ok());
    assert_eq!(s.upgrades.get("currency"), Some(&0));
}

#[test]
fn purchase_without_enough_currency_is_refused() {
    let mut s = state_with_currency(2);
    let r = s.add_purchase("boost".to_owned(), 3);
    assert_eq!(r, Err("Not enough currency to purchase boost".to_owned()));
    assert_eq!(s.upgrades.get("currency"), Some(&2));
    assert!(!s.upgrades.contains_key("boost"));
}

#[test]
fn purchase_cannot_be_repeated() {
    let mut s = state_with_currency(10);
    assert!(s.add_purchase("boost".to_owned(), 3).is_ok());
    let r = s.add_purchase("boost".to_owned(), 3);
    assert_eq!(r, Err("Purchase already made: boost".to_owned()));
    assert_eq!(s.upgrades.get("currency"), Some(&7));
}

#[test]
fn purchase_of_currency_itself_is_refused() {
    let mut s = state_with_currency(10);
    let r = s.add_purchase("currency".to_owned(), 1);
    assert_eq!(r, Err("Purchase already made: currency".to_owned()));
}

#[test]
fn purchase_without_currency_entry_is_refused() {
    let mut s = new_state();
    s.upgrades = rlbot_gui::str_map::StrMap::new();
    let r = s.add_purchase("boost".to_owned(), 0);
    assert_eq!(r, Err("The key 'currency' was not found".to_owned()));
    let r2 = s.add_recruit("bot".to_owned());
    assert_eq!(r2, Err("The key 'currency' was not found".to_owned()));
}

#[test]
fn free_purchase_on_new_story() {
    let mut s = new_state();
    assert!(s.add_purchase("paint".to_owned(), 0).is_ok());
    assert_eq!(s.upgrades.get("paint"), Some(&1));
    assert_eq!(s.upgrades.get("currency"), Some(&0));
}

#[test]
fn recruit_pays_one() {
    let mut s = state_with_currency(2);
    assert!(s.add_recruit("Kamael".to_owned()).is_ok());
    assert_eq!(s.teammates, vec!["Kamael".to_owned()]);
    assert_eq!(s.upgrades.get("currency"), Some(&1));
}

#[test]
fn recruit_without_currency_is_refused() {
    let mut s = new_state();
    let r = s.add_recruit("Kamael".to_owned());
    assert_eq!(r, Err("Not enough currency to recruit Kamael".to_owned()));
    assert!(s.teammates.is_empty());
    assert_eq!(s.upgrades.get("currency"), Some(&0));
}

#[test]
fn a_purchase_adds_exactly_one_upgrade() {
    let mut s = state_with_currency(5);
    let before = s.upgrades.len();
    assert!(s.add_purchase("boost".to_owned(), 3).is_ok());
    assert_eq!(s.upgrades.len(), before + 1);
}

#[test]
fn base_bot_table() {
    let bots = rlbot_gui::bots_base::json();
    assert_eq!(bots.len(), 28);
    let kamael = bots.get("kamael").unwrap();
    assert_eq!(kamael.name, "Kamael");
    assert_eq!(kamael.type_field, rlbot_gui::commands::BotType::Rlbot);
    assert_eq!(
        kamael.path,
        Some(vec!["$RLBOTPACKROOT".to_owned(), "RLBotPack".to_owned(), "Kamael_family".to_owned(), "Kamael.cfg".to_owned()])
    );
    let pro = bots.get("psyonix-pro").unwrap();
    assert_eq!(pro.type_field, rlbot_gui::commands::BotType::Psyonix);
    assert_eq!(pro.path, None);
    for (_, bot) in bots.pairs() {
        assert_eq!(bot.type_field == rlbot_gui::commands::BotType::Psyonix, bot.path.is_none());
    }
}
