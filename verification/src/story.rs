//! Story mode: the configuration a story is played with and the player's saved
//! progress, with the rules for buying upgrades and recruiting teammates.

use vstd::prelude::*;
use crate::str_map::StrMap;

verus! {

/// The two teams of a match.
#[derive(Clone, Copy, Debug, PartialEq, Eq, Structural)]
pub enum Team {
    Blue,
    Orange,
}

/// Name and colour of the player's story team.
#[derive(Clone, Debug)]
pub struct StoryTeamConfig {
    pub name: String,
    pub color: u16,
}

/// Where a custom story is read from.
#[derive(Clone, Debug)]
pub struct CustomConfig {
    pub story_path: String,
}

/// The built-in stories, and the custom one.
#[derive(Clone, Copy, Debug, PartialEq, Eq, Hash, Structural)]
pub enum StoryIDs {
    Easy,
    Default,
    Custom,
}

/// Which story is played, and how.
#[derive(Clone, Debug)]
pub struct StoryConfig {
    pub story_id: StoryIDs,
    pub use_custom_maps: bool,
    pub custom_config: CustomConfig,
}

/// The score of one team at the end of a challenge.
#[derive(Clone, Debug)]
pub struct ScoreResult {
    pub team_index: Team,
    pub score: usize,
}

/// One player of a finished challenge.
#[derive(Clone, Debug)]
pub struct PlayerStats {
    pub name: String,
    pub team: Team,
}

/// The outcome of a played challenge.
#[derive(Clone, Debug)]
pub struct GameResults {
    pub human_team: Team,
    pub score: Vec<ScoreResult>,
    pub stats: Vec<PlayerStats>,
    pub human_won: bool,
    pub timestamp: String,
}

/// One attempt at a challenge.
#[derive(Clone, Debug)]
pub struct ChallengeAttempt {
    pub game_results: Option<GameResults>,
    pub challenge_completed: bool,
}

/// Represents the user's game state in story mode.
pub struct StoryState {
    pub version: u8,
    pub story_settings: StoryConfig,
    pub team_settings: StoryTeamConfig,
    pub teammates: Vec<String>,
    pub challenges_attempts: StrMap<Vec<ChallengeAttempt>>,
    pub challenges_completed: StrMap<usize>,
    pub upgrades: StrMap<usize>,
}

/// The upgrade entry that holds the player's currency.
pub open spec fn currency_key() -> Seq<char> {
    "currency"@
}

/// Why a purchase of `id` for `cost` is refused, given the upgrades owned; `None` when it is allowed.
pub open spec fn purchase_refusal(upgrades: Map<Seq<char>, usize>, id: Seq<char>, cost: usize) -> Option<Seq<char>> {
    if !upgrades.contains_key(currency_key()) {
        Some("The key 'currency' was not found"@)
    } else if upgrades[currency_key()] < cost {
        Some("Not enough currency to purchase "@ + id)
    } else if upgrades.contains_key(id) {
        Some("Purchase already made: "@ + id)
    } else {
        None
    }
}

/// The upgrades after an allowed purchase: `id` is owned and the cost is paid.
pub open spec fn upgrades_after_purchase(upgrades: Map<Seq<char>, usize>, id: Seq<char>, cost: usize) -> Map<Seq<char>, usize> {
    upgrades.insert(id, 1).insert(currency_key(), (upgrades[currency_key()] - cost) as usize)
}

/// Why recruiting `id` is refused, given the upgrades owned; `None` when it is allowed.
pub open spec fn recruit_refusal(upgrades: Map<Seq<char>, usize>, id: Seq<char>) -> Option<Seq<char>> {
    if !upgrades.contains_key(currency_key()) {
        Some("The key 'currency' was not found"@)
    } else if upgrades[currency_key()] < 1 {
        Some("Not enough currency to recruit "@ + id)
    } else {
        None
    }
}

/// The upgrades after an allowed recruitment: one unit of currency is paid.
pub open spec fn upgrades_after_recruit(upgrades: Map<Seq<char>, usize>) -> Map<Seq<char>, usize> {
    upgrades.insert(currency_key(), (upgrades[currency_key()] - 1) as usize)
}

/// The upgrades a new story starts with: no currency yet.
pub open spec fn starting_upgrades() -> Map<Seq<char>, usize> {
    map![currency_key() => 0usize]
}

/// A purchase that went through cannot go through a second time: the upgrade is owned.
pub proof fn lemma_purchase_not_repeatable(
    upgrades: Map<Seq<char>, usize>,
    id: Seq<char>,
    cost: usize,
    later_cost: usize,
)
    requires
        purchase_refusal(upgrades, id, cost) is None,
    ensures
        purchase_refusal(upgrades_after_purchase(upgrades, id, cost), id, later_cost) is Some,
{
}

/// An allowed purchase pays exactly its cost, leaves the upgrade owned once,
/// and changes no other upgrade.
pub proof fn lemma_purchase_pays_cost(upgrades: Map<Seq<char>, usize>, id: Seq<char>, cost: usize)
    requires
        upgrades.dom().finite(),
        purchase_refusal(upgrades, id, cost) is None,
    ensures
        ({
            let after = upgrades_after_purchase(upgrades, id, cost);
            &&& after[currency_key()] + cost == upgrades[currency_key()]
            &&& after.dom().finite() && after.len() == upgrades.len() + 1
            &&& after.contains_key(id) && after[id] == 1
            &&& forall|k: Seq<char>|
                k != id && k != currency_key() ==> (#[trigger] after.contains_key(k) == upgrades.contains_key(k)
                    && (upgrades.contains_key(k) ==> after[k] == upgrades[k]))
        }),
{
}

/// An allowed recruitment pays exactly one unit of currency and changes no other upgrade.
pub proof fn lemma_recruit_pays_one(upgrades: Map<Seq<char>, usize>, id: Seq<char>)
    requires
        recruit_refusal(upgrades, id) is None,
    ensures
        ({
            let after = upgrades_after_recruit(upgrades);
            &&& after[currency_key()] + 1 == upgrades[currency_key()]
            &&& forall|k: Seq<char>|
                k != currency_key() ==> (#[trigger] after.contains_key(k) == upgrades.contains_key(k)
                    && (upgrades.contains_key(k) ==> after[k] == upgrades[k]))
        }),
{
}

/// A new story can recruit nobody, and can buy an upgrade only when it costs nothing.
pub proof fn lemma_new_story_has_no_currency(id: Seq<char>, cost: usize)
    ensures
        recruit_refusal(starting_upgrades(), id) is Some,
        purchase_refusal(starting_upgrades(), id, cost) is None <==> (cost == 0 && id != currency_key()),
{
}

impl StoryState {
    /// `a` and `b` agree on everything but the upgrades and the teammates.
    pub open spec fn same_story(a: StoryState, b: StoryState) -> bool {
        &&& a.version == b.version
        &&& a.story_settings == b.story_settings
        &&& a.team_settings == b.team_settings
        &&& a.challenges_attempts@ == b.challenges_attempts@
        &&& a.challenges_completed@ == b.challenges_completed@
    }

    /// A new save: version 1, no teammates, no attempts, no currency.
    pub fn new(team_settings: StoryTeamConfig, story_settings: StoryConfig) -> (r: Self)
        ensures
            r.version == 1,
            r.story_settings == story_settings,
            r.team_settings == team_settings,
            r.teammates@.len() == 0,
            r.challenges_attempts@ == Map::<Seq<char>, Vec<ChallengeAttempt>>::empty(),
            r.challenges_completed@ == Map::<Seq<char>, usize>::empty(),
            r.upgrades@ == starting_upgrades(),
    {
        let mut upgrades = StrMap::new();
        upgrades.insert("currency".to_owned(), 0);
        assert(upgrades@ =~= starting_upgrades());
        StoryState {
            version: 1,
            story_settings,
            team_settings,
            teammates: Vec::new(),
            challenges_attempts: StrMap::new(),
            challenges_completed: StrMap::new(),
            upgrades,
        }
    }

    /// Buys the upgrade `id` for `cost`, or says why it cannot be bought.
    pub fn add_purchase(&mut self, id: String, cost: usize) -> (r: Result<(), String>)
        ensures
            match purchase_refusal(old(self).upgrades@, id@, cost) {
                Some(msg) => r matches Err(e) && e@ == msg && *final(self) == *old(self),
                None => {
                    &&& r is Ok
                    &&& final(self).upgrades@ == upgrades_after_purchase(old(self).upgrades@, id@, cost)
                    &&& final(self).upgrades@.len() == old(self).upgrades@.len() + 1
                    &&& final(self).teammates@ == old(self).teammates@
                    &&& Self::same_story(*final(self), *old(self))
                },
            },
    {
        let current_currency = match self.upgrades.get("currency") {
            Some(c) => *c,
            None => {
                return Err("The key 'currency' was not found".to_owned());
            },
        };
        if current_currency < cost {
            let mut msg = "Not enough currency to purchase ".to_owned();
            msg.append(id.as_str());
            return Err(msg);
        }
        if self.upgrades.contains_key(id.as_str()) {
            let mut msg = "Purchase already made: ".to_owned();
            msg.append(id.as_str());
            return Err(msg);
        }
        proof { lemma_purchase_pays_cost(self.upgrades@, id@, cost); }
        self.upgrades.insert(id, 1);
        self.upgrades.insert("currency".to_owned(), current_currency - cost);
        Ok(())
    }

    /// Recruits the bot `id` as a teammate for one unit of currency, or says why it cannot.
    pub fn add_recruit(&mut self, id: String) -> (r: Result<(), String>)
        ensures
            match recruit_refusal(old(self).upgrades@, id@) {
                Some(msg) => r matches Err(e) && e@ == msg && *final(self) == *old(self),
                None => {
                    &&& r is Ok
                    &&& final(self).upgrades@ == upgrades_after_recruit(old(self).upgrades@)
                    &&& final(self).teammates@ == old(self).teammates@.push(id)
                    &&& Self::same_story(*final(self), *old(self))
                },
            },
    {
        let current_currency = match self.upgrades.get("currency") {
            Some(c) => *c,
            None => {
                return Err("The key 'currency' was not found".to_owned());
            },
        };
        if current_currency < 1 {
            let mut msg = "Not enough currency to recruit ".to_owned();
            msg.append(id.as_str());
            return Err(msg);
        }
        self.teammates.push(id);
        self.upgrades.insert("currency".to_owned(), current_currency - 1);
        Ok(())
    }

    /// The story being played.
    pub fn get_story_settings(&self) -> (r: &StoryConfig)
        ensures
            *r == self.story_settings,
    {
        &self.story_settings
    }

    /// The upgrades owned, the currency among them.
    pub fn get_upgrades(&self) -> (r: &StrMap<usize>)
        ensures
            *r == self.upgrades,
    {
        &self.upgrades
    }

    /// The player's team.
    pub fn get_team_settings(&self) -> (r: &StoryTeamConfig)
        ensures
            *r == self.team_settings,
    {
        &self.team_settings
    }
}

} // verus!
