//! The settings the GUI keeps between runs: the match and its mutators, the
//! launcher, the bot folders; with how each is saved into and read from the
//! settings document.

use vstd::prelude::*;
use configparser::ini::Ini;
use crate::bot_config_bundle::{Clean, ScriptConfigBundle};
use crate::str_map::StrMap;
use crate::custom_maps::{get_search_folders, shown_paths};
use crate::config_store::{ini_bool, ini_entries, ini_get, ini_getbool, ini_is_plain, ini_key, ini_set, ini_value, json_of_bool, json_text_of_str, lemma_lower_ascii_name, read_stored_label, store_label, stored_label, lowered};
use crate::text::{ascii_lower, is_ascii_seq, opt_view};
use crate::match_settings_config_parser::{ExistingMatchBehavior, GameMode, MapType, BallBounciness, BallMaxSpeed, BallSize, BallType, BallWeight, BoostAmount, BoostStrength, Demolish, GameSpeed, Gravity, MatchLength, MaxScore, Overtime, RespawnTime, Rumble, SeriesLength};

verus! {

/// The mutators of a match.
#[derive(Clone, Copy, Debug, PartialEq, Eq, Structural)]
pub struct MutatorConfig {
    pub match_length: MatchLength,
    pub max_score: MaxScore,
    pub overtime: Overtime,
    pub series_length: SeriesLength,
    pub game_speed: GameSpeed,
    pub ball_max_speed: BallMaxSpeed,
    pub ball_type: BallType,
    pub ball_weight: BallWeight,
    pub ball_size: BallSize,
    pub ball_bounciness: BallBounciness,
    pub boost_amount: BoostAmount,
    pub rumble: Rumble,
    pub boost_strength: BoostStrength,
    pub gravity: Gravity,
    pub demolish: Demolish,
    pub respawn_time: RespawnTime,
}

impl Default for MutatorConfig {
    fn default() -> (r: Self)
        ensures
            r == MutatorConfig::default_value(),
    {
        MutatorConfig {
            match_length: MatchLength::default(),
            max_score: MaxScore::default(),
            overtime: Overtime::default(),
            series_length: SeriesLength::default(),
            game_speed: GameSpeed::default(),
            ball_max_speed: BallMaxSpeed::default(),
            ball_type: BallType::default(),
            ball_weight: BallWeight::default(),
            ball_size: BallSize::default(),
            ball_bounciness: BallBounciness::default(),
            boost_amount: BoostAmount::default(),
            rumble: Rumble::default(),
            boost_strength: BoostStrength::default(),
            gravity: Gravity::default(),
            demolish: Demolish::default(),
            respawn_time: RespawnTime::default(),
        }
    }
}

impl MutatorConfig {
    /// Every mutator at its default.
    pub open spec fn default_value() -> MutatorConfig {
        MutatorConfig {
            match_length: MatchLength::read_or_default(None),
            max_score: MaxScore::read_or_default(None),
            overtime: Overtime::read_or_default(None),
            series_length: SeriesLength::read_or_default(None),
            game_speed: GameSpeed::read_or_default(None),
            ball_max_speed: BallMaxSpeed::read_or_default(None),
            ball_type: BallType::read_or_default(None),
            ball_weight: BallWeight::read_or_default(None),
            ball_size: BallSize::read_or_default(None),
            ball_bounciness: BallBounciness::read_or_default(None),
            boost_amount: BoostAmount::read_or_default(None),
            rumble: Rumble::read_or_default(None),
            boost_strength: BoostStrength::read_or_default(None),
            gravity: Gravity::read_or_default(None),
            demolish: Demolish::read_or_default(None),
            respawn_time: RespawnTime::read_or_default(None),
        }
    }

    /// The settings document after the mutators are saved into it: each under
    /// its key of the `mutator_settings` section, as the JSON string of its name.
    pub open spec fn saved_entries(e: Map<(Seq<char>, Seq<char>), Option<Seq<char>>>, m: MutatorConfig) -> Map<(Seq<char>, Seq<char>), Option<Seq<char>>> {
        e.insert(("mutator_settings"@, "match_length"@), Some(json_text_of_str(m.match_length.label()))).insert(("mutator_settings"@, "max_score"@), Some(json_text_of_str(m.max_score.label()))).insert(("mutator_settings"@, "overtime"@), Some(json_text_of_str(m.overtime.label()))).insert(("mutator_settings"@, "series_length"@), Some(json_text_of_str(m.series_length.label()))).insert(("mutator_settings"@, "game_speed"@), Some(json_text_of_str(m.game_speed.label()))).insert(("mutator_settings"@, "ball_max_speed"@), Some(json_text_of_str(m.ball_max_speed.label()))).insert(("mutator_settings"@, "ball_type"@), Some(json_text_of_str(m.ball_type.label()))).insert(("mutator_settings"@, "ball_weight"@), Some(json_text_of_str(m.ball_weight.label()))).insert(("mutator_settings"@, "ball_size"@), Some(json_text_of_str(m.ball_size.label()))).insert(("mutator_settings"@, "ball_bounciness"@), Some(json_text_of_str(m.ball_bounciness.label()))).insert(("mutator_settings"@, "boost_amount"@), Some(json_text_of_str(m.boost_amount.label()))).insert(("mutator_settings"@, "rumble"@), Some(json_text_of_str(m.rumble.label()))).insert(("mutator_settings"@, "boost_strength"@), Some(json_text_of_str(m.boost_strength.label()))).insert(("mutator_settings"@, "gravity"@), Some(json_text_of_str(m.gravity.label()))).insert(("mutator_settings"@, "demolish"@), Some(json_text_of_str(m.demolish.label()))).insert(("mutator_settings"@, "respawn_time"@), Some(json_text_of_str(m.respawn_time.label())))
    }

    /// The mutators read from a settings document: each from the name stored
    /// under its key, or its default where there is none or it is unknown.
    pub open spec fn from_entries(e: Map<(Seq<char>, Seq<char>), Option<Seq<char>>>) -> MutatorConfig {
        MutatorConfig {
            match_length: MatchLength::read_or_default(stored_label(e, "mutator_settings"@, "match_length"@)),
            max_score: MaxScore::read_or_default(stored_label(e, "mutator_settings"@, "max_score"@)),
            overtime: Overtime::read_or_default(stored_label(e, "mutator_settings"@, "overtime"@)),
            series_length: SeriesLength::read_or_default(stored_label(e, "mutator_settings"@, "series_length"@)),
            game_speed: GameSpeed::read_or_default(stored_label(e, "mutator_settings"@, "game_speed"@)),
            ball_max_speed: BallMaxSpeed::read_or_default(stored_label(e, "mutator_settings"@, "ball_max_speed"@)),
            ball_type: BallType::read_or_default(stored_label(e, "mutator_settings"@, "ball_type"@)),
            ball_weight: BallWeight::read_or_default(stored_label(e, "mutator_settings"@, "ball_weight"@)),
            ball_size: BallSize::read_or_default(stored_label(e, "mutator_settings"@, "ball_size"@)),
            ball_bounciness: BallBounciness::read_or_default(stored_label(e, "mutator_settings"@, "ball_bounciness"@)),
            boost_amount: BoostAmount::read_or_default(stored_label(e, "mutator_settings"@, "boost_amount"@)),
            rumble: Rumble::read_or_default(stored_label(e, "mutator_settings"@, "rumble"@)),
            boost_strength: BoostStrength::read_or_default(stored_label(e, "mutator_settings"@, "boost_strength"@)),
            gravity: Gravity::read_or_default(stored_label(e, "mutator_settings"@, "gravity"@)),
            demolish: Demolish::read_or_default(stored_label(e, "mutator_settings"@, "demolish"@)),
            respawn_time: RespawnTime::read_or_default(stored_label(e, "mutator_settings"@, "respawn_time"@)),
        }
    }

    /// Saving the mutators changes nothing outside the `mutator_settings` section.
    pub proof fn lemma_saved_keeps_other_sections(e: Map<(Seq<char>, Seq<char>), Option<Seq<char>>>, m: MutatorConfig)
        ensures
            forall|k: (Seq<char>, Seq<char>)| k.0 != "mutator_settings"@ ==> (#[trigger] Self::saved_entries(e, m).contains_key(k) == e.contains_key(k) && (e.contains_key(k) ==> Self::saved_entries(e, m)[k] == e[k])),
    {
    }

    /// Reads the mutators from the settings document.
    pub fn load_from_config(conf: &Ini) -> (r: Self)
        ensures
            ini_is_plain(*conf) ==> r == Self::from_entries(ini_entries(*conf)),
    {
        proof { lemma_mutator_keys(); }
        MutatorConfig {
            match_length: MatchLength::from_stored_label(read_stored_label(conf, "mutator_settings", "match_length")),
            max_score: MaxScore::from_stored_label(read_stored_label(conf, "mutator_settings", "max_score")),
            overtime: Overtime::from_stored_label(read_stored_label(conf, "mutator_settings", "overtime")),
            series_length: SeriesLength::from_stored_label(read_stored_label(conf, "mutator_settings", "series_length")),
            game_speed: GameSpeed::from_stored_label(read_stored_label(conf, "mutator_settings", "game_speed")),
            ball_max_speed: BallMaxSpeed::from_stored_label(read_stored_label(conf, "mutator_settings", "ball_max_speed")),
            ball_type: BallType::from_stored_label(read_stored_label(conf, "mutator_settings", "ball_type")),
            ball_weight: BallWeight::from_stored_label(read_stored_label(conf, "mutator_settings", "ball_weight")),
            ball_size: BallSize::from_stored_label(read_stored_label(conf, "mutator_settings", "ball_size")),
            ball_bounciness: BallBounciness::from_stored_label(read_stored_label(conf, "mutator_settings", "ball_bounciness")),
            boost_amount: BoostAmount::from_stored_label(read_stored_label(conf, "mutator_settings", "boost_amount")),
            rumble: Rumble::from_stored_label(read_stored_label(conf, "mutator_settings", "rumble")),
            boost_strength: BoostStrength::from_stored_label(read_stored_label(conf, "mutator_settings", "boost_strength")),
            gravity: Gravity::from_stored_label(read_stored_label(conf, "mutator_settings", "gravity")),
            demolish: Demolish::from_stored_label(read_stored_label(conf, "mutator_settings", "demolish")),
            respawn_time: RespawnTime::from_stored_label(read_stored_label(conf, "mutator_settings", "respawn_time")),
        }
    }

    /// Saves the mutators into the settings document; reading them back gives them again.
    #[verifier::rlimit(40)]
    pub fn save_config(&self, conf: &mut Ini)
        ensures
            ini_is_plain(*final(conf)) == ini_is_plain(*old(conf)),
            ini_is_plain(*old(conf)) ==> ini_entries(*final(conf)) == Self::saved_entries(ini_entries(*old(conf)), *self),
            ini_is_plain(*old(conf)) ==> Self::from_entries(ini_entries(*final(conf))) == *self,
    {
        proof {
            lemma_mutator_keys();
            reveal_strlit("mutator_settings");
            reveal_strlit("match_length");
            reveal_strlit("max_score");
            reveal_strlit("overtime");
            reveal_strlit("series_length");
            reveal_strlit("game_speed");
            reveal_strlit("ball_max_speed");
            reveal_strlit("ball_type");
            reveal_strlit("ball_weight");
            reveal_strlit("ball_size");
            reveal_strlit("ball_bounciness");
            reveal_strlit("boost_amount");
            reveal_strlit("rumble");
            reveal_strlit("boost_strength");
            reveal_strlit("gravity");
            reveal_strlit("demolish");
            reveal_strlit("respawn_time");
        }
        store_label(conf, "mutator_settings", "match_length", self.match_length.as_label());
        store_label(conf, "mutator_settings", "max_score", self.max_score.as_label());
        store_label(conf, "mutator_settings", "overtime", self.overtime.as_label());
        store_label(conf, "mutator_settings", "series_length", self.series_length.as_label());
        store_label(conf, "mutator_settings", "game_speed", self.game_speed.as_label());
        store_label(conf, "mutator_settings", "ball_max_speed", self.ball_max_speed.as_label());
        store_label(conf, "mutator_settings", "ball_type", self.ball_type.as_label());
        store_label(conf, "mutator_settings", "ball_weight", self.ball_weight.as_label());
        store_label(conf, "mutator_settings", "ball_size", self.ball_size.as_label());
        store_label(conf, "mutator_settings", "ball_bounciness", self.ball_bounciness.as_label());
        store_label(conf, "mutator_settings", "boost_amount", self.boost_amount.as_label());
        store_label(conf, "mutator_settings", "rumble", self.rumble.as_label());
        store_label(conf, "mutator_settings", "boost_strength", self.boost_strength.as_label());
        store_label(conf, "mutator_settings", "gravity", self.gravity.as_label());
        store_label(conf, "mutator_settings", "demolish", self.demolish.as_label());
        store_label(conf, "mutator_settings", "respawn_time", self.respawn_time.as_label());
        proof {
            self.match_length.lemma_label_round_trip();
            self.max_score.lemma_label_round_trip();
            self.overtime.lemma_label_round_trip();
            self.series_length.lemma_label_round_trip();
            self.game_speed.lemma_label_round_trip();
            self.ball_max_speed.lemma_label_round_trip();
            self.ball_type.lemma_label_round_trip();
            self.ball_weight.lemma_label_round_trip();
            self.ball_size.lemma_label_round_trip();
            self.ball_bounciness.lemma_label_round_trip();
            self.boost_amount.lemma_label_round_trip();
            self.rumble.lemma_label_round_trip();
            self.boost_strength.lemma_label_round_trip();
            self.gravity.lemma_label_round_trip();
            self.demolish.lemma_label_round_trip();
            self.respawn_time.lemma_label_round_trip();
        }
    }
}

/// A script to run during a match, by the path of its `.cfg` file.
#[derive(Debug)]
pub struct MiniScriptBundle {
    pub path: String,
}

impl Clone for MiniScriptBundle {
    fn clone(&self) -> (r: Self)
        ensures
            r == *self,
    {
        MiniScriptBundle { path: self.path.clone() }
    }
}

/// The match to start, with the scripts by path only.
#[derive(Debug)]
pub struct MiniMatchConfig {
    pub map: MapType,
    pub game_mode: GameMode,
    pub match_behavior: ExistingMatchBehavior,
    pub skip_replays: bool,
    pub instant_start: bool,
    pub enable_lockstep: bool,
    pub randomize_map: bool,
    pub enable_rendering: bool,
    pub enable_state_setting: bool,
    pub auto_save_replay: bool,
    pub scripts: Vec<MiniScriptBundle>,
    pub mutators: MutatorConfig,
}

impl MiniMatchConfig {
    /// The default match: the default map, mode and mutators, no scripts, and
    /// every switch off but state setting.
    pub open spec fn is_default(m: MiniMatchConfig) -> bool {
        &&& m.map == MapType::DfhStadium
        &&& m.game_mode == GameMode::Soccer
        &&& m.match_behavior == ExistingMatchBehavior::RestartIfDifferent
        &&& !m.skip_replays && !m.instant_start && !m.enable_lockstep && !m.randomize_map
        &&& !m.enable_rendering && m.enable_state_setting && !m.auto_save_replay
        &&& m.scripts@.len() == 0
        &&& m.mutators == MutatorConfig::default_value()
    }
}

impl Default for MiniMatchConfig {
    fn default() -> (r: Self)
        ensures
            MiniMatchConfig::is_default(r),
    {
        MiniMatchConfig {
            map: MapType::default(),
            game_mode: GameMode::default(),
            match_behavior: ExistingMatchBehavior::default(),
            skip_replays: false,
            instant_start: false,
            enable_lockstep: false,
            randomize_map: false,
            enable_rendering: false,
            enable_state_setting: true,
            auto_save_replay: false,
            scripts: Vec::new(),
            mutators: MutatorConfig::default(),
        }
    }
}

/// The match settings of the GUI.
#[derive(Debug)]
pub struct MatchConfig {
    pub map: MapType,
    pub game_mode: GameMode,
    pub match_behavior: ExistingMatchBehavior,
    pub skip_replays: bool,
    pub instant_start: bool,
    pub enable_lockstep: bool,
    pub randomize_map: bool,
    pub enable_rendering: bool,
    pub enable_state_setting: bool,
    pub auto_save_replay: bool,
    pub scripts: Vec<ScriptConfigBundle>,
    pub mutators: MutatorConfig,
}

impl MatchConfig {
    /// The default match settings: the default map, mode and mutators, no scripts,
    /// and every switch off.
    pub open spec fn is_default(m: MatchConfig) -> bool {
        &&& m.map == MapType::DfhStadium
        &&& m.game_mode == GameMode::Soccer
        &&& m.match_behavior == ExistingMatchBehavior::RestartIfDifferent
        &&& !m.skip_replays && !m.instant_start && !m.enable_lockstep && !m.randomize_map
        &&& !m.enable_rendering && !m.enable_state_setting && !m.auto_save_replay
        &&& m.scripts@.len() == 0
        &&& m.mutators == MutatorConfig::default_value()
    }
}

impl Default for MatchConfig {
    fn default() -> (r: Self)
        ensures
            MatchConfig::is_default(r),
            r.map == MapType::DfhStadium,
            r.game_mode == GameMode::Soccer,
            r.match_behavior == ExistingMatchBehavior::RestartIfDifferent,
            !r.skip_replays && !r.instant_start && !r.enable_lockstep && !r.randomize_map,
            !r.enable_rendering && !r.enable_state_setting && !r.auto_save_replay,
            r.scripts@.len() == 0,
            r.mutators == MutatorConfig::default_value(),
    {
        MatchConfig {
            map: MapType::default(),
            game_mode: GameMode::default(),
            match_behavior: ExistingMatchBehavior::default(),
            skip_replays: false,
            instant_start: false,
            enable_lockstep: false,
            randomize_map: false,
            enable_rendering: false,
            enable_state_setting: false,
            auto_save_replay: false,
            scripts: Vec::new(),
            mutators: MutatorConfig::default(),
        }
    }
}

/// A boolean read with `Ini::getbool`, or `otherwise` when absent or unreadable.
pub open spec fn stored_flag(v: Option<Seq<char>>, otherwise: bool) -> bool {
    match ini_bool(v) {
        Ok(Some(b)) => b,
        _ => otherwise,
    }
}

fn read_flag(conf: &Ini, section: &str, key: &str, otherwise: bool) -> (r: bool)
    ensures
        ini_is_plain(*conf) ==> r == stored_flag(ini_value(ini_entries(*conf), section@, key@), otherwise),
{
    match ini_getbool(conf, section, key) {
        Ok(Some(b)) => b,
        _ => otherwise,
    }
}

fn store_flag(conf: &mut Ini, section: &str, key: &str, b: bool)
    ensures
        ini_is_plain(*final(conf)) == ini_is_plain(*old(conf)),
        ini_is_plain(*old(conf)) ==> ini_entries(*final(conf)) == ini_entries(*old(conf)).insert(
            ini_key(section@, key@),
            Some(if b { "true"@ } else { "false"@ }),
        ),
{
    let text = json_of_bool(b);
    ini_set(conf, section, key, text);
}

impl MatchConfig {
    /// The settings document after the match settings are saved into it, the
    /// scripts as the given JSON text.
    pub open spec fn saved_entries(e: Map<(Seq<char>, Seq<char>), Option<Seq<char>>>, m: MatchConfig, scripts: Option<Seq<char>>) -> Map<(Seq<char>, Seq<char>), Option<Seq<char>>> {
        MutatorConfig::saved_entries(Self::saved_match_entries(e, m, scripts), m.mutators)
    }

    /// The settings document after the match fields, not the mutators, are saved into it.
    pub open spec fn saved_match_entries(e: Map<(Seq<char>, Seq<char>), Option<Seq<char>>>, m: MatchConfig, scripts: Option<Seq<char>>) -> Map<(Seq<char>, Seq<char>), Option<Seq<char>>> {
        e.insert(("match_settings"@, "map"@), Some(json_text_of_str(m.map.label()))).insert(("match_settings"@, "game_mode"@), Some(json_text_of_str(m.game_mode.label()))).insert(("match_settings"@, "match_behavior"@), Some(json_text_of_str(m.match_behavior.label()))).insert(("match_settings"@, "skip_replays"@), Some(if m.skip_replays { "true"@ } else { "false"@ })).insert(("match_settings"@, "instant_start"@), Some(if m.instant_start { "true"@ } else { "false"@ })).insert(("match_settings"@, "enable_lockstep"@), Some(if m.enable_lockstep { "true"@ } else { "false"@ })).insert(("match_settings"@, "randomize_map"@), Some(if m.randomize_map { "true"@ } else { "false"@ })).insert(("match_settings"@, "enable_rendering"@), Some(if m.enable_rendering { "true"@ } else { "false"@ })).insert(("match_settings"@, "enable_state_setting"@), Some(if m.enable_state_setting { "true"@ } else { "false"@ })).insert(("match_settings"@, "auto_save_replay"@), Some(if m.auto_save_replay { "true"@ } else { "false"@ })).insert(("match_settings"@, "scripts"@), scripts)
    }

    /// `r` holds what a settings document says of the match, all but the scripts:
    /// each setting from what is stored under its key, or else its default.
    pub open spec fn read_from(e: Map<(Seq<char>, Seq<char>), Option<Seq<char>>>, r: MatchConfig) -> bool {
        &&& MapType::read_as(stored_label(e, "match_settings"@, "map"@), r.map)
        &&& r.game_mode == GameMode::read_or_default(stored_label(e, "match_settings"@, "game_mode"@))
        &&& r.match_behavior == ExistingMatchBehavior::read_or_default(stored_label(e, "match_settings"@, "match_behavior"@))
        &&& r.skip_replays == stored_flag(ini_value(e, "match_settings"@, "skip_replays"@), false)
        &&& r.instant_start == stored_flag(ini_value(e, "match_settings"@, "instant_start"@), false)
        &&& r.enable_lockstep == stored_flag(ini_value(e, "match_settings"@, "enable_lockstep"@), false)
        &&& r.randomize_map == stored_flag(ini_value(e, "match_settings"@, "randomize_map"@), false)
        &&& r.enable_rendering == stored_flag(ini_value(e, "match_settings"@, "enable_rendering"@), false)
        &&& r.enable_state_setting == stored_flag(ini_value(e, "match_settings"@, "enable_state_setting"@), true)
        &&& r.auto_save_replay == stored_flag(ini_value(e, "match_settings"@, "auto_save_replay"@), false)
        &&& r.mutators == MutatorConfig::from_entries(e)
    }

    /// `a` and `b` agree on every setting but the scripts.
    pub open spec fn same_settings(a: MatchConfig, b: MatchConfig) -> bool {
        &&& MapType::same_map(a.map, b.map)
        &&& a.game_mode == b.game_mode
        &&& a.match_behavior == b.match_behavior
        &&& a.skip_replays == b.skip_replays
        &&& a.instant_start == b.instant_start
        &&& a.enable_lockstep == b.enable_lockstep
        &&& a.randomize_map == b.randomize_map
        &&& a.enable_rendering == b.enable_rendering
        &&& a.enable_state_setting == b.enable_state_setting
        &&& a.auto_save_replay == b.auto_save_replay
        &&& a.mutators == b.mutators
    }

    /// Reads the match settings from the settings document; the scripts, which
    /// are stored as JSON (see `stored_scripts`), are given.
    pub fn load_from_config(conf: &Ini, scripts: Vec<ScriptConfigBundle>) -> (r: Self)
        ensures
            r.scripts == scripts,
            ini_is_plain(*conf) ==> Self::read_from(ini_entries(*conf), r),
    {
        proof {
            reveal_strlit("match_settings");
            assert("match_settings"@ =~= seq!['m', 'a', 't', 'c', 'h', '_', 's', 'e', 't', 't', 'i', 'n', 'g', 's']);
            lemma_lower_ascii_name("match_settings"@);
            reveal_strlit("map");
            assert("map"@ =~= seq!['m', 'a', 'p']);
            lemma_lower_ascii_name("map"@);
            reveal_strlit("game_mode");
            assert("game_mode"@ =~= seq!['g', 'a', 'm', 'e', '_', 'm', 'o', 'd', 'e']);
            lemma_lower_ascii_name("game_mode"@);
            reveal_strlit("match_behavior");
            assert("match_behavior"@ =~= seq!['m', 'a', 't', 'c', 'h', '_', 'b', 'e', 'h', 'a', 'v', 'i', 'o', 'r']);
            lemma_lower_ascii_name("match_behavior"@);
            reveal_strlit("skip_replays");
            assert("skip_replays"@ =~= seq!['s', 'k', 'i', 'p', '_', 'r', 'e', 'p', 'l', 'a', 'y', 's']);
            lemma_lower_ascii_name("skip_replays"@);
            reveal_strlit("instant_start");
            assert("instant_start"@ =~= seq!['i', 'n', 's', 't', 'a', 'n', 't', '_', 's', 't', 'a', 'r', 't']);
            lemma_lower_ascii_name("instant_start"@);
            reveal_strlit("enable_lockstep");
            assert("enable_lockstep"@ =~= seq!['e', 'n', 'a', 'b', 'l', 'e', '_', 'l', 'o', 'c', 'k', 's', 't', 'e', 'p']);
            lemma_lower_ascii_name("enable_lockstep"@);
            reveal_strlit("randomize_map");
            assert("randomize_map"@ =~= seq!['r', 'a', 'n', 'd', 'o', 'm', 'i', 'z', 'e', '_', 'm', 'a', 'p']);
            lemma_lower_ascii_name("randomize_map"@);
            reveal_strlit("enable_rendering");
            assert("enable_rendering"@ =~= seq!['e', 'n', 'a', 'b', 'l', 'e', '_', 'r', 'e', 'n', 'd', 'e', 'r', 'i', 'n', 'g']);
            lemma_lower_ascii_name("enable_rendering"@);
            reveal_strlit("enable_state_setting");
            assert("enable_state_setting"@ =~= seq!['e', 'n', 'a', 'b', 'l', 'e', '_', 's', 't', 'a', 't', 'e', '_', 's', 'e', 't', 't', 'i', 'n', 'g']);
            lemma_lower_ascii_name("enable_state_setting"@);
            reveal_strlit("auto_save_replay");
            assert("auto_save_replay"@ =~= seq!['a', 'u', 't', 'o', '_', 's', 'a', 'v', 'e', '_', 'r', 'e', 'p', 'l', 'a', 'y']);
            lemma_lower_ascii_name("auto_save_replay"@);
        }
        MatchConfig {
            map: MapType::from_stored_label(read_stored_label(conf, "match_settings", "map")),
            game_mode: GameMode::from_stored_label(read_stored_label(conf, "match_settings", "game_mode")),
            match_behavior: ExistingMatchBehavior::from_stored_label(read_stored_label(conf, "match_settings", "match_behavior")),
            skip_replays: read_flag(conf, "match_settings", "skip_replays", false),
            instant_start: read_flag(conf, "match_settings", "instant_start", false),
            enable_lockstep: read_flag(conf, "match_settings", "enable_lockstep", false),
            randomize_map: read_flag(conf, "match_settings", "randomize_map", false),
            enable_rendering: read_flag(conf, "match_settings", "enable_rendering", false),
            enable_state_setting: read_flag(conf, "match_settings", "enable_state_setting", true),
            auto_save_replay: read_flag(conf, "match_settings", "auto_save_replay", false),
            scripts,
            mutators: MutatorConfig::load_from_config(conf),
        }
    }

    /// The JSON text of the scripts stored in the settings document, `[]` when none is.
    pub fn stored_scripts(conf: &Ini) -> (r: String)
        ensures
            ini_is_plain(*conf) ==> r@ == match ini_value(ini_entries(*conf), "match_settings"@, "scripts"@) {
                Some(t) => t,
                None => "[]"@,
            },
    {
        proof {
            reveal_strlit("match_settings");
            assert("match_settings"@ =~= seq!['m', 'a', 't', 'c', 'h', '_', 's', 'e', 't', 't', 'i', 'n', 'g', 's']);
            lemma_lower_ascii_name("match_settings"@);
            reveal_strlit("scripts");
            assert("scripts"@ =~= seq!['s', 'c', 'r', 'i', 'p', 't', 's']);
            lemma_lower_ascii_name("scripts"@);
        }
        match ini_get(conf, "match_settings", "scripts") {
            Some(t) => t,
            None => "[]".to_owned(),
        }
    }

    /// The stored text under a key of the `match_settings` section.
    pub open spec fn match_value(e: Map<(Seq<char>, Seq<char>), Option<Seq<char>>>, key: Seq<char>) -> Option<Seq<char>> {
        ini_value(e, "match_settings"@, key)
    }

    /// What saving the match fields leaves stored: the names as JSON strings, the
    /// switches as `true` or `false`, and the scripts text.
    pub open spec fn holds_match_fields(e: Map<(Seq<char>, Seq<char>), Option<Seq<char>>>, m: MatchConfig, scripts: Option<Seq<char>>) -> bool {
        &&& stored_label(e, "match_settings"@, "map"@) == Some(m.map.label())
        &&& stored_label(e, "match_settings"@, "game_mode"@) == Some(m.game_mode.label())
        &&& stored_label(e, "match_settings"@, "match_behavior"@) == Some(m.match_behavior.label())
        &&& Self::match_value(e, "skip_replays"@) == Some(if m.skip_replays { "true"@ } else { "false"@ })
        &&& Self::match_value(e, "instant_start"@) == Some(if m.instant_start { "true"@ } else { "false"@ })
        &&& Self::match_value(e, "enable_lockstep"@) == Some(if m.enable_lockstep { "true"@ } else { "false"@ })
        &&& Self::match_value(e, "randomize_map"@) == Some(if m.randomize_map { "true"@ } else { "false"@ })
        &&& Self::match_value(e, "enable_rendering"@) == Some(if m.enable_rendering { "true"@ } else { "false"@ })
        &&& Self::match_value(e, "enable_state_setting"@) == Some(if m.enable_state_setting { "true"@ } else { "false"@ })
        &&& Self::match_value(e, "auto_save_replay"@) == Some(if m.auto_save_replay { "true"@ } else { "false"@ })
        &&& Self::match_value(e, "scripts"@) == scripts
    }

    /// Saving the match settings changes nothing outside their two sections.
    pub proof fn lemma_saved_keeps_other_sections(e: Map<(Seq<char>, Seq<char>), Option<Seq<char>>>, m: MatchConfig, scripts: Option<Seq<char>>)
        ensures
            forall|k: (Seq<char>, Seq<char>)| k.0 != "match_settings"@ && k.0 != "mutator_settings"@ ==> (#[trigger] Self::saved_entries(e, m, scripts).contains_key(k) == e.contains_key(k) && (e.contains_key(k) ==> Self::saved_entries(e, m, scripts)[k] == e[k])),
    {
        MutatorConfig::lemma_saved_keeps_other_sections(Self::saved_match_entries(e, m, scripts), m.mutators);
    }

    fn save_match_fields(&self, conf: &mut Ini, scripts_json: Option<String>)
        ensures
            ini_is_plain(*final(conf)) == ini_is_plain(*old(conf)),
            ini_is_plain(*old(conf)) ==> ini_entries(*final(conf)) == Self::saved_match_entries(ini_entries(*old(conf)), *self, opt_view(scripts_json)),
            ini_is_plain(*old(conf)) ==> Self::holds_match_fields(ini_entries(*final(conf)), *self, opt_view(scripts_json)),
    {
        proof {
            reveal_strlit("match_settings");
            assert("match_settings"@ =~= seq!['m', 'a', 't', 'c', 'h', '_', 's', 'e', 't', 't', 'i', 'n', 'g', 's']);
            lemma_lower_ascii_name("match_settings"@);
            reveal_strlit("map");
            assert("map"@ =~= seq!['m', 'a', 'p']);
            lemma_lower_ascii_name("map"@);
            reveal_strlit("game_mode");
            assert("game_mode"@ =~= seq!['g', 'a', 'm', 'e', '_', 'm', 'o', 'd', 'e']);
            lemma_lower_ascii_name("game_mode"@);
            reveal_strlit("match_behavior");
            assert("match_behavior"@ =~= seq!['m', 'a', 't', 'c', 'h', '_', 'b', 'e', 'h', 'a', 'v', 'i', 'o', 'r']);
            lemma_lower_ascii_name("match_behavior"@);
            reveal_strlit("scripts");
            assert("scripts"@ =~= seq!['s', 'c', 'r', 'i', 'p', 't', 's']);
            lemma_lower_ascii_name("scripts"@);
            reveal_strlit("skip_replays");
            assert("skip_replays"@ =~= seq!['s', 'k', 'i', 'p', '_', 'r', 'e', 'p', 'l', 'a', 'y', 's']);
            lemma_lower_ascii_name("skip_replays"@);
            reveal_strlit("instant_start");
            assert("instant_start"@ =~= seq!['i', 'n', 's', 't', 'a', 'n', 't', '_', 's', 't', 'a', 'r', 't']);
            lemma_lower_ascii_name("instant_start"@);
            reveal_strlit("enable_lockstep");
            assert("enable_lockstep"@ =~= seq!['e', 'n', 'a', 'b', 'l', 'e', '_', 'l', 'o', 'c', 'k', 's', 't', 'e', 'p']);
            lemma_lower_ascii_name("enable_lockstep"@);
            reveal_strlit("randomize_map");
            assert("randomize_map"@ =~= seq!['r', 'a', 'n', 'd', 'o', 'm', 'i', 'z', 'e', '_', 'm', 'a', 'p']);
            lemma_lower_ascii_name("randomize_map"@);
            reveal_strlit("enable_rendering");
            assert("enable_rendering"@ =~= seq!['e', 'n', 'a', 'b', 'l', 'e', '_', 'r', 'e', 'n', 'd', 'e', 'r', 'i', 'n', 'g']);
            lemma_lower_ascii_name("enable_rendering"@);
            reveal_strlit("enable_state_setting");
            assert("enable_state_setting"@ =~= seq!['e', 'n', 'a', 'b', 'l', 'e', '_', 's', 't', 'a', 't', 'e', '_', 's', 'e', 't', 't', 'i', 'n', 'g']);
            lemma_lower_ascii_name("enable_state_setting"@);
            reveal_strlit("auto_save_replay");
            assert("auto_save_replay"@ =~= seq!['a', 'u', 't', 'o', '_', 's', 'a', 'v', 'e', '_', 'r', 'e', 'p', 'l', 'a', 'y']);
            lemma_lower_ascii_name("auto_save_replay"@);
        }
        store_label(conf, "match_settings", "map", self.map.as_label());
        store_label(conf, "match_settings", "game_mode", self.game_mode.as_label());
        store_label(conf, "match_settings", "match_behavior", self.match_behavior.as_label());
        store_flag(conf, "match_settings", "skip_replays", self.skip_replays);
        store_flag(conf, "match_settings", "instant_start", self.instant_start);
        store_flag(conf, "match_settings", "enable_lockstep", self.enable_lockstep);
        store_flag(conf, "match_settings", "randomize_map", self.randomize_map);
        store_flag(conf, "match_settings", "enable_rendering", self.enable_rendering);
        store_flag(conf, "match_settings", "enable_state_setting", self.enable_state_setting);
        store_flag(conf, "match_settings", "auto_save_replay", self.auto_save_replay);
        ini_set(conf, "match_settings", "scripts", scripts_json);
    }

    /// Saves the match settings into the settings document, the scripts as the
    /// given JSON text, then the mutators. Reading the document back gives the same
    /// settings, unless the map is a custom map named like a built-in one.
    pub fn save_to_config(&self, conf: &mut Ini, scripts_json: Option<String>)
        ensures
            ini_is_plain(*final(conf)) == ini_is_plain(*old(conf)),
            ini_is_plain(*old(conf)) ==> ini_entries(*final(conf)) == Self::saved_entries(ini_entries(*old(conf)), *self, opt_view(scripts_json)),
            ini_is_plain(*old(conf)) && !MapType::named_like_builtin(self.map) ==>
                forall|r: MatchConfig| Self::read_from(ini_entries(*final(conf)), r) ==> #[trigger] Self::same_settings(r, *self),
            ini_is_plain(*old(conf)) ==> Self::match_value(ini_entries(*final(conf)), "scripts"@) == opt_view(scripts_json),
    {
        let ghost before = ini_entries(*conf);
        self.save_match_fields(conf, scripts_json);
        let ghost middle = ini_entries(*conf);
        self.mutators.save_config(conf);
        proof {
            if ini_is_plain(*old(conf)) {
                let e = ini_entries(*conf);
                MutatorConfig::lemma_saved_keeps_other_sections(middle, self.mutators);
                reveal_strlit("true");
                reveal_strlit("false");
                assert("true"@ =~= seq!['t', 'r', 'u', 'e']);
                assert("false"@ =~= seq!['f', 'a', 'l', 's', 'e']);
                lemma_lower_ascii_name("true"@);
                lemma_lower_ascii_name("false"@);
                lemma_match_keys_in_section();
                assert(Self::holds_match_fields(e, *self, opt_view(scripts_json)));
                self.game_mode.lemma_label_round_trip();
                self.match_behavior.lemma_label_round_trip();
                if !MapType::named_like_builtin(self.map) {
                    assert forall|r: MatchConfig| Self::read_from(e, r) implies #[trigger] Self::same_settings(r, *self) by {
                        self.map.lemma_label_round_trip(r.map);
                    }
                }
            }
        }
    }
}

/// The keys of the match fields are stored as written, in a section other than the mutators'.
/// The names of the mutator settings' section and keys, as stored.
proof fn lemma_mutator_keys()
    ensures
        "mutator_settings"@ == seq!['m', 'u', 't', 'a', 't', 'o', 'r', '_', 's', 'e', 't', 't', 'i', 'n', 'g', 's'],
        lowered("mutator_settings"@) == "mutator_settings"@,
        ascii_lower("mutator_settings"@) == "mutator_settings"@,
        is_ascii_seq("mutator_settings"@),
        "match_length"@ == seq!['m', 'a', 't', 'c', 'h', '_', 'l', 'e', 'n', 'g', 't', 'h'],
        lowered("match_length"@) == "match_length"@,
        ascii_lower("match_length"@) == "match_length"@,
        is_ascii_seq("match_length"@),
        "max_score"@ == seq!['m', 'a', 'x', '_', 's', 'c', 'o', 'r', 'e'],
        lowered("max_score"@) == "max_score"@,
        ascii_lower("max_score"@) == "max_score"@,
        is_ascii_seq("max_score"@),
        "overtime"@ == seq!['o', 'v', 'e', 'r', 't', 'i', 'm', 'e'],
        lowered("overtime"@) == "overtime"@,
        ascii_lower("overtime"@) == "overtime"@,
        is_ascii_seq("overtime"@),
        "series_length"@ == seq!['s', 'e', 'r', 'i', 'e', 's', '_', 'l', 'e', 'n', 'g', 't', 'h'],
        lowered("series_length"@) == "series_length"@,
        ascii_lower("series_length"@) == "series_length"@,
        is_ascii_seq("series_length"@),
        "game_speed"@ == seq!['g', 'a', 'm', 'e', '_', 's', 'p', 'e', 'e', 'd'],
        lowered("game_speed"@) == "game_speed"@,
        ascii_lower("game_speed"@) == "game_speed"@,
        is_ascii_seq("game_speed"@),
        "ball_max_speed"@ == seq!['b', 'a', 'l', 'l', '_', 'm', 'a', 'x', '_', 's', 'p', 'e', 'e', 'd'],
        lowered("ball_max_speed"@) == "ball_max_speed"@,
        ascii_lower("ball_max_speed"@) == "ball_max_speed"@,
        is_ascii_seq("ball_max_speed"@),
        "ball_type"@ == seq!['b', 'a', 'l', 'l', '_', 't', 'y', 'p', 'e'],
        lowered("ball_type"@) == "ball_type"@,
        ascii_lower("ball_type"@) == "ball_type"@,
        is_ascii_seq("ball_type"@),
        "ball_weight"@ == seq!['b', 'a', 'l', 'l', '_', 'w', 'e', 'i', 'g', 'h', 't'],
        lowered("ball_weight"@) == "ball_weight"@,
        ascii_lower("ball_weight"@) == "ball_weight"@,
        is_ascii_seq("ball_weight"@),
        "ball_size"@ == seq!['b', 'a', 'l', 'l', '_', 's', 'i', 'z', 'e'],
        lowered("ball_size"@) == "ball_size"@,
        ascii_lower("ball_size"@) == "ball_size"@,
        is_ascii_seq("ball_size"@),
        "ball_bounciness"@ == seq!['b', 'a', 'l', 'l', '_', 'b', 'o', 'u', 'n', 'c', 'i', 'n', 'e', 's', 's'],
        lowered("ball_bounciness"@) == "ball_bounciness"@,
        ascii_lower("ball_bounciness"@) == "ball_bounciness"@,
        is_ascii_seq("ball_bounciness"@),
        "boost_amount"@ == seq!['b', 'o', 'o', 's', 't', '_', 'a', 'm', 'o', 'u', 'n', 't'],
        lowered("boost_amount"@) == "boost_amount"@,
        ascii_lower("boost_amount"@) == "boost_amount"@,
        is_ascii_seq("boost_amount"@),
        "rumble"@ == seq!['r', 'u', 'm', 'b', 'l', 'e'],
        lowered("rumble"@) == "rumble"@,
        ascii_lower("rumble"@) == "rumble"@,
        is_ascii_seq("rumble"@),
        "boost_strength"@ == seq!['b', 'o', 'o', 's', 't', '_', 's', 't', 'r', 'e', 'n', 'g', 't', 'h'],
        lowered("boost_strength"@) == "boost_strength"@,
        ascii_lower("boost_strength"@) == "boost_strength"@,
        is_ascii_seq("boost_strength"@),
        "gravity"@ == seq!['g', 'r', 'a', 'v', 'i', 't', 'y'],
        lowered("gravity"@) == "gravity"@,
        ascii_lower("gravity"@) == "gravity"@,
        is_ascii_seq("gravity"@),
        "demolish"@ == seq!['d', 'e', 'm', 'o', 'l', 'i', 's', 'h'],
        lowered("demolish"@) == "demolish"@,
        ascii_lower("demolish"@) == "demolish"@,
        is_ascii_seq("demolish"@),
        "respawn_time"@ == seq!['r', 'e', 's', 'p', 'a', 'w', 'n', '_', 't', 'i', 'm', 'e'],
        lowered("respawn_time"@) == "respawn_time"@,
        ascii_lower("respawn_time"@) == "respawn_time"@,
        is_ascii_seq("respawn_time"@),
{
    reveal_strlit("mutator_settings");
    assert("mutator_settings"@ =~= seq!['m', 'u', 't', 'a', 't', 'o', 'r', '_', 's', 'e', 't', 't', 'i', 'n', 'g', 's']);
    lemma_lower_ascii_name("mutator_settings"@);
    reveal_strlit("match_length");
    assert("match_length"@ =~= seq!['m', 'a', 't', 'c', 'h', '_', 'l', 'e', 'n', 'g', 't', 'h']);
    lemma_lower_ascii_name("match_length"@);
    reveal_strlit("max_score");
    assert("max_score"@ =~= seq!['m', 'a', 'x', '_', 's', 'c', 'o', 'r', 'e']);
    lemma_lower_ascii_name("max_score"@);
    reveal_strlit("overtime");
    assert("overtime"@ =~= seq!['o', 'v', 'e', 'r', 't', 'i', 'm', 'e']);
    lemma_lower_ascii_name("overtime"@);
    reveal_strlit("series_length");
    assert("series_length"@ =~= seq!['s', 'e', 'r', 'i', 'e', 's', '_', 'l', 'e', 'n', 'g', 't', 'h']);
    lemma_lower_ascii_name("series_length"@);
    reveal_strlit("game_speed");
    assert("game_speed"@ =~= seq!['g', 'a', 'm', 'e', '_', 's', 'p', 'e', 'e', 'd']);
    lemma_lower_ascii_name("game_speed"@);
    reveal_strlit("ball_max_speed");
    assert("ball_max_speed"@ =~= seq!['b', 'a', 'l', 'l', '_', 'm', 'a', 'x', '_', 's', 'p', 'e', 'e', 'd']);
    lemma_lower_ascii_name("ball_max_speed"@);
    reveal_strlit("ball_type");
    assert("ball_type"@ =~= seq!['b', 'a', 'l', 'l', '_', 't', 'y', 'p', 'e']);
    lemma_lower_ascii_name("ball_type"@);
    reveal_strlit("ball_weight");
    assert("ball_weight"@ =~= seq!['b', 'a', 'l', 'l', '_', 'w', 'e', 'i', 'g', 'h', 't']);
    lemma_lower_ascii_name("ball_weight"@);
    reveal_strlit("ball_size");
    assert("ball_size"@ =~= seq!['b', 'a', 'l', 'l', '_', 's', 'i', 'z', 'e']);
    lemma_lower_ascii_name("ball_size"@);
    reveal_strlit("ball_bounciness");
    assert("ball_bounciness"@ =~= seq!['b', 'a', 'l', 'l', '_', 'b', 'o', 'u', 'n', 'c', 'i', 'n', 'e', 's', 's']);
    lemma_lower_ascii_name("ball_bounciness"@);
    reveal_strlit("boost_amount");
    assert("boost_amount"@ =~= seq!['b', 'o', 'o', 's', 't', '_', 'a', 'm', 'o', 'u', 'n', 't']);
    lemma_lower_ascii_name("boost_amount"@);
    reveal_strlit("rumble");
    assert("rumble"@ =~= seq!['r', 'u', 'm', 'b', 'l', 'e']);
    lemma_lower_ascii_name("rumble"@);
    reveal_strlit("boost_strength");
    assert("boost_strength"@ =~= seq!['b', 'o', 'o', 's', 't', '_', 's', 't', 'r', 'e', 'n', 'g', 't', 'h']);
    lemma_lower_ascii_name("boost_strength"@);
    reveal_strlit("gravity");
    assert("gravity"@ =~= seq!['g', 'r', 'a', 'v', 'i', 't', 'y']);
    lemma_lower_ascii_name("gravity"@);
    reveal_strlit("demolish");
    assert("demolish"@ =~= seq!['d', 'e', 'm', 'o', 'l', 'i', 's', 'h']);
    lemma_lower_ascii_name("demolish"@);
    reveal_strlit("respawn_time");
    assert("respawn_time"@ =~= seq!['r', 'e', 's', 'p', 'a', 'w', 'n', '_', 't', 'i', 'm', 'e']);
    lemma_lower_ascii_name("respawn_time"@);
}

proof fn lemma_match_keys_in_section()
    ensures
        lowered("match_settings"@) == "match_settings"@,
        "match_settings"@ != "mutator_settings"@,
        lowered("map"@) == "map"@,
        lowered("game_mode"@) == "game_mode"@,
        lowered("match_behavior"@) == "match_behavior"@,
        lowered("scripts"@) == "scripts"@,
        lowered("skip_replays"@) == "skip_replays"@,
        lowered("instant_start"@) == "instant_start"@,
        lowered("enable_lockstep"@) == "enable_lockstep"@,
        lowered("randomize_map"@) == "randomize_map"@,
        lowered("enable_rendering"@) == "enable_rendering"@,
        lowered("enable_state_setting"@) == "enable_state_setting"@,
        lowered("auto_save_replay"@) == "auto_save_replay"@,
{
    reveal_strlit("match_settings");
    assert("match_settings"@ =~= seq!['m', 'a', 't', 'c', 'h', '_', 's', 'e', 't', 't', 'i', 'n', 'g', 's']);
    lemma_lower_ascii_name("match_settings"@);
    reveal_strlit("mutator_settings");
    assert("mutator_settings"@ =~= seq!['m', 'u', 't', 'a', 't', 'o', 'r', '_', 's', 'e', 't', 't', 'i', 'n', 'g', 's']);
    lemma_lower_ascii_name("mutator_settings"@);
    reveal_strlit("map");
    assert("map"@ =~= seq!['m', 'a', 'p']);
    lemma_lower_ascii_name("map"@);
    reveal_strlit("game_mode");
    assert("game_mode"@ =~= seq!['g', 'a', 'm', 'e', '_', 'm', 'o', 'd', 'e']);
    lemma_lower_ascii_name("game_mode"@);
    reveal_strlit("match_behavior");
    assert("match_behavior"@ =~= seq!['m', 'a', 't', 'c', 'h', '_', 'b', 'e', 'h', 'a', 'v', 'i', 'o', 'r']);
    lemma_lower_ascii_name("match_behavior"@);
    reveal_strlit("scripts");
    assert("scripts"@ =~= seq!['s', 'c', 'r', 'i', 'p', 't', 's']);
    lemma_lower_ascii_name("scripts"@);
    reveal_strlit("skip_replays");
    assert("skip_replays"@ =~= seq!['s', 'k', 'i', 'p', '_', 'r', 'e', 'p', 'l', 'a', 'y', 's']);
    lemma_lower_ascii_name("skip_replays"@);
    reveal_strlit("instant_start");
    assert("instant_start"@ =~= seq!['i', 'n', 's', 't', 'a', 'n', 't', '_', 's', 't', 'a', 'r', 't']);
    lemma_lower_ascii_name("instant_start"@);
    reveal_strlit("enable_lockstep");
    assert("enable_lockstep"@ =~= seq!['e', 'n', 'a', 'b', 'l', 'e', '_', 'l', 'o', 'c', 'k', 's', 't', 'e', 'p']);
    lemma_lower_ascii_name("enable_lockstep"@);
    reveal_strlit("randomize_map");
    assert("randomize_map"@ =~= seq!['r', 'a', 'n', 'd', 'o', 'm', 'i', 'z', 'e', '_', 'm', 'a', 'p']);
    lemma_lower_ascii_name("randomize_map"@);
    reveal_strlit("enable_rendering");
    assert("enable_rendering"@ =~= seq!['e', 'n', 'a', 'b', 'l', 'e', '_', 'r', 'e', 'n', 'd', 'e', 'r', 'i', 'n', 'g']);
    lemma_lower_ascii_name("enable_rendering"@);
    reveal_strlit("enable_state_setting");
    assert("enable_state_setting"@ =~= seq!['e', 'n', 'a', 'b', 'l', 'e', '_', 's', 't', 'a', 't', 'e', '_', 's', 'e', 't', 't', 'i', 'n', 'g']);
    lemma_lower_ascii_name("enable_state_setting"@);
    reveal_strlit("auto_save_replay");
    assert("auto_save_replay"@ =~= seq!['a', 'u', 't', 'o', '_', 's', 'a', 'v', 'e', '_', 'r', 'e', 'p', 'l', 'a', 'y']);
    lemma_lower_ascii_name("auto_save_replay"@);
}

/// A copy of each item, stripped of what was loaded for display only.
pub fn clean<T: Clean>(items: &[T]) -> (r: Vec<T>)
    ensures
        r@.len() == items@.len(),
        forall|i: int| 0 <= i < items@.len() ==> (#[trigger] r@[i]).is_cleaned_of(&items@[i]),
{
    let mut r: Vec<T> = Vec::new();
    let mut i: usize = 0;
    while i < items.len()
        invariant
            i <= items@.len(),
            r@.len() == i,
            forall|j: int| 0 <= j < i ==> (#[trigger] r@[j]).is_cleaned_of(&items@[j]),
        decreases items.len() - i,
    {
        r.push(items[i].cleaned());
        i = i + 1;
    }
    r
}

impl MatchConfig {
    /// A copy of the settings whose scripts are stripped of what was loaded for display only.
    pub fn cleaned_scripts(&self) -> (r: Self)
        ensures
            r.map == self.map,
            r.game_mode == self.game_mode,
            r.match_behavior == self.match_behavior,
            r.skip_replays == self.skip_replays,
            r.instant_start == self.instant_start,
            r.enable_lockstep == self.enable_lockstep,
            r.randomize_map == self.randomize_map,
            r.enable_rendering == self.enable_rendering,
            r.enable_state_setting == self.enable_state_setting,
            r.auto_save_replay == self.auto_save_replay,
            r.mutators == self.mutators,
            r.scripts@.len() == self.scripts@.len(),
            forall|i: int| 0 <= i < self.scripts@.len() ==> (#[trigger] r.scripts@[i]).is_cleaned_of(&self.scripts@[i]),
    {
        MatchConfig {
            map: self.map.clone(),
            game_mode: self.game_mode,
            match_behavior: self.match_behavior,
            skip_replays: self.skip_replays,
            instant_start: self.instant_start,
            enable_lockstep: self.enable_lockstep,
            randomize_map: self.randomize_map,
            enable_rendering: self.enable_rendering,
            enable_state_setting: self.enable_state_setting,
            auto_save_replay: self.auto_save_replay,
            scripts: clean(self.scripts.as_slice()),
            mutators: self.mutators,
        }
    }
}

/// A group of bots recommended together.
#[derive(Debug)]
pub struct Recommendation<T> {
    pub bots: Vec<T>,
}

impl<T> Recommendation<T> {
    /// The same group with each bot replaced by what `f` makes of it.
    pub fn change_generic<U, F: Fn(&T) -> U>(&self, f: &F) -> (r: Recommendation<U>)
        requires
            forall|x: &T| #[trigger] f.requires((x,)),
        ensures
            r.bots@.len() == self.bots@.len(),
            forall|i: int| 0 <= i < self.bots@.len() ==> f.ensures((&self.bots@[i],), #[trigger] r.bots@[i]),
    {
        let mut bots: Vec<U> = Vec::new();
        let mut i: usize = 0;
        while i < self.bots.len()
            invariant
                forall|x: &T| #[trigger] f.requires((x,)),
                i <= self.bots@.len(),
                bots@.len() == i,
                forall|j: int| 0 <= j < i ==> f.ensures((&self.bots@[j],), #[trigger] bots@[j]),
            decreases self.bots.len() - i,
        {
            bots.push(f(&self.bots[i]));
            i = i + 1;
        }
        Recommendation { bots }
    }
}

/// All groups of recommended bots.
#[derive(Debug)]
pub struct AllRecommendations<T> {
    pub recommendations: Vec<Recommendation<T>>,
}

impl<T> AllRecommendations<T> {
    /// `r` has the groups of `self`, in order, each bot replaced by what `f`
    /// makes of it.
    pub open spec fn mapped_into<U, F: Fn(&T) -> U>(self, r: AllRecommendations<U>, f: F) -> bool {
        &&& r.recommendations@.len() == self.recommendations@.len()
        &&& forall|i: int| 0 <= i < self.recommendations@.len() ==> {
            &&& (#[trigger] r.recommendations@[i]).bots@.len() == self.recommendations@[i].bots@.len()
            &&& forall|j: int| 0 <= j < self.recommendations@[i].bots@.len() ==> f.ensures(
                (&self.recommendations@[i].bots@[j],),
                #[trigger] r.recommendations@[i].bots@[j],
            )
        }
    }

    /// The same groups with each bot replaced by what `f` makes of it.
    pub fn change_generic<U, F: Fn(&T) -> U>(&self, f: &F) -> (r: AllRecommendations<U>)
        requires
            forall|x: &T| #[trigger] f.requires((x,)),
        ensures
            self.mapped_into(r, *f),
    {
        let mut recommendations: Vec<Recommendation<U>> = Vec::new();
        let mut i: usize = 0;
        while i < self.recommendations.len()
            invariant
                forall|x: &T| #[trigger] f.requires((x,)),
                i <= self.recommendations@.len(),
                recommendations@.len() == i,
                forall|k: int| 0 <= k < i ==> {
                    &&& (#[trigger] recommendations@[k]).bots@.len() == self.recommendations@[k].bots@.len()
                    &&& forall|j: int| 0 <= j < self.recommendations@[k].bots@.len() ==> f.ensures(
                        (&self.recommendations@[k].bots@[j],),
                        #[trigger] recommendations@[k].bots@[j],
                    )
                },
            decreases self.recommendations.len() - i,
        {
            recommendations.push(self.recommendations[i].change_generic(f));
            i = i + 1;
        }
        AllRecommendations { recommendations }
    }
}

/// Two collections of groups hold the same bots, group by group and in order.
pub open spec fn same_groups<T>(a: AllRecommendations<T>, b: AllRecommendations<T>) -> bool {
    &&& a.recommendations@.len() == b.recommendations@.len()
    &&& forall|i: int| 0 <= i < a.recommendations@.len() ==> (#[trigger] a.recommendations@[i]).bots@ == b.recommendations@[i].bots@
}

/// `change_generic` composes: changing the bots by `f` and then by `g` gives the
/// groups that changing them once by `h` gives, where `h` makes of a bot what `g`
/// makes of what `f` makes of it, and makes one thing of each bot (`a`, `b`, `c`
/// and `d` stand for the groups before and after each `change_generic`).
pub proof fn lemma_change_generic_compose<T, U, V, F: Fn(&T) -> U, G: Fn(&U) -> V, H: Fn(&T) -> V>(
    a: AllRecommendations<T>,
    b: AllRecommendations<U>,
    c: AllRecommendations<V>,
    d: AllRecommendations<V>,
    f: F,
    g: G,
    h: H,
)
    requires
        a.mapped_into(b, f),
        b.mapped_into(c, g),
        a.mapped_into(d, h),
        forall|x: &T, y: U, z: V| #![trigger f.ensures((x,), y), g.ensures((&y,), z)] f.ensures((x,), y) && g.ensures((&y,), z) ==> h.ensures((x,), z),
        forall|x: &T, z1: V, z2: V| #![trigger h.ensures((x,), z1), h.ensures((x,), z2)] h.ensures((x,), z1) && h.ensures((x,), z2) ==> z1 == z2,
    ensures
        same_groups(c, d),
{
    assert forall|i: int| 0 <= i < c.recommendations@.len() implies (#[trigger] c.recommendations@[i]).bots@ == d.recommendations@[i].bots@ by {
        let _ = b.recommendations@[i];
        let _ = d.recommendations@[i];
        assert forall|j: int| 0 <= j < c.recommendations@[i].bots@.len() implies c.recommendations@[i].bots@[j] == d.recommendations@[i].bots@[j] by {
            let x = &a.recommendations@[i].bots@[j];
            let y = b.recommendations@[i].bots@[j];
            assert(f.ensures((x,), y));
            assert(g.ensures((&y,), c.recommendations@[i].bots@[j]));
            assert(h.ensures((x,), d.recommendations@[i].bots@[j]));
        }
        assert(c.recommendations@[i].bots@ =~= d.recommendations@[i].bots@);
    }
}

/// `change_generic` by a function that gives back what it is given, such as a
/// copy, leaves the groups as they were.
pub proof fn lemma_change_generic_identity<T, F: Fn(&T) -> T>(a: AllRecommendations<T>, b: AllRecommendations<T>, f: F)
    requires
        a.mapped_into(b, f),
        forall|x: &T, y: T| #[trigger] f.ensures((x,), y) ==> y == *x,
    ensures
        same_groups(b, a),
{
    assert forall|i: int| 0 <= i < b.recommendations@.len() implies (#[trigger] b.recommendations@[i]).bots@ == a.recommendations@[i].bots@ by {
        let _ = a.recommendations@[i];
        assert forall|j: int| 0 <= j < b.recommendations@[i].bots@.len() implies b.recommendations@[i].bots@[j] == a.recommendations@[i].bots@[j] by {
            assert(f.ensures((&a.recommendations@[i].bots@[j],), b.recommendations@[i].bots@[j]));
        }
        assert(b.recommendations@[i].bots@ =~= a.recommendations@[i].bots@);
    }
}

/// The outcome of installing packages: pip's exit code and the packages asked for.
#[derive(Debug, Clone)]
pub struct PackageResult {
    pub exit_code: i32,
    pub packages: Vec<String>,
}

impl PackageResult {
    /// The outcome of installing `packages`, pip having exited with `exit_code`.
    pub fn new(exit_code: i32, packages: Vec<String>) -> (r: Self)
        ensures
            r.exit_code == exit_code,
            r.packages == packages,
    {
        PackageResult { exit_code, packages }
    }
}

impl Default for PackageResult {
    fn default() -> (r: Self)
        ensures
            r.exit_code == 0,
            r.packages@.len() == 0,
    {
        PackageResult { exit_code: 0, packages: Vec::new() }
    }
}

/// The missing python packages found for the bundle at `index`.
#[derive(Debug, Clone)]
pub struct MissingPackagesUpdate {
    pub index: usize,
    pub warn: Option<String>,
    pub missing_packages: Option<Vec<String>>,
}

/// The logo loaded for the bundle at `index`.
#[derive(Debug, Clone)]
pub struct LogoUpdate {
    pub index: usize,
    pub logo: String,
}

/// How Rocket League is launched.
#[derive(Debug)]
pub struct LauncherConfig {
    pub preferred_launcher: String,
    pub use_login_tricks: bool,
    pub rocket_league_exe_path: Option<String>,
}

impl LauncherConfig {
    /// The stored text under a key of the `launcher_settings` section.
    pub open spec fn launcher_value(e: Map<(Seq<char>, Seq<char>), Option<Seq<char>>>, key: Seq<char>) -> Option<Seq<char>> {
        ini_value(e, "launcher_settings"@, key)
    }

    /// `r` holds what a settings document says of the launcher: the launcher named,
    /// else `epic`; the login tricks switch, else on; the executable's path, if any.
    pub open spec fn read_from(e: Map<(Seq<char>, Seq<char>), Option<Seq<char>>>, r: LauncherConfig) -> bool {
        &&& r.preferred_launcher@ == match Self::launcher_value(e, "preferred_launcher"@) {
            Some(t) => t,
            None => "epic"@,
        }
        &&& r.use_login_tricks == stored_flag(Self::launcher_value(e, "use_login_tricks"@), true)
        &&& opt_view(r.rocket_league_exe_path) == Self::launcher_value(e, "rocket_league_exe_path"@)
    }

    /// Reads the launcher settings from the settings document.
    pub fn load_from_config(conf: &Ini) -> (r: Self)
        ensures
            ini_is_plain(*conf) ==> Self::read_from(ini_entries(*conf), r),
    {
        proof { lemma_launcher_keys(); }
        let preferred_launcher = match ini_get(conf, "launcher_settings", "preferred_launcher") {
            Some(t) => t,
            None => "epic".to_owned(),
        };
        LauncherConfig {
            preferred_launcher,
            use_login_tricks: read_flag(conf, "launcher_settings", "use_login_tricks", true),
            rocket_league_exe_path: ini_get(conf, "launcher_settings", "rocket_league_exe_path"),
        }
    }

    /// Writes the launcher settings into the settings document; reading them back
    /// gives them again.
    pub fn write_to_config(self, conf: &mut Ini)
        ensures
            ini_is_plain(*final(conf)) == ini_is_plain(*old(conf)),
            ini_is_plain(*old(conf)) ==> ini_entries(*final(conf)) == ini_entries(*old(conf))
                .insert(("launcher_settings"@, "preferred_launcher"@), Some(self.preferred_launcher@))
                .insert(("launcher_settings"@, "use_login_tricks"@), Some(if self.use_login_tricks { "true"@ } else { "false"@ }))
                .insert(("launcher_settings"@, "rocket_league_exe_path"@), opt_view(self.rocket_league_exe_path)),
            ini_is_plain(*old(conf)) ==> forall|r: LauncherConfig| #[trigger] Self::read_from(ini_entries(*final(conf)), r) ==> {
                &&& r.preferred_launcher@ == self.preferred_launcher@
                &&& r.use_login_tricks == self.use_login_tricks
                &&& opt_view(r.rocket_league_exe_path) == opt_view(self.rocket_league_exe_path)
            },
    {
        proof { lemma_launcher_keys(); }
        let ghost launcher = self.preferred_launcher@;
        let ghost tricks = self.use_login_tricks;
        let ghost path = opt_view(self.rocket_league_exe_path);
        ini_set(conf, "launcher_settings", "preferred_launcher", Some(self.preferred_launcher));
        let tricks_text = if self.use_login_tricks { "true".to_owned() } else { "false".to_owned() };
        ini_set(conf, "launcher_settings", "use_login_tricks", Some(tricks_text));
        ini_set(conf, "launcher_settings", "rocket_league_exe_path", self.rocket_league_exe_path);
        proof {
            reveal_strlit("true");
            reveal_strlit("false");
            assert("true"@ =~= seq!['t', 'r', 'u', 'e']);
            assert("false"@ =~= seq!['f', 'a', 'l', 's', 'e']);
            lemma_lower_ascii_name("true"@);
            lemma_lower_ascii_name("false"@);
        }
    }
}

proof fn lemma_launcher_keys()
    ensures
        is_ascii_seq("launcher_settings"@),
        lowered("launcher_settings"@) == "launcher_settings"@,
        lowered("preferred_launcher"@) == "preferred_launcher"@,
        lowered("use_login_tricks"@) == "use_login_tricks"@,
        lowered("rocket_league_exe_path"@) == "rocket_league_exe_path"@,
        is_ascii_seq("preferred_launcher"@),
        is_ascii_seq("use_login_tricks"@),
        is_ascii_seq("rocket_league_exe_path"@),
        "preferred_launcher"@ != "use_login_tricks"@,
        "preferred_launcher"@ != "rocket_league_exe_path"@,
        "use_login_tricks"@ != "rocket_league_exe_path"@,
{
    reveal_strlit("launcher_settings");
    assert("launcher_settings"@ =~= seq!['l', 'a', 'u', 'n', 'c', 'h', 'e', 'r', '_', 's', 'e', 't', 't', 'i', 'n', 'g', 's']);
    lemma_lower_ascii_name("launcher_settings"@);
    reveal_strlit("preferred_launcher");
    assert("preferred_launcher"@ =~= seq!['p', 'r', 'e', 'f', 'e', 'r', 'r', 'e', 'd', '_', 'l', 'a', 'u', 'n', 'c', 'h', 'e', 'r']);
    lemma_lower_ascii_name("preferred_launcher"@);
    reveal_strlit("use_login_tricks");
    assert("use_login_tricks"@ =~= seq!['u', 's', 'e', '_', 'l', 'o', 'g', 'i', 'n', '_', 't', 'r', 'i', 'c', 'k', 's']);
    lemma_lower_ascii_name("use_login_tricks"@);
    reveal_strlit("rocket_league_exe_path");
    assert("rocket_league_exe_path"@ =~= seq!['r', 'o', 'c', 'k', 'e', 't', '_', 'l', 'e', 'a', 'g', 'u', 'e', '_', 'e', 'x', 'e', '_', 'p', 'a', 't', 'h']);
    lemma_lower_ascii_name("rocket_league_exe_path"@);
}

/// Whether a bot folder or file is shown.
#[derive(Clone, Copy, Debug, PartialEq, Eq, Structural)]
pub struct BotFolder {
    pub visible: bool,
}

/// The folders and files the GUI looks for bots in, by path.
pub struct BotFolders {
    pub files: StrMap<BotFolder>,
    pub folders: StrMap<BotFolder>,
}

/// The bot folder settings: the folders and files the GUI looks for bots in.
pub type BotFolderSettings = BotFolders;

impl Default for BotFolders {
    fn default() -> (r: Self)
        ensures
            r.files@ == Map::<Seq<char>, BotFolder>::empty(),
            r.folders@ == Map::<Seq<char>, BotFolder>::empty(),
    {
        BotFolders { files: StrMap::new(), folders: StrMap::new() }
    }
}

impl BotFolders {
    /// Adds a folder to look for bots in, shown.
    pub fn add_folder(&mut self, path: String)
        ensures
            final(self).folders@ == old(self).folders@.insert(path@, BotFolder { visible: true }),
            final(self).files@ == old(self).files@,
    {
        self.folders.insert(path, BotFolder { visible: true });
    }

    /// Adds a bot file, shown.
    pub fn add_file(&mut self, path: String)
        ensures
            final(self).files@ == old(self).files@.insert(path@, BotFolder { visible: true }),
            final(self).folders@ == old(self).folders@,
    {
        self.files.insert(path, BotFolder { visible: true });
    }
}

impl MiniMatchConfig {
    /// The match ready to start: a custom map is replaced by the path of its file,
    /// as found in the bot folders (`found_map_path`); an error names a custom map
    /// that was not found.
    pub fn setup_for_start_match(self, found_map_path: Option<String>) -> (r: Result<Self, String>)
        ensures
            match self.map {
                MapType::Custom(name) => match found_map_path {
                    None => r matches Err(e) && e@ == "Failed to find custom map "@ + name@,
                    Some(path) => r matches Ok(m) && m.map == MapType::Custom(path) && m.game_mode == self.game_mode
                        && m.match_behavior == self.match_behavior && m.scripts == self.scripts && m.mutators == self.mutators
                        && m.skip_replays == self.skip_replays && m.instant_start == self.instant_start
                        && m.enable_lockstep == self.enable_lockstep && m.randomize_map == self.randomize_map
                        && m.enable_rendering == self.enable_rendering && m.enable_state_setting == self.enable_state_setting
                        && m.auto_save_replay == self.auto_save_replay,
                },
                _ => r == Ok::<MiniMatchConfig, String>(self),
            },
    {
        let is_custom = match &self.map {
            MapType::Custom(_) => true,
            _ => false,
        };
        if !is_custom {
            return Ok(self);
        }
        match found_map_path {
            Some(path) => {
                let mut new = self;
                new.map = MapType::Custom(path);
                Ok(new)
            },
            None => {
                let mut msg = "Failed to find custom map ".to_owned();
                match &self.map {
                    MapType::Custom(name) => msg.append(name.as_str()),
                    _ => {},
                }
                Err(msg)
            },
        }
    }
}

impl BotFolders {
    /// The JSON texts of the bot files and folders stored in the settings document,
    /// `[]` for each that is not.
    pub fn stored_texts(conf: &Ini) -> (r: (String, String))
        ensures
            ini_is_plain(*conf) ==> r.0@ == match ini_value(ini_entries(*conf), "bot_folder_settings"@, "files"@) {
                Some(t) => t,
                None => "[]"@,
            },
            ini_is_plain(*conf) ==> r.1@ == match ini_value(ini_entries(*conf), "bot_folder_settings"@, "folders"@) {
                Some(t) => t,
                None => "[]"@,
            },
    {
        proof {
            reveal_strlit("bot_folder_settings");
            reveal_strlit("files");
            reveal_strlit("folders");
            assert("bot_folder_settings"@ =~= seq!['b', 'o', 't', '_', 'f', 'o', 'l', 'd', 'e', 'r', '_', 's', 'e', 't', 't', 'i', 'n', 'g', 's']);
            assert("files"@ =~= seq!['f', 'i', 'l', 'e', 's']);
            assert("folders"@ =~= seq!['f', 'o', 'l', 'd', 'e', 'r', 's']);
        }
        let files = match ini_get(conf, "bot_folder_settings", "files") {
            Some(t) => t,
            None => "[]".to_owned(),
        };
        let folders = match ini_get(conf, "bot_folder_settings", "folders") {
            Some(t) => t,
            None => "[]".to_owned(),
        };
        (files, folders)
    }
}

impl BotFolders {
    /// The shown folders, searched for bots and scripts, in the order they were added.
    pub fn visible_folders(&self) -> (r: Vec<String>)
        ensures
            crate::text::views(r@) == shown_paths(self.folders.entry_seq()),
    {
        get_search_folders(&self.folders)
    }

    /// The shown bot files, in the order they were added.
    pub fn visible_files(&self) -> (r: Vec<String>)
        ensures
            crate::text::views(r@) == shown_paths(self.files.entry_seq()),
    {
        get_search_folders(&self.files)
    }
}

} // verus!
