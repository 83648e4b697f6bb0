//! The looks of a bot, as its looks `.cfg` file describes them: loadout and paint
//! for each team.

use vstd::prelude::*;
use configparser::ini::Ini;
use crate::bot_config_bundle::value_or_empty;
use crate::config_store::{ini_entries, ini_get, ini_is_plain, ini_key, ini_set, ini_value, lemma_lower_ascii_name, lowered};
use crate::text::{ascii_lower, is_ascii_seq};

verus! {

/// Section holding the blue loadout.
pub open spec fn loadout_header() -> Seq<char> {
    "Bot Loadout"@
}

/// Section holding the orange loadout.
pub open spec fn loadout_orange_header() -> Seq<char> {
    "Bot Loadout Orange"@
}

/// Section holding the blue paint.
pub open spec fn paint_blue_header() -> Seq<char> {
    "Bot Paint Blue"@
}

/// Section holding the orange paint.
pub open spec fn paint_orange_header() -> Seq<char> {
    "Bot Paint Orange"@
}

fn or_empty(v: Option<String>) -> (r: String)
    ensures
        r@ == value_or_empty(match v { Some(s) => Some(s@), None => None }),
{
    match v {
        Some(t) => t,
        None => String::new(),
    }
}

/// The loadout and paint of a bot on one team, each item by its id.
#[derive(Debug, Clone)]
pub struct BotTeamLooksConfig {
    pub team_color_id: String,
    pub custom_color_id: String,
    pub car_id: String,
    pub decal_id: String,
    pub wheels_id: String,
    pub boost_id: String,
    pub antenna_id: String,
    pub hat_id: String,
    pub paint_finish_id: String,
    pub custom_finish_id: String,
    pub engine_audio_id: String,
    pub trails_id: String,
    pub goal_explosion_id: String,
    pub primary_color_lookup: String,
    pub secondary_color_lookup: String,
    pub car_paint_id: String,
    pub decal_paint_id: String,
    pub wheels_paint_id: String,
    pub boost_paint_id: String,
    pub antenna_paint_id: String,
    pub hat_paint_id: String,
    pub trails_paint_id: String,
    pub goal_explosion_paint_id: String,
}

impl BotTeamLooksConfig {
    /// `r` holds what the document says of one team's looks: each loadout item from
    /// the loadout section and each paint from the paint section, empty when absent.
    pub open spec fn read_from(e: Map<(Seq<char>, Seq<char>), Option<Seq<char>>>, loadout: Seq<char>, paint: Seq<char>, r: BotTeamLooksConfig) -> bool {
        &&& r.team_color_id@ == value_or_empty(ini_value(e, loadout, "team_color_id"@))
        &&& r.custom_color_id@ == value_or_empty(ini_value(e, loadout, "custom_color_id"@))
        &&& r.car_id@ == value_or_empty(ini_value(e, loadout, "car_id"@))
        &&& r.decal_id@ == value_or_empty(ini_value(e, loadout, "decal_id"@))
        &&& r.wheels_id@ == value_or_empty(ini_value(e, loadout, "wheels_id"@))
        &&& r.boost_id@ == value_or_empty(ini_value(e, loadout, "boost_id"@))
        &&& r.antenna_id@ == value_or_empty(ini_value(e, loadout, "antenna_id"@))
        &&& r.hat_id@ == value_or_empty(ini_value(e, loadout, "hat_id"@))
        &&& r.paint_finish_id@ == value_or_empty(ini_value(e, loadout, "paint_finish_id"@))
        &&& r.custom_finish_id@ == value_or_empty(ini_value(e, loadout, "custom_finish_id"@))
        &&& r.engine_audio_id@ == value_or_empty(ini_value(e, loadout, "engine_audio_id"@))
        &&& r.trails_id@ == value_or_empty(ini_value(e, loadout, "trails_id"@))
        &&& r.goal_explosion_id@ == value_or_empty(ini_value(e, loadout, "goal_explosion_id"@))
        &&& r.primary_color_lookup@ == value_or_empty(ini_value(e, loadout, "primary_color_lookup"@))
        &&& r.secondary_color_lookup@ == value_or_empty(ini_value(e, loadout, "secondary_color_lookup"@))
        &&& r.car_paint_id@ == value_or_empty(ini_value(e, paint, "car_paint_id"@))
        &&& r.decal_paint_id@ == value_or_empty(ini_value(e, paint, "decal_paint_id"@))
        &&& r.wheels_paint_id@ == value_or_empty(ini_value(e, paint, "wheels_paint_id"@))
        &&& r.boost_paint_id@ == value_or_empty(ini_value(e, paint, "boost_paint_id"@))
        &&& r.antenna_paint_id@ == value_or_empty(ini_value(e, paint, "antenna_paint_id"@))
        &&& r.hat_paint_id@ == value_or_empty(ini_value(e, paint, "hat_paint_id"@))
        &&& r.trails_paint_id@ == value_or_empty(ini_value(e, paint, "trails_paint_id"@))
        &&& r.goal_explosion_paint_id@ == value_or_empty(ini_value(e, paint, "goal_explosion_paint_id"@))
    }

    /// `a` and `b` are the same looks.
    pub open spec fn same_looks(a: BotTeamLooksConfig, b: BotTeamLooksConfig) -> bool {
        &&& a.team_color_id@ == b.team_color_id@
        &&& a.custom_color_id@ == b.custom_color_id@
        &&& a.car_id@ == b.car_id@
        &&& a.decal_id@ == b.decal_id@
        &&& a.wheels_id@ == b.wheels_id@
        &&& a.boost_id@ == b.boost_id@
        &&& a.antenna_id@ == b.antenna_id@
        &&& a.hat_id@ == b.hat_id@
        &&& a.paint_finish_id@ == b.paint_finish_id@
        &&& a.custom_finish_id@ == b.custom_finish_id@
        &&& a.engine_audio_id@ == b.engine_audio_id@
        &&& a.trails_id@ == b.trails_id@
        &&& a.goal_explosion_id@ == b.goal_explosion_id@
        &&& a.primary_color_lookup@ == b.primary_color_lookup@
        &&& a.secondary_color_lookup@ == b.secondary_color_lookup@
        &&& a.car_paint_id@ == b.car_paint_id@
        &&& a.decal_paint_id@ == b.decal_paint_id@
        &&& a.wheels_paint_id@ == b.wheels_paint_id@
        &&& a.boost_paint_id@ == b.boost_paint_id@
        &&& a.antenna_paint_id@ == b.antenna_paint_id@
        &&& a.hat_paint_id@ == b.hat_paint_id@
        &&& a.trails_paint_id@ == b.trails_paint_id@
        &&& a.goal_explosion_paint_id@ == b.goal_explosion_paint_id@
    }

    /// The document after one team's looks are written into it.
    pub open spec fn saved_entries(e: Map<(Seq<char>, Seq<char>), Option<Seq<char>>>, loadout: Seq<char>, paint: Seq<char>, x: BotTeamLooksConfig) -> Map<(Seq<char>, Seq<char>), Option<Seq<char>>> {
        e.insert(ini_key(loadout, "team_color_id"@), Some(x.team_color_id@)).insert(ini_key(loadout, "custom_color_id"@), Some(x.custom_color_id@)).insert(ini_key(loadout, "car_id"@), Some(x.car_id@)).insert(ini_key(loadout, "decal_id"@), Some(x.decal_id@)).insert(ini_key(loadout, "wheels_id"@), Some(x.wheels_id@)).insert(ini_key(loadout, "boost_id"@), Some(x.boost_id@)).insert(ini_key(loadout, "antenna_id"@), Some(x.antenna_id@)).insert(ini_key(loadout, "hat_id"@), Some(x.hat_id@)).insert(ini_key(loadout, "paint_finish_id"@), Some(x.paint_finish_id@)).insert(ini_key(loadout, "custom_finish_id"@), Some(x.custom_finish_id@)).insert(ini_key(loadout, "engine_audio_id"@), Some(x.engine_audio_id@)).insert(ini_key(loadout, "trails_id"@), Some(x.trails_id@)).insert(ini_key(loadout, "goal_explosion_id"@), Some(x.goal_explosion_id@)).insert(ini_key(loadout, "primary_color_lookup"@), Some(x.primary_color_lookup@)).insert(ini_key(loadout, "secondary_color_lookup"@), Some(x.secondary_color_lookup@)).insert(ini_key(paint, "car_paint_id"@), Some(x.car_paint_id@)).insert(ini_key(paint, "decal_paint_id"@), Some(x.decal_paint_id@)).insert(ini_key(paint, "wheels_paint_id"@), Some(x.wheels_paint_id@)).insert(ini_key(paint, "boost_paint_id"@), Some(x.boost_paint_id@)).insert(ini_key(paint, "antenna_paint_id"@), Some(x.antenna_paint_id@)).insert(ini_key(paint, "hat_paint_id"@), Some(x.hat_paint_id@)).insert(ini_key(paint, "trails_paint_id"@), Some(x.trails_paint_id@)).insert(ini_key(paint, "goal_explosion_paint_id"@), Some(x.goal_explosion_paint_id@))
    }

    /// Writing one team's looks changes nothing outside its two sections.
    pub proof fn lemma_saved_keeps_other_sections(e: Map<(Seq<char>, Seq<char>), Option<Seq<char>>>, loadout: Seq<char>, paint: Seq<char>, x: BotTeamLooksConfig)
        ensures
            forall|k: (Seq<char>, Seq<char>)| k.0 != lowered(loadout) && k.0 != lowered(paint) ==> (#[trigger] Self::saved_entries(e, loadout, paint, x).contains_key(k) == e.contains_key(k) && (e.contains_key(k) ==> Self::saved_entries(e, loadout, paint, x)[k] == e[k])),
    {
    }

    /// Reads one team's looks from a looks document.
    pub fn from_config(config: &Ini, loadout_header: &str, paint_header: &str) -> (r: Self)
        ensures
            ini_is_plain(*config) ==> Self::read_from(ini_entries(*config), loadout_header@, paint_header@, r),
    {
        proof { lemma_looks_keys(); }
        BotTeamLooksConfig {
            team_color_id: or_empty(ini_get(config, loadout_header, "team_color_id")),
            custom_color_id: or_empty(ini_get(config, loadout_header, "custom_color_id")),
            car_id: or_empty(ini_get(config, loadout_header, "car_id")),
            decal_id: or_empty(ini_get(config, loadout_header, "decal_id")),
            wheels_id: or_empty(ini_get(config, loadout_header, "wheels_id")),
            boost_id: or_empty(ini_get(config, loadout_header, "boost_id")),
            antenna_id: or_empty(ini_get(config, loadout_header, "antenna_id")),
            hat_id: or_empty(ini_get(config, loadout_header, "hat_id")),
            paint_finish_id: or_empty(ini_get(config, loadout_header, "paint_finish_id")),
            custom_finish_id: or_empty(ini_get(config, loadout_header, "custom_finish_id")),
            engine_audio_id: or_empty(ini_get(config, loadout_header, "engine_audio_id")),
            trails_id: or_empty(ini_get(config, loadout_header, "trails_id")),
            goal_explosion_id: or_empty(ini_get(config, loadout_header, "goal_explosion_id")),
            primary_color_lookup: or_empty(ini_get(config, loadout_header, "primary_color_lookup")),
            secondary_color_lookup: or_empty(ini_get(config, loadout_header, "secondary_color_lookup")),
            car_paint_id: or_empty(ini_get(config, paint_header, "car_paint_id")),
            decal_paint_id: or_empty(ini_get(config, paint_header, "decal_paint_id")),
            wheels_paint_id: or_empty(ini_get(config, paint_header, "wheels_paint_id")),
            boost_paint_id: or_empty(ini_get(config, paint_header, "boost_paint_id")),
            antenna_paint_id: or_empty(ini_get(config, paint_header, "antenna_paint_id")),
            hat_paint_id: or_empty(ini_get(config, paint_header, "hat_paint_id")),
            trails_paint_id: or_empty(ini_get(config, paint_header, "trails_paint_id")),
            goal_explosion_paint_id: or_empty(ini_get(config, paint_header, "goal_explosion_paint_id")),
        }
    }

    /// Writes one team's looks into a looks document; reading them back gives them again.
    pub fn save_to_config(&self, config: &mut Ini, loadout_header: &str, paint_header: &str)
        ensures
            ini_is_plain(*final(config)) == ini_is_plain(*old(config)),
            ini_is_plain(*old(config)) ==> ini_entries(*final(config)) == Self::saved_entries(ini_entries(*old(config)), loadout_header@, paint_header@, *self),
            ini_is_plain(*old(config)) ==> forall|r: BotTeamLooksConfig|
                #[trigger] Self::read_from(ini_entries(*final(config)), loadout_header@, paint_header@, r) ==> Self::same_looks(r, *self),
    {
        proof { lemma_looks_keys(); }
        ini_set(config, loadout_header, "team_color_id", Some(self.team_color_id.clone()));
        ini_set(config, loadout_header, "custom_color_id", Some(self.custom_color_id.clone()));
        ini_set(config, loadout_header, "car_id", Some(self.car_id.clone()));
        ini_set(config, loadout_header, "decal_id", Some(self.decal_id.clone()));
        ini_set(config, loadout_header, "wheels_id", Some(self.wheels_id.clone()));
        ini_set(config, loadout_header, "boost_id", Some(self.boost_id.clone()));
        ini_set(config, loadout_header, "antenna_id", Some(self.antenna_id.clone()));
        ini_set(config, loadout_header, "hat_id", Some(self.hat_id.clone()));
        ini_set(config, loadout_header, "paint_finish_id", Some(self.paint_finish_id.clone()));
        ini_set(config, loadout_header, "custom_finish_id", Some(self.custom_finish_id.clone()));
        ini_set(config, loadout_header, "engine_audio_id", Some(self.engine_audio_id.clone()));
        ini_set(config, loadout_header, "trails_id", Some(self.trails_id.clone()));
        ini_set(config, loadout_header, "goal_explosion_id", Some(self.goal_explosion_id.clone()));
        ini_set(config, loadout_header, "primary_color_lookup", Some(self.primary_color_lookup.clone()));
        ini_set(config, loadout_header, "secondary_color_lookup", Some(self.secondary_color_lookup.clone()));
        ini_set(config, paint_header, "car_paint_id", Some(self.car_paint_id.clone()));
        ini_set(config, paint_header, "decal_paint_id", Some(self.decal_paint_id.clone()));
        ini_set(config, paint_header, "wheels_paint_id", Some(self.wheels_paint_id.clone()));
        ini_set(config, paint_header, "boost_paint_id", Some(self.boost_paint_id.clone()));
        ini_set(config, paint_header, "antenna_paint_id", Some(self.antenna_paint_id.clone()));
        ini_set(config, paint_header, "hat_paint_id", Some(self.hat_paint_id.clone()));
        ini_set(config, paint_header, "trails_paint_id", Some(self.trails_paint_id.clone()));
        ini_set(config, paint_header, "goal_explosion_paint_id", Some(self.goal_explosion_paint_id.clone()));
    }
}

proof fn lemma_looks_keys()
    ensures
        lowered("team_color_id"@) == "team_color_id"@,
        is_ascii_seq("team_color_id"@),
        lowered("custom_color_id"@) == "custom_color_id"@,
        is_ascii_seq("custom_color_id"@),
        lowered("car_id"@) == "car_id"@,
        is_ascii_seq("car_id"@),
        lowered("decal_id"@) == "decal_id"@,
        is_ascii_seq("decal_id"@),
        lowered("wheels_id"@) == "wheels_id"@,
        is_ascii_seq("wheels_id"@),
        lowered("boost_id"@) == "boost_id"@,
        is_ascii_seq("boost_id"@),
        lowered("antenna_id"@) == "antenna_id"@,
        is_ascii_seq("antenna_id"@),
        lowered("hat_id"@) == "hat_id"@,
        is_ascii_seq("hat_id"@),
        lowered("paint_finish_id"@) == "paint_finish_id"@,
        is_ascii_seq("paint_finish_id"@),
        lowered("custom_finish_id"@) == "custom_finish_id"@,
        is_ascii_seq("custom_finish_id"@),
        lowered("engine_audio_id"@) == "engine_audio_id"@,
        is_ascii_seq("engine_audio_id"@),
        lowered("trails_id"@) == "trails_id"@,
        is_ascii_seq("trails_id"@),
        lowered("goal_explosion_id"@) == "goal_explosion_id"@,
        is_ascii_seq("goal_explosion_id"@),
        lowered("primary_color_lookup"@) == "primary_color_lookup"@,
        is_ascii_seq("primary_color_lookup"@),
        lowered("secondary_color_lookup"@) == "secondary_color_lookup"@,
        is_ascii_seq("secondary_color_lookup"@),
        lowered("car_paint_id"@) == "car_paint_id"@,
        is_ascii_seq("car_paint_id"@),
        lowered("decal_paint_id"@) == "decal_paint_id"@,
        is_ascii_seq("decal_paint_id"@),
        lowered("wheels_paint_id"@) == "wheels_paint_id"@,
        is_ascii_seq("wheels_paint_id"@),
        lowered("boost_paint_id"@) == "boost_paint_id"@,
        is_ascii_seq("boost_paint_id"@),
        lowered("antenna_paint_id"@) == "antenna_paint_id"@,
        is_ascii_seq("antenna_paint_id"@),
        lowered("hat_paint_id"@) == "hat_paint_id"@,
        is_ascii_seq("hat_paint_id"@),
        lowered("trails_paint_id"@) == "trails_paint_id"@,
        is_ascii_seq("trails_paint_id"@),
        lowered("goal_explosion_paint_id"@) == "goal_explosion_paint_id"@,
        is_ascii_seq("goal_explosion_paint_id"@),
        "team_color_id"@ != "custom_color_id"@,
        "team_color_id"@ != "car_id"@,
        "team_color_id"@ != "decal_id"@,
        "team_color_id"@ != "wheels_id"@,
        "team_color_id"@ != "boost_id"@,
        "team_color_id"@ != "antenna_id"@,
        "team_color_id"@ != "hat_id"@,
        "team_color_id"@ != "paint_finish_id"@,
        "team_color_id"@ != "custom_finish_id"@,
        "team_color_id"@ != "engine_audio_id"@,
        "team_color_id"@ != "trails_id"@,
        "team_color_id"@ != "goal_explosion_id"@,
        "team_color_id"@ != "primary_color_lookup"@,
        "team_color_id"@ != "secondary_color_lookup"@,
        "team_color_id"@ != "car_paint_id"@,
        "team_color_id"@ != "decal_paint_id"@,
        "team_color_id"@ != "wheels_paint_id"@,
        "team_color_id"@ != "boost_paint_id"@,
        "team_color_id"@ != "antenna_paint_id"@,
        "team_color_id"@ != "hat_paint_id"@,
        "team_color_id"@ != "trails_paint_id"@,
        "team_color_id"@ != "goal_explosion_paint_id"@,
        "custom_color_id"@ != "car_id"@,
        "custom_color_id"@ != "decal_id"@,
        "custom_color_id"@ != "wheels_id"@,
        "custom_color_id"@ != "boost_id"@,
        "custom_color_id"@ != "antenna_id"@,
        "custom_color_id"@ != "hat_id"@,
        "custom_color_id"@ != "paint_finish_id"@,
        "custom_color_id"@ != "custom_finish_id"@,
        "custom_color_id"@ != "engine_audio_id"@,
        "custom_color_id"@ != "trails_id"@,
        "custom_color_id"@ != "goal_explosion_id"@,
        "custom_color_id"@ != "primary_color_lookup"@,
        "custom_color_id"@ != "secondary_color_lookup"@,
        "custom_color_id"@ != "car_paint_id"@,
        "custom_color_id"@ != "decal_paint_id"@,
        "custom_color_id"@ != "wheels_paint_id"@,
        "custom_color_id"@ != "boost_paint_id"@,
        "custom_color_id"@ != "antenna_paint_id"@,
        "custom_color_id"@ != "hat_paint_id"@,
        "custom_color_id"@ != "trails_paint_id"@,
        "custom_color_id"@ != "goal_explosion_paint_id"@,
        "car_id"@ != "decal_id"@,
        "car_id"@ != "wheels_id"@,
        "car_id"@ != "boost_id"@,
        "car_id"@ != "antenna_id"@,
        "car_id"@ != "hat_id"@,
        "car_id"@ != "paint_finish_id"@,
        "car_id"@ != "custom_finish_id"@,
        "car_id"@ != "engine_audio_id"@,
        "car_id"@ != "trails_id"@,
        "car_id"@ != "goal_explosion_id"@,
        "car_id"@ != "primary_color_lookup"@,
        "car_id"@ != "secondary_color_lookup"@,
        "car_id"@ != "car_paint_id"@,
        "car_id"@ != "decal_paint_id"@,
        "car_id"@ != "wheels_paint_id"@,
        "car_id"@ != "boost_paint_id"@,
        "car_id"@ != "antenna_paint_id"@,
        "car_id"@ != "hat_paint_id"@,
        "car_id"@ != "trails_paint_id"@,
        "car_id"@ != "goal_explosion_paint_id"@,
        "decal_id"@ != "wheels_id"@,
        "decal_id"@ != "boost_id"@,
        "decal_id"@ != "antenna_id"@,
        "decal_id"@ != "hat_id"@,
        "decal_id"@ != "paint_finish_id"@,
        "decal_id"@ != "custom_finish_id"@,
        "decal_id"@ != "engine_audio_id"@,
        "decal_id"@ != "trails_id"@,
        "decal_id"@ != "goal_explosion_id"@,
        "decal_id"@ != "primary_color_lookup"@,
        "decal_id"@ != "secondary_color_lookup"@,
        "decal_id"@ != "car_paint_id"@,
        "decal_id"@ != "decal_paint_id"@,
        "decal_id"@ != "wheels_paint_id"@,
        "decal_id"@ != "boost_paint_id"@,
        "decal_id"@ != "antenna_paint_id"@,
        "decal_id"@ != "hat_paint_id"@,
        "decal_id"@ != "trails_paint_id"@,
        "decal_id"@ != "goal_explosion_paint_id"@,
        "wheels_id"@ != "boost_id"@,
        "wheels_id"@ != "antenna_id"@,
        "wheels_id"@ != "hat_id"@,
        "wheels_id"@ != "paint_finish_id"@,
        "wheels_id"@ != "custom_finish_id"@,
        "wheels_id"@ != "engine_audio_id"@,
        "wheels_id"@ != "trails_id"@,
        "wheels_id"@ != "goal_explosion_id"@,
        "wheels_id"@ != "primary_color_lookup"@,
        "wheels_id"@ != "secondary_color_lookup"@,
        "wheels_id"@ != "car_paint_id"@,
        "wheels_id"@ != "decal_paint_id"@,
        "wheels_id"@ != "wheels_paint_id"@,
        "wheels_id"@ != "boost_paint_id"@,
        "wheels_id"@ != "antenna_paint_id"@,
        "wheels_id"@ != "hat_paint_id"@,
        "wheels_id"@ != "trails_paint_id"@,
        "wheels_id"@ != "goal_explosion_paint_id"@,
        "boost_id"@ != "antenna_id"@,
        "boost_id"@ != "hat_id"@,
        "boost_id"@ != "paint_finish_id"@,
        "boost_id"@ != "custom_finish_id"@,
        "boost_id"@ != "engine_audio_id"@,
        "boost_id"@ != "trails_id"@,
        "boost_id"@ != "goal_explosion_id"@,
        "boost_id"@ != "primary_color_lookup"@,
        "boost_id"@ != "secondary_color_lookup"@,
        "boost_id"@ != "car_paint_id"@,
        "boost_id"@ != "decal_paint_id"@,
        "boost_id"@ != "wheels_paint_id"@,
        "boost_id"@ != "boost_paint_id"@,
        "boost_id"@ != "antenna_paint_id"@,
        "boost_id"@ != "hat_paint_id"@,
        "boost_id"@ != "trails_paint_id"@,
        "boost_id"@ != "goal_explosion_paint_id"@,
        "antenna_id"@ != "hat_id"@,
        "antenna_id"@ != "paint_finish_id"@,
        "antenna_id"@ != "custom_finish_id"@,
        "antenna_id"@ != "engine_audio_id"@,
        "antenna_id"@ != "trails_id"@,
        "antenna_id"@ != "goal_explosion_id"@,
        "antenna_id"@ != "primary_color_lookup"@,
        "antenna_id"@ != "secondary_color_lookup"@,
        "antenna_id"@ != "car_paint_id"@,
        "antenna_id"@ != "decal_paint_id"@,
        "antenna_id"@ != "wheels_paint_id"@,
        "antenna_id"@ != "boost_paint_id"@,
        "antenna_id"@ != "antenna_paint_id"@,
        "antenna_id"@ != "hat_paint_id"@,
        "antenna_id"@ != "trails_paint_id"@,
        "antenna_id"@ != "goal_explosion_paint_id"@,
        "hat_id"@ != "paint_finish_id"@,
        "hat_id"@ != "custom_finish_id"@,
        "hat_id"@ != "engine_audio_id"@,
        "hat_id"@ != "trails_id"@,
        "hat_id"@ != "goal_explosion_id"@,
        "hat_id"@ != "primary_color_lookup"@,
        "hat_id"@ != "secondary_color_lookup"@,
        "hat_id"@ != "car_paint_id"@,
        "hat_id"@ != "decal_paint_id"@,
        "hat_id"@ != "wheels_paint_id"@,
        "hat_id"@ != "boost_paint_id"@,
        "hat_id"@ != "antenna_paint_id"@,
        "hat_id"@ != "hat_paint_id"@,
        "hat_id"@ != "trails_paint_id"@,
        "hat_id"@ != "goal_explosion_paint_id"@,
        "paint_finish_id"@ != "custom_finish_id"@,
        "paint_finish_id"@ != "engine_audio_id"@,
        "paint_finish_id"@ != "trails_id"@,
        "paint_finish_id"@ != "goal_explosion_id"@,
        "paint_finish_id"@ != "primary_color_lookup"@,
        "paint_finish_id"@ != "secondary_color_lookup"@,
        "paint_finish_id"@ != "car_paint_id"@,
        "paint_finish_id"@ != "decal_paint_id"@,
        "paint_finish_id"@ != "wheels_paint_id"@,
        "paint_finish_id"@ != "boost_paint_id"@,
        "paint_finish_id"@ != "antenna_paint_id"@,
        "paint_finish_id"@ != "hat_paint_id"@,
        "paint_finish_id"@ != "trails_paint_id"@,
        "paint_finish_id"@ != "goal_explosion_paint_id"@,
        "custom_finish_id"@ != "engine_audio_id"@,
        "custom_finish_id"@ != "trails_id"@,
        "custom_finish_id"@ != "goal_explosion_id"@,
        "custom_finish_id"@ != "primary_color_lookup"@,
        "custom_finish_id"@ != "secondary_color_lookup"@,
        "custom_finish_id"@ != "car_paint_id"@,
        "custom_finish_id"@ != "decal_paint_id"@,
        "custom_finish_id"@ != "wheels_paint_id"@,
        "custom_finish_id"@ != "boost_paint_id"@,
        "custom_finish_id"@ != "antenna_paint_id"@,
        "custom_finish_id"@ != "hat_paint_id"@,
        "custom_finish_id"@ != "trails_paint_id"@,
        "custom_finish_id"@ != "goal_explosion_paint_id"@,
        "engine_audio_id"@ != "trails_id"@,
        "engine_audio_id"@ != "goal_explosion_id"@,
        "engine_audio_id"@ != "primary_color_lookup"@,
        "engine_audio_id"@ != "secondary_color_lookup"@,
        "engine_audio_id"@ != "car_paint_id"@,
        "engine_audio_id"@ != "decal_paint_id"@,
        "engine_audio_id"@ != "wheels_paint_id"@,
        "engine_audio_id"@ != "boost_paint_id"@,
        "engine_audio_id"@ != "antenna_paint_id"@,
        "engine_audio_id"@ != "hat_paint_id"@,
        "engine_audio_id"@ != "trails_paint_id"@,
        "engine_audio_id"@ != "goal_explosion_paint_id"@,
        "trails_id"@ != "goal_explosion_id"@,
        "trails_id"@ != "primary_color_lookup"@,
        "trails_id"@ != "secondary_color_lookup"@,
        "trails_id"@ != "car_paint_id"@,
        "trails_id"@ != "decal_paint_id"@,
        "trails_id"@ != "wheels_paint_id"@,
        "trails_id"@ != "boost_paint_id"@,
        "trails_id"@ != "antenna_paint_id"@,
        "trails_id"@ != "hat_paint_id"@,
        "trails_id"@ != "trails_paint_id"@,
        "trails_id"@ != "goal_explosion_paint_id"@,
        "goal_explosion_id"@ != "primary_color_lookup"@,
        "goal_explosion_id"@ != "secondary_color_lookup"@,
        "goal_explosion_id"@ != "car_paint_id"@,
        "goal_explosion_id"@ != "decal_paint_id"@,
        "goal_explosion_id"@ != "wheels_paint_id"@,
        "goal_explosion_id"@ != "boost_paint_id"@,
        "goal_explosion_id"@ != "antenna_paint_id"@,
        "goal_explosion_id"@ != "hat_paint_id"@,
        "goal_explosion_id"@ != "trails_paint_id"@,
        "goal_explosion_id"@ != "goal_explosion_paint_id"@,
        "primary_color_lookup"@ != "secondary_color_lookup"@,
        "primary_color_lookup"@ != "car_paint_id"@,
        "primary_color_lookup"@ != "decal_paint_id"@,
        "primary_color_lookup"@ != "wheels_paint_id"@,
        "primary_color_lookup"@ != "boost_paint_id"@,
        "primary_color_lookup"@ != "antenna_paint_id"@,
        "primary_color_lookup"@ != "hat_paint_id"@,
        "primary_color_lookup"@ != "trails_paint_id"@,
        "primary_color_lookup"@ != "goal_explosion_paint_id"@,
        "secondary_color_lookup"@ != "car_paint_id"@,
        "secondary_color_lookup"@ != "decal_paint_id"@,
        "secondary_color_lookup"@ != "wheels_paint_id"@,
        "secondary_color_lookup"@ != "boost_paint_id"@,
        "secondary_color_lookup"@ != "antenna_paint_id"@,
        "secondary_color_lookup"@ != "hat_paint_id"@,
        "secondary_color_lookup"@ != "trails_paint_id"@,
        "secondary_color_lookup"@ != "goal_explosion_paint_id"@,
        "car_paint_id"@ != "decal_paint_id"@,
        "car_paint_id"@ != "wheels_paint_id"@,
        "car_paint_id"@ != "boost_paint_id"@,
        "car_paint_id"@ != "antenna_paint_id"@,
        "car_paint_id"@ != "hat_paint_id"@,
        "car_paint_id"@ != "trails_paint_id"@,
        "car_paint_id"@ != "goal_explosion_paint_id"@,
        "decal_paint_id"@ != "wheels_paint_id"@,
        "decal_paint_id"@ != "boost_paint_id"@,
        "decal_paint_id"@ != "antenna_paint_id"@,
        "decal_paint_id"@ != "hat_paint_id"@,
        "decal_paint_id"@ != "trails_paint_id"@,
        "decal_paint_id"@ != "goal_explosion_paint_id"@,
        "wheels_paint_id"@ != "boost_paint_id"@,
        "wheels_paint_id"@ != "antenna_paint_id"@,
        "wheels_paint_id"@ != "hat_paint_id"@,
        "wheels_paint_id"@ != "trails_paint_id"@,
        "wheels_paint_id"@ != "goal_explosion_paint_id"@,
        "boost_paint_id"@ != "antenna_paint_id"@,
        "boost_paint_id"@ != "hat_paint_id"@,
        "boost_paint_id"@ != "trails_paint_id"@,
        "boost_paint_id"@ != "goal_explosion_paint_id"@,
        "antenna_paint_id"@ != "hat_paint_id"@,
        "antenna_paint_id"@ != "trails_paint_id"@,
        "antenna_paint_id"@ != "goal_explosion_paint_id"@,
        "hat_paint_id"@ != "trails_paint_id"@,
        "hat_paint_id"@ != "goal_explosion_paint_id"@,
        "trails_paint_id"@ != "goal_explosion_paint_id"@,
{
    reveal_strlit("team_color_id");
    assert("team_color_id"@ =~= seq!['t', 'e', 'a', 'm', '_', 'c', 'o', 'l', 'o', 'r', '_', 'i', 'd']);
    lemma_lower_ascii_name("team_color_id"@);
    reveal_strlit("custom_color_id");
    assert("custom_color_id"@ =~= seq!['c', 'u', 's', 't', 'o', 'm', '_', 'c', 'o', 'l', 'o', 'r', '_', 'i', 'd']);
    lemma_lower_ascii_name("custom_color_id"@);
    reveal_strlit("car_id");
    assert("car_id"@ =~= seq!['c', 'a', 'r', '_', 'i', 'd']);
    lemma_lower_ascii_name("car_id"@);
    reveal_strlit("decal_id");
    assert("decal_id"@ =~= seq!['d', 'e', 'c', 'a', 'l', '_', 'i', 'd']);
    lemma_lower_ascii_name("decal_id"@);
    reveal_strlit("wheels_id");
    assert("wheels_id"@ =~= seq!['w', 'h', 'e', 'e', 'l', 's', '_', 'i', 'd']);
    lemma_lower_ascii_name("wheels_id"@);
    reveal_strlit("boost_id");
    assert("boost_id"@ =~= seq!['b', 'o', 'o', 's', 't', '_', 'i', 'd']);
    lemma_lower_ascii_name("boost_id"@);
    reveal_strlit("antenna_id");
    assert("antenna_id"@ =~= seq!['a', 'n', 't', 'e', 'n', 'n', 'a', '_', 'i', 'd']);
    lemma_lower_ascii_name("antenna_id"@);
    reveal_strlit("hat_id");
    assert("hat_id"@ =~= seq!['h', 'a', 't', '_', 'i', 'd']);
    lemma_lower_ascii_name("hat_id"@);
    reveal_strlit("paint_finish_id");
    assert("paint_finish_id"@ =~= seq!['p', 'a', 'i', 'n', 't', '_', 'f', 'i', 'n', 'i', 's', 'h', '_', 'i', 'd']);
    lemma_lower_ascii_name("paint_finish_id"@);
    reveal_strlit("custom_finish_id");
    assert("custom_finish_id"@ =~= seq!['c', 'u', 's', 't', 'o', 'm', '_', 'f', 'i', 'n', 'i', 's', 'h', '_', 'i', 'd']);
    lemma_lower_ascii_name("custom_finish_id"@);
    reveal_strlit("engine_audio_id");
    assert("engine_audio_id"@ =~= seq!['e', 'n', 'g', 'i', 'n', 'e', '_', 'a', 'u', 'd', 'i', 'o', '_', 'i', 'd']);
    lemma_lower_ascii_name("engine_audio_id"@);
    reveal_strlit("trails_id");
    assert("trails_id"@ =~= seq!['t', 'r', 'a', 'i', 'l', 's', '_', 'i', 'd']);
    lemma_lower_ascii_name("trails_id"@);
    reveal_strlit("goal_explosion_id");
    assert("goal_explosion_id"@ =~= seq!['g', 'o', 'a', 'l', '_', 'e', 'x', 'p', 'l', 'o', 's', 'i', 'o', 'n', '_', 'i', 'd']);
    lemma_lower_ascii_name("goal_explosion_id"@);
    reveal_strlit("primary_color_lookup");
    assert("primary_color_lookup"@ =~= seq!['p', 'r', 'i', 'm', 'a', 'r', 'y', '_', 'c', 'o', 'l', 'o', 'r', '_', 'l', 'o', 'o', 'k', 'u', 'p']);
    lemma_lower_ascii_name("primary_color_lookup"@);
    reveal_strlit("secondary_color_lookup");
    assert("secondary_color_lookup"@ =~= seq!['s', 'e', 'c', 'o', 'n', 'd', 'a', 'r', 'y', '_', 'c', 'o', 'l', 'o', 'r', '_', 'l', 'o', 'o', 'k', 'u', 'p']);
    lemma_lower_ascii_name("secondary_color_lookup"@);
    reveal_strlit("car_paint_id");
    assert("car_paint_id"@ =~= seq!['c', 'a', 'r', '_', 'p', 'a', 'i', 'n', 't', '_', 'i', 'd']);
    lemma_lower_ascii_name("car_paint_id"@);
    reveal_strlit("decal_paint_id");
    assert("decal_paint_id"@ =~= seq!['d', 'e', 'c', 'a', 'l', '_', 'p', 'a', 'i', 'n', 't', '_', 'i', 'd']);
    lemma_lower_ascii_name("decal_paint_id"@);
    reveal_strlit("wheels_paint_id");
    assert("wheels_paint_id"@ =~= seq!['w', 'h', 'e', 'e', 'l', 's', '_', 'p', 'a', 'i', 'n', 't', '_', 'i', 'd']);
    lemma_lower_ascii_name("wheels_paint_id"@);
    reveal_strlit("boost_paint_id");
    assert("boost_paint_id"@ =~= seq!['b', 'o', 'o', 's', 't', '_', 'p', 'a', 'i', 'n', 't', '_', 'i', 'd']);
    lemma_lower_ascii_name("boost_paint_id"@);
    reveal_strlit("antenna_paint_id");
    assert("antenna_paint_id"@ =~= seq!['a', 'n', 't', 'e', 'n', 'n', 'a', '_', 'p', 'a', 'i', 'n', 't', '_', 'i', 'd']);
    lemma_lower_ascii_name("antenna_paint_id"@);
    reveal_strlit("hat_paint_id");
    assert("hat_paint_id"@ =~= seq!['h', 'a', 't', '_', 'p', 'a', 'i', 'n', 't', '_', 'i', 'd']);
    lemma_lower_ascii_name("hat_paint_id"@);
    reveal_strlit("trails_paint_id");
    assert("trails_paint_id"@ =~= seq!['t', 'r', 'a', 'i', 'l', 's', '_', 'p', 'a', 'i', 'n', 't', '_', 'i', 'd']);
    lemma_lower_ascii_name("trails_paint_id"@);
    reveal_strlit("goal_explosion_paint_id");
    assert("goal_explosion_paint_id"@ =~= seq!['g', 'o', 'a', 'l', '_', 'e', 'x', 'p', 'l', 'o', 's', 'i', 'o', 'n', '_', 'p', 'a', 'i', 'n', 't', '_', 'i', 'd']);
    lemma_lower_ascii_name("goal_explosion_paint_id"@);
}

/// The looks of a bot on both teams.
#[derive(Debug, Clone)]
pub struct BotLooksConfig {
    pub blue: BotTeamLooksConfig,
    pub orange: BotTeamLooksConfig,
}

proof fn lemma_headers()
    ensures
        is_ascii_seq(loadout_header()),
        is_ascii_seq(loadout_orange_header()),
        is_ascii_seq(paint_blue_header()),
        is_ascii_seq(paint_orange_header()),
        lowered(loadout_header()) != lowered(loadout_orange_header()),
        lowered(loadout_header()) != lowered(paint_orange_header()),
        lowered(paint_blue_header()) != lowered(loadout_orange_header()),
        lowered(paint_blue_header()) != lowered(paint_orange_header()),
{
    reveal_strlit("Bot Loadout");
    reveal_strlit("Bot Loadout Orange");
    reveal_strlit("Bot Paint Blue");
    reveal_strlit("Bot Paint Orange");
    assert("Bot Loadout"@ =~= seq!['B', 'o', 't', ' ', 'L', 'o', 'a', 'd', 'o', 'u', 't']);
    assert("Bot Loadout Orange"@ =~= seq!['B', 'o', 't', ' ', 'L', 'o', 'a', 'd', 'o', 'u', 't', ' ', 'O', 'r', 'a', 'n', 'g', 'e']);
    assert("Bot Paint Blue"@ =~= seq!['B', 'o', 't', ' ', 'P', 'a', 'i', 'n', 't', ' ', 'B', 'l', 'u', 'e']);
    assert("Bot Paint Orange"@ =~= seq!['B', 'o', 't', ' ', 'P', 'a', 'i', 'n', 't', ' ', 'O', 'r', 'a', 'n', 'g', 'e']);
    assert(ascii_lower(loadout_header()).len() == 11);
    assert(ascii_lower(loadout_orange_header()).len() == 18);
    assert(ascii_lower(paint_blue_header()).len() == 14);
    assert(ascii_lower(paint_orange_header()).len() == 16);
}

impl BotLooksConfig {
    /// Reads the looks of both teams from a bot's loaded looks document.
    pub fn from_config(config: &Ini) -> (r: Self)
        ensures
            ini_is_plain(*config) ==> BotTeamLooksConfig::read_from(ini_entries(*config), loadout_header(), paint_blue_header(), r.blue),
            ini_is_plain(*config) ==> BotTeamLooksConfig::read_from(ini_entries(*config), loadout_orange_header(), paint_orange_header(), r.orange),
    {
        proof { lemma_headers(); }
        BotLooksConfig {
            blue: BotTeamLooksConfig::from_config(config, "Bot Loadout", "Bot Paint Blue"),
            orange: BotTeamLooksConfig::from_config(config, "Bot Loadout Orange", "Bot Paint Orange"),
        }
    }

    /// Writes the looks of both teams into a looks document; reading them back
    /// gives them again.
    pub fn save_to_config(&self, config: &mut Ini)
        ensures
            ini_is_plain(*final(config)) == ini_is_plain(*old(config)),
            ini_is_plain(*old(config)) ==> forall|r: BotTeamLooksConfig|
                #[trigger] BotTeamLooksConfig::read_from(ini_entries(*final(config)), loadout_header(), paint_blue_header(), r)
                ==> BotTeamLooksConfig::same_looks(r, self.blue),
            ini_is_plain(*old(config)) ==> forall|r: BotTeamLooksConfig|
                #[trigger] BotTeamLooksConfig::read_from(ini_entries(*final(config)), loadout_orange_header(), paint_orange_header(), r)
                ==> BotTeamLooksConfig::same_looks(r, self.orange),
    {
        proof { lemma_headers(); }
        self.blue.save_to_config(config, "Bot Loadout", "Bot Paint Blue");
        let ghost middle = ini_entries(*config);
        self.orange.save_to_config(config, "Bot Loadout Orange", "Bot Paint Orange");
        proof {
            if ini_is_plain(*old(config)) {
                BotTeamLooksConfig::lemma_saved_keeps_other_sections(middle, loadout_orange_header(), paint_orange_header(), self.orange);
                let e = ini_entries(*config);
                assert forall|k: Seq<char>| #[trigger] ini_value(e, loadout_header(), k) == ini_value(middle, loadout_header(), k)
                    && ini_value(e, paint_blue_header(), k) == ini_value(middle, paint_blue_header(), k) by {
                }
                assert forall|r: BotTeamLooksConfig|
                    #[trigger] BotTeamLooksConfig::read_from(e, loadout_header(), paint_blue_header(), r)
                    implies BotTeamLooksConfig::same_looks(r, self.blue) by {
                    assert(BotTeamLooksConfig::read_from(middle, loadout_header(), paint_blue_header(), r));
                }
            }
        }
    }
}

} // verus!
