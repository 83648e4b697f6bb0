//! The parts of a story's cities and challenges that starting a challenge reads.

use vstd::prelude::*;
use crate::bot_config_bundle::clone_strings;
use crate::match_settings_config_parser::{MapType, MaxScore};

verus! {

/// A challenge of story mode.
#[derive(Debug)]
pub struct Challenge {
    pub id: String,
    pub human_team_size: usize,
    pub opponent_bots: Vec<String>,
    pub scripts: Vec<String>,
    pub limitations: Vec<String>,
    pub map: MapType,
    pub max_score: MaxScore,
    pub disabled_boost: bool,
}

impl Challenge {
    /// `a` and `b` describe the same challenge.
    pub open spec fn same_challenge(a: Challenge, b: Challenge) -> bool {
        &&& a.id == b.id
        &&& a.human_team_size == b.human_team_size
        &&& a.opponent_bots@ == b.opponent_bots@
        &&& a.scripts@ == b.scripts@
        &&& a.limitations@ == b.limitations@
        &&& a.map == b.map
        &&& a.max_score == b.max_score
        &&& a.disabled_boost == b.disabled_boost
    }
}

impl Clone for Challenge {
    fn clone(&self) -> (r: Self)
        ensures
            Challenge::same_challenge(r, *self),
    {
        Challenge {
            id: self.id.clone(),
            human_team_size: self.human_team_size,
            opponent_bots: clone_strings(&self.opponent_bots),
            scripts: clone_strings(&self.scripts),
            limitations: clone_strings(&self.limitations),
            map: self.map.clone(),
            max_score: self.max_score,
            disabled_boost: self.disabled_boost,
        }
    }
}

/// A city of story mode, with its challenges.
#[derive(Debug)]
pub struct City {
    pub challenges: Vec<Challenge>,
}

/// A script a challenge may run, by the parts of its path.
#[derive(Debug, Clone)]
pub struct Script {
    pub path: Vec<String>,
}

} // verus!
