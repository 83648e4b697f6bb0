//! The bots every story can use: the Psyonix bots and bots of the bot pack, by
//! their ids. The skill of the Psyonix bots, a float, is kept outside this
//! library.

use vstd::prelude::*;
use crate::commands::{botpack_root_token, BotType, StoryBot};
use crate::match_option_names::{str_views, vec_to_string};
use crate::str_map::StrMap;
use crate::text::views;

verus! {

/// A bot of a story's table is well formed: a Psyonix bot has no path, and a bot
/// that rlbot runs has a story path that starts at the bot pack's root.
pub open spec fn well_formed_bot(b: StoryBot) -> bool {
    if b.type_field == BotType::Psyonix {
        b.path is None
    } else {
        b.path matches Some(p) && p@.len() >= 1 && p@[0]@ == botpack_root_token()
    }
}

/// Every bot of a table is well formed.
pub open spec fn well_formed_table(t: Map<Seq<char>, StoryBot>) -> bool {
    forall|id: Seq<char>| #[trigger] t.contains_key(id) ==> well_formed_bot(t[id])
}

/// Every bot of the table has a name; a Psyonix bot has no path, and a bot of
/// the bot pack has its path under the pack's root, in its `RLBotPack` folder.
pub proof fn lemma_bots_table_well_formed()
    ensures
        forall|id: Seq<char>| #[trigger] bots_table().contains_key(id) ==> {
            let b = bots_table()[id];
            &&& b.0.len() > 0
            &&& (b.1 == BotType::Psyonix) == (b.2 is None)
            &&& b.2 matches Some(p) ==> p.len() >= 2 && p[0] == botpack_root_token() && p[1] == "RLBotPack"@
        },
{
    reveal_strlit("AdversityBot");
    reveal_strlit("Airbud");
    reveal_strlit("Atlas");
    reveal_strlit("Beast from the East");
    reveal_strlit("BoltimusPrime");
    reveal_strlit("Bumblebee");
    reveal_strlit("Codename Cryo");
    reveal_strlit("Diablo");
    reveal_strlit("Flying Panda");
    reveal_strlit("Invisibot");
    reveal_strlit("Kamael");
    reveal_strlit("Lanfear");
    reveal_strlit("Leaf");
    reveal_strlit("NomBot");
    reveal_strlit("PenguinBot");
    reveal_strlit("Phoenix");
    reveal_strlit("Psyonix Allstar");
    reveal_strlit("Psyonix Pro");
    reveal_strlit("ReliefBot");
    reveal_strlit("Self-Driving Car");
    reveal_strlit("Skybot");
    reveal_strlit("Snek");
    reveal_strlit("Sniper");
    reveal_strlit("St. Peter");
    reveal_strlit("Stick");
    reveal_strlit("Wildfire");
    reveal_strlit("rashBot");
}

/// The id of the bot of the table whose story path ends in the `.cfg` file `f`.
spec fn bot_with_cfg(f: Seq<char>) -> Seq<char> {
    if f == "adversity_bot.cfg"@ {
        "adversity"@
    } else if f == "air_bud.cfg"@ {
        "airbud"@
    } else if f == "relief_bot.cfg"@ {
        "reliefbot"@
    } else if f == "self-driving-car.cfg"@ {
        "sdc"@
    } else if f == "Kamael.cfg"@ {
        "kamael"@
    } else if f == "botimus.cfg"@ {
        "botimus"@
    } else if f == "bumblebee.cfg"@ {
        "bumblebee"@
    } else if f == "_story_mode_bot.cfg"@ {
        "baf"@
    } else if f == "SkyBot.cfg"@ {
        "skybot"@
    } else if f == "wildfire.cfg"@ {
        "wildfire"@
    } else if f == "diablo.cfg"@ {
        "diablo"@
    } else if f == "rashBot.cfg"@ {
        "rashbot"@
    } else if f == "stick.cfg"@ {
        "stick"@
    } else if f == "leaf.cfg"@ {
        "leaf"@
    } else if f == "Lanfear.cfg"@ {
        "lanfear"@
    } else if f == "phoenix.cfg"@ {
        "phoenix"@
    } else if f == "Atlas.cfg"@ {
        "atlas"@
    } else if f == "sniper.cfg"@ {
        "sniper"@
    } else if f == "snek.cfg"@ {
        "snek"@
    } else if f == "NomBot_v1.cfg"@ {
        "nombot"@
    } else if f == "beastbot.cfg"@ {
        "beast"@
    } else if f == "Codename_Cryo.cfg"@ {
        "cryo"@
    } else if f == "penguin_config.cfg"@ {
        "penguin"@
    } else if f == "peter.cfg"@ {
        "peter"@
    } else if f == "invisibot.cfg"@ {
        "invisibot"@
    } else {
        Seq::empty()
    }
}

/// Each bot with a story path in `m` is the one `bot_with_cfg` names for its
/// `.cfg` file.
spec fn indexed_by_cfg(m: Map<Seq<char>, (Seq<char>, BotType, Option<Seq<Seq<char>>>)>) -> bool {
    forall|a: Seq<char>| #[trigger] m.contains_key(a) ==> (m[a].2 matches Some(p) ==> bot_with_cfg(p.last()) == a)
}

proof fn lemma_insert_indexed(m: Map<Seq<char>, (Seq<char>, BotType, Option<Seq<Seq<char>>>)>, k: Seq<char>, v: (Seq<char>, BotType, Option<Seq<Seq<char>>>))
    requires
        indexed_by_cfg(m),
        v.2 matches Some(p) ==> bot_with_cfg(p.last()) == k,
    ensures
        indexed_by_cfg(m.insert(k, v)),
{
}

/// No two bots of the table share a story path: two bots with paths have
/// different `.cfg` files, so a challenge against one never runs another.
#[verifier::rlimit(100)]
pub proof fn lemma_bots_table_paths_distinct()
    ensures
        forall|a: Seq<char>, b: Seq<char>|
            #![trigger bots_table()[a], bots_table()[b]]
            bots_table().contains_key(a) && bots_table().contains_key(b) && a != b ==> match (bots_table()[a].2, bots_table()[b].2) {
                (Some(p), Some(q)) => p.last() != q.last() && p != q,
                _ => true,
            },
{
    reveal_strlit("adversity_bot.cfg");
    reveal_strlit("air_bud.cfg");
    reveal_strlit("relief_bot.cfg");
    reveal_strlit("self-driving-car.cfg");
    reveal_strlit("Kamael.cfg");
    reveal_strlit("botimus.cfg");
    reveal_strlit("bumblebee.cfg");
    reveal_strlit("_story_mode_bot.cfg");
    reveal_strlit("SkyBot.cfg");
    reveal_strlit("wildfire.cfg");
    reveal_strlit("diablo.cfg");
    reveal_strlit("rashBot.cfg");
    reveal_strlit("stick.cfg");
    reveal_strlit("leaf.cfg");
    reveal_strlit("Lanfear.cfg");
    reveal_strlit("phoenix.cfg");
    reveal_strlit("Atlas.cfg");
    reveal_strlit("sniper.cfg");
    reveal_strlit("snek.cfg");
    reveal_strlit("NomBot_v1.cfg");
    reveal_strlit("beastbot.cfg");
    reveal_strlit("Codename_Cryo.cfg");
    reveal_strlit("penguin_config.cfg");
    reveal_strlit("peter.cfg");
    reveal_strlit("invisibot.cfg");
    assert("botimus.cfg"@[0] != "air_bud.cfg"@[0]);
    assert("SkyBot.cfg"@[0] != "Kamael.cfg"@[0]);
    assert("diablo.cfg"@[0] != "Kamael.cfg"@[0]);
    assert("diablo.cfg"@[0] != "SkyBot.cfg"@[0]);
    assert("rashBot.cfg"@[0] != "air_bud.cfg"@[0]);
    assert("rashBot.cfg"@[0] != "botimus.cfg"@[0]);
    assert("Lanfear.cfg"@[0] != "air_bud.cfg"@[0]);
    assert("Lanfear.cfg"@[0] != "botimus.cfg"@[0]);
    assert("Lanfear.cfg"@[0] != "rashBot.cfg"@[0]);
    assert("phoenix.cfg"@[0] != "air_bud.cfg"@[0]);
    assert("phoenix.cfg"@[0] != "botimus.cfg"@[0]);
    assert("phoenix.cfg"@[0] != "rashBot.cfg"@[0]);
    assert("phoenix.cfg"@[0] != "Lanfear.cfg"@[0]);
    assert("Atlas.cfg"@[0] != "stick.cfg"@[0]);
    assert("sniper.cfg"@[0] != "Kamael.cfg"@[0]);
    assert("sniper.cfg"@[0] != "SkyBot.cfg"@[0]);
    assert("sniper.cfg"@[0] != "diablo.cfg"@[0]);
    assert("snek.cfg"@[0] != "leaf.cfg"@[0]);
    assert("NomBot_v1.cfg"@[0] != "bumblebee.cfg"@[0]);
    assert("beastbot.cfg"@[0] != "wildfire.cfg"@[0]);
    assert("Codename_Cryo.cfg"@[0] != "adversity_bot.cfg"@[0]);
    assert("peter.cfg"@[0] != "stick.cfg"@[0]);
    assert("peter.cfg"@[0] != "Atlas.cfg"@[0]);
    assert("invisibot.cfg"@[0] != "bumblebee.cfg"@[0]);
    assert("invisibot.cfg"@[0] != "NomBot_v1.cfg"@[0]);
    let m0: Map<Seq<char>, (Seq<char>, BotType, Option<Seq<Seq<char>>>)> = Map::empty();
    lemma_insert_indexed(m0, "psyonix-pro"@, psyonix_entry("Psyonix Pro"@));
    let m1 = m0.insert("psyonix-pro"@, psyonix_entry("Psyonix Pro"@));
    lemma_insert_indexed(m1, "psyonix-allstar-name"@, psyonix_entry("Psyonix Allstar"@));
    let m2 = m1.insert("psyonix-allstar-name"@, psyonix_entry("Psyonix Allstar"@));
    assert(pack_entry("AdversityBot"@, seq!["RLBotPack", "ReliefBotFamily", "README", "adversity_bot.cfg"]).2 matches Some(p) && p.last() == "adversity_bot.cfg"@);
    assert(bot_with_cfg("adversity_bot.cfg"@) == "adversity"@);
    lemma_insert_indexed(m2, "adversity"@, pack_entry("AdversityBot"@, seq!["RLBotPack", "ReliefBotFamily", "README", "adversity_bot.cfg"]));
    let m3 = m2.insert("adversity"@, pack_entry("AdversityBot"@, seq!["RLBotPack", "ReliefBotFamily", "README", "adversity_bot.cfg"]));
    assert(pack_entry("Airbud"@, seq!["RLBotPack", "ReliefBotFamily", "README", "air_bud.cfg"]).2 matches Some(p) && p.last() == "air_bud.cfg"@);
    assert(bot_with_cfg("air_bud.cfg"@) == "airbud"@);
    lemma_insert_indexed(m3, "airbud"@, pack_entry("Airbud"@, seq!["RLBotPack", "ReliefBotFamily", "README", "air_bud.cfg"]));
    let m4 = m3.insert("airbud"@, pack_entry("Airbud"@, seq!["RLBotPack", "ReliefBotFamily", "README", "air_bud.cfg"]));
    assert(pack_entry("ReliefBot"@, seq!["RLBotPack", "ReliefBotFamily", "README", "relief_bot.cfg"]).2 matches Some(p) && p.last() == "relief_bot.cfg"@);
    assert(bot_with_cfg("relief_bot.cfg"@) == "reliefbot"@);
    lemma_insert_indexed(m4, "reliefbot"@, pack_entry("ReliefBot"@, seq!["RLBotPack", "ReliefBotFamily", "README", "relief_bot.cfg"]));
    let m5 = m4.insert("reliefbot"@, pack_entry("ReliefBot"@, seq!["RLBotPack", "ReliefBotFamily", "README", "relief_bot.cfg"]));
    assert(pack_entry("Self-Driving Car"@, seq!["RLBotPack", "Self-driving car", "self-driving-car.cfg"]).2 matches Some(p) && p.last() == "self-driving-car.cfg"@);
    assert(bot_with_cfg("self-driving-car.cfg"@) == "sdc"@);
    lemma_insert_indexed(m5, "sdc"@, pack_entry("Self-Driving Car"@, seq!["RLBotPack", "Self-driving car", "self-driving-car.cfg"]));
    let m6 = m5.insert("sdc"@, pack_entry("Self-Driving Car"@, seq!["RLBotPack", "Self-driving car", "self-driving-car.cfg"]));
    assert(pack_entry("Kamael"@, seq!["RLBotPack", "Kamael_family", "Kamael.cfg"]).2 matches Some(p) && p.last() == "Kamael.cfg"@);
    assert(bot_with_cfg("Kamael.cfg"@) == "kamael"@);
    lemma_insert_indexed(m6, "kamael"@, pack_entry("Kamael"@, seq!["RLBotPack", "Kamael_family", "Kamael.cfg"]));
    let m7 = m6.insert("kamael"@, pack_entry("Kamael"@, seq!["RLBotPack", "Kamael_family", "Kamael.cfg"]));
    assert(pack_entry("BoltimusPrime"@, seq!["RLBotPack", "Botimus&Bumblebee", "botimus.cfg"]).2 matches Some(p) && p.last() == "botimus.cfg"@);
    assert(bot_with_cfg("botimus.cfg"@) == "botimus"@);
    lemma_insert_indexed(m7, "botimus"@, pack_entry("BoltimusPrime"@, seq!["RLBotPack", "Botimus&Bumblebee", "botimus.cfg"]));
    let m8 = m7.insert("botimus"@, pack_entry("BoltimusPrime"@, seq!["RLBotPack", "Botimus&Bumblebee", "botimus.cfg"]));
    assert(pack_entry("Bumblebee"@, seq!["RLBotPack", "Botimus&Bumblebee", "bumblebee.cfg"]).2 matches Some(p) && p.last() == "bumblebee.cfg"@);
    assert(bot_with_cfg("bumblebee.cfg"@) == "bumblebee"@);
    lemma_insert_indexed(m8, "bumblebee"@, pack_entry("Bumblebee"@, seq!["RLBotPack", "Botimus&Bumblebee", "bumblebee.cfg"]));
    let m9 = m8.insert("bumblebee"@, pack_entry("Bumblebee"@, seq!["RLBotPack", "Botimus&Bumblebee", "bumblebee.cfg"]));
    assert(pack_entry("Flying Panda"@, seq!["RLBotPack", "blind_and_deaf", "_story_mode_bot.cfg"]).2 matches Some(p) && p.last() == "_story_mode_bot.cfg"@);
    assert(bot_with_cfg("_story_mode_bot.cfg"@) == "baf"@);
    lemma_insert_indexed(m9, "baf"@, pack_entry("Flying Panda"@, seq!["RLBotPack", "blind_and_deaf", "_story_mode_bot.cfg"]));
    let m10 = m9.insert("baf"@, pack_entry("Flying Panda"@, seq!["RLBotPack", "blind_and_deaf", "_story_mode_bot.cfg"]));
    lemma_insert_indexed(m10, "tbd"@, psyonix_entry("Psyonix Allstar"@));
    let m11 = m10.insert("tbd"@, psyonix_entry("Psyonix Allstar"@));
    assert(pack_entry("Skybot"@, seq!["RLBotPack", "Skybot", "SkyBot.cfg"]).2 matches Some(p) && p.last() == "SkyBot.cfg"@);
    assert(bot_with_cfg("SkyBot.cfg"@) == "skybot"@);
    lemma_insert_indexed(m11, "skybot"@, pack_entry("Skybot"@, seq!["RLBotPack", "Skybot", "SkyBot.cfg"]));
    let m12 = m11.insert("skybot"@, pack_entry("Skybot"@, seq!["RLBotPack", "Skybot", "SkyBot.cfg"]));
    assert(pack_entry("Wildfire"@, seq!["RLBotPack", "Wildfire_Lightfall_Fix", "python", "wildfire.cfg"]).2 matches Some(p) && p.last() == "wildfire.cfg"@);
    assert(bot_with_cfg("wildfire.cfg"@) == "wildfire"@);
    lemma_insert_indexed(m12, "wildfire"@, pack_entry("Wildfire"@, seq!["RLBotPack", "Wildfire_Lightfall_Fix", "python", "wildfire.cfg"]));
    let m13 = m12.insert("wildfire"@, pack_entry("Wildfire"@, seq!["RLBotPack", "Wildfire_Lightfall_Fix", "python", "wildfire.cfg"]));
    assert(pack_entry("Diablo"@, seq!["RLBotPack", "Diablo", "diablo.cfg"]).2 matches Some(p) && p.last() == "diablo.cfg"@);
    assert(bot_with_cfg("diablo.cfg"@) == "diablo"@);
    lemma_insert_indexed(m13, "diablo"@, pack_entry("Diablo"@, seq!["RLBotPack", "Diablo", "diablo.cfg"]));
    let m14 = m13.insert("diablo"@, pack_entry("Diablo"@, seq!["RLBotPack", "Diablo", "diablo.cfg"]));
    assert(pack_entry("rashBot"@, seq!["RLBotPack", "MarvinBots", "rashBot", "rashBot.cfg"]).2 matches Some(p) && p.last() == "rashBot.cfg"@);
    assert(bot_with_cfg("rashBot.cfg"@) == "rashbot"@);
    lemma_insert_indexed(m14, "rashbot"@, pack_entry("rashBot"@, seq!["RLBotPack", "MarvinBots", "rashBot", "rashBot.cfg"]));
    let m15 = m14.insert("rashbot"@, pack_entry("rashBot"@, seq!["RLBotPack", "MarvinBots", "rashBot", "rashBot.cfg"]));
    assert(pack_entry("Stick"@, seq!["RLBotPack", "MarvinBots", "Stick", "stick.cfg"]).2 matches Some(p) && p.last() == "stick.cfg"@);
    assert(bot_with_cfg("stick.cfg"@) == "stick"@);
    lemma_insert_indexed(m15, "stick"@, pack_entry("Stick"@, seq!["RLBotPack", "MarvinBots", "Stick", "stick.cfg"]));
    let m16 = m15.insert("stick"@, pack_entry("Stick"@, seq!["RLBotPack", "MarvinBots", "Stick", "stick.cfg"]));
    assert(pack_entry("Leaf"@, seq!["RLBotPack", "MarvinBots", "Leaf", "leaf.cfg"]).2 matches Some(p) && p.last() == "leaf.cfg"@);
    assert(bot_with_cfg("leaf.cfg"@) == "leaf"@);
    lemma_insert_indexed(m16, "leaf"@, pack_entry("Leaf"@, seq!["RLBotPack", "MarvinBots", "Leaf", "leaf.cfg"]));
    let m17 = m16.insert("leaf"@, pack_entry("Leaf"@, seq!["RLBotPack", "MarvinBots", "Leaf", "leaf.cfg"]));
    assert(pack_entry("Lanfear"@, seq!["RLBotPack", "The Forsaken", "Lanfear.cfg"]).2 matches Some(p) && p.last() == "Lanfear.cfg"@);
    assert(bot_with_cfg("Lanfear.cfg"@) == "lanfear"@);
    lemma_insert_indexed(m17, "lanfear"@, pack_entry("Lanfear"@, seq!["RLBotPack", "The Forsaken", "Lanfear.cfg"]));
    let m18 = m17.insert("lanfear"@, pack_entry("Lanfear"@, seq!["RLBotPack", "The Forsaken", "Lanfear.cfg"]));
    assert(pack_entry("Phoenix"@, seq!["RLBotPack", "PhoenixCS", "phoenix.cfg"]).2 matches Some(p) && p.last() == "phoenix.cfg"@);
    assert(bot_with_cfg("phoenix.cfg"@) == "phoenix"@);
    lemma_insert_indexed(m18, "phoenix"@, pack_entry("Phoenix"@, seq!["RLBotPack", "PhoenixCS", "phoenix.cfg"]));
    let m19 = m18.insert("phoenix"@, pack_entry("Phoenix"@, seq!["RLBotPack", "PhoenixCS", "phoenix.cfg"]));
    assert(pack_entry("Atlas"@, seq!["RLBotPack", "Atlas_Wintertide_Patch", "AtlasAgent", "Atlas.cfg"]).2 matches Some(p) && p.last() == "Atlas.cfg"@);
    assert(bot_with_cfg("Atlas.cfg"@) == "atlas"@);
    lemma_insert_indexed(m19, "atlas"@, pack_entry("Atlas"@, seq!["RLBotPack", "Atlas_Wintertide_Patch", "AtlasAgent", "Atlas.cfg"]));
    let m20 = m19.insert("atlas"@, pack_entry("Atlas"@, seq!["RLBotPack", "Atlas_Wintertide_Patch", "AtlasAgent", "Atlas.cfg"]));
    assert(pack_entry("Sniper"@, seq!["RLBotPack", "Sniper", "sniper.cfg"]).2 matches Some(p) && p.last() == "sniper.cfg"@);
    assert(bot_with_cfg("sniper.cfg"@) == "sniper"@);
    lemma_insert_indexed(m20, "sniper"@, pack_entry("Sniper"@, seq!["RLBotPack", "Sniper", "sniper.cfg"]));
    let m21 = m20.insert("sniper"@, pack_entry("Sniper"@, seq!["RLBotPack", "Sniper", "sniper.cfg"]));
    assert(pack_entry("Snek"@, seq!["RLBotPack", "Snek", "snek.cfg"]).2 matches Some(p) && p.last() == "snek.cfg"@);
    assert(bot_with_cfg("snek.cfg"@) == "snek"@);
    lemma_insert_indexed(m21, "snek"@, pack_entry("Snek"@, seq!["RLBotPack", "Snek", "snek.cfg"]));
    let m22 = m21.insert("snek"@, pack_entry("Snek"@, seq!["RLBotPack", "Snek", "snek.cfg"]));
    assert(pack_entry("NomBot"@, seq!["RLBotPack", "DomNomNom", "NomBot_v1.0", "NomBot_v1.cfg"]).2 matches Some(p) && p.last() == "NomBot_v1.cfg"@);
    assert(bot_with_cfg("NomBot_v1.cfg"@) == "nombot"@);
    lemma_insert_indexed(m22, "nombot"@, pack_entry("NomBot"@, seq!["RLBotPack", "DomNomNom", "NomBot_v1.0", "NomBot_v1.cfg"]));
    let m23 = m22.insert("nombot"@, pack_entry("NomBot"@, seq!["RLBotPack", "DomNomNom", "NomBot_v1.0", "NomBot_v1.cfg"]));
    assert(pack_entry("Beast from the East"@, seq!["RLBotPack", "beastbot", "beastbot.cfg"]).2 matches Some(p) && p.last() == "beastbot.cfg"@);
    assert(bot_with_cfg("beastbot.cfg"@) == "beast"@);
    lemma_insert_indexed(m23, "beast"@, pack_entry("Beast from the East"@, seq!["RLBotPack", "beastbot", "beastbot.cfg"]));
    let m24 = m23.insert("beast"@, pack_entry("Beast from the East"@, seq!["RLBotPack", "beastbot", "beastbot.cfg"]));
    assert(pack_entry("Codename Cryo"@, seq!["RLBotPack", "Codename_Cryo", "Codename_Cryo.cfg"]).2 matches Some(p) && p.last() == "Codename_Cryo.cfg"@);
    assert(bot_with_cfg("Codename_Cryo.cfg"@) == "cryo"@);
    lemma_insert_indexed(m24, "cryo"@, pack_entry("Codename Cryo"@, seq!["RLBotPack", "Codename_Cryo", "Codename_Cryo.cfg"]));
    let m25 = m24.insert("cryo"@, pack_entry("Codename Cryo"@, seq!["RLBotPack", "Codename_Cryo", "Codename_Cryo.cfg"]));
    assert(pack_entry("PenguinBot"@, seq!["RLBotPack", "PenguinBot", "penguin_config.cfg"]).2 matches Some(p) && p.last() == "penguin_config.cfg"@);
    assert(bot_with_cfg("penguin_config.cfg"@) == "penguin"@);
    lemma_insert_indexed(m25, "penguin"@, pack_entry("PenguinBot"@, seq!["RLBotPack", "PenguinBot", "penguin_config.cfg"]));
    let m26 = m25.insert("penguin"@, pack_entry("PenguinBot"@, seq!["RLBotPack", "PenguinBot", "penguin_config.cfg"]));
    assert(pack_entry("St. Peter"@, seq!["RLBotPack", "Kamael_family", "peter.cfg"]).2 matches Some(p) && p.last() == "peter.cfg"@);
    assert(bot_with_cfg("peter.cfg"@) == "peter"@);
    lemma_insert_indexed(m26, "peter"@, pack_entry("St. Peter"@, seq!["RLBotPack", "Kamael_family", "peter.cfg"]));
    let m27 = m26.insert("peter"@, pack_entry("St. Peter"@, seq!["RLBotPack", "Kamael_family", "peter.cfg"]));
    assert(pack_entry("Invisibot"@, seq!["RLBotPack", "Invisibot", "src", "invisibot.cfg"]).2 matches Some(p) && p.last() == "invisibot.cfg"@);
    assert(bot_with_cfg("invisibot.cfg"@) == "invisibot"@);
    lemma_insert_indexed(m27, "invisibot"@, pack_entry("Invisibot"@, seq!["RLBotPack", "Invisibot", "src", "invisibot.cfg"]));
    let m28 = m27.insert("invisibot"@, pack_entry("Invisibot"@, seq!["RLBotPack", "Invisibot", "src", "invisibot.cfg"]));
    assert(m28 == bots_table());
}

/// A Psyonix bot.
fn psyonix_bot(name: &str) -> (r: StoryBot)
    ensures
        bot_view(r) == psyonix_entry(name@),
        well_formed_bot(r),
{
    StoryBot { name: name.to_owned(), type_field: BotType::Psyonix, path: None }
}

/// A bot of the bot pack, at `rest` under the pack's root.
fn pack_bot(name: &str, rest: &[&str]) -> (r: StoryBot)
    ensures
        bot_view(r) == pack_entry(name@, rest@),
        well_formed_bot(r),
{
    let mut path: Vec<String> = Vec::new();
    path.push("$RLBOTPACKROOT".to_owned());
    let mut tail = vec_to_string(rest);
    let ghost head = path@;
    let ghost tail_parts = tail@;
    path.append(&mut tail);
    proof {
        assert(views(path@) =~= views(head) + views(tail_parts));
    }
    StoryBot { name: name.to_owned(), type_field: BotType::Rlbot, path: Some(path) }
}

fn add_bot(bots: &mut StrMap<StoryBot>, id: &str, bot: StoryBot)
    requires
        well_formed_table(old(bots)@),
        well_formed_bot(bot),
    ensures
        final(bots)@ == old(bots)@.insert(id@, bot),
        final(bots)@.map_values(|b: StoryBot| bot_view(b)) == old(bots)@.map_values(|b: StoryBot| bot_view(b)).insert(id@, bot_view(bot)),
        final(bots)@.dom().finite(),
        well_formed_table(final(bots)@),
{
    let ghost before = bots@;
    let ghost b = bot;
    bots.insert(id.to_owned(), bot);
    assert(bots@.map_values(|b: StoryBot| bot_view(b)) =~= before.map_values(|b: StoryBot| bot_view(b)).insert(id@, bot_view(b)));
}

/// A story bot as plain values: its name, how it is run, and its story path.
pub open spec fn bot_view(b: StoryBot) -> (Seq<char>, BotType, Option<Seq<Seq<char>>>) {
    (b.name@, b.type_field, match b.path {
        Some(p) => Some(views(p@)),
        None => None,
    })
}

/// A Psyonix bot of the table, by its name.
pub open spec fn psyonix_entry(name: Seq<char>) -> (Seq<char>, BotType, Option<Seq<Seq<char>>>) {
    (name, BotType::Psyonix, None)
}

/// A bot of the bot pack in the table: its name and its story path, the parts
/// `rest` under the pack's root.
pub open spec fn pack_entry(name: Seq<char>, rest: Seq<&str>) -> (Seq<char>, BotType, Option<Seq<Seq<char>>>) {
    (name, BotType::Rlbot, Some(seq![botpack_root_token()] + str_views(rest)))
}

/// The bots every story can use, by id.
pub open spec fn bots_table() -> Map<Seq<char>, (Seq<char>, BotType, Option<Seq<Seq<char>>>)> {
    Map::empty()
        .insert("psyonix-pro"@, psyonix_entry("Psyonix Pro"@))
        .insert("psyonix-allstar-name"@, psyonix_entry("Psyonix Allstar"@))
        .insert("adversity"@, pack_entry("AdversityBot"@, seq!["RLBotPack", "ReliefBotFamily", "README", "adversity_bot.cfg"]))
        .insert("airbud"@, pack_entry("Airbud"@, seq!["RLBotPack", "ReliefBotFamily", "README", "air_bud.cfg"]))
        .insert("reliefbot"@, pack_entry("ReliefBot"@, seq!["RLBotPack", "ReliefBotFamily", "README", "relief_bot.cfg"]))
        .insert("sdc"@, pack_entry("Self-Driving Car"@, seq!["RLBotPack", "Self-driving car", "self-driving-car.cfg"]))
        .insert("kamael"@, pack_entry("Kamael"@, seq!["RLBotPack", "Kamael_family", "Kamael.cfg"]))
        .insert("botimus"@, pack_entry("BoltimusPrime"@, seq!["RLBotPack", "Botimus&Bumblebee", "botimus.cfg"]))
        .insert("bumblebee"@, pack_entry("Bumblebee"@, seq!["RLBotPack", "Botimus&Bumblebee", "bumblebee.cfg"]))
        .insert("baf"@, pack_entry("Flying Panda"@, seq!["RLBotPack", "blind_and_deaf", "_story_mode_bot.cfg"]))
        .insert("tbd"@, psyonix_entry("Psyonix Allstar"@))
        .insert("skybot"@, pack_entry("Skybot"@, seq!["RLBotPack", "Skybot", "SkyBot.cfg"]))
        .insert("wildfire"@, pack_entry("Wildfire"@, seq!["RLBotPack", "Wildfire_Lightfall_Fix", "python", "wildfire.cfg"]))
        .insert("diablo"@, pack_entry("Diablo"@, seq!["RLBotPack", "Diablo", "diablo.cfg"]))
        .insert("rashbot"@, pack_entry("rashBot"@, seq!["RLBotPack", "MarvinBots", "rashBot", "rashBot.cfg"]))
        .insert("stick"@, pack_entry("Stick"@, seq!["RLBotPack", "MarvinBots", "Stick", "stick.cfg"]))
        .insert("leaf"@, pack_entry("Leaf"@, seq!["RLBotPack", "MarvinBots", "Leaf", "leaf.cfg"]))
        .insert("lanfear"@, pack_entry("Lanfear"@, seq!["RLBotPack", "The Forsaken", "Lanfear.cfg"]))
        .insert("phoenix"@, pack_entry("Phoenix"@, seq!["RLBotPack", "PhoenixCS", "phoenix.cfg"]))
        .insert("atlas"@, pack_entry("Atlas"@, seq!["RLBotPack", "Atlas_Wintertide_Patch", "AtlasAgent", "Atlas.cfg"]))
        .insert("sniper"@, pack_entry("Sniper"@, seq!["RLBotPack", "Sniper", "sniper.cfg"]))
        .insert("snek"@, pack_entry("Snek"@, seq!["RLBotPack", "Snek", "snek.cfg"]))
        .insert("nombot"@, pack_entry("NomBot"@, seq!["RLBotPack", "DomNomNom", "NomBot_v1.0", "NomBot_v1.cfg"]))
        .insert("beast"@, pack_entry("Beast from the East"@, seq!["RLBotPack", "beastbot", "beastbot.cfg"]))
        .insert("cryo"@, pack_entry("Codename Cryo"@, seq!["RLBotPack", "Codename_Cryo", "Codename_Cryo.cfg"]))
        .insert("penguin"@, pack_entry("PenguinBot"@, seq!["RLBotPack", "PenguinBot", "penguin_config.cfg"]))
        .insert("peter"@, pack_entry("St. Peter"@, seq!["RLBotPack", "Kamael_family", "peter.cfg"]))
        .insert("invisibot"@, pack_entry("Invisibot"@, seq!["RLBotPack", "Invisibot", "src", "invisibot.cfg"]))
}

/// The table of the bots every story can use, by id: each Psyonix bot without a
/// path, each bot of the bot pack with its story path under the pack's root.
pub fn json() -> (r: StrMap<StoryBot>)
    ensures
        r@.map_values(|b: StoryBot| bot_view(b)) == bots_table(),
        well_formed_table(r@),
        r@.dom().finite(),
{
    let mut bots: StrMap<StoryBot> = StrMap::new();
    assert(bots@.map_values(|b: StoryBot| bot_view(b)) =~= Map::empty());
    add_bot(&mut bots, "psyonix-pro", psyonix_bot("Psyonix Pro"));
    add_bot(&mut bots, "psyonix-allstar-name", psyonix_bot("Psyonix Allstar"));
    add_bot(&mut bots, "adversity", pack_bot("AdversityBot", &["RLBotPack", "ReliefBotFamily", "README", "adversity_bot.cfg"]));
    add_bot(&mut bots, "airbud", pack_bot("Airbud", &["RLBotPack", "ReliefBotFamily", "README", "air_bud.cfg"]));
    add_bot(&mut bots, "reliefbot", pack_bot("ReliefBot", &["RLBotPack", "ReliefBotFamily", "README", "relief_bot.cfg"]));
    add_bot(&mut bots, "sdc", pack_bot("Self-Driving Car", &["RLBotPack", "Self-driving car", "self-driving-car.cfg"]));
    add_bot(&mut bots, "kamael", pack_bot("Kamael", &["RLBotPack", "Kamael_family", "Kamael.cfg"]));
    add_bot(&mut bots, "botimus", pack_bot("BoltimusPrime", &["RLBotPack", "Botimus&Bumblebee", "botimus.cfg"]));
    add_bot(&mut bots, "bumblebee", pack_bot("Bumblebee", &["RLBotPack", "Botimus&Bumblebee", "bumblebee.cfg"]));
    add_bot(&mut bots, "baf", pack_bot("Flying Panda", &["RLBotPack", "blind_and_deaf", "_story_mode_bot.cfg"]));
    add_bot(&mut bots, "tbd", psyonix_bot("Psyonix Allstar"));
    add_bot(&mut bots, "skybot", pack_bot("Skybot", &["RLBotPack", "Skybot", "SkyBot.cfg"]));
    add_bot(&mut bots, "wildfire", pack_bot("Wildfire", &["RLBotPack", "Wildfire_Lightfall_Fix", "python", "wildfire.cfg"]));
    add_bot(&mut bots, "diablo", pack_bot("Diablo", &["RLBotPack", "Diablo", "diablo.cfg"]));
    add_bot(&mut bots, "rashbot", pack_bot("rashBot", &["RLBotPack", "MarvinBots", "rashBot", "rashBot.cfg"]));
    add_bot(&mut bots, "stick", pack_bot("Stick", &["RLBotPack", "MarvinBots", "Stick", "stick.cfg"]));
    add_bot(&mut bots, "leaf", pack_bot("Leaf", &["RLBotPack", "MarvinBots", "Leaf", "leaf.cfg"]));
    add_bot(&mut bots, "lanfear", pack_bot("Lanfear", &["RLBotPack", "The Forsaken", "Lanfear.cfg"]));
    add_bot(&mut bots, "phoenix", pack_bot("Phoenix", &["RLBotPack", "PhoenixCS", "phoenix.cfg"]));
    add_bot(&mut bots, "atlas", pack_bot("Atlas", &["RLBotPack", "Atlas_Wintertide_Patch", "AtlasAgent", "Atlas.cfg"]));
    add_bot(&mut bots, "sniper", pack_bot("Sniper", &["RLBotPack", "Sniper", "sniper.cfg"]));
    add_bot(&mut bots, "snek", pack_bot("Snek", &["RLBotPack", "Snek", "snek.cfg"]));
    add_bot(&mut bots, "nombot", pack_bot("NomBot", &["RLBotPack", "DomNomNom", "NomBot_v1.0", "NomBot_v1.cfg"]));
    add_bot(&mut bots, "beast", pack_bot("Beast from the East", &["RLBotPack", "beastbot", "beastbot.cfg"]));
    add_bot(&mut bots, "cryo", pack_bot("Codename Cryo", &["RLBotPack", "Codename_Cryo", "Codename_Cryo.cfg"]));
    add_bot(&mut bots, "penguin", pack_bot("PenguinBot", &["RLBotPack", "PenguinBot", "penguin_config.cfg"]));
    add_bot(&mut bots, "peter", pack_bot("St. Peter", &["RLBotPack", "Kamael_family", "peter.cfg"]));
    add_bot(&mut bots, "invisibot", pack_bot("Invisibot", &["RLBotPack", "Invisibot", "src", "invisibot.cfg"]));
    assert(bots@.map_values(|b: StoryBot| bot_view(b)) =~= bots_table());
    bots
}

} // verus!
