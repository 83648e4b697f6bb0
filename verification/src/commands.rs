//! The decisions behind the GUI's commands: which package to install, how a story
//! challenge is set up, what a console command runs, which bundles need their
//! packages or logos looked up.

use vstd::prelude::*;
use crate::bot_config_bundle::RLBotCfgParseError;
use crate::match_settings_config_parser::{BoostAmount, ExistingMatchBehavior, GameMode, MapType, Rumble};
use crate::settings::{LogoUpdate, MiniMatchConfig, MiniScriptBundle, MissingPackagesUpdate, MutatorConfig};
use crate::stories::{Challenge, City, Script};
use crate::story::Team;
use crate::str_map::StrMap;
use crate::text::{opt_view, seq_contains, str_contains, str_eq, str_starts_with, views};
use std::path::PathBuf;

verus! {

/// The packages the GUI installs, with their version constraints.
pub open spec fn packages() -> Seq<Seq<char>> {
    seq![
        "pip"@,
        "setuptools"@,
        "wheel"@,
        "numpy<1.23"@,
        "scipy"@,
        "numba<0.56"@,
        "selenium"@,
        "rlbot==1.*"@,
        "rlbot_smh>=1.0.13"@,
    ]
}

/// The first of `ps` in which `name` occurs.
pub open spec fn first_containing(ps: Seq<Seq<char>>, name: Seq<char>) -> Option<Seq<char>>
    decreases ps.len(),
{
    if ps.len() == 0 {
        None
    } else if seq_contains(ps[0], name) {
        Some(ps[0])
    } else {
        first_containing(ps.drop_first(), name)
    }
}

/// Applies the GUI's version constraints to a package name: the first known
/// package whose entry contains the name, else the name itself.
pub fn get_package_name<'a>(package_name: &'a str) -> (r: &'a str)
    ensures
        r@ == match first_containing(packages(), package_name@) {
            Some(p) => p,
            None => package_name@,
        },
{
    let known: [&'static str; 9] = [
        "pip",
        "setuptools",
        "wheel",
        "numpy<1.23",
        "scipy",
        "numba<0.56",
        "selenium",
        "rlbot==1.*",
        "rlbot_smh>=1.0.13",
    ];
    let ghost ps = packages();
    assert(known@.map_values(|p: &str| p@) =~= ps);
    assert(ps.subrange(0, 9) =~= ps);
    let mut i: usize = 0;
    while i < 9
        invariant
            i <= 9,
            known@.map_values(|p: &str| p@) == ps,
            ps == packages(),
            first_containing(ps, package_name@) == first_containing(ps.subrange(i as int, 9), package_name@),
        decreases 9 - i,
    {
        let p: &'static str = known[i];
        assert(ps.subrange(i as int, 9)[0] == p@);
        assert(ps.subrange(i as int, 9).drop_first() =~= ps.subrange(i + 1, 9));
        if str_contains(p, package_name) {
            return p;
        }
        i = i + 1;
    }
    assert(ps.subrange(9, 9) =~= Seq::<Seq<char>>::empty());
    package_name
}

/// Whether `v` holds a string equal to `s`.
pub fn contains_string(v: &Vec<String>, s: &str) -> (r: bool)
    ensures
        r == views(v@).contains(s@),
{
    let mut i: usize = 0;
    while i < v.len()
        invariant
            i <= v@.len(),
            forall|j: int| 0 <= j < i ==> v@[j]@ != s@,
        decreases v.len() - i,
    {
        if str_eq(v[i].as_str(), s) {
            assert(views(v@)[i as int] == s@);
            return true;
        }
        i = i + 1;
    }
    assert forall|j: int| 0 <= j < views(v@).len() implies views(v@)[j] != s@ by {
        assert(views(v@)[j] == v@[j]@);
    }
    false
}

/// The match settings of a story challenge: heatseeker when the challenge is
/// played on half the field, the challenge's map and score limit, no boost when
/// the challenge disables it, rumble when it has been bought, state setting on,
/// and the given scripts; everything else at its default.
pub fn make_match_config(challenge: &Challenge, upgrades: &StrMap<usize>, script_configs: Vec<MiniScriptBundle>) -> (r: MiniMatchConfig)
    ensures
        r.game_mode == (if views(challenge.limitations@).contains("half-field"@) { GameMode::Heatseeker } else { GameMode::Soccer }),
        r.map == challenge.map,
        r.match_behavior == ExistingMatchBehavior::RestartIfDifferent,
        !r.skip_replays && !r.instant_start && !r.enable_lockstep && !r.randomize_map,
        !r.enable_rendering && r.enable_state_setting && !r.auto_save_replay,
        r.scripts == script_configs,
        r.mutators == (MutatorConfig {
            max_score: challenge.max_score,
            boost_amount: if challenge.disabled_boost { BoostAmount::NoBoost } else { BoostAmount::Default },
            rumble: if upgrades@.contains_key("rumble"@) { Rumble::Default } else { Rumble::NoRumble },
            ..MutatorConfig::default_value()
        }),
{
    let game_mode = if contains_string(&challenge.limitations, "half-field") {
        GameMode::Heatseeker
    } else {
        GameMode::default()
    };
    let mut mutators = MutatorConfig::default();
    mutators.max_score = challenge.max_score;
    mutators.boost_amount = if challenge.disabled_boost { BoostAmount::NoBoost } else { BoostAmount::default() };
    mutators.rumble = if upgrades.contains_key("rumble") { Rumble::Default } else { Rumble::default() };
    let mut config = MiniMatchConfig::default();
    config.game_mode = game_mode;
    config.map = challenge.map.clone();
    config.enable_state_setting = true;
    config.scripts = script_configs;
    config.mutators = mutators;
    config
}

/// The index of the first challenge of `challenges` whose id is `id`.
pub open spec fn challenge_index(challenges: Seq<Challenge>, id: Seq<char>) -> Option<int> {
    if exists|i: int| 0 <= i < challenges.len() && #[trigger] challenges[i].id@ == id {
        Some(choose|i: int| 0 <= i < challenges.len() && #[trigger] challenges[i].id@ == id
            && forall|j: int| 0 <= j < i ==> challenges[j].id@ != id)
    } else {
        None
    }
}

/// A copy of the first challenge of the city with the given id, if any.
pub fn find_challenge_in_city(challenge_id: &str, city: &City) -> (r: Option<Challenge>)
    ensures
        match r {
            None => forall|i: int| 0 <= i < city.challenges@.len() ==> #[trigger] city.challenges@[i].id@ != challenge_id@,
            Some(c) => exists|i: int| 0 <= i < city.challenges@.len() && Challenge::same_challenge(c, #[trigger] city.challenges@[i])
                && c.id@ == challenge_id@ && forall|j: int| 0 <= j < i ==> city.challenges@[j].id@ != challenge_id@,
        },
{
    let mut i: usize = 0;
    while i < city.challenges.len()
        invariant
            i <= city.challenges@.len(),
            forall|j: int| 0 <= j < i ==> #[trigger] city.challenges@[j].id@ != challenge_id@,
        decreases city.challenges.len() - i,
    {
        if str_eq(city.challenges[i].id.as_str(), challenge_id) {
            return Some(city.challenges[i].clone());
        }
        i = i + 1;
    }
    None
}

/// The token that stands for the root of the bot pack in story paths.
pub open spec fn botpack_root_token() -> Seq<char> {
    "$RLBOTPACKROOT"@
}

/// The parts of a story path with the bot pack's root in place of its token.
pub open spec fn resolved_parts(parts: Seq<String>, botpack_root: Seq<char>) -> Seq<Seq<char>> {
    parts.map_values(|p: String| if p@ == botpack_root_token() { botpack_root } else { p@ })
}

/// Puts the bot pack's root in place of its token in the parts of a story path.
pub fn resolve_path_parts(parts: &Vec<String>, botpack_root: &str) -> (r: Vec<String>)
    ensures
        views(r@) == resolved_parts(parts@, botpack_root@),
{
    let mut r: Vec<String> = Vec::new();
    let mut i: usize = 0;
    while i < parts.len()
        invariant
            i <= parts@.len(),
            views(r@) == resolved_parts(parts@.subrange(0, i as int), botpack_root@),
        decreases parts.len() - i,
    {
        let part = &parts[i];
        let ghost before = r@;
        let resolved = if str_eq(part.as_str(), "$RLBOTPACKROOT") {
            botpack_root.to_owned()
        } else {
            part.clone()
        };
        r.push(resolved);
        assert(parts@.subrange(0, i + 1) =~= parts@.subrange(0, i as int).push(*part));
        assert(resolved_parts(parts@.subrange(0, i + 1), botpack_root@) =~= resolved_parts(parts@.subrange(0, i as int), botpack_root@).push(resolved@));
        assert(views(r@) =~= views(before).push(resolved@));
        i = i + 1;
    }
    assert(parts@.subrange(0, i as int) =~= parts@);
    r
}

/// The text of the path that `PathBuf::push` makes of the path `base` and `part`,
/// by the path rules of the target the library is built for.
pub uninterp spec fn path_pushed(base: Seq<char>, part: Seq<char>) -> Seq<char>;

/// `PathBuf::push` onto the path `base` (converted from and back to text, which
/// loses nothing for paths made of strings): `part` appended with the target's
/// separator, or in place of `base` where `part` is absolute.
#[verifier::external_body]
fn push_path(base: &str, part: &str) -> (r: String)
    ensures
        r@ == path_pushed(base@, part@),
{
    let mut path = PathBuf::from(base);
    path.push(part);
    path.to_string_lossy().to_string()
}

/// The text of the path made by pushing `parts` in turn onto an empty path.
pub open spec fn joined_path(parts: Seq<Seq<char>>) -> Seq<char>
    decreases parts.len(),
{
    if parts.len() == 0 {
        Seq::empty()
    } else {
        path_pushed(joined_path(parts.drop_last()), parts.last())
    }
}

/// Collapses a story path, such as `["$RLBOTPACKROOT", "RLBotPack", "Kamael_family",
/// "Kamael.cfg"]`, to a path on the file system: the parts, the bot pack's root in
/// place of its token (see `resolve_path_parts`), pushed in turn onto an empty path.
pub fn collapse_path(cfg_path: Option<&Vec<String>>, botpack_root: &str) -> (r: Option<String>)
    ensures
        match cfg_path {
            None => r is None,
            Some(p) => r matches Some(t) && t@ == joined_path(resolved_parts(p@, botpack_root@)),
        },
{
    let parts = match cfg_path {
        Some(p) => resolve_path_parts(p, botpack_root),
        None => {
            return None;
        },
    };
    let mut path = String::new();
    let mut i: usize = 0;
    while i < parts.len()
        invariant
            i <= parts@.len(),
            path@ == joined_path(views(parts@).subrange(0, i as int)),
        decreases parts.len() - i,
    {
        assert(views(parts@).subrange(0, i + 1).drop_last() =~= views(parts@).subrange(0, i as int));
        assert(views(parts@).subrange(0, i + 1).last() == parts@[i as int]@);
        path = push_path(path.as_str(), parts[i].as_str());
        i = i + 1;
    }
    assert(views(parts@).subrange(0, parts@.len() as int) =~= views(parts@));
    Some(path)
}

/// The script bundle for a story script, by its collapsed path.
pub fn script_to_miniscript_bundle(script: &Script, botpack_root: &str) -> (r: MiniScriptBundle)
    ensures
        r.path@ == joined_path(resolved_parts(script.path@, botpack_root@)),
{
    let path = match collapse_path(Some(&script.path), botpack_root) {
        Some(p) => p,
        None => String::new(),
    };
    MiniScriptBundle { path }
}

/// The collapsed paths, in order, of the scripts among `names` that `scripts` defines.
pub open spec fn known_script_paths(names: Seq<String>, scripts: Map<Seq<char>, Script>, botpack_root: Seq<char>) -> Seq<Seq<char>>
    decreases names.len(),
{
    if names.len() == 0 {
        Seq::empty()
    } else {
        let rest = known_script_paths(names.drop_last(), scripts, botpack_root);
        if scripts.contains_key(names.last()@) {
            rest.push(joined_path(resolved_parts(scripts[names.last()@].path@, botpack_root)))
        } else {
            rest
        }
    }
}

/// The paths of script bundles.
pub open spec fn bundle_paths(b: Seq<MiniScriptBundle>) -> Seq<Seq<char>> {
    b.map_values(|m: MiniScriptBundle| m.path@)
}

/// How many of `names` name a script of `scripts`.
pub open spec fn known_scripts(names: Seq<String>, scripts: Map<Seq<char>, Script>) -> nat
    decreases names.len(),
{
    if names.len() == 0 {
        0
    } else {
        known_scripts(names.drop_last(), scripts) + if scripts.contains_key(names.last()@) { 1nat } else { 0nat }
    }
}

/// The script bundles of a challenge: one for each of its scripts that the story
/// defines, in the challenge's order; the others are skipped.
pub fn make_script_configs(challenge: &Challenge, all_scripts: &StrMap<Script>, botpack_root: &str) -> (r: Vec<MiniScriptBundle>)
    ensures
        r@.len() == known_scripts(challenge.scripts@, all_scripts@),
        bundle_paths(r@) == known_script_paths(challenge.scripts@, all_scripts@, botpack_root@),
{
    let mut r: Vec<MiniScriptBundle> = Vec::new();
    let mut i: usize = 0;
    while i < challenge.scripts.len()
        invariant
            i <= challenge.scripts@.len(),
            r@.len() == known_scripts(challenge.scripts@.subrange(0, i as int), all_scripts@),
            bundle_paths(r@) == known_script_paths(challenge.scripts@.subrange(0, i as int), all_scripts@, botpack_root@),
        decreases challenge.scripts.len() - i,
    {
        assert(challenge.scripts@.subrange(0, i + 1).drop_last() =~= challenge.scripts@.subrange(0, i as int));
        assert(challenge.scripts@.subrange(0, i + 1).last() == challenge.scripts@[i as int]);
        match all_scripts.get(challenge.scripts[i].as_str()) {
            Some(script) => {
                let ghost before = r@;
                let bundle = script_to_miniscript_bundle(script, botpack_root);
                r.push(bundle);
                assert(bundle_paths(r@) =~= bundle_paths(before).push(bundle.path@));
            },
            None => {},
        }
        i = i + 1;
    }
    assert(challenge.scripts@.subrange(0, i as int) =~= challenge.scripts@);
    r
}

/// What the GUI reports of python: whether it runs, and whether the packages
/// rlbot needs import (looked at only when it runs).
pub fn python_support(python_runs: bool, rlbot_imports: bool) -> (r: StrMap<bool>)
    ensures
        r@ == map!["python"@ => python_runs, "rlbotpython"@ => python_runs && rlbot_imports],
{
    let mut r = StrMap::new();
    r.insert("python".to_owned(), python_runs);
    r.insert("rlbotpython".to_owned(), python_runs && rlbot_imports);
    proof {
        reveal_strlit("python");
        reveal_strlit("rlbotpython");
        assert("python"@.len() != "rlbotpython"@.len());
        assert(r@ =~= map!["python"@ => python_runs, "rlbotpython"@ => python_runs && rlbot_imports]);
    }
    r
}

/// Whether the python packages of a bundle are looked up: when rlbot runs it and
/// it may need python packages.
pub fn checks_python_packages(rlbot_controlled: bool, may_require_python_packages: bool) -> (r: bool)
    ensures
        r == (rlbot_controlled && may_require_python_packages),
{
    rlbot_controlled && may_require_python_packages
}

/// The update for bundle `index` whose missing packages are already known: its
/// package warning goes when the list is empty; otherwise nothing changes.
pub fn known_packages_update(index: usize, warn: &Option<String>, known: &Vec<String>) -> (r: Option<MissingPackagesUpdate>)
    ensures
        (opt_view(*warn) == Some("pythonpkg"@) && known@.len() == 0) ==> (r matches Some(u) && u.index == index
            && u.warn is None && (u.missing_packages matches Some(m) && m@ == known@)),
        !(opt_view(*warn) == Some("pythonpkg"@) && known@.len() == 0) ==> r is None,
{
    let is_package_warning = match warn {
        Some(w) => str_eq(w.as_str(), "pythonpkg"),
        None => false,
    };
    if is_package_warning && known.len() == 0 {
        Some(MissingPackagesUpdate { index, warn: None, missing_packages: Some(crate::bot_config_bundle::clone_strings(known)) })
    } else {
        None
    }
}

/// The update for bundle `index` whose missing packages were just looked up: the
/// package warning shows when any is missing.
pub fn found_packages_update(index: usize, found: Vec<String>) -> (r: MissingPackagesUpdate)
    ensures
        r.index == index,
        found@.len() == 0 ==> r.warn is None,
        found@.len() > 0 ==> opt_view(r.warn) == Some("pythonpkg"@),
        r.missing_packages == Some(found),
{
    let warn = if found.len() == 0 { None } else { Some("pythonpkg".to_owned()) };
    MissingPackagesUpdate { index, warn, missing_packages: Some(found) }
}

/// The update for bundle `index` when rlbot is not installed: a bundle run by rlbot
/// loses its warning and package list, if it has either.
pub fn stale_packages_update(index: usize, rlbot_controlled: bool, warn: &Option<String>, missing: &Option<Vec<String>>) -> (r: Option<MissingPackagesUpdate>)
    ensures
        (rlbot_controlled && (warn is Some || missing is Some)) ==> (r matches Some(u) && u.index == index
            && u.warn is None && u.missing_packages is None),
        !(rlbot_controlled && (warn is Some || missing is Some)) ==> r is None,
{
    if rlbot_controlled && (warn.is_some() || missing.is_some()) {
        Some(MissingPackagesUpdate { index, warn: None, missing_packages: None })
    } else {
        None
    }
}

/// Whether the logo of a bundle is to be loaded: when rlbot runs it and it has none yet.
pub fn needs_logo(rlbot_controlled: bool, logo: &Option<String>) -> (r: bool)
    ensures
        r == (rlbot_controlled && logo is None),
{
    rlbot_controlled && logo.is_none()
}

/// The logo update for bundle `index`, if a logo was loaded for it.
pub fn logo_update(index: usize, loaded: Option<String>) -> (r: Option<LogoUpdate>)
    ensures
        match loaded {
            Some(l) => r matches Some(u) && u.index == index && u.logo == l,
            None => r is None,
        },
{
    match loaded {
        Some(logo) => Some(LogoUpdate { index, logo }),
        None => None,
    }
}

/// The parts of a command for the match handler, each followed by ` | `, the last
/// by ` | ` and a line feed.
pub open spec fn handler_command(parts: Seq<Seq<char>>) -> Seq<char>
    decreases parts.len(),
{
    if parts.len() == 0 {
        " | \n"@
    } else if parts.len() == 1 {
        parts[0] + " | \n"@
    } else {
        parts[0] + " | "@ + handler_command(parts.drop_first())
    }
}

/// The text of a command for the match handler: its parts joined by ` | `, then
/// ` | ` and a line feed.
pub fn handler_command_text(parts: &Vec<String>) -> (r: String)
    ensures
        r@ == handler_command(views(parts@)),
{
    let mut r = String::new();
    let n = parts.len();
    if n == 0 {
        r.append(" | \n");
        return r;
    }
    let mut i: usize = 0;
    assert(views(parts@).subrange(0, n as int) =~= views(parts@));
    assert(r@ =~= Seq::<char>::empty());
    while i < n - 1
        invariant
            n == parts@.len(),
            n > 0,
            i <= n - 1,
            r@ + handler_command(views(parts@).subrange(i as int, n as int)) == handler_command(views(parts@)),
        decreases n - 1 - i,
    {
        let ghost rest = views(parts@).subrange(i as int, n as int);
        assert(rest.drop_first() =~= views(parts@).subrange(i + 1, n as int));
        assert(rest[0] == parts@[i as int]@);
        r.append(parts[i].as_str());
        r.append(" | ");
        i = i + 1;
        assert(r@ + handler_command(views(parts@).subrange(i as int, n as int)) =~= handler_command(views(parts@)));
    }
    let ghost last = views(parts@).subrange(i as int, n as int);
    assert(last.len() == 1);
    assert(last[0] == parts@[i as int]@);
    r.append(parts[i].as_str());
    r.append(" | \n");
    assert(r@ =~= handler_command(views(parts@)));
    r
}

/// Unicode's `White_Space` property: the ASCII tab, line feed, vertical tab, form
/// feed, carriage return and space, next line, no-break space, the Ogham space
/// mark, the spaces from en quad to hair space, the line and paragraph
/// separators, the narrow no-break space, the medium mathematical space and the
/// ideographic space.
pub open spec fn unicode_whitespace(c: char) -> bool {
    let n = c as u32;
    ||| 0x09 <= n <= 0x0D
    ||| n == 0x20 || n == 0x85 || n == 0xA0 || n == 0x1680
    ||| 0x2000 <= n <= 0x200A
    ||| n == 0x2028 || n == 0x2029 || n == 0x202F || n == 0x205F || n == 0x3000
}

/// `char::is_whitespace`: whether the character has Unicode's `White_Space`
/// property, as its documentation says.
#[verifier::external_body]
fn is_whitespace(c: char) -> (r: bool)
    ensures
        r == unicode_whitespace(c),
{
    c.is_whitespace()
}

/// The words `shlex::split` reads from a text, `None` where it finds the text malformed.
pub uninterp spec fn shell_words(s: Seq<char>) -> Option<Seq<Seq<char>>>;

/// `shlex::split`: splits a text into words as a POSIX shell would.
#[verifier::external_body]
fn shlex_split(s: &str) -> (r: Option<Vec<String>>)
    ensures
        match r {
            Some(v) => shell_words(s@) == Some(views(v@)),
            None => shell_words(s@) is None,
        },
{
    shlex::split(s)
}

/// `s` without its leading whitespace.
pub open spec fn skip_whitespace(s: Seq<char>) -> Seq<char>
    decreases s.len(),
{
    if s.len() > 0 && unicode_whitespace(s[0]) {
        skip_whitespace(s.drop_first())
    } else {
        s
    }
}

/// The characters of `s` up to its first whitespace.
pub open spec fn leading_word(s: Seq<char>) -> Seq<char>
    decreases s.len(),
{
    if s.len() > 0 && !unicode_whitespace(s[0]) {
        seq![s[0]] + leading_word(s.drop_first())
    } else {
        Seq::empty()
    }
}

/// The first word of `s`, as `str::split_whitespace` gives it.
pub open spec fn first_word(s: Seq<char>) -> Option<Seq<char>> {
    let t = skip_whitespace(s);
    if t.len() == 0 {
        None
    } else {
        Some(leading_word(t))
    }
}

/// The first whitespace-separated word of `input`.
pub fn first_word_of(input: &str) -> (r: Option<String>)
    ensures
        opt_view(r) == first_word(input@),
{
    let chars = crate::text::chars_of(input);
    let mut i: usize = 0;
    assert(chars@.subrange(0, chars@.len() as int) =~= chars@);
    while i < chars.len() && is_whitespace(chars[i])
        invariant
            chars@ == input@,
            i <= chars@.len(),
            skip_whitespace(input@) == skip_whitespace(chars@.subrange(i as int, chars@.len() as int)),
        decreases chars.len() - i,
    {
        assert(chars@.subrange(i as int, chars@.len() as int).drop_first() =~= chars@.subrange(i + 1, chars@.len() as int));
        i = i + 1;
    }
    let start = i;
    assert(skip_whitespace(input@) == chars@.subrange(start as int, chars@.len() as int));
    if start == chars.len() {
        return None;
    }
    let mut word = String::new();
    while i < chars.len() && !is_whitespace(chars[i])
        invariant
            chars@ == input@,
            start <= i <= chars@.len(),
            leading_word(chars@.subrange(start as int, chars@.len() as int))
                == word@ + leading_word(chars@.subrange(i as int, chars@.len() as int)),
        decreases chars.len() - i,
    {
        let ghost rest = chars@.subrange(i as int, chars@.len() as int);
        assert(rest.drop_first() =~= chars@.subrange(i + 1, chars@.len() as int));
        crate::text::push_char(&mut word, chars[i]);
        i = i + 1;
        assert(word@ + leading_word(chars@.subrange(i as int, chars@.len() as int)) =~= leading_word(
            chars@.subrange(start as int, chars@.len() as int),
        ));
    }
    assert(leading_word(chars@.subrange(i as int, chars@.len() as int)) =~= Seq::<char>::empty());
    assert(word@ =~= leading_word(chars@.subrange(start as int, chars@.len() as int)));
    Some(word)
}

/// The program a console command runs and the word it was written as: the escaped
/// python marker runs as written, the python marker runs the GUI's python, any other
/// word runs as written.
pub open spec fn console_program(word: Seq<char>, python_path: Seq<char>, rlpy: Seq<char>, rlpy_esc: Seq<char>) -> (Seq<char>, Seq<char>) {
    if word == rlpy_esc {
        (rlpy_esc, rlpy_esc)
    } else if word == rlpy {
        (python_path, rlpy)
    } else {
        (word, word)
    }
}

/// The arguments of a console command: the input after the word the program was
/// written as, split as a shell would; none when the input does not start with
/// that word or the rest is malformed.
pub open spec fn console_args(input: Seq<char>, written: Seq<char>) -> Seq<Seq<char>> {
    if written.is_prefix_of(input) {
        match shell_words(input.subrange(written.len() as int, input.len() as int)) {
            Some(words) => words,
            None => Seq::empty(),
        }
    } else {
        Seq::empty()
    }
}

/// Reads a command typed into the GUI's console: the program to run and its
/// arguments. `rlpy` stands for the GUI's python and `rlpy_esc` for the marker
/// itself, as the platform writes them.
pub fn parse_console_command(input: &str, python_path: &str, rlpy: &str, rlpy_esc: &str) -> (r: Result<(String, Vec<String>), RunCommandError>)
    ensures
        match first_word(input@) {
            None => r matches Err(RunCommandError::NoCommand),
            Some(word) => r matches Ok((program, args)) && {
                let (p, written) = console_program(word, python_path@, rlpy@, rlpy_esc@);
                &&& program@ == p
                &&& views(args@) == console_args(input@, written)
            },
        },
{
    let word = match first_word_of(input) {
        Some(w) => w,
        None => {
            return Err(RunCommandError::NoCommand);
        },
    };
    let (program, written) = if str_eq(word.as_str(), rlpy_esc) {
        (rlpy_esc.to_owned(), rlpy_esc.to_owned())
    } else if str_eq(word.as_str(), rlpy) {
        (python_path.to_owned(), rlpy.to_owned())
    } else {
        (word.clone(), word)
    };
    let args = if str_starts_with(input, written.as_str()) {
        let n = input.unicode_len();
        let rest = input.substring_char(written.unicode_len(), n);
        match shlex_split(rest) {
            Some(words) => words,
            None => Vec::new(),
        }
    } else {
        Vec::new()
    };
    proof {
        if !written@.is_prefix_of(input@) {
            assert(views(args@) =~= Seq::<Seq<char>>::empty());
        }
    }
    Ok((program, args))
}

#[verifier::external_type_specification]
#[verifier::external_body]
pub struct ExFromUtf8Error(std::string::FromUtf8Error);

/// Why the python belonging to a pip could not be found.
#[derive(Debug)]
pub enum WindowsPipLocateError {
    /// The output naming the pip was not UTF-8.
    InvalidUTF8(std::string::FromUtf8Error),
    /// The path has no parent folder; the path.
    NoParentError(String),
    /// Running the lookup failed.
    IO(std::io::Error),
    /// No python was found.
    NoPython,
}

/// Why a command could not be run.
#[derive(Debug)]
pub enum CommandError {
    /// A lock was poisoned; its name.
    Poisoned(&'static str),
    /// Starting the process failed.
    IO(std::io::Error),
    /// The pipe that captures output is closed.
    ClosedPipe,
}

/// Why a console command could not be run.
#[derive(Debug)]
pub enum RunCommandError {
    /// The input holds no command.
    NoCommand,
    /// A lock was poisoned; its name.
    Poisoned(&'static str),
    /// The command could not be started.
    Command(CommandError),
}

/// Why the GUI's python packages could not be installed.
#[derive(Debug)]
pub enum InstallRequirementseError {
    /// The bot's `.cfg` file could not be read.
    LoadCfg(RLBotCfgParseError),
}

/// Why a python virtual environment could not be made.
#[derive(Debug)]
pub enum VenvCreationError {
    /// The environment could not be made at the path.
    Creation(String),
    /// Python was not properly installed; what failed.
    ImproperInstallation(String),
}

/// Why downloading or updating a pack failed.
#[derive(Debug)]
pub enum BotPackError {
    /// Reading or writing a file failed.
    Io(std::io::Error),
    /// The map pack's index holds no revision number.
    NoRevision,
}

/// Why the match handler could not be reached.
#[derive(Debug)]
pub enum MatchHandlerError {
    /// The handler could not be started.
    Command(CommandError),
    /// Reading or writing failed.
    Io(std::io::Error),
    /// The handler has no standard input.
    NoStdin,
    /// Writing to the handler's standard input failed.
    NoWrite,
    /// A lock was poisoned; its name.
    Poisoned(&'static str),
}

/// Why a new bot could not be made.
#[derive(Debug)]
pub enum BeginBotError {
    /// Making the bot from its template failed; why.
    Boostraping(String),
    /// The new bot's `.cfg` file could not be read.
    LoadCfg(RLBotCfgParseError),
}

/// The names among `names` that are known, each with `team`, in order.
pub open spec fn known_on_team(names: Seq<Seq<char>>, known: Seq<Seq<char>>, team: Team) -> Seq<(Seq<char>, Team)>
    decreases names.len(),
{
    if names.len() == 0 {
        Seq::empty()
    } else {
        let rest = known_on_team(names.drop_last(), known, team);
        if known.contains(names.last()) {
            rest.push((names.last(), team))
        } else {
            rest
        }
    }
}

/// The views of named players.
pub open spec fn lineup_views(l: Seq<(String, Team)>) -> Seq<(Seq<char>, Team)> {
    l.map_values(|p: (String, Team)| (p.0@, p.1))
}

fn push_known(r: &mut Vec<(String, Team)>, names: &Vec<String>, end: usize, known: &Vec<String>, team: Team)
    requires
        end <= names@.len(),
    ensures
        lineup_views(final(r)@) == lineup_views(old(r)@) + known_on_team(views(names@).subrange(0, end as int), views(known@), team),
{
    let ghost start = lineup_views(r@);
    let mut i: usize = 0;
    while i < end
        invariant
            i <= end <= names@.len(),
            lineup_views(r@) == start + known_on_team(views(names@).subrange(0, i as int), views(known@), team),
        decreases end - i,
    {
        let ghost next = views(names@).subrange(0, i + 1);
        assert(next.drop_last() =~= views(names@).subrange(0, i as int));
        assert(next.last() == names@[i as int]@);
        if contains_string(known, names[i].as_str()) {
            let ghost before = r@;
            r.push((names[i].clone(), team));
            assert(lineup_views(r@) =~= lineup_views(before).push((names@[i as int]@, team)));
        }
        i = i + 1;
    }
}

/// The bots that play a challenge, with their teams, after the human on blue: the
/// human's picks, as many as the human's team has room for, on blue, then the
/// challenge's opponents on orange; a name that is not among the known bots is
/// left out.
pub fn challenge_lineup(challenge: &Challenge, human_picks: &Vec<String>, known: &Vec<String>) -> (r: Vec<(String, Team)>)
    requires
        1 <= challenge.human_team_size,
        challenge.human_team_size - 1 <= human_picks@.len(),
    ensures
        lineup_views(r@) == known_on_team(views(human_picks@).subrange(0, challenge.human_team_size - 1), views(known@), Team::Blue)
            + known_on_team(views(challenge.opponent_bots@), views(known@), Team::Orange),
{
    let mut r: Vec<(String, Team)> = Vec::new();
    assert(lineup_views(r@) =~= Seq::<(Seq<char>, Team)>::empty());
    push_known(&mut r, human_picks, challenge.human_team_size - 1, known, Team::Blue);
    push_known(&mut r, &challenge.opponent_bots, challenge.opponent_bots.len(), known, Team::Orange);
    assert(views(challenge.opponent_bots@).subrange(0, challenge.opponent_bots@.len() as int) =~= views(challenge.opponent_bots@));
    r
}

/// How a story bot is run.
#[derive(Clone, Copy, Debug, PartialEq, Eq, Structural)]
pub enum BotType {
    Psyonix,
    Rlbot,
}

/// A bot of a story's bot table, all but its skill: its name, how it is run, and
/// for a bot that rlbot runs the story path of its `.cfg` file.
#[derive(Debug)]
pub struct StoryBot {
    pub name: String,
    pub type_field: BotType,
    pub path: Option<Vec<String>>,
}

/// A player a challenge is started with, all but its skill: its name, team, how it
/// is run (`human`, `psyonix` or `rlbot`) and the path of its `.cfg` file.
#[derive(Debug)]
pub struct PlayerSlot {
    pub name: String,
    pub team: Team,
    pub runnable_type: String,
    pub path: Option<String>,
}

/// A player slot as plain values.
pub open spec fn slot_view(s: PlayerSlot) -> (Seq<char>, Team, Seq<char>, Option<Seq<char>>) {
    (s.name@, s.team, s.runnable_type@, opt_view(s.path))
}

/// The human player's slot.
pub open spec fn human_slot(team: Team) -> (Seq<char>, Team, Seq<char>, Option<Seq<char>>) {
    ("Human"@, team, "human"@, None)
}

/// The slot of a story bot on `team`: a Psyonix bot has no path; a bot that rlbot
/// runs has its story path collapsed under the bot pack's root, or an empty path
/// when it has none.
pub open spec fn bot_slot(b: StoryBot, team: Team, botpack_root: Seq<char>) -> (Seq<char>, Team, Seq<char>, Option<Seq<char>>) {
    if b.type_field == BotType::Psyonix {
        (b.name@, team, "psyonix"@, None)
    } else {
        (b.name@, team, "rlbot"@, Some(match b.path {
            Some(p) => joined_path(resolved_parts(p@, botpack_root)),
            None => Seq::empty(),
        }))
    }
}

/// The slots, in order and on `team`, of the bots among `names` that the table
/// `bots` holds; the other names are skipped.
pub open spec fn bot_slots(names: Seq<String>, bots: Map<Seq<char>, StoryBot>, team: Team, botpack_root: Seq<char>) -> Seq<(Seq<char>, Team, Seq<char>, Option<Seq<char>>)>
    decreases names.len(),
{
    if names.len() == 0 {
        Seq::empty()
    } else {
        let rest = bot_slots(names.drop_last(), bots, team, botpack_root);
        if bots.contains_key(names.last()@) {
            rest.push(bot_slot(bots[names.last()@], team, botpack_root))
        } else {
            rest
        }
    }
}

/// A bot's slot is on the team it was asked for, under the bot's name; it has a
/// path exactly when the bot is not a Psyonix bot.
pub proof fn lemma_bot_slot_keeps_bot(b: StoryBot, team: Team, botpack_root: Seq<char>)
    ensures
        bot_slot(b, team, botpack_root).1 == team,
        bot_slot(b, team, botpack_root).0 == b.name@,
        bot_slot(b, team, botpack_root).3 is None <==> b.type_field == BotType::Psyonix,
{
}

/// Every slot made for the bots among `names` is on `team`, carries the name of a
/// bot of the table that some name picks, and no more slots are made than names.
pub proof fn lemma_bot_slots_on_team(names: Seq<String>, bots: Map<Seq<char>, StoryBot>, team: Team, botpack_root: Seq<char>)
    ensures
        bot_slots(names, bots, team, botpack_root).len() <= names.len(),
        forall|k: int| 0 <= k < bot_slots(names, bots, team, botpack_root).len() ==> {
            &&& (#[trigger] bot_slots(names, bots, team, botpack_root)[k]).1 == team
            &&& exists|i: int| 0 <= i < names.len() && bots.contains_key(names[i]@)
                && bot_slots(names, bots, team, botpack_root)[k].0 == bots[names[i]@].name@
        },
    decreases names.len(),
{
    if names.len() > 0 {
        let rest = names.drop_last();
        lemma_bot_slots_on_team(rest, bots, team, botpack_root);
        let prev = bot_slots(rest, bots, team, botpack_root);
        let cur = bot_slots(names, bots, team, botpack_root);
        assert forall|k: int| 0 <= k < cur.len() implies {
            &&& (#[trigger] cur[k]).1 == team
            &&& exists|i: int| 0 <= i < names.len() && bots.contains_key(names[i]@) && cur[k].0 == bots[names[i]@].name@
        } by {
            if k < prev.len() {
                assert(cur[k] == prev[k]);
                let i = choose|i: int| 0 <= i < rest.len() && bots.contains_key(rest[i]@) && prev[k].0 == bots[rest[i]@].name@;
                assert(names[i] == rest[i]);
            } else {
                let i = names.len() - 1;
                assert(names[i] == names.last());
                lemma_bot_slot_keeps_bot(bots[names.last()@], team, botpack_root);
            }
        }
    }
}

/// The human player on `team`.
pub fn make_human_config(team: Team) -> (r: PlayerSlot)
    ensures
        slot_view(r) == human_slot(team),
{
    PlayerSlot { name: "Human".to_owned(), team, runnable_type: "human".to_owned(), path: None }
}

/// The slot of a story bot on `team`.
pub fn bot_to_team_bot_bundle(player: &StoryBot, team: Team, botpack_root: &str) -> (r: PlayerSlot)
    ensures
        slot_view(r) == bot_slot(*player, team, botpack_root@),
        r.team == team,
        r.name@ == player.name@,
        r.path is None <==> player.type_field == BotType::Psyonix,
{
    proof { lemma_bot_slot_keeps_bot(*player, team, botpack_root@); }
    if player.type_field == BotType::Psyonix {
        PlayerSlot { name: player.name.clone(), team, runnable_type: "psyonix".to_owned(), path: None }
    } else {
        let path = match collapse_path(player.path.as_ref(), botpack_root) {
            Some(p) => p,
            None => String::new(),
        };
        PlayerSlot { name: player.name.clone(), team, runnable_type: "rlbot".to_owned(), path: Some(path) }
    }
}

fn push_bot_slots(r: &mut Vec<PlayerSlot>, names: &Vec<String>, end: usize, bots: &StrMap<StoryBot>, team: Team, botpack_root: &str)
    requires
        end <= names@.len(),
    ensures
        final(r)@.map_values(|s: PlayerSlot| slot_view(s)) == old(r)@.map_values(|s: PlayerSlot| slot_view(s)) + bot_slots(names@.subrange(0, end as int), bots@, team, botpack_root@),
{
    let ghost start = r@.map_values(|s: PlayerSlot| slot_view(s));
    let mut i: usize = 0;
    while i < end
        invariant
            i <= end <= names@.len(),
            r@.map_values(|s: PlayerSlot| slot_view(s)) == start + bot_slots(names@.subrange(0, i as int), bots@, team, botpack_root@),
        decreases end - i,
    {
        assert(names@.subrange(0, i + 1).drop_last() =~= names@.subrange(0, i as int));
        assert(names@.subrange(0, i + 1).last() == names@[i as int]);
        match bots.get(names[i].as_str()) {
            Some(bot) => {
                let ghost before = r@;
                let slot = bot_to_team_bot_bundle(bot, team, botpack_root);
                r.push(slot);
                assert(r@.map_values(|s: PlayerSlot| slot_view(s)) =~= before.map_values(|s: PlayerSlot| slot_view(s)).push(slot_view(slot)));
            },
            None => {},
        }
        i = i + 1;
    }
}

/// The players a challenge is started with: the human on blue first, then the
/// human's picks, as many as the human's team has room for, on blue, then the
/// challenge's opponents on orange; a name the bot table does not hold is left
/// out.
pub fn make_player_configs(challenge: &Challenge, human_picks: &Vec<String>, all_bots: &StrMap<StoryBot>, botpack_root: &str) -> (r: Vec<PlayerSlot>)
    requires
        1 <= challenge.human_team_size,
        challenge.human_team_size - 1 <= human_picks@.len(),
    ensures
        r@.map_values(|s: PlayerSlot| slot_view(s)) == seq![human_slot(Team::Blue)]
            + bot_slots(human_picks@.subrange(0, challenge.human_team_size - 1), all_bots@, Team::Blue, botpack_root@)
            + bot_slots(challenge.opponent_bots@, all_bots@, Team::Orange, botpack_root@),
        r@.len() >= 1 && r@[0].team == Team::Blue && r@[0].runnable_type@ == "human"@,
        forall|k: int| 1 <= k < r@.len() ==> (#[trigger] r@[k]).team == (if k <= bot_slots(
            human_picks@.subrange(0, challenge.human_team_size - 1), all_bots@, Team::Blue, botpack_root@).len() {
            Team::Blue
        } else {
            Team::Orange
        }),
{
    let mut r: Vec<PlayerSlot> = Vec::new();
    r.push(make_human_config(Team::Blue));
    assert(r@.map_values(|s: PlayerSlot| slot_view(s)) =~= seq![human_slot(Team::Blue)]);
    push_bot_slots(&mut r, human_picks, challenge.human_team_size - 1, all_bots, Team::Blue, botpack_root);
    push_bot_slots(&mut r, &challenge.opponent_bots, challenge.opponent_bots.len(), all_bots, Team::Orange, botpack_root);
    assert(challenge.opponent_bots@.subrange(0, challenge.opponent_bots@.len() as int) =~= challenge.opponent_bots@);
    proof {
        let picks = human_picks@.subrange(0, challenge.human_team_size - 1);
        let blue = bot_slots(picks, all_bots@, Team::Blue, botpack_root@);
        let orange = bot_slots(challenge.opponent_bots@, all_bots@, Team::Orange, botpack_root@);
        lemma_bot_slots_on_team(picks, all_bots@, Team::Blue, botpack_root@);
        lemma_bot_slots_on_team(challenge.opponent_bots@, all_bots@, Team::Orange, botpack_root@);
        let v = r@.map_values(|s: PlayerSlot| slot_view(s));
        let hb = seq![human_slot(Team::Blue)] + blue;
        assert(v == hb + orange);
        assert(hb.len() == 1 + blue.len());
        assert(v.len() == r@.len());
        assert(v.len() == hb.len() + orange.len());
        assert(v[0] == hb[0]);
        assert(v[0] == slot_view(r@[0]));
        assert forall|k: int| 1 <= k < r@.len() implies (#[trigger] r@[k]).team == (if k <= blue.len() { Team::Blue } else { Team::Orange }) by {
            assert(v[k] == slot_view(r@[k]));
            if k <= blue.len() {
                assert(v[k] == hb[k]);
                assert(hb[k] == blue[k - 1]);
            } else {
                assert(v[k] == orange[k - hb.len()]);
            }
        }
    }
    r
}

/// Whether the missing packages of a bundle are looked up: when rlbot is
/// installed, rlbot runs the bundle, it may need python packages, and they are
/// not known yet.
pub fn needs_package_lookup(has_rlbot: bool, rlbot_controlled: bool, may_require_python_packages: bool, missing: &Option<Vec<String>>) -> (r: bool)
    ensures
        r == (has_rlbot && rlbot_controlled && may_require_python_packages && missing is None),
{
    has_rlbot && rlbot_controlled && may_require_python_packages && missing.is_none()
}

/// The indices, in order, of the first `n` bundles whose missing packages are
/// looked up; each bundle given as whether rlbot runs it, whether it may need
/// python packages, its warning and its known missing packages.
pub open spec fn lookup_indices(has_rlbot: bool, bundles: Seq<(bool, bool, Option<String>, Option<Vec<String>>)>, n: int) -> Seq<usize>
    decreases n,
{
    if n <= 0 {
        Seq::empty()
    } else {
        let rest = lookup_indices(has_rlbot, bundles, n - 1);
        let b = bundles[n - 1];
        if has_rlbot && b.0 && b.1 && b.3 is None {
            rest.push((n - 1) as usize)
        } else {
            rest
        }
    }
}

/// The bundles whose missing packages are looked up, by index, in order: those
/// for which `needs_package_lookup` holds.
pub fn package_lookups(has_rlbot: bool, bundles: &Vec<(bool, bool, Option<String>, Option<Vec<String>>)>) -> (r: Vec<usize>)
    ensures
        r@ == lookup_indices(has_rlbot, bundles@, bundles@.len() as int),
{
    let mut r: Vec<usize> = Vec::new();
    let mut i: usize = 0;
    while i < bundles.len()
        invariant
            i <= bundles@.len(),
            r@ == lookup_indices(has_rlbot, bundles@, i as int),
        decreases bundles.len() - i,
    {
        let b = &bundles[i];
        if needs_package_lookup(has_rlbot, b.0, b.1, &b.3) {
            r.push(i);
        }
        i = i + 1;
    }
    r
}

/// The change to the missing packages and warning shown for bundle `index`, given
/// whether rlbot is installed, the bundle's state, and the packages looked up for
/// it when `needs_package_lookup` asked for that.
pub fn missing_packages_update(
    index: usize,
    has_rlbot: bool,
    rlbot_controlled: bool,
    may_require_python_packages: bool,
    warn: &Option<String>,
    missing: &Option<Vec<String>>,
    found: Option<Vec<String>>,
) -> (r: Option<MissingPackagesUpdate>)
    requires
        (has_rlbot && rlbot_controlled && may_require_python_packages && missing is None) ==> found is Some,
    ensures
        !has_rlbot ==> ((rlbot_controlled && (warn is Some || missing is Some)) ==> (r matches Some(u) && u.index == index
            && u.warn is None && u.missing_packages is None)),
        !has_rlbot ==> (!(rlbot_controlled && (warn is Some || missing is Some)) ==> r is None),
        (has_rlbot && !(rlbot_controlled && may_require_python_packages)) ==> r is None,
        (has_rlbot && rlbot_controlled && may_require_python_packages) ==> match missing {
            Some(known) => if opt_view(*warn) == Some("pythonpkg"@) && known@.len() == 0 {
                r matches Some(u) && u.index == index && u.warn is None && (u.missing_packages matches Some(m) && m@ == known@)
            } else {
                r is None
            },
            None => r matches Some(u) && u.index == index && u.missing_packages == found
                && (found.unwrap()@.len() == 0 ==> u.warn is None)
                && (found.unwrap()@.len() > 0 ==> opt_view(u.warn) == Some("pythonpkg"@)),
        },
{
    if !has_rlbot {
        return stale_packages_update(index, rlbot_controlled, warn, missing);
    }
    if !checks_python_packages(rlbot_controlled, may_require_python_packages) {
        return None;
    }
    match missing {
        Some(known) => known_packages_update(index, warn, known),
        None => match found {
            Some(f) => Some(found_packages_update(index, f)),
            None => None,
        },
    }
}

} // verus!
