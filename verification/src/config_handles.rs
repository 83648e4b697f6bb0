//! The GUI's own state kept in its settings document: the selected tab, the
//! defaults of a new document; and which bundles a folder scan shows.

use vstd::prelude::*;
use configparser::ini::Ini;
use crate::bot_config_bundle::{BotConfigBundle, ScriptConfigBundle};
use crate::config_store::{new_ini, no_entries, ini_from_text, ini_parsed, ini_entries, ini_get, ini_is_plain, ini_set, ini_value, json_of_usize, json_text_of_str, json_usize_value, lemma_lower_ascii_name, read_stored_label, store_label, stored_label, usize_of_json, lowered};
use crate::settings::{MatchConfig, MutatorConfig};
use crate::text::{ascii_lower, decimal, is_ascii_seq, opt_view, str_eq, str_starts_with};

verus! {

/// The top-level tabs of the bot list.
#[derive(Clone, Copy, Debug, PartialEq, Eq, Structural)]
pub enum PrimaryCategories {
    All,
    Standard,
    Extra,
    Special,
}

impl PrimaryCategories {
    /// The name under which the GUI shows and stores this value.
    pub open spec fn label(self) -> Seq<char> {
        match self {
            PrimaryCategories::All => "all"@,
            PrimaryCategories::Standard => "standard"@,
            PrimaryCategories::Extra => "extra"@,
            PrimaryCategories::Special => "special"@,
        }
    }

    /// The value named `s`, if any.
    pub open spec fn parse_label(s: Seq<char>) -> Option<Self> {
        if s == "all"@ {
            Some(PrimaryCategories::All)
        } else if s == "standard"@ {
            Some(PrimaryCategories::Standard)
        } else if s == "extra"@ {
            Some(PrimaryCategories::Extra)
        } else if s == "special"@ {
            Some(PrimaryCategories::Special)
        } else {
            None
        }
    }

    /// The value a stored name gives: the value of that name, or else the default.
    pub open spec fn read_or_default(stored: Option<Seq<char>>) -> Self {
        match stored {
            Some(l) => match Self::parse_label(l) {
                Some(v) => v,
                None => PrimaryCategories::All,
            },
            None => PrimaryCategories::All,
        }
    }

    /// Every value, in declaration order.
    pub open spec fn all_values() -> Seq<Self> {
        seq![PrimaryCategories::All, PrimaryCategories::Standard, PrimaryCategories::Extra, PrimaryCategories::Special]
    }

    /// The name under which the GUI shows and stores this value.
    pub fn as_label(&self) -> (r: &'static str)
        ensures
            r@ == self.label(),
    {
        match self {
            PrimaryCategories::All => "all",
            PrimaryCategories::Standard => "standard",
            PrimaryCategories::Extra => "extra",
            PrimaryCategories::Special => "special",
        }
    }

    /// The value named `s`, if any.
    pub fn from_label(s: &str) -> (r: Option<Self>)
        ensures
            r == Self::parse_label(s@),
    {
        if str_eq(s, "all") {
            Some(PrimaryCategories::All)
        } else if str_eq(s, "standard") {
            Some(PrimaryCategories::Standard)
        } else if str_eq(s, "extra") {
            Some(PrimaryCategories::Extra)
        } else if str_eq(s, "special") {
            Some(PrimaryCategories::Special)
        } else {
            None
        }
    }

    /// The value a stored name gives: the value of that name, or else the default.
    pub fn from_stored_label(stored: Option<String>) -> (r: Self)
        ensures
            r == Self::read_or_default(opt_view(stored)),
    {
        match stored {
            Some(l) => match Self::from_label(l.as_str()) {
                Some(v) => v,
                None => PrimaryCategories::All,
            },
            None => PrimaryCategories::All,
        }
    }

    /// Every value, in declaration order.
    pub fn all() -> (r: Vec<Self>)
        ensures
            r@ == Self::all_values(),
    {
        let r = vec![PrimaryCategories::All, PrimaryCategories::Standard, PrimaryCategories::Extra, PrimaryCategories::Special];
        assert(r@ =~= Self::all_values());
        r
    }

    /// Reading back the name of a value gives the value.
    pub proof fn lemma_label_round_trip(self)
        ensures
            Self::parse_label(self.label()) == Some(self),
    {
        reveal_strlit("all");
        assert("all"@ =~= seq!['a', 'l', 'l']);
        reveal_strlit("standard");
        assert("standard"@ =~= seq!['s', 't', 'a', 'n', 'd', 'a', 'r', 'd']);
        reveal_strlit("extra");
        assert("extra"@ =~= seq!['e', 'x', 't', 'r', 'a']);
        reveal_strlit("special");
        assert("special"@ =~= seq!['s', 'p', 'e', 'c', 'i', 'a', 'l']);
        match self {
            PrimaryCategories::All => {},
            PrimaryCategories::Standard => {},
            PrimaryCategories::Extra => {},
            PrimaryCategories::Special => {},
        }
    }
}

impl Default for PrimaryCategories {
    fn default() -> (r: Self)
        ensures
            r == PrimaryCategories::All,
    {
        PrimaryCategories::All
    }
}

/// Why the bot folder settings could not be saved.
#[derive(Debug)]
pub enum SaveFolderSettingsError {
    /// Writing the settings document failed.
    Io(std::io::Error),
}

/// Why a path could not be shown in the file explorer.
#[derive(Debug)]
pub enum ShowPathInExplorerError {
    /// There is nothing at the path.
    DoesNotExist,
    /// Opening the explorer failed.
    Other(std::io::Error),
}

/// The tab selected in the bot list.
#[derive(Clone, Copy, Debug, PartialEq, Eq, Structural)]
pub struct GuiTabCategory {
    pub primary: PrimaryCategories,
    pub secondary: usize,
}

impl Default for GuiTabCategory {
    fn default() -> (r: Self)
        ensures
            r == (GuiTabCategory { primary: PrimaryCategories::All, secondary: 0 }),
    {
        GuiTabCategory { primary: PrimaryCategories::default(), secondary: 0 }
    }
}

impl GuiTabCategory {
    /// The tab `secondary` under the top-level tab `primary`.
    pub fn new(primary: PrimaryCategories, secondary: usize) -> (r: Self)
        ensures
            r.primary == primary,
            r.secondary == secondary,
    {
        GuiTabCategory { primary, secondary }
    }

    /// The tab a settings document says is selected: what is stored under the
    /// `gui_state` keys, each part at its default where it is missing or unreadable.
    pub open spec fn from_entries(e: Map<(Seq<char>, Seq<char>), Option<Seq<char>>>) -> GuiTabCategory {
        GuiTabCategory {
            primary: PrimaryCategories::read_or_default(stored_label(e, "gui_state"@, "selected_tab"@)),
            secondary: match ini_value(e, "gui_state"@, "selected_tab_secondary"@) {
                Some(t) => match json_usize_value(t) {
                    Some(n) => n,
                    None => 0,
                },
                None => 0,
            },
        }
    }

    /// Reads the selected tab from the settings document.
    pub fn load_from_config(conf: &Ini) -> (r: Self)
        ensures
            ini_is_plain(*conf) ==> r == Self::from_entries(ini_entries(*conf)),
    {
        proof { lemma_gui_state_keys(); }
        let primary = PrimaryCategories::from_stored_label(read_stored_label(conf, "gui_state", "selected_tab"));
        let secondary = match ini_get(conf, "gui_state", "selected_tab_secondary") {
            Some(t) => match usize_of_json(t.as_str()) {
                Some(n) => n,
                None => 0,
            },
            None => 0,
        };
        GuiTabCategory { primary, secondary }
    }

    /// Saves the selected tab into the settings document: the top-level tab as the
    /// JSON string of its name, the other as a number. Reading it back gives it again.
    pub fn save_to_config(&self, conf: &mut Ini)
        ensures
            ini_is_plain(*final(conf)) == ini_is_plain(*old(conf)),
            ini_is_plain(*old(conf)) ==> ini_entries(*final(conf)) == ini_entries(*old(conf))
                .insert(("gui_state"@, "selected_tab"@), Some(json_text_of_str(self.primary.label())))
                .insert(("gui_state"@, "selected_tab_secondary"@), Some(decimal(self.secondary as nat))),
            ini_is_plain(*old(conf)) ==> Self::from_entries(ini_entries(*final(conf))) == *self,
    {
        proof { lemma_gui_state_keys(); }
        store_label(conf, "gui_state", "selected_tab", self.primary.as_label());
        let text = json_of_usize(self.secondary);
        ini_set(conf, "gui_state", "selected_tab_secondary", text);
        proof { self.primary.lemma_label_round_trip(); }
    }
}

proof fn lemma_gui_state_keys()
    ensures
        lowered("gui_state"@) == "gui_state"@,
        lowered("selected_tab"@) == "selected_tab"@,
        lowered("selected_tab_secondary"@) == "selected_tab_secondary"@,
        "selected_tab"@ != "selected_tab_secondary"@,
        is_ascii_seq("gui_state"@),
        is_ascii_seq("selected_tab"@),
        is_ascii_seq("selected_tab_secondary"@),
{
    reveal_strlit("gui_state");
    assert("gui_state"@ =~= seq!['g', 'u', 'i', '_', 's', 't', 'a', 't', 'e']);
    lemma_lower_ascii_name("gui_state"@);
    reveal_strlit("selected_tab");
    assert("selected_tab"@ =~= seq!['s', 'e', 'l', 'e', 'c', 't', 'e', 'd', '_', 't', 'a', 'b']);
    lemma_lower_ascii_name("selected_tab"@);
    reveal_strlit("selected_tab_secondary");
    assert("selected_tab_secondary"@ =~= seq!['s', 'e', 'l', 'e', 'c', 't', 'e', 'd', '_', 't', 'a', 'b', '_', 's', 'e', 'c', 'o', 'n', 'd', 'a', 'r', 'y']);
    lemma_lower_ascii_name("selected_tab_secondary"@);
}

/// The bundles a folder scan shows: those whose `.cfg` file name does not start with `_`.
pub open spec fn shown_bundles(s: Seq<ScriptConfigBundle>) -> Seq<ScriptConfigBundle>
    decreases s.len(),
{
    if s.len() == 0 {
        s
    } else if "_"@.is_prefix_of(s.last().config_file_name@) {
        shown_bundles(s.drop_last())
    } else {
        shown_bundles(s.drop_last()).push(s.last())
    }
}

/// Drops the bundles whose `.cfg` file name starts with `_`, keeping the order.
pub fn filter_hidden_bundles(bundles: Vec<ScriptConfigBundle>) -> (r: Vec<ScriptConfigBundle>)
    ensures
        r@ == shown_bundles(bundles@),
        r@ == bundles@.filter(script_shown()),
{
    let ghost orig = bundles@;
    proof { lemma_shown_bundles_filter(orig); }
    let ghost total = bundles.len();
    let mut rest = bundles;
    let mut r: Vec<ScriptConfigBundle> = Vec::new();
    let mut taken: usize = 0;
    while rest.len() > 0
        invariant
            taken <= orig.len(),
            orig.len() == total,
            total <= usize::MAX,
            rest@ == orig.subrange(taken as int, orig.len() as int),
            r@ == shown_bundles(orig.subrange(0, taken as int)),
        decreases rest.len(),
    {
        let b = rest.remove(0);
        proof {
            assert(orig.subrange(0, taken + 1).drop_last() =~= orig.subrange(0, taken as int));
        }
        if !str_starts_with(b.config_file_name.as_str(), "_") {
            r.push(b);
        }
        taken = taken + 1;
        assert(rest@ =~= orig.subrange(taken as int, orig.len() as int));
    }
    assert(orig.subrange(0, taken as int) =~= orig);
    r
}

/// The bot bundles a folder scan shows: those whose `.cfg` file name does not
/// start with `_`.
pub open spec fn shown_bot_bundles(s: Seq<BotConfigBundle>) -> Seq<BotConfigBundle>
    decreases s.len(),
{
    if s.len() == 0 {
        s
    } else if "_"@.is_prefix_of(s.last().config_file_name@) {
        shown_bot_bundles(s.drop_last())
    } else {
        shown_bot_bundles(s.drop_last()).push(s.last())
    }
}

/// A name is hidden exactly when its first character is `_`.
proof fn lemma_underscore_prefix(n: Seq<char>)
    ensures
        "_"@.is_prefix_of(n) <==> (n.len() > 0 && n[0] == '_'),
{
    reveal_strlit("_");
    assert("_"@ =~= seq!['_']);
    if n.len() > 0 {
        assert(n.subrange(0, 1) =~= seq![n[0]]);
        if n[0] == '_' {
            assert(n.subrange(0, 1) =~= "_"@);
        }
        if "_"@.is_prefix_of(n) {
            assert(n.subrange(0, 1)[0] == "_"@[0]);
        }
    }
}

/// A `.cfg` file name that a folder scan shows: one that does not begin with `_`.
pub open spec fn visible_name(n: Seq<char>) -> bool {
    !(n.len() > 0 && n[0] == '_')
}

/// Script bundles with a shown `.cfg` file name.
pub open spec fn script_shown() -> spec_fn(ScriptConfigBundle) -> bool {
    |b: ScriptConfigBundle| visible_name(b.config_file_name@)
}

/// Bot bundles with a shown `.cfg` file name.
pub open spec fn bot_shown() -> spec_fn(BotConfigBundle) -> bool {
    |b: BotConfigBundle| visible_name(b.config_file_name@)
}

/// A folder scan keeps exactly the bundles whose `.cfg` file name does not begin
/// with `_`, in their order.
pub proof fn lemma_shown_bundles_filter(s: Seq<ScriptConfigBundle>)
    ensures
        shown_bundles(s) == s.filter(script_shown()),
    decreases s.len(),
{
    if s.len() > 0 {
        lemma_shown_bundles_filter(s.drop_last());
        lemma_underscore_prefix(s.last().config_file_name@);
        reveal(Seq::filter);
        assert(s.filter(script_shown()) == (if script_shown()(s.last()) {
            s.drop_last().filter(script_shown()).push(s.last())
        } else {
            s.drop_last().filter(script_shown())
        }));
    }
}

/// A folder scan keeps exactly the bot bundles whose `.cfg` file name does not
/// begin with `_`, in their order.
pub proof fn lemma_shown_bot_bundles_filter(s: Seq<BotConfigBundle>)
    ensures
        shown_bot_bundles(s) == s.filter(bot_shown()),
    decreases s.len(),
{
    if s.len() > 0 {
        lemma_shown_bot_bundles_filter(s.drop_last());
        lemma_underscore_prefix(s.last().config_file_name@);
        reveal(Seq::filter);
        assert(s.filter(bot_shown()) == (if bot_shown()(s.last()) {
            s.drop_last().filter(bot_shown()).push(s.last())
        } else {
            s.drop_last().filter(bot_shown())
        }));
    }
}

/// Drops the bot bundles whose `.cfg` file name starts with `_`, keeping the order.
pub fn filter_hidden_bot_bundles(bundles: Vec<BotConfigBundle>) -> (r: Vec<BotConfigBundle>)
    ensures
        r@ == shown_bot_bundles(bundles@),
        r@ == bundles@.filter(bot_shown()),
{
    let ghost orig = bundles@;
    proof { lemma_shown_bot_bundles_filter(orig); }
    let ghost total = bundles.len();
    let mut rest = bundles;
    let mut r: Vec<BotConfigBundle> = Vec::new();
    let mut taken: usize = 0;
    while rest.len() > 0
        invariant
            taken <= orig.len(),
            orig.len() == total,
            total <= usize::MAX,
            rest@ == orig.subrange(taken as int, orig.len() as int),
            r@ == shown_bot_bundles(orig.subrange(0, taken as int)),
        decreases rest.len(),
    {
        let b = rest.remove(0);
        proof {
            assert(orig.subrange(0, taken + 1).drop_last() =~= orig.subrange(0, taken as int));
        }
        if !str_starts_with(b.config_file_name.as_str(), "_") {
            r.push(b);
        }
        taken = taken + 1;
        assert(rest@ =~= orig.subrange(taken as int, orig.len() as int));
    }
    assert(orig.subrange(0, taken as int) =~= orig);
    r
}

/// The settings document read from the text of the settings file, `;` starting a
/// comment; where the parser refuses the text, an empty document and the parser's
/// message, which the GUI reports.
pub fn gui_config_from_text(text: String) -> (r: (Ini, Option<String>))
    ensures
        ini_is_plain(r.0),
        match ini_parsed(text@, false) {
            Some(m) => ini_entries(r.0) == m && r.1 is None,
            None => ini_entries(r.0) == no_entries() && r.1 is Some,
        },
{
    match ini_from_text(text, false) {
        Ok(c) => (c, None),
        Err(msg) => (new_ini(), Some(msg)),
    }
}

/// Whether a stored (section, key) pair lies in the match or mutator settings.
pub open spec fn in_match_sections(k: (Seq<char>, Seq<char>)) -> bool {
    k.0 == "match_settings"@ || k.0 == "mutator_settings"@
}

/// Two documents hold the same entries in the match and mutator settings.
pub open spec fn agree_on_match_sections(a: Map<(Seq<char>, Seq<char>), Option<Seq<char>>>, b: Map<(Seq<char>, Seq<char>), Option<Seq<char>>>) -> bool {
    forall|k: (Seq<char>, Seq<char>)| #[trigger] in_match_sections(k) ==> (a.contains_key(k) == b.contains_key(k) && (a.contains_key(k) ==> a[k] == b[k]))
}

/// The entries of a settings document hold the GUI's defaults, with `python_path`
/// as the GUI's python, written over the entries `base`: in the match and mutator
/// settings, what saving the default match settings with no scripts over `base`
/// gives.
pub open spec fn holds_gui_defaults(e: Map<(Seq<char>, Seq<char>), Option<Seq<char>>>, python_path: Seq<char>, base: Map<(Seq<char>, Seq<char>), Option<Seq<char>>>) -> bool {
    &&& exists|m: MatchConfig| #[trigger] MatchConfig::is_default(m) && agree_on_match_sections(e, MatchConfig::saved_entries(base, m, Some("[]"@)))
    &&& ini_value(e, "bot_folder_settings"@, "files"@) == Some("{}"@)
    &&& ini_value(e, "bot_folder_settings"@, "folders"@) == Some("{}"@)
    &&& ini_value(e, "bot_folder_settings"@, "incr"@) is None
    &&& ini_value(e, "python_config"@, "path"@) == Some(python_path)
    &&& ini_value(e, "launcher_settings"@, "preferred_launcher"@) == Some("epic"@)
    &&& ini_value(e, "launcher_settings"@, "use_login_tricks"@) == Some("true"@)
    &&& ini_value(e, "launcher_settings"@, "rocket_league_exe_path"@) is None
    &&& ini_value(e, "story_mode"@, "save_state"@) is None
    &&& ini_value(e, "match_settings"@, "scripts"@) == Some("[]"@)
    &&& GuiTabCategory::from_entries(e) == GuiTabCategory { primary: PrimaryCategories::All, secondary: 0 }
}

/// Fills a settings document with the GUI's defaults; `python_path` is the python
/// the GUI detected, or empty.
pub fn set_gui_config_to_default(conf: &mut Ini, python_path: String)
    ensures
        ini_is_plain(*final(conf)) == ini_is_plain(*old(conf)),
        ini_is_plain(*old(conf)) ==> holds_gui_defaults(ini_entries(*final(conf)), python_path@, ini_entries(*old(conf))),
{
    proof { lemma_default_keys(); }
    let ghost path = python_path@;
    ini_set(conf, "bot_folder_settings", "files", Some("{}".to_owned()));
    ini_set(conf, "bot_folder_settings", "folders", Some("{}".to_owned()));
    ini_set(conf, "bot_folder_settings", "incr", None);
    let ghost before_match = ini_entries(*conf);
    let defaults = MatchConfig::default();
    let ghost default_match = defaults;
    defaults.save_to_config(conf, Some("[]".to_owned()));
    let ghost after_match = ini_entries(*conf);
    ini_set(conf, "python_config", "path", Some(python_path));
    ini_set(conf, "launcher_settings", "preferred_launcher", Some("epic".to_owned()));
    ini_set(conf, "launcher_settings", "use_login_tricks", Some("true".to_owned()));
    ini_set(conf, "launcher_settings", "rocket_league_exe_path", None);
    ini_set(conf, "story_mode", "save_state", None);
    GuiTabCategory::default().save_to_config(conf);
    proof {
        if ini_is_plain(*old(conf)) {
            MatchConfig::lemma_saved_keeps_other_sections(before_match, default_match, Some("[]"@));
            let saved = MatchConfig::saved_entries(ini_entries(*old(conf)), default_match, Some("[]"@));
            assert(agree_on_match_sections(before_match, ini_entries(*old(conf))));
            lemma_saved_agree(before_match, ini_entries(*old(conf)), default_match, Some("[]"@));
            assert(agree_on_match_sections(ini_entries(*conf), saved));
            assert(MatchConfig::is_default(default_match));
        }
    }
}

/// Saving the same match settings over two documents that agree on the match and
/// mutator settings gives two documents that agree there too.
proof fn lemma_saved_agree(a: Map<(Seq<char>, Seq<char>), Option<Seq<char>>>, b: Map<(Seq<char>, Seq<char>), Option<Seq<char>>>, m: MatchConfig, scripts: Option<Seq<char>>)
    requires
        agree_on_match_sections(a, b),
    ensures
        agree_on_match_sections(MatchConfig::saved_entries(a, m, scripts), MatchConfig::saved_entries(b, m, scripts)),
{
    assert forall|k: (Seq<char>, Seq<char>)| #[trigger] in_match_sections(k) implies ({
        let sa = MatchConfig::saved_entries(a, m, scripts);
        let sb = MatchConfig::saved_entries(b, m, scripts);
        sa.contains_key(k) == sb.contains_key(k) && (sa.contains_key(k) ==> sa[k] == sb[k])
    }) by {
        let ma = MatchConfig::saved_match_entries(a, m, scripts);
        let mb = MatchConfig::saved_match_entries(b, m, scripts);
        lemma_match_saved_same_at(a, b, m, scripts, k);
        lemma_mutators_saved_same_at(ma, mb, m.mutators, k);
    }
}

proof fn lemma_match_saved_same_at(a: Map<(Seq<char>, Seq<char>), Option<Seq<char>>>, b: Map<(Seq<char>, Seq<char>), Option<Seq<char>>>, m: MatchConfig, scripts: Option<Seq<char>>, k: (Seq<char>, Seq<char>))
    requires
        a.contains_key(k) == b.contains_key(k),
        a.contains_key(k) ==> a[k] == b[k],
    ensures
        ({
            let sa = MatchConfig::saved_match_entries(a, m, scripts);
            let sb = MatchConfig::saved_match_entries(b, m, scripts);
            sa.contains_key(k) == sb.contains_key(k) && (sa.contains_key(k) ==> sa[k] == sb[k])
        }),
{
}

proof fn lemma_mutators_saved_same_at(a: Map<(Seq<char>, Seq<char>), Option<Seq<char>>>, b: Map<(Seq<char>, Seq<char>), Option<Seq<char>>>, m: MutatorConfig, k: (Seq<char>, Seq<char>))
    requires
        a.contains_key(k) == b.contains_key(k),
        a.contains_key(k) ==> a[k] == b[k],
    ensures
        ({
            let sa = MutatorConfig::saved_entries(a, m);
            let sb = MutatorConfig::saved_entries(b, m);
            sa.contains_key(k) == sb.contains_key(k) && (sa.contains_key(k) ==> sa[k] == sb[k])
        }),
{
    let mut x = a;
    let mut y = b;
    lemma_insert_same_at(x, y, ("mutator_settings"@, "match_length"@), Some(json_text_of_str(m.match_length.label())), k);
    x = x.insert(("mutator_settings"@, "match_length"@), Some(json_text_of_str(m.match_length.label())));
    y = y.insert(("mutator_settings"@, "match_length"@), Some(json_text_of_str(m.match_length.label())));
    lemma_insert_same_at(x, y, ("mutator_settings"@, "max_score"@), Some(json_text_of_str(m.max_score.label())), k);
    x = x.insert(("mutator_settings"@, "max_score"@), Some(json_text_of_str(m.max_score.label())));
    y = y.insert(("mutator_settings"@, "max_score"@), Some(json_text_of_str(m.max_score.label())));
    lemma_insert_same_at(x, y, ("mutator_settings"@, "overtime"@), Some(json_text_of_str(m.overtime.label())), k);
    x = x.insert(("mutator_settings"@, "overtime"@), Some(json_text_of_str(m.overtime.label())));
    y = y.insert(("mutator_settings"@, "overtime"@), Some(json_text_of_str(m.overtime.label())));
    lemma_insert_same_at(x, y, ("mutator_settings"@, "series_length"@), Some(json_text_of_str(m.series_length.label())), k);
    x = x.insert(("mutator_settings"@, "series_length"@), Some(json_text_of_str(m.series_length.label())));
    y = y.insert(("mutator_settings"@, "series_length"@), Some(json_text_of_str(m.series_length.label())));
    lemma_insert_same_at(x, y, ("mutator_settings"@, "game_speed"@), Some(json_text_of_str(m.game_speed.label())), k);
    x = x.insert(("mutator_settings"@, "game_speed"@), Some(json_text_of_str(m.game_speed.label())));
    y = y.insert(("mutator_settings"@, "game_speed"@), Some(json_text_of_str(m.game_speed.label())));
    lemma_insert_same_at(x, y, ("mutator_settings"@, "ball_max_speed"@), Some(json_text_of_str(m.ball_max_speed.label())), k);
    x = x.insert(("mutator_settings"@, "ball_max_speed"@), Some(json_text_of_str(m.ball_max_speed.label())));
    y = y.insert(("mutator_settings"@, "ball_max_speed"@), Some(json_text_of_str(m.ball_max_speed.label())));
    lemma_insert_same_at(x, y, ("mutator_settings"@, "ball_type"@), Some(json_text_of_str(m.ball_type.label())), k);
    x = x.insert(("mutator_settings"@, "ball_type"@), Some(json_text_of_str(m.ball_type.label())));
    y = y.insert(("mutator_settings"@, "ball_type"@), Some(json_text_of_str(m.ball_type.label())));
    lemma_insert_same_at(x, y, ("mutator_settings"@, "ball_weight"@), Some(json_text_of_str(m.ball_weight.label())), k);
    x = x.insert(("mutator_settings"@, "ball_weight"@), Some(json_text_of_str(m.ball_weight.label())));
    y = y.insert(("mutator_settings"@, "ball_weight"@), Some(json_text_of_str(m.ball_weight.label())));
    lemma_insert_same_at(x, y, ("mutator_settings"@, "ball_size"@), Some(json_text_of_str(m.ball_size.label())), k);
    x = x.insert(("mutator_settings"@, "ball_size"@), Some(json_text_of_str(m.ball_size.label())));
    y = y.insert(("mutator_settings"@, "ball_size"@), Some(json_text_of_str(m.ball_size.label())));
    lemma_insert_same_at(x, y, ("mutator_settings"@, "ball_bounciness"@), Some(json_text_of_str(m.ball_bounciness.label())), k);
    x = x.insert(("mutator_settings"@, "ball_bounciness"@), Some(json_text_of_str(m.ball_bounciness.label())));
    y = y.insert(("mutator_settings"@, "ball_bounciness"@), Some(json_text_of_str(m.ball_bounciness.label())));
    lemma_insert_same_at(x, y, ("mutator_settings"@, "boost_amount"@), Some(json_text_of_str(m.boost_amount.label())), k);
    x = x.insert(("mutator_settings"@, "boost_amount"@), Some(json_text_of_str(m.boost_amount.label())));
    y = y.insert(("mutator_settings"@, "boost_amount"@), Some(json_text_of_str(m.boost_amount.label())));
    lemma_insert_same_at(x, y, ("mutator_settings"@, "rumble"@), Some(json_text_of_str(m.rumble.label())), k);
    x = x.insert(("mutator_settings"@, "rumble"@), Some(json_text_of_str(m.rumble.label())));
    y = y.insert(("mutator_settings"@, "rumble"@), Some(json_text_of_str(m.rumble.label())));
    lemma_insert_same_at(x, y, ("mutator_settings"@, "boost_strength"@), Some(json_text_of_str(m.boost_strength.label())), k);
    x = x.insert(("mutator_settings"@, "boost_strength"@), Some(json_text_of_str(m.boost_strength.label())));
    y = y.insert(("mutator_settings"@, "boost_strength"@), Some(json_text_of_str(m.boost_strength.label())));
    lemma_insert_same_at(x, y, ("mutator_settings"@, "gravity"@), Some(json_text_of_str(m.gravity.label())), k);
    x = x.insert(("mutator_settings"@, "gravity"@), Some(json_text_of_str(m.gravity.label())));
    y = y.insert(("mutator_settings"@, "gravity"@), Some(json_text_of_str(m.gravity.label())));
    lemma_insert_same_at(x, y, ("mutator_settings"@, "demolish"@), Some(json_text_of_str(m.demolish.label())), k);
    x = x.insert(("mutator_settings"@, "demolish"@), Some(json_text_of_str(m.demolish.label())));
    y = y.insert(("mutator_settings"@, "demolish"@), Some(json_text_of_str(m.demolish.label())));
    lemma_insert_same_at(x, y, ("mutator_settings"@, "respawn_time"@), Some(json_text_of_str(m.respawn_time.label())), k);
    x = x.insert(("mutator_settings"@, "respawn_time"@), Some(json_text_of_str(m.respawn_time.label())));
    y = y.insert(("mutator_settings"@, "respawn_time"@), Some(json_text_of_str(m.respawn_time.label())));
    assert(x == MutatorConfig::saved_entries(a, m));
    assert(y == MutatorConfig::saved_entries(b, m));
}

proof fn lemma_insert_same_at(a: Map<(Seq<char>, Seq<char>), Option<Seq<char>>>, b: Map<(Seq<char>, Seq<char>), Option<Seq<char>>>, key: (Seq<char>, Seq<char>), v: Option<Seq<char>>, k: (Seq<char>, Seq<char>))
    requires
        a.contains_key(k) == b.contains_key(k),
        a.contains_key(k) ==> a[k] == b[k],
    ensures
        a.insert(key, v).contains_key(k) == b.insert(key, v).contains_key(k),
        a.insert(key, v).contains_key(k) ==> a.insert(key, v)[k] == b.insert(key, v)[k],
{
}

/// A new settings document holding the GUI's defaults, as the GUI makes it the
/// first time it runs; `python_path` is the python the GUI detected, or empty.
pub fn new_gui_config(python_path: String) -> (r: Ini)
    ensures
        ini_is_plain(r),
        holds_gui_defaults(ini_entries(r), python_path@, no_entries()),
{
    let mut conf = new_ini();
    set_gui_config_to_default(&mut conf, python_path);
    conf
}

proof fn lemma_default_keys()
    ensures
        lowered("bot_folder_settings"@) == "bot_folder_settings"@,
        is_ascii_seq("bot_folder_settings"@),
        lowered("python_config"@) == "python_config"@,
        is_ascii_seq("python_config"@),
        lowered("launcher_settings"@) == "launcher_settings"@,
        is_ascii_seq("launcher_settings"@),
        lowered("story_mode"@) == "story_mode"@,
        is_ascii_seq("story_mode"@),
        lowered("gui_state"@) == "gui_state"@,
        is_ascii_seq("gui_state"@),
        lowered("match_settings"@) == "match_settings"@,
        is_ascii_seq("match_settings"@),
        lowered("mutator_settings"@) == "mutator_settings"@,
        is_ascii_seq("mutator_settings"@),
        lowered("files"@) == "files"@,
        is_ascii_seq("files"@),
        lowered("folders"@) == "folders"@,
        is_ascii_seq("folders"@),
        lowered("incr"@) == "incr"@,
        is_ascii_seq("incr"@),
        lowered("path"@) == "path"@,
        is_ascii_seq("path"@),
        lowered("preferred_launcher"@) == "preferred_launcher"@,
        is_ascii_seq("preferred_launcher"@),
        lowered("use_login_tricks"@) == "use_login_tricks"@,
        is_ascii_seq("use_login_tricks"@),
        lowered("rocket_league_exe_path"@) == "rocket_league_exe_path"@,
        is_ascii_seq("rocket_league_exe_path"@),
        lowered("save_state"@) == "save_state"@,
        is_ascii_seq("save_state"@),
        lowered("scripts"@) == "scripts"@,
        is_ascii_seq("scripts"@),
        "bot_folder_settings"@ != "python_config"@,
        "bot_folder_settings"@ != "launcher_settings"@,
        "bot_folder_settings"@ != "story_mode"@,
        "bot_folder_settings"@ != "gui_state"@,
        "bot_folder_settings"@ != "match_settings"@,
        "bot_folder_settings"@ != "mutator_settings"@,
        "python_config"@ != "launcher_settings"@,
        "python_config"@ != "story_mode"@,
        "python_config"@ != "gui_state"@,
        "python_config"@ != "match_settings"@,
        "python_config"@ != "mutator_settings"@,
        "launcher_settings"@ != "story_mode"@,
        "launcher_settings"@ != "gui_state"@,
        "launcher_settings"@ != "match_settings"@,
        "launcher_settings"@ != "mutator_settings"@,
        "story_mode"@ != "gui_state"@,
        "story_mode"@ != "match_settings"@,
        "story_mode"@ != "mutator_settings"@,
        "gui_state"@ != "match_settings"@,
        "gui_state"@ != "mutator_settings"@,
        "match_settings"@ != "mutator_settings"@,
        "files"@ != "folders"@,
        "files"@ != "incr"@,
        "files"@ != "path"@,
        "files"@ != "preferred_launcher"@,
        "files"@ != "use_login_tricks"@,
        "files"@ != "rocket_league_exe_path"@,
        "files"@ != "save_state"@,
        "files"@ != "scripts"@,
        "folders"@ != "incr"@,
        "folders"@ != "path"@,
        "folders"@ != "preferred_launcher"@,
        "folders"@ != "use_login_tricks"@,
        "folders"@ != "rocket_league_exe_path"@,
        "folders"@ != "save_state"@,
        "folders"@ != "scripts"@,
        "incr"@ != "path"@,
        "incr"@ != "preferred_launcher"@,
        "incr"@ != "use_login_tricks"@,
        "incr"@ != "rocket_league_exe_path"@,
        "incr"@ != "save_state"@,
        "incr"@ != "scripts"@,
        "path"@ != "preferred_launcher"@,
        "path"@ != "use_login_tricks"@,
        "path"@ != "rocket_league_exe_path"@,
        "path"@ != "save_state"@,
        "path"@ != "scripts"@,
        "preferred_launcher"@ != "use_login_tricks"@,
        "preferred_launcher"@ != "rocket_league_exe_path"@,
        "preferred_launcher"@ != "save_state"@,
        "preferred_launcher"@ != "scripts"@,
        "use_login_tricks"@ != "rocket_league_exe_path"@,
        "use_login_tricks"@ != "save_state"@,
        "use_login_tricks"@ != "scripts"@,
        "rocket_league_exe_path"@ != "save_state"@,
        "rocket_league_exe_path"@ != "scripts"@,
        "save_state"@ != "scripts"@,
{
    reveal_strlit("bot_folder_settings");
    assert("bot_folder_settings"@ =~= seq!['b', 'o', 't', '_', 'f', 'o', 'l', 'd', 'e', 'r', '_', 's', 'e', 't', 't', 'i', 'n', 'g', 's']);
    lemma_lower_ascii_name("bot_folder_settings"@);
    reveal_strlit("python_config");
    assert("python_config"@ =~= seq!['p', 'y', 't', 'h', 'o', 'n', '_', 'c', 'o', 'n', 'f', 'i', 'g']);
    lemma_lower_ascii_name("python_config"@);
    reveal_strlit("launcher_settings");
    assert("launcher_settings"@ =~= seq!['l', 'a', 'u', 'n', 'c', 'h', 'e', 'r', '_', 's', 'e', 't', 't', 'i', 'n', 'g', 's']);
    lemma_lower_ascii_name("launcher_settings"@);
    reveal_strlit("story_mode");
    assert("story_mode"@ =~= seq!['s', 't', 'o', 'r', 'y', '_', 'm', 'o', 'd', 'e']);
    lemma_lower_ascii_name("story_mode"@);
    reveal_strlit("gui_state");
    assert("gui_state"@ =~= seq!['g', 'u', 'i', '_', 's', 't', 'a', 't', 'e']);
    lemma_lower_ascii_name("gui_state"@);
    reveal_strlit("match_settings");
    assert("match_settings"@ =~= seq!['m', 'a', 't', 'c', 'h', '_', 's', 'e', 't', 't', 'i', 'n', 'g', 's']);
    lemma_lower_ascii_name("match_settings"@);
    reveal_strlit("mutator_settings");
    assert("mutator_settings"@ =~= seq!['m', 'u', 't', 'a', 't', 'o', 'r', '_', 's', 'e', 't', 't', 'i', 'n', 'g', 's']);
    lemma_lower_ascii_name("mutator_settings"@);
    reveal_strlit("files");
    assert("files"@ =~= seq!['f', 'i', 'l', 'e', 's']);
    lemma_lower_ascii_name("files"@);
    reveal_strlit("folders");
    assert("folders"@ =~= seq!['f', 'o', 'l', 'd', 'e', 'r', 's']);
    lemma_lower_ascii_name("folders"@);
    reveal_strlit("incr");
    assert("incr"@ =~= seq!['i', 'n', 'c', 'r']);
    lemma_lower_ascii_name("incr"@);
    reveal_strlit("path");
    assert("path"@ =~= seq!['p', 'a', 't', 'h']);
    lemma_lower_ascii_name("path"@);
    reveal_strlit("preferred_launcher");
    assert("preferred_launcher"@ =~= seq!['p', 'r', 'e', 'f', 'e', 'r', 'r', 'e', 'd', '_', 'l', 'a', 'u', 'n', 'c', 'h', 'e', 'r']);
    lemma_lower_ascii_name("preferred_launcher"@);
    reveal_strlit("use_login_tricks");
    assert("use_login_tricks"@ =~= seq!['u', 's', 'e', '_', 'l', 'o', 'g', 'i', 'n', '_', 't', 'r', 'i', 'c', 'k', 's']);
    lemma_lower_ascii_name("use_login_tricks"@);
    reveal_strlit("rocket_league_exe_path");
    assert("rocket_league_exe_path"@ =~= seq!['r', 'o', 'c', 'k', 'e', 't', '_', 'l', 'e', 'a', 'g', 'u', 'e', '_', 'e', 'x', 'e', '_', 'p', 'a', 't', 'h']);
    lemma_lower_ascii_name("rocket_league_exe_path"@);
    reveal_strlit("save_state");
    assert("save_state"@ =~= seq!['s', 'a', 'v', 'e', '_', 's', 't', 'a', 't', 'e']);
    lemma_lower_ascii_name("save_state"@);
    reveal_strlit("scripts");
    assert("scripts"@ =~= seq!['s', 'c', 'r', 'i', 'p', 't', 's']);
    lemma_lower_ascii_name("scripts"@);
}

} // verus!
