//! Keeping the bot pack and the map pack current: which version is installed,
//! whether an update can be patched in or needs a full download, and the order
//! in which incremental patches are applied.

use vstd::prelude::*;
use configparser::ini::Ini;
use crate::config_store::{ini_entries, ini_get, ini_is_plain, ini_set, ini_value, lemma_lower_ascii_name, lowered};
use crate::str_map::StrMap;
use crate::text::{ascii_lower, decimal, decimal_string, is_ascii_seq, lemma_decimal_parses, opt_view, parse_decimal, parse_unsigned, push_decimal, remove_all, str_remove_all, views};

verus! {

/// The most patches applied in one update; more need a full download.
pub const MAX_PATCHES: u32 = 50;

/// Represents the action taken after an update.
#[derive(Debug, Clone, PartialEq, Eq)]
pub enum BotpackStatus {
    /// The update did not run; a full download must be run.
    RequiresFullDownload,
    /// There is no update, or updating failed; why.
    Skipped(String),
    /// The update or full download went through; what was done.
    Success(String),
}

/// The address of the incremental patch that brings a repository to version `tag`.
pub open spec fn tag_url(repo_full_name: Seq<char>, tag: nat) -> Seq<char> {
    "https://github.com/"@ + repo_full_name + "/releases/download/incr-"@ + decimal(tag) + "/incremental.zip"@
}

/// The address of the incremental patch that brings a repository (`owner/name`) to version `tag`.
pub fn get_url_from_tag(repo_full_name: &str, tag: u32) -> (r: String)
    ensures
        r@ == tag_url(repo_full_name@, tag as nat),
{
    let mut r = "https://github.com/".to_owned();
    r.append(repo_full_name);
    r.append("/releases/download/incr-");
    push_decimal(&mut r, tag as u64);
    r.append("/incremental.zip");
    r
}

/// The version number a release tag such as `incr-103` names: the tag without any
/// `incr-`, read as a number.
pub open spec fn tag_number(tag: Seq<char>) -> Option<nat> {
    parse_unsigned(remove_all(tag, "incr-"@), u32::MAX as nat)
}

/// The version number a release tag such as `incr-103` names.
pub fn tag_number_of(tag: &str) -> (r: Option<u32>)
    ensures
        match tag_number(tag@) {
            Some(n) => r == Some(n as u32),
            None => r is None,
        },
{
    proof {
        reveal_strlit("incr-");
    }
    let digits = str_remove_all(tag, "incr-");
    match parse_decimal(digits.as_str(), 4294967295u64) {
        Some(n) => Some(n as u32),
        None => None,
    }
}

/// The text recorded for version `tag`.
pub open spec fn tag_text(tag: nat) -> Seq<char> {
    "incr-"@ + decimal(tag)
}

proof fn lemma_tag_keys()
    ensures
        is_ascii_seq("bot_folder_settings"@),
        is_ascii_seq("incr"@),
        lowered("bot_folder_settings"@) == "bot_folder_settings"@,
        lowered("incr"@) == "incr"@,
{
    reveal_strlit("bot_folder_settings");
    reveal_strlit("incr");
    assert("bot_folder_settings"@ =~= seq!['b', 'o', 't', '_', 'f', 'o', 'l', 'd', 'e', 'r', '_', 's', 'e', 't', 't', 'i', 'n', 'g', 's']);
    assert("incr"@ =~= seq!['i', 'n', 'c', 'r']);
    lemma_lower_ascii_name("bot_folder_settings"@);
    lemma_lower_ascii_name("incr"@);
}

/// Removing `incr-` from a recorded tag leaves its numeral.
proof fn lemma_tag_text_number(tag: nat)
    requires
        tag <= u32::MAX,
    ensures
        tag_number(tag_text(tag)) == Some(tag),
{
    reveal_strlit("incr-");
    let p = "incr-"@;
    assert(p =~= seq!['i', 'n', 'c', 'r', '-']);
    let t = tag_text(tag);
    assert(t.subrange(0, 5) =~= p);
    assert(t.subrange(5, t.len() as int) =~= decimal(tag));
    crate::text::lemma_decimal_digits(tag);
    lemma_remove_all_absent(decimal(tag), p);
    lemma_decimal_parses(tag, u32::MAX as nat);
}

/// A text without the first character of `p` holds no occurrence of it.
proof fn lemma_remove_all_absent(s: Seq<char>, p: Seq<char>)
    requires
        p.len() > 0,
        forall|i: int| 0 <= i < s.len() ==> #[trigger] s[i] != p[0],
    ensures
        remove_all(s, p) == s,
    decreases s.len(),
{
    if s.len() >= p.len() {
        assert(s.subrange(0, p.len() as int)[0] == s[0]);
        let rest = s.subrange(1, s.len() as int);
        assert forall|i: int| 0 <= i < rest.len() implies #[trigger] rest[i] != p[0] by {
            assert(rest[i] == s[i + 1]);
        }
        lemma_remove_all_absent(rest, p);
        assert(s =~= seq![s[0]] + rest);
    }
}

/// The version of the bot pack recorded in the settings document, if any.
pub fn get_current_tag_name(conf: &Ini) -> (r: Option<u32>)
    ensures
        ini_is_plain(*conf) ==> match ini_value(ini_entries(*conf), "bot_folder_settings"@, "incr"@) {
            Some(t) => match tag_number(t) {
                Some(n) => r == Some(n as u32),
                None => r is None,
            },
            None => r is None,
        },
{
    proof { lemma_tag_keys(); }
    match ini_get(conf, "bot_folder_settings", "incr") {
        Some(t) => tag_number_of(t.as_str()),
        None => None,
    }
}

/// Records in the settings document that the bot pack is at version `tag`;
/// reading the version back gives `tag`.
pub fn record_tag(conf: &mut Ini, tag: u32)
    ensures
        ini_is_plain(*final(conf)) == ini_is_plain(*old(conf)),
        ini_is_plain(*old(conf)) ==> ini_entries(*final(conf)) == ini_entries(*old(conf)).insert(
            ("bot_folder_settings"@, "incr"@),
            Some(tag_text(tag as nat)),
        ),
        ini_is_plain(*old(conf)) ==> ini_value(ini_entries(*final(conf)), "bot_folder_settings"@, "incr"@)
            == Some(tag_text(tag as nat)),
        ini_is_plain(*old(conf)) ==> tag_number(tag_text(tag as nat)) == Some(tag as nat),
{
    proof {
        lemma_tag_keys();
        lemma_tag_text_number(tag as nat);
    }
    let mut text = "incr-".to_owned();
    push_decimal(&mut text, tag as u64);
    ini_set(conf, "bot_folder_settings", "incr", Some(text));
}

/// Whether the installed bot pack is the latest: it is taken to be when its
/// version or the latest one is unknown.
pub fn is_botpack_current(current: Option<u32>, latest: Option<u32>) -> (r: bool)
    ensures
        r == match (current, latest) {
            (Some(c), Some(l)) => c == l,
            _ => true,
        },
{
    match (current, latest) {
        (Some(c), Some(l)) => c == l,
        _ => true,
    }
}

/// Decides how an update of the bot pack starts: a full download when no version
/// is installed, or when patches would be needed but the latest is more than
/// `MAX_PATCHES` ahead or the checked-out bot pack folder does not exist; nothing
/// when the latest version is unknown or installed; patches otherwise.
pub fn check_update(current: Option<u32>, latest: Option<u32>, checkout_exists: bool) -> (r: Option<BotpackStatus>)
    requires
        current matches Some(c) && latest matches Some(l) ==> c <= l,
    ensures
        match (current, latest) {
            (None, _) => r == Some(BotpackStatus::RequiresFullDownload),
            (Some(_), None) => r matches Some(BotpackStatus::Skipped(m)) && m@ == "Failed to get the latest release tag."@,
            (Some(c), Some(l)) => if l == c {
                r matches Some(BotpackStatus::Skipped(m)) && m@ == "The botpack is already up-to-date!"@
            } else if l - c > MAX_PATCHES || !checkout_exists {
                r == Some(BotpackStatus::RequiresFullDownload)
            } else {
                r is None
            },
        },
{
    let c = match current {
        Some(c) => c,
        None => {
            return Some(BotpackStatus::RequiresFullDownload);
        },
    };
    let l = match latest {
        Some(l) => l,
        None => {
            return Some(BotpackStatus::Skipped("Failed to get the latest release tag.".to_owned()));
        },
    };
    if l == c {
        return Some(BotpackStatus::Skipped("The botpack is already up-to-date!".to_owned()));
    }
    if l - c > MAX_PATCHES || !checkout_exists {
        return Some(BotpackStatus::RequiresFullDownload);
    }
    None
}

/// Applies the incremental patches from `current + 1` to `latest` in order; `tag`
/// is the next one to apply.
pub struct BotpackPatcher {
    pub current: u32,
    pub latest: u32,
    pub tag: u32,
}

impl BotpackPatcher {
    /// The patcher stays between the first patch and one past the last.
    pub open spec fn wf(self) -> bool {
        self.current < self.latest && self.current < self.tag && self.tag <= self.latest + 1
            && self.latest < u32::MAX
    }

    /// Patching from version `current` up to `latest`.
    pub fn new(current: u32, latest: u32) -> (r: Self)
        requires
            current < latest,
            latest < u32::MAX,
        ensures
            r.wf(),
            r.current == current,
            r.latest == latest,
            r.tag == current + 1,
    {
        BotpackPatcher { current, latest, tag: current + 1 }
    }

    /// The next patch to apply, if any is left.
    pub fn next_tag(&self) -> (r: Option<u32>)
        requires
            self.wf(),
        ensures
            r == (if self.tag <= self.latest { Some(self.tag) } else { None }),
    {
        if self.tag <= self.latest {
            Some(self.tag)
        } else {
            None
        }
    }

    /// The next patch went in.
    pub fn patch_applied(&mut self)
        requires
            old(self).wf(),
            old(self).tag <= old(self).latest,
        ensures
            final(self).wf(),
            final(self).tag == old(self).tag + 1,
            final(self).current == old(self).current,
            final(self).latest == old(self).latest,
    {
        self.tag = self.tag + 1;
    }

    /// The status once patching stops: success when every patch went in.
    pub fn finish(&self) -> (r: BotpackStatus)
        requires
            self.wf(),
        ensures
            self.tag == self.latest + 1 ==> (r matches BotpackStatus::Success(m) && m@ == "Updated the botpack!"@),
            self.tag != self.latest + 1 ==> (r matches BotpackStatus::Skipped(m) && m@ == "Failed to update the botpack..."@),
    {
        if self.tag - 1 == self.latest {
            BotpackStatus::Success("Updated the botpack!".to_owned())
        } else {
            BotpackStatus::Skipped("Failed to update the botpack...".to_owned())
        }
    }
}

/// Whether the map pack needs a full download: when a later revision is released.
pub fn map_pack_status(revision: u64, latest_revision: u64) -> (r: BotpackStatus)
    ensures
        latest_revision > revision ==> r == BotpackStatus::RequiresFullDownload,
        latest_revision <= revision ==> (r matches BotpackStatus::Skipped(m) && m@ == "Map pack is already up-to-date!"@),
{
    if latest_revision > revision {
        BotpackStatus::RequiresFullDownload
    } else {
        BotpackStatus::Skipped("Map pack is already up-to-date!".to_owned())
    }
}

/// The paths among `new_maps` whose map is not in `old_maps` or has a later revision.
pub open spec fn maps_needing_fetch(new_maps: Seq<(String, u64)>, old_maps: Map<Seq<char>, u64>) -> Seq<Seq<char>>
    decreases new_maps.len(),
{
    if new_maps.len() == 0 {
        Seq::empty()
    } else {
        let prev = maps_needing_fetch(new_maps.drop_last(), old_maps);
        let (path, revision) = new_maps.last();
        if !old_maps.contains_key(path@) || old_maps[path@] < revision {
            prev.push(path@)
        } else {
            prev
        }
    }
}

/// The maps of the new index to fetch: those missing from the old index or with a
/// later revision, in the order of the new index.
pub fn maps_to_fetch(new_maps: &StrMap<u64>, old_maps: &StrMap<u64>) -> (r: Vec<String>)
    ensures
        views(r@) == maps_needing_fetch(new_maps.entry_seq(), old_maps@),
{
    let pairs = new_maps.pairs();
    let mut r: Vec<String> = Vec::new();
    let mut i: usize = 0;
    while i < pairs.len()
        invariant
            i <= pairs@.len(),
            pairs@ == new_maps.entry_seq(),
            views(r@) == maps_needing_fetch(pairs@.subrange(0, i as int), old_maps@),
        decreases pairs.len() - i,
    {
        let path = &pairs[i].0;
        let revision = pairs[i].1;
        assert(pairs@.subrange(0, i + 1).drop_last() =~= pairs@.subrange(0, i as int));
        let fetch = match old_maps.get(path.as_str()) {
            Some(old_revision) => *old_revision < revision,
            None => true,
        };
        if fetch {
            let ghost before = r@;
            r.push(path.clone());
            assert(views(r@) =~= views(before).push(path@));
        }
        i = i + 1;
    }
    assert(pairs@.subrange(0, i as int) =~= pairs@);
    r
}

/// A line of a patch's list of deleted files without its NUL and carriage-return
/// characters.
pub open spec fn cleaned_line(s: Seq<char>) -> Seq<char>
    decreases s.len(),
{
    if s.len() == 0 {
        Seq::empty()
    } else {
        let rest = cleaned_line(s.drop_last());
        if s.last() == '\0' || s.last() == '\r' {
            rest
        } else {
            rest.push(s.last())
        }
    }
}

/// The files a patch deletes, relative to the bot pack: the lines of its list,
/// cleaned, that are not empty.
pub open spec fn deleted_entries(lines: Seq<Seq<char>>) -> Seq<Seq<char>>
    decreases lines.len(),
{
    if lines.len() == 0 {
        Seq::empty()
    } else {
        let rest = deleted_entries(lines.drop_last());
        let line = cleaned_line(lines.last());
        if line.len() == 0 {
            rest
        } else {
            rest.push(line)
        }
    }
}

fn clean_line(s: &str) -> (r: String)
    ensures
        r@ == cleaned_line(s@),
{
    let mut r = String::new();
    let n = s.unicode_len();
    let mut i: usize = 0;
    while i < n
        invariant
            i <= n,
            n == s@.len(),
            r@ == cleaned_line(s@.subrange(0, i as int)),
        decreases n - i,
    {
        let c = s.get_char(i);
        assert(s@.subrange(0, i + 1).drop_last() =~= s@.subrange(0, i as int));
        if c != '\0' && c != '\r' {
            crate::text::push_char(&mut r, c);
        }
        i = i + 1;
    }
    assert(s@.subrange(0, n as int) =~= s@);
    r
}

/// The files a patch deletes, from the lines of its list of deleted files.
pub fn deleted_files(lines: &Vec<String>) -> (r: Vec<String>)
    ensures
        views(r@) == deleted_entries(views(lines@)),
{
    let mut r: Vec<String> = Vec::new();
    let mut i: usize = 0;
    while i < lines.len()
        invariant
            i <= lines@.len(),
            views(r@) == deleted_entries(views(lines@).subrange(0, i as int)),
        decreases lines.len() - i,
    {
        let ghost next = views(lines@).subrange(0, i + 1);
        assert(next.drop_last() =~= views(lines@).subrange(0, i as int));
        assert(next.last() == lines@[i as int]@);
        let line = clean_line(lines[i].as_str());
        if line.unicode_len() > 0 {
            let ghost before = r@;
            r.push(line);
            assert(views(r@) =~= views(before).push(cleaned_line(lines@[i as int]@)));
        }
        i = i + 1;
    }
    assert(views(lines@).subrange(0, lines@.len() as int) =~= views(lines@));
    r
}

/// The revision a map-pack release tag such as `v12` names: the tag without its
/// first character, read as a number. The tag starts with an ASCII character, as
/// cutting it at its first byte requires.
pub fn release_revision(tag: &str) -> (r: Option<u64>)
    requires
        tag@.len() > 0,
        (tag@[0] as u32) < 128,
    ensures
        match parse_unsigned(tag@.drop_first(), u64::MAX as nat) {
            Some(v) => r == Some(v as u64),
            None => r is None,
        },
{
    let n = tag.unicode_len();
    let rest = tag.substring_char(1, n);
    assert(rest@ =~= tag@.drop_first());
    parse_decimal(rest, u64::MAX)
}

} // verus!
