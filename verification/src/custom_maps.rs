//! Custom maps: which bot folders are searched for them, and which files count.

use vstd::prelude::*;
use crate::match_settings_config_parser::MapType;
use crate::settings::BotFolder;
use crate::str_map::{distinct_keys, lemma_pairs_map_index, pairs_map, seq_has_key, StrMap};
use crate::text::{str_starts_with, views};

verus! {

/// The paths of the shown folders among `folders`, in order.
pub open spec fn shown_paths(folders: Seq<(String, BotFolder)>) -> Seq<Seq<char>>
    decreases folders.len(),
{
    if folders.len() == 0 {
        Seq::empty()
    } else if folders.last().1.visible {
        shown_paths(folders.drop_last()).push(folders.last().0@)
    } else {
        shown_paths(folders.drop_last())
    }
}

/// A path is among the shown paths of a list of entries exactly when the map the
/// list describes holds it as shown.
pub proof fn lemma_shown_paths_are_the_visible_entries(s: Seq<(String, BotFolder)>, k: Seq<char>)
    requires
        distinct_keys(s),
    ensures
        shown_paths(s).contains(k) <==> (pairs_map(s).contains_key(k) && pairs_map(s)[k].visible),
    decreases s.len(),
{
    if s.len() > 0 {
        let t = s.drop_last();
        let vt = shown_paths(t);
        let x = s.last().0@;
        assert(distinct_keys(t));
        lemma_shown_paths_are_the_visible_entries(t, k);
        lemma_pairs_map_index(s, s.len() - 1);
        assert(s[s.len() - 1].0@ == x);
        if vt.contains(k) {
            let j = choose|j: int| 0 <= j < vt.len() && vt[j] == k;
            if s.last().1.visible {
                assert(shown_paths(s)[j] == k);
            }
        }
        if s.last().1.visible && shown_paths(s).contains(k) && k != x {
            let j = choose|j: int| 0 <= j < shown_paths(s).len() && shown_paths(s)[j] == k;
            assert(j < vt.len());
            assert(vt[j] == k);
        }
        if k == x {
            if seq_has_key(t, k) {
                let i = choose|i: int| 0 <= i < t.len() && #[trigger] t[i].0@ == k;
                assert(s[i].0@ == s[s.len() - 1].0@);
            }
            assert(!pairs_map(t).contains_key(k));
            if s.last().1.visible {
                assert(shown_paths(s)[shown_paths(s).len() - 1] == k);
            }
        } else {
            if seq_has_key(s, k) {
                let i = choose|i: int| 0 <= i < s.len() && #[trigger] s[i].0@ == k;
                assert(i < t.len());
                assert(t[i].0@ == k);
                lemma_pairs_map_index(t, i);
                lemma_pairs_map_index(s, i);
            }
            if seq_has_key(t, k) {
                let i = choose|i: int| 0 <= i < t.len() && #[trigger] t[i].0@ == k;
                assert(s[i].0@ == k);
            }
        }
    }
}

/// The bot folders that are shown, which are the ones searched.
pub fn get_search_folders(bf: &StrMap<BotFolder>) -> (r: Vec<String>)
    ensures
        views(r@) == shown_paths(bf.entry_seq()),
{
    let pairs = bf.pairs();
    let mut r: Vec<String> = Vec::new();
    let mut i: usize = 0;
    while i < pairs.len()
        invariant
            i <= pairs@.len(),
            pairs@ == bf.entry_seq(),
            views(r@) == shown_paths(pairs@.subrange(0, i as int)),
        decreases pairs.len() - i,
    {
        assert(pairs@.subrange(0, i + 1).drop_last() =~= pairs@.subrange(0, i as int));
        if pairs[i].1.visible {
            let ghost before = r@;
            r.push(pairs[i].0.clone());
            assert(views(r@) =~= views(before).push(pairs@[i as int].0@));
        }
        i = i + 1;
    }
    assert(pairs@.subrange(0, i as int) =~= pairs@);
    r
}

/// The custom map a map file stands for, by its file name: none for a name
/// starting with `_`.
pub fn custom_map_named(basename: &str) -> (r: Option<MapType>)
    ensures
        "_"@.is_prefix_of(basename@) ==> r is None,
        !"_"@.is_prefix_of(basename@) ==> (r matches Some(MapType::Custom(c)) && c@ == basename@),
{
    if str_starts_with(basename, "_") {
        None
    } else {
        Some(MapType::Custom(basename.to_owned()))
    }
}

} // verus!
