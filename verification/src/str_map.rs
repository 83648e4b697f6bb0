//! A map keyed by strings, kept as a vector of entries whose keys are distinct.
//! It stands where the GUI's saved state keeps a `HashMap<String, _>`.

use vstd::prelude::*;
use crate::text::str_eq;

verus! {

/// String-keyed map with distinct keys, in insertion order.
pub struct StrMap<V> {
    entries: Vec<(String, V)>,
}

/// No key occurs twice in `s`.
pub open spec fn distinct_keys<V>(s: Seq<(String, V)>) -> bool {
    forall|i: int, j: int| 0 <= i < j < s.len() ==> s[i].0@ != s[j].0@
}

/// `k` is the key of some pair of `s`.
pub open spec fn seq_has_key<V>(s: Seq<(String, V)>, k: Seq<char>) -> bool {
    exists|i: int| 0 <= i < s.len() && #[trigger] s[i].0@ == k
}

/// The map that a list of pairs with distinct keys describes.
pub open spec fn pairs_map<V>(s: Seq<(String, V)>) -> Map<Seq<char>, V> {
    Map::new(
        |k: Seq<char>| seq_has_key(s, k),
        |k: Seq<char>| s[choose|i: int| 0 <= i < s.len() && #[trigger] s[i].0@ == k].1,
    )
}

/// In a list with distinct keys, the `i`-th pair is what the map holds under its key.
pub proof fn lemma_pairs_map_index<V>(s: Seq<(String, V)>, i: int)
    requires
        distinct_keys(s),
        0 <= i < s.len(),
    ensures
        pairs_map(s).contains_key(s[i].0@),
        pairs_map(s)[s[i].0@] == s[i].1,
{
    let k = s[i].0@;
    assert(seq_has_key(s, k));
    let j = choose|j: int| 0 <= j < s.len() && #[trigger] s[j].0@ == k;
    if j < i {
        assert(s[j].0@ != s[i].0@);
    } else if i < j {
        assert(s[i].0@ != s[j].0@);
    }
}

/// The keys of a list of pairs, in order.
pub open spec fn key_seq<V>(s: Seq<(String, V)>) -> Seq<Seq<char>> {
    s.map_values(|p: (String, V)| p.0@)
}

/// A list of pairs with distinct keys describes a finite map with one entry per pair.
pub proof fn lemma_pairs_map_finite<V>(s: Seq<(String, V)>)
    requires
        distinct_keys(s),
    ensures
        pairs_map(s).dom().finite(),
        pairs_map(s).len() == s.len(),
{
    broadcast use vstd::seq_lib::seq_to_set_is_finite;
    let ks = key_seq(s);
    assert forall|k: Seq<char>| #[trigger] pairs_map(s).dom().contains(k) <==> ks.to_set().contains(k) by {
        if seq_has_key(s, k) {
            let i = choose|i: int| 0 <= i < s.len() && #[trigger] s[i].0@ == k;
            assert(ks[i] == k);
        }
        if ks.contains(k) {
            let i = choose|i: int| 0 <= i < ks.len() && ks[i] == k;
            assert(s[i].0@ == k);
        }
    }
    assert(pairs_map(s).dom() =~= ks.to_set());
    assert forall|i: int, j: int| 0 <= i < ks.len() && 0 <= j < ks.len() && i != j implies ks[i] != ks[j] by {
        if i < j {
            assert(s[i].0@ != s[j].0@);
        } else {
            assert(s[j].0@ != s[i].0@);
        }
    }
    assert(ks.no_duplicates());
    ks.unique_seq_to_set();
}

/// Replacing the value of an existing key, or appending a pair with a new key,
/// keeps the keys distinct and inserts into the described map.
proof fn lemma_pairs_map_store<V>(s: Seq<(String, V)>, t: Seq<(String, V)>, k: String, v: V, i: int)
    requires
        distinct_keys(s),
        0 <= i <= s.len(),
        i < s.len() ==> s[i].0@ == k@ && t == s.update(i, (k, v)),
        i == s.len() ==> !seq_has_key(s, k@) && t == s.push((k, v)),
    ensures
        distinct_keys(t),
        pairs_map(t) == pairs_map(s).insert(k@, v),
{
    let kv = k@;
    assert forall|a: int, b: int| 0 <= a < b < t.len() implies t[a].0@ != t[b].0@ by {
        if b == s.len() {
            if s[a].0@ == kv {
                assert(seq_has_key(s, kv));
            }
        } else {
            assert(s[a].0@ != s[b].0@);
        }
    }
    assert forall|key: Seq<char>| #[trigger] seq_has_key(t, key) <==> seq_has_key(s, key) || key == kv by {
        if seq_has_key(s, key) {
            let j = choose|j: int| 0 <= j < s.len() && #[trigger] s[j].0@ == key;
            assert(t[j].0@ == key);
        }
        if seq_has_key(t, key) {
            let j = choose|j: int| 0 <= j < t.len() && #[trigger] t[j].0@ == key;
            if j != i {
                assert(s[j].0@ == key);
            }
        }
        if key == kv {
            assert(t[i].0@ == key);
        }
    }
    assert forall|key: Seq<char>| #[trigger] pairs_map(t).contains_key(key) implies pairs_map(t)[key]
        == pairs_map(s).insert(kv, v)[key] by {
        if key == kv {
            lemma_pairs_map_index(t, i);
        } else {
            let j = choose|j: int| 0 <= j < t.len() && #[trigger] t[j].0@ == key;
            lemma_pairs_map_index(t, j);
            lemma_pairs_map_index(s, j);
        }
    }
    assert(pairs_map(t) =~= pairs_map(s).insert(kv, v));
}

impl<V> StrMap<V> {
    #[verifier::type_invariant]
    closed spec fn inv(self) -> bool {
        distinct_keys(self.entries@)
    }

    /// The entries of the map, in insertion order.
    pub closed spec fn entry_seq(self) -> Seq<(String, V)> {
        self.entries@
    }

    /// The empty map.
    pub fn new() -> (r: Self)
        ensures
            r@ == Map::<Seq<char>, V>::empty(),
            r.entry_seq().len() == 0,
    {
        let r = StrMap { entries: Vec::new() };
        assert(pairs_map(r.entries@) =~= Map::<Seq<char>, V>::empty());
        r
    }

    /// The position of the entry whose key is `k`, if any.
    pub fn position(&self, k: &str) -> (r: Option<usize>)
        ensures
            r is None <==> !self@.contains_key(k@),
            r matches Some(i) ==> i < self.entry_seq().len() && self.entry_seq()[i as int].0@ == k@,
    {
        proof { use_type_invariant(self); }
        let mut i: usize = 0;
        while i < self.entries.len()
            invariant
                distinct_keys(self.entries@),
                i <= self.entries@.len(),
                forall|j: int| 0 <= j < i ==> #[trigger] self.entries@[j].0@ != k@,
            decreases self.entries.len() - i,
        {
            if str_eq(self.entries[i].0.as_str(), k) {
                proof { lemma_pairs_map_index(self.entries@, i as int); }
                return Some(i);
            }
            i = i + 1;
        }
        assert(!seq_has_key(self.entries@, k@));
        None
    }

    /// The value stored under `k`, if any.
    pub fn get(&self, k: &str) -> (r: Option<&V>)
        ensures
            r is None <==> !self@.contains_key(k@),
            r matches Some(v) ==> *v == self@[k@],
            self@.dom().finite(),
            self@.len() == self.entry_seq().len(),
    {
        proof {
            use_type_invariant(self);
            lemma_pairs_map_finite(self.entries@);
        }
        match self.position(k) {
            Some(i) => {
                proof { lemma_pairs_map_index(self.entries@, i as int); }
                Some(&self.entries[i].1)
            },
            None => None,
        }
    }

    /// Whether some entry has the key `k`.
    pub fn contains_key(&self, k: &str) -> (r: bool)
        ensures
            r == self@.contains_key(k@),
            self@.dom().finite(),
            self@.len() == self.entry_seq().len(),
    {
        proof {
            use_type_invariant(self);
            lemma_pairs_map_finite(self.entries@);
        }
        self.position(k).is_some()
    }

    /// Stores `v` under `k`, replacing any earlier value.
    pub fn insert(&mut self, k: String, v: V)
        ensures
            final(self)@ == old(self)@.insert(k@, v),
            old(self)@.dom().finite(),
            final(self)@.dom().finite(),
    {
        proof {
            use_type_invariant(&*self);
            lemma_pairs_map_finite(self.entries@);
        }
        let ghost s = self.entries@;
        let ghost kk = k;
        let ghost vv = v;
        let pos = self.position(k.as_str());
        let mut entries: Vec<(String, V)> = Vec::new();
        std::mem::swap(&mut entries, &mut self.entries);
        match pos {
            Some(i) => {
                entries.set(i, (k, v));
                proof { lemma_pairs_map_store(s, entries@, kk, vv, i as int); }
            },
            None => {
                entries.push((k, v));
                proof { lemma_pairs_map_store(s, entries@, kk, vv, s.len() as int); }
            },
        }
        self.entries = entries;
    }

    /// The entries, in insertion order; each is what the map holds under its key.
    pub fn pairs(&self) -> (r: &Vec<(String, V)>)
        ensures
            r@ == self.entry_seq(),
            distinct_keys(r@),
            pairs_map(r@) == self@,
    {
        proof { use_type_invariant(self); }
        &self.entries
    }

    /// The number of entries, which is the number of keys of the map.
    pub fn len(&self) -> (r: usize)
        ensures
            r == self.entry_seq().len(),
            r == self@.len(),
            self@.dom().finite(),
    {
        proof {
            use_type_invariant(self);
            lemma_pairs_map_finite(self.entries@);
        }
        self.entries.len()
    }
}

/// The map obtained by inserting the pairs of `s` in order, later pairs winning.
pub open spec fn map_of_pairs<V>(s: Seq<(String, V)>) -> Map<Seq<char>, V>
    decreases s.len(),
{
    if s.len() == 0 {
        Map::empty()
    } else {
        map_of_pairs(s.drop_last()).insert(s.last().0@, s.last().1)
    }
}

impl<V> StrMap<V> {
    /// Builds the map from a list of pairs; of two pairs with one key, the later one stays.
    pub fn from_pairs(pairs: Vec<(String, V)>) -> (r: Self)
        ensures
            r@ == map_of_pairs(pairs@),
    {
        let ghost orig = pairs@;
        let ghost total = pairs.len();
        let mut rest = pairs;
        let mut r = StrMap::new();
        let mut taken: usize = 0;
        while rest.len() > 0
            invariant
                taken <= orig.len(),
                orig.len() == total,
                total <= usize::MAX,
                rest@ == orig.subrange(taken as int, orig.len() as int),
                r@ == map_of_pairs(orig.subrange(0, taken as int)),
            decreases rest.len(),
        {
            let (k, v) = rest.remove(0);
            proof {
                assert(orig.subrange(0, taken + 1).drop_last() =~= orig.subrange(0, taken as int));
            }
            r.insert(k, v);
            taken = taken + 1;
            assert(rest@ =~= orig.subrange(taken as int, orig.len() as int));
        }
        assert(orig.subrange(0, taken as int) =~= orig);
        r
    }
}

impl<V> View for StrMap<V> {
    type V = Map<Seq<char>, V>;

    closed spec fn view(&self) -> Map<Seq<char>, V> {
        pairs_map(self.entries@)
    }
}

} // verus!
