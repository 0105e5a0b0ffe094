//! A small map from strings to strings.
//!
//! User attributes, and the properties and tags of a conversion, are a handful
//! of pairs. They are kept in the order in which their keys first came, and no
//! key occurs twice.

use crate::search::{first_index, first_index_from, lemma_first_index_found};
use crate::text::str_eq;
use vstd::prelude::*;
use vstd::string::*;

verus! {

/// A list of pairs, each as a value.
pub open spec fn pair_views(entries: Seq<(String, String)>) -> Seq<(Seq<char>, Seq<char>)> {
    entries.map_values(|e: (String, String)| (e.0@, e.1@))
}

/// No key occurs in two pairs.
pub open spec fn distinct_keys(pairs: Seq<(Seq<char>, Seq<char>)>) -> bool {
    forall|i: int, j: int|
        0 <= i < j < pairs.len() ==> (#[trigger] pairs[i]).0 != (#[trigger] pairs[j]).0
}

/// The map that a list of pairs stands for. Where a key occurs twice, the
/// later pair counts.
pub open spec fn map_of(pairs: Seq<(Seq<char>, Seq<char>)>) -> Map<Seq<char>, Seq<char>>
    decreases pairs.len(),
{
    if pairs.len() == 0 {
        Map::empty()
    } else {
        map_of(pairs.drop_last()).insert(pairs.last().0, pairs.last().1)
    }
}

/// The condition "the pair has this key".
pub open spec fn pair_has_key(key: Seq<char>) -> spec_fn((Seq<char>, Seq<char>)) -> bool {
    |pair: (Seq<char>, Seq<char>)| pair.0 == key
}

/// The pairs once `key` has the value `value`: the pair of the key keeps its
/// place and gets the value, or else a new pair comes at the end.
pub open spec fn with_pair(pairs: Seq<(Seq<char>, Seq<char>)>, key: Seq<char>, value: Seq<char>)
    -> Seq<(Seq<char>, Seq<char>)> {
    match first_index(pairs, pair_has_key(key)) {
        Some(i) => pairs.update(i, (key, value)),
        None => pairs.push((key, value)),
    }
}

/// The keys of the map are the keys of the pairs.
pub proof fn lemma_map_of_dom(pairs: Seq<(Seq<char>, Seq<char>)>, key: Seq<char>)
    ensures
        map_of(pairs).contains_key(key) <==> exists|i: int|
            0 <= i < pairs.len() && (#[trigger] pairs[i]).0 == key,
    decreases pairs.len(),
{
    if pairs.len() > 0 {
        let front = pairs.drop_last();
        lemma_map_of_dom(front, key);
        if map_of(front).contains_key(key) {
            let i = choose|i: int| 0 <= i < front.len() && (#[trigger] front[i]).0 == key;
            assert(pairs[i].0 == key);
        }
        if exists|i: int| 0 <= i < pairs.len() && (#[trigger] pairs[i]).0 == key {
            let i = choose|i: int| 0 <= i < pairs.len() && (#[trigger] pairs[i]).0 == key;
            if i < pairs.len() - 1 {
                assert(front[i].0 == key);
            }
        }
    }
}

/// Where no key occurs twice, each pair gives the value of its key.
pub proof fn lemma_map_of_value(pairs: Seq<(Seq<char>, Seq<char>)>, at: int)
    requires
        distinct_keys(pairs),
        0 <= at < pairs.len(),
    ensures
        map_of(pairs).contains_key(pairs[at].0),
        map_of(pairs)[pairs[at].0] == pairs[at].1,
    decreases pairs.len(),
{
    if at < pairs.len() - 1 {
        lemma_map_of_value(pairs.drop_last(), at);
        assert(pairs[at].0 != pairs.last().0);
    }
}

/// Where no key occurs twice, the map has as many keys as there are pairs.
pub proof fn lemma_map_of_len(pairs: Seq<(Seq<char>, Seq<char>)>)
    requires
        distinct_keys(pairs),
    ensures
        map_of(pairs).dom().finite(),
        map_of(pairs).len() == pairs.len(),
    decreases pairs.len(),
{
    if pairs.len() > 0 {
        let front = pairs.drop_last();
        lemma_map_of_len(front);
        lemma_map_of_dom(front, pairs.last().0);
        if map_of(front).contains_key(pairs.last().0) {
            let key = pairs.last().0;
            let i = choose|i: int| 0 <= i < front.len() && (#[trigger] front[i]).0 == key;
            assert(pairs[i].0 != pairs[pairs.len() - 1].0);
        }
    }
}

/// Where no key occurs twice, a new value in one pair is a new value for its
/// key in the map.
pub proof fn lemma_map_of_update(pairs: Seq<(Seq<char>, Seq<char>)>, at: int, value: Seq<char>)
    requires
        distinct_keys(pairs),
        0 <= at < pairs.len(),
    ensures
        map_of(pairs.update(at, (pairs[at].0, value))) == map_of(pairs).insert(pairs[at].0, value),
        distinct_keys(pairs.update(at, (pairs[at].0, value))),
    decreases pairs.len(),
{
    let key = pairs[at].0;
    let changed = pairs.update(at, (key, value));
    let front = pairs.drop_last();
    if at == pairs.len() - 1 {
        assert(changed.drop_last() == front);
    } else {
        lemma_map_of_update(front, at, value);
        assert(changed.drop_last() == front.update(at, (key, value)));
        assert(key != pairs.last().0);
    }
}

/// A map from strings to strings.
#[derive(Debug)]
pub struct StringMap {
    entries: Vec<(String, String)>,
}

impl View for StringMap {
    type V = Map<Seq<char>, Seq<char>>;

    closed spec fn view(&self) -> Map<Seq<char>, Seq<char>> {
        map_of(self.pairs())
    }
}

impl Clone for StringMap {
    fn clone(&self) -> (copy: Self)
        ensures
            copy.pairs() == self.pairs(),
            copy@ == self@,
    {
        proof {
            use_type_invariant(self);
        }
        let mut entries: Vec<(String, String)> = Vec::new();
        let mut i: usize = 0;
        while i < self.entries.len()
            invariant
                i <= self.entries.len(),
                pair_views(entries@) == pair_views(self.entries@).subrange(0, i as int),
            decreases self.entries.len() - i,
        {
            let key = self.entries[i].0.clone();
            let value = self.entries[i].1.clone();
            let ghost copied = pair_views(entries@);
            entries.push((key, value));
            assert(pair_views(entries@) == copied.push((key@, value@)));
            i += 1;
        }
        assert(pair_views(entries@) == pair_views(self.entries@));
        StringMap { entries }
    }
}

impl StringMap {
    #[verifier::type_invariant]
    spec fn no_key_twice(self) -> bool {
        distinct_keys(self.pairs())
    }

    /// The pairs of the map, in the order in which their keys first came.
    pub closed spec fn pairs(&self) -> Seq<(Seq<char>, Seq<char>)> {
        pair_views(self.entries@)
    }

    /// The empty map.
    pub fn new() -> (map: StringMap)
        ensures
            map.pairs() == Seq::<(Seq<char>, Seq<char>)>::empty(),
            map@ == Map::<Seq<char>, Seq<char>>::empty(),
    {
        StringMap { entries: Vec::new() }
    }

    /// The number of keys.
    pub fn len(&self) -> (n: usize)
        ensures
            self@.dom().finite(),
            n == self@.len(),
            n == self.pairs().len(),
    {
        proof {
            use_type_invariant(self);
            lemma_map_of_len(self.pairs());
        }
        self.entries.len()
    }

    /// Whether the map has no key.
    pub fn is_empty(&self) -> (empty: bool)
        ensures
            empty == (self@ == Map::<Seq<char>, Seq<char>>::empty()),
    {
        proof {
            use_type_invariant(self);
            lemma_map_of_len(self.pairs());
        }
        self.entries.len() == 0
    }

    /// The pairs of the map, in the order in which their keys first came. No
    /// key occurs in two of them.
    pub fn entries(&self) -> (entries: &Vec<(String, String)>)
        ensures
            pair_views(entries@) == self.pairs(),
            map_of(pair_views(entries@)) == self@,
            distinct_keys(pair_views(entries@)),
    {
        proof {
            use_type_invariant(self);
        }
        &self.entries
    }

    /// The position of the pair with the given key.
    fn position(&self, key: &str) -> (position: Option<usize>)
        ensures
            match position {
                Some(i) => first_index(self.pairs(), pair_has_key(key@)) == Some(i as int),
                None => first_index(self.pairs(), pair_has_key(key@)) is None,
            },
    {
        let ghost p = pair_has_key(key@);
        let mut i: usize = 0;
        while i < self.entries.len()
            invariant
                i <= self.entries.len(),
                p == pair_has_key(key@),
                first_index(self.pairs(), p) == first_index_from(self.pairs(), p, i as int),
            decreases self.entries.len() - i,
        {
            if str_eq(self.entries[i].0.as_str(), key) {
                return Some(i);
            }
            i += 1;
        }
        None
    }

    /// The value of a key, if the map has the key.
    pub fn get(&self, key: &str) -> (value: Option<&str>)
        ensures
            match value {
                Some(v) => self@.contains_key(key@) && self@[key@] == v@,
                None => !self@.contains_key(key@),
            },
    {
        proof {
            use_type_invariant(self);
            lemma_map_of_dom(self.pairs(), key@);
            lemma_first_index_found(self.pairs(), pair_has_key(key@), 0);
        }
        match self.position(key) {
            Some(i) => {
                proof {
                    lemma_map_of_value(self.pairs(), i as int);
                }
                Some(self.entries[i].1.as_str())
            },
            None => None,
        }
    }

    /// Whether the map has the key.
    pub fn contains_key(&self, key: &str) -> (found: bool)
        ensures
            found == self@.contains_key(key@),
    {
        self.get(key).is_some()
    }

    /// Gives `key` the value `value`, in place of the value it had, if any.
    /// A key that the map has keeps its place among the pairs. A new key
    /// comes last.
    pub fn insert(&mut self, key: String, value: String)
        ensures
            final(self)@ == old(self)@.insert(key@, value@),
            final(self).pairs() == with_pair(old(self).pairs(), key@, value@),
    {
        proof {
            use_type_invariant(&*self);
            lemma_first_index_found(self.pairs(), pair_has_key(key@), 0);
        }
        let ghost before = self.pairs();
        let position = self.position(key.as_str());
        let mut entries: Vec<(String, String)> = Vec::new();
        core::mem::swap(&mut self.entries, &mut entries);
        match position {
            Some(i) => {
                proof {
                    lemma_map_of_update(before, i as int, value@);
                }
                entries.set(i, (key, value));
                assert(pair_views(entries@) == before.update(i as int, (key@, value@)));
            },
            None => {
                entries.push((key, value));
                assert(pair_views(entries@) == before.push((key@, value@)));
                assert(pair_views(entries@).drop_last() == before);
            },
        }
        self.entries = entries;
    }
}

} // verus!
