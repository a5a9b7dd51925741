//! The query map: parameter names of the upstream API with their encoded
//! values, each name at most once.

use vstd::prelude::*;

verus! {

/// A key of the query map with its value, both as text.
pub type Pair = (Seq<char>, Seq<char>);

/// The views of a list of pairs of strings, pair by pair.
pub open spec fn pairs_of(entries: Seq<(String, String)>) -> Seq<Pair> {
    Seq::new(entries.len(), |i: int| (entries[i].0@, entries[i].1@))
}

/// The map that results from inserting the pairs in order, a later pair
/// replacing an earlier one with the same key.
pub open spec fn map_of(pairs: Seq<Pair>) -> Map<Seq<char>, Seq<char>>
    decreases pairs.len(),
{
    if pairs.len() == 0 {
        Map::empty()
    } else {
        map_of(pairs.drop_last()).insert(pairs.last().0, pairs.last().1)
    }
}

/// No key occurs at two positions.
pub open spec fn distinct_keys(pairs: Seq<Pair>) -> bool {
    forall|i: int, j: int| 0 <= i < j < pairs.len() ==> pairs[i].0 != pairs[j].0
}

/// Some position of `pairs` holds `key`.
pub open spec fn has_key(pairs: Seq<Pair>, key: Seq<char>) -> bool {
    exists|i: int| 0 <= i < pairs.len() && #[trigger] pairs[i].0 == key
}

/// The pairs after `key` is set to `value`: a key that is present keeps its
/// place and gets the new value, a new key goes to the end.
pub open spec fn put(pairs: Seq<Pair>, key: Seq<char>, value: Seq<char>) -> Seq<Pair> {
    if has_key(pairs, key) {
        pairs.update(
            choose|i: int| 0 <= i < pairs.len() && #[trigger] pairs[i].0 == key,
            (key, value),
        )
    } else {
        pairs.push((key, value))
    }
}

/// The keys of `map_of(pairs)` are the keys that occur in `pairs`, and
/// there are finitely many.
pub proof fn lemma_map_of_keys(pairs: Seq<Pair>)
    ensures
        map_of(pairs).dom().finite(),
        forall|key: Seq<char>| map_of(pairs).contains_key(key) <==> has_key(pairs, key),
    decreases pairs.len(),
{
    if pairs.len() > 0 {
        let front = pairs.drop_last();
        lemma_map_of_keys(front);
        assert forall|key: Seq<char>| map_of(pairs).contains_key(key) <==> has_key(
            pairs,
            key,
        ) by {
            if has_key(pairs, key) {
                let i = choose|i: int| 0 <= i < pairs.len() && #[trigger] pairs[i].0 == key;
                if i < front.len() {
                    assert(front[i].0 == key);
                    assert(has_key(front, key));
                    assert(map_of(front).contains_key(key));
                }
            }
            if map_of(pairs).contains_key(key) {
                if key == pairs.last().0 {
                    assert(pairs[pairs.len() - 1].0 == key);
                } else {
                    assert(map_of(front).contains_key(key));
                    assert(has_key(front, key));
                    let i = choose|i: int| 0 <= i < front.len() && #[trigger] front[i].0 == key;
                    assert(pairs[i].0 == key);
                }
            }
        }
    }
}

/// With distinct keys every pair is an entry of the map, and the map has as
/// many entries as there are pairs.
pub proof fn lemma_map_of_distinct(pairs: Seq<Pair>)
    requires
        distinct_keys(pairs),
    ensures
        map_of(pairs).len() == pairs.len(),
        forall|i: int|
            0 <= i < pairs.len() ==> map_of(pairs).contains_key(#[trigger] pairs[i].0) && map_of(
                pairs,
            )[pairs[i].0] == pairs[i].1,
    decreases pairs.len(),
{
    if pairs.len() > 0 {
        let front = pairs.drop_last();
        let last = pairs.last();
        assert(distinct_keys(front)) by {
            assert forall|i: int, j: int| 0 <= i < j < front.len() implies front[i].0
                != front[j].0 by {
                assert(pairs[i].0 != pairs[j].0);
            }
        }
        lemma_map_of_distinct(front);
        lemma_map_of_keys(front);
        assert(!map_of(front).contains_key(last.0)) by {
            if has_key(front, last.0) {
                let i = choose|i: int| 0 <= i < front.len() && #[trigger] front[i].0 == last.0;
                assert(pairs[i].0 != pairs[pairs.len() - 1].0);
            }
        }
        assert forall|i: int| 0 <= i < pairs.len() implies map_of(pairs).contains_key(
            #[trigger] pairs[i].0,
        ) && map_of(pairs)[pairs[i].0] == pairs[i].1 by {
            if i < front.len() {
                assert(front[i].0 == pairs[i].0);
                assert(pairs[i].0 != pairs[pairs.len() - 1].0);
            }
        }
    }
}

/// A pair added at the end sets its key in the map.
pub proof fn lemma_map_of_push(pairs: Seq<Pair>, pair: Pair)
    ensures
        map_of(pairs.push(pair)) == map_of(pairs).insert(pair.0, pair.1),
{
    assert(pairs.push(pair).drop_last() == pairs);
}

/// Replacing the value at the one position that holds a key gives the map
/// with that key set to the new value.
pub proof fn lemma_map_of_update(pairs: Seq<Pair>, at: int, value: Seq<char>)
    requires
        distinct_keys(pairs),
        0 <= at < pairs.len(),
    ensures
        distinct_keys(pairs.update(at, (pairs[at].0, value))),
        map_of(pairs.update(at, (pairs[at].0, value))) == map_of(pairs).insert(
            pairs[at].0,
            value,
        ),
    decreases pairs.len(),
{
    let key = pairs[at].0;
    let changed = pairs.update(at, (key, value));
    assert(distinct_keys(changed)) by {
        assert forall|i: int, j: int| 0 <= i < j < changed.len() implies changed[i].0
            != changed[j].0 by {
            assert(pairs[i].0 != pairs[j].0);
        }
    }
    let front = pairs.drop_last();
    if at == pairs.len() - 1 {
        assert(changed.drop_last() == front);
        assert(map_of(changed) == map_of(pairs).insert(key, value));
    } else {
        assert(distinct_keys(front)) by {
            assert forall|i: int, j: int| 0 <= i < j < front.len() implies front[i].0
                != front[j].0 by {
                assert(pairs[i].0 != pairs[j].0);
            }
        }
        lemma_map_of_update(front, at, value);
        assert(changed.drop_last() == front.update(at, (key, value)));
        assert(changed.last() == pairs.last());
        assert(pairs[at].0 != pairs[pairs.len() - 1].0);
        assert(map_of(changed) == map_of(pairs).insert(key, value));
    }
}

/// Setting a key in pairs with distinct keys keeps the keys distinct and
/// sets the key in the map.
pub proof fn lemma_put(pairs: Seq<Pair>, key: Seq<char>, value: Seq<char>)
    requires
        distinct_keys(pairs),
    ensures
        distinct_keys(put(pairs, key, value)),
        map_of(put(pairs, key, value)) == map_of(pairs).insert(key, value),
        !has_key(pairs, key) ==> put(pairs, key, value) == pairs.push((key, value)),
{
    if has_key(pairs, key) {
        let at = choose|i: int| 0 <= i < pairs.len() && #[trigger] pairs[i].0 == key;
        lemma_map_of_update(pairs, at, value);
    } else {
        let after = pairs.push((key, value));
        lemma_map_of_push(pairs, (key, value));
        assert forall|i: int, j: int| 0 <= i < j < after.len() implies after[i].0
            != after[j].0 by {
            if j < pairs.len() {
                assert(pairs[i].0 != pairs[j].0);
            } else {
                assert(pairs[i].0 != key);
            }
        }
    }
}

/// The parameters of one request: names of the upstream API with their
/// encoded values. A name occurs at most once; the entries keep the order in
/// which their names were first inserted.
#[derive(Debug)]
pub struct QueryMap {
    entries: Vec<(String, String)>,
}

impl View for QueryMap {
    type V = Map<Seq<char>, Seq<char>>;

    open spec fn view(&self) -> Map<Seq<char>, Seq<char>> {
        map_of(self.pairs())
    }
}

impl QueryMap {
    #[verifier::type_invariant]
    spec fn distinct(&self) -> bool {
        distinct_keys(pairs_of(self.entries@))
    }

    /// The entries in order, as text.
    pub closed spec fn pairs(&self) -> Seq<Pair> {
        pairs_of(self.entries@)
    }

    /// The empty map.
    pub fn new() -> (query: Self)
        ensures
            query@ == Map::<Seq<char>, Seq<char>>::empty(),
            query.pairs() == Seq::<Pair>::empty(),
    {
        let query = QueryMap { entries: Vec::new() };
        assert(pairs_of(query.entries@) == Seq::<Pair>::empty());
        query
    }

    fn position(&self, key: &String) -> (found: Option<usize>)
        ensures
            match found {
                Some(at) => at < self.pairs().len() && self.pairs()[at as int].0 == key@,
                None => !has_key(self.pairs(), key@),
            },
    {
        let mut i: usize = 0;
        while i < self.entries.len()
            invariant
                i <= self.entries.len(),
                forall|j: int| 0 <= j < i ==> self.pairs()[j].0 != key@,
            decreases self.entries.len() - i,
        {
            if self.entries[i].0 == *key {
                return Some(i);
            }
            i = i + 1;
        }
        None
    }

    /// Sets `key` to `value`. A key that is present keeps its place and gets
    /// the new value; a new key goes to the end.
    pub fn insert(&mut self, key: String, value: String)
        ensures
            final(self)@ == old(self)@.insert(key@, value@),
            final(self).pairs() == put(old(self).pairs(), key@, value@),
    {
        proof {
            use_type_invariant(&*self);
            lemma_put(self.pairs(), key@, value@);
        }
        let ghost before = self.pairs();
        let found = self.position(&key);
        let mut taken = QueryMap { entries: Vec::new() };
        core::mem::swap(self, &mut taken);
        let mut entries = taken.entries;
        match found {
            Some(at) => {
                assert(has_key(before, key@));
                proof {
                    let chosen = choose|i: int|
                        0 <= i < before.len() && #[trigger] before[i].0 == key@;
                    if chosen < at {
                        assert(before[chosen].0 != before[at as int].0);
                    } else if at < chosen {
                        assert(before[at as int].0 != before[chosen].0);
                    }
                }
                entries.set(at, (key, value));
            },
            None => {
                entries.push((key, value));
            },
        }
        assert(pairs_of(entries@) == put(before, key@, value@));
        *self = QueryMap { entries };
    }

    /// The number of entries.
    pub fn len(&self) -> (count: usize)
        ensures
            count == self@.len(),
            count == self.pairs().len(),
    {
        proof {
            use_type_invariant(self);
            lemma_map_of_distinct(self.pairs());
        }
        self.entries.len()
    }

    /// Whether `key` has a value.
    pub fn contains_key(&self, key: &str) -> (present: bool)
        ensures
            present == self@.contains_key(key@),
    {
        proof {
            lemma_map_of_keys(self.pairs());
        }
        let owned = key.to_owned();
        match self.position(&owned) {
            Some(at) => {
                assert(has_key(self.pairs(), key@));
                true
            },
            None => false,
        }
    }

    /// The value of `key`, if it has one.
    pub fn get(&self, key: &str) -> (value: Option<&String>)
        ensures
            match value {
                Some(text) => self@.contains_key(key@) && text@ == self@[key@],
                None => !self@.contains_key(key@),
            },
    {
        proof {
            use_type_invariant(self);
            lemma_map_of_keys(self.pairs());
            lemma_map_of_distinct(self.pairs());
        }
        let owned = key.to_owned();
        match self.position(&owned) {
            Some(at) => {
                assert(has_key(self.pairs(), key@));
                assert(self.pairs()[at as int].1 == self.entries@[at as int].1@);
                Some(&self.entries[at].1)
            },
            None => None,
        }
    }

    /// The entries in order, for a transport to attach to a request.
    pub fn entries(&self) -> (entries: &Vec<(String, String)>)
        ensures
            pairs_of(entries@) == self.pairs(),
    {
        &self.entries
    }
    /// Gives up the map for its entries, in order.
    pub fn into_entries(self) -> (entries: Vec<(String, String)>)
        ensures
            pairs_of(entries@) == self.pairs(),
    {
        self.entries
    }
}

} // verus!
