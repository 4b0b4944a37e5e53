//! Maps with string keys.

use vstd::prelude::*;

use crate::data::Data;

verus! {

/// The map that a list of key/value pairs describes; of two pairs with one key the later wins.
pub open spec fn pairs_map<W>(pairs: Seq<(Seq<char>, W)>) -> Map<Seq<char>, W>
    decreases pairs.len(),
{
    if pairs.len() == 0 {
        Map::empty()
    } else {
        pairs_map(pairs.drop_last()).insert(pairs.last().0, pairs.last().1)
    }
}

/// Whether no key occurs twice.
pub open spec fn keys_distinct<W>(pairs: Seq<(Seq<char>, W)>) -> bool {
    forall|i: int, j: int| 0 <= i < j < pairs.len() ==> (#[trigger] pairs[i]).0 != (#[trigger] pairs[j]).0
}

/// Whether some pair has this key.
pub open spec fn has_key<W>(pairs: Seq<(Seq<char>, W)>, key: Seq<char>) -> bool {
    exists|i: int| 0 <= i < pairs.len() && (#[trigger] pairs[i]).0 == key
}

/// The keys of the map are those of the pairs.
pub proof fn lemma_pairs_map_keys<W>(pairs: Seq<(Seq<char>, W)>, key: Seq<char>)
    ensures
        pairs_map(pairs).contains_key(key) <==> has_key(pairs, key),
    decreases pairs.len(),
{
    if pairs.len() > 0 {
        let rest = pairs.drop_last();
        lemma_pairs_map_keys(rest, key);
        if has_key(rest, key) {
            let i = choose|i: int| 0 <= i < rest.len() && (#[trigger] rest[i]).0 == key;
            assert(pairs[i].0 == key);
        }
        if has_key(pairs, key) {
            let i = choose|i: int| 0 <= i < pairs.len() && (#[trigger] pairs[i]).0 == key;
            if i < rest.len() {
                assert(rest[i].0 == key);
            }
        }
        assert(pairs[pairs.len() - 1] == pairs.last());
    }
}

/// Where no key occurs twice, the map has every pair's value at its key.
pub proof fn lemma_pairs_map_value<W>(pairs: Seq<(Seq<char>, W)>, i: int)
    requires
        keys_distinct(pairs),
        0 <= i < pairs.len(),
    ensures
        pairs_map(pairs).contains_key(pairs[i].0),
        pairs_map(pairs)[pairs[i].0] == pairs[i].1,
    decreases pairs.len(),
{
    if i < pairs.len() - 1 {
        let rest = pairs.drop_last();
        assert(keys_distinct(rest)) by {
            assert forall|a: int, b: int| 0 <= a < b < rest.len() implies (#[trigger] rest[a]).0 != (#[trigger] rest[b]).0 by {
                assert(rest[a] == pairs[a] && rest[b] == pairs[b]);
            }
        }
        lemma_pairs_map_value(rest, i);
        assert(rest[i] == pairs[i]);
        assert(pairs[pairs.len() - 1].0 != pairs[i].0);
    }
}

/// A prefix of pairs with distinct keys has distinct keys.
pub proof fn lemma_take_distinct<W>(pairs: Seq<(Seq<char>, W)>, i: int)
    requires
        0 <= i <= pairs.len(),
        keys_distinct(pairs),
    ensures
        keys_distinct(pairs.take(i)),
{
    let seen = pairs.take(i);
    assert forall|a: int, b: int| 0 <= a < b < seen.len() implies (#[trigger] seen[a]).0
        != (#[trigger] seen[b]).0 by {
        assert(seen[a] == pairs[a] && seen[b] == pairs[b]);
    }
}

/// Taking one more pair: the map gains it, and the keys stay distinct unless its key was there.
pub proof fn lemma_take_extends<W>(pairs: Seq<(Seq<char>, W)>, i: int)
    requires
        0 <= i < pairs.len(),
        keys_distinct(pairs.take(i)),
    ensures
        pairs_map(pairs.take(i + 1)) == pairs_map(pairs.take(i)).insert(pairs[i].0, pairs[i].1),
        keys_distinct(pairs.take(i + 1)) <==> !has_key(pairs.take(i), pairs[i].0),
        has_key(pairs.take(i), pairs[i].0) ==> !keys_distinct(pairs),
{
    let (seen, next) = (pairs.take(i), pairs.take(i + 1));
    assert(next.drop_last() =~= seen);
    if has_key(seen, pairs[i].0) {
        let j = choose|j: int| 0 <= j < seen.len() && (#[trigger] seen[j]).0 == pairs[i].0;
        assert(pairs[j].0 == pairs[i].0 && next[j].0 == next[i].0);
    } else {
        assert forall|a: int, b: int| 0 <= a < b < next.len() implies (#[trigger] next[a]).0
            != (#[trigger] next[b]).0 by {
            assert(seen[a] == next[a]);
            if b < seen.len() {
                assert(seen[b] == next[b]);
            }
        }
    }
}

/// A map from strings to values.
#[derive(Debug)]
pub struct StringMap<V> {
    entries: Vec<(String, V)>,
}

impl<V: DeepView> StringMap<V> {
    /// The entries, in the order in which the map walks them.
    pub closed spec fn pairs(&self) -> Seq<(Seq<char>, V::V)> {
        self.entries.deep_view()
    }
}

/// Whether no key occurs twice among the stored entries.
spec fn entry_keys_distinct<V>(entries: Seq<(String, V)>) -> bool {
    forall|i: int, j: int|
        0 <= i < j < entries.len() ==> (#[trigger] entries[i]).0@ != (#[trigger] entries[j]).0@
}

impl<V> StringMap<V> {
    #[verifier::type_invariant]
    spec fn well_formed(&self) -> bool {
        entry_keys_distinct(self.entries@)
    }
}

/// Distinctness of the stored keys is distinctness of their values.
proof fn lemma_entry_keys<V: DeepView>(entries: Vec<(String, V)>)
    ensures
        entry_keys_distinct(entries@) <==> keys_distinct(entries.deep_view()),
{
    let pairs = entries.deep_view();
    assert(forall|i: int| 0 <= i < pairs.len() ==> (#[trigger] pairs[i]).0 == entries@[i].0@);
    if keys_distinct(pairs) {
        assert forall|i: int, j: int| 0 <= i < j < entries@.len() implies (#[trigger] entries@[i]).0@
            != (#[trigger] entries@[j]).0@ by {
            assert(pairs[i].0 != pairs[j].0);
        }
    }
    if entry_keys_distinct(entries@) {
        assert forall|i: int, j: int| 0 <= i < j < pairs.len() implies (#[trigger] pairs[i]).0
            != (#[trigger] pairs[j]).0 by {
            assert(entries@[i].0@ != entries@[j].0@);
        }
    }
}

impl<V: DeepView> DeepView for StringMap<V> {
    type V = Map<Seq<char>, V::V>;

    open spec fn deep_view(&self) -> Map<Seq<char>, V::V> {
        pairs_map(self.pairs())
    }
}

impl<V: DeepView> StringMap<V> {
    /// A map without entries.
    pub fn new() -> (res: Self)
        ensures
            res.deep_view() == Map::<Seq<char>, V::V>::empty(),
            res.pairs().len() == 0,
    {
        let entries: Vec<(String, V)> = Vec::new();
        assert(entries.deep_view().len() == 0);
        StringMap { entries }
    }

    /// The number of entries.
    pub fn len(&self) -> (res: usize)
        ensures
            res == self.pairs().len(),
            keys_distinct(self.pairs()),
    {
        proof {
            use_type_invariant(self);
            lemma_entry_keys(self.entries);
        }
        self.entries.len()
    }

    /// The key of the entry at this position of the walk.
    pub fn key_at(&self, i: usize) -> (res: &String)
        requires
            i < self.pairs().len(),
        ensures
            res@ == self.pairs()[i as int].0,
            self.deep_view().contains_key(res@),
            self.deep_view()[res@] == self.pairs()[i as int].1,
    {
        proof {
            use_type_invariant(self);
            lemma_entry_keys(self.entries);
            lemma_pairs_map_value(self.pairs(), i as int);
        }
        &self.entries[i].0
    }

    /// The value of the entry at this position of the walk.
    pub fn value_at(&self, i: usize) -> (res: &V)
        requires
            i < self.pairs().len(),
        ensures
            res.deep_view() == self.pairs()[i as int].1,
    {
        &self.entries[i].1
    }

    fn position(&self, key: &String) -> (res: Option<usize>)
        ensures
            match res {
                Some(i) => i < self.pairs().len() && self.pairs()[i as int].0 == key@,
                None => !has_key(self.pairs(), key@),
            },
    {
        let mut i: usize = 0;
        while i < self.entries.len()
            invariant
                i <= self.entries@.len(),
                self.pairs().len() == self.entries@.len(),
                forall|j: int| 0 <= j < i ==> (#[trigger] self.pairs()[j]).0 != key@,
            decreases self.entries@.len() - i,
        {
            if self.entries[i].0 == *key {
                return Some(i);
            }
            assert(self.pairs()[i as int].0 != key@);
            i = i + 1;
        }
        None
    }

    /// Whether the map has this key.
    pub fn contains_key(&self, key: &String) -> (res: bool)
        ensures
            res == self.deep_view().contains_key(key@),
    {
        proof {
            lemma_pairs_map_keys(self.pairs(), key@);
        }
        self.position(key).is_some()
    }

    /// The value at a key.
    pub fn get(&self, key: &String) -> (res: Option<&V>)
        ensures
            match res {
                Some(value) => self.deep_view().contains_key(key@)
                    && self.deep_view()[key@] == value.deep_view(),
                None => !self.deep_view().contains_key(key@),
            },
    {
        proof {
            use_type_invariant(self);
            lemma_entry_keys(self.entries);
            lemma_pairs_map_keys(self.pairs(), key@);
        }
        match self.position(key) {
            Some(i) => {
                proof {
                    lemma_pairs_map_value(self.pairs(), i as int);
                }
                Some(&self.entries[i].1)
            },
            None => None,
        }
    }

    /// Sets the value at a key.
    pub fn insert(&mut self, key: String, value: V)
        ensures
            final(self).deep_view() == old(self).deep_view().insert(key@, value.deep_view()),
    {
        proof {
            use_type_invariant(&*self);
            lemma_entry_keys(self.entries);
        }
        let ghost before = self.pairs();
        let found = self.position(&key);
        let mut entries: Vec<(String, V)> = Vec::new();
        std::mem::swap(&mut entries, &mut self.entries);
        let ghost pair = (key@, value.deep_view());
        match found {
            Some(i) => {
                entries.set(i, (key, value));
                let ghost after = entries.deep_view();
                proof {
                    assert(after =~= before.update(i as int, pair));
                    assert(keys_distinct(after)) by {
                        assert forall|a: int, b: int| 0 <= a < b < after.len() implies (#[trigger] after[a]).0 != (#[trigger] after[b]).0 by {
                            assert(after[a].0 == before[a].0 && after[b].0 == before[b].0);
                        }
                    }
                    assert(pairs_map(after) =~= pairs_map(before).insert(key@, pair.1)) by {
                        lemma_same_keys(before, after);
                        assert forall|k: Seq<char>| pairs_map(after).contains_key(k) implies pairs_map(after)[k] == pairs_map(before).insert(key@, pair.1)[k] by {
                            lemma_pairs_map_keys(after, k);
                            let j = choose|j: int| 0 <= j < after.len() && (#[trigger] after[j]).0 == k;
                            lemma_pairs_map_value(after, j);
                            lemma_pairs_map_value(before, j);
                        }
                        lemma_pairs_map_value(before, i as int);
                    }
                }
                proof {
                    lemma_entry_keys(entries);
                }
                self.entries = entries;
            },
            None => {
                entries.push((key, value));
                let ghost after = entries.deep_view();
                proof {
                    assert(after =~= before.push(pair));
                    assert(after.drop_last() =~= before);
                    assert(keys_distinct(after)) by {
                        assert forall|a: int, b: int| 0 <= a < b < after.len() implies (#[trigger] after[a]).0 != (#[trigger] after[b]).0 by {
                            assert(after[a] == before[a]);
                            if b < before.len() {
                                assert(after[b] == before[b]);
                            }
                        }
                    }
                }
                proof {
                    lemma_entry_keys(entries);
                }
                self.entries = entries;
            },
        }
    }
}

/// Two lists of pairs with the same keys at the same places describe maps with the same keys.
proof fn lemma_same_keys<W>(a: Seq<(Seq<char>, W)>, b: Seq<(Seq<char>, W)>)
    requires
        a.len() == b.len(),
        forall|i: int| 0 <= i < a.len() ==> (#[trigger] a[i]).0 == (#[trigger] b[i]).0,
    ensures
        forall|k: Seq<char>| pairs_map(a).contains_key(k) <==> pairs_map(b).contains_key(k),
{
    assert forall|k: Seq<char>| pairs_map(a).contains_key(k) <==> pairs_map(b).contains_key(k) by {
        lemma_pairs_map_keys(a, k);
        lemma_pairs_map_keys(b, k);
        if has_key(a, k) {
            let i = choose|i: int| 0 <= i < a.len() && (#[trigger] a[i]).0 == k;
            assert(b[i].0 == k);
        }
        if has_key(b, k) {
            let i = choose|i: int| 0 <= i < b.len() && (#[trigger] b[i]).0 == k;
            assert(a[i].0 == k);
        }
    }
}

impl<V: Data> Data for StringMap<V> {
    fn dup(&self) -> (res: Self) {
        proof {
            use_type_invariant(self);
            lemma_entry_keys(self.entries);
        }
        let mut entries: Vec<(String, V)> = Vec::new();
        let mut i: usize = 0;
        while i < self.entries.len()
            invariant
                i <= self.entries@.len(),
                self.pairs().len() == self.entries@.len(),
                entries@.len() == i,
                forall|j: int| 0 <= j < i ==> (#[trigger] entries@[j]).deep_view() == self.pairs()[j],
            decreases self.entries@.len() - i,
        {
            let pair = (self.entries[i].0.dup(), self.entries[i].1.dup());
            assert(pair.deep_view() == self.pairs()[i as int]);
            entries.push(pair);
            i = i + 1;
        }
        assert(entries.deep_view() =~= self.pairs());
        proof {
            lemma_entry_keys(entries);
        }
        StringMap { entries }
    }

    fn same(&self, other: &Self) -> (res: bool) {
        proof {
            use_type_invariant(self);
            lemma_entry_keys(self.entries);
            use_type_invariant(other);
            lemma_entry_keys(other.entries);
        }
        let mut i: usize = 0;
        while i < self.entries.len()
            invariant
                i <= self.entries@.len(),
                self.pairs().len() == self.entries@.len(),
                keys_distinct(self.pairs()),
                forall|j: int|
                    0 <= j < i ==> other.deep_view().contains_key((#[trigger] self.pairs()[j]).0)
                        && other.deep_view()[self.pairs()[j].0] == self.pairs()[j].1,
            decreases self.entries@.len() - i,
        {
            proof {
                lemma_pairs_map_value(self.pairs(), i as int);
            }
            match other.get(&self.entries[i].0) {
                Some(value) => {
                    if !self.entries[i].1.same(value) {
                        return false;
                    }
                },
                None => {
                    return false;
                },
            }
            i = i + 1;
        }
        let mut k: usize = 0;
        while k < other.entries.len()
            invariant
                k <= other.entries@.len(),
                other.pairs().len() == other.entries@.len(),
                keys_distinct(other.pairs()),
                forall|j: int|
                    0 <= j < k ==> self.deep_view().contains_key((#[trigger] other.pairs()[j]).0),
            decreases other.entries@.len() - k,
        {
            proof {
                lemma_pairs_map_value(other.pairs(), k as int);
            }
            if !self.contains_key(&other.entries[k].0) {
                return false;
            }
            k = k + 1;
        }
        proof {
            let (a, b) = (self.deep_view(), other.deep_view());
            assert forall|key: Seq<char>| #[trigger] a.contains_key(key) implies b.contains_key(key)
                && b[key] == a[key] by {
                lemma_pairs_map_keys(self.pairs(), key);
                let j = choose|j: int| 0 <= j < self.pairs().len() && (#[trigger] self.pairs()[j]).0 == key;
                lemma_pairs_map_value(self.pairs(), j);
            }
            assert forall|key: Seq<char>| #[trigger] b.contains_key(key) implies a.contains_key(key) by {
                lemma_pairs_map_keys(other.pairs(), key);
                let j = choose|j: int| 0 <= j < other.pairs().len() && (#[trigger] other.pairs()[j]).0 == key;
                assert(other.pairs()[j].0 == key);
            }
            assert(a =~= b);
        }
        true
    }
}

} // verus!
