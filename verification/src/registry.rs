//! A table keyed by strings, where each key occurs at most once.
//!
//! The plugin keeps three such tables: the state of each key on the deck
//! (by context), the icons already fetched (by URL), and the Discord RPC
//! requests awaiting a reply (by nonce).

use vstd::prelude::*;
use crate::json::str_eq;

verus! {

/// No key occurs twice.
pub open spec fn unique_keys<V>(es: Seq<(String, V)>) -> bool {
    forall|i: int, j: int| 0 <= i < es.len() && 0 <= j < es.len() && i != j ==> #[trigger] es[i].0@ != #[trigger] es[j].0@
}

/// `k` is the key of entry `i`.
pub open spec fn key_at<V>(es: Seq<(String, V)>, k: Seq<char>, i: int) -> bool {
    0 <= i < es.len() && es[i].0@ == k
}

/// The map that a list of entries stands for.
pub open spec fn map_of<V>(es: Seq<(String, V)>) -> Map<Seq<char>, V> {
    Map::new(
        |k: Seq<char>| exists|i: int| key_at(es, k, i),
        |k: Seq<char>| es[choose|i: int| key_at(es, k, i)].1,
    )
}

pub proof fn lemma_map_of_entry<V>(es: Seq<(String, V)>, i: int)
    requires
        unique_keys(es),
        0 <= i < es.len(),
    ensures
        map_of(es).contains_key(es[i].0@),
        map_of(es)[es[i].0@] == es[i].1,
{
    let k = es[i].0@;
    assert(key_at(es, k, i));
    let j = choose|j: int| key_at(es, k, j);
    assert(key_at(es, k, j));
    if j != i {
        assert(es[i].0@ != es[j].0@);
    }
}

pub proof fn lemma_map_of_absent<V>(es: Seq<(String, V)>, k: Seq<char>)
    requires
        forall|i: int| 0 <= i < es.len() ==> es[i].0@ != k,
    ensures
        !map_of(es).contains_key(k),
{
}

/// A table from string keys to values.
pub struct Registry<V> {
    entries: Vec<(String, V)>,
}

impl<V> View for Registry<V> {
    type V = Map<Seq<char>, V>;

    closed spec fn view(&self) -> Map<Seq<char>, V> {
        map_of(self.entries@)
    }
}

impl<V> Registry<V> {
    #[verifier::type_invariant]
    closed spec fn keys_unique(&self) -> bool {
        unique_keys(self.entries@)
    }

    /// An empty table.
    pub fn new() -> (r: Self)
        ensures
            r@ == Map::<Seq<char>, V>::empty(),
    {
        let r = Registry { entries: Vec::new() };
        assert(r@ =~= Map::<Seq<char>, V>::empty());
        r
    }

    fn find(&self, key: &str) -> (r: Option<usize>)
        ensures
            match r {
                Some(i) => i < self.entries@.len() && self.entries@[i as int].0@ == key@,
                None => forall|i: int| 0 <= i < self.entries@.len() ==> self.entries@[i].0@ != key@,
            },
    {
        let mut i: usize = 0;
        while i < self.entries.len()
            invariant
                i <= self.entries@.len(),
                forall|j: int| 0 <= j < i ==> self.entries@[j].0@ != key@,
            decreases self.entries@.len() - i,
        {
            if str_eq(self.entries[i].0.as_str(), key) {
                return Some(i);
            }
            i = i + 1;
        }
        None
    }

    /// Whether `key` has a value.
    pub fn contains_key(&self, key: &str) -> (b: bool)
        ensures
            b == self@.contains_key(key@),
    {
        proof { use_type_invariant(self); }
        match self.find(key) {
            Some(i) => {
                proof { lemma_map_of_entry(self.entries@, i as int); }
                true
            },
            None => {
                proof { lemma_map_of_absent(self.entries@, key@); }
                false
            },
        }
    }

    /// The value of `key`, if it has one.
    pub fn get(&self, key: &str) -> (r: Option<&V>)
        ensures
            match r {
                Some(v) => self@.contains_key(key@) && self@[key@] == *v,
                None => !self@.contains_key(key@),
            },
    {
        proof { use_type_invariant(self); }
        match self.find(key) {
            Some(i) => {
                proof { lemma_map_of_entry(self.entries@, i as int); }
                Some(&self.entries[i].1)
            },
            None => {
                proof { lemma_map_of_absent(self.entries@, key@); }
                None
            },
        }
    }

    /// Gives `key` the value `value`, replacing the one it had.
    pub fn insert(&mut self, key: String, value: V)
        ensures
            final(self)@ == old(self)@.insert(key@, value),
    {
        proof { use_type_invariant(&*self); }
        let ghost old_es = self.entries@;
        let ghost k = key@;
        match self.find(key.as_str()) {
            Some(i) => {
                let mut entries = Vec::new();
                std::mem::swap(&mut entries, &mut self.entries);
                entries.set(i, (key, value));
                let ghost es = entries@;
                assert(es == old_es.update(i as int, (es[i as int].0, value)));
                assert(unique_keys(es)) by {
                    assert forall|a: int, b: int| 0 <= a < es.len() && 0 <= b < es.len() && a != b implies #[trigger] es[a].0@ != #[trigger] es[b].0@ by {
                        assert(old_es[a].0@ != old_es[b].0@);
                    }
                }
                assert(map_of(es) =~= map_of(old_es).insert(k, value)) by {
                    assert forall|q: Seq<char>| #[trigger] map_of(es).contains_key(q) <==> map_of(old_es).insert(k, value).contains_key(q) by {
                        if map_of(old_es).contains_key(q) {
                            let j = choose|j: int| key_at(old_es, q, j);
                            assert(key_at(es, q, j));
                        }
                        if q == k {
                            assert(key_at(es, q, i as int));
                        }
                        if map_of(es).contains_key(q) {
                            let j = choose|j: int| key_at(es, q, j);
                            assert(key_at(old_es, q, j));
                        }
                    }
                    assert forall|q: Seq<char>| #[trigger] map_of(es).contains_key(q) implies map_of(es)[q] == map_of(old_es).insert(k, value)[q] by {
                        let j = choose|j: int| key_at(es, q, j);
                        lemma_map_of_entry(es, j);
                        if j != i {
                            lemma_map_of_entry(old_es, j);
                        }
                    }
                }
                self.entries = entries;
            },
            None => {
                let mut entries = Vec::new();
                std::mem::swap(&mut entries, &mut self.entries);
                entries.push((key, value));
                let ghost es = entries@;
                assert(unique_keys(es)) by {
                    assert forall|a: int, b: int| 0 <= a < es.len() && 0 <= b < es.len() && a != b implies #[trigger] es[a].0@ != #[trigger] es[b].0@ by {
                        if a < old_es.len() && b < old_es.len() {
                            assert(old_es[a].0@ != old_es[b].0@);
                        }
                    }
                }
                assert(map_of(es) =~= map_of(old_es).insert(k, value)) by {
                    assert forall|q: Seq<char>| #[trigger] map_of(es).contains_key(q) <==> map_of(old_es).insert(k, value).contains_key(q) by {
                        if map_of(old_es).contains_key(q) {
                            let j = choose|j: int| key_at(old_es, q, j);
                            assert(key_at(es, q, j));
                        }
                        if q == k {
                            assert(key_at(es, q, old_es.len() as int));
                        }
                        if map_of(es).contains_key(q) && q != k {
                            let j = choose|j: int| key_at(es, q, j);
                            assert(key_at(old_es, q, j));
                        }
                    }
                    assert forall|q: Seq<char>| #[trigger] map_of(es).contains_key(q) implies map_of(es)[q] == map_of(old_es).insert(k, value)[q] by {
                        let j = choose|j: int| key_at(es, q, j);
                        lemma_map_of_entry(es, j);
                        if j < old_es.len() {
                            lemma_map_of_entry(old_es, j);
                        }
                    }
                }
                self.entries = entries;
            },
        }
    }

    /// Removes `key` and gives back its value, if it had one.
    pub fn remove(&mut self, key: &str) -> (r: Option<V>)
        ensures
            final(self)@ == old(self)@.remove(key@),
            match r {
                Some(v) => old(self)@.contains_key(key@) && old(self)@[key@] == v,
                None => !old(self)@.contains_key(key@),
            },
    {
        proof { use_type_invariant(&*self); }
        let ghost old_es = self.entries@;
        let ghost k = key@;
        match self.find(key) {
            Some(i) => {
                proof { lemma_map_of_entry(old_es, i as int); }
                let mut entries = Vec::new();
                std::mem::swap(&mut entries, &mut self.entries);
                let (_, v) = entries.remove(i);
                let ghost es = entries@;
                assert(es == old_es.remove(i as int));
                assert forall|a: int| 0 <= a < es.len() implies #[trigger] es[a] == old_es[if a < i { a } else { a + 1 }] by {}
                assert(unique_keys(es)) by {
                    assert forall|a: int, b: int| 0 <= a < es.len() && 0 <= b < es.len() && a != b implies #[trigger] es[a].0@ != #[trigger] es[b].0@ by {
                        let a1 = if a < i { a } else { a + 1 };
                        let b1 = if b < i { b } else { b + 1 };
                        assert(old_es[a1].0@ != old_es[b1].0@);
                    }
                }
                assert(map_of(es) =~= map_of(old_es).remove(k)) by {
                    assert forall|q: Seq<char>| #[trigger] map_of(es).contains_key(q) <==> map_of(old_es).remove(k).contains_key(q) by {
                        if map_of(old_es).contains_key(q) && q != k {
                            let j = choose|j: int| key_at(old_es, q, j);
                            assert(j != i);
                            let j1 = if j < i { j } else { j - 1 };
                            assert(key_at(es, q, j1));
                        }
                        if map_of(es).contains_key(q) {
                            let j = choose|j: int| key_at(es, q, j);
                            let j1 = if j < i { j } else { j + 1 };
                            assert(key_at(old_es, q, j1));
                            assert(j1 != i);
                            assert(old_es[j1].0@ != old_es[i as int].0@);
                        }
                    }
                    assert forall|q: Seq<char>| #[trigger] map_of(es).contains_key(q) implies map_of(es)[q] == map_of(old_es).remove(k)[q] by {
                        let j = choose|j: int| key_at(es, q, j);
                        lemma_map_of_entry(es, j);
                        let j1 = if j < i { j } else { j + 1 };
                        lemma_map_of_entry(old_es, j1);
                    }
                }
                self.entries = entries;
                Some(v)
            },
            None => {
                proof { lemma_map_of_absent(old_es, k); }
                assert(map_of(old_es) =~= map_of(old_es).remove(k));
                None
            },
        }
    }

    /// Whether no key has a value.
    pub fn is_empty(&self) -> (b: bool)
        ensures
            b == (self@ == Map::<Seq<char>, V>::empty()),
    {
        proof { use_type_invariant(self); }
        if self.entries.len() == 0 {
            assert(self@ =~= Map::<Seq<char>, V>::empty());
            true
        } else {
            proof { lemma_map_of_entry(self.entries@, 0); }
            assert(!(self@ =~= Map::<Seq<char>, V>::empty()));
            false
        }
    }

    /// Removes every key.
    pub fn clear(&mut self)
        ensures
            final(self)@ == Map::<Seq<char>, V>::empty(),
    {
        self.entries = Vec::new();
        assert(self@ =~= Map::<Seq<char>, V>::empty());
    }
}

} // verus!
