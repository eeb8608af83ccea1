//! A small map from names to values that keeps insertion order and holds each name once.
use vstd::prelude::*;

use crate::text::str_eq;

verus! {

broadcast use vstd::string::group_string_axioms;

/// A map from names to values. Each name occurs once; entries keep the order in which their
/// names were first inserted.
#[derive(Debug)]
pub struct NamedMap<V> {
    entries: Vec<(String, V)>,
}

/// Annotation metadata: annotation names (mapped to `""`) and named annotation arguments
/// (mapped to their raw source text, such as `'id_'`).
pub type Metadata = NamedMap<String>;

/// Whether name `k` sits at position `i` of `e`.
pub open spec fn key_at<V>(e: Seq<(String, V)>, i: int, k: Seq<char>) -> bool {
    0 <= i < e.len() && e[i].0@ == k
}

/// Whether no name occurs twice.
pub open spec fn keys_distinct<V>(e: Seq<(String, V)>) -> bool {
    forall|i: int, j: int| 0 <= i < e.len() && 0 <= j < e.len() && i != j ==> e[i].0@ != e[j].0@
}

/// The map that an entry list stands for.
pub open spec fn entries_map<V>(e: Seq<(String, V)>) -> Map<Seq<char>, V> {
    Map::new(
        |k: Seq<char>| exists|i: int| key_at(e, i, k),
        |k: Seq<char>| e[choose|i: int| key_at(e, i, k)].1,
    )
}

/// A map of strings as a map of texts.
pub open spec fn text_map(m: Map<Seq<char>, String>) -> Map<Seq<char>, Seq<char>> {
    m.map_values(|v: String| v@)
}

/// With distinct names, a name found at `i` maps to the value at `i`.
pub proof fn lemma_value_at<V>(e: Seq<(String, V)>, i: int)
    requires
        keys_distinct(e),
        0 <= i < e.len(),
    ensures
        entries_map(e).contains_key(e[i].0@),
        entries_map(e)[e[i].0@] == e[i].1,
{
    assert(key_at(e, i, e[i].0@));
    let j = choose|j: int| key_at(e, j, e[i].0@);
    assert(j == i);
}

impl<V> NamedMap<V> {
    #[verifier::type_invariant]
    spec fn inv(self) -> bool {
        keys_distinct(self.entries@)
    }

    /// The entries in insertion order.
    pub closed spec fn entries(self) -> Seq<(String, V)> {
        self.entries@
    }
}

impl<V> View for NamedMap<V> {
    type V = Map<Seq<char>, V>;

    open spec fn view(&self) -> Map<Seq<char>, V> {
        entries_map(self.entries())
    }
}

impl<V> NamedMap<V> {
    /// An empty map.
    pub fn new() -> (r: Self)
        ensures
            r@ == Map::<Seq<char>, V>::empty(),
            r.entries().len() == 0,
    {
        let r = NamedMap { entries: Vec::new() };
        assert(r@ =~= Map::<Seq<char>, V>::empty());
        r
    }

    /// Whether the map has no names.
    pub fn is_empty(&self) -> (r: bool)
        ensures
            r == (self@ == Map::<Seq<char>, V>::empty()),
    {
        let r = self.entries.len() == 0;
        proof {
            if r {
                assert(self@ =~= Map::<Seq<char>, V>::empty());
            } else {
                assert(key_at(self.entries@, 0, self.entries@[0].0@));
                assert(self@.contains_key(self.entries@[0].0@));
            }
        }
        r
    }

    /// The number of names.
    pub fn len(&self) -> (r: usize)
        ensures
            r == self.entries().len(),
            r == self@.len(),
    {
        proof {
            use_type_invariant(self);
            self.lemma_len();
        }
        self.entries.len()
    }

    /// The map has as many names as entries.
    proof fn lemma_len(self)
        requires
            keys_distinct(self.entries@),
        ensures
            self@.dom().finite(),
            self@.len() == self.entries().len(),
        decreases self.entries@.len(),
    {
        let e = self.entries@;
        let keys = e.map_values(|p: (String, V)| p.0@);
        assert(keys.no_duplicates()) by {
            assert forall|i: int, j: int| 0 <= i < keys.len() && 0 <= j < keys.len() && i != j implies keys[i] != keys[j] by {
                assert(keys[i] == e[i].0@ && keys[j] == e[j].0@);
            }
        }
        assert(self@.dom() =~= keys.to_set()) by {
            assert forall|k: Seq<char>| self@.dom().contains(k) == keys.to_set().contains(k) by {
                if self@.dom().contains(k) {
                    let i = choose|i: int| key_at(e, i, k);
                    assert(keys[i] == k);
                }
                if keys.to_set().contains(k) {
                    let i = choose|i: int| 0 <= i < keys.len() && keys[i] == k;
                    assert(key_at(e, i, k));
                }
            }
        }
        keys.unique_seq_to_set();
    }

    /// The name and value at position `i` of the insertion order.
    pub fn entry(&self, i: usize) -> (r: (&String, &V))
        requires
            i < self.entries().len(),
        ensures
            r.0@ == self.entries()[i as int].0@,
            *r.1 == self.entries()[i as int].1,
            self@.contains_key(r.0@),
            self@[r.0@] == *r.1,
    {
        proof {
            use_type_invariant(self);
            lemma_value_at(self.entries@, i as int);
        }
        let e = &self.entries[i];
        (&e.0, &e.1)
    }

    /// Where `key` sits in the insertion order.
    fn position(&self, key: &str) -> (r: Option<usize>)
        ensures
            match r {
                Some(i) => i < self.entries().len() && self.entries()[i as int].0@ == key@
                    && self@.contains_key(key@),
                None => !self@.contains_key(key@),
            },
    {
        let mut i: usize = 0;
        while i < self.entries.len()
            invariant
                0 <= i <= self.entries@.len(),
                forall|j: int| 0 <= j < i ==> self.entries@[j].0@ != key@,
            decreases self.entries@.len() - i,
        {
            if str_eq(self.entries[i].0.as_str(), key) {
                assert(key_at(self.entries@, i as int, key@));
                return Some(i);
            }
            i = i + 1;
        }
        None
    }

    /// Whether `key` is present.
    pub fn contains_key(&self, key: &str) -> (r: bool)
        ensures
            r == self@.contains_key(key@),
    {
        self.position(key).is_some()
    }

    /// The value of `key`, if present.
    pub fn get(&self, key: &str) -> (r: Option<&V>)
        ensures
            match r {
                Some(v) => self@.contains_key(key@) && self@[key@] == *v,
                None => !self@.contains_key(key@),
            },
    {
        match self.position(key) {
            Some(i) => {
                proof {
                    use_type_invariant(self);
                    lemma_value_at(self.entries@, i as int);
                }
                Some(&self.entries[i].1)
            },
            None => None,
        }
    }

    /// Sets `key` to `value`, replacing an earlier value in place; a new name goes last.
    pub fn insert(&mut self, key: String, value: V)
        ensures
            final(self)@ == old(self)@.insert(key@, value),
            old(self)@.contains_key(key@) ==> final(self).entries().len() == old(self).entries().len(),
            !old(self)@.contains_key(key@) ==> final(self).entries().len() == old(self).entries().len() + 1,
    {
        proof {
            use_type_invariant(&*self);
        }
        let ghost old_e = self.entries@;
        let ghost kv = key@;
        let ghost vv = value;
        match self.position(key.as_str()) {
            Some(i) => {
                let mut entries: Vec<(String, V)> = Vec::new();
                std::mem::swap(&mut entries, &mut self.entries);
                entries.set(i, (key, value));
                proof {
                    let e = entries@;
                    assert(keys_distinct(e));
                    assert(key_at(e, i as int, kv));
                    assert forall|k: Seq<char>| #![auto]
                        entries_map(e).contains_key(k) == entries_map(old_e).insert(kv, vv).contains_key(k)
                    by {
                        if exists|j: int| key_at(old_e, j, k) {
                            let j = choose|j: int| key_at(old_e, j, k);
                            assert(key_at(e, j, k));
                        }
                        if exists|j: int| key_at(e, j, k) {
                            let j = choose|j: int| key_at(e, j, k);
                            if j != i {
                                assert(key_at(old_e, j, k));
                            }
                        }
                    }
                    assert forall|k: Seq<char>| #[trigger] entries_map(e).contains_key(k) implies
                        entries_map(e)[k] == entries_map(old_e).insert(kv, vv)[k]
                    by {
                        let j = choose|j: int| key_at(e, j, k);
                        lemma_value_at(e, j);
                        if j != i {
                            lemma_value_at(old_e, j);
                        }
                    }
                    assert(entries_map(e) =~= entries_map(old_e).insert(kv, vv));
                }
                self.entries = entries;
            },
            None => {
                let mut entries: Vec<(String, V)> = Vec::new();
                std::mem::swap(&mut entries, &mut self.entries);
                entries.push((key, value));
                proof {
                    let e = entries@;
                    assert forall|j: int| 0 <= j < old_e.len() implies old_e[j].0@ != kv by {
                        if old_e[j].0@ == kv {
                            assert(key_at(old_e, j, kv));
                        }
                    }
                    assert(keys_distinct(e));
                    assert forall|k: Seq<char>| #![auto]
                        entries_map(e).contains_key(k) == entries_map(old_e).insert(kv, vv).contains_key(k)
                    by {
                        if exists|j: int| key_at(old_e, j, k) {
                            let j = choose|j: int| key_at(old_e, j, k);
                            assert(key_at(e, j, k));
                        }
                        if k == kv {
                            assert(key_at(e, old_e.len() as int, k));
                        }
                        if exists|j: int| key_at(e, j, k) {
                            let j = choose|j: int| key_at(e, j, k);
                            if j < old_e.len() {
                                assert(key_at(old_e, j, k));
                            }
                        }
                    }
                    assert forall|k: Seq<char>| #[trigger] entries_map(e).contains_key(k) implies
                        entries_map(e)[k] == entries_map(old_e).insert(kv, vv)[k]
                    by {
                        let j = choose|j: int| key_at(e, j, k);
                        lemma_value_at(e, j);
                        if j < old_e.len() {
                            lemma_value_at(old_e, j);
                        }
                    }
                    assert(entries_map(e) =~= entries_map(old_e).insert(kv, vv));
                }
                self.entries = entries;
            },
        }
    }

    /// Sets `key` to `value` only when `key` is absent.
    pub fn insert_if_absent(&mut self, key: String, value: V)
        ensures
            old(self)@.contains_key(key@) ==> final(self)@ == old(self)@,
            !old(self)@.contains_key(key@) ==> final(self)@ == old(self)@.insert(key@, value),
    {
        if !self.contains_key(key.as_str()) {
            self.insert(key, value);
        }
    }

    /// Takes the value of `key` out of the map, if present.
    pub fn remove(&mut self, key: &str) -> (r: Option<V>)
        ensures
            final(self)@ == old(self)@.remove(key@),
            match r {
                Some(v) => old(self)@.contains_key(key@) && old(self)@[key@] == v,
                None => !old(self)@.contains_key(key@),
            },
    {
        proof {
            use_type_invariant(&*self);
        }
        let ghost old_e = self.entries@;
        match self.position(key) {
            Some(i) => {
                let mut entries: Vec<(String, V)> = Vec::new();
                std::mem::swap(&mut entries, &mut self.entries);
                let (_, v) = entries.remove(i);
                proof {
                    lemma_value_at(old_e, i as int);
                    let e = entries@;
                    assert forall|a: int, b: int| 0 <= a < e.len() && 0 <= b < e.len() && a != b implies e[a].0@ != e[b].0@ by {
                        let a2 = if a < i { a } else { a + 1 };
                        let b2 = if b < i { b } else { b + 1 };
                        assert(e[a] == old_e[a2] && e[b] == old_e[b2]);
                    }
                    assert forall|k: Seq<char>| #![auto]
                        entries_map(e).contains_key(k) == entries_map(old_e).remove(key@).contains_key(k)
                    by {
                        if exists|j: int| key_at(old_e, j, k) && k != key@ {
                            let j = choose|j: int| key_at(old_e, j, k);
                            if j < i {
                                assert(key_at(e, j, k));
                            } else {
                                assert(j != i);
                                assert(key_at(e, j - 1, k));
                            }
                        }
                        if exists|j: int| key_at(e, j, k) {
                            let j = choose|j: int| key_at(e, j, k);
                            let j2 = if j < i { j } else { j + 1 };
                            assert(key_at(old_e, j2, k));
                            assert(k != key@);
                        }
                    }
                    assert forall|k: Seq<char>| #[trigger] entries_map(e).contains_key(k) implies
                        entries_map(e)[k] == entries_map(old_e).remove(key@)[k]
                    by {
                        let j = choose|j: int| key_at(e, j, k);
                        let j2 = if j < i { j } else { j + 1 };
                        lemma_value_at(e, j);
                        lemma_value_at(old_e, j2);
                    }
                    assert(entries_map(e) =~= entries_map(old_e).remove(key@));
                }
                self.entries = entries;
                Some(v)
            },
            None => {
                assert(old_e == self.entries@);
                assert(entries_map(old_e) =~= entries_map(old_e).remove(key@));
                None
            },
        }
    }
}

} // verus!
