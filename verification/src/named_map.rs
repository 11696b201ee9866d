//! A map from names to values, kept as a list of entries whose names are unique.

use vstd::prelude::*;

use crate::text::str_eq;

verus! {

/// Named values; no two entries share a name.
pub struct NamedMap<V> {
    entries: Vec<(String, V)>,
}

/// Whether no two entries of `e` share a name.
pub open spec fn names_unique<V>(e: Seq<(String, V)>) -> bool {
    forall|i: int, j: int| 0 <= i < j < e.len() ==> e[i].0@ != e[j].0@
}

/// Whether some entry of `e` is named `k`.
pub open spec fn has_name<V>(e: Seq<(String, V)>, k: Seq<char>) -> bool {
    exists|i: int| 0 <= i < e.len() && #[trigger] e[i].0@ == k
}

/// The value of the entry of `e` named `k`.
pub open spec fn value_named<V>(e: Seq<(String, V)>, k: Seq<char>) -> V {
    e[choose|i: int| 0 <= i < e.len() && #[trigger] e[i].0@ == k].1
}

/// The entries of `e` as a map from names to values.
pub open spec fn entries_map<V>(e: Seq<(String, V)>) -> Map<Seq<char>, V> {
    Map::new(|k: Seq<char>| has_name(e, k), |k: Seq<char>| value_named(e, k))
}

/// With unique names, the entry at `i` gives the map's value under its name.
pub proof fn lemma_entry_in_map<V>(e: Seq<(String, V)>, i: int)
    requires
        names_unique(e),
        0 <= i < e.len(),
    ensures
        entries_map(e).contains_key(e[i].0@),
        entries_map(e)[e[i].0@] == e[i].1,
{
    let k = e[i].0@;
    assert(has_name(e, k));
    let j = choose|j: int| 0 <= j < e.len() && #[trigger] e[j].0@ == k;
    if j != i {
        if j < i {
            assert(e[j].0@ != e[i].0@);
        } else {
            assert(e[i].0@ != e[j].0@);
        }
    }
}

impl<V> NamedMap<V> {
    #[verifier::type_invariant]
    spec fn unique(self) -> bool {
        names_unique(self.entries@)
    }

    /// The entries, in the order they were first inserted.
    pub closed spec fn entry_seq(&self) -> Seq<(String, V)> {
        self.entries@
    }

    /// The map from names to values.
    pub closed spec fn view(&self) -> Map<Seq<char>, V> {
        entries_map(self.entries@)
    }

    /// The names, in entry order.
    pub closed spec fn names(&self) -> Seq<Seq<char>> {
        self.entries@.map_values(|e: (String, V)| e.0@)
    }

    /// An empty map.
    pub fn new() -> (m: Self)
        ensures
            m@ == Map::<Seq<char>, V>::empty(),
            m.names().len() == 0,
    {
        let m = NamedMap { entries: Vec::new() };
        assert(m@ =~= Map::<Seq<char>, V>::empty());
        m
    }

    /// Number of entries; the names are the map's keys, each once.
    pub fn len(&self) -> (n: usize)
        ensures
            n == self.names().len(),
            self.names().no_duplicates(),
            forall|k: Seq<char>| #[trigger] self@.contains_key(k) <==> self.names().contains(k),
    {
        proof {
            use_type_invariant(self);
            let e = self.entries@;
            let ns = self.names();
            assert forall|k: Seq<char>| #[trigger] self@.contains_key(k) <==> ns.contains(k) by {
                if has_name(e, k) {
                    let i = choose|i: int| 0 <= i < e.len() && #[trigger] e[i].0@ == k;
                    assert(ns[i] == k);
                }
                if ns.contains(k) {
                    let i = choose|i: int| 0 <= i < ns.len() && ns[i] == k;
                    assert(e[i].0@ == k);
                }
            }
        }
        self.entries.len()
    }

    /// Position of the entry named `key`.
    fn position(&self, key: &str) -> (res: Option<usize>)
        ensures
            match res {
                Some(i) => i < self.entries@.len() && self.entries@[i as int].0@ == key@,
                None => !has_name(self.entries@, key@),
            },
    {
        let mut i: usize = 0;
        while i < self.entries.len()
            invariant
                i <= self.entries@.len(),
                forall|j: int| 0 <= j < i ==> self.entries@[j].0@ != key@,
            decreases self.entries@.len() - i,
        {
            if str_eq(self.entries[i].0.as_str(), key) {
                return Some(i);
            }
            i = i + 1;
        }
        None
    }

    /// The value named `key`, if any.
    pub fn get(&self, key: &str) -> (res: Option<&V>)
        ensures
            match res {
                Some(v) => self@.contains_key(key@) && *v == self@[key@],
                None => !self@.contains_key(key@),
            },
    {
        proof {
            use_type_invariant(self);
        }
        match self.position(key) {
            Some(i) => {
                proof {
                    lemma_entry_in_map(self.entries@, i as int);
                }
                Some(&self.entries[i].1)
            },
            None => None,
        }
    }

    /// Whether some entry is named `key`.
    pub fn contains_key(&self, key: &str) -> (res: bool)
        ensures
            res == self@.contains_key(key@),
    {
        match self.position(key) {
            Some(i) => {
                assert(has_name(self.entries@, key@));
                true
            },
            None => false,
        }
    }

    /// The name and value of the entry at `i`, in entry order.
    pub fn entry(&self, i: usize) -> (res: (&String, &V))
        requires
            i < self.names().len(),
        ensures
            res.0@ == self.names()[i as int],
            self@.contains_key(res.0@),
            *res.1 == self@[res.0@],
    {
        proof {
            use_type_invariant(self);
            lemma_entry_in_map(self.entries@, i as int);
        }
        (&self.entries[i].0, &self.entries[i].1)
    }

    /// Sets the value named `key`, adding an entry when there is none; a new name goes
    /// last.
    pub fn insert(&mut self, key: String, value: V)
        ensures
            final(self)@ == old(self)@.insert(key@, value),
            old(self)@.contains_key(key@) ==> final(self).names() == old(self).names(),
            !old(self)@.contains_key(key@) ==> final(self).names() == old(self).names().push(
                key@,
            ),
    {
        proof {
            use_type_invariant(&*self);
        }
        let ghost before = self.entries@;
        match self.position(key.as_str()) {
            Some(i) => {
                let mut entries = Vec::new();
                std::mem::swap(&mut entries, &mut self.entries);
                entries.set(i, (key, value));
                let ghost after = entries@;
                assert(names_unique(after)) by {
                    assert forall|a: int, b: int| 0 <= a < b < after.len() implies after[a].0@
                        != after[b].0@ by {
                        assert(before[a].0@ != before[b].0@);
                    }
                }
                proof {
                    assert(has_name(before, key@));
                    lemma_entry_in_map(after, i as int);
                    assert forall|k: Seq<char>| #[trigger] entries_map(after).contains_key(k)
                        == entries_map(before).insert(key@, value).contains_key(k) by {
                        if has_name(after, k) {
                            let j = choose|j: int| 0 <= j < after.len() && #[trigger] after[j].0@
                                == k;
                            assert(before[j].0@ == k);
                        }
                        if has_name(before, k) {
                            let j = choose|j: int| 0 <= j < before.len() && #[trigger] before[j].0@
                                == k;
                            assert(after[j].0@ == k);
                        }
                    }
                    assert forall|k: Seq<char>| #[trigger] entries_map(after).contains_key(k)
                        implies entries_map(after)[k] == entries_map(before).insert(
                        key@,
                        value,
                    )[k] by {
                        let j = choose|j: int| 0 <= j < after.len() && #[trigger] after[j].0@ == k;
                        lemma_entry_in_map(after, j);
                        if k != key@ {
                            assert(j != i);
                            lemma_entry_in_map(before, j);
                        }
                    }
                    assert(entries_map(after) =~= entries_map(before).insert(key@, value));
                    assert(after.map_values(|e: (String, V)| e.0@) =~= before.map_values(
                        |e: (String, V)| e.0@,
                    ));
                }
                self.entries = entries;
            },
            None => {
                let ghost k0 = key@;
                let mut entries = Vec::new();
                std::mem::swap(&mut entries, &mut self.entries);
                entries.push((key, value));
                let ghost after = entries@;
                assert(names_unique(after)) by {
                    assert forall|a: int, b: int| 0 <= a < b < after.len() implies after[a].0@
                        != after[b].0@ by {
                        if b < before.len() {
                            assert(before[a].0@ != before[b].0@);
                        } else {
                            assert(before[a].0@ != k0);
                        }
                    }
                }
                proof {
                    lemma_entry_in_map(after, before.len() as int);
                    assert forall|k: Seq<char>| #[trigger] entries_map(after).contains_key(k)
                        == entries_map(before).insert(k0, value).contains_key(k) by {
                        if has_name(after, k) {
                            let j = choose|j: int| 0 <= j < after.len() && #[trigger] after[j].0@
                                == k;
                            if j < before.len() {
                                assert(before[j].0@ == k);
                            }
                        }
                        if has_name(before, k) {
                            let j = choose|j: int| 0 <= j < before.len() && #[trigger] before[j].0@
                                == k;
                            assert(after[j].0@ == k);
                        }
                    }
                    assert forall|k: Seq<char>| #[trigger] entries_map(after).contains_key(k)
                        implies entries_map(after)[k] == entries_map(before).insert(k0, value)[k] by {
                        let j = choose|j: int| 0 <= j < after.len() && #[trigger] after[j].0@ == k;
                        lemma_entry_in_map(after, j);
                        if k != k0 {
                            assert(j < before.len());
                            lemma_entry_in_map(before, j);
                        }
                    }
                    assert(entries_map(after) =~= entries_map(before).insert(k0, value));
                    assert(after.map_values(|e: (String, V)| e.0@) =~= before.map_values(
                        |e: (String, V)| e.0@,
                    ).push(k0));
                }
                self.entries = entries;
            },
        }
    }

    /// Removes the entry named `key` and returns its value, if there is one.
    pub fn take(&mut self, key: &str) -> (res: Option<V>)
        ensures
            final(self)@ == old(self)@.remove(key@),
            match res {
                Some(v) => old(self)@.contains_key(key@) && v == old(self)@[key@],
                None => !old(self)@.contains_key(key@),
            },
    {
        proof {
            use_type_invariant(&*self);
        }
        let ghost before = self.entries@;
        match self.position(key) {
            Some(i) => {
                let mut entries = Vec::new();
                std::mem::swap(&mut entries, &mut self.entries);
                let (_, value) = entries.remove(i);
                let ghost after = entries@;
                assert(names_unique(after)) by {
                    assert forall|a: int, b: int| 0 <= a < b < after.len() implies after[a].0@
                        != after[b].0@ by {
                        let a2 = if a < i { a } else { a + 1 };
                        let b2 = if b < i { b } else { b + 1 };
                        assert(after[a] == before[a2]);
                        assert(after[b] == before[b2]);
                        assert(before[a2].0@ != before[b2].0@);
                    }
                }
                proof {
                    lemma_entry_in_map(before, i as int);
                    assert forall|k: Seq<char>| #[trigger] entries_map(after).contains_key(k)
                        == entries_map(before).remove(key@).contains_key(k) by {
                        if has_name(after, k) {
                            let j = choose|j: int| 0 <= j < after.len() && #[trigger] after[j].0@
                                == k;
                            let j2 = if j < i { j } else { j + 1 };
                            assert(after[j] == before[j2]);
                            assert(before[j2].0@ == k);
                            assert(j2 != i);
                            if j2 < i {
                                assert(before[j2].0@ != before[i as int].0@);
                            } else {
                                assert(before[i as int].0@ != before[j2].0@);
                            }
                        }
                        if has_name(before, k) && k != key@ {
                            let j = choose|j: int| 0 <= j < before.len() && #[trigger] before[j].0@
                                == k;
                            assert(j != i);
                            let j1 = if j < i { j } else { j - 1 };
                            assert(after[j1] == before[j]);
                            assert(after[j1].0@ == k);
                        }
                    }
                    assert forall|k: Seq<char>| #[trigger] entries_map(after).contains_key(k)
                        implies entries_map(after)[k] == entries_map(before).remove(key@)[k] by {
                        let j = choose|j: int| 0 <= j < after.len() && #[trigger] after[j].0@ == k;
                        lemma_entry_in_map(after, j);
                        let j2 = if j < i { j } else { j + 1 };
                        assert(after[j] == before[j2]);
                        lemma_entry_in_map(before, j2);
                    }
                    assert(entries_map(after) =~= entries_map(before).remove(key@));
                }
                self.entries = entries;
                Some(value)
            },
            None => {
                assert(entries_map(before).remove(key@) =~= entries_map(before));
                None
            },
        }
    }
}

} // verus!
