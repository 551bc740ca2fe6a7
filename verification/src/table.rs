//! A table of values keyed by strings, kept in insertion order.
//!
//! It stands for the `HashMap<String, _>` that the session store and the
//! connection manager keep: each key occurs at most once, and the table is
//! viewed as a `Map` from the key's characters to the value.
use vstd::prelude::*;
use crate::text::{str_eq, views_of};

verus! {

broadcast use vstd::string::group_string_axioms;

/// Values keyed by strings; each key occurs once.
pub struct StrTable<T> {
    entries: Vec<(String, T)>,
    contents: Ghost<Map<Seq<char>, T>>,
}

impl<T> View for StrTable<T> {
    type V = Map<Seq<char>, T>;

    /// The table as a map.
    closed spec fn view(&self) -> Map<Seq<char>, T> {
        self.contents@
    }
}

impl<T> StrTable<T> {
    /// Each key occurs once, and the map is what the entries hold.
    pub closed spec fn wf(self) -> bool {
        &&& forall|i: int, j: int|
            #![trigger self.entries@[i], self.entries@[j]]
            0 <= i < j < self.entries@.len() ==> self.entries@[i].0@ != self.entries@[j].0@
        &&& forall|i: int|
            #![trigger self.entries@[i]]
            0 <= i < self.entries@.len() ==> self.contents@.contains_key(self.entries@[i].0@)
                && self.contents@[self.entries@[i].0@] == self.entries@[i].1
        &&& forall|k: Seq<char>|
            #[trigger] self.contents@.contains_key(k) ==> exists|i: int|
                0 <= i < self.entries@.len() && #[trigger] self.entries@[i].0@ == k
        &&& self.contents@.dom().finite()
    }

    /// The keys, in table order.
    pub closed spec fn key_seq(&self) -> Seq<Seq<char>> {
        self.entries@.map_values(|e: (String, T)| e.0@)
    }

    /// The values, in table order.
    pub closed spec fn value_seq(&self) -> Seq<T> {
        self.entries@.map_values(|e: (String, T)| e.1)
    }

    /// Table order lists every key once, and the values under them.
    pub proof fn lemma_order(&self)
        requires
            self.wf(),
        ensures
            self.key_seq().len() == self.value_seq().len(),
            self.key_seq().no_duplicates(),
            self.key_seq().to_set() == self.view().dom(),
            forall|i: int|
                0 <= i < self.key_seq().len() ==> #[trigger] self.view()[self.key_seq()[i]]
                    == self.value_seq()[i],
            self.view().dom().finite(),
            self.view().dom().len() == self.key_seq().len(),
    {
        let ks = self.key_seq();
        assert forall|k: Seq<char>| ks.to_set().contains(k) <==> self.view().dom().contains(k) by {
            if self.view().dom().contains(k) {
                assert(self.contents@.contains_key(k));
                let i = choose|i: int| 0 <= i < self.entries@.len() && #[trigger] self.entries@[i].0@ == k;
                assert(ks[i] == k);
            }
            if ks.to_set().contains(k) {
                let i = choose|i: int| 0 <= i < ks.len() && ks[i] == k;
                assert(self.contents@.contains_key(self.entries@[i].0@));
            }
        }
        assert(ks.to_set() =~= self.view().dom());
        assert forall|i: int, j: int| 0 <= i < ks.len() && 0 <= j < ks.len() && i != j
            implies ks[i] != ks[j] by {
            if i < j {
                assert(self.entries@[i].0@ != self.entries@[j].0@);
            } else {
                assert(self.entries@[j].0@ != self.entries@[i].0@);
            }
        }
        ks.unique_seq_to_set();
    }

    /// An empty table.
    pub fn new() -> (t: Self)
        ensures
            t.wf(),
            t@ == Map::<Seq<char>, T>::empty(),
    {
        StrTable { entries: Vec::new(), contents: Ghost(Map::empty()) }
    }

    /// Number of keys.
    pub fn len(&self) -> (n: usize)
        requires
            self.wf(),
        ensures
            n == self@.dom().len(),
            n == self.key_seq().len(),
    {
        proof {
            self.lemma_order();
        }
        self.entries.len()
    }

    /// Position of `key` in table order.
    pub fn find(&self, key: &str) -> (r: Option<usize>)
        requires
            self.wf(),
        ensures
            r is Some <==> self@.contains_key(key@),
            r matches Some(i) ==> i < self.key_seq().len() && self.key_seq()[i as int] == key@,
    {
        let mut i: usize = 0;
        while i < self.entries.len()
            invariant
                self.wf(),
                i <= self.entries@.len(),
                forall|j: int| 0 <= j < i ==> self.entries@[j].0@ != key@,
            decreases self.entries@.len() - i,
        {
            if str_eq(self.entries[i].0.as_str(), key) {
                return Some(i);
            }
            i = i + 1;
        }
        proof {
            if self@.contains_key(key@) {
                let j = choose|j: int|
                    0 <= j < self.entries@.len() && #[trigger] self.entries@[j].0@ == key@;
                assert(self.entries@[j].0@ == key@);
            }
        }
        None
    }

    /// The key at position `i`.
    pub fn key_at(&self, i: usize) -> (k: &String)
        requires
            i < self.key_seq().len(),
        ensures
            k@ == self.key_seq()[i as int],
    {
        &self.entries[i].0
    }

    /// The value at position `i`.
    pub fn value_at(&self, i: usize) -> (v: &T)
        requires
            self.wf(),
            i < self.key_seq().len(),
        ensures
            *v == self.value_seq()[i as int],
            *v == self@[self.key_seq()[i as int]],
    {
        &self.entries[i].1
    }

    /// The value under `key`, if any.
    pub fn get(&self, key: &str) -> (r: Option<&T>)
        requires
            self.wf(),
        ensures
            r is Some <==> self@.contains_key(key@),
            r matches Some(v) ==> *v == self@[key@],
    {
        match self.find(key) {
            Some(i) => Some(self.value_at(i)),
            None => None,
        }
    }

    /// Puts `value` under `key`, replacing the value there; a new key goes
    /// last in table order.
    pub fn insert(&mut self, key: String, value: T)
        requires
            old(self).wf(),
        ensures
            final(self).wf(),
            final(self)@ == old(self)@.insert(key@, value),
    {
        let ghost k = key@;
        let ghost m = self.contents@.insert(k, value);
        match self.find(key.as_str()) {
            Some(i) => {
                let ghost old_entries = self.entries@;
                let _ = self.entries.remove(i);
                self.entries.insert(i, (key, value));
                let ghost e = self.entries@;
                assert(e == old_entries.update(i as int, (e[i as int].0, e[i as int].1)));
                assert forall|j: int| 0 <= j < e.len() && j != i implies e[j] == old_entries[j] by {}
                proof {
                    self.contents = Ghost(m);
                }
                assert forall|a: int, b: int| 0 <= a < b < e.len() implies #[trigger] e[a].0@
                    != #[trigger] e[b].0@ by {
                    if a == i {
                        assert(old_entries[a].0@ == k);
                    }
                    if b == i {
                        assert(old_entries[b].0@ == k);
                    }
                }
                assert forall|j: int| 0 <= j < e.len() implies m.contains_key(#[trigger] e[j].0@)
                    && m[e[j].0@] == e[j].1 by {
                    if j != i {
                        assert(e[j] == old_entries[j]);
                        assert(old_entries[i as int].0@ == k);
                        assert(old_entries[j].0@ != k);
                    }
                }
                assert forall|kk: Seq<char>| #[trigger] m.contains_key(kk) implies exists|j: int|
                    0 <= j < e.len() && #[trigger] e[j].0@ == kk by {
                    if kk == k {
                        assert(e[i as int].0@ == kk);
                    } else {
                        let j = choose|j: int|
                            0 <= j < old_entries.len() && #[trigger] old_entries[j].0@ == kk;
                        assert(e[j].0@ == kk);
                    }
                }
                assert(self.contents@ == m);
                assert(self.entries@ == e);
                assert(m.dom().finite());
                assert(self.wf());
            },
            None => {
                let ghost old_entries = self.entries@;
                self.entries.push((key, value));
                let ghost e = self.entries@;
                proof {
                    self.contents = Ghost(m);
                }
                assert forall|a: int, b: int| 0 <= a < b < e.len() implies #[trigger] e[a].0@
                    != #[trigger] e[b].0@ by {
                    if b == old_entries.len() {
                        assert(old(self).contents@.contains_key(old_entries[a].0@));
                    }
                }
                assert forall|j: int| 0 <= j < e.len() implies m.contains_key(#[trigger] e[j].0@)
                    && m[e[j].0@] == e[j].1 by {
                    if j < old_entries.len() {
                        assert(e[j] == old_entries[j]);
                        assert(old(self).contents@.contains_key(old_entries[j].0@));
                        assert(old_entries[j].0@ != k);
                    }
                }
                assert forall|kk: Seq<char>| #[trigger] m.contains_key(kk) implies exists|j: int|
                    0 <= j < e.len() && #[trigger] e[j].0@ == kk by {
                    if kk == k {
                        assert(e[old_entries.len() as int].0@ == kk);
                    } else {
                        let j = choose|j: int|
                            0 <= j < old_entries.len() && #[trigger] old_entries[j].0@ == kk;
                        assert(e[j].0@ == kk);
                    }
                }
                assert(self.contents@ == m);
                assert(self.entries@ == e);
                assert(m.dom().finite());
                assert(self.wf());
            },
        }
    }

    /// Removes `key` and gives back its value; the other keys keep their
    /// table order.
    pub fn remove(&mut self, key: &str) -> (r: Option<T>)
        requires
            old(self).wf(),
        ensures
            final(self).wf(),
            final(self)@ == old(self)@.remove(key@),
            r is Some <==> old(self)@.contains_key(key@),
            r matches Some(v) ==> v == old(self)@[key@],
    {
        let ghost k = key@;
        match self.find(key) {
            Some(i) => {
                let ghost old_entries = self.entries@;
                let ghost m = self.contents@.remove(k);
                let (_, v) = self.entries.remove(i);
                let ghost e = self.entries@;
                assert forall|j: int| 0 <= j < e.len() implies #[trigger] e[j] == old_entries[if j
                    < i {
                    j
                } else {
                    j + 1
                }] by {}
                proof {
                    self.contents = Ghost(m);
                }
                assert forall|a: int, b: int| 0 <= a < b < e.len() implies #[trigger] e[a].0@
                    != #[trigger] e[b].0@ by {
                    let a2 = if a < i {
                        a
                    } else {
                        a + 1
                    };
                    let b2 = if b < i {
                        b
                    } else {
                        b + 1
                    };
                    assert(e[a] == old_entries[a2]);
                    assert(e[b] == old_entries[b2]);
                    assert(old_entries[a2].0@ != old_entries[b2].0@);
                }
                assert forall|j: int| 0 <= j < e.len() implies m.contains_key(#[trigger] e[j].0@)
                    && m[e[j].0@] == e[j].1 by {
                    let j2 = if j < i {
                        j
                    } else {
                        j + 1
                    };
                    assert(e[j] == old_entries[j2]);
                    assert(old_entries[j2].0@ != old_entries[i as int].0@);
                }
                assert forall|kk: Seq<char>| #[trigger] m.contains_key(kk) implies exists|j: int|
                    0 <= j < e.len() && #[trigger] e[j].0@ == kk by {
                    let j = choose|j: int|
                        0 <= j < old_entries.len() && #[trigger] old_entries[j].0@ == kk;
                    assert(j != i);
                    let j2 = if j < i {
                        j
                    } else {
                        j - 1
                    };
                    assert(e[j2] == old_entries[j]);
                }
                assert(self.contents@ == m);
                assert(self.entries@ == e);
                assert(m.dom().finite());
                assert(self.wf());
                Some(v)
            },
            None => {
                assert(self.contents@.remove(k) =~= self.contents@);
                assert(self.wf());
                None
            },
        }
    }

    /// The keys, in table order.
    pub fn keys(&self) -> (ks: Vec<String>)
        ensures
            views_of(ks@) == self.key_seq(),
    {
        let mut ks: Vec<String> = Vec::new();
        let mut i: usize = 0;
        while i < self.entries.len()
            invariant
                i <= self.entries@.len(),
                ks@.len() == i,
                views_of(ks@) == self.key_seq().take(i as int),
            decreases self.entries@.len() - i,
        {
            let k = self.entries[i].0.clone();
            assert(k@ == self.key_seq()[i as int]);
            let ghost before = ks@;
            ks.push(k);
            assert forall|j: int| 0 <= j < i + 1 implies #[trigger] views_of(ks@)[j]
                == self.key_seq().take(i + 1)[j] by {
                if j < i {
                    assert(ks@[j] == before[j]);
                    assert(views_of(before)[j] == self.key_seq().take(i as int)[j]);
                }
            }
            assert(views_of(ks@) =~= self.key_seq().take(i + 1));
            i = i + 1;
        }
        assert(self.key_seq().take(i as int) =~= self.key_seq());
        ks
    }
}

} // verus!
