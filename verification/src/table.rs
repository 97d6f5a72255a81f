//! A map from text keys to values, kept as a list of entries in which no key
//! occurs twice.
use vstd::prelude::*;
use std::collections::HashSet;
use crate::text::same_text;
use crate::window::{retain_recent, survivors};

verus! {

/// A table of values keyed by text.  Its view is the map from each key's
/// characters to the view of the value stored under it.
pub struct StringTable<V> {
    keys: Vec<String>,
    values: Vec<V>,
}

impl<V: View> View for StringTable<V> {
    type V = Map<Seq<char>, V::V>;

    closed spec fn view(&self) -> Map<Seq<char>, V::V> {
        Map::new(|k: Seq<char>| self.has(k), |k: Seq<char>| self.values[self.index_of(k)]@)
    }
}

impl<V: View> StringTable<V> {
    /// The keys in the order of their entries, each as its characters.
    spec fn key_seq(&self) -> Seq<Seq<char>> {
        self.keys@.map_values(|k: String| k@)
    }

    /// Every key has its value, and no key occurs twice.
    pub closed spec fn wf(&self) -> bool {
        &&& self.keys.len() == self.values.len()
        &&& self.key_seq().no_duplicates()
    }

    /// The key `k` is stored at position `i`.
    spec fn at(&self, i: int, k: Seq<char>) -> bool {
        0 <= i < self.keys.len() && self.keys[i]@ == k
    }

    spec fn has(&self, k: Seq<char>) -> bool {
        exists|i: int| self.at(i, k)
    }

    spec fn index_of(&self, k: Seq<char>) -> int {
        choose|i: int| self.at(i, k)
    }

    proof fn lemma_position(&self, i: int)
        requires
            self.wf(),
            0 <= i < self.keys.len(),
        ensures
            self.has(self.keys[i]@),
            self.index_of(self.keys[i]@) == i,
            self@.contains_key(self.keys[i]@),
            self@[self.keys[i]@] == self.values[i]@,
    {
        let k = self.keys[i]@;
        assert(self.at(i, k));
        let j = self.index_of(k);
        assert(self.at(j, k));
        assert(self.key_seq()[i] == k);
        assert(self.key_seq()[j] == k);
    }

    /// The view has as many keys as the table has entries.
    proof fn lemma_len(&self)
        requires
            self.wf(),
        ensures
            self@.dom().finite(),
            self@.dom().len() == self.keys.len(),
    {
        let ks = self.key_seq();
        assert forall|k: Seq<char>| self@.dom().contains(k) <==> ks.to_set().contains(k) by {
            if self.has(k) {
                let i = self.index_of(k);
                assert(self.at(i, k));
                assert(ks[i] == k);
            }
            if ks.contains(k) {
                let i = choose|i: int| 0 <= i < ks.len() && ks[i] == k;
                assert(self.at(i, k));
            }
        }
        assert(self@.dom() =~= ks.to_set());
        ks.unique_seq_to_set();
    }

    /// A table without entries.
    pub fn new() -> (table: Self)
        ensures
            table.wf(),
            table@ == Map::<Seq<char>, V::V>::empty(),
    {
        let table = StringTable { keys: Vec::new(), values: Vec::new() };
        assert(table@ =~= Map::<Seq<char>, V::V>::empty());
        table
    }

    fn find(&self, key: &str) -> (slot: Option<usize>)
        requires
            self.wf(),
        ensures
            match slot {
                Some(i) => self.at(i as int, key@),
                None => !self.has(key@),
            },
    {
        let mut i: usize = 0;
        while i < self.keys.len()
            invariant
                i <= self.keys.len(),
                forall|j: int| 0 <= j < i ==> !self.at(j, key@),
            decreases self.keys.len() - i,
        {
            if same_text(self.keys[i].as_str(), key) {
                return Some(i);
            }
            i += 1;
        }
        None
    }

    /// Whether a value is stored under `key`.
    pub fn contains_key(&self, key: &str) -> (found: bool)
        requires
            self.wf(),
        ensures
            found == self@.contains_key(key@),
    {
        self.find(key).is_some()
    }

    /// The value stored under `key`, if there is one.
    pub fn get(&self, key: &str) -> (value: Option<&V>)
        requires
            self.wf(),
        ensures
            value.is_some() == self@.contains_key(key@),
            value matches Some(v) ==> v@ == self@[key@],
    {
        match self.find(key) {
            Some(i) => {
                proof {
                    self.lemma_position(i as int);
                }
                Some(&self.values[i])
            },
            None => None,
        }
    }

    /// The number of entries.
    pub fn len(&self) -> (n: usize)
        requires
            self.wf(),
        ensures
            n == self@.len(),
            self@.dom().finite(),
    {
        proof {
            self.lemma_len();
        }
        self.keys.len()
    }

    /// Whether the table has no entry.
    pub fn is_empty(&self) -> (empty: bool)
        requires
            self.wf(),
        ensures
            empty == (self@ == Map::<Seq<char>, V::V>::empty()),
    {
        proof {
            self.lemma_len();
            if self.keys.len() == 0 {
                assert(self@ =~= Map::<Seq<char>, V::V>::empty());
            }
        }
        self.keys.len() == 0
    }

    /// Stores `value` under `key`, in place of the value that was there.
    pub fn insert(&mut self, key: String, value: V)
        requires
            old(self).wf(),
        ensures
            final(self).wf(),
            final(self)@ == old(self)@.insert(key@, value@),
    {
        let ghost before = *self;
        match self.find(key.as_str()) {
            Some(i) => {
                self.values[i] = value;
                proof {
                    assert(self.key_seq() == before.key_seq());
                    assert forall|k: Seq<char>| self.has(k) <==> before.has(k) by {
                        if self.has(k) {
                            assert(before.at(self.index_of(k), k));
                        }
                        if before.has(k) {
                            assert(self.at(before.index_of(k), k));
                        }
                    }
                    assert forall|k: Seq<char>| self@.contains_key(k) implies self@[k]
                        == before@.insert(key@, value@)[k] by {
                        let j = self.index_of(k);
                        assert(self.at(j, k));
                        self.lemma_position(j);
                        before.lemma_position(j);
                        if j != i {
                            assert(before.key_seq()[j] != before.key_seq()[i as int]);
                        }
                    }
                    before.lemma_position(i as int);
                    assert(self@ =~= before@.insert(key@, value@));
                }
            },
            None => {
                self.keys.push(key);
                self.values.push(value);
                proof {
                    let n = before.keys.len() as int;
                    assert(self.key_seq() =~= before.key_seq().push(key@));
                    assert forall|a: int, b: int|
                        0 <= a < self.key_seq().len() && 0 <= b < self.key_seq().len() && a
                            != b implies self.key_seq()[a] != self.key_seq()[b] by {
                        if a < n && b < n {
                            assert(before.key_seq()[a] != before.key_seq()[b]);
                        } else if a < n {
                            assert(!before.at(a, key@));
                        } else {
                            assert(!before.at(b, key@));
                        }
                    }
                    assert forall|k: Seq<char>|
                        self@.contains_key(k) <==> before@.insert(key@, value@).contains_key(
                            k,
                        ) by {
                        if self.has(k) {
                            let j = self.index_of(k);
                            assert(self.at(j, k));
                            if j < n {
                                assert(before.at(j, k));
                            }
                        }
                        if before.has(k) {
                            assert(self.at(before.index_of(k), k));
                        }
                        if k == key@ {
                            assert(self.at(n, k));
                        }
                    }
                    assert forall|k: Seq<char>| self@.contains_key(k) implies self@[k]
                        == before@.insert(key@, value@)[k] by {
                        let j = self.index_of(k);
                        assert(self.at(j, k));
                        self.lemma_position(j);
                        if j < n {
                            before.lemma_position(j);
                        }
                    }
                    assert(self@ =~= before@.insert(key@, value@));
                }
            },
        }
    }

    /// Takes the entry of `key` out of the table and returns its value.
    pub fn remove(&mut self, key: &str) -> (value: Option<V>)
        requires
            old(self).wf(),
        ensures
            final(self).wf(),
            final(self)@ == old(self)@.remove(key@),
            value.is_some() == old(self)@.contains_key(key@),
            value matches Some(v) ==> v@ == old(self)@[key@],
    {
        let ghost before = *self;
        match self.find(key) {
            Some(i) => {
                self.keys.remove(i);
                let value = self.values.remove(i);
                proof {
                    before.lemma_position(i as int);
                    assert(self.key_seq() =~= before.key_seq().remove(i as int));
                    assert forall|a: int, b: int|
                        0 <= a < self.key_seq().len() && 0 <= b < self.key_seq().len() && a
                            != b implies self.key_seq()[a] != self.key_seq()[b] by {
                        let a0 = if a < i { a } else { a + 1 };
                        let b0 = if b < i { b } else { b + 1 };
                        assert(before.key_seq()[a0] != before.key_seq()[b0]);
                    }
                    assert forall|k: Seq<char>|
                        self@.contains_key(k) <==> before@.remove(key@).contains_key(k) by {
                        if self.has(k) {
                            let j = self.index_of(k);
                            assert(self.at(j, k));
                            let j0 = if j < i { j } else { j + 1 };
                            assert(before.at(j0, k));
                            assert(before.key_seq()[j0] != before.key_seq()[i as int]);
                        }
                        if before.has(k) && k != key@ {
                            let j0 = before.index_of(k);
                            assert(before.at(j0, k));
                            let j = if j0 < i { j0 } else { j0 - 1 };
                            assert(self.at(j, k));
                        }
                    }
                    assert forall|k: Seq<char>| self@.contains_key(k) implies self@[k]
                        == before@.remove(key@)[k] by {
                        let j = self.index_of(k);
                        assert(self.at(j, k));
                        self.lemma_position(j);
                        let j0 = if j < i { j } else { j + 1 };
                        before.lemma_position(j0);
                    }
                    assert(self@ =~= before@.remove(key@));
                }
                Some(value)
            },
            None => {
                assert(self@ =~= before@.remove(key@));
                None
            },
        }
    }
}

/// The step that `evict_all` applies to the timestamps of each entry.
pub open spec fn evictor(now: i128, secs: u64) -> spec_fn(Seq<i128>) -> Seq<i128> {
    |times: Seq<i128>| survivors(times, now, secs)
}

impl StringTable<Vec<i128>> {
    /// Evicts from every entry the timestamps that have left the window of
    /// `secs` seconds ending at `now`.  No entry is removed.
    pub fn evict_all(&mut self, now: i128, secs: u64)
        requires
            old(self).wf(),
        ensures
            final(self).wf(),
            final(self)@ == old(self)@.map_values(evictor(now, secs)),
    {
        let ghost before = *self;
        let mut i: usize = 0;
        while i < self.values.len()
            invariant
                i <= self.values.len(),
                before.wf(),
                self.keys == before.keys,
                self.values.len() == before.values.len(),
                forall|j: int| 0 <= j < i ==> #[trigger] self.values[j]@ == survivors(before.values[j]@, now, secs),
                forall|j: int| i <= j < self.values.len() ==> #[trigger] self.values[j] == before.values[j],
            decreases self.values.len() - i,
        {
            let kept = retain_recent(&self.values[i], now, secs);
            self.values[i] = kept;
            i += 1;
        }
        proof {
            assert(self.key_seq() == before.key_seq());
            assert forall|k: Seq<char>|
                self@.contains_key(k) <==> before@.map_values(evictor(now, secs)).contains_key(
                    k,
                ) by {
                if self.has(k) {
                    assert(before.at(self.index_of(k), k));
                }
                if before.has(k) {
                    assert(self.at(before.index_of(k), k));
                }
            }
            assert forall|k: Seq<char>| self@.contains_key(k) implies self@[k]
                == before@.map_values(evictor(now, secs))[k] by {
                let j = self.index_of(k);
                assert(self.at(j, k));
                self.lemma_position(j);
                before.lemma_position(j);
            }
            assert(self@ =~= before@.map_values(evictor(now, secs)));
        }
    }
}

/// The keys of `table` whose set of ports is empty.
pub open spec fn idle_keys(table: Map<Seq<char>, Set<u16>>) -> Set<Seq<char>> {
    Set::new(|k: Seq<char>| table.contains_key(k) && table[k] == Set::<u16>::empty())
}

impl StringTable<HashSet<u16>> {
    /// The keys whose set is empty.
    fn idle(&self) -> (idle: Vec<String>)
        requires
            self.wf(),
        ensures
            forall|k: Seq<char>|
                idle_keys(self@).contains(k) <==> exists|j: int|
                    0 <= j < idle.len() && #[trigger] idle[j]@ == k,
    {
        let mut idle: Vec<String> = Vec::new();
        let mut i: usize = 0;
        while i < self.keys.len()
            invariant
                i <= self.keys.len(),
                self.wf(),
                forall|j: int| 0 <= j < idle.len() ==> idle_keys(self@).contains(#[trigger] idle[j]@),
                forall|n: int|
                    0 <= n < i && self.values[n]@ == Set::<u16>::empty() ==> exists|j: int|
                        0 <= j < idle.len() && #[trigger] idle[j]@ == self.keys[n]@,
            decreases self.keys.len() - i,
        {
            proof {
                self.lemma_position(i as int);
            }
            if self.values[i].is_empty() {
                let ghost earlier = idle@;
                idle.push(self.keys[i].clone());
                proof {
                    let last = idle.len() - 1;
                    assert(idle[last]@ == self.keys[i as int]@);
                    assert forall|n: int|
                        0 <= n < i + 1 && self.values[n]@ == Set::<u16>::empty() implies exists|
                        j: int,
                    |
                        0 <= j < idle.len() && #[trigger] idle[j]@ == self.keys[n]@ by {
                        if n < i {
                            let j = choose|j: int|
                                0 <= j < earlier.len() && #[trigger] earlier[j]@ == self.keys[n]@;
                            assert(idle[j]@ == self.keys[n]@);
                        } else {
                            assert(idle[last]@ == self.keys[n]@);
                        }
                    }
                }
            }
            i += 1;
        }
        proof {
            assert forall|k: Seq<char>| idle_keys(self@).contains(k) implies exists|j: int|
                0 <= j < idle.len() && #[trigger] idle[j]@ == k by {
                let n = self.index_of(k);
                assert(self.at(n, k));
                self.lemma_position(n);
            }
        }
        idle
    }

    /// Removes the entries whose set of ports is empty.
    pub fn drop_empty(&mut self)
        requires
            old(self).wf(),
        ensures
            final(self).wf(),
            final(self)@ == old(self)@.remove_keys(idle_keys(old(self)@)),
    {
        let ghost before = self@;
        let idle = self.idle();
        let mut i: usize = 0;
        while i < idle.len()
            invariant
                i <= idle.len(),
                self.wf(),
                forall|k: Seq<char>|
                    idle_keys(before).contains(k) <==> exists|j: int|
                        0 <= j < idle.len() && #[trigger] idle[j]@ == k,
                self@ == before.remove_keys(
                    Set::new(|k: Seq<char>| exists|j: int| 0 <= j < i && #[trigger] idle[j]@ == k),
                ),
            decreases idle.len() - i,
        {
            let ghost so_far = self@;
            self.remove(idle[i].as_str());
            proof {
                let done = Set::new(
                    |k: Seq<char>| exists|j: int| 0 <= j < i && #[trigger] idle[j]@ == k,
                );
                let next = Set::new(
                    |k: Seq<char>| exists|j: int| 0 <= j < i + 1 && #[trigger] idle[j]@ == k,
                );
                assert forall|k: Seq<char>| next.contains(k) <==> (done.contains(k) || k
                    == idle[i as int]@) by {
                    if done.contains(k) {
                        let j = choose|j: int| 0 <= j < i && #[trigger] idle[j]@ == k;
                        assert(idle[j]@ == k);
                    }
                    if k == idle[i as int]@ {
                        assert(idle[i as int]@ == k);
                    }
                }
                assert(self@ =~= before.remove_keys(next));
            }
            i += 1;
        }
        proof {
            let all = Set::new(
                |k: Seq<char>| exists|j: int| 0 <= j < idle.len() && #[trigger] idle[j]@ == k,
            );
            assert(all =~= idle_keys(before));
        }
    }
}

} // verus!
