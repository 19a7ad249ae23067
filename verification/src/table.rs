//! A finite map held as a vector of key/value entries whose keys are
//! pairwise distinct (by their views).

use vstd::prelude::*;

verus! {

/// A key type whose equality can be decided on its view.
pub trait LedgerKey: View + Sized {
    fn same_key(&self, other: &Self) -> (r: bool)
        ensures
            r == (self@ == other@),
    ;
}

impl LedgerKey for u64 {
    fn same_key(&self, other: &Self) -> (r: bool) {
        *self == *other
    }
}

/// Association table: a vector of entries with distinct keys.
pub struct Table<K, V> {
    entries: Vec<(K, V)>,
}

impl<K: LedgerKey, V: View> View for Table<K, V> {
    type V = Map<K::V, V::V>;

    /// The map from key views to value views.
    closed spec fn view(&self) -> Map<K::V, V::V> {
        Map::new(|k: K::V| self.has_key(k), |k: K::V| self.entries@[self.index_of(k)].1@)
    }
}

impl<K: LedgerKey, V: View> Table<K, V> {
    /// The key (as a view) stored at position `i`.
    pub closed spec fn key_at(&self, i: int) -> K::V {
        self.entries@[i].0@
    }

    /// No two entries share a key.
    pub closed spec fn wf(&self) -> bool {
        forall|i: int, j: int|
            0 <= i < self.entries@.len() && 0 <= j < self.entries@.len() && i != j
                ==> #[trigger] self.key_at(i) != #[trigger] self.key_at(j)
    }

    closed spec fn has_key(&self, k: K::V) -> bool {
        exists|i: int| 0 <= i < self.entries@.len() && #[trigger] self.key_at(i) == k
    }

    closed spec fn index_of(&self, k: K::V) -> int {
        choose|i: int| 0 <= i < self.entries@.len() && #[trigger] self.key_at(i) == k
    }

    proof fn lemma_index_of(&self, i: int)
        requires
            self.wf(),
            0 <= i < self.entries@.len(),
        ensures
            self.view().contains_key(self.key_at(i)),
            self.index_of(self.key_at(i)) == i,
            self.view()[self.key_at(i)] == self.entries@[i].1@,
    {
        let k = self.key_at(i);
        assert(self.has_key(k));
        let j = self.index_of(k);
        assert(self.key_at(j) == k);
    }

    /// The empty table.
    pub fn new() -> (t: Self)
        ensures
            t.wf(),
            t.view() == Map::<K::V, V::V>::empty(),
    {
        let t = Table { entries: Vec::new() };
        assert(t.view() =~= Map::<K::V, V::V>::empty());
        t
    }

    /// Position of the entry for `k`, if there is one.
    fn find(&self, k: &K) -> (r: Option<usize>)
        requires
            self.wf(),
        ensures
            match r {
                Some(i) => i < self.entries@.len() && self.key_at(i as int) == k@
                    && self.view().contains_key(k@),
                None => !self.view().contains_key(k@),
            },
    {
        let mut i: usize = 0;
        while i < self.entries.len()
            invariant
                i <= self.entries@.len(),
                forall|j: int| 0 <= j < i ==> #[trigger] self.key_at(j) != k@,
            decreases self.entries@.len() - i,
        {
            if self.entries[i].0.same_key(k) {
                assert(self.key_at(i as int) == k@);
                assert(self.has_key(k@));
                return Some(i);
            }
            i = i + 1;
        }
        proof {
            if self.has_key(k@) {
                let j = self.index_of(k@);
                assert(self.key_at(j) == k@);
            }
        }
        None
    }

    /// Whether `k` has an entry.
    pub fn contains(&self, k: &K) -> (r: bool)
        requires
            self.wf(),
        ensures
            r == self.view().contains_key(k@),
    {
        self.find(k).is_some()
    }

    /// The value stored for `k`, if any.
    pub fn get(&self, k: &K) -> (r: Option<&V>)
        requires
            self.wf(),
        ensures
            r.is_some() == self.view().contains_key(k@),
            r matches Some(v) ==> v@ == self.view()[k@],
    {
        match self.find(k) {
            Some(i) => {
                proof {
                    self.lemma_index_of(i as int);
                }
                Some(&self.entries[i].1)
            },
            None => None,
        }
    }

    /// Adds an entry for a key that has none yet.
    pub fn insert_new(&mut self, k: K, v: V)
        requires
            old(self).wf(),
            !old(self).view().contains_key(k@),
        ensures
            final(self).wf(),
            final(self).view() == old(self).view().insert(k@, v@),
    {
        let ghost pre = *self;
        let ghost kv = k@;
        let ghost vv = v@;
        self.entries.push((k, v));
        let ghost n = pre.entries@.len() as int;
        assert forall|i: int| 0 <= i < n implies #[trigger] self.key_at(i) == pre.key_at(i) by {}
        assert(self.key_at(n) == kv);
        assert forall|i: int| 0 <= i < n implies #[trigger] pre.key_at(i) != kv by {
            if pre.key_at(i) == kv {
                assert(pre.has_key(kv));
            }
        }
        assert(self.wf());
        assert forall|key: K::V| #[trigger] self.view().contains_key(key)
            == pre.view().insert(kv, vv).contains_key(key) by {
            if key != kv && self.has_key(key) {
                let j = self.index_of(key);
                assert(pre.key_at(j) == key);
            }
            if pre.has_key(key) {
                let j = pre.index_of(key);
                assert(self.key_at(j) == key);
            }
            if key == kv {
                assert(self.key_at(n) == kv);
            }
        }
        assert forall|key: K::V| #[trigger] self.view().contains_key(key)
            implies self.view()[key] == pre.view().insert(kv, vv)[key] by {
            if key == kv {
                self.lemma_index_of(n);
            } else {
                let j = self.index_of(key);
                assert(self.key_at(j) == key);
                self.lemma_index_of(j);
                pre.lemma_index_of(j);
            }
        }
        assert(self.view() =~= pre.view().insert(kv, vv));
    }

    /// Replaces the value of a key that has an entry.
    pub fn replace(&mut self, k: &K, v: V)
        requires
            old(self).wf(),
            old(self).view().contains_key(k@),
        ensures
            final(self).wf(),
            final(self).view() == old(self).view().insert(k@, v@),
    {
        let ghost pre = *self;
        let ghost vv = v@;
        let i = self.find(k).unwrap();
        self.entries[i].1 = v;
        let ghost n = pre.entries@.len() as int;
        assert forall|j: int| 0 <= j < n implies #[trigger] self.key_at(j) == pre.key_at(j) by {}
        assert(self.wf());
        assert forall|key: K::V| #[trigger] self.view().contains_key(key)
            == pre.view().insert(k@, vv).contains_key(key) by {
            if self.has_key(key) {
                let j = self.index_of(key);
                assert(pre.key_at(j) == key);
            }
            if pre.has_key(key) {
                let j = pre.index_of(key);
                assert(self.key_at(j) == key);
            }
        }
        assert forall|key: K::V| #[trigger] self.view().contains_key(key)
            implies self.view()[key] == pre.view().insert(k@, vv)[key] by {
            let j = self.index_of(key);
            assert(self.key_at(j) == key);
            self.lemma_index_of(j);
            pre.lemma_index_of(j);
        }
        assert(self.view() =~= pre.view().insert(k@, vv));
    }
}

} // verus!
