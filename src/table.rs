use vstd::prelude::*;
use crate::hash::TableKey;

verus! {

/// One column of the store: a finite map from keys to values, kept as a list
/// of entries with distinct keys.
#[verifier::reject_recursive_types(K)]
pub struct Table<K, V> {
    entries: Vec<(K, V)>,
    contents: Ghost<Map<K, V>>,
}

impl<K, V> View for Table<K, V> {
    type V = Map<K, V>;

    closed spec fn view(&self) -> Map<K, V> {
        self.contents@
    }
}

impl<K: TableKey, V> Table<K, V> {
    /// The entries' keys are distinct and the entries are exactly the map.
    pub closed spec fn wf(&self) -> bool {
        &&& forall|i: int, j: int|
            0 <= i < self.entries@.len() && 0 <= j < self.entries@.len() && i != j
                ==> #[trigger] self.entries@[i].0 != #[trigger] self.entries@[j].0
        &&& forall|i: int|
            0 <= i < self.entries@.len() ==> {
                &&& self.contents@.contains_key(#[trigger] self.entries@[i].0)
                &&& self.contents@[self.entries@[i].0] == self.entries@[i].1
            }
        &&& forall|k: K|
            #[trigger] self.contents@.contains_key(k) ==> exists|i: int|
                0 <= i < self.entries@.len() && #[trigger] self.entries@[i].0 == k
    }

    pub fn new() -> (t: Self)
        ensures
            t.wf(),
            t@ == Map::<K, V>::empty(),
    {
        Table { entries: Vec::new(), contents: Ghost(Map::empty()) }
    }

    fn find(&self, k: &K) -> (r: Option<usize>)
        requires
            self.wf(),
        ensures
            match r {
                Some(i) => i < self.entries@.len() && self.entries@[i as int].0 == *k,
                None => !self@.contains_key(*k),
            },
    {
        let mut i: usize = 0;
        while i < self.entries.len()
            invariant
                self.wf(),
                i <= self.entries@.len(),
                forall|j: int| 0 <= j < i ==> self.entries@[j].0 != *k,
            decreases self.entries@.len() - i,
        {
            if self.entries[i].0.same(k) {
                return Some(i);
            }
            i = i + 1;
        }
        None
    }

    /// The value stored under `k`, if any.
    pub fn get(&self, k: &K) -> (r: Option<&V>)
        requires
            self.wf(),
        ensures
            match r {
                Some(v) => self@.contains_key(*k) && *v == self@[*k],
                None => !self@.contains_key(*k),
            },
    {
        match self.find(k) {
            Some(i) => Some(&self.entries[i].1),
            None => None,
        }
    }

    /// Stores `v` under `k`, replacing any earlier value.
    pub fn set(&mut self, k: K, v: V)
        requires
            old(self).wf(),
        ensures
            final(self).wf(),
            final(self)@ == old(self)@.insert(k, v),
    {
        let ghost before = self.entries@;
        match self.find(&k) {
            Some(i) => {
                self.entries.remove(i);
                self.entries.insert(i, (k, v));
                proof {
                    assert(self.entries@ =~= before.update(i as int, (k, v)));
                }
            },
            None => {
                self.entries.push((k, v));
            },
        }
        self.contents = Ghost(self.contents@.insert(k, v));
        proof {
            assert forall|kk: K| #[trigger] self.contents@.contains_key(kk) implies exists|i: int|
                0 <= i < self.entries@.len() && #[trigger] self.entries@[i].0 == kk by {
                if kk != k {
                    let i = choose|i: int| 0 <= i < before.len() && #[trigger] before[i].0 == kk;
                    assert(self.entries@[i].0 == kk);
                } else {
                    let i = if before.len() < self.entries@.len() { before.len() as int } else {
                        choose|i: int| 0 <= i < before.len() && #[trigger] before[i].0 == k
                    };
                    assert(self.entries@[i].0 == kk);
                }
            }
        }
    }

    /// Removes whatever is stored under `k`.
    pub fn remove(&mut self, k: &K)
        requires
            old(self).wf(),
        ensures
            final(self).wf(),
            final(self)@ == old(self)@.remove(*k),
    {
        let ghost before = self.entries@;
        match self.find(k) {
            Some(i) => {
                self.entries.remove(i);
                self.contents = Ghost(self.contents@.remove(*k));
                proof {
                    assert forall|kk: K| #[trigger] self.contents@.contains_key(kk) implies exists|j: int|
                        0 <= j < self.entries@.len() && #[trigger] self.entries@[j].0 == kk by {
                        let j = choose|j: int| 0 <= j < before.len() && #[trigger] before[j].0 == kk;
                        if j < i {
                            assert(self.entries@[j].0 == kk);
                        } else {
                            assert(self.entries@[j - 1].0 == kk);
                        }
                    }
                }
            },
            None => {
                assert(self.contents@.remove(*k) =~= self.contents@);
            },
        }
    }
}

} // verus!
