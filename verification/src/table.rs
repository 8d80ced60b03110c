//! Byte-keyed associative storage: the model of a contract's storage maps
//! and sets, keyed by the raw bytes of their (encoded) keys.
use vstd::prelude::*;

use crate::bytes::bytes_eq;

verus! {

/// A finite map from byte strings to values, kept as a list of distinct keys.
pub struct Table<V> {
    entries: Vec<(Vec<u8>, V)>,
    contents: Ghost<Map<Seq<u8>, V>>,
}

impl<V> Table<V> {
    /// The map the table stands for.
    pub closed spec fn view(&self) -> Map<Seq<u8>, V> {
        self.contents@
    }

    /// Keys are distinct and the ghost map mirrors the entries exactly.
    pub closed spec fn wf(&self) -> bool {
        &&& forall|i: int, j: int|
            0 <= i < self.entries@.len() && 0 <= j < self.entries@.len() && i != j
                ==> #[trigger] self.entries@[i].0@ != #[trigger] self.entries@[j].0@
        &&& forall|i: int|
            0 <= i < self.entries@.len() ==> {
                &&& self.contents@.contains_key(#[trigger] self.entries@[i].0@)
                &&& self.contents@[self.entries@[i].0@] == self.entries@[i].1
            }
        &&& forall|k: Seq<u8>|
            #[trigger] self.contents@.contains_key(k) ==> exists|i: int|
                0 <= i < self.entries@.len() && #[trigger] self.entries@[i].0@ == k
        &&& self.contents@.dom().finite()
        &&& self.contents@.dom().len() == self.entries@.len()
    }

    pub fn new() -> (t: Self)
        ensures
            t.wf(),
            t.view() == Map::<Seq<u8>, V>::empty(),
    {
        Table { entries: Vec::new(), contents: Ghost(Map::empty()) }
    }

    fn find(&self, key: &[u8]) -> (r: Option<usize>)
        requires
            self.wf(),
        ensures
            match r {
                Some(i) => i < self.entries@.len() && self.entries@[i as int].0@ == key@,
                None => !self.view().contains_key(key@),
            },
    {
        let mut i: usize = 0;
        while i < self.entries.len()
            invariant
                self.wf(),
                i <= self.entries@.len(),
                forall|j: int| 0 <= j < i ==> self.entries@[j].0@ != key@,
            decreases self.entries@.len() - i,
        {
            if bytes_eq(self.entries[i].0.as_slice(), key) {
                return Some(i);
            }
            i = i + 1;
        }
        None
    }

    pub fn len(&self) -> (n: usize)
        requires
            self.wf(),
        ensures
            n == self.view().len(),
    {
        self.entries.len()
    }

    pub fn contains_key(&self, key: &[u8]) -> (b: bool)
        requires
            self.wf(),
        ensures
            b == self.view().contains_key(key@),
    {
        match self.find(key) {
            Some(_) => true,
            None => false,
        }
    }

    pub fn get(&self, key: &[u8]) -> (r: Option<&V>)
        requires
            self.wf(),
        ensures
            match r {
                Some(v) => self.view().contains_key(key@) && *v == self.view()[key@],
                None => !self.view().contains_key(key@),
            },
    {
        match self.find(key) {
            Some(i) => Some(&self.entries[i].1),
            None => None,
        }
    }

    /// Removes the entry for `key`, handing its value back.
    pub fn take(&mut self, key: &[u8]) -> (r: Option<V>)
        requires
            old(self).wf(),
        ensures
            final(self).wf(),
            final(self).view() == old(self).view().remove(key@),
            match r {
                Some(v) => old(self).view().contains_key(key@) && v == old(self).view()[key@],
                None => !old(self).view().contains_key(key@),
            },
    {
        match self.find(key) {
            None => {
                proof {
                    assert(self.contents@.remove(key@) =~= self.contents@);
                }
                None
            },
            Some(i) => {
                let ghost old_entries = self.entries@;
                let ghost old_map = self.contents@;
                let (_k, v) = self.entries.swap_remove(i);
                self.contents = Ghost(old_map.remove(key@));
                proof {
                    let last = old_entries.len() - 1;
                    assert forall|a: int|
                        0 <= a < self.entries@.len() implies #[trigger] self.entries@[a]
                        == (if a == i as int { old_entries[last] } else { old_entries[a] }) by {}
                    assert forall|a: int, b: int|
                        0 <= a < self.entries@.len() && 0 <= b < self.entries@.len() && a != b
                            implies #[trigger] self.entries@[a].0@ != #[trigger] self.entries@[b].0@ by {
                        let ia = if a == i as int { last } else { a };
                        let ib = if b == i as int { last } else { b };
                        assert(old_entries[ia].0@ != old_entries[ib].0@);
                    }
                    assert forall|a: int|
                        0 <= a < self.entries@.len() implies {
                            &&& self.contents@.contains_key(#[trigger] self.entries@[a].0@)
                            &&& self.contents@[self.entries@[a].0@] == self.entries@[a].1
                        } by {
                        let ia = if a == i as int { last } else { a };
                        assert(old_entries[ia].0@ != old_entries[i as int].0@);
                    }
                    assert forall|k: Seq<u8>|
                        #[trigger] self.contents@.contains_key(k) implies exists|a: int|
                            0 <= a < self.entries@.len() && #[trigger] self.entries@[a].0@ == k by {
                        let j = choose|j: int| 0 <= j < old_entries.len() && #[trigger] old_entries[j].0@ == k;
                        assert(j != i as int);
                        if j == last {
                            assert(self.entries@[i as int].0@ == k);
                        } else {
                            assert(self.entries@[j].0@ == k);
                        }
                    }
                }
                Some(v)
            },
        }
    }

    /// Stores `value` under `key`, replacing any previous value.
    pub fn insert(&mut self, key: Vec<u8>, value: V)
        requires
            old(self).wf(),
        ensures
            final(self).wf(),
            final(self).view() == old(self).view().insert(key@, value),
    {
        let _ = self.take(key.as_slice());
        let ghost mid_entries = self.entries@;
        let ghost mid_map = self.contents@;
        let ghost k = key@;
        self.entries.push((key, value));
        self.contents = Ghost(mid_map.insert(k, value));
        proof {
            let n = mid_entries.len() as int;
            assert(!mid_map.contains_key(k));
            assert forall|a: int, b: int|
                0 <= a < self.entries@.len() && 0 <= b < self.entries@.len() && a != b
                    implies #[trigger] self.entries@[a].0@ != #[trigger] self.entries@[b].0@ by {
                if a == n {
                    assert(mid_map.contains_key(mid_entries[b].0@));
                } else if b == n {
                    assert(mid_map.contains_key(mid_entries[a].0@));
                }
            }
            assert forall|a: int|
                0 <= a < self.entries@.len() implies {
                    &&& self.contents@.contains_key(#[trigger] self.entries@[a].0@)
                    &&& self.contents@[self.entries@[a].0@] == self.entries@[a].1
                } by {
                if a < n {
                    assert(mid_map.contains_key(mid_entries[a].0@));
                }
            }
            assert forall|kk: Seq<u8>|
                #[trigger] self.contents@.contains_key(kk) implies exists|a: int|
                    0 <= a < self.entries@.len() && #[trigger] self.entries@[a].0@ == kk by {
                if kk == k {
                    assert(self.entries@[n].0@ == kk);
                } else {
                    let j = choose|j: int| 0 <= j < mid_entries.len() && #[trigger] mid_entries[j].0@ == kk;
                    assert(self.entries@[j].0@ == kk);
                }
            }
        }
    }

    /// Removes `key` if present.
    pub fn remove(&mut self, key: &[u8])
        requires
            old(self).wf(),
        ensures
            final(self).wf(),
            final(self).view() == old(self).view().remove(key@),
    {
        let _ = self.take(key);
    }

    /// Removes every entry.
    pub fn clear(&mut self)
        ensures
            final(self).wf(),
            final(self).view() == Map::<Seq<u8>, V>::empty(),
    {
        self.entries = Vec::new();
        self.contents = Ghost(Map::empty());
    }

    /// The key stored at position `i` of the table's internal order.
    pub fn key_at(&self, i: usize) -> (k: &Vec<u8>)
        requires
            self.wf(),
            i < self.view().len(),
        ensures
            self.view().contains_key(k@),
            k@ == self.key_seq()[i as int],
    {
        &self.entries[i].0
    }

    /// The keys in the table's internal order: each key of the map once.
    pub closed spec fn key_seq(&self) -> Seq<Seq<u8>> {
        Seq::new(self.entries@.len(), |i: int| self.entries@[i].0@)
    }

    pub proof fn lemma_key_seq(&self)
        requires
            self.wf(),
        ensures
            self.key_seq().len() == self.view().len(),
            self.key_seq().no_duplicates(),
            forall|k: Seq<u8>| self.view().contains_key(k) <==> self.key_seq().contains(k),
    {
        assert forall|k: Seq<u8>| self.view().contains_key(k) implies self.key_seq().contains(k) by {
            let j = choose|j: int| 0 <= j < self.entries@.len() && #[trigger] self.entries@[j].0@ == k;
            assert(self.key_seq()[j] == k);
        }
        assert forall|k: Seq<u8>| self.key_seq().contains(k) implies self.view().contains_key(k) by {
            let j = choose|j: int| 0 <= j < self.key_seq().len() && self.key_seq()[j] == k;
            assert(self.entries@[j].0@ == k);
        }
        assert forall|a: int, b: int|
            0 <= a < self.key_seq().len() && 0 <= b < self.key_seq().len() && a != b
                implies self.key_seq()[a] != self.key_seq()[b] by {
            assert(self.entries@[a].0@ != self.entries@[b].0@);
        }
    }

    /// A table holds finitely many keys.
    pub proof fn lemma_finite(&self)
        requires
            self.wf(),
        ensures
            self.view().dom().finite(),
    {
    }
}

} // verus!
