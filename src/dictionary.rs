//! A dictionary keyed by a short path of addresses (one address for a balance,
//! owner and spender for an allowance).
use vstd::prelude::*;

use crate::address::{views, Address};

verus! {

/// Whether two paths name the same addresses.
pub fn same_path(a: &Vec<Address>, b: &Vec<Address>) -> (r: bool)
    ensures
        r == (views(a@) == views(b@)),
{
    if a.len() != b.len() {
        proof {
            assert(views(a@).len() != views(b@).len());
        }
        return false;
    }
    let mut i: usize = 0;
    while i < a.len()
        invariant
            a@.len() == b@.len(),
            i <= a@.len(),
            forall|j: int| 0 <= j < i ==> a@[j]@ == b@[j]@,
        decreases a@.len() - i,
    {
        if !a[i].same(&b[i]) {
            proof {
                assert(views(a@)[i as int] != views(b@)[i as int]);
            }
            return false;
        }
        i += 1;
    }
    assert(views(a@) =~= views(b@));
    true
}

/// A copy of a path.
pub fn copy_path(a: &Vec<Address>) -> (r: Vec<Address>)
    ensures
        views(r@) == views(a@),
{
    let mut r: Vec<Address> = Vec::new();
    let mut i: usize = 0;
    while i < a.len()
        invariant
            i <= a@.len(),
            r@.len() == i,
            forall|j: int| 0 <= j < i ==> r@[j]@ == a@[j]@,
        decreases a@.len() - i,
    {
        r.push(a[i].duplicate());
        i += 1;
    }
    assert(views(r@) =~= views(a@));
    r
}

/// Entries from paths to values, no path twice.
pub struct Dictionary<V> {
    entries: Vec<(Vec<Address>, V)>,
}

impl<V: Copy> Dictionary<V> {
    spec fn key_at(self, i: int) -> Seq<Seq<u8>> {
        views(self.entries@[i].0@)
    }

    /// No two entries have the same path.
    pub closed spec fn wf(self) -> bool {
        forall|i: int, j: int|
            0 <= i < self.entries@.len() && 0 <= j < self.entries@.len() && i != j ==> self.key_at(i)
                != self.key_at(j)
    }

    /// What the dictionary holds, by path.
    pub closed spec fn view(self) -> Map<Seq<Seq<u8>>, V> {
        Map::new(
            |k: Seq<Seq<u8>>| exists|i: int| 0 <= i < self.entries@.len() && self.key_at(i) == k,
            |k: Seq<Seq<u8>>|
                self.entries@[choose|i: int| 0 <= i < self.entries@.len() && self.key_at(i) == k].1,
        )
    }

    /// The stored values, in the order of their entries.
    pub closed spec fn values(self) -> Seq<V> {
        Seq::new(self.entries@.len(), |i: int| self.entries@[i].1)
    }

    /// The position among [`Self::values`] of the value stored under `k`.
    pub closed spec fn slot_of(self, k: Seq<Seq<u8>>) -> int {
        choose|i: int| 0 <= i < self.entries@.len() && self.key_at(i) == k
    }

    pub proof fn lemma_slot_of(self, k: Seq<Seq<u8>>)
        requires
            self.wf(),
            self.view().contains_key(k),
        ensures
            0 <= self.slot_of(k) < self.values().len(),
            self.values()[self.slot_of(k)] == self.view()[k],
    {
        let c = choose|i: int| 0 <= i < self.entries@.len() && self.key_at(i) == k;
        self.lemma_entry_value(c);
    }

    /// Different paths are stored at different positions.
    pub proof fn lemma_slots_distinct(self, k1: Seq<Seq<u8>>, k2: Seq<Seq<u8>>)
        requires
            self.wf(),
            self.view().contains_key(k1),
            self.view().contains_key(k2),
            k1 != k2,
        ensures
            self.slot_of(k1) != self.slot_of(k2),
    {
        let c1 = choose|i: int| 0 <= i < self.entries@.len() && self.key_at(i) == k1;
        let c2 = choose|i: int| 0 <= i < self.entries@.len() && self.key_at(i) == k2;
        assert(self.key_at(c1) == k1 && self.key_at(c2) == k2);
    }

    pub fn new() -> (r: Dictionary<V>)
        ensures
            r.wf(),
            r.view() == Map::<Seq<Seq<u8>>, V>::empty(),
            r.values() == Seq::<V>::empty(),
    {
        let r = Dictionary { entries: Vec::new() };
        assert(r.view() =~= Map::<Seq<Seq<u8>>, V>::empty());
        assert(r.values() =~= Seq::<V>::empty());
        r
    }

    fn find(&self, key: &Vec<Address>) -> (r: Option<usize>)
        requires
            self.wf(),
        ensures
            r is None ==> !self.view().contains_key(views(key@)),
            r is Some ==> r->Some_0 < self.entries@.len() && self.key_at(r->Some_0 as int) == views(
                key@,
            ),
    {
        let mut i: usize = 0;
        while i < self.entries.len()
            invariant
                i <= self.entries@.len(),
                forall|j: int| 0 <= j < i ==> self.key_at(j) != views(key@),
            decreases self.entries@.len() - i,
        {
            if same_path(&self.entries[i].0, key) {
                return Some(i);
            }
            i += 1;
        }
        None
    }

    proof fn lemma_entry_value(self, i: int)
        requires
            self.wf(),
            0 <= i < self.entries@.len(),
        ensures
            self.view().contains_key(self.key_at(i)),
            self.view()[self.key_at(i)] == self.entries@[i].1,
    {
        let k = self.key_at(i);
        assert(self.view().contains_key(k));
        let c = choose|c: int| 0 <= c < self.entries@.len() && self.key_at(c) == k;
        assert(c == i);
    }

    /// The value stored under `key`, if any.
    pub fn get(&self, key: &Vec<Address>) -> (r: Option<V>)
        requires
            self.wf(),
        ensures
            r is Some <==> self.view().contains_key(views(key@)),
            r is Some ==> r->Some_0 == self.view()[views(key@)],
    {
        match self.find(key) {
            Some(i) => {
                proof {
                    self.lemma_entry_value(i as int);
                }
                Some(self.entries[i].1)
            },
            None => None,
        }
    }

    /// Stores `value` under `key`, in place of what was there.
    pub fn set(&mut self, key: &Vec<Address>, value: V)
        requires
            old(self).wf(),
        ensures
            final(self).wf(),
            final(self).view() == old(self).view().insert(views(key@), value),
            final(self).values() == if old(self).view().contains_key(views(key@)) {
                old(self).values().update(old(self).slot_of(views(key@)), value)
            } else {
                old(self).values().push(value)
            },
    {
        let ghost k = views(key@);
        match self.find(key) {
            Some(i) => {
                let path = copy_path(key);
                self.entries.set(i, (path, value));
                proof {
                    assert(self.key_at(i as int) == k);
                    assert forall|a: int|
                        0 <= a < self.entries@.len() && a != i implies self.key_at(a) == old(
                            self,
                        ).key_at(a) && self.entries@[a] == old(self).entries@[a] by {}
                    assert(self.wf());
                    assert forall|q: Seq<Seq<u8>>|
                        #![trigger self.view().contains_key(q)]
                        self.view().contains_key(q) == old(self).view().insert(k, value).contains_key(q)
                            && (self.view().contains_key(q) ==> self.view()[q] == old(self).view().insert(k, value)[q]) by {
                        if q == k {
                            self.lemma_entry_value(i as int);
                        } else if old(self).view().contains_key(q) {
                            let c = choose|c: int|
                                0 <= c < old(self).entries@.len() && old(self).key_at(c) == q;
                            old(self).lemma_entry_value(c);
                            self.lemma_entry_value(c);
                        } else if self.view().contains_key(q) {
                            let c = choose|c: int| 0 <= c < self.entries@.len() && self.key_at(c) == q;
                            assert(old(self).key_at(c) == q);
                        }
                    }
                    assert(self.view() =~= old(self).view().insert(k, value));
                    assert(old(self).view().contains_key(k)) by {
                        old(self).lemma_entry_value(i as int);
                    }
                    let c = old(self).slot_of(k);
                    assert(c == i as int);
                    assert(self.values() =~= old(self).values().update(i as int, value));
                }
            },
            None => {
                let path = copy_path(key);
                self.entries.push((path, value));
                proof {
                    let n = old(self).entries@.len() as int;
                    assert(self.key_at(n) == k);
                    assert forall|a: int|
                        0 <= a < n implies self.key_at(a) == old(self).key_at(a)
                            && self.entries@[a] == old(self).entries@[a] by {}
                    assert(self.wf());
                    assert forall|q: Seq<Seq<u8>>|
                        #![trigger self.view().contains_key(q)]
                        self.view().contains_key(q) == old(self).view().insert(k, value).contains_key(q)
                            && (self.view().contains_key(q) ==> self.view()[q] == old(self).view().insert(k, value)[q]) by {
                        if q == k {
                            self.lemma_entry_value(n);
                        } else if old(self).view().contains_key(q) {
                            let c = choose|c: int|
                                0 <= c < old(self).entries@.len() && old(self).key_at(c) == q;
                            old(self).lemma_entry_value(c);
                            self.lemma_entry_value(c);
                        } else if self.view().contains_key(q) {
                            let c = choose|c: int| 0 <= c < self.entries@.len() && self.key_at(c) == q;
                            assert(c != n);
                            assert(old(self).key_at(c) == q);
                        }
                    }
                    assert(self.view() =~= old(self).view().insert(k, value));
                    assert(self.values() =~= old(self).values().push(value));
                }
            },
        }
    }
}

} // verus!
