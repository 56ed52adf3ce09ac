//! The blacklist, kept as two indexes: from an address to its position
//! (`0`, or no entry, where it is not listed) and from a position, counted
//! from one, to the address. Removal moves the last entry into the hole, so
//! the positions in use are always `1..=count`.
use vstd::prelude::*;

use crate::access::{only_blacklister, role_check, CallerFrame};
use crate::address::{views, Address};
use crate::error::{refused_with, CsprUSDError};
use crate::events::{Blacklisted, UnBlacklisted};

verus! {

/// Whether the position stored for an address marks it as listed.
pub open spec fn index_is_listed(index: Option<u32>) -> bool {
    index matches Some(i) && i != 0
}

/// Whether the address whose stored position is `index` is blacklisted.
pub fn is_blacklisted_util(index: Option<u32>) -> (r: bool)
    ensures
        r == index_is_listed(index),
{
    match index {
        Some(i) => i != 0,
        None => false,
    }
}

/// The blacklist's two storage indexes and its count, keyed by the bytes of
/// each address.
pub struct BlacklistIndexes {
    /// The position of each address; no entry, or `0`, where it is not listed.
    pub positions: Map<Seq<u8>, u32>,
    /// The address at each position in use.
    pub entries: Map<u32, Seq<u8>>,
    pub count: u32,
}

impl BlacklistIndexes {
    /// The position stored for `k`, as a read of storage returns it.
    pub open spec fn position(self, k: Seq<u8>) -> Option<u32> {
        if self.positions.contains_key(k) {
            Some(self.positions[k])
        } else {
            None
        }
    }

    pub open spec fn is_listed(self, k: Seq<u8>) -> bool {
        index_is_listed(self.position(k))
    }

    pub open spec fn listed(self) -> Set<Seq<u8>> {
        Set::new(|k: Seq<u8>| self.is_listed(k))
    }

    /// The two indexes are inverse to each other on the positions
    /// `1..=count`: each listed address is stored at its position, and the
    /// address at each position in use is listed at that position.
    pub open spec fn wf(self) -> bool {
        &&& forall|k: Seq<u8>|
            #[trigger] self.is_listed(k) ==> 1 <= self.positions[k] <= self.count
                && self.entries.contains_key(self.positions[k]) && self.entries[self.positions[k]] == k
        &&& forall|i: u32|
            1 <= i <= self.count ==> #[trigger] self.entries.contains_key(i) && self.is_listed(
                self.entries[i],
            ) && self.positions[self.entries[i]] == i
    }

    /// The indexes after `writes` for `key`.
    pub open spec fn apply(self, key: Seq<u8>, writes: IndexWrites) -> BlacklistIndexes {
        let positions = self.positions.insert(key, writes.key_position);
        BlacklistIndexes {
            positions: match writes.relocated {
                Some((a, p)) => positions.insert(a@, p),
                None => positions,
            },
            entries: match writes.slot {
                Some((p, a)) => self.entries.insert(p, a@),
                None => self.entries,
            },
            count: writes.new_count,
        }
    }
}

/// The storage writes of a change to the blacklist, for the address `key`
/// that it lists or unlists, in this order: `key`'s position becomes
/// `key_position`; where `slot` is `(p, a)`, the address at position `p`
/// becomes `a`; where `relocated` is `(a, p)`, `a`'s position becomes `p`;
/// the count becomes `new_count`.
#[derive(Clone, Debug, PartialEq, Eq)]
pub struct IndexWrites {
    pub key_position: u32,
    pub slot: Option<(u32, Address)>,
    pub relocated: Option<(Address, u32)>,
    pub new_count: u32,
}

pub open spec fn listing_refusal(index: Option<u32>, count: u32) -> Option<CsprUSDError> {
    if index_is_listed(index) {
        Some(CsprUSDError::AlreadyBlacklisted)
    } else if count == u32::MAX {
        Some(CsprUSDError::Overflow)
    } else {
        None
    }
}

/// The writes that list `key` in a list of `count` entries: it takes the
/// next position, `count + 1`, which is also the new count.
pub open spec fn listing_writes(w: IndexWrites, key: Seq<u8>, count: u32) -> bool {
    &&& w.key_position == count + 1
    &&& w.slot matches Some((p, a)) && p == count + 1 && a@ == key
    &&& w.relocated is None
    &&& w.new_count == count + 1
}

/// Listing an unlisted address in consistent indexes keeps them consistent,
/// adds exactly that address, at position `count + 1`, and moves no other.
pub proof fn lemma_listing_keeps_indexes(s: BlacklistIndexes, key: Seq<u8>, w: IndexWrites)
    requires
        s.wf(),
        !s.is_listed(key),
        listing_writes(w, key, s.count),
    ensures
        s.apply(key, w).wf(),
        s.apply(key, w).listed() == s.listed().insert(key),
        s.apply(key, w).position(key) == Some((s.count + 1) as u32),
        forall|k: Seq<u8>| k != key ==> #[trigger] s.apply(key, w).position(k) == s.position(k),
{
    let t = s.apply(key, w);
    let n = (s.count + 1) as u32;
    assert(t.positions == s.positions.insert(key, n));
    assert(t.entries == s.entries.insert(n, key));
    assert forall|k: Seq<u8>| k != key implies #[trigger] t.position(k) == s.position(k) by {}
    assert forall|k: Seq<u8>| #[trigger] t.is_listed(k) implies 1 <= t.positions[k] <= t.count
        && t.entries.contains_key(t.positions[k]) && t.entries[t.positions[k]] == k by {
        if k != key {
            assert(s.is_listed(k));
        }
    }
    assert forall|i: u32| 1 <= i <= t.count implies #[trigger] t.entries.contains_key(i)
        && t.is_listed(t.entries[i]) && t.positions[t.entries[i]] == i by {
        if i != n {
            assert(s.entries.contains_key(i));
            assert(s.is_listed(s.entries[i]));
            assert(s.entries[i] != key);
        }
    }
    assert(t.listed() =~= s.listed().insert(key)) by {
        assert forall|k: Seq<u8>| t.listed().contains(k) == s.listed().insert(key).contains(k) by {
            if k != key {
                assert(t.position(k) == s.position(k));
            }
        }
    }
}

/// The writes that list `key`, whose stored position is `index`, in a list
/// of `count` entries.
pub fn blacklist_key(key: &Address, index: Option<u32>, count: u32) -> (r: Result<
    IndexWrites,
    CsprUSDError,
>)
    ensures
        refused_with(r, listing_refusal(index, count)),
        r is Ok ==> listing_writes(r->Ok_0, key@, count),
        r is Ok ==> forall|s: BlacklistIndexes|
            s.wf() && s.count == count && s.position(key@) == index ==> {
                let t = #[trigger] s.apply(key@, r->Ok_0);
                &&& t.wf()
                &&& t.listed() == s.listed().insert(key@)
                &&& t.position(key@) == Some((count + 1) as u32)
                &&& forall|k: Seq<u8>| k != key@ ==> #[trigger] t.position(k) == s.position(k)
            },
{
    if is_blacklisted_util(index) {
        return Err(CsprUSDError::AlreadyBlacklisted);
    }
    if count == u32::MAX {
        return Err(CsprUSDError::Overflow);
    }
    let w = IndexWrites {
        key_position: count + 1,
        slot: Some((count + 1, key.duplicate())),
        relocated: None,
        new_count: count + 1,
    };
    assert forall|s: BlacklistIndexes|
        s.wf() && s.count == count && s.position(key@) == index implies {
            let t = #[trigger] s.apply(key@, w);
            &&& t.wf()
            &&& t.listed() == s.listed().insert(key@)
            &&& t.position(key@) == Some((count + 1) as u32)
            &&& forall|k: Seq<u8>| k != key@ ==> #[trigger] t.position(k) == s.position(k)
        } by {
        lemma_listing_keeps_indexes(s, key@, w);
    }
    Ok(w)
}

/// The stored position of a listed address is one of `1..=count`.
pub open spec fn index_consistent(index: Option<u32>, count: u32) -> bool {
    index_is_listed(index) ==> index->Some_0 <= count
}

/// Whether the stored values meet [`index_consistent`], for a caller that
/// reads them from storage it cannot vouch for.
pub fn is_index_consistent(index: Option<u32>, count: u32) -> (r: bool)
    ensures
        r == index_consistent(index, count),
{
    match index {
        Some(i) => i == 0 || i <= count,
        None => true,
    }
}

/// Whether unlisting the address with stored position `index` from a list
/// of `count` entries moves the last entry into its place.
pub open spec fn moves_last_entry(index: Option<u32>, count: u32) -> bool {
    index_is_listed(index) && index->Some_0 < count
}

/// Whether the address at the last position must be read to unlist the
/// address with stored position `index`.
pub fn needs_last_entry(index: Option<u32>, count: u32) -> (r: bool)
    ensures
        r == moves_last_entry(index, count),
{
    match index {
        Some(i) => i != 0 && i < count,
        None => false,
    }
}

/// The writes that unlist the address with stored position `index` from a
/// list of `count` entries whose last entry is `last`: its position becomes
/// `0`, the count drops by one, and where it was not the last entry, the last
/// entry moves to its position.
pub open spec fn unlisting_writes(w: IndexWrites, index: Option<u32>, count: u32, last: Seq<u8>) -> bool {
    &&& w.key_position == 0
    &&& w.new_count == count - 1
    &&& if moves_last_entry(index, count) {
        &&& w.slot matches Some((p, a)) && p == index->Some_0 && a@ == last
        &&& w.relocated matches Some((b, q)) && b@ == last && q == index->Some_0
    } else {
        w.slot is None && w.relocated is None
    }
}

/// Unlisting a listed address from consistent indexes keeps them
/// consistent, removes exactly that address, and moves no other address but
/// the last entry, which takes the freed position.
pub proof fn lemma_unlisting_keeps_indexes(s: BlacklistIndexes, key: Seq<u8>, w: IndexWrites)
    requires
        s.wf(),
        s.is_listed(key),
        unlisting_writes(w, s.position(key), s.count, s.entries[s.count]),
    ensures
        s.apply(key, w).wf(),
        s.apply(key, w).listed() == s.listed().remove(key),
        s.apply(key, w).position(key) == Some(0u32),
        moves_last_entry(s.position(key), s.count) ==> s.apply(key, w).position(s.entries[s.count])
            == s.position(key),
        forall|k: Seq<u8>|
            k != key && k != s.entries[s.count] ==> #[trigger] s.apply(key, w).position(k) == s.position(k),
{
    let t = s.apply(key, w);
    let id = s.positions[key];
    let n = s.count;
    let last = s.entries[n];
    assert(1 <= id <= n);
    assert(s.entries.contains_key(n));
    assert(s.is_listed(last) && s.positions[last] == n);
    if id < n {
        assert(last != key);
        assert(t.positions == s.positions.insert(key, 0).insert(last, id));
        assert(t.entries == s.entries.insert(id, last));
    } else {
        assert(last == key);
        assert(t.positions == s.positions.insert(key, 0));
        assert(t.entries == s.entries);
    }
    assert forall|k: Seq<u8>| k != key && k != last implies #[trigger] t.position(k) == s.position(k) by {}
    assert forall|k: Seq<u8>| #[trigger] t.is_listed(k) implies 1 <= t.positions[k] <= t.count
        && t.entries.contains_key(t.positions[k]) && t.entries[t.positions[k]] == k by {
        if k != last {
            assert(s.is_listed(k));
            assert(s.entries[s.positions[k]] == k);
            assert(s.positions[k] != n);
            assert(s.positions[k] != id);
        }
    }
    assert forall|i: u32| 1 <= i <= t.count implies #[trigger] t.entries.contains_key(i)
        && t.is_listed(t.entries[i]) && t.positions[t.entries[i]] == i by {
        if i != id {
            assert(s.entries.contains_key(i));
            assert(s.is_listed(s.entries[i]));
            assert(s.entries[i] != key);
            assert(s.entries[i] != last);
        }
    }
    assert(t.wf());
    assert(t.listed() =~= s.listed().remove(key)) by {
        assert forall|k: Seq<u8>| t.listed().contains(k) == s.listed().remove(key).contains(k) by {
            if k != key && k != last {
                assert(t.position(k) == s.position(k));
            }
        }
    }
}

/// The writes that unlist `key`, whose stored position is `index`, from a
/// list of `count` entries. `last` is the address stored at position `count`,
/// read where [`needs_last_entry`] says so.
pub fn un_blacklist_address(key: &Address, index: Option<u32>, count: u32, last: &Option<Address>) -> (r:
    Result<IndexWrites, CsprUSDError>)
    requires
        index_consistent(index, count),
        moves_last_entry(index, count) ==> last is Some,
    ensures
        refused_with(
            r,
            if index_is_listed(index) {
                None
            } else {
                Some(CsprUSDError::NotBlacklisted)
            },
        ),
        r is Ok ==> unlisting_writes(r->Ok_0, index, count, last->Some_0@),
        r is Ok ==> forall|s: BlacklistIndexes|
            s.wf() && s.count == count && s.position(key@) == index && (moves_last_entry(index, count)
                ==> s.entries[s.count] == last->Some_0@) ==> {
                let t = #[trigger] s.apply(key@, r->Ok_0);
                &&& t.wf()
                &&& t.listed() == s.listed().remove(key@)
                &&& t.position(key@) == Some(0u32)
                &&& moves_last_entry(index, count) ==> t.position(last->Some_0@) == index
                &&& forall|k: Seq<u8>|
                    k != key@ && k != s.entries[s.count] ==> #[trigger] t.position(k) == s.position(k)
            },
{
    let id = match index {
        Some(id) => id,
        None => {
            return Err(CsprUSDError::NotBlacklisted);
        },
    };
    if id == 0 {
        return Err(CsprUSDError::NotBlacklisted);
    }
    let (slot, relocated) = if id < count {
        match last {
            Some(a) => (Some((id, a.duplicate())), Some((a.duplicate(), id))),
            None => (None, None),
        }
    } else {
        (None, None)
    };
    let w = IndexWrites { key_position: 0, slot, relocated, new_count: count - 1 };
    assert forall|s: BlacklistIndexes|
        s.wf() && s.count == count && s.position(key@) == index && (moves_last_entry(index, count)
            ==> s.entries[s.count] == last->Some_0@) implies {
            let t = #[trigger] s.apply(key@, w);
            &&& t.wf()
            &&& t.listed() == s.listed().remove(key@)
            &&& t.position(key@) == Some(0u32)
            &&& moves_last_entry(index, count) ==> t.position(last->Some_0@) == index
            &&& forall|k: Seq<u8>|
                k != key@ && k != s.entries[s.count] ==> #[trigger] t.position(k) == s.position(k)
        } by {
        lemma_unlisting_keeps_indexes(s, key@, w);
    }
    Ok(w)
}

/// A new entry of the blacklist, with the writes that store it.
#[derive(Clone, Debug, PartialEq, Eq)]
pub struct BlacklistEntry {
    pub writes: IndexWrites,
    pub event: Blacklisted,
}

/// The blacklister adds `key`, whose stored position is `index`, to a list of
/// `count` entries.
pub fn blacklist(
    stack: &Vec<CallerFrame>,
    blacklister: &Address,
    key: &Address,
    index: Option<u32>,
    count: u32,
) -> (r: Result<BlacklistEntry, CsprUSDError>)
    ensures
        refused_with(
            r,
            match role_check(stack@, blacklister@, CsprUSDError::NotBlacklister) {
                Some(e) => Some(e),
                None => listing_refusal(index, count),
            },
        ),
        r is Ok ==> listing_writes(r->Ok_0.writes, key@, count) && r->Ok_0.event.key@ == key@,
{
    only_blacklister(stack, blacklister)?;
    let writes = blacklist_key(key, index, count)?;
    Ok(BlacklistEntry { writes, event: Blacklisted { key: key.duplicate() } })
}

/// The removal of `key` from the blacklist, with the writes that remove it.
#[derive(Clone, Debug, PartialEq, Eq)]
pub struct BlacklistRemoval {
    pub writes: IndexWrites,
    pub event: UnBlacklisted,
}

/// The blacklister removes `key`, whose stored position is `index`, from a
/// list of `count` entries whose last entry is `last` (see
/// [`un_blacklist_address`]). Stored values that break
/// [`index_consistent`] are refused as an unknown error.
pub fn un_blacklist(
    stack: &Vec<CallerFrame>,
    blacklister: &Address,
    key: &Address,
    index: Option<u32>,
    count: u32,
    last: &Option<Address>,
) -> (r: Result<BlacklistRemoval, CsprUSDError>)
    requires
        moves_last_entry(index, count) ==> last is Some,
    ensures
        refused_with(
            r,
            match role_check(stack@, blacklister@, CsprUSDError::NotBlacklister) {
                Some(e) => Some(e),
                None => if !index_consistent(index, count) {
                    Some(CsprUSDError::Phantom)
                } else if index_is_listed(index) {
                    None
                } else {
                    Some(CsprUSDError::NotBlacklisted)
                },
            },
        ),
        r is Ok ==> unlisting_writes(r->Ok_0.writes, index, count, last->Some_0@)
            && r->Ok_0.event.key@ == key@,
{
    only_blacklister(stack, blacklister)?;
    if !is_index_consistent(index, count) {
        return Err(CsprUSDError::Phantom);
    }
    let writes = un_blacklist_address(key, index, count, last)?;
    Ok(BlacklistRemoval { writes, event: UnBlacklisted { key: key.duplicate() } })
}

/// Listing an address that is not listed, then unlisting it, leaves the
/// blacklist exactly as it was: the new entry is the last, so nothing moves.
pub proof fn lemma_insert_then_remove(list: Seq<Seq<u8>>, key: Seq<u8>)
    requires
        list.no_duplicates(),
        !list.contains(key),
    ensures
        ({
            let listed = list.push(key);
            listed.update(listed.index_of(key), listed.last()).drop_last() == list
        }),
{
    let listed = list.push(key);
    assert(listed[list.len() as int] == key);
    let i = listed.index_of(key);
    if i < list.len() {
        assert(list[i] == key);
    }
    assert(i == list.len());
    assert(listed.update(i, listed.last()).drop_last() =~= list);
}

/// A blacklist held in memory: the entry at slot `i` has position `i + 1`.
pub struct Blacklist {
    listed: Vec<Address>,
}

impl View for Blacklist {
    type V = Seq<Seq<u8>>;

    closed spec fn view(&self) -> Seq<Seq<u8>> {
        views(self.listed@)
    }
}

impl Blacklist {
    /// No address is listed twice, and every position fits its index.
    pub open spec fn wf(&self) -> bool {
        &&& self@.no_duplicates()
        &&& self@.len() <= u32::MAX
    }

    pub fn new() -> (r: Blacklist)
        ensures
            r.wf(),
            r@ == Seq::<Seq<u8>>::empty(),
    {
        let r = Blacklist { listed: Vec::new() };
        assert(r@ =~= Seq::<Seq<u8>>::empty());
        r
    }

    pub fn len(&self) -> (r: u32)
        requires
            self.wf(),
        ensures
            r == self@.len(),
    {
        self.listed.len() as u32
    }

    /// The stored position of `key`: none where it is not listed.
    pub fn index_of(&self, key: &Address) -> (r: Option<u32>)
        requires
            self.wf(),
        ensures
            r is None <==> !self@.contains(key@),
            r is Some ==> 1 <= r->Some_0 <= self@.len() && self@[r->Some_0 - 1] == key@,
    {
        let mut i: usize = 0;
        while i < self.listed.len()
            invariant
                self.wf(),
                i <= self.listed@.len(),
                self@.len() == self.listed@.len(),
                forall|j: int| 0 <= j < i ==> self@[j] != key@,
            decreases self.listed@.len() - i,
        {
            assert(self@[i as int] == self.listed@[i as int]@);
            if self.listed[i].same(key) {
                return Some((i + 1) as u32);
            }
            i += 1;
        }
        None
    }

    pub fn is_blacklisted(&self, key: &Address) -> (r: bool)
        requires
            self.wf(),
        ensures
            r == self@.contains(key@),
    {
        is_blacklisted_util(self.index_of(key))
    }

    /// Lists `key` at the end; refused where it is listed already, or where
    /// the list is full.
    pub fn insert(&mut self, key: &Address) -> (r: Result<u32, CsprUSDError>)
        requires
            old(self).wf(),
        ensures
            final(self).wf(),
            refused_with(
                r,
                if old(self)@.contains(key@) {
                    Some(CsprUSDError::AlreadyBlacklisted)
                } else if old(self)@.len() == u32::MAX {
                    Some(CsprUSDError::Overflow)
                } else {
                    None
                },
            ),
            r is Ok ==> final(self)@ == old(self)@.push(key@) && r->Ok_0 == final(self)@.len(),
            r is Err ==> final(self)@ == old(self)@,
    {
        let index = self.index_of(key);
        let count = self.len();
        let writes = blacklist_key(key, index, count)?;
        self.listed.push(key.duplicate());
        assert(self@ =~= old(self)@.push(key@));
        Ok(writes.key_position)
    }

    /// Unlists `key`, moving the last entry into its place; refused where it
    /// is not listed.
    pub fn remove(&mut self, key: &Address) -> (r: Result<(), CsprUSDError>)
        requires
            old(self).wf(),
        ensures
            final(self).wf(),
            refused_with(
                r,
                if old(self)@.contains(key@) {
                    None
                } else {
                    Some(CsprUSDError::NotBlacklisted)
                },
            ),
            r is Ok ==> {
                let p = old(self)@.index_of(key@);
                final(self)@ == old(self)@.update(p, old(self)@.last()).drop_last()
            },
            r is Err ==> final(self)@ == old(self)@,
            forall|k: Seq<u8>| final(self)@.contains(k) <==> old(self)@.contains(k) && k != key@,
    {
        let index = self.index_of(key);
        let count = self.len();
        let last = if needs_last_entry(index, count) {
            Some(self.listed[(count - 1) as usize].duplicate())
        } else {
            None
        };
        if let Err(e) = un_blacklist_address(key, index, count, &last) {
            return Err(e);
        }
        let slot = (index.unwrap() - 1) as usize;
        proof {
            old(self)@.index_of_first_ensures(key@);
            old(self)@.unique_seq_to_set();
        }
        self.listed.swap_remove(slot);
        let ghost s = old(self)@;
        let ghost t = s.update(slot as int, s.last()).drop_last();
        assert(self@ =~= t);
        assert(s.index_of(key@) == slot as int) by {
            s.index_of_first_ensures(key@);
        }
        assert forall|k: Seq<u8>| t.contains(k) <==> s.contains(k) && k != key@ by {
            if s.contains(k) && k != key@ {
                let j = s.index_of(k);
                s.index_of_first_ensures(k);
                if j == s.len() - 1 {
                    assert(t[slot as int] == k);
                } else {
                    assert(t[j] == k);
                }
            }
            if t.contains(k) {
                let j = choose|j: int| 0 <= j < t.len() && t[j] == k;
                if j == slot {
                    assert(k == s[s.len() - 1]);
                } else {
                    assert(k == s[j]);
                }
            }
        }
        assert(t.no_duplicates()) by {
            assert forall|a: int, b: int| 0 <= a < t.len() && 0 <= b < t.len() && a != b implies t[a] != t[b] by {
                let sa = if a == slot { s.len() - 1 } else { a };
                let sb = if b == slot { s.len() - 1 } else { b };
                assert(t[a] == s[sa]);
                assert(t[b] == s[sb]);
            }
        }
        Ok(())
    }

    /// The listed addresses, in the order of their positions.
    pub fn keys(&self) -> (r: Vec<Address>)
        ensures
            views(r@) == self@,
    {
        let mut r: Vec<Address> = Vec::new();
        let mut i: usize = 0;
        while i < self.listed.len()
            invariant
                i <= self.listed@.len(),
                r@.len() == i,
                forall|j: int| 0 <= j < i ==> r@[j]@ == self.listed@[j]@,
            decreases self.listed@.len() - i,
        {
            r.push(self.listed[i].duplicate());
            i += 1;
        }
        assert(views(r@) =~= self@);
        r
    }
}

} // verus!
