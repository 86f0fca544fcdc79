//! A store of at most one value per distinct key, the backing structure of
//! the per-context "user data" table.
//!
//! The table maps a type identity — reduced by the caller to a numeric key —
//! to at most one live value for that key.  The store is specified against a
//! mathematical `Map` from keys to values: insertion returns the value it
//! displaced, removal returns the value it took out, and lookup observes
//! exactly the map.

use vstd::prelude::*;
use vstd::map::*;

verus! {

/// One key together with its stored value.
#[derive(Clone, Debug)]
pub struct Slot<P> {
    /// The key, a caller-chosen identity (one per stored type).
    pub key: u64,
    /// The stored value.
    pub value: P,
}

/// The map a sequence of slots denotes: later slots would win, and the
/// store keeps keys unique so that order never matters.
pub open spec fn map_of<P>(s: Seq<Slot<P>>) -> Map<u64, P>
    decreases s.len(),
{
    if s.len() == 0 {
        Map::empty()
    } else {
        map_of(s.drop_last()).insert(s.last().key, s.last().value)
    }
}

/// Whether no two slots share a key.
pub open spec fn unique_keys<P>(s: Seq<Slot<P>>) -> bool {
    forall|i: int, j: int| 0 <= i < j < s.len() ==> s[i].key != s[j].key
}

/// A key is in the denoted map exactly when some slot holds it.
proof fn lemma_map_of_contains<P>(s: Seq<Slot<P>>, k: u64)
    ensures
        map_of(s).dom().contains(k) <==> exists|i: int| 0 <= i < s.len() && s[i].key == k,
    decreases s.len(),
{
    if s.len() > 0 {
        lemma_map_of_contains(s.drop_last(), k);
        if s.last().key == k {
            assert(s[s.len() - 1].key == k);
        } else if map_of(s).dom().contains(k) {
            let i = choose|i: int| 0 <= i < s.drop_last().len() && s.drop_last()[i].key == k;
            assert(s[i].key == k);
        } else if exists|i: int| 0 <= i < s.len() && s[i].key == k {
            let i = choose|i: int| 0 <= i < s.len() && s[i].key == k;
            assert(s.drop_last()[i].key == k);
        }
    }
}

/// With unique keys, the denoted map sends each slot's key to its value.
proof fn lemma_map_of_index<P>(s: Seq<Slot<P>>, i: int)
    requires
        unique_keys(s),
        0 <= i < s.len(),
    ensures
        map_of(s).dom().contains(s[i].key),
        map_of(s)[s[i].key] == s[i].value,
    decreases s.len(),
{
    lemma_map_of_contains(s, s[i].key);
    if i < s.len() - 1 {
        assert(s.drop_last()[i] == s[i]);
        lemma_map_of_index(s.drop_last(), i);
    }
}

/// Replacing the value of the slot that holds a key updates the denoted map
/// at that key and nothing else.
proof fn lemma_map_of_update<P>(s: Seq<Slot<P>>, i: int, v: P)
    requires
        unique_keys(s),
        0 <= i < s.len(),
    ensures
        map_of(s.update(i, Slot { key: s[i].key, value: v })) == map_of(s).insert(s[i].key, v),
    decreases s.len(),
{
    let k = s[i].key;
    let slot = Slot { key: k, value: v };
    let t = s.update(i, slot);
    if i == s.len() - 1 {
        assert(t.drop_last() =~= s.drop_last());
        assert(t.last() == slot);
        assert(map_of(t) == map_of(s.drop_last()).insert(k, v));
        assert(map_of(s.drop_last()).insert(k, s[i].value).insert(k, v) =~= map_of(
            s.drop_last(),
        ).insert(k, v));
    } else {
        assert(t.last() == s.last());
        assert(t.drop_last() =~= s.drop_last().update(i, slot));
        assert(s.drop_last()[i] == s[i]);
        lemma_map_of_update(s.drop_last(), i, v);
        // The two inserted keys differ, so the insertions commute.
        assert(s.last().key != k);
        assert(map_of(s.drop_last()).insert(k, v).insert(s.last().key, s.last().value) =~= map_of(
            s.drop_last(),
        ).insert(s.last().key, s.last().value).insert(k, v));
    }
}

/// Appending a slot with a fresh key extends the denoted map at that key.
proof fn lemma_map_of_push<P>(s: Seq<Slot<P>>, slot: Slot<P>)
    ensures
        map_of(s.push(slot)) == map_of(s).insert(slot.key, slot.value),
{
    assert(s.push(slot).drop_last() =~= s);
    assert(s.push(slot).last() == slot);
}

/// Taking out the slot that holds a key removes that key from the denoted
/// map and nothing else.
proof fn lemma_map_of_remove<P>(s: Seq<Slot<P>>, i: int)
    requires
        unique_keys(s),
        0 <= i < s.len(),
    ensures
        map_of(s.remove(i)) == map_of(s).remove(s[i].key),
    decreases s.len(),
{
    let k = s[i].key;
    let t = s.remove(i);
    s.remove_ensures(i);
    if i == s.len() - 1 {
        assert(t =~= s.drop_last());
        lemma_map_of_contains(s.drop_last(), k);
        assert(forall|j: int|
            0 <= j < s.drop_last().len() ==> s.drop_last()[j] == s[j] && s[j].key != k);
        assert(!map_of(s.drop_last()).dom().contains(k));
        assert(map_of(s.drop_last()).insert(k, s[i].value).remove(k) =~= map_of(s.drop_last()));
    } else {
        assert(t.len() == s.len() - 1);
        assert(t.last() == s.last());
        assert(t.drop_last() =~= s.drop_last().remove(i));
        assert(s.drop_last()[i] == s[i]);
        lemma_map_of_remove(s.drop_last(), i);
        assert(s.last().key != k);
        assert(map_of(s.drop_last()).remove(k).insert(s.last().key, s.last().value) =~= map_of(
            s.drop_last(),
        ).insert(s.last().key, s.last().value).remove(k));
    }
}

/// A store of at most one value per distinct key.
#[derive(Clone, Debug)]
pub struct UserStore<P> {
    slots: Vec<Slot<P>>,
}

impl<P> UserStore<P> {
    /// The map this store denotes.
    pub closed spec fn as_map(self) -> Map<u64, P> {
        map_of(self.slots@)
    }

    /// The store's internal invariant: keys are unique, so each key denotes
    /// at most one value.
    pub closed spec fn wf(self) -> bool {
        unique_keys(self.slots@)
    }

    /// How many keys currently hold a value.
    pub fn len(&self) -> (n: usize)
        requires
            self.wf(),
        ensures
            n == self.as_map().dom().len(),
    {
        proof {
            lemma_unique_len(self.slots@);
        }
        self.slots.len()
    }

    /// Creates an empty store.
    pub fn new() -> (s: UserStore<P>)
        ensures
            s.wf(),
            s.as_map() == Map::<u64, P>::empty(),
    {
        UserStore { slots: Vec::new() }
    }

    /// The index of the slot holding `key`, if any.
    fn find(&self, key: u64) -> (r: Option<usize>)
        ensures
            match r {
                Some(i) => i < self.slots@.len() && self.slots@[i as int].key == key,
                None => forall|i: int| 0 <= i < self.slots@.len() ==> self.slots@[i].key != key,
            },
    {
        let mut i: usize = 0;
        while i < self.slots.len()
            invariant
                i <= self.slots@.len(),
                forall|j: int| 0 <= j < i ==> self.slots@[j].key != key,
            decreases self.slots@.len() - i,
        {
            if self.slots[i].key == key {
                return Some(i);
            }
            i = i + 1;
        }
        None
    }

    /// Looks up the value stored under `key`.
    pub fn get(&self, key: u64) -> (r: Option<&P>)
        requires
            self.wf(),
        ensures
            match r {
                Some(v) => self.as_map().dom().contains(key) && *v == self.as_map()[key],
                None => !self.as_map().dom().contains(key),
            },
    {
        proof {
            lemma_map_of_contains(self.slots@, key);
        }
        match self.find(key) {
            Some(i) => {
                proof {
                    lemma_map_of_index(self.slots@, i as int);
                }
                Some(&self.slots[i].value)
            },
            None => None,
        }
    }

    /// Stores `value` under `key`, returning the value previously stored
    /// under that key, if any.
    pub fn insert(&mut self, key: u64, value: P) -> (r: Option<P>)
        requires
            old(self).wf(),
        ensures
            final(self).wf(),
            final(self).as_map() == old(self).as_map().insert(key, value),
            match r {
                Some(v) => old(self).as_map().dom().contains(key) && v == old(self).as_map()[key],
                None => !old(self).as_map().dom().contains(key),
            },
    {
        proof {
            lemma_map_of_contains(self.slots@, key);
        }
        match self.find(key) {
            Some(i) => {
                proof {
                    lemma_map_of_index(self.slots@, i as int);
                    lemma_map_of_update(self.slots@, i as int, value);
                }
                let old_slot = self.slots.remove(i);
                self.slots.insert(i, Slot { key, value });
                proof {
                    assert(self.slots@ =~= old(self).slots@.update(i as int, Slot { key, value }));
                    assert(forall|j: int|
                        0 <= j < self.slots@.len() ==> self.slots@[j].key == old(
                            self,
                        ).slots@[j].key);
                    assert(unique_keys(self.slots@));
                }
                Some(old_slot.value)
            },
            None => {
                proof {
                    lemma_map_of_push(self.slots@, Slot { key, value });
                }
                self.slots.push(Slot { key, value });
                proof {
                    assert(forall|j: int|
                        0 <= j < old(self).slots@.len() ==> self.slots@[j] == old(self).slots@[j]);
                    assert(unique_keys(self.slots@));
                }
                None
            },
        }
    }

    /// Removes and returns the value stored under `key`, if any.
    pub fn remove(&mut self, key: u64) -> (r: Option<P>)
        requires
            old(self).wf(),
        ensures
            final(self).wf(),
            final(self).as_map() == old(self).as_map().remove(key),
            match r {
                Some(v) => old(self).as_map().dom().contains(key) && v == old(self).as_map()[key],
                None => !old(self).as_map().dom().contains(key),
            },
    {
        proof {
            lemma_map_of_contains(self.slots@, key);
        }
        match self.find(key) {
            Some(i) => {
                proof {
                    lemma_map_of_index(self.slots@, i as int);
                    lemma_map_of_remove(self.slots@, i as int);
                    old(self).slots@.remove_ensures(i as int);
                }
                let slot = self.slots.remove(i);
                proof {
                    assert(forall|p: int| 0 <= p < i ==> self.slots@[p] == old(self).slots@[p]);
                    assert(forall|p: int|
                        i <= p < self.slots@.len() ==> self.slots@[p] == old(self).slots@[p + 1]);
                    assert(unique_keys(self.slots@));
                }
                Some(slot.value)
            },
            None => {
                proof {
                    assert(self.as_map() =~= old(self).as_map().remove(key));
                }
                None
            },
        }
    }
}

/// With unique keys, the number of slots equals the size of the denoted
/// map's domain.
proof fn lemma_unique_len<P>(s: Seq<Slot<P>>)
    requires
        unique_keys(s),
    ensures
        map_of(s).dom().len() == s.len(),
        map_of(s).dom().finite(),
    decreases s.len(),
{
    if s.len() > 0 {
        lemma_unique_len(s.drop_last());
        lemma_map_of_contains(s.drop_last(), s.last().key);
        assert(forall|j: int|
            0 <= j < s.drop_last().len() ==> s.drop_last()[j] == s[j] && s[j].key != s.last().key);
        assert(!map_of(s.drop_last()).dom().contains(s.last().key));
    }
}

} // verus!
