//! Reference-count bookkeeping for engine handles.
//!
//! The engine keeps a reference count per heap object; the wrapper
//! discipline is that the count the engine holds for a handle equals the
//! number of live host-side wrappers of that handle (plus engine-internal
//! stack references the host does not track).  Wrapping a raw handle and
//! cloning a wrapper increment; dropping a wrapper decrements.  This
//! module is the ledger of those counts: the shim calls [`RefLedger::incref`]
//! exactly when it performs the engine's add-reference call and
//! [`RefLedger::decref`] exactly when it performs the release call, so the
//! ledger mirrors the engine and the proofs about it carry over.
//!
//! A decrement of a handle whose count is zero would be an underflow — an
//! unrecoverable misuse, treated as fatal — and is excluded by
//! precondition; the shim asserts it before releasing.

use vstd::prelude::*;
use vstd::map::*;

use crate::store::UserStore;

verus! {

/// The count a ledger map holds for a handle: zero when the handle is not
/// live.
pub open spec fn live_count(m: Map<u64, u32>, handle: u64) -> u32 {
    if m.dom().contains(handle) {
        m[handle]
    } else {
        0
    }
}

/// The ledger map after an increment of one handle.
pub open spec fn incref_map(m: Map<u64, u32>, handle: u64) -> Map<u64, u32> {
    m.insert(handle, (live_count(m, handle) + 1) as u32)
}

/// The ledger map after a decrement of one handle: the handle leaves the
/// map when its last reference goes.
pub open spec fn decref_map(m: Map<u64, u32>, handle: u64) -> Map<u64, u32> {
    if live_count(m, handle) == 1 {
        m.remove(handle)
    } else {
        m.insert(handle, (live_count(m, handle) - 1) as u32)
    }
}

/// The ledger of reference counts for the live handles of one runtime.
#[derive(Debug)]
pub struct RefLedger {
    counts: UserStore<u32>,
}

impl RefLedger {
    /// The map from raw handle values to their counts; only live handles
    /// (count at least one) are in the domain.
    pub closed spec fn as_map(self) -> Map<u64, u32> {
        self.counts.as_map()
    }

    /// The ledger's internal invariant: every recorded count is positive.
    pub closed spec fn wf(self) -> bool {
        self.counts.wf() && forall|h: u64|
            self.counts.as_map().dom().contains(h) ==> #[trigger] self.counts.as_map()[h] >= 1
    }

    /// Creates a ledger with no live handles.
    pub fn new() -> (l: RefLedger)
        ensures
            l.wf(),
            l.as_map() == Map::<u64, u32>::empty(),
    {
        RefLedger { counts: UserStore::new() }
    }

    /// The count the ledger holds for a handle.
    pub fn count_of(&self, handle: u64) -> (n: u32)
        requires
            self.wf(),
        ensures
            n == live_count(self.as_map(), handle),
    {
        match self.counts.get(handle) {
            Some(n) => *n,
            None => 0,
        }
    }

    /// Whether the handle has any live reference.
    pub fn is_live(&self, handle: u64) -> (r: bool)
        requires
            self.wf(),
        ensures
            r == self.as_map().dom().contains(handle),
    {
        self.counts.get(handle).is_some()
    }

    /// Records one more reference to a handle, as taken whenever a raw
    /// handle is wrapped or a wrapper is cloned; returns the new count.
    pub fn incref(&mut self, handle: u64) -> (n: u32)
        requires
            old(self).wf(),
            live_count(old(self).as_map(), handle) < u32::MAX,
        ensures
            final(self).wf(),
            final(self).as_map() == incref_map(old(self).as_map(), handle),
            n == live_count(old(self).as_map(), handle) + 1,
            n == live_count(final(self).as_map(), handle),
    {
        let current = self.count_of(handle);
        self.counts.insert(handle, current + 1);
        current + 1
    }

    /// Records the loss of one reference to a handle, as happens whenever a
    /// wrapper is dropped; returns the count that remains.
    ///
    /// A handle without live references has nothing to release: that case
    /// is excluded, mirroring the underflow check the discipline treats as
    /// a fatal misuse.
    pub fn decref(&mut self, handle: u64) -> (n: u32)
        requires
            old(self).wf(),
            live_count(old(self).as_map(), handle) >= 1,
        ensures
            final(self).wf(),
            final(self).as_map() == decref_map(old(self).as_map(), handle),
            n == live_count(old(self).as_map(), handle) - 1,
            n == live_count(final(self).as_map(), handle),
    {
        let current = self.count_of(handle);
        if current == 1 {
            self.counts.remove(handle);
            0
        } else {
            self.counts.insert(handle, current - 1);
            current - 1
        }
    }
}

/// An increment followed by a decrement of the same handle leaves the
/// whole ledger exactly as it was: clone and drop balance.
pub proof fn lemma_incref_decref_inverse(m: Map<u64, u32>, handle: u64)
    requires
        live_count(m, handle) < u32::MAX,
        m.dom().contains(handle) ==> m[handle] >= 1,
    ensures
        decref_map(incref_map(m, handle), handle) == m,
{
    if live_count(m, handle) == 0 {
        assert(decref_map(incref_map(m, handle), handle) =~= m);
    } else {
        assert(decref_map(incref_map(m, handle), handle) =~= m);
    }
}

/// Wrapping a fresh handle, cloning the wrapper three times, then dropping
/// all four handles leaves the handle without live references and the
/// ledger exactly as before the first wrap.
pub proof fn lemma_clone_drop_balance(m0: Map<u64, u32>, handle: u64)
    requires
        !m0.dom().contains(handle),
    ensures
        ({
            let m4 = incref_map(
                incref_map(incref_map(incref_map(m0, handle), handle), handle),
                handle,
            );
            live_count(m4, handle) == 4 && ({
                let d4 = decref_map(
                    decref_map(decref_map(decref_map(m4, handle), handle), handle),
                    handle,
                );
                live_count(d4, handle) == 0 && d4 == m0
            })
        }),
{
    let m4 = incref_map(incref_map(incref_map(incref_map(m0, handle), handle), handle), handle);
    let d4 = decref_map(decref_map(decref_map(decref_map(m4, handle), handle), handle), handle);
    assert(d4 =~= m0);
}

} // verus!
