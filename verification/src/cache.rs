//! The layout-cache registry: one UI layout/widget-state cache per
//! UI-description identity, persisted across frames to avoid relayout cost
//! and to preserve widget-internal state. A cache is taken out of storage
//! for the duration of a UI cycle — so the cycle owns it alone — and put
//! back afterwards.

use vstd::prelude::*;

use crate::store::KvStore;

verus! {

/// Persisted widget-tree state for one UI-description identity. `Fresh`
/// stands for the defaulted, empty state a first cycle starts from; a
/// stored token stands for the state a finished cycle handed back.
#[derive(Clone, Copy, Debug, PartialEq, Eq, Structural)]
pub enum LayoutCache {
    /// The defaulted cache a UI-description identity starts with.
    Fresh,
    /// State handed back by an earlier UI cycle, named by a token.
    Stored {
        /// Names the stored widget-tree state.
        token: u64,
    },
}

/// What a `take` on cache map `m` returns for `identity`: the stored cache,
/// or a freshly defaulted one if absent.
pub open spec fn spec_take_cache(m: Map<u64, LayoutCache>, identity: u64) -> LayoutCache {
    if m.contains_key(identity) {
        m[identity]
    } else {
        LayoutCache::Fresh
    }
}

/// One layout cache per UI-description identity. Exactly one entry may
/// exist per identity; an entry is absent exactly while a cycle for that
/// identity is in progress, and a `take` of an absent entry defaults.
#[derive(Debug)]
pub struct IcedCache {
    /// The stored cache per UI-description identity.
    pub entries: KvStore<LayoutCache>,
}

impl IcedCache {
    /// Cache registry invariant.
    pub open spec fn wf(self) -> bool {
        self.entries.wf()
    }

    /// An empty cache registry.
    pub fn new() -> (r: Self)
        ensures
            r.entries@ == Map::<u64, LayoutCache>::empty(),
            r.wf(),
    {
        IcedCache { entries: KvStore::new() }
    }

    /// Removes and returns the cache for a UI-description identity, leaving
    /// no entry in place; a freshly defaulted cache is returned if none is
    /// stored. The UI cycle owns the returned cache until it puts an
    /// updated cache back.
    pub fn take(&mut self, identity: u64) -> (c: LayoutCache)
        requires
            old(self).wf(),
        ensures
            final(self).wf(),
            c == spec_take_cache(old(self).entries@, identity),
            final(self).entries@ == old(self).entries@.remove(identity),
    {
        match self.entries.remove(identity) {
            Some(c) => c,
            None => LayoutCache::Fresh,
        }
    }

    /// Reinserts a cache for a UI-description identity after the cycle
    /// completes, replacing (not merging with) whatever is stored.
    pub fn put_back(&mut self, identity: u64, cache: LayoutCache)
        requires
            old(self).wf(),
        ensures
            final(self).wf(),
            final(self).entries@ == old(self).entries@.insert(identity, cache),
    {
        self.entries.set(identity, cache);
    }
}

/// Law: the take/put-back round trip is neutral. A `take` followed
/// immediately by a `put_back` of the unmodified value leaves the
/// registry's observable state unchanged: a subsequent `take` of any
/// identity returns exactly what it would have returned before.
pub proof fn lemma_cache_round_trip(m: Map<u64, LayoutCache>, identity: u64, probe: u64)
    ensures
        spec_take_cache(
            m.remove(identity).insert(identity, spec_take_cache(m, identity)),
            probe,
        ) == spec_take_cache(m, probe),
{
}

} // verus!
