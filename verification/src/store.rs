//! A small key/value store over `u64` keys, backed by a vector of entries
//! with pairwise-distinct keys. It backs every per-window registry of the
//! library; its abstract value is a `Map<u64, V>`.

use vstd::prelude::*;
use vstd::map::*;

verus! {

/// Holds when the keys of `s` are pairwise distinct.
pub open spec fn unique_keys<V>(s: Seq<(u64, V)>) -> bool {
    forall|i: int, j: int| 0 <= i < j < s.len() ==> s[i].0 != s[j].0
}

/// The map described by an entry sequence; later entries win, though under
/// [`unique_keys`] no key occurs twice.
pub open spec fn as_map<V>(s: Seq<(u64, V)>) -> Map<u64, V>
    decreases s.len(),
{
    if s.len() == 0 {
        Map::empty()
    } else {
        as_map(s.drop_last()).insert(s.last().0, s.last().1)
    }
}

/// A key is in the map exactly when some entry carries it.
pub proof fn lemma_as_map_dom<V>(s: Seq<(u64, V)>, k: u64)
    ensures
        as_map(s).contains_key(k) <==> exists|i: int| 0 <= i < s.len() && s[i].0 == k,
    decreases s.len(),
{
    if s.len() > 0 {
        lemma_as_map_dom(s.drop_last(), k);
        if as_map(s).contains_key(k) {
            if s.last().0 == k {
                assert(s[s.len() - 1].0 == k);
            } else {
                let i = choose|i: int| 0 <= i < s.drop_last().len() && s.drop_last()[i].0 == k;
                assert(s[i].0 == k);
            }
        }
        if exists|i: int| 0 <= i < s.len() && s[i].0 == k {
            let i = choose|i: int| 0 <= i < s.len() && s[i].0 == k;
            if i < s.len() - 1 {
                assert(s.drop_last()[i].0 == k);
            }
        }
    }
}

/// With distinct keys, each entry gives the map's value at its key.
pub proof fn lemma_as_map_index<V>(s: Seq<(u64, V)>, i: int)
    requires
        unique_keys(s),
        0 <= i < s.len(),
    ensures
        as_map(s).contains_key(s[i].0),
        as_map(s)[s[i].0] == s[i].1,
    decreases s.len(),
{
    if i == s.len() - 1 {
        assert(as_map(s) == as_map(s.drop_last()).insert(s.last().0, s.last().1));
    } else {
        assert(unique_keys(s.drop_last()));
        lemma_as_map_index(s.drop_last(), i);
        assert(s.drop_last()[i] == s[i]);
        assert(s[i].0 != s.last().0);
    }
}

/// Appending an entry for an absent key inserts it into the map.
pub proof fn lemma_as_map_push<V>(s: Seq<(u64, V)>, k: u64, v: V)
    ensures
        as_map(s.push((k, v))) == as_map(s).insert(k, v),
{
    let t = s.push((k, v));
    assert(t.drop_last() =~= s);
    assert(t.last() == (k, v));
}

/// Removing the entry at `i` removes its key from the map.
pub proof fn lemma_as_map_remove<V>(s: Seq<(u64, V)>, i: int)
    requires
        unique_keys(s),
        0 <= i < s.len(),
    ensures
        as_map(s.remove(i)) == as_map(s).remove(s[i].0),
        unique_keys(s.remove(i)),
    decreases s.len(),
{
    let k = s[i].0;
    let t = s.remove(i);
    assert(unique_keys(t)) by {
        assert forall|a: int, b: int| 0 <= a < b < t.len() implies t[a].0 != t[b].0 by {
            let a0: int = if a < i { a } else { a + 1 };
            let b0: int = if b < i { b } else { b + 1 };
            assert(t[a] == s[a0] && t[b] == s[b0]);
        }
    }
    if i == s.len() - 1 {
        assert(t =~= s.drop_last());
        assert(forall|j: int| 0 <= j < s.drop_last().len() ==> s.drop_last()[j] == s[j]);
        lemma_as_map_dom(s.drop_last(), k);
        assert(!as_map(s.drop_last()).contains_key(k));
        assert(as_map(s).remove(k) =~= as_map(s.drop_last()));
    } else {
        let d = s.drop_last();
        assert(unique_keys(d));
        lemma_as_map_remove(d, i);
        assert(t.drop_last() =~= d.remove(i));
        assert(t.last() == s.last());
        assert(as_map(t) == as_map(d.remove(i)).insert(s.last().0, s.last().1));
        assert(s.last().0 != k);
        assert(as_map(d).remove(k).insert(s.last().0, s.last().1) =~= as_map(d).insert(
            s.last().0,
            s.last().1,
        ).remove(k));
    }
}

/// Replacing the value at `i` updates the map at that entry's key.
pub proof fn lemma_as_map_update<V>(s: Seq<(u64, V)>, i: int, v: V)
    requires
        unique_keys(s),
        0 <= i < s.len(),
    ensures
        as_map(s.update(i, (s[i].0, v))) == as_map(s).insert(s[i].0, v),
        unique_keys(s.update(i, (s[i].0, v))),
    decreases s.len(),
{
    let k = s[i].0;
    let t = s.update(i, (k, v));
    assert(unique_keys(t)) by {
        assert(forall|j: int| 0 <= j < t.len() ==> t[j].0 == s[j].0);
    }
    if i == s.len() - 1 {
        assert(t.drop_last() =~= s.drop_last());
        assert(t.last() == (k, v));
        assert(as_map(s.drop_last()).insert(k, s.last().1).insert(k, v) =~= as_map(
            s.drop_last(),
        ).insert(k, v));
    } else {
        let d = s.drop_last();
        assert(unique_keys(d));
        lemma_as_map_update(d, i, v);
        assert(t.drop_last() =~= d.update(i, (k, v)));
        assert(t.last() == s.last());
        assert(s.last().0 != k);
        assert(as_map(d).insert(k, v).insert(s.last().0, s.last().1) =~= as_map(d).insert(
            s.last().0,
            s.last().1,
        ).insert(k, v));
    }
}

/// A vector-backed map from `u64` keys to copyable values, with distinct
/// keys. Its abstract value is the `Map<u64, V>` its entries describe.
#[derive(Debug)]
pub struct KvStore<V> {
    /// The entries, with pairwise-distinct keys when the store is well formed.
    pub entries: Vec<(u64, V)>,
}

impl<V: Copy> KvStore<V> {
    /// The abstract map this store holds.
    pub open spec fn view(self) -> Map<u64, V> {
        as_map(self.entries@)
    }

    /// The store's invariant: no key occurs twice.
    pub open spec fn wf(self) -> bool {
        unique_keys(self.entries@)
    }

    /// An empty store.
    pub fn new() -> (r: Self)
        ensures
            r@ == Map::<u64, V>::empty(),
            r.wf(),
            r.entries@.len() == 0,
    {
        KvStore { entries: Vec::new() }
    }

    /// The number of entries.
    pub fn count(&self) -> (n: usize)
        ensures
            n == self.entries@.len(),
    {
        self.entries.len()
    }

    /// The key of the entry at `i`.
    pub fn key_at(&self, i: usize) -> (k: u64)
        requires
            i < self.entries@.len(),
        ensures
            k == self.entries@[i as int].0,
    {
        self.entries[i].0
    }

    /// The value of the entry at `i`.
    pub fn value_at(&self, i: usize) -> (v: V)
        requires
            i < self.entries@.len(),
        ensures
            v == self.entries@[i as int].1,
    {
        self.entries[i].1
    }

    /// Replaces the value of the entry at `i`, keeping its key.
    pub fn set_value_at(&mut self, i: usize, value: V)
        requires
            old(self).wf(),
            i < old(self).entries@.len(),
        ensures
            final(self).wf(),
            final(self).entries@ == old(self).entries@.update(
                i as int,
                (old(self).entries@[i as int].0, value),
            ),
            final(self)@ == old(self)@.insert(old(self).entries@[i as int].0, value),
    {
        let key = self.entries[i].0;
        self.entries[i] = (key, value);
        proof {
            lemma_as_map_update(old(self).entries@, i as int, value);
        }
    }

    /// Looks a key up.
    pub fn get(&self, key: u64) -> (r: Option<V>)
        requires
            self.wf(),
        ensures
            match r {
                Some(v) => self@.contains_key(key) && v == self@[key],
                None => !self@.contains_key(key),
            },
    {
        let n = self.entries.len();
        let mut i: usize = 0;
        while i < n
            invariant
                n == self.entries@.len(),
                i <= n,
                self.wf(),
                forall|j: int| 0 <= j < i ==> self.entries@[j].0 != key,
            decreases n - i,
        {
            if self.entries[i].0 == key {
                proof {
                    lemma_as_map_index(self.entries@, i as int);
                }
                return Some(self.entries[i].1);
            }
            i += 1;
        }
        proof {
            lemma_as_map_dom(self.entries@, key);
        }
        None
    }

    /// Whether a key is present.
    pub fn contains(&self, key: u64) -> (r: bool)
        requires
            self.wf(),
        ensures
            r == self@.contains_key(key),
    {
        self.get(key).is_some()
    }

    /// Removes a key, returning the value it held, if any.
    pub fn remove(&mut self, key: u64) -> (r: Option<V>)
        requires
            old(self).wf(),
        ensures
            final(self).wf(),
            final(self)@ == old(self)@.remove(key),
            match r {
                Some(v) => old(self)@.contains_key(key) && v == old(self)@[key],
                None => !old(self)@.contains_key(key),
            },
    {
        let n = self.entries.len();
        let mut i: usize = 0;
        while i < n
            invariant
                self == old(self),
                n == self.entries@.len(),
                i <= n,
                self.wf(),
                forall|j: int| 0 <= j < i ==> self.entries@[j].0 != key,
            decreases n - i,
        {
            if self.entries[i].0 == key {
                proof {
                    lemma_as_map_index(self.entries@, i as int);
                    lemma_as_map_remove(self.entries@, i as int);
                }
                let value = self.entries[i].1;
                self.entries.remove(i);
                return Some(value);
            }
            i += 1;
        }
        proof {
            lemma_as_map_dom(self.entries@, key);
            assert(self@.remove(key) =~= self@);
        }
        None
    }

    /// Appends an entry whose key is known to be absent.
    pub fn append(&mut self, key: u64, value: V)
        requires
            old(self).wf(),
            forall|j: int| 0 <= j < old(self).entries@.len() ==> old(self).entries@[j].0 != key,
        ensures
            final(self).wf(),
            final(self).entries@ == old(self).entries@.push((key, value)),
            final(self)@ == old(self)@.insert(key, value),
    {
        proof {
            lemma_as_map_push(self.entries@, key, value);
            assert(unique_keys(self.entries@.push((key, value))));
        }
        self.entries.push((key, value));
    }

    /// Inserts a value for a key, replacing any value the key held.
    pub fn set(&mut self, key: u64, value: V)
        requires
            old(self).wf(),
        ensures
            final(self).wf(),
            final(self)@ == old(self)@.insert(key, value),
    {
        let _ = self.remove(key);
        proof {
            lemma_as_map_dom(self.entries@, key);
            assert(forall|j: int| 0 <= j < self.entries@.len() ==> self.entries@[j].0 != key);
            lemma_as_map_push(self.entries@, key, value);
            assert(unique_keys(self.entries@.push((key, value))));
            assert(old(self)@.remove(key).insert(key, value) =~= old(self)@.insert(key, value));
        }
        self.entries.push((key, value));
    }

    /// A copy of this store holding the same entries.
    pub fn duplicate(&self) -> (r: Self)
        ensures
            r.entries@ == self.entries@,
            r@ == self@,
            r.wf() == self.wf(),
    {
        let n = self.entries.len();
        let mut out: Vec<(u64, V)> = Vec::new();
        let mut i: usize = 0;
        while i < n
            invariant
                n == self.entries@.len(),
                i <= n,
                out@ == self.entries@.subrange(0, i as int),
            decreases n - i,
        {
            out.push(self.entries[i]);
            proof {
                assert(out@ =~= self.entries@.subrange(0, i + 1 as int));
            }
            i += 1;
        }
        proof {
            assert(out@ =~= self.entries@);
        }
        KvStore { entries: out }
    }
}

} // verus!
