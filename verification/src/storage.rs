use vstd::prelude::*;
use std::collections::BTreeMap;

verus! {

/// A key-value storage map in the style of the runtime's storage: a key may
/// be present or absent, and readers that expect a value get a default for an
/// absent key.
pub struct StorageMap<K, V> {
    inner: BTreeMap<K, V>,
}

impl<K: Ord + Copy, V: Copy> StorageMap<K, V> {
    /// What the map holds.
    pub closed spec fn view(&self) -> Map<K, V> {
        self.inner@
    }

    /// The value at `k`, or `default` where `k` is absent.
    pub open spec fn get_or(&self, k: K, default: V) -> V {
        if self@.contains_key(k) { self@[k] } else { default }
    }

    /// A map holds finitely many entries.
    pub proof fn lemma_view_finite(&self)
        ensures
            self@.dom().finite(),
    {
    }

    pub fn new() -> (m: Self)
        ensures
            m@ == Map::<K, V>::empty(),
    {
        StorageMap { inner: BTreeMap::new() }
    }

    pub fn contains_key(&self, k: K) -> (r: bool)
        requires
            vstd::laws_cmp::obeys_cmp::<K>(),
        ensures
            r == self@.contains_key(k),
    {
        self.inner.contains_key(&k)
    }

    pub fn get(&self, k: K) -> (r: Option<V>)
        requires
            vstd::laws_cmp::obeys_cmp::<K>(),
        ensures
            r == (if self@.contains_key(k) { Some(self@[k]) } else { None::<V> }),
    {
        match self.inner.get(&k) {
            Some(v) => Some(*v),
            None => None,
        }
    }

    /// The value at `k`, or `default` where `k` is absent.
    pub fn get_or_default(&self, k: K, default: V) -> (r: V)
        requires
            vstd::laws_cmp::obeys_cmp::<K>(),
        ensures
            r == self.get_or(k, default),
    {
        match self.inner.get(&k) {
            Some(v) => *v,
            None => default,
        }
    }

    pub fn insert(&mut self, k: K, v: V)
        requires
            vstd::laws_cmp::obeys_cmp::<K>(),
        ensures
            final(self)@ == old(self)@.insert(k, v),
    {
        self.inner.insert(k, v);
    }

    pub fn remove(&mut self, k: K)
        requires
            vstd::laws_cmp::obeys_cmp::<K>(),
        ensures
            final(self)@ == old(self)@.remove(k),
    {
        self.inner.remove(&k);
    }
}

} // verus!
