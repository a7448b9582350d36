//! A model of the content-addressed store: which store keys hold an entry.
//!
//! The caller mirrors this bookkeeping on disk: an entry is recorded here
//! exactly when the corresponding directory is materialized under the store
//! root, so the idempotence facts proved here are facts about the store.

use vstd::prelude::*;
use crate::strutil::str_eq;

verus! {

/// The set of store keys that currently hold an entry.
pub struct StoreModel {
    /// The directory names (store keys) present under the store root.
    pub keys: Vec<String>,
}

impl StoreModel {
    /// Well-formed: at most one directory per store key.
    pub open spec fn wf(self) -> bool {
        forall|i: int, j: int|
            0 <= i < self.keys@.len() && 0 <= j < self.keys@.len() && i != j
                ==> self.keys@[i]@ != self.keys@[j]@
    }

    /// Whether the store holds an entry for `k`.
    pub open spec fn spec_contains(self, k: Seq<char>) -> bool {
        exists|i: int| 0 <= i < self.keys@.len() && self.keys@[i]@ == k
    }

    /// An empty store.
    pub fn new() -> (s: Self)
        ensures
            s.wf(),
            forall|k: Seq<char>| !s.spec_contains(k),
    {
        StoreModel { keys: Vec::new() }
    }

    /// Whether the store holds an entry for `key`.
    pub fn contains(&self, key: &str) -> (r: bool)
        ensures
            r == self.spec_contains(key@),
    {
        let mut i: usize = 0;
        while i < self.keys.len()
            invariant
                i <= self.keys@.len(),
                forall|n: int| 0 <= n < i ==> self.keys@[n]@ != key@,
            decreases self.keys@.len() - i,
        {
            if str_eq(self.keys[i].as_str(), key) {
                return true;
            }
            i += 1;
        }
        false
    }

    /// Ensure a store entry for `key`: a no-op when one already exists
    /// (extraction is never repeated for a materialized package), else the
    /// entry is recorded. Returns whether an extraction took place.
    pub fn ensure_extracted(&mut self, key: &str) -> (did_extract: bool)
        requires
            old(self).wf(),
        ensures
            final(self).wf(),
            did_extract == !old(self).spec_contains(key@),
            !did_extract ==> *final(self) == *old(self),
            final(self).spec_contains(key@),
            forall|k: Seq<char>|
                final(self).spec_contains(k) <==> (old(self).spec_contains(k) || k == key@),
    {
        if self.contains(key) {
            return false;
        }
        let entry = key.to_owned();
        self.keys.push(entry);
        proof {
            let n = self.keys@.len() - 1;
            assert(self.keys@[n]@ == key@);
            assert(forall|m: int| 0 <= m < n ==> self.keys@[m] == old(self).keys@[m]);
            assert forall|k: Seq<char>|
                self.spec_contains(k) implies (old(self).spec_contains(k) || k == key@) by {
                let i = choose|i: int| 0 <= i < self.keys@.len() && self.keys@[i]@ == k;
                if i < n {
                    assert(old(self).keys@[i]@ == k);
                }
            }
            assert forall|k: Seq<char>|
                old(self).spec_contains(k) implies self.spec_contains(k) by {
                let i = choose|i: int|
                    0 <= i < old(self).keys@.len() && old(self).keys@[i]@ == k;
                assert(self.keys@[i]@ == k);
            }
        }
        true
    }
}

/// Law: a well-formed store holds at most one entry per store key — two
/// directory slots carrying the same key are the same slot.
pub proof fn lemma_store_entry_unique(s: StoreModel, i: int, j: int)
    requires
        s.wf(),
        0 <= i < s.keys@.len(),
        0 <= j < s.keys@.len(),
        s.keys@[i]@ == s.keys@[j]@,
    ensures
        i == j,
{
}

} // verus!
