//! Metadata Cache: memoizes remote metadata lookups keyed by catalog item
//! id; entries live for the whole process and are never evicted.
//!
//! The fetch protocol around it is: look the key up under the lock; on a
//! miss, release the lock, let the surrounding binary perform the network
//! request, and insert whatever well-formed body came back. Concurrent
//! fetchers may race to fill the same key; the last write wins, which is
//! harmless because fetched metadata for one key never differs in meaning.
use vstd::prelude::*;
use vstd::pervasive::VecAdditionalExecFns;

use crate::models::GameMetadata;
use crate::strutil::str_eq;

verus! {

/// One memoized lookup: the catalog item id and the metadata it returned.
pub struct CacheEntry {
    pub key: String,
    pub value: GameMetadata,
}

/// Some entry of the sequence carries this key.
pub open spec fn cache_contains_key(s: Seq<CacheEntry>, key: Seq<char>) -> bool {
    exists|i: int| 0 <= i < s.len() && #[trigger] s[i].key@ == key
}

/// The index of the entry carrying this key (unique when keys are).
pub open spec fn cache_key_index(s: Seq<CacheEntry>, key: Seq<char>) -> int {
    choose|i: int| 0 <= i < s.len() && #[trigger] s[i].key@ == key
}

/// No two entries of the sequence share a key.
pub open spec fn cache_keys_unique(s: Seq<CacheEntry>) -> bool {
    forall|i: int, j: int|
        0 <= i < j < s.len() ==> #[trigger] s[i].key@ != #[trigger] s[j].key@
}

/// The mutex-guarded memo table from catalog item id to metadata. The
/// mathematical view is the sequence of entries; keys are unique by
/// invariant.
pub struct MetadataCache {
    entries: Vec<CacheEntry>,
}

impl View for MetadataCache {
    type V = Seq<CacheEntry>;

    closed spec fn view(&self) -> Seq<CacheEntry> {
        self.entries@
    }
}

impl MetadataCache {
    /// The cache's invariant: catalog item ids are unique.
    pub open spec fn wf(&self) -> bool {
        cache_keys_unique(self@)
    }

    /// An empty cache.
    pub fn new() -> (c: MetadataCache)
        ensures
            c@ == Seq::<CacheEntry>::empty(),
            c.wf(),
    {
        MetadataCache { entries: Vec::new() }
    }

    /// How many keys have been memoized.
    pub fn len(&self) -> (n: usize)
        ensures
            n == self@.len(),
    {
        self.entries.len()
    }

    /// The memoized metadata under this catalog item id, if any. With
    /// unique keys the returned value is the one entry carrying the key.
    pub fn lookup(&self, key: &str) -> (r: Option<&GameMetadata>)
        requires
            self.wf(),
        ensures
            r is Some <==> cache_contains_key(self@, key@),
            r matches Some(m) ==> exists|i: int|
                0 <= i < self@.len() && #[trigger] self@[i].key@ == key@ && self@[i].value == *m,
    {
        let n = self.entries.len();
        for i in 0..n
            invariant
                n == self@.len(),
                forall|j: int| 0 <= j < i ==> #[trigger] self@[j].key@ != key@,
        {
            if str_eq(self.entries[i].key.as_str(), key) {
                return Some(&self.entries[i].value);
            }
        }
        None
    }

    /// Memoize fetched metadata under its catalog item id; when a racing
    /// fetch already filled the key, the new value wins.
    pub fn insert(&mut self, key: String, value: GameMetadata)
        requires
            old(self).wf(),
        ensures
            final(self).wf(),
            cache_contains_key(final(self)@, key@),
            final(self)@.len() == if cache_contains_key(old(self)@, key@) {
                old(self)@.len()
            } else {
                old(self)@.len() + 1
            },
            forall|i: int|
                0 <= i < final(self)@.len() && #[trigger] final(self)@[i].key@ == key@
                    ==> final(self)@[i].value == value,
            forall|i: int|
                0 <= i < old(self)@.len() && #[trigger] old(self)@[i].key@ != key@
                    ==> final(self)@[i] == old(self)@[i],
    {
        let n = self.entries.len();
        for i in 0..n
            invariant
                n == self@.len(),
                self.wf(),
                self@ == old(self)@,
                forall|j: int| 0 <= j < i ==> #[trigger] self@[j].key@ != key@,
        {
            if str_eq(self.entries[i].key.as_str(), key.as_str()) {
                self.entries.set(i, CacheEntry { key, value });
                proof {
                    assert(self@[i as int].key@ == key@);
                }
                return ;
            }
        }
        proof {
            assert(!cache_contains_key(self@, key@));
        }
        self.entries.push(CacheEntry { key, value });
        proof {
            assert(self@[self@.len() - 1].key@ == key@);
        }
    }
}

} // verus!
