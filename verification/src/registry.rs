//! Registry: the shared snapshot of discovered packages, keyed by app key.
//!
//! Keys are unique and insertion order carries no meaning. Each successful
//! scan replaces the whole snapshot in one step: a holder of the registry
//! observes either the records of the previous scan or the records of the
//! new one, never a half-built mixture, because the replacement is a single
//! operation on the exclusively borrowed value.
use vstd::prelude::*;
use vstd::pervasive::VecAdditionalExecFns;

use crate::models::{record_eqv, GameInfo};
use crate::strutil::str_eq;

verus! {

/// Some record of the sequence carries this app key.
pub open spec fn contains_key(s: Seq<GameInfo>, key: Seq<char>) -> bool {
    exists|i: int| 0 <= i < s.len() && #[trigger] s[i].app_name@ == key
}

/// The index of the record carrying this app key (unique when keys are).
pub open spec fn key_index(s: Seq<GameInfo>, key: Seq<char>) -> int {
    choose|i: int| 0 <= i < s.len() && #[trigger] s[i].app_name@ == key
}

/// No two records of the sequence share an app key.
pub open spec fn keys_unique(s: Seq<GameInfo>) -> bool {
    forall|i: int, j: int|
        0 <= i < j < s.len() ==> #[trigger] s[i].app_name@ != #[trigger] s[j].app_name@
}

/// One record folded into a snapshot: it replaces the record with its key,
/// or extends the snapshot when its key is new.
pub open spec fn upsert(s: Seq<GameInfo>, g: GameInfo) -> Seq<GameInfo> {
    if contains_key(s, g.app_name@) {
        s.update(key_index(s, g.app_name@), g)
    } else {
        s.push(g)
    }
}

/// The snapshot a scan's record list builds, later records winning the key.
pub open spec fn rebuilt(records: Seq<GameInfo>) -> Seq<GameInfo>
    decreases records.len(),
{
    if records.len() == 0 {
        Seq::empty()
    } else {
        upsert(rebuilt(records.drop_last()), records.last())
    }
}

/// The mutex-guarded map from app key to package record. The mathematical
/// view is the sequence of records; keys are unique by invariant.
pub struct Registry {
    entries: Vec<GameInfo>,
}

impl View for Registry {
    type V = Seq<GameInfo>;

    closed spec fn view(&self) -> Seq<GameInfo> {
        self.entries@
    }
}

impl Registry {
    /// The registry's invariant: app keys are unique.
    pub open spec fn wf(&self) -> bool {
        keys_unique(self@)
    }

    /// An empty registry.
    pub fn new() -> (r: Registry)
        ensures
            r@ == Seq::<GameInfo>::empty(),
            r.wf(),
    {
        Registry { entries: Vec::new() }
    }

    /// How many packages the current snapshot holds.
    pub fn len(&self) -> (n: usize)
        ensures
            n == self@.len(),
    {
        self.entries.len()
    }

    /// The record under this app key, if any. With unique keys the returned
    /// record is the one record carrying the key.
    pub fn get(&self, key: &str) -> (r: Option<&GameInfo>)
        requires
            self.wf(),
        ensures
            r is Some <==> contains_key(self@, key@),
            r matches Some(g) ==> exists|i: int|
                0 <= i < self@.len() && #[trigger] self@[i].app_name@ == key@ && self@[i] == *g,
    {
        let n = self.entries.len();
        for i in 0..n
            invariant
                n == self@.len(),
                forall|j: int| 0 <= j < i ==> #[trigger] self@[j].app_name@ != key@,
        {
            if str_eq(self.entries[i].app_name.as_str(), key) {
                return Some(&self.entries[i]);
            }
        }
        None
    }

    /// The first record carrying both this catalog item id and this
    /// installation identifier, as the single-record upload command selects
    /// it, if any.
    pub fn find_by_ids(&self, catalog_item_id: &str, installation_guid: &str) -> (r: Option<
        &GameInfo,
    >)
        ensures
            r is Some <==> exists|i: int|
                0 <= i < self@.len() && (#[trigger] self@[i]).catalog_item_id@ == catalog_item_id@
                    && self@[i].installation_guid@ == installation_guid@,
            r matches Some(g) ==> exists|i: int|
                0 <= i < self@.len() && #[trigger] self@[i] == *g && g.catalog_item_id@
                    == catalog_item_id@ && g.installation_guid@ == installation_guid@,
    {
        let n = self.entries.len();
        for i in 0..n
            invariant
                n == self@.len(),
                forall|j: int|
                    0 <= j < i ==> !((#[trigger] self@[j]).catalog_item_id@ == catalog_item_id@
                        && self@[j].installation_guid@ == installation_guid@),
        {
            if str_eq(self.entries[i].catalog_item_id.as_str(), catalog_item_id) && str_eq(
                self.entries[i].installation_guid.as_str(),
                installation_guid,
            ) {
                return Some(&self.entries[i]);
            }
        }
        None
    }

    /// Fold one record into the snapshot under its app key.
    fn upsert_one(&mut self, g: GameInfo)
        requires
            old(self).wf(),
        ensures
            final(self)@ == upsert(old(self)@, g),
            final(self).wf(),
    {
        let n = self.entries.len();
        for i in 0..n
            invariant
                n == self@.len(),
                self.wf(),
                self@ == old(self)@,
                forall|j: int| 0 <= j < i ==> #[trigger] self@[j].app_name@ != g.app_name@,
        {
            if str_eq(self.entries[i].app_name.as_str(), g.app_name.as_str()) {
                proof {
                    assert(contains_key(self@, g.app_name@));
                    assert(key_index(self@, g.app_name@) == i as int) by {
                        let k = key_index(self@, g.app_name@);
                        assert(0 <= k < self@.len() && self@[k].app_name@ == g.app_name@);
                    }
                }
                self.entries.set(i, g);
                return ;
            }
        }
        proof {
            assert(!contains_key(self@, g.app_name@));
        }
        self.entries.push(g);
    }

    /// Atomically replace the snapshot with the records of a completed
    /// scan, later records winning their key. Returns the size of the
    /// replaced snapshot, compared with the new size by the caller as the
    /// change heuristic.
    pub fn replace_all(&mut self, records: Vec<GameInfo>) -> (old_len: usize)
        requires
            old(self).wf(),
        ensures
            final(self)@ == rebuilt(records@),
            final(self).wf(),
            old_len == old(self)@.len(),
    {
        let previous = self.entries.len();
        self.entries.clear();
        let mut rest = records;
        let ghost all = rest@;
        let ghost done: int = 0;
        while rest.len() > 0
            invariant
                0 <= done <= all.len(),
                rest@ =~= all.subrange(done, all.len() as int),
                self@ == rebuilt(all.subrange(0, done)),
                self.wf(),
            decreases rest@.len(),
        {
            let g = rest.remove(0);
            proof {
                assert(g == all[done]);
                assert(all.subrange(0, done + 1).drop_last() =~= all.subrange(0, done));
                assert(all.subrange(0, done + 1).last() == all[done]);
            }
            self.upsert_one(g);
            proof {
                done = done + 1;
            }
        }
        proof {
            assert(all.subrange(0, done) =~= all);
        }
        previous
    }

    /// A copy of every record of the current snapshot, in snapshot order;
    /// the upload batch runs over such a copy while scans go on replacing
    /// the registry.
    pub fn snapshot(&self) -> (r: Vec<GameInfo>)
        ensures
            r@.len() == self@.len(),
            forall|i: int| 0 <= i < self@.len() ==> record_eqv(#[trigger] r@[i], self@[i]),
    {
        let n = self.entries.len();
        let mut out: Vec<GameInfo> = Vec::new();
        for i in 0..n
            invariant
                n == self@.len(),
                out@.len() == i,
                forall|j: int| 0 <= j < i ==> record_eqv(#[trigger] out@[j], self@[j]),
        {
            out.push(self.entries[i].clone());
        }
        out
    }
}

} // verus!
