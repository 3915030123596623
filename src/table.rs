//! An in-memory table offering the backend contract that the session store
//! relies on: single-key get, put-if-absent, put-if-present, expiry update
//! and delete, plus backend-driven expiry.

use vstd::prelude::*;
use vstd::string::*;
use crate::assoc::{
    entries_absent_or_last, entries_map, keys_distinct, last_position, lemma_distinct_last, lemma_entries_map_absent,
    lemma_entries_map_last, lemma_entries_map_push, lemma_entries_map_remove,
    lemma_entries_map_set,
};

verus! {

/// One stored record: the encoded session state and the absolute time (in
/// milliseconds since the Unix epoch) after which the backend may drop it.
#[derive(Clone, Debug)]
pub struct StoredItem {
    pub data: String,
    pub expires_at: u64,
}

/// What a stored record holds, as plain values.
pub struct ItemView {
    pub data: Seq<char>,
    pub expires_at: u64,
}

impl View for StoredItem {
    type V = ItemView;

    open spec fn view(&self) -> ItemView {
        ItemView { data: self.data@, expires_at: self.expires_at }
    }
}

impl StoredItem {
    /// A copy of the record.
    pub fn duplicate(&self) -> (r: StoredItem)
        ensures
            r@ == self@,
    {
        StoredItem { data: self.data.clone(), expires_at: self.expires_at }
    }
}

/// How a backend write ended, once the backend's own error shapes have been
/// classified.
#[derive(Clone, Copy, Debug, PartialEq, Eq, Structural)]
pub enum WriteOutcome {
    /// The write was applied.
    Written,
    /// The write's condition on the key's existence did not hold.
    ConditionFailed,
    /// Any other failure of the backend.
    Failed,
}

/// The records of a table, keyed by storage key.
pub open spec fn items_view(v: Seq<(String, StoredItem)>) -> Seq<(Seq<char>, ItemView)> {
    v.map_values(|p: (String, StoredItem)| (p.0@, p.1@))
}

/// A table of records held in memory, one per storage key.
#[derive(Debug)]
pub struct MemoryTable {
    items: Vec<(String, StoredItem)>,
}

impl View for MemoryTable {
    type V = Map<Seq<char>, ItemView>;

    closed spec fn view(&self) -> Map<Seq<char>, ItemView> {
        entries_map(items_view(self.items@))
    }
}

impl MemoryTable {
    /// Well-formed: no storage key occurs twice.
    pub closed spec fn wf(&self) -> bool {
        keys_distinct(items_view(self.items@))
    }

    /// An empty table.
    pub fn new() -> (r: MemoryTable)
        ensures
            r.wf(),
            r@ == Map::<Seq<char>, ItemView>::empty(),
    {
        let r = MemoryTable { items: Vec::new() };
        assert(items_view(r.items@) =~= Seq::empty());
        r
    }

    /// The position of `key`, if present.
    fn find(&self, key: &str) -> (r: Option<usize>)
        requires
            self.wf(),
        ensures
            match r {
                Some(i) => i < self.items@.len() && last_position(
                    items_view(self.items@),
                    key@,
                    i as int,
                ),
                None => !self@.contains_key(key@),
            },
    {
        let k = String::from_str(key);
        let ghost s = items_view(self.items@);
        let mut i: usize = 0;
        while i < self.items.len()
            invariant
                i <= self.items@.len(),
                s == items_view(self.items@),
                keys_distinct(s),
                k@ == key@,
                forall|m: int| 0 <= m < i ==> #[trigger] s[m].0 != key@,
            decreases self.items@.len() - i,
        {
            if self.items[i].0 == k {
                proof {
                    lemma_distinct_last(s, i as int);
                }
                return Some(i);
            }
            i = i + 1;
        }
        proof {
            lemma_entries_map_absent(s, key@);
        }
        None
    }

    /// The record stored under `key`, if any.
    pub fn get(&self, key: &str) -> (r: Option<StoredItem>)
        requires
            self.wf(),
        ensures
            match r {
                Some(item) => self@.contains_key(key@) && item@ == self@[key@],
                None => !self@.contains_key(key@),
            },
    {
        match self.find(key) {
            Some(i) => {
                proof {
                    lemma_entries_map_last(items_view(self.items@), key@, i as int);
                }
                Some(self.items[i].1.duplicate())
            },
            None => None,
        }
    }

    /// Stores `item` under `key` only if no record has that key.
    pub fn put_if_absent(&mut self, key: String, item: StoredItem) -> (r: WriteOutcome)
        requires
            old(self).wf(),
        ensures
            final(self).wf(),
            old(self)@.contains_key(key@) ==> r == WriteOutcome::ConditionFailed && final(self)@
                == old(self)@,
            !old(self)@.contains_key(key@) ==> r == WriteOutcome::Written && final(self)@ == old(
                self,
            )@.insert(key@, item@),
    {
        match self.find(key.as_str()) {
            Some(i) => {
                proof {
                    lemma_entries_map_last(items_view(self.items@), key@, i as int);
                }
                WriteOutcome::ConditionFailed
            },
            None => {
                let ghost before = items_view(self.items@);
                let ghost k = key@;
                let ghost v = item@;
                proof {
                    lemma_entries_map_push(before, k, v);
                    assert forall|m: int| 0 <= m < before.len() implies #[trigger] before[m].0 != k by {
                        if before[m].0 == k {
                            lemma_distinct_last(before, m);
                            lemma_entries_map_last(before, k, m);
                        }
                    }
                }
                self.items.push((key, item));
                proof {
                    assert(items_view(self.items@) =~= before.push((k, v)));
                }
                WriteOutcome::Written
            },
        }
    }

    /// Replaces the record under `key` with `item` only if a record has that key.
    pub fn put_if_present(&mut self, key: String, item: StoredItem) -> (r: WriteOutcome)
        requires
            old(self).wf(),
        ensures
            final(self).wf(),
            old(self)@.contains_key(key@) ==> r == WriteOutcome::Written && final(self)@ == old(
                self,
            )@.insert(key@, item@),
            !old(self)@.contains_key(key@) ==> r == WriteOutcome::ConditionFailed && final(self)@
                == old(self)@,
    {
        match self.find(key.as_str()) {
            Some(i) => {
                let ghost before = items_view(self.items@);
                let ghost v = item@;
                proof {
                    lemma_entries_map_last(before, key@, i as int);
                }
                self.items.set(i, (key, item));
                proof {
                    assert(items_view(self.items@) =~= before.update(i as int, (before[i as int].0, v)));
                    lemma_entries_map_set(before, i as int, v);
                    assert forall|a: int, b: int| 0 <= a < before.len() && 0 <= b < before.len() && a != b implies #[trigger] items_view(self.items@)[a].0 != #[trigger] items_view(self.items@)[b].0 by {
                        assert(items_view(self.items@)[a].0 == before[a].0);
                        assert(items_view(self.items@)[b].0 == before[b].0);
                    }
                }
                WriteOutcome::Written
            },
            None => WriteOutcome::ConditionFailed,
        }
    }

    /// Sets the expiry time of the record under `key`; a key with no record is
    /// left absent.
    pub fn set_expiry(&mut self, key: &str, expires_at: u64) -> (r: WriteOutcome)
        requires
            old(self).wf(),
        ensures
            final(self).wf(),
            old(self)@.contains_key(key@) ==> r == WriteOutcome::Written && final(self)@ == old(
                self,
            )@.insert(key@, ItemView { data: old(self)@[key@].data, expires_at }),
            !old(self)@.contains_key(key@) ==> r == WriteOutcome::ConditionFailed && final(self)@
                == old(self)@,
    {
        match self.find(key) {
            Some(i) => {
                let ghost before = items_view(self.items@);
                proof {
                    lemma_entries_map_last(before, key@, i as int);
                }
                let k = self.items[i].0.clone();
                let data = self.items[i].1.data.clone();
                let item = StoredItem { data, expires_at };
                let ghost v = item@;
                self.items.set(i, (k, item));
                proof {
                    assert(items_view(self.items@) =~= before.update(i as int, (before[i as int].0, v)));
                    lemma_entries_map_set(before, i as int, v);
                    assert forall|a: int, b: int| 0 <= a < before.len() && 0 <= b < before.len() && a != b implies #[trigger] items_view(self.items@)[a].0 != #[trigger] items_view(self.items@)[b].0 by {
                        assert(items_view(self.items@)[a].0 == before[a].0);
                        assert(items_view(self.items@)[b].0 == before[b].0);
                    }
                }
                WriteOutcome::Written
            },
            None => WriteOutcome::ConditionFailed,
        }
    }

    /// Removes the record under `key`, if any.
    pub fn delete(&mut self, key: &str)
        requires
            old(self).wf(),
        ensures
            final(self).wf(),
            final(self)@ == old(self)@.remove(key@),
    {
        match self.find(key) {
            Some(i) => {
                let ghost before = items_view(self.items@);
                self.items.remove(i);
                proof {
                    assert(items_view(self.items@) =~= before.remove(i as int));
                    lemma_entries_map_remove(before, i as int);
                }
            },
            None => {
                assert(self@ =~= self@.remove(key@));
            },
        }
    }

    /// Drops every record whose expiry time is at or before `now_ms`, as the
    /// backend's own expiry does.
    pub fn expire(&mut self, now_ms: u64)
        requires
            old(self).wf(),
        ensures
            final(self).wf(),
            forall|k: Seq<char>|
                #[trigger] final(self)@.contains_key(k) <==> old(self)@.contains_key(k) && old(
                    self,
                )@[k].expires_at > now_ms,
            forall|k: Seq<char>| #[trigger]
                final(self)@.contains_key(k) ==> final(self)@[k] == old(self)@[k],
    {
        let ghost first = self@;
        let mut i: usize = self.items.len();
        while i > 0
            invariant
                self.wf(),
                i <= self.items@.len(),
                forall|j: int| i <= j < self.items@.len() ==> #[trigger] self.items@[j].1.expires_at > now_ms,
                forall|k: Seq<char>| #[trigger]
                    self@.contains_key(k) ==> first.contains_key(k) && self@[k] == first[k],
                forall|k: Seq<char>| #[trigger]
                    first.contains_key(k) && first[k].expires_at > now_ms ==> self@.contains_key(k),
            decreases i,
        {
            i = i - 1;
            if self.items[i].1.expires_at <= now_ms {
                let ghost before = items_view(self.items@);
                let ghost k = before[i as int].0;
                let ghost cur = self@;
                proof {
                    lemma_distinct_last(before, i as int);
                    lemma_entries_map_last(before, k, i as int);
                }
                self.items.remove(i);
                proof {
                    assert(items_view(self.items@) =~= before.remove(i as int));
                    lemma_entries_map_remove(before, i as int);
                    assert(self@ == cur.remove(k));
                    assert forall|kk: Seq<char>| #[trigger] self@.contains_key(kk) implies first.contains_key(kk) && self@[kk] == first[kk] by {
                        assert(cur.contains_key(kk));
                    }
                    assert forall|j: int| i <= j < self.items@.len() implies #[trigger] self.items@[j].1.expires_at > now_ms by {
                        assert(items_view(self.items@)[j] == before[j + 1]);
                    }
                }
            }
        }
        proof {
            let s = items_view(self.items@);
            assert forall|k: Seq<char>| #[trigger] self@.contains_key(k) implies first[k].expires_at > now_ms by {
                entries_absent_or_last(s, k);
                if forall|m: int| 0 <= m < s.len() ==> #[trigger] s[m].0 != k {
                    lemma_entries_map_absent(s, k);
                } else {
                    let m = choose|m: int| last_position(s, k, m);
                    lemma_entries_map_last(s, k, m);
                    assert(self.items@[m].1.expires_at > now_ms);
                }
            }
        }
    }
}

} // verus!
