//! The session payload: a mapping from string keys to string values.

use vstd::prelude::*;
use vstd::string::*;
use crate::assoc::{
    entries_absent_or_last, entries_map, keys_distinct, last_position, lemma_entries_map_absent, lemma_entries_map_last,
    lemma_entries_map_push, lemma_entries_map_set,
};

verus! {

/// The entries of a vector of string pairs, seen as character sequences.
pub open spec fn pairs_view(v: Seq<(String, String)>) -> Seq<(Seq<char>, Seq<char>)> {
    v.map_values(|p: (String, String)| (p.0@, p.1@))
}

/// The state of one session: a mapping from string keys to string values.
#[derive(Clone, Debug)]
pub struct SessionState {
    entries: Vec<(String, String)>,
}

impl View for SessionState {
    type V = Map<Seq<char>, Seq<char>>;

    closed spec fn view(&self) -> Map<Seq<char>, Seq<char>> {
        entries_map(pairs_view(self.entries@))
    }
}

impl SessionState {
    /// Well-formed: no key occurs twice among the entries.
    pub closed spec fn wf(&self) -> bool {
        keys_distinct(pairs_view(self.entries@))
    }

    /// The empty session state.
    pub fn new() -> (r: SessionState)
        ensures
            r.wf(),
            r@ == Map::<Seq<char>, Seq<char>>::empty(),
    {
        let r = SessionState { entries: Vec::new() };
        assert(pairs_view(r.entries@) =~= Seq::empty());
        r
    }

    /// The state that the entries denote, a later entry for a key winning
    /// over an earlier one.
    pub fn from_entries(entries: Vec<(String, String)>) -> (r: SessionState)
        ensures
            r.wf(),
            r@ == entries_map(pairs_view(entries@)),
    {
        let ghost s = pairs_view(entries@);
        let mut r = SessionState::new();
        let mut i: usize = 0;
        while i < entries.len()
            invariant
                i <= entries@.len(),
                s == pairs_view(entries@),
                r.wf(),
                r@ == entries_map(s.subrange(0, i as int)),
            decreases entries@.len() - i,
        {
            let key = entries[i].0.clone();
            let value = entries[i].1.clone();
            r.insert(key, value);
            proof {
                assert(s.subrange(0, i + 1).drop_last() =~= s.subrange(0, i as int));
            }
            i = i + 1;
        }
        proof {
            assert(s.subrange(0, s.len() as int) =~= s);
        }
        r
    }

    /// The entries that make up the mapping.
    pub fn entries(&self) -> (r: &Vec<(String, String)>)
        ensures
            self@ == entries_map(pairs_view(r@)),
            self.wf() ==> keys_distinct(pairs_view(r@)),
    {
        &self.entries
    }

    /// The last position of `key` among the entries, if present.
    fn find(&self, key: &String) -> (r: Option<usize>)
        ensures
            match r {
                Some(i) => last_position(pairs_view(self.entries@), key@, i as int),
                None => forall|m: int|
                    0 <= m < self.entries@.len() ==> #[trigger] pairs_view(self.entries@)[m].0
                        != key@,
            },
    {
        let ghost s = pairs_view(self.entries@);
        let mut i: usize = self.entries.len();
        while i > 0
            invariant
                i <= self.entries@.len(),
                s == pairs_view(self.entries@),
                forall|m: int| i <= m < s.len() ==> #[trigger] s[m].0 != key@,
            decreases i,
        {
            i = i - 1;
            if self.entries[i].0 == *key {
                return Some(i);
            }
        }
        None
    }

    /// The value stored under `key`, if any.
    pub fn get(&self, key: &str) -> (r: Option<&String>)
        ensures
            match r {
                Some(v) => self@.contains_key(key@) && v@ == self@[key@],
                None => !self@.contains_key(key@),
            },
    {
        let k = String::from_str(key);
        match self.find(&k) {
            Some(i) => {
                proof {
                    lemma_entries_map_last(pairs_view(self.entries@), key@, i as int);
                }
                Some(&self.entries[i].1)
            },
            None => {
                proof {
                    lemma_entries_map_absent(pairs_view(self.entries@), key@);
                }
                None
            },
        }
    }

    /// Sets `key` to `value`, replacing any value it had.
    pub fn insert(&mut self, key: String, value: String)
        requires
            old(self).wf(),
        ensures
            final(self).wf(),
            final(self)@ == old(self)@.insert(key@, value@),
    {
        let ghost before = pairs_view(self.entries@);
        let ghost k = key@;
        let ghost v = value@;
        match self.find(&key) {
            Some(i) => {
                self.entries.set(i, (key, value));
                proof {
                    assert(pairs_view(self.entries@) =~= before.update(i as int, (k, v)));
                    lemma_entries_map_set(before, i as int, v);
                    let after = pairs_view(self.entries@);
                    assert forall|a: int, b: int|
                        0 <= a < after.len() && 0 <= b < after.len() && a != b implies #[trigger] after[a].0
                        != #[trigger] after[b].0 by {
                        assert(after[a].0 == before[a].0);
                        assert(after[b].0 == before[b].0);
                    }
                }
            },
            None => {
                self.entries.push((key, value));
                proof {
                    assert(pairs_view(self.entries@) =~= before.push((k, v)));
                    lemma_entries_map_push(before, k, v);
                    let after = pairs_view(self.entries@);
                    assert forall|a: int, b: int|
                        0 <= a < after.len() && 0 <= b < after.len() && a != b implies #[trigger] after[a].0
                        != #[trigger] after[b].0 by {
                        if a < before.len() {
                            assert(after[a] == before[a]);
                        }
                        if b < before.len() {
                            assert(after[b] == before[b]);
                        }
                    }
                }
            },
        }
    }

    /// Every key of this state has the same value in `other`.
    fn agrees_with(&self, other: &SessionState) -> (r: bool)
        ensures
            r == (forall|k: Seq<char>|
                #[trigger] self@.contains_key(k) ==> other@.contains_key(k) && other@[k] == self@[k]),
    {
        let ghost s = pairs_view(self.entries@);
        let mut i: usize = 0;
        while i < self.entries.len()
            invariant
                i <= self.entries@.len(),
                s == pairs_view(self.entries@),
                forall|m: int|
                    0 <= m < i ==> other@.contains_key(#[trigger] s[m].0) && other@[s[m].0]
                        == self@[s[m].0],
            decreases self.entries@.len() - i,
        {
            let key = self.entries[i].0.as_str();
            let mine = self.get(key);
            let theirs = other.get(key);
            proof {
                assert(s[i as int].0 == key@);
                entries_absent_or_last(s, key@);
                if forall|m: int| 0 <= m < s.len() ==> #[trigger] s[m].0 != key@ {
                    assert(s[i as int].0 != key@);
                }
                let j = choose|j: int| last_position(s, key@, j);
                lemma_entries_map_last(s, key@, j);
                assert(self@.contains_key(key@));
            }
            match (mine, theirs) {
                (Some(a), Some(b)) => {
                    if *a != *b {
                        return false;
                    }
                },
                _ => {
                    return false;
                },
            }
            i = i + 1;
        }
        proof {
            assert forall|k: Seq<char>| #[trigger] self@.contains_key(k) implies other@.contains_key(k)
                && other@[k] == self@[k] by {
                entries_absent_or_last(s, k);
                if forall|m: int| 0 <= m < s.len() ==> #[trigger] s[m].0 != k {
                    lemma_entries_map_absent(s, k);
                } else {
                    let m = choose|m: int| last_position(s, k, m);
                    assert(s[m].0 == k);
                }
            }
        }
        true
    }
}

impl PartialEq for SessionState {
    /// Two states are equal when they hold the same mapping, whatever the
    /// order of their entries.
    fn eq(&self, other: &SessionState) -> (r: bool) {
        let r = self.agrees_with(other) && other.agrees_with(self);
        proof {
            if r {
                assert(self@ =~= other@);
            }
        }
        r
    }
}

impl vstd::std_specs::cmp::PartialEqSpecImpl for SessionState {
    open spec fn obeys_eq_spec() -> bool {
        true
    }

    open spec fn eq_spec(&self, other: &SessionState) -> bool {
        self@ == other@
    }
}

} // verus!
