//! Association lists: sequences of (key, value) entries read as mappings in
//! which a later entry for a key wins over an earlier one.

use vstd::prelude::*;

verus! {

/// The mapping that a sequence of (key, value) entries denotes; a later entry
/// for a key wins over an earlier one.
pub open spec fn entries_map<V>(s: Seq<(Seq<char>, V)>) -> Map<Seq<char>, V>
    decreases s.len(),
{
    if s.len() == 0 {
        Map::empty()
    } else {
        entries_map(s.drop_last()).insert(s.last().0, s.last().1)
    }
}

/// `j` is the last position of `k` among the entries.
pub open spec fn last_position<V>(s: Seq<(Seq<char>, V)>, k: Seq<char>, j: int) -> bool {
    &&& 0 <= j < s.len()
    &&& s[j].0 == k
    &&& forall|m: int| j < m < s.len() ==> #[trigger] s[m].0 != k
}

pub proof fn lemma_entries_map_absent<V>(s: Seq<(Seq<char>, V)>, k: Seq<char>)
    requires
        forall|m: int| 0 <= m < s.len() ==> #[trigger] s[m].0 != k,
    ensures
        !entries_map(s).contains_key(k),
    decreases s.len(),
{
    if s.len() > 0 {
        let t = s.drop_last();
        assert forall|m: int| 0 <= m < t.len() implies #[trigger] t[m].0 != k by {
            assert(t[m] == s[m]);
        }
        lemma_entries_map_absent(t, k);
        assert(s[s.len() - 1].0 != k);
    }
}

pub proof fn lemma_entries_map_last<V>(s: Seq<(Seq<char>, V)>, k: Seq<char>, j: int)
    requires
        last_position(s, k, j),
    ensures
        entries_map(s).contains_key(k),
        entries_map(s)[k] == s[j].1,
    decreases s.len(),
{
    if j < s.len() - 1 {
        let t = s.drop_last();
        assert(t[j] == s[j]);
        assert forall|m: int| j < m < t.len() implies #[trigger] t[m].0 != k by {
            assert(t[m] == s[m]);
        }
        lemma_entries_map_last(t, k, j);
        assert(s[s.len() - 1].0 != k);
    }
}

/// Either the key does not occur among the entries, or it has a last position.
pub proof fn entries_absent_or_last<V>(s: Seq<(Seq<char>, V)>, k: Seq<char>)
    ensures
        (forall|m: int| 0 <= m < s.len() ==> #[trigger] s[m].0 != k) || exists|j: int|
            last_position(s, k, j),
    decreases s.len(),
{
    if s.len() > 0 {
        if s.last().0 == k {
            assert(last_position(s, k, s.len() - 1));
        } else {
            let t = s.drop_last();
            entries_absent_or_last(t, k);
            if exists|j: int| last_position(t, k, j) {
                let j = choose|j: int| last_position(t, k, j);
                assert(t[j] == s[j]);
                assert forall|m: int| j < m < s.len() implies #[trigger] s[m].0 != k by {
                    if m < t.len() {
                        assert(t[m] == s[m]);
                    }
                }
                assert(last_position(s, k, j));
            } else {
                assert forall|m: int| 0 <= m < s.len() implies #[trigger] s[m].0 != k by {
                    if m < t.len() {
                        assert(t[m] == s[m]);
                    }
                }
            }
        }
    }
}


/// No key occurs twice among the entries.
pub open spec fn keys_distinct<V>(s: Seq<(Seq<char>, V)>) -> bool {
    forall|i: int, j: int| 0 <= i < s.len() && 0 <= j < s.len() && i != j ==> #[trigger] s[i].0 != #[trigger] s[j].0
}

pub proof fn lemma_entries_map_push<V>(s: Seq<(Seq<char>, V)>, k: Seq<char>, v: V)
    ensures
        entries_map(s.push((k, v))) == entries_map(s).insert(k, v),
{
    assert(s.push((k, v)).drop_last() =~= s);
}

/// Replacing the value at the last position of a key replaces it in the mapping.
pub proof fn lemma_entries_map_set<V>(s: Seq<(Seq<char>, V)>, i: int, v: V)
    requires
        0 <= i < s.len(),
        last_position(s, s[i].0, i),
    ensures
        entries_map(s.update(i, (s[i].0, v))) == entries_map(s).insert(s[i].0, v),
{
    let k = s[i].0;
    let after = s.update(i, (k, v));
    assert forall|j: int| 0 <= j < after.len() implies #[trigger] after[j].0 == s[j].0 by {}
    assert forall|kk: Seq<char>|
        #[trigger] entries_map(after).contains_key(kk) == entries_map(s).insert(k, v).contains_key(kk) by {
        if kk == k {
            lemma_entries_map_last(after, k, i);
        } else {
            entries_absent_or_last(s, kk);
            if exists|m: int| last_position(s, kk, m) {
                let m = choose|m: int| last_position(s, kk, m);
                lemma_entries_map_last(s, kk, m);
                assert(last_position(after, kk, m));
                lemma_entries_map_last(after, kk, m);
            } else {
                lemma_entries_map_absent(s, kk);
                assert forall|m: int| 0 <= m < after.len() implies #[trigger] after[m].0 != kk by {
                    assert(s[m].0 != kk);
                }
                lemma_entries_map_absent(after, kk);
            }
        }
    }
    assert forall|kk: Seq<char>| #[trigger] entries_map(after).contains_key(kk)
        implies entries_map(after)[kk] == entries_map(s).insert(k, v)[kk] by {
        if kk == k {
            lemma_entries_map_last(after, k, i);
        } else {
            entries_absent_or_last(after, kk);
            if forall|m: int| 0 <= m < after.len() ==> #[trigger] after[m].0 != kk {
                lemma_entries_map_absent(after, kk);
            } else {
                let m = choose|m: int| last_position(after, kk, m);
                lemma_entries_map_last(after, kk, m);
                assert forall|q: int| m < q < s.len() implies #[trigger] s[q].0 != kk by {
                    assert(after[q].0 != kk);
                }
                assert(last_position(s, kk, m));
                lemma_entries_map_last(s, kk, m);
            }
        }
    }
    assert(entries_map(after) =~= entries_map(s).insert(k, v));
}

/// With distinct keys, every position of a key is its last one.
pub proof fn lemma_distinct_last<V>(s: Seq<(Seq<char>, V)>, i: int)
    requires
        keys_distinct(s),
        0 <= i < s.len(),
    ensures
        last_position(s, s[i].0, i),
{
    assert forall|m: int| i < m < s.len() implies #[trigger] s[m].0 != s[i].0 by {}
}

/// With distinct keys, removing the entry at a position removes its key.
pub proof fn lemma_entries_map_remove<V>(s: Seq<(Seq<char>, V)>, i: int)
    requires
        keys_distinct(s),
        0 <= i < s.len(),
    ensures
        keys_distinct(s.remove(i)),
        entries_map(s.remove(i)) == entries_map(s).remove(s[i].0),
{
    let k = s[i].0;
    let after = s.remove(i);
    assert forall|j: int| 0 <= j < after.len() implies #[trigger] after[j] == (if j < i { s[j] } else { s[j + 1] }) by {}
    assert forall|a: int, b: int| 0 <= a < after.len() && 0 <= b < after.len() && a != b implies #[trigger] after[a].0 != #[trigger] after[b].0 by {
        let a2 = if a < i { a } else { a + 1 };
        let b2 = if b < i { b } else { b + 1 };
        assert(after[a] == s[a2]);
        assert(after[b] == s[b2]);
    }
    assert forall|kk: Seq<char>|
        #[trigger] entries_map(after).contains_key(kk) == entries_map(s).remove(k).contains_key(kk) && (entries_map(after).contains_key(kk) ==> entries_map(after)[kk] == entries_map(s)[kk]) by {
        if kk == k {
            assert forall|m: int| 0 <= m < after.len() implies #[trigger] after[m].0 != kk by {
                let m2 = if m < i { m } else { m + 1 };
                assert(after[m] == s[m2]);
            }
            lemma_entries_map_absent(after, kk);
        } else {
            entries_absent_or_last(s, kk);
            if exists|m: int| last_position(s, kk, m) {
                let m = choose|m: int| last_position(s, kk, m);
                lemma_entries_map_last(s, kk, m);
                let m2 = if m < i { m } else { m - 1 };
                assert(after[m2] == s[m]);
                lemma_distinct_last(after, m2);
                lemma_entries_map_last(after, kk, m2);
            } else {
                lemma_entries_map_absent(s, kk);
                assert forall|m: int| 0 <= m < after.len() implies #[trigger] after[m].0 != kk by {
                    let m2 = if m < i { m } else { m + 1 };
                    assert(after[m] == s[m2]);
                }
                lemma_entries_map_absent(after, kk);
            }
        }
    }
    assert(entries_map(after) =~= entries_map(s).remove(k));
}

} // verus!
