//! Ghost model shared by the key-to-value tables of this crate: an entry
//! list abstracts to a `Map`, later entries winning, and a well-formed list
//! carries each key at most once.

use vstd::prelude::*;

verus! {

/// The map held by the entry list `s`, later entries winning.
pub open spec fn assoc<K, V>(s: Seq<(K, V)>) -> Map<K, V>
    decreases s.len(),
{
    if s.len() == 0 {
        Map::empty()
    } else {
        assoc(s.drop_last()).insert(s.last().0, s.last().1)
    }
}

/// Whether no two entries share a key.
pub open spec fn distinct_keys<K, V>(s: Seq<(K, V)>) -> bool {
    forall|i: int, j: int| 0 <= i < j < s.len() ==> s[i].0 != s[j].0
}

/// A key is in the map exactly when some entry carries it.
pub proof fn lemma_assoc_contains<K, V>(s: Seq<(K, V)>, k: K)
    ensures
        assoc(s).dom().contains(k) <==> exists|j: int| 0 <= j < s.len() && s[j].0 == k,
    decreases s.len(),
{
    if s.len() > 0 {
        lemma_assoc_contains(s.drop_last(), k);
        if s.last().0 != k && assoc(s).dom().contains(k) {
            let j = choose|j: int| 0 <= j < s.drop_last().len() && s.drop_last()[j].0 == k;
            assert(s[j].0 == k);
        }
        if exists|j: int| 0 <= j < s.len() && s[j].0 == k {
            let j = choose|j: int| 0 <= j < s.len() && s[j].0 == k;
            if j < s.len() - 1 {
                assert(s.drop_last()[j].0 == k);
            }
        }
    }
}

/// The entry carrying a key, when no later entry carries it too, gives the
/// key's value in the map.
pub proof fn lemma_assoc_at<K, V>(s: Seq<(K, V)>, i: int)
    requires
        0 <= i < s.len(),
        forall|j: int| i < j < s.len() ==> s[j].0 != s[i].0,
    ensures
        assoc(s).dom().contains(s[i].0),
        assoc(s)[s[i].0] == s[i].1,
    decreases s.len(),
{
    if i == s.len() - 1 {
    } else {
        lemma_assoc_at(s.drop_last(), i);
    }
}

/// Overwriting the entry that carries a key updates the map at that key.
pub proof fn lemma_assoc_update<K, V>(s: Seq<(K, V)>, i: int, v: V)
    requires
        0 <= i < s.len(),
        distinct_keys(s),
    ensures
        assoc(s.update(i, (s[i].0, v))) =~= assoc(s).insert(s[i].0, v),
    decreases s.len(),
{
    let t = s.update(i, (s[i].0, v));
    if i == s.len() - 1 {
        assert(t.drop_last() =~= s.drop_last());
    } else {
        assert(t.drop_last() =~= s.drop_last().update(i, (s[i].0, v)));
        assert(t.last() == s.last());
        lemma_assoc_update(s.drop_last(), i, v);
        assert(s.last().0 != s[i].0);
    }
}

/// Appending an entry inserts its key into the map.
pub proof fn lemma_assoc_push<K, V>(s: Seq<(K, V)>, p: (K, V))
    ensures
        assoc(s.push(p)) == assoc(s).insert(p.0, p.1),
{
    assert(s.push(p).drop_last() =~= s);
}

} // verus!
