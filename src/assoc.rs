use vstd::prelude::*;

verus! {

/// The value bound to `k` in an association list, the last binding winning.
pub open spec fn assoc<K, V>(s: Seq<(K, V)>, k: K) -> Option<V>
    decreases s.len(),
{
    if s.len() == 0 {
        None
    } else if s.last().0 == k {
        Some(s.last().1)
    } else {
        assoc(s.drop_last(), k)
    }
}

/// The association list read as a map.
pub open spec fn assoc_map<K, V>(s: Seq<(K, V)>) -> Map<K, V> {
    Map::new(|k: K| assoc(s, k) is Some, |k: K| assoc(s, k)->0)
}

pub proof fn lemma_assoc_absent<K, V>(s: Seq<(K, V)>, k: K)
    requires
        forall|j: int| 0 <= j < s.len() ==> s[j].0 != k,
    ensures
        assoc(s, k) is None,
    decreases s.len(),
{
    if s.len() > 0 {
        lemma_assoc_absent(s.drop_last(), k);
    }
}

pub proof fn lemma_assoc_found<K, V>(s: Seq<(K, V)>, i: int, k: K)
    requires
        0 <= i < s.len(),
        s[i].0 == k,
        forall|j: int| i < j < s.len() ==> s[j].0 != k,
    ensures
        assoc(s, k) == Some(s[i].1),
    decreases s.len(),
{
    if i < s.len() - 1 {
        lemma_assoc_found(s.drop_last(), i, k);
    }
}

pub proof fn lemma_assoc_some_index<K, V>(s: Seq<(K, V)>, k: K) -> (j: int)
    requires
        assoc(s, k) is Some,
    ensures
        0 <= j < s.len(),
        s[j].0 == k,
        s[j].1 == assoc(s, k)->0,
    decreases s.len(),
{
    if s.last().0 == k {
        s.len() - 1
    } else {
        lemma_assoc_some_index(s.drop_last(), k)
    }
}

pub proof fn lemma_assoc_push<K, V>(s: Seq<(K, V)>, e: (K, V), k: K)
    ensures
        assoc(s.push(e), k) == if e.0 == k {
            Some(e.1)
        } else {
            assoc(s, k)
        },
{
    assert(s.push(e).drop_last() =~= s);
}

pub proof fn lemma_assoc_update<K, V>(s: Seq<(K, V)>, i: int, e: (K, V), k: K)
    requires
        0 <= i < s.len(),
        s[i].0 == e.0,
        forall|j: int| i < j < s.len() ==> s[j].0 != e.0,
    ensures
        assoc(s.update(i, e), k) == if e.0 == k {
            Some(e.1)
        } else {
            assoc(s, k)
        },
    decreases s.len(),
{
    let t = s.update(i, e);
    if i == s.len() - 1 {
        assert(t.drop_last() =~= s.drop_last());
    } else {
        assert(t.drop_last() =~= s.drop_last().update(i, e));
        lemma_assoc_update(s.drop_last(), i, e, k);
    }
}

pub proof fn lemma_assoc_map_push<K, V>(s: Seq<(K, V)>, e: (K, V))
    ensures
        assoc_map(s.push(e)) == assoc_map(s).insert(e.0, e.1),
{
    assert forall|k: K| #[trigger] assoc(s.push(e), k) == (if e.0 == k {
        Some(e.1)
    } else {
        assoc(s, k)
    }) by {
        lemma_assoc_push(s, e, k);
    }
    assert(assoc_map(s.push(e)) =~= assoc_map(s).insert(e.0, e.1));
}

pub proof fn lemma_assoc_map_update<K, V>(s: Seq<(K, V)>, i: int, e: (K, V))
    requires
        0 <= i < s.len(),
        s[i].0 == e.0,
        forall|j: int| i < j < s.len() ==> s[j].0 != e.0,
    ensures
        assoc_map(s.update(i, e)) == assoc_map(s).insert(e.0, e.1),
{
    assert forall|k: K| #[trigger] assoc(s.update(i, e), k) == (if e.0 == k {
        Some(e.1)
    } else {
        assoc(s, k)
    }) by {
        lemma_assoc_update(s, i, e, k);
    }
    assert(assoc_map(s.update(i, e)) =~= assoc_map(s).insert(e.0, e.1));
}

} // verus!
