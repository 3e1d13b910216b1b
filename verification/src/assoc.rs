//! Association lists: sequences of key/value pairs read as finite maps.
use vstd::prelude::*;

verus! {

/// The keys of an association list, in order.
pub open spec fn keys<K, V>(s: Seq<(K, V)>) -> Seq<K> {
    s.map_values(|p: (K, V)| p.0)
}

/// The map an association list denotes; a later pair overrides an earlier one.
pub open spec fn assoc<K, V>(s: Seq<(K, V)>) -> Map<K, V>
    decreases s.len(),
{
    if s.len() == 0 {
        Map::empty()
    } else {
        assoc(s.drop_last()).insert(s.last().0, s.last().1)
    }
}

pub proof fn lemma_assoc_dom<K, V>(s: Seq<(K, V)>)
    ensures
        assoc(s).dom() == keys(s).to_set(),
        assoc(s).dom().finite(),
    decreases s.len(),
{
    if s.len() > 0 {
        lemma_assoc_dom(s.drop_last());
        assert(keys(s.drop_last()) =~= keys(s).drop_last());
        assert forall|k: K| assoc(s).dom().contains(k) <==> keys(s).to_set().contains(k) by {
            if keys(s).to_set().contains(k) {
                let j = choose|j: int| 0 <= j < keys(s).len() && keys(s)[j] == k;
                if j < s.len() - 1 {
                    assert(keys(s.drop_last())[j] == k);
                }
            }
            if assoc(s.drop_last()).dom().contains(k) {
                let j = choose|j: int|
                    0 <= j < keys(s.drop_last()).len() && keys(s.drop_last())[j] == k;
                assert(keys(s)[j] == k);
            }
            if k == s.last().0 {
                assert(keys(s)[s.len() - 1] == k);
            }
        }
        assert(assoc(s).dom() =~= keys(s).to_set());
    } else {
        assert(assoc(s).dom() =~= keys(s).to_set());
    }
}

pub proof fn lemma_assoc_get<K, V>(s: Seq<(K, V)>, i: int)
    requires
        keys(s).no_duplicates(),
        0 <= i < s.len(),
    ensures
        assoc(s).contains_key(s[i].0),
        assoc(s)[s[i].0] == s[i].1,
    decreases s.len(),
{
    if i < s.len() - 1 {
        assert(keys(s.drop_last()) =~= keys(s).drop_last());
        assert(keys(s)[i] != keys(s)[s.len() - 1]);
        lemma_assoc_get(s.drop_last(), i);
    }
}

/// Within a duplicate-free list, a key is in the map exactly where it is listed.
pub proof fn lemma_assoc_index<K, V>(s: Seq<(K, V)>, k: K)
    requires
        keys(s).no_duplicates(),
    ensures
        assoc(s).contains_key(k) <==> keys(s).contains(k),
        keys(s).contains(k) ==> {
            let i = keys(s).index_of(k);
            &&& 0 <= i < s.len()
            &&& s[i].0 == k
            &&& assoc(s)[k] == s[i].1
        },
{
    lemma_assoc_dom(s);
    if keys(s).contains(k) {
        let i = keys(s).index_of(k);
        lemma_assoc_get(s, i);
    }
}

pub proof fn lemma_assoc_push<K, V>(s: Seq<(K, V)>, k: K, v: V)
    ensures
        assoc(s.push((k, v))) == assoc(s).insert(k, v),
        keys(s.push((k, v))) == keys(s).push(k),
{
    assert(s.push((k, v)).drop_last() =~= s);
    assert(keys(s.push((k, v))) =~= keys(s).push(k));
}

pub proof fn lemma_assoc_update<K, V>(s: Seq<(K, V)>, i: int, v: V)
    requires
        keys(s).no_duplicates(),
        0 <= i < s.len(),
    ensures
        assoc(s.update(i, (s[i].0, v))) == assoc(s).insert(s[i].0, v),
        keys(s.update(i, (s[i].0, v))) == keys(s),
{
    let t = s.update(i, (s[i].0, v));
    assert(keys(t) =~= keys(s));
    lemma_assoc_dom(s);
    lemma_assoc_dom(t);
    assert forall|k: K| #[trigger] assoc(t).contains_key(k) implies assoc(t)[k] == assoc(s).insert(
        s[i].0,
        v,
    )[k] by {
        lemma_assoc_index(t, k);
        lemma_assoc_index(s, k);
        let j = keys(t).index_of(k);
        if k == s[i].0 {
            assert(keys(t)[i] == k);
            assert(j == i);
        } else {
            assert(j != i);
            assert(t[j] == s[j]);
        }
    }
    assert(keys(s)[i] == s[i].0);
    assert(keys(s).contains(s[i].0));
    assert(assoc(t).dom() =~= assoc(s).insert(s[i].0, v).dom());
    assert(assoc(t) =~= assoc(s).insert(s[i].0, v));
}

pub proof fn lemma_assoc_remove<K, V>(s: Seq<(K, V)>, i: int)
    requires
        keys(s).no_duplicates(),
        0 <= i < s.len(),
    ensures
        assoc(s.remove(i)) == assoc(s).remove(s[i].0),
        keys(s.remove(i)) == keys(s).remove(i),
        keys(s.remove(i)).no_duplicates(),
{
    let t = s.remove(i);
    assert(keys(t) =~= keys(s).remove(i));
    assert(keys(t).no_duplicates()) by {
        assert forall|a: int, b: int| 0 <= a < keys(t).len() && 0 <= b < keys(t).len() && a != b
            implies keys(t)[a] != keys(t)[b] by {
            let a2 = if a < i { a } else { a + 1 };
            let b2 = if b < i { b } else { b + 1 };
            assert(keys(t)[a] == keys(s)[a2]);
            assert(keys(t)[b] == keys(s)[b2]);
        }
    }
    lemma_assoc_dom(s);
    lemma_assoc_dom(t);
    assert forall|k: K| assoc(t).contains_key(k) <==> assoc(s).remove(s[i].0).contains_key(k) by {
        lemma_assoc_index(t, k);
        lemma_assoc_index(s, k);
        if keys(t).contains(k) {
            let j = keys(t).index_of(k);
            let j2 = if j < i { j } else { j + 1 };
            assert(t[j] == s[j2]);
            assert(keys(s)[j2] == k);
            assert(j2 != i);
            assert(keys(s)[i] == s[i].0);
            assert(k != s[i].0);
            assert(keys(s).contains(k));
        }
        if keys(s).contains(k) && k != s[i].0 {
            let j = keys(s).index_of(k);
            assert(j != i);
            let j2 = if j < i { j } else { j - 1 };
            assert(t[j2] == s[j]);
            assert(keys(t)[j2] == k);
            assert(keys(t).contains(k));
        }
    }
    assert forall|k: K| #[trigger] assoc(t).contains_key(k) implies assoc(t)[k] == assoc(s)[k] by {
        lemma_assoc_index(t, k);
        lemma_assoc_index(s, k);
        let j = keys(t).index_of(k);
        let j2 = if j < i { j } else { j + 1 };
        assert(t[j] == s[j2]);
        assert(keys(s)[j2] == k);
        lemma_assoc_get(s, j2);
    }
    assert(assoc(t) =~= assoc(s).remove(s[i].0));
}


/// Pushing an element adds it to the set of elements.
pub proof fn lemma_push_set<A>(s: Seq<A>, x: A)
    ensures
        s.push(x).to_set() == s.to_set().insert(x),
        s.no_duplicates() && !s.contains(x) ==> s.push(x).no_duplicates(),
{
    assert forall|y: A| s.push(x).contains(y) <==> s.to_set().insert(x).contains(y) by {
        if s.push(x).contains(y) {
            let j = choose|j: int| 0 <= j < s.push(x).len() && s.push(x)[j] == y;
            if j < s.len() {
                assert(s[j] == y);
            }
        }
        if s.contains(y) {
            let j = choose|j: int| 0 <= j < s.len() && s[j] == y;
            assert(s.push(x)[j] == y);
        }
        assert(s.push(x)[s.len() as int] == x);
    }
    assert(s.push(x).to_set() =~= s.to_set().insert(x));
    if s.no_duplicates() && !s.contains(x) {
        assert forall|a: int, b: int| 0 <= a < s.push(x).len() && 0 <= b < s.push(x).len() && a != b
            implies s.push(x)[a] != s.push(x)[b] by {
            if a < s.len() && b < s.len() {
                assert(s[a] != s[b]);
            } else if a < s.len() {
                assert(s.contains(s[a]));
            } else if b < s.len() {
                assert(s.contains(s[b]));
            }
        }
    }
}

/// Removing the only occurrence of an element removes it from the set of elements.
pub proof fn lemma_remove_set<A>(s: Seq<A>, i: int)
    requires
        s.no_duplicates(),
        0 <= i < s.len(),
    ensures
        s.remove(i).to_set() == s.to_set().remove(s[i]),
        s.remove(i).no_duplicates(),
{
    let t = s.remove(i);
    assert forall|y: A| t.contains(y) <==> s.to_set().remove(s[i]).contains(y) by {
        if t.contains(y) {
            let j = choose|j: int| 0 <= j < t.len() && t[j] == y;
            let j2 = if j < i { j } else { j + 1 };
            assert(s[j2] == y);
            assert(j2 != i);
        }
        if s.contains(y) && y != s[i] {
            let j = choose|j: int| 0 <= j < s.len() && s[j] == y;
            assert(j != i);
            let j2 = if j < i { j } else { j - 1 };
            assert(t[j2] == y);
        }
    }
    assert(t.to_set() =~= s.to_set().remove(s[i]));
    assert forall|a: int, b: int| 0 <= a < t.len() && 0 <= b < t.len() && a != b implies t[a] != t[b] by {
        let a2 = if a < i { a } else { a + 1 };
        let b2 = if b < i { b } else { b + 1 };
        assert(t[a] == s[a2]);
        assert(t[b] == s[b2]);
    }
}

/// A set already holding an element is unchanged by inserting it.
pub proof fn lemma_contains_set<A>(s: Seq<A>, x: A)
    requires
        s.contains(x),
    ensures
        s.to_set().insert(x) == s.to_set(),
{
    assert(s.to_set().insert(x) =~= s.to_set());
}

} // verus!
