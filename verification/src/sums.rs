//! Sums of a quantity over the elements of a finite set.
use vstd::prelude::*;
use vstd::set::fold::{is_fun_commutative, lemma_fold_empty, lemma_fold_insert};

verus! {

/// The step of a sum: add the quantity of one more element.
pub open spec fn add_by<K>(g: spec_fn(K) -> int) -> spec_fn(int, K) -> int {
    |acc: int, k: K| acc + g(k)
}

/// The sum of `g` over a finite set.
pub open spec fn set_sum<K>(s: Set<K>, g: spec_fn(K) -> int) -> int {
    s.fold(0, add_by(g))
}

/// The sum of `g` over a sequence.
pub open spec fn seq_sum<K>(ks: Seq<K>, g: spec_fn(K) -> int) -> int
    decreases ks.len(),
{
    if ks.len() == 0 {
        0
    } else {
        seq_sum(ks.drop_last(), g) + g(ks.last())
    }
}

proof fn lemma_add_by_commutative<K>(g: spec_fn(K) -> int)
    ensures
        is_fun_commutative(add_by(g)),
{
    assert forall|a1: K, a2: K, b: int| #[trigger] add_by(g)(add_by(g)(b, a2), a1) == add_by(g)(add_by(g)(b, a1), a2) by {}
}

pub proof fn lemma_set_sum_empty<K>(g: spec_fn(K) -> int)
    ensures
        set_sum(Set::<K>::empty(), g) == 0,
{
    lemma_fold_empty(0, add_by(g));
}

pub proof fn lemma_set_sum_insert<K>(s: Set<K>, a: K, g: spec_fn(K) -> int)
    requires
        s.finite(),
        !s.contains(a),
    ensures
        set_sum(s.insert(a), g) == set_sum(s, g) + g(a),
{
    lemma_add_by_commutative(g);
    lemma_fold_insert(s, 0, add_by(g), a);
}

pub proof fn lemma_set_sum_remove<K>(s: Set<K>, a: K, g: spec_fn(K) -> int)
    requires
        s.finite(),
        s.contains(a),
    ensures
        set_sum(s, g) == set_sum(s.remove(a), g) + g(a),
{
    lemma_set_sum_insert(s.remove(a), a, g);
    assert(s.remove(a).insert(a) =~= s);
}

/// Sums agree when the quantities agree on the set.
pub proof fn lemma_set_sum_ext<K>(s: Set<K>, g1: spec_fn(K) -> int, g2: spec_fn(K) -> int)
    requires
        s.finite(),
        forall|k: K| s.contains(k) ==> g1(k) == g2(k),
    ensures
        set_sum(s, g1) == set_sum(s, g2),
    decreases s.len(),
{
    if s.len() == 0 {
        assert(s =~= Set::<K>::empty());
        lemma_set_sum_empty(g1);
        lemma_set_sum_empty(g2);
    } else {
        let a = s.choose();
        lemma_set_sum_remove(s, a, g1);
        lemma_set_sum_remove(s, a, g2);
        lemma_set_sum_ext(s.remove(a), g1, g2);
    }
}

/// Summing over a duplicate-free sequence sums over its set of elements.
pub proof fn lemma_seq_sum_is_set_sum<K>(ks: Seq<K>, g: spec_fn(K) -> int)
    requires
        ks.no_duplicates(),
    ensures
        seq_sum(ks, g) == set_sum(ks.to_set(), g),
    decreases ks.len(),
{
    if ks.len() == 0 {
        assert(ks.to_set() =~= Set::<K>::empty());
        lemma_set_sum_empty(g);
    } else {
        let init = ks.drop_last();
        assert(init.no_duplicates());
        lemma_seq_sum_is_set_sum(init, g);
        assert(ks =~= init.push(ks.last()));
        crate::assoc::lemma_push_set(init, ks.last());
        assert(!init.contains(ks.last())) by {
            if init.contains(ks.last()) {
                let j = choose|j: int| 0 <= j < init.len() && init[j] == ks.last();
                assert(ks[j] == ks[ks.len() - 1]);
            }
        }
        assert(!init.to_set().contains(ks.last()));
        lemma_set_sum_insert(init.to_set(), ks.last(), g);
    }
}

/// Summing a non-negative quantity over part of a set gives no more than the whole.
pub proof fn lemma_seq_sum_prefix_bound<K>(ks: Seq<K>, i: int, g: spec_fn(K) -> int)
    requires
        0 <= i <= ks.len(),
        forall|k: K| #[trigger] g(k) >= 0,
    ensures
        seq_sum(ks.take(i), g) <= seq_sum(ks, g),
        seq_sum(ks.take(i), g) >= 0,
    decreases ks.len(),
{
    if ks.len() == 0 {
        assert(ks.take(i) =~= ks);
    } else if i == ks.len() {
        assert(ks.take(i) =~= ks);
        lemma_seq_sum_prefix_bound(ks.drop_last(), i - 1, g);
    } else {
        assert(ks.take(i) =~= ks.drop_last().take(i));
        lemma_seq_sum_prefix_bound(ks.drop_last(), i, g);
    }
}

/// The quantity `f` of the value under each key.
pub open spec fn share<K, V>(t: Map<K, V>, f: spec_fn(V) -> int) -> spec_fn(K) -> int {
    |k: K| f(t[k])
}

/// The total of `f` over the values of a finite map.
pub open spec fn map_total<K, V>(t: Map<K, V>, f: spec_fn(V) -> int) -> int {
    set_sum(t.dom(), share(t, f))
}

/// Putting a value under a key replaces the key's old share of the total.
pub proof fn lemma_map_total_insert<K, V>(t: Map<K, V>, k: K, v: V, f: spec_fn(V) -> int)
    requires
        t.dom().finite(),
    ensures
        map_total(t.insert(k, v), f) == map_total(t, f) - (if t.contains_key(k) {
            f(t[k])
        } else {
            0
        }) + f(v),
{
    let t2 = t.insert(k, v);
    let g1 = share(t, f);
    let g2 = share(t2, f);
    if t.contains_key(k) {
        assert(t2.dom() =~= t.dom());
        lemma_set_sum_remove(t.dom(), k, g1);
        lemma_set_sum_remove(t.dom(), k, g2);
        lemma_set_sum_ext(t.dom().remove(k), g1, g2);
    } else {
        assert(t2.dom() =~= t.dom().insert(k));
        lemma_set_sum_insert(t.dom(), k, g2);
        lemma_set_sum_ext(t.dom(), g1, g2);
    }
}

/// Taking a key out removes its share of the total.
pub proof fn lemma_map_total_remove<K, V>(t: Map<K, V>, k: K, f: spec_fn(V) -> int)
    requires
        t.dom().finite(),
    ensures
        map_total(t.remove(k), f) == map_total(t, f) - (if t.contains_key(k) {
            f(t[k])
        } else {
            0
        }),
{
    let t2 = t.remove(k);
    let g1 = share(t, f);
    let g2 = share(t2, f);
    if t.contains_key(k) {
        assert(t2.dom() =~= t.dom().remove(k));
        lemma_set_sum_remove(t.dom(), k, g1);
        lemma_set_sum_ext(t.dom().remove(k), g1, g2);
    } else {
        assert(t2 =~= t);
    }
}

/// The total over no values is zero.
pub proof fn lemma_map_total_empty<K, V>(f: spec_fn(V) -> int)
    ensures
        map_total(Map::<K, V>::empty(), f) == 0,
{
    assert(Map::<K, V>::empty().dom() =~= Set::<K>::empty());
    lemma_set_sum_empty(share(Map::<K, V>::empty(), f));
}

} // verus!
