//! Stable insertion sort, stated once for any strict ordering of the items.
use vstd::prelude::*;

verus! {

/// `e` placed into `s` behind every item it is not smaller than, starting
/// the search from the back: what one step of a stable insertion sort does.
pub open spec fn spec_insert_sorted<T>(s: Seq<T>, e: T, lt: spec_fn(T, T) -> bool) -> Seq<T>
    decreases s.len(),
{
    if s.len() == 0 {
        seq![e]
    } else if lt(e, s.last()) {
        spec_insert_sorted(s.drop_last(), e, lt).push(s.last())
    } else {
        s.push(e)
    }
}

/// The items of `s` sorted stably by `lt`.
pub open spec fn spec_sorted_by<T>(s: Seq<T>, lt: spec_fn(T, T) -> bool) -> Seq<T>
    decreases s.len(),
{
    if s.len() == 0 {
        Seq::empty()
    } else {
        spec_insert_sorted(spec_sorted_by(s.drop_last(), lt), s.last(), lt)
    }
}

/// No item comes after one it is smaller than.
pub open spec fn spec_is_sorted<T>(s: Seq<T>, lt: spec_fn(T, T) -> bool) -> bool {
    forall|i: int, j: int| 0 <= i < j < s.len() ==> !lt(s[j], s[i])
}

/// A strict ordering in which items that are not smaller than each other are
/// interchangeable for the order: irreflexive, transitive, and with "not
/// smaller" transitive too.
pub open spec fn spec_strict_weak<T>(lt: spec_fn(T, T) -> bool) -> bool {
    &&& forall|a: T| !(#[trigger] lt(a, a))
    &&& forall|a: T, b: T, c: T| #[trigger] lt(a, b) && #[trigger] lt(b, c) ==> lt(a, c)
    &&& forall|a: T, b: T, c: T| !(#[trigger] lt(a, b)) && !(#[trigger] lt(b, c)) ==> !lt(a, c)
}

/// Inserting at the position found by scanning from the back is the
/// insertion step.
pub proof fn lemma_insert_at<T>(s: Seq<T>, e: T, lt: spec_fn(T, T) -> bool, j: int)
    requires
        0 <= j <= s.len(),
        forall|k: int| j <= k < s.len() ==> lt(e, #[trigger] s[k]),
        j == 0 || !lt(e, s[j - 1]),
    ensures
        spec_insert_sorted(s, e, lt) == s.insert(j, e),
    decreases s.len(),
{
    if s.len() == 0 {
        assert(s.insert(j, e) =~= seq![e]);
    } else if j == s.len() {
        assert(s.insert(j, e) =~= s.push(e));
    } else {
        assert(lt(e, s[s.len() - 1]));
        lemma_insert_at(s.drop_last(), e, lt, j);
        assert(s.drop_last().insert(j, e).push(s.last()) =~= s.insert(j, e));
    }
}

/// Insertion keeps every item and adds one.
pub proof fn lemma_insert_sorted_multiset<T>(s: Seq<T>, e: T, lt: spec_fn(T, T) -> bool)
    ensures
        spec_insert_sorted(s, e, lt).to_multiset() == s.to_multiset().insert(e),
        spec_insert_sorted(s, e, lt).len() == s.len() + 1,
    decreases s.len(),
{
    broadcast use vstd::seq_lib::group_to_multiset_ensures;

    if s.len() == 0 {
        assert(seq![e] =~= Seq::<T>::empty().push(e));
    } else if lt(e, s.last()) {
        lemma_insert_sorted_multiset(s.drop_last(), e, lt);
        assert(s =~= s.drop_last().push(s.last()));
        assert(spec_insert_sorted(s, e, lt).to_multiset() =~= s.to_multiset().insert(e));
    } else {
    }
}

/// Sorting keeps exactly the items it was given.
pub proof fn lemma_sorted_by_permutes<T>(s: Seq<T>, lt: spec_fn(T, T) -> bool)
    ensures
        spec_sorted_by(s, lt).to_multiset() == s.to_multiset(),
        spec_sorted_by(s, lt).len() == s.len(),
    decreases s.len(),
{
    broadcast use vstd::seq_lib::group_to_multiset_ensures;

    if s.len() > 0 {
        lemma_sorted_by_permutes(s.drop_last(), lt);
        lemma_insert_sorted_multiset(spec_sorted_by(s.drop_last(), lt), s.last(), lt);
        assert(s =~= s.drop_last().push(s.last()));
    }
}

/// Inserting into a sorted sequence keeps it sorted.
pub proof fn lemma_insert_sorted_sorted<T>(s: Seq<T>, e: T, lt: spec_fn(T, T) -> bool)
    requires
        spec_strict_weak(lt),
        spec_is_sorted(s, lt),
    ensures
        spec_is_sorted(spec_insert_sorted(s, e, lt), lt),
        forall|x: T| #[trigger]
            spec_insert_sorted(s, e, lt).contains(x) ==> x == e || s.contains(x),
    decreases s.len(),
{
    if s.len() == 0 {
        assert forall|x: T| #[trigger] spec_insert_sorted(s, e, lt).contains(x) implies x == e
            || s.contains(x) by {
            assert(spec_insert_sorted(s, e, lt)[0] == e);
        }
    } else if lt(e, s.last()) {
        let t = spec_insert_sorted(s.drop_last(), e, lt);
        assert forall|x: T| #[trigger] spec_insert_sorted(s, e, lt).contains(x) implies x == e
            || s.contains(x) by {
            lemma_insert_sorted_sorted(s.drop_last(), e, lt);
            let r = t.push(s.last());
            let i = choose|i: int| 0 <= i < r.len() && r[i] == x;
            if i == r.len() - 1 {
                assert(s[s.len() - 1] == x);
            } else {
                assert(t.contains(x));
                if x != e {
                    let k = choose|k: int| 0 <= k < s.drop_last().len() && s.drop_last()[k] == x;
                    assert(s[k] == x);
                }
            }
        }
        assert(spec_is_sorted(s.drop_last(), lt));
        lemma_insert_sorted_sorted(s.drop_last(), e, lt);
        let r = t.push(s.last());
        assert forall|i: int, j: int| 0 <= i < j < r.len() implies !lt(r[j], r[i]) by {
            if j == r.len() - 1 {
                // r[i] is e or an item before the last one.
                assert(t.contains(t[i]));
                if t[i] == e {
                } else {
                    let k = choose|k: int| 0 <= k < s.drop_last().len() && s.drop_last()[k] == t[i];
                    assert(s[k] == t[i]);
                }
            }
        }
    } else {
        let r = s.push(e);
        assert forall|x: T| #[trigger] spec_insert_sorted(s, e, lt).contains(x) implies x == e
            || s.contains(x) by {
            let i = choose|i: int| 0 <= i < r.len() && r[i] == x;
            if i < s.len() {
                assert(s[i] == x);
            }
        }
        assert forall|i: int, j: int| 0 <= i < j < r.len() implies !lt(r[j], r[i]) by {
            if j == r.len() - 1 {
                if i < s.len() - 1 {
                    assert(!lt(s[s.len() - 1], s[i]));
                }
            }
        }
    }
}

/// Sorting by a strict weak ordering gives a sorted sequence.
pub proof fn lemma_sorted_by_is_sorted<T>(s: Seq<T>, lt: spec_fn(T, T) -> bool)
    requires
        spec_strict_weak(lt),
    ensures
        spec_is_sorted(spec_sorted_by(s, lt), lt),
    decreases s.len(),
{
    if s.len() > 0 {
        lemma_sorted_by_is_sorted(s.drop_last(), lt);
        lemma_insert_sorted_sorted(spec_sorted_by(s.drop_last(), lt), s.last(), lt);
    }
}

} // verus!
