//! The model of a merged stream.
//!
//! A channel written by two writers delivers some interleaving of their two
//! item sequences to its single reader: the items of each writer appear in the
//! order that writer sent them, with no promise about the order across the
//! two.  [`is_interleaving`] says exactly that of three sequences, and the
//! lemma below gives the merge guarantee: whatever the interleaving, the
//! reader receives exactly the multiset union of what the writers sent.

use vstd::prelude::*;
use vstd::multiset::Multiset;

verus! {

/// Holds when `merged` can be split into the subsequences `a` and `b`: every
/// item of `merged` comes from exactly one of the two, `a`'s items appear in
/// `a`'s order and `b`'s items in `b`'s order.
pub open spec fn is_interleaving<T>(a: Seq<T>, b: Seq<T>, merged: Seq<T>) -> bool
    decreases merged.len(),
{
    if merged.len() == 0 {
        a.len() == 0 && b.len() == 0
    } else {
        ||| (a.len() > 0 && a.first() == merged.first() && is_interleaving(
            a.drop_first(),
            b,
            merged.drop_first(),
        ))
        ||| (b.len() > 0 && b.first() == merged.first() && is_interleaving(
            a,
            b.drop_first(),
            merged.drop_first(),
        ))
    }
}

/// Merging is a multiset union: a stream that interleaves the sequences two
/// sources wrote carries exactly the items of both, each as often as it was
/// written, whatever order the interleaving chose.
pub proof fn lemma_interleaving_is_multiset_union<T>(a: Seq<T>, b: Seq<T>, merged: Seq<T>)
    requires
        is_interleaving(a, b, merged),
    ensures
        merged.to_multiset() == a.to_multiset().add(b.to_multiset()),
    decreases merged.len(),
{
    broadcast use vstd::seq_lib::group_seq_properties;

    if merged.len() == 0 {
        assert(merged.to_multiset() =~= a.to_multiset().add(b.to_multiset()));
    } else if a.len() > 0 && a.first() == merged.first() && is_interleaving(
        a.drop_first(),
        b,
        merged.drop_first(),
    ) {
        lemma_interleaving_is_multiset_union(a.drop_first(), b, merged.drop_first());
        lemma_first_rest_multiset(a);
        lemma_first_rest_multiset(merged);
        assert(merged.to_multiset() =~= a.to_multiset().add(b.to_multiset()));
    } else {
        lemma_interleaving_is_multiset_union(a, b.drop_first(), merged.drop_first());
        lemma_first_rest_multiset(b);
        lemma_first_rest_multiset(merged);
        assert(merged.to_multiset() =~= a.to_multiset().add(b.to_multiset()));
    }
}

/// Chained merges union every source: when a stream interleaves the first two
/// sources and a second stream interleaves that with a third, the final
/// stream carries exactly the items of all three, each as often as its source
/// wrote it.
pub proof fn lemma_chained_interleaving_unions_three_sources<T>(
    a: Seq<T>,
    b: Seq<T>,
    c: Seq<T>,
    ab: Seq<T>,
    abc: Seq<T>,
)
    requires
        is_interleaving(a, b, ab),
        is_interleaving(ab, c, abc),
    ensures
        abc.to_multiset() == a.to_multiset().add(b.to_multiset()).add(c.to_multiset()),
{
    lemma_interleaving_is_multiset_union(a, b, ab);
    lemma_interleaving_is_multiset_union(ab, c, abc);
}

/// Merging an empty source changes nothing: a stream that interleaves an
/// empty sequence with another is that other sequence, item for item and in
/// its order.
pub proof fn lemma_interleaving_with_empty_source<T>(b: Seq<T>, merged: Seq<T>)
    requires
        is_interleaving(Seq::<T>::empty(), b, merged),
    ensures
        merged == b,
    decreases merged.len(),
{
    if merged.len() == 0 {
        assert(merged =~= b);
    } else {
        lemma_interleaving_with_empty_source(b.drop_first(), merged.drop_first());
        assert forall|i: int| 0 <= i < merged.len() implies merged[i] == b[i] by {
            if i > 0 {
                assert(merged.drop_first()[i - 1] == b.drop_first()[i - 1]);
            }
        }
        assert(merged =~= b);
    }
}

/// A non-empty sequence carries its first item once, beside the items of the
/// rest.
proof fn lemma_first_rest_multiset<T>(s: Seq<T>)
    requires
        s.len() > 0,
    ensures
        s.to_multiset() == Multiset::singleton(s.first()).add(s.drop_first().to_multiset()),
{
    broadcast use vstd::seq_lib::group_seq_properties;

    assert(s =~= seq![s.first()] + s.drop_first());
    vstd::seq_lib::lemma_multiset_commutative(seq![s.first()], s.drop_first());
    assert(seq![s.first()].to_multiset() =~= Multiset::singleton(s.first())) by {
        assert(seq![s.first()] =~= Seq::<T>::empty().push(s.first()));
    }
}

} // verus!
