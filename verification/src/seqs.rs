//! How the sequence operations of the models grow with one more element.
//!
//! Each lemma relates an operation on the first `i + 1` elements of a
//! sequence to the same operation on the first `i`, which is the step of a
//! loop that walks the sequence.

use vstd::prelude::*;

verus! {

/// Mapping one more element adds its image at the end.
pub proof fn lemma_map_step<A, B>(s: Seq<A>, i: int, f: spec_fn(A) -> B)
    requires
        0 <= i < s.len(),
    ensures
        s.take(i + 1).map_values(f) == s.take(i).map_values(f).push(f(s[i])),
{
    assert(s.take(i + 1).map_values(f) =~= s.take(i).map_values(f).push(f(s[i])));
}

/// Filtering one more element adds it at the end if it passes the test.
pub proof fn lemma_filter_step<A>(s: Seq<A>, i: int, keep: spec_fn(A) -> bool)
    requires
        0 <= i < s.len(),
    ensures
        s.take(i + 1).filter(keep) == if keep(s[i]) {
            s.take(i).filter(keep).push(s[i])
        } else {
            s.take(i).filter(keep)
        },
{
    assert(s.take(i + 1) =~= s.take(i).push(s[i]));
    s.take(i).lemma_filter_push(s[i], keep);
}

/// Filtering and mapping one more element adds its image at the end if it
/// has one.
pub proof fn lemma_filter_map_step<A, B>(s: Seq<A>, i: int, f: spec_fn(A) -> Option<B>)
    requires
        0 <= i < s.len(),
    ensures
        s.take(i + 1).filter_map(f) == match f(s[i]) {
            Some(b) => s.take(i).filter_map(f).push(b),
            None => s.take(i).filter_map(f),
        },
{
    s.lemma_filter_map_take_succ(f, i);
    match f(s[i]) {
        Some(b) => {
            assert(s.take(i).filter_map(f) + seq![b] =~= s.take(i).filter_map(f).push(b));
        },
        None => {
            assert(s.take(i).filter_map(f) + Seq::<B>::empty() =~= s.take(i).filter_map(f));
        },
    }
}

/// Mapping each element to a sequence and joining them: one more element
/// adds its sequence at the end.
pub proof fn lemma_flat_step<A, B>(s: Seq<A>, i: int, f: spec_fn(A) -> Seq<B>)
    requires
        0 <= i < s.len(),
    ensures
        s.take(i + 1).map_values(f).flatten() == s.take(i).map_values(f).flatten() + f(s[i]),
{
    lemma_map_step(s, i, f);
    s.take(i).map_values(f).lemma_flatten_push(f(s[i]));
}

/// Of no elements, each operation gives none.
pub proof fn lemma_empty_prefix<A>(s: Seq<A>, keep: spec_fn(A) -> bool)
    ensures
        s.take(0).filter(keep) == Seq::<A>::empty(),
{
    reveal(Seq::filter);
    assert(s.take(0).filter(keep) =~= Seq::<A>::empty());
}

/// Of no elements, filtering and mapping gives none.
pub proof fn lemma_empty_filter_map<A, B>(s: Seq<A>, f: spec_fn(A) -> Option<B>)
    ensures
        s.take(0).filter_map(f) == Seq::<B>::empty(),
{
    assert(s.take(0).filter_map(f) =~= Seq::<B>::empty());
}

/// Of no elements, mapping and joining gives none.
pub proof fn lemma_empty_flat<A, B>(s: Seq<A>, f: spec_fn(A) -> Seq<B>)
    ensures
        s.take(0).map_values(f).flatten() == Seq::<B>::empty(),
{
    assert(s.take(0).map_values(f) =~= Seq::<Seq<B>>::empty());
    assert(s.take(0).map_values(f).flatten() =~= Seq::<B>::empty());
}

/// Filtering and mapping two sequences joined gives the two results joined.
pub proof fn lemma_filter_map_add<A, B>(a: Seq<A>, b: Seq<A>, f: spec_fn(A) -> Option<B>)
    ensures
        (a + b).filter_map(f) == a.filter_map(f) + b.filter_map(f),
    decreases b.len(),
{
    if b.len() == 0 {
        assert(a + b =~= a);
        assert(a.filter_map(f) + b.filter_map(f) =~= a.filter_map(f));
    } else {
        lemma_filter_map_add(a, b.drop_last(), f);
        assert((a + b).drop_last() =~= a + b.drop_last());
        assert((a + b).last() == b.last());
        match f(b.last()) {
            Some(image) => {
                assert((a.filter_map(f) + b.drop_last().filter_map(f)) + seq![image]
                    =~= a.filter_map(f) + (b.drop_last().filter_map(f) + seq![image]));
            },
            None => {},
        }
    }
}

/// Where the image of the element at `p` comes to stand: after the images
/// of the elements before it.
pub proof fn lemma_filter_map_index<A, B>(s: Seq<A>, f: spec_fn(A) -> Option<B>, p: int)
    requires
        0 <= p < s.len(),
        f(s[p]).is_some(),
    ensures
        s.take(p).filter_map(f).len() < s.filter_map(f).len(),
        s.filter_map(f)[s.take(p).filter_map(f).len() as int] == f(s[p]).unwrap(),
{
    lemma_filter_map_step(s, p, f);
    lemma_filter_map_add(s.take(p + 1), s.skip(p + 1), f);
    assert(s.take(p + 1) + s.skip(p + 1) =~= s);
}

/// A longer prefix has at least the images of a shorter one.
pub proof fn lemma_filter_map_grows<A, B>(s: Seq<A>, f: spec_fn(A) -> Option<B>, p: int, q: int)
    requires
        0 <= p <= q <= s.len(),
    ensures
        s.take(p).filter_map(f).len() <= s.take(q).filter_map(f).len(),
{
    lemma_filter_map_add(s.take(p), s.take(q).skip(p), f);
    assert(s.take(p) + s.take(q).skip(p) =~= s.take(q));
}

} // verus!
