//! Facts about filtering and mapping sequences that the table models use.
use vstd::prelude::*;

verus! {

broadcast use vstd::seq_lib::group_seq_properties, vstd::seq::group_seq_axioms;

/// Filtering a prefix one element longer adds that element when it is kept.
pub proof fn lemma_filter_take_step<A>(s: Seq<A>, i: int, p: spec_fn(A) -> bool)
    requires
        0 <= i < s.len(),
    ensures
        s.take(i + 1).filter(p) == (if p(s[i]) {
            s.take(i).filter(p).push(s[i])
        } else {
            s.take(i).filter(p)
        }),
{
    assert(s.take(i + 1) =~= s.take(i).push(s[i]));
    s.take(i).lemma_filter_push(s[i], p);
}

/// Mapping a prefix one element longer adds the image of that element.
pub proof fn lemma_map_take_step<A, B>(s: Seq<A>, i: int, f: spec_fn(A) -> B)
    requires
        0 <= i < s.len(),
    ensures
        s.take(i + 1).map_values(f) == s.take(i).map_values(f).push(f(s[i])),
{
    assert(s.take(i + 1) =~= s.take(i).push(s[i]));
    assert(s.take(i + 1).map_values(f) =~= s.take(i).map_values(f).push(f(s[i])));
}

/// The whole sequence is its longest prefix.
pub proof fn lemma_take_all<A>(s: Seq<A>)
    ensures
        s.take(s.len() as int) == s,
{
    assert(s.take(s.len() as int) =~= s);
}

/// Filtering twice keeps what both predicates keep.
pub proof fn lemma_filter_filter<A>(s: Seq<A>, p: spec_fn(A) -> bool, q: spec_fn(A) -> bool)
    ensures
        s.filter(p).filter(q) == s.filter(|x: A| p(x) && q(x)),
    decreases s.len(),
{
    reveal(Seq::filter);
    if s.len() > 0 {
        lemma_filter_filter(s.drop_last(), p, q);
        let x = s.last();
        s.drop_last().filter(p).lemma_filter_push(x, q);
    }
}

/// Filtering with equivalent predicates gives the same sequence.
pub proof fn lemma_filter_ext<A>(s: Seq<A>, p: spec_fn(A) -> bool, q: spec_fn(A) -> bool)
    requires
        forall|x: A| #[trigger] p(x) == q(x),
    ensures
        s.filter(p) == s.filter(q),
    decreases s.len(),
{
    reveal(Seq::filter);
    if s.len() > 0 {
        lemma_filter_ext(s.drop_last(), p, q);
    }
}

/// What a filter keeps and what it drops add up to the whole.
pub proof fn lemma_filter_split_len<A>(s: Seq<A>, p: spec_fn(A) -> bool, q: spec_fn(A) -> bool)
    ensures
        s.filter(p).len() == s.filter(|x: A| p(x) && q(x)).len() + s.filter(|x: A| p(x) && !q(x)).len(),
    decreases s.len(),
{
    reveal(Seq::filter);
    if s.len() > 0 {
        lemma_filter_split_len(s.drop_last(), p, q);
    }
}

/// Every kept element satisfies the predicate.
pub proof fn lemma_filter_all<A>(s: Seq<A>, p: spec_fn(A) -> bool)
    ensures
        forall|i: int| 0 <= i < s.filter(p).len() ==> p(#[trigger] s.filter(p)[i]),
{
    assert forall|i: int| 0 <= i < s.filter(p).len() implies p(#[trigger] s.filter(p)[i]) by {
        s.lemma_filter_pred(p, i);
    }
}

/// If nothing satisfies the predicate, the filter is empty.
pub proof fn lemma_filter_none<A>(s: Seq<A>, p: spec_fn(A) -> bool)
    requires
        forall|i: int| 0 <= i < s.len() ==> !p(#[trigger] s[i]),
    ensures
        s.filter(p).len() == 0,
    decreases s.len(),
{
    reveal(Seq::filter);
    if s.len() > 0 {
        assert(!p(s[s.len() - 1]));
        lemma_filter_none(s.drop_last(), p);
    }
}

/// Mapping with a function that keeps a predicate's verdict and is the
/// identity on what the predicate keeps leaves that filter unchanged.
pub proof fn lemma_map_filter_same<A>(s: Seq<A>, f: spec_fn(A) -> A, p: spec_fn(A) -> bool)
    requires
        forall|x: A| #[trigger] p(f(x)) == p(x),
        forall|x: A| p(x) ==> #[trigger] f(x) == x,
    ensures
        s.map_values(f).filter(p) == s.filter(p),
    decreases s.len(),
{
    reveal(Seq::filter);
    if s.len() > 0 {
        lemma_map_filter_same(s.drop_last(), f, p);
        assert(s.map_values(f).drop_last() =~= s.drop_last().map_values(f));
    }
}

/// Mapping keeps the length of a filter whose verdict the map keeps.
pub proof fn lemma_map_filter_len<A>(s: Seq<A>, f: spec_fn(A) -> A, p: spec_fn(A) -> bool)
    requires
        forall|x: A| #[trigger] p(f(x)) == p(x),
    ensures
        s.map_values(f).filter(p).len() == s.filter(p).len(),
    decreases s.len(),
{
    reveal(Seq::filter);
    if s.len() > 0 {
        lemma_map_filter_len(s.drop_last(), f, p);
        assert(s.map_values(f).drop_last() =~= s.drop_last().map_values(f));
    }
}

/// A filter keeps at least one element when some element satisfies it.
pub proof fn lemma_filter_some<A>(s: Seq<A>, p: spec_fn(A) -> bool, a: int)
    requires
        0 <= a < s.len(),
        p(s[a]),
    ensures
        s.filter(p).len() >= 1,
{
    assert(s.contains(s[a]));
    s.lemma_filter_contains_rev(p, s[a]);
    assert(s.filter(p).contains(s[a]));
}

/// A filter keeps at least two elements when two elements satisfy it.
pub proof fn lemma_filter_two<A>(s: Seq<A>, p: spec_fn(A) -> bool, a: int, b: int)
    requires
        0 <= a < b < s.len(),
        p(s[a]),
        p(s[b]),
    ensures
        s.filter(p).len() >= 2,
    decreases s.len(),
{
    reveal(Seq::filter);
    if b == s.len() - 1 {
        lemma_filter_some(s.drop_last(), p, a);
    } else {
        lemma_filter_two(s.drop_last(), p, a, b);
        lemma_filter_len_grows(s, p);
    }
}

/// Filtering a longer sequence keeps at least as much as its prefix.
pub proof fn lemma_filter_len_grows<A>(s: Seq<A>, p: spec_fn(A) -> bool)
    requires
        s.len() > 0,
    ensures
        s.filter(p).len() >= s.drop_last().filter(p).len(),
{
    reveal(Seq::filter);
}

/// Mapping then filtering equals filtering then mapping when the map keeps
/// the predicate's verdict.
pub proof fn lemma_map_filter_commute<A>(s: Seq<A>, f: spec_fn(A) -> A, p: spec_fn(A) -> bool)
    requires
        forall|x: A| #[trigger] p(f(x)) == p(x),
    ensures
        s.map_values(f).filter(p) == s.filter(p).map_values(f),
    decreases s.len(),
{
    reveal(Seq::filter);
    if s.len() > 0 {
        lemma_map_filter_commute(s.drop_last(), f, p);
        assert(s.map_values(f).drop_last() =~= s.drop_last().map_values(f));
        let t = s.drop_last().filter(p);
        assert(t.push(s.last()).map_values(f) =~= t.map_values(f).push(f(s.last())));
    }
}

/// A filter of a one-element sequence keeps it exactly when it satisfies
/// the predicate.
pub proof fn lemma_filter_single<A>(x: A, p: spec_fn(A) -> bool)
    ensures
        seq![x].filter(p).len() == (if p(x) { 1int } else { 0int }),
{
    reveal_with_fuel(Seq::filter, 2);
    assert(seq![x].drop_last() =~= Seq::<A>::empty());
}

/// A sequence of length one is the sequence of its last element.
pub proof fn lemma_len_one<A>(s: Seq<A>)
    requires
        s.len() == 1,
    ensures
        s == seq![s.last()],
{
    assert(s =~= seq![s.last()]);
}

/// A filter that keeps everything changes nothing.
pub proof fn lemma_filter_keeps_all<A>(s: Seq<A>, p: spec_fn(A) -> bool)
    requires
        forall|x: A| #[trigger] p(x),
    ensures
        s.filter(p) == s,
    decreases s.len(),
{
    reveal(Seq::filter);
    if s.len() > 0 {
        lemma_filter_keeps_all(s.drop_last(), p);
        assert(s.drop_last().push(s.last()) =~= s);
    }
}
} // verus!
