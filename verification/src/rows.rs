//! Selecting, counting, rewriting and finding rows of an in-memory table.
use vstd::prelude::*;
use crate::seqs::{lemma_filter_take_step, lemma_map_take_step, lemma_take_all};
use vstd::relations::{sorted_by, transitive, strongly_connected};

verus! {

/// A row that can be copied exactly.
pub trait Duplicate: Sized {
    /// An identical copy.
    fn duplicate(&self) -> (r: Self)
        ensures
            r == *self;
}

/// The rows that `keep` selects, in table order.
pub fn select<C, T: Duplicate, F: Fn(&C, &T) -> bool>(rows: &Vec<T>, keep: F, ctx: &C, Ghost(p): Ghost<spec_fn(T) -> bool>) -> (out: Vec<T>)
    requires
        forall|x: &T| #[trigger] keep.requires((ctx, x)),
        forall|x: &T, b: bool| keep.ensures((ctx, x), b) ==> b == p(*x),
    ensures
        out@ == rows@.filter(p),
{
    let n = rows.len();
    let mut out: Vec<T> = Vec::new();
    for i in 0..n
        invariant
            n == rows@.len(),
            forall|x: &T| #[trigger] keep.requires((ctx, x)),
            forall|x: &T, b: bool| keep.ensures((ctx, x), b) ==> b == p(*x),
            out@ == rows@.take(i as int).filter(p),
    {
        proof { lemma_filter_take_step(rows@, i as int, p); }
        if keep(ctx, &rows[i]) {
            out.push(rows[i].duplicate());
        }
    }
    proof { lemma_take_all(rows@); }
    out
}

/// How many rows `keep` selects.
pub fn count_where<C, T, F: Fn(&C, &T) -> bool>(rows: &Vec<T>, keep: F, ctx: &C, Ghost(p): Ghost<spec_fn(T) -> bool>) -> (c: usize)
    requires
        forall|x: &T| #[trigger] keep.requires((ctx, x)),
        forall|x: &T, b: bool| keep.ensures((ctx, x), b) ==> b == p(*x),
    ensures
        c == rows@.filter(p).len(),
{
    let n = rows.len();
    let mut c: usize = 0;
    for i in 0..n
        invariant
            n == rows@.len(),
            forall|x: &T| #[trigger] keep.requires((ctx, x)),
            forall|x: &T, b: bool| keep.ensures((ctx, x), b) ==> b == p(*x),
            c == rows@.take(i as int).filter(p).len(),
            c <= i,
    {
        proof { lemma_filter_take_step(rows@, i as int, p); }
        if keep(ctx, &rows[i]) {
            c += 1;
        }
    }
    proof { lemma_take_all(rows@); }
    c
}

/// Every row rewritten by `f`, in table order.
pub fn rewrite<C, T, F: Fn(&C, &T) -> T>(rows: &Vec<T>, f: F, ctx: &C, Ghost(g): Ghost<spec_fn(T) -> T>) -> (out: Vec<T>)
    requires
        forall|x: &T| #[trigger] f.requires((ctx, x)),
        forall|x: &T, y: T| f.ensures((ctx, x), y) ==> y == g(*x),
    ensures
        out@ == rows@.map_values(g),
{
    let n = rows.len();
    let mut out: Vec<T> = Vec::new();
    for i in 0..n
        invariant
            n == rows@.len(),
            forall|x: &T| #[trigger] f.requires((ctx, x)),
            forall|x: &T, y: T| f.ensures((ctx, x), y) ==> y == g(*x),
            out@ == rows@.take(i as int).map_values(g),
    {
        proof { lemma_map_take_step(rows@, i as int, g); }
        out.push(f(ctx, &rows[i]));
    }
    proof { lemma_take_all(rows@); }
    out
}

/// The position of the last row that `keep` selects, if any.
pub fn find_last<C, T, F: Fn(&C, &T) -> bool>(rows: &Vec<T>, keep: F, ctx: &C, Ghost(p): Ghost<spec_fn(T) -> bool>) -> (r: Option<usize>)
    requires
        forall|x: &T| #[trigger] keep.requires((ctx, x)),
        forall|x: &T, b: bool| keep.ensures((ctx, x), b) ==> b == p(*x),
    ensures
        match r {
            Some(j) => j < rows@.len() && rows@.filter(p).len() > 0 && rows@.filter(p).last() == rows@[j as int],
            None => rows@.filter(p).len() == 0,
        },
{
    let n = rows.len();
    let mut found: Option<usize> = None;
    for i in 0..n
        invariant
            n == rows@.len(),
            forall|x: &T| #[trigger] keep.requires((ctx, x)),
            forall|x: &T, b: bool| keep.ensures((ctx, x), b) ==> b == p(*x),
            match found {
                Some(j) => j < i && rows@.take(i as int).filter(p).len() > 0
                    && rows@.take(i as int).filter(p).last() == rows@[j as int],
                None => rows@.take(i as int).filter(p).len() == 0,
            },
    {
        proof { lemma_filter_take_step(rows@, i as int, p); }
        if keep(ctx, &rows[i]) {
            found = Some(i);
        }
    }
    proof { lemma_take_all(rows@); }
    found
}

/// The last row that `p` selects, if any.
pub open spec fn last_where<T>(s: Seq<T>, p: spec_fn(T) -> bool) -> Option<T> {
    if s.filter(p).len() > 0 {
        Some(s.filter(p).last())
    } else {
        None
    }
}

/// Dropping rows that `p` never selects leaves the last row `p` selects.
pub proof fn lemma_last_where_kept<T>(s: Seq<T>, keep: spec_fn(T) -> bool, p: spec_fn(T) -> bool)
    requires
        forall|x: T| #[trigger] p(x) ==> keep(x),
    ensures
        last_where(s.filter(keep), p) == last_where(s, p),
{
    crate::seqs::lemma_filter_filter(s, keep, p);
    crate::seqs::lemma_filter_ext(s, |x: T| keep(x) && p(x), p);
}

/// Once every row that `p` selects is dropped, `p` selects nothing.
pub proof fn lemma_last_where_dropped<T>(s: Seq<T>, keep: spec_fn(T) -> bool, p: spec_fn(T) -> bool)
    requires
        forall|x: T| #[trigger] p(x) ==> !keep(x),
    ensures
        last_where(s.filter(keep), p) is None,
{
    let k = s.filter(keep);
    assert forall|i: int| 0 <= i < k.len() implies !p(#[trigger] k[i]) by {
        s.lemma_filter_pred(keep, i);
    }
    crate::seqs::lemma_filter_none(k, p);
}

/// The last row selected after a push is the pushed row, if selected.
pub proof fn lemma_last_where_push<T>(s: Seq<T>, x: T, p: spec_fn(T) -> bool)
    ensures
        last_where(s.push(x), p) == (if p(x) { Some(x) } else { last_where(s, p) }),
{
    s.lemma_filter_push(x, p);
}

/// Mapping with a function that keeps what `p` selects maps the last row
/// that `p` selects.
pub proof fn lemma_last_where_map<T>(s: Seq<T>, f: spec_fn(T) -> T, p: spec_fn(T) -> bool)
    requires
        forall|x: T| #[trigger] p(f(x)) == p(x),
    ensures
        last_where(s.map_values(f), p) == match last_where(s, p) {
            Some(x) => Some(f(x)),
            None => None::<T>,
        },
    decreases s.len(),
{
    if s.len() == 0 {
        assert(s.map_values(f) =~= s);
    } else {
        let t = s.drop_last();
        lemma_last_where_map(t, f, p);
        assert(s =~= t.push(s.last()));
        assert(s.map_values(f) =~= t.map_values(f).push(f(s.last())));
        lemma_last_where_push(t, s.last(), p);
        lemma_last_where_push(t.map_values(f), f(s.last()), p);
    }
}

/// Inserting an element adds it to the multiset of a sequence.
proof fn lemma_insert_multiset<T>(s: Seq<T>, pos: int, x: T)
    requires
        0 <= pos <= s.len(),
    ensures
        s.insert(pos, x).to_multiset() == s.to_multiset().insert(x),
{
    broadcast use vstd::seq_lib::group_to_multiset_ensures;
    let t = s.insert(pos, x);
    s.insert_ensures(pos, x);
    assert(t.remove(pos) =~= s);
    t.to_multiset_ensures();
    assert(t.remove(pos).to_multiset() =~= t.to_multiset().remove(x));
    assert(t.contains(x)) by { assert(t[pos] == x); }
    assert(t.to_multiset().count(x) > 0);
    assert(t.to_multiset() =~= s.to_multiset().insert(x));
}

/// Inserts `x` into the sorted vector `v` after every element not above it.
fn insert_sorted<K, T, G: Fn(&K, &T, &T) -> bool>(v: &mut Vec<T>, x: T, le: &G, lctx: &K, Ghost(leq): Ghost<spec_fn(T, T) -> bool>)
    requires
        forall|a: &T, b: &T| #[trigger] le.requires((lctx, a, b)),
        forall|a: &T, b: &T, r: bool| le.ensures((lctx, a, b), r) ==> r == leq(*a, *b),
        transitive(leq),
        strongly_connected(leq),
        sorted_by(old(v)@, leq),
    ensures
        sorted_by(final(v)@, leq),
        final(v)@.to_multiset() == old(v)@.to_multiset().insert(x),
{
    let n = v.len();
    let mut pos: usize = 0;
    while pos < n && le(lctx, &v[pos], &x)
        invariant
            n == v@.len(),
            pos <= n,
            v@ == old(v)@,
            forall|a: &T, b: &T| #[trigger] le.requires((lctx, a, b)),
            forall|a: &T, b: &T, r: bool| le.ensures((lctx, a, b), r) ==> r == leq(*a, *b),
            forall|k: int| 0 <= k < pos ==> leq(#[trigger] v@[k], x),
        decreases n - pos,
    {
        pos += 1;
    }
    let ghost s = v@;
    proof {
        if pos < n {
            assert(!leq(s[pos as int], x));
            assert(leq(x, s[pos as int]));
            assert forall|k: int| pos <= k < n implies leq(x, #[trigger] s[k]) by {
                if k > pos {
                    assert(leq(s[pos as int], s[k]));
                }
            }
        }
        lemma_insert_multiset(s, pos as int, x);
        s.insert_ensures(pos as int, x);
    }
    v.insert(pos, x);
    proof {
        let t = v@;
        assert forall|i: int, j: int| 0 <= i < j < t.len() implies #[trigger] leq(t[i], t[j]) by {
            if j < pos {
                assert(t[i] == s[i] && t[j] == s[j]);
            } else if j == pos {
                assert(t[i] == s[i]);
            } else if i < pos {
                assert(t[i] == s[i] && t[j] == s[j - 1]);
                assert(leq(s[i], x));
                assert(leq(x, s[j - 1]));
            } else if i == pos {
                assert(t[j] == s[j - 1]);
            } else {
                assert(t[i] == s[i - 1] && t[j] == s[j - 1]);
            }
        }
    }
}

/// The rows that `keep` selects, ordered by `le` (rows that compare equal
/// may come in any order).
pub fn select_sorted<C, K, T: Duplicate, F: Fn(&C, &T) -> bool, G: Fn(&K, &T, &T) -> bool>(
    rows: &Vec<T>,
    keep: F,
    ctx: &C,
    Ghost(p): Ghost<spec_fn(T) -> bool>,
    le: G,
    lctx: &K,
    Ghost(leq): Ghost<spec_fn(T, T) -> bool>,
) -> (out: Vec<T>)
    requires
        forall|x: &T| #[trigger] keep.requires((ctx, x)),
        forall|x: &T, b: bool| keep.ensures((ctx, x), b) ==> b == p(*x),
        forall|a: &T, b: &T| #[trigger] le.requires((lctx, a, b)),
        forall|a: &T, b: &T, r: bool| le.ensures((lctx, a, b), r) ==> r == leq(*a, *b),
        transitive(leq),
        strongly_connected(leq),
    ensures
        sorted_by(out@, leq),
        out@.to_multiset() == rows@.filter(p).to_multiset(),
{
    broadcast use vstd::seq_lib::group_to_multiset_ensures;
    let n = rows.len();
    let mut out: Vec<T> = Vec::new();
    proof {
        assert(rows@.take(0).filter(p) =~= Seq::<T>::empty()) by { reveal(Seq::filter); }
        assert(out@ =~= Seq::<T>::empty());
    }
    for i in 0..n
        invariant
            n == rows@.len(),
            forall|x: &T| #[trigger] keep.requires((ctx, x)),
            forall|x: &T, b: bool| keep.ensures((ctx, x), b) ==> b == p(*x),
            forall|a: &T, b: &T| #[trigger] le.requires((lctx, a, b)),
            forall|a: &T, b: &T, r: bool| le.ensures((lctx, a, b), r) ==> r == leq(*a, *b),
            transitive(leq),
            strongly_connected(leq),
            sorted_by(out@, leq),
            out@.to_multiset() == rows@.take(i as int).filter(p).to_multiset(),
    {
        proof { lemma_filter_take_step(rows@, i as int, p); }
        if keep(ctx, &rows[i]) {
            let x = rows[i].duplicate();
            proof { rows@.take(i as int).filter(p).to_multiset_ensures(); }
            insert_sorted(&mut out, x, &le, lctx, Ghost(leq));
        }
    }
    proof { lemma_take_all(rows@); }
    out
}

} // verus!
