//! Paginated, ordered list queries.
use vstd::prelude::*;
use crate::rows::Duplicate;

verus! {

/// The direction of an ordering.
#[derive(Debug, Clone, Copy, PartialEq, Eq, Structural)]
pub enum OrderDirection {
    Asc,
    Desc,
}

/// A page of a list: how many items, from which position, ordered by which
/// field of `F`, in which direction.
pub struct ListQuery<F> {
    pub limit: i64,
    pub offset: i64,
    pub order_by: Option<F>,
    pub direction: Option<OrderDirection>,
}

/// The page size when a query names none.
pub fn default_limit() -> (l: i64)
    ensures
        l == 50,
{
    50
}

/// The first position of a page of a list of `len` items (a negative offset
/// counts as none).
pub open spec fn page_start(len: int, offset: int) -> int {
    if offset < 0 {
        0
    } else if offset > len {
        len
    } else {
        offset
    }
}

/// The end of a page of a list of `len` items (a negative limit means no
/// limit).
pub open spec fn page_end(len: int, offset: int, limit: int) -> int {
    let lo = page_start(len, offset);
    if limit < 0 || lo + limit > len {
        len
    } else {
        lo + limit
    }
}

/// The items of `v` from position `offset`, at most `limit` of them.
pub fn page<T: Duplicate>(v: &Vec<T>, offset: i64, limit: i64) -> (out: Vec<T>)
    ensures
        out@ == v@.subrange(page_start(v@.len() as int, offset as int), page_end(v@.len() as int, offset as int, limit as int)),
{
    let n = v.len();
    let lo: usize = if offset < 0 {
        0
    } else if offset as u64 > n as u64 {
        n
    } else {
        offset as usize
    };
    let hi: usize = if limit < 0 || (limit as u64) > (n - lo) as u64 {
        n
    } else {
        lo + limit as usize
    };
    let mut out: Vec<T> = Vec::new();
    let mut i = lo;
    while i < hi
        invariant
            n == v@.len(),
            lo <= i <= hi <= n,
            lo == page_start(n as int, offset as int),
            hi == page_end(n as int, offset as int, limit as int),
            out@ == v@.subrange(lo as int, i as int),
        decreases hi - i,
    {
        out.push(v[i].duplicate());
        assert(v@.subrange(lo as int, i + 1) =~= v@.subrange(lo as int, i as int).push(v@[i as int]));
        i += 1;
    }
    out
}

} // verus!
