//! Character-level text rules used across the drive: equality, trimming,
//! prefixes, suffixes and substrings over the characters of a string.
use vstd::prelude::*;
use vstd::string::*;

verus! {

/// `c` is a white-space character in the sense of Unicode's `White_Space`
/// property (the set that `char::is_whitespace` documents).
pub open spec fn is_ws(c: char) -> bool {
    let u = c as u32;
    ||| 0x09 <= u <= 0x0D
    ||| u == 0x20
    ||| u == 0x85
    ||| u == 0xA0
    ||| u == 0x1680
    ||| 0x2000 <= u <= 0x200A
    ||| u == 0x2028
    ||| u == 0x2029
    ||| u == 0x202F
    ||| u == 0x205F
    ||| u == 0x3000
}

/// Index of the first non-white-space character of `s` at or after `i`.
pub open spec fn lead_end(s: Seq<char>, i: int) -> int
    decreases s.len() - i,
{
    if 0 <= i < s.len() && is_ws(s[i]) {
        lead_end(s, i + 1)
    } else {
        i
    }
}

/// Index just after the last non-white-space character of `s` before `j`,
/// never going below `lo`.
pub open spec fn trail_start(s: Seq<char>, j: int, lo: int) -> int
    decreases j - lo,
{
    if lo < j <= s.len() && is_ws(s[j - 1]) {
        trail_start(s, j - 1, lo)
    } else {
        j
    }
}

/// `s` without its leading and trailing white space.
pub open spec fn trimmed(s: Seq<char>) -> Seq<char> {
    let lo = lead_end(s, 0);
    s.subrange(lo, trail_start(s, s.len() as int, lo))
}

/// `p` is a prefix of `s`.
pub open spec fn has_prefix(s: Seq<char>, p: Seq<char>) -> bool {
    p.len() <= s.len() && s.subrange(0, p.len() as int) == p
}

/// `p` is a suffix of `s`.
pub open spec fn has_suffix(s: Seq<char>, p: Seq<char>) -> bool {
    p.len() <= s.len() && s.subrange(s.len() - p.len(), s.len() as int) == p
}

/// `p` occurs in `s` at position `i`.
pub open spec fn occurs_at(s: Seq<char>, p: Seq<char>, i: int) -> bool {
    0 <= i && i + p.len() <= s.len() && s.subrange(i, i + p.len()) == p
}

/// `p` occurs somewhere in `s`.
pub open spec fn has_infix(s: Seq<char>, p: Seq<char>) -> bool {
    exists|i: int| occurs_at(s, p, i)
}


/// Whether `c` is white space.
pub fn is_whitespace(c: char) -> (b: bool)
    ensures
        b == is_ws(c),
{
    let u = c as u32;
    (0x09 <= u && u <= 0x0D) || u == 0x20 || u == 0x85 || u == 0xA0 || u == 0x1680 || (0x2000
        <= u && u <= 0x200A) || u == 0x2028 || u == 0x2029 || u == 0x202F || u == 0x205F || u
        == 0x3000
}

/// Whether two strings hold the same characters.
pub fn str_eq(a: &str, b: &str) -> (r: bool)
    ensures
        r == (a@ == b@),
{
    let n = a.unicode_len();
    if n != b.unicode_len() {
        return false;
    }
    let mut i: usize = 0;
    while i < n
        invariant
            n == a@.len(),
            n == b@.len(),
            i <= n,
            forall|k: int| 0 <= k < i ==> a@[k] == b@[k],
        decreases n - i,
    {
        if a.get_char(i) != b.get_char(i) {
            return false;
        }
        i += 1;
    }
    assert(a@ =~= b@);
    true
}

/// `s` without leading and trailing white space.
pub fn trim(s: &str) -> (r: &str)
    ensures
        r@ == trimmed(s@),
{
    let n = s.unicode_len();
    let mut lo: usize = 0;
    while lo < n && is_whitespace(s.get_char(lo))
        invariant
            n == s@.len(),
            lo <= n,
            lead_end(s@, 0) == lead_end(s@, lo as int),
        decreases n - lo,
    {
        lo += 1;
    }
    let mut hi: usize = n;
    while hi > lo && is_whitespace(s.get_char(hi - 1))
        invariant
            n == s@.len(),
            lo <= hi <= n,
            lo == lead_end(s@, 0),
            trail_start(s@, n as int, lo as int) == trail_start(s@, hi as int, lo as int),
        decreases hi - lo,
    {
        hi -= 1;
    }
    s.substring_char(lo, hi)
}

/// Whether `s` begins with `p`.
pub fn starts_with(s: &str, p: &str) -> (r: bool)
    ensures
        r == has_prefix(s@, p@),
{
    let n = s.unicode_len();
    let m = p.unicode_len();
    if m > n {
        return false;
    }
    let mut i: usize = 0;
    while i < m
        invariant
            n == s@.len(),
            m == p@.len(),
            m <= n,
            i <= m,
            forall|k: int| 0 <= k < i ==> s@[k] == p@[k],
        decreases m - i,
    {
        if s.get_char(i) != p.get_char(i) {
            assert(s@.subrange(0, m as int)[i as int] != p@[i as int]);
            return false;
        }
        i += 1;
    }
    assert(s@.subrange(0, m as int) =~= p@);
    true
}

/// Whether `p` occurs in `s` at character position `at`.
pub fn occurs_at_pos(s: &str, p: &str, at: usize) -> (r: bool)
    ensures
        r == occurs_at(s@, p@, at as int),
{
    let n = s.unicode_len();
    let m = p.unicode_len();
    if m > n || at > n - m {
        return false;
    }
    let mut i: usize = 0;
    while i < m
        invariant
            n == s@.len(),
            m == p@.len(),
            at + m <= n,
            i <= m,
            forall|k: int| 0 <= k < i ==> s@[at + k] == p@[k],
        decreases m - i,
    {
        if s.get_char(at + i) != p.get_char(i) {
            assert(s@.subrange(at as int, at + m)[i as int] != p@[i as int]);
            return false;
        }
        i += 1;
    }
    assert(s@.subrange(at as int, at + m) =~= p@);
    true
}

/// Whether `s` ends with `p`.
pub fn ends_with(s: &str, p: &str) -> (r: bool)
    ensures
        r == has_suffix(s@, p@),
{
    let n = s.unicode_len();
    let m = p.unicode_len();
    if m > n {
        return false;
    }
    occurs_at_pos(s, p, n - m)
}

/// Whether `p` occurs anywhere in `s`.
pub fn contains(s: &str, p: &str) -> (r: bool)
    ensures
        r == has_infix(s@, p@),
{
    let n = s.unicode_len();
    let m = p.unicode_len();
    if m > n {
        assert forall|i: int| !occurs_at(s@, p@, i) by {}
        return false;
    }
    let mut i: usize = 0;
    while i < n - m
        invariant
            n == s@.len(),
            m == p@.len(),
            m <= n,
            i <= n - m,
            forall|k: int| 0 <= k < i ==> !occurs_at(s@, p@, k),
        decreases n - m - i,
    {
        if occurs_at_pos(s, p, i) {
            return true;
        }
        i += 1;
    }
    if occurs_at_pos(s, p, n - m) {
        return true;
    }
    assert forall|k: int| !occurs_at(s@, p@, k) by {
        if 0 <= k && k + m <= n {
            assert(k < i || k == n - m);
        }
    }
    false
}

/// `a` comes no later than `b` in character-code order (the order in which
/// the store sorts names).
pub open spec fn text_le(a: Seq<char>, b: Seq<char>) -> bool
    decreases a.len(),
{
    if a.len() == 0 {
        true
    } else if b.len() == 0 {
        false
    } else if (a[0] as u32) < (b[0] as u32) {
        true
    } else if (a[0] as u32) > (b[0] as u32) {
        false
    } else {
        text_le(a.drop_first(), b.drop_first())
    }
}

/// Character-code order is transitive.
pub proof fn lemma_text_le_transitive(a: Seq<char>, b: Seq<char>, c: Seq<char>)
    requires
        text_le(a, b),
        text_le(b, c),
    ensures
        text_le(a, c),
    decreases a.len(),
{
    if a.len() > 0 && b.len() > 0 && c.len() > 0 {
        if a[0] as u32 == b[0] as u32 && b[0] as u32 == c[0] as u32 {
            lemma_text_le_transitive(a.drop_first(), b.drop_first(), c.drop_first());
        }
    }
}

/// Any two texts compare one way or the other.
pub proof fn lemma_text_le_total(a: Seq<char>, b: Seq<char>)
    ensures
        text_le(a, b) || text_le(b, a),
    decreases a.len(),
{
    if a.len() > 0 && b.len() > 0 && a[0] as u32 == b[0] as u32 {
        lemma_text_le_total(a.drop_first(), b.drop_first());
    }
}

/// Whether `a` comes no later than `b` in character-code order.
pub fn str_le(a: &str, b: &str) -> (r: bool)
    ensures
        r == text_le(a@, b@),
{
    let n = a.unicode_len();
    let m = b.unicode_len();
    let mut i: usize = 0;
    assert(a@.skip(0) =~= a@ && b@.skip(0) =~= b@);
    while i < n && i < m
        invariant
            n == a@.len(),
            m == b@.len(),
            i <= n,
            i <= m,
            text_le(a@, b@) == text_le(a@.skip(i as int), b@.skip(i as int)),
        decreases n - i,
    {
        let x = a.get_char(i) as u32;
        let y = b.get_char(i) as u32;
        assert(a@.skip(i as int)[0] == a@[i as int]);
        assert(b@.skip(i as int)[0] == b@[i as int]);
        if x < y {
            return true;
        }
        if x > y {
            return false;
        }
        assert(a@.skip(i as int).drop_first() =~= a@.skip(i + 1));
        assert(b@.skip(i as int).drop_first() =~= b@.skip(i + 1));
        i += 1;
    }
    i == n
}

/// The characters of an optional string.
pub open spec fn opt_chars(o: Option<String>) -> Option<Seq<char>> {
    match o {
        Some(s) => Some(s@),
        None => None,
    }
}

/// The characters of an optional borrowed string.
pub open spec fn opt_str_chars(o: Option<&str>) -> Option<Seq<char>> {
    match o {
        Some(s) => Some(s@),
        None => None,
    }
}

/// An identical copy of an optional string.
pub fn clone_opt(o: &Option<String>) -> (r: Option<String>)
    ensures
        r == *o,
{
    match o {
        Some(s) => Some(s.clone()),
        None => None,
    }
}

/// An owned copy of an optional borrowed string.
pub fn to_owned_opt(o: Option<&str>) -> (r: Option<String>)
    ensures
        opt_chars(r) == opt_str_chars(o),
{
    match o {
        Some(s) => Some(s.to_owned()),
        None => None,
    }
}

/// Whether an optional string holds the same characters as an optional
/// borrowed string.
pub fn opt_eq(a: &Option<String>, b: Option<&str>) -> (r: bool)
    ensures
        r == (opt_chars(*a) == opt_str_chars(b)),
{
    match (a, b) {
        (Some(x), Some(y)) => str_eq(x.as_str(), y),
        (None, None) => true,
        _ => false,
    }
}

/// The characters of each string in a list.
pub open spec fn id_list(ids: Seq<String>) -> Seq<Seq<char>> {
    ids.map_values(|s: String| s@)
}

/// `candidate`, unless one of `taken` equals it; then `candidate`
/// lengthened with `-` until it is longer than every one of `taken`. Either
/// way, none of `taken` equals the answer.
pub fn fresh_id(candidate: String, taken: &Vec<String>) -> (r: String)
    ensures
        !id_list(taken@).contains(r@),
        !id_list(taken@).contains(candidate@) ==> r@ == candidate@,
{
    if !contains_id(taken, candidate.as_str()) {
        return candidate;
    }
    let mut longest: usize = 0;
    for i in 0..taken.len()
        invariant
            forall|k: int| 0 <= k < i ==> taken@[k]@.len() <= longest,
    {
        let l = taken[i].as_str().unicode_len();
        if l > longest {
            longest = l;
        }
    }
    let mut r = candidate;
    while r.as_str().unicode_len() <= longest
        invariant
            forall|k: int| 0 <= k < taken@.len() ==> taken@[k]@.len() <= longest,
        decreases longest + 1 - r@.len(),
    {
        proof { reveal_strlit("-"); }
        r.append("-");
    }
    assert(!id_list(taken@).contains(r@)) by {
        if id_list(taken@).contains(r@) {
            let k = choose|k: int| 0 <= k < id_list(taken@).len() && id_list(taken@)[k] == r@;
            assert(taken@[k]@.len() <= longest);
        }
    }
    r
}

/// Whether `id` is one of `ids`.
pub fn contains_id(ids: &Vec<String>, id: &str) -> (b: bool)
    ensures
        b == id_list(ids@).contains(id@),
{
    let n = ids.len();
    let mut i: usize = 0;
    while i < n
        invariant
            n == ids@.len(),
            i <= n,
            forall|k: int| 0 <= k < i ==> ids@[k]@ != id@,
        decreases n - i,
    {
        if str_eq(ids[i].as_str(), id) {
            assert(id_list(ids@)[i as int] == id@);
            return true;
        }
        i += 1;
    }
    assert(!id_list(ids@).contains(id@)) by {
        if id_list(ids@).contains(id@) {
            let k = choose|k: int| 0 <= k < id_list(ids@).len() && id_list(ids@)[k] == id@;
            assert(ids@[k]@ == id@);
        }
    }
    false
}

} // verus!
