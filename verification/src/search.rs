//! Search: turning what a user typed into a full-text query (every word a
//! prefix match, unless the user wrote phrases), escaping text for SQL
//! literals and patterns, and putting the engine's matches together with
//! file metadata.
use vstd::prelude::*;
use crate::text::{is_ws, is_whitespace, trim, trimmed, contains, has_infix, str_eq, contains_id, id_list};
use crate::rows::{last_where, select, select_sorted};
use crate::storage::{FileRecord, FileOrderField, StorageRepository, file_order, file_before, lemma_file_order};
use crate::pagination::{OrderDirection, page, page_start, page_end};
use vstd::relations::sorted_by;

verus! {

broadcast use vstd::seq_lib::group_seq_properties, vstd::seq::group_seq_axioms;

/// The words of `s`: its maximal runs of characters that are not white
/// space, in order.
pub open spec fn words(s: Seq<char>) -> Seq<Seq<char>>
    decreases s.len(),
{
    if s.len() == 0 {
        Seq::empty()
    } else {
        let w = words(s.drop_last());
        let c = s.last();
        if is_ws(c) {
            w
        } else if s.len() >= 2 && !is_ws(s[s.len() - 2]) {
            w.update(w.len() - 1, w.last().push(c))
        } else {
            w.push(seq![c])
        }
    }
}

/// The words `ws`, each followed by `*`, joined by single spaces.
pub open spec fn join_starred(ws: Seq<Seq<char>>) -> Seq<char>
    decreases ws.len(),
{
    if ws.len() == 0 {
        Seq::empty()
    } else if ws.len() == 1 {
        ws[0].push('*')
    } else {
        join_starred(ws.drop_last()) + seq![' '] + ws.last().push('*')
    }
}

/// The full-text query for what the user typed: the trimmed text as it is
/// where it holds a double quote (the user wrote phrases), else each word as
/// a prefix match.
pub open spec fn fts_query(q: Seq<char>) -> Seq<char> {
    let t = trimmed(q);
    if t.contains('"') {
        t
    } else {
        join_starred(words(t))
    }
}

/// `s` with each single quote doubled, as SQL string literals need.
pub open spec fn sql_escaped(s: Seq<char>) -> Seq<char>
    decreases s.len(),
{
    if s.len() == 0 {
        Seq::empty()
    } else if s.last() == '\'' {
        sql_escaped(s.drop_last()) + seq!['\'', '\'']
    } else {
        sql_escaped(s.drop_last()).push(s.last())
    }
}

/// Whether `s` holds the character `c`.
fn has_char(s: &str, c: char) -> (r: bool)
    ensures
        r == s@.contains(c),
{
    let n = s.unicode_len();
    let mut i: usize = 0;
    while i < n
        invariant
            n == s@.len(),
            i <= n,
            forall|k: int| 0 <= k < i ==> s@[k] != c,
        decreases n - i,
    {
        if s.get_char(i) == c {
            return true;
        }
        i += 1;
    }
    false
}

/// One more word added to a starred join.
proof fn lemma_join_push(ws: Seq<Seq<char>>, w: Seq<char>)
    ensures
        join_starred(ws.push(w)) == if ws.len() == 0 { w.push('*') } else { join_starred(ws) + seq![' '] + w.push('*') },
{
    assert(ws.push(w).drop_last() =~= ws);
}

/// Builds the full-text query for what the user typed.
pub fn build_fts_query(q: &str) -> (r: String)
    ensures
        r@ == fts_query(q@),
{
    let t = trim(q);
    if has_char(t, '"') {
        return t.to_owned();
    }
    proof { reveal_strlit("*"); reveal_strlit(" "); }
    let n = t.unicode_len();
    let mut out = String::new();
    let ghost mut done: Seq<Seq<char>> = Seq::empty();
    let mut in_word = false;
    let mut any_word = false;
    let mut start: usize = 0;
    let mut i: usize = 0;
    while i < n
        invariant
            n == t@.len(),
            i <= n,
            out@ == join_starred(done),
            any_word == (done.len() > 0),
            in_word ==> start < i,
            !in_word ==> (i == 0 || is_ws(t@[i - 1])),
            in_word ==> !is_ws(t@[i - 1]),
            in_word ==> (start == 0 || is_ws(t@[start - 1])),
            in_word ==> forall|k: int| start <= k < i ==> !is_ws(#[trigger] t@[k]),
            words(t@.take(i as int)) == if in_word { done.push(t@.subrange(start as int, i as int)) } else { done },
        decreases n - i,
    {
        proof { reveal_strlit("*"); reveal_strlit(" "); }
        let c = t.get_char(i);
        let ghost s1 = t@.take(i + 1);
        assert(s1.drop_last() =~= t@.take(i as int));
        assert(s1.last() == c);
        if is_whitespace(c) {
            if in_word {
                proof { lemma_join_push(done, t@.subrange(start as int, i as int)); }
                let ghost before = out@;
                if any_word {
                    out.append(" ");
                }
                let piece = t.substring_char(start, i);
                out.append(piece);
                out.append("*");
                proof {
                    let w = t@.subrange(start as int, i as int);
                    assert(piece@ == w);
                    if done.len() > 0 {
                        assert(out@ =~= before + seq![' '] + w.push('*'));
                    } else {
                        assert(out@ =~= w.push('*'));
                    }
                    done = done.push(w);
                }
                any_word = true;
                in_word = false;
            }
        } else {
            if in_word {
                assert(s1[s1.len() - 2] == t@[i - 1]);
                assert(t@.subrange(start as int, i as int).push(c) =~= t@.subrange(start as int, i + 1));
                let ghost w = words(t@.take(i as int));
                assert(w.update(w.len() - 1, w.last().push(c)) =~= done.push(t@.subrange(start as int, i + 1)));
            } else {
                assert(i > 0 ==> s1[s1.len() - 2] == t@[i - 1]);
                assert(t@.subrange(i as int, i + 1) =~= seq![c]);
                assert(words(t@.take(i as int)).push(seq![c]) =~= done.push(t@.subrange(i as int, i + 1)));
                start = i;
                in_word = true;
            }
        }
        i += 1;
    }
    assert(t@.take(n as int) =~= t@);
    if in_word {
        proof { lemma_join_push(done, t@.subrange(start as int, n as int)); }
        let ghost before = out@;
        if any_word {
            out.append(" ");
        }
        let piece = t.substring_char(start, n);
        out.append(piece);
        out.append("*");
        proof {
            let w = t@.subrange(start as int, n as int);
            assert(piece@ == w);
            if done.len() > 0 {
                assert(out@ =~= before + seq![' '] + w.push('*'));
            } else {
                assert(out@ =~= w.push('*'));
            }
            done = done.push(w);
        }
    }
    out
}

/// `s` with each single quote doubled, for use inside an SQL string
/// literal.
pub fn escape_sql_literal(s: &str) -> (r: String)
    ensures
        r@ == sql_escaped(s@),
{
    proof { reveal_strlit("''"); }
    let n = s.unicode_len();
    let mut out = String::new();
    let mut i: usize = 0;
    while i < n
        invariant
            n == s@.len(),
            i <= n,
            out@ == sql_escaped(s@.take(i as int)),
        decreases n - i,
    {
        proof { reveal_strlit("''"); }
        let ghost s1 = s@.take(i + 1);
        assert(s1.drop_last() =~= s@.take(i as int));
        let ghost before = out@;
        assert(s1.last() == s@[i as int]);
        if s.get_char(i) == '\'' {
            out.append("''");
            assert(out@ =~= before + seq!['\'', '\'']);
        } else {
            let piece = s.substring_char(i, i + 1);
            assert(piece@ =~= seq![s@[i as int]]);
            out.append(piece);
            assert(out@ =~= before.push(s@[i as int]));
        }
        i += 1;
    }
    assert(s@.take(n as int) =~= s@);
    out
}

/// The `LIKE` pattern that finds `q` anywhere in a name.
pub fn name_like_pattern(q: &str) -> (r: String)
    ensures
        r@ == seq!['%'] + q@ + seq!['%'],
{
    proof { reveal_strlit("%"); }
    let mut out = String::from_str("%");
    out.append(q);
    out.append("%");
    out
}

/// The `LIKE` pattern that finds MIME types beginning with `file_type`.
pub fn mime_like_pattern(file_type: &str) -> (r: String)
    ensures
        r@ == file_type@ + seq!['%'],
{
    proof { reveal_strlit("%"); }
    let mut out = file_type.to_owned();
    out.append("%");
    out
}

/// The code of `c` with ASCII capitals folded to small letters, as `LIKE`
/// compares (only ASCII letters fold).
pub open spec fn fold_code(c: char) -> int {
    if 65 <= c as int <= 90 { c as int + 32 } else { c as int }
}

/// Whether `LIKE` takes the text character `a` for the pattern character `b`.
pub open spec fn chars_match(a: char, b: char) -> bool {
    fold_code(a) == fold_code(b)
}

/// Whether the text `t` from position `i` matches the `LIKE` pattern `p`
/// from position `j`: `%` stands for any run of characters, `_` for any one
/// character, and any other character for itself, ASCII letters in either
/// case.
pub open spec fn like_at(t: Seq<char>, p: Seq<char>, i: int, j: int) -> bool
    decreases p.len() - j, t.len() - i,
{
    if j >= p.len() || j < 0 {
        i >= t.len()
    } else if p[j] == '%' {
        like_at(t, p, i, j + 1) || (0 <= i < t.len() && like_at(t, p, i + 1, j))
    } else if p[j] == '_' {
        0 <= i < t.len() && like_at(t, p, i + 1, j + 1)
    } else {
        0 <= i < t.len() && chars_match(t[i], p[j]) && like_at(t, p, i + 1, j + 1)
    }
}

/// Whether the text `t` matches the `LIKE` pattern `p`.
pub open spec fn like_matches(t: Seq<char>, p: Seq<char>) -> bool {
    like_at(t, p, 0, 0)
}

/// The characters of `s`.
fn chars_of(s: &str) -> (r: Vec<char>)
    ensures
        r@ == s@,
{
    let n = s.unicode_len();
    let mut r: Vec<char> = Vec::new();
    let mut i: usize = 0;
    while i < n
        invariant
            n == s@.len(),
            i <= n,
            r@ == s@.subrange(0, i as int),
        decreases n - i,
    {
        r.push(s.get_char(i));
        assert(r@ =~= s@.subrange(0, i + 1));
        i += 1;
    }
    assert(r@ =~= s@);
    r
}

/// Whether `LIKE` takes `a` for `b`.
fn char_matches(a: char, b: char) -> (r: bool)
    ensures
        r == chars_match(a, b),
{
    let x = a as u32;
    let y = b as u32;
    let fx = if 65 <= x && x <= 90 { x + 32 } else { x };
    let fy = if 65 <= y && y <= 90 { y + 32 } else { y };
    fx == fy
}

/// Whether `text` matches the `LIKE` pattern `pattern`.
pub fn like(text: &str, pattern: &str) -> (r: bool)
    ensures
        r == like_matches(text@, pattern@),
{
    let t = chars_of(text);
    let p = chars_of(pattern);
    let n = t.len();
    let m = p.len();
    let ghost ts = t@;
    let ghost ps = p@;
    // The column of pattern position `m`: only the end of the text matches.
    let mut next: Vec<bool> = Vec::new();
    let mut k: usize = 0;
    while k < n
        invariant
            n == ts.len(),
            m == ps.len(),
            k <= n,
            next@.len() == k,
            forall|q: int| 0 <= q < k ==> #[trigger] next@[q] == like_at(ts, ps, q, m as int),
        decreases n - k,
    {
        next.push(false);
        k += 1;
    }
    next.push(true);
    let mut j: usize = m;
    while j > 0
        invariant
            n == ts.len(),
            m == ps.len(),
            t@ == ts,
            p@ == ps,
            j <= m,
            next@.len() == n + 1,
            forall|q: int| 0 <= q <= n ==> #[trigger] next@[q] == like_at(ts, ps, q, j as int),
        decreases j,
    {
        let jj = j - 1;
        let pc = p[jj];
        let mut cur: Vec<bool> = Vec::new();
        let mut z: usize = 0;
        while z < n
            invariant
                z <= n,
                cur@.len() == z,
            decreases n - z,
        {
            cur.push(false);
            z += 1;
        }
        cur.push(false);
        let mut ii: usize = n;
        loop
            invariant_except_break
                n == ts.len(),
                m == ps.len(),
                t@ == ts,
                p@ == ps,
                jj < m,
                pc == ps[jj as int],
                ii <= n,
                cur@.len() == n + 1,
                next@.len() == n + 1,
                forall|q: int| 0 <= q <= n ==> #[trigger] next@[q] == like_at(ts, ps, q, jj + 1),
                forall|q: int| ii < q <= n ==> #[trigger] cur@[q] == like_at(ts, ps, q, jj as int),
            ensures
                cur@.len() == n + 1,
                forall|q: int| 0 <= q <= n ==> #[trigger] cur@[q] == like_at(ts, ps, q, jj as int),
            decreases ii,
        {
            let v = if pc == '%' {
                next[ii] || (ii < n && cur[ii + 1])
            } else if pc == '_' {
                ii < n && next[ii + 1]
            } else {
                ii < n && char_matches(t[ii], pc) && next[ii + 1]
            };
            proof {
                assert(like_at(ts, ps, ii as int, jj as int) == v);
            }
            cur.set(ii, v);
            if ii == 0 {
                break;
            }
            ii = ii - 1;
        }
        next = cur;
        j = jj;
    }
    next[0]
}

/// A search request: the text, an optional MIME type prefix, and a page.
pub struct SearchQuery {
    pub q: String,
    pub file_type: Option<String>,
    pub limit: i64,
    pub offset: i64,
}

/// One file found by a search, with the matching passage where the
/// full-text engine gave one.
#[derive(Debug)]
pub struct SearchResultItem {
    pub id: String,
    pub name: String,
    pub mime_type: String,
    pub size_bytes: i64,
    pub created_at: i64,
    pub updated_at: i64,
    pub user_id: String,
    pub snippet: Option<String>,
}

/// What a search answers.
#[derive(Debug)]
pub struct SearchResponse {
    pub items: Vec<SearchResultItem>,
    pub total: usize,
}

/// Whether the full-text engine is asked at all: only for text that is not
/// blank.
pub fn should_query_fts(q: &str) -> (r: bool)
    ensures
        r == (trimmed(q@).len() > 0),
{
    trim(q).unicode_len() > 0
}

/// How many matches to ask the full-text engine for: three times the page.
pub fn fts_fetch_limit(limit: i64) -> (r: i64)
    requires
        i64::MIN <= limit * 3 <= i64::MAX,
    ensures
        r == limit * 3,
{
    limit * 3
}

/// Whether to fall back to matching file names: the engine found nothing
/// for text that is not blank.
pub fn use_name_fallback(q: &str, fts_match_count: usize) -> (r: bool)
    ensures
        r == (fts_match_count == 0 && trimmed(q@).len() > 0),
{
    fts_match_count == 0 && should_query_fts(q)
}

/// Selects the engine's match for the file `id`.
pub open spec fn match_for(id: Seq<char>) -> spec_fn((String, Option<String>)) -> bool {
    |m: (String, Option<String>)| m.0@ == id
}

/// The snippet shown for the file `id`: that of the engine's last match for
/// it, if any.
pub open spec fn snippet_for(matches: Seq<(String, Option<String>)>, id: Seq<char>) -> Option<String> {
    match last_where(matches, match_for(id)) {
        Some(m) => m.1,
        None => None,
    }
}

/// The snippet of the last match for `id` among `matches`.
fn find_snippet(matches: &Vec<(String, Option<String>)>, id: &str) -> (r: Option<String>)
    ensures
        r == snippet_for(matches@, id@),
{
    let n = matches.len();
    let mut found: Option<usize> = None;
    for i in 0..n
        invariant
            n == matches@.len(),
            match found {
                Some(j) => j < i && matches@.take(i as int).filter(match_for(id@)).len() > 0
                    && matches@.take(i as int).filter(match_for(id@)).last() == matches@[j as int],
                None => matches@.take(i as int).filter(match_for(id@)).len() == 0,
            },
    {
        proof { crate::seqs::lemma_filter_take_step(matches@, i as int, match_for(id@)); }
        if str_eq(matches[i].0.as_str(), id) {
            found = Some(i);
        }
    }
    proof { crate::seqs::lemma_take_all(matches@); }
    match found {
        Some(j) => crate::text::clone_opt(&matches[j].1),
        None => None,
    }
}

/// The search results for the files `rows`, in order, each with the
/// snippet of its match among `matches`.
pub fn assemble_results(rows: &Vec<FileRecord>, matches: &Vec<(String, Option<String>)>) -> (r: SearchResponse)
    ensures
        r.total == rows@.len(),
        r.items@.len() == rows@.len(),
        forall|i: int| 0 <= i < rows@.len() ==> {
            let f = rows@[i];
            let it = #[trigger] r.items@[i];
            &&& it.id == f.id
            &&& it.name == f.name
            &&& it.mime_type == f.mime_type
            &&& it.size_bytes == f.size_bytes
            &&& it.created_at == f.created_at
            &&& it.updated_at == f.updated_at
            &&& it.user_id == f.user_id
            &&& it.snippet == snippet_for(matches@, f.id@)
        },
{
    let mut items: Vec<SearchResultItem> = Vec::new();
    for i in 0..rows.len()
        invariant
            items@.len() == i,
            forall|k: int| 0 <= k < i ==> {
                let f = rows@[k];
                let it = #[trigger] items@[k];
                &&& it.id == f.id
                &&& it.name == f.name
                &&& it.mime_type == f.mime_type
                &&& it.size_bytes == f.size_bytes
                &&& it.created_at == f.created_at
                &&& it.updated_at == f.updated_at
                &&& it.user_id == f.user_id
                &&& it.snippet == snippet_for(matches@, f.id@)
            },
    {
        let f = &rows[i];
        let snippet = find_snippet(matches, f.id.as_str());
        items.push(SearchResultItem {
            id: f.id.clone(),
            name: f.name.clone(),
            mime_type: f.mime_type.clone(),
            size_bytes: f.size_bytes,
            created_at: f.created_at,
            updated_at: f.updated_at,
            user_id: f.user_id.clone(),
            snippet,
        });
    }
    let total = items.len();
    SearchResponse { items, total }
}

/// Whether a MIME type passes the optional type filter: it matches the
/// pattern `type%`.
pub open spec fn type_ok(file_type: Option<Seq<char>>, mime: Seq<char>) -> bool {
    match file_type {
        Some(t) => like_matches(mime, t + seq!['%']),
        None => true,
    }
}

/// The view of an optional text.
pub open spec fn opt_text(o: Option<String>) -> Option<Seq<char>> {
    match o {
        Some(s) => Some(s@),
        None => None,
    }
}

/// Selects the live files of `user` whose name matches `%q%` and whose type
/// passes the filter: what name matching finds.
pub open spec fn name_hit(user: Seq<char>, q: Seq<char>, file_type: Option<Seq<char>>) -> spec_fn(FileRecord) -> bool {
    |f: FileRecord| f.user_id@ == user && f.deleted_at is None
        && like_matches(f.name@, seq!['%'] + q + seq!['%']) && type_ok(file_type, f.mime_type@)
}

/// Selects the live files of `user` among `ids` whose type passes the
/// filter: what the full-text matches name.
pub open spec fn engine_hit(user: Seq<char>, ids: Seq<Seq<char>>, file_type: Option<Seq<char>>) -> spec_fn(FileRecord) -> bool {
    |f: FileRecord| ids.contains(f.id@) && f.user_id@ == user && f.deleted_at is None && type_ok(file_type, f.mime_type@)
}

/// The file ids of full-text matches.
pub open spec fn match_ids(matches: Seq<(String, Option<String>)>) -> Seq<Seq<char>> {
    matches.map_values(|m: (String, Option<String>)| m.0@)
}

/// Whether `items` are the files `rows` in order, each with its snippet
/// among `matches`.
pub open spec fn items_of(items: Seq<SearchResultItem>, rows: Seq<FileRecord>, matches: Seq<(String, Option<String>)>) -> bool {
    &&& items.len() == rows.len()
    &&& forall|i: int| 0 <= i < rows.len() ==> {
        let f = rows[i];
        let it = #[trigger] items[i];
        &&& it.id == f.id && it.name == f.name && it.mime_type == f.mime_type
        &&& it.size_bytes == f.size_bytes && it.created_at == f.created_at && it.updated_at == f.updated_at
        &&& it.user_id == f.user_id
        &&& it.snippet == snippet_for(matches, f.id@)
    }
}

/// Whether `f` is a match of `k`'s name search.
pub fn is_name_hit(k: &(&str, &str, Option<&str>), f: &FileRecord) -> (b: bool)
    ensures
        b == name_hit(k.0@, k.1@, match k.2 { Some(t) => Some(t@), None => None })(*f),
{
    if !str_eq(f.user_id.as_str(), k.0) || f.deleted_at.is_some() {
        return false;
    }
    let pattern = name_like_pattern(k.1);
    if !like(f.name.as_str(), pattern.as_str()) {
        return false;
    }
    match k.2 {
        Some(t) => {
            let tp = mime_like_pattern(t);
            like(f.mime_type.as_str(), tp.as_str())
        },
        None => true,
    }
}

/// Whether `f` is a match of `k`'s full-text matches.
pub fn is_engine_hit(k: &(&str, &Vec<String>, Option<&str>), f: &FileRecord) -> (b: bool)
    ensures
        b == engine_hit(k.0@, id_list(k.1@), match k.2 { Some(t) => Some(t@), None => None })(*f),
{
    if !contains_id(k.1, f.id.as_str()) || !str_eq(f.user_id.as_str(), k.0) || f.deleted_at.is_some() {
        return false;
    }
    match k.2 {
        Some(t) => {
            let tp = mime_like_pattern(t);
            like(f.mime_type.as_str(), tp.as_str())
        },
        None => true,
    }
}

/// The ids of the full-text matches.
fn ids_of_matches(matches: &Vec<(String, Option<String>)>) -> (ids: Vec<String>)
    ensures
        id_list(ids@) == match_ids(matches@),
{
    let mut ids: Vec<String> = Vec::new();
    let n = matches.len();
    let mut i: usize = 0;
    while i < n
        invariant
            n == matches@.len(),
            i <= n,
            id_list(ids@) == match_ids(matches@.take(i as int)),
        decreases n - i,
    {
        proof { crate::seqs::lemma_map_take_step(matches@, i as int, |m: (String, Option<String>)| m.0@); }
        let ghost before = ids@;
        ids.push(matches[i].0.clone());
        assert(id_list(ids@) =~= id_list(before).push(matches@[i as int].0@));
        i += 1;
    }
    proof { crate::seqs::lemma_take_all(matches@); }
    ids
}

/// Searches the files of `user_id` for `query`, given what the full-text
/// engine matched (`engine_matches`, used only for text that is not blank).
/// Where the engine matched nothing for such text, names are searched
/// instead: live files of the user whose name matches `%q%` with `LIKE`
/// (and whose type matches `type%` when a type is asked), most recently
/// updated first, a page of them, without snippets. Otherwise the answer is
/// the user's live files among the engine's matches that pass the type
/// filter, in table order, each with its snippet. The total is the number
/// of items answered.
pub fn search(repo: &StorageRepository, user_id: &str, query: &SearchQuery, engine_matches: &Vec<(String, Option<String>)>) -> (r: SearchResponse)
    ensures
        r.total == r.items@.len(),
        ({
            let matches = if trimmed(query.q@).len() > 0 { engine_matches@ } else { Seq::empty() };
            let ft = opt_text(query.file_type);
            if matches.len() == 0 && trimmed(query.q@).len() > 0 {
                exists|all: Seq<FileRecord>| {
                    &&& sorted_by(all, file_order(FileOrderField::UpdatedAt, OrderDirection::Desc))
                    &&& #[trigger] all.to_multiset() == repo.files@.filter(name_hit(user_id@, query.q@, ft)).to_multiset()
                    &&& items_of(r.items@, all.subrange(page_start(all.len() as int, query.offset as int),
                            page_end(all.len() as int, query.offset as int, query.limit as int)), Seq::empty())
                }
            } else {
                items_of(r.items@, repo.files@.filter(engine_hit(user_id@, match_ids(matches), ft)), matches)
            }
        }),
{
    let empty: Vec<(String, Option<String>)> = Vec::new();
    let asked = should_query_fts(query.q.as_str());
    let matches: &Vec<(String, Option<String>)> = if asked { engine_matches } else { &empty };
    let ft: Option<&str> = match &query.file_type {
        Some(t) => Some(t.as_str()),
        None => None,
    };
    if use_name_fallback(query.q.as_str(), matches.len()) {
        proof { lemma_file_order(FileOrderField::UpdatedAt, OrderDirection::Desc); }
        let all = select_sorted(&repo.files, is_name_hit, &(user_id, query.q.as_str(), ft),
            Ghost(name_hit(user_id@, query.q@, opt_text(query.file_type))),
            file_before, &(FileOrderField::UpdatedAt, OrderDirection::Desc),
            Ghost(file_order(FileOrderField::UpdatedAt, OrderDirection::Desc)));
        let rows = page(&all, query.offset, query.limit);
        let r = assemble_results(&rows, &empty);
        assert(all@.to_multiset() == repo.files@.filter(name_hit(user_id@, query.q@, opt_text(query.file_type))).to_multiset());
        r
    } else {
        let ids = ids_of_matches(matches);
        let rows = select(&repo.files, is_engine_hit, &(user_id, &ids, ft),
            Ghost(engine_hit(user_id@, match_ids(matches@), opt_text(query.file_type))));
        assemble_results(&rows, matches)
    }
}

/// Law: escaping doubles the quotes and keeps everything else, so the
/// escaped text never ends a literal early: every quote in it comes in a
/// pair.
pub proof fn law_escape_keeps_other_text(s: Seq<char>)
    ensures
        !s.contains('\'') ==> sql_escaped(s) == s,
    decreases s.len(),
{
    if s.len() > 0 {
        if !s.contains('\'') {
            assert(!s.drop_last().contains('\'')) by {
                if s.drop_last().contains('\'') {
                    let k = choose|k: int| 0 <= k < s.drop_last().len() && s.drop_last()[k] == '\'';
                    assert(s[k] == '\'');
                }
            }
            assert(s.last() != '\'') by {
                assert(s[s.len() - 1] == s.last());
            }
            law_escape_keeps_other_text(s.drop_last());
            assert(s.drop_last().push(s.last()) =~= s);
        }
    }
}

/// Law: text that holds a double quote goes to the engine as it was typed,
/// trimmed.
pub proof fn law_phrases_kept(q: Seq<char>)
    requires
        trimmed(q).contains('"'),
    ensures
        fts_query(q) == trimmed(q),
{
}

/// `q` holds neither `%` nor `_`.
pub open spec fn no_wildcards(q: Seq<char>) -> bool {
    forall|m: int| 0 <= m < q.len() ==> #[trigger] q[m] != '%' && q[m] != '_'
}

/// The text `t` spells `q` from position `k`, ASCII letters in either case.
pub open spec fn spells_at(t: Seq<char>, q: Seq<char>, k: int) -> bool {
    &&& 0 <= k
    &&& k + q.len() <= t.len()
    &&& forall|m: int| 0 <= m < q.len() ==> #[trigger] chars_match(t[k + m], q[m])
}

/// A trailing `%` takes whatever is left of the text.
proof fn lemma_trailing_percent(t: Seq<char>, p: Seq<char>, i: int)
    requires
        p.len() > 0,
        p[p.len() - 1] == '%',
        0 <= i <= t.len(),
    ensures
        like_at(t, p, i, p.len() - 1),
    decreases t.len() - i,
{
    assert(like_at(t, p, i, p.len() as int) == (i >= t.len()));
    if i < t.len() {
        lemma_trailing_percent(t, p, i + 1);
    }
}

/// From position `j`, a pattern of plain characters ending in `%` matches
/// the text from `i` exactly when the text spells those characters there.
proof fn lemma_plain_then_percent(t: Seq<char>, p: Seq<char>, i: int, j: int)
    requires
        0 <= j <= p.len() - 1,
        p[p.len() - 1] == '%',
        forall|m: int| j <= m < p.len() - 1 ==> #[trigger] p[m] != '%' && p[m] != '_',
        0 <= i <= t.len(),
    ensures
        like_at(t, p, i, j) <==> (i + (p.len() - 1 - j) <= t.len()
            && forall|l: int| 0 <= l < p.len() - 1 - j ==> #[trigger] chars_match(t[i + l], p[j + l])),
    decreases p.len() - j,
{
    if j == p.len() - 1 {
        lemma_trailing_percent(t, p, i);
    } else {
        assert(p[j] != '%' && p[j] != '_');
        if i < t.len() {
            lemma_plain_then_percent(t, p, i + 1, j + 1);
            if like_at(t, p, i, j) {
                assert forall|l: int| 0 <= l < p.len() - 1 - j implies #[trigger] chars_match(t[i + l], p[j + l]) by {
                    if l > 0 {
                        assert(chars_match(t[(i + 1) + (l - 1)], p[(j + 1) + (l - 1)]));
                    }
                }
            }
            if i + (p.len() - 1 - j) <= t.len() && forall|l: int| 0 <= l < p.len() - 1 - j ==> #[trigger] chars_match(t[i + l], p[j + l]) {
                assert(chars_match(t[i + 0], p[j + 0]));
                assert forall|l: int| 0 <= l < p.len() - 1 - (j + 1) implies #[trigger] chars_match(t[(i + 1) + l], p[(j + 1) + l]) by {
                    assert(chars_match(t[i + (l + 1)], p[j + (l + 1)]));
                }
            }
        }
    }
}

/// From position `j`, a pattern of plain characters matches the text from
/// `i` exactly when the rest of the text spells the rest of the pattern.
proof fn lemma_plain(t: Seq<char>, p: Seq<char>, i: int, j: int)
    requires
        0 <= j <= p.len(),
        forall|m: int| j <= m < p.len() ==> #[trigger] p[m] != '%' && p[m] != '_',
        0 <= i <= t.len(),
    ensures
        like_at(t, p, i, j) <==> (t.len() - i == p.len() - j
            && forall|l: int| 0 <= l < p.len() - j ==> #[trigger] chars_match(t[i + l], p[j + l])),
    decreases p.len() - j,
{
    if j < p.len() {
        assert(p[j] != '%' && p[j] != '_');
        if i < t.len() {
            lemma_plain(t, p, i + 1, j + 1);
            if like_at(t, p, i, j) {
                assert forall|l: int| 0 <= l < p.len() - j implies #[trigger] chars_match(t[i + l], p[j + l]) by {
                    if l > 0 {
                        assert(chars_match(t[(i + 1) + (l - 1)], p[(j + 1) + (l - 1)]));
                    }
                }
            }
            if t.len() - i == p.len() - j && forall|l: int| 0 <= l < p.len() - j ==> #[trigger] chars_match(t[i + l], p[j + l]) {
                assert(chars_match(t[i + 0], p[j + 0]));
                assert forall|l: int| 0 <= l < p.len() - (j + 1) implies #[trigger] chars_match(t[(i + 1) + l], p[(j + 1) + l]) by {
                    assert(chars_match(t[i + (l + 1)], p[j + (l + 1)]));
                }
            }
        }
    }
}

/// `%q%` matches the text from `i` exactly when `q` is spelled somewhere
/// from `i` on.
proof fn lemma_contains_from(t: Seq<char>, q: Seq<char>, i: int)
    requires
        no_wildcards(q),
        0 <= i <= t.len(),
    ensures
        like_at(t, seq!['%'] + q + seq!['%'], i, 0) <==> exists|k: int| i <= k && #[trigger] spells_at(t, q, k),
    decreases t.len() - i,
{
    let p = seq!['%'] + q + seq!['%'];
    assert(p.len() == q.len() + 2);
    assert(p[0] == '%');
    assert(p[p.len() - 1] == '%');
    assert forall|m: int| 1 <= m < p.len() - 1 implies #[trigger] p[m] != '%' && p[m] != '_' by {
        assert(p[m] == q[m - 1]);
    }
    lemma_plain_then_percent(t, p, i, 1);
    assert(like_at(t, p, i, 1) <==> spells_at(t, q, i)) by {
        if like_at(t, p, i, 1) {
            assert forall|m: int| 0 <= m < q.len() implies #[trigger] chars_match(t[i + m], q[m]) by {
                assert(p[1 + m] == q[m]);
                assert(chars_match(t[i + m], p[1 + m]));
            }
        }
        if spells_at(t, q, i) {
            assert forall|l: int| 0 <= l < p.len() - 1 - 1 implies #[trigger] chars_match(t[i + l], p[1 + l]) by {
                assert(p[1 + l] == q[l]);
                assert(chars_match(t[i + l], q[l]));
            }
        }
    }
    if i < t.len() {
        lemma_contains_from(t, q, i + 1);
        if exists|k: int| i <= k && #[trigger] spells_at(t, q, k) {
            let k = choose|k: int| i <= k && #[trigger] spells_at(t, q, k);
            if k > i {
                assert(i + 1 <= k && spells_at(t, q, k));
            }
        }
    } else {
        if exists|k: int| i <= k && #[trigger] spells_at(t, q, k) {
            let k = choose|k: int| i <= k && #[trigger] spells_at(t, q, k);
            assert(k == i);
        }
    }
}

/// Law: `LIKE` takes an ASCII letter for itself in either case, and any
/// other character only for itself.
pub proof fn law_like_ignores_ascii_case(a: char, b: char)
    ensures
        chars_match(a, b) <==> (a == b
            || (65 <= a as int <= 90 && b as int == a as int + 32)
            || (65 <= b as int <= 90 && a as int == b as int + 32)),
{
}

/// Law: a pattern without `%` or `_` matches exactly the texts of its
/// length that spell it, ASCII letters in either case.
pub proof fn law_like_plain_pattern(t: Seq<char>, p: Seq<char>)
    requires
        no_wildcards(p),
    ensures
        like_matches(t, p) <==> (t.len() == p.len() && forall|l: int| 0 <= l < p.len() ==> #[trigger] chars_match(t[l], p[l])),
{
    lemma_plain(t, p, 0, 0);
    assert forall|l: int| 0 <= l < p.len() implies (#[trigger] chars_match(t[l], p[l]) <==> chars_match(t[0 + l], p[0 + l])) by {}
}

/// Law: `q%` (with `q` free of wildcards) matches exactly the texts that
/// begin with `q`, ASCII letters in either case.
pub proof fn law_like_prefix_pattern(t: Seq<char>, q: Seq<char>)
    requires
        no_wildcards(q),
    ensures
        like_matches(t, q + seq!['%']) <==> spells_at(t, q, 0),
{
    let p = q + seq!['%'];
    assert(p.len() == q.len() + 1);
    assert forall|m: int| 0 <= m < p.len() - 1 implies #[trigger] p[m] != '%' && p[m] != '_' by {
        assert(p[m] == q[m]);
    }
    lemma_plain_then_percent(t, p, 0, 0);
    if like_matches(t, p) {
        assert forall|m: int| 0 <= m < q.len() implies #[trigger] chars_match(t[0 + m], q[m]) by {
            assert(p[0 + m] == q[m]);
            assert(chars_match(t[0 + m], p[0 + m]));
        }
    }
    if spells_at(t, q, 0) {
        assert forall|l: int| 0 <= l < p.len() - 1 - 0 implies #[trigger] chars_match(t[0 + l], p[0 + l]) by {
            assert(p[0 + l] == q[l]);
            assert(chars_match(t[0 + l], q[l]));
        }
    }
}

/// Law: `%q%` (with `q` free of wildcards) matches exactly the texts that
/// contain `q` somewhere, ASCII letters in either case; so the name search
/// finds a file exactly when its name contains the query.
pub proof fn law_like_contains_pattern(t: Seq<char>, q: Seq<char>)
    requires
        no_wildcards(q),
    ensures
        like_matches(t, seq!['%'] + q + seq!['%']) <==> exists|k: int| #[trigger] spells_at(t, q, k),
{
    lemma_contains_from(t, q, 0);
}

/// Law: `%` alone matches every text.
pub proof fn law_like_percent_matches_all(t: Seq<char>)
    ensures
        like_matches(t, seq!['%']),
{
    let p = seq!['%'];
    assert(p[p.len() - 1] == '%');
    lemma_trailing_percent(t, p, 0);
}

/// Law: `_` stands for exactly one character: `_` alone matches exactly
/// the texts of one character, and `_%` exactly the non-empty texts.
pub proof fn law_like_underscore_is_one_char(t: Seq<char>)
    ensures
        like_matches(t, seq!['_']) <==> t.len() == 1,
        like_matches(t, seq!['_', '%']) <==> t.len() >= 1,
{
    let p = seq!['_'];
    assert(p[0] == '_');
    assert(like_at(t, p, 1, 1) == (1 >= t.len()));
    let p2 = seq!['_', '%'];
    assert(p2[0] == '_' && p2[1] == '%');
    if t.len() >= 1 {
        lemma_trailing_percent(t, p2, 1);
    }
}

} // verus!
