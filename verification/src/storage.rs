//! Stored files, their version history, the local layout of their content,
//! and the per-user quota and daily cap that uploads must respect.
use vstd::prelude::*;
use vstd::string::*;
use vstd::relations::{sorted_by, transitive, strongly_connected};
use crate::error::ApiError;
use crate::rows::{Duplicate, find_last, last_where, select, select_sorted, count_where, rewrite};
use crate::pagination::{ListQuery, OrderDirection, page, page_start, page_end};
use crate::runtime::{new_uuid, now_utc};
use crate::text::{clone_opt, str_eq, starts_with, has_prefix, text_le, lemma_text_le_transitive, lemma_text_le_total, str_le};

verus! {

/// One row of the files table. Times are seconds since the Unix epoch.
#[derive(Debug)]
pub struct FileRecord {
    pub id: String,
    pub user_id: String,
    pub name: String,
    pub size_bytes: i64,
    pub mime_type: String,
    pub storage_path: String,
    pub created_at: i64,
    pub updated_at: i64,
    pub folder_id: Option<String>,
    pub is_starred: bool,
    pub deleted_at: Option<i64>,
}

impl Duplicate for FileRecord {
    fn duplicate(&self) -> (r: Self) {
        FileRecord {
            id: self.id.clone(),
            user_id: self.user_id.clone(),
            name: self.name.clone(),
            size_bytes: self.size_bytes,
            mime_type: self.mime_type.clone(),
            storage_path: self.storage_path.clone(),
            created_at: self.created_at,
            updated_at: self.updated_at,
            folder_id: clone_opt(&self.folder_id),
            is_starred: self.is_starred,
            deleted_at: self.deleted_at,
        }
    }
}

/// One row of the file versions table.
#[derive(Debug)]
pub struct FileVersionRecord {
    pub id: String,
    pub file_id: String,
    pub user_id: String,
    pub version_number: i32,
    pub size_bytes: i64,
    pub storage_path: String,
    pub label: Option<String>,
    pub created_at: i64,
}

impl Duplicate for FileVersionRecord {
    fn duplicate(&self) -> (r: Self) {
        FileVersionRecord {
            id: self.id.clone(),
            file_id: self.file_id.clone(),
            user_id: self.user_id.clone(),
            version_number: self.version_number,
            size_bytes: self.size_bytes,
            storage_path: self.storage_path.clone(),
            label: clone_opt(&self.label),
            created_at: self.created_at,
        }
    }
}

/// A user's storage use and limits. `None` limits mean no limit.
#[derive(Debug)]
pub struct UserQuota {
    pub user_id: String,
    pub used_bytes: i64,
    pub daily_upload_bytes: i64,
    pub daily_reset_at: i64,
    pub quota_bytes: Option<i64>,
    pub daily_cap_bytes: Option<i64>,
}

impl Duplicate for UserQuota {
    fn duplicate(&self) -> (r: Self) {
        UserQuota {
            user_id: self.user_id.clone(),
            used_bytes: self.used_bytes,
            daily_upload_bytes: self.daily_upload_bytes,
            daily_reset_at: self.daily_reset_at,
            quota_bytes: self.quota_bytes,
            daily_cap_bytes: self.daily_cap_bytes,
        }
    }
}

/// The most versions a file keeps; the oldest goes beyond that.
pub const MAX_VERSIONS: usize = 100;

/// Seconds in a day.
pub const SECS_PER_DAY: i64 = 86400;

/// The UTC calendar day of a time.
pub open spec fn day_of(t: i64) -> int {
    t as int / SECS_PER_DAY as int
}

/// The UTC calendar day of `t`.
pub fn day_number(t: i64) -> (d: i64)
    ensures
        d == day_of(t),
{
    assert(i64::MIN <= t / 86400 <= i64::MAX) by (nonlinear_arith);
    t.checked_div_euclid(86400).unwrap()
}

/// Whether an upload at `now` starts a new day for the daily cap.
pub open spec fn starts_new_day(q: UserQuota, now: i64) -> bool {
    day_of(q.daily_reset_at) < day_of(now)
}

/// What the daily cap counts of today's uploads before one at `now`.
pub open spec fn daily_so_far(q: UserQuota, now: i64) -> int {
    if starts_new_day(q, now) { 0 } else { q.daily_upload_bytes as int }
}

/// Whether an upload of `size` bytes at `now` is admitted, and if so whether
/// it starts a new day.
pub open spec fn upload_verdict(q: UserQuota, size: i64, now: i64) -> Result<bool, ApiError> {
    if q.quota_bytes is Some && q.used_bytes + size > q.quota_bytes->0 {
        Err(ApiError::QuotaExceeded)
    } else if q.daily_cap_bytes is Some && daily_so_far(q, now) + size > q.daily_cap_bytes->0 {
        Err(ApiError::DailyLimitExceeded)
    } else {
        Ok(starts_new_day(q, now))
    }
}

/// The quota after an admitted upload of `size` bytes at `now`.
pub open spec fn quota_after_upload(q: UserQuota, size: i64, now: i64) -> UserQuota {
    UserQuota {
        used_bytes: (q.used_bytes + size) as i64,
        daily_upload_bytes: (daily_so_far(q, now) + size) as i64,
        daily_reset_at: now,
        ..q
    }
}

/// Whether an upload of `size` bytes at `now` fits `q`: the total quota, and
/// the daily cap (which starts afresh on a new day).
pub fn check_upload(q: &UserQuota, size: i64, now: i64) -> (r: Result<bool, ApiError>)
    ensures
        r == upload_verdict(*q, size, now),
{
    let reset_daily = day_number(q.daily_reset_at) < day_number(now);
    let current_daily: i64 = if reset_daily { 0 } else { q.daily_upload_bytes };
    if let Some(limit) = q.quota_bytes {
        if (q.used_bytes as i128) + (size as i128) > limit as i128 {
            return Err(ApiError::QuotaExceeded);
        }
    }
    if let Some(cap) = q.daily_cap_bytes {
        if (current_daily as i128) + (size as i128) > cap as i128 {
            return Err(ApiError::DailyLimitExceeded);
        }
    }
    Ok(reset_daily)
}

/// Law: an admitted upload keeps the user within the quota and within the
/// daily cap of the day it lands on.
pub proof fn law_admitted_upload_stays_within_limits(q: UserQuota, size: i64, now: i64)
    requires
        upload_verdict(q, size, now) is Ok,
        i64::MIN <= q.used_bytes + size <= i64::MAX,
        i64::MIN <= daily_so_far(q, now) + size <= i64::MAX,
    ensures
        q.quota_bytes is Some ==> quota_after_upload(q, size, now).used_bytes <= q.quota_bytes->0,
        q.daily_cap_bytes is Some ==> quota_after_upload(q, size, now).daily_upload_bytes <= q.daily_cap_bytes->0,
        quota_after_upload(q, size, now).daily_reset_at == now,
{
}

/// Law: an upload is refused with `QuotaExceeded` exactly when it would
/// take the user past a set quota (reaching it exactly is allowed), else
/// with `DailyLimitExceeded` exactly when it would take the day's uploads
/// past a set cap, where the day's count starts again from zero once the
/// UTC day (seconds since the epoch divided by 86400) has moved on since the
/// last upload; otherwise it is admitted, and it starts a new day exactly
/// when the UTC day has moved on.
pub proof fn law_upload_verdict(q: UserQuota, size: i64, now: i64)
    ensures
        (q.quota_bytes matches Some(l) && q.used_bytes + size > l) ==> upload_verdict(q, size, now) == Err::<bool, ApiError>(ApiError::QuotaExceeded),
        ({
            let today = if (q.daily_reset_at as int) / 86400 < (now as int) / 86400 { 0 } else { q.daily_upload_bytes as int };
            &&& !(q.quota_bytes matches Some(l) && q.used_bytes + size > l)
            &&& q.daily_cap_bytes matches Some(c) && today + size > c
        }) ==> upload_verdict(q, size, now) == Err::<bool, ApiError>(ApiError::DailyLimitExceeded),
        ({
            let today = if (q.daily_reset_at as int) / 86400 < (now as int) / 86400 { 0 } else { q.daily_upload_bytes as int };
            &&& !(q.quota_bytes matches Some(l) && q.used_bytes + size > l)
            &&& !(q.daily_cap_bytes matches Some(c) && today + size > c)
        }) ==> upload_verdict(q, size, now) == Ok::<bool, ApiError>((q.daily_reset_at as int) / 86400 < (now as int) / 86400),
{
}

/// Law: an upload admitted at some size is admitted at any smaller size at
/// the same time.
pub proof fn law_smaller_upload_admitted(q: UserQuota, size: i64, smaller: i64, now: i64)
    requires
        upload_verdict(q, size, now) is Ok,
        smaller <= size,
    ensures
        upload_verdict(q, smaller, now) is Ok,
{
}

/// `a` joined to `b` as path components: `b` alone if it is absolute or `a`
/// is empty, else with one `/` between them.
pub open spec fn path_join(a: Seq<char>, b: Seq<char>) -> Seq<char> {
    if b.len() > 0 && b[0] == '/' {
        b
    } else if a.len() == 0 {
        b
    } else if a.last() == '/' {
        a + b
    } else {
        a + seq!['/'] + b
    }
}

/// Joins two path components.
pub fn join_path(a: &str, b: &str) -> (r: String)
    ensures
        r@ == path_join(a@, b@),
{
    proof { reveal_strlit("/"); }
    let n = a.unicode_len();
    if b.unicode_len() > 0 && b.get_char(0) == '/' {
        return b.to_owned();
    }
    if n == 0 {
        return b.to_owned();
    }
    if a.get_char(n - 1) == '/' {
        return a.to_owned().concat(b);
    }
    let r = a.to_owned().concat("/").concat(b);
    assert(r@ =~= a@ + seq!['/'] + b@);
    r
}

/// Where uploaded content lives on local disk.
pub struct LocalFileStore {
    pub base_path: String,
}

impl LocalFileStore {
    /// A store rooted at `base_path`.
    pub fn new(base_path: String) -> (s: Self)
        ensures
            s.base_path == base_path,
    {
        LocalFileStore { base_path }
    }

    /// Where the content of `file_id` of `user_id` lives.
    pub fn file_path(&self, user_id: &str, file_id: &str) -> (p: String)
        ensures
            p@ == path_join(path_join(self.base_path@, user_id@), file_id@),
    {
        let d = join_path(self.base_path.as_str(), user_id);
        join_path(d.as_str(), file_id)
    }

    /// Where an upload of `user_id` is written before it is committed.
    pub fn temp_path(&self, user_id: &str, temp_id: &str) -> (p: String)
        ensures
            p@ == path_join(path_join(self.base_path@, user_id@), "tmp_"@ + temp_id@),
    {
        proof { reveal_strlit("tmp_"); }
        let d = join_path(self.base_path.as_str(), user_id);
        let name = "tmp_".to_owned().concat(temp_id);
        join_path(d.as_str(), name.as_str())
    }

    /// The key, relative to the store, of the content of `file_id`.
    pub fn file_key(&self, user_id: &str, file_id: &str) -> (k: String)
        ensures
            k@ == path_join(user_id@, file_id@),
    {
        join_path(user_id, file_id)
    }

    /// The key, relative to the store, of a version snapshot of `file_id`.
    pub fn version_key(&self, user_id: &str, file_id: &str, version_id: &str) -> (k: String)
        ensures
            k@ == path_join(path_join(path_join(user_id@, "versions"@), file_id@), version_id@),
    {
        let a = join_path(user_id, "versions");
        let b = join_path(a.as_str(), file_id);
        join_path(b.as_str(), version_id)
    }

    /// Where the content with key `key` lives.
    pub fn resolve(&self, key: &str) -> (p: String)
        ensures
            p@ == path_join(self.base_path@, key@),
    {
        join_path(self.base_path.as_str(), key)
    }
}

/// The field a file listing is ordered by.
#[derive(Debug, Clone, Copy, PartialEq, Eq, Structural)]
pub enum FileOrderField {
    Name,
    Size,
    CreatedAt,
    UpdatedAt,
}

/// The field a version listing is ordered by.
#[derive(Debug, Clone, Copy, PartialEq, Eq, Structural)]
pub enum VersionOrderField {
    VersionNumber,
    CreatedAt,
    Size,
}

/// The field a listing of archive entries is ordered by.
#[derive(Debug, Clone, Copy, PartialEq, Eq, Structural)]
pub enum ZipEntryOrderField {
    Name,
    Size,
    CompressedSize,
    IsDir,
}

/// Whether `a` comes no later than `b` by `field` in direction `dir`.
pub open spec fn file_le(field: FileOrderField, dir: OrderDirection, a: FileRecord, b: FileRecord) -> bool {
    let up = match field {
        FileOrderField::Name => text_le(a.name@, b.name@),
        FileOrderField::Size => a.size_bytes <= b.size_bytes,
        FileOrderField::CreatedAt => a.created_at <= b.created_at,
        FileOrderField::UpdatedAt => a.updated_at <= b.updated_at,
    };
    let down = match field {
        FileOrderField::Name => text_le(b.name@, a.name@),
        FileOrderField::Size => b.size_bytes <= a.size_bytes,
        FileOrderField::CreatedAt => b.created_at <= a.created_at,
        FileOrderField::UpdatedAt => b.updated_at <= a.updated_at,
    };
    match dir {
        OrderDirection::Asc => up,
        OrderDirection::Desc => down,
    }
}

/// The order of a file listing.
pub open spec fn file_order(field: FileOrderField, dir: OrderDirection) -> spec_fn(FileRecord, FileRecord) -> bool {
    |a: FileRecord, b: FileRecord| file_le(field, dir, a, b)
}

/// A file listing's order is a total preorder.
pub proof fn lemma_file_order(field: FileOrderField, dir: OrderDirection)
    ensures
        transitive(file_order(field, dir)),
        strongly_connected(file_order(field, dir)),
{
    assert forall|x: FileRecord, y: FileRecord, z: FileRecord|
        #[trigger] file_order(field, dir)(x, y) && #[trigger] file_order(field, dir)(y, z) implies file_order(field, dir)(x, z) by {
        if field == FileOrderField::Name {
            if dir == OrderDirection::Asc {
                lemma_text_le_transitive(x.name@, y.name@, z.name@);
            } else {
                lemma_text_le_transitive(z.name@, y.name@, x.name@);
            }
        }
    }
    assert forall|x: FileRecord, y: FileRecord|
        #[trigger] file_order(field, dir)(x, y) || #[trigger] file_order(field, dir)(y, x) by {
        lemma_text_le_total(x.name@, y.name@);
    }
}

/// Whether `a` comes no later than `b` by `k.0` in direction `k.1`.
pub fn file_before(k: &(FileOrderField, OrderDirection), a: &FileRecord, b: &FileRecord) -> (r: bool)
    ensures
        r == file_order(k.0, k.1)(*a, *b),
{
    let (x, y) = match k.1 {
        OrderDirection::Asc => (a, b),
        OrderDirection::Desc => (b, a),
    };
    match k.0 {
        FileOrderField::Name => str_le(x.name.as_str(), y.name.as_str()),
        FileOrderField::Size => x.size_bytes <= y.size_bytes,
        FileOrderField::CreatedAt => x.created_at <= y.created_at,
        FileOrderField::UpdatedAt => x.updated_at <= y.updated_at,
    }
}

/// Whether version `a` comes no later than `b` by `field` in direction `dir`.
pub open spec fn version_le(field: VersionOrderField, dir: OrderDirection, a: FileVersionRecord, b: FileVersionRecord) -> bool {
    let (x, y) = match dir {
        OrderDirection::Asc => (a, b),
        OrderDirection::Desc => (b, a),
    };
    match field {
        VersionOrderField::VersionNumber => x.version_number <= y.version_number,
        VersionOrderField::CreatedAt => x.created_at <= y.created_at,
        VersionOrderField::Size => x.size_bytes <= y.size_bytes,
    }
}

/// The order of a version listing.
pub open spec fn version_order(field: VersionOrderField, dir: OrderDirection) -> spec_fn(FileVersionRecord, FileVersionRecord) -> bool {
    |a: FileVersionRecord, b: FileVersionRecord| version_le(field, dir, a, b)
}

/// A version listing's order is a total preorder.
pub proof fn lemma_version_order(field: VersionOrderField, dir: OrderDirection)
    ensures
        transitive(version_order(field, dir)),
        strongly_connected(version_order(field, dir)),
{
    assert forall|x: FileVersionRecord, y: FileVersionRecord, z: FileVersionRecord|
        #[trigger] version_order(field, dir)(x, y) && #[trigger] version_order(field, dir)(y, z) implies version_order(field, dir)(x, z) by {}
    assert forall|x: FileVersionRecord, y: FileVersionRecord|
        #[trigger] version_order(field, dir)(x, y) || #[trigger] version_order(field, dir)(y, x) by {}
}

/// Whether version `a` comes no later than `b` by `k.0` in direction `k.1`.
pub fn version_before(k: &(VersionOrderField, OrderDirection), a: &FileVersionRecord, b: &FileVersionRecord) -> (r: bool)
    ensures
        r == version_order(k.0, k.1)(*a, *b),
{
    let (x, y) = match k.1 {
        OrderDirection::Asc => (a, b),
        OrderDirection::Desc => (b, a),
    };
    match k.0 {
        VersionOrderField::VersionNumber => x.version_number <= y.version_number,
        VersionOrderField::CreatedAt => x.created_at <= y.created_at,
        VersionOrderField::Size => x.size_bytes <= y.size_bytes,
    }
}

/// One entry of a ZIP archive.
#[derive(Debug)]
pub struct ZipEntry {
    pub name: String,
    pub size: u64,
    pub compressed_size: u64,
    pub is_dir: bool,
}

impl Duplicate for ZipEntry {
    fn duplicate(&self) -> (r: Self) {
        ZipEntry { name: self.name.clone(), size: self.size, compressed_size: self.compressed_size, is_dir: self.is_dir }
    }
}

/// Whether entry `a` comes no later than `b` by `field` in direction `dir`
/// (names in character-code order; files before directories).
pub open spec fn zip_le(field: ZipEntryOrderField, dir: OrderDirection, a: ZipEntry, b: ZipEntry) -> bool {
    let (x, y) = match dir {
        OrderDirection::Asc => (a, b),
        OrderDirection::Desc => (b, a),
    };
    match field {
        ZipEntryOrderField::Name => text_le(x.name@, y.name@),
        ZipEntryOrderField::Size => x.size <= y.size,
        ZipEntryOrderField::CompressedSize => x.compressed_size <= y.compressed_size,
        ZipEntryOrderField::IsDir => !x.is_dir || y.is_dir,
    }
}

/// The order of an archive listing.
pub open spec fn zip_order(field: ZipEntryOrderField, dir: OrderDirection) -> spec_fn(ZipEntry, ZipEntry) -> bool {
    |a: ZipEntry, b: ZipEntry| zip_le(field, dir, a, b)
}

/// An archive listing's order is a total preorder.
pub proof fn lemma_zip_order(field: ZipEntryOrderField, dir: OrderDirection)
    ensures
        transitive(zip_order(field, dir)),
        strongly_connected(zip_order(field, dir)),
{
    assert forall|x: ZipEntry, y: ZipEntry, z: ZipEntry|
        #[trigger] zip_order(field, dir)(x, y) && #[trigger] zip_order(field, dir)(y, z) implies zip_order(field, dir)(x, z) by {
        if field == ZipEntryOrderField::Name {
            if dir == OrderDirection::Asc {
                lemma_text_le_transitive(x.name@, y.name@, z.name@);
            } else {
                lemma_text_le_transitive(z.name@, y.name@, x.name@);
            }
        }
    }
    assert forall|x: ZipEntry, y: ZipEntry|
        #[trigger] zip_order(field, dir)(x, y) || #[trigger] zip_order(field, dir)(y, x) by {
        lemma_text_le_total(x.name@, y.name@);
    }
}

/// Whether entry `a` comes no later than `b` by `k.0` in direction `k.1`.
pub fn zip_before(k: &(ZipEntryOrderField, OrderDirection), a: &ZipEntry, b: &ZipEntry) -> (r: bool)
    ensures
        r == zip_order(k.0, k.1)(*a, *b),
{
    let (x, y) = match k.1 {
        OrderDirection::Asc => (a, b),
        OrderDirection::Desc => (b, a),
    };
    match k.0 {
        ZipEntryOrderField::Name => str_le(x.name.as_str(), y.name.as_str()),
        ZipEntryOrderField::Size => x.size <= y.size,
        ZipEntryOrderField::CompressedSize => x.compressed_size <= y.compressed_size,
        ZipEntryOrderField::IsDir => !x.is_dir || y.is_dir,
    }
}

/// Selects every entry.
pub open spec fn any_entry() -> spec_fn(ZipEntry) -> bool {
    |e: ZipEntry| true
}

/// Whether `e` is any entry.
pub fn is_any_entry(_k: &(), e: &ZipEntry) -> (b: bool)
    ensures
        b == any_entry()(*e),
{
    true
}

/// `page` is a page of `entries` ordered as `query` says (by name,
/// ascending, unless it says otherwise).
pub open spec fn zip_page(entries: Seq<ZipEntry>, query: ListQuery<ZipEntryOrderField>, page: Seq<ZipEntry>) -> bool {
    exists|all: Seq<ZipEntry>| {
        &&& sorted_by(all, zip_order(
            match query.order_by { Some(f) => f, None => ZipEntryOrderField::Name },
            match query.direction { Some(d) => d, None => OrderDirection::Asc },
        ))
        &&& #[trigger] all.to_multiset() == entries.to_multiset()
        &&& page == all.subrange(page_start(all.len() as int, query.offset as int), page_end(all.len() as int, query.offset as int, query.limit as int))
    }
}

/// A page of the entries of an archive, ordered as `query` says (by name,
/// ascending, unless it says otherwise).
pub fn list_zip_entries(entries: &Vec<ZipEntry>, query: &ListQuery<ZipEntryOrderField>) -> (r: Vec<ZipEntry>)
    ensures
        zip_page(entries@, *query, r@),
{
    let field = match query.order_by { Some(f) => f, None => ZipEntryOrderField::Name };
    let dir = match query.direction { Some(d) => d, None => OrderDirection::Asc };
    proof { lemma_zip_order(field, dir); }
    let all = select_sorted(entries, is_any_entry, &(), Ghost(any_entry()), zip_before, &(field, dir), Ghost(zip_order(field, dir)));
    proof {
        crate::seqs::lemma_filter_keeps_all(entries@, any_entry());
    }
    let r = page(&all, query.offset, query.limit);
    assert(all@.to_multiset() == entries@.to_multiset());
    r
}

/// Selects the files of `user` not in the trash.
pub open spec fn live_file_of_user(user: Seq<char>) -> spec_fn(FileRecord) -> bool {
    |f: FileRecord| f.user_id@ == user && f.deleted_at is None
}

/// Selects the file `id` of `user`.
pub open spec fn owned_file(id: Seq<char>, user: Seq<char>) -> spec_fn(FileRecord) -> bool {
    |f: FileRecord| f.id@ == id && f.user_id@ == user
}

/// Selects the file `id`, whoever owns it.
pub open spec fn file_with_id(id: Seq<char>) -> spec_fn(FileRecord) -> bool {
    |f: FileRecord| f.id@ == id
}

/// Selects the quota of `user`.
pub open spec fn quota_of(user: Seq<char>) -> spec_fn(UserQuota) -> bool {
    |q: UserQuota| q.user_id@ == user
}

/// Selects the versions of file `id`.
pub open spec fn version_of(id: Seq<char>) -> spec_fn(FileVersionRecord) -> bool {
    |v: FileVersionRecord| v.file_id@ == id
}

/// Selects the version `vid` of file `fid` of `user`.
pub open spec fn version_key_of(vid: Seq<char>, fid: Seq<char>, user: Seq<char>) -> spec_fn(FileVersionRecord) -> bool {
    |v: FileVersionRecord| v.id@ == vid && v.file_id@ == fid && v.user_id@ == user
}

/// Selects every version whose id is not `vid`.
pub open spec fn version_not_id(vid: Seq<char>) -> spec_fn(FileVersionRecord) -> bool {
    |v: FileVersionRecord| v.id@ != vid
}

/// Orders versions by number, highest first.
pub open spec fn version_desc() -> spec_fn(FileVersionRecord, FileVersionRecord) -> bool {
    |a: FileVersionRecord, b: FileVersionRecord| a.version_number >= b.version_number
}

/// The highest version number among `s` (0 if there is none).
pub open spec fn max_number(s: Seq<FileVersionRecord>) -> int
    decreases s.len(),
{
    if s.len() == 0 {
        0
    } else {
        let m = max_number(s.drop_last());
        if s.last().version_number > m { s.last().version_number as int } else { m }
    }
}

/// The change `k.2` to the size, key and update time of file `k.0` of `k.1`.
pub struct UpdateFileContent {
    pub size_bytes: i64,
    pub storage_path: String,
    pub updated_at: i64,
}

/// Replaces the content of the file `id` of `user` by `c`.
pub open spec fn content_fn(id: Seq<char>, user: Seq<char>, c: UpdateFileContent) -> spec_fn(FileRecord) -> FileRecord {
    |f: FileRecord| if owned_file(id, user)(f) { FileRecord { size_bytes: c.size_bytes, storage_path: c.storage_path, updated_at: c.updated_at, ..f } } else { f }
}

/// Records the quota of `user` after an upload.
pub open spec fn quota_update_fn(user: Seq<char>, used: i64, daily: i64, reset_at: i64) -> spec_fn(UserQuota) -> UserQuota {
    |q: UserQuota| if quota_of(user)(q) { UserQuota { used_bytes: used, daily_upload_bytes: daily, daily_reset_at: reset_at, ..q } } else { q }
}

/// Sets the label of version `vid` of file `fid` of `user`.
pub open spec fn label_fn(vid: Seq<char>, fid: Seq<char>, user: Seq<char>, label: Option<String>) -> spec_fn(FileVersionRecord) -> FileVersionRecord {
    |v: FileVersionRecord| if version_key_of(vid, fid, user)(v) { FileVersionRecord { label: label, ..v } } else { v }
}

/// Whether `f` is a live file of user `k`.
pub fn is_live_file_of_user(k: &&str, f: &FileRecord) -> (b: bool)
    ensures
        b == live_file_of_user(k@)(*f),
{
    str_eq(f.user_id.as_str(), *k) && f.deleted_at.is_none()
}

/// Whether `f` is the file `k.0` of user `k.1`.
pub fn is_owned_file(k: &(&str, &str), f: &FileRecord) -> (b: bool)
    ensures
        b == owned_file(k.0@, k.1@)(*f),
{
    str_eq(f.id.as_str(), k.0) && str_eq(f.user_id.as_str(), k.1)
}

/// Whether `f` is the file `k`.
pub fn is_file_with_id(k: &&str, f: &FileRecord) -> (b: bool)
    ensures
        b == file_with_id(k@)(*f),
{
    str_eq(f.id.as_str(), *k)
}

/// Whether `q` is the quota of user `k`.
pub fn is_quota_of(k: &&str, q: &UserQuota) -> (b: bool)
    ensures
        b == quota_of(k@)(*q),
{
    str_eq(q.user_id.as_str(), *k)
}

/// Whether `v` is a version of file `k`.
pub fn is_version_of(k: &&str, v: &FileVersionRecord) -> (b: bool)
    ensures
        b == version_of(k@)(*v),
{
    str_eq(v.file_id.as_str(), *k)
}

/// Whether `v` is the version `k.0` of file `k.1` of user `k.2`.
pub fn is_version_key(k: &(&str, &str, &str), v: &FileVersionRecord) -> (b: bool)
    ensures
        b == version_key_of(k.0@, k.1@, k.2@)(*v),
{
    str_eq(v.id.as_str(), k.0) && str_eq(v.file_id.as_str(), k.1) && str_eq(v.user_id.as_str(), k.2)
}

/// Whether `v` does not have id `k`.
pub fn is_version_not_id(k: &&str, v: &FileVersionRecord) -> (b: bool)
    ensures
        b == version_not_id(k@)(*v),
{
    !str_eq(v.id.as_str(), *k)
}

/// Whether `a` has a version number no lower than `b`.
pub fn version_desc_before(_k: &(), a: &FileVersionRecord, b: &FileVersionRecord) -> (r: bool)
    ensures
        r == version_desc()(*a, *b),
{
    a.version_number >= b.version_number
}

/// The file after its content changes as `k.2` says, if it is `k.0` of `k.1`.
pub fn apply_content(k: &(&str, &str, &UpdateFileContent), f: &FileRecord) -> (r: FileRecord)
    ensures
        r == content_fn(k.0@, k.1@, *k.2)(*f),
{
    let mut g = f.duplicate();
    if is_owned_file(&(k.0, k.1), f) {
        g.size_bytes = k.2.size_bytes;
        g.storage_path = k.2.storage_path.clone();
        g.updated_at = k.2.updated_at;
    }
    g
}

/// The quota after an upload, if it is the quota of `k.0`.
pub fn apply_quota_update(k: &(&str, i64, i64, i64), q: &UserQuota) -> (r: UserQuota)
    ensures
        r == quota_update_fn(k.0@, k.1, k.2, k.3)(*q),
{
    let mut g = q.duplicate();
    if is_quota_of(&k.0, q) {
        g.used_bytes = k.1;
        g.daily_upload_bytes = k.2;
        g.daily_reset_at = k.3;
    }
    g
}

/// The version with label `k.3`, if it is version `k.0` of file `k.1` of `k.2`.
pub fn apply_label(k: &(&str, &str, &str, &Option<String>), v: &FileVersionRecord) -> (r: FileVersionRecord)
    ensures
        r == label_fn(k.0@, k.1@, k.2@, *k.3)(*v),
{
    let mut g = v.duplicate();
    if is_version_key(&(k.0, k.1, k.2), v) {
        g.label = clone_opt(k.3);
    }
    g
}

/// The files, versions and quotas tables.
pub struct StorageRepository {
    pub files: Vec<FileRecord>,
    pub versions: Vec<FileVersionRecord>,
    pub quotas: Vec<UserQuota>,
}

impl StorageRepository {
    /// Adds a file; returns the stored row.
    pub fn insert_file(&mut self, record: FileRecord) -> (r: FileRecord)
        ensures
            r == record,
            final(self).files@ == old(self).files@.push(record),
            final(self).versions@ == old(self).versions@,
            final(self).quotas@ == old(self).quotas@,
    {
        let r = record.duplicate();
        self.files.push(record);
        r
    }

    /// A page of the live files of `user_id`, ordered as the query asks
    /// (by default newest first).
    pub fn list_files_by_user(&self, user_id: &str, query: &ListQuery<FileOrderField>) -> (r: Vec<FileRecord>)
        ensures
            exists|all: Seq<FileRecord>| {
                &&& sorted_by(all, file_order(
                    match query.order_by { Some(f) => f, None => FileOrderField::CreatedAt },
                    match query.direction { Some(d) => d, None => OrderDirection::Desc },
                ))
                &&& #[trigger] all.to_multiset() == self.files@.filter(live_file_of_user(user_id@)).to_multiset()
                &&& r@ == all.subrange(page_start(all.len() as int, query.offset as int), page_end(all.len() as int, query.offset as int, query.limit as int))
            },
    {
        let field = match query.order_by { Some(f) => f, None => FileOrderField::CreatedAt };
        let dir = match query.direction { Some(d) => d, None => OrderDirection::Desc };
        proof { lemma_file_order(field, dir); }
        let all = select_sorted(&self.files, is_live_file_of_user, &user_id, Ghost(live_file_of_user(user_id@)), file_before, &(field, dir), Ghost(file_order(field, dir)));
        let r = page(&all, query.offset, query.limit);
        assert(all@.to_multiset() == self.files@.filter(live_file_of_user(user_id@)).to_multiset());
        r
    }

    /// The file `file_id` of `user_id`, in the trash or not.
    pub fn find_file(&self, file_id: &str, user_id: &str) -> (r: Option<FileRecord>)
        ensures
            r == last_where(self.files@, owned_file(file_id@, user_id@)),
    {
        match find_last(&self.files, is_owned_file, &(file_id, user_id), Ghost(owned_file(file_id@, user_id@))) {
            Some(j) => Some(self.files[j].duplicate()),
            None => None,
        }
    }

    /// The file `file_id`, whoever owns it.
    pub fn find_file_by_id(&self, file_id: &str) -> (r: Option<FileRecord>)
        ensures
            r == last_where(self.files@, file_with_id(file_id@)),
    {
        match find_last(&self.files, is_file_with_id, &file_id, Ghost(file_with_id(file_id@))) {
            Some(j) => Some(self.files[j].duplicate()),
            None => None,
        }
    }

    /// The quota of `user_id`, created with no limits and nothing used at
    /// `now` if there is none yet.
    pub fn get_or_create_quota(&mut self, user_id: &str, now: i64) -> (q: UserQuota)
        ensures
            last_where(old(self).quotas@, quota_of(user_id@)) is Some ==> {
                &&& Some(q) == last_where(old(self).quotas@, quota_of(user_id@))
                &&& final(self).quotas@ == old(self).quotas@
            },
            last_where(old(self).quotas@, quota_of(user_id@)) is None ==> {
                &&& q.user_id@ == user_id@
                &&& q.used_bytes == 0
                &&& q.daily_upload_bytes == 0
                &&& q.daily_reset_at == now
                &&& q.quota_bytes is None
                &&& q.daily_cap_bytes is None
                &&& final(self).quotas@ == old(self).quotas@.push(q)
            },
            final(self).files@ == old(self).files@,
            final(self).versions@ == old(self).versions@,
    {
        match find_last(&self.quotas, is_quota_of, &user_id, Ghost(quota_of(user_id@))) {
            Some(j) => self.quotas[j].duplicate(),
            None => {
                let q = UserQuota {
                    user_id: user_id.to_owned(),
                    used_bytes: 0,
                    daily_upload_bytes: 0,
                    daily_reset_at: now,
                    quota_bytes: None,
                    daily_cap_bytes: None,
                };
                let r = q.duplicate();
                self.quotas.push(q);
                r
            },
        }
    }

    /// Records an upload of `file_size` bytes against the quota of `user_id`.
    pub fn update_quota_after_upload(&mut self, user_id: &str, file_size: i64, prev_used: i64, prev_daily: i64, new_daily_reset: i64, reset_daily: bool)
        requires
            i64::MIN <= prev_used + file_size <= i64::MAX,
            i64::MIN <= prev_daily + file_size <= i64::MAX,
        ensures
            final(self).quotas@ == old(self).quotas@.map_values(quota_update_fn(
                user_id@,
                (prev_used + file_size) as i64,
                (if reset_daily { file_size as int } else { prev_daily + file_size }) as i64,
                new_daily_reset,
            )),
            final(self).files@ == old(self).files@,
            final(self).versions@ == old(self).versions@,
    {
        let new_daily = if reset_daily { file_size } else { prev_daily + file_size };
        let used = prev_used + file_size;
        self.quotas = rewrite(&self.quotas, apply_quota_update, &(user_id, used, new_daily, new_daily_reset), Ghost(quota_update_fn(user_id@, used, new_daily, new_daily_reset)));
    }

    /// Replaces the size, key and update time of file `file_id` of `user_id`;
    /// returns the file as it now is.
    pub fn update_file_content(&mut self, file_id: &str, user_id: &str, change: UpdateFileContent) -> (r: Result<FileRecord, ApiError>)
        ensures
            final(self).files@ == old(self).files@.map_values(content_fn(file_id@, user_id@, change)),
            final(self).versions@ == old(self).versions@,
            final(self).quotas@ == old(self).quotas@,
            match last_where(final(self).files@, file_with_id(file_id@)) {
                Some(f) => r == Ok::<FileRecord, ApiError>(f),
                None => r == Err::<FileRecord, ApiError>(ApiError::FileNotFound),
            },
    {
        self.files = rewrite(&self.files, apply_content, &(file_id, user_id, &change), Ghost(content_fn(file_id@, user_id@, change)));
        match self.find_file_by_id(file_id) {
            Some(f) => Ok(f),
            None => Err(ApiError::FileNotFound),
        }
    }

    /// Adds a version; returns the stored row.
    pub fn insert_version(&mut self, record: FileVersionRecord) -> (r: FileVersionRecord)
        ensures
            r == record,
            final(self).versions@ == old(self).versions@.push(record),
            final(self).files@ == old(self).files@,
            final(self).quotas@ == old(self).quotas@,
    {
        let r = record.duplicate();
        self.versions.push(record);
        r
    }

    /// The versions of `file_id`, highest number first.
    pub fn list_versions(&self, file_id: &str) -> (r: Vec<FileVersionRecord>)
        ensures
            sorted_by(r@, version_desc()),
            r@.to_multiset() == self.versions@.filter(version_of(file_id@)).to_multiset(),
    {
        select_sorted(&self.versions, is_version_of, &file_id, Ghost(version_of(file_id@)), version_desc_before, &(), Ghost(version_desc()))
    }

    /// The versions of `file_id`, ordered by `field` in direction `dir`.
    pub fn list_versions_ordered(&self, file_id: &str, field: VersionOrderField, dir: OrderDirection) -> (r: Vec<FileVersionRecord>)
        ensures
            sorted_by(r@, version_order(field, dir)),
            r@.to_multiset() == self.versions@.filter(version_of(file_id@)).to_multiset(),
    {
        proof { lemma_version_order(field, dir); }
        select_sorted(&self.versions, is_version_of, &file_id, Ghost(version_of(file_id@)), version_before, &(field, dir), Ghost(version_order(field, dir)))
    }

    /// The version `version_id` of `file_id` of `user_id`.
    pub fn find_version(&self, version_id: &str, file_id: &str, user_id: &str) -> (r: Option<FileVersionRecord>)
        ensures
            r == last_where(self.versions@, version_key_of(version_id@, file_id@, user_id@)),
    {
        match find_last(&self.versions, is_version_key, &(version_id, file_id, user_id), Ghost(version_key_of(version_id@, file_id@, user_id@))) {
            Some(j) => Some(self.versions[j].duplicate()),
            None => None,
        }
    }

    /// How many versions `file_id` has.
    pub fn count_versions(&self, file_id: &str) -> (c: usize)
        ensures
            c == self.versions@.filter(version_of(file_id@)).len(),
    {
        count_where(&self.versions, is_version_of, &file_id, Ghost(version_of(file_id@)))
    }

    /// The highest version number of `file_id` (0 if it has none).
    pub fn max_version_number(&self, file_id: &str) -> (m: i32)
        ensures
            m == max_number(self.versions@.filter(version_of(file_id@))),
    {
        let vs = select(&self.versions, is_version_of, &file_id, Ghost(version_of(file_id@)));
        let n = vs.len();
        let mut m: i32 = 0;
        let mut i: usize = 0;
        while i < n
            invariant
                n == vs@.len(),
                i <= n,
                m == max_number(vs@.take(i as int)),
            decreases n - i,
        {
            assert(vs@.take(i + 1).drop_last() =~= vs@.take(i as int));
            if vs[i].version_number > m {
                m = vs[i].version_number;
            }
            i += 1;
        }
        assert(vs@.take(n as int) =~= vs@);
        m
    }

    /// Sets the label of version `version_id` of `file_id` of `user_id`;
    /// returns the version as it now is.
    pub fn update_version_label(&mut self, version_id: &str, file_id: &str, user_id: &str, label: Option<String>) -> (r: Result<FileVersionRecord, ApiError>)
        ensures
            final(self).versions@ == old(self).versions@.map_values(label_fn(version_id@, file_id@, user_id@, label)),
            final(self).files@ == old(self).files@,
            final(self).quotas@ == old(self).quotas@,
            match last_where(final(self).versions@, version_key_of(version_id@, file_id@, user_id@)) {
                Some(v) => r == Ok::<FileVersionRecord, ApiError>(v),
                None => r == Err::<FileVersionRecord, ApiError>(ApiError::VersionNotFound),
            },
    {
        self.versions = rewrite(&self.versions, apply_label, &(version_id, file_id, user_id, &label), Ghost(label_fn(version_id@, file_id@, user_id@, label)));
        match self.find_version(version_id, file_id, user_id) {
            Some(v) => Ok(v),
            None => Err(ApiError::VersionNotFound),
        }
    }

    /// Deletes version `version_id` of `file_id` of `user_id`; returns the
    /// key of its content, if there was one.
    pub fn delete_version(&mut self, version_id: &str, file_id: &str, user_id: &str) -> (r: Option<String>)
        ensures
            match last_where(old(self).versions@, version_key_of(version_id@, file_id@, user_id@)) {
                Some(v) => r == Some(v.storage_path) && final(self).versions@ == old(self).versions@.filter(version_not_id(version_id@)),
                None => r is None && final(self).versions@ == old(self).versions@,
            },
            final(self).files@ == old(self).files@,
            final(self).quotas@ == old(self).quotas@,
    {
        match self.find_version(version_id, file_id, user_id) {
            Some(v) => {
                self.versions = select(&self.versions, is_version_not_id, &version_id, Ghost(version_not_id(version_id@)));
                Some(v.storage_path)
            },
            None => None,
        }
    }

    /// Deletes the lowest-numbered version of `file_id`; returns the key of
    /// its content, if there was one.
    pub fn delete_oldest_version(&mut self, file_id: &str) -> (r: Option<String>)
        ensures
            old(self).versions@.filter(version_of(file_id@)).len() == 0 ==> r is None && final(self).versions@ == old(self).versions@,
            old(self).versions@.filter(version_of(file_id@)).len() > 0 ==> exists|j: int| {
                &&& 0 <= j < old(self).versions@.len()
                &&& version_of(file_id@)(old(self).versions@[j])
                &&& (forall|k: int| 0 <= k < old(self).versions@.len() && version_of(file_id@)(#[trigger] old(self).versions@[k])
                        ==> old(self).versions@[j].version_number <= old(self).versions@[k].version_number)
                &&& r == Some(old(self).versions@[j].storage_path)
                &&& #[trigger] old(self).versions@.filter(version_not_id(old(self).versions@[j].id@)) == final(self).versions@
            },
            final(self).files@ == old(self).files@,
            final(self).quotas@ == old(self).quotas@,
    {
        let n = self.versions.len();
        let mut best: Option<usize> = None;
        let mut i: usize = 0;
        while i < n
            invariant
                n == self.versions@.len(),
                i <= n,
                self.versions@ == old(self).versions@,
                match best {
                    Some(j) => j < i && version_of(file_id@)(self.versions@[j as int])
                        && forall|k: int| 0 <= k < i && version_of(file_id@)(#[trigger] self.versions@[k])
                            ==> self.versions@[j as int].version_number <= self.versions@[k].version_number,
                    None => forall|k: int| 0 <= k < i ==> !version_of(file_id@)(#[trigger] self.versions@[k]),
                },
            decreases n - i,
        {
            if is_version_of(&file_id, &self.versions[i]) {
                match best {
                    Some(j) => {
                        if self.versions[i].version_number < self.versions[j].version_number {
                            best = Some(i);
                        }
                    },
                    None => {
                        best = Some(i);
                    },
                }
            }
            i += 1;
        }
        match best {
            Some(j) => {
                proof { crate::seqs::lemma_filter_some(self.versions@, version_of(file_id@), j as int); }
                let id = self.versions[j].id.clone();
                let key = self.versions[j].storage_path.clone();
                self.versions = select(&self.versions, is_version_not_id, &id.as_str(), Ghost(version_not_id(id@)));
                Some(key)
            },
            None => {
                proof { crate::seqs::lemma_filter_none(self.versions@, version_of(file_id@)); }
                None
            },
        }
    }
}

/// Whether `j` is the position in `s` of a lowest-numbered version of `fid`.
pub open spec fn is_oldest_version(s: Seq<FileVersionRecord>, fid: Seq<char>, j: int) -> bool {
    &&& 0 <= j < s.len()
    &&& version_of(fid)(s[j])
    &&& forall|k: int| 0 <= k < s.len() && version_of(fid)(#[trigger] s[k]) ==> s[j].version_number <= s[k].version_number
}

/// Whether `after` is `s` brought back within the version limit of `fid`,
/// `key` being where the content of a dropped version lay: within the limit
/// nothing changes; above it a lowest-numbered version of `fid` goes.
pub open spec fn pruned_to_limit(s: Seq<FileVersionRecord>, fid: Seq<char>, after: Seq<FileVersionRecord>, key: Option<String>) -> bool {
    if s.filter(version_of(fid)).len() > MAX_VERSIONS {
        exists|j: int| #[trigger] is_oldest_version(s, fid, j) && key == Some(s[j].storage_path)
            && s.filter(version_not_id(s[j].id@)) == after
    } else {
        key is None && after == s
    }
}

/// Deleting by an id that one of a file's versions has removes at least one
/// of that file's versions.
proof fn lemma_prune_lowers_count(s: Seq<FileVersionRecord>, fid: Seq<char>, j: int)
    requires
        0 <= j < s.len(),
        version_of(fid)(s[j]),
    ensures
        s.filter(version_not_id(s[j].id@)).filter(version_of(fid)).len() < s.filter(version_of(fid)).len(),
{
    let p = version_of(fid);
    let q = version_not_id(s[j].id@);
    crate::seqs::lemma_filter_filter(s, q, p);
    crate::seqs::lemma_filter_split_len(s, p, q);
    crate::seqs::lemma_filter_ext(s, |x: FileVersionRecord| q(x) && p(x), |x: FileVersionRecord| p(x) && q(x));
    crate::seqs::lemma_filter_some(s, |x: FileVersionRecord| p(x) && !q(x), j);
}

/// What uploading a new version of `fid` of `size` bytes at `now` does to
/// the repository `old_repo`, giving `new_repo` and answering `r`.
pub open spec fn version_upload_done(old_repo: StorageRepository, new_repo: StorageRepository, fid: Seq<char>, size: i64, now: i64, r: Result<NewVersion, ApiError>) -> bool {
    &&& (last_where(old_repo.files@, file_with_id(fid)) is None ==>
        r == Err::<NewVersion, ApiError>(ApiError::FileNotFound) && new_repo == old_repo)
    &&& (last_where(old_repo.files@, file_with_id(fid)) is Some ==> {
        let f = last_where(old_repo.files@, file_with_id(fid))->0;
        let before = old_repo.versions@.filter(version_of(fid)).len();
        &&& r is Ok
        &&& (before == 0) == r->Ok_0.first_snapshot is Some
        &&& r->Ok_0.first_snapshot is Some ==> r->Ok_0.first_snapshot->0.version_number == 1
            && r->Ok_0.first_snapshot->0.size_bytes == f.size_bytes
        &&& r->Ok_0.version.file_id@ == fid
        &&& r->Ok_0.version.user_id == f.user_id
        &&& r->Ok_0.version.size_bytes == size
        &&& r->Ok_0.version.version_number == (if before == 0 { 2 } else { max_number(old_repo.versions@.filter(version_of(fid))) + 1 })
        &&& r->Ok_0.version.storage_path@ == path_join(path_join(path_join(f.user_id@, "versions"@), fid), r->Ok_0.version.id@)
        &&& r->Ok_0.version.label is None && r->Ok_0.version.created_at == now
        &&& r->Ok_0.first_snapshot matches Some(s0) ==> s0.file_id@ == fid && s0.user_id == f.user_id
            && s0.label is None && s0.created_at == now
            && s0.storage_path@ == path_join(path_join(path_join(f.user_id@, "versions"@), fid), s0.id@)
        &&& exists|c: UpdateFileContent| {
            &&& c.size_bytes == size
            &&& c.storage_path@ == path_join(f.user_id@, fid)
            &&& c.updated_at == now
            &&& #[trigger] old_repo.files@.map_values(content_fn(fid, f.user_id@, c)) == new_repo.files@
        }
        &&& pruned_to_limit(
            match r->Ok_0.first_snapshot {
                Some(s0) => old_repo.versions@.push(s0).push(r->Ok_0.version),
                None => old_repo.versions@.push(r->Ok_0.version),
            },
            fid, new_repo.versions@, r->Ok_0.pruned_key)
        &&& before <= MAX_VERSIONS ==> new_repo.versions@.filter(version_of(fid)).len() <= MAX_VERSIONS
        &&& new_repo.quotas@ == old_repo.quotas@
    })
}

/// What restoring version `vid` of the file `fid` of `uid` at `now` does to
/// the repository `old_repo`, giving `new_repo` and answering `r`.
pub open spec fn version_restore_done(old_repo: StorageRepository, new_repo: StorageRepository, uid: Seq<char>, fid: Seq<char>, vid: Seq<char>, now: i64, r: Result<RestoredVersion, ApiError>) -> bool {
    &&& (last_where(old_repo.files@, owned_file(fid, uid)) is None ==>
        r == Err::<RestoredVersion, ApiError>(ApiError::FileNotFound) && new_repo == old_repo)
    &&& (last_where(old_repo.files@, owned_file(fid, uid)) is Some
        && last_where(old_repo.versions@, version_key_of(vid, fid, uid)) is None ==>
        r == Err::<RestoredVersion, ApiError>(ApiError::VersionNotFound) && new_repo == old_repo)
    &&& (last_where(old_repo.files@, owned_file(fid, uid)) is Some
        && last_where(old_repo.versions@, version_key_of(vid, fid, uid)) is Some ==> {
        let cur = last_where(old_repo.files@, owned_file(fid, uid))->0;
        let ver = last_where(old_repo.versions@, version_key_of(vid, fid, uid))->0;
        &&& r is Ok
        &&& r->Ok_0.snapshot.version_number == max_number(old_repo.versions@.filter(version_of(fid))) + 1
        &&& r->Ok_0.snapshot.size_bytes == cur.size_bytes
        &&& r->Ok_0.snapshot.file_id@ == fid && r->Ok_0.snapshot.user_id@ == uid
        &&& r->Ok_0.snapshot.label is None && r->Ok_0.snapshot.created_at == now
        &&& r->Ok_0.snapshot.storage_path@ == path_join(path_join(path_join(uid, "versions"@), fid), r->Ok_0.snapshot.id@)
        &&& new_repo.versions@ == old_repo.versions@.push(r->Ok_0.snapshot)
        &&& last_where(new_repo.files@, file_with_id(fid)) == Some(r->Ok_0.file)
        &&& exists|c: UpdateFileContent| {
            &&& c.size_bytes == ver.size_bytes
            &&& c.storage_path@ == path_join(uid, fid)
            &&& c.updated_at == now
            &&& #[trigger] old_repo.files@.map_values(content_fn(fid, uid, c)) == new_repo.files@
        }
    })
}

/// An upload that fits the quota, waiting for its content to be committed.
#[derive(Debug)]
pub struct UploadAdmission {
    pub quota: UserQuota,
    pub reset_daily: bool,
    pub now: i64,
}

/// A committed upload: the new file and its first version.
#[derive(Debug)]
pub struct CommittedUpload {
    pub file: FileRecord,
    pub version: FileVersionRecord,
}

/// A new version of a file: the snapshot of the content it replaces (when the
/// file had no history yet), the new version, and the key of the content of
/// a version pruned to keep the history within bounds.
#[derive(Debug)]
pub struct NewVersion {
    pub first_snapshot: Option<FileVersionRecord>,
    pub version: FileVersionRecord,
    pub pruned_key: Option<String>,
}

/// A restored version: the file as it now is and the snapshot of the content
/// the restore replaced.
#[derive(Debug)]
pub struct RestoredVersion {
    pub file: FileRecord,
    pub snapshot: FileVersionRecord,
}

/// A page of a user's files.
#[derive(Debug)]
pub struct ListFilesResponse {
    pub files: Vec<FileRecord>,
    pub total: usize,
    pub limit: i64,
    pub offset: i64,
}

/// A file's versions, highest number first.
#[derive(Debug)]
pub struct ListVersionsResponse {
    pub versions: Vec<FileVersionRecord>,
    pub total: usize,
}

/// A user's storage use and limits.
#[derive(Debug)]
pub struct QuotaResponse {
    pub used_bytes: i64,
    pub daily_upload_bytes: i64,
    pub quota_bytes: Option<i64>,
    pub daily_cap_bytes: Option<i64>,
}

/// The quota the repository gives `user` at `now`: the stored one, else a
/// fresh one with no limits.
pub open spec fn quota_at(quotas: Seq<UserQuota>, user: Seq<char>, q: UserQuota, now: i64) -> bool {
    match last_where(quotas, quota_of(user)) {
        Some(x) => q == x,
        None => q.user_id@ == user && q.used_bytes == 0 && q.daily_upload_bytes == 0 && q.daily_reset_at == now
            && q.quota_bytes is None && q.daily_cap_bytes is None,
    }
}

/// The quota table after the quota row `q` of `user` was looked up: as it
/// was when the user had a row, else with the fresh row `q` added.
pub open spec fn quotas_after_lookup(quotas: Seq<UserQuota>, user: Seq<char>, q: UserQuota) -> Seq<UserQuota> {
    if last_where(quotas, quota_of(user)) is Some { quotas } else { quotas.push(q) }
}

/// The storage rules over a storage repository and a local store.
pub struct StorageService {
    pub repo: StorageRepository,
    pub store: LocalFileStore,
}

impl StorageService {
    /// A service over `repo` and `store`.
    pub fn new(repo: StorageRepository, store: LocalFileStore) -> (s: Self)
        ensures
            s.repo == repo,
            s.store == store,
    {
        StorageService { repo, store }
    }

    /// Whether `user_id` may upload `size` bytes at `now`: the quota and the
    /// daily cap decide.
    pub fn admit_upload_at(&mut self, user_id: &str, size: i64, now: i64) -> (r: Result<UploadAdmission, ApiError>)
        ensures
            final(self).repo.files@ == old(self).repo.files@,
            final(self).repo.versions@ == old(self).repo.versions@,
            final(self).store == old(self).store,
            exists|q: UserQuota| {
                &&& #[trigger] quota_at(old(self).repo.quotas@, user_id@, q, now)
                &&& final(self).repo.quotas@ == quotas_after_lookup(old(self).repo.quotas@, user_id@, q)
                &&& match upload_verdict(q, size, now) {
                    Ok(reset) => r is Ok && r->Ok_0.quota == q && r->Ok_0.reset_daily == reset && r->Ok_0.now == now,
                    Err(e) => r == Err::<UploadAdmission, ApiError>(e),
                }
            },
    {
        let quota = self.repo.get_or_create_quota(user_id, now);
        assert(quota_at(old(self).repo.quotas@, user_id@, quota, now));
        match check_upload(&quota, size, now) {
            Ok(reset_daily) => Ok(UploadAdmission { quota, reset_daily, now }),
            Err(e) => Err(e),
        }
    }

    /// Whether `user_id` may upload `size` bytes now.
    pub fn admit_upload(&mut self, user_id: &str, size: i64) -> (r: Result<UploadAdmission, ApiError>)
        ensures
            final(self).repo.files@ == old(self).repo.files@,
            final(self).repo.versions@ == old(self).repo.versions@,
            exists|q: UserQuota, now: i64| {
                &&& #[trigger] quota_at(old(self).repo.quotas@, user_id@, q, now)
                &&& final(self).repo.quotas@ == quotas_after_lookup(old(self).repo.quotas@, user_id@, q)
                &&& match upload_verdict(q, size, now) {
                    Ok(reset) => r is Ok && r->Ok_0.quota == q && r->Ok_0.reset_daily == reset && r->Ok_0.now == now,
                    Err(e) => r == Err::<UploadAdmission, ApiError>(e),
                }
            },
    {
        let now = now_utc();
        self.admit_upload_at(user_id, size, now)
    }

    /// Commits an admitted upload of `size` bytes as file `file_id`: records
    /// the file, charges the quota, and records version 1.
    pub fn commit_upload(&mut self, user_id: &str, file_id: &str, file_name: &str, mime_type: &str, size: i64, folder_id: Option<String>, admission: &UploadAdmission) -> (r: CommittedUpload)
        requires
            i64::MIN <= admission.quota.used_bytes + size <= i64::MAX,
            i64::MIN <= admission.quota.daily_upload_bytes + size <= i64::MAX,
        ensures
            r.file.id@ == file_id@,
            r.file.user_id@ == user_id@,
            r.file.name@ == file_name@,
            r.file.size_bytes == size,
            r.file.mime_type@ == mime_type@,
            r.file.storage_path@ == path_join(user_id@, file_id@),
            r.file.folder_id == folder_id,
            !r.file.is_starred,
            r.file.deleted_at is None,
            r.file.created_at == admission.now && r.file.updated_at == admission.now,
            final(self).repo.files@ == old(self).repo.files@.push(r.file),
            final(self).repo.quotas@ == old(self).repo.quotas@.map_values(quota_update_fn(
                user_id@,
                (admission.quota.used_bytes + size) as i64,
                (if admission.reset_daily { size as int } else { admission.quota.daily_upload_bytes + size }) as i64,
                admission.now,
            )),
            r.version.file_id@ == file_id@,
            r.version.user_id@ == user_id@,
            r.version.version_number == 1,
            r.version.size_bytes == size,
            r.version.storage_path@ == path_join(path_join(path_join(user_id@, "versions"@), file_id@), r.version.id@),
            r.version.label is None,
            final(self).repo.versions@ == old(self).repo.versions@.push(r.version),
            final(self).store == old(self).store,
    {
        let record = FileRecord {
            id: file_id.to_owned(),
            user_id: user_id.to_owned(),
            name: file_name.to_owned(),
            size_bytes: size,
            mime_type: mime_type.to_owned(),
            storage_path: self.store.file_key(user_id, file_id),
            created_at: admission.now,
            updated_at: admission.now,
            folder_id,
            is_starred: false,
            deleted_at: None,
        };
        let file = self.repo.insert_file(record);
        self.repo.update_quota_after_upload(user_id, size, admission.quota.used_bytes, admission.quota.daily_upload_bytes, admission.now, admission.reset_daily);
        let vid = new_uuid();
        let key = self.store.version_key(user_id, file_id, vid.as_str());
        let version = self.repo.insert_version(FileVersionRecord {
            id: vid,
            file_id: file_id.to_owned(),
            user_id: user_id.to_owned(),
            version_number: 1,
            size_bytes: size,
            storage_path: key,
            label: None,
            created_at: admission.now,
        });
        CommittedUpload { file, version }
    }

    /// Replaces the content of `file_id` with a new version of `size` bytes at
    /// `now`, snapshotting the current content first if the file has no
    /// history, and dropping the oldest version once there are more than the
    /// limit.
    pub fn upload_new_version_at(&mut self, file_id: &str, size: i64, now: i64) -> (r: Result<NewVersion, ApiError>)
        requires
            max_number(old(self).repo.versions@.filter(version_of(file_id@))) < i32::MAX - 1,
        ensures
            version_upload_done(old(self).repo, final(self).repo, file_id@, size, now, r),
            final(self).store == old(self).store,
    {
        let file = match self.repo.find_file_by_id(file_id) {
            Some(f) => f,
            None => {
                return Err(ApiError::FileNotFound);
            },
        };
        let ghost f0 = file;
        proof { crate::seqs::lemma_filter_all(old(self).repo.files@, file_with_id(file_id@)); }
        let owner = file.user_id.clone();
        let existing = self.repo.count_versions(file_id);
        let first_snapshot = if existing == 0 {
            let vid = new_uuid();
            let key = self.store.version_key(owner.as_str(), file_id, vid.as_str());
            let v = self.repo.insert_version(FileVersionRecord {
                id: vid,
                file_id: file_id.to_owned(),
                user_id: owner.clone(),
                version_number: 1,
                size_bytes: file.size_bytes,
                storage_path: key,
                label: None,
                created_at: now,
            });
            proof {
                old(self).repo.versions@.lemma_filter_push(v, version_of(file_id@));
                reveal_with_fuel(max_number, 2);
                assert(old(self).repo.versions@.filter(version_of(file_id@)) =~= Seq::<FileVersionRecord>::empty());
                assert(self.repo.versions@.filter(version_of(file_id@)) =~= seq![v]);
                assert(seq![v].drop_last() =~= Seq::<FileVersionRecord>::empty());
            }
            Some(v)
        } else {
            None
        };
        let key = self.store.file_key(owner.as_str(), file_id);
        let change = UpdateFileContent { size_bytes: size, storage_path: key, updated_at: now };
        let ghost c = change;
        let _ = self.repo.update_file_content(file_id, owner.as_str(), change);
        assert(old(self).repo.files@.map_values(content_fn(file_id@, f0.user_id@, c)) == self.repo.files@);
        let ghost mid = self.repo.versions@;
        let next = self.repo.max_version_number(file_id) + 1;
        let vid = new_uuid();
        let vkey = self.store.version_key(owner.as_str(), file_id, vid.as_str());
        let version = self.repo.insert_version(FileVersionRecord {
            id: vid,
            file_id: file_id.to_owned(),
            user_id: owner,
            version_number: next,
            size_bytes: size,
            storage_path: vkey,
            label: None,
            created_at: now,
        });
        proof { mid.lemma_filter_push(version, version_of(file_id@)); }
        let ghost after_insert = self.repo.versions@;
        let total = self.repo.count_versions(file_id);
        let pruned_key = if total > MAX_VERSIONS {
            let k = self.repo.delete_oldest_version(file_id);
            proof {
                let j = choose|j: int| {
                    &&& 0 <= j < after_insert.len()
                    &&& version_of(file_id@)(after_insert[j])
                    &&& (forall|k: int| 0 <= k < after_insert.len() && version_of(file_id@)(#[trigger] after_insert[k])
                            ==> after_insert[j].version_number <= after_insert[k].version_number)
                    &&& k == Some(after_insert[j].storage_path)
                    &&& #[trigger] after_insert.filter(version_not_id(after_insert[j].id@)) == self.repo.versions@
                };
                lemma_prune_lowers_count(after_insert, file_id@, j);
                assert(is_oldest_version(after_insert, file_id@, j));
            }
            k
        } else {
            None
        };
        Ok(NewVersion { first_snapshot, version, pruned_key })
    }
}

impl StorageService {
    /// Replaces the content of `file_id` with a new version of `size` bytes,
    /// by the clock.
    pub fn upload_new_version(&mut self, file_id: &str, size: i64) -> (r: Result<NewVersion, ApiError>)
        requires
            max_number(old(self).repo.versions@.filter(version_of(file_id@))) < i32::MAX - 1,
        ensures
            exists|now: i64| version_upload_done(old(self).repo, final(self).repo, file_id@, size, now, r),
            final(self).store == old(self).store,
    {
        let now = now_utc();
        self.upload_new_version_at(file_id, size, now)
    }

    /// A page of the versions of the file `file_id` of `user_id`, ordered as
    /// `query` says (highest number first unless it says otherwise), with how
    /// many versions there are in all.
    pub fn list_versions(&self, user_id: &str, file_id: &str, query: &ListQuery<VersionOrderField>) -> (r: Result<ListVersionsResponse, ApiError>)
        ensures
            last_where(self.repo.files@, owned_file(file_id@, user_id@)) is None ==> r == Err::<ListVersionsResponse, ApiError>(ApiError::FileNotFound),
            last_where(self.repo.files@, owned_file(file_id@, user_id@)) is Some ==> {
                &&& r is Ok
                &&& r->Ok_0.total == self.repo.versions@.filter(version_of(file_id@)).len()
                &&& exists|all: Seq<FileVersionRecord>| {
                    &&& sorted_by(all, version_order(
                        match query.order_by { Some(f) => f, None => VersionOrderField::VersionNumber },
                        match query.direction { Some(d) => d, None => OrderDirection::Desc },
                    ))
                    &&& #[trigger] all.to_multiset() == self.repo.versions@.filter(version_of(file_id@)).to_multiset()
                    &&& r->Ok_0.versions@ == all.subrange(page_start(all.len() as int, query.offset as int), page_end(all.len() as int, query.offset as int, query.limit as int))
                }
            },
    {
        if self.repo.find_file(file_id, user_id).is_none() {
            return Err(ApiError::FileNotFound);
        }
        let field = match query.order_by { Some(f) => f, None => VersionOrderField::VersionNumber };
        let dir = match query.direction { Some(d) => d, None => OrderDirection::Desc };
        let all = self.repo.list_versions_ordered(file_id, field, dir);
        let total = all.len();
        proof {
            all@.to_multiset_ensures();
            self.repo.versions@.filter(version_of(file_id@)).to_multiset_ensures();
        }
        let versions = page(&all, query.offset, query.limit);
        assert(all@.to_multiset() == self.repo.versions@.filter(version_of(file_id@)).to_multiset());
        Ok(ListVersionsResponse { versions, total })
    }

    /// The version `version_id` of the file `file_id` of `user_id`.
    pub fn get_version(&self, user_id: &str, file_id: &str, version_id: &str) -> (r: Result<FileVersionRecord, ApiError>)
        ensures
            last_where(self.repo.files@, owned_file(file_id@, user_id@)) is None ==> r == Err::<FileVersionRecord, ApiError>(ApiError::FileNotFound),
            last_where(self.repo.files@, owned_file(file_id@, user_id@)) is Some ==> match last_where(self.repo.versions@, version_key_of(version_id@, file_id@, user_id@)) {
                Some(v) => r == Ok::<FileVersionRecord, ApiError>(v),
                None => r == Err::<FileVersionRecord, ApiError>(ApiError::VersionNotFound),
            },
    {
        if self.repo.find_file(file_id, user_id).is_none() {
            return Err(ApiError::FileNotFound);
        }
        match self.repo.find_version(version_id, file_id, user_id) {
            Some(v) => Ok(v),
            None => Err(ApiError::VersionNotFound),
        }
    }

    /// Restores version `version_id` of the file `file_id` of `user_id` at
    /// `now`: the current content is kept as a new version, and the file takes
    /// the version's size.
    pub fn restore_version_at(&mut self, user_id: &str, file_id: &str, version_id: &str, now: i64) -> (r: Result<RestoredVersion, ApiError>)
        requires
            max_number(old(self).repo.versions@.filter(version_of(file_id@))) < i32::MAX,
        ensures
            version_restore_done(old(self).repo, final(self).repo, user_id@, file_id@, version_id@, now, r),
            final(self).store == old(self).store,
    {
        let current = match self.repo.find_file(file_id, user_id) {
            Some(f) => f,
            None => {
                return Err(ApiError::FileNotFound);
            },
        };
        let version = match self.repo.find_version(version_id, file_id, user_id) {
            Some(v) => v,
            None => {
                return Err(ApiError::VersionNotFound);
            },
        };
        let next = self.repo.max_version_number(file_id) + 1;
        let vid = new_uuid();
        let vkey = self.store.version_key(user_id, file_id, vid.as_str());
        let snapshot = self.repo.insert_version(FileVersionRecord {
            id: vid,
            file_id: file_id.to_owned(),
            user_id: user_id.to_owned(),
            version_number: next,
            size_bytes: current.size_bytes,
            storage_path: vkey,
            label: None,
            created_at: now,
        });
        let change = UpdateFileContent { size_bytes: version.size_bytes, storage_path: self.store.file_key(user_id, file_id), updated_at: now };
        let ghost c = change;
        let updated = self.repo.update_file_content(file_id, user_id, change);
        assert(old(self).repo.files@.map_values(content_fn(file_id@, user_id@, c)) == self.repo.files@);
        match updated {
            Ok(file) => Ok(RestoredVersion { file, snapshot }),
            Err(_) => {
                proof {
                    crate::seqs::lemma_filter_all(old(self).repo.files@, owned_file(file_id@, user_id@));
                    let s0 = old(self).repo.files@;
                    let g = content_fn(file_id@, user_id@, c);
                    let m = s0.filter(owned_file(file_id@, user_id@));
                    s0.lemma_filter_pred(owned_file(file_id@, user_id@), m.len() - 1);
                    assert(m.contains(m.last())) by {
                        assert(m[m.len() - 1] == m.last());
                    }
                    s0.lemma_filter_contains_rev(owned_file(file_id@, user_id@), m.last());
                    let j = choose|j: int| 0 <= j < s0.len() && s0[j] == m.last();
                    assert(file_with_id(file_id@)(s0.map_values(g)[j]));
                    crate::seqs::lemma_filter_some(s0.map_values(g), file_with_id(file_id@), j);
                }
                Err(ApiError::FileNotFound)
            },
        }
    }

    /// Restores version `version_id` of the file `file_id` of `user_id`, by
    /// the clock.
    pub fn restore_version(&mut self, user_id: &str, file_id: &str, version_id: &str) -> (r: Result<RestoredVersion, ApiError>)
        requires
            max_number(old(self).repo.versions@.filter(version_of(file_id@))) < i32::MAX,
        ensures
            exists|now: i64| version_restore_done(old(self).repo, final(self).repo, user_id@, file_id@, version_id@, now, r),
            final(self).store == old(self).store,
    {
        let now = now_utc();
        self.restore_version_at(user_id, file_id, version_id, now)
    }

    /// Sets the label of version `version_id` of the file `file_id` of
    /// `user_id`.
    pub fn update_version_label(&mut self, user_id: &str, file_id: &str, version_id: &str, label: Option<String>) -> (r: Result<FileVersionRecord, ApiError>)
        ensures
            last_where(old(self).repo.files@, owned_file(file_id@, user_id@)) is None ==>
                r == Err::<FileVersionRecord, ApiError>(ApiError::FileNotFound) && final(self).repo == old(self).repo,
            last_where(old(self).repo.files@, owned_file(file_id@, user_id@)) is Some
                && last_where(old(self).repo.versions@, version_key_of(version_id@, file_id@, user_id@)) is None ==>
                r == Err::<FileVersionRecord, ApiError>(ApiError::VersionNotFound) && final(self).repo == old(self).repo,
            last_where(old(self).repo.files@, owned_file(file_id@, user_id@)) is Some
                && last_where(old(self).repo.versions@, version_key_of(version_id@, file_id@, user_id@)) is Some ==> {
                &&& final(self).repo.versions@ == old(self).repo.versions@.map_values(label_fn(version_id@, file_id@, user_id@, label))
                &&& r == match last_where(final(self).repo.versions@, version_key_of(version_id@, file_id@, user_id@)) {
                    Some(v) => Ok::<FileVersionRecord, ApiError>(v),
                    None => Err::<FileVersionRecord, ApiError>(ApiError::VersionNotFound),
                }
                &&& final(self).repo.files@ == old(self).repo.files@
            },
    {
        if self.repo.find_file(file_id, user_id).is_none() {
            return Err(ApiError::FileNotFound);
        }
        if self.repo.find_version(version_id, file_id, user_id).is_none() {
            return Err(ApiError::VersionNotFound);
        }
        self.repo.update_version_label(version_id, file_id, user_id, label)
    }

    /// Deletes version `version_id` of the file `file_id` of `user_id`;
    /// returns the key of its content, to be removed.
    pub fn delete_version(&mut self, user_id: &str, file_id: &str, version_id: &str) -> (r: Result<String, ApiError>)
        ensures
            last_where(old(self).repo.files@, owned_file(file_id@, user_id@)) is None ==>
                r == Err::<String, ApiError>(ApiError::FileNotFound) && final(self).repo == old(self).repo,
            last_where(old(self).repo.files@, owned_file(file_id@, user_id@)) is Some ==> match last_where(old(self).repo.versions@, version_key_of(version_id@, file_id@, user_id@)) {
                Some(v) => r == Ok::<String, ApiError>(v.storage_path) && final(self).repo.versions@ == old(self).repo.versions@.filter(version_not_id(version_id@)),
                None => r == Err::<String, ApiError>(ApiError::VersionNotFound) && final(self).repo.versions@ == old(self).repo.versions@,
            },
            final(self).repo.files@ == old(self).repo.files@,
    {
        if self.repo.find_file(file_id, user_id).is_none() {
            return Err(ApiError::FileNotFound);
        }
        match self.repo.delete_version(version_id, file_id, user_id) {
            Some(k) => Ok(k),
            None => Err(ApiError::VersionNotFound),
        }
    }

    /// A page of the live files of `user_id`.
    pub fn list_files(&self, user_id: &str, query: &ListQuery<FileOrderField>) -> (r: ListFilesResponse)
        ensures
            r.total == r.files@.len(),
            r.limit == query.limit,
            r.offset == query.offset,
            exists|all: Seq<FileRecord>| {
                &&& sorted_by(all, file_order(
                    match query.order_by { Some(f) => f, None => FileOrderField::CreatedAt },
                    match query.direction { Some(d) => d, None => OrderDirection::Desc },
                ))
                &&& #[trigger] all.to_multiset() == self.repo.files@.filter(live_file_of_user(user_id@)).to_multiset()
                &&& r.files@ == all.subrange(page_start(all.len() as int, query.offset as int), page_end(all.len() as int, query.offset as int, query.limit as int))
            },
    {
        let files = self.repo.list_files_by_user(user_id, query);
        let total = files.len();
        ListFilesResponse { files, total, limit: query.limit, offset: query.offset }
    }

    /// The file `file_id` of `user_id`.
    pub fn get_file_metadata(&self, user_id: &str, file_id: &str) -> (r: Result<FileRecord, ApiError>)
        ensures
            match last_where(self.repo.files@, owned_file(file_id@, user_id@)) {
                Some(f) => r == Ok::<FileRecord, ApiError>(f),
                None => r == Err::<FileRecord, ApiError>(ApiError::FileNotFound),
            },
    {
        match self.repo.find_file(file_id, user_id) {
            Some(f) => Ok(f),
            None => Err(ApiError::FileNotFound),
        }
    }

    /// Where the content of the file `file_id` of `user_id` lives, with its
    /// type and name.
    pub fn resolve_file_path(&self, user_id: &str, file_id: &str) -> (r: Result<(String, String, String), ApiError>)
        ensures
            match last_where(self.repo.files@, owned_file(file_id@, user_id@)) {
                Some(f) => r is Ok && r->Ok_0.0@ == path_join(self.store.base_path@, f.storage_path@) && r->Ok_0.1 == f.mime_type && r->Ok_0.2 == f.name,
                None => r == Err::<(String, String, String), ApiError>(ApiError::FileNotFound),
            },
    {
        match self.repo.find_file(file_id, user_id) {
            Some(f) => Ok((self.store.resolve(f.storage_path.as_str()), f.mime_type, f.name)),
            None => Err(ApiError::FileNotFound),
        }
    }

    /// Where the content of the file `file_id` lives, whoever owns it, with
    /// its type and name.
    pub fn resolve_file_path_by_id(&self, file_id: &str) -> (r: Result<(String, String, String), ApiError>)
        ensures
            match last_where(self.repo.files@, file_with_id(file_id@)) {
                Some(f) => r is Ok && r->Ok_0.0@ == path_join(self.store.base_path@, f.storage_path@) && r->Ok_0.1 == f.mime_type && r->Ok_0.2 == f.name,
                None => r == Err::<(String, String, String), ApiError>(ApiError::FileNotFound),
            },
    {
        match self.repo.find_file_by_id(file_id) {
            Some(f) => Ok((self.store.resolve(f.storage_path.as_str()), f.mime_type, f.name)),
            None => Err(ApiError::FileNotFound),
        }
    }

    /// The storage use and limits of `user_id` (created at `now` if new).
    pub fn get_quota_at(&mut self, user_id: &str, now: i64) -> (r: QuotaResponse)
        ensures
            exists|q: UserQuota| {
                &&& #[trigger] quota_at(old(self).repo.quotas@, user_id@, q, now)
                &&& final(self).repo.quotas@ == quotas_after_lookup(old(self).repo.quotas@, user_id@, q)
                &&& r.used_bytes == q.used_bytes
                &&& r.daily_upload_bytes == q.daily_upload_bytes
                &&& r.quota_bytes == q.quota_bytes
                &&& r.daily_cap_bytes == q.daily_cap_bytes
            },
            final(self).repo.files@ == old(self).repo.files@,
            final(self).repo.versions@ == old(self).repo.versions@,
    {
        let q = self.repo.get_or_create_quota(user_id, now);
        assert(quota_at(old(self).repo.quotas@, user_id@, q, now));
        QuotaResponse { used_bytes: q.used_bytes, daily_upload_bytes: q.daily_upload_bytes, quota_bytes: q.quota_bytes, daily_cap_bytes: q.daily_cap_bytes }
    }

    /// The storage use and limits of `user_id`.
    pub fn get_quota(&mut self, user_id: &str) -> (r: QuotaResponse)
        ensures
            exists|q: UserQuota, now: i64| {
                &&& #[trigger] quota_at(old(self).repo.quotas@, user_id@, q, now)
                &&& final(self).repo.quotas@ == quotas_after_lookup(old(self).repo.quotas@, user_id@, q)
                &&& r.used_bytes == q.used_bytes
                &&& r.daily_upload_bytes == q.daily_upload_bytes
                &&& r.quota_bytes == q.quota_bytes
                &&& r.daily_cap_bytes == q.daily_cap_bytes
            },
    {
        let now = now_utc();
        self.get_quota_at(user_id, now)
    }

    /// Records an empty file `file_id` (a document created in the editor).
    pub fn save_file(&mut self, user_id: &str, file_id: &str, name: &str, mime_type: &str, folder_id: Option<String>) -> (r: FileRecord)
        ensures
            r.id@ == file_id@ && r.user_id@ == user_id@ && r.name@ == name@ && r.mime_type@ == mime_type@,
            r.size_bytes == 0 && r.storage_path@.len() == 0 && r.folder_id == folder_id,
            !r.is_starred && r.deleted_at is None,
            final(self).repo.files@ == old(self).repo.files@.push(r),
            final(self).repo.versions@ == old(self).repo.versions@,
            final(self).repo.quotas@ == old(self).repo.quotas@,
    {
        let now = now_utc();
        self.repo.insert_file(FileRecord {
            id: file_id.to_owned(),
            user_id: user_id.to_owned(),
            name: name.to_owned(),
            size_bytes: 0,
            mime_type: mime_type.to_owned(),
            storage_path: String::new(),
            created_at: now,
            updated_at: now,
            folder_id,
            is_starred: false,
            deleted_at: None,
        })
    }

    /// The file `file_id`, whoever owns it.
    pub fn find_file_any_user(&self, file_id: &str) -> (r: Option<FileRecord>)
        ensures
            r == last_where(self.repo.files@, file_with_id(file_id@)),
    {
        self.repo.find_file_by_id(file_id)
    }
}

/// Law: new content replaces the size, place and update time of exactly the
/// user's file, keeping its name, folder and trash state; a quota update
/// records the new usage, daily total and reset time for the user, keeping
/// the limits; a label lands on exactly that version. Other rows are
/// untouched.
pub proof fn law_storage_rows(f: FileRecord, q: UserQuota, v: FileVersionRecord, id: Seq<char>, vid: Seq<char>, user: Seq<char>, c: UpdateFileContent, used: i64, daily: i64, reset_at: i64, label: Option<String>)
    ensures
        f.id@ == id && f.user_id@ == user ==> {
            let g = content_fn(id, user, c)(f);
            g.size_bytes == c.size_bytes && g.storage_path == c.storage_path && g.updated_at == c.updated_at
                && g.id == f.id && g.name == f.name && g.folder_id == f.folder_id && g.deleted_at == f.deleted_at
                && g.mime_type == f.mime_type && g.user_id == f.user_id
        },
        !(f.id@ == id && f.user_id@ == user) ==> content_fn(id, user, c)(f) == f,
        q.user_id@ == user ==> {
            let r = quota_update_fn(user, used, daily, reset_at)(q);
            r.used_bytes == used && r.daily_upload_bytes == daily && r.daily_reset_at == reset_at
                && r.quota_bytes == q.quota_bytes && r.daily_cap_bytes == q.daily_cap_bytes && r.user_id == q.user_id
        },
        q.user_id@ != user ==> quota_update_fn(user, used, daily, reset_at)(q) == q,
        v.id@ == vid && v.file_id@ == id && v.user_id@ == user ==> {
            let w = label_fn(vid, id, user, label)(v);
            w.label == label && w.id == v.id && w.version_number == v.version_number && w.storage_path == v.storage_path
                && w.size_bytes == v.size_bytes
        },
        !(v.id@ == vid && v.file_id@ == id && v.user_id@ == user) ==> label_fn(vid, id, user, label)(v) == v,
{
}

/// No version of `s` has a number above `max_number(s)`.
proof fn lemma_max_number_bounds(s: Seq<FileVersionRecord>)
    ensures
        forall|i: int| 0 <= i < s.len() ==> (#[trigger] s[i]).version_number <= max_number(s),
    decreases s.len(),
{
    if s.len() > 0 {
        lemma_max_number_bounds(s.drop_last());
        assert forall|i: int| 0 <= i < s.len() implies (#[trigger] s[i]).version_number <= max_number(s) by {
            if i < s.len() - 1 {
                assert(s.drop_last()[i] == s[i]);
            }
        }
    }
}

/// Law: each new version of a file, uploaded or made by a restore, gets a
/// number above every version of that file stored before; a file's first
/// upload over its original content numbers the original 1 and the upload 2.
pub proof fn law_version_numbers_rise(
    old_repo: StorageRepository,
    new_repo: StorageRepository,
    fid: Seq<char>,
    uid: Seq<char>,
    vid: Seq<char>,
    size: i64,
    now: i64,
    up: Result<NewVersion, ApiError>,
    rest: Result<RestoredVersion, ApiError>,
    new_repo2: StorageRepository,
)
    requires
        version_upload_done(old_repo, new_repo, fid, size, now, up),
        version_restore_done(old_repo, new_repo2, uid, fid, vid, now, rest),
    ensures
        up matches Ok(nv) ==> forall|i: int| 0 <= i < old_repo.versions@.len() && (#[trigger] old_repo.versions@[i]).file_id@ == fid ==>
            old_repo.versions@[i].version_number < nv.version.version_number,
        up matches Ok(nv) ==> (nv.first_snapshot matches Some(s0) ==> s0.version_number == 1 && nv.version.version_number == 2),
        rest matches Ok(rv) ==> forall|i: int| 0 <= i < old_repo.versions@.len() && (#[trigger] old_repo.versions@[i]).file_id@ == fid ==>
            old_repo.versions@[i].version_number < rv.snapshot.version_number,
{
    broadcast use vstd::seq_lib::group_filter_ensures;
    let vs = old_repo.versions@.filter(version_of(fid));
    lemma_max_number_bounds(vs);
    assert forall|i: int| 0 <= i < old_repo.versions@.len() && (#[trigger] old_repo.versions@[i]).file_id@ == fid implies
        old_repo.versions@[i].version_number <= max_number(vs) && vs.len() > 0 by {
        let x = old_repo.versions@[i];
        assert(old_repo.versions@.contains(x));
        assert(vs.contains(x));
        let k = choose|k: int| 0 <= k < vs.len() && vs[k] == x;
        assert(vs[k].version_number <= max_number(vs));
    }
}

} // verus!
