//! Folders, the placement of files in them, shortcuts, and the trash with its
//! retention period.
use vstd::prelude::*;
use crate::error::ApiError;
use crate::rows::{Duplicate, find_last, last_where, select, select_sorted, count_where, rewrite, lemma_last_where_map};
use vstd::relations::{sorted_by, transitive, strongly_connected};
use crate::storage::{FileRecord, SECS_PER_DAY};
use crate::runtime::{new_uuid, now_utc};
use crate::text::{trim, trimmed, str_eq, clone_opt, opt_eq, opt_chars, opt_str_chars, to_owned_opt, text_le, lemma_text_le_transitive, lemma_text_le_total, str_le, contains_id, id_list};

verus! {

/// One row of the folders table. Times are seconds since the Unix epoch.
#[derive(Debug)]
pub struct FolderRecord {
    pub id: String,
    pub user_id: String,
    pub parent_id: Option<String>,
    pub name: String,
    pub is_starred: bool,
    pub color: Option<String>,
    pub deleted_at: Option<i64>,
    pub created_at: i64,
    pub updated_at: i64,
}

impl Duplicate for FolderRecord {
    fn duplicate(&self) -> (r: Self) {
        FolderRecord {
            id: self.id.clone(),
            user_id: self.user_id.clone(),
            parent_id: clone_opt(&self.parent_id),
            name: self.name.clone(),
            is_starred: self.is_starred,
            color: clone_opt(&self.color),
            deleted_at: self.deleted_at,
            created_at: self.created_at,
            updated_at: self.updated_at,
        }
    }
}

/// One row of the shortcuts table.
#[derive(Debug)]
pub struct ShortcutRecord {
    pub id: String,
    pub user_id: String,
    pub target_file_id: String,
    pub folder_id: Option<String>,
    pub created_at: i64,
}

impl Duplicate for ShortcutRecord {
    fn duplicate(&self) -> (r: Self) {
        ShortcutRecord {
            id: self.id.clone(),
            user_id: self.user_id.clone(),
            target_file_id: self.target_file_id.clone(),
            folder_id: clone_opt(&self.folder_id),
            created_at: self.created_at,
        }
    }
}

/// Selects the folder `id` of `user` that is not in the trash.
pub open spec fn live_folder(id: Seq<char>, user: Seq<char>) -> spec_fn(FolderRecord) -> bool {
    |f: FolderRecord| f.id@ == id && f.user_id@ == user && f.deleted_at is None
}

/// Selects the folders of `user` directly under `parent` (`None`: the root)
/// that are not in the trash.
pub open spec fn folder_in(user: Seq<char>, parent: Option<Seq<char>>) -> spec_fn(FolderRecord) -> bool {
    |f: FolderRecord| f.user_id@ == user && opt_chars(f.parent_id) == parent && f.deleted_at is None
}

/// Selects the folder `id` of `user` that is in the trash.
pub open spec fn trashed_folder(id: Seq<char>, user: Seq<char>) -> spec_fn(FolderRecord) -> bool {
    |f: FolderRecord| f.id@ == id && f.user_id@ == user && f.deleted_at is Some
}

/// Selects every folder but `id` of `user`.
pub open spec fn not_folder(id: Seq<char>, user: Seq<char>) -> spec_fn(FolderRecord) -> bool {
    |f: FolderRecord| !(f.id@ == id && f.user_id@ == user)
}

/// Selects the folders of `user` in the trash.
pub open spec fn folder_in_trash(user: Seq<char>) -> spec_fn(FolderRecord) -> bool {
    |f: FolderRecord| f.user_id@ == user && f.deleted_at is Some
}

/// Selects the folders of `user` trashed at or before `cutoff`.
pub open spec fn folder_expired(user: Seq<char>, cutoff: i64) -> spec_fn(FolderRecord) -> bool {
    |f: FolderRecord| f.user_id@ == user && f.deleted_at is Some && f.deleted_at->0 <= cutoff
}

/// Selects every folder that `p` does not select.
pub open spec fn folder_not(p: spec_fn(FolderRecord) -> bool) -> spec_fn(FolderRecord) -> bool {
    |f: FolderRecord| !p(f)
}

/// Selects the live folders of `user` whose ids are listed.
pub open spec fn live_folder_listed(ids: Seq<Seq<char>>, user: Seq<char>) -> spec_fn(FolderRecord) -> bool {
    |f: FolderRecord| ids.contains(f.id@) && f.user_id@ == user && f.deleted_at is None
}

/// Selects the live folders, of any user, whose ids are listed.
pub open spec fn live_folder_listed_any(ids: Seq<Seq<char>>) -> spec_fn(FolderRecord) -> bool {
    |f: FolderRecord| ids.contains(f.id@) && f.deleted_at is None
}

/// Orders folders by name.
pub open spec fn folder_name_le() -> spec_fn(FolderRecord, FolderRecord) -> bool {
    |a: FolderRecord, b: FolderRecord| text_le(a.name@, b.name@)
}

/// The time an item went to the trash, for ordering (the epoch if it is not
/// in the trash).
pub open spec fn trash_time(t: Option<i64>) -> i64 {
    match t {
        Some(x) => x,
        None => 0,
    }
}

/// Orders folders by trash time, latest first.
pub open spec fn folder_trash_le() -> spec_fn(FolderRecord, FolderRecord) -> bool {
    |a: FolderRecord, b: FolderRecord| trash_time(a.deleted_at) >= trash_time(b.deleted_at)
}

/// A change to a folder's settings; absent fields stay as they are.
pub struct UpdateFolderRecord {
    pub name: Option<String>,
    pub color: Option<Option<String>>,
    pub is_starred: Option<bool>,
    pub parent_id: Option<Option<String>>,
    pub updated_at: i64,
}

/// The folder `f` after the change `c`.
pub open spec fn folder_changed(f: FolderRecord, c: UpdateFolderRecord) -> FolderRecord {
    FolderRecord {
        name: match c.name { Some(n) => n, None => f.name },
        color: match c.color { Some(x) => x, None => f.color },
        is_starred: match c.is_starred { Some(x) => x, None => f.is_starred },
        parent_id: match c.parent_id { Some(x) => x, None => f.parent_id },
        updated_at: c.updated_at,
        ..f
    }
}

/// Applies `c` to the live folder `id` of `user`.
pub open spec fn update_folder_fn(id: Seq<char>, user: Seq<char>, c: UpdateFolderRecord) -> spec_fn(FolderRecord) -> FolderRecord {
    |f: FolderRecord| if live_folder(id, user)(f) { folder_changed(f, c) } else { f }
}

/// Moves the live folder `id` of `user` to the trash at `now`.
pub open spec fn trash_folder_fn(id: Seq<char>, user: Seq<char>, now: i64) -> spec_fn(FolderRecord) -> FolderRecord {
    |f: FolderRecord| if live_folder(id, user)(f) { FolderRecord { deleted_at: Some(now), updated_at: now, ..f } } else { f }
}

/// Takes the folder `id` of `user` out of the trash at `now`.
pub open spec fn restore_folder_fn(id: Seq<char>, user: Seq<char>, now: i64) -> spec_fn(FolderRecord) -> FolderRecord {
    |f: FolderRecord| if trashed_folder(id, user)(f) { FolderRecord { deleted_at: None, updated_at: now, ..f } } else { f }
}

/// Moves the listed live folders of `user` to the trash at `now`.
pub open spec fn bulk_trash_folder_fn(ids: Seq<Seq<char>>, user: Seq<char>, now: i64) -> spec_fn(FolderRecord) -> FolderRecord {
    |f: FolderRecord| if live_folder_listed(ids, user)(f) { FolderRecord { deleted_at: Some(now), updated_at: now, ..f } } else { f }
}

/// Moves the listed live folders of `user` under `target` at `now`.
pub open spec fn bulk_move_folder_fn(ids: Seq<Seq<char>>, user: Seq<char>, target: Option<String>, now: i64) -> spec_fn(FolderRecord) -> FolderRecord {
    |f: FolderRecord| if live_folder_listed(ids, user)(f) { FolderRecord { parent_id: target, updated_at: now, ..f } } else { f }
}

/// Whether `f` is the folder `k.0` of user `k.1` and not in the trash.
pub fn is_live_folder(k: &(&str, &str), f: &FolderRecord) -> (b: bool)
    ensures
        b == live_folder(k.0@, k.1@)(*f),
{
    str_eq(f.id.as_str(), k.0) && str_eq(f.user_id.as_str(), k.1) && f.deleted_at.is_none()
}

/// Whether `f` is a live folder of user `k.0` directly under `k.1`.
pub fn is_folder_in(k: &(&str, Option<&str>), f: &FolderRecord) -> (b: bool)
    ensures
        b == folder_in(k.0@, opt_str_chars(k.1))(*f),
{
    str_eq(f.user_id.as_str(), k.0) && opt_eq(&f.parent_id, k.1) && f.deleted_at.is_none()
}

/// Whether `f` is the trashed folder `k.0` of user `k.1`.
pub fn is_trashed_folder(k: &(&str, &str), f: &FolderRecord) -> (b: bool)
    ensures
        b == trashed_folder(k.0@, k.1@)(*f),
{
    str_eq(f.id.as_str(), k.0) && str_eq(f.user_id.as_str(), k.1) && f.deleted_at.is_some()
}

/// Whether `f` is not the folder `k.0` of user `k.1`.
pub fn is_not_folder(k: &(&str, &str), f: &FolderRecord) -> (b: bool)
    ensures
        b == not_folder(k.0@, k.1@)(*f),
{
    !(str_eq(f.id.as_str(), k.0) && str_eq(f.user_id.as_str(), k.1))
}

/// Whether `f` is a trashed folder of user `k`.
pub fn is_folder_in_trash(k: &&str, f: &FolderRecord) -> (b: bool)
    ensures
        b == folder_in_trash(k@)(*f),
{
    str_eq(f.user_id.as_str(), *k) && f.deleted_at.is_some()
}

/// Whether `f` is a folder of user `k.0` trashed at or before `k.1`.
pub fn is_folder_expired(k: &(&str, i64), f: &FolderRecord) -> (b: bool)
    ensures
        b == folder_expired(k.0@, k.1)(*f),
{
    str_eq(f.user_id.as_str(), k.0) && match f.deleted_at {
        Some(t) => t <= k.1,
        None => false,
    }
}

/// Whether `f` is not a folder of user `k.0` trashed at or before `k.1`.
pub fn is_folder_unexpired(k: &(&str, i64), f: &FolderRecord) -> (b: bool)
    ensures
        b == folder_not(folder_expired(k.0@, k.1))(*f),
{
    !is_folder_expired(k, f)
}

/// Whether `f` is not a trashed folder of user `k`.
pub fn is_folder_not_in_trash(k: &&str, f: &FolderRecord) -> (b: bool)
    ensures
        b == folder_not(folder_in_trash(k@))(*f),
{
    !is_folder_in_trash(k, f)
}

/// Whether `f` is a live folder of user `k.1` listed in `k.0`.
pub fn is_live_folder_listed(k: &(&Vec<String>, &str), f: &FolderRecord) -> (b: bool)
    ensures
        b == live_folder_listed(id_list(k.0@), k.1@)(*f),
{
    str_eq(f.user_id.as_str(), k.1) && f.deleted_at.is_none() && contains_id(k.0, f.id.as_str())
}

/// Whether `f` is a live folder listed in `k`.
pub fn is_live_folder_listed_any(k: &&Vec<String>, f: &FolderRecord) -> (b: bool)
    ensures
        b == live_folder_listed_any(id_list(k@))(*f),
{
    f.deleted_at.is_none() && contains_id(*k, f.id.as_str())
}

/// Whether `a` comes no later than `b` by name.
pub fn folder_name_before(_k: &(), a: &FolderRecord, b: &FolderRecord) -> (r: bool)
    ensures
        r == folder_name_le()(*a, *b),
{
    str_le(a.name.as_str(), b.name.as_str())
}

/// Whether `a` went to the trash no earlier than `b`.
pub fn folder_trash_before(_k: &(), a: &FolderRecord, b: &FolderRecord) -> (r: bool)
    ensures
        r == folder_trash_le()(*a, *b),
{
    let x = match a.deleted_at { Some(t) => t, None => 0 };
    let y = match b.deleted_at { Some(t) => t, None => 0 };
    x >= y
}

/// The live folder `k.0` of user `k.1` after the change `k.2`.
pub fn apply_folder_update(k: &(&str, &str, &UpdateFolderRecord), f: &FolderRecord) -> (r: FolderRecord)
    ensures
        r == update_folder_fn(k.0@, k.1@, *k.2)(*f),
{
    let mut g = f.duplicate();
    if is_live_folder(&(k.0, k.1), f) {
        let c = k.2;
        match &c.name {
            Some(n) => { g.name = n.clone(); },
            None => {},
        }
        match &c.color {
            Some(x) => { g.color = clone_opt(x); },
            None => {},
        }
        match c.is_starred {
            Some(x) => { g.is_starred = x; },
            None => {},
        }
        match &c.parent_id {
            Some(x) => { g.parent_id = clone_opt(x); },
            None => {},
        }
        g.updated_at = c.updated_at;
    }
    g
}

/// The folder after trashing the live folder `k.0` of user `k.1` at `k.2`.
pub fn apply_trash_folder(k: &(&str, &str, i64), f: &FolderRecord) -> (r: FolderRecord)
    ensures
        r == trash_folder_fn(k.0@, k.1@, k.2)(*f),
{
    let mut g = f.duplicate();
    if is_live_folder(&(k.0, k.1), f) {
        g.deleted_at = Some(k.2);
        g.updated_at = k.2;
    }
    g
}

/// The folder after restoring the trashed folder `k.0` of user `k.1` at `k.2`.
pub fn apply_restore_folder(k: &(&str, &str, i64), f: &FolderRecord) -> (r: FolderRecord)
    ensures
        r == restore_folder_fn(k.0@, k.1@, k.2)(*f),
{
    let mut g = f.duplicate();
    if is_trashed_folder(&(k.0, k.1), f) {
        g.deleted_at = None;
        g.updated_at = k.2;
    }
    g
}

/// The folder after trashing the listed live folders of user `k.1` at `k.2`.
pub fn apply_bulk_trash_folder(k: &(&Vec<String>, &str, i64), f: &FolderRecord) -> (r: FolderRecord)
    ensures
        r == bulk_trash_folder_fn(id_list(k.0@), k.1@, k.2)(*f),
{
    let mut g = f.duplicate();
    if is_live_folder_listed(&(k.0, k.1), f) {
        g.deleted_at = Some(k.2);
        g.updated_at = k.2;
    }
    g
}

/// The folder after moving the listed live folders of user `k.1` under `k.2`
/// at `k.3`.
pub fn apply_bulk_move_folder(k: &(&Vec<String>, &str, &Option<String>, i64), f: &FolderRecord) -> (r: FolderRecord)
    ensures
        r == bulk_move_folder_fn(id_list(k.0@), k.1@, *k.2, k.3)(*f),
{
    let mut g = f.duplicate();
    if is_live_folder_listed(&(k.0, k.1), f) {
        g.parent_id = clone_opt(k.2);
        g.updated_at = k.3;
    }
    g
}

/// The folders, files and shortcuts tables.
pub struct FilesystemRepository {
    pub folders: Vec<FolderRecord>,
    pub files: Vec<FileRecord>,
    pub shortcuts: Vec<ShortcutRecord>,
}

/// Name order on folders is a total preorder.
pub proof fn lemma_folder_name_order()
    ensures
        transitive(folder_name_le()),
        strongly_connected(folder_name_le()),
{
    assert forall|x: FolderRecord, y: FolderRecord, z: FolderRecord|
        #[trigger] folder_name_le()(x, y) && #[trigger] folder_name_le()(y, z) implies folder_name_le()(x, z) by {
        lemma_text_le_transitive(x.name@, y.name@, z.name@);
    }
    assert forall|x: FolderRecord, y: FolderRecord|
        #[trigger] folder_name_le()(x, y) || #[trigger] folder_name_le()(y, x) by {
        lemma_text_le_total(x.name@, y.name@);
    }
}

/// Trash-time order on folders is a total preorder.
pub proof fn lemma_folder_trash_order()
    ensures
        transitive(folder_trash_le()),
        strongly_connected(folder_trash_le()),
{
}

impl FilesystemRepository {
    /// Adds a folder; returns the stored row.
    pub fn create_folder(&mut self, record: FolderRecord) -> (r: FolderRecord)
        ensures
            r == record,
            final(self).folders@ == old(self).folders@.push(record),
            final(self).files@ == old(self).files@,
            final(self).shortcuts@ == old(self).shortcuts@,
    {
        let r = record.duplicate();
        self.folders.push(record);
        r
    }

    /// The folder `folder_id` of `user_id`, unless it is in the trash.
    pub fn find_folder(&self, folder_id: &str, user_id: &str) -> (r: Option<FolderRecord>)
        ensures
            r == last_where(self.folders@, live_folder(folder_id@, user_id@)),
    {
        let found = find_last(&self.folders, is_live_folder, &(folder_id, user_id), Ghost(live_folder(folder_id@, user_id@)));
        match found {
            Some(j) => Some(self.folders[j].duplicate()),
            None => None,
        }
    }

    /// Applies `changeset` to the live folder `folder_id` of `user_id` and
    /// returns it as it now is.
    pub fn update_folder(&mut self, folder_id: &str, user_id: &str, changeset: UpdateFolderRecord) -> (r: Result<FolderRecord, ApiError>)
        ensures
            final(self).folders@ == old(self).folders@.map_values(update_folder_fn(folder_id@, user_id@, changeset)),
            final(self).files@ == old(self).files@,
            final(self).shortcuts@ == old(self).shortcuts@,
            match last_where(final(self).folders@, live_folder(folder_id@, user_id@)) {
                Some(f) => r == Ok::<FolderRecord, ApiError>(f),
                None => r == Err::<FolderRecord, ApiError>(ApiError::FolderNotFound),
            },
    {
        let ghost g = update_folder_fn(folder_id@, user_id@, changeset);
        self.folders = rewrite(&self.folders, apply_folder_update, &(folder_id, user_id, &changeset), Ghost(g));
        match self.find_folder(folder_id, user_id) {
            Some(f) => Ok(f),
            None => Err(ApiError::FolderNotFound),
        }
    }

    /// Moves the live folder `folder_id` of `user_id` to the trash at `now`.
    pub fn trash_folder(&mut self, folder_id: &str, user_id: &str, now: i64)
        ensures
            final(self).folders@ == old(self).folders@.map_values(trash_folder_fn(folder_id@, user_id@, now)),
            final(self).files@ == old(self).files@,
            final(self).shortcuts@ == old(self).shortcuts@,
    {
        self.folders = rewrite(&self.folders, apply_trash_folder, &(folder_id, user_id, now), Ghost(trash_folder_fn(folder_id@, user_id@, now)));
    }

    /// Takes the trashed folder `folder_id` of `user_id` out of the trash.
    pub fn restore_folder(&mut self, folder_id: &str, user_id: &str, now: i64)
        ensures
            final(self).folders@ == old(self).folders@.map_values(restore_folder_fn(folder_id@, user_id@, now)),
            final(self).files@ == old(self).files@,
            final(self).shortcuts@ == old(self).shortcuts@,
    {
        self.folders = rewrite(&self.folders, apply_restore_folder, &(folder_id, user_id, now), Ghost(restore_folder_fn(folder_id@, user_id@, now)));
    }

    /// The live folders of `user_id` directly under `parent_id` (`None`: the
    /// root), by name.
    pub fn list_subfolders(&self, user_id: &str, parent_id: Option<&str>) -> (r: Vec<FolderRecord>)
        ensures
            sorted_by(r@, folder_name_le()),
            r@.to_multiset() == self.folders@.filter(folder_in(user_id@, opt_str_chars(parent_id))).to_multiset(),
    {
        proof { lemma_folder_name_order(); }
        select_sorted(&self.folders, is_folder_in, &(user_id, parent_id), Ghost(folder_in(user_id@, opt_str_chars(parent_id))), folder_name_before, &(), Ghost(folder_name_le()))
    }

    /// Deletes the trashed folder `folder_id` of `user_id` for good; whether
    /// there was one.
    pub fn permanently_delete_folder(&mut self, folder_id: &str, user_id: &str) -> (deleted: bool)
        ensures
            deleted == (old(self).folders@.filter(trashed_folder(folder_id@, user_id@)).len() > 0),
            deleted ==> final(self).folders@ == old(self).folders@.filter(not_folder(folder_id@, user_id@)),
            !deleted ==> final(self).folders@ == old(self).folders@,
            final(self).files@ == old(self).files@,
            final(self).shortcuts@ == old(self).shortcuts@,
    {
        let found = find_last(&self.folders, is_trashed_folder, &(folder_id, user_id), Ghost(trashed_folder(folder_id@, user_id@)));
        if found.is_some() {
            self.folders = select(&self.folders, is_not_folder, &(folder_id, user_id), Ghost(not_folder(folder_id@, user_id@)));
            true
        } else {
            false
        }
    }

    /// The trashed folders of `user_id`, latest trashed first.
    pub fn list_trashed_folders(&self, user_id: &str) -> (r: Vec<FolderRecord>)
        ensures
            sorted_by(r@, folder_trash_le()),
            r@.to_multiset() == self.folders@.filter(folder_in_trash(user_id@)).to_multiset(),
    {
        proof { lemma_folder_trash_order(); }
        select_sorted(&self.folders, is_folder_in_trash, &user_id, Ghost(folder_in_trash(user_id@)), folder_trash_before, &(), Ghost(folder_trash_le()))
    }

    /// Moves the listed live folders of `user_id` to the trash; returns how
    /// many moved.
    pub fn bulk_trash_folders(&mut self, folder_ids: &Vec<String>, user_id: &str, now: i64) -> (count: usize)
        ensures
            count == old(self).folders@.filter(live_folder_listed(id_list(folder_ids@), user_id@)).len(),
            final(self).folders@ == old(self).folders@.map_values(bulk_trash_folder_fn(id_list(folder_ids@), user_id@, now)),
            final(self).files@ == old(self).files@,
            final(self).shortcuts@ == old(self).shortcuts@,
    {
        let count = count_where(&self.folders, is_live_folder_listed, &(folder_ids, user_id), Ghost(live_folder_listed(id_list(folder_ids@), user_id@)));
        self.folders = rewrite(&self.folders, apply_bulk_trash_folder, &(folder_ids, user_id, now), Ghost(bulk_trash_folder_fn(id_list(folder_ids@), user_id@, now)));
        count
    }

    /// Moves the listed live folders of `user_id` under `target` (`None`: the
    /// root); returns how many moved.
    pub fn bulk_move_folders(&mut self, folder_ids: &Vec<String>, user_id: &str, target: &Option<String>, now: i64) -> (count: usize)
        ensures
            count == old(self).folders@.filter(live_folder_listed(id_list(folder_ids@), user_id@)).len(),
            final(self).folders@ == old(self).folders@.map_values(bulk_move_folder_fn(id_list(folder_ids@), user_id@, *target, now)),
            final(self).files@ == old(self).files@,
            final(self).shortcuts@ == old(self).shortcuts@,
    {
        let count = count_where(&self.folders, is_live_folder_listed, &(folder_ids, user_id), Ghost(live_folder_listed(id_list(folder_ids@), user_id@)));
        self.folders = rewrite(&self.folders, apply_bulk_move_folder, &(folder_ids, user_id, target, now), Ghost(bulk_move_folder_fn(id_list(folder_ids@), user_id@, *target, now)));
        count
    }

    /// The live folders, of any user, whose ids are listed.
    pub fn find_folders_by_ids_shared(&self, folder_ids: &Vec<String>) -> (r: Vec<FolderRecord>)
        ensures
            r@ == self.folders@.filter(live_folder_listed_any(id_list(folder_ids@))),
    {
        select(&self.folders, is_live_folder_listed_any, &folder_ids, Ghost(live_folder_listed_any(id_list(folder_ids@))))
    }
}

/// Selects the file `id` of `user` that is not in the trash.
pub open spec fn live_file(id: Seq<char>, user: Seq<char>) -> spec_fn(FileRecord) -> bool {
    |f: FileRecord| f.id@ == id && f.user_id@ == user && f.deleted_at is None
}

/// Selects the file `id` of `user`, in the trash or not.
pub open spec fn file_of(id: Seq<char>, user: Seq<char>) -> spec_fn(FileRecord) -> bool {
    |f: FileRecord| f.id@ == id && f.user_id@ == user
}

/// Selects every file but `id` of `user`.
pub open spec fn not_file(id: Seq<char>, user: Seq<char>) -> spec_fn(FileRecord) -> bool {
    |f: FileRecord| !(f.id@ == id && f.user_id@ == user)
}

/// Selects the file `id` of `user` that is in the trash.
pub open spec fn trashed_file(id: Seq<char>, user: Seq<char>) -> spec_fn(FileRecord) -> bool {
    |f: FileRecord| f.id@ == id && f.user_id@ == user && f.deleted_at is Some
}

/// Selects the live files of `user` directly in `folder` (`None`: the root).
pub open spec fn file_in(user: Seq<char>, folder: Option<Seq<char>>) -> spec_fn(FileRecord) -> bool {
    |f: FileRecord| f.user_id@ == user && opt_chars(f.folder_id) == folder && f.deleted_at is None
}

/// Selects the files of `user` in the trash.
pub open spec fn file_in_trash(user: Seq<char>) -> spec_fn(FileRecord) -> bool {
    |f: FileRecord| f.user_id@ == user && f.deleted_at is Some
}

/// Selects the files of `user` trashed at or before `cutoff`.
pub open spec fn file_expired(user: Seq<char>, cutoff: i64) -> spec_fn(FileRecord) -> bool {
    |f: FileRecord| f.user_id@ == user && f.deleted_at is Some && f.deleted_at->0 <= cutoff
}

/// Selects every file that `p` does not select.
pub open spec fn file_not(p: spec_fn(FileRecord) -> bool) -> spec_fn(FileRecord) -> bool {
    |f: FileRecord| !p(f)
}

/// Selects the live files of `user` whose ids are listed.
pub open spec fn live_file_listed(ids: Seq<Seq<char>>, user: Seq<char>) -> spec_fn(FileRecord) -> bool {
    |f: FileRecord| ids.contains(f.id@) && f.user_id@ == user && f.deleted_at is None
}

/// Selects the live files, of any user, whose ids are listed.
pub open spec fn live_file_listed_any(ids: Seq<Seq<char>>) -> spec_fn(FileRecord) -> bool {
    |f: FileRecord| ids.contains(f.id@) && f.deleted_at is None
}

/// Orders files by name.
pub open spec fn file_name_le() -> spec_fn(FileRecord, FileRecord) -> bool {
    |a: FileRecord, b: FileRecord| text_le(a.name@, b.name@)
}

/// Orders files by trash time, latest first.
pub open spec fn file_trash_le() -> spec_fn(FileRecord, FileRecord) -> bool {
    |a: FileRecord, b: FileRecord| trash_time(a.deleted_at) >= trash_time(b.deleted_at)
}

/// A change to a file's name, folder (`Some(None)`: the root) or star;
/// absent fields stay as they are.
pub struct FileChange {
    pub name: Option<String>,
    pub folder_id: Option<Option<String>>,
    pub is_starred: Option<bool>,
}

/// The file `f` after the change `c` at `now` (its update time moves only if
/// something changes).
pub open spec fn file_changed(f: FileRecord, c: FileChange, now: i64) -> FileRecord {
    FileRecord {
        name: match c.name { Some(n) => n, None => f.name },
        folder_id: match c.folder_id { Some(x) => x, None => f.folder_id },
        is_starred: match c.is_starred { Some(x) => x, None => f.is_starred },
        updated_at: if c.name is Some || c.folder_id is Some || c.is_starred is Some { now } else { f.updated_at },
        ..f
    }
}

/// Applies `c` to the live file `id` of `user` at `now`.
pub open spec fn update_file_fn(id: Seq<char>, user: Seq<char>, c: FileChange, now: i64) -> spec_fn(FileRecord) -> FileRecord {
    |f: FileRecord| if live_file(id, user)(f) { file_changed(f, c, now) } else { f }
}

/// Moves the live file `id` of `user` to the trash at `now`.
pub open spec fn trash_file_fn(id: Seq<char>, user: Seq<char>, now: i64) -> spec_fn(FileRecord) -> FileRecord {
    |f: FileRecord| if live_file(id, user)(f) { FileRecord { deleted_at: Some(now), updated_at: now, ..f } } else { f }
}

/// Takes the trashed file `id` of `user` out of the trash at `now`.
pub open spec fn restore_file_fn(id: Seq<char>, user: Seq<char>, now: i64) -> spec_fn(FileRecord) -> FileRecord {
    |f: FileRecord| if trashed_file(id, user)(f) { FileRecord { deleted_at: None, updated_at: now, ..f } } else { f }
}

/// Moves the listed live files of `user` to the trash at `now`.
pub open spec fn bulk_trash_file_fn(ids: Seq<Seq<char>>, user: Seq<char>, now: i64) -> spec_fn(FileRecord) -> FileRecord {
    |f: FileRecord| if live_file_listed(ids, user)(f) { FileRecord { deleted_at: Some(now), updated_at: now, ..f } } else { f }
}

/// Moves the listed live files of `user` into `target` at `now`.
pub open spec fn bulk_move_file_fn(ids: Seq<Seq<char>>, user: Seq<char>, target: Option<String>, now: i64) -> spec_fn(FileRecord) -> FileRecord {
    |f: FileRecord| if live_file_listed(ids, user)(f) { FileRecord { folder_id: target, updated_at: now, ..f } } else { f }
}

/// Selects the shortcuts of `user` in `folder` (`None`: the root).
pub open spec fn shortcut_in(user: Seq<char>, folder: Option<Seq<char>>) -> spec_fn(ShortcutRecord) -> bool {
    |s: ShortcutRecord| s.user_id@ == user && opt_chars(s.folder_id) == folder
}

/// Selects every shortcut but `id` of `user`.
pub open spec fn not_shortcut(id: Seq<char>, user: Seq<char>) -> spec_fn(ShortcutRecord) -> bool {
    |s: ShortcutRecord| !(s.id@ == id && s.user_id@ == user)
}

/// Whether `f` is the live file `k.0` of user `k.1`.
pub fn is_live_file(k: &(&str, &str), f: &FileRecord) -> (b: bool)
    ensures
        b == live_file(k.0@, k.1@)(*f),
{
    str_eq(f.id.as_str(), k.0) && str_eq(f.user_id.as_str(), k.1) && f.deleted_at.is_none()
}

/// Whether `f` is the file `k.0` of user `k.1`.
pub fn is_file_of(k: &(&str, &str), f: &FileRecord) -> (b: bool)
    ensures
        b == file_of(k.0@, k.1@)(*f),
{
    str_eq(f.id.as_str(), k.0) && str_eq(f.user_id.as_str(), k.1)
}

/// Whether `f` is not the file `k.0` of user `k.1`.
pub fn is_not_file(k: &(&str, &str), f: &FileRecord) -> (b: bool)
    ensures
        b == not_file(k.0@, k.1@)(*f),
{
    !is_file_of(k, f)
}

/// Whether `f` is the trashed file `k.0` of user `k.1`.
pub fn is_trashed_file(k: &(&str, &str), f: &FileRecord) -> (b: bool)
    ensures
        b == trashed_file(k.0@, k.1@)(*f),
{
    str_eq(f.id.as_str(), k.0) && str_eq(f.user_id.as_str(), k.1) && f.deleted_at.is_some()
}

/// Whether `f` is a live file of user `k.0` directly in `k.1`.
pub fn is_file_in(k: &(&str, Option<&str>), f: &FileRecord) -> (b: bool)
    ensures
        b == file_in(k.0@, opt_str_chars(k.1))(*f),
{
    str_eq(f.user_id.as_str(), k.0) && opt_eq(&f.folder_id, k.1) && f.deleted_at.is_none()
}

/// Whether `f` is a trashed file of user `k`.
pub fn is_file_in_trash(k: &&str, f: &FileRecord) -> (b: bool)
    ensures
        b == file_in_trash(k@)(*f),
{
    str_eq(f.user_id.as_str(), *k) && f.deleted_at.is_some()
}

/// Whether `f` is not a trashed file of user `k`.
pub fn is_file_not_in_trash(k: &&str, f: &FileRecord) -> (b: bool)
    ensures
        b == file_not(file_in_trash(k@))(*f),
{
    !is_file_in_trash(k, f)
}

/// Whether `f` is a file of user `k.0` trashed at or before `k.1`.
pub fn is_file_expired(k: &(&str, i64), f: &FileRecord) -> (b: bool)
    ensures
        b == file_expired(k.0@, k.1)(*f),
{
    str_eq(f.user_id.as_str(), k.0) && match f.deleted_at {
        Some(t) => t <= k.1,
        None => false,
    }
}

/// Whether `f` is not a file of user `k.0` trashed at or before `k.1`.
pub fn is_file_unexpired(k: &(&str, i64), f: &FileRecord) -> (b: bool)
    ensures
        b == file_not(file_expired(k.0@, k.1))(*f),
{
    !is_file_expired(k, f)
}

/// Whether `f` is a live file of user `k.1` listed in `k.0`.
pub fn is_live_file_listed(k: &(&Vec<String>, &str), f: &FileRecord) -> (b: bool)
    ensures
        b == live_file_listed(id_list(k.0@), k.1@)(*f),
{
    str_eq(f.user_id.as_str(), k.1) && f.deleted_at.is_none() && contains_id(k.0, f.id.as_str())
}

/// Whether `f` is a live file listed in `k`.
pub fn is_live_file_listed_any(k: &&Vec<String>, f: &FileRecord) -> (b: bool)
    ensures
        b == live_file_listed_any(id_list(k@))(*f),
{
    f.deleted_at.is_none() && contains_id(*k, f.id.as_str())
}

/// Whether `a` comes no later than `b` by name.
pub fn file_name_before(_k: &(), a: &FileRecord, b: &FileRecord) -> (r: bool)
    ensures
        r == file_name_le()(*a, *b),
{
    str_le(a.name.as_str(), b.name.as_str())
}

/// Whether `a` went to the trash no earlier than `b`.
pub fn file_trash_before(_k: &(), a: &FileRecord, b: &FileRecord) -> (r: bool)
    ensures
        r == file_trash_le()(*a, *b),
{
    let x = match a.deleted_at { Some(t) => t, None => 0 };
    let y = match b.deleted_at { Some(t) => t, None => 0 };
    x >= y
}

/// The file after applying the change `k.2` to the live file `k.0` of user
/// `k.1` at `k.3`.
pub fn apply_file_update(k: &(&str, &str, &FileChange, i64), f: &FileRecord) -> (r: FileRecord)
    ensures
        r == update_file_fn(k.0@, k.1@, *k.2, k.3)(*f),
{
    let mut g = f.duplicate();
    if is_live_file(&(k.0, k.1), f) {
        let c = k.2;
        match &c.name {
            Some(n) => { g.name = n.clone(); },
            None => {},
        }
        match &c.folder_id {
            Some(x) => { g.folder_id = clone_opt(x); },
            None => {},
        }
        match c.is_starred {
            Some(x) => { g.is_starred = x; },
            None => {},
        }
        if c.name.is_some() || c.folder_id.is_some() || c.is_starred.is_some() {
            g.updated_at = k.3;
        }
    }
    g
}

/// The file after trashing the live file `k.0` of user `k.1` at `k.2`.
pub fn apply_trash_file(k: &(&str, &str, i64), f: &FileRecord) -> (r: FileRecord)
    ensures
        r == trash_file_fn(k.0@, k.1@, k.2)(*f),
{
    let mut g = f.duplicate();
    if is_live_file(&(k.0, k.1), f) {
        g.deleted_at = Some(k.2);
        g.updated_at = k.2;
    }
    g
}

/// The file after restoring the trashed file `k.0` of user `k.1` at `k.2`.
pub fn apply_restore_file(k: &(&str, &str, i64), f: &FileRecord) -> (r: FileRecord)
    ensures
        r == restore_file_fn(k.0@, k.1@, k.2)(*f),
{
    let mut g = f.duplicate();
    if is_trashed_file(&(k.0, k.1), f) {
        g.deleted_at = None;
        g.updated_at = k.2;
    }
    g
}

/// The file after trashing the listed live files of user `k.1` at `k.2`.
pub fn apply_bulk_trash_file(k: &(&Vec<String>, &str, i64), f: &FileRecord) -> (r: FileRecord)
    ensures
        r == bulk_trash_file_fn(id_list(k.0@), k.1@, k.2)(*f),
{
    let mut g = f.duplicate();
    if is_live_file_listed(&(k.0, k.1), f) {
        g.deleted_at = Some(k.2);
        g.updated_at = k.2;
    }
    g
}

/// The file after moving the listed live files of user `k.1` into `k.2` at
/// `k.3`.
pub fn apply_bulk_move_file(k: &(&Vec<String>, &str, &Option<String>, i64), f: &FileRecord) -> (r: FileRecord)
    ensures
        r == bulk_move_file_fn(id_list(k.0@), k.1@, *k.2, k.3)(*f),
{
    let mut g = f.duplicate();
    if is_live_file_listed(&(k.0, k.1), f) {
        g.folder_id = clone_opt(k.2);
        g.updated_at = k.3;
    }
    g
}

/// Whether `s` is a shortcut of user `k.0` in `k.1`.
pub fn is_shortcut_in(k: &(&str, Option<&str>), s: &ShortcutRecord) -> (b: bool)
    ensures
        b == shortcut_in(k.0@, opt_str_chars(k.1))(*s),
{
    str_eq(s.user_id.as_str(), k.0) && opt_eq(&s.folder_id, k.1)
}

/// Whether `s` is not the shortcut `k.0` of user `k.1`.
pub fn is_not_shortcut(k: &(&str, &str), s: &ShortcutRecord) -> (b: bool)
    ensures
        b == not_shortcut(k.0@, k.1@)(*s),
{
    !(str_eq(s.id.as_str(), k.0) && str_eq(s.user_id.as_str(), k.1))
}

/// Name order on files is a total preorder.
pub proof fn lemma_file_name_order()
    ensures
        transitive(file_name_le()),
        strongly_connected(file_name_le()),
{
    assert forall|x: FileRecord, y: FileRecord, z: FileRecord|
        #[trigger] file_name_le()(x, y) && #[trigger] file_name_le()(y, z) implies file_name_le()(x, z) by {
        lemma_text_le_transitive(x.name@, y.name@, z.name@);
    }
    assert forall|x: FileRecord, y: FileRecord|
        #[trigger] file_name_le()(x, y) || #[trigger] file_name_le()(y, x) by {
        lemma_text_le_total(x.name@, y.name@);
    }
}

/// Trash-time order on files is a total preorder.
pub proof fn lemma_file_trash_order()
    ensures
        transitive(file_trash_le()),
        strongly_connected(file_trash_le()),
{
}

impl FilesystemRepository {
    /// The live files of `user_id` directly in `folder_id` (`None`: the
    /// root), by name.
    pub fn list_files_in_folder(&self, user_id: &str, folder_id: Option<&str>) -> (r: Vec<FileRecord>)
        ensures
            sorted_by(r@, file_name_le()),
            r@.to_multiset() == self.files@.filter(file_in(user_id@, opt_str_chars(folder_id))).to_multiset(),
    {
        proof { lemma_file_name_order(); }
        select_sorted(&self.files, is_file_in, &(user_id, folder_id), Ghost(file_in(user_id@, opt_str_chars(folder_id))), file_name_before, &(), Ghost(file_name_le()))
    }

    /// Renames, moves or stars the live file `file_id` of `user_id`, then
    /// returns the file as it now is, or `FileNotFound` where there is none.
    pub fn update_file(&mut self, file_id: &str, user_id: &str, change: &FileChange, now: i64) -> (r: Result<FileRecord, ApiError>)
        ensures
            final(self).files@ == old(self).files@.map_values(update_file_fn(file_id@, user_id@, *change, now)),
            final(self).folders@ == old(self).folders@,
            final(self).shortcuts@ == old(self).shortcuts@,
            match last_where(final(self).files@, file_of(file_id@, user_id@)) {
                Some(f) => r == Ok::<FileRecord, ApiError>(f),
                None => r == Err::<FileRecord, ApiError>(ApiError::FileNotFound),
            },
    {
        self.files = rewrite(&self.files, apply_file_update, &(file_id, user_id, change, now), Ghost(update_file_fn(file_id@, user_id@, *change, now)));
        let found = find_last(&self.files, is_file_of, &(file_id, user_id), Ghost(file_of(file_id@, user_id@)));
        match found {
            Some(j) => Ok(self.files[j].duplicate()),
            None => Err(ApiError::FileNotFound),
        }
    }

    /// Moves the live file `file_id` of `user_id` to the trash at `now`.
    pub fn trash_file(&mut self, file_id: &str, user_id: &str, now: i64)
        ensures
            final(self).files@ == old(self).files@.map_values(trash_file_fn(file_id@, user_id@, now)),
            final(self).folders@ == old(self).folders@,
            final(self).shortcuts@ == old(self).shortcuts@,
    {
        self.files = rewrite(&self.files, apply_trash_file, &(file_id, user_id, now), Ghost(trash_file_fn(file_id@, user_id@, now)));
    }

    /// Takes the trashed file `file_id` of `user_id` out of the trash.
    pub fn restore_file(&mut self, file_id: &str, user_id: &str, now: i64)
        ensures
            final(self).files@ == old(self).files@.map_values(restore_file_fn(file_id@, user_id@, now)),
            final(self).folders@ == old(self).folders@,
            final(self).shortcuts@ == old(self).shortcuts@,
    {
        self.files = rewrite(&self.files, apply_restore_file, &(file_id, user_id, now), Ghost(restore_file_fn(file_id@, user_id@, now)));
    }

    /// Deletes the trashed file `file_id` of `user_id` for good; returns it,
    /// if there was one.
    pub fn permanently_delete_file(&mut self, file_id: &str, user_id: &str) -> (r: Option<FileRecord>)
        ensures
            r == last_where(old(self).files@, trashed_file(file_id@, user_id@)),
            r is Some ==> final(self).files@ == old(self).files@.filter(not_file(file_id@, user_id@)),
            r is None ==> final(self).files@ == old(self).files@,
            final(self).folders@ == old(self).folders@,
            final(self).shortcuts@ == old(self).shortcuts@,
    {
        let found = find_last(&self.files, is_trashed_file, &(file_id, user_id), Ghost(trashed_file(file_id@, user_id@)));
        match found {
            Some(j) => {
                let rec = self.files[j].duplicate();
                self.files = select(&self.files, is_not_file, &(file_id, user_id), Ghost(not_file(file_id@, user_id@)));
                Some(rec)
            },
            None => None,
        }
    }

    /// The trashed files of `user_id`, latest trashed first.
    pub fn list_trashed_files(&self, user_id: &str) -> (r: Vec<FileRecord>)
        ensures
            sorted_by(r@, file_trash_le()),
            r@.to_multiset() == self.files@.filter(file_in_trash(user_id@)).to_multiset(),
    {
        proof { lemma_file_trash_order(); }
        select_sorted(&self.files, is_file_in_trash, &user_id, Ghost(file_in_trash(user_id@)), file_trash_before, &(), Ghost(file_trash_le()))
    }

    /// Deletes every file and folder of `user_id` trashed at or before
    /// `cutoff`; returns the files deleted.
    pub fn purge_expired_trash(&mut self, user_id: &str, cutoff: i64) -> (r: Vec<FileRecord>)
        ensures
            r@ == old(self).files@.filter(file_expired(user_id@, cutoff)),
            final(self).files@ == old(self).files@.filter(file_not(file_expired(user_id@, cutoff))),
            final(self).folders@ == old(self).folders@.filter(folder_not(folder_expired(user_id@, cutoff))),
            final(self).shortcuts@ == old(self).shortcuts@,
    {
        let expired = select(&self.files, is_file_expired, &(user_id, cutoff), Ghost(file_expired(user_id@, cutoff)));
        self.files = select(&self.files, is_file_unexpired, &(user_id, cutoff), Ghost(file_not(file_expired(user_id@, cutoff))));
        self.folders = select(&self.folders, is_folder_unexpired, &(user_id, cutoff), Ghost(folder_not(folder_expired(user_id@, cutoff))));
        expired
    }

    /// Deletes every trashed file and folder of `user_id`; returns the files
    /// deleted.
    pub fn empty_trash(&mut self, user_id: &str) -> (r: Vec<FileRecord>)
        ensures
            r@ == old(self).files@.filter(file_in_trash(user_id@)),
            final(self).files@ == old(self).files@.filter(file_not(file_in_trash(user_id@))),
            final(self).folders@ == old(self).folders@.filter(folder_not(folder_in_trash(user_id@))),
            final(self).shortcuts@ == old(self).shortcuts@,
    {
        let trashed = select(&self.files, is_file_in_trash, &user_id, Ghost(file_in_trash(user_id@)));
        self.files = select(&self.files, is_file_not_in_trash, &user_id, Ghost(file_not(file_in_trash(user_id@))));
        self.folders = select(&self.folders, is_folder_not_in_trash, &user_id, Ghost(folder_not(folder_in_trash(user_id@))));
        trashed
    }

    /// Moves the listed live files of `user_id` to the trash; returns how
    /// many moved.
    pub fn bulk_trash_files(&mut self, file_ids: &Vec<String>, user_id: &str, now: i64) -> (count: usize)
        ensures
            count == old(self).files@.filter(live_file_listed(id_list(file_ids@), user_id@)).len(),
            final(self).files@ == old(self).files@.map_values(bulk_trash_file_fn(id_list(file_ids@), user_id@, now)),
            final(self).folders@ == old(self).folders@,
            final(self).shortcuts@ == old(self).shortcuts@,
    {
        let count = count_where(&self.files, is_live_file_listed, &(file_ids, user_id), Ghost(live_file_listed(id_list(file_ids@), user_id@)));
        self.files = rewrite(&self.files, apply_bulk_trash_file, &(file_ids, user_id, now), Ghost(bulk_trash_file_fn(id_list(file_ids@), user_id@, now)));
        count
    }

    /// Moves the listed live files of `user_id` into `target` (`None`: the
    /// root); returns how many moved.
    pub fn bulk_move_files(&mut self, file_ids: &Vec<String>, user_id: &str, target: &Option<String>, now: i64) -> (count: usize)
        ensures
            count == old(self).files@.filter(live_file_listed(id_list(file_ids@), user_id@)).len(),
            final(self).files@ == old(self).files@.map_values(bulk_move_file_fn(id_list(file_ids@), user_id@, *target, now)),
            final(self).folders@ == old(self).folders@,
            final(self).shortcuts@ == old(self).shortcuts@,
    {
        let count = count_where(&self.files, is_live_file_listed, &(file_ids, user_id), Ghost(live_file_listed(id_list(file_ids@), user_id@)));
        self.files = rewrite(&self.files, apply_bulk_move_file, &(file_ids, user_id, target, now), Ghost(bulk_move_file_fn(id_list(file_ids@), user_id@, *target, now)));
        count
    }

    /// The live files of `user_id` whose ids are listed.
    pub fn find_files_by_ids(&self, file_ids: &Vec<String>, user_id: &str) -> (r: Vec<FileRecord>)
        ensures
            r@ == self.files@.filter(live_file_listed(id_list(file_ids@), user_id@)),
    {
        select(&self.files, is_live_file_listed, &(file_ids, user_id), Ghost(live_file_listed(id_list(file_ids@), user_id@)))
    }

    /// The live files, of any user, whose ids are listed.
    pub fn find_files_by_ids_shared(&self, file_ids: &Vec<String>) -> (r: Vec<FileRecord>)
        ensures
            r@ == self.files@.filter(live_file_listed_any(id_list(file_ids@))),
    {
        select(&self.files, is_live_file_listed_any, &file_ids, Ghost(live_file_listed_any(id_list(file_ids@))))
    }

    /// Adds a shortcut; returns the stored row.
    pub fn create_shortcut(&mut self, record: ShortcutRecord) -> (r: ShortcutRecord)
        ensures
            r == record,
            final(self).shortcuts@ == old(self).shortcuts@.push(record),
            final(self).files@ == old(self).files@,
            final(self).folders@ == old(self).folders@,
    {
        let r = record.duplicate();
        self.shortcuts.push(record);
        r
    }

    /// Deletes the shortcut `shortcut_id` of `user_id`; whether there was one.
    pub fn delete_shortcut(&mut self, shortcut_id: &str, user_id: &str) -> (deleted: bool)
        ensures
            final(self).shortcuts@ == old(self).shortcuts@.filter(not_shortcut(shortcut_id@, user_id@)),
            deleted == (final(self).shortcuts@.len() < old(self).shortcuts@.len()),
            final(self).files@ == old(self).files@,
            final(self).folders@ == old(self).folders@,
    {
        let before = self.shortcuts.len();
        self.shortcuts = select(&self.shortcuts, is_not_shortcut, &(shortcut_id, user_id), Ghost(not_shortcut(shortcut_id@, user_id@)));
        self.shortcuts.len() < before
    }

    /// The shortcuts of `user_id` in `folder_id` (`None`: the root).
    pub fn list_shortcuts_in_folder(&self, user_id: &str, folder_id: Option<&str>) -> (r: Vec<ShortcutRecord>)
        ensures
            r@ == self.shortcuts@.filter(shortcut_in(user_id@, opt_str_chars(folder_id))),
    {
        select(&self.shortcuts, is_shortcut_in, &(user_id, folder_id), Ghost(shortcut_in(user_id@, opt_str_chars(folder_id))))
    }
}

/// A request to create a folder.
pub struct CreateFolderRequest {
    pub name: String,
    pub parent_id: Option<String>,
}

/// A request to rename, recolour or star a folder.
pub struct UpdateFolderRequest {
    pub name: Option<String>,
    pub color: Option<Option<String>>,
    pub is_starred: Option<bool>,
}

/// A request to rename, move (`Some(None)`: to the root) or star a file.
pub struct UpdateFileRequest {
    pub name: Option<String>,
    pub folder_id: Option<Option<String>>,
    pub is_starred: Option<bool>,
}

/// A request to create a shortcut to a file.
pub struct CreateShortcutRequest {
    pub target_file_id: String,
    pub folder_id: Option<String>,
}

/// A request to move files and folders into a folder (`None`: the root).
pub struct BulkMoveRequest {
    pub file_ids: Vec<String>,
    pub folder_ids: Vec<String>,
    pub target_folder_id: Option<String>,
}

/// A request to move files and folders to the trash.
pub struct BulkTrashRequest {
    pub file_ids: Vec<String>,
    pub folder_ids: Vec<String>,
}

/// How many items a bulk operation touched.
#[derive(Debug)]
pub struct BulkResult {
    pub affected: usize,
}

/// What a folder (or the root) holds.
#[derive(Debug)]
pub struct FolderContentsResponse {
    pub folder: Option<FolderRecord>,
    pub folders: Vec<FolderRecord>,
    pub files: Vec<FileRecord>,
    pub shortcuts: Vec<ShortcutRecord>,
}

/// What the trash holds.
#[derive(Debug)]
pub struct TrashContentsResponse {
    pub files: Vec<FileRecord>,
    pub folders: Vec<FolderRecord>,
}

/// How long an item stays in the trash before it may be purged: 30 days, in
/// seconds.
pub const TRASH_RETENTION_SECS: i64 = 2592000;

/// The filesystem rules over a filesystem repository.
pub struct FilesystemService {
    pub repo: FilesystemRepository,
}

impl FilesystemService {
    /// A service over `repo`.
    pub fn new(repo: FilesystemRepository) -> (s: Self)
        ensures
            s.repo == repo,
    {
        FilesystemService { repo }
    }

    /// Creates a folder named `req.name` without surrounding white space; the
    /// name must not be empty.
    pub fn create_folder(&mut self, user_id: &str, req: CreateFolderRequest) -> (r: Result<FolderRecord, ApiError>)
        ensures
            trimmed(req.name@).len() == 0 ==> r == Err::<FolderRecord, ApiError>(ApiError::EmptyFolderName) && final(self).repo == old(self).repo,
            trimmed(req.name@).len() > 0 ==> {
                &&& r is Ok
                &&& r->Ok_0.name@ == trimmed(req.name@)
                &&& r->Ok_0.user_id@ == user_id@
                &&& r->Ok_0.parent_id == req.parent_id
                &&& !r->Ok_0.is_starred
                &&& r->Ok_0.color is None
                &&& r->Ok_0.deleted_at is None
                &&& final(self).repo.folders@ == old(self).repo.folders@.push(r->Ok_0)
                &&& final(self).repo.files@ == old(self).repo.files@
                &&& final(self).repo.shortcuts@ == old(self).repo.shortcuts@
            },
    {
        let name = trim(req.name.as_str());
        if name.is_empty() {
            return Err(ApiError::EmptyFolderName);
        }
        let now = now_utc();
        let record = FolderRecord {
            id: new_uuid(),
            user_id: user_id.to_owned(),
            parent_id: req.parent_id,
            name: name.to_owned(),
            is_starred: false,
            color: None,
            deleted_at: None,
            created_at: now,
            updated_at: now,
        };
        Ok(self.repo.create_folder(record))
    }

    /// The contents of the live folder `folder_id` of `user_id` (`None`: the
    /// root): subfolders and files by name, and shortcuts.
    pub fn get_folder_contents(&self, user_id: &str, folder_id: Option<&str>) -> (r: Result<FolderContentsResponse, ApiError>)
        ensures
            (folder_id is Some && last_where(self.repo.folders@, live_folder(folder_id->0@, user_id@)) is None)
                ==> r is Err && r->Err_0 == ApiError::FolderNotFound,
            !(folder_id is Some && last_where(self.repo.folders@, live_folder(folder_id->0@, user_id@)) is None) ==> {
                &&& r is Ok
                &&& r->Ok_0.folder == match folder_id {
                    Some(fid) => last_where(self.repo.folders@, live_folder(fid@, user_id@)),
                    None => None,
                }
                &&& sorted_by(r->Ok_0.folders@, folder_name_le())
                &&& r->Ok_0.folders@.to_multiset() == self.repo.folders@.filter(folder_in(user_id@, opt_str_chars(folder_id))).to_multiset()
                &&& sorted_by(r->Ok_0.files@, file_name_le())
                &&& r->Ok_0.files@.to_multiset() == self.repo.files@.filter(file_in(user_id@, opt_str_chars(folder_id))).to_multiset()
                &&& r->Ok_0.shortcuts@ == self.repo.shortcuts@.filter(shortcut_in(user_id@, opt_str_chars(folder_id)))
            },
    {
        let folder = match folder_id {
            Some(fid) => match self.repo.find_folder(fid, user_id) {
                Some(f) => Some(f),
                None => {
                    return Err(ApiError::FolderNotFound);
                },
            },
            None => None,
        };
        let folders = self.repo.list_subfolders(user_id, folder_id);
        let files = self.repo.list_files_in_folder(user_id, folder_id);
        let shortcuts = self.repo.list_shortcuts_in_folder(user_id, folder_id);
        Ok(FolderContentsResponse { folder, folders, files, shortcuts })
    }

    /// Renames (without surrounding white space), recolours or stars the live
    /// folder `folder_id` of `user_id`; a new name must not be empty.
    pub fn update_folder(&mut self, user_id: &str, folder_id: &str, req: UpdateFolderRequest) -> (r: Result<FolderRecord, ApiError>)
        ensures
            req.name is Some && trimmed(req.name->0@).len() == 0 ==>
                r == Err::<FolderRecord, ApiError>(ApiError::EmptyFolderName) && final(self).repo == old(self).repo,
            !(req.name is Some && trimmed(req.name->0@).len() == 0) ==>
                folder_updated(old(self).repo.folders@, final(self).repo.folders@, user_id@, folder_id@, req, r),
            final(self).repo.files@ == old(self).repo.files@,
            final(self).repo.shortcuts@ == old(self).repo.shortcuts@,
    {
        let name = match &req.name {
            Some(n) => {
                let t = trim(n.as_str());
                if t.is_empty() {
                    return Err(ApiError::EmptyFolderName);
                }
                Some(t.to_owned())
            },
            None => None,
        };
        let changeset = UpdateFolderRecord {
            name,
            color: req.color,
            is_starred: req.is_starred,
            parent_id: None,
            updated_at: now_utc(),
        };
        let ghost c = changeset;
        let r = self.repo.update_folder(folder_id, user_id, changeset);
        assert(old(self).repo.folders@.map_values(update_folder_fn(folder_id@, user_id@, c)) == self.repo.folders@);
        r
    }

    /// Moves the live folder `folder_id` of `user_id` to the trash.
    pub fn trash_folder(&mut self, user_id: &str, folder_id: &str) -> (r: Result<(), ApiError>)
        ensures
            last_where(old(self).repo.folders@, live_folder(folder_id@, user_id@)) is None ==>
                r == Err::<(), ApiError>(ApiError::FolderNotFound) && final(self).repo == old(self).repo,
            last_where(old(self).repo.folders@, live_folder(folder_id@, user_id@)) is Some ==> r is Ok && exists|now: i64|
                #[trigger] old(self).repo.folders@.map_values(trash_folder_fn(folder_id@, user_id@, now)) == final(self).repo.folders@,
            final(self).repo.files@ == old(self).repo.files@,
            final(self).repo.shortcuts@ == old(self).repo.shortcuts@,
    {
        if self.repo.find_folder(folder_id, user_id).is_none() {
            return Err(ApiError::FolderNotFound);
        }
        let now = now_utc();
        self.repo.trash_folder(folder_id, user_id, now);
        assert(old(self).repo.folders@.map_values(trash_folder_fn(folder_id@, user_id@, now)) == self.repo.folders@);
        Ok(())
    }

    /// Renames, moves or stars the live file `file_id` of `user_id`; a new
    /// name must not be empty once trimmed (the name is stored as given).
    /// A file that is not there answers `FileNotFound` (404), as the
    /// endpoint documents.
    pub fn update_file(&mut self, user_id: &str, file_id: &str, req: UpdateFileRequest) -> (r: Result<FileRecord, ApiError>)
        ensures
            req.name is Some && trimmed(req.name->0@).len() == 0 ==>
                r == Err::<FileRecord, ApiError>(ApiError::EmptyFileName) && final(self).repo == old(self).repo,
            !(req.name is Some && trimmed(req.name->0@).len() == 0) ==> exists|now: i64| {
                &&& #[trigger] old(self).repo.files@.map_values(update_file_fn(
                    file_id@,
                    user_id@,
                    FileChange { name: req.name, folder_id: req.folder_id, is_starred: req.is_starred },
                    now,
                )) == final(self).repo.files@
                &&& match last_where(final(self).repo.files@, file_of(file_id@, user_id@)) {
                    Some(f) => r == Ok::<FileRecord, ApiError>(f),
                    None => r == Err::<FileRecord, ApiError>(ApiError::FileNotFound),
                }
            },
            final(self).repo.folders@ == old(self).repo.folders@,
            final(self).repo.shortcuts@ == old(self).repo.shortcuts@,
    {
        match &req.name {
            Some(n) => {
                if trim(n.as_str()).is_empty() {
                    return Err(ApiError::EmptyFileName);
                }
            },
            None => {},
        }
        let change = FileChange { name: req.name, folder_id: req.folder_id, is_starred: req.is_starred };
        let now = now_utc();
        let r = self.repo.update_file(file_id, user_id, &change, now);
        r
    }

    /// Moves the live file `file_id` of `user_id` to the trash.
    pub fn trash_file(&mut self, user_id: &str, file_id: &str)
        ensures
            exists|now: i64| #[trigger] old(self).repo.files@.map_values(trash_file_fn(file_id@, user_id@, now)) == final(self).repo.files@,
            final(self).repo.folders@ == old(self).repo.folders@,
            final(self).repo.shortcuts@ == old(self).repo.shortcuts@,
    {
        let now = now_utc();
        self.repo.trash_file(file_id, user_id, now);
        assert(old(self).repo.files@.map_values(trash_file_fn(file_id@, user_id@, now)) == self.repo.files@);
    }

    /// Creates a shortcut of `user_id` to a file.
    pub fn create_shortcut(&mut self, user_id: &str, req: CreateShortcutRequest) -> (r: ShortcutRecord)
        ensures
            r.user_id@ == user_id@,
            r.target_file_id == req.target_file_id,
            r.folder_id == req.folder_id,
            final(self).repo.shortcuts@ == old(self).repo.shortcuts@.push(r),
            final(self).repo.files@ == old(self).repo.files@,
            final(self).repo.folders@ == old(self).repo.folders@,
    {
        let record = ShortcutRecord {
            id: new_uuid(),
            user_id: user_id.to_owned(),
            target_file_id: req.target_file_id,
            folder_id: req.folder_id,
            created_at: now_utc(),
        };
        self.repo.create_shortcut(record)
    }

    /// Deletes the shortcut `shortcut_id` of `user_id`.
    pub fn delete_shortcut(&mut self, user_id: &str, shortcut_id: &str) -> (r: Result<(), ApiError>)
        ensures
            final(self).repo.shortcuts@ == old(self).repo.shortcuts@.filter(not_shortcut(shortcut_id@, user_id@)),
            r is Ok <==> final(self).repo.shortcuts@.len() < old(self).repo.shortcuts@.len(),
            r is Err ==> r->Err_0 == ApiError::ShortcutNotFound,
            final(self).repo.files@ == old(self).repo.files@,
            final(self).repo.folders@ == old(self).repo.folders@,
    {
        if !self.repo.delete_shortcut(shortcut_id, user_id) {
            return Err(ApiError::ShortcutNotFound);
        }
        Ok(())
    }

    /// Moves the listed live files and folders of `user_id` into
    /// `req.target_folder_id`; counts what moved.
    pub fn bulk_move(&mut self, user_id: &str, req: BulkMoveRequest) -> (r: BulkResult)
        requires
            old(self).repo.files@.len() + old(self).repo.folders@.len() <= usize::MAX,
        ensures
            r.affected == old(self).repo.files@.filter(live_file_listed(id_list(req.file_ids@), user_id@)).len()
                + old(self).repo.folders@.filter(live_folder_listed(id_list(req.folder_ids@), user_id@)).len(),
            exists|now: i64| {
                &&& #[trigger] old(self).repo.files@.map_values(bulk_move_file_fn(id_list(req.file_ids@), user_id@, req.target_folder_id, now)) == final(self).repo.files@
                &&& old(self).repo.folders@.map_values(bulk_move_folder_fn(id_list(req.folder_ids@), user_id@, req.target_folder_id, now)) == final(self).repo.folders@
            },
            final(self).repo.shortcuts@ == old(self).repo.shortcuts@,
    {
        let now = now_utc();
        proof {
            old(self).repo.files@.lemma_filter_len(live_file_listed(id_list(req.file_ids@), user_id@));
            old(self).repo.folders@.lemma_filter_len(live_folder_listed(id_list(req.folder_ids@), user_id@));
        }
        let a = self.repo.bulk_move_files(&req.file_ids, user_id, &req.target_folder_id, now);
        let b = self.repo.bulk_move_folders(&req.folder_ids, user_id, &req.target_folder_id, now);
        assert(old(self).repo.files@.map_values(bulk_move_file_fn(id_list(req.file_ids@), user_id@, req.target_folder_id, now)) == self.repo.files@);
        BulkResult { affected: a + b }
    }

    /// Moves the listed live files and folders of `user_id` to the trash;
    /// counts what moved.
    pub fn bulk_trash(&mut self, user_id: &str, req: BulkTrashRequest) -> (r: BulkResult)
        requires
            old(self).repo.files@.len() + old(self).repo.folders@.len() <= usize::MAX,
        ensures
            r.affected == old(self).repo.files@.filter(live_file_listed(id_list(req.file_ids@), user_id@)).len()
                + old(self).repo.folders@.filter(live_folder_listed(id_list(req.folder_ids@), user_id@)).len(),
            exists|now: i64| {
                &&& #[trigger] old(self).repo.files@.map_values(bulk_trash_file_fn(id_list(req.file_ids@), user_id@, now)) == final(self).repo.files@
                &&& old(self).repo.folders@.map_values(bulk_trash_folder_fn(id_list(req.folder_ids@), user_id@, now)) == final(self).repo.folders@
            },
            final(self).repo.shortcuts@ == old(self).repo.shortcuts@,
    {
        let now = now_utc();
        proof {
            old(self).repo.files@.lemma_filter_len(live_file_listed(id_list(req.file_ids@), user_id@));
            old(self).repo.folders@.lemma_filter_len(live_folder_listed(id_list(req.folder_ids@), user_id@));
        }
        let a = self.repo.bulk_trash_files(&req.file_ids, user_id, now);
        let b = self.repo.bulk_trash_folders(&req.folder_ids, user_id, now);
        assert(old(self).repo.files@.map_values(bulk_trash_file_fn(id_list(req.file_ids@), user_id@, now)) == self.repo.files@);
        BulkResult { affected: a + b }
    }

    /// The live files of `user_id` to put into a bulk download.
    pub fn bulk_download_files(&self, user_id: &str, file_ids: &Vec<String>) -> (r: Vec<FileRecord>)
        ensures
            r@ == self.repo.files@.filter(live_file_listed(id_list(file_ids@), user_id@)),
    {
        self.repo.find_files_by_ids(file_ids, user_id)
    }

    /// The trash of `user_id`, latest trashed first.
    pub fn list_trash(&self, user_id: &str) -> (r: TrashContentsResponse)
        ensures
            sorted_by(r.files@, file_trash_le()),
            r.files@.to_multiset() == self.repo.files@.filter(file_in_trash(user_id@)).to_multiset(),
            sorted_by(r.folders@, folder_trash_le()),
            r.folders@.to_multiset() == self.repo.folders@.filter(folder_in_trash(user_id@)).to_multiset(),
    {
        TrashContentsResponse { files: self.repo.list_trashed_files(user_id), folders: self.repo.list_trashed_folders(user_id) }
    }

    /// Takes the trashed file `file_id` of `user_id` out of the trash.
    pub fn restore_file(&mut self, user_id: &str, file_id: &str)
        ensures
            exists|now: i64| #[trigger] old(self).repo.files@.map_values(restore_file_fn(file_id@, user_id@, now)) == final(self).repo.files@,
            final(self).repo.folders@ == old(self).repo.folders@,
            final(self).repo.shortcuts@ == old(self).repo.shortcuts@,
    {
        let now = now_utc();
        self.repo.restore_file(file_id, user_id, now);
        assert(old(self).repo.files@.map_values(restore_file_fn(file_id@, user_id@, now)) == self.repo.files@);
    }

    /// Takes the trashed folder `folder_id` of `user_id` out of the trash.
    pub fn restore_folder(&mut self, user_id: &str, folder_id: &str)
        ensures
            exists|now: i64| #[trigger] old(self).repo.folders@.map_values(restore_folder_fn(folder_id@, user_id@, now)) == final(self).repo.folders@,
            final(self).repo.files@ == old(self).repo.files@,
            final(self).repo.shortcuts@ == old(self).repo.shortcuts@,
    {
        let now = now_utc();
        self.repo.restore_folder(folder_id, user_id, now);
        assert(old(self).repo.folders@.map_values(restore_folder_fn(folder_id@, user_id@, now)) == self.repo.folders@);
    }

    /// Deletes the trashed file `file_id` of `user_id` for good; returns the
    /// deleted row so that its stored content can be removed.
    pub fn permanently_delete_file(&mut self, user_id: &str, file_id: &str) -> (r: Result<FileRecord, ApiError>)
        ensures
            match last_where(old(self).repo.files@, trashed_file(file_id@, user_id@)) {
                Some(f) => r == Ok::<FileRecord, ApiError>(f) && final(self).repo.files@ == old(self).repo.files@.filter(not_file(file_id@, user_id@)),
                None => r == Err::<FileRecord, ApiError>(ApiError::FileNotInTrash) && final(self).repo.files@ == old(self).repo.files@,
            },
            final(self).repo.folders@ == old(self).repo.folders@,
            final(self).repo.shortcuts@ == old(self).repo.shortcuts@,
    {
        match self.repo.permanently_delete_file(file_id, user_id) {
            Some(f) => Ok(f),
            None => Err(ApiError::FileNotInTrash),
        }
    }

    /// Deletes the trashed folder `folder_id` of `user_id` for good.
    pub fn permanently_delete_folder(&mut self, user_id: &str, folder_id: &str) -> (r: Result<(), ApiError>)
        ensures
            old(self).repo.folders@.filter(trashed_folder(folder_id@, user_id@)).len() > 0 ==>
                r is Ok && final(self).repo.folders@ == old(self).repo.folders@.filter(not_folder(folder_id@, user_id@)),
            old(self).repo.folders@.filter(trashed_folder(folder_id@, user_id@)).len() == 0 ==>
                r == Err::<(), ApiError>(ApiError::FolderNotInTrash) && final(self).repo.folders@ == old(self).repo.folders@,
            final(self).repo.files@ == old(self).repo.files@,
            final(self).repo.shortcuts@ == old(self).repo.shortcuts@,
    {
        if !self.repo.permanently_delete_folder(folder_id, user_id) {
            return Err(ApiError::FolderNotInTrash);
        }
        Ok(())
    }

    /// Deletes everything in the trash of `user_id`; returns the files
    /// deleted so that their stored content can be removed.
    pub fn empty_trash(&mut self, user_id: &str) -> (r: Vec<FileRecord>)
        ensures
            r@ == old(self).repo.files@.filter(file_in_trash(user_id@)),
            final(self).repo.files@ == old(self).repo.files@.filter(file_not(file_in_trash(user_id@))),
            final(self).repo.folders@ == old(self).repo.folders@.filter(folder_not(folder_in_trash(user_id@))),
            final(self).repo.shortcuts@ == old(self).repo.shortcuts@,
    {
        self.repo.empty_trash(user_id)
    }

    /// Deletes what has been in the trash of `user_id` for the retention
    /// period or longer at `now`; returns the files deleted.
    pub fn purge_expired_trash_at(&mut self, user_id: &str, now: i64) -> (r: Vec<FileRecord>)
        requires
            now >= i64::MIN + TRASH_RETENTION_SECS,
        ensures
            r@ == old(self).repo.files@.filter(file_expired(user_id@, (now - TRASH_RETENTION_SECS) as i64)),
            final(self).repo.files@ == old(self).repo.files@.filter(file_not(file_expired(user_id@, (now - TRASH_RETENTION_SECS) as i64))),
            final(self).repo.folders@ == old(self).repo.folders@.filter(folder_not(folder_expired(user_id@, (now - TRASH_RETENTION_SECS) as i64))),
            final(self).repo.shortcuts@ == old(self).repo.shortcuts@,
    {
        self.repo.purge_expired_trash(user_id, now - TRASH_RETENTION_SECS)
    }

    /// Deletes what has been in the trash of `user_id` for the retention
    /// period or longer, by the clock; returns the files deleted.
    pub fn purge_expired_trash(&mut self, user_id: &str) -> (r: Vec<FileRecord>)
        ensures
            exists|cutoff: i64| {
                &&& #[trigger] old(self).repo.files@.filter(file_expired(user_id@, cutoff)) == r@
                &&& final(self).repo.files@ == old(self).repo.files@.filter(file_not(file_expired(user_id@, cutoff)))
                &&& final(self).repo.folders@ == old(self).repo.folders@.filter(folder_not(folder_expired(user_id@, cutoff)))
            },
            final(self).repo.shortcuts@ == old(self).repo.shortcuts@,
    {
        let now = now_utc();
        let cutoff = if now >= i64::MIN + TRASH_RETENTION_SECS { now - TRASH_RETENTION_SECS } else { i64::MIN };
        let r = self.repo.purge_expired_trash(user_id, cutoff);
        assert(old(self).repo.files@.filter(file_expired(user_id@, cutoff)) == r@);
        r
    }
}

/// Law: trashing a live file and then restoring it gives back every row as
/// it was, except that the file's update time is the time of the restore.
pub proof fn law_trash_then_restore_file(s: Seq<FileRecord>, id: Seq<char>, user: Seq<char>, t1: i64, t2: i64)
    requires
        forall|i: int| 0 <= i < s.len() ==> !trashed_file(id, user)(#[trigger] s[i]),
    ensures
        s.map_values(trash_file_fn(id, user, t1)).map_values(restore_file_fn(id, user, t2)).len() == s.len(),
        forall|i: int| 0 <= i < s.len() ==> #[trigger] s.map_values(trash_file_fn(id, user, t1)).map_values(restore_file_fn(id, user, t2))[i]
            == (if file_of(id, user)(s[i]) { FileRecord { updated_at: t2, ..s[i] } } else { s[i] }),
{
}

/// Law: trashing a live folder and then restoring it gives back every row as
/// it was, except that the folder's update time is the time of the restore.
pub proof fn law_trash_then_restore_folder(s: Seq<FolderRecord>, id: Seq<char>, user: Seq<char>, t1: i64, t2: i64)
    requires
        forall|i: int| 0 <= i < s.len() ==> !trashed_folder(id, user)(#[trigger] s[i]),
    ensures
        s.map_values(trash_folder_fn(id, user, t1)).map_values(restore_folder_fn(id, user, t2)).len() == s.len(),
        forall|i: int| 0 <= i < s.len() ==> #[trigger] s.map_values(trash_folder_fn(id, user, t1)).map_values(restore_folder_fn(id, user, t2))[i]
            == (if (|f: FolderRecord| f.id@ == id && f.user_id@ == user)(s[i]) { FolderRecord { updated_at: t2, ..s[i] } } else { s[i] }),
{
}

/// Law: a trashed file leaves every folder listing of its owner and shows in
/// the owner's trash, with the time it was trashed.
pub proof fn law_trashed_file_is_in_trash(s: Seq<FileRecord>, id: Seq<char>, user: Seq<char>, now: i64, folder: Option<Seq<char>>, i: int)
    requires
        0 <= i < s.len(),
        live_file(id, user)(s[i]),
    ensures
        !file_in(user, folder)(s.map_values(trash_file_fn(id, user, now))[i]),
        file_in_trash(user)(s.map_values(trash_file_fn(id, user, now))[i]),
        trash_time(s.map_values(trash_file_fn(id, user, now))[i].deleted_at) == now,
{
}

/// Law: the trash keeps a file for thirty days. A purge at `now` keeps a
/// file trashed less than thirty days before, and drops a file of the user
/// trashed thirty days or more before.
pub proof fn law_thirty_day_retention(s: Seq<FileRecord>, user: Seq<char>, now: i64, f: FileRecord)
    requires
        now >= i64::MIN + TRASH_RETENTION_SECS,
        s.contains(f),
        f.deleted_at is Some,
    ensures
        TRASH_RETENTION_SECS == 30 * SECS_PER_DAY,
        f.deleted_at->0 > now - TRASH_RETENTION_SECS ==>
            s.filter(file_not(file_expired(user, (now - TRASH_RETENTION_SECS) as i64))).contains(f),
        f.user_id@ == user && f.deleted_at->0 <= now - TRASH_RETENTION_SECS ==>
            !s.filter(file_not(file_expired(user, (now - TRASH_RETENTION_SECS) as i64))).contains(f),
{
    let p = file_not(file_expired(user, (now - TRASH_RETENTION_SECS) as i64));
    if f.deleted_at->0 > now - TRASH_RETENTION_SECS {
        s.lemma_filter_contains_rev(p, f);
    }
    if f.user_id@ == user && f.deleted_at->0 <= now - TRASH_RETENTION_SECS {
        if s.filter(p).contains(f) {
            let k = choose|k: int| 0 <= k < s.filter(p).len() && s.filter(p)[k] == f;
            s.lemma_filter_pred(p, k);
        }
    }
}

/// Law: purging the trash at a cutoff removes exactly the user's items
/// trashed at or before the cutoff: none of them remains, and every other
/// file remains.
pub proof fn law_purge_removes_exactly_expired(s: Seq<FileRecord>, user: Seq<char>, cutoff: i64)
    ensures
        forall|i: int| 0 <= i < s.filter(file_not(file_expired(user, cutoff))).len() ==>
            !file_expired(user, cutoff)(#[trigger] s.filter(file_not(file_expired(user, cutoff)))[i]),
        forall|f: FileRecord| s.contains(f) && !file_expired(user, cutoff)(f) ==> #[trigger] s.filter(file_not(file_expired(user, cutoff))).contains(f),
{
    crate::seqs::lemma_filter_all(s, file_not(file_expired(user, cutoff)));
    assert forall|f: FileRecord| s.contains(f) && !file_expired(user, cutoff)(f) implies #[trigger] s.filter(file_not(file_expired(user, cutoff))).contains(f) by {
        s.lemma_filter_contains_rev(file_not(file_expired(user, cutoff)), f);
    }
}

/// What changing the live folder `id` of `user` as `req` asks does to the
/// folders `old`, giving `new` and answering `r` (for a request whose name,
/// if any, is not blank).
pub open spec fn folder_updated(old: Seq<FolderRecord>, new: Seq<FolderRecord>, user: Seq<char>, id: Seq<char>, req: UpdateFolderRequest, r: Result<FolderRecord, ApiError>) -> bool {
    exists|c: UpdateFolderRecord| {
        &&& opt_chars(c.name) == match req.name { Some(n) => Some(trimmed(n@)), None => None }
        &&& c.color == req.color
        &&& c.is_starred == req.is_starred
        &&& c.parent_id is None
        &&& #[trigger] old.map_values(update_folder_fn(id, user, c)) == new
        &&& match last_where(new, live_folder(id, user)) {
            Some(f) => r == Ok::<FolderRecord, ApiError>(f),
            None => r == Err::<FolderRecord, ApiError>(ApiError::FolderNotFound),
        }
    }
}

/// Law: changing a live folder gives it the trimmed new name, colour and
/// star that the request names, keeps what it leaves out, and keeps the
/// folder where it was; a folder that is not there is `FolderNotFound`.
pub proof fn law_update_folder_applies(old: Seq<FolderRecord>, new: Seq<FolderRecord>, user: Seq<char>, id: Seq<char>, req: UpdateFolderRequest, r: Result<FolderRecord, ApiError>)
    requires
        folder_updated(old, new, user, id, req, r),
    ensures
        match last_where(old, live_folder(id, user)) {
            Some(of) => r matches Ok(f) && {
                &&& f.name@ == match req.name { Some(n) => trimmed(n@), None => of.name@ }
                &&& f.color == match req.color { Some(x) => x, None => of.color }
                &&& f.is_starred == match req.is_starred { Some(x) => x, None => of.is_starred }
                &&& f.parent_id == of.parent_id
                &&& f.id == of.id
                &&& f.user_id == of.user_id
                &&& f.deleted_at == of.deleted_at
                &&& f.created_at == of.created_at
            },
            None => r == Err::<FolderRecord, ApiError>(ApiError::FolderNotFound),
        },
{
    let c = choose|c: UpdateFolderRecord| {
        &&& opt_chars(c.name) == match req.name { Some(n) => Some(trimmed(n@)), None => None }
        &&& c.color == req.color
        &&& c.is_starred == req.is_starred
        &&& c.parent_id is None
        &&& #[trigger] old.map_values(update_folder_fn(id, user, c)) == new
        &&& match last_where(new, live_folder(id, user)) {
            Some(f) => r == Ok::<FolderRecord, ApiError>(f),
            None => r == Err::<FolderRecord, ApiError>(ApiError::FolderNotFound),
        }
    };
    let g = update_folder_fn(id, user, c);
    let p = live_folder(id, user);
    assert forall|x: FolderRecord| #[trigger] p(g(x)) == p(x) by {}
    lemma_last_where_map(old, g, p);
}

/// Law: a bulk move puts every listed live file of the user in the target
/// folder and stamps it with the time of the move, keeping everything else
/// about it; every other file is untouched.
pub proof fn law_bulk_move_places_files(files: Seq<FileRecord>, after: Seq<FileRecord>, ids: Seq<Seq<char>>, user: Seq<char>, target: Option<String>, now: i64)
    requires
        after == files.map_values(bulk_move_file_fn(ids, user, target, now)),
    ensures
        after.len() == files.len(),
        forall|i: int| #![trigger after[i]] 0 <= i < files.len() && ids.contains(files[i].id@) && files[i].user_id@ == user && files[i].deleted_at is None ==> {
            &&& after[i].folder_id == target
            &&& after[i].updated_at == now
            &&& after[i].id == files[i].id
            &&& after[i].user_id == files[i].user_id
            &&& after[i].name == files[i].name
            &&& after[i].size_bytes == files[i].size_bytes
            &&& after[i].mime_type == files[i].mime_type
            &&& after[i].storage_path == files[i].storage_path
            &&& after[i].is_starred == files[i].is_starred
            &&& after[i].deleted_at == files[i].deleted_at
            &&& after[i].created_at == files[i].created_at
        },
        forall|i: int| #![trigger after[i]] 0 <= i < files.len() && !(ids.contains(files[i].id@) && files[i].user_id@ == user && files[i].deleted_at is None) ==>
            after[i] == files[i],
{
}

/// Law: a bulk move puts every listed live folder of the user under the
/// target folder and stamps it with the time of the move, keeping
/// everything else about it; every other folder is untouched.
pub proof fn law_bulk_move_places_folders(folders: Seq<FolderRecord>, after: Seq<FolderRecord>, ids: Seq<Seq<char>>, user: Seq<char>, target: Option<String>, now: i64)
    requires
        after == folders.map_values(bulk_move_folder_fn(ids, user, target, now)),
    ensures
        after.len() == folders.len(),
        forall|i: int| #![trigger after[i]] 0 <= i < folders.len() && ids.contains(folders[i].id@) && folders[i].user_id@ == user && folders[i].deleted_at is None ==> {
            &&& after[i].parent_id == target
            &&& after[i].updated_at == now
            &&& after[i].id == folders[i].id
            &&& after[i].user_id == folders[i].user_id
            &&& after[i].name == folders[i].name
            &&& after[i].color == folders[i].color
            &&& after[i].is_starred == folders[i].is_starred
            &&& after[i].deleted_at == folders[i].deleted_at
            &&& after[i].created_at == folders[i].created_at
        },
        forall|i: int| #![trigger after[i]] 0 <= i < folders.len() && !(ids.contains(folders[i].id@) && folders[i].user_id@ == user && folders[i].deleted_at is None) ==>
            after[i] == folders[i],
{
}

/// Law: renaming, moving or starring a live file of the user sets exactly
/// the named fields (a name as given, a folder, a star), keeps the others,
/// and moves its update time to `now` only when something is named; any
/// other file is untouched.
pub proof fn law_update_file_row(f: FileRecord, id: Seq<char>, user: Seq<char>, c: FileChange, now: i64)
    ensures
        f.id@ == id && f.user_id@ == user && f.deleted_at is None ==> {
            let g = update_file_fn(id, user, c, now)(f);
            &&& g.name == match c.name { Some(n) => n, None => f.name }
            &&& g.folder_id == match c.folder_id { Some(x) => x, None => f.folder_id }
            &&& g.is_starred == match c.is_starred { Some(x) => x, None => f.is_starred }
            &&& (c.name is Some || c.folder_id is Some || c.is_starred is Some ==> g.updated_at == now)
            &&& (c.name is None && c.folder_id is None && c.is_starred is None ==> g == f)
            &&& g.id == f.id && g.user_id == f.user_id && g.size_bytes == f.size_bytes
            &&& g.storage_path == f.storage_path && g.mime_type == f.mime_type
            &&& g.deleted_at == f.deleted_at && g.created_at == f.created_at
        },
        !(f.id@ == id && f.user_id@ == user && f.deleted_at is None) ==> update_file_fn(id, user, c, now)(f) == f,
{
}

/// Law: trashing and restoring a file. Trashing the user's live file marks
/// it deleted at `now`; restoring the user's trashed file clears the mark;
/// both stamp `now` and keep everything else; other files are untouched.
pub proof fn law_trash_restore_file_row(f: FileRecord, id: Seq<char>, user: Seq<char>, now: i64)
    ensures
        f.id@ == id && f.user_id@ == user && f.deleted_at is None ==> {
            let g = trash_file_fn(id, user, now)(f);
            g.deleted_at == Some(now) && g.updated_at == now && g.id == f.id && g.name == f.name
                && g.folder_id == f.folder_id && g.user_id == f.user_id && g.storage_path == f.storage_path
        },
        !(f.id@ == id && f.user_id@ == user && f.deleted_at is None) ==> trash_file_fn(id, user, now)(f) == f,
        f.id@ == id && f.user_id@ == user && f.deleted_at is Some ==> {
            let g = restore_file_fn(id, user, now)(f);
            g.deleted_at is None && g.updated_at == now && g.id == f.id && g.name == f.name
                && g.folder_id == f.folder_id && g.user_id == f.user_id && g.storage_path == f.storage_path
        },
        !(f.id@ == id && f.user_id@ == user && f.deleted_at is Some) ==> restore_file_fn(id, user, now)(f) == f,
{
}

/// Law: a bulk trash marks every listed live file of the user deleted at
/// `now`, keeping the rest of it; other files are untouched.
pub proof fn law_bulk_trash_file_row(f: FileRecord, ids: Seq<Seq<char>>, user: Seq<char>, now: i64)
    ensures
        ids.contains(f.id@) && f.user_id@ == user && f.deleted_at is None ==> {
            let g = bulk_trash_file_fn(ids, user, now)(f);
            g.deleted_at == Some(now) && g.updated_at == now && g.id == f.id && g.name == f.name
                && g.folder_id == f.folder_id && g.user_id == f.user_id && g.storage_path == f.storage_path
        },
        !(ids.contains(f.id@) && f.user_id@ == user && f.deleted_at is None) ==> bulk_trash_file_fn(ids, user, now)(f) == f,
{
}

/// Law: changing a live folder of the user sets exactly the named fields
/// (name, colour, star, parent), stamps the change's time and keeps the
/// rest; other folders are untouched.
pub proof fn law_update_folder_row(f: FolderRecord, id: Seq<char>, user: Seq<char>, c: UpdateFolderRecord)
    ensures
        f.id@ == id && f.user_id@ == user && f.deleted_at is None ==> {
            let g = update_folder_fn(id, user, c)(f);
            &&& g.name == match c.name { Some(n) => n, None => f.name }
            &&& g.color == match c.color { Some(x) => x, None => f.color }
            &&& g.is_starred == match c.is_starred { Some(x) => x, None => f.is_starred }
            &&& g.parent_id == match c.parent_id { Some(x) => x, None => f.parent_id }
            &&& g.updated_at == c.updated_at
            &&& g.id == f.id && g.user_id == f.user_id && g.deleted_at == f.deleted_at && g.created_at == f.created_at
        },
        !(f.id@ == id && f.user_id@ == user && f.deleted_at is None) ==> update_folder_fn(id, user, c)(f) == f,
{
}

/// Law: trashing, restoring and bulk-trashing folders. Trashing the user's
/// live folder (or a listed one) marks it deleted at `now`; restoring the
/// user's trashed folder clears the mark; each stamps `now` and keeps the
/// rest; other folders are untouched.
pub proof fn law_trash_restore_folder_row(f: FolderRecord, id: Seq<char>, ids: Seq<Seq<char>>, user: Seq<char>, now: i64)
    ensures
        f.id@ == id && f.user_id@ == user && f.deleted_at is None ==> {
            let g = trash_folder_fn(id, user, now)(f);
            g.deleted_at == Some(now) && g.updated_at == now && g.id == f.id && g.name == f.name
                && g.parent_id == f.parent_id && g.user_id == f.user_id
        },
        !(f.id@ == id && f.user_id@ == user && f.deleted_at is None) ==> trash_folder_fn(id, user, now)(f) == f,
        f.id@ == id && f.user_id@ == user && f.deleted_at is Some ==> {
            let g = restore_folder_fn(id, user, now)(f);
            g.deleted_at is None && g.updated_at == now && g.id == f.id && g.name == f.name
                && g.parent_id == f.parent_id && g.user_id == f.user_id
        },
        !(f.id@ == id && f.user_id@ == user && f.deleted_at is Some) ==> restore_folder_fn(id, user, now)(f) == f,
        ids.contains(f.id@) && f.user_id@ == user && f.deleted_at is None ==> {
            let g = bulk_trash_folder_fn(ids, user, now)(f);
            g.deleted_at == Some(now) && g.updated_at == now && g.id == f.id && g.name == f.name
                && g.parent_id == f.parent_id && g.user_id == f.user_id
        },
        !(ids.contains(f.id@) && f.user_id@ == user && f.deleted_at is None) ==> bulk_trash_folder_fn(ids, user, now)(f) == f,
{
}

} // verus!
