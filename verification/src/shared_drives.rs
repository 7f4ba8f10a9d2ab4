//! Shared drives: drives owned by a team rather than a user, with members
//! in five roles. Only managers change a drive or its members, and a drive
//! never loses its last manager.
use vstd::prelude::*;
use crate::error::ApiError;
use crate::auth::AuthenticatedUser;
use crate::text::{str_eq, clone_opt, id_list, contains_id, fresh_id};
use crate::rows::{Duplicate, find_last, last_where, select, count_where, rewrite, lemma_last_where_kept,
    lemma_last_where_dropped, lemma_last_where_push};
use crate::seqs::{lemma_filter_filter, lemma_filter_ext, lemma_filter_split_len, lemma_filter_none,
    lemma_filter_single, lemma_len_one, lemma_map_filter_same, lemma_filter_some};
use crate::runtime::{new_uuid, now_utc};

verus! {

broadcast use vstd::seq_lib::group_seq_properties, vstd::seq::group_seq_axioms;

/// A member's role in a shared drive.
#[derive(Debug, Clone, Copy, PartialEq, Eq, Structural)]
pub enum DriveRole {
    Manager,
    ContentManager,
    Contributor,
    Commenter,
    Viewer,
}

/// The stored name of a drive role.
pub open spec fn drive_role_name(r: DriveRole) -> Seq<char> {
    match r {
        DriveRole::Manager => "manager"@,
        DriveRole::ContentManager => "content_manager"@,
        DriveRole::Contributor => "contributor"@,
        DriveRole::Commenter => "commenter"@,
        DriveRole::Viewer => "viewer"@,
    }
}

/// The drive role whose stored name is `s`, if any.
pub open spec fn drive_role_named(s: Seq<char>) -> Option<DriveRole> {
    if s == "manager"@ {
        Some(DriveRole::Manager)
    } else if s == "content_manager"@ {
        Some(DriveRole::ContentManager)
    } else if s == "contributor"@ {
        Some(DriveRole::Contributor)
    } else if s == "commenter"@ {
        Some(DriveRole::Commenter)
    } else if s == "viewer"@ {
        Some(DriveRole::Viewer)
    } else {
        None
    }
}

impl DriveRole {
    /// The stored name of this role.
    pub fn as_str(&self) -> (s: &'static str)
        ensures
            s@ == drive_role_name(*self),
    {
        match self {
            DriveRole::Manager => "manager",
            DriveRole::ContentManager => "content_manager",
            DriveRole::Contributor => "contributor",
            DriveRole::Commenter => "commenter",
            DriveRole::Viewer => "viewer",
        }
    }

    /// The role whose stored name is `s`; only the five roles are valid.
    pub fn parse(s: &str) -> (r: Option<DriveRole>)
        ensures
            r == drive_role_named(s@),
    {
        if str_eq(s, "manager") {
            Some(DriveRole::Manager)
        } else if str_eq(s, "content_manager") {
            Some(DriveRole::ContentManager)
        } else if str_eq(s, "contributor") {
            Some(DriveRole::Contributor)
        } else if str_eq(s, "commenter") {
            Some(DriveRole::Commenter)
        } else if str_eq(s, "viewer") {
            Some(DriveRole::Viewer)
        } else {
            None
        }
    }
}

/// One row of the shared drives table.
#[derive(Debug)]
pub struct SharedDrive {
    pub id: String,
    pub name: String,
    pub description: Option<String>,
    pub created_by: String,
    pub storage_used_bytes: i64,
    pub created_at: i64,
    pub updated_at: i64,
}

impl Duplicate for SharedDrive {
    fn duplicate(&self) -> (r: Self) {
        SharedDrive {
            id: self.id.clone(),
            name: self.name.clone(),
            description: clone_opt(&self.description),
            created_by: self.created_by.clone(),
            storage_used_bytes: self.storage_used_bytes,
            created_at: self.created_at,
            updated_at: self.updated_at,
        }
    }
}

/// One row of the shared drive members table.
#[derive(Debug)]
pub struct SharedDriveMember {
    pub id: String,
    pub shared_drive_id: String,
    pub user_id: String,
    pub user_email: String,
    pub user_name: String,
    pub role: DriveRole,
    pub added_by: String,
    pub created_at: i64,
}

impl Duplicate for SharedDriveMember {
    fn duplicate(&self) -> (r: Self) {
        SharedDriveMember {
            id: self.id.clone(),
            shared_drive_id: self.shared_drive_id.clone(),
            user_id: self.user_id.clone(),
            user_email: self.user_email.clone(),
            user_name: self.user_name.clone(),
            role: self.role,
            added_by: self.added_by.clone(),
            created_at: self.created_at,
        }
    }
}

/// Selects the drive `id`.
pub open spec fn drive_with_id(id: Seq<char>) -> spec_fn(SharedDrive) -> bool {
    |d: SharedDrive| d.id@ == id
}

/// Selects every drive but `id`.
pub open spec fn drive_not_id(id: Seq<char>) -> spec_fn(SharedDrive) -> bool {
    |d: SharedDrive| d.id@ != id
}

/// Selects the drives whose id is listed in `ids`.
pub open spec fn drive_listed(ids: Seq<Seq<char>>) -> spec_fn(SharedDrive) -> bool {
    |d: SharedDrive| ids.contains(d.id@)
}

/// Selects the membership of `user` in `drive`.
pub open spec fn member_key(drive: Seq<char>, user: Seq<char>) -> spec_fn(SharedDriveMember) -> bool {
    |m: SharedDriveMember| m.shared_drive_id@ == drive && m.user_id@ == user
}

/// Selects every membership but that of `user` in `drive`.
pub open spec fn member_not_key(drive: Seq<char>, user: Seq<char>) -> spec_fn(SharedDriveMember) -> bool {
    |m: SharedDriveMember| !(m.shared_drive_id@ == drive && m.user_id@ == user)
}

/// Selects the memberships of `drive`.
pub open spec fn member_of_drive(drive: Seq<char>) -> spec_fn(SharedDriveMember) -> bool {
    |m: SharedDriveMember| m.shared_drive_id@ == drive
}

/// Selects the memberships of `user`.
pub open spec fn member_of_user(user: Seq<char>) -> spec_fn(SharedDriveMember) -> bool {
    |m: SharedDriveMember| m.user_id@ == user
}

/// Selects the managers of `drive`.
pub open spec fn manager_of(drive: Seq<char>) -> spec_fn(SharedDriveMember) -> bool {
    |m: SharedDriveMember| m.shared_drive_id@ == drive && m.role == DriveRole::Manager
}

/// How many managers `drive` has.
pub open spec fn manager_count(s: Seq<SharedDriveMember>, drive: Seq<char>) -> nat {
    s.filter(manager_of(drive)).len()
}

/// The role of `user` in `drive`, if a member.
pub open spec fn member_role(s: Seq<SharedDriveMember>, drive: Seq<char>, user: Seq<char>) -> Option<DriveRole> {
    match last_where(s, member_key(drive, user)) {
        Some(m) => Some(m.role),
        None => None,
    }
}

/// No user belongs to a drive twice.
pub open spec fn one_membership(s: Seq<SharedDriveMember>) -> bool {
    forall|i: int, j: int| #![trigger s[i], s[j]] 0 <= i < j < s.len() ==>
        !(s[i].shared_drive_id@ == s[j].shared_drive_id@ && s[i].user_id@ == s[j].user_id@)
}

/// The ids of the drives that `user` belongs to.
pub open spec fn drive_ids_of(s: Seq<SharedDriveMember>, user: Seq<char>) -> Seq<Seq<char>> {
    s.filter(member_of_user(user)).map_values(|m: SharedDriveMember| m.shared_drive_id@)
}

/// Gives the membership of `user` in `drive` the role `role`.
pub open spec fn role_set_fn(drive: Seq<char>, user: Seq<char>, role: DriveRole) -> spec_fn(SharedDriveMember) -> SharedDriveMember {
    |m: SharedDriveMember| if member_key(drive, user)(m) { SharedDriveMember { role, ..m } } else { m }
}

/// Renames the drive `id` at time `now`.
pub open spec fn name_fn(id: Seq<char>, name: String, now: i64) -> spec_fn(SharedDrive) -> SharedDrive {
    |d: SharedDrive| if d.id@ == id { SharedDrive { name, updated_at: now, ..d } } else { d }
}

/// Sets the description of the drive `id` at time `now`.
pub open spec fn description_fn(id: Seq<char>, description: Option<String>, now: i64) -> spec_fn(SharedDrive) -> SharedDrive {
    |d: SharedDrive| if d.id@ == id { SharedDrive { description, updated_at: now, ..d } } else { d }
}

/// Whether `d` is the drive `k`.
pub fn is_drive_with_id(k: &&str, d: &SharedDrive) -> (b: bool)
    ensures
        b == drive_with_id(k@)(*d),
{
    str_eq(d.id.as_str(), *k)
}

/// Whether `d` is any drive but `k`.
pub fn is_drive_not_id(k: &&str, d: &SharedDrive) -> (b: bool)
    ensures
        b == drive_not_id(k@)(*d),
{
    !str_eq(d.id.as_str(), *k)
}

/// Whether `d` is listed in `k`.
pub fn is_drive_listed(k: &&Vec<String>, d: &SharedDrive) -> (b: bool)
    ensures
        b == drive_listed(id_list(k@))(*d),
{
    contains_id(*k, d.id.as_str())
}

/// Whether `m` is the membership `k`.
pub fn is_member_key(k: &(&str, &str), m: &SharedDriveMember) -> (b: bool)
    ensures
        b == member_key(k.0@, k.1@)(*m),
{
    str_eq(m.shared_drive_id.as_str(), k.0) && str_eq(m.user_id.as_str(), k.1)
}

/// Whether `m` is any membership but `k`.
pub fn is_member_not_key(k: &(&str, &str), m: &SharedDriveMember) -> (b: bool)
    ensures
        b == member_not_key(k.0@, k.1@)(*m),
{
    !(str_eq(m.shared_drive_id.as_str(), k.0) && str_eq(m.user_id.as_str(), k.1))
}

/// Whether `m` belongs to the drive `k`.
pub fn is_member_of_drive(k: &&str, m: &SharedDriveMember) -> (b: bool)
    ensures
        b == member_of_drive(k@)(*m),
{
    str_eq(m.shared_drive_id.as_str(), *k)
}

/// Whether `m` is a manager of the drive `k`.
pub fn is_manager_of(k: &&str, m: &SharedDriveMember) -> (b: bool)
    ensures
        b == manager_of(k@)(*m),
{
    str_eq(m.shared_drive_id.as_str(), *k) && m.role == DriveRole::Manager
}

/// The membership `m` with the role of `k.2`, if it is `(k.0, k.1)`.
pub fn apply_role_set(k: &(&str, &str, DriveRole), m: &SharedDriveMember) -> (r: SharedDriveMember)
    ensures
        r == role_set_fn(k.0@, k.1@, k.2)(*m),
{
    let mut r = m.duplicate();
    if is_member_key(&(k.0, k.1), m) {
        r.role = k.2;
    }
    r
}

/// The drive `d` renamed as `k` says.
pub fn apply_name(k: &(&str, &String, i64), d: &SharedDrive) -> (r: SharedDrive)
    ensures
        r == name_fn(k.0@, *k.1, k.2)(*d),
{
    let mut r = d.duplicate();
    if str_eq(d.id.as_str(), k.0) {
        r.name = k.1.clone();
        r.updated_at = k.2;
    }
    r
}

/// The drive `d` with the description that `k` says.
pub fn apply_description(k: &(&str, &Option<String>, i64), d: &SharedDrive) -> (r: SharedDrive)
    ensures
        r == description_fn(k.0@, *k.1, k.2)(*d),
{
    let mut r = d.duplicate();
    if str_eq(d.id.as_str(), k.0) {
        r.description = clone_opt(k.1);
        r.updated_at = k.2;
    }
    r
}

/// The shared drives and their members.
pub struct SharedDrivesRepository {
    pub drives: Vec<SharedDrive>,
    pub members: Vec<SharedDriveMember>,
}

impl SharedDrivesRepository {
    /// A repository over `drives` and `members`.
    pub fn new(drives: Vec<SharedDrive>, members: Vec<SharedDriveMember>) -> (r: Self)
        ensures
            r.drives@ == drives@,
            r.members@ == members@,
    {
        SharedDrivesRepository { drives, members }
    }

    /// No user belongs to a drive twice.
    pub open spec fn wf(&self) -> bool {
        one_membership(self.members@)
    }

    /// Whether the tables keep their invariant: no user is a member of one
    /// drive twice.
    pub fn check_wf(&self) -> (b: bool)
        ensures
            b == self.wf(),
    {
        let n = self.members.len();
        let mut i: usize = 0;
        while i < n
            invariant
                n == self.members@.len(),
                i <= n,
                forall|a: int, c: int| #![trigger self.members@[a], self.members@[c]] 0 <= a < i && a < c < n ==>
                    !(self.members@[a].shared_drive_id@ == self.members@[c].shared_drive_id@
                        && self.members@[a].user_id@ == self.members@[c].user_id@),
            decreases n - i,
        {
            let mut j: usize = i + 1;
            while j < n
                invariant
                    n == self.members@.len(),
                    i < n,
                    i + 1 <= j <= n,
                    forall|a: int, c: int| #![trigger self.members@[a], self.members@[c]] 0 <= a < i && a < c < n ==>
                        !(self.members@[a].shared_drive_id@ == self.members@[c].shared_drive_id@
                            && self.members@[a].user_id@ == self.members@[c].user_id@),
                    forall|c: int| #![trigger self.members@[c]] i < c < j ==>
                        !(self.members@[i as int].shared_drive_id@ == self.members@[c].shared_drive_id@
                            && self.members@[i as int].user_id@ == self.members@[c].user_id@),
                decreases n - j,
            {
                if str_eq(self.members[i].shared_drive_id.as_str(), self.members[j].shared_drive_id.as_str())
                    && str_eq(self.members[i].user_id.as_str(), self.members[j].user_id.as_str()) {
                    return false;
                }
                j += 1;
            }
            i += 1;
        }
        true
    }

    /// Adds a drive; returns the stored row.
    pub fn create(&mut self, drive: SharedDrive) -> (r: SharedDrive)
        ensures
            r == drive,
            final(self).drives@ == old(self).drives@.push(drive),
            final(self).members@ == old(self).members@,
    {
        let r = drive.duplicate();
        self.drives.push(drive);
        r
    }

    /// The drive ids in use: those of the drives, then those that member
    /// rows name.
    pub fn ids_in_use(&self) -> (ids: Vec<String>)
        ensures
            id_list(ids@) == drive_ids_in_use(self.drives@, self.members@),
    {
        let mut ids: Vec<String> = Vec::new();
        for i in 0..self.drives.len()
            invariant
                ids@.len() == i,
                forall|k: int| 0 <= k < i ==> #[trigger] ids@[k]@ == self.drives@[k].id@,
        {
            ids.push(self.drives[i].id.clone());
        }
        let n = self.drives.len();
        for j in 0..self.members.len()
            invariant
                n == self.drives@.len(),
                ids@.len() == n + j,
                forall|k: int| 0 <= k < n ==> #[trigger] ids@[k]@ == self.drives@[k].id@,
                forall|k: int| 0 <= k < j ==> #[trigger] ids@[n + k]@ == self.members@[k].shared_drive_id@,
        {
            ids.push(self.members[j].shared_drive_id.clone());
        }
        assert(id_list(ids@) =~= drive_ids_in_use(self.drives@, self.members@)) by {
            assert forall|k: int| n <= k < ids@.len() implies #[trigger] ids@[k]@ == self.members@[k - n].shared_drive_id@ by {
                assert(ids@[n + (k - n)]@ == self.members@[k - n].shared_drive_id@);
            }
        }
        ids
    }

    /// The drive `id`.
    pub fn find_by_id(&self, id: &str) -> (r: Option<SharedDrive>)
        ensures
            r == last_where(self.drives@, drive_with_id(id@)),
    {
        match find_last(&self.drives, is_drive_with_id, &id, Ghost(drive_with_id(id@))) {
            Some(j) => Some(self.drives[j].duplicate()),
            None => None,
        }
    }

    /// The ids of the drives that `user_id` belongs to.
    pub fn drive_ids_for_user(&self, user_id: &str) -> (ids: Vec<String>)
        ensures
            id_list(ids@) == drive_ids_of(self.members@, user_id@),
    {
        let mine = select(&self.members, is_member_of_user, &user_id, Ghost(member_of_user(user_id@)));
        let mut ids: Vec<String> = Vec::new();
        for i in 0..mine.len()
            invariant
                ids@.len() == i,
                forall|k: int| 0 <= k < i ==> #[trigger] ids@[k]@ == mine@[k].shared_drive_id@,
        {
            ids.push(mine[i].shared_drive_id.clone());
        }
        assert(id_list(ids@) =~= drive_ids_of(self.members@, user_id@));
        ids
    }

    /// The drives that `user_id` belongs to, in table order.
    pub fn list_for_user(&self, user_id: &str) -> (r: Vec<SharedDrive>)
        ensures
            r@ == self.drives@.filter(drive_listed(drive_ids_of(self.members@, user_id@))),
    {
        let ids = self.drive_ids_for_user(user_id);
        select(&self.drives, is_drive_listed, &&ids, Ghost(drive_listed(id_list(ids@))))
    }

    /// Renames the drive `id` where a name is given, then sets its
    /// description where one is given, at time `now`.
    pub fn update_name_description(&mut self, id: &str, name: &Option<String>, description: &Option<Option<String>>, now: i64)
        ensures
            final(self).drives@ == {
                let s1 = match name {
                    Some(n) => old(self).drives@.map_values(name_fn(id@, *n, now)),
                    None => old(self).drives@,
                };
                match description {
                    Some(d) => s1.map_values(description_fn(id@, *d, now)),
                    None => s1,
                }
            },
            final(self).members@ == old(self).members@,
    {
        if let Some(n) = name {
            self.drives = rewrite(&self.drives, apply_name, &(id, n, now), Ghost(name_fn(id@, *n, now)));
        }
        if let Some(d) = description {
            self.drives = rewrite(&self.drives, apply_description, &(id, d, now), Ghost(description_fn(id@, *d, now)));
        }
    }

    /// Removes the drive `id` (its memberships stay).
    pub fn delete(&mut self, id: &str)
        ensures
            final(self).drives@ == old(self).drives@.filter(drive_not_id(id@)),
            final(self).members@ == old(self).members@,
    {
        self.drives = select(&self.drives, is_drive_not_id, &id, Ghost(drive_not_id(id@)));
    }

    /// Adds `member` to its drive, unless its user already belongs there.
    pub fn add_member(&mut self, member: SharedDriveMember) -> (r: Result<SharedDriveMember, ApiError>)
        ensures
            final(self).drives@ == old(self).drives@,
            last_where(old(self).members@, member_key(member.shared_drive_id@, member.user_id@)) is Some ==>
                r == Err::<SharedDriveMember, ApiError>(ApiError::AlreadyMember) && final(self).members@ == old(self).members@,
            last_where(old(self).members@, member_key(member.shared_drive_id@, member.user_id@)) is None ==>
                r == Ok::<SharedDriveMember, ApiError>(member) && final(self).members@ == old(self).members@.push(member),
    {
        if self.find_member(member.shared_drive_id.as_str(), member.user_id.as_str()).is_some() {
            return Err(ApiError::AlreadyMember);
        }
        let r = member.duplicate();
        self.members.push(member);
        Ok(r)
    }

    /// The membership of `user_id` in `drive_id`.
    pub fn find_member(&self, drive_id: &str, user_id: &str) -> (r: Option<SharedDriveMember>)
        ensures
            r == last_where(self.members@, member_key(drive_id@, user_id@)),
    {
        match find_last(&self.members, is_member_key, &(drive_id, user_id), Ghost(member_key(drive_id@, user_id@))) {
            Some(j) => Some(self.members[j].duplicate()),
            None => None,
        }
    }

    /// The members of `drive_id`, in table order.
    pub fn list_members(&self, drive_id: &str) -> (r: Vec<SharedDriveMember>)
        ensures
            r@ == self.members@.filter(member_of_drive(drive_id@)),
    {
        select(&self.members, is_member_of_drive, &drive_id, Ghost(member_of_drive(drive_id@)))
    }

    /// Gives `user_id` the role `role` in `drive_id`.
    pub fn update_member_role(&mut self, drive_id: &str, user_id: &str, role: DriveRole)
        ensures
            final(self).members@ == old(self).members@.map_values(role_set_fn(drive_id@, user_id@, role)),
            final(self).drives@ == old(self).drives@,
    {
        self.members = rewrite(&self.members, apply_role_set, &(drive_id, user_id, role), Ghost(role_set_fn(drive_id@, user_id@, role)));
    }

    /// Removes `user_id` from `drive_id`.
    pub fn remove_member(&mut self, drive_id: &str, user_id: &str)
        ensures
            final(self).members@ == old(self).members@.filter(member_not_key(drive_id@, user_id@)),
            final(self).drives@ == old(self).drives@,
    {
        self.members = select(&self.members, is_member_not_key, &(drive_id, user_id), Ghost(member_not_key(drive_id@, user_id@)));
    }

    /// How many members `drive_id` has.
    pub fn count_members(&self, drive_id: &str) -> (c: usize)
        ensures
            c == self.members@.filter(member_of_drive(drive_id@)).len(),
    {
        count_where(&self.members, is_member_of_drive, &drive_id, Ghost(member_of_drive(drive_id@)))
    }

    /// How many managers `drive_id` has.
    pub fn count_managers(&self, drive_id: &str) -> (c: usize)
        ensures
            c == manager_count(self.members@, drive_id@),
    {
        count_where(&self.members, is_manager_of, &drive_id, Ghost(manager_of(drive_id@)))
    }
}

/// Whether `m` belongs to the user `k`.
pub fn is_member_of_user(k: &&str, m: &SharedDriveMember) -> (b: bool)
    ensures
        b == member_of_user(k@)(*m),
{
    str_eq(m.user_id.as_str(), *k)
}

/// What the caller may do given its role in a drive: managers pass; other
/// members need the manager role; others are not members.
pub open spec fn manager_check(caller_role: Option<DriveRole>) -> Result<(), ApiError> {
    match caller_role {
        Some(DriveRole::Manager) => Ok(()),
        Some(_) => Err(ApiError::ManagerRequired),
        None => Err(ApiError::NotDriveMember),
    }
}

/// What removing `target` from `drive` does to the members `s` when the
/// caller's role there is `caller_role`.
pub open spec fn remove_outcome(s: Seq<SharedDriveMember>, caller_role: Option<DriveRole>, drive: Seq<char>, target: Seq<char>) -> (Result<(), ApiError>, Seq<SharedDriveMember>) {
    match manager_check(caller_role) {
        Err(e) => (Err(e), s),
        Ok(_) => match last_where(s, member_key(drive, target)) {
            None => (Err(ApiError::MemberNotFound), s),
            Some(m) => if m.role == DriveRole::Manager && manager_count(s, drive) <= 1 {
                (Err(ApiError::LastManagerRemove), s)
            } else {
                (Ok(()), s.filter(member_not_key(drive, target)))
            },
        },
    }
}

/// What giving `target` the role named `role` in `drive` does to the
/// members `s` when the caller's role there is `caller_role`.
pub open spec fn role_change_outcome(s: Seq<SharedDriveMember>, caller_role: Option<DriveRole>, drive: Seq<char>, target: Seq<char>, role: Seq<char>) -> (Result<(), ApiError>, Seq<SharedDriveMember>) {
    match manager_check(caller_role) {
        Err(e) => (Err(e), s),
        Ok(_) => match drive_role_named(role) {
            None => (Err(ApiError::InvalidRole), s),
            Some(r) => if r != DriveRole::Manager {
                match last_where(s, member_key(drive, target)) {
                    None => (Err(ApiError::MemberNotFound), s),
                    Some(m) => if m.role == DriveRole::Manager && manager_count(s, drive) <= 1 {
                        (Err(ApiError::LastManagerDemote), s)
                    } else {
                        (Ok(()), s.map_values(role_set_fn(drive, target, r)))
                    },
                }
            } else {
                (Ok(()), s.map_values(role_set_fn(drive, target, r)))
            },
        },
    }
}

/// A drive as a caller sees it: with its member count and the caller's role.
#[derive(Debug)]
pub struct SharedDriveView {
    pub drive: SharedDrive,
    pub member_count: usize,
    /// The caller's role, `None` for an admin who is not a member.
    pub user_role: Option<DriveRole>,
}

/// The figures of a drive.
#[derive(Debug)]
pub struct SharedDriveAnalytics {
    pub id: String,
    pub name: String,
    pub storage_used_bytes: i64,
    pub member_count: usize,
    pub file_count: i64,
}

/// A request to create a shared drive.
pub struct CreateSharedDriveRequest {
    pub name: String,
    pub description: Option<String>,
}

/// A request to rename a shared drive or change its description.
pub struct UpdateSharedDriveRequest {
    pub name: Option<String>,
    pub description: Option<String>,
}

/// A request to add a member to a shared drive.
pub struct AddMemberRequest {
    pub user_id: String,
    pub user_email: String,
    pub user_name: String,
    pub role: String,
}

/// A request to change a member's role.
pub struct UpdateMemberRoleRequest {
    pub role: String,
}

/// The shared drive rules over a repository.
pub struct SharedDrivesService {
    pub repo: SharedDrivesRepository,
}

/// What creating a shared drive for `user` at `now` does to the service
/// `old_s`, giving `new_s` and answering `r`.
pub open spec fn drive_created(old_s: SharedDrivesService, new_s: SharedDrivesService, user: &AuthenticatedUser, req: CreateSharedDriveRequest, now: i64, r: Result<SharedDriveView, ApiError>) -> bool {
    &&& (new_s.repo.wf())
    &&& (req.name@.len() == 0 ==> r == Err::<SharedDriveView, ApiError>(ApiError::EmptyDriveName) && new_s.repo == old_s.repo)
    &&& (req.name@.len() > 0 ==> exists|d: SharedDrive| {
        &&& d.name == req.name
        &&& d.description == req.description
        &&& d.created_by@ == user.user_id@
        &&& d.storage_used_bytes == 0
        &&& d.created_at == now
        &&& d.updated_at == now
        &&& !drive_ids_in_use(old_s.repo.drives@, old_s.repo.members@).contains(d.id@)
        &&& #[trigger] old_s.repo.drives@.push(d) == new_s.repo.drives@
        &&& r is Ok
        &&& r->Ok_0.drive == d
        &&& r->Ok_0.member_count == 1
        &&& r->Ok_0.user_role == Some(DriveRole::Manager)
        &&& new_s.repo.members@.len() == old_s.repo.members@.len() + 1
        &&& new_s.repo.members@.drop_last() == old_s.repo.members@
        &&& new_s.repo.members@.last().shared_drive_id@ == d.id@
        &&& new_s.repo.members@.last().user_id@ == user.user_id@
        &&& new_s.repo.members@.last().user_email@ == user.email@
        &&& new_s.repo.members@.last().user_name@ == user.email@
        &&& new_s.repo.members@.last().role == DriveRole::Manager
        &&& new_s.repo.members@.last().added_by@ == user.user_id@
    })
}

/// The drive ids that the tables already use: those of the drives, then
/// those that member rows name.
pub open spec fn drive_ids_in_use(drives: Seq<SharedDrive>, members: Seq<SharedDriveMember>) -> Seq<Seq<char>> {
    drives.map_values(|d: SharedDrive| d.id@) + members.map_values(|m: SharedDriveMember| m.shared_drive_id@)
}

/// What `user` updating the drive `drive_id` at `now` does to the service
/// `old_s`, giving `new_s` and answering `r`.
pub open spec fn drive_updated(old_s: SharedDrivesService, new_s: SharedDrivesService, user: &AuthenticatedUser, drive_id: &str, req: UpdateSharedDriveRequest, now: i64, r: Result<SharedDriveView, ApiError>) -> bool {
    &&& (new_s.repo.members@ == old_s.repo.members@)
    &&& (manager_check(member_role(old_s.repo.members@, drive_id@, user.user_id@)) matches Err(e) ==>
        r == Err::<SharedDriveView, ApiError>(e) && new_s.repo.drives@ == old_s.repo.drives@)
    &&& (manager_check(member_role(old_s.repo.members@, drive_id@, user.user_id@)) is Ok ==> {
        &&& new_s.repo.drives@ == {
            let s1 = match req.name {
                Some(n) => old_s.repo.drives@.map_values(name_fn(drive_id@, n, now)),
                None => old_s.repo.drives@,
            };
            match req.description {
                Some(d) => s1.map_values(description_fn(drive_id@, Some(d), now)),
                None => s1,
            }
        }
        &&& match last_where(new_s.repo.drives@, drive_with_id(drive_id@)) {
            None => r == Err::<SharedDriveView, ApiError>(ApiError::DriveNotFound),
            Some(d) => {
                &&& r is Ok
                &&& r->Ok_0.drive == d
                &&& r->Ok_0.member_count == new_s.repo.members@.filter(member_of_drive(drive_id@)).len()
                &&& r->Ok_0.user_role == Some(DriveRole::Manager)
            },
        }
    })
}

/// What `user` adding a member to the drive `drive_id` at `now` does to
/// the service `old_s`, giving `new_s` and answering `r`.
pub open spec fn member_added(old_s: SharedDrivesService, new_s: SharedDrivesService, user: &AuthenticatedUser, drive_id: &str, req: AddMemberRequest, now: i64, r: Result<SharedDriveMember, ApiError>) -> bool {
    &&& (new_s.repo.wf())
    &&& (new_s.repo.drives@ == old_s.repo.drives@)
    &&& (manager_check(member_role(old_s.repo.members@, drive_id@, user.user_id@)) matches Err(e) ==>
        r == Err::<SharedDriveMember, ApiError>(e) && new_s.repo.members@ == old_s.repo.members@)
    &&& (manager_check(member_role(old_s.repo.members@, drive_id@, user.user_id@)) is Ok && drive_role_named(req.role@) is None ==>
        r == Err::<SharedDriveMember, ApiError>(ApiError::InvalidRole) && new_s.repo.members@ == old_s.repo.members@)
    &&& (manager_check(member_role(old_s.repo.members@, drive_id@, user.user_id@)) is Ok && drive_role_named(req.role@) is Some ==> {
        if last_where(old_s.repo.members@, member_key(drive_id@, req.user_id@)) is Some {
            r == Err::<SharedDriveMember, ApiError>(ApiError::AlreadyMember) && new_s.repo.members@ == old_s.repo.members@
        } else {
            &&& r is Ok
            &&& r->Ok_0.shared_drive_id@ == drive_id@
            &&& r->Ok_0.user_id == req.user_id
            &&& r->Ok_0.user_email == req.user_email
            &&& r->Ok_0.user_name == req.user_name
            &&& Some(r->Ok_0.role) == drive_role_named(req.role@)
            &&& r->Ok_0.added_by@ == user.user_id@
            &&& r->Ok_0.created_at == now
            &&& new_s.repo.members@ == old_s.repo.members@.push(r->Ok_0)
        }
    })
}

impl SharedDrivesService {
    /// A service over `repo`.
    pub fn new(repo: SharedDrivesRepository) -> (s: Self)
        ensures
            s.repo == repo,
    {
        SharedDrivesService { repo }
    }

    /// The role of `user_id` in `drive_id`, if a member.
    pub fn get_user_role(&self, drive_id: &str, user_id: &str) -> (r: Option<DriveRole>)
        ensures
            r == member_role(self.repo.members@, drive_id@, user_id@),
    {
        match self.repo.find_member(drive_id, user_id) {
            Some(m) => Some(m.role),
            None => None,
        }
    }

    /// Fails unless `user_id` manages `drive_id`.
    pub fn require_manager(&self, drive_id: &str, user_id: &str) -> (r: Result<(), ApiError>)
        ensures
            r == manager_check(member_role(self.repo.members@, drive_id@, user_id@)),
    {
        match self.get_user_role(drive_id, user_id) {
            Some(DriveRole::Manager) => Ok(()),
            Some(_) => Err(ApiError::ManagerRequired),
            None => Err(ApiError::NotDriveMember),
        }
    }

    /// Creates a drive at time `now` whose creator is its first manager; the
    /// name must not be empty.
    pub fn create_at(&mut self, user: &AuthenticatedUser, req: CreateSharedDriveRequest, now: i64) -> (r: Result<SharedDriveView, ApiError>)
        requires
            old(self).repo.wf(),
        ensures
            drive_created(*old(self), *final(self), user, req, now, r),
    {
        if req.name.unicode_len() == 0 {
            return Err(ApiError::EmptyDriveName);
        }
        let ids = self.repo.ids_in_use();
        let drive_id = fresh_id(new_uuid(), &ids);
        let ghost m0 = self.repo.members@;
        proof {
            assert forall|i: int| 0 <= i < m0.len() implies !member_key(drive_id@, user.user_id@)(#[trigger] m0[i]) by {
                assert(drive_ids_in_use(old(self).repo.drives@, m0)[old(self).repo.drives@.len() + i] == m0[i].shared_drive_id@);
            }
            lemma_filter_none(m0, member_key(drive_id@, user.user_id@));
        }
        let drive = self.repo.create(SharedDrive {
            id: drive_id.clone(),
            name: req.name,
            description: req.description,
            created_by: user.user_id.clone(),
            storage_used_bytes: 0,
            created_at: now,
            updated_at: now,
        });
        let member = SharedDriveMember {
            id: new_uuid(),
            shared_drive_id: drive_id,
            user_id: user.user_id.clone(),
            user_email: user.email.clone(),
            user_name: user.email.clone(),
            role: DriveRole::Manager,
            added_by: user.user_id.clone(),
            created_at: now,
        };
        let ghost mem = member;
        let _ = self.repo.add_member(member);
        proof {
            assert(self.repo.members@.drop_last() =~= m0);
            lemma_push_new_membership(m0, mem);
        }
        Ok(SharedDriveView { drive, member_count: 1, user_role: Some(DriveRole::Manager) })
    }

    /// Creates a drive, by the clock.
    pub fn create(&mut self, user: &AuthenticatedUser, req: CreateSharedDriveRequest) -> (r: Result<SharedDriveView, ApiError>)
        requires
            old(self).repo.wf(),
        ensures
            exists|now: i64| drive_created(*old(self), *final(self), user, req, now, r),
    {
        let now = now_utc();
        self.create_at(user, req, now)
    }

    /// The drives that the caller belongs to, each with its member count and
    /// the caller's role.
    pub fn list_for_user(&self, user: &AuthenticatedUser) -> (r: Vec<SharedDriveView>)
        ensures
            r@.len() == self.repo.drives@.filter(drive_listed(drive_ids_of(self.repo.members@, user.user_id@))).len(),
            forall|i: int| 0 <= i < r@.len() ==> {
                let d = self.repo.drives@.filter(drive_listed(drive_ids_of(self.repo.members@, user.user_id@)))[i];
                &&& #[trigger] r@[i].drive == d
                &&& r@[i].member_count == self.repo.members@.filter(member_of_drive(d.id@)).len()
                &&& r@[i].user_role == member_role(self.repo.members@, d.id@, user.user_id@)
            },
    {
        let drives = self.repo.list_for_user(user.user_id.as_str());
        let mut items: Vec<SharedDriveView> = Vec::new();
        for i in 0..drives.len()
            invariant
                drives@ == self.repo.drives@.filter(drive_listed(drive_ids_of(self.repo.members@, user.user_id@))),
                items@.len() == i,
                forall|k: int| 0 <= k < i ==> {
                    &&& #[trigger] items@[k].drive == drives@[k]
                    &&& items@[k].member_count == self.repo.members@.filter(member_of_drive(drives@[k].id@)).len()
                    &&& items@[k].user_role == member_role(self.repo.members@, drives@[k].id@, user.user_id@)
                },
        {
            let d = drives[i].duplicate();
            let member_count = self.repo.count_members(d.id.as_str());
            let user_role = self.get_user_role(d.id.as_str(), user.user_id.as_str());
            items.push(SharedDriveView { drive: d, member_count, user_role });
        }
        items
    }

    /// A drive as the caller sees it; members and admins may look.
    pub fn get_by_id(&self, user: &AuthenticatedUser, drive_id: &str) -> (r: Result<SharedDriveView, ApiError>)
        ensures
            match last_where(self.repo.drives@, drive_with_id(drive_id@)) {
                None => r == Err::<SharedDriveView, ApiError>(ApiError::DriveNotFound),
                Some(d) => if member_role(self.repo.members@, drive_id@, user.user_id@) is None && !user.is_admin {
                    r == Err::<SharedDriveView, ApiError>(ApiError::NotDriveMember)
                } else {
                    &&& r is Ok
                    &&& r->Ok_0.drive == d
                    &&& r->Ok_0.member_count == self.repo.members@.filter(member_of_drive(drive_id@)).len()
                    &&& r->Ok_0.user_role == member_role(self.repo.members@, drive_id@, user.user_id@)
                },
            },
    {
        let drive = match self.repo.find_by_id(drive_id) {
            Some(d) => d,
            None => {
                return Err(ApiError::DriveNotFound);
            },
        };
        let user_role = self.get_user_role(drive_id, user.user_id.as_str());
        if user_role.is_none() && !user.is_admin {
            return Err(ApiError::NotDriveMember);
        }
        let member_count = self.repo.count_members(drive_id);
        Ok(SharedDriveView { drive, member_count, user_role })
    }

    /// Renames a drive or changes its description at time `now`; only its
    /// managers may. Answers the drive as it then stands.
    pub fn update_at(&mut self, user: &AuthenticatedUser, drive_id: &str, req: UpdateSharedDriveRequest, now: i64) -> (r: Result<SharedDriveView, ApiError>)
        ensures
            drive_updated(*old(self), *final(self), user, drive_id, req, now, r),
    {
        self.require_manager(drive_id, user.user_id.as_str())?;
        let description: Option<Option<String>> = match req.description {
            Some(d) => Some(Some(d)),
            None => None,
        };
        self.repo.update_name_description(drive_id, &req.name, &description, now);
        self.get_by_id(user, drive_id)
    }

    /// Renames a drive or changes its description, by the clock.
    pub fn update(&mut self, user: &AuthenticatedUser, drive_id: &str, req: UpdateSharedDriveRequest) -> (r: Result<SharedDriveView, ApiError>)
        ensures
            exists|now: i64| drive_updated(*old(self), *final(self), user, drive_id, req, now, r),
    {
        let now = now_utc();
        self.update_at(user, drive_id, req, now)
    }

    /// Deletes a drive; only its managers may.
    pub fn delete(&mut self, user: &AuthenticatedUser, drive_id: &str) -> (r: Result<(), ApiError>)
        ensures
            r == manager_check(member_role(old(self).repo.members@, drive_id@, user.user_id@)),
            final(self).repo.members@ == old(self).repo.members@,
            r is Ok ==> final(self).repo.drives@ == old(self).repo.drives@.filter(drive_not_id(drive_id@)),
            r is Err ==> final(self).repo.drives@ == old(self).repo.drives@,
    {
        self.require_manager(drive_id, user.user_id.as_str())?;
        self.repo.delete(drive_id);
        Ok(())
    }

    /// The members of a drive; members and admins may look.
    pub fn list_members(&self, user: &AuthenticatedUser, drive_id: &str) -> (r: Result<Vec<SharedDriveMember>, ApiError>)
        ensures
            member_role(self.repo.members@, drive_id@, user.user_id@) is None && !user.is_admin ==>
                r == Err::<Vec<SharedDriveMember>, ApiError>(ApiError::NotDriveMember),
            !(member_role(self.repo.members@, drive_id@, user.user_id@) is None && !user.is_admin) ==>
                r is Ok && r->Ok_0@ == self.repo.members@.filter(member_of_drive(drive_id@)),
    {
        let user_role = self.get_user_role(drive_id, user.user_id.as_str());
        if user_role.is_none() && !user.is_admin {
            return Err(ApiError::NotDriveMember);
        }
        Ok(self.repo.list_members(drive_id))
    }

    /// Adds a member in one of the five roles at time `now`; only managers
    /// may, and a user belongs to a drive once.
    pub fn add_member_at(&mut self, user: &AuthenticatedUser, drive_id: &str, req: AddMemberRequest, now: i64) -> (r: Result<SharedDriveMember, ApiError>)
        requires
            old(self).repo.wf(),
        ensures
            member_added(*old(self), *final(self), user, drive_id, req, now, r),
    {
        self.require_manager(drive_id, user.user_id.as_str())?;
        let role = match DriveRole::parse(req.role.as_str()) {
            Some(r) => r,
            None => {
                return Err(ApiError::InvalidRole);
            },
        };
        let member = SharedDriveMember {
            id: new_uuid(),
            shared_drive_id: drive_id.to_owned(),
            user_id: req.user_id,
            user_email: req.user_email,
            user_name: req.user_name,
            role,
            added_by: user.user_id.clone(),
            created_at: now,
        };
        let ghost m0 = self.repo.members@;
        let ghost mem = member;
        let r = self.repo.add_member(member);
        proof {
            if r is Ok {
                lemma_push_new_membership(m0, mem);
            }
        }
        r
    }

    /// Adds a member, by the clock.
    pub fn add_member(&mut self, user: &AuthenticatedUser, drive_id: &str, req: AddMemberRequest) -> (r: Result<SharedDriveMember, ApiError>)
        requires
            old(self).repo.wf(),
        ensures
            exists|now: i64| member_added(*old(self), *final(self), user, drive_id, req, now, r),
    {
        let now = now_utc();
        self.add_member_at(user, drive_id, req, now)
    }

    /// Gives `target_user_id` the role `req.role`; only managers may, and
    /// never so as to leave the drive without a manager.
    pub fn update_member_role(&mut self, user: &AuthenticatedUser, drive_id: &str, target_user_id: &str, req: UpdateMemberRoleRequest) -> (r: Result<(), ApiError>)
        requires
            old(self).repo.wf(),
        ensures
            final(self).repo.wf(),
            final(self).repo.drives@ == old(self).repo.drives@,
            (r, final(self).repo.members@) == role_change_outcome(
                old(self).repo.members@,
                member_role(old(self).repo.members@, drive_id@, user.user_id@),
                drive_id@,
                target_user_id@,
                req.role@,
            ),
    {
        self.require_manager(drive_id, user.user_id.as_str())?;
        let role = match DriveRole::parse(req.role.as_str()) {
            Some(r) => r,
            None => {
                return Err(ApiError::InvalidRole);
            },
        };
        if role != DriveRole::Manager {
            let managers = self.repo.count_managers(drive_id);
            let target = match self.repo.find_member(drive_id, target_user_id) {
                Some(m) => m,
                None => {
                    return Err(ApiError::MemberNotFound);
                },
            };
            if target.role == DriveRole::Manager && managers <= 1 {
                return Err(ApiError::LastManagerDemote);
            }
        }
        proof { lemma_role_set_keeps_membership(self.repo.members@, drive_id@, target_user_id@, role); }
        self.repo.update_member_role(drive_id, target_user_id, role);
        Ok(())
    }

    /// Removes `target_user_id` from a drive; only managers may, and never
    /// the last manager.
    pub fn remove_member(&mut self, user: &AuthenticatedUser, drive_id: &str, target_user_id: &str) -> (r: Result<(), ApiError>)
        requires
            old(self).repo.wf(),
        ensures
            final(self).repo.wf(),
            final(self).repo.drives@ == old(self).repo.drives@,
            (r, final(self).repo.members@) == remove_outcome(
                old(self).repo.members@,
                member_role(old(self).repo.members@, drive_id@, user.user_id@),
                drive_id@,
                target_user_id@,
            ),
    {
        self.require_manager(drive_id, user.user_id.as_str())?;
        let target = match self.repo.find_member(drive_id, target_user_id) {
            Some(m) => m,
            None => {
                return Err(ApiError::MemberNotFound);
            },
        };
        if target.role == DriveRole::Manager {
            let managers = self.repo.count_managers(drive_id);
            if managers <= 1 {
                return Err(ApiError::LastManagerRemove);
            }
        }
        proof { lemma_filter_keeps_membership(self.repo.members@, member_not_key(drive_id@, target_user_id@)); }
        self.repo.remove_member(drive_id, target_user_id);
        Ok(())
    }

    /// The figures of a drive; members and admins may look.
    pub fn get_analytics(&self, user: &AuthenticatedUser, drive_id: &str) -> (r: Result<SharedDriveAnalytics, ApiError>)
        ensures
            match last_where(self.repo.drives@, drive_with_id(drive_id@)) {
                None => r == Err::<SharedDriveAnalytics, ApiError>(ApiError::DriveNotFound),
                Some(d) => if member_role(self.repo.members@, drive_id@, user.user_id@) is None && !user.is_admin {
                    r == Err::<SharedDriveAnalytics, ApiError>(ApiError::NotDriveMember)
                } else {
                    &&& r is Ok
                    &&& r->Ok_0.id == d.id
                    &&& r->Ok_0.name == d.name
                    &&& r->Ok_0.storage_used_bytes == d.storage_used_bytes
                    &&& r->Ok_0.member_count == self.repo.members@.filter(member_of_drive(drive_id@)).len()
                    &&& r->Ok_0.file_count == 0
                },
            },
    {
        let drive = match self.repo.find_by_id(drive_id) {
            Some(d) => d,
            None => {
                return Err(ApiError::DriveNotFound);
            },
        };
        let user_role = self.get_user_role(drive_id, user.user_id.as_str());
        if user_role.is_none() && !user.is_admin {
            return Err(ApiError::NotDriveMember);
        }
        let member_count = self.repo.count_members(drive_id);
        Ok(SharedDriveAnalytics {
            id: drive.id,
            name: drive.name,
            storage_used_bytes: drive.storage_used_bytes,
            member_count,
            file_count: 0,
        })
    }
}

/// Adding a membership that does not exist yet keeps each user in each
/// drive at most once.
proof fn lemma_push_new_membership(s: Seq<SharedDriveMember>, m: SharedDriveMember)
    requires
        one_membership(s),
        last_where(s, member_key(m.shared_drive_id@, m.user_id@)) is None,
    ensures
        one_membership(s.push(m)),
{
    let t = s.push(m);
    assert forall|i: int, j: int| #![trigger t[i], t[j]] 0 <= i < j < t.len() implies
        !(t[i].shared_drive_id@ == t[j].shared_drive_id@ && t[i].user_id@ == t[j].user_id@) by {
        if j == t.len() - 1 {
            if t[i].shared_drive_id@ == m.shared_drive_id@ && t[i].user_id@ == m.user_id@ {
                crate::seqs::lemma_filter_some(s, member_key(m.shared_drive_id@, m.user_id@), i);
            }
        } else {
            assert(t[i] == s[i] && t[j] == s[j]);
        }
    }
}

/// Filtering keeps each user in each drive at most once.
proof fn lemma_filter_keeps_membership(s: Seq<SharedDriveMember>, p: spec_fn(SharedDriveMember) -> bool)
    requires
        one_membership(s),
    ensures
        one_membership(s.filter(p)),
    decreases s.len(),
{
    if s.len() > 0 {
        let d = s.drop_last();
        let x = s.last();
        assert(one_membership(d)) by {
            assert forall|i: int, j: int| #![trigger d[i], d[j]] 0 <= i < j < d.len() implies
                !(d[i].shared_drive_id@ == d[j].shared_drive_id@ && d[i].user_id@ == d[j].user_id@) by {
                assert(d[i] == s[i] && d[j] == s[j]);
            }
        }
        lemma_filter_keeps_membership(d, p);
        assert(s == d.push(x));
        d.lemma_filter_push(x, p);
        if p(x) {
            let f = d.filter(p);
            let t = f.push(x);
            assert forall|i: int, j: int| #![trigger t[i], t[j]] 0 <= i < j < t.len() implies
                !(t[i].shared_drive_id@ == t[j].shared_drive_id@ && t[i].user_id@ == t[j].user_id@) by {
                if j == t.len() - 1 {
                    assert(f.contains(f[i]));
                    d.lemma_filter_contains_rev(p, f[i]);
                    let a = choose|a: int| 0 <= a < d.len() && d[a] == f[i];
                    assert(s[a] == t[i]);
                    assert(s[s.len() - 1] == t[j]);
                } else {
                    assert(t[i] == f[i] && t[j] == f[j]);
                }
            }
        }
    }
}

/// Changing a role keeps each user in each drive at most once.
proof fn lemma_role_set_keeps_membership(s: Seq<SharedDriveMember>, drive: Seq<char>, user: Seq<char>, role: DriveRole)
    requires
        one_membership(s),
    ensures
        one_membership(s.map_values(role_set_fn(drive, user, role))),
{
    let t = s.map_values(role_set_fn(drive, user, role));
    assert forall|i: int, j: int| #![trigger t[i], t[j]] 0 <= i < j < t.len() implies
        !(t[i].shared_drive_id@ == t[j].shared_drive_id@ && t[i].user_id@ == t[j].user_id@) by {
        assert(t[i].shared_drive_id == s[i].shared_drive_id && t[i].user_id == s[i].user_id);
        assert(t[j].shared_drive_id == s[j].shared_drive_id && t[j].user_id == s[j].user_id);
    }
}

/// Each user holds at most one membership in a drive.
proof fn lemma_membership_at_most_one(s: Seq<SharedDriveMember>, drive: Seq<char>, user: Seq<char>)
    requires
        one_membership(s),
    ensures
        s.filter(member_key(drive, user)).len() <= 1,
    decreases s.len(),
{
    if s.len() > 0 {
        let t = s.drop_last();
        let x = s.last();
        assert(one_membership(t)) by {
            assert forall|i: int, j: int| #![trigger t[i], t[j]] 0 <= i < j < t.len() implies
                !(t[i].shared_drive_id@ == t[j].shared_drive_id@ && t[i].user_id@ == t[j].user_id@) by {
                assert(t[i] == s[i] && t[j] == s[j]);
            }
        }
        lemma_membership_at_most_one(t, drive, user);
        assert(s == t.push(x));
        t.lemma_filter_push(x, member_key(drive, user));
        if member_key(drive, user)(x) {
            assert forall|i: int| 0 <= i < t.len() implies !member_key(drive, user)(#[trigger] t[i]) by {
                assert(t[i] == s[i]);
                assert(s[s.len() - 1] == x);
            }
            lemma_filter_none(t, member_key(drive, user));
        }
    }
}

/// The managers of a drive, split by whether they are `user`.
proof fn lemma_manager_split(s: Seq<SharedDriveMember>, drive: Seq<char>, user: Seq<char>)
    requires
        one_membership(s),
    ensures
        manager_count(s, drive) == s.filter(|m: SharedDriveMember| manager_of(drive)(m) && !member_key(drive, user)(m)).len()
            + (if member_role(s, drive, user) == Some(DriveRole::Manager) { 1int } else { 0int }),
{
    let mp = manager_of(drive);
    let kp = member_key(drive, user);
    lemma_filter_split_len(s, mp, kp);
    lemma_filter_filter(s, kp, mp);
    lemma_filter_ext(s, |x: SharedDriveMember| kp(x) && mp(x), |x: SharedDriveMember| mp(x) && kp(x));
    lemma_membership_at_most_one(s, drive, user);
    let m = s.filter(kp);
    if m.len() == 1 {
        lemma_len_one(m);
        lemma_filter_single(m.last(), mp);
    } else {
        assert(m =~= Seq::<SharedDriveMember>::empty());
        reveal(Seq::filter);
    }
}

/// Law: removing a member never leaves a drive that had a manager without
/// one.
pub proof fn law_remove_keeps_a_manager(s: Seq<SharedDriveMember>, caller_role: Option<DriveRole>, drive: Seq<char>, target: Seq<char>)
    requires
        one_membership(s),
        manager_count(s, drive) >= 1,
    ensures
        manager_count(remove_outcome(s, caller_role, drive, target).1, drive) >= 1,
{
    let kp = member_key(drive, target);
    let np = member_not_key(drive, target);
    let mp = manager_of(drive);
    lemma_manager_split(s, drive, target);
    lemma_filter_filter(s, np, mp);
    lemma_filter_ext(s, |x: SharedDriveMember| np(x) && mp(x), |m: SharedDriveMember| mp(m) && !kp(m));
}

/// Law: changing a member's role never leaves a drive that had a manager
/// without one.
pub proof fn law_role_change_keeps_a_manager(s: Seq<SharedDriveMember>, caller_role: Option<DriveRole>, drive: Seq<char>, target: Seq<char>, role: Seq<char>)
    requires
        one_membership(s),
        manager_count(s, drive) >= 1,
    ensures
        manager_count(role_change_outcome(s, caller_role, drive, target, role).1, drive) >= 1,
{
    if manager_check(caller_role) is Ok && drive_role_named(role) is Some {
        let r = drive_role_named(role)->0;
        let f = role_set_fn(drive, target, r);
        let t = s.map_values(f);
        let mp = manager_of(drive);
        let kp = member_key(drive, target);
        if r == DriveRole::Manager {
            let e = s.filter(mp)[0];
            s.lemma_filter_pred(mp, 0);
            assert(s.filter(mp).contains(e));
            s.lemma_filter_contains_rev(mp, e);
            let i = choose|i: int| 0 <= i < s.len() && s[i] == e;
            assert(t[i] == f(s[i]));
            lemma_filter_some(t, mp, i);
        } else if last_where(s, kp) is Some {
            let q = |m: SharedDriveMember| mp(m) && !kp(m);
            let q2 = |m: SharedDriveMember| mp(m) && kp(m);
            lemma_manager_split(s, drive, target);
            assert forall|x: SharedDriveMember| #[trigger] q(f(x)) == q(x) by {}
            assert forall|x: SharedDriveMember| q(x) implies #[trigger] f(x) == x by {}
            lemma_map_filter_same(s, f, q);
            assert forall|i: int| 0 <= i < t.len() implies !q2(#[trigger] t[i]) by {
                assert(t[i] == f(s[i]));
            }
            lemma_filter_none(t, q2);
            lemma_filter_split_len(t, mp, kp);
            lemma_filter_ext(t, |x: SharedDriveMember| mp(x) && !kp(x), q);
            lemma_filter_ext(t, |x: SharedDriveMember| mp(x) && kp(x), q2);
        }
    }
}

/// Law: after a member is added, the member's role in the drive is the role
/// it was added with.
pub proof fn law_added_member_has_role(s: Seq<SharedDriveMember>, m: SharedDriveMember)
    ensures
        member_role(s.push(m), m.shared_drive_id@, m.user_id@) == Some(m.role),
{
    lemma_last_where_push(s, m, member_key(m.shared_drive_id@, m.user_id@));
}

/// Law: after a member is removed, the user is no longer a member.
pub proof fn law_removed_member_is_gone(s: Seq<SharedDriveMember>, drive: Seq<char>, user: Seq<char>)
    ensures
        member_role(s.filter(member_not_key(drive, user)), drive, user) is None,
{
    lemma_last_where_dropped(s, member_not_key(drive, user), member_key(drive, user));
}

/// Law: a member's new role lands on exactly that membership; renaming and
/// describing a drive set that field and stamp `now`; everything else is
/// untouched.
pub proof fn law_drive_rows(m: SharedDriveMember, d: SharedDrive, drive: Seq<char>, user: Seq<char>, role: DriveRole, name: String, description: Option<String>, now: i64)
    ensures
        m.shared_drive_id@ == drive && m.user_id@ == user ==> {
            let n = role_set_fn(drive, user, role)(m);
            n.role == role && n.id == m.id && n.shared_drive_id == m.shared_drive_id && n.user_id == m.user_id && n.added_by == m.added_by
        },
        !(m.shared_drive_id@ == drive && m.user_id@ == user) ==> role_set_fn(drive, user, role)(m) == m,
        d.id@ == drive ==> {
            let e = name_fn(drive, name, now)(d);
            e.name == name && e.updated_at == now && e.id == d.id && e.description == d.description && e.created_by == d.created_by
        },
        d.id@ == drive ==> {
            let e = description_fn(drive, description, now)(d);
            e.description == description && e.updated_at == now && e.id == d.id && e.name == d.name && e.created_by == d.created_by
        },
        d.id@ != drive ==> name_fn(drive, name, now)(d) == d && description_fn(drive, description, now)(d) == d,
{
}

/// Law: creating a drive with a name makes the creator its only member,
/// as manager, under an id no drive or membership used before; a drive
/// with an empty name is refused and nothing is stored.
pub proof fn law_creator_is_sole_manager(old_s: SharedDrivesService, new_s: SharedDrivesService, user: &AuthenticatedUser, req: CreateSharedDriveRequest, now: i64, r: Result<SharedDriveView, ApiError>)
    requires
        drive_created(old_s, new_s, user, req, now, r),
    ensures
        req.name@.len() == 0 ==> r == Err::<SharedDriveView, ApiError>(ApiError::EmptyDriveName) && new_s.repo == old_s.repo,
        req.name@.len() > 0 ==> (r matches Ok(v) && {
            &&& v.drive.name == req.name
            &&& v.drive.description == req.description
            &&& v.drive.created_by@ == user.user_id@
            &&& member_role(new_s.repo.members@, v.drive.id@, user.user_id@) == Some(DriveRole::Manager)
            &&& new_s.repo.members@.filter(member_of_drive(v.drive.id@)).len() == 1
            &&& new_s.repo.drives@.last() == v.drive
            &&& forall|i: int| 0 <= i < old_s.repo.drives@.len() ==> (#[trigger] old_s.repo.drives@[i]).id@ != v.drive.id@
        }),
{
    if req.name@.len() > 0 {
        let d = choose|d: SharedDrive| {
            &&& d.name == req.name
            &&& d.description == req.description
            &&& d.created_by@ == user.user_id@
            &&& d.storage_used_bytes == 0
            &&& d.created_at == now
            &&& d.updated_at == now
            &&& !drive_ids_in_use(old_s.repo.drives@, old_s.repo.members@).contains(d.id@)
            &&& #[trigger] old_s.repo.drives@.push(d) == new_s.repo.drives@
            &&& r is Ok
            &&& r->Ok_0.drive == d
            &&& r->Ok_0.member_count == 1
            &&& r->Ok_0.user_role == Some(DriveRole::Manager)
            &&& new_s.repo.members@.len() == old_s.repo.members@.len() + 1
            &&& new_s.repo.members@.drop_last() == old_s.repo.members@
            &&& new_s.repo.members@.last().shared_drive_id@ == d.id@
            &&& new_s.repo.members@.last().user_id@ == user.user_id@
            &&& new_s.repo.members@.last().user_email@ == user.email@
            &&& new_s.repo.members@.last().user_name@ == user.email@
            &&& new_s.repo.members@.last().role == DriveRole::Manager
            &&& new_s.repo.members@.last().added_by@ == user.user_id@
        };
        let m0 = old_s.repo.members@;
        let m1 = new_s.repo.members@;
        assert(m1 =~= m0.push(m1.last()));
        let ids = drive_ids_in_use(old_s.repo.drives@, m0);
        assert forall|i: int| 0 <= i < m0.len() implies !member_of_drive(d.id@)(#[trigger] m0[i]) by {
            assert(ids[old_s.repo.drives@.len() + i] == m0[i].shared_drive_id@);
        }
        assert forall|i: int| 0 <= i < old_s.repo.drives@.len() implies (#[trigger] old_s.repo.drives@[i]).id@ != d.id@ by {
            assert(ids[i] == old_s.repo.drives@[i].id@);
        }
        lemma_filter_none(m0, member_of_drive(d.id@));
        m0.lemma_filter_push(m1.last(), member_of_drive(d.id@));
        lemma_last_where_push(m0, m1.last(), member_key(d.id@, user.user_id@));
        assert(new_s.repo.drives@.last() == d);
    }
}

} // verus!
