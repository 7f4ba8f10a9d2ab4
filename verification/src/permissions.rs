//! Role-based permissions on files and folders, with inheritance down the
//! folder tree, and the owner-only rules that guard granting, changing,
//! revoking and transferring them.
use vstd::prelude::*;
use crate::error::{ApiError, OwnerOnlyAction};
use crate::text::str_eq;
use crate::rows::Duplicate;
use crate::runtime::new_uuid;
use crate::seqs::{
    lemma_filter_take_step, lemma_map_take_step, lemma_take_all, lemma_filter_two, lemma_filter_none,
    lemma_filter_filter, lemma_filter_ext, lemma_filter_split_len, lemma_map_filter_same,
    lemma_map_filter_len, lemma_map_filter_commute, lemma_filter_single, lemma_len_one,
};

verus! {

broadcast use vstd::seq_lib::group_seq_properties, vstd::seq::group_seq_axioms;

/// A role that a user holds on a resource.
#[derive(Debug, Clone, Copy, PartialEq, Eq, Structural)]
pub enum Role {
    Owner,
    Editor,
    Commenter,
    Viewer,
}

/// The stored name of a role.
pub open spec fn role_name(r: Role) -> Seq<char> {
    match r {
        Role::Owner => "owner"@,
        Role::Editor => "editor"@,
        Role::Commenter => "commenter"@,
        Role::Viewer => "viewer"@,
    }
}

impl Role {
    /// The stored name of this role.
    pub fn as_str(&self) -> (s: &'static str)
        ensures
            s@ == role_name(*self),
    {
        match self {
            Role::Owner => "owner",
            Role::Editor => "editor",
            Role::Commenter => "commenter",
            Role::Viewer => "viewer",
        }
    }

    /// The role whose stored name is `s`, if any.
    pub fn parse(s: &str) -> (r: Option<Role>)
        ensures
            r matches Some(role) ==> role_name(role) == s@,
            r is None ==> forall|role: Role| role_name(role) != s@,
    {
        proof {
            reveal_strlit("owner");
            reveal_strlit("editor");
            reveal_strlit("commenter");
            reveal_strlit("viewer");
        }
        if str_eq(s, "owner") {
            Some(Role::Owner)
        } else if str_eq(s, "editor") {
            Some(Role::Editor)
        } else if str_eq(s, "commenter") {
            Some(Role::Commenter)
        } else if str_eq(s, "viewer") {
            Some(Role::Viewer)
        } else {
            proof {
                assert forall|role: Role| role_name(role) != s@ by {
                    match role {
                        Role::Owner => {},
                        Role::Editor => {},
                        Role::Commenter => {},
                        Role::Viewer => {},
                    }
                }
            }
            None
        }
    }
}

/// The kind of resource a permission applies to.
#[derive(Debug, Clone, Copy, PartialEq, Eq, Structural)]
pub enum ResourceKind {
    File,
    Folder,
}

/// The stored name of a resource kind.
pub open spec fn kind_name(k: ResourceKind) -> Seq<char> {
    match k {
        ResourceKind::File => "file"@,
        ResourceKind::Folder => "folder"@,
    }
}

impl ResourceKind {
    /// The stored name of this kind.
    pub fn as_str(&self) -> (s: &'static str)
        ensures
            s@ == kind_name(*self),
    {
        match self {
            ResourceKind::File => "file",
            ResourceKind::Folder => "folder",
        }
    }
}

/// One row of the permissions table.
#[derive(Debug)]
pub struct PermissionRecord {
    pub id: String,
    pub resource_type: ResourceKind,
    pub resource_id: String,
    pub user_id: String,
    pub role: Role,
    pub granted_by: String,
    pub user_email: String,
    pub user_name: String,
    pub created_at: i64,
}

impl Duplicate for PermissionRecord {
    fn duplicate(&self) -> (r: Self) {
        PermissionRecord {
            id: self.id.clone(),
            resource_type: self.resource_type,
            resource_id: self.resource_id.clone(),
            user_id: self.user_id.clone(),
            role: self.role,
            granted_by: self.granted_by.clone(),
            user_email: self.user_email.clone(),
            user_name: self.user_name.clone(),
            created_at: self.created_at,
        }
    }
}

/// Where a file or folder sits: a file's folder, or a folder's parent.
#[derive(Debug)]
pub struct ParentLink {
    pub id: String,
    pub parent: Option<String>,
}

/// The characters of an optional string.
pub open spec fn opt_view(o: Option<String>) -> Option<Seq<char>> {
    match o {
        Some(s) => Some(s@),
        None => None,
    }
}

/// The row `p` is the permission of `user` on the resource `(kind, res)`.
pub open spec fn key_matches(p: PermissionRecord, kind: ResourceKind, res: Seq<char>, user: Seq<char>) -> bool {
    p.resource_type == kind && p.resource_id@ == res && p.user_id@ == user
}

/// The row `p` is a permission on the resource `(kind, res)`.
pub open spec fn on_resource(p: PermissionRecord, kind: ResourceKind, res: Seq<char>) -> bool {
    p.resource_type == kind && p.resource_id@ == res
}

/// Selects the permission of `user` on `(kind, res)`.
pub open spec fn key_pred(kind: ResourceKind, res: Seq<char>, user: Seq<char>) -> spec_fn(PermissionRecord) -> bool {
    |p: PermissionRecord| key_matches(p, kind, res, user)
}

/// Selects every row but the permission of `user` on `(kind, res)`.
pub open spec fn other_key_pred(kind: ResourceKind, res: Seq<char>, user: Seq<char>) -> spec_fn(PermissionRecord) -> bool {
    |p: PermissionRecord| !key_matches(p, kind, res, user)
}

/// Selects the rows on `(kind, res)`.
pub open spec fn resource_pred(kind: ResourceKind, res: Seq<char>) -> spec_fn(PermissionRecord) -> bool {
    |p: PermissionRecord| on_resource(p, kind, res)
}

/// Selects the owner rows on `(kind, res)`.
pub open spec fn owner_pred(kind: ResourceKind, res: Seq<char>) -> spec_fn(PermissionRecord) -> bool {
    |p: PermissionRecord| on_resource(p, kind, res) && p.role == Role::Owner
}

/// The rows of `user` on `(kind, res)`.
pub open spec fn rows_of(s: Seq<PermissionRecord>, kind: ResourceKind, res: Seq<char>, user: Seq<char>) -> Seq<PermissionRecord> {
    s.filter(key_pred(kind, res, user))
}

/// The rows that are not the permission of `user` on `(kind, res)`.
pub open spec fn without_key(s: Seq<PermissionRecord>, kind: ResourceKind, res: Seq<char>, user: Seq<char>) -> Seq<PermissionRecord> {
    s.filter(other_key_pred(kind, res, user))
}

/// The rows on `(kind, res)`.
pub open spec fn rows_on(s: Seq<PermissionRecord>, kind: ResourceKind, res: Seq<char>) -> Seq<PermissionRecord> {
    s.filter(resource_pred(kind, res))
}

/// The owner rows on `(kind, res)`.
pub open spec fn owner_rows(s: Seq<PermissionRecord>, kind: ResourceKind, res: Seq<char>) -> Seq<PermissionRecord> {
    s.filter(owner_pred(kind, res))
}

/// How many owners `(kind, res)` has.
pub open spec fn owner_count(s: Seq<PermissionRecord>, kind: ResourceKind, res: Seq<char>) -> nat {
    owner_rows(s, kind, res).len()
}

/// The permission of `user` on `(kind, res)`, if the table holds one.
pub open spec fn lookup(s: Seq<PermissionRecord>, kind: ResourceKind, res: Seq<char>, user: Seq<char>) -> Option<PermissionRecord> {
    let m = rows_of(s, kind, res, user);
    if m.len() > 0 {
        Some(m.last())
    } else {
        None
    }
}

/// The role of `user` on `(kind, res)` held directly, if any.
pub open spec fn direct_role(s: Seq<PermissionRecord>, kind: ResourceKind, res: Seq<char>, user: Seq<char>) -> Option<Role> {
    match lookup(s, kind, res, user) {
        Some(p) => Some(p.role),
        None => None,
    }
}

/// No user holds two rows on one resource.
pub open spec fn unique_keys(s: Seq<PermissionRecord>) -> bool {
    forall|kind: ResourceKind, res: Seq<char>, user: Seq<char>|
        #[trigger] rows_of(s, kind, res, user).len() <= 1
}

/// Changes the role of the permission of `user` on `(kind, res)` to `role`.
pub open spec fn set_role_fn(kind: ResourceKind, res: Seq<char>, user: Seq<char>, role: Role) -> spec_fn(PermissionRecord) -> PermissionRecord {
    |p: PermissionRecord| if key_matches(p, kind, res, user) { PermissionRecord { role: role, ..p } } else { p }
}

/// The rows with the role of `user` on `(kind, res)` changed to `role`.
pub open spec fn with_role(s: Seq<PermissionRecord>, kind: ResourceKind, res: Seq<char>, user: Seq<char>, role: Role) -> Seq<PermissionRecord> {
    s.map_values(set_role_fn(kind, res, user, role))
}

/// Selects the links of `id`.
pub open spec fn link_pred(id: Seq<char>) -> spec_fn(ParentLink) -> bool {
    |l: ParentLink| l.id@ == id
}

/// The parent recorded for `id`, if any.
pub open spec fn parent_of(links: Seq<ParentLink>, id: Seq<char>) -> Option<Seq<char>> {
    let m = links.filter(link_pred(id));
    if m.len() > 0 {
        opt_view(m.last().parent)
    } else {
        None
    }
}

/// How many folders the inheritance walk visits at most.
pub open spec fn walk_limit() -> nat {
    50
}

/// The role of `user` on `folder` or the nearest ancestor that grants one,
/// visiting at most `fuel` folders.
pub open spec fn role_in_folder(
    perms: Seq<PermissionRecord>,
    folders: Seq<ParentLink>,
    user: Seq<char>,
    folder: Seq<char>,
    fuel: nat,
) -> Option<Role>
    decreases fuel,
{
    if fuel == 0 {
        None
    } else {
        match direct_role(perms, ResourceKind::Folder, folder, user) {
            Some(r) => Some(r),
            None => match parent_of(folders, folder) {
                Some(p) => role_in_folder(perms, folders, user, p, (fuel - 1) as nat),
                None => None,
            },
        }
    }
}

/// The effective role of `user` on `(kind, id)`: a direct permission, else
/// the role inherited from the enclosing folders.
pub open spec fn effective_role(
    perms: Seq<PermissionRecord>,
    files: Seq<ParentLink>,
    folders: Seq<ParentLink>,
    user: Seq<char>,
    kind: ResourceKind,
    id: Seq<char>,
) -> Option<Role> {
    match direct_role(perms, kind, id, user) {
        Some(r) => Some(r),
        None => {
            let up = match kind {
                ResourceKind::File => parent_of(files, id),
                ResourceKind::Folder => parent_of(folders, id),
            };
            match up {
                Some(f) => role_in_folder(perms, folders, user, f, walk_limit()),
                None => None,
            }
        },
    }
}

/// Whether `p` is the permission of `user` on `(kind, res)`.
pub fn row_matches(p: &PermissionRecord, kind: ResourceKind, res: &str, user: &str) -> (b: bool)
    ensures
        b == key_matches(*p, kind, res@, user@),
{
    p.resource_type == kind && str_eq(p.resource_id.as_str(), res) && str_eq(p.user_id.as_str(), user)
}

/// Whether `p` is a permission on `(kind, res)`.
pub fn row_on(p: &PermissionRecord, kind: ResourceKind, res: &str) -> (b: bool)
    ensures
        b == on_resource(*p, kind, res@),
{
    p.resource_type == kind && str_eq(p.resource_id.as_str(), res)
}

/// The parent recorded for `id` among `links`.
pub fn find_parent(links: &Vec<ParentLink>, id: &str) -> (r: Option<String>)
    ensures
        opt_view(r) == parent_of(links@, id@),
{
    let n = links.len();
    let mut found: Option<usize> = None;
    for i in 0..n
        invariant
            n == links@.len(),
            match found {
                Some(j) => j < i && links@.take(i as int).filter(link_pred(id@)).len() > 0
                    && links@.take(i as int).filter(link_pred(id@)).last() == links@[j as int],
                None => links@.take(i as int).filter(link_pred(id@)).len() == 0,
            },
    {
        proof { lemma_filter_take_step(links@, i as int, link_pred(id@)); }
        if str_eq(links[i].id.as_str(), id) {
            found = Some(i);
        }
    }
    proof { lemma_take_all(links@); }
    match found {
        Some(j) => match &links[j].parent {
            Some(p) => Some(p.clone()),
            None => None,
        },
        None => None,
    }
}

/// The permissions table, with the file and folder placements that
/// inheritance walks through.
pub struct PermissionsRepository {
    pub permissions: Vec<PermissionRecord>,
    pub file_parents: Vec<ParentLink>,
    pub folder_parents: Vec<ParentLink>,
}

impl PermissionsRepository {
    /// The table holds at most one permission per user and resource.
    pub open spec fn wf(&self) -> bool {
        unique_keys(self.permissions@)
    }

    /// Whether the table holds at most one permission per user and resource.
    pub fn check_wf(&self) -> (b: bool)
        ensures
            b == self.wf(),
    {
        let n = self.permissions.len();
        let mut i: usize = 0;
        while i < n
            invariant
                n == self.permissions@.len(),
                i <= n,
                forall|a: int, b: int| 0 <= a < b < i ==> !key_matches(
                    self.permissions@[b],
                    self.permissions@[a].resource_type,
                    self.permissions@[a].resource_id@,
                    self.permissions@[a].user_id@,
                ),
            decreases n - i,
        {
            let mut j: usize = 0;
            while j < i
                invariant
                    n == self.permissions@.len(),
                    i < n,
                    j <= i,
                    forall|a: int| 0 <= a < j ==> !key_matches(
                        self.permissions@[i as int],
                        self.permissions@[a].resource_type,
                        self.permissions@[a].resource_id@,
                        self.permissions@[a].user_id@,
                    ),
                decreases i - j,
            {
                let q = &self.permissions[j];
                if row_matches(&self.permissions[i], q.resource_type, q.resource_id.as_str(), q.user_id.as_str()) {
                    proof { lemma_two_rows_not_unique(self.permissions@, j as int, i as int); }
                    return false;
                }
                j += 1;
            }
            i += 1;
        }
        proof { lemma_distinct_rows_unique(self.permissions@); }
        true
    }

    /// The permission of `user_id` on `(resource_type, resource_id)`.
    pub fn find_permission(&self, resource_type: ResourceKind, resource_id: &str, user_id: &str) -> (r: Option<PermissionRecord>)
        ensures
            r == lookup(self.permissions@, resource_type, resource_id@, user_id@),
    {
        let n = self.permissions.len();
        let ghost pred = key_pred(resource_type, resource_id@, user_id@);
        let mut found: Option<usize> = None;
        for i in 0..n
            invariant
                n == self.permissions@.len(),
                pred == key_pred(resource_type, resource_id@, user_id@),
                match found {
                    Some(j) => j < i && self.permissions@.take(i as int).filter(pred).len() > 0
                        && self.permissions@.take(i as int).filter(pred).last() == self.permissions@[j as int],
                    None => self.permissions@.take(i as int).filter(pred).len() == 0,
                },
        {
            proof { lemma_filter_take_step(self.permissions@, i as int, pred); }
            if row_matches(&self.permissions[i], resource_type, resource_id, user_id) {
                found = Some(i);
            }
        }
        proof { lemma_take_all(self.permissions@); }
        match found {
            Some(j) => Some(self.permissions[j].duplicate()),
            None => None,
        }
    }

    /// Every permission on `(resource_type, resource_id)`, in table order.
    pub fn list_permissions(&self, resource_type: ResourceKind, resource_id: &str) -> (r: Vec<PermissionRecord>)
        ensures
            r@ == rows_on(self.permissions@, resource_type, resource_id@),
    {
        let n = self.permissions.len();
        let ghost pred = resource_pred(resource_type, resource_id@);
        let mut out: Vec<PermissionRecord> = Vec::new();
        for i in 0..n
            invariant
                n == self.permissions@.len(),
                pred == resource_pred(resource_type, resource_id@),
                out@ == self.permissions@.take(i as int).filter(pred),
        {
            proof { lemma_filter_take_step(self.permissions@, i as int, pred); }
            if row_on(&self.permissions[i], resource_type, resource_id) {
                out.push(self.permissions[i].duplicate());
            }
        }
        proof { lemma_take_all(self.permissions@); }
        out
    }

    /// How many owners `(resource_type, resource_id)` has.
    pub fn count_owners(&self, resource_type: ResourceKind, resource_id: &str) -> (c: usize)
        ensures
            c == owner_count(self.permissions@, resource_type, resource_id@),
    {
        let n = self.permissions.len();
        let ghost pred = owner_pred(resource_type, resource_id@);
        let mut c: usize = 0;
        for i in 0..n
            invariant
                n == self.permissions@.len(),
                pred == owner_pred(resource_type, resource_id@),
                c == self.permissions@.take(i as int).filter(pred).len(),
                c <= i,
        {
            proof { lemma_filter_take_step(self.permissions@, i as int, pred); }
            if row_on(&self.permissions[i], resource_type, resource_id) && self.permissions[i].role == Role::Owner {
                c += 1;
            }
        }
        proof { lemma_take_all(self.permissions@); }
        c
    }

    /// Removes the permission of `user_id` on `(resource_type, resource_id)`;
    /// returns how many rows went.
    pub fn delete_permission(&mut self, resource_type: ResourceKind, resource_id: &str, user_id: &str) -> (removed: usize)
        ensures
            final(self).permissions@ == without_key(old(self).permissions@, resource_type, resource_id@, user_id@),
            removed == rows_of(old(self).permissions@, resource_type, resource_id@, user_id@).len(),
            final(self).file_parents@ == old(self).file_parents@,
            final(self).folder_parents@ == old(self).folder_parents@,
    {
        let n = self.permissions.len();
        let ghost keep = other_key_pred(resource_type, resource_id@, user_id@);
        let ghost drop = key_pred(resource_type, resource_id@, user_id@);
        let mut out: Vec<PermissionRecord> = Vec::new();
        let mut removed: usize = 0;
        for i in 0..n
            invariant
                n == self.permissions@.len(),
                keep == other_key_pred(resource_type, resource_id@, user_id@),
                drop == key_pred(resource_type, resource_id@, user_id@),
                out@ == self.permissions@.take(i as int).filter(keep),
                removed == self.permissions@.take(i as int).filter(drop).len(),
                removed <= i,
        {
            proof {
                lemma_filter_take_step(self.permissions@, i as int, keep);
                lemma_filter_take_step(self.permissions@, i as int, drop);
            }
            if row_matches(&self.permissions[i], resource_type, resource_id, user_id) {
                removed += 1;
            } else {
                out.push(self.permissions[i].duplicate());
            }
        }
        proof { lemma_take_all(self.permissions@); }
        self.permissions = out;
        removed
    }

    /// Changes the role of the permission of `user_id` on
    /// `(resource_type, resource_id)`; returns how many rows changed.
    pub fn update_permission_role(&mut self, resource_type: ResourceKind, resource_id: &str, user_id: &str, role: Role) -> (changed: usize)
        ensures
            final(self).permissions@ == with_role(old(self).permissions@, resource_type, resource_id@, user_id@, role),
            changed == rows_of(old(self).permissions@, resource_type, resource_id@, user_id@).len(),
            final(self).file_parents@ == old(self).file_parents@,
            final(self).folder_parents@ == old(self).folder_parents@,
    {
        let n = self.permissions.len();
        let ghost f = set_role_fn(resource_type, resource_id@, user_id@, role);
        let ghost drop = key_pred(resource_type, resource_id@, user_id@);
        let mut out: Vec<PermissionRecord> = Vec::new();
        let mut changed: usize = 0;
        for i in 0..n
            invariant
                n == self.permissions@.len(),
                f == set_role_fn(resource_type, resource_id@, user_id@, role),
                drop == key_pred(resource_type, resource_id@, user_id@),
                out@ == self.permissions@.take(i as int).map_values(f),
                changed == self.permissions@.take(i as int).filter(drop).len(),
                changed <= i,
        {
            proof {
                lemma_map_take_step(self.permissions@, i as int, f);
                lemma_filter_take_step(self.permissions@, i as int, drop);
            }
            let mut row = self.permissions[i].duplicate();
            if row_matches(&row, resource_type, resource_id, user_id) {
                row.role = role;
                changed += 1;
            }
            out.push(row);
        }
        proof { lemma_take_all(self.permissions@); }
        self.permissions = out;
        changed
    }

    /// Replaces any permission of the record's user on the record's resource
    /// with the record; returns the stored row.
    pub fn upsert_permission(&mut self, record: PermissionRecord) -> (stored: PermissionRecord)
        ensures
            final(self).permissions@ == without_key(old(self).permissions@, record.resource_type, record.resource_id@, record.user_id@).push(record),
            stored == record,
            final(self).file_parents@ == old(self).file_parents@,
            final(self).folder_parents@ == old(self).folder_parents@,
    {
        let rt = record.resource_type;
        let rid = record.resource_id.clone();
        let uid = record.user_id.clone();
        self.delete_permission(rt, rid.as_str(), uid.as_str());
        let stored = record.duplicate();
        self.permissions.push(record);
        stored
    }

    /// The folder that holds `file_id`, if any.
    pub fn get_file_folder_id(&self, file_id: &str) -> (r: Option<String>)
        ensures
            opt_view(r) == parent_of(self.file_parents@, file_id@),
    {
        find_parent(&self.file_parents, file_id)
    }

    /// The parent of `folder_id`, if any.
    pub fn get_folder_parent_id(&self, folder_id: &str) -> (r: Option<String>)
        ensures
            opt_view(r) == parent_of(self.folder_parents@, folder_id@),
    {
        find_parent(&self.folder_parents, folder_id)
    }

    /// The ids of the resources of kind `resource_type` that `user_id` owns,
    /// in table order.
    pub fn list_owned_resource_ids(&self, user_id: &str, resource_type: ResourceKind) -> (r: Vec<String>)
        ensures
            crate::text::id_list(r@) == self.permissions@.filter(owned_by(user_id@, resource_type)).map_values(|p: PermissionRecord| p.resource_id@),
    {
        let rows = crate::rows::select(&self.permissions, is_owned_by, &(user_id, resource_type), Ghost(owned_by(user_id@, resource_type)));
        let mut ids: Vec<String> = Vec::new();
        for i in 0..rows.len()
            invariant
                ids@.len() == i,
                forall|k: int| 0 <= k < i ==> #[trigger] ids@[k]@ == rows@[k].resource_id@,
        {
            ids.push(rows[i].resource_id.clone());
        }
        assert(crate::text::id_list(ids@) =~= rows@.map_values(|p: PermissionRecord| p.resource_id@));
        ids
    }

    /// The permissions of `user_id` on resources it does not own ("shared
    /// with me"), in table order.
    pub fn list_shared_with_user(&self, user_id: &str) -> (r: Vec<PermissionRecord>)
        ensures
            r@ == self.permissions@.filter(shared_with(user_id@)),
    {
        crate::rows::select(&self.permissions, is_shared_with, &user_id, Ghost(shared_with(user_id@)))
    }
}

/// Selects the owner rows of `user` on resources of kind `kind`.
pub open spec fn owned_by(user: Seq<char>, kind: ResourceKind) -> spec_fn(PermissionRecord) -> bool {
    |p: PermissionRecord| p.user_id@ == user && p.resource_type == kind && p.role == Role::Owner
}

/// Selects the rows of `user` that are not ownership.
pub open spec fn shared_with(user: Seq<char>) -> spec_fn(PermissionRecord) -> bool {
    |p: PermissionRecord| p.user_id@ == user && p.role != Role::Owner
}

/// Whether `p` is an owner row of `k.0` on a resource of kind `k.1`.
pub fn is_owned_by(k: &(&str, ResourceKind), p: &PermissionRecord) -> (b: bool)
    ensures
        b == owned_by(k.0@, k.1)(*p),
{
    str_eq(p.user_id.as_str(), k.0) && p.resource_type == k.1 && p.role == Role::Owner
}

/// Whether `p` is a row of `k` that is not ownership.
pub fn is_shared_with(k: &&str, p: &PermissionRecord) -> (b: bool)
    ensures
        b == shared_with(k@)(*p),
{
    str_eq(p.user_id.as_str(), *k) && p.role != Role::Owner
}

/// Two rows with one key break uniqueness.
proof fn lemma_two_rows_not_unique(s: Seq<PermissionRecord>, a: int, b: int)
    requires
        0 <= a < b < s.len(),
        key_matches(s[b], s[a].resource_type, s[a].resource_id@, s[a].user_id@),
    ensures
        !unique_keys(s),
{
    let k = s[a].resource_type;
    let r = s[a].resource_id@;
    let u = s[a].user_id@;
    lemma_filter_two(s, key_pred(k, r, u), a, b);
    assert(rows_of(s, k, r, u).len() >= 2);
}

/// Rows whose keys all differ are unique.
proof fn lemma_distinct_rows_unique(s: Seq<PermissionRecord>)
    requires
        forall|a: int, b: int| 0 <= a < b < s.len() ==> !key_matches(
            s[b],
            s[a].resource_type,
            s[a].resource_id@,
            s[a].user_id@,
        ),
    ensures
        unique_keys(s),
    decreases s.len(),
{
    if s.len() > 0 {
        let t = s.drop_last();
        assert forall|a: int, b: int| 0 <= a < b < t.len() implies !key_matches(
            t[b],
            t[a].resource_type,
            t[a].resource_id@,
            t[a].user_id@,
        ) by {
            assert(t[a] == s[a] && t[b] == s[b]);
        }
        lemma_distinct_rows_unique(t);
        assert forall|kind: ResourceKind, res: Seq<char>, user: Seq<char>|
            #[trigger] rows_of(s, kind, res, user).len() <= 1 by {
            reveal(Seq::filter);
            assert(rows_of(t, kind, res, user).len() <= 1);
            if key_matches(s.last(), kind, res, user) {
                assert forall|i: int| 0 <= i < t.len() implies !key_pred(kind, res, user)(#[trigger] t[i]) by {
                    assert(s[i] == t[i]);
                    assert(!key_matches(s[s.len() - 1], s[i].resource_type, s[i].resource_id@, s[i].user_id@));
                }
                lemma_filter_none(t, key_pred(kind, res, user));
            }
        }
    }
}

/// Which rows `without_key` keeps of those another filter selects.
proof fn lemma_without_key_filter(s: Seq<PermissionRecord>, kind: ResourceKind, res: Seq<char>, user: Seq<char>, q: spec_fn(PermissionRecord) -> bool)
    ensures
        without_key(s, kind, res, user).filter(q) == s.filter(|p: PermissionRecord| !key_matches(p, kind, res, user) && q(p)),
{
    lemma_filter_filter(s, other_key_pred(kind, res, user), q);
    lemma_filter_ext(
        s,
        |x: PermissionRecord| other_key_pred(kind, res, user)(x) && q(x),
        |p: PermissionRecord| !key_matches(p, kind, res, user) && q(p),
    );
}

/// Removing one key leaves the rows of every other key as they were.
pub proof fn lemma_rows_of_without(s: Seq<PermissionRecord>, kind: ResourceKind, res: Seq<char>, user: Seq<char>, k2: ResourceKind, r2: Seq<char>, u2: Seq<char>)
    ensures
        rows_of(without_key(s, kind, res, user), k2, r2, u2) == (if kind == k2 && res == r2 && user == u2 {
            Seq::<PermissionRecord>::empty()
        } else {
            rows_of(s, k2, r2, u2)
        }),
{
    lemma_without_key_filter(s, kind, res, user, key_pred(k2, r2, u2));
    if kind == k2 && res == r2 && user == u2 {
        assert forall|i: int| 0 <= i < s.len() implies !(|p: PermissionRecord| !key_matches(p, kind, res, user) && key_pred(k2, r2, u2)(p))(#[trigger] s[i]) by {}
        lemma_filter_none(s, |p: PermissionRecord| !key_matches(p, kind, res, user) && key_pred(k2, r2, u2)(p));
        assert(rows_of(without_key(s, kind, res, user), k2, r2, u2) =~= Seq::<PermissionRecord>::empty());
    } else {
        lemma_filter_ext(s, |p: PermissionRecord| !key_matches(p, kind, res, user) && key_pred(k2, r2, u2)(p), key_pred(k2, r2, u2));
    }
}

/// Adding a row adds it to the rows of its own key only.
pub proof fn lemma_rows_of_push(s: Seq<PermissionRecord>, rec: PermissionRecord, k2: ResourceKind, r2: Seq<char>, u2: Seq<char>)
    ensures
        rows_of(s.push(rec), k2, r2, u2) == (if key_matches(rec, k2, r2, u2) {
            rows_of(s, k2, r2, u2).push(rec)
        } else {
            rows_of(s, k2, r2, u2)
        }),
{
    s.lemma_filter_push(rec, key_pred(k2, r2, u2));
}

/// The table after replacing the permission of the record's key.
pub open spec fn upserted(s: Seq<PermissionRecord>, rec: PermissionRecord) -> Seq<PermissionRecord> {
    without_key(s, rec.resource_type, rec.resource_id@, rec.user_id@).push(rec)
}

/// After an upsert, the record's key maps to the record and every other key
/// is unchanged; uniqueness is kept.
pub proof fn lemma_upserted(s: Seq<PermissionRecord>, rec: PermissionRecord)
    requires
        unique_keys(s),
    ensures
        unique_keys(upserted(s, rec)),
        forall|k2: ResourceKind, r2: Seq<char>, u2: Seq<char>| #[trigger] lookup(upserted(s, rec), k2, r2, u2) == (if key_matches(rec, k2, r2, u2) {
            Some(rec)
        } else {
            lookup(s, k2, r2, u2)
        }),
{
    let w = without_key(s, rec.resource_type, rec.resource_id@, rec.user_id@);
    assert forall|k2: ResourceKind, r2: Seq<char>, u2: Seq<char>|
        #[trigger] rows_of(upserted(s, rec), k2, r2, u2).len() <= 1 && lookup(upserted(s, rec), k2, r2, u2) == (if key_matches(rec, k2, r2, u2) {
            Some(rec)
        } else {
            lookup(s, k2, r2, u2)
        }) by {
        lemma_rows_of_without(s, rec.resource_type, rec.resource_id@, rec.user_id@, k2, r2, u2);
        lemma_rows_of_push(w, rec, k2, r2, u2);
        assert(rows_of(s, k2, r2, u2).len() <= 1);
    }
    assert forall|k2: ResourceKind, r2: Seq<char>, u2: Seq<char>|
        #[trigger] lookup(upserted(s, rec), k2, r2, u2) == (if key_matches(rec, k2, r2, u2) {
            Some(rec)
        } else {
            lookup(s, k2, r2, u2)
        }) by {
        assert(rows_of(upserted(s, rec), k2, r2, u2).len() <= 1);
    }
}

/// After removing a key, that key has no row and every other key is
/// unchanged; uniqueness is kept.
pub proof fn lemma_removed(s: Seq<PermissionRecord>, kind: ResourceKind, res: Seq<char>, user: Seq<char>)
    requires
        unique_keys(s),
    ensures
        unique_keys(without_key(s, kind, res, user)),
        forall|k2: ResourceKind, r2: Seq<char>, u2: Seq<char>| #[trigger] lookup(without_key(s, kind, res, user), k2, r2, u2) == (if kind == k2 && res == r2 && user == u2 {
            None
        } else {
            lookup(s, k2, r2, u2)
        }),
{
    assert forall|k2: ResourceKind, r2: Seq<char>, u2: Seq<char>|
        #[trigger] rows_of(without_key(s, kind, res, user), k2, r2, u2).len() <= 1 by {
        lemma_rows_of_without(s, kind, res, user, k2, r2, u2);
        assert(rows_of(s, k2, r2, u2).len() <= 1);
    }
    assert forall|k2: ResourceKind, r2: Seq<char>, u2: Seq<char>|
        #[trigger] lookup(without_key(s, kind, res, user), k2, r2, u2) == (if kind == k2 && res == r2 && user == u2 {
            None
        } else {
            lookup(s, k2, r2, u2)
        }) by {
        lemma_rows_of_without(s, kind, res, user, k2, r2, u2);
    }
}

/// After changing the role of a key, that key's row carries the new role,
/// every other key is unchanged, and uniqueness is kept.
pub proof fn lemma_role_set(s: Seq<PermissionRecord>, kind: ResourceKind, res: Seq<char>, user: Seq<char>, role: Role)
    requires
        unique_keys(s),
    ensures
        unique_keys(with_role(s, kind, res, user, role)),
        forall|k2: ResourceKind, r2: Seq<char>, u2: Seq<char>| #[trigger] lookup(with_role(s, kind, res, user, role), k2, r2, u2) == (if kind == k2 && res == r2 && user == u2 {
            match lookup(s, k2, r2, u2) {
                Some(p) => Some(PermissionRecord { role: role, ..p }),
                None => None,
            }
        } else {
            lookup(s, k2, r2, u2)
        }),
{
    let f = set_role_fn(kind, res, user, role);
    assert forall|k2: ResourceKind, r2: Seq<char>, u2: Seq<char>|
        #[trigger] rows_of(with_role(s, kind, res, user, role), k2, r2, u2) == (if kind == k2 && res == r2 && user == u2 {
            rows_of(s, k2, r2, u2).map_values(f)
        } else {
            rows_of(s, k2, r2, u2)
        }) by {
        let q = key_pred(k2, r2, u2);
        assert forall|x: PermissionRecord| #[trigger] q(f(x)) == q(x) by {}
        if kind == k2 && res == r2 && user == u2 {
            lemma_map_filter_commute(s, f, q);
        } else {
            assert forall|x: PermissionRecord| q(x) implies #[trigger] f(x) == x by {}
            lemma_map_filter_same(s, f, q);
        }
    }
    assert forall|k2: ResourceKind, r2: Seq<char>, u2: Seq<char>|
        #[trigger] rows_of(with_role(s, kind, res, user, role), k2, r2, u2).len() <= 1 by {
        assert(rows_of(with_role(s, kind, res, user, role), k2, r2, u2) == (if kind == k2 && res == r2 && user == u2 {
            rows_of(s, k2, r2, u2).map_values(f)
        } else {
            rows_of(s, k2, r2, u2)
        }));
        assert(rows_of(s, k2, r2, u2).len() <= 1);
    }
    assert forall|k2: ResourceKind, r2: Seq<char>, u2: Seq<char>|
        #[trigger] lookup(with_role(s, kind, res, user, role), k2, r2, u2) == (if kind == k2 && res == r2 && user == u2 {
            match lookup(s, k2, r2, u2) {
                Some(p) => Some(PermissionRecord { role: role, ..p }),
                None => None,
            }
        } else {
            lookup(s, k2, r2, u2)
        }) by {
        assert(rows_of(with_role(s, kind, res, user, role), k2, r2, u2) == (if kind == k2 && res == r2 && user == u2 {
            rows_of(s, k2, r2, u2).map_values(f)
        } else {
            rows_of(s, k2, r2, u2)
        }));
    }
}

/// The owner rows of `(kind, res)` split by whether they belong to `user`.
proof fn lemma_owner_split(s: Seq<PermissionRecord>, kind: ResourceKind, res: Seq<char>, user: Seq<char>)
    requires
        unique_keys(s),
    ensures
        owner_count(s, kind, res) == owner_count(without_key(s, kind, res, user), kind, res) + (if direct_role(s, kind, res, user) == Some(Role::Owner) {
            1int
        } else {
            0int
        }),
{
    let op = owner_pred(kind, res);
    let kp = key_pred(kind, res, user);
    lemma_filter_split_len(s, op, kp);
    lemma_without_key_filter(s, kind, res, user, op);
    lemma_filter_ext(s, |x: PermissionRecord| op(x) && !kp(x), |p: PermissionRecord| !key_matches(p, kind, res, user) && op(p));
    lemma_filter_filter(s, kp, op);
    lemma_filter_ext(s, |x: PermissionRecord| kp(x) && op(x), |x: PermissionRecord| op(x) && kp(x));
    let m = rows_of(s, kind, res, user);
    assert(m.len() <= 1);
    if m.len() == 1 {
        lemma_len_one(m);
        lemma_filter_single(m.last(), op);
    } else {
        assert(m =~= Seq::<PermissionRecord>::empty());
        reveal(Seq::filter);
    }
}

/// Removing a user's permission lowers the owner count of its resource by
/// one exactly when that permission was an owner's.
pub proof fn lemma_owner_count_removed(s: Seq<PermissionRecord>, kind: ResourceKind, res: Seq<char>, user: Seq<char>)
    requires
        unique_keys(s),
    ensures
        owner_count(without_key(s, kind, res, user), kind, res) == owner_count(s, kind, res) - (if direct_role(s, kind, res, user) == Some(Role::Owner) {
            1int
        } else {
            0int
        }),
{
    lemma_owner_split(s, kind, res, user);
}

/// Changing a user's role to one that is not owner lowers the owner count of
/// its resource by one exactly when the user was an owner.
pub proof fn lemma_owner_count_role_set(s: Seq<PermissionRecord>, kind: ResourceKind, res: Seq<char>, user: Seq<char>, role: Role)
    requires
        unique_keys(s),
        role != Role::Owner,
    ensures
        owner_count(with_role(s, kind, res, user, role), kind, res) == owner_count(s, kind, res) - (if direct_role(s, kind, res, user) == Some(Role::Owner) {
            1int
        } else {
            0int
        }),
{
    let t = with_role(s, kind, res, user, role);
    lemma_role_set(s, kind, res, user, role);
    lemma_owner_split(s, kind, res, user);
    lemma_owner_split(t, kind, res, user);
    // the rows of other keys are untouched by the role change
    let f = set_role_fn(kind, res, user, role);
    let kp = other_key_pred(kind, res, user);
    assert forall|x: PermissionRecord| #[trigger] kp(f(x)) == kp(x) by {}
    assert forall|x: PermissionRecord| kp(x) implies #[trigger] f(x) == x by {}
    lemma_map_filter_same(s, f, kp);
    assert(without_key(t, kind, res, user) == without_key(s, kind, res, user));
    assert(lookup(t, kind, res, user) == match lookup(s, kind, res, user) {
        Some(p) => Some(PermissionRecord { role: role, ..p }),
        None => None,
    });
}

/// A request to grant a role on a resource to a user.
pub struct GrantPermissionRequest {
    pub user_id: String,
    pub role: Role,
    pub user_email: String,
    pub user_name: String,
}

/// A request to change a user's role on a resource.
pub struct UpdatePermissionRequest {
    pub role: Role,
}

/// A request to hand ownership of a resource to another user.
pub struct TransferOwnershipRequest {
    pub new_owner_id: String,
}

/// The effective role of `user` on `(kind, id)` in the repository.
pub open spec fn repo_role(r: PermissionsRepository, user: Seq<char>, kind: ResourceKind, id: Seq<char>) -> Option<Role> {
    effective_role(r.permissions@, r.file_parents@, r.folder_parents@, user, kind, id)
}

/// What revoking `target`'s permission does to the table `s` when the
/// caller's effective role is `caller_role`.
pub open spec fn revoke_outcome(s: Seq<PermissionRecord>, caller_role: Option<Role>, kind: ResourceKind, res: Seq<char>, target: Seq<char>) -> (Result<(), ApiError>, Seq<PermissionRecord>) {
    if caller_role != Some(Role::Owner) {
        (Err(ApiError::OwnersOnly(OwnerOnlyAction::RevokePermissions)), s)
    } else {
        match lookup(s, kind, res, target) {
            None => (Err(ApiError::PermissionNotFound), s),
            Some(p) => if p.role == Role::Owner && owner_count(s, kind, res) <= 1 {
                (Err(ApiError::LastOwnerRevoke), s)
            } else {
                (Ok(()), without_key(s, kind, res, target))
            },
        }
    }
}

/// What changing `target`'s role to `role` does to the table `s` when the
/// caller's effective role is `caller_role`.
pub open spec fn update_outcome(s: Seq<PermissionRecord>, caller_role: Option<Role>, kind: ResourceKind, res: Seq<char>, target: Seq<char>, role: Role) -> (Result<PermissionRecord, ApiError>, Seq<PermissionRecord>) {
    if caller_role != Some(Role::Owner) {
        (Err(ApiError::OwnersOnly(OwnerOnlyAction::UpdatePermissions)), s)
    } else if role == Role::Owner {
        (Err(ApiError::CannotSetOwner), s)
    } else {
        match lookup(s, kind, res, target) {
            None => (Err(ApiError::PermissionNotFound), s),
            Some(p) => if p.role == Role::Owner && owner_count(s, kind, res) <= 1 {
                (Err(ApiError::LastOwnerRoleChange), s)
            } else {
                (Ok(PermissionRecord { role: role, ..p }), with_role(s, kind, res, target, role))
            },
        }
    }
}

/// The table after ownership of `(kind, res)` passes from `caller` to
/// `new_owner` through the record `rec`.
pub open spec fn transferred(s: Seq<PermissionRecord>, kind: ResourceKind, res: Seq<char>, caller: Seq<char>, rec: PermissionRecord) -> Seq<PermissionRecord> {
    upserted(with_role(s, kind, res, caller, Role::Editor), rec)
}

impl PermissionsRepository {
    /// The role of `user_id` on `folder_id` or the nearest enclosing folder
    /// that grants one, looking at no more than the walk limit of folders.
    pub fn get_effective_role_in_folder(&self, user_id: &str, folder_id: &str) -> (r: Option<Role>)
        ensures
            r == role_in_folder(self.permissions@, self.folder_parents@, user_id@, folder_id@, walk_limit()),
    {
        let mut current: String = folder_id.to_owned();
        let mut k: usize = 0;
        while k < 50
            invariant
                k <= 50,
                role_in_folder(self.permissions@, self.folder_parents@, user_id@, folder_id@, walk_limit())
                    == role_in_folder(self.permissions@, self.folder_parents@, user_id@, current@, (50 - k) as nat),
            decreases 50 - k,
        {
            if let Some(perm) = self.find_permission(ResourceKind::Folder, current.as_str(), user_id) {
                return Some(perm.role);
            }
            match self.get_folder_parent_id(current.as_str()) {
                Some(parent_id) => {
                    current = parent_id;
                },
                None => {
                    return None;
                },
            }
            k += 1;
        }
        None
    }

    /// The effective role of `user_id` on `(resource_type, resource_id)`:
    /// a direct permission, else the role inherited from enclosing folders.
    pub fn get_effective_role(&self, user_id: &str, resource_type: ResourceKind, resource_id: &str) -> (r: Option<Role>)
        ensures
            r == repo_role(*self, user_id@, resource_type, resource_id@),
    {
        if let Some(perm) = self.find_permission(resource_type, resource_id, user_id) {
            return Some(perm.role);
        }
        let up = match resource_type {
            ResourceKind::File => self.get_file_folder_id(resource_id),
            ResourceKind::Folder => self.get_folder_parent_id(resource_id),
        };
        match up {
            Some(folder_id) => self.get_effective_role_in_folder(user_id, folder_id.as_str()),
            None => None,
        }
    }
}

/// The permission rules of the drive over a permissions repository.
pub struct PermissionsService {
    pub repo: PermissionsRepository,
}

impl PermissionsService {
    /// A service over `repo`.
    pub fn new(repo: PermissionsRepository) -> (s: Self)
        ensures
            s.repo == repo,
    {
        PermissionsService { repo }
    }

    /// Records `user_id` as owner of a resource it just created.
    pub fn grant_ownership(&mut self, user_id: &str, user_email: &str, user_name: &str, resource_type: ResourceKind, resource_id: &str)
        ensures
            old(self).repo.wf() ==> final(self).repo.wf(),
            exists|rec: PermissionRecord| {
                &&& rec.resource_type == resource_type
                &&& rec.resource_id@ == resource_id@
                &&& rec.user_id@ == user_id@
                &&& rec.role == Role::Owner
                &&& rec.granted_by@ == user_id@
                &&& rec.user_email@ == user_email@
                &&& rec.user_name@ == user_name@
                &&& #[trigger] upserted(old(self).repo.permissions@, rec) == final(self).repo.permissions@
            },
            final(self).repo.file_parents@ == old(self).repo.file_parents@,
            final(self).repo.folder_parents@ == old(self).repo.folder_parents@,
    {
        let record = PermissionRecord {
            id: new_uuid(),
            resource_type,
            resource_id: resource_id.to_owned(),
            user_id: user_id.to_owned(),
            role: Role::Owner,
            granted_by: user_id.to_owned(),
            user_email: user_email.to_owned(),
            user_name: user_name.to_owned(),
            created_at: crate::runtime::now_utc(),
        };
        proof {
            if old(self).repo.wf() {
                lemma_upserted(self.repo.permissions@, record);
            }
        }
        let ghost rec = record;
        self.repo.upsert_permission(record);
        assert(upserted(old(self).repo.permissions@, rec) == self.repo.permissions@);
    }

    /// Every permission on a resource; only its owners may see them.
    pub fn list_permissions(&self, caller_id: &str, resource_type: ResourceKind, resource_id: &str) -> (r: Result<Vec<PermissionRecord>, ApiError>)
        ensures
            repo_role(self.repo, caller_id@, resource_type, resource_id@) == Some(Role::Owner) ==>
                r == Ok::<Vec<PermissionRecord>, ApiError>(r->Ok_0) && r->Ok_0@ == rows_on(self.repo.permissions@, resource_type, resource_id@),
            repo_role(self.repo, caller_id@, resource_type, resource_id@) != Some(Role::Owner) ==>
                r == Err::<Vec<PermissionRecord>, ApiError>(ApiError::OwnersOnly(OwnerOnlyAction::ViewPermissions)),
    {
        let caller_role = self.repo.get_effective_role(caller_id, resource_type, resource_id);
        if caller_role != Some(Role::Owner) {
            return Err(ApiError::OwnersOnly(OwnerOnlyAction::ViewPermissions));
        }
        Ok(self.repo.list_permissions(resource_type, resource_id))
    }

    /// Grants `req.role` on a resource to `req.user_id`, replacing any
    /// permission that user held there; only owners may grant, and never the
    /// owner role.
    pub fn grant_permission(&mut self, caller_id: &str, resource_type: ResourceKind, resource_id: &str, req: GrantPermissionRequest) -> (r: Result<PermissionRecord, ApiError>)
        requires
            old(self).repo.wf(),
        ensures
            final(self).repo.wf(),
            final(self).repo.file_parents@ == old(self).repo.file_parents@,
            final(self).repo.folder_parents@ == old(self).repo.folder_parents@,
            repo_role(old(self).repo, caller_id@, resource_type, resource_id@) != Some(Role::Owner) ==>
                r == Err::<PermissionRecord, ApiError>(ApiError::OwnersOnly(OwnerOnlyAction::GrantPermissions)) && final(self).repo.permissions@ == old(self).repo.permissions@,
            repo_role(old(self).repo, caller_id@, resource_type, resource_id@) == Some(Role::Owner) && req.role == Role::Owner ==>
                r == Err::<PermissionRecord, ApiError>(ApiError::CannotGrantOwner) && final(self).repo.permissions@ == old(self).repo.permissions@,
            repo_role(old(self).repo, caller_id@, resource_type, resource_id@) == Some(Role::Owner) && req.role != Role::Owner ==> {
                &&& r is Ok
                &&& r->Ok_0.resource_type == resource_type
                &&& r->Ok_0.resource_id@ == resource_id@
                &&& r->Ok_0.user_id@ == req.user_id@
                &&& r->Ok_0.role == req.role
                &&& r->Ok_0.granted_by@ == caller_id@
                &&& r->Ok_0.user_email@ == req.user_email@
                &&& r->Ok_0.user_name@ == req.user_name@
                &&& final(self).repo.permissions@ == upserted(old(self).repo.permissions@, r->Ok_0)
            },
    {
        let caller_role = self.repo.get_effective_role(caller_id, resource_type, resource_id);
        if caller_role != Some(Role::Owner) {
            return Err(ApiError::OwnersOnly(OwnerOnlyAction::GrantPermissions));
        }
        if req.role == Role::Owner {
            return Err(ApiError::CannotGrantOwner);
        }
        let record = PermissionRecord {
            id: new_uuid(),
            resource_type,
            resource_id: resource_id.to_owned(),
            user_id: req.user_id,
            role: req.role,
            granted_by: caller_id.to_owned(),
            user_email: req.user_email,
            user_name: req.user_name,
            created_at: crate::runtime::now_utc(),
        };
        proof { lemma_upserted(self.repo.permissions@, record); }
        Ok(self.repo.upsert_permission(record))
    }

    /// Changes `target_user_id`'s role on a resource; only owners may, never
    /// to owner, and never for the last owner.
    pub fn update_permission(&mut self, caller_id: &str, resource_type: ResourceKind, resource_id: &str, target_user_id: &str, req: UpdatePermissionRequest) -> (r: Result<PermissionRecord, ApiError>)
        requires
            old(self).repo.wf(),
        ensures
            final(self).repo.wf(),
            final(self).repo.file_parents@ == old(self).repo.file_parents@,
            final(self).repo.folder_parents@ == old(self).repo.folder_parents@,
            (r, final(self).repo.permissions@) == update_outcome(
                old(self).repo.permissions@,
                repo_role(old(self).repo, caller_id@, resource_type, resource_id@),
                resource_type,
                resource_id@,
                target_user_id@,
                req.role,
            ),
    {
        let caller_role = self.repo.get_effective_role(caller_id, resource_type, resource_id);
        if caller_role != Some(Role::Owner) {
            return Err(ApiError::OwnersOnly(OwnerOnlyAction::UpdatePermissions));
        }
        if req.role == Role::Owner {
            return Err(ApiError::CannotSetOwner);
        }
        let existing = match self.repo.find_permission(resource_type, resource_id, target_user_id) {
            Some(p) => p,
            None => {
                return Err(ApiError::PermissionNotFound);
            },
        };
        if existing.role == Role::Owner {
            let owners = self.repo.count_owners(resource_type, resource_id);
            if owners <= 1 {
                return Err(ApiError::LastOwnerRoleChange);
            }
        }
        proof { lemma_role_set(self.repo.permissions@, resource_type, resource_id@, target_user_id@, req.role); }
        self.repo.update_permission_role(resource_type, resource_id, target_user_id, req.role);
        match self.repo.find_permission(resource_type, resource_id, target_user_id) {
            Some(p) => Ok(p),
            None => Err(ApiError::PermissionNotFound),
        }
    }

    /// Revokes `target_user_id`'s permission on a resource; only owners may,
    /// and never the last owner's.
    pub fn revoke_permission(&mut self, caller_id: &str, resource_type: ResourceKind, resource_id: &str, target_user_id: &str) -> (r: Result<(), ApiError>)
        requires
            old(self).repo.wf(),
        ensures
            final(self).repo.wf(),
            final(self).repo.file_parents@ == old(self).repo.file_parents@,
            final(self).repo.folder_parents@ == old(self).repo.folder_parents@,
            (r, final(self).repo.permissions@) == revoke_outcome(
                old(self).repo.permissions@,
                repo_role(old(self).repo, caller_id@, resource_type, resource_id@),
                resource_type,
                resource_id@,
                target_user_id@,
            ),
    {
        let caller_role = self.repo.get_effective_role(caller_id, resource_type, resource_id);
        if caller_role != Some(Role::Owner) {
            return Err(ApiError::OwnersOnly(OwnerOnlyAction::RevokePermissions));
        }
        let existing = match self.repo.find_permission(resource_type, resource_id, target_user_id) {
            Some(p) => p,
            None => {
                return Err(ApiError::PermissionNotFound);
            },
        };
        if existing.role == Role::Owner {
            let owners = self.repo.count_owners(resource_type, resource_id);
            if owners <= 1 {
                return Err(ApiError::LastOwnerRevoke);
            }
        }
        proof { lemma_removed(self.repo.permissions@, resource_type, resource_id@, target_user_id@); }
        let deleted = self.repo.delete_permission(resource_type, resource_id, target_user_id);
        if deleted == 0 {
            return Err(ApiError::PermissionNotFound);
        }
        Ok(())
    }

    /// Hands ownership of a resource from the caller, who becomes an editor,
    /// to `req.new_owner_id`; only owners may, and not to themselves.
    pub fn transfer_ownership(&mut self, caller_id: &str, resource_type: ResourceKind, resource_id: &str, req: TransferOwnershipRequest) -> (r: Result<(), ApiError>)
        requires
            old(self).repo.wf(),
        ensures
            final(self).repo.wf(),
            final(self).repo.file_parents@ == old(self).repo.file_parents@,
            final(self).repo.folder_parents@ == old(self).repo.folder_parents@,
            repo_role(old(self).repo, caller_id@, resource_type, resource_id@) != Some(Role::Owner) ==>
                r == Err::<(), ApiError>(ApiError::OwnersOnly(OwnerOnlyAction::TransferOwnership)) && final(self).repo.permissions@ == old(self).repo.permissions@,
            repo_role(old(self).repo, caller_id@, resource_type, resource_id@) == Some(Role::Owner) && req.new_owner_id@ == caller_id@ ==>
                r == Err::<(), ApiError>(ApiError::AlreadyOwner) && final(self).repo.permissions@ == old(self).repo.permissions@,
            repo_role(old(self).repo, caller_id@, resource_type, resource_id@) == Some(Role::Owner) && req.new_owner_id@ != caller_id@ ==> {
                &&& r is Ok
                &&& exists|rec: PermissionRecord| {
                    &&& rec.resource_type == resource_type
                    &&& rec.resource_id@ == resource_id@
                    &&& rec.user_id@ == req.new_owner_id@
                    &&& rec.role == Role::Owner
                    &&& rec.granted_by@ == caller_id@
                    &&& #[trigger] transferred(old(self).repo.permissions@, resource_type, resource_id@, caller_id@, rec) == final(self).repo.permissions@
                }
            },
    {
        let caller_role = self.repo.get_effective_role(caller_id, resource_type, resource_id);
        if caller_role != Some(Role::Owner) {
            return Err(ApiError::OwnersOnly(OwnerOnlyAction::TransferOwnership));
        }
        if str_eq(req.new_owner_id.as_str(), caller_id) {
            return Err(ApiError::AlreadyOwner);
        }
        let ghost s0 = self.repo.permissions@;
        proof { lemma_role_set(self.repo.permissions@, resource_type, resource_id@, caller_id@, Role::Editor); }
        self.repo.update_permission_role(resource_type, resource_id, caller_id, Role::Editor);
        let record = PermissionRecord {
            id: new_uuid(),
            resource_type,
            resource_id: resource_id.to_owned(),
            user_id: req.new_owner_id,
            role: Role::Owner,
            granted_by: caller_id.to_owned(),
            user_email: String::new(),
            user_name: String::new(),
            created_at: crate::runtime::now_utc(),
        };
        proof { lemma_upserted(self.repo.permissions@, record); }
        let stored = self.repo.upsert_permission(record);
        assert(transferred(s0, resource_type, resource_id@, caller_id@, stored) == self.repo.permissions@);
        Ok(())
    }

    /// The effective role of `user_id` on a resource.
    pub fn get_effective_role(&self, user_id: &str, resource_type: ResourceKind, resource_id: &str) -> (r: Option<Role>)
        ensures
            r == repo_role(self.repo, user_id@, resource_type, resource_id@),
    {
        self.repo.get_effective_role(user_id, resource_type, resource_id)
    }
}

/// A role found at the end of a chain of folders is inherited all the way
/// down it: from `chain[i]`, with at least enough steps left to reach the
/// end.
proof fn lemma_role_down_chain(
    perms: Seq<PermissionRecord>,
    folders: Seq<ParentLink>,
    user: Seq<char>,
    chain: Seq<Seq<char>>,
    role: Role,
    i: int,
    fuel: nat,
)
    requires
        0 <= i < chain.len(),
        fuel >= chain.len() - i,
        forall|j: int| 0 <= j < chain.len() - 1 ==> #[trigger] parent_of(folders, chain[j]) == Some(chain[j + 1]),
        forall|j: int| 0 <= j < chain.len() - 1 ==> #[trigger] direct_role(perms, ResourceKind::Folder, chain[j], user) is None,
        direct_role(perms, ResourceKind::Folder, chain[chain.len() - 1], user) == Some(role),
    ensures
        role_in_folder(perms, folders, user, chain[i], fuel) == Some(role),
    decreases chain.len() - i,
{
    if i < chain.len() - 1 {
        assert(parent_of(folders, chain[i]) == Some(chain[i + 1]));
        assert(direct_role(perms, ResourceKind::Folder, chain[i], user) is None);
        lemma_role_down_chain(perms, folders, user, chain, role, i + 1, (fuel - 1) as nat);
    }
}

/// Law: inheritance reaches 50 folders up. If a file sits in folder
/// `chain[0]`, each folder of `chain` (at most 50 of them) sits in the
/// next, the user holds no role on the file or on any folder of the chain
/// but the last, and a role `role` on the last, then the user's effective
/// role on the file is `role`; the same holds of a folder whose parent is
/// `chain[0]`, and of the walk that starts at `chain[0]`.
pub proof fn law_role_inherited_down_the_tree(
    perms: Seq<PermissionRecord>,
    files: Seq<ParentLink>,
    folders: Seq<ParentLink>,
    user: Seq<char>,
    kind: ResourceKind,
    id: Seq<char>,
    chain: Seq<Seq<char>>,
    role: Role,
)
    requires
        1 <= chain.len() <= 50,
        forall|j: int| 0 <= j < chain.len() - 1 ==> #[trigger] parent_of(folders, chain[j]) == Some(chain[j + 1]),
        forall|j: int| 0 <= j < chain.len() - 1 ==> #[trigger] direct_role(perms, ResourceKind::Folder, chain[j], user) is None,
        direct_role(perms, ResourceKind::Folder, chain[chain.len() - 1], user) == Some(role),
        direct_role(perms, kind, id, user) is None,
        match kind {
            ResourceKind::File => parent_of(files, id),
            ResourceKind::Folder => parent_of(folders, id),
        } == Some(chain[0]),
    ensures
        role_in_folder(perms, folders, user, chain[0], walk_limit()) == Some(role),
        effective_role(perms, files, folders, user, kind, id) == Some(role),
{
    lemma_role_down_chain(perms, folders, user, chain, role, 0, 50);
}

/// Law: revoking a permission never leaves a resource that had an owner
/// without one.
pub proof fn law_revoke_keeps_an_owner(s: Seq<PermissionRecord>, caller_role: Option<Role>, kind: ResourceKind, res: Seq<char>, target: Seq<char>)
    requires
        unique_keys(s),
        owner_count(s, kind, res) >= 1,
    ensures
        owner_count(revoke_outcome(s, caller_role, kind, res, target).1, kind, res) >= 1,
{
    lemma_owner_count_removed(s, kind, res, target);
}

/// Law: changing a role never leaves a resource that had an owner without
/// one.
pub proof fn law_update_keeps_an_owner(s: Seq<PermissionRecord>, caller_role: Option<Role>, kind: ResourceKind, res: Seq<char>, target: Seq<char>, role: Role)
    requires
        unique_keys(s),
        owner_count(s, kind, res) >= 1,
    ensures
        owner_count(update_outcome(s, caller_role, kind, res, target, role).1, kind, res) >= 1,
{
    if role != Role::Owner {
        lemma_owner_count_role_set(s, kind, res, target, role);
    }
}

/// Law: after a revocation succeeds, the target holds no direct permission on
/// the resource, and every other permission is as it was.
pub proof fn law_revoke_then_lookup(s: Seq<PermissionRecord>, caller_role: Option<Role>, kind: ResourceKind, res: Seq<char>, target: Seq<char>)
    requires
        unique_keys(s),
        revoke_outcome(s, caller_role, kind, res, target).0 is Ok,
    ensures
        direct_role(revoke_outcome(s, caller_role, kind, res, target).1, kind, res, target) is None,
        forall|k2: ResourceKind, r2: Seq<char>, u2: Seq<char>|
            !(k2 == kind && r2 == res && u2 == target) ==> #[trigger] lookup(revoke_outcome(s, caller_role, kind, res, target).1, k2, r2, u2) == lookup(s, k2, r2, u2),
{
    lemma_removed(s, kind, res, target);
}

/// Law: after a role change succeeds, the target holds the new role directly,
/// and every other permission is as it was.
pub proof fn law_update_then_lookup(s: Seq<PermissionRecord>, caller_role: Option<Role>, kind: ResourceKind, res: Seq<char>, target: Seq<char>, role: Role)
    requires
        unique_keys(s),
        update_outcome(s, caller_role, kind, res, target, role).0 is Ok,
    ensures
        direct_role(update_outcome(s, caller_role, kind, res, target, role).1, kind, res, target) == Some(role),
        forall|k2: ResourceKind, r2: Seq<char>, u2: Seq<char>|
            !(k2 == kind && r2 == res && u2 == target) ==> #[trigger] lookup(update_outcome(s, caller_role, kind, res, target, role).1, k2, r2, u2) == lookup(s, k2, r2, u2),
{
    lemma_role_set(s, kind, res, target, role);
}

/// Law: after a grant, the grantee holds exactly the granted role on the
/// resource, and every other permission is as it was.
pub proof fn law_grant_then_lookup(s: Seq<PermissionRecord>, rec: PermissionRecord)
    requires
        unique_keys(s),
    ensures
        unique_keys(upserted(s, rec)),
        direct_role(upserted(s, rec), rec.resource_type, rec.resource_id@, rec.user_id@) == Some(rec.role),
        forall|k2: ResourceKind, r2: Seq<char>, u2: Seq<char>|
            !key_matches(rec, k2, r2, u2) ==> #[trigger] lookup(upserted(s, rec), k2, r2, u2) == lookup(s, k2, r2, u2),
{
    lemma_upserted(s, rec);
}

/// Law: a grant (which never grants the owner role) keeps a resource owned,
/// unless it overwrites the permission of the resource's only owner.
pub proof fn law_grant_keeps_an_owner(s: Seq<PermissionRecord>, rec: PermissionRecord)
    requires
        unique_keys(s),
        owner_count(s, rec.resource_type, rec.resource_id@) >= 1,
        rec.role != Role::Owner,
        !(direct_role(s, rec.resource_type, rec.resource_id@, rec.user_id@) == Some(Role::Owner)
            && owner_count(s, rec.resource_type, rec.resource_id@) <= 1),
    ensures
        owner_count(upserted(s, rec), rec.resource_type, rec.resource_id@) >= 1,
{
    let kind = rec.resource_type;
    let res = rec.resource_id@;
    let w = without_key(s, kind, res, rec.user_id@);
    lemma_owner_count_removed(s, kind, res, rec.user_id@);
    w.lemma_filter_push(rec, owner_pred(kind, res));
}

/// Law: a transfer makes the new owner an owner of the resource directly,
/// leaves the caller's own permission (if it had one) as an editor, and keeps
/// every other permission.
pub proof fn law_transfer_makes_new_owner(s: Seq<PermissionRecord>, kind: ResourceKind, res: Seq<char>, caller: Seq<char>, rec: PermissionRecord)
    requires
        unique_keys(s),
        rec.resource_type == kind,
        rec.resource_id@ == res,
        rec.role == Role::Owner,
        rec.user_id@ != caller,
    ensures
        unique_keys(transferred(s, kind, res, caller, rec)),
        direct_role(transferred(s, kind, res, caller, rec), kind, res, rec.user_id@) == Some(Role::Owner),
        direct_role(transferred(s, kind, res, caller, rec), kind, res, caller) == (if direct_role(s, kind, res, caller) is Some {
            Some(Role::Editor)
        } else {
            None
        }),
        owner_count(transferred(s, kind, res, caller, rec), kind, res) >= 1,
        forall|k2: ResourceKind, r2: Seq<char>, u2: Seq<char>|
            !(k2 == kind && r2 == res && (u2 == caller || u2 == rec.user_id@)) ==> #[trigger] lookup(transferred(s, kind, res, caller, rec), k2, r2, u2) == lookup(s, k2, r2, u2),
{
    let t = with_role(s, kind, res, caller, Role::Editor);
    lemma_role_set(s, kind, res, caller, Role::Editor);
    lemma_upserted(t, rec);
    let w = without_key(t, kind, res, rec.user_id@);
    w.lemma_filter_push(rec, owner_pred(kind, res));
}

/// Law: a user with no direct permission on a file inherits the role that
/// the file's folder grants directly.
pub proof fn law_inherits_from_folder(perms: Seq<PermissionRecord>, files: Seq<ParentLink>, folders: Seq<ParentLink>, user: Seq<char>, file: Seq<char>, folder: Seq<char>)
    requires
        direct_role(perms, ResourceKind::File, file, user) is None,
        parent_of(files, file) == Some(folder),
        direct_role(perms, ResourceKind::Folder, folder, user) is Some,
    ensures
        effective_role(perms, files, folders, user, ResourceKind::File, file) == direct_role(perms, ResourceKind::Folder, folder, user),
{
}

/// Law: a direct permission always decides the effective role, whatever the
/// folders above grant.
pub proof fn law_direct_role_wins(perms: Seq<PermissionRecord>, files: Seq<ParentLink>, folders: Seq<ParentLink>, user: Seq<char>, kind: ResourceKind, id: Seq<char>)
    requires
        direct_role(perms, kind, id, user) is Some,
    ensures
        effective_role(perms, files, folders, user, kind, id) == direct_role(perms, kind, id, user),
{
}

/// Law: changing a role sets the role of exactly the permission of `user`
/// on `(kind, res)` and keeps the rest of it; other permissions are
/// untouched.
pub proof fn law_set_role_row(p: PermissionRecord, kind: ResourceKind, res: Seq<char>, user: Seq<char>, role: Role)
    ensures
        p.resource_type == kind && p.resource_id@ == res && p.user_id@ == user ==> {
            let q = set_role_fn(kind, res, user, role)(p);
            q.role == role && q.id == p.id && q.user_id == p.user_id && q.resource_id == p.resource_id
                && q.resource_type == p.resource_type && q.granted_by == p.granted_by
        },
        !(p.resource_type == kind && p.resource_id@ == res && p.user_id@ == user) ==> set_role_fn(kind, res, user, role)(p) == p,
{
}

} // verus!
