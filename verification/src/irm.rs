//! Information rights management: per-resource policies that restrict
//! downloading, printing and copying by role, managed by owners. Owners are
//! never restricted.
use vstd::prelude::*;
use crate::error::{ApiError, OwnerOnlyAction};
use crate::text::str_eq;
use crate::rows::{Duplicate, find_last, last_where, select, count_where, rewrite};
use crate::permissions::{PermissionsService, ResourceKind, Role, repo_role};
use crate::runtime::{new_uuid, now_utc};

verus! {

broadcast use vstd::seq_lib::group_seq_properties, vstd::seq::group_seq_axioms;

/// What a role may not do with a resource.
#[derive(Debug, Clone, Copy, PartialEq, Eq, Structural)]
pub struct IrmRestrictions {
    pub restrict_download: bool,
    pub restrict_print_copy: bool,
}

impl IrmRestrictions {
    /// No restriction at all.
    pub fn unrestricted() -> (r: Self)
        ensures
            !r.restrict_download,
            !r.restrict_print_copy,
    {
        IrmRestrictions { restrict_download: false, restrict_print_copy: false }
    }
}

/// One row of the IRM policies table: what each non-owner role may not do.
#[derive(Debug)]
pub struct IrmPolicyRecord {
    pub id: String,
    pub resource_type: ResourceKind,
    pub resource_id: String,
    pub restrict_download_viewer: bool,
    pub restrict_download_commenter: bool,
    pub restrict_download_editor: bool,
    pub restrict_print_copy_viewer: bool,
    pub restrict_print_copy_commenter: bool,
    pub restrict_print_copy_editor: bool,
    pub created_at: i64,
    pub updated_at: i64,
}

impl Duplicate for IrmPolicyRecord {
    fn duplicate(&self) -> (r: Self) {
        IrmPolicyRecord {
            id: self.id.clone(),
            resource_type: self.resource_type,
            resource_id: self.resource_id.clone(),
            restrict_download_viewer: self.restrict_download_viewer,
            restrict_download_commenter: self.restrict_download_commenter,
            restrict_download_editor: self.restrict_download_editor,
            restrict_print_copy_viewer: self.restrict_print_copy_viewer,
            restrict_print_copy_commenter: self.restrict_print_copy_commenter,
            restrict_print_copy_editor: self.restrict_print_copy_editor,
            created_at: self.created_at,
            updated_at: self.updated_at,
        }
    }
}

/// A request to set the IRM policy of a resource.
#[derive(Debug, Clone, Copy, Default)]
pub struct SetIrmPolicyRequest {
    pub restrict_download_viewer: bool,
    pub restrict_download_commenter: bool,
    pub restrict_download_editor: bool,
    pub restrict_print_copy_viewer: bool,
    pub restrict_print_copy_commenter: bool,
    pub restrict_print_copy_editor: bool,
}

/// The changes that an update makes to a policy: every restriction, and the
/// time of the change.
#[derive(Debug, Clone, Copy)]
pub struct UpdateIrmPolicyRecord {
    pub restrict_download_viewer: bool,
    pub restrict_download_commenter: bool,
    pub restrict_download_editor: bool,
    pub restrict_print_copy_viewer: bool,
    pub restrict_print_copy_commenter: bool,
    pub restrict_print_copy_editor: bool,
    pub updated_at: i64,
}

/// Selects the policy of `(kind, res)`.
pub open spec fn policy_on(kind: ResourceKind, res: Seq<char>) -> spec_fn(IrmPolicyRecord) -> bool {
    |p: IrmPolicyRecord| p.resource_type == kind && p.resource_id@ == res
}

/// Selects every policy but that of `(kind, res)`.
pub open spec fn policy_not_on(kind: ResourceKind, res: Seq<char>) -> spec_fn(IrmPolicyRecord) -> bool {
    |p: IrmPolicyRecord| !(p.resource_type == kind && p.resource_id@ == res)
}

/// The restrictions that `policy` places on the role named `role`: the
/// viewer, commenter and editor columns for those roles, and none for any
/// other name (owners are never restricted).
pub open spec fn restrictions_for(policy: Option<IrmPolicyRecord>, role: Seq<char>) -> IrmRestrictions {
    match policy {
        None => IrmRestrictions { restrict_download: false, restrict_print_copy: false },
        Some(p) => if role == "viewer"@ {
            IrmRestrictions { restrict_download: p.restrict_download_viewer, restrict_print_copy: p.restrict_print_copy_viewer }
        } else if role == "commenter"@ {
            IrmRestrictions { restrict_download: p.restrict_download_commenter, restrict_print_copy: p.restrict_print_copy_commenter }
        } else if role == "editor"@ {
            IrmRestrictions { restrict_download: p.restrict_download_editor, restrict_print_copy: p.restrict_print_copy_editor }
        } else {
            IrmRestrictions { restrict_download: false, restrict_print_copy: false }
        },
    }
}

/// The policies after `rec` replaces whatever policy its resource had.
pub open spec fn upserted_policy(s: Seq<IrmPolicyRecord>, rec: IrmPolicyRecord) -> Seq<IrmPolicyRecord> {
    s.filter(policy_not_on(rec.resource_type, rec.resource_id@)).push(rec)
}

/// The policy `p` after the changes of `c`, when it is the policy of
/// `(kind, res)`; any other policy is left as it is.
pub open spec fn policy_update_fn(kind: ResourceKind, res: Seq<char>, c: UpdateIrmPolicyRecord) -> spec_fn(IrmPolicyRecord) -> IrmPolicyRecord {
    |p: IrmPolicyRecord| if policy_on(kind, res)(p) {
        IrmPolicyRecord {
            restrict_download_viewer: c.restrict_download_viewer,
            restrict_download_commenter: c.restrict_download_commenter,
            restrict_download_editor: c.restrict_download_editor,
            restrict_print_copy_viewer: c.restrict_print_copy_viewer,
            restrict_print_copy_commenter: c.restrict_print_copy_commenter,
            restrict_print_copy_editor: c.restrict_print_copy_editor,
            updated_at: c.updated_at,
            ..p
        }
    } else {
        p
    }
}

/// Whether `p` is the default policy of `(kind, res)`: it restricts
/// nothing, has an empty id and zero times.
pub open spec fn is_default_policy(p: IrmPolicyRecord, kind: ResourceKind, res: Seq<char>) -> bool {
    &&& p.id@ == Seq::<char>::empty()
    &&& p.resource_type == kind
    &&& p.resource_id@ == res
    &&& !p.restrict_download_viewer && !p.restrict_download_commenter && !p.restrict_download_editor
    &&& !p.restrict_print_copy_viewer && !p.restrict_print_copy_commenter && !p.restrict_print_copy_editor
    &&& p.created_at == 0 && p.updated_at == 0
}

/// Whether `p` is the policy of `k`.
pub fn is_policy_on(k: &(ResourceKind, &str), p: &IrmPolicyRecord) -> (b: bool)
    ensures
        b == policy_on(k.0, k.1@)(*p),
{
    p.resource_type == k.0 && str_eq(p.resource_id.as_str(), k.1)
}

/// Whether `p` is any policy but that of `k`.
pub fn is_policy_not_on(k: &(ResourceKind, &str), p: &IrmPolicyRecord) -> (b: bool)
    ensures
        b == policy_not_on(k.0, k.1@)(*p),
{
    !(p.resource_type == k.0 && str_eq(p.resource_id.as_str(), k.1))
}

/// The policy `p` after the changes of `k.2`, when it is the policy of
/// `(k.0, k.1)`.
pub fn apply_policy_update(k: &(ResourceKind, &str, &UpdateIrmPolicyRecord), p: &IrmPolicyRecord) -> (r: IrmPolicyRecord)
    ensures
        r == policy_update_fn(k.0, k.1@, *k.2)(*p),
{
    let c = k.2;
    if is_policy_on(&(k.0, k.1), p) {
        IrmPolicyRecord {
            id: p.id.clone(),
            resource_type: p.resource_type,
            resource_id: p.resource_id.clone(),
            restrict_download_viewer: c.restrict_download_viewer,
            restrict_download_commenter: c.restrict_download_commenter,
            restrict_download_editor: c.restrict_download_editor,
            restrict_print_copy_viewer: c.restrict_print_copy_viewer,
            restrict_print_copy_commenter: c.restrict_print_copy_commenter,
            restrict_print_copy_editor: c.restrict_print_copy_editor,
            created_at: p.created_at,
            updated_at: c.updated_at,
        }
    } else {
        p.duplicate()
    }
}

/// The IRM policies table.
pub struct IrmRepository {
    pub policies: Vec<IrmPolicyRecord>,
}

impl IrmRepository {
    /// A repository over `policies`.
    pub fn new(policies: Vec<IrmPolicyRecord>) -> (r: Self)
        ensures
            r.policies@ == policies@,
    {
        IrmRepository { policies }
    }

    /// The policy of `(resource_type, resource_id)`.
    pub fn find_by_resource(&self, resource_type: ResourceKind, resource_id: &str) -> (r: Option<IrmPolicyRecord>)
        ensures
            r == last_where(self.policies@, policy_on(resource_type, resource_id@)),
    {
        match find_last(&self.policies, is_policy_on, &(resource_type, resource_id), Ghost(policy_on(resource_type, resource_id@))) {
            Some(j) => Some(self.policies[j].duplicate()),
            None => None,
        }
    }

    /// Stores `record` in place of any policy its resource had; returns the
    /// stored row.
    pub fn upsert_policy(&mut self, record: IrmPolicyRecord) -> (r: IrmPolicyRecord)
        ensures
            r == record,
            final(self).policies@ == upserted_policy(old(self).policies@, record),
    {
        let mut kept = select(&self.policies, is_policy_not_on, &(record.resource_type, record.resource_id.as_str()),
            Ghost(policy_not_on(record.resource_type, record.resource_id@)));
        let r = record.duplicate();
        kept.push(record);
        self.policies = kept;
        r
    }

    /// Applies `changeset` to the policy of `(resource_type, resource_id)`;
    /// returns the policy as stored afterwards.
    pub fn update_policy(&mut self, resource_type: ResourceKind, resource_id: &str, changeset: UpdateIrmPolicyRecord) -> (r: Result<IrmPolicyRecord, ApiError>)
        ensures
            final(self).policies@ == old(self).policies@.map_values(policy_update_fn(resource_type, resource_id@, changeset)),
            r == match last_where(final(self).policies@, policy_on(resource_type, resource_id@)) {
                Some(p) => Ok::<IrmPolicyRecord, ApiError>(p),
                None => Err::<IrmPolicyRecord, ApiError>(ApiError::PolicyMissing),
            },
    {
        self.policies = rewrite(&self.policies, apply_policy_update, &(resource_type, resource_id, &changeset),
            Ghost(policy_update_fn(resource_type, resource_id@, changeset)));
        match self.find_by_resource(resource_type, resource_id) {
            Some(p) => Ok(p),
            None => Err(ApiError::PolicyMissing),
        }
    }

    /// Removes the policy of `(resource_type, resource_id)`; returns how many
    /// rows went.
    pub fn delete_policy(&mut self, resource_type: ResourceKind, resource_id: &str) -> (removed: usize)
        ensures
            removed == old(self).policies@.filter(policy_on(resource_type, resource_id@)).len(),
            final(self).policies@ == old(self).policies@.filter(policy_not_on(resource_type, resource_id@)),
    {
        let removed = count_where(&self.policies, is_policy_on, &(resource_type, resource_id), Ghost(policy_on(resource_type, resource_id@)));
        self.policies = select(&self.policies, is_policy_not_on, &(resource_type, resource_id), Ghost(policy_not_on(resource_type, resource_id@)));
        removed
    }
}

/// The IRM rules over a policies repository.
pub struct IrmService {
    pub repo: IrmRepository,
}

/// What `caller_id` setting the policy of `(resource_type, resource_id)` at
/// `now` does to the service `old_s`, giving `new_s` and answering `r`.
pub open spec fn set_policy_done(old_s: IrmService, new_s: IrmService, permissions: &PermissionsService, caller_id: &str, resource_type: ResourceKind, resource_id: &str, req: SetIrmPolicyRequest, now: i64, r: Result<IrmPolicyRecord, ApiError>) -> bool {
    &&& (repo_role(permissions.repo, caller_id@, resource_type, resource_id@) != Some(Role::Owner) ==>
        r == Err::<IrmPolicyRecord, ApiError>(ApiError::OwnersOnly(OwnerOnlyAction::ManageIrmPolicies)) && new_s.repo.policies@ == old_s.repo.policies@)
    &&& (repo_role(permissions.repo, caller_id@, resource_type, resource_id@) == Some(Role::Owner) ==> {
        &&& r is Ok
        &&& r->Ok_0.resource_type == resource_type
        &&& r->Ok_0.resource_id@ == resource_id@
        &&& r->Ok_0.restrict_download_viewer == req.restrict_download_viewer
        &&& r->Ok_0.restrict_download_commenter == req.restrict_download_commenter
        &&& r->Ok_0.restrict_download_editor == req.restrict_download_editor
        &&& r->Ok_0.restrict_print_copy_viewer == req.restrict_print_copy_viewer
        &&& r->Ok_0.restrict_print_copy_commenter == req.restrict_print_copy_commenter
        &&& r->Ok_0.restrict_print_copy_editor == req.restrict_print_copy_editor
        &&& r->Ok_0.created_at == now
        &&& r->Ok_0.updated_at == now
        &&& new_s.repo.policies@ == upserted_policy(old_s.repo.policies@, r->Ok_0)
    })
}

impl IrmService {
    /// A service over `repo`; operations that need to know who owns what
    /// are handed the permissions service.
    pub fn new(repo: IrmRepository) -> (s: Self)
        ensures
            s.repo == repo,
    {
        IrmService { repo }
    }

    /// Fails unless `caller_id` owns the resource.
    fn require_owner(&self, permissions: &PermissionsService, caller_id: &str, resource_type: ResourceKind, resource_id: &str) -> (r: Result<(), ApiError>)
        ensures
            r is Ok <==> repo_role(permissions.repo, caller_id@, resource_type, resource_id@) == Some(Role::Owner),
            r is Err ==> r == Err::<(), ApiError>(ApiError::OwnersOnly(OwnerOnlyAction::ManageIrmPolicies)),
    {
        let role = permissions.get_effective_role(caller_id, resource_type, resource_id);
        if role != Some(Role::Owner) {
            return Err(ApiError::OwnersOnly(OwnerOnlyAction::ManageIrmPolicies));
        }
        Ok(())
    }

    /// The IRM policy of a resource; when none is stored, a default policy
    /// that restricts nothing (every flag false, empty id, times zero). Only
    /// the resource's owners may see it.
    pub fn get_policy(&self, permissions: &PermissionsService, caller_id: &str, resource_type: ResourceKind, resource_id: &str) -> (r: Result<Option<IrmPolicyRecord>, ApiError>)
        ensures
            repo_role(permissions.repo, caller_id@, resource_type, resource_id@) != Some(Role::Owner) ==>
                r == Err::<Option<IrmPolicyRecord>, ApiError>(ApiError::OwnersOnly(OwnerOnlyAction::ManageIrmPolicies)),
            repo_role(permissions.repo, caller_id@, resource_type, resource_id@) == Some(Role::Owner) ==>
                match last_where(self.repo.policies@, policy_on(resource_type, resource_id@)) {
                    Some(p) => r == Ok::<Option<IrmPolicyRecord>, ApiError>(Some(p)),
                    None => r matches Ok(Some(p)) && is_default_policy(p, resource_type, resource_id@),
                },
    {
        self.require_owner(permissions, caller_id, resource_type, resource_id)?;
        match self.repo.find_by_resource(resource_type, resource_id) {
            Some(p) => Ok(Some(p)),
            None => {
                let p = IrmPolicyRecord {
                    id: String::new(),
                    resource_type,
                    resource_id: resource_id.to_owned(),
                    restrict_download_viewer: false,
                    restrict_download_commenter: false,
                    restrict_download_editor: false,
                    restrict_print_copy_viewer: false,
                    restrict_print_copy_commenter: false,
                    restrict_print_copy_editor: false,
                    created_at: 0,
                    updated_at: 0,
                };
                Ok(Some(p))
            },
        }
    }

    /// Creates or replaces the IRM policy of a resource at time `now`; only
    /// its owners may.
    pub fn set_policy_at(&mut self, permissions: &PermissionsService, caller_id: &str, resource_type: ResourceKind, resource_id: &str, req: SetIrmPolicyRequest, now: i64) -> (r: Result<IrmPolicyRecord, ApiError>)
        ensures
            set_policy_done(*old(self), *final(self), permissions, caller_id, resource_type, resource_id, req, now, r),
    {
        self.require_owner(permissions, caller_id, resource_type, resource_id)?;
        let record = IrmPolicyRecord {
            id: new_uuid(),
            resource_type,
            resource_id: resource_id.to_owned(),
            restrict_download_viewer: req.restrict_download_viewer,
            restrict_download_commenter: req.restrict_download_commenter,
            restrict_download_editor: req.restrict_download_editor,
            restrict_print_copy_viewer: req.restrict_print_copy_viewer,
            restrict_print_copy_commenter: req.restrict_print_copy_commenter,
            restrict_print_copy_editor: req.restrict_print_copy_editor,
            created_at: now,
            updated_at: now,
        };
        Ok(self.repo.upsert_policy(record))
    }

    /// Creates or replaces the IRM policy of a resource, by the clock.
    pub fn set_policy(&mut self, permissions: &PermissionsService, caller_id: &str, resource_type: ResourceKind, resource_id: &str, req: SetIrmPolicyRequest) -> (r: Result<IrmPolicyRecord, ApiError>)
        ensures
            exists|now: i64| set_policy_done(*old(self), *final(self), permissions, caller_id, resource_type, resource_id, req, now, r),
    {
        let now = now_utc();
        self.set_policy_at(permissions, caller_id, resource_type, resource_id, req, now)
    }

    /// Removes the IRM policy of a resource, so that defaults apply again;
    /// only its owners may.
    pub fn delete_policy(&mut self, permissions: &PermissionsService, caller_id: &str, resource_type: ResourceKind, resource_id: &str) -> (r: Result<(), ApiError>)
        ensures
            repo_role(permissions.repo, caller_id@, resource_type, resource_id@) != Some(Role::Owner) ==>
                r == Err::<(), ApiError>(ApiError::OwnersOnly(OwnerOnlyAction::ManageIrmPolicies)) && final(self).repo.policies@ == old(self).repo.policies@,
            repo_role(permissions.repo, caller_id@, resource_type, resource_id@) == Some(Role::Owner) ==>
                r is Ok && final(self).repo.policies@ == old(self).repo.policies@.filter(policy_not_on(resource_type, resource_id@)),
    {
        self.require_owner(permissions, caller_id, resource_type, resource_id)?;
        self.repo.delete_policy(resource_type, resource_id);
        Ok(())
    }

    /// The restrictions that the policy of a resource places on the role
    /// named `role`; none where the resource has no policy.
    pub fn get_restrictions(&self, resource_type: ResourceKind, resource_id: &str, role: &str) -> (r: IrmRestrictions)
        ensures
            r == restrictions_for(last_where(self.repo.policies@, policy_on(resource_type, resource_id@)), role@),
    {
        let policy = match self.repo.find_by_resource(resource_type, resource_id) {
            Some(p) => p,
            None => {
                return IrmRestrictions::unrestricted();
            },
        };
        proof {
            reveal_strlit("viewer");
            reveal_strlit("commenter");
            reveal_strlit("editor");
        }
        if str_eq(role, "viewer") {
            IrmRestrictions { restrict_download: policy.restrict_download_viewer, restrict_print_copy: policy.restrict_print_copy_viewer }
        } else if str_eq(role, "commenter") {
            IrmRestrictions { restrict_download: policy.restrict_download_commenter, restrict_print_copy: policy.restrict_print_copy_commenter }
        } else if str_eq(role, "editor") {
            IrmRestrictions { restrict_download: policy.restrict_download_editor, restrict_print_copy: policy.restrict_print_copy_editor }
        } else {
            IrmRestrictions::unrestricted()
        }
    }
}

/// Law: a policy restricts each role by that role's own columns: viewers by
/// the viewer flags, commenters by the commenter flags, editors by the
/// editor flags.
pub proof fn law_restrictions_follow_role_columns(p: IrmPolicyRecord)
    ensures
        restrictions_for(Some(p), "viewer"@).restrict_download == p.restrict_download_viewer,
        restrictions_for(Some(p), "viewer"@).restrict_print_copy == p.restrict_print_copy_viewer,
        restrictions_for(Some(p), "commenter"@).restrict_download == p.restrict_download_commenter,
        restrictions_for(Some(p), "commenter"@).restrict_print_copy == p.restrict_print_copy_commenter,
        restrictions_for(Some(p), "editor"@).restrict_download == p.restrict_download_editor,
        restrictions_for(Some(p), "editor"@).restrict_print_copy == p.restrict_print_copy_editor,
{
    reveal_strlit("viewer");
    reveal_strlit("commenter");
    reveal_strlit("editor");
    assert("editor"@[0] != "viewer"@[0]);
    assert("editor"@[0] != "commenter"@[0]);
    assert("commenter"@[0] != "viewer"@[0]);
}

/// Law: owners are never restricted, whatever the policy.
pub proof fn law_owner_never_restricted(policy: Option<IrmPolicyRecord>)
    ensures
        restrictions_for(policy, "owner"@) == (IrmRestrictions { restrict_download: false, restrict_print_copy: false }),
{
    reveal_strlit("owner");
    reveal_strlit("viewer");
    reveal_strlit("commenter");
    reveal_strlit("editor");
    assert("owner"@[0] != "viewer"@[0]);
    assert("owner"@[0] != "commenter"@[0]);
    assert("owner"@[0] != "editor"@[0]);
}

/// Law: without a policy, no role is restricted.
pub proof fn law_no_policy_no_restriction(role: Seq<char>)
    ensures
        restrictions_for(None, role) == (IrmRestrictions { restrict_download: false, restrict_print_copy: false }),
{
}

/// Law: after a policy is set for a resource, the restrictions of each role
/// on it are those the policy gives that role.
pub proof fn law_set_then_restrictions(s: Seq<IrmPolicyRecord>, rec: IrmPolicyRecord, role: Seq<char>)
    ensures
        restrictions_for(last_where(upserted_policy(s, rec), policy_on(rec.resource_type, rec.resource_id@)), role)
            == restrictions_for(Some(rec), role),
{
    let kept = s.filter(policy_not_on(rec.resource_type, rec.resource_id@));
    kept.lemma_filter_push(rec, policy_on(rec.resource_type, rec.resource_id@));
}

/// Law: once the policy of a resource is deleted, no role is restricted on
/// it.
pub proof fn law_delete_then_unrestricted(s: Seq<IrmPolicyRecord>, kind: ResourceKind, res: Seq<char>, role: Seq<char>)
    ensures
        restrictions_for(last_where(s.filter(policy_not_on(kind, res)), policy_on(kind, res)), role)
            == (IrmRestrictions { restrict_download: false, restrict_print_copy: false }),
{
    let kept = s.filter(policy_not_on(kind, res));
    if kept.filter(policy_on(kind, res)).len() > 0 {
        let x = kept.filter(policy_on(kind, res))[0];
        kept.lemma_filter_pred(policy_on(kind, res), 0);
        assert(kept.filter(policy_on(kind, res)).contains(x));
        kept.lemma_filter_contains_rev(policy_on(kind, res), x);
        let i = choose|i: int| 0 <= i < kept.len() && kept[i] == x;
        s.lemma_filter_pred(policy_not_on(kind, res), i);
    }
}

/// Law: updating a resource's policy sets all six flags from the change and
/// stamps its time, keeping the policy's identity and resource; other
/// policies are untouched.
pub proof fn law_policy_update_row(p: IrmPolicyRecord, kind: ResourceKind, res: Seq<char>, c: UpdateIrmPolicyRecord)
    ensures
        p.resource_type == kind && p.resource_id@ == res ==> {
            let q = policy_update_fn(kind, res, c)(p);
            &&& q.restrict_download_viewer == c.restrict_download_viewer
            &&& q.restrict_download_commenter == c.restrict_download_commenter
            &&& q.restrict_download_editor == c.restrict_download_editor
            &&& q.restrict_print_copy_viewer == c.restrict_print_copy_viewer
            &&& q.restrict_print_copy_commenter == c.restrict_print_copy_commenter
            &&& q.restrict_print_copy_editor == c.restrict_print_copy_editor
            &&& q.updated_at == c.updated_at
            &&& q.id == p.id && q.resource_type == p.resource_type && q.resource_id == p.resource_id && q.created_at == p.created_at
        },
        !(p.resource_type == kind && p.resource_id@ == res) ==> policy_update_fn(kind, res, c)(p) == p,
{
}

} // verus!
