//! Share links: one link per file or folder, managed by its owners, and the
//! public resolution of a link's token, which refuses disabled and expired
//! links.
use vstd::prelude::*;
use crate::error::{ApiError, OwnerOnlyAction};
use crate::text::{str_eq, id_list, fresh_id};
use crate::seqs::{lemma_filter_filter, lemma_filter_ext, lemma_filter_split_len, lemma_filter_none, lemma_filter_two};
use crate::rows::{Duplicate, find_last, last_where, select, count_where, rewrite, lemma_last_where_map};
use crate::permissions::{PermissionsService, ResourceKind, Role, repo_role};
use crate::runtime::{new_uuid, new_token, now_utc};

verus! {

broadcast use vstd::seq_lib::group_seq_properties, vstd::seq::group_seq_axioms;

/// Who can see a shared resource.
#[derive(Debug, Clone, Copy, PartialEq, Eq, Structural)]
pub enum LinkVisibility {
    /// Publicly visible (indexable).
    Public,
    /// Accessible to anyone who has the link.
    AnyoneWithLink,
}

/// The stored name of a visibility.
pub open spec fn visibility_name(v: LinkVisibility) -> Seq<char> {
    match v {
        LinkVisibility::Public => "public"@,
        LinkVisibility::AnyoneWithLink => "anyone_with_link"@,
    }
}

impl LinkVisibility {
    /// The stored name of this visibility.
    pub fn as_str(&self) -> (s: &'static str)
        ensures
            s@ == visibility_name(*self),
    {
        match self {
            LinkVisibility::Public => "public",
            LinkVisibility::AnyoneWithLink => "anyone_with_link",
        }
    }

    /// The visibility whose stored name is `s`, if any.
    pub fn from_str(s: &str) -> (r: Option<LinkVisibility>)
        ensures
            r matches Some(v) ==> visibility_name(v) == s@,
            r is None ==> forall|v: LinkVisibility| visibility_name(v) != s@,
    {
        proof {
            reveal_strlit("public");
            reveal_strlit("anyone_with_link");
        }
        if str_eq(s, "public") {
            Some(LinkVisibility::Public)
        } else if str_eq(s, "anyone_with_link") {
            Some(LinkVisibility::AnyoneWithLink)
        } else {
            proof {
                assert forall|v: LinkVisibility| visibility_name(v) != s@ by {
                    match v {
                        LinkVisibility::Public => {},
                        LinkVisibility::AnyoneWithLink => {},
                    }
                }
            }
            None
        }
    }
}

/// What a share link lets its holder do.
#[derive(Debug, Clone, Copy, PartialEq, Eq, Structural)]
pub enum LinkRole {
    Viewer,
    Commenter,
    Editor,
}

/// The stored name of a link role.
pub open spec fn link_role_name(r: LinkRole) -> Seq<char> {
    match r {
        LinkRole::Viewer => "viewer"@,
        LinkRole::Commenter => "commenter"@,
        LinkRole::Editor => "editor"@,
    }
}

impl LinkRole {
    /// The stored name of this role.
    pub fn as_str(&self) -> (s: &'static str)
        ensures
            s@ == link_role_name(*self),
    {
        match self {
            LinkRole::Viewer => "viewer",
            LinkRole::Commenter => "commenter",
            LinkRole::Editor => "editor",
        }
    }

    /// The link role whose stored name is `s`, if any.
    pub fn from_str(s: &str) -> (r: Option<LinkRole>)
        ensures
            r matches Some(v) ==> link_role_name(v) == s@,
            r is None ==> forall|v: LinkRole| link_role_name(v) != s@,
    {
        proof {
            reveal_strlit("viewer");
            reveal_strlit("commenter");
            reveal_strlit("editor");
        }
        if str_eq(s, "viewer") {
            Some(LinkRole::Viewer)
        } else if str_eq(s, "commenter") {
            Some(LinkRole::Commenter)
        } else if str_eq(s, "editor") {
            Some(LinkRole::Editor)
        } else {
            proof {
                assert forall|v: LinkRole| link_role_name(v) != s@ by {
                    match v {
                        LinkRole::Viewer => {},
                        LinkRole::Commenter => {},
                        LinkRole::Editor => {},
                    }
                }
            }
            None
        }
    }
}

/// The visibility of a new link when the request names none.
pub fn default_visibility() -> (v: LinkVisibility)
    ensures
        v == LinkVisibility::AnyoneWithLink,
{
    LinkVisibility::AnyoneWithLink
}

/// The role of a new link when the request names none.
pub fn default_role() -> (r: LinkRole)
    ensures
        r == LinkRole::Viewer,
{
    LinkRole::Viewer
}

/// One row of the share links table. Times are seconds since the Unix epoch.
#[derive(Debug)]
pub struct ShareLinkRecord {
    pub id: String,
    pub resource_type: ResourceKind,
    pub resource_id: String,
    pub token: String,
    pub visibility: LinkVisibility,
    pub role: LinkRole,
    pub expires_at: Option<i64>,
    pub is_active: bool,
    pub created_by: String,
    pub created_at: i64,
    pub updated_at: i64,
}

impl Duplicate for ShareLinkRecord {
    fn duplicate(&self) -> (r: Self) {
        ShareLinkRecord {
            id: self.id.clone(),
            resource_type: self.resource_type,
            resource_id: self.resource_id.clone(),
            token: self.token.clone(),
            visibility: self.visibility,
            role: self.role,
            expires_at: self.expires_at,
            is_active: self.is_active,
            created_by: self.created_by.clone(),
            created_at: self.created_at,
            updated_at: self.updated_at,
        }
    }
}

/// The display name of a file or folder, as the files and folders tables
/// hold it.
#[derive(Debug)]
pub struct ResourceName {
    pub resource_type: ResourceKind,
    pub resource_id: String,
    pub name: String,
}

impl Duplicate for ResourceName {
    fn duplicate(&self) -> (r: Self) {
        ResourceName { resource_type: self.resource_type, resource_id: self.resource_id.clone(), name: self.name.clone() }
    }
}

/// The changes that an update makes to a share link; `None` keeps a field.
#[derive(Debug)]
pub struct UpdateShareLinkRecord {
    pub visibility: Option<LinkVisibility>,
    pub role: Option<LinkRole>,
    pub expires_at: Option<Option<i64>>,
    pub is_active: Option<bool>,
    pub updated_at: i64,
}

/// Selects the link of `(kind, res)`.
pub open spec fn link_on(kind: ResourceKind, res: Seq<char>) -> spec_fn(ShareLinkRecord) -> bool {
    |l: ShareLinkRecord| l.resource_type == kind && l.resource_id@ == res
}

/// Selects every link but that of `(kind, res)`.
pub open spec fn link_not_on(kind: ResourceKind, res: Seq<char>) -> spec_fn(ShareLinkRecord) -> bool {
    |l: ShareLinkRecord| !(l.resource_type == kind && l.resource_id@ == res)
}

/// Selects the link whose token is `token`.
pub open spec fn link_with_token(token: Seq<char>) -> spec_fn(ShareLinkRecord) -> bool {
    |l: ShareLinkRecord| l.token@ == token
}

/// Selects the name of `(kind, res)`.
pub open spec fn name_of(kind: ResourceKind, res: Seq<char>) -> spec_fn(ResourceName) -> bool {
    |n: ResourceName| n.resource_type == kind && n.resource_id@ == res
}

/// The link `l` after the changes `c`.
pub open spec fn link_changed(l: ShareLinkRecord, c: UpdateShareLinkRecord) -> ShareLinkRecord {
    ShareLinkRecord {
        visibility: match c.visibility { Some(v) => v, None => l.visibility },
        role: match c.role { Some(r) => r, None => l.role },
        expires_at: match c.expires_at { Some(e) => e, None => l.expires_at },
        is_active: match c.is_active { Some(a) => a, None => l.is_active },
        updated_at: c.updated_at,
        ..l
    }
}

/// Applies the changes `c` to the link of `(kind, res)` and keeps the others.
pub open spec fn link_update_fn(kind: ResourceKind, res: Seq<char>, c: UpdateShareLinkRecord) -> spec_fn(ShareLinkRecord) -> ShareLinkRecord {
    |l: ShareLinkRecord| if link_on(kind, res)(l) { link_changed(l, c) } else { l }
}

/// The links after `rec` replaces whatever link its resource had.
pub open spec fn upserted_link(s: Seq<ShareLinkRecord>, rec: ShareLinkRecord) -> Seq<ShareLinkRecord> {
    s.filter(link_not_on(rec.resource_type, rec.resource_id@)).push(rec)
}

/// The tokens of the links, in order.
pub open spec fn link_tokens(s: Seq<ShareLinkRecord>) -> Seq<Seq<char>> {
    s.map_values(|l: ShareLinkRecord| l.token@)
}

/// No two links carry one token.
pub open spec fn tokens_unique(s: Seq<ShareLinkRecord>) -> bool {
    forall|t: Seq<char>| #[trigger] s.filter(link_with_token(t)).len() <= 1
}

/// No two links share a resource.
pub open spec fn one_link_per_resource(s: Seq<ShareLinkRecord>) -> bool {
    forall|i: int, j: int| 0 <= i < j < s.len() ==>
        !(#[trigger] s[i].resource_type == #[trigger] s[j].resource_type && s[i].resource_id@ == s[j].resource_id@)
}

/// Whether `l` is the link of `k`.
pub fn is_link_on(k: &(ResourceKind, &str), l: &ShareLinkRecord) -> (b: bool)
    ensures
        b == link_on(k.0, k.1@)(*l),
{
    l.resource_type == k.0 && str_eq(l.resource_id.as_str(), k.1)
}

/// Whether `l` is any link but that of `k`.
pub fn is_link_not_on(k: &(ResourceKind, &str), l: &ShareLinkRecord) -> (b: bool)
    ensures
        b == link_not_on(k.0, k.1@)(*l),
{
    !(l.resource_type == k.0 && str_eq(l.resource_id.as_str(), k.1))
}

/// Whether `l` has the token `k`.
pub fn is_link_with_token(k: &&str, l: &ShareLinkRecord) -> (b: bool)
    ensures
        b == link_with_token(k@)(*l),
{
    str_eq(l.token.as_str(), *k)
}

/// Whether `n` names `k`.
pub fn is_name_of(k: &(ResourceKind, &str), n: &ResourceName) -> (b: bool)
    ensures
        b == name_of(k.0, k.1@)(*n),
{
    n.resource_type == k.0 && str_eq(n.resource_id.as_str(), k.1)
}

/// The link `l` after the changes of `k.2`, when it is the link of
/// `(k.0, k.1)`.
pub fn apply_link_update(k: &(ResourceKind, &str, &UpdateShareLinkRecord), l: &ShareLinkRecord) -> (r: ShareLinkRecord)
    ensures
        r == link_update_fn(k.0, k.1@, *k.2)(*l),
{
    let c = k.2;
    if is_link_on(&(k.0, k.1), l) {
        ShareLinkRecord {
            id: l.id.clone(),
            resource_type: l.resource_type,
            resource_id: l.resource_id.clone(),
            token: l.token.clone(),
            visibility: match c.visibility { Some(v) => v, None => l.visibility },
            role: match c.role { Some(r) => r, None => l.role },
            expires_at: match c.expires_at { Some(e) => e, None => l.expires_at },
            is_active: match c.is_active { Some(a) => a, None => l.is_active },
            created_by: l.created_by.clone(),
            created_at: l.created_at,
            updated_at: c.updated_at,
        }
    } else {
        l.duplicate()
    }
}

/// The share links table, with the names of the files and folders they point
/// at.
pub struct SharingRepository {
    pub links: Vec<ShareLinkRecord>,
    pub names: Vec<ResourceName>,
}

impl SharingRepository {
    /// A repository over `links` and `names`.
    pub fn new(links: Vec<ShareLinkRecord>, names: Vec<ResourceName>) -> (r: Self)
        ensures
            r.links@ == links@,
            r.names@ == names@,
    {
        SharingRepository { links, names }
    }

    /// The tokens of the stored links, in table order.
    pub fn tokens(&self) -> (ts: Vec<String>)
        ensures
            id_list(ts@) == link_tokens(self.links@),
    {
        let mut ts: Vec<String> = Vec::new();
        for i in 0..self.links.len()
            invariant
                ts@.len() == i,
                forall|k: int| 0 <= k < i ==> #[trigger] ts@[k]@ == self.links@[k].token@,
        {
            ts.push(self.links[i].token.clone());
        }
        assert(id_list(ts@) =~= link_tokens(self.links@));
        ts
    }

    /// Stores `record` in place of any link its resource had; returns the
    /// stored row.
    pub fn upsert_share_link(&mut self, record: ShareLinkRecord) -> (r: ShareLinkRecord)
        ensures
            r == record,
            final(self).links@ == upserted_link(old(self).links@, record),
            final(self).names@ == old(self).names@,
    {
        let mut kept = select(&self.links, is_link_not_on, &(record.resource_type, record.resource_id.as_str()),
            Ghost(link_not_on(record.resource_type, record.resource_id@)));
        let r = record.duplicate();
        kept.push(record);
        self.links = kept;
        r
    }

    /// The link of `(resource_type, resource_id)`.
    pub fn find_by_resource(&self, resource_type: ResourceKind, resource_id: &str) -> (r: Option<ShareLinkRecord>)
        ensures
            r == last_where(self.links@, link_on(resource_type, resource_id@)),
    {
        match find_last(&self.links, is_link_on, &(resource_type, resource_id), Ghost(link_on(resource_type, resource_id@))) {
            Some(j) => Some(self.links[j].duplicate()),
            None => None,
        }
    }

    /// The link whose token is `token`.
    pub fn find_by_token(&self, token: &str) -> (r: Option<ShareLinkRecord>)
        ensures
            r == last_where(self.links@, link_with_token(token@)),
    {
        match find_last(&self.links, is_link_with_token, &token, Ghost(link_with_token(token@))) {
            Some(j) => Some(self.links[j].duplicate()),
            None => None,
        }
    }

    /// Applies `changeset` to the link of `(resource_type, resource_id)`;
    /// returns the link as stored afterwards.
    pub fn update_share_link(&mut self, resource_type: ResourceKind, resource_id: &str, changeset: UpdateShareLinkRecord) -> (r: Result<ShareLinkRecord, ApiError>)
        ensures
            final(self).links@ == old(self).links@.map_values(link_update_fn(resource_type, resource_id@, changeset)),
            final(self).names@ == old(self).names@,
            r == match last_where(final(self).links@, link_on(resource_type, resource_id@)) {
                Some(l) => Ok::<ShareLinkRecord, ApiError>(l),
                None => Err::<ShareLinkRecord, ApiError>(ApiError::ShareLinkNotFound),
            },
    {
        self.links = rewrite(&self.links, apply_link_update, &(resource_type, resource_id, &changeset),
            Ghost(link_update_fn(resource_type, resource_id@, changeset)));
        match self.find_by_resource(resource_type, resource_id) {
            Some(l) => Ok(l),
            None => Err(ApiError::ShareLinkNotFound),
        }
    }

    /// Removes the link of `(resource_type, resource_id)`; returns how many
    /// rows went.
    pub fn delete_share_link(&mut self, resource_type: ResourceKind, resource_id: &str) -> (removed: usize)
        ensures
            removed == old(self).links@.filter(link_on(resource_type, resource_id@)).len(),
            final(self).links@ == old(self).links@.filter(link_not_on(resource_type, resource_id@)),
            final(self).names@ == old(self).names@,
    {
        let removed = count_where(&self.links, is_link_on, &(resource_type, resource_id), Ghost(link_on(resource_type, resource_id@)));
        self.links = select(&self.links, is_link_not_on, &(resource_type, resource_id), Ghost(link_not_on(resource_type, resource_id@)));
        removed
    }

    /// The name of `(resource_type, resource_id)`, if the resource exists.
    pub fn get_resource_name(&self, resource_type: ResourceKind, resource_id: &str) -> (r: Option<String>)
        ensures
            r == match last_where(self.names@, name_of(resource_type, resource_id@)) {
                Some(n) => Some(n.name),
                None => None::<String>,
            },
    {
        match find_last(&self.names, is_name_of, &(resource_type, resource_id), Ghost(name_of(resource_type, resource_id@))) {
            Some(j) => Some(self.names[j].name.clone()),
            None => None,
        }
    }
}

/// What `chrono::NaiveDateTime::parse_from_str` makes of the text `s` in the
/// format `fmt`, as seconds since the Unix epoch read as UTC; `None` where
/// the text does not parse.
pub uninterp spec fn naive_datetime_parsed(s: Seq<char>, fmt: Seq<char>) -> Option<i64>;

/// Parses `s` in the format `fmt` with `chrono::NaiveDateTime::parse_from_str`
/// and reads the result as UTC seconds (`and_utc().timestamp()`). The contract
/// only names the result: chrono's format grammar is not restated here.
#[verifier::external_body]
fn parse_naive_datetime(s: &str, fmt: &str) -> (r: Option<i64>)
    ensures
        r == naive_datetime_parsed(s@, fmt@),
{
    match chrono::NaiveDateTime::parse_from_str(s, fmt) {
        Ok(dt) => Some(dt.and_utc().timestamp()),
        Err(_) => None,
    }
}

/// The first accepted datetime format (ISO 8601 with a `T`).
pub open spec fn iso_format() -> Seq<char> {
    "%Y-%m-%dT%H:%M:%S"@
}

/// The second accepted datetime format (a space in place of the `T`).
pub open spec fn spaced_format() -> Seq<char> {
    "%Y-%m-%d %H:%M:%S"@
}

/// What a datetime field reads as, from its parses in the first and second
/// accepted formats.
pub open spec fn datetime_outcome(first: Option<i64>, second: Option<i64>) -> Result<i64, ApiError> {
    match first {
        Some(t) => Ok(t),
        None => match second {
            Some(t) => Ok(t),
            None => Err(ApiError::InvalidDatetime),
        },
    }
}

/// The datetime that the parses in the two accepted formats give: the first
/// where it parsed, else the second, else an invalid-datetime error.
pub fn datetime_from_parses(first: Option<i64>, second: Option<i64>) -> (r: Result<i64, ApiError>)
    ensures
        r == datetime_outcome(first, second),
{
    match first {
        Some(t) => Ok(t),
        None => match second {
            Some(t) => Ok(t),
            None => Err(ApiError::InvalidDatetime),
        },
    }
}

/// Parses a datetime given as `YYYY-MM-DDTHH:MM:SS`, or with a space in
/// place of the `T`.
pub fn parse_datetime(s: &str) -> (r: Result<i64, ApiError>)
    ensures
        r == datetime_outcome(naive_datetime_parsed(s@, iso_format()), naive_datetime_parsed(s@, spaced_format())),
{
    proof {
        reveal_strlit("%Y-%m-%dT%H:%M:%S");
        reveal_strlit("%Y-%m-%d %H:%M:%S");
    }
    let first = parse_naive_datetime(s, "%Y-%m-%dT%H:%M:%S");
    if first.is_some() {
        datetime_from_parses(first, None)
    } else {
        let second = parse_naive_datetime(s, "%Y-%m-%d %H:%M:%S");
        datetime_from_parses(None, second)
    }
}

/// What a present datetime field reads as; `None` stays `None`.
pub open spec fn opt_datetime_outcome(s: Option<String>) -> Result<Option<i64>, ApiError> {
    match s {
        None => Ok(None),
        Some(t) => match datetime_outcome(naive_datetime_parsed(t@, iso_format()), naive_datetime_parsed(t@, spaced_format())) {
            Ok(v) => Ok(Some(v)),
            Err(e) => Err(e),
        },
    }
}

/// Parses an optional datetime field.
pub fn parse_opt_datetime(s: &Option<String>) -> (r: Result<Option<i64>, ApiError>)
    ensures
        r == opt_datetime_outcome(*s),
{
    match s {
        None => Ok(None),
        Some(t) => match parse_datetime(t.as_str()) {
            Ok(v) => Ok(Some(v)),
            Err(e) => Err(e),
        },
    }
}

/// A request to create or replace the share link of a resource.
pub struct UpsertShareLinkRequest {
    pub visibility: LinkVisibility,
    pub role: LinkRole,
    /// `YYYY-MM-DDTHH:MM:SS`, or `None` for a link that never expires.
    pub expires_at: Option<String>,
}

/// A request to change the settings of a share link; `None` keeps a field,
/// and `Some(None)` as `expires_at` removes the expiration.
pub struct UpdateShareLinkRequest {
    pub visibility: Option<LinkVisibility>,
    pub role: Option<LinkRole>,
    pub expires_at: Option<Option<String>>,
    pub is_active: Option<bool>,
}

/// What a share link's token resolves to.
#[derive(Debug)]
pub struct ResolvedShareLink {
    pub resource_type: ResourceKind,
    pub resource_id: String,
    pub role: LinkRole,
    pub visibility: LinkVisibility,
    pub expires_at: Option<i64>,
    pub resource_name: String,
}

/// What resolving `token` at time `now` answers, over the links and names of
/// a repository.
pub open spec fn resolve_outcome(links: Seq<ShareLinkRecord>, names: Seq<ResourceName>, token: Seq<char>, now: i64) -> Result<ResolvedShareLink, ApiError> {
    match last_where(links, link_with_token(token)) {
        None => Err(ApiError::ShareLinkNotFound),
        Some(l) => if !l.is_active {
            Err(ApiError::ShareLinkDisabled)
        } else if l.expires_at matches Some(e) && e < now {
            Err(ApiError::LinkExpired)
        } else {
            Ok(ResolvedShareLink {
                resource_type: l.resource_type,
                resource_id: l.resource_id,
                role: l.role,
                visibility: l.visibility,
                expires_at: l.expires_at,
                resource_name: match last_where(names, name_of(l.resource_type, l.resource_id@)) {
                    Some(n) => n.name,
                    None => l.resource_id,
                },
            })
        },
    }
}

/// The share link rules over a sharing repository.
pub struct SharingService {
    pub repo: SharingRepository,
}

/// What storing the share link of `(resource_type, resource_id)` asked by
/// `caller_id` at `now` does to the service `old_s`, giving `new_s` and
/// answering `r`.
pub open spec fn upsert_share_link_done(old_s: SharingService, new_s: SharingService, permissions: &PermissionsService, caller_id: &str, resource_type: ResourceKind, resource_id: &str, req: UpsertShareLinkRequest, now: i64, r: Result<ShareLinkRecord, ApiError>) -> bool {
    &&& (new_s.repo.names@ == old_s.repo.names@)
    &&& (repo_role(permissions.repo, caller_id@, resource_type, resource_id@) != Some(Role::Owner) ==>
        r == Err::<ShareLinkRecord, ApiError>(ApiError::OwnersOnly(OwnerOnlyAction::ManageShareLinks)) && new_s.repo.links@ == old_s.repo.links@)
    &&& (repo_role(permissions.repo, caller_id@, resource_type, resource_id@) == Some(Role::Owner) ==> match opt_datetime_outcome(req.expires_at) {
        Err(e) => r == Err::<ShareLinkRecord, ApiError>(e) && new_s.repo.links@ == old_s.repo.links@,
        Ok(expires) => {
            &&& r is Ok
            &&& r->Ok_0.resource_type == resource_type
            &&& r->Ok_0.resource_id@ == resource_id@
            &&& r->Ok_0.visibility == req.visibility
            &&& r->Ok_0.role == req.role
            &&& r->Ok_0.expires_at == expires
            &&& r->Ok_0.is_active
            &&& r->Ok_0.created_by@ == caller_id@
            &&& r->Ok_0.created_at == now
            &&& r->Ok_0.updated_at == now
            &&& !link_tokens(old_s.repo.links@).contains(r->Ok_0.token@)
            &&& new_s.repo.links@ == upserted_link(old_s.repo.links@, r->Ok_0)
        },
    })
}

/// What changing the share link of `(resource_type, resource_id)` asked by
/// `caller_id` at `now` does to the service `old_s`, giving `new_s` and
/// answering `r`.
pub open spec fn update_share_link_done(old_s: SharingService, new_s: SharingService, permissions: &PermissionsService, caller_id: &str, resource_type: ResourceKind, resource_id: &str, req: UpdateShareLinkRequest, now: i64, r: Result<ShareLinkRecord, ApiError>) -> bool {
    &&& (new_s.repo.names@ == old_s.repo.names@)
    &&& (repo_role(permissions.repo, caller_id@, resource_type, resource_id@) != Some(Role::Owner) ==>
        r == Err::<ShareLinkRecord, ApiError>(ApiError::OwnersOnly(OwnerOnlyAction::ManageShareLinks)) && new_s.repo.links@ == old_s.repo.links@)
    &&& (repo_role(permissions.repo, caller_id@, resource_type, resource_id@) == Some(Role::Owner)
        && last_where(old_s.repo.links@, link_on(resource_type, resource_id@)) is None ==>
        r == Err::<ShareLinkRecord, ApiError>(ApiError::ShareLinkNotFound) && new_s.repo.links@ == old_s.repo.links@)
    &&& (repo_role(permissions.repo, caller_id@, resource_type, resource_id@) == Some(Role::Owner)
        && last_where(old_s.repo.links@, link_on(resource_type, resource_id@)) is Some ==> match req.expires_at {
        Some(Some(t)) if opt_datetime_outcome(Some(t)) is Err =>
            r == Err::<ShareLinkRecord, ApiError>(ApiError::InvalidDatetime) && new_s.repo.links@ == old_s.repo.links@,
        _ => {
            let c = UpdateShareLinkRecord {
                visibility: req.visibility,
                role: req.role,
                expires_at: match req.expires_at {
                    Some(Some(t)) => Some(opt_datetime_outcome(Some(t))->Ok_0),
                    Some(None) => Some(None),
                    None => None,
                },
                is_active: req.is_active,
                updated_at: now,
            };
            &&& new_s.repo.links@ == old_s.repo.links@.map_values(link_update_fn(resource_type, resource_id@, c))
            &&& r == match last_where(new_s.repo.links@, link_on(resource_type, resource_id@)) {
                Some(l) => Ok::<ShareLinkRecord, ApiError>(l),
                None => Err::<ShareLinkRecord, ApiError>(ApiError::ShareLinkNotFound),
            }
        },
    })
}

impl SharingService {
    /// A service over `repo`; operations that need to know who owns what
    /// are handed the permissions service.
    pub fn new(repo: SharingRepository) -> (s: Self)
        ensures
            s.repo == repo,
    {
        SharingService { repo }
    }

    /// Fails unless `caller_id` owns the resource.
    fn require_owner(&self, permissions: &PermissionsService, caller_id: &str, resource_type: ResourceKind, resource_id: &str) -> (r: Result<(), ApiError>)
        ensures
            r is Ok <==> repo_role(permissions.repo, caller_id@, resource_type, resource_id@) == Some(Role::Owner),
            r is Err ==> r == Err::<(), ApiError>(ApiError::OwnersOnly(OwnerOnlyAction::ManageShareLinks)),
    {
        let role = permissions.get_effective_role(caller_id, resource_type, resource_id);
        if role != Some(Role::Owner) {
            return Err(ApiError::OwnersOnly(OwnerOnlyAction::ManageShareLinks));
        }
        Ok(())
    }

    /// The share link of a resource; only its owners may see it.
    pub fn get_share_link(&self, permissions: &PermissionsService, caller_id: &str, resource_type: ResourceKind, resource_id: &str) -> (r: Result<Option<ShareLinkRecord>, ApiError>)
        ensures
            repo_role(permissions.repo, caller_id@, resource_type, resource_id@) != Some(Role::Owner) ==>
                r == Err::<Option<ShareLinkRecord>, ApiError>(ApiError::OwnersOnly(OwnerOnlyAction::ManageShareLinks)),
            repo_role(permissions.repo, caller_id@, resource_type, resource_id@) == Some(Role::Owner) ==>
                r == Ok::<Option<ShareLinkRecord>, ApiError>(last_where(self.repo.links@, link_on(resource_type, resource_id@))),
    {
        self.require_owner(permissions, caller_id, resource_type, resource_id)?;
        Ok(self.repo.find_by_resource(resource_type, resource_id))
    }

    /// Creates or replaces the share link of a resource at time `now`, with a
    /// fresh id and token; only its owners may.
    pub fn upsert_share_link_at(&mut self, permissions: &PermissionsService, caller_id: &str, resource_type: ResourceKind, resource_id: &str, req: UpsertShareLinkRequest, now: i64) -> (r: Result<ShareLinkRecord, ApiError>)
        ensures
            upsert_share_link_done(*old(self), *final(self), permissions, caller_id, resource_type, resource_id, req, now, r),
    {
        self.require_owner(permissions, caller_id, resource_type, resource_id)?;
        let expires_at = parse_opt_datetime(&req.expires_at)?;
        let record = ShareLinkRecord {
            id: new_uuid(),
            resource_type,
            resource_id: resource_id.to_owned(),
            token: fresh_id(new_token(), &self.repo.tokens()),
            visibility: req.visibility,
            role: req.role,
            expires_at,
            is_active: true,
            created_by: caller_id.to_owned(),
            created_at: now,
            updated_at: now,
        };
        Ok(self.repo.upsert_share_link(record))
    }

    /// Creates or replaces the share link of a resource, by the clock.
    pub fn upsert_share_link(&mut self, permissions: &PermissionsService, caller_id: &str, resource_type: ResourceKind, resource_id: &str, req: UpsertShareLinkRequest) -> (r: Result<ShareLinkRecord, ApiError>)
        ensures
            exists|now: i64| upsert_share_link_done(*old(self), *final(self), permissions, caller_id, resource_type, resource_id, req, now, r),
    {
        let now = now_utc();
        self.upsert_share_link_at(permissions, caller_id, resource_type, resource_id, req, now)
    }

    /// Changes the settings of the share link of a resource at time `now`;
    /// only its owners may.
    pub fn update_share_link_at(&mut self, permissions: &PermissionsService, caller_id: &str, resource_type: ResourceKind, resource_id: &str, req: UpdateShareLinkRequest, now: i64) -> (r: Result<ShareLinkRecord, ApiError>)
        ensures
            update_share_link_done(*old(self), *final(self), permissions, caller_id, resource_type, resource_id, req, now, r),
    {
        self.require_owner(permissions, caller_id, resource_type, resource_id)?;
        if self.repo.find_by_resource(resource_type, resource_id).is_none() {
            return Err(ApiError::ShareLinkNotFound);
        }
        let expires_at: Option<Option<i64>> = match &req.expires_at {
            Some(opt) => Some(parse_opt_datetime(opt)?),
            None => None,
        };
        let changeset = UpdateShareLinkRecord {
            visibility: req.visibility,
            role: req.role,
            expires_at,
            is_active: req.is_active,
            updated_at: now,
        };
        self.repo.update_share_link(resource_type, resource_id, changeset)
    }

    /// Changes the settings of the share link of a resource, by the clock.
    pub fn update_share_link(&mut self, permissions: &PermissionsService, caller_id: &str, resource_type: ResourceKind, resource_id: &str, req: UpdateShareLinkRequest) -> (r: Result<ShareLinkRecord, ApiError>)
        ensures
            exists|now: i64| update_share_link_done(*old(self), *final(self), permissions, caller_id, resource_type, resource_id, req, now, r),
    {
        let now = now_utc();
        self.update_share_link_at(permissions, caller_id, resource_type, resource_id, req, now)
    }

    /// Turns off link sharing of a resource by deleting its link; only its
    /// owners may.
    pub fn delete_share_link(&mut self, permissions: &PermissionsService, caller_id: &str, resource_type: ResourceKind, resource_id: &str) -> (r: Result<(), ApiError>)
        ensures
            final(self).repo.names@ == old(self).repo.names@,
            repo_role(permissions.repo, caller_id@, resource_type, resource_id@) != Some(Role::Owner) ==>
                r == Err::<(), ApiError>(ApiError::OwnersOnly(OwnerOnlyAction::ManageShareLinks)) && final(self).repo.links@ == old(self).repo.links@,
            repo_role(permissions.repo, caller_id@, resource_type, resource_id@) == Some(Role::Owner) ==> {
                &&& final(self).repo.links@ == old(self).repo.links@.filter(link_not_on(resource_type, resource_id@))
                &&& (r is Ok <==> old(self).repo.links@.filter(link_on(resource_type, resource_id@)).len() > 0)
                &&& r is Err ==> r == Err::<(), ApiError>(ApiError::ShareLinkNotFound)
            },
    {
        self.require_owner(permissions, caller_id, resource_type, resource_id)?;
        let deleted = self.repo.delete_share_link(resource_type, resource_id);
        if deleted == 0 {
            return Err(ApiError::ShareLinkNotFound);
        }
        Ok(())
    }

    /// Resolves a share link's token at time `now`; anyone may. A disabled
    /// link is not found, and a link past its expiry has expired.
    pub fn resolve_token_at(&self, token: &str, now: i64) -> (r: Result<ResolvedShareLink, ApiError>)
        ensures
            r == resolve_outcome(self.repo.links@, self.repo.names@, token@, now),
    {
        let link = match self.repo.find_by_token(token) {
            Some(l) => l,
            None => {
                return Err(ApiError::ShareLinkNotFound);
            },
        };
        if !link.is_active {
            return Err(ApiError::ShareLinkDisabled);
        }
        if let Some(expires_at) = link.expires_at {
            if expires_at < now {
                return Err(ApiError::LinkExpired);
            }
        }
        let resource_name = match self.repo.get_resource_name(link.resource_type, link.resource_id.as_str()) {
            Some(n) => n,
            None => link.resource_id.clone(),
        };
        Ok(ResolvedShareLink {
            resource_type: link.resource_type,
            resource_id: link.resource_id,
            role: link.role,
            visibility: link.visibility,
            expires_at: link.expires_at,
            resource_name,
        })
    }

    /// Resolves a share link's token, by the clock.
    pub fn resolve_token(&self, token: &str) -> (r: Result<ResolvedShareLink, ApiError>)
        ensures
            last_where(self.repo.links@, link_with_token(token@)) is None ==> r == Err::<ResolvedShareLink, ApiError>(ApiError::ShareLinkNotFound),
            last_where(self.repo.links@, link_with_token(token@)) matches Some(l) && !l.is_active ==> r == Err::<ResolvedShareLink, ApiError>(ApiError::ShareLinkDisabled),
            exists|now: i64| r == #[trigger] resolve_outcome(self.repo.links@, self.repo.names@, token@, now),
    {
        let now = now_utc();
        self.resolve_token_at(token, now)
    }
}

/// Law: after a link is stored for a resource, that link is the resource's
/// link.
pub proof fn law_upsert_then_find(s: Seq<ShareLinkRecord>, rec: ShareLinkRecord)
    ensures
        last_where(upserted_link(s, rec), link_on(rec.resource_type, rec.resource_id@)) == Some(rec),
{
    let kept = s.filter(link_not_on(rec.resource_type, rec.resource_id@));
    kept.lemma_filter_push(rec, link_on(rec.resource_type, rec.resource_id@));
}

/// Filtering keeps every resource down to at most one link.
proof fn lemma_filter_one_link(s: Seq<ShareLinkRecord>, p: spec_fn(ShareLinkRecord) -> bool)
    requires
        one_link_per_resource(s),
    ensures
        one_link_per_resource(s.filter(p)),
    decreases s.len(),
{
    if s.len() > 0 {
        let d = s.drop_last();
        let x = s.last();
        assert(one_link_per_resource(d)) by {
            assert forall|i: int, j: int| 0 <= i < j < d.len() implies
                !(#[trigger] d[i].resource_type == #[trigger] d[j].resource_type && d[i].resource_id@ == d[j].resource_id@) by {
                assert(d[i] == s[i] && d[j] == s[j]);
            }
        }
        lemma_filter_one_link(d, p);
        assert(s == d.push(x));
        d.lemma_filter_push(x, p);
        if p(x) {
            let f = d.filter(p);
            let t = f.push(x);
            assert forall|i: int, j: int| 0 <= i < j < t.len() implies
                !(#[trigger] t[i].resource_type == #[trigger] t[j].resource_type && t[i].resource_id@ == t[j].resource_id@) by {
                if j == t.len() - 1 {
                    assert(f.contains(f[i]));
                    d.lemma_filter_contains_rev(p, f[i]);
                    let a = choose|a: int| 0 <= a < d.len() && d[a] == f[i];
                    assert(s[a] == t[i]);
                    assert(s[s.len() - 1] == t[j]);
                    assert(!(s[a].resource_type == s[s.len() - 1].resource_type && s[a].resource_id@ == s[s.len() - 1].resource_id@));
                } else {
                    assert(t[i] == f[i] && t[j] == f[j]);
                }
            }
        }
    }
}

/// Law: storing a link keeps every resource down to at most one link.
pub proof fn law_upsert_keeps_one_link(s: Seq<ShareLinkRecord>, rec: ShareLinkRecord)
    requires
        one_link_per_resource(s),
    ensures
        one_link_per_resource(upserted_link(s, rec)),
{
    let p = link_not_on(rec.resource_type, rec.resource_id@);
    let kept = s.filter(p);
    lemma_filter_one_link(s, p);
    let t = upserted_link(s, rec);
    assert forall|i: int, j: int| 0 <= i < j < t.len() implies
        !(#[trigger] t[i].resource_type == #[trigger] t[j].resource_type && t[i].resource_id@ == t[j].resource_id@) by {
        if j == t.len() - 1 {
            s.lemma_filter_pred(p, i);
            assert(t[i] == kept[i]);
        } else {
            assert(t[i] == kept[i] && t[j] == kept[j]);
        }
    }
}

/// Law: once a resource's link is deleted, the resource has no link.
pub proof fn law_delete_then_find(s: Seq<ShareLinkRecord>, kind: ResourceKind, res: Seq<char>)
    ensures
        last_where(s.filter(link_not_on(kind, res)), link_on(kind, res)) is None,
{
    let kept = s.filter(link_not_on(kind, res));
    if kept.filter(link_on(kind, res)).len() > 0 {
        let x = kept.filter(link_on(kind, res))[0];
        kept.lemma_filter_pred(link_on(kind, res), 0);
        assert(kept.filter(link_on(kind, res)).contains(x));
        kept.lemma_filter_contains_rev(link_on(kind, res), x);
        let i = choose|i: int| 0 <= i < kept.len() && kept[i] == x;
        s.lemma_filter_pred(link_not_on(kind, res), i);
    }
}

/// Law: once a new link replaces a resource's link, the old link's token no
/// longer resolves (404), provided no other stored link carries that token
/// and the new link drew a different one.
pub proof fn law_replaced_token_stops_resolving(s: Seq<ShareLinkRecord>, names: Seq<ResourceName>, rec: ShareLinkRecord, old_token: Seq<char>, now: i64)
    requires
        forall|i: int| 0 <= i < s.len() && #[trigger] s[i].token@ == old_token ==>
            link_on(rec.resource_type, rec.resource_id@)(s[i]),
        rec.token@ != old_token,
    ensures
        resolve_outcome(upserted_link(s, rec), names, old_token, now) == Err::<ResolvedShareLink, ApiError>(ApiError::ShareLinkNotFound),
{
    let kept = s.filter(link_not_on(rec.resource_type, rec.resource_id@));
    let after = upserted_link(s, rec);
    kept.lemma_filter_push(rec, link_with_token(old_token));
    if kept.filter(link_with_token(old_token)).len() > 0 {
        let x = kept.filter(link_with_token(old_token))[0];
        kept.lemma_filter_pred(link_with_token(old_token), 0);
        assert(kept.filter(link_with_token(old_token)).contains(x));
        kept.lemma_filter_contains_rev(link_with_token(old_token), x);
        let i = choose|i: int| 0 <= i < kept.len() && kept[i] == x;
        s.lemma_filter_pred(link_not_on(rec.resource_type, rec.resource_id@), i);
        assert(s.filter(link_not_on(rec.resource_type, rec.resource_id@)).contains(x));
        s.lemma_filter_contains_rev(link_not_on(rec.resource_type, rec.resource_id@), x);
        let j = choose|j: int| 0 <= j < s.len() && s[j] == x;
        assert(s[j].token@ == old_token);
    }
    assert(after.filter(link_with_token(old_token)).len() == 0);
}

/// Law: storing a link whose token no stored link carries keeps every
/// token down to at most one link.
pub proof fn law_upsert_keeps_tokens_unique(s: Seq<ShareLinkRecord>, rec: ShareLinkRecord)
    requires
        tokens_unique(s),
        !link_tokens(s).contains(rec.token@),
    ensures
        tokens_unique(upserted_link(s, rec)),
{
    let not_on = link_not_on(rec.resource_type, rec.resource_id@);
    let kept = s.filter(not_on);
    assert forall|t: Seq<char>| #[trigger] upserted_link(s, rec).filter(link_with_token(t)).len() <= 1 by {
        let tok = link_with_token(t);
        kept.lemma_filter_push(rec, tok);
        lemma_filter_filter(s, not_on, tok);
        lemma_filter_split_len(s, tok, not_on);
        lemma_filter_ext(s, |x: ShareLinkRecord| not_on(x) && tok(x), |x: ShareLinkRecord| tok(x) && not_on(x));
        assert(s.filter(tok).len() <= 1);
        if t == rec.token@ {
            assert forall|i: int| 0 <= i < s.len() implies !tok(#[trigger] s[i]) by {
                assert(link_tokens(s)[i] == s[i].token@);
            }
            lemma_filter_none(s, tok);
        }
    }
}

/// Law: when the owner of a resource replaces its share link, the old
/// link's token no longer resolves (404) and no two links carry one token,
/// given that no two carried one before.
pub proof fn law_replaced_link_token_retired(
    old_s: SharingService,
    new_s: SharingService,
    permissions: &PermissionsService,
    caller_id: &str,
    resource_type: ResourceKind,
    resource_id: &str,
    req: UpsertShareLinkRequest,
    now: i64,
    r: Result<ShareLinkRecord, ApiError>,
    old_link: ShareLinkRecord,
    later: i64,
)
    requires
        tokens_unique(old_s.repo.links@),
        last_where(old_s.repo.links@, link_on(resource_type, resource_id@)) == Some(old_link),
        upsert_share_link_done(old_s, new_s, permissions, caller_id, resource_type, resource_id, req, now, r),
        r is Ok,
    ensures
        resolve_outcome(new_s.repo.links@, new_s.repo.names@, old_link.token@, later)
            == Err::<ResolvedShareLink, ApiError>(ApiError::ShareLinkNotFound),
        tokens_unique(new_s.repo.links@),
{
    let s = old_s.repo.links@;
    let rec = r->Ok_0;
    let on = link_on(resource_type, resource_id@);
    let f = s.filter(on);
    assert(f.len() > 0);
    s.lemma_filter_pred(on, f.len() - 1);
    assert(f.contains(old_link));
    s.lemma_filter_contains_rev(on, old_link);
    let j = choose|j: int| 0 <= j < s.len() && s[j] == old_link;
    assert forall|i: int| 0 <= i < s.len() && #[trigger] s[i].token@ == old_link.token@ implies
        link_on(rec.resource_type, rec.resource_id@)(s[i]) by {
        if i != j {
            let tok = link_with_token(old_link.token@);
            if i < j { lemma_filter_two(s, tok, i, j); } else { lemma_filter_two(s, tok, j, i); }
            assert(s.filter(tok).len() <= 1);
        }
    }
    assert(link_tokens(s)[j] == old_link.token@);
    law_replaced_token_stops_resolving(s, old_s.repo.names@, rec, old_link.token@, later);
    law_upsert_keeps_tokens_unique(s, rec);
}

/// Law: a successful change of a resource's share link gives the link the
/// visibility, role, active flag and expiry that the request names, keeps
/// what it leaves out as it was, and keeps the link's identity and token.
pub proof fn law_update_applies_link_settings(
    old_s: SharingService,
    new_s: SharingService,
    permissions: &PermissionsService,
    caller_id: &str,
    resource_type: ResourceKind,
    resource_id: &str,
    req: UpdateShareLinkRequest,
    now: i64,
    r: Result<ShareLinkRecord, ApiError>,
    old_link: ShareLinkRecord,
)
    requires
        update_share_link_done(old_s, new_s, permissions, caller_id, resource_type, resource_id, req, now, r),
        last_where(old_s.repo.links@, link_on(resource_type, resource_id@)) == Some(old_link),
        r is Ok,
    ensures
        r->Ok_0.visibility == match req.visibility { Some(v) => v, None => old_link.visibility },
        r->Ok_0.role == match req.role { Some(x) => x, None => old_link.role },
        r->Ok_0.is_active == match req.is_active { Some(a) => a, None => old_link.is_active },
        req.expires_at is None ==> r->Ok_0.expires_at == old_link.expires_at,
        req.expires_at matches Some(None) ==> r->Ok_0.expires_at is None,
        req.expires_at matches Some(Some(t)) ==> r->Ok_0.expires_at == opt_datetime_outcome(Some(t))->Ok_0,
        r->Ok_0.id == old_link.id,
        r->Ok_0.token == old_link.token,
        r->Ok_0.resource_type == resource_type,
        r->Ok_0.resource_id@ == resource_id@,
        r->Ok_0.created_by == old_link.created_by,
        r->Ok_0.created_at == old_link.created_at,
        r->Ok_0.updated_at == now,
{
    let c = UpdateShareLinkRecord {
        visibility: req.visibility,
        role: req.role,
        expires_at: match req.expires_at {
            Some(Some(t)) => Some(opt_datetime_outcome(Some(t))->Ok_0),
            Some(None) => Some(None),
            None => None,
        },
        is_active: req.is_active,
        updated_at: now,
    };
    let f = link_update_fn(resource_type, resource_id@, c);
    let on = link_on(resource_type, resource_id@);
    assert forall|x: ShareLinkRecord| #[trigger] on(f(x)) == on(x) by {}
    lemma_last_where_map(old_s.repo.links@, f, on);
}

/// Law: the token of a link just stored, active and not past its expiry,
/// resolves to the link's resource, role and visibility.
pub proof fn law_new_link_resolves(s: Seq<ShareLinkRecord>, names: Seq<ResourceName>, rec: ShareLinkRecord, now: i64)
    requires
        rec.is_active,
        rec.expires_at matches Some(e) ==> now <= e,
    ensures
        resolve_outcome(upserted_link(s, rec), names, rec.token@, now) matches Ok(v)
            && v.resource_type == rec.resource_type
            && v.resource_id == rec.resource_id
            && v.role == rec.role
            && v.visibility == rec.visibility
            && v.expires_at == rec.expires_at,
{
    let kept = s.filter(link_not_on(rec.resource_type, rec.resource_id@));
    kept.lemma_filter_push(rec, link_with_token(rec.token@));
}

} // verus!
