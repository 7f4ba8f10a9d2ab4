use neutrino_drive::error::{ApiError, OwnerOnlyAction};
use neutrino_drive::irm::{IrmPolicyRecord, IrmRepository, IrmRestrictions, IrmService, SetIrmPolicyRequest, UpdateIrmPolicyRecord};
use neutrino_drive::permissions::{
    PermissionRecord, PermissionsRepository, PermissionsService, ResourceKind, Role,
};
use neutrino_drive::sharing::{
    datetime_from_parses, default_role, default_visibility, parse_datetime, LinkRole, LinkVisibility, ResourceName,
    SharingRepository, SharingService, UpdateShareLinkRequest, UpsertShareLinkRequest,
};

fn perms() -> PermissionsService {
    let owner = PermissionRecord {
        id: "p1".into(),
        resource_type: ResourceKind::File,
        resource_id: "f1".into(),
        user_id: "alice".into(),
        role: Role::Owner,
        granted_by: "alice".into(),
        user_email: String::new(),
        user_name: String::new(),
        created_at: 0,
    };
    let viewer = PermissionRecord { id: "p2".into(), user_id: "bob".into(), role: Role::Viewer, ..owner.clone_row() };
    PermissionsService::new(PermissionsRepository { permissions: vec![owner, viewer], file_parents: vec![], folder_parents: vec![] })
}

trait CloneRow {
    fn clone_row(&self) -> Self;
}

impl CloneRow for PermissionRecord {
    fn clone_row(&self) -> Self {
        PermissionRecord {
            id: self.id.clone(),
            resource_type: self.resource_type,
            resource_id: self.resource_id.clone(),
            user_id: self.user_id.clone(),
            role: self.role,
            granted_by: self.granted_by.clone(),
            user_email: self.user_email.clone(),
            user_name: self.user_name.clone(),
            created_at: self.created_at,
        }
    }
}

fn sharing() -> SharingService {
    let names = vec![ResourceName { resource_type: ResourceKind::File, resource_id: "f1".into(), name: "Plan.docx".into() }];
    SharingService::new(SharingRepository::new(vec![], names))
}

#[test]
fn link_enums_round_trip_and_defaults() {
    assert_eq!(LinkVisibility::AnyoneWithLink.as_str(), "anyone_with_link");
    assert_eq!(LinkVisibility::from_str("public"), Some(LinkVisibility::Public));
    assert_eq!(LinkVisibility::from_str("private"), None);
    assert_eq!(LinkRole::from_str("commenter"), Some(LinkRole::Commenter));
    assert_eq!(LinkRole::Editor.as_str(), "editor");
    assert_eq!(LinkRole::from_str("owner"), None);
    assert_eq!(default_visibility(), LinkVisibility::AnyoneWithLink);
    assert_eq!(default_role(), LinkRole::Viewer);
}

#[test]
fn datetimes_parse_in_both_formats() {
    assert_eq!(parse_datetime("2026-12-31T23:59:59"), Ok(1798761599));
    assert_eq!(parse_datetime("2024-02-29 12:00:00"), Ok(1709208000));
    assert_eq!(parse_datetime("31/12/2026"), Err(ApiError::InvalidDatetime));
    assert_eq!(parse_datetime("2026-12-31"), Err(ApiError::InvalidDatetime));
    assert_eq!(datetime_from_parses(Some(1), Some(2)), Ok(1));
    assert_eq!(datetime_from_parses(None, Some(2)), Ok(2));
    assert_eq!(datetime_from_parses(None, None), Err(ApiError::InvalidDatetime));
}

#[test]
fn only_owners_manage_links() {
    let mut s = sharing();
    let p = perms();
    let req = UpsertShareLinkRequest { visibility: LinkVisibility::Public, role: LinkRole::Viewer, expires_at: None };
    assert_eq!(s.upsert_share_link_at(&p, "bob", ResourceKind::File, "f1", req, 10).unwrap_err(), ApiError::OwnersOnly(OwnerOnlyAction::ManageShareLinks));
    assert_eq!(s.get_share_link(&p, "bob", ResourceKind::File, "f1").unwrap_err(), ApiError::OwnersOnly(OwnerOnlyAction::ManageShareLinks));
    assert_eq!(s.delete_share_link(&p, "bob", ResourceKind::File, "f1").unwrap_err(), ApiError::OwnersOnly(OwnerOnlyAction::ManageShareLinks));
}

#[test]
fn a_new_link_resolves_and_replaces_the_old_one() {
    let mut s = sharing();
    let p = perms();
    let req = UpsertShareLinkRequest { visibility: LinkVisibility::Public, role: LinkRole::Commenter, expires_at: None };
    let first = s.upsert_share_link_at(&p, "alice", ResourceKind::File, "f1", req, 10).unwrap();
    let req = UpsertShareLinkRequest { visibility: LinkVisibility::AnyoneWithLink, role: LinkRole::Viewer, expires_at: None };
    let second = s.upsert_share_link_at(&p, "alice", ResourceKind::File, "f1", req, 20).unwrap();
    assert_eq!(s.repo.links.len(), 1);
    assert_ne!(first.token, second.token);
    let resolved = s.resolve_token_at(&second.token, 30).unwrap();
    assert_eq!(resolved.resource_name, "Plan.docx");
    assert_eq!(resolved.role, LinkRole::Viewer);
    assert_eq!(s.resolve_token_at(&first.token, 30).unwrap_err(), ApiError::ShareLinkNotFound);
    let got = s.get_share_link(&p, "alice", ResourceKind::File, "f1").unwrap().unwrap();
    assert_eq!(got.token, second.token);
}

#[test]
fn expired_and_disabled_links_are_refused() {
    let mut s = sharing();
    let p = perms();
    let req = UpsertShareLinkRequest {
        visibility: LinkVisibility::Public,
        role: LinkRole::Viewer,
        expires_at: Some("2026-12-31T23:59:59".into()),
    };
    let link = s.upsert_share_link_at(&p, "alice", ResourceKind::File, "f1", req, 0).unwrap();
    assert_eq!(link.expires_at, Some(1798761599));
    assert!(s.resolve_token_at(&link.token, 1798761599).is_ok());
    let err = s.resolve_token_at(&link.token, 1798761600).unwrap_err();
    assert_eq!(err, ApiError::LinkExpired);
    assert_eq!(err.status(), 410);
    let off = UpdateShareLinkRequest { visibility: None, role: None, expires_at: None, is_active: Some(false) };
    s.update_share_link_at(&p, "alice", ResourceKind::File, "f1", off, 5).unwrap();
    let err = s.resolve_token_at(&link.token, 0).unwrap_err();
    assert_eq!(err, ApiError::ShareLinkDisabled);
    assert_eq!(err.status(), 404);
}

#[test]
fn bad_expiry_is_refused_and_changes_nothing() {
    let mut s = sharing();
    let p = perms();
    let req = UpsertShareLinkRequest { visibility: LinkVisibility::Public, role: LinkRole::Viewer, expires_at: Some("tomorrow".into()) };
    assert_eq!(s.upsert_share_link_at(&p, "alice", ResourceKind::File, "f1", req, 0).unwrap_err(), ApiError::InvalidDatetime);
    assert!(s.repo.links.is_empty());
    let upd = UpdateShareLinkRequest { visibility: None, role: None, expires_at: Some(None), is_active: None };
    assert_eq!(s.update_share_link_at(&p, "alice", ResourceKind::File, "f1", upd, 0).unwrap_err(), ApiError::ShareLinkNotFound);
}

#[test]
fn update_changes_only_given_fields_and_delete_removes() {
    let mut s = sharing();
    let p = perms();
    let req = UpsertShareLinkRequest { visibility: LinkVisibility::Public, role: LinkRole::Viewer, expires_at: Some("2030-01-01 00:00:00".into()) };
    s.upsert_share_link_at(&p, "alice", ResourceKind::File, "f1", req, 0).unwrap();
    let upd = UpdateShareLinkRequest { visibility: None, role: Some(LinkRole::Editor), expires_at: Some(None), is_active: None };
    let l = s.update_share_link_at(&p, "alice", ResourceKind::File, "f1", upd, 7).unwrap();
    assert_eq!(l.role, LinkRole::Editor);
    assert_eq!(l.visibility, LinkVisibility::Public);
    assert_eq!(l.expires_at, None);
    assert_eq!(l.updated_at, 7);
    s.delete_share_link(&p, "alice", ResourceKind::File, "f1").unwrap();
    assert_eq!(s.delete_share_link(&p, "alice", ResourceKind::File, "f1").unwrap_err(), ApiError::ShareLinkNotFound);
}

#[test]
fn unknown_resource_name_falls_back_to_id() {
    let mut s = SharingService::new(SharingRepository::new(vec![], vec![]));
    let p = perms();
    let req = UpsertShareLinkRequest { visibility: LinkVisibility::Public, role: LinkRole::Viewer, expires_at: None };
    let l = s.upsert_share_link_at(&p, "alice", ResourceKind::File, "f1", req, 0).unwrap();
    assert_eq!(s.resolve_token_at(&l.token, 0).unwrap().resource_name, "f1");
}

fn irm() -> IrmService {
    IrmService::new(IrmRepository::new(vec![]))
}

#[test]
fn restrictions_follow_the_role_and_spare_owners() {
    let mut s = irm();
    let p = perms();
    assert_eq!(s.get_restrictions(ResourceKind::File, "f1", "viewer"), IrmRestrictions::unrestricted());
    let req = SetIrmPolicyRequest {
        restrict_download_viewer: true,
        restrict_print_copy_viewer: true,
        restrict_download_commenter: false,
        restrict_print_copy_commenter: true,
        ..Default::default()
    };
    assert_eq!(s.set_policy_at(&p, "bob", ResourceKind::File, "f1", req, 0).unwrap_err(), ApiError::OwnersOnly(OwnerOnlyAction::ManageIrmPolicies));
    s.set_policy_at(&p, "alice", ResourceKind::File, "f1", req, 0).unwrap();
    let v = s.get_restrictions(ResourceKind::File, "f1", "viewer");
    assert!(v.restrict_download && v.restrict_print_copy);
    let c = s.get_restrictions(ResourceKind::File, "f1", "commenter");
    assert!(!c.restrict_download && c.restrict_print_copy);
    assert_eq!(s.get_restrictions(ResourceKind::File, "f1", "editor"), IrmRestrictions::unrestricted());
    assert_eq!(s.get_restrictions(ResourceKind::File, "f1", "owner"), IrmRestrictions::unrestricted());
    assert!(s.get_policy(&p, "alice", ResourceKind::File, "f1").unwrap().is_some());
    s.delete_policy(&p, "alice", ResourceKind::File, "f1").unwrap();
    assert_eq!(s.get_restrictions(ResourceKind::File, "f1", "viewer"), IrmRestrictions::unrestricted());
    let d = s.get_policy(&p, "alice", ResourceKind::File, "f1").unwrap().unwrap();
    assert_eq!(d.id, "");
    assert_eq!(d.resource_id, "f1");
    assert!(!d.restrict_download_viewer && !d.restrict_download_commenter && !d.restrict_download_editor);
    assert!(!d.restrict_print_copy_viewer && !d.restrict_print_copy_commenter && !d.restrict_print_copy_editor);
    assert_eq!(s.get_policy(&p, "bob", ResourceKind::File, "f1").unwrap_err(), ApiError::OwnersOnly(OwnerOnlyAction::ManageIrmPolicies));
    assert_eq!(s.delete_policy(&p, "bob", ResourceKind::File, "f1").unwrap_err(), ApiError::OwnersOnly(OwnerOnlyAction::ManageIrmPolicies));
}

#[test]
fn updating_a_policy_keeps_its_identity() {
    let mut repo = IrmRepository::new(vec![]);
    let missing = UpdateIrmPolicyRecord {
        restrict_download_viewer: true,
        restrict_download_commenter: false,
        restrict_download_editor: false,
        restrict_print_copy_viewer: false,
        restrict_print_copy_commenter: false,
        restrict_print_copy_editor: true,
        updated_at: 9,
    };
    assert_eq!(repo.update_policy(ResourceKind::File, "f1", missing).unwrap_err(), ApiError::PolicyMissing);
    repo.upsert_policy(IrmPolicyRecord {
        id: "pol".into(),
        resource_type: ResourceKind::File,
        resource_id: "f1".into(),
        restrict_download_viewer: false,
        restrict_download_commenter: true,
        restrict_download_editor: false,
        restrict_print_copy_viewer: false,
        restrict_print_copy_commenter: false,
        restrict_print_copy_editor: false,
        created_at: 3,
        updated_at: 3,
    });
    let p = repo.update_policy(ResourceKind::File, "f1", missing).unwrap();
    assert_eq!(p.id, "pol");
    assert_eq!(p.created_at, 3);
    assert_eq!(p.updated_at, 9);
    assert!(p.restrict_download_viewer && !p.restrict_download_commenter && p.restrict_print_copy_editor);
    assert_eq!(repo.policies.len(), 1);
    assert_eq!(ApiError::PolicyMissing.status(), 500);
}

#[test]
fn a_replaced_link_token_stops_resolving() {
    let mut s = sharing();
    let p = perms();
    let req = || UpsertShareLinkRequest { visibility: LinkVisibility::Public, role: LinkRole::Viewer, expires_at: None };
    let first = s.upsert_share_link_at(&p, "alice", ResourceKind::File, "f1", req(), 0).unwrap();
    let second = s.upsert_share_link_at(&p, "alice", ResourceKind::File, "f1", req(), 1).unwrap();
    assert_ne!(first.token, second.token);
    assert_eq!(s.resolve_token_at(&first.token, 2).unwrap_err(), ApiError::ShareLinkNotFound);
    assert!(s.resolve_token_at(&second.token, 2).is_ok());
}

#[test]
fn a_new_token_is_never_one_already_stored() {
    let mut s = sharing();
    let p = perms();
    let req = || UpsertShareLinkRequest { visibility: LinkVisibility::AnyoneWithLink, role: LinkRole::Viewer, expires_at: None };
    let first = s.upsert_share_link_at(&p, "alice", ResourceKind::File, "f1", req(), 0).unwrap();
    assert_eq!(s.repo.tokens(), vec![first.token.clone()]);
    let second = s.upsert_share_link_at(&p, "alice", ResourceKind::File, "f1", req(), 1).unwrap();
    assert_ne!(first.token, second.token);
    assert_eq!(s.repo.tokens(), vec![second.token.clone()]);
    assert_eq!(ApiError::ShareLinkNotFound.code(), "NOT_FOUND");
    assert_eq!(ApiError::ShareLinkNotFound.message(), "Share link not found");
}

#[test]
fn owners_only_refusals_name_the_operation() {
    let e = ApiError::OwnersOnly(OwnerOnlyAction::ManageShareLinks);
    assert_eq!((e.status(), e.code(), e.message()), (403, "FORBIDDEN", "Only owners can manage share links"));
    assert_eq!(ApiError::OwnersOnly(OwnerOnlyAction::ManageIrmPolicies).message(), "Only owners can manage IRM policies");
    assert_eq!(ApiError::OwnersOnly(OwnerOnlyAction::TransferOwnership).message(), "Only owners can transfer ownership");
    assert_eq!(ApiError::OwnersOnly(OwnerOnlyAction::ViewPermissions).message(), "Only owners can view permissions");
}
