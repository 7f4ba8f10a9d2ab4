use neutrino_drive::error::{ApiError, OwnerOnlyAction};
use neutrino_drive::filesystem::{
    CreateFolderRequest, FilesystemRepository, FilesystemService, FolderRecord, UpdateFileRequest, TRASH_RETENTION_SECS,
};
use neutrino_drive::permissions::{
    GrantPermissionRequest, ParentLink, PermissionRecord, PermissionsRepository, PermissionsService, ResourceKind,
    Role, TransferOwnershipRequest, UpdatePermissionRequest,
};
use neutrino_drive::storage::FileRecord;

fn perm(res: &str, user: &str, role: Role) -> PermissionRecord {
    PermissionRecord {
        id: format!("p-{res}-{user}"),
        resource_type: ResourceKind::File,
        resource_id: res.to_string(),
        user_id: user.to_string(),
        role,
        granted_by: "alice".to_string(),
        user_email: String::new(),
        user_name: String::new(),
        created_at: 0,
    }
}

fn folder_perm(res: &str, user: &str, role: Role) -> PermissionRecord {
    PermissionRecord { resource_type: ResourceKind::Folder, ..perm(res, user, role) }
}

fn service(perms: Vec<PermissionRecord>) -> PermissionsService {
    PermissionsService::new(PermissionsRepository { permissions: perms, file_parents: vec![], folder_parents: vec![] })
}

#[test]
fn role_names_round_trip() {
    for r in [Role::Owner, Role::Editor, Role::Commenter, Role::Viewer] {
        assert_eq!(Role::parse(r.as_str()), Some(r));
    }
    assert_eq!(Role::Commenter.as_str(), "commenter");
    assert_eq!(Role::parse("admin"), None);
    assert_eq!(ResourceKind::Folder.as_str(), "folder");
}

#[test]
fn only_owners_grant_and_never_owner() {
    let mut s = service(vec![perm("f1", "alice", Role::Owner)]);
    let req = GrantPermissionRequest { user_id: "bob".into(), role: Role::Editor, user_email: "b@x".into(), user_name: "Bob".into() };
    let granted = s.grant_permission("alice", ResourceKind::File, "f1", req).unwrap();
    assert_eq!(granted.role, Role::Editor);
    assert_eq!(granted.granted_by, "alice");
    assert_eq!(s.get_effective_role("bob", ResourceKind::File, "f1"), Some(Role::Editor));

    let req = GrantPermissionRequest { user_id: "carol".into(), role: Role::Viewer, user_email: String::new(), user_name: String::new() };
    assert_eq!(s.grant_permission("bob", ResourceKind::File, "f1", req).unwrap_err(), ApiError::OwnersOnly(OwnerOnlyAction::GrantPermissions));

    let req = GrantPermissionRequest { user_id: "carol".into(), role: Role::Owner, user_email: String::new(), user_name: String::new() };
    assert_eq!(s.grant_permission("alice", ResourceKind::File, "f1", req).unwrap_err(), ApiError::CannotGrantOwner);
}

#[test]
fn last_owner_cannot_be_revoked_or_demoted() {
    let mut s = service(vec![perm("f1", "alice", Role::Owner), perm("f1", "bob", Role::Viewer)]);
    assert_eq!(s.revoke_permission("alice", ResourceKind::File, "f1", "alice").unwrap_err(), ApiError::LastOwnerRevoke);
    let demote = UpdatePermissionRequest { role: Role::Viewer };
    assert_eq!(s.update_permission("alice", ResourceKind::File, "f1", "alice", demote).unwrap_err(), ApiError::LastOwnerRoleChange);
    let to_owner = UpdatePermissionRequest { role: Role::Owner };
    assert_eq!(s.update_permission("alice", ResourceKind::File, "f1", "bob", to_owner).unwrap_err(), ApiError::CannotSetOwner);
    assert_eq!(s.revoke_permission("alice", ResourceKind::File, "f1", "nobody").unwrap_err(), ApiError::PermissionNotFound);
    assert_eq!(s.revoke_permission("bob", ResourceKind::File, "f1", "alice").unwrap_err(), ApiError::OwnersOnly(OwnerOnlyAction::RevokePermissions));
    // still exactly one owner
    assert_eq!(s.repo.count_owners(ResourceKind::File, "f1"), 1);
    // revoking someone else works, and the lookup is gone afterwards
    s.revoke_permission("alice", ResourceKind::File, "f1", "bob").unwrap();
    assert_eq!(s.get_effective_role("bob", ResourceKind::File, "f1"), None);
}

#[test]
fn second_owner_can_be_demoted() {
    let mut s = service(vec![perm("f1", "alice", Role::Owner), perm("f1", "dave", Role::Owner)]);
    let r = s.update_permission("alice", ResourceKind::File, "f1", "dave", UpdatePermissionRequest { role: Role::Commenter }).unwrap();
    assert_eq!(r.role, Role::Commenter);
    assert_eq!(s.repo.count_owners(ResourceKind::File, "f1"), 1);
}

#[test]
fn transfer_makes_new_owner_and_old_editor() {
    let mut s = service(vec![perm("f1", "alice", Role::Owner)]);
    assert_eq!(
        s.transfer_ownership("alice", ResourceKind::File, "f1", TransferOwnershipRequest { new_owner_id: "alice".into() }).unwrap_err(),
        ApiError::AlreadyOwner
    );
    s.transfer_ownership("alice", ResourceKind::File, "f1", TransferOwnershipRequest { new_owner_id: "erin".into() }).unwrap();
    assert_eq!(s.get_effective_role("erin", ResourceKind::File, "f1"), Some(Role::Owner));
    assert_eq!(s.get_effective_role("alice", ResourceKind::File, "f1"), Some(Role::Editor));
    assert_eq!(
        s.transfer_ownership("alice", ResourceKind::File, "f1", TransferOwnershipRequest { new_owner_id: "zed".into() }).unwrap_err(),
        ApiError::OwnersOnly(OwnerOnlyAction::TransferOwnership)
    );
}

#[test]
fn roles_inherit_down_the_folder_tree_and_direct_roles_win() {
    let repo = PermissionsRepository {
        permissions: vec![folder_perm("top", "bob", Role::Viewer), perm("doc", "carol", Role::Editor)],
        file_parents: vec![ParentLink { id: "doc".into(), parent: Some("mid".into()) }],
        folder_parents: vec![ParentLink { id: "mid".into(), parent: Some("top".into()) }, ParentLink { id: "top".into(), parent: None }],
    };
    let s = PermissionsService::new(repo);
    assert_eq!(s.get_effective_role("bob", ResourceKind::File, "doc"), Some(Role::Viewer));
    assert_eq!(s.get_effective_role("bob", ResourceKind::Folder, "mid"), Some(Role::Viewer));
    assert_eq!(s.get_effective_role("carol", ResourceKind::File, "doc"), Some(Role::Editor));
    assert_eq!(s.get_effective_role("dan", ResourceKind::File, "doc"), None);
}

#[test]
fn owned_and_shared_listings() {
    let s = service(vec![perm("f1", "alice", Role::Owner), perm("f2", "alice", Role::Viewer), perm("f3", "alice", Role::Owner)]);
    assert_eq!(s.repo.list_owned_resource_ids("alice", ResourceKind::File), vec!["f1".to_string(), "f3".to_string()]);
    let shared = s.repo.list_shared_with_user("alice");
    assert_eq!(shared.len(), 1);
    assert_eq!(shared[0].resource_id, "f2");
    assert_eq!(s.list_permissions("bob", ResourceKind::File, "f1").unwrap_err(), ApiError::OwnersOnly(OwnerOnlyAction::ViewPermissions));
}

fn file(id: &str, user: &str, deleted_at: Option<i64>) -> FileRecord {
    FileRecord {
        id: id.into(),
        user_id: user.into(),
        name: format!("{id}.txt"),
        size_bytes: 10,
        mime_type: "text/plain".into(),
        storage_path: format!("{user}/{id}"),
        created_at: 0,
        updated_at: 0,
        folder_id: None,
        is_starred: false,
        deleted_at,
    }
}

fn fs(files: Vec<FileRecord>, folders: Vec<FolderRecord>) -> FilesystemService {
    FilesystemService::new(FilesystemRepository { folders, files, shortcuts: vec![] })
}

#[test]
fn folder_names_are_trimmed_and_required() {
    let mut s = fs(vec![], vec![]);
    let err = s.create_folder("u", CreateFolderRequest { name: "   ".into(), parent_id: None }).unwrap_err();
    assert_eq!(err, ApiError::EmptyFolderName);
    assert_eq!(err.status(), 400);
    let f = s.create_folder("u", CreateFolderRequest { name: "  Reports \n".into(), parent_id: None }).unwrap();
    assert_eq!(f.name, "Reports");
    assert!(f.deleted_at.is_none());
    let contents = s.get_folder_contents("u", None).unwrap();
    assert_eq!(contents.folders.len(), 1);
    assert!(s.get_folder_contents("u", Some("missing")).is_err());
}

#[test]
fn trash_then_restore_file() {
    let mut s = fs(vec![file("a", "u", None)], vec![]);
    s.repo.trash_file("a", "u", 100);
    assert_eq!(s.repo.files[0].deleted_at, Some(100));
    assert_eq!(s.list_trash("u").files.len(), 1);
    s.repo.restore_file("a", "u", 200);
    assert_eq!(s.repo.files[0].deleted_at, None);
    assert_eq!(s.repo.files[0].updated_at, 200);
    assert_eq!(s.list_trash("u").files.len(), 0);
}

#[test]
fn permanent_delete_needs_trash() {
    let mut s = fs(vec![file("a", "u", None), file("b", "u", Some(5))], vec![]);
    assert_eq!(s.permanently_delete_file("u", "a").unwrap_err(), ApiError::FileNotInTrash);
    assert_eq!(s.permanently_delete_file("u", "b").unwrap().id, "b");
    assert_eq!(s.repo.files.len(), 1);
    assert_eq!(s.permanently_delete_folder("u", "nope").unwrap_err(), ApiError::FolderNotInTrash);
}

#[test]
fn purge_removes_exactly_what_expired() {
    let now = 10 * TRASH_RETENTION_SECS;
    let cutoff = now - TRASH_RETENTION_SECS;
    let mut s = fs(
        vec![file("old", "u", Some(cutoff)), file("new", "u", Some(cutoff + 1)), file("live", "u", None), file("other", "v", Some(0))],
        vec![],
    );
    let purged = s.purge_expired_trash_at("u", now);
    assert_eq!(purged.len(), 1);
    assert_eq!(purged[0].id, "old");
    let left: Vec<&str> = s.repo.files.iter().map(|f| f.id.as_str()).collect();
    assert_eq!(left, vec!["new", "live", "other"]);
    assert_eq!(TRASH_RETENTION_SECS, 30 * 24 * 60 * 60);
}

#[test]
fn empty_trash_keeps_live_files() {
    let mut s = fs(vec![file("a", "u", Some(1)), file("b", "u", None)], vec![]);
    let gone = s.empty_trash("u");
    assert_eq!(gone.len(), 1);
    assert_eq!(s.repo.files.len(), 1);
    assert_eq!(s.repo.files[0].id, "b");
}

#[test]
fn updating_a_file_renames_stars_and_moves_it() {
    let mut s = fs(vec![file("a", "u", None)], vec![]);
    let req = UpdateFileRequest { name: Some("report.pdf".into()), folder_id: Some(Some("f9".into())), is_starred: Some(true) };
    let updated = s.update_file("u", "a", req).unwrap();
    assert_eq!(updated.name, "report.pdf");
    assert_eq!(updated.folder_id, Some("f9".to_string()));
    assert!(updated.is_starred);
    assert_eq!(updated.size_bytes, 10);

    let req = UpdateFileRequest { name: None, folder_id: Some(None), is_starred: None };
    let moved = s.update_file("u", "a", req).unwrap();
    assert_eq!(moved.folder_id, None);
    assert_eq!(moved.name, "report.pdf");
}

#[test]
fn updating_a_missing_file_or_with_a_blank_name_fails() {
    let mut s = fs(vec![file("a", "u", None)], vec![]);
    let req = UpdateFileRequest { name: Some("x".into()), folder_id: None, is_starred: None };
    let err = s.update_file("u", "missing", req).unwrap_err();
    assert_eq!(err, ApiError::FileNotFound);
    assert_eq!(err.status(), 404);

    let req = UpdateFileRequest { name: Some("x".into()), folder_id: None, is_starred: None };
    assert_eq!(s.update_file("someone-else", "a", req).unwrap_err(), ApiError::FileNotFound);

    let req = UpdateFileRequest { name: Some("  ".into()), folder_id: None, is_starred: None };
    let err = s.update_file("u", "a", req).unwrap_err();
    assert_eq!(err, ApiError::EmptyFileName);
    assert_eq!(err.status(), 400);
    assert_eq!(s.repo.files[0].name, "a.txt");
}
