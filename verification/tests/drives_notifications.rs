use neutrino_drive::auth::{AuthenticatedUser, TokenService};
use neutrino_drive::error::ApiError;
use neutrino_drive::notifications::{Notification, NotificationService, NotificationsRepository};
use neutrino_drive::shared_drives::{
    AddMemberRequest, CreateSharedDriveRequest, DriveRole, SharedDriveMember, SharedDrivesRepository, SharedDrivesService,
    UpdateMemberRoleRequest, UpdateSharedDriveRequest,
};

fn user(id: &str) -> AuthenticatedUser {
    AuthenticatedUser { user_id: id.into(), email: format!("{id}@example.com"), is_admin: false }
}

fn admin(id: &str) -> AuthenticatedUser {
    AuthenticatedUser { user_id: id.into(), email: format!("{id}@example.com"), is_admin: true }
}

fn drive_with_creator() -> (SharedDrivesService, String) {
    let mut s = SharedDrivesService::new(SharedDrivesRepository::new(vec![], vec![]));
    let v = s.create_at(&user("mia"), CreateSharedDriveRequest { name: "Team".into(), description: None }, 1).unwrap();
    (s, v.drive.id)
}

fn add(s: &mut SharedDrivesService, by: &str, drive: &str, who: &str, role: &str) -> Result<(), ApiError> {
    let req = AddMemberRequest { user_id: who.into(), user_email: format!("{who}@x"), user_name: who.into(), role: role.into() };
    s.add_member_at(&user(by), drive, req, 2).map(|_| ())
}

#[test]
fn drive_roles_round_trip() {
    for r in [DriveRole::Manager, DriveRole::ContentManager, DriveRole::Contributor, DriveRole::Commenter, DriveRole::Viewer] {
        assert_eq!(DriveRole::parse(r.as_str()), Some(r));
    }
    assert_eq!(DriveRole::ContentManager.as_str(), "content_manager");
    assert_eq!(DriveRole::parse("owner"), None);
}

#[test]
fn creator_becomes_the_first_manager() {
    let mut s = SharedDrivesService::new(SharedDrivesRepository::new(vec![], vec![]));
    assert_eq!(s.create_at(&user("mia"), CreateSharedDriveRequest { name: String::new(), description: None }, 1).unwrap_err(), ApiError::EmptyDriveName);
    let v = s.create_at(&user("mia"), CreateSharedDriveRequest { name: "Team".into(), description: Some("d".into()) }, 1).unwrap();
    assert_eq!(v.member_count, 1);
    assert_eq!(v.user_role, Some(DriveRole::Manager));
    assert_eq!(v.drive.storage_used_bytes, 0);
    assert_eq!(s.get_user_role(&v.drive.id, "mia"), Some(DriveRole::Manager));
    assert_eq!(s.repo.members[0].user_name, "mia@example.com");
}

#[test]
fn only_managers_add_members_with_valid_roles() {
    let (mut s, d) = drive_with_creator();
    assert_eq!(add(&mut s, "mia", &d, "ned", "boss"), Err(ApiError::InvalidRole));
    add(&mut s, "mia", &d, "ned", "viewer").unwrap();
    assert_eq!(add(&mut s, "mia", &d, "ned", "viewer"), Err(ApiError::AlreadyMember));
    assert_eq!(ApiError::AlreadyMember.status(), 409);
    assert_eq!(add(&mut s, "ned", &d, "oli", "viewer"), Err(ApiError::ManagerRequired));
    assert_eq!(add(&mut s, "zed", &d, "oli", "viewer"), Err(ApiError::NotDriveMember));
}

#[test]
fn the_last_manager_stays() {
    let (mut s, d) = drive_with_creator();
    add(&mut s, "mia", &d, "ned", "contributor").unwrap();
    let demote = UpdateMemberRoleRequest { role: "viewer".into() };
    assert_eq!(s.update_member_role(&user("mia"), &d, "mia", demote), Err(ApiError::LastManagerDemote));
    assert_eq!(s.remove_member(&user("mia"), &d, "mia"), Err(ApiError::LastManagerRemove));
    assert_eq!(s.remove_member(&user("mia"), &d, "ghost"), Err(ApiError::MemberNotFound));
    // promote ned, then mia may step down
    s.update_member_role(&user("mia"), &d, "ned", UpdateMemberRoleRequest { role: "manager".into() }).unwrap();
    assert_eq!(s.repo.count_managers(&d), 2);
    s.update_member_role(&user("mia"), &d, "mia", UpdateMemberRoleRequest { role: "viewer".into() }).unwrap();
    assert_eq!(s.repo.count_managers(&d), 1);
    assert_eq!(s.remove_member(&user("ned"), &d, "ned"), Err(ApiError::LastManagerRemove));
    s.remove_member(&user("ned"), &d, "mia").unwrap();
    assert_eq!(s.get_user_role(&d, "mia"), None);
}

#[test]
fn members_and_admins_see_a_drive() {
    let (mut s, d) = drive_with_creator();
    assert_eq!(s.get_by_id(&user("zed"), &d).unwrap_err(), ApiError::NotDriveMember);
    let seen = s.get_by_id(&admin("root"), &d).unwrap();
    assert_eq!(seen.user_role, None);
    assert_eq!(seen.member_count, 1);
    assert_eq!(s.get_by_id(&user("mia"), "nope").unwrap_err(), ApiError::DriveNotFound);
    assert_eq!(s.list_members(&user("zed"), &d).unwrap_err(), ApiError::NotDriveMember);
    assert_eq!(s.list_members(&admin("root"), &d).unwrap().len(), 1);
    let a = s.get_analytics(&user("mia"), &d).unwrap();
    assert_eq!(a.file_count, 0);
    assert_eq!(a.name, "Team");
    let listed = s.list_for_user(&user("mia"));
    assert_eq!(listed.len(), 1);
    assert!(s.list_for_user(&user("zed")).is_empty());
    let upd = UpdateSharedDriveRequest { name: Some("Renamed".into()), description: Some("new".into()) };
    let v = s.update_at(&user("mia"), &d, upd, 9).unwrap();
    assert_eq!(v.drive.name, "Renamed");
    assert_eq!(v.drive.description.as_deref(), Some("new"));
    assert_eq!(v.drive.updated_at, 9);
    assert_eq!(s.delete(&user("zed"), &d), Err(ApiError::NotDriveMember));
    s.delete(&user("mia"), &d).unwrap();
    assert!(s.repo.find_by_id(&d).is_none());
}

fn note(id: &str, to: &str, at: i64, read: bool) -> Notification {
    Notification {
        id: id.into(),
        recipient_id: to.into(),
        event_type: "share".into(),
        payload: "{}".into(),
        is_read: read,
        email_sent: false,
        created_at: at,
    }
}

#[test]
fn notifications_page_newest_first() {
    let mut notes = Vec::new();
    for i in 0..30 {
        notes.push(note(&format!("n{i}"), "u", i, i % 3 == 0));
    }
    notes.push(note("other", "v", 100, false));
    let s = NotificationService::new(NotificationsRepository::new(notes), None);
    let first = s.get_notifications(&user("u"), None, None);
    assert_eq!(first.total, 30);
    assert_eq!(first.unread_count, 20);
    assert_eq!(first.notifications.len(), 20);
    assert_eq!(first.notifications[0].id, "n29");
    let second = s.get_notifications(&user("u"), Some(2), None);
    assert_eq!(second.notifications.len(), 10);
    assert_eq!(second.notifications[0].id, "n9");
    // page 0 counts as page 1; page sizes are clamped to 1..=100
    assert_eq!(s.get_notifications(&user("u"), Some(0), Some(500)).notifications.len(), 30);
    assert_eq!(s.get_notifications(&user("u"), Some(-4), Some(0)).notifications.len(), 1);
}

#[test]
fn marking_notifications_read() {
    let mut s = NotificationService::new(NotificationsRepository::new(vec![note("a", "u", 1, false), note("b", "u", 2, false), note("c", "v", 3, false)]), None);
    assert_eq!(s.mark_read(&user("u"), "c").unwrap_err(), ApiError::NotificationNotFound);
    s.mark_read(&user("u"), "a").unwrap();
    assert!(s.repo.notifications[0].is_read);
    s.mark_all_read(&user("u"));
    assert_eq!(s.get_notifications(&user("u"), None, None).unread_count, 0);
    assert!(!s.repo.notifications[2].is_read);
}

#[test]
fn notify_records_one_row_per_recipient() {
    let mut s = NotificationService::new(NotificationsRepository::new(vec![]), None);
    s.notify_at(&vec!["a".to_string(), "b".to_string()], "share", "{\"x\":1}", 42);
    assert_eq!(s.repo.notifications.len(), 2);
    assert_eq!(s.repo.notifications[1].recipient_id, "b");
    assert!(!s.repo.notifications[0].is_read);
    assert_eq!(s.repo.notifications[0].created_at, 42);
}

#[test]
fn token_service_keeps_its_secret() {
    let t = TokenService::new("topsecret".into());
    assert_eq!(t.secret_str(), "topsecret");
}

#[test]
fn marking_a_notification_emailed() {
    let mut repo = NotificationsRepository::new(vec![note("a", "u", 1, false), note("b", "u", 2, false)]);
    repo.mark_email_sent("b");
    assert!(!repo.notifications[0].email_sent);
    assert!(repo.notifications[1].email_sent);
    assert!(!repo.notifications[1].is_read);
    repo.mark_email_sent("zzz");
    assert!(!repo.notifications[0].email_sent);
}

fn member(drive: &str, who: &str) -> SharedDriveMember {
    SharedDriveMember {
        id: format!("m-{drive}-{who}"),
        shared_drive_id: drive.into(),
        user_id: who.into(),
        user_email: String::new(),
        user_name: String::new(),
        role: DriveRole::Viewer,
        added_by: who.into(),
        created_at: 0,
    }
}

#[test]
fn membership_tables_are_checked_for_doubles() {
    let ok = SharedDrivesRepository::new(vec![], vec![member("d1", "a"), member("d1", "b"), member("d2", "a")]);
    assert!(ok.check_wf());
    assert!(SharedDrivesRepository::new(vec![], vec![]).check_wf());
    let bad = SharedDrivesRepository::new(vec![], vec![member("d1", "a"), member("d2", "b"), member("d1", "a")]);
    assert!(!bad.check_wf());
}

#[test]
fn creating_a_drive_succeeds_beside_stray_member_rows() {
    let rows = vec![member("orphan", "mia"), member("other", "zed")];
    let mut s = SharedDrivesService::new(SharedDrivesRepository::new(vec![], rows));
    let v = s.create_at(&user("mia"), CreateSharedDriveRequest { name: "Team".into(), description: None }, 5).unwrap();
    assert!(v.drive.id != "orphan" && v.drive.id != "other");
    assert_eq!(s.repo.drives.len(), 1);
    assert_eq!(s.repo.members.len(), 3);
    assert_eq!(s.repo.members[2].shared_drive_id, v.drive.id);
    assert_eq!(s.repo.members[2].role, DriveRole::Manager);
    assert!(s.repo.check_wf());
    let ids = s.repo.ids_in_use();
    assert_eq!(ids, vec![v.drive.id.clone(), "orphan".to_string(), "other".to_string(), v.drive.id.clone()]);
}
