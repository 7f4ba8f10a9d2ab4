use neutrino_drive::access::{
    authorize_download, authorize_edit, authorize_preview, authorize_read, create_file_record, enqueue_upload_jobs,
    file_info, folder_field_value, index_job, is_thumbnail_supported, parse_file_ids, thumbnail_job, upload_file_name,
    upload_mime_type, CreateFileRequest,
};
use neutrino_drive::encrypted_store::{frame_sealed, key_from_base64, key_from_bytes, EncryptedFileStore, NONCE_SIZE};
use neutrino_drive::error::ApiError;
use neutrino_drive::irm::{IrmRepository, IrmService, SetIrmPolicyRequest};
use neutrino_drive::jobs::{JobsRepository, JobsService};
use neutrino_drive::permissions::{PermissionRecord, PermissionsRepository, PermissionsService, ResourceKind, Role};
use neutrino_drive::priority::suggested_actions;
use neutrino_drive::search::{
    assemble_results, build_fts_query, escape_sql_literal, fts_fetch_limit, mime_like_pattern, name_like_pattern,
    should_query_fts, use_name_fallback,
};
use neutrino_drive::security::{
    is_ransomware_name, CmekKeyRequest, CreateSiemConfigRequest, SecurityRepository, SecurityService,
};
use neutrino_drive::storage::{FileRecord, LocalFileStore, StorageRepository, StorageService};
use neutrino_drive::text::fresh_id;

#[test]
fn fts_queries_make_prefix_words() {
    assert_eq!(build_fts_query("  hello   world "), "hello* world*");
    assert_eq!(build_fts_query("single"), "single*");
    assert_eq!(build_fts_query("\"exact phrase\" x  "), "\"exact phrase\" x");
    assert_eq!(build_fts_query("   "), "");
    assert_eq!(build_fts_query("a\tb\nc"), "a* b* c*");
}

#[test]
fn sql_text_is_escaped() {
    assert_eq!(escape_sql_literal("O'Brien"), "O''Brien");
    assert_eq!(escape_sql_literal("''"), "''''");
    assert_eq!(escape_sql_literal("plain"), "plain");
    assert_eq!(name_like_pattern("rep"), "%rep%");
    assert_eq!(mime_like_pattern("image/"), "image/%");
    assert_eq!(fts_fetch_limit(20), 60);
}

#[test]
fn search_falls_back_to_names_only_for_real_text() {
    assert!(!should_query_fts("  "));
    assert!(should_query_fts(" a "));
    assert!(use_name_fallback("budget", 0));
    assert!(!use_name_fallback("budget", 3));
    assert!(!use_name_fallback(" ", 0));
}

fn file(id: &str, user: &str, name: &str, mime: &str) -> FileRecord {
    FileRecord {
        id: id.into(),
        user_id: user.into(),
        name: name.into(),
        size_bytes: 4,
        mime_type: mime.into(),
        storage_path: format!("{user}/{id}"),
        created_at: 1,
        updated_at: 2,
        folder_id: None,
        is_starred: false,
        deleted_at: None,
    }
}

#[test]
fn results_carry_the_last_snippet_of_their_file() {
    let rows = vec![file("a", "u", "a.txt", "text/plain"), file("b", "u", "b.txt", "text/plain")];
    let matches = vec![
        ("a".to_string(), Some("first".to_string())),
        ("a".to_string(), Some("<mark>second</mark>".to_string())),
        ("c".to_string(), Some("other".to_string())),
    ];
    let r = assemble_results(&rows, &matches);
    assert_eq!(r.total, 2);
    assert_eq!(r.items[0].snippet.as_deref(), Some("<mark>second</mark>"));
    assert_eq!(r.items[1].snippet, None);
    assert_eq!(r.items[1].name, "b.txt");
}

#[test]
fn ransomware_names_are_spotted() {
    assert!(is_ransomware_name("report.docx.encrypted"));
    assert!(is_ransomware_name("x.wncryt"));
    assert!(is_ransomware_name("readme_decrypt.txt"));
    assert!(is_ransomware_name("please_recover_files_now"));
    assert!(!is_ransomware_name("report.encrypted.docx"));
    assert!(!is_ransomware_name("holiday.jpg"));
}

#[test]
fn suspicious_uploads_open_an_event_whatever_the_case() {
    let mut s = SecurityService::new(SecurityRepository::new(vec![], vec![], vec![]));
    // upper case only matches once lowered
    let id = s.check_upload_pattern_at("u", "f", "INVOICE.PDF.LOCKY", "application/pdf", 77).unwrap();
    assert_eq!(s.repo.events.len(), 1);
    assert_eq!(s.repo.events[0].id, id);
    assert_eq!(s.repo.events[0].status, "open");
    assert_eq!(s.repo.events[0].triggered_at, 77);
    assert!(s.check_upload_pattern_at("u", "g", "notes.txt", "text/plain", 78).is_none());
    assert_eq!(s.repo.events.len(), 1);
    s.resolve_ransomware_event_at(&id, "admin", 90);
    assert_eq!(s.repo.events[0].status, "resolved");
    assert_eq!(s.repo.events[0].reviewed_by.as_deref(), Some("admin"));
    assert_eq!(s.repo.events[0].reviewed_at, Some(90));
}

#[test]
fn siem_export_counts_recent_events() {
    let mut s = SecurityService::new(SecurityRepository::new(vec![], vec![], vec![]));
    assert_eq!(s.export_to_siem(), 0);
    let c = s.create_siem_config_at(CreateSiemConfigRequest { endpoint_url: "https://siem".into(), api_key: None, format: "cef".into() }, 3);
    assert!(c.is_active);
    assert_eq!(c.api_key, "");
    assert_eq!(s.list_siem_configs().len(), 1);
    assert_eq!(s.export_to_siem(), 0);
    s.delete_siem_config(&c.id);
    assert!(s.list_siem_configs().is_empty());
    let cmek = s.configure_cmek(CmekKeyRequest { key_arn: "arn:k".into(), provider: "aws".into() });
    assert_eq!(cmek.status, "configured");
}

#[test]
fn keys_come_from_base64_of_exactly_32_bytes() {
    let key = key_from_base64("AAECAwQFBgcICQoLDA0ODxAREhMUFRYXGBkaGxwdHh8=").unwrap();
    let expected: Vec<u8> = (0u8..32).collect();
    assert_eq!(key.to_vec(), expected);
    assert!(key_from_base64("c2hvcnQ=").is_none());
    assert!(key_from_base64("not base64!").is_none());
    assert!(key_from_bytes(&vec![1u8; 31]).is_none());
}

#[test]
fn encrypted_content_decrypts_back() {
    let key = key_from_base64("AAECAwQFBgcICQoLDA0ODxAREhMUFRYXGBkaGxwdHh8=").unwrap();
    let store = EncryptedFileStore::new(LocalFileStore::new("/data".into()), key);
    let plain = b"hello, drive".to_vec();
    let sealed = store.encrypt_bytes(&plain).unwrap();
    assert_eq!(sealed.len(), NONCE_SIZE + plain.len() + 16);
    assert_ne!(&sealed[NONCE_SIZE..NONCE_SIZE + plain.len()], &plain[..]);
    assert_eq!(store.decrypt_bytes(&sealed).unwrap(), plain);
    let mut tampered = sealed.clone();
    let last = tampered.len() - 1;
    tampered[last] ^= 1;
    assert_eq!(store.decrypt_bytes(&tampered).unwrap_err(), ApiError::DecryptFailed);
    assert_eq!(store.decrypt_bytes(&sealed[..5]).unwrap_err(), ApiError::EncryptedTooShort);
    assert_eq!(ApiError::EncryptedTooShort.status(), 500);
    let other = EncryptedFileStore::new(LocalFileStore::new("/data".into()), [9u8; 32]);
    assert_eq!(other.decrypt_bytes(&sealed).unwrap_err(), ApiError::DecryptFailed);
    assert_eq!(frame_sealed(&[1u8; 12], &vec![2u8, 3]), vec![1u8, 1, 1, 1, 1, 1, 1, 1, 1, 1, 1, 1, 2, 3]);
}

#[test]
fn thumbnails_for_images_and_documents() {
    assert!(is_thumbnail_supported("image/png"));
    assert!(is_thumbnail_supported(" image/jpeg ; q=1"));
    assert!(is_thumbnail_supported("application/pdf"));
    assert!(is_thumbnail_supported("text/csv; charset=utf-8"));
    assert!(is_thumbnail_supported("application/x-neutrino-slide"));
    assert!(!is_thumbnail_supported("text/plain"));
    assert!(!is_thumbnail_supported("video/mp4"));
    assert!(!is_thumbnail_supported("Image/png"));
}

#[test]
fn uploads_are_named_and_typed() {
    assert_eq!(upload_file_name(None), "untitled");
    assert_eq!(upload_file_name(Some("a.txt")), "a.txt");
    assert_eq!(upload_mime_type(Some("text/markdown"), "a.png"), "text/markdown");
    assert_eq!(upload_mime_type(None, "photo.png"), "image/png");
    assert_eq!(upload_mime_type(None, "archive.unknownext"), "application/octet-stream");
    assert_eq!(folder_field_value("  f1 \n"), Some("f1".to_string()));
    assert_eq!(folder_field_value("   "), None);
}

#[test]
fn upload_jobs_carry_json_payloads() {
    let t = thumbnail_job("f\"1");
    assert_eq!(t.job_type, "thumbnail");
    assert_eq!(t.payload, "{\"fileId\":\"f\\\"1\"}");
    assert_eq!(t.timeout_secs, 60);
    let i = index_job("f1", "u1");
    assert_eq!(i.payload, "{\"fileId\":\"f1\",\"userId\":\"u1\"}");
    let mut jobs = JobsService::new(JobsRepository::new(vec![], vec![], vec![]), "/data".into(), 1);
    enqueue_upload_jobs(&mut jobs, "f1", "u1", "image/png", 5);
    assert_eq!(jobs.repo.jobs.len(), 2);
    assert_eq!(jobs.repo.jobs[0].job_type, "thumbnail");
    assert_eq!(jobs.repo.jobs[1].job_type, "index_content");
    enqueue_upload_jobs(&mut jobs, "f2", "u1", "text/plain", 6);
    assert_eq!(jobs.repo.jobs.len(), 3);
    for j in &jobs.repo.jobs {
        assert_eq!(j.timeout_secs, 60);
        assert!(j.worker_id.is_none());
    }
    assert_eq!(jobs.repo.jobs[2].created_at, 6);
}

#[test]
fn bulk_ids_are_split_and_trimmed() {
    assert_eq!(parse_file_ids(" a, b ,,c ").unwrap(), vec!["a".to_string(), "b".to_string(), "c".to_string()]);
    assert_eq!(parse_file_ids("x").unwrap(), vec!["x".to_string()]);
    let err = parse_file_ids(" , ,").unwrap_err();
    assert_eq!(err, ApiError::NoFileIds);
    assert_eq!(err.status(), 400);
    assert_eq!(parse_file_ids("").unwrap_err(), ApiError::NoFileIds);
}

fn row(user: &str, role: Role) -> PermissionRecord {
    PermissionRecord {
        id: format!("p-{user}"),
        resource_type: ResourceKind::File,
        resource_id: "f".into(),
        user_id: user.into(),
        role,
        granted_by: "o".into(),
        user_email: String::new(),
        user_name: String::new(),
        created_at: 0,
    }
}

fn world() -> (PermissionsService, IrmService, StorageService) {
    let perms = || {
        PermissionsService::new(PermissionsRepository {
            permissions: vec![row("o", Role::Owner), row("v", Role::Viewer), row("e", Role::Editor)],
            file_parents: vec![],
            folder_parents: vec![],
        })
    };
    let mut irm = IrmService::new(IrmRepository::new(vec![]));
    let owner_perms = perms();
    let req = SetIrmPolicyRequest { restrict_download_viewer: true, restrict_print_copy_viewer: true, ..Default::default() };
    irm.set_policy_at(&owner_perms, "o", ResourceKind::File, "f", req, 0).unwrap();
    let storage = StorageService::new(
        StorageRepository { files: vec![file("f", "o", "doc.pdf", "application/pdf")], versions: vec![], quotas: vec![] },
        LocalFileStore::new("/data".into()),
    );
    (perms(), irm, storage)
}

#[test]
fn downloads_need_a_role_and_no_restriction() {
    let (p, irm, st) = world();
    let (path, mime, name) = authorize_download(&p, &irm, &st, "o", "f").unwrap();
    assert_eq!(path, "/data/o/f");
    assert_eq!(mime, "application/pdf");
    assert_eq!(name, "doc.pdf");
    assert_eq!(authorize_download(&p, &irm, &st, "v", "f").unwrap_err(), ApiError::DownloadRestricted);
    assert!(authorize_download(&p, &irm, &st, "e", "f").is_ok());
    let err = authorize_download(&p, &irm, &st, "x", "f").unwrap_err();
    assert_eq!(err, ApiError::AccessDenied);
    assert_eq!(err.status(), 403);
}

#[test]
fn previews_carry_the_print_copy_flag() {
    let (p, irm, st) = world();
    assert_eq!(authorize_preview(&p, &irm, &st, "v", "f").unwrap().2, true);
    assert_eq!(authorize_preview(&p, &irm, &st, "o", "f").unwrap().2, false);
    assert_eq!(authorize_preview(&p, &irm, &st, "x", "f").unwrap_err(), ApiError::AccessDenied);
    assert_eq!(authorize_read(&p, &st, "v", "f").unwrap(), "/data/o/f");
}

#[test]
fn replacing_content_needs_owner_or_editor() {
    let (p, _, st) = world();
    assert_eq!(authorize_edit(&p, "o", "f"), Ok(Role::Owner));
    assert_eq!(authorize_edit(&p, "e", "f"), Ok(Role::Editor));
    assert_eq!(authorize_edit(&p, "v", "f"), Err(ApiError::EditAccessRequired));
    assert_eq!(authorize_edit(&p, "x", "f"), Err(ApiError::AccessDenied));
    let (f, role) = file_info(&p, &st, "v", "f").unwrap();
    assert_eq!(f.name, "doc.pdf");
    assert_eq!(role, Role::Viewer);
    assert_eq!(file_info(&p, &st, "v", "g").unwrap_err(), ApiError::FileNotFound);
}

#[test]
fn file_records_need_a_name() {
    let (_, _, mut st) = world();
    let req = CreateFileRequest { id: "n".into(), name: "  ".into(), mime_type: "text/plain".into(), folder_id: None };
    assert_eq!(create_file_record(&mut st, "o", req).unwrap_err(), ApiError::EmptyFileName);
    let req = CreateFileRequest { id: "n".into(), name: "  Notes  ".into(), mime_type: "text/plain".into(), folder_id: None };
    let f = create_file_record(&mut st, "o", req).unwrap();
    assert_eq!(f.name, "Notes");
    assert_eq!(f.size_bytes, 0);
}

#[test]
fn suggestions_for_mentions_and_pending_changes() {
    let a = suggested_actions("f", Some("c1".into()), 2);
    assert_eq!(a.len(), 2);
    assert_eq!(a[0].action_type, "reply_comment");
    assert_eq!(a[0].target_id.as_deref(), Some("c1"));
    assert_eq!(a[1].action_type, "view_changes");
    assert!(suggested_actions("f", None, 0).is_empty());
    assert_eq!(suggested_actions("f", None, 1)[0].label, "View suggested changes");
}

#[test]
fn a_taken_id_is_lengthened_until_it_is_free() {
    let taken = vec!["abc".to_string(), "abc-".to_string(), "x".to_string()];
    assert_eq!(fresh_id("new".to_string(), &taken), "new");
    let r = fresh_id("abc".to_string(), &taken);
    assert_eq!(r, "abc--");
    assert!(!taken.contains(&r));
    assert_eq!(fresh_id("x".to_string(), &taken), "x----");
    assert_eq!(fresh_id(String::new(), &vec![]), "");
}

#[test]
fn errors_carry_their_codes_and_messages() {
    assert_eq!(ApiError::QuotaExceeded.code(), "QUOTA_EXCEEDED");
    assert_eq!(ApiError::QuotaExceeded.message(), "Storage quota exceeded");
    assert_eq!(ApiError::DailyLimitExceeded.code(), "DAILY_LIMIT_EXCEEDED");
    assert_eq!(ApiError::LinkExpired.code(), "LINK_EXPIRED");
    assert_eq!(ApiError::DownloadRestricted.code(), "DOWNLOAD_RESTRICTED");
    assert_eq!(ApiError::AccessDenied.code(), "FORBIDDEN");
    assert_eq!(ApiError::EmptyDriveName.message(), "Drive name is required");
    assert_eq!(ApiError::EmptyDriveName.code(), "BAD_REQUEST");
    assert_eq!(ApiError::AlreadyMember.code(), "CONFLICT");
    assert_eq!(ApiError::InvalidToken.code(), "UNAUTHORIZED");
    assert_eq!(ApiError::InvalidToken.message(), "Invalid or expired token");
    assert_eq!(ApiError::ZipWriteFailed.code(), "INTERNAL_ERROR");
    assert_eq!(ApiError::ZipEntryUnreadable.status(), 500);
}
