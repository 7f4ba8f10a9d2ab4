use neutrino_drive::error::ApiError;
use neutrino_drive::pagination::{default_limit, page, ListQuery, OrderDirection};
use neutrino_drive::storage::{
    check_upload, day_number, join_path, list_zip_entries, FileOrderField, FileRecord, FileVersionRecord, LocalFileStore,
    StorageRepository, StorageService, UserQuota, VersionOrderField, ZipEntry, ZipEntryOrderField, MAX_VERSIONS,
    SECS_PER_DAY,
};

fn quota(used: i64, daily: i64, reset_at: i64, limit: Option<i64>, cap: Option<i64>) -> UserQuota {
    UserQuota { user_id: "u".into(), used_bytes: used, daily_upload_bytes: daily, daily_reset_at: reset_at, quota_bytes: limit, daily_cap_bytes: cap }
}

fn file(id: &str, user: &str, size: i64, name: &str) -> FileRecord {
    FileRecord {
        id: id.into(),
        user_id: user.into(),
        name: name.into(),
        size_bytes: size,
        mime_type: "text/plain".into(),
        storage_path: format!("{user}/{id}"),
        created_at: size,
        updated_at: size,
        folder_id: None,
        is_starred: false,
        deleted_at: None,
    }
}

fn version(id: &str, file: &str, n: i32, size: i64) -> FileVersionRecord {
    FileVersionRecord {
        id: id.into(),
        file_id: file.into(),
        user_id: "u".into(),
        version_number: n,
        size_bytes: size,
        storage_path: format!("u/versions/{file}/{id}"),
        label: None,
        created_at: n as i64,
    }
}

fn service(files: Vec<FileRecord>, versions: Vec<FileVersionRecord>, quotas: Vec<UserQuota>) -> StorageService {
    StorageService::new(StorageRepository { files, versions, quotas }, LocalFileStore::new("/data".into()))
}

#[test]
fn day_numbers_count_whole_days() {
    assert_eq!(SECS_PER_DAY, 86400);
    assert_eq!(day_number(0), 0);
    assert_eq!(day_number(86399), 0);
    assert_eq!(day_number(86400), 1);
    assert_eq!(day_number(-1), -1);
}

#[test]
fn quota_and_daily_cap_decide_uploads() {
    let day = SECS_PER_DAY;
    // fits exactly
    assert_eq!(check_upload(&quota(90, 0, 0, Some(100), None), 10, 5), Ok(false));
    // one byte over the quota
    assert_eq!(check_upload(&quota(90, 0, 0, Some(100), None), 11, 5), Err(ApiError::QuotaExceeded));
    assert_eq!(ApiError::QuotaExceeded.status(), 413);
    // over today's cap
    assert_eq!(check_upload(&quota(0, 50, 0, None, Some(60)), 11, 5), Err(ApiError::DailyLimitExceeded));
    assert_eq!(ApiError::DailyLimitExceeded.status(), 429);
    // a new day resets the daily count
    assert_eq!(check_upload(&quota(0, 50, 0, None, Some(60)), 11, day + 5), Ok(true));
    // no limits at all
    assert_eq!(check_upload(&quota(i64::MAX - 1, 0, 0, None, None), 1, 0), Ok(false));
}

#[test]
fn paths_join_like_the_store() {
    assert_eq!(join_path("/data", "u"), "/data/u");
    assert_eq!(join_path("/data/", "u"), "/data/u");
    assert_eq!(join_path("", "u"), "u");
    assert_eq!(join_path("/data", "/abs"), "/abs");
    let store = LocalFileStore::new("/data".into());
    assert_eq!(store.file_path("u", "f"), "/data/u/f");
    assert_eq!(store.temp_path("u", "t1"), "/data/u/tmp_t1");
    assert_eq!(store.file_key("u", "f"), "u/f");
    assert_eq!(store.version_key("u", "f", "v1"), "u/versions/f/v1");
    assert_eq!(store.resolve("u/f"), "/data/u/f");
}

#[test]
fn admitted_upload_is_committed_with_version_one() {
    let mut s = service(vec![], vec![], vec![quota(10, 0, 0, Some(100), Some(100))]);
    let admission = s.admit_upload_at("u", 40, 1000).unwrap();
    assert!(!admission.reset_daily);
    let done = s.commit_upload("u", "f1", "a.txt", "text/plain", 40, None, &admission);
    assert_eq!(done.file.storage_path, "u/f1");
    assert_eq!(done.file.size_bytes, 40);
    assert_eq!(done.version.version_number, 1);
    assert!(done.version.storage_path.starts_with("u/versions/f1/"));
    assert_eq!(s.repo.quotas[0].used_bytes, 50);
    assert_eq!(s.repo.quotas[0].daily_upload_bytes, 40);
    assert_eq!(s.admit_upload_at("u", 51, 1000).unwrap_err(), ApiError::QuotaExceeded);
    assert_eq!(s.repo.quotas.len(), 1);
    assert_eq!(s.repo.quotas[0].used_bytes, 50);
}

#[test]
fn a_refused_upload_still_records_a_new_users_quota_row() {
    let mut s = service(vec![], vec![], vec![]);
    s.admit_upload_at("fresh", 10, 5).unwrap();
    assert_eq!(s.repo.quotas.len(), 1);
    assert_eq!(s.repo.quotas[0].user_id, "fresh");
    assert_eq!(s.repo.quotas[0].used_bytes, 0);
    s.admit_upload_at("fresh", 10, 6).unwrap();
    assert_eq!(s.repo.quotas.len(), 1);
}

#[test]
fn unknown_user_gets_an_unlimited_quota() {
    let mut s = service(vec![], vec![], vec![]);
    let q = s.get_quota_at("new", 77);
    assert_eq!(q.used_bytes, 0);
    assert_eq!(q.quota_bytes, None);
    assert_eq!(q.daily_cap_bytes, None);
}

#[test]
fn new_version_snapshots_first_and_numbers_next() {
    let mut s = service(vec![file("f", "u", 5, "a.txt")], vec![], vec![]);
    let nv = s.upload_new_version_at("f", 9, 50).unwrap();
    assert_eq!(nv.first_snapshot.as_ref().unwrap().version_number, 1);
    assert_eq!(nv.first_snapshot.as_ref().unwrap().size_bytes, 5);
    assert_eq!(nv.version.version_number, 2);
    assert_eq!(s.repo.files[0].size_bytes, 9);
    assert_eq!(s.repo.files[0].updated_at, 50);
    let nv2 = s.upload_new_version_at("f", 11, 60).unwrap();
    assert!(nv2.first_snapshot.is_none());
    assert_eq!(nv2.version.version_number, 3);
    assert!(s.upload_new_version_at("missing", 1, 1).is_err());
}

#[test]
fn versions_are_pruned_to_the_limit() {
    let mut versions = Vec::new();
    for n in 1..=(MAX_VERSIONS as i32) {
        versions.push(version(&format!("v{n}"), "f", n, n as i64));
    }
    let mut s = service(vec![file("f", "u", 1, "a.txt")], versions, vec![]);
    let nv = s.upload_new_version_at("f", 7, 1).unwrap();
    assert_eq!(nv.version.version_number, MAX_VERSIONS as i32 + 1);
    assert_eq!(nv.pruned_key, Some("u/versions/f/v1".to_string()));
    assert_eq!(s.repo.count_versions("f"), MAX_VERSIONS);
}

#[test]
fn restore_keeps_current_content_as_a_version() {
    let mut s = service(vec![file("f", "u", 5, "a.txt")], vec![version("v1", "f", 1, 3)], vec![]);
    let r = s.restore_version_at("u", "f", "v1", 99).unwrap();
    assert_eq!(r.snapshot.version_number, 2);
    assert_eq!(r.snapshot.size_bytes, 5);
    assert_eq!(r.file.size_bytes, 3);
    assert_eq!(s.restore_version_at("u", "f", "nope", 99).unwrap_err(), ApiError::VersionNotFound);
    assert_eq!(s.restore_version_at("x", "f", "v1", 99).unwrap_err(), ApiError::FileNotFound);
}

#[test]
fn version_listing_follows_the_query() {
    let s = service(
        vec![file("f", "u", 1, "a.txt")],
        vec![version("a", "f", 1, 30), version("b", "f", 3, 10), version("c", "f", 2, 20), version("z", "g", 9, 1)],
        vec![],
    );
    let q = ListQuery { limit: default_limit(), offset: 0, order_by: None, direction: None };
    let all = s.list_versions("u", "f", &q).unwrap();
    assert_eq!(all.total, 3);
    let nums: Vec<i32> = all.versions.iter().map(|v| v.version_number).collect();
    assert_eq!(nums, vec![3, 2, 1]);
    let q = ListQuery { limit: 2, offset: 1, order_by: Some(VersionOrderField::Size), direction: Some(OrderDirection::Asc) };
    let some = s.list_versions("u", "f", &q).unwrap();
    assert_eq!(some.total, 3);
    let sizes: Vec<i64> = some.versions.iter().map(|v| v.size_bytes).collect();
    assert_eq!(sizes, vec![20, 30]);
    assert_eq!(s.list_versions("x", "f", &q).unwrap_err(), ApiError::FileNotFound);
}

#[test]
fn file_listing_orders_and_pages() {
    let s = service(vec![file("1", "u", 3, "b"), file("2", "u", 1, "c"), file("3", "u", 2, "a"), file("4", "v", 9, "z")], vec![], vec![]);
    let q = ListQuery { limit: 10, offset: 0, order_by: Some(FileOrderField::Name), direction: Some(OrderDirection::Asc) };
    let names: Vec<String> = s.list_files("u", &q).files.iter().map(|f| f.name.clone()).collect();
    assert_eq!(names, vec!["a", "b", "c"]);
    let q = ListQuery { limit: 1, offset: 1, order_by: Some(FileOrderField::Size), direction: Some(OrderDirection::Desc) };
    let r = s.list_files("u", &q);
    assert_eq!(r.files.len(), 1);
    assert_eq!(r.files[0].size_bytes, 2);
}

#[test]
fn pages_clamp_offsets_and_limits() {
    let v = vec![file("1", "u", 1, "a"), file("2", "u", 2, "b"), file("3", "u", 3, "c")];
    assert_eq!(page(&v, 1, 1).len(), 1);
    assert_eq!(page(&v, 5, 1).len(), 0);
    assert_eq!(page(&v, -3, 2).len(), 2);
    assert_eq!(page(&v, 1, -1).len(), 2);
    assert_eq!(default_limit(), 50);
}

#[test]
fn zip_entries_are_listed_in_order() {
    let e = |name: &str, size: u64, is_dir: bool| ZipEntry { name: name.into(), size, compressed_size: size / 2, is_dir };
    let entries = vec![e("b.txt", 5, false), e("a/", 0, true), e("c.txt", 1, false)];
    let q = ListQuery { limit: 50, offset: 0, order_by: None, direction: None };
    let names: Vec<String> = list_zip_entries(&entries, &q).iter().map(|x| x.name.clone()).collect();
    assert_eq!(names, vec!["a/", "b.txt", "c.txt"]);
    let q = ListQuery { limit: 2, offset: 0, order_by: Some(ZipEntryOrderField::Size), direction: Some(OrderDirection::Desc) };
    let sizes: Vec<u64> = list_zip_entries(&entries, &q).iter().map(|x| x.size).collect();
    assert_eq!(sizes, vec![5, 1]);
    let q = ListQuery { limit: 50, offset: 0, order_by: Some(ZipEntryOrderField::IsDir), direction: Some(OrderDirection::Asc) };
    assert!(list_zip_entries(&entries, &q)[2].is_dir);
}

#[test]
fn file_paths_are_resolved_for_the_owner_only() {
    let s = service(vec![file("f", "u", 1, "a.txt")], vec![], vec![]);
    let (path, mime, name) = s.resolve_file_path("u", "f").unwrap();
    assert_eq!(path, "/data/u/f");
    assert_eq!(mime, "text/plain");
    assert_eq!(name, "a.txt");
    assert_eq!(s.resolve_file_path("v", "f").unwrap_err(), ApiError::FileNotFound);
    assert!(s.resolve_file_path_by_id("f").is_ok());
}
