use neutrino_drive::search::{like, search, SearchQuery};
use neutrino_drive::storage::{FileRecord, StorageRepository};

fn file(id: &str, user: &str, name: &str, mime: &str, updated_at: i64, trashed: bool) -> FileRecord {
    FileRecord {
        id: id.into(),
        user_id: user.into(),
        name: name.into(),
        size_bytes: 3,
        mime_type: mime.into(),
        storage_path: format!("{user}/{id}"),
        created_at: 1,
        updated_at,
        folder_id: None,
        is_starred: false,
        deleted_at: if trashed { Some(5) } else { None },
    }
}

fn repo() -> StorageRepository {
    StorageRepository {
        files: vec![
            file("a", "u", "Budget 2024.xlsx", "application/vnd.ms-excel", 10, false),
            file("b", "u", "budget notes.txt", "text/plain", 30, false),
            file("c", "u", "photo.png", "image/png", 20, false),
            file("d", "u", "old budget.txt", "text/plain", 40, true),
            file("e", "v", "budget.txt", "text/plain", 50, false),
        ],
        versions: vec![],
        quotas: vec![],
    }
}

fn query(q: &str, file_type: Option<&str>) -> SearchQuery {
    SearchQuery { q: q.into(), file_type: file_type.map(String::from), limit: 20, offset: 0 }
}

#[test]
fn like_follows_sql_wildcards_and_ascii_case() {
    assert!(like("Budget 2024", "%budget%"));
    assert!(like("abc", "a_c"));
    assert!(!like("abbc", "a_c"));
    assert!(like("abc", "%"));
    assert!(like("", "%"));
    assert!(!like("", "_"));
    assert!(like("text/plain", "text%"));
    assert!(!like("image/png", "text%"));
    assert!(like("ÉTÉ", "ÉTÉ"));
    assert!(!like("été", "ÉTÉ"));
}

#[test]
fn names_are_searched_when_the_engine_finds_nothing() {
    let r = search(&repo(), "u", &query("budget", None), &vec![]);
    let ids: Vec<&str> = r.items.iter().map(|i| i.id.as_str()).collect();
    assert_eq!(ids, vec!["b", "a"]);
    assert_eq!(r.total, 2);
    assert!(r.items.iter().all(|i| i.snippet.is_none()));
    let typed = search(&repo(), "u", &query("budget", Some("text")), &vec![]);
    assert_eq!(typed.items.len(), 1);
    assert_eq!(typed.items[0].id, "b");
    let paged = search(&repo(), "u", &SearchQuery { q: "budget".into(), file_type: None, limit: 1, offset: 1 }, &vec![]);
    assert_eq!(paged.items.len(), 1);
    assert_eq!(paged.items[0].id, "a");
}

#[test]
fn engine_matches_are_joined_with_the_users_live_files() {
    let matches = vec![
        ("c".to_string(), Some("a <mark>photo</mark>".to_string())),
        ("d".to_string(), None),
        ("e".to_string(), None),
        ("a".to_string(), None),
    ];
    let r = search(&repo(), "u", &query("photo", None), &matches);
    let ids: Vec<&str> = r.items.iter().map(|i| i.id.as_str()).collect();
    assert_eq!(ids, vec!["a", "c"]);
    assert_eq!(r.items[1].snippet.as_deref(), Some("a <mark>photo</mark>"));
    assert_eq!(r.items[0].snippet, None);
    let blank = search(&repo(), "u", &query("   ", None), &matches);
    assert_eq!(blank.total, 0);
}
