use neutrino_drive::permissions::{PermissionRecord, ResourceKind, Role};
use neutrino_drive::priority::{recent_files, suggested_collaborators, MAX_SUGGESTED_COLLABORATORS};
use neutrino_drive::storage::{FileRecord, StorageRepository};

fn grant(id: &str, by: &str, to: &str, name: &str) -> PermissionRecord {
    PermissionRecord {
        id: id.into(),
        resource_type: ResourceKind::File,
        resource_id: format!("res-{id}"),
        user_id: to.into(),
        role: Role::Viewer,
        granted_by: by.into(),
        user_email: format!("{name}@example.com"),
        user_name: name.into(),
        created_at: 0,
    }
}

fn file(id: &str, user: &str, updated_at: i64, trashed: bool) -> FileRecord {
    FileRecord {
        id: id.into(),
        user_id: user.into(),
        name: format!("{id}.txt"),
        size_bytes: 1,
        mime_type: "text/plain".into(),
        storage_path: format!("{user}/{id}"),
        created_at: 0,
        updated_at,
        folder_id: None,
        is_starred: false,
        deleted_at: if trashed { Some(updated_at) } else { None },
    }
}

#[test]
fn collaborators_ranked_by_how_often_they_were_granted() {
    let perms = vec![
        grant("1", "ann", "bob", "Bob"),
        grant("2", "ann", "cid", "Cid"),
        grant("3", "ann", "bob", "Bobby"),
        grant("4", "ann", "ann", "Ann"),
        grant("5", "zed", "dee", "Dee"),
        grant("6", "ann", "cid", "Cid"),
        grant("7", "ann", "bob", "Robert"),
        grant("8", "ann", "eve", "Eve"),
    ];
    let r = suggested_collaborators(&perms, "ann");
    assert_eq!(r.len(), 3);
    assert_eq!((r[0].user_id.as_str(), r[0].shared_file_count), ("bob", 3));
    assert_eq!(r[0].name, "Robert");
    assert_eq!(r[0].email, "Robert@example.com");
    assert_eq!((r[1].user_id.as_str(), r[1].shared_file_count), ("cid", 2));
    assert_eq!((r[2].user_id.as_str(), r[2].shared_file_count), ("eve", 1));
    assert!(suggested_collaborators(&perms, "nobody").is_empty());
}

#[test]
fn at_most_five_collaborators_the_busiest_kept() {
    let mut perms = Vec::new();
    let mut n = 0;
    for (who, times) in [("a", 1), ("b", 6), ("c", 2), ("d", 5), ("e", 3), ("f", 4), ("g", 1)] {
        for _ in 0..times {
            n += 1;
            perms.push(grant(&n.to_string(), "me", who, who));
        }
    }
    let r = suggested_collaborators(&perms, "me");
    assert_eq!(r.len(), MAX_SUGGESTED_COLLABORATORS);
    let ids: Vec<&str> = r.iter().map(|c| c.user_id.as_str()).collect();
    assert_eq!(ids, vec!["b", "d", "f", "e", "c"]);
}

#[test]
fn recent_files_are_live_newest_first_and_limited() {
    let repo = StorageRepository {
        files: vec![
            file("old", "u", 1, false),
            file("new", "u", 9, false),
            file("gone", "u", 10, true),
            file("mid", "u", 5, false),
            file("theirs", "v", 20, false),
        ],
        versions: vec![],
        quotas: vec![],
    };
    let all: Vec<String> = recent_files(&repo, "u", 8).into_iter().map(|f| f.id).collect();
    assert_eq!(all, vec!["new", "mid", "old"]);
    let two: Vec<String> = recent_files(&repo, "u", 2).into_iter().map(|f| f.id).collect();
    assert_eq!(two, vec!["new", "mid"]);
}
