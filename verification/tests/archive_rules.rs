use neutrino_drive::archive::{archive_from_packing, entries_from_listing, pack_zip, pack_zip_at, zip_contents, zip_entries_of};
use neutrino_drive::error::ApiError;
use neutrino_drive::pagination::{ListQuery, OrderDirection};
use neutrino_drive::storage::{ZipEntry, ZipEntryOrderField};

fn files() -> Vec<(String, Vec<u8>)> {
    vec![
        ("b.txt".to_string(), b"hello world".to_vec()),
        ("a.txt".to_string(), vec![7u8; 1000]),
        ("docs/".to_string(), vec![]),
    ]
}

#[test]
fn a_packed_archive_lists_its_files_in_order() {
    let bytes = pack_zip(&files()).unwrap();
    let entries = zip_entries_of(&bytes).unwrap();
    let names: Vec<&str> = entries.iter().map(|e| e.name.as_str()).collect();
    assert_eq!(names, vec!["b.txt", "a.txt", "docs/"]);
    assert_eq!(entries[0].size, 11);
    assert_eq!(entries[1].size, 1000);
    assert!(entries[1].compressed_size < 1000);
    assert!(entries[2].is_dir);
    assert!(!entries[0].is_dir);
}

#[test]
fn packing_at_one_time_gives_the_same_bytes() {
    let a = pack_zip_at(&files(), 1_700_000_000).unwrap();
    let b = pack_zip_at(&files(), 1_700_000_000).unwrap();
    assert_eq!(a, b);
    let c = pack_zip_at(&files(), 1_800_000_000).unwrap();
    assert_ne!(a, c);
    let empty = pack_zip_at(&vec![], 0).unwrap();
    assert_eq!(zip_entries_of(&empty).unwrap().len(), 0);
}

#[test]
fn two_files_of_one_name_cannot_be_packed() {
    let dup = vec![("x".to_string(), vec![1u8]), ("x".to_string(), vec![2u8])];
    assert_eq!(pack_zip_at(&dup, 1_700_000_000).unwrap_err(), ApiError::ZipWriteFailed);
    assert_eq!(archive_from_packing(None).unwrap_err(), ApiError::ZipWriteFailed);
    assert_eq!(archive_from_packing(Some(vec![1, 2])).unwrap(), vec![1, 2]);
}

#[test]
fn bytes_that_are_no_archive_are_invalid_zip() {
    let err = zip_entries_of(b"definitely not a zip file").unwrap_err();
    assert_eq!(err, ApiError::InvalidZip);
    assert_eq!(err.status(), 400);
    assert_eq!(err.code(), "INVALID_ZIP");
    let q = ListQuery { limit: 10, offset: 0, order_by: None, direction: None };
    assert_eq!(zip_contents(&[], &q).unwrap_err(), ApiError::InvalidZip);
    assert_eq!(entries_from_listing(None).unwrap_err(), ApiError::InvalidZip);
    assert_eq!(entries_from_listing(Some(None)).unwrap_err(), ApiError::ZipEntryUnreadable);
    let one = ZipEntry { name: "n".into(), size: 1, compressed_size: 1, is_dir: false };
    assert_eq!(entries_from_listing(Some(Some(vec![one]))).unwrap()[0].name, "n");
}

#[test]
fn archive_contents_are_ordered_and_paged() {
    let bytes = pack_zip_at(&files(), 1_700_000_000).unwrap();
    let q = ListQuery { limit: 10, offset: 0, order_by: None, direction: None };
    let by_name: Vec<String> = zip_contents(&bytes, &q).unwrap().into_iter().map(|e| e.name).collect();
    assert_eq!(by_name, vec!["a.txt", "b.txt", "docs/"]);
    let q = ListQuery { limit: 1, offset: 0, order_by: Some(ZipEntryOrderField::Size), direction: Some(OrderDirection::Desc) };
    let biggest = zip_contents(&bytes, &q).unwrap();
    assert_eq!(biggest.len(), 1);
    assert_eq!(biggest[0].name, "a.txt");
}
