//! ZIP archives: the entries that an archive lists, and packing files into
//! a new archive for a bulk download.
use vstd::prelude::*;
use std::io::Write;
use crate::error::ApiError;
use crate::pagination::ListQuery;
use crate::runtime::now_utc;
use crate::storage::{list_zip_entries, zip_page, ZipEntry, ZipEntryOrderField};

verus! {

/// An entry as plain values: name, size, compressed size, directory or not.
pub open spec fn entry_view(e: ZipEntry) -> (Seq<char>, u64, u64, bool) {
    (e.name@, e.size, e.compressed_size, e.is_dir)
}

/// The entries as plain values, in order.
pub open spec fn entries_view(v: Seq<ZipEntry>) -> Seq<(Seq<char>, u64, u64, bool)> {
    v.map_values(|e: ZipEntry| entry_view(e))
}

/// What reading an archive gave, as plain values.
pub open spec fn listing_view(l: Option<Option<Vec<ZipEntry>>>) -> Option<Option<Seq<(Seq<char>, u64, u64, bool)>>> {
    match l {
        Some(Some(v)) => Some(Some(entries_view(v@))),
        Some(None) => Some(None),
        None => None,
    }
}

/// What `zip::ZipArchive` reads from the bytes of an archive: `None` where
/// they are not an archive, `Some(None)` where an entry cannot be read, and
/// otherwise the entries in the archive's order.
pub uninterp spec fn zip_listed(bytes: Seq<u8>) -> Option<Option<Seq<(Seq<char>, u64, u64, bool)>>>;

/// Opens `bytes` with `zip::ZipArchive::new` and reads each entry with
/// `by_index`: its name, size, compressed size and whether it is a
/// directory. The answer is `zip_listed` of the bytes: it depends on
/// nothing else.
#[verifier::external_body]
fn read_zip_listing(bytes: &[u8]) -> (r: Option<Option<Vec<ZipEntry>>>)
    ensures
        listing_view(r) == zip_listed(bytes@),
{
    let mut archive = match zip::ZipArchive::new(std::io::Cursor::new(bytes)) {
        Ok(a) => a,
        Err(_) => return None,
    };
    let mut entries = Vec::new();
    for i in 0..archive.len() {
        match archive.by_index(i) {
            Ok(e) => entries.push(ZipEntry { name: e.name().to_owned(), size: e.size(), compressed_size: e.compressed_size(), is_dir: e.is_dir() }),
            Err(_) => return Some(None),
        }
    }
    Some(Some(entries))
}

/// `r` answers the reading `l` of an archive: `InvalidZip` for bytes that
/// are no archive, `ZipEntryUnreadable` for an entry that cannot be read,
/// and otherwise the entries.
pub open spec fn listing_answer(r: Result<Vec<ZipEntry>, ApiError>, l: Option<Option<Seq<(Seq<char>, u64, u64, bool)>>>) -> bool {
    match l {
        None => r == Err::<Vec<ZipEntry>, ApiError>(ApiError::InvalidZip),
        Some(None) => r == Err::<Vec<ZipEntry>, ApiError>(ApiError::ZipEntryUnreadable),
        Some(Some(es)) => r matches Ok(v) && entries_view(v@) == es,
    }
}

/// The entries of an archive, from what reading it gave.
pub fn entries_from_listing(listing: Option<Option<Vec<ZipEntry>>>) -> (r: Result<Vec<ZipEntry>, ApiError>)
    ensures
        listing_answer(r, listing_view(listing)),
{
    match listing {
        Some(Some(v)) => Ok(v),
        Some(None) => Err(ApiError::ZipEntryUnreadable),
        None => Err(ApiError::InvalidZip),
    }
}

/// The entries of the archive whose bytes are `bytes`.
pub fn zip_entries_of(bytes: &[u8]) -> (r: Result<Vec<ZipEntry>, ApiError>)
    ensures
        listing_answer(r, zip_listed(bytes@)),
{
    entries_from_listing(read_zip_listing(bytes))
}

/// A page of the entries of the archive whose bytes are `bytes`, ordered as
/// `query` says; `InvalidZip` for bytes that are no archive, and
/// `ZipEntryUnreadable` for an entry that cannot be read.
pub fn zip_contents(bytes: &[u8], query: &ListQuery<ZipEntryOrderField>) -> (r: Result<Vec<ZipEntry>, ApiError>)
    ensures
        match zip_listed(bytes@) {
            None => r == Err::<Vec<ZipEntry>, ApiError>(ApiError::InvalidZip),
            Some(None) => r == Err::<Vec<ZipEntry>, ApiError>(ApiError::ZipEntryUnreadable),
            Some(Some(es)) => r matches Ok(page) && exists|v: Seq<ZipEntry>|
                #[trigger] entries_view(v) == es && zip_page(v, *query, page@),
        },
{
    match zip_entries_of(bytes) {
        Ok(entries) => {
            let page = list_zip_entries(&entries, query);
            proof {
                assert(entries_view(entries@) == entries_view(entries@));
            }
            Ok(page)
        },
        Err(e) => Err(e),
    }
}

/// Files to pack, as plain values: each name with its content.
pub open spec fn pack_view(v: Seq<(String, Vec<u8>)>) -> Seq<(Seq<char>, Seq<u8>)> {
    v.map_values(|p: (String, Vec<u8>)| (p.0@, p.1@))
}

/// Optional bytes, as plain values.
pub open spec fn bytes_view(b: Option<Vec<u8>>) -> Option<Seq<u8>> {
    match b {
        Some(v) => Some(v@),
        None => None,
    }
}

/// What `zip::ZipWriter` writes for `files` (each a name and its content,
/// deflated, with Unix permissions 0644) when each entry is stamped with the
/// UTC time `stamp` (seconds since the Unix epoch): the bytes of the
/// archive, or `None` where the writer refuses.
pub uninterp spec fn zip_packed(files: Seq<(Seq<char>, Seq<u8>)>, stamp: i64) -> Option<Seq<u8>>;

/// Writes `files` into a new archive with `zip::ZipWriter` over an
/// in-memory buffer: each entry deflated, with Unix permissions 0644 and
/// last modified at `stamp` (converted by `zip::DateTime::try_from`, or the
/// writer's default date where the time does not fit). The answer is
/// `zip_packed` of the files and the stamp: it depends on nothing else.
#[verifier::external_body]
fn write_zip(files: &Vec<(String, Vec<u8>)>, stamp: i64) -> (r: Option<Vec<u8>>)
    ensures
        bytes_view(r) == zip_packed(pack_view(files@), stamp),
{
    let when = match chrono::DateTime::from_timestamp(stamp, 0) {
        Some(t) => zip::DateTime::try_from(t.naive_utc()).unwrap_or_default(),
        None => zip::DateTime::default(),
    };
    let options = zip::write::SimpleFileOptions::default().compression_method(zip::CompressionMethod::Deflated).unix_permissions(0o644).last_modified_time(when);
    let mut zip = zip::ZipWriter::new(std::io::Cursor::new(Vec::new()));
    for (name, data) in files.iter() {
        zip.start_file(name.as_str(), options).ok()?;
        zip.write_all(data).ok()?;
    }
    Some(zip.finish().ok()?.into_inner())
}

/// `r` answers the packing `p`: its bytes, or `ZipWriteFailed`.
pub open spec fn pack_answer(r: Result<Vec<u8>, ApiError>, p: Option<Seq<u8>>) -> bool {
    match p {
        Some(b) => r matches Ok(v) && v@ == b,
        None => r == Err::<Vec<u8>, ApiError>(ApiError::ZipWriteFailed),
    }
}

/// The archive, from what packing gave.
pub fn archive_from_packing(packed: Option<Vec<u8>>) -> (r: Result<Vec<u8>, ApiError>)
    ensures
        pack_answer(r, bytes_view(packed)),
{
    match packed {
        Some(v) => Ok(v),
        None => Err(ApiError::ZipWriteFailed),
    }
}

/// Packs `files` (each a name and its content) into a ZIP archive whose
/// entries are stamped with the UTC time `stamp`.
pub fn pack_zip_at(files: &Vec<(String, Vec<u8>)>, stamp: i64) -> (r: Result<Vec<u8>, ApiError>)
    ensures
        pack_answer(r, zip_packed(pack_view(files@), stamp)),
{
    archive_from_packing(write_zip(files, stamp))
}

/// Packs `files` (each a name and its content) into a ZIP archive whose
/// entries are stamped with the current UTC time.
pub fn pack_zip(files: &Vec<(String, Vec<u8>)>) -> (r: Result<Vec<u8>, ApiError>)
    ensures
        exists|stamp: i64| pack_answer(r, #[trigger] zip_packed(pack_view(files@), stamp)),
{
    let stamp = now_utc();
    pack_zip_at(files, stamp)
}

} // verus!
