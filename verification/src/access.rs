//! What the file endpoints decide before they touch content: who may
//! download, preview, list or replace a file (roles, then IRM policy), how an
//! upload is named and typed, which uploads get a thumbnail, the jobs an
//! upload enqueues, and the ids of a bulk download.
use vstd::prelude::*;
use crate::error::ApiError;
use crate::text::{str_eq, trim, trimmed, starts_with, has_prefix, id_list};
use crate::rows::last_where;
use crate::permissions::{PermissionsService, ResourceKind, Role, repo_role, role_name};
use crate::irm::{IrmService, restrictions_for, policy_on};
use crate::storage::{StorageService, FileRecord, file_with_id, path_join};
use crate::jobs::{JobsService, CreateJobRequest, WorkerJobRecord, JobStatus};

verus! {

broadcast use vstd::seq_lib::group_seq_properties, vstd::seq::group_seq_axioms;

/// The IRM restrictions on `role` for the file `file`.
pub open spec fn file_restrictions(irm: IrmService, file: Seq<char>, role: Role) -> crate::irm::IrmRestrictions {
    restrictions_for(last_where(irm.repo.policies@, policy_on(ResourceKind::File, file)), role_name(role))
}

/// Law: on a file with an IRM policy, an editor's download is restricted
/// exactly when the policy restricts downloads for editors, and likewise
/// for commenters and viewers; an owner's never is.
pub proof fn law_download_restriction_by_role(irm: IrmService, file: Seq<char>, p: crate::irm::IrmPolicyRecord)
    requires
        last_where(irm.repo.policies@, policy_on(ResourceKind::File, file)) == Some(p),
    ensures
        file_restrictions(irm, file, Role::Editor).restrict_download == p.restrict_download_editor,
        file_restrictions(irm, file, Role::Editor).restrict_print_copy == p.restrict_print_copy_editor,
        file_restrictions(irm, file, Role::Commenter).restrict_download == p.restrict_download_commenter,
        file_restrictions(irm, file, Role::Commenter).restrict_print_copy == p.restrict_print_copy_commenter,
        file_restrictions(irm, file, Role::Viewer).restrict_download == p.restrict_download_viewer,
        file_restrictions(irm, file, Role::Viewer).restrict_print_copy == p.restrict_print_copy_viewer,
        !file_restrictions(irm, file, Role::Owner).restrict_download,
        !file_restrictions(irm, file, Role::Owner).restrict_print_copy,
{
    crate::irm::law_restrictions_follow_role_columns(p);
    crate::irm::law_owner_never_restricted(Some(p));
}

/// Where the file `file` lies, its MIME type and its name.
pub open spec fn file_location(storage: StorageService, file: Seq<char>) -> Option<(Seq<char>, String, String)> {
    match last_where(storage.repo.files@, file_with_id(file)) {
        Some(f) => Some((path_join(storage.store.base_path@, f.storage_path@), f.mime_type, f.name)),
        None => None,
    }
}

/// Whether a located file matches what an endpoint answered.
pub open spec fn located(loc: Option<(Seq<char>, String, String)>, r: (String, String, String)) -> bool {
    loc matches Some(l) && r.0@ == l.0 && r.1 == l.1 && r.2 == l.2
}

/// Allows a download of the file `file_id` by `user_id`: the user needs a
/// role on it, and the file's IRM policy must not restrict downloads for
/// that role. Answers where the file lies, its MIME type and its name.
pub fn authorize_download(perms: &PermissionsService, irm: &IrmService, storage: &StorageService, user_id: &str, file_id: &str) -> (r: Result<(String, String, String), ApiError>)
    ensures
        match repo_role(perms.repo, user_id@, ResourceKind::File, file_id@) {
            None => r == Err::<(String, String, String), ApiError>(ApiError::AccessDenied),
            Some(role) => if file_restrictions(*irm, file_id@, role).restrict_download {
                r == Err::<(String, String, String), ApiError>(ApiError::DownloadRestricted)
            } else if file_location(*storage, file_id@) is None {
                r == Err::<(String, String, String), ApiError>(ApiError::FileNotFound)
            } else {
                r is Ok && located(file_location(*storage, file_id@), r->Ok_0)
            },
        },
{
    let role = match perms.get_effective_role(user_id, ResourceKind::File, file_id) {
        Some(r) => r,
        None => {
            return Err(ApiError::AccessDenied);
        },
    };
    let restrictions = irm.get_restrictions(ResourceKind::File, file_id, role.as_str());
    if restrictions.restrict_download {
        return Err(ApiError::DownloadRestricted);
    }
    storage.resolve_file_path_by_id(file_id)
}

/// Allows an inline preview of the file `file_id` by `user_id`: the user
/// needs a role on it. Answers where the file lies, its MIME type, and
/// whether the IRM policy forbids printing and copying it for that role.
pub fn authorize_preview(perms: &PermissionsService, irm: &IrmService, storage: &StorageService, user_id: &str, file_id: &str) -> (r: Result<(String, String, bool), ApiError>)
    ensures
        match repo_role(perms.repo, user_id@, ResourceKind::File, file_id@) {
            None => r == Err::<(String, String, bool), ApiError>(ApiError::AccessDenied),
            Some(role) => match file_location(*storage, file_id@) {
                None => r == Err::<(String, String, bool), ApiError>(ApiError::FileNotFound),
                Some(l) => r is Ok && r->Ok_0.0@ == l.0 && r->Ok_0.1 == l.1
                    && r->Ok_0.2 == file_restrictions(*irm, file_id@, role).restrict_print_copy,
            },
        },
{
    let role = match perms.get_effective_role(user_id, ResourceKind::File, file_id) {
        Some(r) => r,
        None => {
            return Err(ApiError::AccessDenied);
        },
    };
    let restrict_print_copy = irm.get_restrictions(ResourceKind::File, file_id, role.as_str()).restrict_print_copy;
    let (path, mime, _) = storage.resolve_file_path_by_id(file_id)?;
    Ok((path, mime, restrict_print_copy))
}

/// Allows reading the content of the file `file_id` by `user_id` (to list
/// an archive's entries): the user needs a role on it. Answers where the
/// file lies.
pub fn authorize_read(perms: &PermissionsService, storage: &StorageService, user_id: &str, file_id: &str) -> (r: Result<String, ApiError>)
    ensures
        repo_role(perms.repo, user_id@, ResourceKind::File, file_id@) is None ==> r == Err::<String, ApiError>(ApiError::AccessDenied),
        repo_role(perms.repo, user_id@, ResourceKind::File, file_id@) is Some ==> match file_location(*storage, file_id@) {
            None => r == Err::<String, ApiError>(ApiError::FileNotFound),
            Some(l) => r is Ok && r->Ok_0@ == l.0,
        },
{
    if perms.get_effective_role(user_id, ResourceKind::File, file_id).is_none() {
        return Err(ApiError::AccessDenied);
    }
    let (path, _, _) = storage.resolve_file_path_by_id(file_id)?;
    Ok(path)
}

/// Allows `user_id` to upload a new version of the file `file_id`: only its
/// owners and editors may. Answers the user's role.
pub fn authorize_edit(perms: &PermissionsService, user_id: &str, file_id: &str) -> (r: Result<Role, ApiError>)
    ensures
        match repo_role(perms.repo, user_id@, ResourceKind::File, file_id@) {
            None => r == Err::<Role, ApiError>(ApiError::AccessDenied),
            Some(role) => if role == Role::Owner || role == Role::Editor {
                r == Ok::<Role, ApiError>(role)
            } else {
                r == Err::<Role, ApiError>(ApiError::EditAccessRequired)
            },
        },
{
    let role = match perms.get_effective_role(user_id, ResourceKind::File, file_id) {
        Some(r) => r,
        None => {
            return Err(ApiError::AccessDenied);
        },
    };
    if role != Role::Owner && role != Role::Editor {
        return Err(ApiError::EditAccessRequired);
    }
    Ok(role)
}

/// The file `file_id` with the role `user_id` holds on it; the file must
/// exist and the user must have a role.
pub fn file_info(perms: &PermissionsService, storage: &StorageService, user_id: &str, file_id: &str) -> (r: Result<(FileRecord, Role), ApiError>)
    ensures
        match last_where(storage.repo.files@, file_with_id(file_id@)) {
            None => r == Err::<(FileRecord, Role), ApiError>(ApiError::FileNotFound),
            Some(f) => match repo_role(perms.repo, user_id@, ResourceKind::File, file_id@) {
                None => r == Err::<(FileRecord, Role), ApiError>(ApiError::AccessDenied),
                Some(role) => r == Ok::<(FileRecord, Role), ApiError>((f, role)),
            },
        },
{
    let file = match storage.find_file_any_user(file_id) {
        Some(f) => f,
        None => {
            return Err(ApiError::FileNotFound);
        },
    };
    match perms.get_effective_role(user_id, ResourceKind::File, file_id) {
        Some(role) => Ok((file, role)),
        None => Err(ApiError::AccessDenied),
    }
}

/// A request to create a file record without content.
pub struct CreateFileRequest {
    pub id: String,
    pub name: String,
    pub mime_type: String,
    pub folder_id: Option<String>,
}

/// Creates the record of a file without content for `user_id`; the name is
/// trimmed and must not be empty then.
pub fn create_file_record(storage: &mut StorageService, user_id: &str, req: CreateFileRequest) -> (r: Result<FileRecord, ApiError>)
    ensures
        trimmed(req.name@).len() == 0 ==> r == Err::<FileRecord, ApiError>(ApiError::EmptyFileName) && *final(storage) == *old(storage),
        trimmed(req.name@).len() > 0 ==> {
            &&& r is Ok
            &&& r->Ok_0.id@ == req.id@
            &&& r->Ok_0.user_id@ == user_id@
            &&& r->Ok_0.name@ == trimmed(req.name@)
            &&& r->Ok_0.mime_type@ == req.mime_type@
            &&& r->Ok_0.folder_id == req.folder_id
            &&& r->Ok_0.size_bytes == 0
            &&& final(storage).repo.files@ == old(storage).repo.files@.push(r->Ok_0)
        },
{
    let name = trim(req.name.as_str());
    if name.unicode_len() == 0 {
        return Err(ApiError::EmptyFileName);
    }
    Ok(storage.save_file(user_id, req.id.as_str(), name, req.mime_type.as_str(), req.folder_id))
}

/// What `mime_guess::from_path(name).first_or_octet_stream()` gives, as
/// text: the MIME type that the name's extension suggests, or
/// `application/octet-stream`.
pub uninterp spec fn mime_guessed(name: Seq<char>) -> Seq<char>;

/// Guesses a MIME type from a file name with `mime_guess`. The result is
/// named, not restated: mime_guess's extension table is not written out.
#[verifier::external_body]
fn guess_mime(name: &str) -> (r: String)
    ensures
        r@ == mime_guessed(name@),
{
    mime_guess::from_path(name).first_or_octet_stream().to_string()
}

/// The name an upload is stored under: the name the client sent, or
/// `untitled`.
pub fn upload_file_name(sent: Option<&str>) -> (r: String)
    ensures
        r@ == match sent {
            Some(n) => n@,
            None => "untitled"@,
        },
{
    match sent {
        Some(n) => n.to_owned(),
        None => "untitled".to_owned(),
    }
}

/// The MIME type an upload is stored with: the content type the client
/// sent, or the one its name suggests.
pub fn upload_mime_type(content_type: Option<&str>, file_name: &str) -> (r: String)
    ensures
        r@ == match content_type {
            Some(c) => c@,
            None => mime_guessed(file_name@),
        },
{
    match content_type {
        Some(c) => c.to_owned(),
        None => guess_mime(file_name),
    }
}

/// The folder an upload goes to, from the text of its `folder_id` field:
/// the trimmed text, unless that is empty.
pub fn folder_field_value(text: &str) -> (r: Option<String>)
    ensures
        trimmed(text@).len() == 0 ==> r is None,
        trimmed(text@).len() > 0 ==> (r matches Some(v) && v@ == trimmed(text@)),
{
    let t = trim(text);
    if t.unicode_len() == 0 {
        None
    } else {
        Some(t.to_owned())
    }
}

/// `s` up to its first semicolon (all of it if there is none).
pub open spec fn before_semicolon(s: Seq<char>) -> Seq<char>
    decreases s.len(),
{
    if s.len() == 0 {
        s
    } else if s[0] == ';' {
        Seq::empty()
    } else {
        seq![s[0]] + before_semicolon(s.drop_first())
    }
}

/// Splitting off a prefix without semicolons.
proof fn lemma_before_semicolon(s: Seq<char>, i: int)
    requires
        0 <= i <= s.len(),
        forall|j: int| 0 <= j < i ==> s[j] != ';',
    ensures
        before_semicolon(s) == s.take(i) + before_semicolon(s.skip(i)),
    decreases i,
{
    if i > 0 {
        let t = s.drop_first();
        assert forall|j: int| 0 <= j < i - 1 implies t[j] != ';' by {
            assert(t[j] == s[j + 1]);
        }
        lemma_before_semicolon(t, i - 1);
        assert(t.skip(i - 1) =~= s.skip(i));
        assert(seq![s[0]] + t.take(i - 1) =~= s.take(i));
    } else {
        assert(s.skip(0) =~= s);
        assert(s.take(0) + s =~= s);
    }
}

/// `s` up to its first semicolon.
fn semicolon_prefix(s: &str) -> (r: &str)
    ensures
        r@ == before_semicolon(s@),
{
    let n = s.unicode_len();
    let mut i: usize = 0;
    while i < n && s.get_char(i) != ';'
        invariant
            n == s@.len(),
            i <= n,
            forall|j: int| 0 <= j < i ==> s@[j] != ';',
        decreases n - i,
    {
        i += 1;
    }
    proof {
        lemma_before_semicolon(s@, i as int);
        if i < n {
            assert(s@.skip(i as int)[0] == ';');
        } else {
            assert(s@.skip(i as int) =~= Seq::<char>::empty());
        }
        assert(s@.take(i as int) + before_semicolon(s@.skip(i as int)) =~= s@.take(i as int));
    }
    s.substring_char(0, i)
}

/// The document and sheet types, besides images, that a thumbnail can be
/// made of.
pub open spec fn thumbnail_types() -> Seq<Seq<char>> {
    seq![
        "application/pdf"@,
        "application/vnd.openxmlformats-officedocument.wordprocessingml.document"@,
        "application/msword"@,
        "application/vnd.openxmlformats-officedocument.presentationml.presentation"@,
        "application/vnd.ms-powerpoint"@,
        "text/csv"@,
        "application/csv"@,
        "text/comma-separated-values"@,
        "application/x-neutrino-doc"@,
        "application/x-neutrino-sheet"@,
        "application/x-neutrino-slide"@,
    ]
}

/// Whether a thumbnail can be made of content of MIME type `mime`: its type
/// (before any parameters, trimmed) is an image, or one of the listed
/// document types.
pub open spec fn thumbnail_supported(mime: Seq<char>) -> bool {
    let m = trimmed(before_semicolon(mime));
    has_prefix(m, "image/"@) || thumbnail_types().contains(m)
}

/// Whether a thumbnail can be made of content of MIME type `mime_type`.
pub fn is_thumbnail_supported(mime_type: &str) -> (r: bool)
    ensures
        r == thumbnail_supported(mime_type@),
{
    proof {
        reveal_strlit("image/");
        reveal_strlit("application/pdf");
        reveal_strlit("application/vnd.openxmlformats-officedocument.wordprocessingml.document");
        reveal_strlit("application/msword");
        reveal_strlit("application/vnd.openxmlformats-officedocument.presentationml.presentation");
        reveal_strlit("application/vnd.ms-powerpoint");
        reveal_strlit("text/csv");
        reveal_strlit("application/csv");
        reveal_strlit("text/comma-separated-values");
        reveal_strlit("application/x-neutrino-doc");
        reveal_strlit("application/x-neutrino-sheet");
        reveal_strlit("application/x-neutrino-slide");
    }
    let m = trim(semicolon_prefix(mime_type));
    if starts_with(m, "image/") {
        return true;
    }
    let hit = str_eq(m, "application/pdf")
        || str_eq(m, "application/vnd.openxmlformats-officedocument.wordprocessingml.document")
        || str_eq(m, "application/msword")
        || str_eq(m, "application/vnd.openxmlformats-officedocument.presentationml.presentation")
        || str_eq(m, "application/vnd.ms-powerpoint")
        || str_eq(m, "text/csv")
        || str_eq(m, "application/csv")
        || str_eq(m, "text/comma-separated-values")
        || str_eq(m, "application/x-neutrino-doc")
        || str_eq(m, "application/x-neutrino-sheet")
        || str_eq(m, "application/x-neutrino-slide");
    proof {
        let ts = thumbnail_types();
        if hit {
            assert(ts[0] == "application/pdf"@);
            assert(ts[1] == "application/vnd.openxmlformats-officedocument.wordprocessingml.document"@);
            assert(ts[2] == "application/msword"@);
            assert(ts[3] == "application/vnd.openxmlformats-officedocument.presentationml.presentation"@);
            assert(ts[4] == "application/vnd.ms-powerpoint"@);
            assert(ts[5] == "text/csv"@);
            assert(ts[6] == "application/csv"@);
            assert(ts[7] == "text/comma-separated-values"@);
            assert(ts[8] == "application/x-neutrino-doc"@);
            assert(ts[9] == "application/x-neutrino-sheet"@);
            assert(ts[10] == "application/x-neutrino-slide"@);
        } else {
            assert(!ts.contains(m@)) by {
                if ts.contains(m@) {
                    let k = choose|k: int| 0 <= k < ts.len() && ts[k] == m@;
                    assert(k == 0 || k == 1 || k == 2 || k == 3 || k == 4 || k == 5 || k == 6 || k == 7 || k == 8 || k == 9 || k == 10);
                }
            }
        }
    }
    hit
}

/// The text that `serde_json` writes for the string `s` (a JSON string
/// literal, quotes and escapes included).
pub uninterp spec fn json_quoted(s: Seq<char>) -> Seq<char>;

/// Writes `s` as a JSON string literal with `serde_json::to_string`, which
/// does not fail on a string. The result is named, not restated: JSON's
/// escaping rules are not written out here.
#[verifier::external_body]
fn json_string(s: &str) -> (r: String)
    ensures
        r@ == json_quoted(s@),
{
    match serde_json::to_string(s) {
        Ok(t) => t,
        Err(_) => String::new(),
    }
}

/// The payload of a thumbnail job for the file `file_id`, as JSON text.
pub open spec fn thumbnail_payload(file_id: Seq<char>) -> Seq<char> {
    "{\"fileId\":"@ + json_quoted(file_id) + "}"@
}

/// The payload of a content-indexing job for the file `file_id` of
/// `user_id`, as JSON text.
pub open spec fn index_payload(file_id: Seq<char>, user_id: Seq<char>) -> Seq<char> {
    "{\"fileId\":"@ + json_quoted(file_id) + ",\"userId\":"@ + json_quoted(user_id) + "}"@
}

/// How long a worker may hold an upload's job, in seconds.
pub const UPLOAD_JOB_TIMEOUT_SECS: i32 = 60;

/// The job that makes a thumbnail of the file `file_id`.
pub fn thumbnail_job(file_id: &str) -> (r: CreateJobRequest)
    ensures
        r.job_type@ == "thumbnail"@,
        r.payload@ == thumbnail_payload(file_id@),
        r.timeout_secs == UPLOAD_JOB_TIMEOUT_SECS,
{
    let mut payload = String::from_str("{\"fileId\":");
    let q = json_string(file_id);
    payload.append(q.as_str());
    payload.append("}");
    CreateJobRequest { job_type: "thumbnail".to_owned(), payload, timeout_secs: UPLOAD_JOB_TIMEOUT_SECS }
}

/// The job that indexes the content of the file `file_id` of `user_id`.
pub fn index_job(file_id: &str, user_id: &str) -> (r: CreateJobRequest)
    ensures
        r.job_type@ == "index_content"@,
        r.payload@ == index_payload(file_id@, user_id@),
        r.timeout_secs == UPLOAD_JOB_TIMEOUT_SECS,
{
    let mut payload = String::from_str("{\"fileId\":");
    let q = json_string(file_id);
    payload.append(q.as_str());
    payload.append(",\"userId\":");
    let u = json_string(user_id);
    payload.append(u.as_str());
    payload.append("}");
    CreateJobRequest { job_type: "index_content".to_owned(), payload, timeout_secs: UPLOAD_JOB_TIMEOUT_SECS }
}

/// Whether `j` is a job of an upload just queued at `now`: of type
/// `job_type` with `payload`, ready, unclaimed, timing out after the upload
/// job timeout.
pub open spec fn queued_upload_job(j: WorkerJobRecord, job_type: Seq<char>, payload: Seq<char>, now: i64) -> bool {
    &&& j.job_type@ == job_type
    &&& j.payload@ == payload
    &&& j.status == JobStatus::Ready
    &&& j.timeout_secs == UPLOAD_JOB_TIMEOUT_SECS
    &&& j.error_message is None
    &&& j.worker_id is None
    &&& j.started_at is None
    &&& j.created_at == now
    &&& j.updated_at == now
}

/// Enqueues, at time `now`, the jobs for a finished upload of the file
/// `file_id` of `user_id`: a thumbnail job where the MIME type allows one,
/// then a content-indexing job.
pub fn enqueue_upload_jobs(jobs: &mut JobsService, file_id: &str, user_id: &str, mime_type: &str, now: i64)
    ensures
        final(jobs).repo.jobs@.len() == old(jobs).repo.jobs@.len() + if thumbnail_supported(mime_type@) { 2int } else { 1int },
        final(jobs).repo.jobs@.take(old(jobs).repo.jobs@.len() as int) == old(jobs).repo.jobs@,
        queued_upload_job(final(jobs).repo.jobs@.last(), "index_content"@, index_payload(file_id@, user_id@), now),
        thumbnail_supported(mime_type@) ==> queued_upload_job(final(jobs).repo.jobs@[old(jobs).repo.jobs@.len() as int],
            "thumbnail"@, thumbnail_payload(file_id@), now),
        final(jobs).repo.workers@ == old(jobs).repo.workers@,
{
    let ghost j0 = jobs.repo.jobs@;
    if is_thumbnail_supported(mime_type) {
        jobs.create_job_at(thumbnail_job(file_id), now);
    }
    let ghost j1 = jobs.repo.jobs@;
    jobs.create_job_at(index_job(file_id, user_id), now);
    assert(jobs.repo.jobs@.take(j0.len() as int) =~= j0);
}

/// The pieces of `s` between commas.
pub open spec fn comma_pieces(s: Seq<char>) -> Seq<Seq<char>>
    decreases s.len(),
{
    if s.len() == 0 {
        seq![Seq::empty()]
    } else {
        let w = comma_pieces(s.drop_last());
        if s.last() == ',' {
            w.push(Seq::empty())
        } else {
            w.update(w.len() - 1, w.last().push(s.last()))
        }
    }
}

/// The ids of a bulk download, from its comma-separated list: each piece
/// trimmed, empty pieces left out.
pub open spec fn listed_ids(s: Seq<char>) -> Seq<Seq<char>> {
    comma_pieces(s).map_values(|p: Seq<char>| trimmed(p)).filter(|p: Seq<char>| p.len() > 0)
}

/// The ids of a bulk download from its comma-separated list; there must be
/// at least one.
#[verifier::spinoff_prover]
#[verifier::rlimit(40)]
pub fn parse_file_ids(ids: &str) -> (r: Result<Vec<String>, ApiError>)
    ensures
        listed_ids(ids@).len() == 0 ==> r == Err::<Vec<String>, ApiError>(ApiError::NoFileIds),
        listed_ids(ids@).len() > 0 ==> r is Ok && id_list(r->Ok_0@) == listed_ids(ids@),
{
    let n = ids.unicode_len();
    let mut out: Vec<String> = Vec::new();
    let ghost mut done: Seq<Seq<char>> = Seq::empty();
    let mut start: usize = 0;
    let mut i: usize = 0;
    let ghost tf = |p: Seq<char>| trimmed(p);
    let ghost ne = |p: Seq<char>| p.len() > 0;
    while i < n
        invariant
            n == ids@.len(),
            start <= i <= n,
            tf == (|p: Seq<char>| trimmed(p)),
            ne == (|p: Seq<char>| p.len() > 0),
            comma_pieces(ids@.take(i as int)) == done.push(ids@.subrange(start as int, i as int)),
            id_list(out@) == done.map_values(tf).filter(ne),
        decreases n - i,
    {
        let ghost s1 = ids@.take(i + 1);
        assert(s1.drop_last() =~= ids@.take(i as int));
        let c = ids.get_char(i);
        if c == ',' {
            let piece = trim(ids.substring_char(start, i));
            let ghost p = ids@.subrange(start as int, i as int);
            proof {
                assert(done.push(p).map_values(tf) =~= done.map_values(tf).push(trimmed(p)));
                done.map_values(tf).lemma_filter_push(trimmed(p), ne);
                assert(comma_pieces(s1) == done.push(p).push(Seq::<char>::empty()));
            }
            if piece.unicode_len() > 0 {
                let ghost before = out@;
                out.push(piece.to_owned());
                assert(id_list(out@) =~= id_list(before).push(piece@));
            } else {
                assert(piece@.len() == 0);
            }
            proof {
                done = done.push(p);
                assert(ids@.subrange(i + 1, i + 1) =~= Seq::<char>::empty());
            }
            start = i + 1;
        } else {
            proof {
                let w = comma_pieces(ids@.take(i as int));
                assert(ids@.subrange(start as int, i as int).push(c) =~= ids@.subrange(start as int, i + 1));
                assert(w.update(w.len() - 1, w.last().push(c)) =~= done.push(ids@.subrange(start as int, i + 1)));
            }
        }
        i += 1;
    }
    assert(ids@.take(n as int) =~= ids@);
    let piece = trim(ids.substring_char(start, n));
    let ghost p = ids@.subrange(start as int, n as int);
    proof {
        assert(done.push(p).map_values(tf) =~= done.map_values(tf).push(trimmed(p)));
        done.map_values(tf).lemma_filter_push(trimmed(p), ne);
    }
    if piece.unicode_len() > 0 {
        let ghost before = out@;
        out.push(piece.to_owned());
        assert(id_list(out@) =~= id_list(before).push(piece@));
    }
    proof {
        assert(listed_ids(ids@) == done.push(p).map_values(tf).filter(ne));
    }
    if out.len() == 0 {
        return Err(ApiError::NoFileIds);
    }
    Ok(out)
}

/// Law: the owner and editors of a file may always replace its content;
/// viewers and commenters never may.
pub proof fn law_edit_needs_owner_or_editor(role: Role)
    ensures
        (role == Role::Owner || role == Role::Editor) <==> !(role == Role::Viewer || role == Role::Commenter),
{
}

/// Law: an owner's download is never refused by an IRM policy, whatever it
/// says.
pub proof fn law_owner_download_never_restricted(irm: IrmService, file: Seq<char>)
    ensures
        !file_restrictions(irm, file, Role::Owner).restrict_download,
        !file_restrictions(irm, file, Role::Owner).restrict_print_copy,
{
    crate::irm::law_owner_never_restricted(last_where(irm.repo.policies@, policy_on(ResourceKind::File, file)));
}

} // verus!
