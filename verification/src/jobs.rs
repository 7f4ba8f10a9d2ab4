//! Background jobs for workers: the job table and its status machine
//! (ready, in progress, completed, failed), claiming and timeouts, worker
//! registration, and the decisions of round-robin dispatch, which drops a
//! worker after it fails too many times in a row.
use vstd::prelude::*;
use vstd::relations::sorted_by;
use crate::error::ApiError;
use crate::text::{str_eq, starts_with, occurs_at_pos, has_prefix, occurs_at, opt_str_chars, id_list, contains_id, clone_opt};
use crate::rows::{Duplicate, find_last, last_where, select, select_sorted, rewrite, lemma_last_where_kept,
    lemma_last_where_dropped, lemma_last_where_push};
use crate::pagination::{page, page_end};
use crate::storage::{FileRecord, join_path, path_join};
use crate::runtime::{new_uuid, now_utc};

verus! {

broadcast use vstd::seq_lib::group_seq_properties, vstd::seq::group_seq_axioms;

/// Consecutive failures after which a worker is deregistered.
pub const MAX_WORKER_FAILURES: u32 = 3;

/// Where a job stands.
#[derive(Debug, Clone, Copy, PartialEq, Eq, Structural)]
pub enum JobStatus {
    /// `R`: waiting for a worker.
    Ready,
    /// `I`: claimed by a worker.
    InProgress,
    /// `C`: done.
    Completed,
    /// `E`: failed.
    Failed,
}

/// The stored code of a status.
pub open spec fn status_code(s: JobStatus) -> Seq<char> {
    match s {
        JobStatus::Ready => "R"@,
        JobStatus::InProgress => "I"@,
        JobStatus::Completed => "C"@,
        JobStatus::Failed => "E"@,
    }
}

impl JobStatus {
    /// The stored code of this status.
    pub fn as_str(&self) -> (s: &'static str)
        ensures
            s@ == status_code(*self),
    {
        match self {
            JobStatus::Ready => "R",
            JobStatus::InProgress => "I",
            JobStatus::Completed => "C",
            JobStatus::Failed => "E",
        }
    }
}

/// One row of the jobs table. Times are seconds since the Unix epoch.
#[derive(Debug)]
pub struct WorkerJobRecord {
    pub id: String,
    pub job_type: String,
    /// The job's JSON payload, as text.
    pub payload: String,
    pub status: JobStatus,
    pub error_message: Option<String>,
    pub worker_id: Option<String>,
    pub timeout_secs: i32,
    pub started_at: Option<i64>,
    pub created_at: i64,
    pub updated_at: i64,
}

impl Duplicate for WorkerJobRecord {
    fn duplicate(&self) -> (r: Self) {
        WorkerJobRecord {
            id: self.id.clone(),
            job_type: self.job_type.clone(),
            payload: self.payload.clone(),
            status: self.status,
            error_message: clone_opt(&self.error_message),
            worker_id: clone_opt(&self.worker_id),
            timeout_secs: self.timeout_secs,
            started_at: self.started_at,
            created_at: self.created_at,
            updated_at: self.updated_at,
        }
    }
}

/// One row of the worker registrations table.
#[derive(Debug)]
pub struct WorkerRegistrationRecord {
    pub id: String,
    pub callback_url: String,
    pub registered_at: i64,
    pub last_seen_at: i64,
}

impl Duplicate for WorkerRegistrationRecord {
    fn duplicate(&self) -> (r: Self) {
        WorkerRegistrationRecord {
            id: self.id.clone(),
            callback_url: self.callback_url.clone(),
            registered_at: self.registered_at,
            last_seen_at: self.last_seen_at,
        }
    }
}

/// Selects the ready jobs.
pub open spec fn job_ready() -> spec_fn(WorkerJobRecord) -> bool {
    |j: WorkerJobRecord| j.status == JobStatus::Ready
}

/// Selects the ready job `id`.
pub open spec fn ready_job_with_id(id: Seq<char>) -> spec_fn(WorkerJobRecord) -> bool {
    |j: WorkerJobRecord| j.id@ == id && j.status == JobStatus::Ready
}

/// Orders jobs oldest first.
pub open spec fn job_created_le() -> spec_fn(WorkerJobRecord, WorkerJobRecord) -> bool {
    |a: WorkerJobRecord, b: WorkerJobRecord| a.created_at <= b.created_at
}

/// Selects the jobs that a worker has held longer than their timeout at
/// time `now`.
pub open spec fn timed_out(now: i64) -> spec_fn(WorkerJobRecord) -> bool {
    |j: WorkerJobRecord| j.status == JobStatus::InProgress && (j.started_at matches Some(s) && now - s > j.timeout_secs)
}

/// Hands the jobs listed in `ids` to `worker` at time `now`.
pub open spec fn claim_fn(ids: Seq<Seq<char>>, worker: String, now: i64) -> spec_fn(WorkerJobRecord) -> WorkerJobRecord {
    |j: WorkerJobRecord| if ids.contains(j.id@) {
        WorkerJobRecord { status: JobStatus::InProgress, worker_id: Some(worker), started_at: Some(now), updated_at: now, ..j }
    } else {
        j
    }
}

/// Hands the job `id` to `worker` at time `now`, if it is ready.
pub open spec fn try_claim_fn(id: Seq<char>, worker: String, now: i64) -> spec_fn(WorkerJobRecord) -> WorkerJobRecord {
    |j: WorkerJobRecord| if ready_job_with_id(id)(j) {
        WorkerJobRecord { status: JobStatus::InProgress, worker_id: Some(worker), started_at: Some(now), updated_at: now, ..j }
    } else {
        j
    }
}

/// Sets the status and error message of the job `id` at time `now`.
pub open spec fn status_fn(id: Seq<char>, status: JobStatus, error: Option<String>, now: i64) -> spec_fn(WorkerJobRecord) -> WorkerJobRecord {
    |j: WorkerJobRecord| if j.id@ == id {
        WorkerJobRecord { status, error_message: error, updated_at: now, ..j }
    } else {
        j
    }
}

/// Puts the jobs listed in `ids` back to ready at time `now`.
pub open spec fn reset_fn(ids: Seq<Seq<char>>, now: i64) -> spec_fn(WorkerJobRecord) -> WorkerJobRecord {
    |j: WorkerJobRecord| if ids.contains(j.id@) {
        WorkerJobRecord { status: JobStatus::Ready, worker_id: None, started_at: None, updated_at: now, ..j }
    } else {
        j
    }
}

/// The ids of some jobs.
pub open spec fn ids_of(s: Seq<WorkerJobRecord>) -> Seq<Seq<char>> {
    s.map_values(|j: WorkerJobRecord| j.id@)
}

/// Selects every registration but that of `worker`.
pub open spec fn worker_not_id(worker: Seq<char>) -> spec_fn(WorkerRegistrationRecord) -> bool {
    |w: WorkerRegistrationRecord| w.id@ != worker
}

/// Selects the live file `id`.
pub open spec fn live_file_with_id(id: Seq<char>) -> spec_fn(FileRecord) -> bool {
    |f: FileRecord| f.id@ == id && f.deleted_at is None
}

/// Whether `j` is ready.
pub fn is_job_ready(_k: &(), j: &WorkerJobRecord) -> (b: bool)
    ensures
        b == job_ready()(*j),
{
    j.status == JobStatus::Ready
}

/// Whether `j` was created no later than `k`.
pub fn job_created_before(_k: &(), a: &WorkerJobRecord, b: &WorkerJobRecord) -> (r: bool)
    ensures
        r == job_created_le()(*a, *b),
{
    a.created_at <= b.created_at
}

/// Whether `j` has been held past its timeout at time `k`.
pub fn is_timed_out(k: &i64, j: &WorkerJobRecord) -> (b: bool)
    ensures
        b == timed_out(*k)(*j),
{
    if j.status != JobStatus::InProgress {
        return false;
    }
    match j.started_at {
        Some(s) => (*k as i128) - (s as i128) > j.timeout_secs as i128,
        None => false,
    }
}

/// The job `j` after the claim of `k`.
pub fn apply_claim(k: &(&Vec<String>, &String, i64), j: &WorkerJobRecord) -> (r: WorkerJobRecord)
    ensures
        r == claim_fn(id_list(k.0@), *k.1, k.2)(*j),
{
    let mut r = j.duplicate();
    if contains_id(k.0, j.id.as_str()) {
        r.status = JobStatus::InProgress;
        r.worker_id = Some(k.1.clone());
        r.started_at = Some(k.2);
        r.updated_at = k.2;
    }
    r
}

/// The job `j` after the attempt of `k` to claim a ready job.
pub fn apply_try_claim(k: &(&str, &String, i64), j: &WorkerJobRecord) -> (r: WorkerJobRecord)
    ensures
        r == try_claim_fn(k.0@, *k.1, k.2)(*j),
{
    let mut r = j.duplicate();
    if str_eq(j.id.as_str(), k.0) && j.status == JobStatus::Ready {
        r.status = JobStatus::InProgress;
        r.worker_id = Some(k.1.clone());
        r.started_at = Some(k.2);
        r.updated_at = k.2;
    }
    r
}

/// The job `j` after the status change of `k`.
pub fn apply_status(k: &(&str, JobStatus, &Option<String>, i64), j: &WorkerJobRecord) -> (r: WorkerJobRecord)
    ensures
        r == status_fn(k.0@, k.1, *k.2, k.3)(*j),
{
    let mut r = j.duplicate();
    if str_eq(j.id.as_str(), k.0) {
        r.status = k.1;
        r.error_message = clone_opt(k.2);
        r.updated_at = k.3;
    }
    r
}

/// The job `j` after the reset of `k`.
pub fn apply_reset(k: &(&Vec<String>, i64), j: &WorkerJobRecord) -> (r: WorkerJobRecord)
    ensures
        r == reset_fn(id_list(k.0@), k.1)(*j),
{
    let mut r = j.duplicate();
    if contains_id(k.0, j.id.as_str()) {
        r.status = JobStatus::Ready;
        r.worker_id = None;
        r.started_at = None;
        r.updated_at = k.1;
    }
    r
}

/// Whether `w` is any registration but that of `k`.
pub fn is_worker_not_id(k: &&str, w: &WorkerRegistrationRecord) -> (b: bool)
    ensures
        b == worker_not_id(k@)(*w),
{
    !str_eq(w.id.as_str(), *k)
}

/// Whether `f` is the live file `k`.
pub fn is_live_file_with_id(k: &&str, f: &FileRecord) -> (b: bool)
    ensures
        b == live_file_with_id(k@)(*f),
{
    str_eq(f.id.as_str(), *k) && f.deleted_at.is_none()
}

/// The ids of `jobs`, in order.
pub fn job_ids(jobs: &Vec<WorkerJobRecord>) -> (ids: Vec<String>)
    ensures
        id_list(ids@) == ids_of(jobs@),
{
    let mut ids: Vec<String> = Vec::new();
    for i in 0..jobs.len()
        invariant
            ids@.len() == i,
            forall|k: int| 0 <= k < i ==> #[trigger] ids@[k]@ == jobs@[k].id@,
    {
        ids.push(jobs[i].id.clone());
    }
    assert(id_list(ids@) =~= ids_of(jobs@));
    ids
}

/// The jobs and worker registrations, with the files that workers fetch.
pub struct JobsRepository {
    pub jobs: Vec<WorkerJobRecord>,
    pub workers: Vec<WorkerRegistrationRecord>,
    pub files: Vec<FileRecord>,
}

impl JobsRepository {
    /// A repository over its three tables.
    pub fn new(jobs: Vec<WorkerJobRecord>, workers: Vec<WorkerRegistrationRecord>, files: Vec<FileRecord>) -> (r: Self)
        ensures
            r.jobs@ == jobs@,
            r.workers@ == workers@,
            r.files@ == files@,
    {
        JobsRepository { jobs, workers, files }
    }

    /// Adds a job; returns the stored row.
    pub fn insert_job(&mut self, job: WorkerJobRecord) -> (r: WorkerJobRecord)
        ensures
            r == job,
            final(self).jobs@ == old(self).jobs@.push(job),
            final(self).workers@ == old(self).workers@,
            final(self).files@ == old(self).files@,
    {
        let r = job.duplicate();
        self.jobs.push(job);
        r
    }

    /// The ready jobs, oldest first, at most `limit` of them (a negative
    /// limit means no limit).
    pub fn get_ready_jobs(&self, limit: i64) -> (r: Vec<WorkerJobRecord>)
        ensures
            exists|all: Seq<WorkerJobRecord>| {
                &&& sorted_by(all, job_created_le())
                &&& #[trigger] all.to_multiset() == self.jobs@.filter(job_ready()).to_multiset()
                &&& r@ == all.subrange(0, page_end(all.len() as int, 0, limit as int))
            },
    {
        let all = select_sorted(&self.jobs, is_job_ready, &(), Ghost(job_ready()), job_created_before, &(), Ghost(job_created_le()));
        let r = page(&all, 0, limit);
        assert(all@.to_multiset() == self.jobs@.filter(job_ready()).to_multiset());
        r
    }

    /// Hands up to `limit` ready jobs, oldest first, to `worker_id` at time
    /// `now`; returns the jobs as they stood before.
    pub fn claim_pending_jobs(&mut self, worker_id: &str, limit: i64, now: i64) -> (r: Vec<WorkerJobRecord>)
        ensures
            exists|all: Seq<WorkerJobRecord>| {
                &&& sorted_by(all, job_created_le())
                &&& #[trigger] all.to_multiset() == old(self).jobs@.filter(job_ready()).to_multiset()
                &&& r@ == all.subrange(0, page_end(all.len() as int, 0, limit as int))
            },
            exists|w: String| w@ == worker_id@
                && #[trigger] old(self).jobs@.map_values(claim_fn(ids_of(r@), w, now)) == final(self).jobs@,
            final(self).workers@ == old(self).workers@,
            final(self).files@ == old(self).files@,
    {
        let ready = self.get_ready_jobs(limit);
        let ids = job_ids(&ready);
        let w = worker_id.to_owned();
        self.jobs = rewrite(&self.jobs, apply_claim, &(&ids, &w, now), Ghost(claim_fn(id_list(ids@), w, now)));
        ready
    }

    /// Hands the job `job_id` to `worker_id` at time `now` if it is ready;
    /// returns whether it was.
    pub fn try_claim_job(&mut self, job_id: &str, worker_id: &str, now: i64) -> (claimed: bool)
        ensures
            claimed == (old(self).jobs@.filter(ready_job_with_id(job_id@)).len() > 0),
            exists|w: String| w@ == worker_id@
                && #[trigger] old(self).jobs@.map_values(try_claim_fn(job_id@, w, now)) == final(self).jobs@,
            final(self).workers@ == old(self).workers@,
            final(self).files@ == old(self).files@,
    {
        let n = crate::rows::count_where(&self.jobs, is_ready_job_with_id, &job_id, Ghost(ready_job_with_id(job_id@)));
        let w = worker_id.to_owned();
        self.jobs = rewrite(&self.jobs, apply_try_claim, &(job_id, &w, now), Ghost(try_claim_fn(job_id@, w, now)));
        n > 0
    }

    /// Sets the status and error message of the job `job_id` at time `now`.
    pub fn update_job_status(&mut self, job_id: &str, status: JobStatus, error_message: &Option<String>, now: i64)
        ensures
            final(self).jobs@ == old(self).jobs@.map_values(status_fn(job_id@, status, *error_message, now)),
            final(self).workers@ == old(self).workers@,
            final(self).files@ == old(self).files@,
    {
        self.jobs = rewrite(&self.jobs, apply_status, &(job_id, status, error_message, now), Ghost(status_fn(job_id@, status, *error_message, now)));
    }

    /// Puts the jobs listed in `ids` back to ready at time `now`.
    pub fn reset_to_ready(&mut self, ids: &Vec<String>, now: i64)
        ensures
            final(self).jobs@ == old(self).jobs@.map_values(reset_fn(id_list(ids@), now)),
            final(self).workers@ == old(self).workers@,
            final(self).files@ == old(self).files@,
    {
        self.jobs = rewrite(&self.jobs, apply_reset, &(ids, now), Ghost(reset_fn(id_list(ids@), now)));
    }

    /// The jobs held past their timeout at time `now`.
    pub fn get_timed_out_jobs(&self, now: i64) -> (r: Vec<WorkerJobRecord>)
        ensures
            r@ == self.jobs@.filter(timed_out(now)),
    {
        select(&self.jobs, is_timed_out, &now, Ghost(timed_out(now)))
    }

    /// Adds a worker registration; returns the stored row.
    pub fn register_worker(&mut self, rec: WorkerRegistrationRecord) -> (r: WorkerRegistrationRecord)
        ensures
            r == rec,
            final(self).workers@ == old(self).workers@.push(rec),
            final(self).jobs@ == old(self).jobs@,
            final(self).files@ == old(self).files@,
    {
        let r = rec.duplicate();
        self.workers.push(rec);
        r
    }

    /// Removes the registration of `worker_id`.
    pub fn deregister_worker(&mut self, worker_id: &str)
        ensures
            final(self).workers@ == old(self).workers@.filter(worker_not_id(worker_id@)),
            final(self).jobs@ == old(self).jobs@,
            final(self).files@ == old(self).files@,
    {
        self.workers = select(&self.workers, is_worker_not_id, &worker_id, Ghost(worker_not_id(worker_id@)));
    }

    /// Every worker registration.
    pub fn list_workers(&self) -> (r: Vec<WorkerRegistrationRecord>)
        ensures
            r@ == self.workers@,
    {
        let mut r: Vec<WorkerRegistrationRecord> = Vec::new();
        for i in 0..self.workers.len()
            invariant
                r@ == self.workers@.take(i as int),
        {
            r.push(self.workers[i].duplicate());
            assert(self.workers@.take(i + 1) =~= self.workers@.take(i as int).push(self.workers@[i as int]));
        }
        assert(self.workers@.take(self.workers@.len() as int) =~= self.workers@);
        r
    }

    /// The storage key and MIME type of the live file `file_id`.
    pub fn get_file_info(&self, file_id: &str) -> (r: Result<(String, String), ApiError>)
        ensures
            r == match last_where(self.files@, live_file_with_id(file_id@)) {
                Some(f) => Ok::<(String, String), ApiError>((f.storage_path, f.mime_type)),
                None => Err::<(String, String), ApiError>(ApiError::FileNotFound),
            },
    {
        match find_last(&self.files, is_live_file_with_id, &file_id, Ghost(live_file_with_id(file_id@))) {
            Some(j) => Ok((self.files[j].storage_path.clone(), self.files[j].mime_type.clone())),
            None => Err(ApiError::FileNotFound),
        }
    }
}

/// Whether `j` is the ready job `k`.
pub fn is_ready_job_with_id(k: &&str, j: &WorkerJobRecord) -> (b: bool)
    ensures
        b == ready_job_with_id(k@)(*j),
{
    str_eq(j.id.as_str(), *k) && j.status == JobStatus::Ready
}

/// How many dispatches in a row a worker has failed.
#[derive(Debug)]
pub struct WorkerFailure {
    pub worker_id: String,
    pub count: u32,
}

impl Duplicate for WorkerFailure {
    fn duplicate(&self) -> (r: Self) {
        WorkerFailure { worker_id: self.worker_id.clone(), count: self.count }
    }
}

/// Selects the failure count of `worker`.
pub open spec fn failure_of(worker: Seq<char>) -> spec_fn(WorkerFailure) -> bool {
    |f: WorkerFailure| f.worker_id@ == worker
}

/// Selects every failure count but that of `worker`.
pub open spec fn failure_not_of(worker: Seq<char>) -> spec_fn(WorkerFailure) -> bool {
    |f: WorkerFailure| f.worker_id@ != worker
}

/// The consecutive failures recorded for `worker` (none when unrecorded).
pub open spec fn failure_count(s: Seq<WorkerFailure>, worker: Seq<char>) -> nat {
    match last_where(s, failure_of(worker)) {
        Some(f) => f.count as nat,
        None => 0,
    }
}

/// Every recorded count is below the deregistration threshold.
pub open spec fn failures_below_limit(s: Seq<WorkerFailure>) -> bool {
    forall|i: int| 0 <= i < s.len() ==> #[trigger] s[i].count < MAX_WORKER_FAILURES
}

/// Whether `f` is the failure count of `k`.
pub fn is_failure_of(k: &&str, f: &WorkerFailure) -> (b: bool)
    ensures
        b == failure_of(k@)(*f),
{
    str_eq(f.worker_id.as_str(), *k)
}

/// Whether `f` is any failure count but that of `k`.
pub fn is_failure_not_of(k: &&str, f: &WorkerFailure) -> (b: bool)
    ensures
        b == failure_not_of(k@)(*f),
{
    !str_eq(f.worker_id.as_str(), *k)
}

/// What the worker answered to a dispatched job.
#[derive(Debug, Clone, Copy, PartialEq, Eq, Structural)]
pub enum DispatchOutcome {
    /// A success status: the worker took the job.
    Accepted,
    /// Another status below 500: the worker refused the job.
    Rejected,
    /// A status of 500 or above.
    ServerError,
    /// No answer at all.
    Unreachable,
}

/// What dispatch does next.
#[derive(Debug, Clone, Copy, PartialEq, Eq, Structural)]
pub enum DispatchAction {
    /// The job is with a worker; dispatch of it is over.
    Done,
    /// The worker refused the job; it stays claimed and is not offered again.
    Stop,
    /// The job went back to ready; offer it to the next worker. Says whether
    /// the failing worker was deregistered.
    NextWorker { deregistered: bool },
}

/// The failure count of a worker after an outcome, from `c` before it.
pub open spec fn count_after(c: nat, o: DispatchOutcome) -> nat {
    match o {
        DispatchOutcome::Accepted => 0,
        DispatchOutcome::Rejected => c,
        _ => if c + 1 >= MAX_WORKER_FAILURES { 0 } else { c + 1 },
    }
}

/// The action after an outcome, for a worker with `c` failures before it.
pub open spec fn action_after(c: nat, o: DispatchOutcome) -> DispatchAction {
    match o {
        DispatchOutcome::Accepted => DispatchAction::Done,
        DispatchOutcome::Rejected => DispatchAction::Stop,
        _ => DispatchAction::NextWorker { deregistered: c + 1 >= MAX_WORKER_FAILURES },
    }
}

/// The counter value after a dispatch start: one more, wrapping at the top.
pub open spec fn counter_after(c: usize) -> usize {
    if c == usize::MAX { 0 } else { (c + 1) as usize }
}

/// Where offering one job to the workers in turn stands.
pub struct DispatchRun {
    pub job_id: String,
    /// The position of the first worker tried.
    pub start: usize,
    /// How many workers there are.
    pub workers: usize,
    /// How many workers were sent the job so far.
    pub tried: usize,
    /// Whether the offering is over.
    pub finished: bool,
}

impl DispatchRun {
    /// Records what the last worker's answer decided: the next worker is
    /// tried only after a failure.
    pub fn after(&mut self, action: &DispatchAction)
        requires
            old(self).tried < old(self).workers,
        ensures
            final(self).job_id == old(self).job_id,
            final(self).start == old(self).start,
            final(self).workers == old(self).workers,
            *action matches DispatchAction::NextWorker { .. } ==> final(self).tried == old(self).tried + 1 && final(self).finished == old(self).finished,
            !(*action matches DispatchAction::NextWorker { .. }) ==> final(self).tried == old(self).tried && final(self).finished,
    {
        match action {
            DispatchAction::NextWorker { .. } => {
                self.tried = self.tried + 1;
            },
            _ => {
                self.finished = true;
            },
        }
    }
}

/// A request to create a job.
pub struct CreateJobRequest {
    pub job_type: String,
    /// The job's JSON payload, as text.
    pub payload: String,
    pub timeout_secs: i32,
}

/// A worker's report on a job: status `C` (done) or `E` (failed).
pub struct UpdateJobStatusRequest {
    pub status: String,
    pub error_message: Option<String>,
}

/// The job rules, with the state that dispatch keeps between jobs.
pub struct JobsService {
    pub repo: JobsRepository,
    pub storage_path: String,
    /// How many ready jobs to fetch per registered worker each cycle.
    pub jobs_per_worker: usize,
    pub dispatch_counter: usize,
    pub worker_failures: Vec<WorkerFailure>,
}

/// What creating a job for `req` at `now` does to the service `old_s`,
/// giving `new_s` and answering `r`.
pub open spec fn create_job_done(old_s: JobsService, new_s: JobsService, req: CreateJobRequest, now: i64, r: WorkerJobRecord) -> bool {
    &&& (r.job_type == req.job_type)
    &&& (r.payload == req.payload)
    &&& (r.status == JobStatus::Ready)
    &&& (r.error_message is None)
    &&& (r.worker_id is None)
    &&& (r.timeout_secs == req.timeout_secs)
    &&& (r.started_at is None)
    &&& (r.created_at == now)
    &&& (r.updated_at == now)
    &&& (new_s.repo.jobs@ == old_s.repo.jobs@.push(r))
    &&& (new_s.repo.workers@ == old_s.repo.workers@)
    &&& (new_s.worker_failures@ == old_s.worker_failures@)
}

/// What `worker_id` claiming up to `limit` ready jobs at `now` does to the
/// service `old_s`, giving `new_s` and answering `r`.
pub open spec fn claim_pending_jobs_done(old_s: JobsService, new_s: JobsService, worker_id: &str, limit: i64, now: i64, r: Vec<WorkerJobRecord>) -> bool {
    &&& (exists|all: Seq<WorkerJobRecord>| {
        &&& sorted_by(all, job_created_le())
        &&& #[trigger] all.to_multiset() == old_s.repo.jobs@.filter(job_ready()).to_multiset()
        &&& r@ == all.subrange(0, page_end(all.len() as int, 0, limit as int))
    })
    &&& (exists|w: String| w@ == worker_id@
        && #[trigger] old_s.repo.jobs@.map_values(claim_fn(ids_of(r@), w, now)) == new_s.repo.jobs@)
    &&& (new_s.repo.workers@ == old_s.repo.workers@)
    &&& (new_s.worker_failures@ == old_s.worker_failures@)
}

/// What reporting the status of the job `job_id` at `now` does to the
/// service `old_s`, giving `new_s` and answering `r`.
pub open spec fn update_job_status_done(old_s: JobsService, new_s: JobsService, job_id: &str, req: UpdateJobStatusRequest, now: i64, r: Result<(), ApiError>) -> bool {
    &&& (new_s.repo.workers@ == old_s.repo.workers@)
    &&& (new_s.worker_failures@ == old_s.worker_failures@)
    &&& (req.status@ == "C"@ ==> r is Ok
        && new_s.repo.jobs@ == old_s.repo.jobs@.map_values(status_fn(job_id@, JobStatus::Completed, req.error_message, now)))
    &&& (req.status@ == "E"@ ==> r is Ok
        && new_s.repo.jobs@ == old_s.repo.jobs@.map_values(status_fn(job_id@, JobStatus::Failed, req.error_message, now)))
    &&& (req.status@ != "C"@ && req.status@ != "E"@ ==>
        r == Err::<(), ApiError>(ApiError::InvalidJobStatus) && new_s.repo.jobs@ == old_s.repo.jobs@)
}

/// What registering a worker at `callback_url` at `now` does to the
/// service `old_s`, giving `new_s` and answering its id `id`.
pub open spec fn register_worker_done(old_s: JobsService, new_s: JobsService, callback_url: &str, now: i64, id: String) -> bool {
    &&& (exists|rec: WorkerRegistrationRecord| {
        &&& rec.id == id
        &&& rec.callback_url@ == callback_url@
        &&& rec.registered_at == now
        &&& rec.last_seen_at == now
        &&& #[trigger] old_s.repo.workers@.push(rec) == new_s.repo.workers@
    })
    &&& (new_s.repo.jobs@ == old_s.repo.jobs@)
    &&& (new_s.worker_failures@ == old_s.worker_failures@)
}

/// What putting the jobs timed out at `now` back to ready does to the
/// service `old_s`, giving `new_s` and answering the jobs reset, `r`.
pub open spec fn reset_timed_out_jobs_done(old_s: JobsService, new_s: JobsService, now: i64, r: Vec<WorkerJobRecord>) -> bool {
    &&& (r@ == old_s.repo.jobs@.filter(timed_out(now)))
    &&& (new_s.repo.jobs@ == old_s.repo.jobs@.map_values(reset_fn(ids_of(r@), now)))
    &&& (new_s.repo.workers@ == old_s.repo.workers@)
    &&& (new_s.worker_failures@ == old_s.worker_failures@)
}

impl JobsService {
    /// The service's invariant: every worker's failure count is below the
    /// deregistration threshold.
    pub open spec fn wf(&self) -> bool {
        failures_below_limit(self.worker_failures@)
    }

    /// A service over `repo` whose content root is `storage_path`, with no
    /// failures recorded.
    pub fn new(repo: JobsRepository, storage_path: String, jobs_per_worker: usize) -> (s: Self)
        ensures
            s.wf(),
            s.repo == repo,
            s.storage_path == storage_path,
            s.jobs_per_worker == jobs_per_worker,
            s.dispatch_counter == 0,
            s.worker_failures@.len() == 0,
    {
        JobsService { repo, storage_path, jobs_per_worker, dispatch_counter: 0, worker_failures: Vec::new() }
    }

    /// Creates a ready job at time `now`.
    pub fn create_job_at(&mut self, req: CreateJobRequest, now: i64) -> (r: WorkerJobRecord)
        ensures
            create_job_done(*old(self), *final(self), req, now, r),
    {
        let record = WorkerJobRecord {
            id: new_uuid(),
            job_type: req.job_type,
            payload: req.payload,
            status: JobStatus::Ready,
            error_message: None,
            worker_id: None,
            timeout_secs: req.timeout_secs,
            started_at: None,
            created_at: now,
            updated_at: now,
        };
        self.repo.insert_job(record)
    }

    /// Creates a ready job, by the clock.
    pub fn create_job(&mut self, req: CreateJobRequest) -> (r: WorkerJobRecord)
        ensures
            exists|now: i64| create_job_done(*old(self), *final(self), req, now, r),
    {
        let now = now_utc();
        self.create_job_at(req, now)
    }

    /// Hands up to `limit` ready jobs to `worker_id` at time `now`.
    pub fn claim_pending_jobs_at(&mut self, worker_id: &str, limit: i64, now: i64) -> (r: Vec<WorkerJobRecord>)
        ensures
            claim_pending_jobs_done(*old(self), *final(self), worker_id, limit, now, r),
    {
        self.repo.claim_pending_jobs(worker_id, limit, now)
    }

    /// Hands up to `limit` ready jobs to `worker_id`, by the clock.
    pub fn claim_pending_jobs(&mut self, worker_id: &str, limit: i64) -> (r: Vec<WorkerJobRecord>)
        ensures
            exists|now: i64| claim_pending_jobs_done(*old(self), *final(self), worker_id, limit, now, r),
    {
        let now = now_utc();
        self.claim_pending_jobs_at(worker_id, limit, now)
    }

    /// Records a worker's report on the job `job_id` at time `now`: status
    /// `C` or `E`, and nothing else.
    pub fn update_job_status_at(&mut self, job_id: &str, req: UpdateJobStatusRequest, now: i64) -> (r: Result<(), ApiError>)
        ensures
            update_job_status_done(*old(self), *final(self), job_id, req, now, r),
    {
        proof {
            reveal_strlit("C");
            reveal_strlit("E");
            assert("C"@[0] != "E"@[0]);
        }
        let status = if str_eq(req.status.as_str(), "C") {
            JobStatus::Completed
        } else if str_eq(req.status.as_str(), "E") {
            JobStatus::Failed
        } else {
            return Err(ApiError::InvalidJobStatus);
        };
        self.repo.update_job_status(job_id, status, &req.error_message, now);
        Ok(())
    }

    /// Records a worker's report on the job `job_id`, by the clock.
    pub fn update_job_status(&mut self, job_id: &str, req: UpdateJobStatusRequest) -> (r: Result<(), ApiError>)
        ensures
            exists|now: i64| update_job_status_done(*old(self), *final(self), job_id, req, now, r),
    {
        let now = now_utc();
        self.update_job_status_at(job_id, req, now)
    }

    /// Registers a worker that takes jobs at `callback_url`, at time `now`;
    /// returns its fresh id.
    pub fn register_worker_at(&mut self, callback_url: &str, now: i64) -> (id: String)
        ensures
            register_worker_done(*old(self), *final(self), callback_url, now, id),
    {
        let id = new_uuid();
        let rec = WorkerRegistrationRecord { id: id.clone(), callback_url: callback_url.to_owned(), registered_at: now, last_seen_at: now };
        self.repo.register_worker(rec);
        id
    }

    /// Registers a worker, by the clock.
    pub fn register_worker(&mut self, callback_url: &str) -> (id: String)
        ensures
            exists|now: i64| register_worker_done(*old(self), *final(self), callback_url, now, id),
    {
        let now = now_utc();
        self.register_worker_at(callback_url, now)
    }

    /// Forgets the failures of `worker_id`.
    pub fn clear_worker_failures(&mut self, worker_id: &str)
        ensures
            old(self).wf() ==> final(self).wf(),
            final(self).worker_failures@ == old(self).worker_failures@.filter(failure_not_of(worker_id@)),
            failure_count(final(self).worker_failures@, worker_id@) == 0,
            forall|w: Seq<char>| w != worker_id@ ==>
                #[trigger] failure_count(final(self).worker_failures@, w) == failure_count(old(self).worker_failures@, w),
            final(self).repo == old(self).repo,
            final(self).dispatch_counter == old(self).dispatch_counter,
    {
        let ghost s0 = self.worker_failures@;
        self.worker_failures = select(&self.worker_failures, is_failure_not_of, &worker_id, Ghost(failure_not_of(worker_id@)));
        proof {
            lemma_last_where_dropped(s0, failure_not_of(worker_id@), failure_of(worker_id@));
            assert forall|w: Seq<char>| w != worker_id@ implies
                #[trigger] failure_count(self.worker_failures@, w) == failure_count(s0, w) by {
                lemma_last_where_kept(s0, failure_not_of(worker_id@), failure_of(w));
            }
            assert forall|i: int| failures_below_limit(s0) && 0 <= i < self.worker_failures@.len() implies #[trigger] self.worker_failures@[i].count < MAX_WORKER_FAILURES by {
                let x = self.worker_failures@[i];
                assert(s0.filter(failure_not_of(worker_id@)).contains(x));
                s0.lemma_filter_contains_rev(failure_not_of(worker_id@), x);
            }
        }
    }

    /// Counts one more failure of `worker_id`; returns the new count.
    pub fn record_worker_failure(&mut self, worker_id: &str) -> (c: u32)
        requires
            old(self).wf(),
        ensures
            c == failure_count(old(self).worker_failures@, worker_id@) + 1,
            failure_count(final(self).worker_failures@, worker_id@) == c,
            forall|w: Seq<char>| w != worker_id@ ==>
                #[trigger] failure_count(final(self).worker_failures@, w) == failure_count(old(self).worker_failures@, w),
            forall|i: int| 0 <= i < final(self).worker_failures@.len() && final(self).worker_failures@[i].worker_id@ != worker_id@
                ==> #[trigger] final(self).worker_failures@[i].count < MAX_WORKER_FAILURES,
            final(self).worker_failures@.len() > 0,
            final(self).worker_failures@.last().worker_id@ == worker_id@,
            final(self).worker_failures@.last().count == c,
            forall|i: int| 0 <= i < final(self).worker_failures@.len() - 1 ==> #[trigger] final(self).worker_failures@[i].worker_id@ != worker_id@,
            final(self).repo == old(self).repo,
            final(self).dispatch_counter == old(self).dispatch_counter,
    {
        let ghost s0 = self.worker_failures@;
        let prev: u32 = match find_last(&self.worker_failures, is_failure_of, &worker_id, Ghost(failure_of(worker_id@))) {
            Some(j) => {
                proof {
                    s0.lemma_filter_pred(failure_of(worker_id@), s0.filter(failure_of(worker_id@)).len() - 1);
                    assert(s0.filter(failure_of(worker_id@)).contains(s0[j as int]));
                    assert(s0.contains(s0[j as int]));
                }
                self.worker_failures[j].count
            },
            None => 0,
        };
        assert(prev < MAX_WORKER_FAILURES);
        let c = prev + 1;
        let mut kept = select(&self.worker_failures, is_failure_not_of, &worker_id, Ghost(failure_not_of(worker_id@)));
        let ghost k0 = kept@;
        kept.push(WorkerFailure { worker_id: worker_id.to_owned(), count: c });
        self.worker_failures = kept;
        proof {
            let x = self.worker_failures@.last();
            lemma_last_where_push(k0, x, failure_of(worker_id@));
            assert forall|w: Seq<char>| w != worker_id@ implies
                #[trigger] failure_count(self.worker_failures@, w) == failure_count(s0, w) by {
                lemma_last_where_push(k0, x, failure_of(w));
                lemma_last_where_kept(s0, failure_not_of(worker_id@), failure_of(w));
            }
            assert forall|i: int| 0 <= i < self.worker_failures@.len() - 1 implies #[trigger] self.worker_failures@[i].worker_id@ != worker_id@ by {
                assert(self.worker_failures@[i] == k0[i]);
                s0.lemma_filter_pred(failure_not_of(worker_id@), i);
            }
            assert forall|i: int| 0 <= i < self.worker_failures@.len() && self.worker_failures@[i].worker_id@ != worker_id@
                implies #[trigger] self.worker_failures@[i].count < MAX_WORKER_FAILURES by {
                let y = self.worker_failures@[i];
                assert(i < k0.len());
                assert(k0[i] == y);
                assert(k0.contains(y));
                s0.lemma_filter_contains_rev(failure_not_of(worker_id@), y);
            }
        }
        c
    }

    /// Unregisters `worker_id` and forgets its failures.
    pub fn deregister_worker(&mut self, worker_id: &str)
        requires
            old(self).wf(),
        ensures
            final(self).wf(),
            final(self).repo.workers@ == old(self).repo.workers@.filter(worker_not_id(worker_id@)),
            final(self).repo.jobs@ == old(self).repo.jobs@,
            failure_count(final(self).worker_failures@, worker_id@) == 0,
            forall|w: Seq<char>| w != worker_id@ ==>
                #[trigger] failure_count(final(self).worker_failures@, w) == failure_count(old(self).worker_failures@, w),
    {
        self.clear_worker_failures(worker_id);
        self.repo.deregister_worker(worker_id);
    }

    /// The position of the first worker to offer the next job to, among `n`
    /// workers: the dispatch counter modulo `n`; the counter moves on by one.
    pub fn next_dispatch_start(&mut self, n: usize) -> (start: usize)
        requires
            n > 0,
        ensures
            start == old(self).dispatch_counter % n,
            final(self).dispatch_counter == counter_after(old(self).dispatch_counter),
            final(self).repo == old(self).repo,
            final(self).worker_failures@ == old(self).worker_failures@,
    {
        let start = self.dispatch_counter % n;
        self.dispatch_counter = if self.dispatch_counter == usize::MAX { 0 } else { self.dispatch_counter + 1 };
        start
    }

    /// Offers the job `job_id` to `worker_id` at time `now` by claiming it
    /// for that worker; returns whether the job was still ready.
    pub fn claim_for_dispatch(&mut self, job_id: &str, worker_id: &str, now: i64) -> (claimed: bool)
        ensures
            claimed == (old(self).repo.jobs@.filter(ready_job_with_id(job_id@)).len() > 0),
            exists|w: String| w@ == worker_id@
                && #[trigger] old(self).repo.jobs@.map_values(try_claim_fn(job_id@, w, now)) == final(self).repo.jobs@,
            final(self).repo.workers@ == old(self).repo.workers@,
            final(self).dispatch_counter == old(self).dispatch_counter,
            final(self).worker_failures@ == old(self).worker_failures@,
    {
        self.repo.try_claim_job(job_id, worker_id, now)
    }

    /// Acts on what `worker_id` answered to the job `job_id` at time `now`:
    /// a success clears the worker's failures; a refusal leaves everything
    /// as is; a server error or no answer counts a failure, deregisters the
    /// worker at the threshold, and puts the job back to ready.
    pub fn handle_dispatch_outcome(&mut self, job_id: &str, worker_id: &str, outcome: DispatchOutcome, now: i64) -> (a: DispatchAction)
        requires
            old(self).wf(),
        ensures
            final(self).wf(),
            a == action_after(failure_count(old(self).worker_failures@, worker_id@), outcome),
            failure_count(final(self).worker_failures@, worker_id@)
                == count_after(failure_count(old(self).worker_failures@, worker_id@), outcome),
            forall|w: Seq<char>| w != worker_id@ ==>
                #[trigger] failure_count(final(self).worker_failures@, w) == failure_count(old(self).worker_failures@, w),
            final(self).dispatch_counter == old(self).dispatch_counter,
            final(self).repo.files@ == old(self).repo.files@,
            outcome == DispatchOutcome::Accepted || outcome == DispatchOutcome::Rejected ==>
                final(self).repo.jobs@ == old(self).repo.jobs@ && final(self).repo.workers@ == old(self).repo.workers@,
            outcome == DispatchOutcome::Rejected ==> final(self).worker_failures@ == old(self).worker_failures@,
            outcome == DispatchOutcome::ServerError || outcome == DispatchOutcome::Unreachable ==> {
                &&& exists|ids: Seq<Seq<char>>| ids == seq![job_id@]
                    && #[trigger] old(self).repo.jobs@.map_values(reset_fn(ids, now)) == final(self).repo.jobs@
                &&& final(self).repo.workers@ == if failure_count(old(self).worker_failures@, worker_id@) + 1 >= MAX_WORKER_FAILURES {
                    old(self).repo.workers@.filter(worker_not_id(worker_id@))
                } else {
                    old(self).repo.workers@
                }
            },
    {
        match outcome {
            DispatchOutcome::Accepted => {
                self.clear_worker_failures(worker_id);
                DispatchAction::Done
            },
            DispatchOutcome::Rejected => DispatchAction::Stop,
            _ => {
                let failures = self.record_worker_failure(worker_id);
                let deregistered = failures >= MAX_WORKER_FAILURES;
                if deregistered {
                    let ghost s1 = self.worker_failures@;
                    self.clear_worker_failures(worker_id);
                    proof {
                        let s = self.worker_failures@;
                        assert forall|i: int| 0 <= i < s.len() implies #[trigger] s[i].count < MAX_WORKER_FAILURES by {
                            let x = s[i];
                            s1.lemma_filter_pred(failure_not_of(worker_id@), i);
                            assert(s1.filter(failure_not_of(worker_id@)).contains(x));
                            s1.lemma_filter_contains_rev(failure_not_of(worker_id@), x);
                            let k = choose|k: int| 0 <= k < s1.len() && s1[k] == x;
                            assert(s1[k].worker_id@ != worker_id@);
                        }
                    }
                    self.repo.deregister_worker(worker_id);
                } else {
                    proof {
                        let s = self.worker_failures@;
                        assert forall|i: int| 0 <= i < s.len() implies #[trigger] s[i].count < MAX_WORKER_FAILURES by {
                            if i < s.len() - 1 {
                                assert(s[i].worker_id@ != worker_id@);
                            }
                        }
                    }
                }
                let mut ids: Vec<String> = Vec::new();
                ids.push(job_id.to_owned());
                proof { assert(id_list(ids@) =~= seq![job_id@]); }
                self.repo.reset_to_ready(&ids, now);
                DispatchAction::NextWorker { deregistered }
            },
        }
    }

    /// Whether the service's invariant holds: every failure count is below
    /// the threshold.
    pub fn check_wf(&self) -> (b: bool)
        ensures
            b == self.wf(),
    {
        let n = self.worker_failures.len();
        let mut i: usize = 0;
        while i < n
            invariant
                n == self.worker_failures@.len(),
                i <= n,
                forall|k: int| 0 <= k < i ==> #[trigger] self.worker_failures@[k].count < MAX_WORKER_FAILURES,
            decreases n - i,
        {
            if self.worker_failures[i].count >= MAX_WORKER_FAILURES {
                return false;
            }
            i += 1;
        }
        true
    }

    /// Starts offering the job `job_id` to `n` workers: the first to try is
    /// where the dispatch counter points, and the counter moves on by one.
    pub fn begin_dispatch(&mut self, job_id: &str, n: usize) -> (run: DispatchRun)
        requires
            n > 0,
        ensures
            run.job_id@ == job_id@,
            run.start == old(self).dispatch_counter % n,
            run.workers == n,
            run.tried == 0,
            !run.finished,
            final(self).dispatch_counter == counter_after(old(self).dispatch_counter),
            final(self).repo == old(self).repo,
            final(self).worker_failures@ == old(self).worker_failures@,
    {
        let start = self.next_dispatch_start(n);
        DispatchRun { job_id: job_id.to_owned(), start, workers: n, tried: 0, finished: false }
    }

    /// The next worker to send the job of `run` to, at time `now`. When the
    /// run is over or every worker was tried, none. Otherwise the job is
    /// claimed for the next worker in turn, `workers[(start + tried) % n]`,
    /// and that worker's position is the answer; a job that is no longer
    /// ready (someone else claimed it) ends the run with none. So the job
    /// goes to a worker only once it is claimed for that worker, and to at
    /// most `n` workers.
    pub fn offer_next(&mut self, run: &mut DispatchRun, workers: &Vec<WorkerRegistrationRecord>, now: i64) -> (k: Option<usize>)
        requires
            old(run).start < old(run).workers,
            old(run).tried <= old(run).workers,
            workers@.len() == old(run).workers,
        ensures
            final(run).job_id == old(run).job_id,
            final(run).start == old(run).start,
            final(run).workers == old(run).workers,
            final(run).tried == old(run).tried,
            final(self).worker_failures@ == old(self).worker_failures@,
            final(self).dispatch_counter == old(self).dispatch_counter,
            final(self).repo.workers@ == old(self).repo.workers@,
            old(run).finished || old(run).tried == old(run).workers ==>
                k is None && final(run).finished && final(self).repo == old(self).repo,
            !old(run).finished && old(run).tried < old(run).workers ==> {
                let idx = (old(run).start + old(run).tried) % (old(run).workers as int);
                let ready = old(self).repo.jobs@.filter(ready_job_with_id(old(run).job_id@)).len() > 0;
                &&& exists|w: String| w@ == workers@[idx].id@
                    && #[trigger] old(self).repo.jobs@.map_values(try_claim_fn(old(run).job_id@, w, now)) == final(self).repo.jobs@
                &&& ready ==> k == Some(idx as usize) && !final(run).finished
                &&& !ready ==> k is None && final(run).finished
            },
    {
        if run.finished || run.tried == run.workers {
            run.finished = true;
            return None;
        }
        let idx = dispatch_worker_index(run.start, run.tried, run.workers);
        let claimed = self.claim_for_dispatch(run.job_id.as_str(), workers[idx].id.as_str(), now);
        if claimed {
            Some(idx)
        } else {
            run.finished = true;
            None
        }
    }

    /// The ready jobs to dispatch this cycle: none without workers, else the
    /// oldest ready jobs, as many as the workers times the jobs per worker.
    pub fn ready_jobs_for_dispatch(&self) -> (r: Vec<WorkerJobRecord>)
        requires
            self.repo.workers@.len() * self.jobs_per_worker <= i64::MAX,
            self.repo.workers@.len() * self.jobs_per_worker <= usize::MAX,
        ensures
            self.repo.workers@.len() == 0 ==> r@.len() == 0,
            self.repo.workers@.len() > 0 ==> exists|all: Seq<WorkerJobRecord>| {
                &&& sorted_by(all, job_created_le())
                &&& #[trigger] all.to_multiset() == self.repo.jobs@.filter(job_ready()).to_multiset()
                &&& r@ == all.subrange(0, page_end(all.len() as int, 0, self.repo.workers@.len() * self.jobs_per_worker))
            },
    {
        let n = self.repo.workers.len();
        if n == 0 {
            return Vec::new();
        }
        let limit = (n * self.jobs_per_worker) as i64;
        self.repo.get_ready_jobs(limit)
    }

    /// Puts every job held past its timeout at time `now` back to ready;
    /// returns the jobs that were.
    pub fn reset_timed_out_jobs_at(&mut self, now: i64) -> (r: Vec<WorkerJobRecord>)
        ensures
            reset_timed_out_jobs_done(*old(self), *final(self), now, r),
    {
        let timed = self.repo.get_timed_out_jobs(now);
        let ids = job_ids(&timed);
        self.repo.reset_to_ready(&ids, now);
        timed
    }

    /// Puts every job held past its timeout back to ready, by the clock.
    pub fn reset_timed_out_jobs(&mut self) -> (r: Vec<WorkerJobRecord>)
        ensures
            exists|now: i64| reset_timed_out_jobs_done(*old(self), *final(self), now, r),
    {
        let now = now_utc();
        self.reset_timed_out_jobs_at(now)
    }

    /// Where the content of the live file `file_id` lies under the content
    /// root, with its MIME type.
    pub fn file_content_location(&self, file_id: &str) -> (r: Result<(String, String), ApiError>)
        ensures
            match last_where(self.repo.files@, live_file_with_id(file_id@)) {
                Some(f) => r is Ok && r->Ok_0.0@ == path_join(self.storage_path@, f.storage_path@) && r->Ok_0.1 == f.mime_type,
                None => r == Err::<(String, String), ApiError>(ApiError::FileNotFound),
            },
    {
        let (key, mime) = self.repo.get_file_info(file_id)?;
        Ok((join_path(self.storage_path.as_str(), key.as_str()), mime))
    }
}

/// The position of the `i`-th worker to try, counting round from `start`
/// among `n` workers.
pub fn dispatch_worker_index(start: usize, i: usize, n: usize) -> (k: usize)
    requires
        start < n,
        i < n,
    ensures
        k == (start + i) % (n as int),
        k < n,
{
    if i < n - start {
        proof { vstd::arithmetic::div_mod::lemma_small_mod((start + i) as nat, n as nat); }
        start + i
    } else {
        proof {
            vstd::arithmetic::div_mod::lemma_small_mod((start + i - n) as nat, n as nat);
            vstd::arithmetic::div_mod::lemma_mod_add_multiples_vanish(start + i - n, n as int);
        }
        i - (n - start)
    }
}

/// Whether a worker's credentials pass: the server has a secret, and the
/// `Authorization` header is `Bearer ` followed by exactly that secret.
pub open spec fn worker_auth_ok(expected: Option<Seq<char>>, authorization: Option<Seq<char>>) -> bool {
    match (expected, authorization) {
        (Some(e), Some(h)) => has_prefix(h, "Bearer "@) && h.skip(7) == e,
        _ => false,
    }
}

/// Checks a worker's `Authorization` header against the server's secret.
pub fn check_worker_auth(expected: Option<&str>, authorization: Option<&str>) -> (r: Result<(), ApiError>)
    ensures
        r is Ok <==> worker_auth_ok(opt_str_chars(expected), opt_str_chars(authorization)),
        r is Err ==> r == Err::<(), ApiError>(ApiError::InvalidWorkerSecret),
{
    proof { reveal_strlit("Bearer "); }
    match (expected, authorization) {
        (Some(e), Some(h)) => {
            if !starts_with(h, "Bearer ") {
                return Err(ApiError::InvalidWorkerSecret);
            }
            let n = h.unicode_len();
            if n - 7 != e.unicode_len() || !occurs_at_pos(h, e, 7) {
                proof {
                    if h@.skip(7) == e@ {
                        assert(h@.subrange(7, 7 + e@.len() as int) =~= h@.skip(7));
                    }
                }
                return Err(ApiError::InvalidWorkerSecret);
            }
            assert(h@.skip(7) =~= h@.subrange(7, 7 + e@.len() as int));
            Ok(())
        },
        _ => Err(ApiError::InvalidWorkerSecret),
    }
}

/// How many pending jobs a worker gets when it asks: 4 unless it says, and
/// never more than 100.
pub fn pending_jobs_limit(limit: Option<i64>) -> (r: i64)
    ensures
        r == (match limit {
            Some(l) => if l < 100 { l } else { 100 },
            None => 4,
        }),
{
    let l = match limit {
        Some(l) => l,
        None => 4,
    };
    if l < 100 { l } else { 100 }
}

/// The id under which a worker claims jobs: its `X-Worker-Id` header, or
/// `unknown`.
pub fn claiming_worker_id(header: Option<&str>) -> (r: String)
    ensures
        r@ == match header {
            Some(h) => h@,
            None => "unknown"@,
        },
{
    match header {
        Some(h) => h.to_owned(),
        None => "unknown".to_owned(),
    }
}

/// Law: a job can be claimed only once; after one claim succeeds, any other
/// claim of it fails until it is put back to ready.
pub proof fn law_claim_is_exclusive(s: Seq<WorkerJobRecord>, id: Seq<char>, w: String, now: i64)
    ensures
        s.map_values(try_claim_fn(id, w, now)).filter(ready_job_with_id(id)).len() == 0,
{
    let t = s.map_values(try_claim_fn(id, w, now));
    assert forall|i: int| 0 <= i < t.len() implies !ready_job_with_id(id)(#[trigger] t[i]) by {
        assert(t[i] == try_claim_fn(id, w, now)(s[i]));
    }
    crate::seqs::lemma_filter_none(t, ready_job_with_id(id));
}

/// Law: after the timed-out jobs are put back to ready, no job is timed out.
pub proof fn law_no_job_left_timed_out(s: Seq<WorkerJobRecord>, now: i64)
    ensures
        s.map_values(reset_fn(ids_of(s.filter(timed_out(now))), now)).filter(timed_out(now)).len() == 0,
{
    let tos = s.filter(timed_out(now));
    let ids = ids_of(tos);
    let t = s.map_values(reset_fn(ids, now));
    assert forall|i: int| 0 <= i < t.len() implies !timed_out(now)(#[trigger] t[i]) by {
        assert(t[i] == reset_fn(ids, now)(s[i]));
        if timed_out(now)(s[i]) {
            s.lemma_filter_contains(timed_out(now), i);
            let k = choose|k: int| 0 <= k < tos.len() && tos[k] == s[i];
            assert(ids[k] == s[i].id@);
            assert(ids.contains(s[i].id@));
        }
    }
    crate::seqs::lemma_filter_none(t, timed_out(now));
}

/// Law: a worker is deregistered on its third failure in a row, and not
/// before.
pub proof fn law_third_failure_deregisters(o1: DispatchOutcome, o2: DispatchOutcome, o3: DispatchOutcome)
    requires
        o1 == DispatchOutcome::ServerError || o1 == DispatchOutcome::Unreachable,
        o2 == DispatchOutcome::ServerError || o2 == DispatchOutcome::Unreachable,
        o3 == DispatchOutcome::ServerError || o3 == DispatchOutcome::Unreachable,
    ensures
        action_after(0, o1) == (DispatchAction::NextWorker { deregistered: false }),
        action_after(count_after(0, o1), o2) == (DispatchAction::NextWorker { deregistered: false }),
        action_after(count_after(count_after(0, o1), o2), o3) == (DispatchAction::NextWorker { deregistered: true }),
        count_after(count_after(count_after(0, o1), o2), o3) == 0,
{
}

/// Law: a success wipes out a worker's failures, whatever their number.
pub proof fn law_success_resets_failures(c: nat)
    ensures
        count_after(c, DispatchOutcome::Accepted) == 0,
        action_after(c, DispatchOutcome::Accepted) == DispatchAction::Done,
{
}

/// Law: a recorded failure count never reaches the threshold.
pub proof fn law_failures_stay_below_limit(c: nat, o: DispatchOutcome)
    requires
        c < MAX_WORKER_FAILURES,
    ensures
        count_after(c, o) < MAX_WORKER_FAILURES,
{
}

/// Law: claiming hands each listed job (or, for a single claim, the ready
/// job) to the worker: in progress, started and stamped at `now`, with its
/// kind, payload and timeout kept; other jobs are untouched.
pub proof fn law_claim_rows(j: WorkerJobRecord, ids: Seq<Seq<char>>, id: Seq<char>, worker: String, now: i64)
    ensures
        ids.contains(j.id@) ==> {
            let k = claim_fn(ids, worker, now)(j);
            k.status == JobStatus::InProgress && k.worker_id == Some(worker) && k.started_at == Some(now)
                && k.updated_at == now && k.id == j.id && k.job_type == j.job_type && k.payload == j.payload
                && k.timeout_secs == j.timeout_secs && k.created_at == j.created_at
        },
        !ids.contains(j.id@) ==> claim_fn(ids, worker, now)(j) == j,
        j.id@ == id && j.status == JobStatus::Ready ==> {
            let k = try_claim_fn(id, worker, now)(j);
            k.status == JobStatus::InProgress && k.worker_id == Some(worker) && k.started_at == Some(now)
                && k.updated_at == now && k.id == j.id && k.job_type == j.job_type && k.payload == j.payload
                && k.timeout_secs == j.timeout_secs
        },
        !(j.id@ == id && j.status == JobStatus::Ready) ==> try_claim_fn(id, worker, now)(j) == j,
{
}

/// Law: setting a job's status records the status and error at `now`,
/// keeping its worker and payload; putting jobs back makes them ready with
/// no worker and no start; other jobs are untouched.
pub proof fn law_status_reset_rows(j: WorkerJobRecord, id: Seq<char>, ids: Seq<Seq<char>>, status: JobStatus, error: Option<String>, now: i64)
    ensures
        j.id@ == id ==> {
            let k = status_fn(id, status, error, now)(j);
            k.status == status && k.error_message == error && k.updated_at == now && k.id == j.id
                && k.worker_id == j.worker_id && k.started_at == j.started_at && k.payload == j.payload
        },
        j.id@ != id ==> status_fn(id, status, error, now)(j) == j,
        ids.contains(j.id@) ==> {
            let k = reset_fn(ids, now)(j);
            k.status == JobStatus::Ready && k.worker_id is None && k.started_at is None && k.updated_at == now
                && k.id == j.id && k.payload == j.payload && k.job_type == j.job_type
        },
        !ids.contains(j.id@) ==> reset_fn(ids, now)(j) == j,
{
}

/// Law: a worker's report of `"C"` completes the job and of `"E"` fails it,
/// recording the error given, and touches no other job; any other report
/// is `InvalidJobStatus` and changes nothing.
pub proof fn law_status_report(old_s: JobsService, new_s: JobsService, job_id: &str, req: UpdateJobStatusRequest, now: i64, r: Result<(), ApiError>)
    requires
        update_job_status_done(old_s, new_s, job_id, req, now, r),
    ensures
        new_s.repo.jobs@.len() == old_s.repo.jobs@.len(),
        req.status@ == "C"@ ==> r is Ok && forall|i: int| #![trigger new_s.repo.jobs@[i]] 0 <= i < old_s.repo.jobs@.len() && old_s.repo.jobs@[i].id@ == job_id@ ==>
            new_s.repo.jobs@[i].status == JobStatus::Completed && new_s.repo.jobs@[i].error_message == req.error_message
                && new_s.repo.jobs@[i].updated_at == now && new_s.repo.jobs@[i].id == old_s.repo.jobs@[i].id,
        req.status@ == "E"@ ==> r is Ok && forall|i: int| #![trigger new_s.repo.jobs@[i]] 0 <= i < old_s.repo.jobs@.len() && old_s.repo.jobs@[i].id@ == job_id@ ==>
            new_s.repo.jobs@[i].status == JobStatus::Failed && new_s.repo.jobs@[i].error_message == req.error_message
                && new_s.repo.jobs@[i].updated_at == now && new_s.repo.jobs@[i].id == old_s.repo.jobs@[i].id,
        forall|i: int| #![trigger new_s.repo.jobs@[i]] 0 <= i < old_s.repo.jobs@.len() && old_s.repo.jobs@[i].id@ != job_id@ ==>
            new_s.repo.jobs@[i] == old_s.repo.jobs@[i],
        req.status@ != "C"@ && req.status@ != "E"@ ==> r == Err::<(), ApiError>(ApiError::InvalidJobStatus) && new_s.repo.jobs@ == old_s.repo.jobs@,
{
}

/// Law: a worker claims only jobs that were ready, oldest first, at most
/// `limit` of them, and as many as `limit` whenever that many are ready;
/// each claimed job is afterwards in progress for that worker.
pub proof fn law_claims_take_oldest_ready(old_s: JobsService, new_s: JobsService, worker_id: &str, limit: i64, now: i64, r: Vec<WorkerJobRecord>)
    requires
        claim_pending_jobs_done(old_s, new_s, worker_id, limit, now, r),
    ensures
        forall|i: int| 0 <= i < r@.len() ==> (#[trigger] r@[i]).status == JobStatus::Ready && old_s.repo.jobs@.contains(r@[i]),
        forall|i: int, j: int| #![trigger r@[i], r@[j]] 0 <= i <= j < r@.len() ==> r@[i].created_at <= r@[j].created_at,
        limit >= 0 ==> r@.len() <= limit,
        limit >= 0 && old_s.repo.jobs@.filter(job_ready()).len() >= limit ==> r@.len() == limit,
        forall|i: int| #![trigger new_s.repo.jobs@[i]] 0 <= i < old_s.repo.jobs@.len() && ids_of(r@).contains(old_s.repo.jobs@[i].id@) ==>
            new_s.repo.jobs@[i].status == JobStatus::InProgress && (new_s.repo.jobs@[i].worker_id matches Some(w) && w@ == worker_id@)
                && new_s.repo.jobs@[i].started_at == Some(now),
{
    broadcast use vstd::seq_lib::group_to_multiset_ensures;
    let all = choose|all: Seq<WorkerJobRecord>| {
        &&& sorted_by(all, job_created_le())
        &&& #[trigger] all.to_multiset() == old_s.repo.jobs@.filter(job_ready()).to_multiset()
        &&& r@ == all.subrange(0, page_end(all.len() as int, 0, limit as int))
    };
    let ready = old_s.repo.jobs@.filter(job_ready());
    assert forall|i: int| 0 <= i < r@.len() implies (#[trigger] r@[i]).status == JobStatus::Ready && old_s.repo.jobs@.contains(r@[i]) by {
        let x = r@[i];
        assert(all.contains(x)) by { assert(all[i] == x); }
        assert(all.to_multiset().count(x) > 0);
        assert(ready.contains(x));
        old_s.repo.jobs@.lemma_filter_contains_rev(job_ready(), x);
        let k = choose|k: int| 0 <= k < ready.len() && ready[k] == x;
        old_s.repo.jobs@.lemma_filter_pred(job_ready(), k);
    }
    assert forall|i: int, j: int| #![trigger r@[i], r@[j]] 0 <= i <= j < r@.len() implies r@[i].created_at <= r@[j].created_at by {
        assert(r@[i] == all[i]);
        assert(r@[j] == all[j]);
        if i < j {
            assert(job_created_le()(all[i], all[j]));
        }
    }
    assert(all.len() == ready.len()) by {
        assert(all.to_multiset().len() == ready.to_multiset().len());
    }
    let w = choose|w: String| w@ == worker_id@
        && #[trigger] old_s.repo.jobs@.map_values(claim_fn(ids_of(r@), w, now)) == new_s.repo.jobs@;
    assert forall|i: int| #![trigger new_s.repo.jobs@[i]] 0 <= i < old_s.repo.jobs@.len() && ids_of(r@).contains(old_s.repo.jobs@[i].id@) implies
        new_s.repo.jobs@[i].status == JobStatus::InProgress && (new_s.repo.jobs@[i].worker_id matches Some(w2) && w2@ == worker_id@)
            && new_s.repo.jobs@[i].started_at == Some(now) by {
        assert(new_s.repo.jobs@[i] == claim_fn(ids_of(r@), w, now)(old_s.repo.jobs@[i]));
    }
}

} // verus!
