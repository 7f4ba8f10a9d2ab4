use neutrino_drive::error::ApiError;
use neutrino_drive::jobs::{
    check_worker_auth, claiming_worker_id, dispatch_worker_index, pending_jobs_limit, CreateJobRequest, DispatchAction,
    DispatchOutcome, JobStatus, JobsRepository, JobsService, UpdateJobStatusRequest, WorkerJobRecord,
    WorkerRegistrationRecord, MAX_WORKER_FAILURES,
};
use neutrino_drive::storage::FileRecord;

fn job(id: &str, status: JobStatus, created_at: i64) -> WorkerJobRecord {
    WorkerJobRecord {
        id: id.into(),
        job_type: "thumbnail".into(),
        payload: "{}".into(),
        status,
        error_message: None,
        worker_id: None,
        timeout_secs: 60,
        started_at: None,
        created_at,
        updated_at: created_at,
    }
}

fn worker(id: &str) -> WorkerRegistrationRecord {
    WorkerRegistrationRecord { id: id.into(), callback_url: format!("http://{id}"), registered_at: 0, last_seen_at: 0 }
}

fn service(jobs: Vec<WorkerJobRecord>, workers: Vec<WorkerRegistrationRecord>) -> JobsService {
    JobsService::new(JobsRepository::new(jobs, workers, vec![]), "/data".into(), 2)
}

#[test]
fn status_codes() {
    assert_eq!(JobStatus::Ready.as_str(), "R");
    assert_eq!(JobStatus::InProgress.as_str(), "I");
    assert_eq!(JobStatus::Completed.as_str(), "C");
    assert_eq!(JobStatus::Failed.as_str(), "E");
    assert_eq!(MAX_WORKER_FAILURES, 3);
}

#[test]
fn created_jobs_are_ready() {
    let mut s = service(vec![], vec![]);
    let j = s.create_job_at(CreateJobRequest { job_type: "index_content".into(), payload: "{\"a\":1}".into(), timeout_secs: 30 }, 5);
    assert_eq!(j.status, JobStatus::Ready);
    assert_eq!(j.created_at, 5);
    assert_eq!(s.repo.jobs.len(), 1);
}

#[test]
fn claiming_takes_the_oldest_ready_jobs() {
    let mut s = service(vec![job("c", JobStatus::Ready, 3), job("a", JobStatus::Ready, 1), job("x", JobStatus::Completed, 0), job("b", JobStatus::Ready, 2)], vec![]);
    let claimed = s.claim_pending_jobs_at("w1", 2, 100);
    let ids: Vec<&str> = claimed.iter().map(|j| j.id.as_str()).collect();
    assert_eq!(ids, vec!["a", "b"]);
    assert!(claimed.iter().all(|j| j.status == JobStatus::Ready));
    let a = s.repo.jobs.iter().find(|j| j.id == "a").unwrap();
    assert_eq!(a.status, JobStatus::InProgress);
    assert_eq!(a.worker_id.as_deref(), Some("w1"));
    assert_eq!(a.started_at, Some(100));
    let c = s.repo.jobs.iter().find(|j| j.id == "c").unwrap();
    assert_eq!(c.status, JobStatus::Ready);
}

#[test]
fn a_job_is_claimed_once() {
    let mut s = service(vec![job("j", JobStatus::Ready, 0)], vec![worker("w1"), worker("w2")]);
    assert!(s.claim_for_dispatch("j", "w1", 10));
    assert!(!s.claim_for_dispatch("j", "w2", 11));
    assert_eq!(s.repo.jobs[0].worker_id.as_deref(), Some("w1"));
}

#[test]
fn workers_report_only_done_or_failed() {
    let mut s = service(vec![job("j", JobStatus::InProgress, 0)], vec![]);
    let bad = UpdateJobStatusRequest { status: "R".into(), error_message: None };
    let err = s.update_job_status_at("j", bad, 1).unwrap_err();
    assert_eq!(err, ApiError::InvalidJobStatus);
    assert_eq!(err.status(), 400);
    assert_eq!(s.repo.jobs[0].status, JobStatus::InProgress);
    let ok = UpdateJobStatusRequest { status: "E".into(), error_message: Some("boom".into()) };
    s.update_job_status_at("j", ok, 2).unwrap();
    assert_eq!(s.repo.jobs[0].status, JobStatus::Failed);
    assert_eq!(s.repo.jobs[0].error_message.as_deref(), Some("boom"));
    let ok = UpdateJobStatusRequest { status: "C".into(), error_message: None };
    s.update_job_status_at("j", ok, 3).unwrap();
    assert_eq!(s.repo.jobs[0].status, JobStatus::Completed);
}

#[test]
fn timed_out_jobs_go_back_to_ready() {
    let mut held = job("late", JobStatus::InProgress, 0);
    held.started_at = Some(100);
    held.worker_id = Some("w".into());
    let mut fresh = job("fresh", JobStatus::InProgress, 0);
    fresh.started_at = Some(150);
    let mut s = service(vec![held, fresh], vec![]);
    let reset = s.reset_timed_out_jobs_at(161);
    assert_eq!(reset.len(), 1);
    assert_eq!(reset[0].id, "late");
    assert_eq!(s.repo.jobs[0].status, JobStatus::Ready);
    assert_eq!(s.repo.jobs[0].worker_id, None);
    assert_eq!(s.repo.jobs[0].started_at, None);
    assert_eq!(s.repo.jobs[1].status, JobStatus::InProgress);
    // exactly at the timeout is not yet timed out
    assert!(s.reset_timed_out_jobs_at(210).is_empty());
}

#[test]
fn third_failure_in_a_row_deregisters_the_worker() {
    let mut s = service(vec![job("j", JobStatus::Ready, 0)], vec![worker("w1"), worker("w2")]);
    assert!(s.claim_for_dispatch("j", "w1", 1));
    assert_eq!(s.handle_dispatch_outcome("j", "w1", DispatchOutcome::ServerError, 2), DispatchAction::NextWorker { deregistered: false });
    assert_eq!(s.repo.jobs[0].status, JobStatus::Ready);
    assert_eq!(s.handle_dispatch_outcome("j", "w1", DispatchOutcome::Unreachable, 3), DispatchAction::NextWorker { deregistered: false });
    assert_eq!(s.handle_dispatch_outcome("j", "w1", DispatchOutcome::ServerError, 4), DispatchAction::NextWorker { deregistered: true });
    assert_eq!(s.repo.workers.len(), 1);
    assert_eq!(s.repo.workers[0].id, "w2");
}

#[test]
fn success_clears_failures_and_refusal_stops() {
    let mut s = service(vec![job("j", JobStatus::Ready, 0)], vec![worker("w1")]);
    s.handle_dispatch_outcome("j", "w1", DispatchOutcome::ServerError, 1);
    s.handle_dispatch_outcome("j", "w1", DispatchOutcome::ServerError, 2);
    assert_eq!(s.handle_dispatch_outcome("j", "w1", DispatchOutcome::Accepted, 3), DispatchAction::Done);
    // the count started over: two more failures do not deregister
    s.handle_dispatch_outcome("j", "w1", DispatchOutcome::ServerError, 4);
    assert_eq!(s.handle_dispatch_outcome("j", "w1", DispatchOutcome::ServerError, 5), DispatchAction::NextWorker { deregistered: false });
    assert_eq!(s.repo.workers.len(), 1);
    assert!(s.claim_for_dispatch("j", "w1", 6));
    assert_eq!(s.handle_dispatch_outcome("j", "w1", DispatchOutcome::Rejected, 7), DispatchAction::Stop);
    assert_eq!(s.repo.jobs[0].status, JobStatus::InProgress);
}

#[test]
fn dispatch_goes_round_robin() {
    let mut s = service(vec![], vec![]);
    assert_eq!(s.next_dispatch_start(3), 0);
    assert_eq!(s.next_dispatch_start(3), 1);
    assert_eq!(s.next_dispatch_start(3), 2);
    assert_eq!(s.next_dispatch_start(3), 0);
    assert_eq!(dispatch_worker_index(2, 0, 3), 2);
    assert_eq!(dispatch_worker_index(2, 1, 3), 0);
    assert_eq!(dispatch_worker_index(2, 2, 3), 1);
    s.dispatch_counter = usize::MAX;
    assert_eq!(s.next_dispatch_start(4), usize::MAX % 4);
    assert_eq!(s.dispatch_counter, 0);
}

#[test]
fn dispatch_fetches_per_worker() {
    let jobs: Vec<WorkerJobRecord> = (0..10).map(|i| job(&format!("j{i}"), JobStatus::Ready, i)).collect();
    let s = service(jobs, vec![worker("w1"), worker("w2")]);
    assert_eq!(s.ready_jobs_for_dispatch().len(), 4);
    let s = service(vec![job("j", JobStatus::Ready, 0)], vec![]);
    assert!(s.ready_jobs_for_dispatch().is_empty());
}

#[test]
fn worker_secret_must_match_exactly() {
    assert!(check_worker_auth(Some("s3cret"), Some("Bearer s3cret")).is_ok());
    assert_eq!(check_worker_auth(Some("s3cret"), Some("Bearer s3cre")).unwrap_err(), ApiError::InvalidWorkerSecret);
    assert_eq!(check_worker_auth(Some("s3cret"), Some("s3cret")).unwrap_err(), ApiError::InvalidWorkerSecret);
    assert_eq!(check_worker_auth(Some("s3cret"), Some("bearer s3cret")).unwrap_err(), ApiError::InvalidWorkerSecret);
    assert_eq!(check_worker_auth(None, Some("Bearer x")).unwrap_err().status(), 401);
    assert!(check_worker_auth(Some("s3cret"), None).is_err());
    assert!(check_worker_auth(Some(""), Some("Bearer ")).is_ok());
}

#[test]
fn pending_limits_and_worker_ids() {
    assert_eq!(pending_jobs_limit(None), 4);
    assert_eq!(pending_jobs_limit(Some(7)), 7);
    assert_eq!(pending_jobs_limit(Some(500)), 100);
    assert_eq!(claiming_worker_id(None), "unknown");
    assert_eq!(claiming_worker_id(Some("w9")), "w9");
}

#[test]
fn file_content_is_found_under_the_root() {
    let f = FileRecord {
        id: "f".into(),
        user_id: "u".into(),
        name: "a.png".into(),
        size_bytes: 1,
        mime_type: "image/png".into(),
        storage_path: "u/f".into(),
        created_at: 0,
        updated_at: 0,
        folder_id: None,
        is_starred: false,
        deleted_at: None,
    };
    let s = JobsService::new(JobsRepository::new(vec![], vec![], vec![f]), "/srv".into(), 1);
    assert_eq!(s.file_content_location("f").unwrap(), ("/srv/u/f".to_string(), "image/png".to_string()));
    assert_eq!(s.file_content_location("g").unwrap_err(), ApiError::FileNotFound);
}

#[test]
fn registering_and_deregistering_workers() {
    let mut s = service(vec![], vec![]);
    let id = s.register_worker_at("http://w", 3);
    assert_eq!(s.repo.list_workers().len(), 1);
    s.deregister_worker(&id);
    assert!(s.repo.list_workers().is_empty());
}

#[test]
fn a_dispatch_run_claims_before_offering_and_tries_each_worker_once() {
    let workers = vec![worker("w1"), worker("w2"), worker("w3")];
    let mut s = service(vec![job("j", JobStatus::Ready, 0)], vec![worker("w1"), worker("w2"), worker("w3")]);
    s.dispatch_counter = 4;
    let mut run = s.begin_dispatch("j", 3);
    assert_eq!(run.start, 1);
    assert_eq!(s.dispatch_counter, 5);
    let k = s.offer_next(&mut run, &workers, 10).unwrap();
    assert_eq!(k, 1);
    assert_eq!(s.repo.jobs[0].status, JobStatus::InProgress);
    assert_eq!(s.repo.jobs[0].worker_id.as_deref(), Some("w2"));
    assert!(s.check_wf());
    let a = s.handle_dispatch_outcome("j", "w2", DispatchOutcome::Unreachable, 11);
    run.after(&a);
    assert_eq!(run.tried, 1);
    assert_eq!(s.offer_next(&mut run, &workers, 12), Some(2));
    let a = s.handle_dispatch_outcome("j", "w3", DispatchOutcome::ServerError, 13);
    run.after(&a);
    assert_eq!(s.offer_next(&mut run, &workers, 14), Some(0));
    let a = s.handle_dispatch_outcome("j", "w1", DispatchOutcome::ServerError, 15);
    run.after(&a);
    assert_eq!(run.tried, 3);
    assert_eq!(s.offer_next(&mut run, &workers, 16), None);
    assert!(run.finished);
}

#[test]
fn a_dispatch_run_stops_when_someone_else_claimed_the_job() {
    let workers = vec![worker("w1"), worker("w2")];
    let mut s = service(vec![job("j", JobStatus::Ready, 0)], vec![worker("w1"), worker("w2")]);
    let mut run = s.begin_dispatch("j", 2);
    assert!(s.claim_for_dispatch("j", "other", 1));
    assert_eq!(s.offer_next(&mut run, &workers, 2), None);
    assert!(run.finished);
    assert_eq!(s.repo.jobs[0].worker_id.as_deref(), Some("other"));
}
