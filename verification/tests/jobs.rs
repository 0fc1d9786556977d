use job_tracker::client::ClientExample;
use job_tracker::job::{JobMutation, JobStatusEnum, JobUpdate};
use job_tracker::registry::{JobError, JobRegistry};
use job_tracker::runner::{JobRunner, RunnerAction, PHASE_COUNT};

fn pending() -> JobUpdate {
    JobUpdate { status: JobStatusEnum::Pending, progress: Some(0), result: None, error: None }
}

fn client() -> ClientExample {
    ClientExample::new(None)
}

#[test]
fn poll_right_after_submit_is_pending() {
    let c = client();
    let mut reg = JobRegistry::new();
    let id = c.start_long_job(Some(&mut reg)).unwrap();
    let seen = c.poll_job_status(Some(&reg), id).unwrap();
    assert_eq!(seen, Some(pending()));
}

#[test]
fn pending_record_values() {
    let rec = JobUpdate::pending();
    assert_eq!(rec.status, JobStatusEnum::Pending);
    assert_eq!(rec.progress, Some(0));
    assert_eq!(rec.result, None);
    assert_eq!(rec.error, None);
    assert!(rec.is_well_formed());
}

#[test]
fn progress_never_decreases_over_a_run() {
    let c = client();
    let mut reg = JobRegistry::new();
    let id = c.start_long_job(Some(&mut reg)).unwrap();
    let mut runner = JobRunner::new(id.clone());
    let mut seen: Vec<u32> = Vec::new();
    seen.push(reg.get(&id).unwrap().progress.unwrap());
    for _ in 0..5 {
        runner.on_phase_elapsed(&mut reg, None);
        seen.push(reg.get(&id).unwrap().progress.unwrap());
        seen.push(reg.get(&id).unwrap().progress.unwrap());
    }
    assert_eq!(seen, vec![0, 25, 25, 75, 75, 100, 100, 100, 100, 100, 100]);
    for w in seen.windows(2) {
        assert!(w[0] <= w[1]);
    }
}

#[test]
fn progress_never_decreases_when_a_phase_fails() {
    let mut reg = JobRegistry::new();
    let id = ClientExample::submit_with_id(&mut reg, "job".to_string()).unwrap();
    let mut runner = JobRunner::new(id.clone());
    runner.on_phase_elapsed(&mut reg, None);
    assert_eq!(reg.get(&id).unwrap().progress, Some(25));
    runner.on_phase_elapsed(&mut reg, Some("disk full".to_string()));
    let rec = reg.get(&id).unwrap();
    assert_eq!(rec.progress, Some(25));
    assert_eq!(rec.status, JobStatusEnum::Failed);
}

#[test]
fn completed_job_has_result_and_no_error() {
    let mut reg = JobRegistry::new();
    let id = ClientExample::submit_with_id(&mut reg, "job".to_string()).unwrap();
    let mut runner = JobRunner::new(id.clone());
    for _ in 0..PHASE_COUNT {
        runner.on_phase_elapsed(&mut reg, None);
    }
    assert!(runner.is_finished());
    let rec = reg.get(&id).unwrap();
    assert_eq!(
        rec,
        JobUpdate {
            status: JobStatusEnum::Completed,
            progress: Some(100),
            result: Some("Long job finished successfully!".to_string()),
            error: None,
        }
    );
    assert!(rec.is_well_formed());
}

#[test]
fn failed_job_has_error_and_no_result() {
    let mut reg = JobRegistry::new();
    let id = ClientExample::submit_with_id(&mut reg, "job".to_string()).unwrap();
    let mut runner = JobRunner::new(id.clone());
    runner.on_phase_elapsed(&mut reg, Some("boom".to_string()));
    assert!(runner.is_finished());
    assert_eq!(runner.next_action(), RunnerAction::Stop);
    let rec = reg.get(&id).unwrap();
    assert_eq!(
        rec,
        JobUpdate {
            status: JobStatusEnum::Failed,
            progress: Some(0),
            result: None,
            error: Some("boom".to_string()),
        }
    );
    assert!(rec.is_well_formed());
}

#[test]
fn failure_in_last_phase_fails_the_job() {
    let mut reg = JobRegistry::new();
    let id = ClientExample::submit_with_id(&mut reg, "job".to_string()).unwrap();
    let mut runner = JobRunner::new(id.clone());
    runner.on_phase_elapsed(&mut reg, None);
    runner.on_phase_elapsed(&mut reg, None);
    runner.on_phase_elapsed(&mut reg, Some("late".to_string()));
    let rec = reg.get(&id).unwrap();
    assert_eq!(rec.status, JobStatusEnum::Failed);
    assert_eq!(rec.progress, Some(75));
    assert_eq!(rec.result, None);
    assert_eq!(rec.error, Some("late".to_string()));
}

#[test]
fn finished_runner_changes_nothing() {
    let mut reg = JobRegistry::new();
    let id = ClientExample::submit_with_id(&mut reg, "job".to_string()).unwrap();
    let mut runner = JobRunner::new(id.clone());
    for _ in 0..3 {
        runner.on_phase_elapsed(&mut reg, None);
    }
    let done = reg.get(&id).unwrap();
    let state = runner.clone();
    runner.on_phase_elapsed(&mut reg, Some("too late".to_string()));
    runner.on_phase_elapsed(&mut reg, None);
    assert_eq!(reg.get(&id).unwrap(), done);
    assert_eq!(runner, state);
}

#[test]
fn many_submissions_give_distinct_ids() {
    let c = client();
    let mut reg = JobRegistry::new();
    let mut ids: Vec<String> = Vec::new();
    for _ in 0..200 {
        ids.push(c.start_long_job(Some(&mut reg)).unwrap());
    }
    for i in 0..ids.len() {
        for j in (i + 1)..ids.len() {
            assert_ne!(ids[i], ids[j]);
        }
        assert!(reg.contains(&ids[i]));
    }
}

#[test]
fn fresh_id_is_hyphenated() {
    let c = client();
    let mut reg = JobRegistry::new();
    let id = c.start_long_job(Some(&mut reg)).unwrap();
    let chars: Vec<char> = id.chars().collect();
    assert_eq!(chars.len(), 36);
    for (i, ch) in chars.iter().enumerate() {
        if i == 8 || i == 13 || i == 18 || i == 23 {
            assert_eq!(*ch, '-');
        } else {
            assert!(ch.is_ascii_hexdigit());
        }
    }
}

#[test]
fn polling_unknown_id_is_empty() {
    let c = client();
    let mut reg = JobRegistry::new();
    assert_eq!(c.poll_job_status(Some(&reg), "nobody".to_string()), Ok(None));
    c.start_long_job(Some(&mut reg)).unwrap();
    assert_eq!(c.poll_job_status(Some(&reg), "nobody".to_string()), Ok(None));
    assert_eq!(c.poll_job_status(Some(&reg), String::new()), Ok(None));
}

#[test]
fn scenario_one_job_runs_to_completion() {
    let c = client();
    let mut reg = JobRegistry::new();
    let id = c.start_long_job(Some(&mut reg)).unwrap();
    let first = c.poll_job_status(Some(&reg), id.clone()).unwrap().unwrap();
    assert_eq!(first.status, JobStatusEnum::Pending);
    assert_eq!(first.progress, Some(0));
    let mut runner = JobRunner::new(id.clone());
    let mut waited: u64 = 0;
    loop {
        match runner.next_action() {
            RunnerAction::Wait { seconds } => {
                waited += seconds;
                runner.on_phase_elapsed(&mut reg, None);
            }
            RunnerAction::Stop => break,
        }
    }
    assert_eq!(waited, 7);
    let last = c.poll_job_status(Some(&reg), id).unwrap().unwrap();
    assert_eq!(last.status, JobStatusEnum::Completed);
    assert_eq!(last.progress, Some(100));
    assert!(!last.result.clone().unwrap().is_empty());
    assert_eq!(last.error, None);
}

#[test]
fn scenario_two_jobs_progress_independently() {
    let c = client();
    let mut reg = JobRegistry::new();
    let a = c.start_long_job(Some(&mut reg)).unwrap();
    let b = c.start_long_job(Some(&mut reg)).unwrap();
    let mut run_a = JobRunner::new(a.clone());
    let mut run_b = JobRunner::new(b.clone());
    run_a.on_phase_elapsed(&mut reg, None);
    assert_eq!(reg.get(&b), Some(pending()));
    run_b.on_phase_elapsed(&mut reg, None);
    let rec_a = c.poll_job_status(Some(&reg), a.clone()).unwrap().unwrap();
    let rec_b = c.poll_job_status(Some(&reg), b.clone()).unwrap().unwrap();
    assert_eq!(rec_a.status, JobStatusEnum::InProgress);
    assert_eq!(rec_b.status, JobStatusEnum::InProgress);
    assert_eq!(rec_a.progress, Some(25));
    assert_eq!(rec_b.progress, Some(25));
    run_a.on_phase_elapsed(&mut reg, None);
    assert_eq!(reg.get(&a).unwrap().progress, Some(75));
    assert_eq!(reg.get(&b).unwrap().progress, Some(25));
    run_b.on_phase_elapsed(&mut reg, Some("broken".to_string()));
    assert_eq!(reg.get(&a).unwrap().status, JobStatusEnum::InProgress);
    assert_eq!(reg.get(&a).unwrap().error, None);
    assert_eq!(reg.get(&b).unwrap().status, JobStatusEnum::Failed);
}

#[test]
fn runner_waits_two_three_two_seconds() {
    let mut reg = JobRegistry::new();
    let mut runner = JobRunner::new("x".to_string());
    assert_eq!(runner.next_action(), RunnerAction::Wait { seconds: 2 });
    runner.on_phase_elapsed(&mut reg, None);
    assert_eq!(runner.next_action(), RunnerAction::Wait { seconds: 3 });
    runner.on_phase_elapsed(&mut reg, None);
    assert_eq!(runner.next_action(), RunnerAction::Wait { seconds: 2 });
    runner.on_phase_elapsed(&mut reg, None);
    assert_eq!(runner.next_action(), RunnerAction::Stop);
    assert_eq!(runner.phase, 3);
    assert!(!runner.halted);
}

#[test]
fn runner_tolerates_missing_record() {
    let mut reg = JobRegistry::new();
    reg.insert("other".to_string(), pending()).unwrap();
    let mut runner = JobRunner::new("gone".to_string());
    for _ in 0..3 {
        runner.on_phase_elapsed(&mut reg, None);
    }
    assert!(runner.is_finished());
    assert_eq!(reg.get("gone"), None);
    assert_eq!(reg.get("other"), Some(pending()));
}

#[test]
fn phase_mutations() {
    assert_eq!(JobRunner::phase_mutation(0, None), JobMutation::Advance(25));
    assert_eq!(JobRunner::phase_mutation(1, None), JobMutation::Advance(75));
    assert_eq!(
        JobRunner::phase_mutation(2, None),
        JobMutation::Complete("Long job finished successfully!".to_string())
    );
    assert_eq!(
        JobRunner::phase_mutation(1, Some("why".to_string())),
        JobMutation::Fail("why".to_string())
    );
}

#[test]
fn insert_refuses_duplicate() {
    let mut reg = JobRegistry::new();
    assert_eq!(reg.insert("a".to_string(), pending()), Ok(()));
    let other = JobUpdate {
        status: JobStatusEnum::InProgress,
        progress: Some(10),
        result: None,
        error: None,
    };
    assert_eq!(reg.insert("a".to_string(), other), Err(JobError::AlreadyExists));
    assert_eq!(reg.get("a"), Some(pending()));
}

#[test]
fn submit_with_taken_id_is_refused() {
    let mut reg = JobRegistry::new();
    assert_eq!(ClientExample::submit_with_id(&mut reg, "a".to_string()), Ok("a".to_string()));
    reg.update("a", &JobMutation::Advance(25));
    assert_eq!(
        ClientExample::submit_with_id(&mut reg, "a".to_string()),
        Err(JobError::AlreadyExists)
    );
    assert_eq!(reg.get("a").unwrap().progress, Some(25));
}

#[test]
fn lock_failure_is_reported() {
    let c = client();
    assert_eq!(c.start_long_job(None), Err(JobError::LockFailure));
    assert_eq!(c.poll_job_status(None, "a".to_string()), Err(JobError::LockFailure));
}

#[test]
fn update_of_absent_id_is_a_no_op() {
    let mut reg = JobRegistry::new();
    reg.update("missing", &JobMutation::Advance(50));
    assert!(!reg.contains("missing"));
    assert_eq!(reg.get("missing"), None);
    reg.insert("here".to_string(), pending()).unwrap();
    reg.update("missing", &JobMutation::Complete("x".to_string()));
    assert_eq!(reg.get("here"), Some(pending()));
    assert_eq!(reg.get("missing"), None);
}

#[test]
fn mutations_change_the_record() {
    let start = pending();
    let running = JobMutation::Advance(40).apply(&start);
    assert_eq!(
        running,
        JobUpdate { status: JobStatusEnum::InProgress, progress: Some(40), result: None, error: None }
    );
    let done = JobMutation::Complete("ok".to_string()).apply(&running);
    assert_eq!(
        done,
        JobUpdate {
            status: JobStatusEnum::Completed,
            progress: Some(100),
            result: Some("ok".to_string()),
            error: None,
        }
    );
    let failed = JobMutation::Fail("bad".to_string()).apply(&running);
    assert_eq!(
        failed,
        JobUpdate {
            status: JobStatusEnum::Failed,
            progress: Some(40),
            result: None,
            error: Some("bad".to_string()),
        }
    );
}

#[test]
fn snapshot_is_a_copy() {
    let mut reg = JobRegistry::new();
    reg.insert("a".to_string(), pending()).unwrap();
    let before = reg.get("a").unwrap();
    reg.update("a", &JobMutation::Advance(25));
    assert_eq!(before, pending());
    assert_eq!(before.snapshot(), before);
    assert_eq!(reg.get("a").unwrap().progress, Some(25));
}

#[test]
fn well_formedness_is_checked() {
    let both = JobUpdate {
        status: JobStatusEnum::Completed,
        progress: Some(100),
        result: Some("r".to_string()),
        error: Some("e".to_string()),
    };
    assert!(!both.is_well_formed());
    let neither = JobUpdate {
        status: JobStatusEnum::Completed,
        progress: Some(100),
        result: None,
        error: None,
    };
    assert!(!neither.is_well_formed());
    let over = JobUpdate {
        status: JobStatusEnum::InProgress,
        progress: Some(101),
        result: None,
        error: None,
    };
    assert!(!over.is_well_formed());
    let fine = JobUpdate {
        status: JobStatusEnum::Failed,
        progress: None,
        result: None,
        error: Some("e".to_string()),
    };
    assert!(fine.is_well_formed());
}

#[test]
fn terminal_statuses() {
    assert!(!JobStatusEnum::Pending.is_terminal());
    assert!(!JobStatusEnum::InProgress.is_terminal());
    assert!(JobStatusEnum::Completed.is_terminal());
    assert!(JobStatusEnum::Failed.is_terminal());
}

#[test]
fn client_setting_and_default() {
    assert_eq!(ClientExample::new(None).get_value(), "DEFAULT_VALUE_IF_NOT_SET");
    assert_eq!(ClientExample::new(Some("abc".to_string())).get_value(), "abc");
    assert_eq!(ClientExample::new(Some(String::new())).env_value, "");
}

#[test]
fn error_messages() {
    assert_eq!(JobError::LockFailure.message(), "Failed to acquire lock on job states");
    assert_eq!(JobError::AlreadyExists.message(), "A job with this identifier already exists");
}
