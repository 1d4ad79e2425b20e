//! Scheduled changes, over a small database in memory.
use checkgate::scheduler::{
    execute_due, run, start_pass, DueJob, DuePass, PassAction, PassReply, RunStep, BATCH,
    RETRY_AFTER_SECONDS, TICK_SECONDS,
};
use checkgate::status::Status;
use serde_json::Value;

/// One scheduled change and the flag that it patches, with what an open transaction has done.
#[derive(Clone)]
struct Change {
    executed: bool,
    attempts: i64,
    last_error: Option<String>,
    last_attempt_at: Option<u64>,
    enabled: bool,
}

struct Database {
    now: u64,
    change: Change,
    /// The worker that holds the lock on the row.
    locked_by: Option<usize>,
    approval_required: bool,
    /// The trigger that makes flag writes fail is installed.
    failing: bool,
    /// What the world was told of.
    audits: Vec<Value>,
    begun: usize,
}

/// One worker: its pass, what it has to do next, and its transaction.
struct Worker {
    number: usize,
    pass: Option<DuePass>,
    action: PassAction,
    working: Change,
    saved: Change,
}

fn patch() -> Value {
    serde_json::from_str(r#"{"is_enabled":false}"#).expect("patch parses")
}

/// The change that the patch comes to.
fn change() -> Value {
    serde_json::from_str(r#"{"key":"scheduler_retry_regression","is_enabled":false}"#)
        .expect("change parses")
}

fn job() -> DueJob {
    DueJob {
        id: "job-1".to_string(),
        env_id: "env-1".to_string(),
        flag_key: "scheduler_retry_regression".to_string(),
    }
}

fn database() -> Database {
    Database {
        now: 1_000,
        change: Change {
            executed: false,
            attempts: 0,
            last_error: None,
            last_attempt_at: None,
            enabled: true,
        },
        locked_by: None,
        approval_required: false,
        failing: false,
        audits: vec![],
        begun: 0,
    }
}

fn worker(number: usize, db: &Database) -> Worker {
    let (pass, action) = start_pass();
    Worker {
        number,
        pass: Some(pass),
        action,
        working: db.change.clone(),
        saved: db.change.clone(),
    }
}

impl Worker {
    fn perform(&mut self, db: &mut Database) -> PassReply {
        match &self.action {
            PassAction::Begin => {
                db.begun += 1;
                self.working = db.change.clone();
                PassReply::Done
            }
            PassAction::Claim { retry_after_seconds } => {
                let rested = match db.change.last_attempt_at {
                    Some(tried) => tried + retry_after_seconds <= db.now,
                    None => true,
                };
                if db.change.executed || !rested || db.locked_by.is_some() {
                    return PassReply::Claimed(None);
                }
                db.locked_by = Some(self.number);
                self.working = db.change.clone();
                PassReply::Claimed(Some((job(), patch())))
            }
            PassAction::Savepoint => {
                self.saved = self.working.clone();
                PassReply::Done
            }
            PassAction::LockEnvironment { env_id } => {
                assert_eq!(env_id, "env-1");
                PassReply::Locked { approval_required: db.approval_required }
            }
            PassAction::ApplyPatch { env_id, flag_key, patch: given } => {
                assert_eq!(env_id, "env-1");
                assert_eq!(flag_key, "scheduler_retry_regression");
                assert_eq!(given, &patch());
                self.working.enabled = false;
                if db.failing {
                    return PassReply::Refused(Status::internal_server_error());
                }
                PassReply::Patched(change())
            }
            PassAction::MarkExecuted { id } => {
                assert_eq!(id, "job-1");
                self.working.executed = true;
                self.working.last_error = None;
                self.working.attempts += 1;
                self.working.last_attempt_at = Some(db.now);
                PassReply::Done
            }
            PassAction::RollbackToSavepoint => {
                self.working = self.saved.clone();
                PassReply::Done
            }
            PassAction::RecordFailure { id, error } => {
                assert_eq!(id, "job-1");
                self.working.last_error = Some(error.clone());
                self.working.attempts += 1;
                self.working.last_attempt_at = Some(db.now);
                PassReply::Done
            }
            PassAction::Commit => {
                db.change = self.working.clone();
                db.locked_by = None;
                PassReply::Done
            }
            PassAction::Emit { job: applied, change } => {
                assert_eq!(applied, &job());
                db.audits.push(change.clone());
                PassReply::Done
            }
            PassAction::Stop => unreachable!(),
        }
    }

    /// Performs one action; false where there is nothing more to do.
    fn step(&mut self, db: &mut Database) -> bool {
        if self.action == PassAction::Stop {
            return false;
        }
        let reply = self.perform(db);
        let pass = self.pass.take().expect("a pass that is not stopped");
        let (pass, action) = execute_due(pass, reply);
        self.pass = Some(pass);
        self.action = action;
        true
    }
}

fn run_alone(db: &mut Database) {
    let mut w = worker(0, db);
    while w.step(db) {}
}

#[test]
fn failed_jobs_retry_and_concurrent_workers_execute_once() {
    let mut db = database();
    db.failing = true;
    run_alone(&mut db);
    assert!(!db.change.executed);
    assert_eq!(db.change.attempts, 1);
    assert!(db.change.last_error.is_some());
    assert!(db.change.enabled, "failed patch rolled back");

    db.failing = false;
    db.change.last_attempt_at = Some(db.now - 120);
    let (mut a, mut b) = (worker(1, &db), worker(2, &db));
    loop {
        let (x, y) = (a.step(&mut db), b.step(&mut db));
        if !x && !y {
            break;
        }
    }
    assert!(db.change.executed);
    assert_eq!(db.change.attempts, 2, "one failure and exactly one successful execution");
    assert!(db.change.last_error.is_none());
    assert_eq!(db.audits.len(), 1, "concurrent workers do not emit duplicate changes");
    assert!(!db.change.enabled);
}

#[test]
fn failure_is_noted_with_its_status_line() {
    let mut db = database();
    db.failing = true;
    run_alone(&mut db);
    assert_eq!(db.change.last_error, Some("500 Internal Server Error".to_string()));
}

#[test]
fn approval_makes_the_job_wait() {
    let mut db = database();
    db.approval_required = true;
    run_alone(&mut db);
    assert!(!db.change.executed);
    assert!(db.change.enabled);
    assert_eq!(db.change.attempts, 1);
    assert_eq!(db.change.last_error, Some("409 Conflict".to_string()));
    assert!(db.audits.is_empty());
}

#[test]
fn nothing_due_ends_the_pass() {
    let mut db = database();
    db.change.executed = true;
    run_alone(&mut db);
    assert_eq!(db.begun, 1);
    assert!(db.audits.is_empty());
}

/// Drives a pass to the first action that the test asks for.
fn advance(until: fn(&PassAction) -> bool) -> DuePass {
    let mut db = database();
    let mut w = worker(0, &db);
    while !until(&w.action) {
        assert!(w.step(&mut db));
    }
    w.pass.take().expect("a pass")
}

#[test]
fn database_failures_end_the_pass() {
    let passes = [
        advance(|a| *a == PassAction::Begin),
        advance(|a| matches!(a, PassAction::Claim { .. })),
        advance(|a| *a == PassAction::Savepoint),
        advance(|a| *a == PassAction::Commit),
    ];
    for pass in passes {
        let (_, action) = execute_due(pass, PassReply::Failed);
        assert_eq!(action, PassAction::Stop);
    }
}

#[test]
fn job_that_cannot_be_marked_is_undone() {
    let pass = advance(|a| matches!(a, PassAction::MarkExecuted { .. }));
    let (pass, action) = execute_due(pass, PassReply::Failed);
    assert_eq!(action, PassAction::RollbackToSavepoint);
    let (pass, action) = execute_due(pass, PassReply::Done);
    assert_eq!(
        action,
        PassAction::RecordFailure {
            id: "job-1".to_string(),
            error: "500 Internal Server Error".to_string()
        }
    );
    let (pass, action) = execute_due(pass, PassReply::Done);
    assert_eq!(action, PassAction::Commit);
    let (_, action) = execute_due(pass, PassReply::Done);
    assert_eq!(action, PassAction::Begin);
}

#[test]
fn environment_that_cannot_be_locked_fails_the_job() {
    let pass = advance(|a| matches!(a, PassAction::LockEnvironment { .. }));
    let not_found = Status::new(404).expect("a status");
    let (pass, action) = execute_due(pass, PassReply::Refused(not_found));
    assert_eq!(action, PassAction::RollbackToSavepoint);
    let (_, action) = execute_due(pass, PassReply::Done);
    assert_eq!(
        action,
        PassAction::RecordFailure { id: "job-1".to_string(), error: "404 Not Found".to_string() }
    );
}

#[test]
fn failures_that_cannot_be_noted_end_the_pass() {
    let lost = || {
        let pass = advance(|a| matches!(a, PassAction::ApplyPatch { .. }));
        execute_due(pass, PassReply::Refused(Status::conflict())).0
    };
    let (_, action) = execute_due(lost(), PassReply::Failed);
    assert_eq!(action, PassAction::Stop);
    let (pass, _) = execute_due(lost(), PassReply::Done);
    let (_, action) = execute_due(pass, PassReply::Failed);
    assert_eq!(action, PassAction::Stop);
    let (pass, _) = execute_due(lost(), PassReply::Done);
    let (pass, _) = execute_due(pass, PassReply::Done);
    let (_, action) = execute_due(pass, PassReply::Failed);
    assert_eq!(action, PassAction::Stop);
}

#[test]
fn pass_takes_fifty_jobs_at_most() {
    assert_eq!(BATCH, 50);
    let mut db = database();
    let mut w = worker(0, &db);
    loop {
        // Another job is due every time.
        db.change.executed = false;
        db.change.last_attempt_at = None;
        if !w.step(&mut db) {
            break;
        }
    }
    assert_eq!(db.begun, 50);
    assert_eq!(db.audits.len(), 50);
}

#[test]
fn scheduler_takes_due_jobs_at_every_tick() {
    assert_eq!(TICK_SECONDS, 60);
    assert_eq!(run(RunStep::AwaitTick), RunStep::ExecuteDue);
    assert_eq!(run(RunStep::ExecuteDue), RunStep::AwaitTick);
}

#[test]
fn applied_change_is_the_one_that_is_told() {
    let mut db = database();
    run_alone(&mut db);
    assert_eq!(db.audits, vec![change()]);
    let pass = advance(|a| matches!(a, PassAction::ApplyPatch { .. }));
    let other: Value = serde_json::from_str("[1,2]").expect("change parses");
    let (pass, _) = execute_due(pass, PassReply::Patched(other.clone()));
    let (pass, action) = execute_due(pass, PassReply::Done);
    assert_eq!(action, PassAction::Commit);
    let (_, action) = execute_due(pass, PassReply::Done);
    assert_eq!(action, PassAction::Emit { job: job(), change: other });
}

#[test]
fn commit_that_fails_tells_nobody() {
    let pass = advance(|a| *a == PassAction::Commit);
    let (_, action) = execute_due(pass, PassReply::Failed);
    assert_eq!(action, PassAction::Stop);
}

#[test]
fn failed_job_rests_for_sixty_seconds() {
    assert_eq!(RETRY_AFTER_SECONDS, 60);
    let mut db = database();
    db.failing = true;
    run_alone(&mut db);
    assert_eq!(db.change.attempts, 1);
    assert_eq!(db.change.last_attempt_at, Some(1_000));
    db.now += 59;
    run_alone(&mut db);
    assert_eq!(db.change.attempts, 1);
    db.now += 1;
    run_alone(&mut db);
    assert_eq!(db.change.attempts, 2);
    assert_eq!(db.change.last_attempt_at, Some(1_060));
}

#[test]
fn failed_job_is_tried_once_in_a_pass() {
    let mut db = database();
    db.failing = true;
    run_alone(&mut db);
    assert_eq!(db.begun, 2);
    assert_eq!(db.change.attempts, 1);
}

#[test]
fn executed_job_is_never_changed_again() {
    let mut db = database();
    run_alone(&mut db);
    assert!(db.change.executed);
    let attempts = db.change.attempts;
    for _ in 0..3 {
        db.now += 600;
        run_alone(&mut db);
        assert!(db.change.executed);
        assert_eq!(db.change.attempts, attempts);
    }
    assert_eq!(db.audits.len(), 1);
}
